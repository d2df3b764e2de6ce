//! The state of the interactive generator and what each user action does to
//! it: generating the pixel sequence of the image, handing out the buffer to
//! display, handing out the buffer to export, and the two status messages.
//! Drawing the window and writing the file are the caller's part.

use vstd::prelude::*;
use crate::encode::{pixels_to_colorimage, pixels_to_rgbimage, ColorBuffer, RgbBuffer};
use crate::palette::{spec_pixel_rgb, spec_pixel_rgba};
use crate::pixel::{calculate_pixel_data, is_pixel_data, Pixel};

verus! {

/// The title of the generator's window.
pub const APP_NAME: &'static str = "Mandelbrot Set Image Generator";

/// A span of time: whole seconds and the nanoseconds beyond them.
#[derive(Clone, Copy, Debug, PartialEq, Eq)]
pub struct Elapsed {
    secs: u64,
    nanos: u32,
}

impl Elapsed {
    #[verifier::type_invariant]
    spec fn below_one_second(self) -> bool {
        self.nanos < 1_000_000_000
    }

    /// The whole seconds.
    pub closed spec fn spec_secs(&self) -> u64 {
        self.secs
    }

    /// The nanoseconds beyond the whole seconds.
    pub closed spec fn spec_nanos(&self) -> u32 {
        self.nanos
    }

    /// The span of `secs` seconds and `nanos` nanoseconds, or `None` where
    /// `nanos` is a second or more.
    pub fn new(secs: u64, nanos: u32) -> (elapsed: Option<Elapsed>)
        ensures
            elapsed.is_some() <==> nanos < 1_000_000_000,
            elapsed.is_some() ==> elapsed.unwrap().spec_secs() == secs
                && elapsed.unwrap().spec_nanos() == nanos,
    {
        if nanos < 1_000_000_000 {
            Some(Elapsed { secs, nanos })
        } else {
            None
        }
    }

    /// The whole seconds.
    pub fn secs(&self) -> (secs: u64)
        ensures
            secs == self.spec_secs(),
    {
        self.secs
    }

    /// The nanoseconds beyond the whole seconds, always below a second.
    pub fn nanos(&self) -> (nanos: u32)
        ensures
            nanos == self.spec_nanos(),
            nanos < 1_000_000_000,
    {
        proof {
            use_type_invariant(self);
        }
        self.nanos
    }
}

/// `std::time::Instant`, a moment read from the clock. It is carried from
/// the start of a measurement to its end and never looked into.
#[verifier::external_type_specification]
#[verifier::external_body]
pub struct ExInstant(std::time::Instant);

/// Reads the clock through `std::time::Instant::now`. Nothing is claimed of
/// the moment it returns.
#[verifier::external_body]
fn clock_now() -> (now: std::time::Instant) {
    std::time::Instant::now()
}

/// The time that has passed since `start`, from `std::time::Instant::elapsed`,
/// as its whole seconds and the nanoseconds beyond them. All that is claimed
/// is that the nanoseconds stay below one second, as
/// `std::time::Duration::subsec_nanos` documents.
#[verifier::external_body]
fn elapsed_since(start: &std::time::Instant) -> (elapsed: (u64, u32))
    ensures
        elapsed.1 < 1_000_000_000,
{
    let span = start.elapsed();
    (span.as_secs(), span.subsec_nanos())
}

/// The text that the standard library's `Debug` formatting gives for a
/// `std::time::Duration` of `secs` seconds and `nanos` nanoseconds.
pub uninterp spec fn duration_text(secs: u64, nanos: u32) -> Seq<char>;

/// Formats a span of time as `std::time::Duration`'s `Debug` formatting
/// does. The text is a function of the seconds and nanoseconds alone; what
/// it reads is not stated here. With the nanoseconds below one second,
/// `std::time::Duration::new` does not panic.
#[verifier::external_body]
fn format_duration(secs: u64, nanos: u32) -> (text: String)
    requires
        nanos < 1_000_000_000,
    ensures
        text@ == duration_text(secs, nanos),
{
    format!("{:?}", std::time::Duration::new(secs, nanos))
}

/// The message shown after an image was generated in `elapsed`.
pub open spec fn spec_generation_message(elapsed: Elapsed) -> Seq<char> {
    "Generated in "@ + duration_text(elapsed.spec_secs(), elapsed.spec_nanos())
}

/// The message shown after the image was written to `path`.
pub open spec fn spec_saved_message(path: Seq<char>) -> Seq<char> {
    "Saved to "@ + path
}

/// The message shown when an export is asked for before anything was
/// generated.
pub open spec fn spec_nothing_generated_message() -> Seq<char> {
    "Nothing generated yet"@
}

/// The message shown when the pixel sequence no longer has as many pixels
/// as the image size that is set.
pub open spec fn spec_size_changed_message() -> Seq<char> {
    "Image size changed since generation"@
}

/// The message shown after an image was generated in `elapsed`: the words
/// "Generated in" and the span of time as the standard library's `Debug`
/// formatting writes it.
pub fn generation_message(elapsed: &Elapsed) -> (message: String)
    ensures
        message@ == spec_generation_message(*elapsed),
{
    let text = format_duration(elapsed.secs(), elapsed.nanos());
    String::from_str("Generated in ").concat(text.as_str())
}

/// The state of the generator: the size of the image and the cap on the
/// iteration count, the path to export to, the two status messages, and
/// what was last generated together with the time that took.
#[derive(Debug)]
pub struct AppData {
    pub image_width: usize,
    pub image_height: usize,
    pub iteration_max: usize,
    pub save_path: String,
    pub save_msg: String,
    pub generation_msg: String,
    pub pixel_data: Option<(Vec<Pixel>, Elapsed)>,
}

impl AppData {
    /// `self` and `other` agree in the image size, the cap and the path.
    pub open spec fn same_settings(&self, other: &AppData) -> bool {
        &&& self.image_width == other.image_width
        &&& self.image_height == other.image_height
        &&& self.iteration_max == other.iteration_max
        &&& self.save_path@ == other.save_path@
    }

    /// The state the generator starts in: a 640 x 320 image, a cap of 1000
    /// iterations, no messages and nothing generated.
    pub fn new() -> (data: AppData)
        ensures
            data.image_width == 640,
            data.image_height == 320,
            data.iteration_max == 1000,
            data.save_path@ == "output/mandelbrot.png"@,
            data.save_msg@ == Seq::<char>::empty(),
            data.generation_msg@ == Seq::<char>::empty(),
            data.pixel_data is None,
    {
        AppData {
            image_width: 640,
            image_height: 320,
            iteration_max: 1000,
            save_path: String::from_str("output/mandelbrot.png"),
            save_msg: String::new(),
            generation_msg: String::new(),
            pixel_data: None,
        }
    }

    /// The pixel sequence of the image as it is set, with the counts that
    /// `evaluate` computes, and the time that computing it took.
    fn timed_pixel_data<F: Fn(usize, usize) -> usize>(&self, evaluate: F) -> (generated: (
        Vec<Pixel>,
        Elapsed,
    ))
        requires
            self.image_width * self.image_height <= usize::MAX,
            forall|x: usize, y: usize|
                x < self.image_width && y < self.image_height ==> call_requires(evaluate, (x, y)),
        ensures
            is_pixel_data(
                generated.0@,
                self.image_width,
                self.image_height,
                self.iteration_max,
                evaluate,
            ),
    {
        let start = clock_now();
        let pixels = calculate_pixel_data(
            self.image_width,
            self.image_height,
            self.iteration_max,
            evaluate,
        );
        let (secs, nanos) = elapsed_since(&start);
        (pixels, Elapsed { secs, nanos })
    }

    /// Generates the pixel sequence of the image as it is set, with the
    /// counts that `evaluate` computes, and keeps it together with the time
    /// that took. Nothing else changes.
    pub fn generate_pixel_data<F: Fn(usize, usize) -> usize>(&mut self, evaluate: F)
        requires
            old(self).image_width * old(self).image_height <= usize::MAX,
            forall|x: usize, y: usize|
                x < old(self).image_width && y < old(self).image_height ==> call_requires(
                    evaluate,
                    (x, y),
                ),
        ensures
            final(self).same_settings(old(self)),
            final(self).save_msg@ == old(self).save_msg@,
            final(self).generation_msg@ == old(self).generation_msg@,
            final(self).pixel_data is Some,
            is_pixel_data(
                final(self).pixel_data.unwrap().0@,
                old(self).image_width,
                old(self).image_height,
                old(self).iteration_max,
                evaluate,
            ),
    {
        let generated = self.timed_pixel_data(evaluate);
        self.pixel_data = Some(generated);
    }

    /// The user asked for a new image: generates the pixel sequence as
    /// `generate_pixel_data` does, says in the generation message how long
    /// that took, and returns the buffer to display. The buffer always
    /// comes: what was just generated fits the image size.
    pub fn generate_clicked<F: Fn(usize, usize) -> usize>(&mut self, evaluate: F) -> (image:
        ColorBuffer)
        requires
            old(self).image_width * old(self).image_height <= usize::MAX,
            forall|x: usize, y: usize|
                x < old(self).image_width && y < old(self).image_height ==> call_requires(
                    evaluate,
                    (x, y),
                ),
        ensures
            final(self).same_settings(old(self)),
            final(self).save_msg@ == old(self).save_msg@,
            final(self).pixel_data is Some,
            is_pixel_data(
                final(self).pixel_data.unwrap().0@,
                old(self).image_width,
                old(self).image_height,
                old(self).iteration_max,
                evaluate,
            ),
            final(self).generation_msg@ == spec_generation_message(
                final(self).pixel_data.unwrap().1,
            ),
            image.spec_width() == old(self).image_width,
            image.spec_height() == old(self).image_height,
            image@ == final(self).pixel_data.unwrap().0@.map_values(
                |p: Pixel| spec_pixel_rgba(p),
            ),
    {
        let (pixels, elapsed) = self.timed_pixel_data(evaluate);
        let encoded = pixels_to_colorimage(&pixels, self.image_width, self.image_height);
        self.generation_msg = generation_message(&elapsed);
        self.pixel_data = Some((pixels, elapsed));
        encoded.unwrap()
    }

    /// The user edited the path to export to: the message of the last
    /// export no longer applies and is cleared.
    pub fn save_path_edited(&mut self)
        ensures
            final(self).same_settings(old(self)),
            final(self).save_msg@ == Seq::<char>::empty(),
            final(self).generation_msg@ == old(self).generation_msg@,
            final(self).pixel_data == old(self).pixel_data,
    {
        self.save_msg = String::new();
    }

    /// The user asked for an export. Where a pixel sequence was generated
    /// and still fits the image size, returns the buffer to write and
    /// changes nothing. Otherwise returns `None` and says why in the save
    /// message: nothing was generated yet, or the image size was changed
    /// since.
    pub fn save_clicked(&mut self) -> (image: Option<RgbBuffer>)
        ensures
            final(self).same_settings(old(self)),
            final(self).generation_msg@ == old(self).generation_msg@,
            final(self).pixel_data == old(self).pixel_data,
            image.is_some() <==> old(self).pixel_data is Some && old(
                self,
            ).pixel_data.unwrap().0@.len() == old(self).image_width * old(self).image_height,
            image.is_some() ==> final(self).save_msg@ == old(self).save_msg@
                && image.unwrap().spec_width() == old(self).image_width
                && image.unwrap().spec_height() == old(self).image_height && image.unwrap()@
                == old(self).pixel_data.unwrap().0@.map_values(|p: Pixel| spec_pixel_rgb(p)),
            old(self).pixel_data is None ==> final(self).save_msg@
                == spec_nothing_generated_message(),
            image.is_none() && old(self).pixel_data is Some ==> final(self).save_msg@
                == spec_size_changed_message(),
    {
        match &self.pixel_data {
            Some((pixels, _)) => {
                match pixels_to_rgbimage(pixels, self.image_width, self.image_height) {
                    Ok(buffer) => Some(buffer),
                    Err(_) => {
                        self.save_msg = String::from_str("Image size changed since generation");
                        None
                    },
                }
            },
            None => {
                self.save_msg = String::from_str("Nothing generated yet");
                None
            },
        }
    }

    /// The caller has tried to write the exported image to the path that is
    /// set and reports how that went: the save message names the path after
    /// a success and repeats the reported reason after a failure. What was
    /// generated stays, so that the export can be tried again.
    pub fn save_finished(&mut self, outcome: Result<(), String>)
        ensures
            final(self).same_settings(old(self)),
            final(self).generation_msg@ == old(self).generation_msg@,
            final(self).pixel_data == old(self).pixel_data,
            outcome is Ok ==> final(self).save_msg@ == spec_saved_message(old(self).save_path@),
            outcome is Err ==> final(self).save_msg@ == outcome->Err_0@,
    {
        match outcome {
            Ok(_) => {
                self.save_msg = String::from_str("Saved to ").concat(self.save_path.as_str());
            },
            Err(reason) => {
                self.save_msg = reason;
            },
        }
    }
}

impl Default for AppData {
    /// The empty state: an image without pixels, a cap of zero, empty texts
    /// and nothing generated.
    fn default() -> (data: AppData)
        ensures
            data.image_width == 0,
            data.image_height == 0,
            data.iteration_max == 0,
            data.save_path@ == Seq::<char>::empty(),
            data.save_msg@ == Seq::<char>::empty(),
            data.generation_msg@ == Seq::<char>::empty(),
            data.pixel_data is None,
    {
        AppData {
            image_width: 0,
            image_height: 0,
            iteration_max: 0,
            save_path: String::new(),
            save_msg: String::new(),
            generation_msg: String::new(),
            pixel_data: None,
        }
    }
}

} // verus!
