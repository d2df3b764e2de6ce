//! The two image encoders: from the pixel sequence of an image to a buffer
//! of opaque colours for display, and to a buffer of plain colours for
//! export. Both read the pixel sequence row by row and give the pixel at
//! position `y * width + x` the colour that the palette has for it.

use vstd::prelude::*;
use crate::grid::{index_of, pixel_count, spec_index_of};
use crate::palette::{palette_rgb, palette_rgba, spec_pixel_rgb, spec_pixel_rgba, Rgb, Rgba};
use crate::pixel::Pixel;

verus! {

/// Why an encoder rejected its input.
#[derive(Clone, Copy, Debug, PartialEq, Eq, Structural)]
pub enum EncodeError {
    /// The pixel sequence does not have `width * height` pixels.
    LengthMismatch { width: usize, height: usize, length: usize },
}

/// A `width` x `height` raster of colours, held row by row.
#[derive(Debug)]
pub struct ImageBuffer<C> {
    width: usize,
    height: usize,
    colours: Vec<C>,
}

/// The buffer for display: one opaque colour per pixel.
pub type ColorBuffer = ImageBuffer<Rgba>;

/// The buffer for export: one plain colour per pixel.
pub type RgbBuffer = ImageBuffer<Rgb>;

impl<C> ImageBuffer<C> {
    #[verifier::type_invariant]
    spec fn holds_every_pixel(self) -> bool {
        self.colours@.len() == self.width * self.height
    }

    /// Number of columns.
    pub closed spec fn spec_width(&self) -> nat {
        self.width as nat
    }

    /// Number of rows.
    pub closed spec fn spec_height(&self) -> nat {
        self.height as nat
    }

    /// The colours, row by row.
    pub closed spec fn view(&self) -> Seq<C> {
        self.colours@
    }

    /// Number of columns.
    pub fn width(&self) -> (width: usize)
        ensures
            width == self.spec_width(),
    {
        self.width
    }

    /// Number of rows.
    pub fn height(&self) -> (height: usize)
        ensures
            height == self.spec_height(),
    {
        self.height
    }

    /// The colours, row by row: one for each pixel of the image.
    pub fn colours(&self) -> (colours: &Vec<C>)
        ensures
            colours@ == self@,
            colours@.len() == self.spec_width() * self.spec_height(),
    {
        proof {
            use_type_invariant(self);
        }
        &self.colours
    }

}

impl<C: Copy> ImageBuffer<C> {
    /// The colour in column `x` of row `y`, or `None` outside the image.
    pub fn get(&self, x: usize, y: usize) -> (colour: Option<C>)
        ensures
            colour.is_some() <==> x < self.spec_width() && y < self.spec_height(),
            colour.is_some() ==> 0 <= spec_index_of(x as int, y as int, self.spec_width() as int)
                < self@.len() && colour.unwrap() == self@[spec_index_of(
                x as int,
                y as int,
                self.spec_width() as int,
            )],
    {
        proof {
            use_type_invariant(self);
        }
        let length = self.colours.len();
        if x < self.width && y < self.height {
            assert(self.width * self.height == length);
            Some(self.colours[index_of(x, y, self.width, self.height)])
        } else {
            None
        }
    }
}

impl ImageBuffer<Rgb> {
    /// The image as bytes: for each pixel, row by row, its red, green and
    /// blue channel.
    pub fn to_bytes(&self) -> (bytes: Vec<u8>)
        ensures
            bytes@.len() == 3 * self@.len(),
            forall|i: int|
                0 <= i < self@.len() ==> bytes@[3 * i] == (#[trigger] self@[i]).red && bytes@[3 * i
                    + 1] == self@[i].green && bytes@[3 * i + 2] == self@[i].blue,
    {
        let mut bytes: Vec<u8> = Vec::new();
        let mut i: usize = 0;
        while i < self.colours.len()
            invariant
                i <= self.colours@.len(),
                bytes@.len() == 3 * i,
                forall|k: int|
                    0 <= k < i ==> bytes@[3 * k] == (#[trigger] self.colours@[k]).red && bytes@[3
                        * k + 1] == self.colours@[k].green && bytes@[3 * k + 2]
                        == self.colours@[k].blue,
            decreases self.colours@.len() - i,
        {
            let colour = self.colours[i];
            bytes.push(colour.red);
            bytes.push(colour.green);
            bytes.push(colour.blue);
            i += 1;
        }
        bytes
    }
}

/// Whether a pixel sequence of `length` pixels fills a `width` x `height`
/// image exactly.
fn fills_image(length: usize, width: usize, height: usize) -> (fills: bool)
    ensures
        fills <==> length == width * height,
{
    match pixel_count(width, height) {
        Some(count) => count == length,
        None => false,
    }
}

/// Encodes a pixel sequence for display: the pixel at position
/// `y * width + x` becomes the opaque colour that the palette has for its
/// count. A sequence that does not have `width * height` pixels is rejected.
pub fn pixels_to_colorimage(pixels: &Vec<Pixel>, width: usize, height: usize) -> (image: Result<
    ColorBuffer,
    EncodeError,
>)
    ensures
        image.is_ok() <==> pixels@.len() == width * height,
        image.is_ok() ==> image.unwrap().spec_width() == width && image.unwrap().spec_height()
            == height && image.unwrap()@ == pixels@.map_values(|p: Pixel| spec_pixel_rgba(p)),
        image.is_err() ==> image.unwrap_err() == (EncodeError::LengthMismatch {
            width,
            height,
            length: pixels.len(),
        }),
{
    if !fills_image(pixels.len(), width, height) {
        return Err(EncodeError::LengthMismatch { width, height, length: pixels.len() });
    }
    let mut colours: Vec<Rgba> = Vec::new();
    let mut i: usize = 0;
    while i < pixels.len()
        invariant
            i <= pixels@.len(),
            colours@.len() == i,
            forall|k: int| 0 <= k < i ==> colours@[k] == spec_pixel_rgba(#[trigger] pixels@[k]),
        decreases pixels@.len() - i,
    {
        let pixel = pixels[i];
        colours.push(palette_rgba(pixel.count(), pixel.iteration_max()));
        i += 1;
    }
    assert(colours@ =~= pixels@.map_values(|p: Pixel| spec_pixel_rgba(p)));
    Ok(ImageBuffer { width, height, colours })
}

/// Encodes a pixel sequence for export: the pixel at position
/// `y * width + x` becomes the plain colour that the palette has for its
/// count. A sequence that does not have `width * height` pixels is rejected.
pub fn pixels_to_rgbimage(pixels: &Vec<Pixel>, width: usize, height: usize) -> (image: Result<
    RgbBuffer,
    EncodeError,
>)
    ensures
        image.is_ok() <==> pixels@.len() == width * height,
        image.is_ok() ==> image.unwrap().spec_width() == width && image.unwrap().spec_height()
            == height && image.unwrap()@ == pixels@.map_values(|p: Pixel| spec_pixel_rgb(p)),
        image.is_err() ==> image.unwrap_err() == (EncodeError::LengthMismatch {
            width,
            height,
            length: pixels.len(),
        }),
{
    if !fills_image(pixels.len(), width, height) {
        return Err(EncodeError::LengthMismatch { width, height, length: pixels.len() });
    }
    let mut colours: Vec<Rgb> = Vec::new();
    let mut i: usize = 0;
    while i < pixels.len()
        invariant
            i <= pixels@.len(),
            colours@.len() == i,
            forall|k: int| 0 <= k < i ==> colours@[k] == spec_pixel_rgb(#[trigger] pixels@[k]),
        decreases pixels@.len() - i,
    {
        let pixel = pixels[i];
        colours.push(palette_rgb(pixel.count(), pixel.iteration_max()));
        i += 1;
    }
    assert(colours@ =~= pixels@.map_values(|p: Pixel| spec_pixel_rgb(p)));
    Ok(ImageBuffer { width, height, colours })
}

} // verus!
