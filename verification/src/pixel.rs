//! Pixels and the generator of the pixel sequence.
//!
//! A pixel is the escape-time count of one point of the plane together with
//! the cap that the count was computed under. A count equal to its cap means
//! that the orbit did not escape within the cap and the point is taken to
//! lie inside the set.

use vstd::prelude::*;
use crate::grid::{spec_index_of, lemma_position_in_range};

verus! {

/// `count`, held down to `iteration_max`.
pub open spec fn spec_capped(count: nat, iteration_max: nat) -> nat {
    if count <= iteration_max {
        count
    } else {
        iteration_max
    }
}

/// The iteration count of one pixel and the cap it was computed under.
#[derive(Clone, Copy, Debug, PartialEq, Eq)]
pub struct Pixel {
    count: usize,
    iteration_max: usize,
}

impl Pixel {
    #[verifier::type_invariant]
    spec fn within_cap(self) -> bool {
        self.count <= self.iteration_max
    }

    /// The iteration count.
    pub closed spec fn spec_count(&self) -> nat {
        self.count as nat
    }

    /// The cap on the iteration count.
    pub closed spec fn spec_iteration_max(&self) -> nat {
        self.iteration_max as nat
    }

    /// Two pixels with the same count and the same cap are the same pixel.
    pub proof fn lemma_same_pixel(a: Pixel, b: Pixel)
        requires
            a.spec_count() == b.spec_count(),
            a.spec_iteration_max() == b.spec_iteration_max(),
        ensures
            a == b,
    {
    }

    /// A pixel with the given count under the given cap. A count above the
    /// cap is held down to it: reaching the cap is all that is recorded of
    /// an orbit that did not escape.
    pub fn new(count: usize, iteration_max: usize) -> (pixel: Pixel)
        ensures
            pixel.spec_count() == spec_capped(count as nat, iteration_max as nat),
            pixel.spec_iteration_max() == iteration_max,
    {
        if count <= iteration_max {
            Pixel { count, iteration_max }
        } else {
            Pixel { count: iteration_max, iteration_max }
        }
    }

    /// The iteration count, which never exceeds the cap.
    pub fn count(&self) -> (count: usize)
        ensures
            count == self.spec_count(),
            count <= self.spec_iteration_max(),
    {
        proof {
            use_type_invariant(self);
        }
        self.count
    }

    /// The cap on the iteration count.
    pub fn iteration_max(&self) -> (iteration_max: usize)
        ensures
            iteration_max == self.spec_iteration_max(),
    {
        self.iteration_max
    }

    /// Whether the point is taken to lie inside the set: its orbit reached
    /// the cap without escaping.
    pub fn is_inside(&self) -> (inside: bool)
        ensures
            inside <==> self.spec_count() == self.spec_iteration_max(),
    {
        self.count == self.iteration_max
    }
}

/// `pixel` is what pixel (`x`, `y`) holds when `evaluate` computed its count
/// under the cap `iteration_max`.
pub open spec fn is_pixel_at<F: Fn(usize, usize) -> usize>(
    pixel: Pixel,
    x: usize,
    y: usize,
    iteration_max: usize,
    evaluate: F,
) -> bool {
    &&& pixel.spec_iteration_max() == iteration_max
    &&& exists|count: usize| #[trigger]
        call_ensures(evaluate, (x, y), count) && pixel.spec_count() == spec_capped(
            count as nat,
            iteration_max as nat,
        )
}

/// `pixels` is the row-major pixel sequence of a `width` x `height` image
/// whose counts `evaluate` computed under the cap `iteration_max`.
pub open spec fn is_pixel_data<F: Fn(usize, usize) -> usize>(
    pixels: Seq<Pixel>,
    width: usize,
    height: usize,
    iteration_max: usize,
    evaluate: F,
) -> bool {
    &&& pixels.len() == width * height
    &&& forall|x: usize, y: usize|
        x < width && y < height ==> is_pixel_at(
            #[trigger] pixels[spec_index_of(x as int, y as int, width as int)],
            x,
            y,
            iteration_max,
            evaluate,
        )
}

/// Row by row and, within a row, column by column, positions grow.
proof fn lemma_index_increases(x1: int, y1: int, x2: int, y2: int, width: int)
    requires
        0 <= x1 < width,
        0 <= x2 <= width,
        0 <= y1,
        y1 < y2 || (y1 == y2 && x1 < x2),
    ensures
        0 <= spec_index_of(x1, y1, width) < spec_index_of(x2, y2, width),
{
    assert(0 <= y1 * width + x1 < y2 * width + x2) by (nonlinear_arith)
        requires
            0 <= x1 < width,
            0 <= x2 <= width,
            0 <= y1,
            y1 < y2 || (y1 == y2 && x1 < x2),
    ;
}

/// Computes the pixel sequence of a `width` x `height` image: for each row
/// from the top, for each column from the left, the count that `evaluate`
/// returns for that column and row, capped at `iteration_max`. An image
/// without columns or without rows has the empty sequence.
pub fn calculate_pixel_data<F: Fn(usize, usize) -> usize>(
    width: usize,
    height: usize,
    iteration_max: usize,
    evaluate: F,
) -> (pixels: Vec<Pixel>)
    requires
        width * height <= usize::MAX,
        forall|x: usize, y: usize| x < width && y < height ==> call_requires(evaluate, (x, y)),
    ensures
        is_pixel_data(pixels@, width, height, iteration_max, evaluate),
        pixels@.len() == width * height,
        forall|i: int|
            0 <= i < pixels@.len() ==> (#[trigger] pixels@[i]).spec_count() <= iteration_max
                && pixels@[i].spec_iteration_max() == iteration_max,
{
    let mut pixels: Vec<Pixel> = Vec::new();
    let mut y: usize = 0;
    while y < height
        invariant
            y <= height,
            width * height <= usize::MAX,
            pixels@.len() == y * width,
            forall|x: usize, y: usize| x < width && y < height ==> call_requires(evaluate, (x, y)),
            forall|i: int|
                0 <= i < pixels@.len() ==> (#[trigger] pixels@[i]).spec_count() <= iteration_max
                    && pixels@[i].spec_iteration_max() == iteration_max,
            forall|cx: usize, cy: usize|
                cx < width && cy < y ==> is_pixel_at(
                    #[trigger] pixels@[spec_index_of(cx as int, cy as int, width as int)],
                    cx,
                    cy,
                    iteration_max,
                    evaluate,
                ),
        decreases height - y,
    {
        let mut x: usize = 0;
        while x < width
            invariant
                x <= width,
                y < height,
                width * height <= usize::MAX,
                pixels@.len() == y * width + x,
                forall|x: usize, y: usize|
                    x < width && y < height ==> call_requires(evaluate, (x, y)),
                forall|i: int|
                    0 <= i < pixels@.len() ==> (#[trigger] pixels@[i]).spec_count()
                        <= iteration_max && pixels@[i].spec_iteration_max() == iteration_max,
                forall|cx: usize, cy: usize|
                    cx < width && (cy < y || (cy == y && cx < x)) ==> is_pixel_at(
                        #[trigger] pixels@[spec_index_of(cx as int, cy as int, width as int)],
                        cx,
                        cy,
                        iteration_max,
                        evaluate,
                    ),
            decreases width - x,
        {
            let count = evaluate(x, y);
            let pixel = Pixel::new(count, iteration_max);
            let ghost before = pixels@;
            pixels.push(pixel);
            proof {
                assert(spec_index_of(x as int, y as int, width as int) == before.len());
                assert forall|cx: usize, cy: usize|
                    cx < width && (cy < y || (cy == y && cx < x + 1)) implies is_pixel_at(
                    #[trigger] pixels@[spec_index_of(cx as int, cy as int, width as int)],
                    cx,
                    cy,
                    iteration_max,
                    evaluate,
                ) by {
                    if cy == y && cx == x {
                        assert(pixels@[spec_index_of(cx as int, cy as int, width as int)]
                            == pixel);
                        assert(call_ensures(evaluate, (x, y), count));
                    } else {
                        lemma_index_increases(
                            cx as int,
                            cy as int,
                            x as int,
                            y as int,
                            width as int,
                        );
                        assert(pixels@[spec_index_of(cx as int, cy as int, width as int)]
                            == before[spec_index_of(cx as int, cy as int, width as int)]);
                    }
                }
            }
            x += 1;
        }
        proof {
            assert(y * width + width == (y + 1) * width) by (nonlinear_arith);
        }
        y += 1;
    }
    proof {
        assert(y == height);
        assert(y * width == width * height) by (nonlinear_arith)
            requires
                y == height,
        ;
    }
    pixels
}

/// Generating twice with the same parameters gives the same pixel sequence:
/// where `evaluate` has one count for each column and row, any two pixel
/// sequences of the same image under the same cap are equal.
pub proof fn lemma_pixel_data_is_determined<F: Fn(usize, usize) -> usize>(
    first: Seq<Pixel>,
    second: Seq<Pixel>,
    width: usize,
    height: usize,
    iteration_max: usize,
    evaluate: F,
)
    requires
        is_pixel_data(first, width, height, iteration_max, evaluate),
        is_pixel_data(second, width, height, iteration_max, evaluate),
        forall|x: usize, y: usize, c1: usize, c2: usize|
            call_ensures(evaluate, (x, y), c1) && call_ensures(evaluate, (x, y), c2) ==> c1 == c2,
    ensures
        first == second,
{
    assert forall|i: int| 0 <= i < first.len() implies first[i] == second[i] by {
        lemma_position_in_range(i, width as int, height as int);
        let x = (i % width as int) as usize;
        let y = (i / width as int) as usize;
        assert(is_pixel_at(
            first[spec_index_of(x as int, y as int, width as int)],
            x,
            y,
            iteration_max,
            evaluate,
        ));
        assert(is_pixel_at(
            second[spec_index_of(x as int, y as int, width as int)],
            x,
            y,
            iteration_max,
            evaluate,
        ));
        Pixel::lemma_same_pixel(first[i], second[i]);
    }
    assert(first =~= second);
}

/// The pixel sequence is laid out row by row: the pixel at position `index`
/// is the one computed for column `index % width` of row `index / width`,
/// and the pixel computed for column `x` of row `y` stands at position
/// `y * width + x`.
pub proof fn lemma_pixel_data_is_row_major<F: Fn(usize, usize) -> usize>(
    pixels: Seq<Pixel>,
    width: usize,
    height: usize,
    iteration_max: usize,
    evaluate: F,
    index: int,
)
    requires
        is_pixel_data(pixels, width, height, iteration_max, evaluate),
        0 <= index < pixels.len(),
    ensures
        width > 0,
        index / (width as int) < (height as int),
        is_pixel_at(
            pixels[index],
            (index % width as int) as usize,
            (index / width as int) as usize,
            iteration_max,
            evaluate,
        ),
{
    lemma_position_in_range(index, width as int, height as int);
    let x = (index % width as int) as usize;
    let y = (index / width as int) as usize;
    assert(is_pixel_at(
        pixels[spec_index_of(x as int, y as int, width as int)],
        x,
        y,
        iteration_max,
        evaluate,
    ));
}

} // verus!
