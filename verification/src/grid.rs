//! The pixel grid: how many pixels an image has and where each one sits in
//! the row-major pixel sequence (row 0 left to right, then row 1, ...).

use vstd::prelude::*;

verus! {

/// Number of pixels of a `width` x `height` image.
pub open spec fn spec_pixel_count(width: nat, height: nat) -> nat {
    width * height
}

/// Position in the row-major sequence of the pixel in column `x` of row `y`.
pub open spec fn spec_index_of(x: int, y: int, width: int) -> int {
    y * width + x
}

/// The longer of the two image sides, and 1 for an image without pixels.
pub open spec fn spec_longer_side(width: nat, height: nat) -> nat {
    if width >= height {
        if width >= 1 {
            width
        } else {
            1
        }
    } else {
        height
    }
}

/// A position below `width * height` and its column and row determine one
/// another.
pub proof fn lemma_index_in_range(x: int, y: int, width: int, height: int)
    requires
        0 <= x < width,
        0 <= y < height,
    ensures
        0 <= spec_index_of(x, y, width) < width * height,
        spec_index_of(x, y, width) % width == x,
        spec_index_of(x, y, width) / width == y,
{
    assert(y * width + x < width * height) by (nonlinear_arith)
        requires
            0 <= x < width,
            0 <= y < height,
    ;
    assert(y * width >= 0) by (nonlinear_arith)
        requires
            0 <= y,
            0 < width,
    ;
    vstd::arithmetic::div_mod::lemma_fundamental_div_mod_converse(y * width + x, width, y, x);
}

/// Every position below `width * height` is the position of exactly the
/// pixel in column `i % width` of row `i / width`.
pub proof fn lemma_position_in_range(i: int, width: int, height: int)
    requires
        0 <= i < width * height,
        0 <= width,
        0 <= height,
    ensures
        0 < width,
        0 <= i % width < width,
        0 <= i / width < height,
        spec_index_of(i % width, i / width, width) == i,
{
    assert(width > 0) by (nonlinear_arith)
        requires
            0 <= i < width * height,
            0 <= width,
            0 <= height,
    ;
    vstd::arithmetic::div_mod::lemma_fundamental_div_mod(i, width);
    vstd::arithmetic::div_mod::lemma_mod_bound(i, width);
    let q = i / width;
    let r = i % width;
    assert(i == width * q + r);
    assert(q >= 0 && q < height) by (nonlinear_arith)
        requires
            i == width * q + r,
            0 <= r < width,
            0 <= i < width * height,
    ;
    assert(q * width == width * q) by (nonlinear_arith);
}

/// The number of pixels of the image, or `None` where it does not fit in a
/// `usize`.
pub fn pixel_count(width: usize, height: usize) -> (count: Option<usize>)
    ensures
        count.is_some() <==> spec_pixel_count(width as nat, height as nat) <= usize::MAX,
        count.is_some() ==> count.unwrap() == spec_pixel_count(width as nat, height as nat),
{
    width.checked_mul(height)
}

/// Position in the row-major sequence of the pixel in column `x` of row `y`.
pub fn index_of(x: usize, y: usize, width: usize, height: usize) -> (index: usize)
    requires
        x < width,
        y < height,
        width * height <= usize::MAX,
    ensures
        index == spec_index_of(x as int, y as int, width as int),
        index < width * height,
{
    proof {
        lemma_index_in_range(x as int, y as int, width as int, height as int);
    }
    y * width + x
}

/// Column and row of the pixel at position `index` of the row-major
/// sequence of an image `width` pixels wide.
pub fn position_of(index: usize, width: usize) -> (position: (usize, usize))
    requires
        width > 0,
    ensures
        position.0 == index as int % width as int,
        position.1 == index as int / width as int,
        position.0 < width,
        spec_index_of(position.0 as int, position.1 as int, width as int) == index,
{
    proof {
        vstd::arithmetic::div_mod::lemma_fundamental_div_mod(index as int, width as int);
        vstd::arithmetic::div_mod::lemma_mod_bound(index as int, width as int);
        assert((index as int / width as int) * width == width * (index as int / width as int))
            by (nonlinear_arith);
    }
    (index % width, index / width)
}

/// The divisor of the plane distance per pixel: the longer image side,
/// taken as 1 for an image without pixels so that it is never zero.
pub fn longer_side(width: usize, height: usize) -> (side: usize)
    ensures
        side == spec_longer_side(width as nat, height as nat),
        side >= 1,
        side >= width,
        side >= height,
{
    if width >= height {
        if width >= 1 {
            width
        } else {
            1
        }
    } else {
        height
    }
}

} // verus!
