//! The palette: the colour of an iteration count under its cap.
//!
//! A count that reached its cap has the inside colour, black. A count below
//! its cap lies on a gradient from deep blue, for orbits that escape at
//! once, to near white, for orbits that escape just before the cap. Every
//! colour of the gradient has a blue channel of at least 128, so no escaped
//! point is ever drawn in the inside colour.

use vstd::prelude::*;
use crate::pixel::Pixel;

verus! {

/// An opaque colour of three 8-bit channels.
#[derive(Clone, Copy, Debug, PartialEq, Eq, Structural)]
pub struct Rgb {
    pub red: u8,
    pub green: u8,
    pub blue: u8,
}

/// A colour of three 8-bit channels and an 8-bit opacity.
#[derive(Clone, Copy, Debug, PartialEq, Eq, Structural)]
pub struct Rgba {
    pub red: u8,
    pub green: u8,
    pub blue: u8,
    pub alpha: u8,
}

/// The colour of the points taken to lie inside the set.
pub open spec fn spec_inside_rgb() -> Rgb {
    Rgb { red: 0, green: 0, blue: 0 }
}

/// How far along the gradient a count below its cap lies, from 0 to 254.
pub open spec fn spec_shade(count: nat, iteration_max: nat) -> nat
    recommends
        count < iteration_max,
{
    count * 255 / iteration_max
}

/// The colour of `count` under the cap `iteration_max`.
pub open spec fn spec_rgb(count: nat, iteration_max: nat) -> Rgb {
    if count >= iteration_max {
        spec_inside_rgb()
    } else {
        let shade = spec_shade(count, iteration_max);
        Rgb { red: shade as u8, green: shade as u8, blue: (128 + shade / 2) as u8 }
    }
}

/// The colour of `count` under the cap `iteration_max`, fully opaque.
pub open spec fn spec_rgba(count: nat, iteration_max: nat) -> Rgba {
    let rgb = spec_rgb(count, iteration_max);
    Rgba { red: rgb.red, green: rgb.green, blue: rgb.blue, alpha: 255 }
}

/// A count below its cap has a shade of at most 254.
pub proof fn lemma_shade_bound(count: nat, iteration_max: nat)
    requires
        count < iteration_max,
    ensures
        spec_shade(count, iteration_max) <= 254,
{
    assert(count * 255 / iteration_max <= 254) by (nonlinear_arith)
        requires
            count < iteration_max,
    ;
}

/// The gradient never runs backwards: of two counts below the same cap, the
/// later escape has the shade that is at least as far along.
pub proof fn lemma_shade_is_monotonic(earlier: nat, later: nat, iteration_max: nat)
    requires
        earlier <= later < iteration_max,
    ensures
        spec_shade(earlier, iteration_max) <= spec_shade(later, iteration_max),
{
    vstd::arithmetic::div_mod::lemma_div_is_ordered(
        (earlier * 255) as int,
        (later * 255) as int,
        iteration_max as int,
    );
}

/// Exactly the counts that reached their cap have the inside colour, and
/// the opaque colour of a count has the channels of its plain colour.
pub proof fn lemma_inside_colour(count: nat, iteration_max: nat)
    ensures
        spec_rgb(count, iteration_max) == spec_inside_rgb() <==> count >= iteration_max,
        count == iteration_max ==> spec_rgb(count, iteration_max) == spec_inside_rgb(),
        spec_rgba(count, iteration_max).red == spec_rgb(count, iteration_max).red,
        spec_rgba(count, iteration_max).green == spec_rgb(count, iteration_max).green,
        spec_rgba(count, iteration_max).blue == spec_rgb(count, iteration_max).blue,
        spec_rgba(count, iteration_max).alpha == 255,
{
    if count < iteration_max {
        lemma_shade_bound(count, iteration_max);
        let shade = spec_shade(count, iteration_max);
        assert(128 <= 128 + shade / 2 <= 255);
        assert(spec_rgb(count, iteration_max).blue >= 128);
    }
}

/// How far along the gradient a count below its cap lies.
fn shade(count: usize, iteration_max: usize) -> (shade: u8)
    requires
        count < iteration_max,
    ensures
        shade == spec_shade(count as nat, iteration_max as nat),
        shade <= 254,
{
    proof {
        lemma_shade_bound(count as nat, iteration_max as nat);
        assert(count * 255 <= usize::MAX * 255) by (nonlinear_arith)
            requires
                count <= usize::MAX,
        ;
    }
    let scaled: u128 = (count as u128) * 255;
    let quotient: u128 = scaled / (iteration_max as u128);
    quotient as u8
}

/// The colour of `count` under the cap `iteration_max`. It is defined for
/// every count and every cap, and depends on nothing else.
pub fn palette_rgb(count: usize, iteration_max: usize) -> (colour: Rgb)
    ensures
        colour == spec_rgb(count as nat, iteration_max as nat),
        count == iteration_max ==> colour == spec_inside_rgb(),
{
    if count >= iteration_max {
        Rgb { red: 0, green: 0, blue: 0 }
    } else {
        let shade = shade(count, iteration_max);
        Rgb { red: shade, green: shade, blue: 128 + shade / 2 }
    }
}

/// The fully opaque colour of `count` under the cap `iteration_max`. It is
/// defined for every count and every cap, and depends on nothing else.
pub fn palette_rgba(count: usize, iteration_max: usize) -> (colour: Rgba)
    ensures
        colour == spec_rgba(count as nat, iteration_max as nat),
        count == iteration_max ==> colour == (Rgba { red: 0, green: 0, blue: 0, alpha: 255 }),
{
    let rgb = palette_rgb(count, iteration_max);
    Rgba { red: rgb.red, green: rgb.green, blue: rgb.blue, alpha: 255 }
}

/// The colour of a pixel.
pub open spec fn spec_pixel_rgb(pixel: Pixel) -> Rgb {
    spec_rgb(pixel.spec_count(), pixel.spec_iteration_max())
}

/// The fully opaque colour of a pixel.
pub open spec fn spec_pixel_rgba(pixel: Pixel) -> Rgba {
    spec_rgba(pixel.spec_count(), pixel.spec_iteration_max())
}

} // verus!
