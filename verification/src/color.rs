//! The colour model: RGB storage, with hue/saturation/lightness readings
//! for the fade rule and the flicker visibility test.
//!
//! Colours are stored as 8-bit RGB channels.  The simulation reads two
//! derived quantities, both in whole percent (`0..=100`): a colour's
//! saturation and lightness.  The conversion itself is done by `colorsys`;
//! its results are named by uninterpreted spec functions, and everything the
//! simulation decides from them is verified against those names.

use vstd::prelude::*;

verus! {

/// One colour: red, green and blue channels, each in `0..=255`.
#[derive(Clone, Copy, Debug, PartialEq, Eq, Structural)]
pub struct Rgb {
    pub r: u8,
    pub g: u8,
    pub b: u8,
}

/// The saturation and lightness of an RGB colour, in whole percent:
/// what `colorsys` computes for the channels, truncated to integers.
pub uninterp spec fn hsl_pct_of(r: u8, g: u8, b: u8) -> (u8, u8);

/// The RGB colour that `colorsys` produces when the lightness of
/// `(r, g, b)` is adjusted by `amt` percentage points (clamped to the
/// colour model's natural `0..=100` lightness range).
pub uninterp spec fn lighten_of(r: u8, g: u8, b: u8, amt: i32) -> (u8, u8, u8);

/// A colour's saturation in whole percent.
pub open spec fn sat_pct(c: Rgb) -> u8 {
    hsl_pct_of(c.r, c.g, c.b).0
}

/// A colour's lightness in whole percent.
pub open spec fn light_pct(c: Rgb) -> u8 {
    hsl_pct_of(c.r, c.g, c.b).1
}

/// The highest saturation and lightness (in whole percent) at which a
/// glyph still counts as nearly dark, and so may flicker.
pub const DIM_MAX_PCT: u8 = 10;

/// Whether a colour is nearly dark: saturation and lightness both at or
/// below [`DIM_MAX_PCT`] percent.  Only such faded, trailing glyphs
/// flicker; the bright leading glyph keeps its character.
pub open spec fn is_dim(c: Rgb) -> bool {
    sat_pct(c) <= DIM_MAX_PCT && light_pct(c) <= DIM_MAX_PCT
}

/// The colour that fading `c` by `rate` lightness percentage points
/// produces.
pub open spec fn faded(c: Rgb, rate: u8) -> Rgb {
    let t = lighten_of(c.r, c.g, c.b, neg_rate(rate));
    Rgb { r: t.0, g: t.1, b: t.2 }
}

/// The (non-positive) lightness adjustment that fading at `rate` hands to
/// the colour conversion.
pub open spec fn neg_rate(rate: u8) -> i32 {
    (-(rate as int)) as i32
}

/// Relies on `colorsys::Hsl::from(colorsys::Rgb)` and the `saturation` and
/// `lightness` readings: both lie in `0..=100` and depend on the RGB
/// channels alone.
#[verifier::external_body]
pub(crate) fn hsl_pct(c: Rgb) -> (p: (u8, u8))
    ensures
        p == hsl_pct_of(c.r, c.g, c.b),
        p.0 <= 100,
        p.1 <= 100,
{
    let hsl = colorsys::Hsl::from(colorsys::Rgb::from((c.r, c.g, c.b)));
    (hsl.saturation() as u8, hsl.lightness() as u8)
}

/// Relies on `colorsys::ColorTransform::lighten` on an `Hsl` value: the
/// lightness moves by `amt` percentage points, clamped into `0..=100`, and
/// the result depends on the channels and `amt` alone.  A non-positive
/// `amt` therefore never raises the lightness reading.
#[verifier::external_body]
fn lighten_rgb(c: Rgb, amt: i32) -> (d: Rgb)
    ensures
        (d.r, d.g, d.b) == lighten_of(c.r, c.g, c.b, amt),
        amt <= 0 ==> light_pct(d) <= light_pct(c),
{
    let mut hsl = colorsys::Hsl::from(colorsys::Rgb::from((c.r, c.g, c.b)));
    colorsys::ColorTransform::lighten(&mut hsl, amt.into());
    let rgb = colorsys::Rgb::from(hsl);
    Rgb { r: rgb.red() as u8, g: rgb.green() as u8, b: rgb.blue() as u8 }
}

/// Fade `c` towards black by `rate` lightness percentage points.
///
/// The result's lightness reading never exceeds the input's: fading is
/// monotone until a spark resets the trail colour.
pub fn fade_colour(c: Rgb, rate: u8) -> (d: Rgb)
    ensures
        d == faded(c, rate),
        light_pct(d) <= light_pct(c),
{
    let amt: i32 = -(rate as i32);
    lighten_rgb(c, amt)
}

/// A colour's saturation and lightness in whole percent, as the flicker
/// test reads them.
pub fn saturation_lightness_pct(c: Rgb) -> (p: (u8, u8))
    ensures
        p.0 == sat_pct(c),
        p.1 == light_pct(c),
        p.0 <= 100,
        p.1 <= 100,
{
    hsl_pct(c)
}

} // verus!
