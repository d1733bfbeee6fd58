//! Shared LED colour helpers (spectrum hue, genre-axis math).
//!
//! The open spectrum runs from red to blue (0 to 240 degrees), without the
//! magenta wrap.

use crate::panel::{div_toward_zero, max_int, min_int, quot, Color};
use vstd::prelude::*;

verus! {

/// Max hue for the open spectrum (red to blue).
pub const SPECTRUM_HUE_MAX: u16 = 240;

/// Largest and smallest of three.
pub open spec fn max3(a: int, b: int, c: int) -> int {
    max_int(max_int(a, b), c)
}

pub open spec fn min3(a: int, b: int, c: int) -> int {
    min_int(min_int(a, b), c)
}

/// Hue in degrees of a colour; 0 for white and near-grey.
pub open spec fn hue_of(r: int, g: int, b: int) -> int {
    let hi = max3(r, g, b);
    let d = hi - min3(r, g, b);
    if hi == 0 || d < 8 {
        0
    } else if hi == r {
        quot((g - b) * 60, d) % 360
    } else if hi == g {
        (120 + quot((b - r) * 60, d)) % 360
    } else {
        (240 + quot((r - g) * 60, d)) % 360
    }
}

proof fn sixth_bounds(x: int, d: int)
    requires
        0 < d,
        -d <= x <= d,
    ensures
        -60 <= quot(x * 60, d) <= 60,
{
    if x >= 0 {
        assert(0 <= (x * 60) / d <= 60) by (nonlinear_arith)
            requires
                0 < d,
                0 <= x <= d,
        ;
    } else {
        let y = -x;
        assert(0 <= (y * 60) / d <= 60) by (nonlinear_arith)
            requires
                0 < d,
                0 <= y <= d,
        ;
        assert(-(x * 60) == y * 60);
    }
}

/// Approximate hue in degrees (0..360). White and near-grey are 0.
pub fn color_hue(rgb: (u8, u8, u8)) -> (r: u16)
    ensures
        r == hue_of(rgb.0 as int, rgb.1 as int, rgb.2 as int),
        r < 360,
{
    let (r, g, b) = (rgb.0 as i32, rgb.1 as i32, rgb.2 as i32);
    let hi: i32 = if r >= g && r >= b {
        r
    } else if g >= b {
        g
    } else {
        b
    };
    let lo: i32 = if r <= g && r <= b {
        r
    } else if g <= b {
        g
    } else {
        b
    };
    let d: i32 = hi - lo;
    if hi == 0 || d < 8 {
        return 0;
    }
    let h: i32 = if hi == r {
        proof {
            sixth_bounds(g - b, d as int);
        }
        div_toward_zero((g - b) * 60, d)
    } else if hi == g {
        proof {
            sixth_bounds(b - r, d as int);
        }
        120 + div_toward_zero((b - r) * 60, d)
    } else {
        proof {
            sixth_bounds(r - g, d as int);
        }
        240 + div_toward_zero((r - g) * 60, d)
    };
    if h < 0 {
        (h + 360) as u16
    } else {
        h as u16
    }
}

/// Full-saturation colour of a hue below 360.
#[verifier::opaque]
pub open spec fn pure_hue(hue: int) -> (u8, u8, u8) {
    let ramp = (hue % 60 * 255 / 59) as u8;
    let sector = hue / 60;
    if sector == 0 {
        (255, ramp, 0)
    } else if sector == 1 {
        ((255 - ramp) as u8, 255, 0)
    } else if sector == 2 {
        (0, 255, ramp)
    } else if sector == 3 {
        (0, (255 - ramp) as u8, 255)
    } else if sector == 4 {
        (ramp, 0, 255)
    } else {
        (255, 0, (255 - ramp) as u8)
    }
}

/// Colour of a hue; hues past the circle stay in the last sector.
pub fn sector_rgb(hue: u16) -> (r: (u8, u8, u8))
    ensures
        r == pure_hue(hue as int),
{
    reveal(pure_hue);
    let sector: u16 = hue / 60;
    let ramp: u8 = ((hue % 60) as u32 * 255 / 59) as u8;
    match sector {
        0 => (255, ramp, 0),
        1 => (255 - ramp, 255, 0),
        2 => (0, 255, ramp),
        3 => (0, 255 - ramp, 255),
        4 => (ramp, 0, 255),
        _ => (255, 0, 255 - ramp),
    }
}

/// Integer HSV to RGB with S=V=max. Hue in degrees.
pub fn hsv_to_rgb(hue: u16) -> (r: (u8, u8, u8))
    ensures
        r == pure_hue(hue as int % 360),
        hue < 360 ==> r == pure_hue(hue as int),
{
    sector_rgb(hue % 360)
}

/// Colour with the given components.
pub open spec fn custom(rgb: (u8, u8, u8)) -> Color {
    Color::Custom(rgb.0, rgb.1, rgb.2)
}

/// Fader value as a colour along the open spectrum.
pub fn spectrum_color(pos: u16) -> (c: Color)
    ensures
        c == custom(pure_hue(min_int(pos as int, 4095) * 240 / 4095)),
{
    let p: u32 = if pos < 4095 { pos as u32 } else { 4095 };
    let hue: u16 = (p * 240 / 4095) as u16;
    let (r, g, b) = hsv_to_rgb(hue);
    Color::Custom(r, g, b)
}

/// Where a fader lies between two picks: the pick below, the pick above and
/// the part of the way. At both ends the two picks are the same.
pub open spec fn pair_of(fader: int, picks: int) -> (int, int, int) {
    let f = min_int(fader, 4095);
    let p = f * (picks - 1);
    if picks <= 1 || f == 0 {
        (0, 0, 0)
    } else if f == 4095 {
        (picks - 1, picks - 1, 0)
    } else {
        (p / 4095, p / 4095 + 1, p % 4095 * 255 / 4095)
    }
}

/// Continuous genre axis: fader `0..=4095` to `(lo, hi, frac)` across
/// `picks - 1` spans, with `frac` `0..=255` between `lo` and `hi`.
pub fn genre_pair(fader: u16, picks: usize) -> (r: (usize, usize, u8))
    requires
        4095 * (picks - 1) <= u32::MAX,
    ensures
        (r.0 as int, r.1 as int, r.2 as int) == pair_of(fader as int, picks as int),
{
    if picks <= 1 {
        return (0, 0, 0);
    }
    let spans: u32 = (picks - 1) as u32;
    let f: u32 = if fader < 4095 { fader as u32 } else { 4095 };
    if f == 0 {
        return (0, 0, 0);
    }
    if f == 4095 {
        return (picks - 1, picks - 1, 0);
    }
    assert(0 <= f * spans <= 4095 * spans) by (nonlinear_arith)
        requires
            0 <= f <= 4095,
            0 <= spans,
    ;
    let scaled: u32 = f * spans;
    let lo: usize = (scaled / 4095) as usize;
    let frac: u8 = (scaled % 4095 * 255 / 4095) as u8;
    (lo, lo + 1, frac)
}

pub open spec fn nearest_pick(fader: int, picks: int) -> int {
    let (lo, hi, frac) = pair_of(fader, picks);
    if frac < 128 { lo } else { hi }
}

/// Nearest genre index on the continuous axis (midpoint snap).
pub fn genre_nearest(fader: u16, picks: usize) -> (r: usize)
    requires
        4095 * (picks - 1) <= u32::MAX,
    ensures
        r == nearest_pick(fader as int, picks as int),
{
    let (lo, hi, frac) = genre_pair(fader, picks);
    if frac < 128 {
        lo
    } else {
        hi
    }
}

pub open spec fn lerped(a: int, b: int, frac: int) -> int {
    a + quot((b - a) * frac, 255)
}

proof fn lerp_between(a: int, b: int, frac: int)
    requires
        0 <= frac <= 255,
    ensures
        min_int(a, b) <= lerped(a, b, frac) <= max_int(a, b),
        frac == 0 ==> lerped(a, b, frac) == a,
        frac == 255 ==> lerped(a, b, frac) == b,
{
    let d = b - a;
    if d >= 0 {
        assert(0 <= d * frac <= d * 255) by (nonlinear_arith)
            requires
                0 <= d,
                0 <= frac <= 255,
        ;
    } else {
        assert(d * 255 <= d * frac <= 0) by (nonlinear_arith)
            requires
                d < 0,
                0 <= frac <= 255,
        ;
    }
    assert(frac == 0 ==> d * frac == 0) by (nonlinear_arith);
    assert(frac == 255 ==> d * frac == 255 * d) by (nonlinear_arith);
}

/// Integer lerp from `a` to `b` by `frac` (`0..=255`).
pub fn lerp_i32(a: i32, b: i32, frac: u8) -> (r: i32)
    requires
        i32::MIN <= b - a <= i32::MAX,
        i32::MIN <= (b - a) * frac <= i32::MAX,
    ensures
        r == lerped(a as int, b as int, frac as int),
{
    proof {
        lerp_between(a as int, b as int, frac as int);
    }
    a + div_toward_zero((b - a) * frac as i32, 255)
}

/// Integer lerp for `u8` amounts.
pub fn lerp_u8(a: u8, b: u8, frac: u8) -> (r: u8)
    ensures
        r == lerped(a as int, b as int, frac as int),
{
    proof {
        lerp_between(a as int, b as int, frac as int);
        let d = b - a;
        assert(-255 * 255 <= d * frac <= 255 * 255) by (nonlinear_arith)
            requires
                -255 <= d <= 255,
                0 <= frac <= 255,
        ;
    }
    lerp_i32(a as i32, b as i32, frac) as u8
}

// ---------------------------------------------------------------------------
// Laws
// ---------------------------------------------------------------------------

/// A lerp starts at `a`, ends at `b` and never leaves the span between them.
pub proof fn lerp_stays_between(a: int, b: int, frac: int)
    requires
        0 <= frac <= 255,
    ensures
        min_int(a, b) <= lerped(a, b, frac) <= max_int(a, b),
        lerped(a, b, 0) == a,
        lerped(a, b, 255) == b,
{
    lerp_between(a, b, frac);
    lerp_between(a, b, 0);
    lerp_between(a, b, 255);
}

/// A pure hue has one component at full and one at zero.
pub proof fn pure_hues_are_saturated(hue: int)
    requires
        0 <= hue < 360,
    ensures
        ({
            let (r, g, b) = pure_hue(hue);
            &&& r == 255 || g == 255 || b == 255
            &&& r == 0 || g == 0 || b == 0
        }),
{
    reveal(pure_hue);
}

/// The axis has an end at either side, and every pick lies between them.
pub proof fn pairs_stay_on_the_axis(fader: int, picks: int)
    requires
        0 <= fader,
        1 <= picks,
    ensures
        ({
            let (lo, hi, frac) = pair_of(fader, picks);
            &&& 0 <= lo <= hi < picks
            &&& hi <= lo + 1
            &&& 0 <= frac <= 255
            &&& fader == 0 ==> lo == hi && frac == 0
            &&& fader >= 4095 ==> lo == hi && hi == picks - 1 && frac == 0
        }),
        0 <= nearest_pick(fader, picks) < picks,
{
    let f = min_int(fader, 4095);
    let p = f * (picks - 1);
    if picks > 1 && 0 < f < 4095 {
        assert(0 <= p) by (nonlinear_arith)
            requires
                p == f * (picks - 1),
                0 <= f,
                1 <= picks,
        ;
        assert(p < 4095 * (picks - 1)) by (nonlinear_arith)
            requires
                p == f * (picks - 1),
                f < 4095,
                1 < picks,
        ;
    }
}

/// The ramp of a sector keeps the degree, from either end.
proof fn ramps_keep_degrees(k: int)
    requires
        0 <= k < 60,
    ensures
        0 <= k * 255 / 59 <= 255,
        k - 1 <= k * 255 / 59 * 60 / 255 <= k + 1,
        59 - k <= (255 - k * 255 / 59) * 60 / 255 <= 60 - k,
{
    let ramp = k * 255 / 59;
    assert(255 * k - 58 <= 59 * ramp <= 255 * k);
}

/// The hue of a pure hue is that hue to within one degree.
pub proof fn hues_survive_a_round_trip(hue: int)
    requires
        0 <= hue < 360,
    ensures
        ({
            let (r, g, b) = pure_hue(hue);
            let back = hue_of(r as int, g as int, b as int);
            back == hue || back == (hue + 1) % 360 || back == (hue + 359) % 360
        }),
{
    reveal(pure_hue);
    let k = hue % 60;
    let ramp = k * 255 / 59;
    ramps_keep_degrees(k);
    let up = ramp * 60 / 255;
    let down = (255 - ramp) * 60 / 255;
    let sector = hue / 60;
    assert(hue == 60 * sector + k);
    if sector == 0 {
        assert(hue_of(255, ramp, 0) == up % 360);
    } else if sector == 1 {
        assert(hue_of(255 - ramp, 255, 0) == if ramp == 0 { 60 } else { (120 - down) % 360 });
    } else if sector == 2 {
        assert(hue_of(0, 255, ramp) == (120 + up) % 360);
    } else if sector == 3 {
        assert(hue_of(0, 255 - ramp, 255) == if ramp == 0 { 180 } else { (240 - down) % 360 });
    } else if sector == 4 {
        assert(hue_of(ramp, 0, 255) == if ramp == 255 { 300 } else { (240 + up) % 360 });
    } else {
        assert(hue_of(255, 0, 255 - ramp) == (0 - down) % 360);
    }
}

} // verus!
