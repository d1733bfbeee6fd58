//! What the colours promise.

use crate::apps::led_fx::{hue_of, lerped, nearest_pick, pair_of, pure_hue};
use crate::apps::led_spectrum::{blend, hsv, spectrum, vivid};
use crate::panel::Color;
use vstd::prelude::*;

verus! {

/// Pure hues go round from red over yellow, green, cyan, blue and magenta: in
/// each sixth one part is full, one is dark, and the third goes evenly from one
/// to the other.
pub proof fn hues_go_round(hue: int)
    requires
        0 <= hue < 360,
    ensures
        ({
            let (r, g, b) = pure_hue(hue);
            let k = hue % 60;
            &&& hue < 60 ==> r == 255 && b == 0 && 0 <= 255 * k - 59 * g < 59
            &&& 60 <= hue < 120 ==> g == 255 && b == 0 && 0 <= 255 * k - 59 * (255 - r) < 59
            &&& 120 <= hue < 180 ==> g == 255 && r == 0 && 0 <= 255 * k - 59 * b < 59
            &&& 180 <= hue < 240 ==> b == 255 && r == 0 && 0 <= 255 * k - 59 * (255 - g) < 59
            &&& 240 <= hue < 300 ==> b == 255 && g == 0 && 0 <= 255 * k - 59 * r < 59
            &&& hue >= 300 ==> r == 255 && g == 0 && 0 <= 255 * k - 59 * (255 - b) < 59
        }),
{
    reveal(pure_hue);
    let k = hue % 60;
    assert(0 <= k * 255 / 59 <= 255);
}

/// The primaries have their hues.
pub proof fn primaries_have_their_hues(v: int)
    requires
        8 <= v <= 255,
    ensures
        hue_of(v, 0, 0) == 0,
        hue_of(v, v, 0) == 60,
        hue_of(0, v, 0) == 120,
        hue_of(0, v, v) == 180,
        hue_of(0, 0, v) == 240,
        hue_of(v, v, v) == 0,
{
    assert((v * 60) / v == 60 && (-(-(v * 60))) / v == 60 && 0int / v == 0) by (nonlinear_arith)
        requires
            v >= 8,
    ;
    assert((0 - v) * 60 == -(v * 60)) by (nonlinear_arith);
}

/// A value between two goes evenly from one to the other, to within one.
pub proof fn lerps_go_evenly(a: int, b: int, frac: int)
    requires
        0 <= frac <= 255,
    ensures
        -255 < 255 * (lerped(a, b, frac) - a) - (b - a) * frac < 255,
{
}

/// A fader lies between two neighbouring picks, in even steps, and the nearer
/// of them is taken.
pub proof fn picks_divide_the_fader(fader: int, picks: int)
    requires
        0 <= fader <= 4095,
        2 <= picks <= 64,
    ensures
        ({
            let (lo, hi, frac) = pair_of(fader, picks);
            let x = fader * (picks - 1);
            &&& 0 < fader < 4095 ==> hi == lo + 1 && 4095 * lo <= x < 4095 * lo + 4095
            &&& 0 < fader < 4095 ==> 0 <= 255 * (x - 4095 * lo) - 4095 * frac < 4095
            &&& nearest_pick(fader, picks) == if frac < 128 { lo } else { hi }
            &&& fader == 0 ==> nearest_pick(fader, picks) == 0
            &&& fader == 4095 ==> nearest_pick(fader, picks) == picks - 1
        }),
{
}

/// Without saturation every part is the value; at full saturation one part is
/// dark; one part is always the value, and none lies above it.
pub proof fn hsv_parts_stay_below_the_value(hue: int, sat: int, val: int)
    requires
        0 <= hue < 360,
        0 <= sat <= 255,
        0 <= val <= 255,
    ensures
        ({
            let (r, g, b) = hsv(hue, sat, val);
            &&& 0 <= r <= val && 0 <= g <= val && 0 <= b <= val
            &&& r == val || g == val || b == val
            &&& sat == 0 ==> r == val && g == val && b == val
            &&& sat == 255 ==> r == 0 || g == 0 || b == 0
            &&& hue < 60 || hue >= 300 ==> r == val
            &&& 60 <= hue < 180 ==> g == val
            &&& 180 <= hue < 300 ==> b == val
        }),
{
    let f = hue % 60;
    assert(0 <= sat * f <= sat * 60 && 0 <= sat * (60 - f) <= sat * 60) by (nonlinear_arith)
        requires
            0 <= sat,
            0 <= f < 60,
    ;
    let x = 255 - sat;
    let y = 255 - sat * f / 60;
    let z = 255 - sat * (60 - f) / 60;
    assert(0 <= x <= 255 && 0 <= y <= 255 && 0 <= z <= 255);
    assert(0 <= val * x <= val * 255 && 0 <= val * y <= val * 255 && 0 <= val * z <= val * 255) by (
    nonlinear_arith)
        requires
            0 <= val,
            0 <= x <= 255,
            0 <= y <= 255,
            0 <= z <= 255,
    ;
    if sat == 255 {
        assert(val * x == 0) by (nonlinear_arith)
            requires
                x == 0,
        ;
    }
}

/// A blend goes evenly from one part to the other.
pub proof fn blends_go_evenly(x: int, y: int, frac: int)
    requires
        0 <= x <= 255,
        0 <= y <= 255,
        0 <= frac <= 255,
    ensures
        0 <= 255 * x + (y - x) * frac - 255 * blend(x, y, frac) < 255,
{
    assert(x * (255 - frac) + y * frac == 255 * x + (y - x) * frac) by (nonlinear_arith);
}

/// The fader goes from red to violet in even steps of hue, fully saturated and
/// fully bright.
pub proof fn faders_sweep_the_spectrum(fader: int, hue: int)
    requires
        0 <= fader <= 4095,
        0 <= 270 * fader - 4095 * hue < 4095,
    ensures
        spectrum(fader) == vivid(hue),
        vivid(hue) == (Color::Custom(
            hsv(hue, 255, 255).0 as u8,
            hsv(hue, 255, 255).1 as u8,
            hsv(hue, 255, 255).2 as u8,
        )),
{
}

} // verus!
