//! What the double oscillator promises.

use crate::apps::super_lfo::{
    cv_moved, mixed_samples, moved_div, phases, shown_layer, SuperLfo,
};
use crate::panel::{LatchLayer, Range};
use vstd::prelude::*;

verus! {

/// The second oscillator runs a quarter of a cycle ahead of the first, or an
/// octave above it; both follow the position and its offset.
pub proof fn second_oscillator_leads_or_doubles(pos: int, offset: int)
    ensures
        ({
            let (a, b) = phases(pos, offset, false);
            &&& 0 <= a < 4096
            &&& 0 <= b < 4096
            &&& (a - pos - offset) % 4096 == 0
            &&& (b - a - 1024) % 4096 == 0
        }),
        ({
            let (a, b) = phases(pos, offset, true);
            &&& 0 <= b < 4096
            &&& (a - pos - offset) % 4096 == 0
            &&& (b - 2 * a) % 4096 == 0
        }),
{
}

/// The mixes are a crossfade in even steps, the lower, the higher and the mean.
pub proof fn mixes_are_what_they_are_called(a: int, b: int, t: int)
    requires
        0 <= a <= 4095,
        0 <= b <= 4095,
        0 <= t <= 4095,
    ensures
        0 <= 4095 * a + (b - a) * t - 4095 * mixed_samples(a, b, 0, t) < 4095,
        mixed_samples(a, b, 1, t) <= a && mixed_samples(a, b, 1, t) <= b,
        mixed_samples(a, b, 1, t) == a || mixed_samples(a, b, 1, t) == b,
        mixed_samples(a, b, 2, t) >= a && mixed_samples(a, b, 2, t) >= b,
        mixed_samples(a, b, 2, t) == a || mixed_samples(a, b, 2, t) == b,
        0 <= a + b - 2 * mixed_samples(a, b, 3, t) <= 1,
{
    assert(a * (4095 - t) + b * t == 4095 * a + (b - a) * t) by (nonlinear_arith);
    assert(0 <= a * (4095 - t) && 0 <= b * t && a * (4095 - t) + b * t <= 4095 * 4095) by (
    nonlinear_arith)
        requires
            0 <= a <= 4095,
            0 <= b <= 4095,
            0 <= t <= 4095,
    ;
}

/// An input moves the setting that it is sent to by twice its distance from the
/// middle, inside the range, and no other.
pub proof fn inputs_move_their_setting(base: int, delta: int)
    requires
        0 <= base <= 4095,
    ensures
        cv_moved(base, false, delta) == base,
        cv_moved(base, true, 0) == base,
        0 <= base + 2 * delta <= 4095 ==> cv_moved(base, true, delta) - base == 2 * delta,
        base + 2 * delta < 0 ==> cv_moved(base, true, delta) == 0,
        base + 2 * delta > 4095 ==> cv_moved(base, true, delta) == 4095,
{
}

/// Each destination reaches its own setting and leaves the others as stored.
pub proof fn destinations_are_separate(s: SuperLfo, in_val: int)
    requires
        s.wf(),
        0 <= in_val <= 4095,
    ensures
        ({
            let f = s.form_at(in_val);
            let d = if s.store.dest <= 8 { s.store.dest as int } else { 8 };
            &&& d != 1 ==> f.phase_offset == 0
            &&& d != 2 ==> f.attenuation == s.store.layer_attenuation
            &&& d != 4 ==> f.morph == s.store.morph
            &&& d != 5 ==> f.skew == s.store.skew
            &&& d != 6 ==> f.warp == s.store.warp
            &&& d != 7 ==> f.pwm == s.store.pwm
            &&& d != 8 ==> f.rate_mod == s.store.rate_mod
            &&& d == 1 ==> f.phase_offset == 2 * (in_val - 2047)
            &&& d == 4 && in_val > 2047 && s.store.morph < 4095 ==> f.morph > s.store.morph
            &&& d == 2 && in_val < 2047 && s.store.layer_attenuation > 0 ==> f.attenuation
                < s.store.layer_attenuation
            &&& d == 5 && in_val > 2047 && s.store.skew < 4095 ==> f.skew > s.store.skew
            &&& d == 6 && in_val > 2047 && s.store.warp < 4095 ==> f.warp > s.store.warp
            &&& d == 7 && in_val > 2047 && s.store.pwm < 4095 ==> f.pwm > s.store.pwm
            &&& d == 8 && in_val > 2047 && s.store.rate_mod < 4095 ==> f.rate_mod
                > s.store.rate_mod
            &&& d != 3 ==> !s.resets(in_val)
        }),
        s.input_of(in_val as u16) == if s.store.in_mute { 2047 } else { in_val },
{
}

/// The speed and its input add up, and a faster setting never has a longer
/// division.
pub proof fn speeds_add_up(a: int, b: int)
    requires
        0 <= a <= b <= 4095,
    ensures
        moved_div(a, 2047) >= moved_div(b, 2047),
        moved_div(2000, a) >= moved_div(2000, b),
        a / 500 < b / 500 ==> moved_div(a, 2047) > moved_div(b, 2047),
        moved_div(0, 2047) == 384,
        moved_div(4095, 2047) == 6,
        0 <= a + b - 2047 <= 4095 ==> moved_div(a, b) == moved_div(a + b - 2047, 2047),
{
}

/// Muted, the output rests; held, it stays where it was; else the sample goes
/// out.
pub proof fn outputs_rest_or_stay(s: SuperLfo, val: int)
    ensures
        s.store.out_muted && s.range == Range::VNeg5To5 ==> s.out_value(val) == 2047,
        s.store.out_muted && s.range != Range::VNeg5To5 ==> s.out_value(val) == 0,
        !s.store.out_muted && (s.store.frozen || s.store.clocked && s.clock_held) ==> s.out_value(
            val,
        ) == s.frozen_val,
        !s.store.out_muted && !s.store.frozen && !s.store.clocked ==> s.out_value(val) == val,
        !s.store.out_muted && !s.store.frozen && !s.clock_held ==> s.out_value(val) == val,
{
}

/// Under shift a channel shows its shifted layer only where its fader was moved
/// last.
pub proof fn shift_shows_what_was_moved(chan: usize, other: usize)
    requires
        chan != other,
    ensures
        shown_layer(LatchLayer::Alt, chan as int, Some(chan)) == LatchLayer::Alt,
        shown_layer(LatchLayer::Alt, chan as int, Some(other)) == LatchLayer::Main,
        shown_layer(LatchLayer::Alt, chan as int, None) == LatchLayer::Main,
        shown_layer(LatchLayer::Third, chan as int, None) == LatchLayer::Third,
        shown_layer(LatchLayer::Main, chan as int, Some(chan)) == LatchLayer::Main,
{
}

} // verus!
