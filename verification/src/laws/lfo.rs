//! What the oscillator promises: how long its cycle is, where it stands, and
//! what goes out.

use crate::apps::lfo::{div_at, slowdown, Lfo};
use crate::panel::{Act, Range};
use vstd::prelude::*;

verus! {

/// Each speed setting doubles the length of the cycle, up to the last.
pub proof fn speeds_double(n: int)
    requires
        0 <= n < 31,
    ensures
        slowdown(0) == 1,
        slowdown(n + 1) == 2 * slowdown(n),
        slowdown(n) >= 1,
{
    vstd::arithmetic::power2::lemma2_to64();
    vstd::arithmetic::power2::lemma_pow2_unfold((n + 1) as nat);
    vstd::arithmetic::power2::lemma_pow2_pos(n as nat);
}

/// The speed fader has a zone for each 500 positions, each faster than the one
/// before: from four bars down to a sixteenth.
pub proof fn divisions_speed_up(a: int, b: int)
    requires
        0 <= a <= b <= 4095,
    ensures
        div_at(a) >= div_at(b),
        a / 500 < b / 500 ==> div_at(a) > div_at(b),
        a < 500 ==> div_at(a) == 384,
        500 <= a < 1000 ==> div_at(a) == 192,
        1000 <= a < 1500 ==> div_at(a) == 96,
        1500 <= a < 2000 ==> div_at(a) == 48,
        2000 <= a < 2500 ==> div_at(a) == 24,
        2500 <= a < 3000 ==> div_at(a) == 16,
        3000 <= a < 3500 ==> div_at(a) == 12,
        3500 <= a < 4000 ==> div_at(a) == 8,
        a >= 4000 ==> div_at(a) == 6,
{
}

/// The phase goes on by one each tick and starts over at the end of the cycle.
pub proof fn phase_goes_on_by_one(s: Lfo, tick: u64)
    requires
        s.wf(),
        s.phase_origin <= tick < u64::MAX,
    ensures
        0 <= s.phase_at(tick) < s.div * s.speed_mult,
        s.phase_at((tick + 1) as u64) == if s.phase_at(tick) + 1 == s.div * s.speed_mult {
            0
        } else {
            s.phase_at(tick) + 1
        },
        s.phase_at(s.phase_origin) == 0,
{
    let c = s.cycle();
    let x = tick - s.phase_origin;
    assert(c > 0) by (nonlinear_arith)
        requires
            c == s.div as int * s.speed_mult as int,
            s.div >= 6,
            s.speed_mult >= 1,
    ;
    assert(0int % c == 0 && 0 <= x % c < c && (x + 1) % c == if x % c + 1 == c {
        0
    } else {
        x % c + 1
    }) by (nonlinear_arith)
        requires
            c > 0,
            x >= 0,
    ;
}

/// The sample goes out as it is; muted, the output rests at the middle of a
/// range that goes both ways and at the bottom of one that does not.
pub proof fn mute_rests(s: Lfo, val: int)
    ensures
        !s.store.muted ==> s.out_value(val) == val,
        s.store.muted && s.range == Range::VNeg5To5 ==> s.out_value(val) == 2047,
        s.store.muted && s.range == Range::V0To10 ==> s.out_value(val) == 0,
        s.store.muted && s.range == Range::V0To5 ==> s.out_value(val) == 0,
{
}

/// Every frame puts the output on its jack; the controller follows at its pace,
/// only where it is wanted and has changed.
pub proof fn frames_put_the_output_out(s: Lfo, val: u16, pos: u16, gate_val: u16)
    requires
        s.wf(),
    ensures
        ({
            let (t, acts) = s.framed(val, pos, gate_val);
            let out = s.out_value(val as int) as u16;
            &&& acts.len() >= 1
            &&& acts[0] == (Act::Cv { jack: 0, val: out })
            &&& !s.midi_on || s.last_val == Some(gate_val) ==> forall|k: int|
                0 <= k < acts.len() ==> (#[trigger] acts[k]) !is Cc
            &&& s.midi_on && t.midi_pace == 0 && s.last_val != Some(gate_val) ==> acts.len() >= 2
                && acts[1] == (Act::Cc { out: 0, cc: s.midi_cc, val: out }) && t.last_val == Some(
                gate_val,
            )
            &&& s.midi_on && t.midi_pace != 0 ==> t.midi_pace == s.midi_pace + 1 && t.last_val
                == s.last_val
            &&& t.store == s.store
        }),
{
}

} // verus!
