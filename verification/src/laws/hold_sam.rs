//! What the sampler promises: when it samples, what note that is, how loud and
//! how long.

use crate::apps::hold_sam::{
    cv_note, div_at, gate_len, gate_pct, velocity, velocity_7bit, HoldSam, Reading,
};
use crate::panel::{Act, LatchLayer, MidiMode};
use vstd::prelude::*;

verus! {

/// Gate lengths go from one percent to a hundred in even steps of the fader; a
/// gate lasts that share of its division, at least one tick.
pub proof fn gates_are_proportional(div: int, gate: int)
    requires
        1 <= div,
        0 <= gate <= 4095,
    ensures
        0 <= 99 * gate - 4095 * (gate_pct(gate) - 1) < 4095,
        1 <= gate_pct(gate) <= 100,
        ({
            let x = div * gate_pct(gate);
            let g = gate_len(div, gate);
            &&& x >= 100 ==> 0 <= x - 100 * g < 100
            &&& x < 100 ==> g == 1
        }),
{
    crate::apps::hold_sam::gates_fit_their_division(div, gate);
    let p = gate_pct(gate);
    assert(0 <= div * p <= div * 100) by (nonlinear_arith)
        requires
            1 <= div,
            1 <= p <= 100,
    ;
}

/// Velocity is its base and as much more as the sensitivity makes of the
/// movement, from 1 to 127, and is put on twelve bits.
pub proof fn velocity_adds_the_movement(base: int, sens: int, delta: int)
    requires
        0 <= base <= 127,
        0 <= sens <= 4095,
        0 <= delta <= 4095,
    ensures
        ({
            let v = velocity_7bit(base, sens, delta);
            &&& 1 <= v <= 127
            &&& 1 < v < 127 ==> 0 <= sens * delta - 4095 * (v - base) < 4095
            &&& v == 127 ==> sens * delta >= 4095 * (127 - base)
            &&& v == 1 ==> base == 0 || base == 1
            &&& 0 <= 4095 * v - 127 * velocity(base, sens, delta) < 127
        }),
        base >= 1 ==> velocity_7bit(base, 0, delta) == base,
        base >= 1 ==> velocity_7bit(base, sens, 0) == base,
{
    assert(0 <= sens * delta <= 4095 * 4095) by (nonlinear_arith)
        requires
            0 <= sens <= 4095,
            0 <= delta <= 4095,
    ;
    assert(0 * delta == 0 && sens * 0 == 0) by (nonlinear_arith);
}

/// The base note sounds where the quantizer reads twelve, and every semitone
/// above or below moves it by one, inside the keyboard.
pub proof fn notes_follow_the_voltage(base: int, pitch: int)
    requires
        0 <= base <= 127,
    ensures
        cv_note(base, 12) == base,
        0 <= base + pitch - 12 <= 127 ==> cv_note(base, pitch) - base == pitch - 12,
        0 <= cv_note(base, pitch) <= 127,
        base + pitch < 12 ==> cv_note(base, pitch) == 0,
        base + pitch > 139 ==> cv_note(base, pitch) == 127,
{
}

/// The speed fader has a zone for each 345 positions, each faster than the one
/// before.
pub proof fn divisions_speed_up(a: int, b: int)
    requires
        0 <= a <= b <= 4095,
    ensures
        div_at(a) >= div_at(b),
        a / 345 < b / 345 ==> div_at(a) > div_at(b),
        a < 345 ==> div_at(a) == 384,
        690 <= a < 1035 ==> div_at(a) == 96,
        1380 <= a < 1725 ==> div_at(a) == 24,
        a >= 3795 ==> div_at(a) == 2,
{
}

/// On a tick of its division a sampler that runs, is not muted and whose input
/// has moved by more than the deadband plays the input's note, as long as its
/// gate says; in between it samples nothing.
pub proof fn moved_inputs_are_played(s: HoldSam, now: u64, tick: u64, r: Reading)
    requires
        s.wf(),
        s.midi_mode == MidiMode::Note,
        s.sounding is None,
        !s.stopped,
        tick < u64::MAX - 1000,
        r.sample <= 4095,
    ensures
        ({
            let (t, acts) = s.ticked(now, tick, r, false);
            let on = tick as int % s.div as int == 0;
            let delta = if r.sample >= s.prev_sample {
                r.sample - s.prev_sample
            } else {
                s.prev_sample - r.sample
            };
            let note = cv_note(s.base_note as int, r.pitch as int) as u8;
            &&& !on ==> acts.len() == 0 && t.prev_sample == s.prev_sample && t.sounding is None
            &&& on ==> t.prev_sample == r.sample
            &&& on && s.store.muted ==> acts.len() == 0
            &&& on && !s.store.muted && delta > crate::apps::hold_sam::SAMPLE_DEADBAND ==> {
                &&& acts == seq![
                    Act::NoteOn {
                        out: 0,
                        note,
                        vel: velocity(s.base_velocity as int, s.store.sens_saved as int, delta) as u16,
                    },
                ]
                &&& t.sounding == Some(note)
                &&& t.gate_end_tick == tick + gate_len(s.div as int, s.store.gate_saved as int)
            }
        }),
{
    crate::apps::hold_sam::gates_fit_their_division(s.div as int, s.store.gate_saved as int);
}

/// In controller mode a moved input is sent as its controller value, and no
/// note ever.
pub proof fn controllers_send_no_notes(s: HoldSam, now: u64, tick: u64, r: Reading, i: int)
    requires
        s.midi_mode == MidiMode::Cc,
        tick as int % s.div as int == 0,
        !s.store.muted,
        !s.stopped,
        r.sample > s.prev_sample + crate::apps::hold_sam::SAMPLE_DEADBAND,
    ensures
        s.ticked(now, tick, r, false).1 == seq![Act::Cc { out: 0, cc: s.midi_cc, val: r.cc }],
{
}

/// Letting go ends the note that sounds and nothing else.
pub proof fn letting_go_ends_the_note(s: HoldSam)
    ensures
        s.let_go().0.sounding is None,
        s.sounding is None ==> s.let_go().1.len() == 0 && s.let_go().0 == s,
        s.sounding matches Some(n) ==> s.let_go().1.len() > 0 && s.let_go().1[0] == (Act::NoteOff {
            out: 0,
            note: n,
        }),
        s.let_go().0.store == s.store,
{
}

/// The fader sets gate lengths, with shift the speed, and with the button the
/// sensitivity.
pub proof fn layers_are_what_they_say(s: HoldSam)
    ensures
        s.layer_value(LatchLayer::Main) == s.store.gate_saved,
        s.layer_value(LatchLayer::Alt) == s.store.res_saved,
        s.layer_value(LatchLayer::Third) == s.store.sens_saved,
{
}

/// The input counts as idle once it stays within 24 of what it was; a jump
/// starts the count anew, and it never overflows.
pub proof fn still_inputs_fall_idle(s: HoldSam, sample: u16)
    ensures
        s.noted(sample).prev_sample == sample,
        sample > s.prev_sample + 24 || s.prev_sample > sample + 24 ==> s.noted(sample).idle_count
            == 0,
        s.prev_sample <= sample + 24 && sample <= s.prev_sample + 24 && s.idle_count < 255
            ==> s.noted(sample).idle_count == s.idle_count + 1,
        s.idle_count == 255 && sample == s.prev_sample ==> s.noted(sample).idle_count == 255,
{
}

/// The clock is stalled once four of its periods have passed since its last
/// tick, and stays so until the next.
pub proof fn silent_clocks_stall(s: HoldSam, now: u64, later: u64)
    requires
        now <= later,
    ensures
        s.stalled(now) ==> s.stalled(later),
        s.stalled(now) <==> now - s.last_tick_at >= 4 * (1000 * s.tick_period_ms),
{
}

} // verus!
