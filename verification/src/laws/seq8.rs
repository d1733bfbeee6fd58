//! What the step sequencer promises: which step plays when, how high, how long
//! and how loud.

use crate::apps::seq8::{
    alt_value, gate_of, length_of, pitch_counts, position, res_of, threshold_of, Direction, Pitch,
    Plan, Seq8, Storage, Track,
};
use crate::panel::Act;
use vstd::prelude::*;

verus! {

// ---------------------------------------------------------------------------
// Pitch
// ---------------------------------------------------------------------------

/// A step fader is linear over its range: a step plays its share of one to five
/// octaves, to within one count, above as many whole octaves as the octave
/// fader says.
pub proof fn step_pitch_is_linear(s: Storage, n: int, index: int, cpo: int)
    requires
        s.valid(),
        0 <= n < 4,
        0 <= index < 64,
        0 <= cpo,
    ensures
        ({
            let v = s.seq[index] as int;
            let span = s.range_fader[n] as int / 1000 + 1;
            let base = s.oct_fader[n] as int / 1000 * cpo;
            let r = pitch_counts(s, n, index, cpo);
            &&& 0 <= v * (span * cpo) - 4095 * (r - base) < 4095
            &&& v == 0 ==> r == base
            &&& v == 4095 ==> r == base + span * cpo
            &&& base <= r <= base + span * cpo
        }),
{
    let v = s.seq[index] as int;
    let span = s.range_fader[n] as int / 1000 + 1;
    assert(s.seq[index] <= 4095);
    assert(v * span * cpo == v * (span * cpo)) by (nonlinear_arith);
    let x = span * cpo;
    assert(0 <= x) by (nonlinear_arith)
        requires
            x == span * cpo,
            0 <= span,
            0 <= cpo,
    ;
    assert(0 <= v * x <= 4095 * x) by (nonlinear_arith)
        requires
            0 <= v <= 4095,
            0 <= x,
    ;
    if v == 0 {
        assert(v * x == 0) by (nonlinear_arith)
            requires
                v == 0,
        ;
    }
    if v == 4095 {
        assert(v * x == 4095 * x) by (nonlinear_arith)
            requires
                v == 4095,
        ;
    }
}

/// A higher fader never plays lower, and neighbouring positions lie no further
/// apart than one count more than their share of the range.
pub proof fn step_pitch_rises(s: Storage, n: int, i: int, j: int, cpo: int)
    requires
        s.valid(),
        0 <= n < 4,
        0 <= i < 64,
        0 <= j < 64,
        0 <= cpo,
        s.seq[i] <= s.seq[j],
    ensures
        pitch_counts(s, n, i, cpo) <= pitch_counts(s, n, j, cpo),
        s.seq[j] == s.seq[i] + 1 ==> 4095 * (pitch_counts(s, n, j, cpo) - pitch_counts(
            s,
            n,
            i,
            cpo,
        )) < (s.range_fader[n] as int / 1000 + 1) * cpo + 4095,
{
    step_pitch_is_linear(s, n, i, cpo);
    step_pitch_is_linear(s, n, j, cpo);
    let x = (s.range_fader[n] as int / 1000 + 1) * cpo;
    let a = s.seq[i] as int;
    let b = s.seq[j] as int;
    assert(a * x <= b * x) by (nonlinear_arith)
        requires
            a <= b,
            0 <= x,
    ;
    if b == a + 1 {
        assert(b * x == a * x + x) by (nonlinear_arith)
            requires
                b == a + 1,
        ;
    }
}

/// Transposition by MIDI moves the voltage by a twelfth of an octave for each
/// semitone, to within one count, inside the range of the output.
pub proof fn transposition_moves_by_semitones(s: Seq8, n: int, counts: int)
    requires
        0 <= n < 4,
        0 <= counts <= 4095,
    ensures
        ({
            let shift = s.tracks[n].transpo as int * s.counts_per_oct as int;
            let r = s.pitch_cv(n, counts);
            &&& 0 <= r <= 4095
            &&& 0 < r < 4095 ==> -12 < 12 * (r - counts) - shift < 12
            &&& r == 0 ==> 12 * counts + shift < 12
            &&& r == 4095 ==> 12 * counts + shift > 12 * 4095 - 12
            &&& s.tracks[n].transpo == 0 ==> r == counts
        }),
{
    let t = s.tracks[n].transpo as int;
    let c = s.counts_per_oct as int;
    if t == 0 {
        assert(t * c == 0) by (nonlinear_arith)
            requires
                t == 0,
        ;
    }
}

// ---------------------------------------------------------------------------
// Faders
// ---------------------------------------------------------------------------

/// Of 4096 faces of the die the probability fader lets 205 fire at the bottom
/// and all at the top, in proportion.
pub proof fn probability_is_proportional(fader: int)
    requires
        0 <= fader <= 4095,
    ensures
        0 <= 3891 * fader - 4095 * (threshold_of(fader) - 205) < 4095,
{
}

/// A gate lasts its share of the step, one tick at least, and ends before the
/// next step.
pub proof fn gates_are_proportional(res: int, fader: int)
    requires
        2 <= res <= 24,
        0 <= fader <= 4095,
    ensures
        1 <= gate_of(res, fader) < res,
        res * fader >= 4096 ==> 0 <= res * fader - 4096 * gate_of(res, fader) < 4096,
        res * fader < 4096 ==> gate_of(res, fader) == 1,
{
    assert(0 <= res * fader <= res * 4095) by (nonlinear_arith)
        requires
            0 <= res,
            0 <= fader <= 4095,
    ;
}

/// The speed fader has eight zones, each faster than the one before, from one
/// step a beat to twelve.
pub proof fn speeds_rise(a: int, b: int)
    requires
        0 <= a <= b <= 4095,
    ensures
        res_of(a) >= res_of(b),
        a / 512 < b / 512 ==> res_of(a) > res_of(b),
        a / 512 == b / 512 ==> res_of(a) == res_of(b),
        a < 512 ==> res_of(a) == 24,
        512 <= a < 1024 ==> res_of(a) == 16,
        1024 <= a < 1536 ==> res_of(a) == 12,
        1536 <= a < 2048 ==> res_of(a) == 8,
        2048 <= a < 2560 ==> res_of(a) == 6,
        2560 <= a < 3072 ==> res_of(a) == 4,
        3072 <= a < 3584 ==> res_of(a) == 3,
        a >= 3584 ==> res_of(a) == 2,
{
}

/// Below the notch of eight steps the length is the fader stretched to it, and
/// above it the fader stretched to the end; the last sixteenth of the travel is
/// sixteen steps.
pub proof fn lengths_are_stretched_around_eight(v: int)
    requires
        0 <= v <= 4095,
    ensures
        v <= 1613 ==> 0 <= 1920 * v - 412928 * (length_of(v) - 1) < 412928,
        2227 <= v < 3840 ==> 0 <= 3586560 + 2175 * (v - 2227) - 478208 * (length_of(v) - 1)
            < 478208,
        1613 <= v <= 2227 ==> length_of(v) == 8,
        v >= 3840 ==> length_of(v) == 16,
{
}

/// The direction fader has four zones of equal width.
pub proof fn directions_have_equal_zones(v: int)
    requires
        0 <= v <= 4095,
    ensures
        v / 1024 == 0 <==> Direction::at(v) == Direction::Forward,
        v / 1024 == 1 <==> Direction::at(v) == Direction::Backward,
        v / 1024 == 2 <==> Direction::at(v) == Direction::PingPong,
        v / 1024 == 3 <==> Direction::at(v) == Direction::Random,
{
}

/// A track's settings are those of its faders.
pub proof fn tracks_follow_their_faders(t: Track, s: Storage, n: int)
    requires
        s.valid(),
        0 <= n < 4,
        s.probability_fader[n] <= 4095,
    ensures
        ({
            let r = t.settled(s, n);
            &&& r.seq_length == length_of(alt_value(s, 0, n) as int)
            &&& r.gate_length == gate_of(r.clockres as int, alt_value(s, 1, n) as int)
            &&& r.clockres == res_of(alt_value(s, 4, n) as int)
            &&& r.direction == Direction::at(alt_value(s, 5, n) as int)
            &&& r.probability == threshold_of(alt_value(s, 6, n) as int)
            &&& r.transpo == t.transpo
            &&& r.last_note == t.last_note
        }),
{
    assert(s.length_fader[n] <= 4095 && s.gate_fader[n] <= 4095 && s.res_fader[n] <= 4095);
    lengths_are_stretched_around_eight(s.length_fader[n] as int);
    crate::apps::seq8::lengths_cover_the_fader(
        s.length_fader[n] as int,
        s.length_fader[n] as int,
    );
    speeds_rise(s.res_fader[n] as int, s.res_fader[n] as int);
    gates_are_proportional(res_of(s.res_fader[n] as int), s.gate_fader[n] as int);
    probability_is_proportional(s.probability_fader[n] as int);
}

// ---------------------------------------------------------------------------
// Steps
// ---------------------------------------------------------------------------

/// Forward goes from each step to the next and from the last to the first;
/// backward the other way; back and forth turns round at both ends, which it
/// plays twice.
pub proof fn directions_step_one_by_one(step: int, length: int, roll: int)
    requires
        1 <= length,
        0 <= step,
    ensures
        position(Direction::Forward, 0, length, roll) == 0,
        position(Direction::Backward, 0, length, roll) == length - 1,
        position(Direction::PingPong, 0, length, roll) == 0,
        ({
            let p = position(Direction::Forward, step, length, roll);
            let q = position(Direction::Forward, step + 1, length, roll);
            &&& p < length - 1 ==> q == p + 1
            &&& p == length - 1 ==> q == 0
        }),
        ({
            let p = position(Direction::Backward, step, length, roll);
            let q = position(Direction::Backward, step + 1, length, roll);
            &&& p > 0 ==> q == p - 1
            &&& p == 0 ==> q == length - 1
        }),
        ({
            let k = step % (2 * length);
            let p = position(Direction::PingPong, step, length, roll);
            let q = position(Direction::PingPong, step + 1, length, roll);
            &&& k < length - 1 ==> q == p + 1
            &&& k == length - 1 ==> q == p && p == length - 1
            &&& length <= k < 2 * length - 1 ==> q == p - 1
            &&& k == 2 * length - 1 ==> q == p && p == 0
        }),
{
    let l = length;
    assert(0int % l == 0 && 0int % (2 * l) == 0) by (nonlinear_arith)
        requires
            l >= 1,
    ;
    let r = step % l;
    assert(0 <= r < l && (step + 1) % l == if r + 1 == l { 0 } else { r + 1 }) by (nonlinear_arith)
        requires
            r == step % l,
            l >= 1,
            step >= 0,
    ;
    let m = 2 * l;
    let k = step % m;
    assert(0 <= k < m && (step + 1) % m == if k + 1 == m { 0 } else { k + 1 }) by (nonlinear_arith)
        requires
            k == step % m,
            m >= 1,
            step >= 0,
    ;
}

/// A track plays a step every so many ticks as its speed says, and the next one
/// each time.
pub proof fn steps_come_at_the_tracks_speed(s: Seq8, n: int, plan: Plan, tick: int, roll: int)
    requires
        0 <= n < 4,
        plan.wf(),
        0 <= tick,
        s.tracks[n].direction == Direction::Forward,
    ensures
        ({
            let res = plan.res[n] as int;
            let len = plan.lengths[n] as int;
            &&& s.steps_at(n, plan, 0)
            &&& s.steps_at(n, plan, tick) == s.steps_at(n, plan, tick + res)
            &&& s.steps_at(n, plan, tick) ==> forall|k: int|
                0 < k < res ==> !#[trigger] s.steps_at(n, plan, tick + k)
            &&& s.pos_at(n, plan, 0, roll) == 0
            &&& s.steps_at(n, plan, tick) ==> s.pos_at(n, plan, tick + res, roll) == if s.pos_at(
                n,
                plan,
                tick,
                roll,
            ) == len - 1 {
                0
            } else {
                s.pos_at(n, plan, tick, roll) + 1
            }
        }),
{
    let res = plan.res[n] as int;
    let len = plan.lengths[n] as int;
    assert(plan.res[n] >= 2 && 1 <= plan.lengths[n] <= 16);
    assert(0int % res == 0 && 0int / res == 0 && (tick + res) % res == tick % res && (tick + res)
        / res == tick / res + 1 && tick / res >= 0) by (nonlinear_arith)
        requires
            res >= 2,
            tick >= 0,
    ;
    if s.steps_at(n, plan, tick) {
        assert forall|k: int| 0 < k < res implies !#[trigger] s.steps_at(n, plan, tick + k) by {
            assert((tick + k) % res == k) by (nonlinear_arith)
                requires
                    tick % res == 0,
                    0 < k < res,
                    tick >= 0,
            ;
        }
    }
    directions_step_one_by_one(tick / res, len, roll);
}

/// A step sounds where its gate is set, the track is not muted and the die
/// falls below the probability; it then opens its gate and plays the pitch at
/// the lane's velocity, or full. A step that does not sound closes its gate and
/// plays nothing.
pub proof fn steps_sound_as_set(s: Seq8, n: int, plan: Plan, pos: int, roll: int, pitch: Pitch)
    requires
        0 <= n < 4,
        0 <= pos < 16,
    ensures
        ({
            let (t, acts) = s.next_of(n, plan, pos, roll, pitch);
            let i = pos + 16 * n;
            let sounds = plan.gates[i] && !s.store.muted[n] && roll < s.tracks[n].probability;
            let high = Act::GateHigh { jack: (2 * n + 1) as usize };
            let low = Act::GateLow { jack: (2 * n + 1) as usize };
            let vel = if n == 0 && s.vel_lane_2 {
                s.tracks[1].vel_source
            } else if n == 2 && s.vel_lane_4 {
                s.tracks[3].vel_source
            } else {
                4095
            };
            let lane = n == 1 && s.vel_lane_2 || n == 3 && s.vel_lane_4;
            &&& t.pos == pos
            &&& t.last_index == i
            &&& t.prev_legato == plan.legato[i]
            &&& acts.len() > 0
            &&& sounds ==> acts.last() == high
            &&& !sounds ==> acts.last() == low && t.target_cv == s.tracks[n].target_cv
                && t.last_note == s.tracks[n].last_note && t.vel_source == s.tracks[n].vel_source
            &&& sounds && !lane ==> acts == seq![
                Act::NoteOff { out: n as usize, note: s.tracks[n].last_note },
                Act::NoteOn { out: n as usize, note: pitch.note, vel },
                high,
            ] && t.last_note == pitch.note
            &&& sounds ==> t.sliding == s.tracks[n].prev_legato
            &&& sounds && lane ==> acts == seq![high] && t.target_cv == s.store.seq[i] && (
            s.store.seq[i] > 0 ==> t.vel_source == s.store.seq[i]) && t.vel_source > 0
            &&& !sounds && lane ==> acts == seq![low]
        }),
{
}

/// A gate is only closed by its own end: at no tick that is not its gate length
/// after a step, and never for a legato step or one without a gate.
pub proof fn gates_stay_open_until_their_end(s: Seq8, n: int, plan: Plan, tick: int)
    requires
        0 <= n < 4,
        plan.wf(),
    ensures
        ({
            let t = s.tracks[n];
            let acts = s.gate_over(n, plan, tick);
            &&& acts.len() > 0 ==> tick >= t.gate_used && (tick - t.gate_used) % plan.res[n] as int
                == 0
            &&& plan.legato[t.last_index as int] ==> acts.len() == 0
            &&& !plan.gates[t.last_index as int] ==> acts.len() == 0
            &&& acts.len() > 0 && !s.lane(n) ==> acts == seq![
                Act::GateLow { jack: (2 * n + 1) as usize },
                Act::NoteOff { out: n as usize, note: t.last_note },
            ]
        }),
{
}

/// A stop ends the note of each of the four tracks and closes its jack.
pub proof fn stops_silence_every_track(s: Seq8, n: int)
    requires
        0 <= n < 4,
    ensures
        s.silence(4).len() == 8,
        s.silence(4)[2 * n] == (Act::NoteOff { out: n as usize, note: s.tracks[n].last_note }),
        s.silence(4)[2 * n + 1] == (Act::GateLow { jack: (2 * n + 1) as usize }),
{
    reveal_with_fuel(Seq8::silence, 5);
}

// ---------------------------------------------------------------------------
// Buttons
// ---------------------------------------------------------------------------

/// Two presses of a step leave its gate as it was; a press changes its own step
/// on the shown page, and no other.
pub proof fn presses_toggle_their_step(s: Seq8, chan: usize, i: int)
    requires
        s.wf(),
        chan < 8,
        0 <= i < 64,
    ensures
        ({
            let t = s.pressed(chan, false).0;
            let own = chan + 8 * s.page;
            &&& t.store.gateseq[own as int] == !s.store.gateseq[own as int]
            &&& i != own ==> t.store.gateseq[i] == s.store.gateseq[i] && t.store.legato_seq[i]
                == s.store.legato_seq[i]
            &&& t.pressed(chan, false).0.store.gateseq[i] == s.store.gateseq[i]
            &&& t.store.seq == s.store.seq
            &&& t.page == s.page
            &&& s.pressed(chan, true).0.page == chan
            &&& s.pressed(chan, true).0.store == s.store
        }),
{
}

/// A long press sets a step's gate and turns its legato over; with shift it
/// turns the mute of its track over, and nothing of the steps.
pub proof fn long_presses_turn_over(s: Seq8, chan: usize, i: int)
    requires
        s.wf(),
        chan < 8,
        0 <= i < 64,
    ensures
        ({
            let t = s.held_long(chan, false).0;
            let own = chan + 8 * s.page;
            &&& t.store.legato_seq[own as int] == !s.store.legato_seq[own as int]
            &&& t.store.gateseq[own as int]
            &&& i != own ==> t.store.gateseq[i] == s.store.gateseq[i] && t.store.legato_seq[i]
                == s.store.legato_seq[i]
            &&& t.store.muted == s.store.muted
        }),
        ({
            let t = s.held_long(chan, true).0;
            &&& t.store.gateseq == s.store.gateseq
            &&& t.store.legato_seq == s.store.legato_seq
            &&& chan % 2 == 1 ==> t == s
            &&& chan % 2 == 0 ==> t.store.muted[chan as int / 2] == !s.store.muted[chan as int / 2]
            &&& forall|n: int|
                0 <= n < 4 && n != chan as int / 2 ==> #[trigger] t.store.muted[n]
                    == s.store.muted[n]
        }),
{
}

} // verus!
