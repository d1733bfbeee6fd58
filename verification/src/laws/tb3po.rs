//! What the acid sequencer promises: a seed is a pattern, the density thins it,
//! and the clock's counter says which step plays.

use crate::apps::tb3po::{
    density_of, gate_chance, is_pattern, melody, raw_pitch, repeat_chance, res_of, rhythm,
    steps_of, top_pitch, transposition, AcidPattern, Curved, Pitch, Tb3po,
};
use crate::panel::{Act, LatchLayer};
use vstd::prelude::*;

verus! {

// ---------------------------------------------------------------------------
// Pattern
// ---------------------------------------------------------------------------

/// A step plays with one chance in ten at the middle density, and fourteen in a
/// hundred more for each density away from it, either way.
pub proof fn gates_thin_toward_the_middle(k: int)
    requires
        0 <= k <= 7,
    ensures
        gate_chance(7 + k) == 10 + 14 * k,
        gate_chance(7 - k) == 10 + 14 * k,
{
}

/// Low densities have one pitch or two, then one more for each, up to eight;
/// and the lower the density, the more often a pitch repeats.
pub proof fn pitches_grow_with_density(a: int, b: int)
    requires
        0 <= a <= b <= 14,
    ensures
        0 <= top_pitch(a) <= top_pitch(b) <= 7,
        top_pitch(0) == 0,
        2 <= a <= 8 ==> top_pitch(a) == a - 1,
        a >= 8 ==> top_pitch(a) == 7,
        repeat_chance(b) <= repeat_chance(a) <= 50,
        a <= 8 ==> repeat_chance(a) == 50 - 6 * a,
        a >= 8 ==> repeat_chance(a) == 2,
{
}

proof fn rhythms_nest(seed: u16, a: int, b: int, n: int, k: int)
    requires
        gate_chance(a) <= gate_chance(b),
        0 <= k < n,
    ensures
        rhythm(seed, a, n).gates.len() == n,
        rhythm(seed, b, n).gates.len() == n,
        rhythm(seed, a, n).slides.len() == n,
        rhythm(seed, a, n).rng == rhythm(seed, b, n).rng,
        rhythm(seed, a, n).slides == rhythm(seed, b, n).slides,
        rhythm(seed, a, n).accents == rhythm(seed, b, n).accents,
        rhythm(seed, a, n).gates[k] ==> rhythm(seed, b, n).gates[k],
    decreases n,
{
    if n > 1 {
        rhythms_nest(seed, a, b, n - 1, 0);
        if k < n - 1 {
            rhythms_nest(seed, a, b, n - 1, k);
        }
    } else {
        reveal_with_fuel(rhythm, 2);
    }
}

/// Turning the density away from the middle only adds steps: what plays at a
/// density plays, with the same slides and accents, at every density further
/// out.
pub proof fn density_adds_steps(
    p: AcidPattern,
    q: AcidPattern,
    seed: u16,
    a: int,
    b: int,
    k: int,
)
    requires
        0 <= a <= 14,
        0 <= b <= 14,
        is_pattern(p, seed, a),
        is_pattern(q, seed, b),
        // `b` lies at least as far from the middle.
        (if a >= 7 { a - 7 } else { 7 - a }) <= (if b >= 7 { b - 7 } else { 7 - b }),
        0 <= k < 32,
    ensures
        p.gates[k] ==> q.gates[k],
        p.slides[k] == q.slides[k],
        p.accents[k] == q.accents[k],
{
    rhythms_nest(seed, a, b, 32, 31 - k);
    assert(p.gates@[k] == p.gates[k] && q.gates@[k] == q.gates[k]);
    assert(p.slides@[k] == p.slides[k] && q.slides@[k] == q.slides[k]);
    assert(p.accents@[k] == p.accents[k] && q.accents@[k] == q.accents[k]);
}

proof fn melodies_agree(seed: u16, a: int, b: int, n: int)
    requires
        top_pitch(a) == top_pitch(b),
        repeat_chance(a) == repeat_chance(b),
    ensures
        melody(seed, a, n) == melody(seed, b, n),
    decreases n,
{
    if n > 0 {
        melodies_agree(seed, a, b, n - 1);
    }
}

/// From density eight on the melody is the same, and only the rhythm changes.
pub proof fn dense_melodies_agree(
    p: AcidPattern,
    q: AcidPattern,
    seed: u16,
    a: int,
    b: int,
    k: int,
)
    requires
        8 <= a <= 14,
        8 <= b <= 14,
        is_pattern(p, seed, a),
        is_pattern(q, seed, b),
        0 <= k < 32,
    ensures
        p.notes[k] == q.notes[k],
        p.oct_ups[k] == q.oct_ups[k],
        p.oct_downs[k] == q.oct_downs[k],
{
    melodies_agree(seed, a, b, 32);
    assert(p.notes@[k] == p.notes[k] && q.notes@[k] == q.notes[k]);
    assert(p.oct_ups@[k] == p.oct_ups[k] && q.oct_ups@[k] == q.oct_ups[k]);
    assert(p.oct_downs@[k] == p.oct_downs[k] && q.oct_downs@[k] == q.oct_downs[k]);
}

/// At the lowest density every step has the same pitch.
pub proof fn lowest_density_has_one_pitch(p: AcidPattern, seed: u16, k: int)
    requires
        is_pattern(p, seed, 0),
        0 <= k < 32,
    ensures
        p.notes[k] == 0,
        p.gates[k],
{
    crate::apps::tb3po::patterns_stay_in_range(p, seed, 0, k);
    crate::apps::tb3po::extreme_densities_play_every_step(p, seed, 0, k);
}

// ---------------------------------------------------------------------------
// Faders and pitch
// ---------------------------------------------------------------------------

/// The faders are divided evenly: fifteen densities, thirty-two lengths, two
/// octaves of transposition either way and four octaves either way.
pub proof fn faders_are_divided_evenly(v: int, o: int)
    requires
        0 <= v <= 4095,
        0 <= o <= 4095,
    ensures
        0 <= 14 * v - 4095 * density_of(v) < 4095,
        0 <= 31 * v - 4095 * (steps_of(v) - 1) < 4095,
        2048 <= o < 2559 ==> 0 <= 48 * v - 4095 * (transposition(v, o) + 24) < 4095,
        transposition(v, 4095) == transposition(v, 2048) + 48,
        transposition(v, 0) == transposition(v, 2048) - 48,
        (transposition(v, o) - transposition(v, 2048)) % 12 == 0,
        -4095 * 12 < 12 * (8 * o - 16380) - 4095 * (transposition(v, o) - transposition(v, 2048)),
        12 * (8 * o - 16380) - 4095 * (transposition(v, o) - transposition(v, 2048)) < 4095 * 12,
{
}

/// The speed fader has eight zones, each faster than the one before.
pub proof fn speeds_rise(a: int, b: int)
    requires
        0 <= a <= b <= 4095,
    ensures
        res_of(a) >= res_of(b),
        a / 512 < b / 512 ==> res_of(a) > res_of(b),
        a / 512 == b / 512 ==> res_of(a) == res_of(b),
{
}

/// A step's pitch is its note, an octave up or down where it is moved, and the
/// transposition, each semitone a twelfth of an octave, about the middle of the
/// range and inside it.
pub proof fn pitches_are_semitones(p: AcidPattern, step: int, transpose: int, semi: int)
    requires
        0 <= step < 32,
        0 <= semi <= 340,
        !(p.oct_ups[step] && p.oct_downs[step]),
    ensures
        ({
            let moved = if p.oct_ups[step] {
                12int
            } else if p.oct_downs[step] {
                -12
            } else {
                0
            };
            let place = 2048 + (p.notes[step] + moved + transpose) * semi;
            let r = raw_pitch(p, step, transpose, 12 * semi);
            &&& 0 <= place <= 4095 ==> r == place
            &&& place < 0 ==> r == 0
            &&& place > 4095 ==> r == 4095
        }),
{
    let n = p.notes[step] as int;
    assert((n + 12 + transpose) * semi == n * semi + 12 * semi + transpose * semi) by (
    nonlinear_arith);
    assert((n - 12 + transpose) * semi == n * semi - 12 * semi + transpose * semi) by (
    nonlinear_arith);
    assert((n + 0 + transpose) * semi == n * semi + transpose * semi) by (nonlinear_arith);
    assert((12 * semi) / 12 == semi);
}

// ---------------------------------------------------------------------------
// Steps
// ---------------------------------------------------------------------------

/// The counter of the clock says which step plays: the first at zero, and after
/// each step's ticks the next, round the length of the pattern.
pub proof fn counter_says_the_step(s: Tb3po, tick: int, c: Curved)
    requires
        s.wf(),
        c.valid(),
        0 <= tick,
    ensures
        s.step_of(0, c) == 0,
        0 <= s.step_of(tick, c) < c.steps(),
        s.step_of(tick + s.div, c) == if s.step_of(tick, c) + 1 == c.steps() {
            0
        } else {
            s.step_of(tick, c) + 1
        },
        tick % s.div as int == 0 ==> forall|k: int|
            0 <= k < s.div ==> #[trigger] s.step_of(tick + k, c) == s.step_of(tick, c),
{
    let d = s.div as int;
    let n = c.steps();
    let q = tick / d;
    assert(0int / d == 0 && (tick + d) / d == q + 1 && q >= 0) by (nonlinear_arith)
        requires
            q == tick / d,
            d > 0,
            tick >= 0,
    ;
    assert(0int % n == 0 && 0 <= q % n < n && (q + 1) % n == if q % n + 1 == n {
        0
    } else {
        q % n + 1
    }) by (nonlinear_arith)
        requires
            n > 0,
            q >= 0,
    ;
    if tick % d == 0 {
        assert forall|k: int| 0 <= k < d implies #[trigger] s.step_of(tick + k, c) == s.step_of(
            tick,
            c,
        ) by {
            assert((tick + k) / d == tick / d) by (nonlinear_arith)
                requires
                    tick % d == 0,
                    0 <= k < d,
                    tick >= 0,
            ;
        }
    }
}

/// A step with a gate plays its pitch, at full velocity and with the accent
/// output high where it is accented and accents are on, else at half; a step
/// without one is silent unless the step before slides into it. A slide is what
/// glides.
pub proof fn steps_play_as_drawn(s: Tb3po, tick: int, c: Curved, pitch: Pitch)
    requires
        s.wf(),
        c.valid(),
        0 <= tick,
    ensures
        ({
            let (t, acts) = s.stepped(tick, c, pitch);
            let n = c.steps();
            let step = s.step_of(tick, c);
            let before = if step == 0 { n - 1 } else { step - 1 };
            let slid = tick > 0 && s.pattern.slides[before];
            let gated = s.pattern.gates[step];
            let accent = s.pattern.accents[step] && !s.store.no_accents;
            let vel: u16 = if accent { 4095 } else { 2048 };
            let out: u16 = if accent { 4095 } else { 0 };
            &&& t.step == step
            &&& !gated && !slid ==> acts.len() == 0 && t.slide_target == s.slide_target
                && t.gate_active == s.gate_active
            &&& gated || slid ==> t.slide_target == pitch.counts && t.slide_active == slid
            &&& (gated || slid) && !s.store.muted ==> acts == seq![
                Act::NoteOff { out: 0, note: s.last_note },
                Act::NoteOn { out: 0, note: pitch.note, vel },
                Act::GateHigh { jack: 1 },
                Act::Cv { jack: 2, val: out },
            ] && t.last_note == pitch.note && t.gate_active
            &&& t.pattern == s.pattern
            &&& t.store == s.store
        }),
{
    let n = c.steps();
    let step = s.step_of(tick, c);
    counter_says_the_step(s, tick, c);
    if step == 0 {
        vstd::arithmetic::div_mod::lemma_small_mod((n - 1) as nat, n as nat);
    } else {
        assert((step + n - 1) % n == step - 1) by (nonlinear_arith)
            requires
                1 <= step < n,
        ;
    }
}

/// A step is slid into where the step before it slides, the last before the
/// first; the very first tick is never slid into.
pub proof fn slides_lead_into_the_next_step(s: Tb3po, tick: int, c: Curved)
    requires
        0 < c.steps() <= 32,
        0 <= s.step_of(tick, c) < c.steps(),
    ensures
        !s.slid_into(0, c),
        tick != 0 && s.step_of(tick, c) > 0 ==> s.slid_into(tick, c)
            == s.pattern.slides[s.step_of(tick, c) - 1],
        tick != 0 && s.step_of(tick, c) == 0 ==> s.slid_into(tick, c)
            == s.pattern.slides[c.steps() - 1],
{
    let n = c.steps();
    let k = s.step_of(tick, c);
    if k > 0 {
        assert((k + n - 1) % n == k - 1) by (nonlinear_arith)
            requires
                0 < k < n,
        ;
    } else {
        vstd::arithmetic::div_mod::lemma_small_mod((n - 1) as nat, n as nat);
    }
}

/// An accent plays a step at full velocity and raises the accent output; any
/// other plays at half with the output down. Ending a note closes all three.
pub proof fn accents_are_louder(s: Tb3po, step: int, pitch: Pitch)
    ensures
        ({
            let p = s.play_acts(step, pitch);
            let e = s.end_acts();
            let loud = s.pattern.accents[step] && !s.store.no_accents;
            &&& p.len() == 4 && e.len() == 3
            &&& p[0] == (Act::NoteOff { out: 0, note: s.last_note })
            &&& p[2] == (Act::GateHigh { jack: 1 })
            &&& loud ==> p[1] == (Act::NoteOn { out: 0, note: pitch.note, vel: 4095 }) && p[3] == (
            Act::Cv { jack: 2, val: 4095 })
            &&& !loud ==> p[1] == (Act::NoteOn { out: 0, note: pitch.note, vel: 2048 }) && p[3] == (
            Act::Cv { jack: 2, val: 0 })
            &&& e[0] == (Act::GateLow { jack: 1 })
            &&& e[1] == (Act::NoteOff { out: 0, note: s.last_note })
            &&& e[2] == (Act::Cv { jack: 2, val: 0 })
        }),
{
}

/// The first fader is the density, on its third layer the resolution; the
/// second the length; the third transposes, under shift by octaves.
pub proof fn faders_have_their_settings(s: Tb3po)
    ensures
        s.layer_value(0, LatchLayer::Main) == s.store.density_fader,
        s.layer_value(0, LatchLayer::Third) == s.store.res_saved,
        s.layer_value(1, LatchLayer::Main) == s.store.length_fader,
        s.layer_value(2, LatchLayer::Main) == s.store.transpose_fader,
        s.layer_value(2, LatchLayer::Alt) == s.store.octave_fader,
        s.fader_layer_of(0, true) == s.layer,
        s.fader_layer_of(0, false) == s.layer,
        s.fader_layer_of(1, true) == LatchLayer::Main,
        s.fader_layer_of(2, true) == LatchLayer::Alt,
        s.fader_layer_of(2, false) == LatchLayer::Main,
{
}

/// A gate counts down tick by tick and closes with its last one, unless its
/// step slides: then it stays open.
pub proof fn gates_count_down(s: Tb3po)
    ensures
        ({
            let (a, acts) = s.counted();
            &&& s.gate_off_ticks > 0 ==> a.gate_off_ticks == s.gate_off_ticks - 1
            &&& s.gate_off_ticks == 0 ==> a.gate_off_ticks == 0
            &&& s.gate_off_ticks == 1 && !s.pattern.slides[s.step as int] ==> !a.gate_active
                && acts == s.end_acts()
            &&& s.gate_off_ticks != 1 || s.pattern.slides[s.step as int] ==> a.gate_active
                == s.gate_active && acts.len() == 0
            &&& !s.gate_active ==> !a.gate_active
        }),
{
}

/// A melody starts from its seed: as many notes as steps, none above the top
/// pitch of its density, and no two seeds start alike.
pub proof fn melodies_start_from_their_seed(seed: u16, other: u16, density: int, n: int, i: int)
    requires
        0 <= n,
        0 <= top_pitch(density) < 256,
    ensures
        melody(seed, density, 0).rng == seed + 1,
        seed != other ==> melody(seed, density, 0).rng != melody(other, density, 0).rng,
        melody(seed, density, n).notes.len() == n,
        0 <= i < n ==> melody(seed, density, n).notes[i] <= top_pitch(density),
    decreases n,
{
    if n > 0 {
        melodies_start_from_their_seed(seed, other, density, n - 1, i);
        if n > 1 {
            melodies_start_from_their_seed(seed, other, density, n - 1, n - 2);
        }
    }
}

} // verus!
