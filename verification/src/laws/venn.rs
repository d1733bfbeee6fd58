//! What the two-layer rhythm promises: which layer hits when, on which note,
//! how loud and for how long.

use crate::apps::scale::{degrees, degrees_ascend};
use crate::apps::venn::{
    arch, complement, density_level, dipped, div_of, extent_of, hit_if, hue_along, hue_way,
    interval_of, length_of, length_part, meter_level, note_at, part_mixed, pulses_of,
    semis_of, spread_velocity, venn_layer, Logic, Shape, StepIn, Storage, Venn, Voices,
};
use crate::laws::vamp::rung;
use crate::panel::{Act, Color, LatchLayer};
use vstd::prelude::*;

verus! {

// ---------------------------------------------------------------------------
// Logic
// ---------------------------------------------------------------------------

/// The modes are what they are called: either layer, both, just one, or the
/// first with the second as its accents. The second output is the second layer
/// in all but the last.
pub proof fn modes_are_what_they_are_called(a: bool, b: bool)
    ensures
        Logic::Or.outs(a, b).0 <==> a || b,
        Logic::And.outs(a, b).0 <==> a && b,
        Logic::Xor.outs(a, b).0 <==> a != b,
        Logic::Accnt.outs(a, b).0 <==> a,
        Logic::Or.outs(a, b).1 <==> b,
        Logic::And.outs(a, b).1 <==> b,
        Logic::Xor.outs(a, b).1 <==> b,
        Logic::Accnt.outs(a, b).1 <==> a && b,
{
}

/// The modes are stored as 0 to 3 and cycle in that order; their colours
/// differ.
pub proof fn modes_keep_their_order(l: Logic, m: Logic, v: int)
    requires
        0 <= v,
    ensures
        Logic::at(0) == Logic::Or,
        Logic::at(1) == Logic::And,
        Logic::at(2) == Logic::Xor,
        Logic::at(3) == Logic::Accnt,
        Logic::at(v + 4) == Logic::at(v),
        Logic::Or.after() == Logic::And,
        Logic::And.after() == Logic::Xor,
        Logic::Xor.after() == Logic::Accnt,
        Logic::Accnt.after() == Logic::Or,
        l != m ==> l.hue() != m.hue(),
        l != m ==> l.number() != m.number(),
{
}

/// A hit passes a probability where the die does not roll above its share; at a
/// hundred everything passes.
pub proof fn probability_is_a_share_of_the_die(s: Venn, roll: int)
    requires
        0 <= roll,
    ensures
        s.prob >= 100 ==> s.passes(roll),
        0 <= s.prob < 100 ==> (s.passes(roll) <==> 100 * roll <= 4095 * s.prob),
        s.prob < 0 ==> (s.passes(roll) <==> roll == 0),
{
}

/// What sounds at a step: the mode's outputs of the two layers, swapped where
/// inverted, as far as the probability lets them pass.
pub proof fn outputs_follow_the_mode(s: Venn, i: StepIn)
    ensures
        s.prob >= 100 && !s.store.einv ==> {
            &&& s.logic == Logic::Or ==> s.outs(i) == (i.a || i.b, i.b)
            &&& s.logic == Logic::And ==> s.outs(i) == (i.a && i.b, i.b)
            &&& s.logic == Logic::Xor ==> s.outs(i) == (i.a != i.b, i.b)
            &&& s.logic == Logic::Accnt ==> s.outs(i) == (i.a, i.a && i.b)
        },
        s.store.einv ==> {
            &&& s.outs(i).0 ==> !s.logic.outs(i.a, i.b).0
            &&& s.outs(i).1 ==> !s.logic.outs(i.a, i.b).1
        },
        !s.store.einv ==> {
            &&& s.outs(i).0 ==> s.logic.outs(i.a, i.b).0
            &&& s.outs(i).1 ==> s.logic.outs(i.a, i.b).1
        },
{
}

// ---------------------------------------------------------------------------
// Faders
// ---------------------------------------------------------------------------

/// The faders are divided evenly: two to thirty-two steps, no pulse to one on
/// every step, an extent of up to twenty-four degrees, an interval of up to
/// twelve.
pub proof fn faders_are_divided_evenly(v: int, len: int)
    requires
        0 <= v <= 4095,
        2 <= len <= 32,
    ensures
        v < 4095 ==> 0 <= 31 * v - 4095 * (length_of(v) - 2) < 4095,
        0 <= v * len - 4095 * pulses_of(v, len) < 4095,
        0 <= pulses_of(v, len) <= len,
        0 <= 24 * v - 4095 * extent_of(v) < 4095,
        0 <= 12 * v - 4095 * interval_of(v) < 4095,
{
    assert(0 <= v * len <= 4095 * len) by (nonlinear_arith)
        requires
            0 <= v <= 4095,
            0 <= len,
    ;
}

/// The shape of the rhythm is that of the stored faders, the pulses counted on
/// their own layer's length.
pub proof fn shapes_follow_their_faders(s: Storage)
    requires
        s.valid(),
    ensures
        ({
            let r = Shape::of(s);
            &&& r.len_a == length_of(s.len_a as int)
            &&& r.len_b == length_of(s.len_b as int)
            &&& 0 <= s.pulses_a * r.len_a - 4095 * r.pulses_a < 4095
            &&& 0 <= s.pulses_b * r.len_b - 4095 * r.pulses_b < 4095
            &&& r.extent == extent_of(s.extent as int)
            &&& r.interval == interval_of(s.interval as int)
        }),
{
    faders_are_divided_evenly(s.len_a as int, 2);
    faders_are_divided_evenly(s.len_b as int, 2);
    faders_are_divided_evenly(s.pulses_a as int, length_of(s.len_a as int));
    faders_are_divided_evenly(s.pulses_b as int, length_of(s.len_b as int));
    faders_are_divided_evenly(s.extent as int, 2);
    faders_are_divided_evenly(s.interval as int, 2);
}

/// Divisions go from slow to fast, and the last is taken for any beyond.
pub proof fn divisions_speed_up(a: int, b: int)
    requires
        0 <= a < b,
    ensures
        b <= 11 ==> div_of(a) > div_of(b),
        a >= 11 ==> div_of(a) == 2,
        div_of(2) == 96,
        div_of(4) == 24,
{
}

// ---------------------------------------------------------------------------
// Melody
// ---------------------------------------------------------------------------

/// The melody rises in even steps to its extent at the middle and falls in even
/// steps back, to within one degree.
pub proof fn melody_rises_and_falls_evenly(step: int, len: int, extent: int)
    requires
        0 <= step,
        3 <= len,
        0 < extent,
    ensures
        ({
            let half = (len - 1) / 2;
            let rest = len - 1 - half;
            let phase = step % len;
            let d = arch(step, len, extent);
            &&& phase <= half ==> 0 <= phase * extent - half * d < half
            &&& phase > half ==> 0 <= (phase - half) * extent - rest * (extent - d) < rest
        }),
{
    let half = (len - 1) / 2;
    let rest = len - 1 - half;
    let phase = step % len;
    assert(0 <= phase < len) by (nonlinear_arith)
        requires
            phase == step % len,
            len > 0,
    ;
    if phase <= half {
        let x = phase * extent;
        let q = x / half;
        assert(half * q <= x < half * q + half) by (nonlinear_arith)
            requires
                q == x / half,
                half > 0,
        ;
    } else {
        let x = (phase - half) * extent;
        let q = x / rest;
        assert(rest * q <= x < rest * q + rest) by (nonlinear_arith)
            requires
                q == x / rest,
                rest > 0,
        ;
    }
}

/// A degree of the melody is that rung of the device's scale above its root.
pub proof fn degrees_are_rungs_of_the_scale(root: int, mask: u16, d: int)
    requires
        0 <= root <= 127,
        0 <= d,
    ensures
        root + rung(degrees(mask), d) <= 127 ==> note_at(root, degrees(mask), d) == root + rung(
            degrees(mask),
            d,
        ),
        root + rung(degrees(mask), d) > 127 ==> note_at(root, degrees(mask), d) == 127,
        note_at(root, degrees(mask), 0) == root,
{
    let s = degrees(mask);
    let n = s.len() as int;
    degrees_ascend(mask);
    crate::laws::vamp::rung_is(s, d);
    crate::laws::vamp::rung_is(s, 0);
    if d > 0 {
        crate::laws::vamp::rungs_rise(s, 0, d);
    }
}

/// The two voices: the melody, and the interval above it on the same scale.
pub proof fn second_voice_lies_the_interval_above(s: Venn, step: int, i: StepIn)
    requires
        s.wf(),
        0 <= step,
        i.root <= 127,
        s.voices.last_cycle != Some((step / s.shape.len_a as int) as u32),
    ensures
        ({
            let d = arch(step, s.shape.len_a as int, s.shape.extent as int);
            let (a, b) = s.lines(step, i);
            let up = rung(degrees(i.mask), d);
            let upper = rung(degrees(i.mask), d + s.shape.interval);
            &&& i.root + up <= 127 ==> a == i.root + up
            &&& i.root + upper <= 127 ==> b == i.root + upper
            &&& i.root + up > 127 ==> a == 127
            &&& i.root + upper > 127 ==> b == 127
            &&& s.shape.interval == 0 ==> a == b
            &&& a <= b
        }),
{
    let l = s.shape.len_a as int;
    crate::apps::venn::melody_is_an_arch(step, l, s.shape.extent as int);
    let d = arch(step, l, s.shape.extent as int);
    degrees_are_rungs_of_the_scale(i.root as int, i.mask, d);
    degrees_are_rungs_of_the_scale(i.root as int, i.mask, d + s.shape.interval);
    degrees_ascend(i.mask);
    if s.shape.interval > 0 {
        crate::laws::vamp::rungs_rise(degrees(i.mask), d, d + s.shape.interval);
    }
}

/// Velocity is spread evenly around its base by a percentage of it: the middle
/// of the die gives the base, its ends half the spread less and more.
pub proof fn velocity_is_spread_around_its_base(base: int, pct: int, roll: int)
    requires
        1 <= base <= 4095,
        0 <= pct <= 100,
        0 <= roll <= 4095,
    ensures
        ({
            let span = base * pct / 100;
            let v = spread_velocity(base, pct, roll);
            &&& pct == 0 ==> v == base
            &&& 1 <= v <= 4095
            &&& 1 < v < 4095 ==> -8190 < 8190 * (v - base) - (2 * roll - 4095) * span < 8190
            &&& pct > 0 && v == 4095 && base < 4095 ==> 8190 * (4095 - base) < (2 * roll - 4095)
                * span + 8190
        }),
{
    let span = base * pct / 100;
    assert(0 <= base * pct <= 4095 * 100) by (nonlinear_arith)
        requires
            0 <= base <= 4095,
            0 <= pct <= 100,
    ;
    assert(span % 65536 == span);
    assert((2 * roll - 4095) * span == 2 * (roll * span) - 4095 * span) by (nonlinear_arith);
    assert(0 <= roll * span <= 4095 * span) by (nonlinear_arith)
        requires
            0 <= roll <= 4095,
            0 <= span,
    ;
}

// ---------------------------------------------------------------------------
// Steps and gates
// ---------------------------------------------------------------------------

/// A step plays the first voice where the first output hits and the second
/// where the second does, each with its gate; a muted step plays neither.
#[verifier::spinoff_prover]
#[verifier::rlimit(60)]
pub proof fn hits_sound_with_their_gates(s: Venn, step: int, i: StepIn)
    ensures
        ({
            let acts = s.step_acts(step, i);
            let (x, y) = s.outs(i);
            let (a, b) = s.lines(step, i);
            &&& !s.store.muted && x ==> acts.len() >= 2 && acts[0] == (Act::NoteOn {
                out: 0,
                note: a,
                vel: spread_velocity(4095, s.vel as int, i.vel_roll_a as int) as u16,
            }) && acts[1] == (Act::GateHigh { jack: 0 })
            &&& !s.store.muted && y ==> {
                let k = if x { 2int } else { 0 };
                acts.len() >= k + 2 && acts[k] == (Act::NoteOn {
                    out: 0,
                    note: b,
                    vel: spread_velocity(4095, s.vel as int, i.vel_roll_b as int) as u16,
                }) && acts[k + 1] == (Act::GateHigh { jack: 1 })
            }
            &&& s.store.muted ==> forall|k: int|
                0 <= k < acts.len() ==> (#[trigger] acts[k]) !is NoteOn && acts[k] !is GateHigh
            &&& !x ==> forall|k: int|
                0 <= k < acts.len() ==> #[trigger] acts[k] != (Act::GateHigh { jack: 0 })
            &&& !y ==> forall|k: int|
                0 <= k < acts.len() ==> #[trigger] acts[k] != (Act::GateHigh { jack: 1 })
        }),
{
}

/// A step is played once: its first tick plays it, and the next to play is the
/// first of another step.
pub proof fn steps_are_played_once(s: Venn, clk: int, i: StepIn)
    requires
        s.wf(),
        0 <= clk,
        clk + s.div <= u32::MAX,
    ensures
        ({
            let step = clk / s.div as int;
            let t = Venn { voices: s.step_voices(step, i), ..s };
            &&& t.voices.last_step == Some(step as u32)
            &&& !t.steps(clk)
            &&& t.steps(clk + s.div)
            &&& !t.voices.gate_off_done
            &&& s.voices.last_step is None ==> s.steps(clk)
        }),
{
    let d = s.div as int;
    assert((clk + d) / d == clk / d + 1 && 0 <= clk / d <= clk) by (nonlinear_arith)
        requires
            d >= 2,
            clk >= 0,
    ;
}

/// Gates close after their share of the step, at least a tick after it
/// begins and a tick before it ends.
pub proof fn gates_last_their_share(s: Venn)
    requires
        s.wf(),
    ensures
        ({
            let g = s.gate_tick();
            &&& 1 <= g <= s.div - 1
            &&& 1 < g < s.div - 1 ==> 0 <= s.div * s.gatel - 100 * g < 100
            &&& g == s.div - 1 ==> s.div * s.gatel >= 100 * g || g == 1
            &&& g == 1 ==> s.div * s.gatel < 200 || s.div == 2
        }),
{
    assert(s.div * s.gatel >= 0) by (nonlinear_arith)
        requires
            s.div >= 0,
            s.gatel >= 0,
    ;
}

// ---------------------------------------------------------------------------
// Colours
// ---------------------------------------------------------------------------

/// Opposite colours are opposite to each other, and no colour is its own.
pub proof fn opposites_are_mutual(c: Color)
    ensures
        complement(c) != c,
        c == Color::Blue || c == Color::Green || c == Color::Cyan || c == Color::Rose
            ==> complement(complement(c)) == c,
{
}

/// The way between two hues is the shorter one, and `t` of 255 of it is gone,
/// to within one degree.
pub proof fn hues_take_the_shorter_way(from: int, to: int, t: int)
    requires
        0 <= from < 360,
        0 <= to < 360,
        0 <= t <= 255,
    ensures
        -180 <= hue_way(from, to) <= 180,
        (from + hue_way(from, to) - to) % 360 == 0,
        exists|gone: int|
            #![trigger from + gone]
            hue_along(from, to, t) == (from + gone) % 360 && -255 < 255 * gone - hue_way(from, to)
                * t < 255,
{
    let w = hue_way(from, to);
    let gone = crate::panel::quot(w * t, 255);
    assert(hue_along(from, to, t) == (from + gone) % 360);
}

/// A mix of two parts lies between them, nearer to the second the further it
/// has gone.
pub proof fn mixes_lie_between(a: int, b: int, t: int)
    requires
        0 <= a <= 255,
        0 <= b <= 255,
        0 <= t <= 255,
    ensures
        0 <= 255 * a + (b - a) * t - 255 * part_mixed(a, b, t) < 255,
        part_mixed(a, b, 0) == a,
        part_mixed(a, b, 255) == b,
{
    assert(a * (255 - t) + b * t == 255 * a + (b - a) * t) by (nonlinear_arith);
}

/// A denser layer never glows less: from about a third of full brightness for
/// an empty one to full for a full one.
pub proof fn dense_layers_glow(pulses: int, len: int)
    requires
        0 < len <= 32,
        0 <= pulses < len,
    ensures
        density_level(0, len) == 90,
        density_level(len, len) == 255,
        90 <= density_level(pulses, len) <= density_level(pulses + 1, len) <= 255,
{
    assert(0int * 255 / len == 0 && len * 255 / len == 255) by (nonlinear_arith)
        requires
            0 < len,
    ;
    assert(0 <= pulses * 255 / len <= (pulses + 1) * 255 / len <= 255) by (nonlinear_arith)
        requires
            0 < len,
            0 <= pulses < len,
    ;
}

/// A hit dips the light to 62 hundredths.
pub proof fn hits_dip_the_light(base: int)
    requires
        0 <= base,
    ensures
        0 <= 62 * base - 100 * dipped(base) < 100,
{
}

/// Lengths and meters go evenly from end to end.
pub proof fn lights_go_from_end_to_end(len: int, v: int, top: int)
    requires
        2 <= len <= 32,
        0 < top,
        0 <= v <= top,
    ensures
        length_part(2) == 0,
        length_part(32) == 255,
        0 <= 255 * (len - 2) - 30 * length_part(len) < 30,
        meter_level(0, top) == 40,
        meter_level(top, top) == 255,
        0 <= 215 * v - top * (meter_level(v, top) - 40) < top,
{
    let q = v * 215 / top;
    assert(0 <= v * 215 - top * q < top && 0 <= q <= 215) by (nonlinear_arith)
        requires
            q == v * 215 / top,
            0 <= v <= top,
            0 < top,
    ;
    assert(0int * 215 / top == 0 && top * 215 / top == 215) by (nonlinear_arith)
        requires
            0 < top,
    ;
    assert(215 * v == v * 215);
}

/// As many degrees higher as the scale has, a note is an octave higher.
pub proof fn degrees_repeat_at_the_octave(pcs: Seq<u8>, d: int)
    requires
        pcs.len() > 0,
        0 <= d,
    ensures
        semis_of(pcs, d + pcs.len() as int) == semis_of(pcs, d) + 12,
        d < pcs.len() ==> semis_of(pcs, d) == pcs[d],
{
    let n = pcs.len() as int;
    assert((d + n) / n == d / n + 1 && (d + n) % n == d % n) by (nonlinear_arith)
        requires
            0 <= d,
            0 < n,
    ;
    if d < n {
        vstd::arithmetic::div_mod::lemma_small_mod(d as nat, n as nat);
        assert(d / n == 0) by (nonlinear_arith)
            requires
                0 <= d < n,
        ;
    }
}

/// Shift alone is the second layer and a button alone the third; everything
/// else, both together too, is the first.
pub proof fn layers_do_not_mix(b0: bool, b1: bool)
    ensures
        venn_layer(true, false, false) == LatchLayer::Alt,
        venn_layer(false, false, false) == LatchLayer::Main,
        b0 || b1 ==> venn_layer(false, b0, b1) == LatchLayer::Third,
        b0 || b1 ==> venn_layer(true, b0, b1) == LatchLayer::Main,
{
}

/// A fader changes its own part of the shape and no other; a new length keeps
/// the share of pulses that its fader asks for.
pub proof fn faders_change_their_part(s: Venn, v: int)
    ensures
        ({
            let a = s.shape_with(0, v);
            let b = s.shape_with(1, v);
            let sh = s.shape;
            &&& a.pulses_b == sh.pulses_b && a.len_b == sh.len_b && a.interval == sh.interval
            &&& b.pulses_a == sh.pulses_a && b.len_a == sh.len_a && b.extent == sh.extent
            &&& s.layer != LatchLayer::Third ==> a.len_a == sh.len_a && b.len_b == sh.len_b
            &&& s.layer != LatchLayer::Alt ==> a.extent == sh.extent && b.interval == sh.interval
            &&& s.layer == LatchLayer::Alt ==> a.pulses_a == sh.pulses_a && b.pulses_b
                == sh.pulses_b
        }),
{
}

/// A hit starts its note and opens its jack; what sounds is ended on the jack
/// that it sounds on.
pub proof fn hits_are_ended(v: Voices, note: u8, vel: u16, jack: usize)
    ensures
        hit_if(true, note, vel, jack) == seq![
            Act::NoteOn { out: 0, note, vel },
            Act::GateHigh { jack },
        ],
        hit_if(false, note, vel, jack).len() == 0,
        Venn::off_acts(v).len() == (if v.on_a { 2int } else { 0 }) + (if v.on_b { 2int } else { 0 }),
        v.on_a ==> {
            &&& Venn::off_acts(v)[0] == (Act::NoteOff { out: 0, note: v.sounding_a })
            &&& Venn::off_acts(v)[1] == (Act::GateLow { jack: 0 })
        },
        v.on_b ==> {
            let n = Venn::off_acts(v).len();
            &&& Venn::off_acts(v)[n - 2] == (Act::NoteOff { out: 0, note: v.sounding_b })
            &&& Venn::off_acts(v)[n - 1] == (Act::GateLow { jack: 1 })
        },
{
}

} // verus!
