//! What buttons and faders promise across the apps: a press does one thing, a
//! fader sets one thing, and neither touches anything else.

use crate::apps::lfo::{ticks_since, Lfo};
use crate::apps::manifold::{Comparator, Manifold, Mode};
use crate::apps::ripppple::Ripppple;
use crate::apps::seq8::{fresh_track, index_of, with_alt, Seq8};
use crate::apps::super_lfo::{balance_of, SuperLfo};
use crate::panel::{LatchLayer, Range};
use vstd::prelude::*;

verus! {

// ---------------------------------------------------------------------------
// Manifold
// ---------------------------------------------------------------------------

/// A plain press on the source freezes it and the next thaws it; on an output
/// it mutes that output alone, and the next brings it back.
pub proof fn manifold_presses_toggle(s: Manifold, i: int, k: int)
    requires
        0 <= i < 3,
        0 <= k < 3,
        !s.fader_moved[0],
        !s.fader_moved[i + 1],
        !s.long[i + 1],
    ensures
        ({
            let a = s.released(0, false).0;
            let b = s.released((i + 1) as usize, false).0;
            &&& a.held != s.held && a.store == s.store && a.params == s.params
            &&& b.store.muted[i] != s.store.muted[i]
            &&& k != i ==> b.store.muted[k] == s.store.muted[k]
            &&& b.held == s.held && b.params == s.params
        }),
{
}

/// A long press on an output moves it on to its next mode, and no other; a
/// fader that was moved meanwhile cancels the press.
pub proof fn manifold_long_presses_change_the_mode(s: Manifold, i: int, k: int)
    requires
        0 <= i < 3,
        0 <= k < 3,
        s.long[i + 1],
    ensures
        ({
            let a = s.released((i + 1) as usize, false).0;
            &&& !s.fader_moved[i + 1] && s.params.mode(i) == Mode::Cv ==> a.params.mode(i)
                == Mode::Gate
            &&& !s.fader_moved[i + 1] && s.params.mode(i) == Mode::Gate ==> a.params.mode(i)
                == Mode::Trigger
            &&& !s.fader_moved[i + 1] && s.params.mode(i) == Mode::Trigger ==> a.params.mode(i)
                == Mode::Cv
            &&& k != i ==> a.params.mode(k) == s.params.mode(k)
            &&& s.fader_moved[i + 1] ==> a.params == s.params
            &&& a.store == s.store
        }),
{
}

/// With shift the source's button turns the clock sync of the oscillator on
/// and off while that is the source, and does nothing otherwise.
pub proof fn manifold_shift_syncs(s: Manifold)
    requires
        !s.fader_moved[0],
    ensures
        ({
            let a = s.released(0, true).0;
            &&& s.active ==> a.store.lfo_clocked != s.store.lfo_clocked
            &&& !s.active ==> a == s
            &&& a.store.muted == s.store.muted && a.held == s.held
        }),
{
}

/// The MIDI mirror sends every eighth millisecond, each wave in its turn.
pub proof fn manifold_mirrors_in_turn(s: Manifold)
    requires
        s.midi_pace < 8,
        s.midi_slot < 4,
    ensures
        !s.midi_on ==> !s.paced().2,
        s.midi_on ==> (s.paced().2 <==> s.midi_pace == 7),
        s.midi_on && s.midi_pace < 7 ==> s.paced().0 == s.midi_pace + 1 && s.paced().1
            == s.midi_slot,
        s.paced().2 ==> s.paced().0 == 0 && (s.paced().1 == s.midi_slot + 1 || (s.paced().1 == 0
            && s.midi_slot == 3)),
{
}

/// A gate goes up above its threshold and stays up until the input has fallen
/// to the hysteresis below it.
pub proof fn gates_hold_through_the_hysteresis(
    c: Comparator,
    input: int,
    threshold: int,
    hysteresis: int,
)
    requires
        0 <= hysteresis < threshold,
    ensures
        input > threshold ==> c.schmitt(input, threshold, hysteresis),
        input <= threshold - hysteresis ==> !c.schmitt(input, threshold, hysteresis),
        threshold - hysteresis < input <= threshold ==> c.schmitt(input, threshold, hysteresis)
            == c.high,
{
}

/// A fader's value is the one that is read back on its layer, and only there.
pub proof fn manifold_faders_are_read_back(
    s: crate::apps::manifold::Storage,
    active: bool,
    chan: int,
    mode: Mode,
    layer: LatchLayer,
    v: u16,
    other: int,
    seen: LatchLayer,
)
    requires
        0 <= chan < 4,
        0 <= other < 4,
    ensures
        s.with_layer(active, chan, mode, layer, v).layer_value(active, chan, mode, layer) == v,
        other != chan || seen != layer ==> s.with_layer(active, chan, mode, layer, v).layer_value(
            active,
            other,
            mode,
            seen,
        ) == s.layer_value(active, other, mode, seen),
{
}

/// A parameter of an output is replaced for that output alone.
pub proof fn manifold_outputs_are_set_apart(
    p: crate::apps::manifold::Params,
    i: int,
    k: int,
    m: Mode,
    r: Range,
)
    requires
        0 <= i < 3,
        0 <= k < 3,
    ensures
        p.with_mode(i, m).mode(i) == m,
        k != i ==> p.with_mode(i, m).mode(k) == p.mode(k),
        i == 0 ==> p.with_mode(i, m).mode_b == m && p.with_range(i, r).range_b == r,
        i == 1 ==> p.with_mode(i, m).mode_c == m && p.with_range(i, r).range_c == r,
        i == 2 ==> p.with_mode(i, m).mode_d == m && p.with_range(i, r).range_d == r,
        p.with_range(i, r).in_range == p.in_range,
        i != 0 ==> p.with_range(i, r).range_b == p.range_b,
        i != 1 ==> p.with_range(i, r).range_c == p.range_c,
        i != 2 ==> p.with_range(i, r).range_d == p.range_d,
{
}

/// A wave sends notes only where it is asked to and its output is a gate or
/// trigger; the source never does.
pub proof fn manifold_notes_need_a_gate(
    p: crate::apps::manifold::Params,
    wave: int,
    modes: [Mode; 3],
)
    requires
        1 <= wave < 4,
    ensures
        !p.sends_notes(0, modes),
        modes[wave - 1] == Mode::Cv ==> !p.sends_notes(wave, modes),
        p.mode_map == 0 ==> !p.sends_notes(wave, modes),
{
}

// ---------------------------------------------------------------------------
// Ripppple
// ---------------------------------------------------------------------------

/// A plain press on the root freezes and thaws; on a stage it mutes that stage
/// alone. After a scrub or a long press nothing happens.
pub proof fn ripppple_presses_toggle(s: Ripppple, i: int, k: int, shift: bool)
    requires
        0 <= i < 3,
        0 <= k < 3,
    ensures
        ({
            let a = s.released(0, false).0;
            let b = s.released((i + 1) as usize, false).0;
            let c = s.released((i + 1) as usize, shift).0;
            &&& !s.fader_moved[0] && !s.long[0] ==> a.held != s.held && a.store == s.store
            &&& !s.fader_moved[i + 1] && !s.long[i + 1] ==> {
                &&& b.store.muted[i] != s.store.muted[i]
                &&& k != i ==> b.store.muted[k] == s.store.muted[k]
                &&& b.held == s.held
            }
            &&& s.fader_moved[i + 1] || s.long[i + 1] ==> c == s
        }),
{
}

/// With shift the root's button turns its clock sync on and off; on a stage it
/// does nothing.
pub proof fn ripppple_shift_syncs(s: Ripppple, i: int)
    requires
        0 <= i < 3,
        !s.fader_moved[0],
        !s.long[0],
    ensures
        s.active ==> s.released(0, true).0.store.lfo_clocked != s.store.lfo_clocked,
        !s.active ==> s.released(0, true).0 == s,
        s.released((i + 1) as usize, true).0 == s,
{
}

/// Depth and rate are the stage's own; the third layer is its shape, on the
/// last stage the symmetry; the first channel has speed, morph and skew.
pub proof fn ripppple_faders_set_their_own(
    s: crate::apps::ripppple::Storage,
    i: int,
    k: int,
    v: u16,
)
    requires
        0 <= i < 3,
        0 <= k < 3,
    ensures
        ({
            let d = s.with_layer(i + 1, LatchLayer::Main, v);
            let r = s.with_layer(i + 1, LatchLayer::Alt, v);
            let t = s.with_layer(i + 1, LatchLayer::Third, v);
            &&& d.depth[i] == v && d.rate == s.rate && d.shape == s.shape
            &&& r.rate[i] == v && r.depth == s.depth && r.shape == s.shape
            &&& k != i ==> d.depth[k] == s.depth[k] && r.rate[k] == s.rate[k]
            &&& i == 2 ==> t.symmetry == v && t.shape == s.shape
            &&& i < 2 ==> t.shape[i] == v && t.symmetry == s.symmetry
            &&& t.depth == s.depth && t.rate == s.rate
            &&& s.with_layer(0, LatchLayer::Main, v).lfo_speed == v
            &&& s.with_layer(0, LatchLayer::Alt, v).morph == v
            &&& s.with_layer(0, LatchLayer::Third, v).skew == v
        }),
{
}

// ---------------------------------------------------------------------------
// Super LFO
// ---------------------------------------------------------------------------

/// The first button freezes on a short press, goes through the nine
/// destinations with shift, and mutes the input on a long press, unless the
/// fader was moved. Nothing else changes.
pub proof fn super_lfo_first_button(s: SuperLfo)
    requires
        s.store.dest < 9,
    ensures
        ({
            let a = s.settings_0(false);
            let b = s.settings_0(true);
            &&& !s.long[0] ==> a.frozen != s.store.frozen && a.dest == s.store.dest && a.in_mute
                == s.store.in_mute
            &&& !s.long[0] && s.store.dest < 8 ==> b.dest == s.store.dest + 1
            &&& !s.long[0] && s.store.dest == 8 ==> b.dest == 0
            &&& !s.long[0] ==> b.frozen == s.store.frozen
            &&& s.long[0] && !s.moved[0] ==> a.in_mute != s.store.in_mute && a.frozen
                == s.store.frozen && a.dest == s.store.dest
            &&& s.long[0] && s.moved[0] ==> a == s.store
            &&& s.long[0] ==> b == s.store
            &&& a.reversed == s.store.reversed && a.out_muted == s.store.out_muted
        }),
{
}

/// The second button sets the phase to the tick on a short press, reverses
/// with shift, and mutes the output on a long press, unless the fader was
/// moved.
pub proof fn super_lfo_second_button(s: SuperLfo, tick: u64)
    ensures
        ({
            let a = s.released_1(false, tick);
            let b = s.released_1(true, tick);
            &&& !s.long[1] ==> a.0.phase_origin == tick && a.2 && a.0.store == s.store
            &&& !s.long[1] ==> b.0.store.reversed != s.store.reversed && !b.2
                && b.0.store.out_muted == s.store.out_muted && b.0.phase_origin == s.phase_origin
            &&& s.long[1] && !s.moved[1] ==> a.0.store.out_muted != s.store.out_muted && !a.2
                && a.0.store.reversed == s.store.reversed
            &&& s.long[1] && s.moved[1] ==> a.0 == s && !a.2
            &&& s.long[1] ==> b.0 == s && !b.2
        }),
{
}

/// A stored balance is taken as it is from 0 to 100; an old one, from -100 to
/// -1, goes evenly to the lower half.
pub proof fn old_balances_are_halved(raw: int)
    ensures
        0 <= raw <= 100 ==> balance_of(raw) == raw,
        -100 <= raw < 0 ==> 0 <= raw + 100 - 2 * balance_of(raw) < 2,
        raw > 100 ==> balance_of(raw) == 100,
        raw < -100 ==> balance_of(raw) == 0,
{
}

/// The frames between two ticks are counted; a tick ends the count and takes
/// it over. A new division starts from the grid, a reset from the tick.
pub proof fn super_lfo_counts_between_ticks(s: SuperLfo, in_val: int, tick: u64)
    requires
        0 <= in_val <= 4095,
        s.frames < u32::MAX,
    ensures
        ({
            let r = s.heard(in_val, tick);
            &&& s.ticked ==> r.frames == 0 && r.frames_per_tick == s.frames + 1
            &&& !s.ticked ==> r.frames == s.frames + 1 && r.frames_per_tick == s.frames_per_tick
            &&& !r.ticked
            &&& s.store.dest == 3 && in_val >= 2458 && s.prev_in < 2458 ==> r.phase_origin == tick
            &&& s.store.dest != 3 && r.div == s.div ==> r.phase_origin == s.phase_origin
            &&& s.store.dest != 3 && r.div != s.div ==> r.phase_origin == 0
            &&& s.prev_in >= 2458 && r.div == s.div ==> r.phase_origin == s.phase_origin
            &&& s.store == r.store
        }),
{
}

/// Each fader of the two channels sets its own of the six settings.
pub proof fn super_lfo_faders_set_their_own(s: crate::apps::super_lfo::Storage, v: u16)
    ensures
        s.with_layer(0, LatchLayer::Main, v) == (crate::apps::super_lfo::Storage { morph: v, ..s }),
        s.with_layer(1, LatchLayer::Main, v) == (crate::apps::super_lfo::Storage { pwm: v, ..s }),
        s.with_layer(0, LatchLayer::Alt, v) == (crate::apps::super_lfo::Storage {
            rate_mod: v,
            ..s
        }),
        s.with_layer(1, LatchLayer::Alt, v) == (crate::apps::super_lfo::Storage {
            layer_speed: v,
            ..s
        }),
        s.with_layer(0, LatchLayer::Third, v) == (crate::apps::super_lfo::Storage { skew: v, ..s }),
        s.with_layer(1, LatchLayer::Third, v) == (crate::apps::super_lfo::Storage { warp: v, ..s }),
{
}

/// A long press with shift moves on through the four mixes on the first
/// channel, and turns the clock sync on and off on the second: on, with the
/// clock standing, it holds at once. Without shift it waits for the release.
pub proof fn super_lfo_long_presses(s: SuperLfo, running: bool)
    requires
        s.mix_mode < 4,
    ensures
        ({
            let a = s.held_long(0, true, running).0;
            let b = s.held_long(1, true, running).0;
            &&& s.held_long(0, false, running).0.store == s.store
            &&& s.held_long(0, false, running).0.mix_mode == s.mix_mode
            &&& s.held_long(1, false, running).0.store == s.store
            &&& a.mix_mode == s.mix_mode + 1 || (a.mix_mode == 0 && s.mix_mode == 3)
            &&& a.store == s.store && a.long[0]
            &&& b.store.clocked != s.store.clocked && b.mix_mode == s.mix_mode && b.long[1]
            &&& !b.store.clocked ==> !b.clock_held
            &&& b.store.clocked && !running ==> b.clock_held
            &&& b.store.clocked && running ==> b.clock_held == s.clock_held
        }),
{
}

/// What a fader of the super LFO has set is what is read back on its layer,
/// and only there.
pub proof fn super_lfo_faders_are_read_back(
    s: crate::apps::super_lfo::Storage,
    chan: int,
    layer: LatchLayer,
    v: u16,
    other: int,
    seen: LatchLayer,
)
    requires
        0 <= chan < 2,
        0 <= other < 2,
    ensures
        s.with_layer(chan, layer, v).layer_value(chan, layer) == v,
        other != chan || seen != layer ==> s.with_layer(chan, layer, v).layer_value(other, seen)
            == s.layer_value(other, seen),
        s.layer_value(0, LatchLayer::Main) == s.morph,
        s.layer_value(1, LatchLayer::Alt) == s.layer_speed,
        s.layer_value(0, LatchLayer::Third) == s.skew,
{
}

/// A target or range is replaced for its stage alone.
pub proof fn ripppple_stages_are_set_apart(
    p: crate::apps::ripppple::Params,
    i: int,
    t: usize,
    r: Range,
)
    requires
        0 <= i < 3,
    ensures
        i == 0 ==> p.with_target(i, t).target_b == t && p.with_range(i, r).range_b == r,
        i == 1 ==> p.with_target(i, t).target_c == t && p.with_range(i, r).range_c == r,
        i == 2 ==> p.with_target(i, t).target_d == t && p.with_range(i, r).range_d == r,
        i != 0 ==> p.with_target(i, t).target_b == p.target_b && p.with_range(i, r).range_b
            == p.range_b,
        i != 1 ==> p.with_target(i, t).target_c == p.target_c && p.with_range(i, r).range_c
            == p.range_c,
        i != 2 ==> p.with_target(i, t).target_d == p.target_d && p.with_range(i, r).range_d
            == p.range_d,
        p.with_range(i, r).in_range == p.in_range,
{
}

/// The modes of an output have the numbers by which the host selects them.
pub proof fn manifold_modes_are_numbered(m: Mode)
    ensures
        Mode::at(m.number()) == m,
        Mode::Cv.number() == 0,
        Mode::Gate.number() == 1,
        Mode::Trigger.number() == 2,
{
}

// ---------------------------------------------------------------------------
// LFO and sequencer
// ---------------------------------------------------------------------------

/// The phase counts from its origin, over the counter's turn too. A new
/// division starts it from the grid; the same one leaves it.
pub proof fn lfo_phase_has_an_origin(s: Lfo, origin: u64, d: int)
    requires
        0 <= d <= u64::MAX,
    ensures
        origin + d <= u64::MAX ==> ticks_since((origin + d) as u64, origin) == d,
        origin + d > u64::MAX ==> ticks_since(
            (origin + d - 0x1_0000_0000_0000_0000) as u64,
            origin,
        ) == d,
        s.with_speed().div == s.div ==> s.with_speed().phase_origin == s.phase_origin,
        s.with_speed().div != s.div ==> s.with_speed().phase_origin == 0,
        s.with_speed().store == s.store,
{
}

/// A shifted fader sets its setting of the track it works for and of no other.
pub proof fn seq8_shifted_faders_work_for_their_track(
    s: crate::apps::seq8::Storage,
    n: int,
    k: int,
    v: u16,
)
    requires
        0 <= n < 4,
        0 <= k < 4,
    ensures
        with_alt(s, 0, n, v).length_fader[n] == v,
        with_alt(s, 1, n, v).gate_fader[n] == v,
        with_alt(s, 2, n, v).oct_fader[n] == v,
        with_alt(s, 3, n, v).range_fader[n] == v,
        with_alt(s, 4, n, v).res_fader[n] == v,
        with_alt(s, 5, n, v).direction_fader[n] == v,
        with_alt(s, 6, n, v).probability_fader[n] == v,
        with_alt(s, 7, n, v).slide_fader[n] == v,
        k != n ==> {
            &&& with_alt(s, 0, n, v).length_fader[k] == s.length_fader[k]
            &&& with_alt(s, 1, n, v).gate_fader[k] == s.gate_fader[k]
            &&& with_alt(s, 2, n, v).oct_fader[k] == s.oct_fader[k]
            &&& with_alt(s, 3, n, v).range_fader[k] == s.range_fader[k]
            &&& with_alt(s, 4, n, v).res_fader[k] == s.res_fader[k]
            &&& with_alt(s, 5, n, v).direction_fader[k] == s.direction_fader[k]
            &&& with_alt(s, 6, n, v).probability_fader[k] == s.probability_fader[k]
            &&& with_alt(s, 7, n, v).slide_fader[k] == s.slide_fader[k]
        },
        forall|c: int| #[trigger] with_alt(s, c, n, v).seq == s.seq && with_alt(s, c, n, v).gateseq
            == s.gateseq,
{
}

/// Setting a track leaves the other tracks and every step alone.
pub proof fn seq8_tracks_are_set_apart(s: Seq8, chan: int, n: int, k: int, v: u16)
    requires
        0 <= n < 4,
        0 <= k < 4,
    ensures
        k != n ==> s.alt_updated(chan, n, v).tracks[k] == s.tracks[k],
        s.alt_updated(chan, n, v).store.seq == s.store.seq,
        s.alt_updated(chan, n, v).store.gateseq == s.store.gateseq,
        s.alt_updated(chan, n, v).tracks[n].pos == s.tracks[n].pos,
        s.alt_updated(chan, n, v).tracks[n].transpo == s.tracks[n].transpo,
        chan != 0 ==> s.alt_updated(chan, n, v).tracks[n].seq_length == s.tracks[n].seq_length,
        chan != 4 ==> s.alt_updated(chan, n, v).tracks[n].clockres == s.tracks[n].clockres,
        chan != 5 ==> s.alt_updated(chan, n, v).tracks[n].direction == s.tracks[n].direction,
        chan != 6 ==> s.alt_updated(chan, n, v).tracks[n].probability == s.tracks[n].probability,
{
}

/// Two pages of eight channels show the sixteen steps of a track, page by page
/// and track by track.
pub proof fn seq8_pages_show_the_steps(s: Seq8, chan: int)
    requires
        0 <= chan < 8,
        s.page < 8,
    ensures
        s.cell(chan) == index_of(s.page as int / 2, 8 * (s.page as int % 2) + chan),
        0 <= s.cell(chan) < 64,
{
}

/// A fresh track has sixteen steps of a sixteenth, forward, each of them
/// certain.
pub proof fn seq8_tracks_begin_plain(note: u8)
    ensures
        fresh_track(note).seq_length == 16,
        fresh_track(note).clockres == 6,
        fresh_track(note).direction == crate::apps::seq8::Direction::Forward,
        fresh_track(note).probability == 4096,
        fresh_track(note).transpo == 0,
        fresh_track(note).last_note == note,
{
}

/// A new resolution cuts a gate down to its step and never stretches it.
pub proof fn seq8_gates_fit_their_step(s: Seq8, n: int, v: u16)
    requires
        0 <= n < 4,
        v <= 4095,
        s.tracks[n].gate_length >= 1,
    ensures
        ({
            let t = s.alt_updated(4, n, v).tracks[n];
            &&& t.gate_length <= s.tracks[n].gate_length
            &&& t.gate_length <= t.clockres
            &&& s.tracks[n].gate_length <= t.clockres ==> t.gate_length == s.tracks[n].gate_length
        }),
{
    crate::laws::seq8::speeds_rise(v as int, v as int);
}

/// A step keeps gate and legato as given; the rest stays.
pub proof fn seq8_steps_are_set_apart(s: Seq8, i: int, k: int, gate: bool, legato: bool)
    requires
        0 <= i < 64,
        0 <= k < 64,
    ensures
        ({
            let r = s.with_step(i, gate, legato);
            &&& r.store.gateseq[i] == gate && r.store.legato_seq[i] == legato
            &&& k != i ==> r.store.gateseq[k] == s.store.gateseq[k] && r.store.legato_seq[k]
                == s.store.legato_seq[k]
            &&& r.store.seq == s.store.seq && r.tracks == s.tracks
        }),
{
}

} // verus!
