//! What the decaying looper promises: what is recorded comes round again, and
//! fades the way its mode says.

use crate::apps::loop_de_cay::{
    bars_of, cv_counts, decay_loss, decay_mode_of, decayed_note, decayed_notes, draw, drawn,
    find_free, find_oldest, find_same, on_16th, passes, pitch_pull, pulled_note, retained,
    same_slot, semitones_of, slot_for, softened, steps_of, window_of, LoopBuf, NoteEvent,
};
use crate::apps::scale::{degrees_on, snapped, Scale};
use crate::laws::scale::{
    degrees_are_counted, members, shifts_keep_their_direction, snap_is_nearest,
};
use crate::panel::{dist, max_int};
use vstd::prelude::*;

verus! {

// ---------------------------------------------------------------------------
// Faders
// ---------------------------------------------------------------------------

/// The length fader counts bars in seven even stretches; the mode fader has
/// seven even zones; the decay fader gives one to four degrees, a quarter of
/// its travel each.
pub proof fn faders_are_divided_evenly(v: int)
    requires
        0 <= v <= 4095,
    ensures
        0 <= 7 * v - 4095 * (bars_of(v) - 1) < 4095,
        1 <= bars_of(v) <= 8,
        0 <= 7 * v - 4096 * decay_mode_of(v) < 4096,
        0 <= decay_mode_of(v) <= 6,
        v >= 1024 ==> 0 <= 4 * v - 4095 * steps_of(v) < 4095,
        v < 1024 ==> steps_of(v) == 1,
{
}

/// A position is taken back to the start of its sixteenth.
pub proof fn sixteenths_begin_every_six_ticks(pos: int)
    requires
        0 <= pos,
    ensures
        on_16th(pos) % 6 == 0,
        0 <= pos - on_16th(pos) < 6,
{
}

/// The pitch fader spreads the span over its travel: an offset is its distance
/// from the centre in proportion, to within one semitone, and on the same side.
pub proof fn pitch_fader_is_proportional(fader: int, span: int)
    requires
        0 <= fader < 4095,
        0 <= span,
    ensures
        -4096 < 4096 * semitones_of(fader, span) - (fader - 2048) * span < 4096,
        fader >= 2048 ==> semitones_of(fader, span) >= 0,
        fader < 2048 ==> semitones_of(fader, span) <= 0,
        semitones_of(2048, span) == 0,
{
    if fader >= 2048 {
        assert((fader - 2048) * span >= 0) by (nonlinear_arith)
            requires
                fader >= 2048,
                span >= 0,
        ;
    } else {
        assert((fader - 2048) * span <= 0) by (nonlinear_arith)
            requires
                fader <= 2048,
                span >= 0,
        ;
    }
}

/// The voltage output puts the base note at mid-travel and ten octaves on the
/// whole range, each semitone an even share.
pub proof fn voltage_follows_the_note(note: int, base: int)
    requires
        -60 <= note - base <= 60,
    ensures
        0 <= 4095 * (note - base + 60) - 120 * cv_counts(note, base) < 120,
        cv_counts(base, base) == 2047,
        cv_counts(note, base) <= 4095,
{
}

// ---------------------------------------------------------------------------
// The loop
// ---------------------------------------------------------------------------

/// A loop of so many bars has 96 ticks for each, up to eight bars.
pub proof fn bars_have_96_ticks(bars: int)
    ensures
        1 <= bars <= 8 ==> window_of(bars) == 96 * bars,
        bars < 1 ==> window_of(bars) == 96,
        bars > 8 ==> window_of(bars) == 768,
{
}

/// The loop runs one position a tick and starts over at the end of its window;
/// it begins where it is anchored.
pub proof fn loop_runs_round(b: LoopBuf, tick: int, bars: int)
    requires
        b.origin != u64::MAX,
        b.extent > 0,
        b.origin <= tick,
        1 <= bars <= 8,
    ensures
        b.position(b.origin as int, bars) == Some(0u16),
        b.position(tick, bars) is Some,
        b.position(tick + 96 * bars, bars) == b.position(tick, bars),
        b.position(tick, bars)->0 < 96 * bars,
        b.position(tick + 1, bars)->0 == if b.position(tick, bars)->0 + 1 == 96 * bars {
            0
        } else {
            b.position(tick, bars)->0 + 1
        },
{
    let w = 96 * bars;
    let x = tick - b.origin;
    assert(0int % w == 0 && 0 <= x % w < w && (x + w) % w == x % w) by (nonlinear_arith)
        requires
            w > 0,
    ;
    assert((x + 1) % w == if x % w + 1 == w { 0 } else { x % w + 1 }) by (nonlinear_arith)
        requires
            w > 0,
            x >= 0,
    ;
}

/// A note held from one position to another lasts as long as the loop takes to
/// get there, round its end where the end lies before the start.
pub proof fn held_notes_last_until_their_end(start: int, end: int, window: int)
    requires
        0 <= start < window,
        0 <= end < window,
        start != end,
    ensures
        1 <= LoopBuf::held_for(start, end, window) < window,
        end > start ==> start + LoopBuf::held_for(start, end, window) == end,
        end < start ==> start + LoopBuf::held_for(start, end, window) == window + end,
{
}

proof fn same_found(ev: Seq<NoteEvent>, note: u8, q: int, n: int)
    requires
        0 <= n <= ev.len(),
    ensures
        find_same(ev, note, q, n) matches Some(i) ==> 0 <= i < n && same_slot(ev[i], note, q),
        find_free(ev, n) matches Some(i) ==> 0 <= i < n && !ev[i].used,
        find_free(ev, n) is None ==> forall|k: int| 0 <= k < n ==> (#[trigger] ev[k]).used,
    decreases n,
{
    if n > 0 {
        same_found(ev, note, q, n - 1);
    }
}

proof fn oldest_found(ev: Seq<NoteEvent>, n: int)
    requires
        0 <= n <= ev.len(),
        n <= 32,
    ensures
        0 <= find_oldest(ev, n).0 < 32,
        forall|k: int|
            0 <= k < n ==> find_oldest(ev, n).1 <= (#[trigger] ev[k]).gen,
        n > 0 && (forall|k: int| 0 <= k < n ==> (#[trigger] ev[k]).gen < u32::MAX)
            ==> find_oldest(ev, n).0 < n && ev[
        find_oldest(ev, n).0].gen
            == find_oldest(ev, n).1,
    decreases n,
{
    if n > 0 {
        oldest_found(ev, n - 1);
    }
}

/// What is played is recorded: afterwards one event holds the note, in its
/// sixteenth, with its velocity and length and the newest number. Every other
/// event is as it was; one that sounded makes room only where all were taken,
/// and then the oldest.
pub proof fn played_notes_are_recorded(
    b: LoopBuf,
    start: int,
    dur: u16,
    note: u8,
    vel: u16,
    window: int,
) -> (i: int)
    requires
        0 <= start < window <= 768,
    ensures
        0 <= i < 32,
        ({
            let a = b.with_note(start, dur, note, vel, window);
            let e = a.events[i];
            &&& e.used
            &&& e.note == note
            &&& e.start as int / 6 == start / 6
            &&& e.vel == vel
            &&& e.gen == b.next_gen
            &&& dur > 0 ==> e.dur == dur
            &&& dur == 0 ==> e.dur == 1
            &&& forall|k: int| 0 <= k < 32 && k != i ==> #[trigger] a.events[k] == b.events[k]
            &&& a.origin == b.origin
            &&& a.extent >= window
            &&& b.events[i].used ==> (b.events[i].note == note && b.events[i].start as int / 6
                == start / 6) || (forall|k: int|
                0 <= k < 32 ==> (#[trigger] b.events[k]).used && (b.events[k].gen < u32::MAX
                    ==> b.events[i].gen <= b.events[k].gen || exists|m: int|
                    0 <= m < 32 && (#[trigger] b.events[m]).gen == u32::MAX))
        }),
{
    let ev = b.events@;
    vstd::arithmetic::div_mod::lemma_small_mod(start as nat, window as nat);
    same_found(ev, note, start / 6, 32);
    oldest_found(ev, 32);
    let i = match find_same(ev, note, start / 6, 32) {
        Some(i) => i,
        None => slot_for(ev),
    };
    assert forall|k: int| 0 <= k < 32 implies #[trigger] b.events[k] == ev[k] by {}
    i
}

// ---------------------------------------------------------------------------
// Decay
// ---------------------------------------------------------------------------

proof fn pass_decays_each(
    ev: Seq<NoteEvent>,
    n: int,
    mode: int,
    decay: int,
    root: int,
    scale: Scale,
    rng: u32,
    i: int,
) -> (r: u32)
    requires
        0 <= i < n,
    ensures
        decayed_notes(ev, n, mode, decay, root, scale, rng).0.len() == n,
        decayed_notes(ev, n, mode, decay, root, scale, rng).0[i] == decayed_note(
            ev[i],
            mode,
            decay,
            root,
            scale,
            r,
        ).0,
    decreases n,
{
    let (p, s) = decayed_notes(ev, n - 1, mode, decay, root, scale, rng);
    if n == 1 {
        s
    } else if i == n - 1 {
        let _ = pass_decays_each(ev, n - 1, mode, decay, root, scale, rng, 0);
        s
    } else {
        pass_decays_each(ev, n - 1, mode, decay, root, scale, rng, i)
    }
}

/// In the mode that lets the pitch rise (1) a pass takes every note up, and in
/// the one that lets it fall (2) down, where the scale has a note that way: by
/// as many degrees as the decay fader says, or as far as the keyboard goes.
/// Nothing else of the note changes. `c` is such a note of the scale.
pub proof fn pitch_decay_keeps_its_direction(
    ev: Seq<NoteEvent>,
    decay: int,
    root: int,
    scale: Scale,
    rng: u32,
    i: int,
    c: int,
)
    requires
        0 <= i < 32,
        ev[i].used,
        ev[i].note <= 127,
        0 < decay,
        0 <= c <= 127,
        scale.free || scale.has(c),
    ensures
        c > ev[i].note ==> {
            let e = decayed_notes(ev, 32, 1, decay, root, scale, rng).0[i];
            let took = members(scale, ev[i].note as int, e.note as int);
            &&& e == (NoteEvent { note: e.note, ..ev[i] })
            &&& ev[i].note < e.note <= 127
            &&& scale.free || scale.has(e.note as int)
            &&& 1 <= took
            &&& took * 4095 <= max_int(4 * decay, 4095)
            &&& took * 4095 + 4095 > max_int(4 * decay, 4095) || members(scale, e.note as int, 127)
                == 0
        },
        c < ev[i].note ==> {
            let e = decayed_notes(ev, 32, 2, decay, root, scale, rng).0[i];
            let took = members(scale, e.note - 1, ev[i].note - 1);
            &&& e == (NoteEvent { note: e.note, ..ev[i] })
            &&& e.note < ev[i].note
            &&& scale.free || scale.has(e.note as int)
            &&& 1 <= took
            &&& took * 4095 <= max_int(4 * decay, 4095)
            &&& took * 4095 + 4095 > max_int(4 * decay, 4095) || members(scale, -1, e.note - 1) == 0
        },
{
    let _ = pass_decays_each(ev, 32, 1, decay, root, scale, rng, i);
    let _ = pass_decays_each(ev, 32, 2, decay, root, scale, rng, i);
    let note = ev[i].note as int;
    let steps = steps_of(decay);
    assert(steps * 4095 <= max_int(4 * decay, 4095) < steps * 4095 + 4095);
    if c > note {
        shifts_keep_their_direction(note, steps, true, scale, c);
        let r = snapped(degrees_on(note, steps, true, scale), scale, None);
        one_member(scale, note, r);
    }
    if c < note {
        shifts_keep_their_direction(note, steps, false, scale, c);
        let r = snapped(degrees_on(note, steps, false, scale), scale, None);
        one_member(scale, r - 1, note - 1);
        first_member(scale, r, note - 1);
    }
}

proof fn one_member(scale: Scale, a: int, b: int)
    ensures
        members(scale, a, b) >= 0,
        a < b && (scale.free || scale.has(b)) ==> members(scale, a, b) >= 1,
    decreases b - a,
{
    if a < b {
        one_member(scale, a, b - 1);
    }
}

proof fn first_member(scale: Scale, a: int, b: int)
    requires
        a <= b,
        scale.free || scale.has(a),
    ensures
        members(scale, a - 1, b) >= 1,
    decreases b - a,
{
    if a < b {
        first_member(scale, a, b - 1);
    } else {
        assert(members(scale, a - 1, a - 1) == 0);
    }
}

/// A note of the scale with none beyond it that way stays.
pub proof fn pitch_decay_ends_at_the_keyboard(
    e: NoteEvent,
    up: bool,
    decay: int,
    root: int,
    scale: Scale,
    rng: u32,
)
    requires
        e.used,
        e.note <= 127,
        0 < decay,
        scale.free || scale.has(e.note as int),
        up ==> members(scale, e.note as int, 127) == 0,
        !up ==> members(scale, -1, e.note - 1) == 0,
    ensures
        decayed_note(e, if up { 1 } else { 2 }, decay, root, scale, rng).0 == e,
{
    let note = e.note as int;
    let steps = steps_of(decay);
    degrees_are_counted(note, steps, up, scale);
    let r = degrees_on(note, steps, up, scale);
    if up && r > note {
        one_member(scale, note, r);
        split_members(scale, note, r, 127);
    }
    if !up && r < note {
        first_member(scale, r, note - 1);
        split_members(scale, -1, r - 1, note - 1);
    }
}

proof fn split_members(scale: Scale, a: int, b: int, c: int)
    requires
        a <= b <= c,
    ensures
        members(scale, a, c) == members(scale, a, b) + members(scale, b, c),
        members(scale, a, b) >= 0,
        members(scale, b, c) >= 0,
    decreases c - b,
{
    one_member(scale, a, b);
    if b < c {
        split_members(scale, a, b, c - 1);
    }
}

/// In the mode that takes velocity (5) a pass takes up to two fifths of it, in
/// proportion to the fader, and leaves pitch and length alone; a note that
/// would be as soft as 96 or softer ends.
pub proof fn velocity_decay_is_proportional(
    ev: Seq<NoteEvent>,
    decay: int,
    root: int,
    scale: Scale,
    rng: u32,
    i: int,
)
    requires
        0 <= i < 32,
        ev[i].used,
        0 <= decay <= 4095,
    ensures
        ({
            let e = decayed_notes(ev, 32, 5, decay, root, scale, rng).0[i];
            let v = ev[i].vel as int;
            &&& e.note == ev[i].note
            &&& e.dur == ev[i].dur
            &&& e.start == ev[i].start
            &&& e.used ==> e.vel > 96
            &&& e.used ==> 16769025 * e.vel <= v * (16773119 - 1638 * decay)
            &&& e.used ==> 16769025 * (e.vel + 1) > v * (16769025 - 1638 * decay)
            &&& !e.used ==> 16769025 * 97 > v * (16769025 - 1638 * decay)
        }),
{
    let _ = pass_decays_each(ev, 32, 5, decay, root, scale, rng, i);
    let retain = retained(decay_loss(decay));
    assert(16769025 - 1638 * decay <= 4095 * retain <= 16773119 - 1638 * decay);
    softening_bounds(ev[i], retain, 16769025 - 1638 * decay, 16773119 - 1638 * decay);
}

proof fn softening_bounds(e: NoteEvent, retain: int, low: int, high: int)
    requires
        0 <= retain <= 4095,
        low <= 4095 * retain <= high,
    ensures
        ({
            let v = e.vel as int;
            let s = softened(e, retain);
            &&& s == (NoteEvent { used: s.used, vel: s.vel, ..e })
            &&& s.used && e.used ==> s.vel > 96
            &&& s.vel > 96 ==> s.used == e.used && 16769025 * s.vel <= v * high && 16769025 * (s.vel
                + 1) > v * low
            &&& s.vel <= 96 ==> !s.used && 16769025 * 97 > v * low
        }),
{
    let v = e.vel as int;
    let n = v * retain / 4095;
    assert(v * retain <= v * 4095 && 0 <= v * retain) by (nonlinear_arith)
        requires
            0 <= v,
            0 <= retain <= 4095,
    ;
    assert(n % 65536 == n);
    assert(4095 * (v * retain) <= v * high && 4095 * (v * retain) >= v * low) by (nonlinear_arith)
        requires
            0 <= v,
            low <= 4095 * retain <= high,
    ;
}

/// In the mode that takes length (6) a pass shortens a note in the same
/// proportion, to a sixteenth at least, and leaves pitch and velocity alone; a
/// note still held is left as it is.
pub proof fn gate_decay_is_proportional(
    ev: Seq<NoteEvent>,
    decay: int,
    root: int,
    scale: Scale,
    rng: u32,
    i: int,
)
    requires
        0 <= i < 32,
        ev[i].used,
        0 <= decay <= 4095,
    ensures
        ({
            let e = decayed_notes(ev, 32, 6, decay, root, scale, rng).0[i];
            let d = ev[i].dur as int;
            &&& e == (NoteEvent { dur: e.dur, ..ev[i] })
            &&& d == 65535 ==> e.dur == d
            &&& d < 65535 && d <= 6 ==> e.dur == d
            &&& d < 65535 && d > 6 ==> e.dur >= 6
            &&& d < 65535 && e.dur > 6 ==> 16769025 * e.dur <= d * (16773119 - 1638 * decay)
            &&& d < 65535 ==> 16769025 * (e.dur + 1) > d * (16769025 - 1638 * decay) || e.dur == d
        }),
{
    let _ = pass_decays_each(ev, 32, 6, decay, root, scale, rng, i);
    let retain = retained(decay_loss(decay));
    let d = ev[i].dur as int;
    assert(16769025 - 1638 * decay <= 4095 * retain <= 16773119 - 1638 * decay);
    assert(d * retain <= d * 4095 && 0 <= d * retain) by (nonlinear_arith)
        requires
            0 <= d,
            0 <= retain <= 4095,
    ;
    assert(4095 * (d * retain) <= d * (16773119 - 1638 * decay) && 4095 * (d * retain) >= d * (
    16769025 - 1638 * decay)) by (nonlinear_arith)
        requires
            0 <= d,
            16769025 - 1638 * decay <= 4095 * retain <= 16773119 - 1638 * decay,
    ;
}

/// Drawn to the root, a note of the scale never moves away from it and never
/// past it, ends on the scale, and comes to rest on it.
pub proof fn pull_goes_to_the_root(note: int, root: int, decay: int, scale: Scale)
    requires
        0 <= note <= 127,
        0 <= root <= 127,
        0 <= decay <= 4095,
        scale.free || (scale.has(note) && scale.has(root)),
    ensures
        ({
            let r = pulled_note(note, root, pitch_pull(decay), scale);
            &&& note <= root ==> note <= r <= root
            &&& root <= note ==> root <= r <= note
            &&& scale.free || scale.has(r)
            &&& note == root ==> r == root
            // Chromatically a pass takes a semitone at least, and else its
            // share: half the distance at the top of the fader, an eighth or
            // more everywhere.
            &&& scale.free && note != root ==> {
                let by = dist(note, root) - dist(r, root);
                let share = dist(note, root) * max_int(2048 * decay, 2096640);
                &&& by >= 1
                &&& 16769025 * by <= max_int(share, 16769025)
                &&& 16769025 * (by + 1) + 4095 * dist(note, root) > share
            }
        }),
{
    if note != root {
        let d = dist(note, root);
        let pull = pitch_pull(decay);
        assert(512 <= pull <= 2048);
        let m = max_int(2048 * decay, 2096640);
        assert(m - 4094 <= 4095 * pull <= m);
        let part = d * pull / 4095;
        assert(0 <= d * pull <= d * 2048) by (nonlinear_arith)
            requires
                0 <= d,
                0 <= pull <= 2048,
        ;
        assert(4095 * (d * pull) <= d * m && 4095 * (d * pull) >= d * m - 4094 * d) by (
        nonlinear_arith)
            requires
                0 <= d,
                m - 4094 <= 4095 * pull <= m,
        ;
        let by = max_int(part, 1);
        assert(1 <= by <= d);
        let c = if note > root { note - by } else { note + by };
        let toward = Some(root as u8);
        assert(pulled_note(note, root, pull, scale) == snapped(c, scale, toward));
        if !scale.free {
            if dist(root, c) <= 6 {
                snap_is_nearest(c, scale, toward, root);
            }
            if dist(note, c) <= 6 {
                snap_is_nearest(c, scale, toward, note);
            }
            snap_near(c, scale, toward);
            if dist(root, c) > 6 && dist(note, c) > 6 {
                crate::apps::scale::snap_lands_in_scale(c, scale, toward, note % 12);
            }
        }
    }
}

/// A snapped note lies within six semitones of where it was.
proof fn snap_near(c: int, scale: Scale, toward: Option<u8>)
    ensures
        dist(snapped(c, scale, toward), c) <= 6,
{
    near_from(c, scale, toward, 1);
}

proof fn near_from(c: int, scale: Scale, toward: Option<u8>, d: int)
    requires
        1 <= d <= 7,
    ensures
        dist(crate::apps::scale::nearest_from(c, scale, toward, d), c) <= 6,
    decreases 7 - d,
{
    if d <= 6 {
        near_from(c, scale, toward, d + 1);
    }
}

/// The modes that draw to the root do so: alone (4), or with the loss of
/// velocity (3), where a note that has ended is left.
pub proof fn root_modes_pull(
    ev: Seq<NoteEvent>,
    decay: int,
    root: int,
    scale: Scale,
    rng: u32,
    i: int,
)
    requires
        0 <= i < 32,
        ev[i].used,
        ev[i].note <= 127,
        0 <= root <= 127,
        0 <= decay <= 4095,
        scale.free || (scale.has(ev[i].note as int) && scale.has(root)),
    ensures
        ({
            let a = decayed_notes(ev, 32, 4, decay, root, scale, rng).0[i];
            let b = decayed_notes(ev, 32, 3, decay, root, scale, rng).0[i];
            let v = decayed_notes(ev, 32, 5, decay, root, scale, rng).0[i];
            &&& a == (NoteEvent { note: a.note, ..ev[i] })
            &&& ev[i].note <= root ==> ev[i].note <= a.note <= root
            &&& root <= ev[i].note ==> root <= a.note <= ev[i].note
            &&& scale.free && ev[i].note != root ==> dist(a.note as int, root) < dist(
                ev[i].note as int,
                root,
            )
            &&& b == (NoteEvent { note: b.note, ..v })
            &&& v.used ==> b.note == a.note
            &&& !v.used ==> b == v
        }),
{
    let _ = pass_decays_each(ev, 32, 3, decay, root, scale, rng, i);
    let _ = pass_decays_each(ev, 32, 4, decay, root, scale, rng, i);
    let _ = pass_decays_each(ev, 32, 5, decay, root, scale, rng, i);
    pull_goes_to_the_root(ev[i].note as int, root, decay, scale);
}

/// In the random mode (0) a pass moves a note by no more degrees than the fader
/// says, either way, takes no more velocity than the velocity mode takes, and
/// leaves the length.
pub proof fn random_decay_is_bounded(
    e: NoteEvent,
    decay: int,
    root: int,
    scale: Scale,
    rng: u32,
)
    requires
        e.used,
        e.note <= 127,
        scale.free || scale.has(e.note as int),
        0 < decay <= 4095,
    ensures
        ({
            let d = decayed_note(e, 0, decay, root, scale, rng).0;
            let v = e.vel as int;
            &&& d.dur == e.dur
            &&& d.start == e.start
            &&& members(scale, e.note as int, d.note as int) * 4095 <= max_int(4 * decay, 4095)
            &&& members(scale, d.note - 1, e.note - 1) * 4095 <= max_int(4 * decay, 4095)
            &&& scale.free || scale.has(d.note as int)
            &&& d.used ==> 16769025 * (d.vel + 1) > v * (16769025 - 1638 * decay)
            &&& !d.used ==> 16769025 * 97 > v * (16769025 - 1638 * decay)
        }),
{
    let steps = steps_of(decay);
    let n = draw(rng, steps + 1);
    let r1 = drawn(rng, steps + 1);
    let r2 = if n > 0 { drawn(r1, 2) } else { r1 };
    let up = draw(r1, 2) == 1;
    let loss = draw(r2, decay_loss(decay) + 1);
    assert(0 <= n <= steps);
    assert(0 <= loss <= decay_loss(decay));
    let retain = retained(loss);
    assert(16769025 - 1638 * decay <= 4095 * retain <= 16773119);
    degrees_are_counted(e.note as int, n, up, scale);
    let to = degrees_on(e.note as int, n, up, scale);
    let m = if n > 0 {
        NoteEvent { note: snapped(to, scale, None) as u8, ..e }
    } else {
        e
    };
    assert(scale.free || scale.has(to));
    assert(m.note == to);
    assert(members(scale, e.note as int, to) <= steps);
    assert(members(scale, to - 1, e.note - 1) <= steps);
    softening_bounds(m, retain, 16769025 - 1638 * decay, 16773119);
}

/// A note sounds when the loop comes to it: advancing one tick passes its new
/// position and no other, over the end of the loop too.
pub proof fn one_tick_passes_one_position(pos: u16, target: int, window: int)
    requires
        0 <= pos < window,
        0 <= target < window,
        2 <= window <= 65535,
    ensures
        ({
            let next = if pos + 1 == window { 0int } else { pos + 1 };
            passes(Some(pos), next, target) <==> target == next
        }),
{
}

} // verus!
