//! What the chord player promises: chords of stacked thirds, moves by weight,
//! and clips that repeat what was played.

use crate::apps::scale::{degrees, degrees_ascend};
use crate::apps::vamp::{
    bucket_center, chord, chord_note, chord_size, clip_note, is_classic, is_seeded, markov_next,
    share_of, velocity_of, walk, weight_sum, weighted, wrap_sub, MARKOV, PROGRESSIONS, Ring,
    SeedRolls, Sound, Vamp,
};
use crate::panel::Act;
use vstd::prelude::*;

verus! {

// ---------------------------------------------------------------------------
// Chords
// ---------------------------------------------------------------------------

/// Semitones of rung `d` of a scale above its tonic, over the octaves.
pub open spec fn rung(scale: Seq<u8>, d: int) -> int
    decreases d,
{
    if scale.len() == 0 || d < 0 {
        0
    } else if d < scale.len() {
        scale[d] - scale[0]
    } else {
        rung(scale, d - scale.len()) + 12
    }
}

/// A rung is its octaves and its degree.
pub proof fn rung_is(scale: Seq<u8>, d: int)
    requires
        scale.len() >= 1,
        0 <= d,
    ensures
        rung(scale, d) == d / scale.len() as int * 12 + scale[d % scale.len() as int] - scale[0],
    decreases d,
{
    let n = scale.len() as int;
    if d < n {
        vstd::arithmetic::div_mod::lemma_small_mod(d as nat, n as nat);
        vstd::arithmetic::div_mod::lemma_basic_div(d, n);
    } else {
        rung_is(scale, d - n);
        assert(d % n == (d - n) % n && d / n == (d - n) / n + 1) by (nonlinear_arith)
            requires
                n >= 1,
                d >= n,
        ;
    }
}

/// A higher rung is a higher note.
pub proof fn rungs_rise(scale: Seq<u8>, a: int, b: int)
    requires
        scale.len() >= 1,
        0 <= a < b,
        forall|i: int| 0 <= i < scale.len() ==> #[trigger] scale[i] < 12,
        forall|i: int, j: int|
            0 <= i < j < scale.len() ==> #[trigger] scale[i] < #[trigger] scale[j],
    ensures
        0 <= rung(scale, a) < rung(scale, b),
    decreases b,
{
    let n = scale.len() as int;
    if b < n {
        if a > 0 {
            assert(scale[0] < scale[a]);
        }
    } else if a >= n {
        rungs_rise(scale, a - n, b - n);
    } else {
        if b > n {
            rungs_rise(scale, 0, b - n);
        }
        if a > 0 {
            assert(scale[0] < scale[a]);
        }
        assert(scale[a] - scale[0] < 12);
    }
}

/// A chord stacks every second rung of its scale on its degree: note `v` of the
/// chord on degree `g` is rung `g + 2v` above the root, in triads, sevenths and
/// ninths alike, as far as the keyboard goes. The spread voicing takes note `v`
/// up by `v` octaves.
pub proof fn chords_are_stacked_thirds(root: int, mask: u16, g: int, voicing: int, v: int)
    requires
        0 <= root <= 127,
        0 <= g < 7,
        0 <= v < chord_size(voicing),
    ensures
        ({
            let note = chord_note(root, degrees(mask), g, voicing, v);
            let place = root + rung(degrees(mask), g + 2 * v);
            &&& voicing != 3 && place <= 127 ==> note == place
            &&& voicing == 3 && place + 12 * v <= 127 ==> note == place + 12 * v
            &&& voicing != 3 && place > 127 ==> note == 127
            &&& voicing == 3 && place + 12 * v > 127 ==> note == 127
        }),
{
    degrees_ascend(mask);
    rung_is(degrees(mask), g + 2 * v);
    if g + 2 * v > 0 {
        rungs_rise(degrees(mask), 0, g + 2 * v);
    }
}

/// The notes of a chord are those of the chords on the degrees above: note `v`
/// on degree `g` is the lowest note on degree `g + 2v`, and past the seventh
/// degree of a scale of seven, that of the degree an octave below, an octave
/// higher.
pub proof fn chords_share_their_notes(root: int, mask: u16, g: int, voicing: int, v: int)
    requires
        0 <= root <= 127,
        0 <= g < 7,
        0 <= v < chord_size(voicing),
        voicing != 3,
    ensures
        ({
            let s = degrees(mask);
            let note = chord_note(root, s, g, voicing, v);
            &&& g + 2 * v < 7 ==> note == chord_note(root, s, g + 2 * v, voicing, 0)
            &&& s.len() == 7 && 7 <= g + 2 * v < 14 && note < 127 ==> note == chord_note(
                root,
                s,
                g + 2 * v - 7,
                voicing,
                0,
            ) + 12
        }),
{
    let s = degrees(mask);
    degrees_ascend(mask);
    chords_are_stacked_thirds(root, mask, g, voicing, v);
    if g + 2 * v < 7 {
        chords_are_stacked_thirds(root, mask, g + 2 * v, voicing, 0);
    } else if s.len() == 7 && g + 2 * v < 14 {
        chords_are_stacked_thirds(root, mask, g + 2 * v - 7, voicing, 0);
    }
}

/// Below the top of the keyboard the notes of a chord ascend strictly, in every
/// voicing and on every degree.
pub proof fn chords_ascend(root: int, mask: u16, g: int, voicing: int, a: int, b: int)
    requires
        0 <= root <= 127,
        0 <= g < 7,
        0 <= a < b < chord_size(voicing),
    ensures
        ({
            let low = chord_note(root, degrees(mask), g, voicing, a);
            let high = chord_note(root, degrees(mask), g, voicing, b);
            low < high || low == 127 && high == 127
        }),
{
    degrees_ascend(mask);
    chords_are_stacked_thirds(root, mask, g, voicing, a);
    chords_are_stacked_thirds(root, mask, g, voicing, b);
    rungs_rise(degrees(mask), g + 2 * a, g + 2 * b);
}

/// A triad has three notes, a seventh four, a ninth five and a spread chord
/// three; the larger chords hold the smaller ones.
pub proof fn chords_hold_the_smaller_ones(root: int, mask: u16, g: int, v: int)
    ensures
        chord(root, degrees(mask), g, 0).len() == 3,
        chord(root, degrees(mask), g, 1).len() == 4,
        chord(root, degrees(mask), g, 2).len() == 5,
        chord(root, degrees(mask), g, 3).len() == 3,
        0 <= v < 3 ==> chord(root, degrees(mask), g, 1)[v] == chord(root, degrees(mask), g, 0)[v],
        0 <= v < 4 ==> chord(root, degrees(mask), g, 2)[v] == chord(root, degrees(mask), g, 1)[v],
{
}

/// Velocity is spread over twelve bits, from 1 to 127.
pub proof fn velocity_is_proportional(vel: int)
    requires
        1 <= vel <= 127,
    ensures
        0 <= 4095 * vel - 127 * velocity_of(vel) < 127,
        velocity_of(127) == 4095,
{
}

// ---------------------------------------------------------------------------
// Moves by weight
// ---------------------------------------------------------------------------

proof fn share_is(w: Seq<u8>, pick: int, i: int)
    requires
        w.len() == 7,
        0 <= i <= 7,
        weight_sum(w, i) <= pick < weight_sum(w, 7),
    ensures
        ({
            let k = share_of(w, pick - weight_sum(w, i), i);
            &&& i <= k < 7
            &&& weight_sum(w, k) <= pick < weight_sum(w, k + 1)
        }),
    decreases 7 - i,
{
    if i < 7 {
        assert(weight_sum(w, i + 1) == weight_sum(w, i) + w[i]);
        if pick - weight_sum(w, i) >= w[i] {
            share_is(w, pick, i + 1);
        }
    }
}

/// The die is shared out by weight: the entries take their weight's share of
/// its 4096 faces, in order.
pub proof fn rolls_are_shared_by_weight(w: Seq<u8>, roll: int)
    requires
        w.len() == 7,
        0 <= roll < 4096,
    ensures
        ({
            let total = w[0] + w[1] + w[2] + w[3] + w[4] + w[5] + w[6];
            &&& total == 0 <==> weighted(w, roll) is None
            &&& weighted(w, roll) matches Some(i) ==> {
                &&& 0 <= i < 7
                &&& 4096 * weight_sum(w, i) <= roll * total
                &&& roll * total < 4096 * (weight_sum(w, i) + w[i])
                &&& w[i] > 0
            }
            &&& weight_sum(w, 7) == total
        }),
{
    reveal_with_fuel(weight_sum, 8);
    let total = weight_sum(w, 7);
    if total > 0 {
        assert(0 <= roll * total < 4096 * total) by (nonlinear_arith)
            requires
                0 <= roll < 4096,
                total > 0,
        ;
        let pick = roll * total / 4096;
        share_is(w, pick, 0);
        let k = share_of(w, pick, 0);
        assert(weight_sum(w, k + 1) == weight_sum(w, k) + w[k]);
    }
}

proof fn rows_have_weight(genre: int, from: int)
    requires
        0 <= genre < 8,
        0 <= from < 7,
    ensures
        MARKOV[genre][from][0] > 0,
{
}

/// A walk only makes moves that the genre knows: from each slot to the next the
/// genre gives the move some weight, unless the phrase returns to the tonic.
pub proof fn walks_follow_the_genre(genre: int, r: SeedRolls, i: int)
    requires
        0 <= genre < 8,
        1 <= i < 8,
        0 <= walk(genre, r, i - 1) < 7,
        r.steps[i - 1] < 4096,
    ensures
        walk(genre, r, i) == 0 || MARKOV[genre][walk(genre, r, i - 1)][walk(genre, r, i)] > 0,
        i != 4 ==> MARKOV[genre][walk(genre, r, i - 1)][walk(genre, r, i)] > 0,
        i == 4 && r.phrase[0] < 1600 ==> walk(genre, r, i) == 0,
        0 <= walk(genre, r, i) < 7,
{
    let from = walk(genre, r, i - 1);
    let row = MARKOV[genre][from]@;
    rows_have_weight(genre, from);
    rolls_are_shared_by_weight(row, r.steps[i - 1] as int);
    assert(row[0] > 0);
}

/// A classic seed is the same in both its halves and has eight slots; a walk
/// that leads back ends on the fifth or the seventh degree.
pub proof fn seeds_have_eight_slots(slots: Seq<u8>, genre: int, r: SeedRolls, i: int)
    requires
        is_seeded(slots, genre, r),
        0 <= genre < 8,
        0 <= i < 32,
    ensures
        i >= 8 ==> slots[i] == 0,
        r.classic < 820 && i < 4 ==> slots[i] == slots[i + 4],
        r.classic < 820 ==> slots[0] == 0,
        r.classic >= 820 && r.ending < 2200 && i == 7 ==> slots[7] == 4 || slots[7] == 6,
        r.classic >= 820 && r.tonic < 2700 && i == 0 ==> slots[0] == 0,
{
    assert(slots[i] == slots[i]);
    if r.classic < 820 {
        assert(is_classic(slots, genre));
        assert(slots[0] == slots[0]);
        classics_repeat(genre, i);
        if i < 4 {
            assert(slots[i + 4] == slots[i + 4]);
        }
    }
}

proof fn classics_repeat(genre: int, i: int)
    requires
        0 <= genre < 8,
    ensures
        PROGRESSIONS[genre][0] == 0,
        0 <= i < 4 ==> PROGRESSIONS[genre][i]
            == PROGRESSIONS[genre][i + 4],
{
}

// ---------------------------------------------------------------------------
// Capture
// ---------------------------------------------------------------------------

/// A captured chord begins in the clip as long before its end as it was played
/// before the capture, on the nearest sixteenth, and is as long as it was held,
/// up to the end. Chords from before the clip, and such without a length, are
/// left out.
pub proof fn captures_keep_time(bars: int, now: u32, deg: u8, on: u32, off: u32, held: bool)
    requires
        1 <= bars <= 682,
        on <= now,
        off > 0,
        !held,
        on < off <= now,
    ensures
        now - on >= bars * 96 ==> clip_note(bars * 96, now, deg, on, off, held) is None,
        0 < now - on < bars * 96 ==> {
            let place = bars * 96 - (now - on);
            &&& clip_note(bars * 96, now, deg, on, off, held) is Some
            &&& clip_note(bars * 96, now, deg, on, off, held) matches Some(c) ==> {
                &&& c.deg == deg
                &&& c.on % 6 == 0
                &&& c.on < bars * 96
                &&& place < bars * 96 - 3 ==> -3 <= c.on - place <= 3
                &&& place >= bars * 96 - 3 ==> c.on == bars * 96 - 6
                &&& off - on <= bars * 96 - c.on ==> c.dur == off - on
                &&& off - on > bars * 96 - c.on ==> c.dur == bars * 96 - c.on
            }
        },
{
    let w = bars * 96;
    let raw = w - (now - on);
    if 0 < now - on < w {
        crate::apps::vamp::snapping_is_nearest(raw, 6);
    }
}

// ---------------------------------------------------------------------------
// Auto
// ---------------------------------------------------------------------------

/// A genre plays its slots in turn, one every step, and releases each chord
/// after four fifths of it; on every other tick nothing happens.
pub proof fn slots_are_played_in_turn(v: Vamp, clk: u32, walk_roll: u16, keep_roll: u16)
    requires
        v.wf(),
        v.mode_auto,
        v.running,
        v.clip.len == 0 || !v.clip.active,
        !v.meander,
        v.slot_count > 0,
        v.auto_step < usize::MAX,
    ensures
        ({
            let w = v.clocked(clk, walk_roll, keep_roll);
            let phase = clk as int % v.div as int;
            let slot = v.auto_step as int % v.slot_count as int;
            &&& phase == 0 ==> {
                &&& w.pending.play
                &&& w.pending.degree == v.slots[slot]
                &&& w.auto_degree == v.slots[slot]
                &&& w.auto_step == v.auto_step + 1
                &&& w.slot_idx == slot
                &&& !w.pending.record
                &&& w.pending.release == v.pending.release
            }
            &&& phase > 0 ==> {
                &&& w.pending.play == v.pending.play
                &&& w.pending.degree == v.pending.degree
                &&& w.auto_step == v.auto_step
                &&& v.div >= 5 ==> (w.pending.release <==> v.pending.release || (0 <= 80 * v.div
                    - 100 * phase < 100))
                &&& w.pending.release ==> v.pending.release || phase < v.div
            }
        }),
{
}

/// While meandering under tension, a step is a move that the genre knows; at
/// little tension it is the slot.
pub proof fn meandering_follows_the_genre(v: Vamp, walk_roll: u16, keep_roll: u16)
    requires
        v.wf(),
        v.slot_count > 0,
        v.cv_dest != 0,
        v.auto_degree < 7,
        walk_roll < 4096,
    ensures
        v.meander && v.tension >= 3000 ==> MARKOV[v.last_genre as int][v.auto_degree as int][
        v.next_degree(walk_roll, keep_roll) as int] > 0,
        v.meander && 512 < v.tension && keep_roll <= v.tension ==> MARKOV[v.last_genre as int][
        v.auto_degree as int][v.next_degree(walk_roll, keep_roll) as int] > 0,
        v.tension <= 512 || !v.meander || (v.tension < 3000 && keep_roll > v.tension)
            ==> v.next_degree(walk_roll, keep_roll) == v.slots[v.auto_step as int
            % v.slot_count as int],
{
    let g = v.last_genre as int;
    let from = v.auto_degree as int;
    let row = MARKOV[g][from]@;
    rows_have_weight(g, from);
    rolls_are_shared_by_weight(row, walk_roll as int);
    assert(row[0] > 0);
    vstd::arithmetic::div_mod::lemma_small_mod(from as nat, 7);
}

proof fn start_found(v: Vamp, phase: int, n: int)
    requires
        0 <= n <= 32,
    ensures
        v.starts_at(phase, n) matches Some(i) ==> 0 <= i < n && v.clip.on[i] == phase,
        v.starts_at(phase, n) is None ==> forall|k: int|
            0 <= k < n ==> #[trigger] v.clip.on[k] != phase,
    decreases n,
{
    if n > 0 {
        start_found(v, phase, n - 1);
    }
}

/// A clip plays a chord on the tick where it begins, counted from the bar it
/// was started on and again every round of the loop, and none on other ticks;
/// it releases where a chord ends, a tick before the loop starts over at the
/// latest.
pub proof fn clips_play_on_their_ticks(v: Vamp, clk: u32, walk_roll: u16, keep_roll: u16)
    requires
        v.wf(),
        v.mode_auto,
        v.running,
        v.clip.active,
        v.clip.len > 0,
        !v.clip.armed,
        v.clip.origin <= clk,
        !v.pending.play,
        !v.pending.release,
    ensures
        ({
            let w = v.clocked(clk, walk_roll, keep_roll);
            let phase = (clk - v.clip.origin) % (96 * v.clip.bars);
            &&& w.pending.play <==> exists|i: int|
                0 <= i < v.clip.len && #[trigger] v.clip.on[i] == phase
            &&& w.pending.play ==> exists|i: int|
                0 <= i < v.clip.len && #[trigger] v.clip.on[i] == phase && w.pending.degree
                    == v.clip.deg[i] && w.degree == v.clip.deg[i]
            &&& w.pending.release <==> exists|i: int|
                0 <= i < v.clip.len && #[trigger] v.clip.dur[i] > 0 && (v.clip.on[i]
                    + v.clip.dur[i] == phase && phase < 96 * v.clip.bars || v.clip.on[i]
                    + v.clip.dur[i] >= 96 * v.clip.bars && phase == 96 * v.clip.bars - 1)
            &&& w.clip == v.clip
        }),
{
    let w = v.clocked(clk, walk_roll, keep_roll);
    let l = 96 * v.clip.bars as int;
    let since = clk - v.clip.origin;
    vstd::arithmetic::div_mod::lemma_small_mod(since as nat, 0x1_0000_0000);
    let phase = since % l;
    assert(0 <= phase < l) by (nonlinear_arith)
        requires
            phase == since % l,
            l > 0,
    ;
    start_found(v, phase, v.clip.len as int);
    if v.ends_at(phase, v.clip.len as int) {
        let i = choose|i: int|
            0 <= i < v.clip.len && #[trigger] v.clip.dur[i] > 0 && v.end_phase(i) == phase;
        assert(v.clip.dur[i] > 0);
    }
    if exists|i: int|
        0 <= i < v.clip.len && #[trigger] v.clip.dur[i] > 0 && (v.clip.on[i] + v.clip.dur[i]
            == phase && phase < 96 * v.clip.bars || v.clip.on[i] + v.clip.dur[i] >= 96 * v.clip.bars
            && phase == 96 * v.clip.bars - 1) {
        let i = choose|i: int|
            0 <= i < v.clip.len && #[trigger] v.clip.dur[i] > 0 && (v.clip.on[i] + v.clip.dur[i]
                == phase && phase < 96 * v.clip.bars || v.clip.on[i] + v.clip.dur[i] >= 96
                * v.clip.bars && phase == 96 * v.clip.bars - 1);
        assert(v.clip.dur[i] > 0 && v.end_phase(i) == phase);
    }
}

/// A clip that waits begins on the next bar, and only Auto that runs moves at
/// all.
pub proof fn clips_begin_on_a_bar(v: Vamp, clk: u32, walk_roll: u16, keep_roll: u16)
    requires
        v.clip.active,
        v.clip.len > 0,
        v.clip.armed,
    ensures
        ({
            let w = v.clocked(clk, walk_roll, keep_roll);
            &&& !v.mode_auto || !v.running ==> w == v
            &&& v.mode_auto && v.running && clk % 96 == 0 ==> w.clip.origin == clk && !w.clip.armed
            &&& clk % 96 != 0 ==> w == v
        }),
{
}

/// In Perform a held button sounds the selected chord, and letting go ends all
/// of it.
pub proof fn held_chords_sound(s: Sound, clk: u32)
    requires
        !s.vamp.mode_auto,
        !s.vamp.panic,
        !s.vamp.pending.play,
        !s.vamp.pending.release,
    ensures
        s.vamp.chord_held && s.notes.len() == 0 ==> {
            let t = s.stepped(clk);
            let c = chord(
                s.vamp.root as int,
                degrees(s.vamp.mask),
                s.vamp.degree as int,
                s.vamp.voicing as int,
            );
            &&& t.notes == c
            &&& t.acts.len() == s.acts.len() + c.len()
            &&& forall|i: int|
                0 <= i < c.len() ==> #[trigger] t.acts[s.acts.len() + i] == (Act::NoteOn {
                    out: 0,
                    note: c[i],
                    vel: s.vamp.vel,
                })
        },
        s.vamp.chord_held && s.notes.len() > 0 && s.degree == s.vamp.degree ==> s.stepped(clk).acts
            == s.acts && s.stepped(clk).notes == s.notes,
        !s.vamp.chord_held ==> {
            let t = s.stepped(clk);
            &&& t.notes.len() == 0
            &&& t.acts.len() == s.acts.len() + s.notes.len()
            &&& forall|i: int|
                0 <= i < s.notes.len() ==> #[trigger] t.acts[s.acts.len() + i] == (Act::NoteOff {
                    out: 0,
                    note: s.notes[i],
                })
        },
{
}

/// A genre keeps its place on the fader: the middle of its bucket lies in it.
pub proof fn genres_keep_their_bucket(index: int, picks: int)
    requires
        1 <= picks <= 9,
        0 <= index < picks,
    ensures
        index * 4095 <= picks * bucket_center(index, picks),
        picks * bucket_center(index, picks) <= (index + 1) * 4095,
{
    let p = picks;
    let c = bucket_center(index, picks);
    let x = (2 * index + 1) * 4095;
    assert(2 * p * c <= x < 2 * p * c + 2 * p) by (nonlinear_arith)
        requires
            c == x / (2 * p),
            p >= 1,
    ;
    assert(2 * p * c == 2 * (p * c)) by (nonlinear_arith);
    assert(2 * (picks * bucket_center(index, picks)) <= x);
}

/// A chord that begins is the newest of the ring, open until it ends; one that
/// was still held ends there, and no other chord changes.
pub proof fn chords_are_remembered(r: Ring, degree: u8, on: u32, i: int)
    requires
        r.wf(),
        0 <= i < 64,
    ensures
        ({
            let a = r.pushed(degree, on);
            let w = r.write as int;
            &&& a.deg[w] == degree && a.on[w] == on && a.off[w] == 0
            &&& a.open == Some(r.write)
            &&& i != w ==> a.deg[i] == r.deg[i] && a.on[i] == r.on[i]
            &&& i != w && r.open != Some(i as usize) ==> a.off[i] == r.off[i]
            &&& i != w && r.open == Some(i as usize) && r.off[i] == 0 && on > 0 ==> a.off[i] == on
            &&& a.write == w + 1 || (a.write == 0 && w == 63)
            &&& a.len == r.len + 1 || (a.len == 64 && r.len == 64)
        }),
{
}

/// Ending the held chord gives it a length of a tick or more and leaves the
/// other chords alone.
pub proof fn held_chords_end(r: Ring, off: u32, i: int)
    requires
        r.wf(),
        0 <= i < 64,
    ensures
        ({
            let a = r.closed_at(off);
            &&& a.open is None
            &&& a.deg == r.deg && a.on == r.on && a.write == r.write && a.len == r.len
            &&& r.open != Some(i as usize) ==> a.off[i] == r.off[i]
            &&& r.open == Some(i as usize) && off > r.on[i] ==> a.off[i] == off
            &&& r.open == Some(i as usize) && off <= r.on[i] < u32::MAX ==> a.off[i] == r.on[i] + 1
        }),
{
}

/// The ring is read from its oldest chord to its newest: the one that the next
/// chord will replace comes first once the ring is full.
pub proof fn rings_are_read_in_order(r: Ring, i: int)
    requires
        r.wf(),
        0 <= i < 63,
    ensures
        r.len < 64 ==> r.nth(i) == i,
        r.len == 64 ==> r.nth(0) == r.write,
        r.len == 64 ==> r.nth(i + 1) == r.nth(i) + 1 || (r.nth(i + 1) == 0 && r.nth(i) == 63),
{
}

/// Counter differences survive the counter's turning over.
pub proof fn differences_survive_the_turn(a: u32, d: int)
    requires
        0 <= d <= u32::MAX,
    ensures
        a + d <= u32::MAX ==> wrap_sub((a + d) as u32, a) == d,
        a + d > u32::MAX ==> wrap_sub((a + d - 0x1_0000_0000) as u32, a) == d,
{
}

/// A move of a genre is one that the genre allows from where it stands; where
/// it allows none it stays.
pub proof fn moves_are_allowed(from: int, table: [[u8; 7]; 7], roll: int)
    requires
        0 <= from < 7,
        0 <= roll < 4096,
    ensures
        weight_sum(table[from]@, 7) == 0 ==> markov_next(from, table, roll) == from,
        weight_sum(table[from]@, 7) > 0 ==> 0 <= markov_next(from, table, roll) < 7
            && table[from][markov_next(from, table, roll)] > 0,
{
    if weight_sum(table[from]@, 7) > 0 {
        rolls_are_shared_by_weight(table[from]@, roll);
    }
}

/// A chord of a step is let go after four fifths of it, within the step.
pub proof fn steps_are_held_for_four_fifths(v: Vamp)
    requires
        v.div >= 2,
    ensures
        0 <= 4 * v.div - 5 * v.release_tick() < 5,
        0 < v.release_tick() < v.div,
{
}

/// A short press in Auto turns playing into pausing and back; pausing lets the
/// chord go. What is stored is what runs.
pub proof fn presses_play_and_pause(v: Vamp)
    requires
        !v.long_press_fired,
    ensures
        v.toggled().running != v.running,
        v.toggled().toggled().running == v.running,
        v.toggled().store.auto_running == v.toggled().running,
        v.running ==> v.toggled().pending.release,
        v.toggled().pending.play == v.pending.play,
{
}

/// Every note that is started is ended by the acts that end its chord.
pub proof fn chords_end_note_by_note(v: Vamp, notes: Seq<u8>, i: int)
    requires
        0 <= i < notes.len(),
    ensures
        v.ons(notes).len() == notes.len(),
        Vamp::offs(notes).len() == notes.len(),
        v.ons(notes)[i] == (Act::NoteOn { out: 0, note: notes[i], vel: v.vel }),
        Vamp::offs(notes)[i] == (Act::NoteOff { out: 0, note: notes[i] }),
{
}

/// A chord that is played sounds alone: what sounded before is ended first.
pub proof fn chords_replace_each_other(s: Sound, degree: u8, record: bool, clk: u32)
    ensures
        ({
            let p = s.played(degree, record, clk);
            let notes = s.vamp.chord_of(degree);
            &&& p.notes == notes
            &&& p.degree == degree
            &&& p.acts.len() == s.acts.len() + s.notes.len() + notes.len()
            &&& forall|i: int|
                #![trigger s.notes[i]]
                0 <= i < s.notes.len() ==> p.acts[s.acts.len() + i] == (Act::NoteOff {
                    out: 0,
                    note: s.notes[i],
                })
            &&& !record ==> p.vamp.ring == s.vamp.ring
            &&& s.released().notes.len() == 0
        }),
{
}

/// A panic leaves nothing sounding, held or asked for, and tells the whole
/// channel; without one nothing changes.
pub proof fn panic_silences(s: Sound)
    ensures
        !s.vamp.panic ==> s.calmed() == s,
        s.vamp.panic ==> {
            let c = s.calmed();
            &&& c.notes.len() == 0
            &&& !c.vamp.panic && !c.vamp.chord_held
            &&& !c.vamp.pending.play && !c.vamp.pending.release
            &&& c.acts.len() == s.acts.len() + s.notes.len() + 2
            &&& c.acts[c.acts.len() - 2] == (Act::Cc { out: 0, cc: 120, val: 0 })
            &&& c.acts[c.acts.len() - 1] == (Act::Cc { out: 0, cc: 123, val: 0 })
        },
{
}

/// A capture with nothing to capture keeps the mode and the clip; any other
/// plays its clip at once, and what is stored is that clip.
pub proof fn captures_begin_to_play(v: Vamp, post: Vamp, clk: u32)
    requires
        v.captured_as(post, clk),
    ensures
        !post.chord_held,
        v.captured(clk).len() == 0 ==> post.mode_auto == v.mode_auto && post.clip == v.clip
            && post.running == v.running && post.genre == v.genre,
        v.captured(clk).len() > 0 ==> {
            &&& post.mode_auto && post.running
            &&& post.clip.active && post.clip.armed
            &&& post.clip.len == v.captured(clk).len()
            &&& post.store.clip_len == post.clip.len
            &&& post.store.clip_deg == post.clip.deg
            &&& post.store.clip_on == post.clip.on
            &&& post.store.clip_dur == post.clip.dur
            &&& post.slots == v.slots
        },
{
}

/// Leaving Auto lets the chord go and remembers whether it ran.
pub proof fn leaving_auto_remembers(v: Vamp)
    ensures
        !v.left_auto().mode_auto,
        !v.left_auto().store.mode_auto,
        v.left_auto().store.auto_running == v.running,
        v.left_auto().pending.release,
        !v.left_auto().chord_held,
        v.left_auto().clip == v.clip,
        v.left_auto().slots == v.slots,
{
}

} // verus!
