//! What the decaying looper promises of its playback: which voice plays, what
//! ends, and how a loop grows.

use crate::apps::loop_de_cay::{
    all_unused, any_due, blank, captured_level, cut_open, event_due, extent_with, fader_pitch,
    find_free, find_open, find_voice, first_sounding, free_voice, gated_by_button, gates_notes,
    grid_pos, has_cv_out, midi_vel, next_number, oldest_voice, placed, release_acts,
    semitones_of, started, tiles, voice_acts, voice_end, voice_for, voice_offs, voice_over,
    with_voice, LoopDeCay, NoteEvent, Voice,
};
use crate::apps::scale::Scale;
use crate::panel::{Act, LatchLayer};
use vstd::prelude::*;

verus! {

// ---------------------------------------------------------------------------
// Voices
// ---------------------------------------------------------------------------

proof fn found_voice(vs: Seq<Voice>, note: u8, n: int)
    requires
        0 <= n <= vs.len(),
    ensures
        match find_voice(vs, note, n) {
            Some(i) => 0 <= i < n && vs[i].note == note,
            None => forall|k: int| 0 <= k < n ==> (#[trigger] vs[k]).note != note,
        },
    decreases n,
{
    if n > 0 {
        found_voice(vs, note, n - 1);
    }
}

proof fn oldest_is_oldest(vs: Seq<Voice>, n: int)
    requires
        0 <= n <= vs.len(),
    ensures
        0 <= oldest_voice(vs, n).0 <= n,
        n > 0 ==> oldest_voice(vs, n).0 < n,
        forall|k: int| 0 <= k < n ==> oldest_voice(vs, n).1 <= (#[trigger] vs[k]).gen,
        n > 0 && oldest_voice(vs, n).1 < u32::MAX ==> vs[oldest_voice(vs, n).0].gen
            == oldest_voice(vs, n).1,
    decreases n,
{
    if n > 0 {
        oldest_is_oldest(vs, n - 1);
    }
}

/// A note goes to the voice that plays it already; else to a free voice; else
/// to the voice whose note came before all others.
pub proof fn voices_are_stolen_last(vs: Seq<Voice>, note: u8, k: int)
    requires
        vs.len() == 4,
        0 <= k < 4,
    ensures
        0 <= voice_for(vs, note) < 4,
        vs[k].note == note ==> vs[voice_for(vs, note)].note == note,
        vs[k].note == 0 ==> vs[voice_for(vs, note)].note == note || vs[voice_for(vs, note)].note
            == 0,
        (forall|j: int| 0 <= j < 4 ==> (#[trigger] vs[j]).note != note && vs[j].note != 0)
            ==> vs[voice_for(vs, note)].gen <= vs[k].gen,
{
    found_voice(vs, note, 4);
    found_voice(vs, 0, 4);
    oldest_is_oldest(vs, 4);
}

/// The voice that takes a note plays it, and what it played before is ended
/// first; the other voices go on as they are.
pub proof fn notes_take_one_voice(vs: Seq<Voice>, e: NoteEvent, window: int, k: int)
    requires
        vs.len() == 4,
        0 <= k < 4,
        window > 0,
        e.note != 0,
    ensures
        ({
            let v = voice_for(vs, e.note);
            let after = with_voice(vs, e, window);
            let acts = voice_acts(vs, e);
            &&& after.len() == 4
            &&& after[v].note == e.note
            &&& after[v].gen == e.gen
            &&& k != v ==> after[k] == vs[k]
            &&& acts.len() > 0
            &&& acts[acts.len() - 1] == Act::NoteOn { out: 0, note: e.note, vel: e.vel }
            &&& vs[v].note != 0 ==> acts.len() == 2 && acts[0] == Act::NoteOff {
                out: 0,
                note: vs[v].note,
            }
            &&& vs[v].note == 0 ==> acts.len() == 1
        }),
{
    found_voice(vs, e.note, 4);
    found_voice(vs, 0, 4);
    oldest_is_oldest(vs, 4);
}

/// A played note ends its length after its start, going round the loop.
pub proof fn voices_end_after_their_length(e: NoteEvent, window: int)
    requires
        window > 0,
        e.start + e.dur <= 65535,
    ensures
        0 <= voice_end(e, window) < window,
        (e.start + e.dur - voice_end(e, window)) % window == 0,
        e.start + e.dur < window ==> voice_end(e, window) == e.start + e.dur,
{
    let s = (e.start + e.dur) as int;
    vstd::arithmetic::div_mod::lemma_fundamental_div_mod(s, window);
    assert(s - s % window == window * (s / window));
    vstd::arithmetic::div_mod::lemma_mod_multiples_basic(s / window, window);
    assert(window * (s / window) == (s / window) * window) by (nonlinear_arith);
    if s < window {
        vstd::arithmetic::div_mod::lemma_small_mod(s as nat, window as nat);
    }
}

/// Silencing ends each note that sounds and sends nothing but note-offs.
pub proof fn silence_ends_every_note(vs: Seq<Voice>, n: int, k: int)
    requires
        0 <= n <= vs.len(),
    ensures
        0 <= k < n && vs[k].note != 0 ==> voice_offs(vs, n).contains(
            Act::NoteOff { out: 0, note: vs[k].note },
        ),
        0 <= k < voice_offs(vs, n).len() ==> (voice_offs(vs, n)[k] matches Act::NoteOff {
            out,
            note,
        } && out == 0 && note != 0),
        voice_offs(vs, n).len() <= n,
    decreases n,
{
    if n > 0 {
        silence_ends_every_note(vs, n - 1, k);
        let p = voice_offs(vs, n - 1);
        let r = voice_offs(vs, n);
        if 0 <= k < n && vs[k].note != 0 {
            let off = Act::NoteOff { out: 0, note: vs[k].note };
            if k == n - 1 {
                assert(r[p.len() as int] == off);
            } else {
                let j = choose|j: int| 0 <= j < p.len() && p[j] == off;
                assert(r[j] == off);
            }
        }
    }
}

/// Everything that sounds is ended by the messages of silence: the loop's
/// voices, the live note, and a voltage output goes to zero.
pub proof fn silence_covers_the_live_note(s: LoopDeCay, k: int)
    requires
        0 <= k < 4,
    ensures
        s.voices[k].note != 0 ==> s.silence_acts().contains(
            Act::NoteOff { out: 0, note: s.voices[k].note },
        ),
        s.live_note matches Some(n) ==> s.silence_acts().contains(Act::NoteOff { out: 0, note: n }),
        s.mode == 3 || s.mode == 4 ==> s.silence_acts().contains(Act::Cv { jack: 0, val: 0 }),
{
    silence_ends_every_note(s.voices@, 4, k);
    let a = voice_offs(s.voices@, 4);
    let t = s.silence_acts();
    if s.voices[k].note != 0 {
        let off = Act::NoteOff { out: 0, note: s.voices[k].note };
        let j = choose|j: int| 0 <= j < a.len() && a[j] == off;
        assert(t[j] == off);
    }
    if s.live_note is Some {
        assert(t[a.len() as int] == (Act::NoteOff { out: 0, note: s.live_note->Some_0 }));
    }
    if s.mode == 3 || s.mode == 4 {
        assert(t[t.len() - 1] == (Act::Cv { jack: 0, val: 0 }));
    }
}

/// In a tick just the voices whose end is passed are let go.
pub proof fn voices_are_let_go_at_their_end(
    vs: Seq<Voice>,
    n: int,
    prev: Option<u16>,
    pos: int,
    k: int,
)
    requires
        0 <= n <= vs.len(),
    ensures
        0 <= k < n && voice_over(vs[k], prev, pos) ==> release_acts(vs, n, prev, pos).contains(
            Act::NoteOff { out: 0, note: vs[k].note },
        ),
        (forall|j: int| 0 <= j < n ==> !voice_over(#[trigger] vs[j], prev, pos)) ==> release_acts(
            vs,
            n,
            prev,
            pos,
        ).len() == 0,
        0 <= k < n && vs[k].note != 0 && vs[k].end == pos ==> voice_over(vs[k], prev, pos),
        0 <= k < n && vs[k].note == 0 ==> !voice_over(vs[k], prev, pos),
    decreases n,
{
    if n > 0 {
        voices_are_let_go_at_their_end(vs, n - 1, prev, pos, k);
        let p = release_acts(vs, n - 1, prev, pos);
        let r = release_acts(vs, n, prev, pos);
        if 0 <= k < n && voice_over(vs[k], prev, pos) {
            let off = Act::NoteOff { out: 0, note: vs[k].note };
            if k == n - 1 {
                assert(r[p.len() as int] == off);
            } else {
                let j = choose|j: int| 0 <= j < p.len() && p[j] == off;
                assert(r[j] == off);
            }
        }
    }
}

/// The voltage follows the first voice that sounds.
pub proof fn first_voice_leads(vs: Seq<Voice>, n: int, k: int)
    requires
        0 <= k < n <= vs.len(),
        forall|j: int| 0 <= j < k ==> (#[trigger] vs[j]).note == 0,
    ensures
        vs[k].note != 0 ==> first_sounding(vs, n) == Some(vs[k].note),
        k == n - 1 && vs[k].note == 0 ==> first_sounding(vs, n) is None,
    decreases n,
{
    silent_prefix(vs, k);
    if k < n - 1 && vs[k].note != 0 {
        first_voice_leads(vs, n - 1, k);
    }
}

proof fn silent_prefix(vs: Seq<Voice>, n: int)
    requires
        0 <= n <= vs.len(),
        forall|j: int| 0 <= j < n ==> (#[trigger] vs[j]).note == 0,
    ensures
        first_sounding(vs, n) is None,
    decreases n,
{
    if n > 0 {
        silent_prefix(vs, n - 1);
    }
}

// ---------------------------------------------------------------------------
// The loop
// ---------------------------------------------------------------------------

/// A position is that of the sixteenth just begun: at most five ticks before
/// the tick, inside the loop.
pub proof fn notes_land_on_their_sixteenth(origin: u64, tick: int, bars: int)
    requires
        origin < u64::MAX,
        origin <= tick,
        1 <= bars <= 8,
    ensures
        ({
            let w = 96 * bars;
            let g = grid_pos(origin, tick, w);
            &&& 0 <= g < w
            &&& g % 6 == 0
            &&& 0 <= (tick - origin) % w - g < 6
        }),
{
    let w = 96 * bars;
    let p = (tick - origin) % w;
    assert(0 <= p < w) by (nonlinear_arith)
        requires
            p == (tick - origin) % w,
            w > 0,
    ;
    assert(0 <= p / 6 * 6 <= p);
    vstd::arithmetic::div_mod::lemma_small_mod((p / 6 * 6) as nat, w as nat);
}

/// The velocity of a MIDI note keeps its share of the scale, and is never so
/// low that decay has already ended it.
pub proof fn midi_velocities_survive(vel: int)
    requires
        0 <= vel <= 127,
    ensures
        96 < midi_vel(vel) <= 4095,
        midi_vel(vel) > 97 ==> 0 <= 4095 * vel - 127 * midi_vel(vel) < 127,
        vel < 127 ==> midi_vel(vel) <= midi_vel(vel + 1),
        midi_vel(127) == 4095,
{
}

/// A note played on the fader lies the fader's distance from the base.
pub proof fn fader_moves_from_the_base(fader: int, base: int, span: int)
    requires
        0 <= base,
        0 <= base + semitones_of(fader, span) <= 127,
    ensures
        fader_pitch(fader, base, span) - base == semitones_of(fader, span),
{
}

/// While a note is captured a fifth of the light is left, and never none.
pub proof fn capture_dims_the_light(level: int)
    requires
        0 <= level <= 255,
    ensures
        captured_level(level) >= 1,
        level >= 5 ==> 0 <= level - 5 * captured_level(level) < 5,
        level < 10 ==> captured_level(level) == 1,
{
}

/// Once a pitch is cut no note of it is held any more; a held one gets a
/// length, and nothing else changes.
pub proof fn cut_notes_have_a_length(ev: Seq<NoteEvent>, note: u8, i: int)
    requires
        0 <= i < ev.len(),
    ensures
        cut_open(ev, note).len() == ev.len(),
        ({
            let a = cut_open(ev, note)[i];
            &&& a.start == ev[i].start && a.note == ev[i].note && a.vel == ev[i].vel
            &&& a.gen == ev[i].gen && a.used == ev[i].used
            &&& a.used && a.note == note ==> a.dur != 65535
            &&& !ev[i].used || ev[i].note != note || ev[i].dur != 65535 ==> a.dur == ev[i].dur
        }),
{
}

/// The held note that is closed is one: in use, of the pitch, still open.
pub proof fn open_notes_are_found(ev: Seq<NoteEvent>, note: u8, n: int, k: int)
    requires
        0 <= k < n <= ev.len(),
    ensures
        match find_open(ev, note, n) {
            Some(i) => 0 <= i < n && ev[i].used && ev[i].note == note && ev[i].dur == 65535,
            None => !(ev[k].used && ev[k].note == note && ev[k].dur == 65535),
        },
    decreases n,
{
    if k < n - 1 {
        open_notes_are_found(ev, note, n - 1, k);
    } else if n > 1 {
        open_notes_are_found(ev, note, n - 1, n - 2);
    }
}

/// The extent of a loop takes in its window, what it held before and the new
/// note, up to eight bars.
pub proof fn extent_covers_the_note(extent: int, start: int, dur: int, window: int)
    requires
        0 <= extent <= 768,
        0 <= start,
        0 <= dur < 65535,
        start + dur <= 768,
        0 <= window <= 768,
    ensures
        extent_with(extent, start, dur, window) >= extent,
        extent_with(extent, start, dur, window) >= start + dur,
        extent_with(extent, start, dur, window) >= window,
        extent_with(extent, start, dur, window) <= 768,
        ({
            let r = extent_with(extent, start, dur, window);
            r == extent || r == start + dur || r == window
        }),
{
}

/// Growing repeats a note: copy after copy one old loop apart, of the same
/// pitch and velocity, none of them past the new end.
pub proof fn copies_repeat_the_note(
    e: NoteEvent,
    pos: int,
    step: int,
    new_w: int,
    gen: u32,
    k: int,
)
    requires
        0 < step,
        0 <= pos,
        0 <= new_w <= 768,
        0 <= k < tiles(e, pos, step, new_w, gen).len(),
    ensures
        ({
            let c = tiles(e, pos, step, new_w, gen)[k];
            &&& c.start == pos + e.start + k * step
            &&& c.start < new_w
            &&& c.note == e.note && c.vel == e.vel && c.used == e.used
            &&& c.dur <= e.dur
            &&& c.start + c.dur <= new_w
            &&& c.start + e.dur <= new_w ==> c.dur == e.dur
        }),
    decreases k,
{
    let t = tiles(e, pos, step, new_w, gen);
    let rest = tiles(
        e,
        pos + step,
        step,
        new_w,
        next_number(gen),
    );
    assert(t.len() == 1 + rest.len());
    if k > 0 {
        assert(t[k] == rest[k - 1]);
        copies_repeat_the_note(
            e,
            pos + step,
            step,
            new_w,
            next_number(gen),
            k - 1,
        );
        assert((k - 1) * step + step == k * step) by (nonlinear_arith);
    } else {
        assert(0 * step == 0) by (nonlinear_arith);
    }
}

proof fn free_slot_is_free(ev: Seq<NoteEvent>, n: int)
    requires
        0 <= n <= ev.len(),
    ensures
        find_free(ev, n) matches Some(i) ==> 0 <= i < n && !ev[i].used,
    decreases n,
{
    if n > 0 {
        free_slot_is_free(ev, n - 1);
    }
}

/// Copies only take free slots: whatever the loop holds stays.
pub proof fn copies_overwrite_nothing(
    ev: Seq<NoteEvent>,
    extras: Seq<NoteEvent>,
    n: int,
    i: int,
)
    requires
        ev.len() == 32,
        0 <= n <= extras.len(),
        0 <= i < 32,
    ensures
        placed(ev, extras, n).len() == 32,
        ev[i].used ==> placed(ev, extras, n)[i] == ev[i],
        placed(ev, extras, n)[i] == ev[i] || placed(ev, extras, n)[i].used,
    decreases n,
{
    if n > 0 {
        copies_overwrite_nothing(ev, extras, n - 1, i);
        free_slot_is_free(placed(ev, extras, n - 1), 32);
    }
}

/// The loop decays where it starts over, and only there; never while it is
/// muted or its decay is off.
pub proof fn loops_decay_when_they_start_over(s: LoopDeCay, pos: int, scale: Scale)
    requires
        s.store.muted || s.store.decay_saved == 0 || s.prev_pos is None || s.prev_pos->Some_0
            <= pos,
    ensures
        s.after_pass(pos, scale) == (s.buf.events@, s.rng, s.buf.extent, s.buf.origin),
{
}

/// A loop that has lost all its notes to decay is empty; any other keeps its
/// place.
pub proof fn dead_loops_are_empty(s: LoopDeCay, pos: int, scale: Scale)
    requires
        s.prev_pos is Some,
        s.prev_pos->Some_0 > pos,
        !s.store.muted,
        s.store.decay_saved != 0,
    ensures
        all_unused(s.after_pass(pos, scale).0) ==> s.after_pass(pos, scale).2 == 0
            && s.after_pass(pos, scale).3 == u64::MAX,
        !all_unused(s.after_pass(pos, scale).0) ==> s.after_pass(pos, scale).2 == s.buf.extent
            && s.after_pass(pos, scale).3 == s.buf.origin,
{
}

/// A long press first mutes; while muted it erases. Either way nothing sounds
/// on.
pub proof fn mute_comes_before_erase(s: LoopDeCay, post: LoopDeCay, acts: Seq<Act>, i: int)
    requires
        s.mutes_or_erases(post, acts),
        0 <= i < 32,
    ensures
        post.store.muted,
        post.live_note is None,
        !s.store.muted ==> post.buf == s.buf,
        s.store.muted ==> !post.buf.events[i].used,
        i < 4 ==> post.voices[i].note == 0,
{
    assert(s.store.muted ==> post.buf.events[i] == blank());
    if i < 4 {
        assert(post.voices[i] == free_voice());
    }
}

/// A short press with shift goes through the eight lengths in turn.
pub proof fn lengths_go_round(s: LoopDeCay)
    requires
        1 <= s.bars <= 8,
    ensures
        1 <= s.next_bars() <= 8,
        s.bars < 8 ==> s.next_bars() == s.bars + 1,
        s.bars == 8 ==> s.next_bars() == 1,
{
}

/// The button plays notes in the first and the last mode; the two modes with a
/// voltage output are the last two.
pub proof fn modes_differ(mode: int)
    ensures
        gates_notes(mode) <==> mode == 0 || mode == 4,
        gated_by_button(mode) <==> mode == 0 || mode == 4,
        has_cv_out(mode) <==> mode == 3 || mode == 4,
{
}

/// The fader is the decay while shift is held, the loop's own setting while
/// the button is, and the pitch otherwise or with both. Holding to play never
/// takes it off the pitch.
pub proof fn faders_have_layers(s: LoopDeCay)
    ensures
        s.layer_at(true, false) == LatchLayer::Alt,
        s.layer_at(false, false) == LatchLayer::Main,
        s.layer_at(true, true) == LatchLayer::Main,
        s.store.muted ==> s.layer_at(false, true) == LatchLayer::Third,
        !s.store.muted && (s.mode == 0 || s.mode == 4) ==> s.layer_at(false, true)
            == LatchLayer::Main,
        !s.store.muted && s.mode != 0 && s.mode != 4 ==> s.layer_at(false, true)
            == LatchLayer::Third,
{
}

/// A held note never moves before the fader does, and moves at most one
/// degree at a time.
pub proof fn glides_wait_for_the_fader(s: LoopDeCay, target: u8, scale: Scale)
    ensures
        !s.fader_moved ==> s.glide_to(target, scale) is None,
        s.live_note is None ==> s.glide_to(target, scale) is None,
        s.live_note == Some(target) ==> s.glide_to(target, scale) is None,
        s.glide_frames_left > 0 ==> s.glide_to(target, scale) is None,
        s.glide_frames_left > 0 && s.fader_moved && s.live_note is Some && s.live_note != Some(
            target,
        ) ==> s.glide_left(target, scale) == s.glide_frames_left - 1,
{
}

/// Every note of the loop that is due starts in the tick, and where none is
/// due nothing starts.
pub proof fn due_notes_start(
    vs: Seq<Voice>,
    ev: Seq<NoteEvent>,
    n: int,
    prev: Option<u16>,
    pos: int,
    window: int,
    k: int,
)
    requires
        0 <= n <= ev.len(),
    ensures
        0 <= k < n && event_due(ev[k], prev, pos) ==> started(vs, ev, n, prev, pos, window).1
            .contains(Act::NoteOn { out: 0, note: ev[k].note, vel: ev[k].vel }),
        0 <= k < n && event_due(ev[k], prev, pos) ==> any_due(ev, n, prev, pos),
        !any_due(ev, n, prev, pos) ==> started(vs, ev, n, prev, pos, window) == (
            vs,
            Seq::<Act>::empty(),
        ),
    decreases n,
{
    if n > 0 {
        due_notes_start(vs, ev, n - 1, prev, pos, window, k);
        let (v, a) = started(vs, ev, n - 1, prev, pos, window);
        let t = started(vs, ev, n, prev, pos, window).1;
        if 0 <= k < n && event_due(ev[k], prev, pos) {
            let on = Act::NoteOn { out: 0, note: ev[k].note, vel: ev[k].vel };
            if k == n - 1 {
                assert(t[t.len() - 1] == on);
            } else {
                let j = choose|j: int| 0 <= j < a.len() && a[j] == on;
                assert(t[j] == on);
            }
        }
        if !any_due(ev, n, prev, pos) {
            assert(!event_due(ev[n - 1], prev, pos));
            assert forall|i: int| 0 <= i < n - 1 implies !event_due(
                #[trigger] ev[i],
                prev,
                pos,
            ) by {
                assert(0 <= i < n);
            }
        }
    }
}

/// A note that is still held in the recording does not play back, nor does an
/// erased one; any other is due where the loop reaches its start.
pub proof fn finished_notes_play_back(e: NoteEvent, prev: Option<u16>)
    ensures
        !e.used ==> !event_due(e, prev, e.start as int),
        e.dur == 65535 ==> !event_due(e, prev, e.start as int),
        e.used && e.dur != 65535 ==> event_due(e, prev, e.start as int),
{
}

} // verus!
