//! Clocked additive overdub loop with level decay.
//!
//! Notes played over the loop are recorded on a grid of sixteenths and played
//! back on every pass; each pass they decay in the chosen way. A held button
//! plays, the fader glides through the scale; with shift the button cycles the
//! loop length, mutes and erases.

use crate::apps::led_spectrum::{
    fader_meters, paint_fader_meters, spectrum, spectrum_color, vivid, vivid_color,
};
use crate::apps::rng::{xorshift, xorshift32};
use crate::apps::scale::{
    degrees_on, one_step_toward, shift_degrees, snap_to_scale, snap_to_scale_toward, snapped,
    step_toward, Scale,
};
use crate::bounded::{
    loop_events, loop_events_at, loop_events_len, loop_events_new, loop_events_push, param_values,
    values_of,
};
use crate::panel::{
    push_all, abs_diff, clamp_int, dist, max_int, min_int, quot, reads_all, Act, Brightness, Color,
    LatchLayer, Led, MidiIn, MidiOut, ParamSlot, Range, Value, VoltPerOct,
};
use crate::tasks::clock::ClockEvent;
use vstd::array::spec_array_update;
use vstd::prelude::*;

verus! {

pub const CHANNELS: usize = 1;
pub const PARAMS: usize = 10;

pub const TICKS_PER_16TH: u64 = 6;
pub const TICKS_PER_BAR: u16 = 96;
pub const MAX_BARS: u8 = 8;
pub const MAX_BUFFER_TICKS: u16 = 768;
pub const KILL_FLOOR: u16 = 96;
pub const FADER_MOVE_THRESH: u16 = 48;
pub const GATE_THRESH: u16 = 406;
pub const DEFAULT_GATE_TICKS: u16 = 12;
pub const ARM_BLINK_MS: u64 = 400;
/// Playback or capture keeps the button dim for this many ticks.
pub const CAPTURE_FLASH_TICKS: u64 = 2;
pub const SHIFT_LONG_MS: u64 = 500;
/// Frames (1 ms) between the degrees of a glissando.
pub const GLISS_FRAMES: u16 = 35;

pub const DECAY_MODE_COUNT: usize = 7;
pub const DECAY_RANDOM: usize = 0;
pub const DECAY_PITCH_UP: usize = 1;
pub const DECAY_PITCH_DOWN: usize = 2;
pub const DECAY_VEL_ROOT: usize = 3;
pub const DECAY_PITCH_ROOT: usize = 4;
pub const DECAY_VEL: usize = 5;
pub const DECAY_GATE: usize = 6;
pub const DECAY_DEFAULT: usize = 3;

// ---------------------------------------------------------------------------
// Fader scales
// ---------------------------------------------------------------------------

pub open spec fn bars_of(v: int) -> int {
    v * 7 / 4095 + 1
}

pub fn bars_from_fader(v: u16) -> (r: u8)
    ensures
        r == bars_of(v as int),
        1 <= r,
        v <= 4095 ==> r <= 8,
{
    (v as u32 * 7 / 4095) as u8 + 1
}

pub open spec fn fader_of_bars(bars: int) -> int {
    (clamp_int(bars, 1, 8) - 1) * 4095 / 7
}

pub fn fader_from_bars(bars: u8) -> (r: u16)
    ensures
        r == fader_of_bars(bars as int),
        r <= 4095,
{
    let b: u32 = if bars < 1 {
        0
    } else if bars > MAX_BARS {
        7
    } else {
        bars as u32 - 1
    };
    (b * 4095 / 7) as u16
}

pub open spec fn decay_mode_of(v: int) -> int {
    min_int(v * 7 / 4096, 6)
}

pub fn decay_mode_from_fader(v: u16) -> (r: usize)
    ensures
        r == decay_mode_of(v as int),
        r < DECAY_MODE_COUNT,
{
    let m: u32 = v as u32 * 7 / 4096;
    if m < 6 {
        m as usize
    } else {
        6
    }
}

pub open spec fn fader_of_decay_mode(mode: int) -> int {
    (min_int(mode, 6) * 2 + 1) * 4096 / 14
}

pub fn fader_from_decay_mode(mode: usize) -> (r: u16)
    ensures
        r == fader_of_decay_mode(mode as int),
        r <= 4095,
{
    let i: u32 = if mode < 6 { mode as u32 } else { 6 };
    ((i * 2 + 1) * 4096 / 14) as u16
}

/// A stored loop length reads back as it was.
pub proof fn bars_round_trip(bars: int)
    requires
        1 <= bars <= 8,
    ensures
        bars_of(fader_of_bars(bars)) == bars,
{
}

/// A decay mode keeps its place on the fader.
pub proof fn decay_mode_round_trip(mode: int)
    requires
        0 <= mode < 7,
    ensures
        decay_mode_of(fader_of_decay_mode(mode)) == mode,
{
}

pub open spec fn steps_of(decay: int) -> int {
    max_int(decay * 4 / 4095, 1)
}

pub fn pitch_steps(decay_fader: u16) -> (r: u32)
    ensures
        r == steps_of(decay_fader as int),
{
    let n: u32 = decay_fader as u32 * 4 / 4095;
    if n < 1 {
        1
    } else {
        n
    }
}

pub open spec fn on_16th(pos: int) -> int {
    pos / 6 * 6
}

pub fn quantize_16th(pos: u16) -> (r: u16)
    ensures
        r == on_16th(pos as int),
        r <= pos,
{
    pos / 6 * 6
}

/// Every fader position times a span up to this fits its word.
pub const SPAN_LIMIT: i32 = 1_048_575;

/// How far a fader lies above the centre, in 4096ths of its travel. The last
/// position counts as the end of the travel.
pub open spec fn above_centre(fader: int) -> int {
    if fader == 4095 { 2048 } else { fader - 2048 }
}

/// Bipolar fader offset: bottom = -span/2, centre = 0, top = +span/2.
pub open spec fn semitones_of(fader: int, span: int) -> int {
    quot(above_centre(fader) * span, 4096)
}

pub fn fader_semitones(fader: u16, span: i32) -> (r: i32)
    requires
        i32::MIN <= above_centre(fader as int) * span <= i32::MAX,
    ensures
        r == semitones_of(fader as int, span as int),
        -600_000 <= r <= 600_000,
{
    let f: i32 = if fader == 4095 { 2048 } else { fader as i32 - 2048 };
    crate::panel::div_toward_zero(f * span, 4096)
}

/// The fader reaches half the span at both ends and nothing at the centre.
pub proof fn fader_reaches_half_the_span(span: int)
    ensures
        semitones_of(0, span) == -quot(span, 2),
        semitones_of(2048, span) == 0,
        semitones_of(4095, span) == quot(span, 2),
{
}

pub open spec fn fader_pitch(fader: int, base: int, span: int) -> int {
    clamp_int(base + semitones_of(fader, span), 0, 127)
}

pub fn pitch_from_fader(fader: u16, base: u8, span: i32) -> (r: u8)
    requires
        i32::MIN <= above_centre(fader as int) * span <= i32::MAX,
    ensures
        r == fader_pitch(fader as int, base as int, span as int),
        r <= 127,
{
    let n: i32 = base as i32 + fader_semitones(fader, span);
    if n < 0 {
        0
    } else if n > 127 {
        127
    } else {
        n as u8
    }
}

/// Pitch asked for, before it is snapped: with a jack the CV pitch and the
/// fader stack.
pub fn resolve_pitch(cv_pitch: Option<u8>, main: u16, base: u8, span: i32, scale: Scale) -> (r: u8)
    requires
        i32::MIN <= above_centre(main as int) * span <= i32::MAX,
    ensures
        r == snapped(
            match cv_pitch {
                Some(p) => clamp_int(base + p + semitones_of(main as int, span as int), 0, 127),
                None => fader_pitch(main as int, base as int, span as int),
            },
            scale,
            None,
        ),
        r <= 127,
{
    let raw: u8 = match cv_pitch {
        Some(p) => {
            let n: i32 = base as i32 + p as i32 + fader_semitones(main, span);
            if n < 0 {
                0
            } else if n > 127 {
                127
            } else {
                n as u8
            }
        },
        None => pitch_from_fader(main, base, span),
    };
    snap_to_scale(raw, scale)
}

// ---------------------------------------------------------------------------
// Random numbers
// ---------------------------------------------------------------------------

/// The generator never runs from zero.
pub open spec fn reseeded(s: u32) -> u32 {
    if s == 0 { 0xA5A5_5A5A } else { s }
}

/// State after a draw below `max`.
pub open spec fn drawn(s: u32, max: int) -> u32 {
    if max == 0 { s } else { xorshift(reseeded(s)) }
}

/// Number drawn below `max`.
pub open spec fn draw(s: u32, max: int) -> int {
    if max == 0 { 0 } else { drawn(s, max) as int % max }
}

pub fn rand_below(state: &mut u32, max: u32) -> (r: u32)
    ensures
        *final(state) == drawn(*old(state), max as int),
        r == draw(*old(state), max as int),
        max > 0 ==> r < max,
{
    if max == 0 {
        return 0;
    }
    if *state == 0 {
        *state = 0xA5A5_5A5A;
    }
    xorshift32(state) % max
}

// ---------------------------------------------------------------------------
// Loop buffer
// ---------------------------------------------------------------------------

/// A recorded note. An open note, still held, has the largest duration.
#[derive(Clone, Copy, Debug, PartialEq, Eq, Structural)]
pub struct NoteEvent {
    pub start: u16,
    pub dur: u16,
    pub note: u8,
    pub vel: u16,
    pub gen: u32,
    pub used: bool,
}

pub open spec fn blank() -> NoteEvent {
    NoteEvent { start: 0, dur: 0, note: 0, vel: 0, gen: 0, used: false }
}

#[derive(Clone, Copy, Debug, PartialEq, Eq)]
pub struct LoopBuf {
    pub events: [NoteEvent; 32],
    pub next_gen: u32,
    pub extent: u16,
    /// Tick of the loop's first position; `u64::MAX` while there is no loop.
    pub origin: u64,
}

pub open spec fn window_of(bars: int) -> int {
    min_int(max_int(bars, 1) * 96, 768)
}

pub open spec fn next_number(g: u32) -> u32 {
    if g == u32::MAX { 0 } else { (g + 1) as u32 }
}

fn bump(g: u32) -> (r: u32)
    ensures
        r == next_number(g),
{
    if g == u32::MAX {
        0
    } else {
        g + 1
    }
}

/// The event is the same note in the same sixteenth.
pub open spec fn same_slot(e: NoteEvent, note: u8, q: int) -> bool {
    e.used && e.note == note && e.start as int / 6 == q
}

/// First of the first `n` events in a slot.
pub open spec fn find_same(ev: Seq<NoteEvent>, note: u8, q: int, n: int) -> Option<int>
    decreases n,
{
    if n <= 0 {
        None
    } else {
        match find_same(ev, note, q, n - 1) {
            Some(i) => Some(i),
            None => if same_slot(ev[n - 1], note, q) { Some(n - 1) } else { None },
        }
    }
}

/// First unused of the first `n` events.
pub open spec fn find_free(ev: Seq<NoteEvent>, n: int) -> Option<int>
    decreases n,
{
    if n <= 0 {
        None
    } else {
        match find_free(ev, n - 1) {
            Some(i) => Some(i),
            None => if !ev[n - 1].used { Some(n - 1) } else { None },
        }
    }
}

/// The oldest of the first `n` events, and its number.
pub open spec fn find_oldest(ev: Seq<NoteEvent>, n: int) -> (int, u32)
    decreases n,
{
    if n <= 0 {
        (0, u32::MAX)
    } else {
        let (i, g) = find_oldest(ev, n - 1);
        if ev[n - 1].gen < g { (n - 1, ev[n - 1].gen) } else { (i, g) }
    }
}

/// First held note of a pitch among the first `n` events.
pub open spec fn find_open(ev: Seq<NoteEvent>, note: u8, n: int) -> Option<int>
    decreases n,
{
    if n <= 0 {
        None
    } else {
        match find_open(ev, note, n - 1) {
            Some(i) => Some(i),
            None => {
                let e = ev[n - 1];
                if e.used && e.note == note && e.dur == u16::MAX { Some(n - 1) } else { None }
            },
        }
    }
}

proof fn find_same_stays(ev: Seq<NoteEvent>, note: u8, q: int, k: int, n: int)
    requires
        0 <= k <= n,
        find_same(ev, note, q, k) is Some,
    ensures
        find_same(ev, note, q, n) == find_same(ev, note, q, k),
    decreases n - k,
{
    if k < n {
        assert(find_same(ev, note, q, k + 1) == find_same(ev, note, q, k));
        find_same_stays(ev, note, q, k + 1, n);
    }
}

proof fn find_free_stays(ev: Seq<NoteEvent>, k: int, n: int)
    requires
        0 <= k <= n,
        find_free(ev, k) is Some,
    ensures
        find_free(ev, n) == find_free(ev, k),
    decreases n - k,
{
    if k < n {
        assert(find_free(ev, k + 1) == find_free(ev, k));
        find_free_stays(ev, k + 1, n);
    }
}

proof fn find_open_stays(ev: Seq<NoteEvent>, note: u8, k: int, n: int)
    requires
        0 <= k <= n,
        find_open(ev, note, k) is Some,
    ensures
        find_open(ev, note, n) == find_open(ev, note, k),
    decreases n - k,
{
    if k < n {
        assert(find_open(ev, note, k + 1) == find_open(ev, note, k));
        find_open_stays(ev, note, k + 1, n);
    }
}

/// Slot for a new event: a free one, else the oldest.
pub open spec fn slot_for(ev: Seq<NoteEvent>) -> int {
    match find_free(ev, 32) {
        Some(i) => i,
        None => find_oldest(ev, 32).0,
    }
}

/// Extent of the loop once it holds an event.
pub open spec fn extent_with(extent: int, start: int, dur: int, window: int) -> int {
    let end = min_int(start + (if dur == 65535 { 1 } else { dur }), 65535);
    max_int(max_int(extent, min_int(end, 768)), min_int(window, 768))
}

impl LoopBuf {
    pub open spec fn is_empty_loop(self) -> bool {
        &&& forall|i: int| 0 <= i < 32 ==> #[trigger] self.events[i] == blank()
        &&& self.next_gen == 1
        &&& self.extent == 0
        &&& self.origin == u64::MAX
    }

    pub fn new() -> (r: Self)
        ensures
            r.is_empty_loop(),
    {
        LoopBuf {
            events: [NoteEvent { start: 0, dur: 0, note: 0, vel: 0, gen: 0, used: false }; 32],
            next_gen: 1,
            extent: 0,
            origin: u64::MAX,
        }
    }

    pub fn clear(&mut self)
        ensures
            final(self).is_empty_loop(),
    {
        *self = LoopBuf::new();
    }

    pub fn window_ticks(bars: u8) -> (r: u16)
        ensures
            r == window_of(bars as int),
            96 <= r <= 768,
    {
        let b: u16 = if bars < 1 { 1 } else { bars as u16 };
        if b > 8 {
            MAX_BUFFER_TICKS
        } else {
            b * TICKS_PER_BAR
        }
    }

    /// Loop position at a tick; `None` while nothing is recorded.
    pub open spec fn position(self, tick: int, bars: int) -> Option<u16> {
        if self.origin == u64::MAX || self.extent == 0 {
            None
        } else {
            Some((max_int(tick - self.origin, 0) % window_of(bars)) as u16)
        }
    }

    pub fn play_pos(&self, tick: u64, bars: u8) -> (r: Option<u16>)
        ensures
            r == self.position(tick as int, bars as int),
            r matches Some(p) ==> p < window_of(bars as int),
    {
        if self.origin == u64::MAX || self.extent == 0 {
            return None;
        }
        let wt: u64 = LoopBuf::window_ticks(bars) as u64;
        Some((tick.saturating_sub(self.origin) % wt) as u16)
    }

    /// The first note anchors the loop on its sixteenth.
    pub fn ensure_origin(&mut self, tick: u64)
        ensures
            *final(self) == (LoopBuf {
                origin: if old(self).origin == u64::MAX {
                    (tick - tick % 6) as u64
                } else {
                    old(self).origin
                },
                ..*old(self)
            }),
    {
        if self.origin == u64::MAX {
            self.origin = tick - (tick % TICKS_PER_16TH);
        }
    }

    /// The buffer after a note is recorded: a note that is there already in
    /// the same sixteenth is refreshed, otherwise it takes a slot.
    pub open spec fn with_note(self, start: int, dur: u16, note: u8, vel: u16, window: int) -> LoopBuf {
        let s = start % max_int(window, 1);
        let d = (if dur == 0 { 1 } else { dur }) as u16;
        let at = match find_same(self.events@, note, s / 6, 32) {
            Some(i) => i,
            None => slot_for(self.events@),
        };
        let e = match find_same(self.events@, note, s / 6, 32) {
            Some(i) => NoteEvent { vel, dur: d, gen: self.next_gen, ..self.events[i] },
            None => NoteEvent {
                used: true,
                start: s as u16,
                dur: d,
                note,
                vel,
                gen: self.next_gen,
            },
        };
        LoopBuf {
            events: spec_array_update(self.events, at, e),
            next_gen: next_number(self.next_gen),
            extent: extent_with(self.extent as int, s, dur as int, window) as u16,
            origin: self.origin,
        }
    }

    fn grow(&mut self, start: u16, dur: u16, window: u16)
        ensures
            *final(self) == (LoopBuf {
                extent: extent_with(
                    old(self).extent as int,
                    start as int,
                    dur as int,
                    window as int,
                ) as u16,
                ..*old(self)
            }),
    {
        let len: u16 = if dur == u16::MAX { 1 } else { dur };
        let end: u16 = start.saturating_add(len);
        let end: u16 = if end < MAX_BUFFER_TICKS { end } else { MAX_BUFFER_TICKS };
        let w: u16 = if window < MAX_BUFFER_TICKS { window } else { MAX_BUFFER_TICKS };
        if end > self.extent {
            self.extent = end;
        }
        if w > self.extent {
            self.extent = w;
        }
    }

    pub fn add_or_refresh(&mut self, start: u16, dur: u16, note: u8, vel: u16, window: u16)
        ensures
            *final(self) == old(self).with_note(start as int, dur, note, vel, window as int),
    {
        let ghost b0 = *self;
        let ghost ev = self.events@;
        let w: u16 = if window < 1 { 1 } else { window };
        let start: u16 = start % w;
        let start_q: u16 = start / 6;
        let d: u16 = if dur < 1 { 1 } else { dur };
        let gen: u32 = self.next_gen;
        let mut i: usize = 0;
        while i < 32
            invariant
                i <= 32,
                *self == b0,
                ev == b0.events@,
                start_q == start / 6,
                find_same(ev, note, start_q as int, i as int) is None,
            ensures
                *self == b0,
                i <= 32,
                i < 32 ==> find_same(ev, note, start_q as int, 32) == Some(i as int),
                i == 32 ==> find_same(ev, note, start_q as int, 32) is None,
            decreases 32 - i,
        {
            let e = self.events[i];
            if e.used && e.note == note && e.start / 6 == start_q {
                proof {
                    find_same_stays(ev, note, start_q as int, i + 1, 32);
                }
                break;
            }
            i = i + 1;
        }
        if i < 32 {
            let e = self.events[i];
            self.events[i] = NoteEvent { vel, dur: d, gen, ..e };
            self.next_gen = bump(gen);
            assert(self.events =~= spec_array_update(
                b0.events,
                i as int,
                NoteEvent { vel, dur: d, gen, ..ev[i as int] },
            ));
            self.grow(start, dur, window);
            return;
        }
        let mut slot: usize = 0;
        let mut oldest_gen: u32 = u32::MAX;
        let mut oldest: usize = 0;
        let mut free = false;
        let mut k: usize = 0;
        while k < 32
            invariant
                k <= 32,
                *self == b0,
                ev == b0.events@,
                free ==> find_free(ev, k as int) == Some(slot as int),
                !free ==> find_free(ev, k as int) is None,
                slot < 32,
                oldest < 32,
                (oldest as int, oldest_gen) == find_oldest(ev, k as int),
            decreases 32 - k,
        {
            let e = self.events[k];
            if !free && !e.used {
                free = true;
                slot = k;
            }
            if e.gen < oldest_gen {
                oldest_gen = e.gen;
                oldest = k;
            }
            k = k + 1;
        }
        if !free {
            slot = oldest;
        }
        assert(slot == slot_for(ev));
        self.events[slot] = NoteEvent { used: true, start, dur: d, note, vel, gen };
        self.next_gen = bump(gen);
        assert(self.events =~= spec_array_update(
            b0.events,
            slot as int,
            NoteEvent { used: true, start, dur: d, note, vel, gen },
        ));
        self.grow(start, dur, window);
    }

    /// Duration of a note from `start` to `end` in the window.
    pub open spec fn held_for(start: int, end: int, window: int) -> int {
        min_int(max_int(if end >= start { end - start } else { window - start + end }, 1), window)
    }

    /// A held note can be closed: it does not start behind a shortened window.
    pub open spec fn closable(self, note: u8, end_pos: int, window: int) -> bool {
        match find_open(self.events@, note, 32) {
            Some(i) => end_pos % max_int(window, 1) >= self.events[i].start
                || self.events[i].start <= window,
            None => true,
        }
    }

    /// The buffer after the first held note of a pitch is closed.
    pub open spec fn closed(self, note: u8, end_pos: int, window: int) -> LoopBuf {
        match find_open(self.events@, note, 32) {
            Some(i) => LoopBuf {
                events: spec_array_update(
                    self.events,
                    i,
                    NoteEvent {
                        dur: LoopBuf::held_for(
                            self.events[i].start as int,
                            end_pos % max_int(window, 1),
                            window,
                        ) as u16,
                        ..self.events[i]
                    },
                ),
                ..self
            },
            None => self,
        }
    }

    /// Whether a held note can be closed at a position.
    pub fn can_close(&self, note: u8, end_pos: u16, window: u16) -> (r: bool)
        ensures
            r == self.closable(note, end_pos as int, window as int),
    {
        let w: u16 = if window < 1 { 1 } else { window };
        let mut i: usize = 0;
        while i < 32
            invariant
                i <= 32,
                w == max_int(window as int, 1),
                find_open(self.events@, note, i as int) is None,
            decreases 32 - i,
        {
            let e = self.events[i];
            if e.used && e.note == note && e.dur == u16::MAX {
                proof {
                    find_open_stays(self.events@, note, i + 1, 32);
                }
                return end_pos % w >= e.start || e.start <= window;
            }
            i = i + 1;
        }
        true
    }

    pub fn finalize_open(&mut self, note: u8, end_pos: u16, window: u16)
        requires
            old(self).closable(note, end_pos as int, window as int),
        ensures
            *final(self) == old(self).closed(note, end_pos as int, window as int),
    {
        let ghost b0 = *self;
        let w: u16 = if window < 1 { 1 } else { window };
        let end: u16 = end_pos % w;
        let mut i: usize = 0;
        while i < 32
            invariant
                i <= 32,
                *self == b0,
                b0 == *old(self),
                w == max_int(window as int, 1),
                end == end_pos % w,
                end < w,
                b0.closable(note, end_pos as int, window as int),
                find_open(b0.events@, note, i as int) is None,
            decreases 32 - i,
        {
            let e = self.events[i];
            if e.used && e.note == note && e.dur == u16::MAX {
                proof {
                    find_open_stays(b0.events@, note, i + 1, 32);
                }
                let start: u16 = e.start;
                let len: u16 = if end >= start {
                    end - start
                } else {
                    window - start + end
                };
                let len: u16 = if len < 1 { 1 } else { len };
                let dur: u16 = if len < window { len } else { window };
                self.events[i] = NoteEvent { dur, ..e };
                assert(self.events =~= spec_array_update(
                    b0.events,
                    i as int,
                    NoteEvent { dur, ..b0.events[i as int] },
                ));
                return;
            }
            i = i + 1;
        }
    }
}

// ---------------------------------------------------------------------------
// Decay
// ---------------------------------------------------------------------------

/// What a pass takes away at a decay setting.
pub open spec fn decay_loss(decay: int) -> int {
    decay * 1638 / 4095
}

/// Share of the velocity, of 4095, that survives a loss.
pub open spec fn retained(loss: int) -> int {
    max_int(max_int(4095 - loss, 0), 2457)
}

/// Share of the distance to the root, of 4095, that a pass takes.
pub open spec fn pitch_pull(decay: int) -> int {
    max_int(max_int(decay * 2048 / 4095, 512), decay_loss(decay))
}

/// A note with its velocity reduced; too soft a note disappears.
pub open spec fn softened(e: NoteEvent, retain: int) -> NoteEvent {
    let v = e.vel * retain / 4095 % 65536;
    if v <= KILL_FLOOR {
        NoteEvent { used: false, vel: 0, ..e }
    } else {
        NoteEvent { vel: v as u16, ..e }
    }
}

pub fn apply_velocity_decay(e: &mut NoteEvent, retain: u32)
    requires
        old(e).vel * retain <= u32::MAX,
    ensures
        *final(e) == softened(*old(e), retain as int),
{
    assert(0 <= e.vel * retain) by (nonlinear_arith)
        requires
            0 <= e.vel,
            0 <= retain,
    ;
    let nv: u16 = (e.vel as u32 * retain / 4095 % 65536) as u16;
    if nv <= KILL_FLOOR {
        e.used = false;
        e.vel = 0;
    } else {
        e.vel = nv;
    }
}

/// A pitch drawn toward the root, by a semitone at least, and snapped.
pub open spec fn pulled_note(note: int, target: int, pull: int, scale: Scale) -> int {
    let d = dist(note, target);
    let by = max_int(d * pull / 4095, 1);
    if note == target {
        note
    } else if note > target {
        snapped(clamp_int(target + max_int(note - target - by, 0), 0, 127), scale, Some(target as u8))
    } else {
        snapped(clamp_int(target + min_int(note - target + by, 0), 0, 127), scale, Some(target as u8))
    }
}

pub fn pull_pitch_to_root(e: &mut NoteEvent, target: u8, pitch_loss: u32, scale: Scale)
    requires
        dist(old(e).note as int, target as int) * pitch_loss <= u32::MAX,
    ensures
        *final(e) == (NoteEvent {
            note: pulled_note(old(e).note as int, target as int, pitch_loss as int, scale) as u8,
            ..*old(e)
        }),
{
    let offset: i32 = e.note as i32 - target as i32;
    if offset == 0 {
        return;
    }
    let d: u32 = if offset > 0 { offset as u32 } else { (-offset) as u32 };
    assert(0 <= d * pitch_loss) by (nonlinear_arith)
        requires
            0 <= d,
            0 <= pitch_loss,
    ;
    let part: u32 = d * pitch_loss / 4095;
    let pull: i32 = if part < 1 { 1 } else { part as i32 };
    let rest: i32 = if offset > 0 {
        if offset - pull > 0 {
            offset - pull
        } else {
            0
        }
    } else {
        if offset + pull < 0 {
            offset + pull
        } else {
            0
        }
    };
    let c: i32 = target as i32 + rest;
    let chromatic: u8 = if c < 0 {
        0
    } else if c > 127 {
        127
    } else {
        c as u8
    };
    e.note = snap_to_scale_toward(chromatic, scale, Some(target));
}

/// One note after one pass, and the generator's state.
pub open spec fn decayed_note(
    e: NoteEvent,
    mode: int,
    decay: int,
    root: int,
    scale: Scale,
    rng: u32,
) -> (NoteEvent, u32) {
    let retain = retained(decay_loss(decay));
    let steps = steps_of(decay);
    let pulled = |x: NoteEvent|
        NoteEvent { note: pulled_note(x.note as int, root, pitch_pull(decay), scale) as u8, ..x };
    let shifted = |x: NoteEvent, n: int, up: bool|
        NoteEvent { note: snapped(degrees_on(x.note as int, n, up, scale), scale, None) as u8, ..x };
    if !e.used {
        (e, rng)
    } else if mode == 5 {
        (softened(e, retain), rng)
    } else if mode == 4 {
        (pulled(e), rng)
    } else if mode == 3 {
        let s = softened(e, retain);
        (if s.used { pulled(s) } else { s }, rng)
    } else if mode == 1 {
        (shifted(e, steps, true), rng)
    } else if mode == 2 {
        (shifted(e, steps, false), rng)
    } else if mode == 6 {
        let d = e.dur * retain / 4095;
        (
            if e.dur == u16::MAX {
                e
            } else {
                NoteEvent { dur: min_int(max_int(d, 6), e.dur as int) as u16, ..e }
            },
            rng,
        )
    } else {
        let n = draw(rng, steps + 1);
        let r1 = drawn(rng, steps + 1);
        let up = draw(r1, 2) == 1;
        let r2 = if n > 0 { drawn(r1, 2) } else { r1 };
        let m = if n > 0 { shifted(e, n, up) } else { e };
        let loss = draw(r2, decay_loss(decay) + 1);
        (softened(m, retained(loss)), drawn(r2, decay_loss(decay) + 1))
    }
}

/// The first `n` notes after one pass, and the generator's state.
pub open spec fn decayed_notes(
    ev: Seq<NoteEvent>,
    n: int,
    mode: int,
    decay: int,
    root: int,
    scale: Scale,
    rng: u32,
) -> (Seq<NoteEvent>, u32)
    decreases n,
{
    if n <= 0 {
        (Seq::empty(), rng)
    } else {
        let (p, r) = decayed_notes(ev, n - 1, mode, decay, root, scale, rng);
        let (e, r2) = decayed_note(ev[n - 1], mode, decay, root, scale, r);
        (p.push(e), r2)
    }
}

pub open spec fn all_unused(ev: Seq<NoteEvent>) -> bool {
    forall|i: int| 0 <= i < ev.len() ==> !(#[trigger] ev[i]).used
}

/// What a pass of decay multiplies fits.
proof fn decay_fits(vel: int, retain: int, note: int, root: int, loss: int)
    requires
        0 <= vel <= 65535,
        0 <= retain <= 4095,
        0 <= note <= 255,
        0 <= root <= 255,
        0 <= loss <= 40000,
    ensures
        0 <= vel * retain <= u32::MAX,
        0 <= dist(note, root) * loss <= u32::MAX,
{
    assert(0 <= vel * retain <= 65535 * 4095) by (nonlinear_arith)
        requires
            0 <= vel <= 65535,
            0 <= retain <= 4095,
    ;
    let d = dist(note, root);
    assert(0 <= d * loss <= 255 * 40000) by (nonlinear_arith)
        requires
            0 <= d <= 255,
            0 <= loss <= 40000,
    ;
}

fn decay_note(e: NoteEvent, mode: usize, decay: u16, root: u8, scale: Scale, rng: &mut u32) -> (r:
    NoteEvent)
    requires
        mode < 7,
    ensures
        (r, *final(rng)) == decayed_note(
            e,
            mode as int,
            decay as int,
            root as int,
            scale,
            *old(rng),
        ),
{
    let mut e = e;
    if !e.used {
        return e;
    }
    let loss: u32 = decay as u32 * 1638 / 4095;
    let kept: u32 = if loss < 4095 { 4095 - loss } else { 0 };
    let retain: u32 = if kept < 2457 { 2457 } else { kept };
    let half: u32 = decay as u32 * 2048 / 4095;
    let half: u32 = if half < 512 { 512 } else { half };
    let pitch_loss: u32 = if half < loss { loss } else { half };
    let steps: u32 = pitch_steps(decay);
    proof {
        decay_fits(e.vel as int, retain as int, e.note as int, root as int, pitch_loss as int);
    }
    if mode == DECAY_VEL {
        apply_velocity_decay(&mut e, retain);
    } else if mode == DECAY_PITCH_ROOT {
        pull_pitch_to_root(&mut e, root, pitch_loss, scale);
    } else if mode == DECAY_VEL_ROOT {
        apply_velocity_decay(&mut e, retain);
        if e.used {
            pull_pitch_to_root(&mut e, root, pitch_loss, scale);
        }
    } else if mode == DECAY_PITCH_UP {
        e.note = shift_degrees(e.note, steps, true, scale);
    } else if mode == DECAY_PITCH_DOWN {
        e.note = shift_degrees(e.note, steps, false, scale);
    } else if mode == DECAY_GATE {
        if e.dur != u16::MAX {
            assert(0 <= e.dur * retain <= 65535 * 4095) by (nonlinear_arith)
                requires
                    e.dur <= 65535,
                    retain <= 4095,
            ;
            let nd: u16 = (e.dur as u32 * retain / 4095) as u16;
            assert(nd == e.dur * retain / 4095);
            let nd: u16 = if nd < 6 { 6 } else { nd };
            if nd < e.dur {
                e.dur = nd;
            }
        }
    } else {
        // Random: scale pitch jitter, and the velocity only goes down.
        let n: u32 = rand_below(rng, steps + 1);
        if n > 0 {
            let up = rand_below(rng, 2) == 1;
            e.note = shift_degrees(e.note, n, up, scale);
        }
        let actual: u32 = rand_below(rng, loss + 1);
        let kept: u32 = if actual < 4095 { 4095 - actual } else { 0 };
        let retain: u32 = if kept < 2457 { 2457 } else { kept };
        proof {
            decay_fits(e.vel as int, retain as int, e.note as int, root as int, 0);
        }
        apply_velocity_decay(&mut e, retain);
    }
    e
}

impl LoopBuf {
    /// One pass of decay over all notes. A loop without notes is over.
    pub fn decay_all(
        &mut self,
        decay_fader: u16,
        mode: usize,
        base_note: u8,
        scale: Scale,
        rng: &mut u32,
    )
        ensures
            decay_fader == 0 ==> *final(self) == *old(self) && *final(rng) == *old(rng),
            decay_fader != 0 ==> {
                let root = snapped(base_note as int, scale, None);
                let (ev, r) = decayed_notes(
                    old(self).events@,
                    32,
                    min_int(mode as int, 6),
                    decay_fader as int,
                    root,
                    scale,
                    *old(rng),
                );
                &&& final(self).events@ == ev
                &&& *final(rng) == r
                &&& final(self).next_gen == old(self).next_gen
                &&& final(self).extent == if all_unused(ev) { 0 } else { old(self).extent }
                &&& final(self).origin == if all_unused(ev) { u64::MAX } else { old(self).origin }
            },
    {
        if decay_fader == 0 {
            return;
        }
        let ghost b0 = *self;
        let ghost r0 = *rng;
        let root: u8 = snap_to_scale(base_note, scale);
        let m: usize = if mode < DECAY_MODE_COUNT - 1 { mode } else { DECAY_MODE_COUNT - 1 };
        let mut i: usize = 0;
        let mut any = false;
        while i < 32
            invariant
                i <= 32,
                m < 7,
                m == min_int(mode as int, 6),
                self.next_gen == b0.next_gen,
                self.extent == b0.extent,
                self.origin == b0.origin,
                decayed_notes(
                    b0.events@,
                    i as int,
                    m as int,
                    decay_fader as int,
                    root as int,
                    scale,
                    r0,
                ) == (self.events@.subrange(0, i as int), *rng),
                forall|k: int| i <= k < 32 ==> #[trigger] self.events[k] == b0.events[k],
                any == !all_unused(self.events@.subrange(0, i as int)),
            decreases 32 - i,
        {
            let ghost before = self.events@;
            let e = decay_note(self.events[i], m, decay_fader, root, scale, rng);
            self.events[i] = e;
            assert(self.events@.subrange(0, i + 1) =~= before.subrange(0, i as int).push(e));
            proof {
                let now = self.events@.subrange(0, i + 1);
                let was = before.subrange(0, i as int);
                assert(now[i as int] == e);
                if !all_unused(was) {
                    let k = choose|k: int| 0 <= k < was.len() && (#[trigger] was[k]).used;
                    assert(now[k].used);
                }
                assert forall|k: int| 0 <= k < was.len() implies now[k] == was[k] by {}
                assert(all_unused(now) == (all_unused(was) && !e.used)) by {
                    if all_unused(was) && !e.used {
                        assert forall|k: int| 0 <= k < now.len() implies !(#[trigger] now[k]).used by {
                            if k < i {
                                assert(now[k] == was[k]);
                            }
                        }
                    }
                }
            }
            if e.used {
                any = true;
            }
            i = i + 1;
        }
        assert(self.events@.subrange(0, 32) =~= self.events@);
        if !any {
            self.extent = 0;
            self.origin = u64::MAX;
        }
    }
}

/// Decay only takes away: no note gets louder, longer or comes back.
pub proof fn decay_never_adds(
    e: NoteEvent,
    mode: int,
    decay: int,
    root: int,
    scale: Scale,
    rng: u32,
)
    requires
        0 <= mode < 7,
        0 <= decay <= 65535,
    ensures
        ({
            let d = decayed_note(e, mode, decay, root, scale, rng).0;
            &&& d.vel <= e.vel
            &&& d.dur <= e.dur
            &&& d.used ==> e.used
            &&& d.start == e.start
            &&& d.gen == e.gen
        }),
{
    assert forall|v: int, r: int| 0 <= v && 0 <= r <= 4095 implies #[trigger] (v * r) / 4095 <= v by {
        assert(v * r <= v * 4095) by (nonlinear_arith)
            requires
                0 <= v,
                0 <= r <= 4095,
        ;
    }
    let retain = retained(decay_loss(decay));
    assert(0 <= retain <= 4095);
    assert(e.vel * retain / 4095 <= e.vel);
    assert(e.dur * retain / 4095 <= e.dur);
    if e.used && mode == 0 {
        let steps = steps_of(decay);
        let n = draw(rng, steps + 1);
        let r1 = drawn(rng, steps + 1);
        let r2 = if n > 0 { drawn(r1, 2) } else { r1 };
        let loss = draw(r2, decay_loss(decay) + 1);
        assert(0 <= loss);
        let k = retained(loss);
        assert(0 <= k <= 4095);
        assert(e.vel * k / 4095 <= e.vel);
    }
}

// ---------------------------------------------------------------------------
// Loop length
// ---------------------------------------------------------------------------

/// Copies of a note every `step` ticks from `pos` up to the new window.
pub open spec fn tiles(e: NoteEvent, pos: int, step: int, new_w: int, gen: u32) -> Seq<NoteEvent>
    decreases max_int(new_w - pos, 0),
{
    let at = pos + e.start;
    if step <= 0 || pos >= new_w || at >= new_w {
        Seq::empty()
    } else {
        let ne = NoteEvent {
            start: at as u16,
            dur: if at + e.dur > new_w { (new_w - at) as u16 } else { e.dur },
            gen,
            ..e
        };
        seq![ne] + tiles(e, pos + step, step, new_w, next_number(gen))
    }
}

/// Number for the next event once the copies are made.
pub open spec fn tiles_gen(e: NoteEvent, pos: int, step: int, new_w: int, gen: u32) -> u32
    decreases max_int(new_w - pos, 0),
{
    if step <= 0 || pos >= new_w || pos + e.start >= new_w {
        gen
    } else {
        tiles_gen(e, pos + step, step, new_w, next_number(gen))
    }
}

/// A closed note inside the part that is repeated.
pub open spec fn is_tiled(e: NoteEvent, tile_end: int) -> bool {
    e.used && e.start < tile_end && e.dur != u16::MAX
}

/// Copies of the first `n` notes, and the number for the next event.
pub open spec fn all_tiles(
    ev: Seq<NoteEvent>,
    n: int,
    old_w: int,
    tile_end: int,
    new_w: int,
    gen: u32,
) -> (Seq<NoteEvent>, u32)
    decreases n,
{
    if n <= 0 {
        (Seq::empty(), gen)
    } else {
        let (p, g) = all_tiles(ev, n - 1, old_w, tile_end, new_w, gen);
        let e = ev[n - 1];
        if is_tiled(e, tile_end) {
            (
                p + tiles(e, old_w, tile_end, new_w, g),
                tiles_gen(e, old_w, tile_end, new_w, g),
            )
        } else {
            (p, g)
        }
    }
}

/// The first thirty-two.
pub open spec fn first32(s: Seq<NoteEvent>) -> Seq<NoteEvent> {
    if s.len() <= 32 { s } else { s.subrange(0, 32) }
}

/// Events once the first `n` extras have taken the free slots.
pub open spec fn placed(ev: Seq<NoteEvent>, extras: Seq<NoteEvent>, n: int) -> Seq<NoteEvent>
    decreases n,
{
    if n <= 0 {
        ev
    } else {
        let p = placed(ev, extras, n - 1);
        match find_free(p, 32) {
            Some(i) => p.update(i, NoteEvent { used: true, ..extras[n - 1] }),
            None => p,
        }
    }
}

impl LoopBuf {
    /// The loop is extended over ground that has never been recorded.
    pub open spec fn extends_virgin(self, old_bars: int, new_bars: int) -> bool {
        window_of(new_bars) > window_of(old_bars) && 0 < self.extent <= window_of(old_bars)
    }

    /// Change the loop length: a longer loop repeats what is there, unless the
    /// longer loop was recorded before; then that comes back.
    pub fn set_window_bars(&mut self, old_bars: u8, new_bars: u8)
        ensures
            !old(self).extends_virgin(old_bars as int, new_bars as int) ==> *final(self)
                == *old(self),
            old(self).extends_virgin(old_bars as int, new_bars as int) ==> {
                let (extras, gen) = all_tiles(
                    old(self).events@,
                    32,
                    window_of(old_bars as int),
                    old(self).extent as int,
                    window_of(new_bars as int),
                    old(self).next_gen,
                );
                let some = first32(extras);
                &&& final(self).events@ == placed(old(self).events@, some, some.len() as int)
                &&& final(self).next_gen == gen
                &&& final(self).extent == window_of(new_bars as int)
                &&& final(self).origin == old(self).origin
            },
    {
        let old_w: u16 = LoopBuf::window_ticks(old_bars);
        let new_w: u16 = LoopBuf::window_ticks(new_bars);
        if new_w <= old_w || self.extent == 0 || self.extent > old_w {
            return;
        }
        let ghost b0 = *self;
        let tile_end: u16 = self.extent;
        let mut extras = loop_events_new();
        let ghost mut made: Seq<NoteEvent> = Seq::empty();
        let mut i: usize = 0;
        while i < 32
            invariant
                i <= 32,
                0 < tile_end <= old_w < new_w <= 768,
                self.events == b0.events,
                self.extent == b0.extent,
                self.origin == b0.origin,
                all_tiles(
                    b0.events@,
                    i as int,
                    old_w as int,
                    tile_end as int,
                    new_w as int,
                    b0.next_gen,
                ) == (made, self.next_gen),
                loop_events(extras) == first32(made),
            decreases 32 - i,
        {
            let e = self.events[i];
            if e.used && e.start < tile_end && e.dur != u16::MAX {
                let ghost m0 = made;
                let ghost g0 = self.next_gen;
                let ghost all = m0 + tiles(e, old_w as int, tile_end as int, new_w as int, g0);
                let mut pos: u16 = old_w;
                while pos < new_w && pos + e.start < new_w
                    invariant
                        0 < tile_end <= old_w < new_w <= 768,
                        e.start < tile_end,
                        pos <= 1536,
                        self.events == b0.events,
                        self.extent == b0.extent,
                        self.origin == b0.origin,
                        made + tiles(
                            e,
                            pos as int,
                            tile_end as int,
                            new_w as int,
                            self.next_gen,
                        ) == all,
                        tiles_gen(
                            e,
                            pos as int,
                            tile_end as int,
                            new_w as int,
                            self.next_gen,
                        ) == tiles_gen(e, old_w as int, tile_end as int, new_w as int, g0),
                        loop_events(extras) == first32(made),
                    decreases 1536 - pos,
                {
                    let start: u16 = pos + e.start;
                    let dur: u16 = if e.dur > new_w - start { new_w - start } else { e.dur };
                    let gen: u32 = self.next_gen;
                    let ne = NoteEvent { start, dur, gen, ..e };
                    self.next_gen = bump(gen);
                    let ghost before = made;
                    loop_events_push(&mut extras, ne);
                    proof {
                        made = before.push(ne);
                        let rest = tiles(
                            e,
                            pos + tile_end,
                            tile_end as int,
                            new_w as int,
                            self.next_gen,
                        );
                        assert(tiles(e, pos as int, tile_end as int, new_w as int, gen)
                            =~= seq![ne] + rest);
                        assert(made + rest =~= before + (seq![ne] + rest));
                        assert(loop_events(extras) =~= first32(made));
                    }
                    pos = pos + tile_end;
                }
                assert(tiles(e, pos as int, tile_end as int, new_w as int, self.next_gen)
                    =~= Seq::empty());
                assert(made =~= all);
            }
            i = i + 1;
        }
        let ghost some = first32(made);
        let n: usize = loop_events_len(&extras);
        let mut k: usize = 0;
        while k < n
            invariant
                k <= n <= 32,
                n == some.len(),
                loop_events(extras) == some,
                self.events@ == placed(b0.events@, some, k as int),
                self.extent == b0.extent,
                self.origin == b0.origin,
                all_tiles(
                    b0.events@,
                    32,
                    old_w as int,
                    tile_end as int,
                    new_w as int,
                    b0.next_gen,
                ) == (made, self.next_gen),
            decreases n - k,
        {
            let ne = loop_events_at(&extras, k);
            let ghost p = self.events@;
            let mut j: usize = 0;
            while j < 32
                invariant
                    j <= 32,
                    self.events@ == p,
                    self.extent == b0.extent,
                    self.origin == b0.origin,
                    find_free(p, j as int) is None,
                    all_tiles(
                        b0.events@,
                        32,
                        old_w as int,
                        tile_end as int,
                        new_w as int,
                        b0.next_gen,
                    ) == (made, self.next_gen),
                ensures
                    j <= 32,
                    j < 32 ==> find_free(p, 32) == Some(j as int),
                    j == 32 ==> find_free(p, 32) is None,
                    self.events@ == p,
                    self.extent == b0.extent,
                    self.origin == b0.origin,
                    all_tiles(
                        b0.events@,
                        32,
                        old_w as int,
                        tile_end as int,
                        new_w as int,
                        b0.next_gen,
                    ) == (made, self.next_gen),
                decreases 32 - j,
            {
                if !self.events[j].used {
                    proof {
                        find_free_stays(p, j + 1, 32);
                    }
                    break;
                }
                j = j + 1;
            }
            if j < 32 {
                self.events[j] = NoteEvent { used: true, ..ne };
                assert(self.events@ =~= p.update(j as int, NoteEvent { used: true, ..ne }));
            }
            k = k + 1;
        }
        self.extent = new_w;
    }
}

// ---------------------------------------------------------------------------
// Playback positions
// ---------------------------------------------------------------------------

/// The loop advanced across `target`: it lies after the previous position and
/// not after the new one, going round the end of the loop.
pub open spec fn passes(prev: Option<u16>, pos: int, target: int) -> bool {
    match prev {
        Some(pp) => if pp < pos {
            pp < target <= pos
        } else if pp > pos {
            target > pp || target <= pos
        } else {
            target == pos
        },
        None => target == pos,
    }
}

/// Did the loop just advance across `target`? Ticks can be skipped, so the
/// whole span since the last tick counts.
pub fn crossed(prev: Option<u16>, pos: u16, target: u16) -> (r: bool)
    ensures
        r == passes(prev, pos as int, target as int),
{
    match prev {
        Some(pp) => {
            if pp < pos {
                target > pp && target <= pos
            } else if pp > pos {
                target > pp || target <= pos
            } else {
                target == pos
            }
        },
        None => target == pos,
    }
}

/// How far a position lies ahead of another on the way round the loop.
pub open spec fn ahead(from: int, to: int, window: int) -> int {
    (to - from) % window
}

/// Skipped ticks lose nothing, the end of the loop included: two consecutive
/// advances of less than one round pass exactly the positions that one advance
/// over both passes, each once.
pub proof fn no_position_is_skipped(a: u16, b: u16, c: u16, target: int, window: int)
    requires
        0 <= a < window,
        0 <= b < window,
        0 <= c < window,
        0 <= target < window,
        0 < ahead(a as int, b as int, window),
        0 < ahead(b as int, c as int, window),
        ahead(a as int, b as int, window) + ahead(b as int, c as int, window) < window,
    ensures
        passes(Some(a), c as int, target) == (passes(Some(a), b as int, target) || passes(
            Some(b),
            c as int,
            target,
        )),
        !(passes(Some(a), b as int, target) && passes(Some(b), c as int, target)),
{
    ahead_is_distance(a as int, b as int, window);
    ahead_is_distance(b as int, c as int, window);
}

/// An advance passes as many positions as it goes ahead: those that lie ahead
/// of its start and not ahead of its end.
pub proof fn advances_pass_what_lies_ahead(a: u16, b: u16, target: int, window: int)
    requires
        0 <= a < window,
        0 <= b < window,
        0 <= target < window,
        a != b,
    ensures
        passes(Some(a), b as int, target) <==> 0 < ahead(a as int, target, window) <= ahead(
            a as int,
            b as int,
            window,
        ),
{
    ahead_is_distance(a as int, b as int, window);
    ahead_is_distance(a as int, target, window);
}

proof fn ahead_is_distance(from: int, to: int, window: int)
    requires
        0 <= from < window,
        0 <= to < window,
    ensures
        ahead(from, to, window) == if to >= from { to - from } else { to - from + window },
{
    if to >= from {
        vstd::arithmetic::div_mod::lemma_small_mod((to - from) as nat, window as nat);
    } else {
        vstd::arithmetic::div_mod::lemma_fundamental_div_mod_converse(
            to - from,
            window,
            -1,
            to - from + window,
        );
    }
}

/// Recording a note twice in one sixteenth refreshes it: with one note per
/// pitch and sixteenth before, there is one per pitch and sixteenth after.
pub proof fn recording_keeps_slots_unique(
    b: LoopBuf,
    start: u16,
    dur: u16,
    note: u8,
    vel: u16,
    window: u16,
    i: int,
    j: int,
)
    requires
        0 <= i < j < 32,
        forall|x: int, y: int|
            0 <= x < y < 32 && (#[trigger] b.events[x]).used && (#[trigger] b.events[y]).used ==> !(
            b.events[x].note == b.events[y].note && b.events[x].start / 6 == b.events[y].start / 6),
    ensures
        ({
            let a = b.with_note(start as int, dur, note, vel, window as int).events;
            a[i].used && a[j].used ==> !(a[i].note == a[j].note && a[i].start / 6 == a[j].start / 6)
        }),
{
    let w = max_int(window as int, 1);
    let s = start as int % w;
    let ev = b.events@;
    assert(0 <= s < w) by (nonlinear_arith)
        requires
            s == start as int % w,
            w > 0,
    ;
    find_same_sound(ev, note, s / 6, 32);
    slot_in_range(ev);
    assert(b.events[i] == ev[i] && b.events[j] == ev[j]);
}

proof fn find_same_sound(ev: Seq<NoteEvent>, note: u8, q: int, n: int)
    requires
        0 <= n <= ev.len(),
    ensures
        find_same(ev, note, q, n) matches Some(i) ==> 0 <= i < n && same_slot(ev[i], note, q),
        find_same(ev, note, q, n) is None ==> forall|k: int|
            0 <= k < n ==> !same_slot(#[trigger] ev[k], note, q),
    decreases n,
{
    if n > 0 {
        find_same_sound(ev, note, q, n - 1);
    }
}

proof fn slot_in_range(ev: Seq<NoteEvent>)
    requires
        ev.len() == 32,
    ensures
        0 <= slot_for(ev) < 32,
{
    free_in_range(ev, 32);
    oldest_in_range(ev, 32);
}

proof fn free_in_range(ev: Seq<NoteEvent>, n: int)
    requires
        0 <= n <= 32,
    ensures
        find_free(ev, n) matches Some(i) ==> 0 <= i < n,
    decreases n,
{
    if n > 0 {
        free_in_range(ev, n - 1);
    }
}

proof fn oldest_in_range(ev: Seq<NoteEvent>, n: int)
    requires
        0 <= n <= 32,
    ensures
        0 <= find_oldest(ev, n).0 < 32,
    decreases n,
{
    if n > 0 {
        oldest_in_range(ev, n - 1);
    }
}

// ---------------------------------------------------------------------------
// Parameters and settings
// ---------------------------------------------------------------------------

#[derive(Clone, Copy, Debug, PartialEq, Eq, Structural)]
pub struct Params {
    pub mode: usize,
    pub midi_channel: u8,
    pub midi_in: MidiIn,
    pub midi_out: MidiOut,
    pub midi_note: u8,
    pub span: i32,
    pub color: Color,
    pub range: Range,
    pub vpo: VoltPerOct,
    pub decay_mode: usize,
}

impl Params {
    pub open spec fn valid(self) -> bool {
        self.mode <= 4 && self.decay_mode < DECAY_MODE_COUNT
    }

    pub open spec fn values(self) -> Seq<Value> {
        seq![
            Value::Enum(self.mode),
            Value::MidiChannel(self.midi_channel),
            Value::MidiIn(self.midi_in),
            Value::MidiOut(self.midi_out),
            Value::MidiNote(self.midi_note),
            Value::I32(self.span),
            Value::Color(self.color),
            Value::Range(self.range),
            Value::VoltPerOct(self.vpo),
            Value::Enum(self.decay_mode),
        ]
    }

    /// Parameters in a list of slots. A list of nine has no decay mode yet.
    pub open spec fn from_slots(s: Seq<ParamSlot>) -> Option<Params> {
        if s.len() < 9 {
            None
        } else {
            Some(
                Params {
                    mode: min_int(s[0].as_index as int, 4) as usize,
                    midi_channel: s[1].as_channel,
                    midi_in: s[2].as_midi_in,
                    midi_out: s[3].as_midi_out,
                    midi_note: s[4].as_note,
                    span: s[5].as_int,
                    color: s[6].as_color,
                    range: s[7].as_range,
                    vpo: s[8].as_vpo,
                    decay_mode: if s.len() > 9 {
                        min_int(s[9].as_index as int, 6) as usize
                    } else {
                        DECAY_DEFAULT
                    },
                },
            )
        }
    }

    pub fn from_values(values: &[ParamSlot]) -> (r: Option<Params>)
        ensures
            r == Params::from_slots(values@),
            r matches Some(p) ==> p.valid(),
    {
        if values.len() < 9 {
            return None;
        }
        let m: usize = values[0].as_index;
        let decay_mode: usize = if values.len() > 9 {
            let d: usize = values[9].as_index;
            if d < 6 {
                d
            } else {
                6
            }
        } else {
            DECAY_DEFAULT
        };
        Some(
            Params {
                mode: if m < 4 { m } else { 4 },
                midi_channel: values[1].as_channel,
                midi_in: values[2].as_midi_in,
                midi_out: values[3].as_midi_out,
                midi_note: values[4].as_note,
                span: values[5].as_int,
                color: values[6].as_color,
                range: values[7].as_range,
                vpo: values[8].as_vpo,
                decay_mode,
            },
        )
    }

    pub fn to_values(&self) -> (v: heapless::Vec<Value, 16>)
        ensures
            param_values(v) == self.values(),
    {
        let items: [Value; 10] = [
            Value::Enum(self.mode),
            Value::MidiChannel(self.midi_channel),
            Value::MidiIn(self.midi_in),
            Value::MidiOut(self.midi_out),
            Value::MidiNote(self.midi_note),
            Value::I32(self.span),
            Value::Color(self.color),
            Value::Range(self.range),
            Value::VoltPerOct(self.vpo),
            Value::Enum(self.decay_mode),
        ];
        assert(items@ =~= self.values());
        values_of(&items)
    }
}

/// Stored parameters read back as they were.
pub proof fn params_round_trip(p: Params, slots: Seq<ParamSlot>)
    requires
        p.valid(),
        reads_all(slots, p.values()),
    ensures
        Params::from_slots(slots) == Some(p),
{
    assert(slots.len() == 10);
    assert forall|i: int| 0 <= i < 10 implies crate::panel::reads(#[trigger] slots[i], p.values()[i]) by {}
    let (s0, s1, s2, s3, s4) = (slots[0], slots[1], slots[2], slots[3], slots[4]);
    let (s5, s6, s7, s8, s9) = (slots[5], slots[6], slots[7], slots[8], slots[9]);
}

#[derive(Clone, Copy, Debug, PartialEq, Eq, Structural)]
pub struct Storage {
    pub main_saved: u16,
    pub decay_saved: u16,
    pub bars_saved: u16,
    pub muted: bool,
    pub armed: bool,
}

impl Default for Storage {
    fn default() -> (r: Self)
        ensures
            r == (Storage {
                main_saved: 2048,
                decay_saved: 0,
                bars_saved: 0,
                muted: false,
                armed: true,
            }),
    {
        Storage { main_saved: 2048, decay_saved: 0, bars_saved: 0, muted: false, armed: true }
    }
}

// ---------------------------------------------------------------------------
// Voices
// ---------------------------------------------------------------------------

/// A sounding playback note: note 0 marks a free voice.
#[derive(Clone, Copy, Debug, PartialEq, Eq, Structural)]
pub struct Voice {
    pub note: u8,
    pub end: u16,
    pub gen: u32,
}

pub open spec fn free_voice() -> Voice {
    Voice { note: 0, end: 0, gen: 0 }
}

/// First of the first `n` voices with a note.
pub open spec fn find_voice(vs: Seq<Voice>, note: u8, n: int) -> Option<int>
    decreases n,
{
    if n <= 0 {
        None
    } else {
        match find_voice(vs, note, n - 1) {
            Some(i) => Some(i),
            None => if vs[n - 1].note == note { Some(n - 1) } else { None },
        }
    }
}

pub open spec fn oldest_voice(vs: Seq<Voice>, n: int) -> (int, u32)
    decreases n,
{
    if n <= 0 {
        (0, u32::MAX)
    } else {
        let (i, g) = oldest_voice(vs, n - 1);
        if vs[n - 1].gen < g { (n - 1, vs[n - 1].gen) } else { (i, g) }
    }
}

/// Voice that plays a note: the one that plays it already, a free one, or the
/// oldest.
pub open spec fn voice_for(vs: Seq<Voice>, note: u8) -> int {
    match find_voice(vs, note, 4) {
        Some(i) => i,
        None => match find_voice(vs, 0, 4) {
            Some(i) => i,
            None => oldest_voice(vs, 4).0,
        },
    }
}

pub open spec fn voice_end(e: NoteEvent, window: int) -> int {
    min_int(e.start + e.dur, 65535) % max_int(window, 1)
}

pub open spec fn with_voice(vs: Seq<Voice>, e: NoteEvent, window: int) -> Seq<Voice> {
    vs.update(
        voice_for(vs, e.note),
        Voice { note: e.note, end: voice_end(e, window) as u16, gen: e.gen },
    )
}

/// Messages that let a voice play a note: what it played before ends.
pub open spec fn voice_acts(vs: Seq<Voice>, e: NoteEvent) -> Seq<Act> {
    let on = seq![Act::NoteOn { out: 0, note: e.note, vel: e.vel }];
    if find_voice(vs, e.note, 4) is None && find_voice(vs, 0, 4) is Some {
        on
    } else {
        seq![Act::NoteOff { out: 0, note: vs[voice_for(vs, e.note)].note }] + on
    }
}

/// Note-offs of the first `n` voices that sound.
pub open spec fn voice_offs(vs: Seq<Voice>, n: int) -> Seq<Act>
    decreases n,
{
    if n <= 0 {
        Seq::empty()
    } else {
        let p = voice_offs(vs, n - 1);
        if vs[n - 1].note > 0 { p.push(Act::NoteOff { out: 0, note: vs[n - 1].note }) } else { p }
    }
}

/// The note of a loop event is due.
pub open spec fn event_due(e: NoteEvent, prev: Option<u16>, pos: int) -> bool {
    e.used && e.dur != u16::MAX && passes(prev, pos, e.start as int)
}

/// Voices and messages once the due notes among the first `n` have started.
pub open spec fn started(
    vs: Seq<Voice>,
    ev: Seq<NoteEvent>,
    n: int,
    prev: Option<u16>,
    pos: int,
    window: int,
) -> (Seq<Voice>, Seq<Act>)
    decreases n,
{
    if n <= 0 {
        (vs, Seq::empty())
    } else {
        let (v, a) = started(vs, ev, n - 1, prev, pos, window);
        if event_due(ev[n - 1], prev, pos) {
            (with_voice(v, ev[n - 1], window), a + voice_acts(v, ev[n - 1]))
        } else {
            (v, a)
        }
    }
}

/// Some note among the first `n` is due.
pub open spec fn any_due(ev: Seq<NoteEvent>, n: int, prev: Option<u16>, pos: int) -> bool {
    exists|i: int| 0 <= i < n && event_due(#[trigger] ev[i], prev, pos)
}

pub open spec fn voice_over(v: Voice, prev: Option<u16>, pos: int) -> bool {
    v.note != 0 && passes(prev, pos, v.end as int)
}

/// Voices once those that are over are free.
pub open spec fn released(vs: Seq<Voice>, prev: Option<u16>, pos: int) -> Seq<Voice> {
    Seq::new(vs.len(), |i: int| if voice_over(vs[i], prev, pos) { free_voice() } else { vs[i] })
}

pub open spec fn release_acts(vs: Seq<Voice>, n: int, prev: Option<u16>, pos: int) -> Seq<Act>
    decreases n,
{
    if n <= 0 {
        Seq::empty()
    } else {
        let p = release_acts(vs, n - 1, prev, pos);
        if voice_over(vs[n - 1], prev, pos) {
            p.push(Act::NoteOff { out: 0, note: vs[n - 1].note })
        } else {
            p
        }
    }
}

proof fn find_voice_stays(vs: Seq<Voice>, note: u8, k: int, n: int)
    requires
        0 <= k <= n,
        find_voice(vs, note, k) is Some,
    ensures
        find_voice(vs, note, n) == find_voice(vs, note, k),
    decreases n - k,
{
    if k < n {
        assert(find_voice(vs, note, k + 1) == find_voice(vs, note, k));
        find_voice_stays(vs, note, k + 1, n);
    }
}

fn seek_voice(vs: &[Voice; 4], note: u8) -> (r: Option<usize>)
    ensures
        r is Some <==> find_voice(vs@, note, 4) is Some,
        r matches Some(i) ==> i < 4 && find_voice(vs@, note, 4) == Some(i as int) && vs[i as int].note
            == note,
{
    let mut i: usize = 0;
    while i < 4
        invariant
            i <= 4,
            find_voice(vs@, note, i as int) is None,
        decreases 4 - i,
    {
        if vs[i].note == note {
            proof {
                find_voice_stays(vs@, note, i + 1, 4);
            }
            return Some(i);
        }
        i = i + 1;
    }
    None
}

/// Plays a loop event on a voice.
pub fn alloc_voice(vs: &mut [Voice; 4], e: NoteEvent, window: u16) -> (acts: Vec<Act>)
    ensures
        final(vs)@ == with_voice(old(vs)@, e, window as int),
        acts@ == voice_acts(old(vs)@, e),
{
    let ghost v0 = vs@;
    let mut acts: Vec<Act> = Vec::new();
    let w: u16 = if window < 1 { 1 } else { window };
    let end: u16 = e.start.saturating_add(e.dur) % w;
    let at: usize = match seek_voice(vs, e.note) {
        Some(i) => {
            acts.push(Act::NoteOff { out: 0, note: e.note });
            i
        },
        None => match seek_voice(vs, 0) {
            Some(i) => i,
            None => {
                let mut oldest: usize = 0;
                let mut gen: u32 = u32::MAX;
                let mut i: usize = 0;
                while i < 4
                    invariant
                        i <= 4,
                        oldest < 4,
                        vs@ == v0,
                        (oldest as int, gen) == oldest_voice(v0, i as int),
                    decreases 4 - i,
                {
                    if vs[i].gen < gen {
                        gen = vs[i].gen;
                        oldest = i;
                    }
                    i = i + 1;
                }
                acts.push(Act::NoteOff { out: 0, note: vs[oldest].note });
                oldest
            },
        },
    };
    vs[at] = Voice { note: e.note, end, gen: e.gen };
    acts.push(Act::NoteOn { out: 0, note: e.note, vel: e.vel });
    assert(at == voice_for(v0, e.note));
    assert(vs@ =~= with_voice(v0, e, window as int));
    assert(acts@ =~= voice_acts(v0, e));
    acts
}

/// Playing a note never leaves the voice's previous note sounding, and never
/// sounds one pitch on two voices.
pub proof fn voices_never_double(vs: Seq<Voice>, e: NoteEvent, window: int, i: int, j: int)
    requires
        vs.len() == 4,
        e.note != 0,
        0 <= i < j < 4,
        forall|x: int, y: int|
            0 <= x < y < 4 && (#[trigger] vs[x]).note != 0 ==> vs[x].note != (#[trigger] vs[y]).note,
    ensures
        ({
            let a = with_voice(vs, e, window);
            a[i].note != 0 ==> a[i].note != a[j].note
        }),
{
    find_voice_sound(vs, e.note, 4);
    find_voice_sound(vs, 0, 4);
    oldest_voice_in_range(vs, 4);
}

proof fn find_voice_sound(vs: Seq<Voice>, note: u8, n: int)
    requires
        0 <= n <= vs.len(),
    ensures
        find_voice(vs, note, n) matches Some(i) ==> 0 <= i < n && vs[i].note == note,
        find_voice(vs, note, n) is None ==> forall|k: int| 0 <= k < n ==> (#[trigger] vs[k]).note != note,
    decreases n,
{
    if n > 0 {
        find_voice_sound(vs, note, n - 1);
    }
}

proof fn oldest_voice_in_range(vs: Seq<Voice>, n: int)
    requires
        0 <= n <= 4,
    ensures
        0 <= oldest_voice(vs, n).0 < 4,
    decreases n,
{
    if n > 0 {
        oldest_voice_in_range(vs, n - 1);
    }
}

// ---------------------------------------------------------------------------
// The running app
// ---------------------------------------------------------------------------

/// State of the app between events.
pub struct LoopDeCay {
    /// 0 pitch to MIDI, 1 gate to MIDI, 2 MIDI to MIDI, 3 MIDI to CV,
    /// 4 fader to both.
    pub mode: usize,
    pub base_note: u8,
    pub span: i32,
    pub store: Storage,
    pub bars: u8,
    pub decay_mode: usize,
    pub buf: LoopBuf,
    pub voices: [Voice; 4],
    pub live_note: Option<u8>,
    /// The live note is being recorded.
    pub rec_open: bool,
    pub prev_pos: Option<u16>,
    pub flash_until: u64,
    pub rng: u32,
    pub layer: LatchLayer,
    pub fader_moved: bool,
    pub button_down_fader: u16,
    pub glide_frames_left: u16,
    pub erase_flash: bool,
    pub bars_flash: bool,
}

pub open spec fn has_cv_out(mode: int) -> bool {
    mode == 3 || mode == 4
}

pub open spec fn gated_by_button(mode: int) -> bool {
    mode == 0 || mode == 4
}

/// Position of a tick in the window of the loop.
pub open spec fn grid_pos(origin: u64, tick: int, window: int) -> int {
    let pos = if origin == u64::MAX { 0 } else { max_int(tick - origin, 0) % window };
    on_16th(pos) % window
}

/// Events once no note of a pitch is held any more.
pub open spec fn cut_open(ev: Seq<NoteEvent>, note: u8) -> Seq<NoteEvent> {
    Seq::new(
        ev.len(),
        |i: int|
            if ev[i].used && ev[i].note == note && ev[i].dur == u16::MAX {
                NoteEvent { dur: DEFAULT_GATE_TICKS, ..ev[i] }
            } else {
                ev[i]
            },
    )
}

fn cut_open_notes(buf: &mut LoopBuf, note: u8)
    ensures
        final(buf).events@ == cut_open(old(buf).events@, note),
        final(buf).next_gen == old(buf).next_gen,
        final(buf).extent == old(buf).extent,
        final(buf).origin == old(buf).origin,
{
    let ghost b0 = *buf;
    let mut i: usize = 0;
    while i < 32
        invariant
            i <= 32,
            buf.next_gen == b0.next_gen,
            buf.extent == b0.extent,
            buf.origin == b0.origin,
            forall|k: int|
                0 <= k < 32 ==> #[trigger] buf.events[k] == if k < i {
                    cut_open(b0.events@, note)[k]
                } else {
                    b0.events[k]
                },
        decreases 32 - i,
    {
        let e = buf.events[i];
        if e.used && e.note == note && e.dur == u16::MAX {
            buf.events[i] = NoteEvent { dur: DEFAULT_GATE_TICKS, ..e };
        }
        i = i + 1;
    }
    assert(buf.events@ =~= cut_open(b0.events@, note)) by {
        assert forall|k: int| 0 <= k < 32 implies buf.events@[k] == cut_open(b0.events@, note)[k] by {
            assert(buf.events[k] == cut_open(b0.events@, note)[k]);
        }
    }
}

impl LoopDeCay {
    pub open spec fn wf(self) -> bool {
        &&& self.mode <= 4
        &&& self.decay_mode < DECAY_MODE_COUNT
        &&& self.bars >= 1
        &&& -SPAN_LIMIT <= self.span <= SPAN_LIMIT
        &&& self.store.main_saved <= 4095
    }

    pub open spec fn window(self) -> int {
        window_of(self.bars as int)
    }

    /// Everything but the loop, the notes and the recording state agrees.
    pub open spec fn same_settings(self, o: LoopDeCay) -> bool {
        &&& self.mode == o.mode
        &&& self.base_note == o.base_note
        &&& self.span == o.span
        &&& self.store == o.store
        &&& self.bars == o.bars
        &&& self.decay_mode == o.decay_mode
        &&& self.layer == o.layer
        &&& self.fader_moved == o.fader_moved
        &&& self.button_down_fader == o.button_down_fader
        &&& self.glide_frames_left == o.glide_frames_left
        &&& self.erase_flash == o.erase_flash
        &&& self.bars_flash == o.bars_flash
    }

    /// The playback state agrees.
    pub open spec fn same_playback(self, o: LoopDeCay) -> bool {
        self.voices == o.voices && self.prev_pos == o.prev_pos && self.rng == o.rng
    }

    pub fn new(params: Params, store: Storage, seed: u32) -> (r: Self)
        requires
            params.valid(),
            -SPAN_LIMIT <= params.span <= SPAN_LIMIT,
            store.main_saved <= 4095,
        ensures
            r.wf(),
            r.mode == params.mode,
            r.base_note == params.midi_note,
            r.span == params.span,
            r.store == store,
            r.bars == bars_of(store.bars_saved as int),
            r.decay_mode == params.decay_mode,
            r.buf.is_empty_loop(),
            r.live_note is None,
            !r.rec_open,
            r.prev_pos is None,
            r.rng == seed,
            forall|i: int| 0 <= i < 4 ==> #[trigger] r.voices[i] == free_voice(),
            r.flash_until == 0 && r.layer == LatchLayer::Main,
            !r.fader_moved && r.button_down_fader == 0 && r.glide_frames_left == 0,
            !r.erase_flash && !r.bars_flash,
    {
        LoopDeCay {
            mode: params.mode,
            base_note: params.midi_note,
            span: params.span,
            store,
            bars: bars_from_fader(store.bars_saved),
            decay_mode: params.decay_mode,
            buf: LoopBuf::new(),
            voices: [Voice { note: 0, end: 0, gen: 0 }; 4],
            live_note: None,
            rec_open: false,
            prev_pos: None,
            flash_until: 0,
            rng: seed,
            layer: LatchLayer::Main,
            fader_moved: false,
            button_down_fader: 0,
            glide_frames_left: 0,
            erase_flash: false,
            bars_flash: false,
        }
    }

    fn has_cv(&self) -> (r: bool)
        ensures
            r == has_cv_out(self.mode as int),
    {
        self.mode == 3 || self.mode == 4
    }

    /// Messages that end everything that sounds.
    pub open spec fn silence_acts(self) -> Seq<Act> {
        voice_offs(self.voices@, 4) + (match self.live_note {
            Some(n) => seq![Act::NoteOff { out: 0, note: n }],
            None => Seq::empty(),
        }) + (if has_cv_out(self.mode as int) {
            seq![Act::Cv { jack: 0, val: 0 }]
        } else {
            Seq::empty()
        })
    }

    /// End everything that sounds.
    pub fn all_notes_off(&mut self) -> (acts: Vec<Act>)
        ensures
            acts@ == old(self).silence_acts(),
            final(self).same_settings(*old(self)),
            final(self).buf == old(self).buf,
            final(self).rec_open == old(self).rec_open,
            final(self).flash_until == old(self).flash_until,
            final(self).rng == old(self).rng,
            final(self).prev_pos == old(self).prev_pos,
            final(self).live_note is None,
            forall|i: int| 0 <= i < 4 ==> #[trigger] final(self).voices[i] == free_voice(),
    {
        let mut acts: Vec<Act> = Vec::new();
        let ghost vs = self.voices@;
        let mut i: usize = 0;
        while i < 4
            invariant
                i <= 4,
                vs == self.voices@,
                *self == *old(self),
                acts@ == voice_offs(vs, i as int),
            decreases 4 - i,
        {
            let n: u8 = self.voices[i].note;
            if n > 0 {
                acts.push(Act::NoteOff { out: 0, note: n });
            }
            i = i + 1;
        }
        self.voices = [Voice { note: 0, end: 0, gen: 0 }; 4];
        match self.live_note {
            Some(n) => {
                acts.push(Act::NoteOff { out: 0, note: n });
                self.live_note = None;
            },
            None => {},
        }
        if self.has_cv() {
            acts.push(Act::Cv { jack: 0, val: 0 });
        }
        assert(acts@ =~= old(self).silence_acts());
        acts
    }

    /// Loop with a note that begins at a tick.
    pub open spec fn recorded(self, note: u8, vel: u16, tick: int) -> LoopBuf {
        let b = LoopBuf {
            origin: if self.buf.origin == u64::MAX { (tick - tick % 6) as u64 } else {
                self.buf.origin
            },
            ..self.buf
        };
        b.with_note(grid_pos(b.origin, tick, self.window()), u16::MAX, note, vel, self.window())
    }

    pub open spec fn start_acts(self, note: u8, vel: u16) -> Seq<Act> {
        (match self.live_note {
            Some(old_note) => seq![Act::NoteOff { out: 0, note: old_note }],
            None => Seq::empty(),
        }) + seq![Act::NoteOn { out: 0, note, vel }] + (if has_cv_out(self.mode as int) {
            seq![Act::Pitch { jack: 0, counts: (note * 4095 / 127) as u16 }]
        } else {
            Seq::empty()
        })
    }

    /// Play a note live, and record it while armed.
    pub fn start_note(&mut self, note: u8, vel: u16, tick: u64) -> (acts: Vec<Act>)
        requires
            note <= 127,
        ensures
            acts@ == old(self).start_acts(note, vel),
            final(self).same_settings(*old(self)),
            final(self).same_playback(*old(self)),
            final(self).live_note == Some(note),
            final(self).rec_open == (old(self).rec_open || old(self).store.armed),
            final(self).buf == if old(self).store.armed {
                old(self).recorded(note, vel, tick as int)
            } else {
                old(self).buf
            },
            final(self).flash_until == if old(self).store.armed {
                wrap_add(tick, CAPTURE_FLASH_TICKS)
            } else {
                old(self).flash_until
            },
    {
        let mut acts: Vec<Act> = Vec::new();
        match self.live_note {
            Some(n) => {
                acts.push(Act::NoteOff { out: 0, note: n });
            },
            None => {},
        }
        self.live_note = Some(note);
        acts.push(Act::NoteOn { out: 0, note, vel });
        if self.has_cv() {
            let counts: u16 = (note as u32 * 4095 / 127) as u16;
            acts.push(Act::Pitch { jack: 0, counts });
        }
        if self.store.armed {
            let window: u16 = LoopBuf::window_ticks(self.bars);
            self.buf.ensure_origin(tick);
            let pos: u16 = (tick.saturating_sub(self.buf.origin) % window as u64) as u16;
            let qpos: u16 = quantize_16th(pos) % window;
            self.buf.add_or_refresh(qpos, u16::MAX, note, vel, window);
            self.rec_open = true;
            self.flash_until = wrapping_ticks(tick, CAPTURE_FLASH_TICKS);
        }
        assert(acts@ =~= old(self).start_acts(note, vel));
        acts
    }

    /// The held note of this pitch can be closed at a tick.
    pub open spec fn ends_cleanly(self, note: u8, tick: int) -> bool {
        self.store.armed && self.rec_open ==> self.buf.closable(
            note,
            grid_pos(self.buf.origin, tick, self.window()),
            self.window(),
        )
    }

    /// Events once a held note is closed at a tick.
    pub open spec fn ended(self, note: u8, tick: int) -> Seq<NoteEvent> {
        cut_open(
            self.buf.closed(
                note,
                grid_pos(self.buf.origin, tick, self.window()),
                self.window(),
            ).events@,
            note,
        )
    }

    fn close_recording(&mut self, note: u8, tick: u64)
        requires
            old(self).ends_cleanly(note, tick as int),
        ensures
            !(old(self).store.armed && old(self).rec_open) ==> *final(self) == *old(self),
            final(self).same_settings(*old(self)),
            final(self).same_playback(*old(self)),
            final(self).live_note == old(self).live_note,
            final(self).flash_until == old(self).flash_until,
            final(self).buf.next_gen == old(self).buf.next_gen,
            final(self).buf.extent == old(self).buf.extent,
            final(self).buf.origin == old(self).buf.origin,
            final(self).rec_open == (old(self).rec_open && !old(self).store.armed),
            final(self).buf.events@ == if old(self).store.armed && old(self).rec_open {
                old(self).ended(note, tick as int)
            } else {
                old(self).buf.events@
            },
    {
        if self.store.armed && self.rec_open {
            let window: u16 = LoopBuf::window_ticks(self.bars);
            let pos: u16 = if self.buf.origin == u64::MAX {
                0
            } else {
                (tick.saturating_sub(self.buf.origin) % window as u64) as u16
            };
            let qpos: u16 = quantize_16th(pos) % window;
            self.buf.finalize_open(note, qpos, window);
            cut_open_notes(&mut self.buf, note);
            self.rec_open = false;
        }
    }

    /// Whether a held note can be closed at a tick: a loop that was shortened
    /// while the note was held cannot.
    pub fn can_end(&self, note: u8, tick: u64) -> (r: bool)
        ensures
            r == self.ends_cleanly(note, tick as int),
    {
        if !(self.store.armed && self.rec_open) {
            return true;
        }
        let window: u16 = LoopBuf::window_ticks(self.bars);
        let pos: u16 = if self.buf.origin == u64::MAX {
            0
        } else {
            (tick.saturating_sub(self.buf.origin) % window as u64) as u16
        };
        self.buf.can_close(note, quantize_16th(pos) % window, window)
    }

    pub open spec fn end_acts(self, note: u8) -> Seq<Act> {
        seq![Act::NoteOff { out: 0, note }] + (if self.live_note == Some(note) && has_cv_out(
            self.mode as int,
        ) {
            seq![Act::Cv { jack: 0, val: 0 }]
        } else {
            Seq::empty()
        })
    }

    /// State after a live note and its recording end.
    pub open spec fn ended_as(self, post: LoopDeCay, note: u8, tick: int) -> bool {
        &&& post.same_settings(self)
        &&& post.same_playback(self)
        &&& post.flash_until == self.flash_until
        &&& post.live_note == if self.live_note == Some(note) { None } else { self.live_note }
        &&& post.buf.next_gen == self.buf.next_gen
        &&& post.buf.extent == self.buf.extent
        &&& post.buf.origin == self.buf.origin
        &&& post.rec_open == (self.rec_open && !self.store.armed)
        &&& post.buf.events@ == if self.store.armed && self.rec_open {
            self.ended(note, tick)
        } else {
            self.buf.events@
        }
    }

    /// End a live note and its recording.
    pub fn end_specific(&mut self, note: u8, tick: u64) -> (acts: Vec<Act>)
        requires
            old(self).ends_cleanly(note, tick as int),
        ensures
            acts@ == old(self).end_acts(note),
            old(self).ended_as(*final(self), note, tick as int),
    {
        let ghost s0 = *self;
        let mut acts: Vec<Act> = Vec::new();
        acts.push(Act::NoteOff { out: 0, note });
        match self.live_note {
            Some(n) => {
                if n == note {
                    if self.has_cv() {
                        acts.push(Act::Cv { jack: 0, val: 0 });
                    }
                    self.live_note = None;
                }
            },
            None => {},
        }
        self.close_recording(note, tick);
        assert(acts@ =~= s0.end_acts(note));
        acts
    }

    /// The live note, if there is one, ends at a tick; a voltage output goes
    /// back to zero.
    pub open spec fn ends_live(self, post: LoopDeCay, acts: Seq<Act>, tick: int) -> bool {
        &&& acts == match self.live_note {
            Some(n) => self.end_acts(n),
            None => if has_cv_out(self.mode as int) {
                seq![Act::Cv { jack: 0, val: 0 }]
            } else {
                Seq::empty()
            },
        }
        &&& post.live_note is None
        &&& match self.live_note {
            Some(n) => self.ended_as(post, n, tick),
            None => post == self,
        }
    }

    /// End whatever is played live.
    pub fn note_off(&mut self, tick: u64) -> (acts: Vec<Act>)
        requires
            old(self).live_note matches Some(n) ==> old(self).ends_cleanly(n, tick as int),
        ensures
            old(self).ends_live(*final(self), acts@, tick as int),
    {
        match self.live_note {
            Some(n) => self.end_specific(n, tick),
            None => {
                let mut acts: Vec<Act> = Vec::new();
                if self.has_cv() {
                    acts.push(Act::Cv { jack: 0, val: 0 });
                }
                assert(acts@ =~= if has_cv_out(old(self).mode as int) {
                    seq![Act::Cv { jack: 0, val: 0 }]
                } else {
                    Seq::empty()
                });
                acts
            },
        }
    }

    /// State after a step to another note: the sounding note and its
    /// recording are closed, then the new one is played and recorded.
    pub open spec fn retuned_as(self, post: LoopDeCay, note: u8, vel: u16, tick: int) -> bool {
        &&& post.same_settings(self)
        &&& post.same_playback(self)
        &&& post.live_note == Some(note)
        &&& !self.store.armed ==> post.buf == self.buf && post.rec_open == self.rec_open
            && post.flash_until == self.flash_until
        &&& self.store.armed ==> post.rec_open && post.flash_until == wrap_add(
            tick as u64,
            CAPTURE_FLASH_TICKS,
        ) && exists|mid: LoopDeCay|
            {
                &&& #[trigger] mid.same_settings(self)
                &&& mid.buf.next_gen == self.buf.next_gen
                &&& mid.buf.extent == self.buf.extent
                &&& mid.buf.origin == self.buf.origin
                &&& mid.buf.events@ == match self.live_note {
                    Some(n) => if self.rec_open {
                        self.ended(n, tick)
                    } else {
                        self.buf.events@
                    },
                    None => self.buf.events@,
                }
                &&& post.buf == mid.recorded(note, vel, tick)
            }
    }

    /// Glissando step: close the sounding note and its recording, then play
    /// the next degree.
    pub fn retune_live(&mut self, note: u8, vel: u16, tick: u64) -> (acts: Vec<Act>)
        requires
            note <= 127,
            old(self).live_note matches Some(n) ==> old(self).ends_cleanly(n, tick as int),
        ensures
            old(self).live_note == Some(note) ==> acts@ == Seq::<Act>::empty() && *final(self)
                == *old(self),
            old(self).live_note != Some(note) ==> acts@ == old(self).start_acts(note, vel) && old(
                self,
            ).retuned_as(*final(self), note, vel, tick as int),
    {
        let ghost s0 = *self;
        let mut acts: Vec<Act> = Vec::new();
        match self.live_note {
            Some(old_note) => {
                if old_note == note {
                    return acts;
                }
                self.close_recording(old_note, tick);
                acts.push(Act::NoteOff { out: 0, note: old_note });
                self.live_note = None;
            },
            None => {},
        }
        let ghost mid = *self;
        assert(mid.same_settings(s0));
        let rest = self.start_note(note, vel, tick);
        push_all(&mut acts, rest);
        assert(acts@ =~= s0.start_acts(note, vel));
        acts
    }
}

/// Sum that wraps around.
pub open spec fn wrap_add(a: u64, b: u64) -> u64 {
    ((a + b) % 0x1_0000_0000_0000_0000) as u64
}

fn wrapping_ticks(a: u64, b: u64) -> (r: u64)
    ensures
        r == wrap_add(a, b),
{
    a.wrapping_add(b)
}

// ---------------------------------------------------------------------------
// Clock
// ---------------------------------------------------------------------------

/// Note that the CV output follows: the live one, else the first voice.
pub open spec fn cv_note(live: Option<u8>, vs: Seq<Voice>) -> Option<u8> {
    match live {
        Some(n) => Some(n),
        None => first_sounding(vs, 4),
    }
}

pub open spec fn first_sounding(vs: Seq<Voice>, n: int) -> Option<u8>
    decreases n,
{
    if n <= 0 {
        None
    } else {
        match first_sounding(vs, n - 1) {
            Some(v) => Some(v),
            None => if vs[n - 1].note != 0 { Some(vs[n - 1].note) } else { None },
        }
    }
}

/// Input of the quantizer for a note: the base note lies at mid-travel, sixty
/// semitones either way fill the range.
pub open spec fn cv_counts(note: int, base: int) -> int {
    (clamp_int(note - base, -60, 60) + 60) * 4095 / 120
}

pub open spec fn cv_act(note: Option<u8>, base: int) -> Act {
    match note {
        Some(n) => Act::Pitch { jack: 0, counts: cv_counts(n as int, base) as u16 },
        None => Act::Cv { jack: 0, val: 0 },
    }
}

impl LoopDeCay {
    fn update_cv_out(&self) -> (a: Act)
        ensures
            a == cv_act(cv_note(self.live_note, self.voices@), self.base_note as int),
    {
        let mut note: Option<u8> = self.live_note;
        let mut i: usize = 0;
        while i < 4
            invariant
                i <= 4,
                self.live_note is Some ==> note == self.live_note,
                self.live_note is None ==> note == first_sounding(self.voices@, i as int),
            decreases 4 - i,
        {
            if note.is_none() && self.voices[i].note != 0 {
                note = Some(self.voices[i].note);
            }
            i = i + 1;
        }
        match note {
            Some(n) => {
                let rel: i32 = n as i32 - self.base_note as i32;
                let rel: i32 = if rel < -60 {
                    -60
                } else if rel > 60 {
                    60
                } else {
                    rel
                };
                Act::Pitch { jack: 0, counts: ((rel + 60) as u32 * 4095 / 120) as u16 }
            },
            None => Act::Cv { jack: 0, val: 0 },
        }
    }

    /// The loop starts over in this tick, and decays.
    pub open spec fn wraps(self, pos: int) -> bool {
        self.prev_pos matches Some(pp) && pos < pp && !self.store.muted
    }

    /// Events, generator, extent and origin after the decay of a tick.
    pub open spec fn after_pass(self, pos: int, scale: Scale) -> (Seq<NoteEvent>, u32, u16, u64) {
        if self.wraps(pos) && self.store.decay_saved != 0 {
            let (ev, r) = decayed_notes(
                self.buf.events@,
                32,
                self.decay_mode as int,
                self.store.decay_saved as int,
                snapped(self.base_note as int, scale, None),
                scale,
                self.rng,
            );
            (
                ev,
                r,
                if all_unused(ev) { 0 } else { self.buf.extent },
                if all_unused(ev) { u64::MAX } else { self.buf.origin },
            )
        } else {
            (self.buf.events@, self.rng, self.buf.extent, self.buf.origin)
        }
    }

    /// A tick of the running clock: decay where the loop starts over, start
    /// the notes it passes and end those that are over. `scale` is the
    /// device's current scale.
    pub fn on_tick(&mut self, tick: u64, scale: Scale) -> (acts: Vec<Act>)
        requires
            old(self).wf(),
        ensures
            final(self).wf(),
            final(self).same_settings(*old(self)),
            final(self).live_note == old(self).live_note,
            final(self).rec_open == old(self).rec_open,
            final(self).buf.next_gen == old(self).buf.next_gen,
            final(self).prev_pos == old(self).buf.position(tick as int, old(self).bars as int),
            match old(self).buf.position(tick as int, old(self).bars as int) {
                None => {
                    &&& acts@ == Seq::<Act>::empty()
                    &&& final(self).buf == old(self).buf
                    &&& final(self).voices == old(self).voices
                    &&& final(self).rng == old(self).rng
                    &&& final(self).flash_until == old(self).flash_until
                },
                Some(pos) => {
                    let (ev, r, extent, origin) = old(self).after_pass(pos as int, scale);
                    let prev = old(self).prev_pos;
                    let (vs, on) = started(
                        old(self).voices@,
                        ev,
                        32,
                        prev,
                        pos as int,
                        old(self).window(),
                    );
                    let plays = !old(self).store.muted && extent > 0;
                    &&& final(self).buf.events@ == ev
                    &&& final(self).buf.extent == extent
                    &&& final(self).buf.origin == origin
                    &&& final(self).rng == r
                    &&& !plays ==> acts@ == Seq::<Act>::empty() && final(self).voices == old(
                        self,
                    ).voices && final(self).flash_until == old(self).flash_until
                    &&& plays ==> {
                        &&& final(self).voices@ == released(vs, prev, pos as int)
                        &&& acts@ == on + release_acts(vs, 4, prev, pos as int) + (if has_cv_out(
                            old(self).mode as int,
                        ) {
                            seq![
                                cv_act(
                                    cv_note(old(self).live_note, released(vs, prev, pos as int)),
                                    old(self).base_note as int,
                                ),
                            ]
                        } else {
                            Seq::empty()
                        })
                        &&& final(self).flash_until == if any_due(ev, 32, prev, pos as int) {
                            wrap_add(tick, CAPTURE_FLASH_TICKS)
                        } else {
                            old(self).flash_until
                        }
                    }
                },
            },
    {
        let ghost s0 = *self;
        let mut acts: Vec<Act> = Vec::new();
        let window: u16 = LoopBuf::window_ticks(self.bars);
        let pos: u16 = match self.buf.play_pos(tick, self.bars) {
            Some(p) => p,
            None => {
                self.prev_pos = None;
                return acts;
            },
        };
        let prev: Option<u16> = self.prev_pos;
        let wrapped = match prev {
            Some(pp) => pos < pp && !self.store.muted,
            None => false,
        };
        if wrapped {
            let mut rng: u32 = self.rng;
            self.buf.decay_all(
                self.store.decay_saved,
                self.decay_mode,
                self.base_note,
                scale,
                &mut rng,
            );
            self.rng = rng;
        }
        self.prev_pos = Some(pos);
        let ghost ev = self.buf.events@;
        assert((ev, self.rng, self.buf.extent, self.buf.origin) == s0.after_pass(pos as int, scale));
        if self.store.muted || self.buf.extent == 0 {
            return acts;
        }
        let ghost s1 = *self;
        let mut due = false;
        let mut i: usize = 0;
        while i < 32
            invariant
                i <= 32,
                ev == self.buf.events@,
                *self == (LoopDeCay { voices: self.voices, ..s1 }),
                window == s0.window(),
                (self.voices@, acts@) == started(
                    s0.voices@,
                    ev,
                    i as int,
                    prev,
                    pos as int,
                    window as int,
                ),
                due == any_due(ev, i as int, prev, pos as int),
            decreases 32 - i,
        {
            let e = self.buf.events[i];
            let hit = e.used && e.dur != u16::MAX && crossed(prev, pos, e.start);
            assert(hit == event_due(ev[i as int], prev, pos as int));
            if hit {
                let played = alloc_voice(&mut self.voices, e, window);
                push_all(&mut acts, played);
                due = true;
                assert(any_due(ev, i + 1, prev, pos as int));
            } else {
                assert(any_due(ev, i + 1, prev, pos as int) == any_due(ev, i as int, prev, pos as int)) by {
                    if any_due(ev, i as int, prev, pos as int) {
                        let k = choose|k: int| 0 <= k < i && event_due(#[trigger] ev[k], prev, pos as int);
                        assert(event_due(ev[k], prev, pos as int));
                    }
                }
            }
            i = i + 1;
        }
        if due {
            self.flash_until = wrapping_ticks(tick, CAPTURE_FLASH_TICKS);
        }
        let ghost vs = self.voices@;
        let ghost on = acts@;
        let ghost s2 = *self;
        assert(acts@ =~= on + release_acts(vs, 0, prev, pos as int));
        i = 0;
        while i < 4
            invariant
                i <= 4,
                vs.len() == 4,
                *self == (LoopDeCay { voices: self.voices, ..s2 }),
                acts@ == on + release_acts(vs, i as int, prev, pos as int),
                forall|k: int|
                    0 <= k < 4 ==> #[trigger] self.voices[k] == if k < i {
                        released(vs, prev, pos as int)[k]
                    } else {
                        vs[k]
                    },
            decreases 4 - i,
        {
            let v = self.voices[i];
            assert(v == vs[i as int]);
            if v.note != 0 && crossed(prev, pos, v.end) {
                acts.push(Act::NoteOff { out: 0, note: v.note });
                self.voices[i] = Voice { note: 0, end: 0, gen: 0 };
                assert(acts@ =~= on + release_acts(vs, i + 1, prev, pos as int));
            }
            i = i + 1;
        }
        assert(self.voices@ =~= released(vs, prev, pos as int)) by {
            assert forall|k: int| 0 <= k < 4 implies self.voices@[k] == released(vs, prev, pos as int)[k] by {
                assert(self.voices[k] == released(vs, prev, pos as int)[k]);
            }
        }
        if self.has_cv() {
            let a = self.update_cv_out();
            acts.push(a);
        }
        assert(acts@ =~= on + release_acts(vs, 4, prev, pos as int) + (if has_cv_out(
            s0.mode as int,
        ) {
            seq![
                cv_act(
                    cv_note(s0.live_note, released(vs, prev, pos as int)),
                    s0.base_note as int,
                ),
            ]
        } else {
            Seq::empty()
        }));
        acts
    }

    /// The clock stops, starts or is reset. A stop and a reset silence
    /// everything; a start and a reset anchor the loop anew, since the tick
    /// counter restarts.
    pub fn on_transport(&mut self, event: ClockEvent, tick: u64) -> (acts: Vec<Act>)
        requires
            old(self).wf(),
            event !is Tick,
        ensures
            final(self).wf(),
            final(self).same_settings(*old(self)),
            final(self).prev_pos is None,
            final(self).flash_until == old(self).flash_until,
            final(self).rng == old(self).rng,
            final(self).rec_open == old(self).rec_open,
            final(self).buf == (LoopBuf {
                origin: if event is Stop || old(self).buf.origin == u64::MAX {
                    old(self).buf.origin
                } else {
                    tick
                },
                ..old(self).buf
            }),
            event is Start ==> acts@ == Seq::<Act>::empty() && final(self).voices == old(
                self,
            ).voices && final(self).live_note == old(self).live_note,
            event !is Start ==> acts@ == old(self).silence_acts() && final(self).live_note is None
                && forall|i: int| 0 <= i < 4 ==> #[trigger] final(self).voices[i] == free_voice(),
    {
        let acts = match event {
            ClockEvent::Start => Vec::new(),
            _ => self.all_notes_off(),
        };
        match event {
            ClockEvent::Stop => {},
            _ => {
                if self.buf.origin != u64::MAX {
                    self.buf.origin = tick;
                }
            },
        }
        self.prev_pos = None;
        acts
    }
}

// ---------------------------------------------------------------------------
// Fader and button
// ---------------------------------------------------------------------------

/// Colour of each decay mode.
pub open spec fn decay_mode_hue(mode: int) -> Color {
    if mode == 0 {
        Color::Rose
    } else if mode == 1 {
        Color::Orange
    } else if mode == 2 {
        Color::Yellow
    } else if mode == 3 {
        Color::Lime
    } else if mode == 4 {
        Color::Cyan
    } else if mode == 5 {
        Color::Blue
    } else {
        Color::Violet
    }
}

pub fn decay_mode_color(mode: usize) -> (c: Color)
    ensures
        c == decay_mode_hue(mode as int),
{
    match mode {
        0 => Color::Rose,
        1 => Color::Orange,
        2 => Color::Yellow,
        3 => Color::Lime,
        4 => Color::Cyan,
        5 => Color::Blue,
        _ => Color::Violet,
    }
}

/// Colour of each mode.
pub open spec fn mode_hue(mode: int) -> Color {
    if mode == 0 {
        Color::Cyan
    } else if mode == 1 {
        Color::Orange
    } else if mode == 2 {
        Color::Green
    } else if mode == 3 {
        Color::Blue
    } else {
        Color::Pink
    }
}

pub fn mode_color(mode: usize) -> (c: Color)
    ensures
        c == mode_hue(mode as int),
{
    match mode {
        0 => Color::Cyan,
        1 => Color::Orange,
        2 => Color::Green,
        3 => Color::Blue,
        _ => Color::Pink,
    }
}

/// Slow is a cool violet, a fast kill hot red.
pub open spec fn decay_hue(fader: int) -> Color {
    vivid(300 - min_int(fader, 4095) * 300 / 4095)
}

pub fn decay_fader_color(fader: u16) -> (c: Color)
    ensures
        c == decay_hue(fader as int),
{
    let t: u32 = if fader < 4095 { fader as u32 } else { 4095 };
    vivid_color((300 - t * 300 / 4095) as u16)
}

/// One bar is amber, eight bars cyan.
pub open spec fn bars_hue(bars: int) -> Color {
    vivid(min_int(40 + max_int(bars - 1, 0) * 20, 180))
}

pub fn bars_fader_color(bars: u8) -> (c: Color)
    ensures
        c == bars_hue(bars as int),
{
    let steps: u16 = if bars < 1 { 0 } else { bars as u16 - 1 };
    let hue: u16 = 40 + steps * 20;
    vivid_color(if hue < 180 { hue } else { 180 })
}

/// The fader is the pitch, and its meters show it.
pub open spec fn pitch_meter(fader: u16) -> Act {
    Act::Meter { chan: 0, color: spectrum(fader as int), level: fader, top_floor: 8, bottom_floor: 8 }
}

impl LoopDeCay {
    /// Value that the fader has to pass before it takes over.
    pub fn fader_target(&self) -> (r: u16)
        ensures
            r == match self.layer {
                LatchLayer::Main => self.store.main_saved as int,
                LatchLayer::Alt => self.store.decay_saved as int,
                LatchLayer::Third => fader_of_decay_mode(self.decay_mode as int),
            },
    {
        match self.layer {
            LatchLayer::Main => self.store.main_saved,
            LatchLayer::Alt => self.store.decay_saved,
            LatchLayer::Third => fader_from_decay_mode(self.decay_mode),
        }
    }

    /// The fader has moved to `value`; `taken` is the value where the fader
    /// has taken over its layer.
    pub fn on_fader(&mut self, value: u16, button: bool, taken: Option<u16>) -> (acts: Vec<Act>)
        requires
            old(self).wf(),
            taken matches Some(v) ==> v <= 4095,
        ensures
            final(self).wf(),
            ({
                let moved = old(self).fader_moved || (button && dist(
                    old(self).button_down_fader as int,
                    value as int,
                ) > FADER_MOVE_THRESH);
                let s = LoopDeCay { fader_moved: moved, ..*old(self) };
                match taken {
                    None => *final(self) == s && acts@ == Seq::<Act>::empty(),
                    Some(v) => match old(self).layer {
                        LatchLayer::Main => {
                            &&& *final(self) == (LoopDeCay {
                                store: Storage { main_saved: v, ..s.store },
                                ..s
                            })
                            &&& acts@ == seq![Act::Save, pitch_meter(v)]
                        },
                        LatchLayer::Alt => {
                            &&& *final(self) == (LoopDeCay {
                                store: Storage { decay_saved: v, ..s.store },
                                ..s
                            })
                            &&& acts@ == seq![Act::Save] + fader_meters(
                                decay_hue(v as int),
                                v,
                                v as int / 16,
                            )
                        },
                        LatchLayer::Third => {
                            let mode = decay_mode_of(v as int);
                            &&& *final(self) == (LoopDeCay { decay_mode: mode as usize, ..s })
                            &&& acts@ == (if mode != s.decay_mode {
                                seq![Act::Save]
                            } else {
                                Seq::empty()
                            }) + fader_meters(
                                decay_mode_hue(mode),
                                fader_of_decay_mode(mode) as u16,
                                255,
                            )
                        },
                    },
                }
            }),
    {
        if button && abs_diff(self.button_down_fader, value) > FADER_MOVE_THRESH {
            self.fader_moved = true;
        }
        let ghost s = *self;
        let mut acts: Vec<Act> = Vec::new();
        match taken {
            None => {},
            Some(v) => match self.layer {
                LatchLayer::Main => {
                    self.store.main_saved = v;
                    acts.push(Act::Save);
                    acts.push(
                        Act::Meter {
                            chan: 0,
                            color: spectrum_color(v),
                            level: v,
                            top_floor: 8,
                            bottom_floor: 8,
                        },
                    );
                    assert(acts@ =~= seq![Act::Save, pitch_meter(v)]);
                },
                LatchLayer::Alt => {
                    self.store.decay_saved = v;
                    acts.push(Act::Save);
                    push_all(
                        &mut acts,
                        paint_fader_meters(decay_fader_color(v), v, (v / 16) as u8),
                    );
                    assert(acts@ =~= seq![Act::Save] + fader_meters(
                        decay_hue(v as int),
                        v,
                        v as int / 16,
                    ));
                },
                LatchLayer::Third => {
                    let mode: usize = decay_mode_from_fader(v);
                    if mode != self.decay_mode {
                        self.decay_mode = mode;
                        acts.push(Act::Save);
                    }
                    let center: u16 = fader_from_decay_mode(mode);
                    push_all(&mut acts, paint_fader_meters(decay_mode_color(mode), center, 255));
                    assert(acts@ =~= (if mode != s.decay_mode {
                        seq![Act::Save]
                    } else {
                        Seq::empty()
                    }) + fader_meters(decay_mode_hue(mode as int), center, 255));
                },
            },
        }
        acts
    }

    /// The button goes down with the fader at `fader`.
    pub fn on_press(&mut self, fader: u16)
        requires
            old(self).wf(),
        ensures
            final(self).wf(),
            *final(self) == (LoopDeCay {
                fader_moved: false,
                button_down_fader: fader,
                glide_frames_left: 0,
                ..*old(self)
            }),
    {
        self.fader_moved = false;
        self.button_down_fader = fader;
        self.glide_frames_left = 0;
    }

    /// Length after a short press with shift: one bar more, one after eight.
    pub open spec fn next_bars(self) -> int {
        if self.bars >= MAX_BARS { 1 } else { self.bars + 1 }
    }

    /// The loop length goes on to the next one.
    pub open spec fn cycles_bars(self, post: LoopDeCay, acts: Seq<Act>) -> bool {
        &&& acts == seq![Act::Save]
        &&& post.bars == self.next_bars()
        &&& post.store == (Storage {
            bars_saved: fader_of_bars(self.next_bars()) as u16,
            ..self.store
        })
        &&& post.bars_flash
        &&& post == (LoopDeCay {
            bars: post.bars,
            store: post.store,
            buf: post.buf,
            bars_flash: true,
            ..self
        })
        // A longer loop repeats what is there, unless it was recorded.
        &&& (!self.buf.extends_virgin(self.bars as int, self.next_bars())
            ==> post.buf == self.buf)
        &&& (self.buf.extends_virgin(self.bars as int, self.next_bars()) ==> {
            let (extras, gen) = all_tiles(
                self.buf.events@,
                32,
                self.window(),
                self.buf.extent as int,
                window_of(self.next_bars()),
                self.buf.next_gen,
            );
            let some = first32(extras);
            &&& post.buf.events@ == placed(
                self.buf.events@,
                some,
                some.len() as int,
            )
            &&& post.buf.next_gen == gen
            &&& post.buf.extent == window_of(self.next_bars())
            &&& post.buf.origin == self.buf.origin
        })
    }

    /// Shift and a short press: cycle the loop length.
    pub fn on_shift_short(&mut self) -> (acts: Vec<Act>)
        requires
            old(self).wf(),
        ensures
            final(self).wf(),
            old(self).cycles_bars(*final(self), acts@),
    {
        let new_bars: u8 = if self.bars >= MAX_BARS { 1 } else { self.bars + 1 };
        self.buf.set_window_bars(self.bars, new_bars);
        self.bars = new_bars;
        self.store.bars_saved = fader_from_bars(new_bars);
        self.bars_flash = true;
        crate::panel::one(Act::Save)
    }

    /// All goes silent: muted, or erased where it was.
    pub open spec fn mutes_or_erases(self, post: LoopDeCay, acts: Seq<Act>) -> bool {
        &&& post.live_note is None
        &&& (forall|i: int| 0 <= i < 4 ==> #[trigger] post.voices[i] == free_voice())
        &&& (self.store.muted ==> {
            &&& post.buf.is_empty_loop()
            &&& post.erase_flash
            &&& post.store == self.store
            &&& acts == self.silence_acts()
        })
        &&& (!self.store.muted ==> {
            &&& post.buf == self.buf
            &&& post.erase_flash == self.erase_flash
            &&& post.store == (Storage { muted: true, ..self.store })
            &&& acts == seq![Act::Save] + self.silence_acts()
        })
        &&& post.same_settings(
            (LoopDeCay {
                store: post.store,
                erase_flash: post.erase_flash,
                ..self
            }),
        )
        &&& post.rec_open == self.rec_open
        &&& post.prev_pos == self.prev_pos
        &&& post.flash_until == self.flash_until
        &&& post.rng == self.rng
    }

    /// Shift and a long press: mute; while muted, erase the loop.
    pub fn on_shift_long(&mut self) -> (acts: Vec<Act>)
        requires
            old(self).wf(),
        ensures
            final(self).wf(),
            old(self).mutes_or_erases(*final(self), acts@),
    {
        let mut acts: Vec<Act> = Vec::new();
        if self.store.muted {
            self.buf.clear();
            self.erase_flash = true;
        } else {
            self.store.muted = true;
            acts.push(Act::Save);
        }
        let off = self.all_notes_off();
        push_all(&mut acts, off);
        assert(acts@ =~= (if old(self).store.muted {
            Seq::empty()
        } else {
            seq![Act::Save]
        }) + old(self).silence_acts());
        acts
    }

    /// Unmuted and armed, unless the fader was moved.
    pub open spec fn unmutes(self, post: LoopDeCay, acts: Seq<Act>) -> bool {
        &&& (self.fader_moved ==> post == self && acts == Seq::<Act>::empty())
        &&& (!self.fader_moved ==> acts == seq![Act::Save] && post == (LoopDeCay {
            store: Storage { muted: false, armed: true, ..self.store },
            ..self
        }))
    }

    /// A short press while muted: unmute and arm, unless the fader was moved.
    pub fn on_muted_short(&mut self) -> (acts: Vec<Act>)
        requires
            old(self).wf(),
        ensures
            final(self).wf(),
            old(self).unmutes(*final(self), acts@),
    {
        if self.fader_moved {
            return Vec::new();
        }
        self.store.muted = false;
        self.store.armed = true;
        crate::panel::one(Act::Save)
    }

    /// Muted, unless the fader was moved.
    pub open spec fn mutes(self, post: LoopDeCay, acts: Seq<Act>) -> bool {
        &&& (self.fader_moved ==> post == self && acts == Seq::<Act>::empty())
        &&& (!self.fader_moved ==> {
            &&& post.same_settings(
                (LoopDeCay {
                    store: (Storage { muted: true, ..self.store }),
                    ..self
                }),
            )
            &&& post.prev_pos == self.prev_pos
            &&& post.flash_until == self.flash_until
            &&& post.rng == self.rng
            &&& post.live_note is None
            &&& post.rec_open == (self.rec_open && self.live_note is None)
            &&& post.buf == self.buf
            &&& forall|i: int| 0 <= i < 4 ==> #[trigger] post.voices[i] == free_voice()
            &&& acts == (match self.live_note {
                Some(n) => seq![Act::NoteOff { out: 0, note: n }],
                None => Seq::empty(),
            }) + seq![Act::Save] + voice_offs(self.voices@, 4) + (if has_cv_out(
                self.mode as int,
            ) {
                seq![Act::Cv { jack: 0, val: 0 }]
            } else {
                Seq::empty()
            })
        })
    }

    /// A long press in a mode that the button does not gate: mute, unless the
    /// fader was moved.
    pub fn on_long(&mut self) -> (acts: Vec<Act>)
        requires
            old(self).wf(),
        ensures
            final(self).wf(),
            old(self).mutes(*final(self), acts@),
    {
        let ghost s0 = *self;
        let mut acts: Vec<Act> = Vec::new();
        if self.fader_moved {
            return acts;
        }
        match self.live_note {
            Some(n) => {
                acts.push(Act::NoteOff { out: 0, note: n });
                self.live_note = None;
                self.rec_open = false;
            },
            None => {},
        }
        self.store.muted = true;
        acts.push(Act::Save);
        let off = self.all_notes_off();
        push_all(&mut acts, off);
        assert(acts@ =~= (match s0.live_note {
            Some(n) => seq![Act::NoteOff { out: 0, note: n }],
            None => Seq::empty(),
        }) + seq![Act::Save] + voice_offs(s0.voices@, 4) + (if has_cv_out(s0.mode as int) {
            seq![Act::Cv { jack: 0, val: 0 }]
        } else {
            Seq::empty()
        }));
        acts
    }

    /// Where a held note glides in this frame: a scale degree toward the
    /// target, once the fader has moved and the last degree has had its time.
    pub open spec fn glide_to(self, target: u8, scale: Scale) -> Option<u8> {
        match self.live_note {
            Some(cur) => if self.fader_moved && cur != target && self.glide_frames_left == 0
                && one_step_toward(cur as int, target as int, scale) != cur {
                Some(one_step_toward(cur as int, target as int, scale) as u8)
            } else {
                None
            },
            None => None,
        }
    }

    pub open spec fn glide_left(self, target: u8, scale: Scale) -> int {
        match self.live_note {
            Some(cur) => if !self.fader_moved || cur == target {
                0
            } else if self.glide_frames_left > 0 {
                self.glide_frames_left - 1
            } else if one_step_toward(cur as int, target as int, scale) == target {
                0
            } else {
                GLISS_FRAMES as int
            },
            None => if self.fader_moved { self.glide_frames_left as int } else { 0 },
        }
    }

    /// One millisecond of holding the button in a mode that it gates. `target`
    /// is the pitch that the fader asks for.
    pub fn on_hold(&mut self, target: u8, scale: Scale, tick: u64) -> (acts: Vec<Act>)
        requires
            old(self).wf(),
            target <= 127,
            old(self).live_note matches Some(n) ==> n <= 127 && old(self).ends_cleanly(
                n,
                tick as int,
            ),
        ensures
            final(self).wf(),
            final(self).glide_frames_left == old(self).glide_left(target, scale),
            match old(self).glide_to(target, scale) {
                None => acts@ == Seq::<Act>::empty() && *final(self) == (LoopDeCay {
                    glide_frames_left: final(self).glide_frames_left,
                    ..*old(self)
                }),
                Some(next) => acts@ == old(self).start_acts(next, 4095) && old(self).retuned_as(
                    (LoopDeCay {
                        glide_frames_left: old(self).glide_frames_left,
                        ..*final(self)
                    }),
                    next,
                    4095,
                    tick as int,
                ),
            },
    {
        if !self.fader_moved {
            self.glide_frames_left = 0;
            return Vec::new();
        }
        let cur: u8 = match self.live_note {
            Some(n) => n,
            None => {
                return Vec::new();
            },
        };
        if cur == target {
            self.glide_frames_left = 0;
            return Vec::new();
        }
        if self.glide_frames_left > 0 {
            self.glide_frames_left = self.glide_frames_left - 1;
            return Vec::new();
        }
        let next: u8 = step_toward(cur, target, scale);
        let acts = if next != cur {
            self.retune_live(next, 4095, tick)
        } else {
            Vec::new()
        };
        self.glide_frames_left = if next == target { 0 } else { GLISS_FRAMES };
        acts
    }
}

// ---------------------------------------------------------------------------
// Inputs
// ---------------------------------------------------------------------------

#[derive(Clone, Copy, Debug, PartialEq, Eq, Structural)]
pub enum GateEdge {
    Rise,
    Fall,
    Steady,
}

/// What a gate input does between two samples; nothing while muted.
pub fn gate_edge(muted: bool, before: u16, now: u16) -> (r: GateEdge)
    ensures
        r == if !muted && before < GATE_THRESH <= now {
            GateEdge::Rise
        } else if !muted && now < GATE_THRESH <= before {
            GateEdge::Fall
        } else {
            GateEdge::Steady
        },
{
    if muted {
        GateEdge::Steady
    } else if now >= GATE_THRESH && before < GATE_THRESH {
        GateEdge::Rise
    } else if now < GATE_THRESH && before >= GATE_THRESH {
        GateEdge::Fall
    } else {
        GateEdge::Steady
    }
}

/// Velocity of a MIDI note on the loop's scale: always above the floor.
pub open spec fn midi_vel(vel: int) -> int {
    max_int(vel * 4095 / 127, KILL_FLOOR + 1)
}

impl LoopDeCay {
    /// A MIDI note-on: note and velocity zero ends the note.
    pub fn on_midi_note_on(&mut self, key: u8, vel: u8, scale: Scale, tick: u64) -> (acts: Vec<Act>)
        requires
            old(self).wf(),
            key <= 127,
            vel <= 127,
            vel == 0 ==> old(self).ends_cleanly(
                snapped(key as int, scale, None) as u8,
                tick as int,
            ),
        ensures
            final(self).wf(),
            final(self).store == old(self).store,
            ({
                let n = snapped(key as int, scale, None) as u8;
                if old(self).store.muted {
                    *final(self) == *old(self) && acts@ == Seq::<Act>::empty()
                } else if vel == 0 {
                    acts@ == old(self).end_acts(n) && old(self).ended_as(
                        *final(self),
                        n,
                        tick as int,
                    )
                } else {
                    &&& acts@ == old(self).start_acts(n, midi_vel(vel as int) as u16)
                    &&& final(self).same_settings(*old(self))
                    &&& final(self).same_playback(*old(self))
                    &&& final(self).live_note == Some(n)
                    &&& final(self).rec_open == (old(self).rec_open || old(self).store.armed)
                    &&& final(self).buf == if old(self).store.armed {
                        old(self).recorded(n, midi_vel(vel as int) as u16, tick as int)
                    } else {
                        old(self).buf
                    }
                    &&& final(self).flash_until == if old(self).store.armed {
                        wrap_add(tick, CAPTURE_FLASH_TICKS)
                    } else {
                        old(self).flash_until
                    }
                }
            }),
    {
        if self.store.muted {
            return Vec::new();
        }
        let n: u8 = snap_to_scale(key, scale);
        if vel == 0 {
            self.end_specific(n, tick)
        } else {
            let v12: u16 = (vel as u32 * 4095 / 127) as u16;
            let v12: u16 = if v12 < KILL_FLOOR + 1 { KILL_FLOOR + 1 } else { v12 };
            self.start_note(n, v12, tick)
        }
    }

    /// A MIDI note-off.
    pub fn on_midi_note_off(&mut self, key: u8, scale: Scale, tick: u64) -> (acts: Vec<Act>)
        requires
            old(self).wf(),
            old(self).ends_cleanly(snapped(key as int, scale, None) as u8, tick as int),
        ensures
            final(self).wf(),
            acts@ == old(self).end_acts(snapped(key as int, scale, None) as u8),
            old(self).ended_as(*final(self), snapped(key as int, scale, None) as u8, tick as int),
    {
        let n: u8 = snap_to_scale(key, scale);
        self.end_specific(n, tick)
    }

    /// The stored settings have been replaced by those of a scene.
    pub fn on_scene(&mut self, store: Storage)
        requires
            old(self).wf(),
            store.main_saved <= 4095,
        ensures
            final(self).wf(),
            *final(self) == (LoopDeCay {
                store,
                bars: bars_of(store.bars_saved as int) as u8,
                ..*old(self)
            }),
    {
        self.store = store;
        self.bars = bars_from_fader(store.bars_saved);
    }
}

// ---------------------------------------------------------------------------
// LEDs
// ---------------------------------------------------------------------------

/// What the LEDs still have to show, in frames of a millisecond.
#[derive(Clone, Copy, Debug, PartialEq, Eq, Structural)]
pub struct Frame {
    pub blink_on: bool,
    pub erase_hold_ms: u16,
    pub bars_hold_ms: u16,
}

/// Brightness of the button while nothing is captured.
pub open spec fn rest_brightness(armed: bool, blink_on: bool) -> Brightness {
    if !armed {
        Brightness::Low
    } else if blink_on {
        Brightness::High
    } else {
        Brightness::Mid
    }
}

pub fn button_brightness(armed: bool, blink_on: bool) -> (r: Brightness)
    ensures
        r == rest_brightness(armed, blink_on),
{
    if armed {
        if blink_on {
            Brightness::High
        } else {
            Brightness::Mid
        }
    } else {
        Brightness::Low
    }
}

/// Level that is left of a brightness level while a note is captured.
pub open spec fn captured_level(level: int) -> int {
    max_int(level * 20 / 100, 1)
}

impl LoopDeCay {
    /// In the modes that the button gates, its layer is there only while
    /// muted, so that holding to play stays on pitch.
    pub open spec fn layer_at(self, shift: bool, button: bool) -> LatchLayer {
        if shift && !button {
            LatchLayer::Alt
        } else if !shift && button && (self.store.muted || !gated_by_button(self.mode as int)) {
            LatchLayer::Third
        } else {
            LatchLayer::Main
        }
    }

    /// Holds after the flashes that are asked for are taken over.
    pub open spec fn holds(self, f: Frame) -> (int, int) {
        (
            if self.erase_flash { 120 } else { f.erase_hold_ms as int },
            if self.bars_flash { 220 } else { f.bars_hold_ms as int },
        )
    }

    pub open spec fn main_acts(self, blink_on: bool, tick: u64, level: u8) -> Seq<Act> {
        let capturing = self.flash_until > tick;
        if self.store.muted {
            seq![
                Act::Light {
                    chan: 0,
                    led: Led::Button,
                    color: Color::Red,
                    bright: Brightness::Low,
                },
                Act::Dark { chan: 0, led: Led::Top },
                Act::Dark { chan: 0, led: Led::Bottom },
            ]
        } else {
            seq![
                pitch_meter(self.store.main_saved),
                Act::Light {
                    chan: 0,
                    led: Led::Button,
                    color: mode_hue(self.mode as int),
                    bright: if capturing {
                        Brightness::Custom(captured_level(level as int) as u8)
                    } else {
                        rest_brightness(self.store.armed, blink_on)
                    },
                },
            ] + (if capturing {
                seq![
                    Act::Light {
                        chan: 0,
                        led: Led::Top,
                        color: Color::White,
                        bright: Brightness::High,
                    },
                ]
            } else {
                Seq::empty()
            })
        }
    }

    pub open spec fn frame_acts(
        self,
        f: Frame,
        layer: LatchLayer,
        blink_on: bool,
        tick: u64,
        level: u8,
    ) -> Seq<Act> {
        let (erase, bars) = self.holds(f);
        if erase > 0 {
            seq![
                Act::Light {
                    chan: 0,
                    led: Led::Button,
                    color: Color::White,
                    bright: Brightness::High,
                },
            ]
        } else if bars > 0 {
            // Solid meters and a strobing button, so that the length shows
            // without a loop.
            fader_meters(
                bars_hue(self.bars as int),
                fader_of_bars(self.bars as int) as u16,
                255,
            ) + seq![
                if ((bars - 1) / 40) % 2 == 0 {
                    Act::Light {
                        chan: 0,
                        led: Led::Button,
                        color: bars_hue(self.bars as int),
                        bright: Brightness::High,
                    }
                } else {
                    Act::Dark { chan: 0, led: Led::Button }
                },
            ]
        } else {
            match layer {
                LatchLayer::Alt => fader_meters(
                    decay_hue(self.store.decay_saved as int),
                    self.store.decay_saved,
                    self.store.decay_saved as int / 16 % 256,
                ),
                LatchLayer::Third => fader_meters(
                    decay_mode_hue(self.decay_mode as int),
                    fader_of_decay_mode(self.decay_mode as int) as u16,
                    255,
                ),
                LatchLayer::Main => self.main_acts(blink_on, tick, level),
            }
        }
    }

    /// One millisecond of the panel. `blink_due` comes when the blink interval
    /// has passed; `level` is the device's level of the button's brightness.
    pub fn on_frame(
        &mut self,
        f: &mut Frame,
        shift: bool,
        button: bool,
        blink_due: bool,
        tick: u64,
        level: u8,
    ) -> (acts: Vec<Act>)
        requires
            old(self).wf(),
        ensures
            final(self).wf(),
            ({
                let layer = old(self).layer_at(shift, button);
                let blink_on = old(f).blink_on != blink_due;
                let (erase, bars) = old(self).holds(*old(f));
                &&& *final(self) == (LoopDeCay {
                    layer,
                    erase_flash: false,
                    bars_flash: false,
                    ..*old(self)
                })
                &&& final(f).blink_on == blink_on
                &&& final(f).erase_hold_ms == max_int(erase - 1, 0)
                &&& final(f).bars_hold_ms == if erase > 0 { bars } else { max_int(bars - 1, 0) }
                &&& acts@ == old(self).frame_acts(*old(f), layer, blink_on, tick, level)
            }),
    {
        let ghost s0 = *self;
        let ghost f0 = *f;
        let gated = self.mode == 0 || self.mode == 4;
        let layer = if shift && !button {
            LatchLayer::Alt
        } else if !shift && button && (self.store.muted || !gated) {
            LatchLayer::Third
        } else {
            LatchLayer::Main
        };
        self.layer = layer;
        if blink_due {
            f.blink_on = !f.blink_on;
        }
        if self.erase_flash {
            self.erase_flash = false;
            f.erase_hold_ms = 120;
        }
        if self.bars_flash {
            self.bars_flash = false;
            f.bars_hold_ms = 220;
        }
        let blink_on = f.blink_on;
        if f.erase_hold_ms > 0 {
            f.erase_hold_ms = f.erase_hold_ms - 1;
            return crate::panel::one(
                Act::Light {
                    chan: 0,
                    led: Led::Button,
                    color: Color::White,
                    bright: Brightness::High,
                },
            );
        }
        if f.bars_hold_ms > 0 {
            f.bars_hold_ms = f.bars_hold_ms - 1;
            let color = bars_fader_color(self.bars);
            let mut acts = paint_fader_meters(color, fader_from_bars(self.bars), 255);
            if f.bars_hold_ms / 40 % 2 == 0 {
                acts.push(
                    Act::Light { chan: 0, led: Led::Button, color, bright: Brightness::High },
                );
            } else {
                acts.push(Act::Dark { chan: 0, led: Led::Button });
            }
            assert(acts@ =~= s0.frame_acts(f0, layer, blink_on, tick, level));
            return acts;
        }
        match layer {
            LatchLayer::Alt => {
                let v: u16 = self.store.decay_saved;
                paint_fader_meters(decay_fader_color(v), v, (v / 16 % 256) as u8)
            },
            LatchLayer::Third => paint_fader_meters(
                decay_mode_color(self.decay_mode),
                fader_from_decay_mode(self.decay_mode),
                255,
            ),
            LatchLayer::Main => {
                let mut acts: Vec<Act> = Vec::new();
                if self.store.muted {
                    acts.push(
                        Act::Light {
                            chan: 0,
                            led: Led::Button,
                            color: Color::Red,
                            bright: Brightness::Low,
                        },
                    );
                    acts.push(Act::Dark { chan: 0, led: Led::Top });
                    acts.push(Act::Dark { chan: 0, led: Led::Bottom });
                } else {
                    let main: u16 = self.store.main_saved;
                    let capturing = self.flash_until > tick;
                    acts.push(
                        Act::Meter {
                            chan: 0,
                            color: spectrum_color(main),
                            level: main,
                            top_floor: 8,
                            bottom_floor: 8,
                        },
                    );
                    let left: u16 = level as u16 * 20 / 100;
                    let bright = if capturing {
                        Brightness::Custom(if left < 1 { 1 } else { left as u8 })
                    } else {
                        button_brightness(self.store.armed, blink_on)
                    };
                    acts.push(
                        Act::Light {
                            chan: 0,
                            led: Led::Button,
                            color: mode_color(self.mode),
                            bright,
                        },
                    );
                    if capturing {
                        acts.push(
                            Act::Light {
                                chan: 0,
                                led: Led::Top,
                                color: Color::White,
                                bright: Brightness::High,
                            },
                        );
                    }
                }
                assert(acts@ =~= s0.main_acts(blink_on, tick, level));
                acts
            },
        }
    }

    /// The button goes down, unshifted, in a mode that it gates: play the
    /// resolved pitch.
    pub fn on_gate_press(&mut self, note: u8, tick: u64) -> (acts: Vec<Act>)
        requires
            old(self).wf(),
            note <= 127,
        ensures
            final(self).wf(),
            acts@ == old(self).start_acts(note, 4095),
            final(self).same_settings((LoopDeCay { glide_frames_left: 0, ..*old(self) })),
            final(self).same_playback(*old(self)),
            final(self).live_note == Some(note),
            final(self).rec_open == (old(self).rec_open || old(self).store.armed),
            final(self).buf == if old(self).store.armed {
                old(self).recorded(note, 4095, tick as int)
            } else {
                old(self).buf
            },
            final(self).flash_until == if old(self).store.armed {
                wrap_add(tick, CAPTURE_FLASH_TICKS)
            } else {
                old(self).flash_until
            },
    {
        self.glide_frames_left = 0;
        self.start_note(note, 4095, tick)
    }
}

// ---------------------------------------------------------------------------
// The button
// ---------------------------------------------------------------------------

/// Modes whose notes the button gates.
pub open spec fn gates_notes(mode: int) -> bool {
    mode == 0 || mode == 4
}

/// What a held button is for. The times count the milliseconds so far.
#[derive(Clone, Copy, Debug, PartialEq, Eq, Structural)]
pub enum Press {
    Shifted(u64),
    Muted(u64),
    /// It sounds a note.
    Note,
    Plain(u64),
    /// What the press was for is done; it only has to end.
    Spent,
}

impl Press {
    /// The press is still short.
    pub open spec fn short(self) -> bool {
        match self {
            Press::Shifted(ms) => ms < SHIFT_LONG_MS,
            Press::Muted(ms) => ms < SHIFT_LONG_MS,
            Press::Plain(ms) => ms < SHIFT_LONG_MS,
            _ => true,
        }
    }

    /// The press after one more millisecond.
    pub open spec fn longer(self) -> Press {
        match self {
            Press::Shifted(ms) => if ms + 1 >= SHIFT_LONG_MS {
                Press::Spent
            } else {
                Press::Shifted((ms + 1) as u64)
            },
            Press::Muted(ms) => if ms + 1 >= SHIFT_LONG_MS {
                Press::Spent
            } else {
                Press::Muted((ms + 1) as u64)
            },
            Press::Plain(ms) => if ms + 1 >= SHIFT_LONG_MS {
                Press::Spent
            } else {
                Press::Plain((ms + 1) as u64)
            },
            _ => self,
        }
    }
}

impl LoopDeCay {
    pub open spec fn press_of(self, shift: bool) -> Press {
        if shift {
            Press::Shifted(0)
        } else if self.store.muted {
            Press::Muted(0)
        } else if gates_notes(self.mode as int) {
            Press::Note
        } else {
            Press::Plain(0)
        }
    }

    /// What a press that begins now is for.
    pub fn press_for(&self, shift: bool) -> (r: Press)
        ensures
            r == self.press_of(shift),
            r.short(),
    {
        if shift {
            Press::Shifted(0)
        } else if self.store.muted {
            Press::Muted(0)
        } else if self.mode == 0 || self.mode == 4 {
            Press::Note
        } else {
            Press::Plain(0)
        }
    }

    /// The button has been held for one more millisecond. A press that grows
    /// long acts at once: with shift it mutes or erases, in a mode that the
    /// button does not gate it mutes, and while muted it does nothing.
    pub fn on_held(&mut self, press: Press) -> (r: (Press, Vec<Act>))
        requires
            old(self).wf(),
            press.short(),
        ensures
            final(self).wf(),
            r.0 == press.longer(),
            r.0.short(),
            press is Shifted && r.0 is Spent ==> old(self).mutes_or_erases(*final(self), r.1@),
            press is Plain && r.0 is Spent ==> old(self).mutes(*final(self), r.1@),
            !((press is Shifted || press is Plain) && r.0 is Spent) ==> *final(self) == *old(self)
                && r.1@ == Seq::<Act>::empty(),
    {
        match press {
            Press::Shifted(ms) => if ms + 1 >= SHIFT_LONG_MS {
                let acts = self.on_shift_long();
                (Press::Spent, acts)
            } else {
                (Press::Shifted(ms + 1), Vec::new())
            },
            Press::Muted(ms) => if ms + 1 >= SHIFT_LONG_MS {
                (Press::Spent, Vec::new())
            } else {
                (Press::Muted(ms + 1), Vec::new())
            },
            Press::Plain(ms) => if ms + 1 >= SHIFT_LONG_MS {
                let acts = self.on_long();
                (Press::Spent, acts)
            } else {
                (Press::Plain(ms + 1), Vec::new())
            },
            Press::Note => (Press::Note, Vec::new()),
            Press::Spent => (Press::Spent, Vec::new()),
        }
    }

    /// The button goes up. A short press with shift cycles the loop length, a
    /// short one while muted unmutes, and a press that sounds a note ends it.
    pub fn on_release(&mut self, press: Press, tick: u64) -> (acts: Vec<Act>)
        requires
            old(self).wf(),
            press is Note ==> (old(self).live_note matches Some(n) ==> old(self).ends_cleanly(
                n,
                tick as int,
            )),
        ensures
            final(self).wf(),
            match press {
                Press::Shifted(_) => old(self).cycles_bars(*final(self), acts@),
                Press::Muted(_) => old(self).unmutes(*final(self), acts@),
                Press::Note => old(self).ends_live(*final(self), acts@, tick as int),
                _ => *final(self) == *old(self) && acts@ == Seq::<Act>::empty(),
            },
    {
        match press {
            Press::Shifted(_) => self.on_shift_short(),
            Press::Muted(_) => self.on_muted_short(),
            Press::Note => self.note_off(tick),
            _ => Vec::new(),
        }
    }

    /// What the panel shows first: the button red while muted, else in the
    /// color of the mode, bright while armed. A voltage output starts at zero.
    pub open spec fn start_acts_of(self) -> Seq<Act> {
        seq![
            Act::Light {
                chan: 0,
                led: Led::Button,
                color: if self.store.muted { Color::Red } else { mode_hue(self.mode as int) },
                bright: if self.store.armed && !self.store.muted {
                    Brightness::High
                } else {
                    Brightness::Low
                },
            },
        ] + (if has_cv_out(self.mode as int) {
            seq![Act::Cv { jack: 0, val: 0 }]
        } else {
            Seq::empty()
        })
    }

    pub fn first_acts(&self) -> (acts: Vec<Act>)
        ensures
            acts@ == self.start_acts_of(),
    {
        let color = if self.store.muted {
            Color::Red
        } else {
            mode_color(self.mode)
        };
        let bright = if self.store.armed && !self.store.muted {
            Brightness::High
        } else {
            Brightness::Low
        };
        let mut acts = crate::panel::one(Act::Light { chan: 0, led: Led::Button, color, bright });
        if self.mode == 3 || self.mode == 4 {
            acts.push(Act::Cv { jack: 0, val: 0 });
        }
        assert(acts@ =~= self.start_acts_of());
        acts
    }
}

/// Whether the armed button is to change its brightness: it does so every
/// `ARM_BLINK_MS` milliseconds. Times are in microseconds.
pub fn blink_due(last: &mut u64, now: u64) -> (r: bool)
    ensures
        r == (now - *old(last) >= ARM_BLINK_MS * 1000),
        *final(last) == if r { now } else { *old(last) },
{
    if now >= *last && now - *last >= ARM_BLINK_MS * 1000 {
        *last = now;
        true
    } else {
        false
    }
}

/// A long press acts once: after it has acted, neither holding nor letting go
/// of the button does anything.
pub proof fn long_presses_act_once(press: Press)
    ensures
        press.longer() is Spent ==> press.longer().longer() is Spent,
        press is Spent ==> press.longer() is Spent,
{
}

/// A press that began with shift, while muted or without a note to gate, acts
/// when it has been held for `SHIFT_LONG_MS` milliseconds, and not before.
pub proof fn presses_grow_long_on_time(ms: u64)
    requires
        ms < SHIFT_LONG_MS,
    ensures
        Press::Shifted(ms).longer() is Spent <==> ms + 1 == SHIFT_LONG_MS,
        Press::Muted(ms).longer() is Spent <==> ms + 1 == SHIFT_LONG_MS,
        Press::Plain(ms).longer() is Spent <==> ms + 1 == SHIFT_LONG_MS,
        ms + 1 < SHIFT_LONG_MS ==> Press::Shifted(ms).longer() == Press::Shifted((ms + 1) as u64)
            && Press::Muted(ms).longer() == Press::Muted((ms + 1) as u64)
            && Press::Plain(ms).longer() == Press::Plain((ms + 1) as u64),
{
}

} // verus!
