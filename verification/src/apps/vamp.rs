//! Chord progressions: perform them, capture what was played, or let them run.
//!
//! In Perform the fader scrubs through the genre's progression and the button
//! holds a chord. Everything played is recorded; a tap with shift captures the
//! last bars as a timed clip and plays it. In Auto the progression or the clip
//! runs with the clock.

use crate::apps::scale::{degrees, degrees_ascend, scale_degrees};
use crate::bounded::{
    chord_notes, chord_notes_at, chord_notes_clear, chord_notes_len, chord_notes_new,
    chord_notes_push, degree_list, degree_list_at, degree_list_len, param_values, values_of,
};
use crate::panel::{
    clamp_int, layer_for, layer_of, max_int, min_int, mod_u16, modulated, one, push_all, reads,
    reads_all, Act, Brightness, Color, LatchLayer, Led, MidiOut, ParamSlot, Range, Value,
    VoltPerOct,
};
use vstd::array::spec_array_update;
use vstd::prelude::*;

verus! {

pub const CHANNELS: usize = 1;
pub const PARAMS: usize = 16;

pub const TICKS_PER_BAR: u32 = 96;
/// Captured chords start on this grid of sixteenths.
pub const CAPTURE_QUANT_TICKS: u32 = 6;
pub const NUM_GENRES: usize = 8;
pub const CV_JACK_OUT: usize = 0;
pub const CV_JACK_IN: usize = 1;
pub const DEST_MACRO: usize = 0;
pub const DEST_PANIC: usize = 1;
pub const DEST_COUNT: usize = 2;
/// Rising edges pass this level.
pub const TRIG_HIGH: u16 = 2458;

/// Bars of each capture length.
pub const CAPTURE_BARS: [u32; 5] = [16, 8, 4, 2, 1];
/// Step lengths in clock ticks, slow to fast.
pub const CLOCK_RESOLUTIONS: [u16; 10] = [768, 384, 192, 96, 48, 24, 16, 12, 8, 6];

/// Classic loop of each genre, as degrees from 0 to 6.
pub const PROGRESSIONS: [[u8; 8]; 8] = [
    [0, 3, 0, 4, 0, 3, 0, 4],
    [0, 5, 3, 4, 0, 5, 3, 4],
    [0, 5, 2, 6, 0, 5, 2, 6],
    [0, 6, 5, 6, 0, 6, 5, 6],
    [0, 0, 0, 4, 0, 0, 0, 4],
    [0, 6, 5, 4, 0, 6, 5, 4],
    [0, 2, 5, 6, 0, 2, 5, 6],
    [0, 0, 5, 6, 0, 0, 5, 6],
];

/// Weights of the move from one degree to another, for each genre.
pub const MARKOV: [[[u8; 7]; 7]; 8] = [
    [
        [4, 1, 1, 6, 5, 2, 2],
        [3, 2, 1, 2, 3, 2, 1],
        [2, 2, 2, 2, 2, 3, 2],
        [5, 1, 1, 2, 4, 2, 1],
        [6, 1, 1, 3, 2, 2, 2],
        [3, 2, 2, 2, 2, 2, 3],
        [4, 1, 1, 2, 3, 2, 2],
    ],
    [
        [2, 1, 1, 4, 5, 6, 1],
        [2, 2, 2, 2, 3, 2, 2],
        [2, 2, 2, 3, 2, 3, 2],
        [3, 1, 1, 2, 6, 2, 1],
        [6, 1, 1, 3, 2, 2, 1],
        [3, 1, 2, 5, 3, 2, 1],
        [4, 1, 1, 2, 4, 2, 1],
    ],
    [
        [3, 1, 4, 2, 2, 5, 4],
        [2, 2, 2, 2, 2, 3, 2],
        [3, 1, 2, 2, 2, 4, 3],
        [3, 2, 2, 2, 3, 2, 2],
        [4, 1, 2, 2, 2, 3, 3],
        [4, 1, 3, 2, 2, 2, 3],
        [5, 1, 2, 2, 2, 3, 2],
    ],
    [
        [3, 1, 1, 2, 2, 4, 6],
        [2, 2, 2, 2, 2, 3, 2],
        [2, 2, 2, 2, 2, 3, 3],
        [3, 1, 1, 2, 3, 3, 3],
        [3, 1, 1, 2, 2, 3, 4],
        [4, 1, 1, 2, 2, 2, 5],
        [5, 1, 1, 2, 2, 4, 2],
    ],
    [
        [8, 1, 1, 2, 4, 2, 3],
        [4, 2, 1, 1, 2, 1, 1],
        [3, 1, 2, 1, 2, 1, 2],
        [4, 1, 1, 2, 3, 1, 2],
        [6, 1, 1, 2, 2, 2, 2],
        [4, 1, 1, 2, 2, 2, 3],
        [5, 1, 1, 1, 3, 2, 2],
    ],
    [
        [3, 1, 2, 2, 4, 4, 5],
        [2, 2, 2, 2, 2, 3, 2],
        [2, 2, 2, 2, 3, 3, 2],
        [3, 1, 2, 2, 3, 3, 2],
        [4, 1, 1, 2, 2, 3, 3],
        [4, 1, 2, 2, 3, 2, 4],
        [5, 1, 1, 2, 3, 4, 2],
    ],
    [
        [3, 1, 5, 2, 2, 4, 4],
        [2, 2, 3, 2, 2, 3, 2],
        [3, 2, 2, 2, 2, 4, 3],
        [3, 1, 2, 2, 3, 2, 2],
        [3, 1, 2, 2, 2, 3, 3],
        [4, 1, 3, 2, 2, 2, 4],
        [5, 1, 2, 2, 2, 3, 2],
    ],
    [
        [6, 1, 1, 2, 2, 5, 5],
        [3, 2, 1, 1, 2, 2, 2],
        [3, 1, 2, 1, 2, 2, 2],
        [3, 1, 1, 2, 3, 2, 2],
        [4, 1, 1, 2, 2, 3, 3],
        [4, 1, 1, 2, 2, 2, 5],
        [5, 1, 1, 1, 3, 4, 2],
    ],
];

// ---------------------------------------------------------------------------
// Parameters
// ---------------------------------------------------------------------------

#[derive(Clone, Copy, Debug, PartialEq, Eq, Structural)]
pub struct Params {
    pub midi_out: MidiOut,
    pub midi_channel: u8,
    pub root: u8,
    pub scale: usize,
    pub genre: usize,
    pub voicing: usize,
    pub velocity: i32,
    pub auto_style: usize,
    pub start_mode: usize,
    pub capture_len: usize,
    pub color: Color,
    pub cv_jack: usize,
    pub range: Range,
    pub vpo: VoltPerOct,
    pub cv_dest: usize,
    pub cv_att: i32,
}

/// What the jack does, as far as it is a parameter.
#[derive(Clone, Copy, Debug, PartialEq, Eq, Structural)]
pub struct JackPack {
    pub cv_jack: usize,
    pub range: Range,
    pub vpo: VoltPerOct,
    pub cv_dest: usize,
    pub cv_att: i32,
}

impl JackPack {
    /// A list of fewer than sixteen has an input; a list of thirteen or more
    /// has its destination and attenuation.
    pub open spec fn at(s: Seq<ParamSlot>) -> JackPack {
        if s.len() >= 16 {
            JackPack {
                cv_jack: min_int(s[11].as_index as int, 1) as usize,
                range: s[12].as_range,
                vpo: s[13].as_vpo,
                cv_dest: min_int(s[14].as_index as int, 1) as usize,
                cv_att: clamp_int(s[15].as_int as int, 0, 100) as i32,
            }
        } else if s.len() >= 13 {
            JackPack {
                cv_jack: CV_JACK_IN,
                range: Range::VNeg5To5,
                vpo: VoltPerOct::Standard,
                cv_dest: min_int(s[11].as_index as int, 1) as usize,
                cv_att: clamp_int(s[12].as_int as int, 0, 100) as i32,
            }
        } else {
            JackPack {
                cv_jack: CV_JACK_IN,
                range: Range::VNeg5To5,
                vpo: VoltPerOct::Standard,
                cv_dest: DEST_MACRO,
                cv_att: 100,
            }
        }
    }

    fn read(values: &[ParamSlot]) -> (r: JackPack)
        ensures
            r == JackPack::at(values@),
    {
        if values.len() >= 16 {
            JackPack {
                cv_jack: at_most(values[11].as_index, 1),
                range: values[12].as_range,
                vpo: values[13].as_vpo,
                cv_dest: at_most(values[14].as_index, 1),
                cv_att: percent(values[15].as_int),
            }
        } else if values.len() >= 13 {
            JackPack {
                cv_jack: CV_JACK_IN,
                range: Range::VNeg5To5,
                vpo: VoltPerOct::Standard,
                cv_dest: at_most(values[11].as_index, 1),
                cv_att: percent(values[12].as_int),
            }
        } else {
            JackPack {
                cv_jack: CV_JACK_IN,
                range: Range::VNeg5To5,
                vpo: VoltPerOct::Standard,
                cv_dest: DEST_MACRO,
                cv_att: 100,
            }
        }
    }
}

fn at_most(v: usize, max: usize) -> (r: usize)
    ensures
        r == min_int(v as int, max as int),
{
    if v < max {
        v
    } else {
        max
    }
}

fn percent(v: i32) -> (r: i32)
    ensures
        r == clamp_int(v as int, 0, 100),
{
    if v < 0 {
        0
    } else if v > 100 {
        100
    } else {
        v
    }
}

impl Params {
    pub open spec fn valid(self) -> bool {
        &&& self.genre < NUM_GENRES
        &&& 1 <= self.velocity <= 127
        &&& self.capture_len < 5
        &&& self.cv_jack <= 1
        &&& self.cv_dest <= 1
        &&& 0 <= self.cv_att <= 100
    }

    pub open spec fn values(self) -> Seq<Value> {
        seq![
            Value::MidiOut(self.midi_out),
            Value::MidiChannel(self.midi_channel),
            Value::MidiNote(self.root),
            Value::Enum(self.scale),
            Value::Enum(self.genre),
            Value::Enum(self.voicing),
            Value::I32(self.velocity),
            Value::Enum(self.auto_style),
            Value::Enum(self.start_mode),
            Value::Enum(self.capture_len),
            Value::Color(self.color),
            Value::Enum(self.cv_jack),
            Value::Range(self.range),
            Value::VoltPerOct(self.vpo),
            Value::Enum(self.cv_dest),
            Value::I32(self.cv_att),
        ]
    }

    pub open spec fn with_jack(s: Seq<ParamSlot>, j: JackPack) -> Params {
        Params {
            midi_out: s[0].as_midi_out,
            midi_channel: s[1].as_channel,
            root: s[2].as_note,
            scale: s[3].as_index,
            genre: min_int(s[4].as_index as int, 7) as usize,
            voicing: s[5].as_index,
            velocity: clamp_int(s[6].as_int as int, 1, 127) as i32,
            auto_style: s[7].as_index,
            start_mode: s[8].as_index,
            capture_len: min_int(s[9].as_index as int, 4) as usize,
            color: s[10].as_color,
            cv_jack: j.cv_jack,
            range: j.range,
            vpo: j.vpo,
            cv_dest: j.cv_dest,
            cv_att: j.cv_att,
        }
    }

    pub open spec fn from_slots(s: Seq<ParamSlot>) -> Option<Params> {
        if s.len() < 11 { None } else { Some(Params::with_jack(s, JackPack::at(s))) }
    }

    pub fn from_values(values: &[ParamSlot]) -> (r: Option<Params>)
        ensures
            r == Params::from_slots(values@),
            r matches Some(p) ==> p.valid(),
    {
        if values.len() < 11 {
            return None;
        }
        let j = JackPack::read(values);
        let v: i32 = values[6].as_int;
        Some(
            Params {
                midi_out: values[0].as_midi_out,
                midi_channel: values[1].as_channel,
                root: values[2].as_note,
                scale: values[3].as_index,
                genre: at_most(values[4].as_index, 7),
                voicing: values[5].as_index,
                velocity: if v < 1 {
                    1
                } else if v > 127 {
                    127
                } else {
                    v
                },
                auto_style: values[7].as_index,
                start_mode: values[8].as_index,
                capture_len: at_most(values[9].as_index, 4),
                color: values[10].as_color,
                cv_jack: j.cv_jack,
                range: j.range,
                vpo: j.vpo,
                cv_dest: j.cv_dest,
                cv_att: j.cv_att,
            },
        )
    }

    pub fn to_values(&self) -> (v: heapless::Vec<Value, 16>)
        ensures
            param_values(v) == self.values(),
    {
        let items: [Value; 16] = [
            Value::MidiOut(self.midi_out),
            Value::MidiChannel(self.midi_channel),
            Value::MidiNote(self.root),
            Value::Enum(self.scale),
            Value::Enum(self.genre),
            Value::Enum(self.voicing),
            Value::I32(self.velocity),
            Value::Enum(self.auto_style),
            Value::Enum(self.start_mode),
            Value::Enum(self.capture_len),
            Value::Color(self.color),
            Value::Enum(self.cv_jack),
            Value::Range(self.range),
            Value::VoltPerOct(self.vpo),
            Value::Enum(self.cv_dest),
            Value::I32(self.cv_att),
        ];
        assert(items@ =~= self.values());
        values_of(&items)
    }
}

/// Stored parameters read back as they were.
pub proof fn params_round_trip(p: Params, slots: Seq<ParamSlot>)
    requires
        p.valid(),
        reads_all(slots, p.values()),
    ensures
        Params::from_slots(slots) == Some(p),
{
    assert forall|i: int| 0 <= i < 16 implies reads(#[trigger] slots[i], p.values()[i]) by {}
    let (s0, s1, s2, s3) = (slots[0], slots[1], slots[2], slots[3]);
    let (s4, s5, s6, s7) = (slots[4], slots[5], slots[6], slots[7]);
    let (s8, s9, s10, s11) = (slots[8], slots[9], slots[10], slots[11]);
    let (s12, s13, s14, s15) = (slots[12], slots[13], slots[14], slots[15]);
}

// ---------------------------------------------------------------------------
// Chords
// ---------------------------------------------------------------------------

#[derive(Clone, Copy, Debug, PartialEq, Eq, Structural)]
pub enum Key {
    Ionian,
    Dorian,
    Phrygian,
    Lydian,
    Mixolydian,
    Aeolian,
    Locrian,
    PentatonicMaj,
    PentatonicMin,
}

pub open spec fn key_at(index: int) -> Key {
    if index == 1 {
        Key::Dorian
    } else if index == 2 {
        Key::Phrygian
    } else if index == 3 {
        Key::Lydian
    } else if index == 4 {
        Key::Mixolydian
    } else if index == 5 {
        Key::Aeolian
    } else if index == 6 {
        Key::Locrian
    } else if index == 7 {
        Key::PentatonicMaj
    } else if index == 8 {
        Key::PentatonicMin
    } else {
        Key::Ionian
    }
}

pub fn scale_index_to_key(index: usize) -> (k: Key)
    ensures
        k == key_at(index as int),
{
    match index {
        1 => Key::Dorian,
        2 => Key::Phrygian,
        3 => Key::Lydian,
        4 => Key::Mixolydian,
        5 => Key::Aeolian,
        6 => Key::Locrian,
        7 => Key::PentatonicMaj,
        8 => Key::PentatonicMin,
        _ => Key::Ionian,
    }
}

/// Octave and pitch class of a note: note 60 is C4.
pub fn note_to_pitch(note: u8) -> (r: (i8, u8))
    ensures
        r.0 == min_int(note as int, 127) / 12 - 1,
        r.1 == min_int(note as int, 127) % 12,
{
    let n: u8 = if note < 127 { note } else { 127 };
    ((n / 12) as i8 - 1, n % 12)
}

pub open spec fn velocity_of(vel: int) -> int {
    clamp_int(vel, 1, 127) * 4095 / 127
}

pub fn velocity_12bit(vel_7: i32) -> (r: u16)
    ensures
        r == velocity_of(vel_7 as int),
{
    let v: u32 = if vel_7 < 1 {
        1
    } else if vel_7 > 127 {
        127
    } else {
        vel_7 as u32
    };
    (v * 4095 / 127) as u16
}

/// Semitones above the tonic of a scale's degrees.
pub fn scale_offsets(mask: u16) -> (v: heapless::Vec<u8, 12>)
    ensures
        degree_list(v) == degrees(mask),
{
    scale_degrees(mask)
}

/// Notes of a voicing: three, four for sevenths, five for ninths.
pub open spec fn chord_size(voicing: int) -> int {
    if voicing == 1 {
        4
    } else if voicing == 2 {
        5
    } else {
        3
    }
}

/// Note `v` of a chord: every second degree of the scale from the chord's
/// degree on; the spread voicing takes the upper notes up by octaves.
pub open spec fn chord_note(root: int, scale: Seq<u8>, degree: int, voicing: int, v: int) -> int {
    let d = degree % 7 + 2 * v;
    let n = scale.len() as int;
    let note = clamp_int(root + d / n * 12 + scale[d % n] - scale[0], 0, 127);
    if voicing == 3 && v > 0 { min_int(note + 12 * v, 127) } else { note }
}

pub open spec fn chord(root: int, scale: Seq<u8>, degree: int, voicing: int) -> Seq<u8> {
    Seq::new(
        chord_size(voicing) as nat,
        |v: int| chord_note(root, scale, degree, voicing, v) as u8,
    )
}

fn one_chord_note(root: u8, scale: &heapless::Vec<u8, 12>, degree: u8, voicing: usize, v: usize) -> (r:
    u8)
    requires
        1 <= degree_list(*scale).len() <= 12,
        forall|i: int|
            0 <= i < degree_list(*scale).len() ==> #[trigger] degree_list(*scale)[i] < 12,
        v < 5,
    ensures
        r == chord_note(root as int, degree_list(*scale), degree as int, voicing as int, v as int),
        r <= 127,
{
    let n: usize = degree_list_len(scale);
    let d: usize = degree as usize % 7 + 2 * v;
    let oct: usize = d / n;
    assert(oct <= d) by (nonlinear_arith)
        requires
            oct == d / n,
            n >= 1,
    ;
    let up: u8 = degree_list_at(scale, d % n);
    let low: u8 = degree_list_at(scale, 0);
    let note: i16 = root as i16 + (oct as i16) * 12 + up as i16 - low as i16;
    let note: i16 = if note < 0 {
        0
    } else if note > 127 {
        127
    } else {
        note
    };
    if voicing == 3 && v > 0 {
        let spread: i16 = note + 12 * (v as i16);
        if spread > 127 {
            127
        } else {
            spread as u8
        }
    } else {
        note as u8
    }
}

/// Notes of the chord on a degree (0 to 6) of the scale with a mask.
pub fn build_chord(root: u8, mask: u16, degree: u8, voicing: usize) -> (out: heapless::Vec<u8, 8>)
    ensures
        chord_notes(out) == chord(root as int, degrees(mask), degree as int, voicing as int),
{
    let scale = scale_offsets(mask);
    proof {
        degrees_ascend(mask);
    }
    let size: usize = match voicing {
        1 => 4,
        2 => 5,
        _ => 3,
    };
    let mut out = chord_notes_new();
    let ghost all = chord(root as int, degrees(mask), degree as int, voicing as int);
    let mut v: usize = 0;
    assert(chord_notes(out) =~= all.subrange(0, 0));
    while v < size
        invariant
            v <= size <= 5,
            size == chord_size(voicing as int),
            all == chord(root as int, degrees(mask), degree as int, voicing as int),
            degree_list(scale) == degrees(mask),
            1 <= degrees(mask).len() <= 12,
            forall|i: int| 0 <= i < degrees(mask).len() ==> #[trigger] degrees(mask)[i] < 12,
            chord_notes(out) == all.subrange(0, v as int),
        decreases size - v,
    {
        let note: u8 = one_chord_note(root, &scale, degree, voicing, v);
        chord_notes_push(&mut out, note);
        v = v + 1;
        assert(chord_notes(out) =~= all.subrange(0, v as int));
    }
    assert(all.subrange(0, v as int) =~= all);
    out
}

/// Every note of a chord is a MIDI note, and the first chord starts on the
/// root.
pub proof fn chords_are_playable(root: int, mask: u16, degree: int, voicing: int, v: int)
    requires
        0 <= root <= 127,
        0 <= degree,
        0 <= v < chord_size(voicing),
    ensures
        0 <= chord_note(root, degrees(mask), degree, voicing, v) <= 127,
        chord_note(root, degrees(mask), 0, voicing, 0) == root,
{
    degrees_ascend(mask);
    let n = degrees(mask).len() as int;
    assert(0int / n == 0 && 0int % n == 0) by (nonlinear_arith)
        requires
            n >= 1,
    ;
}

// ---------------------------------------------------------------------------
// Genres
// ---------------------------------------------------------------------------

/// Chord habits of a genre.
#[derive(Clone, Copy, Debug, PartialEq, Eq)]
pub struct GenrePreset {
    /// Its classic loop.
    pub progression: [u8; 8],
    /// Weights of the moves between degrees.
    pub markov: [[u8; 7]; 7],
}

impl GenrePreset {
    pub fn get(index: usize) -> (r: Self)
        ensures
            r.progression == PROGRESSIONS[min_int(index as int, 7)],
            r.markov == MARKOV[min_int(index as int, 7)],
    {
        let i: usize = if index < 7 { index } else { 7 };
        GenrePreset { progression: PROGRESSIONS[i], markov: MARKOV[i] }
    }
}

pub open spec fn genre_hue(g: int) -> Color {
    if g == 0 {
        Color::Orange
    } else if g == 1 {
        Color::Yellow
    } else if g == 2 {
        Color::Red
    } else if g == 3 {
        Color::Pink
    } else if g == 4 {
        Color::Cyan
    } else if g == 5 {
        Color::Violet
    } else if g == 6 {
        Color::Green
    } else if g == 7 {
        Color::Blue
    } else {
        Color::Rose
    }
}

/// Colour of a genre, or of the captured clip.
pub fn genre_color(g: usize) -> (c: Color)
    ensures
        c == genre_hue(g as int),
{
    match g {
        0 => Color::Orange,
        1 => Color::Yellow,
        2 => Color::Red,
        3 => Color::Pink,
        4 => Color::Cyan,
        5 => Color::Violet,
        6 => Color::Green,
        7 => Color::Blue,
        _ => Color::Rose,
    }
}

/// Sum of the first weights.
pub open spec fn weight_sum(w: Seq<u8>, n: int) -> int
    decreases n,
{
    if n <= 0 { 0 } else { weight_sum(w, n - 1) + w[n - 1] }
}

/// First entry whose share of the weights holds a number, from entry `i` on.
pub open spec fn share_of(w: Seq<u8>, pick: int, i: int) -> int
    decreases 7 - i,
{
    if i >= 7 {
        6
    } else if pick < w[i] {
        i
    } else {
        share_of(w, pick - w[i], i + 1)
    }
}

/// Entry that a roll of the die picks by weight.
pub open spec fn weighted(w: Seq<u8>, roll: int) -> Option<int> {
    let total = weight_sum(w, 7);
    if total == 0 { None } else { Some(share_of(w, roll * total / 4096, 0)) }
}

pub fn pick_weighted(weights: &[u8; 7], roll: u16) -> (r: Option<u8>)
    ensures
        match r {
            Some(i) => weighted(weights@, roll as int) == Some(i as int) && i < 7,
            None => weighted(weights@, roll as int) is None,
        },
{
    let mut total: u32 = 0;
    let mut i: usize = 0;
    while i < 7
        invariant
            i <= 7,
            total == weight_sum(weights@, i as int),
            total <= 255 * i,
        decreases 7 - i,
    {
        total = total + weights[i] as u32;
        i = i + 1;
    }
    if total == 0 {
        return None;
    }
    assert(0 <= roll * total <= 65535 * 1785) by (nonlinear_arith)
        requires
            roll <= 65535,
            total <= 1785,
    ;
    let mut pick: u32 = roll as u32 * total / 4096;
    let ghost first = pick as int;
    i = 0;
    while i < 7
        invariant
            i <= 7,
            total == weight_sum(weights@, 7),
            total > 0,
            first == roll * total / 4096,
            share_of(weights@, first, 0) == share_of(weights@, pick as int, i as int),
        decreases 7 - i,
    {
        if pick < weights[i] as u32 {
            return Some(i as u8);
        }
        pick = pick - weights[i] as u32;
        i = i + 1;
    }
    Some(6)
}

/// Degree after a degree: by the weights of the genre.
pub open spec fn markov_next(from: int, m: [[u8; 7]; 7], roll: int) -> int {
    match weighted(m[from % 7]@, roll) {
        Some(i) => i,
        None => from,
    }
}

pub fn pick_markov(from: u8, weights: &[[u8; 7]; 7], roll: u16) -> (r: u8)
    ensures
        r == markov_next(from as int, *weights, roll as int),
        from < 7 ==> r < 7,
{
    let row: [u8; 7] = weights[from as usize % 7];
    match pick_weighted(&row, roll) {
        Some(i) => i,
        None => from,
    }
}

proof fn share_has_weight(w: Seq<u8>, pick: int, i: int)
    requires
        w.len() == 7,
        0 <= i <= 7,
        0 <= pick < weight_sum(w, 7) - weight_sum(w, i),
    ensures
        i <= share_of(w, pick, i) < 7,
        w[share_of(w, pick, i)] > 0,
    decreases 7 - i,
{
    if i < 7 {
        assert(weight_sum(w, i + 1) == weight_sum(w, i) + w[i]);
        if pick >= w[i] {
            share_has_weight(w, pick - w[i], i + 1);
        }
    }
}

/// A move of weight zero is never made, whatever the die rolls (twelve bits).
pub proof fn impossible_moves_are_never_made(w: Seq<u8>, roll: int)
    requires
        w.len() == 7,
        0 <= roll < 4096,
        weight_sum(w, 7) > 0,
    ensures
        weighted(w, roll) is Some,
        0 <= weighted(w, roll)->0 < 7,
        w[weighted(w, roll)->0] > 0,
{
    let total = weight_sum(w, 7);
    assert(0 <= roll * total <= 4095 * total) by (nonlinear_arith)
        requires
            0 <= roll <= 4095,
            total > 0,
    ;
    share_has_weight(w, roll * total / 4096, 0);
}

/// Slots that hold a classic loop, and nothing after it.
pub open spec fn is_classic(slots: Seq<u8>, genre: int) -> bool {
    forall|i: int|
        0 <= i < 32 ==> #[trigger] slots[i] == if i < 8 {
            PROGRESSIONS[min_int(genre, 7)][i]
        } else {
            0
        }
}

/// Load the classic loop of a genre. Returns its length.
pub fn load_classic_into(slots: &mut [u8; 32], genre: usize) -> (n: u8)
    ensures
        n == 8,
        is_classic(final(slots)@, genre as int),
{
    let g = GenrePreset::get(genre);
    let mut i: usize = 0;
    while i < 32
        invariant
            i <= 32,
            g.progression == PROGRESSIONS[min_int(genre as int, 7)],
            forall|k: int|
                0 <= k < i ==> #[trigger] slots@[k] == if k < 8 {
                    PROGRESSIONS[min_int(genre as int, 7)][k]
                } else {
                    0
                },
        decreases 32 - i,
    {
        slots[i] = if i < 8 { g.progression[i] } else { 0 };
        i = i + 1;
    }
    8
}

/// Rolls of the die for a seed.
#[derive(Clone, Copy, Debug, PartialEq, Eq)]
pub struct SeedRolls {
    /// Below 820 of 4096 the classic loop is taken.
    pub classic: u16,
    /// Below 2700 the walk starts on the tonic, else where `start` says.
    pub tonic: u16,
    pub start: u16,
    /// One for each step of the walk.
    pub steps: [u16; 8],
    /// Below 1600 a phrase of four goes back to the tonic.
    pub phrase: [u16; 2],
    /// Below 2200 the last slot leads back, as `lead` says.
    pub ending: u16,
    pub lead: u16,
}

/// Degree of slot `i` in a walk.
pub open spec fn walk(genre: int, r: SeedRolls, i: int) -> int
    decreases i,
{
    let m = MARKOV[min_int(genre, 7)];
    if i <= 0 {
        if r.tonic < 2700 { 0 } else {
            match weighted(m[0]@, r.start as int) {
                Some(d) => d,
                None => 0,
            }
        }
    } else if i % 4 == 0 && r.phrase[i / 4 - 1] < 1600 {
        0
    } else {
        markov_next(walk(genre, r, i - 1), m, r.steps[i - 1] as int)
    }
}

/// Slots that a seed gives: a classic loop, or a walk of eight degrees that
/// often ends on the dominant or the leading tone.
pub open spec fn is_seeded(slots: Seq<u8>, genre: int, r: SeedRolls) -> bool {
    if r.classic < 820 {
        is_classic(slots, genre)
    } else {
        forall|i: int|
            0 <= i < 32 ==> #[trigger] slots[i] == if i >= 8 {
                0
            } else if i == 7 && r.ending < 2200 {
                if r.lead < 2048 { 4 } else { 6int }
            } else {
                walk(genre, r, i)
            }
    }
}

/// Seed a progression in a genre. Returns its length.
pub fn seed_genre_into(slots: &mut [u8; 32], genre: usize, r: &SeedRolls) -> (n: u8)
    ensures
        n == 8,
        is_seeded(final(slots)@, genre as int, *r),
{
    if r.classic < 820 {
        return load_classic_into(slots, genre);
    }
    let g = GenrePreset::get(genre);
    let mut deg: u8 = if r.tonic < 2700 {
        0
    } else {
        let row: [u8; 7] = g.markov[0];
        match pick_weighted(&row, r.start) {
            Some(d) => d,
            None => 0,
        }
    };
    let mut i: usize = 0;
    while i < 8
        invariant
            i <= 8,
            g.markov == MARKOV[min_int(genre as int, 7)],
            deg < 7,
            i < 8 ==> deg == walk(genre as int, *r, i as int),
            forall|k: int| 0 <= k < i ==> #[trigger] slots@[k] == walk(genre as int, *r, k),
        decreases 8 - i,
    {
        slots[i] = deg;
        if (i + 1) % 4 == 0 && r.phrase[(i + 1) / 4 - 1] < 1600 {
            deg = 0;
        } else {
            deg = pick_markov(deg, &g.markov, r.steps[i]);
        }
        i = i + 1;
    }
    while i < 32
        invariant
            8 <= i <= 32,
            forall|k: int|
                0 <= k < i ==> #[trigger] slots@[k] == if k >= 8 {
                    0
                } else {
                    walk(genre as int, *r, k)
                },
        decreases 32 - i,
    {
        slots[i] = 0;
        i = i + 1;
    }
    if r.ending < 2200 {
        slots[7] = if r.lead < 2048 { 4 } else { 6 };
    }
    8
}

proof fn walk_in_range(genre: int, r: SeedRolls, i: int)
    requires
        0 <= genre,
        0 <= i <= 8,
    ensures
        0 <= walk(genre, r, i) < 7,
    decreases i,
{
    let m = MARKOV[min_int(genre, 7)];
    if i > 0 {
        walk_in_range(genre, r, i - 1);
        let row = m[walk(genre, r, i - 1) % 7]@;
        share_in_range(row, r.steps[i - 1] as int * weight_sum(row, 7) / 4096, 0);
    } else {
        share_in_range(m[0]@, r.start as int * weight_sum(m[0]@, 7) / 4096, 0);
    }
}

proof fn share_in_range(w: Seq<u8>, pick: int, i: int)
    requires
        0 <= i <= 7,
    ensures
        0 <= share_of(w, pick, i) < 7,
    decreases 7 - i,
{
    if i < 7 && pick >= w[i] {
        share_in_range(w, pick - w[i], i + 1);
    }
}

proof fn progressions_in_range(g: int, i: int)
    requires
        0 <= g < 8,
        0 <= i < 8,
    ensures
        PROGRESSIONS[g][i] < 7,
{
}

/// Whatever the die rolls, a seeded progression holds degrees of the scale
/// only.
pub proof fn seeds_hold_degrees(slots: Seq<u8>, genre: int, r: SeedRolls, i: int)
    requires
        is_seeded(slots, genre, r),
        0 <= genre,
        0 <= i < 32,
    ensures
        slots[i] < 7,
{
    if i < 8 {
        progressions_in_range(min_int(genre, 7), i);
        walk_in_range(genre, r, i);
    }
    assert(slots[i] == slots[i]);
}

/// Fader position in the middle of a bucket.
pub open spec fn bucket_center(index: int, picks: int) -> int {
    let p = max_int(picks, 1);
    (2 * min_int(index, p - 1) + 1) * 4095 / (2 * p)
}

pub fn genre_fader_center(index: usize, picks: usize) -> (r: u16)
    requires
        2 * picks <= u32::MAX,
        (2 * min_int(index as int, max_int(picks as int, 1) - 1) + 1) * 4095 <= u32::MAX,
    ensures
        r == bucket_center(index as int, picks as int),
        r <= 4095,
{
    let p: u32 = if picks < 1 { 1 } else { picks as u32 };
    let i: u32 = if (index as u64) < (p as u64) - 1 { index as u32 } else { p - 1 };
    let c: u32 = (2 * i + 1) * 4095 / (2 * p);
    assert(c <= 4095) by (nonlinear_arith)
        requires
            c == ((2 * i + 1) * 4095) / (2 * p),
            i < p,
            p >= 1,
    ;
    c as u16
}

// ---------------------------------------------------------------------------
// Ring of what was played, and clips
// ---------------------------------------------------------------------------

/// Difference on a counter of 32 bits.
pub open spec fn wrap_sub(a: u32, b: u32) -> int {
    (a - b) % 0x1_0000_0000
}

/// Chords that were played, the oldest overwritten first.
#[derive(Clone, Copy, Debug, PartialEq, Eq)]
pub struct Ring {
    pub deg: [u8; 64],
    pub on: [u32; 64],
    /// Zero while the chord is held.
    pub off: [u32; 64],
    pub write: usize,
    pub len: usize,
    /// The chord that is held.
    pub open: Option<usize>,
}

impl Ring {
    pub open spec fn wf(self) -> bool {
        &&& self.write < 64
        &&& self.len <= 64
        &&& self.open matches Some(i) ==> i < 64
    }

    pub fn new() -> (r: Self)
        ensures
            r.wf(),
            r.len == 0 && r.write == 0 && r.open is None,
            forall|k: int| 0 <= k < 64 ==> #[trigger] r.deg[k] == 0,
            forall|k: int| 0 <= k < 64 ==> #[trigger] r.on[k] == 0,
            forall|k: int| 0 <= k < 64 ==> #[trigger] r.off[k] == 0,
    {
        Ring { deg: [0; 64], on: [0; 64], off: [0; 64], write: 0, len: 0, open: None }
    }

    /// Ring with a chord that begins. A chord that is still held ends there.
    pub open spec fn pushed(self, degree: u8, on: u32) -> Ring {
        let off = match self.open {
            Some(i) => if self.off[i as int] == 0 {
                spec_array_update(self.off, i as int, if on < 1 { 1 } else { on })
            } else {
                self.off
            },
            None => self.off,
        };
        let w = self.write as int;
        Ring {
            deg: spec_array_update(self.deg, w, degree),
            on: spec_array_update(self.on, w, on),
            off: spec_array_update(off, w, 0),
            open: Some(self.write),
            write: ((self.write + 1) % 64) as usize,
            len: min_int(self.len + 1, 64) as usize,
        }
    }

    pub fn push_on(&mut self, degree: u8, on: u32)
        requires
            old(self).wf(),
        ensures
            final(self).wf(),
            *final(self) == old(self).pushed(degree, on),
    {
        let ghost s0 = *self;
        match self.open {
            Some(i) => {
                if self.off[i] == 0 {
                    self.off[i] = if on < 1 { 1 } else { on };
                    assert(self.off =~= spec_array_update(
                        s0.off,
                        i as int,
                        if on < 1 {
                            1
                        } else {
                            on
                        },
                    ));
                }
            },
            None => {},
        }
        let ghost s1 = *self;
        let w: usize = self.write;
        self.deg[w] = degree;
        self.on[w] = on;
        self.off[w] = 0;
        assert(self.deg =~= spec_array_update(s0.deg, w as int, degree));
        assert(self.on =~= spec_array_update(s0.on, w as int, on));
        assert(self.off =~= spec_array_update(s1.off, w as int, 0));
        self.open = Some(w);
        self.write = (w + 1) % 64;
        if self.len < 64 {
            self.len = self.len + 1;
        }
    }

    /// Ring with the held chord ended, at least a tick after it began.
    pub open spec fn closed_at(self, off: u32) -> Ring {
        match self.open {
            None => self,
            Some(i) => {
                let least = ((self.on[i as int] + 1) % 0x1_0000_0000) as u32;
                Ring {
                    off: spec_array_update(
                        self.off,
                        i as int,
                        if off > least { off } else { least },
                    ),
                    open: None,
                    ..self
                }
            },
        }
    }

    pub fn close(&mut self, off: u32)
        requires
            old(self).wf(),
        ensures
            final(self).wf(),
            *final(self) == old(self).closed_at(off),
    {
        let ghost s0 = *self;
        match self.open {
            None => {},
            Some(i) => {
                let least: u32 = self.on[i].wrapping_add(1);
                let t: u32 = if off > least { off } else { least };
                self.off[i] = t;
                assert(self.off =~= spec_array_update(s0.off, i as int, t));
                self.open = None;
            },
        }
    }

    /// Place of the `i`-th oldest chord.
    pub open spec fn nth(self, i: int) -> int {
        if self.len < 64 { i } else { (self.write + i) % 64 }
    }
}

/// Nearest multiple of a grid.
pub open spec fn nearest(t: int, grid: int) -> int {
    if grid <= 1 {
        t
    } else {
        let q = t / grid;
        min_int(
            if t % grid * 2 >= grid { min_int(q + 1, u32::MAX as int) } else { q } * grid,
            u32::MAX as int,
        )
    }
}

pub fn quantize_tick_nearest(t: u32, grid: u32) -> (r: u32)
    requires
        grid > 1 ==> t as int % grid as int * 2 <= u32::MAX,
    ensures
        r == nearest(t as int, grid as int),
{
    if grid <= 1 {
        return t;
    }
    let q: u32 = t / grid;
    let rem: u32 = t % grid;
    let q: u32 = if rem * 2 >= grid { q.saturating_add(1) } else { q };
    let v: u64 = {
        assert(0 <= q * grid <= 0xffff_ffff * 0xffff_ffff) by (nonlinear_arith)
            requires
                q <= 0xffff_ffff,
                grid <= 0xffff_ffff,
        ;
        q as u64 * grid as u64
    };
    if v > 0xffff_ffff {
        0xffff_ffff
    } else {
        v as u32
    }
}

/// Snapping moves a tick by at most half a grid, onto a multiple.
pub proof fn snapping_is_nearest(t: int, grid: int)
    requires
        2 <= grid,
        0 <= t,
        t + grid <= u32::MAX,
    ensures
        -grid <= 2 * (nearest(t, grid) - t) <= grid,
        nearest(t, grid) % grid == 0,
{
    let q = t / grid;
    let rem = t % grid;
    assert(q * grid + rem == t && 0 <= rem < grid && 0 <= q <= t) by (nonlinear_arith)
        requires
            q == t / grid,
            rem == t % grid,
            grid >= 2,
            t >= 0,
    ;
    assert((q + 1) * grid == q * grid + grid) by (nonlinear_arith);
    vstd::arithmetic::div_mod::lemma_mod_multiples_basic(q, grid);
    vstd::arithmetic::div_mod::lemma_mod_multiples_basic(q + 1, grid);
}

/// A chord of a clip: its degree, start and length in ticks.
#[derive(Clone, Copy, Debug, PartialEq, Eq, Structural)]
pub struct ClipNote {
    pub deg: u8,
    pub on: u16,
    pub dur: u16,
}

/// A chord of the ring in a clip of the last `window` ticks: those that began
/// in the window and have a length. The start goes to the grid, pulled back
/// where that lies past the end; the length stays as played, cut at the end.
pub open spec fn clip_note(
    window: int,
    now: u32,
    deg: u8,
    on: u32,
    off: u32,
    held: bool,
) -> Option<ClipNote> {
    let end = if off == 0 || held { now } else { off };
    let age = wrap_sub(now, on);
    let dur = wrap_sub(end, on);
    let raw = window - age;
    let snapped = nearest(raw, 6);
    let start = if snapped >= window { window - 6 } else { snapped };
    if age >= window || dur == 0 || dur >= 0x7fff_ffff || raw >= window {
        None
    } else {
        Some(
            ClipNote { deg, on: start as u16, dur: min_int(dur, window - start) as u16 },
        )
    }
}

/// The first thirty-two chords of a clip among the `n` oldest of the ring.
pub open spec fn clip_notes(r: Ring, window: int, now: u32, n: int) -> Seq<ClipNote>
    decreases n,
{
    if n <= 0 {
        Seq::empty()
    } else {
        let rest = clip_notes(r, window, now, n - 1);
        let k = r.nth(n - 1);
        match clip_note(window, now, r.deg[k], r.on[k], r.off[k], r.open == Some(k as usize)) {
            Some(c) => if rest.len() < 32 { rest.push(c) } else { rest },
            None => rest,
        }
    }
}

fn make_clip_note(window: u32, now: u32, deg: u8, on: u32, off: u32, held: bool) -> (r: Option<
    ClipNote,
>)
    requires
        96 <= window <= 65472,
        window % 96 == 0,
    ensures
        r == clip_note(window as int, now, deg, on, off, held),
{
    let age: u32 = now.wrapping_sub(on);
    assert(age == wrap_sub(now, on));
    if age >= window {
        return None;
    }
    let end: u32 = if off == 0 || held { now } else { off };
    let dur: u32 = end.wrapping_sub(on);
    assert(dur == wrap_sub(end, on));
    if dur == 0 || dur >= 0x7fff_ffff {
        return None;
    }
    let raw: u32 = window - age;
    if raw >= window {
        return None;
    }
    let snapped: u32 = quantize_tick_nearest(raw, CAPTURE_QUANT_TICKS);
    let start: u32 = if snapped >= window { window - 6 } else { snapped };
    let room: u32 = window - start;
    let dur: u32 = if dur > room { room } else { dur };
    Some(ClipNote { deg, on: start as u16, dur: dur as u16 })
}

/// The notes of a clip as far as they are there, and their number.
pub open spec fn clip_holds(
    n: int,
    deg: Seq<u8>,
    on: Seq<u16>,
    dur: Seq<u16>,
    notes: Seq<ClipNote>,
) -> bool {
    &&& n == notes.len()
    &&& deg.len() == 32 && on.len() == 32 && dur.len() == 32
    &&& forall|k: int|
        0 <= k < 32 ==> #[trigger] deg[k] == if k < n { notes[k].deg } else { 0 }
    &&& forall|k: int| 0 <= k < 32 ==> #[trigger] on[k] == if k < n { notes[k].on } else { 0 }
    &&& forall|k: int| 0 <= k < 32 ==> #[trigger] dur[k] == if k < n { notes[k].dur } else { 0 }
}

/// A clip of the last bars of the ring.
pub fn build_clip_from_ring(bars: u32, now: u32, ring: &Ring) -> (r: (u8, [u8; 32], [u16; 32], [u16;
    32]))
    requires
        ring.wf(),
        bars <= 682,
    ensures
        r.0 <= 32,
        clip_holds(
            r.0 as int,
            r.1@,
            r.2@,
            r.3@,
            if bars == 0 {
                Seq::empty()
            } else {
                clip_notes(*ring, bars * 96, now, ring.len as int)
            },
        ),
{
    let mut deg: [u8; 32] = [0; 32];
    let mut on: [u16; 32] = [0; 32];
    let mut dur: [u16; 32] = [0; 32];
    let mut n: usize = 0;
    let window: u32 = bars * 96;
    if window == 0 {
        return (0, deg, on, dur);
    }
    let mut i: usize = 0;
    while i < ring.len
        invariant
            i <= ring.len <= 64,
            ring.wf(),
            window == bars * 96,
            1 <= bars <= 682,
            n <= 32,
            clip_holds(
                n as int,
                deg@,
                on@,
                dur@,
                clip_notes(*ring, window as int, now, i as int),
            ),
        decreases ring.len - i,
    {
        let k: usize = if ring.len < 64 { i } else { (ring.write + i) % 64 };
        let held = match ring.open {
            Some(o) => o == k,
            None => false,
        };
        let ghost before = clip_notes(*ring, window as int, now, i as int);
        match make_clip_note(window, now, ring.deg[k], ring.on[k], ring.off[k], held) {
            Some(c) => {
                if n < 32 {
                    deg[n] = c.deg;
                    on[n] = c.on;
                    dur[n] = c.dur;
                    n = n + 1;
                    let ghost after = before.push(c);
                    assert(clip_notes(*ring, window as int, now, i + 1) == after);
                }
            },
            None => {},
        }
        i = i + 1;
    }
    (n as u8, deg, on, dur)
}

/// Every chord of a clip starts on the grid inside the loop, has a length, and
/// ends inside the loop.
pub proof fn clips_fit_their_loop(
    bars: int,
    now: u32,
    deg: u8,
    on: u32,
    off: u32,
    held: bool,
)
    requires
        1 <= bars <= 682,
    ensures
        clip_note(bars * 96, now, deg, on, off, held) matches Some(c) ==> {
            &&& c.deg == deg
            &&& c.on % 6 == 0
            &&& c.dur > 0
            &&& c.on + c.dur <= bars * 96
        },
{
    let window = bars * 96;
    let raw = window - wrap_sub(now, on);
    if 0 <= raw < window {
        snapping_is_nearest(raw, 6);
    }
}

// ---------------------------------------------------------------------------
// Settings
// ---------------------------------------------------------------------------

#[derive(Clone, Copy, Debug, PartialEq, Eq)]
pub struct Storage {
    /// Degrees of the progression.
    pub slots: [u8; 32],
    pub slot_count: u8,
    pub genre: u8,
    pub scrub: u16,
    pub tension: u16,
    pub div_fader: u16,
    pub mode_auto: bool,
    pub meander: bool,
    pub auto_running: bool,
    /// The captured clip.
    pub clip_active: bool,
    pub clip_len: u8,
    pub clip_bars: u8,
    pub clip_deg: [u8; 32],
    pub clip_on: [u16; 32],
    pub clip_dur: [u16; 32],
}

impl Storage {
    pub open spec fn valid(self) -> bool {
        self.slot_count <= 32 && self.clip_len <= 32
    }
}

impl Default for Storage {
    /// The classic loop of House, in Perform.
    fn default() -> (r: Self)
        ensures
            r.valid(),
            is_classic(r.slots@, 3),
            r.slot_count == 8 && r.genre == 3,
            r.scrub == 0 && r.tension == 2048 && r.div_fader == 1536,
            !r.mode_auto && !r.meander && r.auto_running,
            !r.clip_active && r.clip_len == 0 && r.clip_bars == 8,
            forall|k: int| 0 <= k < 32 ==> #[trigger] r.clip_deg[k] == 0,
            forall|k: int| 0 <= k < 32 ==> #[trigger] r.clip_on[k] == 0,
            forall|k: int| 0 <= k < 32 ==> #[trigger] r.clip_dur[k] == 0,
    {
        let mut slots: [u8; 32] = [0; 32];
        let n: u8 = load_classic_into(&mut slots, 3);
        Storage {
            slots,
            slot_count: n,
            genre: 3,
            scrub: 0,
            tension: 2048,
            div_fader: 1536,
            mode_auto: false,
            meander: false,
            auto_running: true,
            clip_active: false,
            clip_len: 0,
            clip_bars: 8,
            clip_deg: [0; 32],
            clip_on: [0; 32],
            clip_dur: [0; 32],
        }
    }
}

// ---------------------------------------------------------------------------
// The running app
// ---------------------------------------------------------------------------

/// The captured clip.
#[derive(Clone, Copy, Debug, PartialEq, Eq)]
pub struct Clip {
    pub active: bool,
    /// It starts with the next bar.
    pub armed: bool,
    /// Tick at which it started.
    pub origin: u32,
    pub len: u8,
    pub bars: u8,
    pub deg: [u8; 32],
    pub on: [u16; 32],
    pub dur: [u16; 32],
}

/// What the clock asks of the voices.
#[derive(Clone, Copy, Debug, PartialEq, Eq, Structural)]
pub struct Pending {
    pub play: bool,
    pub degree: u8,
    pub release: bool,
    pub record: bool,
}

/// State of the app between events, but for the voices.
pub struct Vamp {
    pub root: u8,
    /// Scale mask.
    pub mask: u16,
    pub voicing: usize,
    pub vel: u16,
    pub color: Color,
    pub cv_dest: usize,
    pub capture_bars: u32,
    pub store: Storage,
    pub layer: LatchLayer,
    pub mode_auto: bool,
    pub meander: bool,
    pub running: bool,
    pub scrub: u16,
    pub tension: u16,
    /// Step length in ticks.
    pub div: u32,
    /// Genre that is shown, and the one that was seeded last.
    pub genre: usize,
    pub last_genre: usize,
    pub genre_fader: u16,
    pub slots: [u8; 32],
    pub slot_count: u8,
    pub slot_idx: u8,
    pub degree: u8,
    pub activity: u8,
    pub capture_flash: u8,
    pub loop_flash: u8,
    pub long_press_fired: bool,
    /// Everything is to be silenced.
    pub panic: bool,
    pub cv_val: u16,
    pub prev_gate_high: bool,
    pub chord_held: bool,
    pub ring: Ring,
    pub clip: Clip,
    pub pending: Pending,
    pub auto_step: usize,
    /// Degree that the clock asked for last.
    pub auto_degree: u8,
}

/// What the button went down for.
#[derive(Clone, Copy, Debug, PartialEq, Eq, Structural)]
pub enum Press {
    /// With shift.
    Shifted,
    /// In Auto, without shift.
    Auto,
    /// In Perform: it holds a chord.
    Chord,
}

/// The voices: the chord that sounds.
pub struct Voices {
    pub sounding: heapless::Vec<u8, 8>,
    pub degree: u8,
}

impl Vamp {
    pub open spec fn wf(self) -> bool {
        &&& self.store.valid()
        &&& self.slot_count <= 32
        &&& self.clip.len <= 32
        &&& self.clip.bars >= 1
        &&& self.div >= 2
        &&& self.last_genre < NUM_GENRES
        &&& 1 <= self.capture_bars <= 16
        &&& self.ring.wf()
    }

    /// Slots in use.
    pub open spec fn count(self) -> int {
        max_int(self.slot_count as int, 1)
    }

    pub fn slots_in_use(&self) -> (r: usize)
        ensures
            r == self.count(),
    {
        if self.slot_count < 1 {
            1
        } else {
            self.slot_count as usize
        }
    }

    /// Genres that the fader picks from; the clip is one more where there is
    /// one.
    pub open spec fn picks(self) -> int {
        if self.clip.len > 0 { 9 } else { 8 }
    }

    pub fn genre_picks(&self) -> (r: usize)
        ensures
            r == self.picks(),
    {
        if self.clip.len > 0 {
            9
        } else {
            8
        }
    }

    /// Acts that end the notes of a chord.
    pub open spec fn offs(notes: Seq<u8>) -> Seq<Act> {
        Seq::new(notes.len(), |i: int| Act::NoteOff { out: 0, note: notes[i] })
    }

    pub open spec fn ons(self, notes: Seq<u8>) -> Seq<Act> {
        Seq::new(notes.len(), |i: int| Act::NoteOn { out: 0, note: notes[i], vel: self.vel })
    }

    pub open spec fn chord_of(self, degree: u8) -> Seq<u8> {
        chord(self.root as int, degrees(self.mask), degree as int, self.voicing as int)
    }

    /// The lowest note of the selected chord, for the CV output.
    pub fn cv_note(&self) -> (r: u8)
        ensures
            r == self.chord_of(self.degree)[0],
    {
        let notes = build_chord(self.root, self.mask, self.degree, self.voicing);
        chord_notes_at(&notes, 0)
    }

    /// State after a step of the clip: the last chord that starts at a phase is
    /// played, and a chord that ends there releases.
    pub open spec fn starts_at(self, phase: int, n: int) -> Option<int>
        decreases n,
    {
        if n <= 0 {
            None
        } else if self.clip.on[n - 1] == phase {
            Some(n - 1)
        } else {
            self.starts_at(phase, n - 1)
        }
    }

    pub open spec fn loop_len(self) -> int {
        self.clip.bars * 96
    }

    /// Phase at which a chord of the clip ends: at the latest a tick before the
    /// loop does.
    pub open spec fn end_phase(self, i: int) -> int {
        let end = self.clip.on[i] + self.clip.dur[i];
        if end >= self.loop_len() { self.loop_len() - 1 } else { end }
    }

    pub open spec fn ends_at(self, phase: int, n: int) -> bool {
        exists|i: int|
            0 <= i < n && #[trigger] self.clip.dur[i] > 0 && self.end_phase(i) == phase
    }

    pub open spec fn clip_stepped(self, clk: u32) -> Vamp {
        let phase = wrap_sub(clk, self.clip.origin) % self.loop_len();
        let hit = self.starts_at(phase, self.clip.len as int);
        let degree = match hit {
            Some(i) => self.clip.deg[i],
            None => 0,
        };
        Vamp {
            loop_flash: if phase == 0 { 40 } else { self.loop_flash },
            degree: if hit is Some { degree } else { self.degree },
            auto_degree: if hit is Some { degree } else { self.auto_degree },
            slot_idx: match hit {
                Some(i) => i as u8,
                None => self.slot_idx,
            },
            pending: (Pending {
                play: self.pending.play || hit is Some,
                degree: if hit is Some { degree } else { self.pending.degree },
                release: self.pending.release || self.ends_at(phase, self.clip.len as int),
                record: self.pending.record && hit is None,
            }),
            ..self
        }
    }

    /// Tension, with the CV input where that is its destination.
    pub open spec fn tension_now(self) -> int {
        if self.cv_dest == DEST_MACRO {
            modulated(self.tension as int, self.cv_val as int)
        } else {
            self.tension as int
        }
    }

    /// Degree of the next step: the slot's, or while meandering a move of the
    /// genre, the likelier the higher the tension.
    pub open spec fn next_degree(self, walk_roll: u16, keep_roll: u16) -> u8 {
        let slot = self.slots[self.auto_step as int % self.count()];
        let t = self.tension_now();
        if !self.meander || t <= 512 || (t < 3000 && keep_roll > t) {
            slot
        } else {
            markov_next(
                self.auto_degree as int,
                MARKOV[self.last_genre as int],
                walk_roll as int,
            ) as u8
        }
    }

    /// Tick of a step at which its chord is released: after four fifths.
    pub open spec fn release_tick(self) -> int {
        clamp_int(self.div * 80 / 100, 1, self.div - 1)
    }

    pub open spec fn genre_stepped(self, clk: u32, walk_roll: u16, keep_roll: u16) -> Vamp {
        let d = self.next_degree(walk_roll, keep_roll);
        let phase = clk as int % self.div as int;
        if phase == 0 {
            Vamp {
                auto_degree: d,
                slot_idx: (self.auto_step as int % self.count()) as u8,
                pending: (Pending { degree: d, record: false, play: true, ..self.pending }),
                auto_step: (if self.auto_step == usize::MAX { 0 } else { self.auto_step + 1 }) as usize,
                ..self
            }
        } else if phase == self.release_tick() {
            Vamp { pending: (Pending { release: true, ..self.pending }), ..self }
        } else {
            self
        }
    }

    /// State after a clock tick. Only Auto that is not paused moves; a clip
    /// that is armed waits for the bar.
    pub open spec fn clocked(self, clk: u32, walk_roll: u16, keep_roll: u16) -> Vamp {
        if !(self.mode_auto && self.running) {
            self
        } else if self.clip.active && self.clip.len > 0 {
            if !self.clip.armed {
                self.clip_stepped(clk)
            } else if clk as int % 96 == 0 {
                Vamp {
                    clip: (Clip { origin: clk, armed: false, ..self.clip }),
                    loop_flash: 40,
                    ..self
                }
            } else {
                self
            }
        } else {
            self.genre_stepped(clk, walk_roll, keep_roll)
        }
    }

    /// Chord of the clip that starts at a phase, and whether one ends there.
    fn scan_clip(&self, phase: u32) -> (r: (Option<usize>, bool))
        requires
            self.wf(),
        ensures
            match r.0 {
                Some(k) => self.starts_at(phase as int, self.clip.len as int) == Some(k as int)
                    && k < 32,
                None => self.starts_at(phase as int, self.clip.len as int) is None,
            },
            r.1 == self.ends_at(phase as int, self.clip.len as int),
    {
        let loop_len: u32 = self.clip.bars as u32 * 96;
        let n: usize = self.clip.len as usize;
        let mut hit: Option<usize> = None;
        let mut ends = false;
        let mut i: usize = 0;
        while i < n
            invariant
                i <= n <= 32,
                n == self.clip.len,
                loop_len == self.loop_len(),
                loop_len >= 96,
                match hit {
                    Some(k) => self.starts_at(phase as int, i as int) == Some(k as int) && k < i,
                    None => self.starts_at(phase as int, i as int) is None,
                },
                ends == self.ends_at(phase as int, i as int),
            decreases n - i,
        {
            if self.clip.on[i] as u32 == phase {
                hit = Some(i);
            }
            let end: u32 = self.clip.on[i] as u32 + self.clip.dur[i] as u32;
            let end_phase: u32 = if end >= loop_len { loop_len - 1 } else { end };
            assert(end_phase == self.end_phase(i as int));
            let here = end_phase == phase && self.clip.dur[i] > 0;
            proof {
                self.one_more_end(phase as int, i as int);
            }
            if here {
                ends = true;
            }
            i = i + 1;
        }
        (hit, ends)
    }

    proof fn one_more_end(self, phase: int, i: int)
        requires
            0 <= i < 32,
        ensures
            self.ends_at(phase, i + 1) == (self.ends_at(phase, i) || (self.clip.dur[i] > 0
                && self.end_phase(i) == phase)),
    {
        if self.ends_at(phase, i) {
            let k = choose|k: int|
                0 <= k < i && #[trigger] self.clip.dur[k] > 0 && self.end_phase(k) == phase;
            assert(self.clip.dur[k] > 0);
        }
    }

    fn step_clip(&mut self, clk: u32)
        requires
            old(self).wf(),
        ensures
            final(self).wf(),
            *final(self) == old(self).clip_stepped(clk),
    {
        let loop_len: u32 = self.clip.bars as u32 * 96;
        let since: u32 = clk.wrapping_sub(self.clip.origin);
        assert(since == wrap_sub(clk, self.clip.origin));
        let phase: u32 = since % loop_len;
        let (hit, ends) = self.scan_clip(phase);
        let p = self.pending;
        let (found, k): (bool, usize) = match hit {
            Some(k) => (true, k),
            None => (false, 0),
        };
        let d: u8 = self.clip.deg[k];
        self.loop_flash = if phase == 0 { 40 } else { self.loop_flash };
        self.degree = if found { d } else { self.degree };
        self.auto_degree = if found { d } else { self.auto_degree };
        self.slot_idx = if found { k as u8 } else { self.slot_idx };
        self.pending = Pending {
            play: p.play || found,
            degree: if found { d } else { p.degree },
            release: p.release || ends,
            record: p.record && !found,
        };
    }

    fn step_genre(&mut self, clk: u32, walk_roll: u16, keep_roll: u16)
        requires
            old(self).wf(),
        ensures
            final(self).wf(),
            *final(self) == old(self).genre_stepped(clk, walk_roll, keep_roll),
    {
        let ghost s0 = *self;
        let div: u32 = self.div;
        let phase: u32 = clk % div;
        if phase == 0 {
            let count: usize = self.slots_in_use();
            let at: usize = self.auto_step % count;
            let slot: u8 = self.slots[at];
            let tension: u16 = if self.cv_dest == DEST_MACRO {
                mod_u16(self.tension, self.cv_val)
            } else {
                self.tension
            };
            let d: u8 = if !self.meander || tension <= 512 || (tension < 3000 && keep_roll
                > tension) {
                slot
            } else {
                let g = GenrePreset::get(self.last_genre);
                pick_markov(self.auto_degree, &g.markov, walk_roll)
            };
            self.auto_degree = d;
            self.slot_idx = at as u8;
            self.pending.degree = d;
            self.pending.record = false;
            self.pending.play = true;
            self.auto_step = self.auto_step.wrapping_add(1);
        } else {
            let wide: u64 = div as u64 * 80 / 100;
            let off: u64 = if wide < 1 {
                1
            } else if wide > div as u64 - 1 {
                div as u64 - 1
            } else {
                wide
            };
            if phase as u64 == off {
                self.pending.release = true;
            }
        }
    }

    /// A clock tick. The rolls of the die are for a move of the genre and for
    /// keeping to the slots.
    pub fn on_tick(&mut self, clk: u32, walk_roll: u16, keep_roll: u16)
        requires
            old(self).wf(),
        ensures
            final(self).wf(),
            *final(self) == old(self).clocked(clk, walk_roll, keep_roll),
    {
        if !(self.mode_auto && self.running) {
            return;
        }
        if self.clip.active && self.clip.len > 0 {
            if self.clip.armed {
                if clk % 96 == 0 {
                    self.clip.origin = clk;
                    self.clip.armed = false;
                    self.loop_flash = 40;
                }
            } else {
                self.step_clip(clk);
            }
        } else {
            self.step_genre(clk, walk_roll, keep_roll);
        }
    }

    /// The clock stops or is reset: the chord is released and a clip waits for
    /// the bar again.
    pub fn on_stop(&mut self)
        requires
            old(self).wf(),
        ensures
            final(self).wf(),
            *final(self) == (Vamp {
                pending: (Pending { release: true, ..old(self).pending }),
                auto_step: 0,
                clip: (Clip {
                    armed: old(self).clip.armed || old(self).clip.active,
                    ..old(self).clip
                }),
                ..*old(self)
            }),
    {
        self.pending.release = true;
        self.auto_step = 0;
        if self.clip.active {
            self.clip.armed = true;
        }
    }
}

// ---------------------------------------------------------------------------
// Voices
// ---------------------------------------------------------------------------

/// The app with the notes that sound and what has been sent so far.
pub struct Sound {
    pub vamp: Vamp,
    pub notes: Seq<u8>,
    pub degree: u8,
    pub acts: Seq<Act>,
}

impl Sound {
    /// Every note that sounds is ended.
    pub open spec fn released(self) -> Sound {
        Sound { notes: Seq::empty(), acts: self.acts + Vamp::offs(self.notes), ..self }
    }

    /// A chord takes the place of the one that sounds, and is recorded where it
    /// is played by hand.
    pub open spec fn played(self, degree: u8, record: bool, clk: u32) -> Sound {
        let r = self.released();
        let notes = self.vamp.chord_of(degree);
        Sound {
            vamp: Vamp {
                ring: if record { self.vamp.ring.pushed(degree, clk) } else { self.vamp.ring },
                degree,
                activity: 255,
                ..self.vamp
            },
            notes,
            degree,
            acts: r.acts + self.vamp.ons(notes),
        }
    }

    /// A panic ends all notes, by messages to the whole channel too.
    pub open spec fn calmed(self) -> Sound {
        if !self.vamp.panic {
            self
        } else {
            let r = self.released();
            Sound {
                vamp: Vamp {
                    chord_held: false,
                    pending: (Pending { play: false, release: false, ..self.vamp.pending }),
                    panic: false,
                    activity: 0,
                    ..self.vamp
                },
                acts: r.acts + seq![
                    Act::Cc { out: 0, cc: 120, val: 0 },
                    Act::Cc { out: 0, cc: 123, val: 0 },
                ],
                ..r
            }
        }
    }

    /// What the clock has asked for: first a release, then a chord.
    pub open spec fn let_go(self) -> Sound {
        if !self.vamp.pending.release {
            self
        } else {
            Sound {
                vamp: Vamp {
                    pending: (Pending { release: false, ..self.vamp.pending }),
                    ..self.vamp
                },
                ..self.released()
            }
        }
    }

    pub open spec fn served(self, clk: u32) -> Sound {
        let p = self.vamp.pending;
        if !p.play {
            self
        } else {
            Sound {
                vamp: Vamp {
                    pending: (Pending { play: false, record: false, ..p }),
                    ..self.vamp
                },
                ..self
            }.played(p.degree, p.record, clk)
        }
    }

    /// In Perform a held button sounds the selected chord, and letting go ends
    /// it.
    pub open spec fn performed(self, clk: u32) -> Sound {
        if self.vamp.mode_auto {
            self
        } else if self.vamp.chord_held {
            if self.notes.len() == 0 || self.degree != self.vamp.degree {
                self.played(self.vamp.degree, true, clk)
            } else {
                self
            }
        } else if self.notes.len() > 0 {
            Sound {
                vamp: Vamp { ring: self.vamp.ring.closed_at(clk), ..self.vamp },
                ..self.released()
            }
        } else {
            self
        }
    }

    /// The lights fade.
    pub open spec fn faded(self) -> Sound {
        Sound {
            vamp: Vamp {
                activity: max_int(self.vamp.activity - 8, 0) as u8,
                capture_flash: max_int(self.vamp.capture_flash - 4, 0) as u8,
                loop_flash: max_int(self.vamp.loop_flash - 2, 0) as u8,
                ..self.vamp
            },
            ..self
        }
    }

    /// One millisecond of the voices.
    pub open spec fn stepped(self, clk: u32) -> Sound {
        self.calmed().let_go().served(clk).performed(clk).faded()
    }
}

pub open spec fn sound_of(vamp: Vamp, v: Voices, acts: Seq<Act>) -> Sound {
    Sound { vamp, notes: chord_notes(v.sounding), degree: v.degree, acts }
}

impl Voices {
    /// Nothing sounds.
    pub fn new(degree: u8) -> (r: Self)
        ensures
            chord_notes(r.sounding) == Seq::<u8>::empty(),
            r.degree == degree,
    {
        Voices { sounding: chord_notes_new(), degree }
    }

    fn release_all(&mut self, acts: &mut Vec<Act>)
        ensures
            chord_notes(final(self).sounding) == Seq::<u8>::empty(),
            final(self).degree == old(self).degree,
            final(acts)@ == old(acts)@ + Vamp::offs(chord_notes(old(self).sounding)),
    {
        let ghost a0 = acts@;
        let ghost notes = chord_notes(self.sounding);
        let n: usize = chord_notes_len(&self.sounding);
        let mut i: usize = 0;
        assert(acts@ =~= a0 + Vamp::offs(notes).subrange(0, 0));
        while i < n
            invariant
                i <= n,
                n == notes.len(),
                notes == chord_notes(self.sounding),
                self.degree == old(self).degree,
                acts@ == a0 + Vamp::offs(notes).subrange(0, i as int),
            decreases n - i,
        {
            acts.push(Act::NoteOff { out: 0, note: chord_notes_at(&self.sounding, i) });
            i = i + 1;
            assert(acts@ =~= a0 + Vamp::offs(notes).subrange(0, i as int));
        }
        assert(Vamp::offs(notes).subrange(0, n as int) =~= Vamp::offs(notes));
        chord_notes_clear(&mut self.sounding);
    }
}

impl Vamp {
    fn sound_chord(&self, v: &mut Voices, acts: &mut Vec<Act>, degree: u8)
        requires
            chord_notes(old(v).sounding) == Seq::<u8>::empty(),
        ensures
            chord_notes(final(v).sounding) == self.chord_of(degree),
            final(v).degree == degree,
            final(acts)@ == old(acts)@ + self.ons(self.chord_of(degree)),
    {
        let ghost a0 = acts@;
        let notes = build_chord(self.root, self.mask, degree, self.voicing);
        let ghost all = chord_notes(notes);
        let n: usize = chord_notes_len(&notes);
        let mut i: usize = 0;
        v.degree = degree;
        assert(acts@ =~= a0 + self.ons(all).subrange(0, 0));
        assert(chord_notes(v.sounding) =~= all.subrange(0, 0));
        while i < n
            invariant
                i <= n <= 8,
                n == all.len(),
                all == chord_notes(notes),
                v.degree == degree,
                acts@ == a0 + self.ons(all).subrange(0, i as int),
                chord_notes(v.sounding) == all.subrange(0, i as int),
            decreases n - i,
        {
            let note: u8 = chord_notes_at(&notes, i);
            acts.push(Act::NoteOn { out: 0, note, vel: self.vel });
            chord_notes_push(&mut v.sounding, note);
            i = i + 1;
            assert(acts@ =~= a0 + self.ons(all).subrange(0, i as int));
            assert(chord_notes(v.sounding) =~= all.subrange(0, i as int));
        }
        assert(self.ons(all).subrange(0, n as int) =~= self.ons(all));
        assert(all.subrange(0, n as int) =~= all);
    }

    fn play_degree(&mut self, v: &mut Voices, acts: &mut Vec<Act>, degree: u8, record: bool, clk: u32)
        requires
            old(self).wf(),
        ensures
            final(self).wf(),
            sound_of(*final(self), *final(v), final(acts)@) == sound_of(
                *old(self),
                *old(v),
                old(acts)@,
            ).played(degree, record, clk),
    {
        v.release_all(acts);
        self.sound_chord(v, acts, degree);
        if record {
            self.ring.push_on(degree, clk);
        }
        self.degree = degree;
        self.activity = 255;
    }

    fn calm(&mut self, v: &mut Voices, acts: &mut Vec<Act>)
        requires
            old(self).wf(),
        ensures
            final(self).wf(),
            sound_of(*final(self), *final(v), final(acts)@) == sound_of(
                *old(self),
                *old(v),
                old(acts)@,
            ).calmed(),
    {
        if self.panic {
            v.release_all(acts);
            let ghost a1 = acts@;
            acts.push(Act::Cc { out: 0, cc: 120, val: 0 });
            acts.push(Act::Cc { out: 0, cc: 123, val: 0 });
            assert(acts@ =~= a1 + seq![
                Act::Cc { out: 0, cc: 120, val: 0 },
                Act::Cc { out: 0, cc: 123, val: 0 },
            ]);
            self.chord_held = false;
            self.pending.play = false;
            self.pending.release = false;
            self.panic = false;
            self.activity = 0;
        }
    }

    fn serve(&mut self, v: &mut Voices, acts: &mut Vec<Act>, clk: u32)
        requires
            old(self).wf(),
        ensures
            final(self).wf(),
            sound_of(*final(self), *final(v), final(acts)@) == sound_of(
                *old(self),
                *old(v),
                old(acts)@,
            ).let_go().served(clk),
    {
        if self.pending.release {
            self.pending.release = false;
            v.release_all(acts);
        }
        if self.pending.play {
            let (degree, record): (u8, bool) = (self.pending.degree, self.pending.record);
            self.pending.play = false;
            self.pending.record = false;
            self.play_degree(v, acts, degree, record, clk);
        }
    }

    fn perform(&mut self, v: &mut Voices, acts: &mut Vec<Act>, clk: u32)
        requires
            old(self).wf(),
        ensures
            final(self).wf(),
            sound_of(*final(self), *final(v), final(acts)@) == sound_of(
                *old(self),
                *old(v),
                old(acts)@,
            ).performed(clk),
    {
        if self.mode_auto {
            return;
        }
        let silent = chord_notes_len(&v.sounding) == 0;
        if self.chord_held {
            if silent || v.degree != self.degree {
                let degree: u8 = self.degree;
                self.play_degree(v, acts, degree, true, clk);
            }
        } else if !silent {
            self.ring.close(clk);
            v.release_all(acts);
        }
    }

    /// One millisecond of the voices.
    pub fn on_voices(&mut self, v: &mut Voices, clk: u32) -> (acts: Vec<Act>)
        requires
            old(self).wf(),
        ensures
            final(self).wf(),
            sound_of(*final(self), *final(v), acts@) == sound_of(
                *old(self),
                *old(v),
                Seq::empty(),
            ).stepped(clk),
    {
        let mut acts: Vec<Act> = Vec::new();
        let ghost start = sound_of(*self, *v, Seq::empty());
        assert(acts@ =~= Seq::<Act>::empty());
        self.calm(v, &mut acts);
        self.serve(v, &mut acts, clk);
        self.perform(v, &mut acts, clk);
        assert(sound_of(*self, *v, acts@) == start.calmed().let_go().served(clk).performed(clk));
        self.activity = self.activity.saturating_sub(8);
        self.capture_flash = self.capture_flash.saturating_sub(4);
        self.loop_flash = self.loop_flash.saturating_sub(2);
        acts
    }
}

/// The millisecond that answers a panic ends in silence.
pub proof fn panic_silences(s: Sound, clk: u32)
    requires
        s.vamp.panic,
    ensures
        s.stepped(clk).notes == Seq::<u8>::empty(),
        !s.stepped(clk).vamp.panic,
{
}

/// Notes are balanced: whatever was sounding is ended before a chord begins.
pub proof fn chords_replace_each_other(s: Sound, degree: u8, record: bool, clk: u32)
    ensures
        s.played(degree, record, clk).acts == s.acts + Vamp::offs(s.notes) + s.vamp.ons(
            s.vamp.chord_of(degree),
        ),
        s.played(degree, record, clk).notes == s.vamp.chord_of(degree),
{
}

// ---------------------------------------------------------------------------
// Start, buttons, fader, input and scenes
// ---------------------------------------------------------------------------

impl Vamp {
    /// The stored settings have never been touched.
    pub open spec fn pristine(s: Storage) -> bool {
        !s.mode_auto && !s.auto_running && s.scrub == 0 && s.tension == 2048 && s.div_fader == 1536
    }

    /// Start with the stored settings. `mask` is the scale, `div` the step
    /// length of the stored fader in ticks, and `idx` the slot that the stored
    /// scrub selects.
    pub fn new(params: Params, store: Storage, mask: u16, div: u32, idx: usize) -> (r: Self)
        requires
            params.valid(),
            store.valid(),
            div >= 2,
            idx < if store.slot_count == 0 { 8 } else { store.slot_count as int },
        ensures
            r.wf(),
            r.store == store,
            r.root == params.root && r.mask == mask && r.voicing == params.voicing,
            r.vel == velocity_of(params.velocity as int) && r.color == params.color,
            r.cv_dest == params.cv_dest,
            r.capture_bars == CAPTURE_BARS[params.capture_len as int],
            store.slot_count > 0 ==> r.slots == store.slots && r.slot_count == store.slot_count,
            store.slot_count == 0 ==> is_classic(r.slots@, params.genre as int) && r.slot_count
                == 8,
            r.mode_auto == (store.mode_auto || (Vamp::pristine(store) && params.start_mode == 1)),
            r.meander == (store.meander || params.auto_style == 1),
            r.running == store.auto_running,
            r.scrub == store.scrub && r.tension == store.tension && r.div == div,
            ({
                let genre = if store.genre < 8 { store.genre as int } else { params.genre as int };
                let clip = store.clip_active && store.clip_len > 0;
                &&& r.last_genre == genre
                &&& r.genre == if clip { 8 } else { genre }
                &&& r.genre_fader == if clip { bucket_center(8, 9) } else { bucket_center(genre, 8) }
                &&& r.clip == (Clip {
                    active: clip,
                    armed: false,
                    origin: 0,
                    len: store.clip_len,
                    bars: max_int(store.clip_bars as int, 1) as u8,
                    deg: store.clip_deg,
                    on: store.clip_on,
                    dur: store.clip_dur,
                })
            }),
            r.slot_idx == idx && r.degree == r.slots[idx as int] && r.auto_degree == r.degree,
            r.ring.len == 0 && r.ring.open is None,
            !r.pending.play && !r.pending.release && !r.panic && !r.chord_held,
            r.auto_step == 0 && r.cv_val == 2047,
            r.layer == LatchLayer::Main && r.ring.write == 0,
            r.activity == 0 && r.capture_flash == 0 && r.loop_flash == 0,
            !r.long_press_fired && !r.prev_gate_high && !r.pending.record,
    {
        let mut slots: [u8; 32] = store.slots;
        let mut slot_count: u8 = store.slot_count;
        if slot_count == 0 {
            slot_count = load_classic_into(&mut slots, params.genre);
        }
        let genre: usize = if store.genre < 8 { store.genre as usize } else { params.genre };
        let clip = store.clip_active && store.clip_len > 0;
        let shown: usize = if clip { 8 } else { genre };
        let genre_fader: u16 = genre_fader_center(
            shown,
            if clip {
                9
            } else {
                8
            },
        );
        let pristine = !store.mode_auto && !store.auto_running && store.scrub == 0 && store.tension
            == 2048 && store.div_fader == 1536;
        let degree: u8 = slots[idx];
        Vamp {
            root: params.root,
            mask,
            voicing: params.voicing,
            vel: velocity_12bit(params.velocity),
            color: params.color,
            cv_dest: params.cv_dest,
            capture_bars: CAPTURE_BARS[params.capture_len],
            store,
            layer: LatchLayer::Main,
            mode_auto: store.mode_auto || (pristine && params.start_mode == 1),
            meander: store.meander || params.auto_style == 1,
            running: store.auto_running,
            scrub: store.scrub,
            tension: store.tension,
            div,
            genre: shown,
            last_genre: genre,
            genre_fader,
            slots,
            slot_count,
            slot_idx: idx as u8,
            degree,
            activity: 0,
            capture_flash: 0,
            loop_flash: 0,
            long_press_fired: false,
            panic: false,
            cv_val: 2047,
            prev_gate_high: false,
            chord_held: false,
            ring: Ring::new(),
            clip: Clip {
                active: clip,
                armed: false,
                origin: 0,
                len: store.clip_len,
                bars: if store.clip_bars < 1 {
                    1
                } else {
                    store.clip_bars
                },
                deg: store.clip_deg,
                on: store.clip_on,
                dur: store.clip_dur,
            },
            pending: Pending { play: false, degree: 0, release: false, record: false },
            auto_step: 0,
            auto_degree: degree,
        }
    }

    /// The button goes down. In Perform without shift it holds the chord of the
    /// slot `idx` that the scrub selects. Returns what it went down for.
    pub fn on_down(&mut self, shift: bool, idx: usize) -> (press: Press)
        requires
            old(self).wf(),
            idx < old(self).count(),
        ensures
            final(self).wf(),
            press == if shift {
                Press::Shifted
            } else if old(self).mode_auto {
                Press::Auto
            } else {
                Press::Chord
            },
            *final(self) == (Vamp {
                long_press_fired: false,
                slot_idx: if press is Chord { idx as u8 } else { old(self).slot_idx },
                degree: if press is Chord { old(self).slots[idx as int] } else { old(self).degree },
                chord_held: press is Chord || old(self).chord_held,
                ..*old(self)
            }),
    {
        self.long_press_fired = false;
        if shift {
            Press::Shifted
        } else if self.mode_auto {
            Press::Auto
        } else {
            self.slot_idx = idx as u8;
            self.degree = self.slots[idx];
            self.chord_held = true;
            Press::Chord
        }
    }

    /// The button goes up after a press that held a chord.
    pub fn on_perform_up(&mut self)
        requires
            old(self).wf(),
        ensures
            final(self).wf(),
            *final(self) == (Vamp { chord_held: false, ..*old(self) }),
    {
        self.chord_held = false;
    }

    /// State after a press in Auto: a short one plays or pauses.
    pub open spec fn toggled(self) -> Vamp {
        let playing = !self.running;
        if self.long_press_fired {
            self
        } else {
            Vamp {
                running: playing,
                pending: (Pending { release: self.pending.release || !playing, ..self.pending }),
                store: (Storage { auto_running: playing, ..self.store }),
                ..self
            }
        }
    }

    /// The button goes up in Auto after a press without shift: a short one
    /// plays or pauses.
    pub fn on_auto_up(&mut self) -> (acts: Vec<Act>)
        requires
            old(self).wf(),
        ensures
            final(self).wf(),
            *final(self) == old(self).toggled(),
            acts@ == if old(self).long_press_fired {
                Seq::<Act>::empty()
            } else {
                seq![Act::Save]
            },
    {
        if self.long_press_fired {
            return Vec::new();
        }
        self.running = !self.running;
        self.pending.release = self.pending.release || !self.running;
        self.store.auto_running = self.running;
        one(Act::Save)
    }

    /// State back in Perform.
    pub open spec fn left_auto(self) -> Vamp {
        Vamp {
            mode_auto: false,
            chord_held: false,
            pending: (Pending { release: true, ..self.pending }),
            store: (Storage { mode_auto: false, auto_running: self.running, ..self.store }),
            ..self
        }
    }

    fn leave_auto(&mut self)
        requires
            old(self).wf(),
        ensures
            final(self).wf(),
            *final(self) == old(self).left_auto(),
    {
        self.mode_auto = false;
        self.chord_held = false;
        self.pending.release = true;
        self.store.mode_auto = false;
        self.store.auto_running = self.running;
    }

    /// The chords of the last bars, as they are captured at a tick.
    pub open spec fn captured(self, clk: u32) -> Seq<ClipNote> {
        let r = self.ring.closed_at(clk);
        clip_notes(r, self.capture_bars * 96, clk, r.len as int)
    }

    /// State after a capture: with nothing to capture only a flash tells; else
    /// the clip is there, is stored, and plays with the next bar.
    pub open spec fn captured_as(self, post: Vamp, clk: u32) -> bool {
        let s = Vamp {
            ring: self.ring.closed_at(clk),
            chord_held: false,
            pending: (Pending { release: true, ..self.pending }),
            ..self
        };
        let c = post.clip;
        if self.captured(clk).len() == 0 {
            post == (Vamp { capture_flash: 200, ..s })
        } else {
            &&& clip_holds(c.len as int, c.deg@, c.on@, c.dur@, self.captured(clk))
            &&& c.active && c.armed && c.bars == s.capture_bars && c.origin == s.clip.origin
            &&& post == (Vamp {
                clip: c,
                genre: 8,
                genre_fader: bucket_center(8, 9) as u16,
                mode_auto: true,
                running: true,
                capture_flash: 255,
                store: (Storage {
                    clip_active: true,
                    clip_len: c.len,
                    clip_bars: c.bars,
                    clip_deg: c.deg,
                    clip_on: c.on,
                    clip_dur: c.dur,
                    mode_auto: true,
                    auto_running: true,
                    ..s.store
                }),
                ..s
            })
        }
    }

    /// Capture the last bars as a clip and play it with the next bar. Returns
    /// whether there was anything to capture.
    pub fn commit_capture(&mut self, clk: u32) -> (ok: bool)
        requires
            old(self).wf(),
        ensures
            final(self).wf(),
            ok == (old(self).captured(clk).len() > 0),
            old(self).captured_as(*final(self), clk),
    {
        self.ring.close(clk);
        self.chord_held = false;
        self.pending.release = true;
        let bars: u32 = self.capture_bars;
        let (n, deg, on, dur) = build_clip_from_ring(bars, clk, &self.ring);
        if n == 0 {
            self.capture_flash = 200;
            return false;
        }
        let origin: u32 = self.clip.origin;
        self.clip = Clip { active: true, armed: true, origin, len: n, bars: bars as u8, deg, on, dur };
        self.genre = 8;
        self.genre_fader = genre_fader_center(8, 9);
        self.mode_auto = true;
        self.running = true;
        self.capture_flash = 255;
        self.store.clip_active = true;
        self.store.clip_len = n;
        self.store.clip_bars = bars as u8;
        self.store.clip_deg = deg;
        self.store.clip_on = on;
        self.store.clip_dur = dur;
        self.store.mode_auto = true;
        self.store.auto_running = true;
        true
    }

    /// A press with shift ends: a short one leaves Auto, or captures from
    /// Perform.
    pub open spec fn shift_released(self, post: Vamp, acts: Seq<Act>, clk: u32) -> bool {
        if self.long_press_fired {
            post == self && acts == Seq::<Act>::empty()
        } else if self.mode_auto {
            post == self.left_auto() && acts == seq![Act::Save]
        } else {
            &&& self.captured_as(post, clk)
            &&& acts == if self.captured(clk).len() > 0 {
                seq![Act::Save]
            } else {
                Seq::empty()
            }
        }
    }

    /// The button goes up after a press with shift: a short one leaves Auto, or
    /// captures from Perform.
    pub fn on_shift_up(&mut self, clk: u32) -> (acts: Vec<Act>)
        requires
            old(self).wf(),
        ensures
            final(self).wf(),
            old(self).shift_released(*final(self), acts@, clk),
    {
        if self.long_press_fired {
            return Vec::new();
        }
        if self.mode_auto {
            self.leave_auto();
            one(Act::Save)
        } else if self.commit_capture(clk) {
            one(Act::Save)
        } else {
            Vec::new()
        }
    }

    /// The button goes up, whatever it went down for.
    pub fn on_up(&mut self, press: Press, clk: u32) -> (acts: Vec<Act>)
        requires
            old(self).wf(),
        ensures
            final(self).wf(),
            match press {
                Press::Shifted => old(self).shift_released(*final(self), acts@, clk),
                Press::Auto => *final(self) == old(self).toggled() && acts@ == if old(
                    self,
                ).long_press_fired {
                    Seq::<Act>::empty()
                } else {
                    seq![Act::Save]
                },
                Press::Chord => *final(self) == (Vamp { chord_held: false, ..*old(self) })
                    && acts@ == Seq::<Act>::empty(),
            },
    {
        match press {
            Press::Shifted => self.on_shift_up(clk),
            Press::Auto => self.on_auto_up(),
            Press::Chord => {
                self.on_perform_up();
                Vec::new()
            },
        }
    }

    /// State after a new progression is seeded in a genre: a clip steps back.
    pub open spec fn reseeded(self, post: Vamp, g: int, idx: usize, rolls: SeedRolls) -> bool {
        &&& is_seeded(post.slots@, g, rolls)
        &&& post == (Vamp {
            last_genre: g as usize,
            genre: g as usize,
            clip: (Clip { active: false, armed: false, ..self.clip }),
            pending: (Pending { release: true, ..self.pending }),
            slots: post.slots,
            slot_count: 8,
            slot_idx: idx as u8,
            degree: post.slots[idx as int],
            store: (Storage {
                genre: g as u8,
                slots: post.slots,
                slot_count: 8,
                clip_active: false,
                ..self.store
            }),
            ..self
        })
    }

    fn reseed(&mut self, g: usize, idx: usize, rolls: &SeedRolls)
        requires
            old(self).wf(),
            g < 8,
            idx < 8,
        ensures
            final(self).wf(),
            old(self).reseeded(*final(self), g as int, idx, *rolls),
    {
        let mut slots: [u8; 32] = self.slots;
        let n: u8 = seed_genre_into(&mut slots, g, rolls);
        self.last_genre = g;
        self.genre = g;
        self.clip.active = false;
        self.clip.armed = false;
        self.pending.release = true;
        self.slots = slots;
        self.slot_count = n;
        self.slot_idx = idx as u8;
        self.degree = slots[idx];
        self.store.genre = g as u8;
        self.store.slots = slots;
        self.store.slot_count = n;
        self.store.clip_active = false;
    }

    /// A long press. In Auto: with shift a panic; without it the clip is
    /// dropped and a fresh progression seeded, where `idx` is the slot that
    /// the scrub selects among eight.
    pub fn on_long_press(&mut self, shift: bool, idx: usize, rolls: &SeedRolls) -> (acts: Vec<Act>)
        requires
            old(self).wf(),
            idx < 8,
        ensures
            final(self).wf(),
            ({
                let s = Vamp { long_press_fired: true, ..*old(self) };
                let g = s.last_genre as int;
                if !s.mode_auto {
                    *final(self) == s && acts@ == Seq::<Act>::empty()
                } else if shift {
                    *final(self) == (Vamp { panic: true, capture_flash: 160, ..s }) && acts@
                        == Seq::<Act>::empty()
                } else {
                    acts@ == seq![Act::Save] && Vamp {
                        genre_fader: bucket_center(g, 8) as u16,
                        capture_flash: 96,
                        store: (Storage { clip_len: 0, ..s.store }),
                        ..s
                    }.reseeded(*final(self), g, idx, *rolls)
                }
            }),
    {
        self.long_press_fired = true;
        if !self.mode_auto {
            return Vec::new();
        }
        if shift {
            self.panic = true;
            self.capture_flash = 160;
            return Vec::new();
        }
        let g: usize = self.last_genre;
        self.genre_fader = genre_fader_center(g, 8);
        self.capture_flash = 96;
        self.store.clip_len = 0;
        self.reseed(g, idx, rolls);
        one(Act::Save)
    }

    /// Value that the fader has to pass before it takes over.
    pub fn fader_target(&self) -> (r: u16)
        ensures
            r == match self.layer {
                LatchLayer::Main => if self.mode_auto { self.store.tension } else {
                    self.store.scrub
                },
                LatchLayer::Alt => self.genre_fader,
                LatchLayer::Third => self.store.div_fader,
            },
    {
        match self.layer {
            LatchLayer::Main => if self.mode_auto { self.store.tension } else { self.store.scrub },
            LatchLayer::Alt => self.genre_fader,
            LatchLayer::Third => self.store.div_fader,
        }
    }

    /// The fader has taken over: tension in Auto, else the scrub, which selects
    /// the slot `idx`.
    pub fn on_fader_main(&mut self, v: u16, idx: usize) -> (acts: Vec<Act>)
        requires
            old(self).wf(),
            idx < old(self).count(),
        ensures
            final(self).wf(),
            acts@ == seq![Act::Save],
            ({
                let auto = old(self).mode_auto;
                *final(self) == (Vamp {
                    tension: if auto { v } else { old(self).tension },
                    scrub: if auto { old(self).scrub } else { v },
                    slot_idx: if auto { old(self).slot_idx } else { idx as u8 },
                    degree: if auto { old(self).degree } else { old(self).slots[idx as int] },
                    store: (Storage {
                        tension: if auto { v } else { old(self).store.tension },
                        scrub: if auto { old(self).store.scrub } else { v },
                        ..old(self).store
                    }),
                    ..*old(self)
                })
            }),
    {
        if self.mode_auto {
            self.tension = v;
            self.store.tension = v;
        } else {
            self.scrub = v;
            self.slot_idx = idx as u8;
            self.degree = self.slots[idx];
            self.store.scrub = v;
        }
        one(Act::Save)
    }

    /// The fader has taken over with shift and picks a genre, or the clip. A
    /// genre that is new, or comes after the clip, is seeded.
    pub fn on_fader_genre(&mut self, v: u16, pick: usize, idx: usize, rolls: &SeedRolls) -> (acts: Vec<
        Act,
    >)
        requires
            old(self).wf(),
            pick < old(self).picks(),
            idx < 8,
        ensures
            final(self).wf(),
            ({
                let s = Vamp { genre_fader: v, ..*old(self) };
                if pick == 8 {
                    acts@ == seq![Act::Save] && *final(self) == (Vamp {
                        genre: 8,
                        clip: (Clip { active: true, armed: true, ..s.clip }),
                        pending: (Pending { release: true, ..s.pending }),
                        store: (Storage { clip_active: true, ..s.store }),
                        ..s
                    })
                } else if pick != s.last_genre || s.clip.active {
                    acts@ == seq![Act::Save] && s.reseeded(*final(self), pick as int, idx, *rolls)
                } else {
                    acts@ == Seq::<Act>::empty() && *final(self) == s
                }
            }),
    {
        self.genre_fader = v;
        if pick == 8 {
            self.genre = 8;
            self.clip.active = true;
            self.clip.armed = true;
            self.pending.release = true;
            self.store.clip_active = true;
            one(Act::Save)
        } else if pick != self.last_genre || self.clip.active {
            self.reseed(pick, idx, rolls);
            one(Act::Save)
        } else {
            Vec::new()
        }
    }

    /// The fader has taken over with the button: the step length in ticks.
    pub fn on_fader_div(&mut self, v: u16, div: u32) -> (acts: Vec<Act>)
        requires
            old(self).wf(),
            div >= 2,
        ensures
            final(self).wf(),
            acts@ == seq![Act::Save],
            *final(self) == (Vamp {
                div,
                store: (Storage { div_fader: v, ..old(self).store }),
                ..*old(self)
            }),
    {
        self.div = div;
        self.store.div_fader = v;
        one(Act::Save)
    }

    /// Scrub with a CV input.
    pub fn scrub_with(&self, in_val: u16) -> (r: u16)
        ensures
            r == modulated(self.scrub as int, in_val as int),
    {
        mod_u16(self.scrub, in_val)
    }

    /// See the attenuated CV input, where the jack is one. `idx` is the slot
    /// that `scrub_with` selects.
    pub fn on_cv(&mut self, in_val: Option<u16>, idx: usize)
        requires
            old(self).wf(),
            idx < old(self).count(),
        ensures
            final(self).wf(),
            ({
                let val = match in_val {
                    Some(v) => v,
                    None => 2047,
                };
                let trig = in_val is Some && old(self).cv_dest == DEST_PANIC;
                let high = trig && val >= TRIG_HIGH;
                let scrubs = in_val is Some && !trig && !old(self).mode_auto;
                *final(self) == (Vamp {
                    cv_val: val,
                    prev_gate_high: high,
                    panic: old(self).panic || (high && !old(self).prev_gate_high),
                    slot_idx: if scrubs { idx as u8 } else { old(self).slot_idx },
                    degree: if scrubs { old(self).slots[idx as int] } else { old(self).degree },
                    ..*old(self)
                })
            }),
    {
        match in_val {
            Some(v) => {
                self.cv_val = v;
                if self.cv_dest == DEST_PANIC {
                    let high = v >= TRIG_HIGH;
                    self.panic = self.panic || (high && !self.prev_gate_high);
                    self.prev_gate_high = high;
                } else {
                    self.prev_gate_high = false;
                    if !self.mode_auto {
                        self.slot_idx = idx as u8;
                        self.degree = self.slots[idx];
                    }
                }
            },
            None => {
                self.prev_gate_high = false;
                self.cv_val = 2047;
            },
        }
    }

    /// The stored settings have been replaced by those of a scene. `div` is the
    /// step length of the stored fader. Everything is silenced.
    pub fn on_scene(&mut self, store: Storage, div: u32)
        requires
            old(self).wf(),
            store.valid(),
            div >= 2,
        ensures
            final(self).wf(),
            ({
                let g = min_int(store.genre as int, 7);
                let clip = store.clip_active && store.clip_len > 0;
                let shown = if clip { 8 } else { g };
                *final(self) == (Vamp {
                    store,
                    slots: store.slots,
                    slot_count: max_int(store.slot_count as int, 1) as u8,
                    last_genre: g as usize,
                    scrub: store.scrub,
                    tension: store.tension,
                    div,
                    mode_auto: store.mode_auto,
                    meander: store.meander,
                    running: store.auto_running,
                    clip: (Clip {
                        active: clip,
                        armed: clip,
                        origin: old(self).clip.origin,
                        len: store.clip_len,
                        bars: max_int(store.clip_bars as int, 1) as u8,
                        deg: store.clip_deg,
                        on: store.clip_on,
                        dur: store.clip_dur,
                    }),
                    genre: shown as usize,
                    genre_fader: bucket_center(shown, if store.clip_len > 0 { 9 } else { 8 }) as u16,
                    panic: true,
                    ..*old(self)
                })
            }),
    {
        let g: usize = if store.genre < 7 { store.genre as usize } else { 7 };
        let clip = store.clip_active && store.clip_len > 0;
        let shown: usize = if clip { 8 } else { g };
        let picks: usize = if store.clip_len > 0 { 9 } else { 8 };
        self.slots = store.slots;
        self.slot_count = if store.slot_count < 1 { 1 } else { store.slot_count };
        self.last_genre = g;
        self.scrub = store.scrub;
        self.tension = store.tension;
        self.div = div;
        self.mode_auto = store.mode_auto;
        self.meander = store.meander;
        self.running = store.auto_running;
        let origin: u32 = self.clip.origin;
        self.clip = Clip {
            active: clip,
            armed: clip,
            origin,
            len: store.clip_len,
            bars: if store.clip_bars < 1 {
                1
            } else {
                store.clip_bars
            },
            deg: store.clip_deg,
            on: store.clip_on,
            dur: store.clip_dur,
        };
        self.genre = shown;
        self.genre_fader = genre_fader_center(shown, picks);
        self.panic = true;
        self.store = store;
    }

    /// The flash on the button: a capture's, else that of a loop that starts
    /// over.
    pub open spec fn flash_acts(self) -> Seq<Act> {
        let level = if self.capture_flash > 0 {
            self.capture_flash
        } else if self.mode_auto && self.clip.active {
            self.loop_flash
        } else {
            0
        };
        if level > 0 {
            seq![
                Act::Light {
                    chan: 0,
                    led: Led::Button,
                    color: Color::White,
                    bright: Brightness::Custom(level),
                },
            ]
        } else {
            Seq::empty()
        }
    }

    fn paint_flash(&self) -> (acts: Vec<Act>)
        ensures
            acts@ == self.flash_acts(),
    {
        let level: u8 = if self.capture_flash > 0 {
            self.capture_flash
        } else if self.mode_auto && self.clip.active {
            self.loop_flash
        } else {
            0
        };
        if level > 0 {
            one(
                Act::Light {
                    chan: 0,
                    led: Led::Button,
                    color: Color::White,
                    bright: Brightness::Custom(level),
                },
            )
        } else {
            Vec::new()
        }
    }

    /// Lights of a layer. `fader` is the fader's position and `pick` the genre
    /// that it points to.
    pub open spec fn layer_acts(self, layer: LatchLayer, fader: u16, pick: int) -> Seq<Act> {
        match layer {
            LatchLayer::Main => {
                let color = if self.mode_auto { Color::Orange } else { self.color };
                seq![
                    Act::Meter {
                        chan: 0,
                        color,
                        level: (self.slot_idx as int * 4095 / self.count()) as u16,
                        top_floor: self.activity,
                        bottom_floor: (self.activity as int / 2) as u8,
                    },
                ] + (if self.capture_flash == 0 && self.loop_flash == 0 {
                    seq![
                        Act::Light {
                            chan: 0,
                            led: Led::Button,
                            color,
                            bright: if !self.mode_auto {
                                Brightness::Mid
                            } else if self.running {
                                Brightness::High
                            } else {
                                Brightness::Low
                            },
                        },
                    ]
                } else {
                    Seq::empty()
                })
            },
            LatchLayer::Alt => seq![
                Act::Meter {
                    chan: 0,
                    color: genre_hue(pick),
                    level: fader,
                    top_floor: 0,
                    bottom_floor: 0,
                },
            ] + (if self.capture_flash == 0 {
                seq![
                    Act::Light {
                        chan: 0,
                        led: Led::Button,
                        color: genre_hue(pick),
                        bright: Brightness::High,
                    },
                ]
            } else {
                Seq::empty()
            }),
            LatchLayer::Third => seq![
                Act::Meter {
                    chan: 0,
                    color: Color::Cyan,
                    level: self.store.div_fader,
                    top_floor: 0,
                    bottom_floor: 0,
                },
            ] + (if self.capture_flash == 0 {
                seq![
                    Act::Light {
                        chan: 0,
                        led: Led::Button,
                        color: Color::Cyan,
                        bright: Brightness::Mid,
                    },
                ]
            } else {
                Seq::empty()
            }),
        }
    }

    fn paint_layer(&self, layer: LatchLayer, fader: u16, pick: usize) -> (acts: Vec<Act>)
        requires
            layer == LatchLayer::Main ==> self.slot_idx <= 16,
            pick < 9,
        ensures
            acts@ == self.layer_acts(layer, fader, pick as int),
    {
        let mut acts: Vec<Act> = Vec::new();
        match layer {
            LatchLayer::Main => {
                let n: u32 = self.slots_in_use() as u32;
                let level: u32 = self.slot_idx as u32 * 4095 / n;
                assert(level <= 65535) by (nonlinear_arith)
                    requires
                        level == self.slot_idx as u32 * 4095 / n as int,
                        self.slot_idx <= 16,
                        n >= 1,
                ;
                let color = if self.mode_auto {
                    Color::Orange
                } else {
                    self.color
                };
                acts.push(
                    Act::Meter {
                        chan: 0,
                        color,
                        level: level as u16,
                        top_floor: self.activity,
                        bottom_floor: self.activity / 2,
                    },
                );
                if self.capture_flash == 0 && self.loop_flash == 0 {
                    let bright = if !self.mode_auto {
                        Brightness::Mid
                    } else if self.running {
                        Brightness::High
                    } else {
                        Brightness::Low
                    };
                    acts.push(Act::Light { chan: 0, led: Led::Button, color, bright });
                }
            },
            LatchLayer::Alt => {
                let color = genre_color(pick);
                acts.push(
                    Act::Meter { chan: 0, color, level: fader, top_floor: 0, bottom_floor: 0 },
                );
                if self.capture_flash == 0 {
                    acts.push(
                        Act::Light { chan: 0, led: Led::Button, color, bright: Brightness::High },
                    );
                }
            },
            LatchLayer::Third => {
                acts.push(
                    Act::Meter {
                        chan: 0,
                        color: Color::Cyan,
                        level: self.store.div_fader,
                        top_floor: 0,
                        bottom_floor: 0,
                    },
                );
                if self.capture_flash == 0 {
                    acts.push(
                        Act::Light {
                            chan: 0,
                            led: Led::Button,
                            color: Color::Cyan,
                            bright: Brightness::Mid,
                        },
                    );
                }
            },
        }
        assert(acts@ =~= self.layer_acts(layer, fader, pick as int));
        acts
    }

    /// One millisecond of the panel.
    pub fn on_frame(&mut self, shift: bool, button: bool, fader: u16, pick: usize) -> (acts: Vec<Act>)
        requires
            old(self).wf(),
            layer_of(shift, button) == LatchLayer::Main ==> old(self).slot_idx <= 16,
            pick < 9,
        ensures
            final(self).wf(),
            *final(self) == (Vamp { layer: layer_of(shift, button), ..*old(self) }),
            acts@ == old(self).flash_acts() + old(self).layer_acts(
                layer_of(shift, button),
                fader,
                pick as int,
            ),
    {
        let layer = layer_for(shift, button);
        let mut acts = self.paint_flash();
        let lights = self.paint_layer(layer, fader, pick);
        push_all(&mut acts, lights);
        self.layer = layer;
        acts
    }
}

/// What is played by hand is in the ring: the chord that begins is its newest
/// entry, open until it ends.
pub proof fn ring_records_what_is_played(r: Ring, degree: u8, on: u32)
    requires
        r.wf(),
    ensures
        r.pushed(degree, on).wf(),
        r.pushed(degree, on).open == Some(r.write),
        r.pushed(degree, on).deg[r.write as int] == degree,
        r.pushed(degree, on).on[r.write as int] == on,
        r.pushed(degree, on).off[r.write as int] == 0,
        r.pushed(degree, on).len == min_int(r.len + 1, 64),
{
}

/// A chord that was held and let go inside the captured bars is in the clip,
/// with its degree and as long as it was held, up to the end of the loop.
pub proof fn capture_keeps_what_was_played(bars: int, now: u32, deg: u8, on: u32, off: u32)
    requires
        1 <= bars <= 682,
        on < off,
        off <= now,
        now - on < bars * 96,
    ensures
        clip_note(bars * 96, now, deg, on, off, false) matches Some(c) && c.deg == deg && c.dur
            == min_int(off - on, bars * 96 - c.on),
{
    let window = bars * 96;
    let raw = window - wrap_sub(now, on);
    snapping_is_nearest(raw, 6);
}

} // verus!
