//! Four sequencers of sixteen steps with CV, gate and MIDI.
//!
//! A page shows eight steps of a track; with shift the buttons select the page
//! and the faders set the track's length, gate, octave, range, resolution,
//! direction, probability and slide.

use crate::bounded::{param_values, values_of};
use crate::panel::{
    clamp_full, clamp_int, div_toward_zero, max_int, one, quot, reads, reads_all, Act, Brightness,
    Color, LatchLayer, Led, MidiIn, MidiOut, ParamSlot, Value, VoltPerOct,
};
use vstd::array::spec_array_update;
use vstd::prelude::*;

verus! {

pub const CHANNELS: usize = 8;
pub const PARAMS: usize = 14;

/// Step lengths in clock ticks, slow to fast.
pub const RESOLUTION: [usize; 8] = [24, 16, 12, 8, 6, 4, 3, 2];

// ---------------------------------------------------------------------------
// Parameters and settings
// ---------------------------------------------------------------------------

#[derive(Clone, Copy, Debug, PartialEq, Eq, Structural)]
pub struct Params {
    pub midi_channel1: u8,
    pub midi_channel2: u8,
    pub midi_channel3: u8,
    pub midi_channel4: u8,
    pub midi_out: MidiOut,
    pub vel_lane_2: bool,
    pub vel_lane_4: bool,
    pub transpose_midi_in: MidiIn,
    pub transpose_ch1: u8,
    pub transpose_ch2: u8,
    pub transpose_ch3: u8,
    pub transpose_ch4: u8,
    pub vpo: VoltPerOct,
    pub bypass: bool,
}

impl Params {
    pub open spec fn values(self) -> Seq<Value> {
        seq![
            Value::MidiChannel(self.midi_channel1),
            Value::MidiChannel(self.midi_channel2),
            Value::MidiChannel(self.midi_channel3),
            Value::MidiChannel(self.midi_channel4),
            Value::MidiOut(self.midi_out),
            Value::Bool(self.vel_lane_2),
            Value::Bool(self.vel_lane_4),
            Value::MidiIn(self.transpose_midi_in),
            Value::MidiChannel(self.transpose_ch1),
            Value::MidiChannel(self.transpose_ch2),
            Value::MidiChannel(self.transpose_ch3),
            Value::MidiChannel(self.transpose_ch4),
            Value::VoltPerOct(self.vpo),
            Value::Bool(self.bypass),
        ]
    }

    pub open spec fn from_slots(s: Seq<ParamSlot>) -> Option<Params> {
        if s.len() < 14 {
            None
        } else {
            Some(
                Params {
                    midi_channel1: s[0].as_channel,
                    midi_channel2: s[1].as_channel,
                    midi_channel3: s[2].as_channel,
                    midi_channel4: s[3].as_channel,
                    midi_out: s[4].as_midi_out,
                    vel_lane_2: s[5].as_bool,
                    vel_lane_4: s[6].as_bool,
                    transpose_midi_in: s[7].as_midi_in,
                    transpose_ch1: s[8].as_channel,
                    transpose_ch2: s[9].as_channel,
                    transpose_ch3: s[10].as_channel,
                    transpose_ch4: s[11].as_channel,
                    vpo: s[12].as_vpo,
                    bypass: s[13].as_bool,
                },
            )
        }
    }

    pub fn from_values(values: &[ParamSlot]) -> (r: Option<Params>)
        ensures
            r == Params::from_slots(values@),
    {
        if values.len() < 14 {
            return None;
        }
        Some(
            Params {
                midi_channel1: values[0].as_channel,
                midi_channel2: values[1].as_channel,
                midi_channel3: values[2].as_channel,
                midi_channel4: values[3].as_channel,
                midi_out: values[4].as_midi_out,
                vel_lane_2: values[5].as_bool,
                vel_lane_4: values[6].as_bool,
                transpose_midi_in: values[7].as_midi_in,
                transpose_ch1: values[8].as_channel,
                transpose_ch2: values[9].as_channel,
                transpose_ch3: values[10].as_channel,
                transpose_ch4: values[11].as_channel,
                vpo: values[12].as_vpo,
                bypass: values[13].as_bool,
            },
        )
    }

    pub fn to_values(&self) -> (v: heapless::Vec<Value, 16>)
        ensures
            param_values(v) == self.values(),
    {
        let items: [Value; 14] = [
            Value::MidiChannel(self.midi_channel1),
            Value::MidiChannel(self.midi_channel2),
            Value::MidiChannel(self.midi_channel3),
            Value::MidiChannel(self.midi_channel4),
            Value::MidiOut(self.midi_out),
            Value::Bool(self.vel_lane_2),
            Value::Bool(self.vel_lane_4),
            Value::MidiIn(self.transpose_midi_in),
            Value::MidiChannel(self.transpose_ch1),
            Value::MidiChannel(self.transpose_ch2),
            Value::MidiChannel(self.transpose_ch3),
            Value::MidiChannel(self.transpose_ch4),
            Value::VoltPerOct(self.vpo),
            Value::Bool(self.bypass),
        ];
        assert(items@ =~= self.values());
        values_of(&items)
    }
}

/// Stored parameters read back as they were.
pub proof fn params_round_trip(p: Params, slots: Seq<ParamSlot>)
    requires
        reads_all(slots, p.values()),
    ensures
        Params::from_slots(slots) == Some(p),
{
    assert forall|i: int| 0 <= i < 14 implies reads(#[trigger] slots[i], p.values()[i]) by {}
    let (s0, s1, s2, s3) = (slots[0], slots[1], slots[2], slots[3]);
    let (s4, s5, s6, s7) = (slots[4], slots[5], slots[6], slots[7]);
    let (s8, s9, s10, s11) = (slots[8], slots[9], slots[10], slots[11]);
    let (s12, s13) = (slots[12], slots[13]);
}

#[derive(Clone, Copy, Debug, PartialEq, Eq, Structural)]
pub enum Direction {
    Forward,
    Backward,
    PingPong,
    Random,
}

impl Direction {
    pub open spec fn at(value: int) -> Direction {
        if value < 1024 {
            Direction::Forward
        } else if value < 2048 {
            Direction::Backward
        } else if value < 3072 {
            Direction::PingPong
        } else {
            Direction::Random
        }
    }

    pub fn from_fader(value: u16) -> (r: Self)
        ensures
            r == Direction::at(value as int),
    {
        match value / 1024 {
            0 => Direction::Forward,
            1 => Direction::Backward,
            2 => Direction::PingPong,
            _ => Direction::Random,
        }
    }
}

/// Settings: the steps of all tracks, and a value on the fader scale for each
/// track and each shifted fader.
#[derive(Clone, Copy, Debug, PartialEq, Eq)]
pub struct Storage {
    pub seq: [u16; 64],
    pub gateseq: [bool; 64],
    pub legato_seq: [bool; 64],
    pub length_fader: [u16; 4],
    pub gate_fader: [u16; 4],
    pub oct_fader: [u16; 4],
    pub range_fader: [u16; 4],
    pub res_fader: [u16; 4],
    pub direction_fader: [u16; 4],
    pub probability_fader: [u16; 4],
    pub slide_fader: [u16; 4],
    pub muted: [bool; 4],
}

impl Default for Storage {
    fn default() -> (r: Self)
        ensures
            forall|i: int|
                0 <= i < 64 ==> #[trigger] r.seq[i] == 0 && r.gateseq[i] && !r.legato_seq[i],
            forall|n: int|
                0 <= n < 4 ==> #[trigger] r.length_fader[n] == 3840 && r.gate_fader[n] == 2032
                    && r.oct_fader[n] == 0 && r.range_fader[n] == 2000 && r.res_fader[n] == 2048
                    && r.direction_fader[n] == 0 && r.probability_fader[n] == 4095
                    && r.slide_fader[n] == 0 && !r.muted[n],
    {
        Storage {
            seq: [0; 64],
            gateseq: [true; 64],
            legato_seq: [false; 64],
            length_fader: [3840; 4],
            gate_fader: [2032; 4],
            oct_fader: [0; 4],
            range_fader: [2000; 4],
            res_fader: [2048; 4],
            direction_fader: [0; 4],
            probability_fader: [4095; 4],
            slide_fader: [0; 4],
            muted: [false; 4],
        }
    }
}

impl Storage {
    /// Every value lies on the fader scale.
    pub open spec fn valid(self) -> bool {
        &&& forall|i: int| 0 <= i < 64 ==> #[trigger] self.seq[i] <= 4095
        &&& forall|n: int|
            0 <= n < 4 ==> #[trigger] self.length_fader[n] <= 4095
        &&& forall|n: int| 0 <= n < 4 ==> #[trigger] self.gate_fader[n] <= 4095
        &&& forall|n: int| 0 <= n < 4 ==> #[trigger] self.oct_fader[n] <= 4095
        &&& forall|n: int| 0 <= n < 4 ==> #[trigger] self.range_fader[n] <= 4095
        &&& forall|n: int| 0 <= n < 4 ==> #[trigger] self.res_fader[n] <= 4095
    }
}

// ---------------------------------------------------------------------------
// Scales
// ---------------------------------------------------------------------------

pub open spec fn threshold_of(fader: int) -> int {
    205 + fader * 3891 / 4095
}

/// Threshold for a die roll: the fader goes from 5 % to 100 %.
pub fn probability_threshold(fader: u16) -> (r: u16)
    ensures
        r == threshold_of(fader as int),
{
    205 + (fader as u32 * 3891 / 4095) as u16
}

/// A roll of twelve bits always passes at the top of the fader; further up
/// passes whatever passes further down.
pub proof fn probability_rises(a: int, b: int)
    requires
        0 <= a <= b <= 4095,
    ensures
        205 <= threshold_of(a) <= threshold_of(b) <= 4096,
        threshold_of(4095) == 4096,
{
}

/// The fader warped so that the zone of eight steps is wide: it is flat around
/// the zone's middle and stretched to both ends of the fader.
pub open spec fn notched(value: int) -> int {
    if value <= 1613 {
        value * 1920 / 1613
    } else if value >= 2227 {
        1920 + (value - 2227) * 2175 / 1868
    } else {
        1920
    }
}

/// Steps of a fader position. Sixteen steps begin where they would without the
/// notch, so that the default position gives all of them.
pub open spec fn length_of(value: int) -> int {
    if value / 256 + 1 >= 16 {
        16
    } else {
        clamp_int(notched(value), 0, 4095) / 256 + 1
    }
}

pub fn length_fader_to_seq_length(value: u16) -> (r: u8)
    ensures
        r == length_of(value as int),
        1 <= r <= 16,
{
    if value / 256 + 1 >= 16 {
        return 16;
    }
    let v: u32 = value as u32;
    let warped: u32 = if v <= 1613 {
        v * 1920 / 1613
    } else if v >= 2227 {
        1920 + (v - 2227) * 2175 / 1868
    } else {
        1920
    };
    let warped: u32 = if warped > 4095 { 4095 } else { warped };
    (warped / 256 + 1) as u8
}

/// The length never falls as the fader rises, reaches one and sixteen, and is
/// eight in the whole notch.
pub proof fn lengths_cover_the_fader(a: int, b: int)
    requires
        0 <= a <= b <= 4095,
    ensures
        1 <= length_of(a) <= length_of(b) <= 16,
        length_of(0) == 1,
        length_of(4095) == 16,
        length_of(3840) == 16,
        1613 <= a <= 2227 ==> length_of(a) == 8,
{
}

/// Position of a step counter in a sequence.
pub open spec fn position(direction: Direction, step: int, length: int, roll: int) -> int {
    if length == 0 {
        0
    } else {
        match direction {
            Direction::Forward => step % length,
            Direction::Backward => length - 1 - step % length,
            Direction::PingPong => {
                let phase = step % (2 * length);
                if phase < length { phase } else { 2 * length - 1 - phase }
            },
            Direction::Random => roll % length,
        }
    }
}

/// Map a step counter to a position. Back and forth repeats the end points.
pub fn step_position(direction: Direction, step: usize, length: u8, die_roll: u16) -> (r: usize)
    ensures
        r == position(direction, step as int, length as int, die_roll as int),
        length > 0 ==> r < length,
{
    let l: usize = length as usize;
    if l == 0 {
        return 0;
    }
    match direction {
        Direction::Forward => step % l,
        Direction::Backward => (l - 1) - (step % l),
        Direction::PingPong => {
            let period: usize = 2 * l;
            let phase: usize = step % period;
            if phase < l {
                phase
            } else {
                period - 1 - phase
            }
        },
        Direction::Random => (die_roll as usize) % l,
    }
}

/// Every position lies in the sequence.
pub proof fn positions_lie_in_the_sequence(d: Direction, step: int, length: int, roll: int)
    requires
        length > 0,
        0 <= step,
        0 <= roll,
    ensures
        0 <= position(d, step, length, roll) < length,
{
}

/// Backward is forward mirrored.
pub proof fn backward_mirrors_forward(step: int, length: int, roll: int)
    requires
        length > 0,
    ensures
        position(Direction::Backward, step, length, roll) == length - 1 - position(
            Direction::Forward,
            step,
            length,
            roll,
        ),
{
}

/// Back and forth: the second half of a period runs through the first half in
/// reverse, end points included.
pub proof fn ping_pong_returns(step: int, length: int, roll: int)
    requires
        length > 0,
        0 <= step < 2 * length,
    ensures
        position(Direction::PingPong, step, length, roll) == position(
            Direction::PingPong,
            2 * length - 1 - step,
            length,
            roll,
        ),
{
    let p = 2 * length;
    vstd::arithmetic::div_mod::lemma_small_mod(step as nat, p as nat);
    vstd::arithmetic::div_mod::lemma_small_mod((p - 1 - step) as nat, p as nat);
}

/// Gate length in ticks for a step length: at least one tick, and over before
/// the next step.
pub open spec fn gate_of(res: int, fader: int) -> int {
    clamp_int(res * fader / 4096, 1, res - 1)
}

pub fn gate_ticks(res: usize, fader: u16) -> (r: u8)
    requires
        2 <= res <= 255,
        fader <= 4095,
    ensures
        r == gate_of(res as int, fader as int),
        1 <= r < res,
{
    assert(0 <= res * fader <= 255 * 4095) by (nonlinear_arith)
        requires
            res <= 255,
            fader <= 4095,
    ;
    let g: usize = res * fader as usize / 4096;
    let g: usize = if g < 1 {
        1
    } else if g > res - 1 {
        res - 1
    } else {
        g
    };
    g as u8
}

pub open spec fn res_of(fader: int) -> int {
    RESOLUTION[fader / 512] as int
}

pub fn step_ticks(fader: u16) -> (r: usize)
    requires
        fader <= 4095,
    ensures
        r == res_of(fader as int),
        2 <= r <= 24,
{
    RESOLUTION[(fader / 512) as usize]
}

// ---------------------------------------------------------------------------
// The running app
// ---------------------------------------------------------------------------

/// One of the four sequencers.
#[derive(Clone, Copy, Debug, PartialEq, Eq, Structural)]
pub struct Track {
    pub seq_length: u8,
    /// Step length in ticks.
    pub clockres: usize,
    pub gate_length: u8,
    /// Gate length as it was when a step last fired.
    pub gate_used: u8,
    pub direction: Direction,
    /// Die rolls below this fire.
    pub probability: u16,
    /// CV that the output goes to, and whether it slides there.
    pub target_cv: u16,
    pub sliding: bool,
    /// Position that plays.
    pub pos: usize,
    /// Semitones set by incoming MIDI.
    pub transpo: i8,
    pub last_note: u8,
    /// Index of the last step among all tracks' steps.
    pub last_index: usize,
    pub prev_legato: bool,
    /// Velocity from a velocity lane, held until its next step.
    pub vel_source: u16,
}

/// Steps and lengths at one moment. A clock event is played as things stood
/// when it began to be awaited.
#[derive(Clone, Copy, Debug, PartialEq, Eq)]
pub struct Plan {
    pub gates: [bool; 64],
    pub legato: [bool; 64],
    pub lengths: [u8; 4],
    pub res: [usize; 4],
}

/// What the quantizer makes of a step: the transposed note, and the counts of
/// the pitch without transposition.
#[derive(Clone, Copy, Debug, PartialEq, Eq, Structural)]
pub struct Pitch {
    pub note: u8,
    pub counts: u16,
}

/// State of the app between events.
pub struct Seq8 {
    /// Tracks that are velocity lanes for the one before.
    pub vel_lane_2: bool,
    pub vel_lane_4: bool,
    /// Counts of an octave, as calibrated.
    pub counts_per_oct: u32,
    pub store: Storage,
    pub tracks: [Track; 4],
    pub page: usize,
    pub prev_page: usize,
    pub layer: LatchLayer,
    pub ticks: u64,
}

impl Track {
    pub open spec fn wf(self) -> bool {
        &&& 1 <= self.seq_length <= 16
        &&& 2 <= self.clockres <= 24
        &&& 1 <= self.gate_length
        &&& self.pos < 16
        &&& self.last_index < 64
    }

    /// Track as the stored settings say.
    pub open spec fn settled(self, s: Storage, n: int) -> Track {
        let res = res_of(s.res_fader[n] as int);
        Track {
            seq_length: length_of(s.length_fader[n] as int) as u8,
            clockres: res as usize,
            gate_length: gate_of(res, s.gate_fader[n] as int) as u8,
            direction: Direction::at(s.direction_fader[n] as int),
            probability: threshold_of(s.probability_fader[n] as int) as u16,
            ..self
        }
    }

    fn settle(&mut self, s: &Storage, n: usize)
        requires
            old(self).wf(),
            s.valid(),
            n < 4,
        ensures
            *final(self) == old(self).settled(*s, n as int),
            final(self).wf(),
    {
        let res: usize = step_ticks(s.res_fader[n]);
        self.seq_length = length_fader_to_seq_length(s.length_fader[n]);
        self.clockres = res;
        self.gate_length = gate_ticks(res, s.gate_fader[n]);
        self.direction = Direction::from_fader(s.direction_fader[n]);
        self.probability = probability_threshold(s.probability_fader[n]);
    }
}

impl Plan {
    pub open spec fn wf(self) -> bool {
        &&& forall|n: int| 0 <= n < 4 ==> 1 <= #[trigger] self.lengths[n] <= 16
        &&& forall|n: int| 0 <= n < 4 ==> 2 <= #[trigger] self.res[n] <= 24
    }
}

/// A fresh track.
pub open spec fn fresh_track(note: u8) -> Track {
    Track {
        seq_length: 16,
        clockres: 6,
        gate_length: 128,
        gate_used: 128,
        direction: Direction::Forward,
        probability: 4096,
        target_cv: 0,
        sliding: false,
        pos: 0,
        transpo: 0,
        last_note: note,
        last_index: 0,
        prev_legato: false,
        vel_source: 4095,
    }
}

impl Seq8 {
    pub open spec fn wf(self) -> bool {
        &&& self.store.valid()
        &&& self.page < 8
        &&& self.prev_page < 8
        &&& self.counts_per_oct <= 4096
        &&& forall|n: int| 0 <= n < 4 ==> (#[trigger] self.tracks[n]).wf()
    }

    /// Start with the stored settings. `note` is the note that counts as
    /// played before anything has been, `counts_per_oct` the calibrated octave.
    pub fn new(params: Params, store: Storage, note: u8, counts_per_oct: u32) -> (r: Self)
        requires
            store.valid(),
            counts_per_oct <= 4096,
        ensures
            r.wf(),
            r.store == store,
            r.vel_lane_2 == params.vel_lane_2,
            r.vel_lane_4 == params.vel_lane_4,
            r.counts_per_oct == counts_per_oct,
            r.page == 0 && r.prev_page == 0 && r.layer == LatchLayer::Main && r.ticks == 0,
            forall|n: int|
                0 <= n < 4 ==> #[trigger] r.tracks[n] == fresh_track(note).settled(store, n),
    {
        let fresh = Track {
            seq_length: 16,
            clockres: 6,
            gate_length: 128,
            gate_used: 128,
            direction: Direction::Forward,
            probability: 4096,
            target_cv: 0,
            sliding: false,
            pos: 0,
            transpo: 0,
            last_note: note,
            last_index: 0,
            prev_legato: false,
            vel_source: 4095,
        };
        let mut tracks: [Track; 4] = [fresh; 4];
        settle_all(&mut tracks, &store);
        Seq8 {
            vel_lane_2: params.vel_lane_2,
            vel_lane_4: params.vel_lane_4,
            counts_per_oct,
            store,
            tracks,
            page: 0,
            prev_page: 0,
            layer: LatchLayer::Main,
            ticks: 0,
        }
    }

    /// The stored settings have been replaced by those of a scene.
    pub fn on_scene(&mut self, store: Storage)
        requires
            old(self).wf(),
            store.valid(),
        ensures
            final(self).wf(),
            forall|n: int|
                0 <= n < 4 ==> #[trigger] final(self).tracks[n] == old(self).tracks[n].settled(
                    store,
                    n,
                ),
            *final(self) == (Seq8 { store, tracks: final(self).tracks, ..*old(self) }),
    {
        self.store = store;
        settle_all(&mut self.tracks, &store);
    }

    pub open spec fn plan_of(self, p: Plan) -> bool {
        &&& p.gates == self.store.gateseq
        &&& p.legato == self.store.legato_seq
        &&& forall|n: int|
            0 <= n < 4 ==> #[trigger] p.lengths[n] == self.tracks[n].seq_length && p.res[n]
                == self.tracks[n].clockres
    }

    /// How things stand for the next clock event.
    pub fn plan(&self) -> (p: Plan)
        requires
            self.wf(),
        ensures
            self.plan_of(p),
            p.wf(),
    {
        let t = &self.tracks;
        assert(t[0].wf() && t[1].wf() && t[2].wf() && t[3].wf());
        Plan {
            gates: self.store.gateseq,
            legato: self.store.legato_seq,
            lengths: [t[0].seq_length, t[1].seq_length, t[2].seq_length, t[3].seq_length],
            res: [t[0].clockres, t[1].clockres, t[2].clockres, t[3].clockres],
        }
    }

    pub open spec fn lane(self, n: int) -> bool {
        (n == 1 && self.vel_lane_2) || (n == 3 && self.vel_lane_4)
    }

    fn is_lane(&self, n: usize) -> (r: bool)
        ensures
            r == self.lane(n as int),
    {
        (n == 1 && self.vel_lane_2) || (n == 3 && self.vel_lane_4)
    }
}

fn settle_all(tracks: &mut [Track; 4], s: &Storage)
    requires
        s.valid(),
        forall|n: int| 0 <= n < 4 ==> (#[trigger] old(tracks)[n]).wf(),
    ensures
        forall|n: int| 0 <= n < 4 ==> (#[trigger] final(tracks)[n]).wf(),
        forall|n: int| 0 <= n < 4 ==> #[trigger] final(tracks)[n] == old(tracks)[n].settled(*s, n),
{
    let ghost t0 = *tracks;
    let mut n: usize = 0;
    while n < 4
        invariant
            n <= 4,
            s.valid(),
            forall|k: int| 0 <= k < 4 ==> (#[trigger] tracks[k]).wf(),
            forall|k: int|
                0 <= k < 4 ==> #[trigger] tracks[k] == if k < n {
                    t0[k].settled(*s, k)
                } else {
                    t0[k]
                },
        decreases 4 - n,
    {
        let mut t = tracks[n];
        t.settle(s, n);
        tracks[n] = t;
        n = n + 1;
    }
}

// ---------------------------------------------------------------------------
// Clock
// ---------------------------------------------------------------------------

/// Track with its gate length taken over.
pub open spec fn latched(t: Track) -> Track {
    Track { gate_used: t.gate_length, ..t }
}

/// All tracks with their gate lengths taken over.
#[verifier::opaque]
pub open spec fn all_latched(t: [Track; 4]) -> [Track; 4] {
    spec_array_update(
        spec_array_update(
            spec_array_update(spec_array_update(t, 0, latched(t[0])), 1, latched(t[1])),
            2,
            latched(t[2]),
        ),
        3,
        latched(t[3]),
    )
}

fn latch_gates(tracks: &mut [Track; 4])
    ensures
        *final(tracks) == all_latched(*old(tracks)),
        forall|k: int| 0 <= k < 4 ==> #[trigger] final(tracks)[k] == latched(old(tracks)[k]),
{
    reveal(all_latched);
    let ghost t0 = *tracks;
    tracks[0].gate_used = tracks[0].gate_length;
    tracks[1].gate_used = tracks[1].gate_length;
    tracks[2].gate_used = tracks[2].gate_length;
    tracks[3].gate_used = tracks[3].gate_length;
    assert(*tracks =~= all_latched(t0));
}

/// Index of a position among all tracks' steps.
pub open spec fn index_of(n: int, pos: int) -> int {
    pos + n * 16
}

/// Input of the quantizer for a step: its value spread over the range, moved up
/// by the octaves.
pub open spec fn pitch_counts(s: Storage, n: int, index: int, cpo: int) -> int {
    s.seq[index] as int * (s.range_fader[n] as int / 1000 + 1) * cpo / 4095 + s.oct_fader[n] as int
        / 1000 * cpo
}

impl Seq8 {
    /// A track plays a step at this tick.
    pub open spec fn steps_at(self, n: int, plan: Plan, tick: int) -> bool {
        tick % plan.res[n] as int == 0
    }

    pub open spec fn pos_at(self, n: int, plan: Plan, tick: int, roll: int) -> int {
        position(
            self.tracks[n].direction,
            tick / plan.res[n] as int,
            plan.lengths[n] as int,
            roll,
        )
    }

    /// Index of the step that a track plays at a tick, where it plays one.
    pub fn step_at(&self, n: usize, plan: &Plan, tick: u64, roll: u16) -> (r: Option<usize>)
        requires
            n < 4,
            plan.wf(),
            tick <= u32::MAX,
        ensures
            r == if self.steps_at(n as int, *plan, tick as int) {
                Some(
                    index_of(
                        n as int,
                        self.pos_at(n as int, *plan, tick as int, roll as int),
                    ) as usize,
                )
            } else {
                None
            },
            r matches Some(i) ==> n * 16 <= i < n * 16 + 16,
    {
        let clockn: usize = tick as usize;
        let res: usize = plan.res[n];
        assert(plan.res[n as int] >= 2 && 1 <= plan.lengths[n as int] <= 16);
        if clockn % res == 0 {
            let step: usize = clockn / res;
            let pos: usize = step_position(self.tracks[n].direction, step, plan.lengths[n], roll);
            Some(pos + n * 16)
        } else {
            None
        }
    }

    /// Input of the quantizer for a step. `cpo` is the nominal octave.
    pub fn pitch_input(&self, n: usize, index: usize, cpo: u32) -> (r: u16)
        requires
            self.wf(),
            n < 4,
            index < 64,
            cpo <= 4096,
        ensures
            r == pitch_counts(self.store, n as int, index as int, cpo as int),
    {
        let v: u32 = self.store.seq[index] as u32;
        let span: u32 = (self.store.range_fader[n] / 1000 + 1) as u32;
        let oct: u32 = (self.store.oct_fader[n] / 1000) as u32;
        assert(v <= 4095 && span <= 5 && oct <= 4) by {
            assert(self.store.seq[index as int] <= 4095);
            assert(self.store.range_fader[n as int] <= 4095);
            assert(self.store.oct_fader[n as int] <= 4095);
        }
        assert(0 <= v * span <= 20475) by (nonlinear_arith)
            requires
                v <= 4095,
                span <= 5,
        ;
        let vs: u32 = v * span;
        assert(0 <= vs * cpo <= 20475 * 4096) by (nonlinear_arith)
            requires
                vs <= 20475,
                cpo <= 4096,
        ;
        assert(0 <= oct * cpo <= 4 * 4096) by (nonlinear_arith)
            requires
                oct <= 4,
                cpo <= 4096,
        ;
        (vs * cpo / 4095) as u16 + (oct * cpo) as u16
    }

    /// Velocity of a track: that of its velocity lane, where it has one.
    pub open spec fn velocity(self, n: int) -> u16 {
        if n == 0 && self.vel_lane_2 {
            self.tracks[1].vel_source
        } else if n == 2 && self.vel_lane_4 {
            self.tracks[3].vel_source
        } else {
            4095
        }
    }

    /// CV of a pitch with the track's transposition.
    pub open spec fn pitch_cv(self, n: int, counts: int) -> int {
        clamp_int(
            counts + quot(self.tracks[n].transpo as int * self.counts_per_oct as int, 12),
            0,
            4095,
        )
    }

    /// The step fires: its gate is set, the track is not muted and the die is
    /// below the probability.
    pub open spec fn fires(self, n: int, plan: Plan, index: int, roll: int) -> bool {
        plan.gates[index] && !self.store.muted[n] && roll < self.tracks[n].probability
    }

    /// Track and acts when the step at a position is played. A velocity lane
    /// puts its raw value out and sends no MIDI.
    pub open spec fn next_of(self, n: int, plan: Plan, pos: int, roll: int, pitch: Pitch) -> (
        Track,
        Seq<Act>,
    ) {
        let t = self.tracks[n];
        let index = index_of(n, pos);
        let jack = (2 * n + 1) as usize;
        let raw = self.store.seq[index];
        let lane = self.lane(n);
        let base = Track {
            last_index: index as usize,
            pos: pos as usize,
            prev_legato: plan.legato[index],
            ..t
        };
        let offs = if lane { Seq::empty() } else {
            seq![Act::NoteOff { out: n as usize, note: t.last_note }]
        };
        if !self.fires(n, plan, index, roll) {
            (base, offs + seq![Act::GateLow { jack }])
        } else if lane {
            (
                Track {
                    vel_source: max_int(raw as int, 1) as u16,
                    target_cv: raw,
                    sliding: t.prev_legato,
                    ..base
                },
                offs + seq![Act::GateHigh { jack }],
            )
        } else {
            (
                Track {
                    last_note: pitch.note,
                    target_cv: self.pitch_cv(n, pitch.counts as int) as u16,
                    sliding: t.prev_legato,
                    ..base
                },
                offs + seq![
                    Act::NoteOn { out: n as usize, note: pitch.note, vel: self.velocity(n) },
                    Act::GateHigh { jack },
                ],
            )
        }
    }

    /// State and acts when a track plays the step at a position. A step that
    /// fires takes over all tracks' gate lengths.
    pub open spec fn played(self, n: int, plan: Plan, pos: int, roll: int, pitch: Pitch) -> (
        Seq8,
        Seq<Act>,
    ) {
        let (next, acts) = self.next_of(n, plan, pos, roll, pitch);
        let tracks = spec_array_update(self.tracks, n, next);
        (
            Seq8 {
                tracks: if self.fires(n, plan, index_of(n, pos), roll) {
                    all_latched(tracks)
                } else {
                    tracks
                },
                ..self
            },
            acts,
        )
    }

    fn transposed_cv(&self, n: usize, counts: u16) -> (r: u16)
        requires
            self.wf(),
            n < 4,
        ensures
            r == self.pitch_cv(n as int, counts as int),
    {
        let (semis, cpo): (i32, i32) = (self.tracks[n].transpo as i32, self.counts_per_oct as i32);
        assert(-600_000 <= semis * cpo <= 600_000) by (nonlinear_arith)
            requires
                -128 <= semis <= 127,
                0 <= cpo <= 4096,
        ;
        let shift: i32 = div_toward_zero(semis * cpo, 12);
        clamp_full(counts as i32 + shift)
    }

    fn next_track(&self, n: usize, plan: &Plan, index: usize, roll: u16, pitch: Pitch) -> (r: (
        Track,
        Vec<Act>,
    ))
        requires
            self.wf(),
            n < 4,
            n * 16 <= index < n * 16 + 16,
        ensures
            (r.0, r.1@) == self.next_of(n as int, *plan, index - n * 16, roll as int, pitch),
            r.0.wf(),
    {
        let lane = self.is_lane(n);
        let mut t = self.tracks[n];
        assert(t.wf());
        let legato_before = t.prev_legato;
        let mut acts: Vec<Act> = Vec::new();
        if !lane {
            acts.push(Act::NoteOff { out: n, note: t.last_note });
        }
        t.last_index = index;
        t.pos = index - n * 16;
        t.prev_legato = plan.legato[index];
        if plan.gates[index] && !self.store.muted[n] && roll < t.probability {
            t.sliding = legato_before;
            if lane {
                let raw: u16 = self.store.seq[index];
                t.vel_source = if raw < 1 { 1 } else { raw };
                t.target_cv = raw;
            } else {
                let vel: u16 = if n == 0 && self.vel_lane_2 {
                    self.tracks[1].vel_source
                } else if n == 2 && self.vel_lane_4 {
                    self.tracks[3].vel_source
                } else {
                    4095
                };
                t.last_note = pitch.note;
                t.target_cv = self.transposed_cv(n, pitch.counts);
                acts.push(Act::NoteOn { out: n, note: pitch.note, vel });
            }
            acts.push(Act::GateHigh { jack: 2 * n + 1 });
        } else {
            acts.push(Act::GateLow { jack: 2 * n + 1 });
        }
        assert(acts@ =~= self.next_of(n as int, *plan, index - n * 16, roll as int, pitch).1);
        (t, acts)
    }

    fn play(&mut self, n: usize, plan: &Plan, index: usize, roll: u16, pitch: Pitch) -> (acts: Vec<Act>)
        requires
            old(self).wf(),
            n < 4,
            n * 16 <= index < n * 16 + 16,
        ensures
            final(self).wf(),
            (*final(self), acts@) == old(self).played(
                n as int,
                *plan,
                index - n * 16,
                roll as int,
                pitch,
            ),
    {
        let ghost s0 = *self;
        let fires = plan.gates[index] && !self.store.muted[n] && roll < self.tracks[n].probability;
        let (t, acts) = self.next_track(n, plan, index, roll, pitch);
        self.tracks[n] = t;
        assert(self.tracks =~= spec_array_update(s0.tracks, n as int, t));
        assert forall|k: int| 0 <= k < 4 implies (#[trigger] self.tracks[k]).wf() by {
            assert(s0.tracks[k].wf());
        }
        let ghost mid = self.tracks;
        if fires {
            latch_gates(&mut self.tracks);
            assert forall|k: int| 0 <= k < 4 implies (#[trigger] self.tracks[k]).wf() by {
                assert(mid[k].wf());
            }
        }
        acts
    }

    /// A track's last step has its gate end at this tick. A legato step's
    /// does not.
    pub open spec fn gate_over(self, n: int, plan: Plan, tick: int) -> Seq<Act> {
        let t = self.tracks[n];
        let index = t.last_index as int;
        if tick >= t.gate_used && (tick - t.gate_used) % plan.res[n] as int == 0
            && plan.gates[index] && !plan.legato[index] {
            seq![Act::GateLow { jack: (2 * n + 1) as usize }] + (if self.lane(n) {
                Seq::empty()
            } else {
                seq![Act::NoteOff { out: n as usize, note: t.last_note }]
            })
        } else {
            Seq::empty()
        }
    }

    /// State and acts of a track at a tick.
    pub open spec fn track_at(
        self,
        n: int,
        plan: Plan,
        tick: int,
        rolls: (u16, u16),
        pitch: Pitch,
    ) -> (Seq8, Seq<Act>) {
        let (s, acts) = if self.steps_at(n, plan, tick) {
            self.played(
                n,
                plan,
                self.pos_at(n, plan, tick, rolls.0 as int),
                rolls.1 as int,
                pitch,
            )
        } else {
            (self, Seq::empty())
        };
        (s, acts + s.gate_over(n, plan, tick))
    }

    /// A track at a clock tick. The last track comes first, so that a velocity
    /// lane has its value ready for the track before it. The rolls are one for
    /// a random position and one for the probability; the pitch is that of the
    /// step that `step_at` gives.
    pub fn on_track(&mut self, n: usize, plan: &Plan, tick: u64, rolls: (u16, u16), pitch: Pitch) -> (acts:
        Vec<Act>)
        requires
            old(self).wf(),
            plan.wf(),
            n < 4,
            tick <= u32::MAX,
        ensures
            final(self).wf(),
            (*final(self), acts@) == old(self).track_at(
                n as int,
                *plan,
                tick as int,
                rolls,
                pitch,
            ),
    {
        let ghost s0 = *self;
        let mut acts: Vec<Act> = match self.step_at(n, plan, tick, rolls.0) {
            Some(index) => self.play(n, plan, index, rolls.1, pitch),
            None => Vec::new(),
        };
        let ghost s1 = *self;
        let ghost a1 = acts@;
        let t = self.tracks[n];
        assert(t.wf());
        let gate: u64 = t.gate_used as u64;
        assert(plan.res[n as int] >= 2);
        if tick >= gate && (tick - gate) % plan.res[n] as u64 == 0 {
            if plan.gates[t.last_index] && !plan.legato[t.last_index] {
                acts.push(Act::GateLow { jack: 2 * n + 1 });
                if !self.is_lane(n) {
                    acts.push(Act::NoteOff { out: n, note: t.last_note });
                }
            }
        }
        assert(acts@ =~= a1 + s1.gate_over(n as int, *plan, tick as int));
        acts
    }

    /// A clock tick begins: it is noted for the display.
    pub fn note_tick(&mut self, tick: u64)
        requires
            old(self).wf(),
        ensures
            final(self).wf(),
            *final(self) == (Seq8 { ticks: tick, ..*old(self) }),
    {
        self.ticks = tick;
    }

    /// Acts that silence the first tracks.
    pub open spec fn silence(self, n: int) -> Seq<Act>
        decreases n,
    {
        if n <= 0 {
            Seq::empty()
        } else {
            self.silence(n - 1) + seq![
                Act::NoteOff { out: (n - 1) as usize, note: self.tracks[n - 1].last_note },
                Act::GateLow { jack: (2 * n - 1) as usize },
            ]
        }
    }

    /// The clock is reset or stops: everything is silenced.
    pub fn on_stop(&self) -> (acts: Vec<Act>)
        ensures
            acts@ == self.silence(4),
    {
        let mut acts: Vec<Act> = Vec::new();
        let mut n: usize = 0;
        while n < 4
            invariant
                n <= 4,
                acts@ == self.silence(n as int),
            decreases 4 - n,
        {
            acts.push(Act::NoteOff { out: n, note: self.tracks[n].last_note });
            acts.push(Act::GateLow { jack: 2 * n + 1 });
            n = n + 1;
            assert(acts@ =~= self.silence(n as int));
        }
        acts
    }

    /// A note arrives for a track: it transposes around middle C.
    pub fn on_transpose(&mut self, n: usize, key: u8)
        requires
            old(self).wf(),
            n < 4,
            key <= 127,
        ensures
            final(self).wf(),
            *final(self) == (Seq8 {
                tracks: spec_array_update(
                    old(self).tracks,
                    n as int,
                    (Track { transpo: (key - 60) as i8, ..old(self).tracks[n as int] }),
                ),
                ..*old(self)
            }),
    {
        let ghost s0 = *self;
        let mut t = self.tracks[n];
        assert(t.wf());
        t.transpo = key as i8 - 60;
        self.tracks[n] = t;
        assert(self.tracks =~= spec_array_update(s0.tracks, n as int, t));
    }
}

/// A muted track never fires, whatever the die says.
pub proof fn muted_tracks_are_silent(s: Seq8, n: int, plan: Plan, index: int, roll: int)
    requires
        s.store.muted[n],
    ensures
        !s.fires(n, plan, index, roll),
{
}

/// Notes of a track never overlap: a step that sounds ends the note before it
/// first, and a velocity lane sends none at all.
pub proof fn notes_never_overlap(s: Seq8, n: int, plan: Plan, pos: int, roll: int, pitch: Pitch)
    requires
        0 <= n < 4,
    ensures
        !s.lane(n) ==> s.played(n, plan, pos, roll, pitch).1[0] == (Act::NoteOff {
            out: n as usize,
            note: s.tracks[n].last_note,
        }),
        s.lane(n) ==> forall|k: int|
            0 <= k < s.played(n, plan, pos, roll, pitch).1.len() ==> (#[trigger] s.played(
                n,
                plan,
                pos,
                roll,
                pitch,
            ).1[k]) !is NoteOn,
{
}

/// A step that fired, and is not legato, has its gate closed as many ticks
/// later as its gate length says.
pub proof fn gates_close_on_time(s: Seq8, n: int, plan: Plan, start: int)
    requires
        0 <= n < 4,
        plan.wf(),
        0 <= start,
        start % plan.res[n] as int == 0,
        plan.gates[s.tracks[n].last_index as int],
        !plan.legato[s.tracks[n].last_index as int],
    ensures
        s.gate_over(n, plan, start + s.tracks[n].gate_used).len() > 0,
        s.gate_over(n, plan, start + s.tracks[n].gate_used)[0] == (Act::GateLow {
            jack: (2 * n + 1) as usize,
        }),
{
}

// ---------------------------------------------------------------------------
// Faders and buttons
// ---------------------------------------------------------------------------

/// Setting behind a shifted fader.
pub open spec fn alt_value(s: Storage, chan: int, n: int) -> u16 {
    if chan == 0 {
        s.length_fader[n]
    } else if chan == 1 {
        s.gate_fader[n]
    } else if chan == 2 {
        s.oct_fader[n]
    } else if chan == 3 {
        s.range_fader[n]
    } else if chan == 4 {
        s.res_fader[n]
    } else if chan == 5 {
        s.direction_fader[n]
    } else if chan == 6 {
        s.probability_fader[n]
    } else if chan == 7 {
        s.slide_fader[n]
    } else {
        0
    }
}

pub fn get_alt_target(chan: usize, n: usize, s: &Storage) -> (r: u16)
    requires
        n < 4,
    ensures
        r == alt_value(*s, chan as int, n as int),
{
    match chan {
        0 => s.length_fader[n],
        1 => s.gate_fader[n],
        2 => s.oct_fader[n],
        3 => s.range_fader[n],
        4 => s.res_fader[n],
        5 => s.direction_fader[n],
        6 => s.probability_fader[n],
        7 => s.slide_fader[n],
        _ => 0,
    }
}

/// Settings with the one behind a shifted fader replaced.
pub open spec fn with_alt(s: Storage, chan: int, n: int, v: u16) -> Storage {
    if chan == 0 {
        Storage { length_fader: spec_array_update(s.length_fader, n, v), ..s }
    } else if chan == 1 {
        Storage { gate_fader: spec_array_update(s.gate_fader, n, v), ..s }
    } else if chan == 2 {
        Storage { oct_fader: spec_array_update(s.oct_fader, n, v), ..s }
    } else if chan == 3 {
        Storage { range_fader: spec_array_update(s.range_fader, n, v), ..s }
    } else if chan == 4 {
        Storage { res_fader: spec_array_update(s.res_fader, n, v), ..s }
    } else if chan == 5 {
        Storage { direction_fader: spec_array_update(s.direction_fader, n, v), ..s }
    } else if chan == 6 {
        Storage { probability_fader: spec_array_update(s.probability_fader, n, v), ..s }
    } else if chan == 7 {
        Storage { slide_fader: spec_array_update(s.slide_fader, n, v), ..s }
    } else {
        s
    }
}

fn set_alt(s: &mut Storage, chan: usize, n: usize, v: u16)
    requires
        old(s).valid(),
        n < 4,
        v <= 4095,
    ensures
        *final(s) == with_alt(*old(s), chan as int, n as int, v),
        final(s).valid(),
{
    match chan {
        0 => {
            s.length_fader[n] = v;
        },
        1 => {
            s.gate_fader[n] = v;
        },
        2 => {
            s.oct_fader[n] = v;
        },
        3 => {
            s.range_fader[n] = v;
        },
        4 => {
            s.res_fader[n] = v;
        },
        5 => {
            s.direction_fader[n] = v;
        },
        6 => {
            s.probability_fader[n] = v;
        },
        7 => {
            s.slide_fader[n] = v;
        },
        _ => {},
    }
}

/// Every shifted fader keeps its own setting for every track.
pub proof fn alt_settings_are_separate(s: Storage, c1: int, n1: int, c2: int, n2: int, v: u16)
    requires
        0 <= c1 < 8,
        0 <= c2 < 8,
        0 <= n1 < 4,
        0 <= n2 < 4,
    ensures
        alt_value(with_alt(s, c1, n1, v), c1, n1) == v,
        c1 != c2 || n1 != n2 ==> alt_value(with_alt(s, c1, n1, v), c2, n2) == alt_value(s, c2, n2),
{
}

impl Track {
    /// Track after a shifted fader has moved. A new resolution cuts a
    /// gate down to the step, but does not stretch it.
    pub open spec fn with_setting(self, chan: int, v: int) -> Track {
        if chan == 0 {
            Track { seq_length: length_of(v) as u8, ..self }
        } else if chan == 1 {
            Track { gate_length: gate_of(self.clockres as int, v) as u8, ..self }
        } else if chan == 4 {
            Track {
                clockres: res_of(v) as usize,
                gate_length: clamp_int(self.gate_length as int, 1, res_of(v)) as u8,
                ..self
            }
        } else if chan == 5 {
            Track { direction: Direction::at(v), ..self }
        } else if chan == 6 {
            Track { probability: threshold_of(v) as u16, ..self }
        } else {
            self
        }
    }

    fn apply(&mut self, chan: usize, v: u16)
        requires
            old(self).wf(),
            v <= 4095,
        ensures
            *final(self) == old(self).with_setting(chan as int, v as int),
            final(self).wf(),
    {
        match chan {
            0 => {
                self.seq_length = length_fader_to_seq_length(v);
            },
            1 => {
                self.gate_length = gate_ticks(self.clockres, v);
            },
            4 => {
                let res: usize = step_ticks(v);
                self.clockres = res;
                self.gate_length = if self.gate_length < 1 {
                    1
                } else if self.gate_length as usize > res {
                    res as u8
                } else {
                    self.gate_length
                };
            },
            5 => {
                self.direction = Direction::from_fader(v);
            },
            6 => {
                self.probability = probability_threshold(v);
            },
            _ => {},
        }
    }
}

impl Seq8 {
    /// The layer follows shift.
    pub fn set_layer(&mut self, shift: bool)
        requires
            old(self).wf(),
        ensures
            final(self).wf(),
            *final(self) == (Seq8 {
                layer: if shift { LatchLayer::Alt } else { LatchLayer::Main },
                ..*old(self)
            }),
    {
        self.layer = if shift {
            LatchLayer::Alt
        } else {
            LatchLayer::Main
        };
    }

    /// Index of the step behind a channel on the current page.
    pub open spec fn cell(self, chan: int) -> int {
        chan + self.page * 8
    }

    /// Value that a fader has to pass before it takes over.
    pub fn fader_target(&self, chan: usize) -> (r: u16)
        requires
            self.wf(),
            chan < 8,
        ensures
            r == match self.layer {
                LatchLayer::Main => self.store.seq[self.cell(chan as int)],
                LatchLayer::Alt => alt_value(self.store, chan as int, self.page as int / 2),
                LatchLayer::Third => 0,
            },
    {
        match self.layer {
            LatchLayer::Main => self.store.seq[chan + self.page * 8],
            LatchLayer::Alt => get_alt_target(chan, self.page / 2, &self.store),
            LatchLayer::Third => 0,
        }
    }

    /// State after a shifted fader has set its setting of a track.
    pub open spec fn alt_updated(self, chan: int, n: int, v: u16) -> Seq8 {
        if 0 <= chan < 8 {
            Seq8 {
                store: with_alt(self.store, chan, n, v),
                tracks: spec_array_update(
                    self.tracks,
                    n,
                    self.tracks[n].with_setting(chan, v as int),
                ),
                ..self
            }
        } else {
            self
        }
    }

    /// Sets the setting that a shifted fader has for a track. There are eight
    /// such faders; any other changes nothing.
    pub fn apply_alt_update(&mut self, chan: usize, seq_idx: usize, value: u16) -> (acts: Vec<Act>)
        requires
            old(self).wf(),
            seq_idx < 4,
            value <= 4095,
        ensures
            final(self).wf(),
            *final(self) == old(self).alt_updated(chan as int, seq_idx as int, value),
            acts@ == if chan < 8 { seq![Act::Save] } else { Seq::<Act>::empty() },
    {
        if chan >= 8 {
            return Vec::new();
        }
        let ghost s0 = *self;
        set_alt(&mut self.store, chan, seq_idx, value);
        let mut t = self.tracks[seq_idx];
        assert(t.wf());
        t.apply(chan, value);
        self.tracks[seq_idx] = t;
        assert(self.tracks =~= spec_array_update(s0.tracks, seq_idx as int, t));
        assert forall|k: int| 0 <= k < 4 implies (#[trigger] self.tracks[k]).wf() by {
            assert(s0.tracks[k].wf());
        }
        one(Act::Save)
    }

    /// A fader has taken over its layer with a value: a step's value, or a
    /// setting of the page's track.
    pub fn on_fader(&mut self, chan: usize, v: u16) -> (acts: Vec<Act>)
        requires
            old(self).wf(),
            chan < 8,
            v <= 4095,
        ensures
            final(self).wf(),
            ({
                let n = old(self).page as int / 2;
                match old(self).layer {
                    LatchLayer::Main => acts@ == seq![Act::Save] && *final(self) == (Seq8 {
                        store: (Storage {
                            seq: spec_array_update(
                                old(self).store.seq,
                                old(self).cell(chan as int),
                                v,
                            ),
                            ..old(self).store
                        }),
                        ..*old(self)
                    }),
                    LatchLayer::Alt => acts@ == seq![Act::Save] && *final(self) == old(
                        self,
                    ).alt_updated(chan as int, n, v),
                    LatchLayer::Third => acts@ == Seq::<Act>::empty() && *final(self) == *old(self),
                }
            }),
    {
        let ghost s0 = *self;
        match self.layer {
            LatchLayer::Main => {
                let i: usize = chan + self.page * 8;
                self.store.seq[i] = v;
                assert(self.store.seq =~= spec_array_update(s0.store.seq, i as int, v));
                one(Act::Save)
            },
            LatchLayer::Alt => self.apply_alt_update(chan, self.page / 2, v),
            LatchLayer::Third => Vec::new(),
        }
    }

    /// State with a step's gate and legato replaced.
    pub open spec fn with_step(self, i: int, gate: bool, legato: bool) -> Seq8 {
        Seq8 {
            store: (Storage {
                gateseq: spec_array_update(self.store.gateseq, i, gate),
                legato_seq: spec_array_update(self.store.legato_seq, i, legato),
                ..self.store
            }),
            ..self
        }
    }

    fn set_step(&mut self, i: usize, gate: bool, legato: bool)
        requires
            old(self).wf(),
            i < 64,
        ensures
            final(self).wf(),
            *final(self) == old(self).with_step(i as int, gate, legato),
    {
        let ghost s0 = *self;
        self.store.gateseq[i] = gate;
        self.store.legato_seq[i] = legato;
        assert(self.store.gateseq =~= spec_array_update(s0.store.gateseq, i as int, gate));
        assert(self.store.legato_seq =~= spec_array_update(s0.store.legato_seq, i as int, legato));
    }

    /// State and acts when a button goes down: it toggles its step, which then
    /// is not legato; with shift it selects a page.
    pub open spec fn pressed(self, chan: usize, shift: bool) -> (Seq8, Seq<Act>) {
        let i = self.cell(chan as int);
        if shift {
            (Seq8 { prev_page: self.page, page: chan, ..self }, Seq::empty())
        } else {
            (self.with_step(i, !self.store.gateseq[i], false), seq![Act::Save])
        }
    }

    pub fn on_press(&mut self, chan: usize, shift: bool) -> (acts: Vec<Act>)
        requires
            old(self).wf(),
            chan < 8,
        ensures
            final(self).wf(),
            (*final(self), acts@) == old(self).pressed(chan, shift),
    {
        if shift {
            self.prev_page = self.page;
            self.page = chan;
            Vec::new()
        } else {
            let i: usize = chan + self.page * 8;
            let gate = !self.store.gateseq[i];
            self.set_step(i, gate, false);
            one(Act::Save)
        }
    }

    /// State and acts when a button has been held for long: its step turns
    /// legato, or back; with shift an even button mutes a track, and the page
    /// that the press had selected is left again.
    pub open spec fn held_long(self, chan: usize, shift: bool) -> (Seq8, Seq<Act>) {
        let i = self.cell(chan as int);
        let n = chan as int / 2;
        if !shift {
            (self.with_step(i, true, !self.store.legato_seq[i]), seq![Act::Save])
        } else if chan % 2 == 0 {
            (
                Seq8 {
                    page: self.prev_page,
                    store: (Storage {
                        muted: spec_array_update(self.store.muted, n, !self.store.muted[n]),
                        ..self.store
                    }),
                    ..self
                },
                seq![Act::Save],
            )
        } else {
            (self, Seq::empty())
        }
    }

    pub fn on_long_press(&mut self, chan: usize, shift: bool) -> (acts: Vec<Act>)
        requires
            old(self).wf(),
            chan < 8,
        ensures
            final(self).wf(),
            (*final(self), acts@) == old(self).held_long(chan, shift),
    {
        let ghost s0 = *self;
        if !shift {
            let i: usize = chan + self.page * 8;
            let legato = !self.store.legato_seq[i];
            self.set_step(i, true, legato);
            one(Act::Save)
        } else if chan % 2 == 0 {
            self.page = self.prev_page;
            let n: usize = chan / 2;
            let muted = !self.store.muted[n];
            self.store.muted[n] = muted;
            assert(self.store.muted =~= spec_array_update(s0.store.muted, n as int, muted));
            one(Act::Save)
        } else {
            Vec::new()
        }
    }
}

/// Muting by a long press leaves the page as it was before the press.
pub proof fn muting_keeps_the_page(s: Seq8, chan: usize)
    requires
        s.wf(),
        chan < 8,
        chan % 2 == 0,
    ensures
        s.pressed(chan, true).0.held_long(chan, true).0.page == s.page,
        s.pressed(chan, true).0.held_long(chan, true).0.store.seq == s.store.seq,
        s.pressed(chan, true).0.held_long(chan, true).0.store.muted[chan as int / 2]
            == !s.store.muted[chan as int / 2],
{
}

/// A legato step always has its gate, and a toggled step never is legato.
pub proof fn legato_steps_have_gates(s: Seq8, chan: usize)
    requires
        s.wf(),
        chan < 8,
    ensures
        s.held_long(chan, false).0.store.gateseq[s.cell(chan as int)],
        !s.pressed(chan, false).0.store.legato_seq[s.cell(chan as int)],
{
    let i = s.cell(chan as int);
    assert(0 <= i < 64);
}

// ---------------------------------------------------------------------------
// LEDs
// ---------------------------------------------------------------------------

pub open spec fn track_hue(n: int) -> Color {
    if n == 0 {
        Color::Yellow
    } else if n == 1 {
        Color::Pink
    } else if n == 2 {
        Color::Cyan
    } else {
        Color::White
    }
}

pub fn track_color(n: usize) -> (c: Color)
    ensures
        c == track_hue(n as int),
{
    match n {
        0 => Color::Yellow,
        1 => Color::Pink,
        2 => Color::Cyan,
        _ => Color::White,
    }
}

impl Seq8 {
    /// Track of the current page.
    pub open spec fn here(self) -> Track {
        self.tracks[self.page as int / 2]
    }

    /// Button of a page while shift is held.
    pub open spec fn page_light(self, n: int) -> Act {
        if self.store.muted[n / 2] {
            Act::Dark { chan: n as usize, led: Led::Button }
        } else {
            Act::Light {
                chan: n as usize,
                led: Led::Button,
                color: track_hue(n / 2),
                bright: if n == self.page { Brightness::High } else { Brightness::Mid },
            }
        }
    }

    /// One of the sixteen step LEDs while shift is held: the length of the
    /// track, with the playing step dimmed.
    pub open spec fn step_light(self, n: int) -> Act {
        let t = self.here();
        let two = t.clockres == 2 || t.clockres == 4 || t.clockres == 8 || t.clockres == 16;
        Act::Light {
            chan: (if n < 8 { n } else { n - 8 }) as usize,
            led: if n < 8 { Led::Top } else { Led::Bottom },
            color: if two { Color::Orange } else { Color::Blue },
            bright: if n >= t.seq_length {
                Brightness::Off
            } else if n == t.pos {
                Brightness::Low
            } else {
                Brightness::Mid
            },
        }
    }

    pub open spec fn page_lights(self, n: int) -> Seq<Act>
        decreases n,
    {
        if n <= 0 { Seq::empty() } else { self.page_lights(n - 1).push(self.page_light(n - 1)) }
    }

    pub open spec fn step_lights(self, n: int) -> Seq<Act>
        decreases n,
    {
        if n <= 0 { Seq::empty() } else { self.step_lights(n - 1).push(self.step_light(n - 1)) }
    }

    /// The LEDs while shift is held.
    pub fn paint_shift(&self) -> (acts: Vec<Act>)
        requires
            self.wf(),
        ensures
            acts@ == self.page_lights(8) + self.step_lights(16),
    {
        let mut acts: Vec<Act> = Vec::new();
        let mut n: usize = 0;
        while n < 8
            invariant
                n <= 8,
                acts@ == self.page_lights(n as int),
            decreases 8 - n,
        {
            if self.store.muted[n / 2] {
                acts.push(Act::Dark { chan: n, led: Led::Button });
            } else {
                acts.push(
                    Act::Light {
                        chan: n,
                        led: Led::Button,
                        color: track_color(n / 2),
                        bright: if n == self.page {
                            Brightness::High
                        } else {
                            Brightness::Mid
                        },
                    },
                );
            }
            n = n + 1;
        }
        let t = self.tracks[self.page / 2];
        let two = t.clockres == 2 || t.clockres == 4 || t.clockres == 8 || t.clockres == 16;
        let color = if two {
            Color::Orange
        } else {
            Color::Blue
        };
        let ghost a1 = acts@;
        assert(acts@ =~= a1 + self.step_lights(0));
        n = 0;
        while n < 16
            invariant
                n <= 16,
                t == self.here(),
                color == if t.clockres == 2 || t.clockres == 4 || t.clockres == 8 || t.clockres
                    == 16 {
                    Color::Orange
                } else {
                    Color::Blue
                },
                acts@ == a1 + self.step_lights(n as int),
            decreases 16 - n,
        {
            let bright = if n >= t.seq_length as usize {
                Brightness::Off
            } else if n == t.pos {
                Brightness::Low
            } else {
                Brightness::Mid
            };
            if n < 8 {
                acts.push(Act::Light { chan: n, led: Led::Top, color, bright });
            } else {
                acts.push(Act::Light { chan: n - 8, led: Led::Bottom, color, bright });
            }
            n = n + 1;
            assert(acts@ =~= a1 + self.step_lights(n as int));
        }
        acts
    }

    /// Lights of a channel on a page: its value, its step, and whether the page
    /// of that number plays.
    pub open spec fn cell_lights(self, n: int) -> Seq<Act> {
        let chan = n as usize;
        let color = track_hue(self.page as int / 2);
        let quiet = self.store.muted[self.page as int / 2];
        let i = self.cell(n);
        let plays = if n % 2 == 0 { self.tracks[n / 2].pos < 8 } else {
            self.tracks[n / 2].pos >= 8
        };
        seq![
            if quiet {
                Act::Dark { chan, led: Led::Top }
            } else {
                Act::Light {
                    chan,
                    led: Led::Top,
                    color,
                    bright: Brightness::Custom((self.store.seq[i] as int / 16 / 2) as u8),
                }
            },
            Act::Light {
                chan,
                led: Led::Button,
                color,
                bright: if quiet {
                    Brightness::Low
                } else if self.store.legato_seq[i] {
                    Brightness::High
                } else if self.store.gateseq[i] {
                    Brightness::Mid
                } else {
                    Brightness::Low
                },
            },
        ] + (if n >= self.here().seq_length - self.page as int % 2 * 8 {
            seq![Act::Dark { chan, led: Led::Button }]
        } else {
            Seq::empty()
        }) + seq![
            if plays && !self.store.muted[n / 2] {
                Act::Light { chan, led: Led::Bottom, color: Color::Red, bright: Brightness::Mid }
            } else {
                Act::Dark { chan, led: Led::Bottom }
            },
        ]
    }

    pub open spec fn cells(self, n: int) -> Seq<Act>
        decreases n,
    {
        if n <= 0 { Seq::empty() } else { self.cells(n - 1) + self.cell_lights(n - 1) }
    }

    /// The step that plays, where it lies on the page and sounds.
    pub open spec fn playing_light(self) -> Seq<Act> {
        let offset = self.page as int % 2 * 8;
        let pos = self.here().pos;
        if !self.store.muted[self.page as int / 2] && self.ticks != 0 && offset <= pos < offset + 8 {
            seq![
                Act::Light {
                    chan: (pos - offset) as usize,
                    led: Led::Button,
                    color: Color::Red,
                    bright: Brightness::Mid,
                },
            ]
        } else {
            Seq::empty()
        }
    }

    fn push_cell(&self, acts: &mut Vec<Act>, n: usize)
        requires
            self.wf(),
            n < 8,
        ensures
            final(acts)@ == old(acts)@ + self.cell_lights(n as int),
    {
        let ghost a0 = acts@;
        let track: usize = self.page / 2;
        let color = track_color(track);
        let quiet = self.store.muted[track];
        let i: usize = n + self.page * 8;
        assert(self.store.seq[i as int] <= 4095);
        if quiet {
            acts.push(Act::Dark { chan: n, led: Led::Top });
        } else {
            acts.push(
                Act::Light {
                    chan: n,
                    led: Led::Top,
                    color,
                    bright: Brightness::Custom((self.store.seq[i] / 16) as u8 / 2),
                },
            );
        }
        let bright = if quiet {
            Brightness::Low
        } else if self.store.legato_seq[i] {
            Brightness::High
        } else if self.store.gateseq[i] {
            Brightness::Mid
        } else {
            Brightness::Low
        };
        acts.push(Act::Light { chan: n, led: Led::Button, color, bright });
        if n + self.page % 2 * 8 >= self.tracks[track].seq_length as usize {
            acts.push(Act::Dark { chan: n, led: Led::Button });
        }
        let pos: usize = self.tracks[n / 2].pos;
        let plays = if n % 2 == 0 { pos < 8 } else { pos >= 8 };
        if plays && !self.store.muted[n / 2] {
            acts.push(
                Act::Light { chan: n, led: Led::Bottom, color: Color::Red, bright: Brightness::Mid },
            );
        } else {
            acts.push(Act::Dark { chan: n, led: Led::Bottom });
        }
        assert(acts@ =~= a0 + self.cell_lights(n as int));
    }

    /// The LEDs of the current page.
    pub fn paint_page(&self) -> (acts: Vec<Act>)
        requires
            self.wf(),
        ensures
            acts@ == self.cells(8) + self.playing_light() + seq![
                Act::Light {
                    chan: self.page,
                    led: Led::Bottom,
                    color: track_hue(self.page as int / 2),
                    bright: Brightness::High,
                },
            ],
    {
        let mut acts: Vec<Act> = Vec::new();
        let mut n: usize = 0;
        while n < 8
            invariant
                n <= 8,
                self.wf(),
                acts@ == self.cells(n as int),
            decreases 8 - n,
        {
            self.push_cell(&mut acts, n);
            n = n + 1;
        }
        let track: usize = self.page / 2;
        let offset: usize = self.page % 2 * 8;
        let pos: usize = self.tracks[track].pos;
        let ghost a1 = acts@;
        if !self.store.muted[track] && self.ticks != 0 && pos >= offset && pos < offset + 8 {
            acts.push(
                Act::Light {
                    chan: pos - offset,
                    led: Led::Button,
                    color: Color::Red,
                    bright: Brightness::Mid,
                },
            );
        }
        acts.push(
            Act::Light {
                chan: self.page,
                led: Led::Bottom,
                color: track_color(track),
                bright: Brightness::High,
            },
        );
        assert(acts@ =~= a1 + self.playing_light() + seq![
            Act::Light {
                chan: self.page,
                led: Led::Bottom,
                color: track_hue(track as int),
                bright: Brightness::High,
            },
        ]);
        acts
    }
}

/// A shifted fader sets its own setting of its own track and nothing else: all
/// other settings, the other tracks and the rest of the state stay. A new gate
/// length or resolution leaves a gate of at least a tick that fits its step. A
/// fader that is not there changes nothing.
pub proof fn alt_updates_stay_in_their_track(s: Seq8, chan: int, n: int, v: u16, c2: int, n2: int)
    requires
        s.wf(),
        0 <= n < 4,
        v <= 4095,
        0 <= c2 < 8,
        0 <= n2 < 4,
    ensures
        0 <= chan < 8 ==> alt_value(s.alt_updated(chan, n, v).store, chan, n) == v,
        chan != c2 || n != n2 ==> alt_value(s.alt_updated(chan, n, v).store, c2, n2) == alt_value(
            s.store,
            c2,
            n2,
        ),
        n != n2 ==> s.alt_updated(chan, n, v).tracks[n2] == s.tracks[n2],
        !(0 <= chan < 8) ==> s.alt_updated(chan, n, v) == s,
        chan == 1 || chan == 4 ==> 1 <= s.alt_updated(chan, n, v).tracks[n].gate_length
            <= s.alt_updated(chan, n, v).tracks[n].clockres,
{
    assert(s.tracks[n].wf());
    if 0 <= chan < 8 {
        alt_settings_are_separate(s.store, chan, n, c2, n2, v);
    }
}

} // verus!
