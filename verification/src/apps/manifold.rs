//! One CV in, three shaped outs with comparator modes.
//!
//! The conditioned input, or an internal oscillator where nothing is patched,
//! feeds three outputs. Each is a shaped copy, a gate or a trigger. All four
//! waves can be mirrored to MIDI.

use crate::apps::four_chan::{
    blinks, cc_for, channel_for, flash_hold, map_bit, mapped_cc, mapped_channel, mapped_note,
    next_range, note_for, range_after, range_flash_hold_ms, range_flash_times, wave_bit, Freeze,
    Patch, TickWatch, CC_MAP_MAX, CH_MAP_MAX, FADER_MOVE_THRESH, IN_IDLE_MS, MODE_MAP_MAX,
};
use crate::apps::led_fx::{color_hue, custom, hsv_to_rgb, hue_of, pure_hue};
use crate::bounded::{param_values, values_of};
use crate::panel::{
    abs_diff, clamp_full, clamp_int, dist, min_int, one, push_all, reads, reads_all, Act,
    Brightness, Color, LatchLayer, Led, MidiOut, ParamSlot, Range, SlotKind, Value,
};
use vstd::array::spec_array_update;
use vstd::prelude::*;

verus! {

pub const CHANNELS: usize = 4;
pub const PARAMS: usize = 16;

/// Default threshold.
pub const TRIG_HIGH: u16 = 2458;
/// Time for which a flash has the button to itself.
pub const BUTTON_FLASH_MS: u16 = 850;
/// Milliseconds between two mirrored waves.
pub const MIDI_PACE: u8 = 8;
/// Hue offsets from the app's colour: input, oscillator, CV, gate, trigger.
pub const HUE_OFFSETS: [u16; 5] = [0, 38, 76, 114, 152];

// ---------------------------------------------------------------------------
// Colours, pulses and modes
// ---------------------------------------------------------------------------

pub open spec fn hue_step(base: int, step: int) -> Color {
    custom(pure_hue((base + HUE_OFFSETS[min_int(step, 4)]) % 360))
}

pub fn hue_at(base: u16, step: usize) -> (c: Color)
    ensures
        c == hue_step(base as int, step as int),
{
    let offset: u16 = HUE_OFFSETS[if step < 4 {
        step
    } else {
        4
    }];
    assert(offset <= 152);
    let (r, g, b) = hsv_to_rgb(((base as u32 + offset as u32) % 360) as u16);
    Color::Custom(r, g, b)
}

pub open spec fn fader_of_pulse(ms: int) -> int {
    (clamp_int(ms, 1, 100) - 1) * 4095 / 99
}

pub fn pulse_ms_to_fader(ms: u16) -> (r: u16)
    ensures
        r == fader_of_pulse(ms as int),
        r <= 4095,
{
    let ms: u32 = if ms < 1 {
        1
    } else if ms > 100 {
        100
    } else {
        ms as u32
    };
    ((ms - 1) * 4095 / 99) as u16
}

pub open spec fn pulse_of(value: int) -> int {
    1 + value * 99 / 4095
}

pub fn pulse_fader_to_ms(value: u16) -> (r: u16)
    ensures
        r == pulse_of(value as int),
        1 <= r,
        value <= 4095 ==> r <= 100,
{
    1 + (value as u32 * 99 / 4095) as u16
}

/// Storing a pulse length on the fader scale loses less than a millisecond,
/// and never lengthens it.
pub proof fn pulse_round_trip(ms: int)
    requires
        1 <= ms <= 100,
    ensures
        ms - 1 <= pulse_of(fader_of_pulse(ms)) <= ms,
{
}

#[derive(Clone, Copy, Debug, PartialEq, Eq, Structural)]
pub enum Mode {
    Cv,
    Gate,
    Trigger,
}

impl Mode {
    pub open spec fn at(v: int) -> Mode {
        if v == 1 {
            Mode::Gate
        } else if v == 2 {
            Mode::Trigger
        } else {
            Mode::Cv
        }
    }

    pub open spec fn number(self) -> int {
        match self {
            Mode::Cv => 0,
            Mode::Gate => 1,
            Mode::Trigger => 2,
        }
    }

    pub fn from_usize(v: usize) -> (r: Self)
        ensures
            r == Mode::at(v as int),
    {
        match v {
            1 => Mode::Gate,
            2 => Mode::Trigger,
            _ => Mode::Cv,
        }
    }

    pub fn index(self) -> (r: usize)
        ensures
            r == self.number(),
    {
        match self {
            Mode::Cv => 0,
            Mode::Gate => 1,
            Mode::Trigger => 2,
        }
    }

    pub open spec fn after(self) -> Mode {
        match self {
            Mode::Cv => Mode::Gate,
            Mode::Gate => Mode::Trigger,
            Mode::Trigger => Mode::Cv,
        }
    }

    pub fn next(self) -> (r: Self)
        ensures
            r == self.after(),
    {
        match self {
            Mode::Cv => Mode::Gate,
            Mode::Gate => Mode::Trigger,
            Mode::Trigger => Mode::Cv,
        }
    }

    pub open spec fn hue(self, base: int) -> Color {
        hue_step(base, self.number() + 2)
    }

    /// Colour of an output in this mode.
    pub fn color(self, base: u16) -> (c: Color)
        ensures
            c == self.hue(base as int),
    {
        match self {
            Mode::Cv => hue_at(base, 2),
            Mode::Gate => hue_at(base, 3),
            Mode::Trigger => hue_at(base, 4),
        }
    }
}

/// Cycling goes through all modes, and a stored mode reads back.
pub proof fn modes_cycle(m: Mode)
    ensures
        m.after() != m,
        m.after().after() != m,
        m.after().after().after() == m,
        Mode::at(m.number()) == m,
{
}

// ---------------------------------------------------------------------------
// Parameters and settings
// ---------------------------------------------------------------------------

#[derive(Clone, Copy, Debug, PartialEq, Eq, Structural)]
pub struct Params {
    pub color: Color,
    pub in_range: Range,
    pub mode_b: Mode,
    pub range_b: Range,
    pub mode_c: Mode,
    pub range_c: Range,
    pub mode_d: Mode,
    pub range_d: Range,
    pub lfo_speed_mult: usize,
    pub midi_out: MidiOut,
    pub midi_channel: u8,
    /// Base controller; the four waves take the numbers from there.
    pub midi_cc: u16,
    pub nrpn: bool,
    /// Channel of each wave, four bits each; zero follows `midi_channel`.
    pub ch_map: i32,
    /// Controller of each wave, seven bits each; zero derives from `midi_cc`.
    pub cc_map: i32,
    /// Notes in place of controllers, a bit for each wave.
    pub mode_map: i32,
}

impl Params {
    pub open spec fn valid(self) -> bool {
        &&& 0 <= self.ch_map <= CH_MAP_MAX
        &&& 0 <= self.cc_map <= CC_MAP_MAX
        &&& 0 <= self.mode_map <= MODE_MAP_MAX
    }

    pub open spec fn default_for(channel: u8) -> Params {
        Params {
            color: Color::Violet,
            in_range: Range::VNeg5To5,
            mode_b: Mode::Cv,
            range_b: Range::VNeg5To5,
            mode_c: Mode::Gate,
            range_c: Range::VNeg5To5,
            mode_d: Mode::Trigger,
            range_d: Range::VNeg5To5,
            lfo_speed_mult: 0,
            midi_out: MidiOut { usb: false, out1: false, out2: false },
            midi_channel: channel,
            midi_cc: 32,
            nrpn: false,
            ch_map: 0,
            cc_map: 0,
            mode_map: 0,
        }
    }

    /// The parameters of a new app that sends on the device's default channel.
    pub fn with_channel(channel: u8) -> (r: Self)
        ensures
            r == Params::default_for(channel),
            r.valid(),
    {
        Params {
            color: Color::Violet,
            in_range: Range::VNeg5To5,
            mode_b: Mode::Cv,
            range_b: Range::VNeg5To5,
            mode_c: Mode::Gate,
            range_c: Range::VNeg5To5,
            mode_d: Mode::Trigger,
            range_d: Range::VNeg5To5,
            lfo_speed_mult: 0,
            midi_out: MidiOut { usb: false, out1: false, out2: false },
            midi_channel: channel,
            midi_cc: 32,
            nrpn: false,
            ch_map: 0,
            cc_map: 0,
            mode_map: 0,
        }
    }

    pub fn channel_for(&self, wave: usize) -> (r: u8)
        requires
            wave < 4,
        ensures
            r == mapped_channel(self.ch_map as int, self.midi_channel as int, wave as int),
    {
        channel_for(self.ch_map, self.midi_channel, wave)
    }

    pub fn cc_for(&self, wave: usize, nrpn: bool) -> (r: u16)
        requires
            wave < 4,
        ensures
            r == mapped_cc(self.cc_map as int, self.midi_cc as int, wave as int, nrpn),
    {
        cc_for(self.cc_map, self.midi_cc, wave, nrpn)
    }

    /// A wave sends notes where its bit is set and its output is a gate or a
    /// trigger; the input never does.
    pub open spec fn sends_notes(self, wave: int, modes: [Mode; 3]) -> bool {
        wave != 0 && map_bit(self.mode_map as int, wave) && modes[wave - 1] != Mode::Cv
    }

    pub fn midi_is_note(&self, wave: usize, modes: &[Mode; 3]) -> (r: bool)
        requires
            wave < 4,
        ensures
            r == self.sends_notes(wave as int, *modes),
    {
        if wave == 0 || self.mode_map == 0 {
            return false;
        }
        if !wave_bit(self.mode_map, wave) {
            return false;
        }
        match modes[wave - 1] {
            Mode::Cv => false,
            _ => true,
        }
    }

    pub fn note_for(&self, wave: usize) -> (r: u8)
        requires
            wave < 4,
        ensures
            r == mapped_note(self.cc_map as int, self.midi_cc as int, wave as int),
    {
        note_for(self.cc_map, self.midi_cc, wave)
    }

    pub open spec fn values(self) -> Seq<Value> {
        seq![
            Value::Color(self.color),
            Value::Range(self.in_range),
            Value::Enum(self.mode_b.number() as usize),
            Value::Range(self.range_b),
            Value::Enum(self.mode_c.number() as usize),
            Value::Range(self.range_c),
            Value::Enum(self.mode_d.number() as usize),
            Value::Range(self.range_d),
            Value::Enum(self.lfo_speed_mult),
            Value::MidiOut(self.midi_out),
            Value::MidiChannel(self.midi_channel),
            Value::MidiCc(self.midi_cc),
            Value::MidiNrpn(self.nrpn),
            Value::I32(self.ch_map),
            Value::I32(self.cc_map),
            Value::I32(self.mode_map),
        ]
    }

    /// Place of the speed: an old layout has the source in front of it.
    pub open spec fn speed_at(s: Seq<ParamSlot>) -> int {
        if s.len() >= 17 || (s.len() > 9 && s[9].kind == SlotKind::Enum) { 9 } else { 8 }
    }

    /// Parameters in a list whose oscillator speed stands at a place. Short
    /// lists come from layouts without oscillator, MIDI mirror or maps, which
    /// then take their silent defaults.
    pub open spec fn read_at(s: Seq<ParamSlot>, at: int, channel: u8) -> Params {
        let midi = s.len() >= at + 5;
        Params {
            color: s[0].as_color,
            in_range: s[1].as_range,
            mode_b: Mode::at(s[2].as_index as int),
            range_b: s[3].as_range,
            mode_c: Mode::at(s[4].as_index as int),
            range_c: s[5].as_range,
            mode_d: Mode::at(s[6].as_index as int),
            range_d: s[7].as_range,
            lfo_speed_mult: if s.len() > at { s[at].as_index } else { 0 },
            midi_out: if midi { s[at + 1].as_midi_out } else {
                MidiOut { usb: false, out1: false, out2: false }
            },
            midi_channel: if midi { s[at + 2].as_channel } else { channel },
            midi_cc: if midi { s[at + 3].as_cc } else { 32 },
            nrpn: midi && s[at + 4].as_bool,
            ch_map: if s.len() > at + 5 { map_within(s[at + 5].as_int, CH_MAP_MAX) } else { 0 },
            cc_map: if s.len() > at + 6 { map_within(s[at + 6].as_int, CC_MAP_MAX) } else { 0 },
            mode_map: if s.len() > at + 7 { map_within(s[at + 7].as_int, MODE_MAP_MAX) } else { 0 },
        }
    }

    pub open spec fn from_slots(s: Seq<ParamSlot>, channel: u8) -> Option<Params> {
        if s.len() < 8 { None } else { Some(Params::read_at(s, Params::speed_at(s), channel)) }
    }

    fn read_from(values: &[ParamSlot], at: usize, channel: u8) -> (r: Params)
        requires
            values@.len() >= 8,
            8 <= at <= 9,
        ensures
            r == Params::read_at(values@, at as int, channel),
            r.valid(),
    {
        let n: usize = values.len();
        let lfo_speed_mult: usize = if n > at { values[at].as_index } else { 0 };
        let (midi_out, midi_channel, midi_cc, nrpn): (MidiOut, u8, u16, bool) = if n >= at + 5 {
            (
                values[at + 1].as_midi_out,
                values[at + 2].as_channel,
                values[at + 3].as_cc,
                values[at + 4].as_bool,
            )
        } else {
            (MidiOut { usb: false, out1: false, out2: false }, channel, 32, false)
        };
        let ch_map: i32 = if n > at + 5 { clamp_map(values[at + 5].as_int, CH_MAP_MAX) } else { 0 };
        let cc_map: i32 = if n > at + 6 { clamp_map(values[at + 6].as_int, CC_MAP_MAX) } else { 0 };
        let mode_map: i32 = if n > at + 7 {
            clamp_map(values[at + 7].as_int, MODE_MAP_MAX)
        } else {
            0
        };
        Params {
            color: values[0].as_color,
            in_range: values[1].as_range,
            mode_b: Mode::from_usize(values[2].as_index),
            range_b: values[3].as_range,
            mode_c: Mode::from_usize(values[4].as_index),
            range_c: values[5].as_range,
            mode_d: Mode::from_usize(values[6].as_index),
            range_d: values[7].as_range,
            lfo_speed_mult,
            midi_out,
            midi_channel,
            midi_cc,
            nrpn,
            ch_map,
            cc_map,
            mode_map,
        }
    }

    pub fn from_values(values: &[ParamSlot], channel: u8) -> (r: Option<Params>)
        ensures
            r == Params::from_slots(values@, channel),
            r matches Some(p) ==> p.valid(),
    {
        let n: usize = values.len();
        if n < 8 {
            return None;
        }
        let at: usize = if n >= 17 {
            9
        } else if n > 9 {
            match values[9].kind {
                SlotKind::Enum => 9,
                _ => 8,
            }
        } else {
            8
        };
        Some(Params::read_from(values, at, channel))
    }

    pub fn to_values(&self) -> (v: heapless::Vec<Value, 16>)
        ensures
            param_values(v) == self.values(),
    {
        let items: [Value; 16] = [
            Value::Color(self.color),
            Value::Range(self.in_range),
            Value::Enum(self.mode_b.index()),
            Value::Range(self.range_b),
            Value::Enum(self.mode_c.index()),
            Value::Range(self.range_c),
            Value::Enum(self.mode_d.index()),
            Value::Range(self.range_d),
            Value::Enum(self.lfo_speed_mult),
            Value::MidiOut(self.midi_out),
            Value::MidiChannel(self.midi_channel),
            Value::MidiCc(self.midi_cc),
            Value::MidiNrpn(self.nrpn),
            Value::I32(self.ch_map),
            Value::I32(self.cc_map),
            Value::I32(self.mode_map),
        ];
        assert(items@ =~= self.values());
        values_of(&items)
    }

    pub open spec fn mode(self, i: int) -> Mode {
        if i == 0 {
            self.mode_b
        } else if i == 1 {
            self.mode_c
        } else {
            self.mode_d
        }
    }

    pub open spec fn range(self, i: int) -> Range {
        if i == 0 {
            self.range_b
        } else if i == 1 {
            self.range_c
        } else {
            self.range_d
        }
    }

    pub open spec fn with_mode(self, i: int, m: Mode) -> Params {
        if i == 0 {
            Params { mode_b: m, ..self }
        } else if i == 1 {
            Params { mode_c: m, ..self }
        } else {
            Params { mode_d: m, ..self }
        }
    }

    pub open spec fn with_range(self, i: int, r: Range) -> Params {
        if i == 0 {
            Params { range_b: r, ..self }
        } else if i == 1 {
            Params { range_c: r, ..self }
        } else {
            Params { range_d: r, ..self }
        }
    }

    pub fn mode_of(&self, i: usize) -> (r: Mode)
        ensures
            r == self.mode(i as int),
    {
        match i {
            0 => self.mode_b,
            1 => self.mode_c,
            _ => self.mode_d,
        }
    }

    pub fn range_of(&self, i: usize) -> (r: Range)
        ensures
            r == self.range(i as int),
    {
        match i {
            0 => self.range_b,
            1 => self.range_c,
            _ => self.range_d,
        }
    }
}

/// A map kept within its bounds.
#[verifier::opaque]
pub open spec fn map_within(v: i32, max: i32) -> i32 {
    clamp_int(v as int, 0, max as int) as i32
}

fn clamp_map(v: i32, max: i32) -> (r: i32)
    requires
        max >= 0,
    ensures
        r == map_within(v, max),
        0 <= r <= max,
{
    reveal(map_within);
    if v < 0 {
        0
    } else if v > max {
        max
    } else {
        v
    }
}

/// Stored parameters read back as they were.
pub proof fn params_round_trip(p: Params, slots: Seq<ParamSlot>, channel: u8)
    requires
        p.valid(),
        reads_all(slots, p.values()),
    ensures
        Params::from_slots(slots, channel) == Some(p),
{
    assert forall|i: int| 0 <= i < 16 implies reads(#[trigger] slots[i], p.values()[i]) by {}
    let (s0, s1, s2, s3) = (slots[0], slots[1], slots[2], slots[3]);
    let (s4, s5, s6, s7) = (slots[4], slots[5], slots[6], slots[7]);
    let (s8, s9, s10, s11) = (slots[8], slots[9], slots[10], slots[11]);
    let (s12, s13, s14, s15) = (slots[12], slots[13], slots[14], slots[15]);
    reveal(map_within);
    modes_cycle(p.mode_b);
    modes_cycle(p.mode_c);
    modes_cycle(p.mode_d);
}

#[derive(Clone, Copy, Debug, PartialEq, Eq)]
pub struct Storage {
    pub in_trim: u16,
    pub in_offset: u16,
    pub in_slew: u16,
    pub att: [u16; 3],
    pub offset: [u16; 3],
    pub slew: [u16; 3],
    pub threshold: [u16; 3],
    pub hysteresis: [u16; 3],
    pub pulse: [u16; 3],
    pub muted: [bool; 3],
    /// Layers of the internal oscillator, and its clock sync.
    pub morph: u16,
    pub lfo_speed: u16,
    pub skew: u16,
    pub lfo_clocked: bool,
}

impl Default for Storage {
    fn default() -> (r: Self)
        ensures
            r.in_trim == 4095,
            r.in_offset == 2047,
            r.in_slew == 0,
            r.att@ == seq![4095u16, 4095u16, 4095u16],
            r.offset@ == seq![2047u16, 2047u16, 2047u16],
            r.slew@ == seq![0u16, 0u16, 0u16],
            r.threshold@ == seq![TRIG_HIGH, TRIG_HIGH, TRIG_HIGH],
            r.hysteresis@ == seq![100u16, 100u16, 100u16],
            r.pulse@ == seq![fader_of_pulse(10) as u16, fader_of_pulse(10) as u16, fader_of_pulse(10) as u16],
            r.muted@ == seq![false, false, false],
            r.morph == 0,
            r.lfo_speed == 2000,
            r.skew == 2048,
            !r.lfo_clocked,
    {
        let pulse: u16 = pulse_ms_to_fader(10);
        Storage {
            in_trim: 4095,
            in_offset: 2047,
            in_slew: 0,
            att: [4095; 3],
            offset: [2047; 3],
            slew: [0; 3],
            threshold: [TRIG_HIGH; 3],
            hysteresis: [100; 3],
            pulse: [pulse; 3],
            muted: [false; 3],
            morph: 0,
            lfo_speed: 2000,
            skew: 2048,
            lfo_clocked: false,
        }
    }
}

// ---------------------------------------------------------------------------
// Comparators
// ---------------------------------------------------------------------------

/// A gate or trigger output.
#[derive(Clone, Copy, Debug, PartialEq, Eq, Structural)]
pub struct Comparator {
    pub high: bool,
    /// Milliseconds that a gate stays up at least, or the trigger lasts.
    pub pulse_left: u16,
}

/// How the jack changes.
#[derive(Clone, Copy, Debug, PartialEq, Eq, Structural)]
pub enum Edge {
    Up,
    Down,
    Stay,
}

/// Lower threshold.
pub open spec fn release_level(threshold: int, hysteresis: int) -> int {
    if hysteresis >= threshold { 0 } else { threshold - hysteresis }
}

impl Comparator {
    /// One millisecond of a gate: up above the threshold, down again below the
    /// lower threshold, but not before its minimum length.
    pub open spec fn gate_stepped(
        self,
        muted: bool,
        input: int,
        threshold: int,
        hysteresis: int,
        min_ms: int,
    ) -> (Comparator, Edge) {
        let (high, left, edge) = if muted {
            (
                false,
                if self.high { 0 } else { self.pulse_left as int },
                if self.high { Edge::Down } else { Edge::Stay },
            )
        } else if !self.high && input > threshold {
            (true, min_ms, Edge::Up)
        } else if self.high && self.pulse_left == 0 && input <= release_level(
            threshold,
            hysteresis,
        ) {
            (false, 0, Edge::Down)
        } else {
            (self.high, self.pulse_left as int, Edge::Stay)
        };
        (Comparator { high, pulse_left: (if left > 0 { left - 1 } else { 0 }) as u16 }, edge)
    }

    pub fn gate_step(
        &mut self,
        muted: bool,
        input: u16,
        threshold: u16,
        hysteresis: u16,
        min_ms: u16,
    ) -> (edge: Edge)
        ensures
            (*final(self), edge) == old(self).gate_stepped(
                muted,
                input as int,
                threshold as int,
                hysteresis as int,
                min_ms as int,
            ),
    {
        let mut edge = Edge::Stay;
        if muted {
            if self.high {
                self.high = false;
                self.pulse_left = 0;
                edge = Edge::Down;
            }
        } else if !self.high && input > threshold {
            self.high = true;
            self.pulse_left = min_ms;
            edge = Edge::Up;
        } else if self.high && self.pulse_left == 0 && input <= threshold.saturating_sub(
            hysteresis,
        ) {
            self.high = false;
            edge = Edge::Down;
        }
        self.pulse_left = self.pulse_left.saturating_sub(1);
        edge
    }

    /// The input counts as high: a Schmitt trigger.
    pub open spec fn schmitt(self, input: int, threshold: int, hysteresis: int) -> bool {
        if self.high {
            input > release_level(threshold, hysteresis)
        } else {
            input > threshold
        }
    }

    /// Edges of one millisecond of a trigger, at most one up and one down.
    pub open spec fn trigger_stepped(
        self,
        muted: bool,
        input: int,
        threshold: int,
        hysteresis: int,
        pulse_ms: int,
    ) -> (Comparator, Seq<Edge>) {
        if muted {
            (
                Comparator { high: false, pulse_left: 0 },
                if self.pulse_left > 0 { seq![Edge::Down] } else { Seq::empty() },
            )
        } else {
            let high = self.schmitt(input, threshold, hysteresis);
            let fires = !self.high && high;
            let left = if fires { pulse_ms } else { self.pulse_left as int };
            (
                Comparator { high, pulse_left: (if left > 0 { left - 1 } else { 0 }) as u16 },
                (if fires { seq![Edge::Up] } else { Seq::empty() }) + (if left == 1 {
                    seq![Edge::Down]
                } else {
                    Seq::empty()
                }),
            )
        }
    }

    pub fn trigger_step(
        &mut self,
        muted: bool,
        input: u16,
        threshold: u16,
        hysteresis: u16,
        pulse_ms: u16,
    ) -> (edges: Vec<Edge>)
        ensures
            (*final(self), edges@) == old(self).trigger_stepped(
                muted,
                input as int,
                threshold as int,
                hysteresis as int,
                pulse_ms as int,
            ),
    {
        let ghost s0 = *self;
        let mut edges: Vec<Edge> = Vec::new();
        if muted {
            if self.pulse_left > 0 {
                self.pulse_left = 0;
                edges.push(Edge::Down);
            }
            self.high = false;
        } else {
            let high = if self.high {
                input > threshold.saturating_sub(hysteresis)
            } else {
                input > threshold
            };
            if !self.high && high {
                self.pulse_left = pulse_ms;
                edges.push(Edge::Up);
            }
            self.high = high;
        }
        if self.pulse_left > 0 {
            self.pulse_left = self.pulse_left - 1;
            if self.pulse_left == 0 {
                edges.push(Edge::Down);
            }
        }
        assert(edges@ =~= s0.trigger_stepped(
            muted,
            input as int,
            threshold as int,
            hysteresis as int,
            pulse_ms as int,
        ).1);
        edges
    }
}

/// Between the two thresholds a gate keeps its state, so that noise there never
/// chatters.
pub proof fn hysteresis_keeps_the_gate(c: Comparator, input: int, threshold: int, hyst: int, ms: int)
    requires
        release_level(threshold, hyst) < input <= threshold,
    ensures
        c.gate_stepped(false, input, threshold, hyst, ms).0.high == c.high,
        c.gate_stepped(false, input, threshold, hyst, ms).1 == Edge::Stay,
        c.trigger_stepped(false, input, threshold, hyst, ms).0.high == c.high,
{
}

/// A gate that has risen does not fall in any of the next milliseconds of its
/// minimum length, whatever the input does.
pub proof fn gates_have_a_minimum_length(
    c: Comparator,
    input: int,
    threshold: int,
    hyst: int,
    ms: int,
)
    requires
        c.high,
        c.pulse_left > 0,
    ensures
        ({
            let (next, edge) = c.gate_stepped(false, input, threshold, hyst, ms);
            next.high && edge == Edge::Stay && next.pulse_left == c.pulse_left - 1
        }),
{
}

/// A trigger lasts for its pulse length: it fires with that many milliseconds
/// to go, each takes one, and the last brings it down.
pub proof fn triggers_last_their_pulse(
    c: Comparator,
    input: int,
    threshold: int,
    hyst: int,
    ms: int,
)
    requires
        1 <= ms <= 65535,
    ensures
        ({
            let (next, edges) = c.trigger_stepped(false, input, threshold, hyst, ms);
            &&& (!c.high && input > threshold) ==> next.pulse_left == ms - 1 && edges[0]
                == Edge::Up && (ms == 1 <==> edges == seq![Edge::Up, Edge::Down])
            &&& c.high && c.pulse_left > 1 ==> next.pulse_left == c.pulse_left - 1 && edges
                == Seq::<Edge>::empty()
            &&& c.high && c.pulse_left == 1 ==> next.pulse_left == 0 && edges == seq![Edge::Down]
        }),
{
    let (next, edges) = c.trigger_stepped(false, input, threshold, hyst, ms);
    if !c.high && input > threshold && ms == 1 {
        assert(edges =~= seq![Edge::Up, Edge::Down]);
    }
    if c.high && c.pulse_left > 1 {
        assert(edges =~= Seq::<Edge>::empty());
    }
    if c.high && c.pulse_left == 1 {
        assert(edges =~= seq![Edge::Down]);
    }
}

/// What a CV output aims for: the attenuated input moved by the offset; its
/// offset alone while muted. Both come from the caller's curves.
pub open spec fn cv_aim(muted: bool, atten: int, offset: int) -> int {
    if muted { offset } else { clamp_int(atten + offset - 2047, 0, 4095) }
}

pub fn cv_target(muted: bool, atten: u16, offset: u16) -> (r: u16)
    ensures
        r == cv_aim(muted, atten as int, offset as int),
{
    if muted {
        offset
    } else {
        clamp_full(atten as i32 + offset as i32 - 2047)
    }
}

/// The conditioned input: trimmed, moved by its offset.
pub fn condition_input(trimmed: u16, offset: u16) -> (r: u16)
    ensures
        r == clamp_int(trimmed + offset - 2047, 0, 4095),
{
    clamp_full(trimmed as i32 + offset as i32 - 2047)
}

// ---------------------------------------------------------------------------
// Settings by layer
// ---------------------------------------------------------------------------

impl Storage {
    /// Setting behind a fader: on the first channel it depends on whether the
    /// oscillator is active, on the others on the output's mode.
    pub open spec fn layer_value(self, active: bool, chan: int, mode: Mode, layer: LatchLayer) -> u16 {
        if chan == 0 {
            match layer {
                LatchLayer::Main => if active { self.lfo_speed } else { self.in_trim },
                LatchLayer::Alt => if active { self.morph } else { self.in_offset },
                LatchLayer::Third => if active { self.skew } else { self.in_slew },
            }
        } else {
            let i = chan - 1;
            match layer {
                LatchLayer::Main => if mode == Mode::Cv { self.att[i] } else { self.threshold[i] },
                LatchLayer::Alt => if mode == Mode::Cv { self.offset[i] } else {
                    self.hysteresis[i]
                },
                LatchLayer::Third => if mode == Mode::Cv { self.slew[i] } else { self.pulse[i] },
            }
        }
    }

    /// Settings with the one behind a fader replaced.
    pub open spec fn with_layer(
        self,
        active: bool,
        chan: int,
        mode: Mode,
        layer: LatchLayer,
        v: u16,
    ) -> Storage {
        if chan == 0 {
            match layer {
                LatchLayer::Main => if active {
                    Storage { lfo_speed: v, ..self }
                } else {
                    Storage { in_trim: v, ..self }
                },
                LatchLayer::Alt => if active {
                    Storage { morph: v, ..self }
                } else {
                    Storage { in_offset: v, ..self }
                },
                LatchLayer::Third => if active {
                    Storage { skew: v, ..self }
                } else {
                    Storage { in_slew: v, ..self }
                },
            }
        } else {
            let i = chan - 1;
            match layer {
                LatchLayer::Main => if mode == Mode::Cv {
                    Storage { att: spec_array_update(self.att, i, v), ..self }
                } else {
                    Storage { threshold: spec_array_update(self.threshold, i, v), ..self }
                },
                LatchLayer::Alt => if mode == Mode::Cv {
                    Storage { offset: spec_array_update(self.offset, i, v), ..self }
                } else {
                    Storage { hysteresis: spec_array_update(self.hysteresis, i, v), ..self }
                },
                LatchLayer::Third => if mode == Mode::Cv {
                    Storage { slew: spec_array_update(self.slew, i, v), ..self }
                } else {
                    Storage { pulse: spec_array_update(self.pulse, i, v), ..self }
                },
            }
        }
    }

    pub fn get_layer(&self, active: bool, chan: usize, mode: Mode, layer: LatchLayer) -> (r: u16)
        requires
            chan < 4,
        ensures
            r == self.layer_value(active, chan as int, mode, layer),
    {
        let cv = match mode {
            Mode::Cv => true,
            _ => false,
        };
        if chan == 0 {
            match layer {
                LatchLayer::Main => if active { self.lfo_speed } else { self.in_trim },
                LatchLayer::Alt => if active { self.morph } else { self.in_offset },
                LatchLayer::Third => if active { self.skew } else { self.in_slew },
            }
        } else {
            let i: usize = chan - 1;
            match layer {
                LatchLayer::Main => if cv { self.att[i] } else { self.threshold[i] },
                LatchLayer::Alt => if cv { self.offset[i] } else { self.hysteresis[i] },
                LatchLayer::Third => if cv { self.slew[i] } else { self.pulse[i] },
            }
        }
    }

    pub fn set_layer(&mut self, active: bool, chan: usize, mode: Mode, layer: LatchLayer, v: u16)
        requires
            chan < 4,
        ensures
            *final(self) == old(self).with_layer(active, chan as int, mode, layer, v),
    {
        let cv = match mode {
            Mode::Cv => true,
            _ => false,
        };
        if chan == 0 {
            match layer {
                LatchLayer::Main => if active {
                    self.lfo_speed = v;
                } else {
                    self.in_trim = v;
                },
                LatchLayer::Alt => if active {
                    self.morph = v;
                } else {
                    self.in_offset = v;
                },
                LatchLayer::Third => if active {
                    self.skew = v;
                } else {
                    self.in_slew = v;
                },
            }
        } else {
            let i: usize = chan - 1;
            match layer {
                LatchLayer::Main => if cv {
                    self.att[i] = v;
                } else {
                    self.threshold[i] = v;
                },
                LatchLayer::Alt => if cv {
                    self.offset[i] = v;
                } else {
                    self.hysteresis[i] = v;
                },
                LatchLayer::Third => if cv {
                    self.slew[i] = v;
                } else {
                    self.pulse[i] = v;
                },
            }
        }
    }
}

/// A setting reads back what was stored through its fader, and no other fader
/// of that state moves with it.
pub proof fn layers_are_separate(
    s: Storage,
    active: bool,
    c1: int,
    c2: int,
    mode: Mode,
    l1: LatchLayer,
    l2: LatchLayer,
    v: u16,
)
    requires
        0 <= c1 < 4,
        0 <= c2 < 4,
    ensures
        s.with_layer(active, c1, mode, l1, v).layer_value(active, c1, mode, l1) == v,
        c1 != c2 || l1 != l2 ==> s.with_layer(active, c1, mode, l1, v).layer_value(
            active,
            c2,
            mode,
            l2,
        ) == s.layer_value(active, c2, mode, l2),
{
}

// ---------------------------------------------------------------------------
// The running app
// ---------------------------------------------------------------------------

/// State of the app between events.
pub struct Manifold {
    pub params: Params,
    /// Modes and ranges that the jacks are set up for.
    pub modes: [Mode; 3],
    pub ranges: [Range; 3],
    pub midi_on: bool,
    pub ccs: [u16; 4],
    pub notes: [u8; 4],
    pub is_note: [bool; 4],
    /// Hue of the app's colour.
    pub base: u16,
    pub store: Storage,
    /// Modes that are shown.
    pub shown: [Mode; 3],
    /// The source is frozen.
    pub held: bool,
    pub fader_at_down: [u16; 4],
    pub fader_moved: [bool; 4],
    pub long: [bool; 4],
    pub preview: [Option<Mode>; 3],
    /// Channel that was touched last.
    pub focus: usize,
    /// The internal oscillator is the source.
    pub active: bool,
    pub btn_flash: [u16; 4],
    pub freeze: Freeze,
    pub patch: Patch,
    pub watch: TickWatch,
    pub comps: [Comparator; 3],
    pub out_levels: [u16; 3],
    pub last_midi: [Option<u16>; 4],
    pub sounding: [bool; 4],
    pub midi_pace: u8,
    pub midi_slot: usize,
    /// A wave is mirrored in this millisecond.
    pub midi_due: bool,
}

pub open spec fn lit(chan: usize, led: Led, color: Color, bright: Brightness) -> Act {
    Act::Light { chan, led, color, bright }
}

/// Button of an output.
pub open spec fn out_light(i: int, muted: bool, color: Color) -> Act {
    if muted {
        Act::Dark { chan: (i + 1) as usize, led: Led::Button }
    } else {
        lit((i + 1) as usize, Led::Button, color, Brightness::Mid)
    }
}

/// The row of buttons.
pub open spec fn button_row(
    color: Color,
    base: int,
    modes: [Mode; 3],
    frozen: bool,
    muted: [bool; 3],
) -> Seq<Act> {
    seq![
        lit(0, Led::Button, color, if frozen { Brightness::Mid } else { Brightness::Low }),
        out_light(0, muted[0], modes[0].hue(base)),
        out_light(1, muted[1], modes[1].hue(base)),
        out_light(2, muted[2], modes[2].hue(base)),
    ]
}

pub fn paint_buttons(
    color: Color,
    base: u16,
    modes: &[Mode; 3],
    frozen: bool,
    muted: &[bool; 3],
) -> (acts: Vec<Act>)
    ensures
        acts@ == button_row(color, base as int, *modes, frozen, *muted),
{
    let mut acts = one(
        Act::Light {
            chan: 0,
            led: Led::Button,
            color,
            bright: if frozen {
                Brightness::Mid
            } else {
                Brightness::Low
            },
        },
    );
    let mut i: usize = 0;
    let ghost row = button_row(color, base as int, *modes, frozen, *muted);
    while i < 3
        invariant
            i <= 3,
            row == button_row(color, base as int, *modes, frozen, *muted),
            acts@.len() == i + 1,
            forall|k: int| 0 <= k <= i ==> #[trigger] acts@[k] == row[k],
        decreases 3 - i,
    {
        if muted[i] {
            acts.push(Act::Dark { chan: i + 1, led: Led::Button });
        } else {
            acts.push(
                Act::Light {
                    chan: i + 1,
                    led: Led::Button,
                    color: modes[i].color(base),
                    bright: Brightness::Mid,
                },
            );
        }
        i = i + 1;
    }
    assert(acts@ =~= row);
    acts
}

/// Notes that are ended at the start.
pub open spec fn start_offs(is_note: [bool; 4], notes: [u8; 4], n: int) -> Seq<Act>
    decreases n,
{
    if n <= 0 {
        Seq::empty()
    } else if is_note[n - 1] {
        start_offs(is_note, notes, n - 1).push(
            Act::NoteOff { out: (n - 1) as usize, note: notes[n - 1] },
        )
    } else {
        start_offs(is_note, notes, n - 1)
    }
}

impl Manifold {
    pub open spec fn wf(self) -> bool {
        &&& self.params.valid()
        &&& self.base < 360
        &&& self.patch.wf()
        &&& self.focus < 4
        &&& self.midi_pace < MIDI_PACE
        &&& self.midi_slot < 4
    }

    /// Start with the jacks set up as the parameters say. `rgb` is the app's
    /// colour, `raw` the input and `tick` the clock's counter.
    pub fn new(params: Params, store: Storage, rgb: (u8, u8, u8), raw: u16, tick: u64) -> (r: (
        Self,
        Vec<Act>,
    ))
        requires
            params.valid(),
        ensures
            r.0.wf(),
            r.0.params == params,
            r.0.store == store,
            forall|i: int|
                0 <= i < 3 ==> #[trigger] r.0.modes[i] == params.mode(i) && r.0.shown[i]
                    == params.mode(i) && r.0.ranges[i] == params.range(i),
            forall|w: int|
                0 <= w < 4 ==> #[trigger] r.0.ccs[w] == mapped_cc(
                    params.cc_map as int,
                    params.midi_cc as int,
                    w,
                    params.nrpn,
                ) && r.0.notes[w] == mapped_note(params.cc_map as int, params.midi_cc as int, w)
                    && r.0.is_note[w] == params.sends_notes(w, r.0.modes),
            r.0.midi_on == params.midi_out.any(),
            r.0.base == hue_of(rgb.0 as int, rgb.1 as int, rgb.2 as int),
            !r.0.held,
            r.0.active,
            r.0.patch == (Patch { prev_raw: raw, idle_ms: IN_IDLE_MS }),
            r.0.watch == (TickWatch { last_tick: tick, ms_since: 0, period_ms: 21 }),
            r.0.freeze == (Freeze { on: false, value: 0 }),
            forall|i: int|
                0 <= i < 3 ==> #[trigger] r.0.comps[i] == (Comparator {
                    high: false,
                    pulse_left: 0,
                }),
            forall|w: int|
                0 <= w < 4 ==> #[trigger] r.0.last_midi[w] is None && !r.0.sounding[w]
                    && r.0.btn_flash[w] == 0,
            forall|w: int|
                0 <= w < 4 ==> #[trigger] r.0.fader_at_down[w] == 0 && !r.0.fader_moved[w]
                    && !r.0.long[w],
            forall|i: int|
                0 <= i < 3 ==> #[trigger] r.0.preview[i] is None && r.0.out_levels[i] == 0,
            r.0.focus == 0,
            r.0.midi_slot == 0 && r.0.midi_pace == 0 && !r.0.midi_due,
            r.1@ == start_offs(r.0.is_note, r.0.notes, 4) + button_row(
                params.color,
                r.0.base as int,
                r.0.modes,
                false,
                store.muted,
            ),
    {
        let modes = [params.mode_b, params.mode_c, params.mode_d];
        let nrpn = params.nrpn;
        let ccs: [u16; 4] = [
            params.cc_for(0, nrpn),
            params.cc_for(1, nrpn),
            params.cc_for(2, nrpn),
            params.cc_for(3, nrpn),
        ];
        let notes: [u8; 4] = [
            params.note_for(0),
            params.note_for(1),
            params.note_for(2),
            params.note_for(3),
        ];
        let is_note: [bool; 4] = [
            params.midi_is_note(0, &modes),
            params.midi_is_note(1, &modes),
            params.midi_is_note(2, &modes),
            params.midi_is_note(3, &modes),
        ];
        let base: u16 = color_hue(rgb);
        let mut acts: Vec<Act> = Vec::new();
        let mut w: usize = 0;
        while w < 4
            invariant
                w <= 4,
                acts@ == start_offs(is_note, notes, w as int),
            decreases 4 - w,
        {
            if is_note[w] {
                acts.push(Act::NoteOff { out: w, note: notes[w] });
            }
            w = w + 1;
        }
        let row = paint_buttons(params.color, base, &modes, false, &store.muted);
        push_all(&mut acts, row);
        let s = Manifold {
            params,
            modes,
            ranges: [params.range_b, params.range_c, params.range_d],
            midi_on: params.midi_out.is_some(),
            ccs,
            notes,
            is_note,
            base,
            store,
            shown: modes,
            held: false,
            fader_at_down: [0; 4],
            fader_moved: [false; 4],
            long: [false; 4],
            preview: [None; 3],
            focus: 0,
            active: true,
            btn_flash: [0; 4],
            freeze: Freeze::new(),
            patch: Patch::new(raw),
            watch: TickWatch::new(tick),
            comps: [Comparator { high: false, pulse_left: 0 }; 3],
            out_levels: [0; 3],
            last_midi: [None; 4],
            sounding: [false; 4],
            midi_pace: 0,
            midi_slot: 0,
            midi_due: false,
        };
        (s, acts)
    }

    /// One millisecond begins: look at the input, the clock and the flashes.
    pub fn begin_sample(&mut self, raw: u16, tick: u64, rgb: (u8, u8, u8), color: Color)
        requires
            old(self).wf(),
        ensures
            final(self).wf(),
            final(self).patch == old(self).patch.seen(raw, 1),
            final(self).active == final(self).patch.unpatched(),
            final(self).watch == old(self).watch.seen(tick, 1),
            forall|w: int|
                0 <= w < 4 ==> #[trigger] final(self).btn_flash[w] == if old(self).btn_flash[w]
                    > 0 {
                    old(self).btn_flash[w] - 1
                } else {
                    0
                },
            *final(self) == (Manifold {
                patch: final(self).patch,
                active: final(self).active,
                watch: final(self).watch,
                btn_flash: final(self).btn_flash,
                base: hue_of(rgb.0 as int, rgb.1 as int, rgb.2 as int) as u16,
                params: (Params { color, ..old(self).params }),
                ..*old(self)
            }),
    {
        let ghost s0 = *self;
        self.base = color_hue(rgb);
        self.params.color = color;
        self.active = self.patch.step(raw, 1);
        self.watch.step(tick, 1);
        let mut w: usize = 0;
        while w < 4
            invariant
                w <= 4,
                *self == (Manifold {
                    btn_flash: self.btn_flash,
                    patch: s0.patch.seen(raw, 1),
                    active: s0.patch.seen(raw, 1).unpatched(),
                    watch: s0.watch.seen(tick, 1),
                    base: hue_of(rgb.0 as int, rgb.1 as int, rgb.2 as int) as u16,
                    params: (Params { color, ..s0.params }),
                    ..s0
                }),
                forall|k: int|
                    0 <= k < 4 ==> #[trigger] self.btn_flash[k] == if k >= w {
                        s0.btn_flash[k] as int
                    } else if s0.btn_flash[k] > 0 {
                        s0.btn_flash[k] - 1
                    } else {
                        0
                    },
            decreases 4 - w,
        {
            let left: u16 = self.btn_flash[w];
            self.btn_flash[w] = left.saturating_sub(1);
            w = w + 1;
        }
    }

    /// Whether a wave is mirrored in the next millisecond, and which.
    pub open spec fn paced(self) -> (u8, int, bool) {
        if !self.midi_on {
            (self.midi_pace, self.midi_slot as int, false)
        } else if self.midi_pace + 1 >= MIDI_PACE {
            (0, (self.midi_slot + 1) % 4, true)
        } else {
            ((self.midi_pace + 1) as u8, self.midi_slot as int, false)
        }
    }

    /// The source has given a sample: freeze it where held, and move on to the
    /// next mirrored wave. Returns the value that feeds the outputs.
    pub fn on_source(&mut self, sample: u16) -> (input: u16)
        requires
            old(self).wf(),
        ensures
            final(self).wf(),
            input == old(self).freeze.seen(old(self).held, sample).out(sample),
            *final(self) == (Manifold {
                freeze: old(self).freeze.seen(old(self).held, sample),
                midi_pace: old(self).paced().0,
                midi_slot: old(self).paced().1 as usize,
                midi_due: old(self).paced().2,
                ..*old(self)
            }),
    {
        let input: u16 = self.freeze.step(self.held, sample);
        self.midi_due = false;
        if self.midi_on {
            self.midi_pace = self.midi_pace + 1;
            if self.midi_pace >= MIDI_PACE {
                self.midi_pace = 0;
                self.midi_slot = (self.midi_slot + 1) % 4;
                self.midi_due = true;
            }
        }
        input
    }

    /// State and acts of an output in one millisecond. `cv` is the shaped level
    /// of a CV output; threshold and hysteresis are those in effect.
    pub open spec fn driven(self, i: int, input: int, cv: u16, threshold: int, hyst: int) -> (
        Comparator,
        u16,
        Seq<Act>,
    ) {
        let jack = (i + 1) as usize;
        let c = self.comps[i];
        let ms = pulse_of(self.store.pulse[i] as int);
        match self.modes[i] {
            Mode::Cv => (c, cv, seq![Act::Cv { jack, val: cv }]),
            Mode::Gate => {
                let (next, edge) = c.gate_stepped(
                    self.store.muted[i],
                    input,
                    threshold,
                    hyst,
                    ms,
                );
                (next, if next.high { 4095 } else { 0 }, edge_acts(jack, seq![edge]))
            },
            Mode::Trigger => {
                let (next, edges) = c.trigger_stepped(
                    self.store.muted[i],
                    input,
                    threshold,
                    hyst,
                    ms,
                );
                (next, if next.pulse_left > 0 { 4095 } else { 0 }, edge_acts(jack, edges))
            },
        }
    }

    /// Drive an output. Returns the level that its jack carries.
    pub fn on_output(&mut self, i: usize, input: u16, cv: u16, threshold: u16, hyst: u16) -> (r: (
        u16,
        Vec<Act>,
    ))
        requires
            old(self).wf(),
            i < 3,
        ensures
            final(self).wf(),
            ({
                let (c, level, acts) = old(self).driven(
                    i as int,
                    input as int,
                    cv,
                    threshold as int,
                    hyst as int,
                );
                &&& r.0 == level
                &&& r.1@ == acts
                &&& *final(self) == (Manifold {
                    comps: spec_array_update(old(self).comps, i as int, c),
                    out_levels: spec_array_update(old(self).out_levels, i as int, level),
                    ..*old(self)
                })
            }),
    {
        let ghost s0 = *self;
        let muted = self.store.muted[i];
        let ms: u16 = pulse_fader_to_ms(self.store.pulse[i]);
        let mut c = self.comps[i];
        let (level, acts): (u16, Vec<Act>) = match self.modes[i] {
            Mode::Cv => (cv, one(Act::Cv { jack: i + 1, val: cv })),
            Mode::Gate => {
                let edge = c.gate_step(muted, input, threshold, hyst, ms);
                let mut edges: Vec<Edge> = Vec::new();
                edges.push(edge);
                assert(edges@ =~= seq![edge]);
                let level: u16 = if c.high { 4095 } else { 0 };
                (level, jack_acts(i + 1, &edges))
            },
            Mode::Trigger => {
                let edges = c.trigger_step(muted, input, threshold, hyst, ms);
                let level: u16 = if c.pulse_left > 0 { 4095 } else { 0 };
                (level, jack_acts(i + 1, &edges))
            },
        };
        self.comps[i] = c;
        self.out_levels[i] = level;
        assert(self.comps =~= spec_array_update(s0.comps, i as int, c));
        (level, acts)
    }

    /// Whether a note of a wave starts, ends or stays as it is.
    pub open spec fn note_edge(self, wave: int, level: u16) -> Edge {
        if level > 0 && !self.sounding[wave] {
            Edge::Up
        } else if level == 0 && self.sounding[wave] {
            Edge::Down
        } else {
            Edge::Stay
        }
    }

    /// Mirror a wave to MIDI. Notes follow every millisecond; a controller goes
    /// out in its slot where `gate_val`, the level as the MIDI side resolves
    /// it, has changed.
    pub fn mirror(&mut self, wave: usize, level: u16, gate_val: u16) -> (acts: Vec<Act>)
        requires
            old(self).wf(),
            wave < 4,
        ensures
            final(self).wf(),
            ({
                let w = wave as int;
                let sends = old(self).midi_due && old(self).midi_slot == wave && old(
                    self,
                ).last_midi[w] != Some(gate_val);
                if old(self).midi_on && old(self).is_note[w] {
                    &&& *final(self) == (Manifold {
                        sounding: spec_array_update(old(self).sounding, w, level > 0),
                        ..*old(self)
                    })
                    &&& acts@ == match old(self).note_edge(w, level) {
                        Edge::Up => seq![
                            Act::NoteOn { out: wave, note: old(self).notes[w], vel: 4095 },
                        ],
                        Edge::Down => seq![Act::NoteOff { out: wave, note: old(self).notes[w] }],
                        Edge::Stay => Seq::empty(),
                    }
                } else if sends {
                    &&& *final(self) == (Manifold {
                        last_midi: spec_array_update(old(self).last_midi, w, Some(gate_val)),
                        ..*old(self)
                    })
                    &&& acts@ == seq![Act::Cc { out: wave, cc: old(self).ccs[w], val: level }]
                } else {
                    *final(self) == *old(self) && acts@ == Seq::<Act>::empty()
                }
            }),
    {
        let ghost s0 = *self;
        if self.midi_on && self.is_note[wave] {
            let was = self.sounding[wave];
            let high = level > 0;
            self.sounding[wave] = high;
            assert(self.sounding =~= spec_array_update(s0.sounding, wave as int, level > 0));
            if high && !was {
                one(Act::NoteOn { out: wave, note: self.notes[wave], vel: 4095 })
            } else if !high && was {
                one(Act::NoteOff { out: wave, note: self.notes[wave] })
            } else {
                Vec::new()
            }
        } else if self.midi_due && self.midi_slot == wave {
            let same = match self.last_midi[wave] {
                Some(v) => v == gate_val,
                None => false,
            };
            if same {
                Vec::new()
            } else {
                self.last_midi[wave] = Some(gate_val);
                assert(self.last_midi =~= spec_array_update(
                    s0.last_midi,
                    wave as int,
                    Some(gate_val),
                ));
                one(Act::Cc { out: wave, cc: self.ccs[wave], val: level })
            }
        } else {
            Vec::new()
        }
    }

    pub open spec fn meter(self, chan: usize, color: Color, level: u16) -> Act {
        Act::Meter { chan, color, level, top_floor: 0, bottom_floor: 0 }
    }

    /// Meters of an output: its level; a gate or trigger that is high lights
    /// up, and otherwise shows the input that it waits for.
    pub open spec fn meter_acts(self, i: int, level: u16, input: u16) -> Seq<Act> {
        let chan = (i + 1) as usize;
        let color = self.shown[i].hue(self.base as int);
        if self.modes[i] == Mode::Cv {
            seq![self.meter(chan, color, level)]
        } else if self.store.muted[i] {
            seq![Act::Dark { chan, led: Led::Top }, Act::Dark { chan, led: Led::Bottom }]
        } else if level > 0 {
            seq![
                lit(chan, Led::Top, color, Brightness::High),
                lit(chan, Led::Bottom, color, Brightness::High),
            ]
        } else {
            seq![self.meter(chan, color, input)]
        }
    }

    pub fn paint_output(&self, i: usize, level: u16, input: u16) -> (acts: Vec<Act>)
        requires
            self.wf(),
            i < 3,
        ensures
            acts@ == self.meter_acts(i as int, level, input),
    {
        let color = self.shown[i].color(self.base);
        let chan: usize = i + 1;
        let cv = match self.modes[i] {
            Mode::Cv => true,
            _ => false,
        };
        let mut acts: Vec<Act> = Vec::new();
        if cv {
            acts.push(Act::Meter { chan, color, level, top_floor: 0, bottom_floor: 0 });
        } else if self.store.muted[i] {
            acts.push(Act::Dark { chan, led: Led::Top });
            acts.push(Act::Dark { chan, led: Led::Bottom });
        } else if level > 0 {
            acts.push(Act::Light { chan, led: Led::Top, color, bright: Brightness::High });
            acts.push(Act::Light { chan, led: Led::Bottom, color, bright: Brightness::High });
        } else {
            acts.push(Act::Meter { chan, color, level: input, top_floor: 0, bottom_floor: 0 });
        }
        assert(acts@ =~= self.meter_acts(i as int, level, input));
        acts
    }

    /// Button of the first channel: steady while frozen, else as bright as the
    /// source. The oscillator always swings around mid-scale.
    pub open spec fn source_button(self, input: u16) -> Seq<Act> {
        if self.btn_flash[0] > 0 {
            Seq::empty()
        } else if self.held {
            seq![lit(0, Led::Button, self.params.color, Brightness::Mid)]
        } else {
            seq![
                Act::Signal {
                    chan: 0,
                    color: self.params.color,
                    level: input,
                    bipolar: self.active || self.params.in_range.bipolar(),
                },
            ]
        }
    }

    /// Button of an output: dark while muted, bright where shift works on it,
    /// in the colour of the next mode while that is previewed.
    pub open spec fn output_button(self, i: int, shift: bool) -> Seq<Act> {
        let chan = (i + 1) as usize;
        let color = match self.preview[i] {
            Some(m) => m.hue(self.base as int),
            None => self.shown[i].hue(self.base as int),
        };
        if self.store.muted[i] {
            seq![Act::Dark { chan, led: Led::Button }]
        } else if self.btn_flash[i + 1] > 0 {
            Seq::empty()
        } else if shift && self.focus == chan {
            seq![lit(chan, Led::Button, color, Brightness::High)]
        } else if self.preview[i] is Some {
            seq![lit(chan, Led::Button, color, Brightness::Mid)]
        } else {
            seq![
                Act::Signal {
                    chan,
                    color,
                    level: self.out_levels[i],
                    bipolar: self.modes[i] == Mode::Cv && self.ranges[i].bipolar(),
                },
            ]
        }
    }

    fn push_output_button(&self, acts: &mut Vec<Act>, i: usize, shift: bool)
        requires
            self.wf(),
            i < 3,
        ensures
            final(acts)@ == old(acts)@ + self.output_button(i as int, shift),
    {
        let ghost a0 = acts@;
        let chan: usize = i + 1;
        let color = match self.preview[i] {
            Some(m) => m.color(self.base),
            None => self.shown[i].color(self.base),
        };
        let cv = match self.modes[i] {
            Mode::Cv => true,
            _ => false,
        };
        if self.store.muted[i] {
            acts.push(Act::Dark { chan, led: Led::Button });
        } else if self.btn_flash[i + 1] > 0 {
        } else if shift && self.focus == chan {
            acts.push(Act::Light { chan, led: Led::Button, color, bright: Brightness::High });
        } else if self.preview[i].is_some() {
            acts.push(Act::Light { chan, led: Led::Button, color, bright: Brightness::Mid });
        } else {
            acts.push(
                Act::Signal {
                    chan,
                    color,
                    level: self.out_levels[i],
                    bipolar: cv && self.ranges[i].is_bipolar(),
                },
            );
        }
        assert(acts@ =~= a0 + self.output_button(i as int, shift));
    }

    /// The buttons of one millisecond.
    pub fn paint_frame(&self, input: u16, shift: bool) -> (acts: Vec<Act>)
        requires
            self.wf(),
        ensures
            acts@ == self.source_button(input) + self.output_button(0, shift) + self.output_button(
                1,
                shift,
            ) + self.output_button(2, shift),
    {
        let mut acts: Vec<Act> = Vec::new();
        let color = self.params.color;
        if self.btn_flash[0] == 0 {
            if self.held {
                acts.push(Act::Light { chan: 0, led: Led::Button, color, bright: Brightness::Mid });
            } else {
                acts.push(
                    Act::Signal {
                        chan: 0,
                        color,
                        level: input,
                        bipolar: self.active || self.params.in_range.is_bipolar(),
                    },
                );
            }
        }
        assert(acts@ =~= self.source_button(input));
        self.push_output_button(&mut acts, 0, shift);
        self.push_output_button(&mut acts, 1, shift);
        self.push_output_button(&mut acts, 2, shift);
        acts
    }
}

/// Acts on a jack for its edges.
pub open spec fn edge_acts(jack: usize, edges: Seq<Edge>) -> Seq<Act>
    decreases edges.len(),
{
    if edges.len() == 0 {
        Seq::empty()
    } else {
        let rest = edge_acts(jack, edges.drop_last());
        match edges.last() {
            Edge::Up => rest.push(Act::GateHigh { jack }),
            Edge::Down => rest.push(Act::GateLow { jack }),
            Edge::Stay => rest,
        }
    }
}

fn jack_acts(jack: usize, edges: &Vec<Edge>) -> (acts: Vec<Act>)
    ensures
        acts@ == edge_acts(jack, edges@),
{
    let mut acts: Vec<Act> = Vec::new();
    let mut i: usize = 0;
    while i < edges.len()
        invariant
            i <= edges@.len(),
            acts@ == edge_acts(jack, edges@.subrange(0, i as int)),
        decreases edges@.len() - i,
    {
        assert(edges@.subrange(0, i + 1).drop_last() =~= edges@.subrange(0, i as int));
        match edges[i] {
            Edge::Up => {
                acts.push(Act::GateHigh { jack });
            },
            Edge::Down => {
                acts.push(Act::GateLow { jack });
            },
            Edge::Stay => {},
        }
        i = i + 1;
    }
    assert(edges@.subrange(0, edges@.len() as int) =~= edges@);
    acts
}

/// A note starts only where none sounds and ends only where one does, so that
/// starts and ends alternate.
pub proof fn notes_alternate(s: Manifold, wave: int, level: u16)
    requires
        0 <= wave < 4,
    ensures
        s.note_edge(wave, level) == Edge::Up ==> !s.sounding[wave],
        s.note_edge(wave, level) == Edge::Down ==> s.sounding[wave],
        s.note_edge(wave, level) == Edge::Stay ==> s.sounding[wave] == (level > 0),
{
}

/// Every wave gets its turn: after four slots the first is due again.
pub proof fn slots_rotate(slot: int)
    requires
        0 <= slot < 4,
    ensures
        (((slot + 1) % 4 + 1) % 4 + 1) % 4 != slot,
        ((((slot + 1) % 4 + 1) % 4 + 1) % 4 + 1) % 4 == slot,
{
}

// ---------------------------------------------------------------------------
// Faders, buttons and scenes
// ---------------------------------------------------------------------------

/// A cleared entry.
pub open spec fn without_preview(preview: [Option<Mode>; 3], chan: int) -> [Option<Mode>; 3] {
    if 1 <= chan <= 3 { spec_array_update(preview, chan - 1, None) } else { preview }
}

impl Manifold {
    /// Mode that a channel's fader works for.
    pub open spec fn fader_mode(self, chan: int) -> Mode {
        if chan == 0 { Mode::Cv } else { self.modes[chan - 1] }
    }

    fn mode_at(&self, chan: usize) -> (r: Mode)
        requires
            chan < 4,
        ensures
            r == self.fader_mode(chan as int),
    {
        if chan == 0 {
            Mode::Cv
        } else {
            self.modes[chan - 1]
        }
    }

    fn clear_preview(&mut self, chan: usize)
        requires
            chan < 4,
        ensures
            *final(self) == (Manifold {
                preview: without_preview(old(self).preview, chan as int),
                ..*old(self)
            }),
    {
        let ghost s0 = *self;
        if chan >= 1 {
            self.preview[chan - 1] = None;
            assert(self.preview =~= spec_array_update(s0.preview, chan - 1, None));
        }
    }

    /// A fader has moved. A move past the noise with the button held is a scrub
    /// and cancels a mode preview.
    pub fn on_fader_move(&mut self, chan: usize, value: u16, shift: bool, button: bool)
        requires
            old(self).wf(),
            chan < 4,
        ensures
            final(self).wf(),
            ({
                let scrub = button && !shift && dist(
                    value as int,
                    old(self).fader_at_down[chan as int] as int,
                ) > FADER_MOVE_THRESH;
                let s = Manifold { focus: chan, ..*old(self) };
                *final(self) == if scrub {
                    Manifold {
                        fader_moved: spec_array_update(s.fader_moved, chan as int, true),
                        preview: without_preview(s.preview, chan as int),
                        ..s
                    }
                } else {
                    s
                }
            }),
    {
        let ghost s0 = *self;
        self.focus = chan;
        if button && !shift && abs_diff(value, self.fader_at_down[chan]) > FADER_MOVE_THRESH {
            self.fader_moved[chan] = true;
            assert(self.fader_moved =~= spec_array_update(s0.fader_moved, chan as int, true));
            self.clear_preview(chan);
        }
    }

    /// Value that a fader has to pass before it takes over.
    pub fn fader_target(&self, chan: usize, layer: LatchLayer) -> (r: u16)
        requires
            chan < 4,
        ensures
            r == self.store.layer_value(
                self.active,
                chan as int,
                self.fader_mode(chan as int),
                layer,
            ),
    {
        let mode = self.mode_at(chan);
        self.store.get_layer(self.active, chan, mode, layer)
    }

    /// A fader has taken over its layer with a value.
    pub fn on_fader(&mut self, chan: usize, layer: LatchLayer, v: u16) -> (acts: Vec<Act>)
        requires
            old(self).wf(),
            chan < 4,
        ensures
            final(self).wf(),
            acts@ == seq![Act::Save],
            *final(self) == (Manifold {
                store: old(self).store.with_layer(
                    old(self).active,
                    chan as int,
                    old(self).fader_mode(chan as int),
                    layer,
                    v,
                ),
                ..*old(self)
            }),
    {
        let mode = self.mode_at(chan);
        self.store.set_layer(self.active, chan, mode, layer, v);
        one(Act::Save)
    }

    /// A button goes down.
    pub fn on_down(&mut self, chan: usize, fader: u16)
        requires
            old(self).wf(),
            chan < 4,
        ensures
            final(self).wf(),
            *final(self) == (Manifold {
                focus: chan,
                fader_at_down: spec_array_update(old(self).fader_at_down, chan as int, fader),
                fader_moved: spec_array_update(old(self).fader_moved, chan as int, false),
                long: spec_array_update(old(self).long, chan as int, false),
                preview: without_preview(old(self).preview, chan as int),
                ..*old(self)
            }),
    {
        let ghost s0 = *self;
        self.focus = chan;
        self.fader_at_down[chan] = fader;
        assert(self.fader_at_down =~= spec_array_update(s0.fader_at_down, chan as int, fader));
        self.fader_moved[chan] = false;
        assert(self.fader_moved =~= spec_array_update(s0.fader_moved, chan as int, false));
        self.long[chan] = false;
        assert(self.long =~= spec_array_update(s0.long, chan as int, false));
        self.clear_preview(chan);
    }

    /// A button has been held for long. On an output: with shift the other
    /// range is announced by a flash, and swapped once the button is up and the
    /// flash is over, after the returned milliseconds; without shift the next
    /// mode is previewed.
    pub fn on_long(&mut self, chan: usize, shift: bool) -> (r: (Vec<Act>, Option<u16>))
        requires
            old(self).wf(),
            chan < 4,
        ensures
            final(self).wf(),
            ({
                let i = chan - 1;
                let s = Manifold {
                    long: spec_array_update(old(self).long, chan as int, true),
                    ..*old(self)
                };
                let times = blinks(range_after(s.params.range(i)));
                let next = s.params.mode(i).after();
                if chan == 0 {
                    *final(self) == s && r.0@ == Seq::<Act>::empty() && r.1 is None
                } else if shift {
                    &&& *final(self) == (Manifold {
                        btn_flash: spec_array_update(
                            s.btn_flash,
                            chan as int,
                            flash_hold(times) as u16,
                        ),
                        ..s
                    })
                    &&& r.0@ == seq![
                        Act::Flash {
                            chan,
                            led: Led::Button,
                            color: s.shown[i].hue(s.base as int),
                            times: times as usize,
                        },
                    ]
                    &&& r.1 == Some(flash_hold(times) as u16)
                } else {
                    &&& *final(self) == (Manifold {
                        preview: spec_array_update(s.preview, i, Some(next)),
                        ..s
                    })
                    &&& r.0@ == seq![
                        lit(chan, Led::Button, next.hue(s.base as int), Brightness::Mid),
                    ]
                    &&& r.1 is None
                }
            }),
    {
        let ghost s0 = *self;
        self.long[chan] = true;
        assert(self.long =~= spec_array_update(s0.long, chan as int, true));
        if chan == 0 {
            return (Vec::new(), None);
        }
        let i: usize = chan - 1;
        if shift {
            let times: usize = range_flash_times(next_range(self.params.range_of(i)));
            let hold: u16 = range_flash_hold_ms(times);
            let color = self.shown[i].color(self.base);
            self.btn_flash[chan] = hold;
            assert(self.btn_flash =~= spec_array_update(s0.btn_flash, chan as int, hold));
            (one(Act::Flash { chan, led: Led::Button, color, times }), Some(hold))
        } else {
            let next = self.params.mode_of(i).next();
            self.preview[i] = Some(next);
            assert(self.preview =~= spec_array_update(s0.preview, i as int, Some(next)));
            let color = next.color(self.base);
            (one(Act::Light { chan, led: Led::Button, color, bright: Brightness::Mid }), None)
        }
    }

    /// Swap the range of an output after its flash. The app starts over to set
    /// up the jack.
    pub fn on_range_swap(&mut self, chan: usize) -> (acts: Vec<Act>)
        requires
            old(self).wf(),
            1 <= chan <= 3,
        ensures
            final(self).wf(),
            *final(self) == (Manifold {
                params: old(self).params.with_range(
                    chan - 1,
                    range_after(old(self).params.range(chan - 1)),
                ),
                ..*old(self)
            }),
            acts@ == seq![Act::Save, Act::Restart],
    {
        let next = next_range(self.params.range_of(chan - 1));
        match chan - 1 {
            0 => {
                self.params.range_b = next;
            },
            1 => {
                self.params.range_c = next;
            },
            _ => {
                self.params.range_d = next;
            },
        }
        let mut acts = one(Act::Save);
        acts.push(Act::Restart);
        assert(acts@ =~= seq![Act::Save, Act::Restart]);
        acts
    }

    /// State and acts when a button goes up. A scrub cancels everything. On the
    /// first channel shift toggles the oscillator's clock sync, a plain press
    /// the freeze; on an output a long press moves on to the next mode and a
    /// short one mutes.
    pub open spec fn released(self, chan: usize, shift: bool) -> (Manifold, Seq<Act>) {
        let i = chan - 1;
        if self.fader_moved[chan as int] {
            (
                Manifold { preview: without_preview(self.preview, chan as int), ..self },
                Seq::empty(),
            )
        } else if chan == 0 && shift {
            if !self.active {
                (self, Seq::empty())
            } else {
                let clocked = !self.store.lfo_clocked;
                let s = Manifold {
                    store: (Storage { lfo_clocked: clocked, ..self.store }),
                    ..self
                };
                if clocked {
                    (
                        Manifold {
                            btn_flash: spec_array_update(s.btn_flash, 0, BUTTON_FLASH_MS),
                            ..s
                        },
                        seq![
                            Act::Save,
                            Act::Flash {
                                chan: 0,
                                led: Led::Button,
                                color: s.params.color,
                                times: 4,
                            },
                        ],
                    )
                } else {
                    (s, seq![Act::Save])
                }
            }
        } else if shift {
            (self, Seq::empty())
        } else if chan == 0 {
            (
                Manifold { held: !self.held, ..self },
                button_row(
                    self.params.color,
                    self.base as int,
                    self.shown,
                    !self.held,
                    self.store.muted,
                ),
            )
        } else if self.long[chan as int] {
            let next = self.params.mode(i).after();
            (
                Manifold {
                    preview: without_preview(self.preview, chan as int),
                    shown: spec_array_update(self.shown, i, next),
                    params: self.params.with_mode(i, next),
                    ..self
                },
                seq![Act::Save, Act::Restart],
            )
        } else {
            let muted = spec_array_update(self.store.muted, i, !self.store.muted[i]);
            (
                Manifold { store: (Storage { muted, ..self.store }), ..self },
                seq![Act::Save] + button_row(
                    self.params.color,
                    self.base as int,
                    self.shown,
                    self.held,
                    muted,
                ),
            )
        }
    }

    pub fn on_up(&mut self, chan: usize, shift: bool) -> (acts: Vec<Act>)
        requires
            old(self).wf(),
            chan < 4,
        ensures
            final(self).wf(),
            (*final(self), acts@) == old(self).released(chan, shift),
    {
        let ghost s0 = *self;
        if self.fader_moved[chan] {
            self.clear_preview(chan);
            return Vec::new();
        }
        if shift {
            if chan != 0 || !self.active {
                return Vec::new();
            }
            self.store.lfo_clocked = !self.store.lfo_clocked;
            let mut acts = one(Act::Save);
            if self.store.lfo_clocked {
                self.btn_flash[0] = BUTTON_FLASH_MS;
                assert(self.btn_flash =~= spec_array_update(s0.btn_flash, 0, BUTTON_FLASH_MS));
                acts.push(
                    Act::Flash { chan: 0, led: Led::Button, color: self.params.color, times: 4 },
                );
            }
            assert(acts@ =~= s0.released(chan, shift).1);
            return acts;
        }
        if chan == 0 {
            self.held = !self.held;
            return paint_buttons(
                self.params.color,
                self.base,
                &self.shown,
                self.held,
                &self.store.muted,
            );
        }
        let i: usize = chan - 1;
        if self.long[chan] {
            let next = self.params.mode_of(i).next();
            self.clear_preview(chan);
            self.shown[i] = next;
            assert(self.shown =~= spec_array_update(s0.shown, i as int, next));
            match i {
                0 => {
                    self.params.mode_b = next;
                },
                1 => {
                    self.params.mode_c = next;
                },
                _ => {
                    self.params.mode_d = next;
                },
            }
            let mut acts = one(Act::Save);
            acts.push(Act::Restart);
            assert(acts@ =~= seq![Act::Save, Act::Restart]);
            acts
        } else {
            let muted = !self.store.muted[i];
            self.store.muted[i] = muted;
            assert(self.store.muted =~= spec_array_update(s0.store.muted, i as int, muted));
            let mut acts = one(Act::Save);
            let row = paint_buttons(
                self.params.color,
                self.base,
                &self.shown,
                self.held,
                &self.store.muted,
            );
            push_all(&mut acts, row);
            acts
        }
    }

    /// The stored settings have been replaced by those of a scene.
    pub fn on_scene(&mut self, store: Storage) -> (acts: Vec<Act>)
        requires
            old(self).wf(),
        ensures
            final(self).wf(),
            *final(self) == (Manifold { store, ..*old(self) }),
            acts@ == button_row(
                old(self).params.color,
                old(self).base as int,
                old(self).shown,
                old(self).held,
                store.muted,
            ),
    {
        self.store = store;
        paint_buttons(self.params.color, self.base, &self.shown, self.held, &self.store.muted)
    }
}

/// A second press of the first button undoes a freeze, and a second tap on an
/// output undoes a mute.
pub proof fn taps_undo_themselves(s: Manifold, chan: usize)
    requires
        chan < 4,
        !s.fader_moved[chan as int],
        !s.long[chan as int],
    ensures
        s.released(chan, false).0.released(chan, false).0 == s,
{
    let t = s.released(chan, false).0.released(chan, false).0;
    if chan > 0 {
        assert(t.store.muted =~= s.store.muted);
    }
}

} // verus!
