//! One root oscillator cascading through three modulated oscillators.
//!
//! Each stage is modulated by the one before it, in its rate, depth or shape.
//! The root is the input, or an internal oscillator where nothing is patched.

use crate::apps::four_chan::{
    blinks, cc_for, channel_for, flash_hold, mapped_cc, mapped_channel, next_range, range_after,
    range_flash_hold_ms, range_flash_times, Freeze, Patch, TickWatch, CC_MAP_MAX, CH_MAP_MAX,
    FADER_MOVE_THRESH, IN_IDLE_MS,
};
use crate::apps::led_fx::{custom, hsv_to_rgb, pure_hue};
use crate::bounded::{param_values, values_of};
use crate::panel::{
    abs_diff, clamp_int, dist, min_int, one, push_all, reads, reads_all, Act, Brightness, Color,
    LatchLayer, Led, MidiOut, ParamSlot, Range, SlotKind, Value,
};
use vstd::array::spec_array_update;
use vstd::prelude::*;

verus! {

pub const CHANNELS: usize = 4;
pub const PARAMS: usize = 15;

/// Milliseconds between two samples.
pub const AUDIO_MS: u16 = 8;
/// Time for which a flash has the button to itself.
pub const BUTTON_FLASH_MS: u16 = 848;
/// Hues: input, root oscillator, then rate, depth and shape.
pub const HUES: [u16; 5] = [202, 240, 277, 315, 352];

// ---------------------------------------------------------------------------
// Colours and destinations
// ---------------------------------------------------------------------------

pub open spec fn hue_step(step: int) -> Color {
    custom(pure_hue(HUES[min_int(step, 4)] as int))
}

pub fn ripppple_color(step: usize) -> (c: Color)
    ensures
        c == hue_step(step as int),
{
    let hue: u16 = HUES[if step < 4 {
        step
    } else {
        4
    }];
    let (r, g, b) = hsv_to_rgb(hue);
    Color::Custom(r, g, b)
}

pub open spec fn root_hue(active: bool) -> Color {
    hue_step(if active { 1 } else { 0 })
}

pub fn ch0_color(lfo_active: bool) -> (c: Color)
    ensures
        c == root_hue(lfo_active),
{
    if lfo_active {
        ripppple_color(1)
    } else {
        ripppple_color(0)
    }
}

/// What the signal of the stage before modulates.
#[derive(Clone, Copy, Debug, PartialEq, Eq, Structural)]
pub enum Dest {
    Rate,
    Depth,
    Shape,
}

impl Dest {
    pub open spec fn at(v: int) -> Dest {
        if v == 1 {
            Dest::Depth
        } else if v == 2 {
            Dest::Shape
        } else {
            Dest::Rate
        }
    }

    pub open spec fn number(self) -> int {
        match self {
            Dest::Rate => 0,
            Dest::Depth => 1,
            Dest::Shape => 2,
        }
    }

    pub open spec fn after(self) -> Dest {
        match self {
            Dest::Rate => Dest::Depth,
            Dest::Depth => Dest::Shape,
            Dest::Shape => Dest::Rate,
        }
    }

    pub open spec fn hue(self) -> Color {
        hue_step(self.number() + 2)
    }

    pub fn from_u8(v: u8) -> (r: Self)
        ensures
            r == Dest::at(v as int),
    {
        match v {
            1 => Dest::Depth,
            2 => Dest::Shape,
            _ => Dest::Rate,
        }
    }

    pub fn as_u8(self) -> (r: u8)
        ensures
            r == self.number(),
    {
        match self {
            Dest::Rate => 0,
            Dest::Depth => 1,
            Dest::Shape => 2,
        }
    }

    pub fn next(self) -> (r: Self)
        ensures
            r == self.after(),
    {
        match self {
            Dest::Rate => Dest::Depth,
            Dest::Depth => Dest::Shape,
            Dest::Shape => Dest::Rate,
        }
    }

    pub fn color(self) -> (c: Color)
        ensures
            c == self.hue(),
    {
        match self {
            Dest::Rate => ripppple_color(2),
            Dest::Depth => ripppple_color(3),
            Dest::Shape => ripppple_color(4),
        }
    }
}

/// Cycling goes through all destinations, and a stored one reads back.
pub proof fn dests_cycle(d: Dest)
    ensures
        d.after() != d,
        d.after().after() != d,
        d.after().after().after() == d,
        Dest::at(d.number()) == d,
{
}

// ---------------------------------------------------------------------------
// Parameters and settings
// ---------------------------------------------------------------------------

#[derive(Clone, Copy, Debug, PartialEq, Eq, Structural)]
pub struct Params {
    pub color: Color,
    pub in_range: Range,
    pub range_b: Range,
    pub range_c: Range,
    pub range_d: Range,
    /// What each stage modulates to begin with.
    pub target_b: usize,
    pub target_c: usize,
    pub target_d: usize,
    pub lfo_speed_mult: usize,
    pub midi_out: MidiOut,
    pub midi_channel: u8,
    /// Base controller; the four waves take the numbers from there.
    pub midi_cc: u16,
    pub nrpn: bool,
    /// Channel of each wave, four bits each; zero follows `midi_channel`.
    pub ch_map: i32,
    /// Controller of each wave, seven bits each; zero derives from `midi_cc`.
    pub cc_map: i32,
}

/// A map kept within its bounds.
pub open spec fn map_within(v: i32, max: i32) -> i32 {
    clamp_int(v as int, 0, max as int) as i32
}

fn clamp_map(v: i32, max: i32) -> (r: i32)
    requires
        max >= 0,
    ensures
        r == map_within(v, max),
        0 <= r <= max,
{
    if v < 0 {
        0
    } else if v > max {
        max
    } else {
        v
    }
}

/// A slot of a list that may be too short.
pub open spec fn slot_at(s: Seq<ParamSlot>, i: int) -> Option<ParamSlot> {
    if 0 <= i < s.len() { Some(s[i]) } else { None }
}

fn get_slot(values: &[ParamSlot], i: usize) -> (r: Option<ParamSlot>)
    ensures
        r == slot_at(values@, i as int),
{
    if i < values.len() {
        Some(values[i])
    } else {
        None
    }
}

pub open spec fn range_or(slot: Option<ParamSlot>) -> Range {
    match slot {
        Some(s) => s.as_range,
        None => Range::VNeg5To5,
    }
}

fn slot_range(slot: Option<ParamSlot>) -> (r: Range)
    ensures
        r == range_or(slot),
{
    match slot {
        Some(s) => s.as_range,
        None => Range::VNeg5To5,
    }
}

pub open spec fn index_or(slot: Option<ParamSlot>) -> usize {
    match slot {
        Some(s) => s.as_index,
        None => 0,
    }
}

fn slot_index(slot: Option<ParamSlot>) -> (r: usize)
    ensures
        r == index_or(slot),
{
    match slot {
        Some(s) => s.as_index,
        None => 0,
    }
}

pub open spec fn target_or(slot: Option<ParamSlot>) -> usize {
    min_int(index_or(slot) as int, 2) as usize
}

fn slot_target(slot: Option<ParamSlot>) -> (r: usize)
    ensures
        r == target_or(slot),
        r <= 2,
{
    let t: usize = slot_index(slot);
    if t < 2 {
        t
    } else {
        2
    }
}

pub open spec fn map_or(slot: Option<ParamSlot>, max: i32) -> i32 {
    match slot {
        Some(s) => map_within(s.as_int, max),
        None => 0,
    }
}

fn slot_map(slot: Option<ParamSlot>, max: i32) -> (r: i32)
    requires
        max >= 0,
    ensures
        r == map_or(slot, max),
        0 <= r <= max,
{
    match slot {
        Some(s) => clamp_map(s.as_int, max),
        None => 0,
    }
}

impl Params {
    pub open spec fn valid(self) -> bool {
        &&& self.target_b <= 2
        &&& self.target_c <= 2
        &&& self.target_d <= 2
        &&& 0 <= self.ch_map <= CH_MAP_MAX
        &&& 0 <= self.cc_map <= CC_MAP_MAX
    }

    /// The parameters of a new app that sends on the device's default channel.
    pub fn with_channel(channel: u8) -> (r: Self)
        ensures
            r.valid(),
            r == (Params {
                color: Color::Cyan,
                in_range: Range::VNeg5To5,
                range_b: Range::VNeg5To5,
                range_c: Range::VNeg5To5,
                range_d: Range::VNeg5To5,
                target_b: 0,
                target_c: 0,
                target_d: 0,
                lfo_speed_mult: 0,
                midi_out: MidiOut { usb: false, out1: false, out2: false },
                midi_channel: channel,
                midi_cc: 32,
                nrpn: false,
                ch_map: 0,
                cc_map: 0,
            }),
    {
        Params {
            color: Color::Cyan,
            in_range: Range::VNeg5To5,
            range_b: Range::VNeg5To5,
            range_c: Range::VNeg5To5,
            range_d: Range::VNeg5To5,
            target_b: 0,
            target_c: 0,
            target_d: 0,
            lfo_speed_mult: 0,
            midi_out: MidiOut { usb: false, out1: false, out2: false },
            midi_channel: channel,
            midi_cc: 32,
            nrpn: false,
            ch_map: 0,
            cc_map: 0,
        }
    }

    pub fn channel_for(&self, wave: usize) -> (r: u8)
        requires
            wave < 4,
        ensures
            r == mapped_channel(self.ch_map as int, self.midi_channel as int, wave as int),
    {
        channel_for(self.ch_map, self.midi_channel, wave)
    }

    pub fn cc_for(&self, wave: usize, nrpn: bool) -> (r: u16)
        requires
            wave < 4,
        ensures
            r == mapped_cc(self.cc_map as int, self.midi_cc as int, wave as int, nrpn),
    {
        cc_for(self.cc_map, self.midi_cc, wave, nrpn)
    }

    pub open spec fn values(self) -> Seq<Value> {
        seq![
            Value::Color(self.color),
            Value::Range(self.in_range),
            Value::Range(self.range_b),
            Value::Range(self.range_c),
            Value::Range(self.range_d),
            Value::Enum(self.target_b),
            Value::Enum(self.target_c),
            Value::Enum(self.target_d),
            Value::Enum(self.lfo_speed_mult),
            Value::MidiOut(self.midi_out),
            Value::MidiChannel(self.midi_channel),
            Value::MidiCc(self.midi_cc),
            Value::MidiNrpn(self.nrpn),
            Value::I32(self.ch_map),
            Value::I32(self.cc_map),
        ]
    }

    /// The list still has the source in front of the oscillator's speed.
    pub open spec fn has_source(s: Seq<ParamSlot>) -> bool {
        s.len() >= 16 || (s.len() > 10 && s[9].kind == SlotKind::Enum)
    }

    /// Parameters in a list whose oscillator speed stands at a place. What a
    /// short list lacks takes its silent or neutral default.
    pub open spec fn read_at(s: Seq<ParamSlot>, at: int, channel: u8) -> Params {
        Params {
            color: s[0].as_color,
            in_range: range_or(slot_at(s, 1)),
            range_b: range_or(slot_at(s, 2)),
            range_c: range_or(slot_at(s, 3)),
            range_d: range_or(slot_at(s, 4)),
            target_b: target_or(slot_at(s, 5)),
            target_c: target_or(slot_at(s, 6)),
            target_d: target_or(slot_at(s, 7)),
            lfo_speed_mult: index_or(slot_at(s, at)),
            midi_out: match slot_at(s, at + 1) {
                Some(v) => v.as_midi_out,
                None => MidiOut { usb: false, out1: false, out2: false },
            },
            midi_channel: match slot_at(s, at + 2) {
                Some(v) => v.as_channel,
                None => channel,
            },
            midi_cc: match slot_at(s, at + 3) {
                Some(v) => v.as_cc,
                None => 32,
            },
            nrpn: match slot_at(s, at + 4) {
                Some(v) => v.as_bool,
                None => false,
            },
            ch_map: map_or(slot_at(s, at + 5), CH_MAP_MAX),
            cc_map: map_or(slot_at(s, at + 6), CC_MAP_MAX),
        }
    }

    pub open spec fn from_slots(s: Seq<ParamSlot>, channel: u8) -> Option<Params> {
        if s.len() == 0 {
            None
        } else {
            Some(Params::read_at(s, if Params::has_source(s) { 9 } else { 8 }, channel))
        }
    }

    pub fn from_values(values: &[ParamSlot], channel: u8) -> (r: Option<Params>)
        ensures
            r == Params::from_slots(values@, channel),
            r matches Some(p) ==> p.valid(),
    {
        let n: usize = values.len();
        if n == 0 {
            return None;
        }
        let legacy = if n >= 16 {
            true
        } else if n > 10 {
            match values[9].kind {
                SlotKind::Enum => true,
                _ => false,
            }
        } else {
            false
        };
        let at: usize = if legacy { 9 } else { 8 };
        let midi_out = match get_slot(values, at + 1) {
            Some(v) => v.as_midi_out,
            None => MidiOut { usb: false, out1: false, out2: false },
        };
        let midi_channel: u8 = match get_slot(values, at + 2) {
            Some(v) => v.as_channel,
            None => channel,
        };
        let midi_cc: u16 = match get_slot(values, at + 3) {
            Some(v) => v.as_cc,
            None => 32,
        };
        let nrpn = match get_slot(values, at + 4) {
            Some(v) => v.as_bool,
            None => false,
        };
        Some(
            Params {
                color: values[0].as_color,
                in_range: slot_range(get_slot(values, 1)),
                range_b: slot_range(get_slot(values, 2)),
                range_c: slot_range(get_slot(values, 3)),
                range_d: slot_range(get_slot(values, 4)),
                target_b: slot_target(get_slot(values, 5)),
                target_c: slot_target(get_slot(values, 6)),
                target_d: slot_target(get_slot(values, 7)),
                lfo_speed_mult: slot_index(get_slot(values, at)),
                midi_out,
                midi_channel,
                midi_cc,
                nrpn,
                ch_map: slot_map(get_slot(values, at + 5), CH_MAP_MAX),
                cc_map: slot_map(get_slot(values, at + 6), CC_MAP_MAX),
            },
        )
    }

    pub fn to_values(&self) -> (v: heapless::Vec<Value, 16>)
        ensures
            param_values(v) == self.values(),
    {
        let items: [Value; 15] = [
            Value::Color(self.color),
            Value::Range(self.in_range),
            Value::Range(self.range_b),
            Value::Range(self.range_c),
            Value::Range(self.range_d),
            Value::Enum(self.target_b),
            Value::Enum(self.target_c),
            Value::Enum(self.target_d),
            Value::Enum(self.lfo_speed_mult),
            Value::MidiOut(self.midi_out),
            Value::MidiChannel(self.midi_channel),
            Value::MidiCc(self.midi_cc),
            Value::MidiNrpn(self.nrpn),
            Value::I32(self.ch_map),
            Value::I32(self.cc_map),
        ];
        assert(items@ =~= self.values());
        values_of(&items)
    }

    pub open spec fn range(self, i: int) -> Range {
        if i == 0 {
            self.range_b
        } else if i == 1 {
            self.range_c
        } else {
            self.range_d
        }
    }

    pub open spec fn with_range(self, i: int, r: Range) -> Params {
        if i == 0 {
            Params { range_b: r, ..self }
        } else if i == 1 {
            Params { range_c: r, ..self }
        } else {
            Params { range_d: r, ..self }
        }
    }

    pub open spec fn with_target(self, i: int, t: usize) -> Params {
        if i == 0 {
            Params { target_b: t, ..self }
        } else if i == 1 {
            Params { target_c: t, ..self }
        } else {
            Params { target_d: t, ..self }
        }
    }

    pub fn range_of(&self, i: usize) -> (r: Range)
        ensures
            r == self.range(i as int),
    {
        match i {
            0 => self.range_b,
            1 => self.range_c,
            _ => self.range_d,
        }
    }
}

/// Stored parameters read back as they were.
pub proof fn params_round_trip(p: Params, slots: Seq<ParamSlot>, channel: u8)
    requires
        p.valid(),
        reads_all(slots, p.values()),
    ensures
        Params::from_slots(slots, channel) == Some(p),
{
    assert forall|i: int| 0 <= i < 15 implies reads(#[trigger] slots[i], p.values()[i]) by {}
    let (s0, s1, s2, s3) = (slots[0], slots[1], slots[2], slots[3]);
    let (s4, s5, s6, s7) = (slots[4], slots[5], slots[6], slots[7]);
    let (s8, s9, s10, s11) = (slots[8], slots[9], slots[10], slots[11]);
    let (s12, s13, s14) = (slots[12], slots[13], slots[14]);
}

#[derive(Clone, Copy, Debug, PartialEq, Eq)]
pub struct Storage {
    /// Per stage: modulation depth, base rate, own shape and destination.
    pub depth: [u16; 3],
    pub rate: [u16; 3],
    pub shape: [u16; 3],
    pub dest: [u8; 3],
    pub muted: [bool; 3],
    /// Layers of the root oscillator, and its clock sync.
    pub lfo_speed: u16,
    pub morph: u16,
    pub skew: u16,
    pub lfo_clocked: bool,
    /// Shared by all stages.
    pub symmetry: u16,
}

impl Default for Storage {
    /// The chain starts decoupled: every stage runs free until its depth is up.
    fn default() -> (r: Self)
        ensures
            r.depth@ == seq![0u16, 0u16, 0u16],
            r.rate@ == seq![2000u16, 2000u16, 2000u16],
            r.shape@ == seq![0u16, 0u16, 0u16],
            r.dest@ == seq![0u8, 0u8, 0u8],
            r.muted@ == seq![false, false, false],
            r.lfo_speed == 2000,
            r.morph == 0,
            r.skew == 2048,
            !r.lfo_clocked,
            r.symmetry == 2048,
    {
        let dest: u8 = Dest::Rate.as_u8();
        Storage {
            depth: [0; 3],
            rate: [2000; 3],
            shape: [0; 3],
            dest: [dest; 3],
            muted: [false; 3],
            lfo_speed: 2000,
            morph: 0,
            skew: 2048,
            lfo_clocked: false,
            symmetry: 2048,
        }
    }
}

impl Storage {
    /// Setting behind a fader. The last stage trades its own shape for the
    /// shared symmetry.
    pub open spec fn layer_value(self, chan: int, layer: LatchLayer) -> u16 {
        if chan == 0 {
            match layer {
                LatchLayer::Main => self.lfo_speed,
                LatchLayer::Alt => self.morph,
                LatchLayer::Third => self.skew,
            }
        } else {
            match layer {
                LatchLayer::Main => self.depth[chan - 1],
                LatchLayer::Alt => self.rate[chan - 1],
                LatchLayer::Third => if chan == 3 { self.symmetry } else { self.shape[chan - 1] },
            }
        }
    }

    /// Settings with the one behind a fader replaced.
    pub open spec fn with_layer(self, chan: int, layer: LatchLayer, v: u16) -> Storage {
        if chan == 0 {
            match layer {
                LatchLayer::Main => Storage { lfo_speed: v, ..self },
                LatchLayer::Alt => Storage { morph: v, ..self },
                LatchLayer::Third => Storage { skew: v, ..self },
            }
        } else {
            match layer {
                LatchLayer::Main => Storage {
                    depth: spec_array_update(self.depth, chan - 1, v),
                    ..self
                },
                LatchLayer::Alt => Storage {
                    rate: spec_array_update(self.rate, chan - 1, v),
                    ..self
                },
                LatchLayer::Third => if chan == 3 {
                    Storage { symmetry: v, ..self }
                } else {
                    Storage { shape: spec_array_update(self.shape, chan - 1, v), ..self }
                },
            }
        }
    }

    pub fn get_layer(&self, chan: usize, layer: LatchLayer) -> (r: u16)
        requires
            chan < 4,
        ensures
            r == self.layer_value(chan as int, layer),
    {
        if chan == 0 {
            match layer {
                LatchLayer::Main => self.lfo_speed,
                LatchLayer::Alt => self.morph,
                LatchLayer::Third => self.skew,
            }
        } else {
            match layer {
                LatchLayer::Main => self.depth[chan - 1],
                LatchLayer::Alt => self.rate[chan - 1],
                LatchLayer::Third => if chan == 3 { self.symmetry } else { self.shape[chan - 1] },
            }
        }
    }

    pub fn set_layer(&mut self, chan: usize, layer: LatchLayer, v: u16)
        requires
            chan < 4,
        ensures
            *final(self) == old(self).with_layer(chan as int, layer, v),
    {
        if chan == 0 {
            match layer {
                LatchLayer::Main => {
                    self.lfo_speed = v;
                },
                LatchLayer::Alt => {
                    self.morph = v;
                },
                LatchLayer::Third => {
                    self.skew = v;
                },
            }
        } else {
            match layer {
                LatchLayer::Main => {
                    self.depth[chan - 1] = v;
                },
                LatchLayer::Alt => {
                    self.rate[chan - 1] = v;
                },
                LatchLayer::Third => if chan == 3 {
                    self.symmetry = v;
                } else {
                    self.shape[chan - 1] = v;
                },
            }
        }
    }
}

/// A setting reads back what was stored through its fader, and no other fader
/// moves with it.
pub proof fn layers_are_separate(s: Storage, c1: int, c2: int, l1: LatchLayer, l2: LatchLayer, v: u16)
    requires
        0 <= c1 < 4,
        0 <= c2 < 4,
    ensures
        s.with_layer(c1, l1, v).layer_value(c1, l1) == v,
        c1 != c2 || l1 != l2 ==> s.with_layer(c1, l1, v).layer_value(c2, l2) == s.layer_value(
            c2,
            l2,
        ),
{
}

// ---------------------------------------------------------------------------
// Stages
// ---------------------------------------------------------------------------

/// A stage's shape, moved by the modulation where that is what it modulates.
pub open spec fn shape_of(shape: int, dest: Dest, amount: int) -> int {
    if dest == Dest::Shape { clamp_int(shape + amount, 0, 4095) } else { shape }
}

pub fn stage_shape(shape: u16, dest: Dest, amount: i32) -> (r: u16)
    requires
        shape + amount <= i32::MAX,
    ensures
        r == shape_of(shape as int, dest, amount as int),
{
    match dest {
        Dest::Shape => {
            let v: i32 = shape as i32 + amount;
            if v < 0 {
                0
            } else if v > 4095 {
                4095
            } else {
                v as u16
            }
        },
        _ => shape,
    }
}

/// A sample scaled by the mute's gain, on a range that starts at zero.
pub open spec fn scaled(sample: int, gain: int) -> int {
    sample * gain / 4095
}

pub fn mute_level(sample: u16, gain: u16) -> (r: u16)
    requires
        gain <= 4095,
    ensures
        r == scaled(sample as int, gain as int),
        r <= sample,
{
    assert(0 <= sample * gain <= sample * 4095) by (nonlinear_arith)
        requires
            0 <= sample,
            gain <= 4095,
    ;
    (sample as u32 * gain as u32 / 4095) as u16
}

/// A stage that is not muted passes its sample; a muted one is silent.
pub proof fn mute_ends_of_travel(sample: int)
    requires
        0 <= sample,
    ensures
        scaled(sample, 4095) == sample,
        scaled(sample, 0) == 0,
{
}

// ---------------------------------------------------------------------------
// The running app
// ---------------------------------------------------------------------------

/// State of the app between events.
pub struct Ripppple {
    pub params: Params,
    /// Whether each output's jack is bipolar.
    pub bipolar: [bool; 3],
    pub midi_on: bool,
    pub ccs: [u16; 4],
    pub store: Storage,
    /// The root is frozen.
    pub held: bool,
    pub fader_at_down: [u16; 4],
    pub fader_moved: [bool; 4],
    pub long: [bool; 4],
    /// The internal oscillator is the root.
    pub active: bool,
    pub btn_flash: [u16; 4],
    pub freeze: Freeze,
    pub patch: Patch,
    pub watch: TickWatch,
    pub out_levels: [u16; 3],
    pub last_midi: [Option<u16>; 4],
    pub midi_slot: usize,
}

pub open spec fn lit(chan: usize, led: Led, color: Color, bright: Brightness) -> Act {
    Act::Light { chan, led, color, bright }
}

/// Button of a stage.
pub open spec fn stage_light(i: int, muted: bool, dest: u8) -> Act {
    if muted {
        Act::Dark { chan: (i + 1) as usize, led: Led::Button }
    } else {
        lit((i + 1) as usize, Led::Button, Dest::at(dest as int).hue(), Brightness::Mid)
    }
}

/// The row of buttons.
pub open spec fn button_row(color: Color, dest: [u8; 3], frozen: bool, muted: [bool; 3]) -> Seq<Act> {
    seq![
        lit(0, Led::Button, color, if frozen { Brightness::Mid } else { Brightness::Low }),
        stage_light(0, muted[0], dest[0]),
        stage_light(1, muted[1], dest[1]),
        stage_light(2, muted[2], dest[2]),
    ]
}

pub fn paint_buttons(color: Color, dest: &[u8; 3], frozen: bool, muted: &[bool; 3]) -> (acts: Vec<
    Act,
>)
    ensures
        acts@ == button_row(color, *dest, frozen, *muted),
{
    let mut acts = one(
        Act::Light {
            chan: 0,
            led: Led::Button,
            color,
            bright: if frozen {
                Brightness::Mid
            } else {
                Brightness::Low
            },
        },
    );
    let mut i: usize = 0;
    let ghost row = button_row(color, *dest, frozen, *muted);
    while i < 3
        invariant
            i <= 3,
            row == button_row(color, *dest, frozen, *muted),
            acts@.len() == i + 1,
            forall|k: int| 0 <= k <= i ==> #[trigger] acts@[k] == row[k],
        decreases 3 - i,
    {
        if muted[i] {
            acts.push(Act::Dark { chan: i + 1, led: Led::Button });
        } else {
            acts.push(
                Act::Light {
                    chan: i + 1,
                    led: Led::Button,
                    color: Dest::from_u8(dest[i]).color(),
                    bright: Brightness::Mid,
                },
            );
        }
        i = i + 1;
    }
    assert(acts@ =~= row);
    acts
}

impl Ripppple {
    pub open spec fn wf(self) -> bool {
        self.params.valid() && self.patch.wf() && self.midi_slot < 4
    }

    /// Start with the configured destinations.
    pub fn new(params: Params, stored: Storage, raw: u16, tick: u64) -> (r: (Self, Vec<Act>))
        requires
            params.valid(),
        ensures
            r.0.wf(),
            r.0.params == params,
            r.0.store == (Storage { dest: r.0.store.dest, ..stored }),
            r.0.store.dest@ == seq![
                params.target_b as u8,
                params.target_c as u8,
                params.target_d as u8,
            ],
            forall|i: int| 0 <= i < 3 ==> #[trigger] r.0.bipolar[i] == params.range(i).bipolar(),
            forall|w: int|
                0 <= w < 4 ==> #[trigger] r.0.ccs[w] == mapped_cc(
                    params.cc_map as int,
                    params.midi_cc as int,
                    w,
                    params.nrpn,
                ),
            r.0.midi_on == params.midi_out.any(),
            !r.0.held,
            r.0.active,
            r.0.patch == (Patch { prev_raw: raw, idle_ms: IN_IDLE_MS }),
            r.0.watch == (TickWatch { last_tick: tick, ms_since: 0, period_ms: 21 }),
            r.0.freeze == (Freeze { on: false, value: 0 }),
            forall|w: int|
                0 <= w < 4 ==> #[trigger] r.0.last_midi[w] is None && r.0.btn_flash[w] == 0,
            forall|w: int|
                0 <= w < 4 ==> #[trigger] r.0.fader_at_down[w] == 0 && !r.0.fader_moved[w]
                    && !r.0.long[w],
            forall|i: int| 0 <= i < 3 ==> #[trigger] r.0.out_levels[i] == 0,
            r.0.midi_slot == 0,
            r.1@ == button_row(root_hue(true), r.0.store.dest, false, stored.muted),
    {
        let nrpn = params.nrpn;
        let ccs: [u16; 4] = [
            params.cc_for(0, nrpn),
            params.cc_for(1, nrpn),
            params.cc_for(2, nrpn),
            params.cc_for(3, nrpn),
        ];
        let dest: [u8; 3] = [params.target_b as u8, params.target_c as u8, params.target_d as u8];
        let acts = paint_buttons(ch0_color(true), &dest, false, &stored.muted);
        let s = Ripppple {
            params,
            bipolar: [
                params.range_b.is_bipolar(),
                params.range_c.is_bipolar(),
                params.range_d.is_bipolar(),
            ],
            midi_on: params.midi_out.is_some(),
            ccs,
            store: Storage { dest, ..stored },
            held: false,
            fader_at_down: [0; 4],
            fader_moved: [false; 4],
            long: [false; 4],
            active: true,
            btn_flash: [0; 4],
            freeze: Freeze::new(),
            patch: Patch::new(raw),
            watch: TickWatch::new(tick),
            out_levels: [0; 3],
            last_midi: [None; 4],
            midi_slot: 0,
        };
        (s, acts)
    }

    /// A sample begins: look at the input, the clock and the flashes.
    pub fn begin_sample(&mut self, raw: u16, tick: u64)
        requires
            old(self).wf(),
        ensures
            final(self).wf(),
            final(self).patch == old(self).patch.seen(raw, AUDIO_MS as int),
            final(self).active == final(self).patch.unpatched(),
            final(self).watch == old(self).watch.seen(tick, AUDIO_MS as int),
            forall|w: int|
                0 <= w < 4 ==> #[trigger] final(self).btn_flash[w] == if old(self).btn_flash[w]
                    > AUDIO_MS {
                    old(self).btn_flash[w] - AUDIO_MS
                } else {
                    0
                },
            *final(self) == (Ripppple {
                patch: final(self).patch,
                active: final(self).active,
                watch: final(self).watch,
                btn_flash: final(self).btn_flash,
                ..*old(self)
            }),
    {
        let ghost s0 = *self;
        self.active = self.patch.step(raw, AUDIO_MS);
        self.watch.step(tick, AUDIO_MS);
        let mut w: usize = 0;
        while w < 4
            invariant
                w <= 4,
                *self == (Ripppple {
                    btn_flash: self.btn_flash,
                    patch: s0.patch.seen(raw, AUDIO_MS as int),
                    active: s0.patch.seen(raw, AUDIO_MS as int).unpatched(),
                    watch: s0.watch.seen(tick, AUDIO_MS as int),
                    ..s0
                }),
                forall|k: int|
                    0 <= k < 4 ==> #[trigger] self.btn_flash[k] == if k >= w {
                        s0.btn_flash[k] as int
                    } else if s0.btn_flash[k] > AUDIO_MS {
                        s0.btn_flash[k] - AUDIO_MS
                    } else {
                        0
                    },
            decreases 4 - w,
        {
            let left: u16 = self.btn_flash[w];
            self.btn_flash[w] = left.saturating_sub(AUDIO_MS);
            w = w + 1;
        }
    }

    /// The root has given a sample: freeze it where held, and move on to the
    /// next mirrored wave. Returns the value that modulates the first stage.
    pub fn on_root(&mut self, sample: u16) -> (root: u16)
        requires
            old(self).wf(),
        ensures
            final(self).wf(),
            root == old(self).freeze.seen(old(self).held, sample).out(sample),
            *final(self) == (Ripppple {
                freeze: old(self).freeze.seen(old(self).held, sample),
                midi_slot: if old(self).midi_on { ((old(self).midi_slot + 1) % 4) as usize } else {
                    old(self).midi_slot
                },
                ..*old(self)
            }),
    {
        let root: u16 = self.freeze.step(self.held, sample);
        if self.midi_on {
            self.midi_slot = (self.midi_slot + 1) % 4;
        }
        root
    }

    /// Mirror a wave to MIDI in its slot, where `gate_val`, the level as the
    /// MIDI side resolves it, has changed.
    pub fn mirror(&mut self, wave: usize, level: u16, gate_val: u16) -> (acts: Vec<Act>)
        requires
            old(self).wf(),
            wave < 4,
        ensures
            final(self).wf(),
            ({
                let w = wave as int;
                if old(self).midi_on && old(self).midi_slot == wave && old(self).last_midi[w]
                    != Some(gate_val) {
                    &&& *final(self) == (Ripppple {
                        last_midi: spec_array_update(old(self).last_midi, w, Some(gate_val)),
                        ..*old(self)
                    })
                    &&& acts@ == seq![Act::Cc { out: wave, cc: old(self).ccs[w], val: level }]
                } else {
                    *final(self) == *old(self) && acts@ == Seq::<Act>::empty()
                }
            }),
    {
        let ghost s0 = *self;
        if self.midi_on && self.midi_slot == wave {
            let same = match self.last_midi[wave] {
                Some(v) => v == gate_val,
                None => false,
            };
            if !same {
                self.last_midi[wave] = Some(gate_val);
                assert(self.last_midi =~= spec_array_update(
                    s0.last_midi,
                    wave as int,
                    Some(gate_val),
                ));
                return one(Act::Cc { out: wave, cc: self.ccs[wave], val: level });
            }
        }
        Vec::new()
    }

    /// Put the level of a stage out and show it.
    pub fn on_stage(&mut self, i: usize, level: u16) -> (acts: Vec<Act>)
        requires
            old(self).wf(),
            i < 3,
        ensures
            final(self).wf(),
            *final(self) == (Ripppple {
                out_levels: spec_array_update(old(self).out_levels, i as int, level),
                ..*old(self)
            }),
            ({
                let chan = (i + 1) as usize;
                let color = Dest::at(old(self).store.dest[i as int] as int).hue();
                acts@ == seq![Act::Cv { jack: chan, val: level }] + (if old(
                    self,
                ).store.muted[i as int] {
                    seq![
                        lit(chan, Led::Top, color, Brightness::Low),
                        lit(chan, Led::Bottom, color, Brightness::Low),
                    ]
                } else {
                    seq![Act::Meter { chan, color, level, top_floor: 0, bottom_floor: 0 }]
                })
            }),
    {
        let ghost s0 = *self;
        let chan: usize = i + 1;
        let color = Dest::from_u8(self.store.dest[i]).color();
        self.out_levels[i] = level;
        assert(self.out_levels =~= spec_array_update(s0.out_levels, i as int, level));
        let mut acts = one(Act::Cv { jack: chan, val: level });
        if self.store.muted[i] {
            acts.push(Act::Light { chan, led: Led::Top, color, bright: Brightness::Low });
            acts.push(Act::Light { chan, led: Led::Bottom, color, bright: Brightness::Low });
        } else {
            acts.push(Act::Meter { chan, color, level, top_floor: 0, bottom_floor: 0 });
        }
        assert(acts@ =~= seq![Act::Cv { jack: chan, val: level }] + (if s0.store.muted[i as int] {
            seq![
                lit(chan, Led::Top, color, Brightness::Low),
                lit(chan, Led::Bottom, color, Brightness::Low),
            ]
        } else {
            seq![Act::Meter { chan, color, level, top_floor: 0, bottom_floor: 0 }]
        }));
        acts
    }

    pub open spec fn root_button(self, root: u16) -> Seq<Act> {
        if self.btn_flash[0] > 0 {
            Seq::empty()
        } else if self.held {
            seq![lit(0, Led::Button, root_hue(self.active), Brightness::Mid)]
        } else {
            seq![
                Act::Signal {
                    chan: 0,
                    color: root_hue(self.active),
                    level: root,
                    bipolar: self.active || self.params.in_range.bipolar(),
                },
            ]
        }
    }

    /// Button of a stage: it keeps metering while shift is held, since its
    /// pulse shows the rate that is being edited.
    pub open spec fn stage_button(self, i: int) -> Seq<Act> {
        let chan = (i + 1) as usize;
        if self.store.muted[i] {
            seq![Act::Dark { chan, led: Led::Button }]
        } else if self.btn_flash[i + 1] > 0 {
            Seq::empty()
        } else {
            seq![
                Act::Signal {
                    chan,
                    color: Dest::at(self.store.dest[i] as int).hue(),
                    level: self.out_levels[i],
                    bipolar: self.bipolar[i],
                },
            ]
        }
    }

    fn push_stage_button(&self, acts: &mut Vec<Act>, i: usize)
        requires
            i < 3,
        ensures
            final(acts)@ == old(acts)@ + self.stage_button(i as int),
    {
        let ghost a0 = acts@;
        let chan: usize = i + 1;
        if self.store.muted[i] {
            acts.push(Act::Dark { chan, led: Led::Button });
        } else if self.btn_flash[i + 1] == 0 {
            acts.push(
                Act::Signal {
                    chan,
                    color: Dest::from_u8(self.store.dest[i]).color(),
                    level: self.out_levels[i],
                    bipolar: self.bipolar[i],
                },
            );
        }
        assert(acts@ =~= a0 + self.stage_button(i as int));
    }

    /// The buttons after a sample.
    pub fn paint_frame(&self, root: u16) -> (acts: Vec<Act>)
        ensures
            acts@ == self.root_button(root) + self.stage_button(0) + self.stage_button(1)
                + self.stage_button(2),
    {
        let mut acts: Vec<Act> = Vec::new();
        let color = ch0_color(self.active);
        if self.btn_flash[0] == 0 {
            if self.held {
                acts.push(Act::Light { chan: 0, led: Led::Button, color, bright: Brightness::Mid });
            } else {
                acts.push(
                    Act::Signal {
                        chan: 0,
                        color,
                        level: root,
                        bipolar: self.active || self.params.in_range.is_bipolar(),
                    },
                );
            }
        }
        assert(acts@ =~= self.root_button(root));
        self.push_stage_button(&mut acts, 0);
        self.push_stage_button(&mut acts, 1);
        self.push_stage_button(&mut acts, 2);
        acts
    }

    /// A fader has moved. A move past the noise with the button held is a
    /// scrub.
    pub fn on_fader_move(&mut self, chan: usize, value: u16, shift: bool, button: bool)
        requires
            old(self).wf(),
            chan < 4,
        ensures
            final(self).wf(),
            *final(self) == if button && !shift && dist(
                value as int,
                old(self).fader_at_down[chan as int] as int,
            ) > FADER_MOVE_THRESH {
                Ripppple {
                    fader_moved: spec_array_update(old(self).fader_moved, chan as int, true),
                    ..*old(self)
                }
            } else {
                *old(self)
            },
    {
        let ghost s0 = *self;
        if button && !shift && abs_diff(value, self.fader_at_down[chan]) > FADER_MOVE_THRESH {
            self.fader_moved[chan] = true;
            assert(self.fader_moved =~= spec_array_update(s0.fader_moved, chan as int, true));
        }
    }

    /// Value that a fader has to pass before it takes over.
    pub fn fader_target(&self, chan: usize, layer: LatchLayer) -> (r: u16)
        requires
            chan < 4,
        ensures
            r == self.store.layer_value(chan as int, layer),
    {
        self.store.get_layer(chan, layer)
    }

    /// A fader has taken over its layer with a value.
    pub fn on_fader(&mut self, chan: usize, layer: LatchLayer, v: u16) -> (acts: Vec<Act>)
        requires
            old(self).wf(),
            chan < 4,
        ensures
            final(self).wf(),
            acts@ == seq![Act::Save],
            *final(self) == (Ripppple {
                store: old(self).store.with_layer(chan as int, layer, v),
                ..*old(self)
            }),
    {
        self.store.set_layer(chan, layer, v);
        one(Act::Save)
    }

    /// A button goes down.
    pub fn on_down(&mut self, chan: usize, fader: u16)
        requires
            old(self).wf(),
            chan < 4,
        ensures
            final(self).wf(),
            *final(self) == (Ripppple {
                fader_at_down: spec_array_update(old(self).fader_at_down, chan as int, fader),
                fader_moved: spec_array_update(old(self).fader_moved, chan as int, false),
                long: spec_array_update(old(self).long, chan as int, false),
                ..*old(self)
            }),
    {
        let ghost s0 = *self;
        self.fader_at_down[chan] = fader;
        assert(self.fader_at_down =~= spec_array_update(s0.fader_at_down, chan as int, fader));
        self.fader_moved[chan] = false;
        assert(self.fader_moved =~= spec_array_update(s0.fader_moved, chan as int, false));
        self.long[chan] = false;
        assert(self.long =~= spec_array_update(s0.long, chan as int, false));
    }

    /// State, acts and wait when a button has been held for long. On a stage:
    /// with shift the other range is announced by a flash, and swapped once the
    /// button is up and the flash is over; without shift the stage moves on to
    /// the next destination, and the parameter follows.
    pub open spec fn held_long(self, chan: usize, shift: bool) -> (Ripppple, Seq<Act>, Option<u16>) {
        let i = chan - 1;
        let s = Ripppple { long: spec_array_update(self.long, chan as int, true), ..self };
        let times = blinks(range_after(s.params.range(i)));
        let next = Dest::at(s.store.dest[i] as int).after();
        if chan == 0 {
            (s, Seq::empty(), None)
        } else if shift {
            (
                Ripppple {
                    btn_flash: spec_array_update(
                        s.btn_flash,
                        chan as int,
                        flash_hold(times) as u16,
                    ),
                    ..s
                },
                seq![
                    Act::Flash {
                        chan,
                        led: Led::Button,
                        color: Dest::at(s.store.dest[i] as int).hue(),
                        times: times as usize,
                    },
                ],
                Some(flash_hold(times) as u16),
            )
        } else {
            (
                Ripppple {
                    store: (Storage {
                        dest: spec_array_update(s.store.dest, i, next.number() as u8),
                        ..s.store
                    }),
                    params: s.params.with_target(i, next.number() as usize),
                    btn_flash: spec_array_update(s.btn_flash, chan as int, BUTTON_FLASH_MS),
                    ..s
                },
                seq![
                    Act::Save,
                    Act::Flash { chan, led: Led::Button, color: next.hue(), times: 4 },
                ],
                None,
            )
        }
    }

    pub fn on_long(&mut self, chan: usize, shift: bool) -> (r: (Vec<Act>, Option<u16>))
        requires
            old(self).wf(),
            chan < 4,
        ensures
            final(self).wf(),
            (*final(self), r.0@, r.1) == old(self).held_long(chan, shift),
    {
        let ghost s0 = *self;
        self.long[chan] = true;
        assert(self.long =~= spec_array_update(s0.long, chan as int, true));
        if chan == 0 {
            return (Vec::new(), None);
        }
        let i: usize = chan - 1;
        let dest = Dest::from_u8(self.store.dest[i]);
        if shift {
            let times: usize = range_flash_times(next_range(self.params.range_of(i)));
            let hold: u16 = range_flash_hold_ms(times);
            self.btn_flash[chan] = hold;
            assert(self.btn_flash =~= spec_array_update(s0.btn_flash, chan as int, hold));
            (one(Act::Flash { chan, led: Led::Button, color: dest.color(), times }), Some(hold))
        } else {
            let next = dest.next();
            let n: u8 = next.as_u8();
            self.store.dest[i] = n;
            assert(self.store.dest =~= spec_array_update(s0.store.dest, i as int, n));
            self.btn_flash[chan] = BUTTON_FLASH_MS;
            assert(self.btn_flash =~= spec_array_update(
                s0.btn_flash,
                chan as int,
                BUTTON_FLASH_MS,
            ));
            match i {
                0 => {
                    self.params.target_b = n as usize;
                },
                1 => {
                    self.params.target_c = n as usize;
                },
                _ => {
                    self.params.target_d = n as usize;
                },
            }
            let mut acts = one(Act::Save);
            acts.push(Act::Flash { chan, led: Led::Button, color: next.color(), times: 4 });
            assert(acts@ =~= s0.held_long(chan, shift).1);
            (acts, None)
        }
    }

    /// Swap the range of a stage after its flash. The app starts over to set up
    /// the jack.
    pub fn on_range_swap(&mut self, chan: usize) -> (acts: Vec<Act>)
        requires
            old(self).wf(),
            1 <= chan <= 3,
        ensures
            final(self).wf(),
            *final(self) == (Ripppple {
                params: old(self).params.with_range(
                    chan - 1,
                    range_after(old(self).params.range(chan - 1)),
                ),
                ..*old(self)
            }),
            acts@ == seq![Act::Save, Act::Restart],
    {
        let next = next_range(self.params.range_of(chan - 1));
        match chan - 1 {
            0 => {
                self.params.range_b = next;
            },
            1 => {
                self.params.range_c = next;
            },
            _ => {
                self.params.range_d = next;
            },
        }
        let mut acts = one(Act::Save);
        acts.push(Act::Restart);
        assert(acts@ =~= seq![Act::Save, Act::Restart]);
        acts
    }

    /// State and acts when a button goes up. After a scrub or a long press
    /// nothing happens. On the first channel shift toggles the root's clock
    /// sync, a plain press the freeze; on a stage a plain press mutes.
    pub open spec fn released(self, chan: usize, shift: bool) -> (Ripppple, Seq<Act>) {
        let i = chan - 1;
        if self.fader_moved[chan as int] || self.long[chan as int] {
            (self, Seq::empty())
        } else if shift {
            if chan != 0 || !self.active {
                (self, Seq::empty())
            } else {
                let clocked = !self.store.lfo_clocked;
                let s = Ripppple {
                    store: (Storage { lfo_clocked: clocked, ..self.store }),
                    ..self
                };
                if clocked {
                    (
                        Ripppple {
                            btn_flash: spec_array_update(s.btn_flash, 0, BUTTON_FLASH_MS),
                            ..s
                        },
                        seq![
                            Act::Save,
                            Act::Flash {
                                chan: 0,
                                led: Led::Button,
                                color: root_hue(self.active),
                                times: 4,
                            },
                        ],
                    )
                } else {
                    (s, seq![Act::Save])
                }
            }
        } else if chan == 0 {
            (
                Ripppple { held: !self.held, ..self },
                button_row(
                    root_hue(self.active),
                    self.store.dest,
                    !self.held,
                    self.store.muted,
                ),
            )
        } else {
            let muted = spec_array_update(self.store.muted, i, !self.store.muted[i]);
            (
                Ripppple { store: (Storage { muted, ..self.store }), ..self },
                seq![Act::Save] + button_row(
                    root_hue(self.active),
                    self.store.dest,
                    self.held,
                    muted,
                ),
            )
        }
    }

    pub fn on_up(&mut self, chan: usize, shift: bool) -> (acts: Vec<Act>)
        requires
            old(self).wf(),
            chan < 4,
        ensures
            final(self).wf(),
            (*final(self), acts@) == old(self).released(chan, shift),
    {
        let ghost s0 = *self;
        if self.fader_moved[chan] || self.long[chan] {
            return Vec::new();
        }
        let color = ch0_color(self.active);
        if shift {
            if chan != 0 || !self.active {
                return Vec::new();
            }
            self.store.lfo_clocked = !self.store.lfo_clocked;
            let mut acts = one(Act::Save);
            if self.store.lfo_clocked {
                self.btn_flash[0] = BUTTON_FLASH_MS;
                assert(self.btn_flash =~= spec_array_update(s0.btn_flash, 0, BUTTON_FLASH_MS));
                acts.push(Act::Flash { chan: 0, led: Led::Button, color, times: 4 });
            }
            assert(acts@ =~= s0.released(chan, shift).1);
            return acts;
        }
        if chan == 0 {
            self.held = !self.held;
            return paint_buttons(color, &self.store.dest, self.held, &self.store.muted);
        }
        let i: usize = chan - 1;
        let muted = !self.store.muted[i];
        self.store.muted[i] = muted;
        assert(self.store.muted =~= spec_array_update(s0.store.muted, i as int, muted));
        let mut acts = one(Act::Save);
        let row = paint_buttons(color, &self.store.dest, self.held, &self.store.muted);
        push_all(&mut acts, row);
        acts
    }

    /// The stored settings have been replaced by those of a scene.
    pub fn on_scene(&mut self, store: Storage) -> (acts: Vec<Act>)
        requires
            old(self).wf(),
        ensures
            final(self).wf(),
            *final(self) == (Ripppple { store, ..*old(self) }),
            acts@ == button_row(root_hue(old(self).active), store.dest, old(self).held, store.muted),
    {
        self.store = store;
        paint_buttons(ch0_color(self.active), &self.store.dest, self.held, &self.store.muted)
    }
}

/// A second press of the first button undoes a freeze, and a second tap on a
/// stage undoes a mute.
pub proof fn taps_undo_themselves(s: Ripppple, chan: usize)
    requires
        chan < 4,
        !s.fader_moved[chan as int],
        !s.long[chan as int],
    ensures
        s.released(chan, false).0.released(chan, false).0 == s,
{
    let t = s.released(chan, false).0.released(chan, false).0;
    if chan > 0 {
        assert(t.store.muted =~= s.store.muted);
    }
}

/// A long press with shift never changes what a stage modulates, and one
/// without it never its range.
pub proof fn long_presses_are_separate(s: Ripppple, chan: usize, i: int)
    requires
        chan < 4,
        0 <= i < 3,
    ensures
        s.held_long(chan, true).0.store == s.store,
        s.held_long(chan, false).0.params.range(i) == s.params.range(i),
{
}

} // verus!
