//! What the apps see and drive: faders and buttons, LEDs, jacks, MIDI, and
//! the parameters that the host stores for them.

use vstd::prelude::*;

verus! {

/// Parameters that an app can have at most.
pub const APP_MAX_PARAMS: usize = 16;

#[derive(Clone, Copy, Debug, PartialEq, Eq, Structural)]
pub enum Led {
    Top,
    Bottom,
    Button,
}

#[derive(Clone, Copy, Debug, PartialEq, Eq, Structural)]
pub enum Color {
    White,
    Yellow,
    Orange,
    Red,
    Lime,
    Green,
    Cyan,
    SkyBlue,
    Blue,
    Violet,
    Pink,
    Rose,
    PaleGreen,
    Sand,
    Salmon,
    LightBlue,
    Custom(u8, u8, u8),
}

#[derive(Clone, Copy, Debug, PartialEq, Eq, Structural)]
pub enum Brightness {
    Off,
    Low,
    Mid,
    High,
    Custom(u8),
}

/// Voltage range of a jack.
#[derive(Clone, Copy, Debug, PartialEq, Eq, Structural)]
pub enum Range {
    V0To10,
    V0To5,
    VNeg5To5,
}

impl Range {
    pub open spec fn bipolar(self) -> bool {
        self == Range::VNeg5To5
    }

    pub fn is_bipolar(self) -> (r: bool)
        ensures
            r == self.bipolar(),
    {
        match self {
            Range::VNeg5To5 => true,
            _ => false,
        }
    }
}

#[derive(Clone, Copy, Debug, PartialEq, Eq, Structural)]
pub enum VoltPerOct {
    Standard,
    Buchla,
}

#[derive(Clone, Copy, Debug, PartialEq, Eq, Structural)]
pub enum MidiMode {
    Note,
    Cc,
}

/// MIDI outputs that take part: USB and the two serial ones.
#[derive(Clone, Copy, Debug, PartialEq, Eq, Structural)]
pub struct MidiOut {
    pub usb: bool,
    pub out1: bool,
    pub out2: bool,
}

impl MidiOut {
    pub open spec fn any(self) -> bool {
        self.usb || self.out1 || self.out2
    }

    pub fn is_some(self) -> (r: bool)
        ensures
            r == self.any(),
    {
        self.usb || self.out1 || self.out2
    }
}

/// MIDI inputs that are listened to.
#[derive(Clone, Copy, Debug, PartialEq, Eq, Structural)]
pub struct MidiIn {
    pub usb: bool,
    pub din: bool,
}

/// Function layer of a fader.
#[derive(Clone, Copy, Debug, PartialEq, Eq, Structural)]
pub enum LatchLayer {
    Main,
    Alt,
    Third,
}

pub open spec fn layer_of(shift: bool, button: bool) -> LatchLayer {
    if shift && !button {
        LatchLayer::Alt
    } else if !shift && button {
        LatchLayer::Third
    } else {
        LatchLayer::Main
    }
}

/// Shift alone selects the second layer, the channel's button the third.
pub fn layer_for(shift: bool, button: bool) -> (r: LatchLayer)
    ensures
        r == layer_of(shift, button),
{
    if shift && !button {
        LatchLayer::Alt
    } else if !shift && button {
        LatchLayer::Third
    } else {
        LatchLayer::Main
    }
}

/// Something an app does to the outside.
#[derive(Clone, Copy, Debug, PartialEq, Eq, Structural)]
pub enum Act {
    /// Light an LED.
    Light { chan: usize, led: Led, color: Color, bright: Brightness },
    /// Switch an LED off.
    Dark { chan: usize, led: Led },
    /// Flash an LED a number of times.
    Flash { chan: usize, led: Led, color: Color, times: usize },
    /// Flash an LED, then leave it lit.
    FlashThenStatic { chan: usize, led: Led, flash: Color, times: usize, color: Color, bright: Brightness },
    /// Show a level around mid-scale on the top and bottom LED, each at least
    /// as bright as its floor.
    Meter { chan: usize, color: Color, level: u16, top_floor: u8, bottom_floor: u8 },
    /// Show the part of a level below mid-scale on the bottom LED.
    MeterLow { chan: usize, color: Color, level: u16 },
    /// Light a button as bright as its signal.
    Signal { chan: usize, color: Color, level: u16, bipolar: bool },
    NoteOn { out: usize, note: u8, vel: u16 },
    NoteOff { out: usize, note: u8 },
    Cc { out: usize, cc: u16, val: u16 },
    /// Put a value on an analog output.
    Cv { jack: usize, val: u16 },
    /// Put the quantized pitch of an input value on an analog output.
    Pitch { jack: usize, counts: u16 },
    GateHigh { jack: usize },
    GateLow { jack: usize },
    /// Store the app's settings.
    Save,
    /// Start over with the changed parameters.
    Restart,
}

/// The one act.
pub fn one(a: Act) -> (r: Vec<Act>)
    ensures
        r@ == seq![a],
{
    let mut r: Vec<Act> = Vec::new();
    r.push(a);
    assert(r@ =~= seq![a]);
    r
}

pub fn push_all(dst: &mut Vec<Act>, src: Vec<Act>)
    ensures
        final(dst)@ == old(dst)@ + src@,
{
    let ghost d0 = dst@;
    let mut i: usize = 0;
    while i < src.len()
        invariant
            i <= src@.len(),
            dst@ == d0 + src@.subrange(0, i as int),
        decreases src@.len() - i,
    {
        dst.push(src[i]);
        i = i + 1;
        assert(dst@ =~= d0 + src@.subrange(0, i as int));
    }
    assert(src@.subrange(0, src@.len() as int) =~= src@);
}

/// Distance between two values.
pub open spec fn dist(a: int, b: int) -> int {
    if a >= b { a - b } else { b - a }
}

pub fn abs_diff(a: u16, b: u16) -> (r: u16)
    ensures
        r == dist(a as int, b as int),
{
    if a >= b {
        a - b
    } else {
        b - a
    }
}

pub open spec fn clamp_int(x: int, lo: int, hi: int) -> int {
    if x < lo { lo } else if x > hi { hi } else { x }
}

pub open spec fn min_int(a: int, b: int) -> int {
    if a <= b { a } else { b }
}

pub open spec fn max_int(a: int, b: int) -> int {
    if a >= b { a } else { b }
}

/// Quotient rounded toward zero, for a positive divisor.
pub open spec fn quot(a: int, b: int) -> int {
    if a >= 0 { a / b } else { -((-a) / b) }
}

/// Signed division toward zero by a positive divisor.
pub fn div_toward_zero(a: i32, b: i32) -> (r: i32)
    requires
        b > 0,
    ensures
        r == quot(a as int, b as int),
{
    let m: i64 = if a >= 0 { a as i64 } else { -(a as i64) };
    let q: u64 = m as u64 / b as u64;
    assert(q <= m) by (nonlinear_arith)
        requires
            q == m as u64 / b as u64,
            b > 0,
            m >= 0,
    ;
    if a >= 0 {
        q as i32
    } else {
        (-(q as i64)) as i32
    }
}

/// Value kept on the fader scale.
pub fn clamp_full(x: i32) -> (r: u16)
    ensures
        r == clamp_int(x as int, 0, 4095),
        r <= 4095,
{
    if x < 0 {
        0
    } else if x > 4095 {
        4095
    } else {
        x as u16
    }
}

/// A value shifted by a modulation around mid-scale.
pub open spec fn modulated(base: int, in_val: int) -> int {
    clamp_int(base + in_val - 2047, 0, 4095)
}

pub fn mod_u16(base: u16, in_val: u16) -> (r: u16)
    ensures
        r == modulated(base as int, in_val as int),
        r <= 4095,
{
    clamp_full(base as i32 + in_val as i32 - 2047)
}

/// A percentage as a fader value.
pub open spec fn pct_value(pct: int) -> int {
    clamp_int(pct, 0, 100) * 4095 / 100
}

pub fn att_from_pct(pct: i32) -> (r: u16)
    ensures
        r == pct_value(pct as int),
        r <= 4095,
{
    let p: u32 = if pct < 0 {
        0
    } else if pct > 100 {
        100
    } else {
        pct as u32
    };
    (p * 4095 / 100) as u16
}

/// A mirrored value goes out when its resolved step differs from the last.
pub fn mirror_due(last: &mut u16, resolved: u16) -> (r: bool)
    ensures
        r == (resolved != *old(last)),
        *final(last) == resolved,
{
    let due = resolved != *last;
    *last = resolved;
    due
}

// ---------------------------------------------------------------------------
// Stored parameters
// ---------------------------------------------------------------------------

/// A parameter value as the host stores it.
#[derive(Clone, Copy, Debug, PartialEq, Eq, Structural)]
pub enum Value {
    Enum(usize),
    I32(i32),
    Bool(bool),
    MidiNrpn(bool),
    Color(Color),
    Range(Range),
    MidiChannel(u8),
    MidiCc(u16),
    MidiNote(u8),
    MidiOut(MidiOut),
    MidiIn(MidiIn),
    MidiMode(MidiMode),
    VoltPerOct(VoltPerOct),
}

/// Kind of a stored value, as far as it is looked at.
#[derive(Clone, Copy, Debug, PartialEq, Eq, Structural)]
pub enum SlotKind {
    Enum,
    I32,
    MidiOut,
    Other,
}

/// What a stored value reads as, for each type it may be asked for.
#[derive(Clone, Copy, Debug, PartialEq, Eq, Structural)]
pub struct ParamSlot {
    pub kind: SlotKind,
    pub as_index: usize,
    pub as_int: i32,
    pub as_bool: bool,
    pub as_color: Color,
    pub as_range: Range,
    pub as_channel: u8,
    pub as_cc: u16,
    pub as_note: u8,
    pub as_midi_out: MidiOut,
    pub as_midi_in: MidiIn,
    pub as_midi_mode: MidiMode,
    pub as_vpo: VoltPerOct,
}

/// The slot reads back what the value says.
pub open spec fn reads(slot: ParamSlot, v: Value) -> bool {
    match v {
        Value::Enum(i) => slot.kind == SlotKind::Enum && slot.as_index == i,
        Value::I32(i) => slot.kind == SlotKind::I32 && slot.as_int == i,
        Value::Bool(b) => slot.kind == SlotKind::Other && slot.as_bool == b,
        Value::MidiNrpn(b) => slot.kind == SlotKind::Other && slot.as_bool == b,
        Value::Color(c) => slot.kind == SlotKind::Other && slot.as_color == c,
        Value::Range(r) => slot.kind == SlotKind::Other && slot.as_range == r,
        Value::MidiChannel(c) => slot.kind == SlotKind::Other && slot.as_channel == c,
        Value::MidiCc(c) => slot.kind == SlotKind::Other && slot.as_cc == c,
        Value::MidiNote(n) => slot.kind == SlotKind::Other && slot.as_note == n,
        Value::MidiOut(o) => slot.kind == SlotKind::MidiOut && slot.as_midi_out == o,
        Value::MidiIn(i) => slot.kind == SlotKind::Other && slot.as_midi_in == i,
        Value::MidiMode(m) => slot.kind == SlotKind::Other && slot.as_midi_mode == m,
        Value::VoltPerOct(v) => slot.kind == SlotKind::Other && slot.as_vpo == v,
    }
}

/// The slots read back a list of values.
pub open spec fn reads_all(slots: Seq<ParamSlot>, values: Seq<Value>) -> bool {
    &&& slots.len() == values.len()
    &&& forall|i: int| 0 <= i < values.len() ==> reads(#[trigger] slots[i], values[i])
}

} // verus!
