//! Clock-synced sidechain ducking envelope.
//!
//! On every clock division, tap or trigger the level ducks and then recovers.
//! The fader sets the recovery time, with shift the depth, with the button the
//! division. The button shows the division as a metronome.

use crate::bounded::{param_values, values_of};
use crate::panel::{
    abs_diff, att_from_pct, clamp_int, dist, layer_for, layer_of, min_int, mod_u16, modulated, one,
    pct_value, reads, reads_all, Act, Brightness, Color, LatchLayer, Led, MidiOut, ParamSlot, Range,
    Value,
};
use vstd::prelude::*;

verus! {

pub const CHANNELS: usize = 1;
pub const PARAMS: usize = 9;

/// Tick spacing of the divisions at 24 PPQN, slow to fast.
pub const DIVISION_TICKS: [u32; 10] = [96, 48, 36, 24, 18, 16, 12, 8, 6, 3];
/// Length of the fade that answers an inversion.
pub const INVERT_FADE_MS: u16 = 500;
/// Longest duck of the button, the length of the metronome's flash.
pub const BUTTON_DUCK_MS: u16 = 25;
pub const BUTTON_DUCK_MIN_MS: u16 = 4;
/// Time for which a flash has the button to itself.
pub const BUTTON_FLASH_MS: u16 = 850;
/// Fader noise to ignore while the button is held.
pub const FADER_MOVE_THRESH: u16 = 64;

pub const JACK_OUT: usize = 0;
pub const JACK_IN: usize = 1;

pub const DEST_DEPTH: usize = 0;
pub const DEST_RELEASE: usize = 1;
pub const DEST_DUCK: usize = 2;
pub const DEST_COUNT: usize = 3;

/// Rising edges pass this level.
pub const TRIG_HIGH: u16 = 2458;

/// Slot number that no slot has.
pub const NO_SLOT: u8 = 255;

// ---------------------------------------------------------------------------
// Parameters and settings
// ---------------------------------------------------------------------------

#[derive(Clone, Copy, Debug, PartialEq, Eq, Structural)]
pub struct Params {
    pub color: Color,
    pub range: Range,
    pub midi_channel: u8,
    pub midi_cc: u16,
    pub nrpn: bool,
    pub midi_out: MidiOut,
    pub jack_mode: usize,
    pub dest: usize,
    pub cv_att: i32,
}

impl Params {
    pub open spec fn valid(self) -> bool {
        self.jack_mode <= 1 && self.dest < DEST_COUNT && 0 <= self.cv_att <= 100
    }

    pub open spec fn values(self) -> Seq<Value> {
        seq![
            Value::Color(self.color),
            Value::Range(self.range),
            Value::MidiChannel(self.midi_channel),
            Value::MidiCc(self.midi_cc),
            Value::MidiNrpn(self.nrpn),
            Value::MidiOut(self.midi_out),
            Value::Enum(self.jack_mode),
            Value::Enum(self.dest),
            Value::I32(self.cv_att),
        ]
    }

    /// Parameters in a list of slots. A list of seven or eight begins with a
    /// division that is no parameter any more; a list of fewer than nine has no
    /// jack settings yet.
    pub open spec fn from_slots(s: Seq<ParamSlot>) -> Option<Params> {
        if s.len() < 6 {
            None
        } else {
            let full = s.len() >= 9;
            let at = if s.len() == 7 || s.len() == 8 { 1int } else { 0 };
            Some(
                Params {
                    color: s[at].as_color,
                    range: s[at + 1].as_range,
                    midi_channel: s[at + 2].as_channel,
                    midi_cc: s[at + 3].as_cc,
                    nrpn: s[at + 4].as_bool,
                    midi_out: s[at + 5].as_midi_out,
                    jack_mode: if full { min_int(s[6].as_index as int, 1) as usize } else {
                        JACK_OUT
                    },
                    dest: if full { min_int(s[7].as_index as int, 2) as usize } else {
                        DEST_DEPTH
                    },
                    cv_att: if full { clamp_int(s[8].as_int as int, 0, 100) as i32 } else { 100 },
                },
            )
        }
    }

    pub fn from_values(values: &[ParamSlot]) -> (r: Option<Params>)
        ensures
            r == Params::from_slots(values@),
            r matches Some(p) ==> p.valid(),
    {
        let n: usize = values.len();
        if n < 6 {
            return None;
        }
        let at: usize = if n == 7 || n == 8 { 1 } else { 0 };
        let mut jack_mode: usize = JACK_OUT;
        let mut dest: usize = DEST_DEPTH;
        let mut cv_att: i32 = 100;
        if n >= 9 {
            let j: usize = values[6].as_index;
            jack_mode = if j < 1 { j } else { 1 };
            let d: usize = values[7].as_index;
            dest = if d < 2 { d } else { 2 };
            let a: i32 = values[8].as_int;
            cv_att = if a < 0 {
                0
            } else if a > 100 {
                100
            } else {
                a
            };
        }
        Some(
            Params {
                color: values[at].as_color,
                range: values[at + 1].as_range,
                midi_channel: values[at + 2].as_channel,
                midi_cc: values[at + 3].as_cc,
                nrpn: values[at + 4].as_bool,
                midi_out: values[at + 5].as_midi_out,
                jack_mode,
                dest,
                cv_att,
            },
        )
    }

    pub fn to_values(&self) -> (v: heapless::Vec<Value, 16>)
        ensures
            param_values(v) == self.values(),
    {
        let items: [Value; 9] = [
            Value::Color(self.color),
            Value::Range(self.range),
            Value::MidiChannel(self.midi_channel),
            Value::MidiCc(self.midi_cc),
            Value::MidiNrpn(self.nrpn),
            Value::MidiOut(self.midi_out),
            Value::Enum(self.jack_mode),
            Value::Enum(self.dest),
            Value::I32(self.cv_att),
        ];
        assert(items@ =~= self.values());
        values_of(&items)
    }
}

/// Stored parameters read back as they were.
pub proof fn params_round_trip(p: Params, slots: Seq<ParamSlot>)
    requires
        p.valid(),
        reads_all(slots, p.values()),
    ensures
        Params::from_slots(slots) == Some(p),
{
    assert forall|i: int| 0 <= i < 9 implies reads(#[trigger] slots[i], p.values()[i]) by {}
    let (s0, s1, s2, s3, s4) = (slots[0], slots[1], slots[2], slots[3], slots[4]);
    let (s5, s6, s7, s8) = (slots[5], slots[6], slots[7], slots[8]);
}

#[derive(Clone, Copy, Debug, PartialEq, Eq, Structural)]
pub struct Storage {
    pub release: u16,
    pub depth: u16,
    pub invert: bool,
    pub muted: bool,
    /// Division index; 1/1 (0) to begin with.
    pub division: usize,
    pub dest: usize,
    pub in_att: u16,
}

/// 1/1, which has the user's colour.
pub fn default_division() -> (r: usize)
    ensures
        r == 0,
{
    0
}

pub fn default_in_att() -> (r: u16)
    ensures
        r == 4095,
{
    4095
}

impl Default for Storage {
    fn default() -> (r: Self)
        ensures
            r == (Storage {
                release: 2000,
                depth: 2800,
                invert: false,
                muted: false,
                division: 0,
                dest: DEST_DEPTH,
                in_att: 4095,
            }),
    {
        Storage {
            release: 2000,
            depth: 2800,
            invert: false,
            muted: false,
            division: default_division(),
            dest: DEST_DEPTH,
            in_att: default_in_att(),
        }
    }
}

// ---------------------------------------------------------------------------
// Levels, colours and divisions
// ---------------------------------------------------------------------------

/// Level at rest.
pub open spec fn idle(invert: bool) -> int {
    if invert { 0 } else { 4095 }
}

pub fn idle_level(invert: bool) -> (r: u16)
    ensures
        r == idle(invert),
{
    if invert {
        0
    } else {
        4095
    }
}

/// Level that a duck of some depth starts from.
pub open spec fn ducked(invert: bool, depth: int) -> int {
    if invert {
        depth
    } else if depth >= 4095 {
        0
    } else {
        4095 - depth
    }
}

pub open spec fn dest_hue(dest: int) -> Color {
    if dest == 0 {
        Color::Red
    } else if dest == 2 {
        Color::Cyan
    } else {
        Color::Yellow
    }
}

pub fn dest_color(dest: usize) -> (c: Color)
    ensures
        c == dest_hue(dest as int),
{
    match dest {
        0 => Color::Red,
        1 => Color::Yellow,
        2 => Color::Cyan,
        _ => Color::Yellow,
    }
}

/// Base palette of the divisions.
pub open spec fn palette(i: int) -> Color {
    if i == 0 {
        Color::White
    } else if i == 1 {
        Color::Yellow
    } else if i == 2 {
        Color::Orange
    } else if i == 3 {
        Color::Red
    } else if i == 4 {
        Color::Lime
    } else if i == 5 {
        Color::Green
    } else if i == 6 {
        Color::Cyan
    } else if i == 7 {
        Color::SkyBlue
    } else if i == 8 {
        Color::Blue
    } else {
        Color::Violet
    }
}

fn palette_color(i: usize) -> (c: Color)
    ensures
        c == palette(i as int),
{
    match i {
        0 => Color::White,
        1 => Color::Yellow,
        2 => Color::Orange,
        3 => Color::Red,
        4 => Color::Lime,
        5 => Color::Green,
        6 => Color::Cyan,
        7 => Color::SkyBlue,
        8 => Color::Blue,
        _ => Color::Violet,
    }
}

/// Place of a colour in the palette.
pub open spec fn palette_pos(c: Color) -> Option<int> {
    match c {
        Color::White => Some(0),
        Color::Yellow => Some(1),
        Color::Orange => Some(2),
        Color::Red => Some(3),
        Color::Lime => Some(4),
        Color::Green => Some(5),
        Color::Cyan => Some(6),
        Color::SkyBlue => Some(7),
        Color::Blue => Some(8),
        Color::Violet => Some(9),
        _ => None,
    }
}

/// The palette rotated so that the user's colour lands on 1/1; a colour from
/// outside the palette replaces White.
pub open spec fn division_hue(user: Color, division: int) -> Color {
    let div = min_int(division, 9);
    match palette_pos(user) {
        Some(offset) => palette((offset + div) % 10),
        None => if div == 0 { user } else { palette(div) },
    }
}

pub fn color_for_division(user: Color, division: usize) -> (c: Color)
    ensures
        c == division_hue(user, division as int),
{
    let div: usize = if division < 9 { division } else { 9 };
    let mut i: usize = 0;
    while i < 10
        invariant
            i <= 10,
            div <= 9,
            div == min_int(division as int, 9),
            forall|k: int| 0 <= k < i ==> user != palette(k),
        decreases 10 - i,
    {
        if palette_color(i) == user {
            return palette_color((i + div) % 10);
        }
        i = i + 1;
    }
    assert(palette_pos(user) is None) by {
        if let Some(k) = palette_pos(user) {
            assert(user == palette(k));
        }
    }
    if div == 0 {
        user
    } else {
        palette_color(div)
    }
}

/// Division 1/1 always has the user's colour.
pub proof fn whole_has_user_color(user: Color)
    ensures
        division_hue(user, 0) == user,
{
}

/// Two divisions never share a colour, where the user's colour is one of the
/// palette.
pub proof fn divisions_differ_in_color(user: Color, a: int, b: int)
    requires
        palette_pos(user) is Some,
        0 <= a < b < 10,
    ensures
        division_hue(user, a) != division_hue(user, b),
{
    let k = palette_pos(user)->0;
    assert((k + a) % 10 != (k + b) % 10);
}

pub open spec fn division_of(v: int) -> int {
    min_int(v * 10 / 4096, 9)
}

pub fn fader_to_division(v: u16) -> (r: usize)
    ensures
        r == division_of(v as int),
{
    let d: u32 = v as u32 * 10 / 4096;
    if d < 9 {
        d as usize
    } else {
        9
    }
}

pub open spec fn fader_of_division(d: int) -> int {
    min_int(d, 9) * 4095 / 9
}

pub fn division_to_fader(d: usize) -> (r: u16)
    ensures
        r == fader_of_division(d as int),
        r <= 4095,
{
    let d: u32 = if d < 9 { d as u32 } else { 9 };
    (d * 4095 / 9) as u16
}

/// The fader position of a division selects that division.
pub proof fn division_round_trip(d: int)
    requires
        0 <= d < 10,
    ensures
        division_of(fader_of_division(d)) == d,
{
}

pub open spec fn ticks_of(division: int) -> int {
    DIVISION_TICKS[min_int(division, 9)] as int
}

fn division_ticks(division: usize) -> (r: u32)
    ensures
        r == ticks_of(division as int),
        3 <= r <= 96,
{
    let d: usize = if division < 9 { division } else { 9 };
    DIVISION_TICKS[d]
}

/// The low half of the tick counter.
pub open spec fn low_ticks(tick: u64) -> int {
    tick as int % 0x1_0000_0000
}

/// Quarter of the division that a tick lies in.
pub open spec fn slot_of(tick: u64, division: int) -> int {
    low_ticks(tick) % ticks_of(division) * 4 / ticks_of(division)
}

fn button_slot(tick: u64, division: usize) -> (r: u8)
    ensures
        r == slot_of(tick, division as int),
        r < 4,
{
    let n: u32 = division_ticks(division);
    let phase: u32 = (tick % 0x1_0000_0000) as u32 % n;
    let slot: u32 = phase * 4 / n;
    assert(slot < 4) by (nonlinear_arith)
        requires
            slot == phase * 4 / (n as int),
            phase < n,
            n > 0,
    ;
    slot as u8
}

// ---------------------------------------------------------------------------
// The running app
// ---------------------------------------------------------------------------

/// The metronome on the button.
#[derive(Clone, Copy, Debug, PartialEq, Eq, Structural)]
pub struct Metronome {
    pub duck_left: u16,
    pub last_slot: u8,
    pub ms_in_slot: u16,
    pub last_division: Option<usize>,
}

impl Metronome {
    pub open spec fn idle() -> Metronome {
        Metronome { duck_left: 0, last_slot: NO_SLOT, ms_in_slot: 0, last_division: None }
    }

    /// Duck at the end of a slot: half of what the slot took, none if that is
    /// too short to see.
    pub open spec fn duck_after(ms_in_slot: int) -> int {
        let duck = min_int(ms_in_slot / 2, BUTTON_DUCK_MS as int);
        if duck >= BUTTON_DUCK_MIN_MS { duck } else { 0 }
    }

    /// Metronome in the next millisecond, and whether the button is ducked.
    pub open spec fn stepped(self, division: usize, slot: u8) -> (Metronome, bool) {
        let m = if self.last_division != Some(division) {
            Metronome {
                last_division: Some(division),
                last_slot: NO_SLOT,
                duck_left: 0,
                ms_in_slot: 0,
            }
        } else {
            self
        };
        let left = if slot != m.last_slot && m.last_slot != NO_SLOT {
            Metronome::duck_after(m.ms_in_slot as int)
        } else {
            m.duck_left as int
        };
        let ms = if slot != m.last_slot { 0 } else { m.ms_in_slot as int };
        (
            Metronome {
                duck_left: (if left > 0 { left - 1 } else { 0 }) as u16,
                last_slot: slot,
                ms_in_slot: min_int(ms + 1, 65535) as u16,
                last_division: m.last_division,
            },
            left > 0,
        )
    }

    pub fn step(&mut self, division: usize, slot: u8) -> (ducked: bool)
        ensures
            (*final(self), ducked) == old(self).stepped(division, slot),
    {
        let same = match self.last_division {
            Some(d) => d == division,
            None => false,
        };
        if !same {
            self.last_division = Some(division);
            self.last_slot = NO_SLOT;
            self.duck_left = 0;
            self.ms_in_slot = 0;
        }
        if slot != self.last_slot {
            if self.last_slot != NO_SLOT {
                let half: u16 = self.ms_in_slot / 2;
                let duck: u16 = if half < BUTTON_DUCK_MS { half } else { BUTTON_DUCK_MS };
                self.duck_left = if duck >= BUTTON_DUCK_MIN_MS { duck } else { 0 };
            }
            self.last_slot = slot;
            self.ms_in_slot = 0;
        }
        self.ms_in_slot = self.ms_in_slot.saturating_add(1);
        if self.duck_left > 0 {
            self.duck_left = self.duck_left - 1;
            true
        } else {
            false
        }
    }
}

/// The button is lit at least half of a slot that lasts as long as the one
/// before.
pub proof fn ducks_leave_half_a_slot(ms: int)
    requires
        0 <= ms,
    ensures
        2 * Metronome::duck_after(ms) <= ms,
        Metronome::duck_after(ms) <= BUTTON_DUCK_MS,
{
}

/// State of the app between events.
#[derive(Clone, Copy, Debug, PartialEq, Eq, Structural)]
pub struct HeatPump {
    pub color: Color,
    pub jack_mode: usize,
    pub midi_cc: u16,
    pub midi_on: bool,
    pub store: Storage,
    /// Division and destination in use; those stored may lie out of range.
    pub division: usize,
    pub dest: usize,
    pub layer: LatchLayer,
    /// A duck is due.
    pub trigger: bool,
    pub prev_gate_high: bool,
    pub last_midi: Option<u16>,
    pub metronome: Metronome,
    pub long_press_fired: bool,
    pub fader_at_down: u16,
    pub fader_moved: bool,
    /// What is left of the fade after an inversion.
    pub invert_fade: u16,
    /// The fade goes from dark to white.
    pub invert_fade_up: bool,
    pub btn_flash: u16,
}

impl HeatPump {
    pub open spec fn wf(self) -> bool {
        &&& self.division < 10
        &&& self.dest < DEST_COUNT
        &&& self.invert_fade <= INVERT_FADE_MS
    }

    /// Start with the configured destination and attenuation.
    pub fn new(params: Params, stored: Storage) -> (r: Self)
        requires
            params.valid(),
        ensures
            r.wf(),
            r == (HeatPump {
                color: params.color,
                jack_mode: params.jack_mode,
                midi_cc: params.midi_cc,
                midi_on: params.midi_out.any(),
                store: (Storage {
                    dest: params.dest,
                    in_att: pct_value(params.cv_att as int) as u16,
                    ..stored
                }),
                division: min_int(stored.division as int, 9) as usize,
                dest: params.dest,
                layer: LatchLayer::Main,
                trigger: false,
                prev_gate_high: false,
                last_midi: None,
                metronome: Metronome::idle(),
                long_press_fired: false,
                fader_at_down: 0,
                fader_moved: false,
                invert_fade: 0,
                invert_fade_up: false,
                btn_flash: 0,
            }),
    {
        let in_att: u16 = att_from_pct(params.cv_att);
        HeatPump {
            color: params.color,
            jack_mode: params.jack_mode,
            midi_cc: params.midi_cc,
            midi_on: params.midi_out.is_some(),
            store: Storage { dest: params.dest, in_att, ..stored },
            division: if stored.division < 9 { stored.division } else { 9 },
            dest: params.dest,
            layer: LatchLayer::Main,
            trigger: false,
            prev_gate_high: false,
            last_midi: None,
            metronome: Metronome {
                duck_left: 0,
                last_slot: NO_SLOT,
                ms_in_slot: 0,
                last_division: None,
            },
            long_press_fired: false,
            fader_at_down: 0,
            fader_moved: false,
            invert_fade: 0,
            invert_fade_up: false,
            btn_flash: 0,
        }
    }

    /// A clock tick ducks on every division.
    pub fn on_tick(&mut self, tick: u64)
        ensures
            *final(self) == (HeatPump {
                trigger: old(self).trigger || low_ticks(tick) % ticks_of(old(self).division as int)
                    == 0,
                ..*old(self)
            }),
    {
        let n: u32 = division_ticks(self.division);
        if (tick % 0x1_0000_0000) as u32 % n == 0 {
            self.trigger = true;
        }
    }

    /// What the CV input does, by its destination: depth, release and the edge
    /// state.
    pub open spec fn cv_effect(self, in_val: u16) -> (int, int, bool) {
        (
            if self.dest == DEST_DEPTH {
                modulated(self.store.depth as int, in_val as int)
            } else {
                self.store.depth as int
            },
            if self.dest == DEST_RELEASE {
                modulated(self.store.release as int, in_val as int)
            } else {
                self.store.release as int
            },
            self.dest == DEST_DUCK && in_val >= TRIG_HIGH,
        )
    }

    /// One millisecond of the envelope's input. `in_val` is the attenuated CV,
    /// where the jack is an input. Returns the level that a due duck starts
    /// from, and the release on the curve's scale: a higher fader recovers
    /// faster.
    pub fn on_input(&mut self, in_val: Option<u16>) -> (r: (Option<u16>, u16))
        requires
            old(self).wf(),
        ensures
            final(self).wf(),
            ({
                let (depth, release, high) = match in_val {
                    Some(v) => old(self).cv_effect(v),
                    None => (
                        old(self).store.depth as int,
                        old(self).store.release as int,
                        old(self).prev_gate_high,
                    ),
                };
                let due = old(self).trigger || (in_val is Some && high && !old(self).prev_gate_high);
                &&& *final(self) == (HeatPump {
                    trigger: false,
                    prev_gate_high: high,
                    ..*old(self)
                })
                &&& r.0 == if due {
                    Some(ducked(old(self).store.invert, depth) as u16)
                } else {
                    None
                }
                &&& r.1 == if release >= 4095 { 0 } else { 4095 - release }
            }),
    {
        let mut depth: u16 = self.store.depth;
        let mut release: u16 = self.store.release;
        match in_val {
            Some(v) => {
                let mut high = false;
                if self.dest == DEST_DEPTH {
                    depth = mod_u16(depth, v);
                } else if self.dest == DEST_RELEASE {
                    release = mod_u16(release, v);
                } else {
                    high = v >= TRIG_HIGH;
                    if high && !self.prev_gate_high {
                        self.trigger = true;
                    }
                }
                self.prev_gate_high = high;
            },
            None => {},
        }
        let duck: Option<u16> = if self.trigger {
            self.trigger = false;
            Some(
                if self.store.invert {
                    depth
                } else {
                    4095u16.saturating_sub(depth)
                },
            )
        } else {
            None
        };
        (duck, 4095u16.saturating_sub(release))
    }

    /// Level that goes out: a mute bypasses the pump and holds it at rest.
    pub open spec fn out_level(self, level: int) -> int {
        if self.store.muted { idle(self.store.invert) } else { level }
    }

    pub fn effective_out(&self, level: u16) -> (r: u16)
        ensures
            r == self.out_level(level as int),
    {
        if self.store.muted {
            idle_level(self.store.invert)
        } else {
            level
        }
    }

    /// Put the level out. `gate_val` is the effective level as the MIDI side
    /// resolves it; a message goes out only where that changes.
    pub fn on_output(&mut self, level: u16, gate_val: u16) -> (acts: Vec<Act>)
        requires
            old(self).wf(),
        ensures
            final(self).wf(),
            ({
                let out = old(self).out_level(level as int) as u16;
                let sends = old(self).midi_on && old(self).last_midi != Some(gate_val);
                &&& *final(self) == (HeatPump {
                    last_midi: if sends { Some(gate_val) } else { old(self).last_midi },
                    ..*old(self)
                })
                &&& acts@ == (if old(self).jack_mode == JACK_OUT {
                    seq![Act::Cv { jack: 0, val: out }]
                } else {
                    Seq::empty()
                }) + (if sends {
                    seq![Act::Cc { out: 0, cc: old(self).midi_cc, val: out }]
                } else {
                    Seq::empty()
                })
            }),
    {
        let ghost s0 = *self;
        let out: u16 = self.effective_out(level);
        let mut acts: Vec<Act> = Vec::new();
        if self.jack_mode == JACK_OUT {
            acts.push(Act::Cv { jack: 0, val: out });
        }
        if self.midi_on {
            let same = match self.last_midi {
                Some(v) => v == gate_val,
                None => false,
            };
            if !same {
                acts.push(Act::Cc { out: 0, cc: self.midi_cc, val: out });
                self.last_midi = Some(gate_val);
            }
        }
        assert(acts@ =~= (if s0.jack_mode == JACK_OUT {
            seq![Act::Cv { jack: 0, val: out }]
        } else {
            Seq::empty()
        }) + (if s0.midi_on && s0.last_midi != Some(gate_val) {
            seq![Act::Cc { out: 0, cc: s0.midi_cc, val: out }]
        } else {
            Seq::empty()
        }));
        acts
    }

    /// Brightness of the fade that answers an inversion.
    pub open spec fn fade_level(self) -> int {
        if self.invert_fade_up {
            (500 - self.invert_fade) * 255 / 500
        } else {
            self.invert_fade * 255 / 500
        }
    }

    /// The button in one millisecond: the fade, else a flash, else the
    /// metronome.
    pub open spec fn button_frame(self, layer: LatchLayer, tick: u64) -> (Metronome, Seq<Act>) {
        if self.invert_fade > 0 {
            (
                self.metronome,
                seq![
                    Act::Light {
                        chan: 0,
                        led: Led::Button,
                        color: Color::White,
                        bright: Brightness::Custom(self.fade_level() as u8),
                    },
                ],
            )
        } else if self.btn_flash > 0 {
            (self.metronome, Seq::empty())
        } else if self.store.muted {
            (
                Metronome {
                    duck_left: 0,
                    last_slot: NO_SLOT,
                    ms_in_slot: 0,
                    ..self.metronome
                },
                seq![Act::Dark { chan: 0, led: Led::Button }],
            )
        } else if layer == LatchLayer::Alt && self.jack_mode == JACK_IN {
            (
                self.metronome,
                seq![
                    Act::Light {
                        chan: 0,
                        led: Led::Button,
                        color: dest_hue(self.dest as int),
                        bright: Brightness::Mid,
                    },
                ],
            )
        } else {
            let (m, low) = self.metronome.stepped(
                self.division,
                slot_of(tick, self.division as int) as u8,
            );
            (
                m,
                seq![
                    Act::Light {
                        chan: 0,
                        led: Led::Button,
                        color: division_hue(self.color, self.division as int),
                        bright: if low { Brightness::Low } else { Brightness::Mid },
                    },
                ],
            )
        }
    }

    /// The top LED: level, depth or division, by the layer.
    pub open spec fn top_light(self, layer: LatchLayer, level: int) -> Act {
        match layer {
            LatchLayer::Main => Act::Light {
                chan: 0,
                led: Led::Top,
                color: self.color,
                bright: Brightness::Custom((level / 16 % 256) as u8),
            },
            LatchLayer::Alt => Act::Light {
                chan: 0,
                led: Led::Top,
                color: Color::Red,
                bright: Brightness::Custom((self.store.depth as int / 16 % 256) as u8),
            },
            LatchLayer::Third => Act::Light {
                chan: 0,
                led: Led::Top,
                color: division_hue(self.color, self.division as int),
                bright: Brightness::Mid,
            },
        }
    }

    fn paint_button(&mut self, layer: LatchLayer, tick: u64) -> (acts: Vec<Act>)
        requires
            old(self).wf(),
        ensures
            (final(self).metronome, acts@) == old(self).button_frame(layer, tick),
            *final(self) == (HeatPump { metronome: final(self).metronome, ..*old(self) }),
    {
        if self.invert_fade > 0 {
            let part: u32 = if self.invert_fade_up {
                500 - self.invert_fade as u32
            } else {
                self.invert_fade as u32
            };
            let bright: u8 = (part * 255 / 500) as u8;
            one(
                Act::Light {
                    chan: 0,
                    led: Led::Button,
                    color: Color::White,
                    bright: Brightness::Custom(bright),
                },
            )
        } else if self.btn_flash > 0 {
            Vec::new()
        } else if self.store.muted {
            self.metronome.duck_left = 0;
            self.metronome.last_slot = NO_SLOT;
            self.metronome.ms_in_slot = 0;
            one(Act::Dark { chan: 0, led: Led::Button })
        } else if layer == LatchLayer::Alt && self.jack_mode == JACK_IN {
            one(
                Act::Light {
                    chan: 0,
                    led: Led::Button,
                    color: dest_color(self.dest),
                    bright: Brightness::Mid,
                },
            )
        } else {
            let slot: u8 = button_slot(tick, self.division);
            let low = self.metronome.step(self.division, slot);
            one(
                Act::Light {
                    chan: 0,
                    led: Led::Button,
                    color: color_for_division(self.color, self.division),
                    bright: if low {
                        Brightness::Low
                    } else {
                        Brightness::Mid
                    },
                },
            )
        }
    }

    /// One millisecond of the panel. `level` is the envelope's level.
    pub fn on_frame(&mut self, shift: bool, button: bool, level: u16, tick: u64) -> (acts: Vec<Act>)
        requires
            old(self).wf(),
        ensures
            final(self).wf(),
            ({
                let layer = layer_of(shift, button);
                let (metronome, lights) = old(self).button_frame(layer, tick);
                &&& acts@ == lights + seq![
                    old(self).top_light(layer, level as int),
                    Act::Dark { chan: 0, led: Led::Bottom },
                ]
                &&& *final(self) == (HeatPump {
                    layer,
                    metronome,
                    invert_fade: (if old(self).invert_fade > 0 {
                        old(self).invert_fade - 1
                    } else {
                        0
                    }) as u16,
                    btn_flash: (if old(self).btn_flash > 0 { old(self).btn_flash - 1 } else { 0 }) as u16,
                    ..*old(self)
                })
            }),
    {
        let ghost s0 = *self;
        let layer = layer_for(shift, button);
        let mut acts = self.paint_button(layer, tick);
        let ghost lights = acts@;
        self.layer = layer;
        if self.btn_flash > 0 {
            self.btn_flash = self.btn_flash - 1;
        }
        if self.invert_fade > 0 {
            self.invert_fade = self.invert_fade - 1;
        }
        let (color, bright) = match layer {
            LatchLayer::Main => (self.color, Brightness::Custom((level / 16 % 256) as u8)),
            LatchLayer::Alt => (Color::Red, Brightness::Custom((self.store.depth / 16 % 256) as u8)),
            LatchLayer::Third => (color_for_division(self.color, self.division), Brightness::Mid),
        };
        acts.push(Act::Light { chan: 0, led: Led::Top, color, bright });
        acts.push(Act::Dark { chan: 0, led: Led::Bottom });
        assert(acts@ =~= lights + seq![
            s0.top_light(layer, level as int),
            Act::Dark { chan: 0, led: Led::Bottom },
        ]);
        acts
    }

    /// Value that the fader has to pass before it takes over.
    pub fn fader_target(&self) -> (r: u16)
        ensures
            r == match self.layer {
                LatchLayer::Main => self.store.release as int,
                LatchLayer::Alt => self.store.depth as int,
                LatchLayer::Third => fader_of_division(self.division as int),
            },
    {
        match self.layer {
            LatchLayer::Main => self.store.release,
            LatchLayer::Alt => self.store.depth,
            LatchLayer::Third => division_to_fader(self.division),
        }
    }

    /// The fader has moved to `value`; `taken` is the value where the fader has
    /// taken over its layer. A move past the noise with the button held is a
    /// scrub: neither a mute nor a tap.
    pub fn on_fader(&mut self, value: u16, shift: bool, button: bool, taken: Option<u16>) -> (acts:
        Vec<Act>)
        requires
            old(self).wf(),
        ensures
            final(self).wf(),
            acts@ == if taken is Some { seq![Act::Save] } else { Seq::<Act>::empty() },
            ({
                let scrub = button && !shift && dist(
                    value as int,
                    old(self).fader_at_down as int,
                ) > FADER_MOVE_THRESH;
                let s = HeatPump { fader_moved: old(self).fader_moved || scrub, ..*old(self) };
                *final(self) == match taken {
                    None => s,
                    Some(v) => match old(self).layer {
                        LatchLayer::Main => HeatPump {
                            store: (Storage { release: v, ..s.store }),
                            ..s
                        },
                        LatchLayer::Alt => HeatPump {
                            store: (Storage { depth: v, ..s.store }),
                            ..s
                        },
                        LatchLayer::Third => HeatPump {
                            division: division_of(v as int) as usize,
                            store: (Storage {
                                division: division_of(v as int) as usize,
                                ..s.store
                            }),
                            fader_moved: true,
                            ..s
                        },
                    },
                }
            }),
    {
        if button && !shift && abs_diff(value, self.fader_at_down) > FADER_MOVE_THRESH {
            self.fader_moved = true;
        }
        match taken {
            None => Vec::new(),
            Some(v) => {
                match self.layer {
                    LatchLayer::Main => {
                        self.store.release = v;
                    },
                    LatchLayer::Alt => {
                        self.store.depth = v;
                    },
                    LatchLayer::Third => {
                        let next: usize = fader_to_division(v);
                        self.division = next;
                        self.store.division = next;
                        self.fader_moved = true;
                    },
                }
                one(Act::Save)
            },
        }
    }

    /// The button goes down.
    pub fn on_press(&mut self, shift: bool, fader: u16)
        ensures
            *final(self) == (HeatPump {
                long_press_fired: false,
                fader_moved: old(self).fader_moved && shift,
                fader_at_down: if shift { old(self).fader_at_down } else { fader },
                ..*old(self)
            }),
    {
        self.long_press_fired = false;
        if !shift {
            self.fader_moved = false;
            self.fader_at_down = fader;
        }
    }

    /// The button goes up after a press that began with or without shift: a
    /// short one with shift cycles the destination or the division, one
    /// without ducks.
    pub fn on_release(&mut self, shift: bool) -> (acts: Vec<Act>)
        requires
            old(self).wf(),
            old(self).store.dest < usize::MAX,
        ensures
            final(self).wf(),
            ({
                let dest = ((old(self).store.dest + 1) % 3) as usize;
                let division = ((old(self).division + 1) % 10) as usize;
                if old(self).long_press_fired {
                    *final(self) == *old(self) && acts@ == Seq::<Act>::empty()
                } else if shift && old(self).jack_mode == JACK_IN {
                    &&& acts@ == seq![
                        Act::Save,
                        Act::Flash {
                            chan: 0,
                            led: Led::Button,
                            color: dest_hue(dest as int),
                            times: 3,
                        },
                    ]
                    &&& *final(self) == (HeatPump {
                        store: (Storage { dest, ..old(self).store }),
                        dest,
                        btn_flash: BUTTON_FLASH_MS,
                        ..*old(self)
                    })
                } else if shift {
                    &&& acts@ == seq![Act::Save]
                    &&& *final(self) == (HeatPump {
                        store: (Storage { division, ..old(self).store }),
                        division,
                        ..*old(self)
                    })
                } else {
                    &&& acts@ == Seq::<Act>::empty()
                    &&& *final(self) == (HeatPump {
                        trigger: old(self).trigger || !old(self).fader_moved,
                        ..*old(self)
                    })
                }
            }),
    {
        if self.long_press_fired {
            return Vec::new();
        }
        if shift && self.jack_mode == JACK_IN {
            let dest: usize = (self.store.dest + 1) % 3;
            self.store.dest = dest;
            self.dest = dest;
            self.btn_flash = BUTTON_FLASH_MS;
            let mut acts = one(Act::Save);
            acts.push(
                Act::Flash { chan: 0, led: Led::Button, color: dest_color(dest), times: 3 },
            );
            assert(acts@ =~= seq![
                Act::Save,
                Act::Flash { chan: 0, led: Led::Button, color: dest_hue(dest as int), times: 3 },
            ]);
            acts
        } else if shift {
            let division: usize = (self.division + 1) % 10;
            self.division = division;
            self.store.division = division;
            one(Act::Save)
        } else {
            if !self.fader_moved {
                self.trigger = true;
            }
            Vec::new()
        }
    }

    /// A long press: with shift it inverts the duck, without it mutes, unless
    /// the fader was scrubbed. Returns the acts and the level that the envelope
    /// restarts from, where it does.
    pub fn on_long_press(&mut self, shift: bool) -> (r: (Vec<Act>, Option<u16>))
        requires
            old(self).wf(),
        ensures
            final(self).wf(),
            ({
                let invert = !old(self).store.invert;
                let muted = !old(self).store.muted;
                if shift {
                    &&& r.0@ == seq![Act::Save]
                    &&& r.1 == Some(idle(invert) as u16)
                    &&& *final(self) == (HeatPump {
                        long_press_fired: true,
                        store: (Storage { invert, ..old(self).store }),
                        invert_fade_up: !invert,
                        invert_fade: INVERT_FADE_MS,
                        ..*old(self)
                    })
                } else if old(self).fader_moved {
                    &&& r.0@ == Seq::<Act>::empty()
                    &&& r.1 is None
                    &&& *final(self) == (HeatPump { long_press_fired: true, ..*old(self) })
                } else {
                    &&& r.0@ == (if muted {
                        seq![Act::Save, Act::Dark { chan: 0, led: Led::Button }]
                    } else {
                        seq![Act::Save]
                    })
                    &&& r.1 is None
                    &&& *final(self) == (HeatPump {
                        long_press_fired: true,
                        store: (Storage { muted, ..old(self).store }),
                        ..*old(self)
                    })
                }
            }),
    {
        self.long_press_fired = true;
        if shift {
            let invert = !self.store.invert;
            self.store.invert = invert;
            self.invert_fade_up = !invert;
            self.invert_fade = INVERT_FADE_MS;
            (one(Act::Save), Some(idle_level(invert)))
        } else if self.fader_moved {
            (Vec::new(), None)
        } else {
            self.store.muted = !self.store.muted;
            let mut acts = one(Act::Save);
            if self.store.muted {
                acts.push(Act::Dark { chan: 0, led: Led::Button });
                assert(acts@ =~= seq![Act::Save, Act::Dark { chan: 0, led: Led::Button }]);
            }
            (acts, None)
        }
    }

    /// The stored settings have been replaced by those of a scene. Returns the
    /// acts and the level that the envelope restarts from.
    pub fn on_scene(&mut self, store: Storage) -> (r: (Vec<Act>, u16))
        requires
            old(self).wf(),
        ensures
            final(self).wf(),
            *final(self) == (HeatPump {
                store,
                division: min_int(store.division as int, 9) as usize,
                dest: min_int(store.dest as int, 2) as usize,
                ..*old(self)
            }),
            r.0@ == if store.muted {
                seq![Act::Dark { chan: 0, led: Led::Button }]
            } else {
                Seq::<Act>::empty()
            },
            r.1 == idle(store.invert),
    {
        self.store = store;
        self.division = if store.division < 9 { store.division } else { 9 };
        self.dest = if store.dest < 2 { store.dest } else { 2 };
        let acts = if store.muted {
            one(Act::Dark { chan: 0, led: Led::Button })
        } else {
            Vec::new()
        };
        (acts, idle_level(store.invert))
    }
}

/// While muted, the output holds the level at rest whatever the envelope does.
pub proof fn mute_holds_idle(s: HeatPump, level: int)
    requires
        s.store.muted,
    ensures
        s.out_level(level) == idle(s.store.invert),
{
}

/// A duck never leaves the scale, and one of depth zero starts at rest.
pub proof fn ducks_stay_on_scale(invert: bool, depth: int)
    requires
        0 <= depth <= 4095,
    ensures
        0 <= ducked(invert, depth) <= 4095,
        ducked(invert, 0) == idle(invert),
{
}

} // verus!
