//! Morphing LFO of two oscillators with CV destinations for its form.
//!
//! Channel 0: morph, rate modulation, skew and the CV input. Channel 1: pulse
//! width, speed, warp and the output. The oscillator's position is kept by the
//! caller; this module decides when it is reset or held, where the clock puts
//! it, and what goes out.

use crate::apps::led_fx::{custom, hsv_to_rgb, pure_hue};
use crate::apps::lfo::{division_for, div_at, slowdown, speed_divisor, ticks_since, RESOLUTION};
use crate::apps::morph::{mix, mixed, node_at, node_sample, MorphChaos};
use crate::bounded::{param_values, values_of};
use crate::panel::{
    clamp_full, clamp_int, dist, div_toward_zero, layer_for, layer_of, max_int, min_int, one,
    push_all, quot, reads, reads_all, Act, Brightness, Color, LatchLayer, Led, MidiOut, ParamSlot,
    Range, Value,
};
use vstd::array::spec_array_update;
use vstd::prelude::*;

verus! {

pub const CHANNELS: usize = 2;
pub const PARAMS: usize = 11;

/// Length of the fade that answers a reversal.
pub const REVERSE_FADE_MS: u16 = 500;
/// Time for which a flash has the button to itself.
pub const BUTTON_FLASH_MS: u16 = 850;

/// Destinations of the CV input: speed, phase, level, reset, morph, skew,
/// warp, pulse width, rate modulation.
pub const DEST_COUNT: usize = 9;
/// Rising edges pass this level.
pub const TRIG_HIGH: u16 = 2458;

// ---------------------------------------------------------------------------
// Parameters and settings
// ---------------------------------------------------------------------------

#[derive(Clone, Copy, Debug, PartialEq, Eq, Structural)]
pub struct Params {
    pub speed_mult: usize,
    pub range: Range,
    pub midi_out: MidiOut,
    pub midi_channel: u8,
    pub midi_cc: u16,
    pub color: Color,
    pub nrpn: bool,
    pub phase_lock: bool,
    pub mix_mode: usize,
    pub osc_b: usize,
    /// 0 % is the first oscillator alone, 100 % the second.
    pub mix_balance: i32,
}

/// Stored balance: an old layout has it from -100 to 100.
pub open spec fn balance_of(raw: int) -> int {
    clamp_int(if raw < 0 { quot(raw + 100, 2) } else { raw }, 0, 100)
}

fn read_balance(raw: i32) -> (r: i32)
    ensures
        r == balance_of(raw as int),
        0 <= r <= 100,
{
    if raw < -100 {
        0
    } else if raw < 0 {
        ((raw + 100) as u32 / 2) as i32
    } else if raw > 100 {
        100
    } else {
        raw
    }
}

impl Params {
    pub open spec fn valid(self) -> bool {
        0 <= self.mix_balance <= 100
    }

    pub open spec fn values(self) -> Seq<Value> {
        seq![
            Value::Enum(self.speed_mult),
            Value::Range(self.range),
            Value::MidiChannel(self.midi_channel),
            Value::MidiCc(self.midi_cc),
            Value::Color(self.color),
            Value::MidiNrpn(self.nrpn),
            Value::MidiOut(self.midi_out),
            Value::Bool(self.phase_lock),
            Value::Enum(self.mix_mode),
            Value::Enum(self.osc_b),
            Value::I32(self.mix_balance),
        ]
    }

    /// Parameters in a list of slots. A list of ten has no balance yet.
    pub open spec fn from_slots(s: Seq<ParamSlot>) -> Option<Params> {
        if s.len() < 10 {
            None
        } else {
            Some(
                Params {
                    speed_mult: s[0].as_index,
                    range: s[1].as_range,
                    midi_out: s[6].as_midi_out,
                    midi_channel: s[2].as_channel,
                    midi_cc: s[3].as_cc,
                    color: s[4].as_color,
                    nrpn: s[5].as_bool,
                    phase_lock: s[7].as_bool,
                    mix_mode: s[8].as_index,
                    osc_b: s[9].as_index,
                    mix_balance: if s.len() > 10 { balance_of(s[10].as_int as int) as i32 } else {
                        50
                    },
                },
            )
        }
    }

    pub fn from_values(values: &[ParamSlot]) -> (r: Option<Params>)
        ensures
            r == Params::from_slots(values@),
            r matches Some(p) ==> p.valid(),
    {
        if values.len() < 10 {
            return None;
        }
        let mix_balance: i32 = if values.len() > 10 { read_balance(values[10].as_int) } else { 50 };
        Some(
            Params {
                speed_mult: values[0].as_index,
                range: values[1].as_range,
                midi_out: values[6].as_midi_out,
                midi_channel: values[2].as_channel,
                midi_cc: values[3].as_cc,
                color: values[4].as_color,
                nrpn: values[5].as_bool,
                phase_lock: values[7].as_bool,
                mix_mode: values[8].as_index,
                osc_b: values[9].as_index,
                mix_balance,
            },
        )
    }

    pub fn to_values(&self) -> (v: heapless::Vec<Value, 16>)
        ensures
            param_values(v) == self.values(),
    {
        let items: [Value; 11] = [
            Value::Enum(self.speed_mult),
            Value::Range(self.range),
            Value::MidiChannel(self.midi_channel),
            Value::MidiCc(self.midi_cc),
            Value::Color(self.color),
            Value::MidiNrpn(self.nrpn),
            Value::MidiOut(self.midi_out),
            Value::Bool(self.phase_lock),
            Value::Enum(self.mix_mode),
            Value::Enum(self.osc_b),
            Value::I32(self.mix_balance),
        ];
        assert(items@ =~= self.values());
        values_of(&items)
    }
}

/// Stored parameters read back as they were.
pub proof fn params_round_trip(p: Params, slots: Seq<ParamSlot>)
    requires
        p.valid(),
        reads_all(slots, p.values()),
    ensures
        Params::from_slots(slots) == Some(p),
{
    assert forall|i: int| 0 <= i < 11 implies reads(#[trigger] slots[i], p.values()[i]) by {}
    let (s0, s1, s2, s3) = (slots[0], slots[1], slots[2], slots[3]);
    let (s4, s5, s6, s7) = (slots[4], slots[5], slots[6], slots[7]);
    let (s8, s9, s10) = (slots[8], slots[9], slots[10]);
}

#[derive(Clone, Copy, Debug, PartialEq, Eq, Structural)]
pub struct Storage {
    pub clocked: bool,
    pub layer_attenuation: u16,
    pub layer_speed: u16,
    pub morph: u16,
    pub skew: u16,
    pub warp: u16,
    /// Pulse width; the middle is half the cycle.
    pub pwm: u16,
    pub mix_balance: u16,
    pub in_att: u16,
    pub in_mute: bool,
    pub dest: usize,
    pub out_muted: bool,
    pub reversed: bool,
    pub frozen: bool,
    /// Depth of the internal rate modulation.
    pub rate_mod: u16,
}

impl Default for Storage {
    fn default() -> (r: Self)
        ensures
            r == (Storage {
                clocked: false,
                layer_attenuation: 4095,
                layer_speed: 2000,
                morph: 0,
                skew: 2048,
                warp: 0,
                pwm: 2048,
                mix_balance: 2048,
                in_att: 4095,
                in_mute: false,
                dest: 0,
                out_muted: false,
                reversed: false,
                frozen: false,
                rate_mod: 0,
            }),
    {
        Storage {
            clocked: false,
            layer_attenuation: 4095,
            layer_speed: 2000,
            morph: 0,
            skew: 2048,
            warp: 0,
            pwm: 2048,
            mix_balance: 2048,
            in_att: 4095,
            in_mute: false,
            dest: 0,
            out_muted: false,
            reversed: false,
            frozen: false,
            rate_mod: 0,
        }
    }
}

impl Storage {
    /// Every fader value lies on the scale.
    pub open spec fn valid(self) -> bool {
        &&& self.layer_attenuation <= 4095
        &&& self.layer_speed <= 4095
        &&& self.morph <= 4095
        &&& self.skew <= 4095
        &&& self.warp <= 4095
        &&& self.pwm <= 4095
        &&& self.rate_mod <= 4095
        &&& self.dest < usize::MAX
    }

    /// Setting behind a fader.
    pub open spec fn layer_value(self, chan: int, layer: LatchLayer) -> u16 {
        match layer {
            LatchLayer::Main => if chan == 0 { self.morph } else { self.pwm },
            LatchLayer::Alt => if chan == 0 { self.rate_mod } else { self.layer_speed },
            LatchLayer::Third => if chan == 0 { self.skew } else { self.warp },
        }
    }

    /// Settings with the one behind a fader replaced.
    pub open spec fn with_layer(self, chan: int, layer: LatchLayer, v: u16) -> Storage {
        let main = layer == LatchLayer::Main;
        let alt = layer == LatchLayer::Alt;
        let third = layer == LatchLayer::Third;
        Storage {
            morph: if main && chan == 0 { v } else { self.morph },
            pwm: if main && chan != 0 { v } else { self.pwm },
            rate_mod: if alt && chan == 0 { v } else { self.rate_mod },
            layer_speed: if alt && chan != 0 { v } else { self.layer_speed },
            skew: if third && chan == 0 { v } else { self.skew },
            warp: if third && chan != 0 { v } else { self.warp },
            ..self
        }
    }

    fn set_layer(&mut self, chan: usize, layer: LatchLayer, v: u16)
        requires
            old(self).valid(),
            v <= 4095,
        ensures
            final(self).valid(),
            *final(self) == old(self).with_layer(chan as int, layer, v),
    {
        match layer {
            LatchLayer::Main => if chan == 0 {
                self.morph = v;
            } else {
                self.pwm = v;
            },
            LatchLayer::Alt => if chan == 0 {
                self.rate_mod = v;
            } else {
                self.layer_speed = v;
            },
            LatchLayer::Third => if chan == 0 {
                self.skew = v;
            } else {
                self.warp = v;
            },
        }
    }
}

/// A setting reads back what was stored through its fader, and no other fader
/// moves with it.
pub proof fn layers_are_separate(s: Storage, c1: int, c2: int, l1: LatchLayer, l2: LatchLayer, v: u16)
    requires
        0 <= c1 < 2,
        0 <= c2 < 2,
    ensures
        s.with_layer(c1, l1, v).layer_value(c1, l1) == v,
        c1 != c2 || l1 != l2 ==> s.with_layer(c1, l1, v).layer_value(c2, l2) == s.layer_value(
            c2,
            l2,
        ),
{
}

// ---------------------------------------------------------------------------
// Colours, modulation and mixing
// ---------------------------------------------------------------------------

pub open spec fn morph_hue(morph: int) -> Color {
    custom(pure_hue(min_int(morph, 4095) * 360 / 4096))
}

/// Even sweep of the hue circle.
pub fn morph_color(morph: u16) -> (c: Color)
    ensures
        c == morph_hue(morph as int),
{
    let m: u32 = if morph < 4095 { morph as u32 } else { 4095 };
    let (r, g, b) = hsv_to_rgb((m * 360 / 4096) as u16);
    Color::Custom(r, g, b)
}

#[verifier::opaque]
pub open spec fn dest_hue(dest: int) -> Color {
    if dest == 1 {
        Color::Pink
    } else if dest == 2 {
        Color::Cyan
    } else if dest == 3 {
        Color::Red
    } else if dest == 4 {
        Color::Orange
    } else if dest == 5 {
        Color::Violet
    } else if dest == 6 {
        Color::Green
    } else if dest == 7 {
        Color::Rose
    } else if dest == 8 {
        Color::Blue
    } else {
        Color::Yellow
    }
}

pub fn dest_color(dest: usize) -> (c: Color)
    ensures
        c == dest_hue(dest as int),
{
    reveal(dest_hue);
    match dest {
        0 => Color::Yellow,
        1 => Color::Pink,
        2 => Color::Cyan,
        3 => Color::Red,
        4 => Color::Orange,
        5 => Color::Violet,
        6 => Color::Green,
        7 => Color::Rose,
        8 => Color::Blue,
        _ => Color::Yellow,
    }
}

pub open spec fn mix_mode_hue(mode: int) -> Color {
    if mode == 0 {
        Color::Yellow
    } else if mode == 1 {
        Color::Cyan
    } else if mode == 2 {
        Color::Orange
    } else {
        Color::White
    }
}

pub fn mix_mode_color(mode: usize) -> (c: Color)
    ensures
        c == mix_mode_hue(mode as int),
{
    match mode {
        0 => Color::Yellow,
        1 => Color::Cyan,
        2 => Color::Orange,
        _ => Color::White,
    }
}

/// No two destinations share a colour.
pub proof fn dests_differ_in_color(a: int, b: int)
    requires
        0 <= a < b < 9,
    ensures
        dest_hue(a) != dest_hue(b),
{
    reveal(dest_hue);
}

/// Level of the button: the wave's, kept above a floor so that its troughs do
/// not look like a mute.
pub open spec fn button_level(val: int, bipolar: bool) -> int {
    110 + (if bipolar { dist(val, 2047) / 8 % 256 } else { val / 16 % 256 }) * 145 / 255
}

pub fn wave_button_brightness(val: u16, bipolar: bool) -> (r: Brightness)
    ensures
        r == Brightness::Custom(button_level(val as int, bipolar) as u8),
{
    let raw: u32 = if bipolar {
        let d: u32 = if val >= 2047 { val as u32 - 2047 } else { 2047 - val as u32 };
        d / 8 % 256
    } else {
        val as u32 / 16 % 256
    };
    Brightness::Custom(110 + (raw * 145 / 255) as u8)
}

/// The button never falls below its floor.
pub proof fn button_keeps_its_floor(val: int, bipolar: bool)
    requires
        0 <= val,
    ensures
        110 <= button_level(val, bipolar) <= 255,
{
}

/// A setting moved by the CV input, where that is its destination.
pub open spec fn cv_moved(base: int, active: bool, delta: int) -> int {
    if active { clamp_int(base + delta * 2, 0, 4095) } else { base }
}

pub fn cv_mod_u16(base: u16, active: bool, cv_delta: i32) -> (r: u16)
    requires
        active ==> i32::MIN <= cv_delta * 2 <= i32::MAX && base + cv_delta * 2 <= i32::MAX,
    ensures
        r == cv_moved(base as int, active, cv_delta as int),
        base <= 4095 ==> r <= 4095,
{
    if !active {
        return base;
    }
    clamp_full(base as i32 + cv_delta * 2)
}

/// Layer that a channel shows: the shifted one only where its fader was moved
/// last.
pub open spec fn shown_layer(edit: LatchLayer, chan: int, focus: Option<usize>) -> LatchLayer {
    if edit == LatchLayer::Alt && focus != Some(chan as usize) { LatchLayer::Main } else { edit }
}

pub fn display_latch(edit: LatchLayer, chan: usize, focus: Option<usize>) -> (r: LatchLayer)
    ensures
        r == shown_layer(edit, chan as int, focus),
{
    match edit {
        LatchLayer::Alt => {
            let here = match focus {
                Some(f) => f == chan,
                None => false,
            };
            if here {
                LatchLayer::Alt
            } else {
                LatchLayer::Main
            }
        },
        other => other,
    }
}

pub open spec fn mixed_samples(a: int, b: int, mode: int, balance: int) -> int {
    if mode == 1 {
        min_int(a, b)
    } else if mode == 2 {
        max_int(a, b)
    } else if mode == 3 {
        (a + b) / 2
    } else {
        clamp_int(quot(a * (4095 - balance) + b * balance, 4095), 0, 4095)
    }
}

/// The crossfade is computed in 32-bit words.
pub open spec fn crossfade_fits(a: int, b: int, t: int) -> bool {
    &&& i32::MIN <= a * (4095 - t) <= i32::MAX
    &&& b * t <= i32::MAX
    &&& i32::MIN <= a * (4095 - t) + b * t <= i32::MAX
}

proof fn crossfade_bounds(a: int, b: int, t: int)
    requires
        0 <= a <= 4095,
        0 <= b <= 4095,
        0 <= t <= 4095,
    ensures
        min_int(a, b) * 4095 <= a * (4095 - t) + b * t <= max_int(a, b) * 4095,
        0 <= a * (4095 - t) <= 4095 * 4095,
        0 <= b * t <= 4095 * 4095,
{
    let (lo, hi) = (min_int(a, b), max_int(a, b));
    assert(lo * (4095 - t) <= a * (4095 - t) <= hi * (4095 - t) && lo * t <= b * t <= hi * t && lo
        * (4095 - t) + lo * t == lo * 4095 && hi * (4095 - t) + hi * t == hi * 4095 && 0 <= a * (
    4095 - t) <= 4095 * 4095 && 0 <= b * t <= 4095 * 4095) by (nonlinear_arith)
        requires
            0 <= lo <= a <= hi <= 4095,
            0 <= lo <= b <= hi,
            0 <= t <= 4095,
            0 <= a <= 4095,
            0 <= b <= 4095,
    ;
}

/// Mix of both oscillators: a crossfade, the lower, the higher or the mean.
pub fn mix_samples(a: u16, b: u16, mode: usize, balance: u16) -> (r: u16)
    requires
        !(1 <= mode <= 3) ==> crossfade_fits(a as int, b as int, balance as int),
    ensures
        r == mixed_samples(a as int, b as int, mode as int, balance as int),
        a <= 4095 && b <= 4095 ==> r <= 4095,
{
    match mode {
        1 => if a < b { a } else { b },
        2 => if a > b { a } else { b },
        3 => ((a as u32 + b as u32) / 2) as u16,
        _ => {
            assert(0 <= b * balance) by (nonlinear_arith)
                requires
                    0 <= b,
                    0 <= balance,
            ;
            let t: i32 = balance as i32;
            clamp_full(div_toward_zero(a as i32 * (4095 - t) + b as i32 * t, 4095))
        },
    }
}

/// Every mix lies between the two samples, and the ends of the crossfade are
/// the samples themselves.
pub proof fn mixes_stay_between(a: int, b: int, mode: int, balance: int)
    requires
        0 <= a <= 4095,
        0 <= b <= 4095,
        0 <= balance <= 4095,
    ensures
        min_int(a, b) <= mixed_samples(a, b, mode, balance) <= max_int(a, b),
        mixed_samples(a, b, 0, 0) == a,
        mixed_samples(a, b, 0, 4095) == b,
{
    crossfade_bounds(a, b, balance);
}

/// State and sample at a morph position and a shaped phase.
pub open spec fn morphed(
    c: MorphChaos,
    phase: int,
    morph: int,
    osc: int,
    waves: Seq<u16>,
    rolls: (u16, u16),
) -> (MorphChaos, u16) {
    let seg = min_int(morph / 682, 5);
    let (c1, a) = node_at(c, seg, phase, osc, waves, rolls.0);
    let (c2, b) = node_at(c1, seg + 1, phase, osc, waves, rolls.1);
    (c2, mixed(a as int, b as int, morph % 682) as u16)
}

/// Sample of the morph continuum at a shaped phase. `waves` are the plain waves
/// there, and the rolls those of the die for the lower and the upper node.
pub fn morph_sample(
    phase: usize,
    morph: u16,
    osc: usize,
    chaos: &mut MorphChaos,
    waves: &[u16; 4],
    rolls: (u16, u16),
) -> (r: u16)
    ensures
        (*final(chaos), r) == morphed(
            *old(chaos),
            phase as int,
            morph as int,
            osc as int,
            waves@,
            rolls,
        ),
        r <= 4095,
        old(chaos).wf() ==> final(chaos).wf(),
{
    let seg: usize = if morph as usize / 682 < 5 { morph as usize / 682 } else { 5 };
    let frac: usize = morph as usize % 682;
    let a: u16 = node_sample(seg, phase, osc, chaos, waves, rolls.0);
    let b: u16 = node_sample(seg + 1, phase, osc, chaos, waves, rolls.1);
    mix(a, b, frac)
}

/// Phases of both oscillators at a position: the second is a quarter ahead, or
/// runs an octave above.
pub open spec fn phases(pos: int, offset: int, octave: bool) -> (int, int) {
    let a = (pos + offset) % 4096;
    (a, if octave { a * 2 % 4096 } else { (a + 1024) % 4096 })
}

pub fn osc_phases(pos: u16, offset: i16, octave: bool) -> (r: (usize, usize))
    ensures
        (r.0 as int, r.1 as int) == phases(pos as int, offset as int, octave),
        r.0 < 4096,
        r.1 < 4096,
{
    let sum: i32 = pos as i32 + offset as i32 + 65536;
    let a: usize = sum as usize % 4096;
    assert(a == (pos + offset) % 4096);
    let b: usize = if octave { a * 2 % 4096 } else { (a + 1024) % 4096 };
    (a, b)
}

// ---------------------------------------------------------------------------
// The running app
// ---------------------------------------------------------------------------

/// State of the app between events.
pub struct SuperLfo {
    pub range: Range,
    pub midi_cc: u16,
    pub midi_on: bool,
    pub color: Color,
    pub octave: bool,
    pub speed_mult: u32,
    pub phase_lock: bool,
    pub mix_mode: usize,
    pub store: Storage,
    pub layers: [LatchLayer; 2],
    /// A clock tick has come since the last frame.
    pub ticked: bool,
    /// Frames since the last tick, and between the last two.
    pub frames: u32,
    pub frames_per_tick: u32,
    pub div: u16,
    /// Clock tick at which the phase is zero; 0 locks to the clock's grid.
    pub phase_origin: u64,
    /// Level that is put out while held.
    pub frozen_val: u16,
    /// The clock has stopped under a clocked oscillator.
    pub clock_held: bool,
    pub long: [bool; 2],
    pub moved: [bool; 2],
    pub reverse_fade: u16,
    /// The fade goes from dark to white.
    pub reverse_fade_up: bool,
    pub flash: [u16; 2],
    /// Channel whose fader was moved last under shift.
    pub focus: Option<usize>,
    pub last_val: Option<u16>,
    pub prev_in: u16,
}

/// The form of the waves in a frame, with the CV input applied.
#[derive(Clone, Copy, Debug, PartialEq, Eq, Structural)]
pub struct Form {
    pub morph: u16,
    pub skew: u16,
    pub warp: u16,
    pub pwm: u16,
    pub rate_mod: u16,
    pub attenuation: u16,
    pub phase_offset: i16,
}

/// What owns the buttons in a frame.
#[derive(Clone, Copy, Debug, PartialEq, Eq, Structural)]
pub struct Busy {
    pub fade: u16,
    pub flash_0: u16,
    pub flash_1: u16,
}

pub open spec fn lit(chan: usize, led: Led, color: Color, bright: Brightness) -> Act {
    Act::Light { chan, led, color, bright }
}

/// Division for a speed moved by the CV input, which rests at 2047.
pub open spec fn moved_div(speed: int, offset: int) -> int {
    RESOLUTION[min_int(clamp_int(speed + offset - 2047, 0, 4095) / 500, 8)] as int
}

fn moved_division(speed: u16, offset: u16) -> (r: u16)
    ensures
        r == moved_div(speed as int, offset as int),
        6 <= r <= 384,
{
    let sum: u32 = speed as u32 + offset as u32;
    let v: u32 = if sum < 2047 {
        0
    } else if sum - 2047 > 4095 {
        4095
    } else {
        sum - 2047
    };
    let i: usize = (v / 500) as usize;
    RESOLUTION[if i < 8 {
        i
    } else {
        8
    }]
}

impl SuperLfo {
    pub open spec fn wf(self) -> bool {
        &&& self.store.valid()
        &&& self.mix_mode <= 3
        &&& 1 <= self.speed_mult <= 0x8000_0000
        &&& 6 <= self.div <= 384
        &&& self.reverse_fade <= REVERSE_FADE_MS
    }

    pub fn new(params: Params, store: Storage) -> (r: (Self, Vec<Act>))
        requires
            params.valid(),
            store.valid(),
        ensures
            r.0.wf(),
            r.0.range == params.range && r.0.midi_cc == params.midi_cc && r.0.color == params.color,
            r.0.midi_on == params.midi_out.any(),
            r.0.octave == (params.osc_b >= 1),
            r.0.speed_mult == slowdown(params.speed_mult as int),
            r.0.phase_lock == params.phase_lock,
            r.0.mix_mode == min_int(params.mix_mode as int, 3),
            r.0.store == store,
            r.0.div == div_at(store.layer_speed as int),
            r.0.phase_origin == 0 && r.0.frozen_val == 2047 && !r.0.clock_held,
            r.0.focus is None && r.0.last_val is None && r.0.prev_in == 0,
            r.0.reverse_fade == 0 && r.0.frames == 0 && r.0.frames_per_tick == 20,
            !r.0.ticked && !r.0.reverse_fade_up,
            r.0.layers@ == seq![LatchLayer::Main, LatchLayer::Main],
            r.0.long@ == seq![false, false],
            r.0.moved@ == seq![false, false],
            r.0.flash@ == seq![0u16, 0u16],
            r.1@ == seq![
                if store.in_mute {
                    Act::Dark { chan: 0, led: Led::Button }
                } else {
                    lit(0, Led::Button, params.color, Brightness::Mid)
                },
            ] + (if store.out_muted {
                Seq::empty()
            } else {
                seq![lit(1, Led::Button, morph_hue(store.morph as int), Brightness::Mid)]
            }),
    {
        let s = SuperLfo {
            range: params.range,
            midi_cc: params.midi_cc,
            midi_on: params.midi_out.is_some(),
            color: params.color,
            octave: params.osc_b >= 1,
            speed_mult: speed_divisor(params.speed_mult),
            phase_lock: params.phase_lock,
            mix_mode: if params.mix_mode < 3 { params.mix_mode } else { 3 },
            store,
            layers: [LatchLayer::Main, LatchLayer::Main],
            ticked: false,
            frames: 0,
            frames_per_tick: 20,
            div: division_for(store.layer_speed),
            phase_origin: 0,
            frozen_val: 2047,
            clock_held: false,
            long: [false, false],
            moved: [false, false],
            reverse_fade: 0,
            reverse_fade_up: false,
            flash: [0, 0],
            focus: None,
            last_val: None,
            prev_in: 0,
        };
        let mut acts = if store.in_mute {
            one(Act::Dark { chan: 0, led: Led::Button })
        } else {
            one(
                Act::Light {
                    chan: 0,
                    led: Led::Button,
                    color: params.color,
                    bright: Brightness::Mid,
                },
            )
        };
        if !store.out_muted {
            acts.push(
                Act::Light {
                    chan: 1,
                    led: Led::Button,
                    color: morph_color(store.morph),
                    bright: Brightness::Mid,
                },
            );
        }
        assert(acts@ =~= seq![
            if store.in_mute {
                Act::Dark { chan: 0, led: Led::Button }
            } else {
                lit(0, Led::Button, params.color, Brightness::Mid)
            },
        ] + (if store.out_muted {
            Seq::empty()
        } else {
            seq![lit(1, Led::Button, morph_hue(store.morph as int), Brightness::Mid)]
        }));
        (s, acts)
    }

    /// Brightness of the fade that answers a reversal.
    pub open spec fn fade_level(self) -> int {
        if self.reverse_fade_up {
            (500 - self.reverse_fade) * 255 / 500
        } else {
            self.reverse_fade * 255 / 500
        }
    }

    /// Begin a frame: take over the layers, show the fade and count down.
    /// Returns the acts and what owns the buttons in this frame.
    pub fn begin_frame(&mut self, shift: bool, button_0: bool, button_1: bool) -> (r: (
        Vec<Act>,
        Busy,
    ))
        requires
            old(self).wf(),
        ensures
            final(self).wf(),
            r.1 == (Busy {
                fade: old(self).reverse_fade,
                flash_0: old(self).flash[0],
                flash_1: old(self).flash[1],
            }),
            r.0@ == if old(self).reverse_fade > 0 {
                seq![
                    lit(
                        1,
                        Led::Button,
                        Color::White,
                        Brightness::Custom(old(self).fade_level() as u8),
                    ),
                ]
            } else {
                Seq::<Act>::empty()
            },
            final(self).layers@ == seq![layer_of(shift, button_0), layer_of(shift, button_1)],
            final(self).flash@ == seq![
                max_int(old(self).flash[0] - 1, 0) as u16,
                max_int(old(self).flash[1] - 1, 0) as u16,
            ],
            *final(self) == (SuperLfo {
                layers: final(self).layers,
                flash: final(self).flash,
                focus: if shift { old(self).focus } else { None },
                reverse_fade: max_int(old(self).reverse_fade - 1, 0) as u16,
                ..*old(self)
            }),
    {
        self.layers = [layer_for(shift, button_0), layer_for(shift, button_1)];
        if !shift {
            self.focus = None;
        }
        let busy = Busy {
            fade: self.reverse_fade,
            flash_0: self.flash[0],
            flash_1: self.flash[1],
        };
        let mut acts: Vec<Act> = Vec::new();
        if self.reverse_fade > 0 {
            let part: u32 = if self.reverse_fade_up {
                500 - self.reverse_fade as u32
            } else {
                self.reverse_fade as u32
            };
            acts = one(
                Act::Light {
                    chan: 1,
                    led: Led::Button,
                    color: Color::White,
                    bright: Brightness::Custom((part * 255 / 500) as u8),
                },
            );
            self.reverse_fade = self.reverse_fade - 1;
        }
        self.flash = [busy.flash_0.saturating_sub(1), busy.flash_1.saturating_sub(1)];
        (acts, busy)
    }

    pub open spec fn dest_now(self) -> int {
        min_int(self.store.dest as int, 8)
    }

    /// The CV input: in the middle while it is muted.
    pub open spec fn input_of(self, attenuated: u16) -> int {
        if self.store.in_mute { 2047 } else { attenuated as int }
    }

    /// A rising edge on the reset destination.
    pub open spec fn resets(self, in_val: int) -> bool {
        self.dest_now() == 3 && in_val >= TRIG_HIGH && self.prev_in < TRIG_HIGH
    }

    /// The form of the waves for an input.
    pub open spec fn form_at(self, in_val: int) -> Form {
        let d = self.dest_now();
        let delta = in_val - 2047;
        Form {
            morph: cv_moved(self.store.morph as int, d == 4, delta) as u16,
            skew: cv_moved(self.store.skew as int, d == 5, delta) as u16,
            warp: cv_moved(self.store.warp as int, d == 6, delta) as u16,
            pwm: cv_moved(self.store.pwm as int, d == 7, delta) as u16,
            rate_mod: cv_moved(self.store.rate_mod as int, d == 8, delta) as u16,
            attenuation: cv_moved(self.store.layer_attenuation as int, d == 2, delta) as u16,
            phase_offset: (if d == 1 { delta * 2 } else { 0 }) as i16,
        }
    }

    /// State after the CV input is seen: the division follows the speed, a
    /// change of division and a reset set the origin of the phase, and a tick
    /// gives the number of frames between two ticks.
    pub open spec fn heard(self, in_val: int, tick: u64) -> SuperLfo {
        let div = moved_div(
            self.store.layer_speed as int,
            if self.dest_now() == 0 { in_val } else { 2047 },
        ) as u16;
        let n = min_int(self.frames + 1, u32::MAX as int) as u32;
        SuperLfo {
            div,
            phase_origin: if self.resets(in_val) {
                tick
            } else if div != self.div {
                0
            } else {
                self.phase_origin
            },
            prev_in: if self.dest_now() == 3 { in_val as u16 } else { self.prev_in },
            frames: if self.ticked { 0 } else { n },
            frames_per_tick: if self.ticked { n } else { self.frames_per_tick },
            ticked: false,
            ..self
        }
    }

    /// See the attenuated CV input. Returns it as it counts, the form of the
    /// waves, and whether the position is to be reset.
    #[verifier::rlimit(40)]
    pub fn on_input(&mut self, attenuated: u16, tick: u64) -> (r: (u16, Form, bool))
        requires
            old(self).wf(),
            attenuated <= 4095,
        ensures
            final(self).wf(),
            r.0 == old(self).input_of(attenuated),
            r.0 <= 4095,
            r.1 == old(self).form_at(r.0 as int),
            r.2 == old(self).resets(r.0 as int),
            *final(self) == old(self).heard(r.0 as int, tick),
    {
        let in_val: u16 = if self.store.in_mute { 2047 } else { attenuated };
        let dest: usize = if self.store.dest < 8 { self.store.dest } else { 8 };
        let div: u16 = moved_division(
            self.store.layer_speed,
            if dest == 0 {
                in_val
            } else {
                2047
            },
        );
        if div != self.div {
            self.div = div;
            self.phase_origin = 0;
        }
        let mut reset = false;
        if dest == 3 {
            if in_val >= TRIG_HIGH && self.prev_in < TRIG_HIGH {
                self.phase_origin = tick;
                reset = true;
            }
            self.prev_in = in_val;
        }
        self.frames = self.frames.saturating_add(1);
        if self.ticked {
            self.frames_per_tick = self.frames;
            self.frames = 0;
            self.ticked = false;
        }
        let delta: i32 = in_val as i32 - 2047;
        let form = Form {
            morph: cv_mod_u16(self.store.morph, dest == 4, delta),
            skew: cv_mod_u16(self.store.skew, dest == 5, delta),
            warp: cv_mod_u16(self.store.warp, dest == 6, delta),
            pwm: cv_mod_u16(self.store.pwm, dest == 7, delta),
            rate_mod: cv_mod_u16(self.store.rate_mod, dest == 8, delta),
            attenuation: cv_mod_u16(self.store.layer_attenuation, dest == 2, delta),
            phase_offset: if dest == 1 { (delta * 2) as i16 } else { 0 },
        };
        (in_val, form, reset)
    }

    /// The position stands still: frozen by hand, or by a stopped clock.
    pub open spec fn holds(self) -> bool {
        self.store.frozen || (self.store.clocked && self.clock_held)
    }

    pub fn is_held(&self) -> (r: bool)
        ensures
            r == self.holds(),
    {
        self.store.frozen || (self.store.clocked && self.clock_held)
    }

    /// What goes out for a sample: the middle or the bottom while muted, the
    /// held level while held.
    pub open spec fn out_value(self, val: int) -> int {
        if self.store.out_muted {
            if self.range.bipolar() { 2047 } else { 0 }
        } else if self.holds() {
            self.frozen_val as int
        } else {
            val
        }
    }

    pub fn effective_value(&self, val: u16) -> (r: u16)
        ensures
            r == self.out_value(val as int),
    {
        if self.store.out_muted {
            if self.range.is_bipolar() {
                2047
            } else {
                0
            }
        } else if self.is_held() {
            self.frozen_val
        } else {
            val
        }
    }

    /// Lights of channel 1.
    pub open spec fn lights_1(self, out: u16, busy: Busy) -> Seq<Act> {
        (if busy.fade == 0 && busy.flash_1 == 0 {
            seq![
                if self.store.out_muted {
                    Act::Dark { chan: 1, led: Led::Button }
                } else {
                    lit(
                        1,
                        Led::Button,
                        self.color,
                        Brightness::Custom(button_level(out as int, self.range.bipolar()) as u8),
                    )
                },
            ]
        } else {
            Seq::empty()
        }) + (match shown_layer(self.layers[1], 1, self.focus) {
            LatchLayer::Main => seq![
                Act::Meter { chan: 1, color: self.color, level: out, top_floor: 0, bottom_floor: 0 },
            ],
            LatchLayer::Alt => seq![
                lit(
                    1,
                    Led::Top,
                    Color::Red,
                    Brightness::Custom((self.store.layer_speed as int / 16) as u8),
                ),
                Act::Dark { chan: 1, led: Led::Bottom },
            ],
            LatchLayer::Third => seq![
                lit(
                    1,
                    Led::Top,
                    if self.store.warp < 1366 {
                        Color::Green
                    } else if self.store.warp < 2732 {
                        Color::Yellow
                    } else {
                        Color::Red
                    },
                    Brightness::Mid,
                ),
                Act::Dark { chan: 1, led: Led::Bottom },
            ],
        })
    }

    /// Lights of channel 0.
    pub open spec fn lights_0(self, out: u16, in_val: u16, morph: u16, busy: Busy) -> Seq<Act> {
        match shown_layer(self.layers[0], 0, self.focus) {
            LatchLayer::Main => seq![
                lit(
                    0,
                    Led::Top,
                    morph_hue(morph as int),
                    Brightness::Custom((morph as int / 16) as u8),
                ),
                Act::MeterLow { chan: 0, color: self.color, level: in_val },
            ] + (if busy.flash_0 > 0 {
                Seq::empty()
            } else {
                seq![
                    if self.store.frozen {
                        lit(0, Led::Button, Color::White, Brightness::Low)
                    } else if self.store.in_mute {
                        Act::Dark { chan: 0, led: Led::Button }
                    } else {
                        lit(
                            0,
                            Led::Button,
                            morph_hue(morph as int),
                            Brightness::Custom(
                                button_level(out as int, self.range.bipolar()) as u8,
                            ),
                        )
                    },
                ]
            }),
            LatchLayer::Alt => seq![
                lit(
                    0,
                    Led::Top,
                    Color::Orange,
                    Brightness::Custom((self.store.rate_mod as int / 16) as u8),
                ),
                Act::Dark { chan: 0, led: Led::Bottom },
            ] + (if busy.flash_0 > 0 {
                Seq::empty()
            } else {
                seq![lit(0, Led::Button, dest_hue(self.dest_now()), Brightness::Mid)]
            }),
            LatchLayer::Third => seq![
                lit(
                    0,
                    Led::Top,
                    if self.store.skew < 1366 {
                        Color::Cyan
                    } else if self.store.skew < 2732 {
                        Color::Pink
                    } else {
                        Color::Violet
                    },
                    Brightness::Mid,
                ),
                Act::Dark { chan: 0, led: Led::Bottom },
            ],
        }
    }

    fn paint_1(&self, out: u16, busy: Busy) -> (acts: Vec<Act>)
        requires
            self.wf(),
        ensures
            acts@ == self.lights_1(out, busy),
    {
        let mut acts: Vec<Act> = Vec::new();
        if busy.fade == 0 && busy.flash_1 == 0 {
            if self.store.out_muted {
                acts.push(Act::Dark { chan: 1, led: Led::Button });
            } else {
                let bright = wave_button_brightness(out, self.range.is_bipolar());
                acts.push(Act::Light { chan: 1, led: Led::Button, color: self.color, bright });
            }
        }
        match display_latch(self.layers[1], 1, self.focus) {
            LatchLayer::Main => {
                acts.push(
                    Act::Meter {
                        chan: 1,
                        color: self.color,
                        level: out,
                        top_floor: 0,
                        bottom_floor: 0,
                    },
                );
            },
            LatchLayer::Alt => {
                let bright = Brightness::Custom((self.store.layer_speed / 16) as u8);
                acts.push(Act::Light { chan: 1, led: Led::Top, color: Color::Red, bright });
                acts.push(Act::Dark { chan: 1, led: Led::Bottom });
            },
            LatchLayer::Third => {
                let color = match self.store.warp / 1366 {
                    0 => Color::Green,
                    1 => Color::Yellow,
                    _ => Color::Red,
                };
                acts.push(Act::Light { chan: 1, led: Led::Top, color, bright: Brightness::Mid });
                acts.push(Act::Dark { chan: 1, led: Led::Bottom });
            },
        }
        assert(acts@ =~= self.lights_1(out, busy));
        acts
    }

    fn paint_0(&self, out: u16, in_val: u16, morph: u16, busy: Busy) -> (acts: Vec<Act>)
        requires
            self.wf(),
            morph <= 4095,
        ensures
            acts@ == self.lights_0(out, in_val, morph, busy),
    {
        let mut acts: Vec<Act> = Vec::new();
        match display_latch(self.layers[0], 0, self.focus) {
            LatchLayer::Main => {
                let color = morph_color(morph);
                let bright = Brightness::Custom((morph / 16) as u8);
                acts.push(Act::Light { chan: 0, led: Led::Top, color, bright });
                acts.push(Act::MeterLow { chan: 0, color: self.color, level: in_val });
                if busy.flash_0 == 0 {
                    if self.store.frozen {
                        acts.push(
                            Act::Light {
                                chan: 0,
                                led: Led::Button,
                                color: Color::White,
                                bright: Brightness::Low,
                            },
                        );
                    } else if self.store.in_mute {
                        acts.push(Act::Dark { chan: 0, led: Led::Button });
                    } else {
                        let bright = wave_button_brightness(out, self.range.is_bipolar());
                        acts.push(Act::Light { chan: 0, led: Led::Button, color, bright });
                    }
                }
            },
            LatchLayer::Alt => {
                let bright = Brightness::Custom((self.store.rate_mod / 16) as u8);
                acts.push(Act::Light { chan: 0, led: Led::Top, color: Color::Orange, bright });
                acts.push(Act::Dark { chan: 0, led: Led::Bottom });
                if busy.flash_0 == 0 {
                    let dest: usize = if self.store.dest < 8 { self.store.dest } else { 8 };
                    acts.push(
                        Act::Light {
                            chan: 0,
                            led: Led::Button,
                            color: dest_color(dest),
                            bright: Brightness::Mid,
                        },
                    );
                }
            },
            LatchLayer::Third => {
                let color = match self.store.skew / 1366 {
                    0 => Color::Cyan,
                    1 => Color::Pink,
                    _ => Color::Violet,
                };
                acts.push(Act::Light { chan: 0, led: Led::Top, color, bright: Brightness::Mid });
                acts.push(Act::Dark { chan: 0, led: Led::Bottom });
            },
        }
        assert(acts@ =~= self.lights_0(out, in_val, morph, busy));
        acts
    }

    /// End a frame with the attenuated mix `val`. `gate_val` is the effective
    /// value as the MIDI side resolves it; `in_val` and `morph` are those of
    /// the input, `busy` is what `begin_frame` gave.
    pub fn end_frame(&mut self, val: u16, gate_val: u16, in_val: u16, morph: u16, busy: Busy) -> (acts:
        Vec<Act>)
        requires
            old(self).wf(),
            morph <= 4095,
        ensures
            final(self).wf(),
            ({
                let out = old(self).out_value(val as int) as u16;
                let sends = old(self).midi_on && old(self).last_val != Some(gate_val);
                &&& *final(self) == (SuperLfo {
                    frozen_val: if !old(self).store.out_muted && !old(self).holds() { val } else {
                        old(self).frozen_val
                    },
                    last_val: if sends { Some(gate_val) } else { old(self).last_val },
                    ..*old(self)
                })
                &&& acts@ == seq![Act::Cv { jack: 1, val: out }] + (if sends {
                    seq![Act::Cc { out: 0, cc: old(self).midi_cc, val: out }]
                } else {
                    Seq::empty()
                }) + old(self).lights_1(out, busy) + old(self).lights_0(out, in_val, morph, busy)
            }),
    {
        let ghost s0 = *self;
        let out: u16 = self.effective_value(val);
        if !self.store.out_muted && !self.is_held() {
            self.frozen_val = val;
        }
        let mut acts = one(Act::Cv { jack: 1, val: out });
        if self.midi_on {
            let same = match self.last_val {
                Some(v) => v == gate_val,
                None => false,
            };
            if !same {
                acts.push(Act::Cc { out: 0, cc: self.midi_cc, val: out });
                self.last_val = Some(gate_val);
            }
        }
        let ghost a1 = acts@;
        let l1 = self.paint_1(out, busy);
        assert(l1@ == s0.lights_1(out, busy));
        push_all(&mut acts, l1);
        let l0 = self.paint_0(out, in_val, morph, busy);
        assert(l0@ == s0.lights_0(out, in_val, morph, busy));
        push_all(&mut acts, l0);
        assert(a1 =~= seq![Act::Cv { jack: 1, val: out }] + (if s0.midi_on && s0.last_val != Some(
            gate_val,
        ) {
            seq![Act::Cc { out: 0, cc: s0.midi_cc, val: out }]
        } else {
            Seq::empty()
        }));
        acts
    }
}

/// While held, and not muted, the output stays where it is.
pub proof fn hold_keeps_the_level(s: SuperLfo, v1: int, v2: int)
    requires
        s.holds(),
    ensures
        s.out_value(v1) == s.out_value(v2),
        !s.store.out_muted ==> s.out_value(v1) == s.frozen_val,
{
}

/// An input at rest, like a muted one, leaves the form as it is stored.
pub proof fn resting_input_moves_nothing(s: SuperLfo)
    requires
        s.wf(),
    ensures
        s.form_at(2047) == (Form {
            morph: s.store.morph,
            skew: s.store.skew,
            warp: s.store.warp,
            pwm: s.store.pwm,
            rate_mod: s.store.rate_mod,
            attenuation: s.store.layer_attenuation,
            phase_offset: 0,
        }),
        s.store.in_mute ==> forall|a: u16| #[trigger] s.input_of(a) == 2047,
        !s.resets(2047),
{
}

// ---------------------------------------------------------------------------
// Faders, buttons, clock and scenes
// ---------------------------------------------------------------------------

/// A save and one more act.
fn saved_with(a: Act) -> (acts: Vec<Act>)
    ensures
        acts@ == seq![Act::Save, a],
{
    let mut acts = one(Act::Save);
    acts.push(a);
    assert(acts@ =~= seq![Act::Save, a]);
    acts
}

impl SuperLfo {
    /// A fader has moved: under shift its channel takes the focus, with the
    /// button it is a scrub.
    pub fn on_fader_move(&mut self, chan: usize)
        requires
            old(self).wf(),
            chan < 2,
        ensures
            final(self).wf(),
            *final(self) == (SuperLfo {
                focus: if old(self).layers[chan as int] == LatchLayer::Alt { Some(chan) } else {
                    old(self).focus
                },
                moved: if old(self).layers[chan as int] == LatchLayer::Third {
                    spec_array_update(old(self).moved, chan as int, true)
                } else {
                    old(self).moved
                },
                ..*old(self)
            }),
    {
        let ghost s0 = *self;
        match self.layers[chan] {
            LatchLayer::Main => {},
            LatchLayer::Alt => {
                self.focus = Some(chan);
            },
            LatchLayer::Third => {
                self.moved[chan] = true;
                assert(self.moved =~= spec_array_update(s0.moved, chan as int, true));
            },
        }
    }

    /// Value that a fader has to pass before it takes over.
    pub fn fader_target(&self, chan: usize) -> (r: u16)
        requires
            chan < 2,
        ensures
            r == self.store.layer_value(chan as int, self.layers[chan as int]),
    {
        match self.layers[chan] {
            LatchLayer::Main => if chan == 0 { self.store.morph } else { self.store.pwm },
            LatchLayer::Alt => if chan == 0 { self.store.rate_mod } else { self.store.layer_speed },
            LatchLayer::Third => if chan == 0 { self.store.skew } else { self.store.warp },
        }
    }

    /// A fader has taken over its layer with a value. A new speed may be a new
    /// division, which aligns the phase to the clock's grid again.
    pub fn on_fader(&mut self, chan: usize, v: u16) -> (acts: Vec<Act>)
        requires
            old(self).wf(),
            chan < 2,
            v <= 4095,
        ensures
            final(self).wf(),
            acts@ == seq![Act::Save],
            ({
                let layer = old(self).layers[chan as int];
                let store = old(self).store.with_layer(chan as int, layer, v);
                let speed = chan == 1 && layer == LatchLayer::Alt;
                let div = if speed { moved_div(v as int, 2047) as u16 } else { old(self).div };
                *final(self) == (SuperLfo {
                    store,
                    div,
                    phase_origin: if div != old(self).div { 0 } else { old(self).phase_origin },
                    ..*old(self)
                })
            }),
    {
        let layer = self.layers[chan];
        let mut store = self.store;
        store.set_layer(chan, layer, v);
        let div: u16 = if chan == 1 && layer == LatchLayer::Alt {
            moved_division(v, 2047)
        } else {
            self.div
        };
        let origin: u64 = if div != self.div { 0 } else { self.phase_origin };
        self.store = store;
        self.div = div;
        self.phase_origin = origin;
        one(Act::Save)
    }

    /// A button goes down.
    pub fn on_down(&mut self, chan: usize, shift: bool)
        requires
            old(self).wf(),
            chan < 2,
        ensures
            final(self).wf(),
            *final(self) == (SuperLfo {
                long: spec_array_update(old(self).long, chan as int, false),
                moved: if shift { old(self).moved } else {
                    spec_array_update(old(self).moved, chan as int, false)
                },
                ..*old(self)
            }),
    {
        let ghost s0 = *self;
        self.long[chan] = false;
        assert(self.long =~= spec_array_update(s0.long, chan as int, false));
        if !shift {
            self.moved[chan] = false;
            assert(self.moved =~= spec_array_update(s0.moved, chan as int, false));
        }
    }

    /// Settings after the button of channel 0 goes up, after a press that began
    /// with or without shift: the next destination, a freeze, or after a long
    /// press the input's mute, unless the fader was moved.
    pub open spec fn settings_0(self, shift: bool) -> Storage {
        let st = self.store;
        if self.long[0] {
            if shift || self.moved[0] { st } else { Storage { in_mute: !st.in_mute, ..st } }
        } else if shift {
            Storage { dest: ((st.dest + 1) % 9) as usize, ..st }
        } else {
            Storage { frozen: !st.frozen, ..st }
        }
    }

    pub open spec fn release_acts_0(self, shift: bool) -> Seq<Act> {
        if self.long[0] {
            if shift || self.moved[0] { Seq::empty() } else { seq![Act::Save] }
        } else if shift {
            seq![
                Act::Save,
                Act::Flash {
                    chan: 0,
                    led: Led::Button,
                    color: dest_hue((self.store.dest + 1) % 9),
                    times: 3,
                },
            ]
        } else if self.store.frozen {
            seq![Act::Save]
        } else {
            seq![Act::Save, lit(0, Led::Button, Color::White, Brightness::Low)]
        }
    }

    /// The button of channel 0 goes up.
    pub fn on_up_0(&mut self, shift: bool) -> (acts: Vec<Act>)
        requires
            old(self).wf(),
        ensures
            final(self).wf(),
            *final(self) == (SuperLfo {
                store: old(self).settings_0(shift),
                flash: if shift && !old(self).long[0] {
                    spec_array_update(old(self).flash, 0, BUTTON_FLASH_MS)
                } else {
                    old(self).flash
                },
                ..*old(self)
            }),
            acts@ == old(self).release_acts_0(shift),
    {
        let ghost s0 = *self;
        if self.long[0] {
            if shift || self.moved[0] {
                return Vec::new();
            }
            self.store.in_mute = !self.store.in_mute;
            return one(Act::Save);
        }
        if shift {
            let dest: usize = (self.store.dest + 1) % 9;
            self.store.dest = dest;
            self.flash[0] = BUTTON_FLASH_MS;
            assert(self.flash =~= spec_array_update(s0.flash, 0, BUTTON_FLASH_MS));
            return saved_with(
                Act::Flash { chan: 0, led: Led::Button, color: dest_color(dest), times: 3 },
            );
        }
        self.store.frozen = !self.store.frozen;
        if self.store.frozen {
            saved_with(
                Act::Light {
                    chan: 0,
                    led: Led::Button,
                    color: Color::White,
                    bright: Brightness::Low,
                },
            )
        } else {
            one(Act::Save)
        }
    }

    /// State, acts and whether the position is reset when the button of
    /// channel 1 goes up: a reversal, a phase reset, or after a long press the
    /// output's mute, unless the fader was moved.
    pub open spec fn released_1(self, shift: bool, tick: u64) -> (SuperLfo, Seq<Act>, bool) {
        let long = self.long[1];
        let st = self.store;
        if long && (shift || self.moved[1]) {
            (self, Seq::empty(), false)
        } else if shift {
            (
                SuperLfo {
                    store: (Storage { reversed: !st.reversed, ..st }),
                    reverse_fade_up: st.reversed,
                    reverse_fade: REVERSE_FADE_MS,
                    ..self
                },
                seq![Act::Save],
                false,
            )
        } else if !long {
            (SuperLfo { phase_origin: tick, ..self }, Seq::empty(), true)
        } else {
            (
                SuperLfo { store: (Storage { out_muted: !st.out_muted, ..st }), ..self },
                if !st.out_muted {
                    seq![Act::Save, Act::Dark { chan: 1, led: Led::Button }]
                } else {
                    seq![Act::Save]
                },
                false,
            )
        }
    }

    /// The button of channel 1 goes up. Returns the acts, and whether the
    /// position is to be reset.
    pub fn on_up_1(&mut self, shift: bool, tick: u64) -> (r: (Vec<Act>, bool))
        requires
            old(self).wf(),
        ensures
            final(self).wf(),
            *final(self) == old(self).released_1(shift, tick).0,
            r.0@ == old(self).released_1(shift, tick).1,
            r.1 == old(self).released_1(shift, tick).2,
    {
        let long = self.long[1];
        if long && (shift || self.moved[1]) {
            return (Vec::new(), false);
        }
        if shift {
            self.reverse_fade_up = self.store.reversed;
            self.store.reversed = !self.store.reversed;
            self.reverse_fade = REVERSE_FADE_MS;
            return (one(Act::Save), false);
        }
        if !long {
            self.phase_origin = tick;
            return (Vec::new(), true);
        }
        self.store.out_muted = !self.store.out_muted;
        if self.store.out_muted {
            (saved_with(Act::Dark { chan: 1, led: Led::Button }), false)
        } else {
            (one(Act::Save), false)
        }
    }

    /// State and acts when a button has been held for long: with shift, the
    /// next mix mode on channel 0, the clock sync on channel 1. `running` says
    /// whether the clock runs: a sync with a stopped clock holds at once.
    pub open spec fn held_long(self, chan: usize, shift: bool, running: bool) -> (
        SuperLfo,
        Seq<Act>,
    ) {
        let s = SuperLfo { long: spec_array_update(self.long, chan as int, true), ..self };
        let mode = ((s.mix_mode + 1) % 4) as usize;
        let clocked = !s.store.clocked;
        if !shift {
            (s, Seq::empty())
        } else if chan == 0 {
            (
                SuperLfo {
                    mix_mode: mode,
                    flash: spec_array_update(s.flash, 0, BUTTON_FLASH_MS),
                    ..s
                },
                seq![
                    Act::Flash {
                        chan: 0,
                        led: Led::Button,
                        color: mix_mode_hue(mode as int),
                        times: 3,
                    },
                ],
            )
        } else if clocked {
            (
                SuperLfo {
                    store: (Storage { clocked, ..s.store }),
                    clock_held: s.clock_held || !running,
                    flash: spec_array_update(s.flash, 1, BUTTON_FLASH_MS),
                    ..s
                },
                seq![
                    Act::Save,
                    Act::Flash {
                        chan: 1,
                        led: Led::Button,
                        color: morph_hue(s.store.morph as int),
                        times: 4,
                    },
                ],
            )
        } else {
            (
                SuperLfo {
                    store: (Storage { clocked, ..s.store }),
                    clock_held: false,
                    ..s
                },
                seq![Act::Save],
            )
        }
    }

    #[verifier::rlimit(40)]
    pub fn on_long_press(&mut self, chan: usize, shift: bool, running: bool) -> (acts: Vec<Act>)
        requires
            old(self).wf(),
            chan < 2,
        ensures
            final(self).wf(),
            (*final(self), acts@) == old(self).held_long(chan, shift, running),
    {
        let ghost s0 = *self;
        self.long[chan] = true;
        assert(self.long =~= spec_array_update(s0.long, chan as int, true));
        if !shift {
            return Vec::new();
        }
        if chan == 0 {
            let mode: usize = (self.mix_mode + 1) % 4;
            self.mix_mode = mode;
            self.flash[0] = BUTTON_FLASH_MS;
            assert(self.flash =~= spec_array_update(s0.flash, 0, BUTTON_FLASH_MS));
            return one(
                Act::Flash { chan: 0, led: Led::Button, color: mix_mode_color(mode), times: 3 },
            );
        }
        self.store.clocked = !self.store.clocked;
        let mut acts = one(Act::Save);
        if self.store.clocked {
            if !running {
                self.clock_held = true;
            }
            self.flash[1] = BUTTON_FLASH_MS;
            assert(self.flash =~= spec_array_update(s0.flash, 1, BUTTON_FLASH_MS));
            acts.push(
                Act::Flash {
                    chan: 1,
                    led: Led::Button,
                    color: morph_color(self.store.morph),
                    times: 4,
                },
            );
        } else {
            self.clock_held = false;
        }
        assert(acts@ =~= s0.held_long(chan, shift, running).1);
        acts
    }

    /// Ticks in a cycle.
    pub open spec fn cycle(self) -> int {
        self.div as int * self.speed_mult as int
    }

    /// A clock tick releases a hold. Where the oscillator is locked to the
    /// clock and not frozen, returns the ticks into the cycle and the length
    /// of the cycle: the position that the oscillator takes, or its mirror
    /// image where it runs in reverse.
    pub fn on_tick(&mut self, tick: u64) -> (r: Option<(u64, u64)>)
        requires
            old(self).wf(),
        ensures
            final(self).wf(),
            *final(self) == (SuperLfo {
                ticked: true,
                clock_held: old(self).clock_held && !old(self).store.clocked,
                ..*old(self)
            }),
            r == if old(self).store.clocked && old(self).phase_lock && !old(self).store.frozen {
                Some(
                    (
                        (ticks_since(tick, old(self).phase_origin) % old(self).cycle()) as u64,
                        old(self).cycle() as u64,
                    ),
                )
            } else {
                None
            },
            r matches Some((phase, cycle)) ==> phase < cycle,
    {
        self.ticked = true;
        if self.store.clocked {
            self.clock_held = false;
        }
        if self.store.clocked && self.phase_lock && !self.store.frozen {
            let (d, m): (u64, u64) = (self.div as u64, self.speed_mult as u64);
            assert(6 <= d * m <= 384 * 0x8000_0000) by (nonlinear_arith)
                requires
                    6 <= d <= 384,
                    1 <= m <= 0x8000_0000,
            ;
            let cycle: u64 = d * m;
            let since: u64 = tick.wrapping_sub(self.phase_origin);
            assert(since == ticks_since(tick, self.phase_origin));
            Some((since % cycle, cycle))
        } else {
            None
        }
    }

    /// The transport starts or stops: a stop holds a clocked oscillator.
    pub fn on_transport(&mut self, running: bool)
        requires
            old(self).wf(),
        ensures
            final(self).wf(),
            *final(self) == (SuperLfo {
                clock_held: if old(self).store.clocked { !running } else { old(self).clock_held },
                ..*old(self)
            }),
    {
        if self.store.clocked {
            self.clock_held = !running;
        }
    }

    /// The clock is reset: back to the grid. The position is to be reset too; a
    /// hold stays.
    pub fn on_reset(&mut self)
        requires
            old(self).wf(),
        ensures
            final(self).wf(),
            *final(self) == (SuperLfo { phase_origin: 0, ..*old(self) }),
    {
        self.phase_origin = 0;
    }

    /// The stored settings have been replaced by those of a scene.
    pub fn on_scene(&mut self, store: Storage) -> (a: Act)
        requires
            old(self).wf(),
            store.valid(),
        ensures
            final(self).wf(),
            *final(self) == (SuperLfo {
                store,
                div: div_at(store.layer_speed as int) as u16,
                ..*old(self)
            }),
            a == if store.out_muted {
                Act::Dark { chan: 1, led: Led::Button }
            } else {
                lit(1, Led::Button, morph_hue(store.morph as int), Brightness::Mid)
            },
    {
        self.store = store;
        self.div = division_for(store.layer_speed);
        if store.out_muted {
            Act::Dark { chan: 1, led: Led::Button }
        } else {
            Act::Light {
                chan: 1,
                led: Led::Button,
                color: morph_color(store.morph),
                bright: Brightness::Mid,
            }
        }
    }
}

/// A freeze by hand holds whatever the transport does; without one only a
/// stopped clock does.
pub proof fn transport_keeps_the_freeze(s: SuperLfo)
    ensures
        s.store.frozen ==> s.holds(),
        (SuperLfo { clock_held: false, ..s }).holds() == s.store.frozen,
{
}

} // verus!
