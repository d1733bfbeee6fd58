//! Multi-shape low frequency oscillator, free-running or locked to the clock.
//!
//! The oscillator's position itself is kept by the caller; this module decides
//! when it is reset, where the clock puts it, and what goes out.

use crate::bounded::{param_values, values_of};
use crate::panel::{
    min_int, one, push_all, reads, reads_all, Act, Brightness, Color, LatchLayer, Led, MidiOut,
    ParamSlot, Range, Value,
};
use vstd::arithmetic::power2::{lemma2_to64, lemma_pow2_strictly_increases, lemma_pow2_unfold, pow2};
use vstd::prelude::*;

verus! {

pub const CHANNELS: usize = 1;
pub const PARAMS: usize = 7;

/// Divisions in clock ticks, slow to fast.
pub const RESOLUTION: [u16; 9] = [384, 192, 96, 48, 24, 16, 12, 8, 6];
/// Frames between two MIDI values.
pub const MIDI_PACE: u8 = 10;
/// Frames between two updates of the LEDs.
pub const LED_PACE: u8 = 4;

// ---------------------------------------------------------------------------
// Parameters and settings
// ---------------------------------------------------------------------------

#[derive(Clone, Copy, Debug, PartialEq, Eq, Structural)]
pub struct Params {
    pub speed_mult: usize,
    pub range: Range,
    pub midi_out: MidiOut,
    pub midi_channel: u8,
    pub midi_cc: u16,
    pub nrpn: bool,
    pub phase_lock: bool,
}

impl Params {
    pub open spec fn values(self) -> Seq<Value> {
        seq![
            Value::Enum(self.speed_mult),
            Value::Range(self.range),
            Value::MidiChannel(self.midi_channel),
            Value::MidiCc(self.midi_cc),
            Value::MidiNrpn(self.nrpn),
            Value::MidiOut(self.midi_out),
            Value::Bool(self.phase_lock),
        ]
    }

    pub open spec fn from_slots(s: Seq<ParamSlot>) -> Option<Params> {
        if s.len() < 7 {
            None
        } else {
            Some(
                Params {
                    speed_mult: s[0].as_index,
                    range: s[1].as_range,
                    midi_out: s[5].as_midi_out,
                    midi_channel: s[2].as_channel,
                    midi_cc: s[3].as_cc,
                    nrpn: s[4].as_bool,
                    phase_lock: s[6].as_bool,
                },
            )
        }
    }

    pub fn from_values(values: &[ParamSlot]) -> (r: Option<Params>)
        ensures
            r == Params::from_slots(values@),
    {
        if values.len() < 7 {
            return None;
        }
        Some(
            Params {
                speed_mult: values[0].as_index,
                range: values[1].as_range,
                midi_out: values[5].as_midi_out,
                midi_channel: values[2].as_channel,
                midi_cc: values[3].as_cc,
                nrpn: values[4].as_bool,
                phase_lock: values[6].as_bool,
            },
        )
    }

    pub fn to_values(&self) -> (v: heapless::Vec<Value, 16>)
        ensures
            param_values(v) == self.values(),
    {
        let items: [Value; 7] = [
            Value::Enum(self.speed_mult),
            Value::Range(self.range),
            Value::MidiChannel(self.midi_channel),
            Value::MidiCc(self.midi_cc),
            Value::MidiNrpn(self.nrpn),
            Value::MidiOut(self.midi_out),
            Value::Bool(self.phase_lock),
        ];
        assert(items@ =~= self.values());
        values_of(&items)
    }
}

/// Stored parameters read back as they were.
pub proof fn params_round_trip(p: Params, slots: Seq<ParamSlot>)
    requires
        reads_all(slots, p.values()),
    ensures
        Params::from_slots(slots) == Some(p),
{
    assert forall|i: int| 0 <= i < 7 implies reads(#[trigger] slots[i], p.values()[i]) by {}
    let (s0, s1, s2, s3) = (slots[0], slots[1], slots[2], slots[3]);
    let (s4, s5, s6) = (slots[4], slots[5], slots[6]);
}

#[derive(Clone, Copy, Debug, PartialEq, Eq, Structural)]
pub enum Waveform {
    Sine,
    Triangle,
    Saw,
    SawInv,
    Square,
}

#[derive(Clone, Copy, Debug, PartialEq, Eq, Structural)]
pub struct Storage {
    pub clocked: bool,
    pub layer_attenuation: u16,
    pub layer_speed: u16,
    pub wave: Waveform,
    pub muted: bool,
}

impl Default for Storage {
    fn default() -> (r: Self)
        ensures
            r == (Storage {
                clocked: false,
                layer_attenuation: 4095,
                layer_speed: 2000,
                wave: Waveform::Sine,
                muted: false,
            }),
    {
        Storage {
            clocked: false,
            layer_attenuation: 4095,
            layer_speed: 2000,
            wave: Waveform::Sine,
            muted: false,
        }
    }
}

pub open spec fn wave_hue(wave: Waveform) -> Color {
    match wave {
        Waveform::Sine => Color::Yellow,
        Waveform::Triangle => Color::Pink,
        Waveform::Saw => Color::Cyan,
        Waveform::SawInv => Color::Red,
        Waveform::Square => Color::White,
    }
}

pub fn get_color_for(wave: Waveform) -> (c: Color)
    ensures
        c == wave_hue(wave),
{
    match wave {
        Waveform::Sine => Color::Yellow,
        Waveform::Triangle => Color::Pink,
        Waveform::Saw => Color::Cyan,
        Waveform::SawInv => Color::Red,
        Waveform::Square => Color::White,
    }
}

/// No two shapes share a colour.
pub proof fn shapes_differ_in_color(a: Waveform, b: Waveform)
    requires
        a != b,
    ensures
        wave_hue(a) != wave_hue(b),
{
}

// ---------------------------------------------------------------------------
// Speeds and phases
// ---------------------------------------------------------------------------

/// A speed setting slows the oscillator by a power of two.
pub open spec fn slowdown(speed: int) -> int {
    pow2(min_int(speed, 31) as nat) as int
}

pub fn speed_divisor(speed: usize) -> (r: u32)
    ensures
        r == slowdown(speed as int),
        1 <= r <= 0x8000_0000,
{
    let n: usize = if speed < 31 { speed } else { 31 };
    let mut m: u32 = 1;
    let mut i: usize = 0;
    proof {
        lemma2_to64();
    }
    while i < n
        invariant
            i <= n <= 31,
            m == pow2(i as nat),
            m >= 1,
        decreases n - i,
    {
        proof {
            lemma2_to64();
            lemma_pow2_strictly_increases(i as nat, 31);
            lemma_pow2_unfold((i + 1) as nat);
        }
        m = m * 2;
        i = i + 1;
    }
    proof {
        lemma2_to64();
        if n < 31 {
            lemma_pow2_strictly_increases(n as nat, 31);
        }
    }
    m
}

pub open spec fn div_at(speed: int) -> int {
    RESOLUTION[min_int(speed / 500, 8)] as int
}

pub fn division_for(speed: u16) -> (r: u16)
    ensures
        r == div_at(speed as int),
        6 <= r <= 384,
{
    let i: usize = (speed / 500) as usize;
    RESOLUTION[if i < 8 {
        i
    } else {
        8
    }]
}

/// Ticks since an origin, on a counter that wraps around.
pub open spec fn ticks_since(tick: u64, origin: u64) -> int {
    (tick - origin) % 0x1_0000_0000_0000_0000
}

// ---------------------------------------------------------------------------
// The running app
// ---------------------------------------------------------------------------

/// State of the app between events.
#[derive(Clone, Copy, Debug, PartialEq, Eq, Structural)]
pub struct Lfo {
    pub range: Range,
    pub midi_cc: u16,
    pub midi_on: bool,
    pub phase_lock: bool,
    pub speed_mult: u32,
    /// Colour of the shape at the start.
    pub start_color: Color,
    pub store: Storage,
    pub layer: LatchLayer,
    /// A clock tick has come since the last frame.
    pub ticked: bool,
    /// Frames since the last tick, and between the last two.
    pub frames: u32,
    pub frames_per_tick: u32,
    pub div: u16,
    /// Clock tick at which the phase is zero; 0 locks to the clock's grid.
    pub phase_origin: u64,
    pub long_press_fired: bool,
    pub last_val: Option<u16>,
    pub midi_pace: u8,
    pub led_pace: u8,
}

/// Button of a state that is muted or not.
pub open spec fn button_act(muted: bool, color: Color) -> Act {
    if muted {
        Act::Dark { chan: 0, led: Led::Button }
    } else {
        Act::Light { chan: 0, led: Led::Button, color, bright: Brightness::Mid }
    }
}

fn button_light(muted: bool, color: Color) -> (a: Act)
    ensures
        a == button_act(muted, color),
{
    if muted {
        Act::Dark { chan: 0, led: Led::Button }
    } else {
        Act::Light { chan: 0, led: Led::Button, color, bright: Brightness::Mid }
    }
}

impl Lfo {
    pub open spec fn wf(self) -> bool {
        &&& 1 <= self.speed_mult <= 0x8000_0000
        &&& 6 <= self.div <= 384
        &&& self.midi_pace < MIDI_PACE
        &&& self.led_pace < LED_PACE
    }

    pub fn new(params: Params, store: Storage) -> (r: (Self, Vec<Act>))
        ensures
            r.0.wf(),
            r.0 == (Lfo {
                range: params.range,
                midi_cc: params.midi_cc,
                midi_on: params.midi_out.any(),
                phase_lock: params.phase_lock,
                speed_mult: slowdown(params.speed_mult as int) as u32,
                start_color: wave_hue(store.wave),
                store,
                layer: LatchLayer::Main,
                ticked: false,
                frames: 0,
                frames_per_tick: 20,
                div: div_at(store.layer_speed as int) as u16,
                phase_origin: 0,
                long_press_fired: false,
                last_val: None,
                midi_pace: 0,
                led_pace: 0,
            }),
            r.1@ == if store.muted {
                Seq::<Act>::empty()
            } else {
                seq![button_act(false, wave_hue(store.wave))]
            },
    {
        let color = get_color_for(store.wave);
        let s = Lfo {
            range: params.range,
            midi_cc: params.midi_cc,
            midi_on: params.midi_out.is_some(),
            phase_lock: params.phase_lock,
            speed_mult: speed_divisor(params.speed_mult),
            start_color: color,
            store,
            layer: LatchLayer::Main,
            ticked: false,
            frames: 0,
            frames_per_tick: 20,
            div: division_for(store.layer_speed),
            phase_origin: 0,
            long_press_fired: false,
            last_val: None,
            midi_pace: 0,
            led_pace: 0,
        };
        let acts = if store.muted {
            Vec::new()
        } else {
            one(button_light(false, color))
        };
        (s, acts)
    }

    /// State with the division of the stored speed. A change of division
    /// aligns the phase to the clock's grid again.
    pub open spec fn with_speed(self) -> Lfo {
        let div = div_at(self.store.layer_speed as int) as u16;
        Lfo { div, phase_origin: if div != self.div { 0 } else { self.phase_origin }, ..self }
    }

    fn update_speed(&mut self)
        ensures
            *final(self) == old(self).with_speed(),
            6 <= final(self).div <= 384,
    {
        let div: u16 = division_for(self.store.layer_speed);
        if div != self.div {
            self.div = div;
            self.phase_origin = 0;
        }
    }

    /// Begin a frame: take over the layer, and the number of frames between
    /// two ticks where a tick has come.
    pub fn begin_frame(&mut self, shift: bool)
        requires
            old(self).wf(),
            old(self).frames < u32::MAX,
        ensures
            final(self).wf(),
            *final(self) == (Lfo {
                layer: if shift { LatchLayer::Alt } else { LatchLayer::Main },
                frames: if old(self).ticked { 0 } else { (old(self).frames + 1) as u32 },
                frames_per_tick: if old(self).ticked {
                    (old(self).frames + 1) as u32
                } else {
                    old(self).frames_per_tick
                },
                ticked: false,
                ..*old(self)
            }),
    {
        self.layer = if shift {
            LatchLayer::Alt
        } else {
            LatchLayer::Main
        };
        self.frames = self.frames + 1;
        if self.ticked {
            self.frames_per_tick = self.frames;
            self.frames = 0;
            self.ticked = false;
        }
    }

    /// What goes out: a muted oscillator rests in the middle of a bipolar
    /// range, at the bottom of the others.
    pub open spec fn out_value(self, val: int) -> int {
        if !self.store.muted {
            val
        } else if self.range.bipolar() {
            2047
        } else {
            0
        }
    }

    pub fn effective_value(&self, val: u16) -> (r: u16)
        ensures
            r == self.out_value(val as int),
    {
        if !self.store.muted {
            val
        } else if self.range.is_bipolar() {
            2047
        } else {
            0
        }
    }

    /// The LEDs of a frame.
    pub open spec fn lights(self, val: u16, pos: u16) -> Seq<Act> {
        let color = wave_hue(self.store.wave);
        seq![
            if !self.store.muted && self.store.clocked && pos > 2048 {
                Act::Light { chan: 0, led: Led::Button, color, bright: Brightness::Low }
            } else {
                button_act(self.store.muted, color)
            },
        ] + (match self.layer {
            LatchLayer::Main => if self.range.bipolar() {
                seq![Act::Meter { chan: 0, color, level: val, top_floor: 0, bottom_floor: 0 }]
            } else {
                seq![
                    Act::Light {
                        chan: 0,
                        led: Led::Top,
                        color,
                        bright: Brightness::Custom((val as int / 16 % 256) as u8),
                    },
                    Act::Light { chan: 0, led: Led::Bottom, color, bright: Brightness::Custom(0) },
                ]
            },
            LatchLayer::Alt => seq![
                Act::Light {
                    chan: 0,
                    led: Led::Top,
                    color: Color::Red,
                    bright: Brightness::Custom((self.store.layer_attenuation as int / 16 / 2 % 256) as u8),
                },
                Act::Dark { chan: 0, led: Led::Bottom },
            ],
            LatchLayer::Third => Seq::empty(),
        })
    }

    fn paint(&self, val: u16, pos: u16) -> (acts: Vec<Act>)
        requires
            self.wf(),
        ensures
            acts@ == self.lights(val, pos),
    {
        let color = get_color_for(self.store.wave);
        let mut acts = if !self.store.muted && self.store.clocked && pos > 2048 {
            one(Act::Light { chan: 0, led: Led::Button, color, bright: Brightness::Low })
        } else {
            one(button_light(self.store.muted, color))
        };
        match self.layer {
            LatchLayer::Main => {
                if self.range.is_bipolar() {
                    acts.push(
                        Act::Meter { chan: 0, color, level: val, top_floor: 0, bottom_floor: 0 },
                    );
                } else {
                    acts.push(
                        Act::Light {
                            chan: 0,
                            led: Led::Top,
                            color,
                            bright: Brightness::Custom((val / 16 % 256) as u8),
                        },
                    );
                    acts.push(
                        Act::Light { chan: 0, led: Led::Bottom, color, bright: Brightness::Custom(0) },
                    );
                }
            },
            LatchLayer::Alt => {
                acts.push(
                    Act::Light {
                        chan: 0,
                        led: Led::Top,
                        color: Color::Red,
                        bright: Brightness::Custom((self.store.layer_attenuation / 16 / 2 % 256) as u8),
                    },
                );
                acts.push(Act::Dark { chan: 0, led: Led::Bottom });
            },
            LatchLayer::Third => {},
        }
        assert(acts@ =~= self.lights(val, pos));
        acts
    }

    /// State and acts of the rest of a frame.
    pub open spec fn framed(self, val: u16, pos: u16, gate_val: u16) -> (Lfo, Seq<Act>) {
        let out = self.out_value(val as int) as u16;
        let midi_due = self.midi_on && self.midi_pace + 1 >= MIDI_PACE;
        let sends = midi_due && self.last_val != Some(gate_val);
        let led_due = self.led_pace + 1 >= LED_PACE;
        (
            Lfo {
                midi_pace: if !self.midi_on {
                    self.midi_pace
                } else if midi_due {
                    0
                } else {
                    (self.midi_pace + 1) as u8
                },
                last_val: if sends { Some(gate_val) } else { self.last_val },
                led_pace: if led_due { 0 } else { (self.led_pace + 1) as u8 },
                ..self
            },
            seq![Act::Cv { jack: 0, val: out }] + (if sends {
                seq![Act::Cc { out: 0, cc: self.midi_cc, val: out }]
            } else {
                Seq::empty()
            }) + (if led_due { self.lights(val, pos) } else { Seq::empty() }),
        )
    }

    /// End a frame with the attenuated sample `val` at position `pos`.
    /// `gate_val` is the effective value as the MIDI side resolves it.
    pub fn end_frame(&mut self, val: u16, pos: u16, gate_val: u16) -> (acts: Vec<Act>)
        requires
            old(self).wf(),
        ensures
            final(self).wf(),
            (*final(self), acts@) == old(self).framed(val, pos, gate_val),
    {
        let ghost s0 = *self;
        let out: u16 = self.effective_value(val);
        let mut acts = one(Act::Cv { jack: 0, val: out });
        if self.midi_on {
            self.midi_pace = self.midi_pace + 1;
            if self.midi_pace >= MIDI_PACE {
                self.midi_pace = 0;
                let same = match self.last_val {
                    Some(v) => v == gate_val,
                    None => false,
                };
                if !same {
                    acts.push(Act::Cc { out: 0, cc: self.midi_cc, val: out });
                    self.last_val = Some(gate_val);
                }
            }
        }
        self.led_pace = self.led_pace + 1;
        if self.led_pace >= LED_PACE {
            self.led_pace = 0;
            let lights = self.paint(val, pos);
            push_all(&mut acts, lights);
        }
        assert(acts@ =~= s0.framed(val, pos, gate_val).1);
        acts
    }

    /// Value that the fader has to pass before it takes over.
    pub fn fader_target(&self) -> (r: u16)
        ensures
            r == match self.layer {
                LatchLayer::Main => self.store.layer_speed,
                LatchLayer::Alt => self.store.layer_attenuation,
                LatchLayer::Third => 0,
            },
    {
        match self.layer {
            LatchLayer::Main => self.store.layer_speed,
            LatchLayer::Alt => self.store.layer_attenuation,
            LatchLayer::Third => 0,
        }
    }

    /// The fader has taken over its layer with a value.
    pub fn on_fader(&mut self, v: u16) -> (acts: Vec<Act>)
        requires
            old(self).wf(),
            v <= 4095,
        ensures
            final(self).wf(),
            match old(self).layer {
                LatchLayer::Main => acts@ == seq![Act::Save] && *final(self) == (Lfo {
                    store: (Storage { layer_speed: v, ..old(self).store }),
                    ..*old(self)
                }).with_speed(),
                LatchLayer::Alt => acts@ == seq![Act::Save] && *final(self) == (Lfo {
                    store: (Storage { layer_attenuation: v, ..old(self).store }),
                    ..*old(self)
                }),
                LatchLayer::Third => acts@ == Seq::<Act>::empty() && *final(self) == *old(self),
            },
    {
        match self.layer {
            LatchLayer::Main => {
                self.store.layer_speed = v;
                self.update_speed();
                one(Act::Save)
            },
            LatchLayer::Alt => {
                self.store.layer_attenuation = v;
                one(Act::Save)
            },
            LatchLayer::Third => Vec::new(),
        }
    }

    /// The button goes down. With shift the phase starts over at this tick,
    /// which pushes a clocked oscillator off the grid. Returns whether the
    /// position is to be reset.
    pub fn on_press(&mut self, shift: bool, tick: u64) -> (reset: bool)
        requires
            old(self).wf(),
        ensures
            final(self).wf(),
            reset == shift,
            *final(self) == (Lfo {
                phase_origin: if shift { tick } else { old(self).phase_origin },
                long_press_fired: old(self).long_press_fired && shift,
                ..*old(self)
            }),
    {
        if shift {
            self.phase_origin = tick;
            true
        } else {
            self.long_press_fired = false;
            false
        }
    }

    /// The button goes up after a press without shift: a short one goes on to
    /// the next shape.
    pub fn on_release(&mut self, next: Waveform) -> (acts: Vec<Act>)
        requires
            old(self).wf(),
        ensures
            final(self).wf(),
            if old(self).long_press_fired {
                *final(self) == *old(self) && acts@ == Seq::<Act>::empty()
            } else {
                &&& *final(self) == (Lfo {
                    store: (Storage { wave: next, ..old(self).store }),
                    ..*old(self)
                })
                &&& acts@ == if old(self).store.muted {
                    seq![Act::Save]
                } else {
                    seq![Act::Save, button_act(false, wave_hue(next))]
                }
            },
    {
        if self.long_press_fired {
            return Vec::new();
        }
        self.store.wave = next;
        let mut acts = one(Act::Save);
        if !self.store.muted {
            acts.push(button_light(false, get_color_for(next)));
            assert(acts@ =~= seq![Act::Save, button_act(false, wave_hue(next))]);
        }
        acts
    }

    /// A long press: with shift it toggles the clock, without it mutes.
    pub fn on_long_press(&mut self, shift: bool) -> (acts: Vec<Act>)
        requires
            old(self).wf(),
        ensures
            final(self).wf(),
            ({
                let clocked = !old(self).store.clocked;
                let muted = !old(self).store.muted;
                if shift {
                    &&& *final(self) == (Lfo {
                        store: (Storage { clocked, ..old(self).store }),
                        ..*old(self)
                    })
                    &&& acts@ == if clocked {
                        seq![
                            Act::Save,
                            Act::Flash {
                                chan: 0,
                                led: Led::Button,
                                color: old(self).start_color,
                                times: 4,
                            },
                        ]
                    } else {
                        seq![Act::Save]
                    }
                } else {
                    &&& *final(self) == (Lfo {
                        long_press_fired: true,
                        store: (Storage { muted, ..old(self).store }),
                        ..*old(self)
                    })
                    &&& acts@ == seq![Act::Save, button_act(muted, wave_hue(old(self).store.wave))]
                }
            }),
    {
        let ghost s0 = *self;
        let mut acts = one(Act::Save);
        if shift {
            self.store.clocked = !self.store.clocked;
            if self.store.clocked {
                acts.push(
                    Act::Flash { chan: 0, led: Led::Button, color: self.start_color, times: 4 },
                );
                assert(acts@ =~= seq![
                    Act::Save,
                    Act::Flash { chan: 0, led: Led::Button, color: s0.start_color, times: 4 },
                ]);
            }
        } else {
            self.long_press_fired = true;
            self.store.muted = !self.store.muted;
            acts.push(button_light(self.store.muted, get_color_for(self.store.wave)));
            assert(acts@ =~= seq![
                Act::Save,
                button_act(!s0.store.muted, wave_hue(s0.store.wave)),
            ]);
        }
        acts
    }

    /// Ticks in a cycle.
    pub open spec fn cycle(self) -> int {
        self.div as int * self.speed_mult as int
    }

    /// Ticks into the cycle at a tick.
    pub open spec fn phase_at(self, tick: u64) -> int {
        ticks_since(tick, self.phase_origin) % self.cycle()
    }

    /// A clock tick. Where the oscillator is locked to the clock, returns the
    /// ticks into the cycle and the length of the cycle: the position that the
    /// oscillator takes.
    pub fn on_tick(&mut self, tick: u64) -> (r: Option<(u64, u64)>)
        requires
            old(self).wf(),
        ensures
            final(self).wf(),
            *final(self) == (Lfo { ticked: true, ..*old(self) }),
            r == if old(self).store.clocked && old(self).phase_lock {
                Some((old(self).phase_at(tick) as u64, old(self).cycle() as u64))
            } else {
                None
            },
            r matches Some((phase, cycle)) ==> phase < cycle,
    {
        self.ticked = true;
        if self.store.clocked && self.phase_lock {
            let (d, m): (u64, u64) = (self.div as u64, self.speed_mult as u64);
            assert(6 <= d * m <= 384 * 0x8000_0000) by (nonlinear_arith)
                requires
                    6 <= d <= 384,
                    1 <= m <= 0x8000_0000,
            ;
            let cycle: u64 = d * m;
            let since: u64 = tick.wrapping_sub(self.phase_origin);
            assert(since == ticks_since(tick, self.phase_origin));
            Some((since % cycle, cycle))
        } else {
            None
        }
    }

    /// The clock is reset: back to the grid. The position is to be reset too.
    pub fn on_reset(&mut self)
        requires
            old(self).wf(),
        ensures
            final(self).wf(),
            *final(self) == (Lfo { phase_origin: 0, ..*old(self) }),
    {
        self.phase_origin = 0;
    }

    /// The stored settings have been replaced by those of a scene.
    pub fn on_scene(&mut self, store: Storage) -> (a: Act)
        requires
            old(self).wf(),
        ensures
            final(self).wf(),
            *final(self) == (Lfo { store, ..*old(self) }).with_speed(),
            a == button_act(store.muted, wave_hue(store.wave)),
    {
        self.store = store;
        self.update_speed();
        button_light(store.muted, get_color_for(store.wave))
    }
}

/// Two ticks that are whole cycles apart find the oscillator at the same phase.
pub proof fn phase_repeats_every_cycle(s: Lfo, tick: u64, n: int)
    requires
        s.wf(),
        s.phase_origin <= tick,
        0 <= n,
        tick + n * s.cycle() <= u64::MAX,
    ensures
        s.phase_at((tick + n * s.cycle()) as u64) == s.phase_at(tick),
{
    let c = s.cycle();
    assert(c > 0 && 0 <= n * c) by (nonlinear_arith)
        requires
            c == s.div as int * s.speed_mult as int,
            s.div >= 6,
            s.speed_mult >= 1,
            0 <= n,
    ;
    let a = tick - s.phase_origin;
    let b = tick + n * c - s.phase_origin;
    assert(ticks_since(tick, s.phase_origin) == a);
    assert(ticks_since((tick + n * c) as u64, s.phase_origin) == b);
    vstd::arithmetic::div_mod::lemma_mod_multiples_vanish(n, a, c);
    assert(b == c * n + a) by (nonlinear_arith)
        requires
            a == tick - s.phase_origin,
            b == tick + n * c - s.phase_origin,
    ;
}

/// A manual reset puts the phase at zero at the tick of the reset.
pub proof fn reset_starts_the_cycle(s: Lfo, tick: u64)
    requires
        s.wf(),
        s.phase_origin == tick,
    ensures
        s.phase_at(tick) == 0,
{
    assert(s.cycle() > 0) by (nonlinear_arith)
        requires
            s.cycle() == s.div as int * s.speed_mult as int,
            s.div >= 6,
            s.speed_mult >= 1,
    ;
    assert(0int % s.cycle() == 0) by (nonlinear_arith)
        requires
            s.cycle() > 0,
    ;
}

} // verus!
