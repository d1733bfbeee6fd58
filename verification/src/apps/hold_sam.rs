//! Clocked sample and hold to MIDI notes or controllers.
//!
//! On every division the input is sampled and sent as a note, held for a share
//! of the division, or as a controller value. An input that does not change is
//! taken to be unpatched and stays silent.

use crate::apps::led_spectrum::{fader_meters, paint_fader_meters, spectrum, spectrum_color};
use crate::bounded::{param_values, values_of};
use crate::panel::{
    abs_diff, clamp_int, dist, layer_for, layer_of, max_int, min_int, one, push_all, reads,
    reads_all, Act, Brightness, Color, LatchLayer, Led, MidiMode, MidiOut, ParamSlot, Range, Value,
    VoltPerOct,
};
use vstd::prelude::*;

verus! {

pub const CHANNELS: usize = 1;
pub const PARAMS: usize = 11;

/// Duck of the button after a controller sample.
pub const BUTTON_DUCK_MS: u16 = 25;
/// Samples this close count as unchanged.
pub const SAMPLE_DEADBAND: u16 = 24;
/// Longest gate by the clock: 384 ticks of just under half a second.
pub const LONGEST_GATE_US: u64 = 192_000_000;
/// After this many unchanged samples in a row the input is idle.
pub const IDLE_TICKS: u8 = 2;
/// Flash after a sample.
pub const SAMPLE_FLASH_MS: u16 = 80;

/// Divisions in clock ticks, slow to fast.
pub const RESOLUTION: [u32; 12] = [384, 192, 96, 48, 24, 16, 12, 8, 6, 4, 3, 2];

// ---------------------------------------------------------------------------
// Parameters and settings
// ---------------------------------------------------------------------------

#[derive(Clone, Copy, Debug, PartialEq, Eq, Structural)]
pub struct Params {
    pub midi_mode: MidiMode,
    pub midi_channel: u8,
    pub midi_note: u8,
    pub midi_cc: u16,
    pub midi_out: MidiOut,
    pub color: Color,
    pub range: Range,
    pub vpo: VoltPerOct,
    pub bypass: bool,
    pub att: i32,
    pub base_velocity: i32,
}

impl Params {
    pub open spec fn values(self) -> Seq<Value> {
        seq![
            Value::MidiMode(self.midi_mode),
            Value::MidiChannel(self.midi_channel),
            Value::MidiNote(self.midi_note),
            Value::MidiCc(self.midi_cc),
            Value::Color(self.color),
            Value::Range(self.range),
            Value::MidiOut(self.midi_out),
            Value::VoltPerOct(self.vpo),
            Value::Bool(self.bypass),
            Value::I32(self.att),
            Value::I32(self.base_velocity),
        ]
    }

    pub open spec fn from_slots(s: Seq<ParamSlot>) -> Option<Params> {
        if s.len() < 11 {
            None
        } else {
            Some(
                Params {
                    midi_mode: s[0].as_midi_mode,
                    midi_channel: s[1].as_channel,
                    midi_note: s[2].as_note,
                    midi_cc: s[3].as_cc,
                    midi_out: s[6].as_midi_out,
                    color: s[4].as_color,
                    range: s[5].as_range,
                    vpo: s[7].as_vpo,
                    bypass: s[8].as_bool,
                    att: s[9].as_int,
                    base_velocity: s[10].as_int,
                },
            )
        }
    }

    pub fn from_values(values: &[ParamSlot]) -> (r: Option<Params>)
        ensures
            r == Params::from_slots(values@),
    {
        if values.len() < 11 {
            return None;
        }
        Some(
            Params {
                midi_mode: values[0].as_midi_mode,
                midi_channel: values[1].as_channel,
                midi_note: values[2].as_note,
                midi_cc: values[3].as_cc,
                midi_out: values[6].as_midi_out,
                color: values[4].as_color,
                range: values[5].as_range,
                vpo: values[7].as_vpo,
                bypass: values[8].as_bool,
                att: values[9].as_int,
                base_velocity: values[10].as_int,
            },
        )
    }

    pub fn to_values(&self) -> (v: heapless::Vec<Value, 16>)
        ensures
            param_values(v) == self.values(),
    {
        let items: [Value; 11] = [
            Value::MidiMode(self.midi_mode),
            Value::MidiChannel(self.midi_channel),
            Value::MidiNote(self.midi_note),
            Value::MidiCc(self.midi_cc),
            Value::Color(self.color),
            Value::Range(self.range),
            Value::MidiOut(self.midi_out),
            Value::VoltPerOct(self.vpo),
            Value::Bool(self.bypass),
            Value::I32(self.att),
            Value::I32(self.base_velocity),
        ];
        assert(items@ =~= self.values());
        values_of(&items)
    }

    /// Attenuverter setting, kept on the fader scale.
    pub fn attenuation(&self) -> (r: u16)
        ensures
            r == clamp_int(self.att as int, 0, 4095),
    {
        if self.att < 0 {
            0
        } else if self.att > 4095 {
            4095
        } else {
            self.att as u16
        }
    }
}

/// Stored parameters read back as they were.
pub proof fn params_round_trip(p: Params, slots: Seq<ParamSlot>)
    requires
        reads_all(slots, p.values()),
    ensures
        Params::from_slots(slots) == Some(p),
{
    assert forall|i: int| 0 <= i < 11 implies reads(#[trigger] slots[i], p.values()[i]) by {}
    let (s0, s1, s2, s3, s4) = (slots[0], slots[1], slots[2], slots[3], slots[4]);
    let (s5, s6, s7, s8, s9) = (slots[5], slots[6], slots[7], slots[8], slots[9]);
    let s10 = slots[10];
}

#[derive(Clone, Copy, Debug, PartialEq, Eq, Structural)]
pub struct Storage {
    /// Main fader: gate share (notes) or amount (controllers).
    pub gate_saved: u16,
    /// Shift and fader: clock division.
    pub res_saved: u16,
    /// Button and fader: velocity sensitivity.
    pub sens_saved: u16,
    pub muted: bool,
}

impl Default for Storage {
    /// A gate of about nine tenths: held, not a short beep.
    fn default() -> (r: Self)
        ensures
            r == (Storage { gate_saved: 3686, res_saved: 2048, sens_saved: 2048, muted: false }),
    {
        Storage { gate_saved: 3686, res_saved: 2048, sens_saved: 2048, muted: false }
    }
}

// ---------------------------------------------------------------------------
// Scales
// ---------------------------------------------------------------------------

pub open spec fn gate_pct(value: int) -> int {
    clamp_int(value * 99 / 4095 + 1, 1, 100)
}

pub fn gate_pct_from_fader(value: u16) -> (r: u32)
    ensures
        r == gate_pct(value as int),
        1 <= r <= 100,
{
    let p: u32 = value as u32 * 99 / 4095 + 1;
    if p > 100 {
        100
    } else {
        p
    }
}

/// Velocity in seven bits: the base, raised by how far the input moved.
pub open spec fn velocity_7bit(base: int, sens: int, delta: int) -> int {
    clamp_int(base + sens * delta / 4095, 1, 127)
}

pub open spec fn velocity(base: int, sens: int, delta: int) -> int {
    velocity_7bit(base, sens, delta) * 4095 / 127
}

pub fn velocity_12bit(base: i32, sens: u16, delta: u16) -> (r: u16)
    requires
        sens * delta <= i32::MAX,
        base + sens * delta / 4095 <= i32::MAX,
    ensures
        r == velocity(base as int, sens as int, delta as int),
{
    assert(0 <= sens * delta) by (nonlinear_arith)
        requires
            0 <= sens,
            0 <= delta,
    ;
    let gain: u32 = sens as u32 * delta as u32 / 4095;
    let v: i32 = base + gain as i32;
    let v7: u32 = if v < 1 {
        1
    } else if v > 127 {
        127
    } else {
        v as u32
    };
    (v7 * 4095 / 127) as u16
}

/// Gate length in clock ticks: a share of the division, which at full share
/// lasts until the next sample.
pub open spec fn gate_len(div: int, gate: int) -> int {
    clamp_int(div * gate_pct(gate) / 100, 1, div)
}

proof fn gate_len_bounds(div: int, gate: int)
    requires
        1 <= div,
        0 <= gate,
    ensures
        1 <= gate_len(div, gate) <= div,
        0 <= div * gate_pct(gate) <= div * 100,
{
    let p = gate_pct(gate);
    assert(0 <= div * p <= div * 100) by (nonlinear_arith)
        requires
            1 <= div,
            1 <= p <= 100,
    ;
}

pub fn gate_ticks(div: u32, gate_saved: u16) -> (r: u64)
    ensures
        r == gate_len(max_int(div as int, 1), gate_saved as int),
        1 <= r <= max_int(div as int, 1),
{
    let pct: u32 = gate_pct_from_fader(gate_saved);
    let d: u64 = if div < 1 { 1 } else { div as u64 };
    proof {
        gate_len_bounds(d as int, gate_saved as int);
    }
    let t: u64 = d * pct as u64 / 100;
    if t < 1 {
        1
    } else if t > d {
        d
    } else {
        t
    }
}

/// A gate lasts at least a tick and at most its division; the full fader holds
/// for all of it.
pub proof fn gates_fit_their_division(div: int, gate: int)
    requires
        1 <= div,
        0 <= gate,
    ensures
        1 <= gate_len(div, gate) <= div,
        gate >= 4095 ==> gate_len(div, gate) == div,
{
    gate_len_bounds(div, gate);
}

/// The velocity is never silent and never falls as the input moves further.
pub proof fn velocity_follows_movement(base: int, sens: int, d1: int, d2: int)
    requires
        0 <= sens,
        0 <= d1 <= d2,
    ensures
        32 <= velocity(base, sens, d1) <= velocity(base, sens, d2) <= 4095,
{
    assert(sens * d1 <= sens * d2) by (nonlinear_arith)
        requires
            0 <= sens,
            d1 <= d2,
    ;
    assert((sens * d1) / 4095 <= (sens * d2) / 4095);
}

/// The base note sounds at 0 V, which the quantizer reads as C0.
pub open spec fn cv_note(base: int, pitch: int) -> int {
    clamp_int(base + pitch - 12, 0, 127)
}

pub fn note_from_cv(base: u8, pitch: u8) -> (r: u8)
    ensures
        r == cv_note(base as int, pitch as int),
        r <= 127,
{
    let n: i32 = base as i32 + pitch as i32 - 12;
    if n < 0 {
        0
    } else if n > 127 {
        127
    } else {
        n as u8
    }
}

pub open spec fn div_at(res: int) -> int {
    RESOLUTION[min_int(res / 345, 11)] as int
}

pub fn division_for(res: u16) -> (r: u32)
    ensures
        r == div_at(res as int),
        2 <= r <= 384,
{
    let i: usize = (res / 345) as usize;
    RESOLUTION[if i < 11 {
        i
    } else {
        11
    }]
}

// ---------------------------------------------------------------------------
// The running app
// ---------------------------------------------------------------------------

/// The input at a moment: the attenuated sample, the note that the quantizer
/// makes of it, and its controller value.
#[derive(Clone, Copy, Debug, PartialEq, Eq, Structural)]
pub struct Reading {
    pub sample: u16,
    pub pitch: u8,
    pub cc: u16,
}

/// State of the app between events. Times are in microseconds.
#[derive(Clone, Copy, Debug, PartialEq, Eq, Structural)]
pub struct HoldSam {
    pub midi_mode: MidiMode,
    pub base_note: u8,
    pub midi_cc: u16,
    pub color: Color,
    pub base_velocity: i32,
    pub store: Storage,
    pub div: u32,
    pub layer: LatchLayer,
    pub stopped: bool,
    /// The note that sounds.
    pub sounding: Option<u8>,
    pub prev_sample: u16,
    pub idle_count: u8,
    /// Clock tick at which its gate ends.
    pub gate_end_tick: u64,
    /// Time at which it ends where the clock does not run.
    pub gate_end_at: u64,
    pub last_tick_at: u64,
    pub tick_period_ms: u64,
    pub button_duck: u16,
    pub sample_flash: u16,
    pub long_press_fired: bool,
    pub fader_moved: bool,
    pub last_fader: u16,
}

/// Button of a state that is muted or not.
pub open spec fn mute_light(muted: bool, color: Color) -> Act {
    if muted {
        Act::Light { chan: 0, led: Led::Button, color: Color::Red, bright: Brightness::Low }
    } else {
        Act::Light { chan: 0, led: Led::Button, color, bright: Brightness::Mid }
    }
}

fn mute_act(muted: bool, color: Color) -> (a: Act)
    ensures
        a == mute_light(muted, color),
{
    if muted {
        Act::Light { chan: 0, led: Led::Button, color: Color::Red, bright: Brightness::Low }
    } else {
        Act::Light { chan: 0, led: Led::Button, color, bright: Brightness::Mid }
    }
}

impl HoldSam {
    pub open spec fn wf(self) -> bool {
        &&& 2 <= self.div <= 384
        &&& 1 <= self.tick_period_ms < 500
        &&& self.last_tick_at + 2_000_000 <= u64::MAX
        &&& self.base_velocity + 4095 <= i32::MAX
        &&& self.store.sens_saved <= 4095
        &&& self.prev_sample <= 4095
    }

    /// Start idle, so that an unpatched jack is silent from the first tick.
    pub fn new(params: Params, store: Storage, now: u64, fader: u16) -> (r: (Self, Act))
        requires
            params.base_velocity + 4095 <= i32::MAX,
            store.sens_saved <= 4095,
            now + 2_000_000 <= u64::MAX,
        ensures
            r.0.wf(),
            r.0 == (HoldSam {
                midi_mode: params.midi_mode,
                base_note: params.midi_note,
                midi_cc: params.midi_cc,
                color: params.color,
                base_velocity: params.base_velocity,
                store,
                div: div_at(store.res_saved as int) as u32,
                layer: LatchLayer::Main,
                stopped: false,
                sounding: None,
                prev_sample: 0,
                idle_count: IDLE_TICKS,
                gate_end_tick: u64::MAX,
                gate_end_at: 0,
                last_tick_at: now,
                tick_period_ms: 21,
                button_duck: 0,
                sample_flash: 0,
                long_press_fired: false,
                fader_moved: false,
                last_fader: fader,
            }),
            r.1 == mute_light(store.muted, params.color),
    {
        let s = HoldSam {
            midi_mode: params.midi_mode,
            base_note: params.midi_note,
            midi_cc: params.midi_cc,
            color: params.color,
            base_velocity: params.base_velocity,
            store,
            div: division_for(store.res_saved),
            layer: LatchLayer::Main,
            stopped: false,
            sounding: None,
            prev_sample: 0,
            idle_count: IDLE_TICKS,
            gate_end_tick: u64::MAX,
            gate_end_at: 0,
            last_tick_at: now,
            tick_period_ms: 21,
            button_duck: 0,
            sample_flash: 0,
            long_press_fired: false,
            fader_moved: false,
            last_fader: fader,
        };
        (s, mute_act(store.muted, params.color))
    }

    pub open spec fn sends_notes(self) -> bool {
        self.midi_mode == MidiMode::Note
    }

    /// State with the time since the last tick taken as the tick period, where
    /// it is a plausible one.
    pub open spec fn timed(self, now: u64) -> HoldSam {
        let dt = if now >= self.last_tick_at { (now - self.last_tick_at) / 1000 } else { 0 };
        HoldSam {
            tick_period_ms: if 1 <= dt < 500 { dt as u64 } else { self.tick_period_ms },
            last_tick_at: now,
            ..self
        }
    }

    /// State and acts when the sounding note is let go.
    pub open spec fn let_go(self) -> (HoldSam, Seq<Act>) {
        match self.sounding {
            Some(n) => (
                HoldSam { sounding: None, gate_end_tick: u64::MAX, ..self },
                seq![
                    Act::NoteOff { out: 0, note: n },
                    Act::Light { chan: 0, led: Led::Top, color: self.color, bright: Brightness::Off },
                ],
            ),
            None => (self, Seq::empty()),
        }
    }

    fn release(&mut self) -> (acts: Vec<Act>)
        ensures
            (*final(self), acts@) == old(self).let_go(),
    {
        let mut acts: Vec<Act> = Vec::new();
        match self.sounding {
            Some(n) => {
                acts.push(Act::NoteOff { out: 0, note: n });
                acts.push(
                    Act::Light { chan: 0, led: Led::Top, color: self.color, bright: Brightness::Off },
                );
                self.sounding = None;
                self.gate_end_tick = u64::MAX;
            },
            None => {},
        }
        assert(acts@ =~= old(self).let_go().1);
        acts
    }

    /// State and acts when a reading that moved by `delta` is sent.
    pub open spec fn sent(self, now: u64, tick: u64, r: Reading, delta: int) -> (HoldSam, Seq<Act>) {
        if self.sends_notes() {
            let note = cv_note(self.base_note as int, r.pitch as int) as u8;
            let len = gate_len(self.div as int, self.store.gate_saved as int);
            (
                HoldSam {
                    sounding: Some(note),
                    sample_flash: SAMPLE_FLASH_MS,
                    gate_end_tick: min_int(tick + len, u64::MAX as int) as u64,
                    gate_end_at: (now + len * self.tick_period_ms * 1000) as u64,
                    ..self
                },
                (match self.sounding {
                    Some(n) => seq![Act::NoteOff { out: 0, note: n }],
                    None => Seq::empty(),
                }) + seq![
                    Act::NoteOn {
                        out: 0,
                        note,
                        vel: velocity(
                            self.base_velocity as int,
                            self.store.sens_saved as int,
                            delta,
                        ) as u16,
                    },
                ],
            )
        } else {
            (
                HoldSam {
                    button_duck: BUTTON_DUCK_MS,
                    sample_flash: SAMPLE_FLASH_MS,
                    ..self
                },
                seq![Act::Cc { out: 0, cc: self.midi_cc, val: r.cc }],
            )
        }
    }

    fn send(&mut self, now: u64, tick: u64, r: Reading, delta: u16) -> (acts: Vec<Act>)
        requires
            old(self).wf(),
            now + LONGEST_GATE_US <= u64::MAX,
            delta <= 4095,
        ensures
            final(self).wf(),
            (*final(self), acts@) == old(self).sent(now, tick, r, delta as int),
    {
        let ghost s0 = *self;
        let mut acts: Vec<Act> = Vec::new();
        assert(0 <= self.store.sens_saved * delta <= 4095 * 4095) by (nonlinear_arith)
            requires
                self.store.sens_saved <= 4095,
                delta <= 4095,
        ;
        match self.midi_mode {
            MidiMode::Note => {
                let note: u8 = note_from_cv(self.base_note, r.pitch);
                let vel: u16 = velocity_12bit(self.base_velocity, self.store.sens_saved, delta);
                match self.sounding {
                    Some(n) => {
                        acts.push(Act::NoteOff { out: 0, note: n });
                    },
                    None => {},
                }
                acts.push(Act::NoteOn { out: 0, note, vel });
                self.sounding = Some(note);
                self.sample_flash = SAMPLE_FLASH_MS;
                let len: u64 = gate_ticks(self.div, self.store.gate_saved);
                self.gate_end_tick = tick.saturating_add(len);
                let period: u64 = self.tick_period_ms;
                assert(0 <= len * period <= 384 * 500) by (nonlinear_arith)
                    requires
                        len <= 384,
                        period <= 500,
                ;
                self.gate_end_at = now + len * period * 1000;
            },
            MidiMode::Cc => {
                acts.push(Act::Cc { out: 0, cc: self.midi_cc, val: r.cc });
                self.button_duck = BUTTON_DUCK_MS;
                self.sample_flash = SAMPLE_FLASH_MS;
            },
        }
        assert(acts@ =~= s0.sent(now, tick, r, delta as int).1);
        acts
    }

    /// Whether the input is sampled at a tick.
    pub fn samples_at(&self, tick: u64) -> (r: bool)
        requires
            self.wf(),
        ensures
            r == (tick as int % self.div as int == 0),
    {
        tick % self.div as u64 == 0
    }

    /// State with a sample noted, and how far it moved.
    pub open spec fn noted(self, sample: u16) -> HoldSam {
        let delta = dist(sample as int, self.prev_sample as int);
        HoldSam {
            prev_sample: sample,
            idle_count: if delta > SAMPLE_DEADBAND { 0 } else {
                min_int(self.idle_count + 1, 255) as u8
            },
            ..self
        }
    }

    pub open spec fn shift_light(self) -> Act {
        Act::Light {
            chan: 0,
            led: Led::Bottom,
            color: if self.div == 2 || self.div == 4 || self.div == 8 || self.div == 16 {
                Color::Orange
            } else {
                Color::Blue
            },
            bright: Brightness::High,
        }
    }

    /// State and acts of a clock tick.
    pub open spec fn ticked(self, now: u64, tick: u64, r: Reading, shift: bool) -> (
        HoldSam,
        Seq<Act>,
    ) {
        let s1 = self.timed(now);
        let over = s1.sends_notes() && !s1.stopped && tick >= s1.gate_end_tick;
        let (s2, offs) = if over { s1.let_go() } else { (s1, Seq::empty()) };
        if tick as int % s2.div as int != 0 {
            (s2, offs)
        } else {
            let s3 = s2.noted(r.sample);
            let delta = dist(r.sample as int, s2.prev_sample as int);
            let (s4, sends) = if !s3.store.muted && !s3.stopped && s3.idle_count < IDLE_TICKS {
                s3.sent(now, tick, r, delta)
            } else {
                (s3, Seq::empty())
            };
            (s4, offs + sends + (if shift { seq![s4.shift_light()] } else { Seq::empty() }))
        }
    }

    /// A clock tick. The reading matters only where the tick samples.
    pub fn on_tick(&mut self, now: u64, tick: u64, r: Reading, shift: bool) -> (acts: Vec<Act>)
        requires
            old(self).wf(),
            now + LONGEST_GATE_US <= u64::MAX,
            r.sample <= 4095,
        ensures
            final(self).wf(),
            (*final(self), acts@) == old(self).ticked(now, tick, r, shift),
    {
        let ghost s0 = *self;
        let dt: u64 = now.saturating_sub(self.last_tick_at) / 1000;
        if 1 <= dt && dt < 500 {
            self.tick_period_ms = dt;
        }
        self.last_tick_at = now;
        assert(*self == s0.timed(now));
        let notes = match self.midi_mode {
            MidiMode::Note => true,
            MidiMode::Cc => false,
        };
        let mut acts: Vec<Act> = if notes && !self.stopped && tick >= self.gate_end_tick {
            self.release()
        } else {
            Vec::new()
        };
        let ghost offs = acts@;
        let ghost s2 = *self;
        if tick % self.div as u64 != 0 {
            return acts;
        }
        let delta: u16 = abs_diff(r.sample, self.prev_sample);
        self.prev_sample = r.sample;
        if delta > SAMPLE_DEADBAND {
            self.idle_count = 0;
        } else {
            self.idle_count = self.idle_count.saturating_add(1);
        }
        assert(*self == s2.noted(r.sample));
        if !self.store.muted && !self.stopped && self.idle_count < IDLE_TICKS {
            let sends = self.send(now, tick, r, delta);
            push_all(&mut acts, sends);
        }
        if shift {
            let color = if self.div == 2 || self.div == 4 || self.div == 8 || self.div == 16 {
                Color::Orange
            } else {
                Color::Blue
            };
            acts.push(Act::Light { chan: 0, led: Led::Bottom, color, bright: Brightness::High });
        }
        assert(acts@ =~= s0.ticked(now, tick, r, shift).1);
        acts
    }

    /// The transport starts or stops. A gate that is open goes on.
    pub fn on_transport(&mut self, running: bool)
        ensures
            *final(self) == (HoldSam { stopped: !running, ..*old(self) }),
    {
        self.stopped = !running;
    }

    /// No tick has come for four periods.
    pub open spec fn stalled(self, now: u64) -> bool {
        now >= self.last_tick_at + self.tick_period_ms * 4000
    }

    /// One millisecond without regard to the clock: where the transport has
    /// stopped, or the clock stalls, an open gate ends by the time.
    pub fn on_poll(&mut self, now: u64) -> (acts: Vec<Act>)
        requires
            old(self).wf(),
        ensures
            final(self).wf(),
            (*final(self), acts@) == if old(self).sends_notes() && (old(self).stopped || old(
                self,
            ).stalled(now)) && now >= old(self).gate_end_at {
                old(self).let_go()
            } else {
                (*old(self), Seq::empty())
            },
    {
        let notes = match self.midi_mode {
            MidiMode::Note => true,
            MidiMode::Cc => false,
        };
        let stalled = now >= self.last_tick_at + self.tick_period_ms * 4000;
        if notes && (self.stopped || stalled) && now >= self.gate_end_at {
            self.release()
        } else {
            Vec::new()
        }
    }

    /// Value of the layer in use.
    pub open spec fn layer_value(self, layer: LatchLayer) -> u16 {
        match layer {
            LatchLayer::Main => self.store.gate_saved,
            LatchLayer::Alt => self.store.res_saved,
            LatchLayer::Third => self.store.sens_saved,
        }
    }

    /// Value that the fader has to pass before it takes over.
    pub fn fader_target(&self) -> (r: u16)
        ensures
            r == self.layer_value(self.layer),
    {
        match self.layer {
            LatchLayer::Main => self.store.gate_saved,
            LatchLayer::Alt => self.store.res_saved,
            LatchLayer::Third => self.store.sens_saved,
        }
    }

    /// The fader has moved to `value`; `taken` is the value where the fader has
    /// taken over its layer.
    pub fn on_fader(&mut self, value: u16, shift: bool, button: bool, taken: Option<u16>) -> (acts:
        Vec<Act>)
        requires
            old(self).wf(),
            taken matches Some(v) ==> v <= 4095,
        ensures
            final(self).wf(),
            acts@ == if taken is Some { seq![Act::Save] } else { Seq::<Act>::empty() },
            ({
                let s = HoldSam {
                    fader_moved: old(self).fader_moved || (button && !shift && value != old(
                        self,
                    ).last_fader),
                    last_fader: value,
                    ..*old(self)
                };
                *final(self) == match taken {
                    None => s,
                    Some(v) => match old(self).layer {
                        LatchLayer::Main => HoldSam {
                            store: (Storage { gate_saved: v, ..s.store }),
                            ..s
                        },
                        LatchLayer::Alt => HoldSam {
                            store: (Storage { res_saved: v, ..s.store }),
                            div: div_at(v as int) as u32,
                            ..s
                        },
                        LatchLayer::Third => HoldSam {
                            store: (Storage { sens_saved: v, ..s.store }),
                            ..s
                        },
                    },
                }
            }),
    {
        if button && !shift && value != self.last_fader {
            self.fader_moved = true;
        }
        self.last_fader = value;
        match taken {
            None => Vec::new(),
            Some(v) => {
                match self.layer {
                    LatchLayer::Main => {
                        self.store.gate_saved = v;
                    },
                    LatchLayer::Alt => {
                        self.div = division_for(v);
                        self.store.res_saved = v;
                    },
                    LatchLayer::Third => {
                        self.store.sens_saved = v;
                    },
                }
                one(Act::Save)
            },
        }
    }

    /// The button goes down.
    pub fn on_press(&mut self, shift: bool)
        ensures
            *final(self) == (HoldSam {
                long_press_fired: false,
                fader_moved: old(self).fader_moved && shift,
                ..*old(self)
            }),
    {
        self.long_press_fired = false;
        if !shift {
            self.fader_moved = false;
        }
    }

    /// The button goes up after a press with shift: sample by hand.
    pub fn on_manual_sample(&mut self, now: u64, tick: u64, r: Reading) -> (acts: Vec<Act>)
        requires
            old(self).wf(),
            now + LONGEST_GATE_US <= u64::MAX,
            r.sample <= 4095,
        ensures
            final(self).wf(),
            (*final(self), acts@) == if old(self).long_press_fired || old(self).store.muted {
                (*old(self), Seq::empty())
            } else {
                HoldSam { prev_sample: r.sample, ..*old(self) }.sent(
                    now,
                    tick,
                    r,
                    dist(r.sample as int, old(self).prev_sample as int),
                )
            },
    {
        if self.long_press_fired || self.store.muted {
            return Vec::new();
        }
        let delta: u16 = abs_diff(r.sample, self.prev_sample);
        self.prev_sample = r.sample;
        self.send(now, tick, r, delta)
    }

    /// The button goes up after a press without shift: a soft mute, which lets
    /// the note ring out. A hold that adjusted the fader does not toggle it.
    pub fn on_release(&mut self) -> (acts: Vec<Act>)
        requires
            old(self).wf(),
        ensures
            final(self).wf(),
            ({
                let muted = !old(self).store.muted;
                if old(self).long_press_fired || old(self).fader_moved {
                    *final(self) == *old(self) && acts@ == Seq::<Act>::empty()
                } else {
                    &&& *final(self) == (HoldSam {
                        store: (Storage { muted, ..old(self).store }),
                        ..*old(self)
                    })
                    &&& acts@ == seq![Act::Save, mute_light(muted, old(self).color)]
                }
            }),
    {
        if self.long_press_fired || self.fader_moved {
            return Vec::new();
        }
        self.store.muted = !self.store.muted;
        let mut acts = one(Act::Save);
        acts.push(mute_act(self.store.muted, self.color));
        assert(acts@ =~= seq![Act::Save, mute_light(self.store.muted, self.color)]);
        acts
    }

    /// A long press without shift is a panic: the note ends and the app mutes.
    pub fn on_long_press(&mut self, shift: bool) -> (acts: Vec<Act>)
        requires
            old(self).wf(),
        ensures
            final(self).wf(),
            ({
                let s = HoldSam { long_press_fired: true, ..*old(self) };
                if shift || old(self).fader_moved {
                    *final(self) == s && acts@ == Seq::<Act>::empty()
                } else {
                    let ends = s.sends_notes() && s.sounding is Some;
                    &&& *final(self) == (HoldSam {
                        store: (Storage { muted: true, ..s.store }),
                        sounding: if s.sends_notes() { None } else { s.sounding },
                        gate_end_tick: if ends { 0 } else { s.gate_end_tick },
                        gate_end_at: if ends { 0 } else { s.gate_end_at },
                        ..s
                    })
                    &&& acts@ == (if ends {
                        seq![Act::NoteOff { out: 0, note: s.sounding->0 }]
                    } else {
                        Seq::empty()
                    }) + (if !s.store.muted {
                        seq![Act::Save, mute_light(true, s.color)]
                    } else {
                        Seq::empty()
                    })
                }
            }),
    {
        let ghost s0 = *self;
        self.long_press_fired = true;
        let mut acts: Vec<Act> = Vec::new();
        if shift || self.fader_moved {
            return acts;
        }
        match self.midi_mode {
            MidiMode::Note => match self.sounding {
                Some(n) => {
                    acts.push(Act::NoteOff { out: 0, note: n });
                    self.sounding = None;
                    self.gate_end_at = 0;
                    self.gate_end_tick = 0;
                },
                None => {},
            },
            MidiMode::Cc => {},
        }
        if !self.store.muted {
            self.store.muted = true;
            acts.push(Act::Save);
            acts.push(mute_act(true, self.color));
        }
        assert(acts@ =~= (if s0.sends_notes() && s0.sounding is Some {
            seq![Act::NoteOff { out: 0, note: s0.sounding->0 }]
        } else {
            Seq::empty()
        }) + (if !s0.store.muted {
            seq![Act::Save, mute_light(true, s0.color)]
        } else {
            Seq::empty()
        }));
        acts
    }

    /// Lights of one millisecond.
    pub open spec fn frame_acts(self, layer: LatchLayer) -> Seq<Act> {
        let display = self.layer_value(layer);
        if self.sample_flash > 0 {
            seq![
                Act::Light { chan: 0, led: Led::Top, color: Color::White, bright: Brightness::High },
                Act::Light {
                    chan: 0,
                    led: Led::Bottom,
                    color: spectrum(display as int),
                    bright: Brightness::Mid,
                },
            ] + (if !self.store.muted {
                seq![
                    Act::Light {
                        chan: 0,
                        led: Led::Button,
                        color: Color::White,
                        bright: Brightness::High,
                    },
                ]
            } else {
                Seq::empty()
            })
        } else if self.store.muted {
            seq![
                mute_light(true, self.color),
                Act::Dark { chan: 0, led: Led::Top },
                Act::Dark { chan: 0, led: Led::Bottom },
            ]
        } else {
            fader_meters(
                spectrum(display as int),
                display,
                if self.sounding is Some || self.button_duck > 0 { 48 } else {
                    max_int(display as int / 16, 40) % 256
                },
            )
        }
    }

    /// One millisecond of the panel.
    pub fn on_frame(&mut self, shift: bool, button: bool) -> (acts: Vec<Act>)
        requires
            old(self).wf(),
        ensures
            final(self).wf(),
            *final(self) == (HoldSam {
                layer: layer_of(shift, button),
                sample_flash: max_int(old(self).sample_flash - 1, 0) as u16,
                button_duck: max_int(old(self).button_duck - 1, 0) as u16,
                ..*old(self)
            }),
            acts@ == old(self).frame_acts(layer_of(shift, button)),
    {
        let ghost s0 = *self;
        let layer = layer_for(shift, button);
        self.layer = layer;
        let display: u16 = self.fader_target();
        let acts = if self.sample_flash > 0 {
            self.sample_flash = self.sample_flash - 1;
            let mut acts: Vec<Act> = Vec::new();
            acts.push(
                Act::Light { chan: 0, led: Led::Top, color: Color::White, bright: Brightness::High },
            );
            acts.push(
                Act::Light {
                    chan: 0,
                    led: Led::Bottom,
                    color: spectrum_color(display),
                    bright: Brightness::Mid,
                },
            );
            if !self.store.muted {
                acts.push(
                    Act::Light {
                        chan: 0,
                        led: Led::Button,
                        color: Color::White,
                        bright: Brightness::High,
                    },
                );
            }
            assert(acts@ =~= s0.frame_acts(layer));
            acts
        } else if self.store.muted {
            let mut acts = one(mute_act(true, self.color));
            acts.push(Act::Dark { chan: 0, led: Led::Top });
            acts.push(Act::Dark { chan: 0, led: Led::Bottom });
            assert(acts@ =~= s0.frame_acts(layer));
            acts
        } else {
            let level: u16 = display / 16;
            let btn: u8 = if self.sounding.is_some() || self.button_duck > 0 {
                48
            } else if level < 40 {
                40
            } else {
                (level % 256) as u8
            };
            paint_fader_meters(spectrum_color(display), display, btn)
        };
        if self.button_duck > 0 {
            self.button_duck = self.button_duck - 1;
        }
        acts
    }

    /// The stored settings have been replaced by those of a scene.
    pub fn on_scene(&mut self, store: Storage) -> (a: Act)
        requires
            old(self).wf(),
            store.sens_saved <= 4095,
        ensures
            final(self).wf(),
            *final(self) == (HoldSam {
                store,
                div: div_at(store.res_saved as int) as u32,
                ..*old(self)
            }),
            a == mute_light(store.muted, old(self).color),
    {
        self.store = store;
        self.div = division_for(store.res_saved);
        mute_act(store.muted, self.color)
    }
}

/// An input that stays within the deadband is silent from its second unchanged
/// sample on.
pub proof fn idle_input_is_silent(s: HoldSam, now: u64, tick: u64, r: Reading, shift: bool)
    requires
        s.idle_count >= 1,
        dist(r.sample as int, s.prev_sample as int) <= SAMPLE_DEADBAND,
    ensures
        s.ticked(now, tick, r, shift).0.idle_count >= 1,
        forall|i: int|
            0 <= i < s.ticked(now, tick, r, shift).1.len() ==> (#[trigger] s.ticked(
                now,
                tick,
                r,
                shift,
            ).1[i]) !is NoteOn && s.ticked(now, tick, r, shift).1[i] !is Cc,
{
}

/// While the clock runs, a note whose gate is over is ended by the next tick,
/// before anything else is sent.
pub proof fn gates_end_on_time(s: HoldSam, now: u64, tick: u64, r: Reading, shift: bool)
    requires
        s.sends_notes(),
        !s.stopped,
        s.sounding is Some,
        tick >= s.gate_end_tick,
    ensures
        s.ticked(now, tick, r, shift).1.len() > 0,
        s.ticked(now, tick, r, shift).1[0] == (Act::NoteOff { out: 0, note: s.sounding->0 }),
{
}

/// At most one note sounds: a new one follows the end of the one before.
pub proof fn notes_never_overlap(s: HoldSam, now: u64, tick: u64, r: Reading, delta: int)
    requires
        s.sends_notes(),
        s.sounding is Some,
    ensures
        s.sent(now, tick, r, delta).1[0] == (Act::NoteOff { out: 0, note: s.sounding->0 }),
        s.sent(now, tick, r, delta).1.len() == 2,
{
}

} // verus!
