//! The device clock.
//!
//! An engine turns timer ticks, external pulses and transport commands into
//! clock events at 24 pulses per quarter note; a gatekeeper numbers those
//! events and hands them to the apps, the analog outputs and MIDI; a
//! metronome derives the beat flash. Times are microseconds.

use crate::bounded::{
    emissions, emissions_back, emissions_clear, emissions_front, emissions_len, emissions_new,
    emissions_pop, emissions_push, port_numbers, ports_new, ports_push,
};
use max11300::config::Port;
use vstd::prelude::*;

verus! {

/// Delay before the very first tick, to offset it from the reset.
pub const TICK_RESET_DELAY_US: u64 = 2000;

/// PPQN of the internal clock.
pub const INTERNAL_PPQN: u8 = 24;

/// How long the metronome stays high after each beat (ms).
pub const METRONOME_HIGH_MS: u16 = 25;

/// Debounce window for analog clock pins.
pub const DEBOUNCE_THRESHOLD_US: u64 = 2000;

/// Measured period multiples without a pulse before the clock is lost.
pub const WATCHDOG_MULTIPLIER: u64 = 8;

/// The watchdog never fires earlier than this after a pulse.
pub const WATCHDOG_FLOOR_US: u64 = 2_000_000;

/// Ticks in a swing window (one eighth note).
pub const SWING_WINDOW: u32 = 12;

/// Capacity of the pending-emission queue.
pub const PENDING_EMISSIONS_CAPACITY: usize = 64;

/// Spacing between catch-up emissions when an early pulse flushes ticks.
pub const CATCHUP_SPACING_US: u64 = 500;

/// Some 35 years of uptime: while the instants lie below this, no schedule of
/// the engine leaves the range of its words.
pub const TIME_LIMIT: u64 = 0x3_ffff_ffff_0000;

#[derive(Clone, Copy, Debug, PartialEq, Eq, Structural)]
pub enum ClockSrc {
    Off,
    Atom,
    Meteor,
    Cube,
    Internal,
    MidiIn,
    MidiUsb,
}

pub open spec fn analog(s: ClockSrc) -> bool {
    s == ClockSrc::Atom || s == ClockSrc::Meteor || s == ClockSrc::Cube
}

/// The analog inputs have no transport of their own.
pub fn is_analog(s: ClockSrc) -> (r: bool)
    ensures
        r == analog(s),
{
    match s {
        ClockSrc::Atom | ClockSrc::Meteor | ClockSrc::Cube => true,
        _ => false,
    }
}

#[derive(Clone, Copy, Debug, PartialEq, Eq, Structural)]
pub enum ClockInEvent {
    Tick(ClockSrc),
    MidiTick(ClockSrc),
    Start(ClockSrc),
    Stop(ClockSrc),
    Reset(ClockSrc),
    Continue(ClockSrc),
}

impl ClockInEvent {
    pub open spec fn src(self) -> ClockSrc {
        match self {
            ClockInEvent::Tick(s) => s,
            ClockInEvent::MidiTick(s) => s,
            ClockInEvent::Start(s) => s,
            ClockInEvent::Stop(s) => s,
            ClockInEvent::Reset(s) => s,
            ClockInEvent::Continue(s) => s,
        }
    }

    pub open spec fn clock(self) -> bool {
        self is Tick || self is MidiTick
    }

    pub fn source(&self) -> (r: ClockSrc)
        ensures
            r == self.src(),
    {
        match self {
            ClockInEvent::Tick(s) => *s,
            ClockInEvent::MidiTick(s) => *s,
            ClockInEvent::Start(s) => *s,
            ClockInEvent::Stop(s) => *s,
            ClockInEvent::Reset(s) => *s,
            ClockInEvent::Continue(s) => *s,
        }
    }

    pub fn is_clock(&self) -> (r: bool)
        ensures
            r == self.clock(),
    {
        match self {
            ClockInEvent::Tick(_) => true,
            ClockInEvent::MidiTick(_) => true,
            _ => false,
        }
    }

    pub fn is_transport(&self) -> (r: bool)
        ensures
            r == !self.clock(),
    {
        !self.is_clock()
    }
}

#[derive(Clone, Copy, Debug, PartialEq, Eq, Structural)]
pub enum TransportCmd {
    Start,
    Stop,
    Toggle,
}

/// Events that the apps receive.
#[derive(Clone, Copy, Debug, PartialEq, Eq, Structural)]
pub enum ClockEvent {
    /// Clock pulse; the payload is the number of ticks since the last reset.
    Tick(u64),
    /// The clock has started or resumed playback (no phase reset).
    Start,
    /// The clock has stopped. No phase reset.
    Stop,
    /// A full phase reset. The next tick carries `0`.
    Reset,
}

#[derive(Clone, Copy, Debug, PartialEq, Eq, Structural)]
pub enum SyncEngineEvent {
    /// A timing pulse from an analog pin or MIDI TimingClock.
    Pulse { source: ClockSrc, timestamp: u64 },
    /// A transport command from an external source.
    Transport(ClockInEvent),
}

// ---------------------------------------------------------------------------
// Arithmetic of the schedule
// ---------------------------------------------------------------------------

pub open spec fn min_int(a: int, b: int) -> int {
    if a <= b { a } else { b }
}

pub open spec fn max_int(a: int, b: int) -> int {
    if a >= b { a } else { b }
}

/// Quotient rounded toward zero, for a positive divisor.
pub open spec fn quot(a: int, b: int) -> int {
    if a >= 0 { a / b } else { -((-a) / b) }
}

/// Offset of tick `i` before it is kept inside the window: the first half is
/// straight, the second half starts at the swung boundary.
pub open spec fn raw_swing(i: int, t: int, swing: int) -> int {
    if i < 6 { i * t } else { quot(6 * t * (50 + swing), 50) + (i - 6) * t }
}

/// Swung offset of tick `i` from the start of its window.
pub open spec fn swing_offset(i: int, t: int, swing: int) -> int {
    let raw = max_int(raw_swing(i, t, swing), 0);
    if 12 * t < 500 { raw } else { min_int(raw, 12 * t - 500) }
}

/// The offset of tick `i` is computed in 64-bit words.
pub open spec fn swing_fits(i: int, t: int, swing: int) -> bool {
    &&& 12 * t <= i64::MAX
    &&& i >= 6 ==> i64::MIN <= 6 * t * (50 + swing) <= i64::MAX && raw_swing(i, t, swing)
        <= i64::MAX
}

proof fn swing_bounds(i: int, t: int, swing: int)
    requires
        0 <= i <= 12,
        0 <= t,
        -128 <= swing <= 127,
    ensures
        0 <= i * t <= 12 * t,
        -468 * t <= 6 * t * (50 + swing) <= 1062 * t,
        i >= 6 ==> 0 <= (i - 6) * t <= 6 * t,
{
    assert(0 <= i * t <= 12 * t) by (nonlinear_arith)
        requires
            0 <= i <= 12,
            0 <= t,
    ;
    assert(-468 * t <= 6 * t * (50 + swing) <= 1062 * t) by (nonlinear_arith)
        requires
            -128 <= swing <= 127,
            0 <= t,
    ;
    assert(i >= 6 ==> 0 <= (i - 6) * t <= 6 * t) by (nonlinear_arith)
        requires
            0 <= i <= 12,
            0 <= t,
    ;
}

/// Ticks of a bounded length have offsets that fit.
proof fn short_swing_fits(i: int, t: int, swing: int)
    requires
        0 <= i <= 12,
        0 <= t <= TIME_LIMIT,
        -128 <= swing <= 127,
    ensures
        swing_fits(i, t, swing),
        0 <= swing_offset(i, t, swing) <= 28 * t,
{
    swing_bounds(i, t, swing);
}

/// Swung offset of tick `i` (in `0..=12`) from the start of the swing window,
/// kept half a millisecond before the end of the window.
fn swung_offset(i: u32, t: u64, swing: i8) -> (r: u64)
    requires
        i <= 12,
        swing_fits(i as int, t as int, swing as int),
    ensures
        r == swing_offset(i as int, t as int, swing as int),
{
    proof {
        swing_bounds(i as int, t as int, swing as int);
    }
    let raw: i64 = if i < 6 {
        i as i64 * t as i64
    } else {
        let stretch: i64 = 50 + swing as i64;
        let boundary: i64 = if stretch >= 0 {
            assert(0 <= 6 * t * stretch) by (nonlinear_arith)
                requires
                    0 <= t,
                    0 <= stretch,
            ;
            ((6 * t * stretch as u64) / 50) as i64
        } else {
            assert(0 <= 6 * t * (-stretch)) by (nonlinear_arith)
                requires
                    0 <= t,
                    stretch < 0,
            ;
            assert(6 * t * (-stretch) == -(6 * t * stretch)) by (nonlinear_arith);
            let back: i64 = -stretch;
            -(((6 * t * back as u64) / 50) as i64)
        };
        boundary + (i as i64 - 6) * t as i64
    };
    let ahead: u64 = if raw < 0 { 0 } else { raw as u64 };
    if 12 * t < 500 {
        ahead
    } else if ahead < 12 * t - 500 {
        ahead
    } else {
        12 * t - 500
    }
}

pub open spec fn watchdog(measured: Option<u64>) -> int {
    match measured {
        Some(p) => max_int(p * 8, WATCHDOG_FLOOR_US as int),
        None => WATCHDOG_FLOOR_US as int,
    }
}

/// How long to wait for the next external pulse before declaring the clock
/// lost. Falls back to the floor while no period has been measured.
fn watchdog_duration(measured: Option<u64>) -> (r: u64)
    requires
        measured matches Some(p) ==> p * 8 <= u64::MAX,
    ensures
        r == watchdog(measured),
        r >= WATCHDOG_FLOOR_US,
{
    match measured {
        Some(p) => {
            let w: u64 = p * WATCHDOG_MULTIPLIER;
            if w > WATCHDOG_FLOOR_US {
                w
            } else {
                WATCHDOG_FLOOR_US
            }
        },
        None => WATCHDOG_FLOOR_US,
    }
}

/// The engine can lock to divisors of 24 and to multiples of it.
pub open spec fn lockable(ppqn: int) -> bool {
    ppqn > 0 && (24int % ppqn == 0 || ppqn % 24 == 0)
}

pub open spec fn locked_ppqn(ppqn: int) -> int {
    if lockable(ppqn) { ppqn } else { 24 }
}

/// Snaps the configured external PPQN to a ratio the engine can lock to.
pub fn effective_ppqn(ext_ppqn: u8) -> (r: u8)
    ensures
        r == locked_ppqn(ext_ppqn as int),
        r > 0,
{
    if ext_ppqn > 0 && (INTERNAL_PPQN % ext_ppqn == 0 || ext_ppqn % INTERNAL_PPQN == 0) {
        ext_ppqn
    } else {
        INTERNAL_PPQN
    }
}

// ---------------------------------------------------------------------------
// Engine: state
// ---------------------------------------------------------------------------

/// What the engine reads of the global configuration. `internal_tick` is the
/// length of one tick at the configured tempo.
#[derive(Clone, Copy, Debug, PartialEq, Eq, Structural)]
pub struct ClockConfig {
    pub clock_src: ClockSrc,
    pub reset_src: ClockSrc,
    pub ext_ppqn: u8,
    pub swing_amount: i8,
    pub internal_tick: u64,
}

pub struct Engine {
    is_running: bool,
    tick_duration: u64,
    /// Unswung time of tick 0 of the current swing window.
    window_start_at: u64,
    tick_in_window: u32,
    next_tick_at: u64,
    next_midi_tick_at: u64,
    last_pulse: Option<u64>,
    /// Measured period between external pulses.
    measured_ext_period: Option<u64>,
    delta_history: [u64; 4],
    history_idx: usize,
    /// Scheduled emissions of the external clock path.
    pending: heapless::Deque<(u64, bool), 64>,
    /// Pulses within one 24-PPQN tick when the external clock is faster.
    ext_pulse_div_count: u32,
    /// The current window's ticks were scheduled on its anchor pulse.
    window_predicted: bool,
    config: ClockConfig,
}

/// The engine's state as a value.
pub struct EngineView {
    pub is_running: bool,
    pub tick_duration: int,
    pub window_start_at: int,
    pub tick_in_window: int,
    pub next_tick_at: int,
    pub next_midi_tick_at: int,
    pub last_pulse: Option<u64>,
    pub measured_ext_period: Option<u64>,
    pub delta_history: Seq<u64>,
    pub history_idx: int,
    pub pending: Seq<(u64, bool)>,
    pub ext_pulse_div_count: int,
    pub window_predicted: bool,
    pub config: ClockConfig,
}

/// What a step of the engine hands on: events for the gatekeeper, and the
/// running state to store where it changed.
pub struct EngineOut {
    pub sent: Vec<ClockInEvent>,
    pub store_running: Option<bool>,
}

/// Queue order: no emission is due before one ahead of it.
pub open spec fn in_order(q: Seq<(u64, bool)>) -> bool {
    forall|i: int, j: int| 0 <= i <= j < q.len() ==> (#[trigger] q[i]).0 <= (#[trigger] q[j]).0
}

impl EngineView {
    /// Ranges and orders that every step keeps.
    pub open spec fn wf(self) -> bool {
        &&& 0 <= self.tick_duration <= u64::MAX
        &&& 0 <= self.window_start_at <= u64::MAX
        &&& 0 <= self.next_tick_at <= u64::MAX
        &&& 0 <= self.next_midi_tick_at <= u64::MAX
        &&& 0 <= self.tick_in_window < 12
        &&& self.delta_history.len() == 4
        &&& 0 <= self.history_idx < 4
        &&& self.pending.len() <= 64
        &&& in_order(self.pending)
        &&& 0 <= self.ext_pulse_div_count < 10
    }

    /// Bounds of a clock that has seen only instants below `TIME_LIMIT`.
    pub open spec fn bounded(self) -> bool {
        let l = TIME_LIMIT as int;
        &&& self.tick_duration <= l
        &&& self.window_start_at <= 14 * l
        &&& self.next_tick_at <= 64 * l
        &&& self.next_midi_tick_at <= 4 * l
        &&& self.config.clock_src == ClockSrc::Internal ==> self.window_start_at <= l + 2000
            || self.window_start_at <= self.next_tick_at
        &&& self.last_pulse matches Some(t) ==> t <= l
        &&& self.measured_ext_period matches Some(p) ==> p <= l
        &&& forall|i: int| 0 <= i < 4 ==> #[trigger] self.delta_history[i] <= l
        &&& forall|i: int| 0 <= i < self.pending.len() ==> (#[trigger] self.pending[i]).0 <= 64 * l
        &&& self.config.internal_tick <= l
    }

    /// Nothing scheduled and both phase counters at zero.
    pub open spec fn rephased(self) -> EngineView {
        EngineView {
            pending: Seq::empty(),
            tick_in_window: 0,
            ext_pulse_div_count: 0,
            ..self
        }
    }
}

impl Engine {
    pub closed spec fn view(&self) -> EngineView {
        EngineView {
            is_running: self.is_running,
            tick_duration: self.tick_duration as int,
            window_start_at: self.window_start_at as int,
            tick_in_window: self.tick_in_window as int,
            next_tick_at: self.next_tick_at as int,
            next_midi_tick_at: self.next_midi_tick_at as int,
            last_pulse: self.last_pulse,
            measured_ext_period: self.measured_ext_period,
            delta_history: self.delta_history@,
            history_idx: self.history_idx as int,
            pending: emissions(self.pending),
            ext_pulse_div_count: self.ext_pulse_div_count as int,
            window_predicted: self.window_predicted,
            config: self.config,
        }
    }

    /// Engine at power-up. A clock that was running on the internal source
    /// tells the gatekeeper so.
    pub fn new(config: ClockConfig, is_running: bool, now: u64) -> (r: (Engine, EngineOut))
        requires
            now + TICK_RESET_DELAY_US <= u64::MAX,
        ensures
            r.0@.wf(),
            now < TIME_LIMIT && config.internal_tick <= TIME_LIMIT ==> r.0@.bounded(),
            r.0@ == (EngineView {
                is_running,
                tick_duration: config.internal_tick as int,
                window_start_at: now + TICK_RESET_DELAY_US,
                tick_in_window: 0,
                next_tick_at: now + TICK_RESET_DELAY_US,
                next_midi_tick_at: now + TICK_RESET_DELAY_US,
                last_pulse: None,
                measured_ext_period: None,
                delta_history: seq![0u64, 0, 0, 0],
                history_idx: 0,
                pending: Seq::empty(),
                ext_pulse_div_count: 0,
                window_predicted: false,
                config,
            }),
            r.1.store_running is None,
            r.1.sent@ == if is_running && config.clock_src == ClockSrc::Internal {
                seq![ClockInEvent::Start(ClockSrc::Internal)]
            } else {
                Seq::empty()
            },
    {
        let anchor: u64 = now + TICK_RESET_DELAY_US;
        let engine = Engine {
            is_running,
            tick_duration: config.internal_tick,
            window_start_at: anchor,
            tick_in_window: 0,
            next_tick_at: anchor,
            next_midi_tick_at: anchor,
            last_pulse: None,
            measured_ext_period: None,
            delta_history: [0, 0, 0, 0],
            history_idx: 0,
            pending: emissions_new(),
            ext_pulse_div_count: 0,
            window_predicted: false,
            config,
        };
        let mut sent: Vec<ClockInEvent> = Vec::new();
        if is_running && config.clock_src == ClockSrc::Internal {
            sent.push(ClockInEvent::Start(ClockSrc::Internal));
        }
        assert(engine@.delta_history =~= seq![0u64, 0, 0, 0]);
        assert(sent@ =~= if is_running && config.clock_src == ClockSrc::Internal {
            seq![ClockInEvent::Start(ClockSrc::Internal)]
        } else {
            Seq::empty()
        });
        (engine, EngineOut { sent, store_running: None })
    }
}

// ---------------------------------------------------------------------------
// Engine: timer and commands
// ---------------------------------------------------------------------------

impl EngineView {
    /// When the engine wants to be woken, if at all.
    pub open spec fn deadline(self) -> Option<int> {
        if !self.is_running {
            None
        } else if self.config.clock_src == ClockSrc::Internal {
            Some(min_int(self.next_tick_at, self.next_midi_tick_at))
        } else if self.last_pulse is Some && self.measured_ext_period is Some {
            Some(
                if self.pending.len() > 0 {
                    min_int(self.pending[0].0 as int, self.next_tick_at)
                } else {
                    self.next_tick_at
                },
            )
        } else if self.pending.len() > 0 {
            Some(self.pending[0].0 as int)
        } else {
            None
        }
    }

    /// State after the configuration changes to `new`.
    pub open spec fn configured(self, new: ClockConfig, now: int) -> EngineView {
        if self.config.clock_src != new.clock_src {
            let cleared = EngineView {
                last_pulse: None,
                measured_ext_period: None,
                delta_history: seq![0u64, 0, 0, 0],
                history_idx: 0,
                is_running: false,
                config: new,
                ..self.rephased()
            };
            if new.clock_src == ClockSrc::Internal {
                EngineView {
                    tick_duration: new.internal_tick as int,
                    window_start_at: now,
                    next_midi_tick_at: now,
                    ..cleared
                }
            } else {
                cleared
            }
        } else if new.clock_src == ClockSrc::Internal {
            let changed = self.tick_duration != new.internal_tick || self.config.swing_amount
                != new.swing_amount;
            EngineView {
                tick_duration: new.internal_tick as int,
                next_tick_at: if self.is_running && changed {
                    self.window_start_at + swing_offset(
                        self.tick_in_window,
                        new.internal_tick as int,
                        new.swing_amount as int,
                    )
                } else {
                    self.next_tick_at
                },
                config: new,
                ..self
            }
        } else if self.config.ext_ppqn != new.ext_ppqn {
            EngineView { config: new, ..self.rephased() }
        } else {
            EngineView { config: new, ..self }
        }
    }

    /// The schedule that a new configuration sets up fits.
    pub open spec fn config_fits(self, new: ClockConfig) -> bool {
        let t = new.internal_tick as int;
        let swing = new.swing_amount as int;
        self.config.clock_src == ClockSrc::Internal && new.clock_src == ClockSrc::Internal
            && self.is_running && (self.tick_duration != t || self.config.swing_amount != swing) ==> {
            &&& swing_fits(self.tick_in_window, t, swing)
            &&& self.window_start_at + swing_offset(self.tick_in_window, t, swing) <= u64::MAX
        }
    }

    /// Running state that a transport command asks for.
    pub open spec fn wanted(self, cmd: TransportCmd) -> bool {
        match cmd {
            TransportCmd::Start => true,
            TransportCmd::Stop => false,
            TransportCmd::Toggle => !self.is_running,
        }
    }

    /// State after a transport command from the panel.
    pub open spec fn commanded(self, cmd: TransportCmd, now: int) -> EngineView {
        let run = self.wanted(cmd);
        if self.config.clock_src != ClockSrc::Internal || run == self.is_running {
            self
        } else if run {
            let at = now + TICK_RESET_DELAY_US;
            EngineView {
                is_running: true,
                window_start_at: at,
                tick_in_window: 0,
                next_tick_at: at,
                next_midi_tick_at: at,
                ..self
            }
        } else {
            EngineView { is_running: false, ..self }
        }
    }

    /// The start that a command sets up fits.
    pub open spec fn command_fits(self, cmd: TransportCmd, now: int) -> bool {
        self.config.clock_src == ClockSrc::Internal && self.wanted(cmd) && !self.is_running
            ==> now + TICK_RESET_DELAY_US <= u64::MAX
    }

    /// State after a transport event of the active source.
    pub open spec fn transported(self, event: ClockInEvent, now: int) -> EngineView {
        let rearmed = now + watchdog(self.measured_ext_period);
        if event.src() != self.config.clock_src {
            self
        } else {
            match event {
                ClockInEvent::Start(_) => EngineView {
                    is_running: true,
                    next_tick_at: rearmed,
                    ..self.rephased()
                },
                ClockInEvent::Continue(_) => EngineView {
                    is_running: true,
                    next_tick_at: rearmed,
                    ..self
                },
                ClockInEvent::Stop(_) => EngineView {
                    is_running: false,
                    pending: Seq::empty(),
                    ext_pulse_div_count: 0,
                    ..self
                },
                ClockInEvent::Reset(_) => self.rephased(),
                _ => self,
            }
        }
    }

    /// The watchdog that a transport event sets fits.
    pub open spec fn transport_fits(self, event: ClockInEvent, now: int) -> bool {
        event.src() == self.config.clock_src && (event is Start || event is Continue) ==> now
            + watchdog(self.measured_ext_period) <= u64::MAX
    }

    /// A tick of the internal clock has gone out: on to the next one.
    pub open spec fn advanced(self) -> EngineView {
        let rolls = self.tick_in_window + 1 >= 12;
        let next = if rolls { 0 } else { self.tick_in_window + 1 };
        let start = if rolls {
            self.window_start_at + self.tick_duration * 12
        } else {
            self.window_start_at
        };
        EngineView {
            tick_in_window: next,
            window_start_at: start,
            next_tick_at: start + swing_offset(
                next,
                self.tick_duration,
                self.config.swing_amount as int,
            ),
            ..self
        }
    }

    /// The clock source has fallen silent.
    pub open spec fn lost(self) -> EngineView {
        EngineView { last_pulse: None, is_running: false, ..self.rephased() }
    }

    /// Whether the front emission is due.
    pub open spec fn emits(self, now: int) -> bool {
        self.pending.len() > 0 && self.pending[0].0 <= now
    }

    /// Whether the watchdog fires.
    pub open spec fn loses(self, now: int) -> bool {
        !self.emits(now) && self.last_pulse is Some && now >= self.next_tick_at
    }

    /// State after the timer fires.
    pub open spec fn timed(self, now: int) -> EngineView {
        if !self.is_running {
            self
        } else if self.config.clock_src == ClockSrc::Internal {
            let v = if now >= self.next_midi_tick_at {
                EngineView {
                    next_midi_tick_at: self.next_midi_tick_at + self.tick_duration,
                    ..self
                }
            } else {
                self
            };
            if now >= self.next_tick_at { v.advanced() } else { v }
        } else if self.emits(now) {
            EngineView { pending: self.pending.subrange(1, self.pending.len() as int), ..self }
        } else if self.loses(now) {
            self.lost()
        } else {
            self
        }
    }

    /// The next ticks of the internal clock fit.
    pub open spec fn timer_fits(self, now: int) -> bool {
        self.is_running && self.config.clock_src == ClockSrc::Internal ==> {
            &&& now >= self.next_midi_tick_at ==> self.next_midi_tick_at + self.tick_duration
                <= u64::MAX
            &&& now >= self.next_tick_at ==> {
                &&& self.advanced().window_start_at <= u64::MAX
                &&& swing_fits(
                    self.advanced().tick_in_window,
                    self.tick_duration,
                    self.config.swing_amount as int,
                )
                &&& self.advanced().next_tick_at <= u64::MAX
            }
        }
    }

    /// Events sent when the timer fires.
    pub open spec fn timer_sends(self, now: int) -> Seq<ClockInEvent> {
        let src = self.config.clock_src;
        if !self.is_running {
            Seq::empty()
        } else if src == ClockSrc::Internal {
            (if now >= self.next_midi_tick_at {
                seq![ClockInEvent::MidiTick(src)]
            } else {
                Seq::empty()
            }) + (if now >= self.next_tick_at {
                seq![ClockInEvent::Tick(src)]
            } else {
                Seq::empty()
            })
        } else if self.emits(now) {
            if self.pending[0].1 {
                seq![ClockInEvent::MidiTick(src), ClockInEvent::Tick(src)]
            } else {
                seq![ClockInEvent::Tick(src)]
            }
        } else if self.loses(now) {
            seq![ClockInEvent::Stop(src)]
        } else {
            Seq::empty()
        }
    }
}

impl Engine {
    /// When to wake the engine next; `None` while only events can.
    pub fn next_deadline(&self) -> (r: Option<u64>)
        ensures
            r is Some <==> self@.deadline() is Some,
            r matches Some(t) ==> self@.deadline() == Some(t as int),
    {
        if !self.is_running {
            return None;
        }
        let front = emissions_front(&self.pending);
        if self.config.clock_src == ClockSrc::Internal {
            Some(
                if self.next_tick_at < self.next_midi_tick_at {
                    self.next_tick_at
                } else {
                    self.next_midi_tick_at
                },
            )
        } else if self.last_pulse.is_some() && self.measured_ext_period.is_some() {
            match front {
                Some((at, _)) => Some(if at < self.next_tick_at { at } else { self.next_tick_at }),
                None => Some(self.next_tick_at),
            }
        } else {
            match front {
                Some((at, _)) => Some(at),
                None => None,
            }
        }
    }

    fn rephase(&mut self)
        ensures
            final(self)@ == old(self)@.rephased(),
    {
        emissions_clear(&mut self.pending);
        self.tick_in_window = 0;
        self.ext_pulse_div_count = 0;
    }

    /// The global configuration has changed.
    pub fn on_config(&mut self, new: ClockConfig, now: u64) -> (out: EngineOut)
        requires
            old(self)@.wf(),
            old(self)@.config_fits(new),
        ensures
            final(self)@.wf(),
            final(self)@ == old(self)@.configured(new, now as int),
            out.sent@ == Seq::<ClockInEvent>::empty(),
            out.store_running == if old(self)@.config.clock_src != new.clock_src
                && old(self)@.is_running {
                Some(false)
            } else {
                None
            },
    {
        let mut store_running: Option<bool> = None;
        let ghost v0 = self@;
        if self.config.clock_src != new.clock_src {
            self.last_pulse = None;
            self.measured_ext_period = None;
            self.delta_history = [0, 0, 0, 0];
            self.history_idx = 0;
            self.rephase();
            if self.is_running {
                self.is_running = false;
                store_running = Some(false);
            }
            if new.clock_src == ClockSrc::Internal {
                self.tick_duration = new.internal_tick;
                self.window_start_at = now;
                self.next_midi_tick_at = now;
            }
            assert(self.delta_history@ =~= seq![0u64, 0, 0, 0]);
        } else if self.config.clock_src == ClockSrc::Internal {
            let bpm_changed = self.tick_duration != new.internal_tick;
            let swing_changed = self.config.swing_amount != new.swing_amount;
            self.tick_duration = new.internal_tick;
            if self.is_running && (bpm_changed || swing_changed) {
                // The window anchor stays put: grid and swing shape survive.
                self.next_tick_at = self.window_start_at + swung_offset(
                    self.tick_in_window,
                    self.tick_duration,
                    new.swing_amount,
                );
            }
        } else if self.config.ext_ppqn != new.ext_ppqn {
            self.rephase();
        }
        self.config = new;
        let ghost goal = v0.configured(new, now as int);
        assert(self@.delta_history =~= goal.delta_history);
        assert(self@.pending =~= goal.pending);
        EngineOut { sent: Vec::new(), store_running }
    }

    /// Transport command from the panel: only the internal clock obeys it.
    pub fn on_command(&mut self, cmd: TransportCmd, now: u64) -> (out: EngineOut)
        requires
            old(self)@.wf(),
            old(self)@.command_fits(cmd, now as int),
        ensures
            final(self)@.wf(),
            final(self)@ == old(self)@.commanded(cmd, now as int),
            ({
                let v = old(self)@;
                let run = v.wanted(cmd);
                if v.config.clock_src != ClockSrc::Internal || run == v.is_running {
                    out.sent@ == Seq::<ClockInEvent>::empty() && out.store_running is None
                } else {
                    &&& out.sent@ == if run {
                        seq![ClockInEvent::Start(ClockSrc::Internal)]
                    } else {
                        seq![ClockInEvent::Stop(ClockSrc::Internal)]
                    }
                    &&& out.store_running == Some(run)
                }
            }),
    {
        let mut sent: Vec<ClockInEvent> = Vec::new();
        if self.config.clock_src != ClockSrc::Internal {
            return EngineOut { sent, store_running: None };
        }
        let run = match cmd {
            TransportCmd::Start => true,
            TransportCmd::Stop => false,
            TransportCmd::Toggle => !self.is_running,
        };
        if self.is_running == run {
            return EngineOut { sent, store_running: None };
        }
        if run {
            self.window_start_at = now + TICK_RESET_DELAY_US;
            self.tick_in_window = 0;
            self.next_tick_at = self.window_start_at;
            self.next_midi_tick_at = self.window_start_at;
            sent.push(ClockInEvent::Start(ClockSrc::Internal));
        } else {
            sent.push(ClockInEvent::Stop(ClockSrc::Internal));
        }
        self.is_running = run;
        assert(sent@ =~= if run {
            seq![ClockInEvent::Start(ClockSrc::Internal)]
        } else {
            seq![ClockInEvent::Stop(ClockSrc::Internal)]
        });
        EngineOut { sent, store_running: Some(run) }
    }

    /// Transport event: forwarded when its source drives the clock, be it an
    /// external one or the internal one.
    pub fn on_transport(&mut self, event: ClockInEvent, now: u64) -> (out: EngineOut)
        requires
            old(self)@.wf(),
            old(self)@.transport_fits(event, now as int),
        ensures
            final(self)@.wf(),
            final(self)@ == old(self)@.transported(event, now as int),
            out.store_running is None,
            out.sent@ == if event.src() == old(self)@.config.clock_src {
                seq![event]
            } else {
                Seq::empty()
            },
    {
        let mut sent: Vec<ClockInEvent> = Vec::new();
        if event.source() != self.config.clock_src {
            return EngineOut { sent, store_running: None };
        }
        sent.push(event);
        match event {
            ClockInEvent::Start(_) => {
                self.is_running = true;
                self.rephase();
                self.next_tick_at = now + watchdog_duration(self.measured_ext_period);
            },
            ClockInEvent::Continue(_) => {
                self.is_running = true;
                self.next_tick_at = now + watchdog_duration(self.measured_ext_period);
            },
            ClockInEvent::Stop(_) => {
                self.is_running = false;
                emissions_clear(&mut self.pending);
                self.ext_pulse_div_count = 0;
            },
            ClockInEvent::Reset(_) => {
                self.rephase();
            },
            _ => {},
        }
        assert(sent@ =~= seq![event]);
        EngineOut { sent, store_running: None }
    }

    /// The timer has fired at `now`.
    pub fn on_timer(&mut self, now: u64) -> (out: EngineOut)
        requires
            old(self)@.wf(),
            old(self)@.timer_fits(now as int),
        ensures
            final(self)@.wf(),
            final(self)@ == old(self)@.timed(now as int),
            out.sent@ == old(self)@.timer_sends(now as int),
            out.store_running == if old(self)@.is_running && old(self)@.config.clock_src
                != ClockSrc::Internal && old(self)@.loses(now as int) {
                Some(false)
            } else {
                None
            },
    {
        let mut sent: Vec<ClockInEvent> = Vec::new();
        let mut store_running: Option<bool> = None;
        let src = self.config.clock_src;
        let ghost v0 = self@;
        if src == ClockSrc::Internal && self.is_running {
            if now >= self.next_midi_tick_at {
                sent.push(ClockInEvent::MidiTick(ClockSrc::Internal));
                self.next_midi_tick_at = self.next_midi_tick_at + self.tick_duration;
            }
            if now >= self.next_tick_at {
                sent.push(ClockInEvent::Tick(ClockSrc::Internal));
                self.tick_in_window = self.tick_in_window + 1;
                if self.tick_in_window >= SWING_WINDOW {
                    self.tick_in_window = 0;
                    self.window_start_at = self.window_start_at + self.tick_duration
                        * SWING_WINDOW as u64;
                }
                self.next_tick_at = self.window_start_at + swung_offset(
                    self.tick_in_window,
                    self.tick_duration,
                    self.config.swing_amount,
                );
            }
        } else if self.is_running {
            let mut popped = false;
            match emissions_front(&self.pending) {
                Some((at, send_midi)) => {
                    if at <= now {
                        let _ = emissions_pop(&mut self.pending);
                        if send_midi {
                            sent.push(ClockInEvent::MidiTick(src));
                        }
                        sent.push(ClockInEvent::Tick(src));
                        popped = true;
                    }
                },
                None => {},
            }
            if !popped && self.last_pulse.is_some() && now >= self.next_tick_at {
                sent.push(ClockInEvent::Stop(src));
                self.last_pulse = None;
                self.is_running = false;
                self.rephase();
                store_running = Some(false);
            }
        }
        assert(sent@ =~= v0.timer_sends(now as int));
        EngineOut { sent, store_running }
    }
}

// ---------------------------------------------------------------------------
// Engine: external pulses
// ---------------------------------------------------------------------------

pub open spec fn sum4(h: Seq<u64>) -> int {
    h[0] + h[1] + h[2] + h[3]
}

/// Number of nonzero entries.
pub open spec fn count4(h: Seq<u64>) -> int {
    (if h[0] > 0 { 1int } else { 0 }) + (if h[1] > 0 { 1int } else { 0 }) + (if h[2] > 0 {
        1int
    } else {
        0
    }) + (if h[3] > 0 { 1int } else { 0 })
}

/// An emission is never scheduled ahead of the last one in the queue.
pub open spec fn guarded(q: Seq<(u64, bool)>, at: int) -> int {
    if q.len() > 0 && at < q.last().0 { q.last().0 as int } else { at }
}

/// Appends while there is room.
pub open spec fn push_bounded(q: Seq<(u64, bool)>, e: (u64, bool)) -> Seq<(u64, bool)> {
    if q.len() < 64 { q.push(e) } else { q }
}

/// Appends, dropping the front of a full queue.
pub open spec fn push_rolling(q: Seq<(u64, bool)>, e: (u64, bool)) -> Seq<(u64, bool)> {
    if q.len() < 64 { q.push(e) } else { q.subrange(1, q.len() as int).push(e) }
}

/// Queue after the first `n` swung ticks of a window are scheduled.
pub open spec fn window_queue(
    q: Seq<(u64, bool)>,
    start: int,
    t: int,
    swing: int,
    n: int,
) -> Seq<(u64, bool)>
    decreases n,
{
    if n <= 0 {
        q
    } else {
        let p = window_queue(q, start, t, swing, n - 1);
        push_rolling(p, (guarded(p, start + swing_offset(n - 1, t, swing)) as u64, false))
    }
}

/// Catch-up queue: `n` emissions in quick succession from `ts` on.
pub open spec fn catchup_queue(ts: int, n: int) -> Seq<(u64, bool)> {
    Seq::new(min_int(n, 64) as nat, |i: int| ((ts + 500 * i) as u64, true))
}

/// Queue after the ticks `1..n` of a pulse period are interpolated.
pub open spec fn interpolated(q: Seq<(u64, bool)>, ts: int, tick24: int, n: int) -> Seq<(u64, bool)>
    decreases n,
{
    if n <= 1 {
        q
    } else {
        let p = interpolated(q, ts, tick24, n - 1);
        push_bounded(p, (guarded(p, ts + tick24 * (n - 1)) as u64, true))
    }
}

impl EngineView {
    /// The pulse period is tracked as the mean of the last intervals.
    pub open spec fn tracked_at(self, ts: int) -> EngineView {
        match self.last_pulse {
            Some(last) => {
                let h = self.delta_history.update(self.history_idx, (ts - last) as u64);
                let v = EngineView {
                    delta_history: h,
                    history_idx: (self.history_idx + 1) % 4,
                    last_pulse: Some(ts as u64),
                    ..self
                };
                if count4(h) > 0 {
                    let avg = sum4(h) / count4(h);
                    EngineView {
                        tick_duration: avg,
                        measured_ext_period: Some(avg as u64),
                        ..v
                    }
                } else {
                    v
                }
            },
            None => EngineView { last_pulse: Some(ts as u64), ..self },
        }
    }

    /// PPQN of pulses from `source`: MIDI clock is 24 by definition.
    pub open spec fn ppqn(self, source: ClockSrc) -> int {
        if analog(source) { locked_ppqn(self.config.ext_ppqn as int) } else { 24 }
    }

    /// At a window anchor with a measured period and some swing the whole
    /// window is scheduled ahead.
    pub open spec fn predicts(self) -> bool {
        self.measured_ext_period is Some && self.config.swing_amount != 0
    }

    pub open spec fn straight(self, ts: int) -> EngineView {
        let next = if self.tick_in_window + 1 >= 12 { 0 } else { self.tick_in_window + 1 };
        if self.tick_in_window == 0 {
            EngineView {
                window_start_at: ts,
                pending: if self.predicts() {
                    window_queue(
                        self.pending,
                        ts,
                        self.measured_ext_period->0 as int,
                        self.config.swing_amount as int,
                        12,
                    )
                } else {
                    self.pending
                },
                window_predicted: self.predicts(),
                tick_in_window: next,
                ..self
            }
        } else {
            EngineView { tick_in_window: next, ..self }
        }
    }

    pub open spec fn straight_sends(self, source: ClockSrc) -> Seq<ClockInEvent> {
        let ticks = if self.tick_in_window == 0 {
            !self.predicts()
        } else {
            !self.window_predicted
        };
        if ticks {
            seq![ClockInEvent::MidiTick(source), ClockInEvent::Tick(source)]
        } else {
            seq![ClockInEvent::MidiTick(source)]
        }
    }

    /// Each pulse stands for `mult` ticks: its own, and interpolated ones.
    pub open spec fn multiplied(self, ts: int, mult: int) -> EngineView {
        let stale = self.pending.len() as int;
        let q = if stale == 0 { Seq::empty() } else { catchup_queue(ts, stale + 1) };
        EngineView {
            pending: match self.measured_ext_period {
                Some(p) => interpolated(q, ts, p as int / mult, mult),
                None => q,
            },
            ..self
        }
    }

    /// Every `div`-th pulse is a tick.
    pub open spec fn divided(self, div: int) -> EngineView {
        EngineView {
            ext_pulse_div_count: if self.ext_pulse_div_count + 1 >= div {
                0
            } else {
                self.ext_pulse_div_count + 1
            },
            ..self
        }
    }

    /// A pulse of the reset source.
    pub open spec fn is_reset_pulse(self, source: ClockSrc) -> bool {
        source == self.config.reset_src && source != ClockSrc::Off
    }

    /// Too soon after the last pulse of a bouncing pin.
    pub open spec fn bounces(self, source: ClockSrc, ts: int) -> bool {
        analog(source) && (self.last_pulse matches Some(last) && ts - last < DEBOUNCE_THRESHOLD_US)
    }

    /// A pulse that drives the clock.
    pub open spec fn takes_pulse(self, source: ClockSrc, ts: int) -> bool {
        !self.is_reset_pulse(source) && source == self.config.clock_src && !self.bounces(source, ts)
    }

    /// Where a driving pulse leaves the period tracking and run state.
    pub open spec fn woken(self, source: ClockSrc, ts: int) -> EngineView {
        (EngineView { is_running: self.is_running || analog(source), ..self }).tracked_at(ts)
    }

    /// State after a pulse.
    pub open spec fn pulsed(self, source: ClockSrc, ts: int) -> EngineView {
        if self.is_reset_pulse(source) {
            self.rephased()
        } else if !self.takes_pulse(source, ts) {
            self
        } else {
            let v = self.woken(source, ts);
            let n = self.ppqn(source);
            let w = if n == 24 {
                v.straight(ts)
            } else if n < 24 {
                v.multiplied(ts, 24int / n)
            } else {
                v.divided(n / 24)
            };
            EngineView { next_tick_at: ts + watchdog(v.measured_ext_period), ..w }
        }
    }

    /// Pulses come in order, and what a driving pulse measures and schedules
    /// fits.
    pub open spec fn pulse_fits(self, source: ClockSrc, ts: int) -> bool {
        let v = self.woken(source, ts);
        let n = self.ppqn(source);
        &&& !self.is_reset_pulse(source) && source == self.config.clock_src ==> (
        self.last_pulse matches Some(last) ==> last <= ts)
        &&& self.takes_pulse(source, ts) ==> {
            &&& self.last_pulse is Some ==> sum4(v.delta_history) <= u64::MAX
            &&& ts + watchdog(v.measured_ext_period) <= u64::MAX
            &&& n == 24 ==> v.straight_fits(ts)
            &&& n < 24 ==> v.multiply_fits(ts, 24int / n)
        }
    }

    /// The swung ticks that the anchor of a window schedules fit.
    pub open spec fn straight_fits(self, ts: int) -> bool {
        let t = self.measured_ext_period->0 as int;
        let swing = self.config.swing_amount as int;
        self.tick_in_window == 0 && self.predicts() ==> forall|i: int|
            0 <= i < 12 ==> #[trigger] swing_fits(i, t, swing) && ts + swing_offset(i, t, swing)
                <= u64::MAX
    }

    /// The ticks that a pulse of a slower clock schedules fit.
    pub open spec fn multiply_fits(self, ts: int, mult: int) -> bool {
        &&& self.pending.len() > 0 ==> ts + 500 * self.pending.len() <= u64::MAX
        &&& self.measured_ext_period matches Some(p) ==> ts + p as int / mult * (mult - 1)
            <= u64::MAX
    }

    /// Events sent on a pulse.
    pub open spec fn pulse_sends(self, source: ClockSrc, ts: int) -> Seq<ClockInEvent> {
        let both = seq![ClockInEvent::MidiTick(source), ClockInEvent::Tick(source)];
        if self.is_reset_pulse(source) {
            seq![ClockInEvent::Reset(source)]
        } else if !self.takes_pulse(source, ts) {
            Seq::empty()
        } else {
            let v = self.woken(source, ts);
            let n = self.ppqn(source);
            if n == 24 {
                v.straight_sends(source)
            } else if n < 24 {
                if v.pending.len() == 0 { both } else { Seq::empty() }
            } else {
                if v.ext_pulse_div_count == 0 { both } else { Seq::empty() }
            }
        }
    }
}

proof fn guarded_keeps_order(q: Seq<(u64, bool)>, at: u64, midi: bool)
    requires
        in_order(q),
    ensures
        in_order(q.push((guarded(q, at as int) as u64, midi))),
{
    let g = guarded(q, at as int) as u64;
    let r = q.push((g, midi));
    assert forall|i: int, j: int| 0 <= i <= j < r.len() implies (#[trigger] r[i]).0 <= (
    #[trigger] r[j]).0 by {
        if j == q.len() && i < j {
            assert(q[i].0 <= q[q.len() - 1].0);
        }
    }
}

/// A mean of bounded numbers is bounded.
proof fn mean_bounded(sum: int, count: int, l: int)
    requires
        0 < count <= 4,
        0 <= sum <= count * l,
        0 <= l,
    ensures
        0 <= sum / count <= l,
{
    assert(0 <= sum / count <= l) by (nonlinear_arith)
        requires
            0 < count,
            0 <= sum <= count * l,
    ;
}

impl Engine {
    fn track(&mut self, ts: u64)
        requires
            old(self)@.wf(),
            old(self)@.last_pulse matches Some(last) ==> last <= ts && sum4(
                old(self)@.tracked_at(ts as int).delta_history,
            ) <= u64::MAX,
        ensures
            final(self)@.wf(),
            final(self)@ == old(self)@.tracked_at(ts as int),
    {
        let ghost v0 = self@;
        match self.last_pulse {
            Some(last) => {
                let idx: usize = self.history_idx;
                self.delta_history[idx] = ts - last;
                self.history_idx = (self.history_idx + 1) % 4;
                let ghost h = v0.delta_history.update(v0.history_idx, (ts - last) as u64);
                assert(self.delta_history@ =~= h);
                assert(sum4(h) <= u64::MAX);
                let mut sum: u64 = 0;
                let mut count: u64 = 0;
                let mut i: usize = 0;
                while i < 4
                    invariant
                        i <= 4,
                        self.delta_history@ == h,
                        h.len() == 4,
                        sum4(h) <= u64::MAX,
                        sum == (if i > 0 { h[0] as int } else { 0 }) + (if i > 1 {
                            h[1] as int
                        } else {
                            0
                        }) + (if i > 2 { h[2] as int } else { 0 }) + (if i > 3 {
                            h[3] as int
                        } else {
                            0
                        }),
                        count == (if i > 0 && h[0] > 0 { 1int } else { 0 }) + (if i > 1 && h[1]
                            > 0 {
                            1int
                        } else {
                            0
                        }) + (if i > 2 && h[2] > 0 { 1int } else { 0 }) + (if i > 3 && h[3] > 0 {
                            1int
                        } else {
                            0
                        }),
                        count <= i,
                    decreases 4 - i,
                {
                    let d: u64 = self.delta_history[i];
                    if d > 0 {
                        sum = sum + d;
                        count = count + 1;
                    }
                    i = i + 1;
                }
                if count > 0 {
                    let avg: u64 = sum / count;
                    self.tick_duration = avg;
                    self.measured_ext_period = Some(avg);
                }
            },
            None => {},
        }
        self.last_pulse = Some(ts);
        assert(self@.delta_history =~= v0.tracked_at(ts as int).delta_history);
    }

    /// Pulse of a 24-PPQN clock: passed straight through, or the anchor of a
    /// window of swung ticks.
    fn pulse_straight(&mut self, source: ClockSrc, ts: u64) -> (sent: Vec<ClockInEvent>)
        requires
            old(self)@.wf(),
            old(self)@.straight_fits(ts as int),
        ensures
            final(self)@.wf(),
            final(self)@ == old(self)@.straight(ts as int),
            sent@ == old(self)@.straight_sends(source),
    {
        let ghost v0 = self@;
        let mut sent: Vec<ClockInEvent> = Vec::new();
        sent.push(ClockInEvent::MidiTick(source));
        let swing: i8 = self.config.swing_amount;
        if self.tick_in_window == 0 {
            self.window_start_at = ts;
            match self.measured_ext_period {
                Some(t) if swing != 0 => {
                    let mut i: u32 = 0;
                    while i < SWING_WINDOW
                        invariant
                            i <= 12,
                            forall|k: int|
                                0 <= k < 12 ==> #[trigger] swing_fits(k, t as int, swing as int)
                                    && ts + swing_offset(k, t as int, swing as int) <= u64::MAX,
                            self@ == (EngineView {
                                window_start_at: ts as int,
                                pending: window_queue(
                                    v0.pending,
                                    ts as int,
                                    t as int,
                                    swing as int,
                                    i as int,
                                ),
                                ..v0
                            }),
                            self@.pending.len() <= 64,
                            in_order(self@.pending),
                        decreases 12 - i,
                    {
                        assert(swing_fits(i as int, t as int, swing as int));
                        let emission: u64 = ts + swung_offset(i, t, swing);
                        let ghost q = self@.pending;
                        let at: u64 = match emissions_back(&self.pending) {
                            Some((back, _)) if emission < back => back,
                            _ => emission,
                        };
                        proof {
                            guarded_keeps_order(q, emission, false);
                        }
                        assert(at == guarded(q, emission as int));
                        if emissions_len(&self.pending) == PENDING_EMISSIONS_CAPACITY {
                            let _ = emissions_pop(&mut self.pending);
                        }
                        let _ = emissions_push(&mut self.pending, at, false);
                        let ghost r = self@.pending;
                        assert(r == push_rolling(q, (at, false)));
                        proof {
                            let whole = q.push((at, false));
                            assert forall|a: int, b: int| 0 <= a <= b < r.len() implies (
                            #[trigger] r[a]).0 <= (#[trigger] r[b]).0 by {
                                if q.len() < 64 {
                                    assert(whole[a].0 <= whole[b].0);
                                } else {
                                    assert(whole[a + 1].0 <= whole[b + 1].0);
                                }
                            }
                        }
                        i = i + 1;
                    }
                    self.window_predicted = true;
                },
                _ => {
                    sent.push(ClockInEvent::Tick(source));
                    self.window_predicted = false;
                },
            }
        } else if !self.window_predicted {
            sent.push(ClockInEvent::Tick(source));
        }
        self.tick_in_window = self.tick_in_window + 1;
        if self.tick_in_window >= SWING_WINDOW {
            self.tick_in_window = 0;
        }
        assert(sent@ =~= v0.straight_sends(source));
        sent
    }

    /// Pulse of a slower clock: `mult` ticks each.
    fn pulse_multiplied(&mut self, source: ClockSrc, ts: u64, mult: u32) -> (sent: Vec<
        ClockInEvent,
    >)
        requires
            old(self)@.wf(),
            old(self)@.multiply_fits(ts as int, mult as int),
            1 <= mult <= 24,
        ensures
            final(self)@.wf(),
            final(self)@ == old(self)@.multiplied(ts as int, mult as int),
            sent@ == if old(self)@.pending.len() == 0 {
                seq![ClockInEvent::MidiTick(source), ClockInEvent::Tick(source)]
            } else {
                Seq::empty()
            },
    {
        let ghost v0 = self@;
        let mut sent: Vec<ClockInEvent> = Vec::new();
        let stale: usize = emissions_len(&self.pending);
        if stale == 0 {
            sent.push(ClockInEvent::MidiTick(source));
            sent.push(ClockInEvent::Tick(source));
            assert(self@.pending =~= Seq::empty());
        } else {
            // Early pulse: the unfired ticks go out first, so that the count
            // at every pulse stays a multiple of `mult`.
            emissions_clear(&mut self.pending);
            let mut i: usize = 0;
            assert(self@.pending =~= catchup_queue(ts as int, 0));
            while i <= stale
                invariant
                    i <= stale + 1,
                    1 <= stale <= 64,
                    ts + 500 * stale <= u64::MAX,
                    self@ == (EngineView { pending: catchup_queue(ts as int, i as int), ..v0 }),
                decreases stale + 1 - i,
            {
                let _ = emissions_push(&mut self.pending, ts + CATCHUP_SPACING_US * i as u64, true);
                assert(self@.pending =~= catchup_queue(ts as int, i + 1));
                i = i + 1;
            }
        }
        let ghost q0 = self@.pending;
        match self.measured_ext_period {
            Some(period) => {
                let tick24: u64 = period / mult as u64;
                let mut i: u32 = 1;
                while i < mult
                    invariant
                        1 <= i <= mult <= 24,
                        ts + tick24 * (mult - 1) <= u64::MAX,
                        self@ == (EngineView {
                            pending: interpolated(q0, ts as int, tick24 as int, i as int),
                            ..v0
                        }),
                        self@.pending.len() <= 64,
                        in_order(self@.pending),
                    decreases mult - i,
                {
                    assert(0 <= tick24 * i <= tick24 * (mult - 1)) by (nonlinear_arith)
                        requires
                            0 <= tick24,
                            0 <= i <= mult - 1,
                    ;
                    let emission: u64 = ts + tick24 * i as u64;
                    let ghost q = self@.pending;
                    let at: u64 = match emissions_back(&self.pending) {
                        Some((back, _)) if emission < back => back,
                        _ => emission,
                    };
                    proof {
                        guarded_keeps_order(q, emission, true);
                    }
                    assert(at == guarded(q, emission as int));
                    let _ = emissions_push(&mut self.pending, at, true);
                    i = i + 1;
                }
            },
            None => {},
        }
        assert(sent@ =~= if v0.pending.len() == 0 {
            seq![ClockInEvent::MidiTick(source), ClockInEvent::Tick(source)]
        } else {
            Seq::empty()
        });
        sent
    }

    /// Pulse of a faster clock: every `div`-th one is a tick.
    fn pulse_divided(&mut self, source: ClockSrc, div: u32) -> (sent: Vec<ClockInEvent>)
        requires
            old(self)@.wf(),
            1 <= div <= 10,
        ensures
            final(self)@.wf(),
            final(self)@ == old(self)@.divided(div as int),
            sent@ == if old(self)@.ext_pulse_div_count == 0 {
                seq![ClockInEvent::MidiTick(source), ClockInEvent::Tick(source)]
            } else {
                Seq::empty()
            },
    {
        let mut sent: Vec<ClockInEvent> = Vec::new();
        if self.ext_pulse_div_count == 0 {
            sent.push(ClockInEvent::MidiTick(source));
            sent.push(ClockInEvent::Tick(source));
        }
        assert(sent@ =~= if old(self)@.ext_pulse_div_count == 0 {
            seq![ClockInEvent::MidiTick(source), ClockInEvent::Tick(source)]
        } else {
            Seq::empty()
        });
        self.ext_pulse_div_count = self.ext_pulse_div_count + 1;
        if self.ext_pulse_div_count >= div {
            self.ext_pulse_div_count = 0;
        }
        sent
    }

    /// A timing pulse from an analog pin or MIDI TimingClock. Pulses of one
    /// source arrive in order. A pulse of the internal source counts as one of
    /// 24 PPQN where that source drives the clock.
    pub fn on_pulse(&mut self, source: ClockSrc, timestamp: u64) -> (out: EngineOut)
        requires
            old(self)@.wf(),
            old(self)@.pulse_fits(source, timestamp as int),
        ensures
            final(self)@.wf(),
            final(self)@ == old(self)@.pulsed(source, timestamp as int),
            out.sent@ == old(self)@.pulse_sends(source, timestamp as int),
            out.store_running == if old(self)@.takes_pulse(source, timestamp as int) && analog(
                source,
            ) && !old(self)@.is_running {
                Some(true)
            } else {
                None
            },
    {
        let ghost v0 = self@;
        let mut store_running: Option<bool> = None;
        if source == self.config.reset_src && source != ClockSrc::Off {
            let mut sent: Vec<ClockInEvent> = Vec::new();
            sent.push(ClockInEvent::Reset(source));
            self.rephase();
            assert(sent@ =~= v0.pulse_sends(source, timestamp as int));
            return EngineOut { sent, store_running };
        }
        if source != self.config.clock_src {
            return EngineOut { sent: Vec::new(), store_running };
        }
        let from_pin = is_analog(source);
        if from_pin {
            match self.last_pulse {
                Some(last) => {
                    if timestamp - last < DEBOUNCE_THRESHOLD_US {
                        return EngineOut { sent: Vec::new(), store_running };
                    }
                },
                None => {},
            }
            if !self.is_running {
                self.is_running = true;
                store_running = Some(true);
            }
        }
        assert(v0.takes_pulse(source, timestamp as int));
        self.track(timestamp);
        let ghost v1 = self@;
        assert(v1 == v0.woken(source, timestamp as int));
        let ext_ppqn: u8 = if from_pin {
            effective_ppqn(self.config.ext_ppqn)
        } else {
            INTERNAL_PPQN
        };
        let sent = if ext_ppqn == INTERNAL_PPQN {
            self.pulse_straight(source, timestamp)
        } else if ext_ppqn < INTERNAL_PPQN {
            let mult: u8 = INTERNAL_PPQN / ext_ppqn;
            assert(1 <= mult <= 24) by (nonlinear_arith)
                requires
                    mult == 24u8 / ext_ppqn,
                    1 <= ext_ppqn < 24,
            ;
            self.pulse_multiplied(source, timestamp, mult as u32)
        } else {
            self.pulse_divided(source, (ext_ppqn / INTERNAL_PPQN) as u32)
        };
        self.next_tick_at = timestamp + watchdog_duration(self.measured_ext_period);
        EngineOut { sent, store_running }
    }
}

// ---------------------------------------------------------------------------
// Gatekeeper
// ---------------------------------------------------------------------------

/// What an auxiliary jack puts out.
#[derive(Clone, Copy, Debug, PartialEq, Eq, Structural)]
pub enum AuxJackMode {
    Idle,
    /// One trigger every so many ticks.
    ClockOut(u16),
    ResetOut,
}

#[derive(Clone, Copy, Debug, PartialEq, Eq, Structural)]
pub struct MidiOutConfig {
    pub send_clock: bool,
    pub send_transport: bool,
}

#[derive(Clone, Copy)]
pub struct GateConfig {
    pub clock_src: ClockSrc,
    pub reset_src: ClockSrc,
    pub outs: [MidiOutConfig; 3],
    pub aux: [AuxJackMode; 3],
}

/// MIDI realtime message to forward.
#[derive(Clone, Copy, Debug, PartialEq, Eq, Structural)]
pub enum Realtime {
    TimingClock,
    Start,
    Continue,
    Stop,
    Reset,
}

/// First auxiliary converter port.
pub const AUX_PORT: usize = 17;

/// How long a clock trigger stays high (ms).
pub const TICK_TRIGGER_MS: u64 = 5;

/// How long a reset trigger stays high (ms).
pub const RESET_TRIGGER_MS: u64 = 10;

pub struct Gatekeeper {
    pub is_running: bool,
    pub analog_tick_counters: [u16; 3],
    /// Ticks since the last reset; `u64::MAX` right after one, so that the
    /// first wrapping increment yields 0.
    pub tick_counter: u64,
    pub config: GateConfig,
}

/// What one clock event causes.
pub struct GateOut {
    /// Events published to the apps, in order.
    pub published: Vec<ClockEvent>,
    /// Analog ports driven high, and for how long.
    pub ports: heapless::Vec<Port, 4>,
    pub trigger_ms: u64,
    /// Realtime message and the MIDI outputs it goes to.
    pub midi: Option<(Realtime, [bool; 3])>,
}

/// Auxiliary jack `i` fires on this tick.
pub open spec fn aux_fires(aux: Seq<AuxJackMode>, counters: Seq<u16>, i: int) -> bool {
    aux[i] is ClockOut && counters[i] == 0
}

/// Counter of auxiliary jack `i` after a tick.
pub open spec fn aux_counted(aux: Seq<AuxJackMode>, counters: Seq<u16>, i: int) -> int {
    match aux[i] {
        AuxJackMode::ClockOut(div) => if counters[i] + 1 >= div { 0 } else { counters[i] + 1 },
        _ => counters[i] as int,
    }
}

/// Ports of the jacks below `n` that fire on this tick.
pub open spec fn tick_ports(aux: Seq<AuxJackMode>, counters: Seq<u16>, n: int) -> Seq<int>
    decreases n,
{
    if n <= 0 {
        Seq::empty()
    } else {
        let p = tick_ports(aux, counters, n - 1);
        if aux_fires(aux, counters, n - 1) { p.push(17 + n - 1) } else { p }
    }
}

/// Ports of the jacks below `n` that carry the reset.
pub open spec fn reset_ports(aux: Seq<AuxJackMode>, n: int) -> Seq<int>
    decreases n,
{
    if n <= 0 {
        Seq::empty()
    } else {
        let p = reset_ports(aux, n - 1);
        if aux[n - 1] is ResetOut { p.push(17 + n - 1) } else { p }
    }
}

impl Gatekeeper {
    /// A trigger counter never reaches the largest division.
    pub open spec fn wf(self) -> bool {
        forall|i: int| 0 <= i < 3 ==> #[trigger] self.analog_tick_counters[i] < 65535
    }

    /// The event comes from the source that is in charge of its kind.
    pub open spec fn active(self, event: ClockInEvent) -> bool {
        match event {
            ClockInEvent::Reset(s) => s == self.config.reset_src,
            _ => event.src() == self.config.clock_src,
        }
    }

    /// Ticks count while running; analog clocks are their own transport.
    pub open spec fn ticks_for(self, source: ClockSrc) -> bool {
        self.is_running || analog(source)
    }

    pub open spec fn publishes(self, event: ClockInEvent) -> Seq<ClockEvent> {
        if !self.active(event) {
            Seq::empty()
        } else {
            match event {
                ClockInEvent::Tick(s) => if self.ticks_for(s) {
                    seq![ClockEvent::Tick(self.next_count())]
                } else {
                    Seq::empty()
                },
                ClockInEvent::MidiTick(_) => Seq::empty(),
                ClockInEvent::Continue(_) => seq![ClockEvent::Start],
                ClockInEvent::Start(_) => seq![ClockEvent::Reset, ClockEvent::Start],
                ClockInEvent::Stop(_) => seq![ClockEvent::Stop],
                ClockInEvent::Reset(_) => seq![ClockEvent::Reset],
            }
        }
    }

    pub open spec fn next_count(self) -> u64 {
        if self.tick_counter == u64::MAX { 0 } else { (self.tick_counter + 1) as u64 }
    }

    pub open spec fn realtime(self, event: ClockInEvent) -> Option<Realtime> {
        match event {
            ClockInEvent::Tick(_) => None,
            ClockInEvent::MidiTick(s) => if self.ticks_for(s) {
                Some(Realtime::TimingClock)
            } else {
                None
            },
            ClockInEvent::Continue(_) => Some(Realtime::Continue),
            ClockInEvent::Start(_) => Some(Realtime::Start),
            ClockInEvent::Stop(_) => Some(Realtime::Stop),
            ClockInEvent::Reset(_) => Some(Realtime::Reset),
        }
    }

    /// Whether MIDI output `i` takes this kind of event.
    pub open spec fn routed(self, event: ClockInEvent, i: int) -> bool {
        if event.clock() { self.config.outs[i].send_clock } else {
            self.config.outs[i].send_transport
        }
    }

    /// Ports that an event drives.
    pub open spec fn drives(self, event: ClockInEvent) -> Seq<int> {
        if !self.active(event) {
            Seq::empty()
        } else {
            match event {
                ClockInEvent::Tick(s) => if self.ticks_for(s) {
                    tick_ports(self.config.aux@, self.analog_tick_counters@, 3)
                } else {
                    Seq::empty()
                },
                ClockInEvent::Start(_) => reset_ports(self.config.aux@, 3),
                ClockInEvent::Reset(_) => reset_ports(self.config.aux@, 3),
                _ => Seq::empty(),
            }
        }
    }

    pub fn new(config: GateConfig) -> (r: Self)
        ensures
            r.wf(),
            !r.is_running,
            r.tick_counter == u64::MAX,
            r.analog_tick_counters@ == seq![0u16, 0, 0],
            r.config == config,
    {
        let r = Gatekeeper {
            is_running: false,
            analog_tick_counters: [0, 0, 0],
            tick_counter: u64::MAX,
            config,
        };
        assert(r.analog_tick_counters@ =~= seq![0u16, 0, 0]);
        r
    }

    /// Advances the trigger counters by one tick and lists the ports to drive.
    fn send_analog_ticks(&mut self) -> (ports: heapless::Vec<Port, 4>)
        requires
            old(self).wf(),
        ensures
            final(self).wf(),
            final(self).is_running == old(self).is_running,
            final(self).tick_counter == old(self).tick_counter,
            final(self).config == old(self).config,
            forall|i: int|
                0 <= i < 3 ==> #[trigger] final(self).analog_tick_counters[i] == aux_counted(
                    old(self).config.aux@,
                    old(self).analog_tick_counters@,
                    i,
                ),
            port_numbers(ports) == tick_ports(
                old(self).config.aux@,
                old(self).analog_tick_counters@,
                3,
            ),
    {
        let ghost g0 = *self;
        let ghost aux = g0.config.aux@;
        let ghost c0 = g0.analog_tick_counters@;
        let mut ports = ports_new();
        let mut i: usize = 0;
        while i < 3
            invariant
                i <= 3,
                g0.wf(),
                aux == g0.config.aux@,
                c0 == g0.analog_tick_counters@,
                self.is_running == g0.is_running,
                self.tick_counter == g0.tick_counter,
                self.config == g0.config,
                forall|k: int|
                    0 <= k < 3 ==> #[trigger] self.analog_tick_counters[k] == if k < i {
                        aux_counted(aux, c0, k)
                    } else {
                        c0[k] as int
                    },
                port_numbers(ports) == tick_ports(aux, c0, i as int),
                port_numbers(ports).len() <= i,
                self.wf(),
            decreases 3 - i,
        {
            match self.config.aux[i] {
                AuxJackMode::ClockOut(div) => {
                    let c: u16 = self.analog_tick_counters[i];
                    assert(c == c0[i as int]);
                    if c == 0 {
                        ports_push(&mut ports, AUX_PORT + i);
                    }
                    self.analog_tick_counters[i] = if c + 1 >= div { 0 } else { c + 1 };
                },
                _ => {},
            }
            i = i + 1;
        }
        ports
    }

    /// Lists the ports that carry the reset.
    fn send_analog_reset(&self) -> (ports: heapless::Vec<Port, 4>)
        ensures
            port_numbers(ports) == reset_ports(self.config.aux@, 3),
    {
        let mut ports = ports_new();
        let mut i: usize = 0;
        while i < 3
            invariant
                i <= 3,
                port_numbers(ports) == reset_ports(self.config.aux@, i as int),
                port_numbers(ports).len() <= i,
            decreases 3 - i,
        {
            match self.config.aux[i] {
                AuxJackMode::ResetOut => {
                    ports_push(&mut ports, AUX_PORT + i);
                },
                _ => {},
            }
            i = i + 1;
        }
        ports
    }

    /// One clock event has come in.
    pub fn on_event(&mut self, event: ClockInEvent) -> (out: GateOut)
        requires
            old(self).wf(),
        ensures
            final(self).wf(),
            final(self).config == old(self).config,
            out.published@ == old(self).publishes(event),
            port_numbers(out.ports) == old(self).drives(event),
            out.trigger_ms == if event is Tick { TICK_TRIGGER_MS } else { RESET_TRIGGER_MS },
            // The run state, the counter and the triggers.
            final(self).is_running == if !old(self).active(event) {
                old(self).is_running
            } else {
                match event {
                    ClockInEvent::Start(_) => true,
                    ClockInEvent::Continue(_) => true,
                    ClockInEvent::Stop(_) => false,
                    _ => old(self).is_running,
                }
            },
            final(self).tick_counter == if !old(self).active(event) {
                old(self).tick_counter
            } else {
                match event {
                    ClockInEvent::Tick(s) => if old(self).ticks_for(s) {
                        old(self).next_count()
                    } else {
                        old(self).tick_counter
                    },
                    ClockInEvent::Start(_) => u64::MAX,
                    ClockInEvent::Reset(_) => u64::MAX,
                    _ => old(self).tick_counter,
                }
            },
            forall|i: int|
                0 <= i < 3 ==> #[trigger] final(self).analog_tick_counters[i]
                    == if !old(self).active(event) {
                    old(self).analog_tick_counters[i] as int
                } else {
                    match event {
                        ClockInEvent::Tick(s) => if old(self).ticks_for(s) {
                            aux_counted(
                                old(self).config.aux@,
                                old(self).analog_tick_counters@,
                                i,
                            )
                        } else {
                            old(self).analog_tick_counters[i] as int
                        },
                        ClockInEvent::Start(_) => 0,
                        ClockInEvent::Reset(_) => 0,
                        _ => old(self).analog_tick_counters[i] as int,
                    }
                },
            // The MIDI message and its targets.
            out.midi is Some <==> old(self).active(event) && old(self).realtime(event) is Some && (
            exists|i: int| 0 <= i < 3 && #[trigger] old(self).routed(event, i)),
            out.midi matches Some((m, targets)) ==> Some(m) == old(self).realtime(event) && forall|
                i: int,
            |
                0 <= i < 3 ==> #[trigger] targets[i] == old(self).routed(event, i),
            // Whatever is sent is the event itself: nothing else stops, starts
            // or resets the connected gear.
            out.midi matches Some((m, _)) ==> {
                &&& m is Stop <==> event is Stop
                &&& m is Start <==> event is Start
                &&& m is Continue <==> event is Continue
                &&& m is Reset <==> event is Reset
                &&& m is TimingClock <==> event is MidiTick
            },
            forall|i: int|
                0 <= i < 3 && (#[trigger] old(self).config.outs[i]).send_transport ==> {
                    &&& event == ClockInEvent::Stop(old(self).config.clock_src) ==> out.midi is Some
                    &&& event == ClockInEvent::Start(old(self).config.clock_src) ==> out.midi is Some
                    &&& event == ClockInEvent::Continue(old(self).config.clock_src)
                        ==> out.midi is Some
                    &&& event == ClockInEvent::Reset(old(self).config.reset_src)
                        ==> out.midi is Some
                },
    {
        let ghost g0 = *self;
        let mut published: Vec<ClockEvent> = Vec::new();
        let mut ports = ports_new();
        let trigger_ms: u64 = match event {
            ClockInEvent::Tick(_) => TICK_TRIGGER_MS,
            _ => RESET_TRIGGER_MS,
        };
        let is_active = match event {
            ClockInEvent::Reset(s) => s == self.config.reset_src,
            _ => event.source() == self.config.clock_src,
        };
        if !is_active {
            return GateOut { published, ports, trigger_ms, midi: None };
        }
        let outs = self.config.outs;
        let targets: [bool; 3] = if event.is_clock() {
            [outs[0].send_clock, outs[1].send_clock, outs[2].send_clock]
        } else {
            [outs[0].send_transport, outs[1].send_transport, outs[2].send_transport]
        };
        assert(targets[0] == g0.routed(event, 0));
        assert(targets[1] == g0.routed(event, 1));
        assert(targets[2] == g0.routed(event, 2));
        let should_send_midi = targets[0] || targets[1] || targets[2];
        let mut rt: Option<Realtime> = None;
        match event {
            ClockInEvent::Tick(source) => {
                if self.is_running || is_analog(source) {
                    self.tick_counter = if self.tick_counter == u64::MAX {
                        0
                    } else {
                        self.tick_counter + 1
                    };
                    published.push(ClockEvent::Tick(self.tick_counter));
                    ports = self.send_analog_ticks();
                }
            },
            ClockInEvent::MidiTick(source) => {
                if self.is_running || is_analog(source) {
                    rt = Some(Realtime::TimingClock);
                }
            },
            ClockInEvent::Continue(_) => {
                self.is_running = true;
                published.push(ClockEvent::Start);
                rt = Some(Realtime::Continue);
            },
            ClockInEvent::Start(_) => {
                self.tick_counter = u64::MAX;
                self.is_running = true;
                published.push(ClockEvent::Reset);
                published.push(ClockEvent::Start);
                self.analog_tick_counters = [0, 0, 0];
                ports = self.send_analog_reset();
                rt = Some(Realtime::Start);
            },
            ClockInEvent::Stop(_) => {
                self.is_running = false;
                published.push(ClockEvent::Stop);
                rt = Some(Realtime::Stop);
            },
            ClockInEvent::Reset(_) => {
                self.tick_counter = u64::MAX;
                published.push(ClockEvent::Reset);
                self.analog_tick_counters = [0, 0, 0];
                ports = self.send_analog_reset();
                rt = Some(Realtime::Reset);
            },
        }
        assert(published@ =~= g0.publishes(event));
        let midi = match rt {
            Some(m) if should_send_midi => Some((m, targets)),
            _ => None,
        };
        GateOut { published, ports, trigger_ms, midi }
    }

    /// The configuration has changed; a new clock source stops the clock.
    pub fn on_config(&mut self, new: GateConfig)
        requires
            old(self).wf(),
        ensures
            final(self).wf(),
            final(self).config == new,
            final(self).tick_counter == old(self).tick_counter,
            old(self).config.clock_src == new.clock_src ==> final(self).is_running
                == old(self).is_running && final(self).analog_tick_counters
                == old(self).analog_tick_counters,
            old(self).config.clock_src != new.clock_src ==> !final(self).is_running && final(self).analog_tick_counters@
                == seq![0u16, 0, 0],
    {
        if self.config.clock_src != new.clock_src {
            self.is_running = false;
            self.analog_tick_counters = [0, 0, 0];
            assert(self.analog_tick_counters@ =~= seq![0u16, 0, 0]);
        }
        self.config = new;
    }
}

// ---------------------------------------------------------------------------
// Metronome
// ---------------------------------------------------------------------------

/// Beat flash derived from the tick counter alone, polled every millisecond.
#[derive(Clone, Copy, Debug, PartialEq, Eq, Structural)]
pub struct Metronome {
    pub last_seen: u64,
    pub last_beat: u64,
    pub high_left_ms: u16,
}

impl Metronome {
    pub fn new(counter: u64) -> (r: Self)
        ensures
            r == (Metronome { last_seen: counter, last_beat: u64::MAX, high_left_ms: 0 }),
    {
        Metronome { last_seen: counter, last_beat: u64::MAX, high_left_ms: 0 }
    }

    /// A new beat begins when the counter restarts or enters another quarter.
    pub open spec fn beats(self, counter: u64) -> bool {
        counter != self.last_seen && (counter < self.last_seen || counter / 24 != self.last_beat)
    }

    /// The high time runs out in this millisecond.
    pub open spec fn expires(self) -> bool {
        self.high_left_ms == 1
    }

    /// One millisecond has passed and the tick counter reads `counter`. The
    /// result is the new level of the flash where it changes.
    pub fn step(&mut self, counter: u64) -> (level: Option<bool>)
        ensures
            level == if old(self).beats(counter) {
                Some(true)
            } else if old(self).expires() {
                Some(false)
            } else {
                None
            },
            final(self).last_seen == counter,
            final(self).last_beat == if counter == old(self).last_seen {
                old(self).last_beat
            } else {
                counter / 24
            },
            final(self).high_left_ms == if old(self).beats(counter) {
                METRONOME_HIGH_MS as int
            } else if old(self).high_left_ms > 0 {
                old(self).high_left_ms - 1
            } else {
                0
            },
    {
        let mut level: Option<bool> = None;
        if self.high_left_ms > 0 {
            self.high_left_ms = self.high_left_ms - 1;
            if self.high_left_ms == 0 {
                level = Some(false);
            }
        }
        if counter == self.last_seen {
            return level;
        }
        if counter < self.last_seen {
            self.last_beat = u64::MAX;
            level = Some(true);
            self.high_left_ms = METRONOME_HIGH_MS;
        }
        self.last_seen = counter;
        let beat: u64 = counter / 24;
        if beat != self.last_beat {
            self.last_beat = beat;
            level = Some(true);
            self.high_left_ms = METRONOME_HIGH_MS;
        }
        level
    }
}

// ---------------------------------------------------------------------------
// Laws
// ---------------------------------------------------------------------------

/// The engine always locks: the ratio it uses divides 24 or is a multiple of
/// it, and snapping it again changes nothing.
pub proof fn ppqn_always_locks(ext_ppqn: int)
    ensures
        lockable(locked_ppqn(ext_ppqn)),
        locked_ppqn(locked_ppqn(ext_ppqn)) == locked_ppqn(ext_ppqn),
{
}

/// Swung ticks stay clear of the end of their window.
pub proof fn swing_stays_in_window(i: int, t: int, swing: int)
    requires
        0 <= i <= 12,
        500 <= 12 * t,
    ensures
        0 <= swing_offset(i, t, swing) <= 12 * t - 500,
{
}

/// Without swing the ticks lie on the straight grid.
pub proof fn no_swing_is_straight(i: int, t: int)
    requires
        0 <= i < 12,
        500 <= t,
    ensures
        swing_offset(i, t, 0) == i * t,
{
    assert(6 * t * (50 + 0int) == 300 * t) by (nonlinear_arith);
    assert(0 <= i * t <= 11 * t) by (nonlinear_arith)
        requires
            0 <= i <= 11,
            0 <= t,
    ;
    assert(6 * t + (i - 6) * t == i * t) by (nonlinear_arith);
}

/// The schedule of a window is monotone for every swing that does not pull the
/// second half before the last tick of the first.
pub proof fn swing_is_monotone(i: int, j: int, t: int, swing: int)
    requires
        0 <= i <= j <= 12,
        0 <= t,
        -8 <= swing <= 127,
    ensures
        swing_offset(i, t, swing) <= swing_offset(j, t, swing),
{
    assert(i * t <= j * t) by (nonlinear_arith)
        requires
            i <= j,
            0 <= t,
    ;
    assert((i - 6) * t <= (j - 6) * t) by (nonlinear_arith)
        requires
            i <= j,
            0 <= t,
    ;
    assert(252 * t <= 6 * t * (50 + swing)) by (nonlinear_arith)
        requires
            -8 <= swing,
            0 <= t,
    ;
    if i < 6 && j >= 6 {
        assert(i * t <= 5 * t) by (nonlinear_arith)
            requires
                i <= 5,
                0 <= t,
        ;
        assert(0 <= (j - 6) * t) by (nonlinear_arith)
            requires
                6 <= j,
                0 <= t,
        ;
    }
}

/// Number of clock ticks among the sent events.
pub open spec fn ticks_in(sent: Seq<ClockInEvent>) -> int
    decreases sent.len(),
{
    if sent.len() == 0 {
        0
    } else {
        ticks_in(sent.drop_last()) + if sent.last() is Tick { 1int } else { 0 }
    }
}

proof fn ticks_in_short(sent: Seq<ClockInEvent>)
    ensures
        sent.len() == 0 ==> ticks_in(sent) == 0,
        sent.len() == 1 ==> ticks_in(sent) == if sent[0] is Tick { 1int } else { 0 },
        sent.len() == 2 ==> ticks_in(sent) == (if sent[0] is Tick { 1int } else { 0 }) + (
        if sent[1] is Tick { 1int } else { 0 }),
{
    reveal_with_fuel(ticks_in, 3);
}

proof fn interpolated_len(q: Seq<(u64, bool)>, ts: int, tick24: int, n: int)
    requires
        q.len() <= 64,
        n >= 1,
    ensures
        interpolated(q, ts, tick24, n).len() == min_int(q.len() + n - 1, 64),
    decreases n,
{
    if n > 1 {
        interpolated_len(q, ts, tick24, n - 1);
    }
}

/// Clock multiplication neither drops nor invents ticks: each pulse adds
/// exactly `mult` ticks to those sent and those still scheduled, early pulses
/// included, as long as the queue holds them.
pub proof fn each_pulse_adds_its_ticks(v: EngineView, source: ClockSrc, ts: int)
    requires
        v.takes_pulse(source, ts),
        v.ppqn(source) < 24,
        v.woken(source, ts).measured_ext_period is Some,
        v.pending.len() + 24int / v.ppqn(source) <= 64,
    ensures
        ticks_in(v.pulse_sends(source, ts)) + v.pulsed(source, ts).pending.len()
            == v.pending.len() + 24int / v.ppqn(source),
{
    let w = v.woken(source, ts);
    let n = v.ppqn(source);
    let mult = 24int / n;
    assert(mult >= 1) by (nonlinear_arith)
        requires
            mult == 24int / n,
            0 < n < 24,
    ;
    let stale = v.pending.len() as int;
    let q = if stale == 0 { Seq::empty() } else { catchup_queue(ts, stale + 1) };
    interpolated_len(q, ts, w.measured_ext_period->0 as int / mult, mult);
    ticks_in_short(v.pulse_sends(source, ts));
}

/// Scheduled ticks come out one for one: a timer step of an external clock that
/// is not lost sends as many ticks as leave the queue.
pub proof fn queued_ticks_come_out(v: EngineView, now: int)
    requires
        v.config.clock_src != ClockSrc::Internal,
        !v.loses(now),
    ensures
        ticks_in(v.timer_sends(now)) + v.timed(now).pending.len() == v.pending.len(),
{
    ticks_in_short(v.timer_sends(now));
}

// ---------------------------------------------------------------------------
// Laws over whole runs
// ---------------------------------------------------------------------------

/// What happens to the engine in a run on an external source.
pub enum Step {
    /// A pulse of the source at a time.
    Pulse(int),
    /// The timer fires at a time.
    Timer(int),
}

/// Number of pulses among the steps of a run.
pub open spec fn pulses_in(steps: Seq<Step>) -> int
    decreases steps.len(),
{
    if steps.len() == 0 {
        0
    } else {
        pulses_in(steps.drop_last()) + if steps.last() is Pulse { 1int } else { 0 }
    }
}

impl EngineView {
    /// State after one step.
    pub open spec fn stepped(self, source: ClockSrc, step: Step) -> EngineView {
        match step {
            Step::Pulse(ts) => self.pulsed(source, ts),
            Step::Timer(now) => self.timed(now),
        }
    }

    /// Events sent in one step.
    pub open spec fn step_sends(self, source: ClockSrc, step: Step) -> Seq<ClockInEvent> {
        match step {
            Step::Pulse(ts) => self.pulse_sends(source, ts),
            Step::Timer(now) => self.timer_sends(now),
        }
    }

    /// State after a run.
    pub open spec fn after(self, source: ClockSrc, steps: Seq<Step>) -> EngineView
        decreases steps.len(),
    {
        if steps.len() == 0 {
            self
        } else {
            self.after(source, steps.drop_last()).stepped(source, steps.last())
        }
    }

    /// Events sent in a run, in order.
    pub open spec fn sends(self, source: ClockSrc, steps: Seq<Step>) -> Seq<ClockInEvent>
        decreases steps.len(),
    {
        if steps.len() == 0 {
            Seq::empty()
        } else {
            self.sends(source, steps.drop_last()) + self.after(
                source,
                steps.drop_last(),
            ).step_sends(source, steps.last())
        }
    }

    /// A step of a living clock: a pulse drives it, and the timer does not find
    /// it lost.
    pub open spec fn lives(self, source: ClockSrc, step: Step) -> bool {
        match step {
            Step::Pulse(ts) => self.takes_pulse(source, ts),
            Step::Timer(now) => !self.loses(now),
        }
    }

    /// Every step of the run is one of a living clock.
    pub open spec fn runs(self, source: ClockSrc, steps: Seq<Step>) -> bool
        decreases steps.len(),
    {
        steps.len() == 0 || (self.runs(source, steps.drop_last()) && self.after(
            source,
            steps.drop_last(),
        ).lives(source, steps.last()))
    }

    /// Every pulse of the run has a measured period, and the queue has room for
    /// its ticks.
    pub open spec fn has_room(self, source: ClockSrc, steps: Seq<Step>) -> bool
        decreases steps.len(),
    {
        steps.len() == 0 || (self.has_room(source, steps.drop_last()) && match steps.last() {
            Step::Pulse(ts) => {
                let v = self.after(source, steps.drop_last());
                &&& v.woken(source, ts).measured_ext_period is Some
                &&& v.pending.len() + 24int / v.ppqn(source) <= 64
            },
            Step::Timer(_) => true,
        })
    }

    /// Number of ticks that go out before the own tick of a pulse that comes
    /// now: those that are still scheduled.
    pub open spec fn ticks_ahead(self) -> int {
        self.pending.len() as int
    }
}

/// A run does not change the configuration.
proof fn runs_keep_config(v: EngineView, source: ClockSrc, steps: Seq<Step>)
    requires
        v.runs(source, steps),
    ensures
        v.after(source, steps).config == v.config,
    decreases steps.len(),
{
    if steps.len() > 0 {
        runs_keep_config(v, source, steps.drop_last());
    }
}

proof fn ticks_in_sum(a: Seq<ClockInEvent>, b: Seq<ClockInEvent>)
    ensures
        ticks_in(a + b) == ticks_in(a) + ticks_in(b),
    decreases b.len(),
{
    if b.len() == 0 {
        assert(a + b =~= a);
    } else {
        assert((a + b).drop_last() =~= a + b.drop_last());
        assert((a + b).last() == b.last());
        ticks_in_sum(a, b.drop_last());
    }
}

/// In a run on a slower clock nothing is lost and nothing invented: the ticks
/// sent and those still scheduled are those scheduled at the start and `mult`
/// for each pulse, wherever the pulses and the timer fall.
pub proof fn runs_count_their_ticks(v: EngineView, source: ClockSrc, steps: Seq<Step>)
    requires
        v.runs(source, steps),
        v.has_room(source, steps),
        v.pending.len() <= 64,
        v.config.clock_src == source,
        analog(source),
        v.ppqn(source) < 24,
    ensures
        ticks_in(v.sends(source, steps)) + v.after(source, steps).pending.len() == v.pending.len()
            + 24int / v.ppqn(source) * pulses_in(steps),
    decreases steps.len(),
{
    let mult = 24int / v.ppqn(source);
    if steps.len() == 0 {
        assert(mult * 0 == 0);
    } else {
        let before = steps.drop_last();
        let w = v.after(source, before);
        runs_count_their_ticks(v, source, before);
        runs_keep_config(v, source, before);
        ticks_in_sum(v.sends(source, before), w.step_sends(source, steps.last()));
        match steps.last() {
            Step::Pulse(ts) => {
                each_pulse_adds_its_ticks(w, source, ts);
                assert(mult * (pulses_in(before) + 1) == mult * pulses_in(before) + mult)
                    by (nonlinear_arith);
            },
            Step::Timer(now) => {
                queued_ticks_come_out(w, now);
            },
        }
    }
}

/// The own tick of a pulse goes out at once, or behind the ticks that were
/// still scheduled, which go out before it.
pub proof fn own_tick_follows_stale_ticks(v: EngineView, source: ClockSrc, ts: int)
    requires
        v.takes_pulse(source, ts),
        v.ppqn(source) < 24,
        v.woken(source, ts).measured_ext_period is Some,
        v.pending.len() + 24int / v.ppqn(source) <= 64,
    ensures
        v.ticks_ahead() == 0 ==> v.pulse_sends(source, ts) == seq![
            ClockInEvent::MidiTick(source),
            ClockInEvent::Tick(source),
        ],
        v.ticks_ahead() > 0 ==> {
            &&& v.pulse_sends(source, ts) == Seq::<ClockInEvent>::empty()
            &&& forall|i: int|
                0 <= i <= v.ticks_ahead() ==> #[trigger] v.pulsed(source, ts).pending[i] == (
                    (ts + 500 * i) as u64,
                    true,
                )
        },
{
    let w = v.woken(source, ts);
    let n = v.ppqn(source);
    let mult = 24int / n;
    assert(mult >= 1) by (nonlinear_arith)
        requires
            mult == 24int / n,
            0 < n < 24,
    ;
    if v.ticks_ahead() > 0 {
        let q = catchup_queue(ts, v.ticks_ahead() + 1);
        interpolated_extends(q, ts, w.measured_ext_period->0 as int / mult, mult);
    }
}

proof fn interpolated_extends(q: Seq<(u64, bool)>, ts: int, tick24: int, n: int)
    requires
        q.len() <= 64,
        n >= 1,
    ensures
        interpolated(q, ts, tick24, n).len() >= q.len(),
        forall|i: int|
            0 <= i < q.len() ==> #[trigger] interpolated(q, ts, tick24, n)[i] == q[i],
    decreases n,
{
    if n > 1 {
        interpolated_extends(q, ts, tick24, n - 1);
    }
}

/// Between the own ticks of two consecutive pulses of a slower clock exactly
/// `mult - 1` other ticks go out, whether the second pulse comes early, on time
/// or late. Of the ticks sent from the first pulse on, the own tick of the first
/// has the number `ticks_ahead` of the state that it came in, and that of the
/// second the number of ticks sent up to it and `ticks_ahead` of its state.
pub proof fn ticks_between_pulses(
    v: EngineView,
    source: ClockSrc,
    ts: int,
    timers: Seq<Step>,
    ts2: int,
)
    requires
        forall|i: int| 0 <= i < timers.len() ==> #[trigger] timers[i] is Timer,
        v.runs(source, seq![Step::Pulse(ts)] + timers + seq![Step::Pulse(ts2)]),
        v.has_room(source, seq![Step::Pulse(ts)] + timers + seq![Step::Pulse(ts2)]),
        v.pending.len() <= 64,
        v.config.clock_src == source,
        analog(source),
        v.ppqn(source) < 24,
    ensures
        ({
            let steps = seq![Step::Pulse(ts)] + timers;
            let first = v.ticks_ahead();
            let second = ticks_in(v.sends(source, steps)) + v.after(source, steps).ticks_ahead();
            second - first - 1 == 24int / v.ppqn(source) - 1
        }),
{
    let steps = seq![Step::Pulse(ts)] + timers;
    let all = steps + seq![Step::Pulse(ts2)];
    assert(all.drop_last() =~= steps);
    one_pulse(ts, timers);
    runs_count_their_ticks(v, source, steps);
    assert(24int / v.ppqn(source) * 1 == 24int / v.ppqn(source));
}

proof fn one_pulse(ts: int, timers: Seq<Step>)
    requires
        forall|i: int| 0 <= i < timers.len() ==> #[trigger] timers[i] is Timer,
    ensures
        pulses_in(seq![Step::Pulse(ts)] + timers) == 1,
    decreases timers.len(),
{
    let steps = seq![Step::Pulse(ts)] + timers;
    if timers.len() == 0 {
        assert(steps.drop_last() =~= Seq::empty());
        assert(pulses_in(steps.drop_last()) == 0);
    } else {
        assert(steps.drop_last() =~= seq![Step::Pulse(ts)] + timers.drop_last());
        assert(steps.last() == timers.last());
        one_pulse(ts, timers.drop_last());
    }
}

/// Events that come as pairs of a MIDI tick and a tick of the source.
pub open spec fn paired(sent: Seq<ClockInEvent>, source: ClockSrc) -> bool {
    &&& sent.len() % 2 == 0
    &&& forall|k: int|
        0 <= k < sent.len() ==> #[trigger] sent[k] == if k % 2 == 0 {
            ClockInEvent::MidiTick(source)
        } else {
            ClockInEvent::Tick(source)
        }
}

/// Every tick of a multiplied clock is preceded by one MIDI tick: in a run from
/// a state whose scheduled ticks all carry one, the events are such pairs and
/// nothing else.
pub proof fn multiplied_ticks_are_paired(v: EngineView, source: ClockSrc, steps: Seq<Step>)
    requires
        v.runs(source, steps),
        v.config.clock_src == source,
        analog(source),
        v.ppqn(source) < 24,
        forall|i: int| 0 <= i < v.pending.len() ==> (#[trigger] v.pending[i]).1,
    ensures
        paired(v.sends(source, steps), source),
        forall|i: int|
            0 <= i < v.after(source, steps).pending.len() ==> (#[trigger] v.after(
                source,
                steps,
            ).pending[i]).1,
    decreases steps.len(),
{
    if steps.len() > 0 {
        let before = steps.drop_last();
        let w = v.after(source, before);
        multiplied_ticks_are_paired(v, source, before);
        runs_keep_config(v, source, before);
        let a = v.sends(source, before);
        let b = w.step_sends(source, steps.last());
        assert(paired(b, source));
        assert forall|k: int| 0 <= k < (a + b).len() implies #[trigger] (a + b)[k] == if k % 2
            == 0 {
            ClockInEvent::MidiTick(source)
        } else {
            ClockInEvent::Tick(source)
        } by {
            if k >= a.len() {
                assert((a + b)[k] == b[k - a.len()]);
            } else {
                assert((a + b)[k] == a[k]);
            }
        }
        match steps.last() {
            Step::Pulse(ts) => {
                let stale = w.pending.len() as int;
                let q = if stale == 0 { Seq::empty() } else { catchup_queue(ts, stale + 1) };
                let n = w.ppqn(source);
                let mult = 24int / n;
                match w.woken(source, ts).measured_ext_period {
                    Some(p) => {
                        interpolated_carry_midi(q, ts, p as int / mult, mult);
                    },
                    None => {},
                }
            },
            Step::Timer(now) => {},
        }
    }
}

proof fn interpolated_carry_midi(q: Seq<(u64, bool)>, ts: int, tick24: int, n: int)
    requires
        forall|i: int| 0 <= i < q.len() ==> (#[trigger] q[i]).1,
    ensures
        forall|i: int|
            0 <= i < interpolated(q, ts, tick24, n).len() ==> (#[trigger] interpolated(
                q,
                ts,
                tick24,
                n,
            )[i]).1,
    decreases n,
{
    if n > 1 {
        interpolated_carry_midi(q, ts, tick24, n - 1);
        let p = interpolated(q, ts, tick24, n - 1);
        let r = interpolated(q, ts, tick24, n);
        assert forall|i: int| 0 <= i < r.len() implies (#[trigger] r[i]).1 by {
            if i < p.len() {
                assert(p[i].1);
            }
        }
    }
}

/// Clock division lets every `div`-th pulse through, counted from where the
/// phase was last cleared: the pulse after `k` others sends one MIDI tick and
/// one tick where `k` is a multiple of the division, and nothing elsewhere. So
/// the first pulse after a reset is the downbeat.
pub proof fn every_nth_pulse_ticks(v: EngineView, source: ClockSrc, steps: Seq<Step>, ts: int)
    requires
        v.runs(source, steps + seq![Step::Pulse(ts)]),
        v.config.clock_src == source,
        analog(source),
        v.ppqn(source) > 24,
        v.ext_pulse_div_count == 0,
    ensures
        v.after(source, steps).pulse_sends(source, ts) == if pulses_in(steps) % (v.ppqn(source)
            / 24) == 0 {
            seq![ClockInEvent::MidiTick(source), ClockInEvent::Tick(source)]
        } else {
            Seq::empty()
        },
{
    assert((steps + seq![Step::Pulse(ts)]).drop_last() =~= steps);
    runs_keep_config(v, source, steps);
    divider_counts_pulses(v, source, steps);
}

/// Start, reset, a lost clock and a new ratio clear the phase.
pub proof fn phase_is_cleared(v: EngineView, source: ClockSrc, now: int)
    ensures
        v.config.clock_src == source ==> v.transported(
            ClockInEvent::Start(source),
            now,
        ).ext_pulse_div_count == 0,
        v.config.clock_src == source ==> v.transported(
            ClockInEvent::Stop(source),
            now,
        ).ext_pulse_div_count == 0,
        v.config.clock_src == source ==> v.transported(
            ClockInEvent::Reset(source),
            now,
        ).ext_pulse_div_count == 0,
        v.lost().ext_pulse_div_count == 0,
        v.is_reset_pulse(source) ==> v.pulsed(source, now).ext_pulse_div_count == 0,
        forall|new: ClockConfig|
            new.clock_src != v.config.clock_src || (new.clock_src != ClockSrc::Internal
                && new.ext_ppqn != v.config.ext_ppqn) ==> (#[trigger] v.configured(
                new,
                now,
            )).ext_pulse_div_count == 0,
{
}

proof fn divider_counts_pulses(v: EngineView, source: ClockSrc, steps: Seq<Step>)
    requires
        v.runs(source, steps),
        v.config.clock_src == source,
        analog(source),
        v.ppqn(source) > 24,
        v.ext_pulse_div_count == 0,
    ensures
        v.after(source, steps).ext_pulse_div_count == pulses_in(steps) % (v.ppqn(source) / 24),
        pulses_in(steps) >= 0,
    decreases steps.len(),
{
    let div = v.ppqn(source) / 24;
    assert(div >= 1);
    if steps.len() == 0 {
        vstd::arithmetic::div_mod::lemma_small_mod(0, div as nat);
    } else {
        let before = steps.drop_last();
        let w = v.after(source, before);
        divider_counts_pulses(v, source, before);
        runs_keep_config(v, source, before);
        let k = pulses_in(before);
        match steps.last() {
            Step::Pulse(ts) => {
                assert((k + 1) % div == if k % div + 1 == div { 0 } else { k % div + 1 } && 0 <= k
                    % div < div) by (nonlinear_arith)
                    requires
                        k >= 0,
                        div >= 1,
                ;
            },
            Step::Timer(now) => {},
        }
    }
}

// ---------------------------------------------------------------------------
// Laws on time
// ---------------------------------------------------------------------------

proof fn window_queue_bounded(q: Seq<(u64, bool)>, start: int, t: int, swing: int, n: int)
    requires
        q.len() <= 64,
        forall|i: int| 0 <= i < q.len() ==> (#[trigger] q[i]).0 <= 64 * TIME_LIMIT,
        0 <= start <= TIME_LIMIT,
        0 <= t <= TIME_LIMIT,
        -128 <= swing <= 127,
        n <= 12,
    ensures
        window_queue(q, start, t, swing, n).len() <= 64,
        forall|i: int|
            0 <= i < window_queue(q, start, t, swing, n).len() ==> (#[trigger] window_queue(
                q,
                start,
                t,
                swing,
                n,
            )[i]).0 <= 64 * TIME_LIMIT,
    decreases n,
{
    if n > 0 {
        window_queue_bounded(q, start, t, swing, n - 1);
        short_swing_fits(n - 1, t, swing);
    }
}

proof fn interpolated_bounded(q: Seq<(u64, bool)>, ts: int, tick24: int, n: int)
    requires
        q.len() <= 64,
        forall|i: int| 0 <= i < q.len() ==> (#[trigger] q[i]).0 <= 64 * TIME_LIMIT,
        0 <= ts <= TIME_LIMIT,
        0 <= tick24 <= TIME_LIMIT,
        1 <= n <= 24,
    ensures
        interpolated(q, ts, tick24, n).len() <= 64,
        forall|i: int|
            0 <= i < interpolated(q, ts, tick24, n).len() ==> (#[trigger] interpolated(
                q,
                ts,
                tick24,
                n,
            )[i]).0 <= 64 * TIME_LIMIT,
    decreases n,
{
    if n > 1 {
        interpolated_bounded(q, ts, tick24, n - 1);
        assert(0 <= tick24 * (n - 1) <= tick24 * 24) by (nonlinear_arith)
            requires
                0 <= tick24,
                0 <= n - 1 <= 24,
        ;
    }
}

/// For decades nothing overflows: while the instants lie below `TIME_LIMIT`,
/// every change of the configuration fits and keeps the bounds.
pub proof fn configs_fit_for_decades(v: EngineView, new: ClockConfig, now: int)
    requires
        v.wf(),
        v.bounded(),
        0 <= now < TIME_LIMIT,
        new.internal_tick <= TIME_LIMIT,
    ensures
        v.config_fits(new),
        v.configured(new, now).bounded(),
{
    short_swing_fits(v.tick_in_window, new.internal_tick as int, new.swing_amount as int);
}

/// The same of commands from the panel.
pub proof fn commands_fit_for_decades(v: EngineView, cmd: TransportCmd, now: int)
    requires
        v.wf(),
        v.bounded(),
        0 <= now < TIME_LIMIT,
    ensures
        v.command_fits(cmd, now),
        v.commanded(cmd, now).bounded(),
{
}

/// The same of transport events. One of the internal source fits too, but may
/// set the next tick before the start of its window.
pub proof fn transports_fit_for_decades(v: EngineView, event: ClockInEvent, now: int)
    requires
        v.wf(),
        v.bounded(),
        0 <= now < TIME_LIMIT,
    ensures
        v.transport_fits(event, now),
        event.src() != ClockSrc::Internal ==> v.transported(event, now).bounded(),
{
}

/// The same of the timer.
pub proof fn timers_fit_for_decades(v: EngineView, now: int)
    requires
        v.wf(),
        v.bounded(),
        0 <= now < TIME_LIMIT,
    ensures
        v.timer_fits(now),
        v.timed(now).bounded(),
{
    let next = if v.tick_in_window + 1 >= 12 { 0 } else { v.tick_in_window + 1 };
    short_swing_fits(next, v.tick_duration, v.config.swing_amount as int);
}

/// The same of pulses, where those of one source come in order; with the
/// internal source as with transport events.
pub proof fn pulses_fit_for_decades(v: EngineView, source: ClockSrc, ts: int)
    requires
        v.wf(),
        v.bounded(),
        0 <= ts < TIME_LIMIT,
        v.last_pulse matches Some(last) ==> last <= ts,
    ensures
        v.pulse_fits(source, ts),
        source != ClockSrc::Internal ==> v.pulsed(source, ts).bounded(),
{
    if v.takes_pulse(source, ts) {
        let l = TIME_LIMIT as int;
        let w = v.woken(source, ts);
        let h = w.delta_history;
        assert(forall|i: int| 0 <= i < 4 ==> #[trigger] h[i] <= l);
        assert(0 <= sum4(h) <= count4(h) * l) by {
            assert(h[0] <= l && h[1] <= l && h[2] <= l && h[3] <= l);
            let c = count4(h);
            assert(c * l == if c == 0 { 0 } else if c == 1 { l } else if c == 2 { 2 * l } else if c == 3 {
                3 * l
            } else {
                4 * l
            }) by (nonlinear_arith)
                requires
                    0 <= c <= 4,
            ;
        }
        if count4(h) > 0 {
            mean_bounded(sum4(h), count4(h), l);
        }
        assert(w.measured_ext_period matches Some(p) ==> p <= l);
        let n = v.ppqn(source);
        if n == 24 {
            if w.tick_in_window == 0 && w.predicts() {
                let t = w.measured_ext_period->0 as int;
                let swing = w.config.swing_amount as int;
                assert forall|i: int| 0 <= i < 12 implies #[trigger] swing_fits(i, t, swing) && ts
                    + swing_offset(i, t, swing) <= u64::MAX by {
                    short_swing_fits(i, t, swing);
                }
                window_queue_bounded(w.pending, ts, t, swing, 12);
            }
        } else if n < 24 {
            let mult = 24int / n;
            assert(1 <= mult <= 24) by (nonlinear_arith)
                requires
                    mult == 24int / n,
                    0 < n < 24,
            ;
            let stale = w.pending.len() as int;
            let q = if stale == 0 { Seq::empty() } else { catchup_queue(ts, stale + 1) };
            assert(forall|i: int| 0 <= i < q.len() ==> (#[trigger] q[i]).0 <= 64 * TIME_LIMIT);
            match w.measured_ext_period {
                Some(p) => {
                    let tick24 = p as int / mult;
                    assert(0 <= tick24 <= p && 0 <= tick24 * (mult - 1) <= p) by (nonlinear_arith)
                        requires
                            tick24 == p as int / mult,
                            mult >= 1,
                            p >= 0,
                    ;
                    interpolated_bounded(q, ts, tick24, mult);
                },
                None => {},
            }
        }
    }
}

/// The first tick after a start or reset carries 0, and each later one the
/// number after its predecessor's.
pub proof fn ticks_are_numbered_from_zero(g: Gatekeeper, source: ClockSrc)
    requires
        g.active(ClockInEvent::Tick(source)),
        g.ticks_for(source),
    ensures
        g.tick_counter == u64::MAX ==> g.publishes(ClockInEvent::Tick(source))
            == seq![ClockEvent::Tick(0)],
        g.tick_counter < u64::MAX ==> g.publishes(ClockInEvent::Tick(source))
            == seq![ClockEvent::Tick((g.tick_counter + 1) as u64)],
{
}

/// The catch-up and interpolated ticks of a pulse keep the queue in order.
pub proof fn multiplied_queue_is_in_order(v: EngineView, ts: int, mult: int)
    requires
        v.wf(),
        v.multiply_fits(ts, mult),
        0 <= ts,
        1 <= mult <= 24,
    ensures
        in_order(v.multiplied(ts, mult).pending),
{
    let stale = v.pending.len() as int;
    let q = if stale == 0 { Seq::empty() } else { catchup_queue(ts, stale + 1) };
    assert(in_order(q));
    match v.measured_ext_period {
        Some(p) => {
            let tick24 = p as int / mult;
            assert(0 <= tick24 <= p) by (nonlinear_arith)
                requires
                    tick24 == p as int / mult,
                    mult >= 1,
                    p >= 0,
            ;
            interpolated_in_order(q, ts, tick24, mult);
        },
        None => {},
    }
}

proof fn interpolated_in_order(q: Seq<(u64, bool)>, ts: int, tick24: int, n: int)
    requires
        in_order(q),
        0 <= ts,
        0 <= tick24,
        ts + tick24 * (n - 1) <= u64::MAX,
        1 <= n,
    ensures
        in_order(interpolated(q, ts, tick24, n)),
    decreases n,
{
    if n > 1 {
        assert(tick24 * (n - 2) <= tick24 * (n - 1)) by (nonlinear_arith)
            requires
                0 <= tick24,
        ;
        assert(0 <= tick24 * (n - 1)) by (nonlinear_arith)
            requires
                0 <= tick24,
                0 <= n - 1,
        ;
        interpolated_in_order(q, ts, tick24, n - 1);
        let p = interpolated(q, ts, tick24, n - 1);
        guarded_keeps_order(p, (ts + tick24 * (n - 1)) as u64, true);
    }
}

} // verus!
