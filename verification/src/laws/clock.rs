//! What the clock promises: where the ticks fall, and who hears of them.

use crate::tasks::clock::{
    analog, aux_counted, aux_fires, interpolated, lockable, locked_ppqn, push_bounded,
    push_rolling, reset_ports, swing_offset, tick_ports, window_queue, AuxJackMode, ClockConfig,
    ClockEvent, ClockInEvent, ClockSrc, EngineView, Gatekeeper, Metronome, Realtime,
    TransportCmd,
};
use vstd::prelude::*;

verus! {

// ---------------------------------------------------------------------------
// Swing
// ---------------------------------------------------------------------------

/// Swing moves the second sixteenth of a window, and nothing else: in fiftieths
/// of a microsecond, tick `i` would lie at `50 * i * t`, and in the second half
/// `6 * t * swing` later. There it is, to within one microsecond, unless that
/// lies before the window or in its last half millisecond: then it is kept at
/// that edge.
pub proof fn swing_moves_the_second_sixteenth(i: int, t: int, swing: int)
    requires
        0 <= i <= 12,
        500 <= 12 * t,
        -128 <= swing <= 127,
    ensures
        ({
            let o = swing_offset(i, t, swing);
            let place = if i < 6 { 50 * (i * t) } else { 50 * (i * t) + 6 * (t * swing) };
            let edge = 12 * t - 500;
            &&& place <= 0 ==> o == 0
            &&& place >= 50 * edge ==> o == edge
            &&& 0 < place < 50 * edge ==> -50 < place - 50 * o < 50
            &&& 0 < place < 50 * edge && swing >= -50 ==> place - 50 * o >= 0
        }),
{
    assert(6 * t * (50 + swing) == 300 * t + 6 * (t * swing)) by (nonlinear_arith);
    assert((i - 6) * t == i * t - 6 * t) by (nonlinear_arith);
    assert(0 <= i * t) by (nonlinear_arith)
        requires
            0 <= i,
            0 <= t,
    ;
    if swing >= -50 {
        assert(-50 * t <= t * swing) by (nonlinear_arith)
            requires
                -50 <= swing,
                0 <= t,
        ;
    } else {
        assert(t * swing <= -50 * t) by (nonlinear_arith)
            requires
                swing <= -50,
                0 <= t,
        ;
    }
}

/// The off-beat is late by `swing` fiftieths of a sixteenth, and the ticks
/// after it follow at the straight distance, as long as they stay inside the
/// window.
pub proof fn off_beat_is_late_by_the_swing(i: int, t: int, swing: int)
    requires
        6 <= i < 12,
        500 <= 12 * t,
        -50 <= swing <= 127,
        50 * (i * t) + 6 * (t * swing) <= 50 * (12 * t - 500),
    ensures
        swing_offset(i, t, swing) - swing_offset(6, t, swing) == (i - 6) * t,
        0 <= 6 * (t * swing) - 50 * (swing_offset(6, t, swing) - 6 * t) < 50,
        t % 50 == 0 ==> 50 * (swing_offset(6, t, swing) - 6 * t) == 6 * (t * swing),
{
    assert(6 * t * (50 + swing) == 300 * t + 6 * (t * swing)) by (nonlinear_arith);
    assert((i - 6) * t == i * t - 6 * t) by (nonlinear_arith);
    assert(0 <= (i - 6) * t) by (nonlinear_arith)
        requires
            6 <= i,
            0 <= t,
    ;
    assert(-50 * t <= t * swing) by (nonlinear_arith)
        requires
            -50 <= swing,
            0 <= t,
    ;
    if t % 50 == 0 {
        let k = t / 50;
        assert(t * swing == 50 * (k * swing)) by (nonlinear_arith)
            requires
                t == 50 * k,
        ;
    }
}

/// More swing never makes a tick come sooner.
pub proof fn more_swing_is_later(i: int, t: int, a: int, b: int)
    requires
        0 <= i <= 12,
        0 <= t,
        -128 <= a <= b <= 127,
    ensures
        swing_offset(i, t, a) <= swing_offset(i, t, b),
        i < 6 ==> swing_offset(i, t, a) == swing_offset(i, t, b),
{
    assert(6 * t * (50 + a) <= 6 * t * (50 + b)) by (nonlinear_arith)
        requires
            a <= b,
            0 <= t,
    ;
}

/// Each tick of the internal clock sets the next one where the swing puts it,
/// measured from the start of its window; a window lasts twelve ticks. The MIDI
/// clock stays straight.
pub proof fn internal_ticks_follow_the_swing(v: EngineView, now: int)
    requires
        v.wf(),
        v.is_running,
        v.config.clock_src == ClockSrc::Internal,
        500 <= 12 * v.tick_duration,
        now >= v.next_tick_at,
    ensures
        ({
            let w = v.timed(now);
            let t = v.tick_duration;
            let swing = v.config.swing_amount as int;
            let j = w.tick_in_window;
            let place = if j < 6 { 50 * (j * t) } else { 50 * (j * t) + 6 * (t * swing) };
            let o = w.next_tick_at - w.window_start_at;
            let edge = 12 * t - 500;
            &&& v.tick_in_window < 11 ==> j == v.tick_in_window + 1 && w.window_start_at
                == v.window_start_at
            &&& v.tick_in_window == 11 ==> j == 0 && w.window_start_at == v.window_start_at + 12 * t
            &&& place <= 0 ==> o == 0
            &&& place >= 50 * edge ==> o == edge
            &&& 0 < place < 50 * edge ==> -50 < place - 50 * o < 50
            &&& w.tick_duration == t
            &&& w.is_running
        }),
{
    let j = v.timed(now).tick_in_window;
    swing_moves_the_second_sixteenth(j, v.tick_duration, v.config.swing_amount as int);
}

/// Without swing the internal clock ticks every `tick_duration`, across the
/// ends of the windows too, and so does the MIDI clock.
pub proof fn straight_ticks_are_evenly_spaced(v: EngineView, now: int)
    requires
        v.wf(),
        v.is_running,
        v.config.clock_src == ClockSrc::Internal,
        v.config.swing_amount == 0,
        500 <= v.tick_duration,
        v.next_tick_at == v.window_start_at + v.tick_in_window * v.tick_duration,
    ensures
        now >= v.next_tick_at ==> v.timed(now).next_tick_at == v.next_tick_at + v.tick_duration,
        now < v.next_tick_at ==> v.timed(now).next_tick_at == v.next_tick_at,
        now >= v.next_midi_tick_at ==> v.timed(now).next_midi_tick_at == v.next_midi_tick_at
            + v.tick_duration,
        now < v.next_midi_tick_at ==> v.timed(now).next_midi_tick_at == v.next_midi_tick_at,
        v.timed(now).next_tick_at == v.timed(now).window_start_at + v.timed(now).tick_in_window
            * v.tick_duration,
{
    let i = v.tick_in_window;
    let t = v.tick_duration;
    let w = v.timed(now);
    if now >= v.next_tick_at {
        internal_ticks_follow_the_swing(v, now);
        let j = w.tick_in_window;
        assert(t * 0 == 0);
        assert(0 <= j * t <= 11 * t) by (nonlinear_arith)
            requires
                0 <= j <= 11,
                0 <= t,
        ;
        assert((i + 1) * t == i * t + t) by (nonlinear_arith);
        assert(50 * (j * t) <= 0 ==> j * t == 0);
        let o = w.next_tick_at - w.window_start_at;
        crate::tasks::clock::no_swing_is_straight(j, t);
        if i == 11 {
            assert(i * t == 11 * t && j * t == 0) by (nonlinear_arith)
                requires
                    i == 11,
                    j == 0,
            ;
        }
        assert(o == j * t);
    }
}

/// A tick is sent when its time has come and not before, and with it nothing
/// but the MIDI tick that may be due.
pub proof fn internal_ticks_come_when_due(v: EngineView, now: int)
    requires
        v.config.clock_src == ClockSrc::Internal,
    ensures
        v.timer_sends(now).contains(ClockInEvent::Tick(ClockSrc::Internal)) <==> v.is_running && now
            >= v.next_tick_at,
        v.timer_sends(now).contains(ClockInEvent::MidiTick(ClockSrc::Internal)) <==> v.is_running
            && now >= v.next_midi_tick_at,
        forall|e: ClockInEvent| #[trigger]
            v.timer_sends(now).contains(e) ==> e == ClockInEvent::Tick(ClockSrc::Internal) || e
                == ClockInEvent::MidiTick(ClockSrc::Internal),
        !v.is_running ==> v.timer_sends(now).len() == 0 && v.deadline() is None,
        v.is_running ==> (v.deadline() matches Some(d) && d <= v.next_tick_at && d
            <= v.next_midi_tick_at && (d == v.next_tick_at || d == v.next_midi_tick_at)),
{
    let s = v.timer_sends(now);
    let tick = ClockInEvent::Tick(ClockSrc::Internal);
    let midi = ClockInEvent::MidiTick(ClockSrc::Internal);
    if v.is_running && now >= v.next_midi_tick_at {
        assert(s[0] == midi);
    }
    if v.is_running && now >= v.next_tick_at {
        assert(s[s.len() - 1] == tick);
    }
}

proof fn window_offsets_rise(i: int, t: int, swing: int)
    requires
        0 <= i < 12,
        0 <= t,
        -8 <= swing <= 127,
    ensures
        0 <= swing_offset(i, t, swing) <= swing_offset(i + 1, t, swing),
{
    crate::tasks::clock::swing_is_monotone(i, i + 1, t, swing);
}

proof fn window_entries(start: int, t: int, swing: int, n: int)
    requires
        0 <= start,
        0 <= t,
        -8 <= swing <= 127,
        0 <= n <= 12,
        forall|i: int| 0 <= i < 12 ==> start + #[trigger] swing_offset(i, t, swing) <= u64::MAX,
    ensures
        window_queue(Seq::empty(), start, t, swing, n).len() == n,
        forall|i: int|
            0 <= i < n ==> #[trigger] window_queue(Seq::empty(), start, t, swing, n)[i] == (
                (start + swing_offset(i, t, swing)) as u64,
                false,
            ),
    decreases n,
{
    if n > 0 {
        window_entries(start, t, swing, n - 1);
        let p = window_queue(Seq::empty(), start, t, swing, n - 1);
        if n > 1 {
            window_offsets_rise(n - 2, t, swing);
            assert(p.last() == p[n - 2]);
        }
        window_offsets_rise(n - 1, t, swing);
    }
}

/// On an external clock of 24 PPQN with swing, the anchor pulse of a window
/// schedules its twelve ticks: each where the swing puts it from that pulse on.
pub proof fn swung_window_is_scheduled(v: EngineView, ts: int, i: int)
    requires
        v.tick_in_window == 0,
        v.predicts(),
        v.pending.len() == 0,
        -8 <= v.config.swing_amount,
        0 <= ts,
        v.straight_fits(ts),
        0 <= i < 12,
        500 <= 12 * v.measured_ext_period->0,
    ensures
        v.straight(ts).pending.len() == 12,
        ({
            let t = v.measured_ext_period->0 as int;
            let at = v.straight(ts).pending[i].0 as int - ts;
            let place = if i < 6 {
                50 * (i * t)
            } else {
                50 * (i * t) + 6 * (t * v.config.swing_amount)
            };
            let edge = 12 * t - 500;
            &&& place <= 0 ==> at == 0
            &&& place >= 50 * edge ==> at == edge
            &&& 0 < place < 50 * edge ==> 0 <= place - 50 * at < 50
        }),
{
    let t = v.measured_ext_period->0 as int;
    let swing = v.config.swing_amount as int;
    assert(v.pending =~= Seq::empty());
    assert forall|k: int| 0 <= k < 12 implies ts + #[trigger] swing_offset(k, t, swing)
        <= u64::MAX by {
        assert(crate::tasks::clock::swing_fits(k, t, swing));
    }
    window_entries(ts, t, swing, 12);
    window_offsets_rise(i, t, swing);
    swing_moves_the_second_sixteenth(i, t, swing);
}

// ---------------------------------------------------------------------------
// External pulses
// ---------------------------------------------------------------------------

proof fn interpolated_entries(ts: int, tick24: int, n: int)
    requires
        0 <= ts,
        0 <= tick24,
        1 <= n <= 24,
        ts + tick24 * (n - 1) <= u64::MAX,
    ensures
        interpolated(Seq::empty(), ts, tick24, n).len() == n - 1,
        forall|k: int|
            0 <= k < n - 1 ==> #[trigger] interpolated(Seq::empty(), ts, tick24, n)[k] == (
                (ts + tick24 * (k + 1)) as u64,
                true,
            ),
    decreases n,
{
    if n > 1 {
        assert(tick24 * (n - 2) <= tick24 * (n - 1)) by (nonlinear_arith)
            requires
                0 <= tick24,
        ;
        assert(0 <= tick24 * (n - 2)) by (nonlinear_arith)
            requires
                0 <= tick24,
                0 <= n - 2,
        ;
        interpolated_entries(ts, tick24, n - 1);
        let p = interpolated(Seq::empty(), ts, tick24, n - 1);
        if n > 2 {
            assert(p.last() == p[n - 3]);
        }
    }
}

/// A pulse of a slower clock that finds nothing scheduled spreads its further
/// ticks evenly over the measured period: tick `k` of `mult` comes `k` times
/// the share of one tick after the pulse.
pub proof fn interpolated_ticks_are_even(v: EngineView, ts: int, mult: int, k: int)
    requires
        v.pending.len() == 0,
        v.measured_ext_period is Some,
        v.multiply_fits(ts, mult),
        0 <= ts,
        1 <= k < mult <= 24,
    ensures
        v.multiplied(ts, mult).pending.len() == mult - 1,
        ({
            let p = v.measured_ext_period->0 as int;
            let at = v.multiplied(ts, mult).pending[k - 1].0 as int - ts;
            // The share is the period divided by the ticks, rounded down.
            exists|share: int|
                #![trigger share * k]
                at == share * k && share * mult <= p < share * mult + mult
        }),
{
    let p = v.measured_ext_period->0 as int;
    let share = p / mult;
    assert(share * mult <= p < share * mult + mult && 0 <= share) by (nonlinear_arith)
        requires
            share == p / mult,
            mult > 0,
            0 <= p,
    ;
    interpolated_entries(ts, share, mult);
    assert(share * k <= share * (mult - 1)) by (nonlinear_arith)
        requires
            0 <= share,
            k <= mult - 1,
    ;
    assert(0 <= share * k) by (nonlinear_arith)
        requires
            0 <= share,
            0 <= k,
    ;
    assert(v.multiplied(ts, mult).pending[k - 1].0 == ts + share * k);
}

/// The measured period is the mean of the intervals kept, rounded down; a
/// steady pulse is measured as what it is.
pub proof fn period_is_the_mean_of_the_intervals(v: EngineView, ts: int)
    requires
        v.delta_history.len() == 4,
        0 <= v.history_idx < 4,
        v.last_pulse is Some,
        v.last_pulse->0 < ts <= u64::MAX,
    ensures
        ({
            let w = v.tracked_at(ts);
            let h = w.delta_history;
            let sum = h[0] + h[1] + h[2] + h[3];
            let p = w.measured_ext_period->0;
            &&& w.last_pulse == Some(ts as u64)
            &&& w.measured_ext_period is Some
            &&& sum <= u64::MAX ==> w.tick_duration == p
            &&& h[v.history_idx] == ts - v.last_pulse->0
            &&& forall|k: int| 0 <= k < 4 && k != v.history_idx ==> #[trigger] h[k]
                == v.delta_history[k]
            &&& sum <= u64::MAX ==> exists|n: int|
                1 <= n <= 4 && #[trigger] (n * w.tick_duration) <= sum < n * w.tick_duration + n
            &&& h[0] > 0 && h[1] > 0 && h[2] > 0 && h[3] > 0 && sum <= u64::MAX ==> 4 * p <= sum
                < 4 * p + 4
            &&& (forall|k: int| 0 <= k < 4 ==> #[trigger] h[k] == 0 || h[k] == ts
                - v.last_pulse->0) && sum <= u64::MAX ==> p == ts - v.last_pulse->0
        }),
{
    let w = v.tracked_at(ts);
    let h = w.delta_history;
    let d = ts - v.last_pulse->0;
    assert(h[v.history_idx] == d as u64);
    let n = crate::tasks::clock::count4(h);
    let sum = crate::tasks::clock::sum4(h);
    assert(1 <= n <= 4);
    let p = sum / n;
    assert(n * p <= sum < n * p + n && 0 <= p <= sum) by (nonlinear_arith)
        requires
            p == sum / n,
            n >= 1,
            sum >= 0,
    ;
    assert(w.tick_duration == p);
    assert(n * w.tick_duration <= sum < n * w.tick_duration + n);
    if sum <= u64::MAX && (forall|k: int| 0 <= k < 4 ==> #[trigger] h[k] == 0 || h[k] == d) {
        assert(h[0] == 0 || h[0] == d);
        assert(h[1] == 0 || h[1] == d);
        assert(h[2] == 0 || h[2] == d);
        assert(h[3] == 0 || h[3] == d);
        assert(sum == n * d) by {
            if n == 1 {
                assert(1 * d == d);
            } else if n == 2 {
                assert(n * d == 2 * d);
            } else if n == 3 {
                assert(n * d == 3 * d);
            } else {
                assert(n * d == 4 * d);
            }
        }
        assert((n * d) / n == d) by (nonlinear_arith)
            requires
                n >= 1,
        ;
    }
}

/// A pulse that drives the clock arms the watchdog for eight periods, two
/// seconds at least; one that comes from another source, or less than two
/// milliseconds after the last on an analog input, changes nothing.
pub proof fn pulses_arm_the_watchdog(v: EngineView, source: ClockSrc, ts: int)
    requires
        source != v.config.reset_src || source == ClockSrc::Off,
    ensures
        source != v.config.clock_src ==> v.pulsed(source, ts) == v && v.pulse_sends(
            source,
            ts,
        ).len() == 0,
        (source == ClockSrc::Atom || source == ClockSrc::Meteor || source == ClockSrc::Cube)
            && v.last_pulse is Some && ts < v.last_pulse->0 + 2000 ==> v.pulsed(source, ts) == v
            && v.pulse_sends(source, ts).len() == 0,
        source == v.config.clock_src && (v.last_pulse is None || ts >= v.last_pulse->0 + 2000) ==> {
            let w = v.pulsed(source, ts);
            &&& w.last_pulse == Some(ts as u64)
            &&& w.next_tick_at >= ts + 2_000_000
            &&& w.measured_ext_period matches Some(p) ==> w.next_tick_at >= ts + 8 * p && (
            w.next_tick_at == ts + 8 * p || w.next_tick_at == ts + 2_000_000)
            &&& w.measured_ext_period is None ==> w.next_tick_at == ts + 2_000_000
            &&& analog(source) ==> w.is_running
            &&& !analog(source) ==> w.is_running == v.is_running
        },
{
}

/// A pulse of the reset source starts the phase over and says so, and does not
/// touch the run state.
pub proof fn reset_pulses_clear_the_phase(v: EngineView, source: ClockSrc, ts: int)
    requires
        source == v.config.reset_src,
        source != ClockSrc::Off,
    ensures
        v.pulse_sends(source, ts) == seq![ClockInEvent::Reset(source)],
        v.pulsed(source, ts).tick_in_window == 0,
        v.pulsed(source, ts).ext_pulse_div_count == 0,
        v.pulsed(source, ts).pending.len() == 0,
        v.pulsed(source, ts).is_running == v.is_running,
        v.pulsed(source, ts).measured_ext_period == v.measured_ext_period,
{
}

/// At 24 PPQN every pulse gives one MIDI tick; without swing, or before the
/// period is known, it gives its tick at once.
pub proof fn straight_pulses_tick_at_once(v: EngineView, source: ClockSrc)
    ensures
        v.straight_sends(source).len() > 0,
        v.straight_sends(source)[0] == ClockInEvent::MidiTick(source),
        v.tick_in_window == 0 && (v.config.swing_amount == 0 || v.measured_ext_period is None)
            ==> v.straight_sends(source) == seq![
            ClockInEvent::MidiTick(source),
            ClockInEvent::Tick(source),
        ],
        v.tick_in_window == 0 && v.config.swing_amount != 0 && v.measured_ext_period is Some
            ==> v.straight_sends(source).len() == 1,
        v.tick_in_window > 0 ==> (v.straight_sends(source).len() == 2 <==> !v.window_predicted),
{
}

/// MIDI clock is 24 PPQN whatever is configured; on an analog input each ratio
/// that divides 24 or is a multiple of it is used as it is, and 24 otherwise.
pub proof fn ratios_are_used_as_configured(v: EngineView, source: ClockSrc)
    ensures
        source == ClockSrc::MidiIn || source == ClockSrc::MidiUsb ==> v.ppqn(source) == 24,
        analog(source) && (v.config.ext_ppqn == 1 || v.config.ext_ppqn == 2 || v.config.ext_ppqn
            == 4 || v.config.ext_ppqn == 8 || v.config.ext_ppqn == 12 || v.config.ext_ppqn == 24
            || v.config.ext_ppqn == 48 || v.config.ext_ppqn == 96) ==> v.ppqn(source)
            == v.config.ext_ppqn,
        analog(source) && v.config.ext_ppqn > 0 && v.config.ext_ppqn % 24 == 0 ==> v.ppqn(source)
            == v.config.ext_ppqn,
        analog(source) && v.config.ext_ppqn > 24 && v.config.ext_ppqn % 24 != 0 ==> v.ppqn(source)
            == 24,
        analog(source) && v.config.ext_ppqn == 0 ==> v.ppqn(source) == 24,
        analog(source) && v.config.ext_ppqn == 5 ==> v.ppqn(source) == 24,
{
    let n = v.config.ext_ppqn as int;
    if n > 24 {
        assert(24int % n == 24) by (nonlinear_arith)
            requires
                n > 24,
        ;
    }
    assert(24int % 1 == 0 && 24int % 2 == 0 && 24int % 4 == 0 && 24int % 8 == 0 && 24int % 12 == 0
        && 24int % 24 == 0 && 48int % 24 == 0 && 96int % 24 == 0 && 24int % 5 == 4 && 5int % 24
        == 5);
}

/// A queued emission goes out when it is due: its tick, and its MIDI tick where
/// it carries one. When nothing is due and the watchdog has run out the clock
/// stops and says so.
pub proof fn external_timer_plays_the_queue(v: EngineView, now: int)
    requires
        v.is_running,
        v.config.clock_src != ClockSrc::Internal,
    ensures
        ({
            let src = v.config.clock_src;
            let due = v.pending.len() > 0 && v.pending[0].0 <= now;
            &&& due && v.pending[0].1 ==> v.timer_sends(now) == seq![
                ClockInEvent::MidiTick(src),
                ClockInEvent::Tick(src),
            ]
            &&& due && !v.pending[0].1 ==> v.timer_sends(now) == seq![ClockInEvent::Tick(src)]
            &&& due ==> v.timed(now).pending.len() == v.pending.len() - 1 && v.timed(now).is_running
            &&& !due && v.last_pulse is Some && now >= v.next_tick_at ==> v.timer_sends(now)
                == seq![ClockInEvent::Stop(src)] && !v.timed(now).is_running && v.timed(
                now,
            ).last_pulse is None && v.timed(now).pending.len() == 0
            &&& !due && (v.last_pulse is None || now < v.next_tick_at) ==> v.timer_sends(now).len()
                == 0 && v.timed(now) == v
        }),
{
}

// ---------------------------------------------------------------------------
// Transport
// ---------------------------------------------------------------------------

/// The panel's commands do what they say on the internal clock, and nothing on
/// any other: a start begins a new window two milliseconds from now, a stop
/// keeps the phase, and a toggle is the one that changes the run state.
pub proof fn commands_do_what_they_say(v: EngineView, now: int)
    ensures
        v.config.clock_src == ClockSrc::Internal ==> {
            &&& v.commanded(TransportCmd::Start, now).is_running
            &&& !v.commanded(TransportCmd::Stop, now).is_running
            &&& v.commanded(TransportCmd::Toggle, now).is_running == !v.is_running
            &&& v.is_running ==> v.commanded(TransportCmd::Start, now) == v
            &&& !v.is_running ==> v.commanded(TransportCmd::Stop, now) == v
            &&& !v.is_running ==> {
                let w = v.commanded(TransportCmd::Start, now);
                &&& w == v.commanded(TransportCmd::Toggle, now)
                &&& w.next_tick_at == now + 2000
                &&& w.next_midi_tick_at == now + 2000
                &&& w.window_start_at == now + 2000
                &&& w.tick_in_window == 0
            }
            &&& v.is_running ==> {
                let w = v.commanded(TransportCmd::Stop, now);
                &&& w == v.commanded(TransportCmd::Toggle, now)
                &&& w.tick_in_window == v.tick_in_window
                &&& w.next_tick_at == v.next_tick_at
            }
        },
        v.config.clock_src != ClockSrc::Internal ==> forall|c: TransportCmd| #[trigger]
            v.commanded(c, now) == v,
{
}

/// Transport of the clock source starts and stops the engine; that of another
/// source does nothing. A start begins anew, a continue goes on where it was.
pub proof fn transport_starts_and_stops(v: EngineView, s: ClockSrc, now: int)
    ensures
        s != v.config.clock_src ==> v.transported(ClockInEvent::Start(s), now) == v
            && v.transported(ClockInEvent::Stop(s), now) == v && v.transported(
            ClockInEvent::Continue(s),
            now,
        ) == v && v.transported(ClockInEvent::Reset(s), now) == v,
        s == v.config.clock_src ==> {
            let a = v.transported(ClockInEvent::Start(s), now);
            let b = v.transported(ClockInEvent::Continue(s), now);
            let c = v.transported(ClockInEvent::Stop(s), now);
            let d = v.transported(ClockInEvent::Reset(s), now);
            &&& a.is_running && b.is_running && !c.is_running && d.is_running == v.is_running
            &&& a.tick_in_window == 0 && a.pending.len() == 0
            &&& b.tick_in_window == v.tick_in_window && b.pending == v.pending
            &&& c.tick_in_window == v.tick_in_window && c.pending.len() == 0
            &&& d.tick_in_window == 0 && d.pending.len() == 0
            &&& a.next_tick_at >= now + 2_000_000 && b.next_tick_at == a.next_tick_at
        },
{
}

/// Another clock source stops the clock and forgets what was measured; another
/// tempo or swing of a running internal clock moves the next tick to its new
/// place in the same window.
pub proof fn new_source_stops_the_clock(v: EngineView, new: ClockConfig, now: int)
    requires
        v.wf(),
    ensures
        v.configured(new, now).config == new,
        v.config.clock_src != new.clock_src ==> {
            let w = v.configured(new, now);
            &&& !w.is_running
            &&& w.last_pulse is None
            &&& w.measured_ext_period is None
            &&& w.pending.len() == 0
            &&& w.tick_in_window == 0
        },
        v.config.clock_src == new.clock_src ==> {
            let w = v.configured(new, now);
            &&& w.is_running == v.is_running
            &&& w.window_start_at == v.window_start_at
            &&& new.clock_src == ClockSrc::Internal ==> w.tick_duration == new.internal_tick
                && w.tick_in_window == v.tick_in_window
            &&& new.clock_src == ClockSrc::Internal && v.is_running && 500 <= 12
                * new.internal_tick && (v.tick_duration != new.internal_tick
                || v.config.swing_amount != new.swing_amount) ==> {
                let i = v.tick_in_window;
                let t = new.internal_tick as int;
                let o = w.next_tick_at - w.window_start_at;
                let place = if i < 6 {
                    50 * (i * t)
                } else {
                    50 * (i * t) + 6 * (t * new.swing_amount)
                };
                let edge = 12 * t - 500;
                &&& place <= 0 ==> o == 0
                &&& place >= 50 * edge ==> o == edge
                &&& 0 < place < 50 * edge ==> -50 < place - 50 * o < 50
            }
        },
{
    if 500 <= 12 * new.internal_tick {
        swing_moves_the_second_sixteenth(
            v.tick_in_window,
            new.internal_tick as int,
            new.swing_amount as int,
        );
    }
}

// ---------------------------------------------------------------------------
// Gatekeeper
// ---------------------------------------------------------------------------

/// The MIDI message of an event is of the event's kind: a stop stops the
/// connected gear, a start starts it, and so on. A clock tick is told by its
/// MIDI tick alone, while the clock runs.
pub proof fn messages_keep_the_kind_of_the_event(g: Gatekeeper, s: ClockSrc)
    ensures
        g.realtime(ClockInEvent::Stop(s)) == Some(Realtime::Stop),
        g.realtime(ClockInEvent::Start(s)) == Some(Realtime::Start),
        g.realtime(ClockInEvent::Continue(s)) == Some(Realtime::Continue),
        g.realtime(ClockInEvent::Reset(s)) == Some(Realtime::Reset),
        g.realtime(ClockInEvent::Tick(s)) is None,
        g.is_running ==> g.realtime(ClockInEvent::MidiTick(s)) == Some(Realtime::TimingClock),
        !g.is_running && (s == ClockSrc::Internal || s == ClockSrc::MidiIn || s
            == ClockSrc::MidiUsb) ==> g.realtime(ClockInEvent::MidiTick(s)) is None,
{
}

/// No two kinds of event send the same message.
pub proof fn messages_tell_events_apart(g: Gatekeeper, a: ClockInEvent, b: ClockInEvent)
    requires
        g.realtime(a) is Some,
        g.realtime(a) == g.realtime(b),
    ensures
        a is Stop == b is Stop,
        a is Start == b is Start,
        a is Continue == b is Continue,
        a is Reset == b is Reset,
        a is MidiTick == b is MidiTick,
{
}

/// Transport goes to the outputs that send transport, the MIDI clock to those
/// that send clock.
pub proof fn messages_go_where_they_are_wanted(g: Gatekeeper, s: ClockSrc, i: int)
    requires
        0 <= i < 3,
    ensures
        g.routed(ClockInEvent::MidiTick(s), i) == g.config.outs[i].send_clock,
        g.routed(ClockInEvent::Start(s), i) == g.config.outs[i].send_transport,
        g.routed(ClockInEvent::Stop(s), i) == g.config.outs[i].send_transport,
        g.routed(ClockInEvent::Continue(s), i) == g.config.outs[i].send_transport,
        g.routed(ClockInEvent::Reset(s), i) == g.config.outs[i].send_transport,
{
}

/// The apps hear the transport as it is: a start is a reset and a start, a
/// continue a start without a reset. Nothing of another source gets through;
/// resets have a source of their own.
pub proof fn apps_hear_the_transport(g: Gatekeeper, s: ClockSrc)
    ensures
        s == g.config.clock_src ==> {
            &&& g.publishes(ClockInEvent::Start(s)) == seq![ClockEvent::Reset, ClockEvent::Start]
            &&& g.publishes(ClockInEvent::Continue(s)) == seq![ClockEvent::Start]
            &&& g.publishes(ClockInEvent::Stop(s)) == seq![ClockEvent::Stop]
            &&& g.publishes(ClockInEvent::MidiTick(s)).len() == 0
            &&& g.is_running ==> g.publishes(ClockInEvent::Tick(s)).len() == 1 && g.publishes(
                ClockInEvent::Tick(s),
            )[0] is Tick
            &&& !g.is_running && (s == ClockSrc::Internal || s == ClockSrc::MidiIn || s
                == ClockSrc::MidiUsb) ==> g.publishes(ClockInEvent::Tick(s)).len() == 0
            &&& (s == ClockSrc::Atom || s == ClockSrc::Meteor || s == ClockSrc::Cube)
                ==> g.publishes(ClockInEvent::Tick(s)).len() == 1
        },
        s != g.config.clock_src ==> {
            &&& g.publishes(ClockInEvent::Start(s)).len() == 0
            &&& g.publishes(ClockInEvent::Continue(s)).len() == 0
            &&& g.publishes(ClockInEvent::Stop(s)).len() == 0
            &&& g.publishes(ClockInEvent::Tick(s)).len() == 0
            &&& g.drives(ClockInEvent::Start(s)).len() == 0
            &&& g.drives(ClockInEvent::Tick(s)).len() == 0
            &&& !g.active(ClockInEvent::MidiTick(s))
        },
        s == g.config.reset_src ==> g.publishes(ClockInEvent::Reset(s)) == seq![ClockEvent::Reset],
        s != g.config.reset_src ==> g.publishes(ClockInEvent::Reset(s)).len() == 0 && g.drives(
            ClockInEvent::Reset(s),
        ).len() == 0,
{
}

proof fn ports_below(aux: Seq<AuxJackMode>, counters: Seq<u16>, n: int, i: int)
    requires
        0 <= i,
        0 <= n,
    ensures
        tick_ports(aux, counters, n).contains(17 + i) <==> i < n && aux[i] is ClockOut
            && counters[i] == 0,
        reset_ports(aux, n).contains(17 + i) <==> i < n && aux[i] is ResetOut,
    decreases n,
{
    if n > 0 {
        ports_below(aux, counters, n - 1, i);
        let p = tick_ports(aux, counters, n - 1);
        let q = tick_ports(aux, counters, n);
        if aux_fires(aux, counters, n - 1) {
            assert(q.last() == 17 + n - 1);
            if p.contains(17 + i) {
                let k = choose|k: int| 0 <= k < p.len() && p[k] == 17 + i;
                assert(q[k] == 17 + i);
            }
            if q.contains(17 + i) && i != n - 1 {
                let k = choose|k: int| 0 <= k < q.len() && q[k] == 17 + i;
                assert(p[k] == 17 + i);
            }
        }
        let p = reset_ports(aux, n - 1);
        let q = reset_ports(aux, n);
        if aux[n - 1] is ResetOut {
            assert(q.last() == 17 + n - 1);
            if p.contains(17 + i) {
                let k = choose|k: int| 0 <= k < p.len() && p[k] == 17 + i;
                assert(q[k] == 17 + i);
            }
            if q.contains(17 + i) && i != n - 1 {
                let k = choose|k: int| 0 <= k < q.len() && q[k] == 17 + i;
                assert(p[k] == 17 + i);
            }
        }
    }
}

/// A tick drives the clock jacks whose count is at zero; a start and a reset
/// drive the reset jacks; a stop and a continue drive none. Jack `i` is port
/// `17 + i`.
pub proof fn jacks_carry_their_signal(g: Gatekeeper, s: ClockSrc, i: int)
    requires
        0 <= i < 3,
    ensures
        s == g.config.clock_src && g.is_running ==> (g.drives(ClockInEvent::Tick(s)).contains(
            17 + i,
        ) <==> g.config.aux[i] is ClockOut && g.analog_tick_counters[i] == 0),
        s == g.config.clock_src ==> (g.drives(ClockInEvent::Start(s)).contains(17 + i)
            <==> g.config.aux[i] is ResetOut),
        s == g.config.reset_src ==> (g.drives(ClockInEvent::Reset(s)).contains(17 + i)
            <==> g.config.aux[i] is ResetOut),
        g.drives(ClockInEvent::Stop(s)).len() == 0,
        g.drives(ClockInEvent::Continue(s)).len() == 0,
        g.drives(ClockInEvent::MidiTick(s)).len() == 0,
{
    ports_below(g.config.aux@, g.analog_tick_counters@, 3, i);
}

/// Count of a clock jack `n` ticks after a reset.
pub open spec fn count_after(div: u16, n: int) -> int
    decreases n,
{
    if n <= 0 {
        0
    } else {
        aux_counted(seq![AuxJackMode::ClockOut(div)], seq![count_after(div, n - 1) as u16], 0)
    }
}

/// A clock jack fires on every `div`-th tick, the first after a reset
/// included: after `n` ticks its count is `n` modulo the division.
pub proof fn clock_jacks_divide(div: u16, n: int)
    requires
        div > 0,
        0 <= n,
    ensures
        count_after(div, n) == n % div as int,
        aux_fires(seq![AuxJackMode::ClockOut(div)], seq![count_after(div, n) as u16], 0) <==> n
            % div as int == 0,
    decreases n,
{
    let d = div as int;
    if n > 0 {
        clock_jacks_divide(div, n - 1);
        let r = (n - 1) % d;
        assert(n % d == if r + 1 == d { 0 } else { r + 1 }) by (nonlinear_arith)
            requires
                r == (n - 1) % d,
                d > 0,
                n > 0,
        ;
    } else {
        assert(0int % d == 0) by (nonlinear_arith)
            requires
                d > 0,
        ;
    }
}

// ---------------------------------------------------------------------------
// Pulses and beats
// ---------------------------------------------------------------------------

/// A pin bounces for two milliseconds: a pulse that soon after the last does
/// not drive the clock. Other sources never bounce.
pub proof fn pins_bounce_for_two_milliseconds(v: EngineView, s: ClockSrc, last: u64, ts: int)
    requires
        v.last_pulse == Some(last),
        s == v.config.clock_src,
        s != v.config.reset_src,
        s == ClockSrc::Atom || s == ClockSrc::Meteor || s == ClockSrc::Cube,
    ensures
        ts - last < 2000 ==> !v.takes_pulse(s, ts),
        ts - last >= 2000 ==> v.takes_pulse(s, ts),
{
}

/// A source drives the clock only where it is the clock's and not the reset's.
pub proof fn other_sources_do_not_drive(v: EngineView, s: ClockSrc, ts: int)
    ensures
        s != v.config.clock_src ==> !v.takes_pulse(s, ts),
        s == v.config.reset_src && s != ClockSrc::Off ==> !v.takes_pulse(s, ts),
        s == v.config.clock_src && s != v.config.reset_src && (s == ClockSrc::MidiIn || s
            == ClockSrc::MidiUsb || s == ClockSrc::Internal) ==> v.takes_pulse(s, ts),
{
}

/// The pulse rate is taken as configured where ticks and pulses divide each
/// other, and for 24 otherwise.
pub proof fn rates_divide_each_other(ppqn: int, k: int)
    requires
        0 < ppqn,
        0 < k,
    ensures
        ppqn * k == 24 ==> locked_ppqn(ppqn) == ppqn,
        locked_ppqn(24 * k) == 24 * k,
        !lockable(ppqn) ==> locked_ppqn(ppqn) == 24,
        24 < ppqn < 48 ==> locked_ppqn(ppqn) == 24,
{
    if ppqn * k == 24 {
        assert((ppqn * k) % ppqn == 0) by (nonlinear_arith)
            requires
                0 < ppqn,
        ;
    }
    assert((24 * k) % 24 == 0);
    if 24 < ppqn < 48 {
        assert(ppqn % 24 == ppqn - 24);
        assert(24int % ppqn == 24) by {
            vstd::arithmetic::div_mod::lemma_small_mod(24, ppqn as nat);
        }
    }
}

/// The queue of ticks holds 64 and keeps its order; full, one kind of push
/// drops the new tick and the other the oldest.
pub proof fn queues_keep_their_order(q: Seq<(u64, bool)>, e: (u64, bool), i: int)
    requires
        q.len() <= 64,
        0 <= i < q.len(),
    ensures
        push_bounded(q, e).len() <= 64,
        push_rolling(q, e).len() <= 64,
        push_bounded(q, e)[i] == q[i],
        push_rolling(q, e).last() == e,
        q.len() < 64 ==> push_bounded(q, e).last() == e && push_rolling(q, e)[i] == q[i],
        q.len() == 64 && i > 0 ==> push_rolling(q, e)[i - 1] == q[i],
{
}

/// The watchdog fires when its time has come with a pulse seen and nothing
/// left to play; then the clock stands still, with nothing scheduled.
pub proof fn lost_clocks_stand_still(v: EngineView, now: int)
    ensures
        v.loses(now) ==> now >= v.next_tick_at,
        v.last_pulse is None ==> !v.loses(now),
        v.last_pulse is Some && v.pending.len() == 0 && now >= v.next_tick_at ==> v.loses(now),
        v.pending.len() > 0 && v.pending[0].0 <= now ==> !v.loses(now),
        !v.lost().is_running,
        v.lost().last_pulse is None,
        v.lost().pending.len() == 0,
        v.lost().tick_in_window == 0,
        v.lost().ext_pulse_div_count == 0,
        v.lost().config == v.config,
{
}

/// Ticks are counted while the clock runs; an analog clock needs no start.
pub proof fn analog_clocks_need_no_start(g: Gatekeeper, s: ClockSrc)
    ensures
        g.is_running ==> g.ticks_for(s),
        !g.is_running ==> (g.ticks_for(s) <==> s == ClockSrc::Atom || s == ClockSrc::Meteor || s
            == ClockSrc::Cube),
        g.tick_counter < u64::MAX ==> g.next_count() == g.tick_counter + 1,
        g.tick_counter == u64::MAX ==> g.next_count() == 0,
{
}

/// Counting on tick by tick, the metronome beats every 24th tick; a counter
/// that starts over beats at once, and one that stands still never.
pub proof fn beats_come_every_quarter(m: Metronome, counter: u64)
    requires
        m.last_beat == m.last_seen / 24,
    ensures
        counter == m.last_seen + 1 ==> (m.beats(counter) <==> counter % 24 == 0),
        counter < m.last_seen ==> m.beats(counter),
        !m.beats(m.last_seen),
{
}

} // verus!
