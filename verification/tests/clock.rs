//! The clock engine, the gatekeeper behind it and the metronome.

use faderpunk::tasks::clock::{
    effective_ppqn, is_analog, AuxJackMode, ClockConfig, ClockEvent, ClockInEvent, ClockSrc,
    Engine, EngineOut, GateConfig, Gatekeeper, Metronome, MidiOutConfig, Realtime, TransportCmd,
};
use max11300::config::Port;

fn config(clock_src: ClockSrc, ext_ppqn: u8, swing_amount: i8) -> ClockConfig {
    ClockConfig {
        clock_src,
        reset_src: ClockSrc::Cube,
        ext_ppqn,
        swing_amount,
        internal_tick: 20_000,
    }
}

fn ticks(out: &EngineOut) -> usize {
    out.sent.iter().filter(|e| matches!(e, ClockInEvent::Tick(_))).count()
}

/// Times of the internal ticks up to a limit.
fn internal_ticks(swing: i8, n: usize) -> Vec<u64> {
    let (mut e, _) = Engine::new(config(ClockSrc::Internal, 24, swing), true, 0);
    let mut times = Vec::new();
    while times.len() < n {
        let t = e.next_deadline().unwrap();
        if ticks(&e.on_timer(t)) > 0 {
            times.push(t);
        }
    }
    times
}

#[test]
fn ppqn_locks() {
    assert_eq!([1, 2, 4, 24, 48].map(effective_ppqn), [1, 2, 4, 24, 48]);
    assert_eq!([0, 5, 7, 36].map(effective_ppqn), [24, 24, 24, 24]);
    assert!(is_analog(ClockSrc::Atom) && !is_analog(ClockSrc::MidiUsb));
    assert!(ClockInEvent::MidiTick(ClockSrc::Atom).is_clock());
    assert!(ClockInEvent::Start(ClockSrc::Atom).is_transport());
    assert_eq!(ClockInEvent::Reset(ClockSrc::Cube).source(), ClockSrc::Cube);
}

#[test]
fn straight_internal_ticks() {
    let (mut e, out) = Engine::new(config(ClockSrc::Internal, 24, 0), true, 0);
    assert_eq!(out.sent, vec![ClockInEvent::Start(ClockSrc::Internal)]);
    assert_eq!(e.next_deadline(), Some(2000));
    assert_eq!(
        e.on_timer(2000).sent,
        vec![
            ClockInEvent::MidiTick(ClockSrc::Internal),
            ClockInEvent::Tick(ClockSrc::Internal)
        ]
    );
    assert_eq!(internal_ticks(0, 14), (0..14).map(|i| 2000 + 20_000 * i).collect::<Vec<u64>>());
}

#[test]
fn swung_ticks_stay_in_their_window() {
    for swing in [-8, 0, 25, 50] {
        let times = internal_ticks(swing, 25);
        for w in times.windows(2) {
            assert!(w[0] <= w[1], "swing {swing}");
        }
        // Every window starts on the grid.
        assert_eq!((times[0], times[12], times[24]), (2000, 242_000, 482_000));
    }
    assert!(internal_ticks(50, 12)[6] > internal_ticks(0, 12)[6]);
}

#[test]
fn panel_transport() {
    let (mut e, _) = Engine::new(config(ClockSrc::Internal, 24, 0), false, 0);
    assert_eq!(e.next_deadline(), None);
    let out = e.on_command(TransportCmd::Toggle, 1000);
    assert_eq!(out.sent, vec![ClockInEvent::Start(ClockSrc::Internal)]);
    assert_eq!(out.store_running, Some(true));
    assert_eq!(e.next_deadline(), Some(3000));
    assert_eq!(e.on_command(TransportCmd::Start, 1000).sent, vec![]);
    assert_eq!(e.on_command(TransportCmd::Stop, 5000).store_running, Some(false));
    let (mut x, _) = Engine::new(config(ClockSrc::MidiUsb, 24, 0), false, 0);
    assert_eq!(x.on_command(TransportCmd::Start, 0).sent, vec![]);
}

#[test]
fn slow_pulses_are_multiplied() {
    let (mut e, _) = Engine::new(config(ClockSrc::Atom, 4, 0), false, 0);
    let first = e.on_pulse(ClockSrc::Atom, 0);
    assert_eq!(first.store_running, Some(true));
    let mut sum = ticks(&first);
    for n in 1..6 {
        sum += ticks(&e.on_pulse(ClockSrc::Atom, n * 100_000));
        while let Some(t) = e.next_deadline() {
            if t >= (n + 1) * 100_000 {
                break;
            }
            sum += ticks(&e.on_timer(t));
        }
    }
    // One tick before the period is known, six for each pulse after that.
    assert_eq!(sum, 1 + 5 * 6);
}

#[test]
fn fast_pulses_are_divided() {
    let (mut e, _) = Engine::new(config(ClockSrc::Atom, 48, 0), false, 0);
    let sum: usize = (0..10).map(|n| ticks(&e.on_pulse(ClockSrc::Atom, n * 10_000))).sum();
    assert_eq!(sum, 5);
}

#[test]
fn other_sources_and_bounces_are_ignored() {
    let (mut e, _) = Engine::new(config(ClockSrc::Atom, 24, 0), false, 0);
    assert_eq!(e.on_pulse(ClockSrc::Meteor, 0).sent, vec![]);
    assert_eq!(ticks(&e.on_pulse(ClockSrc::Atom, 10_000)), 1);
    assert_eq!(e.on_pulse(ClockSrc::Atom, 11_000).sent, vec![]);
    assert_eq!(
        e.on_pulse(ClockSrc::Cube, 12_000).sent,
        vec![ClockInEvent::Reset(ClockSrc::Cube)]
    );
    assert_eq!(
        e.on_transport(ClockInEvent::Start(ClockSrc::MidiIn), 0).sent,
        vec![]
    );
}

#[test]
fn silent_source_stops_the_clock() {
    let (mut e, _) = Engine::new(config(ClockSrc::Atom, 24, 0), false, 0);
    e.on_pulse(ClockSrc::Atom, 0);
    e.on_pulse(ClockSrc::Atom, 20_000);
    assert_eq!(e.next_deadline(), Some(2_020_000));
    let out = e.on_timer(2_020_000);
    assert_eq!(out.sent, vec![ClockInEvent::Stop(ClockSrc::Atom)]);
    assert_eq!(out.store_running, Some(false));
    assert_eq!(e.next_deadline(), None);
}

#[test]
fn new_source_stops_the_clock() {
    let (mut e, _) = Engine::new(config(ClockSrc::Internal, 24, 0), true, 0);
    let out = e.on_config(config(ClockSrc::MidiUsb, 24, 0), 500);
    assert_eq!((out.sent, out.store_running), (vec![], Some(false)));
    assert_eq!(e.next_deadline(), None);
    let out = e.on_transport(ClockInEvent::Start(ClockSrc::MidiUsb), 500);
    assert_eq!(out.sent, vec![ClockInEvent::Start(ClockSrc::MidiUsb)]);
    assert_eq!(
        e.on_pulse(ClockSrc::MidiUsb, 600).sent,
        vec![
            ClockInEvent::MidiTick(ClockSrc::MidiUsb),
            ClockInEvent::Tick(ClockSrc::MidiUsb)
        ]
    );
}

fn gate_config() -> GateConfig {
    let all = MidiOutConfig { send_clock: true, send_transport: true };
    let none = MidiOutConfig { send_clock: false, send_transport: false };
    GateConfig {
        clock_src: ClockSrc::Internal,
        reset_src: ClockSrc::Cube,
        outs: [all, none, MidiOutConfig { send_clock: false, send_transport: true }],
        aux: [AuxJackMode::ClockOut(2), AuxJackMode::ResetOut, AuxJackMode::Idle],
    }
}

#[test]
fn gatekeeper_numbers_ticks_from_zero() {
    let mut g = Gatekeeper::new(gate_config());
    let tick = ClockInEvent::Tick(ClockSrc::Internal);
    assert_eq!(g.on_event(tick).published, vec![]);
    let out = g.on_event(ClockInEvent::Start(ClockSrc::Internal));
    assert_eq!(out.published, vec![ClockEvent::Reset, ClockEvent::Start]);
    assert!(out.ports.len() == 1 && out.ports[0] == Port::P18);
    assert_eq!(out.midi, Some((Realtime::Start, [true, false, true])));
    assert_eq!(out.trigger_ms, 10);
    for n in 0..4 {
        let out = g.on_event(tick);
        assert_eq!(out.published, vec![ClockEvent::Tick(n)]);
        assert_eq!(out.ports.len(), if n % 2 == 0 { 1 } else { 0 });
        assert!(n % 2 == 1 || out.ports[0] == Port::P17);
        assert_eq!((out.trigger_ms, out.midi), (5, None));
    }
    let midi = g.on_event(ClockInEvent::MidiTick(ClockSrc::Internal)).midi;
    assert_eq!(midi, Some((Realtime::TimingClock, [true, false, false])));
    let reset = g.on_event(ClockInEvent::Reset(ClockSrc::Cube));
    assert_eq!(reset.published, vec![ClockEvent::Reset]);
    assert_eq!(g.on_event(tick).published, vec![ClockEvent::Tick(0)]);
    let stop = g.on_event(ClockInEvent::Stop(ClockSrc::Internal));
    assert_eq!(stop.published, vec![ClockEvent::Stop]);
    assert!(!g.is_running);
    assert_eq!(
        g.on_event(ClockInEvent::Continue(ClockSrc::Internal)).published,
        vec![ClockEvent::Start]
    );
    assert_eq!(g.on_event(ClockInEvent::Start(ClockSrc::Atom)).published, vec![]);
}

#[test]
fn gatekeeper_forgets_on_a_new_source() {
    let mut g = Gatekeeper::new(gate_config());
    g.on_event(ClockInEvent::Start(ClockSrc::Internal));
    g.on_event(ClockInEvent::Tick(ClockSrc::Internal));
    g.on_config(GateConfig { clock_src: ClockSrc::Atom, ..gate_config() });
    assert!(!g.is_running);
    assert_eq!(g.analog_tick_counters, [0; 3]);
    // An analog source needs no start.
    assert_eq!(g.on_event(ClockInEvent::Tick(ClockSrc::Atom)).published.len(), 1);
}

#[test]
fn metronome_flashes_each_beat() {
    let mut m = Metronome::new(0);
    assert_eq!(m.step(1), Some(true));
    for _ in 0..24 {
        assert_eq!(m.step(2), None);
    }
    assert_eq!(m.step(2), Some(false));
    assert_eq!(m.step(23), None);
    assert_eq!(m.step(24), Some(true));
    // A reset counts as a beat.
    assert_eq!(m.step(0), Some(true));
}

#[test]
fn ticks_between_pulses_are_constant() {
    let (mut e, _) = Engine::new(config(ClockSrc::Atom, 4, 0), false, 0);
    e.on_pulse(ClockSrc::Atom, 0);
    e.on_pulse(ClockSrc::Atom, 100_000);
    // Early, on time and late: own ticks are always six apart.
    let mut at = 100_000;
    let mut sent = 1;
    let mut own = vec![1];
    for gap in [60_000, 100_000, 140_000, 30_000] {
        at += gap;
        while let Some(t) = e.next_deadline() {
            if t >= at {
                break;
            }
            let out = e.on_timer(t);
            assert_eq!(
                out.sent,
                vec![ClockInEvent::MidiTick(ClockSrc::Atom), ClockInEvent::Tick(ClockSrc::Atom)]
            );
            sent += ticks(&out);
        }
        let now = ticks(&e.on_pulse(ClockSrc::Atom, at));
        if now == 1 {
            own.push(sent + 1);
        } else {
            // The stale ticks go first, half a millisecond apart.
            let mut stale = 0;
            while e.next_deadline().unwrap() == at + 500 * stale {
                sent += ticks(&e.on_timer(at + 500 * stale));
                stale += 1;
            }
            own.push(sent);
        }
        sent += now;
    }
    assert_eq!(own, vec![1, 7, 13, 19, 25]);
}

#[test]
fn divided_pulses_count_from_a_reset() {
    let both = vec![ClockInEvent::MidiTick(ClockSrc::Atom), ClockInEvent::Tick(ClockSrc::Atom)];
    let (mut e, _) = Engine::new(config(ClockSrc::Atom, 72, 0), false, 0);
    for k in 0..8 {
        let sent = e.on_pulse(ClockSrc::Atom, k * 10_000).sent;
        assert_eq!(sent, if k % 3 == 0 { both.clone() } else { vec![] });
    }
    e.on_pulse(ClockSrc::Cube, 75_000);
    assert_eq!(e.on_pulse(ClockSrc::Atom, 80_000).sent, both);
}

#[test]
fn internal_events_are_taken_too() {
    let (mut e, _) = Engine::new(config(ClockSrc::Internal, 24, 0), false, 0);
    assert_eq!(
        e.on_transport(ClockInEvent::Start(ClockSrc::Internal), 5).sent,
        vec![ClockInEvent::Start(ClockSrc::Internal)]
    );
    assert_eq!(ticks(&e.on_pulse(ClockSrc::Internal, 10)), 1);
    // Instants far beyond any uptime still work.
    let (mut e, _) = Engine::new(config(ClockSrc::Atom, 24, 0), false, u64::MAX - 2000);
    assert_eq!(ticks(&e.on_pulse(ClockSrc::Atom, u64::MAX - 2_000_000)), 1);
}
