//! Frames, requests and calibration of the host protocol.

use faderpunk::layout::{EvictionCmd, LayoutEntry};
use faderpunk::tasks::clock::AuxJackMode;
use faderpunk::tasks::configure::{
    confirm_channel, find_jack_owner, packetize, params_reply, payload_of, plain_message,
    plan_request, strip_header, sysex_frame, CalReply, CalStep, Calibration, ConfigAct,
    ConfigReply, ConfigRequest, DeviceState, ParamWait, PortMode, ProtocolError,
};

const IDLE: DeviceState =
    DeviceState { spawn_active: false, start_held: false, host_holds_mute: false };

fn layout() -> Vec<LayoutEntry> {
    vec![
        LayoutEntry { app_id: 7, start_channel: 0, channels: 2, layout_id: 3 },
        LayoutEntry { app_id: 8, start_channel: 4, channels: 4, layout_id: 5 },
    ]
}

#[test]
fn frames_carry_their_length() {
    let plain = plain_message(&[1, 2, 3]);
    assert_eq!(plain, [0, 3, 1, 2, 3]);
    assert_eq!(payload_of(&plain), Ok(vec![1, 2, 3]));
    assert_eq!(payload_of(&[0, 4, 1, 2, 3]), Err(ProtocolError::CorruptedMessage));
    assert_eq!(payload_of(&[0]), Err(ProtocolError::CorruptedMessage));
    let long = vec![9; 300];
    assert_eq!(payload_of(&plain_message(&long)), Ok(long));
}

#[test]
fn headers_are_checked() {
    assert_eq!(strip_header(&[1, 2, 3], &[1, 2]), Ok(vec![3]));
    assert_eq!(strip_header(&[1, 3, 3], &[1, 2]), Err(ProtocolError::CorruptedMessage));
    assert_eq!(strip_header(&[1], &[1, 2]), Err(ProtocolError::CorruptedMessage));
}

#[test]
fn sysex_frames_fit_or_fail() {
    assert_eq!(sysex_frame(&[1], &[2, 3], 5), Ok(vec![0xf0, 1, 2, 3, 0xf7]));
    assert_eq!(sysex_frame(&[1], &[2, 3], 4), Err(ProtocolError::BufferTooSmall));
}

#[test]
fn packets_of_a_frame() {
    assert_eq!(packetize(&[]), Vec::<Vec<u8>>::new());
    assert_eq!(packetize(&[0xf0, 1, 0xf7]), vec![vec![7, 0xf0, 1, 0xf7]]);
    assert_eq!(packetize(&[0xf0, 1, 2, 0xf7]), vec![vec![4, 0xf0, 1, 2, 5, 0xf7, 0, 0]]);
    assert_eq!(packetize(&[0xf0, 0xf7]), vec![vec![6, 0xf0, 0xf7, 0]]);
    // A frame that fills its packets ends with a short one.
    let full = packetize(&[1; 48]);
    assert_eq!(full.iter().map(|p| p.len()).collect::<Vec<_>>(), [64, 0]);
    let more = packetize(&[1; 50]);
    assert_eq!(more.iter().map(|p| p.len()).collect::<Vec<_>>(), [64, 4]);
}

#[test]
fn waits_end() {
    let w = ParamWait::new(4, 1000, 300);
    assert_eq!(w.remaining(1100), Some(200));
    assert_eq!(w.remaining(1300), Some(0));
    assert_eq!(w.remaining(1301), None);
    assert!(w.accepts(4) && !w.accepts(5));
    assert_eq!(params_reply(4, true), ConfigReply::AppState(4));
    assert_eq!(params_reply(4, false), ConfigReply::EmptyAppState(4));
}

#[test]
fn requests_become_steps() {
    let steps = |req: ConfigRequest, dev: DeviceState| plan_request(req, dev, &[1, 2], &[10, 11]).steps;
    assert_eq!(steps(ConfigRequest::Ping, IDLE), vec![ConfigAct::Reply(ConfigReply::Pong)]);
    assert_eq!(
        steps(ConfigRequest::GetAllApps, IDLE),
        vec![
            ConfigAct::Reply(ConfigReply::BatchStart(2)),
            ConfigAct::Reply(ConfigReply::AppConfig(10)),
            ConfigAct::Reply(ConfigReply::AppConfig(11)),
            ConfigAct::Reply(ConfigReply::BatchEnd),
        ]
    );
    assert_eq!(
        steps(ConfigRequest::GetAppParams { layout_id: 1 }, IDLE)[2],
        ConfigAct::AwaitParams { layout_id: 1, timeout_ms: 3000 }
    );
    let muted = DeviceState { host_holds_mute: true, ..IDLE };
    assert_eq!(
        steps(ConfigRequest::GetAppParams { layout_id: 1 }, muted)[2],
        ConfigAct::AwaitParams { layout_id: 1, timeout_ms: 400 }
    );
    let spawning = DeviceState { spawn_active: true, ..IDLE };
    assert_eq!(
        steps(ConfigRequest::SetAppParams { layout_id: 1 }, spawning),
        vec![ConfigAct::Reply(ConfigReply::EmptyAppState(1))]
    );
    assert_eq!(steps(ConfigRequest::GetAllAppParams, spawning).len(), 4);
    // The answer to a new layout is that layout, and comes before it spreads.
    assert_eq!(
        steps(ConfigRequest::SetLayout, IDLE),
        vec![
            ConfigAct::KeepLayout,
            ConfigAct::Reply(ConfigReply::Layout),
            ConfigAct::Pause(50),
            ConfigAct::PublishLayout,
        ]
    );
    assert_eq!(
        steps(ConfigRequest::ReleaseVoOctOutput { output_jack: 1 }, IDLE),
        vec![ConfigAct::Calibrate]
    );
}

#[test]
fn apps_are_found_by_jack_and_id() {
    assert_eq!(find_jack_owner(&layout(), 1).map(|e| e.app_id), Some(7));
    assert_eq!(find_jack_owner(&layout(), 2), None);
    assert_eq!(find_jack_owner(&layout(), 7).map(|e| e.app_id), Some(8));
    assert_eq!(confirm_channel(&layout(), 5), Some(4));
    assert_eq!(confirm_channel(&layout(), 6), None);
}

#[test]
fn measurement_gives_the_jack_back() {
    let mut c = Calibration::new();
    let aux = [AuxJackMode::Idle, AuxJackMode::ClockOut(4), AuxJackMode::Idle];
    let (steps, run) = c.begin_measure(&layout(), &aux, 5, 1, 1234);
    assert_eq!(
        steps,
        vec![
            CalStep::Layout(EvictionCmd::Evict(4)),
            CalStep::Configure { port: 18, mode: PortMode::HighZ },
            CalStep::Configure { port: 5, mode: PortMode::Dac },
            CalStep::Measure { jack: 5, aux: 1, counts: 1234 },
        ]
    );
    assert_eq!(
        run.unwrap().finish(true),
        vec![
            CalStep::Reply(CalReply::Frequency),
            CalStep::Configure { port: 5, mode: PortMode::HighZ },
            CalStep::Configure { port: 18, mode: PortMode::GateOut(2048) },
            CalStep::Layout(EvictionCmd::Restore(4, 8, 4, 5)),
        ]
    );
    for (jack, input) in [(16, 0), (0, 3)] {
        let (steps, run) = c.begin_measure(&layout(), &aux, jack, input, 0);
        assert_eq!(steps, vec![CalStep::Reply(CalReply::CalError)]);
        assert!(run.is_none());
    }
}

#[test]
fn outputs_are_held_until_released() {
    let mut c = Calibration::new();
    let set = c.set_output(&layout(), 0, 99);
    assert_eq!(
        set,
        vec![
            CalStep::Layout(EvictionCmd::Evict(0)),
            CalStep::Configure { port: 0, mode: PortMode::Dac },
            CalStep::Drive { jack: 0, counts: 99 },
            CalStep::Reply(CalReply::OutputSet),
        ]
    );
    // The same jack again evicts nothing more.
    assert_eq!(c.set_output(&layout(), 0, 100).len(), 3);
    // Another jack gives the first one back.
    assert_eq!(c.set_output(&layout(), 5, 1)[0], CalStep::Layout(EvictionCmd::Restore(0, 7, 2, 3)));
    assert_eq!(
        c.release_output(5),
        vec![
            CalStep::Configure { port: 5, mode: PortMode::HighZ },
            CalStep::Layout(EvictionCmd::Restore(4, 8, 4, 5)),
            CalStep::Reply(CalReply::OutputSet),
        ]
    );
    assert!(c.pending.is_none());
    assert_eq!(c.set_output(&layout(), 16, 1), vec![CalStep::Reply(CalReply::OutputSet)]);
}
