//! The four-track sequencer.

use faderpunk::apps::seq8::{
    gate_ticks, get_alt_target, length_fader_to_seq_length, probability_threshold, step_position,
    step_ticks, track_color, Direction, Params, Pitch, Seq8, Storage,
};
use faderpunk::panel::{Act, LatchLayer, MidiIn, MidiOut, VoltPerOct};

fn params(vel_lane_2: bool) -> Params {
    Params {
        midi_channel1: 1,
        midi_channel2: 2,
        midi_channel3: 3,
        midi_channel4: 4,
        midi_out: MidiOut { usb: true, out1: true, out2: true },
        vel_lane_2,
        vel_lane_4: false,
        transpose_midi_in: MidiIn { usb: false, din: false },
        transpose_ch1: 1,
        transpose_ch2: 2,
        transpose_ch3: 3,
        transpose_ch4: 4,
        vpo: VoltPerOct::Standard,
        bypass: false,
    }
}

fn app() -> Seq8 {
    Seq8::new(params(false), Storage::default(), 0, 410)
}

const PITCH: Pitch = Pitch { note: 64, counts: 1000 };

#[test]
fn seq8_scales() {
    assert_eq!((probability_threshold(0), probability_threshold(4095)), (205, 4096));
    assert_eq!(probability_threshold(2048), 2150);
    assert_eq!(length_fader_to_seq_length(0), 1);
    assert_eq!(length_fader_to_seq_length(1613), 8);
    assert_eq!(length_fader_to_seq_length(2048), 8);
    assert_eq!(length_fader_to_seq_length(2227), 8);
    assert_eq!(length_fader_to_seq_length(3840), 16);
    assert_eq!(length_fader_to_seq_length(3839), 15);
    assert_eq!(length_fader_to_seq_length(2552), 9);
    assert_eq!(length_fader_to_seq_length(u16::MAX), 16);
    assert_eq!(length_fader_to_seq_length(4095), 16);
    assert_eq!((gate_ticks(6, 2032), gate_ticks(6, 0), gate_ticks(6, 4095)), (2, 1, 5));
    assert_eq!((step_ticks(0), step_ticks(2048), step_ticks(4095)), (24, 6, 2));
    for (fader, dir) in [
        (0, Direction::Forward),
        (1024, Direction::Backward),
        (2048, Direction::PingPong),
        (4095, Direction::Random),
    ] {
        assert_eq!(Direction::from_fader(fader), dir);
    }
}

#[test]
fn positions_by_direction() {
    let walk = |d: Direction| -> Vec<usize> { (0..8).map(|s| step_position(d, s, 3, 7)).collect() };
    assert_eq!(walk(Direction::Forward), [0, 1, 2, 0, 1, 2, 0, 1]);
    assert_eq!(walk(Direction::Backward), [2, 1, 0, 2, 1, 0, 2, 1]);
    assert_eq!(walk(Direction::PingPong), [0, 1, 2, 2, 1, 0, 0, 1]);
    assert_eq!(walk(Direction::Random), [1; 8]);
    assert_eq!(step_position(Direction::Forward, 5, 0, 7), 0);
}

#[test]
fn seq8_starts_from_its_faders() {
    let a = app();
    for t in a.tracks {
        assert_eq!((t.seq_length, t.clockres, t.gate_length), (16, 6, 2));
        assert_eq!((t.probability, t.direction), (4096, Direction::Forward));
    }
    let plan = a.plan();
    assert_eq!((plan.lengths, plan.res), ([16; 4], [6; 4]));
}

#[test]
fn steps_play_and_end() {
    let mut a = app();
    let plan = a.plan();
    assert_eq!(a.step_at(1, &plan, 6, 0), Some(17));
    assert_eq!(a.step_at(1, &plan, 7, 0), None);
    let acts = a.on_track(1, &plan, 6, (0, 100), PITCH);
    assert_eq!(
        acts,
        vec![
            Act::NoteOff { out: 1, note: 0 },
            Act::NoteOn { out: 1, note: 64, vel: 4095 },
            Act::GateHigh { jack: 3 },
        ]
    );
    assert_eq!((a.tracks[1].target_cv, a.tracks[1].pos), (1000, 1));
    assert_eq!(a.on_track(1, &plan, 7, (0, 0), PITCH), vec![]);
    assert_eq!(
        a.on_track(1, &plan, 8, (0, 0), PITCH),
        vec![Act::GateLow { jack: 3 }, Act::NoteOff { out: 1, note: 64 }]
    );
    assert_eq!(a.on_stop().len(), 8);
}

#[test]
fn muted_or_unlucky_steps_are_silent() {
    let mut a = app();
    let plan = a.plan();
    a.store.muted[0] = true;
    assert_eq!(
        a.on_track(0, &plan, 0, (0, 0), PITCH),
        vec![Act::NoteOff { out: 0, note: 0 }, Act::GateLow { jack: 1 }]
    );
    let mut b = app();
    b.tracks[0].probability = 205;
    assert_eq!(b.on_track(0, &plan, 0, (0, 205), PITCH).len(), 2);
    assert_eq!(b.on_track(0, &plan, 0, (0, 204), PITCH).len(), 3);
}

#[test]
fn legato_steps_hold_and_slide() {
    let mut a = app();
    a.store.legato_seq[0] = true;
    let plan = a.plan();
    a.on_track(0, &plan, 0, (0, 0), PITCH);
    assert_eq!(a.on_track(0, &plan, 2, (0, 0), PITCH), vec![]);
    a.on_track(0, &plan, 6, (0, 0), PITCH);
    assert!(a.tracks[0].sliding);
    a.on_track(0, &plan, 12, (0, 0), PITCH);
    assert!(!a.tracks[0].sliding);
}

#[test]
fn velocity_lanes_feed_the_track_before() {
    let mut a = Seq8::new(params(true), Storage::default(), 0, 410);
    a.store.seq[16] = 1234;
    let plan = a.plan();
    assert_eq!(a.on_track(1, &plan, 0, (0, 0), PITCH), vec![Act::GateHigh { jack: 3 }]);
    assert_eq!((a.tracks[1].vel_source, a.tracks[1].target_cv), (1234, 1234));
    assert_eq!(
        a.on_track(0, &plan, 0, (0, 0), PITCH)[1],
        Act::NoteOn { out: 0, note: 64, vel: 1234 }
    );
}

#[test]
fn pitches_and_transposition() {
    let mut a = app();
    a.store.seq[3] = 4095;
    a.store.oct_fader[0] = 1000;
    assert_eq!(a.pitch_input(0, 3, 410), 3 * 410 + 410);
    a.on_transpose(0, 72);
    assert_eq!(a.tracks[0].transpo, 12);
    let plan = a.plan();
    a.on_track(0, &plan, 0, (0, 0), PITCH);
    assert_eq!(a.tracks[0].target_cv, 1410);
    a.on_transpose(0, 0);
    a.on_track(0, &plan, 6, (0, 0), PITCH);
    assert_eq!(a.tracks[0].target_cv, 0);
}

#[test]
fn seq8_buttons() {
    let mut a = app();
    assert_eq!(a.on_press(3, false), vec![Act::Save]);
    assert!(!a.store.gateseq[3]);
    a.on_long_press(3, false);
    assert!(a.store.gateseq[3] && a.store.legato_seq[3]);
    a.on_press(3, false);
    assert!(!a.store.gateseq[3] && !a.store.legato_seq[3]);
    assert_eq!(a.on_press(4, true), vec![]);
    assert_eq!((a.page, a.prev_page), (4, 0));
    assert_eq!(a.on_long_press(4, true), vec![Act::Save]);
    assert_eq!((a.page, a.store.muted), (0, [false, false, true, false]));
    assert_eq!(a.on_long_press(5, true), vec![]);
    a.on_press(7, true);
    a.on_press(0, false);
    assert!(!a.store.gateseq[56]);
}

#[test]
fn seq8_faders() {
    let mut a = app();
    a.on_press(2, true);
    a.on_fader(5, 77);
    assert_eq!((a.store.seq[21], a.fader_target(5)), (77, 77));
    a.set_layer(true);
    assert_eq!(a.layer, LatchLayer::Alt);
    for chan in 0..8 {
        assert_eq!(a.on_fader(chan, 4095), vec![Act::Save]);
        assert_eq!(get_alt_target(chan, 1, &a.store), 4095);
    }
    let t = a.tracks[1];
    assert_eq!((t.seq_length, t.clockres, t.direction), (16, 2, Direction::Random));
    assert_eq!(get_alt_target(9, 1, &a.store), 0);
    a.on_scene(Storage::default());
    assert_eq!(a.tracks[1].clockres, 6);
}

#[test]
fn seq8_paints() {
    let a = app();
    assert!(!a.paint_page().is_empty());
    assert!(!a.paint_shift().is_empty());
    assert_ne!(track_color(0), track_color(1));
}

#[test]
fn alt_updates_touch_one_track() {
    let mut a = app();
    let (tracks, store) = (a.tracks, a.store);
    assert_eq!(a.apply_alt_update(8, 2, 77), vec![]);
    assert_eq!(a.tracks, tracks);
    assert_eq!(a.store, store);
    assert_eq!(a.apply_alt_update(4, 2, 0), vec![Act::Save]);
    assert_eq!(get_alt_target(4, 2, &a.store), 0);
    assert_eq!(a.tracks[2].clockres, 24);
    assert_eq!(a.tracks[1], tracks[1]);
    a.apply_alt_update(1, 2, 4095);
    assert_eq!(a.tracks[2].gate_length, 23);
}
