//! One input, three shaped outputs.

use faderpunk::apps::manifold::{
    condition_input, cv_target, hue_at, paint_buttons, pulse_fader_to_ms, pulse_ms_to_fader,
    Comparator, Edge, Manifold, Mode, Params, Storage,
};
use faderpunk::panel::{Act, Brightness, Color, LatchLayer, Led, MidiOut, Range};

fn params() -> Params {
    Params {
        midi_out: MidiOut { usb: true, out1: false, out2: false },
        mode_map: 0b1110,
        ..Params::with_channel(5)
    }
}

fn app() -> Manifold {
    Manifold::new(params(), Storage::default(), (255, 0, 0), 100, 7).0
}

#[test]
fn manifold_hues() {
    assert_eq!(hue_at(0, 0), Color::Custom(255, 0, 0));
    assert_eq!(hue_at(350, 1), Color::Custom(255, 121, 0));
    assert_eq!(hue_at(0, 9), hue_at(0, 4));
    assert_eq!(Mode::Gate.color(0), hue_at(0, 3));
}

#[test]
fn pulses_on_the_fader() {
    assert_eq!((pulse_ms_to_fader(0), pulse_ms_to_fader(1), pulse_ms_to_fader(200)), (0, 0, 4095));
    assert_eq!((pulse_fader_to_ms(0), pulse_fader_to_ms(4095)), (1, 100));
    for ms in 1..=100 {
        let back = pulse_fader_to_ms(pulse_ms_to_fader(ms));
        assert!(back == ms || back == ms - 1);
    }
}

#[test]
fn modes_go_round() {
    for v in 0..3 {
        let m = Mode::from_usize(v);
        assert_eq!(m.index(), v);
        assert_eq!(m.next().next().next(), m);
    }
    assert_eq!(Mode::from_usize(77), Mode::Cv);
}

#[test]
fn gate_with_hysteresis() {
    let mut c = Comparator { high: false, pulse_left: 0 };
    assert_eq!(c.gate_step(false, 2000, 2000, 100, 3), Edge::Stay);
    assert_eq!(c.gate_step(false, 2001, 2000, 100, 3), Edge::Up);
    // Two more milliseconds of minimum length.
    assert_eq!(c.gate_step(false, 0, 2000, 100, 3), Edge::Stay);
    assert_eq!(c.gate_step(false, 0, 2000, 100, 3), Edge::Stay);
    assert_eq!(c.gate_step(false, 1901, 2000, 100, 3), Edge::Stay);
    assert_eq!(c.gate_step(false, 1900, 2000, 100, 3), Edge::Down);
    assert_eq!(c.gate_step(false, 4095, 2000, 100, 3), Edge::Up);
    assert_eq!(c.gate_step(true, 4095, 2000, 100, 3), Edge::Down);
    assert_eq!(c.gate_step(true, 4095, 2000, 100, 3), Edge::Stay);
}

#[test]
fn trigger_pulse_length() {
    let mut c = Comparator { high: false, pulse_left: 0 };
    assert_eq!(c.trigger_step(false, 2001, 2000, 100, 3), vec![Edge::Up]);
    assert_eq!(c.trigger_step(false, 2001, 2000, 100, 3), vec![]);
    assert_eq!(c.trigger_step(false, 2001, 2000, 100, 3), vec![Edge::Down]);
    assert_eq!(c.trigger_step(false, 2001, 2000, 100, 3), vec![]);
    let mut d = Comparator { high: false, pulse_left: 0 };
    assert_eq!(d.trigger_step(false, 2001, 2000, 100, 1), vec![Edge::Up, Edge::Down]);
    let mut m = Comparator { high: true, pulse_left: 9 };
    assert_eq!(m.trigger_step(true, 2001, 2000, 100, 1), vec![Edge::Down]);
    assert_eq!(m, Comparator { high: false, pulse_left: 0 });
}

#[test]
fn shaped_levels() {
    assert_eq!(cv_target(false, 1000, 2147), 1100);
    assert_eq!(cv_target(false, 4000, 4095), 4095);
    assert_eq!(cv_target(true, 4000, 123), 123);
    assert_eq!(condition_input(100, 0), 0);
    assert_eq!(condition_input(100, 2047), 100);
}

#[test]
fn manifold_layers_do_not_mix() {
    let mut s = Storage::default();
    let layers = [LatchLayer::Main, LatchLayer::Alt, LatchLayer::Third];
    let mut v = 1;
    for chan in 0..4 {
        for layer in layers {
            s.set_layer(true, chan, Mode::Gate, layer, v);
            v += 1;
        }
    }
    v = 1;
    for chan in 0..4 {
        for layer in layers {
            assert_eq!(s.get_layer(true, chan, Mode::Gate, layer), v);
            v += 1;
        }
    }
    // The settings of the other source and of the other modes stay.
    assert_eq!((s.in_trim, s.att), (4095, [4095; 3]));
    assert_eq!((s.lfo_speed, s.morph, s.skew), (1, 2, 3));
    assert_eq!((s.threshold[0], s.hysteresis[1], s.pulse[2]), (4, 8, 12));
}

#[test]
fn manifold_starts_on_the_oscillator() {
    let (a, acts) = Manifold::new(params(), Storage::default(), (255, 0, 0), 100, 7);
    assert!(a.active);
    assert_eq!(a.ccs, [32, 33, 34, 35]);
    assert_eq!(a.is_note, [false, false, true, true]);
    assert_eq!(acts.len(), 6);
    assert_eq!(acts[0], Act::NoteOff { out: 2, note: 34 });
    assert_eq!(
        acts[2],
        Act::Light { chan: 0, led: Led::Button, color: Color::Violet, bright: Brightness::Low }
    );
    assert_eq!(params().channel_for(3), 5);
}

#[test]
fn source_and_slots() {
    let mut a = app();
    a.begin_sample(1000, 8, (0, 0, 255), Color::Blue);
    assert!(!a.active);
    assert_eq!((a.base, a.params.color), (240, Color::Blue));
    for _ in 0..7 {
        assert_eq!(a.on_source(5), 5);
        assert!(!a.midi_due);
    }
    a.held = true;
    assert_eq!(a.on_source(6), 6);
    assert!(a.midi_due);
    assert_eq!(a.midi_slot, 1);
    assert_eq!(a.on_source(9), 6);
    assert!(!a.midi_due);
}

#[test]
fn outputs_follow_their_mode() {
    let mut a = app();
    assert_eq!(a.on_output(0, 0, 777, 0, 0), (777, vec![Act::Cv { jack: 1, val: 777 }]));
    assert_eq!(a.on_output(1, 3000, 0, 2458, 100), (4095, vec![Act::GateHigh { jack: 2 }]));
    assert_eq!(a.on_output(1, 3000, 0, 2458, 100), (4095, vec![]));
    assert_eq!(a.on_output(2, 3000, 0, 2458, 100).0, 4095);
    assert_eq!(a.out_levels, [777, 4095, 4095]);
    // The trigger stays up for the rest of its pulse.
    let mut n = 1;
    while a.on_output(2, 3000, 0, 2458, 100).0 > 0 {
        n += 1;
    }
    assert_eq!(n, pulse_fader_to_ms(Storage::default().pulse[2]) - 1);
}

#[test]
fn notes_and_controllers_are_mirrored() {
    let mut a = app();
    assert_eq!(a.mirror(2, 4095, 0), vec![Act::NoteOn { out: 2, note: 34, vel: 4095 }]);
    assert_eq!(a.mirror(2, 4095, 0), vec![]);
    assert_eq!(a.mirror(2, 0, 0), vec![Act::NoteOff { out: 2, note: 34 }]);
    assert_eq!(a.mirror(0, 1600, 50), vec![]);
    a.midi_due = true;
    assert_eq!(a.mirror(0, 1600, 50), vec![Act::Cc { out: 0, cc: 32, val: 1600 }]);
    assert_eq!(a.mirror(0, 1601, 50), vec![]);
    assert_eq!(a.mirror(1, 1601, 50), vec![]);
}

#[test]
fn manifold_presses() {
    let mut a = app();
    a.on_down(0, 0);
    assert_eq!(a.on_up(0, false).len(), 4);
    assert!(a.held);
    a.on_down(0, 0);
    assert_eq!(
        a.on_up(0, true)[1],
        Act::Flash { chan: 0, led: Led::Button, color: Color::Violet, times: 4 }
    );
    assert!(a.store.lfo_clocked);
    a.on_down(2, 500);
    let acts = a.on_up(2, false);
    assert_eq!((acts.len(), acts[0]), (5, Act::Save));
    assert_eq!(a.store.muted, [false, true, false]);
    a.on_down(2, 500);
    a.on_fader_move(2, 600, false, true);
    assert_eq!(a.on_up(2, false), vec![]);
    assert_eq!(a.store.muted, [false, true, false]);
}

#[test]
fn long_presses_change_mode_or_range() {
    let mut a = app();
    a.on_down(1, 0);
    let (acts, wait) = a.on_long(1, false);
    assert_eq!(wait, None);
    assert_eq!(
        acts,
        vec![Act::Light {
            chan: 1,
            led: Led::Button,
            color: Mode::Gate.color(0),
            bright: Brightness::Mid
        }]
    );
    assert_eq!(a.preview[0], Some(Mode::Gate));
    assert_eq!(a.on_up(1, false), vec![Act::Save, Act::Restart]);
    assert_eq!((a.params.mode_b, a.shown[0], a.preview[0]), (Mode::Gate, Mode::Gate, None));
    a.on_down(3, 0);
    let (acts, wait) = a.on_long(3, true);
    assert_eq!(
        acts,
        vec![Act::Flash { chan: 3, led: Led::Button, color: Mode::Trigger.color(0), times: 2 }]
    );
    assert_eq!((wait, a.btn_flash[3]), (Some(580), 580));
    assert_eq!(a.on_range_swap(3), vec![Act::Save, Act::Restart]);
    assert_eq!(a.params.range_d, Range::V0To10);
    assert_eq!(a.on_long(0, false), (vec![], None));
}

#[test]
fn manifold_fader_and_scene() {
    let mut a = app();
    assert_eq!(a.fader_target(2, LatchLayer::Main), 2458);
    assert_eq!(a.on_fader(2, LatchLayer::Main, 9), vec![Act::Save]);
    assert_eq!(a.store.threshold, [2458, 9, 2458]);
    let store = Storage { muted: [true; 3], ..Storage::default() };
    let acts = a.on_scene(store);
    assert_eq!(acts[3], Act::Dark { chan: 3, led: Led::Button });
    assert_eq!(
        acts,
        paint_buttons(Color::Violet, 0, &[Mode::Cv, Mode::Gate, Mode::Trigger], false, &[true; 3])
    );
    assert!(!a.paint_frame(100, false).is_empty());
    assert!(!a.paint_output(0, 5, 100).is_empty());
}
