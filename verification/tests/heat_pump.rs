//! The ducking envelope.

use faderpunk::apps::heat_pump::{
    color_for_division, default_division, default_in_att, dest_color, division_to_fader,
    fader_to_division, idle_level, HeatPump, Metronome, Params, Storage, DEST_DEPTH, DEST_DUCK,
    DEST_RELEASE, JACK_IN, JACK_OUT, NO_SLOT, TRIG_HIGH,
};
use faderpunk::panel::{Act, Brightness, Color, LatchLayer, Led, MidiOut, Range};

fn params(jack_mode: usize, dest: usize) -> Params {
    Params {
        color: Color::Cyan,
        range: Range::V0To10,
        midi_channel: 3,
        midi_cc: 32,
        nrpn: false,
        midi_out: MidiOut { usb: true, out1: false, out2: false },
        jack_mode,
        dest,
        cv_att: 50,
    }
}

fn app(jack_mode: usize, dest: usize) -> HeatPump {
    HeatPump::new(params(jack_mode, dest), Storage::default())
}

#[test]
fn heat_pump_defaults() {
    let s = Storage::default();
    assert_eq!((s.release, s.depth, s.invert, s.muted), (2000, 2800, false, false));
    assert_eq!(default_division(), 0);
    assert_eq!(default_in_att(), 4095);
    let a = app(JACK_IN, DEST_DUCK);
    assert_eq!(a.store.in_att, 2047);
    assert_eq!((a.dest, a.store.dest, a.division), (DEST_DUCK, DEST_DUCK, 0));
}

#[test]
fn rest_and_destination_colours() {
    assert_eq!((idle_level(false), idle_level(true)), (4095, 0));
    assert_eq!(dest_color(DEST_DEPTH), Color::Red);
    assert_eq!(dest_color(DEST_RELEASE), Color::Yellow);
    assert_eq!(dest_color(DEST_DUCK), Color::Cyan);
}

#[test]
fn division_colours_rotate() {
    assert_eq!(color_for_division(Color::Cyan, 0), Color::Cyan);
    assert_eq!(color_for_division(Color::Cyan, 1), Color::SkyBlue);
    assert_eq!(color_for_division(Color::Cyan, 4), Color::White);
    assert_eq!(color_for_division(Color::Pink, 0), Color::Pink);
    assert_eq!(color_for_division(Color::Pink, 3), Color::Red);
    assert_eq!(color_for_division(Color::White, 99), Color::Violet);
    for a in 0..10 {
        for b in 0..a {
            assert_ne!(
                color_for_division(Color::Lime, a),
                color_for_division(Color::Lime, b)
            );
        }
    }
}

#[test]
fn divisions_survive_the_fader() {
    for d in 0..10 {
        assert_eq!(fader_to_division(division_to_fader(d)), d);
    }
    assert_eq!(fader_to_division(4095), 9);
    assert_eq!(division_to_fader(50), 4095);
}

#[test]
fn ticks_and_edges_duck() {
    let mut a = app(JACK_OUT, DEST_DEPTH);
    a.on_tick(1);
    assert_eq!(a.on_input(None), (None, 2095));
    a.on_tick(96);
    assert_eq!(a.on_input(None), (Some(1295), 2095));
    assert_eq!(a.on_input(None).0, None);
    let mut d = app(JACK_IN, DEST_DUCK);
    assert_eq!(d.on_input(Some(TRIG_HIGH - 1)).0, None);
    assert_eq!(d.on_input(Some(TRIG_HIGH)).0, Some(1295));
    assert_eq!(d.on_input(Some(TRIG_HIGH)).0, None);
    assert_eq!(d.on_input(Some(0)).0, None);
    assert_eq!(d.on_input(Some(4095)).0, Some(1295));
}

#[test]
fn cv_moves_depth_and_release() {
    let mut a = app(JACK_IN, DEST_DEPTH);
    a.trigger = true;
    assert_eq!(a.on_input(Some(2147)), (Some(1195), 2095));
    let mut r = app(JACK_IN, DEST_RELEASE);
    r.trigger = true;
    assert_eq!(r.on_input(Some(2147)), (Some(1295), 1995));
    r.store.invert = true;
    r.trigger = true;
    assert_eq!(r.on_input(Some(2047)).0, Some(2800));
}

#[test]
fn mute_rests_the_output() {
    let mut a = app(JACK_OUT, DEST_DEPTH);
    assert_eq!(a.effective_out(123), 123);
    a.store.muted = true;
    assert_eq!(a.effective_out(123), 4095);
    a.store.invert = true;
    assert_eq!(a.effective_out(123), 0);
}

#[test]
fn midi_follows_changes_only() {
    let mut a = app(JACK_OUT, DEST_DEPTH);
    assert_eq!(
        a.on_output(1600, 50),
        vec![Act::Cv { jack: 0, val: 1600 }, Act::Cc { out: 0, cc: 32, val: 1600 }]
    );
    assert_eq!(a.on_output(1601, 50), vec![Act::Cv { jack: 0, val: 1601 }]);
    let mut i = app(JACK_IN, DEST_DEPTH);
    assert_eq!(i.on_output(1600, 50), vec![Act::Cc { out: 0, cc: 32, val: 1600 }]);
}

#[test]
fn metronome_ducks_half_a_slot() {
    let mut m = Metronome { duck_left: 0, last_slot: NO_SLOT, ms_in_slot: 0, last_division: None };
    for _ in 0..20 {
        assert!(!m.step(3, 0));
    }
    let mut ducked = 0;
    for _ in 0..20 {
        if m.step(3, 1) {
            ducked += 1;
        }
    }
    assert_eq!(ducked, 10);
    // Too short a slot is not ducked at all.
    for slot in [2, 3, 0, 1] {
        for _ in 0..7 {
            m.step(3, slot);
        }
    }
    assert!(!m.step(3, 2));
}

#[test]
fn button_cycles_destination_or_division() {
    let mut i = app(JACK_IN, DEST_DEPTH);
    i.on_press(true, 0);
    assert_eq!(
        i.on_release(true),
        vec![
            Act::Save,
            Act::Flash { chan: 0, led: Led::Button, color: Color::Yellow, times: 3 }
        ]
    );
    assert_eq!((i.dest, i.store.dest, i.btn_flash), (1, 1, 850));
    let mut o = app(JACK_OUT, DEST_DEPTH);
    o.division = 9;
    o.on_press(true, 0);
    assert_eq!(o.on_release(true), vec![Act::Save]);
    assert_eq!((o.division, o.store.division), (0, 0));
}

#[test]
fn tap_ducks_unless_scrubbed() {
    let mut a = app(JACK_OUT, DEST_DEPTH);
    a.on_press(false, 1000);
    a.on_release(false);
    assert!(a.trigger);
    a.trigger = false;
    a.on_press(false, 1000);
    assert_eq!(a.on_fader(1064, false, true, None), vec![]);
    assert!(!a.fader_moved);
    a.on_fader(1065, false, true, None);
    assert!(a.fader_moved);
    a.on_release(false);
    assert!(!a.trigger);
}

#[test]
fn faders_write_their_layer() {
    let mut a = app(JACK_OUT, DEST_DEPTH);
    assert_eq!(a.fader_target(), 2000);
    assert_eq!(a.on_fader(77, false, false, Some(77)), vec![Act::Save]);
    assert_eq!(a.store.release, 77);
    a.layer = LatchLayer::Alt;
    a.on_fader(88, true, false, Some(88));
    assert_eq!((a.store.release, a.store.depth), (77, 88));
    a.layer = LatchLayer::Third;
    a.on_fader(4095, false, true, Some(4095));
    assert_eq!((a.division, a.store.division, a.fader_target()), (9, 9, 4095));
}

#[test]
fn long_press_inverts_or_mutes() {
    let mut a = app(JACK_OUT, DEST_DEPTH);
    a.on_press(true, 0);
    assert_eq!(a.on_long_press(true), (vec![Act::Save], Some(0)));
    assert!(a.store.invert);
    assert_eq!((a.invert_fade, a.invert_fade_up), (500, false));
    assert_eq!(a.on_release(true), vec![]);
    a.on_press(false, 0);
    let (acts, level) = a.on_long_press(false);
    assert_eq!(acts, vec![Act::Save, Act::Dark { chan: 0, led: Led::Button }]);
    assert_eq!(level, None);
    assert!(a.store.muted);
    a.on_press(false, 0);
    a.fader_moved = true;
    assert_eq!(a.on_long_press(false), (vec![], None));
    assert!(a.store.muted);
}

#[test]
fn heat_pump_frames() {
    let mut a = app(JACK_OUT, DEST_DEPTH);
    let acts = a.on_frame(false, false, 1600, 0);
    assert_eq!(
        acts,
        vec![
            Act::Light {
                chan: 0,
                led: Led::Button,
                color: Color::Cyan,
                bright: Brightness::Mid
            },
            Act::Light {
                chan: 0,
                led: Led::Top,
                color: Color::Cyan,
                bright: Brightness::Custom(100)
            },
            Act::Dark { chan: 0, led: Led::Bottom },
        ]
    );
    a.on_long_press(true);
    let fade = a.on_frame(true, false, 1600, 0);
    assert_eq!(
        fade[0],
        Act::Light {
            chan: 0,
            led: Led::Button,
            color: Color::White,
            bright: Brightness::Custom(255)
        }
    );
    assert_eq!(a.invert_fade, 499);
    assert_eq!(a.layer, LatchLayer::Alt);
    assert_eq!(
        fade[1],
        Act::Light {
            chan: 0,
            led: Led::Top,
            color: Color::Red,
            bright: Brightness::Custom(175)
        }
    );
}

#[test]
fn heat_pump_scene() {
    let mut a = app(JACK_OUT, DEST_DEPTH);
    let store = Storage { division: 40, dest: 9, invert: true, muted: true, ..Storage::default() };
    let (acts, level) = a.on_scene(store);
    assert_eq!(acts, vec![Act::Dark { chan: 0, led: Led::Button }]);
    assert_eq!(level, 0);
    assert_eq!((a.division, a.dest), (9, 2));
}
