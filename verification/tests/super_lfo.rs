//! The double oscillator.

use faderpunk::apps::morph::MorphChaos;
use faderpunk::apps::super_lfo::{
    cv_mod_u16, dest_color, display_latch, mix_mode_color, mix_samples, morph_color, morph_sample,
    osc_phases, wave_button_brightness, Params, Storage, SuperLfo,
};
use faderpunk::panel::{Act, Brightness, Color, LatchLayer, Led, MidiOut, Range};

fn params() -> Params {
    Params {
        speed_mult: 0,
        range: Range::VNeg5To5,
        midi_out: MidiOut { usb: true, out1: false, out2: false },
        midi_channel: 1,
        midi_cc: 32,
        color: Color::Yellow,
        nrpn: false,
        phase_lock: true,
        mix_mode: 0,
        osc_b: 0,
        mix_balance: 50,
    }
}

fn app() -> SuperLfo {
    SuperLfo::new(params(), Storage::default()).0
}

#[test]
fn super_lfo_colours() {
    assert_eq!(morph_color(0), Color::Custom(255, 0, 0));
    assert_eq!(morph_color(2048), Color::Custom(0, 255, 255));
    assert_eq!((dest_color(0), dest_color(8), dest_color(99)), (Color::Yellow, Color::Blue, Color::Yellow));
    assert_eq!((mix_mode_color(1), mix_mode_color(7)), (Color::Cyan, Color::White));
    for a in 0..9 {
        for b in 0..a {
            assert_ne!(dest_color(a), dest_color(b));
        }
    }
}

#[test]
fn button_never_goes_dark() {
    assert_eq!(wave_button_brightness(0, false), Brightness::Custom(110));
    assert_eq!(wave_button_brightness(4095, false), Brightness::Custom(255));
    assert_eq!(wave_button_brightness(2047, true), Brightness::Custom(110));
    assert_eq!(wave_button_brightness(0, true), Brightness::Custom(255));
    assert_eq!(wave_button_brightness(1647, true), Brightness::Custom(138));
}

#[test]
fn modulation_and_display() {
    assert_eq!(cv_mod_u16(1000, false, 500), 1000);
    assert_eq!(cv_mod_u16(1000, true, 500), 2000);
    assert_eq!(cv_mod_u16(1000, true, -600), 0);
    assert_eq!(cv_mod_u16(4000, true, 600), 4095);
    assert_eq!(display_latch(LatchLayer::Alt, 0, Some(1)), LatchLayer::Main);
    assert_eq!(display_latch(LatchLayer::Alt, 1, Some(1)), LatchLayer::Alt);
    assert_eq!(display_latch(LatchLayer::Alt, 0, None), LatchLayer::Main);
    assert_eq!(display_latch(LatchLayer::Third, 0, Some(1)), LatchLayer::Third);
}

#[test]
fn mixes() {
    assert_eq!(mix_samples(1000, 3000, 0, 0), 1000);
    assert_eq!(mix_samples(1000, 3000, 0, 4095), 3000);
    assert_eq!(mix_samples(1000, 3000, 0, 2048), 2000);
    assert_eq!(mix_samples(1000, 3000, 1, 0), 1000);
    assert_eq!(mix_samples(1000, 3000, 2, 0), 3000);
    assert_eq!(mix_samples(1000, 3000, 3, 0), 2000);
}

#[test]
fn oscillator_phases() {
    assert_eq!(osc_phases(100, 0, false), (100, 1124));
    assert_eq!(osc_phases(100, 0, true), (100, 200));
    assert_eq!(osc_phases(100, -200, false), (3996, 924));
    let mut chaos = MorphChaos::new();
    assert_eq!(morph_sample(0, 0, 0, &mut chaos, &[1000, 3000, 0, 0], (7, 8)), 1000);
    assert_eq!(morph_sample(0, 341, 0, &mut chaos, &[1000, 3000, 0, 0], (7, 8)), 2000);
}

#[test]
fn input_moves_its_destination() {
    let mut a = app();
    a.store.dest = 4;
    let (v, form, reset) = a.on_input(2547, 9);
    assert_eq!((v, form.morph, form.skew, reset), (2547, 1000, 2048, false));
    a.store.in_mute = true;
    let (v, form, _) = a.on_input(4095, 9);
    assert_eq!((v, form.morph), (2047, 0));
    a.store.in_mute = false;
    a.store.dest = 1;
    assert_eq!(a.on_input(2057, 9).1.phase_offset, 20);
    a.store.dest = 0;
    a.on_input(4095, 9);
    assert_eq!(a.div, 6);
}

#[test]
fn reset_on_a_rising_edge() {
    let mut a = app();
    a.store.dest = 3;
    assert!(!a.on_input(0, 5).2);
    assert!(a.on_input(2458, 6).2);
    assert_eq!(a.phase_origin, 6);
    assert!(!a.on_input(4095, 7).2);
    a.on_input(0, 8);
    assert!(a.on_input(4095, 9).2);
}

#[test]
fn hold_keeps_the_level() {
    let mut a = app();
    assert_eq!(a.effective_value(123), 123);
    a.frozen_val = 77;
    a.store.frozen = true;
    assert!(a.is_held());
    assert_eq!(a.effective_value(123), 77);
    a.store.out_muted = true;
    assert_eq!(a.effective_value(123), 2047);
    let mut b = app();
    b.store.clocked = true;
    b.on_transport(false);
    assert!(b.is_held());
    b.on_tick(1);
    assert!(!b.is_held());
}

#[test]
fn clocked_phase_of_the_pair() {
    let mut a = app();
    assert_eq!(a.on_tick(30), None);
    a.store.clocked = true;
    assert_eq!(a.on_tick(30), Some((6, 24)));
    a.on_down(1, false);
    assert!(a.on_up_1(false, 30).1);
    assert_eq!(a.on_tick(30), Some((0, 24)));
    a.on_reset();
    assert_eq!(a.phase_origin, 0);
    a.store.frozen = true;
    assert_eq!(a.on_tick(30), None);
}

#[test]
fn super_lfo_buttons() {
    let mut a = app();
    a.on_down(0, true);
    assert_eq!(
        a.on_up_0(true),
        vec![Act::Save, Act::Flash { chan: 0, led: Led::Button, color: Color::Pink, times: 3 }]
    );
    assert_eq!((a.store.dest, a.flash[0]), (1, 850));
    a.on_down(0, false);
    a.on_up_0(false);
    assert!(a.store.frozen);
    a.on_down(0, false);
    assert_eq!(a.on_long_press(0, false, true), vec![]);
    assert_eq!(a.on_up_0(false), vec![Act::Save]);
    assert!(a.store.in_mute && a.store.frozen);
    assert_eq!(a.on_long_press(0, true, true).len(), 1);
    assert_eq!(a.mix_mode, 1);
    a.on_down(1, true);
    assert_eq!(a.on_up_1(true, 0), (vec![Act::Save], false));
    assert!(a.store.reversed);
    assert_eq!((a.reverse_fade, a.reverse_fade_up), (500, false));
    a.on_long_press(1, true, false);
    assert!(a.store.clocked && a.clock_held);
    assert_eq!(a.on_long_press(1, true, false), vec![Act::Save]);
    assert!(!a.store.clocked && !a.clock_held);
}

#[test]
fn super_lfo_layers_do_not_mix() {
    let mut a = app();
    let layers = [LatchLayer::Main, LatchLayer::Alt, LatchLayer::Third];
    let mut v = 1;
    for chan in 0..2 {
        for layer in layers {
            a.layers[chan] = layer;
            assert_eq!(a.on_fader(chan, v), vec![Act::Save]);
            v += 1;
        }
    }
    let s = a.store;
    assert_eq!((s.morph, s.rate_mod, s.skew, s.pwm, s.layer_speed, s.warp), (1, 2, 3, 4, 5, 6));
    assert_eq!(a.fader_target(0), 3);
    a.on_fader_move(1);
    assert_eq!(a.fader_target(1), 6);
}

#[test]
fn super_lfo_frames() {
    let mut a = app();
    let (acts, busy) = a.begin_frame(true, false, false);
    assert_eq!(a.layers, [LatchLayer::Alt, LatchLayer::Alt]);
    assert_eq!((busy.fade, busy.flash_0, busy.flash_1), (0, 0, 0));
    assert_eq!(acts, vec![]);
    let acts = a.end_frame(1600, 50, 2047, 0, busy);
    assert!(acts.contains(&Act::Cv { jack: 1, val: 1600 }));
    assert!(acts.contains(&Act::Cc { out: 0, cc: 32, val: 1600 }));
    let again = a.end_frame(1601, 50, 2047, 0, busy);
    assert!(!again.iter().any(|x| matches!(x, Act::Cc { .. })));
    let act = a.on_scene(Storage { out_muted: true, ..Storage::default() });
    assert_eq!(act, Act::Dark { chan: 1, led: Led::Button });
}
