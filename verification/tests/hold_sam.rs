//! Sample and hold over MIDI.

use faderpunk::apps::hold_sam::{
    division_for, gate_pct_from_fader, gate_ticks, note_from_cv, velocity_12bit, HoldSam, Params,
    Reading, Storage,
};
use faderpunk::panel::{Act, Brightness, Color, LatchLayer, Led, MidiMode, MidiOut, Range, VoltPerOct};

fn params(midi_mode: MidiMode) -> Params {
    Params {
        midi_mode,
        midi_channel: 1,
        midi_note: 60,
        midi_cc: 32,
        midi_out: MidiOut { usb: true, out1: true, out2: true },
        color: Color::Pink,
        range: Range::V0To10,
        vpo: VoltPerOct::Standard,
        bypass: false,
        att: 100,
        base_velocity: 100,
    }
}

fn app(midi_mode: MidiMode) -> HoldSam {
    HoldSam::new(params(midi_mode), Storage::default(), 0, 0).0
}

fn reading(sample: u16) -> Reading {
    Reading { sample, pitch: 24, cc: 99 }
}

#[test]
fn hold_sam_scales() {
    assert_eq!(gate_pct_from_fader(0), 1);
    assert_eq!(gate_pct_from_fader(3686), 90);
    assert_eq!(gate_pct_from_fader(4095), 100);
    assert_eq!(gate_ticks(24, 3686), 21);
    assert_eq!(gate_ticks(24, 4095), 24);
    assert_eq!(gate_ticks(2, 0), 1);
    assert_eq!(gate_ticks(0, 4095), 1);
    assert_eq!(velocity_12bit(100, 2048, 0), 3224);
    assert_eq!(velocity_12bit(100, 4095, 4095), 4095);
    assert_eq!(velocity_12bit(-5, 0, 4095), 32);
    assert_eq!(note_from_cv(60, 12), 60);
    assert_eq!(note_from_cv(60, 127), 127);
    assert_eq!(note_from_cv(0, 0), 0);
    assert_eq!((division_for(0), division_for(2048), division_for(4095)), (384, 16, 2));
    let att = |att: i32| Params { att, ..params(MidiMode::Note) }.attenuation();
    assert_eq!((att(-1), att(100), att(9999)), (0, 100, 4095));
}

#[test]
fn moving_input_plays() {
    let mut a = app(MidiMode::Note);
    // Sixteen ticks to a sample.
    assert_eq!(a.div, 16);
    assert!(a.samples_at(32));
    assert!(!a.samples_at(33));
    let acts = a.on_tick(20_000, 16, reading(1000), false);
    let vel = velocity_12bit(100, 2048, 1000);
    assert_eq!(acts, vec![Act::NoteOn { out: 0, note: 72, vel }]);
    assert_eq!(a.tick_period_ms, 20);
    assert_eq!((a.gate_end_tick, a.gate_end_at), (30, 20_000 + 14 * 20 * 1000));
    // A note in progress ends before the next begins.
    let next = a.on_tick(40_000, 32, reading(2000), false);
    assert_eq!(next[0], Act::NoteOff { out: 0, note: 72 });
    assert!(matches!(next[2], Act::NoteOn { .. }));
}

#[test]
fn resting_input_is_silent() {
    let mut a = app(MidiMode::Note);
    assert_eq!(a.on_tick(0, 0, reading(10), false), vec![]);
    a.on_tick(0, 16, reading(500), false);
    assert_eq!(a.idle_count, 0);
    // One repeat is still sent, the next is not.
    assert!(a.on_tick(0, 32, reading(500), false).len() > 2);
    let quiet = a.on_tick(0, 48, reading(510), false);
    assert_eq!(
        quiet,
        vec![
            Act::NoteOff { out: 0, note: 72 },
            Act::Light { chan: 0, led: Led::Top, color: Color::Pink, bright: Brightness::Off },
        ]
    );
}

#[test]
fn gate_ends_by_ticks_or_by_time() {
    let mut a = app(MidiMode::Note);
    a.on_tick(20_000, 16, reading(1000), false);
    assert_eq!(a.on_tick(40_000, 29, reading(0), false), vec![]);
    let off = a.on_tick(60_000, 30, reading(0), false);
    assert_eq!(off[0], Act::NoteOff { out: 0, note: 72 });
    assert_eq!(a.sounding, None);
    let mut b = app(MidiMode::Note);
    b.on_tick(20_000, 16, reading(1000), false);
    b.on_transport(false);
    assert!(b.stopped);
    assert_eq!(b.on_poll(299_999), vec![]);
    assert_eq!(b.on_poll(300_000)[0], Act::NoteOff { out: 0, note: 72 });
}

#[test]
fn controllers_duck_the_button() {
    let mut a = app(MidiMode::Cc);
    assert_eq!(
        a.on_tick(0, 0, reading(1000), true),
        vec![
            Act::Cc { out: 0, cc: 32, val: 99 },
            Act::Light { chan: 0, led: Led::Bottom, color: Color::Orange, bright: Brightness::High },
        ]
    );
    assert_eq!((a.button_duck, a.sample_flash), (25, 80));
}

#[test]
fn manual_sample_and_mute() {
    let mut a = app(MidiMode::Note);
    a.on_press(true);
    assert_eq!(a.on_manual_sample(0, 5, reading(1)).len(), 1);
    a.on_press(false);
    assert_eq!(
        a.on_release(),
        vec![
            Act::Save,
            Act::Light { chan: 0, led: Led::Button, color: Color::Red, bright: Brightness::Low }
        ]
    );
    assert!(a.store.muted);
    // A soft mute lets the note ring.
    assert_eq!(a.sounding, Some(72));
    assert_eq!(a.on_manual_sample(0, 6, reading(9)), vec![]);
    a.on_press(false);
    a.on_release();
    assert!(!a.store.muted);
}

#[test]
fn panic_press_ends_the_note() {
    let mut a = app(MidiMode::Note);
    a.on_manual_sample(0, 5, reading(1));
    a.on_press(false);
    let acts = a.on_long_press(false);
    assert_eq!(acts[0], Act::NoteOff { out: 0, note: 72 });
    assert_eq!(acts[1], Act::Save);
    assert!(a.store.muted);
    assert_eq!((a.gate_end_tick, a.gate_end_at), (0, 0));
    assert_eq!(a.on_release(), vec![]);
    assert_eq!(a.on_long_press(true), vec![]);
}

#[test]
fn hold_sam_faders() {
    let mut a = app(MidiMode::Note);
    a.on_press(false);
    a.on_fader(5, false, true, None);
    assert!(a.fader_moved);
    assert_eq!(a.on_release(), vec![]);
    a.layer = LatchLayer::Alt;
    assert_eq!(a.fader_target(), 2048);
    assert_eq!(a.on_fader(4095, true, false, Some(4095)), vec![Act::Save]);
    assert_eq!((a.div, a.store.res_saved), (2, 4095));
    a.layer = LatchLayer::Third;
    a.on_fader(7, false, true, Some(7));
    assert_eq!(a.store.sens_saved, 7);
}

#[test]
fn hold_sam_frames_and_scene() {
    let mut a = app(MidiMode::Note);
    assert_eq!(
        a.on_frame(false, false)[1],
        Act::Light {
            chan: 0,
            led: Led::Button,
            color: faderpunk::apps::led_spectrum::spectrum_color(3686),
            bright: Brightness::Custom(230)
        }
    );
    a.sample_flash = 1;
    assert_eq!(a.on_frame(false, false).len(), 3);
    assert_eq!(a.sample_flash, 0);
    let light = a.on_scene(Storage { res_saved: 0, muted: true, ..Storage::default() });
    assert_eq!(a.div, 384);
    assert_eq!(
        light,
        Act::Light { chan: 0, led: Led::Button, color: Color::Red, bright: Brightness::Low }
    );
    assert_eq!(a.on_frame(false, false)[1], Act::Dark { chan: 0, led: Led::Top });
}
