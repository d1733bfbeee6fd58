//! The single oscillator.

use faderpunk::apps::lfo::{
    division_for, get_color_for, speed_divisor, Lfo, Params, Storage, Waveform,
};
use faderpunk::panel::{Act, Brightness, Color, LatchLayer, Led, MidiOut, Range};

fn params(range: Range) -> Params {
    Params {
        speed_mult: 1,
        range,
        midi_out: MidiOut { usb: true, out1: false, out2: false },
        midi_channel: 1,
        midi_cc: 32,
        nrpn: false,
        phase_lock: true,
    }
}

fn app(range: Range) -> Lfo {
    Lfo::new(params(range), Storage::default()).0
}

#[test]
fn lfo_tables() {
    assert_eq!(get_color_for(Waveform::Sine), Color::Yellow);
    assert_eq!(get_color_for(Waveform::SawInv), Color::Red);
    assert_eq!((speed_divisor(0), speed_divisor(3), speed_divisor(99)), (1, 8, 1 << 31));
    assert_eq!((division_for(0), division_for(2000), division_for(4095)), (384, 24, 6));
    let shapes =
        [Waveform::Sine, Waveform::Triangle, Waveform::Saw, Waveform::SawInv, Waveform::Square];
    for (i, a) in shapes.iter().enumerate() {
        for b in &shapes[..i] {
            assert_ne!(get_color_for(*a), get_color_for(*b));
        }
    }
}

#[test]
fn lfo_starts_lit() {
    let (s, acts) = Lfo::new(params(Range::V0To10), Storage::default());
    assert_eq!(
        acts,
        vec![Act::Light {
            chan: 0,
            led: Led::Button,
            color: Color::Yellow,
            bright: Brightness::Mid
        }]
    );
    assert_eq!((s.speed_mult, s.div, s.frames_per_tick), (2, 24, 20));
    let muted = Storage { muted: true, ..Storage::default() };
    assert_eq!(Lfo::new(params(Range::V0To10), muted).1, vec![]);
}

#[test]
fn frames_between_ticks_are_counted() {
    let mut a = app(Range::V0To10);
    a.begin_frame(false);
    a.begin_frame(true);
    assert_eq!((a.frames, a.layer), (2, LatchLayer::Alt));
    a.on_tick(1);
    a.begin_frame(false);
    assert_eq!((a.frames, a.frames_per_tick, a.ticked), (0, 3, false));
}

#[test]
fn muted_oscillator_rests() {
    let mut a = app(Range::V0To10);
    assert_eq!(a.effective_value(1234), 1234);
    a.store.muted = true;
    assert_eq!(a.effective_value(1234), 0);
    let mut b = app(Range::VNeg5To5);
    b.store.muted = true;
    assert_eq!(b.effective_value(1234), 2047);
}

#[test]
fn midi_and_leds_are_paced() {
    let mut a = app(Range::V0To10);
    for frame in 1..=10 {
        let acts = a.end_frame(1600, 0, 50);
        assert_eq!(acts[0], Act::Cv { jack: 0, val: 1600 });
        let cc = acts.contains(&Act::Cc { out: 0, cc: 32, val: 1600 });
        assert_eq!(cc, frame == 10);
        let lit = acts.iter().any(|x| matches!(x, Act::Light { .. }));
        assert_eq!(lit, frame % 4 == 0);
    }
    // An unchanged value is not sent again.
    for _ in 0..10 {
        let acts = a.end_frame(1600, 0, 50);
        assert!(!acts.iter().any(|x| matches!(x, Act::Cc { .. })));
    }
}

#[test]
fn locked_phase_repeats() {
    let mut a = app(Range::V0To10);
    assert_eq!(a.on_tick(50), None);
    a.store.clocked = true;
    assert_eq!(a.on_tick(50), Some((2, 48)));
    assert_eq!(a.on_tick(98), Some((2, 48)));
    assert!(a.on_press(true, 99));
    assert_eq!(a.on_tick(99), Some((0, 48)));
    a.on_reset();
    assert_eq!(a.on_tick(99), Some((3, 48)));
    // The counter wraps around.
    a.on_press(true, u64::MAX);
    assert_eq!(a.on_tick(4), Some((5, 48)));
}

#[test]
fn lfo_buttons() {
    let mut a = app(Range::V0To10);
    assert!(!a.on_press(false, 5));
    assert_eq!(
        a.on_release(Waveform::Triangle),
        vec![
            Act::Save,
            Act::Light { chan: 0, led: Led::Button, color: Color::Pink, bright: Brightness::Mid }
        ]
    );
    assert_eq!(a.store.wave, Waveform::Triangle);
    assert_eq!(
        a.on_long_press(true),
        vec![
            Act::Save,
            Act::Flash { chan: 0, led: Led::Button, color: Color::Yellow, times: 4 }
        ]
    );
    assert!(a.store.clocked);
    assert_eq!(a.on_long_press(true), vec![Act::Save]);
    assert_eq!(
        a.on_long_press(false),
        vec![Act::Save, Act::Dark { chan: 0, led: Led::Button }]
    );
    assert!(a.store.muted);
    assert_eq!(a.on_release(Waveform::Saw), vec![]);
    assert_eq!(a.store.wave, Waveform::Triangle);
}

#[test]
fn lfo_faders_and_scene() {
    let mut a = app(Range::V0To10);
    a.on_press(true, 7);
    assert_eq!(a.fader_target(), 2000);
    a.on_fader(2100);
    assert_eq!((a.div, a.phase_origin), (24, 7));
    a.on_fader(4095);
    assert_eq!((a.div, a.phase_origin), (6, 0));
    a.layer = LatchLayer::Alt;
    a.on_fader(9);
    assert_eq!((a.store.layer_attenuation, a.store.layer_speed), (9, 4095));
    a.layer = LatchLayer::Third;
    assert_eq!(a.on_fader(1), vec![]);
    let act = a.on_scene(Storage { wave: Waveform::Square, ..Storage::default() });
    assert_eq!(
        act,
        Act::Light { chan: 0, led: Led::Button, color: Color::White, bright: Brightness::Mid }
    );
    assert_eq!(a.div, 24);
}
