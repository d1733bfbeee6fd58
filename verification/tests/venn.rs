//! Two rhythms and a melody.

use faderpunk::apps::scale::scale_degrees;
use faderpunk::apps::venn::{
    button_density_bright, complement_color, degree_semis, div_from_param, extent_from_fader,
    extent_meter_bright, hit_dip_bright, interval_from_fader, interval_meter_bright,
    len_meter_bright, length_from_fader, length_grad_color, melody_degree, midi_at_degree,
    midi_velocity, pulses_from_fader, rgb_lerp, scale_pcs, shortest_hue_lerp, Logic, Palette,
    Params, Shape, StepIn, Storage, Venn,
};
use faderpunk::panel::{Act, Brightness, Color, LatchLayer, Led, MidiOut};

const MAJOR: u16 = 0b1010_1101_0101;

const P: Palette = Palette {
    logic: (0, 255, 0),
    logic_to: (128, 0, 255),
    app: (0, 255, 255),
    app_to: (255, 0, 128),
};

fn params() -> Params {
    Params::with_defaults(1, MidiOut { usb: true, out1: false, out2: false })
}

fn app() -> Venn {
    Venn::new(params(), Storage::default(), 48, MAJOR, 55).0
}

fn hits(a: bool, b: bool) -> StepIn {
    StepIn {
        a,
        b,
        root: 48,
        mask: MAJOR,
        prob_roll_a: 0,
        prob_roll_b: 0,
        vel_roll_a: 0,
        vel_roll_b: 0,
    }
}

#[test]
fn logic_table() {
    for v in 0..4 {
        let l = Logic::from_u8(v);
        assert_eq!(l.index(), v);
        assert_eq!(l.next(), Logic::from_u8(v + 1));
    }
    assert_eq!(Logic::from_u8(7), Logic::Accnt);
    assert_eq!(Logic::Or.combine(true, false), (true, false));
    assert_eq!(Logic::And.combine(true, false), (false, false));
    assert_eq!(Logic::Xor.combine(true, true), (false, true));
    assert_eq!(Logic::Accnt.combine(true, true), (true, true));
    assert_eq!(Logic::Accnt.combine(false, true), (false, false));
    assert_eq!(Logic::Xor.color(), Color::Red);
}

#[test]
fn hue_takes_the_short_way() {
    assert_eq!(shortest_hue_lerp(350, 10, 128), 0);
    assert_eq!(shortest_hue_lerp(10, 350, 255), 350);
    assert_eq!(shortest_hue_lerp(0, 180, 255), 180);
    assert_eq!(shortest_hue_lerp(200, 20, 255), 20);
    assert_eq!(shortest_hue_lerp(77, 300, 0), 77);
}

#[test]
fn venn_colours() {
    assert_eq!(complement_color(Color::Cyan), Color::Pink);
    assert_eq!(complement_color(Color::Custom(1, 2, 3)), Color::Pink);
    assert_eq!(rgb_lerp((0, 100, 255), (255, 200, 0), 127), Color::Custom(127, 149, 128));
    assert_eq!(length_grad_color(2, false, (255, 0, 0), (0, 0, 255)), Color::Custom(255, 0, 0));
    assert_eq!(length_grad_color(32, false, (255, 0, 0), (0, 0, 255)), Color::Custom(0, 0, 255));
    assert_eq!(
        length_grad_color(32, true, (255, 255, 255), (9, 8, 7)),
        Color::Custom(9, 8, 7)
    );
}

#[test]
fn venn_scales() {
    assert_eq!((length_from_fader(0), length_from_fader(1840), length_from_fader(4095)), (2, 15, 32));
    assert_eq!((pulses_from_fader(0, 16), pulses_from_fader(2048, 16), pulses_from_fader(4095, 16)), (0, 8, 16));
    assert_eq!((extent_from_fader(2048), extent_from_fader(4095)), (12, 24));
    assert_eq!((interval_from_fader(2389), interval_from_fader(4095)), (7, 12));
    assert_eq!((extent_meter_bright(0), extent_meter_bright(24)), (40, 255));
    assert_eq!((interval_meter_bright(6), interval_meter_bright(12)), (147, 255));
    assert_eq!((len_meter_bright(2), len_meter_bright(32), len_meter_bright(0)), (40, 255, 40));
    assert_eq!((button_density_bright(0, 16), button_density_bright(16, 16)), (90, 255));
    assert_eq!(button_density_bright(4, 16), 130);
    assert!(hit_dip_bright(200) < 200);
    assert_eq!((div_from_param(8), div_from_param(99)), (6, 2));
}

#[test]
fn melody_is_an_arch_of_degrees() {
    let up: Vec<u8> = (0..8).map(|s| melody_degree(s, 8, 6)).collect();
    assert_eq!(up, [0, 2, 4, 6, 5, 3, 2, 0]);
    assert_eq!(melody_degree(3, 8, 0), 0);
    assert_eq!(melody_degree(3, 1, 6), 0);
    assert_eq!(melody_degree(11, 8, 6), 6);
}

#[test]
fn degrees_of_a_scale() {
    let pcs = scale_pcs(MAJOR);
    assert_eq!(&pcs[..], &scale_degrees(MAJOR)[..]);
    assert_eq!((degree_semis(&pcs, 0), degree_semis(&pcs, 4), degree_semis(&pcs, 8)), (0, 7, 14));
    assert_eq!(midi_at_degree(48, &pcs, 9), 64);
    assert_eq!(midi_at_degree(120, &pcs, 24), 127);
}

#[test]
fn velocity_without_humanising() {
    assert_eq!(midi_velocity(3000, 0, 1234), 3000);
}

#[test]
fn venn_starts_with_its_interval() {
    let (a, acts) = Venn::new(params(), Storage::default(), 48, MAJOR, 55);
    assert_eq!(a.shape, Shape { interval: 7, ..Shape::from_storage(&Storage::default()) });
    assert_eq!(
        acts,
        vec![
            Act::Light { chan: 0, led: Led::Button, color: Color::Green, bright: Brightness::Mid },
            Act::Light { chan: 1, led: Led::Button, color: Color::Cyan, bright: Brightness::Mid },
        ]
    );
}

#[test]
fn steps_play_both_voices() {
    let mut a = app();
    assert!(a.needs_key(0));
    let acts = a.on_tick(0, hits(true, true));
    let ons: Vec<u8> = acts
        .iter()
        .filter_map(|x| match x {
            Act::NoteOn { note, .. } => Some(*note),
            _ => None,
        })
        .collect();
    assert_eq!(ons, [48, 60]);
    assert!(acts.contains(&Act::GateHigh { jack: 0 }) && acts.contains(&Act::GateHigh { jack: 1 }));
    assert_eq!((a.hit_a, a.hit_b), (40, 40));
    assert!(!a.needs_key(1));
    assert_eq!(a.on_tick(1, hits(false, false)), vec![]);
    // Half a step later both gates close.
    let off = a.on_tick(3, hits(false, false));
    assert!(off.contains(&Act::NoteOff { out: 0, note: 48 }));
    assert!(off.contains(&Act::GateLow { jack: 1 }));
    assert!(!a.voices.on_a && !a.voices.on_b);
}

#[test]
fn inversion_and_mute() {
    let mut a = app();
    a.store.einv = true;
    let acts = a.on_tick(0, hits(true, true));
    assert!(!acts.iter().any(|x| matches!(x, Act::NoteOn { .. })));
    let acts = a.on_tick(6, hits(false, false));
    assert_eq!(acts.iter().filter(|x| matches!(x, Act::NoteOn { .. })).count(), 2);
    let mut m = app();
    m.store.muted = true;
    let acts = m.on_tick(0, hits(true, true));
    assert!(!acts.iter().any(|x| matches!(x, Act::NoteOn { .. })));
    assert_eq!((m.hit_a, m.hit_b), (40, 0));
    assert_eq!(m.on_stop().len(), 8);
}

#[test]
fn venn_buttons() {
    let mut a = app();
    assert_eq!(
        a.on_down(0, true, 0, 0),
        vec![
            Act::Save,
            Act::Flash { chan: 0, led: Led::Button, color: Color::Yellow, times: 2 }
        ]
    );
    assert_eq!((a.logic, a.store.logic, a.btn_flash), (Logic::And, 1, 550));
    assert_eq!(a.on_down(1, true, 0, 0), vec![Act::Save]);
    assert_eq!((a.store.einv, a.fade, a.fade_up), (true, 500, false));
    a.on_down(1, false, 100, 200);
    a.on_hold_fader(164, 264);
    let acts = a.on_up_1();
    assert_eq!(acts.len(), 6);
    assert_eq!(acts[5], Act::Dark { chan: 1, led: Led::Button });
    assert!(a.store.muted);
    a.on_down(1, false, 100, 200);
    a.on_hold_fader(100, 265);
    assert_eq!(a.on_up_1(), vec![]);
    assert!(a.store.muted);
    a.on_down(1, false, 100, 200);
    assert_eq!(
        a.on_up_1(),
        vec![
            Act::Save,
            Act::Light { chan: 1, led: Led::Button, color: Color::Cyan, bright: Brightness::Mid }
        ]
    );
}

#[test]
fn venn_layers() {
    let mut a = app();
    a.layer = LatchLayer::Third;
    assert_eq!(a.fader_target(0), 1840);
    a.on_fader(0, 4095);
    assert_eq!((a.shape.len_a, a.shape.pulses_a), (32, pulses_from_fader(1792, 32)));
    a.layer = LatchLayer::Main;
    a.on_fader(0, 4095);
    assert_eq!((a.shape.pulses_a, a.store.pulses_a, a.store.len_a), (32, 4095, 4095));
    a.layer = LatchLayer::Alt;
    a.on_fader(0, 4095);
    a.on_fader(1, 0);
    assert_eq!((a.shape.extent, a.shape.interval), (24, 0));
}

#[test]
fn venn_frames() {
    let mut a = app();
    assert_eq!(a.on_frame(false, false, false, P).len(), 2);
    let third = a.on_frame(false, true, false, P);
    assert_eq!(a.layer, LatchLayer::Third);
    assert_eq!(third.len(), 6);
    let alt = a.on_frame(true, false, false, P);
    assert_eq!(alt[0], Act::Dark { chan: 0, led: Led::Bottom });
    assert_eq!(alt.len(), 6);
    let main = a.on_frame(false, false, false, P);
    assert_eq!(main.len(), 6);
    a.fade = 1;
    a.fade_up = false;
    a.hit_a = 2;
    a.btn_flash = 1;
    let faded = a.on_frame(false, false, false, P);
    assert_eq!(
        faded,
        vec![
            Act::Light {
                chan: 1,
                led: Led::Button,
                color: Color::White,
                bright: Brightness::Custom(0)
            },
            Act::Light {
                chan: 1,
                led: Led::Button,
                color: Color::Cyan,
                bright: Brightness::Custom(button_density_bright(a.shape.pulses_b, a.shape.len_b))
            },
        ]
    );
    assert_eq!((a.fade, a.hit_a, a.btn_flash), (0, 1, 0));
}

#[test]
fn venn_scene() {
    let mut a = app();
    let acts = a.on_scene(Storage { logic: 2, muted: true, ..Storage::default() });
    assert_eq!(
        acts[0],
        Act::Light { chan: 0, led: Led::Button, color: Color::Red, bright: Brightness::Mid }
    );
    assert_eq!(acts[1], Act::Dark { chan: 1, led: Led::Button });
    assert_eq!((a.logic, a.shape.interval), (Logic::Xor, 7));
}
