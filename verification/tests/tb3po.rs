//! The acid pattern generator.

use faderpunk::apps::tb3po::{
    density_from_fader, generate_pattern, length_fader_to_num_steps, rand_below, rand_bit,
    raw_pitch_cv, step_is_accent, step_is_gated, step_is_oct_down, step_is_oct_up, step_is_slid,
    step_ticks, transpose_semitones, AcidPattern, Curved, Params, Pitch, Storage, Tb3po,
};
use faderpunk::panel::{Act, Brightness, Color, LatchLayer, Led, MidiOut};

const MID: Curved = Curved { length: 2048, transpose: 2048, octave: 2048 };
const PITCH: Pitch = Pitch { note: 50, counts: 2222 };

fn params() -> Params {
    Params::with_defaults(1, MidiOut { usb: true, out1: false, out2: false })
}

fn app() -> Tb3po {
    Tb3po::new(params(), Storage::default(), 0).0
}

fn bits(of: impl Fn(u8) -> bool) -> u32 {
    (0..32).map(|s| (of(s) as u32) << s).sum()
}

/// A pattern that plays every step plainly.
fn plain() -> AcidPattern {
    AcidPattern { gates: [true; 32], ..AcidPattern::default() }
}

#[test]
fn patterns_of_known_seeds() {
    let p = generate_pattern(1234, 10);
    assert_eq!(
        p.notes,
        [
            6, 5, 5, 0, 0, 7, 6, 1, 4, 4, 0, 2, 2, 4, 0, 6, 5, 4, 3, 6, 5, 4, 7, 6, 0, 4, 3, 5, 5,
            4, 0, 1
        ]
    );
    assert_eq!(bits(|s| step_is_oct_up(&p, s)), 0x1601_3b40);
    assert_eq!(bits(|s| step_is_oct_down(&p, s)), 0x0054_0013);
    assert_eq!(bits(|s| step_is_gated(&p, s)), 0xcd93_39be);
    assert_eq!(bits(|s| step_is_slid(&p, s)), 0x0b00_0800);
    assert_eq!(bits(|s| step_is_accent(&p, s)), 0x0150_0000);
    let q = generate_pattern(7, 3);
    assert_eq!(q.notes[..8], [0, 1, 1, 1, 1, 0, 0, 2]);
    assert_eq!(bits(|s| step_is_gated(&q, s)), 0xd6ff_f953);
    assert_eq!(bits(|s| step_is_accent(&q, s)), 0x48a1_4808);
}

#[test]
fn extreme_densities_are_full() {
    for seed in [0, 1, 999, 65535] {
        let low = generate_pattern(seed, 0);
        assert_eq!(bits(|s| step_is_gated(&low, s)), u32::MAX);
        assert_eq!(low.notes, [0; 32]);
        let high = generate_pattern(seed, 14);
        assert_eq!(bits(|s| step_is_gated(&high, s)), u32::MAX);
        assert!(high.notes.iter().all(|&n| n <= 7));
    }
    let beyond = generate_pattern(65535, 200);
    assert_eq!(beyond.notes, generate_pattern(65535, 14).notes);
}

#[test]
fn rhythm_mirrors_at_the_middle_density() {
    for seed in [1, 999, 65535] {
        for density in 0..7 {
            let low = generate_pattern(seed, density);
            let high = generate_pattern(seed, 14 - density);
            assert_eq!(bits(|s| step_is_gated(&low, s)), bits(|s| step_is_gated(&high, s)));
        }
    }
}

#[test]
fn tb3po_dice() {
    let mut s = 1;
    assert_eq!(rand_below(&mut s, 100), 69);
    assert_eq!(s, 270_369);
    assert_eq!(rand_below(&mut s, 0), 0);
    assert_eq!(s, 270_369);
    let mut t = 1;
    assert!(!rand_bit(&mut t, 69));
    let mut u = 1;
    assert!(rand_bit(&mut u, 70));
}

#[test]
fn tb3po_scales() {
    assert_eq!((density_from_fader(0), density_from_fader(2048), density_from_fader(4095)), (0, 7, 14));
    assert_eq!((length_fader_to_num_steps(0), length_fader_to_num_steps(4095)), (1, 32));
    assert_eq!(length_fader_to_num_steps(2048), 16);
    assert_eq!(transpose_semitones(2048, 2048), 0);
    assert_eq!(transpose_semitones(0, 2048), -24);
    assert_eq!(transpose_semitones(4095, 2048), 24);
    assert_eq!(transpose_semitones(2048, 0), -48);
    assert_eq!(transpose_semitones(2048, 4095), 48);
    assert_eq!((step_ticks(0), step_ticks(2048), step_ticks(4095)), (96, 6, 2));
}

#[test]
fn raw_pitches() {
    let mut p = plain();
    p.notes[4] = 2;
    assert_eq!(raw_pitch_cv(&p, 4, 0, 410), 2048 + 68);
    assert_eq!(raw_pitch_cv(&p, 4, -12, 410), 2048 + 68 - 408);
    p.oct_downs[4] = true;
    assert_eq!(raw_pitch_cv(&p, 4, 0, 410), 2048 + 68 - 410);
    p.oct_ups[4] = true;
    assert_eq!(raw_pitch_cv(&p, 4, 0, 410), 2048 + 68 + 410);
    assert_eq!(raw_pitch_cv(&p, 4, 127, 410), 4095);
}

#[test]
fn gates_last_half_a_step() {
    let mut a = app();
    a.pattern = plain();
    assert_eq!(a.pitch_at(6, MID, 410), Some(2048));
    assert_eq!(a.pitch_at(7, MID, 410), None);
    assert_eq!(
        a.on_tick(6, MID, PITCH),
        vec![
            Act::NoteOff { out: 0, note: 0 },
            Act::NoteOn { out: 0, note: 50, vel: 2048 },
            Act::GateHigh { jack: 1 },
            Act::Cv { jack: 2, val: 0 },
        ]
    );
    assert_eq!(a.on_tick(7, MID, PITCH), vec![]);
    assert_eq!(a.on_tick(8, MID, PITCH), vec![]);
    assert_eq!(
        a.on_tick(9, MID, PITCH),
        vec![
            Act::GateLow { jack: 1 },
            Act::NoteOff { out: 0, note: 50 },
            Act::Cv { jack: 2, val: 0 },
        ]
    );
    assert!(!a.gate_active);
}

#[test]
fn slides_hold_the_gate() {
    let mut a = app();
    a.pattern = plain();
    a.pattern.slides[1] = true;
    a.pattern.accents[2] = true;
    a.on_tick(6, MID, PITCH);
    for t in 7..12 {
        assert_eq!(a.on_tick(t, MID, PITCH), vec![]);
    }
    assert!(!a.slide_active);
    let acts = a.on_tick(12, MID, PITCH);
    assert_eq!(acts[1], Act::NoteOn { out: 0, note: 50, vel: 4095 });
    assert!(a.slide_active && a.accent_active);
    a.on_slide_done();
    assert!(!a.slide_active);
    // A muted step ends what the slide left open.
    let mut m = app();
    m.pattern = a.pattern;
    m.on_tick(6, MID, PITCH);
    m.store.muted = true;
    assert_eq!(m.on_tick(12, MID, PITCH).len(), 3);
    assert_eq!(m.on_tick(18, MID, PITCH), vec![]);
}

#[test]
fn tb3po_buttons() {
    let mut a = app();
    a.on_tick(70_001, MID, PITCH);
    let acts = a.on_press(0);
    assert_eq!(
        acts[1],
        Act::FlashThenStatic {
            chan: 0,
            led: Led::Button,
            flash: Color::White,
            times: 1,
            color: Color::Orange,
            bright: Brightness::Mid
        }
    );
    assert_eq!(a.store.seed, 4465);
    assert_eq!(a.pattern.notes, generate_pattern(4465, 7).notes);
    a.on_press(1);
    a.on_press(2);
    assert!(a.store.no_accents && a.store.muted);
    a.on_press(2);
    assert!(!a.store.muted);
    assert_eq!(a.on_press(9), vec![]);
}

#[test]
fn density_waits_for_the_next_step() {
    let mut a = app();
    let before = a.pattern;
    assert_eq!(a.on_fader(0, LatchLayer::Main, 4095), vec![Act::Save]);
    a.on_tick(7, MID, PITCH);
    assert_eq!(a.pattern, before);
    a.on_tick(12, MID, PITCH);
    assert_eq!(a.pattern, generate_pattern(0xabcd, 14));
    assert!(!a.regen);
}

#[test]
fn tb3po_layers() {
    let mut a = app();
    assert_eq!(a.on_layer(true, false), vec![]);
    assert_eq!(a.fader_layer(0, false), LatchLayer::Third);
    assert_eq!(a.fader_target(0, LatchLayer::Third), 2048);
    a.on_fader(0, LatchLayer::Third, 0);
    assert_eq!(a.div, 96);
    assert_eq!(a.on_layer(false, false), vec![Act::Dark { chan: 0, led: Led::Bottom }]);
    assert_eq!(a.fader_layer(2, true), LatchLayer::Alt);
    a.on_fader(2, LatchLayer::Alt, 5);
    a.on_fader(2, LatchLayer::Main, 6);
    a.on_fader(1, LatchLayer::Main, 7);
    assert_eq!((a.store.octave_fader, a.store.transpose_fader, a.store.length_fader), (5, 6, 7));
}

#[test]
fn tb3po_stop_and_scene() {
    let mut a = app();
    a.pattern = plain();
    a.on_tick(6, MID, PITCH);
    assert_eq!(a.on_stop(true).len(), 3);
    assert_eq!((a.step, a.gate_off_ticks, a.gate_active), (0, 0, false));
    a.on_scene(Storage { res_saved: 4095, seed: 3, ..Storage::default() });
    assert_eq!((a.div, a.store.seed), (2, 3));
    assert!(!a.paint(MID).is_empty());
}
