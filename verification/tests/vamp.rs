//! The chord performer.

use faderpunk::apps::vamp::{
    build_chord, build_clip_from_ring, genre_color, genre_fader_center, load_classic_into,
    note_to_pitch, pick_markov, pick_weighted, quantize_tick_nearest, scale_index_to_key,
    scale_offsets, seed_genre_into, velocity_12bit, GenrePreset, Key, Params, Press, Ring,
    SeedRolls, Storage, Vamp, Voices, DEST_MACRO, DEST_PANIC,
};
use faderpunk::panel::{Act, Color, MidiOut, Range, VoltPerOct};

const IONIAN: u16 = 0b1010_1101_0101;

const ROLLS: SeedRolls = SeedRolls {
    classic: 4095,
    tonic: 0,
    start: 0,
    steps: [0; 8],
    phrase: [4095; 2],
    ending: 4095,
    lead: 0,
};

fn params(cv_dest: usize) -> Params {
    Params {
        midi_out: MidiOut { usb: true, out1: false, out2: false },
        midi_channel: 1,
        root: 60,
        scale: 0,
        genre: 3,
        voicing: 0,
        velocity: 100,
        auto_style: 0,
        start_mode: 0,
        capture_len: 4,
        color: Color::Violet,
        cv_jack: 0,
        range: Range::V0To10,
        vpo: VoltPerOct::Standard,
        cv_dest,
        cv_att: 100,
    }
}

fn app() -> Vamp {
    Vamp::new(params(DEST_MACRO), Storage::default(), IONIAN, 24, 0)
}

#[test]
fn chords() {
    let notes = |root: u8, degree: u8, voicing: usize| build_chord(root, IONIAN, degree, voicing).to_vec();
    assert_eq!(notes(60, 0, 0), [60, 64, 67]);
    assert_eq!(notes(60, 0, 1), [60, 64, 67, 71]);
    assert_eq!(notes(60, 0, 2), [60, 64, 67, 71, 74]);
    assert_eq!(notes(60, 0, 3), [60, 76, 91]);
    assert_eq!(notes(60, 4, 0), [67, 71, 74]);
    assert_eq!(notes(60, 9, 0), [64, 67, 71]);
    assert_eq!(notes(120, 0, 0), [120, 124, 127]);
    assert_eq!(&scale_offsets(IONIAN)[..], &[0, 2, 4, 5, 7, 9, 11]);
}

#[test]
fn pitches_velocities_and_keys() {
    assert_eq!(note_to_pitch(60), (4, 0));
    assert_eq!(note_to_pitch(0), (-1, 0));
    assert_eq!(note_to_pitch(200), (9, 7));
    assert_eq!((velocity_12bit(100), velocity_12bit(-5), velocity_12bit(999)), (3224, 32, 4095));
    assert_eq!(scale_index_to_key(0), Key::Ionian);
    assert_eq!(scale_index_to_key(5), Key::Aeolian);
    assert_eq!(scale_index_to_key(42), Key::Ionian);
}

#[test]
fn weighted_picks() {
    let w = [0, 0, 5, 0, 0, 0, 5];
    assert_eq!(pick_weighted(&w, 0), Some(2));
    assert_eq!(pick_weighted(&w, 2048), Some(6));
    assert_eq!(pick_weighted(&[0; 7], 9), None);
    assert_eq!(pick_markov(3, &[[0; 7]; 7], 9), 3);
    assert_eq!(pick_markov(3, &[w; 7], 0), 2);
}

#[test]
fn classic_loops() {
    let mut slots = [9; 32];
    assert_eq!(load_classic_into(&mut slots, 0), 8);
    assert_eq!(slots[..9], [0, 3, 0, 4, 0, 3, 0, 4, 0]);
    load_classic_into(&mut slots, 99);
    assert_eq!(slots[..8], [0, 0, 5, 6, 0, 0, 5, 6]);
    assert_eq!(GenrePreset::get(99).progression, GenrePreset::get(7).progression);
    assert_ne!(genre_color(0), genre_color(1));
}

#[test]
fn seeds_walk_the_table() {
    let mut slots = [9; 32];
    assert_eq!(seed_genre_into(&mut slots, 0, &ROLLS), 8);
    assert_eq!(slots, [0; 32]);
    let far = SeedRolls { steps: [4095; 8], ..ROLLS };
    seed_genre_into(&mut slots, 0, &far);
    assert_eq!(slots[..8], [0, 6, 6, 6, 6, 6, 6, 6]);
    let phrased = SeedRolls { phrase: [0; 2], ..far };
    seed_genre_into(&mut slots, 0, &phrased);
    assert_eq!(slots[..8], [0, 6, 6, 6, 0, 6, 6, 6]);
    let led = SeedRolls { ending: 0, ..far };
    seed_genre_into(&mut slots, 0, &led);
    assert_eq!(slots[7], 4);
    let classic = SeedRolls { classic: 819, ..far };
    seed_genre_into(&mut slots, 0, &classic);
    assert_eq!(slots[..4], [0, 3, 0, 4]);
}

#[test]
fn genre_buckets_and_grid() {
    assert_eq!((genre_fader_center(0, 8), genre_fader_center(7, 8)), (255, 3839));
    assert_eq!(genre_fader_center(50, 8), 3839);
    assert_eq!(genre_fader_center(3, 0), 2047);
    assert_eq!((quantize_tick_nearest(8, 6), quantize_tick_nearest(9, 6)), (6, 12));
    assert_eq!((quantize_tick_nearest(7, 1), quantize_tick_nearest(7, 0)), (7, 7));
}

#[test]
fn clips_come_from_the_ring() {
    let mut r = Ring::new();
    assert_eq!(build_clip_from_ring(1, 150, &r).0, 0);
    r.push_on(5, 10);
    r.close(20);
    r.push_on(2, 100);
    r.close(130);
    r.push_on(3, 140);
    let (n, deg, on, dur) = build_clip_from_ring(1, 150, &r);
    assert_eq!(n, 2);
    assert_eq!((deg[0], on[0], dur[0]), (2, 48, 30));
    assert_eq!((deg[1], on[1], dur[1]), (3, 84, 10));
    let mut late = Ring::new();
    late.push_on(4, 149);
    let (n, _, on, dur) = build_clip_from_ring(1, 150, &late);
    assert_eq!((n, on[0], dur[0]), (1, 90, 1));
}

#[test]
fn full_ring_forgets_the_oldest() {
    let mut r = Ring::new();
    for i in 0..65 {
        r.push_on((i % 7) as u8, 100 + i);
        r.close(101 + i);
    }
    assert_eq!((r.len, r.write), (64, 1));
    let (n, deg, ..) = build_clip_from_ring(16, 300, &r);
    assert_eq!((n, deg[0]), (32, 1));
}

#[test]
fn perform_and_capture() {
    let mut a = app();
    let mut v = Voices::new(0);
    assert_eq!(a.slots_in_use(), 8);
    assert_eq!(a.on_down(false, 1), Press::Chord);
    assert_eq!((a.slot_idx, a.degree), (1, 6));
    assert_eq!(
        a.on_voices(&mut v, 100),
        vec![
            Act::NoteOn { out: 0, note: 71, vel: 3224 },
            Act::NoteOn { out: 0, note: 74, vel: 3224 },
            Act::NoteOn { out: 0, note: 77, vel: 3224 },
        ]
    );
    assert_eq!(a.cv_note(), 71);
    assert_eq!(a.on_voices(&mut v, 101), vec![]);
    a.on_perform_up();
    assert_eq!(a.on_voices(&mut v, 130)[0], Act::NoteOff { out: 0, note: 71 });
    assert!(v.sounding.is_empty());
    assert!(a.commit_capture(150));
    assert!(a.mode_auto && a.running && a.clip.armed);
    assert_eq!((a.clip.len, a.clip.deg[0], a.clip.on[0], a.clip.dur[0]), (1, 6, 48, 30));
    assert_eq!(a.genre_picks(), 9);
    // The clip starts with the next bar.
    a.on_voices(&mut v, 151);
    a.on_tick(192, 0, 0);
    assert!(!a.clip.armed);
    a.on_tick(240, 0, 0);
    assert!(a.pending.play);
    assert_eq!(a.pending.degree, 6);
}

#[test]
fn empty_ring_captures_nothing() {
    let mut a = app();
    a.on_down(true, 0);
    assert_eq!(a.on_shift_up(150), vec![]);
    assert!(!a.mode_auto);
    assert_eq!(a.capture_flash, 200);
}

#[test]
fn leaving_auto() {
    let mut a = app();
    a.mode_auto = true;
    a.on_down(true, 0);
    assert_eq!(a.on_shift_up(150), vec![Act::Save]);
    assert!(!a.mode_auto && a.pending.release);
    a.mode_auto = true;
    a.running = true;
    a.on_down(false, 0);
    assert_eq!(a.on_auto_up(), vec![Act::Save]);
    assert!(!a.running);
}

#[test]
fn presses_end_as_they_began() {
    let mut a = app();
    let press = a.on_down(false, 2);
    assert!(a.chord_held);
    assert_eq!(a.on_up(press, 10), vec![]);
    assert!(!a.chord_held);
    a.mode_auto = true;
    a.running = false;
    let press = a.on_down(false, 2);
    assert_eq!((press, a.chord_held), (Press::Auto, false));
    assert_eq!(a.on_up(press, 20), vec![Act::Save]);
    assert!(a.running);
    let press = a.on_down(true, 2);
    assert_eq!(press, Press::Shifted);
    a.long_press_fired = true;
    assert_eq!(a.on_up(press, 30), vec![]);
    assert!(a.mode_auto);
}

#[test]
fn panic_silences_everything() {
    let mut a = app();
    let mut v = Voices::new(0);
    a.on_down(false, 0);
    a.on_voices(&mut v, 100);
    a.mode_auto = true;
    assert_eq!(a.on_long_press(true, 0, &ROLLS), vec![]);
    assert!(a.panic);
    let acts = a.on_voices(&mut v, 101);
    assert_eq!(acts.len(), 5);
    assert_eq!(acts[3], Act::Cc { out: 0, cc: 120, val: 0 });
    assert_eq!(acts[4], Act::Cc { out: 0, cc: 123, val: 0 });
    assert!(v.sounding.is_empty() && !a.panic && !a.chord_held);
}

#[test]
fn cv_panics_or_scrubs() {
    let mut a = Vamp::new(params(DEST_PANIC), Storage::default(), IONIAN, 24, 0);
    a.on_cv(Some(2457), 0);
    assert!(!a.panic);
    a.on_cv(Some(2458), 0);
    assert!(a.panic);
    a.panic = false;
    a.on_cv(Some(4095), 0);
    assert!(!a.panic);
    let mut m = app();
    m.on_cv(Some(3000), 2);
    assert_eq!((m.slot_idx, m.degree, m.cv_val), (2, 5, 3000));
    assert_eq!(m.scrub_with(2147), 100);
    m.on_cv(None, 0);
    assert_eq!((m.cv_val, m.slot_idx), (2047, 2));
}

#[test]
fn vamp_faders() {
    let mut a = app();
    assert_eq!(a.on_fader_main(99, 3), vec![Act::Save]);
    assert_eq!((a.scrub, a.slot_idx, a.degree), (99, 3, 6));
    a.mode_auto = true;
    a.on_fader_main(77, 0);
    assert_eq!((a.tension, a.scrub), (77, 99));
    assert_eq!(a.on_fader_div(5, 48), vec![Act::Save]);
    assert_eq!((a.div, a.store.div_fader), (48, 5));
    let classic = SeedRolls { classic: 0, ..ROLLS };
    assert_eq!(a.on_fader_genre(0, 0, 0, &classic), vec![Act::Save]);
    assert_eq!((a.genre, a.slots[1], a.slots[3]), (0, 3, 4));
    assert_eq!(a.on_fader_genre(1, 0, 0, &classic), vec![]);
    a.on_scene(Storage::default(), 24);
    assert_eq!((a.div, a.slots[1]), (24, 6));
    assert!(!a.on_frame(false, false, 100, 0).is_empty());
    // The slot shows on the main layer alone.
    a.slot_idx = 20;
    assert!(!a.on_frame(true, false, 100, 0).is_empty());
    a.slot_idx = 0;
    assert!(a.fader_target() <= 4095);
}
