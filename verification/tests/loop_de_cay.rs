//! The decaying note looper.

use faderpunk::apps::loop_de_cay::{
    alloc_voice, apply_velocity_decay, bars_fader_color, bars_from_fader, blink_due,
    button_brightness, crossed, decay_fader_color, decay_mode_color, decay_mode_from_fader, fader_from_bars,
    fader_from_decay_mode, fader_semitones, gate_edge, mode_color, pitch_from_fader, pitch_steps,
    pull_pitch_to_root, quantize_16th, rand_below, resolve_pitch, Frame, GateEdge, LoopBuf,
    LoopDeCay, NoteEvent, Params, Press, Storage, Voice, DECAY_GATE, DECAY_PITCH_ROOT, DECAY_PITCH_UP,
    DECAY_RANDOM, DECAY_VEL, DECAY_VEL_ROOT,
};
use faderpunk::apps::scale::Scale;
use faderpunk::panel::{Act, Brightness, Color, LatchLayer, Led, MidiIn, MidiOut, Range, VoltPerOct};
use faderpunk::tasks::clock::ClockEvent;

const FREE: Scale = Scale { mask: 0xfff, tonic: 0, free: true };
const C_MAJOR: Scale = Scale { mask: 0b1010_1101_0101, tonic: 0, free: false };

fn app(mode: usize) -> LoopDeCay {
    let params = Params {
        mode,
        midi_channel: 1,
        midi_in: MidiIn { usb: true, din: true },
        midi_out: MidiOut { usb: true, out1: true, out2: true },
        midi_note: 60,
        span: 24,
        color: Color::Cyan,
        range: Range::V0To10,
        vpo: VoltPerOct::Standard,
        decay_mode: DECAY_VEL,
    };
    LoopDeCay::new(params, Storage::default(), 1)
}

fn note(start: u16, dur: u16, note: u8, vel: u16) -> NoteEvent {
    NoteEvent { start, dur, note, vel, gen: 0, used: true }
}

#[test]
fn loop_scales() {
    assert_eq!((bars_from_fader(0), bars_from_fader(2048), bars_from_fader(4095)), (1, 4, 8));
    for bars in 1..=8 {
        assert!(bars_from_fader(fader_from_bars(bars)) <= bars);
    }
    assert_eq!((fader_from_bars(1), fader_from_bars(8), fader_from_bars(99)), (0, 4095, 4095));
    for mode in 0..7 {
        assert_eq!(decay_mode_from_fader(fader_from_decay_mode(mode)), mode);
    }
    assert_eq!(decay_mode_from_fader(65535), 6);
    assert_eq!((pitch_steps(0), pitch_steps(2048), pitch_steps(4095)), (1, 2, 4));
    assert_eq!((quantize_16th(5), quantize_16th(6), quantize_16th(95)), (0, 6, 90));
    assert_eq!((fader_semitones(0, 24), fader_semitones(2048, 24), fader_semitones(4095, 24)), (-12, 0, 12));
    assert_eq!(pitch_from_fader(0, 5, 24), 0);
    assert_eq!(pitch_from_fader(4095, 60, 24), 72);
}

#[test]
fn pitch_comes_from_input_or_fader() {
    assert_eq!(resolve_pitch(None, 2048, 61, 24, C_MAJOR), 60);
    assert_eq!(resolve_pitch(None, 2048, 61, 24, FREE), 61);
}

#[test]
fn loop_colours() {
    assert_eq!((decay_mode_color(0), decay_mode_color(6), decay_mode_color(9)), (Color::Rose, Color::Violet, Color::Violet));
    assert_eq!((mode_color(0), mode_color(4), mode_color(9)), (Color::Cyan, Color::Pink, Color::Pink));
    assert_eq!(decay_fader_color(4095), Color::Custom(255, 0, 0));
    assert_eq!(bars_fader_color(1), Color::Custom(255, 170, 0));
    assert_eq!(bars_fader_color(8), Color::Custom(0, 255, 255));
}

#[test]
fn zero_seed_is_replaced() {
    let mut s = 0;
    let v = rand_below(&mut s, 1000);
    assert_ne!(s, 0);
    assert!(v < 1000);
    let mut t = 1;
    assert_eq!(rand_below(&mut t, 100), 69);
    assert_eq!(rand_below(&mut t, 0), 0);
    assert_eq!(t, 270_369);
}

#[test]
fn recorded_notes_take_unique_slots() {
    let mut b = LoopBuf::new();
    assert_eq!(b.play_pos(5, 1), None);
    b.ensure_origin(100);
    b.ensure_origin(500);
    assert_eq!(b.origin, 96);
    b.add_or_refresh(7, 10, 60, 1000, 96);
    b.add_or_refresh(8, 12, 60, 2000, 96);
    assert_eq!(b.events.iter().filter(|e| e.used).count(), 1);
    assert_eq!((b.events[0].start, b.events[0].dur, b.events[0].vel), (7, 12, 2000));
    b.add_or_refresh(12, 0, 60, 1, 96);
    assert_eq!((b.events[1].start, b.events[1].dur), (12, 1));
    assert_eq!(b.extent, 96);
    assert_eq!(b.play_pos(96 + 200, 1), Some(8));
    assert_eq!(b.play_pos(0, 1), Some(0));
    b.clear();
    assert!(b.events.iter().all(|e| !e.used));
}

#[test]
fn oldest_note_makes_room() {
    let mut b = LoopBuf::new();
    for n in 0..33 {
        b.add_or_refresh(0, 6, n, 1000, 96);
    }
    assert_eq!(b.events[0].note, 32);
    assert_eq!(b.events[1].note, 1);
}

#[test]
fn held_notes_close_around_the_loop() {
    let mut b = LoopBuf::new();
    b.add_or_refresh(90, u16::MAX, 60, 1000, 96);
    assert!(b.can_close(60, 6, 96));
    b.finalize_open(60, 6, 96);
    assert_eq!(b.events[0].dur, 12);
    b.add_or_refresh(90, u16::MAX, 61, 1000, 768);
    b.add_or_refresh(700, u16::MAX, 62, 1000, 768);
    assert!(!b.can_close(62, 6, 96));
    b.finalize_open(61, 90, 768);
    assert_eq!(b.events[1].dur, 1);
}

#[test]
fn window_lengths() {
    assert_eq!((LoopBuf::window_ticks(0), LoopBuf::window_ticks(2), LoopBuf::window_ticks(200)), (96, 192, 768));
}

#[test]
fn velocity_decays_and_dies() {
    let mut e = note(0, 6, 60, 2000);
    apply_velocity_decay(&mut e, 2457);
    assert_eq!((e.vel, e.used), (1200, true));
    let mut soft = note(0, 6, 60, 100);
    apply_velocity_decay(&mut soft, 2457);
    assert_eq!((soft.vel, soft.used), (0, false));
}

#[test]
fn pitch_falls_to_the_root() {
    let mut e = note(0, 6, 72, 2000);
    pull_pitch_to_root(&mut e, 60, 2048, FREE);
    assert_eq!(e.note, 66);
    let mut f = note(0, 6, 61, 2000);
    pull_pitch_to_root(&mut f, 60, 1, FREE);
    assert_eq!(f.note, 60);
    let mut g = note(0, 6, 50, 2000);
    pull_pitch_to_root(&mut g, 60, 4095, FREE);
    assert_eq!(g.note, 60);
}

#[test]
fn one_pass_of_each_decay() {
    let pass = |mode: usize, decay: u16| -> LoopBuf {
        let mut b = LoopBuf::new();
        b.add_or_refresh(0, 60, 72, 4000, 96);
        let mut rng = 1;
        b.decay_all(decay, mode, 60, C_MAJOR, &mut rng);
        b
    };
    assert_eq!(pass(DECAY_VEL, 0).events[0].vel, 4000);
    assert_eq!(pass(DECAY_VEL, 4095).events[0].vel, 2400);
    assert_eq!(pass(DECAY_PITCH_ROOT, 4095).events[0].note, 65);
    assert_eq!(pass(DECAY_PITCH_UP, 4095).events[0].note, 79);
    assert_eq!(pass(DECAY_GATE, 4095).events[0].dur, 36);
    let both = pass(DECAY_VEL_ROOT, 4095);
    assert_eq!((both.events[0].vel, both.events[0].note), (2400, 65));
    let random = pass(DECAY_RANDOM, 4095).events[0];
    assert!(random.vel <= 4000 && random.vel >= 2400);
}

#[test]
fn last_note_ends_the_loop() {
    let mut b = LoopBuf::new();
    b.ensure_origin(0);
    b.add_or_refresh(0, 60, 72, 100, 96);
    let mut rng = 1;
    b.decay_all(4095, DECAY_VEL, 60, FREE, &mut rng);
    assert_eq!((b.extent, b.origin), (0, u64::MAX));
}

#[test]
fn longer_loops_repeat() {
    let mut b = LoopBuf::new();
    b.add_or_refresh(12, 6, 60, 1000, 96);
    b.set_window_bars(1, 3);
    let starts: Vec<u16> = b.events.iter().filter(|e| e.used).map(|e| e.start).collect();
    assert_eq!(starts, [12, 108, 204]);
    assert_eq!(b.extent, 288);
    // Back and forth again reveals what is there.
    let before = b;
    b.set_window_bars(3, 1);
    b.set_window_bars(1, 2);
    assert_eq!(b, before);
}

#[test]
fn positions_are_crossed_once() {
    assert!(crossed(None, 5, 5));
    assert!(!crossed(None, 5, 4));
    assert!(crossed(Some(3), 5, 4));
    assert!(!crossed(Some(4), 5, 4));
    assert!(crossed(Some(94), 2, 95));
    assert!(crossed(Some(94), 2, 0));
    assert!(!crossed(Some(94), 2, 50));
    // Two advances round the end pass what one over both passes, each once.
    for target in 0..96 {
        let (first, second) = (crossed(Some(80), 95, target), crossed(Some(95), 10, target));
        assert_eq!(first || second, crossed(Some(80), 10, target));
        assert!(!(first && second));
    }
}

#[test]
fn voices_are_stolen_in_age() {
    let mut vs = [Voice { note: 0, end: 0, gen: 0 }; 4];
    for n in 1..=4u8 {
        let e = NoteEvent { gen: u32::from(n), ..note(90, 12, n, 100) };
        assert_eq!(alloc_voice(&mut vs, e, 96), vec![Act::NoteOn { out: 0, note: n, vel: 100 }]);
    }
    assert_eq!(vs[0].end, 6);
    let e = NoteEvent { gen: 9, ..note(0, 12, 9, 100) };
    assert_eq!(
        alloc_voice(&mut vs, e, 96),
        vec![Act::NoteOff { out: 0, note: 1 }, Act::NoteOn { out: 0, note: 9, vel: 100 }]
    );
    assert_eq!(alloc_voice(&mut vs, e, 96)[0], Act::NoteOff { out: 0, note: 9 });
}

#[test]
fn record_and_play_back() {
    let mut a = app(2);
    assert_eq!(
        a.on_midi_note_on(60, 100, FREE, 100),
        vec![Act::NoteOn { out: 0, note: 60, vel: 3224 }]
    );
    assert_eq!((a.live_note, a.rec_open, a.buf.origin, a.flash_until), (Some(60), true, 96, 102));
    assert!(a.can_end(60, 110));
    assert_eq!(a.on_midi_note_off(60, FREE, 110), vec![Act::NoteOff { out: 0, note: 60 }]);
    assert_eq!((a.buf.events[0].start, a.buf.events[0].dur), (0, 12));
    assert_eq!(a.on_tick(191, FREE), vec![]);
    assert_eq!(a.on_tick(192, FREE), vec![Act::NoteOn { out: 0, note: 60, vel: 3224 }]);
    assert_eq!(a.on_tick(203, FREE), vec![]);
    assert_eq!(a.on_tick(204, FREE), vec![Act::NoteOff { out: 0, note: 60 }]);
    // With decay each new pass is softer.
    a.store.decay_saved = 4095;
    a.on_tick(287, FREE);
    assert_eq!(a.on_tick(288, FREE), vec![Act::NoteOn { out: 0, note: 60, vel: 1934 }]);
}

#[test]
fn transport_realigns_the_loop() {
    let mut a = app(2);
    a.on_midi_note_on(60, 100, FREE, 100);
    assert_eq!(a.on_transport(ClockEvent::Start, 500), vec![]);
    assert_eq!(a.buf.origin, 500);
    assert_eq!(a.on_transport(ClockEvent::Stop, 600), vec![Act::NoteOff { out: 0, note: 60 }]);
    assert_eq!((a.buf.origin, a.live_note), (500, None));
    a.on_transport(ClockEvent::Reset, 700);
    assert_eq!(a.buf.origin, 700);
}

#[test]
fn loop_buttons() {
    let mut a = app(2);
    a.on_press(1000);
    assert_eq!(a.on_shift_short(), vec![Act::Save]);
    assert_eq!((a.bars, a.bars_flash), (2, true));
    a.bars = 8;
    a.on_shift_short();
    assert_eq!(a.bars, 1);
    a.on_midi_note_on(60, 100, FREE, 100);
    assert_eq!(a.on_shift_long(), vec![Act::Save, Act::NoteOff { out: 0, note: 60 }]);
    assert!(a.store.muted);
    assert!(a.buf.events[0].used);
    a.on_shift_long();
    assert!(!a.buf.events[0].used && a.erase_flash);
    a.on_press(1000);
    assert_eq!(a.on_muted_short(), vec![Act::Save]);
    assert!(!a.store.muted && a.store.armed);
    a.on_press(1000);
    a.on_fader(1049, true, None);
    assert_eq!(a.on_long(), vec![]);
    a.on_press(1000);
    assert_eq!(a.on_long(), vec![Act::Save]);
    assert!(a.store.muted);
}

#[test]
fn loop_faders() {
    let mut a = app(2);
    assert_eq!(a.fader_target(), 2048);
    assert_eq!(a.on_fader(7, false, Some(7))[0], Act::Save);
    assert_eq!(a.store.main_saved, 7);
    a.layer = LatchLayer::Alt;
    a.on_fader(8, false, Some(8));
    assert_eq!(a.store.decay_saved, 8);
    a.layer = LatchLayer::Third;
    assert_eq!(a.on_fader(0, false, Some(0))[0], Act::Save);
    assert_eq!(a.decay_mode, DECAY_RANDOM);
    assert_ne!(a.on_fader(1, false, Some(1))[0], Act::Save);
}

#[test]
fn held_note_glides() {
    let mut a = app(4);
    let acts = a.on_gate_press(60, 0);
    assert_eq!(acts[0], Act::NoteOn { out: 0, note: 60, vel: 4095 });
    assert_eq!(acts[1], Act::Pitch { jack: 0, counts: 1934 });
    assert_eq!(a.on_hold(64, C_MAJOR, 6), vec![]);
    a.fader_moved = true;
    let acts = a.on_hold(64, C_MAJOR, 6);
    assert_eq!(acts[0], Act::NoteOff { out: 0, note: 60 });
    assert_eq!(acts[1], Act::NoteOn { out: 0, note: 62, vel: 4095 });
    assert!(a.glide_frames_left > 0);
    assert_eq!(a.on_hold(64, C_MAJOR, 7), vec![]);
}

#[test]
fn gate_edges() {
    assert_eq!(gate_edge(false, 0, 407), GateEdge::Rise);
    assert_eq!(gate_edge(false, 407, 0), GateEdge::Fall);
    assert_eq!(gate_edge(false, 407, 408), GateEdge::Steady);
}

#[test]
fn loop_frames() {
    let mut a = app(2);
    let mut f = Frame { blink_on: false, erase_hold_ms: 0, bars_hold_ms: 0 };
    assert!(!a.on_frame(&mut f, false, false, true, 0, 100).is_empty());
    assert!(f.blink_on);
    assert_ne!(button_brightness(true, true), button_brightness(true, false));
    assert_eq!(button_brightness(false, true), Brightness::Low);
    a.on_scene(Storage { bars_saved: 4095, ..Storage::default() });
    assert_eq!(a.bars, 8);
}

#[test]
fn presses_are_told_apart() {
    let mut a = app(2);
    assert_eq!(a.press_for(true), Press::Shifted(0));
    assert_eq!(a.press_for(false), Press::Plain(0));
    a.store.muted = true;
    assert_eq!(a.press_for(false), Press::Muted(0));
    assert_eq!(app(0).press_for(false), Press::Note);
    assert_eq!(app(4).press_for(false), Press::Note);
}

#[test]
fn presses_grow_long() {
    let mut a = app(2);
    let mut press = a.press_for(false);
    for ms in 1..500 {
        let (next, acts) = a.on_held(press);
        assert_eq!((next, acts), (Press::Plain(ms), vec![]));
        press = next;
    }
    let (press, acts) = a.on_held(press);
    assert_eq!((press, acts), (Press::Spent, vec![Act::Save]));
    assert!(a.store.muted);
    assert_eq!(a.on_held(press), (Press::Spent, vec![]));
    assert_eq!(a.on_release(press, 0), vec![]);
    // A long press while muted does nothing, a short one unmutes.
    assert_eq!(a.on_held(Press::Muted(499)), (Press::Spent, vec![]));
    assert!(a.store.muted);
    assert_eq!(a.on_release(Press::Muted(10), 0), vec![Act::Save]);
    assert!(!a.store.muted);
    // With shift a short press cycles the bars, a long one mutes.
    assert_eq!(a.on_release(Press::Shifted(10), 0), vec![Act::Save]);
    assert_eq!(a.bars, 2);
    assert_eq!(a.on_held(Press::Shifted(499)).0, Press::Spent);
    assert!(a.store.muted);
}

#[test]
fn a_note_ends_with_its_press() {
    let mut a = app(4);
    a.on_gate_press(60, 0);
    assert_eq!(a.on_held(Press::Note), (Press::Note, vec![]));
    let acts = a.on_release(Press::Note, 24);
    assert_eq!(acts[0], Act::NoteOff { out: 0, note: 60 });
    assert_eq!(a.live_note, None);
}

#[test]
fn first_lights() {
    let mut a = app(2);
    a.store.armed = true;
    assert_eq!(
        a.first_acts(),
        vec![Act::Light {
            chan: 0,
            led: Led::Button,
            color: mode_color(2),
            bright: Brightness::High
        }]
    );
    a.store.muted = true;
    assert_eq!(
        a.first_acts(),
        vec![Act::Light {
            chan: 0,
            led: Led::Button,
            color: Color::Red,
            bright: Brightness::Low
        }]
    );
    assert_eq!(app(3).first_acts()[1], Act::Cv { jack: 0, val: 0 });
}

#[test]
fn armed_button_blinks() {
    let mut last = 1_000;
    assert!(!blink_due(&mut last, 400_999));
    assert_eq!(last, 1_000);
    assert!(blink_due(&mut last, 401_000));
    assert_eq!(last, 401_000);
}
