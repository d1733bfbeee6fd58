//! What the four-channel apps share.

use faderpunk::apps::four_chan::{
    cc_for, channel_cc, channel_for, clocked_phase, midi_cc_limit, next_range, note_for,
    range_flash_hold_ms, range_flash_times, wave_bit, Freeze, Patch, RangeWait, TickWatch,
};
use faderpunk::panel::Range;

#[test]
fn zero_maps_follow_the_base_settings() {
    for wave in 0..4 {
        assert_eq!(channel_for(0, 7, wave), 7);
        assert_eq!(cc_for(0, 30, wave, false), 30 + wave as u16);
    }
    assert_eq!(channel_cc(126, 3, false), 127);
    assert_eq!(channel_cc(126, 3, true), 129);
    assert_eq!(channel_cc(65535, 3, true), 16383);
    assert_eq!((midi_cc_limit(false), midi_cc_limit(true)), (127, 16383));
}

#[test]
fn packed_maps_unpack() {
    let ch = 2 | (5 << 4) | (15 << 8) | (1 << 12);
    assert_eq!([0, 1, 2, 3].map(|w| channel_for(ch, 9, w)), [3, 6, 16, 2]);
    let cc = 10 | (127 << 7) | (64 << 14) | (1 << 21);
    assert_eq!([0, 1, 2, 3].map(|w| cc_for(cc, 9, w, false)), [10, 127, 64, 1]);
    assert_eq!([0, 1, 2, 3].map(|w| note_for(cc, 9, w)), [10, 127, 64, 1]);
    assert_eq!(note_for(0, 126, 3), 127);
    assert_eq!([0, 1, 2, 3].map(|w| wave_bit(0b1010, w)), [false, true, false, true]);
}

#[test]
fn ranges_alternate() {
    assert_eq!(next_range(Range::V0To10), Range::VNeg5To5);
    assert_eq!(next_range(Range::VNeg5To5), Range::V0To10);
    assert_eq!(next_range(Range::V0To5), Range::V0To10);
    assert_eq!((range_flash_times(Range::VNeg5To5), range_flash_times(Range::V0To10)), (1, 2));
    assert_eq!(range_flash_hold_ms(2), 580);
    assert_eq!(range_flash_hold_ms(400), 65535);
}

#[test]
fn movement_marks_a_patch() {
    let mut p = Patch::new(100);
    assert!(p.step(110, 8));
    assert!(!p.step(200, 8));
    let mut ms = 0;
    while !p.step(200, 8) {
        ms += 8;
    }
    assert_eq!(ms, 1192);
}

#[test]
fn clock_period_is_measured() {
    let mut w = TickWatch::new(5);
    for _ in 0..4 {
        w.step(5, 8);
    }
    w.step(6, 8);
    assert_eq!((w.period_ms, w.ms_since), (32, 0));
    // A clock that goes back leaves the period alone.
    w.step(6, 8);
    w.step(2, 8);
    assert_eq!((w.period_ms, w.last_tick), (32, 2));
}

#[test]
fn phases_of_the_clock() {
    assert_eq!(clocked_phase(u64::MAX, 24, 2), None);
    assert_eq!(clocked_phase(100, 24, 2), Some((4, 48)));
    assert_eq!(clocked_phase(100, 0, 2), Some((0, 1)));
}

#[test]
fn freeze_holds() {
    let mut f = Freeze::new();
    assert_eq!(f.step(false, 5), 5);
    assert_eq!(f.step(true, 6), 6);
    assert_eq!(f.step(true, 7), 6);
    assert_eq!(f.step(false, 8), 8);
    assert_eq!(f.step(true, 9), 9);
}

#[test]
fn announced_ranges_wait() {
    // The button goes up before the flash is over.
    let mut w = RangeWait::new(2, 3);
    w.on_up(1);
    assert!(!w.up);
    w.on_up(2);
    assert_eq!((w.on_ms(), w.on_ms(), w.on_ms()), (false, false, true));
    // The flash is over before the button goes up.
    let mut w = RangeWait::new(2, 1);
    assert_eq!((w.on_ms(), w.on_ms()), (false, false));
    w.on_up(2);
    assert!(w.on_ms());
}

#[test]
fn negative_maps_are_bit_patterns() {
    assert_eq!([0, 1, 2, 3].map(|w| channel_for(-1, 9, w)), [16; 4]);
    assert_eq!([0, 1, 2, 3].map(|w| cc_for(-2, 9, w, false)), [126, 127, 127, 127]);
    assert_eq!([0, 1, 2, 3].map(|w| wave_bit(-2, w)), [false, true, true, true]);
}
