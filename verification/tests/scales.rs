//! Notes in a scale, and the small generator.

use faderpunk::apps::rng::xorshift32;
use faderpunk::apps::scale::{
    next_scale_degree, pc_in_scale, scale_degrees, shift_degrees, snap_to_scale,
    snap_to_scale_toward, step_toward, Scale,
};

const C_MAJOR: Scale = Scale { mask: 0b1010_1101_0101, tonic: 0, free: false };
const D_MAJOR: Scale = Scale { mask: 0b1010_1101_0101, tonic: 2, free: false };
const FREE: Scale = Scale { mask: 0b1111_1111_1111, tonic: 0, free: true };

#[test]
fn pitch_classes() {
    assert!(pc_in_scale(0, C_MAJOR));
    assert!(!pc_in_scale(1, C_MAJOR));
    assert!(pc_in_scale(1, D_MAJOR));
    assert!(!pc_in_scale(0, D_MAJOR));
}

#[test]
fn snapping_prefers_the_lower_neighbour() {
    assert_eq!(snap_to_scale(61, C_MAJOR), 60);
    assert_eq!(snap_to_scale(60, C_MAJOR), 60);
    assert_eq!(snap_to_scale(61, FREE), 61);
    assert_eq!(snap_to_scale_toward(61, C_MAJOR, Some(70)), 62);
    assert_eq!(snap_to_scale_toward(61, C_MAJOR, Some(50)), 60);
}

#[test]
fn snapped_notes_stay() {
    for note in 0..=127 {
        let s = snap_to_scale(note, D_MAJOR);
        assert!(pc_in_scale(s % 12, D_MAJOR));
        assert_eq!(snap_to_scale(s, D_MAJOR), s);
    }
}

#[test]
fn degrees_up_and_down() {
    assert_eq!(next_scale_degree(60, true, C_MAJOR), 62);
    assert_eq!(next_scale_degree(64, true, C_MAJOR), 65);
    assert_eq!(next_scale_degree(60, false, C_MAJOR), 59);
    assert_eq!(next_scale_degree(127, true, C_MAJOR), 127);
    assert_eq!(next_scale_degree(0, false, C_MAJOR), 0);
    assert_eq!(next_scale_degree(127, true, FREE), 127);
    assert_eq!(next_scale_degree(0, false, FREE), 0);
    assert_eq!(shift_degrees(60, 3, true, C_MAJOR), 65);
    assert_eq!(shift_degrees(60, 1000, true, C_MAJOR), 127);
}

#[test]
fn steps_do_not_overshoot() {
    assert_eq!(step_toward(60, 61, C_MAJOR), 61);
    assert_eq!(step_toward(60, 64, C_MAJOR), 62);
    assert_eq!(step_toward(60, 50, C_MAJOR), 59);
    assert_eq!(step_toward(60, 60, C_MAJOR), 60);
    let mut cur = 40;
    for _ in 0..40 {
        let next = step_toward(cur, 66, C_MAJOR);
        assert!(next >= cur && next <= 66);
        cur = next;
    }
    assert_eq!(cur, 66);
}

#[test]
fn degree_lists() {
    assert_eq!(&scale_degrees(C_MAJOR.mask)[..], &[0, 2, 4, 5, 7, 9, 11]);
    assert_eq!(&scale_degrees(0)[..], &[0]);
    assert_eq!(scale_degrees(0xfff).len(), 12);
}

#[test]
fn generator_sequence() {
    let mut s = 1;
    assert_eq!(xorshift32(&mut s), 270_369);
    assert_eq!(s, 270_369);
    let mut t = 0xa5a5_5a5a;
    for _ in 0..1000 {
        assert_ne!(xorshift32(&mut t), 0);
    }
    let mut zero = 0;
    assert_eq!(xorshift32(&mut zero), 0);
}
