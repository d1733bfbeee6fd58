//! Ornament plans: timing, intensity and choice.

use faderpunk::apps::ornament::{
    artic_intensity, bass_ornament_pitch, bass_voice_ornament_scale, contura_ornament_gate,
    contura_pick_kind, contura_plan, contura_plan_fits, entry_rate_pct, genre_weights,
    groove_plan, hit_due_ms, hit_due_ticks, main_hit_index, pick_kind_proportional, plan_for_kind,
    quantize_dues, scale_vel, voice_weights, ArticContext, GrooveVoice, KindWeights, OrnamentHit,
    OrnamentKind, OrnamentPlan, MAX_HITS,
};

const KINDS: [OrnamentKind; 4] = [
    OrnamentKind::Double,
    OrnamentKind::Flam,
    OrnamentKind::Triplet,
    OrnamentKind::Roll,
];

/// A feel curve for these tests: gentle at the bottom, full at the top.
fn feel_curve(feel: u16) -> u16 {
    let f = u32::from(feel.min(4095));
    (f * f / 4095) as u16
}

fn intensity(ctx: ArticContext) -> u8 {
    let feel = match ctx {
        ArticContext::Groove { feel, .. } => feel,
        ArticContext::Fill { feel, .. } => feel,
        ArticContext::Solo { feel, .. } => feel,
    };
    artic_intensity(ctx, feel_curve(feel))
}

fn assert_dues_valid(dues: &[u32; MAX_HITS], len: usize, parent: u32) {
    let cap = parent.saturating_sub(1).max(1);
    for i in 0..len {
        assert!(
            dues[i] < parent,
            "due[{i}]={} must be < parent {parent}",
            dues[i]
        );
        assert!(dues[i] <= cap);
        if i > 0 {
            assert!(
                dues[i] > dues[i - 1],
                "dues must ascend: {:?}",
                &dues[..len]
            );
        }
    }
}

#[test]
fn all_kinds_anchor_zero_ticks6() {
    for kind in KINDS {
        let plan = plan_for_kind(kind);
        let dues = hit_due_ticks(0, &plan, 6);
        assert_dues_valid(&dues, plan.len as usize, 6);
    }
}

#[test]
fn all_kinds_anchor_mid_ticks6() {
    for kind in KINDS {
        let plan = plan_for_kind(kind);
        let dues = hit_due_ticks(3, &plan, 6);
        assert_dues_valid(&dues, plan.len as usize, 6);
    }
}

#[test]
fn all_kinds_anchor_near_end_ticks6() {
    for kind in KINDS {
        let plan = plan_for_kind(kind);
        let dues = hit_due_ticks(5, &plan, 6);
        assert_dues_valid(&dues, plan.len as usize, 6);
    }
}

#[test]
fn all_kinds_anchor_zero_ms8() {
    for kind in KINDS {
        let plan = plan_for_kind(kind);
        let dues = hit_due_ms(0, &plan, 8);
        assert_dues_valid(&dues, plan.len as usize, 8);
    }
}

#[test]
fn flam_no_collapse_at_anchor_zero() {
    let plan = plan_for_kind(OrnamentKind::Flam);
    let dues = hit_due_ticks(0, &plan, 6);
    assert_eq!(dues[0], 0);
    assert!(dues[1] > dues[0]);
}

#[test]
fn main_on_anchor_when_plan_fits() {
    let plan = plan_for_kind(OrnamentKind::Double);
    let dues = hit_due_ms(12, &plan, 24);
    let main_i = main_hit_index(&plan);
    assert_eq!(dues[main_i], 12);
}

#[test]
fn roll_anchor_near_end_ticks6_no_collision() {
    let plan = plan_for_kind(OrnamentKind::Roll);
    for anchor in [4, 5] {
        let dues = hit_due_ticks(anchor, &plan, 6);
        assert_dues_valid(&dues, plan.len as usize, 6);
        assert!(dues[2] > dues[1], "anchor={anchor}: {:?}", &dues[..3]);
        assert!(dues[1] > dues[0], "anchor={anchor}: {:?}", &dues[..3]);
    }
}

#[test]
fn quantize_dues_handles_cap_collision() {
    let perms = [800u16, 900, 1000, 0];
    let dues = quantize_dues(&perms, 3, 6, 1);
    assert_eq!(dues[0], 3);
    assert_eq!(dues[1], 4);
    assert_eq!(dues[2], 5);
}

#[test]
fn low_density_groove_off() {
    let ctx = ArticContext::Groove {
        density: 1000,
        feel: 3000,
    };
    assert_eq!(intensity(ctx), 0);
}

#[test]
fn max_density_zero_feel_groove_off() {
    let ctx = ArticContext::Groove {
        density: 4095,
        feel: 0,
    };
    assert_eq!(intensity(ctx), 0);
}

#[test]
fn groove_needs_density_and_feel() {
    let low_feel = ArticContext::Groove {
        density: 4095,
        feel: 512,
    };
    let high_both = ArticContext::Groove {
        density: 4095,
        feel: 4095,
    };
    assert!(intensity(high_both) > intensity(low_feel));
    assert!(intensity(high_both) > 0);
}

#[test]
fn fill_zero_feel_off() {
    let ctx = ArticContext::Fill { step: 14, feel: 0 };
    assert_eq!(intensity(ctx), 0);
}

#[test]
fn fill_high_feel_on() {
    let ctx = ArticContext::Fill {
        step: 14,
        feel: 4095,
    };
    assert!(intensity(ctx) > 0);
}

#[test]
fn solo_zero_feel_off() {
    let ctx = ArticContext::Solo {
        tier: 2,
        phrase_bar: 2,
        feel: 0,
    };
    assert_eq!(intensity(ctx), 0);
}

#[test]
fn solo_high_feel_on() {
    let ctx = ArticContext::Solo {
        tier: 2,
        phrase_bar: 2,
        feel: 4095,
    };
    assert!(intensity(ctx) > 0);
}

#[test]
fn entry_rate_stays_sparse() {
    let w = KindWeights {
        double: 30,
        flam: 10,
        triplet: 32,
        roll: 24,
    };
    let rate = entry_rate_pct(GrooveVoice::Hats, w, 100, 100);
    assert!(rate <= 36);
    let kick = entry_rate_pct(GrooveVoice::Kick, w, 100, 100);
    assert!(kick <= 14);
}

#[test]
fn kind_pick_uses_full_weights() {
    let w = KindWeights {
        double: 10,
        flam: 10,
        triplet: 10,
        roll: 10,
    };
    let mut seen = [false; 4];
    for roll in 0..100u8 {
        if let Some(k) = pick_kind_proportional(w, roll) {
            seen[k as usize] = true;
        }
    }
    assert!(seen.iter().all(|&s| s));
}

#[test]
fn templates_are_fixed() {
    let flam = plan_for_kind(OrnamentKind::Flam);
    assert_eq!(flam.len, 2);
    assert_eq!(flam.hits[0].offset_permille, 140);
    assert_eq!(flam.hits[0].vel_pct, 38);
    assert_eq!(flam.hits[1].gate_pct, 100);
    let roll = plan_for_kind(OrnamentKind::Roll);
    assert_eq!(roll.len, 3);
    assert_eq!(roll.hits[2].offset_permille, 480);
    assert_eq!(main_hit_index(&flam), 1);
    assert_eq!(main_hit_index(&roll), 2);
    assert_eq!(main_hit_index(&plan_for_kind(OrnamentKind::Triplet)), 2);
    assert_eq!(OrnamentPlan::empty().len, 0);
    assert_eq!(OrnamentPlan::single_main().hits[0].vel_pct, 100);
}

#[test]
fn genre_rows() {
    assert_eq!(
        genre_weights(0).kick,
        KindWeights { double: 8, flam: 4, triplet: 2, roll: 2 }
    );
    let last = genre_weights(100);
    assert_eq!(last, genre_weights(8));
    assert_eq!(
        voice_weights(&last, GrooveVoice::Hats),
        KindWeights { double: 22, flam: 10, triplet: 16, roll: 24 }
    );
}

#[test]
fn intensity_values() {
    let full = 4095;
    let groove = ArticContext::Groove { density: 4095, feel: 4095 };
    assert_eq!(artic_intensity(groove, full), 100);
    assert_eq!(artic_intensity(groove, 2048), 50);
    assert_eq!(artic_intensity(ArticContext::Groove { density: 2400, feel: 9 }, full), 0);
    assert_eq!(artic_intensity(ArticContext::Fill { step: 28, feel: 1 }, full), 90);
    assert_eq!(artic_intensity(ArticContext::Fill { step: 9, feel: 1 }, full), 65);
    assert_eq!(artic_intensity(ArticContext::Fill { step: 16, feel: 1 }, full), 40);
    assert_eq!(
        artic_intensity(ArticContext::Solo { tier: 0, phrase_bar: 4, feel: 1 }, full),
        55
    );
    assert_eq!(
        artic_intensity(ArticContext::Solo { tier: 2, phrase_bar: 2, feel: 1 }, full),
        100
    );
    assert_eq!(
        artic_intensity(ArticContext::Solo { tier: 9, phrase_bar: 3, feel: 1 }, full),
        80
    );
}

#[test]
fn entry_rate_values() {
    let w = KindWeights { double: 30, flam: 10, triplet: 32, roll: 24 };
    assert_eq!(entry_rate_pct(GrooveVoice::Hats, w, 100, 100), 32);
    assert_eq!(entry_rate_pct(GrooveVoice::Kick, w, 100, 100), 10);
    assert_eq!(entry_rate_pct(GrooveVoice::Snare, w, 100, 255), 22);
    assert_eq!(entry_rate_pct(GrooveVoice::Hats, w, 0, 255), 0);
    assert_eq!(entry_rate_pct(GrooveVoice::Hats, w, 100, 0), 0);
}

#[test]
fn empty_weights_pick_nothing() {
    let none = KindWeights { double: 0, flam: 0, triplet: 0, roll: 0 };
    assert_eq!(pick_kind_proportional(none, 17), None);
    let w = KindWeights { double: 1, flam: 0, triplet: 2, roll: 1 };
    assert_eq!(pick_kind_proportional(w, 0), Some(OrnamentKind::Double));
    assert_eq!(pick_kind_proportional(w, 1), Some(OrnamentKind::Triplet));
    assert_eq!(pick_kind_proportional(w, 3), Some(OrnamentKind::Roll));
    assert_eq!(pick_kind_proportional(w, 4), Some(OrnamentKind::Double));
}

#[test]
fn groove_plan_rolls_against_the_entry_rate() {
    let ctx = ArticContext::Groove { density: 4095, feel: 4095 };
    let echo = groove_plan(2, GrooveVoice::Hats, ctx, 4095, 0, 0, 100);
    assert_eq!((echo.len, echo.hits[1].offset_permille), (2, 520));
    let flam = groove_plan(2, GrooveVoice::Hats, ctx, 4095, 27, 30, 100);
    assert_eq!((flam.len, flam.hits[0].offset_permille), (2, 140));
    let plain = groove_plan(2, GrooveVoice::Hats, ctx, 4095, 28, 30, 100);
    assert_eq!(plain.len, 1);
    let quiet = ArticContext::Groove { density: 100, feel: 4095 };
    assert_eq!(groove_plan(2, GrooveVoice::Hats, quiet, 4095, 0, 0, 100).len, 1);
}

#[test]
fn dues_without_room_are_unset() {
    let plan = plan_for_kind(OrnamentKind::Double);
    assert_eq!(hit_due_ticks(0, &plan, 0), [u32::MAX; 3]);
    assert_eq!(hit_due_ticks(0, &OrnamentPlan::empty(), 6), [u32::MAX; 3]);
    let dues = hit_due_ticks(0, &plan, 100);
    assert_eq!(dues, [0, 52, u32::MAX]);
    // Sixteenths shorter than eight milliseconds are stretched to eight.
    assert_eq!(hit_due_ms(0, &plan, 1), hit_due_ms(0, &plan, 8));
}

#[test]
fn bass_scale_values() {
    assert_eq!(bass_voice_ornament_scale(30, 1000, false), 100);
    assert_eq!(bass_voice_ornament_scale(30, 1000, true), 35);
    assert_eq!(bass_voice_ornament_scale(255, 9999, false), 155);
}

#[test]
fn velocity_is_scaled_and_capped() {
    let hit = OrnamentHit { offset_permille: 0, vel_pct: 58, gate_pct: 0 };
    assert_eq!(scale_vel(2000, hit), 1160);
    let loud = OrnamentHit { offset_permille: 0, vel_pct: 100, gate_pct: 0 };
    assert_eq!(scale_vel(5000, loud), 4095);
}

#[test]
fn melody_gate_values() {
    assert_eq!(contura_ornament_gate(1000, 400, 4, 8, 6), 350);
    assert_eq!(contura_ornament_gate(1000, 400, 4, 0, 6), 275);
    assert_eq!(contura_ornament_gate(1000, 400, 4, 8, 3), 0);
    assert_eq!(contura_ornament_gate(65535, 65535, 255, 1, 4), 2800);
}

#[test]
fn melody_kinds() {
    assert_eq!(contura_pick_kind(0, false), Some(OrnamentKind::Flam));
    assert_eq!(contura_pick_kind(1279, false), Some(OrnamentKind::Flam));
    assert_eq!(contura_pick_kind(300, false), Some(OrnamentKind::Double));
    assert_eq!(contura_pick_kind(600, true), Some(OrnamentKind::Triplet));
    assert_eq!(contura_pick_kind(600, false), Some(OrnamentKind::Double));
    assert_eq!(contura_pick_kind(900, true), None);
    assert_eq!(contura_plan(900, true, 2000).len, 1);
    assert_eq!(contura_plan(600, true, 599).len, 1);
    assert_eq!(contura_plan(600, true, 600).len, 3);
}

#[test]
fn four_ticks_hold_every_plan() {
    for kind in KINDS {
        let plan = plan_for_kind(kind);
        assert!(contura_plan_fits(&plan, 4));
        assert!(!contura_plan_fits(&plan, 3));
    }
    assert!(contura_plan_fits(&OrnamentPlan::single_main(), 0));
}

#[test]
fn bass_sub_hits() {
    let double = plan_for_kind(OrnamentKind::Double);
    let echo = double.hits[1];
    assert_eq!(bass_ornament_pitch(60, double.hits[0], 0, &double, false, 0), (60, false));
    assert_eq!(bass_ornament_pitch(60, echo, 1, &double, false, 0), (72, false));
    assert_eq!(bass_ornament_pitch(120, echo, 1, &double, false, 0), (127, false));
    assert_eq!(bass_ornament_pitch(60, echo, 1, &double, true, 0), (58, false));
    assert_eq!(bass_ornament_pitch(60, echo, 1, &double, false, 1), (59, false));
    assert_eq!(bass_ornament_pitch(60, echo, 1, &double, false, 2), (61, false));
    assert_eq!(bass_ornament_pitch(60, echo, 1, &double, false, 3), (60, false));
    assert_eq!(bass_ornament_pitch(2, echo, 1, &double, false, 4), (1, false));
    let flam = plan_for_kind(OrnamentKind::Flam);
    let grace = flam.hits[0];
    assert_eq!(bass_ornament_pitch(60, grace, 0, &flam, false, 20), (59, true));
    assert_eq!(bass_ornament_pitch(60, grace, 0, &flam, false, 45), (60, true));
}

#[test]
fn dues_are_whole_units() {
    assert_eq!(quantize_dues(&[0, 250], 2, 6, 1), [0, 1, u32::MAX]);
    assert_eq!(quantize_dues(&[0, 500, 999], 3, 6, 1), [0, 3, 5]);
    let flam = plan_for_kind(OrnamentKind::Flam);
    assert_eq!(hit_due_ticks(0, &flam, 6), [0, 1, u32::MAX]);
    // The main strike goes back to its anchor where there is room for it.
    let double = plan_for_kind(OrnamentKind::Double);
    assert_eq!(hit_due_ticks(1, &double, 6), [1, 4, u32::MAX]);
}

#[test]
fn the_longest_step_has_dues() {
    for kind in KINDS {
        let plan = plan_for_kind(kind);
        let dues = hit_due_ticks(0, &plan, u32::MAX);
        assert_dues_valid(&dues, plan.len as usize, u32::MAX);
        assert!(contura_plan_fits(&plan, u32::MAX));
        assert!(contura_plan_fits(&plan, 4));
        assert!(!contura_plan_fits(&plan, 3));
    }
    assert_eq!(hit_due_ms(0, &plan_for_kind(OrnamentKind::Double), u32::MAX)[0], 0);
}

#[test]
fn intensity_rises() {
    let groove = |density| artic_intensity(ArticContext::Groove { density, feel: 3000 }, 2500);
    let mut last = 0;
    for density in 0..=4095 {
        assert!(groove(density) >= last);
        last = groove(density);
    }
    let fill = |step| artic_intensity(ArticContext::Fill { step, feel: 3000 }, 4095);
    assert_eq!((fill(0), fill(9), fill(14), fill(16)), (40, 65, 90, 40));
    for curved in 0..=4095 {
        let groove = ArticContext::Groove { density: 4095, feel: 1 };
        assert_eq!(artic_intensity(groove, curved) as u32, curved as u32 * 100 / 4095);
    }
    let faint = |curved| artic_intensity(ArticContext::Fill { step: 0, feel: 1 }, curved);
    assert_eq!((faint(102), faint(103)), (0, 1));
}
