//! Colours on the faders: hues, spectra, blends and the morph continuum.

use faderpunk::apps::led_fx::{self, genre_nearest, genre_pair, lerp_i32, lerp_u8};
use faderpunk::apps::led_spectrum::{self, blend_colors, paint_fader_meters, vivid_color};
use faderpunk::apps::morph::{
    chaos_sample, hsv_to_rgb_sat, mix, morph_color, morph_sample, node_sample, MorphChaos,
};
use faderpunk::panel::{Act, Brightness, Color, Led};

#[test]
fn pure_hues() {
    assert_eq!(led_fx::hsv_to_rgb(0), (255, 0, 0));
    assert_eq!(led_fx::hsv_to_rgb(30), (255, 129, 0));
    assert_eq!(led_fx::hsv_to_rgb(60), (255, 255, 0));
    assert_eq!(led_fx::hsv_to_rgb(119), (0, 255, 0));
    assert_eq!(led_fx::hsv_to_rgb(240), (0, 0, 255));
    assert_eq!(led_fx::hsv_to_rgb(359), (255, 0, 0));
    assert_eq!(led_fx::hsv_to_rgb(400), (255, 172, 0));
}

#[test]
fn hue_of_a_colour() {
    assert_eq!(led_fx::color_hue((255, 129, 0)), 30);
    assert_eq!(led_fx::color_hue((255, 255, 255)), 0);
    assert_eq!(led_fx::color_hue((100, 107, 103)), 0);
    assert_eq!(led_fx::color_hue((0, 0, 255)), 240);
    assert_eq!(led_fx::color_hue((255, 0, 128)), 330);
}

#[test]
fn hue_survives_a_round_trip() {
    for hue in 0..360 {
        let back = led_fx::color_hue(led_fx::hsv_to_rgb(hue));
        assert!([359, 0, 1].contains(&((back + 360 - hue) % 360)));
    }
    assert_eq!(led_fx::color_hue(led_fx::hsv_to_rgb(1)), 0);
    assert_eq!(led_fx::color_hue(led_fx::hsv_to_rgb(359)), 0);
    assert_eq!(led_fx::color_hue(led_fx::hsv_to_rgb(30)), 30);
}

#[test]
fn every_pure_hue_is_saturated() {
    for hue in 0..360 {
        let (r, g, b) = led_fx::hsv_to_rgb(hue);
        assert_eq!(r.max(g).max(b), 255);
        assert_eq!(r.min(g).min(b), 0);
    }
}

#[test]
fn open_spectrum_has_no_magenta() {
    assert_eq!(led_fx::spectrum_color(0), Color::Custom(255, 0, 0));
    assert_eq!(led_fx::spectrum_color(4095), Color::Custom(0, 0, 255));
    assert_eq!(led_fx::spectrum_color(9999), Color::Custom(0, 0, 255));
}

#[test]
fn genre_axis() {
    assert_eq!(genre_pair(0, 5), (0, 0, 0));
    assert_eq!(genre_pair(2047, 5), (1, 2, 254));
    assert_eq!(genre_pair(4095, 5), (4, 4, 0));
    assert_eq!(genre_pair(60_000, 5), (4, 4, 0));
    assert_eq!(genre_pair(1234, 1), (0, 0, 0));
    assert_eq!(genre_pair(1234, 0), (0, 0, 0));
    assert_eq!(genre_nearest(2047, 5), 2);
    assert_eq!(genre_nearest(500, 5), 0);
}

#[test]
fn pairs_are_neighbours_on_the_axis() {
    for fader in (0..=4095).step_by(13) {
        let (lo, hi, frac) = genre_pair(fader, 9);
        assert!(hi < 9);
        assert!(hi == lo + 1 || (hi == lo && frac == 0));
        let near = genre_nearest(fader, 9);
        assert!(near == lo || near == hi);
    }
}

#[test]
fn lerp_values() {
    assert_eq!(lerp_i32(10, -10, 128), 0);
    assert_eq!(lerp_i32(-7, 500, 0), -7);
    assert_eq!(lerp_i32(-7, 500, 255), 500);
    assert_eq!(lerp_u8(0, 255, 128), 128);
    assert_eq!(lerp_u8(200, 100, 255), 100);
    for frac in 0..=255 {
        let v = lerp_u8(40, 90, frac);
        assert!((40..=90).contains(&v));
    }
}

#[test]
fn hsv_with_saturation_and_value() {
    assert_eq!(led_spectrum::hsv_to_rgb(30, 255, 255), (255, 128, 0));
    assert_eq!(led_spectrum::hsv_to_rgb(90, 128, 200), (149, 200, 99));
    assert_eq!(led_spectrum::hsv_to_rgb(90, 0, 77), (77, 77, 77));
    assert_eq!(vivid_color(120), Color::Custom(0, 255, 0));
    assert_eq!(led_spectrum::spectrum_color(0), Color::Custom(255, 0, 0));
    assert_eq!(led_spectrum::spectrum_color(4095), Color::Custom(128, 0, 255));
}

#[test]
fn blend_runs_from_one_colour_to_the_other() {
    let a = (0, 100, 255);
    let b = (255, 200, 0);
    assert_eq!(blend_colors(a, b, 0), Color::Custom(0, 100, 255));
    assert_eq!(blend_colors(a, b, 2048), Color::Custom(127, 149, 128));
    assert_eq!(blend_colors(a, b, 4095), Color::Custom(255, 200, 0));
    assert_eq!(blend_colors(a, b, 60_000), Color::Custom(255, 200, 0));
}

#[test]
fn meters_keep_their_floors() {
    let acts = paint_fader_meters(Color::Cyan, 4095, 10);
    assert_eq!(
        acts,
        vec![
            Act::Meter {
                chan: 0,
                color: Color::Cyan,
                level: 4095,
                top_floor: 12,
                bottom_floor: 12
            },
            Act::Light {
                chan: 0,
                led: Led::Button,
                color: Color::Cyan,
                bright: Brightness::Custom(24)
            },
        ]
    );
}

#[test]
fn walks_drift_slowly() {
    let mut chaos = MorphChaos::new();
    chaos.tick_walks(0, 6);
    assert_eq!((chaos.walk_a, chaos.walk_b), (2045, 2051));
    chaos.walk_a = 1;
    chaos.walk_b = 4094;
    chaos.tick_walks(0, 6);
    assert_eq!((chaos.walk_a, chaos.walk_b), (0, 4095));
    assert_eq!(chaos_sample(4, 0, 0, &mut chaos, 9), 0);
    assert_eq!(chaos_sample(4, 0, 1, &mut chaos, 9), 4095);
    assert_eq!(chaos_sample(6, 0, 1, &mut chaos, 9), 9);
}

#[test]
fn sample_and_hold_steps_sixteen_times_a_cycle() {
    let mut chaos = MorphChaos::new();
    assert_eq!(chaos_sample(5, 300, 0, &mut chaos, 77), 77);
    assert_eq!(chaos_sample(5, 400, 0, &mut chaos, 99), 77);
    assert_eq!(chaos_sample(5, 600, 0, &mut chaos, 99), 99);
    // The other oscillator holds its own level.
    assert_eq!(chaos.sh_b, 2048);
    assert_eq!(chaos_sample(5, 600, 1, &mut chaos, 5), 5);
    assert_eq!(chaos.sh_a, 99);
}

#[test]
fn morph_crossfades_its_nodes() {
    let waves = [1000, 3000, 0, 4095];
    let mut chaos = MorphChaos::new();
    assert_eq!(node_sample(1, 0, 0, &mut chaos, &waves, 9), 3000);
    assert_eq!(mix(0, 4095, 341), 2047);
    assert_eq!(mix(4000, 100, 341), 2050);
    assert_eq!(morph_sample(0, 0, 0, &mut chaos, &waves, 7, 8), 1000);
    assert_eq!(morph_sample(0, 341, 0, &mut chaos, &waves, 7, 8), 2000);
    assert_eq!(morph_sample(0, 682, 0, &mut chaos, &waves, 7, 8), 3000);
    // Past the last node only noise is left.
    assert_eq!(morph_sample(0, 4095, 0, &mut chaos, &waves, 7, 8), 7);
}

#[test]
fn morph_colours_fade_and_snap() {
    assert_eq!(morph_color(0), Color::Custom(255, 0, 0));
    assert_eq!(morph_color(341), Color::Custom(255, 127, 127));
    assert_eq!(morph_color(682), Color::Custom(255, 194, 0));
    assert_eq!(morph_color(3410), Color::Custom(129, 0, 255));
    assert_eq!(morph_color(4095), Color::Custom(129, 0, 255));
    assert_eq!(hsv_to_rgb_sat(200, 0), (255, 255, 255));
}

#[test]
fn hues_past_the_circle() {
    assert_eq!(led_fx::sector_rgb(400), (255, 0, 83));
    assert_eq!(hsv_to_rgb_sat(400, 255), (255, 0, 83));
    assert_eq!(led_fx::lerp_i32(0, -8_421_504, 255), -8_421_504);
}
