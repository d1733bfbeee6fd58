//! Fader LED helpers from infrared to ultraviolet, without the wrap to red.

use crate::apps::led_fx::custom;
use crate::panel::{max_int, min_int, Act, Brightness, Color, Led};
use vstd::prelude::*;

verus! {

/// Colour of a hue with explicit saturation and value (0..=255).
pub open spec fn hsv(hue: int, sat: int, val: int) -> (int, int, int) {
    let f = hue % 60;
    let p = val * (255 - sat) / 255;
    let q = val * (255 - sat * f / 60) / 255;
    let t = val * (255 - sat * (60 - f) / 60) / 255;
    let sector = hue % 360 / 60;
    if sat == 0 {
        (val, val, val)
    } else if sector == 0 {
        (val, t, p)
    } else if sector == 1 {
        (q, val, p)
    } else if sector == 2 {
        (p, val, t)
    } else if sector == 3 {
        (p, q, val)
    } else if sector == 4 {
        (t, p, val)
    } else {
        (val, p, q)
    }
}

fn share(val: u8, part: u32) -> (r: u8)
    requires
        part <= 255,
    ensures
        r == val * part / 255,
{
    assert(0 <= val * part <= val * 255) by (nonlinear_arith)
        requires
            0 <= val,
            0 <= part <= 255,
    ;
    (val as u32 * part / 255) as u8
}

/// HSV with explicit S/V (0..=255). Hue in degrees.
pub fn hsv_to_rgb(hue: u16, sat: u8, val: u8) -> (r: (u8, u8, u8))
    ensures
        (r.0 as int, r.1 as int, r.2 as int) == hsv(hue as int, sat as int, val as int),
{
    if sat == 0 {
        return (val, val, val);
    }
    let sector: u16 = (hue % 360) / 60;
    let f: u32 = (hue % 60) as u32;
    let s: u32 = sat as u32;
    assert(0 <= s * f <= s * 60 && 0 <= s * (60 - f) <= s * 60) by (nonlinear_arith)
        requires
            0 <= s,
            0 <= f < 60,
    ;
    let p: u8 = share(val, 255 - s);
    let q: u8 = share(val, 255 - s * f / 60);
    let t: u8 = share(val, 255 - s * (60 - f) / 60);
    match sector {
        0 => (val, t, p),
        1 => (q, val, p),
        2 => (p, val, t),
        3 => (p, q, val),
        4 => (t, p, val),
        _ => (val, p, q),
    }
}

/// Fully saturated, fully bright colour of a hue.
pub open spec fn vivid(hue: int) -> Color {
    let c = hsv(hue, 255, 255);
    Color::Custom(c.0 as u8, c.1 as u8, c.2 as u8)
}

pub fn vivid_color(hue: u16) -> (c: Color)
    ensures
        c == vivid(hue as int),
{
    let (r, g, b) = hsv_to_rgb(hue, 255, 255);
    Color::Custom(r, g, b)
}

pub open spec fn spectrum(fader: int) -> Color {
    vivid(min_int(fader, 4095) * 270 / 4095)
}

/// Infrared to ultraviolet (0 to 270 degrees). The fader level itself is shown
/// by the meters' brightness.
pub fn spectrum_color(fader: u16) -> (c: Color)
    ensures
        c == spectrum(fader as int),
{
    let f: u32 = if fader < 4095 { fader as u32 } else { 4095 };
    vivid_color((f * 270 / 4095) as u16)
}

pub open spec fn fader_meters(color: Color, fader: u16, button_bright: int) -> Seq<Act> {
    seq![
        Act::Meter { chan: 0, color, level: fader, top_floor: 12, bottom_floor: 12 },
        Act::Light {
            chan: 0,
            led: Led::Button,
            color,
            bright: Brightness::Custom(max_int(button_bright, 24) as u8),
        },
    ]
}

/// Paint the bipolar meter and the button's brightness with a solid colour.
pub fn paint_fader_meters(color: Color, fader: u16, button_bright: u8) -> (acts: Vec<Act>)
    ensures
        acts@ == fader_meters(color, fader, button_bright as int),
{
    let mut acts: Vec<Act> = Vec::new();
    acts.push(Act::Meter { chan: 0, color, level: fader, top_floor: 12, bottom_floor: 12 });
    let b: u8 = if button_bright < 24 { 24 } else { button_bright };
    acts.push(
        Act::Light { chan: 0, led: Led::Button, color, bright: Brightness::Custom(b) },
    );
    assert(acts@ =~= fader_meters(color, fader, button_bright as int));
    acts
}

pub open spec fn blend(x: int, y: int, frac: int) -> int {
    (x * (255 - frac) + y * frac) / 255
}

fn blend_part(x: u8, y: u8, frac: u32) -> (r: u8)
    requires
        frac <= 255,
    ensures
        r == blend(x as int, y as int, frac as int),
{
    assert(0 <= x * (255 - frac) <= 255 * (255 - frac)) by (nonlinear_arith)
        requires
            0 <= x <= 255,
            0 <= frac <= 255,
    ;
    assert(0 <= y * frac <= 255 * frac) by (nonlinear_arith)
        requires
            0 <= y <= 255,
            0 <= frac <= 255,
    ;
    ((x as u32 * (255 - frac) + y as u32 * frac) / 255) as u8
}

/// Soft blend between two colours along a fader (0..=4095).
pub fn blend_colors(a: (u8, u8, u8), b: (u8, u8, u8), fader: u16) -> (c: Color)
    ensures
        ({
            let t = min_int(fader as int, 4095) * 255 / 4095;
            c == Color::Custom(
                blend(a.0 as int, b.0 as int, t) as u8,
                blend(a.1 as int, b.1 as int, t) as u8,
                blend(a.2 as int, b.2 as int, t) as u8,
            )
        }),
{
    let f: u32 = if fader < 4095 { fader as u32 } else { 4095 };
    let t: u32 = f * 255 / 4095;
    Color::Custom(blend_part(a.0, b.0, t), blend_part(a.1, b.1, t), blend_part(a.2, b.2, t))
}

/// A blend begins with the first colour and ends with the second.
pub proof fn blend_ends(x: int, y: int)
    requires
        0 <= x <= 255,
        0 <= y <= 255,
    ensures
        blend(x, y, 0) == x,
        blend(x, y, 255) == y,
{
}

} // verus!
