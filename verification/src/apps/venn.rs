//! Two Euclidean layers combined by logic, with a melody in the device's scale.
//!
//! The first output is the logic result with a melodic line, an arch through
//! the length of layer A; the second is layer B with the same line an interval
//! above.

use crate::apps::led_fx::{color_hue, custom, hsv_to_rgb, hue_of, pure_hue};
use crate::apps::scale::{degrees, degrees_ascend, scale_degrees};
use crate::bounded::{degree_list, degree_list_at, degree_list_len, param_values, values_of};
use crate::panel::{
    abs_diff, clamp_int, dist, max_int, min_int, one, push_all, quot, reads, reads_all, Act,
    Brightness, Color, LatchLayer, Led, MidiOut, ParamSlot, SlotKind, Value,
};
use vstd::prelude::*;

verus! {

pub const CHANNELS: usize = 2;
pub const PARAMS: usize = 10;

/// Widest melody in degrees.
pub const EXTENT_MAX_DEGREES: u8 = 24;
/// Widest interval of the second voice in degrees.
pub const INTERVAL_MAX_DEGREES: u8 = 12;
/// Dip of a button after a hit.
pub const BUTTON_HIT_FLASH_MS: u16 = 40;
/// Time for which a flash has the button to itself.
pub const BUTTON_FLASH_MS: u16 = 550;
/// Length of the fade that answers an inversion.
pub const EINVERT_FADE_MS: u16 = 500;
/// Fader noise to ignore while the button is held.
pub const FADER_MOVE_THRESH: u16 = 64;
/// Step lengths in clock ticks, slow to fast.
pub const RESOLUTION: [u32; 12] = [384, 192, 96, 48, 24, 16, 12, 8, 6, 4, 3, 2];

// ---------------------------------------------------------------------------
// Logic
// ---------------------------------------------------------------------------

/// How the two layers are combined.
#[derive(Clone, Copy, Debug, PartialEq, Eq, Structural)]
pub enum Logic {
    Or,
    And,
    Xor,
    Accnt,
}

impl Logic {
    pub open spec fn at(v: int) -> Logic {
        if v % 4 == 0 {
            Logic::Or
        } else if v % 4 == 1 {
            Logic::And
        } else if v % 4 == 2 {
            Logic::Xor
        } else {
            Logic::Accnt
        }
    }

    pub open spec fn number(self) -> int {
        match self {
            Logic::Or => 0,
            Logic::And => 1,
            Logic::Xor => 2,
            Logic::Accnt => 3,
        }
    }

    pub open spec fn after(self) -> Logic {
        Logic::at(self.number() + 1)
    }

    pub open spec fn hue(self) -> Color {
        match self {
            Logic::Or => Color::Green,
            Logic::And => Color::Yellow,
            Logic::Xor => Color::Red,
            Logic::Accnt => Color::White,
        }
    }

    pub fn from_u8(v: u8) -> (r: Self)
        ensures
            r == Logic::at(v as int),
    {
        match v % 4 {
            0 => Logic::Or,
            1 => Logic::And,
            2 => Logic::Xor,
            _ => Logic::Accnt,
        }
    }

    pub fn index(self) -> (r: u8)
        ensures
            r == self.number(),
    {
        match self {
            Logic::Or => 0,
            Logic::And => 1,
            Logic::Xor => 2,
            Logic::Accnt => 3,
        }
    }

    pub fn next(self) -> (r: Self)
        ensures
            r == self.after(),
    {
        Logic::from_u8(self.index() + 1)
    }

    pub fn color(self) -> (c: Color)
        ensures
            c == self.hue(),
    {
        match self {
            Logic::Or => Color::Green,
            Logic::And => Color::Yellow,
            Logic::Xor => Color::Red,
            Logic::Accnt => Color::White,
        }
    }

    /// Both outputs for the hits of the two layers. The second follows layer B,
    /// so that the mode changes the first alone; with accents it is where both
    /// hit.
    pub open spec fn outs(self, a: bool, b: bool) -> (bool, bool) {
        match self {
            Logic::Or => (a || b, b),
            Logic::And => (a && b, b),
            Logic::Xor => (a != b, b),
            Logic::Accnt => (a, a && b),
        }
    }

    pub fn combine(self, a: bool, b: bool) -> (r: (bool, bool))
        ensures
            r == self.outs(a, b),
    {
        match self {
            Logic::Or => (a || b, b),
            Logic::And => (a && b, b),
            Logic::Xor => (a != b, b),
            Logic::Accnt => (a, a && b),
        }
    }
}

/// Cycling goes through all modes, and a stored mode reads back.
pub proof fn logic_cycles(l: Logic)
    ensures
        l.after() != l,
        l.after().after() != l,
        l.after().after().after() != l,
        l.after().after().after().after() == l,
        Logic::at(l.number()) == l,
{
}

/// The modes fit together: a hit of AND is one of OR, and XOR is the rest of
/// OR; in all three the second output is layer B.
pub proof fn logic_modes_fit(a: bool, b: bool)
    ensures
        Logic::And.outs(a, b).0 ==> Logic::Or.outs(a, b).0,
        Logic::Xor.outs(a, b).0 == (Logic::Or.outs(a, b).0 && !Logic::And.outs(a, b).0),
        Logic::Or.outs(a, b).1 == b && Logic::And.outs(a, b).1 == b && Logic::Xor.outs(a, b).1
            == b,
        Logic::Accnt.outs(a, b).1 == Logic::And.outs(a, b).0,
{
}

// ---------------------------------------------------------------------------
// Colours
// ---------------------------------------------------------------------------

pub open spec fn complement(c: Color) -> Color {
    match c {
        Color::Blue => Color::Orange,
        Color::SkyBlue => Color::Orange,
        Color::LightBlue => Color::Orange,
        Color::Green => Color::Violet,
        Color::Lime => Color::Violet,
        Color::PaleGreen => Color::Violet,
        Color::Rose => Color::Yellow,
        Color::Salmon => Color::Yellow,
        Color::Orange => Color::Blue,
        Color::Sand => Color::Blue,
        Color::Cyan => Color::Pink,
        Color::Pink => Color::Cyan,
        Color::Violet => Color::Green,
        Color::Yellow => Color::Rose,
        Color::White => Color::Pink,
        Color::Custom(_, _, _) => Color::Pink,
        Color::Red => Color::Cyan,
    }
}

/// Colour opposite to a colour, for layer B.
pub fn complement_color(c: Color) -> (r: Color)
    ensures
        r == complement(c),
{
    match c {
        Color::Blue | Color::SkyBlue | Color::LightBlue => Color::Orange,
        Color::Green | Color::Lime | Color::PaleGreen => Color::Violet,
        Color::Rose | Color::Salmon => Color::Yellow,
        Color::Orange | Color::Sand => Color::Blue,
        Color::Cyan => Color::Pink,
        Color::Pink => Color::Cyan,
        Color::Violet => Color::Green,
        Color::Yellow => Color::Rose,
        Color::White | Color::Custom(_, _, _) => Color::Pink,
        Color::Red => Color::Cyan,
    }
}

/// Signed shortest way from one hue to another.
pub open spec fn hue_way(from: int, to: int) -> int {
    let d = to % 360 - from % 360;
    if d > 180 {
        d - 360
    } else if d < -180 {
        d + 360
    } else {
        d
    }
}

/// Hue part of the shortest way along.
pub open spec fn hue_along(from: int, to: int, t: int) -> int {
    (from % 360 + quot(hue_way(from, to) * t, 255)) % 360
}

pub fn shortest_hue_lerp(from: u16, to: u16, t: u8) -> (r: u16)
    ensures
        r == hue_along(from as int, to as int, t as int),
        r < 360,
{
    let from: i32 = (from % 360) as i32;
    let to: i32 = (to % 360) as i32;
    let mut d: i32 = to - from;
    if d > 180 {
        d = d - 360;
    } else if d < -180 {
        d = d + 360;
    }
    let t: i32 = t as i32;
    assert(-180 * 255 <= d * t <= 180 * 255) by (nonlinear_arith)
        requires
            -180 <= d <= 180,
            0 <= t <= 255,
    ;
    let h: i32 = from + crate::panel::div_toward_zero(d * t, 255);
    assert(-180 <= h <= 540);
    ((h + 360) % 360) as u16
}

/// The way starts at one hue and ends at the other.
pub proof fn hue_way_ends(from: int, to: int)
    requires
        0 <= from < 360,
        0 <= to < 360,
    ensures
        hue_along(from, to, 0) == from,
        hue_along(from, to, 255) == to,
        -180 <= hue_way(from, to) <= 180,
{
}

pub open spec fn part_mixed(a: int, b: int, t: int) -> int {
    (a * (255 - t) + b * t) / 255
}

fn mix_part(a: u8, b: u8, t: u8) -> (r: u8)
    ensures
        r == part_mixed(a as int, b as int, t as int),
{
    let (x, y, s): (u32, u32, u32) = (a as u32, b as u32, t as u32);
    assert(0 <= x * (255 - s) + y * s <= 255 * 255) by (nonlinear_arith)
        requires
            x <= 255,
            y <= 255,
            s <= 255,
    ;
    assert(0 <= x * (255 - s) && 0 <= y * s) by (nonlinear_arith)
        requires
            x <= 255,
            y <= 255,
            s <= 255,
    ;
    ((x * (255 - s) + y * s) / 255) as u8
}

pub open spec fn rgb_mixed(a: (u8, u8, u8), b: (u8, u8, u8), t: int) -> Color {
    Color::Custom(
        part_mixed(a.0 as int, b.0 as int, t) as u8,
        part_mixed(a.1 as int, b.1 as int, t) as u8,
        part_mixed(a.2 as int, b.2 as int, t) as u8,
    )
}

pub fn rgb_lerp(a: (u8, u8, u8), b: (u8, u8, u8), t: u8) -> (c: Color)
    ensures
        c == rgb_mixed(a, b, t as int),
{
    Color::Custom(mix_part(a.0, b.0, t), mix_part(a.1, b.1, t), mix_part(a.2, b.2, t))
}

pub open spec fn length_part(len: int) -> int {
    (clamp_int(len, 2, 32) - 2) * 255 / 30
}

/// Colour of a length: from a colour at two steps to its complement at
/// thirty-two, along the shortest way; white, which has no hue, is mixed.
pub open spec fn length_hue(
    len: int,
    white: bool,
    from: (u8, u8, u8),
    to: (u8, u8, u8),
) -> Color {
    let t = length_part(len);
    if white {
        rgb_mixed(from, to, t)
    } else {
        custom(
            pure_hue(
                hue_along(
                    hue_of(from.0 as int, from.1 as int, from.2 as int),
                    hue_of(to.0 as int, to.1 as int, to.2 as int),
                    t,
                ),
            ),
        )
    }
}

pub fn length_grad_color(len: u8, white: bool, from: (u8, u8, u8), to: (u8, u8, u8)) -> (c: Color)
    ensures
        c == length_hue(len as int, white, from, to),
{
    let l: u16 = if len < 2 {
        2
    } else if len > 32 {
        32
    } else {
        len as u16
    };
    let t: u8 = ((l - 2) * 255 / 30) as u8;
    if white {
        return rgb_lerp(from, to, t);
    }
    let h: u16 = shortest_hue_lerp(color_hue(from), color_hue(to), t);
    let (r, g, b) = hsv_to_rgb(h);
    Color::Custom(r, g, b)
}

// ---------------------------------------------------------------------------
// Scales
// ---------------------------------------------------------------------------

pub open spec fn length_of(v: int) -> int {
    min_int(v * 31 / 4095 % 256 + 2, 32)
}

pub fn length_from_fader(v: u16) -> (r: u8)
    ensures
        r == length_of(v as int),
        2 <= r <= 32,
{
    let l: u32 = v as u32 * 31 / 4095 % 256 + 2;
    if l > 32 {
        32
    } else {
        l as u8
    }
}

pub open spec fn pulses_of(v: int, len: int) -> int {
    min_int(v * max_int(len, 1) / 4095 % 256, max_int(len, 1))
}

pub fn pulses_from_fader(v: u16, len: u8) -> (r: u8)
    ensures
        r == pulses_of(v as int, len as int),
        r <= max_int(len as int, 1),
{
    let l: u32 = if len < 1 { 1 } else { len as u32 };
    assert(0 <= v * l <= 65535 * 255) by (nonlinear_arith)
        requires
            v <= 65535,
            1 <= l <= 255,
    ;
    let p: u32 = v as u32 * l / 4095 % 256;
    if p > l {
        l as u8
    } else {
        p as u8
    }
}

pub open spec fn extent_of(v: int) -> int {
    v * 24 / 4095 % 256
}

pub fn extent_from_fader(v: u16) -> (r: u8)
    ensures
        r == extent_of(v as int),
        v <= 4095 ==> r <= 24,
{
    (v as u32 * 24 / 4095 % 256) as u8
}

pub open spec fn interval_of(v: int) -> int {
    v * 12 / 4095
}

pub fn interval_from_fader(v: u16) -> (r: u8)
    ensures
        r == interval_of(v as int),
        v <= 4095 ==> r <= 12,
{
    (v as u32 * 12 / 4095) as u8
}

/// The fader scales reach both ends.
pub proof fn fader_scales_reach_their_ends(len: int)
    requires
        2 <= len <= 32,
    ensures
        length_of(0) == 2 && length_of(4095) == 32,
        pulses_of(0, len) == 0 && pulses_of(4095, len) == len,
        extent_of(0) == 0 && extent_of(4095) == EXTENT_MAX_DEGREES,
        interval_of(0) == 0 && interval_of(4095) == INTERVAL_MAX_DEGREES,
{
}

/// Semitones above the tonic of the device's scale.
pub fn scale_pcs(mask: u16) -> (v: heapless::Vec<u8, 12>)
    ensures
        degree_list(v) == degrees(mask),
{
    scale_degrees(mask)
}

/// Semitones of a degree above the tonic, over the octaves.
pub open spec fn semis_of(pcs: Seq<u8>, d: int) -> int {
    d / pcs.len() as int * 12 + pcs[d % pcs.len() as int]
}

pub fn degree_semis(pcs: &heapless::Vec<u8, 12>, d: u16) -> (r: u16)
    requires
        degree_list(*pcs).len() >= 1,
        semis_of(degree_list(*pcs), d as int) <= u16::MAX,
    ensures
        r == semis_of(degree_list(*pcs), d as int),
{
    let n: u16 = degree_list_len(pcs) as u16;
    let oct: u16 = d / n;
    assert(oct <= d) by (nonlinear_arith)
        requires
            oct == d / n,
            n >= 1,
    ;
    oct * 12 + degree_list_at(pcs, (d % n) as usize) as u16
}

/// Note of a degree: the root is degree zero, and nothing goes past the last
/// note.
pub open spec fn note_at(root: int, pcs: Seq<u8>, degree: int) -> int {
    min_int(root + max_int(semis_of(pcs, degree) - semis_of(pcs, 0), 0), 127)
}

pub fn midi_at_degree(root: u8, pcs: &heapless::Vec<u8, 12>, degree: u16) -> (r: u8)
    requires
        degree_list(*pcs).len() >= 1,
        semis_of(degree_list(*pcs), degree as int) <= u16::MAX,
    ensures
        r == note_at(root as int, degree_list(*pcs), degree as int),
        r <= 127,
{
    let off0: u16 = degree_semis(pcs, 0);
    let off: u16 = degree_semis(pcs, degree);
    proof {
        let n = degree_list(*pcs).len() as int;
        let o = degree as int / n;
        assert(0 <= o <= degree) by (nonlinear_arith)
            requires
                o == degree as int / n,
                n >= 1,
        ;
    }
    let midi: u32 = root as u32 + off.saturating_sub(off0) as u32;
    if midi > 127 {
        127
    } else {
        midi as u8
    }
}

/// Degree of the melody at a step: up to the extent at the middle of the
/// length, and down again.
pub open spec fn arch(step: int, len: int, extent: int) -> int {
    let last = len - 1;
    let half = last / 2;
    let phase = step % len;
    if extent == 0 || len <= 1 || half == 0 {
        0
    } else if phase <= half {
        phase * extent / half
    } else {
        extent - (phase - half) * extent / (last - half)
    }
}

proof fn arch_bounds(step: int, len: int, extent: int)
    requires
        0 <= step,
        2 <= len,
        0 <= extent,
    ensures
        0 <= arch(step, len, extent) <= extent,
{
    let last = len - 1;
    let half = last / 2;
    let phase = step % len;
    if half > 0 {
        if phase <= half {
            assert(0 <= (phase * extent) / half <= extent) by (nonlinear_arith)
                requires
                    0 <= phase <= half,
                    half > 0,
                    extent >= 0,
            ;
        } else {
            let (down, rem) = (phase - half, last - half);
            assert(0 <= (down * extent) / rem <= extent) by (nonlinear_arith)
                requires
                    0 <= down <= rem,
                    rem > 0,
                    extent >= 0,
            ;
        }
    }
}

pub fn melody_degree(step: u32, len: u8, extent: u8) -> (r: u8)
    ensures
        r == arch(step as int, len as int, extent as int),
        r <= extent,
{
    if extent == 0 || len <= 1 {
        return 0;
    }
    proof {
        arch_bounds(step as int, len as int, extent as int);
    }
    let last: u32 = len as u32 - 1;
    let phase: u32 = step % len as u32;
    let half: u32 = last / 2;
    let e: u32 = extent as u32;
    if half == 0 {
        return 0;
    }
    assert(0 <= phase * e <= 255 * 255) by (nonlinear_arith)
        requires
            phase <= 255,
            e <= 255,
    ;
    if phase <= half {
        (phase * e / half) as u8
    } else {
        let (down, rem): (u32, u32) = (phase - half, last - half);
        assert(0 <= down * e <= 255 * 255) by (nonlinear_arith)
            requires
                down <= 255,
                e <= 255,
        ;
        (e - down * e / rem) as u8
    }
}

/// The melody stays within its extent, and both ends of its arch lie on the
/// root.
pub proof fn melody_is_an_arch(step: int, len: int, extent: int)
    requires
        0 <= step,
        2 <= len,
        0 <= extent,
    ensures
        0 <= arch(step, len, extent) <= extent,
        arch(0, len, extent) == 0,
        arch(len - 1, len, extent) == 0,
        arch(step + len, len, extent) == arch(step, len, extent),
        len >= 3 ==> arch((len - 1) / 2, len, extent) == extent,
{
    arch_bounds(step, len, extent);
    let last = len - 1;
    let half = last / 2;
    vstd::arithmetic::div_mod::lemma_small_mod(0, len as nat);
    vstd::arithmetic::div_mod::lemma_small_mod(last as nat, len as nat);
    vstd::arithmetic::div_mod::lemma_small_mod(half as nat, len as nat);
    vstd::arithmetic::div_mod::lemma_mod_add_multiples_vanish(step, len);
    assert((step + len) % len == step % len);
    if half > 0 {
        let rem = last - half;
        assert((rem * extent) / rem == extent) by (nonlinear_arith)
            requires
                rem > 0,
        ;
        assert((half * extent) / half == extent) by (nonlinear_arith)
            requires
                half > 0,
        ;
        assert((0 * extent) / half == 0) by (nonlinear_arith)
            requires
                half > 0,
        ;
    }
}

/// Brightness of a meter between its floor and full.
pub open spec fn meter_level(v: int, top: int) -> int {
    40 + min_int(v * 215 / top, 215)
}

pub fn extent_meter_bright(extent: u8) -> (r: u8)
    ensures
        r == meter_level(extent as int, 24),
{
    let t: u32 = extent as u32 * 215 / 24;
    40 + (if t > 215 { 215 } else { t as u8 })
}

pub fn interval_meter_bright(interval: u8) -> (r: u8)
    ensures
        r == meter_level(interval as int, 12),
{
    let t: u32 = interval as u32 * 215 / 12;
    40 + (if t > 215 { 215 } else { t as u8 })
}

pub fn len_meter_bright(len: u8) -> (r: u8)
    ensures
        r == meter_level(clamp_int(len as int, 2, 32) - 2, 30),
{
    let l: u32 = if len < 2 {
        2
    } else if len > 32 {
        32
    } else {
        len as u32
    };
    let t: u32 = (l - 2) * 215 / 30;
    40 + (if t > 215 { 215 } else { t as u8 })
}

/// Brightness of a button: the denser the layer, the brighter.
pub open spec fn density_level(pulses: int, len: int) -> int {
    90 + pulses * 255 / max_int(len, 1) * 165 / 255 % 256
}

/// A rhythm with no more pulses than steps has a level.
proof fn density_has_level(pulses: int, len: int)
    requires
        0 <= pulses <= max_int(len, 1),
    ensures
        0 <= pulses * 255 / max_int(len, 1) <= 255,
        density_level(pulses, len) <= 255,
{
    let l = max_int(len, 1);
    let fill = pulses * 255 / l;
    assert(0 <= fill <= 255) by (nonlinear_arith)
        requires
            fill == (pulses * 255) / l,
            0 <= pulses <= l,
            l >= 1,
    ;
}

pub fn button_density_bright(pulses: u8, len: u8) -> (r: u8)
    requires
        pulses as int * 255 / max_int(len as int, 1) * 165 <= u16::MAX,
        density_level(pulses as int, len as int) <= 255,
    ensures
        r == density_level(pulses as int, len as int),
        90 <= r,
{
    let l: u32 = if len < 1 { 1 } else { len as u32 };
    let fill: u32 = pulses as u32 * 255 / l;
    90 + (fill * 165 / 255 % 256) as u8
}

/// What is left of a brightness right after a hit.
pub open spec fn dipped(base: int) -> int {
    base * 62 / 100
}

pub fn hit_dip_bright(base: u8) -> (r: u8)
    ensures
        r == dipped(base as int),
{
    (base as u16 * 62 / 100) as u8
}

pub open spec fn div_of(division: int) -> int {
    RESOLUTION[min_int(division, 11)] as int
}

pub fn div_from_param(division: usize) -> (r: u32)
    ensures
        r == div_of(division as int),
        2 <= r <= 384,
{
    RESOLUTION[if division < 11 {
        division
    } else {
        11
    }]
}

/// Velocity around a base, spread by a percentage of it.
pub open spec fn spread_velocity(base: int, pct: int, roll: int) -> int {
    let span = base * pct / 100 % 65536;
    if pct <= 0 { base } else { clamp_int(base + roll * span / 4095 - span / 2, 1, 4095) }
}

pub fn midi_velocity(base: u16, vel_pct: i32, die_roll: u16) -> (r: u16)
    requires
        vel_pct > 0 ==> base * vel_pct <= u32::MAX,
    ensures
        r == spread_velocity(base as int, vel_pct as int, die_roll as int),
{
    if vel_pct <= 0 {
        return base;
    }
    assert(0 <= base * vel_pct) by (nonlinear_arith)
        requires
            vel_pct > 0,
    ;
    let product: u64 = {
        assert(base as u64 * vel_pct as u64 == base * vel_pct);
        base as u64 * vel_pct as u64
    };
    let span: u32 = (product / 100 % 65536) as u32;
    assert(0 <= die_roll * span <= 65535 * 65535) by (nonlinear_arith)
        requires
            die_roll <= 65535,
            span <= 65535,
    ;
    let v: i64 = base as i64 + (die_roll as u32 * span / 4095) as i64 - (span / 2) as i64;
    if v < 1 {
        1
    } else if v > 4095 {
        4095
    } else {
        v as u16
    }
}

// ---------------------------------------------------------------------------
// Parameters and settings
// ---------------------------------------------------------------------------

#[derive(Clone, Copy, Debug, PartialEq, Eq, Structural)]
pub struct Params {
    pub midi_channel: u8,
    pub note_a: u8,
    /// Interval of the second voice to begin with, in degrees.
    pub interval_b: usize,
    pub midi_out: MidiOut,
    pub division: usize,
    pub gatel: i32,
    pub prob: i32,
    pub vel: i32,
    pub color: Color,
    pub follow_tonic: bool,
}

impl Params {
    pub open spec fn valid(self) -> bool {
        self.interval_b <= 12 && self.division <= 11
    }

    pub open spec fn values(self) -> Seq<Value> {
        seq![
            Value::MidiChannel(self.midi_channel),
            Value::MidiNote(self.note_a),
            Value::Enum(self.interval_b),
            Value::MidiOut(self.midi_out),
            Value::Enum(self.division),
            Value::I32(self.gatel),
            Value::I32(self.prob),
            Value::I32(self.vel),
            Value::Color(self.color),
            Value::Bool(self.follow_tonic),
        ]
    }

    /// Parameters in a list of slots. An old layout counts divisions from one;
    /// a list of nine follows the tonic.
    pub open spec fn from_slots(s: Seq<ParamSlot>) -> Option<Params> {
        if s.len() < 9 {
            None
        } else {
            Some(
                Params {
                    midi_channel: s[0].as_channel,
                    note_a: s[1].as_note,
                    interval_b: min_int(s[2].as_index as int, 12) as usize,
                    midi_out: s[3].as_midi_out,
                    division: if s[4].kind == SlotKind::I32 {
                        (clamp_int(s[4].as_int as int, 1, 12) - 1) as usize
                    } else {
                        min_int(s[4].as_index as int, 11) as usize
                    },
                    gatel: s[5].as_int,
                    prob: s[6].as_int,
                    vel: s[7].as_int,
                    color: s[8].as_color,
                    follow_tonic: s.len() < 10 || s[9].as_bool,
                },
            )
        }
    }

    pub fn from_values(values: &[ParamSlot]) -> (r: Option<Params>)
        ensures
            r == Params::from_slots(values@),
            r matches Some(p) ==> p.valid(),
    {
        if values.len() < 9 {
            return None;
        }
        let iv: usize = values[2].as_index;
        let division: usize = match values[4].kind {
            SlotKind::I32 => {
                let n: i32 = values[4].as_int;
                if n < 1 {
                    0
                } else if n > 12 {
                    11
                } else {
                    n as usize - 1
                }
            },
            _ => {
                let d: usize = values[4].as_index;
                if d < 11 {
                    d
                } else {
                    11
                }
            },
        };
        Some(
            Params {
                midi_channel: values[0].as_channel,
                note_a: values[1].as_note,
                interval_b: if iv < 12 { iv } else { 12 },
                midi_out: values[3].as_midi_out,
                division,
                gatel: values[5].as_int,
                prob: values[6].as_int,
                vel: values[7].as_int,
                color: values[8].as_color,
                follow_tonic: values.len() < 10 || values[9].as_bool,
            },
        )
    }

    pub fn to_values(&self) -> (v: heapless::Vec<Value, 16>)
        ensures
            param_values(v) == self.values(),
    {
        let items: [Value; 10] = [
            Value::MidiChannel(self.midi_channel),
            Value::MidiNote(self.note_a),
            Value::Enum(self.interval_b),
            Value::MidiOut(self.midi_out),
            Value::Enum(self.division),
            Value::I32(self.gatel),
            Value::I32(self.prob),
            Value::I32(self.vel),
            Value::Color(self.color),
            Value::Bool(self.follow_tonic),
        ];
        assert(items@ =~= self.values());
        values_of(&items)
    }

    /// The parameters of a new app on the device's default channel and outputs.
    pub fn with_defaults(channel: u8, out: MidiOut) -> (r: Self)
        ensures
            r.valid(),
            r == (Params {
                midi_channel: channel,
                note_a: 32,
                interval_b: 7,
                midi_out: out,
                division: 8,
                gatel: 50,
                prob: 100,
                vel: 0,
                color: Color::Cyan,
                follow_tonic: true,
            }),
    {
        Params {
            midi_channel: channel,
            note_a: 32,
            interval_b: 7,
            midi_out: out,
            division: 8,
            gatel: 50,
            prob: 100,
            vel: 0,
            color: Color::Cyan,
            follow_tonic: true,
        }
    }
}

/// Stored parameters read back as they were.
pub proof fn params_round_trip(p: Params, slots: Seq<ParamSlot>)
    requires
        p.valid(),
        reads_all(slots, p.values()),
    ensures
        Params::from_slots(slots) == Some(p),
{
    assert forall|i: int| 0 <= i < 10 implies reads(#[trigger] slots[i], p.values()[i]) by {}
    let (s0, s1, s2, s3, s4) = (slots[0], slots[1], slots[2], slots[3], slots[4]);
    let (s5, s6, s7, s8, s9) = (slots[5], slots[6], slots[7], slots[8], slots[9]);
}

#[derive(Clone, Copy, Debug, PartialEq, Eq, Structural)]
pub struct Storage {
    pub pulses_a: u16,
    pub pulses_b: u16,
    pub extent: u16,
    pub interval: u16,
    pub len_a: u16,
    pub len_b: u16,
    pub logic: u8,
    pub einv: bool,
    pub muted: bool,
}

impl Storage {
    /// Every fader value lies on the scale.
    pub open spec fn valid(self) -> bool {
        &&& self.pulses_a <= 4095
        &&& self.pulses_b <= 4095
        &&& self.extent <= 4095
        &&& self.interval <= 4095
        &&& self.len_a <= 4095
        &&& self.len_b <= 4095
    }

    /// Setting behind a fader.
    pub open spec fn layer_value(self, chan: int, layer: LatchLayer) -> u16 {
        match layer {
            LatchLayer::Main => if chan == 0 { self.pulses_a } else { self.pulses_b },
            LatchLayer::Alt => if chan == 0 { self.extent } else { self.interval },
            LatchLayer::Third => if chan == 0 { self.len_a } else { self.len_b },
        }
    }

    /// Settings with the one behind a fader replaced.
    pub open spec fn with_layer(self, chan: int, layer: LatchLayer, v: u16) -> Storage {
        match layer {
            LatchLayer::Main => if chan == 0 {
                Storage { pulses_a: v, ..self }
            } else {
                Storage { pulses_b: v, ..self }
            },
            LatchLayer::Alt => if chan == 0 {
                Storage { extent: v, ..self }
            } else {
                Storage { interval: v, ..self }
            },
            LatchLayer::Third => if chan == 0 {
                Storage { len_a: v, ..self }
            } else {
                Storage { len_b: v, ..self }
            },
        }
    }
}

impl Default for Storage {
    /// About sixteen steps, seven and three pulses, about an octave of melody
    /// and a fifth above it.
    fn default() -> (r: Self)
        ensures
            r.valid(),
            r == (Storage {
                pulses_a: 1792,
                pulses_b: 768,
                extent: 2048,
                interval: 2389,
                len_a: 1840,
                len_b: 1840,
                logic: 0,
                einv: false,
                muted: false,
            }),
    {
        Storage {
            pulses_a: 1792,
            pulses_b: 768,
            extent: 2048,
            interval: 2389,
            len_a: 1840,
            len_b: 1840,
            logic: Logic::Or.index(),
            einv: false,
            muted: false,
        }
    }
}

/// A setting reads back what was stored through its fader, and no other fader
/// moves with it.
pub proof fn layers_are_separate(s: Storage, c1: int, c2: int, l1: LatchLayer, l2: LatchLayer, v: u16)
    requires
        0 <= c1 < 2,
        0 <= c2 < 2,
    ensures
        s.with_layer(c1, l1, v).layer_value(c1, l1) == v,
        c1 != c2 || l1 != l2 ==> s.with_layer(c1, l1, v).layer_value(c2, l2) == s.layer_value(
            c2,
            l2,
        ),
{
}

// ---------------------------------------------------------------------------
// The running app
// ---------------------------------------------------------------------------

/// The two layers and the melody, as the faders set them.
#[derive(Clone, Copy, Debug, PartialEq, Eq, Structural)]
pub struct Shape {
    pub len_a: u8,
    pub len_b: u8,
    pub pulses_a: u8,
    pub pulses_b: u8,
    pub extent: u8,
    pub interval: u8,
}

impl Shape {
    pub open spec fn wf(self) -> bool {
        &&& 2 <= self.len_a <= 32
        &&& 2 <= self.len_b <= 32
        &&& self.pulses_a <= self.len_a
        &&& self.pulses_b <= self.len_b
        &&& self.extent <= 24
        &&& self.interval <= 12
    }

    /// Shape of the stored settings.
    pub open spec fn of(s: Storage) -> Shape {
        Shape {
            len_a: length_of(s.len_a as int) as u8,
            len_b: length_of(s.len_b as int) as u8,
            pulses_a: pulses_of(s.pulses_a as int, length_of(s.len_a as int)) as u8,
            pulses_b: pulses_of(s.pulses_b as int, length_of(s.len_b as int)) as u8,
            extent: extent_of(s.extent as int) as u8,
            interval: interval_of(s.interval as int) as u8,
        }
    }

    pub fn from_storage(s: &Storage) -> (r: Self)
        requires
            s.valid(),
        ensures
            r == Shape::of(*s),
            r.wf(),
    {
        let len_a: u8 = length_from_fader(s.len_a);
        let len_b: u8 = length_from_fader(s.len_b);
        Shape {
            len_a,
            len_b,
            pulses_a: pulses_from_fader(s.pulses_a, len_a),
            pulses_b: pulses_from_fader(s.pulses_b, len_b),
            extent: extent_from_fader(s.extent),
            interval: interval_from_fader(s.interval),
        }
    }
}

/// The two voices and where the clock stands.
#[derive(Clone, Copy, Debug, PartialEq, Eq, Structural)]
pub struct Voices {
    pub sounding_a: u8,
    pub sounding_b: u8,
    pub on_a: bool,
    pub on_b: bool,
    pub last_step: Option<u32>,
    pub gate_off_done: bool,
    pub last_cycle: Option<u32>,
    /// Root of the melody in this cycle.
    pub root: u8,
}

/// State of the app between events.
pub struct Venn {
    pub div: u32,
    pub gatel: i32,
    pub prob: i32,
    pub vel: i32,
    pub color: Color,
    pub store: Storage,
    pub logic: Logic,
    pub layer: LatchLayer,
    pub shape: Shape,
    pub voices: Voices,
    /// Degrees of the scale in this cycle.
    pub pcs: heapless::Vec<u8, 12>,
    pub hit_a: u16,
    pub hit_b: u16,
    pub btn_flash: u16,
    pub fade: u16,
    /// The fade goes from dark to white.
    pub fade_up: bool,
    pub fader_moved: bool,
    pub start_0: u16,
    pub start_1: u16,
}

/// What comes from outside at a step: the hits of both layers, the root and
/// scale of the device, and rolls of the die for both probabilities and both
/// velocities.
#[derive(Clone, Copy, Debug, PartialEq, Eq, Structural)]
pub struct StepIn {
    pub a: bool,
    pub b: bool,
    pub root: u8,
    pub mask: u16,
    pub prob_roll_a: u16,
    pub prob_roll_b: u16,
    pub vel_roll_a: u16,
    pub vel_roll_b: u16,
}

pub open spec fn lit(chan: usize, led: Led, color: Color, bright: Brightness) -> Act {
    Act::Light { chan, led, color, bright }
}

/// Second button of a state that is muted or not.
pub open spec fn mute_light(muted: bool, color: Color) -> Act {
    if muted {
        Act::Dark { chan: 1, led: Led::Button }
    } else {
        lit(1, Led::Button, color, Brightness::Mid)
    }
}

fn mute_act(muted: bool, color: Color) -> (a: Act)
    ensures
        a == mute_light(muted, color),
{
    if muted {
        Act::Dark { chan: 1, led: Led::Button }
    } else {
        Act::Light { chan: 1, led: Led::Button, color, bright: Brightness::Mid }
    }
}

impl Venn {
    pub open spec fn wf(self) -> bool {
        &&& 2 <= self.div <= 384
        &&& 0 <= self.gatel
        &&& self.div * self.gatel <= u32::MAX
        &&& 4095 * self.vel <= u32::MAX
        &&& self.store.valid()
        &&& self.shape.wf()
        &&& 1 <= degree_list(self.pcs).len() <= 12
        &&& self.fade <= EINVERT_FADE_MS
    }

    /// Start with the stored settings and the configured interval. `root` and
    /// `mask` are the device's root and scale, and `note_b` is the note that
    /// counts as played by the second voice before anything has been.
    pub fn new(params: Params, store: Storage, root: u8, mask: u16, note_b: u8) -> (r: (Self, Vec<Act>))
        requires
            params.valid(),
            store.valid(),
            0 <= params.gatel,
            div_of(params.division as int) * params.gatel <= u32::MAX,
            4095 * params.vel <= u32::MAX,
        ensures
            r.0.wf(),
            r.0.div == div_of(params.division as int),
            r.0.gatel == params.gatel && r.0.prob == params.prob && r.0.vel == params.vel,
            r.0.color == params.color && r.0.store == store,
            r.0.logic == Logic::at(store.logic as int),
            r.0.shape == (Shape { interval: params.interval_b as u8, ..Shape::of(store) }),
            r.0.voices == (Voices {
                sounding_a: params.note_a,
                sounding_b: note_b,
                on_a: false,
                on_b: false,
                last_step: None,
                gate_off_done: true,
                last_cycle: None,
                root,
            }),
            degree_list(r.0.pcs) == degrees(mask),
            r.0.fade == 0 && r.0.btn_flash == 0 && r.0.hit_a == 0 && r.0.hit_b == 0,
            r.0.layer == LatchLayer::Main && !r.0.fade_up && !r.0.fader_moved,
            r.0.start_0 == 0 && r.0.start_1 == 0,
            r.1@ == seq![
                lit(0, Led::Button, Logic::at(store.logic as int).hue(), Brightness::Mid),
                mute_light(store.muted, params.color),
            ],
    {
        proof {
            degrees_ascend(mask);
        }
        let logic = Logic::from_u8(store.logic);
        let shape = Shape::from_storage(&store);
        let s = Venn {
            div: div_from_param(params.division),
            gatel: params.gatel,
            prob: params.prob,
            vel: params.vel,
            color: params.color,
            store,
            logic,
            layer: LatchLayer::Main,
            shape: Shape { interval: params.interval_b as u8, ..shape },
            voices: Voices {
                sounding_a: params.note_a,
                sounding_b: note_b,
                on_a: false,
                on_b: false,
                last_step: None,
                gate_off_done: true,
                last_cycle: None,
                root,
            },
            pcs: scale_pcs(mask),
            hit_a: 0,
            hit_b: 0,
            btn_flash: 0,
            fade: 0,
            fade_up: false,
            fader_moved: false,
            start_0: 0,
            start_1: 0,
        };
        let mut acts = one(
            Act::Light {
                chan: 0,
                led: Led::Button,
                color: logic.color(),
                bright: Brightness::Mid,
            },
        );
        acts.push(mute_act(store.muted, params.color));
        assert(acts@ =~= seq![
            lit(0, Led::Button, Logic::at(store.logic as int).hue(), Brightness::Mid),
            mute_light(store.muted, params.color),
        ]);
        (s, acts)
    }

    /// A probability below 100 lets a hit pass where the die does not roll
    /// above it.
    pub open spec fn passes(self, roll: int) -> bool {
        self.prob >= 100 || roll <= clamp_int(self.prob as int, 0, 100) * 4095 / 100
    }

    /// Both outputs of a step.
    pub open spec fn outs(self, i: StepIn) -> (bool, bool) {
        let (x, y) = self.logic.outs(i.a, i.b);
        (
            (x != self.store.einv) && self.passes(i.prob_roll_a as int),
            (y != self.store.einv) && self.passes(i.prob_roll_b as int),
        )
    }

    fn decide(&self, i: StepIn) -> (r: (bool, bool))
        ensures
            r == self.outs(i),
    {
        let (mut x, mut y) = self.logic.combine(i.a, i.b);
        if self.store.einv {
            x = !x;
            y = !y;
        }
        if self.prob < 100 {
            let p: u32 = if self.prob < 0 { 0 } else { self.prob as u32 };
            let thr: u16 = (p * 4095 / 100) as u16;
            if x && i.prob_roll_a > thr {
                x = false;
            }
            if y && i.prob_roll_b > thr {
                y = false;
            }
        }
        (x, y)
    }

    /// Whether the next step needs the device's root and scale: they are taken
    /// over at the start of each cycle of layer A.
    pub fn needs_key(&self, clk: u32) -> (r: bool)
        requires
            self.wf(),
        ensures
            r == (self.voices.last_cycle != Some(
                (clk as int / self.div as int / self.shape.len_a as int) as u32,
            )),
    {
        let cycle: u32 = clk / self.div / self.shape.len_a as u32;
        match self.voices.last_cycle {
            Some(c) => c != cycle,
            None => true,
        }
    }

    /// Root and degrees that a step uses.
    pub open spec fn key_at(self, step: int, i: StepIn) -> (u8, Seq<u8>) {
        if self.voices.last_cycle != Some((step / self.shape.len_a as int) as u32) {
            (i.root, degrees(i.mask))
        } else {
            (self.voices.root, degree_list(self.pcs))
        }
    }

    /// Both notes of a step: the melody, and the interval above it.
    pub open spec fn lines(self, step: int, i: StepIn) -> (u8, u8) {
        let (root, pcs) = self.key_at(step, i);
        let deg = arch(step, self.shape.len_a as int, self.shape.extent as int);
        (
            note_at(root as int, pcs, deg) as u8,
            note_at(root as int, pcs, deg + self.shape.interval) as u8,
        )
    }

    /// Acts of a step: the notes and gates, then the flashes.
    pub open spec fn step_acts(self, step: int, i: StepIn) -> Seq<Act> {
        let (x, y) = self.outs(i);
        let (line_a, line_b) = self.lines(step, i);
        let sounds = !self.store.muted;
        let main = self.layer == LatchLayer::Main;
        hit_if(
            sounds && x,
            line_a,
            spread_velocity(4095, self.vel as int, i.vel_roll_a as int) as u16,
            0,
        ) + hit_if(
            sounds && y,
            line_b,
            spread_velocity(4095, self.vel as int, i.vel_roll_b as int) as u16,
            1,
        ) + flash_if(main && i.a, 0, Led::Top, self.color) + flash_if(
            main && i.b,
            1,
            Led::Top,
            complement(self.color),
        ) + flash_if(main && x && sounds, 0, Led::Bottom, self.logic.hue()) + flash_if(
            main && y && sounds,
            1,
            Led::Bottom,
            self.logic.hue(),
        )
    }

    /// Voices after a step.
    pub open spec fn step_voices(self, step: int, i: StepIn) -> Voices {
        let (x, y) = self.outs(i);
        let (line_a, line_b) = self.lines(step, i);
        let sounds = !self.store.muted;
        Voices {
            sounding_a: if sounds && x { line_a } else { self.voices.sounding_a },
            sounding_b: if sounds && y { line_b } else { self.voices.sounding_b },
            on_a: self.voices.on_a || (sounds && x),
            on_b: self.voices.on_b || (sounds && y),
            last_step: Some(step as u32),
            gate_off_done: false,
            last_cycle: Some((step / self.shape.len_a as int) as u32),
            root: self.key_at(step, i).0,
        }
    }

    fn refresh_key(&mut self, step: u32, i: StepIn)
        requires
            old(self).wf(),
        ensures
            final(self).wf(),
            degree_list(final(self).pcs) == old(self).key_at(step as int, i).1,
            *final(self) == (Venn {
                pcs: final(self).pcs,
                voices: (Voices {
                    last_cycle: Some((step as int / old(self).shape.len_a as int) as u32),
                    root: old(self).key_at(step as int, i).0,
                    ..old(self).voices
                }),
                ..*old(self)
            }),
    {
        let cycle: u32 = step / self.shape.len_a as u32;
        let same = match self.voices.last_cycle {
            Some(c) => c == cycle,
            None => false,
        };
        if !same {
            proof {
                degrees_ascend(i.mask);
            }
            self.pcs = scale_pcs(i.mask);
            self.voices.root = i.root;
        }
        self.voices.last_cycle = Some(cycle);
    }

    fn play_step(&mut self, step: u32, i: StepIn) -> (acts: Vec<Act>)
        requires
            old(self).wf(),
        ensures
            final(self).wf(),
            acts@ == old(self).step_acts(step as int, i),
            degree_list(final(self).pcs) == old(self).key_at(step as int, i).1,
            *final(self) == (Venn {
                pcs: final(self).pcs,
                voices: old(self).step_voices(step as int, i),
                hit_a: if i.a { BUTTON_HIT_FLASH_MS } else { old(self).hit_a },
                hit_b: if i.b && !old(self).store.muted { BUTTON_HIT_FLASH_MS } else {
                    old(self).hit_b
                },
                ..*old(self)
            }),
    {
        let ghost s0 = *self;
        let (x, y) = self.decide(i);
        self.refresh_key(step, i);
        let (line_a, line_b) = self.step_lines(step);
        assert((line_a, line_b) == s0.lines(step as int, i));
        let sounds = !self.store.muted;
        let vel_a: u16 = midi_velocity(4095, self.vel, i.vel_roll_a);
        let vel_b: u16 = midi_velocity(4095, self.vel, i.vel_roll_b);
        let main = match self.layer {
            LatchLayer::Main => true,
            _ => false,
        };
        let mut acts: Vec<Act> = Vec::new();
        assert(acts@ =~= Seq::<Act>::empty());
        push_hit(&mut acts, sounds && x, line_a, vel_a, 0);
        push_hit(&mut acts, sounds && y, line_b, vel_b, 1);
        push_flash(&mut acts, main && i.a, 0, Led::Top, self.color);
        push_flash(&mut acts, main && i.b, 1, Led::Top, complement_color(self.color));
        push_flash(&mut acts, main && x && sounds, 0, Led::Bottom, self.logic.color());
        push_flash(&mut acts, main && y && sounds, 1, Led::Bottom, self.logic.color());
        assert(acts@ =~= s0.step_acts(step as int, i));
        let v = self.voices;
        self.voices = Voices {
            sounding_a: if sounds && x { line_a } else { v.sounding_a },
            sounding_b: if sounds && y { line_b } else { v.sounding_b },
            on_a: v.on_a || (sounds && x),
            on_b: v.on_b || (sounds && y),
            last_step: Some(step),
            gate_off_done: false,
            last_cycle: v.last_cycle,
            root: v.root,
        };
        self.hit_a = if i.a { BUTTON_HIT_FLASH_MS } else { self.hit_a };
        self.hit_b = if i.b && sounds { BUTTON_HIT_FLASH_MS } else { self.hit_b };
        acts
    }

    fn step_lines(&self, step: u32) -> (r: (u8, u8))
        requires
            self.wf(),
        ensures
            r.0 == note_at(
                self.voices.root as int,
                degree_list(self.pcs),
                arch(step as int, self.shape.len_a as int, self.shape.extent as int),
            ),
            r.1 == note_at(
                self.voices.root as int,
                degree_list(self.pcs),
                arch(step as int, self.shape.len_a as int, self.shape.extent as int)
                    + self.shape.interval,
            ),
    {
        let deg: u16 = melody_degree(step, self.shape.len_a, self.shape.extent) as u16;
        let root: u8 = self.voices.root;
        (
            midi_at_degree(root, &self.pcs, deg),
            midi_at_degree(root, &self.pcs, deg + self.shape.interval as u16),
        )
    }

    /// Tick of a step at which the gates close.
    pub open spec fn gate_tick(self) -> int {
        clamp_int(self.div * self.gatel / 100, 1, self.div - 1)
    }

    /// The gates close at this tick. A tick that was missed is made up for.
    pub open spec fn closes(self, clk: int) -> bool {
        !self.voices.gate_off_done && clk % self.div as int >= self.gate_tick()
    }

    /// Acts that end the voices that sound.
    pub open spec fn off_acts(v: Voices) -> Seq<Act> {
        (if v.on_a {
            seq![Act::NoteOff { out: 0, note: v.sounding_a }, Act::GateLow { jack: 0 }]
        } else {
            Seq::empty()
        }) + (if v.on_b {
            seq![Act::NoteOff { out: 0, note: v.sounding_b }, Act::GateLow { jack: 1 }]
        } else {
            Seq::empty()
        })
    }

    fn close_gates(&mut self, clk: u32) -> (acts: Vec<Act>)
        requires
            old(self).wf(),
        ensures
            final(self).wf(),
            acts@ == if old(self).closes(clk as int) {
                Venn::off_acts(old(self).voices)
            } else {
                Seq::empty()
            },
            *final(self) == (Venn {
                voices: if old(self).closes(clk as int) {
                    Voices { gate_off_done: true, on_a: false, on_b: false, ..old(self).voices }
                } else {
                    old(self).voices
                },
                ..*old(self)
            }),
    {
        let ghost s0 = *self;
        let mut acts: Vec<Act> = Vec::new();
        let (d, g): (u32, u32) = (self.div, self.gatel as u32);
        assert(0 <= d * g) by (nonlinear_arith)
            requires
                0 <= d,
                0 <= g,
        ;
        let len: u32 = d * g / 100;
        let off: u32 = if len < 1 {
            1
        } else if len > d - 1 {
            d - 1
        } else {
            len
        };
        assert(off == self.gate_tick());
        if !self.voices.gate_off_done && clk % self.div >= off {
            if self.voices.on_a {
                acts.push(Act::NoteOff { out: 0, note: self.voices.sounding_a });
                acts.push(Act::GateLow { jack: 0 });
            }
            if self.voices.on_b {
                acts.push(Act::NoteOff { out: 0, note: self.voices.sounding_b });
                acts.push(Act::GateLow { jack: 1 });
            }
            self.voices.gate_off_done = true;
            self.voices.on_a = false;
            self.voices.on_b = false;
            assert(acts@ =~= Venn::off_acts(s0.voices));
        }
        acts
    }

    /// A clock tick begins a step that has not been played yet.
    pub open spec fn steps(self, clk: int) -> bool {
        self.voices.last_step != Some((clk / self.div as int) as u32)
    }

    /// Voices after the step of a tick, where it begins one.
    pub open spec fn mid_voices(self, clk: int, i: StepIn) -> Voices {
        if self.steps(clk) {
            self.step_voices(clk / self.div as int, i)
        } else {
            self.voices
        }
    }

    /// A clock tick.
    pub fn on_tick(&mut self, clk: u32, i: StepIn) -> (acts: Vec<Act>)
        requires
            old(self).wf(),
        ensures
            final(self).wf(),
            ({
                let new = old(self).steps(clk as int);
                let step = clk as int / old(self).div as int;
                let mid = old(self).mid_voices(clk as int, i);
                let ends = Venn { voices: mid, ..*old(self) }.closes(clk as int);
                &&& acts@ == (if new { old(self).step_acts(step, i) } else { Seq::empty() }) + (
                if ends { Venn::off_acts(mid) } else { Seq::empty() })
                &&& degree_list(final(self).pcs) == if new {
                    old(self).key_at(step, i).1
                } else {
                    degree_list(old(self).pcs)
                }
                &&& *final(self) == (Venn {
                    pcs: final(self).pcs,
                    voices: if ends {
                        Voices { gate_off_done: true, on_a: false, on_b: false, ..mid }
                    } else {
                        mid
                    },
                    hit_a: if new && i.a { BUTTON_HIT_FLASH_MS } else { old(self).hit_a },
                    hit_b: if new && i.b && !old(self).store.muted { BUTTON_HIT_FLASH_MS } else {
                        old(self).hit_b
                    },
                    ..*old(self)
                })
            }),
    {
        let ghost s0 = *self;
        let step: u32 = clk / self.div;
        let same = match self.voices.last_step {
            Some(s) => s == step,
            None => false,
        };
        let mut acts: Vec<Act> = if same {
            Vec::new()
        } else {
            self.play_step(step, i)
        };
        assert(self.voices == s0.mid_voices(clk as int, i));
        let offs = self.close_gates(clk);
        push_all(&mut acts, offs);
        acts
    }

    /// The clock stops or is reset: everything is silenced.
    pub fn on_stop(&mut self) -> (acts: Vec<Act>)
        requires
            old(self).wf(),
        ensures
            final(self).wf(),
            acts@ == seq![
                Act::NoteOff { out: 0, note: old(self).voices.sounding_a },
                Act::NoteOff { out: 0, note: old(self).voices.sounding_b },
                Act::GateLow { jack: 0 },
                Act::GateLow { jack: 1 },
                Act::Dark { chan: 0, led: Led::Top },
                Act::Dark { chan: 1, led: Led::Top },
                Act::Dark { chan: 0, led: Led::Bottom },
                Act::Dark { chan: 1, led: Led::Bottom },
            ],
            *final(self) == (Venn {
                voices: (Voices {
                    last_step: None,
                    gate_off_done: true,
                    on_a: false,
                    on_b: false,
                    ..old(self).voices
                }),
                ..*old(self)
            }),
    {
        let mut acts: Vec<Act> = Vec::new();
        acts.push(Act::NoteOff { out: 0, note: self.voices.sounding_a });
        acts.push(Act::NoteOff { out: 0, note: self.voices.sounding_b });
        acts.push(Act::GateLow { jack: 0 });
        acts.push(Act::GateLow { jack: 1 });
        acts.push(Act::Dark { chan: 0, led: Led::Top });
        acts.push(Act::Dark { chan: 1, led: Led::Top });
        acts.push(Act::Dark { chan: 0, led: Led::Bottom });
        acts.push(Act::Dark { chan: 1, led: Led::Bottom });
        self.voices.last_step = None;
        self.voices.gate_off_done = true;
        self.voices.on_a = false;
        self.voices.on_b = false;
        acts
    }
}

/// A note and its gate, where there is a hit.
pub open spec fn hit_if(on: bool, note: u8, vel: u16, jack: usize) -> Seq<Act> {
    if on { seq![Act::NoteOn { out: 0, note, vel }, Act::GateHigh { jack }] } else { Seq::empty() }
}

fn push_hit(acts: &mut Vec<Act>, on: bool, note: u8, vel: u16, jack: usize)
    ensures
        final(acts)@ == old(acts)@ + hit_if(on, note, vel, jack),
{
    let ghost a0 = acts@;
    if on {
        acts.push(Act::NoteOn { out: 0, note, vel });
        acts.push(Act::GateHigh { jack });
    }
    assert(acts@ =~= a0 + hit_if(on, note, vel, jack));
}

/// A flash, where it is asked for.
pub open spec fn flash_if(on: bool, chan: usize, led: Led, color: Color) -> Seq<Act> {
    if on { seq![Act::Flash { chan, led, color, times: 1 }] } else { Seq::empty() }
}

fn push_flash(acts: &mut Vec<Act>, on: bool, chan: usize, led: Led, color: Color)
    ensures
        final(acts)@ == old(acts)@ + flash_if(on, chan, led, color),
{
    let ghost a0 = acts@;
    if on {
        acts.push(Act::Flash { chan, led, color, times: 1 });
    }
    assert(acts@ =~= a0 + flash_if(on, chan, led, color));
}

/// Gates close inside their step: the closing tick is after the first and not
/// after the last of the step, and any later tick of the step closes a gate
/// that a missed tick has left open.
pub proof fn gates_close_inside_their_step(s: Venn, clk: int)
    requires
        s.wf(),
        !s.voices.gate_off_done,
    ensures
        1 <= s.gate_tick() < s.div,
        clk % s.div as int == s.div - 1 ==> s.closes(clk),
        s.closes(clk) == (clk % s.div as int >= s.gate_tick()),
{
}

/// An inversion swaps hits and rests on both outputs, where the probability
/// lets everything pass.
pub proof fn inversion_swaps_hits(s: Venn, t: Venn, i: StepIn)
    requires
        s.prob >= 100,
        t == (Venn { store: (Storage { einv: !s.store.einv, ..s.store }), ..s }),
    ensures
        t.outs(i).0 == !s.outs(i).0,
        t.outs(i).1 == !s.outs(i).1,
{
}

/// Whatever the device's key, both voices play MIDI notes, and the second never
/// lies below the root.
pub proof fn voices_are_playable(s: Venn, step: int, i: StepIn)
    requires
        s.wf(),
        0 <= step,
        s.key_at(step, i).0 <= 127,
    ensures
        s.key_at(step, i).0 <= s.lines(step, i).0 <= 127,
        s.key_at(step, i).0 <= s.lines(step, i).1 <= 127,
{
}

// ---------------------------------------------------------------------------
// Buttons, faders and scenes
// ---------------------------------------------------------------------------

impl Venn {
    /// A button goes down. With shift the first moves on to the next logic and
    /// the second inverts; without it the second begins a press that mutes
    /// unless a fader is moved.
    pub fn on_down(&mut self, chan: usize, shift: bool, fader_0: u16, fader_1: u16) -> (acts: Vec<Act>)
        requires
            old(self).wf(),
            chan < 2,
        ensures
            final(self).wf(),
            ({
                let next = old(self).logic.after();
                let einv = !old(self).store.einv;
                if shift && chan == 0 {
                    &&& acts@ == seq![
                        Act::Save,
                        Act::Flash { chan: 0, led: Led::Button, color: next.hue(), times: 2 },
                    ]
                    &&& *final(self) == (Venn {
                        logic: next,
                        store: (Storage { logic: next.number() as u8, ..old(self).store }),
                        btn_flash: BUTTON_FLASH_MS,
                        ..*old(self)
                    })
                } else if shift {
                    &&& acts@ == seq![Act::Save]
                    &&& *final(self) == (Venn {
                        store: (Storage { einv, ..old(self).store }),
                        hit_b: 0,
                        fade_up: !einv,
                        fade: EINVERT_FADE_MS,
                        ..*old(self)
                    })
                } else {
                    &&& acts@ == Seq::<Act>::empty()
                    &&& *final(self) == (Venn {
                        fader_moved: old(self).fader_moved && chan == 0,
                        start_0: if chan == 1 { fader_0 } else { old(self).start_0 },
                        start_1: if chan == 1 { fader_1 } else { old(self).start_1 },
                        ..*old(self)
                    })
                }
            }),
    {
        if shift && chan == 0 {
            let next = self.logic.next();
            self.logic = next;
            self.store.logic = next.index();
            self.btn_flash = BUTTON_FLASH_MS;
            let mut acts = one(Act::Save);
            acts.push(Act::Flash { chan: 0, led: Led::Button, color: next.color(), times: 2 });
            assert(acts@ =~= seq![
                Act::Save,
                Act::Flash { chan: 0, led: Led::Button, color: next.hue(), times: 2 },
            ]);
            acts
        } else if shift {
            let einv = !self.store.einv;
            self.store.einv = einv;
            self.hit_b = 0;
            self.fade_up = !einv;
            self.fade = EINVERT_FADE_MS;
            one(Act::Save)
        } else {
            if chan == 1 {
                self.fader_moved = false;
                self.start_0 = fader_0;
                self.start_1 = fader_1;
            }
            Vec::new()
        }
    }

    /// A fader has moved while the second button is held.
    pub fn on_hold_fader(&mut self, fader_0: u16, fader_1: u16)
        requires
            old(self).wf(),
        ensures
            final(self).wf(),
            *final(self) == (Venn {
                fader_moved: old(self).fader_moved || dist(
                    fader_0 as int,
                    old(self).start_0 as int,
                ) > FADER_MOVE_THRESH || dist(fader_1 as int, old(self).start_1 as int)
                    > FADER_MOVE_THRESH,
                ..*old(self)
            }),
    {
        if abs_diff(fader_0, self.start_0) > FADER_MOVE_THRESH || abs_diff(fader_1, self.start_1)
            > FADER_MOVE_THRESH {
            self.fader_moved = true;
        }
    }

    /// The second button goes up after a press without shift: it mutes, unless
    /// a fader was moved.
    pub fn on_up_1(&mut self) -> (acts: Vec<Act>)
        requires
            old(self).wf(),
        ensures
            final(self).wf(),
            ({
                let muted = !old(self).store.muted;
                let v = old(self).voices;
                if old(self).fader_moved {
                    *final(self) == *old(self) && acts@ == Seq::<Act>::empty()
                } else {
                    &&& *final(self) == (Venn {
                        store: (Storage { muted, ..old(self).store }),
                        ..*old(self)
                    })
                    &&& acts@ == seq![Act::Save] + (if muted {
                        seq![
                            Act::GateLow { jack: 0 },
                            Act::GateLow { jack: 1 },
                            Act::NoteOff { out: 0, note: v.sounding_a },
                            Act::NoteOff { out: 0, note: v.sounding_b },
                        ]
                    } else {
                        Seq::empty()
                    }) + seq![mute_light(muted, old(self).color)]
                }
            }),
    {
        let ghost s0 = *self;
        if self.fader_moved {
            return Vec::new();
        }
        self.store.muted = !self.store.muted;
        let mut acts = one(Act::Save);
        if self.store.muted {
            acts.push(Act::GateLow { jack: 0 });
            acts.push(Act::GateLow { jack: 1 });
            acts.push(Act::NoteOff { out: 0, note: self.voices.sounding_a });
            acts.push(Act::NoteOff { out: 0, note: self.voices.sounding_b });
        }
        acts.push(mute_act(self.store.muted, self.color));
        assert(acts@ =~= seq![Act::Save] + (if !s0.store.muted {
            seq![
                Act::GateLow { jack: 0 },
                Act::GateLow { jack: 1 },
                Act::NoteOff { out: 0, note: s0.voices.sounding_a },
                Act::NoteOff { out: 0, note: s0.voices.sounding_b },
            ]
        } else {
            Seq::empty()
        }) + seq![mute_light(!s0.store.muted, s0.color)]);
        acts
    }

    /// Value that a fader has to pass before it takes over.
    pub fn fader_target(&self, chan: usize) -> (r: u16)
        requires
            chan < 2,
        ensures
            r == self.store.layer_value(chan as int, self.layer),
    {
        match self.layer {
            LatchLayer::Main => if chan == 0 { self.store.pulses_a } else { self.store.pulses_b },
            LatchLayer::Alt => if chan == 0 { self.store.extent } else { self.store.interval },
            LatchLayer::Third => if chan == 0 { self.store.len_a } else { self.store.len_b },
        }
    }

    /// Shape after a fader has moved. A new length keeps the share of pulses.
    pub open spec fn shape_with(self, chan: int, v: int) -> Shape {
        let sh = self.shape;
        let st = self.store;
        match self.layer {
            LatchLayer::Main => if chan == 0 {
                Shape { pulses_a: pulses_of(v, sh.len_a as int) as u8, ..sh }
            } else {
                Shape { pulses_b: pulses_of(v, sh.len_b as int) as u8, ..sh }
            },
            LatchLayer::Alt => if chan == 0 {
                Shape { extent: extent_of(v) as u8, ..sh }
            } else {
                Shape { interval: interval_of(v) as u8, ..sh }
            },
            LatchLayer::Third => if chan == 0 {
                Shape {
                    len_a: length_of(v) as u8,
                    pulses_a: pulses_of(st.pulses_a as int, length_of(v)) as u8,
                    ..sh
                }
            } else {
                Shape {
                    len_b: length_of(v) as u8,
                    pulses_b: pulses_of(st.pulses_b as int, length_of(v)) as u8,
                    ..sh
                }
            },
        }
    }

    /// A fader has taken over its layer with a value.
    pub fn on_fader(&mut self, chan: usize, v: u16) -> (acts: Vec<Act>)
        requires
            old(self).wf(),
            chan < 2,
            v <= 4095,
        ensures
            final(self).wf(),
            acts@ == seq![Act::Save],
            *final(self) == (Venn {
                shape: old(self).shape_with(chan as int, v as int),
                store: old(self).store.with_layer(chan as int, old(self).layer, v),
                ..*old(self)
            }),
    {
        let mut sh = self.shape;
        let mut st = self.store;
        match self.layer {
            LatchLayer::Main => if chan == 0 {
                sh.pulses_a = pulses_from_fader(v, sh.len_a);
                st.pulses_a = v;
            } else {
                sh.pulses_b = pulses_from_fader(v, sh.len_b);
                st.pulses_b = v;
            },
            LatchLayer::Alt => if chan == 0 {
                sh.extent = extent_from_fader(v);
                st.extent = v;
            } else {
                sh.interval = interval_from_fader(v);
                st.interval = v;
            },
            LatchLayer::Third => {
                let len: u8 = length_from_fader(v);
                if chan == 0 {
                    sh.len_a = len;
                    sh.pulses_a = pulses_from_fader(st.pulses_a, len);
                    st.len_a = v;
                } else {
                    sh.len_b = len;
                    sh.pulses_b = pulses_from_fader(st.pulses_b, len);
                    st.len_b = v;
                }
            },
        }
        self.shape = sh;
        self.store = st;
        one(Act::Save)
    }

    /// The stored settings have been replaced by those of a scene.
    pub fn on_scene(&mut self, store: Storage) -> (acts: Vec<Act>)
        requires
            old(self).wf(),
            store.valid(),
        ensures
            final(self).wf(),
            *final(self) == (Venn {
                store,
                shape: Shape::of(store),
                logic: Logic::at(store.logic as int),
                ..*old(self)
            }),
            acts@ == seq![
                lit(0, Led::Button, Logic::at(store.logic as int).hue(), Brightness::Mid),
                mute_light(store.muted, old(self).color),
            ],
    {
        self.shape = Shape::from_storage(&store);
        self.logic = Logic::from_u8(store.logic);
        self.store = store;
        let mut acts = one(
            Act::Light {
                chan: 0,
                led: Led::Button,
                color: self.logic.color(),
                bright: Brightness::Mid,
            },
        );
        acts.push(mute_act(store.muted, self.color));
        assert(acts@ =~= seq![
            lit(0, Led::Button, Logic::at(store.logic as int).hue(), Brightness::Mid),
            mute_light(store.muted, self.color),
        ]);
        acts
    }
}

// ---------------------------------------------------------------------------
// LEDs
// ---------------------------------------------------------------------------

/// Components of the colours that lengths are shown in: the logic's colour and
/// its complement, the app's colour and its complement.
#[derive(Clone, Copy, Debug, PartialEq, Eq)]
pub struct Palette {
    pub logic: (u8, u8, u8),
    pub logic_to: (u8, u8, u8),
    pub app: (u8, u8, u8),
    pub app_to: (u8, u8, u8),
}

/// Shift alone selects the second layer, either button the third.
pub open spec fn venn_layer(shift: bool, b0: bool, b1: bool) -> LatchLayer {
    if shift && !b0 && !b1 {
        LatchLayer::Alt
    } else if !shift && (b0 || b1) {
        LatchLayer::Third
    } else {
        LatchLayer::Main
    }
}

impl Venn {
    /// Meters that go out as the layer changes.
    pub open spec fn leave_acts(self, layer: LatchLayer) -> Seq<Act> {
        if layer == self.layer {
            Seq::empty()
        } else {
            match layer {
                LatchLayer::Main => seq![
                    Act::Dark { chan: 0, led: Led::Top },
                    Act::Dark { chan: 1, led: Led::Top },
                    Act::Dark { chan: 0, led: Led::Bottom },
                    Act::Dark { chan: 1, led: Led::Bottom },
                ],
                LatchLayer::Alt => seq![
                    Act::Dark { chan: 0, led: Led::Bottom },
                    Act::Dark { chan: 1, led: Led::Bottom },
                ],
                LatchLayer::Third => Seq::empty(),
            }
        }
    }

    fn paint_leave(&self, layer: LatchLayer) -> (acts: Vec<Act>)
        ensures
            acts@ == self.leave_acts(layer),
    {
        let mut acts: Vec<Act> = Vec::new();
        if layer != self.layer {
            match layer {
                LatchLayer::Main => {
                    acts.push(Act::Dark { chan: 0, led: Led::Top });
                    acts.push(Act::Dark { chan: 1, led: Led::Top });
                    acts.push(Act::Dark { chan: 0, led: Led::Bottom });
                    acts.push(Act::Dark { chan: 1, led: Led::Bottom });
                },
                LatchLayer::Alt => {
                    acts.push(Act::Dark { chan: 0, led: Led::Bottom });
                    acts.push(Act::Dark { chan: 1, led: Led::Bottom });
                },
                LatchLayer::Third => {},
            }
        }
        assert(acts@ =~= self.leave_acts(layer));
        acts
    }

    pub open spec fn base_a(self) -> int {
        density_level(self.shape.pulses_a as int, self.shape.len_a as int)
    }

    pub open spec fn base_b(self) -> int {
        density_level(self.shape.pulses_b as int, self.shape.len_b as int)
    }

    /// Brightness of the fade that answers an inversion.
    pub open spec fn fade_level(self) -> int {
        if self.fade_up { (500 - self.fade) * 255 / 500 } else { self.fade * 255 / 500 }
    }

    /// The fade on the second button; as it ends the button comes back.
    pub open spec fn fade_acts(self) -> Seq<Act> {
        if self.fade == 0 {
            Seq::empty()
        } else {
            seq![lit(1, Led::Button, Color::White, Brightness::Custom(self.fade_level() as u8))] + (
            if self.fade > 1 {
                Seq::empty()
            } else {
                seq![
                    if self.store.muted {
                        Act::Dark { chan: 1, led: Led::Button }
                    } else {
                        lit(1, Led::Button, self.color, Brightness::Custom(self.base_b() as u8))
                    },
                ]
            })
        }
    }

    fn paint_fade(&self) -> (acts: Vec<Act>)
        requires
            self.wf(),
        ensures
            acts@ == self.fade_acts(),
    {
        let mut acts: Vec<Act> = Vec::new();
        if self.fade > 0 {
            let part: u32 = if self.fade_up { 500 - self.fade as u32 } else { self.fade as u32 };
            acts.push(
                Act::Light {
                    chan: 1,
                    led: Led::Button,
                    color: Color::White,
                    bright: Brightness::Custom((part * 255 / 500) as u8),
                },
            );
            if self.fade == 1 {
                if self.store.muted {
                    acts.push(Act::Dark { chan: 1, led: Led::Button });
                } else {
                    proof {
                        density_has_level(self.shape.pulses_b as int, self.shape.len_b as int);
                    }
                    let base: u8 = button_density_bright(self.shape.pulses_b, self.shape.len_b);
                    acts.push(
                        Act::Light {
                            chan: 1,
                            led: Led::Button,
                            color: self.color,
                            bright: Brightness::Custom(base),
                        },
                    );
                }
            }
        }
        assert(acts@ =~= self.fade_acts());
        acts
    }

    /// The second button in a colour, unless a fade has it.
    pub open spec fn second_button(self, color: Color, level: int) -> Seq<Act> {
        if self.fade > 0 {
            Seq::empty()
        } else if self.store.muted {
            seq![Act::Dark { chan: 1, led: Led::Button }]
        } else {
            seq![lit(1, Led::Button, color, Brightness::Custom(level as u8))]
        }
    }

    fn push_second(&self, acts: &mut Vec<Act>, color: Color, level: u8)
        ensures
            final(acts)@ == old(acts)@ + self.second_button(color, level as int),
    {
        let ghost a0 = acts@;
        if self.fade == 0 {
            if self.store.muted {
                acts.push(Act::Dark { chan: 1, led: Led::Button });
            } else {
                acts.push(
                    Act::Light {
                        chan: 1,
                        led: Led::Button,
                        color,
                        bright: Brightness::Custom(level),
                    },
                );
            }
        }
        assert(acts@ =~= a0 + self.second_button(color, level as int));
    }

    pub open spec fn level_a(self) -> int {
        if self.hit_a > 0 { dipped(self.base_a()) } else { self.base_a() }
    }

    pub open spec fn level_b(self) -> int {
        if self.hit_b > 0 { dipped(self.base_b()) } else { self.base_b() }
    }

    /// Lights of a layer. While the logic's flash plays it has the first button,
    /// and the meters wait.
    pub open spec fn layer_acts(self, layer: LatchLayer, p: Palette) -> Seq<Act> {
        let sh = self.shape;
        let flash = self.btn_flash > 0;
        match layer {
            LatchLayer::Main => (if flash {
                Seq::empty()
            } else {
                seq![
                    lit(
                        0,
                        Led::Button,
                        self.logic.hue(),
                        Brightness::Custom(self.level_a() as u8),
                    ),
                ]
            }) + self.second_button(self.color, self.level_b()),
            LatchLayer::Alt => if flash {
                Seq::empty()
            } else {
                let ba = Brightness::Custom(meter_level(sh.extent as int, 24) as u8);
                let bb = meter_level(sh.interval as int, 12);
                seq![
                    lit(0, Led::Top, self.color, ba),
                    lit(1, Led::Top, complement(self.color), Brightness::Custom(bb as u8)),
                    lit(0, Led::Button, self.logic.hue(), ba),
                ] + self.second_button(self.color, bb)
            },
            LatchLayer::Third => if flash {
                Seq::empty()
            } else {
                let ca = length_hue(
                    sh.len_a as int,
                    self.logic.hue() == Color::White,
                    p.logic,
                    p.logic_to,
                );
                let cb = length_hue(
                    sh.len_b as int,
                    self.color == Color::White,
                    p.app,
                    p.app_to,
                );
                let ba = Brightness::Custom(meter_level(sh.len_a - 2, 30) as u8);
                let bb = meter_level(sh.len_b - 2, 30);
                seq![
                    lit(0, Led::Top, ca, ba),
                    lit(1, Led::Top, cb, Brightness::Custom(bb as u8)),
                    lit(0, Led::Bottom, ca, Brightness::Mid),
                    lit(1, Led::Bottom, cb, Brightness::Mid),
                    lit(0, Led::Button, ca, ba),
                ] + self.second_button(cb, bb)
            },
        }
    }

    fn paint_main(&self, p: Palette) -> (acts: Vec<Act>)
        requires
            self.wf(),
        ensures
            acts@ == self.layer_acts(LatchLayer::Main, p),
    {
        let mut acts: Vec<Act> = Vec::new();
        proof {
            density_has_level(self.shape.pulses_a as int, self.shape.len_a as int);
            density_has_level(self.shape.pulses_b as int, self.shape.len_b as int);
        }
        let a: u8 = button_density_bright(self.shape.pulses_a, self.shape.len_a);
        let a: u8 = if self.hit_a > 0 { hit_dip_bright(a) } else { a };
        let b: u8 = button_density_bright(self.shape.pulses_b, self.shape.len_b);
        let b: u8 = if self.hit_b > 0 { hit_dip_bright(b) } else { b };
        if self.btn_flash == 0 {
            acts.push(
                Act::Light {
                    chan: 0,
                    led: Led::Button,
                    color: self.logic.color(),
                    bright: Brightness::Custom(a),
                },
            );
        }
        let ghost a1 = acts@;
        self.push_second(&mut acts, self.color, b);
        assert(acts@ =~= self.layer_acts(LatchLayer::Main, p));
        acts
    }

    fn paint_alt(&self, p: Palette) -> (acts: Vec<Act>)
        requires
            self.wf(),
        ensures
            acts@ == self.layer_acts(LatchLayer::Alt, p),
    {
        let mut acts: Vec<Act> = Vec::new();
        if self.btn_flash > 0 {
            return acts;
        }
        let a = Brightness::Custom(extent_meter_bright(self.shape.extent));
        let b: u8 = interval_meter_bright(self.shape.interval);
        acts.push(Act::Light { chan: 0, led: Led::Top, color: self.color, bright: a });
        acts.push(
            Act::Light {
                chan: 1,
                led: Led::Top,
                color: complement_color(self.color),
                bright: Brightness::Custom(b),
            },
        );
        acts.push(Act::Light { chan: 0, led: Led::Button, color: self.logic.color(), bright: a });
        self.push_second(&mut acts, self.color, b);
        assert(acts@ =~= self.layer_acts(LatchLayer::Alt, p));
        acts
    }

    fn paint_third(&self, p: Palette) -> (acts: Vec<Act>)
        requires
            self.wf(),
        ensures
            acts@ == self.layer_acts(LatchLayer::Third, p),
    {
        let mut acts: Vec<Act> = Vec::new();
        if self.btn_flash > 0 {
            return acts;
        }
        let logic_white = self.logic.color() == Color::White;
        let ca = length_grad_color(self.shape.len_a, logic_white, p.logic, p.logic_to);
        let cb = length_grad_color(self.shape.len_b, self.color == Color::White, p.app, p.app_to);
        let a = Brightness::Custom(len_meter_bright(self.shape.len_a));
        let b: u8 = len_meter_bright(self.shape.len_b);
        acts.push(Act::Light { chan: 0, led: Led::Top, color: ca, bright: a });
        acts.push(
            Act::Light { chan: 1, led: Led::Top, color: cb, bright: Brightness::Custom(b) },
        );
        acts.push(Act::Light { chan: 0, led: Led::Bottom, color: ca, bright: Brightness::Mid });
        acts.push(Act::Light { chan: 1, led: Led::Bottom, color: cb, bright: Brightness::Mid });
        acts.push(Act::Light { chan: 0, led: Led::Button, color: ca, bright: a });
        self.push_second(&mut acts, cb, b);
        assert(acts@ =~= self.layer_acts(LatchLayer::Third, p));
        acts
    }

    /// One millisecond of the panel.
    pub fn on_frame(&mut self, shift: bool, b0: bool, b1: bool, p: Palette) -> (acts: Vec<Act>)
        requires
            old(self).wf(),
        ensures
            final(self).wf(),
            ({
                let layer = venn_layer(shift, b0, b1);
                &&& acts@ == old(self).leave_acts(layer) + old(self).fade_acts() + old(
                    self,
                ).layer_acts(layer, p)
                &&& *final(self) == (Venn {
                    layer,
                    btn_flash: max_int(old(self).btn_flash - 1, 0) as u16,
                    hit_a: max_int(old(self).hit_a - 1, 0) as u16,
                    hit_b: max_int(old(self).hit_b - 1, 0) as u16,
                    fade: max_int(old(self).fade - 1, 0) as u16,
                    ..*old(self)
                })
            }),
    {
        let layer = if shift && !b0 && !b1 {
            LatchLayer::Alt
        } else if !shift && (b0 || b1) {
            LatchLayer::Third
        } else {
            LatchLayer::Main
        };
        let mut acts = self.paint_leave(layer);
        let fade = self.paint_fade();
        push_all(&mut acts, fade);
        let lights = match layer {
            LatchLayer::Main => self.paint_main(p),
            LatchLayer::Alt => self.paint_alt(p),
            LatchLayer::Third => self.paint_third(p),
        };
        push_all(&mut acts, lights);
        self.layer = layer;
        self.btn_flash = self.btn_flash.saturating_sub(1);
        self.hit_a = self.hit_a.saturating_sub(1);
        self.hit_b = self.hit_b.saturating_sub(1);
        self.fade = self.fade.saturating_sub(1);
        acts
    }
}

} // verus!
