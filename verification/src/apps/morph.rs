//! Morph wave engine.
//!
//! One fader sweeps a continuum of waveform nodes, from soft waves to stepped
//! and chaotic ones: sine, triangle, saw, square, walk, sample and hold,
//! noise. Between two nodes the samples are mixed.

use crate::apps::led_fx::{custom, hsv_to_rgb, pure_hue, sector_rgb};
use crate::panel::{clamp_int, div_toward_zero, min_int, quot, Color};
use vstd::prelude::*;

verus! {

/// Nodes of the continuum.
pub const MORPH_NODES: usize = 7;

/// Fader travel between two nodes.
pub const SEGMENT: usize = 682;

/// Hue (degrees) of each node.
pub const NODE_HUES: [u16; 7] = [0, 45, 90, 135, 180, 225, 270];

/// State of the stepped and wandering nodes, one for each oscillator.
#[derive(Clone, Copy, Debug, PartialEq, Eq, Structural)]
pub struct MorphChaos {
    pub walk_a: i32,
    pub walk_b: i32,
    pub sh_a: u16,
    pub sh_b: u16,
    pub sh_bucket_a: u16,
    pub sh_bucket_b: u16,
}

pub open spec fn walked(walk: int, roll: int) -> int {
    clamp_int(walk + roll % 7 - 3, 0, 4095)
}

impl MorphChaos {
    /// The walks stay on the scale.
    pub open spec fn wf(self) -> bool {
        0 <= self.walk_a <= 4095 && 0 <= self.walk_b <= 4095
    }

    pub fn new() -> (r: Self)
        ensures
            r == (MorphChaos {
                walk_a: 2048,
                walk_b: 2048,
                sh_a: 2048,
                sh_b: 2048,
                sh_bucket_a: 0xffff,
                sh_bucket_b: 0xffff,
            }),
            r.wf(),
    {
        MorphChaos {
            walk_a: 2048,
            walk_b: 2048,
            sh_a: 2048,
            sh_b: 2048,
            sh_bucket_a: 0xffff,
            sh_bucket_b: 0xffff,
        }
    }

    /// Let both walks drift by up to three, as two rolls of the die say.
    pub fn tick_walks(&mut self, roll_a: u16, roll_b: u16)
        requires
            old(self).wf(),
        ensures
            final(self).wf(),
            *final(self) == (MorphChaos {
                walk_a: walked(old(self).walk_a as int, roll_a as int) as i32,
                walk_b: walked(old(self).walk_b as int, roll_b as int) as i32,
                ..*old(self)
            }),
    {
        let a: i32 = self.walk_a + (roll_a % 7) as i32 - 3;
        let b: i32 = self.walk_b + (roll_b % 7) as i32 - 3;
        self.walk_a = if a < 0 {
            0
        } else if a > 4095 {
            4095
        } else {
            a
        };
        self.walk_b = if b < 0 {
            0
        } else if b > 4095 {
            4095
        } else {
            b
        };
    }
}

/// State and sample of a chaotic node. The hold takes a new level in every
/// sixteenth of the cycle.
pub open spec fn chaos_at(c: MorphChaos, node: int, phase: int, osc: int, roll: u16) -> (
    MorphChaos,
    u16,
) {
    let bucket = (phase / 256) as u16;
    if node == 4 {
        (c, if osc == 0 { c.walk_a as u16 } else { c.walk_b as u16 })
    } else if node == 5 {
        if osc == 0 {
            if bucket != c.sh_bucket_a {
                (MorphChaos { sh_bucket_a: bucket, sh_a: roll, ..c }, roll)
            } else {
                (c, c.sh_a)
            }
        } else {
            if bucket != c.sh_bucket_b {
                (MorphChaos { sh_bucket_b: bucket, sh_b: roll, ..c }, roll)
            } else {
                (c, c.sh_b)
            }
        }
    } else {
        (c, roll)
    }
}

/// Sample of a chaotic node; `roll` is the die's next roll, used where the
/// node needs one.
pub fn chaos_sample(node: usize, phase: usize, osc: usize, chaos: &mut MorphChaos, roll: u16) -> (r:
    u16)
    ensures
        (*final(chaos), r) == chaos_at(*old(chaos), node as int, phase as int, osc as int, roll),
{
    if node == 4 {
        if osc == 0 {
            chaos.walk_a as u16
        } else {
            chaos.walk_b as u16
        }
    } else if node == 5 {
        let bucket: u16 = (phase / 256) as u16;
        if osc == 0 {
            if bucket != chaos.sh_bucket_a {
                chaos.sh_bucket_a = bucket;
                chaos.sh_a = roll;
            }
            chaos.sh_a
        } else {
            if bucket != chaos.sh_bucket_b {
                chaos.sh_bucket_b = bucket;
                chaos.sh_b = roll;
            }
            chaos.sh_b
        }
    } else {
        roll
    }
}

/// State and sample of any node: the first four are plain waves.
pub open spec fn node_at(
    c: MorphChaos,
    node: int,
    phase: int,
    osc: int,
    waves: Seq<u16>,
    roll: u16,
) -> (MorphChaos, u16) {
    if node < 4 { (c, waves[node]) } else { chaos_at(c, node, phase, osc, roll) }
}

/// Sample of a node. `waves` are sine, triangle, saw and square at the phase.
pub fn node_sample(
    node: usize,
    phase: usize,
    osc: usize,
    chaos: &mut MorphChaos,
    waves: &[u16; 4],
    roll: u16,
) -> (r: u16)
    ensures
        (*final(chaos), r) == node_at(
            *old(chaos),
            node as int,
            phase as int,
            osc as int,
            waves@,
            roll,
        ),
{
    if node < 4 {
        waves[node]
    } else {
        chaos_sample(node, phase, osc, chaos, roll)
    }
}

/// Mix of two samples on the way between their nodes.
pub open spec fn mixed(a: int, b: int, frac: int) -> int {
    clamp_int(a + quot((b - a) * frac, SEGMENT as int), 0, 4095)
}

/// State and sample at a morph position: past the last node pure noise.
pub open spec fn morphed(
    c: MorphChaos,
    phase: int,
    morph: int,
    osc: int,
    waves: Seq<u16>,
    roll_a: u16,
    roll_b: u16,
) -> (MorphChaos, u16) {
    let seg = morph / 682;
    if seg >= 6 {
        node_at(c, 6, phase, osc, waves, roll_a)
    } else {
        let (c1, a) = node_at(c, seg, phase, osc, waves, roll_a);
        let (c2, b) = node_at(c1, seg + 1, phase, osc, waves, roll_b);
        (c2, mixed(a as int, b as int, morph % 682) as u16)
    }
}

pub fn mix(a: u16, b: u16, frac: usize) -> (r: u16)
    requires
        frac < 682,
    ensures
        r == mixed(a as int, b as int, frac as int),
        r <= 4095,
{
    let d: i32 = b as i32 - a as i32;
    assert(-65535 * 682 <= d * frac <= 65535 * 682) by (nonlinear_arith)
        requires
            -65535 <= d <= 65535,
            0 <= frac < 682,
    ;
    let v: i32 = a as i32 + div_toward_zero(d * frac as i32, 682);
    if v < 0 {
        0
    } else if v > 4095 {
        4095
    } else {
        v as u16
    }
}

/// Sample of the morph continuum at a shaped phase. `osc` selects the chaos
/// state, so that two oscillators stay decorrelated; the rolls are those of
/// the die for the lower and the upper node.
pub fn morph_sample(
    phase: usize,
    morph: u16,
    osc: usize,
    chaos: &mut MorphChaos,
    waves: &[u16; 4],
    roll_a: u16,
    roll_b: u16,
) -> (r: u16)
    ensures
        (*final(chaos), r) == morphed(
            *old(chaos),
            phase as int,
            morph as int,
            osc as int,
            waves@,
            roll_a,
            roll_b,
        ),
        old(chaos).wf() ==> final(chaos).wf(),
{
    let seg: usize = morph as usize / SEGMENT;
    if seg >= MORPH_NODES - 1 {
        return node_sample(MORPH_NODES - 1, phase, osc, chaos, waves, roll_a);
    }
    let frac: usize = morph as usize % SEGMENT;
    let a: u16 = node_sample(seg, phase, osc, chaos, waves, roll_a);
    let b: u16 = node_sample(seg + 1, phase, osc, chaos, waves, roll_b);
    mix(a, b, frac)
}

#[verifier::opaque]
pub open spec fn faded(part: int, sat: int) -> int {
    (part * sat + 255 * (255 - sat)) / 255
}

fn fade(part: u8, sat: u8) -> (r: u8)
    ensures
        r == faded(part as int, sat as int),
{
    reveal(faded);
    assert(0 <= part * sat <= 255 * sat) by (nonlinear_arith)
        requires
            0 <= part <= 255,
            0 <= sat,
    ;
    let s: u32 = sat as u32;
    ((part as u32 * s + 255 * (255 - s)) / 255) as u8
}

/// A pure hue faded toward white.
pub open spec fn hue_with_sat(hue: int, sat: int) -> (u8, u8, u8) {
    let (r, g, b) = pure_hue(hue);
    (faded(r as int, sat) as u8, faded(g as int, sat) as u8, faded(b as int, sat) as u8)
}

/// Integer HSV to RGB with V=max and variable saturation (0 = white).
pub fn hsv_to_rgb_sat(hue: u16, sat: u8) -> (r: (u8, u8, u8))
    ensures
        r == hue_with_sat(hue as int, sat as int),
{
    let (fr, fg, fb) = sector_rgb(hue);
    (fade(fr, sat), fade(fg, sat), fade(fb, sat))
}

/// Colour of a morph position: the hue of the node below, at full saturation
/// on the node and fading toward the next. The last segment stays on its node.
pub open spec fn morph_hue(morph: int) -> Color {
    let m = min_int(morph, 4095);
    let seg = min_int(m / 682, 5);
    if seg == 5 {
        custom(pure_hue(270))
    } else {
        custom(hue_with_sat(45 * seg, 255 - m % 682 * 255 / 682))
    }
}

pub fn morph_color(morph: u16) -> (c: Color)
    ensures
        c == morph_hue(morph as int),
{
    let m: usize = if morph < 4095 { morph as usize } else { 4095 };
    let seg: usize = if m / SEGMENT < 5 { m / SEGMENT } else { 5 };
    if seg == 5 {
        let (r, g, b) = hsv_to_rgb(NODE_HUES[6]);
        return Color::Custom(r, g, b);
    }
    let frac: usize = m % SEGMENT;
    let sat: u8 = 255 - (frac * 255 / 682) as u8;
    assert(NODE_HUES[seg as int] == 45 * seg);
    let (r, g, b) = hsv_to_rgb_sat(NODE_HUES[seg], sat);
    Color::Custom(r, g, b)
}

/// A mix starts at the lower node's sample and stays between both.
pub proof fn mix_stays_between(a: int, b: int, frac: int)
    requires
        0 <= a <= 4095,
        0 <= b <= 4095,
        0 <= frac < 682,
    ensures
        mixed(a, b, 0) == a,
        min_int(a, b) <= mixed(a, b, frac) <= crate::panel::max_int(a, b),
{
    let d = b - a;
    assert(d * 0 == 0);
    if d >= 0 {
        assert(0 <= d * frac <= d * 682) by (nonlinear_arith)
            requires
                0 <= d,
                0 <= frac < 682,
        ;
    } else {
        assert(d * 682 <= d * frac <= 0) by (nonlinear_arith)
            requires
                d < 0,
                0 <= frac < 682,
        ;
    }
}

} // verus!
