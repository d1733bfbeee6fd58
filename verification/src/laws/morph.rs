//! What the morphing waves promise: each node is its wave, and between two
//! nodes lies their mix.

use crate::apps::morph::{chaos_at, faded, mixed, morph_hue, morphed, walked, MorphChaos};
use crate::apps::led_fx::{custom, pure_hue};
use vstd::prelude::*;

verus! {

/// Between two nodes a sample goes from one to the other in even steps, to
/// within one.
pub proof fn mixes_go_evenly(a: int, b: int, frac: int)
    requires
        0 <= a <= 4095,
        0 <= b <= 4095,
        0 <= frac < 682,
    ensures
        -682 < 682 * (mixed(a, b, frac) - a) - (b - a) * frac < 682,
{
    let d = b - a;
    crate::apps::morph::mix_stays_between(a, b, frac);
    if d >= 0 {
        assert(0 <= d * frac <= 682 * d) by (nonlinear_arith)
            requires
                0 <= d,
                0 <= frac < 682,
        ;
    } else {
        assert(682 * d <= d * frac <= 0) by (nonlinear_arith)
            requires
                d < 0,
                0 <= frac < 682,
        ;
    }
}

/// The first four nodes are sine, triangle, saw and square; on each the sample
/// is its wave, and between two of them their mix. The generator is left alone
/// there.
pub proof fn nodes_are_their_waves(
    c: MorphChaos,
    phase: int,
    node: int,
    frac: int,
    osc: int,
    waves: Seq<u16>,
    ra: u16,
    rb: u16,
)
    requires
        0 <= node < 4,
        0 <= frac < 682,
        waves.len() == 4,
        forall|k: int| 0 <= k < 4 ==> #[trigger] waves[k] <= 4095,
        rb <= 4095,
        c.wf(),
        c.sh_a <= 4095,
        c.sh_b <= 4095,
    ensures
        ({
            let (n, s) = morphed(c, phase, 682 * node + frac, osc, waves, ra, rb);
            &&& frac == 0 ==> s == waves[node]
            &&& node < 3 ==> n == c && -682 < 682 * (s - waves[node]) - (waves[node + 1]
                - waves[node]) * frac < 682
        }),
{
    let a = waves[node] as int;
    assert((682 * node + frac) / 682 == node && (682 * node + frac) % 682 == frac);
    if node < 3 {
        mixes_go_evenly(a, waves[node + 1] as int, frac);
        crate::apps::morph::mix_stays_between(a, waves[node + 1] as int, frac);
    } else {
        let b = crate::apps::morph::node_at(c, 4, phase, osc, waves, rb).1 as int;
        assert(0 <= b <= 4095);
        crate::apps::morph::mix_stays_between(a, b, 0);
    }
}

/// The walks drift by three at most, either way, and stay on the scale; the
/// hold takes a roll once in each sixteenth of the cycle and keeps it; the two
/// oscillators have their own.
pub proof fn chaos_has_its_rules(c: MorphChaos, walk: int, phase: int, roll: u16, roll2: u16)
    requires
        0 <= walk <= 4095,
        0 <= phase < 4096,
    ensures
        -3 <= walked(walk, roll as int) - walk <= 3,
        0 <= walked(walk, roll as int) <= 4095,
        3 <= walk <= 4092 ==> walked(walk, 0) == walk - 3 && walked(walk, 3) == walk && walked(
            walk,
            6,
        ) == walk + 3,
        ({
            let (n, s) = chaos_at(c, 5, phase, 0, roll);
            &&& chaos_at(n, 5, phase, 0, roll2) == (n, s)
            &&& n.sh_b == c.sh_b && n.walk_a == c.walk_a && n.walk_b == c.walk_b
            &&& c.sh_bucket_a != phase / 256 ==> s == roll
            &&& c.sh_bucket_a == phase / 256 ==> s == c.sh_a
        }),
        ({
            let (n, s) = chaos_at(c, 5, phase, 1, roll);
            &&& chaos_at(n, 5, phase, 1, roll2) == (n, s)
            &&& n.sh_a == c.sh_a
        }),
        chaos_at(c, 6, phase, 0, roll) == (c, roll),
{
}

/// Fading a part to white goes from white to the part in even steps.
pub proof fn fades_go_evenly(part: int, sat: int)
    requires
        0 <= part <= 255,
        0 <= sat <= 255,
    ensures
        0 <= 255 * 255 - (255 - part) * sat - 255 * faded(part, sat) < 255,
        faded(part, 0) == 255,
        faded(part, 255) == part,
{
    reveal(faded);
    assert(part * sat + 255 * (255 - sat) == 255 * 255 - (255 - part) * sat) by (nonlinear_arith);
    assert(part * 0 == 0) by (nonlinear_arith);
}

/// On a node the colour is the node's pure hue, 45 degrees further for each.
pub proof fn nodes_have_pure_hues(node: int)
    requires
        0 <= node < 5,
    ensures
        morph_hue(682 * node) == custom(pure_hue(45 * node)),
        morph_hue(4095) == custom(pure_hue(270)),
{
    let (r, g, b) = pure_hue(45 * node);
    fades_go_evenly(r as int, 255);
    fades_go_evenly(g as int, 255);
    fades_go_evenly(b as int, 255);
    assert((682 * node) % 682 == 0 && (682 * node) / 682 == node);
}

} // verus!
