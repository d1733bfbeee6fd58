//! What the ornaments promise: how likely, of which kind, when and how high.

use crate::apps::ornament::{
    bass_pitch, due_of, entry_rate, fit_shift, greatest, intensity_of, least, loudest,
    melody_kind, offsets, phrase_share, profile_of, pushed, voice_cap, voice_mul, weight_sum,
    weights_for, ArticContext, GrooveVoice, KindWeights, OrnamentKind, OrnamentPlan,
};
use vstd::prelude::*;

verus! {

/// The intensity of a groove is the share of its density above 2400 times the
/// share of the feel curve, in percent, to within three percent, and never
/// more.
pub proof fn grooves_multiply_density_and_feel(density: u16, feel: u16, curved: int)
    requires
        2400 <= density <= 4095,
        feel > 0,
        0 <= curved <= 4095,
    ensures
        ({
            let i = intensity_of(ArticContext::Groove { density, feel }, curved);
            let x = (density - 2400) * curved;
            &&& 6941025 * i <= 100 * x
            &&& 100 * x < 6941025 * (i + 3)
        }),
{
    let a = density - 2400;
    let d = a * 100 / 1695;
    let f = curved * 100 / 4095;
    assert(4095 - crate::apps::ornament::DENSITY_ORNAMENT_FLOOR == 1695);
    assert(0 <= d <= 100 && 0 <= f <= 100);
    assert(0 <= d * f <= 100 * 100) by (nonlinear_arith)
        requires
            0 <= d <= 100,
            0 <= f <= 100,
    ;
    let x = a * curved;
    assert(6941025 * (d * f) <= 10000 * x) by (nonlinear_arith)
        requires
            x == a * curved,
            0 <= 1695 * d <= 100 * a,
            0 <= 4095 * f <= 100 * curved,
    ;
    assert(10000 * x < 6941025 * (d * f) + 6941025 * 201) by (nonlinear_arith)
        requires
            x == a * curved,
            100 * a < 1695 * d + 1695,
            100 * curved < 4095 * f + 4095,
            0 <= a,
            0 <= curved,
            0 <= d <= 100,
            0 <= f <= 100,
    ;
}

/// A fill is scaled by the feel curve from 40 in the first half of the bar, 65
/// in its third quarter and 90 in its last.
pub proof fn fills_grow_by_quarters(step: u32, feel: u16, curved: int)
    requires
        feel > 0,
        0 <= curved <= 4095,
    ensures
        ({
            let i = intensity_of(ArticContext::Fill { step, feel }, curved);
            let k = step as int % 16;
            &&& k < 8 ==> 0 <= 40 * curved - 4095 * i < 4095
            &&& 8 <= k < 12 ==> 0 <= 65 * curved - 4095 * i < 4095
            &&& k >= 12 ==> 0 <= 90 * curved - 4095 * i < 4095
        }),
{
}

/// A solo is scaled by the feel curve from its tier, 35, 55 or 75, and the bar
/// of its phrase, 20, 40, 60 and then 30, a hundred at most.
pub proof fn solos_follow_tier_and_phrase(tier: u8, phrase_bar: u32, feel: u16, curved: int)
    requires
        feel > 0,
        tier <= 2,
        0 <= curved <= 4095,
    ensures
        ({
            let i = intensity_of(ArticContext::Solo { tier, phrase_bar, feel }, curved);
            let bar = phrase_bar as int % 4;
            let arc = if bar < 3 { 20 * (bar + 1) } else { 30 };
            let sum = 35 + 20 * tier + arc;
            &&& sum <= 100 ==> 0 <= sum * curved - 4095 * i < 4095
            &&& sum > 100 ==> 0 <= 100 * curved - 4095 * i < 4095
        }),
{
    let bar = phrase_bar as int % 4;
    let arc = if bar < 3 { 20 * (bar + 1) } else { 30 };
    let sum = 35 + 20 * tier + arc;
    let s = if sum <= 100 { sum } else { 100 };
    assert(crate::apps::ornament::solo_arc(tier as int, phrase_bar as int) == s);
    assert(0 <= s * curved <= 100 * curved) by (nonlinear_arith)
        requires
            0 <= s <= 100,
            0 <= curved,
    ;
}

/// Ornaments are rare: the chance of one is in proportion to the weights, the
/// intensity and the scale, once for a kick, twice for a snare and three times
/// for hats, and never above 14, 22 or 36 percent.
pub proof fn entry_rates_are_proportional(w: KindWeights, intensity: int, scale: int)
    requires
        1 <= intensity <= 100,
        1 <= scale <= 255,
    ensures
        ({
            let x = (w.double + w.flam + w.triplet + w.roll) * (intensity * scale);
            let k = entry_rate(GrooveVoice::Kick, w, intensity, scale);
            let s = entry_rate(GrooveVoice::Snare, w, intensity, scale);
            let h = entry_rate(GrooveVoice::Hats, w, intensity, scale);
            &&& k < 14 ==> 0 <= x - 90000 * k < 90000
            &&& s < 22 ==> 0 <= 2 * x - 90000 * s < 90000
            &&& h < 36 ==> 0 <= 3 * x - 90000 * h < 90000
            &&& 0 <= k <= 14 && 0 <= s <= 22 && 0 <= h <= 36
            &&& k == 14 ==> x >= 90000 * 14
            &&& s == 22 ==> 2 * x >= 90000 * 22
            &&& h == 36 ==> 3 * x >= 90000 * 36
            &&& k <= s <= h
        }),
        entry_rate(GrooveVoice::Kick, w, 0, scale) == 0,
{
    let sum = weight_sum(w);
    assert(sum * 1 * intensity * scale == sum * (intensity * scale)) by (nonlinear_arith);
    assert(sum * 2 * intensity * scale == 2 * (sum * (intensity * scale))) by (nonlinear_arith);
    assert(sum * 3 * intensity * scale == 3 * (sum * (intensity * scale))) by (nonlinear_arith);
    let y = intensity * scale;
    assert(0 <= y) by (nonlinear_arith)
        requires
            y == intensity * scale,
            intensity >= 1,
            scale >= 1,
    ;
    assert(0 <= sum * y) by (nonlinear_arith)
        requires
            0 <= sum,
            0 <= y,
    ;
}

/// In every genre the kick is the most reserved and no voice is busier than the hats,
/// and each voice has weights of its own.
pub proof fn kicks_are_reserved(genre: int)
    requires
        0 <= genre,
    ensures
        ({
            let p = profile_of(genre);
            let k = weight_sum(weights_for(p, GrooveVoice::Kick));
            let s = weight_sum(weights_for(p, GrooveVoice::Snare));
            let h = weight_sum(weights_for(p, GrooveVoice::Hats));
            0 < k < s <= h
        }),
        weights_for(profile_of(genre), GrooveVoice::Kick) == profile_of(genre).kick,
        weights_for(profile_of(genre), GrooveVoice::Snare) == profile_of(genre).snare,
        weights_for(profile_of(genre), GrooveVoice::Hats) == profile_of(genre).hats,
        genre >= 8 ==> profile_of(genre) == profile_of(8),
{
    let g = if genre < 8 { genre } else { 8 };
    assert(g == 0 || g == 1 || g == 2 || g == 3 || g == 4 || g == 5 || g == 6 || g == 7 || g == 8);
}

/// The melody's rolls of a thousand are shared among flams (280), doubles (240
/// and 130 more), triplets on the way up (200, doubles on the way down) and
/// nothing (150).
pub proof fn melody_rolls_are_shared(roll: int)
    requires
        0 <= roll,
    ensures
        ({
            let r = roll % 1000;
            &&& melody_kind(roll, true) == Some(OrnamentKind::Flam) <==> r < 280
            &&& melody_kind(roll, true) == Some(OrnamentKind::Triplet) <==> 520 <= r < 720
            &&& melody_kind(roll, true) is None <==> r >= 850
            &&& melody_kind(roll, false) != Some(OrnamentKind::Triplet)
            &&& melody_kind(roll, false) is None <==> r >= 850
            &&& melody_kind(roll, false) == Some(OrnamentKind::Flam) <==> r < 280
            &&& melody_kind(roll, true) != Some(OrnamentKind::Roll)
            &&& melody_kind(roll, false) != Some(OrnamentKind::Roll)
        }),
{
}

/// A phrase grows toward its end in even shares.
pub proof fn phrases_grow_evenly(step: int, len: int)
    requires
        0 <= step < len,
        len <= 255,
    ensures
        0 <= 600 * step - len * phrase_share(step, len) < len,
        phrase_share(step, len) < 600,
{
    let q = step * 600 / len;
    assert(len * q <= step * 600 < len * q + len && q < 600 && 0 <= q) by (nonlinear_arith)
        requires
            q == (step * 600) / len,
            0 <= step < len,
    ;
}

/// The main strike of a bass ornament keeps its pitch; the others repeat it or
/// move by a semitone, two down, or an octave up, which never happens in the
/// pocket. Only soft strikes are ghosts.
pub proof fn bass_strikes_stay_near(note: int, vel: int, main: bool, pocket: bool, roll: int)
    requires
        2 <= note <= 115,
        0 <= roll,
    ensures
        ({
            let (p, ghost_hit) = bass_pitch(note, vel, main, pocket, roll);
            &&& main ==> p == note && !ghost_hit
            &&& p == note || p == note - 1 || p == note + 1 || p == note - 2 || p == note + 12
            &&& p == note + 12 ==> !pocket && !main && !ghost_hit && roll % 5 == 0
            &&& ghost_hit ==> vel < 50
            &&& p == note + 1 ==> roll % 5 == 2
            &&& p == note - 2 ==> roll % 5 == 4 || (pocket && roll % 5 == 0)
            &&& !main && vel >= 50 && roll % 5 == 3 ==> p == note && !ghost_hit
            &&& !main && vel >= 50 && roll % 5 == 1 ==> p == note - 1
            &&& !main && vel >= 50 && roll % 5 == 0 && !pocket ==> p == note + 12
            &&& !main && vel < 50 && roll < 40 ==> p == note - 1 && ghost_hit
        }),
{
}

/// A strike falls at its share of the step, in whole units, before its end.
pub proof fn strikes_fall_at_their_share(perm: int, parent: int)
    requires
        0 <= perm < 1000,
        1 < parent <= 0xffff,
    ensures
        0 <= parent * perm - 1000 * due_of(perm, parent) < 1000,
        0 <= due_of(perm, parent) < parent,
{
    assert(0 <= parent * perm <= parent * 999) by (nonlinear_arith)
        requires
            0 <= perm <= 999,
            1 < parent,
    ;
    let q = parent * perm / 1000;
    assert(0 <= q < parent);
}

/// Hats are ornamented more readily than the snare, and the snare than the
/// kick: in the ratio of three to two to one, up to ceilings in that order.
pub proof fn voices_differ_in_readiness()
    ensures
        2 * voice_mul(GrooveVoice::Kick) == voice_mul(GrooveVoice::Snare),
        3 * voice_mul(GrooveVoice::Kick) == voice_mul(GrooveVoice::Hats),
        voice_mul(GrooveVoice::Kick) == 1,
        0 < voice_cap(GrooveVoice::Kick) < voice_cap(GrooveVoice::Snare),
        voice_cap(GrooveVoice::Snare) < voice_cap(GrooveVoice::Hats) <= 36,
        voice_cap(GrooveVoice::Kick) == 14,
        voice_cap(GrooveVoice::Snare) == 22,
{
}

/// Without feel, or below its density floor, a groove is not ornamented.
pub proof fn thin_grooves_stay_plain(density: u16, feel: u16, curved: int)
    ensures
        feel == 0 ==> intensity_of(ArticContext::Groove { density, feel }, curved) == 0,
        density < 2400 ==> intensity_of(ArticContext::Groove { density, feel }, curved) == 0,
{
}

/// Least and greatest are bounds that are reached.
pub proof fn bounds_are_reached(s: Seq<int>, n: int, i: int)
    requires
        0 < n <= s.len(),
    ensures
        0 <= i < n ==> least(s, n) <= s[i] <= greatest(s, n),
        exists|a: int| 0 <= a < n && #[trigger] s[a] == least(s, n),
        exists|b: int| 0 <= b < n && #[trigger] s[b] == greatest(s, n),
    decreases n,
{
    if n > 1 {
        bounds_are_reached(s, n - 1, i);
        let a = choose|a: int| 0 <= a < n - 1 && #[trigger] s[a] == least(s, n - 1);
        let b = choose|b: int| 0 <= b < n - 1 && #[trigger] s[b] == greatest(s, n - 1);
        assert(s[a] == least(s, n) || s[n - 1] == least(s, n));
        assert(s[b] == greatest(s, n) || s[n - 1] == greatest(s, n));
    } else {
        assert(s[0] == least(s, n));
    }
}

/// A plan that is moved keeps all its strikes inside the step, and where it
/// can, its main strike falls on the anchor.
pub proof fn plans_are_moved_to_the_anchor(plan: OrnamentPlan, anchor: int, i: int)
    requires
        1 <= plan.len <= 3,
        0 <= i < plan.len,
        0 <= anchor <= 1000,
        forall|k: int| 0 <= k < plan.len ==> 0 <= #[trigger] plan.hits[k].offset_permille <= 1000,
    ensures
        ({
            let d = fit_shift(plan, anchor);
            let main = plan.hits[loudest(plan.hits@, plan.len as int)].offset_permille as int;
            &&& 0 <= plan.hits[i].offset_permille + d <= 1000
            &&& (forall|k: int|
                0 <= k < plan.len ==> 0 <= #[trigger] plan.hits[k].offset_permille + (anchor - main)
                    <= 1000) ==> main + d == anchor
        }),
{
    let offs = offsets(plan);
    let n = plan.len as int;
    let m = loudest(plan.hits@, n);
    crate::apps::ornament::loudest_is_last_maximum(plan.hits@, n);
    bounds_are_reached(offs, n, i);
    bounds_are_reached(offs, n, m);
    let a = choose|a: int| 0 <= a < n && #[trigger] offs[a] == least(offs, n);
    let b = choose|b: int| 0 <= b < n && #[trigger] offs[b] == greatest(offs, n);
    assert(offs[i] == plan.hits[i].offset_permille);
    assert(offs[m] == plan.hits[m].offset_permille);
    assert(offs[a] == plan.hits[a].offset_permille);
    assert(offs[b] == plan.hits[b].offset_permille);
}

/// Pushing up puts an element that is not above the one before it a step above
/// it, and leaves any other.
pub proof fn strikes_are_pushed_apart(s: Seq<int>, i: int, step: int, cap: int)
    requires
        0 < i < s.len(),
    ensures
        s[i] > pushed(s, i - 1, step, cap) ==> pushed(s, i, step, cap) == s[i],
        s[i] <= pushed(s, i - 1, step, cap) <= cap - step ==> pushed(s, i, step, cap) - pushed(
            s,
            i - 1,
            step,
            cap,
        ) == step,
        pushed(s, 0, step, cap) == s[0],
{
}

} // verus!
