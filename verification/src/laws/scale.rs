//! What the scales promise: which notes belong, which one is near, which one is
//! next.

use crate::apps::scale::{
    degrees, degrees_on, fits_above, fits_below, mask_bit, mask_degrees, nearest_from, next_degree,
    next_from, one_step_toward, snapped, toward_from, Scale,
};
use crate::panel::dist;
use vstd::prelude::*;

verus! {

proof fn single_bit(k: u16, r: u16)
    requires
        k < 12,
        r < 12,
    ensures
        ((0x800u16 >> k) >> ((11 - r) as u16)) & 1 != 0 <==> k == r,
{
    let s: u16 = (11 - r) as u16;
    assert(((0x800u16 >> k) >> s) & 1 != 0 <==> k + s == 11) by (bit_vector)
        requires
            k < 12,
            s < 12,
    ;
}

/// The degree `k` semitones above the tonic is bit `11 - k` of the mask: a mask
/// of that bit alone holds the notes at that distance from the tonic, in every
/// octave, and no others.
pub proof fn bits_are_degrees(k: u16, tonic: u8, note: int)
    requires
        k < 12,
        0 <= note,
    ensures
        (Scale { mask: 0x800u16 >> k, tonic, free: false }).has(note) <==> (note - tonic) % 12 == k,
{
    let s = Scale { mask: 0x800u16 >> k, tonic, free: false };
    let r = s.above_tonic(note % 12);
    assert(r == (note - tonic) % 12);
    single_bit(k, r as u16);
}

/// A scale made of two holds what either holds, and the empty one holds
/// nothing.
pub proof fn scales_unite(a: u16, b: u16, tonic: u8, note: int)
    ensures
        (Scale { mask: a | b, tonic, free: false }).has(note) <==> (Scale {
            mask: a,
            tonic,
            free: false,
        }).has(note) || (Scale { mask: b, tonic, free: false }).has(note),
        !(Scale { mask: 0, tonic, free: false }).has(note),
{
    let r = (11 - (Scale { mask: 0, tonic, free: false }).above_tonic(note % 12)) as u16;
    assert(((a | b) >> r) & 1 != 0 <==> (a >> r) & 1 != 0 || (b >> r) & 1 != 0) by (bit_vector);
    assert((0u16 >> r) & 1 == 0) by (bit_vector);
}

/// A scale repeats in every octave.
pub proof fn scales_repeat(scale: Scale, note: int)
    ensures
        scale.has(note + 12) == scale.has(note),
{
}

/// A scale moved up a semitone holds the notes moved up a semitone.
pub proof fn scales_transpose(mask: u16, tonic: u8, note: int)
    requires
        tonic < 255,
        0 <= note,
    ensures
        (Scale { mask, tonic: (tonic + 1) as u8, free: false }).has(note + 1) == (Scale {
            mask,
            tonic,
            free: false,
        }).has(note),
{
    let a = Scale { mask, tonic: (tonic + 1) as u8, free: false };
    let b = Scale { mask, tonic, free: false };
    distance_above(note + 1, tonic + 1);
    distance_above(note, tonic as int);
    assert(a.above_tonic((note + 1) % 12) == b.above_tonic(note % 12));
}

proof fn distance_above(note: int, tonic: int)
    ensures
        (note % 12 + 12 - tonic % 12) % 12 == (note - tonic) % 12,
{
    let k = 1 - note / 12 + tonic / 12;
    assert(note % 12 + 12 - tonic % 12 == 12 * k + (note - tonic));
    vstd::arithmetic::div_mod::lemma_mod_multiples_vanish(k, note - tonic, 12);
}

proof fn mask_degrees_hold(mask: u16, n: int, d: u8)
    requires
        0 <= n <= 12,
        d < 12,
    ensures
        mask_degrees(mask, n).contains(d) <==> d < n && mask_bit(mask, 11 - d),
    decreases n,
{
    if n > 0 {
        mask_degrees_hold(mask, n - 1, d);
        let p = mask_degrees(mask, n - 1);
        let q = mask_degrees(mask, n);
        if mask_bit(mask, 11 - (n - 1)) {
            assert(q.last() == (n - 1) as u8);
            if p.contains(d) {
                let k = choose|k: int| 0 <= k < p.len() && p[k] == d;
                assert(q[k] == d);
            }
            if q.contains(d) && d != n - 1 {
                let k = choose|k: int| 0 <= k < q.len() && q[k] == d;
                assert(p[k] == d);
            }
        }
    }
}

/// The list of degrees of a scale holds the distances above the tonic that
/// belong to it; that of a scale without notes holds the tonic alone.
pub proof fn degrees_are_those_of_the_scale(mask: u16, d: u8)
    requires
        d < 12,
    ensures
        (Scale { mask, tonic: 0, free: false }).has(d as int) ==> degrees(mask).contains(d),
        degrees(mask).contains(d) ==> (Scale { mask, tonic: 0, free: false }).has(d as int)
            || degrees(mask) == seq![0u8],
{
    mask_degrees_hold(mask, 12, d);
    let s = Scale { mask, tonic: 0, free: false };
    assert(s.above_tonic(d as int % 12) == d);
    let all = mask_degrees(mask, 12);
    if all.contains(d) {
        assert(all.len() > 0);
    }
}

// ---------------------------------------------------------------------------
// Nearest note
// ---------------------------------------------------------------------------

proof fn nearest_is_near(note: int, scale: Scale, toward: Option<u8>, d: int, c: int)
    requires
        0 <= note <= 127,
        0 <= c <= 127,
        1 <= d <= dist(c, note) <= 6,
        scale.has(c),
        forall|k: int| 1 <= k < d ==> !#[trigger] fits_below(note, k, scale),
        forall|k: int| 1 <= k < d ==> !#[trigger] fits_above(note, k, scale),
    ensures
        dist(nearest_from(note, scale, toward, d), note) <= dist(c, note),
        scale.has(nearest_from(note, scale, toward, d)),
        0 <= nearest_from(note, scale, toward, d) <= 127,
    decreases 7 - d,
{
    let e = dist(c, note);
    if c < note {
        assert(fits_below(note, e, scale));
    } else {
        assert(fits_above(note, e, scale));
    }
    if !fits_below(note, d, scale) && !fits_above(note, d, scale) {
        nearest_is_near(note, scale, toward, d + 1, c);
    }
}

/// A note is snapped to the nearest one of the scale: no note of the scale
/// within six semitones lies nearer, and a note of the scale stays.
pub proof fn snap_is_nearest(note: int, scale: Scale, toward: Option<u8>, c: int)
    requires
        0 <= note <= 127,
        0 <= c <= 127,
        scale.has(c),
        dist(c, note) <= 6,
    ensures
        dist(snapped(note, scale, toward), note) <= dist(c, note),
        scale.free || scale.has(snapped(note, scale, toward)),
        0 <= snapped(note, scale, toward) <= 127,
        scale.has(note) ==> snapped(note, scale, toward) == note,
{
    if !scale.free && !scale.has(note) {
        nearest_is_near(note, scale, toward, 1, c);
    }
}

/// A free scale moves nothing.
pub proof fn free_scales_keep_every_note(note: int, mask: u16, tonic: u8, toward: Option<u8>)
    ensures
        snapped(note, Scale { mask, tonic, free: true }, toward) == note,
{
}

/// Between two notes of the scale just as near, the one nearer to where the
/// melody is going is taken, and the lower one where that does not decide.
pub proof fn snap_breaks_ties(note: int, scale: Scale, toward: Option<u8>, d: int)
    requires
        0 <= note - d,
        note + d <= 127,
        1 <= d <= 6,
        !scale.free,
        !scale.has(note),
        scale.has(note - d),
        scale.has(note + d),
        forall|c: int| note - d < c < note + d ==> !#[trigger] scale.has(c),
    ensures
        toward is None ==> snapped(note, scale, toward) == note - d,
        toward matches Some(t) ==> {
            &&& t > note ==> snapped(note, scale, toward) == note + d
            &&& t <= note ==> snapped(note, scale, toward) == note - d
        },
{
    tie_from(note, scale, toward, d, 1);
}

proof fn tie_from(note: int, scale: Scale, toward: Option<u8>, d: int, k: int)
    requires
        0 <= note - d,
        note + d <= 127,
        1 <= k <= d <= 6,
        scale.has(note - d),
        scale.has(note + d),
        forall|c: int| note - d < c < note + d ==> !#[trigger] scale.has(c),
    ensures
        nearest_from(note, scale, toward, k) == nearest_from(note, scale, toward, d),
        fits_below(note, d, scale) && fits_above(note, d, scale),
    decreases d - k,
{
    if k < d {
        tie_from(note, scale, toward, d, k + 1);
    }
}

// ---------------------------------------------------------------------------
// Next note
// ---------------------------------------------------------------------------

/// Notes of the scale above `a` up to `b`.
pub open spec fn members(scale: Scale, a: int, b: int) -> int
    decreases b - a,
{
    if b <= a {
        0
    } else {
        members(scale, a, b - 1) + if scale.free || scale.has(b) { 1int } else { 0 }
    }
}

proof fn members_add(scale: Scale, a: int, b: int, c: int)
    requires
        a <= b <= c,
    ensures
        members(scale, a, c) == members(scale, a, b) + members(scale, b, c),
        members(scale, b, c) >= 0,
    decreases c - b,
{
    if b < c {
        members_add(scale, a, b, c - 1);
    }
}

proof fn no_members(scale: Scale, a: int, b: int)
    requires
        !scale.free,
        forall|k: int| a < k <= b ==> !#[trigger] scale.has(k),
    ensures
        members(scale, a, b) == 0,
    decreases b - a,
{
    if a < b {
        no_members(scale, a, b - 1);
    }
}

proof fn some_members(scale: Scale, a: int, b: int, c: int)
    requires
        a < c <= b,
        scale.free || scale.has(c),
    ensures
        members(scale, a, b) > 0,
{
    members_add(scale, a, c, b);
    members_add(scale, a, a, c - 1);
}

/// The first note of the scale from distance `d` on.
proof fn next_from_is_next(note: int, up: bool, scale: Scale, d: int)
    requires
        0 <= note <= 127,
        !scale.free,
        1 <= d <= 13,
        forall|k: int| note < k < note + d && up ==> !#[trigger] scale.has(k),
        forall|k: int| note - d < k < note && !up ==> !#[trigger] scale.has(k),
    ensures
        ({
            let r = next_from(note, up, scale, d);
            &&& 0 <= r <= 127
            &&& up ==> r >= note && forall|k: int| note < k < r ==> !#[trigger] scale.has(k)
            &&& !up ==> r <= note && forall|k: int| r < k < note ==> !#[trigger] scale.has(k)
            &&& r != note ==> scale.has(r)
            &&& r == note && up ==> forall|k: int| note < k <= 127 ==> !#[trigger] scale.has(k)
            &&& r == note && !up ==> forall|k: int| 0 <= k < note ==> !#[trigger] scale.has(k)
        }),
    decreases 13 - d,
{
    let c = if up { note + d } else { note - d };
    if d > 12 {
        if up {
            assert forall|k: int| note < k <= 127 implies !#[trigger] scale.has(k) by {
                octave_above(scale, note, k);
            }
        } else {
            assert forall|k: int| 0 <= k < note implies !#[trigger] scale.has(k) by {
                octave_below(scale, note, k);
            }
        }
    } else if c < 0 || (up && c > 127) {
    } else if !scale.has(c) {
        next_from_is_next(note, up, scale, d + 1);
    }
}

proof fn octave_above(scale: Scale, note: int, k: int)
    requires
        note < k,
        forall|j: int| note < j < note + 13 ==> !#[trigger] scale.has(j),
    ensures
        !scale.has(k),
    decreases k,
{
    if k >= note + 13 {
        octave_above_step(scale, note, k);
    }
}

proof fn octave_above_step(scale: Scale, note: int, k: int)
    requires
        note + 13 <= k,
        forall|j: int| note < j < note + 13 ==> !#[trigger] scale.has(j),
    ensures
        !scale.has(k),
    decreases k - note,
{
    scales_repeat(scale, k - 12);
    if k - 12 >= note + 13 {
        octave_above_step(scale, note, k - 12);
    } else {
        assert(!scale.has(k - 12));
    }
}

proof fn octave_below(scale: Scale, note: int, k: int)
    requires
        k < note,
        forall|j: int| note - 13 < j < note ==> !#[trigger] scale.has(j),
    ensures
        !scale.has(k),
    decreases note - k,
{
    if k <= note - 13 {
        scales_repeat(scale, k);
        octave_below(scale, note, k + 12);
    }
}

/// The next degree is the next note of the scale that way: it lies in the
/// scale, none is skipped on the way to it, and a note stays only where the
/// keyboard holds none further on.
pub proof fn next_degree_is_next(note: int, up: bool, scale: Scale)
    requires
        0 <= note <= 127,
    ensures
        ({
            let r = next_degree(note, up, scale);
            &&& 0 <= r <= 127
            &&& up ==> r >= note
            &&& !up ==> r <= note
            &&& r != note ==> scale.free || scale.has(r)
            &&& up && r > note ==> members(scale, note, r) == 1
            &&& !up && r < note ==> members(scale, r - 1, note - 1) == 1
            &&& up && r == note ==> members(scale, note, 127) == 0
            &&& !up && r == note ==> members(scale, -1, note - 1) == 0
        }),
{
    let r = next_degree(note, up, scale);
    if scale.free {
        reveal_with_fuel(members, 3);
    } else {
        next_from_is_next(note, up, scale, 1);
        if up && r > note {
            no_members(scale, note, r - 1);
        } else if !up && r < note {
            no_members(scale, r, note - 1);
            members_add(scale, r - 1, r, note - 1);
            assert(members(scale, r - 1, r) == members(scale, r - 1, r - 1) + 1);
        } else if up {
            no_members(scale, note, 127);
        } else {
            no_members(scale, -1, note - 1);
        }
    }
}

/// Moving by degrees goes that many notes of the scale up or down, and stops
/// only where the keyboard holds no more of them.
pub proof fn degrees_are_counted(note: int, steps: int, up: bool, scale: Scale)
    requires
        0 <= note <= 127,
        0 <= steps,
    ensures
        ({
            let r = degrees_on(note, steps, up, scale);
            &&& 0 <= r <= 127
            &&& up ==> r >= note && members(scale, note, r) <= steps
            &&& !up ==> r <= note && members(scale, r - 1, note - 1) <= steps
            &&& up && members(scale, note, r) < steps ==> members(scale, r, 127) == 0
            &&& !up && members(scale, r - 1, note - 1) < steps ==> members(scale, -1, r - 1) == 0
            &&& r != note ==> scale.free || scale.has(r)
        }),
    decreases steps,
{
    if steps > 0 {
        degrees_are_counted(note, steps - 1, up, scale);
        let p = degrees_on(note, steps - 1, up, scale);
        let r = degrees_on(note, steps, up, scale);
        next_degree_is_next(p, up, scale);
        if up {
            members_add(scale, note, p, r);
            members_add(scale, p, r, 127);
            members_add(scale, r, 127, 127);
        } else {
            members_add(scale, r - 1, p - 1, note - 1);
            members_add(scale, -1, r - 1, p - 1);
            members_add(scale, -1, -1, r - 1);
        }
    }
}

/// Moving up by degrees and snapping ends on a note of the scale that lies
/// higher, where there is one; moving down, on one that lies lower.
pub proof fn shifts_keep_their_direction(note: int, steps: int, up: bool, scale: Scale, c: int)
    requires
        0 <= note <= 127,
        1 <= steps,
        0 <= c <= 127,
        scale.free || scale.has(c),
        up ==> c > note,
        !up ==> c < note,
    ensures
        ({
            let r = snapped(degrees_on(note, steps, up, scale), scale, None);
            &&& up ==> r > note && members(scale, note, r) <= steps
            &&& !up ==> r < note && members(scale, r - 1, note - 1) <= steps
            &&& up && members(scale, note, r) < steps ==> members(scale, r, 127) == 0
            &&& !up && members(scale, r - 1, note - 1) < steps ==> members(scale, -1, r - 1) == 0
            &&& 0 <= r <= 127
            &&& scale.free || scale.has(r)
        }),
{
    degrees_are_counted(note, steps, up, scale);
    let r = degrees_on(note, steps, up, scale);
    if r == note {
        if up {
            some_members(scale, note, 127, c);
        } else {
            some_members(scale, -1, note - 1, c);
        }
    }
}

// ---------------------------------------------------------------------------
// Glissando
// ---------------------------------------------------------------------------

proof fn toward_is_next(cur: int, target: int, scale: Scale, d: int)
    requires
        0 <= cur <= 127,
        0 <= target <= 127,
        1 <= d <= 13,
        d <= dist(cur, target),
        !scale.free,
        forall|k: int| cur < k < cur + d && cur < target ==> !#[trigger] scale.has(k),
        forall|k: int| cur - d < k < cur && target < cur ==> !#[trigger] scale.has(k),
    ensures
        ({
            let r = toward_from(cur, target, scale, d);
            &&& r != cur ==> r == target || scale.has(r)
            &&& forall|k: int| cur < k < r && cur < target ==> !#[trigger] scale.has(k)
            &&& forall|k: int| r < k < cur && target < cur ==> !#[trigger] scale.has(k)
            &&& r == cur ==> dist(cur, target) > 12
        }),
    decreases 13 - d,
{
    let c = if target > cur { cur + d } else { cur - d };
    if d <= 12 && c != target && !scale.has(c) {
        assert forall|k: int| cur < k < cur + d + 1 && cur < target implies !#[trigger] scale.has(
            k,
        ) by {
            assert(k == c || k < cur + d);
        }
        assert forall|k: int| cur - d - 1 < k < cur && target < cur implies !#[trigger] scale.has(
            k,
        ) by {
            assert(k == c || cur - d < k);
        }
        toward_is_next(cur, target, scale, d + 1);
    }
}

/// A glissando passes every note of the scale: a step ends on the next one on
/// the way, or on the target, and makes way whenever there is one within an
/// octave.
pub proof fn glissando_skips_nothing(cur: int, target: int, scale: Scale)
    requires
        0 <= cur <= 127,
        0 <= target <= 127,
    ensures
        ({
            let r = one_step_toward(cur, target, scale);
            &&& cur == target ==> r == cur
            &&& r != cur ==> r == target || scale.free || scale.has(r)
            &&& !scale.free ==> forall|k: int| cur < k < r ==> !#[trigger] scale.has(k)
            &&& !scale.free ==> forall|k: int| r < k < cur ==> !#[trigger] scale.has(k)
            &&& scale.free && cur < target ==> r == cur + 1
            &&& scale.free && target < cur ==> r == cur - 1
            &&& cur != target && dist(cur, target) <= 12 ==> r != cur
            &&& cur < target ==> cur <= r <= target
            &&& target < cur ==> target <= r <= cur
        }),
{
    crate::apps::scale::step_stays_between(cur, target, scale);
    if cur != target && !scale.free {
        toward_is_next(cur, target, scale, 1);
    }
}

} // verus!
