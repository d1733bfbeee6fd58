//! Musical scales: which notes belong, the nearest one, the next one.

use crate::bounded::{degree_list, degree_list_len, degree_list_new, degree_list_push};
use crate::panel::{dist, max_int, min_int};
use vstd::prelude::*;

verus! {

/// A scale on a tonic. Bit 11 of the mask is the tonic, bit 0 the semitone
/// below it. A free scale takes every note.
#[derive(Clone, Copy, Debug, PartialEq, Eq, Structural)]
pub struct Scale {
    pub mask: u16,
    pub tonic: u8,
    pub free: bool,
}

/// Bit `k` of a scale mask.
pub open spec fn mask_bit(mask: u16, k: int) -> bool {
    (mask >> (k as u16)) & 1 != 0
}

impl Scale {
    /// Distance of a pitch class above the tonic.
    pub open spec fn above_tonic(self, pc: int) -> int {
        (pc + 12 - self.tonic as int % 12) % 12
    }

    pub open spec fn has_pc(self, pc: int) -> bool {
        mask_bit(self.mask, 11 - self.above_tonic(pc))
    }

    /// The note belongs to the scale.
    pub open spec fn has(self, note: int) -> bool {
        self.has_pc(note % 12)
    }
}

/// Whether a pitch class belongs to the scale.
pub fn pc_in_scale(pc: u8, scale: Scale) -> (r: bool)
    requires
        pc + 12 <= u8::MAX,
    ensures
        r == scale.has_pc(pc as int),
{
    let rel: u8 = (pc + 12 - scale.tonic % 12) % 12;
    (scale.mask >> (11 - rel as u16)) & 1 != 0
}

fn in_scale(note: u8, scale: Scale) -> (r: bool)
    ensures
        r == scale.has(note as int),
{
    pc_in_scale(note % 12, scale)
}

// ---------------------------------------------------------------------------
// Nearest note
// ---------------------------------------------------------------------------

pub open spec fn fits_below(note: int, d: int, scale: Scale) -> bool {
    d <= note && scale.has(note - d)
}

pub open spec fn fits_above(note: int, d: int, scale: Scale) -> bool {
    note + d <= 127 && scale.has(note + d)
}

/// Nearest scale note at a distance from `d` to six. Of two equally near ones
/// the one closer to `toward`, else the lower; the note itself if there is
/// none.
pub open spec fn nearest_from(note: int, scale: Scale, toward: Option<u8>, d: int) -> int
    decreases 7 - d,
{
    if d > 6 {
        note
    } else if fits_below(note, d, scale) && fits_above(note, d, scale) {
        match toward {
            Some(t) => if dist(note + d, t as int) < dist(note - d, t as int) {
                note + d
            } else {
                note - d
            },
            None => note - d,
        }
    } else if fits_below(note, d, scale) {
        note - d
    } else if fits_above(note, d, scale) {
        note + d
    } else {
        nearest_from(note, scale, toward, d + 1)
    }
}

/// A note snapped to the scale.
pub open spec fn snapped(note: int, scale: Scale, toward: Option<u8>) -> int {
    if scale.free || scale.has(note) { note } else { nearest_from(note, scale, toward, 1) }
}

pub fn snap_to_scale_toward(note: u8, scale: Scale, toward: Option<u8>) -> (r: u8)
    ensures
        r == snapped(note as int, scale, toward),
        note <= 127 ==> r <= 127,
{
    if scale.free {
        return note;
    }
    if in_scale(note, scale) {
        return note;
    }
    let mut d: u8 = 1;
    while d <= 6
        invariant
            1 <= d <= 7,
            !scale.free,
            !scale.has(note as int),
            snapped(note as int, scale, toward) == nearest_from(
                note as int,
                scale,
                toward,
                d as int,
            ),
        decreases 7 - d,
    {
        let down_ok = d <= note && in_scale(note - d, scale);
        let up_ok = note <= 127 - d && in_scale(note + d, scale);
        if down_ok && up_ok {
            let dn: u8 = note - d;
            let un: u8 = note + d;
            return match toward {
                Some(t) => {
                    let dd: u8 = if dn >= t { dn - t } else { t - dn };
                    let du: u8 = if un >= t { un - t } else { t - un };
                    if du < dd {
                        un
                    } else {
                        dn
                    }
                },
                None => dn,
            };
        }
        if down_ok {
            return note - d;
        }
        if up_ok {
            return note + d;
        }
        d = d + 1;
    }
    note
}

/// Snap a MIDI note to the nearest degree of the scale. A free scale passes
/// it through.
pub fn snap_to_scale(note: u8, scale: Scale) -> (r: u8)
    ensures
        r == snapped(note as int, scale, None),
        note <= 127 ==> r <= 127,
{
    snap_to_scale_toward(note, scale, None)
}

// ---------------------------------------------------------------------------
// Next note
// ---------------------------------------------------------------------------

/// First scale note at a distance from `d` to twelve above (or below); the
/// note itself where the keyboard ends first.
pub open spec fn next_from(note: int, up: bool, scale: Scale, d: int) -> int
    decreases 13 - d,
{
    let c = if up { note + d } else { note - d };
    if d > 12 || c < 0 || (up && c > 127) {
        note
    } else if scale.has(c) {
        c
    } else {
        next_from(note, up, scale, d + 1)
    }
}

pub open spec fn next_degree(note: int, up: bool, scale: Scale) -> int {
    if scale.free {
        if up { min_int(min_int(note + 1, 255), 127) } else { max_int(note - 1, 0) }
    } else {
        next_from(note, up, scale, 1)
    }
}

pub fn next_scale_degree(note: u8, up: bool, scale: Scale) -> (r: u8)
    ensures
        r == next_degree(note as int, up, scale),
        note <= 127 ==> r <= 127,
{
    if scale.free {
        return if up {
            if note < 127 {
                note + 1
            } else {
                127
            }
        } else {
            note.saturating_sub(1)
        };
    }
    let mut d: u8 = 1;
    while d <= 12
        invariant
            1 <= d <= 13,
            !scale.free,
            next_degree(note as int, up, scale) == next_from(note as int, up, scale, d as int),
        decreases 13 - d,
    {
        if up {
            if note > 127 - d {
                return note;
            }
            if in_scale(note + d, scale) {
                return note + d;
            }
        } else {
            if note < d {
                return note;
            }
            if in_scale(note - d, scale) {
                return note - d;
            }
        }
        d = d + 1;
    }
    note
}

/// Note after `steps` scale degrees.
pub open spec fn degrees_on(note: int, steps: int, up: bool, scale: Scale) -> int
    decreases steps,
{
    if steps <= 0 {
        note
    } else {
        next_degree(degrees_on(note, steps - 1, up, scale), up, scale)
    }
}

proof fn stuck_stays(note: int, k: int, steps: int, up: bool, scale: Scale)
    requires
        0 <= k <= steps,
        next_degree(degrees_on(note, k, up, scale), up, scale) == degrees_on(note, k, up, scale),
    ensures
        degrees_on(note, steps, up, scale) == degrees_on(note, k, up, scale),
    decreases steps - k,
{
    if k < steps {
        assert(degrees_on(note, k + 1, up, scale) == degrees_on(note, k, up, scale));
        stuck_stays(note, k + 1, steps, up, scale);
    }
}

/// Move a note by scale degrees, as far as the keyboard goes, and snap it.
pub fn shift_degrees(note: u8, steps: u32, up: bool, scale: Scale) -> (r: u8)
    ensures
        r == snapped(degrees_on(note as int, steps as int, up, scale), scale, None),
        note <= 127 ==> r <= 127,
{
    let mut n: u8 = note;
    let mut k: u32 = 0;
    while k < steps
        invariant
            k <= steps,
            n == degrees_on(note as int, k as int, up, scale),
            note <= 127 ==> n <= 127,
        ensures
            n == degrees_on(note as int, steps as int, up, scale),
            note <= 127 ==> n <= 127,
        decreases steps - k,
    {
        let next: u8 = next_scale_degree(n, up, scale);
        if next == n {
            proof {
                stuck_stays(note as int, k as int, steps as int, up, scale);
            }
            break;
        }
        n = next;
        k = k + 1;
    }
    snap_to_scale(n, scale)
}

/// First note at a distance from `d` to twelve on the way to `target` that is
/// the target or belongs to the scale; `cur` itself if there is none.
pub open spec fn toward_from(cur: int, target: int, scale: Scale, d: int) -> int
    decreases 13 - d,
{
    let c = if target > cur { cur + d } else { cur - d };
    if d > 12 || c < 0 || c > 127 {
        cur
    } else if c == target || scale.free || scale.has(c) {
        c
    } else {
        toward_from(cur, target, scale, d + 1)
    }
}

pub open spec fn one_step_toward(cur: int, target: int, scale: Scale) -> int {
    if cur == target { cur } else { toward_from(cur, target, scale, 1) }
}

/// Next MIDI note one scale degree (or semitone) toward `target`.
pub fn step_toward(cur: u8, target: u8, scale: Scale) -> (r: u8)
    ensures
        r == one_step_toward(cur as int, target as int, scale),
        r == cur || r <= 127,
{
    if cur == target {
        return cur;
    }
    let up = target > cur;
    let mut d: u8 = 1;
    while d <= 12
        invariant
            1 <= d <= 13,
            cur != target,
            up == (target > cur),
            one_step_toward(cur as int, target as int, scale) == toward_from(
                cur as int,
                target as int,
                scale,
                d as int,
            ),
        decreases 13 - d,
    {
        if up {
            if cur > 127 - d {
                return cur;
            }
        } else {
            if cur < d {
                return cur;
            }
        }
        let cand: u8 = if up {
            cur + d
        } else {
            cur - d
        };
        if cand > 127 {
            return cur;
        }
        if cand == target || scale.free || in_scale(cand, scale) {
            return cand;
        }
        d = d + 1;
    }
    cur
}

// ---------------------------------------------------------------------------
// Degrees of a mask
// ---------------------------------------------------------------------------

/// Semitones above the tonic that belong to the first `n` of a mask.
pub open spec fn mask_degrees(mask: u16, n: int) -> Seq<u8>
    decreases n,
{
    if n <= 0 {
        Seq::empty()
    } else {
        let p = mask_degrees(mask, n - 1);
        if mask_bit(mask, 11 - (n - 1)) { p.push((n - 1) as u8) } else { p }
    }
}

/// Degrees of a scale as semitones above its tonic; the tonic alone for an
/// empty mask.
pub open spec fn degrees(mask: u16) -> Seq<u8> {
    let d = mask_degrees(mask, 12);
    if d.len() == 0 { seq![0u8] } else { d }
}

proof fn mask_degrees_bounds(mask: u16, n: int)
    requires
        0 <= n <= 12,
    ensures
        mask_degrees(mask, n).len() <= n,
        forall|i: int| 0 <= i < mask_degrees(mask, n).len() ==> #[trigger] mask_degrees(mask, n)[i] < n,
        forall|i: int, j: int|
            0 <= i < j < mask_degrees(mask, n).len() ==> #[trigger] mask_degrees(mask, n)[i]
                < #[trigger] mask_degrees(mask, n)[j],
    decreases n,
{
    if n > 0 {
        mask_degrees_bounds(mask, n - 1);
    }
}

/// A scale has one to twelve degrees, all within an octave and ascending.
pub proof fn degrees_ascend(mask: u16)
    ensures
        1 <= degrees(mask).len() <= 12,
        forall|i: int| 0 <= i < degrees(mask).len() ==> #[trigger] degrees(mask)[i] < 12,
        forall|i: int, j: int|
            0 <= i < j < degrees(mask).len() ==> #[trigger] degrees(mask)[i] < #[trigger] degrees(
                mask,
            )[j],
{
    mask_degrees_bounds(mask, 12);
}

/// The degrees of a scale mask.
pub fn scale_degrees(mask: u16) -> (v: heapless::Vec<u8, 12>)
    ensures
        degree_list(v) == degrees(mask),
        1 <= degree_list(v).len() <= 12,
{
    let mut v = degree_list_new();
    let mut i: u8 = 0;
    while i < 12
        invariant
            i <= 12,
            degree_list(v) == mask_degrees(mask, i as int),
        decreases 12 - i,
    {
        proof {
            mask_degrees_bounds(mask, i as int);
        }
        if (mask >> (11 - i as u16)) & 1 != 0 {
            degree_list_push(&mut v, i);
        }
        i = i + 1;
    }
    proof {
        mask_degrees_bounds(mask, 12);
    }
    if degree_list_len(&v) == 0 {
        degree_list_push(&mut v, 0);
        assert(degree_list(v) =~= seq![0u8]);
    }
    v
}

// ---------------------------------------------------------------------------
// Laws
// ---------------------------------------------------------------------------

proof fn nearest_found(note: int, scale: Scale, toward: Option<u8>, d: int, k: int)
    requires
        0 <= note <= 127,
        1 <= d <= k <= 6,
        fits_below(note, k, scale) || fits_above(note, k, scale),
    ensures
        scale.has(nearest_from(note, scale, toward, d)),
    decreases 7 - d,
{
    if !(fits_below(note, d, scale) || fits_above(note, d, scale)) {
        nearest_found(note, scale, toward, d + 1, k);
    }
}

/// Snapping lands in the scale: for every scale with at least one degree and
/// every note that has six semitones of keyboard on either side.
pub proof fn snap_lands_in_scale(note: int, scale: Scale, toward: Option<u8>, member: int)
    requires
        6 <= note <= 121,
        0 <= member < 12,
        scale.has_pc(member),
    ensures
        scale.free || scale.has(snapped(note, scale, toward)),
{
    if !scale.free && !scale.has(note) {
        let r = note % 12;
        let up = if member >= r { member - r } else { member - r + 12 };
        same_class(note, up, member);
        if up <= 6 {
            assert(fits_above(note, up, scale));
            nearest_found(note, scale, toward, 1, up);
        } else {
            assert(fits_below(note, 12 - up, scale));
            nearest_found(note, scale, toward, 1, 12 - up);
        }
    }
}

proof fn same_class(note: int, up: int, member: int)
    requires
        0 <= note <= 127,
        0 <= member < 12,
        up == if member >= note % 12 { member - note % 12 } else { member - note % 12 + 12 },
    ensures
        (note + up) % 12 == member,
        (note + up - 12) % 12 == member,
        0 <= up < 12,
        up == 0 ==> note % 12 == member,
{
}

/// Snapping what is snapped changes nothing.
pub proof fn snap_is_idempotent(note: int, scale: Scale, toward: Option<u8>)
    requires
        scale.free || scale.has(snapped(note, scale, toward)),
    ensures
        snapped(snapped(note, scale, toward), scale, toward) == snapped(note, scale, toward),
{
}

proof fn toward_between(cur: int, target: int, scale: Scale, d: int)
    requires
        0 <= cur <= 127,
        0 <= target <= 127,
        cur != target,
        1 <= d,
        d <= dist(cur, target),
    ensures
        min_int(cur, target) <= toward_from(cur, target, scale, d) <= max_int(cur, target),
    decreases 13 - d,
{
    let c = if target > cur { cur + d } else { cur - d };
    if d <= 12 && c != target && !scale.free && !scale.has(c) {
        toward_between(cur, target, scale, d + 1);
    }
}

/// A glissando step never overshoots: it lies between where it starts and
/// where it is going.
pub proof fn step_stays_between(cur: int, target: int, scale: Scale)
    requires
        0 <= cur <= 127,
        0 <= target <= 127,
    ensures
        min_int(cur, target) <= one_step_toward(cur, target, scale) <= max_int(cur, target),
{
    if cur != target {
        toward_between(cur, target, scale, 1);
    }
}

} // verus!
