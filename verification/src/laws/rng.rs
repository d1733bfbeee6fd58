//! What the random generator promises.

use crate::apps::rng::xorshift;
use vstd::prelude::*;

verus! {

/// No two states lead to the same one, so that the generator goes round
/// without a dead end.
pub proof fn states_do_not_merge(s: u32, t: u32)
    requires
        xorshift(s) == xorshift(t),
    ensures
        s == t,
{
    let a = s ^ (s << 13u32);
    let b = a ^ (a >> 17u32);
    let c = t ^ (t << 13u32);
    let d = c ^ (c >> 17u32);
    assert(b ^ (b << 5u32) == d ^ (d << 5u32) ==> b == d) by (bit_vector);
    assert(a ^ (a >> 17u32) == c ^ (c >> 17u32) ==> a == c) by (bit_vector);
    assert(s ^ (s << 13u32) == t ^ (t << 13u32) ==> s == t) by (bit_vector);
}

/// Every bit of a state acts on its own: the lowest and the highest show how
/// far bits travel.
pub proof fn bits_act_on_their_own(s: u32, t: u32)
    ensures
        xorshift(s ^ t) == xorshift(s) ^ xorshift(t),
        xorshift(1) == 0x0004_2021,
        xorshift(0x8000_0000) == 0x8008_4000,
{
    assert(xorshift(s ^ t) == xorshift(s) ^ xorshift(t)) by (bit_vector);
    assert(xorshift(1) == 0x0004_2021 && xorshift(0x8000_0000) == 0x8008_4000) by (bit_vector);
}

} // verus!
