//! The random generator that patterns are drawn from: the same seed gives the
//! same pattern.

use vstd::prelude::*;

verus! {

/// Next state of the xorshift generator.
pub open spec fn xorshift(s: u32) -> u32 {
    let a = s ^ (s << 13u32);
    let b = a ^ (a >> 17u32);
    b ^ (b << 5u32)
}

pub fn xorshift32(state: &mut u32) -> (r: u32)
    ensures
        *final(state) == xorshift(*old(state)),
        r == *final(state),
{
    *state = *state ^ (*state << 13u32);
    *state = *state ^ (*state >> 17u32);
    *state = *state ^ (*state << 5u32);
    *state
}

/// A generator that does not start at zero never gets there.
pub proof fn generator_never_dies(s: u32)
    requires
        s != 0,
    ensures
        xorshift(s) != 0,
{
    let a = s ^ (s << 13u32);
    let b = a ^ (a >> 17u32);
    assert(s != 0 ==> s ^ (s << 13u32) != 0) by (bit_vector);
    assert(a != 0 ==> a ^ (a >> 17u32) != 0) by (bit_vector);
    assert(b != 0 ==> b ^ (b << 5u32) != 0) by (bit_vector);
}

} // verus!
