//! What the panel's arithmetic promises.

use crate::panel::{layer_of, modulated, pct_value, quot, LatchLayer};
use vstd::prelude::*;

verus! {

/// A modulation in the middle changes nothing; any other moves the value by its
/// distance from the middle, inside the range.
pub proof fn modulation_moves_around_the_middle(base: int, in_val: int)
    ensures
        0 <= base <= 4095 ==> modulated(base, 2047) == base,
        0 <= base + (in_val - 2047) <= 4095 ==> modulated(base, in_val) - base == in_val - 2047,
        base + (in_val - 2047) < 0 ==> modulated(base, in_val) == 0,
        base + (in_val - 2047) > 4095 ==> modulated(base, in_val) == 4095,
{
}

/// Percents are spread over the fader scale.
pub proof fn percents_fill_the_scale(pct: int)
    ensures
        0 <= pct <= 100 ==> 0 <= 4095 * pct - 100 * pct_value(pct) < 100,
        pct < 0 ==> pct_value(pct) == 0,
        pct > 100 ==> pct_value(pct) == 4095,
        pct_value(100) == 4095,
{
}

/// A quotient toward zero is as large either side of it, and takes at most the
/// whole.
pub proof fn quotients_are_symmetric(a: int, b: int)
    requires
        b > 0,
    ensures
        quot(-a, b) == -quot(a, b),
        a >= 0 ==> 0 <= a - b * quot(a, b) < b,
        a <= 0 ==> -b < a - b * quot(a, b) <= 0,
{
    let p = if a >= 0 { a } else { -a };
    let q = p / b;
    assert(0 <= p - b * q < b) by (nonlinear_arith)
        requires
            q == p / b,
            b > 0,
            p >= 0,
    ;
    assert(b * (-q) == -(b * q)) by (nonlinear_arith);
    if a == 0 {
        assert(q == 0) by (nonlinear_arith)
            requires
                q == 0int / b,
                b > 0,
        ;
    }
}

/// Shift alone selects the second layer and the button alone the third; neither
/// or both select the first.
pub proof fn layers_follow_the_keys()
    ensures
        layer_of(true, false) == LatchLayer::Alt,
        layer_of(false, true) == LatchLayer::Third,
        layer_of(false, false) == LatchLayer::Main,
        layer_of(true, true) == LatchLayer::Main,
{
}

} // verus!
