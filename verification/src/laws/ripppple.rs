//! What the chained oscillators promise.

use crate::apps::ripppple::{scaled, shape_of, Dest, Ripppple};
use crate::panel::{Act, Brightness, Led};
use vstd::prelude::*;

verus! {

/// A modulation moves the shape by its amount, inside the range, and only where
/// the shape is what it modulates.
pub proof fn modulation_reaches_the_shape(shape: int, amount: int)
    requires
        0 <= shape <= 4095,
    ensures
        shape_of(shape, Dest::Rate, amount) == shape,
        shape_of(shape, Dest::Depth, amount) == shape,
        0 <= shape + amount <= 4095 ==> shape_of(shape, Dest::Shape, amount) - shape == amount,
        shape + amount < 0 ==> shape_of(shape, Dest::Shape, amount) == 0,
        shape + amount > 4095 ==> shape_of(shape, Dest::Shape, amount) == 4095,
{
}

/// A mute scales a sample by its gain.
pub proof fn mutes_scale_by_their_gain(sample: int, gain: int)
    requires
        0 <= sample,
        0 <= gain <= 4095,
    ensures
        0 <= sample * gain - 4095 * scaled(sample, gain) < 4095,
        0 <= scaled(sample, gain) <= sample,
{
    assert(0 <= sample * gain <= sample * 4095) by (nonlinear_arith)
        requires
            0 <= sample,
            0 <= gain <= 4095,
    ;
}

/// The destinations cycle from rate to depth to shape.
pub proof fn dests_keep_their_order()
    ensures
        Dest::Rate.after() == Dest::Depth,
        Dest::Depth.after() == Dest::Shape,
        Dest::Shape.after() == Dest::Rate,
        Dest::at(0) == Dest::Rate,
        Dest::at(1) == Dest::Depth,
        Dest::at(2) == Dest::Shape,
{
}

/// The button of a muted stage is dark; that of another shows its level.
pub proof fn stage_buttons_show_their_level(s: Ripppple, i: int)
    requires
        0 <= i < 3,
    ensures
        s.store.muted[i] ==> s.stage_button(i) == seq![
            Act::Dark { chan: (i + 1) as usize, led: Led::Button },
        ],
        !s.store.muted[i] && s.btn_flash[i + 1] == 0 ==> s.stage_button(i).len() == 1
            && s.stage_button(i)[0] is Signal && s.stage_button(i)[0]->Signal_level
            == s.out_levels[i] && s.stage_button(i)[0]->Signal_chan == i + 1,
        !s.store.muted[i] && s.btn_flash[i + 1] > 0 ==> s.stage_button(i).len() == 0,
        s.btn_flash[0] == 0 && s.held ==> s.root_button(0).len() == 1 && s.root_button(0)[0] is Light
            && s.root_button(0)[0]->Light_bright == Brightness::Mid,
{
}

} // verus!
