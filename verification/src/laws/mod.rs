//! What the parts promise of each other and over many calls, stated in the
//! units that a player meets: ticks, notes, fader positions.

pub mod buttons;
pub mod clock;
pub mod configure;
pub mod device;
pub mod four_chan;
pub mod heat_pump;
pub mod hold_sam;
pub mod layout;
pub mod led;
pub mod lfo;
pub mod loop_de_cay;
pub mod looper;
pub mod manifold;
pub mod morph;
pub mod ornament;
pub mod panel;
pub mod ripppple;
pub mod rng;
pub mod scale;
pub mod seq8;
pub mod super_lfo;
pub mod tb3po;
pub mod vamp;
pub mod venn;
