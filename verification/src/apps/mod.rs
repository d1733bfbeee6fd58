//! The apps and the helpers they share.

pub mod four_chan;
pub mod heat_pump;
pub mod hold_sam;
pub mod led_fx;
pub mod led_spectrum;
pub mod lfo;
pub mod loop_de_cay;
pub mod manifold;
pub mod morph;
pub mod ornament;
pub mod ripppple;
pub mod rng;
pub mod scale;
pub mod seq8;
pub mod super_lfo;
pub mod tb3po;
pub mod vamp;
pub mod venn;
