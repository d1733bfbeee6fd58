//! Verified control logic of a sixteen-channel fader instrument: the apps that
//! run on its channels, the clock that drives them, the layout that places
//! them and the protocols that configure them.

pub mod apps;
pub mod bounded;
pub mod laws;
pub mod layout;
pub mod panel;
pub mod tasks;
pub mod usb_midi;
