//! Device-wide tasks: clock, configuration, transports and diagnostics.

pub mod clock;
pub mod configure;
pub mod panic_beacon;
pub mod transport;
pub mod voct_freq;
