//! Drivers for three devices on a shared two-wire addressed bus: an
//! 8-channel multiplexer, a force sensor reached through a command-framed
//! register protocol, and an 8-pin GPIO expander.
//!
//! Each driver owns its transport exclusively and turns logical operations
//! into bus transactions; the contracts pin down the exact byte sequences
//! sent and the decoding of every byte received.

pub mod bits;
pub mod bus;
pub mod pca9548;
pub mod qwiic_gpio;
pub mod singletact;
