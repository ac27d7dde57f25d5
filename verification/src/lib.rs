//! Register-level logic for an RP2350 board: clock and PLL configuration,
//! timer alarms, and a USB CDC device's descriptors and control-endpoint handling.
mod range_ops;
pub mod bits;
pub mod board;
pub mod common;
pub mod resets;
pub mod clocks;
pub mod timer;
pub mod trap;
pub mod usb;
