//! Tick generators and the 64-bit microsecond timers with their alarms.
pub mod ticks;
pub mod timer;
