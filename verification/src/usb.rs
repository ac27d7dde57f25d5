//! USB device controller: the dual-port RAM layout, endpoint registers, setup
//! packets, descriptors and the control endpoint's request handling.
pub mod cdc;
pub mod control;
pub mod descriptors;
pub mod dpram;
pub mod protocol;
