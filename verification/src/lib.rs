//! Clock-tree planning and pin configuration for STM32F30x microcontrollers.
//!
//! The crate holds the decisions of a hardware abstraction layer and none of
//! its register accesses: every function works on plain values, so that it can
//! be verified and run on any machine.

pub mod device;
pub mod flash;
pub mod gpio;
pub mod rcc;
pub mod sequencer;
pub mod solver;
pub mod time;
