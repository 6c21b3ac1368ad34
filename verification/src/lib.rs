//! Terminal front end for a CHIP-8 style virtual machine core.
//!
//! The library holds the logic of the runtime shell: validating the
//! configuration, pacing the three scheduler loops, mapping logical key
//! codes to physical keys, and turning a machine snapshot into a plan of
//! terminal drawing commands. Everything that touches a device (terminal,
//! keyboard sampling, audio, the clock) lives outside the library and
//! exchanges plain values with it.

pub mod config;
pub mod input;
pub mod machine;
pub mod pacing;
pub mod termui;
