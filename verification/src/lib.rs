//! Pin mode configuration for microcontroller GPIO lines.
//!
//! A pinout is an ordered list of groups; each group names a target mode and
//! the pins that are to take it. One configuration pass walks the pinout in
//! declaration order and puts every pin into the mode of its group.

pub mod configure;
pub mod function;
pub mod group;
pub mod laws;
pub mod mode;
pub mod pin;
pub mod pinout;
