//! Verified core of an LED light-show controller: a cyclic animation over a
//! fixed frame of RGB pixels, a pulse-train encoder for an addressable strip
//! driven over a serial bus, and a priority-ceiling scheduling discipline
//! between the animation loop and a button interrupt handler.

pub mod color;
pub mod animation;
pub mod encoder;
pub mod bus;
pub mod scheduler;
pub mod bootstrap;
