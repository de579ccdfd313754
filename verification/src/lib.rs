//! A verified Morse-code signal scheduler.
//!
//! The crate turns a text message and a base time unit into the exact
//! sequence of timed line levels (pulses and gaps) that spells the message
//! in Morse code on a single binary output line.

pub mod code;
pub mod timeline;
pub mod player;
