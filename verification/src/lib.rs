//! A verified action-driven pulse generation engine.
//!
//! The engine drives a hardware pin (or pin pair) through a timed sequence of
//! pulses. A caller-supplied action source is asked repeatedly "what should
//! happen next"; the answers are encoded into fixed-width records, buffered in
//! a circular action buffer, and rendered in order onto a pin controller by a
//! generation loop.

pub mod action;
pub mod buffer;
pub mod codec;
pub mod error;
pub mod generator;
pub mod interface;
pub mod scripted;
