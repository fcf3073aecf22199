//! Core logic of an interactive audio playback pipeline.
//!
//! A producer thread decodes compressed audio into interleaved samples,
//! remaps channels, and paces itself into a bounded ring buffer; a realtime
//! consumer drains that buffer into the output device without ever blocking;
//! a control loop turns key presses into transport commands (pause, seek,
//! volume, stop) on a shared transport state.
//!
//! Samples are fixed-point integers, time is in milliseconds and volume in
//! tenths of a unit, so that every rule of the pipeline is a statement over
//! plain integers; the unverified shell converts device floats at the edges.

pub mod consumer;
pub mod control;
pub mod producer;
pub mod remap;
pub mod ring;
pub mod sample;
pub mod transport;
