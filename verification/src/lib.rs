//! A polyphonic wavetable synthesizer voice engine.
//!
//! The engine turns note-on / note-off events into a stream of audio
//! samples shaped by a selectable waveform, an attack/decay/sustain/release
//! amplitude envelope and a two-stage smoothing filter.  All signal values
//! are fixed-point fractions (see [`fixed::SCALE`]), so every step of the
//! synthesis path is deterministic integer arithmetic with proved bounds.

pub mod fixed;
pub mod envelope;
pub mod filter;
pub mod note;
pub mod oscillator;
pub mod registry;
pub mod wavetable;
