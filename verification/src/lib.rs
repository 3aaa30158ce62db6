//! A drum machine voice engine in fixed-point arithmetic.
//!
//! Pads are triggered with a velocity; each pad owns a generator, a tone or
//! a noise source shaped by an amplitude envelope; the machine mixes the pads
//! and scales the mix by its master volume. Beside the machine stands a
//! synth voice: an oscillator over any waveform, a first order filter and a
//! volume. Every quantity is an integer with a stated unit, so that every
//! result is an exact function of the state and of what chance draws.

pub mod arith;
pub mod drum_machine;
pub mod envelope;
pub mod filters;
pub mod generator;
pub mod laws;
pub mod model;
pub mod synth;
pub mod units;
pub mod waveforms;
