//! Deterministic synthesis core for a catalog-driven audio file generator.
//!
//! The crate covers the exact, discrete side of the pipeline: audio
//! configuration and its validation, block-length arithmetic, the
//! linear-congruential noise engines, fade-envelope coefficients, recipe
//! dispatch, and the PCM/WAV byte encoder.  Floating-point waveform
//! evaluation and file output live outside the library and consume these
//! functions.

pub mod config;
pub mod envelope;
pub mod noise;
pub mod pcm;
pub mod recipe;
pub mod wav;
