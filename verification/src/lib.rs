//! A minimal fixed-point audio-signal engine.
//!
//! The engine holds an immutable [`config::AudioConfig`], tracks a
//! running/stopped lifecycle flag, computes how many samples a sine wave of a
//! requested duration contains, and applies a fixed-gain quantization pass to
//! buffers of samples.
//!
//! Samples are carried in micro-units: an `i64` sample `m` stands for the
//! amplitude `m / 1_000_000`. All amplitude processing is exact integer
//! arithmetic on that representation; evaluating the floating-point sine
//! primitive itself is left to the embedding host.

pub mod config;
pub mod engine;
pub mod sample;

pub use config::AudioConfig;
pub use engine::AudioEngine;
