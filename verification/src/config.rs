use vstd::prelude::*;

verus! {

/// Immutable description of the audio stream an engine works on.
///
/// The fields are informational for the engine core: none of the processing
/// operations validates its input against them, and no operation ever
/// mutates a configuration once an engine owns it.
#[derive(Clone, Copy, Debug, PartialEq, Eq)]
pub struct AudioConfig {
    /// Samples per second of audio.
    pub sample_rate: u32,
    /// Samples per processing block.
    pub buffer_size: usize,
    /// Number of interleaved channels.
    pub channels: u16,
    /// Target latency in milliseconds.
    pub latency_ms: u32,
}

impl AudioConfig {
    /// The stock configuration: CD-quality stereo with a small target latency.
    pub open spec fn spec_default() -> AudioConfig {
        AudioConfig { sample_rate: 44100, buffer_size: 1024, channels: 2, latency_ms: 10 }
    }
}

impl Default for AudioConfig {
    fn default() -> (c: Self)
        ensures
            c == AudioConfig::spec_default(),
    {
        AudioConfig { sample_rate: 44100, buffer_size: 1024, channels: 2, latency_ms: 10 }
    }
}

} // verus!
