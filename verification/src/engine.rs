use vstd::prelude::*;

use crate::config::AudioConfig;
use crate::sample::quantize_spec;
use crate::sample::quantize_sample;

verus! {

/// The audio engine: an immutable configuration plus a running/stopped flag.
///
/// The flag is pure lifecycle state: it is set by `start`, cleared by `stop`,
/// and has no effect on the processing operations, which depend only on the
/// configuration and their own inputs.
pub struct AudioEngine {
    config: AudioConfig,
    running: bool,
}

impl AudioEngine {
    /// The configuration this engine was built from.
    pub closed spec fn spec_config(&self) -> AudioConfig {
        self.config
    }

    /// Whether the engine is currently considered active.
    pub closed spec fn spec_running(&self) -> bool {
        self.running
    }

    /// The configuration this engine was built from.
    pub fn config(&self) -> (c: AudioConfig)
        ensures
            c == self.spec_config(),
    {
        self.config
    }

    /// Build an engine that owns `config` and starts out stopped.
    pub fn new(config: AudioConfig) -> (engine: AudioEngine)
        ensures
            engine.spec_config() == config,
            !engine.spec_running(),
    {
        AudioEngine { config, running: false }
    }

    /// Mark the engine as running.
    ///
    /// Always succeeds today; the `Result` reserves a recoverable
    /// initialization failure for configuration validation that a fuller
    /// engine might perform, so callers must already handle the error path.
    pub fn start(&mut self) -> (r: Result<(), String>)
        ensures
            final(self).spec_running(),
            final(self).spec_config() == old(self).spec_config(),
            r == Ok::<(), String>(()),
    {
        self.running = true;
        Ok(())
    }

    /// Mark the engine as stopped.
    pub fn stop(&mut self)
        ensures
            !final(self).spec_running(),
            final(self).spec_config() == old(self).spec_config(),
    {
        self.running = false;
    }

    /// Whether the engine is currently considered active.
    pub fn is_running(&self) -> (r: bool)
        ensures
            r == self.spec_running(),
    {
        self.running
    }

    /// How many samples a sine wave of `duration_ms` milliseconds holds at
    /// this engine's sample rate: `sample_rate * duration_ms / 1000`,
    /// truncating. Very short durations at low sample rates legitimately
    /// yield zero samples, and a zero sample rate yields an empty wave.
    pub fn sine_wave_sample_count(&self, duration_ms: u32) -> (n: u64)
        ensures
            n == self.spec_config().sample_rate * duration_ms / 1000,
    {
        proof {
            assert((self.config.sample_rate as int) * (duration_ms as int)
                <= 0xFFFF_FFFF * 0xFFFF_FFFF) by (nonlinear_arith)
                requires
                    self.config.sample_rate <= 0xFFFF_FFFFu32,
                    duration_ms <= 0xFFFF_FFFFu32,
            ;
        }
        (self.config.sample_rate as u64) * (duration_ms as u64) / 1000
    }

    /// Run the gain-and-quantize stage over a buffer of micro-unit samples.
    ///
    /// The output has exactly the input's length, and each output sample is
    /// the quantization of the input sample at the same index; the operation
    /// is stateless and depends on nothing but the input.
    pub fn process_audio_buffer(&self, input: &Vec<i64>) -> (out: Vec<i64>)
        ensures
            out@.len() == input@.len(),
            forall|i: int| 0 <= i < input@.len() ==> out@[i] == quantize_spec(input@[i] as int),
    {
        let mut out: Vec<i64> = Vec::new();
        let mut idx: usize = 0;
        while idx < input.len()
            invariant
                idx <= input@.len(),
                out@.len() == idx,
                forall|i: int| 0 <= i < idx ==> out@[i] == quantize_spec(input@[i] as int),
            decreases input@.len() - idx,
        {
            let q = quantize_sample(input[idx]);
            out.push(q);
            idx = idx + 1;
        }
        out
    }
}

} // verus!
