//! Audio configuration: sample rate, bit depth, and the derived block length.

use vstd::prelude::*;

verus! {

/// Default audio sample rate (CD quality).
pub const DEFAULT_SAMPLE_RATE: u32 = 44100;

/// Default bit depth.
pub const DEFAULT_BIT_DEPTH: u16 = 16;

/// Sample rates the command line accepts.
pub open spec fn sample_rate_allowed(sample_rate: u32) -> bool {
    ||| sample_rate == 44100
    ||| sample_rate == 48000
    ||| sample_rate == 96000
    ||| sample_rate == 192000
}

/// Bit depths the encoder supports: 16, 24 and 32 bits per sample.
pub open spec fn bit_depth_allowed(bit_depth: u16) -> bool {
    ||| bit_depth == 16
    ||| bit_depth == 24
    ||| bit_depth == 32
}

/// Rejected command-line arguments, reported before any file is opened.
#[derive(Clone, Copy, Debug, PartialEq, Eq, Structural)]
pub enum InvalidArg {
    /// The sample rate is not one of 44100, 48000, 96000, 192000.
    SampleRate,
    /// The bit depth is not one of 16, 24, 32.
    BitDepth,
    /// The duration is not positive.
    Duration,
    /// A frequency list is empty where one is required.
    EmptyFrequencies,
    /// A sweep with equal endpoints or a non-positive endpoint.
    SweepRange,
}

/// Number of samples in a block of `duration_ms` milliseconds at
/// `sample_rate` hertz: `sample_rate * duration_ms / 1000`, rounded half
/// up.
pub open spec fn spec_num_samples(sample_rate: u32, duration_ms: u64) -> int {
    (sample_rate * duration_ms + 500) / 1000
}

/// Audio configuration for sample rate and bit depth.
#[derive(Clone, Copy, Debug, PartialEq, Eq, Structural)]
pub struct AudioConfig {
    pub sample_rate: u32,
    pub bit_depth: u16,
}

impl AudioConfig {
    /// Configurations every generator and the encoder rely on.
    pub open spec fn wf(self) -> bool {
        self.sample_rate > 0 && bit_depth_allowed(self.bit_depth)
    }

    /// Validate command-line arguments; the sample rate is examined first.
    pub fn checked_new(sample_rate: u32, bit_depth: u16) -> (r: Result<AudioConfig, InvalidArg>)
        ensures
            r is Ok <==> sample_rate_allowed(sample_rate) && bit_depth_allowed(bit_depth),
            r matches Ok(c) ==> c == (AudioConfig { sample_rate, bit_depth }) && c.wf(),
            !sample_rate_allowed(sample_rate) ==> r == Err::<AudioConfig, InvalidArg>(
                InvalidArg::SampleRate,
            ),
            sample_rate_allowed(sample_rate) && !bit_depth_allowed(bit_depth) ==> r
                == Err::<AudioConfig, InvalidArg>(InvalidArg::BitDepth),
    {
        if !(sample_rate == 44100 || sample_rate == 48000 || sample_rate == 96000 || sample_rate
            == 192000) {
            Err(InvalidArg::SampleRate)
        } else if !(bit_depth == 16 || bit_depth == 24 || bit_depth == 32) {
            Err(InvalidArg::BitDepth)
        } else {
            Ok(AudioConfig { sample_rate, bit_depth })
        }
    }

    /// Block length for a duration in milliseconds, rounded to the nearest
    /// sample; `None` only when the count cannot be addressed on this
    /// machine.
    pub fn num_samples(&self, duration_ms: u64) -> (r: Option<usize>)
        ensures
            r matches Some(n) ==> n == spec_num_samples(self.sample_rate, duration_ms),
            r is Some <==> spec_num_samples(self.sample_rate, duration_ms) <= usize::MAX,
    {
        proof {
            let s = self.sample_rate as int;
            let d = duration_ms as int;
            assert(s * d <= u32::MAX * u64::MAX) by (nonlinear_arith)
                requires
                    0 <= s <= u32::MAX,
                    0 <= d <= u64::MAX,
            ;
        }
        let prod: u128 = self.sample_rate as u128 * duration_ms as u128 + 500;
        let n: u128 = prod / 1000;
        if n > usize::MAX as u128 {
            None
        } else {
            Some(n as usize)
        }
    }
}

/// A duration must be positive.
pub fn validate_duration_ms(duration_ms: u64) -> (r: Result<u64, InvalidArg>)
    ensures
        r is Ok <==> duration_ms > 0,
        duration_ms > 0 ==> r == Ok::<u64, InvalidArg>(duration_ms),
        duration_ms == 0 ==> r == Err::<u64, InvalidArg>(InvalidArg::Duration),
{
    if duration_ms == 0 {
        Err(InvalidArg::Duration)
    } else {
        Ok(duration_ms)
    }
}

/// A layered or drone recipe needs at least one frequency.
pub fn validate_frequencies(freqs: &Vec<u64>) -> (r: Result<(), InvalidArg>)
    ensures
        r is Ok <==> freqs@.len() > 0,
        r is Err ==> r == Err::<(), InvalidArg>(InvalidArg::EmptyFrequencies),
{
    if freqs.len() == 0 {
        Err(InvalidArg::EmptyFrequencies)
    } else {
        Ok(())
    }
}

/// A sweep needs two distinct positive endpoints.
pub fn validate_sweep(start_centi: u64, end_centi: u64) -> (r: Result<(), InvalidArg>)
    ensures
        r is Ok <==> start_centi > 0 && end_centi > 0 && start_centi != end_centi,
        r is Err ==> r == Err::<(), InvalidArg>(InvalidArg::SweepRange),
{
    if start_centi == 0 || end_centi == 0 || start_centi == end_centi {
        Err(InvalidArg::SweepRange)
    } else {
        Ok(())
    }
}

impl Default for AudioConfig {
    /// 44100 Hz at 16 bits per sample.
    fn default() -> (c: AudioConfig)
        ensures
            c.sample_rate == DEFAULT_SAMPLE_RATE,
            c.bit_depth == DEFAULT_BIT_DEPTH,
            c.wf(),
    {
        AudioConfig { sample_rate: DEFAULT_SAMPLE_RATE, bit_depth: DEFAULT_BIT_DEPTH }
    }
}

} // verus!
