//! The layout of the WAV files that a run writes.

use vstd::prelude::*;

verus! {

/// Number of channels of the output: mono.
pub const OUTPUT_CHANNELS: u16 = 1;

/// Bits per sample of the output.
pub const OUTPUT_BITS_PER_SAMPLE: u16 = 16;

/// How the samples of a WAV file are stored.
#[derive(Clone, Copy, Debug, PartialEq, Eq, Structural)]
pub enum SampleFormat {
    /// IEEE floating point samples.
    Float,
    /// Integer (PCM) samples.
    Int,
}

/// The properties of the audio data of a WAV file.
#[derive(Clone, Copy, Debug, PartialEq, Eq, Structural)]
pub struct WavFormat {
    pub channels: u16,
    pub sample_rate: u32,
    pub bits_per_sample: u16,
    pub sample_format: SampleFormat,
}

/// The format in which noise is written: mono, 16-bit integer samples, at the
/// given sample rate taken modulo 2^32 (the header field has 32 bits).
pub fn noise_wav_format(sample_rate: usize) -> (f: WavFormat)
    ensures
        f.channels == 1,
        f.bits_per_sample == 16,
        f.sample_format == SampleFormat::Int,
        f.sample_rate == sample_rate as int % 0x1_0000_0000,
{
    let rate: u32 = sample_rate as u32;
    assert(sample_rate as u32 == (sample_rate as u64) % 0x1_0000_0000u64) by (bit_vector);
    WavFormat {
        channels: OUTPUT_CHANNELS,
        sample_rate: rate,
        bits_per_sample: OUTPUT_BITS_PER_SAMPLE,
        sample_format: SampleFormat::Int,
    }
}

} // verus!
