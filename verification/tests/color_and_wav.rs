use noise_generator::wav::{noise_wav_format, SampleFormat, WavFormat};
use noise_generator::NoiseColor;

#[test]
fn noise_color_names() {
    assert_eq!(NoiseColor::White.to_string(), "white");
    assert_eq!(NoiseColor::Pink.to_string(), "pink");
    assert_eq!(NoiseColor::Brownian.to_string(), "brownian");
    assert_eq!(NoiseColor::Blue.to_string(), "blue");
    assert_eq!(NoiseColor::Violet.to_string(), "violet");
    assert_eq!(NoiseColor::Grey.to_string(), "grey");
    assert_eq!(NoiseColor::Grey.name(), "grey");
}

#[test]
fn noise_color_names_are_distinct() {
    let all = [
        NoiseColor::White,
        NoiseColor::Pink,
        NoiseColor::Brownian,
        NoiseColor::Blue,
        NoiseColor::Violet,
        NoiseColor::Grey,
    ];
    for a in all {
        for b in all {
            assert_eq!(a.name() == b.name(), a == b);
        }
    }
}

#[test]
fn wav_format_is_mono_16_bit_pcm() {
    assert_eq!(
        noise_wav_format(44100),
        WavFormat {
            channels: 1,
            sample_rate: 44100,
            bits_per_sample: 16,
            sample_format: SampleFormat::Int,
        }
    );
}

#[test]
fn wav_format_sample_rate_wraps_at_32_bits() {
    if usize::BITS == 64 {
        let rate: u64 = (1u64 << 32) + 48000;
        assert_eq!(noise_wav_format(rate as usize).sample_rate, 48000);
    }
    assert_eq!(noise_wav_format(0).sample_rate, 0);
}
