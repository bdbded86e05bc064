use noise_generator::settings::{
    generator_choice, noise_color, normalization_choice, resolve_settings, sample_rate_choice,
    seconds_choice, Color, Generator, NormalizationChoice, Request, RunError, Settings,
    DEFAULT_SAMPLE_RATE, DEFAULT_SECONDS,
};
use noise_generator::NoiseColor;

fn empty_request() -> Request {
    Request {
        output_exists: false,
        force: false,
        color: None,
        generator: None,
        seconds: None,
        rate: None,
        rms_given: false,
        peak_given: false,
    }
}

#[test]
fn defaults_when_nothing_is_given() {
    let s = resolve_settings(&empty_request()).unwrap();
    assert_eq!(
        s,
        Settings {
            generator: Generator::OLAP,
            color: NoiseColor::White,
            seconds: 10,
            sample_rate: 44100,
            sample_rate_adjusted: false,
            normalization: NormalizationChoice::DefaultRms,
        }
    );
    assert_eq!(DEFAULT_SECONDS, 10);
    assert_eq!(DEFAULT_SAMPLE_RATE, 44100);
}

#[test]
fn existing_file_is_refused_without_force() {
    let req = Request { output_exists: true, ..empty_request() };
    assert_eq!(resolve_settings(&req), Err(RunError::FileExists));
}

#[test]
fn existing_file_is_refused_before_zero_length() {
    let req = Request { output_exists: true, seconds: Some(0), ..empty_request() };
    assert_eq!(resolve_settings(&req), Err(RunError::FileExists));
}

#[test]
fn existing_file_is_overwritten_with_force() {
    let req = Request { output_exists: true, force: true, ..empty_request() };
    assert!(resolve_settings(&req).is_ok());
}

#[test]
fn zero_seconds_is_refused() {
    let req = Request { seconds: Some(0), ..empty_request() };
    assert_eq!(resolve_settings(&req), Err(RunError::ZeroLength));
    assert_eq!(seconds_choice(Some(0)), Err(RunError::ZeroLength));
}

#[test]
fn seconds_are_kept() {
    assert_eq!(seconds_choice(Some(1)), Ok(1));
    assert_eq!(seconds_choice(Some(3600)), Ok(3600));
    assert_eq!(seconds_choice(None), Ok(10));
}

#[test]
fn odd_sample_rate_is_raised_to_even() {
    assert_eq!(sample_rate_choice(Some(44101)), (44102, true));
    assert_eq!(sample_rate_choice(Some(1)), (2, true));
    assert_eq!(sample_rate_choice(Some(48000)), (48000, false));
    assert_eq!(sample_rate_choice(Some(0)), (0, false));
    assert_eq!(sample_rate_choice(None), (44100, false));
    assert_eq!(sample_rate_choice(Some(usize::MAX - 1)), (usize::MAX - 1, false));
}

#[test]
fn resolved_sample_rate_is_stable() {
    let (first, _) = sample_rate_choice(Some(22051));
    let (second, adjusted) = sample_rate_choice(Some(first));
    assert_eq!(first, second);
    assert!(!adjusted);
}

#[test]
fn adjusted_rate_reaches_settings() {
    let req = Request { rate: Some(11025), ..empty_request() };
    let s = resolve_settings(&req).unwrap();
    assert_eq!(s.sample_rate, 11026);
    assert!(s.sample_rate_adjusted);
}

#[test]
fn colors_map_to_noise_colors() {
    assert_eq!(noise_color(None), NoiseColor::White);
    assert_eq!(noise_color(Some(Color::White)), NoiseColor::White);
    assert_eq!(noise_color(Some(Color::Pink)), NoiseColor::Pink);
    assert_eq!(noise_color(Some(Color::Red)), NoiseColor::Brownian);
    assert_eq!(noise_color(Some(Color::Blue)), NoiseColor::Blue);
    assert_eq!(noise_color(Some(Color::Violet)), NoiseColor::Violet);
    assert_eq!(noise_color(Some(Color::Grey)), NoiseColor::Grey);
}

#[test]
fn color_mapping_is_one_to_one() {
    let all = [Color::White, Color::Pink, Color::Red, Color::Blue, Color::Violet, Color::Grey];
    for a in all {
        for b in all {
            assert_eq!(noise_color(Some(a)) == noise_color(Some(b)), a == b);
        }
    }
}

#[test]
fn generator_defaults_to_overlap_add() {
    assert_eq!(generator_choice(None), Generator::OLAP);
    assert_eq!(generator_choice(Some(Generator::OLAP)), Generator::OLAP);
    assert_eq!(generator_choice(Some(Generator::PHC)), Generator::PHC);
}

#[test]
fn rms_target_wins_over_peak_target() {
    assert_eq!(normalization_choice(true, true), NormalizationChoice::Rms);
    assert_eq!(normalization_choice(true, false), NormalizationChoice::Rms);
    assert_eq!(normalization_choice(false, true), NormalizationChoice::Peak);
    assert_eq!(normalization_choice(false, false), NormalizationChoice::DefaultRms);
}

#[test]
fn all_options_reach_settings() {
    let req = Request {
        output_exists: false,
        force: true,
        color: Some(Color::Red),
        generator: Some(Generator::PHC),
        seconds: Some(5),
        rate: Some(48000),
        rms_given: false,
        peak_given: true,
    };
    assert_eq!(
        resolve_settings(&req),
        Ok(Settings {
            generator: Generator::PHC,
            color: NoiseColor::Brownian,
            seconds: 5,
            sample_rate: 48000,
            sample_rate_adjusted: false,
            normalization: NormalizationChoice::Peak,
        })
    );
}

#[test]
fn refusals_come_before_the_rate_at_its_limit() {
    let req = Request { output_exists: true, rate: Some(usize::MAX), ..empty_request() };
    assert_eq!(resolve_settings(&req), Err(RunError::FileExists));
    let req = Request { output_exists: true, seconds: Some(0), rate: Some(usize::MAX), ..empty_request() };
    assert_eq!(resolve_settings(&req), Err(RunError::FileExists));
    let req = Request { seconds: Some(0), rate: Some(usize::MAX), ..empty_request() };
    assert_eq!(resolve_settings(&req), Err(RunError::ZeroLength));
}
