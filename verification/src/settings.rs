//! The decisions that turn the user's options into the settings of a run:
//! which generator, which color, how long, at which sample rate, and how the
//! signal is normalized.

use vstd::prelude::*;

use crate::NoiseColor;

verus! {

/// Length of the output in seconds when none is asked for.
pub const DEFAULT_SECONDS: usize = 10;

/// Sample rate when none is asked for.
pub const DEFAULT_SAMPLE_RATE: usize = 44100;

/// Noise generator algorithm.
#[derive(Clone, Copy, Debug, PartialEq, Eq, Structural)]
pub enum Generator {
    /// Inverse FFT with phase continuation between blocks.
    PHC,
    /// Inverse FFT of overlapping windowed blocks.
    OLAP,
}

/// Noise color as the user names it.
#[derive(Clone, Copy, Debug, PartialEq, Eq, Structural)]
pub enum Color {
    White,
    Pink,
    Red,
    Blue,
    Violet,
    Grey,
}

/// Which option decides the normalization target.
#[derive(Clone, Copy, Debug, PartialEq, Eq, Structural)]
pub enum NormalizationChoice {
    /// Normalize to the RMS level the user gave.
    Rms,
    /// Normalize to the peak level the user gave.
    Peak,
    /// Normalize to the default RMS level.
    DefaultRms,
}

/// Why a run is refused before any noise is generated.
#[derive(Clone, Copy, Debug, PartialEq, Eq, Structural)]
pub enum RunError {
    /// The output file exists and overwriting was not forced.
    FileExists,
    /// A length of zero seconds was asked for.
    ZeroLength,
}

/// The options of a run, as plain values.
#[derive(Clone, Copy, Debug, PartialEq, Eq, Structural)]
pub struct Request {
    /// Whether the output file exists already.
    pub output_exists: bool,
    /// Whether an existing output file may be overwritten.
    pub force: bool,
    pub color: Option<Color>,
    pub generator: Option<Generator>,
    pub seconds: Option<usize>,
    pub rate: Option<usize>,
    /// Whether an RMS target was given.
    pub rms_given: bool,
    /// Whether a peak target was given.
    pub peak_given: bool,
}

/// The settings of a run that was accepted.
#[derive(Clone, Copy, Debug, PartialEq, Eq, Structural)]
pub struct Settings {
    pub generator: Generator,
    pub color: NoiseColor,
    pub seconds: usize,
    pub sample_rate: usize,
    /// Whether the sample rate differs from the one asked for.
    pub sample_rate_adjusted: bool,
    pub normalization: NormalizationChoice,
}

pub open spec fn spec_noise_color(color: Option<Color>) -> NoiseColor {
    match color {
        None => NoiseColor::White,
        Some(Color::White) => NoiseColor::White,
        Some(Color::Pink) => NoiseColor::Pink,
        Some(Color::Red) => NoiseColor::Brownian,
        Some(Color::Blue) => NoiseColor::Blue,
        Some(Color::Violet) => NoiseColor::Violet,
        Some(Color::Grey) => NoiseColor::Grey,
    }
}

/// The user color that names a noise color.
pub open spec fn spec_user_color(color: NoiseColor) -> Color {
    match color {
        NoiseColor::White => Color::White,
        NoiseColor::Pink => Color::Pink,
        NoiseColor::Brownian => Color::Red,
        NoiseColor::Blue => Color::Blue,
        NoiseColor::Violet => Color::Violet,
        NoiseColor::Grey => Color::Grey,
    }
}

pub open spec fn spec_generator(generator: Option<Generator>) -> Generator {
    match generator {
        Some(Generator::PHC) => Generator::PHC,
        _ => Generator::OLAP,
    }
}

pub open spec fn spec_normalization(rms_given: bool, peak_given: bool) -> NormalizationChoice {
    if rms_given {
        NormalizationChoice::Rms
    } else if peak_given {
        NormalizationChoice::Peak
    } else {
        NormalizationChoice::DefaultRms
    }
}

/// The rate asked for, or the default one.
pub open spec fn spec_requested_rate(rate: Option<usize>) -> int {
    match rate {
        Some(r) => r as int,
        None => DEFAULT_SAMPLE_RATE as int,
    }
}

/// The sample rate of a run: the requested rate, raised by one when it is odd.
pub open spec fn spec_sample_rate(rate: Option<usize>) -> int {
    let r = spec_requested_rate(rate);
    if r % 2 == 1 {
        r + 1
    } else {
        r
    }
}

pub open spec fn spec_seconds(seconds: Option<usize>) -> Result<usize, RunError> {
    match seconds {
        Some(0) => Err(RunError::ZeroLength),
        Some(s) => Ok(s),
        None => Ok(DEFAULT_SECONDS),
    }
}

/// What a run's options resolve to.
pub open spec fn spec_resolve(req: Request) -> Result<Settings, RunError> {
    if req.output_exists && !req.force {
        Err(RunError::FileExists)
    } else {
        match spec_seconds(req.seconds) {
            Err(e) => Err(e),
            Ok(seconds) => Ok(
                Settings {
                    generator: spec_generator(req.generator),
                    color: spec_noise_color(req.color),
                    seconds,
                    sample_rate: spec_sample_rate(req.rate) as usize,
                    sample_rate_adjusted: spec_requested_rate(req.rate) % 2 == 1,
                    normalization: spec_normalization(req.rms_given, req.peak_given),
                },
            ),
        }
    }
}

/// The noise color for a user's color; white when none is given.
pub fn noise_color(color: Option<Color>) -> (c: NoiseColor)
    ensures
        c == spec_noise_color(color),
        color is None ==> c == NoiseColor::White,
        color == Some(Color::White) ==> c == NoiseColor::White,
        color == Some(Color::Pink) ==> c == NoiseColor::Pink,
        color == Some(Color::Red) ==> c == NoiseColor::Brownian,
        color == Some(Color::Blue) ==> c == NoiseColor::Blue,
        color == Some(Color::Violet) ==> c == NoiseColor::Violet,
        color == Some(Color::Grey) ==> c == NoiseColor::Grey,
{
    match color {
        None => NoiseColor::White,
        Some(Color::White) => NoiseColor::White,
        Some(Color::Pink) => NoiseColor::Pink,
        Some(Color::Red) => NoiseColor::Brownian,
        Some(Color::Blue) => NoiseColor::Blue,
        Some(Color::Violet) => NoiseColor::Violet,
        Some(Color::Grey) => NoiseColor::Grey,
    }
}

/// The generator to run; overlap-add when none is given.
pub fn generator_choice(generator: Option<Generator>) -> (g: Generator)
    ensures
        g == spec_generator(generator),
        g == Generator::PHC <==> generator == Some(Generator::PHC),
{
    match generator {
        Some(Generator::PHC) => Generator::PHC,
        _ => Generator::OLAP,
    }
}

/// Which option sets the normalization target: an RMS target wins over a
/// peak target, and with neither the default RMS target is used.
pub fn normalization_choice(rms_given: bool, peak_given: bool) -> (n: NormalizationChoice)
    ensures
        n == spec_normalization(rms_given, peak_given),
        rms_given ==> n == NormalizationChoice::Rms,
        !rms_given && peak_given ==> n == NormalizationChoice::Peak,
        !rms_given && !peak_given ==> n == NormalizationChoice::DefaultRms,
{
    if rms_given {
        NormalizationChoice::Rms
    } else if peak_given {
        NormalizationChoice::Peak
    } else {
        NormalizationChoice::DefaultRms
    }
}

/// The length of the output in seconds: the one asked for, or the default;
/// zero seconds is refused.
pub fn seconds_choice(seconds: Option<usize>) -> (res: Result<usize, RunError>)
    ensures
        res == spec_seconds(seconds),
        res is Ok <==> seconds != Some(0usize),
        res matches Ok(s) ==> s > 0,
        forall|n: usize| seconds == Some(n) && n != 0 ==> res == Ok::<usize, RunError>(n),
        seconds is None ==> res == Ok::<usize, RunError>(10),
        seconds == Some(0usize) ==> res == Err::<usize, RunError>(RunError::ZeroLength),
{
    match seconds {
        Some(s) => {
            if s == 0 {
                Err(RunError::ZeroLength)
            } else {
                Ok(s)
            }
        },
        None => Ok(DEFAULT_SECONDS),
    }
}

/// The sample rate of a run, and whether it differs from the one asked for:
/// an odd rate is raised to the next even one.
pub fn sample_rate_choice(rate: Option<usize>) -> (res: (usize, bool))
    requires
        rate != Some(usize::MAX),
    ensures
        res.0 == spec_sample_rate(rate),
        res.1 == (spec_requested_rate(rate) % 2 == 1),
        res.0 % 2 == 0,
        res.1 <==> res.0 != spec_requested_rate(rate),
        forall|r: usize| rate == Some(r) ==> res.0 == r + r % 2 && (res.1 <==> r % 2 == 1),
        rate is None ==> res == (44100usize, false),
{
    let mut r: usize = match rate {
        Some(r) => r,
        None => DEFAULT_SAMPLE_RATE,
    };
    if r % 2 == 1 {
        r = r + 1;
        (r, true)
    } else {
        (r, false)
    }
}

/// Resolves the options of a run into its settings, or refuses the run.
/// An existing output file that may not be overwritten is refused first,
/// then a length of zero seconds; only an accepted run needs a sample rate
/// that can be raised to an even one.
pub fn resolve_settings(req: &Request) -> (res: Result<Settings, RunError>)
    requires
        (req.output_exists && !req.force) || req.seconds == Some(0usize) || req.rate != Some(
            usize::MAX,
        ),
    ensures
        res == spec_resolve(*req),
        res == Err::<Settings, RunError>(RunError::FileExists) <==> (req.output_exists && !req.force),
        res == Err::<Settings, RunError>(RunError::ZeroLength) <==> (!(req.output_exists && !req.force)
            && req.seconds == Some(0usize)),
        res is Ok <==> (!(req.output_exists && !req.force) && req.seconds != Some(0usize)),
        res matches Ok(s) ==> {
            &&& (s.generator == Generator::PHC <==> req.generator == Some(Generator::PHC))
            &&& req.color is None ==> s.color == NoiseColor::White
            &&& req.color == Some(Color::White) ==> s.color == NoiseColor::White
            &&& req.color == Some(Color::Pink) ==> s.color == NoiseColor::Pink
            &&& req.color == Some(Color::Red) ==> s.color == NoiseColor::Brownian
            &&& req.color == Some(Color::Blue) ==> s.color == NoiseColor::Blue
            &&& req.color == Some(Color::Violet) ==> s.color == NoiseColor::Violet
            &&& req.color == Some(Color::Grey) ==> s.color == NoiseColor::Grey
            &&& (forall|n: usize| req.seconds == Some(n) ==> s.seconds == n)
            &&& req.seconds is None ==> s.seconds == 10
            &&& (forall|r: usize| req.rate == Some(r) ==> s.sample_rate == r + r % 2
                && (s.sample_rate_adjusted <==> r % 2 == 1))
            &&& req.rate is None ==> s.sample_rate == 44100 && !s.sample_rate_adjusted
            &&& req.rms_given ==> s.normalization == NormalizationChoice::Rms
            &&& !req.rms_given && req.peak_given ==> s.normalization == NormalizationChoice::Peak
            &&& !req.rms_given && !req.peak_given ==> s.normalization == NormalizationChoice::DefaultRms
        },
{
    if req.output_exists && !req.force {
        return Err(RunError::FileExists);
    }
    let seconds = match seconds_choice(req.seconds) {
        Ok(s) => s,
        Err(e) => {
            return Err(e);
        },
    };
    let (sample_rate, sample_rate_adjusted) = sample_rate_choice(req.rate);
    Ok(
        Settings {
            generator: generator_choice(req.generator),
            color: noise_color(req.color),
            seconds,
            sample_rate,
            sample_rate_adjusted,
            normalization: normalization_choice(req.rms_given, req.peak_given),
        },
    )
}

/// The sample rate of a run is always even, never below the rate asked for,
/// and at most one above it.
pub proof fn lemma_sample_rate_even(rate: Option<usize>)
    requires
        rate != Some(usize::MAX),
    ensures
        spec_sample_rate(rate) % 2 == 0,
        spec_requested_rate(rate) <= spec_sample_rate(rate) <= spec_requested_rate(rate) + 1,
        spec_sample_rate(rate) <= usize::MAX,
{
}

/// Asking again for the sample rate that a run settled on keeps it unchanged.
pub proof fn lemma_sample_rate_stable(rate: Option<usize>)
    requires
        rate != Some(usize::MAX),
    ensures
        spec_sample_rate(Some(spec_sample_rate(rate) as usize)) == spec_sample_rate(rate),
{
}

/// Every noise color is reached from exactly one user color.
pub proof fn lemma_color_mapping_bijective()
    ensures
        forall|a: Color, b: Color|
            #[trigger] spec_noise_color(Some(a)) == #[trigger] spec_noise_color(Some(b)) ==> a == b,
        forall|c: NoiseColor| spec_noise_color(Some(#[trigger] spec_user_color(c))) == c,
{
}

/// A run is refused exactly when the output exists without leave to
/// overwrite it, or when zero seconds are asked for; an accepted run keeps
/// the length asked for (ten seconds by default) and runs at an even rate.
pub proof fn lemma_resolve_accepts(req: Request)
    requires
        (req.output_exists && !req.force) || req.seconds == Some(0usize) || req.rate != Some(
            usize::MAX,
        ),
    ensures
        spec_resolve(req) is Err <==> ((req.output_exists && !req.force) || req.seconds == Some(0usize)),
        spec_resolve(req) matches Ok(s) ==> {
            &&& s.seconds > 0
            &&& s.seconds == match req.seconds { Some(n) => n, None => DEFAULT_SECONDS }
            &&& s.sample_rate % 2 == 0
        },
{
}

/// An accepted run follows every option it was given: the generator asked
/// for (overlap-add unless phase continuation is named), the user's color
/// (red gives brownian noise, none gives white), the length asked for (ten
/// seconds by default), the rate asked for raised to even (44100 by
/// default), and the RMS target before the peak target before the default.
pub proof fn lemma_resolve_follows_options(req: Request)
    requires
        (req.output_exists && !req.force) || req.seconds == Some(0usize) || req.rate != Some(
            usize::MAX,
        ),
    ensures
        spec_resolve(req) matches Ok(s) ==> {
            &&& (s.generator == Generator::PHC <==> req.generator == Some(Generator::PHC))
            &&& req.color is None ==> s.color == NoiseColor::White
            &&& req.color == Some(Color::White) ==> s.color == NoiseColor::White
            &&& req.color == Some(Color::Pink) ==> s.color == NoiseColor::Pink
            &&& req.color == Some(Color::Red) ==> s.color == NoiseColor::Brownian
            &&& req.color == Some(Color::Blue) ==> s.color == NoiseColor::Blue
            &&& req.color == Some(Color::Violet) ==> s.color == NoiseColor::Violet
            &&& req.color == Some(Color::Grey) ==> s.color == NoiseColor::Grey
            &&& (forall|n: usize| req.seconds == Some(n) ==> s.seconds == n)
            &&& req.seconds is None ==> s.seconds == 10
            &&& (forall|r: usize| req.rate == Some(r) ==> s.sample_rate == r + r % 2
                && (s.sample_rate_adjusted <==> r % 2 == 1))
            &&& req.rate is None ==> s.sample_rate == 44100 && !s.sample_rate_adjusted
            &&& req.rms_given ==> s.normalization == NormalizationChoice::Rms
            &&& !req.rms_given && req.peak_given ==> s.normalization == NormalizationChoice::Peak
            &&& !req.rms_given && !req.peak_given ==> s.normalization == NormalizationChoice::DefaultRms
        },
{
}

/// An accepted run's color is the one the user named: mapping it back gives
/// the user's color.
pub proof fn lemma_resolve_keeps_color(req: Request)
    requires
        (req.output_exists && !req.force) || req.seconds == Some(0usize) || req.rate != Some(
            usize::MAX,
        ),
    ensures
        spec_resolve(req) matches Ok(s) ==> (req.color matches Some(c) ==> spec_user_color(s.color) == c),
{
}

} // verus!
