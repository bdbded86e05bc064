# noise_generator

A colored-noise generator for WAV files.

- `src/` is the verified library: the noise colors and their names, the
  resolution of a run's options (generator, color, length, sample rate,
  normalization target, and when a run is refused), and the format of the
  WAV files written.
- `app/` is the command-line program around it: option parsing, logging,
  the floating-point level and gain computations, and the WAV writer. The
  inverse-FFT noise generators themselves are not part of this source tree,
  so the program resolves and reports a run's settings and then stops with
  an error saying that the selected generator is unavailable; no noise file
  is written.
- `tests/` exercises the library on concrete values.
