use ga_synth::signal_processing::Signal;
use ga_synth::signal_processing::components::harmonics::generate_harmonics;
use ga_synth::signal_processing::components::oscillator::{saw_wave, sine_wave, square_wave};
use ga_synth::signal_processing::signal_analysis::{spectra_mse, SpectrumTransform};
use ga_synth::utils::{bounded_cost_fitness, convolve, mean, sigmoid, std_dev, SCALE};
use ga_synth::{SignalProcessingError, SpectrumErrorKind};

/// A cheap spectral transform for tests: the magnitude of the first bins is
/// the absolute value of the first samples.
struct FlatSpectrum;

impl SpectrumTransform for FlatSpectrum {
    fn magnitude_spectrum(
        &self,
        signal: &Signal,
        _sample_rate: u32,
    ) -> Result<Vec<i64>, SpectrumErrorKind> {
        Ok(signal.samples().iter().take(64).map(|v| v.abs()).collect())
    }
}

/// A spectral transform that always refuses the signal.
struct FailingSpectrum;

impl SpectrumTransform for FailingSpectrum {
    fn magnitude_spectrum(
        &self,
        _signal: &Signal,
        _sample_rate: u32,
    ) -> Result<Vec<i64>, SpectrumErrorKind> {
        Err(SpectrumErrorKind::NaNValuesNotSupported)
    }
}

/// A real spectral transform over the FFT of the spectrum-analyzer crate.
struct FftSpectrum;

impl SpectrumTransform for FftSpectrum {
    fn magnitude_spectrum(
        &self,
        signal: &Signal,
        sample_rate: u32,
    ) -> Result<Vec<i64>, SpectrumErrorKind> {
        let samples: Vec<f32> = signal
            .samples()
            .iter()
            .map(|&v| v as f32 / SCALE as f32)
            .collect();
        let spectrum = spectrum_analyzer::samples_fft_to_spectrum(
            &samples,
            sample_rate,
            spectrum_analyzer::FrequencyLimit::All,
            None,
        )
        .map_err(|_| SpectrumErrorKind::TooFewSamples)?;
        Ok(spectrum
            .data()
            .iter()
            .map(|(_, v)| (v.val() * SCALE as f32) as i64)
            .collect())
    }
}

#[test]
fn test_generate_harmonics() {
    let amplitudes = vec![100_000i64, 200_000, 400_000, 800_000];
    let pairs = generate_harmonics(440_000_000, &amplitudes);
    assert_eq!(pairs.len(), 4);
    assert_eq!(pairs[0], (440_000_000, 100_000));
    assert_eq!(pairs[1], (880_000_000, 200_000));
    assert_eq!(pairs[2], (1_320_000_000, 400_000));
    assert_eq!(pairs[3], (1_760_000_000, 800_000));
}

#[test]
fn test_sine() {
    let signal = sine_wave(1_000_000, 1, 4, 1_000_000, 0);
    let samples = signal.samples();
    assert_eq!(samples[0], 0);
    assert_eq!(samples[1], 1_000_000);
    assert_eq!(samples[3], -1_000_000);
}

#[test]
fn test_square() {
    let signal = square_wave(1_000_000, 1, 4, 1_000_000, 0);
    let samples = signal.samples();
    assert_eq!(samples[0], 1_000_000);
    assert_eq!(samples[1], 1_000_000);
    assert_eq!(samples[2], -1_000_000);
    assert_eq!(samples[3], -1_000_000);
}

#[test]
fn test_saw() {
    let signal = saw_wave(1_000_000, 2, 4, 1_000_000, 0);
    let samples = signal.samples();
    assert_eq!(samples[0], -1_000_000);
    assert_eq!(samples[1], -500_000);
    assert_eq!(samples[2], 0);
    assert_eq!(samples[3], 500_000);
}

#[test]
fn test_normalise() {
    let samples_1: Vec<i64> = (0..18_000).map(|_| 500_000i64).collect();
    let samples_2: Vec<i64> = (0..1_000).map(|_| 500_000i64).collect();
    let signal_1 = Signal::from_samples(&samples_1);
    let signal_2 = Signal::from_samples(&samples_2);
    assert_eq!(
        signal_1.normalise().n_samples(),
        signal_2.normalise().n_samples()
    );
    assert_eq!(signal_2.normalise().samples().last(), Some(&0i64));

    let n = signal_1.normalise().n_samples();
    let samples_3: Vec<i64> = (0..n).map(|_| 500_000i64).collect();
    let signal_3 = Signal::from_samples(&samples_3);
    assert_eq!(signal_3.n_samples(), signal_3.normalise().n_samples());
}

#[test]
fn test_normalise_idempotent() {
    let samples: Vec<i64> = (0..1_000).map(|i| (i % 7) as i64 * 100_000).collect();
    let signal = Signal::from_samples(&samples);
    let once = signal.normalise();
    let twice = once.normalise();
    assert_eq!(once.samples(), twice.samples());
    assert_eq!(once.n_samples(), 16_384);
}

#[test]
fn test_euclidean_distance() {
    let signal_1 = Signal::from_samples(&vec![0i64, 500_000, 500_000, 1_000_000]);
    let signal_2 = Signal::from_samples(&vec![1_000_000i64, 0, 1_000_000, 0]);
    // the square root of two and a half, in fixed point
    assert_eq!(signal_1.euclidean_distance(&signal_2), 1_581_138);
}

#[test]
fn test_extend_pow_two() {
    let signal_1 = Signal::from_samples(&vec![0i64; 5]);
    let signal_2 = Signal::from_samples(&vec![0i64; 8]);
    assert_eq!(signal_1.extend_pow_two().n_samples(), 8);
    assert_eq!(signal_2.extend_pow_two().n_samples(), 8);
}

#[test]
fn test_spectra_mse() {
    let a = vec![1_000_000i64, 0];
    let b = vec![0i64, 0];
    assert_eq!(spectra_mse(&a, &b), 500_000);
    assert_eq!(spectra_mse(&b, &b), 0);
}

#[test]
fn test_freq_spectrum_baseline() {
    let signal = Signal::from_samples(&vec![500_000i64, -250_000, 125_000]);
    let bins = signal.freq_spectrum(&FlatSpectrum).unwrap();
    // zero padding drives the minimum magnitude to zero, so the baseline
    // subtraction leaves the leading bins unchanged
    assert_eq!(bins[0], 500_000);
    assert_eq!(bins[1], 250_000);
    assert_eq!(bins[2], 125_000);
    assert_eq!(bins.iter().min(), Some(&0i64));
}

#[test]
fn test_freq_spectrum_real_fft() {
    let signal = sine_wave(440_000_000, 1, 44_100, 1_000_000, 0);
    let bins = signal.freq_spectrum(&FftSpectrum).unwrap();
    assert!(!bins.is_empty());
    assert_eq!(bins.iter().min(), Some(&0i64));
    // a pure tone concentrates magnitude in a few bins
    assert!(bins.iter().max().unwrap() > &0);
}

#[test]
fn test_freq_spectrum_error_propagates() {
    let signal = Signal::from_samples(&vec![500_000i64; 16]);
    let result = signal.freq_spectrum(&FailingSpectrum);
    assert_eq!(
        result,
        Err(SignalProcessingError::InvalidSpectrum(
            SpectrumErrorKind::NaNValuesNotSupported
        ))
    );
    let mse = signal.freq_spectrum_mse(&signal, &FailingSpectrum);
    assert!(mse.is_err());
}

#[test]
fn test_convolve() {
    let filter = vec![1_000_000i64, 1_000_000];
    let input = vec![1_000_000i64, 2_000_000];
    let out = convolve(&filter, &input);
    assert_eq!(out, vec![1_000_000, 3_000_000]);
}

#[test]
fn test_mean_and_spread() {
    assert_eq!(mean(&vec![2i64, 4, 6]), 4);
    // equal values spread not at all
    assert_eq!(std_dev(&vec![1_000_000i64, 1_000_000]), 0);
    // fitnesses zero and one have a standard deviation of one half
    assert_eq!(std_dev(&vec![0i64, 1_000_000]), 500_000);
}

#[test]
fn test_sigmoid() {
    assert_eq!(sigmoid(0), 500_000);
    assert!(sigmoid(i64::MAX) <= 1_000_000);
    assert!(sigmoid(-21_000_000) >= 0);
    assert!(sigmoid(5_000_000) > sigmoid(0));
}

#[test]
fn test_bounded_cost_fitness() {
    // a perfect match scores exactly one
    assert_eq!(bounded_cost_fitness(0, 500), 1_000_000);
    // any raw error scores within the fitness bounds
    for raw in [1i64, 499, 500, 100_000, 5_000_000_000_000] {
        let f = bounded_cost_fitness(raw, 500);
        assert!((0..=2_000_000).contains(&f));
    }
    // a larger error never scores better
    assert!(bounded_cost_fitness(5_000_000_000, 500) <= bounded_cost_fitness(1_000, 500));
}

#[test]
fn test_signal_amplitude_ops() {
    let a = Signal::from_samples(&vec![100_000i64, 200_000, 300_000]);
    let b = Signal::from_samples(&vec![50_000i64, -200_000]);
    let sum = a.add_amp(&b);
    assert_eq!(sum.samples(), &vec![150_000i64, 0]);
    let scaled = a.scale_amp(500_000);
    assert_eq!(scaled.samples(), &vec![50_000i64, 100_000, 150_000]);
}
