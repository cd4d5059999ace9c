use std::cell::Cell;
use std::sync::Arc;

use ga_synth::analytics::{GenerationRow, Recorder};
use ga_synth::signal_processing::Signal;
use ga_synth::signal_processing::signal_analysis::SpectrumTransform;
use ga_synth::simulation::algorithms::genetic::{
    score_individual, time_domain_euclidean_fitness, GASimulation, GASimulationBuilder,
    Individual, IndividualGenerator, PopulationEvolution,
};
use ga_synth::simulation::algorithms::hillclimbing::{
    evolve_value, grow_step_size, HillClimberBuilder,
};
use ga_synth::simulation::components::envelope::EnvelopeComponent;
use ga_synth::simulation::components::filters::FilterType;
use ga_synth::simulation::components::oscillator::OscillatorComponent;
use ga_synth::simulation::synthesis_methods::additive::AdditiveIndividual;
use ga_synth::simulation::synthesis_methods::subtractive::SubtractiveIndividual;
use ga_synth::utils::{random_weighted_average, SCALE};
use ga_synth::{FitnessType, GeneticSimulationError, HillClimbingSimulationError, SpectrumErrorKind};

/// A cheap spectral transform for tests: the magnitude of the first bins is
/// the absolute value of the first samples.
struct FlatSpectrum;

impl SpectrumTransform for FlatSpectrum {
    fn magnitude_spectrum(
        &self,
        signal: &Signal,
        _sample_rate: u32,
    ) -> Result<Vec<i64>, SpectrumErrorKind> {
        Ok(signal.samples().iter().take(64).map(|v| v.abs()).collect())
    }
}

/// A spectral transform that always refuses the signal.
struct FailingSpectrum;

impl SpectrumTransform for FailingSpectrum {
    fn magnitude_spectrum(
        &self,
        _signal: &Signal,
        _sample_rate: u32,
    ) -> Result<Vec<i64>, SpectrumErrorKind> {
        Err(SpectrumErrorKind::NaNValuesNotSupported)
    }
}

/// A spectral transform that starts failing after a budget of calls.
struct CountingSpectrum {
    calls: Cell<usize>,
    limit: usize,
}

impl SpectrumTransform for CountingSpectrum {
    fn magnitude_spectrum(
        &self,
        signal: &Signal,
        _sample_rate: u32,
    ) -> Result<Vec<i64>, SpectrumErrorKind> {
        let n = self.calls.get() + 1;
        self.calls.set(n);
        if n > self.limit {
            Err(SpectrumErrorKind::NaNValuesNotSupported)
        } else {
            Ok(signal.samples().iter().take(8).map(|v| v.abs()).collect())
        }
    }
}

fn subtractive_oscillator_simulation(
    n_random_additions: u32,
    population_evolution: PopulationEvolution,
) -> GASimulation<SubtractiveIndividual> {
    let target = Signal::default();
    let generator = SubtractiveIndividual::new_generator()
        .target(Arc::new(target.clone()))
        .oscillator();

    GASimulationBuilder::new()
        .initial_population(100)
        .n_random_additions(n_random_additions)
        .population_evolution(population_evolution)
        .target(Signal::default())
        .generator(generator)
        .build(&FlatSpectrum)
        .unwrap()
}

#[test]
fn test_increasing_population_even() {
    let mut simulation = subtractive_oscillator_simulation(4, PopulationEvolution::Increasing);

    assert_eq!(simulation.population.len(), 100);
    simulation.next(&FlatSpectrum).unwrap();
    assert_eq!(simulation.population.len(), 104);
    simulation.next(&FlatSpectrum).unwrap();
    assert_eq!(simulation.population.len(), 108);
    simulation.next(&FlatSpectrum).unwrap();
    assert_eq!(simulation.population.len(), 112);
}

#[test]
fn test_increasing_population_odd() {
    let mut simulation = subtractive_oscillator_simulation(3, PopulationEvolution::Increasing);

    // population should grow by floor(n)
    assert_eq!(simulation.population.len(), 100);
    simulation.next(&FlatSpectrum).unwrap();
    assert_eq!(simulation.population.len(), 101);
    simulation.next(&FlatSpectrum).unwrap();
    assert_eq!(simulation.population.len(), 104);
    simulation.next(&FlatSpectrum).unwrap();
    assert_eq!(simulation.population.len(), 105);
}

#[test]
fn test_constant_population() {
    let mut simulation = subtractive_oscillator_simulation(4, PopulationEvolution::Constant);

    assert_eq!(simulation.population.len(), 100);
    simulation.next(&FlatSpectrum).unwrap();
    assert_eq!(simulation.population.len(), 100);
    simulation.next(&FlatSpectrum).unwrap();
    assert_eq!(simulation.population.len(), 100);
    simulation.next(&FlatSpectrum).unwrap();
    assert_eq!(simulation.population.len(), 100);
}

#[test]
fn test_population_stays_sorted() {
    let mut simulation = subtractive_oscillator_simulation(4, PopulationEvolution::Constant);
    simulation.next(&FlatSpectrum).unwrap();
    let fits: Vec<i64> = simulation.population.iter().map(|i| i.fitness()).collect();
    for w in fits.windows(2) {
        assert!(w[0] >= w[1]);
    }
}

#[test]
fn test_fitness_within_bounds() {
    let target = Signal::from_samples(&vec![500_000i64; 256]);
    let generator = AdditiveIndividual::new_generator()
        .target(Arc::new(target.clone()))
        .fitness_type(FitnessType::TimeDomainEuclidean)
        .harmonics();
    for _ in 0..20 {
        let individual = generator.generate();
        let scored = score_individual(individual, &target, &FlatSpectrum).unwrap();
        let f = scored.fitness();
        assert!((0..=2_000_000).contains(&f));
    }
}

#[test]
fn test_invalid_harmonics_score_zero() {
    let target = Signal::from_samples(&vec![500_000i64; 256]);
    let generator = AdditiveIndividual::new_generator()
        .target(Arc::new(target.clone()))
        .fitness_type(FitnessType::TimeDomainEuclidean)
        .harmonics();
    let mut found_invalid = false;
    for _ in 0..1_000 {
        let individual = generator.generate();
        if !individual.is_valid() {
            let scored = score_individual(individual, &target, &FlatSpectrum).unwrap();
            assert_eq!(scored.fitness(), 0);
            found_invalid = true;
            break;
        }
    }
    assert!(found_invalid);
}

#[test]
fn test_crossover_mismatched_filter_families() {
    let target = Arc::new(Signal::default());
    let low_pass_parent = SubtractiveIndividual::new_generator()
        .target(target.clone())
        .oscillator()
        .filter(FilterType::LowPass)
        .generate();
    let band_pass_parent = SubtractiveIndividual::new_generator()
        .target(target.clone())
        .oscillator()
        .filter(FilterType::BandPass)
        .generate();

    let offspring = low_pass_parent
        .crossover(&band_pass_parent, 50_000)
        .expect("crossover always produces an offspring");
    // the mismatched filter gene falls away; the oscillator gene survives
    assert!(!offspring.has_filter());
    assert!(offspring.has_oscillator());

    let same_family = low_pass_parent
        .crossover(&low_pass_parent.duplicate(), 50_000)
        .unwrap();
    assert!(same_family.has_filter());
}

#[test]
fn test_grow_step_size() {
    // dividing by 0.95 grows the step strictly
    assert_eq!(grow_step_size(1_000_000), 1_052_632);
    let mut step = 1_000_000i64;
    for _ in 0..10 {
        let next = grow_step_size(step);
        assert!(next > step);
        step = next;
    }
}

#[test]
fn test_step_size_below_minimum_terminates_immediately() {
    let target = Signal::default();
    let generator = SubtractiveIndividual::new_generator()
        .target(Arc::new(target))
        .oscillator();
    let mut simulation: ga_synth::simulation::algorithms::hillclimbing::HillClimbingSimulation<
        SubtractiveIndividual,
    > = HillClimberBuilder::new()
        .generator(generator)
        .init_step_size(50)
        .min_step_size(100)
        .max_iterations(3_000)
        .build(&FlatSpectrum)
        .unwrap();
    simulation.run(&FlatSpectrum).unwrap();
    // the run terminates before executing a single iteration
    assert_eq!(simulation.iteration, 0);
}

#[test]
fn test_hill_climber_runs_within_budget() {
    let target = Signal::default();
    let generator = SubtractiveIndividual::new_generator()
        .target(Arc::new(target))
        .oscillator();
    let mut simulation: ga_synth::simulation::algorithms::hillclimbing::HillClimbingSimulation<
        SubtractiveIndividual,
    > = HillClimberBuilder::new()
        .generator(generator)
        .max_iterations(5)
        .build(&FlatSpectrum)
        .unwrap();
    let best = simulation.run(&FlatSpectrum).unwrap();
    assert!(simulation.iteration <= 5);
    assert!((0..=2_000_000).contains(&best.fitness()));
}

#[test]
fn test_hill_climber_missing_configuration() {
    let no_generator: HillClimberBuilder<SubtractiveIndividual> = HillClimberBuilder::new();
    assert!(matches!(
        no_generator.build(&FlatSpectrum),
        Err(HillClimbingSimulationError::GeneratorMissing)
    ));

    let target = Signal::default();
    let generator = SubtractiveIndividual::new_generator()
        .target(Arc::new(target))
        .oscillator();
    let mut no_target: HillClimberBuilder<SubtractiveIndividual> =
        HillClimberBuilder::new().generator(generator);
    no_target.target = None;
    assert!(matches!(
        no_target.build(&FlatSpectrum),
        Err(HillClimbingSimulationError::TargetMissing)
    ));
}

#[test]
fn test_failed_transform_aborts_build() {
    let target = Signal::default();
    let generator = SubtractiveIndividual::new_generator()
        .target(Arc::new(target))
        .oscillator();
    let result: Result<GASimulation<SubtractiveIndividual>, _> = GASimulationBuilder::new()
        .initial_population(2)
        .generator(generator)
        .build(&FailingSpectrum);
    assert!(matches!(
        result,
        Err(GeneticSimulationError::RandomIndividualNotGenerated)
    ));
}

#[test]
fn test_failed_transform_aborts_offspring() {
    let target = Signal::default();
    let generator = SubtractiveIndividual::new_generator()
        .target(Arc::new(target))
        .oscillator();
    // enough calls for the initial population and the immigrants, then fail
    let transform = CountingSpectrum { calls: Cell::new(0), limit: 12 };
    let mut simulation: GASimulation<SubtractiveIndividual> = GASimulationBuilder::new()
        .initial_population(4)
        .n_random_additions(2)
        .population_evolution(PopulationEvolution::Increasing)
        .generator(generator)
        .build(&transform)
        .unwrap();
    assert!(matches!(
        simulation.next(&transform),
        Err(GeneticSimulationError::OffspringNotProduced)
    ));
}

#[test]
fn test_run_reaches_max_generations() {
    let target = Signal::default();
    let generator = SubtractiveIndividual::new_generator()
        .target(Arc::new(target))
        .oscillator();
    let mut simulation: GASimulation<SubtractiveIndividual> = GASimulationBuilder::new()
        .initial_population(8)
        .n_random_additions(2)
        .max_generations(3)
        .generator(generator)
        .build(&FlatSpectrum)
        .unwrap();
    let fittest = simulation.run(&FlatSpectrum).unwrap();
    assert_eq!(simulation.generation, 3);
    let best = simulation.population[0].fitness();
    assert_eq!(fittest.fitness(), best);
    for individual in &simulation.population {
        assert!(individual.fitness() <= best);
    }
}

#[test]
fn test_evolve_value_stays_in_bounds() {
    for _ in 0..100 {
        let v = evolve_value(500, 0, 1_000, 2_000_000);
        assert!((0..=1_000).contains(&v));
    }
    // a collapsed window leaves the value unchanged
    assert_eq!(evolve_value(7, 7, 7, 1_000_000), 7);
}

#[test]
fn test_evolve_value_respects_window() {
    // a tenth of the range on either side of the current value
    for _ in 0..100 {
        let v = evolve_value(500_000, 0, 1_000_000, 200_000);
        assert!((400_000..=600_000).contains(&v));
    }
}

#[test]
fn test_perfect_match_scores_one() {
    let samples: Vec<i64> = (0..64).map(|i| (i as i64) * 10_000).collect();
    let signal = Signal::from_samples(&samples);
    let twin = Signal::from_samples(&samples);
    assert_eq!(time_domain_euclidean_fitness(&signal, &twin), 1_000_000);
}

#[test]
fn test_random_weighted_average() {
    // without mutation the result is a blend between the two values
    for _ in 0..50 {
        let blend = random_weighted_average(100, 200, 0, 5_000);
        assert!((100..=200).contains(&blend));
    }
    // with certain mutation the supplied random value is returned
    assert_eq!(random_weighted_average(100, 200, SCALE, 5_000), 5_000);
}

#[test]
fn test_component_creation_ranges() {
    for _ in 0..20 {
        let oscillator = OscillatorComponent::create();
        assert!((20_000_000..=10_000_000_000).contains(&oscillator.freq));
        assert!((0..=1_000_000).contains(&oscillator.sine_amp));
        assert!((0..=6_283_185).contains(&oscillator.sine_phase));

        let envelope = EnvelopeComponent::create();
        assert!(envelope.attack < 2_000);
        assert!(envelope.decay < 3_000);
        assert!(envelope.sustain < 255);
        assert!(envelope.release < 5_000);
    }
}

#[test]
fn test_full_subtractive_genome_scores() {
    // exercises the whole render pipeline: oscillator, envelope shaping and
    // the windowed-sinc filter convolution
    let target = Signal::from_samples(&vec![250_000i64; 512]);
    let generator = SubtractiveIndividual::new_generator()
        .target(Arc::new(target.clone()))
        .fitness_type(FitnessType::TimeDomainEuclidean)
        .oscillator()
        .envelope()
        .filter(FilterType::LowPass);
    let individual = generator.generate();
    let scored = score_individual(individual, &target, &FlatSpectrum).unwrap();
    assert!((0..=2_000_000).contains(&scored.fitness()));
}

#[test]
fn test_component_creation_draws_fresh_values() {
    // a degenerate random source pinned to one end of its range would make
    // every drawn frequency identical
    let freqs: Vec<i64> = (0..20).map(|_| OscillatorComponent::create().freq).collect();
    assert!(freqs.iter().any(|&f| f != freqs[0]));
}

#[test]
fn test_telemetry_row_cadence() {
    let target = Signal::default();
    let generator = SubtractiveIndividual::new_generator()
        .target(Arc::new(target))
        .oscillator();
    let mut simulation: GASimulation<SubtractiveIndividual> = GASimulationBuilder::new()
        .initial_population(8)
        .n_random_additions(2)
        .max_generations(2)
        .csv_export("run.csv".to_string())
        .generator(generator)
        .build(&FlatSpectrum)
        .unwrap();
    simulation.run(&FlatSpectrum).unwrap();
    // one row before the first step and one after every step
    assert_eq!(simulation.recorder.rows().len(), 3);
    assert_eq!(simulation.recorder.rows()[0].generation, 0);
    assert_eq!(simulation.recorder.rows()[2].generation, 2);
}

#[test]
fn test_recorder_collects_rows() {
    let mut recorder: Recorder<GenerationRow> = Recorder::new();
    assert_eq!(recorder.rows().len(), 0);
    let row = GenerationRow {
        generation: 10,
        offspring: 50,
        fundamental: 0,
        max_fitness: 300_000,
        average_fitness: 300_000,
        std_dev: 0,
    };
    recorder.add_record(row);
    recorder.add_record(row);
    assert_eq!(recorder.rows().len(), 2);
    assert_eq!(recorder.rows()[0], row);
}
