use vstd::prelude::*;
use std::sync::Arc;
use crate::random::random_in;
use crate::utils::SCALE;
use crate::error::HillClimbingSimulationError;
use crate::FitnessType;
use crate::signal_processing::Signal;
use crate::signal_processing::signal_analysis::SpectrumTransform;
use crate::simulation::algorithms::genetic::{Individual, IndividualGenerator, score_individual};
use crate::analytics::{IterationRow, Recorder};

verus! {

/// Largest step size the growth rule accepts without overflowing.
pub const MAX_STEP_SIZE: i64 = 400_000_000_000_000_000;

/// Grows the step size after an accepted move by dividing by ninety-five
/// hundredths, rounding up: the result is strictly larger.
pub fn grow_step_size(step: i64) -> (r: i64)
    requires
        1 <= step <= MAX_STEP_SIZE,
    ensures
        r == (20 * step + 18) / 19,
        r > step,
{
    (20 * step + 18) / 19
}

/// Drives one individual through iterative local perturbation.
pub struct HillClimbingSimulation<T: Individual> where T::Generator: IndividualGenerator<T> {
    /// Fittest individual discovered.
    pub current_individual: T,
    /// Number of individuals generated so far (including rejected ones).
    pub iteration: u32,
    /// Signal used as target, upon which the fitness function is defined.
    pub target: Signal,
    /// Step size at the start of the run, in fixed point.
    pub init_step_size: i64,
    /// Maximum number of iterations the simulation will run for.
    pub max_iterations: u32,
    /// The minimum step size tolerated: the run terminates the moment the
    /// step size drops below this value.
    pub min_step_size: i64,
    /// Maximum number of consecutive unsuccessful iterations tolerated.
    pub max_unsuccessful_iters: u32,
    /// Fundamental frequency of the current individual, in fixed point.
    pub fundamental: Option<i64>,
    /// Telemetry rows collected while running with CSV export enabled.
    pub recorder: Recorder<IterationRow>,
    /// Whether the simulation should be exported to a CSV file and what file
    /// name.
    pub csv_export: Option<String>,
    /// Whether the fittest individual should be exported to a WAV file and
    /// what file name.
    pub signal_export: Option<String>,
}

impl<T: Individual> HillClimbingSimulation<T> where T::Generator: IndividualGenerator<T> {
    /// The current individual is scored and the target well formed.
    pub open spec fn wf(&self) -> bool {
        &&& self.current_individual.wf()
        &&& self.current_individual.is_scored()
        &&& self.target.wf()
        &&& 1 <= self.min_step_size
    }

    /// Whether the run must stop before executing another step: the
    /// iteration budget is spent, the step size fell below the configured
    /// minimum, or too many consecutive candidates were rejected.
    pub fn should_terminate(&self, step_size: i64, unsuccessful_iters: u32) -> (r: bool)
        ensures
            r <==> (self.iteration >= self.max_iterations || step_size < self.min_step_size
                || unsuccessful_iters >= self.max_unsuccessful_iters),
    {
        self.iteration >= self.max_iterations || step_size < self.min_step_size
            || unsuccessful_iters >= self.max_unsuccessful_iters
    }

    /// One telemetry row for the current iteration.
    pub fn iteration_row(&self) -> (r: IterationRow)
        requires
            self.wf(),
        ensures
            r.iteration == self.iteration,
            r.fitness == self.current_individual.fit(),
            r.fundamental == match self.current_individual.fundamental_spec() {
                Some(f) => f,
                None => 0,
            },
    {
        let fundamental: i64 = match self.current_individual.get_fundamental() {
            Some(f) => f,
            None => 0,
        };
        IterationRow { iteration: self.iteration, fitness: self.current_individual.fitness(), fundamental }
    }

    /// Proposes one locally perturbed candidate and decides on it: a strictly
    /// fitter candidate is accepted, which replaces the current individual,
    /// grows the step size and resets the failure counter; any other
    /// candidate is rejected, which leaves the individual and the step size
    /// unchanged and counts one more consecutive failure.
    pub fn step<F: SpectrumTransform>(
        &mut self,
        step_size: i64,
        unsuccessful_iters: u32,
        transform: &F,
    ) -> (r: Result<(i64, u32), HillClimbingSimulationError>)
        requires
            old(self).wf(),
            1 <= step_size <= MAX_STEP_SIZE,
            unsuccessful_iters < 0xffff_ffffu32,
            old(self).iteration < 0xffff_ffffu32,
        ensures
            r matches Ok((new_step, new_unsuccessful)) ==> {
                &&& final(self).wf()
                &&& final(self).iteration == old(self).iteration + 1
                &&& final(self).target == old(self).target
                &&& final(self).max_iterations == old(self).max_iterations
                &&& final(self).min_step_size == old(self).min_step_size
                &&& final(self).max_unsuccessful_iters == old(self).max_unsuccessful_iters
                &&& final(self).csv_export == old(self).csv_export
                &&& final(self).signal_export == old(self).signal_export
                &&& final(self).init_step_size == old(self).init_step_size
                &&& final(self).recorder == old(self).recorder
                &&& final(self).current_individual.ftype()
                    == old(self).current_individual.ftype()
                &&& ({
                    ||| {
                        // accepted: the candidate was strictly fitter
                        &&& final(self).current_individual.fit()
                            > old(self).current_individual.fit()
                        &&& final(self).fundamental
                            == final(self).current_individual.fundamental_spec()
                        &&& new_step == (20 * step_size + 18) / 19
                        &&& new_step > step_size
                        &&& new_unsuccessful == 0
                    }
                    ||| {
                        // rejected: everything but the failure counter stays
                        &&& final(self).current_individual
                            == old(self).current_individual
                        &&& final(self).fundamental == old(self).fundamental
                        &&& new_step == step_size
                        &&& new_unsuccessful == unsuccessful_iters + 1
                    }
                })
            },
            old(self).current_individual.ftype() == FitnessType::TimeDomainEuclidean ==> r is Ok,
    {
        let candidate_genome = self.current_individual.evolve(step_size);
        let candidate = match score_individual(candidate_genome, &self.target, transform) {
            Ok(c) => c,
            Err(_) => {
                return Err(HillClimbingSimulationError::NoFitterNeighbourFound);
            },
        };
        if candidate.fitness() > self.current_individual.fitness() {
            let new_step = grow_step_size(step_size);
            self.current_individual = candidate;
            self.fundamental = self.current_individual.get_fundamental();
            self.iteration = self.iteration + 1;
            Ok((new_step, 0))
        } else {
            self.iteration = self.iteration + 1;
            Ok((step_size, unsuccessful_iters + 1))
        }
    }

    /// Runs the hill climber: steps until the iteration budget is spent, the
    /// step size drops below the minimum, or the consecutive-failure budget
    /// is spent; records one telemetry row before each iteration when CSV
    /// export is enabled, and returns the fittest individual found, whose
    /// fitness never falls below the starting individual's.  A run that
    /// terminates before its first iteration still succeeds.
    pub fn run<F: SpectrumTransform>(&mut self, transform: &F) -> (r: Result<
        T,
        HillClimbingSimulationError,
    >)
        requires
            old(self).wf(),
            old(self).iteration == 0,
            1 <= old(self).init_step_size <= 1_000_000_000,
            old(self).max_iterations < 0xffff_ffffu32,
            old(self).max_unsuccessful_iters < 0xffff_ffffu32,
        ensures
            r matches Ok(t) ==> {
                &&& final(self).wf()
                &&& t.fit() == final(self).current_individual.fit()
                &&& t.fit() >= old(self).current_individual.fit()
                &&& final(self).iteration <= final(self).max_iterations
                &&& final(self).max_iterations == old(self).max_iterations
                &&& old(self).csv_export is Some ==> final(self).recorder@.len() == final(self).iteration
                &&& old(self).csv_export is None ==> final(self).recorder@.len() == 0
            },
            old(self).current_individual.ftype() == FitnessType::TimeDomainEuclidean ==> r is Ok,
            (old(self).init_step_size < old(self).min_step_size || old(self).max_iterations == 0
                || old(self).max_unsuccessful_iters == 0) ==> {
                &&& r is Ok
                &&& final(self).iteration == 0
                &&& final(self).current_individual == old(self).current_individual
            },
    {
        self.recorder = Recorder::new();
        let mut step_size: i64 = self.init_step_size;
        let mut unsuccessful_iters: u32 = 0;
        if self.should_terminate(step_size, unsuccessful_iters) {
            let fittest = self.current_individual.duplicate();
            return Ok(fittest);
        }
        while !self.should_terminate(step_size, unsuccessful_iters)
            invariant
                self.wf(),
                !(old(self).init_step_size < old(self).min_step_size || old(self).max_iterations
                    == 0 || old(self).max_unsuccessful_iters == 0),
                1 <= step_size <= MAX_STEP_SIZE,
                unsuccessful_iters <= self.max_unsuccessful_iters,
                self.csv_export == old(self).csv_export,
                self.csv_export is Some ==> self.recorder@.len() == self.iteration,
                self.csv_export is None ==> self.recorder@.len() == 0,
                self.max_iterations == old(self).max_iterations,
                self.max_unsuccessful_iters == old(self).max_unsuccessful_iters,
                self.max_iterations < 0xffff_ffffu32,
                self.max_unsuccessful_iters < 0xffff_ffffu32,
                self.iteration <= self.max_iterations,
                self.current_individual.fit() >= old(self).current_individual.fit(),
                self.current_individual.ftype() == old(self).current_individual.ftype(),
            decreases self.max_iterations - self.iteration,
        {
            if self.csv_export.is_some() {
                let row = self.iteration_row();
                self.recorder.add_record(row);
            }
            let outcome = self.step(step_size, unsuccessful_iters, transform);
            match outcome {
                Ok((new_step, new_unsuccessful)) => {
                    step_size = if new_step > MAX_STEP_SIZE {
                        MAX_STEP_SIZE
                    } else {
                        new_step
                    };
                    unsuccessful_iters = new_unsuccessful;
                },
                Err(e) => {
                    return Err(e);
                },
            }
        }
        let fittest = self.current_individual.duplicate();
        Ok(fittest)
    }
}

/// Configures and builds a hill-climbing simulation.
pub struct HillClimberBuilder<T: Individual> where T::Generator: IndividualGenerator<T> {
    pub generator: Option<T::Generator>,
    pub target: Option<Arc<Signal>>,
    pub init_step_size: i64,
    pub max_iterations: u32,
    pub min_step_size: i64,
    pub max_unsuccessful_iters: u32,
    pub csv_export: Option<String>,
    pub signal_export: Option<String>,
}

impl<T: Individual> Default for HillClimberBuilder<T> where T::Generator: IndividualGenerator<
    T,
> {
    /// No generator or target; a unit initial step, a minimum step of one
    /// ten-thousandth, three thousand iterations, and five thousand
    /// tolerated consecutive failures.
    fn default() -> (r: Self)
        ensures
            r.generator is None,
            r.target is None,
            r.init_step_size == SCALE,
            r.max_iterations == 3000,
            r.min_step_size == 100,
            r.max_unsuccessful_iters == 5000,
            r.csv_export is None,
            r.signal_export is None,
    {
        Self {
            generator: None,
            target: None,
            init_step_size: SCALE,
            max_iterations: 3000,
            min_step_size: 100,
            max_unsuccessful_iters: 5000,
            csv_export: None,
            signal_export: None,
        }
    }
}

impl<T: Individual> HillClimberBuilder<T> where T::Generator: IndividualGenerator<T> {
    /// Creates a new hill climber builder with the default configuration.
    pub fn new() -> (r: Self)
        ensures
            r.generator is None,
            r.target is None,
            r.init_step_size == SCALE,
            r.max_iterations == 3000,
            r.min_step_size == 100,
            r.max_unsuccessful_iters == 5000,
            r.csv_export is None,
            r.signal_export is None,
    {
        Self::default()
    }

    /// Builds the hill-climbing simulation: fails without a generator or a
    /// target, as a missing configuration must abort construction; generates
    /// and scores the starting individual.
    pub fn build<F: SpectrumTransform>(self, transform: &F) -> (r: Result<
        HillClimbingSimulation<T>,
        HillClimbingSimulationError,
    >)
        requires
            self.generator matches Some(g) ==> g.wf_gen(),
            self.target matches Some(t) ==> (*t).wf(),
            1 <= self.min_step_size,
        ensures
            r matches Err(e) && e == HillClimbingSimulationError::GeneratorMissing <==> self.generator is None,
            self.generator is Some && self.target is None ==> r == Err::<
                HillClimbingSimulation<T>,
                _,
            >(HillClimbingSimulationError::TargetMissing),
            r matches Ok(sim) ==> {
                &&& sim.wf()
                &&& sim.iteration == 0
                &&& sim.fundamental is None
                &&& sim.init_step_size == self.init_step_size
                &&& sim.max_iterations == self.max_iterations
                &&& sim.min_step_size == self.min_step_size
                &&& sim.max_unsuccessful_iters == self.max_unsuccessful_iters
            },
    {
        let generator = match self.generator {
            Some(g) => g,
            None => {
                return Err(HillClimbingSimulationError::GeneratorMissing);
            },
        };
        let target_arc = match self.target {
            Some(t) => t,
            None => {
                return Err(HillClimbingSimulationError::TargetMissing);
            },
        };
        let target = Signal::from_samples(target_arc.samples());
        let raw = generator.generate();
        let current_individual = match score_individual(raw, &target, transform) {
            Ok(c) => c,
            Err(_) => {
                return Err(HillClimbingSimulationError::NoFitterNeighbourFound);
            },
        };
        Ok(
            HillClimbingSimulation {
                current_individual,
                target,
                iteration: 0,
                init_step_size: self.init_step_size,
                max_iterations: self.max_iterations,
                min_step_size: self.min_step_size,
                max_unsuccessful_iters: self.max_unsuccessful_iters,
                fundamental: None,
                recorder: Recorder::new(),
                csv_export: self.csv_export,
                signal_export: self.signal_export,
            },
        )
    }

    /// Takes an individual generator, adopting its target signal.
    pub fn generator(self, generator: T::Generator) -> (r: Self)
        requires
            generator.wf_gen(),
        ensures
            r.generator matches Some(g) && g.wf_gen(),
            r.target matches Some(t) && (*t).wf(),
            r.init_step_size == self.init_step_size,
            r.max_iterations == self.max_iterations,
            r.min_step_size == self.min_step_size,
            r.max_unsuccessful_iters == self.max_unsuccessful_iters,
    {
        let target = generator.get_target();
        Self { target: Some(target), generator: Some(generator), ..self }
    }

    /// Takes the WAV file name to which the returned signal will be
    /// exported.
    pub fn signal_export(self, file_name: String) -> (r: Self)
        ensures
            r == (Self { signal_export: Some(file_name), ..self }),
    {
        Self { signal_export: Some(file_name), ..self }
    }

    /// Takes the CSV file name to which the collected telemetry will be
    /// exported.
    pub fn csv_export(self, file_name: String) -> (r: Self)
        ensures
            r == (Self { csv_export: Some(file_name), ..self }),
    {
        Self { csv_export: Some(file_name), ..self }
    }

    /// Specifies the target signal.
    pub fn target(self, target: Signal) -> (r: Self)
        requires
            target.wf(),
        ensures
            r.target matches Some(t) && (*t).wf(),
            r.generator == self.generator,
            r.init_step_size == self.init_step_size,
            r.max_iterations == self.max_iterations,
            r.min_step_size == self.min_step_size,
            r.max_unsuccessful_iters == self.max_unsuccessful_iters,
    {
        Self { target: Some(Arc::new(target)), ..self }
    }

    /// Specifies the initial step size of the hill-climbing algorithm, in
    /// fixed point.
    pub fn init_step_size(self, init_step_size: i64) -> (r: Self)
        ensures
            r == (Self { init_step_size, ..self }),
    {
        Self { init_step_size, ..self }
    }

    /// Specifies the maximum number of iterations the simulation will run
    /// for.
    pub fn max_iterations(self, max_iterations: u32) -> (r: Self)
        ensures
            r == (Self { max_iterations, ..self }),
    {
        Self { max_iterations, ..self }
    }

    /// Specifies the minimum step size: if the step size ever drops below
    /// this value, the simulation terminates.
    pub fn min_step_size(self, min_step_size: i64) -> (r: Self)
        ensures
            r == (Self { min_step_size, ..self }),
    {
        Self { min_step_size, ..self }
    }

    /// The maximum number of consecutive unsuccessful iterations before the
    /// simulation is terminated.
    pub fn max_unsuccessful_iters(self, max_unsuccessful_iters: u32) -> (r: Self)
        ensures
            r == (Self { max_unsuccessful_iters, ..self }),
    {
        Self { max_unsuccessful_iters, ..self }
    }
}

/// Half the width of the perturbation window: the step-scaled fraction of
/// the legal range, capped at the range itself.
pub open spec fn evolve_window(min_v: int, max_v: int, step_size: int) -> int {
    let raw = (max_v - min_v) * step_size / (2 * (SCALE as int));
    if raw > max_v - min_v {
        max_v - min_v
    } else {
        raw
    }
}

/// Whether a perturbed value stayed within the step-scaled window centered
/// on its old value.
pub open spec fn within_window(new: int, old: int, min_v: int, max_v: int, step_size: int) -> bool {
    old - evolve_window(min_v, max_v, step_size) <= new <= old + evolve_window(
        min_v,
        max_v,
        step_size,
    )
}

/// Draws a new value uniformly from a window of width
/// `step_size * (max_v - min_v) / SCALE` centered on the current value and
/// clamped to the legal bounds; a bounded local random walk.  A window that
/// collapses to a point leaves the value unchanged.
pub fn evolve_value(val: i64, min_v: i64, max_v: i64, step_size: i64) -> (r: i64)
    requires
        0 <= min_v <= val <= max_v <= 100_000_000_000,
        0 <= step_size,
    ensures
        min_v <= r <= max_v,
        within_window(r as int, val as int, min_v as int, max_v as int, step_size as int),
{
    let range: i64 = max_v - min_v;
    proof {
        assert(0 <= (range as int) * (step_size as int)
            <= 100_000_000_000int * 9_223_372_036_854_775_807) by (nonlinear_arith)
            requires
                0 <= range as int <= 100_000_000_000,
                0 <= step_size as int <= 9_223_372_036_854_775_807,
        ;
    }
    let dist_wide: i128 = (range as i128) * (step_size as i128) / (2 * SCALE as i128);
    let dist: i64 = if dist_wide > range as i128 {
        range
    } else {
        dist_wide as i64
    };
    let lo: i64 = if val - dist > min_v {
        val - dist
    } else {
        min_v
    };
    let hi: i64 = if val + dist < max_v {
        val + dist
    } else {
        max_v
    };
    if lo < hi {
        random_in(lo, hi)
    } else {
        val
    }
}

} // verus!
