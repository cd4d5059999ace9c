//! Stochastic search for synthesizer parameter sets ("genomes") whose rendered
//! audio best approximates a target sound.
//!
//! Two interchangeable optimizers drive the search: a population-based genetic
//! algorithm and a single-solution hill climber.  Candidate genomes are
//! rendered to a [`signal_processing::Signal`] and scored against the target
//! signal in the frequency or time domain.
//!
//! All continuous quantities (amplitudes, frequencies, phases, fitness values,
//! step sizes, probabilities) are fixed-point integers scaled by
//! [`utils::SCALE`], so that every arithmetic step can be verified.

use vstd::prelude::*;

/// Everything regarding sound synthesis and analysis, including oscillators,
/// operators on amplitude and phase, frequency-spectrum comparison, and the
/// distance between two sets of samples.  The latter two are used to calculate
/// the fitness of an individual with respect to the target given its signal.
pub mod signal_processing;

/// A miscellaneous group of useful fixed-point functions.
pub mod utils;

/// Draws of random values, shared by component creation, crossover and
/// mutation.
pub mod random;

/// Everything needed to run a parameter exploration simulation, including the
/// genetic and hill-climbing algorithms, different synthesis components and
/// methods and their encoding as individuals.
pub mod simulation;

/// Collects per-step simulation telemetry for later export.
pub mod analytics;

mod error;

pub use error::GeneticSimulationError;
pub use error::HillClimbingSimulationError;
pub use error::SignalProcessingError;
pub use error::SpectrumErrorKind;

verus! {

/// Selects the metric under which a candidate signal is scored against the
/// target signal.
#[derive(Copy, Clone, Debug, PartialEq, Eq, Structural)]
pub enum FitnessType {
    /// Mean squared error between the magnitude spectra of the two signals.
    FreqDomainMSE,
    /// Euclidean distance between the raw sample sequences.
    TimeDomainEuclidean,
}

impl Default for FitnessType {
    fn default() -> (r: Self)
        ensures
            r == FitnessType::FreqDomainMSE,
    {
        FitnessType::FreqDomainMSE
    }
}

} // verus!
