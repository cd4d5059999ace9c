use vstd::prelude::*;

verus! {

/// Errors that can be encountered during the execution of the genetic
/// algorithm.
#[derive(Copy, Clone, Debug, PartialEq, Eq, Structural)]
pub enum GeneticSimulationError {
    OffspringNotProduced,
    RandomIndividualNotGenerated,
}

/// Errors that can be encountered during the execution of the hill-climbing
/// algorithm.
#[derive(Copy, Clone, Debug, PartialEq, Eq, Structural)]
pub enum HillClimbingSimulationError {
    NoFitterNeighbourFound,
    GeneratorMissing,
    TargetMissing,
}

/// The reason a spectral transform refused a signal; reported by the caller
/// that performs the transform.
#[derive(Copy, Clone, Debug, PartialEq, Eq, Structural)]
pub enum SpectrumErrorKind {
    TooFewSamples,
    NaNValuesNotSupported,
    InfinityValuesNotSupported,
    InvalidFrequencyLimit,
    FrequencyLimitTooNarrow,
    SamplesLengthNotAPowerOfTwo,
    ScalingError,
}

/// Errors that can be encountered during signal processing, including
/// synthesis and comparison.
#[derive(Copy, Clone, Debug, PartialEq, Eq, Structural)]
pub enum SignalProcessingError {
    InvalidSpectrum(SpectrumErrorKind),
    CouldNotReadFromFile,
}

} // verus!
