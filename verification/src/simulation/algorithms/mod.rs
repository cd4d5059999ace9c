/// Genetic algorithms are a global optimisation technique inspired by
/// biological mechanisms like evolution.
pub mod genetic;

/// A hill climber is one of the simplest stochastic optimisation techniques;
/// it works by exploring the best nearest neighbour.  It is not as effective
/// at finding a global optimum as a genetic algorithm, but can be useful as a
/// performance reference.
pub mod hillclimbing;
