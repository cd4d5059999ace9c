use vstd::prelude::*;
use crate::random::random_in;
use crate::utils::random_weighted_average;
use crate::simulation::algorithms::hillclimbing::{evolve_value, within_window};

verus! {

/// Lowest oscillator frequency, in fixed point.
pub const MIN_FREQ: i64 = 20_000_000;

/// Highest oscillator frequency, in fixed point.
pub const MAX_FREQ: i64 = 10_000_000_000;

/// Lowest partial amplitude, in fixed point.
pub const MIN_AMP: i64 = 0;

/// Highest partial amplitude, in fixed point.
pub const MAX_AMP: i64 = 1_000_000;

/// Lowest phase offset, in fixed point radians.
pub const MIN_PHASE: i64 = 0;

/// Highest phase offset: two pi, in fixed point radians.
pub const MAX_PHASE: i64 = 6_283_185;

/// The genome of an oscillator summing sine, square and saw partials with
/// independent amplitude and phase at a shared frequency.
#[derive(Copy, Clone, Debug, PartialEq, Eq, Structural)]
pub struct OscillatorComponent {
    pub freq: i64,
    pub sine_amp: i64,
    pub sine_phase: i64,
    pub square_amp: i64,
    pub square_phase: i64,
    pub saw_amp: i64,
    pub saw_phase: i64,
}

impl OscillatorComponent {
    /// Every parameter lies in its legal range.
    pub open spec fn wf(&self) -> bool {
        &&& MIN_FREQ <= self.freq <= MAX_FREQ
        &&& MIN_AMP <= self.sine_amp <= MAX_AMP
        &&& MIN_PHASE <= self.sine_phase <= MAX_PHASE
        &&& MIN_AMP <= self.square_amp <= MAX_AMP
        &&& MIN_PHASE <= self.square_phase <= MAX_PHASE
        &&& MIN_AMP <= self.saw_amp <= MAX_AMP
        &&& MIN_PHASE <= self.saw_phase <= MAX_PHASE
    }

    /// Draws every parameter independently and uniformly from its legal
    /// range.
    pub fn create() -> (r: Self)
        ensures
            r.wf(),
    {
        Self {
            freq: Self::random_freq(),
            sine_amp: Self::random_amp(),
            sine_phase: Self::random_phase(),
            square_amp: Self::random_amp(),
            square_phase: Self::random_phase(),
            saw_amp: Self::random_amp(),
            saw_phase: Self::random_phase(),
        }
    }

    /// Blends every parameter of the two parents with a random weight, or,
    /// with probability `mutation_rate` per parameter, replaces it by a fresh
    /// random value in its legal range.  Two oscillators always combine.
    pub fn combine(&self, other: &Self, mutation_rate: i64) -> (r: Option<Self>)
        requires
            self.wf(),
            other.wf(),
        ensures
            r is Some,
            r matches Some(c) ==> c.wf(),
    {
        Some(
            Self {
                freq: random_weighted_average(self.freq, other.freq, mutation_rate, Self::random_freq()),
                sine_amp: random_weighted_average(
                    self.sine_amp,
                    other.sine_amp,
                    mutation_rate,
                    Self::random_amp(),
                ),
                sine_phase: random_weighted_average(
                    self.sine_phase,
                    other.sine_phase,
                    mutation_rate,
                    Self::random_phase(),
                ),
                square_amp: random_weighted_average(
                    self.square_amp,
                    other.square_amp,
                    mutation_rate,
                    Self::random_amp(),
                ),
                square_phase: random_weighted_average(
                    self.square_phase,
                    other.square_phase,
                    mutation_rate,
                    Self::random_phase(),
                ),
                saw_amp: random_weighted_average(
                    self.saw_amp,
                    other.saw_amp,
                    mutation_rate,
                    Self::random_amp(),
                ),
                saw_phase: random_weighted_average(
                    self.saw_phase,
                    other.saw_phase,
                    mutation_rate,
                    Self::random_phase(),
                ),
            },
        )
    }

    /// Moves every parameter to a new value drawn from a window of width
    /// proportional to `step_size` centered on the current value, clamped to
    /// the legal bounds.
    pub fn evolve(&self, step_size: i64) -> (r: Self)
        requires
            self.wf(),
            0 <= step_size,
        ensures
            r.wf(),
            within_window(r.freq as int, self.freq as int, MIN_FREQ as int, MAX_FREQ as int, step_size as int),
            within_window(r.sine_amp as int, self.sine_amp as int, MIN_AMP as int, MAX_AMP as int, step_size as int),
            within_window(r.sine_phase as int, self.sine_phase as int, MIN_PHASE as int, MAX_PHASE as int, step_size as int),
            within_window(r.square_amp as int, self.square_amp as int, MIN_AMP as int, MAX_AMP as int, step_size as int),
            within_window(r.square_phase as int, self.square_phase as int, MIN_PHASE as int, MAX_PHASE as int, step_size as int),
            within_window(r.saw_amp as int, self.saw_amp as int, MIN_AMP as int, MAX_AMP as int, step_size as int),
            within_window(r.saw_phase as int, self.saw_phase as int, MIN_PHASE as int, MAX_PHASE as int, step_size as int),
    {
        Self {
            freq: evolve_value(self.freq, MIN_FREQ, MAX_FREQ, step_size),
            sine_amp: evolve_value(self.sine_amp, MIN_AMP, MAX_AMP, step_size),
            sine_phase: evolve_value(self.sine_phase, MIN_PHASE, MAX_PHASE, step_size),
            square_amp: evolve_value(self.square_amp, MIN_AMP, MAX_AMP, step_size),
            square_phase: evolve_value(self.square_phase, MIN_PHASE, MAX_PHASE, step_size),
            saw_amp: evolve_value(self.saw_amp, MIN_AMP, MAX_AMP, step_size),
            saw_phase: evolve_value(self.saw_phase, MIN_PHASE, MAX_PHASE, step_size),
        }
    }

    fn random_freq() -> (r: i64)
        ensures
            MIN_FREQ <= r <= MAX_FREQ,
    {
        random_in(MIN_FREQ, MAX_FREQ)
    }

    fn random_amp() -> (r: i64)
        ensures
            MIN_AMP <= r <= MAX_AMP,
    {
        random_in(MIN_AMP, MAX_AMP)
    }

    fn random_phase() -> (r: i64)
        ensures
            MIN_PHASE <= r <= MAX_PHASE,
    {
        random_in(MIN_PHASE, MAX_PHASE)
    }
}

} // verus!
