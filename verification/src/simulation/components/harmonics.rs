use vstd::prelude::*;
use crate::random::random_in;
use crate::utils::random_weighted_average;
use crate::simulation::algorithms::hillclimbing::{evolve_value, within_window};

verus! {

/// Lowest fundamental frequency, in fixed point.
pub const MIN_FREQ: i64 = 20_000_000;

/// Highest fundamental frequency, in fixed point.
pub const MAX_FREQ: i64 = 10_000_000_000;

/// Number of harmonics drawn for a fresh component.
pub const N_HARMONICS: usize = 9;

/// Largest number of harmonics a well-formed component may hold.
pub const MAX_HARMONICS: usize = 10;

/// The genome containing the harmonics information in additive synthesis.
#[derive(Clone, Debug, PartialEq)]
pub struct HarmonicsComponent {
    /// Fundamental frequency of the harmonic series.
    pub freq: i64,
    /// Amplitudes of each of the n harmonics, in fixed point.
    pub amplitudes: Vec<i64>,
}

impl HarmonicsComponent {
    /// The frequency and every amplitude lie in their legal ranges.
    pub open spec fn wf(&self) -> bool {
        &&& MIN_FREQ <= self.freq <= MAX_FREQ
        &&& self.amplitudes@.len() <= MAX_HARMONICS as int
        &&& forall|i: int|
            0 <= i < self.amplitudes@.len() ==> 0 <= #[trigger] self.amplitudes@[i]
                <= crate::utils::SCALE
    }

    /// Draws a fundamental frequency and nine amplitudes independently and
    /// uniformly from their legal ranges.
    pub fn create() -> (r: Self)
        ensures
            r.wf(),
            r.amplitudes@.len() == N_HARMONICS as int,
    {
        let freq = Self::random_freq();
        let mut amplitudes: Vec<i64> = Vec::new();
        let mut i: usize = 0;
        while i < N_HARMONICS
            invariant
                0 <= i <= N_HARMONICS,
                amplitudes@.len() == i,
                forall|j: int|
                    0 <= j < i ==> 0 <= #[trigger] amplitudes@[j] <= crate::utils::SCALE,
            decreases N_HARMONICS - i,
        {
            amplitudes.push(random_in(0, crate::utils::SCALE));
            i = i + 1;
        }
        Self { freq, amplitudes }
    }

    /// Blends the frequency and each pair of amplitudes of the two parents
    /// with a random weight, or, with probability `r` per parameter, draws a
    /// fresh random value.  The shorter amplitude list bounds the result.
    /// Two harmonics components always combine.
    pub fn combine(&self, other: &Self, r: i64) -> (c: Option<Self>)
        requires
            self.wf(),
            other.wf(),
        ensures
            c is Some,
            c matches Some(h) ==> {
                &&& h.wf()
                &&& h.amplitudes@.len() == if self.amplitudes@.len() <= other.amplitudes@.len() {
                    self.amplitudes@.len()
                } else {
                    other.amplitudes@.len()
                }
            },
    {
        let freq = random_weighted_average(self.freq, other.freq, r, Self::random_freq());
        let n: usize = if self.amplitudes.len() <= other.amplitudes.len() {
            self.amplitudes.len()
        } else {
            other.amplitudes.len()
        };
        let mut amplitudes: Vec<i64> = Vec::new();
        let mut i: usize = 0;
        while i < n
            invariant
                0 <= i <= n,
                n <= self.amplitudes@.len(),
                n <= other.amplitudes@.len(),
                self.wf(),
                other.wf(),
                amplitudes@.len() == i,
                forall|j: int|
                    0 <= j < i ==> 0 <= #[trigger] amplitudes@[j] <= crate::utils::SCALE,
            decreases n - i,
        {
            let a = random_weighted_average(
                self.amplitudes[i],
                other.amplitudes[i],
                r,
                random_in(0, crate::utils::SCALE),
            );
            amplitudes.push(a);
            i = i + 1;
        }
        Some(Self { freq, amplitudes })
    }

    /// Moves the frequency and every amplitude within a window proportional
    /// to `step_size` centered on the current value, clamped to the legal
    /// bounds.
    pub fn evolve(&self, step_size: i64) -> (c: Self)
        requires
            self.wf(),
            0 <= step_size,
        ensures
            c.wf(),
            c.amplitudes@.len() == self.amplitudes@.len(),
            within_window(c.freq as int, self.freq as int, MIN_FREQ as int, MAX_FREQ as int, step_size as int),
            forall|j: int|
                0 <= j < c.amplitudes@.len() ==> within_window(
                    #[trigger] c.amplitudes@[j] as int,
                    self.amplitudes@[j] as int,
                    0,
                    crate::utils::SCALE as int,
                    step_size as int,
                ),
    {
        let freq = evolve_value(self.freq, MIN_FREQ, MAX_FREQ, step_size);
        let n = self.amplitudes.len();
        let mut amplitudes: Vec<i64> = Vec::new();
        let mut i: usize = 0;
        while i < n
            invariant
                0 <= i <= n,
                n == self.amplitudes@.len(),
                self.wf(),
                0 <= step_size,
                amplitudes@.len() == i,
                forall|j: int|
                    0 <= j < i ==> 0 <= #[trigger] amplitudes@[j] <= crate::utils::SCALE,
                forall|j: int|
                    0 <= j < i ==> within_window(
                        #[trigger] amplitudes@[j] as int,
                        self.amplitudes@[j] as int,
                        0,
                        crate::utils::SCALE as int,
                        step_size as int,
                    ),
            decreases n - i,
        {
            amplitudes.push(evolve_value(self.amplitudes[i], 0, crate::utils::SCALE, step_size));
            i = i + 1;
        }
        Self { freq, amplitudes }
    }

    fn random_freq() -> (r: i64)
        ensures
            MIN_FREQ <= r <= MAX_FREQ,
    {
        random_in(MIN_FREQ, MAX_FREQ)
    }
}

} // verus!
