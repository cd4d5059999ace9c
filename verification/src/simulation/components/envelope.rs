use vstd::prelude::*;
use crate::random::random_in;
use crate::utils::random_weighted_average;
use crate::simulation::algorithms::hillclimbing::{evolve_value, within_window};

verus! {

/// Upper bound (exclusive) of the attack time, in milliseconds.
pub const MAX_ATTACK: i64 = 2000;

/// Upper bound (exclusive) of the decay time, in milliseconds.
pub const MAX_DECAY: i64 = 3000;

/// Upper bound (exclusive) of the sustain level (full scale is 255).
pub const MAX_SUSTAIN: i64 = 255;

/// Upper bound (exclusive) of the release time, in milliseconds.
pub const MAX_RELEASE: i64 = 5000;

/// The genome of an attack-decay-sustain-release envelope.
#[derive(Copy, Clone, Debug, PartialEq, Eq, Structural)]
pub struct EnvelopeComponent {
    /// Attack time in ms.
    pub attack: u32,
    /// Decay time in ms.
    pub decay: u32,
    /// Sustain level, 0 - 255.
    pub sustain: u8,
    /// Release time in ms.
    pub release: u32,
}

impl EnvelopeComponent {
    /// Every parameter lies in its legal range.
    pub open spec fn wf(&self) -> bool {
        &&& self.attack < MAX_ATTACK
        &&& self.decay < MAX_DECAY
        &&& self.sustain < MAX_SUSTAIN
        &&& self.release < MAX_RELEASE
    }

    /// Draws every parameter independently and uniformly from its legal
    /// range.
    pub fn create() -> (r: Self)
        ensures
            r.wf(),
    {
        Self {
            attack: random_in(0, MAX_ATTACK) as u32,
            decay: random_in(0, MAX_DECAY) as u32,
            sustain: random_in(0, MAX_SUSTAIN) as u8,
            release: random_in(0, MAX_RELEASE) as u32,
        }
    }

    /// Blends every parameter of the two parents with a random weight, or,
    /// with probability `r` per parameter, replaces it by a fresh random
    /// value in its legal range.  Two envelopes always combine.
    pub fn combine(&self, other: &Self, r: i64) -> (c: Option<Self>)
        requires
            self.wf(),
            other.wf(),
        ensures
            c is Some,
            c matches Some(e) ==> e.wf(),
    {
        Some(
            Self {
                attack: random_weighted_average(
                    self.attack as i64,
                    other.attack as i64,
                    r,
                    random_in(0, MAX_ATTACK),
                ) as u32,
                decay: random_weighted_average(
                    self.decay as i64,
                    other.decay as i64,
                    r,
                    random_in(0, MAX_DECAY),
                ) as u32,
                sustain: random_weighted_average(
                    self.sustain as i64,
                    other.sustain as i64,
                    r,
                    random_in(0, MAX_SUSTAIN),
                ) as u8,
                release: random_weighted_average(
                    self.release as i64,
                    other.release as i64,
                    r,
                    random_in(0, MAX_RELEASE),
                ) as u32,
            },
        )
    }

    /// Moves every parameter within a window proportional to `step_size`
    /// centered on the current value, clamped to the legal bounds.
    pub fn evolve(&self, step_size: i64) -> (r: Self)
        requires
            self.wf(),
            0 <= step_size,
        ensures
            r.wf(),
            within_window(r.attack as int, self.attack as int, 0, MAX_ATTACK - 1, step_size as int),
            within_window(r.decay as int, self.decay as int, 0, MAX_DECAY - 1, step_size as int),
            within_window(r.sustain as int, self.sustain as int, 0, MAX_SUSTAIN - 1, step_size as int),
            within_window(r.release as int, self.release as int, 0, MAX_RELEASE - 1, step_size as int),
    {
        Self {
            attack: evolve_value(self.attack as i64, 0, MAX_ATTACK - 1, step_size) as u32,
            decay: evolve_value(self.decay as i64, 0, MAX_DECAY - 1, step_size) as u32,
            sustain: evolve_value(self.sustain as i64, 0, MAX_SUSTAIN - 1, step_size) as u8,
            release: evolve_value(self.release as i64, 0, MAX_RELEASE - 1, step_size) as u32,
        }
    }
}

} // verus!
