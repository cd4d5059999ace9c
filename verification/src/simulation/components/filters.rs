use vstd::prelude::*;
use crate::random::random_in;
use crate::utils::random_weighted_average;
use crate::simulation::algorithms::hillclimbing::{evolve_value, within_window};

verus! {

/// Lowest cutoff frequency, in fixed point.
pub const MIN_FREQ: i64 = 0;

/// Highest cutoff frequency, in fixed point.
pub const MAX_FREQ: i64 = 20_000_000_000;

/// Narrowest transition band, in fixed point.
pub const MIN_BAND: i64 = 10_000;

/// Widest transition band, in fixed point.
pub const MAX_BAND: i64 = 4_000_000;

/// The genome of a finite-impulse-response filter; the family is part of the
/// genome and never changes under blending or local perturbation.
#[derive(Copy, Clone, Debug, PartialEq, Eq, Structural)]
pub enum FilterComponent {
    LowPass { cutoff_freq: i64, band: i64 },
    HighPass { cutoff_freq: i64, band: i64 },
    BandPass { low_freq: i64, high_freq: i64, band: i64 },
    BandReject { low_freq: i64, high_freq: i64, band: i64 },
}

/// Selects a filter family when configuring a generator.
#[derive(Copy, Clone, Debug, PartialEq, Eq, Structural)]
pub enum FilterType {
    LowPass,
    HighPass,
    BandPass,
    BandReject,
}

/// Whether two filter genomes belong to the same family, so that they can be
/// blended into an offspring gene.
pub open spec fn same_family(a: FilterComponent, b: FilterComponent) -> bool {
    match (a, b) {
        (FilterComponent::LowPass { .. }, FilterComponent::LowPass { .. }) => true,
        (FilterComponent::HighPass { .. }, FilterComponent::HighPass { .. }) => true,
        (FilterComponent::BandPass { .. }, FilterComponent::BandPass { .. }) => true,
        (FilterComponent::BandReject { .. }, FilterComponent::BandReject { .. }) => true,
        _ => false,
    }
}

/// The family a filter genome belongs to.
pub open spec fn family_of(a: FilterComponent) -> FilterType {
    match a {
        FilterComponent::LowPass { .. } => FilterType::LowPass,
        FilterComponent::HighPass { .. } => FilterType::HighPass,
        FilterComponent::BandPass { .. } => FilterType::BandPass,
        FilterComponent::BandReject { .. } => FilterType::BandReject,
    }
}

impl FilterComponent {
    /// Every parameter lies in its legal range, and band edges are ordered.
    pub open spec fn wf(&self) -> bool {
        match *self {
            FilterComponent::LowPass { cutoff_freq, band } => {
                &&& MIN_FREQ <= cutoff_freq <= MAX_FREQ
                &&& MIN_BAND <= band <= MAX_BAND
            },
            FilterComponent::HighPass { cutoff_freq, band } => {
                &&& MIN_FREQ <= cutoff_freq <= MAX_FREQ
                &&& MIN_BAND <= band <= MAX_BAND
            },
            FilterComponent::BandPass { low_freq, high_freq, band } => {
                &&& MIN_FREQ <= low_freq <= high_freq <= MAX_FREQ
                &&& MIN_BAND <= band <= MAX_BAND
            },
            FilterComponent::BandReject { low_freq, high_freq, band } => {
                &&& MIN_FREQ <= low_freq <= high_freq <= MAX_FREQ
                &&& MIN_BAND <= band <= MAX_BAND
            },
        }
    }

    /// Draws a fresh filter genome of the requested family, each parameter
    /// uniform in its legal range; band edges are sorted.
    pub fn create(filter_type: FilterType) -> (r: Self)
        ensures
            r.wf(),
            family_of(r) == filter_type,
    {
        match filter_type {
            FilterType::LowPass => {
                Self::LowPass { cutoff_freq: Self::random_freq(), band: Self::random_band() }
            },
            FilterType::HighPass => {
                Self::HighPass { cutoff_freq: Self::random_freq(), band: Self::random_band() }
            },
            FilterType::BandPass => {
                let freq_1 = Self::random_freq();
                let freq_2 = Self::random_freq();
                let (low_freq, high_freq) = if freq_1 < freq_2 {
                    (freq_1, freq_2)
                } else {
                    (freq_2, freq_1)
                };
                let band = Self::random_band();
                Self::BandPass { low_freq, high_freq, band }
            },
            FilterType::BandReject => {
                let freq_1 = Self::random_freq();
                let freq_2 = Self::random_freq();
                let (low_freq, high_freq) = if freq_1 < freq_2 {
                    (freq_1, freq_2)
                } else {
                    (freq_2, freq_1)
                };
                let band = Self::random_band();
                Self::BandReject { low_freq, high_freq, band }
            },
        }
    }

    /// Blends two filter genomes of the same family parameter by parameter
    /// (band edges re-sorted after blending), or mutates single parameters;
    /// returns nothing exactly when the families differ.
    pub fn combine(&self, other: &Self, mutation_rate: i64) -> (r: Option<Self>)
        requires
            self.wf(),
            other.wf(),
        ensures
            r is Some <==> same_family(*self, *other),
            r matches Some(c) ==> {
                &&& c.wf()
                &&& family_of(c) == family_of(*self)
            },
    {
        match (self, other) {
            (
                Self::LowPass { cutoff_freq: self_cutoff_freq, band: self_band },
                Self::LowPass { cutoff_freq: other_cutoff_freq, band: other_band },
            ) => {
                Some(
                    Self::LowPass {
                        cutoff_freq: random_weighted_average(
                            *self_cutoff_freq,
                            *other_cutoff_freq,
                            mutation_rate,
                            Self::random_freq(),
                        ),
                        band: random_weighted_average(
                            *self_band,
                            *other_band,
                            mutation_rate,
                            Self::random_band(),
                        ),
                    },
                )
            },
            (
                Self::HighPass { cutoff_freq: self_cutoff_freq, band: self_band },
                Self::HighPass { cutoff_freq: other_cutoff_freq, band: other_band },
            ) => {
                Some(
                    Self::HighPass {
                        cutoff_freq: random_weighted_average(
                            *self_cutoff_freq,
                            *other_cutoff_freq,
                            mutation_rate,
                            Self::random_freq(),
                        ),
                        band: random_weighted_average(
                            *self_band,
                            *other_band,
                            mutation_rate,
                            Self::random_band(),
                        ),
                    },
                )
            },
            (
                Self::BandPass {
                    low_freq: self_low_freq,
                    high_freq: self_high_freq,
                    band: self_band,
                },
                Self::BandPass {
                    low_freq: other_low_freq,
                    high_freq: other_high_freq,
                    band: other_band,
                },
            ) => {
                let freq_1 = random_weighted_average(
                    *self_low_freq,
                    *other_low_freq,
                    mutation_rate,
                    Self::random_freq(),
                );
                let freq_2 = random_weighted_average(
                    *self_high_freq,
                    *other_high_freq,
                    mutation_rate,
                    Self::random_freq(),
                );
                let (low_freq, high_freq) = if freq_1 < freq_2 {
                    (freq_1, freq_2)
                } else {
                    (freq_2, freq_1)
                };
                let band = random_weighted_average(
                    *self_band,
                    *other_band,
                    mutation_rate,
                    Self::random_band(),
                );
                Some(Self::BandPass { low_freq, high_freq, band })
            },
            (
                Self::BandReject {
                    low_freq: self_low_freq,
                    high_freq: self_high_freq,
                    band: self_band,
                },
                Self::BandReject {
                    low_freq: other_low_freq,
                    high_freq: other_high_freq,
                    band: other_band,
                },
            ) => {
                let freq_1 = random_weighted_average(
                    *self_low_freq,
                    *other_low_freq,
                    mutation_rate,
                    Self::random_freq(),
                );
                let freq_2 = random_weighted_average(
                    *self_high_freq,
                    *other_high_freq,
                    mutation_rate,
                    Self::random_freq(),
                );
                let (low_freq, high_freq) = if freq_1 < freq_2 {
                    (freq_1, freq_2)
                } else {
                    (freq_2, freq_1)
                };
                let band = random_weighted_average(
                    *self_band,
                    *other_band,
                    mutation_rate,
                    Self::random_band(),
                );
                Some(Self::BandReject { low_freq, high_freq, band })
            },
            _ => None,
        }
    }

    /// Moves every parameter within a window proportional to `step_size`
    /// centered on the current value, clamped to the legal bounds; band
    /// edges are re-sorted, so each new edge stems from the window of one of
    /// the two old edges.  The family never changes.
    pub fn evolve(&self, step_size: i64) -> (r: Self)
        requires
            self.wf(),
            0 <= step_size,
        ensures
            r.wf(),
            family_of(r) == family_of(*self),
            match (*self, r) {
                (
                    FilterComponent::LowPass { cutoff_freq: c0, band: b0 },
                    FilterComponent::LowPass { cutoff_freq: c1, band: b1 },
                ) => {
                    &&& within_window(c1 as int, c0 as int, MIN_FREQ as int, MAX_FREQ as int, step_size as int)
                    &&& within_window(b1 as int, b0 as int, MIN_BAND as int, MAX_BAND as int, step_size as int)
                },
                (
                    FilterComponent::HighPass { cutoff_freq: c0, band: b0 },
                    FilterComponent::HighPass { cutoff_freq: c1, band: b1 },
                ) => {
                    &&& within_window(c1 as int, c0 as int, MIN_FREQ as int, MAX_FREQ as int, step_size as int)
                    &&& within_window(b1 as int, b0 as int, MIN_BAND as int, MAX_BAND as int, step_size as int)
                },
                (
                    FilterComponent::BandPass { low_freq: l0, high_freq: h0, band: b0 },
                    FilterComponent::BandPass { low_freq: l1, high_freq: h1, band: b1 },
                ) => {
                    &&& within_window(l1 as int, l0 as int, MIN_FREQ as int, MAX_FREQ as int, step_size as int)
                        || within_window(l1 as int, h0 as int, MIN_FREQ as int, MAX_FREQ as int, step_size as int)
                    &&& within_window(h1 as int, l0 as int, MIN_FREQ as int, MAX_FREQ as int, step_size as int)
                        || within_window(h1 as int, h0 as int, MIN_FREQ as int, MAX_FREQ as int, step_size as int)
                    &&& within_window(b1 as int, b0 as int, MIN_BAND as int, MAX_BAND as int, step_size as int)
                },
                (
                    FilterComponent::BandReject { low_freq: l0, high_freq: h0, band: b0 },
                    FilterComponent::BandReject { low_freq: l1, high_freq: h1, band: b1 },
                ) => {
                    &&& within_window(l1 as int, l0 as int, MIN_FREQ as int, MAX_FREQ as int, step_size as int)
                        || within_window(l1 as int, h0 as int, MIN_FREQ as int, MAX_FREQ as int, step_size as int)
                    &&& within_window(h1 as int, l0 as int, MIN_FREQ as int, MAX_FREQ as int, step_size as int)
                        || within_window(h1 as int, h0 as int, MIN_FREQ as int, MAX_FREQ as int, step_size as int)
                    &&& within_window(b1 as int, b0 as int, MIN_BAND as int, MAX_BAND as int, step_size as int)
                },
                _ => false,
            },
    {
        match self {
            FilterComponent::LowPass { cutoff_freq, band } => {
                Self::LowPass {
                    cutoff_freq: evolve_value(*cutoff_freq, MIN_FREQ, MAX_FREQ, step_size),
                    band: evolve_value(*band, MIN_BAND, MAX_BAND, step_size),
                }
            },
            FilterComponent::HighPass { cutoff_freq, band } => {
                Self::HighPass {
                    cutoff_freq: evolve_value(*cutoff_freq, MIN_FREQ, MAX_FREQ, step_size),
                    band: evolve_value(*band, MIN_BAND, MAX_BAND, step_size),
                }
            },
            FilterComponent::BandPass { low_freq, high_freq, band } => {
                let freq_1 = evolve_value(*low_freq, MIN_FREQ, MAX_FREQ, step_size);
                let freq_2 = evolve_value(*high_freq, MIN_FREQ, MAX_FREQ, step_size);
                let (low_freq, high_freq) = if freq_1 < freq_2 {
                    (freq_1, freq_2)
                } else {
                    (freq_2, freq_1)
                };
                let band = evolve_value(*band, MIN_BAND, MAX_BAND, step_size);
                Self::BandPass { low_freq, high_freq, band }
            },
            FilterComponent::BandReject { low_freq, high_freq, band } => {
                let freq_1 = evolve_value(*low_freq, MIN_FREQ, MAX_FREQ, step_size);
                let freq_2 = evolve_value(*high_freq, MIN_FREQ, MAX_FREQ, step_size);
                let (low_freq, high_freq) = if freq_1 < freq_2 {
                    (freq_1, freq_2)
                } else {
                    (freq_2, freq_1)
                };
                let band = evolve_value(*band, MIN_BAND, MAX_BAND, step_size);
                Self::BandReject { low_freq, high_freq, band }
            },
        }
    }

    fn random_freq() -> (r: i64)
        ensures
            MIN_FREQ <= r <= MAX_FREQ,
    {
        random_in(MIN_FREQ, MAX_FREQ)
    }

    fn random_band() -> (r: i64)
        ensures
            MIN_BAND <= r <= MAX_BAND,
    {
        random_in(MIN_BAND, MAX_BAND)
    }
}

} // verus!
