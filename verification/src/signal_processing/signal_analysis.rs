use vstd::prelude::*;
use crate::signal_processing::{Signal, SAMPLE_RATE, SAMPLE_LIMIT, MAX_SAMPLES};
use crate::error::{SignalProcessingError, SpectrumErrorKind};
use crate::utils::{SCALE, isqrt};

verus! {

/// Fixed analysis length: a signal is truncated or zero-padded to this many
/// samples before its spectrum is taken.
pub const ANALYSIS_LEN: usize = 16_384;

/// Magnitude headroom of a spectrum bin; bins handed in by a spectral
/// transform are saturated into this range before any arithmetic.
pub const MAG_LIMIT: i64 = 500_000_000_000;

/// The external spectral transform: maps a signal to the magnitude of each
/// frequency bin, in fixed point.  The transform itself is an outside
/// collaborator; everything computed from its result is verified.
pub trait SpectrumTransform {
    /// Computes the magnitude spectrum of the given signal, or reports why
    /// the signal admits no spectrum.
    fn magnitude_spectrum(&self, signal: &Signal, sample_rate: u32) -> Result<
        Vec<i64>,
        SpectrumErrorKind,
    >;
}

/// What a sequence looks like after truncation or zero-padding to the fixed
/// analysis length.
pub open spec fn normalised_spec(s: Seq<i64>) -> Seq<i64> {
    if s.len() >= ANALYSIS_LEN as int {
        s.take(ANALYSIS_LEN as int)
    } else {
        s + Seq::new((ANALYSIS_LEN as int - s.len()) as nat, |i: int| 0i64)
    }
}

/// Normalization is idempotent: once a sequence has the analysis length,
/// normalizing it again changes nothing.
pub proof fn lemma_normalise_idempotent(s: Seq<i64>)
    ensures
        normalised_spec(normalised_spec(s)) == normalised_spec(s),
{
    let n = normalised_spec(s);
    assert(n.len() == ANALYSIS_LEN as int);
    assert(normalised_spec(n) =~= n);
}

/// Sum of squared differences over the first `n` positions of two sequences.
pub open spec fn dist_sq_to(a: Seq<i64>, b: Seq<i64>, n: int) -> int
    decreases n,
{
    if n <= 0 {
        0
    } else {
        dist_sq_to(a, b, n - 1) + (a[n - 1] - b[n - 1]) * (a[n - 1] - b[n - 1])
    }
}

/// A sequence is at distance zero from itself.
pub proof fn lemma_dist_sq_self(a: Seq<i64>, n: int)
    ensures
        dist_sq_to(a, a, n) == 0,
    decreases n,
{
    if n > 0 {
        lemma_dist_sq_self(a, n - 1);
    }
}

impl Signal {
    /// Truncates or zero-pads a copy of the signal to exactly
    /// [`ANALYSIS_LEN`] samples.
    pub fn normalise(&self) -> (r: Self)
        requires
            self.wf(),
        ensures
            r@ == normalised_spec(self@),
            r@.len() == ANALYSIS_LEN as int,
            r.wf(),
    {
        let n = self.n_samples();
        let mut samples: Vec<i64> = Vec::new();
        let mut i: usize = 0;
        while i < ANALYSIS_LEN
            invariant
                0 <= i <= ANALYSIS_LEN,
                self.wf(),
                n == self@.len(),
                samples@.len() == i,
                forall|j: int|
                    0 <= j < i ==> #[trigger] samples@[j] == if j < self@.len() {
                        self@[j]
                    } else {
                        0i64
                    },
            decreases ANALYSIS_LEN - i,
        {
            if i < n {
                let v = self.samples()[i];
                samples.push(v);
            } else {
                samples.push(0);
            }
            i = i + 1;
        }
        proof {
            assert(samples@ =~= normalised_spec(self@));
        }
        Signal::from_samples(&samples)
    }

    /// A copy of the signal zero-padded so that its number of samples is the
    /// next power of two, in order to analyse its frequency spectrum.
    pub fn extend_pow_two(&self) -> (r: Self)
        requires
            self.wf(),
            self@.len() <= MAX_SAMPLES as int / 2,
        ensures
            r.wf(),
            is_pow2(r@.len() as nat),
            r@.len() >= self@.len(),
            self@.len() >= 1 ==> r@.len() < 2 * self@.len(),
            forall|j: int|
                0 <= j < r@.len() ==> #[trigger] r@[j] == if j < self@.len() {
                    self@[j]
                } else {
                    0i64
                },
    {
        let n = self.n_samples();
        let mut p: usize = 1;
        while p < n
            invariant
                1 <= p,
                is_pow2(p as nat),
                n >= 1 ==> p < 2 * n,
                p <= MAX_SAMPLES,
                n <= MAX_SAMPLES / 2,
            decreases 2 * n - p,
        {
            p = p * 2;
        }
        let mut samples: Vec<i64> = Vec::new();
        let mut i: usize = 0;
        while i < p
            invariant
                0 <= i <= p,
                self.wf(),
                n == self@.len(),
                n <= p <= MAX_SAMPLES,
                samples@.len() == i,
                forall|j: int|
                    0 <= j < i ==> #[trigger] samples@[j] == if j < self@.len() {
                        self@[j]
                    } else {
                        0i64
                    },
            decreases p - i,
        {
            if i < n {
                let v = self.samples()[i];
                samples.push(v);
            } else {
                samples.push(0);
            }
            i = i + 1;
        }
        Signal::from_samples(&samples)
    }

    /// Euclidean distance between the two raw sample sequences, over the
    /// overlapping prefix: the integer square root of the sum of squared
    /// differences.
    pub fn euclidean_distance(&self, other: &Self) -> (r: i64)
        requires
            self.wf(),
            other.wf(),
        ensures
            0 <= r,
            ({
                let n = if self@.len() <= other@.len() {
                    self@.len() as int
                } else {
                    other@.len() as int
                };
                &&& (r as int) * (r as int) <= dist_sq_to(self@, other@, n)
                &&& dist_sq_to(self@, other@, n) < (r as int + 1) * (r as int + 1)
            }),
    {
        let n: usize = if self.n_samples() <= other.n_samples() {
            self.n_samples()
        } else {
            other.n_samples()
        };
        let a = self.samples();
        let b = other.samples();
        let mut acc: i128 = 0;
        let mut i: usize = 0;
        while i < n
            invariant
                0 <= i <= n,
                n <= self@.len(),
                n <= other@.len(),
                self.wf(),
                other.wf(),
                a@ == self@,
                b@ == other@,
                acc == dist_sq_to(self@, other@, i as int),
                0 <= acc <= i * 4_000_000_000_000_000_000_000_000,
            decreases n - i,
        {
            let d: i64 = a[i] - b[i];
            proof {
                assert(0 <= (d as int) * (d as int) <= 4_000_000_000_000_000_000_000_000)
                    by (nonlinear_arith)
                    requires
                        -2_000_000_000_000 <= d as int <= 2_000_000_000_000,
                ;
                assert(i * 4_000_000_000_000_000_000_000_000 + 4_000_000_000_000_000_000_000_000
                    == (i + 1) * 4_000_000_000_000_000_000_000_000) by (nonlinear_arith);
                assert(i * 4_000_000_000_000_000_000_000_000 <= 100_000_000
                    * 4_000_000_000_000_000_000_000_000) by (nonlinear_arith)
                    requires
                        0 <= i <= 100_000_000,
                ;
            }
            acc = acc + (d as i128) * (d as i128);
            i = i + 1;
        }
        proof {
            assert(i as int * 4_000_000_000_000_000_000_000_000 <= 100_000_000
                * 4_000_000_000_000_000_000_000_000) by (nonlinear_arith)
                requires
                    0 <= i as int <= 100_000_000,
            ;
        }
        let root: u64 = isqrt(acc as u128);
        proof {
            if root as int >= 0x8000_0000_0000_0000 {
                assert((root as int) * (root as int) >= 0x8000_0000_0000_0000
                    * 0x8000_0000_0000_0000) by (nonlinear_arith)
                    requires
                        root as int >= 0x8000_0000_0000_0000,
                ;
            }
        }
        root as i64
    }
}

/// Whether `n` is a power of two.
pub open spec fn is_pow2(n: nat) -> bool
    decreases n,
{
    if n == 0 {
        false
    } else if n == 1 {
        true
    } else {
        n % 2 == 0 && is_pow2(n / 2)
    }
}

/// Mean squared error between two magnitude spectra over the overlapping bin
/// range; the length of the first spectrum is the denominator, so a shorter
/// second spectrum bounds the comparison.
pub fn spectra_mse(a: &Vec<i64>, b: &Vec<i64>) -> (r: i64)
    requires
        1 <= a@.len() <= MAX_SAMPLES as int,
        b@.len() <= MAX_SAMPLES as int,
        forall|i: int| 0 <= i < a@.len() ==> 0 <= #[trigger] a@[i] <= 2 * MAG_LIMIT as int,
        forall|i: int| 0 <= i < b@.len() ==> 0 <= #[trigger] b@[i] <= 2 * MAG_LIMIT as int,
    ensures
        ({
            let n = if a@.len() <= b@.len() {
                a@.len() as int
            } else {
                b@.len() as int
            };
            r == dist_sq_to(a@, b@, n) / ((a@.len() as int) * (SCALE as int))
        }),
        0 <= r,
{
    let n: usize = if a.len() <= b.len() {
        a.len()
    } else {
        b.len()
    };
    let mut acc: i128 = 0;
    let mut i: usize = 0;
    while i < n
        invariant
            0 <= i <= n,
            n <= a@.len(),
            n <= b@.len(),
            a@.len() <= MAX_SAMPLES as int,
            b@.len() <= MAX_SAMPLES as int,
            forall|k: int| 0 <= k < a@.len() ==> 0 <= #[trigger] a@[k] <= 2 * MAG_LIMIT as int,
            forall|k: int| 0 <= k < b@.len() ==> 0 <= #[trigger] b@[k] <= 2 * MAG_LIMIT as int,
            acc == dist_sq_to(a@, b@, i as int),
            0 <= acc <= i * 1_000_000_000_000_000_000_000_000,
        decreases n - i,
    {
        let d: i64 = a[i] - b[i];
        proof {
            assert(0 <= (d as int) * (d as int) <= 1_000_000_000_000_000_000_000_000)
                by (nonlinear_arith)
                requires
                    -1_000_000_000_000 <= d as int <= 1_000_000_000_000,
            ;
            assert(i * 1_000_000_000_000_000_000_000_000 + 1_000_000_000_000_000_000_000_000 == (i
                + 1) * 1_000_000_000_000_000_000_000_000) by (nonlinear_arith);
            assert(i * 1_000_000_000_000_000_000_000_000 <= 100_000_000
                * 1_000_000_000_000_000_000_000_000) by (nonlinear_arith)
                requires
                    0 <= i <= 100_000_000,
            ;
        }
        acc = acc + (d as i128) * (d as i128);
        i = i + 1;
    }
    proof {
        assert(i as int * 1_000_000_000_000_000_000_000_000 <= (a@.len() as int)
            * 1_000_000_000_000_000_000_000_000) by (nonlinear_arith)
            requires
                0 <= i as int <= a@.len(),
        ;
        assert(1_000_000 <= (a@.len() as int) * (SCALE as int)) by (nonlinear_arith)
            requires
                1 <= a@.len(),
                SCALE as int == 1_000_000,
        ;
        assert(0 <= acc as int / ((a@.len() as int) * (SCALE as int))
            <= 1_000_000_000_000_000_000int) by (nonlinear_arith)
            requires
                0 <= acc as int,
                acc as int <= (a@.len() as int) * 1_000_000_000_000_000_000_000_000,
                (a@.len() as int) * (SCALE as int) >= 1,
                SCALE as int == 1_000_000,
                a@.len() >= 1,
        ;
    }
    let denom: i128 = (a.len() as i128) * (SCALE as i128);
    (acc / denom) as i64
}

/// A spectrum magnitude saturated into the bin headroom.
pub open spec fn clamp_mag(x: int) -> int {
    if x > MAG_LIMIT as int {
        MAG_LIMIT as int
    } else if x < -(MAG_LIMIT as int) {
        -(MAG_LIMIT as int)
    } else {
        x
    }
}

/// Saturates every bin of a raw spectrum into the magnitude headroom and
/// subtracts the smallest bin from every bin, so that the least magnitude of
/// the result is exactly zero.
pub fn subtract_baseline(raw: &Vec<i64>) -> (r: Vec<i64>)
    requires
        1 <= raw@.len(),
        raw@.len() <= MAX_SAMPLES as int,
    ensures
        r@.len() == raw@.len(),
        forall|i: int| 0 <= i < r@.len() ==> 0 <= #[trigger] r@[i] <= 2 * MAG_LIMIT as int,
        exists|m: int|
            #![trigger raw@[m]]
            {
                &&& 0 <= m < raw@.len()
                &&& forall|i: int|
                    0 <= i < raw@.len() ==> #[trigger] r@[i] == clamp_mag(raw@[i] as int)
                        - clamp_mag(raw@[m] as int)
                &&& forall|i: int|
                    0 <= i < raw@.len() ==> clamp_mag(raw@[m] as int) <= clamp_mag(
                        #[trigger] raw@[i] as int,
                    )
            },
{
    let n = raw.len();
    let mut clamped_bins: Vec<i64> = Vec::new();
    let mut i: usize = 0;
    while i < n
        invariant
            0 <= i <= n,
            n == raw@.len(),
            clamped_bins@.len() == i,
            forall|j: int| 0 <= j < i ==> #[trigger] clamped_bins@[j] == clamp_mag(raw@[j] as int),
            forall|j: int|
                0 <= j < i ==> -(MAG_LIMIT as int) <= #[trigger] clamped_bins@[j] <= MAG_LIMIT as int,
        decreases n - i,
    {
        let v = raw[i];
        let c: i64 = if v > MAG_LIMIT {
            MAG_LIMIT
        } else if v < -MAG_LIMIT {
            -MAG_LIMIT
        } else {
            v
        };
        clamped_bins.push(c);
        i = i + 1;
    }
    let mut min_v: i64 = clamped_bins[0];
    let ghost mut min_at: int = 0;
    let mut i: usize = 1;
    while i < n
        invariant
            1 <= i <= n,
            n == clamped_bins@.len(),
            forall|j: int|
                0 <= j < n ==> -(MAG_LIMIT as int) <= #[trigger] clamped_bins@[j] <= MAG_LIMIT as int,
            forall|j: int| 0 <= j < i ==> #[trigger] clamped_bins@[j] >= min_v,
            0 <= min_at < i,
            clamped_bins@[min_at] == min_v,
        decreases n - i,
    {
        if clamped_bins[i] < min_v {
            min_v = clamped_bins[i];
            proof {
                min_at = i as int;
            }
        }
        i = i + 1;
    }
    let mut out: Vec<i64> = Vec::new();
    let mut i: usize = 0;
    while i < n
        invariant
            0 <= i <= n,
            n == clamped_bins@.len(),
            forall|j: int|
                0 <= j < n ==> -(MAG_LIMIT as int) <= #[trigger] clamped_bins@[j] <= MAG_LIMIT as int,
            forall|j: int| 0 <= j < n ==> #[trigger] clamped_bins@[j] >= min_v,
            0 <= min_at < n,
            clamped_bins@[min_at] == min_v,
            out@.len() == i,
            forall|j: int| 0 <= j < i ==> #[trigger] out@[j] == clamped_bins@[j] - min_v,
            forall|j: int| 0 <= j < i ==> 0 <= #[trigger] out@[j] <= 2 * MAG_LIMIT as int,
        decreases n - i,
    {
        out.push(clamped_bins[i] - min_v);
        i = i + 1;
    }
    proof {
        assert(out@[min_at] == 0i64);
        assert forall|i: int| 0 <= i < raw@.len() implies #[trigger] out@[i] == clamp_mag(
            raw@[i] as int,
        ) - clamp_mag(raw@[min_at] as int) by {
            assert(out@[i] == clamped_bins@[i] - min_v);
        }
        assert forall|i: int| 0 <= i < raw@.len() implies clamp_mag(raw@[min_at] as int)
            <= clamp_mag(#[trigger] raw@[i] as int) by {
            assert(clamped_bins@[i] >= min_v);
        }
    }
    out
}

impl Signal {
    /// Normalizes the signal to the analysis length, asks the external
    /// transform for its magnitude spectrum, and levels the result so that
    /// the smallest bin is zero.  Fails when the transform does, or when the
    /// transform hands back an empty or over-long spectrum.
    pub fn freq_spectrum<F: SpectrumTransform>(&self, transform: &F) -> (r: Result<
        Vec<i64>,
        SignalProcessingError,
    >)
        requires
            self.wf(),
        ensures
            r matches Ok(bins) ==> {
                &&& 1 <= bins@.len() <= MAX_SAMPLES as int
                &&& forall|i: int| 0 <= i < bins@.len() ==> 0 <= #[trigger] bins@[i] <= 2 * MAG_LIMIT as int
            },
    {
        let normalised = self.normalise();
        match transform.magnitude_spectrum(&normalised, SAMPLE_RATE) {
            Ok(raw) => {
                if raw.len() == 0 || raw.len() > MAX_SAMPLES {
                    Err(SignalProcessingError::InvalidSpectrum(SpectrumErrorKind::TooFewSamples))
                } else {
                    Ok(subtract_baseline(&raw))
                }
            },
            Err(kind) => Err(SignalProcessingError::InvalidSpectrum(kind)),
        }
    }

    /// Calculates the mean squared error between the frequency spectra of two
    /// signals; the candidate's own spectrum length is the denominator.
    pub fn freq_spectrum_mse<F: SpectrumTransform>(&self, other: &Self, transform: &F) -> (r:
        Result<i64, SignalProcessingError>)
        requires
            self.wf(),
            other.wf(),
        ensures
            r matches Ok(mse) ==> 0 <= mse,
    {
        let self_spectrum = self.freq_spectrum(transform)?;
        let other_spectrum = other.freq_spectrum(transform)?;
        Ok(spectra_mse(&self_spectrum, &other_spectrum))
    }
}

} // verus!
