pub mod signal_analysis;
pub mod components;

use vstd::prelude::*;

verus! {

/// Duration of a rendered signal, in seconds.
pub const LENGTH: u32 = 3;

/// Samples per second of every rendered signal.
pub const SAMPLE_RATE: u32 = 44_100;

/// Amplitude headroom: every sample of a well-formed signal stays within this
/// magnitude (one million in real units), so that sums of products cannot
/// overflow.  Operations saturate here instead of wrapping.
pub const SAMPLE_LIMIT: i64 = 1_000_000_000_000;

/// Largest number of samples a well-formed signal may hold.
pub const MAX_SAMPLES: usize = 100_000_000;

/// An ordered, fixed-length sequence of amplitude samples in fixed point
/// (scaled by [`crate::utils::SCALE`]); a pure value type with elementwise
/// combination and normalization operations.
#[derive(Clone, Debug, PartialEq)]
pub struct Signal(Vec<i64>);

impl View for Signal {
    type V = Seq<i64>;

    closed spec fn view(&self) -> Seq<i64> {
        self.0@
    }
}

/// A fixed-point product `v * f / SCALE`, rounded toward zero.
pub open spec fn scaled_value(v: int, f: int) -> int {
    let p = v * f;
    if p >= 0 {
        p / (crate::utils::SCALE as int)
    } else {
        -((-p) / (crate::utils::SCALE as int))
    }
}

/// A sample magnitude saturated into the legal amplitude range.
pub open spec fn clamped(x: int) -> i64 {
    if x > SAMPLE_LIMIT as int {
        SAMPLE_LIMIT
    } else if x < -(SAMPLE_LIMIT as int) {
        (-(SAMPLE_LIMIT as int)) as i64
    } else {
        x as i64
    }
}

/// Saturates a sample into the legal amplitude range.
pub fn clamp_sample(x: i64) -> (r: i64)
    ensures
        r == clamped(x as int),
        -SAMPLE_LIMIT <= r <= SAMPLE_LIMIT,
{
    if x > SAMPLE_LIMIT {
        SAMPLE_LIMIT
    } else if x < -SAMPLE_LIMIT {
        -SAMPLE_LIMIT
    } else {
        x
    }
}

impl Default for Signal {
    /// The empty signal.
    fn default() -> (r: Self)
        ensures
            r@.len() == 0,
            r.wf(),
    {
        Signal(Vec::new())
    }
}

impl Signal {
    /// Every sample lies within the amplitude headroom and the signal is not
    /// longer than [`MAX_SAMPLES`].
    pub open spec fn wf(&self) -> bool {
        &&& self@.len() <= MAX_SAMPLES as int
        &&& forall|i: int|
            0 <= i < self@.len() ==> -(SAMPLE_LIMIT as int) <= #[trigger] self@[i] <= (SAMPLE_LIMIT
                as int)
    }

    /// A silent signal of `length` seconds at `sample_rate` samples a second.
    pub fn init(length: u32, sample_rate: u32) -> (r: Self)
        requires
            length * sample_rate <= MAX_SAMPLES,
        ensures
            r@.len() == length * sample_rate,
            forall|i: int| 0 <= i < r@.len() ==> #[trigger] r@[i] == 0i64,
            r.wf(),
    {
        let n: usize = (length as usize) * (sample_rate as usize);
        let mut samples: Vec<i64> = Vec::with_capacity(n);
        let mut i: usize = 0;
        while i < n
            invariant
                0 <= i <= n,
                samples@.len() == i,
                forall|j: int| 0 <= j < i ==> #[trigger] samples@[j] == 0i64,
            decreases n - i,
        {
            samples.push(0);
            i = i + 1;
        }
        Signal(samples)
    }

    /// A signal holding a copy of the given samples.
    pub fn from_samples(samples: &Vec<i64>) -> (r: Self)
        requires
            samples@.len() <= MAX_SAMPLES,
            forall|i: int|
                0 <= i < samples@.len() ==> -(SAMPLE_LIMIT as int) <= #[trigger] samples@[i] <= (
                SAMPLE_LIMIT as int),
        ensures
            r@ == samples@,
            r.wf(),
    {
        Signal(samples.clone())
    }

    /// Elementwise saturating addition over the overlapping prefix of the two
    /// signals.
    pub fn add_amp(&self, other: &Self) -> (r: Self)
        requires
            self.wf(),
            other.wf(),
        ensures
            r@.len() == if self@.len() <= other@.len() {
                self@.len()
            } else {
                other@.len()
            },
            forall|i: int|
                0 <= i < r@.len() ==> #[trigger] r@[i] == clamped(self@[i] + other@[i]),
            r.wf(),
    {
        let n: usize = if self.0.len() <= other.0.len() {
            self.0.len()
        } else {
            other.0.len()
        };
        let mut samples: Vec<i64> = Vec::with_capacity(n);
        let mut i: usize = 0;
        while i < n
            invariant
                0 <= i <= n,
                n <= self@.len(),
                n <= other@.len(),
                n <= MAX_SAMPLES,
                samples@.len() == i,
                forall|j: int|
                    0 <= j < i ==> #[trigger] samples@[j] == clamped(self@[j] + other@[j]),
            decreases n - i,
        {
            let a = self.0[i];
            let b = other.0[i];
            let sum: i64 = if a >= 0 && b > i64::MAX - a {
                i64::MAX
            } else if a < 0 && b < i64::MIN - a {
                i64::MIN
            } else {
                a + b
            };
            proof {
                assert(clamped(self@[i as int] + other@[i as int]) == clamped(sum as int));
            }
            samples.push(clamp_sample(sum));
            i = i + 1;
        }
        Signal(samples)
    }

    /// Scales every sample by the fixed-point `factor`, saturating at the
    /// amplitude headroom.
    pub fn scale_amp(&self, factor: i64) -> (r: Self)
        requires
            self.wf(),
            -1_000_000_000 <= factor <= 1_000_000_000,
        ensures
            r@.len() == self@.len(),
            forall|i: int|
                0 <= i < r@.len() ==> #[trigger] r@[i] == clamped(scaled_value(self@[i] as int, factor as int)),
            r.wf(),
    {
        let n: usize = self.0.len();
        let mut samples: Vec<i64> = Vec::new();
        let mut i: usize = 0;
        while i < n
            invariant
                0 <= i <= n,
                n == self@.len(),
                self.wf(),
                -1_000_000_000 <= factor <= 1_000_000_000,
                samples@.len() == i,
                forall|j: int|
                    0 <= j < i ==> #[trigger] samples@[j] == clamped(
                        scaled_value(self@[j] as int, factor as int),
                    ),
            decreases n - i,
        {
            let v = self.0[i];
            proof {
                assert(-(1_000_000_000_000_000_000_000int)
                    <= (v as int) * (factor as int)
                    <= 1_000_000_000_000_000_000_000int) by (nonlinear_arith)
                    requires
                        -(SAMPLE_LIMIT as int) <= v as int <= SAMPLE_LIMIT as int,
                        -1_000_000_000 <= factor as int <= 1_000_000_000,
                        SAMPLE_LIMIT as int == 1_000_000_000_000,
                ;
            }
            let prod: i128 = (v as i128) * (factor as i128);
            let scaled_wide: i128 = if prod >= 0 {
                prod / (crate::utils::SCALE as i128)
            } else {
                -((-prod) / (crate::utils::SCALE as i128))
            };
            let scaled: i64 = if scaled_wide > SAMPLE_LIMIT as i128 {
                SAMPLE_LIMIT
            } else if scaled_wide < -(SAMPLE_LIMIT as i128) {
                -SAMPLE_LIMIT
            } else {
                scaled_wide as i64
            };
            samples.push(scaled);
            i = i + 1;
        }
        Signal(samples)
    }

    /// Number of samples in the signal.
    pub fn n_samples(&self) -> (r: usize)
        ensures
            r == self@.len(),
    {
        self.0.len()
    }

    /// A read-only view of the samples.
    pub fn samples(&self) -> (r: &Vec<i64>)
        ensures
            r@ == self@,
    {
        &self.0
    }
}

} // verus!
