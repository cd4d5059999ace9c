use vstd::prelude::*;
use crate::signal_processing::{Signal, SAMPLE_RATE, SAMPLE_LIMIT};
use crate::simulation::components::filters::FilterComponent;
use crate::utils::{SCALE, sin_turns, convolve, blackman_window, spectral_invert,
    MAX_FILTER_LEN};

verus! {

/// Pi in fixed point.
pub const PI_FP: i64 = 3_141_593;

/// Magnitude cap of a low-pass filter point after normalization.
pub const LP_COEF_CAP: i64 = 1_000_000_000;

/// Magnitude cap of any built filter point handed to a convolution.
pub const FILTER_COEF_CAP: i64 = 4_000_000_000;

/// The number of points of a windowed-sinc filter: inversely proportional
/// to the transition band, rounded up to an even count of at least two.
pub open spec fn lp_filter_len(band: int) -> int {
    let n0 = (4 * SCALE as int + band - 1) / band;
    let n1 = if n0 % 2 == 1 {
        n0 + 1
    } else {
        n0
    };
    if n1 < 2 {
        2
    } else {
        n1
    }
}

/// Whether a sequence of filter points is fit for convolution with a signal:
/// non-trivial, bounded in length and bounded in magnitude.
pub open spec fn filter_ok(f: Seq<i64>, cap: int) -> bool {
    &&& 2 <= f.len() <= MAX_FILTER_LEN as int
    &&& forall|i: int| 0 <= i < f.len() ==> -cap <= #[trigger] f[i] <= cap
}

impl Signal {
    /// Replaces the signal by its convolution with the finite impulse
    /// response of the given filter genome.
    pub fn apply_filter(&mut self, filter_comp: &FilterComponent)
        requires
            old(self).wf(),
            old(self)@.len() <= 50_000_000,
            filter_comp.wf(),
        ensures
            final(self).wf(),
            final(self)@.len() <= old(self)@.len() + MAX_FILTER_LEN as int / 2,
    {
        let filter: Vec<i64> = match filter_comp {
            FilterComponent::LowPass { cutoff_freq, band } => {
                Self::low_pass_filter(*cutoff_freq, *band)
            },
            FilterComponent::HighPass { cutoff_freq, band } => {
                Self::high_pass_filter(*cutoff_freq, *band)
            },
            FilterComponent::BandPass { low_freq, high_freq, band } => {
                Self::band_pass_filter(*low_freq, *high_freq, *band)
            },
            FilterComponent::BandReject { low_freq, high_freq, band } => {
                Self::band_reject_filter(*low_freq, *high_freq, *band)
            },
        };
        let raw = convolve(&filter, self.samples());
        let mut samples: Vec<i64> = Vec::new();
        let mut i: usize = 0;
        while i < raw.len()
            invariant
                0 <= i <= raw@.len(),
                raw@.len() <= old(self)@.len() + MAX_FILTER_LEN as int / 2,
                old(self)@.len() <= 50_000_000,
                samples@.len() == i,
                forall|j: int|
                    0 <= j < i ==> -SAMPLE_LIMIT <= #[trigger] samples@[j] <= SAMPLE_LIMIT,
            decreases raw@.len() - i,
        {
            samples.push(crate::signal_processing::clamp_sample(raw[i]));
            i = i + 1;
        }
        *self = Signal::from_samples(&samples);
    }

    /// A windowed-sinc low-pass filter: a sinc wave at the scaled cutoff,
    /// shaped by a Blackman window and normalized so that its points sum to
    /// one.
    pub fn low_pass_filter(cutoff_freq: i64, band: i64) -> (r: Vec<i64>)
        requires
            0 <= cutoff_freq <= 20_000_000_000,
            10_000 <= band <= 4_000_000,
        ensures
            filter_ok(r@, LP_COEF_CAP as int),
            r@.len() == lp_filter_len(band as int),
            r@.len() % 2 == 0,
            r@.len() <= 402,
    {
        let cutoff: i64 = Self::cutoff_from_frequency(cutoff_freq);
        proof {
            assert(1 <= (4_000_000 + band as int - 1) / (band as int) <= 400) by (nonlinear_arith)
                requires
                    10_000 <= band as int <= 4_000_000,
            ;
        }
        let mut n: usize = ((4 * SCALE + band - 1) / band) as usize;
        if n % 2 == 1 {
            n = n + 1;
        }
        if n < 2 {
            n = 2;
        }
        let c2: i64 = 2 * cutoff;
        let mut sinc_wave: Vec<i64> = Vec::new();
        let mut i: usize = 0;
        while i < n
            invariant
                0 <= i <= n,
                2 <= n <= 402,
                0 <= c2 <= 1_000_000,
                sinc_wave@.len() == i,
                forall|j: int|
                    0 <= j < i ==> -(2 * SCALE as int) <= #[trigger] sinc_wave@[j] <= 2 * SCALE as int,
            decreases n - i,
        {
            let offset: i64 = 2 * (i as i64) - (n as i64) + 1;
            let aoff: i64 = if offset >= 0 {
                offset
            } else {
                -offset
            };
            proof {
                assert(0 <= (c2 as int) * (aoff as int) <= 500_000_000int) by (nonlinear_arith)
                    requires
                        0 <= c2 as int <= 1_000_000,
                        0 <= aoff as int <= 402,
                ;
            }
            let xm: i64 = c2 * aoff / 2;
            let x: i64 = if offset >= 0 {
                xm
            } else {
                -xm
            };
            let s = sinc(x);
            sinc_wave.push(s);
            i = i + 1;
        }
        let window = blackman_window(n);
        let mut filter: Vec<i64> = Vec::new();
        let mut i: usize = 0;
        while i < n
            invariant
                0 <= i <= n,
                2 <= n <= 402,
                sinc_wave@.len() == n,
                window@.len() == n,
                forall|j: int|
                    0 <= j < n ==> -(2 * SCALE as int) <= #[trigger] sinc_wave@[j] <= 2 * SCALE as int,
                forall|j: int| 0 <= j < n ==> -SCALE <= #[trigger] window@[j] <= SCALE,
                filter@.len() == i,
                forall|j: int|
                    0 <= j < i ==> -(2 * SCALE as int) <= #[trigger] filter@[j] <= 2 * SCALE as int,
            decreases n - i,
        {
            let s = sinc_wave[i];
            let w = window[i];
            proof {
                assert(-(2_000_000_000_000int) <= (s as int) * (w as int) <= 2_000_000_000_000int)
                    by (nonlinear_arith)
                    requires
                        -2_000_000 <= s as int <= 2_000_000,
                        -1_000_000 <= w as int <= 1_000_000,
                ;
                assert(-(2_000_000int) <= (s as int) * (w as int) / 1_000_000 <= 2_000_000int)
                    by (nonlinear_arith)
                    requires
                        -(2_000_000_000_000int) <= (s as int) * (w as int) <= 2_000_000_000_000int,
                ;
                assert(-(2_000_000int) <= -((-((s as int) * (w as int))) / 1_000_000)
                    <= 2_000_000int) by (nonlinear_arith)
                    requires
                        -(2_000_000_000_000int) <= (s as int) * (w as int) <= 2_000_000_000_000int,
                ;
            }
            let prod: i128 = (s as i128) * (w as i128);
            let q: i128 = if prod >= 0 {
                prod / (SCALE as i128)
            } else {
                -((-prod) / (SCALE as i128))
            };
            filter.push(q as i64);
            i = i + 1;
        }
        let mut total: i64 = 0;
        let mut i: usize = 0;
        while i < n
            invariant
                0 <= i <= n,
                2 <= n <= 402,
                filter@.len() == n,
                forall|j: int|
                    0 <= j < n ==> -(2 * SCALE as int) <= #[trigger] filter@[j] <= 2 * SCALE as int,
                -(i as int) * 2_000_000 <= total <= (i as int) * 2_000_000,
            decreases n - i,
        {
            proof {
                assert((i as int) * 2_000_000 + 2_000_000 == (i as int + 1) * 2_000_000)
                    by (nonlinear_arith);
                assert((i as int) * 2_000_000 <= 402 * 2_000_000int) by (nonlinear_arith)
                    requires
                        0 <= i as int <= 402,
                ;
            }
            total = total + filter[i];
            i = i + 1;
        }
        let mut out: Vec<i64> = Vec::new();
        let mut i: usize = 0;
        while i < n
            invariant
                0 <= i <= n,
                2 <= n <= 402,
                filter@.len() == n,
                forall|j: int|
                    0 <= j < n ==> -(2 * SCALE as int) <= #[trigger] filter@[j] <= 2 * SCALE as int,
                out@.len() == i,
                forall|j: int| 0 <= j < i ==> -LP_COEF_CAP <= #[trigger] out@[j] <= LP_COEF_CAP,
            decreases n - i,
        {
            let el = filter[i];
            let c: i64 = if total != 0 {
                let wide: i128 = (el as i128) * (SCALE as i128);
                let q: i128 = if (wide >= 0) == (total > 0) {
                    let aq = if wide >= 0 {
                        wide
                    } else {
                        -wide
                    };
                    let at = if total > 0 {
                        total as i128
                    } else {
                        -(total as i128)
                    };
                    aq / at
                } else {
                    let aq = if wide >= 0 {
                        wide
                    } else {
                        -wide
                    };
                    let at = if total > 0 {
                        total as i128
                    } else {
                        -(total as i128)
                    };
                    -(aq / at)
                };
                if q > LP_COEF_CAP as i128 {
                    LP_COEF_CAP
                } else if q < -(LP_COEF_CAP as i128) {
                    -LP_COEF_CAP
                } else {
                    q as i64
                }
            } else {
                el
            };
            out.push(c);
            i = i + 1;
        }
        out
    }

    /// A high-pass filter: the spectral inversion of the low-pass filter at
    /// the same cutoff.
    pub fn high_pass_filter(cutoff: i64, band: i64) -> (r: Vec<i64>)
        requires
            0 <= cutoff <= 20_000_000_000,
            10_000 <= band <= 4_000_000,
        ensures
            filter_ok(r@, 2_000_000_000int),
            r@.len() == lp_filter_len(band as int),
            r@.len() % 2 == 0,
            r@.len() <= 402,
    {
        let low = Self::low_pass_filter(cutoff, band);
        spectral_invert(&low)
    }

    /// A band-pass filter: the pointwise sum of a high-pass filter at the
    /// lower edge and a low-pass filter at the upper edge.
    pub fn band_pass_filter(low_freq: i64, high_freq: i64, band: i64) -> (r: Vec<i64>)
        requires
            0 <= low_freq <= high_freq <= 20_000_000_000,
            10_000 <= band <= 4_000_000,
        ensures
            filter_ok(r@, FILTER_COEF_CAP as int),
    {
        let low_pass = Self::low_pass_filter(high_freq, band);
        let high_pass = Self::high_pass_filter(low_freq, band);
        crate::utils::add(&high_pass, &low_pass)
    }

    /// A band-reject filter: the convolution of a low-pass filter at the
    /// lower edge with a high-pass filter at the upper edge.
    pub fn band_reject_filter(low_freq: i64, high_freq: i64, band: i64) -> (r: Vec<i64>)
        requires
            0 <= low_freq <= high_freq <= 20_000_000_000,
            10_000 <= band <= 4_000_000,
        ensures
            filter_ok(r@, FILTER_COEF_CAP as int),
    {
        let low_pass = Self::low_pass_filter(low_freq, band);
        let high_pass = Self::high_pass_filter(high_freq, band);
        let raw = convolve(&high_pass, &low_pass);
        let mut out: Vec<i64> = Vec::new();
        let mut i: usize = 0;
        while i < raw.len()
            invariant
                0 <= i <= raw@.len(),
                2 <= raw@.len() <= MAX_FILTER_LEN as int,
                out@.len() == i,
                forall|j: int|
                    0 <= j < i ==> -FILTER_COEF_CAP <= #[trigger] out@[j] <= FILTER_COEF_CAP,
            decreases raw@.len() - i,
        {
            let v = raw[i];
            let c: i64 = if v > FILTER_COEF_CAP {
                FILTER_COEF_CAP
            } else if v < -FILTER_COEF_CAP {
                -FILTER_COEF_CAP
            } else {
                v
            };
            out.push(c);
            i = i + 1;
        }
        out
    }

    /// The cutoff as a fraction of the sample rate, in fixed point.
    pub fn cutoff_from_frequency(freq: i64) -> (r: i64)
        requires
            0 <= freq,
        ensures
            r == freq as int / SAMPLE_RATE as int,
            0 <= r <= freq,
    {
        freq / (SAMPLE_RATE as i64)
    }
}

/// The normalized sinc function in fixed point: `sin(pi * x) / (pi * x)`,
/// one at zero, saturated into twice the unit amplitude.
fn sinc(x: i64) -> (r: i64)
    requires
        -2_000_000_000_000 <= x <= 2_000_000_000_000,
    ensures
        -(2 * SCALE) <= r <= 2 * SCALE,
{
    if x == 0 {
        SCALE
    } else {
        let ax: i64 = if x >= 0 {
            x
        } else {
            -x
        };
        let s = sin_turns(ax / 2);
        proof {
            assert(0 <= (ax as int) * (PI_FP as int) <= 7_000_000_000_000_000_000int)
                by (nonlinear_arith)
                requires
                    0 <= ax as int <= 2_000_000_000_000,
                    PI_FP as int == 3_141_593,
            ;
        }
        let pix: i64 = ((ax as i128) * (PI_FP as i128) / (SCALE as i128)) as i64;
        if pix == 0 {
            SCALE
        } else {
            proof {
                assert(-(2_000_000_000_000int) <= (s as int) * (SCALE as int) <= 2_000_000_000_000int
                    * 1) by (nonlinear_arith)
                    requires
                        -1_000_000 <= s as int <= 1_000_000,
                        SCALE as int == 1_000_000,
                ;
            }
            let wide: i128 = (s as i128) * (SCALE as i128);
            let q: i128 = if wide >= 0 {
                wide / (pix as i128)
            } else {
                -((-wide) / (pix as i128))
            };
            let v: i64 = if q > (2 * SCALE) as i128 {
                2 * SCALE
            } else if q < -((2 * SCALE) as i128) {
                -(2 * SCALE)
            } else {
                q as i64
            };
            v
        }
    }
}

} // verus!
