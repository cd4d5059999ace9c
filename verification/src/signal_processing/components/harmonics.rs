use vstd::prelude::*;
use crate::signal_processing::{Signal, LENGTH, SAMPLE_RATE};
use crate::signal_processing::components::oscillator::sine_wave;
use crate::simulation::components::harmonics::HarmonicsComponent;

verus! {

/// Expands a fundamental frequency and a list of amplitudes into the series
/// of partials: the `i`-th pair carries frequency `freq * (i + 1)` and the
/// `i`-th amplitude.
pub fn generate_harmonics(freq: i64, amplitudes: &Vec<i64>) -> (r: Vec<(i64, i64)>)
    requires
        0 <= freq <= 10_000_000_000,
        amplitudes@.len() <= 10,
    ensures
        r@.len() == amplitudes@.len(),
        forall|i: int|
            0 <= i < r@.len() ==> #[trigger] r@[i] == (((i + 1) * freq) as i64, amplitudes@[i]),
{
    let mut out: Vec<(i64, i64)> = Vec::new();
    let mut i: usize = 0;
    while i < amplitudes.len()
        invariant
            0 <= i <= amplitudes@.len(),
            amplitudes@.len() <= 10,
            0 <= freq <= 10_000_000_000,
            out@.len() == i,
            forall|j: int|
                0 <= j < i ==> #[trigger] out@[j] == (((j + 1) * freq) as i64, amplitudes@[j]),
        decreases amplitudes@.len() - i,
    {
        proof {
            assert(0 <= (i as int + 1) * (freq as int) <= 100_000_000_000int) by (nonlinear_arith)
                requires
                    1 <= i as int + 1 <= 10,
                    0 <= freq as int <= 10_000_000_000,
            ;
        }
        let f: i64 = (i as i64 + 1) * freq;
        out.push((f, amplitudes[i]));
        i = i + 1;
    }
    out
}

impl Signal {
    /// Adds one sine partial per harmonic to the signal, at multiples of the
    /// fundamental frequency; each addition keeps the overlapping prefix of
    /// the running signal and the rendered partial.
    pub fn apply_harmonics(&mut self, harmonics: &HarmonicsComponent)
        requires
            old(self).wf(),
            harmonics.wf(),
        ensures
            final(self).wf(),
            harmonics.amplitudes@.len() == 0 ==> final(self)@ == old(self)@,
            harmonics.amplitudes@.len() >= 1 ==> final(self)@.len() == if old(self)@.len() <= (
            LENGTH as int) * (SAMPLE_RATE as int) {
                old(self)@.len() as int
            } else {
                (LENGTH as int) * (SAMPLE_RATE as int)
            },
    {
        let pairs = generate_harmonics(harmonics.freq, &harmonics.amplitudes);
        proof {
            assert forall|j: int| 0 <= j < pairs@.len() implies {
                &&& 0 <= (#[trigger] pairs@[j]).0 <= 100_000_000_000
                &&& 0 <= pairs@[j].1 <= crate::utils::SCALE
            } by {
                assert(0 <= (j + 1) * (harmonics.freq as int) <= 100_000_000_000int)
                    by (nonlinear_arith)
                    requires
                        1 <= j + 1 <= 10,
                        0 <= harmonics.freq as int <= 10_000_000_000,
                ;
            }
        }
        let ghost full: int = (LENGTH as int) * (SAMPLE_RATE as int);
        let ghost shorter: int = if old(self)@.len() <= full {
            old(self)@.len() as int
        } else {
            full
        };
        proof {
            assert((LENGTH as int) * (SAMPLE_RATE as int) == 132_300) by (nonlinear_arith);
        }
        let mut k: usize = 0;
        while k < pairs.len()
            invariant
                0 <= k <= pairs@.len(),
                pairs@.len() <= 10,
                full == (LENGTH as int) * (SAMPLE_RATE as int),
                shorter == if old(self)@.len() <= full {
                    old(self)@.len() as int
                } else {
                    full
                },
                forall|j: int|
                    0 <= j < pairs@.len() ==> {
                        &&& 0 <= (#[trigger] pairs@[j]).0 <= 100_000_000_000
                        &&& 0 <= pairs@[j].1 <= crate::utils::SCALE
                    },
                self.wf(),
                k == 0 ==> self@ == old(self)@,
                k >= 1 ==> self@.len() == shorter,
            decreases pairs@.len() - k,
        {
            let (f, a) = pairs[k];
            proof {
                assert((LENGTH as int) * (SAMPLE_RATE as int) == 132_300) by (nonlinear_arith);
            }
            let wave = sine_wave(f, LENGTH, SAMPLE_RATE, a, 0);
            *self = self.add_amp(&wave);
            k = k + 1;
        }
    }
}

} // verus!
