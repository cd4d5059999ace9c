use vstd::prelude::*;
use crate::signal_processing::{Signal, SAMPLE_RATE, SAMPLE_LIMIT};
use crate::simulation::components::envelope::EnvelopeComponent;
use crate::utils::SCALE;

verus! {

/// The envelope gain at `t_ms` milliseconds into the signal: a linear ramp
/// up over the attack, a linear fall to the sustain level over the decay,
/// the sustain level thereafter, and a linear fade over the final release
/// span; always within `[0, SCALE]`.
fn envelope_gain(t_ms: i64, total_ms: i64, envelope: &EnvelopeComponent) -> (r: i64)
    requires
        0 <= t_ms <= total_ms,
        total_ms <= 10_000_000,
        envelope.wf(),
    ensures
        0 <= r <= SCALE,
{
    let attack = envelope.attack as i64;
    let decay = envelope.decay as i64;
    let sustain: i64 = (envelope.sustain as i64) * SCALE / 255;
    let release = envelope.release as i64;
    let shape: i64 = if t_ms < attack {
        proof {
            assert(0 <= (t_ms as int) * (SCALE as int) <= 10_000_000_000_000int)
                by (nonlinear_arith)
                requires
                    0 <= t_ms as int <= 10_000_000,
                    SCALE as int == 1_000_000,
            ;
        }
        t_ms * SCALE / attack
    } else if t_ms < attack + decay {
        proof {
            assert(0 <= ((SCALE - sustain) as int) * ((t_ms - attack) as int)
                <= 3_000_000_000int) by (nonlinear_arith)
                requires
                    0 <= (SCALE - sustain) as int <= 1_000_000,
                    0 <= (t_ms - attack) as int <= 3_000,
            ;
        }
        SCALE - (SCALE - sustain) * (t_ms - attack) / decay
    } else {
        sustain
    };
    let shape_c: i64 = if shape < 0 {
        0
    } else if shape > SCALE {
        SCALE
    } else {
        shape
    };
    let fade: i64 = if release > 0 && t_ms > total_ms - release {
        (total_ms - t_ms) * SCALE / release
    } else {
        SCALE
    };
    let fade_c: i64 = if fade < 0 {
        0
    } else if fade > SCALE {
        SCALE
    } else {
        fade
    };
    proof {
        assert(0 <= (shape_c as int) * (fade_c as int) <= 1_000_000_000_000int)
            by (nonlinear_arith)
            requires
                0 <= shape_c as int <= 1_000_000,
                0 <= fade_c as int <= 1_000_000,
        ;
    }
    let combined: i64 = shape_c * fade_c / SCALE;
    if combined > SCALE {
        SCALE
    } else if combined < 0 {
        0
    } else {
        combined
    }
}

impl Signal {
    /// Shapes the signal's amplitude with the envelope's
    /// attack-decay-sustain-release gain curve.
    pub fn apply_envelope(&mut self, envelope: &EnvelopeComponent)
        requires
            old(self).wf(),
            envelope.wf(),
        ensures
            final(self).wf(),
            final(self)@.len() == old(self)@.len(),
    {
        let n = self.n_samples();
        let total_ms: i64 = (n as i64) * 1000 / (SAMPLE_RATE as i64);
        proof {
            assert(0 <= (n as int) * 1000 <= 100_000_000_000int) by (nonlinear_arith)
                requires
                    0 <= n as int <= 100_000_000,
            ;
            assert(0 <= (n as int) * 1000 / (SAMPLE_RATE as int) <= 10_000_000)
                by (nonlinear_arith)
                requires
                    0 <= (n as int) * 1000 <= 100_000_000_000int,
                    SAMPLE_RATE as int == 44_100,
            ;
        }
        let mut out: Vec<i64> = Vec::new();
        let mut i: usize = 0;
        while i < n
            invariant
                0 <= i <= n,
                n == self@.len(),
                self.wf(),
                envelope.wf(),
                0 <= total_ms <= 10_000_000,
                total_ms == (n as int) * 1000 / (SAMPLE_RATE as int),
                out@.len() == i,
                forall|j: int| 0 <= j < i ==> -SAMPLE_LIMIT <= #[trigger] out@[j] <= SAMPLE_LIMIT,
            decreases n - i,
        {
            proof {
                assert(0 <= (i as int) * 1000 <= 100_000_000_000int) by (nonlinear_arith)
                    requires
                        0 <= i as int <= 100_000_000,
                ;
                assert((i as int) * 1000 / (SAMPLE_RATE as int) <= (n as int) * 1000 / (
                SAMPLE_RATE as int)) by (nonlinear_arith)
                    requires
                        0 <= (i as int) * 1000 <= (n as int) * 1000,
                        SAMPLE_RATE as int == 44_100,
                ;
            }
            let t_ms: i64 = (i as i64) * 1000 / (SAMPLE_RATE as i64);
            let gain = envelope_gain(t_ms, total_ms, envelope);
            let v = self.samples()[i];
            proof {
                assert(-(1_000_000_000_000_000_000int) <= (v as int) * (gain as int)
                    <= 1_000_000_000_000_000_000int) by (nonlinear_arith)
                    requires
                        -(SAMPLE_LIMIT as int) <= v as int <= SAMPLE_LIMIT as int,
                        0 <= gain as int <= 1_000_000,
                        SAMPLE_LIMIT as int == 1_000_000_000_000,
                ;
                assert(-(SAMPLE_LIMIT as int) <= (v as int) * (gain as int) / 1_000_000 <= (
                SAMPLE_LIMIT as int)) by (nonlinear_arith)
                    requires
                        -(1_000_000_000_000_000_000int) <= (v as int) * (gain as int)
                            <= 1_000_000_000_000_000_000int,
                        SAMPLE_LIMIT as int == 1_000_000_000_000,
                ;
                assert(-(SAMPLE_LIMIT as int) <= -((-((v as int) * (gain as int))) / 1_000_000)
                    <= (SAMPLE_LIMIT as int)) by (nonlinear_arith)
                    requires
                        -(1_000_000_000_000_000_000int) <= (v as int) * (gain as int)
                            <= 1_000_000_000_000_000_000int,
                        SAMPLE_LIMIT as int == 1_000_000_000_000,
                ;
            }
            let prod: i64 = v * gain;
            let shaped: i64 = if prod >= 0 {
                prod / SCALE
            } else {
                -((-prod) / SCALE)
            };
            out.push(shaped);
            i = i + 1;
        }
        *self = Signal::from_samples(&out);
    }
}

} // verus!
