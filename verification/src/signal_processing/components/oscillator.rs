use vstd::prelude::*;
use crate::signal_processing::{Signal, scaled_value, clamped, LENGTH, SAMPLE_RATE, MAX_SAMPLES};
use crate::simulation::components::oscillator::OscillatorComponent;
use crate::utils::{SCALE, sin_turns, sin_turns_spec};

verus! {

/// Two pi in fixed point; phase offsets are given in fixed-point radians.
pub const TWO_PI: i64 = 6_283_185;

/// Largest frequency a waveform generator accepts, in fixed point; generous
/// enough for the highest harmonic partial.
pub const WAVE_MAX_FREQ: i64 = 100_000_000_000;

/// The phase position of sample `i`, in fixed-point turns: the elapsed
/// cycles plus the phase offset converted from radians to turns.
pub open spec fn wave_pos(freq: int, sample_rate: int, phase: int, i: int) -> int {
    freq * i / sample_rate + phase * (SCALE as int) / (TWO_PI as int)
}

/// Sample `i` of a sine wave: the amplitude scaled by the sine of the phase
/// position.
pub open spec fn sine_sample(freq: int, sample_rate: int, amplitude: int, phase: int, i: int) -> int {
    scaled_value(amplitude, sin_turns_spec(wave_pos(freq, sample_rate, phase, i)))
}

/// Sample `i` of a square wave: the amplitude on the first half of each
/// cycle, its negation on the second.
pub open spec fn square_sample(freq: int, sample_rate: int, amplitude: int, phase: int, i: int) -> int {
    if wave_pos(freq, sample_rate, phase, i) % (SCALE as int) < (SCALE as int) / 2 {
        amplitude
    } else {
        -amplitude
    }
}

/// Sample `i` of a saw wave: the amplitude scaled by a ramp from minus one
/// to one over each cycle.
pub open spec fn saw_sample(freq: int, sample_rate: int, amplitude: int, phase: int, i: int) -> int {
    scaled_value(amplitude, 2 * (wave_pos(freq, sample_rate, phase, i) % (SCALE as int)) - SCALE as int)
}

/// The requirements shared by the three waveform generators.
pub open spec fn wave_args_ok(freq: int, length: int, sample_rate: int, amplitude: int, phase: int) -> bool {
    &&& 0 <= freq <= WAVE_MAX_FREQ
    &&& 1 <= sample_rate
    &&& 0 <= length <= 30
    &&& length * sample_rate <= 10_000_000
    &&& 0 <= amplitude <= SCALE as int
    &&& 0 <= phase <= TWO_PI as int
}

/// The phase position of every sample stays well below the sine domain
/// bound.
proof fn lemma_wave_pos_bounds(freq: int, length: int, sample_rate: int, phase: int, i: int)
    requires
        wave_args_ok(freq, length, sample_rate, 0, phase),
        0 <= i < length * sample_rate,
    ensures
        0 <= wave_pos(freq, sample_rate, phase, i) <= 3_000_001_000_000,
        0 <= freq * i <= 1_000_000_000_000_000_000int,
        0 <= freq * i / sample_rate <= 3_000_000_000_000,
        0 <= phase * (SCALE as int) <= 7_000_000_000_000int,
        0 <= phase * (SCALE as int) / (TWO_PI as int) <= 1_000_000,
{
    assert(freq * i <= freq * (length * sample_rate)) by (nonlinear_arith)
        requires
            0 <= freq,
            0 <= i <= length * sample_rate,
    ;
    assert(freq * (length * sample_rate) == (freq * length) * sample_rate) by (nonlinear_arith);
    assert(freq * i / sample_rate <= freq * length) by (nonlinear_arith)
        requires
            freq * i <= (freq * length) * sample_rate,
            1 <= sample_rate,
            0 <= freq * i,
            0 <= freq * length,
    ;
    assert(freq * length <= 3_000_000_000_000int) by (nonlinear_arith)
        requires
            0 <= freq <= 100_000_000_000,
            0 <= length <= 30,
    ;
    assert(freq * i >= 0) by (nonlinear_arith)
        requires
            0 <= freq,
            0 <= i,
    ;
    assert(freq * i <= 1_000_000_000_000_000_000int) by (nonlinear_arith)
        requires
            0 <= freq <= 100_000_000_000,
            0 <= i <= 10_000_000,
    ;
    assert(freq * i / sample_rate >= 0) by (nonlinear_arith)
        requires
            0 <= freq * i,
            1 <= sample_rate,
    ;
    assert(0 <= phase * (SCALE as int) <= 7_000_000_000_000int) by (nonlinear_arith)
        requires
            0 <= phase <= 6_283_185,
            SCALE as int == 1_000_000,
    ;
    assert(0 <= phase * (SCALE as int) / (TWO_PI as int) <= 1_000_000) by (nonlinear_arith)
        requires
            0 <= phase <= 6_283_185,
            SCALE as int == 1_000_000,
            TWO_PI as int == 6_283_185,
    ;
}

/// Bounds for the conversion of a phase offset from radians to turns.
proof fn lemma_phase_turns(phase: int)
    requires
        0 <= phase <= TWO_PI as int,
    ensures
        0 <= phase * (SCALE as int) <= 7_000_000_000_000int,
        0 <= phase * (SCALE as int) / (TWO_PI as int) <= 1_000_000,
{
    assert(0 <= phase * (SCALE as int) <= 7_000_000_000_000int) by (nonlinear_arith)
        requires
            0 <= phase <= 6_283_185,
            SCALE as int == 1_000_000,
    ;
    assert(0 <= phase * (SCALE as int) / (TWO_PI as int) <= 1_000_000) by (nonlinear_arith)
        requires
            0 <= phase <= 6_283_185,
            SCALE as int == 1_000_000,
            TWO_PI as int == 6_283_185,
    ;
}

/// Scales a waveform value in `[-SCALE, SCALE]` by an amplitude in
/// `[0, SCALE]`.
fn amp_scale(amplitude: i64, v: i64) -> (r: i64)
    requires
        0 <= amplitude <= SCALE,
        -SCALE <= v <= SCALE,
    ensures
        r == scaled_value(amplitude as int, v as int),
        -SCALE <= r <= SCALE,
{
    proof {
        assert(-(1_000_000_000_000int) <= (amplitude as int) * (v as int) <= 1_000_000_000_000int)
            by (nonlinear_arith)
            requires
                0 <= amplitude as int <= 1_000_000,
                -1_000_000 <= v as int <= 1_000_000,
        ;
        assert(-(1_000_000int) <= (amplitude as int) * (v as int) / 1_000_000 <= 1_000_000int)
            by (nonlinear_arith)
            requires
                -(1_000_000_000_000int) <= (amplitude as int) * (v as int)
                    <= 1_000_000_000_000int,
        ;
        assert(-(1_000_000int) <= -((-((amplitude as int) * (v as int))) / 1_000_000)
            <= 1_000_000int) by (nonlinear_arith)
            requires
                -(1_000_000_000_000int) <= (amplitude as int) * (v as int)
                    <= 1_000_000_000_000int,
        ;
    }
    let prod: i64 = amplitude * v;
    if prod >= 0 {
        prod / SCALE
    } else {
        -((-prod) / SCALE)
    }
}

/// Produces a sine waveform with the specified parameters.
pub fn sine_wave(freq: i64, length: u32, sample_rate: u32, amplitude: i64, phase_offset: i64) -> (r:
    Signal)
    requires
        wave_args_ok(freq as int, length as int, sample_rate as int, amplitude as int, phase_offset as int),
    ensures
        r@.len() == (length as int) * (sample_rate as int),
        r.wf(),
        forall|i: int|
            0 <= i < r@.len() ==> #[trigger] r@[i] == sine_sample(
                freq as int,
                sample_rate as int,
                amplitude as int,
                phase_offset as int,
                i,
            ),
{
    let n: usize = (length as usize) * (sample_rate as usize);
    proof {
        lemma_phase_turns(phase_offset as int);
    }
    let pt: i64 = phase_offset * SCALE / TWO_PI;
    let mut samples: Vec<i64> = Vec::with_capacity(n);
    let mut i: usize = 0;
    while i < n
        invariant
            0 <= i <= n,
            n == (length as int) * (sample_rate as int),
            wave_args_ok(freq as int, length as int, sample_rate as int, amplitude as int, phase_offset as int),
            pt == (phase_offset as int) * (SCALE as int) / (TWO_PI as int),
            samples@.len() == i,
            forall|j: int|
                0 <= j < i ==> #[trigger] samples@[j] == sine_sample(
                    freq as int,
                    sample_rate as int,
                    amplitude as int,
                    phase_offset as int,
                    j,
                ),
            forall|j: int| 0 <= j < i ==> -SCALE <= #[trigger] samples@[j] <= SCALE,
        decreases n - i,
    {
        proof {
            lemma_wave_pos_bounds(
                freq as int,
                length as int,
                sample_rate as int,
                phase_offset as int,
                i as int,
            );
        }
        let pos: i64 = freq * (i as i64) / (sample_rate as i64) + pt;
        let sv = sin_turns(pos);
        samples.push(amp_scale(amplitude, sv));
        i = i + 1;
    }
    Signal::from_samples(&samples)
}

/// Produces a square waveform with the specified parameters.
pub fn square_wave(freq: i64, length: u32, sample_rate: u32, amplitude: i64, phase_offset: i64) -> (r:
    Signal)
    requires
        wave_args_ok(freq as int, length as int, sample_rate as int, amplitude as int, phase_offset as int),
    ensures
        r@.len() == (length as int) * (sample_rate as int),
        r.wf(),
        forall|i: int|
            0 <= i < r@.len() ==> #[trigger] r@[i] == square_sample(
                freq as int,
                sample_rate as int,
                amplitude as int,
                phase_offset as int,
                i,
            ),
{
    let n: usize = (length as usize) * (sample_rate as usize);
    proof {
        lemma_phase_turns(phase_offset as int);
    }
    let pt: i64 = phase_offset * SCALE / TWO_PI;
    let mut samples: Vec<i64> = Vec::with_capacity(n);
    let mut i: usize = 0;
    while i < n
        invariant
            0 <= i <= n,
            n == (length as int) * (sample_rate as int),
            wave_args_ok(freq as int, length as int, sample_rate as int, amplitude as int, phase_offset as int),
            pt == (phase_offset as int) * (SCALE as int) / (TWO_PI as int),
            samples@.len() == i,
            forall|j: int|
                0 <= j < i ==> #[trigger] samples@[j] == square_sample(
                    freq as int,
                    sample_rate as int,
                    amplitude as int,
                    phase_offset as int,
                    j,
                ),
            forall|j: int| 0 <= j < i ==> -SCALE <= #[trigger] samples@[j] <= SCALE,
        decreases n - i,
    {
        proof {
            lemma_wave_pos_bounds(
                freq as int,
                length as int,
                sample_rate as int,
                phase_offset as int,
                i as int,
            );
        }
        let pos: i64 = freq * (i as i64) / (sample_rate as i64) + pt;
        let in_cycle: i64 = pos % SCALE;
        let v: i64 = if in_cycle < SCALE / 2 {
            amplitude
        } else {
            -amplitude
        };
        samples.push(v);
        i = i + 1;
    }
    Signal::from_samples(&samples)
}

/// Produces a saw waveform with the specified parameters.
pub fn saw_wave(freq: i64, length: u32, sample_rate: u32, amplitude: i64, phase_offset: i64) -> (r:
    Signal)
    requires
        wave_args_ok(freq as int, length as int, sample_rate as int, amplitude as int, phase_offset as int),
    ensures
        r@.len() == (length as int) * (sample_rate as int),
        r.wf(),
        forall|i: int|
            0 <= i < r@.len() ==> #[trigger] r@[i] == saw_sample(
                freq as int,
                sample_rate as int,
                amplitude as int,
                phase_offset as int,
                i,
            ),
{
    let n: usize = (length as usize) * (sample_rate as usize);
    proof {
        lemma_phase_turns(phase_offset as int);
    }
    let pt: i64 = phase_offset * SCALE / TWO_PI;
    let mut samples: Vec<i64> = Vec::with_capacity(n);
    let mut i: usize = 0;
    while i < n
        invariant
            0 <= i <= n,
            n == (length as int) * (sample_rate as int),
            wave_args_ok(freq as int, length as int, sample_rate as int, amplitude as int, phase_offset as int),
            pt == (phase_offset as int) * (SCALE as int) / (TWO_PI as int),
            samples@.len() == i,
            forall|j: int|
                0 <= j < i ==> #[trigger] samples@[j] == saw_sample(
                    freq as int,
                    sample_rate as int,
                    amplitude as int,
                    phase_offset as int,
                    j,
                ),
            forall|j: int| 0 <= j < i ==> -SCALE <= #[trigger] samples@[j] <= SCALE,
        decreases n - i,
    {
        proof {
            lemma_wave_pos_bounds(
                freq as int,
                length as int,
                sample_rate as int,
                phase_offset as int,
                i as int,
            );
        }
        let pos: i64 = freq * (i as i64) / (sample_rate as i64) + pt;
        let in_cycle: i64 = pos % SCALE;
        let v: i64 = 2 * in_cycle - SCALE;
        samples.push(amp_scale(amplitude, v));
        i = i + 1;
    }
    Signal::from_samples(&samples)
}

impl Signal {
    /// Replaces the signal with the sum of the oscillator's sine, square and
    /// saw partials over the fixed duration and sample rate.
    pub fn apply_oscillator(&mut self, oscillator: &OscillatorComponent)
        requires
            oscillator.wf(),
        ensures
            final(self)@.len() == (LENGTH as int) * (SAMPLE_RATE as int),
            final(self).wf(),
            forall|i: int|
                0 <= i < final(self)@.len() ==> #[trigger] final(self)@[i] == clamped(
                    clamped(
                        sine_sample(
                            oscillator.freq as int,
                            SAMPLE_RATE as int,
                            oscillator.sine_amp as int,
                            oscillator.sine_phase as int,
                            i,
                        ) + square_sample(
                            oscillator.freq as int,
                            SAMPLE_RATE as int,
                            oscillator.square_amp as int,
                            oscillator.square_phase as int,
                            i,
                        ),
                    ) as int + saw_sample(
                        oscillator.freq as int,
                        SAMPLE_RATE as int,
                        oscillator.saw_amp as int,
                        oscillator.saw_phase as int,
                        i,
                    ),
                ),
    {
        let sine = sine_wave(
            oscillator.freq,
            LENGTH,
            SAMPLE_RATE,
            oscillator.sine_amp,
            oscillator.sine_phase,
        );
        let square = square_wave(
            oscillator.freq,
            LENGTH,
            SAMPLE_RATE,
            oscillator.square_amp,
            oscillator.square_phase,
        );
        let saw = saw_wave(
            oscillator.freq,
            LENGTH,
            SAMPLE_RATE,
            oscillator.saw_amp,
            oscillator.saw_phase,
        );
        *self = sine.add_amp(&square).add_amp(&saw);
    }
}

} // verus!
