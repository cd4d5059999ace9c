use vstd::prelude::*;
use std::sync::Arc;
use crate::FitnessType;
use crate::signal_processing::{Signal, LENGTH, SAMPLE_RATE};
use crate::simulation::components::harmonics::HarmonicsComponent;
use crate::simulation::algorithms::genetic::{Individual, IndividualGenerator};

verus! {

/// Half the sample rate, in fixed point: no rendered partial may reach it.
pub const NYQUIST_FREQ: i64 = 22_050_000_000;

/// An individual of additive synthesis: an optional harmonic series, a
/// shared handle to the target signal, and a lazily filled fitness cache.
#[derive(Clone, Debug)]
pub struct AdditiveIndividual {
    target: Arc<Signal>,
    fitness_type: FitnessType,
    fitness: Option<i64>,
    harmonics: Option<HarmonicsComponent>,
}

/// Specifies the components of an [`AdditiveIndividual`] and the scoring
/// configuration.
#[derive(Clone)]
pub struct AdditiveIndividualGenerator {
    target: Option<Arc<Signal>>,
    fitness_type: FitnessType,
    harmonics: bool,
}

impl AdditiveIndividual {
    /// The harmonic series of the genome, if one is present.
    pub closed spec fn harmonics_spec(&self) -> Option<HarmonicsComponent> {
        self.harmonics
    }

    /// All partial frequencies stay below the Nyquist frequency; a genome
    /// without harmonics is trivially valid.
    pub open spec fn harmonics_are_valid(&self) -> bool {
        match self.harmonics_spec() {
            Some(h) => partials_below_nyquist(h),
            None => true,
        }
    }
}

/// Every partial of the harmonic series, at multiples of the fundamental,
/// stays below the Nyquist frequency.
pub open spec fn partials_below_nyquist(h: HarmonicsComponent) -> bool {
    forall|i: int|
        1 <= i <= h.amplitudes@.len() ==> #[trigger] (h.freq * i) < NYQUIST_FREQ as int
}

impl Individual for AdditiveIndividual {
    type Generator = AdditiveIndividualGenerator;

    closed spec fn fit(&self) -> i64 {
        match self.fitness {
            Some(f) => f,
            None => 0,
        }
    }

    closed spec fn is_scored(&self) -> bool {
        self.fitness is Some
    }

    closed spec fn wf(&self) -> bool {
        &&& (*self.target).wf()
        &&& match self.harmonics {
            Some(h) => h.wf(),
            None => true,
        }
        &&& match self.fitness {
            Some(f) => 0 <= f <= 2 * crate::utils::SCALE,
            None => true,
        }
    }

    open spec fn valid_genome(&self) -> bool {
        self.harmonics_are_valid()
    }

    closed spec fn ftype(&self) -> FitnessType {
        self.fitness_type
    }

    fn new_generator() -> Self::Generator {
        AdditiveIndividualGenerator { target: None, fitness_type: FitnessType::default(), harmonics: false }
    }

    fn get_target(&self) -> (r: Arc<Signal>) {
        self.target.clone()
    }

    fn fitness(&self) -> (r: i64) {
        match self.fitness {
            Some(f) => f,
            None => {
                proof {
                    assert(false);
                }
                0
            },
        }
    }

    fn get_fitness_type(&self) -> (r: FitnessType) {
        self.fitness_type
    }

    fn is_valid(&self) -> (r: bool) {
        match &self.harmonics {
            Some(h) => {
                let n = h.amplitudes.len();
                let mut i: usize = 1;
                while i <= n
                    invariant
                        1 <= i <= n + 1,
                        n == h.amplitudes@.len(),
                        h.wf(),
                        self.harmonics_spec() == Some(*h),
                        forall|j: int| 1 <= j < i ==> #[trigger] (h.freq * j) < NYQUIST_FREQ as int,
                    decreases n + 1 - i,
                {
                    proof {
                        assert(0 <= h.freq * (i as int) <= 100_000_000_000int) by (nonlinear_arith)
                            requires
                                0 <= h.freq <= 10_000_000_000,
                                0 <= i as int <= 10,
                        ;
                    }
                    let partial: i64 = h.freq * (i as i64);
                    if partial >= NYQUIST_FREQ {
                        proof {
                            assert(self.harmonics_spec() == Some(*h));
                            assert(1 <= i as int <= h.amplitudes@.len());
                            if partials_below_nyquist(*h) {
                                assert((*h).freq * (i as int) < NYQUIST_FREQ as int);
                                assert(false);
                            }
                        }
                        return false;
                    }
                    i = i + 1;
                }
                true
            },
            None => true,
        }
    }

    fn include_fitness(self, fitness: i64) -> (r: Self) {
        Self { fitness: Some(fitness), ..self }
    }

    fn crossover(&self, other: &Self, r: i64) -> (c: Option<Self>)
        ensures
            c matches Some(x) ==> (x.harmonics_spec() is Some <==> self.harmonics_spec() is Some
                && other.harmonics_spec() is Some),
    {
        let harmonics = match (&self.harmonics, &other.harmonics) {
            (Some(s), Some(o)) => s.combine(o, r),
            _ => None,
        };
        Some(
            Self {
                target: self.target.clone(),
                fitness: None,
                fitness_type: self.fitness_type,
                harmonics,
            },
        )
    }

    fn to_signal(&self) -> (r: Signal) {
        proof {
            assert((LENGTH as int) * (SAMPLE_RATE as int) == 132_300) by (nonlinear_arith);
        }
        let mut signal = Signal::init(LENGTH, SAMPLE_RATE);
        if let Some(harmonics) = &self.harmonics {
            signal.apply_harmonics(harmonics);
        }
        signal
    }

    fn evolve(&self, step_size: i64) -> (c: Self)
        ensures
            c.harmonics_spec() is Some <==> self.harmonics_spec() is Some,
    {
        let harmonics = match &self.harmonics {
            Some(h) => Some(h.evolve(step_size)),
            None => None,
        };
        Self {
            target: self.target.clone(),
            fitness: None,
            fitness_type: self.fitness_type,
            harmonics,
        }
    }

    fn duplicate(&self) -> (r: Self) {
        let harmonics = match &self.harmonics {
            Some(h) => {
                let mut amps: Vec<i64> = Vec::new();
                let mut i: usize = 0;
                while i < h.amplitudes.len()
                    invariant
                        0 <= i <= h.amplitudes@.len(),
                        amps@ == h.amplitudes@.take(i as int),
                    decreases h.amplitudes@.len() - i,
                {
                    amps.push(h.amplitudes[i]);
                    i = i + 1;
                }
                proof {
                    assert(amps@ =~= h.amplitudes@);
                }
                Some(HarmonicsComponent { freq: h.freq, amplitudes: amps })
            },
            None => None,
        };
        Self {
            target: self.target.clone(),
            fitness: self.fitness,
            fitness_type: self.fitness_type,
            harmonics,
        }
    }

    closed spec fn fundamental_spec(&self) -> Option<i64> {
        match self.harmonics {
            Some(h) => Some(h.freq),
            None => None,
        }
    }

    fn get_fundamental(&self) -> (r: Option<i64>) {
        match &self.harmonics {
            Some(h) => Some(h.freq),
            None => None,
        }
    }
}

impl AdditiveIndividual {
    /// Whether the genome carries a harmonics gene.
    pub fn has_harmonics(&self) -> (r: bool)
        ensures
            r == (self.harmonics_spec() is Some),
    {
        self.harmonics.is_some()
    }
}

impl AdditiveIndividualGenerator {
    /// Whether generated individuals will carry a harmonics gene.
    pub closed spec fn harmonics_enabled(&self) -> bool {
        self.harmonics
    }
}

impl IndividualGenerator<AdditiveIndividual> for AdditiveIndividualGenerator {
    closed spec fn wf_gen(&self) -> bool {
        self.target matches Some(t) && (*t).wf()
    }

    closed spec fn gen_ftype(&self) -> FitnessType {
        self.fitness_type
    }

    fn new() -> Self {
        AdditiveIndividualGenerator { target: None, fitness_type: FitnessType::default(), harmonics: false }
    }

    fn generate(&self) -> (r: AdditiveIndividual)
        ensures
            r.harmonics_spec() is Some <==> self.harmonics_enabled(),
    {
        let harmonics = if self.harmonics {
            Some(HarmonicsComponent::create())
        } else {
            None
        };
        let target = match &self.target {
            Some(t) => t.clone(),
            None => {
                proof {
                    assert(false);
                }
                Arc::new(Signal::default())
            },
        };
        AdditiveIndividual { target, fitness_type: self.fitness_type, fitness: None, harmonics }
    }

    fn target(self, target: Arc<Signal>) -> (r: Self) {
        Self { target: Some(target), ..self }
    }

    fn fitness_type(self, fitness_type: FitnessType) -> (r: Self) {
        Self { fitness_type, ..self }
    }

    fn get_target(&self) -> (r: Arc<Signal>) {
        match &self.target {
            Some(t) => t.clone(),
            None => {
                proof {
                    assert(false);
                }
                Arc::new(Signal::default())
            },
        }
    }
}

impl AdditiveIndividualGenerator {
    /// Whether the individual should include a harmonics component.
    pub fn harmonics(self) -> (r: Self)
        ensures
            r.wf_gen() == self.wf_gen(),
            r.gen_ftype() == self.gen_ftype(),
            r.harmonics_enabled(),
    {
        Self { harmonics: true, ..self }
    }
}

} // verus!
