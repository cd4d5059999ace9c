use vstd::prelude::*;
use std::sync::Arc;
use crate::FitnessType;
use crate::signal_processing::Signal;
use crate::simulation::algorithms::genetic::{Individual, IndividualGenerator};
use crate::simulation::components::envelope::EnvelopeComponent;
use crate::simulation::components::filters::{FilterComponent, FilterType, same_family, family_of};
use crate::simulation::components::oscillator::OscillatorComponent;

verus! {

/// An individual of subtractive synthesis: an optional oscillator, envelope
/// and filter, a shared handle to the target signal, and a lazily filled
/// fitness cache.
#[derive(Clone, Debug)]
pub struct SubtractiveIndividual {
    target: Arc<Signal>,
    fitness_type: FitnessType,
    fitness: Option<i64>,
    oscillator: Option<OscillatorComponent>,
    envelope: Option<EnvelopeComponent>,
    filter: Option<FilterComponent>,
}

/// Specifies the components of a [`SubtractiveIndividual`] and the scoring
/// configuration.
#[derive(Clone)]
pub struct SubtractiveIndividualGenerator {
    target: Option<Arc<Signal>>,
    fitness_type: FitnessType,
    oscillator: bool,
    envelope: bool,
    filter: Option<FilterType>,
}

impl SubtractiveIndividual {
    /// The oscillator gene, if one is present.
    pub closed spec fn oscillator_spec(&self) -> Option<OscillatorComponent> {
        self.oscillator
    }

    /// The envelope gene, if one is present.
    pub closed spec fn envelope_spec(&self) -> Option<EnvelopeComponent> {
        self.envelope
    }

    /// The filter gene, if one is present.
    pub closed spec fn filter_spec(&self) -> Option<FilterComponent> {
        self.filter
    }
}

impl Individual for SubtractiveIndividual {
    type Generator = SubtractiveIndividualGenerator;

    closed spec fn fit(&self) -> i64 {
        match self.fitness {
            Some(f) => f,
            None => 0,
        }
    }

    closed spec fn is_scored(&self) -> bool {
        self.fitness is Some
    }

    closed spec fn wf(&self) -> bool {
        &&& (*self.target).wf()
        &&& match self.oscillator {
            Some(o) => o.wf(),
            None => true,
        }
        &&& match self.envelope {
            Some(e) => e.wf(),
            None => true,
        }
        &&& match self.filter {
            Some(f) => f.wf(),
            None => true,
        }
        &&& match self.fitness {
            Some(f) => 0 <= f <= 2 * crate::utils::SCALE,
            None => true,
        }
    }

    open spec fn valid_genome(&self) -> bool {
        true
    }

    closed spec fn ftype(&self) -> FitnessType {
        self.fitness_type
    }

    fn new_generator() -> Self::Generator {
        SubtractiveIndividualGenerator {
            target: None,
            fitness_type: FitnessType::default(),
            oscillator: false,
            envelope: false,
            filter: None,
        }
    }

    fn get_target(&self) -> (r: Arc<Signal>) {
        self.target.clone()
    }

    fn fitness(&self) -> (r: i64) {
        match self.fitness {
            Some(f) => f,
            None => {
                proof {
                    assert(false);
                }
                0
            },
        }
    }

    fn get_fitness_type(&self) -> (r: FitnessType) {
        self.fitness_type
    }

    fn is_valid(&self) -> (r: bool) {
        true
    }

    fn include_fitness(self, fitness: i64) -> (r: Self) {
        Self { fitness: Some(fitness), ..self }
    }

    /// Attempts to combine each gene of the two parents independently; a
    /// gene whose kinds do not match (two different filter families) falls
    /// away, but an offspring is always produced.
    fn crossover(&self, other: &Self, r: i64) -> (c: Option<Self>)
        ensures
            c matches Some(x) ==> {
                &&& (x.oscillator_spec() is Some <==> self.oscillator_spec() is Some
                    && other.oscillator_spec() is Some)
                &&& (x.envelope_spec() is Some <==> self.envelope_spec() is Some
                    && other.envelope_spec() is Some)
                &&& (x.filter_spec() is Some <==> (self.filter_spec() matches Some(f1)
                    && other.filter_spec() matches Some(f2) && same_family(f1, f2)))
            },
    {
        let oscillator = match (&self.oscillator, &other.oscillator) {
            (Some(s), Some(o)) => s.combine(o, r),
            _ => None,
        };
        let envelope = match (&self.envelope, &other.envelope) {
            (Some(s), Some(o)) => s.combine(o, r),
            _ => None,
        };
        let filter = match (&self.filter, &other.filter) {
            (Some(s), Some(o)) => s.combine(o, r),
            _ => None,
        };
        Some(
            Self {
                fitness_type: self.fitness_type,
                fitness: None,
                target: self.target.clone(),
                oscillator,
                envelope,
                filter,
            },
        )
    }

    /// Converts the individual to a [`Signal`] by applying the present
    /// components in order: oscillator, envelope, filter.
    fn to_signal(&self) -> (r: Signal) {
        let mut signal = Signal::default();
        if let Some(oscillator) = &self.oscillator {
            signal.apply_oscillator(oscillator);
        }
        if let Some(envelope) = &self.envelope {
            signal.apply_envelope(envelope);
        }
        if let Some(filter) = &self.filter {
            signal.apply_filter(filter);
        }
        signal
    }

    fn evolve(&self, step_size: i64) -> (c: Self)
        ensures
            (c.oscillator_spec() is Some <==> self.oscillator_spec() is Some),
            (c.envelope_spec() is Some <==> self.envelope_spec() is Some),
            (c.filter_spec() is Some <==> self.filter_spec() is Some),
    {
        let oscillator = match &self.oscillator {
            Some(o) => Some(o.evolve(step_size)),
            None => None,
        };
        let envelope = match &self.envelope {
            Some(e) => Some(e.evolve(step_size)),
            None => None,
        };
        let filter = match &self.filter {
            Some(f) => Some(f.evolve(step_size)),
            None => None,
        };
        Self {
            target: self.target.clone(),
            fitness_type: self.fitness_type,
            fitness: None,
            oscillator,
            envelope,
            filter,
        }
    }

    fn duplicate(&self) -> (r: Self) {
        Self {
            target: self.target.clone(),
            fitness_type: self.fitness_type,
            fitness: self.fitness,
            oscillator: self.oscillator,
            envelope: self.envelope,
            filter: self.filter,
        }
    }

    closed spec fn fundamental_spec(&self) -> Option<i64> {
        match self.oscillator {
            Some(o) => Some(o.freq),
            None => None,
        }
    }

    fn get_fundamental(&self) -> (r: Option<i64>) {
        match &self.oscillator {
            Some(o) => Some(o.freq),
            None => None,
        }
    }
}

impl SubtractiveIndividualGenerator {
    /// Whether generated individuals will carry an oscillator gene.
    pub closed spec fn oscillator_enabled(&self) -> bool {
        self.oscillator
    }

    /// Whether generated individuals will carry an envelope gene.
    pub closed spec fn envelope_enabled(&self) -> bool {
        self.envelope
    }

    /// The filter family generated individuals will carry, if any.
    pub closed spec fn filter_config(&self) -> Option<FilterType> {
        self.filter
    }
}

impl IndividualGenerator<SubtractiveIndividual> for SubtractiveIndividualGenerator {
    closed spec fn wf_gen(&self) -> bool {
        self.target matches Some(t) && (*t).wf()
    }

    closed spec fn gen_ftype(&self) -> FitnessType {
        self.fitness_type
    }

    fn new() -> Self {
        SubtractiveIndividualGenerator {
            target: None,
            fitness_type: FitnessType::default(),
            oscillator: false,
            envelope: false,
            filter: None,
        }
    }

    fn generate(&self) -> (r: SubtractiveIndividual)
        ensures
            r.oscillator_spec() is Some <==> self.oscillator_enabled(),
            r.envelope_spec() is Some <==> self.envelope_enabled(),
            match self.filter_config() {
                Some(t) => r.filter_spec() matches Some(f) && family_of(f) == t,
                None => r.filter_spec() is None,
            },
    {
        let oscillator = if self.oscillator {
            Some(OscillatorComponent::create())
        } else {
            None
        };
        let envelope = if self.envelope {
            Some(EnvelopeComponent::create())
        } else {
            None
        };
        let filter = match &self.filter {
            Some(t) => Some(FilterComponent::create(*t)),
            None => None,
        };
        let target = match &self.target {
            Some(t) => t.clone(),
            None => {
                proof {
                    assert(false);
                }
                Arc::new(Signal::default())
            },
        };
        SubtractiveIndividual {
            target,
            fitness_type: self.fitness_type,
            fitness: None,
            oscillator,
            envelope,
            filter,
        }
    }

    fn target(self, target: Arc<Signal>) -> (r: Self) {
        Self { target: Some(target), ..self }
    }

    fn fitness_type(self, fitness_type: FitnessType) -> (r: Self) {
        Self { fitness_type, ..self }
    }

    fn get_target(&self) -> (r: Arc<Signal>) {
        match &self.target {
            Some(t) => t.clone(),
            None => {
                proof {
                    assert(false);
                }
                Arc::new(Signal::default())
            },
        }
    }
}

impl SubtractiveIndividual {
    /// Whether the genome carries an oscillator gene.
    pub fn has_oscillator(&self) -> (r: bool)
        ensures
            r == (self.oscillator_spec() is Some),
    {
        self.oscillator.is_some()
    }

    /// Whether the genome carries an envelope gene.
    pub fn has_envelope(&self) -> (r: bool)
        ensures
            r == (self.envelope_spec() is Some),
    {
        self.envelope.is_some()
    }

    /// Whether the genome carries a filter gene.
    pub fn has_filter(&self) -> (r: bool)
        ensures
            r == (self.filter_spec() is Some),
    {
        self.filter.is_some()
    }
}

impl SubtractiveIndividualGenerator {
    /// Whether the individual will contain an oscillator component.
    pub fn oscillator(self) -> (r: Self)
        ensures
            r.wf_gen() == self.wf_gen(),
            r.gen_ftype() == self.gen_ftype(),
            r.oscillator_enabled(),
            r.envelope_enabled() == self.envelope_enabled(),
            r.filter_config() == self.filter_config(),
    {
        Self { oscillator: true, ..self }
    }

    /// Whether the individual will contain an envelope component.
    pub fn envelope(self) -> (r: Self)
        ensures
            r.wf_gen() == self.wf_gen(),
            r.gen_ftype() == self.gen_ftype(),
            r.envelope_enabled(),
            r.oscillator_enabled() == self.oscillator_enabled(),
            r.filter_config() == self.filter_config(),
    {
        Self { envelope: true, ..self }
    }

    /// Whether the individual will contain a filter component, and of which
    /// family.
    pub fn filter(self, filter_type: FilterType) -> (r: Self)
        ensures
            r.wf_gen() == self.wf_gen(),
            r.gen_ftype() == self.gen_ftype(),
            r.filter_config() == Some(filter_type),
            r.oscillator_enabled() == self.oscillator_enabled(),
            r.envelope_enabled() == self.envelope_enabled(),
    {
        Self { filter: Some(filter_type), ..self }
    }
}

} // verus!
