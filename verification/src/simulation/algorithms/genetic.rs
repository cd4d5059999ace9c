use vstd::prelude::*;
use std::sync::Arc;
use crate::FitnessType;
use crate::error::{GeneticSimulationError, SignalProcessingError};
use crate::signal_processing::Signal;
use crate::signal_processing::signal_analysis::SpectrumTransform;
use crate::analytics::{GenerationRow, Recorder};
use crate::random::random_in;
use crate::utils::{SCALE, mean, std_dev, bounded_cost_fitness};

verus! {

/// A candidate solution: a synthesis genome together with a cached fitness
/// value computed once at construction.
pub trait Individual: Sized {
    type Generator;

    /// The cached fitness value, in fixed point.
    spec fn fit(&self) -> i64;

    /// Whether a fitness value has been computed and cached.
    spec fn is_scored(&self) -> bool;

    /// Parameter-range well-formedness of the genome and its cache.
    spec fn wf(&self) -> bool;

    /// Whether the genome may be rendered and scored normally; a genome that
    /// is constructible but structurally invalid scores zero instead.
    spec fn valid_genome(&self) -> bool;

    /// The metric under which this individual is scored.
    spec fn ftype(&self) -> FitnessType;

    /// A generator for this kind of individual.
    fn new_generator() -> Self::Generator;

    /// The shared handle to the target signal this individual is scored
    /// against.
    fn get_target(&self) -> (r: Arc<Signal>)
        requires
            self.wf(),
        ensures
            (*r).wf(),
    ;

    /// The cached fitness value.
    fn fitness(&self) -> (r: i64)
        requires
            self.wf(),
            self.is_scored(),
        ensures
            r == self.fit(),
            0 <= r <= 2 * SCALE,
    ;

    fn get_fitness_type(&self) -> (r: FitnessType)
        ensures
            r == self.ftype(),
    ;

    /// Whether the genome may be rendered and scored normally.
    fn is_valid(&self) -> (r: bool)
        requires
            self.wf(),
        ensures
            r == self.valid_genome(),
    ;

    /// Replaces the cached fitness with the given value.
    fn include_fitness(self, fitness: i64) -> (r: Self)
        requires
            self.wf(),
            0 <= fitness <= 2 * SCALE,
        ensures
            r.wf(),
            r.is_scored(),
            r.fit() == fitness,
            r.valid_genome() == self.valid_genome(),
            r.ftype() == self.ftype(),
    ;

    /// Returns an unscored offspring of two individuals; `r` is the mutation
    /// rate, the likelihood for each gene to mutate.  An offspring is always
    /// produced, though single genes whose kinds do not match fall away.
    fn crossover(&self, other: &Self, r: i64) -> (c: Option<Self>)
        requires
            self.wf(),
            other.wf(),
        ensures
            c is Some,
            c matches Some(x) ==> {
                &&& x.wf()
                &&& x.ftype() == self.ftype()
            },
    ;

    /// Renders the genome to a signal.
    fn to_signal(&self) -> (r: Signal)
        requires
            self.wf(),
        ensures
            r.wf(),
            r@.len() <= 50_000_000,
    ;

    /// Returns an unscored copy whose every parameter moved within a window
    /// proportional to `step_size`.
    fn evolve(&self, step_size: i64) -> (c: Self)
        requires
            self.wf(),
            0 <= step_size,
        ensures
            c.wf(),
            c.ftype() == self.ftype(),
    ;

    /// A copy of this individual: same score, same validity, same metric.
    fn duplicate(&self) -> (r: Self)
        ensures
            r.fit() == self.fit(),
            r.is_scored() == self.is_scored(),
            r.wf() == self.wf(),
            r.valid_genome() == self.valid_genome(),
            r.ftype() == self.ftype(),
    ;

    /// The fundamental-frequency estimate of the genome, if it has one.
    spec fn fundamental_spec(&self) -> Option<i64>;

    /// The fundamental-frequency estimate of the genome, if it has one.
    fn get_fundamental(&self) -> (r: Option<i64>)
        ensures
            r == self.fundamental_spec(),
    ;
}

/// Template for generating an individual with a certain configuration; the
/// implementations for each generator provide a way to specify the
/// components present in a synthesis method.
pub trait IndividualGenerator<T: Individual>: Sized {
    /// Whether the generator is fully configured: a target signal is set.
    spec fn wf_gen(&self) -> bool;

    /// The metric configured for generated individuals.
    spec fn gen_ftype(&self) -> FitnessType;

    /// Creates a new, unconfigured individual generator.
    fn new() -> Self;

    /// Generates an unscored individual with the configured components,
    /// carrying the configured metric.
    fn generate(&self) -> (r: T)
        requires
            self.wf_gen(),
        ensures
            r.wf(),
            r.ftype() == self.gen_ftype(),
    ;

    /// Specifies the target signal.
    fn target(self, target: Arc<Signal>) -> (r: Self)
        requires
            (*target).wf(),
        ensures
            r.wf_gen(),
            r.gen_ftype() == self.gen_ftype(),
    ;

    /// Specifies the fitness evaluation method to be used.
    fn fitness_type(self, fitness_type: FitnessType) -> (r: Self)
        ensures
            r.wf_gen() == self.wf_gen(),
            r.gen_ftype() == fitness_type,
    ;

    /// Retrieves the target signal from the generator.
    fn get_target(&self) -> (r: Arc<Signal>)
        requires
            self.wf_gen(),
        ensures
            (*r).wf(),
    ;
}

/// The frequency-domain metric: the mean squared error between the
/// magnitude spectra of the candidate and the target, mapped to a bounded
/// fitness value.  Fails exactly when the spectral transform does.
pub fn freq_domain_mse_fitness<F: SpectrumTransform>(
    signal: &Signal,
    target: &Signal,
    transform: &F,
) -> (r: Result<i64, SignalProcessingError>)
    requires
        signal.wf(),
        target.wf(),
    ensures
        r matches Ok(f) ==> 0 <= f <= 2 * SCALE,
{
    match signal.freq_spectrum_mse(target, transform) {
        Ok(mse) => Ok(bounded_cost_fitness(mse, 1000)),
        Err(e) => Err(e),
    }
}

/// The time-domain metric: the Euclidean distance between the raw sample
/// sequences of the candidate and the target, mapped to a bounded fitness
/// value.  Always succeeds; a candidate identical to the target scores
/// exactly one.
pub fn time_domain_euclidean_fitness(signal: &Signal, target: &Signal) -> (r: i64)
    requires
        signal.wf(),
        target.wf(),
    ensures
        0 <= r <= 2 * SCALE,
        signal@ == target@ ==> r == SCALE,
{
    let d = signal.euclidean_distance(target);
    proof {
        if signal@ == target@ {
            crate::signal_processing::signal_analysis::lemma_dist_sq_self(
                signal@,
                signal@.len() as int,
            );
            assert(d == 0) by (nonlinear_arith)
                requires
                    0 <= d as int,
                    (d as int) * (d as int) <= 0,
            ;
        }
    }
    bounded_cost_fitness(d, 500)
}

/// Scores an individual against the target signal under its own metric and
/// caches the result: a structurally invalid genome scores exactly zero; a
/// valid genome is rendered and compared with the target.  The result is
/// always within `[0, 2]` in fixed point.  Only a failing spectral transform
/// is reported as an error; the time-domain metric always succeeds.
pub fn score_individual<T: Individual, F: SpectrumTransform>(
    individual: T,
    target: &Signal,
    transform: &F,
) -> (r: Result<T, SignalProcessingError>)
    requires
        individual.wf(),
        target.wf(),
    ensures
        r matches Ok(s) ==> {
            &&& s.wf()
            &&& s.is_scored()
            &&& 0 <= s.fit() <= 2 * SCALE
            &&& !individual.valid_genome() ==> s.fit() == 0
            &&& s.ftype() == individual.ftype()
        },
        !individual.valid_genome() ==> r is Ok,
        individual.ftype() == FitnessType::TimeDomainEuclidean ==> r is Ok,
{
    if !individual.is_valid() {
        return Ok(individual.include_fitness(0));
    }
    let signal = individual.to_signal();
    match individual.get_fitness_type() {
        FitnessType::FreqDomainMSE => {
            match freq_domain_mse_fitness(&signal, target, transform) {
                Ok(f) => Ok(individual.include_fitness(f)),
                Err(e) => Err(e),
            }
        },
        FitnessType::TimeDomainEuclidean => {
            let f = time_domain_euclidean_fitness(&signal, target);
            Ok(individual.include_fitness(f))
        },
    }
}

/// Whether a population is sorted by descending fitness.
pub open spec fn sorted_desc<T: Individual>(s: Seq<T>) -> bool {
    forall|i: int, j: int|
        0 <= i < j < s.len() ==> #[trigger] s[i].fit() >= #[trigger] s[j].fit()
}

/// Whether every member of a population is well formed and carries a cached
/// fitness.
pub open spec fn all_ready<T: Individual>(s: Seq<T>) -> bool {
    forall|i: int| 0 <= i < s.len() ==> (#[trigger] s[i]).wf() && s[i].is_scored()
}

/// Whether every member of `s` occurs in `orig`.
pub open spec fn members_of<T>(s: Seq<T>, orig: Seq<T>) -> bool {
    forall|i: int| 0 <= i < s.len() ==> orig.contains(#[trigger] s[i])
}

/// Whether every member of a population is scored under the same metric.
pub open spec fn uniform_ftype<T: Individual>(s: Seq<T>, t: FitnessType) -> bool {
    forall|i: int| 0 <= i < s.len() ==> (#[trigger] s[i]).ftype() == t
}

/// Membership in a ready population transfers readiness.
proof fn lemma_members_ready<T: Individual>(s: Seq<T>, orig: Seq<T>)
    requires
        members_of(s, orig),
        all_ready(orig),
    ensures
        all_ready(s),
{
    assert forall|i: int| 0 <= i < s.len() implies (#[trigger] s[i]).wf() && s[i].is_scored() by {
        assert(orig.contains(s[i]));
        let j = choose|j: int| 0 <= j < orig.len() && orig[j] == s[i];
        assert(orig[j].wf() && orig[j].is_scored());
    }
}

/// Membership in a population of one metric transfers the metric.
proof fn lemma_members_uniform<T: Individual>(s: Seq<T>, orig: Seq<T>, t: FitnessType)
    requires
        members_of(s, orig),
        uniform_ftype(orig, t),
    ensures
        uniform_ftype(s, t),
{
    assert forall|i: int| 0 <= i < s.len() implies (#[trigger] s[i]).ftype() == t by {
        assert(orig.contains(s[i]));
        let j = choose|j: int| 0 <= j < orig.len() && orig[j] == s[i];
        assert(orig[j].ftype() == t);
    }
}

/// Inserting an element keeps every element a sequence already contained.
proof fn lemma_insert_contains<T>(s: Seq<T>, at: int, x: T, y: T)
    requires
        0 <= at <= s.len(),
        s.contains(y),
    ensures
        s.insert(at, x).contains(y),
{
    let j = choose|j: int| 0 <= j < s.len() && s[j] == y;
    if j < at {
        assert(s.insert(at, x)[j] == y);
    } else {
        assert(s.insert(at, x)[j + 1] == y);
    }
}

/// Sorts a population by descending fitness with insertion into a fresh
/// vector; the result holds exactly the members of the input, and every
/// input member survives into the result.
fn sort_by_fitness<T: Individual>(v: &mut Vec<T>)
    requires
        all_ready(old(v)@),
    ensures
        final(v)@.len() == old(v)@.len(),
        all_ready(final(v)@),
        sorted_desc(final(v)@),
        members_of(final(v)@, old(v)@),
        members_of(old(v)@, final(v)@),
{
    let ghost orig = v@;
    proof {
        assert forall|i: int| 0 <= i < v@.len() implies orig.contains(#[trigger] v@[i]) by {
            assert(orig[i] == v@[i]);
        }
        assert(orig.take(orig.len() as int) =~= orig);
    }
    let mut out: Vec<T> = Vec::new();
    while v.len() > 0
        invariant
            out@.len() + v@.len() == orig.len(),
            all_ready(v@),
            all_ready(out@),
            sorted_desc(out@),
            members_of(v@, orig),
            members_of(out@, orig),
            all_ready(orig),
            v@ == orig.take(v@.len() as int),
            forall|i: int| v@.len() <= i < orig.len() ==> out@.contains(#[trigger] orig[i]),
        decreases v@.len(),
    {
        let ghost v_before = v@;
        let x = match v.pop() {
            Some(x) => x,
            None => {
                proof {
                    assert(false);
                }
                return ;
            },
        };
        proof {
            assert(x == v_before.last());
            assert(orig.contains(v_before[v_before.len() - 1]));
            assert forall|i: int| 0 <= i < v@.len() implies orig.contains(#[trigger] v@[i]) by {
                assert(v@[i] == v_before[i]);
            }
            assert(orig.take(v_before.len() as int).drop_last() =~= orig.take(
                v_before.len() - 1,
            ));
            assert(v@ == orig.take(v@.len() as int));
            assert(x == orig[v@.len() as int]);
        }
        let mut idx: usize = 0;
        while idx < out.len() && out[idx].fitness() >= x.fitness()
            invariant
                0 <= idx <= out@.len(),
                all_ready(out@),
                x.wf(),
                x.is_scored(),
                forall|t: int| 0 <= t < idx ==> #[trigger] out@[t].fit() >= x.fit(),
            decreases out@.len() - idx,
        {
            idx = idx + 1;
        }
        let ghost out_before = out@;
        out.insert(idx, x);
        proof {
            assert(out@ == out_before.insert(idx as int, x));
            assert forall|a: int, b: int| 0 <= a < b < out@.len() implies #[trigger] out@[a].fit()
                >= #[trigger] out@[b].fit() by {
                if a < idx && b < idx {
                } else if a < idx && b == idx {
                } else if a < idx && b > idx {
                } else if a == idx && b > idx {
                    assert(out@[b] == out_before[b - 1]);
                    if idx < out_before.len() {
                        assert(out_before[idx as int].fit() < x.fit());
                    }
                } else {
                }
            }
            assert forall|i: int| 0 <= i < out@.len() implies orig.contains(#[trigger] out@[i]) by {
                if i < idx {
                    assert(out@[i] == out_before[i]);
                } else if i == idx {
                    assert(out@[i] == x);
                } else {
                    assert(out@[i] == out_before[i - 1]);
                }
            }
            assert forall|i: int| v@.len() <= i < orig.len() implies out@.contains(
                #[trigger] orig[i],
            ) by {
                if i == v@.len() {
                    assert(out@[idx as int] == x);
                    assert(out@.contains(x));
                } else {
                    lemma_insert_contains(out_before, idx as int, x, orig[i]);
                }
            }
        }
    }
    proof {
        assert forall|i: int| 0 <= i < orig.len() implies out@.contains(#[trigger] orig[i]) by {
        }
    }
    *v = out;
}

/// Permutes a population uniformly at random; the result holds exactly the
/// members of the input, keeps its length, and loses none of them.
fn shuffle<T: Individual>(v: &mut Vec<T>)
    requires
        old(v)@.len() <= 100_000_000,
    ensures
        final(v)@.len() == old(v)@.len(),
        members_of(final(v)@, old(v)@),
        members_of(old(v)@, final(v)@),
{
    let ghost orig = v@;
    proof {
        assert forall|i: int| 0 <= i < v@.len() implies orig.contains(#[trigger] v@[i]) by {
            assert(orig[i] == v@[i]);
        }
    }
    let mut out: Vec<T> = Vec::new();
    while v.len() > 0
        invariant
            out@.len() + v@.len() == orig.len(),
            orig.len() <= 100_000_000,
            members_of(v@, orig),
            members_of(out@, orig),
            forall|i: int|
                0 <= i < orig.len() ==> v@.contains(#[trigger] orig[i]) || out@.contains(orig[i]),
        decreases v@.len(),
    {
        let j: usize = random_in(0, v.len() as i64) as usize;
        let ghost v_before = v@;
        let ghost out_before = out@;
        let x = v.remove(j);
        out.push(x);
        proof {
            assert(x == v_before[j as int]);
            assert forall|i: int| 0 <= i < v@.len() implies orig.contains(#[trigger] v@[i]) by {
                if i < j {
                    assert(v@[i] == v_before[i]);
                } else {
                    assert(v@[i] == v_before[i + 1]);
                }
            }
            assert forall|i: int|
                0 <= i < orig.len() implies v@.contains(#[trigger] orig[i]) || out@.contains(
                orig[i],
            ) by {
                if v_before.contains(orig[i]) {
                    let q = choose|q: int|
                        0 <= q < v_before.len() && v_before[q] == orig[i];
                    if q == j {
                        assert(out@[out@.len() - 1] == x);
                        assert(out@.contains(orig[i]));
                    } else if q < j {
                        assert(v@[q] == orig[i]);
                        assert(v@.contains(orig[i]));
                    } else {
                        assert(v@[q - 1] == orig[i]);
                        assert(v@.contains(orig[i]));
                    }
                } else {
                    assert(out_before.contains(orig[i]));
                    let q = choose|q: int|
                        0 <= q < out_before.len() && out_before[q] == orig[i];
                    assert(out@[q] == orig[i]);
                    assert(out@.contains(orig[i]));
                }
            }
        }
    }
    proof {
        assert forall|i: int| 0 <= i < orig.len() implies out@.contains(#[trigger] orig[i]) by {
        }
    }
    *v = out;
}

/// How the population evolves as new individuals are considered.
#[derive(Copy, Clone, Debug, PartialEq, Eq, Structural)]
pub enum PopulationEvolution {
    Constant,
    Increasing,
}

impl Default for PopulationEvolution {
    fn default() -> (r: Self)
        ensures
            r == PopulationEvolution::Constant,
    {
        PopulationEvolution::Constant
    }
}

/// How many individuals survive a step: with constant evolution half the
/// initial population size, with increasing evolution half the current pool.
pub open spec fn selected_count(pool: int, init: int, mode: PopulationEvolution) -> int {
    match mode {
        PopulationEvolution::Constant => init / 2,
        PopulationEvolution::Increasing => pool / 2,
    }
}

/// The population size after one step: the survivors plus one offspring per
/// disjoint pair over two crossover passes.
pub open spec fn ga_next_len(old_len: int, k: int, init: int, mode: PopulationEvolution) -> int {
    let sel = selected_count(old_len + k, init, mode);
    sel + 2 * (sel / 2)
}

/// With constant population evolution and an initial size divisible by four,
/// every step keeps the population at exactly the initial size, whatever the
/// number of random additions.
pub proof fn lemma_constant_population_size(old_len: int, k: int, init: int)
    requires
        old_len == init,
        init % 4 == 0,
        init >= 0,
        k >= 0,
    ensures
        ga_next_len(old_len, k, init, PopulationEvolution::Constant) == init,
{
}

/// With increasing population evolution, a step from a pool divisible by
/// four grows the population to exactly the previous size plus the random
/// additions.
pub proof fn lemma_increasing_population_size(old_len: int, k: int, init: int)
    requires
        (old_len + k) % 4 == 0,
        old_len >= 0,
        k >= 0,
    ensures
        ga_next_len(old_len, k, init, PopulationEvolution::Increasing) == old_len + k,
{
}

/// Represents a simulation of the genetic algorithm for a generic sound
/// synthesis method.
pub struct GASimulation<T: Individual> where T::Generator: IndividualGenerator<T> {
    /// Current generation number.
    pub generation: u32,
    /// The probability of seeing a mutation in a specific gene, in fixed
    /// point.
    pub mutation_rate: i64,
    /// The number of generations the simulation will run for.
    pub max_generations: u32,
    /// The population of the current generation, sorted by fitness.
    pub population: Vec<T>,
    /// The signal used as target, upon which the fitness function is
    /// defined.
    pub target: Signal,
    /// Number of randomly added individuals on each generation.
    pub n_random_additions: u32,
    /// The size of the population at the beginning of the simulation.
    pub initial_population: u32,
    /// How the population evolves as new individuals are considered.
    pub population_evolution: PopulationEvolution,
    /// Number of individuals produced in the last generation.
    pub offspring: u32,
    /// Fundamental frequency of the fittest individual, in fixed point.
    pub fundamental: Option<i64>,
    /// Generator used to bring new randomised individuals.
    pub generator: T::Generator,
    /// Telemetry rows collected while running with CSV export enabled.
    pub recorder: Recorder<GenerationRow>,
    /// Whether the simulation should be exported to a CSV file and what file
    /// name.
    pub csv_export: Option<String>,
    /// Whether the fittest individual should be exported to a WAV file and
    /// what file name.
    pub signal_export: Option<String>,
}

impl<T: Individual> GASimulation<T> where T::Generator: IndividualGenerator<T> {
    /// The population is sorted by descending fitness, every member is
    /// scored under the generator's configured metric, and the target is
    /// well formed.
    pub open spec fn wf(&self) -> bool {
        &&& sorted_desc(self.population@)
        &&& all_ready(self.population@)
        &&& uniform_ftype(self.population@, self.generator.gen_ftype())
        &&& self.target.wf()
        &&& 0 <= self.mutation_rate
        &&& self.generator.wf_gen()
    }

    /// The per-step preconditions: the pool stays bounded, and enough
    /// individuals survive selection to breed.
    pub open spec fn step_ok(&self) -> bool {
        &&& self.population@.len() >= 1
        &&& self.population@.len() + self.n_random_additions <= 10_000_000
        &&& self.population_evolution == PopulationEvolution::Constant ==> 1 <= (
        self.initial_population as int) / 2 <= self.population@.len() + (self.n_random_additions
            as int)
        &&& self.population_evolution == PopulationEvolution::Increasing ==> self.population@.len()
            + self.n_random_additions >= 2
        &&& self.generation < 0xffff_ffffu32
    }

    /// Generates and scores a sorted initial population of `n` individuals.
    fn init_population<F: SpectrumTransform>(
        n: u32,
        generator: &T::Generator,
        target: &Signal,
        transform: &F,
    ) -> (r: Result<Vec<T>, GeneticSimulationError>)
        requires
            generator.wf_gen(),
            target.wf(),
        ensures
            r matches Ok(v) ==> {
                &&& v@.len() == n
                &&& sorted_desc(v@)
                &&& all_ready(v@)
                &&& uniform_ftype(v@, generator.gen_ftype())
            },
            generator.gen_ftype() == FitnessType::TimeDomainEuclidean ==> r is Ok,
    {
        let mut vec: Vec<T> = Vec::new();
        let mut i: u32 = 0;
        while i < n
            invariant
                0 <= i <= n,
                vec@.len() == i,
                all_ready(vec@),
                uniform_ftype(vec@, generator.gen_ftype()),
                generator.wf_gen(),
                target.wf(),
            decreases n - i,
        {
            let ind = generator.generate();
            match score_individual(ind, target, transform) {
                Ok(s) => vec.push(s),
                Err(_) => {
                    return Err(GeneticSimulationError::RandomIndividualNotGenerated);
                },
            }
            i = i + 1;
        }
        let ghost unsorted = vec@;
        sort_by_fitness(&mut vec);
        proof {
            lemma_members_uniform(vec@, unsorted, generator.gen_ftype());
        }
        Ok(vec)
    }

    /// A step in the iteration of the algorithm: extends the current
    /// population with freshly generated immigrants, selects the fittest
    /// half of the sorted pool, breeds the survivors in two shuffled pairing
    /// passes, and installs the sorted union of survivors and offspring as
    /// the next generation.
    pub fn next<F: SpectrumTransform>(&mut self, transform: &F) -> (r: Result<
        (),
        GeneticSimulationError,
    >)
        requires
            old(self).wf(),
            old(self).step_ok(),
        ensures
            r is Ok ==> {
                &&& final(self).wf()
                &&& final(self).population@.len() == ga_next_len(
                    old(self).population@.len() as int,
                    old(self).n_random_additions as int,
                    old(self).initial_population as int,
                    old(self).population_evolution,
                )
                &&& final(self).generation == old(self).generation + 1
                &&& final(self).population@.len() >= 1
                &&& final(self).initial_population == old(self).initial_population
                &&& final(self).n_random_additions == old(self).n_random_additions
                &&& final(self).population_evolution == old(self).population_evolution
                &&& final(self).max_generations == old(self).max_generations
                &&& final(self).mutation_rate == old(self).mutation_rate
                &&& final(self).target == old(self).target
                &&& final(self).generator == old(self).generator
                &&& final(self).csv_export == old(self).csv_export
                &&& final(self).recorder == old(self).recorder
                &&& final(self).offspring as int == 2 * (selected_count(
                    old(self).population@.len() + old(self).n_random_additions,
                    old(self).initial_population as int,
                    old(self).population_evolution,
                ) / 2)
                &&& final(self).fundamental == final(self).population@[0].fundamental_spec()
                &&& final(self).population@[0].fit() >= old(self).population@[0].fit()
            },
            old(self).generator.gen_ftype() == FitnessType::TimeDomainEuclidean ==> r is Ok,
    {
        let ghost old_len = self.population@.len() as int;
        let ghost old_top = self.population@[0];
        let ghost metric = self.generator.gen_ftype();
        let k: usize = self.n_random_additions as usize;
        let mut current_population: Vec<T> = self.population.split_off(0);
        proof {
            assert(current_population@[0] == old_top);
        }
        let mut added: usize = 0;
        while added < k
            invariant
                0 <= added <= k,
                current_population@.len() == old_len + added,
                all_ready(current_population@),
                uniform_ftype(current_population@, metric),
                current_population@.contains(old_top),
                self.target == old(self).target,
                self.generator == old(self).generator,
                metric == self.generator.gen_ftype(),
                self.target.wf(),
                self.generator.wf_gen(),
            decreases k - added,
        {
            let ghost before_push = current_population@;
            let ind = self.generator.generate();
            match score_individual(ind, &self.target, transform) {
                Ok(s) => current_population.push(s),
                Err(_) => {
                    return Err(GeneticSimulationError::RandomIndividualNotGenerated);
                },
            }
            proof {
                let q = choose|q: int| 0 <= q < before_push.len() && before_push[q] == old_top;
                assert(current_population@[q] == old_top);
            }
            added = added + 1;
        }
        let ghost pool_before_sort = current_population@;
        sort_by_fitness(&mut current_population);
        proof {
            lemma_members_uniform(current_population@, pool_before_sort, metric);
            let q = choose|q: int|
                0 <= q < pool_before_sort.len() && pool_before_sort[q] == old_top;
            assert(current_population@.contains(old_top));
            let q2 = choose|q2: int|
                0 <= q2 < current_population@.len() && current_population@[q2] == old_top;
            assert(current_population@[0].fit() >= old_top.fit());
        }
        let pool_len: usize = current_population.len();
        let n_selected: usize = match self.population_evolution {
            PopulationEvolution::Constant => (self.initial_population / 2) as usize,
            PopulationEvolution::Increasing => pool_len / 2,
        };
        let ghost pool_sorted = current_population@;
        current_population.truncate(n_selected);
        let mut new_population = current_population;
        let ghost elite = new_population@[0];
        proof {
            assert(new_population@.len() == n_selected);
            assert(all_ready(new_population@));
            assert forall|i: int|
                0 <= i < new_population@.len() implies (#[trigger] new_population@[i]).ftype()
                == metric by {
                assert(new_population@[i] == pool_sorted[i]);
            }
            assert(elite == pool_sorted[0]);
            assert(elite.fit() >= old_top.fit());
            assert(new_population@.contains(elite));
        }
        let mut offspring: Vec<T> = Vec::new();
        let mut pass: usize = 0;
        while pass < 2
            invariant
                0 <= pass <= 2,
                n_selected <= 10_000_000,
                new_population@.len() == n_selected,
                all_ready(new_population@),
                uniform_ftype(new_population@, metric),
                new_population@.contains(elite),
                elite.fit() >= old_top.fit(),
                offspring@.len() == pass * (n_selected / 2),
                all_ready(offspring@),
                uniform_ftype(offspring@, metric),
                self.target == old(self).target,
                self.generator == old(self).generator,
                metric == self.generator.gen_ftype(),
                self.mutation_rate == old(self).mutation_rate,
                self.target.wf(),
                0 <= self.mutation_rate,
            decreases 2 - pass,
        {
            let ghost before_pass = new_population@;
            shuffle(&mut new_population);
            proof {
                lemma_members_ready(new_population@, before_pass);
                lemma_members_uniform(new_population@, before_pass, metric);
                let q = choose|q: int| 0 <= q < before_pass.len() && before_pass[q] == elite;
                assert(new_population@.contains(before_pass[q]));
            }
            let n_pairs: usize = new_population.len() / 2;
            let mut p: usize = 0;
            while p < n_pairs
                invariant
                    0 <= p <= n_pairs,
                    n_pairs == new_population@.len() / 2,
                    new_population@.len() == n_selected,
                    all_ready(new_population@),
                    uniform_ftype(new_population@, metric),
                    offspring@.len() == pass * (n_selected / 2) + p,
                    all_ready(offspring@),
                    uniform_ftype(offspring@, metric),
                    self.target == old(self).target,
                    self.generator == old(self).generator,
                    metric == self.generator.gen_ftype(),
                    self.mutation_rate == old(self).mutation_rate,
                    self.target.wf(),
                    0 <= self.mutation_rate,
                decreases n_pairs - p,
            {
                let c_opt = new_population[2 * p].crossover(
                    &new_population[2 * p + 1],
                    self.mutation_rate,
                );
                match c_opt {
                    Some(c) => {
                        match score_individual(c, &self.target, transform) {
                            Ok(s) => offspring.push(s),
                            Err(_) => {
                                return Err(GeneticSimulationError::OffspringNotProduced);
                            },
                        }
                    },
                    None => {
                        proof {
                            assert(false);
                        }
                        return Err(GeneticSimulationError::OffspringNotProduced);
                    },
                }
                p = p + 1;
            }
            proof {
                assert(pass * ((n_selected / 2) as int) + (n_selected / 2) as int == (pass + 1) * (
                (n_selected / 2) as int)) by (nonlinear_arith);
            }
            pass = pass + 1;
        }
        self.offspring = (2 * (n_selected / 2)) as u32;
        let ghost survivors = new_population@;
        new_population.append(&mut offspring);
        proof {
            let q = choose|q: int| 0 <= q < survivors.len() && survivors[q] == elite;
            assert(new_population@[q] == elite);
            assert(new_population@.contains(elite));
        }
        let ghost merged = new_population@;
        sort_by_fitness(&mut new_population);
        proof {
            lemma_members_uniform(new_population@, merged, metric);
            let q = choose|q: int| 0 <= q < merged.len() && merged[q] == elite;
            assert(new_population@.contains(elite));
            let q2 = choose|q2: int|
                0 <= q2 < new_population@.len() && new_population@[q2] == elite;
            assert(new_population@[0].fit() >= elite.fit());
        }
        self.population = new_population;
        let fittest_fundamental = self.population[0].get_fundamental();
        self.fundamental = fittest_fundamental;
        self.generation = self.generation + 1;
        Ok(())
    }

    /// One telemetry row for the current generation: the fittest, mean,
    /// standard deviation of the population's fitness, the fundamental
    /// estimate and the counters.
    pub fn generation_row(&self) -> (r: GenerationRow)
        requires
            self.wf(),
            1 <= self.population@.len() <= 10_000_000,
        ensures
            r.generation == self.generation,
            r.offspring == self.offspring,
            r.max_fitness == self.population@[0].fit(),
            r.average_fitness == crate::utils::sum(fits_of(self.population@)) / (
            self.population@.len() as int),
            r.fundamental == match self.fundamental {
                Some(f) => f,
                None => 0,
            },
            0 <= r.std_dev,
            (r.std_dev as int) * (r.std_dev as int) <= crate::utils::nonneg_variance(
                fits_of(self.population@),
            ) * (SCALE as int),
            crate::utils::nonneg_variance(fits_of(self.population@)) * (SCALE as int) < (
            r.std_dev as int + 1) * (r.std_dev as int + 1),
    {
        let n = self.population.len();
        let mut values: Vec<i64> = Vec::new();
        let mut i: usize = 0;
        while i < n
            invariant
                0 <= i <= n,
                n == self.population@.len(),
                self.wf(),
                values@.len() == i,
                forall|j: int| 0 <= j < i ==> #[trigger] values@[j] == self.population@[j].fit(),
                forall|j: int| 0 <= j < i ==> 0 <= #[trigger] values@[j] <= 2 * SCALE,
            decreases n - i,
        {
            values.push(self.population[i].fitness());
            i = i + 1;
        }
        proof {
            assert(values@ =~= fits_of(self.population@));
        }
        let max_fitness = self.population[0].fitness();
        let average_fitness = mean(&values);
        let spread = std_dev(&values);
        let fundamental: i64 = match self.fundamental {
            Some(f) => f,
            None => 0,
        };
        GenerationRow {
            generation: self.generation,
            offspring: self.offspring,
            fundamental,
            max_fitness,
            average_fitness,
            std_dev: spread,
        }
    }

    /// Runs a genetic algorithm simulation: one step per generation until
    /// the configured number of generations is reached, recording one
    /// telemetry row before the first step and after every step when CSV
    /// export is enabled.  Returns the fittest individual of the final
    /// population.
    pub fn run<F: SpectrumTransform>(&mut self, transform: &F) -> (r: Result<
        T,
        GeneticSimulationError,
    >)
        requires
            old(self).wf(),
            old(self).generation == 0,
            old(self).population@.len() == old(self).initial_population,
            1 <= old(self).initial_population,
            old(self).initial_population as int + old(self).n_random_additions as int * (
            old(self).max_generations as int) + old(self).n_random_additions as int
                <= 10_000_000,
            old(self).population_evolution == PopulationEvolution::Constant ==> 2
                <= old(self).initial_population,
            old(self).population_evolution == PopulationEvolution::Increasing ==> 1
                <= old(self).n_random_additions,
        ensures
            r matches Ok(t) ==> {
                &&& final(self).wf()
                &&& final(self).population@.len() >= 1
                &&& t.fit() == final(self).population@[0].fit()
                &&& t.fit() >= old(self).population@[0].fit()
                &&& final(self).generation == final(self).max_generations
                &&& forall|i: int|
                    0 <= i < final(self).population@.len() ==> t.fit()
                        >= #[trigger] final(self).population@[i].fit()
                &&& old(self).csv_export is Some ==> final(self).recorder@.len() == old(self).max_generations + 1
                &&& old(self).csv_export is None ==> final(self).recorder@.len() == 0
            },
            old(self).generator.gen_ftype() == FitnessType::TimeDomainEuclidean ==> r is Ok,
    {
        self.recorder = Recorder::new();
        if self.csv_export.is_some() {
            let row = self.generation_row();
            self.recorder.add_record(row);
        }
        let ghost init = self.initial_population as int;
        let ghost k = self.n_random_additions as int;
        let ghost max_g = self.max_generations as int;
        let ghost mode = self.population_evolution;
        while self.generation < self.max_generations
            invariant
                self.wf(),
                self.initial_population as int == init,
                self.n_random_additions as int == k,
                self.max_generations as int == max_g,
                self.population_evolution == mode,
                self.generator == old(self).generator,
                self.csv_export == old(self).csv_export,
                self.csv_export is Some ==> self.recorder@.len() == self.generation + 1,
                self.csv_export is None ==> self.recorder@.len() == 0,
                self.generation <= self.max_generations,
                self.population@.len() >= 1,
                self.population@[0].fit() >= old(self).population@[0].fit(),
                1 <= init,
                init + k * max_g + k <= 10_000_000,
                mode == PopulationEvolution::Constant ==> 2 <= init,
                mode == PopulationEvolution::Increasing ==> 1 <= k,
                mode == PopulationEvolution::Constant ==> init / 2 <= self.population@.len()
                    <= init,
                mode == PopulationEvolution::Increasing ==> 1 <= self.population@.len() <= init + k
                    * (self.generation as int),
            decreases self.max_generations - self.generation,
        {
            proof {
                if mode == PopulationEvolution::Increasing {
                    assert(k * (self.generation as int) <= k * max_g) by (nonlinear_arith)
                        requires
                            0 <= k,
                            0 <= self.generation as int <= max_g,
                    ;
                }
            }
            let step = self.next(transform);
            match step {
                Ok(()) => {},
                Err(e) => {
                    return Err(e);
                },
            }
            proof {
                if mode == PopulationEvolution::Increasing {
                    assert(k * (self.generation as int) == k * ((self.generation - 1) as int) + k)
                        by (nonlinear_arith)
                        requires
                            1 <= self.generation as int,
                    ;
                }
            }
            if self.csv_export.is_some() {
                let row = self.generation_row();
                self.recorder.add_record(row);
            }
        }
        let fittest = self.population[0].duplicate();
        Ok(fittest)
    }
}

/// The fitness of each member of a population, in order.
pub open spec fn fits_of<T: Individual>(s: Seq<T>) -> Seq<i64> {
    Seq::new(s.len(), |i: int| s[i].fit())
}

/// Configures and builds a genetic algorithm simulation.
pub struct GASimulationBuilder<T: Individual> where T::Generator: IndividualGenerator<T> {
    pub generator: Option<T::Generator>,
    pub target: Option<Arc<Signal>>,
    pub initial_population: u32,
    pub n_random_additions: u32,
    pub mutation_rate: i64,
    pub max_generations: u32,
    pub population_evolution: PopulationEvolution,
    pub csv_export: Option<String>,
    pub signal_export: Option<String>,
}

impl<T: Individual> Default for GASimulationBuilder<T> where T::Generator: IndividualGenerator<
    T,
> {
    /// No generator or target; one hundred individuals, five random
    /// additions a generation, a mutation probability of five percent, a
    /// thousand generations, and a constant population size.
    fn default() -> (r: Self)
        ensures
            r.generator is None,
            r.target is None,
            r.initial_population == 100,
            r.n_random_additions == 5,
            r.mutation_rate == 50_000,
            r.max_generations == 1000,
            r.population_evolution == PopulationEvolution::Constant,
            r.csv_export is None,
            r.signal_export is None,
    {
        Self {
            generator: None,
            target: None,
            initial_population: 100,
            n_random_additions: 5,
            mutation_rate: 50_000,
            max_generations: 1000,
            population_evolution: PopulationEvolution::Constant,
            csv_export: None,
            signal_export: None,
        }
    }
}

impl<T: Individual> GASimulationBuilder<T> where T::Generator: IndividualGenerator<T> {
    /// Creates a new GA simulation builder with the default configuration.
    pub fn new() -> (r: Self)
        ensures
            r.generator is None,
            r.target is None,
            r.initial_population == 100,
            r.n_random_additions == 5,
            r.mutation_rate == 50_000,
            r.max_generations == 1000,
            r.population_evolution == PopulationEvolution::Constant,
            r.csv_export is None,
            r.signal_export is None,
    {
        Self::default()
    }

    /// Builds the GA simulation: generates and scores the initial
    /// population, sorted by descending fitness.
    pub fn build<F: SpectrumTransform>(self, transform: &F) -> (r: Result<
        GASimulation<T>,
        GeneticSimulationError,
    >)
        requires
            self.generator matches Some(g) && g.wf_gen(),
            self.target matches Some(t) && (*t).wf(),
            0 <= self.mutation_rate,
        ensures
            r matches Ok(sim) ==> {
                &&& sim.wf()
                &&& sim.generation == 0
                &&& sim.fundamental is None
                &&& sim.population@.len() == self.initial_population
                &&& sim.initial_population == self.initial_population
                &&& sim.n_random_additions == self.n_random_additions
                &&& sim.mutation_rate == self.mutation_rate
                &&& sim.max_generations == self.max_generations
                &&& sim.population_evolution == self.population_evolution
                &&& sim.offspring == 0
            },
    {
        let generator = match self.generator {
            Some(g) => g,
            None => {
                proof {
                    assert(false);
                }
                return Err(GeneticSimulationError::RandomIndividualNotGenerated);
            },
        };
        let target_arc = match self.target {
            Some(t) => t,
            None => {
                proof {
                    assert(false);
                }
                return Err(GeneticSimulationError::RandomIndividualNotGenerated);
            },
        };
        let target = Signal::from_samples(target_arc.samples());
        let population = match GASimulation::<T>::init_population(
            self.initial_population,
            &generator,
            &target,
            transform,
        ) {
            Ok(p) => p,
            Err(e) => {
                return Err(e);
            },
        };
        Ok(
            GASimulation {
                population,
                target,
                generator,
                offspring: 0,
                generation: 0,
                fundamental: None,
                mutation_rate: self.mutation_rate,
                max_generations: self.max_generations,
                n_random_additions: self.n_random_additions,
                initial_population: self.initial_population,
                population_evolution: self.population_evolution,
                recorder: Recorder::new(),
                csv_export: self.csv_export,
                signal_export: self.signal_export,
            },
        )
    }

    /// Specifies the target signal.
    pub fn target(self, target: Signal) -> (r: Self)
        requires
            target.wf(),
        ensures
            r.target matches Some(t) && (*t).wf(),
            r.generator == self.generator,
            r.initial_population == self.initial_population,
            r.n_random_additions == self.n_random_additions,
            r.mutation_rate == self.mutation_rate,
            r.max_generations == self.max_generations,
            r.population_evolution == self.population_evolution,
    {
        Self { target: Some(Arc::new(target)), ..self }
    }

    /// Takes an individual generator, adopting its target signal.
    pub fn generator(self, generator: T::Generator) -> (r: Self)
        requires
            generator.wf_gen(),
        ensures
            r.generator matches Some(g) && g.wf_gen(),
            r.target matches Some(t) && (*t).wf(),
            r.initial_population == self.initial_population,
            r.n_random_additions == self.n_random_additions,
            r.mutation_rate == self.mutation_rate,
            r.max_generations == self.max_generations,
            r.population_evolution == self.population_evolution,
    {
        let target = generator.get_target();
        Self { target: Some(target), generator: Some(generator), ..self }
    }

    /// Specifies the initial population size.
    pub fn initial_population(self, initial_population: u32) -> (r: Self)
        ensures
            r == (Self { initial_population, ..self }),
    {
        Self { initial_population, ..self }
    }

    /// Specifies the number of randomly generated individuals incorporated
    /// per generation.
    pub fn n_random_additions(self, n_random_additions: u32) -> (r: Self)
        ensures
            r == (Self { n_random_additions, ..self }),
    {
        Self { n_random_additions, ..self }
    }

    /// Specifies the mutation rate of the simulation, as a fixed-point
    /// probability per gene.
    pub fn mutation_rate(self, mutation_rate: i64) -> (r: Self)
        ensures
            r == (Self { mutation_rate, ..self }),
    {
        Self { mutation_rate, ..self }
    }

    /// Specifies the number of generations the simulation will run for.
    pub fn max_generations(self, max_generations: u32) -> (r: Self)
        ensures
            r == (Self { max_generations, ..self }),
    {
        Self { max_generations, ..self }
    }

    /// Specifies how the population will evolve over time.
    pub fn population_evolution(self, population_evolution: PopulationEvolution) -> (r: Self)
        ensures
            r == (Self { population_evolution, ..self }),
    {
        Self { population_evolution, ..self }
    }

    /// Takes a CSV file name where the collected telemetry will be exported.
    pub fn csv_export(self, file_name: String) -> (r: Self)
        ensures
            r == (Self { csv_export: Some(file_name), ..self }),
    {
        Self { csv_export: Some(file_name), ..self }
    }

    /// Takes a WAV file name where the returned signal will be exported.
    pub fn signal_export(self, file_name: String) -> (r: Self)
        ensures
            r == (Self { signal_export: Some(file_name), ..self }),
    {
        Self { signal_export: Some(file_name), ..self }
    }
}

} // verus!
