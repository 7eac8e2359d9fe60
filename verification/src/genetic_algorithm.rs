//! The evolution engine: it owns a population of `Gene` candidates and its
//! configuration, advances it one generation at a time through selection,
//! crossover and mutation, and stops once the fitness goal or the
//! generation cap is reached.

use vstd::prelude::*;

use crate::gene::Gene;
use crate::rng::random_i128_below;
use crate::rng::random_index_below;
use crate::selection::Selection;
use crate::selection::SelectionAlgorithms;

verus! {

/// Rates are fixed-point fractions of this scale: `RATE_SCALE` stands for
/// the probability 1.0, `RATE_SCALE / 2` for 0.5.
pub const RATE_SCALE: i64 = 1_000_000;

/// Default population size.
pub const POPULATION_SIZE_DEFAULT: usize = 100;

/// Default generation cap.
pub const MAX_ITERATIONS_DEFAULT: u32 = 1000;

/// Default mutation rate: the probability 0.05.
pub const MUTATION_RATE_DEFAULT: i64 = 50_000;

/// Default selection rate: the fraction 0.90.
pub const SELECTION_RATE_DEFAULT: i64 = 900_000;

/// Why the engine stopped, or `Unknown` while it has not.
#[derive(Clone, Copy, Debug, PartialEq, Eq, Structural)]
pub enum StopCriteria {
    MaxIterations,
    FitnessAchieved,
    Unknown,
}

/// The rejections the engine hands back instead of mutating itself halfway.
#[derive(Clone, Copy, Debug, PartialEq, Eq, Structural)]
pub enum GeneticAlgorithmError {
    /// A mutation rate outside `[0, RATE_SCALE]` was supplied.
    MutationRateOutOfRange,
    /// A selection rate outside `[0, RATE_SCALE]` was supplied.
    SelectionRateOutOfRange,
    /// A generation cap of zero, or one not above the current generation
    /// counter, was supplied.
    InvalidIterations,
    /// A generation was requested before `init` was called.
    NotInitialized,
    /// `init` was called while the engine was already running.
    AlreadyRunning,
    /// A generation was requested, or `init` called again, after the engine
    /// stopped.
    AlreadyStopped,
}

/// The abstract state of an engine, as every contract sees it.
pub ghost struct EngineModel<T> {
    /// Number of candidates each full generation holds.
    pub population_size: int,
    /// Generation cap.
    pub iterations: int,
    /// Generations completed so far.
    pub current_iteration: int,
    /// The current population.
    pub generation: Seq<T>,
    /// One snapshot per completed generation, after the initial snapshot
    /// taken by `init`.
    pub generation_historic: Seq<Seq<T>>,
    /// Mutation probability, as a fraction of `RATE_SCALE`.
    pub mutation_rate: int,
    /// Fraction of the population retained by selection, of `RATE_SCALE`.
    pub selection_rate: int,
    /// The active selection policy.
    pub selection_algorithm: SelectionAlgorithms,
    /// Reaching or exceeding this fitness stops the run.
    pub fitness_goal: int,
    /// True from `init` until a stop criterion fires.
    pub running: bool,
    /// The best candidate observed so far; ties keep the earliest found.
    pub best_gene: T,
    /// The stop reason, once one fired.
    pub stop_criteria: StopCriteria,
}

impl<T: Gene> EngineModel<T> {
    /// Well-formedness: rates lie in `[0, RATE_SCALE]`, the generation cap
    /// is positive and never behind the counter, the population is exactly
    /// `population_size` candidates, and the three lifecycle states
    /// (configured, active, stopped) are kept apart.
    pub open spec fn wf(self) -> bool {
        &&& 0 <= self.mutation_rate <= RATE_SCALE
        &&& 0 <= self.selection_rate <= RATE_SCALE
        &&& self.iterations >= 1
        &&& 0 <= self.current_iteration <= self.iterations
        &&& self.generation.len() == self.population_size
        &&& (self.running ==> self.current_iteration < self.iterations)
        &&& (self.running ==> self.stop_criteria == StopCriteria::Unknown)
        &&& (!self.running && self.stop_criteria == StopCriteria::Unknown
            ==> self.current_iteration == 0)
    }
}

/// The best candidate after scanning `genes` from the front, starting from
/// `current`: a candidate displaces the best seen so far only with strictly
/// greater fitness, so equal fitness keeps the earlier find.
pub open spec fn updated_best<T: Gene>(current: T, genes: Seq<T>) -> T
    decreases genes.len(),
{
    if genes.len() == 0 {
        current
    } else {
        let prev = updated_best(current, genes.drop_last());
        if genes.last().fitness_spec() > prev.fitness_spec() {
            genes.last()
        } else {
            prev
        }
    }
}

/// The fitness of the best candidate never decreases when more candidates
/// are scanned: the engine's best-seen fitness is monotone across a run.
pub proof fn lemma_updated_best_monotone<T: Gene>(current: T, genes: Seq<T>)
    ensures
        updated_best(current, genes).fitness_spec() >= current.fitness_spec(),
    decreases genes.len(),
{
    if genes.len() > 0 {
        lemma_updated_best_monotone(current, genes.drop_last());
    }
}

/// The engine.  It is generic over the candidate type and drives it only
/// through the `Gene` capability set.
#[derive(Debug)]
pub struct GeneticAlgorithm<T: Gene + Copy> {
    population_size: usize,
    iterations: u32,
    current_iteration: u32,
    generation: Vec<T>,
    generation_historic: Vec<Vec<T>>,
    mutation_rate: i64,
    selection_rate: i64,
    selection_algorithm: SelectionAlgorithms,
    fitness_goal: i64,
    running: bool,
    best_gene: T,
    stop_criteria: StopCriteria,
}

impl<T: Gene + Copy> View for GeneticAlgorithm<T> {
    type V = EngineModel<T>;

    closed spec fn view(&self) -> EngineModel<T> {
        EngineModel {
            population_size: self.population_size as int,
            iterations: self.iterations as int,
            current_iteration: self.current_iteration as int,
            generation: self.generation@,
            generation_historic: self.generation_historic@.map_values(|v: Vec<T>| v@),
            mutation_rate: self.mutation_rate as int,
            selection_rate: self.selection_rate as int,
            selection_algorithm: self.selection_algorithm,
            fitness_goal: self.fitness_goal as int,
            running: self.running,
            best_gene: self.best_gene,
            stop_criteria: self.stop_criteria,
        }
    }
}

/// A population of `count` freshly initialized candidates.
fn fresh_generation<T: Gene + Copy>(count: usize) -> (g: Vec<T>)
    ensures
        g@.len() == count,
{
    let mut g: Vec<T> = Vec::new();
    let mut i: usize = 0;
    while i < count
        invariant
            i <= count,
            g@.len() == i,
        decreases count - i,
    {
        g.push(T::init());
        i = i + 1;
    }
    g
}

/// The best candidate after scanning `genes` from the front, starting from
/// `current`: the executable counterpart of `updated_best`.
fn scan_best<T: Gene + Copy>(current: T, genes: &Vec<T>) -> (r: T)
    ensures
        r == updated_best(current, genes@),
{
    let n = genes.len();
    let mut best = current;
    let mut best_fitness = best.get_fitness();
    let mut i: usize = 0;
    while i < n
        invariant
            i <= n,
            n == genes@.len(),
            best_fitness == best.fitness_spec(),
            best == updated_best(current, genes@.subrange(0, i as int)),
        decreases n - i,
    {
        let g = genes[i];
        let f = g.get_fitness();
        proof {
            let s1 = genes@.subrange(0, i + 1);
            assert(s1.drop_last() =~= genes@.subrange(0, i as int));
            assert(s1.last() == genes@[i as int]);
        }
        if f > best_fitness {
            best = g;
            best_fitness = f;
        }
        i = i + 1;
    }
    proof {
        assert(genes@.subrange(0, n as int) =~= genes@);
    }
    best
}

/// The cached fitness of every candidate, in population order.
fn collect_fitnesses<T: Gene + Copy>(genes: &Vec<T>) -> (r: Vec<i64>)
    ensures
        r@.len() == genes@.len(),
        forall|i: int| 0 <= i < genes@.len() ==> r@[i] == genes@[i].fitness_spec(),
{
    let n = genes.len();
    let mut r: Vec<i64> = Vec::new();
    let mut i: usize = 0;
    while i < n
        invariant
            i <= n,
            n == genes@.len(),
            r@.len() == i,
            forall|j: int| 0 <= j < i ==> r@[j] == genes@[j].fitness_spec(),
        decreases n - i,
    {
        let f = genes[i].get_fitness();
        r.push(f);
        i = i + 1;
    }
    r
}

/// Carries `count` candidates of `pool` into the next generation: each one
/// is chosen by the strategy against the fitness values of the *remaining*
/// pool, moved over, and removed from the pool, so the strategy's index
/// space always matches the shrinking pool.  Together the survivors and the
/// remainder hold exactly the candidates of `pool`.
fn select_survivors<T: Gene + Copy>(
    strategy: SelectionAlgorithms,
    pool: Vec<T>,
    count: usize,
) -> (r: (Vec<T>, Vec<T>))
    requires
        count <= pool@.len(),
    ensures
        r.0@.len() == count,
        r.1@.len() == pool@.len() - count,
        r.0@.to_multiset().add(r.1@.to_multiset()) == pool@.to_multiset(),
{
    let mut remaining = pool;
    let mut survivors: Vec<T> = Vec::new();
    proof {
        broadcast use vstd::seq_lib::group_to_multiset_ensures;

        assert(survivors@.to_multiset().add(remaining@.to_multiset())
            =~= pool@.to_multiset());
    }
    let mut taken: usize = 0;
    while taken < count
        invariant
            taken <= count,
            count <= pool@.len(),
            survivors@.len() == taken,
            remaining@.len() == pool@.len() - taken,
            survivors@.to_multiset().add(remaining@.to_multiset()) == pool@.to_multiset(),
        decreases count - taken,
    {
        let fitnesses = collect_fitnesses(&remaining);
        let idx = strategy.select(&fitnesses);
        let ghost old_survivors = survivors@;
        let ghost old_remaining = remaining@;
        let chosen = remaining[idx];
        survivors.push(chosen);
        remaining.remove(idx);
        proof {
            broadcast use vstd::seq_lib::group_to_multiset_ensures;

            assert(old_remaining.contains(chosen)) by {
                assert(old_remaining[idx as int] == chosen);
            }
            assert(survivors@ == old_survivors.push(chosen));
            assert(old_survivors.push(chosen).to_multiset()
                =~= old_survivors.to_multiset().insert(chosen));
            assert(remaining@ == old_remaining.remove(idx as int));
            assert(old_remaining.remove(idx as int).to_multiset()
                =~= old_remaining.to_multiset().remove(chosen));
            assert(survivors@.to_multiset().add(remaining@.to_multiset())
                =~= pool@.to_multiset());
        }
        taken = taken + 1;
    }
    (survivors, remaining)
}

/// An element-for-element copy of a population.
fn copy_generation<T: Copy>(v: &Vec<T>) -> (r: Vec<T>)
    ensures
        r@ == v@,
{
    let n = v.len();
    let mut r: Vec<T> = Vec::new();
    let mut i: usize = 0;
    while i < n
        invariant
            i <= n,
            n == v@.len(),
            r@ == v@.subrange(0, i as int),
        decreases n - i,
    {
        r.push(v[i]);
        proof {
            assert(r@ =~= v@.subrange(0, i + 1));
        }
        i = i + 1;
    }
    proof {
        assert(r@ =~= v@);
    }
    r
}

impl<T: Gene + Copy> GeneticAlgorithm<T> {
    /// Creates an engine with the documented defaults and a freshly
    /// initialized population.
    pub fn new() -> (r: Self)
        ensures
            r@.wf(),
            r@.population_size == POPULATION_SIZE_DEFAULT,
            r@.iterations == MAX_ITERATIONS_DEFAULT,
            r@.current_iteration == 0,
            r@.generation.len() == POPULATION_SIZE_DEFAULT,
            r@.generation_historic == Seq::<Seq<T>>::empty(),
            r@.mutation_rate == MUTATION_RATE_DEFAULT,
            r@.selection_rate == SELECTION_RATE_DEFAULT,
            r@.selection_algorithm == SelectionAlgorithms::Tournament(2),
            r@.fitness_goal == i64::MAX,
            !r@.running,
            r@.stop_criteria == StopCriteria::Unknown,
    {
        let generation = fresh_generation(POPULATION_SIZE_DEFAULT);
        let r = GeneticAlgorithm {
            population_size: POPULATION_SIZE_DEFAULT,
            iterations: MAX_ITERATIONS_DEFAULT,
            current_iteration: 0,
            generation,
            generation_historic: Vec::new(),
            mutation_rate: MUTATION_RATE_DEFAULT,
            selection_rate: SELECTION_RATE_DEFAULT,
            selection_algorithm: SelectionAlgorithms::Tournament(2),
            fitness_goal: i64::MAX,
            running: false,
            best_gene: T::init(),
            stop_criteria: StopCriteria::Unknown,
        };
        proof {
            assert(r@.generation_historic =~= Seq::<Seq<T>>::empty());
        }
        r
    }

    /// Creates an engine from explicit values, rejecting a mutation or
    /// selection rate outside `[0, RATE_SCALE]` and a generation cap of
    /// zero before any state exists.
    pub fn new_with_values(
        population_size: usize,
        iterations: u32,
        mutation_rate: i64,
        selection_rate: i64,
        selection_algorithm: SelectionAlgorithms,
        fitness_goal: i64,
    ) -> (r: Result<Self, GeneticAlgorithmError>)
        ensures
            match r {
                Ok(g) => {
                    &&& 0 <= mutation_rate <= RATE_SCALE
                    &&& 0 <= selection_rate <= RATE_SCALE
                    &&& iterations >= 1
                    &&& g@.wf()
                    &&& g@.population_size == population_size
                    &&& g@.iterations == iterations
                    &&& g@.current_iteration == 0
                    &&& g@.generation.len() == population_size
                    &&& g@.generation_historic == Seq::<Seq<T>>::empty()
                    &&& g@.mutation_rate == mutation_rate
                    &&& g@.selection_rate == selection_rate
                    &&& g@.selection_algorithm == selection_algorithm
                    &&& g@.fitness_goal == fitness_goal
                    &&& !g@.running
                    &&& g@.stop_criteria == StopCriteria::Unknown
                },
                Err(e) => {
                    ||| (!(0 <= mutation_rate <= RATE_SCALE)
                        && e == GeneticAlgorithmError::MutationRateOutOfRange)
                    ||| (0 <= mutation_rate <= RATE_SCALE
                        && !(0 <= selection_rate <= RATE_SCALE)
                        && e == GeneticAlgorithmError::SelectionRateOutOfRange)
                    ||| (0 <= mutation_rate <= RATE_SCALE
                        && 0 <= selection_rate <= RATE_SCALE
                        && iterations == 0
                        && e == GeneticAlgorithmError::InvalidIterations)
                },
            },
    {
        if mutation_rate > RATE_SCALE || mutation_rate < 0 {
            return Err(GeneticAlgorithmError::MutationRateOutOfRange);
        }
        if selection_rate > RATE_SCALE || selection_rate < 0 {
            return Err(GeneticAlgorithmError::SelectionRateOutOfRange);
        }
        if iterations == 0 {
            return Err(GeneticAlgorithmError::InvalidIterations);
        }
        let generation = fresh_generation(population_size);
        let r = GeneticAlgorithm {
            population_size,
            iterations,
            current_iteration: 0,
            generation,
            generation_historic: Vec::new(),
            mutation_rate,
            selection_rate,
            selection_algorithm,
            fitness_goal,
            running: false,
            best_gene: T::init(),
            stop_criteria: StopCriteria::Unknown,
        };
        proof {
            assert(r@.generation_historic =~= Seq::<Seq<T>>::empty());
        }
        Ok(r)
    }

    /// Marks the engine running and takes the initial snapshot.  Only a
    /// configured engine may start: a running one is rejected, and no
    /// transition leaves the stopped state.
    pub fn init(self) -> (r: Result<Self, GeneticAlgorithmError>)
        requires
            self@.wf(),
        ensures
            match r {
                Ok(g) => {
                    &&& !self@.running
                    &&& self@.stop_criteria == StopCriteria::Unknown
                    &&& g@.wf()
                    &&& g@ == (EngineModel {
                        running: true,
                        generation_historic: self@.generation_historic.push(self@.generation),
                        best_gene: updated_best(self@.best_gene, self@.generation),
                        ..self@
                    })
                },
                Err(e) => {
                    ||| (self@.running && e == GeneticAlgorithmError::AlreadyRunning)
                    ||| (!self@.running
                        && self@.stop_criteria != StopCriteria::Unknown
                        && e == GeneticAlgorithmError::AlreadyStopped)
                },
            },
    {
        if self.running {
            return Err(GeneticAlgorithmError::AlreadyRunning);
        }
        if self.stop_criteria != StopCriteria::Unknown {
            return Err(GeneticAlgorithmError::AlreadyStopped);
        }
        let mut g = self;
        g.running = true;
        g.save_generation();
        Ok(g)
    }

    /// Advances the engine by exactly one generation: every candidate
    /// evaluates its fitness, the strategy carries
    /// `floor(population_size * selection_rate / RATE_SCALE)` survivors over
    /// from the shrinking pool, crossover between two distinct random
    /// survivors refills the population, every member is then mutated with
    /// probability `mutation_rate / RATE_SCALE`, a snapshot is recorded, the
    /// best candidate is updated, and the stop rules are applied, the
    /// fitness goal taking priority over the generation cap.
    ///
    /// When the survivor pool holds a single candidate, offspring come from
    /// crossing it with itself; when it is empty, freshly initialized
    /// candidates fill the generation.  On success the new generation is
    /// handed back.  Calling this on an engine that is not running is
    /// rejected without touching any state.
    pub fn next_iteration(&mut self) -> (r: Result<Vec<T>, GeneticAlgorithmError>)
        requires
            old(self)@.wf(),
        ensures
            final(self)@.wf(),
            !old(self)@.running ==> {
                &&& final(self)@ == old(self)@
                &&& (old(self)@.stop_criteria == StopCriteria::Unknown
                    ==> r == Err::<Vec<T>, GeneticAlgorithmError>(
                        GeneticAlgorithmError::NotInitialized,
                    ))
                &&& (old(self)@.stop_criteria != StopCriteria::Unknown
                    ==> r == Err::<Vec<T>, GeneticAlgorithmError>(
                        GeneticAlgorithmError::AlreadyStopped,
                    ))
            },
            old(self)@.running ==> ({
                let o = old(self)@;
                let g = final(self)@;
                &&& g.population_size == o.population_size
                &&& g.iterations == o.iterations
                &&& g.mutation_rate == o.mutation_rate
                &&& g.selection_rate == o.selection_rate
                &&& g.selection_algorithm == o.selection_algorithm
                &&& g.fitness_goal == o.fitness_goal
                &&& g.current_iteration == o.current_iteration + 1
                &&& g.generation.len() == g.population_size
                &&& g.generation_historic == o.generation_historic.push(g.generation)
                &&& g.best_gene == updated_best(o.best_gene, g.generation)
                &&& g.running == !(g.best_gene.fitness_spec() >= g.fitness_goal
                    || g.current_iteration >= g.iterations)
                &&& g.stop_criteria == (if g.best_gene.fitness_spec() >= g.fitness_goal {
                    StopCriteria::FitnessAchieved
                } else if g.current_iteration >= g.iterations {
                    StopCriteria::MaxIterations
                } else {
                    StopCriteria::Unknown
                })
                &&& (match r {
                    Ok(v) => v@ == g.generation,
                    Err(_) => false,
                })
            }),
    {
        if !self.running {
            if self.stop_criteria == StopCriteria::Unknown {
                return Err(GeneticAlgorithmError::NotInitialized);
            } else {
                return Err(GeneticAlgorithmError::AlreadyStopped);
            }
        }

        // Fitness evaluation, candidate by candidate, in order.
        let n = self.generation.len();
        let mut i: usize = 0;
        while i < n
            invariant
                i <= n,
                n == self.generation@.len(),
                self@ == (EngineModel { generation: self@.generation, ..old(self)@ }),
            decreases n - i,
        {
            let mut g = self.generation[i];
            g.calculate_fitness();
            self.generation[i] = g;
            i = i + 1;
        }

        // Selection: carry survivors over from the shrinking pool.
        proof {
            let ps_g = self@.population_size;
            let sr_g = self@.selection_rate;
            assert(ps_g * sr_g <= ps_g * (RATE_SCALE as int)) by (nonlinear_arith)
                requires
                    0 <= ps_g,
                    0 <= sr_g <= RATE_SCALE as int,
            ;
            vstd::arithmetic::div_mod::lemma_multiply_divide_le(
                ps_g * sr_g,
                RATE_SCALE as int,
                ps_g,
            );
        }
        let num_survivors: usize = ((self.population_size as u128)
            * (self.selection_rate as u128) / (RATE_SCALE as u128)) as usize;
        let pool = copy_generation(&self.generation);
        let (mut new_generation, _left_behind) = select_survivors(
            self.selection_algorithm,
            pool,
            num_survivors,
        );

        // Crossover: refill the population from the survivor set.
        let ps = self.population_size;
        let ns = num_survivors;
        let mut count = new_generation.len();
        while count < ps
            invariant
                ns <= count <= ps,
                new_generation@.len() == count,
            decreases ps - count,
        {
            let offspring = if ns >= 2 {
                let g1 = random_index_below(ns);
                let off = random_index_below(ns - 1);
                let t = g1 as u128 + 1 + off as u128;
                let g2 = if t >= ns as u128 {
                    (t - ns as u128) as usize
                } else {
                    t as usize
                };
                let a = new_generation[g1];
                let b = new_generation[g2];
                a.crossover(&b)
            } else if ns == 1 {
                let a = new_generation[0];
                a.crossover(&a)
            } else {
                T::init()
            };
            new_generation.push(offspring);
            count = count + 1;
        }

        // Mutation: an independent biased coin for every member.
        let total = new_generation.len();
        let mut j: usize = 0;
        while j < total
            invariant
                j <= total,
                new_generation@.len() == total,
            decreases total - j,
        {
            let draw = random_i128_below(RATE_SCALE as i128);
            if draw < self.mutation_rate as i128 {
                let mut g = new_generation[j];
                g.mutate();
                new_generation[j] = g;
            }
            j = j + 1;
        }

        // Bookkeeping: install the generation, snapshot it, track the best
        // candidate, count the generation, and apply the stop rules.
        self.generation = new_generation;
        self.save_generation();
        self.current_iteration = self.current_iteration + 1;
        self.check_stop_criteria();

        Ok(copy_generation(&self.generation))
    }

    /// Runs generation after generation until a stop criterion fires, then
    /// returns the best candidate and the stop reason.  Calling this on an
    /// engine that is not running is rejected without touching any state.
    pub fn run(&mut self) -> (r: Result<(T, StopCriteria), GeneticAlgorithmError>)
        requires
            old(self)@.wf(),
        ensures
            final(self)@.wf(),
            !old(self)@.running ==> {
                &&& final(self)@ == old(self)@
                &&& (old(self)@.stop_criteria == StopCriteria::Unknown
                    ==> r == Err::<(T, StopCriteria), GeneticAlgorithmError>(
                        GeneticAlgorithmError::NotInitialized,
                    ))
                &&& (old(self)@.stop_criteria != StopCriteria::Unknown
                    ==> r == Err::<(T, StopCriteria), GeneticAlgorithmError>(
                        GeneticAlgorithmError::AlreadyStopped,
                    ))
            },
            old(self)@.running ==> ({
                let o = old(self)@;
                let g = final(self)@;
                &&& g.population_size == o.population_size
                &&& g.iterations == o.iterations
                &&& g.mutation_rate == o.mutation_rate
                &&& g.selection_rate == o.selection_rate
                &&& g.selection_algorithm == o.selection_algorithm
                &&& g.fitness_goal == o.fitness_goal
                &&& !g.running
                &&& g.best_gene.fitness_spec() >= o.best_gene.fitness_spec()
                &&& o.current_iteration <= g.current_iteration <= g.iterations
                &&& g.generation_historic.len() - o.generation_historic.len()
                    == g.current_iteration - o.current_iteration
                &&& (match r {
                    Ok(p) => {
                        &&& p.0 == g.best_gene
                        &&& p.1 == g.stop_criteria
                        &&& p.1 != StopCriteria::Unknown
                        &&& (p.1 == StopCriteria::FitnessAchieved
                            <==> g.best_gene.fitness_spec() >= g.fitness_goal)
                        &&& (p.1 == StopCriteria::MaxIterations
                            ==> g.current_iteration == g.iterations)
                    },
                    Err(_) => false,
                })
            }),
    {
        if !self.running {
            if self.stop_criteria == StopCriteria::Unknown {
                return Err(GeneticAlgorithmError::NotInitialized);
            } else {
                return Err(GeneticAlgorithmError::AlreadyStopped);
            }
        }

        while self.running
            invariant
                self@.wf(),
                self@.population_size == old(self)@.population_size,
                self@.iterations == old(self)@.iterations,
                self@.mutation_rate == old(self)@.mutation_rate,
                self@.selection_rate == old(self)@.selection_rate,
                self@.selection_algorithm == old(self)@.selection_algorithm,
                self@.fitness_goal == old(self)@.fitness_goal,
                self@.best_gene.fitness_spec() >= old(self)@.best_gene.fitness_spec(),
                old(self)@.current_iteration <= self@.current_iteration,
                self@.generation_historic.len() - old(self)@.generation_historic.len()
                    == self@.current_iteration - old(self)@.current_iteration,
                !self@.running ==> {
                    &&& self@.stop_criteria != StopCriteria::Unknown
                    &&& (self@.stop_criteria == StopCriteria::FitnessAchieved
                        <==> self@.best_gene.fitness_spec() >= self@.fitness_goal)
                    &&& (self@.stop_criteria == StopCriteria::MaxIterations
                        ==> self@.current_iteration >= self@.iterations)
                },
            decreases self@.iterations - self@.current_iteration,
        {
            let ghost before = self@;
            let _step = self.next_iteration();
            proof {
                lemma_updated_best_monotone(before.best_gene, self@.generation);
            }
        }

        Ok((self.best_gene, self.stop_criteria))
    }

    /// Pushes a snapshot of the current generation onto the history and
    /// rescans the population for a strictly better best candidate.
    fn save_generation(&mut self)
        ensures
            final(self)@ == (EngineModel {
                generation_historic: old(self)@.generation_historic.push(old(self)@.generation),
                best_gene: updated_best(old(self)@.best_gene, old(self)@.generation),
                ..old(self)@
            }),
    {
        let snapshot = copy_generation(&self.generation);
        self.generation_historic.push(snapshot);
        proof {
            assert(self.generation_historic@.map_values(|v: Vec<T>| v@)
                =~= old(self)@.generation_historic.push(old(self)@.generation));
        }
        self.best_gene = scan_best(self.best_gene, &self.generation);
    }

    /// Sets the population size: the population grows with freshly
    /// initialized candidates or shrinks by truncation, so its length
    /// always matches the recorded size.
    pub fn population_size(self, population_size: usize) -> (r: Self)
        requires
            self@.wf(),
        ensures
            r@.wf(),
            population_size <= self@.generation.len() ==> r@ == (EngineModel {
                population_size: population_size as int,
                generation: self@.generation.subrange(0, population_size as int),
                ..self@
            }),
            population_size > self@.generation.len() ==> {
                &&& r@.generation.len() == population_size
                &&& r@.generation.subrange(0, self@.generation.len() as int) == self@.generation
                &&& r@ == (EngineModel {
                    population_size: population_size as int,
                    generation: r@.generation,
                    ..self@
                })
            },
    {
        let ghost orig = self@;
        let mut g = self;
        if population_size >= g.generation.len() {
            while g.generation.len() < population_size
                invariant
                    orig.generation.len() <= g.generation@.len() <= population_size,
                    g.generation@.subrange(0, orig.generation.len() as int) == orig.generation,
                    g@ == (EngineModel { generation: g@.generation, ..orig }),
                decreases population_size - g.generation.len(),
            {
                g.generation.push(T::init());
                proof {
                    assert(g.generation@.subrange(0, orig.generation.len() as int)
                        =~= orig.generation);
                }
            }
            proof {
                if population_size <= orig.generation.len() {
                    assert(g.generation@ =~= orig.generation.subrange(0, population_size as int));
                }
            }
        } else {
            g.generation.truncate(population_size);
        }
        g.population_size = population_size;
        g
    }

    /// Sets the generation cap; a cap not above the current generation
    /// counter is rejected.
    pub fn iterations(self, iterations: u32) -> (r: Result<Self, GeneticAlgorithmError>)
        requires
            self@.wf(),
        ensures
            match r {
                Ok(g) => {
                    &&& iterations > self@.current_iteration
                    &&& g@.wf()
                    &&& g@ == (EngineModel { iterations: iterations as int, ..self@ })
                },
                Err(e) => {
                    &&& iterations <= self@.current_iteration
                    &&& e == GeneticAlgorithmError::InvalidIterations
                },
            },
    {
        if iterations <= self.current_iteration {
            return Err(GeneticAlgorithmError::InvalidIterations);
        }
        let mut g = self;
        g.iterations = iterations;
        Ok(g)
    }

    /// Sets the mutation rate; a rate outside `[0, RATE_SCALE]` is
    /// rejected, in every engine state.
    pub fn mutation_rate(self, mutation_rate: i64) -> (r: Result<Self, GeneticAlgorithmError>)
        requires
            self@.wf(),
        ensures
            match r {
                Ok(g) => {
                    &&& 0 <= mutation_rate <= RATE_SCALE
                    &&& g@.wf()
                    &&& g@ == (EngineModel { mutation_rate: mutation_rate as int, ..self@ })
                },
                Err(e) => {
                    &&& !(0 <= mutation_rate <= RATE_SCALE)
                    &&& e == GeneticAlgorithmError::MutationRateOutOfRange
                },
            },
    {
        if mutation_rate > RATE_SCALE || mutation_rate < 0 {
            return Err(GeneticAlgorithmError::MutationRateOutOfRange);
        }
        let mut g = self;
        g.mutation_rate = mutation_rate;
        Ok(g)
    }

    /// Sets the selection rate; a rate outside `[0, RATE_SCALE]` is
    /// rejected, in every engine state.
    pub fn selection_rate(self, selection_rate: i64) -> (r: Result<Self, GeneticAlgorithmError>)
        requires
            self@.wf(),
        ensures
            match r {
                Ok(g) => {
                    &&& 0 <= selection_rate <= RATE_SCALE
                    &&& g@.wf()
                    &&& g@ == (EngineModel { selection_rate: selection_rate as int, ..self@ })
                },
                Err(e) => {
                    &&& !(0 <= selection_rate <= RATE_SCALE)
                    &&& e == GeneticAlgorithmError::SelectionRateOutOfRange
                },
            },
    {
        if selection_rate > RATE_SCALE || selection_rate < 0 {
            return Err(GeneticAlgorithmError::SelectionRateOutOfRange);
        }
        let mut g = self;
        g.selection_rate = selection_rate;
        Ok(g)
    }

    /// Sets the selection strategy; it may be swapped at any time before or
    /// between generations.
    pub fn selection_algorithm(self, selection_algorithm: SelectionAlgorithms) -> (r: Self)
        requires
            self@.wf(),
        ensures
            r@.wf(),
            r@ == (EngineModel { selection_algorithm: selection_algorithm, ..self@ }),
    {
        let mut g = self;
        g.selection_algorithm = selection_algorithm;
        g
    }

    /// Sets the fitness goal that ends the run once reached or exceeded.
    pub fn fitness_goal(self, fitness_goal: i64) -> (r: Self)
        requires
            self@.wf(),
        ensures
            r@.wf(),
            r@ == (EngineModel { fitness_goal: fitness_goal as int, ..self@ }),
    {
        let mut g = self;
        g.fitness_goal = fitness_goal;
        g
    }

    /// Returns the population size.
    pub fn get_population_size(&self) -> (r: usize)
        ensures
            r == self@.population_size,
    {
        self.population_size
    }

    /// Returns the generation cap.
    pub fn get_iterations(&self) -> (r: u32)
        ensures
            r == self@.iterations,
    {
        self.iterations
    }

    /// Returns the number of generations completed so far.
    pub fn get_current_iteration(&self) -> (r: u32)
        ensures
            r == self@.current_iteration,
    {
        self.current_iteration
    }

    /// Returns a copy of the current generation.
    pub fn get_generation(&self) -> (r: Vec<T>)
        ensures
            r@ == self@.generation,
    {
        copy_generation(&self.generation)
    }

    /// Returns a copy of every snapshot the run has taken.
    pub fn get_generation_historic(&self) -> (r: Vec<Vec<T>>)
        ensures
            r@.map_values(|v: Vec<T>| v@) == self@.generation_historic,
    {
        let n = self.generation_historic.len();
        let mut r: Vec<Vec<T>> = Vec::new();
        let mut i: usize = 0;
        while i < n
            invariant
                i <= n,
                n == self.generation_historic@.len(),
                r@.len() == i,
                forall|j: int| 0 <= j < i ==> #[trigger] r@[j]@ == self.generation_historic@[j]@,
            decreases n - i,
        {
            let snapshot = copy_generation(&self.generation_historic[i]);
            r.push(snapshot);
            i = i + 1;
        }
        proof {
            assert(r@.map_values(|v: Vec<T>| v@) =~= self@.generation_historic);
        }
        r
    }

    /// Returns the mutation rate.
    pub fn get_mutation_rate(&self) -> (r: i64)
        ensures
            r == self@.mutation_rate,
    {
        self.mutation_rate
    }

    /// Returns the selection rate.
    pub fn get_selection_rate(&self) -> (r: i64)
        ensures
            r == self@.selection_rate,
    {
        self.selection_rate
    }

    /// Returns the fitness goal.
    pub fn get_fitness_goal(&self) -> (r: i64)
        ensures
            r == self@.fitness_goal,
    {
        self.fitness_goal
    }

    /// Returns the best candidate observed across all generations so far.
    pub fn get_best_gene(&self) -> (r: T)
        ensures
            r == self@.best_gene,
    {
        self.best_gene
    }

    /// Returns whether the engine is currently running.
    pub fn is_running(&self) -> (r: bool)
        ensures
            r == self@.running,
    {
        self.running
    }

    /// Returns the stop reason, or `Unknown` while none has fired.
    pub fn get_stop_criteria(&self) -> (r: StopCriteria)
        ensures
            r == self@.stop_criteria,
    {
        self.stop_criteria
    }

    /// Applies the stop rules: reaching the fitness goal stops the run and
    /// takes priority; otherwise reaching the generation cap stops it.
    fn check_stop_criteria(&mut self)
        ensures
            final(self)@ == (EngineModel {
                running: old(self)@.running && !(
                    old(self)@.best_gene.fitness_spec() >= old(self)@.fitness_goal
                    || old(self)@.current_iteration >= old(self)@.iterations
                ),
                stop_criteria: (
                    if old(self)@.best_gene.fitness_spec() >= old(self)@.fitness_goal {
                        StopCriteria::FitnessAchieved
                    } else if old(self)@.current_iteration >= old(self)@.iterations {
                        StopCriteria::MaxIterations
                    } else {
                        old(self)@.stop_criteria
                    }
                ),
                ..old(self)@
            }),
    {
        if self.best_gene.get_fitness() >= self.fitness_goal {
            self.running = false;
            self.stop_criteria = StopCriteria::FitnessAchieved;
        } else if self.current_iteration >= self.iterations {
            self.running = false;
            self.stop_criteria = StopCriteria::MaxIterations;
        }
    }
}

/// Law: a configuration round-trips.  If `new_with_values` accepted the
/// supplied values and produced `g` (left column of the premises, its
/// postcondition), and the getters returned the `got_*` values (right
/// column, their postconditions), then every getter returned exactly the
/// value that was supplied.
pub proof fn lemma_new_with_values_round_trip<T: Gene + Copy>(
    g: GeneticAlgorithm<T>,
    population_size: usize,
    iterations: u32,
    mutation_rate: i64,
    selection_rate: i64,
    selection_algorithm: SelectionAlgorithms,
    fitness_goal: i64,
    got_population_size: usize,
    got_iterations: u32,
    got_mutation_rate: i64,
    got_selection_rate: i64,
    got_fitness_goal: i64,
)
    requires
        g@.population_size == population_size,
        g@.iterations == iterations,
        g@.mutation_rate == mutation_rate,
        g@.selection_rate == selection_rate,
        g@.selection_algorithm == selection_algorithm,
        g@.fitness_goal == fitness_goal,
        got_population_size == g@.population_size,
        got_iterations == g@.iterations,
        got_mutation_rate == g@.mutation_rate,
        got_selection_rate == g@.selection_rate,
        got_fitness_goal == g@.fitness_goal,
    ensures
        got_population_size == population_size,
        got_iterations == iterations,
        got_mutation_rate == mutation_rate,
        got_selection_rate == selection_rate,
        got_fitness_goal == fitness_goal,
{
}

/// Law: getters are idempotent.  Each accessor takes `&self` and its
/// postcondition pins its result to one field of the abstract state, so two
/// reads without an intervening mutation observe the same state and return
/// equal values.  The `first_*` and `second_*` premises are the two reads'
/// postconditions.
pub proof fn lemma_getters_idempotent<T: Gene + Copy>(
    g: GeneticAlgorithm<T>,
    first_population_size: usize,
    second_population_size: usize,
    first_iterations: u32,
    second_iterations: u32,
    first_current_iteration: u32,
    second_current_iteration: u32,
    first_mutation_rate: i64,
    second_mutation_rate: i64,
    first_selection_rate: i64,
    second_selection_rate: i64,
    first_fitness_goal: i64,
    second_fitness_goal: i64,
    first_running: bool,
    second_running: bool,
    first_stop_criteria: StopCriteria,
    second_stop_criteria: StopCriteria,
    first_best_gene: T,
    second_best_gene: T,
    first_generation: Seq<T>,
    second_generation: Seq<T>,
    first_generation_historic: Seq<Seq<T>>,
    second_generation_historic: Seq<Seq<T>>,
)
    requires
        first_population_size == g@.population_size,
        second_population_size == g@.population_size,
        first_iterations == g@.iterations,
        second_iterations == g@.iterations,
        first_current_iteration == g@.current_iteration,
        second_current_iteration == g@.current_iteration,
        first_mutation_rate == g@.mutation_rate,
        second_mutation_rate == g@.mutation_rate,
        first_selection_rate == g@.selection_rate,
        second_selection_rate == g@.selection_rate,
        first_fitness_goal == g@.fitness_goal,
        second_fitness_goal == g@.fitness_goal,
        first_running == g@.running,
        second_running == g@.running,
        first_stop_criteria == g@.stop_criteria,
        second_stop_criteria == g@.stop_criteria,
        first_best_gene == g@.best_gene,
        second_best_gene == g@.best_gene,
        first_generation == g@.generation,
        second_generation == g@.generation,
        first_generation_historic == g@.generation_historic,
        second_generation_historic == g@.generation_historic,
    ensures
        first_population_size == second_population_size,
        first_iterations == second_iterations,
        first_current_iteration == second_current_iteration,
        first_mutation_rate == second_mutation_rate,
        first_selection_rate == second_selection_rate,
        first_fitness_goal == second_fitness_goal,
        first_running == second_running,
        first_stop_criteria == second_stop_criteria,
        first_best_gene == second_best_gene,
        first_generation == second_generation,
        first_generation_historic == second_generation_historic,
{
}

impl<T: Gene + Copy> Default for GeneticAlgorithm<T> {
    /// The same engine as `GeneticAlgorithm::new`.
    fn default() -> (r: Self)
        ensures
            r@.wf(),
            r@.population_size == POPULATION_SIZE_DEFAULT,
            r@.iterations == MAX_ITERATIONS_DEFAULT,
            r@.current_iteration == 0,
            r@.generation.len() == POPULATION_SIZE_DEFAULT,
            r@.generation_historic == Seq::<Seq<T>>::empty(),
            r@.mutation_rate == MUTATION_RATE_DEFAULT,
            r@.selection_rate == SELECTION_RATE_DEFAULT,
            r@.selection_algorithm == SelectionAlgorithms::Tournament(2),
            r@.fitness_goal == i64::MAX,
            !r@.running,
            r@.stop_criteria == StopCriteria::Unknown,
    {
        Self::new()
    }
}

} // verus!
