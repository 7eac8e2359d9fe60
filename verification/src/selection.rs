//! Selection strategies: each one maps a non-empty sequence of fitness
//! values to the index of one individual, consuming entropy but holding no
//! state of its own.

use vstd::prelude::*;

use crate::rng::random_i128_below;
use crate::rng::random_index_below;

verus! {

/// The sum of the first `n` fitness values of `s`.
pub open spec fn sum_prefix(s: Seq<i64>, n: int) -> int
    decreases n,
{
    if n <= 0 {
        0
    } else {
        sum_prefix(s, n - 1) + s[n - 1]
    }
}

/// The sum of all fitness values of `s`.
pub open spec fn total_fitness(s: Seq<i64>) -> int {
    sum_prefix(s, s.len() as int)
}

/// `i` is the first index at which the running fitness total climbs past
/// `draw`.
pub open spec fn crosses_at(s: Seq<i64>, draw: int, i: int) -> bool {
    &&& 0 <= i < s.len()
    &&& draw < sum_prefix(s, i + 1)
    &&& forall|j: int| 0 <= j < i ==> #[trigger] sum_prefix(s, j + 1) <= draw
}

/// Some prefix of `s` sums to more than `draw`.
pub open spec fn some_prefix_crosses(s: Seq<i64>, draw: int) -> bool {
    exists|j: int| 0 <= j < s.len() && draw < #[trigger] sum_prefix(s, j + 1)
}

/// What walking the cumulative fitness total from the front returns for the
/// pointer `draw`: the first index whose running total exceeds `draw`, or
/// index 0 when no prefix does (the documented fallback).
pub open spec fn walk_picks(s: Seq<i64>, draw: int, r: int) -> bool {
    if some_prefix_crosses(s, draw) {
        crosses_at(s, draw, r)
    } else {
        r == 0
    }
}

/// `i` holds the highest fitness of `s`, and every earlier index holds
/// strictly less: the first occurrence wins ties.
pub open spec fn is_first_max(s: Seq<i64>, i: int) -> bool {
    &&& 0 <= i < s.len()
    &&& forall|j: int| 0 <= j < s.len() ==> s[j] <= s[i]
    &&& forall|j: int| 0 <= j < i ==> s[j] < s[i]
}

/// At most one index is the first maximum of a fitness sequence: together
/// with `tournament_select`'s contract this makes a full-population
/// tournament deterministic.
pub proof fn lemma_first_max_unique(s: Seq<i64>, i: int, j: int)
    requires
        is_first_max(s, i),
        is_first_max(s, j),
    ensures
        i == j,
{
    if i < j {
        assert(s[i] < s[j]);
        assert(s[j] <= s[i]);
    }
    if j < i {
        assert(s[j] < s[i]);
        assert(s[i] <= s[j]);
    }
}

/// A sum of at most `n` fitness values stays within `n` times the extreme
/// `i64` values, so running totals never leave `i128`.
pub proof fn lemma_sum_prefix_bounds(s: Seq<i64>, n: int)
    requires
        0 <= n <= s.len(),
    ensures
        n * (i64::MIN as int) <= sum_prefix(s, n) <= n * (i64::MAX as int),
    decreases n,
{
    if n > 0 {
        lemma_sum_prefix_bounds(s, n - 1);
        assert((n - 1) * (i64::MIN as int) + (i64::MIN as int) == n * (i64::MIN as int))
            by (nonlinear_arith);
        assert((n - 1) * (i64::MAX as int) + (i64::MAX as int) == n * (i64::MAX as int))
            by (nonlinear_arith);
    }
}

/// Adds up all fitness values, in an `i128` accumulator that cannot
/// overflow.
fn total_of(fitnesses: &Vec<i64>) -> (t: i128)
    ensures
        t == total_fitness(fitnesses@),
{
    let n = fitnesses.len();
    let mut acc: i128 = 0;
    let mut i: usize = 0;
    while i < n
        invariant
            i <= n,
            n == fitnesses@.len(),
            acc == sum_prefix(fitnesses@, i as int),
        decreases n - i,
    {
        proof {
            lemma_sum_prefix_bounds(fitnesses@, i as int);
            lemma_sum_prefix_bounds(fitnesses@, i + 1);
        }
        let v = fitnesses[i];
        acc = acc + v as i128;
        i = i + 1;
    }
    acc
}

/// Walks the cumulative fitness total from the front and returns the first
/// index whose running total exceeds `delta`; if the walk exhausts the
/// sequence without crossing, returns index 0 as the documented fallback.
fn cumulative_pick(fitnesses: &Vec<i64>, delta: i128) -> (r: usize)
    requires
        fitnesses@.len() > 0,
    ensures
        r < fitnesses@.len(),
        walk_picks(fitnesses@, delta as int, r as int),
{
    let n = fitnesses.len();
    let mut acc: i128 = 0;
    let mut i: usize = 0;
    while i < n
        invariant
            i <= n,
            n == fitnesses@.len(),
            acc == sum_prefix(fitnesses@, i as int),
            forall|j: int| 0 <= j < i ==> #[trigger] sum_prefix(fitnesses@, j + 1) <= delta,
        decreases n - i,
    {
        proof {
            lemma_sum_prefix_bounds(fitnesses@, i as int);
            lemma_sum_prefix_bounds(fitnesses@, i + 1);
        }
        let v = fitnesses[i];
        let next = acc + v as i128;
        if delta < next {
            return i;
        }
        acc = next;
        i = i + 1;
    }
    0
}

/// Roulette-wheel selection: index `i` is chosen with probability
/// `fitness[i] / total`.  The pointer is drawn uniformly from
/// `[0, total)` and the cumulative total is walked from the front.  When the
/// total fitness is not positive the wheel has no surface and index 0 is
/// returned as the documented fallback.
pub fn roulette_select(fitnesses: &Vec<i64>) -> (r: usize)
    requires
        fitnesses@.len() > 0,
    ensures
        r < fitnesses@.len(),
        total_fitness(fitnesses@) <= 0 ==> r == 0,
        total_fitness(fitnesses@) > 0 ==> exists|d: int|
            0 <= d < total_fitness(fitnesses@) && crosses_at(fitnesses@, d, r as int),
{
    let total = total_of(fitnesses);
    if total <= 0 {
        return 0;
    }
    let draw = random_i128_below(total);
    let r = cumulative_pick(fitnesses, draw);
    proof {
        let s = fitnesses@;
        let last = s.len() as int - 1;
        assert(0 <= last < s.len() && (draw as int) < sum_prefix(s, last + 1));
        assert(some_prefix_crosses(s, draw as int));
        assert(crosses_at(s, draw as int, r as int));
    }
    r
}

/// Returns the position of the highest fitness value, the first occurrence
/// winning ties.
pub fn first_max_index(fitnesses: &Vec<i64>) -> (r: usize)
    requires
        fitnesses@.len() > 0,
    ensures
        is_first_max(fitnesses@, r as int),
{
    let n = fitnesses.len();
    let mut best: usize = 0;
    let mut i: usize = 1;
    while i < n
        invariant
            i <= n,
            n == fitnesses@.len(),
            best < i,
            best < n,
            forall|j: int| 0 <= j < i ==> fitnesses@[j] <= fitnesses@[best as int],
            forall|j: int| 0 <= j < best ==> fitnesses@[j] < fitnesses@[best as int],
        decreases n - i,
    {
        if fitnesses[i] > fitnesses[best] {
            best = i;
        }
        i = i + 1;
    }
    best
}

/// `r` won a tournament among the contestant indices `s`: every contestant
/// holds `size` distinct in-range indices, `r` is one of them, none beats
/// its fitness, and every earlier contestant holds strictly less — the
/// first occurrence wins ties.
pub open spec fn is_tournament_winner(f: Seq<i64>, size: int, s: Set<int>, r: int) -> bool {
    &&& s.finite()
    &&& s.len() == size
    &&& (forall|i: int| s.contains(i) ==> 0 <= i < f.len())
    &&& s.contains(r)
    &&& (forall|i: int| s.contains(i) ==> f[i] <= f[r])
    &&& (forall|i: int| s.contains(i) && i < r ==> f[i] < f[r])
}

/// Tournament selection: `members` distinct contestants are drawn uniformly
/// without replacement (clamped to the population size, never failing for a
/// large `members`), and the contestant with the highest fitness wins, the
/// first occurrence winning ties.  A tournament of the whole population is
/// therefore decided by fitness alone.  An empty tournament
/// (`members == 0`) falls back to index 0.
pub fn tournament_select(members: usize, fitnesses: &Vec<i64>) -> (r: usize)
    requires
        fitnesses@.len() > 0,
    ensures
        r < fitnesses@.len(),
        members >= fitnesses@.len() ==> is_first_max(fitnesses@, r as int),
        0 < members < fitnesses@.len() ==> exists|s: Set<int>|
            is_tournament_winner(fitnesses@, members as int, s, r as int),
        members == 0 ==> r == 0,
{
    let n = fitnesses.len();
    if members >= n {
        return first_max_index(fitnesses);
    }
    if members == 0 {
        return 0;
    }

    // The pool of indices still eligible for a tournament slot.
    let mut pool: Vec<usize> = Vec::new();
    let mut i: usize = 0;
    while i < n
        invariant
            i <= n,
            pool@.len() == i,
            forall|j: int| 0 <= j < i ==> pool@[j] == j,
        decreases n - i,
    {
        pool.push(i);
        i = i + 1;
    }

    let mut marks: Vec<bool> = Vec::new();
    let mut m: usize = 0;
    while m < n
        invariant
            m <= n,
            marks@.len() == m,
            forall|x: int| 0 <= x < m ==> !marks@[x],
        decreases n - m,
    {
        marks.push(false);
        m = m + 1;
    }

    // Draw `members` distinct indices without replacement; `chosen` tracks
    // the contestant set and `witness` one of its members.
    let ghost mut chosen: Set<int> = Set::empty();
    let ghost mut witness: int = 0;
    let mut t: usize = 0;
    while t < members
        invariant
            t <= members,
            members < n,
            pool@.len() == n - t,
            marks@.len() == n,
            chosen.finite(),
            chosen.len() == t,
            forall|x: int| chosen.contains(x) ==> 0 <= x < n,
            t > 0 ==> chosen.contains(witness),
            forall|x: int| 0 <= x < n ==> (marks@[x] == chosen.contains(x)),
            forall|j: int| 0 <= j < pool@.len() ==> #[trigger] pool@[j] < n,
            forall|j: int| 0 <= j < pool@.len() ==> !chosen.contains(#[trigger] pool@[j] as int),
            forall|a: int, b: int|
                0 <= a < b < pool@.len() ==> pool@[a] != pool@[b],
        decreases members - t,
    {
        let k = random_index_below(pool.len());
        let ghost old_pool = pool@;
        let idx = pool.swap_remove(k);
        proof {
            assert(idx == old_pool[k as int]);
            assert forall|a: int, b: int|
                0 <= a < b < pool@.len() implies pool@[a] != pool@[b] by {
                assert(pool@[a] == if a == k { old_pool[old_pool.len() - 1] } else { old_pool[a] });
                assert(pool@[b] == if b == k { old_pool[old_pool.len() - 1] } else { old_pool[b] });
            }
            assert forall|j: int| 0 <= j < pool@.len() implies !chosen.insert(idx as int)
                .contains(#[trigger] pool@[j] as int) by {
                assert(pool@[j] == if j == k { old_pool[old_pool.len() - 1] } else { old_pool[j] });
            }
            chosen = chosen.insert(idx as int);
            witness = idx as int;
        }
        let slot = &mut marks[idx];
        *slot = true;
        t = t + 1;
    }

    // The first-seen highest fitness among the drawn contestants wins.
    let mut winner: usize = 0;
    let mut found = false;
    let mut j: usize = 0;
    while j < n
        invariant
            j <= n,
            winner < n,
            n == fitnesses@.len(),
            n == marks@.len(),
            chosen.finite(),
            chosen.len() == members,
            0 < members < n,
            chosen.contains(witness),
            forall|x: int| chosen.contains(x) ==> 0 <= x < n,
            forall|x: int| 0 <= x < n ==> (marks@[x] == chosen.contains(x)),
            !found ==> forall|x: int| chosen.contains(x) ==> x >= j,
            found ==> {
                &&& chosen.contains(winner as int)
                &&& forall|x: int| chosen.contains(x) && x < j ==> fitnesses@[x] <= fitnesses@[
                    winner as int]
                &&& forall|x: int| chosen.contains(x) && x < winner ==> fitnesses@[x] < fitnesses@[
                    winner as int]
            },
        decreases n - j,
    {
        if marks[j] {
            if !found || fitnesses[j] > fitnesses[winner] {
                winner = j;
                found = true;
            }
        }
        j = j + 1;
    }
    proof {
        assert(found) by {
            if !found {
                assert(witness >= n);
                assert(witness < n);
            }
        }
        assert(is_tournament_winner(fitnesses@, members as int, chosen, winner as int));
    }
    winner
}

/// Uniformly random selection: every index is equally likely and the
/// fitness values play no part.
pub fn random_select(fitnesses: &Vec<i64>) -> (r: usize)
    requires
        fitnesses@.len() > 0,
    ensures
        r < fitnesses@.len(),
{
    random_index_below(fitnesses.len())
}

/// Stochastic universal sampling: a pointer is drawn uniformly from
/// `[0, mean]` where `mean` is the mean fitness, and the cumulative fitness
/// total is walked from index 0 until the pointer is covered.  When the
/// total fitness is not positive the walk is undefined by the policy and
/// index 0 is returned as the documented fallback; a walk that exhausts the
/// sequence also falls back to index 0.
pub fn stochastic_select(fitnesses: &Vec<i64>) -> (r: usize)
    requires
        fitnesses@.len() > 0,
    ensures
        r < fitnesses@.len(),
        total_fitness(fitnesses@) <= 0 ==> r == 0,
        total_fitness(fitnesses@) > 0 ==> exists|d: int|
            0 <= d <= total_fitness(fitnesses@) / (fitnesses@.len() as int)
                && walk_picks(fitnesses@, d, r as int),
{
    let total = total_of(fitnesses);
    if total <= 0 {
        return 0;
    }
    proof {
        lemma_sum_prefix_bounds(fitnesses@, fitnesses@.len() as int);
        vstd::arithmetic::div_mod::lemma_multiply_divide_le(
            total as int,
            fitnesses@.len() as int,
            i64::MAX as int,
        );
    }
    let mean = total / (fitnesses.len() as i128);
    let delta = if mean == 0 {
        0
    } else {
        random_i128_below(mean + 1)
    };
    let r = cumulative_pick(fitnesses, delta);
    proof {
        assert(0 <= delta as int <= total_fitness(fitnesses@) / (fitnesses@.len() as int));
    }
    r
}

/// The capability a selection strategy offers the engine: map a non-empty
/// fitness sequence to the index of one individual.  Presenting an empty
/// sequence is a caller error, ruled out by the precondition.
pub trait Selection {
    /// Selects the index of one individual of the population whose fitness
    /// values are `fitnesses`.
    fn select(&self, fitnesses: &Vec<i64>) -> (r: usize)
        requires
            fitnesses@.len() > 0,
        ensures
            r < fitnesses@.len(),
    ;
}

/// The selection policies the library ships.
#[derive(Clone, Copy, Debug, PartialEq, Eq, Structural)]
pub enum SelectionAlgorithms {
    Roulette,
    Tournament(usize),
    Random,
    Stochastic,
}

impl Selection for SelectionAlgorithms {
    fn select(&self, fitnesses: &Vec<i64>) -> (r: usize) {
        match self {
            SelectionAlgorithms::Roulette => roulette_select(fitnesses),
            SelectionAlgorithms::Tournament(members) => tournament_select(*members, fitnesses),
            SelectionAlgorithms::Random => random_select(fitnesses),
            SelectionAlgorithms::Stochastic => stochastic_select(fitnesses),
        }
    }
}

} // verus!
