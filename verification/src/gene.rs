//! The capability contract a candidate solution must satisfy so that the
//! engine can evolve it.

use vstd::prelude::*;

verus! {

/// One member of a population.  The engine treats a `Gene` as an opaque,
/// cheaply copiable value: it only ever initializes candidates, asks them to
/// evaluate themselves, crosses two of them, mutates one in place, and reads
/// the cached fitness back.
///
/// Fitness is a plain `i64` score; higher is better.
pub trait Gene: Sized {
    /// The cached fitness of this candidate, as contracts see it.
    spec fn fitness_spec(&self) -> i64;

    /// Builds a fresh candidate.
    fn init() -> Self;

    /// Recomputes the fitness of this candidate, caches it, and returns it.
    fn calculate_fitness(&mut self) -> (r: i64)
        ensures
            r == final(self).fitness_spec(),
    ;

    /// Combines this candidate with `other` and returns the offspring.
    fn crossover(&self, other: &Self) -> Self;

    /// Randomly perturbs this candidate in place.
    fn mutate(&mut self);

    /// Returns the cached fitness without recomputing it.
    fn get_fitness(&self) -> (r: i64)
        ensures
            r == self.fitness_spec(),
    ;
}

} // verus!
