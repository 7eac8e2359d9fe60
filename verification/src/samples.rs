//! A small sample candidate, handy for trying the engine out and for
//! exercising it in tests.

use vstd::prelude::*;

use crate::gene::Gene;
use crate::rng::random_index_below;

verus! {

/// A sample candidate: two coordinates drawn from `[0, 100)` and a cached
/// fitness, their sum.  Its best attainable fitness is therefore 198.
#[derive(Clone, Copy, Debug)]
pub struct MyGene {
    pub x: i64,
    pub y: i32,
    fitness: i64,
}

impl Gene for MyGene {
    closed spec fn fitness_spec(&self) -> i64 {
        self.fitness
    }

    fn init() -> Self {
        MyGene {
            x: random_index_below(100) as i64,
            y: random_index_below(100) as i32,
            fitness: 0,
        }
    }

    fn calculate_fitness(&mut self) -> (r: i64) {
        // The coordinates are public, so their sum is clamped rather than
        // trusted to stay in range.
        let f = match self.x.checked_add(self.y as i64) {
            Some(v) => v,
            None => i64::MAX,
        };
        self.fitness = f;
        self.fitness
    }

    fn crossover(&self, other: &Self) -> Self {
        *other
    }

    fn mutate(&mut self) {
        self.x = random_index_below(100) as i64;
        self.y = random_index_below(100) as i32;
    }

    fn get_fitness(&self) -> (r: i64) {
        self.fitness
    }
}

} // verus!
