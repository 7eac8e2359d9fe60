//! A library for population-based stochastic optimization with genetic
//! algorithms: a `GeneticAlgorithm` engine evolves a population of
//! user-defined `Gene` candidates through selection, crossover and mutation
//! until a fitness goal or a generation cap is reached.
//!
//! Fitness values are plain `i64` scores (higher is better).  Probabilities
//! such as the mutation and selection rates are fixed-point fractions of
//! `RATE_SCALE`: a rate of `RATE_SCALE` means 1.0, a rate of
//! `RATE_SCALE / 2` means 0.5.

pub mod gene;
pub mod genetic_algorithm;
pub mod logger;
mod rng;
pub mod samples;
pub mod selection;

pub use gene::Gene;
pub use logger::VerbosityLevel;
pub use logger::VerbosityType;
pub use genetic_algorithm::GeneticAlgorithm;
pub use genetic_algorithm::GeneticAlgorithmError;
pub use genetic_algorithm::StopCriteria;
pub use genetic_algorithm::RATE_SCALE;
pub use selection::Selection;
pub use selection::SelectionAlgorithms;
