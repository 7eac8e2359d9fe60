#![allow(non_snake_case)]

use easy_ga::Selection;
use easy_ga::SelectionAlgorithms;
use rand::Rng;

/// Tests the Selection::select with SelectionAlgorithms::Roulette.
#[test]
fn WhenSelectionWithRoulette_ThenSuccess() {
    let selection_algorithm = SelectionAlgorithms::Roulette;
    // Fitness length = 1
    selection_algorithm.select(&generate_fitnesses(1));
    // Fitness length = 2
    selection_algorithm.select(&generate_fitnesses(2));
    // Fitness length = 100
    selection_algorithm.select(&generate_fitnesses(100));
}

/// Tests the Selection::select with SelectionAlgorithms::Tournament.
#[test]
fn WhenSelectionWithTournament_ThenSuccess() {
    // Fitness length = 1
    let selection_algorithm = SelectionAlgorithms::Tournament(1);
    selection_algorithm.select(&generate_fitnesses(1));
    // Fitness length = 2
    let selection_algorithm = SelectionAlgorithms::Tournament(2);
    selection_algorithm.select(&generate_fitnesses(2));
    // Fitness length = 100
    let selection_algorithm = SelectionAlgorithms::Tournament(100);
    selection_algorithm.select(&generate_fitnesses(100));
}

/// Tests the Selection::select with SelectionAlgorithms::Random.
#[test]
fn WhenSelectionWithRandom_ThenSuccess() {
    let selection_algorithm = SelectionAlgorithms::Random;
    // Fitness length = 1
    selection_algorithm.select(&generate_fitnesses(1));
    // Fitness length = 2
    selection_algorithm.select(&generate_fitnesses(2));
    // Fitness length = 100
    selection_algorithm.select(&generate_fitnesses(100));
}

fn generate_fitnesses(length: usize) -> Vec<i64> {
    let mut rng = rand::thread_rng();
    let mut fitnesses: Vec<i64> = Vec::with_capacity(length);
    for i in 0..length {
        fitnesses.insert(i, rng.gen_range(0..1000));
    }
    fitnesses
}
