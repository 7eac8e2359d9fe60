use easy_ga::genetic_algorithm::GeneticAlgorithmError;
use easy_ga::genetic_algorithm::StopCriteria;
use easy_ga::logger::level_rank;
use easy_ga::logger::should_log;
use easy_ga::samples::MyGene;
use easy_ga::selection::roulette_select;
use easy_ga::selection::stochastic_select;
use easy_ga::selection::tournament_select;
use easy_ga::Gene;
use easy_ga::GeneticAlgorithm;
use easy_ga::Selection;
use easy_ga::SelectionAlgorithms;
use easy_ga::VerbosityLevel;

#[test]
fn tournament_of_whole_population_is_deterministic() {
    // With k >= N the tournament always returns the single highest-fitness
    // index, ties broken by first occurrence.
    let fitnesses: Vec<i64> = vec![5, 9, 9, 3];
    for _ in 0..200 {
        assert_eq!(tournament_select(10, &fitnesses), 1);
        assert_eq!(tournament_select(4, &fitnesses), 1);
        assert_eq!(SelectionAlgorithms::Tournament(100).select(&fitnesses), 1);
    }
}

#[test]
fn tournament_clamps_oversized_member_count() {
    let fitnesses: Vec<i64> = vec![1];
    for _ in 0..50 {
        assert_eq!(tournament_select(usize::MAX, &fitnesses), 0);
    }
}

#[test]
fn roulette_two_element_majority() {
    // Over many trials on [10, 0] the first index must win a clear
    // majority; with integer weights the zero-weight index is never hit.
    let fitnesses: Vec<i64> = vec![10, 0];
    let mut first: u32 = 0;
    for _ in 0..1000 {
        if roulette_select(&fitnesses) == 0 {
            first += 1;
        }
    }
    assert!(first > 750);
}

#[test]
fn roulette_single_positive_weight_always_wins() {
    let fitnesses: Vec<i64> = vec![0, 0, 7, 0];
    for _ in 0..200 {
        assert_eq!(roulette_select(&fitnesses), 2);
    }
}

#[test]
fn roulette_all_zero_falls_back_to_first_index() {
    let fitnesses: Vec<i64> = vec![0, 0, 0];
    for _ in 0..50 {
        assert_eq!(roulette_select(&fitnesses), 0);
    }
}

#[test]
fn stochastic_walk_stays_in_the_covered_prefix() {
    // Total 15, mean 5: the pointer lies in [0, 5], so the walk over the
    // running totals 5, 10, 15 can only stop at index 0 or 1.
    let fitnesses: Vec<i64> = vec![5, 5, 5];
    for _ in 0..200 {
        let idx = stochastic_select(&fitnesses);
        assert!(idx <= 1);
    }
}

#[test]
fn stochastic_all_zero_falls_back_to_first_index() {
    let fitnesses: Vec<i64> = vec![0, 0, 0, 0];
    for _ in 0..50 {
        assert_eq!(stochastic_select(&fitnesses), 0);
    }
}

#[test]
fn random_selection_stays_in_range() {
    let fitnesses: Vec<i64> = vec![3, 1, 2];
    for _ in 0..200 {
        assert!(SelectionAlgorithms::Random.select(&fitnesses) < 3);
    }
}

#[test]
fn engine_scenario_tournament_of_ten() {
    // population_size=20, iterations=50, mutation 0.10, selection 0.90,
    // Tournament(10), fitness_goal=100: the run stops for one of the two
    // reasons and completes between 1 and 50 generations.
    let mut engine = GeneticAlgorithm::<MyGene>::new()
        .population_size(20)
        .iterations(50)
        .unwrap()
        .mutation_rate(100_000)
        .unwrap()
        .selection_rate(900_000)
        .unwrap()
        .selection_algorithm(SelectionAlgorithms::Tournament(10))
        .fitness_goal(100)
        .init()
        .unwrap();

    let (_, stop) = engine.run().unwrap();
    assert!(stop == StopCriteria::MaxIterations || stop == StopCriteria::FitnessAchieved);
    let completed = engine.get_current_iteration();
    assert!(1 <= completed && completed <= 50);
}

#[test]
fn unreachable_goal_runs_all_generations() {
    // The default goal is the highest fitness, which the sample gene never
    // reaches, so the run uses up its full generation budget.
    let mut engine = GeneticAlgorithm::<MyGene>::new()
        .population_size(20)
        .iterations(10)
        .unwrap()
        .init()
        .unwrap();

    let (_, stop) = engine.run().unwrap();
    assert_eq!(stop, StopCriteria::MaxIterations);
    assert_eq!(engine.get_current_iteration(), 10);
}

#[test]
fn reachable_goal_stops_within_budget() {
    // A goal of 10 is far below the sample gene's best attainable fitness
    // of 198, so the run reaches it and never overruns the cap.
    let mut engine = GeneticAlgorithm::<MyGene>::new().fitness_goal(10).init().unwrap();

    let (best, stop) = engine.run().unwrap();
    assert_eq!(stop, StopCriteria::FitnessAchieved);
    assert!(best.get_fitness() >= 10);
    assert!(engine.get_current_iteration() <= 1000);
}

#[test]
fn population_growth_fills_with_working_candidates() {
    let mut engine = GeneticAlgorithm::<MyGene>::new().population_size(150).init().unwrap();
    assert_eq!(engine.get_population_size(), 150);
    assert_eq!(engine.get_generation().len(), 150);

    let generation = engine.next_iteration().unwrap();
    assert_eq!(generation.len(), 150);
    for gene in generation.iter() {
        assert!(gene.get_fitness() >= 0);
    }
}

#[test]
fn population_shrink_truncates() {
    let engine = GeneticAlgorithm::<MyGene>::new().population_size(10);
    assert_eq!(engine.get_population_size(), 10);
    assert_eq!(engine.get_generation().len(), 10);
}

#[test]
fn rates_are_rejected_in_every_engine_state() {
    // Configured.
    assert_eq!(
        GeneticAlgorithm::<MyGene>::new().mutation_rate(1_100_000).unwrap_err(),
        GeneticAlgorithmError::MutationRateOutOfRange
    );
    assert_eq!(
        GeneticAlgorithm::<MyGene>::new().mutation_rate(-100_000).unwrap_err(),
        GeneticAlgorithmError::MutationRateOutOfRange
    );
    assert_eq!(
        GeneticAlgorithm::<MyGene>::new().selection_rate(1_100_000).unwrap_err(),
        GeneticAlgorithmError::SelectionRateOutOfRange
    );
    assert_eq!(
        GeneticAlgorithm::<MyGene>::new().selection_rate(-100_000).unwrap_err(),
        GeneticAlgorithmError::SelectionRateOutOfRange
    );

    // Active.
    let running = GeneticAlgorithm::<MyGene>::new().init().unwrap();
    assert!(running.mutation_rate(1_100_000).is_err());
    let running = GeneticAlgorithm::<MyGene>::new().init().unwrap();
    assert!(running.selection_rate(-100_000).is_err());

    // Stopped.
    let mut stopped = GeneticAlgorithm::<MyGene>::new()
        .population_size(10)
        .iterations(1)
        .unwrap()
        .init()
        .unwrap();
    stopped.run().unwrap();
    assert!(stopped.mutation_rate(-100_000).is_err());
}

#[test]
fn iterations_not_above_counter_are_rejected() {
    // A zero cap is rejected outright.
    assert_eq!(
        GeneticAlgorithm::<MyGene>::new().iterations(0).unwrap_err(),
        GeneticAlgorithmError::InvalidIterations
    );

    // After five completed generations, caps at or below five are rejected
    // and a higher cap is accepted.
    let mut engine = GeneticAlgorithm::<MyGene>::new()
        .population_size(10)
        .iterations(5)
        .unwrap()
        .init()
        .unwrap();
    engine.run().unwrap();
    assert_eq!(engine.get_current_iteration(), 5);
    assert_eq!(
        engine.iterations(5).unwrap_err(),
        GeneticAlgorithmError::InvalidIterations
    );
    assert!(GeneticAlgorithm::<MyGene>::new().iterations(6).is_ok());
}

#[test]
fn new_with_values_rejects_in_order() {
    // An out-of-range mutation rate is reported first, even when the
    // selection rate is also invalid.
    assert_eq!(
        GeneticAlgorithm::<MyGene>::new_with_values(
            10,
            10,
            1_100_000,
            -100_000,
            SelectionAlgorithms::Random,
            0,
        )
        .unwrap_err(),
        GeneticAlgorithmError::MutationRateOutOfRange
    );
    assert_eq!(
        GeneticAlgorithm::<MyGene>::new_with_values(
            10,
            10,
            500_000,
            1_100_000,
            SelectionAlgorithms::Random,
            0,
        )
        .unwrap_err(),
        GeneticAlgorithmError::SelectionRateOutOfRange
    );
    assert_eq!(
        GeneticAlgorithm::<MyGene>::new_with_values(
            10,
            0,
            500_000,
            500_000,
            SelectionAlgorithms::Random,
            0,
        )
        .unwrap_err(),
        GeneticAlgorithmError::InvalidIterations
    );
}

#[test]
fn sequencing_errors_tell_fresh_from_stopped() {
    // A generation before init is a caller error.
    let mut fresh = GeneticAlgorithm::<MyGene>::new();
    assert_eq!(
        fresh.next_iteration().unwrap_err(),
        GeneticAlgorithmError::NotInitialized
    );
    assert_eq!(fresh.run().unwrap_err(), GeneticAlgorithmError::NotInitialized);

    // Starting twice is a caller error.
    let running = GeneticAlgorithm::<MyGene>::new().init().unwrap();
    assert_eq!(running.init().unwrap_err(), GeneticAlgorithmError::AlreadyRunning);

    // Nothing leaves the stopped state.
    let mut stopped = GeneticAlgorithm::<MyGene>::new()
        .population_size(10)
        .iterations(1)
        .unwrap()
        .init()
        .unwrap();
    stopped.run().unwrap();
    assert_eq!(stopped.run().unwrap_err(), GeneticAlgorithmError::AlreadyStopped);
    assert_eq!(
        stopped.next_iteration().unwrap_err(),
        GeneticAlgorithmError::AlreadyStopped
    );
    assert_eq!(stopped.init().unwrap_err(), GeneticAlgorithmError::AlreadyStopped);
}

#[test]
fn getters_are_idempotent_without_intervening_mutation() {
    let engine = GeneticAlgorithm::<MyGene>::new();
    assert_eq!(engine.get_population_size(), engine.get_population_size());
    assert_eq!(engine.get_iterations(), engine.get_iterations());
    assert_eq!(engine.get_current_iteration(), engine.get_current_iteration());
    assert_eq!(engine.get_mutation_rate(), engine.get_mutation_rate());
    assert_eq!(engine.get_selection_rate(), engine.get_selection_rate());
    assert_eq!(engine.get_fitness_goal(), engine.get_fitness_goal());
    assert_eq!(engine.is_running(), engine.is_running());
    assert_eq!(engine.get_stop_criteria(), engine.get_stop_criteria());
    assert_eq!(
        engine.get_best_gene().get_fitness(),
        engine.get_best_gene().get_fitness()
    );
    let first = engine.get_generation();
    let second = engine.get_generation();
    assert_eq!(first.len(), second.len());
    for (a, b) in first.iter().zip(second.iter()) {
        assert_eq!(a.x, b.x);
        assert_eq!(a.y, b.y);
        assert_eq!(a.get_fitness(), b.get_fitness());
    }
    assert_eq!(
        engine.get_generation_historic().len(),
        engine.get_generation_historic().len()
    );
}

#[test]
fn best_fitness_never_decreases_step_by_step() {
    let mut engine = GeneticAlgorithm::<MyGene>::new()
        .population_size(10)
        .iterations(5)
        .unwrap()
        .init()
        .unwrap();
    let mut last_best = engine.get_best_gene().get_fitness();
    while engine.is_running() {
        engine.next_iteration().unwrap();
        let best = engine.get_best_gene().get_fitness();
        assert!(best >= last_best);
        last_best = best;
    }
}

#[test]
fn history_holds_one_snapshot_per_generation_plus_the_start() {
    let mut engine = GeneticAlgorithm::<MyGene>::new().population_size(10).init().unwrap();
    assert_eq!(engine.get_generation_historic().len(), 1);
    engine.next_iteration().unwrap();
    assert_eq!(engine.get_generation_historic().len(), 2);
    engine.next_iteration().unwrap();
    let historic = engine.get_generation_historic();
    assert_eq!(historic.len(), 3);
    for snapshot in historic.iter() {
        assert_eq!(snapshot.len(), 10);
    }
}

#[test]
fn stochastic_strategy_drives_a_run() {
    let mut engine = GeneticAlgorithm::<MyGene>::new()
        .population_size(20)
        .iterations(5)
        .unwrap()
        .selection_algorithm(SelectionAlgorithms::Stochastic)
        .init()
        .unwrap();
    let (_, stop) = engine.run().unwrap();
    assert_eq!(stop, StopCriteria::MaxIterations);
}

#[test]
fn default_engine_matches_documented_defaults() {
    let engine = GeneticAlgorithm::<MyGene>::default();
    assert_eq!(engine.get_population_size(), 100);
    assert_eq!(engine.get_iterations(), 1000);
    assert_eq!(engine.get_current_iteration(), 0);
    assert_eq!(engine.get_mutation_rate(), 50_000);
    assert_eq!(engine.get_selection_rate(), 900_000);
    assert_eq!(engine.get_fitness_goal(), i64::MAX);
    assert!(!engine.is_running());
    assert_eq!(engine.get_stop_criteria(), StopCriteria::Unknown);
    assert_eq!(engine.get_generation().len(), 100);
    assert_eq!(engine.get_generation_historic().len(), 0);
}

#[test]
fn verbosity_levels_rank_in_order() {
    assert_eq!(level_rank(VerbosityLevel::DISABLED), 0);
    assert_eq!(level_rank(VerbosityLevel::LOW), 1);
    assert_eq!(level_rank(VerbosityLevel::MID), 2);
    assert_eq!(level_rank(VerbosityLevel::HIGH), 3);
}

#[test]
fn logging_decision_follows_the_configured_level() {
    assert!(!should_log(VerbosityLevel::DISABLED, VerbosityLevel::LOW));
    assert!(!should_log(VerbosityLevel::HIGH, VerbosityLevel::DISABLED));
    assert!(should_log(VerbosityLevel::HIGH, VerbosityLevel::LOW));
    assert!(should_log(VerbosityLevel::MID, VerbosityLevel::MID));
    assert!(!should_log(VerbosityLevel::LOW, VerbosityLevel::HIGH));
}
