use smallest_polygon_cover::heuristics::Heuristics;
use smallest_polygon_cover::moves::{
    consider_candidate, counts_as_worse, fitness_cooling_applies, random_node,
    records_initial_circumference, reverts_move, Change,
};

const RANDOM: [Heuristics; 4] = [
    Heuristics::Stochastic,
    Heuristics::SCITerLimit,
    Heuristics::SCConstant,
    Heuristics::SCFitnessDependent,
];

#[test]
fn equal_circumference_is_worse_except_for_fitness_cooling() {
    for m in [Heuristics::Stochastic, Heuristics::SCITerLimit, Heuristics::SCConstant] {
        assert!(counts_as_worse(m, Change::Same));
        assert!(counts_as_worse(m, Change::Longer));
        assert!(!counts_as_worse(m, Change::Shorter));
        assert!(!counts_as_worse(m, Change::Incomparable));
    }
    assert!(!counts_as_worse(Heuristics::SCFitnessDependent, Change::Same));
    assert!(counts_as_worse(Heuristics::SCFitnessDependent, Change::Longer));
    assert!(!counts_as_worse(Heuristics::SCFitnessDependent, Change::Shorter));
}

#[test]
fn uncovering_move_is_always_reverted() {
    for m in RANDOM {
        for c in [Change::Shorter, Change::Same, Change::Longer, Change::Incomparable] {
            for d in [false, true] {
                assert!(reverts_move(m, c, d, false));
            }
        }
    }
}

#[test]
fn improving_covering_move_is_kept() {
    for m in RANDOM {
        for d in [false, true] {
            assert!(!reverts_move(m, Change::Shorter, d, true));
        }
    }
}

#[test]
fn worse_move_reverted_only_when_draw_passes() {
    assert!(reverts_move(Heuristics::Stochastic, Change::Longer, true, true));
    assert!(!reverts_move(Heuristics::Stochastic, Change::Longer, false, true));
    assert!(reverts_move(Heuristics::SCConstant, Change::Same, true, true));
    assert!(!reverts_move(Heuristics::SCFitnessDependent, Change::Same, true, true));
}

#[test]
fn initial_record_only_for_random_moves_on_empty_history() {
    for m in RANDOM {
        assert!(records_initial_circumference(m, 0));
        assert!(!records_initial_circumference(m, 1));
    }
    assert!(!records_initial_circumference(Heuristics::SteepestAscentOneNode, 0));
    assert!(!records_initial_circumference(Heuristics::SteepestAscentAllNodes, 0));
}

#[test]
fn fitness_cooling_needs_three_records() {
    assert!(!fitness_cooling_applies(0));
    assert!(!fitness_cooling_applies(2));
    assert!(fitness_cooling_applies(3));
}

#[test]
fn sweep_keeps_last_acceptable_direction() {
    let mut best = None;
    consider_candidate(&mut best, 0, Change::Longer, true);
    assert_eq!(best, None);
    consider_candidate(&mut best, 1, Change::Shorter, true);
    assert_eq!(best, Some(1));
    consider_candidate(&mut best, 2, Change::Shorter, false);
    assert_eq!(best, Some(1));
    consider_candidate(&mut best, 3, Change::Same, true);
    assert_eq!(best, Some(3));
    consider_candidate(&mut best, 4, Change::Incomparable, true);
    assert_eq!(best, Some(3));
}

#[test]
fn random_node_is_below_node_count() {
    for k in 1..=20u8 {
        for _ in 0..50 {
            assert!(random_node(k) < k as usize);
        }
    }
    assert_eq!(random_node(1), 0);
}
