use smallest_polygon_cover::heuristics::Heuristics;

const ALL: [Heuristics; 6] = [
    Heuristics::Stochastic,
    Heuristics::SteepestAscentOneNode,
    Heuristics::SteepestAscentAllNodes,
    Heuristics::SCITerLimit,
    Heuristics::SCConstant,
    Heuristics::SCFitnessDependent,
];

#[test]
fn labels_match_display_names() {
    assert_eq!(Heuristics::Stochastic.label(), "Stochastic");
    assert_eq!(Heuristics::SteepestAscentOneNode.label(), "Steepest ascent (one node)");
    assert_eq!(Heuristics::SteepestAscentAllNodes.label(), "Steepest ascent (all nodes)");
    assert_eq!(
        Heuristics::SCITerLimit.label(),
        "Stochastic + Simulated cooling (iteration limit)"
    );
    assert_eq!(Heuristics::SCConstant.label(), "Stochastic + Simulated cooling (constant)");
    assert_eq!(
        Heuristics::SCFitnessDependent.label(),
        "Stochastic + Simulated cooling (fitness dependent)"
    );
}

#[test]
fn labels_are_distinct() {
    for a in ALL.iter() {
        for b in ALL.iter() {
            assert_eq!(a == b, a.label() == b.label());
        }
    }
}

#[test]
fn random_move_family() {
    assert!(Heuristics::Stochastic.moves_nodes_randomly());
    assert!(!Heuristics::SteepestAscentOneNode.moves_nodes_randomly());
    assert!(!Heuristics::SteepestAscentAllNodes.moves_nodes_randomly());
    assert!(Heuristics::SCITerLimit.moves_nodes_randomly());
    assert!(Heuristics::SCConstant.moves_nodes_randomly());
    assert!(Heuristics::SCFitnessDependent.moves_nodes_randomly());
}
