//! The search heuristics and their display names.
use vstd::prelude::*;

verus! {

/// The heuristics a run of the search can use.
#[derive(Clone, Copy, Debug, PartialEq, Eq, Structural)]
pub enum Heuristics {
    Stochastic,
    SteepestAscentOneNode,
    SteepestAscentAllNodes,
    SCITerLimit,
    SCConstant,
    SCFitnessDependent,
}

/// The name under which a heuristic is shown to the user.
pub open spec fn label_of(h: Heuristics) -> Seq<char> {
    match h {
        Heuristics::Stochastic => "Stochastic"@,
        Heuristics::SteepestAscentOneNode => "Steepest ascent (one node)"@,
        Heuristics::SteepestAscentAllNodes => "Steepest ascent (all nodes)"@,
        Heuristics::SCITerLimit => "Stochastic + Simulated cooling (iteration limit)"@,
        Heuristics::SCConstant => "Stochastic + Simulated cooling (constant)"@,
        Heuristics::SCFitnessDependent => "Stochastic + Simulated cooling (fitness dependent)"@,
    }
}

impl Heuristics {
    /// The display name of the heuristic.
    pub fn label(&self) -> (s: String)
        ensures
            s@ == label_of(*self),
    {
        match self {
            Heuristics::Stochastic => "Stochastic".to_owned(),
            Heuristics::SteepestAscentOneNode => "Steepest ascent (one node)".to_owned(),
            Heuristics::SteepestAscentAllNodes => "Steepest ascent (all nodes)".to_owned(),
            Heuristics::SCITerLimit => "Stochastic + Simulated cooling (iteration limit)".to_owned(),
            Heuristics::SCConstant => "Stochastic + Simulated cooling (constant)".to_owned(),
            Heuristics::SCFitnessDependent => "Stochastic + Simulated cooling (fitness dependent)".to_owned(),
        }
    }
}

impl Heuristics {
    /// Whether the heuristic moves every node by a random step each
    /// generation (the stochastic family, with or without cooling), as
    /// opposed to searching a fixed set of directions (steepest ascent).
    pub open spec fn moves_randomly(self) -> bool {
        ||| self is Stochastic
        ||| self is SCITerLimit
        ||| self is SCConstant
        ||| self is SCFitnessDependent
    }

    /// Whether a run of the heuristic ends after a fixed number of
    /// recorded generations rather than after a stretch of generations
    /// that left the circumference unchanged.
    pub open spec fn stops_at_iteration_limit(self) -> bool {
        self is SCITerLimit
    }

    /// Executable form of [`Heuristics::moves_randomly`].
    pub fn moves_nodes_randomly(&self) -> (b: bool)
        ensures
            b == self.moves_randomly(),
    {
        match self {
            Heuristics::Stochastic => true,
            Heuristics::SteepestAscentOneNode => false,
            Heuristics::SteepestAscentAllNodes => false,
            Heuristics::SCITerLimit => true,
            Heuristics::SCConstant => true,
            Heuristics::SCFitnessDependent => true,
        }
    }
}

/// Two different heuristics are never shown under the same name, so a
/// name picked from the menu names exactly one heuristic.
pub proof fn lemma_labels_distinct(a: Heuristics, b: Heuristics)
    requires
        a != b,
    ensures
        label_of(a) != label_of(b),
{
    reveal_strlit("Stochastic");
    reveal_strlit("Steepest ascent (one node)");
    reveal_strlit("Steepest ascent (all nodes)");
    reveal_strlit("Stochastic + Simulated cooling (iteration limit)");
    reveal_strlit("Stochastic + Simulated cooling (constant)");
    reveal_strlit("Stochastic + Simulated cooling (fitness dependent)");
    assert(label_of(a).len() != label_of(b).len());
}

} // verus!
