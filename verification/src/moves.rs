//! Whether a proposed move of a polygon node is kept.
//!
//! The caller moves a node, measures the new circumference, and reports
//! how it compares with a reference value and whether every point is still
//! covered by the polygon; these functions decide from that report.
use rand::Rng;
use vstd::prelude::*;

use crate::heuristics::Heuristics;

verus! {

/// How a freshly measured circumference compares with a reference value:
/// shorter, equal, longer, or not comparable at all (a measurement that is
/// not a number).
#[derive(Clone, Copy, Debug, PartialEq, Eq, Structural)]
pub enum Change {
    Shorter,
    Same,
    Longer,
    Incomparable,
}

impl Change {
    /// The new circumference is at most the reference.
    pub open spec fn is_not_longer(self) -> bool {
        self is Shorter || self is Same
    }
}

/// Whether a random move that produced `change` against the last recorded
/// circumference is a move for the worse under `method`. The fitness
/// dependent cooling only counts strictly longer circumferences; the other
/// heuristics also count an equal one.
pub open spec fn is_worse(method: Heuristics, change: Change) -> bool {
    if method is SCFitnessDependent {
        change is Longer
    } else {
        change is Longer || change is Same
    }
}

/// Whether a random move is undone: a move for the worse that the random
/// draw does not let through, or any move that leaves a point outside the
/// polygon.
pub open spec fn is_reverted(method: Heuristics, change: Change, draw_passes: bool, points_covered: bool) -> bool {
    (is_worse(method, change) && draw_passes) || !points_covered
}

/// The rule for undoing a random move, spelled out case by case for every
/// heuristic: a move that leaves a point outside is undone; a covering move
/// is undone exactly when its circumference is longer, or equal (except
/// under the fitness dependent cooling), and the random draw passes the
/// threshold; shorter and incomparable covering moves are always kept.
pub proof fn lemma_revert_rule(method: Heuristics, change: Change, draw_passes: bool, points_covered: bool)
    ensures
        !points_covered ==> is_reverted(method, change, draw_passes, points_covered),
        points_covered ==> (is_reverted(method, change, draw_passes, points_covered) <==> (draw_passes && (
        change == Change::Longer || (change == Change::Same && method != Heuristics::SCFitnessDependent)))),
{
}

/// Executable form of [`is_worse`]. The caller draws a random number
/// against the acceptance threshold only when this returns `true`.
pub fn counts_as_worse(method: Heuristics, change: Change) -> (worse: bool)
    ensures
        worse == is_worse(method, change),
{
    match method {
        Heuristics::SCFitnessDependent => match change {
            Change::Longer => true,
            _ => false,
        },
        _ => match change {
            Change::Longer => true,
            Change::Same => true,
            _ => false,
        },
    }
}

/// Decides whether a random move of one node is undone.
///
/// `draw_passes` tells whether the random draw came out at or above the
/// threshold (the chance of a bad step, or the temperature); it only
/// matters for a move for the worse. `points_covered` tells whether every
/// point is inside the moved polygon.
pub fn reverts_move(method: Heuristics, change: Change, draw_passes: bool, points_covered: bool) -> (revert: bool)
    ensures
        revert == is_reverted(method, change, draw_passes, points_covered),
        !points_covered ==> revert,
        change is Shorter && points_covered ==> !revert,
        change is Longer && draw_passes ==> revert,
        change is Same && draw_passes && !(method is SCFitnessDependent) ==> revert,
        !draw_passes && points_covered ==> !revert,
        change is Incomparable && points_covered ==> !revert,
        change is Same && points_covered && method is SCFitnessDependent ==> !revert,
{
    let worse = counts_as_worse(method, change);
    (worse && draw_passes) || !points_covered
}

/// Whether the random-move heuristic `method` records the circumference of
/// the untouched polygon before its first generation: it does so exactly
/// when the history is still empty. Steepest ascent records nothing up
/// front.
pub fn records_initial_circumference(method: Heuristics, history_len: usize) -> (record: bool)
    ensures
        record == (method.moves_randomly() && history_len == 0),
{
    method.moves_nodes_randomly() && history_len == 0
}

/// Whether the fitness dependent cooling lowers the temperature this
/// generation: it does once more than two circumferences are recorded.
pub fn fitness_cooling_applies(history_len: usize) -> (applies: bool)
    ensures
        applies == (history_len > 2),
{
    history_len > 2
}

/// One candidate of a steepest-ascent sweep: direction `direction` is taken
/// as the best so far when its circumference is not longer than the best
/// so far and every point stays covered; otherwise the best stays as it
/// was. `None` stands for the node's original position.
pub fn consider_candidate(best: &mut Option<u32>, direction: u32, change_vs_best: Change, points_covered: bool)
    ensures
        *final(best) == (if change_vs_best.is_not_longer() && points_covered {
            Some(direction)
        } else {
            *old(best)
        }),
{
    let not_longer = match change_vs_best {
        Change::Shorter => true,
        Change::Same => true,
        _ => false,
    };
    if not_longer && points_covered {
        *best = Some(direction);
    }
}

/// The best direction after candidates `0..outcomes.len()` of a sweep were
/// considered in order, `outcomes[j]` being the comparison with the best so
/// far and whether every point was covered for direction `j`.
pub open spec fn sweep_result(outcomes: Seq<(Change, bool)>) -> Option<u32>
    decreases outcomes.len(),
{
    if outcomes.len() == 0 {
        None
    } else {
        let j = outcomes.len() - 1;
        let o = outcomes[j];
        if o.0.is_not_longer() && o.1 {
            Some(j as u32)
        } else {
            sweep_result(outcomes.drop_last())
        }
    }
}

/// A steepest-ascent sweep settles either on the node's original position
/// or on a direction that kept every point covered and was not longer than
/// the best before it; no later direction qualified.
pub proof fn lemma_sweep_settles_on_covered_direction(outcomes: Seq<(Change, bool)>)
    requires
        outcomes.len() <= u32::MAX + 1,
    ensures
        sweep_result(outcomes) matches Some(j) ==> {
            &&& j < outcomes.len()
            &&& outcomes[j as int].1
            &&& outcomes[j as int].0.is_not_longer()
            &&& forall|k: int| j < k < outcomes.len() ==> !(#[trigger] outcomes[k].0.is_not_longer() && outcomes[k].1)
        },
        sweep_result(outcomes) is None ==> forall|k: int|
            0 <= k < outcomes.len() ==> !(#[trigger] outcomes[k].0.is_not_longer() && outcomes[k].1),
    decreases outcomes.len(),
{
    if outcomes.len() > 0 {
        let init = outcomes.drop_last();
        lemma_sweep_settles_on_covered_direction(init);
        assert forall|k: int| 0 <= k < init.len() implies init[k] == outcomes[k] by {}
    }
}

/// Considering one more direction extends the sweep as
/// [`consider_candidate`] does: the sweep over `outcomes` followed by one
/// more candidate ends where that call leaves the best so far.
pub proof fn lemma_sweep_step(outcomes: Seq<(Change, bool)>, next: (Change, bool))
    ensures
        sweep_result(outcomes.push(next)) == (if next.0.is_not_longer() && next.1 {
            Some(outcomes.len() as u32)
        } else {
            sweep_result(outcomes)
        }),
{
    assert(outcomes.push(next).drop_last() =~= outcomes);
}

/// Draws a number uniformly from `0..k` with the thread-local generator.
///
/// Calls `rand::Rng::random_range` on `rand::rng()`. Its contract claims
/// what the rand documentation and source promise: the value lies in the
/// half-open range. `random_range` panics on an empty range, hence
/// `k > 0`. Which value comes out is left open: it rests on chance.
#[verifier::external_body]
fn random_below(k: u8) -> (r: u8)
    requires
        k > 0,
    ensures
        r < k,
{
    rand::rng().random_range(0..k)
}

/// Picks the node that a one-node steepest-ascent step moves: a random
/// index below the polygon's node count `k`.
pub fn random_node(k: u8) -> (i: usize)
    requires
        k > 0,
    ensures
        i < k,
{
    let r = random_below(k);
    r as usize
}

} // verus!
