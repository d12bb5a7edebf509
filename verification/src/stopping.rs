//! When a run of the search stops.
//!
//! Every heuristic but the iteration-limited cooling counts the
//! consecutive generations that did not improve on the generation before:
//! those that ended with a circumference equal to or longer than the last
//! recorded one. A generation that ends shorter clears the count. When the
//! count reaches the configured number of stop generations it is cleared
//! and the run stops. The
//! iteration-limited cooling instead stops once the circumference history
//! holds as many entries as its iteration limit.
use vstd::prelude::*;

use crate::heuristics::Heuristics;
use crate::moves::Change;

verus! {

/// The stagnation rule for one generation: the counter after the
/// generation, and whether the run is still going.
pub open spec fn stagnation_next(counter: u8, started: bool, not_improved: bool, limit: u8) -> (u8, bool) {
    let c: int = if not_improved { counter + 1 } else { 0 };
    if c == limit {
        (0u8, false)
    } else {
        (c as u8, started)
    }
}

/// The stagnation rule applied to a sequence of generations, `outcomes[i]`
/// telling whether generation `i` failed to improve the circumference.
pub open spec fn stagnation_after(counter: u8, started: bool, limit: u8, outcomes: Seq<bool>) -> (u8, bool)
    decreases outcomes.len(),
{
    if outcomes.len() == 0 {
        (counter, started)
    } else {
        let next = stagnation_next(counter, started, outcomes[0], limit);
        stagnation_after(next.0, next.1, limit, outcomes.drop_first())
    }
}

/// Applies the stagnation rule at the end of a generation.
///
/// `not_improved` tells whether the generation failed to improve on the
/// circumference that was recorded last. Such a generation adds one to the
/// counter, an improving one clears it; a counter that then equals
/// `n_o_stop_generations` is cleared and the run is stopped.
pub fn stagnation_update(
    not_improved: bool,
    n_o_stop_generations: u8,
    stop_generation_counter: &mut u8,
    started: &mut bool,
)
    requires
        not_improved ==> *old(stop_generation_counter) < u8::MAX,
    ensures
        (*final(stop_generation_counter), *final(started)) == stagnation_next(
            *old(stop_generation_counter),
            *old(started),
            not_improved,
            n_o_stop_generations,
        ),
        not_improved && *old(stop_generation_counter) + 1 != n_o_stop_generations ==> {
            &&& *final(stop_generation_counter) == *old(stop_generation_counter) + 1
            &&& *final(started) == *old(started)
        },
        not_improved && *old(stop_generation_counter) + 1 == n_o_stop_generations ==> {
            &&& *final(stop_generation_counter) == 0
            &&& !*final(started)
        },
        !not_improved ==> *final(stop_generation_counter) == 0,
        !not_improved ==> *final(started) == (*old(started) && n_o_stop_generations != 0),
{
    if not_improved {
        *stop_generation_counter = *stop_generation_counter + 1;
    } else {
        *stop_generation_counter = 0;
    }
    if *stop_generation_counter == n_o_stop_generations {
        *stop_generation_counter = 0;
        *started = false;
    }
}

/// Applies the iteration limit: the run stops once the circumference
/// history holds at least `iter_limit` entries.
pub fn iteration_limit_update(history_len: usize, iter_limit: usize, started: &mut bool)
    ensures
        *final(started) == (*old(started) && history_len < iter_limit),
{
    if history_len >= iter_limit {
        *started = false;
    }
}

/// Whether a generation whose final circumference compares with the last
/// recorded one as `change` counts toward stopping: every generation that
/// is not better than the previous one counts (equal or longer).
pub open spec fn counts_toward_stop_spec(change: Change) -> bool {
    change is Same || change is Longer
}

/// Executable form of [`counts_toward_stop_spec`].
pub fn counts_toward_stop(change: Change) -> (b: bool)
    ensures
        b == counts_toward_stop_spec(change),
{
    match change {
        Change::Same => true,
        Change::Longer => true,
        _ => false,
    }
}

/// The stopping rule of `method` at the end of a generation.
///
/// `change_vs_last` compares the circumference the generation ended with
/// against the last recorded one (or, for steepest ascent on an empty
/// history, against zero); `history_len` is the number of circumferences
/// recorded before this generation's entry is added.
pub fn finish_generation(
    method: Heuristics,
    change_vs_last: Change,
    history_len: usize,
    iter_limit: usize,
    n_o_stop_generations: u8,
    stop_generation_counter: &mut u8,
    started: &mut bool,
)
    requires
        !method.stops_at_iteration_limit() && counts_toward_stop_spec(change_vs_last)
            ==> *old(stop_generation_counter) < u8::MAX,
    ensures
        *final(started) ==> *old(started),
        method.stops_at_iteration_limit() ==> {
            &&& *final(stop_generation_counter) == *old(stop_generation_counter)
            &&& *final(started) == (*old(started) && history_len < iter_limit)
        },
        !method.stops_at_iteration_limit() ==> (*final(stop_generation_counter), *final(started))
            == stagnation_next(
            *old(stop_generation_counter),
            *old(started),
            counts_toward_stop_spec(change_vs_last),
            n_o_stop_generations,
        ),
{
    match method {
        Heuristics::SCITerLimit => iteration_limit_update(history_len, iter_limit, started),
        _ => {
            let not_improved = counts_toward_stop(change_vs_last);
            stagnation_update(not_improved, n_o_stop_generations, stop_generation_counter, started)
        },
    }
}

/// The count of non-improving generations goes on whether or not the run
/// is started: a generation run by hand while stopped counts just like one
/// of a running search, and a non-improving generation that does not reach
/// the limit adds exactly one to the counter.
pub proof fn lemma_counter_ignores_started(counter: u8, not_improved: bool, limit: u8)
    ensures
        stagnation_next(counter, true, not_improved, limit).0 == stagnation_next(
            counter,
            false,
            not_improved,
            limit,
        ).0,
        not_improved && counter + 1 != limit && counter < u8::MAX ==> stagnation_next(
            counter,
            false,
            true,
            limit,
        ).0 == counter + 1,
        !stagnation_next(counter, false, not_improved, limit).1,
{
}

/// A generation never restarts a stopped run: the stopping rules only ever
/// clear `started`.
pub proof fn lemma_stopped_run_stays_stopped(counter: u8, limit: u8, outcomes: Seq<bool>)
    ensures
        !stagnation_after(counter, false, limit, outcomes).1,
    decreases outcomes.len(),
{
    if outcomes.len() > 0 {
        let next = stagnation_next(counter, false, outcomes[0], limit);
        lemma_stopped_run_stays_stopped(next.0, limit, outcomes.drop_first());
    }
}

/// With a positive number of stop generations, a counter that starts below
/// it stays below it whatever the generations bring; in particular it
/// never reaches the largest `u8`, so the counter never overflows.
pub proof fn lemma_counter_stays_below_limit(counter: u8, started: bool, limit: u8, outcomes: Seq<bool>)
    requires
        0 < limit,
        counter < limit,
    ensures
        stagnation_after(counter, started, limit, outcomes).0 < limit,
    decreases outcomes.len(),
{
    if outcomes.len() > 0 {
        let next = stagnation_next(counter, started, outcomes[0], limit);
        lemma_counter_stays_below_limit(next.0, next.1, limit, outcomes.drop_first());
    }
}

/// With a positive number of stop generations `limit`, a running search
/// whose counter stands at `counter` is still running after `k` further
/// non-improving generations while `counter + k < limit`, with the counter at
/// `counter + k`; the generation that brings the count to `limit` stops
/// the run and clears the counter.
pub proof fn lemma_stops_after_limit_not_improved_generations(counter: u8, limit: u8, k: nat)
    requires
        counter < limit,
        counter + k <= limit,
    ensures
        counter + k < limit ==> stagnation_after(counter, true, limit, Seq::new(k, |i: int| true)) == (
        (counter + k) as u8, true),
        counter + k == limit ==> stagnation_after(counter, true, limit, Seq::new(k, |i: int| true)) == (
        0u8, false),
    decreases k,
{
    let s = Seq::new(k, |i: int| true);
    if k > 0 {
        let next = stagnation_next(counter, true, true, limit);
        assert(s[0]);
        assert(s.drop_first() =~= Seq::new((k - 1) as nat, |i: int| true));
        assert(stagnation_after(counter, true, limit, s) == stagnation_after(
            next.0,
            next.1,
            limit,
            s.drop_first(),
        ));
        if counter + 1 < limit {
            assert(next == ((counter + 1) as u8, true));
            lemma_stops_after_limit_not_improved_generations((counter + 1) as u8, limit, (k - 1) as nat);
        } else {
            assert(next == (0u8, false));
            assert(k == 1);
            assert(stagnation_after(next.0, next.1, limit, s.drop_first()) == next);
        }
    }
}

/// A generation that improves the circumference clears the counter and,
/// with a positive number of stop generations, leaves the run going.
pub proof fn lemma_change_resets_counter(counter: u8, started: bool, limit: u8)
    requires
        0 < limit,
    ensures
        stagnation_next(counter, started, false, limit) == (0u8, started),
{
}

/// One generation of the iteration-limited cooling, followed on the length
/// of the circumference history and the running flag: on an empty history
/// the untouched polygon's circumference is recorded first
/// ([`crate::moves::records_initial_circumference`]), the iteration limit
/// is then checked against the history ([`finish_generation`]), and the
/// generation's own circumference is added last.
pub open spec fn iteration_limited_generation(history_len: nat, started: bool, iter_limit: nat) -> (nat, bool) {
    let before: nat = if history_len == 0 { 1 } else { history_len };
    (before + 1, started && before < iter_limit)
}

/// `k` successive generations of the iteration-limited cooling.
pub open spec fn iteration_limited_run(history_len: nat, started: bool, iter_limit: nat, k: nat) -> (nat, bool)
    decreases k,
{
    if k == 0 {
        (history_len, started)
    } else {
        let prev = iteration_limited_run(history_len, started, iter_limit, (k - 1) as nat);
        iteration_limited_generation(prev.0, prev.1, iter_limit)
    }
}

/// One generation's calls agree with [`iteration_limited_generation`]:
/// `record` is what [`crate::moves::records_initial_circumference`] answers
/// for the cooling on a history of `history_len` entries, and `started_after`
/// is what [`finish_generation`] leaves after the history has grown by that
/// record.
pub proof fn lemma_iteration_limited_generation_calls(
    history_len: nat,
    record: bool,
    started: bool,
    started_after: bool,
    iter_limit: nat,
)
    requires
        record == (Heuristics::SCITerLimit.moves_randomly() && history_len == 0),
        started_after == (started && history_len + (if record { 1int } else { 0 }) < iter_limit),
    ensures
        iteration_limited_generation(history_len, started, iter_limit) == (
        (history_len + (if record { 1int } else { 0 }) + 1) as nat, started_after),
{
}

/// The iteration-limited cooling runs exactly `iter_limit` generations:
/// started on an empty history, after `k >= 1` generations the history
/// holds `k + 1` circumferences and the run is still going exactly when
/// `k < iter_limit`.
pub proof fn lemma_iteration_limited_run_length(started: bool, iter_limit: nat, k: nat)
    requires
        k >= 1,
    ensures
        iteration_limited_run(0, started, iter_limit, k) == ((k + 1) as nat, started && k < iter_limit),
    decreases k,
{
    if k > 1 {
        lemma_iteration_limited_run_length(started, iter_limit, (k - 1) as nat);
    } else {
        assert(iteration_limited_run(0, started, iter_limit, 0) == (0nat, started));
    }
}

} // verus!
