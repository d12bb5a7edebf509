//! The nodes of a polygon joined into a closed ring.
//!
//! The polygon's edges run from each node to the next one, and from the
//! last node back to the first. Circumference and coverage are both
//! measured edge by edge along this ring.
use vstd::prelude::*;

verus! {

/// The node that an edge starting at node `i` of an `n`-node polygon ends at.
pub open spec fn next_node(i: int, n: int) -> int {
    (i + 1) % n
}

/// The node reached from node `i` after following `k` edges.
pub open spec fn walk(i: int, k: nat, n: int) -> int
    decreases k,
{
    if k == 0 {
        i
    } else {
        next_node(walk(i, (k - 1) as nat, n), n)
    }
}

/// The end of the edge that starts at node `i` of an `n`-node polygon.
pub fn successor(i: usize, n: usize) -> (j: usize)
    requires
        i < n,
    ensures
        j == next_node(i as int, n as int),
        j < n,
        j == (if i + 1 == n { 0 } else { i + 1 }),
{
    let j = (i + 1) % n;
    assert(j == (if i + 1 == n { 0 } else { i + 1 })) by {
        if i + 1 == n {
            vstd::arithmetic::div_mod::lemma_mod_self_0(n as int);
        } else {
            vstd::arithmetic::div_mod::lemma_small_mod((i + 1) as nat, n as nat);
        }
    }
    j
}

/// Following `k` edges from node `i` lands on node `(i + k) mod n`.
pub proof fn lemma_walk_is_offset(i: int, k: nat, n: int)
    requires
        0 < n,
        0 <= i < n,
    ensures
        walk(i, k, n) == (i + k) % n,
    decreases k,
{
    if k == 0 {
        vstd::arithmetic::div_mod::lemma_small_mod(i as nat, n as nat);
    } else {
        lemma_walk_is_offset(i, (k - 1) as nat, n);
        let x = i + k - 1;
        vstd::arithmetic::div_mod::lemma_add_mod_noop(x, 1, n);
        vstd::arithmetic::div_mod::lemma_mod_twice(x, n);
        if n == 1 {
            assert(1int % 1 == 0) by {
                vstd::arithmetic::div_mod::lemma_mod_self_0(1);
            }
        } else {
            vstd::arithmetic::div_mod::lemma_small_mod(1, n as nat);
        }
    }
}

/// The ring is closed: following all `n` edges from any node comes back
/// to that node.
pub proof fn lemma_ring_closes(i: int, n: int)
    requires
        0 < n,
        0 <= i < n,
    ensures
        walk(i, n as nat, n) == i,
{
    lemma_walk_is_offset(i, n as nat, n);
    vstd::arithmetic::div_mod::lemma_mod_add_multiples_vanish(i, n);
    vstd::arithmetic::div_mod::lemma_small_mod(i as nat, n as nat);
}

/// The ring passes every node: from any node, each node of the polygon is
/// reached after fewer than `n` edges.
pub proof fn lemma_ring_visits_every_node(i: int, j: int, n: int)
    requires
        0 < n,
        0 <= i < n,
        0 <= j < n,
    ensures
        exists|k: nat| k < n && walk(i, k, n) == j,
{
    let k: nat = if j >= i { (j - i) as nat } else { (j - i + n) as nat };
    lemma_walk_is_offset(i, k, n);
    if j >= i {
        vstd::arithmetic::div_mod::lemma_small_mod(j as nat, n as nat);
    } else {
        vstd::arithmetic::div_mod::lemma_mod_add_multiples_vanish(j, n);
        vstd::arithmetic::div_mod::lemma_small_mod(j as nat, n as nat);
    }
    assert(walk(i, k, n) == j);
}

/// Each node ends exactly one edge: different nodes have different
/// successors.
pub proof fn lemma_successor_injective(a: int, b: int, n: int)
    requires
        0 <= a < n,
        0 <= b < n,
        next_node(a, n) == next_node(b, n),
    ensures
        a == b,
{
    if a + 1 == n {
        vstd::arithmetic::div_mod::lemma_mod_self_0(n);
    } else {
        vstd::arithmetic::div_mod::lemma_small_mod((a + 1) as nat, n as nat);
    }
    if b + 1 == n {
        vstd::arithmetic::div_mod::lemma_mod_self_0(n);
    } else {
        vstd::arithmetic::div_mod::lemma_small_mod((b + 1) as nat, n as nat);
    }
}

} // verus!
