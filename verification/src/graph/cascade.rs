//! Reclamation, one owner at a time.
//!
//! Giving up a reference may leave a node without an owner; the node is then
//! reclaimed, and each of its children loses an owner in turn. The graph
//! works this off from a list of nodes that still have to lose an owner.
//! This module says what holds of the graph while that list is worked off,
//! and that the graph is the one `GraphState::release` describes when the
//! list is empty.

use super::model::{lemma_depth_shrinks, GraphState, NodeState};
use vstd::prelude::*;

verus! {

/// In `cur`, the owner of `x` that goes with the release of `root` is gone
/// already: `x` is `root`, or the parent that `x` had in `v0` is reclaimed.
pub open spec fn owner_gone(v0: GraphState, root: usize, cur: GraphState, x: usize) -> bool {
    x == root || (v0.parent_alive(x) && !cur.live(v0.parent_of(x)))
}

/// What holds between the graph `v0` in which a reference to `root` is given
/// up, the graph `cur` that has been reached, and the nodes in `pending`
/// that still have to lose an owner.
pub open spec fn in_progress(
    v0: GraphState,
    root: usize,
    cur: GraphState,
    pending: Seq<usize>,
) -> bool {
    &&& v0.wf()
    &&& v0.can_release(root)
    &&& v0.issued <= usize::MAX + 1
    &&& cur.issued == v0.issued
    &&& pending.no_duplicates()
    &&& forall|x: usize| #[trigger] cur.live(x) ==> v0.live(x)
    &&& forall|x: usize|
        v0.live(x) && !#[trigger] cur.live(x) ==> v0.falls(root, x) && !cur.live(root)
    &&& forall|x: usize| #[trigger]
        pending.contains(x) ==> cur.live(x) && v0.parent_alive(x) && !cur.live(v0.parent_of(x))
    &&& forall|c: usize| #[trigger]
        v0.parent_alive(c) && cur.live(v0.parent_of(c)) ==> cur.live(c)
    &&& forall|x: usize| #[trigger]
        cur.live(x) ==> cur.nodes[x].strong >= 1 && cur.nodes[x] == NodeState {
            strong: if owner_gone(v0, root, cur, x) && !pending.contains(x) {
                (v0.nodes[x].strong - 1) as nat
            } else {
                v0.nodes[x].strong
            },
            ..v0.nodes[x]
        }
}

/// Once `root` has lost the owner that is given up, the work is in progress.
pub proof fn lemma_cascade_start(v0: GraphState, root: usize)
    requires
        v0.wf(),
        v0.can_release(root),
        v0.issued <= usize::MAX + 1,
    ensures
        in_progress(v0, root, v0.drop_owner(root), v0.orphans(root)),
{
    let cur = v0.drop_owner(root);
    let pending = v0.orphans(root);
    if v0.nodes[root].strong > 1 {
        assert forall|x: usize| cur.live(x) == v0.live(x) by {}
    } else {
        assert forall|x: usize| #[trigger] cur.live(x) implies cur.nodes[x].strong >= 1
            && cur.nodes[x] == (NodeState {
            strong: if owner_gone(v0, root, cur, x) && !pending.contains(x) {
                (v0.nodes[x].strong - 1) as nat
            } else {
                v0.nodes[x].strong
            },
            ..v0.nodes[x]
        }) by {
            assert(v0.live(x));
        }
    }
}

/// Taking the last pending node and letting it lose its owner keeps the work
/// in progress.
pub proof fn lemma_cascade_step(v0: GraphState, root: usize, cur: GraphState, pending: Seq<usize>)
    requires
        in_progress(v0, root, cur, pending),
        pending.len() > 0,
    ensures
        in_progress(
            v0,
            root,
            cur.drop_owner(pending.last()),
            pending.drop_last() + cur.orphans(pending.last()),
        ),
{
    let x = pending.last();
    let rest = pending.drop_last();
    let next = cur.drop_owner(x);
    let more = cur.orphans(x);
    let todo = rest + more;
    assert(pending.contains(x));
    assert forall|y: usize| rest.contains(y) == (pending.contains(y) && y != x) by {
        if pending.contains(y) && y != x {
            let i = choose|i: int| 0 <= i < pending.len() && pending[i] == y;
            assert(rest[i] == y);
        }
    }
    assert forall|y: usize| todo.contains(y) == (rest.contains(y) || more.contains(y)) by {
        if rest.contains(y) {
            let i = choose|i: int| 0 <= i < rest.len() && rest[i] == y;
            assert(todo[i] == y);
        }
        if more.contains(y) {
            let i = choose|i: int| 0 <= i < more.len() && more[i] == y;
            assert(todo[rest.len() + i] == y);
        }
    }
    assert forall|y: usize| more.contains(y) implies v0.live(y) && v0.nodes[y].parent == Some(x)
        && y != x && cur.live(y) && !pending.contains(y) by {}
    if cur.nodes[x].strong > 1 {
        assert forall|y: usize| next.live(y) == cur.live(y) by {}
    } else {
        assert forall|y: usize| next.live(y) == (cur.live(y) && y != x) by {}
    }
}

/// When no node is left that has to lose an owner, every node that is to be
/// reclaimed is gone.
pub proof fn lemma_fallen_are_gone(v0: GraphState, root: usize, cur: GraphState, x: usize)
    requires
        in_progress(v0, root, cur, Seq::empty()),
        v0.falls(root, x),
    ensures
        !cur.live(x),
    decreases v0.depth(x),
{
    if cur.live(x) {
        lemma_depth_shrinks(v0, x);
        lemma_fallen_are_gone(v0, root, cur, v0.parent_of(x));
    }
}

/// When no node is left that has to lose an owner, the graph is the one that
/// `release` describes.
pub proof fn lemma_cascade_done(v0: GraphState, root: usize, cur: GraphState)
    requires
        in_progress(v0, root, cur, Seq::empty()),
    ensures
        cur == v0.release(root),
{
    let w = v0.release(root);
    assert forall|x: usize| cur.live(x) == w.live(x) by {
        if v0.live(x) && v0.falls(root, x) {
            lemma_fallen_are_gone(v0, root, cur, x);
        }
    }
    assert forall|x: usize| cur.nodes.dom().contains(x) == w.nodes.dom().contains(x) by {
        assert(cur.live(x) == w.live(x));
    }
    assert forall|x: usize| cur.nodes.dom().contains(x) implies cur.nodes[x] == w.nodes[x] by {
        assert(cur.live(x));
    }
    assert(cur.nodes =~= w.nodes);
}

/// The count of all owning references drops by one with every owner that a
/// live node loses.
pub proof fn lemma_owners_drop(cur: GraphState, x: usize, n: nat)
    requires
        cur.live(x),
        cur.nodes[x].strong >= 1,
        n <= usize::MAX + 1,
    ensures
        cur.drop_owner(x).owners_below(n) == if x < n {
            (cur.owners_below(n) - 1) as nat
        } else {
            cur.owners_below(n)
        },
        x < n ==> cur.owners_below(n) >= 1,
    decreases n,
{
    if n > 0 {
        lemma_owners_drop(cur, x, (n - 1) as nat);
    }
}

} // verus!
