//! Every change keeps a graph well formed.

use super::model::GraphState;
use vstd::prelude::*;

verus! {

/// The empty graph is well formed.
pub proof fn lemma_empty_wf()
    ensures
        GraphState::empty().wf(),
{
    let v = GraphState::empty();
    let rank = |id: usize| 0nat;
    assert(v.ranked_by(rank));
}

/// Creating a node keeps the graph well formed.
pub proof fn lemma_create_wf(v: GraphState, value: i32)
    requires
        v.wf(),
        v.issued <= usize::MAX,
    ensures
        v.create(value).wf(),
{
    let w = v.create(value);
    let fresh = v.issued as usize;
    assert forall|id: usize| #[trigger] w.live(id) implies (id == fresh || v.live(id)) by {}
    assert forall|c: usize| #[trigger] w.parent_alive(c) implies v.parent_alive(c) by {}
    let rank = choose|rank: spec_fn(usize) -> nat| #[trigger] v.ranked_by(rank);
    assert(w.ranked_by(rank));
}

/// Handing out one more reference keeps the graph well formed.
pub proof fn lemma_share_wf(v: GraphState, id: usize)
    requires
        v.wf(),
        v.live(id),
    ensures
        v.share(id).wf(),
{
    let w = v.share(id);
    assert forall|x: usize| w.live(x) == v.live(x) by {}
    assert forall|c: usize| w.parent_alive(c) == v.parent_alive(c) by {}
    let rank = choose|rank: spec_fn(usize) -> nat| #[trigger] v.ranked_by(rank);
    assert(w.ranked_by(rank));
}

/// Attaching a child where nothing forbids it keeps the graph well formed.
pub proof fn lemma_attach_wf(v: GraphState, parent: usize, child: usize)
    requires
        v.wf(),
        v.attach_refusal(parent, child) is None,
    ensures
        v.attach(parent, child).wf(),
{
    let w = v.attach(parent, child);
    assert forall|x: usize| w.live(x) == v.live(x) by {}
    assert forall|x: usize| w.parent_alive(x) == (v.parent_alive(x) || x == child) by {}
    let old_children = v.nodes[parent].children;
    let rank = choose|rank: spec_fn(usize) -> nat| #[trigger] v.ranked_by(rank);
    let lifted = |x: usize|
        if v.reaches(x, child) {
            rank(x) + rank(parent) + 1
        } else {
            rank(x)
        };
    assert(w.ranked_by(lifted));
    assert(w.parents_list_children()) by {
        assert forall|c: usize| #[trigger] w.parent_alive(c) implies w.nodes[w.parent_of(
            c,
        )].children.contains(c) by {
            if c == child {
                assert(w.nodes[parent].children[old_children.len() as int] == child);
            } else {
                let q = v.parent_of(c);
                let i = choose|i: int|
                    0 <= i < v.nodes[q].children.len() && v.nodes[q].children[i] == c;
                assert(w.nodes[q].children[i] == c);
            }
        }
    }
}

/// Giving up a reference that is held outside the graph keeps the graph
/// well formed.
pub proof fn lemma_release_wf(v: GraphState, root: usize)
    requires
        v.wf(),
        v.can_release(root),
    ensures
        v.release(root).wf(),
{
    let w = v.release(root);
    assert forall|c: usize| #[trigger] w.parent_alive(c) implies v.parent_alive(c)
        && w.parent_of(c) == v.parent_of(c) by {}
    let rank = choose|rank: spec_fn(usize) -> nat| #[trigger] v.ranked_by(rank);
    assert(w.ranked_by(rank));
}

} // verus!
