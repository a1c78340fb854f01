//! What holds of every well-formed graph and of every change to it.

use super::model::{lemma_depth_shrinks, GraphState, Step};
use super::preservation::{lemma_attach_wf, lemma_create_wf, lemma_release_wf, lemma_share_wf};
use vstd::prelude::*;
use vstd::set_lib::{lemma_set_difference_len, lemma_set_subset_finite};

verus! {

/// The back-references to a live node are held by its children and by no
/// other node, one by each child: the weak count of a node is the number of
/// its children.
pub proof fn lemma_back_refs_are_children(v: GraphState, id: usize)
    requires
        v.wf(),
        v.live(id),
    ensures
        v.back_refs(id) == v.nodes[id].children.to_set(),
        v.weak_count(id) == v.nodes[id].children.len(),
{
    let kids = v.nodes[id].children;
    assert forall|n: usize| v.back_refs(id).contains(n) == kids.to_set().contains(n) by {
        if v.back_refs(id).contains(n) {
            assert(v.parent_alive(n));
        }
    }
    kids.unique_seq_to_set();
}

/// Every change keeps a well-formed graph well formed.
pub proof fn lemma_step_wf(v: GraphState, step: Step)
    requires
        v.wf(),
        v.enabled(step),
    ensures
        v.apply(step).wf(),
{
    match step {
        Step::Create { value } => lemma_create_wf(v, value),
        Step::Share { id } => lemma_share_wf(v, id),
        Step::Attach { parent, child } => lemma_attach_wf(v, parent, child),
        Step::Release { id } => lemma_release_wf(v, id),
    }
}

/// Every run of changes keeps a well-formed graph well formed.
pub proof fn lemma_run_wf(v: GraphState, steps: Seq<Step>)
    requires
        v.wf(),
        v.admits(steps),
    ensures
        v.run(steps).wf(),
    decreases steps.len(),
{
    if steps.len() > 0 {
        lemma_run_wf(v, steps.drop_last());
        lemma_step_wf(v.run(steps.drop_last()), steps.last());
    }
}

/// A node that was just created has one owner, its creator; no
/// back-reference names it, and it has no parent to resolve.
pub proof fn lemma_fresh_node(v: GraphState, value: i32)
    requires
        v.wf(),
        v.issued <= usize::MAX,
    ensures
        !v.live(v.issued as usize),
        v.create(value).live(v.issued as usize),
        v.create(value).strong_count(v.issued as usize) == 1,
        v.create(value).weak_count(v.issued as usize) == 0,
        v.create(value).resolved_parent(v.issued as usize) is None,
        v.create(value).value_of(v.issued as usize) == Some(value),
{
    lemma_create_wf(v, value);
    lemma_back_refs_are_children(v.create(value), v.issued as usize);
}

/// Right after a child has been attached, its back-reference resolves to
/// the node it was attached under.
pub proof fn lemma_attach_sets_parent(v: GraphState, parent: usize, child: usize)
    requires
        v.wf(),
        v.attach_refusal(parent, child) is None,
    ensures
        v.attach(parent, child).resolved_parent(child) == Some(parent),
        v.attach(parent, child).children_of(parent) == v.children_of(parent).push(child),
{
}

/// Attaching changes no count of owners: the reference that the caller held
/// to the child has become the parent's. It adds one back-reference to the
/// parent and none to any other node.
pub proof fn lemma_attach_counts(v: GraphState, parent: usize, child: usize, x: usize)
    requires
        v.wf(),
        v.attach_refusal(parent, child) is None,
    ensures
        v.attach(parent, child).live(x) == v.live(x),
        v.attach(parent, child).strong_count(x) == v.strong_count(x),
        v.attach(parent, child).weak_count(x) == if x == parent {
            v.weak_count(x) + 1
        } else {
            v.weak_count(x)
        },
{
    let w = v.attach(parent, child);
    lemma_attach_wf(v, parent, child);
    if v.live(x) {
        lemma_back_refs_are_children(v, x);
        lemma_back_refs_are_children(w, x);
    }
}

/// How the counts of a node that lives before and after a change differ.
/// The count of owners grows by one with a reference that is handed out to
/// the node, and drops by one with a reference to it that is given up, be it
/// the caller's or that of a parent that is reclaimed. The count of
/// back-references grows by one with a child that is attached under the
/// node. Nothing else changes either count; in particular no back-reference
/// to a node is dropped while the node lives, since the nodes that hold one
/// are its children, which it owns.
pub proof fn lemma_counts_after_step(v: GraphState, step: Step, x: usize)
    requires
        v.wf(),
        v.enabled(step),
        v.live(x),
        v.apply(step).live(x),
    ensures
        v.apply(step).strong_count(x) == match step {
            Step::Share { id } if id == x => v.strong_count(x) + 1,
            Step::Release { id } if v.loses_owner(id, x) => (v.strong_count(x) - 1) as nat,
            _ => v.strong_count(x),
        },
        v.apply(step).weak_count(x) == match step {
            Step::Attach { parent, child } if parent == x => v.weak_count(x) + 1,
            _ => v.weak_count(x),
        },
{
    let w = v.apply(step);
    lemma_step_wf(v, step);
    lemma_back_refs_are_children(v, x);
    lemma_back_refs_are_children(w, x);
}

/// A node that is reclaimed with `root` is no higher in its tree than
/// `root`.
proof fn lemma_falls_below(v: GraphState, root: usize, x: usize)
    requires
        v.wf(),
        v.falls(root, x),
    ensures
        v.depth(root) <= v.depth(x),
    decreases v.depth(x),
{
    if x != root {
        lemma_depth_shrinks(v, x);
        lemma_falls_below(v, root, v.parent_of(x));
    }
}

/// The owning references to a node that are held outside the graph are
/// those that callers were given and have not given back: their number
/// grows by one with a reference that is handed out, and drops by one with
/// a reference that is given up and with one that is handed over to a
/// parent. It does not change when a parent is reclaimed: the reference
/// that goes then was the parent's.
pub proof fn lemma_handles_after_step(v: GraphState, step: Step, x: usize)
    requires
        v.wf(),
        v.enabled(step),
        v.live(x),
        v.apply(step).live(x),
    ensures
        v.apply(step).handles(x) == match step {
            Step::Share { id } if id == x => v.handles(x) + 1,
            Step::Attach { parent, child } if child == x => v.handles(x) - 1,
            Step::Release { id } if id == x => v.handles(x) - 1,
            _ => v.handles(x),
        },
{
    match step {
        Step::Release { id } => {
            if v.parent_alive(x) && v.falls(id, v.parent_of(x)) {
                lemma_falls_below(v, id, v.parent_of(x));
                lemma_depth_shrinks(v, x);
            }
        },
        _ => {},
    }
}

/// The identifiers below `k` are finitely many.
proof fn lemma_issued_finite(k: nat)
    ensures
        Set::new(|n: usize| n < k).finite(),
    decreases k,
{
    let below = Set::new(|n: usize| n < k);
    if k == 0 {
        assert(below =~= Set::empty());
    } else {
        let before = Set::new(|n: usize| n < (k - 1) as nat);
        lemma_issued_finite((k - 1) as nat);
        if k - 1 <= usize::MAX {
            assert(below =~= before.insert((k - 1) as usize));
        } else {
            assert(below =~= before);
        }
    }
}

/// The back-references that name a node, live or gone, are finitely many,
/// and so are the nodes that are reclaimed with a reference that is given
/// up.
pub proof fn lemma_back_refs_finite(v: GraphState, id: usize, target: usize)
    requires
        v.wf(),
    ensures
        v.back_refs(target).finite(),
        Set::new(|n: usize| v.falls(id, n)).finite(),
{
    let issued = Set::new(|n: usize| n < v.issued);
    lemma_issued_finite(v.issued);
    lemma_set_subset_finite(issued, v.back_refs(target));
    lemma_set_subset_finite(issued, Set::new(|n: usize| v.falls(id, n)));
}

/// A back-reference is dropped when the node that holds it is reclaimed,
/// and at no other time. When a reference is given up, the back-references
/// that name a node, live or gone, are those that named it before and whose
/// holders stay; their number drops by the number of holders that are
/// reclaimed.
pub proof fn lemma_back_refs_after_release(v: GraphState, id: usize, target: usize)
    requires
        v.wf(),
        v.can_release(id),
    ensures
        v.release(id).back_refs(target) == v.back_refs(target).difference(
            Set::new(|n: usize| v.falls(id, n)),
        ),
        v.release(id).back_refs(target).len() == v.back_refs(target).len() - v.back_refs(
            target,
        ).intersect(Set::new(|n: usize| v.falls(id, n))).len(),
{
    let fallen = Set::new(|n: usize| v.falls(id, n));
    lemma_back_refs_finite(v, id, target);
    lemma_set_difference_len(v.back_refs(target), fallen);
}

/// When the last owning reference to a node is given up whose parent is
/// gone already, the back-reference that the node held goes with it: the
/// back-references that name the parent are one fewer, and the parent stays
/// without owners.
pub proof fn lemma_dropped_back_reference(v: GraphState, id: usize, target: usize)
    requires
        v.wf(),
        v.can_release(id),
        v.nodes[id].strong == 1,
        v.nodes[id].parent == Some(target),
    ensures
        !v.live(target),
        v.back_refs(target).contains(id),
        v.release(id).back_refs(target) == v.back_refs(target).remove(id),
        v.release(id).back_refs(target).len() == v.back_refs(target).len() - 1,
        v.release(id).strong_count(target) == v.strong_count(target),
{
    lemma_back_refs_finite(v, id, target);
}

/// A back-reference that is set stays as it is for as long as the node that
/// holds it lives, and resolves to the node it names exactly while that node
/// lives.
pub proof fn lemma_back_reference_is_kept(v: GraphState, step: Step, child: usize)
    requires
        v.wf(),
        v.enabled(step),
        v.live(child),
        v.nodes[child].parent is Some,
        v.apply(step).live(child),
    ensures
        v.apply(step).nodes[child].parent == v.nodes[child].parent,
        v.apply(step).resolved_parent(child) == if v.apply(step).live(v.parent_of(child)) {
            Some(v.parent_of(child))
        } else {
            None
        },
{
}

/// A node that has been reclaimed does not come back, and its identifier is
/// given to no other node.
pub proof fn lemma_gone_stays_gone(v: GraphState, step: Step, id: usize)
    requires
        v.wf(),
        v.enabled(step),
        id < v.issued,
        !v.live(id),
    ensures
        id < v.apply(step).issued,
        !v.apply(step).live(id),
{
}

/// After a child has been attached, whatever happens to the graph: while
/// the child lives, its back-reference resolves to the node it was attached
/// under if that node lives, and to nothing if that node has been reclaimed.
/// A parent that has been reclaimed stays so.
pub proof fn lemma_parent_resolves_until_reclaimed(
    v: GraphState,
    parent: usize,
    child: usize,
    steps: Seq<Step>,
)
    requires
        v.wf(),
        v.attach_refusal(parent, child) is None,
        v.attach(parent, child).admits(steps),
    ensures
        ({
            let w = v.attach(parent, child).run(steps);
            &&& w.wf()
            &&& parent < w.issued
            &&& child < w.issued
            &&& w.live(child) ==> w.nodes[child].parent == Some(parent)
            &&& w.live(child) ==> w.resolved_parent(child) == if w.live(parent) {
                Some(parent)
            } else {
                None
            }
            &&& forall|k: int|
                0 <= k <= steps.len() && !(#[trigger] v.attach(parent, child).run(
                    steps.take(k),
                )).live(parent) ==> !w.live(parent)
        }),
    decreases steps.len(),
{
    let a = v.attach(parent, child);
    let w = a.run(steps);
    lemma_attach_wf(v, parent, child);
    if steps.len() > 0 {
        let before = steps.drop_last();
        let u = a.run(before);
        lemma_parent_resolves_until_reclaimed(v, parent, child, before);
        lemma_step_wf(u, steps.last());
        assert forall|k: int|
            0 <= k <= steps.len() && !(#[trigger] a.run(steps.take(k))).live(parent) implies !w.live(
            parent,
        ) by {
            if k < steps.len() {
                assert(steps.take(k) =~= before.take(k));
            } else {
                assert(steps.take(k) =~= steps);
            }
        }
    }
}

/// Giving up the last owning reference to a node reclaims it, however many
/// back-references name it, and with it every node that it alone kept
/// alive. In the nodes that stay, a back-reference to a reclaimed node
/// resolves to nothing; every other back-reference resolves as before.
pub proof fn lemma_last_owner_reclaims(v: GraphState, id: usize, x: usize)
    requires
        v.wf(),
        v.can_release(id),
        v.nodes[id].strong == 1,
    ensures
        !v.release(id).live(id),
        v.falls(id, x) ==> !v.release(id).live(x),
        v.release(id).live(x) ==> v.release(id).resolved_parent(x) == if v.parent_alive(x)
            && v.falls(id, v.parent_of(x)) {
            None
        } else {
            v.resolved_parent(x)
        },
{
}

/// Nothing but a reference held outside the graph keeps a node alive: every
/// live node is, or has among its live ancestors, a node to which such a
/// reference exists. So a tree to whose nodes no outside reference is left
/// has no live node: back-references hold nothing up.
pub proof fn lemma_held_from_outside(v: GraphState, x: usize) -> (holder: usize)
    requires
        v.wf(),
        v.live(x),
    ensures
        v.reaches(x, holder),
        v.live(holder),
        v.handles(holder) >= 1,
    decreases v.depth(x),
{
    if v.handles(x) >= 1 {
        x
    } else {
        lemma_depth_shrinks(v, x);
        lemma_held_from_outside(v, v.parent_of(x))
    }
}

} // verus!
