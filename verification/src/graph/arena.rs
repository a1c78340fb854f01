//! The graph itself: nodes in an arena, reached through counted references.

use super::cascade::{in_progress, lemma_cascade_done, lemma_cascade_start, lemma_cascade_step, lemma_owners_drop};
use super::laws::lemma_back_refs_are_children;
use super::preservation::{
    lemma_attach_wf, lemma_create_wf, lemma_empty_wf, lemma_release_wf, lemma_share_wf,
};
use super::model::{lemma_depth_shrinks, AttachError, GraphState, NodeState};
use vstd::prelude::*;

verus! {

/// An owning reference to a node of a `NodeGraph`. It cannot be copied: a
/// second reference to the same node comes from `NodeGraph::share`, and a
/// reference is given up with `NodeGraph::release`, so that the graph's
/// counts are the number of references that exist. A reference that is
/// dropped without being released stays counted, and the node it names stays
/// alive.
#[derive(Debug)]
pub struct NodeRef {
    id: usize,
}

impl View for NodeRef {
    type V = usize;

    /// The identifier of the node that is referred to.
    closed spec fn view(&self) -> usize {
        self.id
    }
}

impl NodeRef {
    /// The identifier of the node that is referred to. Two references are to
    /// the same node of a graph where their identifiers are equal.
    pub fn id(&self) -> (id: usize)
        ensures
            id == self@,
    {
        self.id
    }
}

struct Node {
    value: i32,
    children: Vec<usize>,
    parent: Option<usize>,
    strong: usize,
}

impl Node {
    spec fn state(&self) -> NodeState {
        NodeState {
            value: self.value,
            children: self.children@,
            parent: self.parent,
            strong: self.strong as nat,
        }
    }
}

/// A forest of nodes with counted references. A slot of the arena holds a
/// live node or, once the node is reclaimed, nothing; slots are not used
/// again, so an identifier names one node for ever.
pub struct NodeGraph {
    slots: Vec<Option<Node>>,
}

impl View for NodeGraph {
    type V = GraphState;

    closed spec fn view(&self) -> GraphState {
        GraphState {
            nodes: Map::new(
                |id: usize| id < self.slots@.len() && self.slots@[id as int] is Some,
                |id: usize| self.slots@[id as int]->0.state(),
            ),
            issued: self.slots@.len(),
        }
    }
}

impl NodeGraph {
    /// The invariant of the graph: that of its model.
    pub open spec fn wf(&self) -> bool {
        self@.wf()
    }

    /// A graph without nodes.
    pub fn new() -> (graph: NodeGraph)
        ensures
            graph.wf(),
            graph@ == GraphState::empty(),
    {
        let graph = NodeGraph { slots: Vec::new() };
        proof {
            lemma_empty_wf();
            assert(graph@.nodes =~= GraphState::empty().nodes);
        }
        graph
    }

    /// Whether `id` names a node that has been created and not yet
    /// reclaimed.
    pub fn is_live(&self, id: usize) -> (live: bool)
        ensures
            live == self@.live(id),
    {
        id < self.slots.len() && self.slots[id].is_some()
    }

    /// Creates a node with `value`, without parent and without children, and
    /// returns the one owning reference to it.
    pub fn create_node(&mut self, value: i32) -> (node: NodeRef)
        requires
            old(self).wf(),
        ensures
            final(self).wf(),
            final(self)@ == old(self)@.create(value),
            node@ == old(self)@.issued,
            !old(self)@.live(node@),
    {
        let id = self.slots.len();
        self.slots.push(Some(Node { value, children: Vec::new(), parent: None, strong: 1 }));
        proof {
            assert(self@.nodes =~= old(self)@.create(value).nodes);
            lemma_create_wf(old(self)@, value);
        }
        NodeRef { id }
    }

    /// Counts one more owning reference to the live node `id`.
    fn add_owner(&mut self, id: usize)
        requires
            old(self)@.can_share(id),
        ensures
            final(self)@ == old(self)@.share(id),
    {
        let slot = &mut self.slots[id];
        match slot {
            Some(node) => {
                node.strong = node.strong + 1;
            },
            None => {},
        }
        proof {
            assert(self@.nodes =~= old(self)@.share(id).nodes);
        }
    }

    /// Another owning reference to the node of `node`. There is none where
    /// the node is not a live node of this graph, or where its count of
    /// owners cannot grow.
    pub fn share(&mut self, node: &NodeRef) -> (shared: Option<NodeRef>)
        requires
            old(self).wf(),
        ensures
            final(self).wf(),
            shared is Some <==> old(self)@.can_share(node@),
            shared matches Some(other) ==> other@ == node@,
            final(self)@ == if shared is Some {
                old(self)@.share(node@)
            } else {
                old(self)@
            },
    {
        let id = node.id;
        if self.strong_of(id) == 0 || self.strong_of(id) == usize::MAX {
            return None;
        }
        self.add_owner(id);
        proof {
            lemma_share_wf(old(self)@, id);
        }
        Some(NodeRef { id })
    }

    /// The count of owners that the arena holds for `id`; zero where `id` is
    /// no live node.
    fn strong_of(&self, id: usize) -> (count: usize)
        ensures
            count == if self@.live(id) {
                self@.nodes[id].strong
            } else {
                0
            },
    {
        if id < self.slots.len() {
            match &self.slots[id] {
                Some(node) => node.strong,
                None => 0,
            }
        } else {
            0
        }
    }

    /// The back-reference of `id`, whether or not the node it names is live;
    /// none where `id` is no live node.
    fn parent_link(&self, id: usize) -> (link: Option<usize>)
        ensures
            link == if self@.live(id) {
                self@.nodes[id].parent
            } else {
                None
            },
    {
        if id < self.slots.len() {
            match &self.slots[id] {
                Some(node) => node.parent,
                None => None,
            }
        } else {
            None
        }
    }

    /// The live parent of `id`, if it has one.
    fn live_parent(&self, id: usize) -> (parent: Option<usize>)
        ensures
            parent == self@.resolved_parent(id),
    {
        match self.parent_link(id) {
            Some(p) => if self.is_live(p) {
                Some(p)
            } else {
                None
            },
            None => None,
        }
    }

    /// Whether `to` is `from` or one of its live ancestors.
    fn reaches(&self, from: usize, to: usize) -> (found: bool)
        requires
            self.wf(),
        ensures
            found == self@.reaches(from, to),
    {
        let mut at = from;
        loop
            invariant
                self.wf(),
                self@.reaches(from, to) == self@.reaches(at, to),
            decreases self@.depth(at),
        {
            if at == to {
                return true;
            }
            match self.live_parent(at) {
                Some(p) => {
                    proof {
                        lemma_depth_shrinks(self@, at);
                    }
                    at = p;
                },
                None => {
                    return false;
                },
            }
        }
    }

    /// Attaches `child` under `parent`: the parent lists the child after the
    /// children it has, and the child's back-reference names the parent. The
    /// reference `child` passes to the parent, so the child's count of
    /// owners stays as it is.
    ///
    /// A child is attached once in its life. The call is refused, and the
    /// reference handed back, where either node is not a live node of this
    /// graph, where the child has been attached before, and where the child
    /// is the parent or one of its ancestors.
    pub fn attach_child(&mut self, parent: &NodeRef, child: NodeRef) -> (result: Result<
        (),
        (AttachError, NodeRef),
    >)
        requires
            old(self).wf(),
        ensures
            final(self).wf(),
            match result {
                Ok(()) => old(self)@.attach_refusal(parent@, child@) is None && final(self)@ == old(
                    self,
                )@.attach(parent@, child@),
                Err((reason, back)) => old(self)@.attach_refusal(parent@, child@) == Some(reason)
                    && back@ == child@ && final(self)@ == old(self)@,
            },
    {
        let p = parent.id;
        let c = child.id;
        if !self.is_live(p) || !self.is_live(c) {
            return Err((AttachError::Stale, child));
        }
        if self.parent_link(c).is_some() {
            return Err((AttachError::AlreadyAttached, child));
        }
        if self.reaches(p, c) {
            return Err((AttachError::WouldCycle, child));
        }
        match &mut self.slots[c] {
            Some(node) => {
                node.parent = Some(p);
            },
            None => {},
        }
        match &mut self.slots[p] {
            Some(node) => {
                node.children.push(c);
            },
            None => {},
        }
        proof {
            assert(self@.nodes =~= old(self)@.attach(p, c).nodes);
            lemma_attach_wf(old(self)@, p, c);
        }
        Ok(())
    }

    /// Follows the back-reference of `node` and returns an owning reference
    /// to its parent. There is none where the node was never attached, where
    /// its parent has been reclaimed, where `node` itself is not a live node
    /// of this graph, or where the parent's count of owners cannot grow. The
    /// back-reference itself is no owner: only the reference that is
    /// returned is counted, and only until it is released.
    pub fn resolve_parent(&mut self, node: &NodeRef) -> (parent: Option<NodeRef>)
        requires
            old(self).wf(),
        ensures
            final(self).wf(),
            match parent {
                Some(p) => old(self)@.resolved_parent(node@) == Some(p@) && old(self)@.can_share(
                    p@,
                ) && final(self)@ == old(self)@.share(p@),
                None => (old(self)@.resolved_parent(node@) matches Some(p) ==> !old(
                    self,
                )@.can_share(p)) && final(self)@ == old(self)@,
            },
    {
        match self.live_parent(node.id) {
            Some(p) => {
                if self.strong_of(p) == usize::MAX {
                    return None;
                }
                self.add_owner(p);
                proof {
                    lemma_share_wf(old(self)@, p);
                }
                Some(NodeRef { id: p })
            },
            None => None,
        }
    }

    /// The number of owning references to the node of `node`: those held
    /// outside the graph and the one its live parent holds. Zero where the
    /// node is no live node of this graph.
    pub fn strong_count(&self, node: &NodeRef) -> (count: usize)
        ensures
            count == self@.strong_count(node@),
    {
        self.strong_of(node.id)
    }

    /// The number of back-references that name the node of `node`: one for
    /// each live node that was attached under it. Zero where the node is no
    /// live node of this graph.
    pub fn weak_count(&self, node: &NodeRef) -> (count: usize)
        requires
            self.wf(),
        ensures
            count == self@.weak_count(node@),
    {
        let id = node.id;
        if id < self.slots.len() {
            match &self.slots[id] {
                Some(found) => {
                    proof {
                        lemma_back_refs_are_children(self@, id);
                    }
                    found.children.len()
                },
                None => 0,
            }
        } else {
            0
        }
    }

    /// The payload of the node of `node`, if it is a live node of this
    /// graph.
    pub fn value(&self, node: &NodeRef) -> (value: Option<i32>)
        ensures
            value == self@.value_of(node@),
    {
        let id = node.id;
        if id < self.slots.len() {
            match &self.slots[id] {
                Some(found) => Some(found.value),
                None => None,
            }
        } else {
            None
        }
    }

    /// The identifiers of the children of the node of `node`, in the order
    /// in which they were attached. Empty where the node is no live node of
    /// this graph.
    pub fn children(&self, node: &NodeRef) -> (ids: Vec<usize>)
        ensures
            ids@ == self@.children_of(node@),
    {
        let id = node.id;
        let mut ids: Vec<usize> = Vec::new();
        if id < self.slots.len() {
            match &self.slots[id] {
                Some(found) => {
                    let mut i: usize = 0;
                    while i < found.children.len()
                        invariant
                            i <= found.children.len(),
                            ids@ == found.children@.take(i as int),
                        decreases found.children.len() - i,
                    {
                        ids.push(found.children[i]);
                        i = i + 1;
                    }
                },
                None => {},
            }
        }
        ids
    }

    /// Lets the live node `x` lose one owner. Where that was its last, the
    /// node is reclaimed and its children are added to `pending`: each of
    /// them has an owner to lose.
    fn drop_owner(&mut self, x: usize, pending: &mut Vec<usize>)
        requires
            old(self)@.live(x),
            old(self)@.nodes[x].strong >= 1,
        ensures
            final(self)@ == old(self)@.drop_owner(x),
            final(pending)@ == old(pending)@ + old(self)@.orphans(x),
    {
        let slot = &mut self.slots[x];
        let last = match slot {
            Some(node) => {
                if node.strong > 1 {
                    node.strong = node.strong - 1;
                    false
                } else {
                    true
                }
            },
            None => false,
        };
        if last {
            let slot = &mut self.slots[x];
            match slot.take() {
                Some(node) => {
                    let mut children = node.children;
                    pending.append(&mut children);
                },
                None => {},
            }
        }
        proof {
            assert(self@.nodes =~= old(self)@.drop_owner(x).nodes);
        }
    }

    /// Gives up the owning reference `node`. The node's count of owners
    /// drops by one. Where that leaves the node without an owner it is
    /// reclaimed, whatever back-references name it, and each of its children
    /// loses the owner it had in it, and so on down the tree.
    ///
    /// Returns whether the reference was given up. It is not, and the graph
    /// stays as it is, where the node is no live node of this graph or where
    /// no owning reference to it is held outside the graph.
    pub fn release(&mut self, node: NodeRef) -> (released: bool)
        requires
            old(self).wf(),
        ensures
            final(self).wf(),
            released == old(self)@.can_release(node@),
            final(self)@ == if released {
                old(self)@.release(node@)
            } else {
                old(self)@
            },
    {
        let root = node.id;
        let strong = self.strong_of(root);
        if strong == 0 || (strong == 1 && self.live_parent(root).is_some()) {
            return false;
        }
        let mut pending: Vec<usize> = Vec::new();
        self.drop_owner(root, &mut pending);
        proof {
            assert(old(self)@.issued == old(self).slots.len());
            lemma_cascade_start(old(self)@, root);
        }
        while pending.len() > 0
            invariant
                in_progress(old(self)@, root, self@, pending@),
            decreases self@.owners(),
        {
            let ghost before = self@;
            let ghost waiting = pending@;
            let x = pending.pop().unwrap();
            proof {
                assert(waiting.contains(x));
            }
            self.drop_owner(x, &mut pending);
            proof {
                lemma_cascade_step(old(self)@, root, before, waiting);
                lemma_owners_drop(before, x, before.issued);
            }
        }
        proof {
            lemma_cascade_done(old(self)@, root, self@);
            lemma_release_wf(old(self)@, root);
        }
        true
    }
}

} // verus!
