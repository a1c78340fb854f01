//! The mathematical model of the node graph: what a graph is, when it is
//! well formed, and what each operation makes of it.

use vstd::prelude::*;

verus! {

/// One live node.
pub struct NodeState {
    /// The payload.
    pub value: i32,
    /// The children this node owns, in the order in which they were attached.
    pub children: Seq<usize>,
    /// The node this one was attached under, if it ever was. The link is
    /// never cleared, so it may name a node that is gone.
    pub parent: Option<usize>,
    /// How many owning references to this node exist: those held outside the
    /// graph, and one more while a live parent holds it among its children.
    pub strong: nat,
}

/// A graph: its live nodes by identifier, and how many identifiers it has
/// handed out. Identifiers are never used twice.
pub struct GraphState {
    pub nodes: Map<usize, NodeState>,
    pub issued: nat,
}

/// Why a child was not attached.
#[derive(Clone, Copy, Debug, PartialEq, Eq, Structural)]
pub enum AttachError {
    /// The parent or the child is not a live node of this graph.
    Stale,
    /// The child has been attached before.
    AlreadyAttached,
    /// The child is the parent itself or one of its ancestors.
    WouldCycle,
}

/// One change that a graph can undergo.
pub enum Step {
    /// A node with this value is created.
    Create { value: i32 },
    /// One more owning reference to `id` is handed out, to a caller that
    /// shares one or that resolves the back-reference of a child of `id`.
    Share { id: usize },
    /// `child` is attached under `parent`.
    Attach { parent: usize, child: usize },
    /// An owning reference to `id` that is held outside the graph is given
    /// up.
    Release { id: usize },
}

impl GraphState {
    /// The graph without nodes.
    pub open spec fn empty() -> GraphState {
        GraphState { nodes: Map::empty(), issued: 0 }
    }

    /// `id` names a node that has been created and not yet reclaimed.
    pub open spec fn live(self, id: usize) -> bool {
        self.nodes.contains_key(id)
    }

    /// The node that `id`'s back-reference names. Meaningful where the
    /// back-reference is set.
    pub open spec fn parent_of(self, id: usize) -> usize {
        self.nodes[id].parent.unwrap()
    }

    /// `id` is live, was attached, and the node it was attached under is
    /// still live.
    pub open spec fn parent_alive(self, id: usize) -> bool {
        &&& self.live(id)
        &&& self.nodes[id].parent is Some
        &&& self.live(self.parent_of(id))
    }

    /// What following the back-reference of `id` finds: the parent while it
    /// lives, and nothing otherwise.
    pub open spec fn resolved_parent(self, id: usize) -> Option<usize> {
        if self.parent_alive(id) {
            Some(self.parent_of(id))
        } else {
            None
        }
    }

    /// The number of owning references to `id`; zero for a node that is gone.
    pub open spec fn strong_count(self, id: usize) -> nat {
        if self.live(id) {
            self.nodes[id].strong
        } else {
            0
        }
    }

    /// The live nodes whose back-reference names `id`.
    pub open spec fn back_refs(self, id: usize) -> Set<usize> {
        Set::new(|n: usize| self.live(n) && self.nodes[n].parent == Some(id))
    }

    /// The number of back-references to `id`; zero for a node that is gone.
    pub open spec fn weak_count(self, id: usize) -> nat {
        if self.live(id) {
            self.back_refs(id).len()
        } else {
            0
        }
    }

    /// The payload of `id`, if `id` is live.
    pub open spec fn value_of(self, id: usize) -> Option<i32> {
        if self.live(id) {
            Some(self.nodes[id].value)
        } else {
            None
        }
    }

    /// The children of `id` in the order of their attachment; none for a
    /// node that is gone.
    pub open spec fn children_of(self, id: usize) -> Seq<usize> {
        if self.live(id) {
            self.nodes[id].children
        } else {
            Seq::empty()
        }
    }

    /// The number of owning references to `id` that are held outside the
    /// graph: all of them but the one a live parent holds.
    pub open spec fn handles(self, id: usize) -> int {
        if self.parent_alive(id) {
            self.nodes[id].strong - 1
        } else {
            self.nodes[id].strong as int
        }
    }

    /// `rank` grows along every edge from a live parent to its child.
    pub open spec fn ranked_by(self, rank: spec_fn(usize) -> nat) -> bool {
        forall|c: usize| #[trigger] self.parent_alive(c) ==> rank(self.parent_of(c)) < rank(c)
    }

    /// Ownership never runs in a circle.
    pub open spec fn acyclic(self) -> bool {
        exists|rank: spec_fn(usize) -> nat| #[trigger] self.ranked_by(rank)
    }

    /// A measure that shrinks on every step from a node to its live parent.
    pub closed spec fn depth(self, id: usize) -> nat {
        (choose|rank: spec_fn(usize) -> nat| #[trigger] self.ranked_by(rank))(id)
    }

    /// Every child that a live node lists is live and points back to it.
    pub open spec fn children_point_back(self) -> bool {
        forall|p: usize, i: int|
            self.live(p) && 0 <= i < self.nodes[p].children.len() ==> {
                let c = #[trigger] self.nodes[p].children[i];
                self.live(c) && self.nodes[c].parent == Some(p)
            }
    }

    /// Every node with a live parent is listed among that parent's children.
    pub open spec fn parents_list_children(self) -> bool {
        forall|c: usize| #[trigger]
            self.parent_alive(c) ==> self.nodes[self.parent_of(c)].children.contains(c)
    }

    /// The invariant of a graph.
    pub open spec fn wf(self) -> bool {
        &&& forall|id: usize| #[trigger] self.live(id) ==> id < self.issued
        &&& forall|id: usize| #[trigger] self.live(id) ==> self.nodes[id].strong >= 1
        &&& forall|id: usize| #[trigger]
            self.live(id) ==> self.nodes[id].children.no_duplicates()
        &&& forall|id: usize|
            #[trigger] self.live(id) && self.nodes[id].parent is Some ==> self.parent_of(id)
                < self.issued
        &&& self.children_point_back()
        &&& self.parents_list_children()
        &&& self.acyclic()
    }

    /// The graph after a node with `value` has been created. The new node
    /// gets the next identifier, and its creator holds the one reference to
    /// it.
    pub open spec fn create(self, value: i32) -> GraphState {
        GraphState {
            nodes: self.nodes.insert(
                self.issued as usize,
                NodeState { value, children: Seq::empty(), parent: None, strong: 1 },
            ),
            issued: self.issued + 1,
        }
    }

    /// One more owning reference to `id` can be counted.
    pub open spec fn can_share(self, id: usize) -> bool {
        self.live(id) && self.nodes[id].strong < usize::MAX
    }

    /// The graph after one more owning reference to `id` has been handed out.
    pub open spec fn share(self, id: usize) -> GraphState {
        GraphState {
            nodes: self.nodes.insert(
                id,
                NodeState { strong: self.nodes[id].strong + 1, ..self.nodes[id] },
            ),
            ..self
        }
    }

    /// `to` is `from` itself or one of the live ancestors of `from`.
    pub open spec fn reaches(self, from: usize, to: usize) -> bool
        decreases self.depth(from),
        when self.acyclic()
        via Self::reaches_decreases
    {
        from == to || (self.parent_alive(from) && self.reaches(self.parent_of(from), to))
    }

    #[via_fn]
    proof fn reaches_decreases(self, from: usize, to: usize) {
        if self.parent_alive(from) {
            lemma_depth_shrinks(self, from);
        }
    }

    /// Why `child` cannot be attached under `parent`, or `None` where it can.
    pub open spec fn attach_refusal(self, parent: usize, child: usize) -> Option<AttachError> {
        if !self.live(parent) || !self.live(child) {
            Some(AttachError::Stale)
        } else if self.nodes[child].parent is Some {
            Some(AttachError::AlreadyAttached)
        } else if self.reaches(parent, child) {
            Some(AttachError::WouldCycle)
        } else {
            None
        }
    }

    /// The graph after `child` has been attached under `parent`: the parent
    /// lists the child last, and the child points back to the parent. The
    /// reference that the caller held to the child is now the parent's, so
    /// no count changes.
    pub open spec fn attach(self, parent: usize, child: usize) -> GraphState {
        GraphState {
            nodes: self.nodes.insert(
                parent,
                NodeState {
                    children: self.nodes[parent].children.push(child),
                    ..self.nodes[parent]
                },
            ).insert(child, NodeState { parent: Some(parent), ..self.nodes[child] }),
            ..self
        }
    }

    /// `x` is reclaimed when one owning reference to `root` is given up: it
    /// has a single owner, and either it is `root` or its parent is
    /// reclaimed.
    pub open spec fn falls(self, root: usize, x: usize) -> bool
        decreases self.depth(x),
        when self.acyclic()
        via Self::falls_decreases
    {
        &&& self.live(x)
        &&& self.nodes[x].strong == 1
        &&& (x == root || (self.parent_alive(x) && self.falls(root, self.parent_of(x))))
    }

    #[via_fn]
    proof fn falls_decreases(self, root: usize, x: usize) {
        if self.parent_alive(x) {
            lemma_depth_shrinks(self, x);
        }
    }

    /// `x` loses one owner when one owning reference to `root` is given up:
    /// it is `root`, or its parent is reclaimed.
    pub open spec fn loses_owner(self, root: usize, x: usize) -> bool {
        x == root || (self.parent_alive(x) && self.falls(root, self.parent_of(x)))
    }

    /// An owning reference to `id` is held outside the graph, so one can be
    /// given up.
    pub open spec fn can_release(self, id: usize) -> bool {
        self.live(id) && self.handles(id) >= 1
    }

    /// The graph after one owning reference to `id` that was held outside
    /// the graph has been given up. Every node that is left without an owner
    /// is reclaimed, and with it the references it held to its children. The
    /// nodes that stay keep their value, their children and their
    /// back-reference.
    pub open spec fn release(self, id: usize) -> GraphState {
        GraphState {
            nodes: Map::new(
                |x: usize| self.live(x) && !self.falls(id, x),
                |x: usize|
                    NodeState {
                        strong: if self.loses_owner(id, x) {
                            (self.nodes[x].strong - 1) as nat
                        } else {
                            self.nodes[x].strong
                        },
                        ..self.nodes[x]
                    },
            ),
            ..self
        }
    }

    /// The graph after `x` has lost one owner, before the references that
    /// `x` held are given up in turn: the count of `x` drops, and `x` is
    /// gone where that was its last owner.
    pub open spec fn drop_owner(self, x: usize) -> GraphState {
        if self.nodes[x].strong > 1 {
            GraphState {
                nodes: self.nodes.insert(
                    x,
                    NodeState { strong: (self.nodes[x].strong - 1) as nat, ..self.nodes[x] },
                ),
                ..self
            }
        } else {
            GraphState { nodes: self.nodes.remove(x), ..self }
        }
    }

    /// The nodes that lose an owner because `x` lost one: its children where
    /// that was its last owner, none otherwise.
    pub open spec fn orphans(self, x: usize) -> Seq<usize> {
        if self.nodes[x].strong > 1 {
            Seq::empty()
        } else {
            self.nodes[x].children
        }
    }

    /// The owning references to the nodes with an identifier below `n`.
    pub open spec fn owners_below(self, n: nat) -> nat
        decreases n,
    {
        if n == 0 {
            0
        } else {
            self.owners_below((n - 1) as nat) + self.strong_count((n - 1) as usize)
        }
    }

    /// All owning references in the graph.
    pub open spec fn owners(self) -> nat {
        self.owners_below(self.issued)
    }

    /// `step` can be taken in this graph.
    pub open spec fn enabled(self, step: Step) -> bool {
        match step {
            Step::Create { value } => self.issued <= usize::MAX,
            Step::Share { id } => self.can_share(id),
            Step::Attach { parent, child } => self.attach_refusal(parent, child) is None,
            Step::Release { id } => self.can_release(id),
        }
    }

    /// The graph after `step`.
    pub open spec fn apply(self, step: Step) -> GraphState {
        match step {
            Step::Create { value } => self.create(value),
            Step::Share { id } => self.share(id),
            Step::Attach { parent, child } => self.attach(parent, child),
            Step::Release { id } => self.release(id),
        }
    }

    /// Each of `steps` can be taken in the graph that the steps before it
    /// have made of this one.
    pub open spec fn admits(self, steps: Seq<Step>) -> bool
        decreases steps.len(),
    {
        steps.len() > 0 ==> self.admits(steps.drop_last()) && self.run(steps.drop_last()).enabled(
            steps.last(),
        )
    }

    /// The graph after `steps`, taken in order.
    pub open spec fn run(self, steps: Seq<Step>) -> GraphState
        decreases steps.len(),
    {
        if steps.len() == 0 {
            self
        } else {
            self.run(steps.drop_last()).apply(steps.last())
        }
    }
}

/// The depth shrinks on every step from a node to its live parent.
pub proof fn lemma_depth_shrinks(v: GraphState, c: usize)
    requires
        v.acyclic(),
        v.parent_alive(c),
    ensures
        v.depth(v.parent_of(c)) < v.depth(c),
{
    let rank = choose|rank: spec_fn(usize) -> nat| #[trigger] v.ranked_by(rank);
    assert(v.ranked_by(rank));
}

} // verus!
