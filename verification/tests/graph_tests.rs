use primer::graph::{AttachError, NodeGraph, NodeRef};

fn attach(graph: &mut NodeGraph, parent: &NodeRef, child: NodeRef) {
    assert!(graph.attach_child(parent, child).is_ok());
}

fn refused(graph: &mut NodeGraph, parent: &NodeRef, child: NodeRef) -> (AttachError, NodeRef) {
    match graph.attach_child(parent, child) {
        Ok(()) => panic!("the child was attached"),
        Err(back) => back,
    }
}

#[test]
fn fresh_node_has_one_owner_and_no_parent() {
    let mut graph = NodeGraph::new();
    let leaf = graph.create_node(3);
    assert_eq!(graph.strong_count(&leaf), 1);
    assert_eq!(graph.weak_count(&leaf), 0);
    assert_eq!(graph.value(&leaf), Some(3));
    assert!(graph.children(&leaf).is_empty());
    assert!(graph.resolve_parent(&leaf).is_none());
    assert_eq!(graph.strong_count(&leaf), 1);
}

#[test]
fn identifiers_count_up_from_zero() {
    let mut graph = NodeGraph::new();
    let a = graph.create_node(1);
    let b = graph.create_node(2);
    let c = graph.create_node(3);
    assert_eq!((a.id(), b.id(), c.id()), (0, 1, 2));
    assert!(graph.is_live(0) && graph.is_live(1) && graph.is_live(2));
    assert!(!graph.is_live(3));
}

#[test]
fn leaf_and_branch_counts() {
    let mut graph = NodeGraph::new();
    let leaf = graph.create_node(3);
    assert!(graph.resolve_parent(&leaf).is_none());
    assert_eq!(graph.strong_count(&leaf), 1);
    assert_eq!(graph.weak_count(&leaf), 0);

    let branch = graph.create_node(5);
    let for_branch = graph.share(&leaf).unwrap();
    attach(&mut graph, &branch, for_branch);

    let parent = graph.resolve_parent(&leaf).unwrap();
    assert_eq!(parent.id(), branch.id());
    assert_eq!(graph.value(&parent), Some(5));
    assert!(graph.release(parent));

    assert_eq!(graph.strong_count(&leaf), 2);
    assert_eq!(graph.weak_count(&leaf), 0);
    assert_eq!(graph.strong_count(&branch), 1);
    assert_eq!(graph.weak_count(&branch), 1);

    let branch_id = branch.id();
    assert!(graph.release(branch));
    assert!(!graph.is_live(branch_id));

    assert!(graph.resolve_parent(&leaf).is_none());
    assert_eq!(graph.strong_count(&leaf), 1);
    assert_eq!(graph.weak_count(&leaf), 0);
}

#[test]
fn attaching_moves_the_reference_and_keeps_the_count() {
    let mut graph = NodeGraph::new();
    let parent = graph.create_node(1);
    let child = graph.create_node(2);
    let child_id = child.id();
    let watch = graph.share(&child).unwrap();
    assert_eq!(graph.strong_count(&watch), 2);
    attach(&mut graph, &parent, child);
    assert_eq!(graph.strong_count(&watch), 2);
    assert_eq!(graph.strong_count(&parent), 1);
    assert_eq!(graph.children(&parent), vec![child_id]);
}

#[test]
fn a_node_owned_by_its_parent_alone_has_one_owner() {
    let mut graph = NodeGraph::new();
    let parent = graph.create_node(1);
    let child = graph.create_node(2);
    let child_id = child.id();
    attach(&mut graph, &parent, child);
    assert!(graph.is_live(child_id));
    let mut other = NodeGraph::new();
    let _zero = other.create_node(0);
    let same_id = other.create_node(0);
    assert_eq!(same_id.id(), child_id);
    assert_eq!(graph.strong_count(&same_id), 1);
}

#[test]
fn weak_count_grows_by_one_with_each_child() {
    let mut graph = NodeGraph::new();
    let parent = graph.create_node(0);
    let mut ids = Vec::new();
    for n in 1..=4 {
        let child = graph.create_node(n);
        ids.push(child.id());
        attach(&mut graph, &parent, child);
        assert_eq!(graph.weak_count(&parent), n as usize);
        assert_eq!(graph.strong_count(&parent), 1);
    }
    assert_eq!(graph.children(&parent), ids);
}

#[test]
fn share_and_release_count_owners() {
    let mut graph = NodeGraph::new();
    let a = graph.create_node(7);
    let b = graph.share(&a).unwrap();
    let c = graph.share(&a).unwrap();
    assert_eq!(b.id(), a.id());
    assert_eq!(graph.strong_count(&a), 3);
    assert!(graph.release(b));
    assert_eq!(graph.strong_count(&a), 2);
    assert!(graph.release(c));
    assert_eq!(graph.strong_count(&a), 1);
    assert!(graph.is_live(a.id()));
    let id = a.id();
    assert!(graph.release(a));
    assert!(!graph.is_live(id));
}

#[test]
fn resolving_the_parent_hands_out_a_counted_reference() {
    let mut graph = NodeGraph::new();
    let parent = graph.create_node(1);
    let child = graph.create_node(2);
    let keep = graph.share(&child).unwrap();
    attach(&mut graph, &parent, child);
    let up = graph.resolve_parent(&keep).unwrap();
    assert_eq!(up.id(), parent.id());
    assert_eq!(graph.strong_count(&parent), 2);
    assert_eq!(graph.weak_count(&parent), 1);
    assert!(graph.release(parent));
    assert!(graph.is_live(up.id()));
    assert_eq!(graph.strong_count(&up), 1);
    let again = graph.resolve_parent(&keep).unwrap();
    assert_eq!(again.id(), up.id());
    assert!(graph.release(again));
    assert!(graph.release(up));
    assert!(graph.resolve_parent(&keep).is_none());
    assert_eq!(graph.strong_count(&keep), 1);
}

#[test]
fn releasing_the_root_reclaims_the_whole_tree() {
    let mut graph = NodeGraph::new();
    let root = graph.create_node(0);
    let left = graph.create_node(1);
    let right = graph.create_node(2);
    let deep = graph.create_node(3);
    let ids = [root.id(), left.id(), right.id(), deep.id()];
    attach(&mut graph, &left, deep);
    attach(&mut graph, &root, left);
    attach(&mut graph, &root, right);
    assert_eq!(graph.weak_count(&root), 2);
    assert!(graph.release(root));
    for id in ids {
        assert!(!graph.is_live(id));
    }
}

#[test]
fn a_node_held_from_outside_survives_its_parent() {
    let mut graph = NodeGraph::new();
    let root = graph.create_node(0);
    let kept = graph.create_node(1);
    let lost = graph.create_node(2);
    let under_kept = graph.create_node(3);
    let (lost_id, under_id) = (lost.id(), under_kept.id());
    let hold = graph.share(&kept).unwrap();
    attach(&mut graph, &kept, under_kept);
    attach(&mut graph, &root, kept);
    attach(&mut graph, &root, lost);
    assert_eq!(graph.strong_count(&hold), 2);
    let root_id = root.id();
    assert!(graph.release(root));
    assert!(!graph.is_live(root_id));
    assert!(!graph.is_live(lost_id));
    assert!(graph.is_live(hold.id()));
    assert!(graph.is_live(under_id));
    assert_eq!(graph.strong_count(&hold), 1);
    assert_eq!(graph.weak_count(&hold), 1);
    assert_eq!(graph.children(&hold), vec![under_id]);
    assert!(graph.resolve_parent(&hold).is_none());
    assert!(graph.release(hold));
    assert!(!graph.is_live(under_id));
}

#[test]
fn back_references_do_not_keep_a_parent_alive() {
    let mut graph = NodeGraph::new();
    let parent = graph.create_node(0);
    let mut watchers = Vec::new();
    for n in 0..5 {
        let child = graph.create_node(n);
        watchers.push(graph.share(&child).unwrap());
        attach(&mut graph, &parent, child);
    }
    assert_eq!(graph.weak_count(&parent), 5);
    assert_eq!(graph.strong_count(&parent), 1);
    let parent_id = parent.id();
    assert!(graph.release(parent));
    assert!(!graph.is_live(parent_id));
    for watcher in &watchers {
        assert!(graph.resolve_parent(watcher).is_none());
        assert_eq!(graph.strong_count(watcher), 1);
    }
}

#[test]
fn a_long_chain_is_reclaimed() {
    let mut graph = NodeGraph::new();
    let root = graph.create_node(0);
    let mut tail = graph.share(&root).unwrap();
    for n in 1..5_000 {
        let next = graph.create_node(n);
        let hold = graph.share(&next).unwrap();
        attach(&mut graph, &tail, next);
        assert!(graph.release(tail));
        tail = hold;
    }
    let last = tail.id();
    assert!(graph.release(tail));
    assert!(graph.is_live(last));
    assert!(graph.release(root));
    assert!(!graph.is_live(0));
    assert!(!graph.is_live(last));
}

#[test]
fn a_child_is_attached_once() {
    let mut graph = NodeGraph::new();
    let first = graph.create_node(1);
    let second = graph.create_node(2);
    let child = graph.create_node(3);
    let again = graph.share(&child).unwrap();
    attach(&mut graph, &first, child);
    let (reason, back) = refused(&mut graph, &second, again);
    assert_eq!(reason, AttachError::AlreadyAttached);
    assert_eq!(graph.strong_count(&back), 2);
    assert_eq!(graph.weak_count(&second), 0);
    let up = graph.resolve_parent(&back).unwrap();
    assert_eq!(up.id(), first.id());
}

#[test]
fn a_child_whose_parent_is_gone_is_not_attached_again() {
    let mut graph = NodeGraph::new();
    let first = graph.create_node(1);
    let second = graph.create_node(2);
    let child = graph.create_node(3);
    let keep = graph.share(&child).unwrap();
    attach(&mut graph, &first, child);
    assert!(graph.release(first));
    let (reason, back) = refused(&mut graph, &second, keep);
    assert_eq!(reason, AttachError::AlreadyAttached);
    assert!(graph.resolve_parent(&back).is_none());
}

#[test]
fn a_node_is_not_attached_under_itself() {
    let mut graph = NodeGraph::new();
    let node = graph.create_node(1);
    let same = graph.share(&node).unwrap();
    let (reason, back) = refused(&mut graph, &node, same);
    assert_eq!(reason, AttachError::WouldCycle);
    assert_eq!(back.id(), node.id());
    assert_eq!(graph.strong_count(&node), 2);
    assert_eq!(graph.weak_count(&node), 0);
}

#[test]
fn a_node_is_not_attached_under_its_descendant() {
    let mut graph = NodeGraph::new();
    let top = graph.create_node(1);
    let middle = graph.create_node(2);
    let bottom = graph.create_node(3);
    let top_again = graph.share(&top).unwrap();
    let middle_again = graph.share(&middle).unwrap();
    let bottom_again = graph.share(&bottom).unwrap();
    attach(&mut graph, &top, middle);
    attach(&mut graph, &middle_again, bottom);
    let (reason, back) = refused(&mut graph, &bottom_again, top_again);
    assert_eq!(reason, AttachError::WouldCycle);
    assert!(graph.release(back));
    assert!(graph.children(&bottom_again).is_empty());
}

#[test]
fn a_reference_of_another_graph_is_stale() {
    let mut graph = NodeGraph::new();
    let mut other = NodeGraph::new();
    let here = graph.create_node(1);
    let _there = other.create_node(1);
    let far = other.create_node(2);
    assert!(!graph.is_live(far.id()));
    assert_eq!(graph.strong_count(&far), 0);
    assert_eq!(graph.weak_count(&far), 0);
    assert_eq!(graph.value(&far), None);
    assert!(graph.share(&far).is_none());
    assert!(graph.resolve_parent(&far).is_none());
    let (reason, far) = refused(&mut graph, &here, far);
    assert_eq!(reason, AttachError::Stale);
    let here_again = graph.share(&here).unwrap();
    let (reason, _) = refused(&mut graph, &far, here_again);
    assert_eq!(reason, AttachError::Stale);
    assert!(!graph.release(far));
    assert_eq!(graph.strong_count(&here), 2);
}

#[test]
fn a_reference_that_nobody_holds_is_not_released() {
    let mut graph = NodeGraph::new();
    let parent = graph.create_node(1);
    let child = graph.create_node(2);
    let child_id = child.id();
    attach(&mut graph, &parent, child);
    let mut other = NodeGraph::new();
    let _zero = other.create_node(0);
    let forged = other.create_node(0);
    assert_eq!(forged.id(), child_id);
    assert!(!graph.release(forged));
    assert!(graph.is_live(child_id));
    assert_eq!(graph.weak_count(&parent), 1);
}

#[test]
fn the_parent_resolves_through_unrelated_changes() {
    let mut graph = NodeGraph::new();
    let parent = graph.create_node(1);
    let child = graph.create_node(2);
    let keep = graph.share(&child).unwrap();
    attach(&mut graph, &parent, child);
    let other = graph.create_node(9);
    let sibling = graph.create_node(8);
    attach(&mut graph, &parent, sibling);
    let extra = graph.share(&parent).unwrap();
    assert!(graph.release(other));
    assert!(graph.release(extra));
    let up = graph.resolve_parent(&keep).unwrap();
    assert_eq!(up.id(), parent.id());
    assert!(graph.release(up));
    assert!(graph.release(parent));
    assert!(graph.resolve_parent(&keep).is_none());
    let later = graph.create_node(7);
    assert!(graph.resolve_parent(&keep).is_none());
    assert!(graph.release(later));
}
