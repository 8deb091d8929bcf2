use std::collections::HashSet;

use gluxe::model::{
    apply_command, ApplyOutcome, ElementId, ElementKind, Events, Props, Tree, UICommand,
};

fn view(id: ElementId) -> UICommand<()> {
    make_view_instance(id)
}

fn text_input(id: ElementId) -> UICommand<()> {
    make_text_input_instance(id)
}

fn keydown_view(id: ElementId, autofocus: bool) -> UICommand<()> {
    make_keydown_instance(id, autofocus)
}

#[test]
fn events_from_single_type() {
    let e = Events::from_types(&["click".to_string()]);
    assert!(e.click);
    assert!(!e.mousedown);
    assert!(!e.keydown);
}

#[test]
fn events_from_multiple_types() {
    let e = Events::from_types(&[
        "click".to_string(),
        "mousedown".to_string(),
        "keydown".to_string(),
    ]);
    assert!(e.click);
    assert!(e.mousedown);
    assert!(e.keydown);
    assert!(!e.mouseup);
}

#[test]
fn events_unknown_type_is_ignored() {
    let e = Events::from_types(&["unknown".to_string(), "click".to_string()]);
    assert!(e.click);
    assert!(!e.mouseup);
}

#[test]
fn events_all_types_recognized() {
    let all = vec![
        "click".to_string(),
        "mousedown".to_string(),
        "mouseup".to_string(),
        "mousemove".to_string(),
        "mouseenter".to_string(),
        "mouseleave".to_string(),
        "keydown".to_string(),
    ];
    let e = Events::from_types(&all);
    assert!(e.click && e.mousedown && e.mouseup && e.mousemove);
    assert!(e.mouseenter && e.mouseleave && e.keydown);
}

#[test]
fn events_any_false_when_empty() {
    let e = Events::default();
    assert!(!e.any());
}

#[test]
fn events_any_true_when_one_set() {
    let mut e = Events::default();
    e.click = true;
    assert!(e.any());
}

#[test]
fn is_overlay_default_false() {
    assert!(!Props::default().is_overlay());
}

#[test]
fn is_overlay_true_for_absolute_position() {
    let mut props = Props::default();
    props.style.position = Some("absolute".to_string());
    assert!(props.is_overlay());
}

#[test]
fn is_overlay_false_for_relative_position() {
    let mut props = Props::default();
    props.style.position = Some("relative".to_string());
    assert!(!props.is_overlay());
}

#[test]
fn is_overlay_true_for_floating() {
    let mut props = Props::default();
    props.has_floating = true;
    assert!(props.is_overlay());
}

#[test]
fn should_occlude_defaults_to_is_overlay() {
    // No explicit prop: an ordinary node does not occlude, an overlay does.
    assert!(!Props::default().should_occlude());
    let mut overlay = Props::default();
    overlay.style.position = Some("absolute".to_string());
    assert!(overlay.should_occlude());
}

#[test]
fn should_occlude_explicit_true_on_in_flow_node() {
    // An in-flow element can be forced to occlude (e.g. a dialog panel).
    let mut props = Props::default();
    props.occlude = Some(true);
    assert!(props.should_occlude());
}

#[test]
fn should_occlude_explicit_false_overrides_overlay() {
    // An absolute element can opt out of occlusion (e.g. a decorative scrim).
    let mut props = Props::default();
    props.style.position = Some("absolute".to_string());
    props.occlude = Some(false);
    assert!(!props.should_occlude());
}

fn make_view_instance(id: ElementId) -> UICommand<()> {
    UICommand::CreateInstance {
        id,
        kind: ElementKind::View,
        props: Props::default(),
        extra: (),
    }
}

fn make_text_input_instance(id: ElementId) -> UICommand<()> {
    UICommand::CreateInstance {
        id,
        kind: ElementKind::TextInput,
        props: Props::default(),
        extra: (),
    }
}

fn make_keydown_instance(id: ElementId, autofocus: bool) -> UICommand<()> {
    let mut props = Props::default();
    props.events.keydown = true;
    props.autofocus = autofocus;
    UICommand::CreateInstance {
        id,
        kind: ElementKind::View,
        props,
        extra: (),
    }
}

fn make_tabbable_instance(id: ElementId, tab_index: Option<i32>) -> UICommand<()> {
    let mut props = Props::default();
    props.tab_index = tab_index;
    UICommand::CreateInstance {
        id,
        kind: ElementKind::View,
        props,
        extra: (),
    }
}

#[test]
fn resolve_tab_stop_defaults_by_kind() {
    let mut props = Props::default(); // no tabIndex, no tabStop
    // TextInput defaults to a stop; View/Image do not.
    assert!(props.resolve_tab_stop(true));
    assert!(!props.resolve_tab_stop(false));
    // tabIndex >= 0 makes either a stop; < 0 takes either out.
    props.tab_index = Some(0);
    assert!(props.resolve_tab_stop(true));
    assert!(props.resolve_tab_stop(false));
    props.tab_index = Some(-1);
    assert!(!props.resolve_tab_stop(true));
    assert!(!props.resolve_tab_stop(false));
    // Explicit tabStop wins over the kind default and tabIndex.
    props.tab_index = Some(-1);
    props.tab_stop = Some(true);
    assert!(props.resolve_tab_stop(false));
}

#[test]
fn focusable_descendants_orders_by_tab_index_then_tree_order() {
    let mut tree = Tree::default();
    // panel(1) is programmatic-only (-1, skipped); children are tab stops.
    apply_command(&mut tree, make_tabbable_instance(1, Some(-1)));
    apply_command(&mut tree, make_tabbable_instance(2, Some(0))); // tree order 0
    apply_command(&mut tree, make_tabbable_instance(3, Some(0))); // tree order 1, index 0
    apply_command(&mut tree, make_tabbable_instance(4, Some(5))); // higher index → last
    for child in [2, 3, 4] {
        apply_command(&mut tree, UICommand::AppendChild { parent: 1, child });
    }
    // 2 and 3 share tabIndex 0 → tree order; 4 (index 5) sorts after both.
    // 1 (index -1) is not a tab stop, so it is excluded.
    assert_eq!(tree.focusable_descendants(1), vec![2, 3, 4]);
}

#[test]
fn focusable_descendants_includes_plain_text_input() {
    let mut tree = Tree::default();
    // A bare TextInput (no focus props) is intrinsically a tab stop.
    apply_command(&mut tree, make_tabbable_instance(1, Some(-1))); // panel, not a stop
    apply_command(&mut tree, make_text_input_instance(2));
    apply_command(
        &mut tree,
        UICommand::AppendChild {
            parent: 1,
            child: 2,
        },
    );
    assert_eq!(tree.focusable_descendants(1), vec![2]);
}

#[test]
fn focusable_descendants_text_input_respects_tab_stop_overrides() {
    let mut tree = Tree::default();
    apply_command(&mut tree, make_tabbable_instance(1, Some(-1)));
    // tabIndex < 0 takes the TextInput out of the Tab order.
    let mut hidden = Props::default();
    hidden.tab_index = Some(-1);
    apply_command(
        &mut tree,
        UICommand::CreateInstance {
            id: 2,
            kind: ElementKind::TextInput,
            props: hidden,
            extra: (),
        },
    );
    apply_command(
        &mut tree,
        UICommand::AppendChild {
            parent: 1,
            child: 2,
        },
    );
    assert!(tree.focusable_descendants(1).is_empty());
}

#[test]
fn focusable_order_sorts_globally_across_root_children() {
    let mut tree = Tree::default();
    // Root children in mount order: a tabIndex-5 stop first, then two tabIndex-0.
    apply_command(&mut tree, make_tabbable_instance(10, Some(5)));
    apply_command(&mut tree, make_tabbable_instance(11, Some(0)));
    apply_command(&mut tree, make_tabbable_instance(12, Some(0)));
    for child in [10, 11, 12] {
        apply_command(&mut tree, UICommand::AppendToContainer { child });
    }
    // tabIndex sorts globally: the two 0s (preorder) before the 5, even though
    // the 5 mounted first.
    assert_eq!(tree.focusable_order(), vec![11, 12, 10]);
}

#[test]
fn collect_tab_stops_skips_hidden_subtrees() {
    for hide in ["display", "visibility"] {
        let mut tree = Tree::default();
        let mut props = Props::default();
        props.tab_index = Some(0); // the container is itself a stop...
        if hide == "display" {
            props.style.display = Some("none".to_string());
        } else {
            props.style.visibility = Some("hidden".to_string());
        }
        apply_command(
            &mut tree,
            UICommand::CreateInstance {
                id: 1,
                kind: ElementKind::View,
                props,
                extra: (),
            },
        );
        apply_command(&mut tree, make_tabbable_instance(2, Some(0))); // ...with a focusable child
        apply_command(
            &mut tree,
            UICommand::AppendChild {
                parent: 1,
                child: 2,
            },
        );
        // Both the hidden container and its subtree are out of the Tab order.
        assert!(tree.focusable_descendants(1).is_empty(), "{hide}");
    }
}

#[test]
fn focusable_descendants_excludes_non_tab_stops_and_unknown_roots() {
    let mut tree = Tree::default();
    apply_command(&mut tree, make_view_instance(1)); // not focusable
    apply_command(&mut tree, make_tabbable_instance(2, Some(-1))); // focusable, not a stop
    apply_command(
        &mut tree,
        UICommand::AppendChild {
            parent: 1,
            child: 2,
        },
    );
    assert!(tree.focusable_descendants(1).is_empty());
    assert!(tree.focusable_descendants(999).is_empty());
}

#[test]
fn create_view_instance_adds_node() {
    let mut tree = Tree::default();
    apply_command(&mut tree, make_view_instance(1));
    assert!(tree.nodes.contains_key(&1));
    assert!(!tree.text_input_ids.contains(&1));
    assert!(!tree.focusable_ids.contains_key(&1));
}

#[test]
fn create_text_input_registers_in_text_input_ids() {
    let mut tree = Tree::default();
    apply_command(&mut tree, make_text_input_instance(2));
    assert!(tree.text_input_ids.contains(&2));
}

#[test]
fn create_keydown_node_registers_in_focusable_ids() {
    let mut tree = Tree::default();
    apply_command(&mut tree, make_keydown_instance(3, false));
    assert!(tree.focusable_ids.contains_key(&3));
    assert_eq!(tree.focusable_ids[&3], false);
}

#[test]
fn create_autofocus_node_registers_with_true_flag() {
    let mut tree = Tree::default();
    apply_command(&mut tree, make_keydown_instance(4, true));
    assert_eq!(tree.focusable_ids[&4], true);
}

#[test]
fn create_text_node() {
    let mut tree = Tree::default();
    apply_command(
        &mut tree,
        UICommand::CreateText {
            id: 5,
            text: "hello".to_string(),
            extra: (),
        },
    );
    let node = tree.nodes.get(&5).unwrap();
    assert_eq!(node.text.as_deref(), Some("hello"));
}

#[test]
fn update_text_changes_text_content() {
    let mut tree = Tree::default();
    apply_command(
        &mut tree,
        UICommand::CreateText {
            id: 6,
            text: "old".to_string(),
            extra: (),
        },
    );
    let outcome = apply_command(
        &mut tree,
        UICommand::UpdateText {
            id: 6,
            text: "new".to_string(),
        },
    );
    assert_eq!(tree.nodes[&6].text.as_deref(), Some("new"));
    assert!(outcome.root_dirty);
}

#[test]
fn append_child_adds_to_parent_children() {
    let mut tree = Tree::default();
    apply_command(&mut tree, make_view_instance(10));
    apply_command(&mut tree, make_view_instance(11));
    let outcome = apply_command(
        &mut tree,
        UICommand::AppendChild {
            parent: 10,
            child: 11,
        },
    );
    assert_eq!(tree.nodes[&10].children, vec![11]);
    assert_eq!(tree.parents.get(&11), Some(&10));
    assert!(outcome.dirty_nodes.contains(&10));
    assert!(!outcome.root_dirty);
}

#[test]
fn append_child_moves_existing_to_end_without_duplicating() {
    let mut tree = Tree::default();
    apply_command(&mut tree, make_view_instance(12));
    apply_command(&mut tree, make_view_instance(13));
    apply_command(&mut tree, make_view_instance(14));
    for child in [13, 14] {
        apply_command(&mut tree, UICommand::AppendChild { parent: 12, child });
    }
    // Move 13 to the end.
    apply_command(
        &mut tree,
        UICommand::AppendChild {
            parent: 12,
            child: 13,
        },
    );
    assert_eq!(tree.nodes[&12].children, vec![14, 13]);
}

#[test]
fn append_to_container_moves_existing_to_end_without_duplicating() {
    let mut tree = Tree::default();
    apply_command(&mut tree, make_view_instance(15));
    apply_command(&mut tree, make_view_instance(16));
    apply_command(&mut tree, UICommand::AppendToContainer { child: 15 });
    apply_command(&mut tree, UICommand::AppendToContainer { child: 16 });
    let outcome = apply_command(&mut tree, UICommand::AppendToContainer { child: 15 });
    assert_eq!(tree.root_children, vec![16, 15]);
    assert!(outcome.root_dirty);
}

#[test]
fn append_to_container_adds_to_root() {
    let mut tree = Tree::default();
    apply_command(&mut tree, make_view_instance(20));
    let outcome = apply_command(&mut tree, UICommand::AppendToContainer { child: 20 });
    assert!(tree.root_children.contains(&20));
    assert!(outcome.root_dirty);
}

#[test]
fn insert_before_existing_anchor() {
    let mut tree = Tree::default();
    apply_command(&mut tree, make_view_instance(30));
    apply_command(&mut tree, make_view_instance(31));
    apply_command(&mut tree, make_view_instance(32));
    apply_command(
        &mut tree,
        UICommand::AppendChild {
            parent: 30,
            child: 31,
        },
    );
    // insert 32 before 31
    let outcome = apply_command(
        &mut tree,
        UICommand::InsertBefore {
            parent: 30,
            child: 32,
            before: 31,
        },
    );
    assert_eq!(tree.nodes[&30].children, vec![32, 31]);
    assert_eq!(tree.parents.get(&32), Some(&30));
    assert!(outcome.dirty_nodes.contains(&30));
}

#[test]
fn insert_before_missing_anchor_falls_back_to_push() {
    let mut tree = Tree::default();
    apply_command(&mut tree, make_view_instance(40));
    apply_command(&mut tree, make_view_instance(41));
    // anchor 99 does not exist → push to end
    apply_command(
        &mut tree,
        UICommand::InsertBefore {
            parent: 40,
            child: 41,
            before: 99,
        },
    );
    assert_eq!(tree.nodes[&40].children, vec![41]);
}

#[test]
fn insert_before_reorders_without_duplicating() {
    // Same-parent reorder: re-issue InsertBefore on an already-mounted child.
    let mut tree = Tree::default();
    apply_command(&mut tree, make_view_instance(42));
    apply_command(&mut tree, make_view_instance(43));
    apply_command(&mut tree, make_view_instance(44));
    for child in [43, 44] {
        apply_command(&mut tree, UICommand::AppendChild { parent: 42, child });
    }
    // Move 44 before 43.
    apply_command(
        &mut tree,
        UICommand::InsertBefore {
            parent: 42,
            child: 44,
            before: 43,
        },
    );
    assert_eq!(tree.nodes[&42].children, vec![44, 43]);
}

#[test]
fn insert_in_container_before_existing_anchor() {
    let mut tree = Tree::default();
    apply_command(&mut tree, make_view_instance(50));
    apply_command(&mut tree, make_view_instance(51));
    apply_command(&mut tree, UICommand::AppendToContainer { child: 50 });
    let outcome = apply_command(
        &mut tree,
        UICommand::InsertInContainer {
            child: 51,
            before: 50,
        },
    );
    assert_eq!(tree.root_children, vec![51, 50]);
    assert!(!tree.parents.contains_key(&51));
    assert!(outcome.root_dirty);
}

#[test]
fn insert_in_container_missing_anchor_falls_back_to_push() {
    let mut tree = Tree::default();
    apply_command(&mut tree, make_view_instance(60));
    apply_command(
        &mut tree,
        UICommand::InsertInContainer {
            child: 60,
            before: 99,
        },
    );
    assert!(tree.root_children.contains(&60));
}

#[test]
fn insert_in_container_reorders_without_duplicating() {
    let mut tree = Tree::default();
    apply_command(&mut tree, make_view_instance(61));
    apply_command(&mut tree, make_view_instance(62));
    apply_command(&mut tree, UICommand::AppendToContainer { child: 61 });
    apply_command(&mut tree, UICommand::AppendToContainer { child: 62 });
    // Move 62 before 61.
    apply_command(
        &mut tree,
        UICommand::InsertInContainer {
            child: 62,
            before: 61,
        },
    );
    assert_eq!(tree.root_children, vec![62, 61]);
}

#[test]
fn remove_child_removes_from_parent() {
    let mut tree = Tree::default();
    apply_command(&mut tree, make_view_instance(70));
    apply_command(&mut tree, make_view_instance(71));
    apply_command(
        &mut tree,
        UICommand::AppendChild {
            parent: 70,
            child: 71,
        },
    );
    let outcome = apply_command(
        &mut tree,
        UICommand::RemoveChild {
            parent: 70,
            child: 71,
        },
    );
    assert!(tree.nodes[&70].children.is_empty());
    assert!(!tree.parents.contains_key(&71));
    assert!(outcome.dirty_nodes.contains(&70));
}

#[test]
fn remove_from_container() {
    let mut tree = Tree::default();
    apply_command(&mut tree, make_view_instance(80));
    apply_command(&mut tree, UICommand::AppendToContainer { child: 80 });
    let outcome = apply_command(&mut tree, UICommand::RemoveFromContainer { child: 80 });
    assert!(!tree.root_children.contains(&80));
    assert!(outcome.root_dirty);
}

#[test]
fn clear_container_empties_root_children() {
    let mut tree = Tree::default();
    apply_command(&mut tree, make_view_instance(90));
    apply_command(&mut tree, make_view_instance(91));
    apply_command(&mut tree, UICommand::AppendToContainer { child: 90 });
    apply_command(&mut tree, UICommand::AppendToContainer { child: 91 });
    let outcome = apply_command(&mut tree, UICommand::ClearContainer);
    assert!(tree.root_children.is_empty());
    assert!(outcome.root_dirty);
}

#[test]
fn update_props_adds_to_focusable_ids_when_keydown_added() {
    let mut tree = Tree::default();
    apply_command(&mut tree, make_view_instance(100));
    assert!(!tree.focusable_ids.contains_key(&100));
    let mut props = Props::default();
    props.events.keydown = true;
    let outcome = apply_command(&mut tree, UICommand::UpdateProps { id: 100, props, extra: (), same_extra: true });
    assert!(tree.focusable_ids.contains_key(&100));
    assert!(outcome.dirty_nodes.contains(&100));
}

#[test]
fn update_props_removes_from_focusable_ids_when_keydown_removed() {
    let mut tree = Tree::default();
    apply_command(&mut tree, make_keydown_instance(101, false));
    assert!(tree.focusable_ids.contains_key(&101));
    apply_command(
        &mut tree,
        UICommand::UpdateProps {
            id: 101,
            props: Props::default(), // no keydown, no autofocus
            extra: (),
            same_extra: true,
        },
    );
    assert!(!tree.focusable_ids.contains_key(&101));
}

#[test]
fn update_props_noop_has_empty_outcome() {
    let mut tree = Tree::default();
    apply_command(&mut tree, make_view_instance(102));
    let outcome = apply_command(
        &mut tree,
        UICommand::UpdateProps {
            id: 102,
            props: Props::default(),
            extra: (),
            same_extra: true,
        },
    );
    assert!(outcome.is_empty());
}

#[test]
fn update_text_marks_parent_dirty() {
    let mut tree = Tree::default();
    apply_command(&mut tree, make_view_instance(120));
    apply_command(
        &mut tree,
        UICommand::CreateText {
            id: 121,
            text: "old".to_string(),
            extra: (),
        },
    );
    apply_command(
        &mut tree,
        UICommand::AppendChild {
            parent: 120,
            child: 121,
        },
    );
    let outcome = apply_command(
        &mut tree,
        UICommand::UpdateText {
            id: 121,
            text: "new".to_string(),
        },
    );
    assert!(outcome.dirty_nodes.contains(&120));
    assert!(!outcome.root_dirty);
}

#[test]
fn update_text_noop_has_empty_outcome() {
    let mut tree = Tree::default();
    apply_command(
        &mut tree,
        UICommand::CreateText {
            id: 122,
            text: "same".to_string(),
            extra: (),
        },
    );
    let outcome = apply_command(
        &mut tree,
        UICommand::UpdateText {
            id: 122,
            text: "same".to_string(),
        },
    );
    assert!(outcome.is_empty());
}

#[test]
fn detach_deleted_removes_from_all_indices() {
    let mut tree = Tree::default();
    apply_command(&mut tree, make_text_input_instance(110));
    apply_command(&mut tree, make_keydown_instance(110, false));
    // second CreateInstance overwrites the first node; both indices are populated
    let outcome = apply_command(&mut tree, UICommand::DetachDeleted { id: 110 });
    assert!(!tree.nodes.contains_key(&110));
    assert!(!tree.text_input_ids.contains(&110));
    assert!(!tree.focusable_ids.contains_key(&110));
    assert_eq!(outcome.removed_nodes, vec![110]);
}

#[test]
fn detach_deleted_emits_no_dirty() {
    // RemoveChild already dirtied the parent; DetachDeleted must not re-dirty
    // or every subtree deletion would force a full RootView re-render.
    let mut tree = Tree::default();
    apply_command(&mut tree, make_view_instance(130));
    apply_command(&mut tree, make_view_instance(131));
    apply_command(
        &mut tree,
        UICommand::AppendChild {
            parent: 130,
            child: 131,
        },
    );
    apply_command(
        &mut tree,
        UICommand::RemoveChild {
            parent: 130,
            child: 131,
        },
    );
    let outcome = apply_command(&mut tree, UICommand::DetachDeleted { id: 131 });
    assert!(outcome.dirty_nodes.is_empty());
    assert!(!outcome.root_dirty);
    assert_eq!(outcome.removed_nodes, vec![131]);
}

fn text(id: ElementId, s: &str) -> UICommand<()> {
    UICommand::CreateText {
        id,
        text: s.to_string(),
        extra: (),
    }
}

/// Applies every command in order, merging all per-command outcomes into one.
fn apply_all(tree: &mut Tree<()>, cmds: impl IntoIterator<Item = UICommand<()>>) -> ApplyOutcome {
    let mut merged = ApplyOutcome::default();
    for cmd in cmds {
        merged.merge(apply_command(tree, cmd));
    }
    merged
}

/// Asserts the structural invariants that `apply_command` must preserve.
fn assert_consistent(tree: &Tree<()>) {
    // child→parent: parent exists and lists the child exactly once.
    for (&child, &parent) in &tree.parents {
        let parent_node = tree
            .nodes
            .get(&parent)
            .unwrap_or_else(|| panic!("parent {parent} of {child} missing from nodes"));
        let count = parent_node.children.iter().filter(|&&c| c == child).count();
        assert_eq!(
            count, 1,
            "child {child} should appear exactly once in parent {parent}'s children, found {count}"
        );
    }

    // each node's children exist and back-reference this node as parent.
    for (&id, node) in &tree.nodes {
        let mut seen = HashSet::new();
        for &c in &node.children {
            assert!(
                seen.insert(c),
                "duplicate child {c} in node {id}'s children"
            );
            assert!(
                tree.nodes.contains_key(&c),
                "child {c} of {id} missing from nodes"
            );
            assert_eq!(
                tree.parents.get(&c).copied(),
                Some(id),
                "parents[{c}] should be {id}"
            );
        }
    }

    // root children exist, are unique, and have no parents entry.
    let mut seen_root = HashSet::new();
    for &id in &tree.root_children {
        assert!(seen_root.insert(id), "duplicate root child {id}");
        assert!(
            tree.nodes.contains_key(&id),
            "root child {id} missing from nodes"
        );
        assert!(
            !tree.parents.contains_key(&id),
            "root child {id} must not have a parents entry"
        );
    }

    // derived indices are subsets of nodes (with the expected kinds).
    for &id in &tree.text_input_ids {
        let node = tree
            .nodes
            .get(&id)
            .unwrap_or_else(|| panic!("text_input id {id} missing from nodes"));
        assert!(
            matches!(node.kind, ElementKind::TextInput),
            "text_input id {id} is not a TextInput"
        );
    }
    for &id in tree.focusable_ids.keys() {
        assert!(
            tree.nodes.contains_key(&id),
            "focusable id {id} missing from nodes"
        );
    }
}

#[test]
fn initial_mount_sequence() {
    // Tree: root <- 1 <- 2 <- 3, with 2 also holding raw text node 4.
    let mut tree = Tree::default();
    let outcome = apply_all(
        &mut tree,
        [
            view(1),
            view(2),
            view(3),
            text(4, "leaf"),
            UICommand::AppendChild {
                parent: 3,
                child: 4,
            },
            UICommand::AppendChild {
                parent: 2,
                child: 3,
            },
            UICommand::AppendChild {
                parent: 1,
                child: 2,
            },
            UICommand::AppendToContainer { child: 1 },
        ],
    );

    assert_eq!(tree.root_children, vec![1]);
    assert_eq!(tree.nodes[&1].children, vec![2]);
    assert_eq!(tree.nodes[&2].children, vec![3]);
    assert_eq!(tree.nodes[&3].children, vec![4]);
    assert_eq!(tree.parents.get(&2), Some(&1));
    assert_eq!(tree.parents.get(&4), Some(&3));
    assert!(!tree.parents.contains_key(&1));
    assert!(outcome.root_dirty);
    assert_consistent(&tree);
}

#[test]
fn update_then_reorder_via_insert_before() {
    // Mount parent 1 with children [10, 11, 12] (A, B, C).
    let mut tree = Tree::default();
    apply_all(
        &mut tree,
        [
            view(1),
            view(10),
            view(11),
            view(12),
            UICommand::AppendChild {
                parent: 1,
                child: 10,
            },
            UICommand::AppendChild {
                parent: 1,
                child: 11,
            },
            UICommand::AppendChild {
                parent: 1,
                child: 12,
            },
            UICommand::AppendToContainer { child: 1 },
        ],
    );
    assert_eq!(tree.nodes[&1].children, vec![10, 11, 12]);

    // Reorder [A,B,C] -> [C,A,B]: React re-issues InsertBefore on an already-mounted
    // child (often alongside a no-op UpdateProps). The dedup must reposition, not duplicate.
    let outcome = apply_all(
        &mut tree,
        [
            UICommand::UpdateProps {
                id: 12,
                props: Props::default(),
                extra: (),
                same_extra: true,
            },
            UICommand::InsertBefore {
                parent: 1,
                child: 12,
                before: 10,
            },
        ],
    );

    assert_eq!(tree.nodes[&1].children, vec![12, 10, 11]);
    assert_eq!(tree.nodes[&1].children.len(), 3);
    assert!(outcome.dirty_nodes.contains(&1));
    assert_consistent(&tree);
}

#[test]
fn remove_subtree_then_detach_frees_everything() {
    // root <- 1 <- { 2(keydown), 3(text input) }, 2 <- 4(text).
    let mut tree = Tree::default();
    apply_all(
        &mut tree,
        [
            view(1),
            keydown_view(2, false),
            text_input(3),
            text(4, "x"),
            UICommand::AppendChild {
                parent: 2,
                child: 4,
            },
            UICommand::AppendChild {
                parent: 1,
                child: 2,
            },
            UICommand::AppendChild {
                parent: 1,
                child: 3,
            },
            UICommand::AppendToContainer { child: 1 },
        ],
    );
    assert!(tree.focusable_ids.contains_key(&2));
    assert!(tree.text_input_ids.contains(&3));
    assert_consistent(&tree);

    let outcome = apply_all(
        &mut tree,
        [
            UICommand::RemoveFromContainer { child: 1 },
            UICommand::DetachDeleted { id: 1 },
            UICommand::DetachDeleted { id: 2 },
            UICommand::DetachDeleted { id: 3 },
            UICommand::DetachDeleted { id: 4 },
        ],
    );

    for id in [1, 2, 3, 4] {
        assert!(!tree.nodes.contains_key(&id), "node {id} should be freed");
        assert!(
            !tree.parents.contains_key(&id),
            "parents[{id}] should be freed"
        );
        assert!(!tree.text_input_ids.contains(&id));
        assert!(!tree.focusable_ids.contains_key(&id));
    }
    assert!(tree.root_children.is_empty());
    assert!(outcome.root_dirty);
    assert_consistent(&tree);
}

#[test]
fn clear_container_then_remount() {
    // Production path. Dev hot-reload replaces the Tree wholesale via
    // state::reset_for_reload(), with no per-node DetachDeleted.
    let mut tree = Tree::default();
    apply_all(
        &mut tree,
        [
            view(1),
            view(2),
            UICommand::AppendChild {
                parent: 1,
                child: 2,
            },
            UICommand::AppendToContainer { child: 1 },
        ],
    );
    assert_eq!(tree.root_children, vec![1]);

    let cleared = apply_command(&mut tree, UICommand::ClearContainer);
    assert!(tree.root_children.is_empty());
    assert!(
        tree.nodes.contains_key(&1),
        "ClearContainer must not free nodes"
    );
    assert!(tree.nodes.contains_key(&2));
    assert!(cleared.root_dirty);
    assert_consistent(&tree);

    // Remount with fresh ids (monotonic, never reused).
    apply_all(
        &mut tree,
        [
            view(3),
            view(4),
            UICommand::AppendChild {
                parent: 3,
                child: 4,
            },
            UICommand::AppendToContainer { child: 3 },
        ],
    );
    assert_eq!(tree.root_children, vec![3]);
    assert_consistent(&tree);

    // Detach stale ids left dangling by ClearContainer.
    apply_all(
        &mut tree,
        [
            UICommand::DetachDeleted { id: 1 },
            UICommand::DetachDeleted { id: 2 },
        ],
    );
    assert!(!tree.nodes.contains_key(&1));
    assert!(!tree.nodes.contains_key(&2));
    assert_eq!(tree.nodes.len(), 2);
    assert_consistent(&tree);
}

#[test]
fn focusable_tracking_across_sequence() {
    let mut tree = Tree::default();
    apply_command(&mut tree, keydown_view(1, false));
    assert_eq!(tree.focusable_ids.get(&1), Some(&false));

    // Remove handler → dropped from index.
    apply_command(
        &mut tree,
        UICommand::UpdateProps {
            id: 1,
            props: Props::default(),
            extra: (),
            same_extra: true,
        },
    );
    assert!(!tree.focusable_ids.contains_key(&1));

    // Re-add with autofocus → re-enters index with flag=true.
    let mut props = Props::default();
    props.events.keydown = true;
    props.autofocus = true;
    apply_command(&mut tree, UICommand::UpdateProps { id: 1, props, extra: (), same_extra: true });
    assert_eq!(tree.focusable_ids.get(&1), Some(&true));

    apply_command(&mut tree, UICommand::DetachDeleted { id: 1 });
    assert!(!tree.focusable_ids.contains_key(&1));
    assert_consistent(&tree);
}

#[test]
fn text_input_index_across_sequence() {
    let mut tree = Tree::default();
    apply_command(&mut tree, text_input(1));
    assert!(tree.text_input_ids.contains(&1));

    apply_command(&mut tree, UICommand::AppendToContainer { child: 1 });
    assert!(tree.text_input_ids.contains(&1));

    // RemoveFromContainer is visual only — index persists until DetachDeleted.
    apply_command(&mut tree, UICommand::RemoveFromContainer { child: 1 });
    assert!(tree.text_input_ids.contains(&1));

    apply_command(&mut tree, UICommand::DetachDeleted { id: 1 });
    assert!(!tree.text_input_ids.contains(&1));
    assert!(!tree.nodes.contains_key(&1));
    assert_consistent(&tree);
}
