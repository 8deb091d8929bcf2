use gluxe::state::{scope_tab_target, should_rearm, CommandQueue, TabScopes};

#[test]
fn scope_tab_target_steps_and_wraps() {
    let order = vec![10, 20, 30];
    // Forward, wrapping past the end.
    assert_eq!(scope_tab_target(&order, Some(10), false), Some(20));
    assert_eq!(scope_tab_target(&order, Some(30), false), Some(10));
    // Backward, wrapping past the start.
    assert_eq!(scope_tab_target(&order, Some(20), true), Some(10));
    assert_eq!(scope_tab_target(&order, Some(10), true), Some(30));
}

#[test]
fn scope_tab_target_recovers_when_focus_outside_scope() {
    let order = vec![10, 20, 30];
    assert_eq!(scope_tab_target(&order, Some(99), false), Some(10)); // → first
    assert_eq!(scope_tab_target(&order, None, true), Some(30)); // → last
}

#[test]
fn scope_tab_target_empty_is_none() {
    assert_eq!(scope_tab_target(&vec![], Some(1), false), None);
}

#[test]
fn tab_scope_stack_pushes_pops_by_value() {
    let mut scopes = TabScopes::new();
    assert_eq!(scopes.active_tab_scope(), None);
    scopes.push_tab_scope(1);
    scopes.push_tab_scope(2);
    assert_eq!(scopes.active_tab_scope(), Some(2)); // innermost
    // Out-of-order pop removes by value, not just the top.
    scopes.pop_tab_scope(1);
    assert_eq!(scopes.active_tab_scope(), Some(2));
    scopes.pop_tab_scope(2);
    assert_eq!(scopes.active_tab_scope(), None);
    scopes.pop_tab_scope(99); // unknown id is a no-op
    assert_eq!(scopes.active_tab_scope(), None);
}

#[test]
fn should_rearm_when_not_in_flight() {
    // Not in flight: always re-arm, regardless of the armed deadline.
    assert!(should_rearm(false, 5u64, None));
    assert!(should_rearm(false, 5u64, Some(1)));
    assert!(should_rearm(false, 5u64, Some(10)));
}

#[test]
fn should_not_rearm_when_in_flight_and_due_at_or_after_armed() {
    // A live timer already covers this deadline → skip arming.
    assert!(!should_rearm(true, 10u64, Some(5))); // due > armed
    assert!(!should_rearm(true, 5u64, Some(5))); // due == armed (>=)
}

#[test]
fn should_rearm_when_in_flight_but_due_before_armed() {
    // An earlier deadline appeared; the in-flight timer won't cover it → re-arm.
    assert!(should_rearm(true, 3u64, Some(5)));
}

#[test]
fn should_rearm_when_in_flight_but_no_armed_deadline() {
    // In flight but nothing recorded as armed → re-arm.
    assert!(should_rearm(true, 7u64, None::<u64>));
}

#[test]
fn command_queue_keeps_arrival_order() {
    let mut q = CommandQueue::new();
    q.push_command("a");
    q.push_command("b");
    assert_eq!(q.command_queue_len(), 2);
    assert_eq!(q.take_commands(), vec!["a", "b"]);
    assert_eq!(q.command_queue_len(), 0);
    q.push_command("c");
    q.clear_command_queue();
    assert!(q.take_commands().is_empty());
}
