use gluxe::jobs::ClockQueue;

#[test]
fn due_jobs_run_in_deadline_then_enqueue_order() {
    let mut q = ClockQueue::new();
    q.enqueue(30, "c");
    q.enqueue(10, "a");
    q.enqueue(20, "b");
    q.enqueue(10, "a2");
    assert_eq!(q.next_due(), Some(10));
    let due = q.take_due(25);
    assert_eq!(due, vec![(10, "a"), (10, "a2"), (20, "b")]);
    assert_eq!(q.next_due(), Some(30));
}

#[test]
fn jobs_due_exactly_now_stay_parked() {
    let mut q = ClockQueue::new();
    q.enqueue(100, 1u32);
    assert!(q.nothing_due(100));
    assert!(q.take_due(100).is_empty());
    assert!(!q.nothing_due(101));
    assert_eq!(q.take_due(101), vec![(100, 1)]);
    assert_eq!(q.next_due(), None);
    assert!(q.nothing_due(0));
}

#[test]
fn retain_flagged_drops_cancelled_jobs_in_order() {
    let mut q = ClockQueue::new();
    for (due, id) in [(5u64, 1u8), (7, 2), (9, 3)] {
        q.enqueue(due, id);
    }
    q.retain_flagged(&vec![true, false, true]);
    assert_eq!(q.take_due(u64::MAX), vec![(5, 1), (9, 3)]);
}

#[test]
fn clear_empties_the_queue() {
    let mut q = ClockQueue::new();
    q.enqueue(1, ());
    q.clear();
    assert_eq!(q.next_due(), None);
}
