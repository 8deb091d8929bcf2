use std::cell::Cell;

use gluxe::lifecycle::Lifecycle;

#[test]
fn detach_fires_registered_hooks_with_id() {
    let detached: Cell<Option<u64>> = Cell::new(None);
    let record_detach = |id: u64| detached.set(Some(id));
    let mut hooks: Lifecycle<_, fn()> = Lifecycle::new();

    hooks.on_detach(record_detach);
    for (hook, id) in hooks.detach_node(42) {
        hook(id);
    }
    assert_eq!(detached.get(), Some(42));
}

#[test]
fn reload_fires_registered_hooks() {
    let reloaded: Cell<bool> = Cell::new(false);
    let record_reload = || reloaded.set(true);
    let mut hooks: Lifecycle<fn(u64), _> = Lifecycle::new();

    hooks.on_reload(record_reload);
    for hook in hooks.reload() {
        hook();
    }
    assert!(reloaded.get());
}

#[test]
fn install_replaces_previous_registrations() {
    let count: Cell<u32> = Cell::new(0);
    let bump = |_id: u64| count.set(count.get() + 1);
    let mut hooks: Lifecycle<_, fn()> = Lifecycle::new();
    hooks.on_detach(bump);
    hooks.on_detach(bump);
    hooks.install(&vec![bump], &vec![]);
    let calls = hooks.detach_node(7);
    assert_eq!(calls.len(), 1);
    for (hook, id) in calls {
        hook(id);
    }
    assert_eq!(count.get(), 1);
}
