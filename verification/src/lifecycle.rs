//! Per-node lifecycle teardown seam: modules that own per-element registries
//! register a detach hook (run when a node id is destroyed) and a reload hook
//! (run on a dev-mode full reload). The registry hands back the calls to make;
//! the caller makes them, so a hook can register further hooks safely.

use vstd::prelude::*;

use crate::model::ElementId;

verus! {

/// The registered hooks, in registration order.
#[derive(Debug)]
pub struct Lifecycle<D, R> {
    pub detach_hooks: Vec<D>,
    pub reload_hooks: Vec<R>,
}

impl<D: Copy, R: Copy> Lifecycle<D, R> {
    pub fn new() -> (r: Lifecycle<D, R>)
        ensures
            r.detach_hooks@ == Seq::<D>::empty(),
            r.reload_hooks@ == Seq::<R>::empty(),
    {
        Lifecycle { detach_hooks: Vec::new(), reload_hooks: Vec::new() }
    }

    /// Register a hook run for each destroyed node id.
    pub fn on_detach(&mut self, hook: D)
        ensures
            final(self).detach_hooks@ == old(self).detach_hooks@.push(hook),
            final(self).reload_hooks@ == old(self).reload_hooks@,
    {
        self.detach_hooks.push(hook);
    }

    /// Register a hook run on dev-mode full reload.
    pub fn on_reload(&mut self, hook: R)
        ensures
            final(self).reload_hooks@ == old(self).reload_hooks@.push(hook),
            final(self).detach_hooks@ == old(self).detach_hooks@,
    {
        self.reload_hooks.push(hook);
    }

    /// The calls that destroying node `id` makes: every detach hook, in
    /// registration order, each with `id`.
    pub fn detach_node(&self, id: ElementId) -> (r: Vec<(D, ElementId)>)
        ensures
            r@.len() == self.detach_hooks@.len(),
            forall|i: int| 0 <= i < r@.len() ==> #[trigger] r@[i] == (self.detach_hooks@[i], id),
    {
        let mut calls: Vec<(D, ElementId)> = Vec::new();
        let mut i: usize = 0;
        while i < self.detach_hooks.len()
            invariant
                0 <= i <= self.detach_hooks@.len(),
                calls@.len() == i,
                forall|k: int| 0 <= k < i ==> #[trigger] calls@[k] == (self.detach_hooks@[k], id),
            decreases self.detach_hooks@.len() - i,
        {
            let hook: D = self.detach_hooks[i];
            calls.push((hook, id));
            i = i + 1;
        }
        calls
    }

    /// The hooks a dev-mode full reload runs, in registration order.
    pub fn reload(&self) -> (r: Vec<R>)
        ensures
            r@ == self.reload_hooks@,
    {
        let mut hooks: Vec<R> = Vec::new();
        let mut i: usize = 0;
        while i < self.reload_hooks.len()
            invariant
                0 <= i <= self.reload_hooks@.len(),
                hooks@ == self.reload_hooks@.take(i as int),
            decreases self.reload_hooks@.len() - i,
        {
            let hook: R = self.reload_hooks[i];
            hooks.push(hook);
            i = i + 1;
            assert(hooks@ =~= self.reload_hooks@.take(i as int));
        }
        assert(self.reload_hooks@.take(self.reload_hooks@.len() as int) =~= self.reload_hooks@);
        hooks
    }

    /// (Re)install the built-in hooks: clears every registration first, so it
    /// is idempotent across context rebuilds.
    pub fn install(&mut self, detach: &Vec<D>, reload: &Vec<R>)
        ensures
            final(self).detach_hooks@ == detach@,
            final(self).reload_hooks@ == reload@,
    {
        self.detach_hooks.clear();
        self.reload_hooks.clear();
        let mut i: usize = 0;
        while i < detach.len()
            invariant
                0 <= i <= detach@.len(),
                self.detach_hooks@ == detach@.take(i as int),
                self.reload_hooks@ == Seq::<R>::empty(),
            decreases detach@.len() - i,
        {
            let h: D = detach[i];
            self.detach_hooks.push(h);
            i = i + 1;
            assert(self.detach_hooks@ =~= detach@.take(i as int));
        }
        let mut k: usize = 0;
        while k < reload.len()
            invariant
                0 <= k <= reload@.len(),
                self.detach_hooks@ == detach@,
                self.reload_hooks@ == reload@.take(k as int),
            decreases reload@.len() - k,
        {
            let h: R = reload[k];
            self.reload_hooks.push(h);
            k = k + 1;
            assert(self.reload_hooks@ =~= reload@.take(k as int));
        }
        assert(detach@.take(detach@.len() as int) =~= detach@);
        assert(reload@.take(reload@.len() as int) =~= reload@);
    }
}

} // verus!
