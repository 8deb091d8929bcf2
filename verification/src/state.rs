//! Runtime bookkeeping of the UI thread: Tab scopes and focus targets, the
//! window command queue, deferred focus retries, the element id counter,
//! the JS timer re-arm rule and the `requestAnimationFrame` handshake.
//!
//! The registries are plain values owned by the caller (the runtime keeps one
//! of each per UI thread); callbacks, handles and JS objects stay with the
//! caller, keyed by the ids these registries hand out.

use vstd::prelude::*;

use std::collections::HashSet;

use crate::id_list::{find_first, find_last, without};
use crate::model::ElementId;

verus! {

broadcast use vstd::std_specs::hash::group_hash_axioms;

/// Next focus for Tab (`prev == false`) / Shift+Tab (`prev == true`) within a
/// scope whose tab order is `order`, from `current`: step and wrap at the ends;
/// from outside the scope go to the first (Tab) or last (Shift+Tab) entry.
pub open spec fn spec_scope_tab_target(order: Seq<ElementId>, current: Option<ElementId>, prev: bool) -> Option<ElementId> {
    let len = order.len() as int;
    if len == 0 {
        None
    } else {
        let idx = match current {
            Some(c) => order.index_of_first(c),
            None => None,
        };
        let next = match idx {
            Some(i) => if prev {
                (i + len - 1) % len
            } else {
                (i + 1) % len
            },
            None => if prev {
                len - 1
            } else {
                0
            },
        };
        Some(order[next])
    }
}

/// Tab moves to the element after the current one in the scope's order (the
/// first one after the last), Shift+Tab to the one before it (the last one
/// before the first). `i` is where the current element first occurs.
pub proof fn lemma_scope_tab_steps(order: Seq<ElementId>, i: int)
    requires
        0 <= i < order.len(),
        forall|j: int| 0 <= j < i ==> order[j] != order[i],
    ensures
        spec_scope_tab_target(order, Some(order[i]), false) == Some(
            if i + 1 < order.len() {
                order[i + 1]
            } else {
                order[0]
            },
        ),
        spec_scope_tab_target(order, Some(order[i]), true) == Some(
            if i > 0 {
                order[i - 1]
            } else {
                order[order.len() - 1]
            },
        ),
{
    order.index_of_first_ensures(order[i]);
    let k = order.index_of_first(order[i]).unwrap();
    assert(k == i) by {
        if k < i {
            assert(order[k] == order[i]);
        }
        if k > i {
            assert(order[i] != order[i]);
        }
    }
    let len = order.len() as int;
    assert((i + 1) % len == if i + 1 < len { i + 1 } else { 0 }) by (nonlinear_arith)
        requires
            0 <= i < len,
    ;
    assert((i + len - 1) % len == if i > 0 { i - 1 } else { len - 1 }) by (nonlinear_arith)
        requires
            0 <= i < len,
    ;
}

/// From outside the scope (no current element, or one not in the order),
/// Tab enters at the first element and Shift+Tab at the last; an empty
/// scope has no target.
pub proof fn lemma_scope_tab_enters(order: Seq<ElementId>, current: Option<ElementId>)
    requires
        current matches Some(c) ==> !order.contains(c),
    ensures
        order.len() == 0 ==> spec_scope_tab_target(order, current, false) is None
            && spec_scope_tab_target(order, current, true) is None,
        order.len() > 0 ==> spec_scope_tab_target(order, current, false) == Some(order[0])
            && spec_scope_tab_target(order, current, true) == Some(order[order.len() - 1]),
{
    if let Some(c) = current {
        order.index_of_first_ensures(c);
    }
}

/// Next focus for Tab / Shift+Tab within a Tab scope (`None` iff `order` is empty).
pub fn scope_tab_target(order: &Vec<ElementId>, current: Option<ElementId>, prev: bool) -> (r: Option<ElementId>)
    ensures
        r == spec_scope_tab_target(order@, current, prev),
{
    let len = order.len();
    if len == 0 {
        return None;
    }
    let idx = match current {
        Some(c) => find_first(order, c),
        None => None,
    };
    let next = match idx {
        Some(i) => if prev {
            if i == 0 {
                len - 1
            } else {
                i - 1
            }
        } else {
            if i + 1 == len {
                0
            } else {
                i + 1
            }
        },
        None => if prev {
            len - 1
        } else {
            0
        },
    };
    proof {
        if let Some(i) = idx {
            if prev {
                if i == 0 {
                    assert((i + len - 1) % (len as int) == len - 1) by (nonlinear_arith)
                        requires
                            i == 0,
                            len > 0,
                    ;
                } else {
                    assert((i + len - 1) % (len as int) == i - 1) by (nonlinear_arith)
                        requires
                            0 < i < len,
                    ;
                }
            } else {
                assert(i + 1 <= len);
                if i + 1 == len {
                    assert((i + 1) % (len as int) == 0) by (nonlinear_arith)
                        requires
                            i + 1 == len,
                            len > 0,
                    ;
                } else {
                    assert((i + 1) % (len as int) == i + 1) by (nonlinear_arith)
                        requires
                            i + 1 < len,
                            len > 0,
                    ;
                }
            }
        }
    }
    Some(order[next])
}

/// The stack of active Tab scopes (subtree roots); the innermost is last.
#[derive(Debug)]
pub struct TabScopes {
    pub stack: Vec<ElementId>,
}

impl TabScopes {
    pub fn new() -> (r: TabScopes)
        ensures
            r.stack@ == Seq::<ElementId>::empty(),
    {
        TabScopes { stack: Vec::new() }
    }

    /// Confine Tab to `id`'s subtree.
    pub fn push_tab_scope(&mut self, id: ElementId)
        ensures
            final(self).stack@ == old(self).stack@.push(id),
    {
        self.stack.push(id);
    }

    /// Release a Tab scope: removes the innermost occurrence of `id` by value
    /// (not just the top); unknown ids change nothing.
    pub fn pop_tab_scope(&mut self, id: ElementId)
        ensures
            final(self).stack@ == (match old(self).stack@.index_of_last(id) {
                Some(i) => old(self).stack@.remove(i),
                None => old(self).stack@,
            }),
    {
        match find_last(&self.stack, id) {
            Some(pos) => {
                self.stack.remove(pos);
            },
            None => {},
        }
    }

    /// The innermost active Tab scope, if any.
    pub fn active_tab_scope(&self) -> (r: Option<ElementId>)
        ensures
            r == (if self.stack@.len() == 0 {
                None
            } else {
                Some(self.stack@.last())
            }),
    {
        if self.stack.len() == 0 {
            None
        } else {
            Some(self.stack[self.stack.len() - 1])
        }
    }

    /// Drop every scope (dev-mode full reload).
    pub fn clear(&mut self)
        ensures
            final(self).stack@ == Seq::<ElementId>::empty(),
    {
        self.stack.clear();
    }
}

/// Skip (re)arming a JS wake-up timer for deadline `due` only when a timer is
/// already in flight and its armed deadline is at or before `due`.
pub open spec fn spec_should_rearm(in_flight: bool, due: u64, armed: Option<u64>) -> bool {
    !(in_flight && match armed {
        Some(a) => due >= a,
        None => false,
    })
}

/// Whether to arm a new background timer for the next JS timer deadline `due`.
pub fn should_rearm(in_flight: bool, due: u64, armed: Option<u64>) -> (r: bool)
    ensures
        r == spec_should_rearm(in_flight, due, armed),
{
    let covered = match armed {
        Some(a) => due >= a,
        None => false,
    };
    !(in_flight && covered)
}

/// Commands JS issues to the native window, drained by the render pump.
#[derive(Debug, Clone)]
pub enum WindowCommand {
    /// Change the window title bar text.
    SetTitle(String),
    /// Move keyboard focus to the element with this id.
    FocusElement(ElementId),
    /// Focus the first tab stop inside this subtree (or the element itself).
    FocusFirstIn(ElementId),
    /// Remove focus from the element with this id.
    BlurElement(ElementId),
}

/// Frames to retry a deferred `focus()` before giving up.
pub const FOCUS_RETRY_BUDGET: u8 = 5;

/// Focus bookkeeping of the UI thread.
#[derive(Debug)]
pub struct FocusState {
    /// Element Tab navigation resumes from when focus falls to nothing.
    pub focus_anchor: Option<ElementId>,
    /// Element holding keyboard focus as of the last paint.
    pub active_element: Option<ElementId>,
    /// Deferred `focus()` requests with their remaining retry budget.
    pub pending_focus: Vec<(ElementId, u8)>,
    /// Elements that already received their initial autofocus.
    pub auto_focused: HashSet<ElementId>,
    /// Window commands queued for the next pump pass.
    pub window_commands: Vec<WindowCommand>,
    /// Active Tab scopes.
    pub tab_scopes: TabScopes,
}

impl FocusState {
    pub fn new() -> (r: FocusState)
        ensures
            r.focus_anchor is None,
            r.active_element is None,
            r.pending_focus@ == Seq::<(ElementId, u8)>::empty(),
            r.auto_focused@ == Set::<ElementId>::empty(),
            r.window_commands@ == Seq::<WindowCommand>::empty(),
            r.tab_scopes.stack@ == Seq::<ElementId>::empty(),
    {
        FocusState {
            focus_anchor: None,
            active_element: None,
            pending_focus: Vec::new(),
            auto_focused: HashSet::new(),
            window_commands: Vec::new(),
            tab_scopes: TabScopes::new(),
        }
    }

    /// Set or clear the Tab resume anchor.
    pub fn set_focus_anchor(&mut self, id: Option<ElementId>)
        ensures
            final(self).focus_anchor == id,
            final(self).active_element == old(self).active_element,
    {
        self.focus_anchor = id;
    }

    /// The Tab resume anchor, if any.
    pub fn focus_anchor(&self) -> (r: Option<ElementId>)
        ensures
            r == self.focus_anchor,
    {
        self.focus_anchor
    }

    /// Record the element holding focus as of the current paint.
    pub fn set_active_element(&mut self, id: Option<ElementId>)
        ensures
            final(self).active_element == id,
            final(self).focus_anchor == old(self).focus_anchor,
    {
        self.active_element = id;
    }

    /// The element holding keyboard focus as of the last paint.
    pub fn active_element(&self) -> (r: Option<ElementId>)
        ensures
            r == self.active_element,
    {
        self.active_element
    }

    /// Queue a window command.
    pub fn push_window_command(&mut self, cmd: WindowCommand)
        ensures
            final(self).window_commands@ == old(self).window_commands@.push(cmd),
    {
        self.window_commands.push(cmd);
    }

    /// Drain the window command queue (in queue order).
    pub fn take_window_commands(&mut self) -> (r: Vec<WindowCommand>)
        ensures
            r@ == old(self).window_commands@,
            final(self).window_commands@ == Seq::<WindowCommand>::empty(),
    {
        let mut taken: Vec<WindowCommand> = Vec::new();
        std::mem::swap(&mut taken, &mut self.window_commands);
        taken
    }

    /// Queue a focus retry for a later pass with `retries` attempts left.
    pub fn defer_focus(&mut self, id: ElementId, retries: u8)
        ensures
            final(self).pending_focus@ == old(self).pending_focus@.push((id, retries)),
    {
        self.pending_focus.push((id, retries));
    }

    /// Drain the focus retry list for this pass.
    pub fn take_pending_focus(&mut self) -> (r: Vec<(ElementId, u8)>)
        ensures
            r@ == old(self).pending_focus@,
            final(self).pending_focus@ == Seq::<(ElementId, u8)>::empty(),
    {
        let mut taken: Vec<(ElementId, u8)> = Vec::new();
        std::mem::swap(&mut taken, &mut self.pending_focus);
        taken
    }

    /// Whether any focus retries remain.
    pub fn has_pending_focus(&self) -> (r: bool)
        ensures
            r == (self.pending_focus@.len() > 0),
    {
        self.pending_focus.len() > 0
    }

    /// Mark `id` as having received its initial autofocus: `true` the first
    /// time for a given id, `false` afterwards.
    pub fn mark_autofocus(&mut self, id: ElementId) -> (r: bool)
        ensures
            r == !old(self).auto_focused@.contains(id),
            final(self).auto_focused@ == old(self).auto_focused@.insert(id),
            final(self).focus_anchor == old(self).focus_anchor,
            final(self).active_element == old(self).active_element,
            final(self).pending_focus@ == old(self).pending_focus@,
            final(self).window_commands@ == old(self).window_commands@,
            final(self).tab_scopes.stack@ == old(self).tab_scopes.stack@,
    {
        self.auto_focused.insert(id)
    }

    /// Forget per-element focus state of a destroyed element: its autofocus
    /// mark, an anchor / active element pointing at it, and its Tab scope.
    pub fn release_element(&mut self, id: ElementId)
        ensures
            final(self).auto_focused@ == old(self).auto_focused@.remove(id),
            final(self).focus_anchor == (if old(self).focus_anchor == Some(id) {
                None
            } else {
                old(self).focus_anchor
            }),
            final(self).active_element == (if old(self).active_element == Some(id) {
                None
            } else {
                old(self).active_element
            }),
            final(self).tab_scopes.stack@ == (match old(self).tab_scopes.stack@.index_of_last(id) {
                Some(i) => old(self).tab_scopes.stack@.remove(i),
                None => old(self).tab_scopes.stack@,
            }),
            final(self).window_commands@ == old(self).window_commands@,
            final(self).pending_focus@ == old(self).pending_focus@,
    {
        self.auto_focused.remove(&id);
        if self.focus_anchor == Some(id) {
            self.focus_anchor = None;
        }
        if self.active_element == Some(id) {
            self.active_element = None;
        }
        self.tab_scopes.pop_tab_scope(id);
    }

    /// Reset per-bundle focus state for a dev-mode full reload. The window
    /// command queue is kept (title changes during unmount still apply).
    pub fn reset_for_reload(&mut self)
        ensures
            final(self).auto_focused@ == Set::<ElementId>::empty(),
            final(self).pending_focus@ == Seq::<(ElementId, u8)>::empty(),
            final(self).focus_anchor is None,
            final(self).active_element is None,
            final(self).tab_scopes.stack@ == Seq::<ElementId>::empty(),
            final(self).window_commands@ == old(self).window_commands@,
    {
        self.auto_focused.clear();
        self.pending_focus.clear();
        self.focus_anchor = None;
        self.active_element = None;
        self.tab_scopes.clear();
    }
}

/// Monotonic element id source (ids start at 1 and are never reused).
#[derive(Debug)]
pub struct IdCounter {
    pub next: u64,
}

impl IdCounter {
    pub fn new() -> (r: IdCounter)
        ensures
            r.next == 1,
    {
        IdCounter { next: 1 }
    }

    /// Hand out the next id.
    pub fn next_id(&mut self) -> (r: ElementId)
        requires
            old(self).next < u64::MAX,
        ensures
            r == old(self).next,
            final(self).next == old(self).next + 1,
    {
        let id = self.next;
        self.next = id + 1;
        id
    }
}


/// `q` without the entries whose id is `id` (order of the rest kept).
pub open spec fn drop_id<C>(q: Seq<(u64, C)>, id: u64) -> Seq<(u64, C)>
    decreases q.len(),
{
    if q.len() == 0 {
        q
    } else {
        let rest = drop_id(q.drop_last(), id);
        if q.last().0 == id {
            rest
        } else {
            rest.push(q.last())
        }
    }
}

/// The `requestAnimationFrame` queue and its per-frame handshake: callbacks
/// wait with their ids until a frame fires; the whole batch then runs with
/// one timestamp.
#[derive(Debug)]
pub struct RafQueue<C> {
    /// Pending callbacks in registration order.
    pub queue: Vec<(u64, C)>,
    /// Next callback id (ids increase monotonically from 1).
    pub next_id: u64,
    /// Ids cancelled while their batch was already being drained.
    pub cancelled: HashSet<u64>,
    /// A frame callback is installed and has not fired yet.
    pub frame_armed: bool,
    /// A frame fired and its batch has not been taken yet.
    pub frame_fired: bool,
}

impl<C> RafQueue<C> {
    pub fn new() -> (r: RafQueue<C>)
        ensures
            r.queue@ == Seq::<(u64, C)>::empty(),
            r.next_id == 1,
            r.cancelled@ == Set::<u64>::empty(),
            !r.frame_armed,
            !r.frame_fired,
    {
        RafQueue { queue: Vec::new(), next_id: 1, cancelled: HashSet::new(), frame_armed: false, frame_fired: false }
    }

    /// Register a callback; returns its id.
    pub fn raf_request(&mut self, cb: C) -> (r: u64)
        requires
            old(self).next_id < u64::MAX,
        ensures
            r == old(self).next_id,
            final(self).next_id == old(self).next_id + 1,
            final(self).queue@ == old(self).queue@.push((r, cb)),
            final(self).cancelled@ == old(self).cancelled@,
            final(self).frame_armed == old(self).frame_armed,
            final(self).frame_fired == old(self).frame_fired,
    {
        let id = self.next_id;
        self.next_id = id + 1;
        self.queue.push((id, cb));
        id
    }

    /// Number of pending callbacks.
    pub fn raf_queue_len(&self) -> (r: usize)
        ensures
            r == self.queue@.len(),
    {
        self.queue.len()
    }

    /// Drop the entries registered after the first `len` (reload rollback).
    pub fn raf_truncate(&mut self, len: usize)
        ensures
            final(self).queue@ == (if len < old(self).queue@.len() {
                old(self).queue@.take(len as int)
            } else {
                old(self).queue@
            }),
            final(self).cancelled@ == old(self).cancelled@,
            final(self).next_id == old(self).next_id,
    {
        self.queue.truncate(len);
    }

    /// Drop the first `len` entries and forget pending cancellations (reload commit).
    pub fn raf_drop_front(&mut self, len: usize)
        requires
            len <= old(self).queue@.len(),
        ensures
            final(self).queue@ == old(self).queue@.skip(len as int),
            final(self).cancelled@ == Set::<u64>::empty(),
            final(self).next_id == old(self).next_id,
    {
        let mut k: usize = 0;
        let ghost q0 = self.queue@;
        let ghost n0 = self.next_id;
        assert(q0.skip(0) =~= q0);
        while k < len
            invariant
                0 <= k <= len <= q0.len(),
                self.queue@ == q0.skip(k as int),
                self.next_id == n0,
            decreases len - k,
        {
            self.queue.remove(0);
            k = k + 1;
            assert(self.queue@ =~= q0.skip(k as int));
        }
        self.cancelled.clear();
    }

    /// Cancel a pending callback: remove it from the queue and remember the id
    /// so a cancellation from inside a running batch still suppresses it.
    pub fn raf_cancel(&mut self, id: u64)
        ensures
            final(self).queue@ == drop_id(old(self).queue@, id),
            final(self).cancelled@ == old(self).cancelled@.insert(id),
            final(self).next_id == old(self).next_id,
            final(self).frame_armed == old(self).frame_armed,
            final(self).frame_fired == old(self).frame_fired,
    {
        let mut rest: Vec<(u64, C)> = Vec::new();
        std::mem::swap(&mut rest, &mut self.queue);
        let ghost q0 = rest@;
        let ghost n0 = self.next_id;
        let ghost a0 = self.frame_armed;
        let ghost f0 = self.frame_fired;
        let ghost c0 = self.cancelled@;
        let mut k: usize = 0;
        let n = rest.len();
        assert(q0.take(0) =~= Seq::<(u64, C)>::empty());
        assert(q0.skip(0) =~= q0);
        while rest.len() > 0
            invariant
                n == q0.len(),
                0 <= k <= q0.len(),
                rest@ == q0.skip(k as int),
                self.queue@ == drop_id(q0.take(k as int), id),
                self.next_id == n0,
                self.frame_armed == a0,
                self.frame_fired == f0,
                self.cancelled@ == c0,
            decreases rest@.len(),
        {
            let e = rest.remove(0);
            proof {
                assert(q0.take(k + 1).drop_last() =~= q0.take(k as int));
                assert(q0.take(k + 1).last() == e);
            }
            if e.0 != id {
                self.queue.push(e);
            }
            k = k + 1;
            assert(rest@ =~= q0.skip(k as int));
        }
        assert(q0.take(k as int) =~= q0);
        self.cancelled.insert(id);
    }

    /// When frame-driven work is pending (queued callbacks or `anim_active`)
    /// and no frame callback is armed yet, arm one and return `true`.
    pub fn raf_try_arm(&mut self, anim_active: bool) -> (r: bool)
        ensures
            r == ((old(self).queue@.len() > 0 || anim_active) && !old(self).frame_armed),
            final(self).frame_armed == (old(self).frame_armed || r),
            final(self).frame_fired == old(self).frame_fired,
            final(self).queue@ == old(self).queue@,
    {
        let pending = self.queue.len() > 0 || anim_active;
        if pending && !self.frame_armed {
            self.frame_armed = true;
            true
        } else {
            false
        }
    }

    /// The frame callback fired: disarm and flag the batch as due.
    pub fn raf_frame_fired(&mut self)
        ensures
            !final(self).frame_armed,
            final(self).frame_fired,
            final(self).queue@ == old(self).queue@,
    {
        self.frame_armed = false;
        self.frame_fired = true;
    }

    /// Consume the frame-fired flag (once per pump pass).
    pub fn take_frame_fired(&mut self) -> (r: bool)
        ensures
            r == old(self).frame_fired,
            !final(self).frame_fired,
            final(self).frame_armed == old(self).frame_armed,
            final(self).queue@ == old(self).queue@,
    {
        let fired = self.frame_fired;
        self.frame_fired = false;
        fired
    }

    /// Take the batch to run this frame: nothing unless `frame_fired`; an empty
    /// batch also forgets pending cancellations. Callbacks registered while the
    /// batch runs land in the fresh queue.
    pub fn take_batch(&mut self, frame_fired: bool) -> (r: Vec<(u64, C)>)
        ensures
            frame_fired ==> r@ == old(self).queue@ && final(self).queue@ == Seq::<(u64, C)>::empty(),
            !frame_fired ==> r@ == Seq::<(u64, C)>::empty() && final(self).queue@ == old(self).queue@,
            final(self).cancelled@ == (if frame_fired && old(self).queue@.len() == 0 {
                Set::<u64>::empty()
            } else {
                old(self).cancelled@
            }),
    {
        let mut batch: Vec<(u64, C)> = Vec::new();
        if !frame_fired {
            return batch;
        }
        std::mem::swap(&mut batch, &mut self.queue);
        if batch.len() == 0 {
            self.cancelled.clear();
        }
        batch
    }

    /// Whether callback `id` of the running batch was cancelled (consuming the mark).
    pub fn consume_cancel(&mut self, id: u64) -> (r: bool)
        ensures
            r == old(self).cancelled@.contains(id),
            final(self).cancelled@ == old(self).cancelled@.remove(id),
            final(self).queue@ == old(self).queue@,
    {
        self.cancelled.remove(&id)
    }

    /// The batch finished: forget its cancellations.
    pub fn end_batch(&mut self)
        ensures
            final(self).cancelled@ == Set::<u64>::empty(),
            final(self).queue@ == old(self).queue@,
    {
        self.cancelled.clear();
    }
}

/// UI commands from the reconciler waiting to be applied to the tree, in
/// arrival order.
#[derive(Debug)]
pub struct CommandQueue<C> {
    pub queue: Vec<C>,
}

impl<C> CommandQueue<C> {
    pub fn new() -> (r: Self)
        ensures
            r.queue@ == Seq::<C>::empty(),
    {
        CommandQueue { queue: Vec::new() }
    }

    /// Queue a command behind the others.
    pub fn push_command(&mut self, cmd: C)
        ensures
            final(self).queue@ == old(self).queue@.push(cmd),
    {
        self.queue.push(cmd);
    }

    /// Number of queued commands.
    pub fn command_queue_len(&self) -> (r: usize)
        ensures
            r == self.queue@.len(),
    {
        self.queue.len()
    }

    /// Drop every queued command (the partial mount of a failed reload).
    pub fn clear_command_queue(&mut self)
        ensures
            final(self).queue@ == Seq::<C>::empty(),
    {
        self.queue.clear();
    }

    /// Take every queued command, oldest first, leaving the queue empty.
    pub fn take_commands(&mut self) -> (r: Vec<C>)
        ensures
            r@ == old(self).queue@,
            final(self).queue@ == Seq::<C>::empty(),
    {
        let mut taken: Vec<C> = Vec::new();
        std::mem::swap(&mut self.queue, &mut taken);
        taken
    }
}

} // verus!
