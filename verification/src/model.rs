//! The element tree the reconciler drives: nodes keyed by id, the root list,
//! child → parent links and the derived text-input / focusable indices, kept
//! up to date by [`apply_command`].
//!
//! Each element carries the plain-valued props that tree decisions read
//! ([`Props`]) plus an opaque payload `P` for everything the renderer alone
//! interprets (colours, lengths, transitions, raw JSON).

use vstd::prelude::*;

use std::collections::{HashMap, HashSet};

use crate::id_list::{find_first, lemma_without_contains, lemma_without_no_dup, remove_all, without};
use crate::style_fields::StyleFields;
use crate::text_util::{chars_match, chars_of, str_eq};

verus! {

broadcast use vstd::std_specs::hash::group_hash_axioms;

pub type ElementId = u64;

/// Which JS event handlers an element has registered.
#[derive(Debug, Clone, Copy, PartialEq, Eq, Structural)]
pub struct Events {
    pub click: bool,
    pub mousedown: bool,
    pub mouseup: bool,
    pub mousemove: bool,
    pub mouseenter: bool,
    pub mouseleave: bool,
    pub keydown: bool,
    /// `onFocus` — element gained keyboard focus.
    pub focus: bool,
    /// `onBlur` — element lost keyboard focus.
    pub blur: bool,
}

/// No handler registered.
pub open spec fn no_events() -> Events {
    Events {
        click: false,
        mousedown: false,
        mouseup: false,
        mousemove: false,
        mouseenter: false,
        mouseleave: false,
        keydown: false,
        focus: false,
        blur: false,
    }
}

impl Default for Events {
    fn default() -> (r: Events)
        ensures
            r == no_events(),
    {
        Events {
            click: false,
            mousedown: false,
            mouseup: false,
            mousemove: false,
            mouseenter: false,
            mouseleave: false,
            keydown: false,
            focus: false,
            blur: false,
        }
    }
}

impl Events {
    /// At least one handler is registered.
    pub open spec fn spec_any(self) -> bool {
        self.click || self.mousedown || self.mouseup || self.mousemove || self.mouseenter
            || self.mouseleave || self.keydown || self.focus || self.blur
    }

    pub fn any(self) -> (r: bool)
        ensures
            r == self.spec_any(),
    {
        self.click || self.mousedown || self.mouseup || self.mousemove || self.mouseenter
            || self.mouseleave || self.keydown || self.focus || self.blur
    }

    /// `self` with the flag named by the event type `t` set; unknown types change nothing.
    pub open spec fn with_type(self, t: Seq<char>) -> Events {
        if t == "click"@ {
            Events { click: true, ..self }
        } else if t == "mousedown"@ {
            Events { mousedown: true, ..self }
        } else if t == "mouseup"@ {
            Events { mouseup: true, ..self }
        } else if t == "mousemove"@ {
            Events { mousemove: true, ..self }
        } else if t == "mouseenter"@ {
            Events { mouseenter: true, ..self }
        } else if t == "mouseleave"@ {
            Events { mouseleave: true, ..self }
        } else if t == "keydown"@ {
            Events { keydown: true, ..self }
        } else if t == "focus"@ {
            Events { focus: true, ..self }
        } else if t == "blur"@ {
            Events { blur: true, ..self }
        } else {
            self
        }
    }

    /// The flags set by a list of event types, applied in order.
    pub open spec fn spec_from_types(types: Seq<Seq<char>>) -> Events
        decreases types.len(),
    {
        if types.len() == 0 {
            no_events()
        } else {
            Self::spec_from_types(types.drop_last()).with_type(types.last())
        }
    }

    fn add_type(self, t: &str) -> (r: Events)
        ensures
            r == self.with_type(t@),
    {
        let cs = chars_of(t);
        let mut e = self;
        if chars_match(&cs, "click") {
            e.click = true;
        } else if chars_match(&cs, "mousedown") {
            e.mousedown = true;
        } else if chars_match(&cs, "mouseup") {
            e.mouseup = true;
        } else if chars_match(&cs, "mousemove") {
            e.mousemove = true;
        } else if chars_match(&cs, "mouseenter") {
            e.mouseenter = true;
        } else if chars_match(&cs, "mouseleave") {
            e.mouseleave = true;
        } else if chars_match(&cs, "keydown") {
            e.keydown = true;
        } else if chars_match(&cs, "focus") {
            e.focus = true;
        } else if chars_match(&cs, "blur") {
            e.blur = true;
        }
        e
    }

    /// Build the handler flags from the JS event-type names (`"click"`, …).
    pub fn from_types(types: &[String]) -> (r: Events)
        ensures
            r == Self::spec_from_types(types@.map_values(|s: String| s@)),
    {
        let ghost names = types@.map_values(|s: String| s@);
        let mut events = Events {
            click: false,
            mousedown: false,
            mouseup: false,
            mousemove: false,
            mouseenter: false,
            mouseleave: false,
            keydown: false,
            focus: false,
            blur: false,
        };
        let mut i: usize = 0;
        while i < types.len()
            invariant
                names == types@.map_values(|s: String| s@),
                0 <= i <= types@.len(),
                events == Self::spec_from_types(names.take(i as int)),
            decreases types@.len() - i,
        {
            proof {
                assert(names.take(i + 1).drop_last() =~= names.take(i as int));
                assert(names.take(i + 1).last() == types@[i as int]@);
            }
            events = events.add_type(types[i].as_str());
            i = i + 1;
        }
        proof {
            assert(names.take(types@.len() as int) =~= names);
        }
        events
    }
}

/// An optional string by its characters.
pub open spec fn opt_chars(o: Option<String>) -> Option<Seq<char>> {
    match o {
        Some(s) => Some(s@),
        None => None,
    }
}

/// Whether an optional string holds exactly `lit`.
pub fn opt_is(o: &Option<String>, lit: &str) -> (r: bool)
    ensures
        r == (opt_chars(*o) == Some(lit@)),
{
    match o {
        Some(s) => str_eq(s.as_str(), lit),
        None => false,
    }
}

/// Whether two optional strings hold the same characters.
pub fn opt_same(a: &Option<String>, b: &Option<String>) -> (r: bool)
    ensures
        r == (opt_chars(*a) == opt_chars(*b)),
{
    match (a, b) {
        (Some(x), Some(y)) => str_eq(x.as_str(), y.as_str()),
        (None, None) => true,
        _ => false,
    }
}

/// The element props that tree-level decisions read.
#[derive(Debug, Clone)]
pub struct Props {
    /// Keyword style fields (display / visibility / position / overflow).
    pub style: StyleFields,
    /// Whether a `_focus` override style is set.
    pub has_focus_style: bool,
    /// Whether a `_focusVisible` override style is set.
    pub has_focus_visible_style: bool,
    /// Tab order index (HTML `tabIndex`).
    pub tab_index: Option<i32>,
    /// Explicit `tabStop` override.
    pub tab_stop: Option<bool>,
    /// Receives keyboard focus on first render.
    pub autofocus: bool,
    /// Which event listeners to attach.
    pub events: Events,
    /// Whether the element is positioned against a named anchor (`floating`).
    pub has_floating: bool,
    /// Explicit override for mouse occlusion.
    pub occlude: Option<bool>,
}

/// Props with nothing set.
pub open spec fn empty_props() -> Props {
    Props {
        style: crate::style_fields::unset_style(),
        has_focus_style: false,
        has_focus_visible_style: false,
        tab_index: None,
        tab_stop: None,
        autofocus: false,
        events: no_events(),
        has_floating: false,
        occlude: None,
    }
}

impl Default for Props {
    fn default() -> (r: Props)
        ensures
            r == empty_props(),
    {
        Props {
            style: StyleFields::default(),
            has_focus_style: false,
            has_focus_visible_style: false,
            tab_index: None,
            tab_stop: None,
            autofocus: false,
            events: Events::default(),
            has_floating: false,
            occlude: None,
        }
    }
}

impl Props {
    /// Needs a focus handle: any focus-related prop is present.
    pub open spec fn spec_is_focusable(&self) -> bool {
        self.events.keydown || self.events.focus || self.events.blur || self.autofocus
            || self.tab_index.is_some() || self.has_focus_style || self.has_focus_visible_style
    }

    pub fn is_focusable(&self) -> (r: bool)
        ensures
            r == self.spec_is_focusable(),
    {
        self.events.keydown || self.events.focus || self.events.blur || self.autofocus
            || self.tab_index.is_some() || self.has_focus_style || self.has_focus_visible_style
    }

    /// Keyboard Tab stop: explicit `tabStop` wins; otherwise a text input is a
    /// stop unless `tabIndex < 0`, anything else only with `tabIndex >= 0`.
    pub open spec fn spec_resolve_tab_stop(&self, is_text_input: bool) -> bool {
        match self.tab_stop {
            Some(b) => b,
            None => if is_text_input {
                match self.tab_index {
                    Some(i) => i >= 0,
                    None => true,
                }
            } else {
                match self.tab_index {
                    Some(i) => i >= 0,
                    None => false,
                }
            },
        }
    }

    pub fn resolve_tab_stop(&self, is_text_input: bool) -> (r: bool)
        ensures
            r == self.spec_resolve_tab_stop(is_text_input),
    {
        match self.tab_stop {
            Some(b) => b,
            None => if is_text_input {
                match self.tab_index {
                    Some(i) => i >= 0,
                    None => true,
                }
            } else {
                match self.tab_index {
                    Some(i) => i >= 0,
                    None => false,
                }
            },
        }
    }

    /// Default overlay heuristic: floating, or `position: absolute`.
    pub open spec fn spec_is_overlay(&self) -> bool {
        self.has_floating || opt_chars(self.style.position) == Some("absolute"@)
    }

    pub fn is_overlay(&self) -> (r: bool)
        ensures
            r == self.spec_is_overlay(),
    {
        self.has_floating || opt_is(&self.style.position, "absolute")
    }

    /// Explicit `occlude` wins; otherwise occlude exactly the overlays.
    pub open spec fn spec_should_occlude(&self) -> bool {
        match self.occlude {
            Some(b) => b,
            None => self.spec_is_overlay(),
        }
    }

    pub fn should_occlude(&self) -> (r: bool)
        ensures
            r == self.spec_should_occlude(),
    {
        match self.occlude {
            Some(b) => b,
            None => self.is_overlay(),
        }
    }

    /// `display: none` or `visibility: hidden`: not Tab-reachable.
    pub open spec fn spec_hidden(&self) -> bool {
        opt_chars(self.style.display) == Some("none"@) || opt_chars(self.style.visibility)
            == Some("hidden"@)
    }

    pub fn hidden(&self) -> (r: bool)
        ensures
            r == self.spec_hidden(),
    {
        opt_is(&self.style.display, "none") || opt_is(&self.style.visibility, "hidden")
    }

    /// Field-by-field equality (strings by their characters).
    pub open spec fn spec_same(&self, other: &Props) -> bool {
        &&& opt_chars(self.style.display) == opt_chars(other.style.display)
        &&& opt_chars(self.style.visibility) == opt_chars(other.style.visibility)
        &&& opt_chars(self.style.position) == opt_chars(other.style.position)
        &&& self.style.overflow_x == other.style.overflow_x
        &&& self.style.overflow_y == other.style.overflow_y
        &&& self.has_focus_style == other.has_focus_style
        &&& self.has_focus_visible_style == other.has_focus_visible_style
        &&& self.tab_index == other.tab_index
        &&& self.tab_stop == other.tab_stop
        &&& self.autofocus == other.autofocus
        &&& self.events == other.events
        &&& self.has_floating == other.has_floating
        &&& self.occlude == other.occlude
    }

    pub fn same(&self, other: &Props) -> (r: bool)
        ensures
            r == self.spec_same(other),
    {
        opt_same(&self.style.display, &other.style.display) && opt_same(
            &self.style.visibility,
            &other.style.visibility,
        ) && opt_same(&self.style.position, &other.style.position)
            && self.style.overflow_x == other.style.overflow_x && self.style.overflow_y
            == other.style.overflow_y && self.has_focus_style == other.has_focus_style
            && self.has_focus_visible_style == other.has_focus_visible_style && self.tab_index
            == other.tab_index && self.tab_stop == other.tab_stop && self.autofocus
            == other.autofocus && self.events == other.events && self.has_floating
            == other.has_floating && self.occlude == other.occlude
    }
}


/// What kind of host element a node is.
#[derive(Debug, Clone)]
pub enum ElementKind {
    View,
    Text,
    Image,
    RawText,
    TextInput,
    /// A host-registered native component, addressed by its element-type name.
    Native(String),
}

/// One node of the tree.
#[derive(Debug, Clone)]
pub struct Element<P> {
    pub kind: ElementKind,
    pub props: Props,
    /// Renderer-only props.
    pub extra: P,
    pub text: Option<String>,
    pub children: Vec<ElementId>,
}

/// The element tree.
#[derive(Debug)]
pub struct Tree<P> {
    pub nodes: HashMap<ElementId, Element<P>>,
    pub root_children: Vec<ElementId>,
    pub parents: HashMap<ElementId, ElementId>,
    /// Index of the `TextInput` node ids.
    pub text_input_ids: HashSet<ElementId>,
    /// Index of the focusable node ids → their `autofocus` flag.
    pub focusable_ids: HashMap<ElementId, bool>,
}

/// What changed when commands were applied: which nodes must re-render,
/// whether the root list changed, and which ids were freed.
#[derive(Debug)]
pub struct ApplyOutcome {
    pub dirty_nodes: HashSet<ElementId>,
    pub root_dirty: bool,
    pub removed_nodes: Vec<ElementId>,
}

impl ApplyOutcome {
    pub fn new() -> (r: ApplyOutcome)
        ensures
            r.spec_empty(),
    {
        ApplyOutcome { dirty_nodes: HashSet::new(), root_dirty: false, removed_nodes: Vec::new() }
    }

    /// Nothing to re-render and nothing freed.
    pub open spec fn spec_empty(&self) -> bool {
        &&& self.dirty_nodes@ == Set::<ElementId>::empty()
        &&& !self.root_dirty
        &&& self.removed_nodes@ == Seq::<ElementId>::empty()
    }

    pub fn is_empty(&self) -> (r: bool)
        ensures
            r == self.spec_empty(),
    {
        let r = self.dirty_nodes.is_empty() && !self.root_dirty && self.removed_nodes.len() == 0;
        proof {
            if self.dirty_nodes@.is_empty() {
                assert(self.dirty_nodes@ =~= Set::<ElementId>::empty());
            }
            if self.removed_nodes@.len() == 0 {
                assert(self.removed_nodes@ =~= Seq::<ElementId>::empty());
            }
        }
        r
    }

    /// Only `id` needs re-rendering.
    pub open spec fn spec_only_node(&self, id: ElementId) -> bool {
        &&& self.dirty_nodes@ == Set::<ElementId>::empty().insert(id)
        &&& !self.root_dirty
        &&& self.removed_nodes@ == Seq::<ElementId>::empty()
    }

    /// Only the root list needs re-rendering.
    pub open spec fn spec_only_root(&self) -> bool {
        &&& self.dirty_nodes@ == Set::<ElementId>::empty()
        &&& self.root_dirty
        &&& self.removed_nodes@ == Seq::<ElementId>::empty()
    }

    fn dirty_node(id: ElementId) -> (r: ApplyOutcome)
        ensures
            r.spec_only_node(id),
    {
        let mut set: HashSet<ElementId> = HashSet::new();
        set.insert(id);
        ApplyOutcome { dirty_nodes: set, root_dirty: false, removed_nodes: Vec::new() }
    }

    fn dirty_root() -> (r: ApplyOutcome)
        ensures
            r.spec_only_root(),
    {
        ApplyOutcome { dirty_nodes: HashSet::new(), root_dirty: true, removed_nodes: Vec::new() }
    }

    /// Union of two outcomes (dirty sets united, root flags or-ed, removals concatenated).
    pub fn merge(&mut self, other: ApplyOutcome)
        ensures
            final(self).dirty_nodes@ == old(self).dirty_nodes@.union(other.dirty_nodes@),
            final(self).root_dirty == (old(self).root_dirty || other.root_dirty),
            final(self).removed_nodes@ == old(self).removed_nodes@ + other.removed_nodes@,
    {
        let ghost start = self.dirty_nodes@;
        let ghost r0 = self.root_dirty;
        let ghost rem0 = self.removed_nodes@;
        let ApplyOutcome { dirty_nodes, root_dirty, removed_nodes } = other;
        let ghost mut added: Set<ElementId> = Set::empty();
        for id in it: dirty_nodes.iter()
            invariant
                it.seq().unref().to_set() == dirty_nodes@,
                self.root_dirty == r0,
                self.removed_nodes@ == rem0,
                added == it.seq().take(it.index() as int).unref().to_set(),
                self.dirty_nodes@ == start.union(added),
                it.index() == it.seq().len() ==> added == dirty_nodes@,
        {
            proof {
                let a = it.seq().take(it.index() + 1).unref();
                let b = it.seq().take(it.index() as int).unref();
                assert(a =~= b.push(*id));
                assert(a.to_set() =~= b.to_set().insert(*id)) by {
                    assert forall|x: ElementId| a.to_set().contains(x) <==> b.to_set().insert(
                        *id,
                    ).contains(x) by {
                        if a.contains(x) {
                            let k = choose|k: int| 0 <= k < a.len() && a[k] == x;
                            if k < b.len() {
                                assert(b[k] == x);
                            }
                        }
                        if b.contains(x) {
                            let k = choose|k: int| 0 <= k < b.len() && b[k] == x;
                            assert(a[k] == x);
                        }
                        if x == *id {
                            assert(a[b.len() as int] == x);
                        }
                    }
                }
                added = added.insert(*id);
            }
            self.dirty_nodes.insert(*id);
            proof {
                assert(self.dirty_nodes@ =~= start.union(added));
                assert(it.index() + 1 == it.seq().len() ==> it.seq().take(it.index() + 1)
                    =~= it.seq());
            }
        }
        proof {
            assert(self.dirty_nodes@ =~= start.union(dirty_nodes@));
        }
        self.root_dirty = self.root_dirty || root_dirty;
        let mut i: usize = 0;
        let ghost before = self.removed_nodes@;
        let ghost dirty_after = self.dirty_nodes@;
        let ghost root_after = self.root_dirty;
        while i < removed_nodes.len()
            invariant
                self.dirty_nodes@ == dirty_after,
                self.root_dirty == root_after,
                0 <= i <= removed_nodes@.len(),
                self.removed_nodes@ == before + removed_nodes@.take(i as int),
            decreases removed_nodes@.len() - i,
        {
            self.removed_nodes.push(removed_nodes[i]);
            i = i + 1;
            proof {
                assert(self.removed_nodes@ =~= before + removed_nodes@.take(i as int));
            }
        }
        proof {
            assert(removed_nodes@.take(removed_nodes@.len() as int) =~= removed_nodes@);
        }
    }
}


impl<P> Default for Tree<P> {
    fn default() -> (t: Tree<P>)
        ensures
            t.nodes@ == Map::<ElementId, Element<P>>::empty(),
            t.root_children@ == Seq::<ElementId>::empty(),
            t.parents@ == Map::<ElementId, ElementId>::empty(),
            t.text_input_ids@ == Set::<ElementId>::empty(),
            t.focusable_ids@ == Map::<ElementId, bool>::empty(),
    {
        Tree::new()
    }
}

impl Default for ApplyOutcome {
    fn default() -> (r: ApplyOutcome)
        ensures
            r.spec_empty(),
    {
        ApplyOutcome::new()
    }
}

/// `s` with `child` moved to just before the first `before` (to the end when
/// `before` is absent once `child` has been taken out).
pub open spec fn insert_before(s: Seq<ElementId>, child: ElementId, before: ElementId) -> Seq<
    ElementId,
> {
    let t = without(s, child);
    match t.index_of_first(before) {
        Some(i) => t.insert(i, child),
        None => t.push(child),
    }
}

/// `s` with `child` moved to the end.
pub open spec fn append_last(s: Seq<ElementId>, child: ElementId) -> Seq<ElementId> {
    without(s, child).push(child)
}

/// `new` is `old` with only node `id`'s children replaced by `kids`.
pub open spec fn children_replaced<P>(
    old: Map<ElementId, Element<P>>,
    new: Map<ElementId, Element<P>>,
    id: ElementId,
    kids: Seq<ElementId>,
) -> bool {
    &&& new.dom() == old.dom()
    &&& forall|k: ElementId| k != id && old.contains_key(k) ==> new[k] == old[k]
    &&& new[id].kind == old[id].kind
    &&& new[id].props == old[id].props
    &&& new[id].extra == old[id].extra
    &&& new[id].text == old[id].text
    &&& new[id].children@ == kids
}

/// `new` is `old` with node `id` (present in `new`) set to the given fields and no children.
pub open spec fn node_set<P>(
    old: Map<ElementId, Element<P>>,
    new: Map<ElementId, Element<P>>,
    id: ElementId,
    kind: ElementKind,
    props: Props,
    extra: P,
    text: Option<String>,
) -> bool {
    &&& new.dom() == old.dom().insert(id)
    &&& forall|k: ElementId| k != id && old.contains_key(k) ==> new[k] == old[k]
    &&& new[id].kind == kind
    &&& new[id].props == props
    &&& new[id].extra == extra
    &&& new[id].text == text
    &&& new[id].children@.len() == 0
}

/// A command for the element tree.
pub enum UICommand<P> {
    CreateInstance { id: ElementId, kind: ElementKind, props: Props, extra: P },
    CreateText { id: ElementId, text: String, extra: P },
    AppendChild { parent: ElementId, child: ElementId },
    AppendToContainer { child: ElementId },
    InsertBefore { parent: ElementId, child: ElementId, before: ElementId },
    InsertInContainer { child: ElementId, before: ElementId },
    RemoveChild { parent: ElementId, child: ElementId },
    RemoveFromContainer { child: ElementId },
    /// `same_extra` tells whether `extra` equals the element's current payload.
    UpdateProps { id: ElementId, props: Props, extra: P, same_extra: bool },
    UpdateText { id: ElementId, text: String },
    ClearContainer,
    DetachDeleted { id: ElementId },
}

impl<P> Tree<P> {
    pub fn new() -> (t: Tree<P>)
        ensures
            t.nodes@ == Map::<ElementId, Element<P>>::empty(),
            t.root_children@ == Seq::<ElementId>::empty(),
            t.parents@ == Map::<ElementId, ElementId>::empty(),
            t.text_input_ids@ == Set::<ElementId>::empty(),
            t.focusable_ids@ == Map::<ElementId, bool>::empty(),
            t.consistent(),
    {
        Tree {
            nodes: HashMap::new(),
            root_children: Vec::new(),
            parents: HashMap::new(),
            text_input_ids: HashSet::new(),
            focusable_ids: HashMap::new(),
        }
    }

    /// The indices other than the node map are unchanged.
    pub open spec fn links_same(self, other: Tree<P>) -> bool {
        &&& other.root_children@ == self.root_children@
        &&& other.parents@ == self.parents@
        &&& other.text_input_ids@ == self.text_input_ids@
        &&& other.focusable_ids@ == self.focusable_ids@
    }

    /// Nothing observable changed.
    pub open spec fn unchanged(self, other: Tree<P>) -> bool {
        &&& other.nodes@ == self.nodes@
        &&& self.links_same(other)
    }

    /// Replace node `id`'s children by moving its element out and back in.
    fn set_children(&mut self, id: ElementId, kids: Vec<ElementId>)
        requires
            old(self).nodes@.contains_key(id),
        ensures
            children_replaced(old(self).nodes@, final(self).nodes@, id, kids@),
            old(self).links_same(*final(self)),
    {
        let mut node = self.nodes.remove(&id).unwrap();
        node.children = kids;
        self.nodes.insert(id, node);
        proof {
            assert(final(self).nodes@.dom() =~= old(self).nodes@.dom());
        }
    }

    pub open spec fn create_instance_post(
        self,
        new: Tree<P>,
        out: ApplyOutcome,
        id: ElementId,
        kind: ElementKind,
        props: Props,
        extra: P,
    ) -> bool {
        &&& node_set(self.nodes@, new.nodes@, id, kind, props, extra, None)
        &&& new.text_input_ids@ == (if kind is TextInput {
            self.text_input_ids@.insert(id)
        } else {
            self.text_input_ids@
        })
        &&& new.focusable_ids@ == (if props.spec_is_focusable() {
            self.focusable_ids@.insert(id, props.autofocus)
        } else {
            self.focusable_ids@
        })
        &&& new.root_children@ == self.root_children@
        &&& new.parents@ == self.parents@
        &&& out.spec_empty()
    }

    /// `CreateInstance`: add (or overwrite) node `id` with no children, and
    /// index it as a text input / focusable as its kind and props say.
    pub fn create_instance(&mut self, id: ElementId, kind: ElementKind, props: Props, extra: P) -> (out: ApplyOutcome)
        ensures
            old(self).create_instance_post(*final(self), out, id, kind, props, extra),
    {
        let is_text_input = match kind {
            ElementKind::TextInput => true,
            _ => false,
        };
        if is_text_input {
            self.text_input_ids.insert(id);
        }
        if props.is_focusable() {
            self.focusable_ids.insert(id, props.autofocus);
        }
        self.nodes.insert(id, Element { kind, props, extra, text: None, children: Vec::new() });
        proof {
            assert(final(self).nodes@.dom() =~= old(self).nodes@.dom().insert(id));
        }
        ApplyOutcome::new()
    }

    pub open spec fn create_text_post(
        self,
        new: Tree<P>,
        out: ApplyOutcome,
        id: ElementId,
        text: String,
        extra: P,
    ) -> bool {
        &&& node_set(self.nodes@, new.nodes@, id, ElementKind::RawText, new.nodes@[id].props, extra, Some(text))
        &&& new.nodes@[id].props == empty_props()
        &&& self.links_same(new)
        &&& out.spec_empty()
    }

    /// `CreateText`: add (or overwrite) a raw text node with default props.
    pub fn create_text(&mut self, id: ElementId, text: String, extra: P) -> (out: ApplyOutcome)
        ensures
            old(self).create_text_post(*final(self), out, id, text, extra),
    {
        let props = Props::default();
        self.nodes.insert(
            id,
            Element { kind: ElementKind::RawText, props, extra, text: Some(text), children: Vec::new() },
        );
        proof {
            assert(final(self).nodes@.dom() =~= old(self).nodes@.dom().insert(id));
        }
        ApplyOutcome::new()
    }

    pub open spec fn append_child_post(self, new: Tree<P>, out: ApplyOutcome, parent: ElementId, child: ElementId) -> bool {
        if self.nodes@.contains_key(parent) {
            &&& children_replaced(self.nodes@, new.nodes@, parent, append_last(self.nodes@[parent].children@, child))
            &&& new.parents@ == self.parents@.insert(child, parent)
            &&& new.root_children@ == self.root_children@
            &&& new.text_input_ids@ == self.text_input_ids@
            &&& new.focusable_ids@ == self.focusable_ids@
            &&& out.spec_only_node(parent)
        } else {
            &&& self.unchanged(new)
            &&& out.spec_empty()
        }
    }

    /// `AppendChild`: move `child` to the end of `parent`'s children (a
    /// re-append of an existing child repositions it); no-op for an unknown parent.
    pub fn append_child(&mut self, parent: ElementId, child: ElementId) -> (out: ApplyOutcome)
        ensures
            old(self).append_child_post(*final(self), out, parent, child),
    {
        if !self.nodes.contains_key(&parent) {
            return ApplyOutcome::new();
        }
        let mut node = self.nodes.remove(&parent).unwrap();
        remove_all(&mut node.children, child);
        node.children.push(child);
        self.nodes.insert(parent, node);
        self.parents.insert(child, parent);
        proof {
            assert(final(self).nodes@.dom() =~= old(self).nodes@.dom());
        }
        ApplyOutcome::dirty_node(parent)
    }

    pub open spec fn insert_before_post(
        self,
        new: Tree<P>,
        out: ApplyOutcome,
        parent: ElementId,
        child: ElementId,
        before: ElementId,
    ) -> bool {
        if self.nodes@.contains_key(parent) {
            &&& children_replaced(self.nodes@, new.nodes@, parent, insert_before(self.nodes@[parent].children@, child, before))
            &&& new.parents@ == self.parents@.insert(child, parent)
            &&& new.root_children@ == self.root_children@
            &&& new.text_input_ids@ == self.text_input_ids@
            &&& new.focusable_ids@ == self.focusable_ids@
            &&& out.spec_only_node(parent)
        } else {
            &&& self.unchanged(new)
            &&& out.spec_empty()
        }
    }

    /// `InsertBefore`: take `child` out of `parent`'s children, then put it just
    /// before `before` (at the end when `before` is not a child).
    pub fn insert_before(&mut self, parent: ElementId, child: ElementId, before: ElementId) -> (out: ApplyOutcome)
        ensures
            old(self).insert_before_post(*final(self), out, parent, child, before),
    {
        if !self.nodes.contains_key(&parent) {
            return ApplyOutcome::new();
        }
        let mut node = self.nodes.remove(&parent).unwrap();
        remove_all(&mut node.children, child);
        match find_first(&node.children, before) {
            Some(pos) => node.children.insert(pos, child),
            None => node.children.push(child),
        }
        self.nodes.insert(parent, node);
        self.parents.insert(child, parent);
        proof {
            assert(final(self).nodes@.dom() =~= old(self).nodes@.dom());
        }
        ApplyOutcome::dirty_node(parent)
    }

    pub open spec fn append_to_container_post(self, new: Tree<P>, out: ApplyOutcome, child: ElementId) -> bool {
        &&& new.nodes@ == self.nodes@
        &&& new.root_children@ == append_last(self.root_children@, child)
        &&& new.parents@ == self.parents@.remove(child)
        &&& new.text_input_ids@ == self.text_input_ids@
        &&& new.focusable_ids@ == self.focusable_ids@
        &&& out.spec_only_root()
    }

    /// `AppendToContainer`: move `child` to the end of the root list.
    pub fn append_to_container(&mut self, child: ElementId) -> (out: ApplyOutcome)
        ensures
            old(self).append_to_container_post(*final(self), out, child),
    {
        remove_all(&mut self.root_children, child);
        self.root_children.push(child);
        self.parents.remove(&child);
        ApplyOutcome::dirty_root()
    }

    pub open spec fn insert_in_container_post(
        self,
        new: Tree<P>,
        out: ApplyOutcome,
        child: ElementId,
        before: ElementId,
    ) -> bool {
        &&& new.nodes@ == self.nodes@
        &&& new.root_children@ == insert_before(self.root_children@, child, before)
        &&& new.parents@ == self.parents@.remove(child)
        &&& new.text_input_ids@ == self.text_input_ids@
        &&& new.focusable_ids@ == self.focusable_ids@
        &&& out.spec_only_root()
    }

    /// `InsertInContainer`: move `child` to just before `before` in the root list.
    pub fn insert_in_container(&mut self, child: ElementId, before: ElementId) -> (out: ApplyOutcome)
        ensures
            old(self).insert_in_container_post(*final(self), out, child, before),
    {
        remove_all(&mut self.root_children, child);
        match find_first(&self.root_children, before) {
            Some(pos) => self.root_children.insert(pos, child),
            None => self.root_children.push(child),
        }
        self.parents.remove(&child);
        ApplyOutcome::dirty_root()
    }

    pub open spec fn remove_child_post(self, new: Tree<P>, out: ApplyOutcome, parent: ElementId, child: ElementId) -> bool {
        if self.nodes@.contains_key(parent) && self.nodes@[parent].children@.contains(child) {
            &&& children_replaced(self.nodes@, new.nodes@, parent, without(self.nodes@[parent].children@, child))
            &&& new.parents@ == (if self.parents@.contains_key(child) && self.parents@[child] == parent {
                self.parents@.remove(child)
            } else {
                self.parents@
            })
            &&& new.root_children@ == self.root_children@
            &&& new.text_input_ids@ == self.text_input_ids@
            &&& new.focusable_ids@ == self.focusable_ids@
            &&& out.spec_only_node(parent)
        } else {
            &&& self.unchanged(new)
            &&& out.spec_empty()
        }
    }

    /// `RemoveChild`: drop `child` from `parent`'s children (and its parent
    /// link when it points at `parent`); no-op when it is not a child there.
    pub fn remove_child(&mut self, parent: ElementId, child: ElementId) -> (out: ApplyOutcome)
        ensures
            old(self).remove_child_post(*final(self), out, parent, child),
    {
        let present = match self.nodes.get(&parent) {
            Some(node) => find_first(&node.children, child).is_some(),
            None => false,
        };
        if !present {
            proof {
                if old(self).nodes@.contains_key(parent) {
                    old(self).nodes@[parent].children@.index_of_first_ensures(child);
                }
            }
            return ApplyOutcome::new();
        }
        proof {
            old(self).nodes@[parent].children@.index_of_first_ensures(child);
        }
        let mut node = self.nodes.remove(&parent).unwrap();
        remove_all(&mut node.children, child);
        self.nodes.insert(parent, node);
        let linked = match self.parents.get(&child) {
            Some(p) => *p == parent,
            None => false,
        };
        if linked {
            self.parents.remove(&child);
        }
        proof {
            assert(final(self).nodes@.dom() =~= old(self).nodes@.dom());
        }
        ApplyOutcome::dirty_node(parent)
    }

    pub open spec fn remove_from_container_post(self, new: Tree<P>, out: ApplyOutcome, child: ElementId) -> bool {
        if self.root_children@.contains(child) {
            &&& new.nodes@ == self.nodes@
            &&& new.root_children@ == without(self.root_children@, child)
            &&& new.parents@ == self.parents@
            &&& new.text_input_ids@ == self.text_input_ids@
            &&& new.focusable_ids@ == self.focusable_ids@
            &&& out.spec_only_root()
        } else {
            &&& self.unchanged(new)
            &&& out.spec_empty()
        }
    }

    /// `RemoveFromContainer`: drop `child` from the root list (the node and its
    /// indices stay until `DetachDeleted`).
    pub fn remove_from_container(&mut self, child: ElementId) -> (out: ApplyOutcome)
        ensures
            old(self).remove_from_container_post(*final(self), out, child),
    {
        proof {
            old(self).root_children@.index_of_first_ensures(child);
        }
        if find_first(&self.root_children, child).is_none() {
            return ApplyOutcome::new();
        }
        remove_all(&mut self.root_children, child);
        ApplyOutcome::dirty_root()
    }

    pub open spec fn update_props_post(
        self,
        new: Tree<P>,
        out: ApplyOutcome,
        id: ElementId,
        props: Props,
        extra: P,
        same_extra: bool,
    ) -> bool {
        if self.nodes@.contains_key(id) && !(self.nodes@[id].props.spec_same(&props) && same_extra) {
            &&& new.nodes@.dom() == self.nodes@.dom()
            &&& forall|k: ElementId| k != id && self.nodes@.contains_key(k) ==> new.nodes@[k] == self.nodes@[k]
            &&& new.nodes@[id].kind == self.nodes@[id].kind
            &&& new.nodes@[id].text == self.nodes@[id].text
            &&& new.nodes@[id].children@ == self.nodes@[id].children@
            &&& new.nodes@[id].props == props
            &&& new.nodes@[id].extra == extra
            &&& new.focusable_ids@ == (if props.spec_is_focusable() {
                self.focusable_ids@.insert(id, props.autofocus)
            } else {
                self.focusable_ids@.remove(id)
            })
            &&& new.root_children@ == self.root_children@
            &&& new.parents@ == self.parents@
            &&& new.text_input_ids@ == self.text_input_ids@
            &&& out.spec_only_node(id)
        } else {
            &&& self.unchanged(new)
            &&& out.spec_empty()
        }
    }

    /// `UpdateProps`: replace node `id`'s props (no-op when nothing changed or
    /// the node is unknown) and re-derive its focusable entry.
    pub fn update_props(&mut self, id: ElementId, props: Props, extra: P, same_extra: bool) -> (out: ApplyOutcome)
        ensures
            old(self).update_props_post(*final(self), out, id, props, extra, same_extra),
    {
        let same = match self.nodes.get(&id) {
            Some(node) => node.props.same(&props) && same_extra,
            None => true,
        };
        if same {
            return ApplyOutcome::new();
        }
        if props.is_focusable() {
            self.focusable_ids.insert(id, props.autofocus);
        } else {
            self.focusable_ids.remove(&id);
        }
        let mut node = self.nodes.remove(&id).unwrap();
        node.props = props;
        node.extra = extra;
        self.nodes.insert(id, node);
        proof {
            assert(final(self).nodes@.dom() =~= old(self).nodes@.dom());
        }
        ApplyOutcome::dirty_node(id)
    }

    pub open spec fn update_text_post(self, new: Tree<P>, out: ApplyOutcome, id: ElementId, text: String) -> bool {
        if self.nodes@.contains_key(id) && opt_chars(self.nodes@[id].text) != Some(text@) {
            &&& new.nodes@.dom() == self.nodes@.dom()
            &&& forall|k: ElementId| k != id && self.nodes@.contains_key(k) ==> new.nodes@[k] == self.nodes@[k]
            &&& new.nodes@[id].kind == self.nodes@[id].kind
            &&& new.nodes@[id].props == self.nodes@[id].props
            &&& new.nodes@[id].extra == self.nodes@[id].extra
            &&& new.nodes@[id].children@ == self.nodes@[id].children@
            &&& new.nodes@[id].text == Some(text)
            &&& self.links_same(new)
            &&& (if self.parents@.contains_key(id) {
                out.spec_only_node(self.parents@[id])
            } else {
                out.spec_only_root()
            })
        } else {
            &&& self.unchanged(new)
            &&& out.spec_empty()
        }
    }

    /// `UpdateText`: replace node `id`'s text and mark its parent (or the root) dirty.
    pub fn update_text(&mut self, id: ElementId, text: String) -> (out: ApplyOutcome)
        ensures
            old(self).update_text_post(*final(self), out, id, text),
    {
        let same = match self.nodes.get(&id) {
            Some(node) => opt_same_str(&node.text, text.as_str()),
            None => true,
        };
        if same {
            return ApplyOutcome::new();
        }
        let mut node = self.nodes.remove(&id).unwrap();
        node.text = Some(text);
        self.nodes.insert(id, node);
        proof {
            assert(final(self).nodes@.dom() =~= old(self).nodes@.dom());
        }
        match self.parents.get(&id) {
            Some(p) => ApplyOutcome::dirty_node(*p),
            None => ApplyOutcome::dirty_root(),
        }
    }

    pub open spec fn clear_container_post(self, new: Tree<P>, out: ApplyOutcome) -> bool {
        if self.root_children@.len() > 0 {
            &&& new.nodes@ == self.nodes@
            &&& new.root_children@ == Seq::<ElementId>::empty()
            &&& new.parents@ == self.parents@
            &&& new.text_input_ids@ == self.text_input_ids@
            &&& new.focusable_ids@ == self.focusable_ids@
            &&& out.spec_only_root()
        } else {
            &&& self.unchanged(new)
            &&& out.spec_empty()
        }
    }

    /// `ClearContainer`: empty the root list (nodes stay until detached).
    pub fn clear_container(&mut self) -> (out: ApplyOutcome)
        ensures
            old(self).clear_container_post(*final(self), out),
    {
        if self.root_children.len() == 0 {
            return ApplyOutcome::new();
        }
        self.root_children.clear();
        ApplyOutcome::dirty_root()
    }

    pub open spec fn detach_deleted_post(self, new: Tree<P>, out: ApplyOutcome, id: ElementId) -> bool {
        &&& new.nodes@ == self.nodes@.remove(id)
        &&& new.parents@ == self.parents@.remove(id)
        &&& new.text_input_ids@ == self.text_input_ids@.remove(id)
        &&& new.focusable_ids@ == self.focusable_ids@.remove(id)
        &&& new.root_children@ == self.root_children@
        &&& out.dirty_nodes@ == Set::<ElementId>::empty()
        &&& !out.root_dirty
        &&& out.removed_nodes@ == seq![id]
    }

    /// `DetachDeleted`: free node `id` and drop it from every index. Marks
    /// nothing dirty (the preceding removal already did).
    pub fn detach_deleted(&mut self, id: ElementId) -> (out: ApplyOutcome)
        ensures
            old(self).detach_deleted_post(*final(self), out, id),
    {
        self.text_input_ids.remove(&id);
        self.focusable_ids.remove(&id);
        self.nodes.remove(&id);
        self.parents.remove(&id);
        let mut out = ApplyOutcome::new();
        out.removed_nodes.push(id);
        proof {
            assert(out.removed_nodes@ =~= seq![id]);
        }
        out
    }
}

/// Whether an optional string holds exactly the characters of `t`.
pub fn opt_same_str(o: &Option<String>, t: &str) -> (r: bool)
    ensures
        r == (opt_chars(*o) == Some(t@)),
{
    match o {
        Some(s) => str_eq(s.as_str(), t),
        None => false,
    }
}


impl<P> Tree<P> {
    /// The exact effect of `cmd` on `self`, giving `new` and `out`.
    pub open spec fn apply_post(self, new: Tree<P>, out: ApplyOutcome, cmd: UICommand<P>) -> bool {
        match cmd {
            UICommand::CreateInstance { id, kind, props, extra } => self.create_instance_post(new, out, id, kind, props, extra),
            UICommand::CreateText { id, text, extra } => self.create_text_post(new, out, id, text, extra),
            UICommand::AppendChild { parent, child } => self.append_child_post(new, out, parent, child),
            UICommand::AppendToContainer { child } => self.append_to_container_post(new, out, child),
            UICommand::InsertBefore { parent, child, before } => self.insert_before_post(new, out, parent, child, before),
            UICommand::InsertInContainer { child, before } => self.insert_in_container_post(new, out, child, before),
            UICommand::RemoveChild { parent, child } => self.remove_child_post(new, out, parent, child),
            UICommand::RemoveFromContainer { child } => self.remove_from_container_post(new, out, child),
            UICommand::UpdateProps { id, props, extra, same_extra } => self.update_props_post(new, out, id, props, extra, same_extra),
            UICommand::UpdateText { id, text } => self.update_text_post(new, out, id, text),
            UICommand::ClearContainer => self.clear_container_post(new, out),
            UICommand::DetachDeleted { id } => self.detach_deleted_post(new, out, id),
        }
    }
}

/// Whether any focus-related prop is set: a key-down, focus or blur
/// listener, autofocus, a tab index, or a `_focus` / `_focusVisible` style.
pub open spec fn has_focus_prop(p: Props) -> bool {
    ||| p.events.keydown
    ||| p.events.focus
    ||| p.events.blur
    ||| p.autofocus
    ||| p.tab_index is Some
    ||| p.has_focus_style
    ||| p.has_focus_visible_style
}

/// Each focus-related prop alone makes an element focusable; without any of
/// them (whatever mouse listeners or other props it has) it is not.
pub proof fn lemma_focusable_props(p: Props)
    ensures
        p.events.keydown ==> p.spec_is_focusable(),
        p.events.focus ==> p.spec_is_focusable(),
        p.events.blur ==> p.spec_is_focusable(),
        p.autofocus ==> p.spec_is_focusable(),
        p.tab_index is Some ==> p.spec_is_focusable(),
        p.has_focus_style ==> p.spec_is_focusable(),
        p.has_focus_visible_style ==> p.spec_is_focusable(),
        !has_focus_prop(p) ==> !p.spec_is_focusable(),
{
}

/// Creating an element with a focus-related prop registers it as focusable
/// (with its autofocus flag); creating one without leaves the registry as it
/// was.
pub proof fn lemma_create_registers_focusable<P>(
    old: Tree<P>,
    new: Tree<P>,
    out: ApplyOutcome,
    id: ElementId,
    kind: ElementKind,
    props: Props,
    extra: P,
)
    requires
        old.apply_post(new, out, UICommand::CreateInstance { id, kind, props, extra }),
    ensures
        has_focus_prop(props) ==> new.focusable_ids@.contains_key(id) && new.focusable_ids@[id] == props.autofocus,
        !has_focus_prop(props) ==> new.focusable_ids@ == old.focusable_ids@,
{
}

/// Updating an element's props to ones with a focus-related prop registers
/// it as focusable; to ones without, unregisters it (when the props changed).
pub proof fn lemma_update_registers_focusable<P>(
    old: Tree<P>,
    new: Tree<P>,
    out: ApplyOutcome,
    id: ElementId,
    props: Props,
    extra: P,
    same_extra: bool,
)
    requires
        old.apply_post(new, out, UICommand::UpdateProps { id, props, extra, same_extra }),
        old.nodes@.contains_key(id),
        !(old.nodes@[id].props.spec_same(&props) && same_extra),
    ensures
        has_focus_prop(props) ==> new.focusable_ids@.contains_key(id) && new.focusable_ids@[id] == props.autofocus,
        !has_focus_prop(props) ==> !new.focusable_ids@.contains_key(id),
{
}

/// Apply one reconciler command to the tree, reporting what must re-render.
pub fn apply_command<P>(tree: &mut Tree<P>, cmd: UICommand<P>) -> (out: ApplyOutcome)
    ensures
        old(tree).apply_post(*final(tree), out, cmd),
        old(tree).consistent() && old(tree).admits(cmd) ==> final(tree).consistent(),
{
    let ghost c = cmd;
    let out = match cmd {
        UICommand::CreateInstance { id, kind, props, extra } => tree.create_instance(id, kind, props, extra),
        UICommand::CreateText { id, text, extra } => tree.create_text(id, text, extra),
        UICommand::AppendChild { parent, child } => tree.append_child(parent, child),
        UICommand::AppendToContainer { child } => tree.append_to_container(child),
        UICommand::InsertBefore { parent, child, before } => tree.insert_before(parent, child, before),
        UICommand::InsertInContainer { child, before } => tree.insert_in_container(child, before),
        UICommand::RemoveChild { parent, child } => tree.remove_child(parent, child),
        UICommand::RemoveFromContainer { child } => tree.remove_from_container(child),
        UICommand::UpdateProps { id, props, extra, same_extra } => tree.update_props(id, props, extra, same_extra),
        UICommand::UpdateText { id, text } => tree.update_text(id, text),
        UICommand::ClearContainer => tree.clear_container(),
        UICommand::DetachDeleted { id } => tree.detach_deleted(id),
    };
    proof {
        if old(tree).consistent() && old(tree).admits(c) {
            lemma_apply_keeps_consistent(*old(tree), *tree, out, c);
        }
    }
    out
}


/// Membership after inserting `x` at position `i`.
proof fn lemma_insert_contains(t: Seq<ElementId>, i: int, x: ElementId)
    requires
        0 <= i <= t.len(),
    ensures
        forall|y: ElementId| #[trigger] t.insert(i, x).contains(y) <==> (t.contains(y) || y == x),
        !t.contains(x) && t.no_duplicates() ==> t.insert(i, x).no_duplicates(),
{
    let u = t.insert(i, x);
    assert forall|y: ElementId| #[trigger] u.contains(y) <==> (t.contains(y) || y == x) by {
        if u.contains(y) {
            let k = choose|k: int| 0 <= k < u.len() && u[k] == y;
            if k < i {
                assert(t[k] == y);
            } else if k > i {
                assert(t[k - 1] == y);
            }
        }
        if t.contains(y) {
            let k = choose|k: int| 0 <= k < t.len() && t[k] == y;
            if k < i {
                assert(u[k] == y);
            } else {
                assert(u[k + 1] == y);
            }
        }
        if y == x {
            assert(u[i] == y);
        }
    }
    if !t.contains(x) && t.no_duplicates() {
        assert forall|a: int, b: int| 0 <= a < u.len() && 0 <= b < u.len() && a != b implies u[a]
            != u[b] by {
            if a == i {
                if b < i {
                    assert(u[b] == t[b]);
                } else {
                    assert(u[b] == t[b - 1]);
                }
                assert(t.contains(u[b]));
            } else if b == i {
                if a < i {
                    assert(u[a] == t[a]);
                } else {
                    assert(u[a] == t[a - 1]);
                }
                assert(t.contains(u[a]));
            } else {
                let ta = if a < i { a } else { a - 1 };
                let tb = if b < i { b } else { b - 1 };
                assert(u[a] == t[ta]);
                assert(u[b] == t[tb]);
            }
        }
    }
}

/// Membership and uniqueness after moving `child` to the end.
proof fn lemma_append_last(s: Seq<ElementId>, child: ElementId)
    ensures
        forall|y: ElementId| #[trigger] append_last(s, child).contains(y) <==> (s.contains(y) || y == child),
        s.no_duplicates() ==> append_last(s, child).no_duplicates(),
{
    let t = without(s, child);
    lemma_without_contains(s, child);
    assert(t.push(child) == t.insert(t.len() as int, child));
    lemma_insert_contains(t, t.len() as int, child);
    if s.no_duplicates() {
        lemma_without_no_dup(s, child);
    }
}

/// Membership and uniqueness after moving `child` before `before`.
proof fn lemma_insert_before(s: Seq<ElementId>, child: ElementId, before: ElementId)
    ensures
        forall|y: ElementId| #[trigger] insert_before(s, child, before).contains(y) <==> (s.contains(y) || y == child),
        s.no_duplicates() ==> insert_before(s, child, before).no_duplicates(),
{
    let t = without(s, child);
    lemma_without_contains(s, child);
    t.index_of_first_ensures(before);
    if s.no_duplicates() {
        lemma_without_no_dup(s, child);
    }
    match t.index_of_first(before) {
        Some(i) => {
            lemma_insert_contains(t, i, child);
        },
        None => {
            assert(t.push(child) == t.insert(t.len() as int, child));
            lemma_insert_contains(t, t.len() as int, child);
        },
    }
}

impl<P> Tree<P> {
    /// Structural consistency: parent links and child lists agree, child and
    /// root lists are duplicate-free and name live nodes, root children have no
    /// parent, and the two indices only name live nodes (text inputs of the
    /// right kind).
    pub open spec fn consistent(self) -> bool {
        let nodes = self.nodes@;
        let parents = self.parents@;
        let roots = self.root_children@;
        &&& forall|c: ElementId| #[trigger] parents.contains_key(c) ==> nodes.contains_key(parents[c]) && nodes[parents[c]].children@.contains(c)
        &&& forall|p: ElementId, c: ElementId| nodes.contains_key(p) && #[trigger] nodes[p].children@.contains(c) ==> nodes.contains_key(c) && parents.contains_key(c) && parents[c] == p
        &&& forall|p: ElementId| #[trigger] nodes.contains_key(p) ==> nodes[p].children@.no_duplicates()
        &&& roots.no_duplicates()
        &&& forall|c: ElementId| #[trigger] roots.contains(c) ==> nodes.contains_key(c) && !parents.contains_key(c)
        &&& forall|id: ElementId| #[trigger] self.text_input_ids@.contains(id) ==> nodes.contains_key(id) && nodes[id].kind is TextInput
        &&& forall|id: ElementId| #[trigger] self.focusable_ids@.contains_key(id) ==> nodes.contains_key(id)
    }

    /// `child` may be hung under `parent`: it is a live node, not a root child,
    /// and not currently a child of another node.
    pub open spec fn attachable(self, parent: ElementId, child: ElementId) -> bool {
        &&& self.nodes@.contains_key(child)
        &&& !self.root_children@.contains(child)
        &&& (!self.parents@.contains_key(child) || self.parents@[child] == parent)
    }

    /// The reconciler protocol under which `cmd` keeps the tree consistent:
    /// new nodes use fresh ids, a node is attached in one place at a time, and
    /// a node is freed only once it is detached and childless.
    pub open spec fn admits(self, cmd: UICommand<P>) -> bool {
        match cmd {
            UICommand::CreateInstance { id, .. } => !self.nodes@.contains_key(id),
            UICommand::CreateText { id, .. } => !self.nodes@.contains_key(id),
            UICommand::AppendChild { parent, child } => self.nodes@.contains_key(parent) ==> self.attachable(parent, child),
            UICommand::InsertBefore { parent, child, .. } => self.nodes@.contains_key(parent) ==> self.attachable(parent, child),
            UICommand::AppendToContainer { child } => self.nodes@.contains_key(child) && !self.parents@.contains_key(child),
            UICommand::InsertInContainer { child, .. } => self.nodes@.contains_key(child) && !self.parents@.contains_key(child),
            UICommand::DetachDeleted { id } => {
                &&& !self.parents@.contains_key(id)
                &&& !self.root_children@.contains(id)
                &&& (self.nodes@.contains_key(id) ==> self.nodes@[id].children@.len() == 0)
            },
            _ => true,
        }
    }
}

/// Child lists that change at `parent` only, to a list whose members are the old
/// ones plus `child`, keep the tree consistent when `child` is attachable there.
proof fn lemma_attach_keeps_consistent<P>(old: Tree<P>, new: Tree<P>, parent: ElementId, child: ElementId, kids: Seq<ElementId>)
    requires
        old.consistent(),
        old.nodes@.contains_key(parent),
        old.attachable(parent, child),
        children_replaced(old.nodes@, new.nodes@, parent, kids),
        forall|y: ElementId| #[trigger] kids.contains(y) <==> (without(old.nodes@[parent].children@, child).contains(y) || y == child),
        kids.no_duplicates(),
        new.parents@ == old.parents@.insert(child, parent),
        new.root_children@ == old.root_children@,
        new.text_input_ids@ == old.text_input_ids@,
        new.focusable_ids@ == old.focusable_ids@,
    ensures
        new.consistent(),
{
    let on = old.nodes@;
    let nn = new.nodes@;
    lemma_without_contains(on[parent].children@, child);
    assert forall|c: ElementId| #[trigger] new.parents@.contains_key(c) implies nn.contains_key(new.parents@[c]) && nn[new.parents@[c]].children@.contains(c) by {
        if c != child {
            let q = old.parents@[c];
            assert(on[q].children@.contains(c));
            if q == parent {
                assert(kids.contains(c));
            }
        }
    }
    assert forall|p: ElementId, c: ElementId| nn.contains_key(p) && #[trigger] nn[p].children@.contains(c) implies nn.contains_key(c) && new.parents@.contains_key(c) && new.parents@[c] == p by {
        if p == parent {
            if c != child {
                assert(on[parent].children@.contains(c));
            }
        } else {
            assert(on[p].children@.contains(c));
            if c == child {
                assert(old.parents@[c] == p);
            }
        }
    }
    assert forall|p: ElementId| #[trigger] nn.contains_key(p) implies nn[p].children@.no_duplicates() by {
        if p != parent {
            assert(on.contains_key(p));
        }
    }
    assert forall|c: ElementId| #[trigger] new.root_children@.contains(c) implies nn.contains_key(c) && !new.parents@.contains_key(c) by {
        assert(on.contains_key(c));
    }
    assert forall|id: ElementId| #[trigger] new.text_input_ids@.contains(id) implies nn.contains_key(id) && nn[id].kind is TextInput by {
        assert(on.contains_key(id));
    }
    assert forall|id: ElementId| #[trigger] new.focusable_ids@.contains_key(id) implies nn.contains_key(id) by {
        assert(on.contains_key(id));
    }
}

/// A child-list shrink at `parent` (dropping `child` and its link) keeps the tree consistent.
proof fn lemma_detach_child_keeps_consistent<P>(old: Tree<P>, new: Tree<P>, out: ApplyOutcome, parent: ElementId, child: ElementId)
    requires
        old.consistent(),
        old.remove_child_post(new, out, parent, child),
    ensures
        new.consistent(),
{
    let on = old.nodes@;
    let nn = new.nodes@;
    if on.contains_key(parent) && on[parent].children@.contains(child) {
        let kids = on[parent].children@;
        lemma_without_contains(kids, child);
        lemma_without_no_dup(kids, child);
        assert(old.parents@[child] == parent);
        assert(new.parents@ == old.parents@.remove(child));
        assert forall|c: ElementId| #[trigger] new.parents@.contains_key(c) implies nn.contains_key(new.parents@[c]) && nn[new.parents@[c]].children@.contains(c) by {
            let q = old.parents@[c];
            assert(on[q].children@.contains(c));
            if q == parent {
                assert(without(kids, child).contains(c));
            }
        }
        assert forall|p: ElementId, c: ElementId| nn.contains_key(p) && #[trigger] nn[p].children@.contains(c) implies nn.contains_key(c) && new.parents@.contains_key(c) && new.parents@[c] == p by {
            if p == parent {
                assert(kids.contains(c));
            } else {
                assert(on[p].children@.contains(c));
                if c == child {
                    assert(old.parents@[c] == p);
                }
            }
        }
        assert forall|p: ElementId| #[trigger] nn.contains_key(p) implies nn[p].children@.no_duplicates() by {
            if p != parent {
                assert(on.contains_key(p));
            }
        }
        assert forall|c: ElementId| #[trigger] new.root_children@.contains(c) implies nn.contains_key(c) && !new.parents@.contains_key(c) by {
            assert(on.contains_key(c));
        }
        assert forall|id: ElementId| #[trigger] new.text_input_ids@.contains(id) implies nn.contains_key(id) && nn[id].kind is TextInput by {
            assert(on.contains_key(id));
        }
        assert forall|id: ElementId| #[trigger] new.focusable_ids@.contains_key(id) implies nn.contains_key(id) by {
            assert(on.contains_key(id));
        }
    }
}

/// Applying a command the protocol admits to a consistent tree leaves it consistent.
pub proof fn lemma_apply_keeps_consistent<P>(old: Tree<P>, new: Tree<P>, out: ApplyOutcome, cmd: UICommand<P>)
    requires
        old.consistent(),
        old.admits(cmd),
        old.apply_post(new, out, cmd),
    ensures
        new.consistent(),
{
    let on = old.nodes@;
    let nn = new.nodes@;
    match cmd {
        UICommand::CreateInstance { id, kind, props, extra } => {
            assert forall|c: ElementId| #[trigger] new.parents@.contains_key(c) implies nn.contains_key(new.parents@[c]) && nn[new.parents@[c]].children@.contains(c) by {
                assert(on[old.parents@[c]].children@.contains(c));
            }
            assert forall|p: ElementId, c: ElementId| nn.contains_key(p) && #[trigger] nn[p].children@.contains(c) implies nn.contains_key(c) && new.parents@.contains_key(c) && new.parents@[c] == p by {
                if p != id {
                    assert(on[p].children@.contains(c));
                }
            }
            assert forall|p: ElementId| #[trigger] nn.contains_key(p) implies nn[p].children@.no_duplicates() by {
                if p != id {
                    assert(on.contains_key(p));
                }
            }
            assert forall|c: ElementId| #[trigger] new.root_children@.contains(c) implies nn.contains_key(c) && !new.parents@.contains_key(c) by {
                assert(on.contains_key(c));
            }
            assert forall|x: ElementId| #[trigger] new.text_input_ids@.contains(x) implies nn.contains_key(x) && nn[x].kind is TextInput by {
                if x != id {
                    assert(on.contains_key(x));
                }
            }
            assert forall|x: ElementId| #[trigger] new.focusable_ids@.contains_key(x) implies nn.contains_key(x) by {
                if x != id {
                    assert(on.contains_key(x));
                }
            }
        },
        UICommand::CreateText { id, text, extra } => {
            assert forall|c: ElementId| #[trigger] new.parents@.contains_key(c) implies nn.contains_key(new.parents@[c]) && nn[new.parents@[c]].children@.contains(c) by {
                assert(on[old.parents@[c]].children@.contains(c));
            }
            assert forall|p: ElementId, c: ElementId| nn.contains_key(p) && #[trigger] nn[p].children@.contains(c) implies nn.contains_key(c) && new.parents@.contains_key(c) && new.parents@[c] == p by {
                if p != id {
                    assert(on[p].children@.contains(c));
                }
            }
            assert forall|p: ElementId| #[trigger] nn.contains_key(p) implies nn[p].children@.no_duplicates() by {
                if p != id {
                    assert(on.contains_key(p));
                }
            }
            assert forall|c: ElementId| #[trigger] new.root_children@.contains(c) implies nn.contains_key(c) && !new.parents@.contains_key(c) by {
                assert(on.contains_key(c));
            }
            assert forall|x: ElementId| #[trigger] new.text_input_ids@.contains(x) implies nn.contains_key(x) && nn[x].kind is TextInput by {
                assert(on.contains_key(x));
            }
            assert forall|x: ElementId| #[trigger] new.focusable_ids@.contains_key(x) implies nn.contains_key(x) by {
                assert(on.contains_key(x));
            }
        },
        UICommand::AppendChild { parent, child } => {
            if on.contains_key(parent) {
                let kids = append_last(on[parent].children@, child);
                lemma_append_last(on[parent].children@, child);
                lemma_without_contains(on[parent].children@, child);
                lemma_attach_keeps_consistent(old, new, parent, child, kids);
            }
        },
        UICommand::InsertBefore { parent, child, before } => {
            if on.contains_key(parent) {
                let kids = insert_before(on[parent].children@, child, before);
                lemma_insert_before(on[parent].children@, child, before);
                lemma_without_contains(on[parent].children@, child);
                lemma_attach_keeps_consistent(old, new, parent, child, kids);
            }
        },
        UICommand::AppendToContainer { child } => {
            lemma_append_last(old.root_children@, child);
            assert forall|c: ElementId| #[trigger] new.root_children@.contains(c) implies nn.contains_key(c) && !new.parents@.contains_key(c) by {
            }
            assert forall|c: ElementId| #[trigger] new.parents@.contains_key(c) implies nn.contains_key(new.parents@[c]) && nn[new.parents@[c]].children@.contains(c) by {
                assert(old.parents@.contains_key(c));
            }
        },
        UICommand::InsertInContainer { child, before } => {
            lemma_insert_before(old.root_children@, child, before);
            assert forall|c: ElementId| #[trigger] new.root_children@.contains(c) implies nn.contains_key(c) && !new.parents@.contains_key(c) by {
            }
            assert forall|c: ElementId| #[trigger] new.parents@.contains_key(c) implies nn.contains_key(new.parents@[c]) && nn[new.parents@[c]].children@.contains(c) by {
                assert(old.parents@.contains_key(c));
            }
        },
        UICommand::RemoveChild { parent, child } => {
            lemma_detach_child_keeps_consistent(old, new, out, parent, child);
        },
        UICommand::RemoveFromContainer { child } => {
            if old.root_children@.contains(child) {
                lemma_without_contains(old.root_children@, child);
                lemma_without_no_dup(old.root_children@, child);
            }
        },
        UICommand::UpdateProps { id, props, extra, same_extra } => {
            if on.contains_key(id) && !(on[id].props.spec_same(&props) && same_extra) {
                assert forall|c: ElementId| #[trigger] new.parents@.contains_key(c) implies nn.contains_key(new.parents@[c]) && nn[new.parents@[c]].children@.contains(c) by {
                    assert(on[old.parents@[c]].children@.contains(c));
                }
                assert forall|p: ElementId, c: ElementId| nn.contains_key(p) && #[trigger] nn[p].children@.contains(c) implies nn.contains_key(c) && new.parents@.contains_key(c) && new.parents@[c] == p by {
                    assert(on[p].children@.contains(c));
                }
                assert forall|p: ElementId| #[trigger] nn.contains_key(p) implies nn[p].children@.no_duplicates() by {
                    assert(on.contains_key(p));
                }
                assert forall|c: ElementId| #[trigger] new.root_children@.contains(c) implies nn.contains_key(c) && !new.parents@.contains_key(c) by {
                    assert(on.contains_key(c));
                }
                assert forall|x: ElementId| #[trigger] new.text_input_ids@.contains(x) implies nn.contains_key(x) && nn[x].kind is TextInput by {
                    assert(on.contains_key(x));
                }
                assert forall|x: ElementId| #[trigger] new.focusable_ids@.contains_key(x) implies nn.contains_key(x) by {
                    if x != id {
                        assert(on.contains_key(x));
                    }
                }
            }
        },
        UICommand::UpdateText { id, text } => {
            if on.contains_key(id) && opt_chars(on[id].text) != Some(text@) {
                assert forall|c: ElementId| #[trigger] new.parents@.contains_key(c) implies nn.contains_key(new.parents@[c]) && nn[new.parents@[c]].children@.contains(c) by {
                    assert(on[old.parents@[c]].children@.contains(c));
                }
                assert forall|p: ElementId, c: ElementId| nn.contains_key(p) && #[trigger] nn[p].children@.contains(c) implies nn.contains_key(c) && new.parents@.contains_key(c) && new.parents@[c] == p by {
                    assert(on[p].children@.contains(c));
                }
                assert forall|p: ElementId| #[trigger] nn.contains_key(p) implies nn[p].children@.no_duplicates() by {
                    assert(on.contains_key(p));
                }
                assert forall|c: ElementId| #[trigger] new.root_children@.contains(c) implies nn.contains_key(c) && !new.parents@.contains_key(c) by {
                    assert(on.contains_key(c));
                }
                assert forall|x: ElementId| #[trigger] new.text_input_ids@.contains(x) implies nn.contains_key(x) && nn[x].kind is TextInput by {
                    assert(on.contains_key(x));
                }
                assert forall|x: ElementId| #[trigger] new.focusable_ids@.contains_key(x) implies nn.contains_key(x) by {
                    assert(on.contains_key(x));
                }
            }
        },
        UICommand::ClearContainer => {
            if old.root_children@.len() > 0 {
                assert(new.root_children@.no_duplicates());
            }
        },
        UICommand::DetachDeleted { id } => {
            assert forall|c: ElementId| #[trigger] new.parents@.contains_key(c) implies nn.contains_key(new.parents@[c]) && nn[new.parents@[c]].children@.contains(c) by {
                let q = old.parents@[c];
                assert(on[q].children@.contains(c));
                if q == id {
                    let k = choose|k: int| 0 <= k < on[q].children@.len() && on[q].children@[k] == c;
                }
            }
            assert forall|p: ElementId, c: ElementId| nn.contains_key(p) && #[trigger] nn[p].children@.contains(c) implies nn.contains_key(c) && new.parents@.contains_key(c) && new.parents@[c] == p by {
                assert(on[p].children@.contains(c));
            }
            assert forall|p: ElementId| #[trigger] nn.contains_key(p) implies nn[p].children@.no_duplicates() by {
                assert(on.contains_key(p));
            }
            assert forall|c: ElementId| #[trigger] new.root_children@.contains(c) implies nn.contains_key(c) && !new.parents@.contains_key(c) by {
                assert(on.contains_key(c));
            }
        },
    }
}


/// Whether an element is a keyboard Tab stop: a text input or a focusable
/// element whose resolved `tabStop` is on.
pub open spec fn is_tab_stop<P>(e: Element<P>) -> bool {
    let is_text_input = e.kind is TextInput;
    (is_text_input || e.props.spec_is_focusable()) && e.props.spec_resolve_tab_stop(is_text_input)
}

/// The tab index an element sorts by (`0` when unset).
pub open spec fn tab_key<P>(e: Element<P>) -> i32 {
    match e.props.tab_index {
        Some(i) => i,
        None => 0,
    }
}

/// Tab stops met by a preorder walk from `id` that descends at most `fuel`
/// levels, as `(tab index, id)` pairs. Unknown ids and hidden subtrees
/// (`display: none`, `visibility: hidden`) contribute nothing.
pub open spec fn stops_from<P>(nodes: Map<ElementId, Element<P>>, id: ElementId, fuel: nat) -> Seq<(i32, ElementId)>
    decreases fuel, 0nat,
{
    if fuel == 0 || !nodes.contains_key(id) || nodes[id].props.spec_hidden() {
        Seq::empty()
    } else {
        let e = nodes[id];
        let here: Seq<(i32, ElementId)> = if is_tab_stop(e) {
            seq![(tab_key(e), id)]
        } else {
            Seq::empty()
        };
        here + stops_list(nodes, e.children@, (fuel - 1) as nat)
    }
}

/// [`stops_from`] for each of `ids`, concatenated in order.
pub open spec fn stops_list<P>(nodes: Map<ElementId, Element<P>>, ids: Seq<ElementId>, fuel: nat) -> Seq<(i32, ElementId)>
    decreases fuel, ids.len(),
{
    if ids.len() == 0 {
        Seq::empty()
    } else {
        stops_from(nodes, ids[0], fuel) + stops_list(nodes, ids.drop_first(), fuel)
    }
}

/// Insert `x` after every entry whose tab index is at most `x`'s.
pub open spec fn insert_by_tab(s: Seq<(i32, ElementId)>, x: (i32, ElementId)) -> Seq<(i32, ElementId)>
    decreases s.len(),
{
    if s.len() == 0 {
        seq![x]
    } else if s.last().0 <= x.0 {
        s.push(x)
    } else {
        insert_by_tab(s.drop_last(), x).push(s.last())
    }
}

/// Stable sort by tab index (entries with equal index keep their order).
pub open spec fn sort_by_tab(s: Seq<(i32, ElementId)>) -> Seq<(i32, ElementId)>
    decreases s.len(),
{
    if s.len() == 0 {
        s
    } else {
        insert_by_tab(sort_by_tab(s.drop_last()), s.last())
    }
}

/// Entries are in non-decreasing tab-index order.
pub open spec fn tab_sorted(s: Seq<(i32, ElementId)>) -> bool {
    forall|i: int, j: int| 0 <= i < j < s.len() ==> s[i].0 <= s[j].0
}

/// The ids of a list of `(tab index, id)` pairs.
pub open spec fn ids_of(s: Seq<(i32, ElementId)>) -> Seq<ElementId> {
    s.map_values(|p: (i32, ElementId)| p.1)
}

proof fn lemma_insert_by_tab_at(s: Seq<(i32, ElementId)>, x: (i32, ElementId), j: int)
    requires
        0 <= j <= s.len(),
        forall|k: int| j <= k < s.len() ==> s[k].0 > x.0,
        j == 0 || s[j - 1].0 <= x.0,
    ensures
        insert_by_tab(s, x) == s.insert(j, x),
    decreases s.len(),
{
    if s.len() == 0 {
        assert(seq![x] =~= s.insert(j, x));
    } else if s.last().0 <= x.0 {
        assert(j == s.len());
        assert(s.push(x) =~= s.insert(j, x));
    } else {
        let d = s.drop_last();
        lemma_insert_by_tab_at(d, x, j);
        assert(d.insert(j, x).push(s.last()) =~= s.insert(j, x));
    }
}

/// Inserting keeps a sorted list sorted.
proof fn lemma_insert_by_tab_sorted(s: Seq<(i32, ElementId)>, x: (i32, ElementId))
    requires
        tab_sorted(s),
    ensures
        tab_sorted(insert_by_tab(s, x)),
        insert_by_tab(s, x).len() == s.len() + 1,
        insert_by_tab(s, x).to_multiset() == s.to_multiset().insert(x),
    decreases s.len(),
{
    broadcast use vstd::seq_lib::group_to_multiset_ensures;
    if s.len() == 0 {
        assert(seq![x] =~= s.push(x));
    } else if s.last().0 <= x.0 {
    } else {
        let d = s.drop_last();
        lemma_insert_by_tab_sorted(d, x);
        let r = insert_by_tab(d, x);
        assert forall|i: int| 0 <= i < r.len() implies r[i].0 <= s.last().0 by {
            assert(r.to_multiset().count(r[i]) > 0);
            if r[i] == x {
            } else {
                assert(d.to_multiset().count(r[i]) > 0);
                assert(d.contains(r[i]));
                let k = choose|k: int| 0 <= k < d.len() && d[k] == r[i];
                assert(s[k] == d[k]);
            }
        }
        assert(d.push(s.last()) =~= s);
    }
}

/// The stable sort is sorted and a permutation of its input.
pub proof fn lemma_sort_by_tab(s: Seq<(i32, ElementId)>)
    ensures
        tab_sorted(sort_by_tab(s)),
        sort_by_tab(s).to_multiset() == s.to_multiset(),
        sort_by_tab(s).len() == s.len(),
    decreases s.len(),
{
    broadcast use vstd::seq_lib::group_to_multiset_ensures;
    if s.len() > 0 {
        lemma_sort_by_tab(s.drop_last());
        lemma_insert_by_tab_sorted(sort_by_tab(s.drop_last()), s.last());
        assert(s.drop_last().push(s.last()) =~= s);
    }
}

/// The entries of `s` with tab index `k`, in order.
pub open spec fn with_key(s: Seq<(i32, ElementId)>, k: i32) -> Seq<(i32, ElementId)>
    decreases s.len(),
{
    if s.len() == 0 {
        s
    } else if s.last().0 == k {
        with_key(s.drop_last(), k).push(s.last())
    } else {
        with_key(s.drop_last(), k)
    }
}

proof fn lemma_insert_by_tab_with_key(t: Seq<(i32, ElementId)>, x: (i32, ElementId), k: i32)
    ensures
        with_key(insert_by_tab(t, x), k) == if x.0 == k {
            with_key(t, k).push(x)
        } else {
            with_key(t, k)
        },
    decreases t.len(),
{
    if t.len() == 0 {
        assert(insert_by_tab(t, x).drop_last() =~= t);
    } else if t.last().0 <= x.0 {
        assert(t.push(x).drop_last() =~= t);
    } else {
        let d = t.drop_last();
        lemma_insert_by_tab_with_key(d, x, k);
        let u = insert_by_tab(d, x);
        assert(u.push(t.last()).drop_last() =~= u);
    }
}

proof fn lemma_sort_by_tab_with_key(s: Seq<(i32, ElementId)>, k: i32)
    ensures
        with_key(sort_by_tab(s), k) == with_key(s, k),
    decreases s.len(),
{
    if s.len() > 0 {
        lemma_sort_by_tab_with_key(s.drop_last(), k);
        lemma_insert_by_tab_with_key(sort_by_tab(s.drop_last()), s.last(), k);
    }
}

/// `rank` witnesses that the child graph has no cycle: every element has a
/// rank below the number of elements, and each known child ranks below its
/// parent.
pub open spec fn ranked<P>(nodes: Map<ElementId, Element<P>>, rank: Map<ElementId, nat>) -> bool {
    forall|p: ElementId|
        #![trigger nodes.contains_key(p)]
        nodes.contains_key(p) ==> rank.contains_key(p) && rank[p] < nodes.len() && forall|c: ElementId|
            #![trigger nodes[p].children@.contains(c)]
            nodes[p].children@.contains(c) && nodes.contains_key(c) ==> rank[c] < rank[p]
}

proof fn lemma_stops_from_fuel<P>(
    nodes: Map<ElementId, Element<P>>,
    rank: Map<ElementId, nat>,
    id: ElementId,
    f1: nat,
    f2: nat,
)
    requires
        ranked(nodes, rank),
        nodes.contains_key(id) ==> f1 > rank[id] && f2 > rank[id],
    ensures
        stops_from(nodes, id, f1) == stops_from(nodes, id, f2),
    decreases f1, 0nat,
{
    if nodes.contains_key(id) && !nodes[id].props.spec_hidden() {
        let e = nodes[id];
        assert(rank.contains_key(id));
        lemma_stops_list_fuel(nodes, rank, e.children@, (f1 - 1) as nat, (f2 - 1) as nat);
    }
}

proof fn lemma_stops_list_fuel<P>(
    nodes: Map<ElementId, Element<P>>,
    rank: Map<ElementId, nat>,
    ids: Seq<ElementId>,
    f1: nat,
    f2: nat,
)
    requires
        ranked(nodes, rank),
        forall|c: ElementId| ids.contains(c) && nodes.contains_key(c) ==> f1 > rank[c] && f2 > rank[c],
    ensures
        stops_list(nodes, ids, f1) == stops_list(nodes, ids, f2),
    decreases f1, ids.len(),
{
    if ids.len() > 0 {
        assert(ids.contains(ids[0]));
        lemma_stops_from_fuel(nodes, rank, ids[0], f1, f2);
        let rest = ids.drop_first();
        assert forall|c: ElementId| rest.contains(c) && nodes.contains_key(c) implies f1 > rank[c] && f2 > rank[c] by {
            let k = choose|k: int| 0 <= k < rest.len() && rest[k] == c;
            assert(ids[k + 1] == c);
            assert(ids.contains(c));
        }
        lemma_stops_list_fuel(nodes, rank, rest, f1, f2);
    }
}

/// Where the child graph has no cycle (witnessed by `rank`), the walk under
/// the roots reaches every element below them: letting it descend deeper
/// changes nothing, so the tab order is taken over the whole preorder walk.
pub proof fn lemma_tab_walk_complete<P>(tree: Tree<P>, roots: Seq<ElementId>, rank: Map<ElementId, nat>, fuel: nat)
    requires
        ranked(tree.nodes@, rank),
        fuel >= tree.nodes@.len(),
    ensures
        stops_list(tree.nodes@, roots, fuel) == stops_list(tree.nodes@, roots, tree.nodes@.len()),
{
    let nodes = tree.nodes@;
    assert forall|c: ElementId| roots.contains(c) && nodes.contains_key(c) implies fuel > rank[c] && nodes.len()
        > rank[c] by {
        assert(nodes.contains_key(c));
    }
    lemma_stops_list_fuel(nodes, rank, roots, fuel, nodes.len());
}

/// Tab order: the tab stops that one preorder walk over the roots meets (in
/// walk order), stably sorted by tab index: sorted, the same entries, and the
/// entries of each tab index in walk order.
pub proof fn lemma_tab_order<P>(tree: Tree<P>, roots: Seq<ElementId>)
    ensures
        ({
            let walk = stops_list(tree.nodes@, roots, tree.nodes@.len());
            let sorted = sort_by_tab(walk);
            &&& tree.tab_order_of(roots) == ids_of(sorted)
            &&& tab_sorted(sorted)
            &&& sorted.to_multiset() == walk.to_multiset()
            &&& forall|k: i32| #[trigger] with_key(sorted, k) == with_key(walk, k)
        }),
{
    let walk = stops_list(tree.nodes@, roots, tree.nodes@.len());
    lemma_sort_by_tab(walk);
    assert forall|k: i32| #[trigger] with_key(sort_by_tab(walk), k) == with_key(walk, k) by {
        lemma_sort_by_tab_with_key(walk, k);
    }
}

impl<P> Tree<P> {
    /// Tab order under `roots`: their tab stops in preorder (the walk descends
    /// at most as many levels as there are nodes), stably sorted by tab index.
    pub open spec fn tab_order_of(self, roots: Seq<ElementId>) -> Seq<ElementId> {
        ids_of(sort_by_tab(stops_list(self.nodes@, roots, self.nodes@.len())))
    }

    fn collect_from(&self, id: ElementId, fuel: usize, out: &mut Vec<(i32, ElementId)>)
        ensures
            final(out)@ == old(out)@ + stops_from(self.nodes@, id, fuel as nat),
        decreases fuel, 0nat,
    {
        if fuel == 0 {
            assert(old(out)@ + Seq::<(i32, ElementId)>::empty() =~= old(out)@);
            return;
        }
        match self.nodes.get(&id) {
            None => {
                assert(old(out)@ + Seq::<(i32, ElementId)>::empty() =~= old(out)@);
            },
            Some(node) => {
                if node.props.hidden() {
                    assert(old(out)@ + Seq::<(i32, ElementId)>::empty() =~= old(out)@);
                    return;
                }
                let is_text_input = match node.kind {
                    ElementKind::TextInput => true,
                    _ => false,
                };
                let ghost before = out@;
                if (is_text_input || node.props.is_focusable()) && node.props.resolve_tab_stop(
                    is_text_input,
                ) {
                    let key = match node.props.tab_index {
                        Some(i) => i,
                        None => 0,
                    };
                    out.push((key, id));
                }
                let ghost mid = out@;
                self.collect_list(&node.children, fuel - 1, out);
                proof {
                    let e = self.nodes@[id];
                    let here: Seq<(i32, ElementId)> = if is_tab_stop(e) {
                        seq![(tab_key(e), id)]
                    } else {
                        Seq::empty()
                    };
                    assert(mid =~= before + here);
                    assert(out@ =~= before + (here + stops_list(self.nodes@, e.children@, (fuel - 1) as nat)));
                }
            },
        }
    }

    fn collect_list(&self, ids: &Vec<ElementId>, fuel: usize, out: &mut Vec<(i32, ElementId)>)
        ensures
            final(out)@ == old(out)@ + stops_list(self.nodes@, ids@, fuel as nat),
        decreases fuel, 1nat,
    {
        let ghost start = out@;
        let mut i: usize = 0;
        assert(ids@.skip(0) =~= ids@);
        while i < ids.len()
            invariant
                0 <= i <= ids@.len(),
                start + stops_list(self.nodes@, ids@, fuel as nat) == out@ + stops_list(self.nodes@, ids@.skip(i as int), fuel as nat),
            decreases ids@.len() - i,
        {
            proof {
                assert(ids@.skip(i as int).drop_first() =~= ids@.skip(i + 1));
                assert(ids@.skip(i as int)[0] == ids@[i as int]);
            }
            let ghost before = out@;
            self.collect_from(ids[i], fuel, out);
            i = i + 1;
            proof {
                let a = stops_from(self.nodes@, ids@[i - 1], fuel as nat);
                let b = stops_list(self.nodes@, ids@.skip(i as int), fuel as nat);
                assert(before + (a + b) =~= (before + a) + b);
            }
        }
        proof {
            assert(ids@.skip(i as int).len() == 0);
            assert(out@ + Seq::<(i32, ElementId)>::empty() =~= out@);
        }
    }

    /// Tab order for the given walk roots.
    fn collect_tab_stops(&self, roots: &Vec<ElementId>) -> (r: Vec<ElementId>)
        ensures
            r@ == self.tab_order_of(roots@),
    {
        let mut found: Vec<(i32, ElementId)> = Vec::new();
        let fuel = self.nodes.len();
        self.collect_list(roots, fuel, &mut found);
        assert(found@ =~= stops_list(self.nodes@, roots@, self.nodes@.len()));
        let sorted = sort_entries(&found);
        let mut ids: Vec<ElementId> = Vec::new();
        let mut i: usize = 0;
        while i < sorted.len()
            invariant
                0 <= i <= sorted@.len(),
                ids@ =~= ids_of(sorted@.take(i as int)),
            decreases sorted@.len() - i,
        {
            ids.push(sorted[i].1);
            i = i + 1;
            assert(ids@ =~= ids_of(sorted@.take(i as int)));
        }
        assert(sorted@.take(sorted@.len() as int) =~= sorted@);
        ids
    }

    /// Tab-stop focusables in `root`'s subtree (root included when it
    /// qualifies), in Tab order: ascending tab index, ties in preorder.
    pub fn focusable_descendants(&self, root: ElementId) -> (r: Vec<ElementId>)
        ensures
            r@ == self.tab_order_of(seq![root]),
    {
        let roots = vec![root];
        assert(roots@ =~= seq![root]);
        self.collect_tab_stops(&roots)
    }

    /// The window-global Tab order over every root child.
    pub fn focusable_order(&self) -> (r: Vec<ElementId>)
        ensures
            r@ == self.tab_order_of(self.root_children@),
    {
        self.collect_tab_stops(&self.root_children)
    }
}

/// Stable insertion sort of `(tab index, id)` pairs by tab index.
fn sort_entries(s: &Vec<(i32, ElementId)>) -> (r: Vec<(i32, ElementId)>)
    ensures
        r@ == sort_by_tab(s@),
{
    let mut out: Vec<(i32, ElementId)> = Vec::new();
    let mut i: usize = 0;
    assert(s@.take(0) =~= Seq::<(i32, ElementId)>::empty());
    while i < s.len()
        invariant
            0 <= i <= s@.len(),
            out@ == sort_by_tab(s@.take(i as int)),
        decreases s@.len() - i,
    {
        let x = s[i];
        let mut j: usize = out.len();
        while j > 0 && out[j - 1].0 > x.0
            invariant
                0 <= j <= out@.len(),
                forall|k: int| j <= k < out@.len() ==> out@[k].0 > x.0,
            decreases j,
        {
            j = j - 1;
        }
        proof {
            lemma_insert_by_tab_at(out@, x, j as int);
            assert(s@.take(i + 1).drop_last() =~= s@.take(i as int));
            assert(s@.take(i + 1).last() == x);
        }
        out.insert(j, x);
        i = i + 1;
    }
    assert(s@.take(s@.len() as int) =~= s@);
    out
}

} // verus!
