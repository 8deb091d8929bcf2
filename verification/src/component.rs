//! Native components: render functions addressable from JavaScript as host
//! element types, registered by name before the bundle runs. Names starting
//! with `__` belong to the framework's built-in components. A render function
//! is any value `F`: the host decides how it runs.

use vstd::prelude::*;

use crate::plugin::is_reserved_name;
use crate::registry::NameTable;

verus! {

/// A native component: the element type name and its render function.
pub struct Component<F> {
    pub name: String,
    pub render: F,
}

impl<F> Component<F> {
    pub fn new(name: String, render: F) -> (r: Self)
        ensures
            r.name == name,
            r.render == render,
    {
        Component { name, render }
    }
}

/// The element type of the built-in scrollbar component.
pub fn scrollbar_component_name() -> (r: &'static str)
    ensures
        r@ == "__GluxeScrollbar"@,
        is_reserved_name(r@),
{
    proof {
        reveal_strlit("__GluxeScrollbar");
    }
    "__GluxeScrollbar"
}

/// Element type name → render function.
pub struct ComponentRegistry<F> {
    table: NameTable<F>,
}

impl<F> ComponentRegistry<F> {
    pub closed spec fn wf(&self) -> bool {
        self.table.wf()
    }

    pub fn new() -> (r: Self)
        ensures
            r.wf(),
            r@ == Map::<Seq<char>, F>::empty(),
    {
        ComponentRegistry { table: NameTable::new() }
    }

    /// Register the framework's built-in components: the scrollbar, rendered
    /// by `scrollbar`.
    pub fn register_builtin_components(&mut self, scrollbar: F)
        requires
            old(self).wf(),
        ensures
            final(self).wf(),
            final(self)@ == old(self)@.insert("__GluxeScrollbar"@, scrollbar),
    {
        let name = scrollbar_component_name();
        self.table.insert(String::from_str(name), scrollbar);
    }

    /// Register application components in order (a later one with the same
    /// name replaces an earlier one). Their names must be outside the
    /// reserved `__` namespace.
    pub fn register_components(&mut self, list: Vec<Component<F>>)
        requires
            old(self).wf(),
            forall|i: int| 0 <= i < list@.len() ==> !is_reserved_name(#[trigger] list@[i].name@),
        ensures
            final(self).wf(),
            final(self)@ == crate::registry::insert_all(
                old(self)@,
                list@.map_values(|c: Component<F>| (c.name@, c.render)),
            ),
    {
        let ghost all = list@.map_values(|c: Component<F>| (c.name@, c.render));
        let ghost start = self@;
        let mut rest = list;
        let ghost mut done: int = 0;
        proof {
            assert(all.take(0) =~= Seq::<(Seq<char>, F)>::empty());
        }
        while rest.len() > 0
            invariant
                self.wf(),
                0 <= done <= all.len(),
                rest@.map_values(|c: Component<F>| (c.name@, c.render)) == all.skip(done),
                self@ == crate::registry::insert_all(start, all.take(done)),
            decreases rest@.len(),
        {
            let ghost before = rest@;
            proof {
                assert(before.map_values(|c: Component<F>| (c.name@, c.render)).len() == before.len());
            }
            let c = rest.remove(0);
            proof {
                assert(before[0] == c);
                assert(all.skip(done)[0] == all[done]);
                assert(all[done] == (c.name@, c.render));
                assert(all.take(done + 1).drop_last() =~= all.take(done));
                assert(rest@ =~= before.skip(1));
                assert(before.skip(1).map_values(|c: Component<F>| (c.name@, c.render)) =~= before.map_values(
                    |c: Component<F>| (c.name@, c.render),
                ).skip(1));
                assert(all.skip(done).skip(1) =~= all.skip(done + 1));
            }
            let Component { name, render } = c;
            self.table.insert(name, render);
            proof {
                done = done + 1;
            }
        }
        proof {
            assert(all.take(done) =~= all);
        }
    }

    /// Whether `name` is a registered native component.
    pub fn is_registered(&self, name: &str) -> (r: bool)
        requires
            self.wf(),
        ensures
            r == self@.contains_key(name@),
    {
        self.table.get(name).is_some()
    }

    /// The render function registered under `name`.
    pub fn render_fn(&self, name: &str) -> (r: Option<&F>)
        requires
            self.wf(),
        ensures
            match r {
                Some(f) => self@.contains_key(name@) && *f == self@[name@],
                None => !self@.contains_key(name@),
            },
    {
        self.table.get(name)
    }
}

impl<F> View for ComponentRegistry<F> {
    type V = Map<Seq<char>, F>;

    closed spec fn view(&self) -> Map<Seq<char>, F> {
        self.table@
    }
}

} // verus!
