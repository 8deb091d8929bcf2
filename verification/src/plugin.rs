//! Plugin commands: named collections of command handlers, the reserved
//! built-in namespace, the registry of `plugin|command` keys that JavaScript
//! invokes them by (later registrations win), and the protocol of a streaming
//! command's sink, which delivers any number of chunks and then exactly one
//! terminal message. A handler is any value `H`: the host decides how it runs.

use vstd::prelude::*;

use crate::model::ElementId;
use crate::registry::{entries_map, insert_all, lemma_insert_all_push, NameTable};
use crate::state::WindowCommand;

verus! {

/// Names starting with `__` belong to the framework's built-in plugins.
pub open spec fn is_reserved_name(name: Seq<char>) -> bool {
    name.len() >= 2 && name[0] == '_' && name[1] == '_'
}

/// A name is reserved exactly when it starts with `__`; only those need
/// [`PluginBuilder::builtin`], every other name is accepted by
/// [`PluginBuilder::new`].
pub proof fn lemma_reserved_iff_double_underscore(name: Seq<char>)
    ensures
        is_reserved_name(name) <==> (name.len() >= 2 && name.take(2) == "__"@),
{
    reveal_strlit("__");
    if name.len() >= 2 && name.take(2) == "__"@ {
        assert(name.take(2)[0] == name[0] && name.take(2)[1] == name[1]);
    }
    if is_reserved_name(name) {
        assert(name.take(2) =~= "__"@);
    }
}

/// Whether `name` is in the reserved built-in namespace.
pub fn is_reserved(name: &str) -> (r: bool)
    ensures
        r == is_reserved_name(name@),
{
    let cs = crate::text_util::chars_of(name);
    cs.len() >= 2 && cs[0] == '_' && cs[1] == '_'
}

/// The key a command is invoked by: `{plugin}|{command}`.
pub open spec fn spec_command_key(plugin: Seq<char>, command: Seq<char>) -> Seq<char> {
    plugin + seq!['|'] + command
}

pub fn command_key(plugin: &str, command: &str) -> (r: String)
    ensures
        r@ == spec_command_key(plugin@, command@),
{
    let mut key = String::from_str(plugin);
    proof {
        reveal_strlit("|");
        assert("|"@ =~= seq!['|']);
    }
    key.append("|");
    key.append(command);
    key
}

/// What a stream delivers to JavaScript, in order.
#[derive(Debug, Clone, Copy, PartialEq, Eq, Structural)]
pub enum StreamEvent {
    /// A data chunk.
    Chunk,
    /// Graceful completion.
    End,
    /// Failure.
    Error,
}

/// What the producer side of a stream does.
#[derive(Debug, Clone, Copy, PartialEq, Eq, Structural)]
pub enum SinkCall {
    Chunk,
    End,
    Error,
    /// The sink is dropped (the handler returned).
    Drop,
}

/// The terminal bookkeeping of a stream sink: chunks pass until a terminal
/// (`end` or `error`) has been sent; the first terminal wins; a sink dropped
/// without one ends the stream gracefully.
#[derive(Debug)]
pub struct StreamGate {
    pub terminated: bool,
}

/// Messages sent for the calls `calls`, starting from `terminated`.
pub open spec fn sent(terminated: bool, calls: Seq<SinkCall>) -> Seq<StreamEvent>
    decreases calls.len(),
{
    if calls.len() == 0 {
        Seq::empty()
    } else {
        let (msg, t) = step(terminated, calls[0]);
        let rest = sent(t, calls.drop_first());
        match msg {
            Some(m) => seq![m] + rest,
            None => rest,
        }
    }
}

/// One call: the message it sends, and whether the stream is then terminated.
pub open spec fn step(terminated: bool, call: SinkCall) -> (Option<StreamEvent>, bool) {
    if terminated {
        (None, true)
    } else {
        match call {
            SinkCall::Chunk => (Some(StreamEvent::Chunk), false),
            SinkCall::End => (Some(StreamEvent::End), true),
            SinkCall::Error => (Some(StreamEvent::Error), true),
            SinkCall::Drop => (Some(StreamEvent::End), true),
        }
    }
}

pub open spec fn is_terminal(e: StreamEvent) -> bool {
    e != StreamEvent::Chunk
}

impl StreamGate {
    pub fn new() -> (r: Self)
        ensures
            !r.terminated,
    {
        StreamGate { terminated: false }
    }

    /// Whether a chunk is sent now.
    pub fn chunk(&mut self) -> (r: bool)
        ensures
            (if r { Some(StreamEvent::Chunk) } else { None }, final(self).terminated) == step(
                old(self).terminated,
                SinkCall::Chunk,
            ),
    {
        !self.terminated
    }

    /// Whether the graceful end is sent now.
    pub fn end(&mut self) -> (r: bool)
        ensures
            (if r { Some(StreamEvent::End) } else { None }, final(self).terminated) == step(
                old(self).terminated,
                SinkCall::End,
            ),
    {
        if self.terminated {
            return false;
        }
        self.terminated = true;
        true
    }

    /// Whether the error is sent now.
    pub fn error(&mut self) -> (r: bool)
        ensures
            (if r { Some(StreamEvent::Error) } else { None }, final(self).terminated) == step(
                old(self).terminated,
                SinkCall::Error,
            ),
    {
        if self.terminated {
            return false;
        }
        self.terminated = true;
        true
    }

    /// Whether dropping the sink sends the graceful end.
    pub fn on_drop(&mut self) -> (r: bool)
        ensures
            (if r { Some(StreamEvent::End) } else { None }, final(self).terminated) == step(
                old(self).terminated,
                SinkCall::Drop,
            ),
    {
        self.end()
    }

    /// Whether producers should stop: a terminal was sent, or JavaScript
    /// cancelled the stream.
    pub fn is_closed(&self, cancelled: bool) -> (r: bool)
        ensures
            r == (self.terminated || cancelled),
    {
        self.terminated || cancelled
    }
}

/// Whatever a stream's producer does, at most one terminal message is sent,
/// and nothing follows it.
pub proof fn lemma_one_terminal_at_most(calls: Seq<SinkCall>)
    ensures
        forall|i: int| 0 <= i < sent(false, calls).len() && #[trigger] is_terminal(sent(false, calls)[i])
            ==> i == sent(false, calls).len() - 1,
{
    lemma_sent_shape(false, calls);
}

proof fn lemma_sent_after_terminal_empty(calls: Seq<SinkCall>)
    ensures
        sent(true, calls) == Seq::<StreamEvent>::empty(),
    decreases calls.len(),
{
    if calls.len() > 0 {
        lemma_sent_after_terminal_empty(calls.drop_first());
    }
}

proof fn lemma_sent_shape(terminated: bool, calls: Seq<SinkCall>)
    ensures
        forall|i: int| 0 <= i < sent(terminated, calls).len() && #[trigger] is_terminal(sent(terminated, calls)[i])
            ==> i == sent(terminated, calls).len() - 1,
    decreases calls.len(),
{
    if calls.len() > 0 {
        let (msg, t) = step(terminated, calls[0]);
        lemma_sent_shape(t, calls.drop_first());
        if t {
            lemma_sent_after_terminal_empty(calls.drop_first());
        }
        let rest = sent(t, calls.drop_first());
        if let Some(m) = msg {
            let all = seq![m] + rest;
            assert forall|i: int| 0 <= i < all.len() && #[trigger] is_terminal(all[i]) implies i == all.len() - 1 by {
                if i > 0 {
                    assert(all[i] == rest[i - 1]);
                } else {
                    assert(is_terminal(m) ==> t);
                }
            }
        }
    }
}

/// A producer that finishes (the sink is dropped last) always closes the
/// stream: the last message sent is a terminal one.
pub proof fn lemma_drop_closes_stream(calls: Seq<SinkCall>)
    requires
        calls.len() > 0,
        calls.last() == SinkCall::Drop,
    ensures
        sent(false, calls).len() > 0,
        is_terminal(sent(false, calls).last()),
{
    lemma_closes(false, calls);
}

proof fn lemma_closes(terminated: bool, calls: Seq<SinkCall>)
    requires
        calls.len() > 0,
        calls.last() == SinkCall::Drop,
    ensures
        !terminated ==> sent(terminated, calls).len() > 0 && is_terminal(sent(terminated, calls).last()),
    decreases calls.len(),
{
    if !terminated {
        let (msg, t) = step(terminated, calls[0]);
        if calls.len() == 1 {
            assert(calls[0] == SinkCall::Drop);
            assert(calls.drop_first() =~= Seq::<SinkCall>::empty());
            assert(sent(t, calls.drop_first()) == Seq::<StreamEvent>::empty());
            assert(sent(terminated, calls) =~= seq![StreamEvent::End]);
        } else {
            assert(calls.drop_first().last() == SinkCall::Drop);
            lemma_closes(t, calls.drop_first());
            let rest = sent(t, calls.drop_first());
            if t {
                // The call that terminated was the terminal itself.
                lemma_sent_after_terminal_empty(calls.drop_first());
                assert(msg is Some && is_terminal(msg->0));
                assert(sent(terminated, calls) =~= seq![msg->0]);
            } else {
                let m = msg->0;
                assert(sent(terminated, calls) =~= seq![m] + rest);
                assert((seq![m] + rest).last() == rest.last());
            }
        }
    }
}

/// A named collection of commands.
pub struct Plugin<H> {
    pub name: String,
    pub commands: NameTable<H>,
}

/// Builder for [`Plugin`].
pub struct PluginBuilder<H> {
    name: String,
    commands: NameTable<H>,
}

impl<H> PluginBuilder<H> {
    /// Start a plugin named `name` (e.g. `fs`); names in the reserved `__`
    /// namespace belong to the built-in plugins.
    pub fn new(name: String) -> (r: Self)
        requires
            !is_reserved_name(name@),
        ensures
            r.name() == name@,
            r.commands_view() == Map::<Seq<char>, H>::empty(),
            r.wf(),
    {
        PluginBuilder { name, commands: NameTable::new() }
    }

    /// Start a built-in plugin, in the reserved namespace.
    pub fn builtin(name: &str) -> (r: Self)
        requires
            is_reserved_name(name@),
        ensures
            r.name() == name@,
            r.commands_view() == Map::<Seq<char>, H>::empty(),
            r.wf(),
    {
        PluginBuilder { name: String::from_str(name), commands: NameTable::new() }
    }

    pub closed spec fn name(&self) -> Seq<char> {
        self.name@
    }

    pub closed spec fn commands_view(&self) -> Map<Seq<char>, H> {
        self.commands@
    }

    pub closed spec fn wf(&self) -> bool {
        self.commands.wf()
    }

    /// Register `handler` under the short command name `name` (a later
    /// registration of the same name replaces it).
    pub fn command(self, name: String, handler: H) -> (r: Self)
        requires
            self.wf(),
        ensures
            r.wf(),
            r.name() == self.name(),
            r.commands_view() == self.commands_view().insert(name@, handler),
    {
        let mut b = self;
        b.commands.insert(name, handler);
        b
    }

    /// Register a batch of `(name, handler)` commands, in order.
    pub fn commands(self, specs: Vec<(String, H)>) -> (r: Self)
        requires
            self.wf(),
        ensures
            r.wf(),
            r.name() == self.name(),
            r.commands_view() == insert_all(self.commands_view(), specs@.map_values(|p: (String, H)| (p.0@, p.1))),
    {
        let mut b = self;
        let mut rest = specs;
        let ghost all = specs@.map_values(|p: (String, H)| (p.0@, p.1));
        let ghost start = b.commands@;
        let ghost mut done: int = 0;
        proof {
            assert(all.take(0) =~= Seq::<(Seq<char>, H)>::empty());
        }
        while rest.len() > 0
            invariant
                b.wf(),
                b.name() == self.name(),
                0 <= done <= all.len(),
                rest@.map_values(|p: (String, H)| (p.0@, p.1)) == all.skip(done),
                b.commands@ == insert_all(start, all.take(done)),
            decreases rest@.len(),
        {
            let ghost before = rest@;
            proof {
                assert(before.map_values(|p: (String, H)| (p.0@, p.1)).len() == before.len());
                assert(done < all.len());
            }
            let (n, h) = rest.remove(0);
            proof {
                assert(before[0] == (n, h));
                assert(before.map_values(|p: (String, H)| (p.0@, p.1))[0] == (n@, h));
                assert(all.skip(done)[0] == all[done]);
                assert(all[done] == (n@, h));
                lemma_insert_all_push(start, all.take(done), (n@, h));
                assert(all.take(done + 1) =~= all.take(done).push((n@, h)));
                assert(rest@ =~= before.skip(1));
                assert(before.skip(1).map_values(|p: (String, H)| (p.0@, p.1)) =~= before.map_values(
                    |p: (String, H)| (p.0@, p.1),
                ).skip(1));
                assert(all.skip(done).skip(1) =~= all.skip(done + 1));
                assert(rest@.map_values(|p: (String, H)| (p.0@, p.1)) =~= all.skip(done + 1));
            }
            b.commands.insert(n, h);
            proof {
                done = done + 1;
            }
        }
        proof {
            assert(all.take(done) =~= all);
        }
        b
    }

    /// Finish the plugin.
    pub fn build(self) -> (r: Plugin<H>)
        requires
            self.wf(),
        ensures
            r.name@ == self.name(),
            r.commands@ == self.commands_view(),
            r.commands.wf(),
    {
        Plugin { name: self.name, commands: self.commands }
    }
}

/// The command that `key` addresses in plugin `plugin`, when `key` is
/// `plugin|command`.
pub open spec fn command_of(plugin: Seq<char>, key: Seq<char>) -> Option<Seq<char>> {
    if key.len() > plugin.len() && key.take(plugin.len() as int) == plugin && key[plugin.len() as int] == '|' {
        Some(key.skip(plugin.len() + 1int))
    } else {
        None
    }
}

proof fn lemma_command_of_key(plugin: Seq<char>, c: Seq<char>, k: Seq<char>)
    ensures
        command_of(plugin, spec_command_key(plugin, c)) == Some(c),
        command_of(plugin, k) == Some(c) ==> k == spec_command_key(plugin, c),
{
    let key = spec_command_key(plugin, c);
    assert(key.take(plugin.len() as int) =~= plugin);
    assert(key[plugin.len() as int] == '|');
    assert(key.skip(plugin.len() + 1int) =~= c);
    if command_of(plugin, k) == Some(c) {
        assert(k =~= spec_command_key(plugin, c));
    }
}

/// `m` after registering the commands `cmds` of plugin `name`: every
/// `name|command` key now runs that command; other keys are unchanged.
pub open spec fn with_plugin<H>(m: Map<Seq<char>, H>, name: Seq<char>, cmds: Map<Seq<char>, H>) -> Map<
    Seq<char>,
    H,
> {
    Map::new(
        |k: Seq<char>| m.contains_key(k) || (command_of(name, k) matches Some(c) && cmds.contains_key(c)),
        |k: Seq<char>|
            match command_of(name, k) {
                Some(c) => if cmds.contains_key(c) {
                    cmds[c]
                } else {
                    m[k]
                },
                None => m[k],
            },
    )
}

/// `m` after registering `plugins` (name and commands) in order.
pub open spec fn with_plugins<H>(m: Map<Seq<char>, H>, plugins: Seq<(Seq<char>, Map<Seq<char>, H>)>) -> Map<
    Seq<char>,
    H,
>
    decreases plugins.len(),
{
    if plugins.len() == 0 {
        m
    } else {
        with_plugin(with_plugins(m, plugins.drop_last()), plugins.last().0, plugins.last().1)
    }
}

proof fn lemma_with_plugin_insert<H>(m: Map<Seq<char>, H>, name: Seq<char>, cmds: Map<Seq<char>, H>, c: Seq<char>, h: H)
    ensures
        with_plugin(m, name, cmds).insert(spec_command_key(name, c), h) == with_plugin(m, name, cmds.insert(c, h)),
{
    lemma_command_of_key(name, c, Seq::empty());
    assert forall|k: Seq<char>| #[trigger] command_of(name, k) == Some(c) implies k == spec_command_key(name, c) by {
        lemma_command_of_key(name, c, k);
    }
    assert(with_plugin(m, name, cmds).insert(spec_command_key(name, c), h) =~= with_plugin(m, name, cmds.insert(c, h)));
}

proof fn lemma_with_plugin_empty<H>(m: Map<Seq<char>, H>, name: Seq<char>)
    ensures
        with_plugin(m, name, Map::empty()) == m,
{
    assert(with_plugin(m, name, Map::empty()) =~= m);
}

/// The registry of every plugin command, keyed `plugin|command`.
pub struct CommandRegistry<H> {
    table: NameTable<H>,
}

impl<H> CommandRegistry<H> {
    pub closed spec fn wf(&self) -> bool {
        self.table.wf()
    }

    pub fn new() -> (r: Self)
        ensures
            r.wf(),
            r@ == Map::<Seq<char>, H>::empty(),
    {
        CommandRegistry { table: NameTable::new() }
    }

    /// Register every command of `plugin` under `plugin|command`; a key
    /// registered earlier is replaced (the last registration wins).
    pub fn register_plugin(&mut self, plugin: Plugin<H>)
        requires
            old(self).wf(),
        ensures
            final(self).wf(),
            final(self)@ == with_plugin(old(self)@, plugin.name@, plugin.commands@),
    {
        let Plugin { name, commands } = plugin;
        let ghost e = commands.pairs();
        let ghost start = self@;
        let mut rest = commands.into_pairs();
        let ghost mut done: int = 0;
        proof {
            assert(e.take(0) =~= Seq::<(Seq<char>, H)>::empty());
            lemma_with_plugin_empty(start, name@);
        }
        while rest.len() > 0
            invariant
                self.wf(),
                0 <= done <= e.len(),
                rest@.map_values(|p: (String, H)| (p.0@, p.1)) == e.skip(done),
                self@ == with_plugin(start, name@, entries_map(e.take(done))),
            decreases rest@.len(),
        {
            let ghost before = rest@;
            proof {
                assert(before.map_values(|p: (String, H)| (p.0@, p.1)).len() == before.len());
            }
            let (c, h) = rest.remove(0);
            proof {
                assert(before[0] == (c, h));
                assert(before.map_values(|p: (String, H)| (p.0@, p.1))[0] == (c@, h));
                assert(e.skip(done)[0] == e[done]);
                assert(e.take(done + 1) =~= e.take(done).push((c@, h)));
                assert(e.take(done + 1).drop_last() =~= e.take(done));
                lemma_with_plugin_insert(start, name@, entries_map(e.take(done)), c@, h);
                assert(rest@ =~= before.skip(1));
                assert(before.skip(1).map_values(|p: (String, H)| (p.0@, p.1)) =~= before.map_values(
                    |p: (String, H)| (p.0@, p.1),
                ).skip(1));
                assert(e.skip(done).skip(1) =~= e.skip(done + 1));
            }
            let key = command_key(name.as_str(), c.as_str());
            self.table.insert(key, h);
            proof {
                done = done + 1;
            }
        }
        proof {
            assert(e.take(done) =~= e);
        }
    }

    /// Register `plugins` in order (built-ins first, then the application's).
    pub fn register_plugins(&mut self, plugins: Vec<Plugin<H>>)
        requires
            old(self).wf(),
        ensures
            final(self).wf(),
            final(self)@ == with_plugins(old(self)@, plugins@.map_values(|p: Plugin<H>| (p.name@, p.commands@))),
    {
        let ghost all = plugins@.map_values(|p: Plugin<H>| (p.name@, p.commands@));
        let ghost start = self@;
        let mut rest = plugins;
        let ghost mut done: int = 0;
        proof {
            assert(all.take(0) =~= Seq::<(Seq<char>, Map<Seq<char>, H>)>::empty());
        }
        while rest.len() > 0
            invariant
                self.wf(),
                0 <= done <= all.len(),
                rest@.map_values(|p: Plugin<H>| (p.name@, p.commands@)) == all.skip(done),
                self@ == with_plugins(start, all.take(done)),
            decreases rest@.len(),
        {
            let ghost before = rest@;
            proof {
                assert(before.map_values(|p: Plugin<H>| (p.name@, p.commands@)).len() == before.len());
            }
            let p = rest.remove(0);
            proof {
                assert(before[0] == p);
                assert(all.skip(done)[0] == all[done]);
                assert(all[done] == (p.name@, p.commands@));
                assert(all.take(done + 1).drop_last() =~= all.take(done));
                assert(rest@ =~= before.skip(1));
                assert(before.skip(1).map_values(|p: Plugin<H>| (p.name@, p.commands@)) =~= before.map_values(
                    |p: Plugin<H>| (p.name@, p.commands@),
                ).skip(1));
                assert(all.skip(done).skip(1) =~= all.skip(done + 1));
            }
            self.register_plugin(p);
            proof {
                done = done + 1;
            }
        }
        proof {
            assert(all.take(done) =~= all);
        }
    }

    /// Look up the command registered under `key`; an unknown key is the
    /// error `unknown command: {key}`.
    pub fn dispatch(&self, key: &str) -> (r: Result<&H, String>)
        requires
            self.wf(),
        ensures
            match r {
                Ok(h) => self@.contains_key(key@) && *h == self@[key@],
                Err(msg) => !self@.contains_key(key@) && msg@ == "unknown command: "@ + key@,
            },
    {
        match self.table.get(key) {
            Some(h) => Ok(h),
            None => {
                let mut msg = String::from_str("unknown command: ");
                msg.append(key);
                Err(msg)
            },
        }
    }
}

impl<H> View for CommandRegistry<H> {
    type V = Map<Seq<char>, H>;

    closed spec fn view(&self) -> Map<Seq<char>, H> {
        self.table@
    }
}

/// After a plugin is registered, `plugin|command` addresses each of its
/// commands, and every key that names none of them keeps what it addressed.
pub proof fn lemma_plugin_commands_addressed<H>(
    m: Map<Seq<char>, H>,
    name: Seq<char>,
    cmds: Map<Seq<char>, H>,
    c: Seq<char>,
    k: Seq<char>,
)
    ensures
        cmds.contains_key(c) ==> with_plugin(m, name, cmds).contains_key(spec_command_key(name, c))
            && with_plugin(m, name, cmds)[spec_command_key(name, c)] == cmds[c],
        (forall|d: Seq<char>| cmds.contains_key(d) ==> k != #[trigger] spec_command_key(name, d)) ==> (
        with_plugin(m, name, cmds).contains_key(k) == m.contains_key(k) && (m.contains_key(k) ==> with_plugin(
            m,
            name,
            cmds,
        )[k] == m[k])),
{
    lemma_command_of_key(name, c, k);
    if let Some(d) = command_of(name, k) {
        lemma_command_of_key(name, d, k);
    }
}

/// The built-in `__window|setTitle` command: a string `title` argument sets
/// the window title; anything else is an error.
pub fn window_set_title(title: Option<String>) -> (r: Result<WindowCommand, String>)
    ensures
        match title {
            Some(t) => r matches Ok(WindowCommand::SetTitle(x)) && x@ == t@,
            None => r matches Err(m) && m@ == "__window|setTitle: missing string `title` argument"@,
        },
{
    match title {
        Some(t) => Ok(WindowCommand::SetTitle(t)),
        None => Err(String::from_str("__window|setTitle: missing string `title` argument")),
    }
}

/// The commands of the built-in `__focus` plugin.
#[derive(Debug, Clone, Copy, PartialEq, Eq, Structural)]
pub enum FocusCommand {
    /// `focus`: focus the element.
    Focus,
    /// `focusFirstIn`: focus the first tab stop inside the element.
    FocusFirstIn,
    /// `blur`: remove focus from the element.
    Blur,
}

/// The full key of a `__focus` command.
pub open spec fn focus_command_key(cmd: FocusCommand) -> Seq<char> {
    match cmd {
        FocusCommand::Focus => "__focus|focus"@,
        FocusCommand::FocusFirstIn => "__focus|focusFirstIn"@,
        FocusCommand::Blur => "__focus|blur"@,
    }
}

/// A `__focus` command: a numeric `id` argument gives the window command;
/// without one the command fails.
pub fn focus_command(cmd: FocusCommand, id: Option<ElementId>) -> (r: Result<WindowCommand, String>)
    ensures
        match id {
            Some(i) => r == Ok::<WindowCommand, String>(match cmd {
                FocusCommand::Focus => WindowCommand::FocusElement(i),
                FocusCommand::FocusFirstIn => WindowCommand::FocusFirstIn(i),
                FocusCommand::Blur => WindowCommand::BlurElement(i),
            }),
            None => r matches Err(m) && m@ == focus_command_key(cmd) + ": missing numeric `id` argument"@,
        },
{
    match id {
        Some(i) => Ok(
            match cmd {
                FocusCommand::Focus => WindowCommand::FocusElement(i),
                FocusCommand::FocusFirstIn => WindowCommand::FocusFirstIn(i),
                FocusCommand::Blur => WindowCommand::BlurElement(i),
            },
        ),
        None => {
            let mut m = String::from_str(
                match cmd {
                    FocusCommand::Focus => "__focus|focus",
                    FocusCommand::FocusFirstIn => "__focus|focusFirstIn",
                    FocusCommand::Blur => "__focus|blur",
                },
            );
            m.append(": missing numeric `id` argument");
            Err(m)
        },
    }
}

} // verus!
