use gluxe::plugin::{command_key, is_reserved, StreamGate};

#[test]
fn reserved_prefix_is_double_underscore() {
    assert!(is_reserved("__window"));
    assert!(is_reserved("__"));
    assert!(!is_reserved("_x"));
    assert!(!is_reserved("fs"));
    assert!(!is_reserved(""));
}

#[test]
fn command_keys_join_plugin_and_command_with_a_bar() {
    assert_eq!(command_key("fs", "readTextFile"), "fs|readTextFile");
    assert_eq!(command_key("__focus", "blur"), "__focus|blur");
}

#[test]
fn stream_sink_chunk_after_end_is_noop() {
    let mut gate = StreamGate::new();
    assert!(gate.end());
    assert!(!gate.chunk());
    assert!(!gate.error());
    assert!(!gate.on_drop());
}

#[test]
fn stream_sink_drop_without_terminal_sends_end() {
    let mut gate = StreamGate::new();
    assert!(gate.chunk());
    assert!(gate.on_drop());
    assert!(gate.terminated);
}

#[test]
fn first_terminal_wins() {
    let mut gate = StreamGate::new();
    assert!(gate.error());
    assert!(!gate.end());
}

#[test]
fn stream_sink_is_closed_reflects_cancel_flag() {
    let gate = StreamGate::new();
    assert!(!gate.is_closed(false));
    assert!(gate.is_closed(true));
    let mut ended = StreamGate::new();
    ended.end();
    assert!(ended.is_closed(false));
}

use gluxe::plugin::{CommandRegistry, PluginBuilder};
use gluxe::registry::NameTable;

#[test]
fn registered_commands_dispatch_by_plugin_and_name() {
    let fs = PluginBuilder::new("fs".to_string())
        .command("readTextFile".to_string(), 1u32)
        .command("writeTextFile".to_string(), 2)
        .build();
    let mut reg = CommandRegistry::new();
    reg.register_plugins(vec![PluginBuilder::builtin("__window").command("setTitle".to_string(), 9).build(), fs]);
    assert_eq!(reg.dispatch("fs|readTextFile"), Ok(&1));
    assert_eq!(reg.dispatch("fs|writeTextFile"), Ok(&2));
    assert_eq!(reg.dispatch("__window|setTitle"), Ok(&9));
}

#[test]
fn unknown_command_is_an_error_naming_the_key() {
    let reg: CommandRegistry<u32> = CommandRegistry::new();
    assert_eq!(reg.dispatch("s|missing"), Err("unknown command: s|missing".to_string()));
}

#[test]
fn later_registration_of_a_key_wins() {
    let mut reg = CommandRegistry::new();
    reg.register_plugin(PluginBuilder::new("m".to_string()).command("x".to_string(), 'a').build());
    reg.register_plugin(PluginBuilder::new("m".to_string()).command("x".to_string(), 'b').build());
    assert_eq!(reg.dispatch("m|x"), Ok(&'b'));
}

#[test]
fn builder_replaces_a_command_registered_twice() {
    let p = PluginBuilder::new("p".to_string())
        .command("c".to_string(), 1)
        .commands(vec![("d".to_string(), 2), ("c".to_string(), 3)])
        .build();
    assert_eq!(p.name, "p");
    assert_eq!(p.commands.get("c"), Some(&3));
    assert_eq!(p.commands.get("d"), Some(&2));
    assert_eq!(p.commands.get("e"), None);
}

#[test]
fn command_table_insert_reports_replacement() {
    let mut t = NameTable::new();
    assert!(!t.insert("a".to_string(), 1));
    assert!(t.insert("a".to_string(), 2));
    assert_eq!(t.get("a"), Some(&2));
}

use gluxe::component::{scrollbar_component_name, Component, ComponentRegistry};

#[test]
fn components_register_by_name_and_builtin_is_reserved() {
    let mut reg = ComponentRegistry::new();
    reg.register_builtin_components("scrollbar");
    reg.register_components(vec![Component::new("Badge".to_string(), "badge"), Component::new("Badge".to_string(), "badge2")]);
    assert!(reg.is_registered("Badge"));
    assert!(reg.is_registered("__GluxeScrollbar"));
    assert!(!reg.is_registered("badge"));
    assert_eq!(reg.render_fn("Badge"), Some(&"badge2"));
    assert_eq!(reg.render_fn(scrollbar_component_name()), Some(&"scrollbar"));
    assert_eq!(reg.render_fn("Nope"), None);
}

use gluxe::plugin::{focus_command, window_set_title, FocusCommand};
use gluxe::state::WindowCommand;

#[test]
fn builtin_window_set_title_requires_a_string_title() {
    match window_set_title(Some("T".to_string())) {
        Ok(WindowCommand::SetTitle(t)) => assert_eq!(t, "T"),
        _ => panic!("expected SetTitle"),
    }
    match window_set_title(None) {
        Err(msg) => assert!(msg.contains("missing string `title`")),
        _ => panic!("expected an error"),
    }
}

#[test]
fn builtin_focus_commands_require_a_numeric_id() {
    assert!(matches!(focus_command(FocusCommand::Focus, Some(3)), Ok(WindowCommand::FocusElement(3))));
    assert!(matches!(focus_command(FocusCommand::FocusFirstIn, Some(4)), Ok(WindowCommand::FocusFirstIn(4))));
    assert!(matches!(focus_command(FocusCommand::Blur, Some(5)), Ok(WindowCommand::BlurElement(5))));
    match focus_command(FocusCommand::Blur, None) {
        Err(msg) => assert_eq!(msg, "__focus|blur: missing numeric `id` argument"),
        _ => panic!("expected an error"),
    }
}

#[test]
fn new_then_build_has_the_name_and_no_commands() {
    let p = PluginBuilder::<u8>::new("fs".to_string()).build();
    assert_eq!(p.name, "fs");
    assert!(p.commands.into_pairs().is_empty());
    assert!(gluxe::plugin::is_reserved("__window"));
    assert!(!gluxe::plugin::is_reserved("_w"));
    assert!(!gluxe::plugin::is_reserved("fs"));
}
