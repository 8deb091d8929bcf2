use gluxe::command_attr::{
    parse_command_args, plan_command, ArgToken, ArgsError, CommandArgs, CommandKind, ParamShape,
    PlanError,
};
use proc_macro2::{TokenStream, TokenTree};

/// Tokenize attribute arguments with the Rust tokenizer and classify each token.
fn tokens(src: &str) -> Vec<ArgToken> {
    let stream: TokenStream = src.parse().expect("tokenizable");
    stream
        .into_iter()
        .map(|tt| match tt {
            TokenTree::Ident(i) => {
                let s = i.to_string();
                if s == "async" {
                    ArgToken::Async
                } else {
                    ArgToken::Ident(s)
                }
            }
            TokenTree::Punct(p) if p.as_char() == '=' => ArgToken::Eq,
            TokenTree::Punct(p) if p.as_char() == ',' => ArgToken::Comma,
            TokenTree::Literal(l) => match syn::parse_str::<syn::LitStr>(&l.to_string()) {
                Ok(s) => ArgToken::Str(s.value()),
                Err(_) => ArgToken::Other,
            },
            _ => ArgToken::Other,
        })
        .collect()
}

fn parse_ok(src: &str) -> CommandArgs {
    match parse_command_args(&tokens(src)) {
        Ok(a) => a,
        Err(e) => panic!("expected ok for {src:?}, got error: {e:?}"),
    }
}

fn parse_err(src: &str) -> ArgsError {
    match parse_command_args(&tokens(src)) {
        Ok(a) => panic!("expected parse error for {src:?}, got {a:?}"),
        Err(e) => e,
    }
}

fn message(e: &ArgsError) -> String {
    e.message().unwrap_or_default()
}

#[test]
fn conflicting_flavours_is_error() {
    let err = parse_err("async, stream");
    assert!(message(&err).contains("conflicting"), "unexpected message: {err:?}");
}

#[test]
fn name_only_defaults_to_sync() {
    let args = parse_ok("name = \"readFile\"");
    assert_eq!(args.name.as_deref(), Some("readFile"));
    assert!(matches!(args.kind, CommandKind::Sync));
}

#[test]
fn async_with_name() {
    let args = parse_ok("async, name = \"x\"");
    assert!(matches!(args.kind, CommandKind::Async));
    assert_eq!(args.name.as_deref(), Some("x"));
}

#[test]
fn duplicate_name_is_error() {
    let err = parse_err("name=\"a\", name=\"b\"");
    assert!(message(&err).contains("duplicate"), "unexpected message: {err:?}");
}

#[test]
fn unknown_arg_is_error_with_expected_list() {
    let err = parse_err("bogus");
    let msg = message(&err);
    assert!(msg.contains("unknown #[command] argument"), "msg: {msg}");
    assert!(msg.contains("name = \"...\""), "msg: {msg}");
}

#[test]
fn empty_args_default_sync_no_name() {
    let args = parse_ok("");
    assert!(matches!(args.kind, CommandKind::Sync));
    assert_eq!(args.name, None);
}

#[test]
fn trailing_comma_is_accepted() {
    let args = parse_ok("stream,");
    assert_eq!(args, CommandArgs { kind: CommandKind::Stream, name: None });
}

#[test]
fn malformed_arguments_are_refused() {
    assert_eq!(parse_err("name \"x\""), ArgsError::ExpectedEq);
    assert_eq!(parse_err("name = x"), ArgsError::ExpectedString);
    assert_eq!(parse_err("sync stream"), ArgsError::ExpectedComma);
    assert_eq!(parse_err("= sync"), ArgsError::ExpectedArgument);
    assert_eq!(parse_err("sync, sync"), ArgsError::ConflictingFlavour);
    assert_eq!(parse_err("bogus"), ArgsError::UnknownArgument("bogus".to_string()));
    assert_eq!(message(&parse_err("name = 1")), "");
}

#[test]
fn unknown_argument_message_names_it() {
    assert_eq!(
        message(&ArgsError::UnknownArgument("x".to_string())),
        "unknown #[command] argument `x`; expected `sync`, `async`, `stream`, or `name = \"...\"`"
    );
}

fn ident(s: &str) -> ParamShape {
    ParamShape::Ident(s.to_string())
}

#[test]
fn plan_names_the_command_after_the_function_by_default() {
    let args = CommandArgs { kind: CommandKind::Sync, name: None };
    let plan = plan_command(args, "read_text_file".to_string(), &[ident("path")]).unwrap();
    assert_eq!(plan.name, "read_text_file");
    assert_eq!(plan.extracted, vec!["path".to_string()]);
    assert!(!plan.takes_sink);
}

#[test]
fn plan_uses_the_given_name() {
    let args = CommandArgs { kind: CommandKind::Async, name: Some("readTextFile".to_string()) };
    let plan = plan_command(args, "read_text_file".to_string(), &[]).unwrap();
    assert_eq!(plan.name, "readTextFile");
    assert_eq!(plan.kind, CommandKind::Async);
    assert!(plan.extracted.is_empty());
}

#[test]
fn stream_plan_passes_the_final_parameter_through() {
    let args = CommandArgs { kind: CommandKind::Stream, name: None };
    let plan = plan_command(args, "tick".to_string(), &[ident("n"), ParamShape::Pattern]).unwrap();
    assert_eq!(plan.extracted, vec!["n".to_string()]);
    assert!(plan.takes_sink);
}

#[test]
fn plan_refusals() {
    let sync = || CommandArgs { kind: CommandKind::Sync, name: None };
    let stream = CommandArgs { kind: CommandKind::Stream, name: None };
    assert_eq!(
        plan_command(sync(), "f".to_string(), &[ParamShape::Receiver]).unwrap_err(),
        PlanError::TakesSelf
    );
    assert_eq!(
        plan_command(sync(), "f".to_string(), &[ident("a"), ParamShape::Pattern]).unwrap_err(),
        PlanError::PatternParam
    );
    assert_eq!(plan_command(stream, "f".to_string(), &[]).unwrap_err(), PlanError::MissingSink);
    assert_eq!(
        PlanError::MissingSink.message(),
        "#[command(stream)] functions must take a final `gluxe::StreamSink` parameter"
    );
}
