//! The arguments of the `#[command(...)]` attribute that turns a typed
//! function into a plugin command: at most one flavour flag (`sync`, `async`,
//! `stream`; `sync` when none is given) and at most one `name = "..."`,
//! separated by commas. The tokens come from the Rust tokenizer; this module
//! decides what they mean.

use vstd::prelude::*;

use crate::text_util::str_eq;

verus! {

broadcast use vstd::string::group_string_axioms;

/// One token of the attribute's arguments.
#[derive(Debug, Clone, PartialEq, Eq)]
pub enum ArgToken {
    /// The `async` keyword.
    Async,
    /// An identifier (not a keyword).
    Ident(String),
    /// `=`.
    Eq,
    /// A string literal, by its value.
    Str(String),
    /// `,`.
    Comma,
    /// Anything else.
    Other,
}

/// How the command runs.
#[derive(Debug, Clone, Copy, PartialEq, Eq, Structural)]
pub enum CommandKind {
    /// Inline on the JS thread.
    Sync,
    /// On a background thread, with one result.
    Async,
    /// On a background thread, pushing chunks to a stream sink.
    Stream,
}

/// The parsed arguments.
#[derive(Debug, Clone, PartialEq, Eq)]
pub struct CommandArgs {
    pub kind: CommandKind,
    /// The command's name, when given (else the function's name is used).
    pub name: Option<String>,
}

/// Why the arguments are refused.
#[derive(Debug, Clone, PartialEq, Eq)]
pub enum ArgsError {
    /// A second flavour flag.
    ConflictingFlavour,
    /// A second `name = "..."`.
    DuplicateName,
    /// An identifier that names no argument.
    UnknownArgument(String),
    /// An argument starts with something other than an identifier or `async`.
    ExpectedArgument,
    /// `name` is not followed by `=`.
    ExpectedEq,
    /// `name =` is not followed by a string literal.
    ExpectedString,
    /// An argument is followed by something other than `,`.
    ExpectedComma,
}

/// The flavour after the flag `new`: a second flag is a conflict.
pub open spec fn set_kind(kind: Option<CommandKind>, new: CommandKind) -> Result<Option<CommandKind>, ArgsError> {
    if kind is Some {
        Err(ArgsError::ConflictingFlavour)
    } else {
        Ok(Some(new))
    }
}

/// Number of tokens the argument at the front of `tokens` takes:
/// `name = "..."` three, a flag one.
pub open spec fn arg_width(tokens: Seq<ArgToken>) -> int {
    match tokens[0] {
        ArgToken::Ident(s) => if s@ == "name"@ {
            3
        } else {
            1
        },
        _ => 1,
    }
}

/// The state after the argument at the front of `tokens`.
pub open spec fn one_arg(tokens: Seq<ArgToken>, kind: Option<CommandKind>, name: Option<String>) -> Result<
    (Option<CommandKind>, Option<String>),
    ArgsError,
> {
    match tokens[0] {
        ArgToken::Async => match set_kind(kind, CommandKind::Async) {
            Ok(k) => Ok((k, name)),
            Err(e) => Err(e),
        },
        ArgToken::Ident(s) => if s@ == "sync"@ {
            match set_kind(kind, CommandKind::Sync) {
                Ok(k) => Ok((k, name)),
                Err(e) => Err(e),
            }
        } else if s@ == "stream"@ {
            match set_kind(kind, CommandKind::Stream) {
                Ok(k) => Ok((k, name)),
                Err(e) => Err(e),
            }
        } else if s@ == "name"@ {
            if tokens.len() < 2 || !(tokens[1] is Eq) {
                Err(ArgsError::ExpectedEq)
            } else if tokens.len() < 3 || !(tokens[2] is Str) {
                Err(ArgsError::ExpectedString)
            } else if name is Some {
                Err(ArgsError::DuplicateName)
            } else {
                Ok((kind, Some(tokens[2]->Str_0)))
            }
        } else {
            Err(ArgsError::UnknownArgument(s))
        },
        _ => Err(ArgsError::ExpectedArgument),
    }
}

/// The arguments read from `tokens` on, after the state `(kind, name)`: one
/// argument, then the end, or a comma and the rest (a trailing comma is
/// allowed). Without a flavour flag the command is `sync`.
pub open spec fn args_from(tokens: Seq<ArgToken>, kind: Option<CommandKind>, name: Option<String>) -> Result<
    CommandArgs,
    ArgsError,
>
    decreases tokens.len(),
{
    if tokens.len() == 0 {
        Ok(CommandArgs { kind: kind.unwrap_or(CommandKind::Sync), name })
    } else {
        match one_arg(tokens, kind, name) {
            Err(e) => Err(e),
            Ok((k, n)) => {
                let c = arg_width(tokens);
                if c >= tokens.len() {
                    Ok(CommandArgs { kind: k.unwrap_or(CommandKind::Sync), name: n })
                } else if tokens[c] is Comma {
                    args_from(tokens.skip(c + 1), k, n)
                } else {
                    Err(ArgsError::ExpectedComma)
                }
            },
        }
    }
}

pub open spec fn spec_command_args(tokens: Seq<ArgToken>) -> Result<CommandArgs, ArgsError> {
    args_from(tokens, None, None)
}

/// Parse the attribute's argument tokens (see [`args_from`]).
pub fn parse_command_args(tokens: &[ArgToken]) -> (r: Result<CommandArgs, ArgsError>)
    ensures
        r == spec_command_args(tokens@),
{
    let mut kind: Option<CommandKind> = None;
    let mut name: Option<String> = None;
    let mut i: usize = 0;
    assert(tokens@.skip(0) =~= tokens@);
    while i < tokens.len()
        invariant
            0 <= i <= tokens@.len(),
            spec_command_args(tokens@) == args_from(tokens@.skip(i as int), kind, name),
        decreases tokens@.len() - i,
    {
        let ghost rest = tokens@.skip(i as int);
        proof {
            reveal_strlit("name");
            reveal_strlit("sync");
            reveal_strlit("stream");
            assert("sync"@[0] != "name"@[0]);
            assert("stream"@[1] != "name"@[1]);
        }
        assert(rest[0] == tokens@[i as int]);
        assert(rest.len() > 1 ==> rest[1] == tokens@[i + 1]);
        assert(rest.len() > 2 ==> rest[2] == tokens@[i + 2]);
        let width: usize;
        match &tokens[i] {
            ArgToken::Async => {
                if kind.is_some() {
                    return Err(ArgsError::ConflictingFlavour);
                }
                kind = Some(CommandKind::Async);
                width = 1;
            },
            ArgToken::Ident(s) => {
                if str_eq(s.as_str(), "sync") {
                    if kind.is_some() {
                        return Err(ArgsError::ConflictingFlavour);
                    }
                    kind = Some(CommandKind::Sync);
                    width = 1;
                } else if str_eq(s.as_str(), "stream") {
                    if kind.is_some() {
                        return Err(ArgsError::ConflictingFlavour);
                    }
                    kind = Some(CommandKind::Stream);
                    width = 1;
                } else if str_eq(s.as_str(), "name") {
                    if i + 1 >= tokens.len() {
                        return Err(ArgsError::ExpectedEq);
                    }
                    match &tokens[i + 1] {
                        ArgToken::Eq => {},
                        _ => {
                            return Err(ArgsError::ExpectedEq);
                        },
                    }
                    if i + 2 >= tokens.len() {
                        return Err(ArgsError::ExpectedString);
                    }
                    let value = match &tokens[i + 2] {
                        ArgToken::Str(v) => v.clone(),
                        _ => {
                            return Err(ArgsError::ExpectedString);
                        },
                    };
                    if name.is_some() {
                        return Err(ArgsError::DuplicateName);
                    }
                    name = Some(value);
                    width = 3;
                } else {
                    return Err(ArgsError::UnknownArgument(s.clone()));
                }
            },
            _ => {
                return Err(ArgsError::ExpectedArgument);
            },
        }
        assert(width as int == arg_width(rest));
        if i + width >= tokens.len() {
            return Ok(
                CommandArgs {
                    kind: match kind {
                        Some(k) => k,
                        None => CommandKind::Sync,
                    },
                    name,
                },
            );
        }
        match &tokens[i + width] {
            ArgToken::Comma => {},
            _ => {
                return Err(ArgsError::ExpectedComma);
            },
        }
        proof {
            assert(rest.skip(width + 1) =~= tokens@.skip(i + width + 1));
        }
        i = i + width + 1;
    }
    assert(tokens@.skip(i as int).len() == 0);
    Ok(
        CommandArgs {
            kind: match kind {
                Some(k) => k,
                None => CommandKind::Sync,
            },
            name,
        },
    )
}

impl ArgsError {
    /// The message for the refusals this module words itself; the tokenizer's
    /// own messages serve for the others (`None`).
    pub fn message(&self) -> (r: Option<String>)
        ensures
            match self {
                ArgsError::ConflictingFlavour => r matches Some(m) && m@
                    == "conflicting #[command] flavour: specify at most one of `sync`, `async`, `stream`"@,
                ArgsError::DuplicateName => r matches Some(m) && m@
                    == "duplicate #[command] `name` argument"@,
                ArgsError::UnknownArgument(a) => r matches Some(m) && m@ == "unknown #[command] argument `"@
                    + a@ + "`; expected `sync`, `async`, `stream`, or `name = \"...\"`"@,
                _ => r is None,
            },
    {
        match self {
            ArgsError::ConflictingFlavour => Some(
                String::from_str(
                    "conflicting #[command] flavour: specify at most one of `sync`, `async`, `stream`",
                ),
            ),
            ArgsError::DuplicateName => Some(String::from_str("duplicate #[command] `name` argument")),
            ArgsError::UnknownArgument(a) => {
                let mut m = String::from_str("unknown #[command] argument `");
                m.append(a.as_str());
                m.append("`; expected `sync`, `async`, `stream`, or `name = \"...\"`");
                Some(m)
            },
            _ => None,
        }
    }
}

/// The shape of one parameter of the attributed function.
#[derive(Debug, Clone, PartialEq, Eq)]
pub enum ParamShape {
    /// `self` in any form.
    Receiver,
    /// A parameter bound to a plain identifier.
    Ident(String),
    /// A parameter bound by any other pattern.
    Pattern,
}

/// What the generated wrapper does.
#[derive(Debug)]
pub struct CommandPlan {
    /// The command's name: the `name` argument, else the function's name.
    pub name: String,
    pub kind: CommandKind,
    /// The parameters read from the JSON arguments object, in order.
    pub extracted: Vec<String>,
    /// Whether the final parameter is the stream sink, passed through.
    pub takes_sink: bool,
}

/// Why a function cannot be a command.
#[derive(Debug, Clone, Copy, PartialEq, Eq, Structural)]
pub enum PlanError {
    /// It takes `self`.
    TakesSelf,
    /// A parameter is bound by a pattern.
    PatternParam,
    /// A stream command without the final sink parameter.
    MissingSink,
}

/// The names of parameters `[i, ..)` that are read from the arguments
/// object (a stream command's final parameter is the sink), or the first
/// refusal.
pub open spec fn extracted_from(params: Seq<ParamShape>, stream: bool, i: int) -> Result<Seq<String>, PlanError>
    decreases params.len() - i,
{
    if i < 0 || i >= params.len() {
        Ok(Seq::empty())
    } else {
        match params[i] {
            ParamShape::Receiver => Err(PlanError::TakesSelf),
            ParamShape::Ident(s) => if stream && i + 1 == params.len() {
                extracted_from(params, stream, i + 1)
            } else {
                match extracted_from(params, stream, i + 1) {
                    Ok(rest) => Ok(seq![s] + rest),
                    Err(e) => Err(e),
                }
            },
            ParamShape::Pattern => if stream && i + 1 == params.len() {
                extracted_from(params, stream, i + 1)
            } else {
                Err(PlanError::PatternParam)
            },
        }
    }
}

/// The plan for a function named `fn_name` with parameters `params`.
pub fn plan_command(args: CommandArgs, fn_name: String, params: &[ParamShape]) -> (r: Result<CommandPlan, PlanError>)
    ensures
        ({
            let stream = args.kind == CommandKind::Stream;
            match extracted_from(params@, stream, 0) {
                Err(e) => r == Err::<CommandPlan, PlanError>(e),
                Ok(names) => if stream && params@.len() == 0 {
                    r == Err::<CommandPlan, PlanError>(PlanError::MissingSink)
                } else {
                    r matches Ok(p) && p.name == args.name.unwrap_or(fn_name) && p.kind == args.kind
                        && p.extracted@ == names && p.takes_sink == stream
                },
            }
        }),
{
    let stream = match args.kind {
        CommandKind::Stream => true,
        _ => false,
    };
    let n = params.len();
    let mut names: Vec<String> = Vec::new();
    let mut i: usize = 0;
    while i < n
        invariant
            n == params@.len(),
            0 <= i <= n,
            stream == (args.kind == CommandKind::Stream),
            extracted_from(params@, stream, 0) == match extracted_from(params@, stream, i as int) {
                Ok(rest) => Ok::<Seq<String>, PlanError>(names@ + rest),
                Err(e) => Err(e),
            },
        decreases n - i,
    {
        let ghost before = names@;
        match &params[i] {
            ParamShape::Receiver => {
                return Err(PlanError::TakesSelf);
            },
            ParamShape::Ident(s) => {
                if !(stream && i + 1 == n) {
                    names.push(s.clone());
                    proof {
                        match extracted_from(params@, stream, i + 1) {
                            Ok(rest) => {
                                assert(before + (seq![*s] + rest) =~= names@ + rest);
                            },
                            Err(_) => {},
                        }
                    }
                }
            },
            ParamShape::Pattern => {
                if !(stream && i + 1 == n) {
                    return Err(PlanError::PatternParam);
                }
            },
        }
        i = i + 1;
    }
    assert(names@ + Seq::<String>::empty() =~= names@);
    if stream && n == 0 {
        return Err(PlanError::MissingSink);
    }
    let name = match args.name {
        Some(s) => s,
        None => fn_name,
    };
    Ok(CommandPlan { name, kind: args.kind, extracted: names, takes_sink: stream })
}

impl PlanError {
    /// The message of the refusal.
    pub fn message(&self) -> (r: &'static str)
        ensures
            r@ == match self {
                PlanError::TakesSelf => "#[command] functions cannot take `self`"@,
                PlanError::PatternParam => "#[command] parameters must be simple identifiers"@,
                PlanError::MissingSink => "#[command(stream)] functions must take a final `gluxe::StreamSink` parameter"@,
            },
    {
        match self {
            PlanError::TakesSelf => "#[command] functions cannot take `self`",
            PlanError::PatternParam => "#[command] parameters must be simple identifiers",
            PlanError::MissingSink => "#[command(stream)] functions must take a final `gluxe::StreamSink` parameter",
        }
    }
}

} // verus!
