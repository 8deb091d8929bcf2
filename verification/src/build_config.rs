//! Build-script configuration read from `app.json`, the JS build command
//! shown in the "bundle missing" hint, and the resource script that embeds
//! the window icon on Windows.

use vstd::prelude::*;

use crate::json::{keys_view, parse_json, str_at, string_at, strings_at, strings_at_path, json_parse};
use crate::text_util::{ascii_lower_seq, chars_match, chars_of, lower_chars};

verus! {

broadcast use vstd::string::group_string_axioms;

/// The build-relevant part of `app.json`.
#[derive(Debug)]
pub struct BuildConfig {
    /// The bundle's output directory, relative to `app.json`.
    pub bundle_out_dir: String,
    pub bundle_build_command: Option<String>,
    /// `None` = `args` absent (the CLI then runs `run build`);
    /// `Some(vec![])` = explicit empty list (the bare command).
    pub bundle_build_args: Option<Vec<String>>,
    /// The window icon (`.ico`), relative to `app.json`.
    pub icon: Option<String>,
}

/// Words joined by single spaces.
pub open spec fn join_words(parts: Seq<Seq<char>>) -> Seq<char>
    decreases parts.len(),
{
    if parts.len() == 0 {
        Seq::empty()
    } else if parts.len() == 1 {
        parts[0]
    } else {
        join_words(parts.drop_last()) + " "@ + parts.last()
    }
}

/// The command words: the command (`npm` when unset), then the arguments
/// (`run build` when unset). Command and arguments default independently.
pub open spec fn build_command_words(config: BuildConfig) -> Seq<Seq<char>> {
    let command = match config.bundle_build_command {
        Some(c) => c@,
        None => "npm"@,
    };
    let args = match config.bundle_build_args {
        Some(a) => a@.map_values(|s: String| s@),
        None => seq!["run"@, "build"@],
    };
    seq![command] + args
}

/// Format the JS build command from the `app.json` config for error messages.
pub fn format_build_command(config: &BuildConfig) -> (r: String)
    ensures
        r@ == join_words(build_command_words(*config)),
{
    let mut parts: Vec<&str> = Vec::new();
    match &config.bundle_build_command {
        Some(c) => parts.push(c.as_str()),
        None => parts.push("npm"),
    }
    match &config.bundle_build_args {
        Some(args) => {
            let mut i: usize = 0;
            while i < args.len()
                invariant
                    0 <= i <= args@.len(),
                    parts@.len() == i + 1,
                    parts@[0]@ == build_command_words(*config)[0],
                    forall|k: int| 1 <= k <= i ==> #[trigger] parts@[k]@ == args@[k - 1]@,
                decreases args@.len() - i,
            {
                parts.push(args[i].as_str());
                i = i + 1;
            }
        },
        None => {
            parts.push("run");
            parts.push("build");
        },
    }
    let ghost words = build_command_words(*config);
    assert(parts@.map_values(|s: &str| s@) =~= words);
    join_strs(&parts)
}

/// Join string slices with single spaces.
fn join_strs(parts: &Vec<&str>) -> (r: String)
    ensures
        r@ == join_words(parts@.map_values(|s: &str| s@)),
{
    proof {
        reveal_strlit(" ");
    }
    let ghost ws = parts@.map_values(|s: &str| s@);
    let mut out = String::new();
    let mut i: usize = 0;
    assert(ws.take(0) =~= Seq::<Seq<char>>::empty());
    while i < parts.len()
        invariant
            ws == parts@.map_values(|s: &str| s@),
            0 <= i <= parts@.len(),
            out@ == join_words(ws.take(i as int)),
        decreases parts@.len() - i,
    {
        proof {
            assert(ws.take(i + 1).drop_last() =~= ws.take(i as int));
            assert(ws.take(i + 1).last() == ws[i as int]);
        }
        if i > 0 {
            out.append(" ");
        } else {
            assert(ws.take(1) =~= seq![ws[0]]);
        }
        out.append(parts[i]);
        i = i + 1;
    }
    assert(ws.take(parts@.len() as int) =~= ws);
    out
}

/// `s` with every backslash doubled (as a resource-script string literal needs).
pub open spec fn double_backslashes(s: Seq<char>) -> Seq<char>
    decreases s.len(),
{
    if s.len() == 0 {
        s
    } else {
        let rest = double_backslashes(s.drop_last());
        if s.last() == '\\' {
            rest + seq!['\\', '\\']
        } else {
            rest.push(s.last())
        }
    }
}

/// The Windows resource script that embeds the icon at `icon_path` as
/// resource 1: `1 ICON "<path, backslashes doubled>"` and a line feed.
pub fn icon_resource_script(icon_path: &str) -> (r: String)
    ensures
        r@ == "1 ICON \""@ + double_backslashes(icon_path@) + "\"\n"@,
{
    let cs = chars_of(icon_path);
    let mut out = String::from_str("1 ICON \"");
    let ghost head = out@;
    let mut i: usize = 0;
    proof {
        reveal_strlit("\\\\");
        assert("\\\\"@ =~= seq!['\\', '\\']);
        assert(icon_path@.take(0) =~= Seq::<char>::empty());
        assert(out@ =~= head + double_backslashes(icon_path@.take(0)));
    }
    while i < cs.len()
        invariant
            cs@ == icon_path@,
            0 <= i <= cs@.len(),
            out@ == head + double_backslashes(icon_path@.take(i as int)),
            "\\\\"@ == seq!['\\', '\\'],
        decreases cs@.len() - i,
    {
        proof {
            assert(icon_path@.take(i + 1).drop_last() =~= icon_path@.take(i as int));
            assert(icon_path@.take(i + 1).last() == icon_path@[i as int]);
            assert(icon_path@.subrange(i as int, i + 1) =~= seq![icon_path@[i as int]]);
        }
        let ghost before = out@;
        if cs[i] == '\\' {
            out.append("\\\\");
            proof {
                assert(out@ =~= head + double_backslashes(icon_path@.take(i + 1)));
            }
        } else {
            out.append(icon_path.substring_char(i, i + 1));
            proof {
                assert(out@ =~= head + double_backslashes(icon_path@.take(i + 1)));
            }
        }
        i = i + 1;
    }
    proof {
        assert(icon_path@.take(cs@.len() as int) =~= icon_path@);
    }
    out.append("\"\n");
    out
}

/// Whether a file extension names an `.ico` file (ASCII case-insensitive).
pub fn is_ico_extension(ext: Option<&str>) -> (r: bool)
    ensures
        r == (ext matches Some(e) && ascii_lower_seq(e@) == "ico"@),
{
    match ext {
        Some(e) => {
            let cs = chars_of(e);
            let lower = lower_chars(&cs);
            chars_match(&lower, "ico")
        },
        None => false,
    }
}

/// The text of an optional string.
pub open spec fn opt_text(o: Option<String>) -> Option<Seq<char>> {
    match o {
        Some(s) => Some(s@),
        None => None,
    }
}

/// The texts of an optional list of strings.
pub open spec fn opt_texts(o: Option<Vec<String>>) -> Option<Seq<Seq<char>>> {
    match o {
        Some(v) => Some(v@.map_values(|s: String| s@)),
        None => None,
    }
}

/// The build configuration of an `app.json` text: `(outDir, command, args,
/// icon)`. A text that is no JSON gives the defaults (`dist`, none, none,
/// none). Otherwise `bundle.outDir` (a string, else `dist`),
/// `bundle.build.command` (a string), `bundle.build.args` (the string items
/// of an array) and `icon` (a string).
pub open spec fn spec_build_config(text: Seq<char>) -> (
    Seq<char>,
    Option<Seq<char>>,
    Option<Seq<Seq<char>>>,
    Option<Seq<char>>,
) {
    match json_parse(text) {
        None => ("dist"@, None, None, None),
        Some(v) => (
            match str_at(v, seq!["bundle"@, "outDir"@]) {
                Some(d) => d,
                None => "dist"@,
            },
            str_at(v, seq!["bundle"@, "build"@, "command"@]),
            strings_at(v, seq!["bundle"@, "build"@, "args"@]),
            str_at(v, seq!["icon"@]),
        ),
    }
}

/// Read the build configuration from the text of `app.json` (see
/// [`spec_build_config`]).
pub fn build_config_from_json(text: &str) -> (r: BuildConfig)
    ensures
        (r.bundle_out_dir@, opt_text(r.bundle_build_command), opt_texts(r.bundle_build_args), opt_text(r.icon))
            == spec_build_config(text@),
{
    let json = match parse_json(text) {
        Some(v) => v,
        None => {
            return BuildConfig {
                bundle_out_dir: String::from_str("dist"),
                bundle_build_command: None,
                bundle_build_args: None,
                icon: None,
            };
        },
    };
    let out_dir_path: [&str; 2] = ["bundle", "outDir"];
    let command_path: [&str; 3] = ["bundle", "build", "command"];
    let args_path: [&str; 3] = ["bundle", "build", "args"];
    let icon_path: [&str; 1] = ["icon"];
    proof {
        assert(keys_view(out_dir_path@) =~= seq!["bundle"@, "outDir"@]);
        assert(keys_view(command_path@) =~= seq!["bundle"@, "build"@, "command"@]);
        assert(keys_view(args_path@) =~= seq!["bundle"@, "build"@, "args"@]);
        assert(keys_view(icon_path@) =~= seq!["icon"@]);
    }
    let bundle_out_dir = match string_at(&json, &out_dir_path) {
        Some(d) => d,
        None => String::from_str("dist"),
    };
    BuildConfig {
        bundle_out_dir,
        bundle_build_command: string_at(&json, &command_path),
        bundle_build_args: strings_at_path(&json, &args_path),
        icon: string_at(&json, &icon_path),
    }
}

} // verus!
