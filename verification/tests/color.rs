use gluxe::color::{parse_color, parse_named_color, ColorFunction, ColorSpec, NamedColor};

fn named(s: &str) -> Option<NamedColor> {
    match parse_color(s) {
        Some(ColorSpec::Named(n)) => Some(n),
        _ => None,
    }
}

fn function(s: &str) -> Option<(ColorFunction, Vec<String>)> {
    match parse_color(s) {
        Some(ColorSpec::Function(f, args)) => Some((f, args)),
        _ => None,
    }
}

// ---- transparent ----

#[test]
fn transparent_is_fully_clear() {
    assert_eq!(named("transparent"), Some(NamedColor::Transparent));
}

// ---- hex forms ----

#[test]
fn hex_forms_are_kept_whole() {
    match parse_color("  #f00 ") {
        Some(ColorSpec::Hex(h)) => assert_eq!(h, "#f00"),
        other => panic!("expected hex, got {other:?}"),
    }
    match parse_color("#ff000080") {
        Some(ColorSpec::Hex(h)) => assert_eq!(h, "#ff000080"),
        other => panic!("expected hex, got {other:?}"),
    }
}

// ---- rgb / rgba ----

#[test]
fn rgb_arguments_are_split_at_commas() {
    let (f, args) = function("rgb(255, 0, 0)").unwrap();
    assert_eq!(f, ColorFunction::Rgb);
    assert_eq!(args, vec!["255", " 0", " 0"]);
}

#[test]
fn rgba_arguments_keep_their_text() {
    let (f, args) = function("RGBA( 0, 255, 0, 0.5 ))").unwrap();
    assert_eq!(f, ColorFunction::Rgba);
    assert_eq!(args, vec!["0", " 255", " 0", " 0.5"]);
}

#[test]
fn rgb_wrong_arg_count_returns_none() {
    assert!(parse_color("rgb(255, 0)").is_none());
}

#[test]
fn rgba_wrong_arg_count_returns_none() {
    assert!(parse_color("rgba(255, 0, 0)").is_none());
}

// ---- hsl / hsla ----

#[test]
fn hsl_and_hsla_take_three_and_four_arguments() {
    let (f, args) = function("hsl(0, 100%, 50%)").unwrap();
    assert_eq!(f, ColorFunction::Hsl);
    assert_eq!(args.len(), 3);
    let (f, args) = function("hsla(0, 100%, 50%, 0.25)").unwrap();
    assert_eq!(f, ColorFunction::Hsla);
    assert_eq!(args[3], " 0.25");
    assert!(parse_color("hsl(0, 100%, 50%, 1)").is_none());
}

// ---- named colors ----

#[test]
fn named_red() {
    assert_eq!(named("red"), Some(NamedColor::Rgb(0xff0000)));
}

#[test]
fn named_cyan_and_aqua_are_identical() {
    let cyan = named("cyan").unwrap();
    let aqua = named("aqua").unwrap();
    assert_eq!(cyan, aqua);
}

#[test]
fn named_color_case_insensitive() {
    assert!(parse_color("RED").is_some());
    assert!(parse_color("Tomato").is_some());
    assert!(parse_color("cornflowerblue").is_some());
}

#[test]
fn named_color_leading_trailing_whitespace() {
    assert!(parse_color("  red  ").is_some());
}

#[test]
fn named_table_spot_checks() {
    assert_eq!(parse_named_color("CornflowerBlue"), Some(NamedColor::Rgb(0x6495ed)));
    assert_eq!(parse_named_color("rebeccapurple"), Some(NamedColor::Rgb(0x663399)));
    assert_eq!(parse_named_color("grey"), parse_named_color("gray"));
    assert_eq!(parse_named_color(" red"), None);
}

// ---- error paths ----

#[test]
fn empty_string_returns_none() {
    assert!(parse_color("").is_none());
}

#[test]
fn unknown_name_returns_none() {
    assert!(parse_color("notacolor").is_none());
    assert!(parse_color("reddish").is_none());
}

#[test]
fn unknown_function_returns_none() {
    assert!(parse_color("lab(50%, 20, -30)").is_none());
}

// ---- channel numbers: the library's classification read as the renderer reads it ----

/// `(r, g, b, a)` of an `rgb`/`rgba` colour, channels 0-255 scaled to 0-1,
/// alpha clamped to 0-1.
fn rgba_channels(s: &str) -> Option<(f32, f32, f32, f32)> {
    let (f, args) = function(s)?;
    let channel = |t: &str| Some((t.trim().parse::<f32>().ok()? / 255.0).clamp(0.0, 1.0));
    let alpha = |t: &str| Some(t.trim().parse::<f32>().ok()?.clamp(0.0, 1.0));
    let r = channel(&args[0])?;
    let g = channel(&args[1])?;
    let b = channel(&args[2])?;
    let a = match f {
        ColorFunction::Rgba => alpha(&args[3])?,
        ColorFunction::Rgb => 1.0,
        _ => return None,
    };
    Some((r, g, b, a))
}

fn approx_eq(a: f32, b: f32) -> bool {
    (a - b).abs() < 0.005
}

#[test]
fn rgb_255_0_0_is_red() {
    let (r, g, b, a) = rgba_channels("rgb(255, 0, 0)").unwrap();
    assert!(approx_eq(r, 1.0));
    assert_eq!(g, 0.0);
    assert_eq!(b, 0.0);
    assert_eq!(a, 1.0);
}

#[test]
fn rgba_with_half_alpha() {
    let (r, g, b, a) = rgba_channels("rgba(0, 255, 0, 0.5)").unwrap();
    assert_eq!(r, 0.0);
    assert!(approx_eq(g, 1.0));
    assert_eq!(b, 0.0);
    assert!(approx_eq(a, 0.5));
}

#[test]
fn rgba_alpha_clamped_to_1() {
    let (_, _, _, a) = rgba_channels("rgba(0, 0, 255, 1.5)").unwrap();
    assert!(approx_eq(a, 1.0));
}

#[test]
fn hsla_sets_alpha() {
    let (f, args) = function("hsla(0, 100%, 50%, 0.25)").unwrap();
    assert_eq!(f, ColorFunction::Hsla);
    let a = args[3].trim().parse::<f32>().unwrap().clamp(0.0, 1.0);
    assert!(approx_eq(a, 0.25), "alpha was {a}");
}
