use gluxe::length::{length_syntax, split_unit, LengthSyntax, LengthUnit};

#[derive(Debug, PartialEq)]
enum LengthValue {
    Auto,
    Px(f32),
    Rem(f32),
    Percent(f32),
}

/// The library's syntax with the number read as `f32`, as the renderer does.
fn parse_length_str(s: &str) -> Option<LengthValue> {
    match length_syntax(s) {
        LengthSyntax::Auto => Some(LengthValue::Auto),
        LengthSyntax::Number(unit, text) => {
            let n = text.parse::<f32>().ok()?;
            Some(match unit {
                Some(LengthUnit::Percent) => LengthValue::Percent(n),
                Some(LengthUnit::Rem) => LengthValue::Rem(n),
                Some(LengthUnit::Px) | None => LengthValue::Px(n),
            })
        }
    }
}

#[test]
fn auto_keyword() {
    assert_eq!(parse_length_str("auto"), Some(LengthValue::Auto));
}

#[test]
fn percent_value() {
    assert_eq!(parse_length_str("50%"), Some(LengthValue::Percent(50.0)));
    assert_eq!(parse_length_str("100%"), Some(LengthValue::Percent(100.0)));
    assert_eq!(parse_length_str("0%"), Some(LengthValue::Percent(0.0)));
}

#[test]
fn px_value() {
    assert_eq!(parse_length_str("10px"), Some(LengthValue::Px(10.0)));
    assert_eq!(parse_length_str("0px"), Some(LengthValue::Px(0.0)));
    assert_eq!(parse_length_str("1.5px"), Some(LengthValue::Px(1.5)));
}

#[test]
fn rem_value() {
    assert_eq!(parse_length_str("1rem"), Some(LengthValue::Rem(1.0)));
    assert_eq!(parse_length_str("1.5rem"), Some(LengthValue::Rem(1.5)));
}

#[test]
fn bare_number_becomes_px() {
    assert_eq!(parse_length_str("12"), Some(LengthValue::Px(12.0)));
    assert_eq!(parse_length_str("0"), Some(LengthValue::Px(0.0)));
}

#[test]
fn whitespace_is_trimmed() {
    assert_eq!(parse_length_str("  auto  "), Some(LengthValue::Auto));
    assert_eq!(parse_length_str(" 10px "), Some(LengthValue::Px(10.0)));
}

#[test]
fn invalid_string_returns_none() {
    assert!(parse_length_str("").is_none());
    assert!(parse_length_str("abc").is_none());
    assert!(parse_length_str("px").is_none());
}

#[test]
fn unit_split_trims_the_number_text() {
    assert_eq!(split_unit(" 12 px "), (Some(LengthUnit::Px), "12".to_string()));
    assert_eq!(split_unit("3 %"), (Some(LengthUnit::Percent), "3".to_string()));
    assert_eq!(split_unit("2rem"), (Some(LengthUnit::Rem), "2".to_string()));
    assert_eq!(split_unit(" 1.25 "), (None, "1.25".to_string()));
    assert_eq!(split_unit("%"), (Some(LengthUnit::Percent), String::new()));
}

#[test]
fn auto_is_only_the_whole_word() {
    assert_eq!(length_syntax("autox"), LengthSyntax::Number(None, "autox".to_string()));
    assert_eq!(length_syntax("auto px"), LengthSyntax::Number(Some(LengthUnit::Px), "auto".to_string()));
}
