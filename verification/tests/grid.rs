use gluxe::grid::{parse_grid_line_token, parse_grid_shorthand, resolve_grid_axis, GridPlacement, GridShorthandValue};

// ---- parse_grid_line_token ----

#[test]
fn auto_token() {
    assert!(matches!(
        parse_grid_line_token("auto"),
        Some(GridPlacement::Auto)
    ));
}

#[test]
fn auto_token_case_insensitive() {
    assert!(matches!(
        parse_grid_line_token("AUTO"),
        Some(GridPlacement::Auto)
    ));
    assert!(matches!(
        parse_grid_line_token("Auto"),
        Some(GridPlacement::Auto)
    ));
}

#[test]
fn span_token() {
    assert!(matches!(
        parse_grid_line_token("span 2"),
        Some(GridPlacement::Span(2))
    ));
    assert!(matches!(
        parse_grid_line_token("SPAN 3"),
        Some(GridPlacement::Span(3))
    ));
}

#[test]
fn span_zero_is_invalid() {
    assert!(parse_grid_line_token("span 0").is_none());
}

#[test]
fn positive_line_number() {
    assert!(matches!(
        parse_grid_line_token("3"),
        Some(GridPlacement::Line(3))
    ));
    assert!(matches!(
        parse_grid_line_token("1"),
        Some(GridPlacement::Line(1))
    ));
}

#[test]
fn negative_line_number() {
    assert!(matches!(
        parse_grid_line_token("-1"),
        Some(GridPlacement::Line(-1))
    ));
}

#[test]
fn invalid_token_returns_none() {
    assert!(parse_grid_line_token("").is_none());
    assert!(parse_grid_line_token("abc").is_none());
    assert!(parse_grid_line_token("span").is_none());
}

// ---- parse_grid_shorthand ----

#[test]
fn slash_form_start_and_end() {
    let (start, end) = parse_grid_shorthand("1 / 3");
    assert!(matches!(start, Some(GridPlacement::Line(1))));
    assert!(matches!(end, Some(GridPlacement::Line(3))));
}

#[test]
fn slash_form_with_span() {
    let (start, end) = parse_grid_shorthand("1 / span 2");
    assert!(matches!(start, Some(GridPlacement::Line(1))));
    assert!(matches!(end, Some(GridPlacement::Span(2))));
}

#[test]
fn bare_span_mirrors_both_ends() {
    let (start, end) = parse_grid_shorthand("span 2");
    assert!(matches!(start, Some(GridPlacement::Span(2))));
    assert!(matches!(end, Some(GridPlacement::Span(2))));
}

#[test]
fn single_token_returns_start_only() {
    let (start, end) = parse_grid_shorthand("auto");
    assert!(matches!(start, Some(GridPlacement::Auto)));
    assert!(end.is_none());

    let (start, end) = parse_grid_shorthand("3");
    assert!(matches!(start, Some(GridPlacement::Line(3))));
    assert!(end.is_none());
}

#[test]
fn slash_with_invalid_side_returns_none_for_that_side() {
    let (start, end) = parse_grid_shorthand("1 / abc");
    assert!(matches!(start, Some(GridPlacement::Line(1))));
    assert!(end.is_none());
}

#[test]
fn tokens_trim_blanks_and_accept_signs() {
    assert_eq!(parse_grid_line_token("  auto\t"), Some(GridPlacement::Auto));
    assert_eq!(parse_grid_line_token("span   4 "), Some(GridPlacement::Span(4)));
    assert_eq!(parse_grid_line_token("span+4"), Some(GridPlacement::Span(4)));
    assert_eq!(parse_grid_line_token("+7"), Some(GridPlacement::Line(7)));
    assert_eq!(parse_grid_line_token("-32768"), Some(GridPlacement::Line(-32768)));
    assert_eq!(parse_grid_line_token("32767"), Some(GridPlacement::Line(32767)));
}

#[test]
fn out_of_range_numbers_are_rejected() {
    assert_eq!(parse_grid_line_token("32768"), None);
    assert_eq!(parse_grid_line_token("-32769"), None);
    assert_eq!(parse_grid_line_token("span 65536"), None);
    assert_eq!(parse_grid_line_token("span 65535"), Some(GridPlacement::Span(65535)));
    assert_eq!(parse_grid_line_token("span -1"), None);
    assert_eq!(parse_grid_line_token("1 2"), None);
    assert_eq!(parse_grid_line_token("-"), None);
    assert_eq!(parse_grid_line_token("+"), None);
}

#[test]
fn shorthand_splits_at_first_slash_only() {
    assert_eq!(parse_grid_shorthand(" 2/4 "), (Some(GridPlacement::Line(2)), Some(GridPlacement::Line(4))));
    assert_eq!(parse_grid_shorthand("1 / 2 / 3"), (Some(GridPlacement::Line(1)), None));
    assert_eq!(parse_grid_shorthand("/ span 3"), (None, Some(GridPlacement::Span(3))));
    assert_eq!(parse_grid_shorthand(""), (None, None));
}

#[test]
fn grid_axis_shorthand_text_gives_both_ends() {
    let sh = GridShorthandValue::Text("1 / 3".to_string());
    assert_eq!(
        resolve_grid_axis(Some(&sh), None, None, None),
        (Some(GridPlacement::Line(1)), Some(GridPlacement::Line(3)))
    );
}

#[test]
fn grid_axis_number_shorthand_sets_start_only() {
    let sh = GridShorthandValue::Number(2);
    assert_eq!(resolve_grid_axis(Some(&sh), None, None, None), (Some(GridPlacement::Line(2)), None));
}

#[test]
fn grid_axis_span_overrides_shorthand_and_is_at_least_one() {
    let sh = GridShorthandValue::Text("1 / 3".to_string());
    assert_eq!(
        resolve_grid_axis(Some(&sh), Some(0), None, None),
        (Some(GridPlacement::Span(1)), Some(GridPlacement::Span(1)))
    );
    assert_eq!(
        resolve_grid_axis(None, Some(4), None, None),
        (Some(GridPlacement::Span(4)), Some(GridPlacement::Span(4)))
    );
}

#[test]
fn grid_axis_explicit_lines_win_last() {
    assert_eq!(
        resolve_grid_axis(None, Some(2), Some(5), None),
        (Some(GridPlacement::Line(5)), Some(GridPlacement::Span(2)))
    );
    assert_eq!(
        resolve_grid_axis(None, None, None, Some(-1)),
        (None, Some(GridPlacement::Line(-1)))
    );
    assert_eq!(resolve_grid_axis(None, None, None, None), (None, None));
}
