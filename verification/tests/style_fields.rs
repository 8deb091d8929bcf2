use gluxe::style_fields::{
    mark_composite, resolve_overflow, CompositeSeen,
    parse_floating_area, parse_window_control_area, FloatingAlign, FloatingSide, OverflowMode,
    StyleFields, WindowControlArea,
};

#[test]
fn overflow_mode_known_values() {
    assert_eq!(OverflowMode::parse("visible"), Some(OverflowMode::Visible));
    assert_eq!(OverflowMode::parse("hidden"), Some(OverflowMode::Hidden));
    assert_eq!(OverflowMode::parse("scroll"), Some(OverflowMode::Scroll));
}

#[test]
fn overflow_mode_unknown_returns_none() {
    assert!(OverflowMode::parse("auto").is_none());
    assert!(OverflowMode::parse("clip").is_none());
    assert!(OverflowMode::parse("").is_none());
}

#[test]
fn window_control_area_known_values() {
    assert_eq!(
        parse_window_control_area("drag"),
        Some(WindowControlArea::Drag)
    );
    assert_eq!(
        parse_window_control_area("close"),
        Some(WindowControlArea::Close)
    );
    assert_eq!(
        parse_window_control_area("max"),
        Some(WindowControlArea::Max)
    );
    assert_eq!(
        parse_window_control_area("min"),
        Some(WindowControlArea::Min)
    );
}

#[test]
fn window_control_area_unknown_returns_none() {
    assert!(parse_window_control_area("").is_none());
    assert!(parse_window_control_area("Drag").is_none());
    assert!(parse_window_control_area("maximize").is_none());
    assert!(parse_window_control_area("bogus").is_none());
}

#[test]
fn scrolls_false_by_default() {
    let s = StyleFields::default();
    assert!(!s.scrolls());
}

#[test]
fn scrolls_true_when_overflow_x_scroll() {
    let s = StyleFields {
        overflow_x: Some(OverflowMode::Scroll),
        ..Default::default()
    };
    assert!(s.scrolls());
}

#[test]
fn scrolls_true_when_overflow_y_scroll() {
    let s = StyleFields {
        overflow_y: Some(OverflowMode::Scroll),
        ..Default::default()
    };
    assert!(s.scrolls());
}

#[test]
fn scrolls_false_when_hidden() {
    let s = StyleFields {
        overflow_x: Some(OverflowMode::Hidden),
        overflow_y: Some(OverflowMode::Hidden),
        ..Default::default()
    };
    assert!(!s.scrolls());
}

#[test]
fn floating_side_known_values() {
    assert_eq!(FloatingSide::parse("top"), Some(FloatingSide::Top));
    assert_eq!(FloatingSide::parse("bottom"), Some(FloatingSide::Bottom));
    assert_eq!(FloatingSide::parse("left"), Some(FloatingSide::Left));
    assert_eq!(FloatingSide::parse("right"), Some(FloatingSide::Right));
}

#[test]
fn floating_side_unknown_returns_none() {
    assert!(FloatingSide::parse("center").is_none());
    assert!(FloatingSide::parse("Top").is_none());
    assert!(FloatingSide::parse("").is_none());
}

#[test]
fn floating_align_known_values() {
    assert_eq!(FloatingAlign::parse("start"), Some(FloatingAlign::Start));
    assert_eq!(FloatingAlign::parse("center"), Some(FloatingAlign::Center));
    assert_eq!(FloatingAlign::parse("end"), Some(FloatingAlign::End));
}

#[test]
fn floating_align_unknown_returns_none() {
    assert!(FloatingAlign::parse("middle").is_none());
    assert!(FloatingAlign::parse("Start").is_none());
    assert!(FloatingAlign::parse("").is_none());
}

#[test]
fn floating_area_bottom_start() {
    assert_eq!(
        parse_floating_area("bottom start"),
        (FloatingSide::Bottom, FloatingAlign::Start)
    );
}

#[test]
fn floating_area_side_only_defaults_align_to_start() {
    assert_eq!(
        parse_floating_area("bottom"),
        (FloatingSide::Bottom, FloatingAlign::Start)
    );
}

#[test]
fn floating_area_top_end() {
    assert_eq!(
        parse_floating_area("top end"),
        (FloatingSide::Top, FloatingAlign::End)
    );
}

#[test]
fn floating_area_empty_defaults_to_bottom_start() {
    assert_eq!(
        parse_floating_area(""),
        (FloatingSide::Bottom, FloatingAlign::Start)
    );
}

#[test]
fn floating_area_garbage_defaults_to_bottom_start() {
    assert_eq!(
        parse_floating_area("garbage"),
        (FloatingSide::Bottom, FloatingAlign::Start)
    );
}

#[test]
fn floating_area_left_center() {
    assert_eq!(
        parse_floating_area("left center"),
        (FloatingSide::Left, FloatingAlign::Center)
    );
}

#[test]
fn floating_area_unknown_align_falls_back_to_start() {
    // An unrecognized align token → defaults to Start.
    assert_eq!(
        parse_floating_area("left middle"),
        (FloatingSide::Left, FloatingAlign::Start)
    );
}

#[test]
fn composite_keys_are_flagged_and_others_pass() {
    let mut seen = CompositeSeen::new();
    assert!(!seen.any_seen());
    assert!(!mark_composite(&mut seen, "width"));
    assert!(!mark_composite(&mut seen, "overflowx"));
    assert!(!seen.any_seen());
    assert!(mark_composite(&mut seen, "overflowY"));
    assert!(seen.overflow);
    assert!(mark_composite(&mut seen, "gridColumnSpan"));
    assert!(seen.grid_col && !seen.grid_row);
    assert!(mark_composite(&mut seen, "fontFeatures"));
    assert!(seen.font_features);
    assert!(seen.any_seen());
}

#[test]
fn overflow_axes_override_the_shorthand() {
    assert_eq!(
        resolve_overflow(Some("hidden"), Some("scroll"), None),
        (Some(OverflowMode::Scroll), Some(OverflowMode::Hidden))
    );
    assert_eq!(
        resolve_overflow(Some("scroll"), Some("bogus"), Some("visible")),
        (Some(OverflowMode::Scroll), Some(OverflowMode::Visible))
    );
    assert_eq!(resolve_overflow(None, None, None), (None, None));
}

#[test]
fn floating_area_reads_the_first_two_words() {
    assert_eq!(parse_floating_area("left middle"), (FloatingSide::Left, FloatingAlign::Start));
    assert_eq!(parse_floating_area(""), (FloatingSide::Bottom, FloatingAlign::Start));
    assert_eq!(parse_floating_area("garbage"), (FloatingSide::Bottom, FloatingAlign::Start));
    assert_eq!(parse_floating_area("  top\tend  extra"), (FloatingSide::Top, FloatingAlign::End));
}
