use gluxe::font_family::{
    clean_font_token, expand_chain, font_family_from_items, font_family_from_str, Platform,
};

fn expand_on(tokens: &[&str], platform: Platform) -> Vec<String> {
    let owned: Vec<String> = tokens.iter().map(|s| s.to_string()).collect();
    expand_chain(&owned, platform).iter().map(|s| s.to_string()).collect()
}

fn expand(tokens: &[&str]) -> Vec<String> {
    expand_on(tokens, Platform::Other)
}

#[test]
fn concrete_names_pass_through_with_casing_preserved() {
    assert_eq!(expand(&["Inter", "MyFont"]), vec!["Inter", "MyFont"]);
}

#[test]
fn system_ui_maps_to_gpui_sentinel_case_insensitively() {
    assert_eq!(expand(&["system-ui"]), vec![".SystemUIFont"]);
    assert_eq!(expand(&["SYSTEM-UI"]), vec![".SystemUIFont"]);
    assert_eq!(expand(&["System-Ui"]), vec![".SystemUIFont"]);
}

#[test]
fn dedup_preserves_first_occurrence_order() {
    // Concrete-only, so OS-independent.
    assert_eq!(
        expand(&["Inter", "Arial", "Inter", "Arial"]),
        vec!["Inter", "Arial"]
    );
    assert_eq!(expand(&["system-ui", "system-ui"]), vec![".SystemUIFont"]);
}

#[test]
fn empty_input_yields_empty() {
    assert!(expand(&[]).is_empty());
}

#[test]
fn macos_generics_expand_to_x_western_defaults() {
    assert_eq!(expand_on(&["sans-serif"], Platform::MacOs), vec!["Helvetica", "Arial"]);
    assert_eq!(expand_on(&["serif"], Platform::MacOs), vec!["Times", "Times New Roman"]);
    assert_eq!(expand_on(&["monospace"], Platform::MacOs), vec!["Menlo"]);
    // Generic after a concrete dup-of-its-expansion collapses (order kept).
    assert_eq!(expand_on(&["Arial", "sans-serif"], Platform::MacOs), vec!["Arial", "Helvetica"]);
}

#[test]
fn windows_generics_expand_to_x_western_defaults() {
    assert_eq!(expand_on(&["sans-serif"], Platform::Windows), vec!["Arial"]);
    assert_eq!(expand_on(&["serif"], Platform::Windows), vec!["Times New Roman"]);
    assert_eq!(expand_on(&["monospace"], Platform::Windows), vec!["Consolas"]);
    assert_eq!(expand_on(&["Arial", "sans-serif"], Platform::Windows), vec!["Arial"]);
}

#[test]
fn linux_generics_expand_to_concrete_stack() {
    // cosmic-text resolves by exact DB name, so generics must expand to real
    // families rather than passing the fontconfig aliases through.
    assert_eq!(
        expand(&["sans-serif"]),
        vec!["DejaVu Sans", "Liberation Sans", "Noto Sans"]
    );
    assert_eq!(
        expand(&["serif"]),
        vec!["DejaVu Serif", "Liberation Serif", "Noto Serif"]
    );
    assert_eq!(
        expand(&["monospace"]),
        vec!["DejaVu Sans Mono", "Liberation Mono", "Noto Sans Mono"]
    );
    // "Inter" then sans-serif → concrete stack appended (no overlap).
    assert_eq!(
        expand(&["Inter", "sans-serif"]),
        vec!["Inter", "DejaVu Sans", "Liberation Sans", "Noto Sans"]
    );
}

#[test]
fn clean_font_token_trims_and_unquotes_once() {
    assert_eq!(clean_font_token("  Inter "), "Inter");
    assert_eq!(clean_font_token(" \"Fira Code\" "), "Fira Code");
    assert_eq!(clean_font_token("'  Noto Sans '"), "Noto Sans");
    assert_eq!(clean_font_token("\"'x'\""), "'x'");
    assert_eq!(clean_font_token("\"mixed'"), "\"mixed'");
    assert_eq!(clean_font_token("\""), "\"");
    assert_eq!(clean_font_token("\"\""), "");
}

#[test]
fn font_family_string_splits_at_commas_and_drops_empties() {
    assert_eq!(
        font_family_from_str("Inter, 'Helvetica Neue',,  sans-serif "),
        Some(vec!["Inter".to_string(), "Helvetica Neue".to_string(), "sans-serif".to_string()])
    );
    assert_eq!(font_family_from_str(" , ,"), None);
    assert_eq!(font_family_from_str(""), None);
}

#[test]
fn font_family_array_keeps_commas_inside_items() {
    let items = vec!["\"A, B\"".to_string(), "  ".to_string(), "C".to_string()];
    assert_eq!(font_family_from_items(&items), Some(vec!["A, B".to_string(), "C".to_string()]));
    assert_eq!(font_family_from_items(&vec![]), None);
}
