use gluxe::text_geometry::{extend_selection, splice_content};

#[test]
fn splice_inserts_at_empty_range() {
    assert_eq!(splice_content("ac", &(1..1), "b"), "abc");
}

#[test]
fn splice_deletes_with_empty_text() {
    assert_eq!(splice_content("abc", &(1..2), ""), "ac");
}

#[test]
fn splice_replaces_selection() {
    assert_eq!(
        splice_content("hello world", &(0..5), "goodbye"),
        "goodbye world"
    );
}

#[test]
fn splice_at_start_and_end() {
    assert_eq!(splice_content("xyz", &(0..0), ">"), ">xyz");
    assert_eq!(splice_content("xyz", &(3..3), "<"), "xyz<");
}

#[test]
fn splice_keeps_multibyte_tail_intact() {
    // "aé" = 'a' (1 byte) + 'é' (2 bytes). Replacing 'a' (0..1) must leave 'é' whole.
    assert_eq!(splice_content("aé", &(0..1), "Z"), "Zé");
}

#[test]
fn extend_forward_grows_end() {
    let (range, reversed) = extend_selection(2..2, false, 5);
    assert_eq!(range, 2..5);
    assert!(!reversed);
}

#[test]
fn extend_backward_past_caret_flips_reversed() {
    // Forward caret at 2; extend left to 0 → end < start → swap + flip.
    let (range, reversed) = extend_selection(2..2, false, 0);
    assert_eq!(range, 0..2);
    assert!(reversed);
}

#[test]
fn extend_reversed_moves_start_edge() {
    // Reversed selection 2..5 (anchor at end=5); extend left to 1 moves start.
    let (range, reversed) = extend_selection(2..5, true, 1);
    assert_eq!(range, 1..5);
    assert!(reversed);
}

#[test]
fn extend_reversed_crossing_anchor_flips_back() {
    // Reversed 2..5 (anchor at 5); extend right to 8 → start > end → swap + flip.
    let (range, reversed) = extend_selection(2..5, true, 8);
    assert_eq!(range, 5..8);
    assert!(!reversed);
}

#[test]
fn extend_to_anchor_collapses_without_flipping() {
    let (range, reversed) = extend_selection(3..3, false, 3);
    assert_eq!(range, 3..3);
    assert!(!reversed);
}
