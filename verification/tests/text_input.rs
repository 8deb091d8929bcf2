use gluxe::text_input::{newlines_to_spaces, EditEffect, TextInputState};

fn input(text: &str) -> TextInputState<f32> {
    TextInputState::new(Some(text.to_string()))
}

fn changed(effect: EditEffect) -> String {
    match effect {
        EditEffect::Changed(v) => v,
        _ => panic!("expected a change"),
    }
}

#[test]
fn new_input_puts_caret_at_end() {
    let t = input("héllo");
    assert_eq!(t.selected_range, 6..6);
    assert_eq!(t.last_sent, "héllo");
    assert!(t.autoscroll);
    let empty: TextInputState<f32> = TextInputState::new(None);
    assert_eq!(empty.content, "");
    assert_eq!(empty.selected_range, 0..0);
}

#[test]
fn backspace_at_start_rings_and_changes_nothing() {
    let mut t = input("ab");
    t.move_to(0);
    assert!(matches!(t.backspace(), EditEffect::Bell));
    assert_eq!(t.content, "ab");
    assert_eq!(t.selected_range, 0..0);
}

#[test]
fn backspace_removes_whole_grapheme_cluster() {
    // 'e' + combining acute accent is one cluster of two chars (3 bytes).
    let mut t = input("ae\u{301}");
    assert_eq!(changed(t.backspace()), "a");
    assert_eq!(t.content, "a");
    assert_eq!(t.selected_range, 1..1);
    assert_eq!(t.last_sent, "a");
}

#[test]
fn delete_at_end_rings_and_mid_deletes_next_cluster() {
    let mut t = input("x😀y");
    assert!(matches!(t.delete(), EditEffect::Bell));
    t.move_to(1);
    assert_eq!(changed(t.delete()), "xy");
    assert_eq!(t.selected_range, 1..1);
}

#[test]
fn left_and_right_step_over_clusters_and_collapse_selections() {
    let mut t = input("a😀b");
    t.left();
    assert_eq!(t.selected_range, 5..5);
    t.left();
    assert_eq!(t.selected_range, 1..1);
    t.right();
    assert_eq!(t.selected_range, 5..5);
    t.select_left();
    assert_eq!(t.selected_range, 1..5);
    assert!(t.selection_reversed);
    t.right();
    assert_eq!(t.selected_range, 5..5);
    t.select_right();
    assert_eq!(t.selected_range, 5..6);
    t.left();
    assert_eq!(t.selected_range, 5..5);
}

#[test]
fn select_all_then_copy_gives_whole_content() {
    let mut t = input("grüße");
    t.move_to(2);
    t.select_all();
    assert_eq!(t.selected_range, 0..t.content.len());
    assert!(!t.selection_reversed);
    assert_eq!(t.copy(), Some("grüße".to_string()));
}

#[test]
fn copy_of_empty_selection_is_none() {
    let t = input("abc");
    assert_eq!(t.copy(), None);
}

#[test]
fn cut_returns_selection_and_removes_it() {
    let mut t = input("hello world");
    t.move_to(0);
    t.select_to(5);
    let (clip, value) = t.cut().expect("non-empty selection");
    assert_eq!(clip, "hello");
    assert_eq!(value, " world");
    assert_eq!(t.selected_range, 0..0);
    let mut none = input("abc");
    assert!(none.cut().is_none());
    assert_eq!(none.content, "abc");
}

#[test]
fn paste_flattens_newlines_in_single_line_input() {
    let mut t = input("ab");
    t.move_to(1);
    assert_eq!(t.paste("x\ny"), "ax yb");
    assert_eq!(t.selected_range, 4..4);
    let mut m = input("ab");
    m.sync_from_props(true, None);
    assert_eq!(m.paste("1\n2"), "ab1\n2");
}

#[test]
fn newlines_to_spaces_keeps_other_characters() {
    assert_eq!(newlines_to_spaces("a\nb\n\nc"), "a b  c");
    assert_eq!(newlines_to_spaces("é\r\n"), "é\r ");
}

#[test]
fn enter_submits_single_line_and_breaks_line_in_multiline() {
    let mut t = input("go");
    match t.enter() {
        EditEffect::Submit(v) => assert_eq!(v, "go"),
        _ => panic!("expected submit"),
    }
    assert_eq!(t.content, "go");
    t.sync_from_props(true, None);
    assert_eq!(changed(t.enter()), "go\n");
    assert_eq!(t.selected_range, 3..3);
}

#[test]
fn replace_text_in_utf16_range_covers_surrogate_pairs() {
    // "a😀b": the emoji is two UTF-16 units (1..3) and four bytes (1..5).
    let mut t = input("a😀b");
    let value = t.replace_text_in_range(Some(1..3), "Z");
    assert_eq!(value, "aZb");
    assert_eq!(t.selected_range, 2..2);
    assert!(t.marked_range.is_none());
}

#[test]
fn replace_without_range_uses_selection() {
    let mut t = input("abcdef");
    t.move_to(1);
    t.select_to(4);
    assert_eq!(t.replace_text_in_range(None, "XY"), "aXYef");
    assert_eq!(t.selected_range, 3..3);
}

#[test]
fn composition_marks_text_and_commit_replaces_it() {
    let mut t = input("ab");
    t.move_to(1);
    assert_eq!(t.replace_and_mark_text_in_range(None, "ka", None), "akab");
    assert_eq!(t.marked_range, Some(1..3));
    assert_eq!(t.selected_range, 3..3);
    assert_eq!(t.marked_text_range(), Some(1..3));
    // The next edit without a range replaces the composition and ends it.
    assert_eq!(t.replace_text_in_range(None, "か"), "aかb");
    assert!(t.marked_range.is_none());
    assert_eq!(t.selected_range, 4..4);
}

#[test]
fn composition_with_explicit_selection_and_empty_text() {
    let mut t = input("xy");
    t.move_to(0);
    t.replace_and_mark_text_in_range(None, "abc", Some(1..1));
    assert_eq!(t.content, "abcxy");
    assert_eq!(t.selected_range, 1..1);
    t.replace_and_mark_text_in_range(None, "", None);
    assert_eq!(t.content, "xy");
    assert!(t.marked_range.is_none());
    t.unmark_text();
    assert!(t.marked_range.is_none());
}

#[test]
fn selected_text_range_is_in_utf16_units() {
    let mut t = input("😀é");
    t.move_to(0);
    t.select_to(6);
    let (range, reversed) = t.selected_text_range();
    assert_eq!(range, 0..3);
    assert!(!reversed);
}

#[test]
fn text_for_range_rounds_to_characters() {
    let t = input("a😀b");
    let (text, actual) = t.text_for_range(1..2);
    assert_eq!(text, "😀");
    assert_eq!(actual, 1..3);
}

#[test]
fn controlled_value_echo_is_ignored_and_external_value_adopted() {
    let mut t = input("ab");
    t.move_to(1);
    // Our own echo: nothing moves.
    t.sync_from_props(false, Some("ab".to_string()));
    assert_eq!(t.selected_range, 1..1);
    // An external change is adopted with the caret at its end.
    t.sync_from_props(false, Some("hello".to_string()));
    assert_eq!(t.content, "hello");
    assert_eq!(t.selected_range, 5..5);
    assert_eq!(t.last_sent, "hello");
}

#[test]
fn controlled_value_waits_for_composition_to_end() {
    let mut t = input("ab");
    t.replace_and_mark_text_in_range(None, "n", None);
    t.sync_from_props(false, Some("zzz".to_string()));
    assert_eq!(t.content, "abn");
}

#[test]
fn single_line_vertical_moves_jump_to_ends() {
    let mut t = input("abc");
    t.vertical_move(false, false, None);
    assert_eq!(t.selected_range, 0..0);
    t.vertical_move(true, true, None);
    assert_eq!(t.selected_range, 0..3);
}

#[test]
fn multiline_vertical_move_keeps_goal_column() {
    let mut t = input("ab\ncd");
    t.sync_from_props(true, None);
    t.vertical_move(false, false, Some((1, 12.5)));
    assert_eq!(t.selected_range, 1..1);
    assert_eq!(t.goal_x, Some(12.5));
    // Without a layout nothing happens.
    t.vertical_move(true, false, None);
    assert_eq!(t.selected_range, 1..1);
    t.left();
    assert_eq!(t.goal_x, None);
}

#[test]
fn home_and_end_use_rows_only_when_multiline() {
    let mut t = input("ab\ncd");
    t.home(Some(3));
    assert_eq!(t.selected_range, 0..0);
    t.end(Some(2));
    assert_eq!(t.selected_range, 5..5);
    t.sync_from_props(true, None);
    t.home(Some(3));
    assert_eq!(t.selected_range, 3..3);
    t.end(Some(2));
    assert_eq!(t.selected_range, 2..2);
}

#[test]
fn mouse_drag_selects() {
    let mut t = input("hello");
    t.on_mouse_down(1, false);
    assert!(t.is_selecting);
    t.on_mouse_move(4);
    assert_eq!(t.selected_range, 1..4);
    t.on_mouse_up();
    t.on_mouse_move(0);
    assert_eq!(t.selected_range, 1..4);
    t.on_mouse_down(0, true);
    assert_eq!(t.selected_range, 0..1);
    assert!(t.selection_reversed);
}

#[test]
fn move_to_clamps_past_the_end() {
    let mut t = input("ab");
    t.move_to(99);
    assert_eq!(t.selected_range, 2..2);
    assert_eq!(t.cursor_offset(), 2);
}

#[test]
fn focus_changes_are_reported_once() {
    let mut t = input("x");
    assert_eq!(t.observe_focus(true), Some(true));
    assert_eq!(t.observe_focus(true), None);
    assert_eq!(t.observe_focus(false), Some(false));
}
