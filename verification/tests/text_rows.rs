use gluxe::text_rows::{
    build_runs, line_base, locate, push_selection_rects, subrow_starts, visual_rows_before,
    LineRows, RowSpan, RunSpan,
};

fn two_lines() -> Vec<LineRows> {
    // "ab\ncdef", the second line soft-wrapped after "cd".
    vec![
        LineRows { len: 2, starts: vec![0] },
        LineRows { len: 4, starts: vec![0, 2] },
    ]
}

#[test]
fn locate_finds_line_and_offset_within() {
    let lines = two_lines();
    assert_eq!(locate(&lines, 0), (0, 0));
    assert_eq!(locate(&lines, 1), (0, 1));
    assert_eq!(locate(&lines, 2), (0, 2));
    assert_eq!(locate(&lines, 3), (1, 0));
    assert_eq!(locate(&lines, 7), (1, 4));
}

#[test]
fn locate_past_the_end_clamps_to_last_line() {
    let lines = two_lines();
    assert_eq!(locate(&lines, 100), (1, 4));
    assert_eq!(locate(&[], 5), (0, 0));
}

#[test]
fn line_base_counts_newlines() {
    let lines = two_lines();
    assert_eq!(line_base(&lines, 0), 0);
    assert_eq!(line_base(&lines, 1), 3);
    assert_eq!(line_base(&lines, 2), 8);
}

#[test]
fn visual_rows_before_counts_wrapped_rows() {
    let lines = two_lines();
    assert_eq!(visual_rows_before(&lines, 0), 0);
    assert_eq!(visual_rows_before(&lines, 1), 1);
    assert_eq!(visual_rows_before(&lines, 2), 3);
}

#[test]
fn subrow_starts_falls_back_to_line_len() {
    assert_eq!(subrow_starts(7, &[Some(3), None]), vec![0, 3, 7]);
    assert_eq!(subrow_starts(4, &[]), vec![0]);
}

#[test]
fn selection_spans_each_touched_row() {
    let lines = two_lines();
    let mut out = Vec::new();
    push_selection_rects(&lines, &(1..6), &mut out);
    assert_eq!(
        out,
        vec![
            RowSpan { line: 0, row: 0, visual_row: 0, row_start: 0, from: 1, to: 2 },
            RowSpan { line: 1, row: 0, visual_row: 1, row_start: 0, from: 0, to: 2 },
            RowSpan { line: 1, row: 1, visual_row: 2, row_start: 2, from: 2, to: 3 },
        ]
    );
}

#[test]
fn empty_selection_adds_nothing() {
    let lines = two_lines();
    let mut out = vec![RowSpan { line: 9, row: 9, visual_row: 9, row_start: 9, from: 9, to: 9 }];
    push_selection_rects(&lines, &(4..4), &mut out);
    assert_eq!(out.len(), 1);
    push_selection_rects(&[], &(0..3), &mut out);
    assert_eq!(out.len(), 1);
}

#[test]
fn runs_underline_the_composition() {
    assert_eq!(
        build_runs(5, Some(&(1..3))),
        vec![
            RunSpan { len: 1, underlined: false },
            RunSpan { len: 2, underlined: true },
            RunSpan { len: 2, underlined: false },
        ]
    );
    assert_eq!(build_runs(5, Some(&(0..5))), vec![RunSpan { len: 5, underlined: true }]);
}

#[test]
fn runs_without_composition_are_one_plain_run() {
    assert_eq!(build_runs(5, None), vec![RunSpan { len: 5, underlined: false }]);
    assert_eq!(build_runs(0, None), vec![RunSpan { len: 0, underlined: false }]);
}

#[test]
fn stale_composition_is_clamped() {
    assert_eq!(
        build_runs(3, Some(&(2..9))),
        vec![RunSpan { len: 2, underlined: false }, RunSpan { len: 1, underlined: true }]
    );
}

#[test]
fn located_offsets_are_found_again_from_their_line() {
    let lines = two_lines();
    for offset in 0..=7 {
        let (line, within) = locate(&lines, offset);
        assert_eq!(line_base(&lines, line) + within, offset);
    }
}
