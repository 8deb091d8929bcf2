//! Row bookkeeping for multi-line text layout: where each logical line starts
//! in the content, how many visual rows come before it, which line an offset
//! falls in, the byte spans a selection covers on each visual row, and the run
//! split that underlines an IME composition.
//!
//! The content is split on `\n` into logical lines; each may soft-wrap into
//! several visual rows. A line is described by its byte length (without the
//! `\n`) and the byte index at which each of its visual rows starts.

use vstd::prelude::*;

use std::ops::Range;

verus! {

/// One logical line as laid out.
pub struct LineRows {
    /// Byte length of the line, without its `\n`.
    pub len: usize,
    /// Byte index (within the line) at which each visual row starts.
    pub starts: Vec<usize>,
}

/// Global byte offset of line `i`'s first byte: every earlier line plus the
/// `\n` that ends it.
pub open spec fn line_start(lines: Seq<LineRows>, i: int) -> int
    decreases i,
{
    if i <= 0 {
        0
    } else {
        line_start(lines, i - 1) + lines[i - 1].len + 1
    }
}

/// Number of visual rows in the lines before line `i`.
pub open spec fn rows_before(lines: Seq<LineRows>, i: int) -> int
    decreases i,
{
    if i <= 0 {
        0
    } else {
        rows_before(lines, i - 1) + lines[i - 1].starts@.len()
    }
}

/// The line holding `offset` and the offset within that line, searching from
/// line `i` on: the first line whose end is at or past `offset`. Past every
/// line it is the end of the last line, and `(0, 0)` when there is none.
pub open spec fn locate_from(lines: Seq<LineRows>, offset: int, i: int) -> (int, int)
    decreases lines.len() - i,
{
    if i >= lines.len() {
        if lines.len() == 0 {
            (0, 0)
        } else {
            (lines.len() - 1, lines.last().len as int)
        }
    } else if offset <= line_start(lines, i) + lines[i].len {
        (i, offset - line_start(lines, i))
    } else {
        locate_from(lines, offset, i + 1)
    }
}

pub open spec fn locate_spec(lines: Seq<LineRows>, offset: int) -> (int, int) {
    locate_from(lines, offset, 0)
}

/// Line starts grow with the line index.
pub proof fn lemma_line_start_monotone(lines: Seq<LineRows>, i: int, j: int)
    requires
        i <= j,
    ensures
        line_start(lines, i) <= line_start(lines, j),
    decreases j - i,
{
    if i < j {
        lemma_line_start_monotone(lines, i, j - 1);
    }
}

/// Row counts grow with the line index.
pub proof fn lemma_rows_before_monotone(lines: Seq<LineRows>, i: int, j: int)
    requires
        i <= j,
    ensures
        rows_before(lines, i) <= rows_before(lines, j),
    decreases j - i,
{
    if i < j {
        lemma_rows_before_monotone(lines, i, j - 1);
    }
}

/// Where there are lines, the located line is one of them and starts at or
/// before the offset.
proof fn lemma_locate_from_bounds(lines: Seq<LineRows>, offset: int, i: int)
    requires
        lines.len() > 0,
        0 <= i,
        line_start(lines, i) <= offset,
    ensures
        0 <= locate_from(lines, offset, i).0 < lines.len(),
        line_start(lines, locate_from(lines, offset, i).0) <= offset,
    decreases lines.len() - i,
{
    if i >= lines.len() {
        lemma_line_start_monotone(lines, lines.len() - 1, i);
    } else if offset <= line_start(lines, i) + lines[i].len {
    } else {
        lemma_locate_from_bounds(lines, offset, i + 1);
    }
}

/// Where there are lines, an offset is located on a line that starts at or
/// before it.
pub proof fn lemma_locate_bounds(lines: Seq<LineRows>, offset: int)
    requires
        lines.len() > 0,
        0 <= offset,
    ensures
        0 <= locate_spec(lines, offset).0 < lines.len(),
        line_start(lines, locate_spec(lines, offset).0) <= offset,
{
    lemma_locate_from_bounds(lines, offset, 0);
}

proof fn lemma_locate_from_round_trip(lines: Seq<LineRows>, offset: int, i: int)
    requires
        0 <= i < lines.len(),
        line_start(lines, i) <= offset <= line_start(lines, lines.len() - 1) + lines.last().len,
    ensures
        line_start(lines, locate_from(lines, offset, i).0) + locate_from(lines, offset, i).1
            == offset,
        0 <= locate_from(lines, offset, i).1 <= lines[locate_from(lines, offset, i).0].len,
    decreases lines.len() - i,
{
    if offset > line_start(lines, i) + lines[i].len {
        lemma_locate_from_round_trip(lines, offset, i + 1);
    }
}

/// An offset inside the content is found again from its line's start and the
/// offset within that line, and the latter lies within the line.
pub proof fn lemma_locate_round_trip(lines: Seq<LineRows>, offset: int)
    requires
        lines.len() > 0,
        0 <= offset <= line_start(lines, lines.len() - 1) + lines.last().len,
    ensures
        line_start(lines, locate_spec(lines, offset).0) + locate_spec(lines, offset).1 == offset,
        0 <= locate_spec(lines, offset).1 <= lines[locate_spec(lines, offset).0].len,
{
    lemma_locate_from_round_trip(lines, offset, 0);
}

/// (logical-line index, byte offset within that line) for a global byte offset.
pub fn locate(lines: &[LineRows], offset: usize) -> (r: (usize, usize))
    requires
        line_start(lines@, lines@.len() as int) <= usize::MAX,
    ensures
        (r.0 as int, r.1 as int) == locate_spec(lines@, offset as int),
{
    let mut base: usize = 0;
    let mut i: usize = 0;
    while i < lines.len()
        invariant
            i <= lines.len(),
            base == line_start(lines@, i as int),
            base <= offset,
            line_start(lines@, lines@.len() as int) <= usize::MAX,
            locate_from(lines@, offset as int, 0) == locate_from(lines@, offset as int, i as int),
        decreases lines.len() - i,
    {
        proof {
            lemma_line_start_monotone(lines@, i as int + 1, lines@.len() as int);
        }
        let end = base + lines[i].len;
        if offset <= end {
            return (i, offset - base);
        }
        base = end + 1;
        i = i + 1;
    }
    if lines.len() == 0 {
        (0, 0)
    } else {
        (lines.len() - 1, lines[lines.len() - 1].len)
    }
}

/// Global byte offset of logical line `i`'s first character.
pub fn line_base(lines: &[LineRows], i: usize) -> (r: usize)
    requires
        i <= lines.len(),
        line_start(lines@, i as int) <= usize::MAX,
    ensures
        r == line_start(lines@, i as int),
{
    let mut sum: usize = 0;
    let mut j: usize = 0;
    while j < i
        invariant
            j <= i <= lines.len(),
            sum == line_start(lines@, j as int),
            line_start(lines@, i as int) <= usize::MAX,
        decreases i - j,
    {
        proof {
            lemma_line_start_monotone(lines@, j as int + 1, i as int);
        }
        sum = sum + lines[j].len + 1;
        j = j + 1;
    }
    sum
}

/// Number of visual rows in logical lines `[0, i)`.
pub fn visual_rows_before(lines: &[LineRows], i: usize) -> (r: usize)
    requires
        i <= lines.len(),
        rows_before(lines@, i as int) <= usize::MAX,
    ensures
        r == rows_before(lines@, i as int),
{
    let mut sum: usize = 0;
    let mut j: usize = 0;
    while j < i
        invariant
            j <= i <= lines.len(),
            sum == rows_before(lines@, j as int),
            rows_before(lines@, i as int) <= usize::MAX,
        decreases i - j,
    {
        proof {
            lemma_rows_before_monotone(lines@, j as int + 1, i as int);
        }
        sum = sum + lines[j].starts.len();
        j = j + 1;
    }
    sum
}

/// Byte index at the start of each visual row of a line: 0, then one entry
/// per soft-wrap boundary, the index of the glyph the boundary points at, or
/// the line's length where the layout has no such glyph.
pub fn subrow_starts(len: usize, boundary_glyphs: &[Option<usize>]) -> (r: Vec<usize>)
    ensures
        r@.len() == boundary_glyphs@.len() + 1,
        r@[0] == 0,
        forall|k: int|
            0 <= k < boundary_glyphs@.len() ==> r@[k + 1] == match #[trigger] boundary_glyphs@[k] {
                Some(g) => g,
                None => len,
            },
{
    let mut starts: Vec<usize> = Vec::new();
    starts.push(0);
    let mut k: usize = 0;
    while k < boundary_glyphs.len()
        invariant
            k <= boundary_glyphs@.len(),
            starts@.len() == k + 1,
            starts@[0] == 0,
            forall|j: int|
                0 <= j < k ==> starts@[j + 1] == match #[trigger] boundary_glyphs@[j] {
                    Some(g) => g,
                    None => len,
                },
        decreases boundary_glyphs@.len() - k,
    {
        let idx = match boundary_glyphs[k] {
            Some(g) => g,
            None => len,
        };
        starts.push(idx);
        k = k + 1;
    }
    starts
}

/// The highlighted part of one visual row of a selection.
#[derive(Clone, Copy, Debug, PartialEq, Eq)]
pub struct RowSpan {
    /// Logical line index.
    pub line: usize,
    /// Row index within the line.
    pub row: usize,
    /// Row index counted from the top of the content.
    pub visual_row: usize,
    /// Byte index (within the line) where the row starts.
    pub row_start: usize,
    /// First selected byte (within the line).
    pub from: usize,
    /// Where the highlight ends (within the line): the selection's end, or the
    /// row's end where the selection runs past the row.
    pub to: usize,
}

/// The selection's start, relative to a line starting at `base`, clamped to
/// the line.
pub open spec fn clamp_start(start: int, base: int, len: int) -> int {
    let d = if start >= base { start - base } else { 0 };
    if d <= len { d } else { len }
}

/// The selection's end, relative to a line starting at `base`: the line's end
/// when the selection reaches it.
pub open spec fn clamp_end(end: int, base: int, len: int) -> int {
    if end >= base + len { len } else { end - base }
}

/// Byte index where row `k` of a line ends: the next row's start, or the
/// line's length for the last row.
pub open spec fn row_end(line: LineRows, k: int) -> int {
    if k + 1 < line.starts@.len() { line.starts@[k + 1] as int } else { line.len as int }
}

/// The highlight on row `k` of line `li` for the line-relative selection
/// `[a, b)`, if the row holds any of it.
pub open spec fn row_span(li: int, visual: int, line: LineRows, a: int, b: int, k: int) -> Option<
    RowSpan,
> {
    let s = line.starts@[k] as int;
    let e = row_end(line, k);
    let os = if a >= s { a } else { s };
    let oe = if b <= e { b } else { e };
    if os >= oe {
        None
    } else {
        Some(
            RowSpan {
                line: li as usize,
                row: k as usize,
                visual_row: (visual + k) as usize,
                row_start: s as usize,
                from: os as usize,
                to: (if b > e { e } else { oe }) as usize,
            },
        )
    }
}

/// The highlights on rows `[0, k)` of a line, in row order.
pub open spec fn row_spans_upto(li: int, visual: int, line: LineRows, a: int, b: int, k: int) -> Seq<
    RowSpan,
>
    decreases k,
{
    if k <= 0 {
        seq![]
    } else {
        let prev = row_spans_upto(li, visual, line, a, b, k - 1);
        match row_span(li, visual, line, a, b, k - 1) {
            Some(sp) => prev.push(sp),
            None => prev,
        }
    }
}

/// The highlights of the global selection `[start, end)` on line `li`.
pub open spec fn line_spans(lines: Seq<LineRows>, start: int, end: int, li: int) -> Seq<RowSpan> {
    let base = line_start(lines, li);
    let len = lines[li].len as int;
    row_spans_upto(
        li,
        rows_before(lines, li),
        lines[li],
        clamp_start(start, base, len),
        clamp_end(end, base, len),
        lines[li].starts@.len() as int,
    )
}

/// The highlights on lines `[first, li)`, in line order.
pub open spec fn spans_between(lines: Seq<LineRows>, start: int, end: int, first: int, li: int) -> Seq<
    RowSpan,
>
    decreases li - first,
{
    if li <= first {
        seq![]
    } else {
        spans_between(lines, start, end, first, li - 1) + line_spans(lines, start, end, li - 1)
    }
}

/// The highlights of the selection `[start, end)`: none for an empty selection
/// or empty content; otherwise those of every line from the one holding
/// `start` to the one holding `end`.
pub open spec fn selection_spans_spec(lines: Seq<LineRows>, start: int, end: int) -> Seq<RowSpan> {
    if start >= end || lines.len() == 0 {
        seq![]
    } else {
        let first = locate_spec(lines, start).0;
        let last_located = locate_spec(lines, end).0;
        let last = if last_located <= lines.len() - 1 { last_located } else { lines.len() - 1 };
        spans_between(lines, start, end, first, last + 1)
    }
}

/// One highlight per visual row that the selection `range` (global byte
/// offsets) touches.
pub fn push_selection_rects(lines: &[LineRows], range: &Range<usize>, out: &mut Vec<RowSpan>)
    requires
        line_start(lines@, lines@.len() as int) <= usize::MAX,
        rows_before(lines@, lines@.len() as int) <= usize::MAX,
    ensures
        final(out)@ == old(out)@ + selection_spans_spec(
            lines@,
            range.start as int,
            range.end as int,
        ),
{
    let start = range.start;
    let end = range.end;
    if start >= end || lines.len() == 0 {
        assert(old(out)@ + selection_spans_spec(lines@, start as int, end as int) =~= old(out)@);
        return ;
    }
    let ghost prefix = out@;
    let (start_li, _) = locate(lines, start);
    let (end_li, _) = locate(lines, end);
    proof {
        lemma_locate_bounds(lines@, start as int);
        lemma_locate_bounds(lines@, end as int);
    }
    let last = if end_li <= lines.len() - 1 {
        end_li
    } else {
        lines.len() - 1
    };
    let mut li = start_li;
    while li <= last
        invariant
            0 < lines@.len(),
            start < end,
            start_li <= li,
            li <= last + 1 || li == start_li,
            last <= end_li < lines@.len(),
            line_start(lines@, end_li as int) <= end,
            line_start(lines@, lines@.len() as int) <= usize::MAX,
            rows_before(lines@, lines@.len() as int) <= usize::MAX,
            out@ == prefix + spans_between(lines@, start as int, end as int, start_li as int, li as int),
        decreases last + 1 - li,
    {
        proof {
            lemma_line_start_monotone(lines@, li as int, end_li as int);
            lemma_line_start_monotone(lines@, li as int + 1, lines@.len() as int);
            lemma_rows_before_monotone(lines@, li as int + 1, lines@.len() as int);
        }
        let line = &lines[li];
        let base = line_base(lines, li);
        let lead = if start >= base {
            start - base
        } else {
            0
        };
        let a = if lead <= line.len {
            lead
        } else {
            line.len
        };
        let b = if end >= base + line.len {
            line.len
        } else {
            end - base
        };
        let visual = visual_rows_before(lines, li);
        let ghost spans_before = out@;
        let mut k: usize = 0;
        while k < line.starts.len()
            invariant
                k <= line.starts@.len(),
                li < lines@.len(),
                line == lines@[li as int],
                visual == rows_before(lines@, li as int),
                visual + line.starts@.len() == rows_before(lines@, li as int + 1),
                rows_before(lines@, li as int + 1) <= usize::MAX,
                a == clamp_start(start as int, base as int, line.len as int),
                b == clamp_end(end as int, base as int, line.len as int),
                b <= line.len,
                out@ == spans_before + row_spans_upto(
                    li as int,
                    visual as int,
                    *line,
                    a as int,
                    b as int,
                    k as int,
                ),
            decreases line.starts@.len() - k,
        {
            let s = line.starts[k];
            let e = if k + 1 < line.starts.len() {
                line.starts[k + 1]
            } else {
                line.len
            };
            let os = if a >= s {
                a
            } else {
                s
            };
            let oe = if b <= e {
                b
            } else {
                e
            };
            if os < oe {
                let to = if b > e {
                    e
                } else {
                    oe
                };
                out.push(
                    RowSpan { line: li, row: k, visual_row: visual + k, row_start: s, from: os, to },
                );
            }
            k = k + 1;
            proof {
                assert(out@ =~= spans_before + row_spans_upto(
                    li as int,
                    visual as int,
                    *line,
                    a as int,
                    b as int,
                    k as int,
                ));
            }
        }
        proof {
            assert(out@ =~= prefix + spans_between(
                lines@,
                start as int,
                end as int,
                start_li as int,
                li as int + 1,
            ));
        }
        li = li + 1;
    }
}

/// One run of the displayed text: its byte length and whether it is
/// underlined as part of an IME composition.
#[derive(Clone, Copy, Debug, PartialEq, Eq)]
pub struct RunSpan {
    pub len: usize,
    pub underlined: bool,
}

/// A run of length `len`, or nothing where `len` is zero.
pub open spec fn run_if_any(len: int, underlined: bool) -> Seq<RunSpan> {
    if len > 0 {
        seq![RunSpan { len: len as usize, underlined }]
    } else {
        seq![]
    }
}

/// The marked range's bound clamped to the text.
pub open spec fn clamp_to(x: int, total: int) -> int {
    if x <= total { x } else { total }
}

/// The runs of a text of `total` bytes: one plain run without a composition;
/// with one, the text before it, the underlined composition and the text
/// after it, leaving out empty runs.
pub open spec fn runs_spec(total: int, marked: Option<Range<usize>>) -> Seq<RunSpan> {
    match marked {
        None => seq![RunSpan { len: total as usize, underlined: false }],
        Some(m) => {
            let s = clamp_to(m.start as int, total);
            let e = clamp_to(m.end as int, total);
            run_if_any(s, false) + run_if_any(e - s, true) + run_if_any(total - e, false)
        },
    }
}

/// Split the text into runs, underlining the active IME composition range.
/// Bounds are clamped to `total` so a stale composition can never underflow.
pub fn build_runs(total: usize, marked: Option<&Range<usize>>) -> (r: Vec<RunSpan>)
    requires
        marked matches Some(m) ==> clamp_to(m.start as int, total as int) <= clamp_to(
            m.end as int,
            total as int,
        ),
    ensures
        r@ == runs_spec(
            total as int,
            match marked {
                Some(m) => Some(*m),
                None => None,
            },
        ),
{
    match marked {
        Some(m) => {
            let start = if m.start <= total {
                m.start
            } else {
                total
            };
            let end = if m.end <= total {
                m.end
            } else {
                total
            };
            let mut runs: Vec<RunSpan> = Vec::new();
            if start > 0 {
                runs.push(RunSpan { len: start, underlined: false });
            }
            if end - start > 0 {
                runs.push(RunSpan { len: end - start, underlined: true });
            }
            if total - end > 0 {
                runs.push(RunSpan { len: total - end, underlined: false });
            }
            assert(runs@ =~= run_if_any(start as int, false) + run_if_any(
                end - start,
                true,
            ) + run_if_any(total - end, false));
            runs
        },
        None => {
            let mut runs: Vec<RunSpan> = Vec::new();
            runs.push(RunSpan { len: total, underlined: false });
            assert(runs@ =~= seq![RunSpan { len: total, underlined: false }]);
            runs
        },
    }
}

} // verus!
