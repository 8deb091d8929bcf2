//! CSS grid-line placement: the `gridColumn` / `gridRow` tokens and shorthands.

use vstd::prelude::*;

use crate::text_util::{
    ascii_lower_seq, chars_of, find_char_in, first_index, lower_chars, parse_i16_in,
    parse_unsigned_in, spec_parse_i16, spec_parse_unsigned, trim, trim_bounds,
};

verus! {

/// Where an item starts or ends along a grid axis.
#[derive(Debug, Clone, Copy, PartialEq, Eq, Structural)]
pub enum GridPlacement {
    /// Automatic placement.
    Auto,
    /// A grid line (negative numbers count from the end).
    Line(i16),
    /// Span this many tracks.
    Span(u16),
}

/// One grid-line token: `auto` (any case), `span N` (`N` a positive `u16`,
/// any case, blanks allowed around `N`), or a line number (`i16`); blanks
/// around the token are ignored.
pub open spec fn spec_grid_line_token(s: Seq<char>) -> Option<GridPlacement> {
    let t = trim(s);
    let lower = ascii_lower_seq(t);
    if lower == seq!['a', 'u', 't', 'o'] {
        Some(GridPlacement::Auto)
    } else if lower.len() >= 4 && lower.take(4) == seq!['s', 'p', 'a', 'n'] {
        match spec_parse_unsigned(trim(lower.skip(4)), 65535) {
            Some(n) if n > 0 => Some(GridPlacement::Span(n as u16)),
            _ => None,
        }
    } else {
        match spec_parse_i16(t) {
            Some(n) => Some(GridPlacement::Line(n)),
            None => None,
        }
    }
}

/// A `grid-column` / `grid-row` shorthand: `A / B` gives both ends; a lone
/// `span N` spans from both ends; any other lone token gives the start only.
pub open spec fn spec_grid_shorthand(s: Seq<char>) -> (Option<GridPlacement>, Option<GridPlacement>) {
    let t = trim(s);
    match first_index(t, '/') {
        Some(i) => (spec_grid_line_token(t.take(i as int)), spec_grid_line_token(t.skip(i + 1 as int))),
        None => match spec_grid_line_token(t) {
            Some(GridPlacement::Span(n)) => (Some(GridPlacement::Span(n)), Some(GridPlacement::Span(n))),
            other => (other, None),
        },
    }
}

/// The grid-line token in `cs[from..to]`.
fn grid_token_in(cs: &Vec<char>, from: usize, to: usize) -> (r: Option<GridPlacement>)
    requires
        from <= to <= cs@.len(),
    ensures
        r == spec_grid_line_token(cs@.subrange(from as int, to as int)),
{
    let (a, b) = trim_bounds(cs, from, to);
    let lower = lower_chars(cs);
    let ghost t = cs@.subrange(a as int, b as int);
    let ghost lt = ascii_lower_seq(t);
    proof {
        assert(lt =~= lower@.subrange(a as int, b as int));
    }
    if b - a == 4 && lower[a] == 'a' && lower[a + 1] == 'u' && lower[a + 2] == 't' && lower[a + 3] == 'o' {
        proof {
            assert(lt =~= seq!['a', 'u', 't', 'o']);
        }
        return Some(GridPlacement::Auto);
    }
    proof {
        if lt == seq!['a', 'u', 't', 'o'] {
            assert(lt[0] == 'a' && lt[1] == 'u' && lt[2] == 't' && lt[3] == 'o');
        }
    }
    if b - a >= 4 && lower[a] == 's' && lower[a + 1] == 'p' && lower[a + 2] == 'a' && lower[a + 3] == 'n' {
        proof {
            assert(lt.take(4) =~= seq!['s', 'p', 'a', 'n']);
        }
        let (c, d) = trim_bounds(&lower, a + 4, b);
        proof {
            assert(lt.skip(4) =~= lower@.subrange(a + 4, b as int));
        }
        return match parse_unsigned_in(&lower, c, d, 65535) {
            Some(n) => {
                if n > 0 {
                    Some(GridPlacement::Span(n as u16))
                } else {
                    None
                }
            },
            None => None,
        };
    }
    proof {
        if lt.len() >= 4 && lt.take(4) == seq!['s', 'p', 'a', 'n'] {
            assert(lt.take(4)[0] == 's' && lt.take(4)[1] == 'p' && lt.take(4)[2] == 'a' && lt.take(4)[3] == 'n');
        }
    }
    match parse_i16_in(cs, a, b) {
        Some(n) => Some(GridPlacement::Line(n)),
        None => None,
    }
}

/// Parse a single CSS grid-line token (see [`spec_grid_line_token`]).
pub fn parse_grid_line_token(s: &str) -> (r: Option<GridPlacement>)
    ensures
        r == spec_grid_line_token(s@),
{
    let cs = chars_of(s);
    proof {
        assert(cs@.subrange(0, cs@.len() as int) =~= cs@);
    }
    grid_token_in(&cs, 0, cs.len())
}

/// Parse a `grid-column` / `grid-row` shorthand into `(start, end)` (see
/// [`spec_grid_shorthand`]).
pub fn parse_grid_shorthand(s: &str) -> (r: (Option<GridPlacement>, Option<GridPlacement>))
    ensures
        r == spec_grid_shorthand(s@),
{
    let cs = chars_of(s);
    let (a, b) = trim_bounds(&cs, 0, cs.len());
    proof {
        assert(cs@.subrange(0, cs@.len() as int) =~= s@);
    }
    let ghost t = cs@.subrange(a as int, b as int);
    let i = find_char_in(&cs, a, b, '/');
    if i < b {
        proof {
            assert(t.take(i - a) =~= cs@.subrange(a as int, i as int));
            assert(t.skip(i - a + 1) =~= cs@.subrange(i + 1, b as int));
        }
        let start = grid_token_in(&cs, a, i);
        let end = grid_token_in(&cs, i + 1, b);
        return (start, end);
    }
    match grid_token_in(&cs, a, b) {
        Some(GridPlacement::Span(n)) => (Some(GridPlacement::Span(n)), Some(GridPlacement::Span(n))),
        other => (other, None),
    }
}

/// A grid shorthand value as written: a number (already a line index) or a text.
#[derive(Debug, Clone, PartialEq, Eq)]
pub enum GridShorthandValue {
    Number(i16),
    Text(String),
}

/// The placement of one grid axis from its four properties, by priority:
/// the shorthand (a number is the start line; a text is parsed), then the
/// span (at least 1) for both ends, then the explicit start and end lines.
pub open spec fn spec_grid_axis(
    shorthand: Option<GridShorthandValue>,
    span: Option<u16>,
    start: Option<i16>,
    end: Option<i16>,
) -> (Option<GridPlacement>, Option<GridPlacement>) {
    let from_shorthand = match shorthand {
        Some(GridShorthandValue::Number(n)) => (Some(GridPlacement::Line(n)), None),
        Some(GridShorthandValue::Text(t)) => spec_grid_shorthand(t@),
        None => (None, None),
    };
    let with_span = match span {
        Some(n) => {
            let m: u16 = if n >= 1 { n } else { 1 };
            (Some(GridPlacement::Span(m)), Some(GridPlacement::Span(m)))
        },
        None => from_shorthand,
    };
    (
        match start {
            Some(n) => Some(GridPlacement::Line(n)),
            None => with_span.0,
        },
        match end {
            Some(n) => Some(GridPlacement::Line(n)),
            None => with_span.1,
        },
    )
}

/// The longhands win: an explicit start line is the start and an explicit
/// end line is the end, each whatever the other properties say. Without a
/// longhand, a span spans from both ends (at least one track); without a
/// span either, the shorthand decides (a number being the start line).
pub proof fn lemma_grid_axis_priority(
    shorthand: Option<GridShorthandValue>,
    span: Option<u16>,
    start: Option<i16>,
    end: Option<i16>,
)
    ensures
        ({
            let (s, e) = spec_grid_axis(shorthand, span, start, end);
            &&& start matches Some(n) ==> s == Some(GridPlacement::Line(n))
            &&& end matches Some(n) ==> e == Some(GridPlacement::Line(n))
            &&& start is None ==> (span matches Some(n) ==> s == Some(
                GridPlacement::Span(if n == 0 { 1 } else { n }),
            ))
            &&& end is None ==> (span matches Some(n) ==> e == Some(
                GridPlacement::Span(if n == 0 { 1 } else { n }),
            ))
            &&& (start is None && span is None) ==> (shorthand matches Some(GridShorthandValue::Number(n))
                ==> s == Some(GridPlacement::Line(n)))
            &&& (end is None && span is None) ==> (shorthand matches Some(GridShorthandValue::Number(_))
                ==> e is None)
            &&& (start is None && span is None) ==> (shorthand matches Some(GridShorthandValue::Text(t))
                ==> s == spec_grid_shorthand(t@).0)
            &&& (end is None && span is None) ==> (shorthand matches Some(GridShorthandValue::Text(t))
                ==> e == spec_grid_shorthand(t@).1)
            &&& (start is None && end is None && span is None && shorthand is None) ==> s is None && e is None
        }),
{
}

/// Resolve one grid axis (`gridColumn*` or `gridRow*`) into `(start, end)`
/// (see [`spec_grid_axis`]).
pub fn resolve_grid_axis(
    shorthand: Option<&GridShorthandValue>,
    span: Option<u16>,
    start: Option<i16>,
    end: Option<i16>,
) -> (r: (Option<GridPlacement>, Option<GridPlacement>))
    ensures
        r == spec_grid_axis(
            match shorthand {
                Some(v) => Some(*v),
                None => None,
            },
            span,
            start,
            end,
        ),
{
    let mut first: Option<GridPlacement> = None;
    let mut last: Option<GridPlacement> = None;
    match shorthand {
        Some(GridShorthandValue::Number(n)) => {
            first = Some(GridPlacement::Line(*n));
        },
        Some(GridShorthandValue::Text(t)) => {
            let (a, b) = parse_grid_shorthand(t.as_str());
            first = a;
            last = b;
        },
        None => {},
    }
    if let Some(n) = span {
        let m: u16 = if n >= 1 {
            n
        } else {
            1
        };
        first = Some(GridPlacement::Span(m));
        last = Some(GridPlacement::Span(m));
    }
    if let Some(n) = start {
        first = Some(GridPlacement::Line(n));
    }
    if let Some(n) = end {
        last = Some(GridPlacement::Line(n));
    }
    (first, last)
}

} // verus!
