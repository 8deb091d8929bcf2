//! CSS-style length syntax: `auto`, or a number with a `%`, `px` or `rem`
//! unit, or a bare number. The library splits off the unit; the number
//! itself is read by the renderer.

use vstd::prelude::*;

use crate::text_util::{chars_of, range_matches, trim, trim_bounds};

verus! {

broadcast use vstd::string::group_string_axioms;

/// The unit written after a length's number.
#[derive(Debug, Clone, Copy, PartialEq, Eq, Structural)]
pub enum LengthUnit {
    /// `%`: a percentage of the containing length.
    Percent,
    /// `px`: logical pixels.
    Px,
    /// `rem`: multiples of the root font size.
    Rem,
}

/// Whether `s` ends with `suffix`.
pub open spec fn has_suffix(s: Seq<char>, suffix: Seq<char>) -> bool {
    suffix.len() <= s.len() && s.skip(s.len() - suffix.len()) == suffix
}

/// The unit of a trimmed length text and its number text (trimmed again):
/// a `%`, `px` or `rem` suffix names the unit; without one there is none and
/// the whole text is the number.
pub open spec fn spec_split_unit(s: Seq<char>) -> (Option<LengthUnit>, Seq<char>) {
    let t = trim(s);
    if has_suffix(t, "%"@) {
        (Some(LengthUnit::Percent), trim(t.take(t.len() - 1)))
    } else if has_suffix(t, "px"@) {
        (Some(LengthUnit::Px), trim(t.take(t.len() - 2)))
    } else if has_suffix(t, "rem"@) {
        (Some(LengthUnit::Rem), trim(t.take(t.len() - 3)))
    } else {
        (None, t)
    }
}

/// Whether `cs[a..b]` ends with `lit` (`lit` has `k` characters).
fn ends_with_in(cs: &Vec<char>, a: usize, b: usize, lit: &str, k: usize) -> (r: bool)
    requires
        a <= b <= cs@.len(),
        lit@.len() == k,
    ensures
        r == has_suffix(cs@.subrange(a as int, b as int), lit@),
{
    if b - a < k {
        return false;
    }
    let r = range_matches(cs, b - k, b, lit);
    proof {
        let t = cs@.subrange(a as int, b as int);
        assert(t.skip(t.len() - k) =~= cs@.subrange(b - k, b as int));
    }
    r
}

/// Split a length text into its unit and number text (see [`spec_split_unit`]).
pub fn split_unit(s: &str) -> (r: (Option<LengthUnit>, String))
    ensures
        (r.0, r.1@) == spec_split_unit(s@),
{
    proof {
        reveal_strlit("%");
        reveal_strlit("px");
        reveal_strlit("rem");
    }
    let cs = chars_of(s);
    let (a, b) = trim_bounds(&cs, 0, cs.len());
    let ghost t = cs@.subrange(a as int, b as int);
    assert(cs@.subrange(0, cs@.len() as int) =~= s@);
    if ends_with_in(&cs, a, b, "%", 1) {
        let (c, d) = trim_bounds(&cs, a, b - 1);
        assert(cs@.subrange(a as int, b - 1) =~= t.take(t.len() - 1));
        (Some(LengthUnit::Percent), s.substring_char(c, d).to_string())
    } else if ends_with_in(&cs, a, b, "px", 2) {
        let (c, d) = trim_bounds(&cs, a, b - 2);
        assert(cs@.subrange(a as int, b - 2) =~= t.take(t.len() - 2));
        (Some(LengthUnit::Px), s.substring_char(c, d).to_string())
    } else if ends_with_in(&cs, a, b, "rem", 3) {
        let (c, d) = trim_bounds(&cs, a, b - 3);
        assert(cs@.subrange(a as int, b - 3) =~= t.take(t.len() - 3));
        (Some(LengthUnit::Rem), s.substring_char(c, d).to_string())
    } else {
        (None, s.substring_char(a, b).to_string())
    }
}

/// A length as written.
#[derive(Debug, Clone, PartialEq, Eq)]
pub enum LengthSyntax {
    /// `auto`.
    Auto,
    /// A number text with its unit; a bare number has none.
    Number(Option<LengthUnit>, String),
}

/// Read a length text: `auto` (around white space), else its unit and number
/// text.
pub fn length_syntax(s: &str) -> (r: LengthSyntax)
    ensures
        trim(s@) == "auto"@ ==> r == LengthSyntax::Auto,
        trim(s@) != "auto"@ ==> (r matches LengthSyntax::Number(u, t) && (u, t@) == spec_split_unit(
            s@,
        )),
{
    let cs = chars_of(s);
    let (a, b) = trim_bounds(&cs, 0, cs.len());
    assert(cs@.subrange(0, cs@.len() as int) =~= s@);
    if range_matches(&cs, a, b, "auto") {
        LengthSyntax::Auto
    } else {
        let (u, t) = split_unit(s);
        LengthSyntax::Number(u, t)
    }
}

} // verus!
