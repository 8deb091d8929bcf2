//! Offset arithmetic for the text input: UTF-8 byte offsets ↔ UTF-16
//! code-unit offsets, grapheme-cluster boundaries, the content splice and the
//! selection-extend rule.

use vstd::prelude::*;
use vstd::string::*;
use vstd::utf8::*;

use std::ops::Range;
use unicode_segmentation::UnicodeSegmentation;

use crate::text_util::chars_of;

verus! {

broadcast use vstd::string::group_string_axioms;

/// Number of UTF-8 bytes that encode `c`.
pub open spec fn utf8_len(c: char) -> nat {
    let v = c as u32;
    if v <= 0x7f {
        1
    } else if v <= 0x7ff {
        2
    } else if v <= 0xffff {
        3
    } else {
        4
    }
}

/// Number of UTF-16 code units that encode `c`.
pub open spec fn utf16_len(c: char) -> nat {
    if (c as u32) <= 0xffff {
        1
    } else {
        2
    }
}

/// Byte length of the UTF-8 encoding of `s`.
pub open spec fn utf8_width(s: Seq<char>) -> nat
    decreases s.len(),
{
    if s.len() == 0 {
        0
    } else {
        utf8_len(s[0]) + utf8_width(s.drop_first())
    }
}

/// Code-unit length of the UTF-16 encoding of `s`.
pub open spec fn utf16_width(s: Seq<char>) -> nat
    decreases s.len(),
{
    if s.len() == 0 {
        0
    } else {
        utf16_len(s[0]) + utf16_width(s.drop_first())
    }
}

/// UTF-8 byte offset reached by consuming whole characters of `s` until at
/// least `offset` UTF-16 code units have been passed (or `s` ends).
pub open spec fn from_utf16(s: Seq<char>, offset: int) -> nat
    decreases s.len(),
{
    if s.len() == 0 || offset <= 0 {
        0
    } else {
        utf8_len(s[0]) + from_utf16(s.drop_first(), offset - utf16_len(s[0]))
    }
}

/// UTF-16 code-unit offset reached by consuming whole characters of `s` until
/// at least `offset` UTF-8 bytes have been passed (or `s` ends).
pub open spec fn to_utf16(s: Seq<char>, offset: int) -> nat
    decreases s.len(),
{
    if s.len() == 0 || offset <= 0 {
        0
    } else {
        utf16_len(s[0]) + to_utf16(s.drop_first(), offset - utf8_len(s[0]))
    }
}

/// `b` is the byte offset of a character boundary of `s`.
pub open spec fn is_char_start(s: Seq<char>, b: int) -> bool {
    exists|k: int| 0 <= k <= s.len() && utf8_width(#[trigger] s.take(k)) == b
}

/// The number of characters before the character boundary at byte `b`.
pub open spec fn char_index_at(s: Seq<char>, b: int) -> int {
    choose|k: int| 0 <= k <= s.len() && utf8_width(#[trigger] s.take(k)) == b
}

proof fn lemma_utf8_len_encoding(c: char)
    ensures
        encode_scalar(c as u32).len() == utf8_len(c),
{
    broadcast use char_is_scalar;
}

/// The byte width of `s` is the length of its UTF-8 encoding.
pub proof fn lemma_utf8_width_bytes(s: Seq<char>)
    ensures
        utf8_width(s) == encode_utf8(s).len(),
    decreases s.len(),
{
    if s.len() > 0 {
        lemma_utf8_len_encoding(s[0]);
        lemma_utf8_width_bytes(s.drop_first());
    }
}

proof fn lemma_width_concat(a: Seq<char>, b: Seq<char>)
    ensures
        utf8_width(a + b) == utf8_width(a) + utf8_width(b),
        utf16_width(a + b) == utf16_width(a) + utf16_width(b),
    decreases a.len(),
{
    if a.len() > 0 {
        assert((a + b).drop_first() =~= a.drop_first() + b);
        lemma_width_concat(a.drop_first(), b);
    } else {
        assert(a + b =~= b);
    }
}

/// Widths of a prefix: one more character adds its length.
proof fn lemma_width_take(s: Seq<char>, k: int)
    requires
        0 <= k < s.len(),
    ensures
        utf8_width(s.take(k + 1)) == utf8_width(s.take(k)) + utf8_len(s[k]),
        utf16_width(s.take(k + 1)) == utf16_width(s.take(k)) + utf16_len(s[k]),
{
    let one = seq![s[k]];
    assert(s.take(k + 1) =~= s.take(k) + one);
    lemma_width_concat(s.take(k), one);
    assert(one.drop_first() =~= Seq::<char>::empty());
    assert(utf8_width(one) == utf8_len(s[k]) + utf8_width(one.drop_first()));
    assert(utf16_width(one) == utf16_len(s[k]) + utf16_width(one.drop_first()));
}

/// Prefix widths grow strictly with the prefix and never exceed the whole.
proof fn lemma_width_monotone(s: Seq<char>, i: int, j: int)
    requires
        0 <= i <= j <= s.len(),
    ensures
        utf8_width(s.take(i)) + (j - i) <= utf8_width(s.take(j)),
        utf16_width(s.take(i)) <= utf16_width(s.take(j)),
        utf16_width(s.take(j)) <= utf8_width(s.take(j)),
    decreases j - i,
{
    if i < j {
        lemma_width_monotone(s, i, j - 1);
        lemma_width_take(s, j - 1);
    } else {
        lemma_utf16_le_utf8(s.take(j));
    }
}

proof fn lemma_utf16_le_utf8(s: Seq<char>)
    ensures
        utf16_width(s) <= utf8_width(s),
    decreases s.len(),
{
    if s.len() > 0 {
        lemma_utf16_le_utf8(s.drop_first());
    }
}

/// The whole-string widths, as a prefix.
proof fn lemma_take_all(s: Seq<char>)
    ensures
        s.take(s.len() as int) == s,
{
    assert(s.take(s.len() as int) =~= s);
}

fn char_utf8_len(c: char) -> (r: usize)
    ensures
        r == utf8_len(c),
{
    let v = c as u32;
    if v <= 0x7f {
        1
    } else if v <= 0x7ff {
        2
    } else if v <= 0xffff {
        3
    } else {
        4
    }
}

fn char_utf16_len(c: char) -> (r: usize)
    ensures
        r == utf16_len(c),
{
    let v = c as u32;
    if v <= 0xffff {
        1
    } else {
        2
    }
}

/// Convert a UTF-16 code-unit offset into the equivalent UTF-8 byte offset
/// within `content` (whole characters are consumed until the offset is reached).
pub fn offset_from_utf16(content: &str, offset: usize) -> (r: usize)
    requires
        content.spec_bytes().len() <= usize::MAX,
    ensures
        r == from_utf16(content@, offset as int),
{
    let cs = chars_of(content);
    let ghost s = cs@;
    proof {
        lemma_utf8_width_bytes(s);
        lemma_take_all(s);
        assert(s.skip(0) =~= s);
        assert(s.take(0) =~= Seq::<char>::empty());
    }
    let mut utf8_offset: usize = 0;
    let mut utf16_count: usize = 0;
    let mut i: usize = 0;
    while i < cs.len() && utf16_count < offset
        invariant
            s == cs@,
            utf8_width(s) <= usize::MAX,
            0 <= i <= s.len(),
            utf8_offset == utf8_width(s.take(i as int)),
            utf16_count == utf16_width(s.take(i as int)),
            from_utf16(s, offset as int) == utf8_offset + from_utf16(s.skip(i as int), offset - utf16_count),
        decreases s.len() - i,
    {
        proof {
            lemma_width_take(s, i as int);
            lemma_width_monotone(s, i + 1, s.len() as int);
            lemma_take_all(s);
            assert(s.skip(i as int).drop_first() =~= s.skip(i + 1));
            assert(s.skip(i as int)[0] == s[i as int]);
        }
        utf16_count = utf16_count + char_utf16_len(cs[i]);
        utf8_offset = utf8_offset + char_utf8_len(cs[i]);
        i = i + 1;
    }
    utf8_offset
}

/// Convert a UTF-8 byte offset into the equivalent UTF-16 code-unit offset
/// within `content` (whole characters are consumed until the offset is reached).
pub fn offset_to_utf16(content: &str, offset: usize) -> (r: usize)
    requires
        content.spec_bytes().len() <= usize::MAX,
    ensures
        r == to_utf16(content@, offset as int),
{
    let cs = chars_of(content);
    let ghost s = cs@;
    proof {
        lemma_utf8_width_bytes(s);
        lemma_take_all(s);
        assert(s.skip(0) =~= s);
        assert(s.take(0) =~= Seq::<char>::empty());
    }
    let mut utf16_offset: usize = 0;
    let mut utf8_count: usize = 0;
    let mut i: usize = 0;
    while i < cs.len() && utf8_count < offset
        invariant
            s == cs@,
            utf8_width(s) <= usize::MAX,
            0 <= i <= s.len(),
            utf8_count == utf8_width(s.take(i as int)),
            utf16_offset == utf16_width(s.take(i as int)),
            to_utf16(s, offset as int) == utf16_offset + to_utf16(s.skip(i as int), offset - utf8_count),
        decreases s.len() - i,
    {
        proof {
            lemma_width_take(s, i as int);
            lemma_width_monotone(s, i + 1, s.len() as int);
            lemma_take_all(s);
            assert(s.skip(i as int).drop_first() =~= s.skip(i + 1));
            assert(s.skip(i as int)[0] == s[i as int]);
        }
        utf8_count = utf8_count + char_utf8_len(cs[i]);
        utf16_offset = utf16_offset + char_utf16_len(cs[i]);
        i = i + 1;
    }
    utf16_offset
}

/// At the byte offset of a character boundary, converting to UTF-16 gives the
/// UTF-16 length of the prefix, and converting that back gives the byte offset.
pub proof fn lemma_utf16_round_trip(s: Seq<char>, k: int)
    requires
        0 <= k <= s.len(),
    ensures
        to_utf16(s, utf8_width(s.take(k)) as int) == utf16_width(s.take(k)),
        from_utf16(s, utf16_width(s.take(k)) as int) == utf8_width(s.take(k)),
        from_utf16(s, to_utf16(s, utf8_width(s.take(k)) as int) as int) == utf8_width(s.take(k)),
    decreases k,
{
    if k == 0 {
        assert(s.take(0) =~= Seq::<char>::empty());
    } else {
        let t = s.drop_first();
        assert(s.take(k).drop_first() =~= t.take(k - 1));
        assert(s.take(k)[0] == s[0]);
        lemma_utf16_round_trip(t, k - 1);
    }
}


/// Byte offsets at which the extended grapheme clusters of a string start, in
/// order (as `unicode-segmentation` segments it).
pub uninterp spec fn grapheme_starts(s: Seq<char>) -> Seq<usize>;

/// Start offsets of the extended grapheme clusters of `content`
/// (`UnicodeSegmentation::grapheme_indices(content, true)`). Claimed: the list
/// is the named segmentation of `content`; offsets strictly increase, each lies
/// inside the byte length, and a non-empty string starts a cluster at 0 (the
/// iterator yields consecutive non-empty slices covering the string), and each
/// offset starts a slice of `content`, so it is a character boundary. Which
/// offsets Unicode's segmentation rules produce is left to the crate.
#[verifier::external_body]
fn grapheme_offsets(content: &str) -> (r: Vec<usize>)
    ensures
        r@ == grapheme_starts(content@),
        forall|i: int, j: int| 0 <= i < j < r@.len() ==> r@[i] < r@[j],
        forall|i: int| 0 <= i < r@.len() ==> (r@[i] as int) < content.spec_bytes().len(),
        content@.len() > 0 ==> r@.len() > 0 && r@[0] == 0,
        forall|i: int| 0 <= i < r@.len() ==> is_char_start(content@, #[trigger] r@[i] as int),
{
    content.grapheme_indices(true).map(|(idx, _)| idx).collect()
}

/// The first entry of `starts` (in order) that is greater than `offset`.
pub open spec fn first_above(starts: Seq<usize>, offset: int) -> Option<usize>
    decreases starts.len(),
{
    if starts.len() == 0 {
        None
    } else if starts[0] > offset {
        Some(starts[0])
    } else {
        first_above(starts.drop_first(), offset)
    }
}

/// The last entry of `starts` (in order) that is smaller than `offset`.
pub open spec fn last_below(starts: Seq<usize>, offset: int) -> Option<usize>
    decreases starts.len(),
{
    if starts.len() == 0 {
        None
    } else if starts.last() < offset {
        Some(starts.last())
    } else {
        last_below(starts.drop_last(), offset)
    }
}

proof fn lemma_first_above_member(starts: Seq<usize>, offset: int)
    requires
        first_above(starts, offset) is Some,
    ensures
        exists|i: int| 0 <= i < starts.len() && starts[i] == first_above(starts, offset)->0,
    decreases starts.len(),
{
    if starts[0] > offset {
        assert(starts[0] == first_above(starts, offset)->0);
    } else {
        lemma_first_above_member(starts.drop_first(), offset);
        let i = choose|i: int| 0 <= i < starts.drop_first().len() && starts.drop_first()[i] == first_above(starts.drop_first(), offset)->0;
        assert(starts[i + 1] == first_above(starts, offset)->0);
    }
}

proof fn lemma_last_below_member(starts: Seq<usize>, offset: int)
    requires
        last_below(starts, offset) is Some,
    ensures
        exists|i: int| 0 <= i < starts.len() && starts[i] == last_below(starts, offset)->0,
    decreases starts.len(),
{
    if starts.last() < offset {
        assert(starts[starts.len() - 1] == last_below(starts, offset)->0);
    } else {
        lemma_last_below_member(starts.drop_last(), offset);
        let i = choose|i: int| 0 <= i < starts.drop_last().len() && starts.drop_last()[i] == last_below(starts.drop_last(), offset)->0;
        assert(starts[i] == last_below(starts, offset)->0);
    }
}

/// `s` is strictly increasing.
pub open spec fn increasing(s: Seq<usize>) -> bool {
    forall|i: int, j: int| 0 <= i < j < s.len() ==> s[i] < s[j]
}

/// In an increasing list, the first entry above `offset` is the least one.
proof fn lemma_first_above_least(s: Seq<usize>, offset: int)
    requires
        increasing(s),
    ensures
        match first_above(s, offset) {
            Some(b) => b > offset && forall|i: int| 0 <= i < s.len() && s[i] > offset ==> b <= #[trigger] s[i],
            None => forall|i: int| 0 <= i < s.len() ==> #[trigger] s[i] <= offset,
        },
    decreases s.len(),
{
    if s.len() > 0 {
        let t = s.drop_first();
        assert(increasing(t)) by {
            assert forall|i: int, j: int| 0 <= i < j < t.len() implies t[i] < t[j] by {
                assert(t[i] == s[i + 1] && t[j] == s[j + 1]);
            }
        }
        lemma_first_above_least(t, offset);
        assert forall|i: int| 1 <= i < s.len() implies #[trigger] s[i] == t[i - 1] by {}
        if s[0] > offset {
            assert forall|i: int| 0 <= i < s.len() && s[i] > offset implies s[0] <= #[trigger] s[i] by {
                if i > 0 {
                    assert(s[0] < s[i]);
                }
            }
        }
    }
}

/// In an increasing list, the last entry below `offset` is the greatest one.
proof fn lemma_last_below_greatest(s: Seq<usize>, offset: int)
    requires
        increasing(s),
    ensures
        match last_below(s, offset) {
            Some(b) => b < offset && forall|i: int| 0 <= i < s.len() && s[i] < offset ==> #[trigger] s[i] <= b,
            None => forall|i: int| 0 <= i < s.len() ==> #[trigger] s[i] >= offset,
        },
    decreases s.len(),
{
    if s.len() > 0 {
        let t = s.drop_last();
        assert(increasing(t)) by {
            assert forall|i: int, j: int| 0 <= i < j < t.len() implies t[i] < t[j] by {
                assert(t[i] == s[i] && t[j] == s[j]);
            }
        }
        lemma_last_below_greatest(t, offset);
        assert forall|i: int| 0 <= i < s.len() - 1 implies #[trigger] s[i] == t[i] by {}
        if s.last() < offset {
            assert forall|i: int| 0 <= i < s.len() && s[i] < offset implies #[trigger] s[i] <= s.last() by {
                if i < s.len() - 1 {
                    assert(s[i] < s[s.len() - 1]);
                }
            }
        }
    }
}

/// The cluster boundary after `offset` among cluster starts `starts` of a
/// string of `len` bytes: the first start beyond `offset`, else `len`.
pub fn next_boundary_in(starts: &Vec<usize>, len: usize, offset: usize) -> (r: usize)
    ensures
        r == (match first_above(starts@, offset as int) {
            Some(b) => b,
            None => len,
        }),
{
    let mut i: usize = 0;
    assert(starts@.skip(0) =~= starts@);
    while i < starts.len()
        invariant
            0 <= i <= starts@.len(),
            first_above(starts@, offset as int) == first_above(starts@.skip(i as int), offset as int),
        decreases starts@.len() - i,
    {
        assert(starts@.skip(i as int)[0] == starts@[i as int]);
        if starts[i] > offset {
            return starts[i];
        }
        assert(starts@.skip(i as int).drop_first() =~= starts@.skip(i + 1));
        i = i + 1;
    }
    len
}

/// The cluster boundary before `offset` among cluster starts `starts`: the
/// last start before `offset`, else `0`.
pub fn previous_boundary_in(starts: &Vec<usize>, offset: usize) -> (r: usize)
    ensures
        r == (match last_below(starts@, offset as int) {
            Some(b) => b,
            None => 0,
        }),
{
    let mut i: usize = starts.len();
    assert(starts@.take(starts@.len() as int) =~= starts@);
    while i > 0
        invariant
            0 <= i <= starts@.len(),
            last_below(starts@, offset as int) == last_below(starts@.take(i as int), offset as int),
        decreases i,
    {
        assert(starts@.take(i as int).last() == starts@[i - 1]);
        if starts[i - 1] < offset {
            return starts[i - 1];
        }
        assert(starts@.take(i as int).drop_last() =~= starts@.take(i - 1));
        i = i - 1;
    }
    0
}

/// Byte offset of the grapheme cluster boundary immediately after `offset`
/// (`content.len()` when `offset` is at or after the last cluster start).
pub fn next_boundary(content: &str, offset: usize) -> (r: usize)
    ensures
        r == (match first_above(grapheme_starts(content@), offset as int) {
            Some(b) => b,
            None => content.spec_bytes().len() as usize,
        }),
        is_char_start(content@, r as int),
        forall|i: int|
            0 <= i < grapheme_starts(content@).len() && grapheme_starts(content@)[i] > offset ==> r
                <= #[trigger] grapheme_starts(content@)[i],
        offset < content.spec_bytes().len() ==> r > offset,
        offset >= content.spec_bytes().len() ==> r == content.spec_bytes().len(),
        r <= content.spec_bytes().len(),
{
    let starts = grapheme_offsets(content);
    let bytes = content.as_bytes();
    proof {
        vstd::slice::axiom_spec_len(bytes);
    }
    let r = next_boundary_in(&starts, content.len(), offset);
    proof {
        lemma_first_above_least(starts@, offset as int);
        if first_above(starts@, offset as int) is Some {
            lemma_first_above_member(starts@, offset as int);
        } else {
            lemma_utf8_width_bytes(content@);
            lemma_char_start_ends(content@);
        }
    }
    r
}

/// Byte offset of the grapheme cluster boundary immediately before `offset`
/// (`0` when `offset` is at or before the start).
pub fn previous_boundary(content: &str, offset: usize) -> (r: usize)
    ensures
        r == (match last_below(grapheme_starts(content@), offset as int) {
            Some(b) => b,
            None => 0,
        }),
        is_char_start(content@, r as int),
        forall|i: int|
            0 <= i < grapheme_starts(content@).len() && grapheme_starts(content@)[i] < offset ==> #[trigger] grapheme_starts(
                content@,
            )[i] <= r,
        offset > 0 ==> r < offset,
        offset == 0 ==> r == 0,
{
    let starts = grapheme_offsets(content);
    let r = previous_boundary_in(&starts, offset);
    proof {
        lemma_last_below_greatest(starts@, offset as int);
        if last_below(starts@, offset as int) is Some {
            lemma_last_below_member(starts@, offset as int);
        } else {
            lemma_char_start_ends(content@);
        }
    }
    r
}

/// Number of characters before the character boundary at byte `b`.
pub(crate) fn char_index_of_byte(cs: &Vec<char>, b: usize) -> (r: usize)
    requires
        is_char_start(cs@, b as int),
    ensures
        r as int == char_index_at(cs@, b as int),
        r <= cs@.len(),
        utf8_width(cs@.take(r as int)) == b,
{
    let ghost s = cs@;
    let ghost kb = char_index_at(s, b as int);
    let mut acc: usize = 0;
    let mut i: usize = 0;
    let n = cs.len();
    assert(s.take(0) =~= Seq::<char>::empty());
    while acc < b
        invariant
            s == cs@,
            n == s.len(),
            0 <= kb <= s.len(),
            utf8_width(s.take(kb)) == b,
            0 <= i <= s.len(),
            acc == utf8_width(s.take(i as int)),
            acc <= b,
            acc < b ==> i < kb,
        decreases s.len() - i,
    {
        proof {
            lemma_width_take(s, i as int);
            lemma_width_monotone(s, i + 1, kb);
        }
        acc = acc + char_utf8_len(cs[i]);
        i = i + 1;
        proof {
            if acc < b {
                if i >= kb {
                    lemma_width_monotone(s, kb, i as int);
                }
            }
        }
    }
    proof {
        if i != kb {
            if i < kb {
                lemma_width_monotone(s, i as int, kb);
            } else {
                lemma_width_monotone(s, kb, i as int);
            }
        }
    }
    i
}

/// A character boundary lies within the byte length of the string.
pub proof fn lemma_char_start_bounds(s: Seq<char>, b: int)
    requires
        is_char_start(s, b),
    ensures
        0 <= b <= utf8_width(s),
        0 <= char_index_at(s, b) <= s.len(),
        utf8_width(s.take(char_index_at(s, b))) == b,
{
    let k = char_index_at(s, b);
    lemma_width_monotone(s, k, s.len() as int);
    lemma_take_all(s);
}

/// A prefix is no wider than the whole string.
pub proof fn lemma_prefix_width_le(s: Seq<char>, k: int)
    requires
        0 <= k <= s.len(),
    ensures
        utf8_width(s.take(k)) <= utf8_width(s),
{
    lemma_width_monotone(s, k, s.len() as int);
    lemma_take_all(s);
}

/// Character indices of boundaries follow the order of the boundaries.
pub proof fn lemma_char_index_order(s: Seq<char>, a: int, b: int)
    requires
        is_char_start(s, a),
        is_char_start(s, b),
        a <= b,
    ensures
        char_index_at(s, a) <= char_index_at(s, b),
{
    let ka = char_index_at(s, a);
    let kb = char_index_at(s, b);
    if ka > kb {
        lemma_width_monotone(s, kb, ka);
    }
}

/// The boundary after the first `k` characters has character index `k`.
pub proof fn lemma_char_index_of_prefix(s: Seq<char>, k: int)
    requires
        0 <= k <= s.len(),
    ensures
        is_char_start(s, utf8_width(s.take(k)) as int),
        char_index_at(s, utf8_width(s.take(k)) as int) == k,
{
    let b = utf8_width(s.take(k)) as int;
    assert(utf8_width(s.take(k)) == b);
    let c = char_index_at(s, b);
    if c < k {
        lemma_width_monotone(s, c, k);
    } else if c > k {
        lemma_width_monotone(s, k, c);
    }
}

/// The width of a concatenation is the sum of the widths.
pub proof fn lemma_prefix_width_concat(a: Seq<char>, b: Seq<char>)
    ensures
        utf8_width(a + b) == utf8_width(a) + utf8_width(b),
{
    lemma_width_concat(a, b);
}

/// The start and the end of a string are character boundaries.
pub proof fn lemma_char_start_ends(s: Seq<char>)
    ensures
        is_char_start(s, 0),
        is_char_start(s, utf8_width(s) as int),
{
    assert(s.take(0) =~= Seq::<char>::empty());
    assert(utf8_width(s.take(0)) == 0);
    lemma_take_all(s);
    assert(utf8_width(s.take(s.len() as int)) == utf8_width(s));
}

proof fn lemma_width_take_first(s: Seq<char>, k: int)
    requires
        0 <= k < s.len(),
    ensures
        utf8_width(s.take(k + 1)) == utf8_len(s[0]) + utf8_width(s.drop_first().take(k)),
{
    assert(s.take(k + 1).drop_first() =~= s.drop_first().take(k));
    assert(s.take(k + 1)[0] == s[0]);
}

/// The byte offset reached from a UTF-16 offset is the width of a prefix.
proof fn lemma_from_utf16_prefix(s: Seq<char>, o: int) -> (k: int)
    ensures
        0 <= k <= s.len(),
        utf8_width(s.take(k)) == from_utf16(s, o),
    decreases s.len(),
{
    if s.len() == 0 || o <= 0 {
        assert(s.take(0) =~= Seq::<char>::empty());
        0
    } else {
        let k1 = lemma_from_utf16_prefix(s.drop_first(), o - utf16_len(s[0]));
        lemma_width_take_first(s, k1);
        k1 + 1
    }
}

/// Converting a UTF-16 offset always lands on a character boundary.
pub proof fn lemma_from_utf16_char_start(s: Seq<char>, o: int)
    ensures
        is_char_start(s, from_utf16(s, o) as int),
{
    let k = lemma_from_utf16_prefix(s, o);
    assert(utf8_width(s.take(k)) == from_utf16(s, o));
}

/// Converting UTF-16 offsets preserves their order.
pub proof fn lemma_from_utf16_monotone(s: Seq<char>, a: int, b: int)
    requires
        a <= b,
    ensures
        from_utf16(s, a) <= from_utf16(s, b),
    decreases s.len(),
{
    if s.len() > 0 && a > 0 {
        lemma_from_utf16_monotone(s.drop_first(), a - utf16_len(s[0]), b - utf16_len(s[0]));
    }
}

/// The text that a splice of `t` between the boundaries at character indices
/// `ks` and `ke` produces: its width, and the boundaries around the inserted text.
pub proof fn lemma_splice_widths(s: Seq<char>, ks: int, ke: int, t: Seq<char>)
    requires
        0 <= ks <= s.len(),
        0 <= ke <= s.len(),
    ensures
        ({
            let r = s.take(ks) + t + s.skip(ke);
            &&& utf8_width(r) + utf8_width(s.take(ke)) == utf8_width(s.take(ks)) + utf8_width(t)
                + utf8_width(s)
            &&& is_char_start(r, utf8_width(s.take(ks)) as int)
            &&& is_char_start(r, (utf8_width(s.take(ks)) + utf8_width(t)) as int)
        }),
{
    let r = s.take(ks) + t + s.skip(ke);
    lemma_width_concat(s.take(ks), t);
    lemma_width_concat(s.take(ks) + t, s.skip(ke));
    assert(s =~= s.take(ke) + s.skip(ke));
    lemma_width_concat(s.take(ke), s.skip(ke));
    assert(r.take(ks) =~= s.take(ks));
    assert(r.take(ks + t.len()) =~= s.take(ks) + t);
    assert(utf8_width(r.take(ks)) == utf8_width(s.take(ks)));
    assert(utf8_width(r.take(ks + t.len())) == utf8_width(s.take(ks)) + utf8_width(t));
}

/// Replace the UTF-8 byte range `range` of `content` with `new_text`: the text
/// before `range.start`, then `new_text`, then the text from `range.end` on.
/// Both ends must be character boundaries.
pub fn splice_content(content: &str, range: &Range<usize>, new_text: &str) -> (r: String)
    requires
        is_char_start(content@, range.start as int),
        is_char_start(content@, range.end as int),
    ensures
        r@ == content@.take(char_index_at(content@, range.start as int)) + new_text@ + content@.skip(
            char_index_at(content@, range.end as int),
        ),
{
    let cs = chars_of(content);
    let ks = char_index_of_byte(&cs, range.start);
    let ke = char_index_of_byte(&cs, range.end);
    if ke < ks {
        proof {
            lemma_width_monotone(cs@, ke as int, ks as int);
        }
    }
    let n = cs.len();
    let head = content.substring_char(0, ks);
    let tail = content.substring_char(ke, n);
    let mut out = String::from_str(head);
    out.append(new_text);
    out.append(tail);
    proof {
        assert(content@.subrange(0, ks as int) =~= content@.take(ks as int));
        assert(content@.subrange(ke as int, n as int) =~= content@.skip(ke as int));
    }
    out
}

/// Extend a selection to `offset`: move the active edge (the start when
/// `reversed`, else the end), and when the edges cross, swap them and flip
/// `reversed`. Returns the normalised `(range, reversed)`.
pub fn extend_selection(range: Range<usize>, reversed: bool, offset: usize) -> (r: (Range<usize>, bool))
    ensures
        ({
            let start = if reversed { offset } else { range.start };
            let end = if reversed { range.end } else { offset };
            if end < start {
                r.0.start == end && r.0.end == start && r.1 == !reversed
            } else {
                r.0.start == start && r.0.end == end && r.1 == reversed
            }
        }),
        r.0.start <= r.0.end,
{
    let mut start = range.start;
    let mut end = range.end;
    let mut reversed = reversed;
    if reversed {
        start = offset;
    } else {
        end = offset;
    }
    if end < start {
        reversed = !reversed;
        let t = start;
        start = end;
        end = t;
    }
    (start..end, reversed)
}

} // verus!
