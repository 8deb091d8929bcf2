//! Character-level helpers shared by the keyword parsers: exact string
//! comparison, ASCII case folding and splitting on Unicode white space.

use vstd::prelude::*;

verus! {

broadcast use vstd::string::group_string_axioms;

/// The characters of `s`, in order.
pub fn chars_of(s: &str) -> (r: Vec<char>)
    ensures
        r@ == s@,
{
    let mut out: Vec<char> = Vec::new();
    for c in it: s.chars()
        invariant
            out@ == it.seq().take(it.index() as int),
            it.seq() == s@,
    {
        proof {
            assert(it.seq().take(it.index() + 1) == it.seq().take(it.index() as int).push(c));
        }
        out.push(c);
    }
    proof {
        assert(out@ == s@);
    }
    out
}

/// Whether the characters `cs` spell exactly `lit`.
pub fn chars_match(cs: &Vec<char>, lit: &str) -> (r: bool)
    ensures
        r == (cs@ == lit@),
{
    let lc = chars_of(lit);
    if cs.len() != lc.len() {
        return false;
    }
    let mut i: usize = 0;
    while i < cs.len()
        invariant
            cs@.len() == lc@.len(),
            lc@ == lit@,
            0 <= i <= cs@.len(),
            forall|j: int| 0 <= j < i ==> cs@[j] == lc@[j],
        decreases cs@.len() - i,
    {
        if cs[i] != lc[i] {
            assert(cs@[i as int] != lc@[i as int]);
            return false;
        }
        i = i + 1;
    }
    assert(cs@ =~= lc@);
    true
}

/// Whether two strings hold the same characters.
pub fn str_eq(a: &str, b: &str) -> (r: bool)
    ensures
        r == (a@ == b@),
{
    let ca = chars_of(a);
    chars_match(&ca, b)
}

/// `c` with the ASCII upper-case letters mapped to lower case; every other
/// character is unchanged.
pub open spec fn ascii_lower(c: char) -> char {
    if 'A' <= c && c <= 'Z' {
        ((c as u32) + 32) as char
    } else {
        c
    }
}

/// Every character of `s` passed through [`ascii_lower`].
pub open spec fn ascii_lower_seq(s: Seq<char>) -> Seq<char> {
    Seq::new(s.len(), |i: int| ascii_lower(s[i]))
}

/// ASCII lower-casing of one character.
pub fn lower_char(c: char) -> (r: char)
    ensures
        r == ascii_lower(c),
{
    if 'A' <= c && c <= 'Z' {
        let b: u8 = c as u8;
        (b + 32) as char
    } else {
        c
    }
}

/// ASCII lower-casing of a character sequence (non-ASCII characters are kept).
pub fn lower_chars(cs: &Vec<char>) -> (r: Vec<char>)
    ensures
        r@ == ascii_lower_seq(cs@),
{
    let mut out: Vec<char> = Vec::new();
    let mut i: usize = 0;
    while i < cs.len()
        invariant
            0 <= i <= cs@.len(),
            out@ =~= ascii_lower_seq(cs@.take(i as int)),
        decreases cs@.len() - i,
    {
        out.push(lower_char(cs[i]));
        i = i + 1;
        assert(out@ =~= ascii_lower_seq(cs@.take(i as int)));
    }
    assert(cs@.take(cs@.len() as int) =~= cs@);
    out
}

/// The Unicode `White_Space` property.
pub open spec fn is_ws(c: char) -> bool {
    ||| ('\u{9}' <= c && c <= '\u{d}')
    ||| c == ' '
    ||| c == '\u{85}'
    ||| c == '\u{a0}'
    ||| c == '\u{1680}'
    ||| ('\u{2000}' <= c && c <= '\u{200a}')
    ||| c == '\u{2028}'
    ||| c == '\u{2029}'
    ||| c == '\u{202f}'
    ||| c == '\u{205f}'
    ||| c == '\u{3000}'
}

/// Whether `c` is Unicode white space.
pub fn is_whitespace(c: char) -> (r: bool)
    ensures
        r == is_ws(c),
{
    ('\u{9}' <= c && c <= '\u{d}') || c == ' ' || c == '\u{85}' || c == '\u{a0}' || c
        == '\u{1680}' || ('\u{2000}' <= c && c <= '\u{200a}') || c == '\u{2028}' || c
        == '\u{2029}' || c == '\u{202f}' || c == '\u{205f}' || c == '\u{3000}'
}

/// Number of leading white-space characters of `s`.
pub open spec fn leading_ws(s: Seq<char>) -> nat
    decreases s.len(),
{
    if s.len() > 0 && is_ws(s[0]) {
        1 + leading_ws(s.drop_first())
    } else {
        0
    }
}

/// Number of leading non-white-space characters of `s`.
pub open spec fn leading_word(s: Seq<char>) -> nat
    decreases s.len(),
{
    if s.len() > 0 && !is_ws(s[0]) {
        1 + leading_word(s.drop_first())
    } else {
        0
    }
}

/// The maximal runs of non-white-space characters of `s`, in order.
pub open spec fn words(s: Seq<char>) -> Seq<Seq<char>>
    decreases s.len(),
{
    proof {
        lemma_leading_ws_le(s);
    }
    let t = s.skip(leading_ws(s) as int);
    if t.len() == 0 {
        Seq::empty()
    } else {
        let n = leading_word(t);
        proof {
            lemma_leading_word_le(t);
        }
        if n == 0 {
            Seq::empty()
        } else {
            seq![t.take(n as int)] + words(t.skip(n as int))
        }
    }
}

/// Every character of `s` is white space.
pub open spec fn all_ws(s: Seq<char>) -> bool {
    forall|i: int| 0 <= i < s.len() ==> is_ws(#[trigger] s[i])
}

/// No character of `s` is white space.
pub open spec fn no_ws(s: Seq<char>) -> bool {
    forall|i: int| 0 <= i < s.len() ==> !is_ws(#[trigger] s[i])
}

/// The leading white space of `s` followed by `x`.
proof fn lemma_leading_ws_concat(a: Seq<char>, x: Seq<char>)
    ensures
        leading_ws(a) < a.len() ==> leading_ws(a + x) == leading_ws(a),
        all_ws(a) ==> leading_ws(a + x) == a.len() + leading_ws(x),
        all_ws(a) <==> leading_ws(a) == a.len(),
    decreases a.len(),
{
    if a.len() == 0 {
        assert(a + x =~= x);
    } else {
        lemma_leading_ws_concat(a.drop_first(), x);
        assert((a + x).drop_first() =~= a.drop_first() + x);
        assert((a + x)[0] == a[0]);
        if all_ws(a) {
            assert forall|i: int| 0 <= i < a.drop_first().len() implies is_ws(#[trigger] a.drop_first()[i]) by {
                assert(a.drop_first()[i] == a[i + 1]);
            }
        }
        if is_ws(a[0]) && all_ws(a.drop_first()) {
            assert forall|i: int| 0 <= i < a.len() implies is_ws(#[trigger] a[i]) by {
                if i > 0 {
                    assert(a[i] == a.drop_first()[i - 1]);
                }
            }
        }
        lemma_leading_ws_le(a.drop_first());
    }
}

/// The leading word of `a` followed by `x`, where `x` is empty or starts
/// with white space.
proof fn lemma_leading_word_concat(a: Seq<char>, x: Seq<char>)
    requires
        x.len() == 0 || is_ws(x[0]),
    ensures
        leading_word(a + x) == leading_word(a),
        no_ws(a) <==> leading_word(a) == a.len(),
    decreases a.len(),
{
    if a.len() == 0 {
        assert(a + x =~= x);
    } else {
        lemma_leading_word_concat(a.drop_first(), x);
        assert((a + x).drop_first() =~= a.drop_first() + x);
        assert((a + x)[0] == a[0]);
        if no_ws(a) {
            assert forall|i: int| 0 <= i < a.drop_first().len() implies !is_ws(#[trigger] a.drop_first()[i]) by {
                assert(a.drop_first()[i] == a[i + 1]);
            }
        }
        if !is_ws(a[0]) && no_ws(a.drop_first()) {
            assert forall|i: int| 0 <= i < a.len() implies !is_ws(#[trigger] a[i]) by {
                if i > 0 {
                    assert(a[i] == a.drop_first()[i - 1]);
                }
            }
        }
        lemma_leading_word_le(a.drop_first());
    }
}

/// Skipping some of the leading white space does not change the words.
proof fn lemma_words_skip_ws(s: Seq<char>, k: int)
    requires
        0 <= k <= leading_ws(s),
    ensures
        words(s.skip(k)) == words(s),
    decreases k,
{
    if k > 0 {
        lemma_leading_ws_le(s);
        assert(s.skip(k) =~= s.drop_first().skip(k - 1));
        lemma_words_skip_ws(s.drop_first(), k - 1);
        lemma_leading_ws_le(s.drop_first());
        assert(s.skip(leading_ws(s) as int) =~= s.drop_first().skip(leading_ws(s.drop_first()) as int));
    } else {
        assert(s.skip(0) =~= s);
    }
}

/// A non-empty run without white space is one word.
pub proof fn lemma_words_single(w: Seq<char>)
    requires
        w.len() > 0,
        no_ws(w),
    ensures
        words(w) == seq![w],
{
    assert(!is_ws(w[0]));
    assert(w.skip(0) =~= w);
    lemma_leading_word_concat(w, Seq::empty());
    assert(w.take(w.len() as int) =~= w);
    assert(w.skip(w.len() as int) =~= Seq::<char>::empty());
    assert(words(Seq::<char>::empty()) == Seq::<Seq<char>>::empty());
    assert(seq![w] + Seq::<Seq<char>>::empty() =~= seq![w]);
}

/// White space alone holds no word.
pub proof fn lemma_words_blank(s: Seq<char>)
    requires
        all_ws(s),
    ensures
        words(s) == Seq::<Seq<char>>::empty(),
{
    lemma_leading_ws_concat(s, Seq::empty());
    assert(s.skip(s.len() as int).len() == 0);
}

/// A white-space character splits the words: those before it, then those after.
pub proof fn lemma_words_split(a: Seq<char>, c: char, b: Seq<char>)
    requires
        is_ws(c),
    ensures
        words(a + seq![c] + b) == words(a) + words(b),
    decreases a.len(),
{
    let s = a + seq![c] + b;
    let cb = seq![c] + b;
    assert(s =~= a + cb);
    lemma_leading_ws_concat(a, cb);
    lemma_leading_ws_le(a);
    if leading_ws(a) == a.len() {
        // `a` is all white space: the words are those of `b`.
        lemma_leading_ws_concat(seq![c], b);
        assert(all_ws(seq![c]));
        assert(leading_ws(cb) == 1 + leading_ws(b));
        lemma_leading_ws_le(b);
        lemma_words_skip_ws(s, a.len() + 1int);
        assert(s.skip(a.len() + 1int) =~= b);
        assert(a.skip(a.len() as int).len() == 0);
        assert(words(a) == Seq::<Seq<char>>::empty());
        assert(words(a) + words(b) =~= words(b));
    } else {
        let p = leading_ws(a) as int;
        let ta = a.skip(p);
        let ts = s.skip(p);
        assert(ts =~= ta + cb);
        assert(ta.len() > 0);
        assert(!is_ws(ta[0])) by {
            assert(ta[0] == a[p]);
            lemma_leading_ws_at(a);
        }
        lemma_leading_word_concat(ta, cb);
        lemma_leading_word_le(ta);
        let n = leading_word(ta) as int;
        assert(n >= 1);
        assert(ts.take(n) =~= ta.take(n));
        let rest = ta.skip(n);
        assert(ts.skip(n) =~= rest + seq![c] + b);
        lemma_words_split(rest, c, b);
        assert(words(a) == seq![ta.take(n)] + words(rest));
        assert(words(s) == seq![ts.take(n)] + words(ts.skip(n)));
        assert(words(s) =~= words(a) + words(b));
    }
}

/// The first character after the leading white space is not white space.
proof fn lemma_leading_ws_at(s: Seq<char>)
    ensures
        leading_ws(s) < s.len() ==> !is_ws(s[leading_ws(s) as int]),
    decreases s.len(),
{
    if s.len() > 0 && is_ws(s[0]) {
        lemma_leading_ws_at(s.drop_first());
        lemma_leading_ws_le(s.drop_first());
        if leading_ws(s) < s.len() {
            assert(s[leading_ws(s) as int] == s.drop_first()[leading_ws(s.drop_first()) as int]);
        }
    }
}

pub proof fn lemma_leading_ws_le(s: Seq<char>)
    ensures
        leading_ws(s) <= s.len(),
    decreases s.len(),
{
    if s.len() > 0 && is_ws(s[0]) {
        lemma_leading_ws_le(s.drop_first());
    }
}

pub proof fn lemma_leading_word_le(s: Seq<char>)
    ensures
        leading_word(s) <= s.len(),
    decreases s.len(),
{
    if s.len() > 0 && !is_ws(s[0]) {
        lemma_leading_word_le(s.drop_first());
    }
}

/// `leading_ws` seen through a white-space run `s[i..j]` that ends at a
/// non-white-space character (or the end).
proof fn lemma_leading_ws_run(s: Seq<char>, i: int, j: int)
    requires
        0 <= i <= j <= s.len(),
        forall|k: int| i <= k < j ==> is_ws(#[trigger] s[k]),
        j == s.len() || !is_ws(s[j]),
    ensures
        leading_ws(s.skip(i)) == j - i,
    decreases j - i,
{
    if i < j {
        lemma_leading_ws_run(s, i + 1, j);
        assert(s.skip(i).drop_first() =~= s.skip(i + 1));
    } else {
        if j < s.len() {
            assert(s.skip(i)[0] == s[j]);
        }
    }
}

/// `leading_word` seen through a word `s[i..j]` that ends at white space (or the end).
proof fn lemma_leading_word_run(s: Seq<char>, i: int, j: int)
    requires
        0 <= i <= j <= s.len(),
        forall|k: int| i <= k < j ==> !is_ws(#[trigger] s[k]),
        j == s.len() || is_ws(s[j]),
    ensures
        leading_word(s.skip(i)) == j - i,
    decreases j - i,
{
    if i < j {
        lemma_leading_word_run(s, i + 1, j);
        assert(s.skip(i).drop_first() =~= s.skip(i + 1));
    } else {
        if j < s.len() {
            assert(s.skip(i)[0] == s[j]);
        }
    }
}

/// The white-space separated words of `cs`, in order (`str::split_whitespace`).
pub fn split_words(cs: &Vec<char>) -> (r: Vec<Vec<char>>)
    ensures
        r@.len() == words(cs@).len(),
        forall|k: int| 0 <= k < r@.len() ==> #[trigger] r@[k]@ == words(cs@)[k],
{
    let ghost s = cs@;
    let mut out: Vec<Vec<char>> = Vec::new();
    let ghost mut done: Seq<Seq<char>> = Seq::empty();
    let mut i: usize = 0;
    assert(s.skip(0) =~= s);
    assert(done + words(s) =~= words(s));
    while i < cs.len()
        invariant
            s == cs@,
            0 <= i <= s.len(),
            out@.len() == done.len(),
            forall|k: int| 0 <= k < out@.len() ==> #[trigger] out@[k]@ == done[k],
            words(s) == done + words(s.skip(i as int)),
        decreases s.len() - i,
    {
        let start = i;
        let mut j: usize = i;
        while j < cs.len() && is_whitespace(cs[j])
            invariant
                s == cs@,
                start <= j <= s.len(),
                forall|k: int| start <= k < j ==> is_ws(#[trigger] s[k]),
            decreases s.len() - j,
        {
            j = j + 1;
        }
        proof {
            lemma_leading_ws_run(s, start as int, j as int);
            assert(s.skip(start as int).skip((j - start) as int) =~= s.skip(j as int));
        }
        if j == cs.len() {
            proof {
                assert(s.skip(j as int).len() == 0);
                assert(words(s.skip(start as int)) == Seq::<Seq<char>>::empty());
                assert(done + Seq::<Seq<char>>::empty() =~= done);
            }
            i = j;
            assert(s.skip(i as int).len() == 0);
            assert(words(s.skip(i as int)) == Seq::<Seq<char>>::empty());
        } else {
            let mut k: usize = j;
            let mut word: Vec<char> = Vec::new();
            while k < cs.len() && !is_whitespace(cs[k])
                invariant
                    s == cs@,
                    j <= k <= s.len(),
                    forall|m: int| j <= m < k ==> !is_ws(#[trigger] s[m]),
                    word@ =~= s.subrange(j as int, k as int),
                decreases s.len() - k,
            {
                word.push(cs[k]);
                k = k + 1;
            }
            proof {
                lemma_leading_word_run(s, j as int, k as int);
                let t = s.skip(j as int);
                assert(t.take((k - j) as int) =~= s.subrange(j as int, k as int));
                assert(t.skip((k - j) as int) =~= s.skip(k as int));
                assert(!is_ws(s[j as int]));
                assert(k > j);
                done = done.push(word@);
                assert(words(s.skip(start as int)) == seq![t.take((k - j) as int)] + words(
                    s.skip(k as int),
                ));
            }
            out.push(word);
            i = k;
            proof {
                assert(words(s) =~= done + words(s.skip(i as int)));
            }
        }
    }
    proof {
        assert(s.skip(i as int).len() == 0);
        assert(words(s.skip(i as int)) == Seq::<Seq<char>>::empty());
        assert(words(s) =~= done);
    }
    out
}

/// Number of trailing white-space characters of `s`.
pub open spec fn trailing_ws(s: Seq<char>) -> nat
    decreases s.len(),
{
    if s.len() > 0 && is_ws(s.last()) {
        1 + trailing_ws(s.drop_last())
    } else {
        0
    }
}

/// `s` without its leading and trailing white space (`str::trim`).
pub open spec fn trim(s: Seq<char>) -> Seq<char> {
    let t = s.skip(leading_ws(s) as int);
    t.take(t.len() - trailing_ws(t))
}

/// The bounds `(a, b)` of the trimmed part of `cs[from..to]`.
pub fn trim_bounds(cs: &Vec<char>, from: usize, to: usize) -> (r: (usize, usize))
    requires
        from <= to <= cs@.len(),
    ensures
        from <= r.0 <= r.1 <= to,
        cs@.subrange(r.0 as int, r.1 as int) == trim(cs@.subrange(from as int, to as int)),
{
    let ghost s = cs@.subrange(from as int, to as int);
    let mut i = from;
    while i < to && is_whitespace(cs[i])
        invariant
            from <= i <= to <= cs@.len(),
            s == cs@.subrange(from as int, to as int),
            leading_ws(s) == (i - from) + leading_ws(cs@.subrange(i as int, to as int)),
        decreases to - i,
    {
        proof {
            let u = cs@.subrange(i as int, to as int);
            assert(u[0] == cs@[i as int]);
            assert(u.drop_first() =~= cs@.subrange(i + 1, to as int));
        }
        i = i + 1;
    }
    proof {
        let u = cs@.subrange(i as int, to as int);
        if i < to {
            assert(u[0] == cs@[i as int]);
        }
        assert(leading_ws(u) == 0);
        assert(s.skip(leading_ws(s) as int) =~= u);
    }
    let ghost t = cs@.subrange(i as int, to as int);
    let mut j = to;
    while j > i && is_whitespace(cs[j - 1])
        invariant
            from <= i <= j <= to <= cs@.len(),
            t == cs@.subrange(i as int, to as int),
            trailing_ws(t) == (to - j) + trailing_ws(cs@.subrange(i as int, j as int)),
        decreases j - i,
    {
        proof {
            let u = cs@.subrange(i as int, j as int);
            assert(u.last() == cs@[j - 1]);
            assert(u.drop_last() =~= cs@.subrange(i as int, j - 1));
        }
        j = j - 1;
    }
    proof {
        let u = cs@.subrange(i as int, j as int);
        if j > i {
            assert(u.last() == cs@[j - 1]);
        }
        assert(trailing_ws(u) == 0);
        assert(t.take(t.len() - trailing_ws(t)) =~= u);
    }
    (i, j)
}

/// An ASCII decimal digit.
pub open spec fn is_digit(c: char) -> bool {
    '0' <= c && c <= '9'
}

pub open spec fn all_digits(s: Seq<char>) -> bool {
    forall|i: int| 0 <= i < s.len() ==> is_digit(#[trigger] s[i])
}

/// The number that the decimal digits `s` spell.
pub open spec fn digits_value(s: Seq<char>) -> int
    decreases s.len(),
{
    if s.len() == 0 {
        0
    } else {
        digits_value(s.drop_last()) * 10 + (s.last() as int - '0' as int)
    }
}

proof fn lemma_digits_value_nonneg(s: Seq<char>)
    requires
        all_digits(s),
    ensures
        digits_value(s) >= 0,
    decreases s.len(),
{
    if s.len() > 0 {
        assert(all_digits(s.drop_last()));
        lemma_digits_value_nonneg(s.drop_last());
        assert(is_digit(s[s.len() - 1]));
    }
}

/// The value of the non-empty run of digits `s`, when every character is a
/// digit and the value is at most `max`.
pub open spec fn spec_digits_upto(s: Seq<char>, max: int) -> Option<int> {
    if s.len() > 0 && all_digits(s) && digits_value(s) <= max {
        Some(digits_value(s))
    } else {
        None
    }
}

/// An unsigned decimal integer as Rust's integer `FromStr` reads it: an
/// optional `+`, then one or more digits, of value at most `max`.
pub open spec fn spec_parse_unsigned(s: Seq<char>, max: int) -> Option<int> {
    if s.len() > 0 && s[0] == '+' {
        spec_digits_upto(s.drop_first(), max)
    } else {
        spec_digits_upto(s, max)
    }
}

/// A signed decimal integer as Rust reads an `i16`: an optional `+` or `-`,
/// then one or more digits, within `-32768..=32767`.
pub open spec fn spec_parse_i16(s: Seq<char>) -> Option<i16> {
    if s.len() > 0 && s[0] == '-' {
        match spec_digits_upto(s.drop_first(), 32768) {
            Some(v) => Some((-v) as i16),
            None => None,
        }
    } else {
        match spec_parse_unsigned(s, 32767) {
            Some(v) => Some(v as i16),
            None => None,
        }
    }
}

/// The value of the digits `cs[a..b]` (see [`spec_digits_upto`]).
fn digits_in(cs: &Vec<char>, a: usize, b: usize, max: u32) -> (r: Option<u32>)
    requires
        a <= b <= cs@.len(),
        max <= 100_000,
    ensures
        r is Some <==> spec_digits_upto(cs@.subrange(a as int, b as int), max as int) is Some,
        r matches Some(v) ==> v <= max && spec_digits_upto(cs@.subrange(a as int, b as int), max as int)
            == Some(v as int),
{
    if a == b {
        return None;
    }
    let mut acc: u32 = 0;
    let mut over = false;
    let mut i = a;
    proof {
        assert(cs@.subrange(a as int, a as int) =~= Seq::<char>::empty());
    }
    while i < b
        invariant
            a <= i <= b <= cs@.len(),
            max <= 100_000,
            all_digits(cs@.subrange(a as int, i as int)),
            !over ==> acc == digits_value(cs@.subrange(a as int, i as int)) && acc <= max,
            over ==> digits_value(cs@.subrange(a as int, i as int)) > max,
        decreases b - i,
    {
        let c = cs[i];
        let ghost u = cs@.subrange(a as int, i + 1);
        proof {
            assert(u.drop_last() =~= cs@.subrange(a as int, i as int));
            assert(u.last() == c);
        }
        if !('0' <= c && c <= '9') {
            proof {
                assert(!is_digit(cs@.subrange(a as int, b as int)[i - a]));
            }
            return None;
        }
        proof {
            assert forall|k: int| 0 <= k < u.len() implies is_digit(#[trigger] u[k]) by {
                if k < u.len() - 1 {
                    assert(u[k] == cs@.subrange(a as int, i as int)[k]);
                }
            }
            lemma_digits_value_nonneg(cs@.subrange(a as int, i as int));
        }
        if !over {
            let d = (c as u32) - ('0' as u32);
            let next = acc * 10 + d;
            if next > max {
                over = true;
            } else {
                acc = next;
            }
        }
        i = i + 1;
    }
    if over {
        None
    } else {
        Some(acc)
    }
}

/// Rust's integer `FromStr` for an unsigned type of maximum `max` on `cs[a..b]`.
pub fn parse_unsigned_in(cs: &Vec<char>, a: usize, b: usize, max: u32) -> (r: Option<u32>)
    requires
        a <= b <= cs@.len(),
        max <= 100_000,
    ensures
        r is Some <==> spec_parse_unsigned(cs@.subrange(a as int, b as int), max as int) is Some,
        r matches Some(v) ==> v <= max && spec_parse_unsigned(cs@.subrange(a as int, b as int), max as int)
            == Some(v as int),
{
    if a < b && cs[a] == '+' {
        proof {
            assert(cs@.subrange(a as int, b as int).drop_first() =~= cs@.subrange(a + 1, b as int));
        }
        digits_in(cs, a + 1, b, max)
    } else {
        digits_in(cs, a, b, max)
    }
}

/// Rust's `i16::from_str` on `cs[a..b]`.
pub fn parse_i16_in(cs: &Vec<char>, a: usize, b: usize) -> (r: Option<i16>)
    requires
        a <= b <= cs@.len(),
    ensures
        r == spec_parse_i16(cs@.subrange(a as int, b as int)),
{
    if a < b && cs[a] == '-' {
        proof {
            assert(cs@.subrange(a as int, b as int).drop_first() =~= cs@.subrange(a + 1, b as int));
        }
        match digits_in(cs, a + 1, b, 32768) {
            Some(v) => {
                let m: i32 = 0i32 - (v as i32);
                Some(m as i16)
            },
            None => None,
        }
    } else {
        match parse_unsigned_in(cs, a, b, 32767) {
            Some(v) => Some(v as i16),
            None => None,
        }
    }
}

/// Whether `cs[a..b]` spells exactly `lit`.
pub fn range_matches(cs: &Vec<char>, a: usize, b: usize, lit: &str) -> (r: bool)
    requires
        a <= b <= cs@.len(),
    ensures
        r == (cs@.subrange(a as int, b as int) == lit@),
{
    let lc = chars_of(lit);
    if b - a != lc.len() {
        return false;
    }
    let mut i: usize = 0;
    while i < lc.len()
        invariant
            b - a == lc@.len(),
            a <= b <= cs@.len(),
            lc@ == lit@,
            0 <= i <= lc@.len(),
            forall|j: int| 0 <= j < i ==> cs@[a + j] == lc@[j],
        decreases lc@.len() - i,
    {
        if cs[a + i] != lc[i] {
            assert(cs@.subrange(a as int, b as int)[i as int] != lc@[i as int]);
            return false;
        }
        i = i + 1;
    }
    assert(cs@.subrange(a as int, b as int) =~= lc@);
    true
}

/// Index of the first `c` in `s`.
pub open spec fn first_index(s: Seq<char>, c: char) -> Option<nat>
    decreases s.len(),
{
    if s.len() == 0 {
        None
    } else if s[0] == c {
        Some(0)
    } else {
        match first_index(s.drop_first(), c) {
            Some(i) => Some(i + 1),
            None => None,
        }
    }
}

/// The index of the first `c` in `cs[a..b]`, counted from `a`, or `b` when
/// there is none.
pub fn find_char_in(cs: &Vec<char>, a: usize, b: usize, c: char) -> (r: usize)
    requires
        a <= b <= cs@.len(),
    ensures
        a <= r <= b,
        r < b ==> first_index(cs@.subrange(a as int, b as int), c) == Some((r - a) as nat),
        r == b ==> first_index(cs@.subrange(a as int, b as int), c) is None,
{
    let ghost t = cs@.subrange(a as int, b as int);
    let mut i = a;
    while i < b && cs[i] != c
        invariant
            a <= i <= b <= cs@.len(),
            t == cs@.subrange(a as int, b as int),
            first_index(t, c) == (match first_index(cs@.subrange(i as int, b as int), c) {
                Some(k) => Some((k + (i - a)) as nat),
                None => None,
            }),
        decreases b - i,
    {
        proof {
            let u = cs@.subrange(i as int, b as int);
            assert(u[0] == cs@[i as int]);
            assert(u.drop_first() =~= cs@.subrange(i + 1, b as int));
        }
        i = i + 1;
    }
    proof {
        let u = cs@.subrange(i as int, b as int);
        if i < b {
            assert(u[0] == cs@[i as int]);
        }
    }
    i
}

/// The pieces of `s` between separators `c` (`str::split`; never empty).
pub open spec fn split_on(s: Seq<char>, c: char) -> Seq<Seq<char>>
    decreases s.len(),
{
    if s.len() == 0 {
        seq![Seq::<char>::empty()]
    } else {
        let prev = split_on(s.drop_last(), c);
        if s.last() == c {
            prev.push(Seq::<char>::empty())
        } else {
            prev.update(prev.len() - 1, prev.last().push(s.last()))
        }
    }
}

pub proof fn lemma_split_on_nonempty(s: Seq<char>, c: char)
    ensures
        split_on(s, c).len() >= 1,
    decreases s.len(),
{
    if s.len() > 0 {
        lemma_split_on_nonempty(s.drop_last(), c);
    }
}

/// The pieces of `text[a..b]` between separators `sep`.
pub fn split_char_in(text: &str, cs: &Vec<char>, a: usize, b: usize, sep: char) -> (r: Vec<String>)
    requires
        cs@ == text@,
        a <= b <= cs@.len(),
    ensures
        r@.map_values(|x: String| x@) == split_on(cs@.subrange(a as int, b as int), sep),
{
    let mut out: Vec<String> = Vec::new();
    let mut start = a;
    let mut i = a;
    proof {
        assert(cs@.subrange(a as int, a as int) =~= Seq::<char>::empty());
        assert(out@.map_values(|x: String| x@).push(cs@.subrange(start as int, i as int)) =~= split_on(
            cs@.subrange(a as int, i as int),
            sep,
        ));
    }
    while i < b
        invariant
            cs@ == text@,
            a <= start <= i <= b <= cs@.len(),
            out@.map_values(|x: String| x@).push(cs@.subrange(start as int, i as int)) == split_on(
                cs@.subrange(a as int, i as int),
                sep,
            ),
        decreases b - i,
    {
        let ghost before = out@.map_values(|x: String| x@);
        proof {
            let u = cs@.subrange(a as int, i + 1);
            assert(u.drop_last() =~= cs@.subrange(a as int, i as int));
            assert(u.last() == cs@[i as int]);
            lemma_split_on_nonempty(cs@.subrange(a as int, i as int), sep);
        }
        if cs[i] == sep {
            out.push(String::from_str(text.substring_char(start, i)));
            proof {
                assert(out@.map_values(|x: String| x@) =~= before.push(cs@.subrange(start as int, i as int)));
                assert(cs@.subrange(i + 1, i + 1) =~= Seq::<char>::empty());
            }
            start = i + 1;
        } else {
            proof {
                assert(cs@.subrange(start as int, i + 1) =~= cs@.subrange(start as int, i as int).push(cs@[i as int]));
                assert(before.push(cs@.subrange(start as int, i + 1)) =~= before.push(
                    cs@.subrange(start as int, i as int),
                ).update(before.len() as int, cs@.subrange(start as int, i as int).push(cs@[i as int])));
            }
        }
        i = i + 1;
    }
    out.push(String::from_str(text.substring_char(start, b)));
    proof {
        let before = out@.drop_last().map_values(|x: String| x@);
        assert(out@.map_values(|x: String| x@) =~= out@.drop_last().map_values(|x: String| x@).push(
            cs@.subrange(start as int, b as int),
        ));
    }
    out
}

/// `text` with every `from` replaced by the single character of `to`.
pub fn replace_char(text: &str, from: char, to: &str) -> (r: String)
    requires
        to@.len() == 1,
    ensures
        r@ == text@.map_values(|c: char| if c == from { to@[0] } else { c }),
{
    let cs = chars_of(text);
    let mut out = String::new();
    let mut i: usize = 0;
    let ghost t = to@[0];
    proof {
        assert(to@ =~= seq![t]);
        assert(text@.take(0).map_values(|c: char| if c == from { t } else { c }) =~= Seq::<char>::empty());
    }
    while i < cs.len()
        invariant
            cs@ == text@,
            to@ == seq![t],
            0 <= i <= cs@.len(),
            out@ == text@.take(i as int).map_values(|c: char| if c == from { t } else { c }),
        decreases cs@.len() - i,
    {
        if cs[i] == from {
            out.append(to);
        } else {
            out.append(text.substring_char(i, i + 1));
        }
        proof {
            assert(text@.take(i + 1) =~= text@.take(i as int).push(text@[i as int]));
            assert(text@.subrange(i as int, i + 1) =~= seq![text@[i as int]]);
        }
        i = i + 1;
    }
    proof {
        assert(text@.take(text@.len() as int) =~= text@);
    }
    out
}

} // verus!
