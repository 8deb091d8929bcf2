//! `font-family` values: the token list of a string or array value (tokens
//! trimmed and unquoted, empty ones dropped), and generic-family expansion:
//! the CSS generic families (`sans-serif`, `serif`, `monospace`, `system-ui`)
//! are rewritten into the platform's default fonts, concrete names pass
//! through, and duplicates are dropped.

use vstd::prelude::*;

use crate::text_util::{
    ascii_lower_seq, chars_match, chars_of, lower_chars, split_char_in, split_on, str_eq, trim, trim_bounds,
};

verus! {

/// The platform whose default fonts a generic family expands to.
#[derive(Debug, Clone, Copy, PartialEq, Eq, Structural)]
pub enum Platform {
    Windows,
    MacOs,
    /// Linux and every other target.
    Other,
}

/// The CSS generic font families that are expanded to platform fonts.
#[derive(Debug, Clone, Copy, PartialEq, Eq, Structural)]
pub enum GenericFamily {
    SansSerif,
    Serif,
    Monospace,
    SystemUi,
}

impl GenericFamily {
    /// ASCII case-insensitive match against the four generic names.
    pub open spec fn spec_parse(token: Seq<char>) -> Option<GenericFamily> {
        let t = ascii_lower_seq(token);
        if t == "sans-serif"@ {
            Some(GenericFamily::SansSerif)
        } else if t == "serif"@ {
            Some(GenericFamily::Serif)
        } else if t == "monospace"@ {
            Some(GenericFamily::Monospace)
        } else if t == "system-ui"@ {
            Some(GenericFamily::SystemUi)
        } else {
            None
        }
    }

    /// Match a token against the generic families, ignoring ASCII case;
    /// `None` for a concrete family name.
    pub fn parse(token: &str) -> (r: Option<GenericFamily>)
        ensures
            r == Self::spec_parse(token@),
    {
        let cs = chars_of(token);
        let t = lower_chars(&cs);
        if chars_match(&t, "sans-serif") {
            Some(GenericFamily::SansSerif)
        } else if chars_match(&t, "serif") {
            Some(GenericFamily::Serif)
        } else if chars_match(&t, "monospace") {
            Some(GenericFamily::Monospace)
        } else if chars_match(&t, "system-ui") {
            Some(GenericFamily::SystemUi)
        } else {
            None
        }
    }

    /// Concrete font names for this generic on `platform`, best first.
    pub open spec fn spec_concrete(self, platform: Platform) -> Seq<Seq<char>> {
        match (self, platform) {
            (GenericFamily::SystemUi, _) => seq![".SystemUIFont"@],
            (GenericFamily::SansSerif, Platform::Windows) => seq!["Arial"@],
            (GenericFamily::Serif, Platform::Windows) => seq!["Times New Roman"@],
            (GenericFamily::Monospace, Platform::Windows) => seq!["Consolas"@],
            (GenericFamily::SansSerif, Platform::MacOs) => seq!["Helvetica"@, "Arial"@],
            (GenericFamily::Serif, Platform::MacOs) => seq!["Times"@, "Times New Roman"@],
            (GenericFamily::Monospace, Platform::MacOs) => seq!["Menlo"@],
            (GenericFamily::SansSerif, Platform::Other) => seq![
                "DejaVu Sans"@,
                "Liberation Sans"@,
                "Noto Sans"@,
            ],
            (GenericFamily::Serif, Platform::Other) => seq![
                "DejaVu Serif"@,
                "Liberation Serif"@,
                "Noto Serif"@,
            ],
            (GenericFamily::Monospace, Platform::Other) => seq![
                "DejaVu Sans Mono"@,
                "Liberation Mono"@,
                "Noto Sans Mono"@,
            ],
        }
    }

    /// Concrete font names for this generic on `platform`, best first.
    pub fn concrete(self, platform: Platform) -> (r: Vec<&'static str>)
        ensures
            r@.map_values(|s: &str| s@) == self.spec_concrete(platform),
    {
        let r: Vec<&'static str> = match (self, platform) {
            (GenericFamily::SystemUi, _) => vec![".SystemUIFont"],
            (GenericFamily::SansSerif, Platform::Windows) => vec!["Arial"],
            (GenericFamily::Serif, Platform::Windows) => vec!["Times New Roman"],
            (GenericFamily::Monospace, Platform::Windows) => vec!["Consolas"],
            (GenericFamily::SansSerif, Platform::MacOs) => vec!["Helvetica", "Arial"],
            (GenericFamily::Serif, Platform::MacOs) => vec!["Times", "Times New Roman"],
            (GenericFamily::Monospace, Platform::MacOs) => vec!["Menlo"],
            (GenericFamily::SansSerif, Platform::Other) => vec![
                "DejaVu Sans",
                "Liberation Sans",
                "Noto Sans",
            ],
            (GenericFamily::Serif, Platform::Other) => vec![
                "DejaVu Serif",
                "Liberation Serif",
                "Noto Serif",
            ],
            (GenericFamily::Monospace, Platform::Other) => vec![
                "DejaVu Sans Mono",
                "Liberation Mono",
                "Noto Sans Mono",
            ],
        };
        assert(r@.map_values(|s: &str| s@) =~= self.spec_concrete(platform));
        r
    }
}

/// `out` with `name` appended unless it is already present.
pub open spec fn push_unique(out: Seq<Seq<char>>, name: Seq<char>) -> Seq<Seq<char>> {
    if out.contains(name) {
        out
    } else {
        out.push(name)
    }
}

/// `names` appended to `out` one by one, skipping those already present.
pub open spec fn add_names(out: Seq<Seq<char>>, names: Seq<Seq<char>>) -> Seq<Seq<char>>
    decreases names.len(),
{
    if names.len() == 0 {
        out
    } else {
        push_unique(add_names(out, names.drop_last()), names.last())
    }
}

/// What one token contributes: its platform fonts when generic, else itself.
pub open spec fn token_names(token: Seq<char>, platform: Platform) -> Seq<Seq<char>> {
    match GenericFamily::spec_parse(token) {
        Some(g) => g.spec_concrete(platform),
        None => seq![token],
    }
}

/// The concrete font stack of a token list.
pub open spec fn spec_expand_chain(tokens: Seq<Seq<char>>, platform: Platform) -> Seq<Seq<char>>
    decreases tokens.len(),
{
    if tokens.len() == 0 {
        Seq::empty()
    } else {
        add_names(spec_expand_chain(tokens.drop_last(), platform), token_names(tokens.last(), platform))
    }
}

proof fn lemma_add_names_no_dup(out: Seq<Seq<char>>, names: Seq<Seq<char>>)
    requires
        out.no_duplicates(),
    ensures
        add_names(out, names).no_duplicates(),
    decreases names.len(),
{
    if names.len() > 0 {
        lemma_add_names_no_dup(out, names.drop_last());
        let o = add_names(out, names.drop_last());
        let x = names.last();
        if !o.contains(x) {
            let r = o.push(x);
            assert forall|i: int, j: int| 0 <= i < r.len() && 0 <= j < r.len() && i != j implies r[i]
                != r[j] by {
                if i == o.len() as int {
                    assert(o[j] == r[j]);
                    if r[j] == x {
                        assert(o.contains(x));
                    }
                } else if j == o.len() as int {
                    assert(o[i] == r[i]);
                    if r[i] == x {
                        assert(o.contains(x));
                    }
                }
            }
        }
    }
}

/// Every token's names in token order (generic families expanded).
pub open spec fn all_names(tokens: Seq<Seq<char>>, platform: Platform) -> Seq<Seq<char>>
    decreases tokens.len(),
{
    if tokens.len() == 0 {
        Seq::empty()
    } else {
        all_names(tokens.drop_last(), platform) + token_names(tokens.last(), platform)
    }
}

/// `s` keeping only the first occurrence of each name.
pub open spec fn dedup_first(s: Seq<Seq<char>>) -> Seq<Seq<char>>
    decreases s.len(),
{
    if s.len() == 0 {
        s
    } else {
        push_unique(dedup_first(s.drop_last()), s.last())
    }
}

proof fn lemma_add_names_dedup(a: Seq<Seq<char>>, b: Seq<Seq<char>>)
    ensures
        add_names(dedup_first(a), b) == dedup_first(a + b),
    decreases b.len(),
{
    if b.len() == 0 {
        assert(a + b =~= a);
    } else {
        lemma_add_names_dedup(a, b.drop_last());
        assert((a + b).drop_last() =~= a + b.drop_last());
        assert((a + b).last() == b.last());
    }
}

/// The expanded stack is the tokens' names (a generic family standing for
/// its platform fonts, any other token for itself) in order, each kept at
/// its first occurrence only.
pub proof fn lemma_expand_chain_first_occurrences(tokens: Seq<Seq<char>>, platform: Platform)
    ensures
        spec_expand_chain(tokens, platform) == dedup_first(all_names(tokens, platform)),
        spec_expand_chain(tokens, platform).no_duplicates(),
    decreases tokens.len(),
{
    lemma_expand_chain_no_dup(tokens, platform);
    if tokens.len() > 0 {
        lemma_expand_chain_first_occurrences(tokens.drop_last(), platform);
        lemma_add_names_dedup(all_names(tokens.drop_last(), platform), token_names(tokens.last(), platform));
    }
}

/// The expanded stack never lists a font twice.
pub proof fn lemma_expand_chain_no_dup(tokens: Seq<Seq<char>>, platform: Platform)
    ensures
        spec_expand_chain(tokens, platform).no_duplicates(),
    decreases tokens.len(),
{
    if tokens.len() > 0 {
        lemma_expand_chain_no_dup(tokens.drop_last(), platform);
        lemma_add_names_no_dup(
            spec_expand_chain(tokens.drop_last(), platform),
            token_names(tokens.last(), platform),
        );
    }
}

/// Append `name` to `out` unless an equal string is already there.
fn push_name(out: &mut Vec<String>, name: &str)
    ensures
        final(out)@.map_values(|s: String| s@) == push_unique(old(out)@.map_values(|s: String| s@), name@),
{
    let ghost names = out@.map_values(|s: String| s@);
    let mut i: usize = 0;
    while i < out.len()
        invariant
            names == out@.map_values(|s: String| s@),
            0 <= i <= out@.len(),
            forall|j: int| 0 <= j < i ==> names[j] != name@,
        decreases out@.len() - i,
    {
        if str_eq(out[i].as_str(), name) {
            assert(names[i as int] == name@);
            return;
        }
        i = i + 1;
    }
    assert(!names.contains(name@));
    out.push(String::from_str(name));
    assert(out@.map_values(|s: String| s@) =~= names.push(name@));
}

/// Expand a parsed token list into a concrete font stack for `platform`:
/// generic families become the platform's fonts, other names pass through
/// unchanged, and later duplicates are dropped (first occurrence order kept).
pub fn expand_chain(tokens: &[String], platform: Platform) -> (r: Vec<String>)
    ensures
        r@.map_values(|s: String| s@) == spec_expand_chain(tokens@.map_values(|s: String| s@), platform),
        r@.map_values(|s: String| s@).no_duplicates(),
{
    let ghost toks = tokens@.map_values(|s: String| s@);
    let mut out: Vec<String> = Vec::new();
    let mut i: usize = 0;
    assert(toks.take(0) =~= Seq::<Seq<char>>::empty());
    assert(out@.map_values(|s: String| s@) =~= Seq::<Seq<char>>::empty());
    while i < tokens.len()
        invariant
            toks == tokens@.map_values(|s: String| s@),
            0 <= i <= tokens@.len(),
            out@.map_values(|s: String| s@) == spec_expand_chain(toks.take(i as int), platform),
        decreases tokens@.len() - i,
    {
        proof {
            assert(toks.take(i + 1).drop_last() =~= toks.take(i as int));
            assert(toks.take(i + 1).last() == toks[i as int]);
        }
        let token = tokens[i].as_str();
        assert(token@ == toks[i as int]);
        let ghost start = out@.map_values(|s: String| s@);
        match GenericFamily::parse(token) {
            Some(generic) => {
                let names = generic.concrete(platform);
                let ghost ns = names@.map_values(|s: &str| s@);
                let mut k: usize = 0;
                assert(ns.take(0) =~= Seq::<Seq<char>>::empty());
                while k < names.len()
                    invariant
                        ns == names@.map_values(|s: &str| s@),
                        0 <= k <= names@.len(),
                        out@.map_values(|s: String| s@) == add_names(start, ns.take(k as int)),
                    decreases names@.len() - k,
                {
                    proof {
                        assert(ns.take(k + 1).drop_last() =~= ns.take(k as int));
                        assert(ns.take(k + 1).last() == ns[k as int]);
                    }
                    push_name(&mut out, names[k]);
                    k = k + 1;
                }
                assert(ns.take(names@.len() as int) =~= ns);
                assert(token_names(toks[i as int], platform) == ns);
            },
            None => {
                push_name(&mut out, token);
                let ghost one = seq![token@];
                assert(one.drop_last() =~= Seq::<Seq<char>>::empty());
                assert(add_names(start, one.drop_last()) == start);
                assert(add_names(start, one) == push_unique(start, token@));
                assert(token_names(toks[i as int], platform) == one);
            },
        }
        i = i + 1;
    }
    proof {
        assert(toks.take(tokens@.len() as int) =~= toks);
        lemma_expand_chain_no_dup(toks, platform);
    }
    out
}

/// One `font-family` token with the surrounding blanks and a single layer of
/// matching outer quotes (`'…'` or `"…"`) removed (blanks inside the quotes too).
pub open spec fn spec_clean_font_token(raw: Seq<char>) -> Seq<char> {
    let t = trim(raw);
    let u = if t.len() >= 2 && ((t[0] == '"' && t.last() == '"') || (t[0] == '\'' && t.last() == '\'')) {
        t.subrange(1, t.len() - 1)
    } else {
        t
    };
    trim(u)
}

/// Clean one `font-family` token (see [`spec_clean_font_token`]).
pub fn clean_font_token(raw: &str) -> (r: String)
    ensures
        r@ == spec_clean_font_token(raw@),
{
    let cs = chars_of(raw);
    proof {
        assert(cs@.subrange(0, cs@.len() as int) =~= raw@);
    }
    let (a, b) = trim_bounds(&cs, 0, cs.len());
    let ghost t = cs@.subrange(a as int, b as int);
    let (c, d) = if b - a >= 2 && ((cs[a] == '"' && cs[b - 1] == '"') || (cs[a] == '\'' && cs[b - 1] == '\'')) {
        proof {
            assert(t.subrange(1, t.len() - 1) =~= cs@.subrange(a + 1, b - 1));
        }
        trim_bounds(&cs, a + 1, b - 1)
    } else {
        trim_bounds(&cs, a, b)
    };
    String::from_str(raw.substring_char(c, d))
}

/// The cleaned, non-empty tokens of `tokens`, in order.
pub open spec fn clean_tokens(tokens: Seq<Seq<char>>) -> Seq<Seq<char>>
    decreases tokens.len(),
{
    if tokens.len() == 0 {
        Seq::empty()
    } else {
        let rest = clean_tokens(tokens.drop_last());
        let t = spec_clean_font_token(tokens.last());
        if t.len() > 0 {
            rest.push(t)
        } else {
            rest
        }
    }
}

/// `None` for an empty list, else the list.
pub open spec fn non_empty(tokens: Seq<Seq<char>>) -> Option<Seq<Seq<char>>> {
    if tokens.len() == 0 {
        None
    } else {
        Some(tokens)
    }
}

/// Clean each token and drop the empty ones.
fn clean_all(tokens: &Vec<String>) -> (r: Vec<String>)
    ensures
        r@.map_values(|s: String| s@) == clean_tokens(tokens@.map_values(|s: String| s@)),
{
    let ghost all = tokens@.map_values(|s: String| s@);
    let mut out: Vec<String> = Vec::new();
    let mut i: usize = 0;
    proof {
        assert(all.take(0) =~= Seq::<Seq<char>>::empty());
        assert(out@.map_values(|s: String| s@) =~= Seq::<Seq<char>>::empty());
    }
    while i < tokens.len()
        invariant
            0 <= i <= tokens@.len(),
            all == tokens@.map_values(|s: String| s@),
            out@.map_values(|s: String| s@) == clean_tokens(all.take(i as int)),
        decreases tokens@.len() - i,
    {
        let t = clean_font_token(tokens[i].as_str());
        let ghost before = out@.map_values(|s: String| s@);
        proof {
            assert(all.take(i + 1).drop_last() =~= all.take(i as int));
            assert(all.take(i + 1).last() == tokens@[i as int]@);
        }
        if !t.as_str().is_empty() {
            out.push(t);
            proof {
                assert(out@.map_values(|s: String| s@) =~= before.push(out@.last()@));
            }
        }
        i = i + 1;
    }
    proof {
        assert(all.take(tokens@.len() as int) =~= all);
    }
    out
}

/// The `fontFamily` list of a string value: split at commas, each token
/// cleaned, empty ones dropped; `None` when nothing is left.
pub fn font_family_from_str(value: &str) -> (r: Option<Vec<String>>)
    ensures
        match non_empty(clean_tokens(split_on(value@, ','))) {
            Some(ts) => r matches Some(v) && v@.map_values(|s: String| s@) == ts,
            None => r is None,
        },
{
    let cs = chars_of(value);
    proof {
        assert(cs@.subrange(0, cs@.len() as int) =~= value@);
    }
    let parts = split_char_in(value, &cs, 0, cs.len(), ',');
    let tokens = clean_all(&parts);
    if tokens.len() == 0 {
        None
    } else {
        Some(tokens)
    }
}

/// The `fontFamily` list of an array value: one token per string element
/// (commas inside an element are kept), cleaned, empty ones dropped; `None`
/// when nothing is left.
pub fn font_family_from_items(items: &Vec<String>) -> (r: Option<Vec<String>>)
    ensures
        match non_empty(clean_tokens(items@.map_values(|s: String| s@))) {
            Some(ts) => r matches Some(v) && v@.map_values(|s: String| s@) == ts,
            None => r is None,
        },
{
    let tokens = clean_all(items);
    if tokens.len() == 0 {
        None
    } else {
        Some(tokens)
    }
}

} // verus!
