//! Reading JSON configuration: a text is parsed by `serde_json` into a value,
//! and members are looked up along a key path and read as strings, booleans
//! or arrays. What each outside call gives is named; the lookups along a path
//! are stated over those names.

use vstd::prelude::*;

verus! {

/// The value `serde_json::from_str::<Value>` parses `text` to; `None` when
/// `text` is no JSON text.
pub uninterp spec fn json_parse(text: Seq<char>) -> Option<serde_json::Value>;

/// `Value::get(key)`: the member `key` of an object; `None` for a missing key
/// or a value that is no object.
pub uninterp spec fn json_member(v: serde_json::Value, key: Seq<char>) -> Option<serde_json::Value>;

/// `Value::as_str`: the text of a JSON string; `None` for any other value.
pub uninterp spec fn json_str(v: serde_json::Value) -> Option<Seq<char>>;

/// `Value::as_bool`: a JSON boolean; `None` for any other value.
pub uninterp spec fn json_bool(v: serde_json::Value) -> Option<bool>;

/// `Value::as_array`: the items of a JSON array; `None` for any other value.
pub uninterp spec fn json_items(v: serde_json::Value) -> Option<Seq<serde_json::Value>>;

/// `serde_json::from_str::<Value>(text)`, as named by [`json_parse`].
#[verifier::external_body]
pub(crate) fn parse_json(text: &str) -> (r: Option<serde_json::Value>)
    ensures
        r == json_parse(text@),
{
    serde_json::from_str::<serde_json::Value>(text).ok()
}

/// `v.get(key)`, as named by [`json_member`].
#[verifier::external_body]
fn json_get<'a>(v: &'a serde_json::Value, key: &str) -> (r: Option<&'a serde_json::Value>)
    ensures
        match r {
            Some(w) => json_member(*v, key@) == Some(*w),
            None => json_member(*v, key@) is None,
        },
{
    v.get(key)
}

/// `v.as_str()`, as named by [`json_str`].
#[verifier::external_body]
fn json_as_str(v: &serde_json::Value) -> (r: Option<String>)
    ensures
        match r {
            Some(s) => json_str(*v) == Some(s@),
            None => json_str(*v) is None,
        },
{
    match v.as_str() {
        Some(s) => Some(s.to_string()),
        None => None,
    }
}

/// `v.as_bool()`, as named by [`json_bool`].
#[verifier::external_body]
fn json_as_bool(v: &serde_json::Value) -> (r: Option<bool>)
    ensures
        r == json_bool(*v),
{
    v.as_bool()
}

/// `v.as_array()`, as named by [`json_items`].
#[verifier::external_body]
fn json_as_array(v: &serde_json::Value) -> (r: Option<&Vec<serde_json::Value>>)
    ensures
        match r {
            Some(a) => json_items(*v) == Some(a@),
            None => json_items(*v) is None,
        },
{
    v.as_array()
}

/// `v.clone()`: the same value.
#[verifier::external_body]
pub(crate) fn json_clone(v: &serde_json::Value) -> (r: serde_json::Value)
    ensures
        r == *v,
{
    v.clone()
}

/// The value at the end of the key path `path` from `v`.
pub open spec fn member_at(v: serde_json::Value, path: Seq<Seq<char>>) -> Option<serde_json::Value>
    decreases path.len(),
{
    if path.len() == 0 {
        Some(v)
    } else {
        match json_member(v, path[0]) {
            Some(w) => member_at(w, path.drop_first()),
            None => None,
        }
    }
}

/// A one-key path is the member itself.
pub proof fn lemma_member_at_single(v: serde_json::Value, key: Seq<char>)
    ensures
        member_at(v, seq![key]) == json_member(v, key),
{
    assert(seq![key].drop_first() =~= Seq::<Seq<char>>::empty());
    match json_member(v, key) {
        Some(w) => {
            assert(member_at(w, Seq::<Seq<char>>::empty()) == Some(w));
        },
        None => {},
    }
}

/// The string at the end of the key path `path` from `v`.
pub open spec fn str_at(v: serde_json::Value, path: Seq<Seq<char>>) -> Option<Seq<char>> {
    match member_at(v, path) {
        Some(w) => json_str(w),
        None => None,
    }
}

/// The boolean at the end of the key path `path` from `v`.
pub open spec fn bool_at(v: serde_json::Value, path: Seq<Seq<char>>) -> Option<bool> {
    match member_at(v, path) {
        Some(w) => json_bool(w),
        None => None,
    }
}

/// The texts of the string items of `items`, in order (other items dropped).
pub open spec fn string_items(items: Seq<serde_json::Value>) -> Seq<Seq<char>>
    decreases items.len(),
{
    if items.len() == 0 {
        Seq::empty()
    } else {
        let rest = string_items(items.drop_last());
        match json_str(items.last()) {
            Some(s) => rest.push(s),
            None => rest,
        }
    }
}

/// The string items of the array at the end of the key path `path` from `v`;
/// `None` when no array is there.
pub open spec fn strings_at(v: serde_json::Value, path: Seq<Seq<char>>) -> Option<Seq<Seq<char>>> {
    match member_at(v, path) {
        Some(w) => match json_items(w) {
            Some(items) => Some(string_items(items)),
            None => None,
        },
        None => None,
    }
}

/// The texts of a list of keys.
pub open spec fn keys_view(path: Seq<&str>) -> Seq<Seq<char>> {
    path.map_values(|k: &str| k@)
}

/// The value at the end of the key path `path` from `v`.
pub fn lookup<'a>(v: &'a serde_json::Value, path: &[&str]) -> (r: Option<&'a serde_json::Value>)
    ensures
        match r {
            Some(w) => member_at(*v, keys_view(path@)) == Some(*w),
            None => member_at(*v, keys_view(path@)) is None,
        },
{
    let ghost p = keys_view(path@);
    let mut cur: &serde_json::Value = v;
    let mut i: usize = 0;
    assert(p.skip(0) =~= p);
    while i < path.len()
        invariant
            0 <= i <= path@.len(),
            p == keys_view(path@),
            member_at(*v, p) == member_at(*cur, p.skip(i as int)),
        decreases path@.len() - i,
    {
        let ghost rest = p.skip(i as int);
        assert(rest[0] == path@[i as int]@);
        assert(rest.drop_first() =~= p.skip(i + 1));
        match json_get(cur, path[i]) {
            Some(w) => {
                cur = w;
            },
            None => {
                return None;
            },
        }
        i = i + 1;
    }
    assert(p.skip(i as int).len() == 0);
    Some(cur)
}

/// The string at the end of the key path `path` from `v`.
pub fn string_at(v: &serde_json::Value, path: &[&str]) -> (r: Option<String>)
    ensures
        match r {
            Some(s) => str_at(*v, keys_view(path@)) == Some(s@),
            None => str_at(*v, keys_view(path@)) is None,
        },
{
    match lookup(v, path) {
        Some(w) => json_as_str(w),
        None => None,
    }
}

/// The boolean at the end of the key path `path` from `v`.
pub fn bool_at_path(v: &serde_json::Value, path: &[&str]) -> (r: Option<bool>)
    ensures
        r == bool_at(*v, keys_view(path@)),
{
    match lookup(v, path) {
        Some(w) => json_as_bool(w),
        None => None,
    }
}

/// The string items of the array at the end of the key path `path` from `v`,
/// in order; items that are no strings are dropped.
pub fn strings_at_path(v: &serde_json::Value, path: &[&str]) -> (r: Option<Vec<String>>)
    ensures
        match r {
            Some(a) => strings_at(*v, keys_view(path@)) == Some(a@.map_values(|s: String| s@)),
            None => strings_at(*v, keys_view(path@)) is None,
        },
{
    match lookup(v, path) {
        Some(w) => match json_as_array(w) {
            Some(items) => {
                let mut out: Vec<String> = Vec::new();
                let mut i: usize = 0;
                assert(items@.take(0) =~= Seq::<serde_json::Value>::empty());
                assert(out@.map_values(|s: String| s@) =~= Seq::<Seq<char>>::empty());
                while i < items.len()
                    invariant
                        0 <= i <= items@.len(),
                        out@.map_values(|s: String| s@) == string_items(items@.take(i as int)),
                    decreases items@.len() - i,
                {
                    proof {
                        assert(items@.take(i + 1).drop_last() =~= items@.take(i as int));
                        assert(items@.take(i + 1).last() == items@[i as int]);
                    }
                    match json_as_str(&items[i]) {
                        Some(s) => {
                            let ghost before = out@.map_values(|s: String| s@);
                            out.push(s);
                            assert(out@.map_values(|s: String| s@) =~= before.push(out@.last()@));
                        },
                        None => {},
                    }
                    i = i + 1;
                }
                assert(items@.take(items@.len() as int) =~= items@);
                Some(out)
            },
            None => None,
        },
        None => None,
    }
}

} // verus!
