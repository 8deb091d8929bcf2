//! Asset lookup keys: load paths are normalised (leading `./` and `/`
//! stripped) so bare and slash-prefixed paths name the same asset; a listing
//! under a prefix walks the whole tree, the prefix's directory, or the whole
//! tree narrowed to the prefix; listed paths use `/` separators. `DiskAssets`
//! names the dist directory read in dev mode.

use vstd::prelude::*;

use std::path::PathBuf;

use crate::text_util::chars_of;

verus! {

broadcast use vstd::string::group_string_axioms;

#[verifier::external_type_specification]
#[verifier::external_body]
pub struct ExPathBuf(PathBuf);

/// `s` with every leading repetition of `p` removed.
pub open spec fn strip_leading(s: Seq<char>, p: Seq<char>) -> Seq<char>
    decreases s.len(),
{
    if p.len() > 0 && s.len() >= p.len() && s.take(p.len() as int) == p {
        strip_leading(s.skip(p.len() as int), p)
    } else {
        s
    }
}

/// The asset key of a load path: leading `"./"` repetitions, then leading
/// `'/'` characters, removed.
pub open spec fn spec_normalize(path: Seq<char>) -> Seq<char> {
    strip_leading(strip_leading(path, "./"@), "/"@)
}

/// The asset key of a load path (`trim_start_matches("./")` then `trim_start_matches('/')`).
pub fn normalize(path: &str) -> (r: &str)
    ensures
        r@ == spec_normalize(path@),
{
    proof {
        reveal_strlit("./");
        reveal_strlit("/");
    }
    let cs = chars_of(path);
    let ghost s = cs@;
    let n = cs.len();
    let mut i: usize = 0;
    assert(s.skip(0) =~= s);
    while n >= 2 && i <= n - 2 && cs[i] == '.' && cs[i + 1] == '/'
        invariant
            s == cs@,
            n == s.len(),
            0 <= i <= n,
            strip_leading(s, "./"@) == strip_leading(s.skip(i as int), "./"@),
        decreases n - i,
    {
        proof {
            reveal_strlit("./");
            let t = s.skip(i as int);
            assert(t.take(2) =~= "./"@);
            assert(t.skip(2) =~= s.skip(i + 2));
        }
        i = i + 2;
    }
    proof {
        reveal_strlit("./");
        let t = s.skip(i as int);
        if t.len() >= 2 && t.take(2) == "./"@ {
            assert(t.take(2)[0] == t[0] && t.take(2)[1] == t[1]);
            assert("./"@[0] == '.' && "./"@[1] == '/');
            assert(t[0] == '.' && t[1] == '/');
            assert(s[i as int] == t[0]);
            assert(s[i + 1] == t[1]);
        }
        assert(strip_leading(s, "./"@) == t);
    }
    let ghost mid = s.skip(i as int);
    let start = i;
    while i < n && cs[i] == '/'
        invariant
            s == cs@,
            n == s.len(),
            start <= i <= n,
            mid == s.skip(start as int),
            strip_leading(mid, "/"@) == strip_leading(s.skip(i as int), "/"@),
        decreases n - i,
    {
        proof {
            reveal_strlit("/");
            let t = s.skip(i as int);
            assert(t.take(1) =~= "/"@);
            assert(t.skip(1) =~= s.skip(i + 1));
        }
        i = i + 1;
    }
    proof {
        reveal_strlit("/");
        let t = s.skip(i as int);
        if t.len() >= 1 && t.take(1) == "/"@ {
            assert(t.take(1)[0] == t[0]);
            assert("/"@[0] == '/');
            assert(t[0] == '/');
            assert(s[i as int] == t[0]);
        }
        assert(strip_leading(mid, "/"@) == t);
        assert(s.subrange(i as int, n as int) =~= t);
    }
    path.substring_char(i, n)
}

/// Whether `s` begins with `prefix`.
pub open spec fn has_prefix(s: Seq<char>, prefix: Seq<char>) -> bool {
    prefix.len() <= s.len() && s.take(prefix.len() as int) == prefix
}

/// Whether `s` begins with `prefix` (`str::starts_with`).
pub fn starts_with(s: &str, prefix: &str) -> (r: bool)
    ensures
        r == has_prefix(s@, prefix@),
{
    let a = chars_of(s);
    let b = chars_of(prefix);
    if b.len() > a.len() {
        return false;
    }
    let mut i: usize = 0;
    while i < b.len()
        invariant
            a@ == s@,
            b@ == prefix@,
            b@.len() <= a@.len(),
            0 <= i <= b@.len(),
            forall|k: int| 0 <= k < i ==> a@[k] == b@[k],
        decreases b@.len() - i,
    {
        if a[i] != b[i] {
            assert(a@.take(b@.len() as int)[i as int] != b@[i as int]);
            return false;
        }
        i = i + 1;
    }
    assert(a@.take(b@.len() as int) =~= b@);
    true
}

/// The paths of `paths` (in order) that begin with `prefix`.
pub open spec fn with_prefix(paths: Seq<Seq<char>>, prefix: Seq<char>) -> Seq<Seq<char>>
    decreases paths.len(),
{
    if paths.len() == 0 {
        paths
    } else {
        let rest = with_prefix(paths.drop_last(), prefix);
        if has_prefix(paths.last(), prefix) {
            rest.push(paths.last())
        } else {
            rest
        }
    }
}

/// Narrow an asset listing to the paths beginning with `prefix`.
pub fn retain_prefixed(paths: Vec<String>, prefix: &str) -> (r: Vec<String>)
    ensures
        r@.map_values(|p: String| p@) == with_prefix(paths@.map_values(|p: String| p@), prefix@),
{
    let ghost ps = paths@.map_values(|p: String| p@);
    let mut out: Vec<String> = Vec::new();
    let mut i: usize = 0;
    assert(ps.take(0) =~= Seq::<Seq<char>>::empty());
    assert(out@.map_values(|p: String| p@) =~= Seq::<Seq<char>>::empty());
    while i < paths.len()
        invariant
            ps == paths@.map_values(|p: String| p@),
            0 <= i <= paths@.len(),
            out@.map_values(|p: String| p@) == with_prefix(ps.take(i as int), prefix@),
        decreases paths@.len() - i,
    {
        proof {
            assert(ps.take(i + 1).drop_last() =~= ps.take(i as int));
            assert(ps.take(i + 1).last() == paths@[i as int]@);
        }
        if starts_with(paths[i].as_str(), prefix) {
            let ghost before = out@.map_values(|p: String| p@);
            out.push(paths[i].clone());
            assert(out@.map_values(|p: String| p@) =~= before.push(paths@[i as int]@));
        }
        i = i + 1;
    }
    assert(ps.take(paths@.len() as int) =~= ps);
    out
}

/// Dev-mode asset source reading the dist directory `root` on each load.
pub struct DiskAssets {
    pub root: PathBuf,
}

impl DiskAssets {
    pub fn new(root: PathBuf) -> (r: DiskAssets)
        ensures
            r.root == root,
    {
        DiskAssets { root }
    }
}

/// Which walk lists the assets under a path prefix.
#[derive(Debug, Clone, Copy, PartialEq, Eq, Structural)]
pub enum ListingPlan {
    /// Every asset of the tree.
    WholeTree,
    /// The assets under the directory the prefix names (paths stay
    /// relative to the dist root).
    Subtree,
    /// Every asset of the tree whose path starts with the prefix.
    FilteredTree,
}

/// How to list the assets under `prefix` (already normalised): an empty
/// prefix lists the whole tree, a prefix naming a directory lists that
/// directory's subtree, any other prefix (a partial path or file stem)
/// filters the whole tree.
pub fn listing_plan(prefix: &str, names_dir: bool) -> (r: ListingPlan)
    ensures
        r == (if prefix@.len() == 0 {
            ListingPlan::WholeTree
        } else if names_dir {
            ListingPlan::Subtree
        } else {
            ListingPlan::FilteredTree
        }),
{
    if prefix.is_empty() {
        ListingPlan::WholeTree
    } else if names_dir {
        ListingPlan::Subtree
    } else {
        ListingPlan::FilteredTree
    }
}

/// The listing for `plan`, given the paths its walk produced.
pub fn finish_listing(plan: ListingPlan, walked: Vec<String>, prefix: &str) -> (r: Vec<String>)
    ensures
        r@.map_values(|p: String| p@) == (if plan == ListingPlan::FilteredTree {
            with_prefix(walked@.map_values(|p: String| p@), prefix@)
        } else {
            walked@.map_values(|p: String| p@)
        }),
{
    match plan {
        ListingPlan::FilteredTree => retain_prefixed(walked, prefix),
        _ => walked,
    }
}

/// An asset path with `\` separators written as `/`, as `asset://` URLs use.
pub fn url_path(path: &str) -> (r: String)
    ensures
        r@ == path@.map_values(|c: char| if c == '\\' { '/' } else { c }),
{
    proof {
        reveal_strlit("/");
        assert("/"@ =~= seq!['/']);
    }
    crate::text_util::replace_char(path, '\\', "/")
}

} // verus!
