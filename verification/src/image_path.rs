//! Local image sources: a `file://` URL names a file through the `url`
//! crate's parse (Windows drive paths, percent-encoding, a host part); a
//! `file://` source that does not parse is used as a path with the scheme
//! stripped; any other source is a path as it stands.

use vstd::prelude::*;

use std::path::PathBuf;

use crate::assets::{has_prefix, starts_with, strip_leading};
use crate::text_util::{chars_of, range_matches};

verus! {

broadcast use vstd::string::group_string_axioms;

#[verifier::external_type_specification]
#[verifier::external_body]
pub struct ExUrl(url::Url);

/// `url::Url::parse`: the URL, or `None` where it is not one. Nothing is
/// claimed of which strings parse.
#[verifier::external_body]
fn parse_url(src: &str) -> Option<url::Url> {
    url::Url::parse(src).ok()
}

/// `url::Url::to_file_path`: the local path a `file:` URL names, or `None`.
/// Nothing is claimed of the path: it follows the platform's path rules.
#[verifier::external_body]
fn url_file_path(url: &url::Url) -> Option<PathBuf> {
    url.to_file_path().ok()
}

/// `s` with every leading `"file://"` removed (`trim_start_matches`).
pub fn strip_file_scheme(s: &str) -> (r: String)
    ensures
        r@ == strip_leading(s@, "file://"@),
{
    proof {
        reveal_strlit("file://");
    }
    let cs = chars_of(s);
    let ghost t = cs@;
    let n = cs.len();
    let mut i: usize = 0;
    assert(t.skip(0) =~= t);
    while n >= 7 && i <= n - 7 && range_matches(&cs, i, i + 7, "file://")
        invariant
            t == cs@,
            n == t.len(),
            0 <= i <= n,
            strip_leading(t, "file://"@) == strip_leading(t.skip(i as int), "file://"@),
        decreases n - i,
    {
        proof {
            reveal_strlit("file://");
            let u = t.skip(i as int);
            assert(u.take(7) =~= t.subrange(i as int, i + 7));
            assert(u.skip(7) =~= t.skip(i + 7));
        }
        i = i + 7;
    }
    proof {
        reveal_strlit("file://");
        let u = t.skip(i as int);
        if u.len() >= 7 && u.take(7) == "file://"@ {
            assert(u.take(7) =~= t.subrange(i as int, i + 7));
        }
        assert(strip_leading(t, "file://"@) == u);
        assert(t.subrange(i as int, n as int) =~= u);
    }
    s.substring_char(i, n).to_string()
}

/// Where a local image is read from.
#[derive(Debug)]
pub enum ImagePath {
    /// The path a `file://` URL names.
    FromUrl(PathBuf),
    /// A path given as text.
    Text(String),
}

/// The image path for `src`, given the path that the URL parse of `src`
/// yields (`None`: it does not parse, or names no local file): a `file://`
/// source takes that path, else the source without its scheme; any other
/// source is taken as it stands.
pub fn image_path_from(src: &str, url_path: Option<PathBuf>) -> (r: ImagePath)
    ensures
        has_prefix(src@, "file://"@) ==> match url_path {
            Some(p) => r == ImagePath::FromUrl(p),
            None => (r matches ImagePath::Text(t) && t@ == strip_leading(src@, "file://"@)),
        },
        !has_prefix(src@, "file://"@) ==> (r matches ImagePath::Text(t) && t@ == src@),
{
    if starts_with(src, "file://") {
        match url_path {
            Some(p) => ImagePath::FromUrl(p),
            None => ImagePath::Text(strip_file_scheme(src)),
        }
    } else {
        ImagePath::Text(src.to_string())
    }
}

/// Resolve an image `src` to a local path: `file://` URLs are parsed by the
/// `url` crate, falling back to stripping the scheme where that fails; bare
/// paths pass through.
pub fn local_image_path(src: &str) -> (r: ImagePath)
    ensures
        has_prefix(src@, "file://"@) ==> (r is FromUrl || (r matches ImagePath::Text(t) && t@
            == strip_leading(src@, "file://"@))),
        !has_prefix(src@, "file://"@) ==> (r matches ImagePath::Text(t) && t@ == src@),
{
    if starts_with(src, "file://") {
        let url_path = match parse_url(src) {
            Some(u) => url_file_path(&u),
            None => None,
        };
        image_path_from(src, url_path)
    } else {
        image_path_from(src, None)
    }
}

} // verus!
