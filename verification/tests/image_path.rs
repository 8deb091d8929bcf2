use gluxe::image_path::{image_path_from, local_image_path, strip_file_scheme, ImagePath};
use std::path::PathBuf;

#[test]
fn file_url_is_parsed_to_a_path() {
    match local_image_path("file:///tmp/pic%20one.png") {
        ImagePath::FromUrl(p) => assert_eq!(p, PathBuf::from("/tmp/pic one.png")),
        other => panic!("expected a URL path, got {other:?}"),
    }
}

#[test]
fn bare_path_passes_through() {
    match local_image_path("assets/logo.png") {
        ImagePath::Text(t) => assert_eq!(t, "assets/logo.png"),
        other => panic!("expected a text path, got {other:?}"),
    }
}

#[test]
fn unparsable_file_url_strips_the_scheme() {
    match local_image_path("file://[bad/x.png") {
        ImagePath::Text(t) => assert_eq!(t, "[bad/x.png"),
        other => panic!("expected a text path, got {other:?}"),
    }
}

#[test]
fn image_path_from_prefers_the_parsed_path() {
    match image_path_from("file:///a", Some(PathBuf::from("/a"))) {
        ImagePath::FromUrl(p) => assert_eq!(p, PathBuf::from("/a")),
        other => panic!("unexpected {other:?}"),
    }
    match image_path_from("file://file://b", None) {
        ImagePath::Text(t) => assert_eq!(t, "b"),
        other => panic!("unexpected {other:?}"),
    }
    match image_path_from("c.png", Some(PathBuf::from("/ignored"))) {
        ImagePath::Text(t) => assert_eq!(t, "c.png"),
        other => panic!("unexpected {other:?}"),
    }
}

#[test]
fn scheme_strip_removes_every_leading_repeat() {
    assert_eq!(strip_file_scheme("file://file:///x"), "/x");
    assert_eq!(strip_file_scheme("x/file://"), "x/file://");
    assert_eq!(strip_file_scheme(""), "");
}
