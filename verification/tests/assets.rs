use gluxe::assets::{finish_listing, listing_plan, normalize, retain_prefixed, url_path, ListingPlan};

#[test]
fn normalize_strips_dot_slash_then_slashes() {
    assert_eq!(normalize("./img/a.png"), "img/a.png");
    assert_eq!(normalize("/img/a.png"), "img/a.png");
    assert_eq!(normalize("././//img"), "img");
    assert_eq!(normalize("img/./a"), "img/./a");
    assert_eq!(normalize(""), "");
}

#[test]
fn listing_plan_by_prefix() {
    assert_eq!(listing_plan("", true), ListingPlan::WholeTree);
    assert_eq!(listing_plan("", false), ListingPlan::WholeTree);
    assert_eq!(listing_plan("assets", true), ListingPlan::Subtree);
    assert_eq!(listing_plan("assets/ic", false), ListingPlan::FilteredTree);
}

#[test]
fn filtered_listing_keeps_prefixed_paths_in_order() {
    let walked = vec!["assets/icon.png".to_string(), "index.html".to_string(), "assets/ico.svg".to_string()];
    assert_eq!(
        finish_listing(ListingPlan::FilteredTree, walked.clone(), "assets/ic"),
        vec!["assets/icon.png".to_string(), "assets/ico.svg".to_string()]
    );
    assert_eq!(finish_listing(ListingPlan::WholeTree, walked.clone(), "assets/ic"), walked);
    assert_eq!(retain_prefixed(walked, "zzz"), Vec::<String>::new());
}

#[test]
fn url_path_uses_forward_slashes() {
    assert_eq!(url_path("assets\\img\\a.png"), "assets/img/a.png");
    assert_eq!(url_path("a/b"), "a/b");
}
