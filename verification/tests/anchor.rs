use gluxe::anchor::{floating_corners, side_direction, AnchorRegistry, Corner};
use gluxe::style_fields::{FloatingAlign, FloatingSide};
use Corner::{
    BottomCenter, BottomLeft, BottomRight, LeftCenter, RightCenter, TopCenter, TopLeft, TopRight,
};
use FloatingAlign::{Center, End, Start};
use FloatingSide::{Bottom, Left, Right, Top};

#[test]
fn floating_corners_all_combinations() {
    assert_eq!(floating_corners(Bottom, Start), (BottomLeft, TopLeft));
    assert_eq!(floating_corners(Bottom, Center), (BottomCenter, TopCenter));
    assert_eq!(floating_corners(Bottom, End), (BottomRight, TopRight));
    assert_eq!(floating_corners(Top, Start), (TopLeft, BottomLeft));
    assert_eq!(floating_corners(Top, Center), (TopCenter, BottomCenter));
    assert_eq!(floating_corners(Top, End), (TopRight, BottomRight));
    assert_eq!(floating_corners(Right, Start), (TopRight, TopLeft));
    assert_eq!(floating_corners(Right, Center), (RightCenter, LeftCenter));
    assert_eq!(floating_corners(Right, End), (BottomRight, BottomLeft));
    assert_eq!(floating_corners(Left, Start), (TopLeft, TopRight));
    assert_eq!(floating_corners(Left, Center), (LeftCenter, RightCenter));
    assert_eq!(floating_corners(Left, End), (BottomLeft, BottomRight));
}

#[test]
fn side_direction_axis_and_sign() {
    assert_eq!(side_direction(FloatingSide::Top), (0, -1));
    assert_eq!(side_direction(FloatingSide::Bottom), (0, 1));
    assert_eq!(side_direction(FloatingSide::Left), (-1, 0));
    assert_eq!(side_direction(FloatingSide::Right), (1, 0));
}

#[test]
fn anchors_resolve_by_name_to_last_painted_bounds() {
    let mut reg: AnchorRegistry<(f32, f32)> = AnchorRegistry::new();
    reg.register_name("menu".to_string(), 1);
    assert_eq!(reg.anchor_bounds("menu"), None);
    assert_eq!(reg.record_bounds(1, (10.0, 20.0)), None);
    assert_eq!(reg.anchor_bounds("menu"), Some(&(10.0, 20.0)));
    assert_eq!(reg.record_bounds(1, (11.0, 20.0)), Some((10.0, 20.0)));
    assert!(reg.has_bounds(1));
    // Last writer wins on duplicate names.
    reg.register_name("menu".to_string(), 2);
    reg.record_bounds(2, (0.0, 0.0));
    assert_eq!(reg.anchor_bounds("menu"), Some(&(0.0, 0.0)));
}

#[test]
fn evicting_an_anchor_drops_its_names_and_bounds() {
    let mut reg: AnchorRegistry<u8> = AnchorRegistry::new();
    reg.register_name("a".to_string(), 1);
    reg.register_name("b".to_string(), 1);
    reg.register_name("c".to_string(), 2);
    reg.record_bounds(1, 5);
    reg.record_bounds(2, 6);
    reg.evict(1);
    assert!(!reg.has_bounds(1));
    assert_eq!(reg.anchor_bounds("a"), None);
    assert_eq!(reg.anchor_bounds("b"), None);
    assert_eq!(reg.anchor_bounds("c"), Some(&6));
    reg.clear_name_for(2);
    assert_eq!(reg.anchor_bounds("c"), None);
    assert!(reg.has_bounds(2));
    reg.clear();
    assert!(!reg.has_bounds(2));
}
