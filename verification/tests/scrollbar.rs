use gluxe::scrollbar::{Axis, ScrollbarDrags, ThumbColors};

#[test]
fn drags_are_kept_per_container_and_axis() {
    let mut d: ScrollbarDrags<f32> = ScrollbarDrags::new();
    assert_eq!(d.drag_grab(1, Axis::Vertical), None);
    d.set_drag_grab(1, Axis::Vertical, 12.5);
    d.set_drag_grab(1, Axis::Horizontal, 3.0);
    d.set_drag_grab(2, Axis::Vertical, 7.0);
    assert_eq!(d.drag_grab(1, Axis::Vertical), Some(12.5));
    d.clear_drag_grab(1, Axis::Vertical);
    assert_eq!(d.drag_grab(1, Axis::Vertical), None);
    assert_eq!(d.drag_grab(1, Axis::Horizontal), Some(3.0));
    d.clear_scrollbar_drag_for(1);
    assert_eq!(d.drag_grab(1, Axis::Horizontal), None);
    assert_eq!(d.drag_grab(2, Axis::Vertical), Some(7.0));
    d.clear_scrollbar_drag();
    assert_eq!(d.drag_grab(2, Axis::Vertical), None);
}

#[test]
fn thumb_colour_falls_back_by_state() {
    let all = ThumbColors { base: 'b', hover: Some('h'), active: Some('a') };
    assert_eq!(all.pick(false, false), 'b');
    assert_eq!(all.pick(true, false), 'h');
    assert_eq!(all.pick(true, true), 'a');
    let no_active = ThumbColors { base: 'b', hover: Some('h'), active: None };
    assert_eq!(no_active.pick(false, true), 'h');
    let base_only = ThumbColors { base: 'b', hover: None, active: None };
    assert_eq!(base_only.pick(true, true), 'b');
    assert_eq!(base_only.pick(true, false), 'b');
}
