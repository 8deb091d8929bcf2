use gluxe::anim::{
    field_id_from_name, transition_easing, transition_property, ActiveTransitions, Easing, FieldId,
    PropertyValue, TransitionProperty,
};

#[test]
fn parse_known_keywords() {
    assert_eq!(Easing::parse("linear"), Some(Easing::Linear));
    assert_eq!(Easing::parse("ease"), Some(Easing::Ease));
    assert_eq!(Easing::parse("ease-in"), Some(Easing::EaseIn));
    assert_eq!(Easing::parse("ease-out"), Some(Easing::EaseOut));
    assert_eq!(Easing::parse("ease-in-out"), Some(Easing::EaseInOut));
    assert_eq!(Easing::parse("bounce"), None);
}

#[test]
fn name_lookup() {
    assert_eq!(field_id_from_name("width"), Some(FieldId::width));
    assert_eq!(
        field_id_from_name("backgroundColor"),
        Some(FieldId::background_color)
    );
    assert_eq!(field_id_from_name("opacity"), Some(FieldId::opacity));
    // Known style props that are not animatable:
    assert_eq!(field_id_from_name("display"), None);
    assert_eq!(field_id_from_name("boxShadow"), None);
    assert_eq!(field_id_from_name("nonsense"), None);
}

#[test]
fn transitions_are_tracked_per_element_and_field() {
    let mut a = ActiveTransitions::new();
    assert!(!a.has_active());
    a.set_field(1, FieldId::width, 10u32);
    a.set_field(1, FieldId::opacity, 20);
    // Restarting width keeps opacity's transition and its position.
    a.set_field(1, FieldId::width, 11);
    assert_eq!(a.node_entries(1), Some(&vec![(FieldId::width, 11), (FieldId::opacity, 20)]));
    a.remove_field(1, FieldId::width);
    assert_eq!(a.node_entries(1), Some(&vec![(FieldId::opacity, 20)]));
    a.remove_field(1, FieldId::opacity);
    assert_eq!(a.node_entries(1), None);
    assert!(!a.has_active());
}

#[test]
fn finished_transitions_are_dropped_and_nodes_removed() {
    let mut a = ActiveTransitions::new();
    a.set_field(2, FieldId::width, 'a');
    a.set_field(2, FieldId::height, 'b');
    a.set_field(3, FieldId::opacity, 'c');
    a.retain_node_entries(2, &vec![false, true]);
    assert_eq!(a.node_entries(2), Some(&vec![(FieldId::height, 'b')]));
    a.retain_node_entries(3, &vec![false]);
    assert_eq!(a.node_entries(3), None);
    assert!(a.has_active());
    a.remove_node(2);
    assert!(!a.has_active());
    a.set_field(4, FieldId::width, 'd');
    a.clear();
    assert!(!a.has_active());
}

#[test]
fn transition_property_defaults_to_all() {
    assert_eq!(transition_property(&PropertyValue::Absent), Some(TransitionProperty::All));
    assert_eq!(
        transition_property(&PropertyValue::Text("all".to_string())),
        Some(TransitionProperty::All)
    );
}

#[test]
fn transition_property_names_an_animatable_field() {
    assert_eq!(
        transition_property(&PropertyValue::Text("width".to_string())),
        Some(TransitionProperty::Field(FieldId::width))
    );
    assert_eq!(transition_property(&PropertyValue::Text("display".to_string())), None);
    assert_eq!(transition_property(&PropertyValue::Other), None);
}

#[test]
fn transition_easing_defaults_to_ease() {
    assert_eq!(transition_easing(None), Easing::Ease);
    assert_eq!(transition_easing(Some("bounce")), Easing::Ease);
    assert_eq!(transition_easing(Some("linear")), Easing::Linear);
}

#[test]
fn node_ids_lists_each_animating_element_once() {
    let mut t: ActiveTransitions<u8> = ActiveTransitions::new();
    t.set_field(3, FieldId::width, 1);
    t.set_field(3, FieldId::height, 2);
    t.set_field(9, FieldId::width, 3);
    let mut ids = t.node_ids();
    ids.sort();
    assert_eq!(ids, vec![3, 9]);
    t.clear();
    assert!(t.node_ids().is_empty());
}
