use voxel_scene::collider::ObjectType;

#[test]
fn box_does_not_collide_with_box() {
    let a = ObjectType::Box;
    let b = ObjectType::Box;
    assert!(!a.should_generate_contacts(&b));
    assert!(!b.should_generate_contacts(&a));
}

#[test]
fn default_tag_is_box() {
    assert_eq!(ObjectType::default(), ObjectType::Box);
}

#[test]
fn contact_predicate_is_inequality() {
    let tags = [ObjectType::Box];
    for a in tags.iter() {
        for b in tags.iter() {
            assert_eq!(a.should_generate_contacts(b), a != b);
            assert_eq!(a.should_generate_contacts(b), b.should_generate_contacts(a));
        }
    }
}
