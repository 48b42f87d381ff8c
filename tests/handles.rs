use simulo::handle::{Color, GameObject, HandleError, Material, ObjectState, Scene};

fn scene_with_material() -> (Scene<f32>, Material) {
    let mut scene = Scene::new(1.0f32);
    let material = Material::new(1.0, 0.5, 0.25, &mut scene).expect("material");
    (scene, material)
}

#[test]
fn fresh_object_reports_its_position() {
    let (mut scene, material) = scene_with_material();
    let h = GameObject::new(3.5, -2.0, &material, &mut scene).expect("object");
    assert_eq!(h.x(&scene), Ok(3.5));
    assert_eq!(h.y(&scene), Ok(-2.0));
    h.set_scale(&mut scene, 4.0, 4.0).expect("scale");
    let other = GameObject::new(0.0, 0.0, &material, &mut scene).expect("object");
    other.set_position(&mut scene, 9.0, 9.0).expect("move other");
    assert_eq!(h.x(&scene), Ok(3.5));
    assert_eq!(h.y(&scene), Ok(-2.0));
    h.set_position(&mut scene, 1.0, 2.0).expect("move");
    assert_eq!(h.x(&scene), Ok(1.0));
    assert_eq!(h.y(&scene), Ok(2.0));
}

#[test]
fn new_object_has_unit_box_and_material() {
    let (mut scene, material) = scene_with_material();
    let h = GameObject::new(10.0, 20.0, &material, &mut scene).expect("object");
    assert_eq!(
        scene.object(&h),
        Ok(ObjectState { x: 10.0, y: 20.0, scale_x: 1.0, scale_y: 1.0, material: material.id() })
    );
    assert_eq!(scene.unit(), 1.0);
}

#[test]
fn scale_then_move_scenario() {
    let mut scene = Scene::new(1.0f32);
    let material = Material::new(0.0, 1.0, 0.0, &mut scene).expect("material");
    let h = GameObject::new(10.0, 20.0, &material, &mut scene).expect("object");
    assert_eq!(h.set_scale(&mut scene, 5.0, 5.0), Ok(()));
    assert_eq!(h.set_position(&mut scene, 0.0, 0.0), Ok(()));
    assert_eq!(h.x(&scene), Ok(0.0));
    assert_eq!(h.y(&scene), Ok(0.0));
    let state = scene.object(&h).expect("live object");
    assert_eq!(state.scale_x, 5.0);
    assert_eq!(state.scale_y, 5.0);
}

#[test]
fn deleted_handle_copies_are_stale() {
    let (mut scene, material) = scene_with_material();
    let h1 = GameObject::new(7.0, 8.0, &material, &mut scene).expect("object");
    let h2 = h1;
    assert_eq!(h1.delete(&mut scene), Ok(()));
    assert_eq!(h2.x(&scene), Err(HandleError::Stale));
    assert_eq!(h2.y(&scene), Err(HandleError::Stale));
    assert_eq!(h2.set_position(&mut scene, 1.0, 1.0), Err(HandleError::Stale));
    assert_eq!(h2.set_scale(&mut scene, 2.0, 2.0), Err(HandleError::Stale));
    assert_eq!(h2.delete(&mut scene), Err(HandleError::Stale));
    assert_eq!(scene.object(&h2), Err(HandleError::Stale));
}

#[test]
fn reused_id_no_longer_maps_to_deleted_object() {
    let (mut scene, material) = scene_with_material();
    let h1 = GameObject::new(7.0, 8.0, &material, &mut scene).expect("object");
    let h2 = h1;
    h1.delete(&mut scene).expect("delete");
    let h3 = GameObject::new(-1.0, -1.0, &material, &mut scene).expect("object");
    assert_eq!(h3.id(), h1.id());
    assert_eq!(h2.x(&scene), Ok(-1.0));
    assert_ne!(h2.x(&scene), Ok(7.0));
    assert_ne!(h2.y(&scene), Ok(8.0));
}

#[test]
fn live_ids_are_distinct() {
    let (mut scene, material) = scene_with_material();
    let a = GameObject::new(0.0, 0.0, &material, &mut scene).expect("object");
    let b = GameObject::new(0.0, 0.0, &material, &mut scene).expect("object");
    let c = GameObject::new(0.0, 0.0, &material, &mut scene).expect("object");
    assert_ne!(a.id(), b.id());
    assert_ne!(b.id(), c.id());
    assert_ne!(a.id(), c.id());
    b.delete(&mut scene).expect("delete");
    let d = GameObject::new(0.0, 0.0, &material, &mut scene).expect("object");
    assert_eq!(d.id(), b.id());
    assert_eq!(a.x(&scene), Ok(0.0));
}

#[test]
fn unknown_material_is_refused() {
    let mut scene = Scene::new(1.0f32);
    let missing = Material::from_id(0);
    assert_eq!(
        GameObject::new(1.0, 1.0, &missing, &mut scene),
        Err(HandleError::UnknownMaterial)
    );
    assert_eq!(scene.material(&missing), Err(HandleError::UnknownMaterial));
}

#[test]
fn never_created_handle_is_stale() {
    let (scene, _) = scene_with_material();
    let h = GameObject::from_id(42);
    assert_eq!(h.id(), 42);
    assert_eq!(h.x(&scene), Err(HandleError::Stale));
}

#[test]
fn materials_are_numbered_in_creation_order() {
    let mut scene = Scene::new(1.0f32);
    let m0 = Material::new(1.0, 0.0, 0.0, &mut scene).expect("material");
    let m1 = Material::new(0.0, 1.0, 0.0, &mut scene).expect("material");
    assert_eq!(m0.id(), 0);
    assert_eq!(m1.id(), 1);
    assert_eq!(scene.material(&m1), Ok(Color { r: 0.0, g: 1.0, b: 0.0 }));
    assert_eq!(scene.material(&m0), Ok(Color { r: 1.0, g: 0.0, b: 0.0 }));
}
