use bevylder::extract::{NO_FLAGS, SHADOW_RECEIVER};
use bevylder::{extract_voxel_meshes, Translation, Voxel, VoxelBundle, WorldEntity};

fn entity(id: u64, x: i32, visible: bool) -> WorldEntity {
    WorldEntity {
        entity: id,
        voxel: Some(Voxel { data: 100 + id }),
        translation: Translation { x, y: 0, z: 0 },
        visible,
        not_shadow_receiver: false,
        not_shadow_caster: false,
        wireframe: false,
    }
}

#[test]
fn bundle_default_is_shown_but_not_yet_visible() {
    let b = VoxelBundle::default();
    assert_eq!(b.voxel, Voxel { data: 0 });
    assert_eq!(b.transform, Translation { x: 0, y: 0, z: 0 });
    assert_eq!(b.global_transform, Translation { x: 0, y: 0, z: 0 });
    assert!(b.visibility);
    assert!(!b.computed_visibility);
    let e = b.spawn(9);
    assert_eq!(e.entity, 9);
    assert_eq!(e.voxel, Some(Voxel { data: 0 }));
    assert!(!e.visible);
}

#[test]
fn hidden_entities_get_no_record() {
    let world = vec![entity(1, 0, true), entity(2, 5, false), entity(3, 7, true)];
    let r = extract_voxel_meshes(&world);
    let ids: Vec<u64> = r.casters.iter().map(|m| m.entity).collect();
    assert_eq!(ids, vec![1, 3]);
    assert!(r.not_casters.is_empty());
    assert!(r.get(2).is_none());
    assert_eq!(r.get(3).unwrap().uniform.translation, Translation { x: 7, y: 0, z: 0 });
    assert_eq!(r.get(3).unwrap().voxel, Voxel { data: 103 });
}

#[test]
fn entities_without_voxel_get_no_record() {
    let mut plain = entity(4, 0, true);
    plain.voxel = None;
    let r = extract_voxel_meshes(&vec![plain]);
    assert!(r.casters.is_empty() && r.not_casters.is_empty());
    assert!(r.get(4).is_none());
}

#[test]
fn toggling_visibility_removes_then_restores_the_record() {
    let mut world = vec![entity(1, 0, true), entity(2, 5, true)];
    assert!(extract_voxel_meshes(&world).get(2).is_some());
    world[1].visible = false;
    assert!(extract_voxel_meshes(&world).get(2).is_none());
    world[1].visible = true;
    world[1].translation = Translation { x: -3, y: 4, z: 9 };
    let back = extract_voxel_meshes(&world).get(2).unwrap();
    assert_eq!(back.uniform.translation, Translation { x: -3, y: 4, z: 9 });
}

#[test]
fn shadow_markers_set_flags_and_batches() {
    let mut a = entity(1, 0, true);
    a.not_shadow_receiver = true;
    let mut b = entity(2, 0, true);
    b.not_shadow_caster = true;
    let c = entity(3, 0, true);
    let r = extract_voxel_meshes(&vec![a, b, c]);
    let casters: Vec<u64> = r.casters.iter().map(|m| m.entity).collect();
    let others: Vec<u64> = r.not_casters.iter().map(|m| m.entity).collect();
    assert_eq!(casters, vec![1, 3]);
    assert_eq!(others, vec![2]);
    assert_eq!(r.get(1).unwrap().uniform.flags, NO_FLAGS);
    assert_eq!(r.get(2).unwrap().uniform.flags, SHADOW_RECEIVER);
    assert_eq!(r.get(3).unwrap().uniform.flags, 1);
}

#[test]
fn wireframe_marker_is_carried_into_the_record() {
    let mut a = entity(1, 0, true);
    a.wireframe = true;
    let r = extract_voxel_meshes(&vec![a, entity(2, 0, true)]);
    assert!(r.get(1).unwrap().wireframe);
    assert!(!r.get(2).unwrap().wireframe);
}

#[test]
fn voxel_component_reaches_the_render_side_unchanged() {
    let v = Voxel { data: 42 };
    assert_eq!(v.extract_component(), Voxel { data: 42 });
}
