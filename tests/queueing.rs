use bevylder::phase::PhaseItem;
use bevylder::queue::distance;
use bevylder::{
    extract_voxel_meshes, queue_voxel, queue_voxel_transparent, queue_wireframes, DepthAxis,
    ExtractedView, PhaseKind, Translation, Voxel, VoxelWireframeConfig, WorldEntity,
};

const AXIS: DepthAxis = DepthAxis { x: 0, y: 0, z: 1, w: 0 };

fn entity(id: u64, z: i32) -> WorldEntity {
    WorldEntity {
        entity: id,
        voxel: Some(Voxel { data: 1 }),
        translation: Translation { x: 0, y: 0, z },
        visible: true,
        not_shadow_receiver: false,
        not_shadow_caster: false,
        wireframe: false,
    }
}

fn view(visible: Vec<u64>) -> ExtractedView {
    ExtractedView { depth_axis: AXIS, visible_entities: visible }
}

fn distances(items: &[PhaseItem]) -> Vec<i128> {
    items.iter().map(|i| i.distance).collect()
}

fn entities(items: &[PhaseItem]) -> Vec<u64> {
    items.iter().map(|i| i.entity).collect()
}

#[test]
fn distance_along_the_view_axis() {
    let axis = DepthAxis { x: 2, y: -1, z: 3, w: -4 };
    assert_eq!(distance(&axis, &Translation { x: 1, y: 2, z: 7 }), 2 - 2 + 21 - 4);
    let far = DepthAxis { x: i32::MAX, y: i32::MAX, z: i32::MAX, w: i32::MAX };
    let t = Translation { x: i32::MAX, y: i32::MAX, z: i32::MAX };
    let m = i32::MAX as i128;
    assert_eq!(distance(&far, &t), 3 * m * m + m);
}

#[test]
fn queued_items_carry_pipeline_draw_function_and_distance() {
    let r = extract_voxel_meshes(&vec![entity(1, 4), entity(2, 9)]);
    let phases = queue_voxel(&r, &vec![view(vec![2, 1])], true, Some(40), 7);
    assert_eq!(phases.len(), 1);
    assert_eq!(phases[0].kind, PhaseKind::AlphaMask);
    assert_eq!(
        phases[0].items,
        vec![
            PhaseItem { entity: 2, pipeline: 40, draw_function: 7, distance: 9 },
            PhaseItem { entity: 1, pipeline: 40, draw_function: 7, distance: 4 },
        ]
    );
}

#[test]
fn entity_outside_a_view_is_not_queued_in_it() {
    let r = extract_voxel_meshes(&vec![entity(1, 1), entity(2, 2)]);
    let views = vec![view(vec![1, 2]), view(vec![2]), view(vec![])];
    let phases = queue_voxel(&r, &views, true, Some(0), 0);
    assert_eq!(entities(&phases[0].items), vec![1, 2]);
    assert_eq!(entities(&phases[1].items), vec![2]);
    assert!(phases[2].items.is_empty());
}

#[test]
fn visible_entity_without_record_is_skipped() {
    let mut hidden = entity(2, 2);
    hidden.visible = false;
    let r = extract_voxel_meshes(&vec![entity(1, 1), hidden]);
    let phases = queue_voxel(&r, &vec![view(vec![1, 2, 3])], true, Some(0), 0);
    assert_eq!(entities(&phases[0].items), vec![1]);
}

#[test]
fn nothing_is_queued_without_mesh_or_pipeline() {
    let r = extract_voxel_meshes(&vec![entity(1, 1)]);
    let views = vec![view(vec![1])];
    assert!(queue_voxel(&r, &views, false, Some(0), 0)[0].items.is_empty());
    assert!(queue_voxel(&r, &views, true, None, 0)[0].items.is_empty());
    let config = VoxelWireframeConfig { global: true };
    assert!(queue_wireframes(&r, &views, &config, true, None, 0)[0].items.is_empty());
    assert!(queue_wireframes(&r, &views, &config, false, Some(0), 0)[0].items.is_empty());
}

#[test]
fn wireframe_needs_marker_unless_global() {
    let mut world = vec![entity(1, 1), entity(2, 2)];
    let views = vec![view(vec![1, 2])];
    let off = VoxelWireframeConfig::default();
    assert!(!off.global);

    let phases = queue_wireframes(&extract_voxel_meshes(&world), &views, &off, true, Some(3), 5);
    assert_eq!(phases[0].kind, PhaseKind::Opaque);
    assert!(phases[0].items.is_empty());

    world[0].wireframe = true;
    let phases = queue_wireframes(&extract_voxel_meshes(&world), &views, &off, true, Some(3), 5);
    assert_eq!(
        phases[0].items,
        vec![PhaseItem { entity: 1, pipeline: 3, draw_function: 5, distance: 1 }]
    );

    let on = VoxelWireframeConfig { global: true };
    let phases = queue_wireframes(&extract_voxel_meshes(&world), &views, &on, true, Some(3), 5);
    assert_eq!(entities(&phases[0].items), vec![1, 2]);
    world[0].wireframe = false;
    let phases = queue_wireframes(&extract_voxel_meshes(&world), &views, &on, true, Some(3), 5);
    assert_eq!(entities(&phases[0].items), vec![1, 2]);
}

#[test]
fn phases_sort_by_distance_in_their_direction() {
    let r = extract_voxel_meshes(&vec![entity(1, 1), entity(2, 5), entity(3, 3)]);
    let views = vec![view(vec![1, 2, 3])];

    let mut transparent = queue_voxel_transparent(&r, &views, true, Some(0), 0);
    assert_eq!(transparent[0].kind, PhaseKind::Transparent);
    assert_eq!(distances(&transparent[0].items), vec![1, 5, 3]);
    transparent[0].sort();
    assert_eq!(distances(&transparent[0].items), vec![5, 3, 1]);
    assert_eq!(entities(&transparent[0].items), vec![2, 3, 1]);

    let mut alpha = queue_voxel(&r, &views, true, Some(0), 0);
    alpha[0].sort();
    assert_eq!(distances(&alpha[0].items), vec![1, 3, 5]);

    let mut world = vec![entity(1, 1), entity(2, 5), entity(3, 3)];
    for e in world.iter_mut() {
        e.wireframe = true;
    }
    let config = VoxelWireframeConfig { global: false };
    let mut opaque = queue_wireframes(&extract_voxel_meshes(&world), &views, &config, true, Some(0), 0);
    opaque[0].sort();
    assert_eq!(distances(&opaque[0].items), vec![1, 3, 5]);
}

#[test]
fn sort_keeps_queue_order_of_equal_distances() {
    let r = extract_voxel_meshes(&vec![entity(1, 2), entity(2, 1), entity(3, 2), entity(4, 1)]);
    let mut phases = queue_voxel(&r, &vec![view(vec![1, 2, 3, 4])], true, Some(0), 0);
    phases[0].sort();
    assert_eq!(entities(&phases[0].items), vec![2, 4, 1, 3]);
    let mut back = queue_voxel_transparent(&r, &vec![view(vec![1, 2, 3, 4])], true, Some(0), 0);
    back[0].sort();
    assert_eq!(entities(&back[0].items), vec![1, 3, 2, 4]);
}

#[test]
fn rerunning_a_frame_gives_the_same_phases() {
    let world = vec![entity(1, 1), entity(2, 5), entity(3, 3)];
    let views = vec![view(vec![3, 1]), view(vec![2])];
    let run = || {
        let r = extract_voxel_meshes(&world);
        let mut phases = queue_voxel(&r, &views, true, Some(9), 4);
        for p in phases.iter_mut() {
            p.sort();
        }
        phases.into_iter().map(|p| p.items).collect::<Vec<_>>()
    };
    let first = run();
    let second = run();
    assert_eq!(first, second);
    assert_eq!(entities(&first[0]), vec![1, 3]);
    assert_eq!(entities(&first[1]), vec![2]);
}
