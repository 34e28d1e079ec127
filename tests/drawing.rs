use bevylder::draw::{MESH_BIND_GROUP, VIEW_BIND_GROUP, VOXEL_BIND_GROUP};
use bevylder::{
    draw_voxels, draw_wireframe, extract_voxel_meshes, DrawVoxel, GpuBufferInfo, GpuMesh,
    IndexFormat, PhaseItem, PreparedVoxels, PrimitiveTopology, RenderCommand, SetVoxelBindGroup,
    Translation, Voxel, VoxelMeta, WorldEntity,
};

fn indexed() -> GpuMesh {
    GpuMesh {
        vertex_buffer: 70,
        buffer_info: GpuBufferInfo::Indexed { buffer: 71, index_format: IndexFormat::Uint32, count: 36 },
        primitive_topology: PrimitiveTopology::TriangleList,
    }
}

fn plain() -> GpuMesh {
    GpuMesh {
        vertex_buffer: 80,
        buffer_info: GpuBufferInfo::NonIndexed { vertex_count: 24 },
        primitive_topology: PrimitiveTopology::TriangleList,
    }
}

fn entity(id: u64, data: u64) -> WorldEntity {
    WorldEntity {
        entity: id,
        voxel: Some(Voxel { data }),
        translation: Translation { x: 0, y: 0, z: 0 },
        visible: true,
        not_shadow_receiver: false,
        not_shadow_caster: false,
        wireframe: false,
    }
}

fn item(entity: u64) -> PhaseItem {
    PhaseItem { entity, pipeline: 12, draw_function: 1, distance: 0 }
}

#[test]
fn indexed_mesh_is_drawn_with_its_index_buffer() {
    let cmds = DrawVoxel::render(Some(&indexed())).unwrap();
    assert_eq!(
        cmds,
        vec![
            RenderCommand::SetVertexBuffer { slot: 0, buffer: 70 },
            RenderCommand::SetIndexBuffer { buffer: 71, offset: 0, index_format: IndexFormat::Uint32 },
            RenderCommand::DrawIndexed {
                indices_start: 0,
                indices_end: 36,
                base_vertex: 0,
                instances_start: 0,
                instances_end: 1,
            },
        ]
    );
}

#[test]
fn plain_mesh_is_drawn_by_vertices() {
    let cmds = DrawVoxel::render(Some(&plain())).unwrap();
    assert_eq!(
        cmds,
        vec![
            RenderCommand::SetVertexBuffer { slot: 0, buffer: 80 },
            RenderCommand::Draw { vertices_start: 0, vertices_end: 24, instances_start: 0, instances_end: 1 },
        ]
    );
}

#[test]
fn missing_mesh_fails_the_item() {
    assert!(DrawVoxel::render(None).is_none());
    assert!(draw_wireframe(&item(1), None).is_none());
}

#[test]
fn voxel_bind_group_needs_a_prepared_grid() {
    let mut cache = PreparedVoxels::new();
    assert_eq!(SetVoxelBindGroup::render(2, Some(Voxel { data: 5 }), &cache), None);
    assert_eq!(SetVoxelBindGroup::render(2, None, &cache), None);
    cache.insert(5, VoxelMeta { buffer: 50, bind_group: 51 });
    assert_eq!(
        SetVoxelBindGroup::render(2, Some(Voxel { data: 5 }), &cache),
        Some(RenderCommand::SetBindGroup { index: 2, bind_group: 51 })
    );
}

#[test]
fn voxel_item_binds_view_mesh_and_grid_then_draws() {
    let records = extract_voxel_meshes(&vec![entity(1, 5), entity(2, 5), entity(3, 6)]);
    let mut cache = PreparedVoxels::new();
    cache.insert(5, VoxelMeta { buffer: 50, bind_group: 51 });
    let mesh = indexed();
    let cmds = draw_voxels(&item(1), &records, &cache, Some(&mesh)).unwrap();
    assert_eq!(
        &cmds[0..4],
        &[
            RenderCommand::SetItemPipeline { pipeline: 12 },
            RenderCommand::SetViewBindGroup { index: VIEW_BIND_GROUP },
            RenderCommand::SetMeshBindGroup { index: MESH_BIND_GROUP },
            RenderCommand::SetBindGroup { index: VOXEL_BIND_GROUP, bind_group: 51 },
        ]
    );
    assert_eq!(cmds[4..].to_vec(), DrawVoxel::render(Some(&mesh)).unwrap());
    let shared = draw_voxels(&item(2), &records, &cache, Some(&mesh)).unwrap();
    assert_eq!(shared[3], RenderCommand::SetBindGroup { index: 2, bind_group: 51 });
    assert!(draw_voxels(&item(3), &records, &cache, Some(&mesh)).is_none());
    assert!(draw_voxels(&item(4), &records, &cache, Some(&mesh)).is_none());
    assert!(draw_voxels(&item(1), &records, &cache, None).is_none());
}

#[test]
fn wireframe_item_has_no_grid_binding() {
    let cmds = draw_wireframe(&item(1), Some(&plain())).unwrap();
    assert_eq!(
        cmds,
        vec![
            RenderCommand::SetItemPipeline { pipeline: 12 },
            RenderCommand::SetViewBindGroup { index: 0 },
            RenderCommand::SetMeshBindGroup { index: 1 },
            RenderCommand::SetVertexBuffer { slot: 0, buffer: 80 },
            RenderCommand::Draw { vertices_start: 0, vertices_end: 24, instances_start: 0, instances_end: 1 },
        ]
    );
}
