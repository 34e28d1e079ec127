//! The commands a queued voxel item is drawn with.
use vstd::prelude::*;

use crate::assets::PreparedVoxels;
use crate::extract::{find_record, ExtractedMeshes};
use crate::phase::PhaseItem;
use crate::pipeline::PrimitiveTopology;
use crate::voxel::Voxel;

verus! {

/// Bind group slot of the view.
pub const VIEW_BIND_GROUP: u32 = 0;

/// Bind group slot of the per-entity mesh uniform.
pub const MESH_BIND_GROUP: u32 = 1;

/// Bind group slot of the voxel grid.
pub const VOXEL_BIND_GROUP: u32 = 2;

/// Width of the indices of an index buffer.
#[derive(Clone, Copy, Debug, PartialEq, Eq, Structural)]
pub enum IndexFormat {
    Uint16,
    Uint32,
}

/// How a GPU mesh's vertices are drawn.
#[derive(Clone, Copy, Debug, PartialEq, Eq, Structural)]
pub enum GpuBufferInfo {
    Indexed { buffer: u64, index_format: IndexFormat, count: u32 },
    NonIndexed { vertex_count: u32 },
}

/// The shared cube mesh as it stands on the GPU.
#[derive(Clone, Copy, Debug, PartialEq, Eq, Structural)]
pub struct GpuMesh {
    pub vertex_buffer: u64,
    pub buffer_info: GpuBufferInfo,
    pub primitive_topology: PrimitiveTopology,
}

/// One command of a render pass. The first three stand for the engine's own
/// commands: bind the item's pipeline, the view bind group, the mesh bind group.
#[derive(Clone, Copy, Debug, PartialEq, Eq, Structural)]
pub enum RenderCommand {
    SetItemPipeline { pipeline: u64 },
    SetViewBindGroup { index: u32 },
    SetMeshBindGroup { index: u32 },
    SetBindGroup { index: u32, bind_group: u64 },
    SetVertexBuffer { slot: u32, buffer: u64 },
    SetIndexBuffer { buffer: u64, offset: u64, index_format: IndexFormat },
    /// Draws indices `indices_start..indices_end` of instances
    /// `instances_start..instances_end`.
    DrawIndexed {
        indices_start: u32,
        indices_end: u32,
        base_vertex: i32,
        instances_start: u32,
        instances_end: u32,
    },
    /// Draws vertices `vertices_start..vertices_end` of instances
    /// `instances_start..instances_end`.
    Draw { vertices_start: u32, vertices_end: u32, instances_start: u32, instances_end: u32 },
}

/// The commands that draw one instance of the mesh.
pub open spec fn mesh_draw(mesh: GpuMesh) -> Seq<RenderCommand> {
    let vertices = RenderCommand::SetVertexBuffer { slot: 0, buffer: mesh.vertex_buffer };
    match mesh.buffer_info {
        GpuBufferInfo::Indexed { buffer, index_format, count } => seq![
            vertices,
            RenderCommand::SetIndexBuffer { buffer: buffer, offset: 0, index_format: index_format },
            RenderCommand::DrawIndexed {
                indices_start: 0,
                indices_end: count,
                base_vertex: 0,
                instances_start: 0,
                instances_end: 1,
            },
        ],
        GpuBufferInfo::NonIndexed { vertex_count } => seq![
            vertices,
            RenderCommand::Draw {
                vertices_start: 0,
                vertices_end: vertex_count,
                instances_start: 0,
                instances_end: 1,
            },
        ],
    }
}

/// The commands that bind the item's pipeline, view and mesh uniform.
pub open spec fn item_prelude(item: PhaseItem) -> Seq<RenderCommand> {
    seq![
        RenderCommand::SetItemPipeline { pipeline: item.pipeline },
        RenderCommand::SetViewBindGroup { index: VIEW_BIND_GROUP },
        RenderCommand::SetMeshBindGroup { index: MESH_BIND_GROUP },
    ]
}

/// The bind group of the voxel grid behind `voxel`, when that grid is prepared.
pub open spec fn voxel_bind_group(
    voxel: Option<Voxel>,
    prepared: Map<u64, crate::assets::VoxelMeta>,
) -> Option<u64> {
    match voxel {
        Some(v) => if prepared.contains_key(v.data) {
            Some(prepared[v.data].bind_group)
        } else {
            None
        },
        None => None,
    }
}

/// Draws the shared cube mesh.
pub struct DrawVoxel;

impl DrawVoxel {
    /// The commands that draw the cube once: its vertex buffer, then an indexed
    /// or a plain draw of all its indices or vertices. `None` (the command
    /// fails for this item) when the mesh is not on the GPU.
    pub fn render(mesh: Option<&GpuMesh>) -> (r: Option<Vec<RenderCommand>>)
        ensures
            r is None <==> mesh is None,
            r matches Some(cmds) ==> cmds@ == mesh_draw(*mesh->0),
    {
        let mesh = match mesh {
            Some(m) => m,
            None => return None,
        };
        let mut cmds: Vec<RenderCommand> = Vec::new();
        cmds.push(RenderCommand::SetVertexBuffer { slot: 0, buffer: mesh.vertex_buffer });
        match mesh.buffer_info {
            GpuBufferInfo::Indexed { buffer, index_format, count } => {
                cmds.push(RenderCommand::SetIndexBuffer { buffer, offset: 0, index_format });
                cmds.push(
                    RenderCommand::DrawIndexed {
                        indices_start: 0,
                        indices_end: count,
                        base_vertex: 0,
                        instances_start: 0,
                        instances_end: 1,
                    },
                );
            },
            GpuBufferInfo::NonIndexed { vertex_count } => {
                cmds.push(
                    RenderCommand::Draw {
                        vertices_start: 0,
                        vertices_end: vertex_count,
                        instances_start: 0,
                        instances_end: 1,
                    },
                );
            },
        }
        proof {
            assert(cmds@ =~= mesh_draw(*mesh));
        }
        Some(cmds)
    }
}

/// Binds an entity's voxel grid.
pub struct SetVoxelBindGroup;

impl SetVoxelBindGroup {
    /// The command that binds the prepared grid of `voxel` at slot `index`.
    /// `None` (the command fails for this item) when the entity has no voxel
    /// component or its grid is not prepared.
    pub fn render(index: u32, voxel: Option<Voxel>, prepared: &PreparedVoxels) -> (r: Option<
        RenderCommand,
    >)
        ensures
            r == (match voxel_bind_group(voxel, prepared@) {
                Some(bind_group) => Some(
                    RenderCommand::SetBindGroup { index: index, bind_group: bind_group },
                ),
                None => None,
            }),
    {
        let voxel = match voxel {
            Some(v) => v,
            None => return None,
        };
        match prepared.get(voxel.data) {
            Some(meta) => Some(RenderCommand::SetBindGroup { index, bind_group: meta.bind_group }),
            None => None,
        }
    }
}

/// The full command list of a voxel item: the item's pipeline, view and mesh
/// bind groups, the voxel grid's bind group, then the cube draw. `None` (the
/// item is dropped from the frame) when the entity's grid is not prepared or
/// the cube mesh is not on the GPU.
pub fn draw_voxels(
    item: &PhaseItem,
    records: &ExtractedMeshes,
    prepared: &PreparedVoxels,
    mesh: Option<&GpuMesh>,
) -> (r: Option<Vec<RenderCommand>>)
    ensures
        ({
            let voxel = match find_record(records.records(), item.entity) {
                Some(record) => Some(record.voxel),
                None => None,
            };
            match (voxel_bind_group(voxel, prepared@), mesh) {
                (Some(bind_group), Some(m)) => r matches Some(cmds) && cmds@ == item_prelude(
                    *item,
                ).push(RenderCommand::SetBindGroup { index: VOXEL_BIND_GROUP, bind_group: bind_group })
                    + mesh_draw(*m),
                _ => r is None,
            }
        }),
{
    let voxel = match records.get(item.entity) {
        Some(record) => Some(record.voxel),
        None => None,
    };
    let bind = match SetVoxelBindGroup::render(VOXEL_BIND_GROUP, voxel, prepared) {
        Some(c) => c,
        None => return None,
    };
    let draw = match DrawVoxel::render(mesh) {
        Some(d) => d,
        None => return None,
    };
    let mut cmds: Vec<RenderCommand> = Vec::new();
    cmds.push(RenderCommand::SetItemPipeline { pipeline: item.pipeline });
    cmds.push(RenderCommand::SetViewBindGroup { index: VIEW_BIND_GROUP });
    cmds.push(RenderCommand::SetMeshBindGroup { index: MESH_BIND_GROUP });
    cmds.push(bind);
    let mut i: usize = 0;
    let ghost head = cmds@;
    while i < draw.len()
        invariant
            i <= draw@.len(),
            cmds@ == head + draw@.subrange(0, i as int),
        decreases draw@.len() - i,
    {
        cmds.push(draw[i]);
        proof {
            assert(draw@.subrange(0, i + 1) =~= draw@.subrange(0, i as int).push(draw@[i as int]));
        }
        i = i + 1;
    }
    proof {
        assert(draw@.subrange(0, draw@.len() as int) =~= draw@);
        assert(head =~= item_prelude(*item).push(bind));
    }
    Some(cmds)
}

/// The full command list of a wireframe item: the item's pipeline, view and
/// mesh bind groups, then the cube draw. `None` when the cube mesh is not on
/// the GPU.
pub fn draw_wireframe(item: &PhaseItem, mesh: Option<&GpuMesh>) -> (r: Option<Vec<RenderCommand>>)
    ensures
        r is None <==> mesh is None,
        r matches Some(cmds) ==> cmds@ == item_prelude(*item) + mesh_draw(*mesh->0),
{
    let draw = match DrawVoxel::render(mesh) {
        Some(d) => d,
        None => return None,
    };
    let mut cmds: Vec<RenderCommand> = Vec::new();
    cmds.push(RenderCommand::SetItemPipeline { pipeline: item.pipeline });
    cmds.push(RenderCommand::SetViewBindGroup { index: VIEW_BIND_GROUP });
    cmds.push(RenderCommand::SetMeshBindGroup { index: MESH_BIND_GROUP });
    let mut i: usize = 0;
    let ghost head = cmds@;
    while i < draw.len()
        invariant
            i <= draw@.len(),
            cmds@ == head + draw@.subrange(0, i as int),
        decreases draw@.len() - i,
    {
        cmds.push(draw[i]);
        proof {
            assert(draw@.subrange(0, i + 1) =~= draw@.subrange(0, i as int).push(draw@[i as int]));
        }
        i = i + 1;
    }
    proof {
        assert(draw@.subrange(0, draw@.len() as int) =~= draw@);
        assert(head =~= item_prelude(*item));
    }
    Some(cmds)
}

} // verus!
