//! Pipeline specialisation: the key a draw is specialised for, and the changes
//! the voxel and wireframe pipelines make to the base mesh pipeline.
use vstd::prelude::*;

verus! {

/// Handle id of the shader that shades voxel cubes.
pub const VOXEL_SHADER_HANDLE: u64 = 7632171639263852275;

/// Handle id of the shader that draws wireframes.
pub const WIREFRAME_SHADER_HANDLE: u64 = 6379866545205140404;

/// Binding of the voxel grid buffer within its bind group.
pub const VOXEL_DATA_BINDING: u32 = 0;

/// Smallest size of the voxel grid binding: one `u32` per cell.
pub const VOXEL_DATA_MIN_BINDING_SIZE: u64 = 16384;

/// How a mesh's vertices form primitives.
#[derive(Clone, Copy, Debug, PartialEq, Eq, Structural)]
pub enum PrimitiveTopology {
    PointList,
    LineList,
    LineStrip,
    TriangleList,
    TriangleStrip,
}

/// The number the graphics API gives each topology.
pub open spec fn topology_code(t: PrimitiveTopology) -> u32 {
    match t {
        PrimitiveTopology::PointList => 0,
        PrimitiveTopology::LineList => 1,
        PrimitiveTopology::LineStrip => 2,
        PrimitiveTopology::TriangleList => 3,
        PrimitiveTopology::TriangleStrip => 4,
    }
}

/// Key bits for a multisample count: the count less one, in the six highest bits.
pub open spec fn msaa_key(samples: u32) -> u32 {
    (((samples - 1) as u32) & 0x3fu32) << 26u32
}

/// Key bits for a topology: its number, in the three bits below the sample count.
pub open spec fn topology_key(t: PrimitiveTopology) -> u32 {
    (topology_code(t) & 0x7u32) << 23u32
}

/// Relies on bevy_pbr's `MeshPipelineKey::from_msaa_samples`, which puts the
/// sample count less one, masked to six bits, in the key's six highest bits.
#[verifier::external_body]
fn msaa_key_bits(samples: u32) -> (r: u32)
    requires
        samples >= 1,
    ensures
        r == msaa_key(samples),
{
    bevy::pbr::MeshPipelineKey::from_msaa_samples(samples).bits()
}

/// Relies on bevy_pbr's `MeshPipelineKey::from_primitive_topology`, which puts
/// the topology's number, masked to three bits, just below the sample count.
#[verifier::external_body]
fn topology_key_bits(topology: PrimitiveTopology) -> (r: u32)
    ensures
        r == topology_key(topology),
{
    let t = match topology {
        PrimitiveTopology::PointList => bevy::render::render_resource::PrimitiveTopology::PointList,
        PrimitiveTopology::LineList => bevy::render::render_resource::PrimitiveTopology::LineList,
        PrimitiveTopology::LineStrip => bevy::render::render_resource::PrimitiveTopology::LineStrip,
        PrimitiveTopology::TriangleList => bevy::render::render_resource::PrimitiveTopology::TriangleList,
        PrimitiveTopology::TriangleStrip => bevy::render::render_resource::PrimitiveTopology::TriangleStrip,
    };
    bevy::pbr::MeshPipelineKey::from_primitive_topology(t).bits()
}

/// The key that the voxel and wireframe pipelines are specialised for: the
/// view's multisample count together with the mesh's topology.
pub fn pipeline_key(msaa_samples: u32, topology: PrimitiveTopology) -> (r: u32)
    requires
        msaa_samples >= 1,
    ensures
        r == msaa_key(msaa_samples) | topology_key(topology),
{
    msaa_key_bits(msaa_samples) | topology_key_bits(topology)
}

/// A bind group layout, by the slot it fills.
#[derive(Clone, Copy, Debug, PartialEq, Eq, Structural)]
pub enum LayoutSlot {
    View,
    Mesh,
    VoxelData,
}

/// How triangles are rasterised.
#[derive(Clone, Copy, Debug, PartialEq, Eq, Structural)]
pub enum PolygonMode {
    Fill,
    Line,
}

/// Shader stages a binding is visible to.
#[derive(Clone, Copy, Debug, PartialEq, Eq, Structural)]
pub enum ShaderStages {
    Vertex,
    Fragment,
    VertexFragment,
}

/// A uniform-buffer entry of a bind group layout.
#[derive(Clone, Copy, Debug, PartialEq, Eq, Structural)]
pub struct UniformLayoutEntry {
    pub binding: u32,
    pub visibility: ShaderStages,
    pub has_dynamic_offset: bool,
    pub min_binding_size: u64,
}

/// The parts of a render pipeline descriptor that the voxel pipelines set.
pub struct PipelineDescriptor {
    pub vertex_shader: u64,
    /// The fragment stage's shader, when the pipeline has a fragment stage.
    pub fragment_shader: Option<u64>,
    /// The bind group layouts, in slot order.
    pub layout: Vec<LayoutSlot>,
    pub polygon_mode: PolygonMode,
    /// The depth bias slope scale, when the pipeline has depth-stencil state.
    pub depth_bias_slope_scale: Option<i32>,
}

/// The voxel cube pipeline: the mesh pipeline with the voxel shader and a
/// third bind group for the voxel grid.
pub struct VoxelPipeline {
    pub shader: u64,
}

impl VoxelPipeline {
    /// The pipeline with the built-in voxel shader.
    pub fn new() -> (r: VoxelPipeline)
        ensures
            r.shader == VOXEL_SHADER_HANDLE,
    {
        VoxelPipeline { shader: VOXEL_SHADER_HANDLE }
    }

    /// The layout entry of the voxel grid: binding 0, read by the fragment
    /// stage, a uniform buffer of at least one `u32` per cell.
    pub fn voxel_data_layout_entry() -> (r: UniformLayoutEntry)
        ensures
            r == (UniformLayoutEntry {
                binding: VOXEL_DATA_BINDING,
                visibility: ShaderStages::Fragment,
                has_dynamic_offset: false,
                min_binding_size: VOXEL_DATA_MIN_BINDING_SIZE,
            }),
    {
        UniformLayoutEntry {
            binding: VOXEL_DATA_BINDING,
            visibility: ShaderStages::Fragment,
            has_dynamic_offset: false,
            min_binding_size: VOXEL_DATA_MIN_BINDING_SIZE,
        }
    }

    /// Specialises the mesh pipeline's descriptor `base`: both stages use the
    /// voxel shader and the layouts become view, mesh, voxel grid. An error of
    /// the mesh pipeline is passed on.
    pub fn specialize<E>(&self, base: Result<PipelineDescriptor, E>) -> (r: Result<
        PipelineDescriptor,
        E,
    >)
        requires
            base matches Ok(d) ==> d.fragment_shader is Some,
        ensures
            base is Err <==> r is Err,
            base matches Err(e) ==> r == Err::<PipelineDescriptor, E>(e),
            base matches Ok(b) ==> r matches Ok(d) && {
                &&& d.vertex_shader == self.shader
                &&& d.fragment_shader == Some(self.shader)
                &&& d.layout@ == seq![LayoutSlot::View, LayoutSlot::Mesh, LayoutSlot::VoxelData]
                &&& d.polygon_mode == b.polygon_mode
                &&& d.depth_bias_slope_scale == b.depth_bias_slope_scale
            },
    {
        match base {
            Err(e) => Err(e),
            Ok(b) => {
                let mut layout: Vec<LayoutSlot> = Vec::new();
                layout.push(LayoutSlot::View);
                layout.push(LayoutSlot::Mesh);
                layout.push(LayoutSlot::VoxelData);
                proof {
                    assert(layout@ =~= seq![
                        LayoutSlot::View,
                        LayoutSlot::Mesh,
                        LayoutSlot::VoxelData,
                    ]);
                }
                Ok(
                    PipelineDescriptor {
                        vertex_shader: self.shader,
                        fragment_shader: Some(self.shader),
                        layout,
                        polygon_mode: b.polygon_mode,
                        depth_bias_slope_scale: b.depth_bias_slope_scale,
                    },
                )
            },
        }
    }
}

/// The wireframe pipeline: the mesh pipeline with the wireframe shader, drawn
/// as lines with a fixed depth bias slope.
pub struct WireframePipeline {
    pub shader: u64,
}

impl WireframePipeline {
    /// The pipeline with the built-in wireframe shader.
    pub fn new() -> (r: WireframePipeline)
        ensures
            r.shader == WIREFRAME_SHADER_HANDLE,
    {
        WireframePipeline { shader: WIREFRAME_SHADER_HANDLE }
    }

    /// Specialises the mesh pipeline's descriptor `base`: both stages use the
    /// wireframe shader, polygons are drawn as lines and the depth bias slope
    /// scale is 1; the layouts stay. An error of the mesh pipeline is passed on.
    pub fn specialize<E>(&self, base: Result<PipelineDescriptor, E>) -> (r: Result<
        PipelineDescriptor,
        E,
    >)
        requires
            base matches Ok(d) ==> d.fragment_shader is Some && d.depth_bias_slope_scale is Some,
        ensures
            base is Err <==> r is Err,
            base matches Err(e) ==> r == Err::<PipelineDescriptor, E>(e),
            base matches Ok(b) ==> r matches Ok(d) && {
                &&& d.vertex_shader == self.shader
                &&& d.fragment_shader == Some(self.shader)
                &&& d.layout@ == b.layout@
                &&& d.polygon_mode == PolygonMode::Line
                &&& d.depth_bias_slope_scale == Some(1i32)
            },
    {
        match base {
            Err(e) => Err(e),
            Ok(b) => Ok(
                PipelineDescriptor {
                    vertex_shader: self.shader,
                    fragment_shader: Some(self.shader),
                    layout: b.layout,
                    polygon_mode: PolygonMode::Line,
                    depth_bias_slope_scale: Some(1),
                },
            ),
        }
    }
}

} // verus!
