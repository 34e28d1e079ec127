//! Voxel rendering logic for an entity-component engine: per-entity voxel
//! colour grids and the GPU buffer bytes they are uploaded as, a cache of
//! prepared grids with one GPU form per asset, per-frame extraction of visible
//! voxel entities, pipeline keys and specialisation, queueing of draw items
//! into each view's phases, the phases' draw order, and the commands each
//! queued item is drawn with.
pub mod assets;
pub mod draw;
pub mod extract;
pub mod phase;
pub mod pipeline;
pub mod queue;
pub mod voxel;
pub mod wireframe;
pub mod world;

pub use assets::{PreparedVoxels, VoxelMeta};
pub use draw::{draw_voxels, draw_wireframe, DrawVoxel, GpuBufferInfo, GpuMesh, IndexFormat, RenderCommand, SetVoxelBindGroup};
pub use extract::{extract_voxel_meshes, ExtractedMeshes, MeshRecord, MeshUniform};
pub use phase::{PhaseItem, PhaseKind, RenderPhase};
pub use pipeline::{pipeline_key, PipelineDescriptor, PrimitiveTopology, VoxelPipeline, WireframePipeline};
pub use queue::{queue_voxel, queue_voxel_transparent, DepthAxis, ExtractedView};
pub use voxel::{BufferInit, BufferUsages, Voxel, VoxelData};
pub use wireframe::{queue_wireframes, VoxelWireframeConfig};
pub use world::{Translation, VoxelBundle, WorldEntity};
