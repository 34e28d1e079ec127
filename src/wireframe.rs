//! The wireframe overlay: which voxel entities get a wireframe draw, queued
//! into each view's opaque phase.
use vstd::prelude::*;

use crate::extract::{
    extracted_records, find_record, lemma_find_extracted_records, ExtractedMeshes, MeshRecord,
};
use crate::phase::{PhaseKind, RenderPhase};
use crate::world::{with_wireframe_marker, WorldEntity};
use crate::queue::{
    items_of, lemma_items_of_queued, occurrences, queue_phases, queued, queued_phases,
    DepthAxis, ExtractedView,
};

verus! {

/// Whether wireframes are drawn for every voxel entity (`global`) or only for
/// entities that carry the wireframe marker.
#[derive(Clone, Copy, Debug, PartialEq, Eq, Structural)]
pub struct VoxelWireframeConfig {
    pub global: bool,
}

impl VoxelWireframeConfig {
    /// Wireframes only for marked entities.
    pub fn default() -> (r: VoxelWireframeConfig)
        ensures
            !r.global,
    {
        VoxelWireframeConfig { global: false }
    }
}

/// Queues the wireframe draws of a frame into each view's opaque phase: for
/// every entity visible in the view that has a record this frame, and that
/// carries the wireframe marker unless `config.global`, one item with the
/// wireframe pipeline, the wireframe draw function and its distance along the
/// view direction. Nothing is queued while the cube mesh is not on the GPU
/// (`mesh_ready`) or when the pipeline could not be specialised (`pipeline`
/// is `None`).
pub fn queue_wireframes(
    records: &ExtractedMeshes,
    views: &Vec<ExtractedView>,
    config: &VoxelWireframeConfig,
    mesh_ready: bool,
    pipeline: Option<u64>,
    draw_function: u64,
) -> (r: Vec<RenderPhase>)
    ensures
        queued_phases(
            r@,
            records.records(),
            views@,
            PhaseKind::Opaque,
            mesh_ready,
            pipeline,
            !config.global,
            draw_function,
        ),
        forall|v: int, i: int|
            0 <= v < r@.len() && 0 <= i < r@[v].items@.len() ==> views@[v].visible_entities@.contains(
                #[trigger] r@[v].items@[i].entity,
            ),
{
    queue_phases(records, views, PhaseKind::Opaque, !config.global, mesh_ready, pipeline, draw_function)
}

/// Wireframe selection for an entity listed once among a view's visible
/// entities and extracted this frame: with `global` off it gets no wireframe
/// item without the marker and exactly one with it; with `global` on it gets
/// exactly one whether marked or not.
pub proof fn lemma_wireframe_selection(
    records: Seq<MeshRecord>,
    visible: Seq<u64>,
    axis: DepthAxis,
    pipeline: u64,
    draw_function: u64,
    entity: u64,
)
    requires
        occurrences(visible, entity) == 1,
        find_record(records, entity) is Some,
    ensures
        ({
            let record = find_record(records, entity)->0;
            let marked_only = queued(records, visible, axis, true, pipeline, draw_function);
            let everyone = queued(records, visible, axis, false, pipeline, draw_function);
            &&& !record.wireframe ==> items_of(marked_only, entity) == 0
            &&& record.wireframe ==> items_of(marked_only, entity) == 1
            &&& items_of(everyone, entity) == 1
        }),
{
    lemma_items_of_queued(records, visible, axis, true, pipeline, draw_function, entity);
    lemma_items_of_queued(records, visible, axis, false, pipeline, draw_function, entity);
}

/// Attaching the wireframe marker to a visible voxel entity and queueing
/// again gives it exactly one wireframe item in a view that lists it once;
/// without the marker it gets none unless `global` is on, and with `global` on
/// it gets exactly one either way.
pub proof fn lemma_wireframe_marker(
    world: Seq<WorldEntity>,
    k: int,
    visible: Seq<u64>,
    axis: DepthAxis,
    pipeline: u64,
    draw_function: u64,
)
    requires
        0 <= k < world.len(),
        world[k].visible,
        world[k].voxel is Some,
        forall|i: int| 0 <= i < world.len() && world[i].entity == world[k].entity ==> i == k,
        occurrences(visible, world[k].entity) == 1,
    ensures
        ({
            let entity = world[k].entity;
            let unmarked = extracted_records(
                world.update(k, with_wireframe_marker(world[k], false)),
            );
            let marked = extracted_records(world.update(k, with_wireframe_marker(world[k], true)));
            &&& items_of(queued(unmarked, visible, axis, true, pipeline, draw_function), entity)
                == 0
            &&& items_of(queued(marked, visible, axis, true, pipeline, draw_function), entity)
                == 1
            &&& items_of(queued(unmarked, visible, axis, false, pipeline, draw_function), entity)
                == 1
            &&& items_of(queued(marked, visible, axis, false, pipeline, draw_function), entity)
                == 1
        }),
{
    let entity = world[k].entity;
    let off = world.update(k, with_wireframe_marker(world[k], false));
    let on = world.update(k, with_wireframe_marker(world[k], true));
    assert forall|i: int| 0 <= i < off.len() && off[i].entity == off[k].entity implies i == k by {
        if i != k {
            assert(off[i] == world[i]);
        }
    }
    assert forall|i: int| 0 <= i < on.len() && on[i].entity == on[k].entity implies i == k by {
        if i != k {
            assert(on[i] == world[i]);
        }
    }
    lemma_find_extracted_records(off, k);
    lemma_find_extracted_records(on, k);
    lemma_wireframe_selection(extracted_records(off), visible, axis, pipeline, draw_function, entity);
    lemma_wireframe_selection(extracted_records(on), visible, axis, pipeline, draw_function, entity);
}

} // verus!
