//! Per-frame queueing: one draw item per visible voxel entity of each view.
use vstd::prelude::*;

use crate::extract::{
    extracted_records, find_record, lemma_find_is_member, ExtractedMeshes, MeshRecord,
};
use crate::phase::{sorted_items, PhaseItem, PhaseKind, RenderPhase};
use crate::world::WorldEntity;
use crate::world::Translation;

verus! {

/// The row of a view's transform that gives how far a point lies along the
/// view direction: `x * p.x + y * p.y + z * p.z + w`, in the units of
/// `Translation`.
#[derive(Clone, Copy, Debug, PartialEq, Eq, Structural)]
pub struct DepthAxis {
    pub x: i32,
    pub y: i32,
    pub z: i32,
    pub w: i32,
}

/// A camera's view for one frame: its depth axis and the entities found
/// visible in it, in the order found.
pub struct ExtractedView {
    pub depth_axis: DepthAxis,
    pub visible_entities: Vec<u64>,
}

/// How far `t` lies along the view direction of `axis`.
pub open spec fn view_distance(axis: DepthAxis, t: Translation) -> int {
    axis.x * t.x + axis.y * t.y + axis.z * t.z + axis.w
}

/// The draw item of a record in a view.
pub open spec fn phase_item(
    record: MeshRecord,
    axis: DepthAxis,
    pipeline: u64,
    draw_function: u64,
) -> PhaseItem {
    PhaseItem {
        entity: record.entity,
        pipeline: pipeline,
        draw_function: draw_function,
        distance: view_distance(axis, record.uniform.translation) as i128,
    }
}

/// Whether a record is drawn: always, or only with the wireframe marker when
/// `marked_only`.
pub open spec fn selected(record: MeshRecord, marked_only: bool) -> bool {
    !marked_only || record.wireframe
}

/// The items queued for a view whose visible entities are `visible`: for each
/// visible entity, in order, that has a record and is selected, its item.
pub open spec fn queued(
    records: Seq<MeshRecord>,
    visible: Seq<u64>,
    axis: DepthAxis,
    marked_only: bool,
    pipeline: u64,
    draw_function: u64,
) -> Seq<PhaseItem>
    decreases visible.len(),
{
    if visible.len() == 0 {
        Seq::empty()
    } else {
        let rest = queued(records, visible.drop_last(), axis, marked_only, pipeline, draw_function);
        match find_record(records, visible.last()) {
            Some(record) => if selected(record, marked_only) {
                rest.push(phase_item(record, axis, pipeline, draw_function))
            } else {
                rest
            },
            None => rest,
        }
    }
}

/// The items queued for a view: none while the mesh is not on the GPU or the
/// pipeline could not be specialised, else those of `queued`.
pub open spec fn view_items(
    records: Seq<MeshRecord>,
    view: ExtractedView,
    mesh_ready: bool,
    pipeline: Option<u64>,
    marked_only: bool,
    draw_function: u64,
) -> Seq<PhaseItem> {
    if mesh_ready && pipeline is Some {
        queued(
            records,
            view.visible_entities@,
            view.depth_axis,
            marked_only,
            pipeline->0,
            draw_function,
        )
    } else {
        Seq::empty()
    }
}

/// The phases of all views, one per view and in the views' order, each holding
/// `view_items` of its view.
pub open spec fn queued_phases(
    phases: Seq<RenderPhase>,
    records: Seq<MeshRecord>,
    views: Seq<ExtractedView>,
    kind: PhaseKind,
    mesh_ready: bool,
    pipeline: Option<u64>,
    marked_only: bool,
    draw_function: u64,
) -> bool {
    &&& phases.len() == views.len()
    &&& forall|v: int|
        0 <= v < views.len() ==> (#[trigger] phases[v]).kind == kind && phases[v].items@
            == view_items(records, views[v], mesh_ready, pipeline, marked_only, draw_function)
}

/// Extraction and queueing are rebuilt from the entity table alone: two runs
/// of both on an unchanged world, with the same views, mesh and pipeline, give
/// the same phase contents, and the same draw order once sorted.
pub proof fn lemma_rerun_identical(
    world: Seq<WorldEntity>,
    views: Seq<ExtractedView>,
    kind: PhaseKind,
    mesh_ready: bool,
    pipeline: Option<u64>,
    marked_only: bool,
    draw_function: u64,
    first: Seq<RenderPhase>,
    second: Seq<RenderPhase>,
)
    requires
        queued_phases(
            first,
            extracted_records(world),
            views,
            kind,
            mesh_ready,
            pipeline,
            marked_only,
            draw_function,
        ),
        queued_phases(
            second,
            extracted_records(world),
            views,
            kind,
            mesh_ready,
            pipeline,
            marked_only,
            draw_function,
        ),
    ensures
        first.len() == second.len(),
        forall|v: int|
            0 <= v < first.len() ==> (#[trigger] first[v]).kind == second[v].kind
                && first[v].items@ == second[v].items@ && sorted_items(kind, first[v].items@)
                == sorted_items(kind, second[v].items@),
{
    assert forall|v: int| 0 <= v < first.len() implies (#[trigger] first[v]).kind
        == second[v].kind && first[v].items@ == second[v].items@ && sorted_items(
        kind,
        first[v].items@,
    ) == sorted_items(kind, second[v].items@) by {
        assert(first[v].items@ == view_items(
            extracted_records(world),
            views[v],
            mesh_ready,
            pipeline,
            marked_only,
            draw_function,
        ));
        assert(second[v].items@ == view_items(
            extracted_records(world),
            views[v],
            mesh_ready,
            pipeline,
            marked_only,
            draw_function,
        ));
    }
}

/// Every queued item belongs to an entity of the view's visible set.
pub proof fn lemma_queued_visible(
    records: Seq<MeshRecord>,
    visible: Seq<u64>,
    axis: DepthAxis,
    marked_only: bool,
    pipeline: u64,
    draw_function: u64,
)
    ensures
        forall|i: int|
            0 <= i < queued(records, visible, axis, marked_only, pipeline, draw_function).len()
                ==> visible.contains(
                #[trigger] queued(
                    records,
                    visible,
                    axis,
                    marked_only,
                    pipeline,
                    draw_function,
                )[i].entity,
            ),
    decreases visible.len(),
{
    if visible.len() > 0 {
        let prefix = visible.drop_last();
        lemma_queued_visible(records, prefix, axis, marked_only, pipeline, draw_function);
        lemma_find_is_member(records, visible.last());
        let rest = queued(records, prefix, axis, marked_only, pipeline, draw_function);
        let all = queued(records, visible, axis, marked_only, pipeline, draw_function);
        assert forall|i: int| 0 <= i < all.len() implies visible.contains(
            #[trigger] all[i].entity,
        ) by {
            if i < rest.len() {
                assert(all[i] == rest[i]);
                let k = choose|k: int| 0 <= k < prefix.len() && prefix[k] == rest[i].entity;
                assert(visible[k] == prefix[k]);
            } else {
                assert(visible[visible.len() - 1] == visible.last());
            }
        }
    }
}

/// Number of items of `entity` among `items`.
pub open spec fn items_of(items: Seq<PhaseItem>, entity: u64) -> nat
    decreases items.len(),
{
    if items.len() == 0 {
        0
    } else {
        items_of(items.drop_last(), entity) + if items.last().entity == entity {
            1nat
        } else {
            0nat
        }
    }
}

/// Number of times `entity` occurs in `ids`.
pub open spec fn occurrences(ids: Seq<u64>, entity: u64) -> nat
    decreases ids.len(),
{
    if ids.len() == 0 {
        0
    } else {
        occurrences(ids.drop_last(), entity) + if ids.last() == entity {
            1nat
        } else {
            0nat
        }
    }
}

/// An entity gets one item per time it is listed visible when it has a
/// selected record, and none otherwise.
pub proof fn lemma_items_of_queued(
    records: Seq<MeshRecord>,
    visible: Seq<u64>,
    axis: DepthAxis,
    marked_only: bool,
    pipeline: u64,
    draw_function: u64,
    entity: u64,
)
    ensures
        items_of(queued(records, visible, axis, marked_only, pipeline, draw_function), entity)
            == if find_record(records, entity) matches Some(r) && selected(r, marked_only) {
            occurrences(visible, entity)
        } else {
            0
        },
    decreases visible.len(),
{
    if visible.len() > 0 {
        lemma_items_of_queued(
            records,
            visible.drop_last(),
            axis,
            marked_only,
            pipeline,
            draw_function,
            entity,
        );
        lemma_find_is_member(records, visible.last());
        let prefix = visible.drop_last();
        let rest = queued(records, prefix, axis, marked_only, pipeline, draw_function);
        if let Some(record) = find_record(records, visible.last()) {
            let item = phase_item(record, axis, pipeline, draw_function);
            assert(rest.push(item).drop_last() =~= rest);
        }
    }
}

fn product(a: i32, b: i32) -> (r: i128)
    ensures
        r == a * b,
        -0x4000_0000_0000_0000 <= r <= 0x4000_0000_0000_0000,
{
    proof {
        assert(-0x4000_0000_0000_0000 <= (a as int) * (b as int) <= 0x4000_0000_0000_0000)
            by (nonlinear_arith)
            requires
                -0x8000_0000 <= a <= 0x7fff_ffff,
                -0x8000_0000 <= b <= 0x7fff_ffff,
        ;
    }
    (a as i128) * (b as i128)
}

/// How far `t` lies along the view direction of `axis`.
pub fn distance(axis: &DepthAxis, t: &Translation) -> (r: i128)
    ensures
        r == view_distance(*axis, *t),
{
    product(axis.x, t.x) + product(axis.y, t.y) + product(axis.z, t.z) + axis.w as i128
}

/// The phase of one view.
fn queue_view(
    records: &ExtractedMeshes,
    view: &ExtractedView,
    kind: PhaseKind,
    marked_only: bool,
    pipeline: u64,
    draw_function: u64,
) -> (r: RenderPhase)
    ensures
        r.kind == kind,
        r.items@ == queued(
            records.records(),
            view.visible_entities@,
            view.depth_axis,
            marked_only,
            pipeline,
            draw_function,
        ),
{
    let ghost visible = view.visible_entities@;
    let mut phase = RenderPhase::new(kind);
    let mut i: usize = 0;
    while i < view.visible_entities.len()
        invariant
            i <= visible.len(),
            visible == view.visible_entities@,
            phase.kind == kind,
            phase.items@ == queued(
                records.records(),
                visible.subrange(0, i as int),
                view.depth_axis,
                marked_only,
                pipeline,
                draw_function,
            ),
        decreases visible.len() - i,
    {
        let entity = view.visible_entities[i];
        proof {
            let next = visible.subrange(0, i + 1);
            assert(next.drop_last() =~= visible.subrange(0, i as int));
            assert(next.last() == entity);
        }
        if let Some(record) = records.get(entity) {
            if !marked_only || record.wireframe {
                let d = distance(&view.depth_axis, &record.uniform.translation);
                phase.add(
                    PhaseItem { entity: record.entity, pipeline, draw_function, distance: d },
                );
            }
        }
        i = i + 1;
    }
    proof {
        assert(visible.subrange(0, visible.len() as int) =~= visible);
    }
    phase
}

/// The phases of all views; no view gets an item for an entity outside its
/// visible set.
pub(crate) fn queue_phases(
    records: &ExtractedMeshes,
    views: &Vec<ExtractedView>,
    kind: PhaseKind,
    marked_only: bool,
    mesh_ready: bool,
    pipeline: Option<u64>,
    draw_function: u64,
) -> (r: Vec<RenderPhase>)
    ensures
        queued_phases(
            r@,
            records.records(),
            views@,
            kind,
            mesh_ready,
            pipeline,
            marked_only,
            draw_function,
        ),
        forall|v: int, i: int|
            0 <= v < r@.len() && 0 <= i < r@[v].items@.len() ==> views@[v].visible_entities@.contains(
                #[trigger] r@[v].items@[i].entity,
            ),
{
    let mut phases: Vec<RenderPhase> = Vec::new();
    let mut v: usize = 0;
    while v < views.len()
        invariant
            v <= views@.len(),
            phases@.len() == v,
            forall|u: int|
                0 <= u < v ==> (#[trigger] phases@[u]).kind == kind && phases@[u].items@
                    == view_items(
                    records.records(),
                    views@[u],
                    mesh_ready,
                    pipeline,
                    marked_only,
                    draw_function,
                ),
        decreases views@.len() - v,
    {
        let view = &views[v];
        let phase = match pipeline {
            Some(id) => if mesh_ready {
                queue_view(records, view, kind, marked_only, id, draw_function)
            } else {
                RenderPhase::new(kind)
            },
            None => RenderPhase::new(kind),
        };
        phases.push(phase);
        v = v + 1;
    }
    proof {
        assert forall|u: int, i: int|
            0 <= u < phases@.len() && 0 <= i < phases@[u].items@.len() implies views@[u].visible_entities@.contains(
            #[trigger] phases@[u].items@[i].entity,
        ) by {
            let view = views@[u];
            if let Some(id) = pipeline {
                lemma_queued_visible(
                    records.records(),
                    view.visible_entities@,
                    view.depth_axis,
                    marked_only,
                    id,
                    draw_function,
                );
            }
        }
    }
    phases
}

/// Queues the voxel draws of a frame into each view's alpha-mask phase: for
/// every entity visible in the view that has a record this frame, one item
/// with the specialised pipeline, the voxel draw function and its distance
/// along the view direction. Nothing is queued while the cube mesh is not on
/// the GPU (`mesh_ready`) or when the pipeline could not be specialised
/// (`pipeline` is `None`).
pub fn queue_voxel(
    records: &ExtractedMeshes,
    views: &Vec<ExtractedView>,
    mesh_ready: bool,
    pipeline: Option<u64>,
    draw_function: u64,
) -> (r: Vec<RenderPhase>)
    ensures
        queued_phases(
            r@,
            records.records(),
            views@,
            PhaseKind::AlphaMask,
            mesh_ready,
            pipeline,
            false,
            draw_function,
        ),
        forall|v: int, i: int|
            0 <= v < r@.len() && 0 <= i < r@[v].items@.len() ==> views@[v].visible_entities@.contains(
                #[trigger] r@[v].items@[i].entity,
            ),
{
    queue_phases(records, views, PhaseKind::AlphaMask, false, mesh_ready, pipeline, draw_function)
}

/// Queues the voxel draws of a frame into each view's transparent phase, with
/// the same items as `queue_voxel`; that phase draws them back to front.
pub fn queue_voxel_transparent(
    records: &ExtractedMeshes,
    views: &Vec<ExtractedView>,
    mesh_ready: bool,
    pipeline: Option<u64>,
    draw_function: u64,
) -> (r: Vec<RenderPhase>)
    ensures
        queued_phases(
            r@,
            records.records(),
            views@,
            PhaseKind::Transparent,
            mesh_ready,
            pipeline,
            false,
            draw_function,
        ),
        forall|v: int, i: int|
            0 <= v < r@.len() && 0 <= i < r@[v].items@.len() ==> views@[v].visible_entities@.contains(
                #[trigger] r@[v].items@[i].entity,
            ),
{
    queue_phases(records, views, PhaseKind::Transparent, false, mesh_ready, pipeline, draw_function)
}

} // verus!
