//! Per-frame extraction: the render-side record of every visible voxel entity.
use vstd::prelude::*;

use crate::voxel::Voxel;
use crate::world::{with_translation, with_visibility, Translation, WorldEntity};

verus! {

/// Mesh flag: the entity receives shadows.
pub const SHADOW_RECEIVER: u32 = 1;

/// Mesh flag value with no flag set.
pub const NO_FLAGS: u32 = 0;

/// The per-entity uniform the mesh shader reads.
#[derive(Clone, Copy, Debug, PartialEq, Eq, Structural)]
pub struct MeshUniform {
    pub flags: u32,
    pub translation: Translation,
}

/// What the render side holds of one visible voxel entity for a frame.
#[derive(Clone, Copy, Debug, PartialEq, Eq, Structural)]
pub struct MeshRecord {
    pub entity: u64,
    pub uniform: MeshUniform,
    pub voxel: Voxel,
    /// The entity carries the per-entity wireframe marker.
    pub wireframe: bool,
}

/// A frame's records, in two batches: entities that cast shadows and those
/// that carry the marker against it.
pub struct ExtractedMeshes {
    pub casters: Vec<MeshRecord>,
    pub not_casters: Vec<MeshRecord>,
}

/// Whether extraction puts a record of `e` in the batch of casters (`casters`)
/// or of non-casters (`!casters`).
pub open spec fn extracts(e: WorldEntity, casters: bool) -> bool {
    &&& e.visible
    &&& e.voxel is Some
    &&& e.not_shadow_caster != casters
}

/// The record extracted for a visible voxel entity.
pub open spec fn mesh_record(e: WorldEntity) -> MeshRecord {
    MeshRecord {
        entity: e.entity,
        uniform: MeshUniform {
            flags: if e.not_shadow_receiver {
                NO_FLAGS
            } else {
                SHADOW_RECEIVER
            },
            translation: e.translation,
        },
        voxel: e.voxel->0,
        wireframe: e.wireframe,
    }
}

/// `r` is the record of a visible voxel entity of the table.
pub open spec fn stands_for_visible(world: Seq<WorldEntity>, r: MeshRecord) -> bool {
    exists|i: int|
        0 <= i < world.len() && world[i].visible && world[i].voxel is Some && r == mesh_record(
            world[i],
        )
}

/// One batch of a frame's records, in the order of the entity table.
pub open spec fn extracted(world: Seq<WorldEntity>, casters: bool) -> Seq<MeshRecord>
    decreases world.len(),
{
    if world.len() == 0 {
        Seq::empty()
    } else {
        let rest = extracted(world.drop_last(), casters);
        if extracts(world.last(), casters) {
            rest.push(mesh_record(world.last()))
        } else {
            rest
        }
    }
}

/// All of a frame's records: the casters, then the others.
pub open spec fn extracted_records(world: Seq<WorldEntity>) -> Seq<MeshRecord> {
    extracted(world, true) + extracted(world, false)
}

/// The first record of `entity` in `records`.
pub open spec fn find_record(records: Seq<MeshRecord>, entity: u64) -> Option<MeshRecord>
    decreases records.len(),
{
    if records.len() == 0 {
        None
    } else if records[0].entity == entity {
        Some(records[0])
    } else {
        find_record(records.subrange(1, records.len() as int), entity)
    }
}

pub proof fn lemma_find_concat(a: Seq<MeshRecord>, b: Seq<MeshRecord>, entity: u64)
    ensures
        find_record(a + b, entity) == (match find_record(a, entity) {
            Some(r) => Some(r),
            None => find_record(b, entity),
        }),
    decreases a.len(),
{
    if a.len() > 0 {
        let rest = a.subrange(1, a.len() as int);
        assert((a + b).subrange(1, (a + b).len() as int) =~= rest + b);
        lemma_find_concat(rest, b, entity);
    } else {
        assert(a + b =~= b);
    }
}

pub proof fn lemma_find_push(a: Seq<MeshRecord>, x: MeshRecord, entity: u64)
    ensures
        find_record(a.push(x), entity) == (match find_record(a, entity) {
            Some(r) => Some(r),
            None => if x.entity == entity {
                Some(x)
            } else {
                None
            },
        }),
{
    assert(a.push(x) =~= a + seq![x]);
    assert(seq![x].subrange(1, 1) =~= Seq::<MeshRecord>::empty());
    assert(find_record(seq![x].subrange(1, 1), entity) is None);
    lemma_find_concat(a, seq![x], entity);
}

/// A record of `entity` is found in `records` exactly when one of them has
/// that entity, and what is found is one of them.
pub proof fn lemma_find_is_member(records: Seq<MeshRecord>, entity: u64)
    ensures
        find_record(records, entity) is Some <==> exists|i: int|
            0 <= i < records.len() && records[i].entity == entity,
        find_record(records, entity) matches Some(r) ==> r.entity == entity && records.contains(r),
    decreases records.len(),
{
    if records.len() > 0 {
        let rest = records.subrange(1, records.len() as int);
        lemma_find_is_member(rest, entity);
        if records[0].entity != entity {
            if exists|i: int| 0 <= i < records.len() && records[i].entity == entity {
                let i = choose|i: int| 0 <= i < records.len() && records[i].entity == entity;
                assert(rest[i - 1].entity == entity);
            }
            if find_record(rest, entity) is Some {
                let j = choose|j: int| 0 <= j < rest.len() && rest[j].entity == entity;
                assert(records[j + 1] == rest[j]);
            }
            if let Some(r) = find_record(rest, entity) {
                let j = choose|j: int| 0 <= j < rest.len() && rest[j] == r;
                assert(records[j + 1] == r);
            }
        } else {
            assert(records[0] == records[0]);
        }
    }
}

/// The first match in a vector of records.
fn find_in(records: &Vec<MeshRecord>, entity: u64) -> (r: Option<MeshRecord>)
    ensures
        r == find_record(records@, entity),
{
    let mut i: usize = 0;
    assert(records@.subrange(0, records@.len() as int) =~= records@);
    while i < records.len()
        invariant
            i <= records@.len(),
            find_record(records@, entity) == find_record(
                records@.subrange(i as int, records@.len() as int),
                entity,
            ),
        decreases records@.len() - i,
    {
        let rest = Ghost(records@.subrange(i as int, records@.len() as int));
        if records[i].entity == entity {
            assert(rest@[0] == records@[i as int]);
            return Some(records[i]);
        }
        assert(rest@.subrange(1, rest@.len() as int) =~= records@.subrange(
            i + 1,
            records@.len() as int,
        ));
        i = i + 1;
    }
    None
}

impl ExtractedMeshes {
    /// All records: the casters, then the others.
    pub open spec fn records(&self) -> Seq<MeshRecord> {
        self.casters@ + self.not_casters@
    }

    /// The record of `entity`, if it was extracted this frame.
    pub fn get(&self, entity: u64) -> (r: Option<MeshRecord>)
        ensures
            r == find_record(self.records(), entity),
    {
        proof {
            lemma_find_concat(self.casters@, self.not_casters@, entity);
        }
        match find_in(&self.casters, entity) {
            Some(r) => Some(r),
            None => find_in(&self.not_casters, entity),
        }
    }
}

/// Copies the frame's render-side state out of the entity table: one record
/// per visible voxel entity, with its uniform recomputed from its transform and
/// its shadow markers, in the batch that its shadow-caster marker picks.
/// Hidden entities and entities without a voxel get no record.
pub fn extract_voxel_meshes(world: &Vec<WorldEntity>) -> (r: ExtractedMeshes)
    ensures
        r.casters@ == extracted(world@, true),
        r.not_casters@ == extracted(world@, false),
        r.records() == extracted_records(world@),
        forall|j: int|
            0 <= j < extracted_records(world@).len() ==> stands_for_visible(
                world@,
                #[trigger] extracted_records(world@)[j],
            ),
{
    let mut casters: Vec<MeshRecord> = Vec::new();
    let mut not_casters: Vec<MeshRecord> = Vec::new();
    let mut i: usize = 0;
    while i < world.len()
        invariant
            i <= world@.len(),
            casters@ == extracted(world@.subrange(0, i as int), true),
            not_casters@ == extracted(world@.subrange(0, i as int), false),
        decreases world@.len() - i,
    {
        let e = world[i];
        proof {
            assert(world@.subrange(0, i + 1).drop_last() =~= world@.subrange(0, i as int));
        }
        if e.visible {
            if let Some(voxel) = e.voxel {
                let flags: u32 = if e.not_shadow_receiver {
                    NO_FLAGS
                } else {
                    SHADOW_RECEIVER
                };
                let record = MeshRecord {
                    entity: e.entity,
                    uniform: MeshUniform { flags, translation: e.translation },
                    voxel,
                    wireframe: e.wireframe,
                };
                if e.not_shadow_caster {
                    not_casters.push(record);
                } else {
                    casters.push(record);
                }
            }
        }
        i = i + 1;
    }
    proof {
        assert(world@.subrange(0, world@.len() as int) =~= world@);
        lemma_records_from_visible(world@);
    }
    ExtractedMeshes { casters, not_casters }
}

/// Every record of a batch stands for a visible voxel entity of the table.
pub proof fn lemma_extracted_from_visible(world: Seq<WorldEntity>, casters: bool)
    ensures
        forall|j: int|
            0 <= j < extracted(world, casters).len() ==> exists|i: int|
                0 <= i < world.len() && extracts(world[i], casters)
                    && #[trigger] extracted(world, casters)[j] == mesh_record(world[i]),
    decreases world.len(),
{
    if world.len() > 0 {
        let prefix = world.drop_last();
        lemma_extracted_from_visible(prefix, casters);
        assert forall|j: int| 0 <= j < extracted(world, casters).len() implies exists|i: int|
            0 <= i < world.len() && extracts(world[i], casters)
                && #[trigger] extracted(world, casters)[j] == mesh_record(world[i]) by {
            if j < extracted(prefix, casters).len() {
                assert(extracted(prefix, casters)[j] == extracted(world, casters)[j]);
                let i = choose|i: int|
                    0 <= i < prefix.len() && extracts(prefix[i], casters)
                        && #[trigger] extracted(prefix, casters)[j] == mesh_record(prefix[i]);
                assert(world[i] == prefix[i]);
            } else {
                let last = world.len() - 1;
                assert(world[last] == world.last());
                assert(extracted(world, casters)[j] == mesh_record(world[last]));
            }
        }
    }
}

/// Every record of a frame stands for a visible voxel entity of the table.
pub proof fn lemma_records_from_visible(world: Seq<WorldEntity>)
    ensures
        forall|j: int|
            0 <= j < extracted_records(world).len() ==> stands_for_visible(
                world,
                #[trigger] extracted_records(world)[j],
            ),
{
    lemma_extracted_from_visible(world, true);
    lemma_extracted_from_visible(world, false);
    let c = extracted(world, true);
    let n = extracted(world, false);
    assert forall|j: int| 0 <= j < extracted_records(world).len() implies stands_for_visible(
        world,
        #[trigger] extracted_records(world)[j],
    ) by {
        if j < c.len() {
            assert(extracted_records(world)[j] == c[j]);
            let i = choose|i: int|
                0 <= i < world.len() && extracts(world[i], true)
                    && #[trigger] extracted(world, true)[j] == mesh_record(world[i]);
            assert(world[i].visible && world[i].voxel is Some);
        } else {
            let k = j - c.len();
            assert(extracted_records(world)[j] == n[k]);
            let i = choose|i: int|
                0 <= i < world.len() && extracts(world[i], false)
                    && #[trigger] extracted(world, false)[k] == mesh_record(world[i]);
            assert(world[i].visible && world[i].voxel is Some);
        }
    }
}

/// A table in which no entity has the given id extracts no record of it.
pub proof fn lemma_find_extracted_absent(world: Seq<WorldEntity>, casters: bool, entity: u64)
    requires
        forall|i: int| 0 <= i < world.len() ==> world[i].entity != entity,
    ensures
        find_record(extracted(world, casters), entity) is None,
    decreases world.len(),
{
    if world.len() > 0 {
        let prefix = world.drop_last();
        assert forall|i: int| 0 <= i < prefix.len() implies prefix[i].entity != entity by {
            assert(prefix[i] == world[i]);
        }
        lemma_find_extracted_absent(prefix, casters, entity);
        lemma_find_push(extracted(prefix, casters), mesh_record(world.last()), entity);
    }
}

/// With one entity of the given id at row `k`, a batch holds its record
/// exactly when extraction selects that row for the batch.
pub proof fn lemma_find_extracted(world: Seq<WorldEntity>, casters: bool, k: int)
    requires
        0 <= k < world.len(),
        forall|i: int| 0 <= i < world.len() && world[i].entity == world[k].entity ==> i == k,
    ensures
        find_record(extracted(world, casters), world[k].entity) == (if extracts(
            world[k],
            casters,
        ) {
            Some(mesh_record(world[k]))
        } else {
            None
        }),
    decreases world.len(),
{
    let entity = world[k].entity;
    let prefix = world.drop_last();
    let last = world.len() - 1;
    lemma_find_push(extracted(prefix, casters), mesh_record(world.last()), entity);
    if k == last {
        assert forall|i: int| 0 <= i < prefix.len() implies prefix[i].entity != entity by {
            assert(prefix[i] == world[i]);
        }
        lemma_find_extracted_absent(prefix, casters, entity);
    } else {
        assert forall|i: int|
            0 <= i < prefix.len() && prefix[i].entity == prefix[k].entity implies i == k by {
            assert(prefix[i] == world[i]);
        }
        lemma_find_extracted(prefix, casters, k);
        assert(world.last() == world[last]);
    }
}

/// With one entity of the given id at row `k`, the frame holds its record
/// exactly when the entity is a visible voxel entity.
pub proof fn lemma_find_extracted_records(world: Seq<WorldEntity>, k: int)
    requires
        0 <= k < world.len(),
        forall|i: int| 0 <= i < world.len() && world[i].entity == world[k].entity ==> i == k,
    ensures
        find_record(extracted_records(world), world[k].entity) == (if world[k].visible
            && world[k].voxel is Some {
            Some(mesh_record(world[k]))
        } else {
            None
        }),
{
    lemma_find_extracted(world, true, k);
    lemma_find_extracted(world, false, k);
    lemma_find_concat(extracted(world, true), extracted(world, false), world[k].entity);
}

/// Hiding an entity takes its record out of the frame, and showing it again
/// (moved to `t`) brings the record back with the uniform recomputed from the
/// new transform.
pub proof fn lemma_visibility_toggle(world: Seq<WorldEntity>, k: int, t: Translation)
    requires
        0 <= k < world.len(),
        world[k].voxel is Some,
        forall|i: int| 0 <= i < world.len() && world[i].entity == world[k].entity ==> i == k,
    ensures
        ({
            let entity = world[k].entity;
            let hidden = world.update(k, with_visibility(world[k], false));
            let shown = hidden.update(k, with_translation(with_visibility(world[k], true), t));
            &&& find_record(extracted_records(hidden), entity) is None
            &&& find_record(extracted_records(shown), entity) == Some(mesh_record(shown[k]))
            &&& mesh_record(shown[k]).uniform.translation == t
        }),
{
    let entity = world[k].entity;
    let hidden = world.update(k, with_visibility(world[k], false));
    let shown = hidden.update(k, with_translation(with_visibility(world[k], true), t));
    assert forall|i: int| 0 <= i < hidden.len() && hidden[i].entity == hidden[k].entity implies i
        == k by {
        if i != k {
            assert(hidden[i] == world[i]);
        }
    }
    assert forall|i: int| 0 <= i < shown.len() && shown[i].entity == shown[k].entity implies i
        == k by {
        if i != k {
            assert(shown[i] == world[i]);
        }
    }
    lemma_find_extracted_records(hidden, k);
    lemma_find_extracted_records(shown, k);
}

} // verus!
