//! The render-side cache of prepared voxel grids: at most one GPU buffer and
//! bind group per asset handle.
use std::collections::HashMap;
use vstd::prelude::*;

use crate::voxel::{color_bytes, BufferInit, BufferUsages, VoxelData, BUFFER_SIZE};

verus! {

broadcast use vstd::std_specs::hash::group_hash_axioms;

/// The GPU form of one voxel grid: the ids of its buffer and of the bind group
/// that wraps that buffer.
#[derive(Clone, Copy, Debug, PartialEq, Eq, Structural)]
pub struct VoxelMeta {
    pub buffer: u64,
    pub bind_group: u64,
}

/// The cache after offering `meta` for `handle`: a handle that is already
/// prepared keeps what it has.
pub open spec fn store_prepared(
    cache: Map<u64, VoxelMeta>,
    handle: u64,
    meta: VoxelMeta,
) -> Map<u64, VoxelMeta> {
    if cache.contains_key(handle) {
        cache
    } else {
        cache.insert(handle, meta)
    }
}

/// Prepared voxel grids, keyed by the handle of their `VoxelData` asset.
pub struct PreparedVoxels {
    prepared: HashMap<u64, VoxelMeta>,
}

impl View for PreparedVoxels {
    type V = Map<u64, VoxelMeta>;

    closed spec fn view(&self) -> Map<u64, VoxelMeta> {
        self.prepared@
    }
}

impl PreparedVoxels {
    /// A cache with nothing prepared.
    pub fn new() -> (r: PreparedVoxels)
        ensures
            r@ == Map::<u64, VoxelMeta>::empty(),
    {
        PreparedVoxels { prepared: HashMap::new() }
    }

    /// The prepared form of the grid behind `handle`, if there is one.
    pub fn get(&self, handle: u64) -> (r: Option<VoxelMeta>)
        ensures
            r == (if self@.contains_key(handle) {
                Some(self@[handle])
            } else {
                None
            }),
    {
        match self.prepared.get(&handle) {
            Some(meta) => Some(*meta),
            None => None,
        }
    }

    /// What to create for the grid behind `handle`: nothing when it is already
    /// prepared (a cache hit), else the buffer for `data`.
    pub fn request(&self, handle: u64, data: &VoxelData) -> (r: Option<BufferInit>)
        ensures
            r is None <==> self@.contains_key(handle),
            r matches Some(init) ==> {
                &&& init.contents@ == color_bytes(data.0@)
                &&& init.contents@.len() == BUFFER_SIZE
                &&& init.usage == (BufferUsages { uniform: true, copy_dst: true })
            },
    {
        if self.prepared.contains_key(&handle) {
            None
        } else {
            Some(data.prepare_asset())
        }
    }

    /// Drops the GPU form of a grid whose asset changed and gives the buffer
    /// to create for its new contents `data`.
    pub fn refresh(&mut self, handle: u64, data: &VoxelData) -> (r: BufferInit)
        ensures
            final(self)@ == old(self)@.remove(handle),
            r.contents@ == color_bytes(data.0@),
            r.contents@.len() == BUFFER_SIZE,
            r.usage == (BufferUsages { uniform: true, copy_dst: true }),
    {
        self.prepared.remove(&handle);
        data.prepare_asset()
    }

    /// Records the GPU form created for `handle`. A handle that is already
    /// prepared keeps its buffer and bind group, and `false` is returned.
    pub fn insert(&mut self, handle: u64, meta: VoxelMeta) -> (stored: bool)
        ensures
            stored <==> !old(self)@.contains_key(handle),
            final(self)@ == store_prepared(old(self)@, handle, meta),
    {
        if self.prepared.contains_key(&handle) {
            false
        } else {
            self.prepared.insert(handle, meta);
            true
        }
    }

    /// Forgets the GPU form of `handle`, as when its asset changed or was
    /// dropped; the next request for it prepares it again.
    pub fn remove(&mut self, handle: u64) -> (r: Option<VoxelMeta>)
        ensures
            final(self)@ == old(self)@.remove(handle),
            r == (if old(self)@.contains_key(handle) {
                Some(old(self)@[handle])
            } else {
                None
            }),
    {
        self.prepared.remove(&handle)
    }
}

/// Preparation yields one GPU form per handle: once a handle holds one, a
/// further request for it is a cache hit and a further insert changes nothing,
/// so every entity that shares the handle draws with the same buffer and bind
/// group.
pub proof fn lemma_one_prepared_per_handle(
    cache: Map<u64, VoxelMeta>,
    handle: u64,
    first: VoxelMeta,
    second: VoxelMeta,
)
    ensures
        ({
            let once = store_prepared(cache, handle, first);
            &&& once.contains_key(handle)
            &&& store_prepared(once, handle, second) == once
            &&& once[handle] == (if cache.contains_key(handle) {
                cache[handle]
            } else {
                first
            })
            &&& once.dom() == cache.dom().insert(handle)
        }),
{
    let once = store_prepared(cache, handle, first);
    if cache.contains_key(handle) {
        assert(cache.dom().insert(handle) =~= cache.dom());
    } else {
        assert(once.dom() =~= cache.dom().insert(handle));
    }
}

} // verus!
