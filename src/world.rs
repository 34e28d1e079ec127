//! The simulation-side entity table that extraction reads.
use vstd::prelude::*;

use crate::voxel::Voxel;

verus! {

/// Where an entity stands: the translation of its global transform, as whole
/// steps of a fixed unit that the caller chooses. This is the part of the
/// transform that ordering draws reads.
#[derive(Clone, Copy, Debug, PartialEq, Eq, Structural)]
pub struct Translation {
    pub x: i32,
    pub y: i32,
    pub z: i32,
}

impl Translation {
    /// The origin.
    pub fn zero() -> (r: Translation)
        ensures
            r == (Translation { x: 0, y: 0, z: 0 }),
    {
        Translation { x: 0, y: 0, z: 0 }
    }
}

/// One row of the simulation world's entity table: the components that the
/// voxel renderer reads.
#[derive(Clone, Copy, Debug, PartialEq, Eq, Structural)]
pub struct WorldEntity {
    pub entity: u64,
    /// The voxel component, when the entity has one.
    pub voxel: Option<Voxel>,
    /// The translation of the entity's global transform.
    pub translation: Translation,
    /// Whether the entity is visible this frame (its computed visibility).
    pub visible: bool,
    /// The entity carries the marker that keeps shadows off it.
    pub not_shadow_receiver: bool,
    /// The entity carries the marker that keeps it from casting shadows.
    pub not_shadow_caster: bool,
    /// The entity carries the per-entity wireframe marker.
    pub wireframe: bool,
}

/// The entity with its computed visibility set to `visible`.
pub open spec fn with_visibility(e: WorldEntity, visible: bool) -> WorldEntity {
    WorldEntity { visible: visible, ..e }
}

/// The entity moved to `t`.
pub open spec fn with_translation(e: WorldEntity, t: Translation) -> WorldEntity {
    WorldEntity { translation: t, ..e }
}

/// The entity with the wireframe marker attached (`marked`) or removed.
pub open spec fn with_wireframe_marker(e: WorldEntity, marked: bool) -> WorldEntity {
    WorldEntity { wireframe: marked, ..e }
}

/// The components a voxel entity is spawned with.
#[derive(Clone, Copy, Debug, PartialEq, Eq, Structural)]
pub struct VoxelBundle {
    pub voxel: Voxel,
    pub transform: Translation,
    pub global_transform: Translation,
    /// Whether the user asks for the entity to be shown.
    pub visibility: bool,
    /// Whether the entity was found visible and is to be extracted for rendering.
    pub computed_visibility: bool,
}

impl VoxelBundle {
    /// A bundle at the origin with the default grid handle, shown by the user
    /// but not yet found visible.
    pub fn default() -> (r: VoxelBundle)
        ensures
            r == (VoxelBundle {
                voxel: Voxel { data: 0 },
                transform: Translation { x: 0, y: 0, z: 0 },
                global_transform: Translation { x: 0, y: 0, z: 0 },
                visibility: true,
                computed_visibility: false,
            }),
    {
        VoxelBundle {
            voxel: Voxel { data: 0 },
            transform: Translation::zero(),
            global_transform: Translation::zero(),
            visibility: true,
            computed_visibility: false,
        }
    }

    /// The table row of an entity spawned with this bundle and no marker.
    pub fn spawn(&self, entity: u64) -> (r: WorldEntity)
        ensures
            r == (WorldEntity {
                entity: entity,
                voxel: Some(self.voxel),
                translation: self.global_transform,
                visible: self.computed_visibility,
                not_shadow_receiver: false,
                not_shadow_caster: false,
                wireframe: false,
            }),
    {
        WorldEntity {
            entity,
            voxel: Some(self.voxel),
            translation: self.global_transform,
            visible: self.computed_visibility,
            not_shadow_receiver: false,
            not_shadow_caster: false,
            wireframe: false,
        }
    }
}

} // verus!
