//! Collision layers as plain bit masks: which kind of shape each entity is,
//! and which kinds it interacts with.

use vstd::prelude::*;

verus! {

/// The physics layers required in the game.
#[derive(Clone, Copy, PartialEq, Eq, Structural, Debug)]
pub enum Layers {
    /// Any placed building
    Building,
    /// A chimney on top of a building
    Chimney,
    /// The preview building
    PreviewBuilding,
    /// Used for updating the preview building
    Cursor,
    /// Tectonic plates which will be creating the earthquake
    Plates,
    /// The ground keeps the plates at a certain level
    Ground,
}

/// The bit that stands for one layer.
pub open spec fn layer_mask(l: Layers) -> u32 {
    match l {
        Layers::Building => 1u32,
        Layers::Chimney => 2u32,
        Layers::PreviewBuilding => 4u32,
        Layers::Cursor => 8u32,
        Layers::Plates => 16u32,
        Layers::Ground => 32u32,
    }
}

impl Layers {
    /// Returns the layer's bit.
    pub fn mask(self) -> (r: u32)
        ensures
            r == layer_mask(self),
    {
        match self {
            Layers::Building => 1,
            Layers::Chimney => 2,
            Layers::PreviewBuilding => 4,
            Layers::Cursor => 8,
            Layers::Plates => 16,
            Layers::Ground => 32,
        }
    }
}

/// What an entity is (memberships) and what it interacts with (filters),
/// each a union of layer bits.
#[derive(Clone, Copy, PartialEq, Eq, Structural, Debug)]
pub struct CollisionLayerSet {
    /// the layers the entity belongs to
    pub memberships: u32,
    /// the layers the entity interacts with
    pub filters: u32,
}

/// layers required by Building
pub fn building_layers() -> (r: CollisionLayerSet)
    ensures
        r.memberships == layer_mask(Layers::Building),
        r.filters == layer_mask(Layers::PreviewBuilding) | layer_mask(Layers::Cursor)
            | layer_mask(Layers::Building) | layer_mask(Layers::Plates),
{
    CollisionLayerSet { memberships: 1, filters: 4 | 8 | 1 | 16 }
}

/// layers required by chimneys
pub fn chimney_layers() -> (r: CollisionLayerSet)
    ensures
        r.memberships == layer_mask(Layers::Chimney),
        r.filters == layer_mask(Layers::PreviewBuilding),
{
    CollisionLayerSet { memberships: 2, filters: 4 }
}

/// layers required by Cursor Builder
pub fn cursor_builder_layers() -> (r: CollisionLayerSet)
    ensures
        r.memberships == layer_mask(Layers::Cursor),
        r.filters == layer_mask(Layers::Building),
{
    CollisionLayerSet { memberships: 8, filters: 1 }
}

/// layers required by Preview Building
pub fn preview_building_layers() -> (r: CollisionLayerSet)
    ensures
        r.memberships == layer_mask(Layers::PreviewBuilding),
        r.filters == layer_mask(Layers::Building) | layer_mask(Layers::Chimney)
            | layer_mask(Layers::Plates),
{
    CollisionLayerSet { memberships: 4, filters: 1 | 2 | 16 }
}

/// layers required by plates
pub fn plates_layers() -> (r: CollisionLayerSet)
    ensures
        r.memberships == layer_mask(Layers::Plates),
        r.filters == layer_mask(Layers::Building) | layer_mask(Layers::Ground),
{
    CollisionLayerSet { memberships: 16, filters: 1 | 32 }
}

/// layers required by ground
pub fn ground_layers() -> (r: CollisionLayerSet)
    ensures
        r.memberships == layer_mask(Layers::Ground),
        r.filters == layer_mask(Layers::Plates),
{
    CollisionLayerSet { memberships: 32, filters: 16 }
}

} // verus!
