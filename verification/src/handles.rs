//! Opaque value-type handles into externally owned tables.
//!
//! The render phase never owns the resources these name: an entity lives in
//! the entity store, a draw function in the draw-function registry, a compiled
//! pipeline in the pipeline cache, and a texture in the texture cache. Each
//! handle is a small copyable index that a collaborator resolves.

use vstd::prelude::*;

verus! {

/// Identity of the entity a draw command represents; resolved by the entity
/// store to per-entity bindable resources.
#[derive(Clone, Copy, PartialEq, Eq, Structural, Debug)]
pub struct Entity {
    /// Slot of the entity in the store.
    pub index: u32,
    /// Reuse counter of that slot, distinguishing an entity from earlier
    /// occupants of the same slot.
    pub generation: u32,
}

/// Handle identifying the procedure that encodes an item's draw command;
/// resolved by an external draw-function registry.
#[derive(Clone, Copy, PartialEq, Eq, Structural, Debug)]
pub struct DrawFunctionId {
    /// Index into the registry.
    pub id: u32,
}

/// Handle into an external pipeline cache, identifying the compiled GPU
/// pipeline state to bind before issuing the draw.
#[derive(Clone, Copy, PartialEq, Eq, Structural, Debug)]
pub struct CachedRenderPipelineId {
    /// Index into the cache.
    pub id: usize,
}

/// Handle to a texture owned by an external texture cache.
#[derive(Clone, Copy, PartialEq, Eq, Structural, Debug)]
pub struct CachedTexture {
    /// Index into the cache.
    pub id: u64,
}

} // verus!
