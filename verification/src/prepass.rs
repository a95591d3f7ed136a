//! The two phase-item variants of the 3D prepass.
//!
//! Opaque and alpha-masked geometry populate disjoint phase collections with
//! independent sort and draw passes, so the two records are distinct types of
//! identical shape: a draw command from one phase can never stand in the
//! other's collection, and sorting one collection cannot touch the other.
//!
//! Both phases sort front to back — smallest distance first, nearest to the
//! camera drawn first — which maximizes early depth-test rejection in the
//! main pass. An item is an immutable snapshot built fresh each frame: after
//! insertion it is only reordered, never changed.

use vstd::prelude::*;

use crate::handles::{CachedRenderPipelineId, DrawFunctionId, Entity};
use crate::phase::{
    sort_items, CachedRenderPipelinePhaseItem, EntityPhaseItem, PhaseItem, SortKeyed,
};
use crate::sort_key::SortKey;

verus! {

/// One draw command of the opaque phase of the 3D prepass: a mesh whose
/// material has no transparency.
pub struct Opaque3dPrepass {
    /// View-space distance of the mesh from the camera, as the bit pattern
    /// of a 32-bit IEEE-754 value; the phase sorts ascending by it under the
    /// total order of `SortKey`.
    pub distance: u32,
    /// The entity this draw command represents.
    pub entity: Entity,
    /// Compiled pipeline state to bind for this draw.
    pub pipeline_id: CachedRenderPipelineId,
    /// Procedure that encodes this draw command.
    pub draw_function: DrawFunctionId,
}

impl SortKeyed for Opaque3dPrepass {
    open spec fn spec_sort_key(&self) -> SortKey {
        SortKey { bits: self.distance }
    }

    fn sort_key(&self) -> SortKey {
        SortKey::new(self.distance)
    }
}

impl PhaseItem for Opaque3dPrepass {
    open spec fn spec_draw_function(&self) -> DrawFunctionId {
        self.draw_function
    }

    fn draw_function(&self) -> DrawFunctionId {
        self.draw_function
    }

    fn sort(items: &mut Vec<Self>) {
        sort_items(items);
    }
}

impl EntityPhaseItem for Opaque3dPrepass {
    open spec fn spec_entity(&self) -> Entity {
        self.entity
    }

    fn entity(&self) -> Entity {
        self.entity
    }
}

impl CachedRenderPipelinePhaseItem for Opaque3dPrepass {
    open spec fn spec_cached_pipeline(&self) -> CachedRenderPipelineId {
        self.pipeline_id
    }

    fn cached_pipeline(&self) -> CachedRenderPipelineId {
        self.pipeline_id
    }
}

/// One draw command of the alpha-mask phase of the 3D prepass: a mesh whose
/// material has an alpha mask.
pub struct AlphaMask3dPrepass {
    /// View-space distance of the mesh from the camera, as the bit pattern
    /// of a 32-bit IEEE-754 value; the phase sorts ascending by it under the
    /// total order of `SortKey`.
    pub distance: u32,
    /// The entity this draw command represents.
    pub entity: Entity,
    /// Compiled pipeline state to bind for this draw.
    pub pipeline_id: CachedRenderPipelineId,
    /// Procedure that encodes this draw command.
    pub draw_function: DrawFunctionId,
}

impl SortKeyed for AlphaMask3dPrepass {
    open spec fn spec_sort_key(&self) -> SortKey {
        SortKey { bits: self.distance }
    }

    fn sort_key(&self) -> SortKey {
        SortKey::new(self.distance)
    }
}

impl PhaseItem for AlphaMask3dPrepass {
    open spec fn spec_draw_function(&self) -> DrawFunctionId {
        self.draw_function
    }

    fn draw_function(&self) -> DrawFunctionId {
        self.draw_function
    }

    fn sort(items: &mut Vec<Self>) {
        sort_items(items);
    }
}

impl EntityPhaseItem for AlphaMask3dPrepass {
    open spec fn spec_entity(&self) -> Entity {
        self.entity
    }

    fn entity(&self) -> Entity {
        self.entity
    }
}

impl CachedRenderPipelinePhaseItem for AlphaMask3dPrepass {
    open spec fn spec_cached_pipeline(&self) -> CachedRenderPipelineId {
        self.pipeline_id
    }

    fn cached_pipeline(&self) -> CachedRenderPipelineId {
        self.pipeline_id
    }
}

} // verus!
