//! The render pipeline manager: the GPU pipeline is compiled against one
//! bind-group layout, so its texture-array length must always equal the
//! slot count of the registry's layout it was built from.

use vstd::prelude::*;
use crate::registry::TextureRegistry;

verus! {

/// The state of the compiled render pipeline: how many texture slots the
/// layout it was built against exposes.
#[derive(Clone, Copy, Debug, PartialEq, Eq, Structural)]
pub struct PipelineManager {
    pub texture_slots: usize,
}

impl PipelineManager {
    /// The pipeline's baked-in texture-array length agrees with the
    /// registry's currently built layout.
    pub open spec fn in_sync(&self, registry: &TextureRegistry) -> bool {
        self.texture_slots == registry.bound_count
    }

    /// Compile the pipeline against the registry's current layout.
    pub fn build(registry: &TextureRegistry) -> (p: PipelineManager)
        ensures
            p.in_sync(registry),
    {
        PipelineManager { texture_slots: registry.bound_count() }
    }

    /// Recompile the pipeline after the registry's layout changed.
    pub fn rebuild(&mut self, registry: &TextureRegistry)
        ensures
            final(self).in_sync(registry),
    {
        self.texture_slots = registry.bound_count();
    }
}

} // verus!
