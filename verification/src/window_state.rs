//! The renderer's window-facing state: the stored surface configuration,
//! the viewport uniform, the texture registry and the pipeline, kept in
//! step with one another. The GPU handles themselves live with the caller;
//! this state carries every decision about them.

use vstd::prelude::*;
use crate::color::{Color, color_bytes};
use crate::component::Component;
use crate::frame::{FramePlan, RenderError, prepare_frame, textures_in_range};
use crate::pipeline::PipelineManager;
use crate::registry::{TextureRegistry, bind_slot_count, spec_rebuild};
use crate::screen_details::ScreenDetails;

verus! {

/// The stored surface configuration: the pixel size the surface was last
/// configured with.
#[derive(Clone, Copy, Debug, PartialEq, Eq, Structural)]
pub struct SurfaceConfig {
    pub width: u32,
    pub height: u32,
}

/// The verified core of the window renderer.
pub struct WindowState {
    pub config: SurfaceConfig,
    pub screen_details: ScreenDetails,
    pub textures: TextureRegistry,
    pub pipeline: PipelineManager,
}

impl WindowState {
    /// The registry is well formed and the viewport uniform agrees with
    /// the stored surface configuration.
    pub open spec fn wf(&self) -> bool {
        &&& self.textures.wf()
        &&& self.screen_details.width == self.config.width
        &&& self.screen_details.height == self.config.height
    }

    /// A fresh state for a surface of the given size: an empty registry
    /// presenting its placeholder slot, and a pipeline built against it.
    pub fn new(width: u32, height: u32) -> (w: WindowState)
        ensures
            w.config == (SurfaceConfig { width, height }),
            w.screen_details == (ScreenDetails { width, height, scroll_x: 0i32, scroll_y: 0i32 }),
            w.textures.textures@.len() == 0,
            w.textures.bound_count == 1,
            w.textures.clean,
            w.pipeline.in_sync(&w.textures),
            w.wf(),
    {
        let textures = TextureRegistry::new();
        let pipeline = PipelineManager::build(&textures);
        WindowState {
            config: SurfaceConfig { width, height },
            screen_details: ScreenDetails::new(width, height),
            textures,
            pipeline,
        }
    }

    /// The stored surface size.
    pub fn size(&self) -> (r: (u32, u32))
        ensures
            r.0 == self.config.width,
            r.1 == self.config.height,
    {
        (self.config.width, self.config.height)
    }

    /// The stored surface configuration.
    pub fn config(&self) -> (r: &SurfaceConfig)
        ensures
            *r == self.config,
    {
        &self.config
    }

    /// Apply a resize event. A size with a zero dimension is a no-op: the
    /// stored configuration and the uniform keep their values. A positive
    /// size updates both to match exactly, preserving the scroll offset;
    /// the caller reconfigures the surface exactly when `changed` holds.
    pub fn resize(&mut self, new_width: u32, new_height: u32) -> (changed: bool)
        requires
            old(self).wf(),
        ensures
            changed == (new_width > 0 && new_height > 0),
            changed ==> {
                &&& final(self).config == (SurfaceConfig { width: new_width, height: new_height })
                &&& final(self).screen_details == (ScreenDetails {
                    width: new_width,
                    height: new_height,
                    scroll_x: old(self).screen_details.scroll_x,
                    scroll_y: old(self).screen_details.scroll_y,
                })
                &&& final(self).textures == old(self).textures
                &&& final(self).pipeline == old(self).pipeline
            },
            !changed ==> *final(self) == *old(self),
            final(self).wf(),
    {
        if new_width > 0 && new_height > 0 {
            self.config.width = new_width;
            self.config.height = new_height;
            self.screen_details.width = new_width;
            self.screen_details.height = new_height;
            true
        } else {
            false
        }
    }

    /// Register a one-pixel texture of the given color and rebuild the
    /// bind group and the pipeline around it: the new texture's index is
    /// the previous count, and the layout, bind group and pipeline agree
    /// on the new count when the call returns.
    pub fn load_color(&mut self, color: Color) -> (index: u32)
        requires
            old(self).wf(),
            old(self).textures.textures@.len() < u32::MAX,
        ensures
            index as int == old(self).textures.textures@.len(),
            final(self).textures.textures@.len() == old(self).textures.textures@.len() + 1,
            final(self).textures.textures@.subrange(
                0,
                old(self).textures.textures@.len() as int,
            ) == old(self).textures.textures@,
            final(self).textures.textures@.last().width == 1,
            final(self).textures.textures@.last().height == 1,
            final(self).textures.textures@.last().rgba@ == color_bytes(color),
            final(self).textures.clean,
            final(self).textures.bound_count as int == old(self).textures.textures@.len() + 1,
            final(self).pipeline.in_sync(&final(self).textures),
            final(self).config == old(self).config,
            final(self).screen_details == old(self).screen_details,
            final(self).wf(),
    {
        let texture = color.as_texture();
        let index = self.textures.register(texture);
        self.reload_textures();
        proof {
            assert(final(self).textures.textures@.subrange(
                0,
                old(self).textures.textures@.len() as int,
            ) =~= old(self).textures.textures@);
        }
        index
    }

    /// Rebuild the bind-group layout and bind group from the current
    /// texture collection, then the pipeline against the new layout.
    /// Afterwards the registry is clean and everything agrees on the slot
    /// count.
    pub fn reload_textures(&mut self)
        requires
            old(self).wf(),
        ensures
            final(self).textures.model() == spec_rebuild(old(self).textures.model()),
            final(self).textures.bound_count as int == bind_slot_count(
                old(self).textures.textures@.len() as int,
            ),
            final(self).textures.clean,
            final(self).pipeline.in_sync(&final(self).textures),
            final(self).config == old(self).config,
            final(self).screen_details == old(self).screen_details,
            final(self).wf(),
    {
        self.textures.rebuild_bind_group();
        self.reconstruct_pipeline();
    }

    /// Recompile the pipeline against the registry's current layout.
    pub fn reconstruct_pipeline(&mut self)
        ensures
            final(self).pipeline.in_sync(&final(self).textures),
            final(self).textures == old(self).textures,
            final(self).config == old(self).config,
            final(self).screen_details == old(self).screen_details,
    {
        self.pipeline.rebuild(&self.textures);
    }

    /// Assemble one frame over the given components: the batched vertex
    /// and index buffers, after checking that the registry is clean, the
    /// pipeline matches its layout, and every texture index is in range.
    pub fn prepare_render(&self, components: &Vec<Component>) -> (r: Result<
        FramePlan,
        RenderError,
    >)
        requires
            self.wf(),
            forall|i: int| 0 <= i < components@.len() ==> (#[trigger] components@[i]).wf(),
            4 * components@.len() <= u32::MAX + 1,
            4 * components@.len() <= usize::MAX,
        ensures
            r is Ok <==> (self.textures.clean && self.pipeline.in_sync(&self.textures)
                && textures_in_range(components@, self.textures.bound_count as int)),
            r matches Ok(plan) ==> {
                &&& crate::frame::scene_quads_ok(components@, plan.vertices@)
                &&& plan.indices@ == crate::frame::quad_indices_seq(components@.len() as int)
                &&& plan.indices@.len() == 6 * components@.len()
            },
    {
        prepare_frame(components, &self.textures, &self.pipeline)
    }
}

} // verus!
