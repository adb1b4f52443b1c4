//! Per-frame draw-call assembly: the batched index sequence for a run of
//! quads, and the frame loop's policy for surface acquisition failures.
//!
//! Each quad owns four consecutive vertices; quad `i` contributes the six
//! indices `[1, 2, 0, 3, 2, 1]`, each offset by `4*i`, drawing the quad as
//! two triangles.

use vstd::prelude::*;
use crate::component::{
    Component,
    component_height,
    component_texture,
    component_width,
    component_x,
    component_y,
};
use crate::pipeline::PipelineManager;
use crate::registry::TextureRegistry;
use crate::vertex::{ComponentVertex, is_quad_for};

verus! {

/// The local vertex id that position `k` of the six-entry quad pattern
/// refers to: the pattern `[1, 2, 0, 3, 2, 1]`.
pub open spec fn quad_index_pattern(k: int) -> int {
    if k == 0 {
        1
    } else if k == 1 {
        2
    } else if k == 2 {
        0
    } else if k == 3 {
        3
    } else if k == 4 {
        2
    } else {
        1
    }
}

/// The six indices quad `i` contributes: the fixed pattern offset by `4*i`.
pub open spec fn indices_for_quad(i: int) -> Seq<u32> {
    seq![
        (4 * i + 1) as u32,
        (4 * i + 2) as u32,
        (4 * i) as u32,
        (4 * i + 3) as u32,
        (4 * i + 2) as u32,
        (4 * i + 1) as u32,
    ]
}

/// The whole index sequence for `n` quads, quad by quad.
pub open spec fn quad_indices_seq(n: int) -> Seq<u32>
    decreases n,
{
    if n <= 0 {
        Seq::empty()
    } else {
        quad_indices_seq(n - 1) + indices_for_quad(n - 1)
    }
}

/// The index sequence for `n` quads has length `6*n`.
pub proof fn lemma_quad_indices_len(n: int)
    requires
        0 <= n,
    ensures
        quad_indices_seq(n).len() == 6 * n,
    decreases n,
{
    if n > 0 {
        lemma_quad_indices_len(n - 1);
    }
}

/// Entry `6*i + k` of the index sequence is `quad_index_pattern(k) + 4*i`:
/// the fixed local pattern, offset by four vertices per preceding quad.
pub proof fn lemma_quad_index_entry(n: int, i: int, k: int)
    requires
        0 <= i < n,
        0 <= k < 6,
        4 * n <= u32::MAX + 1,
    ensures
        quad_indices_seq(n)[6 * i + k] == quad_index_pattern(k) + 4 * i,
    decreases n,
{
    lemma_quad_indices_len(n - 1);
    if i < n - 1 {
        lemma_quad_index_entry(n - 1, i, k);
    }
}

/// Every index for `n` quads addresses one of the `4*n` batched vertices.
pub proof fn lemma_quad_indices_bound(n: int)
    requires
        0 <= n,
        4 * n <= u32::MAX + 1,
    ensures
        forall|k: int|
            0 <= k < quad_indices_seq(n).len() ==> (quad_indices_seq(n)[k] as int) < 4 * n,
    decreases n,
{
    if n > 0 {
        lemma_quad_indices_bound(n - 1);
        lemma_quad_indices_len(n - 1);
        assert forall|k: int| 0 <= k < quad_indices_seq(n).len() implies (quad_indices_seq(n)[k] as int)
            < 4 * n by {
            if k >= 6 * (n - 1) {
                assert(quad_indices_seq(n)[k] == indices_for_quad(n - 1)[k - 6 * (n - 1)]);
            }
        }
    }
}

/// The batched index buffer for `count` quads.
pub fn quad_indices(count: usize) -> (r: Vec<u32>)
    requires
        4 * count <= u32::MAX + 1,
    ensures
        r@ == quad_indices_seq(count as int),
        r@.len() == 6 * count,
{
    let mut r: Vec<u32> = Vec::new();
    let mut i: usize = 0;
    while i < count
        invariant
            i <= count,
            4 * count <= u32::MAX + 1,
            r@ == quad_indices_seq(i as int),
        decreases count - i,
    {
        let base: u32 = 4 * (i as u32);
        r.push(base + 1);
        r.push(base + 2);
        r.push(base);
        r.push(base + 3);
        r.push(base + 2);
        r.push(base + 1);
        proof {
            assert(r@ =~= quad_indices_seq(i + 1));
        }
        i = i + 1;
    }
    proof {
        lemma_quad_indices_len(count as int);
    }
    r
}

/// The batched vertex buffer holds, for each component in scene order, its
/// four quad vertices at offset `4*i`.
pub open spec fn scene_quads_ok(
    components: Seq<Component>,
    vertices: Seq<ComponentVertex>,
) -> bool {
    &&& vertices.len() == 4 * components.len()
    &&& forall|i: int|
        0 <= i < components.len() ==> is_quad_for(
            #[trigger] vertices.subrange(4 * i, 4 * i + 4),
            component_x(components[i]),
            component_y(components[i]),
            component_width(components[i]),
            component_height(components[i]),
            component_texture(components[i]),
        )
}

/// Every component's texture index addresses a slot of a layout with
/// `slots` slots.
pub open spec fn textures_in_range(components: Seq<Component>, slots: int) -> bool {
    forall|i: int|
        0 <= i < components.len() ==> (#[trigger] component_texture(components[i]) as int) < slots
}

/// Concatenate the components' quads, in scene order, into one vertex
/// buffer: four vertices per component.
pub fn batch_vertices(components: &Vec<Component>) -> (r: Vec<ComponentVertex>)
    requires
        forall|i: int| 0 <= i < components@.len() ==> (#[trigger] components@[i]).wf(),
        4 * components@.len() <= usize::MAX,
    ensures
        scene_quads_ok(components@, r@),
{
    let mut r: Vec<ComponentVertex> = Vec::new();
    let mut i: usize = 0;
    while i < components.len()
        invariant
            i <= components@.len(),
            forall|j: int| 0 <= j < components@.len() ==> (#[trigger] components@[j]).wf(),
            4 * components@.len() <= usize::MAX,
            r@.len() == 4 * i,
            forall|j: int|
                0 <= j < i ==> is_quad_for(
                    #[trigger] r@.subrange(4 * j, 4 * j + 4),
                    component_x(components@[j]),
                    component_y(components@[j]),
                    component_width(components@[j]),
                    component_height(components@[j]),
                    component_texture(components@[j]),
                ),
        decreases components@.len() - i,
    {
        let ghost prev_r = r@;
        let quad = components[i].get_vertices();
        r.push(quad[0]);
        r.push(quad[1]);
        r.push(quad[2]);
        r.push(quad[3]);
        proof {
            assert forall|j: int| 0 <= j < i + 1 implies is_quad_for(
                #[trigger] r@.subrange(4 * j, 4 * j + 4),
                component_x(components@[j]),
                component_y(components@[j]),
                component_width(components@[j]),
                component_height(components@[j]),
                component_texture(components@[j]),
            ) by {
                if j < i {
                    assert(r@.subrange(4 * j, 4 * j + 4) =~= prev_r.subrange(4 * j, 4 * j + 4));
                } else {
                    assert(r@.subrange(4 * j, 4 * j + 4) =~= quad@);
                }
            }
        }
        i = i + 1;
    }
    r
}

/// Whether every component's texture index is below `slots`.
pub fn check_textures(components: &Vec<Component>, slots: usize) -> (ok: bool)
    ensures
        ok == textures_in_range(components@, slots as int),
{
    let mut i: usize = 0;
    while i < components.len()
        invariant
            i <= components@.len(),
            forall|j: int|
                0 <= j < i ==> (#[trigger] component_texture(components@[j]) as int) < slots as int,
        decreases components@.len() - i,
    {
        let texture = components[i].texture_id();
        if (texture as usize) >= slots {
            return false;
        }
        i = i + 1;
    }
    true
}

/// Everything one render pass needs beyond the GPU objects themselves:
/// the batched vertex buffer and the index buffer covering it.
#[derive(Debug)]
pub struct FramePlan {
    pub vertices: Vec<ComponentVertex>,
    pub indices: Vec<u32>,
}

/// Why a frame could not be prepared. All three are programming errors
/// surfaced before any draw call, never silently clamped.
#[derive(Clone, Copy, Debug, PartialEq, Eq, Structural)]
pub enum RenderError {
    /// A texture was registered after the last bind-group rebuild.
    StaleBindGroup,
    /// The pipeline was compiled against a layout with a different slot
    /// count than the registry's current one.
    PipelineLayoutMismatch,
    /// Some component's texture index is not a slot of the built layout.
    TextureIndexOutOfRange,
}

/// Assemble one frame: check the registry/pipeline coupling and every
/// texture index, then batch the quads and generate the matching index
/// sequence. Fails exactly when an invariant does not hold, naming the
/// first violated one.
pub fn prepare_frame(
    components: &Vec<Component>,
    registry: &TextureRegistry,
    pipeline: &PipelineManager,
) -> (r: Result<FramePlan, RenderError>)
    requires
        forall|i: int| 0 <= i < components@.len() ==> (#[trigger] components@[i]).wf(),
        4 * components@.len() <= u32::MAX + 1,
        4 * components@.len() <= usize::MAX,
    ensures
        r is Ok <==> (registry.clean && pipeline.in_sync(registry) && textures_in_range(
            components@,
            registry.bound_count as int,
        )),
        r matches Ok(plan) ==> {
            &&& scene_quads_ok(components@, plan.vertices@)
            &&& plan.indices@ == quad_indices_seq(components@.len() as int)
            &&& plan.indices@.len() == 6 * components@.len()
        },
        !registry.clean ==> r == Err::<FramePlan, RenderError>(RenderError::StaleBindGroup),
        registry.clean && !pipeline.in_sync(registry) ==> r == Err::<FramePlan, RenderError>(
            RenderError::PipelineLayoutMismatch,
        ),
        registry.clean && pipeline.in_sync(registry) && !textures_in_range(
            components@,
            registry.bound_count as int,
        ) ==> r == Err::<FramePlan, RenderError>(RenderError::TextureIndexOutOfRange),
{
    if !registry.is_clean() {
        return Err(RenderError::StaleBindGroup);
    }
    if pipeline.texture_slots != registry.bound_count() {
        return Err(RenderError::PipelineLayoutMismatch);
    }
    if !check_textures(components, registry.bound_count()) {
        return Err(RenderError::TextureIndexOutOfRange);
    }
    let vertices = batch_vertices(components);
    let indices = quad_indices(components.len());
    Ok(FramePlan { vertices, indices })
}

/// A failed attempt to acquire the next presentable surface image, reduced
/// to the conditions the frame loop distinguishes.
#[derive(Clone, Copy, Debug, PartialEq, Eq, Structural)]
pub enum SurfaceIssue {
    /// The surface no longer matches the window; the next frame will see a
    /// reconfigured surface.
    Outdated,
    /// Acquisition did not finish in time.
    Timeout,
    /// The surface was lost and must be configured again before use.
    Lost,
    /// The GPU is out of memory.
    OutOfMemory,
}

/// What the frame loop does after a failed acquisition.
#[derive(Clone, Copy, Debug, PartialEq, Eq, Structural)]
pub enum FrameAction {
    /// Skip this frame; the next attempt is expected to succeed.
    SkipFrame,
    /// Reconfigure the surface with the last known size, then go on.
    ReconfigureSurface,
    /// Resource exhaustion: stop the frame loop.
    StopLoop,
}

/// The frame loop's policy for a failed surface acquisition: transient
/// conditions skip the frame, a lost surface is reconfigured, and memory
/// exhaustion stops the loop.
pub fn handle_surface_issue(issue: SurfaceIssue) -> (action: FrameAction)
    ensures
        action == (match issue {
            SurfaceIssue::Outdated => FrameAction::SkipFrame,
            SurfaceIssue::Timeout => FrameAction::SkipFrame,
            SurfaceIssue::Lost => FrameAction::ReconfigureSurface,
            SurfaceIssue::OutOfMemory => FrameAction::StopLoop,
        }),
{
    match issue {
        SurfaceIssue::Outdated => FrameAction::SkipFrame,
        SurfaceIssue::Timeout => FrameAction::SkipFrame,
        SurfaceIssue::Lost => FrameAction::ReconfigureSurface,
        SurfaceIssue::OutOfMemory => FrameAction::StopLoop,
    }
}

} // verus!
