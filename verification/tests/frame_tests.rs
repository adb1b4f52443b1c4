use computer_mark_up::color::Color;
use computer_mark_up::component::Component;
use computer_mark_up::frame::{
    FrameAction, RenderError, SurfaceIssue, handle_surface_issue, prepare_frame, quad_indices,
};
use computer_mark_up::hover::HoverComponent;
use computer_mark_up::pipeline::PipelineManager;
use computer_mark_up::registry::TextureRegistry;
use computer_mark_up::square::SquareComponent;

#[test]
fn index_sequence_for_two_quads() {
    let idx = quad_indices(2);
    assert_eq!(idx, vec![1, 2, 0, 3, 2, 1, 5, 6, 4, 7, 6, 5]);
}

#[test]
fn index_sequence_for_zero_quads_is_empty() {
    assert_eq!(quad_indices(0), Vec::<u32>::new());
}

#[test]
fn index_sequence_length_and_bounds() {
    for n in 0..8usize {
        let idx = quad_indices(n);
        assert_eq!(idx.len(), 6 * n);
        for v in &idx {
            assert!((*v as usize) < 4 * n);
        }
    }
}

#[test]
fn surface_issue_policy() {
    assert_eq!(handle_surface_issue(SurfaceIssue::Outdated), FrameAction::SkipFrame);
    assert_eq!(handle_surface_issue(SurfaceIssue::Timeout), FrameAction::SkipFrame);
    assert_eq!(handle_surface_issue(SurfaceIssue::Lost), FrameAction::ReconfigureSurface);
    assert_eq!(handle_surface_issue(SurfaceIssue::OutOfMemory), FrameAction::StopLoop);
}

fn ready_registry() -> TextureRegistry {
    let mut registry = TextureRegistry::new();
    registry.register(Color::new(1, 2, 3, 4).as_texture());
    registry.register(Color::new(5, 6, 7, 8).as_texture());
    registry.rebuild_bind_group();
    registry
}

#[test]
fn prepare_frame_batches_vertices_and_indices() {
    let registry = ready_registry();
    let pipeline = PipelineManager::build(&registry);
    let components = vec![
        Component::Square(SquareComponent::new(0, 0, 800, 600)),
        Component::Hover(HoverComponent::new(800, 0, 800, 600, 0, 1)),
    ];
    let plan = prepare_frame(&components, &registry, &pipeline).unwrap();
    assert_eq!(plan.vertices.len(), 8);
    assert_eq!(plan.indices.len(), 12);
    assert_eq!((plan.vertices[0].position_x, plan.vertices[0].position_y), (0, 0));
    assert_eq!((plan.vertices[3].position_x, plan.vertices[3].position_y), (800, 600));
    assert_eq!((plan.vertices[4].position_x, plan.vertices[4].position_y), (800, 0));
    assert_eq!((plan.vertices[7].position_x, plan.vertices[7].position_y), (1600, 600));
    assert_eq!(plan.vertices[4].texture_index, 0);
    assert_eq!(plan.indices, vec![1, 2, 0, 3, 2, 1, 5, 6, 4, 7, 6, 5]);
}

#[test]
fn prepare_frame_rejects_a_stale_bind_group() {
    let mut registry = ready_registry();
    let pipeline = PipelineManager::build(&registry);
    registry.register(Color::new(9, 9, 9, 9).as_texture());
    let components = vec![Component::Square(SquareComponent::new(0, 0, 10, 10))];
    let r = prepare_frame(&components, &registry, &pipeline);
    assert_eq!(r.unwrap_err(), RenderError::StaleBindGroup);
}

#[test]
fn prepare_frame_rejects_a_mismatched_pipeline() {
    let mut registry = ready_registry();
    let pipeline = PipelineManager::build(&registry);
    registry.register(Color::new(9, 9, 9, 9).as_texture());
    registry.rebuild_bind_group();
    let components = vec![Component::Square(SquareComponent::new(0, 0, 10, 10))];
    let r = prepare_frame(&components, &registry, &pipeline);
    assert_eq!(r.unwrap_err(), RenderError::PipelineLayoutMismatch);
}

#[test]
fn prepare_frame_rejects_an_out_of_range_texture_index() {
    let registry = ready_registry();
    let pipeline = PipelineManager::build(&registry);
    let components = vec![
        Component::Hover(HoverComponent::new(0, 0, 10, 10, 0, 5)),
        Component::Hover(HoverComponent::new(0, 0, 10, 10, 7, 1)),
    ];
    // The second component starts on its base texture 7, past the two slots.
    let r = prepare_frame(&components, &registry, &pipeline);
    assert_eq!(r.unwrap_err(), RenderError::TextureIndexOutOfRange);
}

#[test]
fn prepare_frame_accepts_an_empty_scene() {
    let registry = TextureRegistry::new();
    let pipeline = PipelineManager::build(&registry);
    let components: Vec<Component> = Vec::new();
    let plan = prepare_frame(&components, &registry, &pipeline).unwrap();
    assert!(plan.vertices.is_empty());
    assert!(plan.indices.is_empty());
}
