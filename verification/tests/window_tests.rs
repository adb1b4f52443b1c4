use computer_mark_up::color::Color;
use computer_mark_up::component::Component;
use computer_mark_up::hover::HoverComponent;
use computer_mark_up::screen_details::ScreenDetails;
use computer_mark_up::square::SquareComponent;
use computer_mark_up::window_state::WindowState;

#[test]
fn resize_with_a_zero_dimension_changes_nothing() {
    let mut ws = WindowState::new(800, 600);
    assert!(!ws.resize(0, 500));
    assert_eq!((ws.config.width, ws.config.height), (800, 600));
    assert_eq!((ws.screen_details.width, ws.screen_details.height), (800, 600));
    assert!(!ws.resize(500, 0));
    assert_eq!((ws.config.width, ws.config.height), (800, 600));
    assert!(!ws.resize(0, 0));
    assert_eq!((ws.config.width, ws.config.height), (800, 600));
}

#[test]
fn resize_with_positive_dimensions_updates_config_and_uniform() {
    let mut ws = WindowState::new(800, 600);
    assert!(ws.resize(1024, 768));
    assert_eq!((ws.config.width, ws.config.height), (1024, 768));
    assert_eq!((ws.screen_details.width, ws.screen_details.height), (1024, 768));
    assert_eq!((ws.screen_details.scroll_x, ws.screen_details.scroll_y), (0, 0));
    assert_eq!(ws.size(), (1024, 768));
}

#[test]
fn load_color_assigns_indices_and_keeps_everything_in_step() {
    let mut ws = WindowState::new(800, 600);
    assert_eq!(ws.load_color(Color::new(255, 128, 255, 255)), 0);
    assert_eq!(ws.load_color(Color::new(0, 255, 255, 255)), 1);
    assert_eq!(ws.textures.len(), 2);
    assert_eq!(ws.textures.bound_count(), 2);
    assert!(ws.textures.is_clean());
    assert_eq!(ws.pipeline.texture_slots, 2);
    assert_eq!(ws.textures.get(0).rgba, vec![255, 128, 255, 255]);
}

#[test]
fn reload_after_plain_register_restores_the_coupling() {
    let mut ws = WindowState::new(800, 600);
    ws.textures.register(Color::new(1, 1, 1, 1).as_texture());
    assert!(!ws.textures.is_clean());
    ws.reload_textures();
    assert!(ws.textures.is_clean());
    assert_eq!(ws.textures.bound_count(), 1);
    assert_eq!(ws.pipeline.texture_slots, 1);
}

#[test]
fn prepare_render_draws_the_standard_scene() {
    let mut ws = WindowState::new(1600, 600);
    ws.load_color(Color::new(255, 128, 255, 255));
    ws.load_color(Color::new(0, 255, 255, 255));
    let components = vec![
        Component::Square(SquareComponent::new(0, 0, 800, 600)),
        Component::Hover(HoverComponent::new(800, 0, 800, 600, 0, 1)),
    ];
    let plan = ws.prepare_render(&components).unwrap();
    assert_eq!(plan.vertices.len(), 8);
    assert_eq!(plan.indices.len(), 12);
}

#[test]
fn screen_details_pack_little_endian() {
    let details = ScreenDetails { width: 0x04030201, height: 640, scroll_x: 0, scroll_y: 0 };
    let bytes = details.to_bytes();
    assert_eq!(bytes.len(), 16);
    assert_eq!(&bytes[0..4], &[0x01, 0x02, 0x03, 0x04]);
    assert_eq!(&bytes[4..8], &[0x80, 0x02, 0x00, 0x00]);
    assert_eq!(&bytes[8..16], &[0; 8]);
}

#[test]
fn screen_details_pack_negative_scroll_as_twos_complement() {
    let details = ScreenDetails { width: 1, height: 1, scroll_x: -1, scroll_y: -2 };
    let bytes = details.to_bytes();
    assert_eq!(&bytes[8..12], &[0xff, 0xff, 0xff, 0xff]);
    assert_eq!(&bytes[12..16], &[0xfe, 0xff, 0xff, 0xff]);
}

#[test]
fn new_window_state_presents_the_placeholder_binding() {
    let ws = WindowState::new(320, 200);
    assert_eq!(ws.textures.len(), 0);
    assert_eq!(ws.textures.bound_count(), 1);
    assert_eq!(ws.pipeline.texture_slots, 1);
    assert_eq!(*ws.config(), computer_mark_up::window_state::SurfaceConfig { width: 320, height: 200 });
}
