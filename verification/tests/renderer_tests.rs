use engine_shell::renderer::{GraphicsContext, SurfaceCaps, SurfaceError};
use engine_shell::window::GameWindow;
use engine_shell::world::EngineWorld;

fn ready_surface_manager() -> engine_shell::renderer::SurfaceManager {
    let window = GameWindow::new(String::from("render test"));
    let caps = SurfaceCaps { format_is_srgb: vec![false, true, true] };
    GraphicsContext::new().create_surface_manager(&window, &caps)
}

#[test]
fn negotiation_prefers_first_srgb_format() {
    let sm = ready_surface_manager();
    assert_eq!(sm.config.format_index, 1);
    assert_eq!(sm.size, (800, 600));
    assert_eq!(sm.config.width, 800);
    assert_eq!(sm.config.height, 600);
}

#[test]
fn negotiation_falls_back_to_first_format() {
    let window = GameWindow::new(String::from("render test"));
    let caps = SurfaceCaps { format_is_srgb: vec![false, false] };
    let sm = GraphicsContext::new().create_surface_manager(&window, &caps);
    assert_eq!(sm.config.format_index, 0);
}

#[test]
fn zero_extent_window_clamps_config_to_one_texel() {
    let mut window = GameWindow::new(String::from("render test"));
    window.inner.size = (0, 0);
    let caps = SurfaceCaps { format_is_srgb: vec![true] };
    let sm = GraphicsContext::new().create_surface_manager(&window, &caps);
    assert_eq!(sm.size, (0, 0));
    assert_eq!(sm.config.width, 1);
    assert_eq!(sm.config.height, 1);
}

#[test]
fn resize_with_zero_dimension_changes_nothing() {
    let mut sm = ready_surface_manager();
    let before = sm;
    sm.resize((0, 300));
    assert_eq!(sm, before);
    sm.resize((400, 0));
    assert_eq!(sm, before);
    sm.resize((0, 0));
    assert_eq!(sm, before);
}

#[test]
fn resize_reconfigures_in_place() {
    let mut sm = ready_surface_manager();
    sm.resize((1024, 768));
    assert_eq!(sm.size, (1024, 768));
    assert_eq!(sm.config.width, 1024);
    assert_eq!(sm.config.height, 768);
    assert_eq!(sm.config.format_index, 1);
}

#[test]
fn render_plans_one_draw_per_object() {
    let mut sm = ready_surface_manager();
    let mut world = EngineWorld::new();
    world.add_object((0.0f32.to_bits(), 0.0f32.to_bits()));
    world.add_object((0.5f32.to_bits(), (-0.25f32).to_bits()));
    world.add_object((1.0f32.to_bits(), 1.0f32.to_bits()));

    let plan = sm.render(&world);
    assert_eq!(plan.draws.len(), 3);
    for (draw, obj) in plan.draws.iter().zip(world.objects.iter()) {
        assert_eq!(draw.position, obj.position);
    }
    let times: Vec<u64> = plan.draws.iter().map(|d| d.time).collect();
    assert_eq!(times, vec![1, 2, 3]);

    let second = sm.render(&world);
    let times: Vec<u64> = second.draws.iter().map(|d| d.time).collect();
    assert_eq!(times, vec![4, 5, 6]);
    assert_eq!(sm.uniforms.time, 6);
    assert_eq!(sm.uniforms.position, (1.0f32.to_bits(), 1.0f32.to_bits()));
}

#[test]
fn render_over_empty_world_plans_nothing() {
    let mut sm = ready_surface_manager();
    let world = EngineWorld::new();
    let plan = sm.render(&world);
    assert_eq!(plan.draws.len(), 0);
    assert_eq!(sm.uniforms.time, 0);
}

#[test]
fn surface_error_classification() {
    assert!(!SurfaceError::Timeout.is_fatal());
    assert!(!SurfaceError::Outdated.is_fatal());
    assert!(!SurfaceError::Lost.is_fatal());
    assert!(SurfaceError::OutOfMemory.is_fatal());
    assert!(SurfaceError::Other.is_fatal());
    assert_eq!(SurfaceError::Lost.name(), "Lost");
}

#[test]
fn world_add_object_appends_with_zero_rotation() {
    let mut world = EngineWorld::new();
    assert_eq!(world.objects.len(), 0);
    world.add_object((7, 9));
    world.add_object((1, 2));
    assert_eq!(world.objects.len(), 2);
    assert_eq!(world.objects[0].position, (7, 9));
    assert_eq!(world.objects[1].position, (1, 2));
    assert_eq!(world.objects[0].rotation, 0.0f32.to_bits());
}
