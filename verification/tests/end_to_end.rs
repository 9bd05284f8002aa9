use watersim::camera::create_camera;
use watersim::config::read_config;
use watersim::mesh::{draw_vertex_count, grid_vertices};
use watersim::render::{process_keyboard_events, InputEvent, SimClock};
use watersim::camera::Key;
use watersim::vec3::Vec3I;
use watersim::waves::synthesize;

#[test]
fn startup_to_first_frame() {
    let text = b"shader_dir shaders\ngrid_size 4\nscale 0.5\nspeed 0.01\nnum_params 3\n";
    let config = read_config(text).unwrap();
    assert_eq!(config.grid_size, 4);
    assert_eq!(config.scale_micro, 500_000);
    assert_eq!(config.speed_micro, 10_000);
    assert_eq!(config.num_params, 3);

    // the synthesizer output for the fixed seed is reproducible
    let w1 = synthesize(42, config.num_params);
    let w2 = synthesize(42, config.num_params);
    assert_eq!(w1.amplitude_micro, w2.amplitude_micro);
    assert_eq!(w1.angle_micro, w2.angle_micro);
    assert_eq!(w1.speed_micro, vec![1_000_000, 1_000_000, 1_000_000]);

    // the mesh covers 6·n² vertices
    assert_eq!(grid_vertices(config.grid_size).len(), 12 * 16);
    assert_eq!(draw_vertex_count(config.grid_size), 96);

    // one forward key moves the camera by direction/20 exactly
    let mut camera = create_camera(
        Vec3I { x: 40_200, y: -931_280, z: 833_960 },
        Vec3I { x: -15_030, y: 722_822, z: -690_870 },
    );
    let start = camera.position;
    let dir = camera.direction;
    let running = process_keyboard_events(&mut camera, &vec![InputEvent::KeyDown(Key::W)]);
    assert!(running);
    assert_eq!(camera.position.x, start.x + dir.x / 20);
    assert_eq!(camera.position.y, start.y + dir.y / 20);
    assert_eq!(camera.position.z, start.z + dir.z / 20);

    // the clock ticks by the configured speed
    let mut clock = SimClock::start(config.speed_micro);
    clock.advance();
    assert_eq!(clock.time_micro, 10_000);
}
