use watersim::camera::{create_camera, Key};
use watersim::pipeline::{GpuPipeline, ShaderBuild, ShaderError, UniformLocations};
use watersim::render::{frame_uniforms, process_keyboard_events, InputEvent, SimClock};
use watersim::vec3::Vec3I;

fn slots() -> UniformLocations {
    UniformLocations {
        time: Some(0),
        camera: Some(1),
        camera_pos: None,
        perspective: Some(2),
        num_params: Some(3),
        a: Some(4),
        b: Some(5),
        c: Some(6),
        d: None,
    }
}

#[test]
fn quit_event_stops_the_loop_but_not_the_batch() {
    let mut camera = create_camera(
        Vec3I { x: 1_000_000, y: 0, z: 0 },
        Vec3I { x: 1_000_000, y: 0, z: 0 },
    );
    let start_x = camera.position.x;
    let events = vec![
        InputEvent::KeyDown(Key::W),
        InputEvent::Quit,
        InputEvent::KeyDown(Key::W),
        InputEvent::Other,
    ];
    let running = process_keyboard_events(&mut camera, &events);
    assert!(!running);
    // both key events applied: the quit does not cut the batch short
    assert_eq!(camera.position.x, start_x + 100_000);
}

#[test]
fn no_quit_keeps_running() {
    let mut camera = create_camera(
        Vec3I { x: 1_000_000, y: 0, z: 0 },
        Vec3I { x: 1_000_000, y: 0, z: 0 },
    );
    let before = camera;
    let running = process_keyboard_events(&mut camera, &vec![InputEvent::Other]);
    assert!(running);
    assert_eq!(camera, before);
}

#[test]
fn clock_advances_by_the_configured_speed() {
    let mut clock = SimClock::start(10_000);
    assert_eq!(clock.time_micro, 0);
    clock.advance();
    assert_eq!(clock.time_micro, 10_000);
    clock.advance();
    assert_eq!(clock.time_micro, 20_000);
}

#[test]
fn clock_saturates_at_the_top() {
    let mut clock = SimClock::start(u64::MAX);
    clock.advance();
    clock.advance();
    assert_eq!(clock.time_micro, u64::MAX);
}

#[test]
fn frame_uniforms_snapshot_the_state() {
    let camera = create_camera(
        Vec3I { x: 3_000_000, y: 4_000_000, z: 0 },
        Vec3I { x: 1_000_000, y: 0, z: 0 },
    );
    let mut clock = SimClock::start(7);
    clock.advance();
    let u = frame_uniforms(&camera, &clock);
    assert_eq!(u.view, camera.look_at());
    assert_eq!(u.camera_pos, camera.position);
    assert_eq!(u.time_micro, 7);
}

#[test]
fn shader_build_collects_stages_until_the_link() {
    let mut build = ShaderBuild::begin(11);
    assert!(build.attach(21, true, String::new()).is_ok());
    assert!(build.attach(22, true, String::new()).is_ok());
    let (program, stale) = build.link(true, String::new()).unwrap();
    assert_eq!(program, 11);
    assert_eq!(stale, vec![21, 22]);
}

#[test]
fn compile_failure_surfaces_the_log() {
    let mut build = ShaderBuild::begin(11);
    let r = build.attach(21, false, "syntax error".to_string());
    match r {
        Err(ShaderError::Compile(log)) => assert_eq!(log, "syntax error"),
        _ => panic!("expected the compile fault"),
    }
}

#[test]
fn link_failure_surfaces_the_log() {
    let build = ShaderBuild::begin(11);
    let r = build.link(false, "undefined entry".to_string());
    match r {
        Err(ShaderError::Link(log)) => assert_eq!(log, "undefined entry"),
        _ => panic!("expected the link fault"),
    }
}

#[test]
fn destroy_surrenders_the_handles_once() {
    let p = GpuPipeline::assemble(11, 31, 41, slots());
    assert_eq!(p.program, 11);
    // destroy consumes the pipeline: the handles come back exactly once and
    // no call on it can follow
    let (program, vao, vbo) = p.destroy();
    assert_eq!((program, vao, vbo), (11, 41, 31));
}
