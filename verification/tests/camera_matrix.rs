use watersim::camera::{create_camera, Camera, Key};
use watersim::matrix::perspective;
use watersim::vec3::Vec3I;

fn unit_x_camera() -> Camera {
    create_camera(
        Vec3I { x: 3_000_000, y: 4_000_000, z: 0 },
        Vec3I { x: 1_000_000, y: 0, z: 0 },
    )
}

#[test]
fn create_normalizes_position() {
    let c = unit_x_camera();
    // (3, 4, 0) has norm 5, so the unit position is exactly (0.6, 0.8, 0)
    assert_eq!(c.position, Vec3I { x: 600_000, y: 800_000, z: 0 });
    assert_eq!(c.direction, Vec3I { x: 1_000_000, y: 0, z: 0 });
}

#[test]
fn forward_key_moves_one_twentieth_of_direction() {
    let mut c = unit_x_camera();
    let start = c.position;
    c.camera_change(Key::W);
    assert_eq!(c.position, Vec3I { x: start.x + 50_000, y: start.y, z: start.z });
    assert_eq!(c.direction, Vec3I { x: 1_000_000, y: 0, z: 0 });
}

#[test]
fn opposite_translations_return_exactly() {
    for (there, back) in [
        (Key::W, Key::S),
        (Key::S, Key::W),
        (Key::D, Key::A),
        (Key::A, Key::D),
        (Key::E, Key::Q),
        (Key::Q, Key::E),
    ] {
        let mut c = create_camera(
            Vec3I { x: 3_000_000, y: 4_000_000, z: 0 },
            Vec3I { x: 123_456, y: -654_321, z: 77_000 },
        );
        let start = c.position;
        let dir = c.direction;
        c.camera_change(there);
        c.camera_change(back);
        assert_eq!(c.position, start);
        assert_eq!(c.direction, dir);
    }
}

#[test]
fn strafe_right_of_x_forward_is_negative_y() {
    let mut c = unit_x_camera();
    let start = c.position;
    c.camera_change(Key::D);
    assert_eq!(c.position, Vec3I { x: start.x, y: start.y - 50_000, z: start.z });
}

#[test]
fn lift_key_moves_up() {
    let mut c = unit_x_camera();
    let start = c.position;
    c.camera_change(Key::E);
    assert_eq!(c.position, Vec3I { x: start.x, y: start.y, z: start.z + 50_000 });
}

#[test]
fn yaw_left_rotates_in_the_plane() {
    let mut c = unit_x_camera();
    c.camera_change(Key::Left);
    // x' = x·cos θ, y' = x·sin θ with the fixed-point constants
    assert_eq!(c.direction, Vec3I { x: 999_550, y: 29_996, z: 0 });
}

#[test]
fn pitch_up_key_tilts_downward() {
    let mut c = unit_x_camera();
    c.camera_change(Key::Up);
    assert_eq!(c.direction, Vec3I { x: 999_550, y: 0, z: -29_996 });
}

#[test]
fn unrecognized_key_is_a_no_op() {
    let mut c = unit_x_camera();
    let before = c;
    c.camera_change(Key::Other);
    assert_eq!(c, before);
}

#[test]
fn rotations_never_zero_the_direction() {
    let mut c = create_camera(
        Vec3I { x: 1_000_000, y: 0, z: 0 },
        Vec3I { x: 7, y: -3, z: 11 },
    );
    for i in 0..4000u32 {
        let k = match i % 4 {
            0 => Key::Up,
            1 => Key::Left,
            2 => Key::Down,
            _ => Key::Right,
        };
        c.camera_change(k);
        let d = c.direction;
        assert!(!(d.x == 0 && d.y == 0 && d.z == 0));
    }
}

#[test]
fn additive_update_accumulates_raw_deltas() {
    let mut c = unit_x_camera();
    c._update(
        Vec3I { x: 1_000_000, y: 0, z: 0 },
        Vec3I { x: 0, y: 2_000_000, z: 0 },
    );
    assert_eq!(c.position, Vec3I { x: 1_600_000, y: 800_000, z: 0 });
    assert_eq!(c.direction, Vec3I { x: 1_000_000, y: 2_000_000, z: 0 });
}

#[test]
fn look_at_of_known_state() {
    let c = unit_x_camera();
    let m = c.look_at();
    // right = (0, -1, 0), up = (0, 0, 1), forward = (1, 0, 0)
    assert_eq!(
        m.to_flat(),
        vec![
            0, 0, -1_000_000, 0, // column 0
            -1_000_000, 0, 0, 0, // column 1
            0, 1_000_000, 0, 0, // column 2
            800_000, 0, 600_000, 1_000_000, // column 3
        ]
    );
}

#[test]
fn look_at_is_pure() {
    let c = unit_x_camera();
    assert_eq!(c.look_at(), c.look_at());
}

#[test]
fn perspective_matrix_constants() {
    let m = perspective();
    let f = m.to_flat();
    assert_eq!(f[0], 1_830_488);
    assert_eq!(f[5], 1_830_488);
    assert_eq!(f[10], -1_000_200);
    assert_eq!(f[11], -1_000_000);
    assert_eq!(f[14], -200_020);
    assert_eq!(f[15], 0);
}
