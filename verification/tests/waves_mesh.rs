use watersim::mesh::{draw_vertex_count, grid_vertices};
use watersim::waves::{frequency_micro, get_parameters, synthesize};

#[test]
fn zero_waves_give_empty_sequences() {
    let w = synthesize(42, 0);
    assert!(w.amplitude_micro.is_empty());
    assert!(w.angle_micro.is_empty());
    assert!(w.speed_micro.is_empty());
}

#[test]
fn synthesis_is_deterministic() {
    let w1 = synthesize(42, 16);
    let w2 = synthesize(42, 16);
    assert_eq!(w1.amplitude_micro, w2.amplitude_micro);
    assert_eq!(w1.angle_micro, w2.angle_micro);
    assert_eq!(w1.speed_micro, w2.speed_micro);
}

#[test]
fn different_seeds_give_different_waves() {
    let w1 = synthesize(1, 8);
    let w2 = synthesize(2, 8);
    assert_ne!(
        (w1.amplitude_micro, w1.angle_micro),
        (w2.amplitude_micro, w2.angle_micro)
    );
}

#[test]
fn longer_synthesis_extends_the_shorter() {
    let w1 = synthesize(42, 3);
    let w2 = synthesize(42, 7);
    assert_eq!(w1.amplitude_micro[..], w2.amplitude_micro[..3]);
    assert_eq!(w1.angle_micro[..], w2.angle_micro[..3]);
}

#[test]
fn wave_values_stay_in_range() {
    let w = get_parameters(64);
    assert_eq!(w.amplitude_micro.len(), 64);
    assert_eq!(w.angle_micro.len(), 64);
    assert_eq!(w.speed_micro.len(), 64);
    for i in 0..64 {
        assert!(w.amplitude_micro[i] < 100_000);
        assert!(w.angle_micro[i] < 6_283_186);
        assert_eq!(w.speed_micro[i], 1_000_000);
    }
}

#[test]
fn frequency_scale_formula() {
    assert_eq!(frequency_micro(0), 100_000_000);
    // 1/(0.01 + 10·0.05) = 1/0.51
    assert_eq!(frequency_micro(50_000), 100_000_000_000u64 / 51_000);
    assert_eq!(frequency_micro(99_999), 100_000_000_000u64 / 100_999);
}

#[test]
fn derived_direction_is_unit_before_scaling() {
    let w = get_parameters(12);
    for i in 0..12 {
        let a = w.amplitude_micro[i] as f32 / 1.0e6;
        let theta = w.angle_micro[i] as f32 / 1.0e6;
        let freq = 1.0e5 / (1000.0 + w.amplitude_micro[i] as f32);
        let (sin_t, cos_t) = theta.sin_cos();
        let b = sin_t * freq;
        let c = cos_t * freq;
        let expected = 1.0 / (0.01 + 10.0 * a);
        assert!((b * b + c * c - expected * expected).abs() <= 1.0e-3 * expected * expected);
    }
}

#[test]
fn reference_waves_for_the_fixed_seed() {
    let w = synthesize(42, 3);
    assert_eq!(w.amplitude_micro, vec![90_626u32, 23_197, 63_889]);
    assert_eq!(w.angle_micro, vec![5_883_077u32, 6_208_207, 410_875]);
    assert_eq!(w.speed_micro, vec![1_000_000u32, 1_000_000, 1_000_000]);
}

#[test]
fn grid_mesh_has_six_vertices_per_cell() {
    // twelve coordinate scalars per cell: two per vertex
    assert_eq!(grid_vertices(0).len(), 0);
    assert_eq!(grid_vertices(1).len(), 12);
    assert_eq!(grid_vertices(4).len(), 12 * 16);
    assert_eq!(draw_vertex_count(4), 96);
    assert_eq!(draw_vertex_count(1), 6);
}

#[test]
fn grid_mesh_cell_corners() {
    let m = grid_vertices(2);
    // first cell: row 0, column 0
    assert_eq!(&m[0..12], &[0, 0, 1, 0, 0, 1, 0, 1, 1, 0, 1, 1]);
    // last cell: row 1, column 1, at base 12·(1·2 + 1)
    assert_eq!(&m[36..48], &[1, 1, 2, 1, 1, 2, 1, 2, 2, 1, 2, 2]);
}

#[test]
fn grid_mesh_coordinates_scale_to_world_units() {
    let m = grid_vertices(3);
    let scale = 0.5f32;
    // every world coordinate is its lattice coordinate times the scale
    for (k, &v) in m.iter().enumerate() {
        let world = v as f32 * scale;
        assert_eq!(world, (v as f32) * 0.5, "coordinate {}", k);
        assert!(v <= 3);
    }
}
