use planetgen::Icosahedron;
use planetgen::MeshError;

/// The closed-form icosahedron vertex placement: north pole, upper ring at
/// latitude atan(0.5), lower ring mirrored and offset by 36 degrees, south
/// pole.
fn place_vertices(radius: f32) -> Vec<(f32, f32, f32)> {
    let lat_angle = 0.5f32.atan();
    let long_angle = 36.0f32.to_radians();
    let ring_height = radius * lat_angle.sin();
    let ring_radius = radius * lat_angle.cos();
    let mut positions: Vec<(f32, f32, f32)> = Vec::new();
    for i in 0..12usize {
        let p = match i {
            0 => (0.0, 0.0, radius),
            11 => (0.0, 0.0, -radius),
            1..=5 => {
                let a = (i - 1) as f32 * 2.0 * long_angle;
                (ring_radius * a.cos(), ring_radius * a.sin(), ring_height)
            }
            _ => {
                let a = ((i - 6) as f32 * 2.0 - 1.0) * long_angle;
                (ring_radius * a.cos(), ring_radius * a.sin(), -ring_height)
            }
        };
        positions.push(p);
    }
    positions
}

fn build(radius: f32) -> Result<Icosahedron<f32>, MeshError> {
    Icosahedron::new(radius, radius > 0.0, place_vertices(radius))
}

#[test]
fn zero_radius_is_invalid() {
    let r = build(0.0);
    assert!(matches!(r, Err(MeshError::InvalidRadius)));
}

#[test]
fn negative_radius_is_invalid() {
    let r = build(-1.0);
    assert!(matches!(r, Err(MeshError::InvalidRadius)));
    let r = build(-123.5);
    assert!(matches!(r, Err(MeshError::InvalidRadius)));
}

#[test]
fn counts_match_euler_formula() {
    let m = build(1.0).unwrap();
    let v = m.vertex_count() as i64;
    let e = m.edge_count() as i64;
    let f = m.face_count() as i64;
    assert_eq!(v, 12);
    assert_eq!(e, 30);
    assert_eq!(f, 20);
    assert_eq!(v - e + f, 2);
}

#[test]
fn radius_is_stored() {
    let m = build(5.0).unwrap();
    assert_eq!(m.get_radius(), 5.0);
}

#[test]
fn vertices_lie_on_the_sphere() {
    for radius in [0.25f32, 1.0, 5.0, 300.0] {
        let m = build(radius).unwrap();
        for i in 0..12usize {
            let v = m.vertex(i);
            let norm = (v.get_x() * v.get_x() + v.get_y() * v.get_y() + v.get_z() * v.get_z())
                .sqrt();
            assert!((norm - radius).abs() <= radius * 1e-5);
        }
    }
}

#[test]
fn large_radius_scales_without_overflow() {
    let radius: f32 = 1.0e30;
    let m = build(radius).unwrap();
    let unit = build(1.0).unwrap();
    for i in 0..12usize {
        let v = m.vertex(i);
        let u = unit.vertex(i);
        assert!(v.get_x().is_finite() && v.get_y().is_finite() && v.get_z().is_finite());
        assert!((v.get_x() - u.get_x() * radius).abs() <= radius * 1e-5);
        assert!((v.get_y() - u.get_y() * radius).abs() <= radius * 1e-5);
        assert!((v.get_z() - u.get_z() * radius).abs() <= radius * 1e-5);
    }
}

#[test]
fn error_description_names_the_radius() {
    let r = build(0.0);
    match r {
        Err(e) => assert_eq!(e.describe(), "radius must be positive"),
        Ok(_) => panic!("a zero radius must be rejected"),
    }
}
