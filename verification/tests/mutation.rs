use planetgen::Icosahedron;
use planetgen::MeshError;
use planetgen::Vert;

fn place_vertices(radius: f32) -> Vec<(f32, f32, f32)> {
    let lat_angle = 0.5f32.atan();
    let long_angle = 36.0f32.to_radians();
    let ring_height = radius * lat_angle.sin();
    let ring_radius = radius * lat_angle.cos();
    let mut positions: Vec<(f32, f32, f32)> = Vec::new();
    for i in 0..12usize {
        let p = match i {
            0 => (0.0, 0.0, radius),
            11 => (0.0, 0.0, -radius),
            1..=5 => {
                let a = (i - 1) as f32 * 2.0 * long_angle;
                (ring_radius * a.cos(), ring_radius * a.sin(), ring_height)
            }
            _ => {
                let a = ((i - 6) as f32 * 2.0 - 1.0) * long_angle;
                (ring_radius * a.cos(), ring_radius * a.sin(), -ring_height)
            }
        };
        positions.push(p);
    }
    positions
}

fn build(radius: f32) -> Result<Icosahedron<f32>, MeshError> {
    Icosahedron::new(radius, radius > 0.0, place_vertices(radius))
}

#[test]
fn displacing_a_vertex_shows_in_the_vertex_buffer() {
    let mut m = build(5.0).unwrap();
    let before = m.get_vertex_buffer(0.0, 1.0);
    m.set_vertex_coords(3, 9.0, -8.0, 7.5);
    let after = m.get_vertex_buffer(0.0, 1.0);
    assert_eq!(after[3].position, (9.0, -8.0, 7.5));
    for i in 0..12usize {
        if i != 3 {
            assert_eq!(after[i].position, before[i].position);
        }
    }
    // topology is untouched
    assert_eq!(m.get_index_buffer().len(), 60);
}

#[test]
fn every_face_touching_a_vertex_observes_its_displacement() {
    let mut m = build(5.0).unwrap();
    m.set_vertex_coords(3, 1.0, 2.0, 3.0);
    let mut touching: usize = 0;
    for f in 0..20usize {
        let (a, b, c) = m.face_corners(f);
        for corner in [a, b, c] {
            if corner == 3 {
                // look the corner up through the face's reference: it is the
                // same arena slot, so it carries the displaced position
                let v = m.vertex(corner);
                assert_eq!((v.get_x(), v.get_y(), v.get_z()), (1.0, 2.0, 3.0));
                touching += 1;
            }
        }
    }
    assert_eq!(touching, 5);
}

#[test]
fn every_edge_touching_a_vertex_observes_its_displacement() {
    let mut m = build(5.0).unwrap();
    m.set_vertex_coords(10, -1.0, -2.0, -3.0);
    let mut touching: usize = 0;
    for e in 0..30usize {
        let (a, b) = m.edge_endpoints(e);
        for endpoint in [a, b] {
            if endpoint == 10 {
                let v = m.vertex(endpoint);
                assert_eq!((v.get_x(), v.get_y(), v.get_z()), (-1.0, -2.0, -3.0));
                touching += 1;
            }
        }
    }
    // vertex degree is 5, so 5 edges touch the vertex
    assert_eq!(touching, 5);
}

#[test]
fn vert_constructor_and_getters() {
    let v: Vert<f32> = Vert::new(4, 1.0, 2.0, 3.0);
    assert_eq!(v.get_index(), 4);
    assert_eq!(v.get_x(), 1.0);
    assert_eq!(v.get_y(), 2.0);
    assert_eq!(v.get_z(), 3.0);
}

#[test]
fn vert_setters_update_in_place() {
    let mut v: Vert<f32> = Vert::new(7, 0.0, 0.0, 0.0);
    v.set_x(1.5);
    v.set_y(-2.5);
    v.set_z(4.0);
    assert_eq!((v.get_x(), v.get_y(), v.get_z()), (1.5, -2.5, 4.0));
    v.set_coords(6.0, 7.0, 8.0);
    assert_eq!((v.get_x(), v.get_y(), v.get_z()), (6.0, 7.0, 8.0));
    assert_eq!(v.get_index(), 7);
}
