use planetgen::Icosahedron;
use planetgen::MeshError;

fn place_vertices(radius: f32) -> Vec<(f32, f32, f32)> {
    let lat_angle = 0.5f32.atan();
    let long_angle = 36.0f32.to_radians();
    let ring_height = radius * lat_angle.sin();
    let ring_radius = radius * lat_angle.cos();
    let mut positions: Vec<(f32, f32, f32)> = Vec::new();
    for i in 0..12usize {
        let p = match i {
            0 => (0.0, 0.0, radius),
            11 => (0.0, 0.0, -radius),
            1..=5 => {
                let a = (i - 1) as f32 * 2.0 * long_angle;
                (ring_radius * a.cos(), ring_radius * a.sin(), ring_height)
            }
            _ => {
                let a = ((i - 6) as f32 * 2.0 - 1.0) * long_angle;
                (ring_radius * a.cos(), ring_radius * a.sin(), -ring_height)
            }
        };
        positions.push(p);
    }
    positions
}

fn build(radius: f32) -> Result<Icosahedron<f32>, MeshError> {
    Icosahedron::new(radius, radius > 0.0, place_vertices(radius))
}

fn unordered(p: (usize, usize)) -> (usize, usize) {
    if p.0 <= p.1 {
        p
    } else {
        (p.1, p.0)
    }
}

#[test]
fn edges_join_distinct_vertices_in_range() {
    let m = build(1.0).unwrap();
    for e in 0..30usize {
        let (a, b) = m.edge_endpoints(e);
        assert!(a < 12 && b < 12);
        assert_ne!(a, b);
    }
}

#[test]
fn no_two_edges_join_the_same_pair() {
    let m = build(1.0).unwrap();
    let mut pairs: Vec<(usize, usize)> = Vec::new();
    for e in 0..30usize {
        pairs.push(unordered(m.edge_endpoints(e)));
    }
    for i in 0..30usize {
        for j in 0..i {
            assert_ne!(pairs[i], pairs[j]);
        }
    }
}

#[test]
fn face_corners_are_distinct_and_in_range() {
    let m = build(1.0).unwrap();
    for f in 0..20usize {
        let (a, b, c) = m.face_corners(f);
        assert!(a < 12 && b < 12 && c < 12);
        assert!(a != b && b != c && a != c);
    }
}

#[test]
fn face_edges_are_exactly_the_corner_pairs() {
    let m = build(1.0).unwrap();
    for f in 0..20usize {
        let (a, b, c) = m.face_corners(f);
        let (e0, e1, e2) = m.face_edges(f);
        let mut side_pairs: Vec<(usize, usize)> = vec![
            unordered(m.edge_endpoints(e0)),
            unordered(m.edge_endpoints(e1)),
            unordered(m.edge_endpoints(e2)),
        ];
        let mut corner_pairs: Vec<(usize, usize)> =
            vec![unordered((a, b)), unordered((b, c)), unordered((c, a))];
        side_pairs.sort();
        corner_pairs.sort();
        assert_eq!(side_pairs, corner_pairs);
    }
}

#[test]
fn winding_is_consistent_across_faces() {
    // every undirected edge is traversed by exactly two faces, and the two
    // traversals run in opposite directions
    let m = build(1.0).unwrap();
    let mut directed: Vec<(usize, usize)> = Vec::new();
    for f in 0..20usize {
        let (a, b, c) = m.face_corners(f);
        directed.push((a, b));
        directed.push((b, c));
        directed.push((c, a));
    }
    for e in 0..30usize {
        let (a, b) = m.edge_endpoints(e);
        let forward: usize = directed.iter().filter(|&&p| p == (a, b)).count();
        let backward: usize = directed.iter().filter(|&&p| p == (b, a)).count();
        assert_eq!(forward, 1);
        assert_eq!(backward, 1);
    }
}

#[test]
fn each_edge_borders_exactly_two_faces() {
    let m = build(1.0).unwrap();
    for e in 0..30usize {
        let mut bordering: usize = 0;
        for f in 0..20usize {
            let (e0, e1, e2) = m.face_edges(f);
            if e0 == e || e1 == e || e2 == e {
                bordering += 1;
            }
        }
        assert_eq!(bordering, 2);
    }
}
