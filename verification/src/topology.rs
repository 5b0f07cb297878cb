//! The fixed connectivity of a regular icosahedron: 30 undirected edges and
//! 20 triangular faces over 12 vertices.
//!
//! The table is structural constant data, grouped into bands: 5 edges from
//! the north pole (vertex 0) to the upper ring (vertices 1-5), 5 edges
//! around the upper ring, 10 zigzag edges forming the belt between the two
//! rings, 5 edges around the lower ring (vertices 6-10), and 5 edges from
//! the south pole (vertex 11) to the lower ring. Faces follow the same
//! bands: 5 north-cap triangles, 10 belt triangles, 5 south-cap triangles.
//!
//! The lemmas at the end prove the table's invariants once and for all:
//! every index is in range (so an out-of-range fault can never arise from
//! the built-in table), every face's bounding edges are exactly the pairwise
//! combinations of its corners, and every vertex lies on exactly 5 faces.

use vstd::prelude::*;

verus! {

/// Endpoint vertex indices of edge `e` of the icosahedron, for `0 <= e < 30`.
pub open spec fn edge_table(e: int) -> (usize, usize) {
    // north band: pole to upper ring
    if e == 0 { (0, 1) }
    else if e == 1 { (0, 2) }
    else if e == 2 { (0, 3) }
    else if e == 3 { (0, 4) }
    else if e == 4 { (0, 5) }
    // upper ring, cyclic
    else if e == 5 { (1, 2) }
    else if e == 6 { (2, 3) }
    else if e == 7 { (3, 4) }
    else if e == 8 { (4, 5) }
    else if e == 9 { (5, 1) }
    // zigzag belt between the rings
    else if e == 10 { (6, 1) }
    else if e == 11 { (1, 7) }
    else if e == 12 { (7, 2) }
    else if e == 13 { (2, 8) }
    else if e == 14 { (8, 3) }
    else if e == 15 { (3, 9) }
    else if e == 16 { (9, 4) }
    else if e == 17 { (4, 10) }
    else if e == 18 { (10, 5) }
    else if e == 19 { (5, 6) }
    // lower ring, cyclic
    else if e == 20 { (6, 7) }
    else if e == 21 { (7, 8) }
    else if e == 22 { (8, 9) }
    else if e == 23 { (9, 10) }
    else if e == 24 { (10, 6) }
    // south band: pole to lower ring
    else if e == 25 { (11, 6) }
    else if e == 26 { (11, 7) }
    else if e == 27 { (11, 8) }
    else if e == 28 { (11, 9) }
    else { (11, 10) }
}

/// Corner vertex indices of face `f`, in winding order, for `0 <= f < 20`.
pub open spec fn corner_table(f: int) -> (usize, usize, usize) {
    // north cap
    if f == 0 { (2, 1, 0) }
    else if f == 1 { (3, 2, 0) }
    else if f == 2 { (4, 3, 0) }
    else if f == 3 { (5, 4, 0) }
    else if f == 4 { (1, 5, 0) }
    // belt
    else if f == 5 { (7, 6, 1) }
    else if f == 6 { (7, 1, 2) }
    else if f == 7 { (8, 7, 2) }
    else if f == 8 { (8, 2, 3) }
    else if f == 9 { (9, 8, 3) }
    else if f == 10 { (9, 3, 4) }
    else if f == 11 { (10, 9, 4) }
    else if f == 12 { (10, 4, 5) }
    else if f == 13 { (6, 10, 5) }
    else if f == 14 { (6, 5, 1) }
    // south cap
    else if f == 15 { (6, 7, 11) }
    else if f == 16 { (7, 8, 11) }
    else if f == 17 { (8, 9, 11) }
    else if f == 18 { (9, 10, 11) }
    else { (10, 6, 11) }
}

/// Bounding edge indices of face `f`, for `0 <= f < 20`.
pub open spec fn side_table(f: int) -> (usize, usize, usize) {
    // north cap
    if f == 0 { (0, 1, 5) }
    else if f == 1 { (1, 2, 6) }
    else if f == 2 { (2, 3, 7) }
    else if f == 3 { (3, 4, 8) }
    else if f == 4 { (4, 0, 9) }
    // belt
    else if f == 5 { (20, 10, 11) }
    else if f == 6 { (5, 11, 12) }
    else if f == 7 { (21, 12, 13) }
    else if f == 8 { (6, 13, 14) }
    else if f == 9 { (22, 14, 15) }
    else if f == 10 { (7, 15, 16) }
    else if f == 11 { (23, 16, 17) }
    else if f == 12 { (8, 17, 18) }
    else if f == 13 { (24, 18, 19) }
    else if f == 14 { (9, 19, 10) }
    // south cap
    else if f == 15 { (25, 26, 20) }
    else if f == 16 { (26, 27, 21) }
    else if f == 17 { (27, 28, 22) }
    else if f == 18 { (28, 29, 23) }
    else { (29, 25, 24) }
}

/// Component `k` of a triple, for `0 <= k < 3`.
pub open spec fn triple_at(t: (usize, usize, usize), k: int) -> usize {
    if k == 0 { t.0 } else if k == 1 { t.1 } else { t.2 }
}

/// Corner `k` of face `f`.
pub open spec fn corner_at(f: int, k: int) -> usize {
    triple_at(corner_table(f), k)
}

/// Bounding edge `k` of face `f`.
pub open spec fn side_at(f: int, k: int) -> usize {
    triple_at(side_table(f), k)
}

/// The `k`-th pairwise combination of the corners of face `f`:
/// corners (0,1), then (1,2), then (2,0).
pub open spec fn corner_pair(f: int, k: int) -> (usize, usize) {
    if k == 0 { (corner_at(f, 0), corner_at(f, 1)) }
    else if k == 1 { (corner_at(f, 1), corner_at(f, 2)) }
    else { (corner_at(f, 2), corner_at(f, 0)) }
}

/// Two endpoint pairs denote the same unordered vertex pair.
pub open spec fn same_endpoints(p: (usize, usize), q: (usize, usize)) -> bool {
    p == q || (p.0 == q.1 && p.1 == q.0)
}

/// Vertex `v` is a corner of face `f`.
pub open spec fn face_uses_vertex(f: int, v: int) -> bool {
    corner_at(f, 0) == v || corner_at(f, 1) == v || corner_at(f, 2) == v
}

/// How many directed sides of the faces `0 .. n` equal the ordered pair
/// `(a, b)` — face `f` traverses its boundary through the three directed
/// sides `corner_pair(f, 0)`, `corner_pair(f, 1)`, `corner_pair(f, 2)`.
pub open spec fn directed_side_count(a: usize, b: usize, n: int) -> int
    decreases n,
{
    if n <= 0 {
        0
    } else {
        directed_side_count(a, b, n - 1) + (if corner_pair(n - 1, 0) == (a, b) {
            1int
        } else {
            0int
        }) + (if corner_pair(n - 1, 1) == (a, b) {
            1int
        } else {
            0int
        }) + (if corner_pair(n - 1, 2) == (a, b) {
            1int
        } else {
            0int
        })
    }
}

/// How many of the faces `0 .. n` use vertex `v`.
pub open spec fn degree_up_to(v: int, n: int) -> int
    decreases n,
{
    if n <= 0 {
        0
    } else {
        degree_up_to(v, n - 1) + if face_uses_vertex(n - 1, v) { 1int } else { 0int }
    }
}

/// Edge `e` is one of the three bounding edges of face `f`.
pub open spec fn face_uses_edge(f: int, e: int) -> bool {
    side_at(f, 0) as int == e || side_at(f, 1) as int == e || side_at(f, 2) as int == e
}

/// How many of the faces `0 .. n` are bounded by edge `e`.
pub open spec fn edge_face_count_up_to(e: int, n: int) -> int
    decreases n,
{
    if n <= 0 {
        0
    } else {
        edge_face_count_up_to(e, n - 1) + if face_uses_edge(n - 1, e) { 1int } else { 0int }
    }
}

/// Entry `j` of the flat triangle-list index buffer: corner `j % 3` of face
/// `j / 3`, for `0 <= j < 60`.
pub open spec fn flat_corner(j: int) -> usize {
    let f = j / 3;
    if j % 3 == 0 {
        corner_at(f, 0)
    } else if j % 3 == 1 {
        corner_at(f, 1)
    } else {
        corner_at(f, 2)
    }
}

/// The index buffer every well-formed icosahedron flattens to: 3 vertex
/// indices per face, 20 faces, in face order.
pub open spec fn index_buffer_spec() -> Seq<u32> {
    Seq::new(60, |j: int| flat_corner(j) as u32)
}

/// Exec lookup of `edge_table`.
pub fn edge_entry(e: usize) -> (r: (usize, usize))
    requires
        e < 30,
    ensures
        r == edge_table(e as int),
{
    match e {
        0 => (0, 1),
        1 => (0, 2),
        2 => (0, 3),
        3 => (0, 4),
        4 => (0, 5),
        5 => (1, 2),
        6 => (2, 3),
        7 => (3, 4),
        8 => (4, 5),
        9 => (5, 1),
        10 => (6, 1),
        11 => (1, 7),
        12 => (7, 2),
        13 => (2, 8),
        14 => (8, 3),
        15 => (3, 9),
        16 => (9, 4),
        17 => (4, 10),
        18 => (10, 5),
        19 => (5, 6),
        20 => (6, 7),
        21 => (7, 8),
        22 => (8, 9),
        23 => (9, 10),
        24 => (10, 6),
        25 => (11, 6),
        26 => (11, 7),
        27 => (11, 8),
        28 => (11, 9),
        _ => (11, 10),
    }
}

/// Exec lookup of `corner_table`.
pub fn corner_entry(f: usize) -> (r: (usize, usize, usize))
    requires
        f < 20,
    ensures
        r == corner_table(f as int),
{
    match f {
        0 => (2, 1, 0),
        1 => (3, 2, 0),
        2 => (4, 3, 0),
        3 => (5, 4, 0),
        4 => (1, 5, 0),
        5 => (7, 6, 1),
        6 => (7, 1, 2),
        7 => (8, 7, 2),
        8 => (8, 2, 3),
        9 => (9, 8, 3),
        10 => (9, 3, 4),
        11 => (10, 9, 4),
        12 => (10, 4, 5),
        13 => (6, 10, 5),
        14 => (6, 5, 1),
        15 => (6, 7, 11),
        16 => (7, 8, 11),
        17 => (8, 9, 11),
        18 => (9, 10, 11),
        _ => (10, 6, 11),
    }
}

/// Exec lookup of `side_table`.
pub fn side_entry(f: usize) -> (r: (usize, usize, usize))
    requires
        f < 20,
    ensures
        r == side_table(f as int),
{
    match f {
        0 => (0, 1, 5),
        1 => (1, 2, 6),
        2 => (2, 3, 7),
        3 => (3, 4, 8),
        4 => (4, 0, 9),
        5 => (20, 10, 11),
        6 => (5, 11, 12),
        7 => (21, 12, 13),
        8 => (6, 13, 14),
        9 => (22, 14, 15),
        10 => (7, 15, 16),
        11 => (23, 16, 17),
        12 => (8, 17, 18),
        13 => (24, 18, 19),
        14 => (9, 19, 10),
        15 => (25, 26, 20),
        16 => (26, 27, 21),
        17 => (27, 28, 22),
        18 => (28, 29, 23),
        _ => (29, 25, 24),
    }
}

/// Every edge of the table joins two distinct vertices in `0 .. 12`.
///
/// Together with `lemma_face_table_in_range` this shows the built-in table
/// can never raise `TopologyIndexOutOfRange`.
pub proof fn lemma_edge_table_in_range()
    ensures
        forall|e: int| 0 <= e < 30 ==> {
            let (a, b) = #[trigger] edge_table(e);
            a < 12 && b < 12 && a != b
        },
{
}

/// Every face of the table has three distinct corners in `0 .. 12` and three
/// distinct bounding edges in `0 .. 30`.
pub proof fn lemma_face_table_in_range()
    ensures
        forall|f: int| 0 <= f < 20 ==> {
            let (a, b, c) = #[trigger] corner_table(f);
            a < 12 && b < 12 && c < 12 && a != b && b != c && a != c
        },
        forall|f: int| 0 <= f < 20 ==> {
            let (d, e, g) = #[trigger] side_table(f);
            d < 30 && e < 30 && g < 30 && d != e && e != g && d != g
        },
{
}

/// Topological consistency of the table: for every face, the endpoint sets
/// of its three bounding edges are exactly the three pairwise combinations
/// of its three corners — each bounding edge joins two of the face's
/// corners, and each pair of corners is joined by one of the bounding edges.
pub proof fn lemma_face_edges_match_corners()
    ensures
        forall|f: int, k: int| 0 <= f < 20 && 0 <= k < 3 ==> {
            let ends = edge_table(#[trigger] side_at(f, k) as int);
            ||| same_endpoints(ends, corner_pair(f, 0))
            ||| same_endpoints(ends, corner_pair(f, 1))
            ||| same_endpoints(ends, corner_pair(f, 2))
        },
        forall|f: int, k: int| 0 <= f < 20 && 0 <= k < 3 ==> {
            let pair = #[trigger] corner_pair(f, k);
            ||| same_endpoints(edge_table(side_at(f, 0) as int), pair)
            ||| same_endpoints(edge_table(side_at(f, 1) as int), pair)
            ||| same_endpoints(edge_table(side_at(f, 2) as int), pair)
        },
{
}

/// No two edges of the table join the same unordered vertex pair, so the
/// table has 30 distinct edges. Together with `lemma_face_edges_match_corners`
/// and the corner distinctness of `lemma_face_table_in_range`, a face's three
/// bounding edges' endpoint sets are therefore exactly — not merely covering —
/// the three pairwise combinations of its corners.
pub proof fn lemma_edges_are_distinct_pairs()
    ensures
        forall|e1: int, e2: int|
            0 <= e1 < 30 && 0 <= e2 < 30 && e1 != e2 ==> !same_endpoints(
                #[trigger] edge_table(e1),
                #[trigger] edge_table(e2),
            ),
{
}

/// Every edge of the table bounds exactly 2 of the 20 faces.
pub proof fn lemma_each_edge_borders_two_faces()
    ensures
        forall|e: int| 0 <= e < 30 ==> #[trigger] edge_face_count_up_to(e, 20) == 2,
{
    assert forall|e: int| 0 <= e < 30 implies #[trigger] edge_face_count_up_to(e, 20) == 2 by {
        reveal_with_fuel(edge_face_count_up_to, 21);
    }
}

/// Consistent winding: the faces of the table traverse every edge exactly
/// twice, once in each direction. The two faces bordering an edge thus wind
/// it oppositely, so the orientation of all 20 faces agrees.
pub proof fn lemma_consistent_winding()
    ensures
        forall|e: int| 0 <= e < 30 ==> {
            let (a, b) = #[trigger] edge_table(e);
            directed_side_count(a, b, 20) == 1 && directed_side_count(b, a, 20) == 1
        },
{
    assert forall|e: int| 0 <= e < 30 implies {
        let (a, b) = #[trigger] edge_table(e);
        directed_side_count(a, b, 20) == 1 && directed_side_count(b, a, 20) == 1
    } by {
        reveal_with_fuel(directed_side_count, 21);
    }
}

/// Icosahedron vertex degree: every vertex lies on exactly 5 of the 20
/// faces of the table.
pub proof fn lemma_vertex_degree()
    ensures
        forall|v: int| 0 <= v < 12 ==> #[trigger] degree_up_to(v, 20) == 5,
{
    assert forall|v: int| 0 <= v < 12 implies #[trigger] degree_up_to(v, 20) == 5 by {
        reveal_with_fuel(degree_up_to, 21);
    }
}

} // verus!
