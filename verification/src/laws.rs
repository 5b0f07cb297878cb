//! The laws of the mesh, stated over any well-formed icosahedron and proved
//! once and for all: the Euler counts, the face/edge/corner consistency, the
//! vertex degree, the coverage of the index buffer, the determinism of
//! buffer extraction, and the propagation of in-place vertex displacement to
//! every edge and face that shares the vertex.

use vstd::prelude::*;

use crate::icosahedron::Icosahedron;
use crate::topology::corner_at;
use crate::topology::corner_pair;
use crate::topology::degree_up_to;
use crate::topology::edge_table;
use crate::topology::index_buffer_spec;
use crate::topology::lemma_edge_table_in_range;
use crate::topology::lemma_face_edges_match_corners;
use crate::topology::lemma_face_table_in_range;
use crate::topology::lemma_vertex_degree;
use crate::topology::same_endpoints;
use crate::topology::side_at;
use crate::topology::triple_at;

verus! {

/// The mesh has exactly 12 vertices, 30 edges and 20 faces, and they satisfy
/// Euler's polyhedron formula `V - E + F == 2`.
pub proof fn lemma_euler_formula<S: Copy>(m: &Icosahedron<S>)
    requires
        m.wf(),
    ensures
        m.verts@.len() == 12,
        m.edges@.len() == 30,
        m.faces@.len() == 20,
        m.verts@.len() - m.edges@.len() + m.faces@.len() == 2,
{
}

/// Topological consistency of a well-formed mesh: the endpoint pair of each
/// of the three edges a face references equals, as an unordered pair, one of
/// the three pairwise combinations of the face's corners — and conversely,
/// every pair of corners is joined by one of the referenced edges.
pub proof fn lemma_face_edges_cover_corner_pairs<S: Copy>(m: &Icosahedron<S>, f: int, k: int)
    requires
        m.wf(),
        0 <= f < 20,
        0 <= k < 3,
    ensures
        ({
            let ends = m.edges@[triple_at(m.faces@[f].edges, k) as int].endpoints;
            ||| same_endpoints(ends, corner_pair(f, 0))
            ||| same_endpoints(ends, corner_pair(f, 1))
            ||| same_endpoints(ends, corner_pair(f, 2))
        }),
        ({
            let pair = corner_pair(f, k);
            ||| same_endpoints(m.edges@[side_at(f, 0) as int].endpoints, pair)
            ||| same_endpoints(m.edges@[side_at(f, 1) as int].endpoints, pair)
            ||| same_endpoints(m.edges@[side_at(f, 2) as int].endpoints, pair)
        }),
{
    lemma_face_table_in_range();
    lemma_face_edges_match_corners();
}

/// Icosahedron vertex degree: vertex `v` lies on exactly 5 of the mesh's 20
/// faces, and therefore appears in the index buffer — at least once, and in
/// fact once per face that uses it.
pub proof fn lemma_vertex_in_five_faces<S: Copy>(m: &Icosahedron<S>, v: int)
    requires
        m.wf(),
        0 <= v < 12,
    ensures
        degree_up_to(v, 20) == 5,
        exists|j: int| 0 <= j < 60 && #[trigger] index_buffer_spec()[j] as int == v,
{
    lemma_vertex_degree();
    if v == 0 {
        assert(index_buffer_spec()[2] as int == v);
    } else if v == 1 {
        assert(index_buffer_spec()[1] as int == v);
    } else if v == 2 {
        assert(index_buffer_spec()[0] as int == v);
    } else if v == 3 {
        assert(index_buffer_spec()[3] as int == v);
    } else if v == 4 {
        assert(index_buffer_spec()[6] as int == v);
    } else if v == 5 {
        assert(index_buffer_spec()[9] as int == v);
    } else if v == 6 {
        assert(index_buffer_spec()[16] as int == v);
    } else if v == 7 {
        assert(index_buffer_spec()[15] as int == v);
    } else if v == 8 {
        assert(index_buffer_spec()[21] as int == v);
    } else if v == 9 {
        assert(index_buffer_spec()[27] as int == v);
    } else if v == 10 {
        assert(index_buffer_spec()[33] as int == v);
    } else {
        assert(index_buffer_spec()[47] as int == v);
    }
}

/// Determinism of extraction: the vertex buffer is a pure function of the
/// live vertex positions and the fills. In particular, extracting twice
/// from an unmutated mesh yields identical buffers (the index buffer is a
/// constant of the fixed table, so its extraction is deterministic
/// outright).
pub proof fn lemma_extraction_deterministic<S: Copy>(
    a: &Icosahedron<S>,
    b: &Icosahedron<S>,
    tex_fill: S,
    color_fill: S,
)
    requires
        a.wf(),
        b.wf(),
        forall|i: int| 0 <= i < 12 ==> #[trigger] a.position(i) == b.position(i),
    ensures
        a.vertex_buffer_spec(tex_fill, color_fill) == b.vertex_buffer_spec(tex_fill, color_fill),
{
    assert(a.vertex_buffer_spec(tex_fill, color_fill) =~= b.vertex_buffer_spec(
        tex_fill,
        color_fill,
    ));
}

/// Mutation propagation to faces: displace vertex `i` (every other vertex
/// keeping its position, as `set_vertex_coords` ensures) and every face
/// corner that refers to `i` observes the displaced position, while every
/// other face corner observes its old one.
pub proof fn lemma_faces_observe_mutation<S: Copy>(
    m0: &Icosahedron<S>,
    m1: &Icosahedron<S>,
    i: int,
    f: int,
    k: int,
)
    requires
        m0.wf(),
        m1.wf(),
        0 <= i < 12,
        0 <= f < 20,
        0 <= k < 3,
        forall|j: int| 0 <= j < 12 && j != i ==> #[trigger] m1.position(j) == m0.position(j),
    ensures
        corner_at(f, k) as int == i ==> m1.corner_position(f, k) == m1.position(i),
        corner_at(f, k) as int != i ==> m1.corner_position(f, k) == m0.corner_position(f, k),
{
    lemma_face_table_in_range();
}

/// Mutation propagation to edges: displace vertex `i` and every edge
/// endpoint that refers to `i` observes the displaced position, while every
/// other endpoint observes its old one.
pub proof fn lemma_edges_observe_mutation<S: Copy>(
    m0: &Icosahedron<S>,
    m1: &Icosahedron<S>,
    i: int,
    e: int,
    k: int,
)
    requires
        m0.wf(),
        m1.wf(),
        0 <= i < 12,
        0 <= e < 30,
        0 <= k < 2,
        forall|j: int| 0 <= j < 12 && j != i ==> #[trigger] m1.position(j) == m0.position(j),
    ensures
        ({
            let endpoint = if k == 0 {
                edge_table(e).0
            } else {
                edge_table(e).1
            };
            &&& endpoint as int == i ==> m1.endpoint_position(e, k) == m1.position(i)
            &&& endpoint as int != i ==> m1.endpoint_position(e, k) == m0.endpoint_position(e, k)
        }),
{
    lemma_edge_table_in_range();
}

} // verus!
