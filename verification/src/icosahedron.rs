//! The icosahedron mesh: an arena of 12 vertices plus the fixed 30-edge /
//! 20-face connectivity, with extraction into flat vertex and index buffers.
//!
//! The mesh is the aggregate root: it owns the canonical vertex, edge and
//! face arrays and the scalar radius it was built with. Topology (counts and
//! connectivity) never changes after construction; vertex positions may be
//! displaced in place, and every edge and face observes the displaced
//! position because they refer to vertices by arena index.
//!
//! The scalar payload type `S` is opaque to the mesh: positions are carried,
//! never computed on, so the topology and extraction logic is verified for
//! any payload a renderer chooses.

use vstd::prelude::*;

use crate::geometry::Edge;
use crate::geometry::Face;
use crate::geometry::MeshError;
use crate::geometry::Vert;
use crate::geometry::VertexAttr;
use crate::topology::corner_entry;
use crate::topology::corner_table;
use crate::topology::edge_entry;
use crate::topology::edge_table;
use crate::topology::flat_corner;
use crate::topology::index_buffer_spec;
use crate::topology::lemma_edge_table_in_range;
use crate::topology::lemma_face_table_in_range;
use crate::topology::side_entry;
use crate::topology::side_table;
use crate::topology::triple_at;

verus! {

/// A regular icosahedron mesh over scalar payload type `S`.
pub struct Icosahedron<S> {
    pub radius: S,
    pub verts: Vec<Vert<S>>,
    pub edges: Vec<Edge>,
    pub faces: Vec<Face>,
}

impl<S: Copy> Icosahedron<S> {
    /// Well-formedness: the canonical counts hold, every vertex knows its
    /// own arena index, and the connectivity equals the fixed table.
    pub open spec fn wf(&self) -> bool {
        &&& self.verts@.len() == 12
        &&& self.edges@.len() == 30
        &&& self.faces@.len() == 20
        &&& forall|i: int| 0 <= i < 12 ==> (#[trigger] self.verts@[i]).index == i
        &&& forall|e: int| 0 <= e < 30 ==> (#[trigger] self.edges@[e]).endpoints == edge_table(e)
        &&& forall|f: int| 0 <= f < 20 ==> (#[trigger] self.faces@[f]).corners == corner_table(f)
        &&& forall|f: int| 0 <= f < 20 ==> (#[trigger] self.faces@[f]).edges == side_table(f)
    }

    /// The live position of vertex `i`.
    pub open spec fn position(&self, i: int) -> (S, S, S) {
        (self.verts@[i].x, self.verts@[i].y, self.verts@[i].z)
    }

    /// The position of corner `k` of face `f`, looked up live through the
    /// vertex arena.
    pub open spec fn corner_position(&self, f: int, k: int) -> (S, S, S) {
        self.position(triple_at(self.faces@[f].corners, k) as int)
    }

    /// The position of endpoint `k` (0 or 1) of edge `e`, looked up live
    /// through the vertex arena.
    pub open spec fn endpoint_position(&self, e: int, k: int) -> (S, S, S) {
        if k == 0 {
            self.position(self.edges@[e].endpoints.0 as int)
        } else {
            self.position(self.edges@[e].endpoints.1 as int)
        }
    }

    /// The vertex buffer the mesh flattens to: one attribute record per
    /// vertex, in arena order, with constant texture and color fills.
    pub open spec fn vertex_buffer_spec(&self, tex_fill: S, color_fill: S) -> Seq<VertexAttr<S>> {
        Seq::new(12, |i: int| VertexAttr {
            position: self.position(i),
            tex_coords: (tex_fill, tex_fill),
            color: (color_fill, color_fill, color_fill),
        })
    }

    /// Builds the mesh atomically from its construction radius and the 12
    /// vertex positions, wiring the fixed connectivity table.
    ///
    /// The caller answers the one question the opaque scalar type cannot:
    /// whether the radius is positive. A non-positive radius fails with
    /// `InvalidRadius` and no partially built mesh is ever returned.
    pub fn new(radius: S, radius_is_positive: bool, positions: Vec<(S, S, S)>) -> (r: Result<
        Icosahedron<S>,
        MeshError,
    >)
        requires
            positions@.len() == 12,
        ensures
            r is Ok <==> radius_is_positive,
            r is Ok ==> {
                let m = r->Ok_0;
                &&& m.wf()
                &&& m.radius == radius
                &&& forall|i: int| 0 <= i < 12 ==> #[trigger] m.position(i) == positions@[i]
            },
            !radius_is_positive ==> r == Err::<Icosahedron<S>, MeshError>(MeshError::InvalidRadius),
    {
        if !radius_is_positive {
            return Err(MeshError::InvalidRadius);
        }
        let mut verts: Vec<Vert<S>> = Vec::new();
        let mut i: usize = 0;
        while i < 12
            invariant
                i <= 12,
                positions@.len() == 12,
                verts@.len() == i as int,
                forall|j: int| 0 <= j < i as int ==> (#[trigger] verts@[j]).index == j,
                forall|j: int| 0 <= j < i as int ==> ((#[trigger] verts@[j]).x, verts@[j].y, verts@[j].z)
                    == positions@[j],
            decreases 12 - i,
        {
            let p = positions[i];
            verts.push(Vert::new(i, p.0, p.1, p.2));
            i += 1;
        }
        let mut edges: Vec<Edge> = Vec::new();
        let mut e: usize = 0;
        while e < 30
            invariant
                e <= 30,
                edges@.len() == e as int,
                forall|j: int| 0 <= j < e as int ==> (#[trigger] edges@[j]).endpoints == edge_table(j),
            decreases 30 - e,
        {
            let ends = edge_entry(e);
            edges.push(Edge::new(ends.0, ends.1));
            e += 1;
        }
        let mut faces: Vec<Face> = Vec::new();
        let mut f: usize = 0;
        while f < 20
            invariant
                f <= 20,
                faces@.len() == f as int,
                forall|j: int| 0 <= j < f as int ==> (#[trigger] faces@[j]).corners == corner_table(j)
                    && faces@[j].edges == side_table(j),
            decreases 20 - f,
        {
            let corners = corner_entry(f);
            let sides = side_entry(f);
            faces.push(Face::new(corners, sides));
            f += 1;
        }
        Ok(Icosahedron { radius, verts, edges, faces })
    }

    /// The number of vertices: 12 for a well-formed icosahedron.
    pub fn vertex_count(&self) -> (n: usize)
        ensures
            n == self.verts@.len(),
            self.wf() ==> n == 12,
    {
        self.verts.len()
    }

    /// The number of edges: 30 for a well-formed icosahedron.
    pub fn edge_count(&self) -> (n: usize)
        ensures
            n == self.edges@.len(),
            self.wf() ==> n == 30,
    {
        self.edges.len()
    }

    /// The number of faces: 20 for a well-formed icosahedron.
    pub fn face_count(&self) -> (n: usize)
        ensures
            n == self.faces@.len(),
            self.wf() ==> n == 20,
    {
        self.faces.len()
    }

    /// The radius the mesh was constructed with.
    pub fn get_radius(&self) -> (r: S)
        ensures
            r == self.radius,
    {
        self.radius
    }

    /// A shared view of vertex `i`.
    pub fn vertex(&self, i: usize) -> (v: &Vert<S>)
        requires
            self.wf(),
            i < 12,
        ensures
            *v == self.verts@[i as int],
            v.index == i,
    {
        &self.verts[i]
    }

    /// The endpoint vertex indices of edge `e`.
    pub fn edge_endpoints(&self, e: usize) -> (r: (usize, usize))
        requires
            self.wf(),
            e < 30,
        ensures
            r == edge_table(e as int),
            r.0 < 12 && r.1 < 12 && r.0 != r.1,
    {
        proof {
            lemma_edge_table_in_range();
        }
        self.edges[e].endpoints
    }

    /// The corner vertex indices of face `f`, in winding order.
    pub fn face_corners(&self, f: usize) -> (r: (usize, usize, usize))
        requires
            self.wf(),
            f < 20,
        ensures
            r == corner_table(f as int),
            r.0 < 12 && r.1 < 12 && r.2 < 12,
            r.0 != r.1 && r.1 != r.2 && r.0 != r.2,
    {
        proof {
            lemma_face_table_in_range();
        }
        self.faces[f].corners
    }

    /// The bounding edge indices of face `f`.
    pub fn face_edges(&self, f: usize) -> (r: (usize, usize, usize))
        requires
            self.wf(),
            f < 20,
        ensures
            r == side_table(f as int),
            r.0 < 30 && r.1 < 30 && r.2 < 30,
            r.0 != r.1 && r.1 != r.2 && r.0 != r.2,
    {
        proof {
            lemma_face_table_in_range();
        }
        self.faces[f].edges
    }

    /// Displaces vertex `i` in place. Topology, radius and every other
    /// vertex are untouched; every edge and face that refers to `i`
    /// observes the new position from now on.
    pub fn set_vertex_coords(&mut self, i: usize, x: S, y: S, z: S)
        requires
            old(self).wf(),
            i < 12,
        ensures
            final(self).wf(),
            final(self).position(i as int) == (x, y, z),
            forall|j: int| 0 <= j < 12 && j != i as int ==> #[trigger] final(self).position(j)
                == old(self).position(j),
            final(self).radius == old(self).radius,
            final(self).edges@ == old(self).edges@,
            final(self).faces@ == old(self).faces@,
    {
        let mut v = self.verts[i];
        v.set_coords(x, y, z);
        self.verts.set(i, v);
    }

    /// Flattens the live vertex positions into one attribute record per
    /// vertex, in arena order. Texture coordinates and color are filled
    /// with the given constants, each record alike. Deterministic: the
    /// result is a pure function of the mesh state and the fills.
    pub fn get_vertex_buffer(&self, tex_fill: S, color_fill: S) -> (buf: Vec<VertexAttr<S>>)
        requires
            self.wf(),
        ensures
            buf@.len() == 12,
            buf@ == self.vertex_buffer_spec(tex_fill, color_fill),
            forall|i: int| 0 <= i < 12 ==> {
                let a = #[trigger] buf@[i];
                &&& a.position == self.position(i)
                &&& a.tex_coords == (tex_fill, tex_fill)
                &&& a.color == (color_fill, color_fill, color_fill)
            },
    {
        let mut buf: Vec<VertexAttr<S>> = Vec::new();
        let mut i: usize = 0;
        while i < 12
            invariant
                self.wf(),
                i <= 12,
                buf@.len() == i as int,
                forall|j: int| 0 <= j < i as int ==> {
                    let a = #[trigger] buf@[j];
                    &&& a.position == self.position(j)
                    &&& a.tex_coords == (tex_fill, tex_fill)
                    &&& a.color == (color_fill, color_fill, color_fill)
                },
            decreases 12 - i,
        {
            let v = &self.verts[i];
            buf.push(VertexAttr {
                position: (v.x, v.y, v.z),
                tex_coords: (tex_fill, tex_fill),
                color: (color_fill, color_fill, color_fill),
            });
            i += 1;
        }
        proof {
            assert(buf@ =~= self.vertex_buffer_spec(tex_fill, color_fill));
        }
        buf
    }

    /// Flattens the connectivity into a triangle-list index buffer: exactly
    /// 3 vertex indices per face, in face order, every value within
    /// `[0, vertex count)`. Deterministic: the result depends on the fixed
    /// table alone, so repeated calls yield identical output.
    pub fn get_index_buffer(&self) -> (buf: Vec<u32>)
        requires
            self.wf(),
        ensures
            buf@.len() == 60,
            buf@ == index_buffer_spec(),
            forall|j: int| 0 <= j < 60 ==> #[trigger] buf@[j] < 12,
    {
        let mut buf: Vec<u32> = Vec::new();
        let mut f: usize = 0;
        while f < 20
            invariant
                self.wf(),
                f <= 20,
                buf@.len() == 3 * f as int,
                forall|j: int| 0 <= j < 3 * f as int ==> #[trigger] buf@[j] == flat_corner(j) as u32,
                forall|j: int| 0 <= j < 3 * f as int ==> #[trigger] buf@[j] < 12,
            decreases 20 - f,
        {
            proof {
                lemma_face_table_in_range();
            }
            let c = self.faces[f].corners;
            buf.push(c.0 as u32);
            buf.push(c.1 as u32);
            buf.push(c.2 as u32);
            f += 1;
        }
        proof {
            assert(buf@ =~= index_buffer_spec());
        }
        buf
    }
}

} // verus!
