//! The entities a mesh is made of: vertices carrying a mutable position,
//! edges and faces referring to vertices by stable arena index, the
//! per-vertex attribute record handed to a renderer, and the construction
//! error taxonomy.

use vstd::prelude::*;

verus! {

/// A mesh vertex: a stable arena index plus a mutable position.
///
/// Edges and faces refer to a vertex by its index, so displacing a vertex in
/// place is observed by every edge and face that touches it without any
/// holder re-fetching anything.
#[derive(Clone, Copy, Debug)]
pub struct Vert<S> {
    pub index: usize,
    pub x: S,
    pub y: S,
    pub z: S,
}

impl<S: Copy> Vert<S> {
    pub fn new(index: usize, x: S, y: S, z: S) -> (v: Vert<S>)
        ensures
            v.index == index,
            v.x == x,
            v.y == y,
            v.z == z,
    {
        Vert { index, x, y, z }
    }

    pub fn set_coords(&mut self, x: S, y: S, z: S)
        ensures
            final(self).index == old(self).index,
            final(self).x == x,
            final(self).y == y,
            final(self).z == z,
    {
        self.x = x;
        self.y = y;
        self.z = z;
    }

    pub fn set_x(&mut self, x: S)
        ensures
            final(self).index == old(self).index,
            final(self).x == x,
            final(self).y == old(self).y,
            final(self).z == old(self).z,
    {
        self.x = x;
    }

    pub fn set_y(&mut self, y: S)
        ensures
            final(self).index == old(self).index,
            final(self).x == old(self).x,
            final(self).y == y,
            final(self).z == old(self).z,
    {
        self.y = y;
    }

    pub fn set_z(&mut self, z: S)
        ensures
            final(self).index == old(self).index,
            final(self).x == old(self).x,
            final(self).y == old(self).y,
            final(self).z == z,
    {
        self.z = z;
    }

    pub fn get_index(&self) -> (i: usize)
        ensures
            i == self.index,
    {
        self.index
    }

    pub fn get_x(&self) -> (r: S)
        ensures
            r == self.x,
    {
        self.x
    }

    pub fn get_y(&self) -> (r: S)
        ensures
            r == self.y,
    {
        self.y
    }

    pub fn get_z(&self) -> (r: S)
        ensures
            r == self.z,
    {
        self.z
    }
}

/// An undirected edge: the arena indices of its two endpoint vertices.
#[derive(Clone, Copy, Debug)]
pub struct Edge {
    pub endpoints: (usize, usize),
}

impl Edge {
    pub fn new(a: usize, b: usize) -> (e: Edge)
        ensures
            e.endpoints == (a, b),
    {
        Edge { endpoints: (a, b) }
    }
}

/// A triangular face: the arena indices of its three corner vertices, in
/// winding order, and of the three edges bounding it.
#[derive(Clone, Copy, Debug)]
pub struct Face {
    pub corners: (usize, usize, usize),
    pub edges: (usize, usize, usize),
}

impl Face {
    pub fn new(corners: (usize, usize, usize), edges: (usize, usize, usize)) -> (f: Face)
        ensures
            f.corners == corners,
            f.edges == edges,
    {
        Face { corners, edges }
    }
}

/// One entry of the vertex buffer: the render attributes of a single vertex.
pub struct VertexAttr<S> {
    pub position: (S, S, S),
    pub tex_coords: (S, S),
    pub color: (S, S, S),
}

/// Why a mesh construction failed.
#[derive(Clone, Copy, Debug, PartialEq, Eq, Structural)]
pub enum MeshError {
    /// The radius handed to the constructor was not positive.
    InvalidRadius,
    /// The connectivity table referenced a vertex or edge index outside the
    /// valid count. The table lemmas prove the built-in table in range, so a
    /// correctly built mesh can never produce this fault.
    TopologyIndexOutOfRange,
}

impl MeshError {
    /// A short human-readable description of the fault.
    pub fn describe(&self) -> (r: &'static str)
        ensures
            *self is InvalidRadius ==> r@ == "radius must be positive"@,
            *self is TopologyIndexOutOfRange ==> r@ == "connectivity table index out of range"@,
    {
        match self {
            MeshError::InvalidRadius => "radius must be positive",
            MeshError::TopologyIndexOutOfRange => "connectivity table index out of range",
        }
    }
}

} // verus!
