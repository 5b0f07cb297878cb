//! A subdividable polyhedral mesh library: it builds a regular icosahedron
//! from twelve vertex positions, wires the fixed 30-edge / 20-face
//! connectivity, and flattens the result into render-ready vertex and index
//! buffers.
//!
//! The mesh is generic over the scalar payload carried in each vertex
//! position, so the topology, its invariants, and the buffer extraction are
//! verified independently of the numeric type a renderer feeds in.

pub mod geometry;
pub mod icosahedron;
pub mod laws;
pub mod topology;

pub use geometry::Edge;
pub use geometry::Face;
pub use geometry::MeshError;
pub use geometry::Vert;
pub use geometry::VertexAttr;
pub use icosahedron::Icosahedron;
