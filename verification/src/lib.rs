//! A small 3D rendering library built around a verified scene-graph
//! transformation core.
//!
//! The core consists of three layers:
//!
//! - a linear algebra kernel ([`linear`]): 4-component vectors and 4x4
//!   column-major matrices over exact 64-bit integer scalars;
//! - spatial primitives ([`Point`], [`Rotation`]): the inputs to transform
//!   construction;
//! - a transform tree ([`tree`]): hierarchical spatial nodes, each holding a
//!   position, rotation and scale relative to a parent, with a two-slot
//!   matrix cache (local, global) under explicit invalidation.
//!
//! # Coordinate Spaces
//!
//! There are four coordinate spaces: **mesh** space, **world** space,
//! **camera** space, and **clip** space. Each mesh has an associated mesh
//! space where the origin is the 'center' of the mesh; meshes are scaled and
//! rotated about this origin. During rendering the coordinates of each
//! object's mesh are rebased to world space through the object's transform
//! matrix, then re-expressed relative to the camera, and finally constrained
//! to the renderable cuboid before rasterization.
//!
//! # Scalars
//!
//! The scalar domain is the exact 64-bit integers: every operation either
//! states in its contract that it returns the exact mathematical result, or
//! requires that this result fits the scalar range. Rotation angles are
//! likewise exact, counted in quarter turns, so rotation matrices are built
//! from exact sines and cosines.

use vstd::prelude::*;

pub mod linear;
pub mod tree;

pub use linear::Matrix;
pub use linear::Vector;

verus! {

/// The integral type for indexing a mesh's vertex pool.
pub type MeshVertexIndex = u32;

/// A singular location within a coordinate space.
///
/// The `Point` type definition does not prescribe a particular coordinate
/// space to constrain its coordinates by; rather, the coordinates of a
/// `Point` shall be interpreted by context.
#[derive(Clone, Copy, Debug, PartialEq, Eq, Structural)]
pub struct Point {
    /// The X coordinate.
    pub x: i64,
    /// The Y coordinate.
    pub y: i64,
    /// The Z coordinate.
    pub z: i64,
}

impl Point {
    /// The point that lies at `(0, 0, 0)`.
    pub fn origin() -> (p: Point)
        ensures
            p == (Point { x: 0, y: 0, z: 0 }),
    {
        Point { x: 0, y: 0, z: 0 }
    }
}

impl From<Point> for Vector {
    /// The position vector of `p`: a point converts with its homogeneous
    /// coordinate set to one, so that a transform treats it as a position,
    /// not a direction.
    fn from(p: Point) -> (v: Vector) {
        Vector { x: p.x, y: p.y, z: p.z, w: 1 }
    }
}

impl vstd::std_specs::convert::FromSpecImpl<Point> for Vector {
    open spec fn obeys_from_spec() -> bool {
        true
    }

    open spec fn from_spec(p: Point) -> Vector {
        Vector { x: p.x, y: p.y, z: p.z, w: 1i64 }
    }
}

impl From<Vector> for Point {
    /// The point at the position described by `v`, dropping the homogeneous
    /// coordinate.
    fn from(v: Vector) -> (p: Point) {
        Point { x: v.x, y: v.y, z: v.z }
    }
}

impl vstd::std_specs::convert::FromSpecImpl<Vector> for Point {
    open spec fn obeys_from_spec() -> bool {
        true
    }

    open spec fn from_spec(v: Vector) -> Point {
        Point { x: v.x, y: v.y, z: v.z }
    }
}

/// Gimbal rotation across three axes.
///
/// [`x`](Self::x), [`y`](Self::y), and [`z`](Self::z) are counted in quarter
/// turns (one quarter turn is a right angle), the exact unit of the scalar
/// domain. The Z axis is rotated first, followed by Y and then X.
#[derive(Clone, Copy, Debug, PartialEq, Eq, Structural)]
pub struct Rotation {
    /// The rotation, in quarter turns, about the X axis.
    ///
    /// During transformation matrix generation, this rotation is applied
    /// third.
    pub x: i64,
    /// The rotation, in quarter turns, about the Y axis.
    ///
    /// During transformation matrix generation, this rotation is applied
    /// second.
    pub y: i64,
    /// The rotation, in quarter turns, about the Z axis.
    ///
    /// During transformation matrix generation, this rotation is applied
    /// first.
    pub z: i64,
}

impl Rotation {
    /// The rotation that leaves every axis unturned.
    pub fn zero() -> (r: Rotation)
        ensures
            r == (Rotation { x: 0i64, y: 0i64, z: 0i64 }),
    {
        Rotation { x: 0, y: 0, z: 0 }
    }
}

/// A vertex within a mesh.
#[derive(Clone, Copy, Debug, PartialEq, Eq, Structural)]
pub struct MeshVertex {
    /// The location of this vertex in mesh space.
    pub point: Point,
}

/// A triangle within a mesh.
#[derive(Clone, Copy, Debug, PartialEq, Eq)]
pub struct MeshTriangle([MeshVertexIndex; 3]);

impl MeshTriangle {
    /// The triad of vertex indices that forms this triangle.
    pub closed spec fn spec_indices(self) -> [MeshVertexIndex; 3] {
        self.0
    }

    /// Creates a new `MeshTriangle` from a triad of vertex indices.
    pub fn new(indices: [MeshVertexIndex; 3]) -> (t: MeshTriangle)
        ensures
            t.spec_indices() == indices,
    {
        MeshTriangle(indices)
    }

    /// The triad of vertex indices that forms this triangle.
    pub fn indices(&self) -> (indices: [MeshVertexIndex; 3])
        ensures
            indices == self.spec_indices(),
    {
        self.0
    }
}

} // verus!
