//! The text-mesh side of the conversion: separately indexed attribute
//! streams and face primitives referencing them by index tuples.
//!
//! Coordinates are carried as IEEE 754 single-precision bit patterns
//! (`u32`), so that the conversion logic, which only moves and reorders
//! them, can be verified without floating-point arithmetic.

use vstd::prelude::*;

verus! {

/// A 3-component vector; each component is the bit pattern of an `f32`.
#[derive(Clone, Copy, PartialEq, Eq, Structural, Debug)]
pub struct Vec3 {
    pub x: u32,
    pub y: u32,
    pub z: u32,
}

/// A 3D texture coordinate as it appears in the text format;
/// each component is the bit pattern of an `f32`.
#[derive(Clone, Copy, PartialEq, Eq, Structural, Debug)]
pub struct TexCoord3 {
    pub u: u32,
    pub v: u32,
    pub w: u32,
}

/// A 2D texture coordinate of a unified vertex.
#[derive(Clone, Copy, PartialEq, Eq, Structural, Debug)]
pub struct TexCoord {
    pub u: u32,
    pub v: u32,
}

/// One corner of a face primitive: a position index plus optional
/// texture and normal indices into the attribute streams.
#[derive(Clone, Copy, PartialEq, Eq, Structural, Debug)]
pub struct VtnRef {
    pub position: usize,
    pub texture: Option<usize>,
    pub normal: Option<usize>,
}

/// A geometric primitive of the text format. Only triangles carry
/// vertex references; lines and points are skipped by the importer.
#[derive(Clone, Copy, PartialEq, Eq, Structural, Debug)]
pub enum Primitive {
    Triangle(VtnRef, VtnRef, VtnRef),
    Line,
    Point,
}

/// One parsed text-mesh object: attribute streams plus primitives.
#[derive(Debug)]
pub struct MeshObject {
    pub positions: Vec<Vec3>,
    pub texcoords: Vec<TexCoord3>,
    pub normals: Vec<Vec3>,
    pub primitives: Vec<Primitive>,
}

/// The mathematical view of a `MeshObject`.
#[verifier::ext_equal]
pub struct MeshData {
    pub positions: Seq<Vec3>,
    pub texcoords: Seq<TexCoord3>,
    pub normals: Seq<Vec3>,
    pub primitives: Seq<Primitive>,
}

impl View for MeshObject {
    type V = MeshData;

    open spec fn view(&self) -> MeshData {
        MeshData {
            positions: self.positions@,
            texcoords: self.texcoords@,
            normals: self.normals@,
            primitives: self.primitives@,
        }
    }
}

/// Exchanges the Y and Z components: the text format and the binary
/// format disagree on the axis order, and the swap is its own inverse.
pub open spec fn swap_yz(v: Vec3) -> Vec3 {
    Vec3 { x: v.x, y: v.z, z: v.y }
}

impl Vec3 {
    /// The all-zero vector (the bit pattern of positive zero on each axis).
    pub fn origin() -> (v: Vec3)
        ensures
            v == (Vec3 { x: 0u32, y: 0u32, z: 0u32 }),
    {
        Vec3 { x: 0, y: 0, z: 0 }
    }

    /// Exchanges the Y and Z components.
    pub fn swapped_yz(&self) -> (r: Vec3)
        ensures
            r == swap_yz(*self),
    {
        Vec3 { x: self.x, y: self.z, z: self.y }
    }
}

} // verus!
