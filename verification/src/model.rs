//! The binary model: a unified vertex list shared by all materials,
//! LOD-tiered triangle lists, animation frames and tag points.

use vstd::prelude::*;
use crate::mesh::{TexCoord, Vec3};

verus! {

/// A unified vertex: position, texture coordinate and normal addressed
/// together by a single index.
#[derive(Clone, Copy, PartialEq, Eq, Structural, Debug)]
pub struct Vertex {
    pub position: Vec3,
    pub texture: TexCoord,
    pub normal: Vec3,
}

/// A triangle of unified-vertex indices into a frame's vertex list.
#[derive(Clone, Copy, PartialEq, Eq, Structural, Debug)]
pub struct Triangle {
    pub a: u32,
    pub b: u32,
    pub c: u32,
}

/// An `(offset, length)` selection into one LOD level's triangle list.
#[derive(Clone, Copy, PartialEq, Eq, Structural, Debug)]
pub struct TriangleRange {
    pub offset: u32,
    pub len: u32,
}

/// A material: names, a texture slot, one triangle-range selection per
/// LOD level, and the range of unified vertices it covers.
#[derive(Debug)]
pub struct Material {
    pub name: String,
    pub texture: u32,
    pub triangles: Vec<TriangleRange>,
    pub vertex_offset: u32,
    pub vertex_count: u32,
    pub texture_name: String,
}

/// One animation frame, holding the full unified vertex list.
#[derive(Debug)]
pub struct Frame {
    pub vertices: Vec<Vertex>,
}

/// One binary model.
#[derive(Debug)]
pub struct Model {
    pub center: Vec3,
    pub lod_levels: Vec<Vec<Triangle>>,
    pub materials: Vec<Material>,
    pub tag_points: Vec<String>,
    pub frames: Vec<Frame>,
}

/// The mathematical view of a `Material`.
#[verifier::ext_equal]
pub struct MaterialData {
    pub name: Seq<char>,
    pub texture: u32,
    pub triangles: Seq<TriangleRange>,
    pub vertex_offset: u32,
    pub vertex_count: u32,
    pub texture_name: Seq<char>,
}

/// The mathematical view of a `Frame`.
#[verifier::ext_equal]
pub struct FrameData {
    pub vertices: Seq<Vertex>,
}

/// The mathematical view of a `Model`.
#[verifier::ext_equal]
pub struct ModelData {
    pub center: Vec3,
    pub lod_levels: Seq<Seq<Triangle>>,
    pub materials: Seq<MaterialData>,
    pub tag_points: Seq<Seq<char>>,
    pub frames: Seq<FrameData>,
}

impl View for Material {
    type V = MaterialData;

    open spec fn view(&self) -> MaterialData {
        MaterialData {
            name: self.name@,
            texture: self.texture,
            triangles: self.triangles@,
            vertex_offset: self.vertex_offset,
            vertex_count: self.vertex_count,
            texture_name: self.texture_name@,
        }
    }
}

impl View for Frame {
    type V = FrameData;

    open spec fn view(&self) -> FrameData {
        FrameData { vertices: self.vertices@ }
    }
}

impl View for Model {
    type V = ModelData;

    open spec fn view(&self) -> ModelData {
        ModelData {
            center: self.center,
            lod_levels: self.lod_levels@.map_values(|l: Vec<Triangle>| l@),
            materials: self.materials@.map_values(|m: Material| m@),
            tag_points: self.tag_points@.map_values(|t: String| t@),
            frames: self.frames@.map_values(|f: Frame| f@),
        }
    }
}

} // verus!
