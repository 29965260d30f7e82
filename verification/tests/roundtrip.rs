//! Drives the library together with the real collaborators: the text
//! parser, the bounding-center builder and the binary codec.

use cemconv::exporter::{export_model, PointText, TexText, VertexText};
use cemconv::importer::{assemble_model, unify_object, UnifiedMesh};
use cemconv::mesh::{MeshObject, Primitive, TexCoord3, Vec3, VtnRef};
use cemconv::model::{Frame, Material, Model, Triangle, TriangleRange, Vertex};

use cem::collider::CenterBuilder;
use cem::{Scene, V2};
use cgmath::{Point2, Point3, Vector3};

fn bits(f: f32) -> u32 {
    f.to_bits()
}

fn v3(x: f32, y: f32, z: f32) -> Vec3 {
    Vec3 { x: bits(x), y: bits(y), z: bits(z) }
}

/// The same flattening the surrounding program performs on a parsed
/// text-mesh object before handing it to the library.
fn mesh_of_object(o: &wavefront_obj::obj::Object) -> MeshObject {
    MeshObject {
        positions: o
            .vertices
            .iter()
            .map(|v| Vec3 {
                x: (v.x as f32).to_bits(),
                y: (v.y as f32).to_bits(),
                z: (v.z as f32).to_bits(),
            })
            .collect(),
        texcoords: o
            .tex_vertices
            .iter()
            .map(|t| TexCoord3 {
                u: (t.u as f32).to_bits(),
                v: (t.v as f32).to_bits(),
                w: (t.w as f32).to_bits(),
            })
            .collect(),
        normals: o
            .normals
            .iter()
            .map(|v| Vec3 {
                x: (v.x as f32).to_bits(),
                y: (v.y as f32).to_bits(),
                z: (v.z as f32).to_bits(),
            })
            .collect(),
        primitives: o
            .geometry
            .iter()
            .flat_map(|g| g.shapes.iter())
            .map(|s| match s.primitive {
                wavefront_obj::obj::Primitive::Triangle(a, b, c) => Primitive::Triangle(
                    VtnRef { position: a.0, texture: a.1, normal: a.2 },
                    VtnRef { position: b.0, texture: b.1, normal: b.2 },
                    VtnRef { position: c.0, texture: c.1, normal: c.2 },
                ),
                wavefront_obj::obj::Primitive::Line(..) => Primitive::Line,
                wavefront_obj::obj::Primitive::Point(..) => Primitive::Point,
            })
            .collect(),
    }
}

/// The bounding center of the unified vertices, as the surrounding
/// program computes it with the collaborator's builder: the midpoint
/// of the axis-aligned bounding box, and the origin for no vertices.
fn center_of(u: &UnifiedMesh) -> Vec3 {
    if u.vertices.is_empty() {
        return Vec3 { x: 0f32.to_bits(), y: 0f32.to_bits(), z: 0f32.to_bits() };
    }
    let mut builder = CenterBuilder::begin();
    for v in &u.vertices {
        builder.update(Point3::new(
            f32::from_bits(v.position.x),
            f32::from_bits(v.position.y),
            f32::from_bits(v.position.z),
        ));
    }
    let c = builder.build();
    Vec3 { x: c.x.to_bits(), y: c.y.to_bits(), z: c.z.to_bits() }
}

fn num(b: u32) -> String {
    format!("{}", f32::from_bits(b))
}

fn render(model: &Model) -> Vec<VertexText> {
    model.frames[0]
        .vertices
        .iter()
        .map(|v| VertexText {
            position: PointText {
                x: num(v.position.x),
                y: num(v.position.y),
                z: num(v.position.z),
            },
            normal: PointText { x: num(v.normal.x), y: num(v.normal.y), z: num(v.normal.z) },
            texture: TexText { u: num(v.texture.u), v: num(v.texture.v) },
        })
        .collect()
}

/// The conversion the surrounding program performs from the library's
/// model to the codec's structures.
fn to_cem(model: &Model) -> V2 {
    let center = Point3::new(
        f32::from_bits(model.center.x),
        f32::from_bits(model.center.y),
        f32::from_bits(model.center.z),
    );
    V2 {
        center,
        lod_levels: model
            .lod_levels
            .iter()
            .map(|lod| lod.iter().map(|t| (t.a, t.b, t.c)).collect())
            .collect(),
        materials: model
            .materials
            .iter()
            .map(|m| cem::v2::Material {
                name: m.name.clone(),
                texture: m.texture,
                triangles: m
                    .triangles
                    .iter()
                    .map(|s| cem::v2::TriangleSelection { offset: s.offset, len: s.len })
                    .collect(),
                vertex_offset: m.vertex_offset,
                vertex_count: m.vertex_count,
                texture_name: m.texture_name.clone(),
            })
            .collect(),
        tag_points: model.tag_points.clone(),
        frames: model
            .frames
            .iter()
            .map(|f| {
                cem::v2::Frame::from_vertices(
                    f.vertices
                        .iter()
                        .map(|v| cem::v2::Vertex {
                            position: Point3::new(
                                f32::from_bits(v.position.x),
                                f32::from_bits(v.position.y),
                                f32::from_bits(v.position.z),
                            ),
                            normal: Vector3::new(
                                f32::from_bits(v.normal.x),
                                f32::from_bits(v.normal.y),
                                f32::from_bits(v.normal.z),
                            ),
                            texture: Point2::new(
                                f32::from_bits(v.texture.u),
                                f32::from_bits(v.texture.v),
                            ),
                        })
                        .collect(),
                    vec![],
                    center,
                )
            })
            .collect(),
    }
}

/// The inverse conversion, from the codec's structures back to the
/// library's model.
fn from_cem(v: &V2) -> Model {
    Model {
        center: Vec3 { x: v.center.x.to_bits(), y: v.center.y.to_bits(), z: v.center.z.to_bits() },
        lod_levels: v
            .lod_levels
            .iter()
            .map(|lod| lod.iter().map(|t| Triangle { a: t.0, b: t.1, c: t.2 }).collect())
            .collect(),
        materials: v
            .materials
            .iter()
            .map(|m| Material {
                name: m.name.clone(),
                texture: m.texture,
                triangles: m
                    .triangles
                    .iter()
                    .map(|s| TriangleRange { offset: s.offset, len: s.len })
                    .collect(),
                vertex_offset: m.vertex_offset,
                vertex_count: m.vertex_count,
                texture_name: m.texture_name.clone(),
            })
            .collect(),
        tag_points: v.tag_points.clone(),
        frames: v
            .frames
            .iter()
            .map(|f| Frame {
                vertices: f
                    .vertices
                    .iter()
                    .map(|v| Vertex {
                        position: Vec3 {
                            x: v.position.x.to_bits(),
                            y: v.position.y.to_bits(),
                            z: v.position.z.to_bits(),
                        },
                        normal: Vec3 {
                            x: v.normal.x.to_bits(),
                            y: v.normal.y.to_bits(),
                            z: v.normal.z.to_bits(),
                        },
                        texture: cemconv::mesh::TexCoord {
                            u: v.texture.x.to_bits(),
                            v: v.texture.y.to_bits(),
                        },
                    })
                    .collect(),
            })
            .collect(),
    }
}

const SOURCE: &str = "o thing\nv 0 0 0\nv 1 0 0\nv 0 1 0\nf 1 2 3\n";

#[test]
fn parsed_document_imports_with_bounding_box_midpoint_center() {
    let set = wavefront_obj::obj::parse(SOURCE).unwrap();
    let mesh = mesh_of_object(&set.objects[0]);
    let u = unify_object(&mesh).unwrap();
    let center = center_of(&u);
    assert_eq!(
        (
            f32::from_bits(center.x),
            f32::from_bits(center.y),
            f32::from_bits(center.z)
        ),
        (0.5, 0.0, 0.5)
    );
    let model = assemble_model(u, center);
    assert_eq!(model.lod_levels, vec![vec![Triangle { a: 0, b: 1, c: 2 }]]);
    assert_eq!(model.materials[0].triangles, vec![TriangleRange { offset: 0, len: 1 }]);
    assert_eq!(model.materials[0].vertex_count, 3);
    let text = export_model(&model, &render(&model)).unwrap();
    // The parser triangulates a face as (last, first, second), so the
    // first-sight order of the corners starts at the last position.
    assert_eq!(
        text,
        "v 0 1 0\nvn 1 0 0\nvt 0 0\n\
         v 0 0 0\nvn 1 0 0\nvt 0 0\n\
         v 1 0 0\nvn 1 0 0\nvt 0 0\n\
         # name: , texture: 0, texture_name: \n\
         f 1/1/1 2/2/2 3/3/3\n"
    );
}

#[test]
fn duplicate_positions_leave_the_midpoint_center_alone() {
    let source = "o thing\nv 0 0 0\nv 1 0 0\nv 0 1 0\nv 1 0 0\nf 1 2 3\nf 1 4 3\n";
    let set = wavefront_obj::obj::parse(source).unwrap();
    let mesh = mesh_of_object(&set.objects[0]);
    let u = unify_object(&mesh).unwrap();
    assert_eq!(u.vertices.len(), 4);
    let center = center_of(&u);
    assert_eq!(
        (
            f32::from_bits(center.x),
            f32::from_bits(center.y),
            f32::from_bits(center.z)
        ),
        (0.5, 0.0, 0.5)
    );
}

#[test]
fn binary_codec_round_trip_keeps_the_document() {
    let set = wavefront_obj::obj::parse(SOURCE).unwrap();
    let mesh = mesh_of_object(&set.objects[0]);
    let u = unify_object(&mesh).unwrap();
    let center = center_of(&u);
    let model = assemble_model(u, center);
    let text_before = export_model(&model, &render(&model)).unwrap();

    let mut encoded: Vec<u8> = Vec::new();
    Scene::root(to_cem(&model)).write(&mut encoded).unwrap();
    let mut cursor: &[u8] = &encoded;
    let decoded: Scene<V2> = Scene::read(&mut cursor).unwrap();
    let reread = from_cem(&decoded.model);

    let text_after = export_model(&reread, &render(&reread)).unwrap();
    assert_eq!(text_before, text_after);
}
