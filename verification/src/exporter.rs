//! The binary-to-text exporter: flattens a model's vertex, triangle
//! and material structure back into the text format's line grammar.
//!
//! The caller supplies the decimal rendering of each vertex component
//! as a string; everything else — the line shapes, the axis unswap,
//! the 1-based repeated face indices and the integer rendering — is
//! computed and verified here.

use vstd::prelude::*;
use vstd::string::StringExecFns;
use crate::importer::{assembled, UnifiedData};
use crate::mesh::{swap_yz, Vec3};
use crate::model::{MaterialData, Material, Model, ModelData, Triangle, TriangleRange};
use crate::ConvertError;

verus! {

/// The decimal digit character for a value below ten.
pub open spec fn dec_digit(d: nat) -> char {
    if d == 0 {
        '0'
    } else if d == 1 {
        '1'
    } else if d == 2 {
        '2'
    } else if d == 3 {
        '3'
    } else if d == 4 {
        '4'
    } else if d == 5 {
        '5'
    } else if d == 6 {
        '6'
    } else if d == 7 {
        '7'
    } else if d == 8 {
        '8'
    } else {
        '9'
    }
}

/// The decimal rendering of a natural number, without a sign and
/// without leading zeroes.
pub open spec fn dec_str(n: nat) -> Seq<char>
    decreases n,
{
    if n < 10 {
        seq![dec_digit(n)]
    } else {
        dec_str(n / 10).push(dec_digit(n % 10))
    }
}

fn digit_text(d: u64) -> (s: &'static str)
    requires
        d < 10,
    ensures
        s@ == seq![dec_digit(d as nat)],
{
    if d == 0 {
        proof {
            reveal_strlit("0");
            assert("0"@ =~= seq![dec_digit(0)]);
        }
        "0"
    } else if d == 1 {
        proof {
            reveal_strlit("1");
            assert("1"@ =~= seq![dec_digit(1)]);
        }
        "1"
    } else if d == 2 {
        proof {
            reveal_strlit("2");
            assert("2"@ =~= seq![dec_digit(2)]);
        }
        "2"
    } else if d == 3 {
        proof {
            reveal_strlit("3");
            assert("3"@ =~= seq![dec_digit(3)]);
        }
        "3"
    } else if d == 4 {
        proof {
            reveal_strlit("4");
            assert("4"@ =~= seq![dec_digit(4)]);
        }
        "4"
    } else if d == 5 {
        proof {
            reveal_strlit("5");
            assert("5"@ =~= seq![dec_digit(5)]);
        }
        "5"
    } else if d == 6 {
        proof {
            reveal_strlit("6");
            assert("6"@ =~= seq![dec_digit(6)]);
        }
        "6"
    } else if d == 7 {
        proof {
            reveal_strlit("7");
            assert("7"@ =~= seq![dec_digit(7)]);
        }
        "7"
    } else if d == 8 {
        proof {
            reveal_strlit("8");
            assert("8"@ =~= seq![dec_digit(8)]);
        }
        "8"
    } else {
        proof {
            reveal_strlit("9");
            assert("9"@ =~= seq![dec_digit(9)]);
        }
        "9"
    }
}

/// Renders an unsigned integer in decimal.
pub fn u64_text(n: u64) -> (s: String)
    ensures
        s@ == dec_str(n as nat),
    decreases n,
{
    if n < 10 {
        digit_text(n).to_owned()
    } else {
        let mut s = u64_text(n / 10);
        s.append(digit_text(n % 10));
        assert(s@ =~= dec_str(n as nat));
        s
    }
}

/// The rendered components of one 3D point, in storage order.
pub struct PointText {
    pub x: String,
    pub y: String,
    pub z: String,
}

/// The rendered components of one texture coordinate.
pub struct TexText {
    pub u: String,
    pub v: String,
}

/// The rendered components of one unified vertex, as the caller's
/// number formatter produced them from the stored bit patterns.
pub struct VertexText {
    pub position: PointText,
    pub normal: PointText,
    pub texture: TexText,
}

/// The mathematical view of a `PointText`.
#[verifier::ext_equal]
pub struct PointTextData {
    pub x: Seq<char>,
    pub y: Seq<char>,
    pub z: Seq<char>,
}

/// The mathematical view of a `TexText`.
#[verifier::ext_equal]
pub struct TexTextData {
    pub u: Seq<char>,
    pub v: Seq<char>,
}

/// The mathematical view of a `VertexText`.
#[verifier::ext_equal]
pub struct VertexTextData {
    pub position: PointTextData,
    pub normal: PointTextData,
    pub texture: TexTextData,
}

impl View for PointText {
    type V = PointTextData;

    open spec fn view(&self) -> PointTextData {
        PointTextData { x: self.x@, y: self.y@, z: self.z@ }
    }
}

impl View for TexText {
    type V = TexTextData;

    open spec fn view(&self) -> TexTextData {
        TexTextData { u: self.u@, v: self.v@ }
    }
}

impl View for VertexText {
    type V = VertexTextData;

    open spec fn view(&self) -> VertexTextData {
        VertexTextData { position: self.position@, normal: self.normal@, texture: self.texture@ }
    }
}

/// A `v` line: the position components in text-format axis order,
/// exchanging Y and Z back.
pub open spec fn position_line_text(p: PointTextData) -> Seq<char> {
    "v "@ + p.x + " "@ + p.z + " "@ + p.y + "\n"@
}

/// A `vn` line: the normal components in text-format axis order.
pub open spec fn normal_line_text(p: PointTextData) -> Seq<char> {
    "vn "@ + p.x + " "@ + p.z + " "@ + p.y + "\n"@
}

/// A `vt` line.
pub open spec fn texture_line_text(t: TexTextData) -> Seq<char> {
    "vt "@ + t.u + " "@ + t.v + "\n"@
}

/// The three lines one unified vertex contributes.
pub open spec fn vertex_block_text(s: VertexTextData) -> Seq<char> {
    position_line_text(s.position) + normal_line_text(s.normal) + texture_line_text(s.texture)
}

/// The vertex lines of the whole document, in vertex-list order.
pub open spec fn vertex_lines_text(ss: Seq<VertexTextData>) -> Seq<char>
    decreases ss.len(),
{
    if ss.len() == 0 {
        Seq::empty()
    } else {
        vertex_lines_text(ss.drop_last()) + vertex_block_text(ss.last())
    }
}

/// A material's informational annotation line.
pub open spec fn material_header_text(m: MaterialData) -> Seq<char> {
    "# name: "@ + m.name + ", texture: "@ + dec_str(m.texture as nat) + ", texture_name: "@
        + m.texture_name + "\n"@
}

/// One 1-based face index, repeated for position, texture and normal.
pub open spec fn face_ref_text(n: nat) -> Seq<char> {
    dec_str(n) + "/"@ + dec_str(n) + "/"@ + dec_str(n)
}

/// An `f` line: the material's vertex offset plus the triangle's
/// unified indices, shifted to the text format's 1-based indexing.
pub open spec fn face_line_text(off: u32, t: Triangle) -> Seq<char> {
    "f "@ + face_ref_text((off + t.a + 1) as nat) + " "@ + face_ref_text((off + t.b + 1) as nat)
        + " "@ + face_ref_text((off + t.c + 1) as nat) + "\n"@
}

/// The face lines of the first `k` triangles of a range selection.
pub open spec fn faces_upto_text(lod: Seq<Triangle>, off: u32, sel: TriangleRange, k: int) -> Seq<
    char,
>
    decreases k,
{
    if k <= 0 {
        Seq::empty()
    } else {
        faces_upto_text(lod, off, sel, k - 1) + face_line_text(off, lod[sel.offset + k - 1])
    }
}

/// A material's section: its annotation line, then one face line per
/// triangle of its first range selection only.
pub open spec fn material_text(lod: Seq<Triangle>, m: MaterialData) -> Seq<char> {
    material_header_text(m) + faces_upto_text(lod, m.vertex_offset, m.triangles[0], m.triangles[0].len as int)
}

/// The material sections of the document, in material-list order.
pub open spec fn materials_text(lod: Seq<Triangle>, ms: Seq<MaterialData>) -> Seq<char>
    decreases ms.len(),
{
    if ms.len() == 0 {
        Seq::empty()
    } else {
        materials_text(lod, ms.drop_last()) + material_text(lod, ms.last())
    }
}

/// The whole exported document for a model and the rendered
/// components of the first frame's vertices.
pub open spec fn export_text(m: ModelData, ss: Seq<VertexTextData>) -> Seq<char> {
    vertex_lines_text(ss) + materials_text(m.lod_levels[0], m.materials)
}

/// What the exporter cannot work without: a first frame, a first LOD
/// level, and a first range selection on every material.
pub open spec fn export_wf(m: ModelData) -> bool {
    &&& m.frames.len() >= 1
    &&& m.lod_levels.len() >= 1
    &&& forall|i: int| 0 <= i < m.materials.len() ==> (#[trigger] m.materials[i]).triangles.len() >= 1
}

/// Whether a triangle's shifted indices all name vertices of the
/// first frame.
pub open spec fn tri_refs_in(m: ModelData, off: u32, t: Triangle) -> bool {
    &&& off + t.a < m.frames[0].vertices.len()
    &&& off + t.b < m.frames[0].vertices.len()
    &&& off + t.c < m.frames[0].vertices.len()
}

/// Whether a material's first range selection lies within the first
/// LOD level and references only vertices of the first frame.
pub open spec fn material_in_bounds(m: ModelData, mat: MaterialData) -> bool {
    let sel = mat.triangles[0];
    &&& sel.offset + sel.len <= m.lod_levels[0].len()
    &&& forall|k: int|
        sel.offset <= k < sel.offset + sel.len ==> tri_refs_in(
            m,
            mat.vertex_offset,
            #[trigger] m.lod_levels[0][k],
        )
}

/// The exporter's data-integrity condition: every material's first
/// range selection is in bounds.
pub open spec fn export_in_bounds(m: ModelData) -> bool {
    forall|i: int| 0 <= i < m.materials.len() ==> material_in_bounds(m, #[trigger] m.materials[i])
}

fn check_material(model: &Model, mat: &Material) -> (b: bool)
    requires
        export_wf(model@),
        mat.triangles@.len() >= 1,
    ensures
        b == material_in_bounds(model@, mat@),
{
    let sel = mat.triangles[0];
    let lod_len = model.lod_levels[0].len();
    let vlen = model.frames[0].vertices.len();
    if sel.offset as u64 + sel.len as u64 > lod_len as u64 {
        return false;
    }
    let mut k: usize = 0;
    let count = sel.len as usize;
    while k < count
        invariant
            k <= count,
            count == sel.len as int,
            sel == mat@.triangles[0],
            export_wf(model@),
            sel.offset + sel.len <= model@.lod_levels[0].len(),
            lod_len == model@.lod_levels[0].len(),
            vlen == model@.frames[0].vertices.len(),
            forall|t: int|
                sel.offset <= t < sel.offset + k ==> tri_refs_in(
                    model@,
                    mat@.vertex_offset,
                    #[trigger] model@.lod_levels[0][t],
                ),
        decreases count - k,
    {
        let t = model.lod_levels[0][sel.offset as usize + k];
        let off = mat.vertex_offset as u64;
        if off + t.a as u64 >= vlen as u64 || off + t.b as u64 >= vlen as u64 || off + t.c as u64
            >= vlen as u64 {
            assert(!tri_refs_in(model@, mat@.vertex_offset, model@.lod_levels[0][sel.offset + k]));
            return false;
        }
        k += 1;
    }
    true
}

fn check_bounds(model: &Model) -> (b: bool)
    requires
        export_wf(model@),
    ensures
        b == export_in_bounds(model@),
{
    let n = model.materials.len();
    let mut i: usize = 0;
    while i < n
        invariant
            i <= n,
            n == model.materials@.len(),
            export_wf(model@),
            forall|t: int| 0 <= t < i ==> material_in_bounds(model@, #[trigger] model@.materials[t]),
        decreases n - i,
    {
        assert(model.materials@[i as int]@ == model@.materials[i as int]);
        if !check_material(model, &model.materials[i]) {
            assert(!material_in_bounds(model@, model@.materials[i as int]));
            return false;
        }
        i += 1;
    }
    true
}

fn push_vertex_block(s: &mut String, v: &VertexText)
    ensures
        final(s)@ == old(s)@ + vertex_block_text(v@),
{
    s.append("v ");
    s.append(v.position.x.as_str());
    s.append(" ");
    s.append(v.position.z.as_str());
    s.append(" ");
    s.append(v.position.y.as_str());
    s.append("\n");
    s.append("vn ");
    s.append(v.normal.x.as_str());
    s.append(" ");
    s.append(v.normal.z.as_str());
    s.append(" ");
    s.append(v.normal.y.as_str());
    s.append("\n");
    s.append("vt ");
    s.append(v.texture.u.as_str());
    s.append(" ");
    s.append(v.texture.v.as_str());
    s.append("\n");
    assert(s@ =~= old(s)@ + vertex_block_text(v@));
}

fn push_material_header(s: &mut String, m: &Material)
    ensures
        final(s)@ == old(s)@ + material_header_text(m@),
{
    s.append("# name: ");
    s.append(m.name.as_str());
    s.append(", texture: ");
    let num = u64_text(m.texture as u64);
    s.append(num.as_str());
    s.append(", texture_name: ");
    s.append(m.texture_name.as_str());
    s.append("\n");
    assert(s@ =~= old(s)@ + material_header_text(m@));
}

fn push_face_ref(s: &mut String, n: u64)
    ensures
        final(s)@ == old(s)@ + face_ref_text(n as nat),
{
    let num = u64_text(n);
    s.append(num.as_str());
    s.append("/");
    s.append(num.as_str());
    s.append("/");
    s.append(num.as_str());
    assert(s@ =~= old(s)@ + face_ref_text(n as nat));
}

fn push_face_line(s: &mut String, off: u32, t: &Triangle)
    ensures
        final(s)@ == old(s)@ + face_line_text(off, *t),
{
    s.append("f ");
    push_face_ref(s, off as u64 + t.a as u64 + 1);
    s.append(" ");
    push_face_ref(s, off as u64 + t.b as u64 + 1);
    s.append(" ");
    push_face_ref(s, off as u64 + t.c as u64 + 1);
    s.append("\n");
    assert(s@ =~= old(s)@ + face_line_text(off, *t));
}

proof fn lemma_vertex_lines_snoc(ss: Seq<VertexTextData>, i: int)
    requires
        0 <= i < ss.len(),
    ensures
        vertex_lines_text(ss.take(i + 1)) == vertex_lines_text(ss.take(i)) + vertex_block_text(
            ss[i],
        ),
{
    assert(ss.take(i + 1).drop_last() =~= ss.take(i));
    assert(ss.take(i + 1).last() == ss[i]);
}

proof fn lemma_materials_snoc(lod: Seq<Triangle>, ms: Seq<MaterialData>, i: int)
    requires
        0 <= i < ms.len(),
    ensures
        materials_text(lod, ms.take(i + 1)) == materials_text(lod, ms.take(i)) + material_text(
            lod,
            ms[i],
        ),
{
    assert(ms.take(i + 1).drop_last() =~= ms.take(i));
    assert(ms.take(i + 1).last() == ms[i]);
}

/// Produces the text document for a model: three attribute lines per
/// unified vertex of the first frame, then one annotation line and
/// the face lines of the first range selection per material. The
/// caller passes the rendered components of each vertex; a model
/// whose ranges or vertex references reach outside its own lists is
/// rejected as a data-integrity failure.
pub fn export_model(model: &Model, vertex_text: &Vec<VertexText>) -> (r: Result<
    String,
    ConvertError,
>)
    requires
        export_wf(model@),
        vertex_text@.len() == model@.frames[0].vertices.len(),
    ensures
        match r {
            Ok(s) => export_in_bounds(model@) && s@ == export_text(
                model@,
                vertex_text@.map_values(|v: VertexText| v@),
            ),
            Err(e) => !export_in_bounds(model@) && e == ConvertError::ModelOutOfBounds,
        },
{
    if !check_bounds(model) {
        return Err(ConvertError::ModelOutOfBounds);
    }
    let ghost ss = vertex_text@.map_values(|v: VertexText| v@);
    let mut s = String::new();
    let nv = vertex_text.len();
    let mut i: usize = 0;
    assert(ss.take(0) =~= Seq::empty());
    while i < nv
        invariant
            i <= nv,
            nv == vertex_text@.len(),
            ss == vertex_text@.map_values(|v: VertexText| v@),
            s@ == vertex_lines_text(ss.take(i as int)),
        decreases nv - i,
    {
        push_vertex_block(&mut s, &vertex_text[i]);
        proof {
            lemma_vertex_lines_snoc(ss, i as int);
        }
        i += 1;
    }
    assert(ss.take(nv as int) =~= ss);
    let ghost lod0 = model@.lod_levels[0];
    let ghost ms = model@.materials;
    let nm = model.materials.len();
    let mut j: usize = 0;
    assert(ms.take(0) =~= Seq::empty());
    assert(materials_text(lod0, ms.take(0)) + vertex_lines_text(ss) =~= vertex_lines_text(ss));
    while j < nm
        invariant
            j <= nm,
            nm == model.materials@.len(),
            export_wf(model@),
            export_in_bounds(model@),
            lod0 == model@.lod_levels[0],
            ms == model@.materials,
            s@ == vertex_lines_text(ss) + materials_text(lod0, ms.take(j as int)),
        decreases nm - j,
    {
        let ghost s0 = s@;
        let mat = &model.materials[j];
        assert(mat@ == ms[j as int]);
        push_material_header(&mut s, mat);
        let sel = mat.triangles[0];
        let count = sel.len as usize;
        let lod_len = model.lod_levels[0].len();
        let mut k: usize = 0;
        assert(material_in_bounds(model@, ms[j as int]));
        while k < count
            invariant
                k <= count,
                count == sel.len as int,
                sel == ms[j as int].triangles[0],
                export_wf(model@),
                material_in_bounds(model@, ms[j as int]),
                0 <= j < ms.len(),
                ms == model@.materials,
                ms[j as int] == model.materials@[j as int]@,
                lod0 == model@.lod_levels[0],
                lod_len == lod0.len(),
                sel.offset + sel.len <= lod0.len(),
                s@ == s0 + material_header_text(ms[j as int]) + faces_upto_text(
                    lod0,
                    ms[j as int].vertex_offset,
                    sel,
                    k as int,
                ),
            decreases count - k,
        {
            let t = model.lod_levels[0][sel.offset as usize + k];
            push_face_line(&mut s, model.materials[j].vertex_offset, &t);
            assert(s@ =~= s0 + material_header_text(ms[j as int]) + faces_upto_text(
                lod0,
                ms[j as int].vertex_offset,
                sel,
                k + 1,
            ));
            k += 1;
        }
        proof {
            lemma_materials_snoc(lod0, ms, j as int);
            assert(s@ =~= vertex_lines_text(ss) + materials_text(lod0, ms.take(j as int + 1)));
        }
        j += 1;
    }
    assert(ms.take(nm as int) =~= ms);
    Ok(s)
}

/// A model the importer assembles is always exportable: it has one
/// frame, one LOD level and one range selection on its material, the
/// selection covers exactly its triangle list, and triangles whose
/// indices name unified vertices stay within the frame's vertex list.
pub proof fn lemma_assembled_exportable(u: UnifiedData, center: Vec3)
    requires
        u.triangles.len() <= u32::MAX,
        forall|k: int|
            0 <= k < u.triangles.len() ==> (#[trigger] u.triangles[k]).a < u.vertices.len()
                && u.triangles[k].b < u.vertices.len() && u.triangles[k].c < u.vertices.len(),
    ensures
        export_wf(assembled(u, center)),
        export_in_bounds(assembled(u, center)),
{
    let m = assembled(u, center);
    assert forall|i: int| 0 <= i < m.materials.len() implies material_in_bounds(
        m,
        #[trigger] m.materials[i],
    ) by {
        let sel = m.materials[i].triangles[0];
        assert(sel.offset + sel.len <= m.lod_levels[0].len());
        assert forall|k: int| sel.offset <= k < sel.offset + sel.len implies tri_refs_in(
            m,
            m.materials[i].vertex_offset,
            #[trigger] m.lod_levels[0][k],
        ) by {
            assert(m.lod_levels[0][k] == u.triangles[k]);
        }
    }
}

/// Importing exchanges Y and Z and exporting exchanges them back: the
/// position line of an imported vertex renders the source position's
/// components in their source order, whatever rendering the caller
/// uses for single components.
pub proof fn lemma_axis_round_trip(p: Vec3, render: spec_fn(u32) -> Seq<char>)
    ensures
        swap_yz(swap_yz(p)) == p,
        position_line_text(
            PointTextData {
                x: render(swap_yz(p).x),
                y: render(swap_yz(p).y),
                z: render(swap_yz(p).z),
            },
        ) == "v "@ + render(p.x) + " "@ + render(p.y) + " "@ + render(p.z) + "\n"@,
{
}

} // verus!
