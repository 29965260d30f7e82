//! The text-to-binary importer: deduplicates and reindexes the text
//! format's separately indexed attribute streams into the binary
//! model's unified vertex layout.

use vstd::prelude::*;
use crate::mesh::{swap_yz, MeshData, MeshObject, Primitive, TexCoord, Vec3, VtnRef};
use crate::model::{
    Frame, FrameData, Material, MaterialData, Model, ModelData, Triangle, TriangleRange, Vertex,
};
use crate::ConvertError;

verus! {

/// The bit pattern of the single-precision value one, the X component
/// of the default normal.
pub const F32_ONE_BITS: u32 = 0x3F80_0000;

/// The corners a primitive contributes: three for a triangle, none for
/// a line or a point.
pub open spec fn corners_of(p: Primitive) -> Seq<VtnRef> {
    match p {
        Primitive::Triangle(a, b, c) => seq![a, b, c],
        _ => Seq::empty(),
    }
}

/// The triangles among a primitive sequence, in encounter order.
pub open spec fn tri_list(prims: Seq<Primitive>) -> Seq<(VtnRef, VtnRef, VtnRef)>
    decreases prims.len(),
{
    if prims.len() == 0 {
        Seq::empty()
    } else {
        tri_list(prims.drop_last()) + match prims.last() {
            Primitive::Triangle(a, b, c) => seq![(a, b, c)],
            _ => Seq::empty(),
        }
    }
}

/// All triangle corners of a primitive sequence, flattened in
/// encounter order.
pub open spec fn corner_list(prims: Seq<Primitive>) -> Seq<VtnRef>
    decreases prims.len(),
{
    if prims.len() == 0 {
        Seq::empty()
    } else {
        corner_list(prims.drop_last()) + corners_of(prims.last())
    }
}

/// Keeps the first occurrence of every element, in first-sight order:
/// the insertion order of the vertex-reference map.
pub open spec fn dedup(s: Seq<VtnRef>) -> Seq<VtnRef>
    decreases s.len(),
{
    if s.len() == 0 {
        Seq::empty()
    } else {
        let d = dedup(s.drop_last());
        if d.contains(s.last()) {
            d
        } else {
            d.push(s.last())
        }
    }
}

/// How one more corner extends a deduplicated sequence.
pub open spec fn dedup_step(d: Seq<VtnRef>, r: VtnRef) -> Seq<VtnRef> {
    if d.contains(r) {
        d
    } else {
        d.push(r)
    }
}

/// The unified vertex references of a mesh: its triangle corners with
/// duplicates removed, in first-sight order.
pub open spec fn unified_refs(m: MeshData) -> Seq<VtnRef> {
    dedup(corner_list(m.primitives))
}

/// Whether every index of a vertex reference points into its
/// attribute stream.
pub open spec fn ref_in_range(m: MeshData, r: VtnRef) -> bool {
    &&& r.position < m.positions.len()
    &&& (r.texture matches Some(t) ==> t < m.texcoords.len())
    &&& (r.normal matches Some(n) ==> n < m.normals.len())
}

/// The unified vertex a reference resolves to: the position and normal
/// with Y and Z exchanged, and the defaults where the reference omits
/// a texture or normal index.
pub open spec fn unify_vertex(m: MeshData, r: VtnRef) -> Vertex {
    Vertex {
        position: swap_yz(m.positions[r.position as int]),
        texture: match r.texture {
            Some(t) => TexCoord { u: m.texcoords[t as int].u, v: m.texcoords[t as int].v },
            None => TexCoord { u: 0, v: 0 },
        },
        normal: match r.normal {
            Some(n) => swap_yz(m.normals[n as int]),
            None => Vec3 { x: F32_ONE_BITS, y: 0, z: 0 },
        },
    }
}

/// The unified vertex list of a mesh, in map insertion order.
pub open spec fn unified_vertices(m: MeshData) -> Seq<Vertex> {
    unified_refs(m).map_values(|r: VtnRef| unify_vertex(m, r))
}

/// The reindexed triangle list: each corner replaced by the index of
/// its reference tuple in the unified reference list.
pub open spec fn unified_triangles(m: MeshData) -> Seq<Triangle> {
    tri_list(m.primitives).map_values(
        |t: (VtnRef, VtnRef, VtnRef)|
            (Triangle {
                a: unified_refs(m).index_of(t.0) as u32,
                b: unified_refs(m).index_of(t.1) as u32,
                c: unified_refs(m).index_of(t.2) as u32,
            }),
    )
}

/// Whether some triangle corner points outside an attribute stream.
pub open spec fn has_oor_corner(m: MeshData) -> bool {
    exists|i: int|
        0 <= i < corner_list(m.primitives).len() && !ref_in_range(
            m,
            #[trigger] corner_list(m.primitives)[i],
        )
}

/// The error unification reports, or `None` where it is owed success:
/// an out-of-range corner first, then empty geometry, then counts that
/// do not fit the binary format's 32-bit indices.
pub open spec fn import_error(m: MeshData) -> Option<ConvertError> {
    if has_oor_corner(m) {
        Some(ConvertError::AttributeIndexOutOfRange)
    } else if tri_list(m.primitives).len() == 0 {
        Some(ConvertError::EmptyGeometry)
    } else if unified_refs(m).len() > u32::MAX || tri_list(m.primitives).len() > u32::MAX {
        Some(ConvertError::ModelTooLarge)
    } else {
        None
    }
}

/// The flat result of unification: the unified vertex list and the
/// reindexed triangle list, before the model structure is assembled
/// around them.
#[derive(Debug)]
pub struct UnifiedMesh {
    pub vertices: Vec<Vertex>,
    pub triangles: Vec<Triangle>,
}

/// The mathematical view of a `UnifiedMesh`.
#[verifier::ext_equal]
pub struct UnifiedData {
    pub vertices: Seq<Vertex>,
    pub triangles: Seq<Triangle>,
}

impl View for UnifiedMesh {
    type V = UnifiedData;

    open spec fn view(&self) -> UnifiedData {
        UnifiedData { vertices: self.vertices@, triangles: self.triangles@ }
    }
}

/// The model the importer owes for a unified mesh and a bounding
/// center: one material with empty names and texture slot zero whose
/// single range covers every triangle and whose vertex range covers
/// every unified vertex, one LOD level holding the full triangle
/// list, one frame holding the full vertex list, and no tag points.
pub open spec fn assembled(u: UnifiedData, center: Vec3) -> ModelData {
    ModelData {
        center,
        lod_levels: seq![u.triangles],
        materials: seq![
            MaterialData {
                name: Seq::empty(),
                texture: 0,
                triangles: seq![TriangleRange { offset: 0, len: u.triangles.len() as u32 }],
                vertex_offset: 0,
                vertex_count: u.vertices.len() as u32,
                texture_name: Seq::empty(),
            },
        ],
        tag_points: Seq::empty(),
        frames: seq![FrameData { vertices: u.vertices }],
    }
}

/// Builds the binary model around a unified mesh and the bounding
/// center computed from its vertex positions, moving both lists into
/// the final value.
pub fn assemble_model(u: UnifiedMesh, center: Vec3) -> (m: Model)
    requires
        u.vertices@.len() <= u32::MAX,
        u.triangles@.len() <= u32::MAX,
    ensures
        m@ == assembled(u@, center),
{
    let ghost u0 = u@;
    let material = Material {
        name: String::new(),
        texture: 0,
        triangles: vec![TriangleRange { offset: 0, len: u.triangles.len() as u32 }],
        vertex_offset: 0,
        vertex_count: u.vertices.len() as u32,
        texture_name: String::new(),
    };
    let m = Model {
        center,
        lod_levels: vec![u.triangles],
        materials: vec![material],
        tag_points: Vec::new(),
        frames: vec![Frame { vertices: u.vertices }],
    };
    assert(m@.lod_levels =~= assembled(u0, center).lod_levels);
    assert(m@.materials =~~= assembled(u0, center).materials);
    assert(m@.tag_points =~= assembled(u0, center).tag_points);
    assert(m@.frames =~~= assembled(u0, center).frames);
    assert(m@ =~~= assembled(u0, center));
    m
}

proof fn lemma_corner_list_snoc(g: Seq<Primitive>, i: int)
    requires
        0 <= i < g.len(),
    ensures
        corner_list(g.take(i + 1)) == corner_list(g.take(i)) + corners_of(g[i]),
        tri_list(g.take(i + 1)) == tri_list(g.take(i)) + match g[i] {
            Primitive::Triangle(a, b, c) => seq![(a, b, c)],
            _ => Seq::empty(),
        },
{
    let s = g.take(i + 1);
    assert(s.drop_last() =~= g.take(i));
    assert(s.last() == g[i]);
}

proof fn lemma_dedup_push(s: Seq<VtnRef>, x: VtnRef)
    ensures
        dedup(s.push(x)) == dedup_step(dedup(s), x),
{
    assert(s.push(x).drop_last() =~= s);
    assert(s.push(x).last() == x);
}

proof fn lemma_dedup_no_dup(s: Seq<VtnRef>)
    ensures
        dedup(s).no_duplicates(),
    decreases s.len(),
{
    if s.len() == 0 {
    } else {
        lemma_dedup_no_dup(s.drop_last());
    }
}

proof fn lemma_dedup_contains(s: Seq<VtnRef>, x: VtnRef)
    ensures
        dedup(s).contains(x) == s.contains(x),
    decreases s.len(),
{
    if s.len() == 0 {
        assert(!s.contains(x));
    } else {
        let t = s.drop_last();
        let d = dedup(t);
        lemma_dedup_contains(t, x);
        if t.contains(x) {
            let w = choose|i: int| 0 <= i < t.len() && t[i] == x;
            assert(s[w] == x);
        }
        if x == s.last() {
            assert(s[s.len() - 1] == x);
            if !d.contains(s.last()) {
                assert(dedup(s)[d.len() as int] == x);
            }
        } else {
            if s.contains(x) {
                let w = choose|i: int| 0 <= i < s.len() && s[i] == x;
                assert(t[w] == x);
            }
            if !d.contains(s.last()) && dedup(s).contains(x) {
                let w = choose|i: int| 0 <= i < dedup(s).len() && dedup(s)[i] == x;
                assert(d[w] == x);
            }
            if !d.contains(s.last()) && d.contains(x) {
                let w = choose|i: int| 0 <= i < d.len() && d[i] == x;
                assert(dedup(s)[w] == x);
            }
        }
    }
}

proof fn lemma_index_of_unique(s: Seq<VtnRef>, j: int)
    requires
        s.no_duplicates(),
        0 <= j < s.len(),
    ensures
        s.index_of(s[j]) == j,
{
    assert(s.contains(s[j]));
}

proof fn lemma_corner_member(g: Seq<Primitive>, i: int, c: VtnRef)
    requires
        0 <= i < g.len(),
        corners_of(g[i]).contains(c),
    ensures
        corner_list(g).contains(c),
    decreases g.len(),
{
    if i == g.len() - 1 {
        let w = choose|k: int| 0 <= k < corners_of(g[i]).len() && corners_of(g[i])[k] == c;
        assert(corner_list(g)[corner_list(g.drop_last()).len() + w] == c);
    } else {
        assert(g.drop_last()[i] == g[i]);
        lemma_corner_member(g.drop_last(), i, c);
        let w = choose|k: int|
            0 <= k < corner_list(g.drop_last()).len() && corner_list(g.drop_last())[k] == c;
        assert(corner_list(g)[w] == c);
    }
}

/// Two corners of a mesh's geometry resolve to the same unified index
/// exactly when their full reference tuples are identical; a corner's
/// tuple always appears in the unified reference list.
pub proof fn lemma_corner_dedup(m: MeshData, i: int, j: int)
    requires
        0 <= i < corner_list(m.primitives).len(),
        0 <= j < corner_list(m.primitives).len(),
    ensures
        unified_refs(m).contains(corner_list(m.primitives)[i]),
        unified_refs(m).index_of(corner_list(m.primitives)[i]) == unified_refs(m).index_of(
            corner_list(m.primitives)[j],
        ) <==> corner_list(m.primitives)[i] == corner_list(m.primitives)[j],
{
    let cs = corner_list(m.primitives);
    let refs = unified_refs(m);
    lemma_dedup_no_dup(cs);
    lemma_dedup_contains(cs, cs[i]);
    lemma_dedup_contains(cs, cs[j]);
    assert(cs.contains(cs[i]));
    assert(cs.contains(cs[j]));
    let wi = refs.index_of(cs[i]);
    let wj = refs.index_of(cs[j]);
    assert(refs[wi] == cs[i]);
    assert(refs[wj] == cs[j]);
}

/// The in-progress vertex-reference map: the reference tuples in
/// insertion order beside the unified vertices built from them; a
/// tuple's index in `refs` is its unified vertex index.
struct Unifier {
    refs: Vec<VtnRef>,
    vertices: Vec<Vertex>,
}

impl Unifier {
    spec fn inv(self, m: MeshData) -> bool {
        &&& self.refs@.no_duplicates()
        &&& self.vertices@.len() == self.refs@.len()
        &&& forall|j: int| 0 <= j < self.refs@.len() ==> ref_in_range(m, #[trigger] self.refs@[j])
        &&& forall|j: int|
            0 <= j < self.refs@.len() ==> self.vertices@[j] == unify_vertex(
                m,
                #[trigger] self.refs@[j],
            )
    }

    /// Resolves one vertex reference: reuses the unified index of an
    /// already-seen tuple, or checks the tuple's indices and inserts a
    /// freshly built unified vertex.
    fn resolve(&mut self, obj: &MeshObject, r: VtnRef) -> (res: Result<usize, ConvertError>)
        requires
            old(self).inv(obj@),
        ensures
            final(self).inv(obj@),
            match res {
                Ok(j) => {
                    &&& ref_in_range(obj@, r)
                    &&& final(self).refs@ == dedup_step(old(self).refs@, r)
                    &&& j < final(self).refs@.len()
                    &&& final(self).refs@[j as int] == r
                },
                Err(e) => {
                    &&& e == ConvertError::AttributeIndexOutOfRange
                    &&& !ref_in_range(obj@, r)
                    &&& *final(self) == *old(self)
                },
            },
    {
        if let Some(k) = find_ref(&self.refs, r) {
            assert(self.refs@.contains(r));
            return Ok(k);
        }
        assert(!self.refs@.contains(r));
        let pos_ok = r.position < obj.positions.len();
        let tex_ok = match r.texture {
            Some(t) => t < obj.texcoords.len(),
            None => true,
        };
        let nrm_ok = match r.normal {
            Some(t) => t < obj.normals.len(),
            None => true,
        };
        if !pos_ok || !tex_ok || !nrm_ok {
            return Err(ConvertError::AttributeIndexOutOfRange);
        }
        let position = obj.positions[r.position].swapped_yz();
        let texture = match r.texture {
            Some(t) => {
                let tc = obj.texcoords[t];
                TexCoord { u: tc.u, v: tc.v }
            },
            None => TexCoord { u: 0, v: 0 },
        };
        let normal = match r.normal {
            Some(t) => obj.normals[t].swapped_yz(),
            None => Vec3 { x: F32_ONE_BITS, y: 0, z: 0 },
        };
        let built = Vertex { position, texture, normal };
        assert(built == unify_vertex(obj@, r));
        self.vertices.push(built);
        self.refs.push(r);
        Ok(self.refs.len() - 1)
    }
}

/// Linear lookup of a reference tuple in the insertion-ordered key
/// list of the vertex-reference map.
fn find_ref(refs: &Vec<VtnRef>, r: VtnRef) -> (res: Option<usize>)
    ensures
        match res {
            Some(j) => j < refs@.len() && refs@[j as int] == r,
            None => !refs@.contains(r),
        },
{
    let n = refs.len();
    let mut k: usize = 0;
    while k < n
        invariant
            k <= n,
            n == refs@.len(),
            forall|t: int| 0 <= t < k ==> refs@[t] != r,
        decreases n - k,
    {
        if refs[k] == r {
            return Some(k);
        }
        k += 1;
    }
    None
}

/// Whether an index triple names the positions of a corner triple in
/// the reference list.
spec fn tri_ok(refs: Seq<VtnRef>, t: (VtnRef, VtnRef, VtnRef), ix: (usize, usize, usize)) -> bool {
    &&& ix.0 < refs.len() && refs[ix.0 as int] == t.0
    &&& ix.1 < refs.len() && refs[ix.1 as int] == t.1
    &&& ix.2 < refs.len() && refs[ix.2 as int] == t.2
}

/// Builds the unified vertex list and the reindexed triangle list of a
/// text-mesh object: every triangle corner is resolved through the
/// vertex-reference map in encounter order, and lines and points are
/// skipped; fails exactly as `import_error` states.
pub fn unify_object(obj: &MeshObject) -> (r: Result<UnifiedMesh, ConvertError>)
    ensures
        match r {
            Ok(u) => {
                &&& import_error(obj@) is None
                &&& u.vertices@ == unified_vertices(obj@)
                &&& u.triangles@ == unified_triangles(obj@)
                &&& 0 < u.vertices@.len() <= u32::MAX
                &&& 0 < u.triangles@.len() <= u32::MAX
                &&& forall|k: int|
                    0 <= k < u.triangles@.len() ==> (#[trigger] u.triangles@[k]).a
                        < u.vertices@.len() && u.triangles@[k].b < u.vertices@.len()
                        && u.triangles@[k].c < u.vertices@.len()
            },
            Err(e) => import_error(obj@) == Some(e),
        },
{
    let g = Ghost(obj.primitives@);
    let mut st = Unifier { refs: Vec::new(), vertices: Vec::new() };
    let mut tri_idx: Vec<(usize, usize, usize)> = Vec::new();
    let n = obj.primitives.len();
    let mut i: usize = 0;
    assert(g@.take(0) =~= Seq::empty());
    while i < n
        invariant
            i <= n,
            n == g@.len(),
            g@ == obj.primitives@,
            st.inv(obj@),
            st.refs@ == dedup(corner_list(g@.take(i as int))),
            tri_idx@.len() == tri_list(g@.take(i as int)).len(),
            forall|k: int|
                0 <= k < tri_idx@.len() ==> tri_ok(
                    st.refs@,
                    tri_list(g@.take(i as int))[k],
                    #[trigger] tri_idx@[k],
                ),
        decreases n - i,
    {
        proof {
            lemma_corner_list_snoc(g@, i as int);
        }
        let ghost cs = corner_list(g@.take(i as int));
        match obj.primitives[i] {
            Primitive::Triangle(a, b, c) => {
                assert(corners_of(g@[i as int]) =~= seq![a, b, c]);
                assert(corner_list(g@.take(i as int + 1)) =~= cs.push(a).push(b).push(c));
                proof {
                    lemma_dedup_push(cs, a);
                    lemma_dedup_push(cs.push(a), b);
                    lemma_dedup_push(cs.push(a).push(b), c);
                }
                let ghost st0 = st.refs@;
                let ia = match st.resolve(obj, a) {
                    Ok(j) => j,
                    Err(e) => {
                        proof {
                            assert(corners_of(g@[i as int]).contains(a));
                            lemma_corner_member(g@, i as int, a);
                            lemma_dedup_contains(corner_list(g@), a);
                        }
                        return Err(e);
                    },
                };
                let ib = match st.resolve(obj, b) {
                    Ok(j) => j,
                    Err(e) => {
                        proof {
                            assert(corners_of(g@[i as int]).contains(b));
                            lemma_corner_member(g@, i as int, b);
                        }
                        return Err(e);
                    },
                };
                let ic = match st.resolve(obj, c) {
                    Ok(j) => j,
                    Err(e) => {
                        proof {
                            assert(corners_of(g@[i as int]).contains(c));
                            lemma_corner_member(g@, i as int, c);
                        }
                        return Err(e);
                    },
                };
                tri_idx.push((ia, ib, ic));
                assert(tri_list(g@.take(i as int + 1)) =~= tri_list(g@.take(i as int)).push(
                    (a, b, c),
                ));
            },
            _ => {
                assert(corner_list(g@.take(i as int + 1)) =~= cs);
                assert(tri_list(g@.take(i as int + 1)) =~= tri_list(g@.take(i as int)));
            },
        }
        i += 1;
    }
    assert(g@.take(n as int) =~= g@);
    proof {
        if has_oor_corner(obj@) {
            let w = choose|w: int|
                0 <= w < corner_list(g@).len() && !ref_in_range(
                    obj@,
                    #[trigger] corner_list(g@)[w],
                );
            lemma_dedup_contains(corner_list(g@), corner_list(g@)[w]);
            let v = choose|v: int| 0 <= v < st.refs@.len() && st.refs@[v] == corner_list(g@)[w];
            assert(ref_in_range(obj@, st.refs@[v]));
        }
    }
    if tri_idx.len() == 0 {
        return Err(ConvertError::EmptyGeometry);
    }
    if st.refs.len() > u32::MAX as usize || tri_idx.len() > u32::MAX as usize {
        return Err(ConvertError::ModelTooLarge);
    }
    proof {
        lemma_dedup_no_dup(corner_list(g@));
    }
    let m = tri_idx.len();
    let mut triangles: Vec<Triangle> = Vec::new();
    let mut k: usize = 0;
    while k < m
        invariant
            k <= m,
            m == tri_idx@.len(),
            tri_idx@.len() == unified_triangles(obj@).len(),
            triangles@.len() == k,
            st.refs@ == unified_refs(obj@),
            st.refs@.len() <= u32::MAX,
            st.refs@.no_duplicates(),
            forall|t: int|
                0 <= t < tri_idx@.len() ==> tri_ok(
                    st.refs@,
                    tri_list(obj.primitives@)[t],
                    #[trigger] tri_idx@[t],
                ),
            forall|t: int| 0 <= t < k ==> #[trigger] triangles@[t] == unified_triangles(obj@)[t],
            forall|t: int|
                0 <= t < k ==> (#[trigger] triangles@[t]).a < st.refs@.len()
                    && triangles@[t].b < st.refs@.len() && triangles@[t].c < st.refs@.len(),
        decreases m - k,
    {
        let (ia, ib, ic) = tri_idx[k];
        proof {
            lemma_index_of_unique(st.refs@, ia as int);
            lemma_index_of_unique(st.refs@, ib as int);
            lemma_index_of_unique(st.refs@, ic as int);
        }
        triangles.push(Triangle { a: ia as u32, b: ib as u32, c: ic as u32 });
        k += 1;
    }
    assert(triangles@ =~= unified_triangles(obj@));
    assert(st.vertices@ =~= unified_vertices(obj@));
    assert(unified_vertices(obj@).len() > 0) by {
        assert(tri_list(obj.primitives@).len() > 0);
        assert(tri_ok(st.refs@, tri_list(obj.primitives@)[0], tri_idx@[0]));
    }
    Ok(UnifiedMesh { vertices: st.vertices, triangles })
}

} // verus!
