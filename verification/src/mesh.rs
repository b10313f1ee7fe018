//! Mesh ingestion: from raw parser output to render-ready arrays.
//!
//! A `MeshSource` is what any mesh parser hands over: flat per-vertex
//! positions, optional per-vertex normals and optional triangle
//! indices. Loading validates the payload, passes indices through (or
//! synthesizes consecutive triples when they are absent), copies
//! positions verbatim, fills a fixed light-gray color, and takes the
//! supplied normals or computes face-averaged ones from the geometry.
//! A load either succeeds completely or leaves the mesh untouched.

use vstd::prelude::*;
use crate::fixed::MILLI;
use crate::vec3::{Vec3Fixed, Vec3i, vec3i, sub_spec, add_spec, cross_spec, normalize_spec,
    vec_sub, vec_add, vec_cross, vec_normalize, MAX_COORD};

verus! {

/// Brightness of the fixed light-gray vertex color, in thousandths.
pub const DEFAULT_COLOR_LEVEL: i64 = 800;

/// The unit up vector, the normal of last resort.
pub open spec fn up_vector_spec() -> Vec3Fixed {
    Vec3Fixed { x: 0, y: MILLI, z: 0 }
}

/// The fixed vertex color.
pub open spec fn default_color_spec() -> Vec3Fixed {
    Vec3Fixed { x: DEFAULT_COLOR_LEVEL, y: DEFAULT_COLOR_LEVEL, z: DEFAULT_COLOR_LEVEL }
}

/// One render-ready vertex.
#[derive(Clone, Copy, Debug, PartialEq, Eq, Structural)]
pub struct Vertex {
    pub position: Vec3Fixed,
    pub normal: Vec3Fixed,
    pub color: Vec3Fixed,
}

/// Raw per-model arrays produced by a mesh parser. Empty `normals` or
/// `indices` mean the source did not carry them.
#[derive(Clone, Debug, PartialEq)]
pub struct MeshSource {
    pub positions: Vec<Vec3Fixed>,
    pub normals: Vec<Vec3Fixed>,
    pub indices: Vec<u32>,
}

/// The mesh the renderer draws: an ordered vertex list and a triangle
/// list of 32-bit indices.
#[derive(Clone, Debug, PartialEq)]
pub struct Mesh {
    pub vertices: Vec<Vertex>,
    pub indices: Vec<u32>,
    pub num_indices: u32,
}

/// Why a load was rejected; the renderer keeps its previous mesh.
#[derive(Clone, Copy, Debug, PartialEq, Eq, Structural)]
pub enum LoadError {
    /// The source carries no vertices at all.
    EmptyGeometry,
    /// More vertices than 32-bit indices can address.
    TooManyVertices,
    /// A vertex coordinate outside the supported world volume.
    CoordinateOutOfRange,
    /// More indices than the draw path's 32-bit counter can hold.
    TooManyIndices,
    /// The index count is not a multiple of three.
    IndexCountNotTriangles,
    /// An index that points past the vertex list.
    IndexOutOfRange,
}

impl LoadError {
    /// A human-readable reason for the failure.
    pub fn describe(&self) -> (r: &'static str)
        ensures
            match self {
                LoadError::EmptyGeometry => r@ == "mesh source contains no vertices"@,
                LoadError::TooManyVertices => r@ == "mesh has more vertices than 32-bit indices can address"@,
                LoadError::CoordinateOutOfRange => r@ == "vertex coordinate outside the supported world volume"@,
                LoadError::TooManyIndices => r@ == "mesh has more indices than the draw counter can hold"@,
                LoadError::IndexCountNotTriangles => r@ == "index count is not a multiple of three"@,
                LoadError::IndexOutOfRange => r@ == "index points past the end of the vertex list"@,
            },
    {
        match self {
            LoadError::EmptyGeometry => "mesh source contains no vertices",
            LoadError::TooManyVertices => "mesh has more vertices than 32-bit indices can address",
            LoadError::CoordinateOutOfRange => "vertex coordinate outside the supported world volume",
            LoadError::TooManyIndices => "mesh has more indices than the draw counter can hold",
            LoadError::IndexCountNotTriangles => "index count is not a multiple of three",
            LoadError::IndexOutOfRange => "index points past the end of the vertex list",
        }
    }
}

/// Every position within the supported world volume.
pub open spec fn positions_bounded(ps: Seq<Vec3Fixed>) -> bool {
    forall|j: int| 0 <= j < ps.len() ==> {
        &&& -MAX_COORD <= #[trigger] ps[j].x <= MAX_COORD
        &&& -MAX_COORD <= ps[j].y <= MAX_COORD
        &&& -MAX_COORD <= ps[j].z <= MAX_COORD
    }
}

/// Every vertex position within the supported world volume.
pub open spec fn vertex_positions_bounded(vs: Seq<Vertex>) -> bool {
    forall|j: int| 0 <= j < vs.len() ==> {
        &&& -MAX_COORD <= (#[trigger] vs[j]).position.x <= MAX_COORD
        &&& -MAX_COORD <= vs[j].position.y <= MAX_COORD
        &&& -MAX_COORD <= vs[j].position.z <= MAX_COORD
    }
}

/// The first reason to reject a source, if any, in the order the
/// loader checks: geometry present, vertex count addressable,
/// coordinates in range, index count bounded, triangles whole, and
/// every index in range.
pub open spec fn validate_spec(src: MeshSource) -> Option<LoadError> {
    if src.positions@.len() == 0 {
        Some(LoadError::EmptyGeometry)
    } else if src.positions@.len() > 0xffff_ffff {
        Some(LoadError::TooManyVertices)
    } else if !positions_bounded(src.positions@) {
        Some(LoadError::CoordinateOutOfRange)
    } else if src.indices@.len() > 0xffff_ffff {
        Some(LoadError::TooManyIndices)
    } else if src.indices@.len() % 3 != 0 {
        Some(LoadError::IndexCountNotTriangles)
    } else if exists|k: int|
        0 <= k < src.indices@.len() && #[trigger] src.indices@[k] as int >= src.positions@.len() {
        Some(LoadError::IndexOutOfRange)
    } else {
        None
    }
}

/// The triangle list actually used: the supplied indices, or
/// consecutive triples over the vertices (dropping the trailing one or
/// two vertices of an incomplete triple) when none were supplied.
pub open spec fn effective_indices(src: MeshSource) -> Seq<u32> {
    if src.indices@.len() > 0 {
        src.indices@
    } else {
        Seq::new((src.positions@.len() as int / 3 * 3) as nat, |i: int| i as u32)
    }
}

/// Does triangle `t` of the index list reference vertex `v`?
pub open spec fn tri_references(idx: Seq<u32>, t: int, v: int) -> bool {
    ||| idx[3 * t] as int == v
    ||| idx[3 * t + 1] as int == v
    ||| idx[3 * t + 2] as int == v
}

/// The unit normal of triangle `t`: the normalized cross product of
/// its two edge vectors out of the first corner.
pub open spec fn face_normal_spec(pos: Seq<Vec3Fixed>, idx: Seq<u32>, t: int) -> Vec3i {
    let p1 = pos[idx[3 * t] as int];
    let p2 = pos[idx[3 * t + 1] as int];
    let p3 = pos[idx[3 * t + 2] as int];
    normalize_spec(cross_spec(
        sub_spec(vec3i(p2), vec3i(p1)),
        sub_spec(vec3i(p3), vec3i(p1)),
    ))
}

/// Sum of the unit normals of the first `t` triangles that reference
/// vertex `v`, together with how many those are.
pub open spec fn normal_accum_spec(pos: Seq<Vec3Fixed>, idx: Seq<u32>, v: int, t: int)
    -> (Vec3i, int)
    decreases t,
{
    if t <= 0 {
        (Vec3i { x: 0, y: 0, z: 0 }, 0)
    } else {
        let prev = normal_accum_spec(pos, idx, v, t - 1);
        if tri_references(idx, t - 1, v) {
            (add_spec(prev.0, face_normal_spec(pos, idx, t - 1)), prev.1 + 1)
        } else {
            prev
        }
    }
}

/// The face-averaged normal of vertex `v`: the normalized sum of the
/// unit normals of every triangle referencing it, or the up vector
/// when no triangle does.
pub open spec fn computed_normal_spec(pos: Seq<Vec3Fixed>, idx: Seq<u32>, v: int) -> Vec3Fixed {
    let acc = normal_accum_spec(pos, idx, v, idx.len() as int / 3);
    if acc.1 == 0 {
        up_vector_spec()
    } else {
        let u = normalize_spec(acc.0);
        Vec3Fixed { x: u.x as i64, y: u.y as i64, z: u.z as i64 }
    }
}

/// The normal vertex `i` receives: the supplied one where present (up
/// vector past the end of a short normal list), the face-averaged one
/// when the source carried no normals at all.
pub open spec fn source_normal_spec(src: MeshSource, i: int) -> Vec3Fixed {
    if src.normals@.len() > 0 {
        if i < src.normals@.len() {
            src.normals@[i]
        } else {
            up_vector_spec()
        }
    } else {
        computed_normal_spec(src.positions@, effective_indices(src), i)
    }
}

/// What a successful load produces from a source.
pub open spec fn loaded_from(m: Mesh, src: MeshSource) -> bool {
    &&& m.vertices@.len() == src.positions@.len()
    &&& forall|i: int| 0 <= i < m.vertices@.len()
        ==> (#[trigger] m.vertices@[i]).position == src.positions@[i]
    &&& forall|i: int| 0 <= i < m.vertices@.len()
        ==> (#[trigger] m.vertices@[i]).color == default_color_spec()
    &&& forall|i: int| 0 <= i < m.vertices@.len()
        ==> (#[trigger] m.vertices@[i]).normal == source_normal_spec(src, i)
    &&& m.indices@ == effective_indices(src)
    &&& m.num_indices as int == m.indices@.len()
}

/// Internal mesh invariant: whole triangles, indices in range, counts
/// synchronized, coordinates in the supported volume.
pub open spec fn mesh_wf(m: Mesh) -> bool {
    &&& m.indices@.len() % 3 == 0
    &&& m.indices@.len() <= 0xffff_ffff
    &&& m.vertices@.len() <= 0xffff_ffff
    &&& forall|k: int| 0 <= k < m.indices@.len()
        ==> ((#[trigger] m.indices@[k]) as int) < m.vertices@.len()
    &&& m.num_indices as int == m.indices@.len()
    &&& vertex_positions_bounded(m.vertices@)
}

/// Where the accumulated face normals of a vertex come to at least one
/// unit of length, the vertex's computed normal is unit length up to
/// rounding: its squared length, in squared thousandths, lies within
/// `[994_000, 1_002_003]` around the exact `1_000_000`. A near-total
/// cancellation of opposing faces can leave the sum shorter than that,
/// and then the rounding is too coarse for the bound.
pub proof fn lemma_computed_normal_near_unit(pos: Seq<Vec3Fixed>, idx: Seq<u32>, v: int)
    requires
        normal_accum_spec(pos, idx, v, idx.len() as int / 3).1 != 0,
        crate::fixed::sqrt_floor(crate::vec3::norm_sq_spec(
            normal_accum_spec(pos, idx, v, idx.len() as int / 3).0)) >= MILLI as int,
    ensures
        994_000 <= crate::vec3::norm_sq_spec(vec3i(computed_normal_spec(pos, idx, v)))
            <= 1_002_003,
{
    let acc = normal_accum_spec(pos, idx, v, idx.len() as int / 3);
    crate::vec3::lemma_normalize_near_unit(acc.0);
    crate::vec3::lemma_normalize_components(acc.0);
}

proof fn lemma_accum_unreferenced(pos: Seq<Vec3Fixed>, idx: Seq<u32>, v: int, t: int)
    requires
        forall|u: int| 0 <= u < t ==> !#[trigger] tri_references(idx, u, v),
    ensures
        normal_accum_spec(pos, idx, v, t).1 == 0,
    decreases t,
{
    if t > 0 {
        lemma_accum_unreferenced(pos, idx, v, t - 1);
    }
}

/// A vertex that no triangle references falls back to the exact up
/// vector when normals are computed from the geometry.
pub proof fn lemma_unreferenced_vertex_up_normal(pos: Seq<Vec3Fixed>, idx: Seq<u32>, v: int)
    requires
        forall|t: int| 0 <= t < idx.len() as int / 3 ==> !#[trigger] tri_references(idx, t, v),
    ensures
        computed_normal_spec(pos, idx, v) == up_vector_spec(),
{
    lemma_accum_unreferenced(pos, idx, v, idx.len() as int / 3);
}

/// The face-averaged normal of one vertex, over every whole triangle
/// in the index list; linear in the triangle count, and run once per
/// vertex only when a source omits normals.
pub fn calculate_normal_for_vertex(
    vertex_index: usize,
    positions: &Vec<Vec3Fixed>,
    indices: &Vec<u32>,
) -> (r: Vec3Fixed)
    requires
        indices@.len() % 3 == 0,
        indices@.len() <= 0xffff_ffff,
        forall|k: int| 0 <= k < indices@.len()
            ==> ((#[trigger] indices@[k]) as int) < positions@.len(),
        positions_bounded(positions@),
    ensures
        r == computed_normal_spec(positions@, indices@, vertex_index as int),
{
    let ghost pos = positions@;
    let ghost idx = indices@;
    let ghost v = vertex_index as int;
    let tcount = indices.len() / 3;
    let mut sum = Vec3Fixed { x: 0, y: 0, z: 0 };
    let mut count: u64 = 0;
    let mut t: usize = 0;
    while t < tcount
        invariant
            tcount == idx.len() / 3,
            idx.len() % 3 == 0,
            idx.len() <= 0xffff_ffff,
            forall|k: int| 0 <= k < idx.len()
                ==> ((#[trigger] idx[k]) as int) < pos.len(),
            positions_bounded(pos),
            pos == positions@,
            idx == indices@,
            v == vertex_index as int,
            t <= tcount,
            vec3i(sum) == normal_accum_spec(pos, idx, v, t as int).0,
            count as int == normal_accum_spec(pos, idx, v, t as int).1,
            count <= t,
            -MILLI * (t as int) <= sum.x <= MILLI * (t as int),
            -MILLI * (t as int) <= sum.y <= MILLI * (t as int),
            -MILLI * (t as int) <= sum.z <= MILLI * (t as int),
        decreases tcount - t,
    {
        let i1 = indices[3 * t] as usize;
        let i2 = indices[3 * t + 1] as usize;
        let i3 = indices[3 * t + 2] as usize;
        if i1 == vertex_index || i2 == vertex_index || i3 == vertex_index {
            let p1 = positions[i1];
            let p2 = positions[i2];
            let p3 = positions[i3];
            let edge1 = vec_sub(&p2, &p1);
            let edge2 = vec_sub(&p3, &p1);
            let face_normal = vec_normalize(&vec_cross(&edge1, &edge2));
            proof {
                assert(-1000 <= face_normal.x <= 1000);
                assert(-1000 * (t as int) <= sum.x <= 1000 * (t as int));
                assert(t as int + 1 <= 1431655765);
            }
            sum = vec_add(&sum, &face_normal);
            count = count + 1;
        }
        t = t + 1;
    }
    if count > 0 {
        vec_normalize(&sum)
    } else {
        Vec3Fixed { x: 0, y: MILLI, z: 0 }
    }
}

impl Mesh {
    /// An empty mesh with no triangles.
    pub fn new() -> (m: Mesh)
        ensures
            m.vertices@.len() == 0,
            m.indices@.len() == 0,
            m.num_indices == 0,
            mesh_wf(m),
    {
        Mesh { vertices: Vec::new(), indices: Vec::new(), num_indices: 0 }
    }

    /// Replace this mesh with the content of a parsed source. On any
    /// rejection the previous mesh stays exactly as it was; on success
    /// the new arrays satisfy the mesh invariant and are fully
    /// determined by the source.
    #[verifier::loop_isolation(false)]
    pub fn load_from_arrays(&mut self, src: &MeshSource) -> (r: Result<(), LoadError>)
        ensures
            match validate_spec(*src) {
                Some(e) => r == Err::<(), LoadError>(e) && *final(self) == *old(self),
                None => {
                    &&& r == Ok::<(), LoadError>(())
                    &&& loaded_from(*final(self), *src)
                    &&& mesh_wf(*final(self))
                },
            },
    {
        let n = src.positions.len();
        if n == 0 {
            return Err(LoadError::EmptyGeometry);
        }
        if n > 0xffff_ffff {
            return Err(LoadError::TooManyVertices);
        }
        let mut i: usize = 0;
        while i < n
            invariant
                n == src.positions@.len(),
                0 < n <= 0xffff_ffff,
                i <= n,
                forall|j: int| 0 <= j < i ==> {
                    &&& -MAX_COORD <= #[trigger] src.positions@[j].x <= MAX_COORD
                    &&& -MAX_COORD <= src.positions@[j].y <= MAX_COORD
                    &&& -MAX_COORD <= src.positions@[j].z <= MAX_COORD
                },
            decreases n - i,
        {
            let p = src.positions[i];
            if p.x < -MAX_COORD || p.x > MAX_COORD
                || p.y < -MAX_COORD || p.y > MAX_COORD
                || p.z < -MAX_COORD || p.z > MAX_COORD {
                proof {
                    assert(!(-MAX_COORD <= src.positions@[i as int].x <= MAX_COORD
                        && -MAX_COORD <= src.positions@[i as int].y <= MAX_COORD
                        && -MAX_COORD <= src.positions@[i as int].z <= MAX_COORD));
                    assert(!positions_bounded(src.positions@));
                }
                return Err(LoadError::CoordinateOutOfRange);
            }
            i = i + 1;
        }
        if src.indices.len() > 0xffff_ffff {
            return Err(LoadError::TooManyIndices);
        }
        if src.indices.len() % 3 != 0 {
            return Err(LoadError::IndexCountNotTriangles);
        }
        let mut k: usize = 0;
        while k < src.indices.len()
            invariant
                k <= src.indices@.len(),
                n == src.positions@.len(),
                0 < n <= 0xffff_ffff,
                positions_bounded(src.positions@),
                src.indices@.len() <= 0xffff_ffff,
                src.indices@.len() % 3 == 0,
                forall|j: int| 0 <= j < k
                    ==> ((#[trigger] src.indices@[j]) as int) < n,
            decreases src.indices@.len() - k,
        {
            if src.indices[k] as usize >= n {
                proof {
                    assert(0 <= k < src.indices@.len()
                        && src.indices@[k as int] as int >= src.positions@.len());
                }
                return Err(LoadError::IndexOutOfRange);
            }
            k = k + 1;
        }

        // Triangle list: pass the supplied indices through, or group
        // the vertices into consecutive triples.
        let mut idx: Vec<u32> = Vec::new();
        if src.indices.len() > 0 {
            let mut k2: usize = 0;
            while k2 < src.indices.len()
                invariant
                    k2 <= src.indices@.len(),
                    idx@ =~= src.indices@.subrange(0, k2 as int),
                decreases src.indices@.len() - k2,
            {
                idx.push(src.indices[k2]);
                k2 = k2 + 1;
            }
            proof {
                assert(idx@ =~= src.indices@);
            }
        } else {
            let triples = n / 3 * 3;
            let mut k2: usize = 0;
            while k2 < triples
                invariant
                    triples == n / 3 * 3,
                    n <= 0xffff_ffff,
                    k2 <= triples,
                    idx@.len() == k2,
                    forall|j: int| 0 <= j < k2 ==> #[trigger] idx@[j] == j as u32,
                decreases triples - k2,
            {
                idx.push(k2 as u32);
                k2 = k2 + 1;
            }
            proof {
                assert(idx@ =~= effective_indices(*src));
            }
        }
        proof {
            assert(idx@ == effective_indices(*src));
        }

        let has_normals = src.normals.len() > 0;
        let mut vertices: Vec<Vertex> = Vec::new();
        let mut i2: usize = 0;
        while i2 < n
            invariant
                n == src.positions@.len(),
                0 < n <= 0xffff_ffff,
                positions_bounded(src.positions@),
                idx@ == effective_indices(*src),
                idx@.len() % 3 == 0,
                idx@.len() <= 0xffff_ffff,
                forall|j: int| 0 <= j < idx@.len()
                    ==> ((#[trigger] idx@[j]) as int) < n,
                has_normals == (src.normals@.len() > 0),
                i2 <= n,
                vertices@.len() == i2,
                forall|j: int| 0 <= j < i2
                    ==> (#[trigger] vertices@[j]).position == src.positions@[j],
                forall|j: int| 0 <= j < i2
                    ==> (#[trigger] vertices@[j]).color == default_color_spec(),
                forall|j: int| 0 <= j < i2
                    ==> (#[trigger] vertices@[j]).normal == source_normal_spec(*src, j),
            decreases n - i2,
        {
            let normal = if has_normals {
                if i2 < src.normals.len() {
                    src.normals[i2]
                } else {
                    Vec3Fixed { x: 0, y: MILLI, z: 0 }
                }
            } else {
                calculate_normal_for_vertex(i2, &src.positions, &idx)
            };
            vertices.push(Vertex {
                position: src.positions[i2],
                normal,
                color: Vec3Fixed {
                    x: DEFAULT_COLOR_LEVEL,
                    y: DEFAULT_COLOR_LEVEL,
                    z: DEFAULT_COLOR_LEVEL,
                },
            });
            i2 = i2 + 1;
        }

        let num = idx.len() as u32;
        self.vertices = vertices;
        self.indices = idx;
        self.num_indices = num;
        proof {
            assert(vertex_positions_bounded(self.vertices@));
        }
        Ok(())
    }

    /// The axis-aligned bounding box of the vertices, when there are
    /// any: the exact componentwise minimum and maximum corners.
    pub fn bounding_box(&self) -> (r: Option<(Vec3Fixed, Vec3Fixed)>)
        ensures
            self.vertices@.len() == 0 <==> r is None,
            self.vertices@.len() > 0 ==> r == Some((
                bbox_min_spec(self.vertices@, self.vertices@.len() as int),
                bbox_max_spec(self.vertices@, self.vertices@.len() as int),
            )),
            vertex_positions_bounded(self.vertices@) && self.vertices@.len() > 0
                ==> (r matches Some(corners)
                    && -MAX_COORD <= corners.0.x <= MAX_COORD
                    && -MAX_COORD <= corners.0.y <= MAX_COORD
                    && -MAX_COORD <= corners.0.z <= MAX_COORD
                    && -MAX_COORD <= corners.1.x <= MAX_COORD
                    && -MAX_COORD <= corners.1.y <= MAX_COORD
                    && -MAX_COORD <= corners.1.z <= MAX_COORD
                    && corners.0.x <= corners.1.x
                    && corners.0.y <= corners.1.y
                    && corners.0.z <= corners.1.z),
    {
        let n = self.vertices.len();
        if n == 0 {
            return None;
        }
        let ghost vs = self.vertices@;
        let mut mn = self.vertices[0].position;
        let mut mx = self.vertices[0].position;
        let mut i: usize = 1;
        while i < n
            invariant
                n == vs.len(),
                0 < n,
                vs == self.vertices@,
                1 <= i <= n,
                mn == bbox_min_spec(vs, i as int),
                mx == bbox_max_spec(vs, i as int),
                mn.x <= mx.x && mn.y <= mx.y && mn.z <= mx.z,
                vertex_positions_bounded(vs) ==> {
                    &&& -MAX_COORD <= mn.x && mx.x <= MAX_COORD
                    &&& -MAX_COORD <= mn.y && mx.y <= MAX_COORD
                    &&& -MAX_COORD <= mn.z && mx.z <= MAX_COORD
                },
            decreases n - i,
        {
            let p = self.vertices[i].position;
            mn = Vec3Fixed {
                x: if p.x < mn.x { p.x } else { mn.x },
                y: if p.y < mn.y { p.y } else { mn.y },
                z: if p.z < mn.z { p.z } else { mn.z },
            };
            mx = Vec3Fixed {
                x: if p.x > mx.x { p.x } else { mx.x },
                y: if p.y > mx.y { p.y } else { mx.y },
                z: if p.z > mx.z { p.z } else { mx.z },
            };
            i = i + 1;
        }
        Some((mn, mx))
    }
}

/// Componentwise minimum of two points.
pub open spec fn comp_min_spec(a: Vec3Fixed, b: Vec3Fixed) -> Vec3Fixed {
    Vec3Fixed {
        x: if b.x < a.x { b.x } else { a.x },
        y: if b.y < a.y { b.y } else { a.y },
        z: if b.z < a.z { b.z } else { a.z },
    }
}

/// Componentwise maximum of two points.
pub open spec fn comp_max_spec(a: Vec3Fixed, b: Vec3Fixed) -> Vec3Fixed {
    Vec3Fixed {
        x: if b.x > a.x { b.x } else { a.x },
        y: if b.y > a.y { b.y } else { a.y },
        z: if b.z > a.z { b.z } else { a.z },
    }
}

/// Minimum corner over the first `i` vertices.
pub open spec fn bbox_min_spec(vs: Seq<Vertex>, i: int) -> Vec3Fixed
    decreases i,
{
    if i <= 1 {
        vs[0].position
    } else {
        comp_min_spec(bbox_min_spec(vs, i - 1), vs[i - 1].position)
    }
}

/// Maximum corner over the first `i` vertices.
pub open spec fn bbox_max_spec(vs: Seq<Vertex>, i: int) -> Vec3Fixed
    decreases i,
{
    if i <= 1 {
        vs[0].position
    } else {
        comp_max_spec(bbox_max_spec(vs, i - 1), vs[i - 1].position)
    }
}

} // verus!
