//! The unit cube as 24 vertices (four per face, not shared between faces)
//! and 36 indices (two counter-clockwise triangles per face), on an integer
//! lattice: corners at plus or minus one, axis normals, and texture
//! coordinates in quarters of the texture's side.
use vstd::prelude::*;

verus! {

/// A point or direction with small integer coordinates.
#[derive(Clone, Copy, Debug, PartialEq, Eq, Structural)]
pub struct Point3 {
    pub x: i8,
    pub y: i8,
    pub z: i8,
}

/// One cube vertex: position, outward face normal, and texture coordinates
/// `(u, v)` in quarters (0 stands for 0.0, 4 for 1.0).
#[derive(Clone, Copy, Debug, PartialEq, Eq, Structural)]
pub struct CubeVertex {
    pub pos: Point3,
    pub norm: Point3,
    pub u: u8,
    pub v: u8,
}

/// How the faces map into the texture.
#[derive(Clone, Copy, Debug, PartialEq, Eq, Structural)]
pub enum TexLayout {
    /// Each face spans the whole texture.
    SixTextures,
    /// Each face takes its own quarter-sized cell of one unfolded cube.
    ExpansionPlan,
}

/// Which texture index a face draws with, given the face's ordinal, the
/// active bind set and the number of bind sets.
#[derive(Clone, Copy, Debug, PartialEq, Eq, Structural)]
pub enum FacePolicy {
    /// The face's own ordinal.
    Ordinal,
    /// The face's ordinal shifted by the active bind set, wrapping around.
    Offset,
    /// The same index for every face.
    Constant(usize),
}

/// Texture index that `policy` assigns to `face`.
pub open spec fn texture_index(policy: FacePolicy, face: int, bg: int, count: int) -> int {
    match policy {
        FacePolicy::Ordinal => face,
        FacePolicy::Offset => (face + bg) % count,
        FacePolicy::Constant(k) => k as int,
    }
}

/// Texture index that `policy` assigns to `face` while bind set `bg` of
/// `count` is active.
pub fn face_texture(policy: FacePolicy, face: usize, bg: usize, count: usize) -> (r: usize)
    requires
        count > 0,
    ensures
        r == texture_index(policy, face as int, bg as int, count as int),
{
    match policy {
        FacePolicy::Ordinal => face,
        FacePolicy::Offset => ((face as u128 + bg as u128) % (count as u128)) as usize,
        FacePolicy::Constant(k) => k,
    }
}

/// Outward normal of face `f`: +X, -X, +Y, -Y, +Z, -Z in that order.
pub open spec fn face_normal(f: int) -> Point3 {
    if f == 0 {
        Point3 { x: 1, y: 0, z: 0 }
    } else if f == 1 {
        Point3 { x: -1i8, y: 0, z: 0 }
    } else if f == 2 {
        Point3 { x: 0, y: 1, z: 0 }
    } else if f == 3 {
        Point3 { x: 0, y: -1i8, z: 0 }
    } else if f == 4 {
        Point3 { x: 0, y: 0, z: 1 }
    } else {
        Point3 { x: 0, y: 0, z: -1i8 }
    }
}

/// Position of vertex `v`.
pub open spec fn corner(v: int) -> Point3 {
    if v == 0 {
        Point3 { x: 1, y: -1i8, z: 1 }
    } else if v == 1 {
        Point3 { x: 1, y: -1i8, z: -1i8 }
    } else if v == 2 {
        Point3 { x: 1, y: 1, z: -1i8 }
    } else if v == 3 {
        Point3 { x: 1, y: 1, z: 1 }
    } else if v == 4 {
        Point3 { x: -1i8, y: -1i8, z: 1 }
    } else if v == 5 {
        Point3 { x: -1i8, y: 1, z: 1 }
    } else if v == 6 {
        Point3 { x: -1i8, y: 1, z: -1i8 }
    } else if v == 7 {
        Point3 { x: -1i8, y: -1i8, z: -1i8 }
    } else if v == 8 {
        Point3 { x: 1, y: 1, z: -1i8 }
    } else if v == 9 {
        Point3 { x: -1i8, y: 1, z: -1i8 }
    } else if v == 10 {
        Point3 { x: -1i8, y: 1, z: 1 }
    } else if v == 11 {
        Point3 { x: 1, y: 1, z: 1 }
    } else if v == 12 {
        Point3 { x: 1, y: -1i8, z: -1i8 }
    } else if v == 13 {
        Point3 { x: 1, y: -1i8, z: 1 }
    } else if v == 14 {
        Point3 { x: -1i8, y: -1i8, z: 1 }
    } else if v == 15 {
        Point3 { x: -1i8, y: -1i8, z: -1i8 }
    } else if v == 16 {
        Point3 { x: -1i8, y: 1, z: 1 }
    } else if v == 17 {
        Point3 { x: -1i8, y: -1i8, z: 1 }
    } else if v == 18 {
        Point3 { x: 1, y: -1i8, z: 1 }
    } else if v == 19 {
        Point3 { x: 1, y: 1, z: 1 }
    } else if v == 20 {
        Point3 { x: -1i8, y: 1, z: -1i8 }
    } else if v == 21 {
        Point3 { x: 1, y: 1, z: -1i8 }
    } else if v == 22 {
        Point3 { x: 1, y: -1i8, z: -1i8 }
    } else {
        Point3 { x: -1i8, y: -1i8, z: -1i8 }
    }
}

/// Texture coordinates, in quarters, of vertex `v` under `layout`.
pub open spec fn tex_quarters(layout: TexLayout, v: int) -> (u8, u8) {
    match layout {
        TexLayout::SixTextures => {
            if v % 4 == 0 {
                (0u8, 4u8)
            } else if v % 4 == 1 {
                (4u8, 4u8)
            } else if v % 4 == 2 {
                (4u8, 0u8)
            } else {
                (0u8, 0u8)
            }
        },
        TexLayout::ExpansionPlan => {
            if v == 0 {
                (1u8, 0u8)
            } else if v == 1 {
                (1u8, 1u8)
            } else if v == 2 {
                (2u8, 1u8)
            } else if v == 3 {
                (2u8, 0u8)
            } else if v == 4 {
                (1u8, 3u8)
            } else if v == 5 {
                (2u8, 3u8)
            } else if v == 6 {
                (2u8, 2u8)
            } else if v == 7 {
                (1u8, 2u8)
            } else if v == 8 {
                (2u8, 1u8)
            } else if v == 9 {
                (3u8, 1u8)
            } else if v == 10 {
                (3u8, 0u8)
            } else if v == 11 {
                (2u8, 0u8)
            } else if v == 12 {
                (0u8, 2u8)
            } else if v == 13 {
                (0u8, 3u8)
            } else if v == 14 {
                (1u8, 3u8)
            } else if v == 15 {
                (1u8, 2u8)
            } else if v == 16 {
                (2u8, 3u8)
            } else if v == 17 {
                (1u8, 3u8)
            } else if v == 18 {
                (1u8, 4u8)
            } else if v == 19 {
                (2u8, 4u8)
            } else if v == 20 {
                (2u8, 2u8)
            } else if v == 21 {
                (2u8, 1u8)
            } else if v == 22 {
                (1u8, 1u8)
            } else {
                (1u8, 2u8)
            }
        },
    }
}

/// Vertex `v` of the cube under `layout`.
pub open spec fn cube_vertex(layout: TexLayout, v: int) -> CubeVertex {
    CubeVertex {
        pos: corner(v),
        norm: face_normal(v / 4),
        u: tex_quarters(layout, v).0,
        v: tex_quarters(layout, v).1,
    }
}

/// Offset, within its face's four vertices, of the `o`-th index of a face:
/// triangles (0, 1, 3) and (2, 3, 1).
pub open spec fn face_pattern(o: int) -> int {
    if o == 0 {
        0
    } else if o == 1 {
        1
    } else if o == 2 {
        3
    } else if o == 3 {
        2
    } else if o == 4 {
        3
    } else {
        1
    }
}

/// Index `j` of the index buffer.
pub open spec fn cube_index(j: int) -> int {
    4 * (j / 6) + face_pattern(j % 6)
}

fn face_normal_at(f: usize) -> (r: Point3)
    requires
        f < 6,
    ensures
        r == face_normal(f as int),
{
    match f {
        0 => Point3 { x: 1, y: 0, z: 0 },
        1 => Point3 { x: -1i8, y: 0, z: 0 },
        2 => Point3 { x: 0, y: 1, z: 0 },
        3 => Point3 { x: 0, y: -1i8, z: 0 },
        4 => Point3 { x: 0, y: 0, z: 1 },
        _ => Point3 { x: 0, y: 0, z: -1i8 },
    }
}

fn corner_at(v: usize) -> (r: Point3)
    requires
        v < 24,
    ensures
        r == corner(v as int),
{
    match v {
        0 => Point3 { x: 1, y: -1i8, z: 1 },
        1 => Point3 { x: 1, y: -1i8, z: -1i8 },
        2 => Point3 { x: 1, y: 1, z: -1i8 },
        3 => Point3 { x: 1, y: 1, z: 1 },
        4 => Point3 { x: -1i8, y: -1i8, z: 1 },
        5 => Point3 { x: -1i8, y: 1, z: 1 },
        6 => Point3 { x: -1i8, y: 1, z: -1i8 },
        7 => Point3 { x: -1i8, y: -1i8, z: -1i8 },
        8 => Point3 { x: 1, y: 1, z: -1i8 },
        9 => Point3 { x: -1i8, y: 1, z: -1i8 },
        10 => Point3 { x: -1i8, y: 1, z: 1 },
        11 => Point3 { x: 1, y: 1, z: 1 },
        12 => Point3 { x: 1, y: -1i8, z: -1i8 },
        13 => Point3 { x: 1, y: -1i8, z: 1 },
        14 => Point3 { x: -1i8, y: -1i8, z: 1 },
        15 => Point3 { x: -1i8, y: -1i8, z: -1i8 },
        16 => Point3 { x: -1i8, y: 1, z: 1 },
        17 => Point3 { x: -1i8, y: -1i8, z: 1 },
        18 => Point3 { x: 1, y: -1i8, z: 1 },
        19 => Point3 { x: 1, y: 1, z: 1 },
        20 => Point3 { x: -1i8, y: 1, z: -1i8 },
        21 => Point3 { x: 1, y: 1, z: -1i8 },
        22 => Point3 { x: 1, y: -1i8, z: -1i8 },
        _ => Point3 { x: -1i8, y: -1i8, z: -1i8 },
    }
}

fn tex_at(layout: TexLayout, v: usize) -> (r: (u8, u8))
    requires
        v < 24,
    ensures
        r == tex_quarters(layout, v as int),
{
    match layout {
        TexLayout::SixTextures => match v % 4 {
            0 => (0u8, 4u8),
            1 => (4u8, 4u8),
            2 => (4u8, 0u8),
            _ => (0u8, 0u8),
        },
        TexLayout::ExpansionPlan => match v {
            0 => (1u8, 0u8),
            1 => (1u8, 1u8),
            2 => (2u8, 1u8),
            3 => (2u8, 0u8),
            4 => (1u8, 3u8),
            5 => (2u8, 3u8),
            6 => (2u8, 2u8),
            7 => (1u8, 2u8),
            8 => (2u8, 1u8),
            9 => (3u8, 1u8),
            10 => (3u8, 0u8),
            11 => (2u8, 0u8),
            12 => (0u8, 2u8),
            13 => (0u8, 3u8),
            14 => (1u8, 3u8),
            15 => (1u8, 2u8),
            16 => (2u8, 3u8),
            17 => (1u8, 3u8),
            18 => (1u8, 4u8),
            19 => (2u8, 4u8),
            20 => (2u8, 2u8),
            21 => (2u8, 1u8),
            22 => (1u8, 1u8),
            _ => (1u8, 2u8),
        },
    }
}

fn pattern_at(o: usize) -> (r: u16)
    requires
        o < 6,
    ensures
        r == face_pattern(o as int),
{
    match o {
        0 => 0,
        1 => 1,
        2 => 3,
        3 => 2,
        4 => 3,
        _ => 1,
    }
}


/// A cube's vertices and index buffer, the layout its texture coordinates
/// follow, and the policy that picks each face's texture.
#[derive(Debug)]
pub struct CubeMesh {
    pub vertices: Vec<CubeVertex>,
    pub indices: Vec<u16>,
    pub layout: TexLayout,
    pub policy: FacePolicy,
}

/// Number of faces of the cube.
pub const FACES: usize = 6;

impl CubeMesh {
    /// The vertices and indices are those of the cube under `self.layout`.
    pub open spec fn is_cube(self) -> bool {
        &&& self.vertices@.len() == 24
        &&& self.indices@.len() == 36
        &&& forall|v: int| 0 <= v < 24 ==> #[trigger] self.vertices@[v] == cube_vertex(self.layout, v)
        &&& forall|j: int| 0 <= j < 36 ==> #[trigger] self.indices@[j] as int == cube_index(j)
    }

    /// Texture index of `face` while bind set `bg` of `count` is active.
    pub fn face_texture(&self, face: usize, bg: usize, count: usize) -> (r: usize)
        requires
            count > 0,
        ensures
            r == texture_index(self.policy, face as int, bg as int, count as int),
    {
        face_texture(self.policy, face, bg, count)
    }

    /// Where each face's indices start in the index buffer, followed by the
    /// buffer's end.
    pub fn face_starts(&self) -> (r: Vec<u64>)
        ensures
            r@.len() == FACES + 1,
            forall|i: int| 0 <= i <= FACES ==> #[trigger] r@[i] == 6 * i,
    {
        let mut r: Vec<u64> = Vec::new();
        let mut i: usize = 0;
        while i <= FACES
            invariant
                i <= FACES + 1,
                r@.len() == i,
                forall|k: int| 0 <= k < i ==> #[trigger] r@[k] == 6 * k,
            decreases FACES + 1 - i,
        {
            r.push(6 * i as u64);
            i = i + 1;
        }
        r
    }
}

fn build_cube(layout: TexLayout, policy: FacePolicy) -> (r: CubeMesh)
    ensures
        r.is_cube(),
        r.layout == layout,
        r.policy == policy,
{
    let mut vertices: Vec<CubeVertex> = Vec::new();
    let mut v: usize = 0;
    while v < 24
        invariant
            v <= 24,
            vertices@.len() == v,
            forall|w: int| 0 <= w < v ==> #[trigger] vertices@[w] == cube_vertex(layout, w),
        decreases 24 - v,
    {
        let (u, t) = tex_at(layout, v);
        vertices.push(CubeVertex { pos: corner_at(v), norm: face_normal_at(v / 4), u, v: t });
        v = v + 1;
    }
    let mut indices: Vec<u16> = Vec::new();
    let mut j: usize = 0;
    while j < 36
        invariant
            j <= 36,
            indices@.len() == j,
            forall|k: int| 0 <= k < j ==> #[trigger] indices@[k] as int == cube_index(k),
        decreases 36 - j,
    {
        indices.push(4 * (j / 6) as u16 + pattern_at(j % 6));
        j = j + 1;
    }
    CubeMesh { vertices, indices, layout, policy }
}

/// The cube with every face spanning the whole texture, faces textured by
/// `policy`.
pub fn create_vertices_cube_6_textures(policy: FacePolicy) -> (r: CubeMesh)
    ensures
        r.is_cube(),
        r.layout == TexLayout::SixTextures,
        r.policy == policy,
{
    build_cube(TexLayout::SixTextures, policy)
}

/// The cube with every face on its own cell of an unfolded-cube texture,
/// faces textured by `policy`.
pub fn create_vertices_cube_expansion_plan(policy: FacePolicy) -> (r: CubeMesh)
    ensures
        r.is_cube(),
        r.layout == TexLayout::ExpansionPlan,
        r.policy == policy,
{
    build_cube(TexLayout::ExpansionPlan, policy)
}

/// Dot product of a direction with a position.
pub open spec fn dot(a: Point3, b: Point3) -> int {
    a.x * b.x + a.y * b.y + a.z * b.z
}

/// The cross product `(b - a) x (c - a)`: twice the triangle's area along
/// its normal, following the order of its corners.
pub open spec fn triangle_normal(a: Point3, b: Point3, c: Point3) -> (int, int, int) {
    let ux: int = b.x - a.x;
    let uy: int = b.y - a.y;
    let uz: int = b.z - a.z;
    let vx: int = c.x - a.x;
    let vy: int = c.y - a.y;
    let vz: int = c.z - a.z;
    (uy * vz - uz * vy, uz * vx - ux * vz, ux * vy - uy * vx)
}

/// Every index names one of the 24 vertices, and the six indices of face `f`
/// name its own four; the four vertices of a face share one normal, which
/// points outward, away from the center; texture coordinates stay within the
/// texture.
pub proof fn lemma_cube_faces(layout: TexLayout)
    ensures
        forall|j: int| 0 <= j < 36 ==> 0 <= #[trigger] cube_index(j) < 24 && cube_index(j) / 4 == j / 6,
        forall|v: int, w: int|
            0 <= v < 24 && 0 <= w < 24 && v / 4 == w / 4 ==> #[trigger] cube_vertex(layout, v).norm
                == #[trigger] cube_vertex(layout, w).norm,
        forall|v: int| 0 <= v < 24 ==> dot(#[trigger] cube_vertex(layout, v).norm, cube_vertex(layout, v).pos) == 1,
        forall|v: int| 0 <= v < 24 ==> #[trigger] cube_vertex(layout, v).u <= 4 && cube_vertex(layout, v).v <= 4,
{
    assert forall|v: int| 0 <= v < 24 implies dot(#[trigger] cube_vertex(layout, v).norm, cube_vertex(layout, v).pos) == 1
        && cube_vertex(layout, v).u <= 4 && cube_vertex(layout, v).v <= 4 by {
        if v < 4 {} else if v < 8 {} else if v < 12 {} else if v < 16 {} else if v < 20 {} else {}
    }
}

#[verifier::nonlinear]
proof fn lemma_face_winding(f: int, t: int)
    requires
        0 <= f < 6,
        0 <= t < 2,
    ensures
        ({
            let n = triangle_normal(
                corner(4 * f + face_pattern(3 * t)),
                corner(4 * f + face_pattern(3 * t + 1)),
                corner(4 * f + face_pattern(3 * t + 2)),
            );
            &&& n.0 == 4 * face_normal(f).x
            &&& n.1 == 4 * face_normal(f).y
            &&& n.2 == 4 * face_normal(f).z
        }),
{
    if t == 0 {
        if f == 0 {} else if f == 1 {} else if f == 2 {} else if f == 3 {} else if f == 4 {} else {}
    } else {
        if f == 0 {} else if f == 1 {} else if f == 2 {} else if f == 3 {} else if f == 4 {} else {}
    }
}

/// Both triangles of each face wind counter-clockwise seen from outside:
/// their cross product is a positive multiple (four times) of the face's
/// outward normal.
pub proof fn lemma_cube_winding()
    ensures
        forall|f: int, t: int|
            0 <= f < 6 && 0 <= t < 2 ==> {
                let n = #[trigger] triangle_normal(
                    corner(cube_index(6 * f + 3 * t)),
                    corner(cube_index(6 * f + 3 * t + 1)),
                    corner(cube_index(6 * f + 3 * t + 2)),
                );
                &&& n.0 == 4 * face_normal(f).x
                &&& n.1 == 4 * face_normal(f).y
                &&& n.2 == 4 * face_normal(f).z
            },
{
    assert forall|f: int, t: int| 0 <= f < 6 && 0 <= t < 2 implies {
        let n = #[trigger] triangle_normal(
            corner(cube_index(6 * f + 3 * t)),
            corner(cube_index(6 * f + 3 * t + 1)),
            corner(cube_index(6 * f + 3 * t + 2)),
        );
        &&& n.0 == 4 * face_normal(f).x
        &&& n.1 == 4 * face_normal(f).y
        &&& n.2 == 4 * face_normal(f).z
    } by {
        assert((6 * f + 3 * t) / 6 == f && (6 * f + 3 * t) % 6 == 3 * t);
        assert((6 * f + 3 * t + 1) / 6 == f && (6 * f + 3 * t + 1) % 6 == 3 * t + 1);
        assert((6 * f + 3 * t + 2) / 6 == f && (6 * f + 3 * t + 2) % 6 == 3 * t + 2);
        lemma_face_winding(f, t);
    }
}

} // verus!
