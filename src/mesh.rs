//! Cube mesh generation.
//!
//! Geometry is kept exact: positions are measured in half units (a cube of
//! half-extent one half has corners at coordinates -1 and 1), normals in whole
//! units, and texture coordinates as numerators over `TILES_PER_ROW`.
use vstd::prelude::*;

verus! {

/// Number of tiles in the single row of the texture atlas.
pub const TILES_PER_ROW: u32 = 16;

/// Number of faces of a cube.
pub const FACE_COUNT: usize = 6;

/// Number of vertices of a cube mesh: four per face.
pub const VERTEX_COUNT: usize = 24;

/// Number of triangle indices of a cube mesh: two triangles per face.
pub const INDEX_COUNT: usize = 36;

/// A point or direction on the integer lattice.
#[derive(Clone, Copy, Debug, PartialEq, Eq, Structural)]
pub struct Vec3i {
    pub x: i32,
    pub y: i32,
    pub z: i32,
}

/// A texture coordinate, each component a numerator over `TILES_PER_ROW`.
#[derive(Clone, Copy, Debug, PartialEq, Eq, Structural)]
pub struct Uv {
    pub u: u32,
    pub v: u32,
}

/// The texture rectangle of one atlas tile.
#[derive(Clone, Copy, Debug, PartialEq, Eq, Structural)]
pub struct TileRect {
    pub min: Uv,
    pub max: Uv,
}

#[derive(Clone, Copy, Debug, PartialEq, Eq, Structural)]
pub enum MeshError {
    /// A face was given a tile index outside the atlas row.
    InvalidFaceIndex,
}

/// Vertex attribute buffers and triangle list of a cube.
#[derive(Debug)]
pub struct CubeMesh {
    /// Vertex positions, in half units.
    pub positions: Vec<Vec3i>,
    /// Outward unit normals, one per vertex.
    pub normals: Vec<Vec3i>,
    /// Texture coordinates, in units of one tile width.
    pub uvs: Vec<Uv>,
    /// Triangle list, three indices per triangle.
    pub indices: Vec<u32>,
}

pub open spec fn v3(x: int, y: int, z: int) -> Vec3i {
    Vec3i { x: x as i32, y: y as i32, z: z as i32 }
}

/// The rectangle of tile `i`: from `(i, 0)` to `(i + 1, 1)` in tile units.
pub open spec fn tile_rect(i: int) -> TileRect {
    TileRect { min: Uv { u: i as u32, v: 0 }, max: Uv { u: (i + 1) as u32, v: 1 } }
}

/// Outward normal of face `f`, faces numbered front, back, right, left, top, bottom.
pub open spec fn face_normal(f: int) -> Vec3i {
    if f == 0 {
        v3(0, 0, 1)
    } else if f == 1 {
        v3(0, 0, -1)
    } else if f == 2 {
        v3(1, 0, 0)
    } else if f == 3 {
        v3(-1, 0, 0)
    } else if f == 4 {
        v3(0, 1, 0)
    } else {
        v3(0, -1, 0)
    }
}

/// The direction in which the texture's horizontal axis runs on face `f`, seen
/// from outside the cube.
pub open spec fn face_right(f: int) -> Vec3i {
    if f == 0 || f == 4 {
        v3(1, 0, 0)
    } else if f == 1 {
        v3(-1, 0, 0)
    } else if f == 2 {
        v3(0, 0, -1)
    } else {
        v3(0, 0, 1)
    }
}

/// The direction in which the texture's upward axis runs on face `f`, seen
/// from outside the cube.
pub open spec fn face_up(f: int) -> Vec3i {
    if f == 4 {
        v3(0, 0, -1)
    } else if f == 5 {
        v3(-1, 0, 0)
    } else {
        v3(0, 1, 0)
    }
}

/// The corner at which the vertex list of face `f` starts, on the
/// counter-clockwise cycle of `corner_s` and `corner_t`.
pub open spec fn face_first_corner(f: int) -> int {
    if f == 0 {
        0
    } else if f == 1 || f == 4 {
        2
    } else {
        1
    }
}

/// Horizontal side of corner `c` of a face's cycle: -1 left, 1 right.
pub open spec fn corner_s(c: int) -> int {
    if c == 1 || c == 2 {
        1
    } else {
        -1
    }
}

/// Vertical side of corner `c` of a face's cycle: -1 bottom, 1 top.
pub open spec fn corner_t(c: int) -> int {
    if c >= 2 {
        1
    } else {
        -1
    }
}

/// The corner of the face cycle at which vertex `k` of face `f` stands.
pub open spec fn vertex_corner(f: int, k: int) -> int {
    (face_first_corner(f) + k) % 4
}

/// Position of vertex `k` of face `f`: the face centre moved along the face's
/// texture axes to the corner.
pub open spec fn vertex_position(f: int, k: int) -> Vec3i {
    let n = face_normal(f);
    let r = face_right(f);
    let u = face_up(f);
    let s = corner_s(vertex_corner(f, k));
    let t = corner_t(vertex_corner(f, k));
    v3(n.x + s * r.x + t * u.x, n.y + s * r.y + t * u.y, n.z + s * r.z + t * u.z)
}

/// Texture coordinate of vertex `k` of face `f` showing tile `tile`: the
/// tile's corner on the same side, the image's top row at `v` minimal.
pub open spec fn vertex_uv(tile: int, f: int, k: int) -> Uv {
    let rect = tile_rect(tile);
    let c = vertex_corner(f, k);
    Uv {
        u: if corner_s(c) > 0 { rect.max.u } else { rect.min.u },
        v: if corner_t(c) > 0 { rect.min.v } else { rect.max.v },
    }
}

/// Offsets into a face's four vertices of its two triangles.
pub open spec fn quad_index(k: int) -> int {
    if k == 0 || k == 5 {
        0
    } else if k == 1 {
        1
    } else if k == 2 || k == 3 {
        2
    } else {
        3
    }
}

pub open spec fn cube_positions() -> Seq<Vec3i> {
    Seq::new(24, |j: int| vertex_position(j / 4, j % 4))
}

pub open spec fn cube_normals() -> Seq<Vec3i> {
    Seq::new(24, |j: int| face_normal(j / 4))
}

/// Texture coordinates of a cube whose face `f` shows tile `tiles[f]`.
pub open spec fn cube_uvs(tiles: Seq<u32>) -> Seq<Uv> {
    Seq::new(24, |j: int| vertex_uv(tiles[j / 4] as int, j / 4, j % 4))
}

pub open spec fn cube_indices() -> Seq<u32> {
    Seq::new(36, |j: int| (4 * (j / 6) + quad_index(j % 6)) as u32)
}

/// The tile sequence front, back, right, left, top, bottom.
pub open spec fn face_tiles(front: u32, back: u32, right: u32, left: u32, top: u32, bottom: u32) -> Seq<u32> {
    seq![front, back, right, left, top, bottom]
}

pub open spec fn valid_tiles(tiles: Seq<u32>) -> bool {
    &&& tiles.len() == 6
    &&& forall|f: int| 0 <= f < 6 ==> tiles[f] < TILES_PER_ROW
}

/// `m` is the cube mesh whose faces show `tiles`.
pub open spec fn is_cube_mesh(m: &CubeMesh, tiles: Seq<u32>) -> bool {
    &&& m.positions@ == cube_positions()
    &&& m.normals@ == cube_normals()
    &&& m.uvs@ == cube_uvs(tiles)
    &&& m.indices@ == cube_indices()
}

/// Every tile of the atlas row has its rectangle inside the atlas, one tile
/// high, and the rectangles of two different tiles do not overlap.
pub proof fn lemma_tile_rects_disjoint(i: int, j: int)
    requires
        0 <= i < TILES_PER_ROW,
        0 <= j < TILES_PER_ROW,
    ensures
        0 <= tile_rect(i).min.u < tile_rect(i).max.u <= TILES_PER_ROW,
        tile_rect(i).min.v == 0 && tile_rect(i).max.v == 1,
        i != j ==> tile_rect(i).max.u <= tile_rect(j).min.u || tile_rect(j).max.u <= tile_rect(i).min.u,
{
}

/// The texture rectangle of tile `index` of the atlas row.
pub fn block_uv(index: u32) -> (r: TileRect)
    requires
        index < TILES_PER_ROW,
    ensures
        r == tile_rect(index as int),
{
    TileRect { min: Uv { u: index, v: 0 }, max: Uv { u: index + 1, v: 1 } }
}


fn v3_exec(x: i32, y: i32, z: i32) -> (r: Vec3i)
    ensures
        r == v3(x as int, y as int, z as int),
{
    Vec3i { x, y, z }
}

/// Normal, texture axes and first corner of face `f`.
fn face_frame(f: usize) -> (r: (Vec3i, Vec3i, Vec3i, usize))
    requires
        f < FACE_COUNT,
    ensures
        r.0 == face_normal(f as int),
        r.1 == face_right(f as int),
        r.2 == face_up(f as int),
        r.3 == face_first_corner(f as int),
{
    if f == 0 {
        (v3_exec(0, 0, 1), v3_exec(1, 0, 0), v3_exec(0, 1, 0), 0)
    } else if f == 1 {
        (v3_exec(0, 0, -1), v3_exec(-1, 0, 0), v3_exec(0, 1, 0), 2)
    } else if f == 2 {
        (v3_exec(1, 0, 0), v3_exec(0, 0, -1), v3_exec(0, 1, 0), 1)
    } else if f == 3 {
        (v3_exec(-1, 0, 0), v3_exec(0, 0, 1), v3_exec(0, 1, 0), 1)
    } else if f == 4 {
        (v3_exec(0, 1, 0), v3_exec(1, 0, 0), v3_exec(0, 0, -1), 2)
    } else {
        (v3_exec(0, -1, 0), v3_exec(0, 0, 1), v3_exec(-1, 0, 0), 1)
    }
}

/// `a` taken with the sign of `side`, for a unit component `a`.
fn signed(side: i32, a: i32) -> (r: i32)
    requires
        side == 1 || side == -1,
        -1 <= a <= 1,
    ensures
        r == side * a,
{
    if side > 0 {
        a
    } else {
        -a
    }
}

/// Position of vertex `k` of face `f`.
fn face_vertex_position(f: usize, k: usize) -> (r: Vec3i)
    requires
        f < FACE_COUNT,
        k < 4,
    ensures
        r == vertex_position(f as int, k as int),
{
    let (n, right, up, first) = face_frame(f);
    let c = (first + k) % 4;
    let s: i32 = if c == 1 || c == 2 { 1 } else { -1 };
    let t: i32 = if c >= 2 { 1 } else { -1 };
    let x = n.x + signed(s, right.x) + signed(t, up.x);
    let y = n.y + signed(s, right.y) + signed(t, up.y);
    let z = n.z + signed(s, right.z) + signed(t, up.z);
    Vec3i { x, y, z }
}

/// Texture coordinate of vertex `k` of face `f` showing `tile`.
fn face_vertex_uv(tile: u32, f: usize, k: usize) -> (r: Uv)
    requires
        tile < TILES_PER_ROW,
        f < FACE_COUNT,
        k < 4,
    ensures
        r == vertex_uv(tile as int, f as int, k as int),
{
    let rect = block_uv(tile);
    let (_, _, _, first) = face_frame(f);
    let c = (first + k) % 4;
    Uv {
        u: if c == 1 || c == 2 { rect.max.u } else { rect.min.u },
        v: if c >= 2 { rect.min.v } else { rect.max.v },
    }
}

/// Offset into a face's vertices of entry `k` of its two triangles.
fn quad_offset(k: usize) -> (r: u32)
    requires
        k < 6,
    ensures
        r == quad_index(k as int),
{
    if k == 0 || k == 5 {
        0
    } else if k == 1 {
        1
    } else if k == 2 || k == 3 {
        2
    } else {
        3
    }
}

/// Builds the cube mesh whose faces show the given atlas tiles, one tile
/// index per face. Fails with `InvalidFaceIndex` when an index lies outside
/// the atlas row.
pub fn new_block(front: u32, back: u32, right: u32, left: u32, top: u32, bottom: u32) -> (r: Result<CubeMesh, MeshError>)
    ensures
        match r {
            Ok(m) => valid_tiles(face_tiles(front, back, right, left, top, bottom))
                && is_cube_mesh(&m, face_tiles(front, back, right, left, top, bottom)),
            Err(e) => !valid_tiles(face_tiles(front, back, right, left, top, bottom))
                && e == MeshError::InvalidFaceIndex,
        },
{
    let ghost tiles = face_tiles(front, back, right, left, top, bottom);
    let face_list: [u32; 6] = [front, back, right, left, top, bottom];
    proof {
        assert(face_list@ =~= tiles);
    }
    let mut f: usize = 0;
    while f < FACE_COUNT
        invariant
            f <= FACE_COUNT,
            face_list@ == tiles,
            tiles == face_tiles(front, back, right, left, top, bottom),
            forall|g: int| 0 <= g < f ==> tiles[g] < TILES_PER_ROW,
        decreases FACE_COUNT - f,
    {
        if face_list[f] >= TILES_PER_ROW {
            assert(tiles[f as int] >= TILES_PER_ROW);
            return Err(MeshError::InvalidFaceIndex);
        }
        f = f + 1;
    }
    let mut positions: Vec<Vec3i> = Vec::new();
    let mut normals: Vec<Vec3i> = Vec::new();
    let mut uvs: Vec<Uv> = Vec::new();
    let mut j: usize = 0;
    while j < VERTEX_COUNT
        invariant
            j <= VERTEX_COUNT,
            face_list@ == tiles,
            tiles == face_tiles(front, back, right, left, top, bottom),
            valid_tiles(tiles),
            positions@ == cube_positions().take(j as int),
            normals@ == cube_normals().take(j as int),
            uvs@ == cube_uvs(tiles).take(j as int),
        decreases VERTEX_COUNT - j,
    {
        let face = j / 4;
        let k = j % 4;
        let (n, _, _, _) = face_frame(face);
        positions.push(face_vertex_position(face, k));
        normals.push(n);
        uvs.push(face_vertex_uv(face_list[face], face, k));
        j = j + 1;
        proof {
            assert(positions@ =~= cube_positions().take(j as int));
            assert(normals@ =~= cube_normals().take(j as int));
            assert(uvs@ =~= cube_uvs(tiles).take(j as int));
        }
    }
    let mut indices: Vec<u32> = Vec::new();
    let mut i: usize = 0;
    while i < INDEX_COUNT
        invariant
            i <= INDEX_COUNT,
            indices@ == cube_indices().take(i as int),
        decreases INDEX_COUNT - i,
    {
        assert(i / 6 <= 5);
        let base = 4 * (i / 6) as u32;
        let offset = quad_offset(i % 6);
        indices.push(base + offset);
        i = i + 1;
        proof {
            assert(indices@ =~= cube_indices().take(i as int));
        }
    }
    proof {
        assert(positions@ =~= cube_positions());
        assert(normals@ =~= cube_normals());
        assert(uvs@ =~= cube_uvs(tiles));
        assert(indices@ =~= cube_indices());
    }
    Ok(CubeMesh { positions, normals, uvs, indices })
}


/// `n` is a unit vector along one coordinate axis.
pub open spec fn is_unit_axis(n: Vec3i) -> bool {
    ||| (n.x == 1 || n.x == -1) && n.y == 0 && n.z == 0
    ||| n.x == 0 && (n.y == 1 || n.y == -1) && n.z == 0
    ||| n.x == 0 && n.y == 0 && (n.z == 1 || n.z == -1)
}

/// `p` is a corner of the cube of half-extent one half centred at the origin.
pub open spec fn is_cube_corner(p: Vec3i) -> bool {
    &&& (p.x == 1 || p.x == -1)
    &&& (p.y == 1 || p.y == -1)
    &&& (p.z == 1 || p.z == -1)
}

pub open spec fn diff(a: Vec3i, b: Vec3i) -> (int, int, int) {
    (a.x - b.x, a.y - b.y, a.z - b.z)
}

pub open spec fn cross(a: (int, int, int), b: (int, int, int)) -> (int, int, int) {
    (a.1 * b.2 - a.2 * b.1, a.2 * b.0 - a.0 * b.2, a.0 * b.1 - a.1 * b.0)
}

/// Triangle `t` of a mesh with these buffers winds counter-clockwise seen from
/// the side its vertices' normal points to: the cross product of its edges is
/// a positive multiple of that normal.
pub open spec fn triangle_faces_out(positions: Seq<Vec3i>, normals: Seq<Vec3i>, indices: Seq<u32>, t: int) -> bool {
    let a = positions[indices[3 * t] as int];
    let b = positions[indices[3 * t + 1] as int];
    let c = positions[indices[3 * t + 2] as int];
    let n = normals[indices[3 * t] as int];
    cross(diff(b, a), diff(c, a)) == (4 * n.x, 4 * n.y, 4 * n.z)
}

proof fn lemma_face_triangle_winding(f: int, k0: int, k1: int, k2: int)
    requires
        0 <= f < 6,
        (k0, k1, k2) == (0int, 1int, 2int) || (k0, k1, k2) == (2int, 3int, 0int),
    ensures
        ({
            let a = vertex_position(f, k0);
            let b = vertex_position(f, k1);
            let c = vertex_position(f, k2);
            cross(diff(b, a), diff(c, a)) == (4 * face_normal(f).x, 4 * face_normal(f).y, 4 * face_normal(f).z)
        }),
{
    let a = vertex_position(f, k0);
    let b = vertex_position(f, k1);
    let c = vertex_position(f, k2);
    let n = face_normal(f);
    let (e1, e2) = (diff(b, a), diff(c, a));
    if f == 0 && (k0, k1, k2) == (0int, 1int, 2int) {
        assert(cross(e1, e2) == (4 * n.x, 4 * n.y, 4 * n.z)) by (nonlinear_arith)
            requires
                e1 == diff(b, a),
                e2 == diff(c, a),
                a == vertex_position(f, k0),
                b == vertex_position(f, k1),
                c == vertex_position(f, k2),
                n == face_normal(f),
                f == 0,
                (k0, k1, k2) == (0int, 1int, 2int),
        ;
    } else if f == 0 && (k0, k1, k2) == (2int, 3int, 0int) {
        assert(cross(e1, e2) == (4 * n.x, 4 * n.y, 4 * n.z)) by (nonlinear_arith)
            requires
                e1 == diff(b, a),
                e2 == diff(c, a),
                a == vertex_position(f, k0),
                b == vertex_position(f, k1),
                c == vertex_position(f, k2),
                n == face_normal(f),
                f == 0,
                (k0, k1, k2) == (2int, 3int, 0int),
        ;
    } else if f == 1 && (k0, k1, k2) == (0int, 1int, 2int) {
        assert(cross(e1, e2) == (4 * n.x, 4 * n.y, 4 * n.z)) by (nonlinear_arith)
            requires
                e1 == diff(b, a),
                e2 == diff(c, a),
                a == vertex_position(f, k0),
                b == vertex_position(f, k1),
                c == vertex_position(f, k2),
                n == face_normal(f),
                f == 1,
                (k0, k1, k2) == (0int, 1int, 2int),
        ;
    } else if f == 1 && (k0, k1, k2) == (2int, 3int, 0int) {
        assert(cross(e1, e2) == (4 * n.x, 4 * n.y, 4 * n.z)) by (nonlinear_arith)
            requires
                e1 == diff(b, a),
                e2 == diff(c, a),
                a == vertex_position(f, k0),
                b == vertex_position(f, k1),
                c == vertex_position(f, k2),
                n == face_normal(f),
                f == 1,
                (k0, k1, k2) == (2int, 3int, 0int),
        ;
    } else if f == 2 && (k0, k1, k2) == (0int, 1int, 2int) {
        assert(cross(e1, e2) == (4 * n.x, 4 * n.y, 4 * n.z)) by (nonlinear_arith)
            requires
                e1 == diff(b, a),
                e2 == diff(c, a),
                a == vertex_position(f, k0),
                b == vertex_position(f, k1),
                c == vertex_position(f, k2),
                n == face_normal(f),
                f == 2,
                (k0, k1, k2) == (0int, 1int, 2int),
        ;
    } else if f == 2 && (k0, k1, k2) == (2int, 3int, 0int) {
        assert(cross(e1, e2) == (4 * n.x, 4 * n.y, 4 * n.z)) by (nonlinear_arith)
            requires
                e1 == diff(b, a),
                e2 == diff(c, a),
                a == vertex_position(f, k0),
                b == vertex_position(f, k1),
                c == vertex_position(f, k2),
                n == face_normal(f),
                f == 2,
                (k0, k1, k2) == (2int, 3int, 0int),
        ;
    } else if f == 3 && (k0, k1, k2) == (0int, 1int, 2int) {
        assert(cross(e1, e2) == (4 * n.x, 4 * n.y, 4 * n.z)) by (nonlinear_arith)
            requires
                e1 == diff(b, a),
                e2 == diff(c, a),
                a == vertex_position(f, k0),
                b == vertex_position(f, k1),
                c == vertex_position(f, k2),
                n == face_normal(f),
                f == 3,
                (k0, k1, k2) == (0int, 1int, 2int),
        ;
    } else if f == 3 && (k0, k1, k2) == (2int, 3int, 0int) {
        assert(cross(e1, e2) == (4 * n.x, 4 * n.y, 4 * n.z)) by (nonlinear_arith)
            requires
                e1 == diff(b, a),
                e2 == diff(c, a),
                a == vertex_position(f, k0),
                b == vertex_position(f, k1),
                c == vertex_position(f, k2),
                n == face_normal(f),
                f == 3,
                (k0, k1, k2) == (2int, 3int, 0int),
        ;
    } else if f == 4 && (k0, k1, k2) == (0int, 1int, 2int) {
        assert(cross(e1, e2) == (4 * n.x, 4 * n.y, 4 * n.z)) by (nonlinear_arith)
            requires
                e1 == diff(b, a),
                e2 == diff(c, a),
                a == vertex_position(f, k0),
                b == vertex_position(f, k1),
                c == vertex_position(f, k2),
                n == face_normal(f),
                f == 4,
                (k0, k1, k2) == (0int, 1int, 2int),
        ;
    } else if f == 4 && (k0, k1, k2) == (2int, 3int, 0int) {
        assert(cross(e1, e2) == (4 * n.x, 4 * n.y, 4 * n.z)) by (nonlinear_arith)
            requires
                e1 == diff(b, a),
                e2 == diff(c, a),
                a == vertex_position(f, k0),
                b == vertex_position(f, k1),
                c == vertex_position(f, k2),
                n == face_normal(f),
                f == 4,
                (k0, k1, k2) == (2int, 3int, 0int),
        ;
    } else if f == 5 && (k0, k1, k2) == (0int, 1int, 2int) {
        assert(cross(e1, e2) == (4 * n.x, 4 * n.y, 4 * n.z)) by (nonlinear_arith)
            requires
                e1 == diff(b, a),
                e2 == diff(c, a),
                a == vertex_position(f, k0),
                b == vertex_position(f, k1),
                c == vertex_position(f, k2),
                n == face_normal(f),
                f == 5,
                (k0, k1, k2) == (0int, 1int, 2int),
        ;
    } else if f == 5 && (k0, k1, k2) == (2int, 3int, 0int) {
        assert(cross(e1, e2) == (4 * n.x, 4 * n.y, 4 * n.z)) by (nonlinear_arith)
            requires
                e1 == diff(b, a),
                e2 == diff(c, a),
                a == vertex_position(f, k0),
                b == vertex_position(f, k1),
                c == vertex_position(f, k2),
                n == face_normal(f),
                f == 5,
                (k0, k1, k2) == (2int, 3int, 0int),
        ;
    }
}

proof fn lemma_triangle_faces_out(t: int)
    requires
        0 <= t < 12,
    ensures
        triangle_faces_out(cube_positions(), cube_normals(), cube_indices(), t),
{
    let f = t / 2;
    let (k0, k1, k2) = if t % 2 == 0 { (0int, 1int, 2int) } else { (2int, 3int, 0int) };
    assert(cube_indices()[3 * t] == 4 * f + k0);
    assert(cube_indices()[3 * t + 1] == 4 * f + k1);
    assert(cube_indices()[3 * t + 2] == 4 * f + k2);
    let a = cube_positions()[4 * f + k0];
    let b = cube_positions()[4 * f + k1];
    let c = cube_positions()[4 * f + k2];
    assert(a == vertex_position(f, k0));
    assert(b == vertex_position(f, k1));
    assert(c == vertex_position(f, k2));
    assert(cube_normals()[4 * f + k0] == face_normal(f));
    lemma_face_triangle_winding(f, k0, k1, k2);
}

proof fn lemma_cube_triangles_face_out()
    ensures
        forall|t: int| 0 <= t < 12 ==> triangle_faces_out(cube_positions(), cube_normals(), cube_indices(), t),
{
    assert forall|t: int| 0 <= t < 12 implies triangle_faces_out(cube_positions(), cube_normals(), cube_indices(), t) by {
        lemma_triangle_faces_out(t);
    }
}

/// A cube mesh has 24 positions, all corners of the unit cube, 24 normals,
/// each a unit vector along an axis, 24 texture coordinates, and 36 indices
/// that form 12 triangles over its vertices, each wound to face outwards.
pub proof fn lemma_cube_mesh_shape(m: &CubeMesh, tiles: Seq<u32>)
    requires
        valid_tiles(tiles),
        is_cube_mesh(m, tiles),
    ensures
        m.positions@.len() == VERTEX_COUNT,
        m.normals@.len() == VERTEX_COUNT,
        m.uvs@.len() == VERTEX_COUNT,
        m.indices@.len() == INDEX_COUNT,
        forall|j: int| 0 <= j < VERTEX_COUNT ==> is_cube_corner(#[trigger] m.positions@[j]),
        forall|j: int| 0 <= j < VERTEX_COUNT ==> is_unit_axis(#[trigger] m.normals@[j]),
        forall|j: int| 0 <= j < INDEX_COUNT ==> #[trigger] m.indices@[j] < VERTEX_COUNT,
        forall|t: int| 0 <= t < 12 ==> triangle_faces_out(m.positions@, m.normals@, m.indices@, t),
{
    assert forall|j: int| 0 <= j < VERTEX_COUNT implies is_cube_corner(#[trigger] m.positions@[j]) by {
        let f = j / 4;
        let k = j % 4;
        assert(0 <= f < 6 && 0 <= k < 4);
    }
    lemma_cube_triangles_face_out();
}

/// Two cube meshes built from the same tiles are equal in every buffer.
pub proof fn lemma_cube_mesh_deterministic(m1: &CubeMesh, m2: &CubeMesh, tiles: Seq<u32>)
    requires
        is_cube_mesh(m1, tiles),
        is_cube_mesh(m2, tiles),
    ensures
        m1.positions@ == m2.positions@,
        m1.normals@ == m2.normals@,
        m1.uvs@ == m2.uvs@,
        m1.indices@ == m2.indices@,
{
}

/// Changing only the top face's tile leaves positions, normals, indices and
/// the texture coordinates of the other faces unchanged, and changes each of
/// the four texture coordinates of the top face.
pub proof fn lemma_top_tile_changes_only_top_face(
    m1: &CubeMesh,
    m2: &CubeMesh,
    front: u32,
    back: u32,
    right: u32,
    left: u32,
    top: u32,
    other_top: u32,
    bottom: u32,
)
    requires
        valid_tiles(face_tiles(front, back, right, left, top, bottom)),
        valid_tiles(face_tiles(front, back, right, left, other_top, bottom)),
        is_cube_mesh(m1, face_tiles(front, back, right, left, top, bottom)),
        is_cube_mesh(m2, face_tiles(front, back, right, left, other_top, bottom)),
    ensures
        m1.positions@ == m2.positions@,
        m1.normals@ == m2.normals@,
        m1.indices@ == m2.indices@,
        m1.uvs@.len() == m2.uvs@.len(),
        forall|j: int| 0 <= j < 16 || 20 <= j < VERTEX_COUNT ==> m1.uvs@[j] == m2.uvs@[j],
        top != other_top ==> forall|j: int| 16 <= j < 20 ==> m1.uvs@[j] != m2.uvs@[j],
{
    let t1 = face_tiles(front, back, right, left, top, bottom);
    let t2 = face_tiles(front, back, right, left, other_top, bottom);
    assert forall|j: int| 0 <= j < 16 || 20 <= j < VERTEX_COUNT implies m1.uvs@[j] == m2.uvs@[j] by {
        assert(j / 4 != 4);
        assert(t1[j / 4] == t2[j / 4]);
    }
    if top != other_top {
        assert forall|j: int| 16 <= j < 20 implies m1.uvs@[j] != m2.uvs@[j] by {
            assert(j / 4 == 4);
            assert(t1[4] == top && t2[4] == other_top);
        }
    }
}

} // verus!
