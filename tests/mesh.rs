use voxel_world::mesh::{block_uv, new_block, MeshError, TileRect, Uv, Vec3i, TILES_PER_ROW};

fn v(x: i32, y: i32, z: i32) -> Vec3i {
    Vec3i { x, y, z }
}

fn uv(u: u32, v: u32) -> Uv {
    Uv { u, v }
}

#[test]
fn tile_rect_of_every_index() {
    for i in 0..TILES_PER_ROW {
        assert_eq!(block_uv(i), TileRect { min: uv(i, 0), max: uv(i + 1, 1) });
    }
}

#[test]
fn tile_rect_of_last_index() {
    assert_eq!(block_uv(15), TileRect { min: uv(15, 0), max: uv(16, 1) });
}

#[test]
fn cube_has_expected_buffer_sizes() {
    let m = new_block(0, 1, 2, 3, 4, 5).unwrap();
    assert_eq!(m.positions.len(), 24);
    assert_eq!(m.normals.len(), 24);
    assert_eq!(m.uvs.len(), 24);
    assert_eq!(m.indices.len(), 36);
    for n in &m.normals {
        let sum = n.x.abs() + n.y.abs() + n.z.abs();
        assert_eq!(sum, 1);
    }
    for p in &m.positions {
        assert!(p.x.abs() == 1 && p.y.abs() == 1 && p.z.abs() == 1);
    }
    for i in &m.indices {
        assert!(*i < 24);
    }
}

#[test]
fn cube_normals_per_face() {
    let m = new_block(0, 0, 0, 0, 0, 0).unwrap();
    let expected = [v(0, 0, 1), v(0, 0, -1), v(1, 0, 0), v(-1, 0, 0), v(0, 1, 0), v(0, -1, 0)];
    for (j, n) in m.normals.iter().enumerate() {
        assert_eq!(*n, expected[j / 4]);
    }
}

#[test]
fn cube_front_face_values() {
    let m = new_block(3, 0, 0, 0, 0, 0).unwrap();
    assert_eq!(&m.positions[0..4], &[v(-1, -1, 1), v(1, -1, 1), v(1, 1, 1), v(-1, 1, 1)]);
    assert_eq!(&m.uvs[0..4], &[uv(3, 1), uv(4, 1), uv(4, 0), uv(3, 0)]);
}

#[test]
fn cube_back_and_bottom_face_values() {
    let m = new_block(0, 5, 0, 0, 0, 7).unwrap();
    assert_eq!(&m.positions[4..8], &[v(-1, 1, -1), v(1, 1, -1), v(1, -1, -1), v(-1, -1, -1)]);
    assert_eq!(&m.uvs[4..8], &[uv(6, 0), uv(5, 0), uv(5, 1), uv(6, 1)]);
    assert_eq!(&m.positions[20..24], &[v(1, -1, 1), v(-1, -1, 1), v(-1, -1, -1), v(1, -1, -1)]);
    assert_eq!(&m.uvs[20..24], &[uv(8, 1), uv(8, 0), uv(7, 0), uv(7, 1)]);
}

#[test]
fn cube_indices_per_face() {
    let m = new_block(0, 0, 0, 0, 0, 0).unwrap();
    let mut expected = Vec::new();
    for f in 0..6u32 {
        for k in [0, 1, 2, 2, 3, 0] {
            expected.push(4 * f + k);
        }
    }
    assert_eq!(m.indices, expected);
}

#[test]
fn cube_triangles_face_outwards() {
    let m = new_block(1, 2, 3, 4, 5, 6).unwrap();
    for t in 0..12 {
        let a = m.positions[m.indices[3 * t] as usize];
        let b = m.positions[m.indices[3 * t + 1] as usize];
        let c = m.positions[m.indices[3 * t + 2] as usize];
        let n = m.normals[m.indices[3 * t] as usize];
        let e1 = (b.x - a.x, b.y - a.y, b.z - a.z);
        let e2 = (c.x - a.x, c.y - a.y, c.z - a.z);
        let cross = (e1.1 * e2.2 - e1.2 * e2.1, e1.2 * e2.0 - e1.0 * e2.2, e1.0 * e2.1 - e1.1 * e2.0);
        assert_eq!(cross, (4 * n.x, 4 * n.y, 4 * n.z));
    }
}

#[test]
fn changing_top_changes_only_top_uvs() {
    let a = new_block(1, 2, 3, 4, 5, 6).unwrap();
    let b = new_block(1, 2, 3, 4, 9, 6).unwrap();
    assert_eq!(a.positions, b.positions);
    assert_eq!(a.normals, b.normals);
    assert_eq!(a.indices, b.indices);
    for j in 0..24 {
        if (16..20).contains(&j) {
            assert_ne!(a.uvs[j], b.uvs[j]);
        } else {
            assert_eq!(a.uvs[j], b.uvs[j]);
        }
    }
}

#[test]
fn cube_is_deterministic() {
    let a = new_block(7, 8, 9, 10, 11, 12).unwrap();
    let b = new_block(7, 8, 9, 10, 11, 12).unwrap();
    assert_eq!(a.positions, b.positions);
    assert_eq!(a.normals, b.normals);
    assert_eq!(a.uvs, b.uvs);
    assert_eq!(a.indices, b.indices);
}

#[test]
fn face_index_outside_row_is_rejected() {
    assert_eq!(new_block(0, 0, 0, 0, 16, 0).unwrap_err(), MeshError::InvalidFaceIndex);
    assert_eq!(new_block(u32::MAX, 0, 0, 0, 0, 0).unwrap_err(), MeshError::InvalidFaceIndex);
    assert!(new_block(15, 15, 15, 15, 15, 15).is_ok());
}
