use cube::cube::{create_cube_geometry, CubeMesh};
use cube::vertex::{Vertex, WHITE};

fn sub(a: [i64; 3], b: [i64; 3]) -> [i64; 3] {
    [a[0] - b[0], a[1] - b[1], a[2] - b[2]]
}

fn cross(a: [i64; 3], b: [i64; 3]) -> [i64; 3] {
    [a[1] * b[2] - a[2] * b[1], a[2] * b[0] - a[0] * b[2], a[0] * b[1] - a[1] * b[0]]
}

fn dot(a: [i64; 3], b: [i64; 3]) -> i64 {
    a[0] * b[0] + a[1] * b[1] + a[2] * b[2]
}

fn normal_of(v: &Vertex) -> [i64; 3] {
    [v.normal[0] as i64, v.normal[1] as i64, v.normal[2] as i64]
}

#[test]
fn counts_and_index_range() {
    for size in [[1u32, 1, 1], [2, 4, 6], [7, 1, 300], [u32::MAX, 5, 1]] {
        let (vertices, indices) = create_cube_geometry(size);
        assert_eq!(vertices.len(), 24);
        assert_eq!(indices.len(), 36);
        assert!(indices.iter().all(|&i| i < 24));
    }
}

#[test]
fn index_list_is_two_triangles_per_face() {
    let (_, indices) = create_cube_geometry([2, 2, 2]);
    let expected: Vec<u16> = vec![
        0, 1, 2, 2, 3, 0, 4, 5, 6, 6, 7, 4, 8, 9, 10, 10, 11, 8, 12, 13, 14, 14, 15, 12, 16, 17,
        18, 18, 19, 16, 20, 21, 22, 22, 23, 20,
    ];
    assert_eq!(indices, expected);
}

#[test]
fn corner_positions_are_doubled_half_extents() {
    let (vertices, _) = create_cube_geometry([2, 4, 6]);
    assert_eq!(vertices[0].position, [2, -4, -6]);
    assert_eq!(vertices[1].position, [-2, -4, -6]);
    assert_eq!(vertices[6].position, [2, 4, 6]);
    assert_eq!(vertices[23].position, [2, 4, 6]);
    let (odd, _) = create_cube_geometry([1, 3, 5]);
    assert_eq!(odd[12].position, [-1, -3, -5]);
}

#[test]
fn every_vertex_is_opaque_white() {
    let (vertices, _) = create_cube_geometry([3, 3, 3]);
    assert!(vertices.iter().all(|v| v.color == WHITE));
    assert_eq!(WHITE, [255, 255, 255, 255]);
}

#[test]
fn face_normals_are_shared_unit_axes_on_the_outer_side() {
    let size = [2u32, 4, 6];
    let (vertices, _) = create_cube_geometry(size);
    let expected = [[0, 0, -1], [0, 0, 1], [1, 0, 0], [-1, 0, 0], [0, -1, 0], [0, 1, 0]];
    for f in 0..6 {
        for c in 0..4 {
            let v = &vertices[4 * f + c];
            let n = normal_of(v);
            assert_eq!(n, expected[f]);
            assert_eq!(dot(n, n), 1);
            for a in 0..3 {
                if n[a] != 0 {
                    assert_eq!(v.position[a], n[a] * size[a] as i64);
                }
            }
        }
    }
}

#[test]
fn triangles_wind_along_their_normals() {
    for size in [[1u32, 1, 1], [2, 4, 6], [9, 1, 3]] {
        let (vertices, indices) = create_cube_geometry(size);
        for t in 0..12 {
            let p0 = vertices[indices[3 * t] as usize].position;
            let p1 = vertices[indices[3 * t + 1] as usize].position;
            let p2 = vertices[indices[3 * t + 2] as usize].position;
            let w = cross(sub(p1, p0), sub(p2, p0));
            let n = normal_of(&vertices[indices[3 * t] as usize]);
            assert!(dot(w, n) > 0);
            assert_eq!(cross(w, n), [0, 0, 0]);
        }
    }
}

#[test]
fn mesh_keeps_position_and_draws_all_indices() {
    let mesh = CubeMesh::new([1, -2, 3], [2, 2, 2]);
    assert_eq!(mesh.position, [1, -2, 3]);
    assert_eq!(mesh.size, [2, 2, 2]);
    assert_eq!(mesh.vertices.len(), 24);
    assert_eq!(mesh.index_count(), 36);
}
