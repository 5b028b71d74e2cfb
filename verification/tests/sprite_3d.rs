use project_z::sprite_3d::{quad_face_attribute, quad_indices, quad_vertices};

#[test]
fn single_sided_quad_has_front_triangles() {
    assert_eq!(quad_indices(false), vec![0, 1, 2, 1, 3, 2]);
}

#[test]
fn double_sided_quad_adds_reversed_back_triangles() {
    let indices = quad_indices(true);
    assert_eq!(indices, vec![0, 1, 2, 1, 3, 2, 5, 4, 6, 7, 5, 6]);
    assert_eq!(&indices[..6], &quad_indices(false)[..]);
    for t in 0..2 {
        let front = &indices[3 * t..3 * t + 3];
        let back = &indices[6 + 3 * t..6 + 3 * t + 3];
        assert_eq!(back, &[front[1] + 4, front[0] + 4, front[2] + 4]);
    }
    assert!(indices.iter().all(|&i| i < 8));
}

#[test]
fn corners_are_repeated_for_the_back_face() {
    assert_eq!(quad_vertices([(0, 1), (1, 1), (0, 0), (1, 0)]), vec![(0, 1), (1, 1), (0, 0), (1, 0), (0, 1), (1, 1), (0, 0), (1, 0)]);
    let uv: Vec<[f32; 2]> = quad_vertices([[0.0, 1.0], [1.0, 1.0], [0.0, 0.0], [1.0, 0.0]]);
    assert_eq!(uv.len(), 8);
    assert_eq!(uv[5], [1.0, 1.0]);
}

#[test]
fn normals_face_front_then_back() {
    let normals = quad_face_attribute([0.0f32, 0.0, 1.0], [0.0f32, 0.0, -1.0]);
    assert_eq!(normals.len(), 8);
    assert!(normals[..4].iter().all(|n| *n == [0.0, 0.0, 1.0]));
    assert!(normals[4..].iter().all(|n| *n == [0.0, 0.0, -1.0]));
}
