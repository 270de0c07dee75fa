use cube_scene::geometry::{
    create_vertices_cube_6_textures, create_vertices_cube_expansion_plan, face_texture, CubeMesh,
    FacePolicy, Point3,
};

fn meshes() -> Vec<CubeMesh> {
    vec![
        create_vertices_cube_6_textures(FacePolicy::Offset),
        create_vertices_cube_6_textures(FacePolicy::Ordinal),
        create_vertices_cube_expansion_plan(FacePolicy::Constant(4)),
    ]
}

fn sub(a: Point3, b: Point3) -> [i32; 3] {
    [a.x as i32 - b.x as i32, a.y as i32 - b.y as i32, a.z as i32 - b.z as i32]
}

#[test]
fn cube_has_24_vertices_and_36_indices_in_range() {
    for m in meshes() {
        assert_eq!(m.vertices.len(), 24);
        assert_eq!(m.indices.len(), 36);
        for (j, &i) in m.indices.iter().enumerate() {
            assert!(i < 24);
            assert_eq!(i as usize / 4, j / 6);
        }
    }
}

#[test]
fn each_face_shares_one_outward_normal() {
    for m in meshes() {
        for f in 0..6 {
            let n = m.vertices[4 * f].norm;
            for v in &m.vertices[4 * f..4 * f + 4] {
                assert_eq!(v.norm, n);
                let d = n.x as i32 * v.pos.x as i32 + n.y as i32 * v.pos.y as i32 + n.z as i32 * v.pos.z as i32;
                assert_eq!(d, 1);
                assert!(v.u <= 4 && v.v <= 4);
            }
        }
    }
}

#[test]
fn triangles_wind_counter_clockwise_from_outside() {
    for m in meshes() {
        for t in m.indices.chunks(3) {
            let [a, b, c] = [t[0], t[1], t[2]].map(|i| m.vertices[i as usize]);
            let u = sub(b.pos, a.pos);
            let v = sub(c.pos, a.pos);
            let cross = [u[1] * v[2] - u[2] * v[1], u[2] * v[0] - u[0] * v[2], u[0] * v[1] - u[1] * v[0]];
            let n = a.norm;
            assert_eq!(cross, [4 * n.x as i32, 4 * n.y as i32, 4 * n.z as i32]);
        }
    }
}

#[test]
fn first_face_is_plus_x_with_full_texture() {
    let m = create_vertices_cube_6_textures(FacePolicy::Ordinal);
    assert_eq!(m.vertices[0].pos, Point3 { x: 1, y: -1, z: 1 });
    assert_eq!(m.vertices[0].norm, Point3 { x: 1, y: 0, z: 0 });
    assert_eq!((m.vertices[0].u, m.vertices[0].v), (0, 4));
    assert_eq!((m.vertices[2].u, m.vertices[2].v), (4, 0));
    assert_eq!(&m.indices[0..6], &[0, 1, 3, 2, 3, 1]);
    assert_eq!(&m.indices[30..36], &[20, 21, 23, 22, 23, 21]);
}

#[test]
fn expansion_plan_uses_quarter_cells() {
    let m = create_vertices_cube_expansion_plan(FacePolicy::Constant(4));
    assert_eq!((m.vertices[0].u, m.vertices[0].v), (1, 0));
    assert_eq!((m.vertices[18].u, m.vertices[18].v), (1, 4));
    assert_eq!(m.vertices[23].norm, Point3 { x: 0, y: 0, z: -1 });
}

#[test]
fn face_policies() {
    assert_eq!(face_texture(FacePolicy::Ordinal, 5, 3, 4), 5);
    assert_eq!(face_texture(FacePolicy::Offset, 5, 3, 4), 0);
    assert_eq!(face_texture(FacePolicy::Offset, 2, 7, 10), 9);
    assert_eq!(face_texture(FacePolicy::Constant(4), 1, 2, 3), 4);
    assert_eq!(face_texture(FacePolicy::Offset, usize::MAX, 1, 10), (usize::MAX % 10 + 1) % 10);
    let m = create_vertices_cube_6_textures(FacePolicy::Offset);
    let tex: Vec<usize> = (0..6).map(|f| m.face_texture(f, 8, 10)).collect();
    assert_eq!(tex, vec![8, 9, 0, 1, 2, 3]);
}

#[test]
fn face_starts_step_by_six() {
    let m = create_vertices_cube_6_textures(FacePolicy::Ordinal);
    assert_eq!(m.face_starts(), vec![0, 6, 12, 18, 24, 30, 36]);
}
