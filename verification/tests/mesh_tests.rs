use objviewer::fixed::{clamp_i64, div_trunc_i128, isqrt_u128, mod_euclid_i64};
use objviewer::mesh::{LoadError, Mesh, MeshSource};
use objviewer::vec3::{vec_normalize, Vec3Fixed};

fn v(x: i64, y: i64, z: i64) -> Vec3Fixed {
    Vec3Fixed { x, y, z }
}

fn norm_sq(n: Vec3Fixed) -> i64 {
    n.x * n.x + n.y * n.y + n.z * n.z
}

/// A unit cube centered at the origin: 8 vertices, 12 triangles.
fn cube_positions() -> Vec<Vec3Fixed> {
    vec![
        v(-500, -500, -500),
        v(500, -500, -500),
        v(500, 500, -500),
        v(-500, 500, -500),
        v(-500, -500, 500),
        v(500, -500, 500),
        v(500, 500, 500),
        v(-500, 500, 500),
    ]
}

fn cube_indices() -> Vec<u32> {
    vec![
        0, 1, 2, 0, 2, 3, // back
        4, 6, 5, 4, 7, 6, // front
        0, 3, 7, 0, 7, 4, // left
        1, 5, 6, 1, 6, 2, // right
        0, 4, 5, 0, 5, 1, // bottom
        3, 2, 6, 3, 6, 7, // top
    ]
}

#[test]
fn load_with_indices_and_normals_passes_through() {
    let src = MeshSource {
        positions: cube_positions(),
        normals: (0..8).map(|i| v(i, 1000, 0)).collect(),
        indices: cube_indices(),
    };
    let mut m = Mesh::new();
    assert_eq!(m.load_from_arrays(&src), Ok(()));
    assert_eq!(m.vertices.len(), 8);
    assert_eq!(m.indices, cube_indices());
    assert_eq!(m.num_indices, 36);
    for (i, mv) in m.vertices.iter().enumerate() {
        assert_eq!(mv.position, src.positions[i]);
        assert_eq!(mv.normal, v(i as i64, 1000, 0));
        assert_eq!(mv.color, v(800, 800, 800));
    }
}

#[test]
fn short_normal_list_falls_back_to_up_vector() {
    let src = MeshSource {
        positions: vec![v(0, 0, 0), v(1000, 0, 0), v(0, 1000, 0)],
        normals: vec![v(0, 0, 1000)],
        indices: vec![0, 1, 2],
    };
    let mut m = Mesh::new();
    assert_eq!(m.load_from_arrays(&src), Ok(()));
    assert_eq!(m.vertices[0].normal, v(0, 0, 1000));
    assert_eq!(m.vertices[1].normal, v(0, 1000, 0));
    assert_eq!(m.vertices[2].normal, v(0, 1000, 0));
}

#[test]
fn omitted_normals_are_computed_unit_length() {
    let src = MeshSource {
        positions: cube_positions(),
        normals: Vec::new(),
        indices: cube_indices(),
    };
    let mut m = Mesh::new();
    assert_eq!(m.load_from_arrays(&src), Ok(()));
    assert_eq!(m.vertices.len(), 8);
    for mv in &m.vertices {
        let n2 = norm_sq(mv.normal);
        assert!(
            (994_000..=1_002_003).contains(&n2),
            "normal {:?} has squared length {}",
            mv.normal,
            n2
        );
    }
}

#[test]
fn flat_triangle_normal_is_exact() {
    let src = MeshSource {
        positions: vec![v(0, 0, 0), v(1000, 0, 0), v(0, 1000, 0)],
        normals: Vec::new(),
        indices: vec![0, 1, 2],
    };
    let mut m = Mesh::new();
    assert_eq!(m.load_from_arrays(&src), Ok(()));
    for mv in &m.vertices {
        assert_eq!(mv.normal, v(0, 0, 1000));
    }
}

#[test]
fn unreferenced_vertex_gets_up_normal() {
    let src = MeshSource {
        positions: vec![v(0, 0, 0), v(1000, 0, 0), v(0, 1000, 0), v(9000, 9000, 9000)],
        normals: Vec::new(),
        indices: vec![0, 1, 2],
    };
    let mut m = Mesh::new();
    assert_eq!(m.load_from_arrays(&src), Ok(()));
    assert_eq!(m.vertices[3].normal, v(0, 1000, 0));
}

#[test]
fn missing_indices_are_synthesized_in_triples() {
    let src = MeshSource {
        positions: (0..6).map(|i| v(i * 100, 0, 0)).collect(),
        normals: vec![v(0, 1000, 0); 6],
        indices: Vec::new(),
    };
    let mut m = Mesh::new();
    assert_eq!(m.load_from_arrays(&src), Ok(()));
    assert_eq!(m.indices, vec![0, 1, 2, 3, 4, 5]);
    assert_eq!(m.num_indices, 6);
}

#[test]
fn trailing_incomplete_triple_is_dropped() {
    let src = MeshSource {
        positions: (0..8).map(|i| v(i * 100, 0, 0)).collect(),
        normals: vec![v(0, 1000, 0); 8],
        indices: Vec::new(),
    };
    let mut m = Mesh::new();
    assert_eq!(m.load_from_arrays(&src), Ok(()));
    // eight vertices give two whole triangles; vertices 6 and 7 draw nothing
    assert_eq!(m.indices, vec![0, 1, 2, 3, 4, 5]);
    assert_eq!(m.vertices.len(), 8);
}

#[test]
fn empty_source_is_rejected() {
    let src = MeshSource { positions: Vec::new(), normals: Vec::new(), indices: Vec::new() };
    let mut m = Mesh::new();
    assert_eq!(m.load_from_arrays(&src), Err(LoadError::EmptyGeometry));
}

#[test]
fn non_triangle_index_count_is_rejected() {
    let src = MeshSource {
        positions: vec![v(0, 0, 0), v(1000, 0, 0), v(0, 1000, 0)],
        normals: Vec::new(),
        indices: vec![0, 1, 2, 0],
    };
    let mut m = Mesh::new();
    assert_eq!(m.load_from_arrays(&src), Err(LoadError::IndexCountNotTriangles));
}

#[test]
fn out_of_range_index_is_rejected() {
    let src = MeshSource {
        positions: vec![v(0, 0, 0), v(1000, 0, 0), v(0, 1000, 0)],
        normals: Vec::new(),
        indices: vec![0, 1, 9],
    };
    let mut m = Mesh::new();
    assert_eq!(m.load_from_arrays(&src), Err(LoadError::IndexOutOfRange));
}

#[test]
fn oversized_coordinate_is_rejected() {
    let src = MeshSource {
        positions: vec![v(0, 0, 0), v(200_000_000, 0, 0), v(0, 1000, 0)],
        normals: Vec::new(),
        indices: vec![0, 1, 2],
    };
    let mut m = Mesh::new();
    assert_eq!(m.load_from_arrays(&src), Err(LoadError::CoordinateOutOfRange));
}

#[test]
fn failed_load_keeps_previous_mesh() {
    let good = MeshSource {
        positions: cube_positions(),
        normals: Vec::new(),
        indices: cube_indices(),
    };
    let bad = MeshSource {
        positions: vec![v(0, 0, 0)],
        normals: Vec::new(),
        indices: vec![0, 0, 7],
    };
    let mut m = Mesh::new();
    assert_eq!(m.load_from_arrays(&good), Ok(()));
    let before = m.clone();
    assert_eq!(m.load_from_arrays(&bad), Err(LoadError::IndexOutOfRange));
    assert_eq!(m, before);
}

#[test]
fn error_descriptions_name_the_reason() {
    assert_eq!(LoadError::EmptyGeometry.describe(), "mesh source contains no vertices");
    assert_eq!(
        LoadError::IndexOutOfRange.describe(),
        "index points past the end of the vertex list"
    );
    assert_eq!(
        LoadError::IndexCountNotTriangles.describe(),
        "index count is not a multiple of three"
    );
}

#[test]
fn bounding_box_is_exact() {
    let src = MeshSource {
        positions: vec![v(-10, 5, 3), v(20, -7, 3), v(0, 0, 900)],
        normals: vec![v(0, 1000, 0); 3],
        indices: vec![0, 1, 2],
    };
    let mut m = Mesh::new();
    assert_eq!(m.load_from_arrays(&src), Ok(()));
    let (mn, mx) = m.bounding_box().unwrap();
    assert_eq!(mn, v(-10, -7, 3));
    assert_eq!(mx, v(20, 5, 900));
    assert_eq!(Mesh::new().bounding_box(), None);
}

#[test]
fn normalize_scales_to_unit_milli() {
    let n = vec_normalize(&v(3_000, 4_000, 0));
    assert_eq!(n, v(600, 800, 0));
    assert_eq!(norm_sq(n), 1_000_000);
    assert_eq!(vec_normalize(&v(0, 0, 0)), v(0, 0, 0));
}

#[test]
fn scalar_helpers_compute_exactly() {
    assert_eq!(isqrt_u128(0), 0);
    assert_eq!(isqrt_u128(15), 3);
    assert_eq!(isqrt_u128(16), 4);
    assert_eq!(isqrt_u128(3_000_000), 1_732);
    assert_eq!(mod_euclid_i64(-7, 3), 2);
    assert_eq!(mod_euclid_i64(7, 3), 1);
    assert_eq!(mod_euclid_i64(-6, 3), 0);
    assert_eq!(div_trunc_i128(-7, 2), -3);
    assert_eq!(div_trunc_i128(7, 2), 3);
    assert_eq!(clamp_i64(5, 0, 10), 5);
    assert_eq!(clamp_i64(-5, 0, 10), 0);
    assert_eq!(clamp_i64(50, 0, 10), 10);
}
