use scene_renderer::model::ModelVertex;
use scene_renderer::resources::{
    assemble_vertices, averaging, calculate_normal_tangents, material_index, merge_attributes,
    texture_path, triangle_frame, triangles_included, Averaging, MeshError, DEFAULT_DIFFUSE_PATH,
    DEFAULT_NORMAL_PATH,
};

#[test]
fn a_material_without_a_texture_gets_the_default() {
    assert_eq!(texture_path("", "meshes/cube/", DEFAULT_DIFFUSE_PATH), DEFAULT_DIFFUSE_PATH);
    assert_eq!(texture_path("", "meshes/cube/", DEFAULT_NORMAL_PATH), DEFAULT_NORMAL_PATH);
    assert_eq!(
        texture_path("stone.png", "meshes/cube/stone.png", DEFAULT_DIFFUSE_PATH),
        "meshes/cube/stone.png"
    );
    assert_eq!(DEFAULT_DIFFUSE_PATH, "meshes/core/empty-texture.png");
    assert_eq!(DEFAULT_NORMAL_PATH, "meshes/core/empty-normal.png");
}

fn from_count(count: usize) -> f32 {
    count as f32
}

fn vertex(position: [f32; 3], tex_coords: [f32; 2]) -> ModelVertex<f32> {
    ModelVertex {
        position,
        tex_coords,
        normal: [0.0, 0.0, 1.0],
        tangent: [0.0; 3],
        bitangent: [0.0; 3],
    }
}

fn unit_triangle() -> Vec<ModelVertex<f32>> {
    vec![
        vertex([0.0, 0.0, 0.0], [0.0, 0.0]),
        vertex([1.0, 0.0, 0.0], [1.0, 0.0]),
        vertex([0.0, 1.0, 0.0], [0.0, 1.0]),
    ]
}

#[test]
fn tangent_space_of_a_single_triangle() {
    let mut vertices = unit_triangle();
    let result = calculate_normal_tangents(&vec![0, 1, 2], &mut vertices, 0.0, 1.0, from_count);
    assert_eq!(result, Ok(()));
    for (after, before) in vertices.iter().zip(unit_triangle().iter()) {
        assert_eq!(after.tangent, [1.0, 0.0, 0.0]);
        assert_eq!(after.bitangent, [0.0, -1.0, 0.0]);
        assert_eq!(after.position, before.position);
        assert_eq!(after.tex_coords, before.tex_coords);
        assert_eq!(after.normal, before.normal);
    }
}

#[test]
fn tangent_and_bitangent_of_a_stretched_triangle() {
    let v0 = vertex([1.0, 1.0, 1.0], [0.5, 0.5]);
    let v1 = vertex([3.0, 1.0, 1.0], [1.0, 0.5]);
    let v2 = vertex([1.0, 1.0, 5.0], [0.5, 1.0]);
    // du1 = (0.5, 0), du2 = (0, 0.5), r = 1 / 0.25 = 4
    // tangent = (dp1 * 0.5 - dp2 * 0) * 4 = (4, 0, 0)
    // bitangent = (dp2 * 0.5 - dp1 * 0) * -4 = (0, 0, -8)
    let (tangent, bitangent) = triangle_frame(&v0, &v1, &v2, 1.0);
    assert_eq!(tangent, [4.0, 0.0, 0.0]);
    assert_eq!(bitangent, [0.0, 0.0, -8.0]);
}

#[test]
fn a_shared_vertex_gets_the_mean_of_its_triangles() {
    // Two triangles in the plane z = 0 share the edge from vertex 1 to vertex 2.
    // The second maps texture space twice as densely.
    let mut vertices = vec![
        vertex([0.0, 0.0, 0.0], [0.0, 0.0]),
        vertex([1.0, 0.0, 0.0], [1.0, 0.0]),
        vertex([0.0, 1.0, 0.0], [0.0, 1.0]),
        vertex([1.0, 1.0, 0.0], [3.0, 1.0]),
        vertex([9.0, 9.0, 9.0], [0.5, 0.5]),
    ];
    let indices: Vec<u32> = vec![0, 1, 2, 2, 1, 3];
    assert_eq!(calculate_normal_tangents(&indices, &mut vertices, 0.0, 1.0, from_count), Ok(()));
    let first = triangle_frame(
        &vertex([0.0, 0.0, 0.0], [0.0, 0.0]),
        &vertex([1.0, 0.0, 0.0], [1.0, 0.0]),
        &vertex([0.0, 1.0, 0.0], [0.0, 1.0]),
        1.0,
    );
    let second = triangle_frame(
        &vertex([0.0, 1.0, 0.0], [0.0, 1.0]),
        &vertex([1.0, 0.0, 0.0], [1.0, 0.0]),
        &vertex([1.0, 1.0, 0.0], [3.0, 1.0]),
        1.0,
    );
    assert_eq!(first.0, [1.0, 0.0, 0.0]);
    assert_ne!(second.0, first.0);
    // touched by the first triangle only
    assert_eq!(vertices[0].tangent, first.0);
    assert_eq!(vertices[0].bitangent, first.1);
    // touched by the second triangle only
    assert_eq!(vertices[3].tangent, second.0);
    assert_eq!(vertices[3].bitangent, second.1);
    // touched by both: the mean of the two
    for shared in [1usize, 2].iter() {
        for axis in 0..3 {
            assert_eq!(
                vertices[*shared].tangent[axis],
                (second.0[axis] + (first.0[axis] + 0.0)) * (1.0 / 2.0)
            );
            assert_eq!(
                vertices[*shared].bitangent[axis],
                (second.1[axis] + (first.1[axis] + 0.0)) * (1.0 / 2.0)
            );
        }
    }
    // touched by none: zero, and not divided by zero
    assert_eq!(vertices[4].tangent, [0.0; 3]);
    assert_eq!(vertices[4].bitangent, [0.0; 3]);
}

#[test]
fn an_untouched_vertex_loses_what_it_held() {
    let mut vertices = unit_triangle();
    vertices.push(ModelVertex {
        position: [5.0, 5.0, 5.0],
        tex_coords: [0.0, 0.0],
        normal: [0.0, 1.0, 0.0],
        tangent: [7.0, 7.0, 7.0],
        bitangent: [8.0, 8.0, 8.0],
    });
    assert_eq!(
        calculate_normal_tangents(&vec![0, 1, 2], &mut vertices, 0.0, 1.0, from_count),
        Ok(())
    );
    assert_eq!(vertices[3].tangent, [0.0; 3]);
    assert_eq!(vertices[3].bitangent, [0.0; 3]);
    assert_eq!(vertices[3].position, [5.0, 5.0, 5.0]);
    assert_eq!(vertices[3].normal, [0.0, 1.0, 0.0]);
}

#[test]
fn a_triangle_without_area_in_texture_space_is_not_refused() {
    let mut vertices = vec![
        vertex([0.0, 0.0, 0.0], [0.5, 0.5]),
        vertex([1.0, 0.0, 0.0], [0.5, 0.5]),
        vertex([0.0, 1.0, 0.0], [0.5, 0.5]),
    ];
    assert_eq!(
        calculate_normal_tangents(&vec![0, 1, 2], &mut vertices, 0.0, 1.0, from_count),
        Ok(())
    );
    // The determinant is zero: the tangents are products of zero and infinity.
    assert!(vertices.iter().all(|v| v.tangent.iter().all(|t| t.is_nan())));
}

#[test]
fn bad_index_lists_leave_the_vertices_alone() {
    let mut vertices = unit_triangle();
    assert_eq!(
        calculate_normal_tangents(&vec![0, 1, 2, 0], &mut vertices, 0.0, 1.0, from_count),
        Err(MeshError::PartialTriangle { len: 4 })
    );
    assert_eq!(
        calculate_normal_tangents(&vec![0, 1, 2, 0, 3, 1], &mut vertices, 0.0, 1.0, from_count),
        Err(MeshError::IndexOutOfRange { at: 4, index: 3 })
    );
    for (after, before) in vertices.iter().zip(unit_triangle().iter()) {
        assert_eq!(after.tangent, before.tangent);
        assert_eq!(after.bitangent, before.bitangent);
        assert_eq!(after.position, before.position);
    }
}

#[test]
fn tangent_space_of_no_triangles() {
    let mut vertices = unit_triangle();
    assert_eq!(calculate_normal_tangents(&Vec::new(), &mut vertices, 0.0, 1.0, from_count), Ok(()));
    assert!(vertices.iter().all(|v| v.tangent == [0.0; 3] && v.bitangent == [0.0; 3]));
    let mut none: Vec<ModelVertex<f32>> = Vec::new();
    assert_eq!(calculate_normal_tangents(&Vec::new(), &mut none, 0.0, 1.0, from_count), Ok(()));
    assert!(none.is_empty());
}

#[test]
fn a_single_triangle_touches_each_vertex_once() {
    let counts = triangles_included(&vec![0, 1, 2], 3);
    assert_eq!(counts, Ok(vec![1, 1, 1]));
}

#[test]
fn shared_vertices_count_every_corner() {
    let indices: Vec<u32> = vec![0, 1, 2, 2, 1, 3, 1, 1, 4];
    let counts = triangles_included(&indices, 6);
    assert_eq!(counts, Ok(vec![1, 4, 2, 1, 1, 0]));
}

#[test]
fn no_triangles_leave_every_count_at_zero() {
    assert_eq!(triangles_included(&Vec::new(), 2), Ok(vec![0, 0]));
    assert_eq!(triangles_included(&Vec::new(), 0), Ok(Vec::new()));
}

#[test]
fn a_partial_triangle_is_refused() {
    assert_eq!(
        triangles_included(&vec![0, 1, 2, 0], 3),
        Err(MeshError::PartialTriangle { len: 4 })
    );
    assert_eq!(triangles_included(&vec![0, 1], 3), Err(MeshError::PartialTriangle { len: 2 }));
}

#[test]
fn a_partial_triangle_is_reported_before_a_bad_index() {
    assert_eq!(triangles_included(&vec![9, 1], 3), Err(MeshError::PartialTriangle { len: 2 }));
}

#[test]
fn the_first_index_out_of_range_is_reported() {
    assert_eq!(
        triangles_included(&vec![0, 1, 2, 2, 7, 9], 3),
        Err(MeshError::IndexOutOfRange { at: 4, index: 7 })
    );
    assert_eq!(
        triangles_included(&vec![0, 1, 3], 3),
        Err(MeshError::IndexOutOfRange { at: 2, index: 3 })
    );
    assert_eq!(
        triangles_included(&vec![0, 0, 0], 0),
        Err(MeshError::IndexOutOfRange { at: 0, index: 0 })
    );
}

#[test]
fn a_vertex_without_triangles_is_not_divided() {
    assert_eq!(averaging(0), Averaging::Zero);
    assert_eq!(averaging(1), Averaging::Mean { triangles: 1 });
    assert_eq!(averaging(6), Averaging::Mean { triangles: 6 });
}

#[test]
fn flat_arrays_become_vertices() {
    let positions: Vec<f32> = vec![0.0, 1.0, 2.0, 3.0, 4.0, 5.0];
    let texcoords: Vec<f32> = vec![0.25, 0.5, 0.75, 1.0];
    let normals: Vec<f32> = vec![0.0, 0.0, 1.0, 0.0, 1.0, 0.0];
    let vertices = assemble_vertices(&positions, &texcoords, &normals, 0.0).unwrap();
    assert_eq!(vertices.len(), 2);
    assert_eq!(vertices[0].position, [0.0, 1.0, 2.0]);
    assert_eq!(vertices[0].tex_coords, [0.25, 0.5]);
    assert_eq!(vertices[0].normal, [0.0, 0.0, 1.0]);
    assert_eq!(vertices[0].tangent, [0.0; 3]);
    assert_eq!(vertices[0].bitangent, [0.0; 3]);
    assert_eq!(vertices[1].position, [3.0, 4.0, 5.0]);
    assert_eq!(vertices[1].tex_coords, [0.75, 1.0]);
    assert_eq!(vertices[1].normal, [0.0, 1.0, 0.0]);
}

#[test]
fn leftover_positions_make_no_vertex() {
    let positions: Vec<f32> = vec![0.0, 1.0, 2.0, 3.0, 4.0];
    let texcoords: Vec<f32> = vec![0.25, 0.5];
    let normals: Vec<f32> = vec![0.0, 0.0, 1.0];
    let vertices = assemble_vertices(&positions, &texcoords, &normals, 0.0).unwrap();
    assert_eq!(vertices.len(), 1);
    assert_eq!(vertices[0].position, [0.0, 1.0, 2.0]);
}

#[test]
fn no_positions_make_no_vertices() {
    let empty: Vec<f32> = Vec::new();
    assert!(assemble_vertices(&empty, &empty, &empty, 0.0).unwrap().is_empty());
}

#[test]
fn missing_texture_coordinates_are_refused() {
    let positions: Vec<f32> = vec![0.0; 6];
    let texcoords: Vec<f32> = vec![0.0; 3];
    let normals: Vec<f32> = vec![0.0; 6];
    let result = assemble_vertices(&positions, &texcoords, &normals, 0.0);
    assert_eq!(result.err(), Some(MeshError::MissingTexCoords { needed: 4, found: 3 }));
}

#[test]
fn missing_normals_are_refused() {
    let positions: Vec<f32> = vec![0.0; 6];
    let texcoords: Vec<f32> = vec![0.0; 4];
    let normals: Vec<f32> = vec![0.0; 5];
    let result = assemble_vertices(&positions, &texcoords, &normals, 0.0);
    assert_eq!(result.err(), Some(MeshError::MissingNormals { needed: 6, found: 5 }));
}

#[test]
fn missing_texture_coordinates_are_reported_before_missing_normals() {
    let positions: Vec<f32> = vec![0.0; 3];
    let empty: Vec<f32> = Vec::new();
    let result = assemble_vertices(&positions, &empty, &empty, 0.0);
    assert_eq!(result.err(), Some(MeshError::MissingTexCoords { needed: 2, found: 0 }));
}

#[test]
fn attributes_are_merged_in_order_and_may_stop_early() {
    let positions: Vec<[f32; 3]> = vec![[1.0, 2.0, 3.0], [4.0, 5.0, 6.0], [7.0, 8.0, 9.0]];
    let normals: Vec<[f32; 3]> = vec![[0.0, 0.0, 1.0], [0.0, 1.0, 0.0]];
    let tex_coords: Vec<[f32; 2]> = vec![[0.5, 0.25]];
    let vertices = merge_attributes(&positions, &normals, &tex_coords, 0.0, 1.0).unwrap();
    assert_eq!(vertices.len(), 3);
    assert_eq!(vertices[0].position, [1.0, 2.0, 3.0]);
    assert_eq!(vertices[0].normal, [0.0, 0.0, 1.0]);
    // texture coordinates are turned upside down
    assert_eq!(vertices[0].tex_coords, [0.5, 0.75]);
    assert_eq!(vertices[1].position, [4.0, 5.0, 6.0]);
    assert_eq!(vertices[1].normal, [0.0, 1.0, 0.0]);
    assert_eq!(vertices[1].tex_coords, [0.0, 0.0]);
    assert_eq!(vertices[2].position, [7.0, 8.0, 9.0]);
    assert_eq!(vertices[2].normal, [0.0, 0.0, 0.0]);
    assert_eq!(vertices[2].tex_coords, [0.0, 0.0]);
    for vertex in vertices.iter() {
        assert_eq!(vertex.tangent, [0.0; 3]);
        assert_eq!(vertex.bitangent, [0.0; 3]);
    }
}

#[test]
fn more_normals_than_vertices_are_refused() {
    let positions: Vec<[f32; 3]> = vec![[0.0; 3]];
    let normals: Vec<[f32; 3]> = vec![[0.0; 3], [1.0; 3]];
    let tex_coords: Vec<[f32; 2]> = vec![[0.0; 2], [0.0; 2], [0.0; 2]];
    let result = merge_attributes(&positions, &normals, &tex_coords, 0.0, 1.0);
    assert_eq!(result.err(), Some(MeshError::ExtraNormals { vertices: 1, found: 2 }));
}

#[test]
fn more_texture_coordinates_than_vertices_are_refused() {
    let positions: Vec<[f32; 3]> = vec![[0.0; 3]];
    let normals: Vec<[f32; 3]> = vec![[0.0; 3]];
    let tex_coords: Vec<[f32; 2]> = vec![[0.0; 2], [0.0; 2], [0.0; 2]];
    let result = merge_attributes(&positions, &normals, &tex_coords, 0.0, 1.0);
    assert_eq!(result.err(), Some(MeshError::ExtraTexCoords { vertices: 1, found: 3 }));
}

#[test]
fn material_is_found_by_name() {
    let names: Vec<String> =
        vec!["wood".to_string(), "steel".to_string(), "glass".to_string(), "steel".to_string()];
    assert_eq!(material_index(&names, &"wood".to_string()), 0);
    assert_eq!(material_index(&names, &"steel".to_string()), 1);
    assert_eq!(material_index(&names, &"glass".to_string()), 2);
}

#[test]
fn unknown_material_falls_back_to_the_first() {
    let names: Vec<String> = vec!["wood".to_string(), "steel".to_string()];
    assert_eq!(material_index(&names, &"stone".to_string()), 0);
    assert_eq!(material_index(&names, &"".to_string()), 0);
    assert_eq!(material_index(&Vec::new(), &"wood".to_string()), 0);
}
