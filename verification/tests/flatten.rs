//! Scene-flattener behaviour on concrete geometry.

use deferred_frames::model::{Model, ModelCollection};
use deferred_frames::transform::Matrix4;
use deferred_frames::vertex::{make_square_indices, Vertex};

fn v3(x: f32, y: f32, z: f32) -> [u32; 3] {
    [x.to_bits(), y.to_bits(), z.to_bits()]
}

fn f3(b: [u32; 3]) -> [f32; 3] {
    [f32::from_bits(b[0]), f32::from_bits(b[1]), f32::from_bits(b[2])]
}

/// The 24 vertices of the standard six-face quad cube.
fn cube_vertices() -> Vec<Vertex> {
    let faces: [([f32; 3], [[f32; 3]; 4]); 6] = [
        // Front
        ([0.0, 0.0, -1.0], [
            [-0.5, 0.5, -0.5],
            [0.5, -0.5, -0.5],
            [0.5, 0.5, -0.5],
            [-0.5, -0.5, -0.5],
        ]),
        // Back
        ([0.0, 0.0, 1.0], [
            [-0.5, 0.5, 0.5],
            [0.5, -0.5, 0.5],
            [-0.5, -0.5, 0.5],
            [0.5, 0.5, 0.5],
        ]),
        // Left
        ([-1.0, 0.0, 0.0], [
            [-0.5, 0.5, -0.5],
            [-0.5, -0.5, 0.5],
            [-0.5, -0.5, -0.5],
            [-0.5, 0.5, 0.5],
        ]),
        // Right
        ([1.0, 0.0, 0.0], [
            [0.5, 0.5, -0.5],
            [0.5, -0.5, 0.5],
            [0.5, 0.5, 0.5],
            [0.5, -0.5, -0.5],
        ]),
        // Top
        ([0.0, -1.0, 0.0], [
            [-0.5, -0.5, -0.5],
            [0.5, -0.5, 0.5],
            [0.5, -0.5, -0.5],
            [-0.5, -0.5, 0.5],
        ]),
        // Bottom
        ([0.0, 1.0, 0.0], [
            [-0.5, 0.5, -0.5],
            [0.5, 0.5, 0.5],
            [-0.5, 0.5, 0.5],
            [0.5, 0.5, -0.5],
        ]),
    ];
    let mut out = Vec::new();
    for (normal, corners) in faces.iter() {
        for corner in corners.iter() {
            out.push(Vertex::new(
                v3(corner[0], corner[1], corner[2]),
                v3(normal[0], normal[1], normal[2]),
            ));
        }
    }
    out
}

#[test]
fn square_indices_pattern() {
    let mut vs = Vec::new();
    for _ in 0..8 {
        vs.push(Vertex::new(v3(0.0, 0.0, 0.0), v3(0.0, 0.0, 1.0)));
    }
    let indices = make_square_indices(&vs);
    assert_eq!(indices, vec![0, 1, 2, 3, 1, 0, 4, 5, 6, 7, 5, 4]);
}

#[test]
fn two_cubes_flatten_counts_and_offsets() {
    let cube = Model::new_cube(cube_vertices());
    let models = vec![cube.clone(), cube];
    let merged = ModelCollection::from_vec(models);

    let vertices = merged.vertices();
    let indices = merged.indices();
    assert_eq!(vertices.len(), 48);
    assert_eq!(indices.len(), 72);

    // No index dangles, and the second instance's indices are all rebased
    // past the first instance's 24 vertices.
    for (pos, &ix) in indices.iter().enumerate() {
        assert!((ix as usize) < vertices.len());
        if pos >= 36 {
            assert!(ix >= 24 && ix < 48);
        } else {
            assert!(ix < 24);
        }
        if pos >= 36 {
            assert_eq!(ix, indices[pos - 36] + 24);
        }
    }
}

#[test]
fn identity_transform_preserves_geometry() {
    let cube = Model::new_cube(cube_vertices());
    let original = cube.vertices();
    let merged = ModelCollection::from_vec(vec![cube]);
    let flattened = merged.vertices();

    assert_eq!(flattened.len(), original.len());
    for (a, b) in original.iter().zip(flattened.iter()) {
        assert_eq!(f3(a.position), f3(b.position));
        assert_eq!(f3(a.normal), f3(b.normal));
    }
}

#[test]
fn translation_moves_positions_not_normals() {
    let mut model = Model::new(
        vec![
            Vertex::new(v3(1.5, -2.5, 0.5), v3(0.0, 0.0, 1.0)),
            Vertex::new(v3(-1.0, 4.0, 2.0), v3(0.0, -1.0, 0.0)),
        ],
        vec![0, 1],
    );
    // Column-major translation by (2, 3, 4).
    let mut cols = [0u32; 16];
    cols[0] = 1.0f32.to_bits();
    cols[5] = 1.0f32.to_bits();
    cols[10] = 1.0f32.to_bits();
    cols[12] = 2.0f32.to_bits();
    cols[13] = 3.0f32.to_bits();
    cols[14] = 4.0f32.to_bits();
    cols[15] = 1.0f32.to_bits();
    model.set_matrix(Matrix4::from_cols(cols));

    let before = model.vertices();
    let merged = ModelCollection::from_vec(vec![model]);
    let after = merged.vertices();

    for (a, b) in before.iter().zip(after.iter()) {
        let pa = f3(a.position);
        let pb = f3(b.position);
        assert_eq!([pa[0] + 2.0, pa[1] + 3.0, pa[2] + 4.0], pb);
        assert_eq!(f3(a.normal), f3(b.normal));
    }
}

#[test]
fn scale_transforms_positions_and_normals() {
    let mut model = Model::new(
        vec![Vertex::new(v3(1.0, 1.0, 1.0), v3(0.5, 1.0, -1.0))],
        vec![0],
    );
    // Column-major uniform scale by 2.
    let mut cols = [0u32; 16];
    cols[0] = 2.0f32.to_bits();
    cols[5] = 2.0f32.to_bits();
    cols[10] = 2.0f32.to_bits();
    cols[15] = 1.0f32.to_bits();
    model.set_matrix(Matrix4::from_cols(cols));

    let merged = ModelCollection::from_vec(vec![model]);
    let after = merged.vertices();
    assert_eq!(f3(after[0].position), [2.0, 2.0, 2.0]);
    assert_eq!(f3(after[0].normal), [1.0, 2.0, -2.0]);
}

#[test]
fn instance_order_defines_output_order() {
    let a = Model::new(
        vec![Vertex::new(v3(1.0, 0.0, 0.0), v3(0.0, 0.0, 1.0))],
        vec![0],
    );
    let b = Model::new(
        vec![Vertex::new(v3(0.0, 2.0, 0.0), v3(0.0, 0.0, 1.0))],
        vec![0],
    );
    let merged = ModelCollection::from_vec(vec![a, b]);
    let vertices = merged.vertices();
    let indices = merged.indices();
    assert_eq!(f3(vertices[0].position), [1.0, 0.0, 0.0]);
    assert_eq!(f3(vertices[1].position), [0.0, 2.0, 0.0]);
    assert_eq!(indices, vec![0, 1]);
}

#[test]
fn model_accessors_round_trip() {
    let vs = vec![
        Vertex::new(v3(1.0, 2.0, 3.0), v3(0.0, 1.0, 0.0)),
        Vertex::new(v3(-1.0, 0.5, 0.25), v3(1.0, 0.0, 0.0)),
    ];
    let ixs = vec![0u32, 1, 0];
    let model = Model::new(vs.clone(), ixs.clone());
    assert_eq!(model.vertices(), vs);
    assert_eq!(model.indices(), ixs);
    let m = model.matrix();
    let mut expected = [0u32; 16];
    expected[0] = 1.0f32.to_bits();
    expected[5] = 1.0f32.to_bits();
    expected[10] = 1.0f32.to_bits();
    expected[15] = 1.0f32.to_bits();
    assert_eq!(m.cols, expected);
}
