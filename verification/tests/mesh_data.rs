use pentamesh::mesh::Model;
use pentamesh::vertex::VertexFlat;
use pentamesh::vertex::VertexTextured;

const POSITIONS: [[f32; 3]; 5] = [
    [-0.0868241, 0.49240386, 0.0],
    [-0.49513406, 0.06958647, 0.0],
    [-0.21918549, -0.44939706, 0.0],
    [0.35966998, -0.3473291, 0.0],
    [0.44147372, 0.2347359, 0.0],
];

const TEX_COORDS: [[f32; 2]; 5] = [
    [0.4131759, 0.00759614],
    [0.0048659444, 0.43041354],
    [0.28081453, 0.949397],
    [0.85967, 0.84732914],
    [0.9414737, 0.2652641],
];

const COLORS: [[f32; 3]; 5] = [
    [1.0, 0.0, 0.0],
    [0.0, 1.0, 0.0],
    [0.0, 0.0, 1.0],
    [0.5, 0.0, 0.5],
    [0.5, 0.0, 0.5],
];

const INDICES: [u16; 9] = [0, 1, 4, 1, 2, 4, 2, 3, 4];

fn flat_floats() -> Vec<f32> {
    let mut out: Vec<f32> = Vec::new();
    for i in 0..5 {
        out.extend_from_slice(&POSITIONS[i]);
        out.extend_from_slice(&COLORS[i]);
    }
    out
}

fn textured_floats() -> Vec<f32> {
    let mut out: Vec<f32> = Vec::new();
    for i in 0..5 {
        out.extend_from_slice(&POSITIONS[i]);
        out.extend_from_slice(&TEX_COORDS[i]);
        out.extend_from_slice(&COLORS[i]);
    }
    out
}

#[test]
fn indices_are_three_whole_triangles_into_the_vertex_list() {
    let model = Model::<VertexTextured>::new();
    let indices = model.indices();
    let vertices = model.vertices();
    assert_eq!(vertices.len(), 5);
    assert_eq!(indices.len(), 9);
    assert_eq!(indices.len() % 3, 0);
    for &i in indices.iter() {
        assert!((i as usize) < vertices.len());
        assert!(i <= 4);
    }
    assert_eq!(indices.as_slice(), &INDICES);
}

#[test]
fn flat_model_has_same_lists() {
    let model = Model::<VertexFlat>::new();
    assert_eq!(model.vertices().len(), 5);
    assert_eq!(model.indices().as_slice(), &INDICES);
}

#[test]
fn vertex_records_hold_the_source_float_bits() {
    let model = Model::<VertexTextured>::new();
    for (i, v) in model.vertices().iter().enumerate() {
        assert_eq!(v.position.x, POSITIONS[i][0].to_bits());
        assert_eq!(v.position.y, POSITIONS[i][1].to_bits());
        assert_eq!(v.position.z, POSITIONS[i][2].to_bits());
        assert_eq!(v.tex_coord.u, TEX_COORDS[i][0].to_bits());
        assert_eq!(v.tex_coord.v, TEX_COORDS[i][1].to_bits());
        assert_eq!(v.color.r, COLORS[i][0].to_bits());
        assert_eq!(v.color.g, COLORS[i][1].to_bits());
        assert_eq!(v.color.b, COLORS[i][2].to_bits());
    }
    let flat = Model::<VertexFlat>::new();
    for (i, v) in flat.vertices().iter().enumerate() {
        assert_eq!(v.position.x, POSITIONS[i][0].to_bits());
        assert_eq!(v.color.r, COLORS[i][0].to_bits());
        assert_eq!(v.color.b, COLORS[i][2].to_bits());
    }
}

#[test]
fn textured_vertex_bytes_match_float_array_byte_for_byte() {
    let model = Model::<VertexTextured>::new();
    let floats = textured_floats();
    let expected: &[u8] = bytemuck::cast_slice(&floats);
    assert_eq!(model.vertex_bytes().as_slice(), expected);
    assert_eq!(model.vertex_bytes().len(), 5 * 32);
}

#[test]
fn flat_vertex_bytes_match_float_array_byte_for_byte() {
    let model = Model::<VertexFlat>::new();
    let floats = flat_floats();
    let expected: &[u8] = bytemuck::cast_slice(&floats);
    assert_eq!(model.vertex_bytes().as_slice(), expected);
    assert_eq!(model.vertex_bytes().len(), 5 * 24);
}

#[test]
fn index_bytes_match_index_array_byte_for_byte() {
    let model = Model::<VertexTextured>::new();
    let expected: &[u8] = bytemuck::cast_slice(&INDICES);
    assert_eq!(model.index_bytes().as_slice(), expected);
    assert_eq!(model.index_bytes().len(), 9 * 2);
}
