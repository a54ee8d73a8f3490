use pentamesh::encoding::decode_u16s;
use pentamesh::encoding::decode_u32s;
use pentamesh::encoding::encode_u16s;
use pentamesh::encoding::encode_u32s;
use pentamesh::mesh::Model;
use pentamesh::vertex::VertexData;
use pentamesh::vertex::VertexTextured;
use pentamesh::vertex::vertex_words;

#[test]
fn words_survive_the_byte_round_trip() {
    let words: Vec<u32> = vec![0, 1, 0xdeadbeef, u32::MAX, 0x3f800000];
    let bytes = encode_u32s(&words);
    assert_eq!(bytes.len(), 20);
    let back = decode_u32s(&bytes).unwrap();
    assert_eq!(back, words);
}

#[test]
fn shorts_survive_the_byte_round_trip() {
    let values: Vec<u16> = vec![0, 1, 4, 0xbeef, u16::MAX];
    let bytes = encode_u16s(&values);
    assert_eq!(bytes.len(), 10);
    let back = decode_u16s(&bytes).unwrap();
    assert_eq!(back, values);
}

#[test]
fn decoding_rejects_ragged_images() {
    assert!(decode_u32s(&[0u8, 1, 2]).is_none());
    assert!(decode_u32s(&[0u8, 1, 2, 3, 4]).is_none());
    assert!(decode_u16s(&[7u8]).is_none());
    assert!(decode_u32s(&[]).is_some());
    assert!(decode_u16s(&[]).is_some());
}

#[test]
fn encoding_is_little_endian() {
    let bytes = encode_u32s(&vec![0x0a0b0c0d]);
    assert_eq!(bytes, vec![0x0d, 0x0c, 0x0b, 0x0a]);
    let bytes = encode_u16s(&vec![0x0102]);
    assert_eq!(bytes, vec![0x02, 0x01]);
}

#[test]
fn uploaded_buffers_read_back_as_the_source_arrays() {
    let model = Model::<VertexTextured>::new();

    let words_back = decode_u32s(model.vertex_bytes()).unwrap();
    assert_eq!(words_back, vertex_words(model.vertices()));
    let first = model.vertices()[0];
    assert_eq!(words_back[0], first.position.x);
    assert_eq!(words_back[0], (-0.0868241f32).to_bits());

    let indices_back = decode_u16s(model.index_bytes()).unwrap();
    assert_eq!(&indices_back, model.indices());
}

#[test]
fn vertex_words_are_in_field_order() {
    let model = Model::<VertexTextured>::new();
    let v = model.vertices()[0];
    let ws = v.words();
    assert_eq!(
        ws,
        vec![
            v.position.x,
            v.position.y,
            v.position.z,
            v.tex_coord.u,
            v.tex_coord.v,
            v.color.r,
            v.color.g,
            v.color.b,
        ]
    );
}
