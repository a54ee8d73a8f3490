//! The fixed pentagon mesh and its draw operation.
//!
//! A model owns a constant vertex list and index list — a convex pentagon
//! with one color per vertex, triangulated as a fan from its last vertex —
//! together with the byte images of both lists.  The byte images are what
//! the surrounding application uploads into the GPU's vertex and index
//! buffers; they mirror the lists exactly and nothing ever rewrites them.
//! Drawing records the buffer bindings and one indexed draw covering every
//! index into a render pass.

use vstd::prelude::*;
use crate::encoding::le_bytes_of_u16s;
use crate::encoding::le_bytes_of_u32s;
use crate::encoding::lemma_u16s_round_trip;
use crate::encoding::lemma_u32s_round_trip;
use crate::encoding::encode_u16s;
use crate::encoding::encode_u32s;
use crate::encoding::u16s_of_le_bytes;
use crate::encoding::u32s_of_le_bytes;
use crate::pass::IndexFormat;
use crate::pass::PassCommand;
use crate::pass::RenderPass;
use crate::vertex::Color;
use crate::vertex::Position;
use crate::vertex::TexCoord;
use crate::vertex::VertexData;
use crate::vertex::VertexFlat;
use crate::vertex::VertexTextured;
use crate::vertex::lemma_words_of_vertices_len;
use crate::vertex::size_of_attributes;
use crate::vertex::vertex_words;
use crate::vertex::words_of_vertices;

verus! {

/// The pentagon's index list: three triangles fanned from vertex 4.
pub open spec fn pentagon_indices() -> Seq<u16> {
    seq![0u16, 1u16, 4u16, 1u16, 2u16, 4u16, 2u16, 3u16, 4u16]
}

/// The pentagon's corner positions, counter-clockwise.
pub open spec fn pentagon_positions() -> Seq<Position> {
    seq![
        Position { x: 0xbdb1d0d5, y: 0x3efc1c5c, z: 0x00000000 },
        Position { x: 0xbefd8236, y: 0x3d8e835a, z: 0x00000000 },
        Position { x: 0xbe607229, y: 0xbee6175f, z: 0x00000000 },
        Position { x: 0x3eb826aa, y: 0xbeb1d51f, z: 0x00000000 },
        Position { x: 0x3ee208d8, y: 0x3e705e9c, z: 0x00000000 },
    ]
}

/// The pentagon's per-corner colors.
pub open spec fn pentagon_colors() -> Seq<Color> {
    seq![
        Color { r: 0x3f800000, g: 0x00000000, b: 0x00000000 },
        Color { r: 0x00000000, g: 0x3f800000, b: 0x00000000 },
        Color { r: 0x00000000, g: 0x00000000, b: 0x3f800000 },
        Color { r: 0x3f000000, g: 0x00000000, b: 0x3f000000 },
        Color { r: 0x3f000000, g: 0x00000000, b: 0x3f000000 },
    ]
}

/// The pentagon's per-corner texture coordinates.
pub open spec fn pentagon_tex_coords() -> Seq<TexCoord> {
    seq![
        TexCoord { u: 0x3ed38bcb, v: 0x3bf8e90a },
        TexCoord { u: 0x3b9f7280, v: 0x3edc5f2a },
        TexCoord { u: 0x3e8fc6ec, v: 0x3f730baf },
        TexCoord { u: 0x3f5c1355, v: 0x3f58ea90 },
        TexCoord { u: 0x3f71046c, v: 0x3e87d0b2 },
    ]
}

/// The pentagon as flat-colored vertex records.
pub open spec fn pentagon_flat_vertices() -> Seq<VertexFlat> {
    seq![
        VertexFlat { position: pentagon_positions()[0], color: pentagon_colors()[0] },
        VertexFlat { position: pentagon_positions()[1], color: pentagon_colors()[1] },
        VertexFlat { position: pentagon_positions()[2], color: pentagon_colors()[2] },
        VertexFlat { position: pentagon_positions()[3], color: pentagon_colors()[3] },
        VertexFlat { position: pentagon_positions()[4], color: pentagon_colors()[4] },
    ]
}

/// The pentagon as textured vertex records.
pub open spec fn pentagon_textured_vertices() -> Seq<VertexTextured> {
    seq![
        VertexTextured {
            position: pentagon_positions()[0],
            tex_coord: pentagon_tex_coords()[0],
            color: pentagon_colors()[0],
        },
        VertexTextured {
            position: pentagon_positions()[1],
            tex_coord: pentagon_tex_coords()[1],
            color: pentagon_colors()[1],
        },
        VertexTextured {
            position: pentagon_positions()[2],
            tex_coord: pentagon_tex_coords()[2],
            color: pentagon_colors()[2],
        },
        VertexTextured {
            position: pentagon_positions()[3],
            tex_coord: pentagon_tex_coords()[3],
            color: pentagon_colors()[3],
        },
        VertexTextured {
            position: pentagon_positions()[4],
            tex_coord: pentagon_tex_coords()[4],
            color: pentagon_colors()[4],
        },
    ]
}

/// A mesh: vertex and index lists with the byte images a GPU buffer holds.
pub struct Model<V: VertexData> {
    vertices: Vec<V>,
    indices: Vec<u16>,
    vertex_bytes: Vec<u8>,
    index_bytes: Vec<u8>,
}

impl<V: VertexData> Model<V> {
    /// The vertex list.
    pub closed spec fn spec_vertices(self) -> Seq<V> {
        self.vertices@
    }

    /// The index list.
    pub closed spec fn spec_indices(self) -> Seq<u16> {
        self.indices@
    }

    /// The byte image uploaded into the vertex buffer.
    pub closed spec fn spec_vertex_bytes(self) -> Seq<u8> {
        self.vertex_bytes@
    }

    /// The byte image uploaded into the index buffer.
    pub closed spec fn spec_index_bytes(self) -> Seq<u8> {
        self.index_bytes@
    }

    /// The mesh invariant: the index list describes whole triangles, every
    /// index names an existing vertex, the index count fits a draw call's
    /// 32-bit argument, and both byte images mirror their lists exactly.
    /// It is a type invariant: constructors establish it, nothing ever
    /// mutates a mesh, and every mesh value satisfies it at all times.
    #[verifier::type_invariant]
    pub open spec fn wf(self) -> bool {
        &&& self.spec_indices().len() % 3 == 0
        &&& self.spec_indices().len() <= u32::MAX
        &&& forall|i: int|
            0 <= i < self.spec_indices().len() ==> (#[trigger] self.spec_indices()[i] as int)
                < self.spec_vertices().len()
        &&& self.spec_vertex_bytes() == le_bytes_of_u32s(
            words_of_vertices(self.spec_vertices()),
        )
        &&& self.spec_index_bytes() == le_bytes_of_u16s(self.spec_indices())
    }

    /// The vertex list retained on the CPU side.
    pub fn vertices(&self) -> (vs: &Vec<V>)
        ensures
            vs@ == self.spec_vertices(),
    {
        &self.vertices
    }

    /// The index list retained on the CPU side.
    pub fn indices(&self) -> (is: &Vec<u16>)
        ensures
            is@ == self.spec_indices(),
    {
        &self.indices
    }

    /// The byte image for the vertex buffer.
    pub fn vertex_bytes(&self) -> (bs: &Vec<u8>)
        ensures
            bs@ == self.spec_vertex_bytes(),
    {
        &self.vertex_bytes
    }

    /// The byte image for the index buffer.
    pub fn index_bytes(&self) -> (bs: &Vec<u8>)
        ensures
            bs@ == self.spec_index_bytes(),
    {
        &self.index_bytes
    }

    /// Builds a mesh from its two lists, establishing the invariant.
    fn upload(vertices: Vec<V>, indices: Vec<u16>) -> (model: Model<V>)
        requires
            indices@.len() % 3 == 0,
            indices@.len() <= u32::MAX,
            forall|i: int|
                0 <= i < indices@.len() ==> (#[trigger] indices@[i] as int) < vertices@.len(),
        ensures
            model.wf(),
            model.spec_vertices() == vertices@,
            model.spec_indices() == indices@,
    {
        let ws = vertex_words(&vertices);
        let vertex_bytes = encode_u32s(&ws);
        let index_bytes = encode_u16s(&indices);
        Model { vertices, indices, vertex_bytes, index_bytes }
    }

    /// Records this mesh's draw into an open render pass: the vertex buffer
    /// at slot 0 over its full range, the index buffer as 16-bit indices
    /// over its full range, then one indexed draw covering every index, for
    /// one instance, with base vertex 0 and base instance 0.
    ///
    /// A compatible pipeline must already be active on the pass; this is the
    /// caller's responsibility and nothing here checks it.
    pub fn render(&self, render_pass: &mut RenderPass)
        ensures
            final(render_pass)@ == old(render_pass)@ + seq![
                PassCommand::SetVertexBuffer { slot: 0 },
                PassCommand::SetIndexBuffer { format: IndexFormat::Uint16 },
                PassCommand::DrawIndexed {
                    first_index: 0,
                    index_count: self.spec_indices().len() as u32,
                    base_vertex: 0,
                    first_instance: 0,
                    instance_count: 1,
                },
            ],
    {
        proof {
            use_type_invariant(&*self);
        }
        render_pass.set_vertex_buffer(0);
        render_pass.set_index_buffer(IndexFormat::Uint16);
        render_pass.draw_indexed(0, self.indices.len() as u32, 0, 0, 1);
        proof {
            assert(final(render_pass)@ =~= old(render_pass)@ + seq![
                PassCommand::SetVertexBuffer { slot: 0 },
                PassCommand::SetIndexBuffer { format: IndexFormat::Uint16 },
                PassCommand::DrawIndexed {
                    first_index: 0,
                    index_count: self.spec_indices().len() as u32,
                    base_vertex: 0,
                    first_instance: 0,
                    instance_count: 1,
                },
            ]);
        }
    }

    /// Both byte images are sized exactly to their list's byte length: the
    /// vertex image is one stride per vertex and the index image two bytes
    /// per index.
    pub proof fn lemma_buffer_sizes(self)
        requires
            self.wf(),
        ensures
            self.spec_vertex_bytes().len() == self.spec_vertices().len() * size_of_attributes(
                V::spec_attributes(),
            ),
            self.spec_index_bytes().len() == 2 * self.spec_indices().len(),
    {
        crate::encoding::lemma_le_bytes_of_u32s_len(words_of_vertices(self.spec_vertices()));
        lemma_words_of_vertices_len::<V>(self.spec_vertices());
        crate::encoding::lemma_le_bytes_of_u16s_len(self.spec_indices());
    }

    /// Reading both byte images back gives exactly the lists they were made
    /// from: the upload loses nothing.
    pub proof fn lemma_buffers_round_trip(self)
        requires
            self.wf(),
        ensures
            u32s_of_le_bytes(self.spec_vertex_bytes()) == words_of_vertices(self.spec_vertices()),
            u16s_of_le_bytes(self.spec_index_bytes()) == self.spec_indices(),
    {
        lemma_u32s_round_trip(words_of_vertices(self.spec_vertices()));
        lemma_u16s_round_trip(self.spec_indices());
    }
}

impl Model<VertexFlat> {
    /// The flat-colored pentagon, with both byte images already built.
    pub fn new() -> (model: Model<VertexFlat>)
        ensures
            model.wf(),
            model.spec_vertices() == pentagon_flat_vertices(),
            model.spec_indices() == pentagon_indices(),
    {
        let mut vertices: Vec<VertexFlat> = Vec::new();
        vertices.push(VertexFlat {
            position: Position { x: 0xbdb1d0d5, y: 0x3efc1c5c, z: 0x00000000 },
            color: Color { r: 0x3f800000, g: 0x00000000, b: 0x00000000 },
        });
        vertices.push(VertexFlat {
            position: Position { x: 0xbefd8236, y: 0x3d8e835a, z: 0x00000000 },
            color: Color { r: 0x00000000, g: 0x3f800000, b: 0x00000000 },
        });
        vertices.push(VertexFlat {
            position: Position { x: 0xbe607229, y: 0xbee6175f, z: 0x00000000 },
            color: Color { r: 0x00000000, g: 0x00000000, b: 0x3f800000 },
        });
        vertices.push(VertexFlat {
            position: Position { x: 0x3eb826aa, y: 0xbeb1d51f, z: 0x00000000 },
            color: Color { r: 0x3f000000, g: 0x00000000, b: 0x3f000000 },
        });
        vertices.push(VertexFlat {
            position: Position { x: 0x3ee208d8, y: 0x3e705e9c, z: 0x00000000 },
            color: Color { r: 0x3f000000, g: 0x00000000, b: 0x3f000000 },
        });
        let indices = pentagon_index_list();
        proof {
            assert(vertices@ =~= pentagon_flat_vertices());
            lemma_pentagon_indices_bound();
        }
        Model::upload(vertices, indices)
    }
}

impl Model<VertexTextured> {
    /// The textured pentagon, with both byte images already built.
    pub fn new() -> (model: Model<VertexTextured>)
        ensures
            model.wf(),
            model.spec_vertices() == pentagon_textured_vertices(),
            model.spec_indices() == pentagon_indices(),
    {
        let mut vertices: Vec<VertexTextured> = Vec::new();
        vertices.push(VertexTextured {
            position: Position { x: 0xbdb1d0d5, y: 0x3efc1c5c, z: 0x00000000 },
            tex_coord: TexCoord { u: 0x3ed38bcb, v: 0x3bf8e90a },
            color: Color { r: 0x3f800000, g: 0x00000000, b: 0x00000000 },
        });
        vertices.push(VertexTextured {
            position: Position { x: 0xbefd8236, y: 0x3d8e835a, z: 0x00000000 },
            tex_coord: TexCoord { u: 0x3b9f7280, v: 0x3edc5f2a },
            color: Color { r: 0x00000000, g: 0x3f800000, b: 0x00000000 },
        });
        vertices.push(VertexTextured {
            position: Position { x: 0xbe607229, y: 0xbee6175f, z: 0x00000000 },
            tex_coord: TexCoord { u: 0x3e8fc6ec, v: 0x3f730baf },
            color: Color { r: 0x00000000, g: 0x00000000, b: 0x3f800000 },
        });
        vertices.push(VertexTextured {
            position: Position { x: 0x3eb826aa, y: 0xbeb1d51f, z: 0x00000000 },
            tex_coord: TexCoord { u: 0x3f5c1355, v: 0x3f58ea90 },
            color: Color { r: 0x3f000000, g: 0x00000000, b: 0x3f000000 },
        });
        vertices.push(VertexTextured {
            position: Position { x: 0x3ee208d8, y: 0x3e705e9c, z: 0x00000000 },
            tex_coord: TexCoord { u: 0x3f71046c, v: 0x3e87d0b2 },
            color: Color { r: 0x3f000000, g: 0x00000000, b: 0x3f000000 },
        });
        let indices = pentagon_index_list();
        proof {
            assert(vertices@ =~= pentagon_textured_vertices());
            lemma_pentagon_indices_bound();
        }
        Model::upload(vertices, indices)
    }
}

/// The pentagon's index list as a vector.
fn pentagon_index_list() -> (indices: Vec<u16>)
    ensures
        indices@ == pentagon_indices(),
{
    let mut indices: Vec<u16> = Vec::new();
    indices.push(0);
    indices.push(1);
    indices.push(4);
    indices.push(1);
    indices.push(2);
    indices.push(4);
    indices.push(2);
    indices.push(3);
    indices.push(4);
    proof {
        assert(indices@ =~= pentagon_indices());
    }
    indices
}

/// Every pentagon index names one of the five vertices.
pub proof fn lemma_pentagon_indices_bound()
    ensures
        pentagon_indices().len() == 9,
        forall|i: int| 0 <= i < 9 ==> (#[trigger] pentagon_indices()[i] as int) < 5,
{
    assert forall|i: int| 0 <= i < 9 implies (#[trigger] pentagon_indices()[i] as int) < 5 by {
        if i == 0 {
            assert(pentagon_indices()[0] == 0);
        } else if i == 1 {
            assert(pentagon_indices()[1] == 1);
        } else if i == 2 {
            assert(pentagon_indices()[2] == 4);
        } else if i == 3 {
            assert(pentagon_indices()[3] == 1);
        } else if i == 4 {
            assert(pentagon_indices()[4] == 2);
        } else if i == 5 {
            assert(pentagon_indices()[5] == 4);
        } else if i == 6 {
            assert(pentagon_indices()[6] == 2);
        } else if i == 7 {
            assert(pentagon_indices()[7] == 3);
        } else {
            assert(pentagon_indices()[8] == 4);
        }
    }
}

} // verus!
