//! Vertex records and their buffer layouts.
//!
//! A vertex record is a packed run of 32-bit fields; each field holds the
//! IEEE-754 bit pattern of one `f32` component, so the record's byte image is
//! exactly what the GPU reads.  Two record shapes exist: a flat-colored one
//! (position and color) and a textured one (position, texture coordinate and
//! color).  Each shape declares a buffer layout to the pipeline; the layout
//! must be packed: attribute offsets are the summed sizes of the fields
//! before them and the stride is the total size, with no implicit padding.

use vstd::prelude::*;

verus! {

/// The data format of one vertex attribute, as the shader declares it.
#[derive(Clone, Copy, Debug, PartialEq, Eq, Structural)]
pub enum AttributeFormat {
    /// Two 32-bit floating-point components.
    Float32x2,
    /// Three 32-bit floating-point components.
    Float32x3,
}

impl AttributeFormat {
    /// Byte size of one attribute of this format.
    pub open spec fn spec_size(self) -> nat {
        match self {
            AttributeFormat::Float32x2 => 8,
            AttributeFormat::Float32x3 => 12,
        }
    }

    /// Byte size of one attribute of this format.
    pub fn size(self) -> (n: u64)
        ensures
            n == self.spec_size(),
    {
        match self {
            AttributeFormat::Float32x2 => 8,
            AttributeFormat::Float32x3 => 12,
        }
    }
}

/// One attribute of a vertex record: the shader input slot it feeds and
/// where it sits inside the record.
#[derive(Clone, Copy, Debug, PartialEq, Eq, Structural)]
pub struct AttributeDesc {
    pub shader_location: u32,
    pub offset: u64,
    pub format: AttributeFormat,
}

/// Total byte size of a run of attributes.
pub open spec fn size_of_attributes(attrs: Seq<AttributeDesc>) -> nat
    decreases attrs.len(),
{
    if attrs.len() == 0 {
        0
    } else {
        attrs[0].format.spec_size() + size_of_attributes(attrs.skip(1))
    }
}

/// The buffer layout a vertex record type declares to a pipeline.
#[derive(Debug, PartialEq)]
pub struct VertexLayout {
    /// Distance in bytes between consecutive records in the buffer.
    pub array_stride: u64,
    /// The record's attributes, in declaration order.
    pub attributes: Vec<AttributeDesc>,
}

impl VertexLayout {
    /// The layout is packed: the stride is exactly the summed attribute
    /// sizes, every attribute sits at the summed size of those before it,
    /// and shader locations run in declaration order.
    pub open spec fn packed(self) -> bool {
        &&& self.array_stride == size_of_attributes(self.attributes@)
        &&& forall|i: int|
            0 <= i < self.attributes@.len() ==> #[trigger] self.attributes@[i].offset
                == size_of_attributes(self.attributes@.take(i))
        &&& forall|i: int|
            0 <= i < self.attributes@.len() ==> #[trigger] self.attributes@[i].shader_location == i
    }
}

/// A point in space; each field is the bit pattern of one `f32` coordinate.
#[derive(Clone, Copy, Debug, PartialEq, Eq, Structural)]
pub struct Position {
    pub x: u32,
    pub y: u32,
    pub z: u32,
}

/// An RGB color; each field is the bit pattern of one `f32` channel.
#[derive(Clone, Copy, Debug, PartialEq, Eq, Structural)]
pub struct Color {
    pub r: u32,
    pub g: u32,
    pub b: u32,
}

/// A texture coordinate; each field is the bit pattern of one `f32` axis.
#[derive(Clone, Copy, Debug, PartialEq, Eq, Structural)]
pub struct TexCoord {
    pub u: u32,
    pub v: u32,
}

/// A vertex record with a fixed byte layout: its content as a run of 32-bit
/// words in field order, and the attribute list its type declares.
pub trait VertexData: Sized {
    /// The record's 32-bit words, in field order.
    spec fn spec_words(self) -> Seq<u32>;

    /// The attribute list this record type declares.
    spec fn spec_attributes() -> Seq<AttributeDesc>;

    /// One record's words fill exactly one stride of the declared layout.
    proof fn lemma_words_fill_stride(self)
        ensures
            4 * self.spec_words().len() == size_of_attributes(Self::spec_attributes()),
    ;

    /// The record's words as a vector.
    fn words(&self) -> (ws: Vec<u32>)
        ensures
            ws@ == self.spec_words(),
    ;

    /// The packed buffer layout of this record type.
    fn desc() -> (layout: VertexLayout)
        ensures
            layout.attributes@ == Self::spec_attributes(),
            layout.packed(),
    ;
}

/// The words of a run of vertex records, in record order.
pub open spec fn words_of_vertices<V: VertexData>(vs: Seq<V>) -> Seq<u32>
    decreases vs.len(),
{
    if vs.len() == 0 {
        Seq::empty()
    } else {
        vs[0].spec_words() + words_of_vertices(vs.skip(1))
    }
}

pub proof fn lemma_words_of_vertices_push<V: VertexData>(vs: Seq<V>, v: V)
    ensures
        words_of_vertices(vs.push(v)) == words_of_vertices(vs) + v.spec_words(),
    decreases vs.len(),
{
    if vs.len() == 0 {
        assert(vs.push(v)[0] == v);
        assert(vs.push(v).skip(1) =~= Seq::<V>::empty());
        assert(words_of_vertices(vs.push(v))
            == v.spec_words() + words_of_vertices(Seq::<V>::empty()));
        assert(words_of_vertices(vs.push(v)) =~= words_of_vertices(vs) + v.spec_words());
    } else {
        assert(vs.push(v)[0] == vs[0]);
        assert(vs.push(v).skip(1) =~= vs.skip(1).push(v));
        lemma_words_of_vertices_push(vs.skip(1), v);
        assert(words_of_vertices(vs.push(v))
            == vs[0].spec_words() + (words_of_vertices(vs.skip(1)) + v.spec_words()));
        assert(words_of_vertices(vs.push(v)) =~= words_of_vertices(vs) + v.spec_words());
    }
}

/// A run of records, packed, is byte-for-byte as long as the records are
/// many: each record fills exactly one stride, with no implicit padding.
pub proof fn lemma_words_of_vertices_len<V: VertexData>(vs: Seq<V>)
    ensures
        4 * words_of_vertices(vs).len() == vs.len() * size_of_attributes(V::spec_attributes()),
    decreases vs.len(),
{
    let stride = size_of_attributes(V::spec_attributes());
    if vs.len() == 0 {
    } else {
        vs[0].lemma_words_fill_stride();
        lemma_words_of_vertices_len::<V>(vs.skip(1));
        assert((vs.len() - 1) * stride + stride == vs.len() * stride) by (nonlinear_arith);
    }
}

/// The words of a run of vertex records, as a vector.
pub fn vertex_words<V: VertexData>(vs: &Vec<V>) -> (ws: Vec<u32>)
    ensures
        ws@ == words_of_vertices(vs@),
{
    let mut ws: Vec<u32> = Vec::new();
    let mut i: usize = 0;
    while i < vs.len()
        invariant
            i <= vs@.len(),
            ws@ == words_of_vertices(vs@.take(i as int)),
        decreases vs@.len() - i,
    {
        let mut record_words = vs[i].words();
        ws.append(&mut record_words);
        proof {
            lemma_words_of_vertices_push(vs@.take(i as int), vs@[i as int]);
            assert(vs@.take(i as int).push(vs@[i as int]) =~= vs@.take(i as int + 1));
        }
        i = i + 1;
    }
    proof {
        assert(vs@.take(vs@.len() as int) =~= vs@);
    }
    ws
}

/// A flat-colored vertex: position then color.
#[derive(Clone, Copy, Debug, PartialEq, Eq, Structural)]
pub struct VertexFlat {
    pub position: Position,
    pub color: Color,
}

/// A textured vertex: position, then texture coordinate, then color.
#[derive(Clone, Copy, Debug, PartialEq, Eq, Structural)]
pub struct VertexTextured {
    pub position: Position,
    pub tex_coord: TexCoord,
    pub color: Color,
}

impl VertexData for VertexFlat {
    open spec fn spec_words(self) -> Seq<u32> {
        seq![
            self.position.x,
            self.position.y,
            self.position.z,
            self.color.r,
            self.color.g,
            self.color.b,
        ]
    }

    open spec fn spec_attributes() -> Seq<AttributeDesc> {
        seq![
            AttributeDesc { shader_location: 0, offset: 0, format: AttributeFormat::Float32x3 },
            AttributeDesc { shader_location: 1, offset: 12, format: AttributeFormat::Float32x3 },
        ]
    }

    proof fn lemma_words_fill_stride(self)
    {
        lemma_flat_attribute_sizes();
    }

    fn words(&self) -> (ws: Vec<u32>)
    {
        let mut ws: Vec<u32> = Vec::new();
        ws.push(self.position.x);
        ws.push(self.position.y);
        ws.push(self.position.z);
        ws.push(self.color.r);
        ws.push(self.color.g);
        ws.push(self.color.b);
        proof {
            assert(ws@ =~= self.spec_words());
        }
        ws
    }

    fn desc() -> (layout: VertexLayout)
    {
        let mut attributes: Vec<AttributeDesc> = Vec::new();
        attributes.push(
            AttributeDesc { shader_location: 0, offset: 0, format: AttributeFormat::Float32x3 },
        );
        attributes.push(
            AttributeDesc { shader_location: 1, offset: 12, format: AttributeFormat::Float32x3 },
        );
        let layout = VertexLayout { array_stride: 24, attributes };
        proof {
            assert(layout.attributes@ =~= Self::spec_attributes());
            lemma_flat_attribute_sizes();
            lemma_flat_layout_packed(layout);
        }
        layout
    }
}

impl VertexData for VertexTextured {
    open spec fn spec_words(self) -> Seq<u32> {
        seq![
            self.position.x,
            self.position.y,
            self.position.z,
            self.tex_coord.u,
            self.tex_coord.v,
            self.color.r,
            self.color.g,
            self.color.b,
        ]
    }

    open spec fn spec_attributes() -> Seq<AttributeDesc> {
        seq![
            AttributeDesc { shader_location: 0, offset: 0, format: AttributeFormat::Float32x3 },
            AttributeDesc { shader_location: 1, offset: 12, format: AttributeFormat::Float32x2 },
            AttributeDesc { shader_location: 2, offset: 20, format: AttributeFormat::Float32x3 },
        ]
    }

    proof fn lemma_words_fill_stride(self)
    {
        lemma_textured_attribute_sizes();
    }

    fn words(&self) -> (ws: Vec<u32>)
    {
        let mut ws: Vec<u32> = Vec::new();
        ws.push(self.position.x);
        ws.push(self.position.y);
        ws.push(self.position.z);
        ws.push(self.tex_coord.u);
        ws.push(self.tex_coord.v);
        ws.push(self.color.r);
        ws.push(self.color.g);
        ws.push(self.color.b);
        proof {
            assert(ws@ =~= self.spec_words());
        }
        ws
    }

    fn desc() -> (layout: VertexLayout)
    {
        let mut attributes: Vec<AttributeDesc> = Vec::new();
        attributes.push(
            AttributeDesc { shader_location: 0, offset: 0, format: AttributeFormat::Float32x3 },
        );
        attributes.push(
            AttributeDesc { shader_location: 1, offset: 12, format: AttributeFormat::Float32x2 },
        );
        attributes.push(
            AttributeDesc { shader_location: 2, offset: 20, format: AttributeFormat::Float32x3 },
        );
        let layout = VertexLayout { array_stride: 32, attributes };
        proof {
            assert(layout.attributes@ =~= Self::spec_attributes());
            lemma_textured_attribute_sizes();
            lemma_textured_layout_packed(layout);
        }
        layout
    }
}

/// Byte sizes of the prefixes of the flat record's attribute list.
pub proof fn lemma_flat_attribute_sizes()
    ensures
        size_of_attributes(VertexFlat::spec_attributes().take(0)) == 0,
        size_of_attributes(VertexFlat::spec_attributes().take(1)) == 12,
        size_of_attributes(VertexFlat::spec_attributes()) == 24,
{
    let attrs = VertexFlat::spec_attributes();
    assert(attrs.take(0) =~= Seq::<AttributeDesc>::empty());
    assert(size_of_attributes(Seq::<AttributeDesc>::empty()) == 0);
    assert(seq![attrs[1]].skip(1) =~= Seq::<AttributeDesc>::empty());
    assert(size_of_attributes(seq![attrs[1]]) == 12);
    assert(attrs.take(1) =~= seq![attrs[0]]);
    assert(seq![attrs[0]].skip(1) =~= Seq::<AttributeDesc>::empty());
    assert(size_of_attributes(attrs.take(1)) == 12);
    assert(attrs.skip(1) =~= seq![attrs[1]]);
    assert(size_of_attributes(attrs) == 24);
}

/// Byte sizes of the prefixes of the textured record's attribute list.
pub proof fn lemma_textured_attribute_sizes()
    ensures
        size_of_attributes(VertexTextured::spec_attributes().take(0)) == 0,
        size_of_attributes(VertexTextured::spec_attributes().take(1)) == 12,
        size_of_attributes(VertexTextured::spec_attributes().take(2)) == 20,
        size_of_attributes(VertexTextured::spec_attributes()) == 32,
{
    let attrs = VertexTextured::spec_attributes();
    assert(attrs.take(0) =~= Seq::<AttributeDesc>::empty());
    assert(size_of_attributes(Seq::<AttributeDesc>::empty()) == 0);
    assert(seq![attrs[2]].skip(1) =~= Seq::<AttributeDesc>::empty());
    assert(size_of_attributes(seq![attrs[2]]) == 12);
    assert(seq![attrs[1], attrs[2]].skip(1) =~= seq![attrs[2]]);
    assert(size_of_attributes(seq![attrs[1], attrs[2]]) == 20);
    assert(seq![attrs[1]].skip(1) =~= Seq::<AttributeDesc>::empty());
    assert(size_of_attributes(seq![attrs[1]]) == 8);
    assert(attrs.take(1) =~= seq![attrs[0]]);
    assert(seq![attrs[0]].skip(1) =~= Seq::<AttributeDesc>::empty());
    assert(size_of_attributes(attrs.take(1)) == 12);
    assert(attrs.take(2) =~= seq![attrs[0], attrs[1]]);
    assert(seq![attrs[0], attrs[1]].skip(1) =~= seq![attrs[1]]);
    assert(size_of_attributes(attrs.take(2)) == 20);
    assert(attrs.skip(1) =~= seq![attrs[1], attrs[2]]);
    assert(size_of_attributes(attrs) == 32);
}

proof fn lemma_flat_layout_packed(layout: VertexLayout)
    requires
        layout.attributes@ == VertexFlat::spec_attributes(),
        layout.array_stride == 24,
    ensures
        layout.packed(),
{
    lemma_flat_attribute_sizes();
    assert forall|i: int| 0 <= i < layout.attributes@.len() implies #[trigger] layout.attributes@[i].offset
        == size_of_attributes(layout.attributes@.take(i)) by {
        if i == 0 {
            assert(layout.attributes@[0].offset == 0);
        } else {
            assert(layout.attributes@[1].offset == 12);
        }
    }
    assert forall|i: int| 0 <= i < layout.attributes@.len() implies #[trigger] layout.attributes@[i].shader_location
        == i by {
        if i == 0 {
        } else {
            assert(layout.attributes@[1].shader_location == 1);
        }
    }
}

proof fn lemma_textured_layout_packed(layout: VertexLayout)
    requires
        layout.attributes@ == VertexTextured::spec_attributes(),
        layout.array_stride == 32,
    ensures
        layout.packed(),
{
    lemma_textured_attribute_sizes();
    assert forall|i: int| 0 <= i < layout.attributes@.len() implies #[trigger] layout.attributes@[i].offset
        == size_of_attributes(layout.attributes@.take(i)) by {
        if i == 0 {
            assert(layout.attributes@[0].offset == 0);
        } else if i == 1 {
            assert(layout.attributes@[1].offset == 12);
        } else {
            assert(layout.attributes@[2].offset == 20);
        }
    }
    assert forall|i: int| 0 <= i < layout.attributes@.len() implies #[trigger] layout.attributes@[i].shader_location
        == i by {
        if i == 0 {
        } else if i == 1 {
            assert(layout.attributes@[1].shader_location == 1);
        } else {
            assert(layout.attributes@[2].shader_location == 2);
        }
    }
}

} // verus!
