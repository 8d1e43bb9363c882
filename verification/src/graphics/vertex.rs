use vstd::prelude::*;

verus! {

/// The format of one attribute of a vertex: so many real numbers in single
/// precision.
#[derive(Debug, Clone, Copy, PartialEq, Eq, Hash, Structural)]
pub enum VertexFormat {
    Float2,
    Float3,
}

impl VertexFormat {
    /// The number of bytes that an attribute of this format takes.
    pub open spec fn bytes(self) -> nat {
        match self {
            VertexFormat::Float2 => 8,
            VertexFormat::Float3 => 12,
        }
    }

    /// The number of bytes that an attribute of this format takes.
    pub fn size(self) -> (size: u64)
        ensures
            size == self.bytes(),
    {
        match self {
            VertexFormat::Float2 => 8,
            VertexFormat::Float3 => 12,
        }
    }
}

/// One attribute of a vertex: where it begins in the vertex, at which
/// location the shader finds it, and its format.
#[derive(Debug, Clone, Copy, PartialEq, Eq, Hash, Structural)]
pub struct VertexAttribute {
    pub offset: u64,
    pub shader_location: u32,
    pub format: VertexFormat,
}

/// How the vertices lie in a vertex buffer: the distance in bytes from one
/// vertex to the next, and the attributes of a vertex. The buffer is
/// stepped through by vertex.
#[derive(Debug, PartialEq, Eq)]
pub struct VertexBufferDescriptor {
    pub stride: u64,
    pub attributes: Vec<VertexAttribute>,
}

/// What a [`VertexBufferDescriptor`] holds, as a mathematical value.
pub struct VertexBufferDescriptorView {
    pub stride: u64,
    pub attributes: Seq<VertexAttribute>,
}

impl View for VertexBufferDescriptor {
    type V = VertexBufferDescriptorView;

    open spec fn view(&self) -> VertexBufferDescriptorView {
        VertexBufferDescriptorView { stride: self.stride, attributes: self.attributes@ }
    }
}

/// The number of bytes that the attributes of the given formats take
/// together.
pub open spec fn packed_size(formats: Seq<VertexFormat>) -> nat
    decreases formats.len(),
{
    if formats.len() == 0 {
        0
    } else {
        packed_size(formats.drop_last()) + formats.last().bytes()
    }
}

/// The layout of vertices whose attributes have the given formats and lie
/// one after the other without gaps: the attribute `i` begins where the
/// attributes before it end, the shader finds it at the location `i`, and
/// the stride is the size of all attributes together.
pub open spec fn packed_layout(formats: Seq<VertexFormat>) -> VertexBufferDescriptorView {
    VertexBufferDescriptorView {
        stride: packed_size(formats) as u64,
        attributes: Seq::new(
            formats.len(),
            |i: int|
                VertexAttribute {
                    offset: packed_size(formats.take(i)) as u64,
                    shader_location: i as u32,
                    format: formats[i],
                },
        ),
    }
}

/// An attribute takes at most twelve bytes, so a list of them takes at most
/// twelve times its length.
pub proof fn lemma_packed_size_bound(formats: Seq<VertexFormat>)
    ensures
        packed_size(formats) <= 12 * formats.len(),
    decreases formats.len(),
{
    if formats.len() > 0 {
        lemma_packed_size_bound(formats.drop_last());
    }
}

/// Lays out vertices whose attributes have the given formats, one after the
/// other without gaps.
///
/// The shader locations are numbers of 32 bits, so there can be no more
/// attributes than such a number counts.
pub fn describe(formats: &Vec<VertexFormat>) -> (descriptor: VertexBufferDescriptor)
    requires
        formats@.len() <= u32::MAX,
    ensures
        descriptor@ == packed_layout(formats@),
        descriptor@.stride == packed_size(formats@),
{
    let mut attributes: Vec<VertexAttribute> = Vec::new();
    let mut offset: u64 = 0;
    let mut i: usize = 0;
    assert(formats@.take(0) =~= Seq::empty());
    while i < formats.len()
        invariant
            i <= formats.len(),
            formats@.len() <= u32::MAX,
            offset == packed_size(formats@.take(i as int)),
            attributes@.len() == i,
            forall|j: int|
                0 <= j < i ==> attributes@[j] == packed_layout(formats@).attributes[j],
        decreases formats.len() - i,
    {
        let format = formats[i];
        proof {
            lemma_packed_size_bound(formats@.take(i as int));
            assert(formats@.take(i + 1).drop_last() =~= formats@.take(i as int));
        }
        attributes.push(VertexAttribute { offset, shader_location: i as u32, format });
        offset = offset + format.size();
        i += 1;
    }
    assert(formats@.take(i as int) =~= formats@);
    assert(attributes@ =~= packed_layout(formats@).attributes);
    VertexBufferDescriptor { stride: offset, attributes }
}

/// The formats of a vertex with a position and a color, three numbers each.
pub open spec fn colored_vertex() -> Seq<VertexFormat> {
    seq![VertexFormat::Float3, VertexFormat::Float3]
}

/// The formats of a vertex with a position of three numbers and texture
/// coordinates of two.
pub open spec fn textured_vertex() -> Seq<VertexFormat> {
    seq![VertexFormat::Float3, VertexFormat::Float2]
}

/// The layout of a vertex buffer that holds positions and colors.
pub fn vertex_buffer_descriptor() -> (descriptor: VertexBufferDescriptor)
    ensures
        descriptor@ == packed_layout(colored_vertex()),
        descriptor@.stride == 24,
        descriptor@.attributes == seq![
            VertexAttribute { offset: 0, shader_location: 0, format: VertexFormat::Float3 },
            VertexAttribute { offset: 12, shader_location: 1, format: VertexFormat::Float3 },
        ],
{
    let mut formats: Vec<VertexFormat> = Vec::new();
    formats.push(VertexFormat::Float3);
    formats.push(VertexFormat::Float3);
    proof {
        assert(formats@ =~= colored_vertex());
        lemma_two_attributes(VertexFormat::Float3, VertexFormat::Float3);
    }
    describe(&formats)
}

/// The layout of a vertex buffer that holds positions and texture
/// coordinates.
pub fn desc() -> (descriptor: VertexBufferDescriptor)
    ensures
        descriptor@ == packed_layout(textured_vertex()),
        descriptor@.stride == 20,
        descriptor@.attributes == seq![
            VertexAttribute { offset: 0, shader_location: 0, format: VertexFormat::Float3 },
            VertexAttribute { offset: 12, shader_location: 1, format: VertexFormat::Float2 },
        ],
{
    let mut formats: Vec<VertexFormat> = Vec::new();
    formats.push(VertexFormat::Float3);
    formats.push(VertexFormat::Float2);
    proof {
        assert(formats@ =~= textured_vertex());
        lemma_two_attributes(VertexFormat::Float3, VertexFormat::Float2);
    }
    describe(&formats)
}

/// The layout of a vertex of two attributes: the second begins where the
/// first ends, and the stride is the size of both.
pub proof fn lemma_two_attributes(first: VertexFormat, second: VertexFormat)
    ensures
        packed_layout(seq![first, second]).stride == first.bytes() + second.bytes(),
        packed_layout(seq![first, second]).attributes == seq![
            VertexAttribute { offset: 0, shader_location: 0, format: first },
            VertexAttribute { offset: first.bytes() as u64, shader_location: 1, format: second },
        ],
{
    let formats = seq![first, second];
    assert(formats.drop_last() =~= seq![first]);
    assert(formats.drop_last().drop_last() =~= Seq::<VertexFormat>::empty());
    assert(seq![first].drop_last() =~= Seq::<VertexFormat>::empty());
    assert(packed_size(seq![first].drop_last()) == 0);
    assert(seq![first].last() == first);
    assert(packed_size(seq![first]) == first.bytes());
    assert(packed_size(formats) == first.bytes() + second.bytes());
    assert(formats.take(0) =~= Seq::<VertexFormat>::empty());
    assert(formats.take(1) =~= seq![first]);
    assert(packed_layout(formats).attributes =~= seq![
        VertexAttribute { offset: 0, shader_location: 0, format: first },
        VertexAttribute { offset: first.bytes() as u64, shader_location: 1, format: second },
    ]);
}

} // verus!
