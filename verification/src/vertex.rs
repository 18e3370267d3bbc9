//! The two vertex shapes and the buffer layouts the pipelines read them
//! with.
//!
//! Every component of a vertex is held as the bit pattern of a 32-bit
//! IEEE 754 number: batching moves components, it never computes on them.

use vstd::prelude::*;

verus! {

/// Bit pattern of the number one.
pub const ONE: u32 = 0x3f80_0000;

/// Input of the vertex shader of the colored pipelines.
#[derive(Clone, Copy, Debug, PartialEq, Eq)]
pub struct ColoredPipelineInput {
    pub position: [u32; 2],
    pub color: [u32; 4],
}

/// Input of the vertex shader of the textured pipelines.
#[derive(Clone, Copy, Debug, PartialEq, Eq)]
pub struct TexturedPipelineInput {
    pub xy: [u32; 2],
    pub uv: [u32; 2],
    pub color: [u32; 4],
}

/// Component type and count of a vertex attribute.
#[derive(Clone, Copy, Debug, PartialEq, Eq, Structural)]
pub enum VertexFormat {
    Float32x2,
    Float32x4,
}

/// One attribute of a vertex inside a vertex buffer.
#[derive(Clone, Copy, Debug, PartialEq, Eq, Structural)]
pub struct VertexAttribute {
    /// Byte offset of the attribute from the start of the vertex.
    pub offset: u64,
    /// Location the vertex shader reads the attribute at.
    pub shader_location: u32,
    pub format: VertexFormat,
}

/// Whether a buffer is stepped through once a vertex or once an instance.
#[derive(Clone, Copy, Debug, PartialEq, Eq, Structural)]
pub enum VertexStepMode {
    Vertex,
    Instance,
}

/// How a vertex buffer is cut into vertices and attributes.
#[derive(Debug, PartialEq, Eq)]
pub struct VertexBufferLayout {
    /// Bytes from one vertex to the next.
    pub array_stride: u64,
    /// How the buffer is stepped through.
    pub step_mode: VertexStepMode,
    pub attributes: Vec<VertexAttribute>,
}

impl VertexFormat {
    /// Size of an attribute of this format in bytes.
    pub open spec fn spec_size(self) -> u64 {
        match self {
            VertexFormat::Float32x2 => 8,
            VertexFormat::Float32x4 => 16,
        }
    }

    /// Size of an attribute of this format in bytes.
    #[verifier::when_used_as_spec(spec_size)]
    pub fn size(self) -> (n: u64)
        ensures
            n == self.spec_size(),
    {
        match self {
            VertexFormat::Float32x2 => 8,
            VertexFormat::Float32x4 => 16,
        }
    }
}

impl VertexAttribute {
    /// The attribute of `format` at `offset`, read at `shader_location`.
    pub open spec fn spec_new(offset: u64, shader_location: u32, format: VertexFormat) -> Self {
        VertexAttribute { offset, shader_location, format }
    }
}

/// Whether `attributes` fill a vertex of `stride` bytes without gap or
/// overlap, in order, with the shader locations counting up from zero.
pub open spec fn packed(stride: u64, attributes: Seq<VertexAttribute>) -> bool {
    &&& attributes.len() > 0
    &&& attributes[0].offset == 0
    &&& forall|i: int|
        0 <= i < attributes.len() ==> (#[trigger] attributes[i]).shader_location == i
    &&& forall|i: int, j: int|
        0 <= i && j == i + 1 && j < attributes.len() ==> (#[trigger] attributes[i]).offset
            + attributes[i].format.spec_size() == (#[trigger] attributes[j]).offset
    &&& attributes.last().offset + attributes.last().format.spec_size() == stride
}

impl ColoredPipelineInput {
    /// Position at byte 0, color at byte 8; 24 bytes a vertex.
    pub open spec fn layout() -> (u64, Seq<VertexAttribute>) {
        (
            24,
            seq![
                VertexAttribute::spec_new(0, 0, VertexFormat::Float32x2),
                VertexAttribute::spec_new(8, 1, VertexFormat::Float32x4),
            ],
        )
    }

    /// The layout of a buffer of colored vertices, stepped through once a
    /// vertex.
    pub fn desc() -> (r: VertexBufferLayout)
        ensures
            (r.array_stride, r.attributes@) == Self::layout(),
            r.step_mode == VertexStepMode::Vertex,
            packed(r.array_stride, r.attributes@),
    {
        let mut attributes: Vec<VertexAttribute> = Vec::new();
        attributes.push(
            VertexAttribute { offset: 0, shader_location: 0, format: VertexFormat::Float32x2 },
        );
        attributes.push(
            VertexAttribute { offset: 8, shader_location: 1, format: VertexFormat::Float32x4 },
        );
        assert(attributes@ =~= Self::layout().1);
        VertexBufferLayout { array_stride: 24, step_mode: VertexStepMode::Vertex, attributes }
    }
}

impl TexturedPipelineInput {
    /// Position at byte 0, texture coordinate at byte 8, color at byte 16;
    /// 32 bytes a vertex.
    pub open spec fn layout() -> (u64, Seq<VertexAttribute>) {
        (
            32,
            seq![
                VertexAttribute::spec_new(0, 0, VertexFormat::Float32x2),
                VertexAttribute::spec_new(8, 1, VertexFormat::Float32x2),
                VertexAttribute::spec_new(16, 2, VertexFormat::Float32x4),
            ],
        )
    }

    /// The layout of a buffer of textured vertices, stepped through once
    /// a vertex.
    pub fn desc() -> (r: VertexBufferLayout)
        ensures
            (r.array_stride, r.attributes@) == Self::layout(),
            r.step_mode == VertexStepMode::Vertex,
            packed(r.array_stride, r.attributes@),
    {
        let mut attributes: Vec<VertexAttribute> = Vec::new();
        attributes.push(
            VertexAttribute { offset: 0, shader_location: 0, format: VertexFormat::Float32x2 },
        );
        attributes.push(
            VertexAttribute { offset: 8, shader_location: 1, format: VertexFormat::Float32x2 },
        );
        attributes.push(
            VertexAttribute { offset: 16, shader_location: 2, format: VertexFormat::Float32x4 },
        );
        assert(attributes@ =~= Self::layout().1);
        VertexBufferLayout { array_stride: 32, step_mode: VertexStepMode::Vertex, attributes }
    }
}

/// The smallest of three lengths.
pub open spec fn min3(a: nat, b: nat, c: nat) -> nat {
    if a <= b && a <= c {
        a
    } else if b <= c {
        b
    } else {
        c
    }
}

/// One colored vertex per position, all of one color.
pub open spec fn colored_vertices(positions: Seq<[u32; 2]>, color: [u32; 4]) -> Seq<
    ColoredPipelineInput,
> {
    Seq::new(positions.len(), |i: int| ColoredPipelineInput { position: positions[i], color })
}

/// One colored vertex per pair of a position and a color; what is left
/// over of the longer list is dropped.
pub open spec fn colored_vertices_c(positions: Seq<[u32; 2]>, colors: Seq<[u32; 4]>) -> Seq<
    ColoredPipelineInput,
> {
    Seq::new(
        min3(positions.len(), colors.len(), colors.len()),
        |i: int| ColoredPipelineInput { position: positions[i], color: colors[i] },
    )
}

/// One textured vertex per pair of a position and a texture coordinate,
/// all of one color; what is left over of the longer list is dropped.
pub open spec fn textured_vertices(xys: Seq<[u32; 2]>, uvs: Seq<[u32; 2]>, color: [u32; 4]) -> Seq<
    TexturedPipelineInput,
> {
    Seq::new(
        min3(xys.len(), uvs.len(), uvs.len()),
        |i: int| TexturedPipelineInput { xy: xys[i], uv: uvs[i], color },
    )
}

/// One textured vertex per triple of a position, a texture coordinate and
/// a color; what is left over of the longer lists is dropped.
pub open spec fn textured_vertices_c(
    xys: Seq<[u32; 2]>,
    uvs: Seq<[u32; 2]>,
    colors: Seq<[u32; 4]>,
) -> Seq<TexturedPipelineInput> {
    Seq::new(
        min3(xys.len(), uvs.len(), colors.len()),
        |i: int| TexturedPipelineInput { xy: xys[i], uv: uvs[i], color: colors[i] },
    )
}

/// The smallest of three lengths.
pub fn shortest(a: usize, b: usize, c: usize) -> (n: usize)
    ensures
        n == min3(a as nat, b as nat, c as nat),
{
    if a <= b && a <= c {
        a
    } else if b <= c {
        b
    } else {
        c
    }
}

impl ColoredPipelineInput {
    /// The six words of the vertex in buffer order: position, then color.
    pub open spec fn words(self) -> Seq<u32> {
        seq![
            self.position[0],
            self.position[1],
            self.color[0],
            self.color[1],
            self.color[2],
            self.color[3],
        ]
    }
}

impl TexturedPipelineInput {
    /// The eight words of the vertex in buffer order: position, texture
    /// coordinate, then color.
    pub open spec fn words(self) -> Seq<u32> {
        seq![
            self.xy[0],
            self.xy[1],
            self.uv[0],
            self.uv[1],
            self.color[0],
            self.color[1],
            self.color[2],
            self.color[3],
        ]
    }
}

/// The words of colored vertices, vertex after vertex.
pub open spec fn colored_words(vertices: Seq<ColoredPipelineInput>) -> Seq<u32> {
    Seq::new(6 * vertices.len(), |i: int| vertices[i / 6].words()[i % 6])
}

/// The words of textured vertices, vertex after vertex.
pub open spec fn textured_words(vertices: Seq<TexturedPipelineInput>) -> Seq<u32> {
    Seq::new(8 * vertices.len(), |i: int| vertices[i / 8].words()[i % 8])
}

/// The byte at place `k` of the four bytes of `word`: counted from the
/// least significant byte if `little`, from the most significant if not.
pub open spec fn byte_of(word: u32, k: int, little: bool) -> u8 {
    let place = if little {
        k
    } else {
        3 - k
    };
    if place == 0 {
        (word % 256) as u8
    } else if place == 1 {
        ((word / 256) % 256) as u8
    } else if place == 2 {
        ((word / 65536) % 256) as u8
    } else {
        ((word / 16777216) % 256) as u8
    }
}

/// The bytes of `words`, four a word, in little-endian or in big-endian
/// order.
pub open spec fn bytes_of(words: Seq<u32>, little: bool) -> Seq<u8> {
    Seq::new(4 * words.len(), |i: int| byte_of(words[i / 4], i % 4, little))
}

/// Whether `bytes` are the bytes of `words` as a machine holds them in
/// memory: in little-endian or in big-endian order.
pub open spec fn in_memory(bytes: Seq<u8>, words: Seq<u32>) -> bool {
    bytes == bytes_of(words, true) || bytes == bytes_of(words, false)
}

/// The bytes of `words` as they lie in memory.
///
/// Not proved: this calls `cast_slice` of the `bytemuck` crate, which hands
/// out the memory of a slice as a slice of another type. The contract says
/// that the memory of 32-bit words, read as bytes, holds four bytes a word
/// in the order of the words, each word in little-endian or each in
/// big-endian order.
#[verifier::external_body]
fn cast_words(words: &[u32]) -> (bytes: Vec<u8>)
    ensures
        in_memory(bytes@, words@),
{
    bytemuck::cast_slice::<u32, u8>(words).to_vec()
}

/// The contents of a vertex buffer that holds `vertices`: their words as
/// they lie in memory, vertex after vertex.
pub fn colored_contents(vertices: &[ColoredPipelineInput]) -> (bytes: Vec<u8>)
    ensures
        in_memory(bytes@, colored_words(vertices@)),
{
    let mut words: Vec<u32> = Vec::new();
    let mut i: usize = 0;
    while i < vertices.len()
        invariant
            i <= vertices.len(),
            words@ == colored_words(vertices@.take(i as int)),
        decreases vertices.len() - i,
    {
        let v = vertices[i];
        words.push(v.position[0]);
        words.push(v.position[1]);
        words.push(v.color[0]);
        words.push(v.color[1]);
        words.push(v.color[2]);
        words.push(v.color[3]);
        i += 1;
        assert(words@ =~= colored_words(vertices@.take(i as int)));
    }
    assert(vertices@.take(i as int) =~= vertices@);
    cast_words(words.as_slice())
}

/// The contents of a vertex buffer that holds `vertices`: their words as
/// they lie in memory, vertex after vertex.
pub fn textured_contents(vertices: &[TexturedPipelineInput]) -> (bytes: Vec<u8>)
    ensures
        in_memory(bytes@, textured_words(vertices@)),
{
    let mut words: Vec<u32> = Vec::new();
    let mut i: usize = 0;
    while i < vertices.len()
        invariant
            i <= vertices.len(),
            words@ == textured_words(vertices@.take(i as int)),
        decreases vertices.len() - i,
    {
        let v = vertices[i];
        words.push(v.xy[0]);
        words.push(v.xy[1]);
        words.push(v.uv[0]);
        words.push(v.uv[1]);
        words.push(v.color[0]);
        words.push(v.color[1]);
        words.push(v.color[2]);
        words.push(v.color[3]);
        i += 1;
        assert(words@ =~= textured_words(vertices@.take(i as int)));
    }
    assert(vertices@.take(i as int) =~= vertices@);
    cast_words(words.as_slice())
}

/// The bytes of a buffer at the place of one attribute of one vertex.
pub open spec fn attribute_bytes(
    bytes: Seq<u8>,
    stride: u64,
    attribute: VertexAttribute,
    vertex: int,
) -> Seq<u8> {
    bytes.subrange(
        stride * vertex + attribute.offset,
        stride * vertex + attribute.offset + attribute.format.spec_size(),
    )
}

/// The bytes at the place of an attribute are the bytes of the words of
/// the attribute: of the `count` words from word `first` of the vertex.
proof fn lemma_attribute(
    words: Seq<u32>,
    per_vertex: int,
    i: int,
    first: int,
    count: int,
    little: bool,
)
    requires
        per_vertex > 0,
        0 <= i,
        per_vertex * (i + 1) <= words.len(),
        0 <= first,
        0 < count,
        first + count <= per_vertex,
    ensures
        bytes_of(words, little).subrange(
            4 * (per_vertex * i + first),
            4 * (per_vertex * i + first + count),
        ) == bytes_of(
            words.subrange(per_vertex * i + first, per_vertex * i + first + count),
            little,
        ),
{
    let start = per_vertex * i + first;
    assert(per_vertex * (i + 1) == per_vertex * i + per_vertex) by (nonlinear_arith);
    assert(0 <= per_vertex * i) by (nonlinear_arith)
        requires
            per_vertex > 0,
            0 <= i,
    ;
    let got = bytes_of(words, little).subrange(4 * start, 4 * (start + count));
    let want = bytes_of(words.subrange(start, start + count), little);
    assert(got.len() == want.len());
    assert forall|j: int| 0 <= j < got.len() implies #[trigger] got[j] == want[j] by {
        assert((4 * start + j) / 4 == start + j / 4 && (4 * start + j) % 4 == j % 4);
    }
    assert(got =~= want);
}

/// The contents of a buffer of colored vertices lie as the layout of
/// colored vertices says: the buffer holds one stride of bytes a vertex,
/// and at the place of each attribute of each vertex lie the bytes of
/// that attribute, first the position, then the color.
pub proof fn lemma_colored_layout(vertices: Seq<ColoredPipelineInput>, i: int, little: bool)
    requires
        0 <= i < vertices.len(),
    ensures
        ({
            let (stride, attributes) = ColoredPipelineInput::layout();
            let bytes = bytes_of(colored_words(vertices), little);
            &&& bytes.len() == stride * vertices.len()
            &&& attribute_bytes(bytes, stride, attributes[0], i) == bytes_of(
                vertices[i].position@,
                little,
            )
            &&& attribute_bytes(bytes, stride, attributes[1], i) == bytes_of(
                vertices[i].color@,
                little,
            )
        }),
{
    let words = colored_words(vertices);
    let v = vertices[i];
    assert forall|k: int| 0 <= k < 6 implies #[trigger] words[6 * i + k] == v.words()[k] by {
        assert((6 * i + k) / 6 == i && (6 * i + k) % 6 == k);
    }
    assert(words.subrange(6 * i, 6 * i + 2) =~= v.position@) by {
        assert(words[6 * i + 0] == v.words()[0]);
        assert(words[6 * i + 1] == v.words()[1]);
    }
    assert(words.subrange(6 * i + 2, 6 * i + 6) =~= v.color@) by {
        assert(words[6 * i + 2] == v.words()[2]);
        assert(words[6 * i + 3] == v.words()[3]);
        assert(words[6 * i + 4] == v.words()[4]);
        assert(words[6 * i + 5] == v.words()[5]);
    }
    lemma_attribute(words, 6, i, 0, 2, little);
    lemma_attribute(words, 6, i, 2, 4, little);
}

/// The contents of a buffer of textured vertices lie as the layout of
/// textured vertices says: the buffer holds one stride of bytes a vertex,
/// and at the place of each attribute of each vertex lie the bytes of
/// that attribute, first the position, then the texture coordinate, then
/// the color.
pub proof fn lemma_textured_layout(vertices: Seq<TexturedPipelineInput>, i: int, little: bool)
    requires
        0 <= i < vertices.len(),
    ensures
        ({
            let (stride, attributes) = TexturedPipelineInput::layout();
            let bytes = bytes_of(textured_words(vertices), little);
            &&& bytes.len() == stride * vertices.len()
            &&& attribute_bytes(bytes, stride, attributes[0], i) == bytes_of(vertices[i].xy@, little)
            &&& attribute_bytes(bytes, stride, attributes[1], i) == bytes_of(vertices[i].uv@, little)
            &&& attribute_bytes(bytes, stride, attributes[2], i) == bytes_of(
                vertices[i].color@,
                little,
            )
        }),
{
    let words = textured_words(vertices);
    let v = vertices[i];
    assert forall|k: int| 0 <= k < 8 implies #[trigger] words[8 * i + k] == v.words()[k] by {
        assert((8 * i + k) / 8 == i && (8 * i + k) % 8 == k);
    }
    assert(words.subrange(8 * i, 8 * i + 2) =~= v.xy@) by {
        assert(words[8 * i + 0] == v.words()[0]);
        assert(words[8 * i + 1] == v.words()[1]);
    }
    assert(words.subrange(8 * i + 2, 8 * i + 4) =~= v.uv@) by {
        assert(words[8 * i + 2] == v.words()[2]);
        assert(words[8 * i + 3] == v.words()[3]);
    }
    assert(words.subrange(8 * i + 4, 8 * i + 8) =~= v.color@) by {
        assert(words[8 * i + 4] == v.words()[4]);
        assert(words[8 * i + 5] == v.words()[5]);
        assert(words[8 * i + 6] == v.words()[6]);
        assert(words[8 * i + 7] == v.words()[7]);
    }
    lemma_attribute(words, 8, i, 0, 2, little);
    lemma_attribute(words, 8, i, 2, 2, little);
    lemma_attribute(words, 8, i, 4, 4, little);
}

} // verus!
