//! Shapes as indexed vertex batches.
//!
//! Coordinates and colors are 32-bit floats that this library never computes
//! with: each component is held as its IEEE-754 bit pattern (`f32::to_bits`),
//! which is also exactly what reaches device memory.
use vstd::prelude::*;

verus! {

/// Two float components, as bit patterns.
#[derive(Debug, Clone, Copy, PartialEq, Eq, Structural)]
pub struct Vec2 {
    pub x: u32,
    pub y: u32,
}

impl Vec2 {
    pub fn new(x: u32, y: u32) -> (r: Vec2)
        ensures
            r == (Vec2 { x, y }),
    {
        Vec2 { x, y }
    }
}

/// Four float components, as bit patterns.
#[derive(Debug, Clone, Copy, PartialEq, Eq, Structural)]
pub struct Vec4 {
    pub x: u32,
    pub y: u32,
    pub z: u32,
    pub w: u32,
}

impl Vec4 {
    pub fn new(x: u32, y: u32, z: u32, w: u32) -> (r: Vec4)
        ensures
            r == (Vec4 { x, y, z, w }),
    {
        Vec4 { x, y, z, w }
    }
}

/// One shape corner: a position and a color.
#[derive(Debug, Clone, Copy, PartialEq, Eq, Structural)]
pub struct Vertex {
    pub pos: Vec4,
    pub color: Vec4,
}

/// Size in bytes of one vertex in device memory: eight 32-bit components.
pub const VERTEX_SIZE: usize = 32;

/// Size in bytes of one index in device memory.
pub const INDEX_SIZE: usize = 4;

/// One shape's vertices and the indices that draw them.
#[derive(Debug, Clone)]
pub struct IndexBuffer {
    pub data: Vec<Vertex>,
    pub indices: Vec<u32>,
}

/// What a batch holds.
pub struct BatchView {
    pub vertices: Seq<Vertex>,
    pub indices: Seq<u32>,
}

impl View for IndexBuffer {
    type V = BatchView;

    open spec fn view(&self) -> BatchView {
        BatchView { vertices: self.data@, indices: self.indices@ }
    }
}

/// The batch of a triangle: three corners drawn as `0, 1, 2`.
pub open spec fn triangle_batch(vert: Seq<Vec4>, color: Seq<Vec4>) -> BatchView {
    BatchView {
        vertices: seq![
            Vertex { pos: vert[0], color: color[0] },
            Vertex { pos: vert[1], color: color[1] },
            Vertex { pos: vert[2], color: color[2] },
        ],
        indices: seq![0u32, 1u32, 2u32],
    }
}

/// The batch of a rectangle: four corners drawn as two triangles that share
/// the edge from corner 0 to corner 1, `0, 1, 2` and `1, 0, 3`.
pub open spec fn rectangle_batch(vert: Seq<Vec4>, color: Seq<Vec4>) -> BatchView {
    BatchView {
        vertices: seq![
            Vertex { pos: vert[0], color: color[0] },
            Vertex { pos: vert[1], color: color[1] },
            Vertex { pos: vert[2], color: color[2] },
            Vertex { pos: vert[3], color: color[3] },
        ],
        indices: seq![0u32, 1u32, 2u32, 1u32, 0u32, 3u32],
    }
}

/// Number of vertices over all batches.
pub open spec fn total_vertices(batches: Seq<BatchView>) -> nat
    decreases batches.len(),
{
    if batches.len() == 0 {
        0
    } else {
        total_vertices(batches.drop_last()) + batches.last().vertices.len()
    }
}

/// A prefix never holds more vertices than the whole.
pub proof fn lemma_total_vertices_prefix(batches: Seq<BatchView>, i: int)
    requires
        0 <= i <= batches.len(),
    ensures
        total_vertices(batches.take(i)) <= total_vertices(batches),
    decreases batches.len(),
{
    if i < batches.len() {
        assert(batches.drop_last().take(i) =~= batches.take(i));
        lemma_total_vertices_prefix(batches.drop_last(), i);
    } else {
        assert(batches.take(i) =~= batches);
    }
}

/// The four little-endian bytes of a 32-bit word.
pub open spec fn le_word(w: u32) -> Seq<u8> {
    seq![
        (w % 256) as u8,
        ((w / 256) % 256) as u8,
        ((w / 65536) % 256) as u8,
        (w / 16777216) as u8,
    ]
}

/// Device-memory image of a sequence of words.
pub open spec fn words_bytes(ws: Seq<u32>) -> Seq<u8>
    decreases ws.len(),
{
    if ws.len() == 0 {
        seq![]
    } else {
        words_bytes(ws.drop_last()) + le_word(ws.last())
    }
}

/// Device-memory image of one vertex: position, then color, component by component.
pub open spec fn vertex_le(v: Vertex) -> Seq<u8> {
    le_word(v.pos.x) + le_word(v.pos.y) + le_word(v.pos.z) + le_word(v.pos.w)
        + le_word(v.color.x) + le_word(v.color.y) + le_word(v.color.z) + le_word(v.color.w)
}

/// Device-memory image of a sequence of vertices.
pub open spec fn vertices_bytes(vs: Seq<Vertex>) -> Seq<u8>
    decreases vs.len(),
{
    if vs.len() == 0 {
        seq![]
    } else {
        vertices_bytes(vs.drop_last()) + vertex_le(vs.last())
    }
}

/// Four bytes per word.
pub proof fn lemma_words_bytes_len(ws: Seq<u32>)
    ensures
        words_bytes(ws).len() == 4 * ws.len(),
    decreases ws.len(),
{
    if ws.len() > 0 {
        lemma_words_bytes_len(ws.drop_last());
    }
}

/// Thirty-two bytes per vertex.
pub proof fn lemma_vertices_bytes_len(vs: Seq<Vertex>)
    ensures
        vertices_bytes(vs).len() == 32 * vs.len(),
    decreases vs.len(),
{
    if vs.len() > 0 {
        lemma_vertices_bytes_len(vs.drop_last());
    }
}

/// Appends the little-endian bytes of `w`.
fn push_word(out: &mut Vec<u8>, w: u32)
    ensures
        final(out)@ == old(out)@ + le_word(w),
{
    out.push((w % 256) as u8);
    out.push(((w / 256) % 256) as u8);
    out.push(((w / 65536) % 256) as u8);
    out.push((w / 16777216) as u8);
}

impl IndexBuffer {
    /// The bytes that a vertex buffer holding this batch's vertices receives.
    pub fn vertex_bytes(&self) -> (r: Vec<u8>)
        requires
            self.data@.len() * 32 <= usize::MAX,
        ensures
            r@ == vertices_bytes(self.data@),
            r@.len() == VERTEX_SIZE * self.data@.len(),
    {
        let mut out: Vec<u8> = Vec::new();
        let mut i: usize = 0;
        while i < self.data.len()
            invariant
                i <= self.data@.len(),
                out@ == vertices_bytes(self.data@.take(i as int)),
            decreases self.data@.len() - i,
        {
            let v = self.data[i];
            push_word(&mut out, v.pos.x);
            push_word(&mut out, v.pos.y);
            push_word(&mut out, v.pos.z);
            push_word(&mut out, v.pos.w);
            push_word(&mut out, v.color.x);
            push_word(&mut out, v.color.y);
            push_word(&mut out, v.color.z);
            push_word(&mut out, v.color.w);
            proof {
                let t = self.data@.take(i as int + 1);
                assert(t.drop_last() =~= self.data@.take(i as int));
                assert(out@ =~= vertices_bytes(t));
            }
            i = i + 1;
        }
        proof {
            assert(self.data@.take(i as int) =~= self.data@);
            lemma_vertices_bytes_len(self.data@);
        }
        out
    }

    /// The bytes that an index buffer holding this batch's indices receives.
    pub fn index_bytes(&self) -> (r: Vec<u8>)
        requires
            self.indices@.len() * 4 <= usize::MAX,
        ensures
            r@ == words_bytes(self.indices@),
            r@.len() == INDEX_SIZE * self.indices@.len(),
    {
        let mut out: Vec<u8> = Vec::new();
        let mut i: usize = 0;
        while i < self.indices.len()
            invariant
                i <= self.indices@.len(),
                out@ == words_bytes(self.indices@.take(i as int)),
            decreases self.indices@.len() - i,
        {
            push_word(&mut out, self.indices[i]);
            proof {
                let t = self.indices@.take(i as int + 1);
                assert(t.drop_last() =~= self.indices@.take(i as int));
            }
            i = i + 1;
        }
        proof {
            assert(self.indices@.take(i as int) =~= self.indices@);
            lemma_words_bytes_len(self.indices@);
        }
        out
    }
}

/// Complex shapes built from triangles and rectangles, one batch per shape,
/// in the order they were added.
#[derive(Debug, Clone)]
pub struct PathGeometry {
    index_buffer: Vec<IndexBuffer>,
}

impl View for PathGeometry {
    type V = Seq<BatchView>;

    closed spec fn view(&self) -> Seq<BatchView> {
        self.index_buffer@.map_values(|b: IndexBuffer| b@)
    }
}

impl PathGeometry {
    /// The vertex count fits in `usize`, and each batch is one shape: at most
    /// four vertices and six indices.
    pub open spec fn wf(&self) -> bool {
        &&& total_vertices(self@) <= usize::MAX
        &&& forall|i: int|
            0 <= i < self@.len() ==> #[trigger] self@[i].vertices.len() <= 4
                && self@[i].indices.len() <= 6
    }

    /// An empty geometry.
    pub fn new() -> (r: PathGeometry)
        ensures
            r@ == Seq::<BatchView>::empty(),
            r.wf(),
    {
        let r = PathGeometry { index_buffer: Vec::new() };
        assert(r@ =~= Seq::<BatchView>::empty());
        r
    }

    /// Adds a triangle.
    pub fn triangle(&mut self, vert: [Vec4; 3], color: [Vec4; 3])
        requires
            old(self).wf(),
            total_vertices(old(self)@) + 3 <= usize::MAX,
        ensures
            final(self)@ == old(self)@.push(triangle_batch(vert@, color@)),
            total_vertices(final(self)@) == total_vertices(old(self)@) + 3,
            final(self).wf(),
    {
        let batch = IndexBuffer {
            data: vec![
                Vertex { pos: vert[0], color: color[0] },
                Vertex { pos: vert[1], color: color[1] },
                Vertex { pos: vert[2], color: color[2] },
            ],
            indices: vec![0, 1, 2],
        };
        proof {
            assert(batch@.vertices =~= triangle_batch(vert@, color@).vertices);
            assert(batch@.indices =~= triangle_batch(vert@, color@).indices);
        }
        self.index_buffer.push(batch);
        proof {
            assert(self@ =~= old(self)@.push(triangle_batch(vert@, color@)));
            assert(self@.drop_last() =~= old(self)@);
        }
    }

    /// Adds a rectangle.
    pub fn rectangle(&mut self, vert: [Vec4; 4], color: [Vec4; 4])
        requires
            old(self).wf(),
            total_vertices(old(self)@) + 4 <= usize::MAX,
        ensures
            final(self)@ == old(self)@.push(rectangle_batch(vert@, color@)),
            total_vertices(final(self)@) == total_vertices(old(self)@) + 4,
            final(self).wf(),
    {
        let batch = IndexBuffer {
            data: vec![
                Vertex { pos: vert[0], color: color[0] },
                Vertex { pos: vert[1], color: color[1] },
                Vertex { pos: vert[2], color: color[2] },
                Vertex { pos: vert[3], color: color[3] },
            ],
            indices: vec![0, 1, 2, 1, 0, 3],
        };
        proof {
            assert(batch@.vertices =~= rectangle_batch(vert@, color@).vertices);
            assert(batch@.indices =~= rectangle_batch(vert@, color@).indices);
        }
        self.index_buffer.push(batch);
        proof {
            assert(self@ =~= old(self)@.push(rectangle_batch(vert@, color@)));
            assert(self@.drop_last() =~= old(self)@);
        }
    }

    /// Number of vertices over all batches.
    pub fn size(&self) -> (r: usize)
        requires
            self.wf(),
        ensures
            r == total_vertices(self@),
    {
        let mut size: usize = 0;
        let mut i: usize = 0;
        while i < self.index_buffer.len()
            invariant
                i <= self.index_buffer@.len(),
                self.wf(),
                size == total_vertices(self@.take(i as int)),
            decreases self.index_buffer@.len() - i,
        {
            proof {
                let t = self@.take(i as int + 1);
                assert(t.drop_last() =~= self@.take(i as int));
                lemma_total_vertices_prefix(self@, i as int + 1);
            }
            size = size + self.index_buffer[i].data.len();
            i = i + 1;
        }
        proof {
            assert(self@.take(i as int) =~= self@);
        }
        size
    }

    /// The batches, in the order the shapes were added.
    pub fn batches(&self) -> (r: &Vec<IndexBuffer>)
        ensures
            r@.map_values(|b: IndexBuffer| b@) == self@,
    {
        &self.index_buffer
    }
}

/// One call that adds a shape to a geometry.
pub enum ShapeCall {
    Triangle { vert: Seq<Vec4>, color: Seq<Vec4> },
    Rectangle { vert: Seq<Vec4>, color: Seq<Vec4> },
}

/// The batch that a call adds.
pub open spec fn call_batch(c: ShapeCall) -> BatchView {
    match c {
        ShapeCall::Triangle { vert, color } => triangle_batch(vert, color),
        ShapeCall::Rectangle { vert, color } => rectangle_batch(vert, color),
    }
}

/// The batches of a geometry built from empty by `calls`, in order.
pub open spec fn built(calls: Seq<ShapeCall>) -> Seq<BatchView>
    decreases calls.len(),
{
    if calls.len() == 0 {
        seq![]
    } else {
        built(calls.drop_last()).push(call_batch(calls.last()))
    }
}

/// How many of `calls` add rectangles.
pub open spec fn rectangle_calls(calls: Seq<ShapeCall>) -> nat
    decreases calls.len(),
{
    if calls.len() == 0 {
        0
    } else {
        rectangle_calls(calls.drop_last()) + if calls.last() is Rectangle {
            1nat
        } else {
            0nat
        }
    }
}

/// How many of `calls` add triangles.
pub open spec fn triangle_calls(calls: Seq<ShapeCall>) -> nat
    decreases calls.len(),
{
    if calls.len() == 0 {
        0
    } else {
        triangle_calls(calls.drop_last()) + if calls.last() is Triangle {
            1nat
        } else {
            0nat
        }
    }
}

/// Whatever sequence of shapes is added to an empty geometry, its size is four
/// per rectangle plus three per triangle.
pub proof fn lemma_size_counts_shapes(calls: Seq<ShapeCall>)
    ensures
        total_vertices(built(calls)) == 4 * rectangle_calls(calls) + 3 * triangle_calls(calls),
    decreases calls.len(),
{
    if calls.len() > 0 {
        lemma_size_counts_shapes(calls.drop_last());
        assert(built(calls).drop_last() =~= built(calls.drop_last()));
    }
}

/// A line segment.
#[derive(Debug, Clone, Copy)]
pub struct Line {
    start: Vec2,
    end: Vec2,
}

impl Line {
    pub fn new(start: Vec2, end: Vec2) -> (r: Line)
        ensures
            r.start_spec() == start,
            r.end_spec() == end,
    {
        Line { start, end }
    }

    pub closed spec fn start_spec(&self) -> Vec2 {
        self.start
    }

    pub closed spec fn end_spec(&self) -> Vec2 {
        self.end
    }

    /// The starting point.
    pub fn start(&self) -> (r: Vec2)
        ensures
            r == self.start_spec(),
    {
        self.start
    }

    /// The ending point.
    pub fn end(&self) -> (r: Vec2)
        ensures
            r == self.end_spec(),
    {
        self.end
    }
}

} // verus!
