//! Compiling geometry into device buffers: one vertex buffer and one index
//! buffer per batch, in batch order.
use crate::error::{VlError, VlResult};
use crate::geometry::{vertices_bytes, words_bytes, BatchView, IndexBuffer, PathGeometry};
use crate::memory::{first_fit, BufferState, BufferUsage, Buffer, MemoryState, MemoryType};
use vstd::prelude::*;

verus! {

/// A buffer that holds `data` in memory of type `t`, flushed and unmapped.
pub open spec fn uploaded(usage: BufferUsage, data: Seq<u8>, t: u32) -> BufferState {
    BufferState {
        usage,
        size: data.len(),
        memory: Some(MemoryState { type_index: t, data }),
        mapped: false,
    }
}

/// One compiled batch: its two buffers and how many indices to draw.
pub struct CompiledBatch {
    pub vertex: BufferState,
    pub index: BufferState,
    pub index_count: nat,
}

/// What compiling `b` into memory of type `t` yields.
pub open spec fn compiled(b: BatchView, t: u32) -> CompiledBatch {
    CompiledBatch {
        vertex: uploaded(BufferUsage::Vertex, vertices_bytes(b.vertices), t),
        index: uploaded(BufferUsage::Index, words_bytes(b.indices), t),
        index_count: b.indices.len(),
    }
}

/// Device-resident geometry: per batch a vertex buffer and an index buffer
/// with its index count, in draw order.
#[derive(Debug, Clone)]
pub struct Path {
    buffers: Vec<Buffer>,
    index_buffers: Vec<(Buffer, usize)>,
}

impl View for Path {
    type V = Seq<CompiledBatch>;

    closed spec fn view(&self) -> Seq<CompiledBatch> {
        Seq::new(
            self.buffers@.len(),
            |i: int|
                CompiledBatch {
                    vertex: self.buffers@[i]@,
                    index: self.index_buffers@[i].0@,
                    index_count: self.index_buffers@[i].1 as nat,
                },
        )
    }
}

impl Path {
    pub closed spec fn wf(&self) -> bool {
        self.buffers@.len() == self.index_buffers@.len()
    }

    /// Number of batches.
    pub fn len(&self) -> (r: usize)
        requires
            self.wf(),
        ensures
            r == self@.len(),
    {
        self.buffers.len()
    }

    /// The vertex buffer of batch `i`.
    pub fn vertex_buffer(&self, i: usize) -> (r: &Buffer)
        requires
            self.wf(),
            i < self@.len(),
        ensures
            r@ == self@[i as int].vertex,
    {
        &self.buffers[i]
    }

    /// The index buffer of batch `i`.
    pub fn index_buffer(&self, i: usize) -> (r: &Buffer)
        requires
            self.wf(),
            i < self@.len(),
        ensures
            r@ == self@[i as int].index,
    {
        &self.index_buffers[i].0
    }

    /// How many indices batch `i` draws.
    pub fn index_count(&self, i: usize) -> (r: usize)
        requires
            self.wf(),
            i < self@.len(),
        ensures
            r == self@[i as int].index_count,
    {
        self.index_buffers[i].1
    }
}

/// Uploads `data` into a new buffer for `usage`: allocate, copy, flush, unmap.
fn upload(data: Vec<u8>, usage: BufferUsage, type_bits: u32, types: &Vec<MemoryType>) -> (r:
    VlResult<Buffer>)
    ensures
        match first_fit(type_bits, types@) {
            Some(t) => r is Ok && r->Ok_0@ == uploaded(usage, data@, t),
            None => r == Err::<Buffer, VlError>(VlError::NoSuitableMemory),
        },
{
    let ghost bytes = data@;
    let mut buffer = Buffer::new(data.len(), usage);
    match buffer.allocate_data(data, type_bits, types) {
        Ok(()) => {},
        Err(e) => {
            return Err(e);
        },
    }
    let flushed = buffer.flush_memory();
    let unmapped = buffer.unmap_memory();
    assert(flushed is Ok && unmapped is Ok);
    assert(buffer@ == uploaded(usage, bytes, first_fit(type_bits, types@)->Some_0));
    Ok(buffer)
}

/// Compiles one batch into its vertex and index buffers.
pub fn compile_batch(batch: &IndexBuffer, type_bits: u32, types: &Vec<MemoryType>) -> (r: VlResult<
    (Buffer, Buffer),
>)
    requires
        batch.data@.len() <= 4,
        batch.indices@.len() <= 6,
    ensures
        match first_fit(type_bits, types@) {
            Some(t) => r is Ok && r->Ok_0.0@ == compiled(batch@, t).vertex && r->Ok_0.1@
                == compiled(batch@, t).index,
            None => r == Err::<(Buffer, Buffer), VlError>(VlError::NoSuitableMemory),
        },
{
    let vertex = match upload(batch.vertex_bytes(), BufferUsage::Vertex, type_bits, types) {
        Ok(b) => b,
        Err(e) => {
            return Err(e);
        },
    };
    let index = match upload(batch.index_bytes(), BufferUsage::Index, type_bits, types) {
        Ok(b) => b,
        Err(e) => {
            return Err(e);
        },
    };
    Ok((vertex, index))
}

impl PathGeometry {
    /// Compiles every batch, in order, into device buffers. Fails only when
    /// there is a batch to place and no memory type suits it.
    pub fn into_path(&self, type_bits: u32, types: &Vec<MemoryType>) -> (r: VlResult<Path>)
        requires
            self.wf(),
        ensures
            (r is Err) == (self@.len() > 0 && first_fit(type_bits, types@) is None),
            r is Err ==> r == Err::<Path, VlError>(VlError::NoSuitableMemory),
            r is Ok ==> {
                let p = r->Ok_0;
                &&& p.wf()
                &&& p@.len() == self@.len()
                &&& forall|i: int|
                    0 <= i < self@.len() ==> #[trigger] p@[i] == compiled(
                        self@[i],
                        first_fit(type_bits, types@)->Some_0,
                    )
            },
    {
        let batches = self.batches();
        let ghost t = first_fit(type_bits, types@)->Some_0;
        assert forall|j: int| 0 <= j < batches@.len() implies #[trigger] batches@[j]@ == self@[j]
            by {
            assert(batches@.map_values(|b: IndexBuffer| b@)[j] == self@[j]);
        }
        let mut buffers: Vec<Buffer> = Vec::new();
        let mut index_buffers: Vec<(Buffer, usize)> = Vec::new();
        let mut i: usize = 0;
        while i < batches.len()
            invariant
                self.wf(),
                batches@.len() == self@.len(),
                forall|j: int| 0 <= j < batches@.len() ==> #[trigger] batches@[j]@ == self@[j],
                t == first_fit(type_bits, types@)->Some_0,
                i <= batches@.len(),
                buffers@.len() == i,
                index_buffers@.len() == i,
                i > 0 ==> first_fit(type_bits, types@) is Some,
                forall|j: int|
                    0 <= j < i ==> {
                        &&& #[trigger] buffers@[j]@ == compiled(self@[j], t).vertex
                        &&& index_buffers@[j].0@ == compiled(self@[j], t).index
                        &&& index_buffers@[j].1 == self@[j].indices.len()
                    },
            decreases batches@.len() - i,
        {
            let batch = &batches[i];
            assert(batch@ == self@[i as int]);
            assert(self@[i as int].vertices.len() <= 4);
            let (vertex, index) = match compile_batch(batch, type_bits, types) {
                Ok(pair) => pair,
                Err(e) => {
                    return Err(e);
                },
            };
            buffers.push(vertex);
            index_buffers.push((index, batch.indices.len()));
            i = i + 1;
        }
        let path = Path { buffers, index_buffers };
        assert forall|j: int| 0 <= j < self@.len() implies #[trigger] path@[j] == compiled(
            self@[j],
            t,
        ) by {
            assert(buffers@[j]@ == compiled(self@[j], t).vertex);
        }
        Ok(path)
    }
}

} // verus!
