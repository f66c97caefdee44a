//! Memory-type selection and the life of one host-visible device buffer.
//!
//! A `Buffer` records what the device-side buffer holds and which of its
//! states it is in; a backend mirrors each successful operation on the device.
use crate::error::{VlError, VlResult};
use vstd::prelude::*;

verus! {

/// One entry of a device's memory-type table.
#[derive(Debug, Clone, Copy, PartialEq, Eq, Structural)]
pub struct MemoryType {
    /// Property bits of the type (Vulkan `VkMemoryPropertyFlags`).
    pub property_flags: u32,
    /// The heap this type allocates from.
    pub heap_index: u32,
}

/// Relies on ash's `vk::MemoryPropertyFlags::HOST_VISIBLE`: the raw value of
/// Vulkan's host-visible memory property bit, `0b10`.
#[verifier::external_body]
fn host_visible_bit() -> (r: u32)
    ensures
        r == 2,
{
    ash::vk::MemoryPropertyFlags::HOST_VISIBLE.as_raw()
}

/// Memory type `i` is allowed by the mask `bits` and is host visible.
pub open spec fn suitable(bits: u32, types: Seq<MemoryType>, i: int) -> bool {
    &&& 0 <= i < types.len()
    &&& i < 32
    &&& (bits >> (i as u32)) & 1u32 == 1u32
    &&& types[i].property_flags & 2u32 != 0u32
}

/// The first suitable index at or after `i`.
pub open spec fn first_fit_from(bits: u32, types: Seq<MemoryType>, i: int) -> Option<u32>
    decreases types.len() - i,
{
    if i < 0 || i >= types.len() || i >= 32 {
        None
    } else if suitable(bits, types, i) {
        Some(i as u32)
    } else {
        first_fit_from(bits, types, i + 1)
    }
}

/// The memory type that first-fit selection picks, if any.
pub open spec fn first_fit(bits: u32, types: Seq<MemoryType>) -> Option<u32> {
    first_fit_from(bits, types, 0)
}

/// `first_fit_from` is the least suitable index at or after `i`.
pub proof fn lemma_first_fit_from(bits: u32, types: Seq<MemoryType>, i: int)
    requires
        0 <= i,
    ensures
        match first_fit_from(bits, types, i) {
            Some(k) => i <= k && suitable(bits, types, k as int) && forall|j: int|
                i <= j < k ==> !suitable(bits, types, j),
            None => forall|j: int| i <= j ==> !suitable(bits, types, j),
        },
    decreases types.len() - i,
{
    if i >= types.len() || i >= 32 {
    } else if suitable(bits, types, i) {
    } else {
        lemma_first_fit_from(bits, types, i + 1);
        assert forall|j: int| i <= j && !(i + 1 <= j) implies !suitable(bits, types, j) by {}
    }
}

/// First-fit memory-type selection: the lowest index whose bit is set in
/// `type_bits` and whose type is host visible; `None` when there is none.
/// Indices from 32 on cannot be named by a 32-bit mask.
pub fn find_memory_type(type_bits: u32, types: &Vec<MemoryType>) -> (r: Option<u32>)
    ensures
        r == first_fit(type_bits, types@),
        match r {
            Some(k) => suitable(type_bits, types@, k as int) && forall|j: int|
                0 <= j < k ==> !suitable(type_bits, types@, j),
            None => forall|j: int| !suitable(type_bits, types@, j),
        },
{
    proof {
        lemma_first_fit_from(type_bits, types@, 0);
    }
    let host_visible = host_visible_bit();
    let mut i: usize = 0;
    while i < types.len() && i < 32
        invariant
            i <= types@.len(),
            i <= 32,
            host_visible == 2,
            first_fit(type_bits, types@) == first_fit_from(type_bits, types@, i as int),
        decreases types@.len() - i,
    {
        let shift = i as u32;
        if (type_bits >> shift) & 1 == 1 && types[i].property_flags & host_visible != 0 {
            proof {
                lemma_first_fit_from(type_bits, types@, 0);
            }
            return Some(shift);
        }
        i = i + 1;
    }
    None
}

/// What a buffer is used for.
#[derive(Debug, Clone, Copy, PartialEq, Eq, Structural)]
pub enum BufferUsage {
    Vertex,
    Uniform,
    Index,
}

/// Memory bound to a buffer.
#[derive(Debug, Clone)]
pub struct DeviceMemory {
    /// The memory type it was allocated from.
    pub type_index: u32,
    /// What it holds.
    pub data: Vec<u8>,
}

/// Memory bound to a buffer: its type and contents.
pub struct MemoryState {
    pub type_index: u32,
    pub data: Seq<u8>,
}

/// The state of a buffer.
pub struct BufferState {
    pub usage: BufferUsage,
    pub size: nat,
    /// The memory type and contents, once memory is allocated.
    pub memory: Option<MemoryState>,
    /// Whether the memory is mapped for writing.
    pub mapped: bool,
}

/// One device buffer and the memory backing it.
#[derive(Debug, Clone)]
pub struct Buffer {
    usage: BufferUsage,
    size: usize,
    memory: Option<DeviceMemory>,
    mapped: bool,
}

impl View for Buffer {
    type V = BufferState;

    closed spec fn view(&self) -> BufferState {
        BufferState {
            usage: self.usage,
            size: self.size as nat,
            memory: match self.memory {
                Some(m) => Some(MemoryState { type_index: m.type_index, data: m.data@ }),
                None => None,
            },
            mapped: self.mapped,
        }
    }
}

/// A freshly created buffer: no memory yet.
pub open spec fn created(usage: BufferUsage, size: nat) -> BufferState {
    BufferState { usage, size, memory: None, mapped: false }
}

/// Effect of `allocate_data`.
pub open spec fn allocate_spec(
    b: BufferState,
    data: Seq<u8>,
    bits: u32,
    types: Seq<MemoryType>,
) -> VlResult<BufferState> {
    if b.memory is Some {
        Err(VlError::InvalidState("memory is already allocated"))
    } else if data.len() != b.size {
        Err(VlError::OutOfMemory)
    } else {
        match first_fit(bits, types) {
            None => Err(VlError::NoSuitableMemory),
            Some(t) => Ok(
                BufferState { memory: Some(MemoryState { type_index: t, data }), mapped: true, ..b },
            ),
        }
    }
}

/// Effect of `write`.
pub open spec fn write_spec(b: BufferState, data: Seq<u8>) -> VlResult<BufferState> {
    if !b.mapped || b.memory is None {
        Err(VlError::InvalidState("memory is not mapped"))
    } else if data.len() != b.size {
        Err(VlError::OutOfMemory)
    } else {
        Ok(
            BufferState {
                memory: Some(MemoryState { type_index: b.memory->Some_0.type_index, data }),
                ..b
            },
        )
    }
}

/// Effect of `flush_memory`: the whole range is flushed, nothing changes here.
pub open spec fn flush_spec(b: BufferState) -> VlResult<BufferState> {
    if b.memory is None {
        Err(VlError::InvalidState("memory is not allocated"))
    } else {
        Ok(b)
    }
}

/// Effect of `unmap_memory`: the contents stay, the mapping goes.
pub open spec fn unmap_spec(b: BufferState) -> VlResult<BufferState> {
    if b.memory is None {
        Err(VlError::InvalidState("memory is not allocated"))
    } else {
        Ok(BufferState { mapped: false, ..b })
    }
}

/// Effect of `map_memory`.
pub open spec fn map_spec(b: BufferState) -> VlResult<BufferState> {
    if b.memory is None {
        Err(VlError::InvalidState("memory is not allocated"))
    } else {
        Ok(BufferState { mapped: true, ..b })
    }
}

/// What `read` returns.
pub open spec fn read_spec(b: BufferState) -> VlResult<Seq<u8>> {
    if !b.mapped || b.memory is None {
        Err(VlError::InvalidState("memory is not mapped"))
    } else {
        Ok(b.memory->Some_0.data)
    }
}

/// A state-changing call returned `r` and left `after` where `before` stood,
/// as `next` prescribes: on success the new state, on failure its error and
/// no change.
pub open spec fn stepped(
    r: VlResult<()>,
    before: BufferState,
    after: BufferState,
    next: VlResult<BufferState>,
) -> bool {
    match next {
        Ok(s) => r == Ok::<(), VlError>(()) && after == s,
        Err(e) => r == Err::<(), VlError>(e) && after == before,
    }
}

impl Buffer {
    /// Memory, when present, holds exactly `size` bytes; a mapping needs memory.
    pub closed spec fn wf(&self) -> bool {
        &&& (self.memory matches Some(m) ==> m.data@.len() == self.size)
        &&& (self.mapped ==> self.memory is Some)
    }

    /// A buffer of `size` bytes for `usage`, with no memory yet.
    pub fn new(size: usize, usage: BufferUsage) -> (r: Buffer)
        ensures
            r@ == created(usage, size as nat),
            r.wf(),
    {
        Buffer { usage, size, memory: None, mapped: false }
    }

    /// Size in bytes.
    pub fn size(&self) -> (r: usize)
        ensures
            r == self@.size,
    {
        self.size
    }

    /// What the buffer is used for.
    pub fn usage(&self) -> (r: BufferUsage)
        ensures
            r == self@.usage,
    {
        self.usage
    }

    /// The memory type backing the buffer, once allocated.
    pub fn memory_type(&self) -> (r: Option<u32>)
        ensures
            r == (match self@.memory {
                Some(m) => Some(m.type_index),
                None => None::<u32>,
            }),
    {
        match &self.memory {
            Some(m) => Some(m.type_index),
            None => None,
        }
    }

    /// Whether the memory is currently mapped.
    pub fn is_mapped(&self) -> (r: bool)
        ensures
            r == self@.mapped,
    {
        self.mapped
    }

    /// Allocates memory of the first suitable type for the buffer, binds and
    /// maps it, and copies `data` in. The buffer stays mapped.
    pub fn allocate_data(&mut self, data: Vec<u8>, type_bits: u32, types: &Vec<MemoryType>) -> (r:
        VlResult<()>)
        requires
            old(self).wf(),
        ensures
            final(self).wf(),
            stepped(r, old(self)@, final(self)@, allocate_spec(old(self)@, data@, type_bits, types@)),
    {
        if self.memory.is_some() {
            return Err(VlError::InvalidState("memory is already allocated"));
        }
        if data.len() != self.size {
            return Err(VlError::OutOfMemory);
        }
        match find_memory_type(type_bits, types) {
            None => Err(VlError::NoSuitableMemory),
            Some(t) => {
                self.memory = Some(DeviceMemory { type_index: t, data });
                self.mapped = true;
                Ok(())
            },
        }
    }

    /// Copies `data` over the buffer's contents; the memory must be mapped.
    pub fn write(&mut self, data: Vec<u8>) -> (r: VlResult<()>)
        requires
            old(self).wf(),
        ensures
            final(self).wf(),
            stepped(r, old(self)@, final(self)@, write_spec(old(self)@, data@)),
    {
        if !self.mapped {
            return Err(VlError::InvalidState("memory is not mapped"));
        }
        if data.len() != self.size {
            return Err(VlError::OutOfMemory);
        }
        match &mut self.memory {
            Some(m) => {
                m.data = data;
                Ok(())
            },
            None => Err(VlError::InvalidState("memory is not mapped")),
        }
    }

    /// Flushes the whole mapped range; the memory must be allocated.
    pub fn flush_memory(&self) -> (r: VlResult<()>)
        requires
            self.wf(),
        ensures
            stepped(r, self@, self@, flush_spec(self@)),
    {
        match &self.memory {
            Some(_) => Ok(()),
            None => Err(VlError::InvalidState("memory is not allocated")),
        }
    }

    /// Unmaps the memory without freeing it; its contents stay.
    pub fn unmap_memory(&mut self) -> (r: VlResult<()>)
        requires
            old(self).wf(),
        ensures
            final(self).wf(),
            stepped(r, old(self)@, final(self)@, unmap_spec(old(self)@)),
    {
        match &self.memory {
            Some(_) => {
                self.mapped = false;
                Ok(())
            },
            None => Err(VlError::InvalidState("memory is not allocated")),
        }
    }

    /// Maps the allocated memory again.
    pub fn map_memory(&mut self) -> (r: VlResult<()>)
        requires
            old(self).wf(),
        ensures
            final(self).wf(),
            stepped(r, old(self)@, final(self)@, map_spec(old(self)@)),
    {
        match &self.memory {
            Some(_) => {
                self.mapped = true;
                Ok(())
            },
            None => Err(VlError::InvalidState("memory is not allocated")),
        }
    }

    /// The contents, read through the current mapping.
    pub fn read(&self) -> (r: VlResult<&[u8]>)
        requires
            self.wf(),
        ensures
            match read_spec(self@) {
                Ok(d) => r is Ok && r->Ok_0@ == d,
                Err(e) => r == Err::<&[u8], VlError>(e),
            },
    {
        if !self.mapped {
            return Err(VlError::InvalidState("memory is not mapped"));
        }
        match &self.memory {
            Some(m) => Ok(m.data.as_slice()),
            None => Err(VlError::InvalidState("memory is not mapped")),
        }
    }
}

/// Uploading bytes to a fresh buffer, flushing, unmapping, mapping again and
/// reading back yields the bytes uploaded, whenever a suitable memory type exists.
pub proof fn lemma_upload_round_trip(
    usage: BufferUsage,
    data: Seq<u8>,
    bits: u32,
    types: Seq<MemoryType>,
)
    requires
        first_fit(bits, types) is Some,
    ensures
        ({
            let b0 = created(usage, data.len());
            let b1 = allocate_spec(b0, data, bits, types)->Ok_0;
            let b2 = flush_spec(b1)->Ok_0;
            let b3 = unmap_spec(b2)->Ok_0;
            let b4 = map_spec(b3)->Ok_0;
            &&& allocate_spec(b0, data, bits, types) is Ok
            &&& flush_spec(b1) is Ok
            &&& unmap_spec(b2) is Ok
            &&& map_spec(b3) is Ok
            &&& read_spec(b4) == Ok::<Seq<u8>, VlError>(data)
        }),
{
}

/// Once unmapped, a buffer refuses writes with `InvalidState` until it is
/// mapped again, whatever is written.
pub proof fn lemma_write_after_unmap_fails(b: BufferState, data: Seq<u8>)
    requires
        unmap_spec(b) is Ok,
    ensures
        write_spec(unmap_spec(b)->Ok_0, data) is Err,
        write_spec(unmap_spec(b)->Ok_0, data)->Err_0 is InvalidState,
{
}

} // verus!
