//! The stage: viewport size, projection mode and the uniform buffer that
//! carries the model, view and projection matrices to the vertex shader.
use crate::error::{VlError, VlResult};
use crate::memory::{
    first_fit, write_spec, BufferState, BufferUsage, Buffer, MemoryState, MemoryType,
};
use vstd::prelude::*;

verus! {

/// Size in bytes of the transform uniform: three 4x4 matrices of 32-bit floats.
pub const MVP_SIZE: usize = 192;

/// How the stage projects.
#[derive(Debug, Clone, Copy, PartialEq, Eq, Structural)]
pub enum StageMode {
    /// Orthographic projection over the viewport, depth range [-1, 1].
    Ortho,
    /// Perspective projection.
    Perspective,
}

/// Collects what a stage needs; `build` checks that it is all there.
#[derive(Debug, Clone, Copy)]
pub struct StageBuilder {
    pub instance: Option<u64>,
    pub device: Option<u64>,
    pub physical_device: Option<u64>,
    pub mode: StageMode,
    pub width: u32,
    pub height: u32,
}

/// The uniform buffer of a stage built from `mvp`: allocated from the first
/// suitable type, holding `mvp`, and left mapped for later updates.
pub open spec fn uniform_of(mvp: Seq<u8>, t: u32) -> BufferState {
    BufferState {
        usage: BufferUsage::Uniform,
        size: MVP_SIZE as nat,
        memory: Some(MemoryState { type_index: t, data: mvp }),
        mapped: true,
    }
}

/// The error `StageBuilder::build` returns, if any, in checking order.
pub open spec fn stage_build_error(
    b: StageBuilder,
    mvp_len: nat,
    bits: u32,
    types: Seq<MemoryType>,
) -> Option<VlError> {
    if b.instance is None {
        Some(VlError::MissingParameter("instance"))
    } else if b.device is None {
        Some(VlError::MissingParameter("logical_device"))
    } else if b.physical_device is None {
        Some(VlError::MissingParameter("physical_device"))
    } else if mvp_len != MVP_SIZE {
        Some(VlError::OutOfMemory)
    } else if first_fit(bits, types) is None {
        Some(VlError::NoSuitableMemory)
    } else {
        None
    }
}

impl StageBuilder {
    pub fn instance(self, instance: u64) -> (r: StageBuilder)
        ensures
            r == (StageBuilder { instance: Some(instance), ..self }),
    {
        StageBuilder { instance: Some(instance), ..self }
    }

    pub fn logical_device(self, device: u64) -> (r: StageBuilder)
        ensures
            r == (StageBuilder { device: Some(device), ..self }),
    {
        StageBuilder { device: Some(device), ..self }
    }

    pub fn physical_device(self, physical_device: u64) -> (r: StageBuilder)
        ensures
            r == (StageBuilder { physical_device: Some(physical_device), ..self }),
    {
        StageBuilder { physical_device: Some(physical_device), ..self }
    }

    pub fn width(self, width: u32) -> (r: StageBuilder)
        ensures
            r == (StageBuilder { width, ..self }),
    {
        StageBuilder { width, ..self }
    }

    pub fn height(self, height: u32) -> (r: StageBuilder)
        ensures
            r == (StageBuilder { height, ..self }),
    {
        StageBuilder { height, ..self }
    }

    pub fn mode(self, mode: StageMode) -> (r: StageBuilder)
        ensures
            r == (StageBuilder { mode, ..self }),
    {
        StageBuilder { mode, ..self }
    }

    /// Builds the stage whose uniform buffer starts out holding `mvp`, the
    /// matrices computed for this builder's size and mode, `MVP_SIZE` bytes.
    /// Every missing parameter is reported by name before any memory is
    /// allocated.
    pub fn build(self, mvp: Vec<u8>, type_bits: u32, types: &Vec<MemoryType>) -> (r: VlResult<
        Stage,
    >)
        ensures
            match stage_build_error(self, mvp@.len(), type_bits, types@) {
                Some(e) => r == Err::<Stage, VlError>(e),
                None => r is Ok && r->Ok_0.wf() && r->Ok_0.width_spec() == self.width
                    && r->Ok_0.height_spec() == self.height && r->Ok_0.mode_spec() == self.mode
                    && r->Ok_0.uniform_spec() == uniform_of(
                    mvp@,
                    first_fit(type_bits, types@)->Some_0,
                ),
            },
    {
        if self.instance.is_none() {
            return Err(VlError::MissingParameter("instance"));
        }
        if self.device.is_none() {
            return Err(VlError::MissingParameter("logical_device"));
        }
        if self.physical_device.is_none() {
            return Err(VlError::MissingParameter("physical_device"));
        }
        let mut buffer = Buffer::new(MVP_SIZE, BufferUsage::Uniform);
        match buffer.allocate_data(mvp, type_bits, types) {
            Ok(()) => {},
            Err(e) => {
                return Err(e);
            },
        }
        let flushed = buffer.flush_memory();
        assert(flushed is Ok);
        Ok(Stage { width: self.width, height: self.height, mode: self.mode, buffer })
    }
}

/// Viewport size, projection mode and the transform uniform buffer.
#[derive(Debug, Clone)]
pub struct Stage {
    width: u32,
    height: u32,
    mode: StageMode,
    buffer: Buffer,
}

impl Stage {
    /// The uniform buffer is well formed, mapped, and sized for the matrices.
    pub closed spec fn wf(&self) -> bool {
        &&& self.buffer.wf()
        &&& self.buffer@.usage == BufferUsage::Uniform
        &&& self.buffer@.size == MVP_SIZE
        &&& self.buffer@.mapped
        &&& self.buffer@.memory is Some
    }

    pub closed spec fn width_spec(&self) -> u32 {
        self.width
    }

    pub closed spec fn height_spec(&self) -> u32 {
        self.height
    }

    pub closed spec fn mode_spec(&self) -> StageMode {
        self.mode
    }

    pub closed spec fn uniform_spec(&self) -> BufferState {
        self.buffer@
    }

    /// A builder with nothing set: orthographic, 100 by 100.
    pub fn builder() -> (r: StageBuilder)
        ensures
            r == (StageBuilder {
                instance: None,
                device: None,
                physical_device: None,
                mode: StageMode::Ortho,
                width: 100,
                height: 100,
            }),
    {
        StageBuilder {
            instance: None,
            device: None,
            physical_device: None,
            mode: StageMode::Ortho,
            width: 100,
            height: 100,
        }
    }

    pub fn width(&self) -> (r: u32)
        ensures
            r == self.width_spec(),
    {
        self.width
    }

    pub fn height(&self) -> (r: u32)
        ensures
            r == self.height_spec(),
    {
        self.height
    }

    pub fn mode(&self) -> (r: StageMode)
        ensures
            r == self.mode_spec(),
    {
        self.mode
    }

    /// The uniform buffer.
    pub fn uniform_buffer(&self) -> (r: &Buffer)
        ensures
            r@ == self.uniform_spec(),
    {
        &self.buffer
    }

    /// Records a new viewport size; the uniform is left as it is until `update`.
    pub fn resize(&mut self, width: u32, height: u32)
        ensures
            final(self).width_spec() == width,
            final(self).height_spec() == height,
            final(self).mode_spec() == old(self).mode_spec(),
            final(self).uniform_spec() == old(self).uniform_spec(),
            final(self).wf() == old(self).wf(),
    {
        self.width = width;
        self.height = height;
    }

    /// Writes freshly computed matrices into the uniform buffer in place; the
    /// buffer keeps its memory and size. Anything but `MVP_SIZE` bytes is
    /// refused with `OutOfMemory`, and nothing changes.
    pub fn update(&mut self, mvp: Vec<u8>) -> (r: VlResult<()>)
        requires
            old(self).wf(),
        ensures
            final(self).wf(),
            mvp@.len() != MVP_SIZE ==> r == Err::<(), VlError>(VlError::OutOfMemory) && *final(self)
                == *old(self),
            mvp@.len() == MVP_SIZE ==> r is Ok,
            mvp@.len() == MVP_SIZE ==> final(self).uniform_spec() == write_spec(
                old(self).uniform_spec(),
                mvp@,
            )->Ok_0,
            mvp@.len() == MVP_SIZE ==> final(self).uniform_spec().memory->Some_0.data == mvp@,
            final(self).uniform_spec().memory->Some_0.type_index == old(self).uniform_spec().memory->Some_0.type_index,
            final(self).width_spec() == old(self).width_spec(),
            final(self).height_spec() == old(self).height_spec(),
            final(self).mode_spec() == old(self).mode_spec(),
    {
        if mvp.len() != MVP_SIZE {
            return Err(VlError::OutOfMemory);
        }
        self.buffer.write(mvp)
    }
}

} // verus!
