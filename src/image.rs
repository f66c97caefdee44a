//! Images that a frame renders into, and the memory behind them.
use crate::error::{VlError, VlResult};
use crate::memory::{find_memory_type, first_fit, MemoryType};
use vstd::prelude::*;

verus! {

#[allow(non_camel_case_types)]
#[derive(Debug, Clone, Copy, PartialEq, Eq, Structural)]
pub enum ImageType {
    e3D,
    e2D,
}

/// What the device reports an image or buffer needs from memory.
#[derive(Debug, Clone, Copy, PartialEq, Eq, Structural)]
pub struct MemoryRequirements {
    /// Bytes to allocate.
    pub size: u64,
    /// Bit `i` set: memory type `i` may back the resource.
    pub memory_type_bits: u32,
}

/// Collects the size and kind of an image.
#[derive(Debug, Clone, Copy, PartialEq, Eq, Structural)]
pub struct ImageBuilder {
    width: u32,
    height: u32,
    image_type: ImageType,
}

/// An RGBA8 image with its own memory.
#[derive(Debug, Clone, Copy, PartialEq, Eq, Structural)]
pub struct Image {
    /// Raw handle of the device image.
    pub raw: u64,
    pub width: u32,
    pub height: u32,
    pub image_type: ImageType,
    /// The memory type backing it.
    pub memory_type: u32,
    /// Bytes of memory bound to it.
    pub mem_size: u64,
}

impl ImageBuilder {
    pub closed spec fn width_spec(&self) -> u32 {
        self.width
    }

    pub closed spec fn height_spec(&self) -> u32 {
        self.height
    }

    pub closed spec fn image_type_spec(&self) -> ImageType {
        self.image_type
    }

    /// A 100 by 100 two-dimensional image.
    pub fn new() -> (r: ImageBuilder)
        ensures
            r.width_spec() == 100,
            r.height_spec() == 100,
            r.image_type_spec() == ImageType::e2D,
    {
        ImageBuilder { width: 100, height: 100, image_type: ImageType::e2D }
    }

    pub fn width(self, width: u32) -> (r: ImageBuilder)
        ensures
            r.width_spec() == width,
            r.height_spec() == self.height_spec(),
            r.image_type_spec() == self.image_type_spec(),
    {
        ImageBuilder { width, ..self }
    }

    pub fn height(self, height: u32) -> (r: ImageBuilder)
        ensures
            r.height_spec() == height,
            r.width_spec() == self.width_spec(),
            r.image_type_spec() == self.image_type_spec(),
    {
        ImageBuilder { height, ..self }
    }

    /// The width the image is created with.
    pub fn extent_width(&self) -> (r: u32)
        ensures
            r == self.width_spec(),
    {
        self.width
    }

    /// The height the image is created with.
    pub fn extent_height(&self) -> (r: u32)
        ensures
            r == self.height_spec(),
    {
        self.height
    }

    pub fn image_type(&self) -> (r: ImageType)
        ensures
            r == self.image_type_spec(),
    {
        self.image_type
    }

    /// Backs the device image `raw`, created from this builder, with memory of
    /// the first suitable type, sized as `requirements` asks.
    pub fn build(self, raw: u64, requirements: MemoryRequirements, types: &Vec<MemoryType>) -> (r:
        VlResult<Image>)
        ensures
            match first_fit(requirements.memory_type_bits, types@) {
                Some(t) => r == Ok::<Image, VlError>(
                    Image {
                        raw,
                        width: self.width_spec(),
                        height: self.height_spec(),
                        image_type: self.image_type_spec(),
                        memory_type: t,
                        mem_size: requirements.size,
                    },
                ),
                None => r == Err::<Image, VlError>(VlError::NoSuitableMemory),
            },
    {
        match find_memory_type(requirements.memory_type_bits, types) {
            Some(t) => Ok(
                Image {
                    raw,
                    width: self.width,
                    height: self.height,
                    image_type: self.image_type,
                    memory_type: t,
                    mem_size: requirements.size,
                },
            ),
            None => Err(VlError::NoSuitableMemory),
        }
    }
}

impl Image {
    /// Bytes of RGBA8 pixel data the image holds, when that fits in `usize`.
    pub fn pixel_bytes(&self) -> (r: Option<usize>)
        ensures
            (self.width as int) * (self.height as int) * 4 <= usize::MAX ==> r == Some(
                ((self.width as int) * (self.height as int) * 4) as usize,
            ),
            (self.width as int) * (self.height as int) * 4 > usize::MAX ==> r is None,
    {
        let w = self.width as usize;
        let h = self.height as usize;
        match w.checked_mul(h) {
            Some(area) => area.checked_mul(4),
            None => {
                proof {
                    assert((w as int) * (h as int) * 4 > usize::MAX) by (nonlinear_arith)
                        requires
                            (w as int) * (h as int) > usize::MAX,
                    ;
                }
                None
            },
        }
    }
}

} // verus!
