//! Queue families and what they support.
use vstd::prelude::*;

verus! {

/// Relies on ash's `vk::QueueFlags::GRAPHICS`: the raw value of Vulkan's
/// graphics queue bit, `0b1`.
#[verifier::external_body]
fn graphics_bit() -> (r: u32)
    ensures
        r == 1,
{
    ash::vk::QueueFlags::GRAPHICS.as_raw()
}

/// Relies on ash's `vk::QueueFlags::COMPUTE`: the raw value of Vulkan's
/// compute queue bit, `0b10`.
#[verifier::external_body]
fn compute_bit() -> (r: u32)
    ensures
        r == 2,
{
    ash::vk::QueueFlags::COMPUTE.as_raw()
}

/// Relies on ash's `vk::QueueFlags::TRANSFER`: the raw value of Vulkan's
/// transfer queue bit, `0b100`.
#[verifier::external_body]
fn transfer_bit() -> (r: u32)
    ensures
        r == 4,
{
    ash::vk::QueueFlags::TRANSFER.as_raw()
}

/// A queue created on the device, by raw handle.
#[derive(Debug, Clone, Copy, PartialEq, Eq, Structural)]
pub struct Queue {
    pub raw: u64,
}

/// What one queue family of a physical device offers.
#[derive(Debug, Clone, Copy, PartialEq, Eq, Structural)]
pub struct QueueProperties {
    /// Capability bits (Vulkan `VkQueueFlags`).
    pub flags: u32,
    /// Number of queues in the family.
    pub queue_count: u32,
}

/// The family supports graphics, compute and transfer work alike.
pub open spec fn all_round(p: QueueProperties) -> bool {
    p.flags & 1u32 != 0u32 && p.flags & 2u32 != 0u32 && p.flags & 4u32 != 0u32
}

impl QueueProperties {
    pub fn new(flags: u32, queue_count: u32) -> (r: QueueProperties)
        ensures
            r == (QueueProperties { flags, queue_count }),
    {
        QueueProperties { flags, queue_count }
    }

    /// Number of queues in the family.
    pub fn count(&self) -> (r: usize)
        ensures
            r == self.queue_count,
    {
        self.queue_count as usize
    }

    pub fn is_graphic_support(&self) -> (r: bool)
        ensures
            r == (self.flags & 1u32 != 0u32),
    {
        self.flags & graphics_bit() != 0
    }

    pub fn is_compute_support(&self) -> (r: bool)
        ensures
            r == (self.flags & 2u32 != 0u32),
    {
        self.flags & compute_bit() != 0
    }

    pub fn is_transfer_support(&self) -> (r: bool)
        ensures
            r == (self.flags & 4u32 != 0u32),
    {
        self.flags & transfer_bit() != 0
    }
}

} // verus!
