use vstd::prelude::*;

verus! {

/// Hardware enumeration failures.
#[derive(Debug, Clone, Copy, PartialEq, Eq, Structural)]
pub enum HardwareError {
    /// No device offers a queue family with graphics, compute and transfer support.
    NoSuitableDevice,
}

/// The errors of this library.
#[derive(Debug, Clone, Copy)]
pub enum VlError {
    /// A builder was asked to build without a required parameter; holds its name.
    MissingParameter(&'static str),
    /// A failure code reported by the graphics API.
    VkException(i32),
    /// Device or queue enumeration found nothing usable.
    HardwareError(HardwareError),
    /// An operation was attempted in a state that does not allow it.
    InvalidState(&'static str),
    /// A write does not match the size of its destination.
    OutOfMemory,
    /// No memory type satisfies both the resource's type mask and host visibility.
    NoSuitableMemory,
}

/// Results of this library.
pub type VlResult<T> = Result<T, VlError>;

} // verus!
