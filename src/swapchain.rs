//! Presentation to a window surface: the swapchain's configuration, and what
//! to do with each image-acquisition result, including recreation on resize.
use crate::error::{VlError, VlResult};
use vstd::prelude::*;

verus! {

#[derive(Debug, Clone, Copy, PartialEq, Eq, Structural)]
pub struct Extent {
    pub width: u32,
    pub height: u32,
}

/// What the surface reports about itself.
#[derive(Debug, Clone, Copy, PartialEq, Eq, Structural)]
pub struct SurfaceCapabilities {
    pub min_image_count: u32,
    pub current_extent: Extent,
    /// Raw `VkSurfaceTransformFlagBitsKHR` of the current transform.
    pub current_transform: u32,
}

/// A pixel format and color space the surface supports, as raw values.
#[derive(Debug, Clone, Copy, PartialEq, Eq, Structural)]
pub struct SurfaceFormat {
    pub format: i32,
    pub color_space: i32,
}

/// How to create a swapchain for a surface.
#[derive(Debug, Clone, Copy, PartialEq, Eq, Structural)]
pub struct SwapchainConfig {
    pub min_image_count: u32,
    pub format: SurfaceFormat,
    pub extent: Extent,
    pub transform: u32,
    /// Raw `VkPresentModeKHR`.
    pub present_mode: i32,
    pub array_layers: u32,
    pub clipped: bool,
}

/// The swapchain for a surface: one image more than the surface's minimum,
/// its first format and first present mode, at its current extent.
pub fn swapchain_config(
    capabilities: SurfaceCapabilities,
    formats: &Vec<SurfaceFormat>,
    present_modes: &Vec<i32>,
) -> (r: VlResult<SwapchainConfig>)
    ensures
        formats@.len() == 0 ==> r == Err::<SwapchainConfig, VlError>(
            VlError::InvalidState("surface reports no format"),
        ),
        formats@.len() > 0 && present_modes@.len() == 0 ==> r == Err::<SwapchainConfig, VlError>(
            VlError::InvalidState("surface reports no present mode"),
        ),
        formats@.len() > 0 && present_modes@.len() > 0 ==> r == Ok::<SwapchainConfig, VlError>(
            SwapchainConfig {
                min_image_count: if capabilities.min_image_count < u32::MAX {
                    (capabilities.min_image_count + 1) as u32
                } else {
                    u32::MAX
                },
                format: formats@[0],
                extent: capabilities.current_extent,
                transform: capabilities.current_transform,
                present_mode: present_modes@[0],
                array_layers: 1,
                clipped: true,
            },
        ),
{
    if formats.len() == 0 {
        return Err(VlError::InvalidState("surface reports no format"));
    }
    if present_modes.len() == 0 {
        return Err(VlError::InvalidState("surface reports no present mode"));
    }
    Ok(
        SwapchainConfig {
            min_image_count: capabilities.min_image_count.saturating_add(1),
            format: formats[0],
            extent: capabilities.current_extent,
            transform: capabilities.current_transform,
            present_mode: present_modes[0],
            array_layers: 1,
            clipped: true,
        },
    )
}

/// What acquiring the next swapchain image reported.
#[derive(Debug, Clone, Copy, PartialEq, Eq, Structural)]
pub enum AcquireResult {
    /// The image with this index is ready.
    Acquired(u32),
    /// The image is usable but no longer matches the surface.
    Suboptimal(u32),
    /// The swapchain no longer matches the surface.
    OutOfDate,
    /// Any other failure code.
    Failed(i32),
}

/// What the frame driver does next.
#[derive(Debug, Clone, Copy)]
pub enum FrameAction {
    /// Record the frame into the image with this index.
    Render(u32),
    /// Release the framebuffers, image views, pipeline and render pass,
    /// recreate the swapchain and them at this extent, then acquire again.
    Recreate(Extent),
    /// Give up on this frame.
    Abort(VlError),
}

/// Relies on ash's `vk::Result::ERROR_OUT_OF_DATE_KHR`: the raw value of
/// Vulkan's out-of-date result, `-1_000_001_004`.
#[verifier::external_body]
fn out_of_date_code() -> (r: i32)
    ensures
        r == -1_000_001_004i32,
{
    ash::vk::Result::ERROR_OUT_OF_DATE_KHR.as_raw()
}

/// The swapchain's extent and whether the current frame has used its one retry.
#[derive(Debug, Clone, Copy, PartialEq, Eq, Structural)]
pub struct SwapchainState {
    pub extent: Extent,
    pub retried: bool,
}

/// The next state and action after `result`, with the surface now at `surface`.
pub open spec fn acquire_step(s: SwapchainState, result: AcquireResult, surface: Extent) -> (
    SwapchainState,
    FrameAction,
) {
    match result {
        AcquireResult::Acquired(i) => (SwapchainState { retried: false, ..s }, FrameAction::Render(i)),
        AcquireResult::Suboptimal(i) => if s.retried {
            (SwapchainState { retried: false, ..s }, FrameAction::Render(i))
        } else {
            (SwapchainState { extent: surface, retried: true }, FrameAction::Recreate(surface))
        },
        AcquireResult::OutOfDate => if s.retried {
            (
                SwapchainState { retried: false, ..s },
                FrameAction::Abort(VlError::VkException(-1_000_001_004i32)),
            )
        } else {
            (SwapchainState { extent: surface, retried: true }, FrameAction::Recreate(surface))
        },
        AcquireResult::Failed(code) => (
            SwapchainState { retried: false, ..s },
            FrameAction::Abort(VlError::VkException(code)),
        ),
    }
}

impl SwapchainState {
    /// A swapchain just created at `extent`.
    pub fn new(extent: Extent) -> (r: SwapchainState)
        ensures
            r == (SwapchainState { extent, retried: false }),
    {
        SwapchainState { extent, retried: false }
    }

    /// Decides what follows an acquisition result. A stale swapchain is
    /// recreated once per frame at the surface's extent; a second stale
    /// result in the same frame, or any other failure, aborts the frame.
    pub fn on_acquire(&mut self, result: AcquireResult, surface: Extent) -> (r: FrameAction)
        ensures
            (*final(self), r) == acquire_step(*old(self), result, surface),
    {
        match result {
            AcquireResult::Acquired(i) => {
                self.retried = false;
                FrameAction::Render(i)
            },
            AcquireResult::Suboptimal(i) => {
                if self.retried {
                    self.retried = false;
                    FrameAction::Render(i)
                } else {
                    self.extent = surface;
                    self.retried = true;
                    FrameAction::Recreate(surface)
                }
            },
            AcquireResult::OutOfDate => {
                if self.retried {
                    self.retried = false;
                    FrameAction::Abort(VlError::VkException(out_of_date_code()))
                } else {
                    self.extent = surface;
                    self.retried = true;
                    FrameAction::Recreate(surface)
                }
            },
            AcquireResult::Failed(code) => {
                self.retried = false;
                FrameAction::Abort(VlError::VkException(code))
            },
        }
    }
}

/// An out-of-date swapchain followed by a successful acquisition gives
/// exactly one recreation, at the extent the surface reported, and then the
/// frame renders into the acquired image with the swapchain at that extent.
pub proof fn lemma_out_of_date_recreates_once(
    s: SwapchainState,
    surface: Extent,
    image: u32,
    later: Extent,
)
    requires
        !s.retried,
    ensures
        ({
            let (s1, a1) = acquire_step(s, AcquireResult::OutOfDate, surface);
            let (s2, a2) = acquire_step(s1, AcquireResult::Acquired(image), later);
            &&& a1 == FrameAction::Recreate(surface)
            &&& s1.extent == surface
            &&& a2 == FrameAction::Render(image)
            &&& s2 == SwapchainState { extent: surface, retried: false }
        }),
{
}

} // verus!
