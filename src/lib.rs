//! A builder-style core for drawing 2D shapes through a low-level graphics API.
//!
//! Everything here is plain data and decisions: shapes become indexed vertex
//! batches, batches become byte images of host-visible device buffers, and the
//! render target, pipeline and swapchain logic decide which device commands to
//! issue and in which order. A thin backend outside this crate performs them.

pub mod error;
pub mod geometry;
pub mod image;
pub mod instance;
pub mod memory;
pub mod path;
pub mod pipeline;
pub mod queue;
pub mod shader;
pub mod shape;
pub mod stage;
pub mod swapchain;
pub mod target;

pub use error::{HardwareError, VlError, VlResult};
pub use geometry::{IndexBuffer, Line, PathGeometry, Vec2, Vec4, Vertex};
pub use image::{Image, ImageBuilder, ImageType, MemoryRequirements};
pub use instance::{
    api_version_string, default_physical_device, select_queue_family, wants_surface,
    InstanceTarget,
};
pub use memory::{find_memory_type, BufferUsage, Buffer, DeviceMemory, MemoryType};
pub use path::Path;
pub use pipeline::{
    Pipeline, PipelineBuilder, PipelineDescription, PolygonMode, PrimitiveTopology, RenderPass,
    ShaderSet, VertexAttribute, VertexDataLayout, VertexFormat,
};
pub use queue::{Queue, QueueProperties};
pub use shader::{Shader, ShaderKind, Spirv};
pub use shape::Rectangle;
pub use stage::{Stage, StageBuilder, StageMode, MVP_SIZE};
pub use swapchain::{
    swapchain_config, AcquireResult, Extent, FrameAction, SurfaceCapabilities, SurfaceFormat,
    SwapchainConfig, SwapchainState,
};
pub use target::{
    rgba8_len, BeginPass, DrawCommand, FramePlan, FrameRecorder, FrameStart, PngRenderTarget,
    PresentPlan, RenderTargetBuilder, Resource, TargetHandles, TargetState, WindowRenderTarget,
};
