//! The render target: a frame is `begin`, any number of `fill`s, then `end`.
//!
//! Filling compiles geometry into device buffers at once, but drawing waits
//! for `end`, which lists the draw commands of every path in fill order under
//! one pipeline bind and one descriptor-set bind. The target also knows the
//! order in which everything it owns must be released.
use crate::error::{VlError, VlResult};
use crate::geometry::{PathGeometry, Vec4};
use crate::image::Image;
use crate::memory::{first_fit, MemoryType};
use crate::path::{compiled, CompiledBatch, Path};
use crate::pipeline::{Pipeline, RenderPass, ONE_F32_BITS};
use crate::stage::{Stage, MVP_SIZE};
use crate::swapchain::{acquire_step, AcquireResult, Extent, FrameAction, SwapchainState};
use vstd::prelude::*;

verus! {

/// Whether a frame is being recorded.
#[derive(Debug, Clone, Copy, PartialEq, Eq, Structural)]
pub enum TargetState {
    Idle,
    Recording,
}

/// One command recorded at the end of a frame.
#[derive(Debug, Clone, Copy, PartialEq, Eq, Structural)]
pub enum DrawCommand {
    BindPipeline(Pipeline),
    /// Binds the stage's transform descriptor set.
    BindDescriptorSet,
    /// Binds the vertex buffer of a path's batch at binding 0, offset 0.
    BindVertexBuffer { path: usize, batch: usize },
    /// Binds the index buffer of a path's batch, 32-bit indices.
    BindIndexBuffer { path: usize, batch: usize },
    /// Draws this many indices, one instance.
    DrawIndexed { index_count: usize },
}

/// Something a render target owns and must release.
#[derive(Debug, Clone, Copy, PartialEq, Eq, Structural)]
pub enum Resource {
    VertexMemory { path: usize, batch: usize },
    VertexBuffer { path: usize, batch: usize },
    IndexMemory { path: usize, batch: usize },
    IndexBuffer { path: usize, batch: usize },
    CommandPool,
    Framebuffer,
    Pipeline,
    PipelineLayout,
    DescriptorPool,
    DescriptorSetLayout,
    UniformMemory,
    UniformBuffer,
    RenderPass,
    ImageView,
    ImageMemory,
    Image,
    /// The frame's fence and semaphores.
    SyncObjects,
    Swapchain,
    Surface,
    Device,
    Instance,
}

/// `a` must be released before `b`: memory before what it backs, users
/// before what they use, children before their parents.
pub open spec fn must_precede(a: Resource, b: Resource) -> bool {
    match (a, b) {
        (
            Resource::VertexMemory { path: p, batch: q },
            Resource::VertexBuffer { path: p2, batch: q2 },
        ) => p == p2 && q == q2,
        (
            Resource::IndexMemory { path: p, batch: q },
            Resource::IndexBuffer { path: p2, batch: q2 },
        ) => p == p2 && q == q2,
        (Resource::UniformMemory, Resource::UniformBuffer) => true,
        (Resource::ImageMemory, Resource::Image) => true,
        (Resource::Framebuffer, Resource::ImageView) => true,
        (Resource::Framebuffer, Resource::RenderPass) => true,
        (Resource::ImageView, Resource::Image) => true,
        (Resource::Pipeline, Resource::RenderPass) => true,
        (Resource::Pipeline, Resource::PipelineLayout) => true,
        (Resource::PipelineLayout, Resource::DescriptorSetLayout) => true,
        (Resource::DescriptorPool, Resource::DescriptorSetLayout) => true,
        (Resource::ImageView, Resource::Swapchain) => true,
        (Resource::Framebuffer, Resource::Swapchain) => true,
        (Resource::Swapchain, Resource::Surface) => true,
        (_, Resource::Device) => a != Resource::Device && a != Resource::Instance && a
            != Resource::Surface,
        (_, Resource::Instance) => a != Resource::Instance,
        _ => false,
    }
}

/// Release phase of a resource.
pub open spec fn rank(r: Resource) -> nat {
    match r {
        Resource::VertexMemory { .. } | Resource::IndexMemory { .. } | Resource::UniformMemory
        | Resource::ImageMemory | Resource::CommandPool | Resource::Framebuffer
        | Resource::Pipeline | Resource::SyncObjects => 0,
        Resource::VertexBuffer { .. } | Resource::IndexBuffer { .. } | Resource::UniformBuffer
        | Resource::ImageView | Resource::PipelineLayout | Resource::DescriptorPool => 1,
        Resource::DescriptorSetLayout | Resource::RenderPass | Resource::Image
        | Resource::Swapchain => 2,
        Resource::Device | Resource::Surface => 3,
        Resource::Instance => 4,
    }
}

/// No resource comes after one that must be released after it.
pub open spec fn respects_dependencies(order: Seq<Resource>) -> bool {
    forall|i: int, j: int|
        0 <= i < j < order.len() ==> !must_precede(#[trigger] order[j], #[trigger] order[i])
}

pub open spec fn sorted_by_rank(order: Seq<Resource>) -> bool {
    forall|i: int, j: int| 0 <= i < j < order.len() ==> rank(#[trigger] order[i]) <= rank(
        #[trigger] order[j],
    )
}

/// Every dependency goes from an earlier release phase to a later one.
proof fn lemma_must_precede_rank(a: Resource, b: Resource)
    ensures
        must_precede(a, b) ==> rank(a) < rank(b),
{
}

/// An order sorted by release phase respects every dependency.
pub proof fn lemma_sorted_respects(order: Seq<Resource>)
    requires
        sorted_by_rank(order),
    ensures
        respects_dependencies(order),
{
    assert forall|i: int, j: int| 0 <= i < j < order.len() implies !must_precede(
        #[trigger] order[j],
        #[trigger] order[i],
    ) by {
        lemma_must_precede_rank(order[j], order[i]);
    }
}

/// Appends `x`, whose phase is not before any already listed.
fn push_ranked(out: &mut Vec<Resource>, x: Resource)
    requires
        sorted_by_rank(old(out)@),
        forall|k: int| 0 <= k < old(out)@.len() ==> rank(#[trigger] old(out)@[k]) <= rank(x),
    ensures
        final(out)@ == old(out)@.push(x),
        sorted_by_rank(final(out)@),
{
    out.push(x);
}

/// Batch `b` of path `p` has its vertex and index memory (or, with
/// `buffers`, its two buffers) in `order`.
pub open spec fn lists_batch(order: Seq<Resource>, p: int, b: int, buffers: bool) -> bool {
    if buffers {
        order.contains(Resource::VertexBuffer { path: p as usize, batch: b as usize })
            && order.contains(Resource::IndexBuffer { path: p as usize, batch: b as usize })
    } else {
        order.contains(Resource::VertexMemory { path: p as usize, batch: b as usize })
            && order.contains(Resource::IndexMemory { path: p as usize, batch: b as usize })
    }
}

/// Every batch of every path is listed in `order`.
pub open spec fn lists_path_resources(
    order: Seq<Resource>,
    paths: Seq<Seq<CompiledBatch>>,
    buffers: bool,
) -> bool {
    forall|p: int, b: int|
        0 <= p < paths.len() && 0 <= b < paths[p].len() ==> #[trigger] lists_batch(
            order,
            p,
            b,
            buffers,
        )
}

/// What is listed stays listed when the list only grows at its end.
proof fn lemma_lists_batch_kept(
    before: Seq<Resource>,
    after: Seq<Resource>,
    p: int,
    b: int,
    buffers: bool,
)
    requires
        before.len() <= after.len(),
        forall|k: int| 0 <= k < before.len() ==> after[k] == before[k],
    ensures
        lists_batch(before, p, b, buffers) ==> lists_batch(after, p, b, buffers),
{
    assert forall|x: Resource| before.contains(x) implies after.contains(x) by {
        let k = choose|k: int| 0 <= k < before.len() && before[k] == x;
        assert(after[k] == x);
    }
}

/// Appends, for every batch of every path, its two memories (or, with
/// `buffers`, its two buffers).
fn push_path_resources(out: &mut Vec<Resource>, paths: &Vec<Path>, buffers: bool)
    requires
        sorted_by_rank(old(out)@),
        forall|k: int|
            0 <= k < old(out)@.len() ==> rank(#[trigger] old(out)@[k]) <= phase_of(buffers),
        forall|p: int| 0 <= p < paths@.len() ==> (#[trigger] paths@[p]).wf(),
    ensures
        sorted_by_rank(final(out)@),
        forall|k: int|
            0 <= k < final(out)@.len() ==> rank(#[trigger] final(out)@[k]) <= phase_of(buffers),
        forall|k: int| 0 <= k < old(out)@.len() ==> final(out)@[k] == old(out)@[k],
        final(out)@.len() >= old(out)@.len(),
        lists_path_resources(final(out)@, paths@.map_values(|p: Path| p@), buffers),
{
    let ghost start = out@;
    let ghost all = paths@.map_values(|p: Path| p@);
    let mut p: usize = 0;
    while p < paths.len()
        invariant
            p <= paths@.len(),
            all == paths@.map_values(|p: Path| p@),
            forall|q: int| 0 <= q < paths@.len() ==> (#[trigger] paths@[q]).wf(),
            sorted_by_rank(out@),
            forall|k: int| 0 <= k < out@.len() ==> rank(#[trigger] out@[k]) <= phase_of(buffers),
            out@.len() >= start.len(),
            forall|k: int| 0 <= k < start.len() ==> out@[k] == start[k],
            forall|q: int, c: int|
                0 <= q < p && 0 <= c < all[q].len() ==> #[trigger] lists_batch(out@, q, c, buffers),
        decreases paths@.len() - p,
    {
        let n = paths[p].len();
        let mut b: usize = 0;
        while b < n
            invariant
                p < paths@.len(),
                b <= n,
                all == paths@.map_values(|p: Path| p@),
                n == all[p as int].len(),
                sorted_by_rank(out@),
                forall|k: int|
                    0 <= k < out@.len() ==> rank(#[trigger] out@[k]) <= phase_of(buffers),
                out@.len() >= start.len(),
                forall|k: int| 0 <= k < start.len() ==> out@[k] == start[k],
                forall|q: int, c: int|
                    (0 <= q < p && 0 <= c < all[q].len()) || (q == p && 0 <= c < b)
                        ==> #[trigger] lists_batch(out@, q, c, buffers),
            decreases n - b,
        {
            let ghost before = out@;
            let (v, i) = if buffers {
                (
                    Resource::VertexBuffer { path: p, batch: b },
                    Resource::IndexBuffer { path: p, batch: b },
                )
            } else {
                (
                    Resource::VertexMemory { path: p, batch: b },
                    Resource::IndexMemory { path: p, batch: b },
                )
            };
            push_ranked(out, v);
            push_ranked(out, i);
            proof {
                assert(out@ == before.push(v).push(i));
                assert(out@[out@.len() - 2] == v);
                assert(out@[out@.len() - 1] == i);
                assert(lists_batch(out@, p as int, b as int, buffers));
                assert forall|q: int, c: int|
                    (0 <= q < p && 0 <= c < all[q].len()) || (q == p && 0 <= c < b + 1)
                        implies #[trigger] lists_batch(out@, q, c, buffers) by {
                    lemma_lists_batch_kept(before, out@, q, c, buffers);
                }
            }
            b = b + 1;
        }
        p = p + 1;
    }
}

/// Release phase of the memories (0) or the buffers (1) of paths.
pub open spec fn phase_of(buffers: bool) -> nat {
    if buffers {
        1
    } else {
        0
    }
}

/// The draw commands of batch `b` of path `p`.
pub open spec fn batch_draws(p: nat, b: nat, c: CompiledBatch) -> Seq<DrawCommand> {
    seq![
        DrawCommand::BindVertexBuffer { path: p as usize, batch: b as usize },
        DrawCommand::BindIndexBuffer { path: p as usize, batch: b as usize },
        DrawCommand::DrawIndexed { index_count: c.index_count as usize },
    ]
}

/// The draw commands of path `p`, batch by batch.
pub open spec fn path_draws(p: nat, batches: Seq<CompiledBatch>) -> Seq<DrawCommand>
    decreases batches.len(),
{
    if batches.len() == 0 {
        seq![]
    } else {
        path_draws(p, batches.drop_last()) + batch_draws(
            p,
            (batches.len() - 1) as nat,
            batches.last(),
        )
    }
}

/// The draw commands of all paths, in order.
pub open spec fn paths_draws(paths: Seq<Seq<CompiledBatch>>) -> Seq<DrawCommand>
    decreases paths.len(),
{
    if paths.len() == 0 {
        seq![]
    } else {
        paths_draws(paths.drop_last()) + path_draws((paths.len() - 1) as nat, paths.last())
    }
}

/// What a frame records at its end: one pipeline bind, one descriptor-set
/// bind, then every path's draws.
pub open spec fn frame_draws(pipeline: Pipeline, paths: Seq<Seq<CompiledBatch>>) -> Seq<
    DrawCommand,
> {
    seq![DrawCommand::BindPipeline(pipeline), DrawCommand::BindDescriptorSet] + paths_draws(paths)
}

/// Bytes of an RGBA8 image of this size, when that fits in `usize`.
pub fn rgba8_len(width: u32, height: u32) -> (r: Option<usize>)
    ensures
        (width as int) * (height as int) * 4 <= usize::MAX ==> r == Some(
            ((width as int) * (height as int) * 4) as usize,
        ),
        (width as int) * (height as int) * 4 > usize::MAX ==> r is None,
{
    let w = width as usize;
    let h = height as usize;
    match w.checked_mul(h) {
        Some(area) => area.checked_mul(4),
        None => {
            proof {
                assert((w as int) * (h as int) * 4 > usize::MAX) by (nonlinear_arith)
                    requires
                        (w as int) * (h as int) > usize::MAX,
                ;
            }
            None
        },
    }
}

/// How a frame starts: the render pass over the framebuffer, cleared.
#[derive(Debug, Clone, Copy, PartialEq, Eq, Structural)]
pub struct BeginPass {
    pub render_pass: RenderPass,
    pub frame_buffer: u64,
    pub width: u32,
    pub height: u32,
    /// Clear color, as float bit patterns: opaque black.
    pub clear_color: Vec4,
}

/// How a frame ends.
#[derive(Debug, Clone)]
pub struct FramePlan {
    /// Recorded inside the render pass, before it ends; then the commands are
    /// submitted and the queue is waited on.
    pub draws: Vec<DrawCommand>,
    /// Bytes of pixel data to read back from the target image and encode,
    /// when that many fit in memory.
    pub readback_len: Option<usize>,
}

/// Raw handles of the device objects a target works with.
#[derive(Debug, Clone, Copy, PartialEq, Eq, Structural)]
pub struct TargetHandles {
    pub instance: u64,
    pub physical_device: u64,
    pub device: u64,
    pub queue: u64,
    pub command_buffer: u64,
}

/// Collects what a render target needs; each `build_*` checks that it is all there.
#[derive(Debug, Clone)]
pub struct RenderTargetBuilder {
    pub command_buffer: Option<u64>,
    pub device: Option<u64>,
    pub physical_device: Option<u64>,
    pub instance: Option<u64>,
    pub queue: Option<u64>,
    pub frame_buffer: Option<u64>,
    pub render_pass: Option<RenderPass>,
    pub pipeline: Option<Pipeline>,
    pub stage: Option<Stage>,
    pub image: Option<Image>,
}

/// The error `build_png` returns, if any, in checking order.
pub open spec fn png_build_error(b: RenderTargetBuilder) -> Option<VlError> {
    if b.command_buffer is None {
        Some(VlError::MissingParameter("command_buffer"))
    } else if b.physical_device is None {
        Some(VlError::MissingParameter("physical_device"))
    } else if b.device is None {
        Some(VlError::MissingParameter("logical_device"))
    } else if b.instance is None {
        Some(VlError::MissingParameter("instance"))
    } else if b.queue is None {
        Some(VlError::MissingParameter("queue"))
    } else if b.frame_buffer is None {
        Some(VlError::MissingParameter("frame_buffer"))
    } else if b.render_pass is None {
        Some(VlError::MissingParameter("render_pass"))
    } else if b.pipeline is None {
        Some(VlError::MissingParameter("pipeline"))
    } else if b.stage is None {
        Some(VlError::MissingParameter("stage"))
    } else if b.image is None {
        Some(VlError::MissingParameter("image"))
    } else {
        None
    }
}

impl RenderTargetBuilder {
    /// Nothing set.
    pub fn new() -> (r: RenderTargetBuilder)
        ensures
            r == (RenderTargetBuilder {
                command_buffer: None,
                device: None,
                physical_device: None,
                instance: None,
                queue: None,
                frame_buffer: None,
                render_pass: None,
                pipeline: None,
                stage: None,
                image: None,
            }),
    {
        RenderTargetBuilder {
            command_buffer: None,
            device: None,
            physical_device: None,
            instance: None,
            queue: None,
            frame_buffer: None,
            render_pass: None,
            pipeline: None,
            stage: None,
            image: None,
        }
    }

    pub fn instance(self, instance: u64) -> (r: RenderTargetBuilder)
        ensures
            r == (RenderTargetBuilder { instance: Some(instance), ..self }),
    {
        RenderTargetBuilder { instance: Some(instance), ..self }
    }

    pub fn queue(self, queue: u64) -> (r: RenderTargetBuilder)
        ensures
            r == (RenderTargetBuilder { queue: Some(queue), ..self }),
    {
        RenderTargetBuilder { queue: Some(queue), ..self }
    }

    pub fn renderpass(self, render_pass: RenderPass) -> (r: RenderTargetBuilder)
        ensures
            r == (RenderTargetBuilder { render_pass: Some(render_pass), ..self }),
    {
        RenderTargetBuilder { render_pass: Some(render_pass), ..self }
    }

    pub fn frame_buffer(self, frame_buffer: u64) -> (r: RenderTargetBuilder)
        ensures
            r == (RenderTargetBuilder { frame_buffer: Some(frame_buffer), ..self }),
    {
        RenderTargetBuilder { frame_buffer: Some(frame_buffer), ..self }
    }

    pub fn pipeline(self, pipeline: Pipeline) -> (r: RenderTargetBuilder)
        ensures
            r == (RenderTargetBuilder { pipeline: Some(pipeline), ..self }),
    {
        RenderTargetBuilder { pipeline: Some(pipeline), ..self }
    }

    pub fn logical_device(self, device: u64) -> (r: RenderTargetBuilder)
        ensures
            r == (RenderTargetBuilder { device: Some(device), ..self }),
    {
        RenderTargetBuilder { device: Some(device), ..self }
    }

    pub fn physical_device(self, physical_device: u64) -> (r: RenderTargetBuilder)
        ensures
            r == (RenderTargetBuilder { physical_device: Some(physical_device), ..self }),
    {
        RenderTargetBuilder { physical_device: Some(physical_device), ..self }
    }

    pub fn command_buffer(self, command_buffer: u64) -> (r: RenderTargetBuilder)
        ensures
            r == (RenderTargetBuilder { command_buffer: Some(command_buffer), ..self }),
    {
        RenderTargetBuilder { command_buffer: Some(command_buffer), ..self }
    }

    pub fn image(self, image: Option<Image>) -> (r: RenderTargetBuilder)
        ensures
            r == (RenderTargetBuilder { image, ..self }),
    {
        RenderTargetBuilder { image, ..self }
    }

    pub fn stage(self, stage: Stage) -> (r: RenderTargetBuilder)
        ensures
            r == (RenderTargetBuilder { stage: Some(stage), ..self }),
    {
        RenderTargetBuilder { stage: Some(stage), ..self }
    }

    /// A target that renders `width` by `height` frames into the image and
    /// writes each to `file_path` as PNG. Path buffers are placed in memory
    /// of the first of `memory_types` that `buffer_type_bits` allows and that
    /// is host visible. Fails, naming the first missing parameter, before
    /// anything is created.
    pub fn build_png(
        self,
        file_path: String,
        width: u32,
        height: u32,
        memory_types: Vec<MemoryType>,
        buffer_type_bits: u32,
    ) -> (r: VlResult<PngRenderTarget>)
        requires
            self.stage matches Some(s) ==> s.wf(),
        ensures
            match png_build_error(self) {
                Some(e) => r is Err && r->Err_0 == e,
                None => r is Ok && {
                    let t = r->Ok_0;
                    &&& t.wf()
                    &&& t.state_spec() == TargetState::Idle
                    &&& t.paths_spec() == Seq::<Seq<CompiledBatch>>::empty()
                    &&& t.width_spec() == width
                    &&& t.height_spec() == height
                    &&& t.file_path_spec() == file_path@
                    &&& t.pipeline_spec() == self.pipeline->Some_0
                    &&& t.memory_types_spec() == memory_types@
                    &&& t.buffer_type_bits_spec() == buffer_type_bits
                },
            },
    {
        let command_buffer = match self.command_buffer {
            Some(x) => x,
            None => {
                return Err(VlError::MissingParameter("command_buffer"));
            },
        };
        let physical_device = match self.physical_device {
            Some(x) => x,
            None => {
                return Err(VlError::MissingParameter("physical_device"));
            },
        };
        let device = match self.device {
            Some(x) => x,
            None => {
                return Err(VlError::MissingParameter("logical_device"));
            },
        };
        let instance = match self.instance {
            Some(x) => x,
            None => {
                return Err(VlError::MissingParameter("instance"));
            },
        };
        let queue = match self.queue {
            Some(x) => x,
            None => {
                return Err(VlError::MissingParameter("queue"));
            },
        };
        let frame_buffer = match self.frame_buffer {
            Some(x) => x,
            None => {
                return Err(VlError::MissingParameter("frame_buffer"));
            },
        };
        let render_pass = match self.render_pass {
            Some(x) => x,
            None => {
                return Err(VlError::MissingParameter("render_pass"));
            },
        };
        let pipeline = match self.pipeline {
            Some(x) => x,
            None => {
                return Err(VlError::MissingParameter("pipeline"));
            },
        };
        let stage = match self.stage {
            Some(x) => x,
            None => {
                return Err(VlError::MissingParameter("stage"));
            },
        };
        let image = match self.image {
            Some(x) => x,
            None => {
                return Err(VlError::MissingParameter("image"));
            },
        };
        let r = PngRenderTarget {
            recorder: FrameRecorder::new(pipeline, memory_types, buffer_type_bits),
            handles: TargetHandles {
                instance,
                physical_device,
                device,
                queue,
                command_buffer,
            },
            frame_buffer,
            stage,
            render_pass,
            image,
            width,
            height,
            file_path,
        };
        Ok(r)
    }
}

/// The frame state machine every render target embeds: whether a frame is
/// being recorded, the compiled paths, the pipeline that draws them and the
/// memory they are placed in.
#[derive(Debug, Clone)]
pub struct FrameRecorder {
    state: TargetState,
    paths: Vec<Path>,
    pipeline: Pipeline,
    memory_types: Vec<MemoryType>,
    buffer_type_bits: u32,
}

impl FrameRecorder {
    /// Every path is well formed.
    pub closed spec fn wf(&self) -> bool {
        forall|p: int| 0 <= p < self.paths@.len() ==> (#[trigger] self.paths@[p]).wf()
    }

    pub closed spec fn state_spec(&self) -> TargetState {
        self.state
    }

    /// The compiled paths, in fill order.
    pub closed spec fn paths_spec(&self) -> Seq<Seq<CompiledBatch>> {
        self.paths@.map_values(|p: Path| p@)
    }

    pub closed spec fn pipeline_spec(&self) -> Pipeline {
        self.pipeline
    }

    pub closed spec fn memory_types_spec(&self) -> Seq<MemoryType> {
        self.memory_types@
    }

    pub closed spec fn buffer_type_bits_spec(&self) -> u32 {
        self.buffer_type_bits
    }

    /// Same pipeline and memory.
    pub closed spec fn same_setup(&self, other: &FrameRecorder) -> bool {
        &&& self.pipeline == other.pipeline
        &&& self.memory_types == other.memory_types
        &&& self.buffer_type_bits == other.buffer_type_bits
    }

    /// An idle recorder without paths. Path buffers go to memory of the first
    /// of `memory_types` that `buffer_type_bits` allows and that is host visible.
    pub fn new(pipeline: Pipeline, memory_types: Vec<MemoryType>, buffer_type_bits: u32) -> (r:
        FrameRecorder)
        ensures
            r.wf(),
            r.state_spec() == TargetState::Idle,
            r.paths_spec() == Seq::<Seq<CompiledBatch>>::empty(),
            r.pipeline_spec() == pipeline,
            r.memory_types_spec() == memory_types@,
            r.buffer_type_bits_spec() == buffer_type_bits,
    {
        let r = FrameRecorder {
            state: TargetState::Idle,
            paths: Vec::new(),
            pipeline,
            memory_types,
            buffer_type_bits,
        };
        assert(r.paths_spec() =~= Seq::<Seq<CompiledBatch>>::empty());
        r
    }

    pub fn state(&self) -> (r: TargetState)
        ensures
            r == self.state_spec(),
    {
        self.state
    }

    pub fn paths(&self) -> (r: &Vec<Path>)
        ensures
            r@.map_values(|p: Path| p@) == self.paths_spec(),
    {
        &self.paths
    }

    pub fn pipeline(&self) -> (r: Pipeline)
        ensures
            r == self.pipeline_spec(),
    {
        self.pipeline
    }

    /// Starts recording a frame.
    pub fn begin(&mut self) -> (r: VlResult<()>)
        ensures
            old(self).state_spec() == TargetState::Recording ==> r == Err::<(), VlError>(
                VlError::InvalidState("a frame is already being recorded"),
            ) && *final(self) == *old(self),
            old(self).state_spec() == TargetState::Idle ==> r is Ok && final(self).state_spec()
                == TargetState::Recording && final(self).paths_spec() == old(self).paths_spec()
                && final(self).same_setup(old(self)),
            final(self).wf() == old(self).wf(),
    {
        if self.state == TargetState::Recording {
            return Err(VlError::InvalidState("a frame is already being recorded"));
        }
        self.state = TargetState::Recording;
        Ok(())
    }

    /// Compiles `geometry` into device buffers and keeps it for drawing at
    /// `end`. Only a frame being recorded accepts geometry.
    pub fn fill(&mut self, geometry: &PathGeometry) -> (r: VlResult<()>)
        requires
            old(self).wf(),
            geometry.wf(),
        ensures
            final(self).wf(),
            old(self).state_spec() == TargetState::Idle ==> r == Err::<(), VlError>(
                VlError::InvalidState("no frame is being recorded"),
            ) && *final(self) == *old(self),
            old(self).state_spec() == TargetState::Recording ==> {
                let t = first_fit(old(self).buffer_type_bits_spec(), old(self).memory_types_spec());
                if geometry@.len() > 0 && t is None {
                    r == Err::<(), VlError>(VlError::NoSuitableMemory) && *final(self) == *old(self)
                } else {
                    &&& r is Ok
                    &&& final(self).state_spec() == TargetState::Recording
                    &&& final(self).same_setup(old(self))
                    &&& final(self).paths_spec() == old(self).paths_spec().push(
                        Seq::new(geometry@.len(), |i: int| compiled(geometry@[i], t->Some_0)),
                    )
                }
            },
    {
        if self.state == TargetState::Idle {
            return Err(VlError::InvalidState("no frame is being recorded"));
        }
        match geometry.into_path(self.buffer_type_bits, &self.memory_types) {
            Ok(path) => {
                let ghost t = first_fit(self.buffer_type_bits, self.memory_types@)->Some_0;
                assert(path@ =~= Seq::new(geometry@.len(), |i: int| compiled(geometry@[i], t)));
                self.paths.push(path);
                assert(self.paths@.map_values(|p: Path| p@) =~= old(self).paths_spec().push(
                    Seq::new(geometry@.len(), |i: int| compiled(geometry@[i], t)),
                ));
                Ok(())
            },
            Err(e) => Err(e),
        }
    }

    /// Ends the frame and lists its draw commands.
    pub fn end(&mut self) -> (r: VlResult<Vec<DrawCommand>>)
        requires
            old(self).wf(),
        ensures
            final(self).wf(),
            old(self).state_spec() == TargetState::Idle ==> r is Err && r->Err_0
                == VlError::InvalidState("no frame is being recorded") && *final(self) == *old(self),
            old(self).state_spec() == TargetState::Recording ==> {
                &&& r is Ok
                &&& r->Ok_0@ == frame_draws(old(self).pipeline_spec(), old(self).paths_spec())
                &&& final(self).state_spec() == TargetState::Idle
                &&& final(self).paths_spec() == old(self).paths_spec()
                &&& final(self).same_setup(old(self))
            },
    {
        if self.state == TargetState::Idle {
            return Err(VlError::InvalidState("no frame is being recorded"));
        }
        let draws = record_draws(self.pipeline, &self.paths);
        self.state = TargetState::Idle;
        Ok(draws)
    }

    /// Drops every path and lists the release of their buffers: all memory
    /// first, then the buffers it backed.
    pub fn clear(&mut self) -> (r: Vec<Resource>)
        requires
            old(self).wf(),
        ensures
            final(self).wf(),
            final(self).paths_spec() == Seq::<Seq<CompiledBatch>>::empty(),
            final(self).state_spec() == old(self).state_spec(),
            final(self).same_setup(old(self)),
            respects_dependencies(r@),
            lists_path_resources(r@, old(self).paths_spec(), false),
            lists_path_resources(r@, old(self).paths_spec(), true),
    {
        let mut out: Vec<Resource> = Vec::new();
        push_path_resources(&mut out, &self.paths, false);
        let ghost mid = out@;
        push_path_resources(&mut out, &self.paths, true);
        proof {
            lemma_lists_kept(mid, out@, self.paths_spec(), false);
            lemma_sorted_respects(out@);
        }
        self.paths = Vec::new();
        assert(self.paths_spec() =~= Seq::<Seq<CompiledBatch>>::empty());
        out
    }

    /// Draws with `pipeline` from now on; refused while a frame is recorded.
    pub fn set_pipeline(&mut self, pipeline: Pipeline) -> (r: VlResult<()>)
        ensures
            final(self).wf() == old(self).wf(),
            old(self).state_spec() == TargetState::Recording ==> r == Err::<(), VlError>(
                VlError::InvalidState("a frame is being recorded"),
            ) && *final(self) == *old(self),
            old(self).state_spec() == TargetState::Idle ==> r is Ok && final(self).pipeline_spec()
                == pipeline && final(self).state_spec() == TargetState::Idle && final(
                self).paths_spec() == old(self).paths_spec() && final(self).memory_types_spec()
                == old(self).memory_types_spec() && final(self).buffer_type_bits_spec() == old(
                self).buffer_type_bits_spec(),
    {
        if self.state == TargetState::Recording {
            return Err(VlError::InvalidState("a frame is being recorded"));
        }
        self.pipeline = pipeline;
        assert(self.paths@ == old(self).paths@);
        Ok(())
    }
}

/// A render target whose frames are written to a PNG file.
#[derive(Debug, Clone)]
pub struct PngRenderTarget {
    recorder: FrameRecorder,
    handles: TargetHandles,
    frame_buffer: u64,
    stage: Stage,
    render_pass: RenderPass,
    image: Image,
    width: u32,
    height: u32,
    file_path: String,
}

impl PngRenderTarget {
    /// The recorder and the stage are well formed.
    pub closed spec fn wf(&self) -> bool {
        &&& self.recorder.wf()
        &&& self.stage.wf()
    }

    pub closed spec fn state_spec(&self) -> TargetState {
        self.recorder.state_spec()
    }

    /// The compiled paths, in fill order.
    pub closed spec fn paths_spec(&self) -> Seq<Seq<CompiledBatch>> {
        self.recorder.paths_spec()
    }

    pub closed spec fn width_spec(&self) -> u32 {
        self.width
    }

    pub closed spec fn height_spec(&self) -> u32 {
        self.height
    }

    pub closed spec fn file_path_spec(&self) -> Seq<char> {
        self.file_path@
    }

    pub closed spec fn pipeline_spec(&self) -> Pipeline {
        self.recorder.pipeline_spec()
    }

    pub closed spec fn memory_types_spec(&self) -> Seq<MemoryType> {
        self.recorder.memory_types_spec()
    }

    pub closed spec fn buffer_type_bits_spec(&self) -> u32 {
        self.recorder.buffer_type_bits_spec()
    }

    pub closed spec fn stage_spec(&self) -> Stage {
        self.stage
    }

    pub closed spec fn handles_spec(&self) -> TargetHandles {
        self.handles
    }

    pub closed spec fn render_pass_spec(&self) -> RenderPass {
        self.render_pass
    }

    pub closed spec fn frame_buffer_spec(&self) -> u64 {
        self.frame_buffer
    }

    pub closed spec fn image_spec(&self) -> Image {
        self.image
    }

    /// Everything but the state and the paths.
    pub closed spec fn same_setup(&self, other: &PngRenderTarget) -> bool {
        &&& self.recorder.same_setup(&other.recorder)
        &&& self.handles == other.handles
        &&& self.frame_buffer == other.frame_buffer
        &&& self.stage == other.stage
        &&& self.render_pass == other.render_pass
        &&& self.image == other.image
        &&& self.width == other.width
        &&& self.height == other.height
        &&& self.file_path == other.file_path
    }

    pub fn state(&self) -> (r: TargetState)
        ensures
            r == self.state_spec(),
    {
        self.recorder.state()
    }

    pub fn paths(&self) -> (r: &Vec<Path>)
        ensures
            r@.map_values(|p: Path| p@) == self.paths_spec(),
    {
        self.recorder.paths()
    }

    /// Raw handles of the device objects the target works with.
    pub fn handles(&self) -> (r: TargetHandles)
        ensures
            r == self.handles_spec(),
    {
        self.handles
    }

    /// The image frames are rendered into.
    pub fn image(&self) -> (r: Image)
        ensures
            r == self.image_spec(),
    {
        self.image
    }

    pub fn file_path(&self) -> (r: &str)
        ensures
            r@ == self.file_path_spec(),
    {
        self.file_path.as_str()
    }

    pub fn width(&self) -> (r: u32)
        ensures
            r == self.width_spec(),
    {
        self.width
    }

    pub fn height(&self) -> (r: u32)
        ensures
            r == self.height_spec(),
    {
        self.height
    }

    /// The stage.
    pub fn stage(&self) -> (r: &Stage)
        ensures
            *r == self.stage_spec(),
    {
        &self.stage
    }

    /// Starts recording a frame.
    pub fn begin(&mut self) -> (r: VlResult<BeginPass>)
        ensures
            old(self).state_spec() == TargetState::Recording ==> r == Err::<BeginPass, VlError>(
                VlError::InvalidState("a frame is already being recorded"),
            ) && *final(self) == *old(self),
            old(self).state_spec() == TargetState::Idle ==> r is Ok && final(self).state_spec()
                == TargetState::Recording && final(self).paths_spec() == old(self).paths_spec()
                && final(self).same_setup(old(self)) && r->Ok_0 == (BeginPass {
                render_pass: old(self).render_pass_spec(),
                frame_buffer: old(self).frame_buffer_spec(),
                width: old(self).width_spec(),
                height: old(self).height_spec(),
                clear_color: black(),
            }),
            final(self).wf() == old(self).wf(),
    {
        match self.recorder.begin() {
            Ok(()) => Ok(
                BeginPass {
                    render_pass: self.render_pass,
                    frame_buffer: self.frame_buffer,
                    width: self.width,
                    height: self.height,
                    clear_color: Vec4 { x: 0, y: 0, z: 0, w: ONE_F32_BITS },
                },
            ),
            Err(e) => Err(e),
        }
    }

    /// Compiles `geometry` into device buffers and keeps it for drawing at
    /// `end`. Only a frame being recorded accepts geometry.
    pub fn fill(&mut self, geometry: &PathGeometry) -> (r: VlResult<()>)
        requires
            old(self).wf(),
            geometry.wf(),
        ensures
            final(self).wf(),
            old(self).state_spec() == TargetState::Idle ==> r == Err::<(), VlError>(
                VlError::InvalidState("no frame is being recorded"),
            ) && *final(self) == *old(self),
            old(self).state_spec() == TargetState::Recording ==> {
                let t = first_fit(old(self).buffer_type_bits_spec(), old(self).memory_types_spec());
                if geometry@.len() > 0 && t is None {
                    r == Err::<(), VlError>(VlError::NoSuitableMemory) && *final(self) == *old(self)
                } else {
                    &&& r is Ok
                    &&& final(self).state_spec() == TargetState::Recording
                    &&& final(self).same_setup(old(self))
                    &&& final(self).paths_spec() == old(self).paths_spec().push(
                        Seq::new(geometry@.len(), |i: int| compiled(geometry@[i], t->Some_0)),
                    )
                }
            },
    {
        self.recorder.fill(geometry)
    }

    /// Ends the frame: lists its draw commands and how much to read back.
    pub fn end(&mut self) -> (r: VlResult<FramePlan>)
        requires
            old(self).wf(),
        ensures
            final(self).wf(),
            old(self).state_spec() == TargetState::Idle ==> r is Err && r->Err_0
                == VlError::InvalidState("no frame is being recorded") && *final(self) == *old(self),
            old(self).state_spec() == TargetState::Recording ==> {
                &&& r is Ok
                &&& r->Ok_0.draws@ == frame_draws(old(self).pipeline_spec(), old(self).paths_spec())
                &&& r->Ok_0.readback_len == rgba8_len_spec(
                    old(self).width_spec(),
                    old(self).height_spec(),
                )
                &&& final(self).state_spec() == TargetState::Idle
                &&& final(self).paths_spec() == old(self).paths_spec()
                &&& final(self).same_setup(old(self))
            },
    {
        match self.recorder.end() {
            Ok(draws) => Ok(FramePlan { draws, readback_len: rgba8_len(self.width, self.height) }),
            Err(e) => Err(e),
        }
    }

    /// Writes new transform matrices into the stage's uniform buffer; refused
    /// while a frame that reads it is being recorded.
    pub fn update_stage(&mut self, mvp: Vec<u8>) -> (r: VlResult<()>)
        requires
            old(self).wf(),
        ensures
            final(self).wf(),
            old(self).state_spec() == TargetState::Idle && mvp@.len() != MVP_SIZE ==> r
                == Err::<(), VlError>(VlError::OutOfMemory) && *final(self) == *old(self),
            old(self).state_spec() == TargetState::Recording ==> r == Err::<(), VlError>(
                VlError::InvalidState("a frame is being recorded"),
            ) && *final(self) == *old(self),
            old(self).state_spec() == TargetState::Idle && mvp@.len() == MVP_SIZE ==> r is Ok && final(
                self).stage_spec().uniform_spec().memory->Some_0.data == mvp@ && final(
                self).state_spec() == old(self).state_spec() && final(self).paths_spec() == old(
                self).paths_spec(),
    {
        if self.recorder.state() == TargetState::Recording {
            return Err(VlError::InvalidState("a frame is being recorded"));
        }
        self.stage.update(mvp)
    }

    /// Drops every path and lists the release of their buffers: all memory
    /// first, then the buffers it backed.
    pub fn clear(&mut self) -> (r: Vec<Resource>)
        requires
            old(self).wf(),
        ensures
            final(self).wf(),
            final(self).paths_spec() == Seq::<Seq<CompiledBatch>>::empty(),
            final(self).state_spec() == old(self).state_spec(),
            final(self).same_setup(old(self)),
            respects_dependencies(r@),
            lists_path_resources(r@, old(self).paths_spec(), false),
            lists_path_resources(r@, old(self).paths_spec(), true),
    {
        self.recorder.clear()
    }

    /// Lists the release of everything the target owns, in an order where
    /// memory goes before what it backs and every object before the objects
    /// it was created from or uses.
    pub fn teardown(self) -> (r: Vec<Resource>)
        requires
            self.wf(),
        ensures
            respects_dependencies(r@),
            lists_path_resources(r@, self.paths_spec(), false),
            lists_path_resources(r@, self.paths_spec(), true),
            r@.contains(Resource::CommandPool),
            r@.contains(Resource::Framebuffer),
            r@.contains(Resource::Pipeline),
            r@.contains(Resource::PipelineLayout),
            r@.contains(Resource::DescriptorPool),
            r@.contains(Resource::DescriptorSetLayout),
            r@.contains(Resource::UniformMemory),
            r@.contains(Resource::UniformBuffer),
            r@.contains(Resource::RenderPass),
            r@.contains(Resource::ImageView),
            r@.contains(Resource::ImageMemory),
            r@.contains(Resource::Image),
            r@.contains(Resource::Device),
            r@.contains(Resource::Instance),
    {
        let mut out: Vec<Resource> = Vec::new();
        push_ranked(&mut out, Resource::CommandPool);
        push_ranked(&mut out, Resource::Framebuffer);
        push_ranked(&mut out, Resource::Pipeline);
        push_path_resources(&mut out, &self.recorder.paths, false);
        let ghost a = out@;
        push_ranked(&mut out, Resource::UniformMemory);
        push_ranked(&mut out, Resource::ImageMemory);
        push_path_resources(&mut out, &self.recorder.paths, true);
        let ghost b = out@;
        push_ranked(&mut out, Resource::UniformBuffer);
        push_ranked(&mut out, Resource::ImageView);
        push_ranked(&mut out, Resource::PipelineLayout);
        push_ranked(&mut out, Resource::DescriptorPool);
        push_ranked(&mut out, Resource::DescriptorSetLayout);
        push_ranked(&mut out, Resource::RenderPass);
        push_ranked(&mut out, Resource::Image);
        push_ranked(&mut out, Resource::Device);
        push_ranked(&mut out, Resource::Instance);
        proof {
            lemma_lists_kept(a, out@, self.paths_spec(), false);
            lemma_lists_kept(b, out@, self.paths_spec(), true);
            lemma_sorted_respects(out@);
            assert(out@[0] == Resource::CommandPool);
            assert(out@[1] == Resource::Framebuffer);
            assert(out@[2] == Resource::Pipeline);
            assert(out@[a.len() as int] == Resource::UniformMemory);
            assert(out@[a.len() as int + 1] == Resource::ImageMemory);
            let n = b.len() as int;
            assert(out@[n] == Resource::UniformBuffer);
            assert(out@[n + 1] == Resource::ImageView);
            assert(out@[n + 2] == Resource::PipelineLayout);
            assert(out@[n + 3] == Resource::DescriptorPool);
            assert(out@[n + 4] == Resource::DescriptorSetLayout);
            assert(out@[n + 5] == Resource::RenderPass);
            assert(out@[n + 6] == Resource::Image);
            assert(out@[n + 7] == Resource::Device);
            assert(out@[n + 8] == Resource::Instance);
        }
        out
    }
}

/// Opaque black, the color frames are cleared to, as float bit patterns.
pub open spec fn black() -> Vec4 {
    Vec4 { x: 0, y: 0, z: 0, w: ONE_F32_BITS }
}

/// How a window frame starts.
#[derive(Debug, Clone, Copy)]
pub enum FrameStart {
    /// Record into the acquired image.
    Begin(BeginPass),
    /// The swapchain went stale: release what `recreate_releases` lists,
    /// recreate the swapchain and its dependents at this extent, hand them
    /// to `replace_swapchain`, and acquire again.
    Recreate(Extent),
}

/// How a window frame ends.
#[derive(Debug, Clone)]
pub struct PresentPlan {
    /// Recorded inside the render pass; then the commands are submitted,
    /// waiting on image acquisition and signalling the end of rendering.
    pub draws: Vec<DrawCommand>,
    /// The swapchain image to present once rendering has finished.
    pub image_index: u32,
}

/// The error `build_window` returns, if any, in checking order.
pub open spec fn window_build_error(b: RenderTargetBuilder) -> Option<VlError> {
    if b.command_buffer is None {
        Some(VlError::MissingParameter("command_buffer"))
    } else if b.physical_device is None {
        Some(VlError::MissingParameter("physical_device"))
    } else if b.device is None {
        Some(VlError::MissingParameter("logical_device"))
    } else if b.instance is None {
        Some(VlError::MissingParameter("instance"))
    } else if b.queue is None {
        Some(VlError::MissingParameter("queue"))
    } else if b.render_pass is None {
        Some(VlError::MissingParameter("render_pass"))
    } else if b.pipeline is None {
        Some(VlError::MissingParameter("pipeline"))
    } else if b.stage is None {
        Some(VlError::MissingParameter("stage"))
    } else {
        None
    }
}

impl RenderTargetBuilder {
    /// A target that presents to a window through a swapchain created at
    /// `extent`, with one framebuffer per swapchain image. Fails, naming the
    /// first missing parameter, before anything is created.
    pub fn build_window(
        self,
        frame_buffers: Vec<u64>,
        extent: Extent,
        memory_types: Vec<MemoryType>,
        buffer_type_bits: u32,
    ) -> (r: VlResult<WindowRenderTarget>)
        requires
            self.stage matches Some(s) ==> s.wf(),
        ensures
            match window_build_error(self) {
                Some(e) => r is Err && r->Err_0 == e,
                None => r is Ok && {
                    let t = r->Ok_0;
                    &&& t.wf()
                    &&& t.state_spec() == TargetState::Idle
                    &&& t.paths_spec() == Seq::<Seq<CompiledBatch>>::empty()
                    &&& t.swapchain_spec() == SwapchainState { extent, retried: false }
                    &&& t.frame_buffers_spec() == frame_buffers@
                    &&& t.pipeline_spec() == self.pipeline->Some_0
                },
            },
    {
        let command_buffer = match self.command_buffer {
            Some(x) => x,
            None => {
                return Err(VlError::MissingParameter("command_buffer"));
            },
        };
        let physical_device = match self.physical_device {
            Some(x) => x,
            None => {
                return Err(VlError::MissingParameter("physical_device"));
            },
        };
        let device = match self.device {
            Some(x) => x,
            None => {
                return Err(VlError::MissingParameter("logical_device"));
            },
        };
        let instance = match self.instance {
            Some(x) => x,
            None => {
                return Err(VlError::MissingParameter("instance"));
            },
        };
        let queue = match self.queue {
            Some(x) => x,
            None => {
                return Err(VlError::MissingParameter("queue"));
            },
        };
        let render_pass = match self.render_pass {
            Some(x) => x,
            None => {
                return Err(VlError::MissingParameter("render_pass"));
            },
        };
        let pipeline = match self.pipeline {
            Some(x) => x,
            None => {
                return Err(VlError::MissingParameter("pipeline"));
            },
        };
        let stage = match self.stage {
            Some(x) => x,
            None => {
                return Err(VlError::MissingParameter("stage"));
            },
        };
        Ok(
            WindowRenderTarget {
                recorder: FrameRecorder::new(pipeline, memory_types, buffer_type_bits),
                handles: TargetHandles { instance, physical_device, device, queue, command_buffer },
                stage,
                render_pass,
                frame_buffers,
                swapchain: SwapchainState::new(extent),
                image_index: 0,
            },
        )
    }
}

/// A render target that presents its frames to a window surface.
#[derive(Debug, Clone)]
pub struct WindowRenderTarget {
    recorder: FrameRecorder,
    handles: TargetHandles,
    stage: Stage,
    render_pass: RenderPass,
    frame_buffers: Vec<u64>,
    swapchain: SwapchainState,
    image_index: u32,
}

impl WindowRenderTarget {
    /// The recorder and the stage are well formed.
    pub closed spec fn wf(&self) -> bool {
        &&& self.recorder.wf()
        &&& self.stage.wf()
    }

    pub closed spec fn state_spec(&self) -> TargetState {
        self.recorder.state_spec()
    }

    pub closed spec fn paths_spec(&self) -> Seq<Seq<CompiledBatch>> {
        self.recorder.paths_spec()
    }

    pub closed spec fn pipeline_spec(&self) -> Pipeline {
        self.recorder.pipeline_spec()
    }

    pub closed spec fn swapchain_spec(&self) -> SwapchainState {
        self.swapchain
    }

    pub closed spec fn memory_types_spec(&self) -> Seq<MemoryType> {
        self.recorder.memory_types_spec()
    }

    pub closed spec fn buffer_type_bits_spec(&self) -> u32 {
        self.recorder.buffer_type_bits_spec()
    }

    pub closed spec fn frame_buffers_spec(&self) -> Seq<u64> {
        self.frame_buffers@
    }

    pub closed spec fn render_pass_spec(&self) -> RenderPass {
        self.render_pass
    }

    pub closed spec fn image_index_spec(&self) -> u32 {
        self.image_index
    }

    pub closed spec fn stage_spec(&self) -> Stage {
        self.stage
    }

    pub fn state(&self) -> (r: TargetState)
        ensures
            r == self.state_spec(),
    {
        self.recorder.state()
    }

    pub fn paths(&self) -> (r: &Vec<Path>)
        ensures
            r@.map_values(|p: Path| p@) == self.paths_spec(),
    {
        self.recorder.paths()
    }

    pub closed spec fn handles_spec(&self) -> TargetHandles {
        self.handles
    }

    /// Raw handles of the device objects the target works with.
    pub fn handles(&self) -> (r: TargetHandles)
        ensures
            r == self.handles_spec(),
    {
        self.handles
    }

    /// The extent the swapchain was last created at.
    pub fn extent(&self) -> (r: Extent)
        ensures
            r == self.swapchain_spec().extent,
    {
        self.swapchain.extent
    }

    pub fn stage(&self) -> (r: &Stage)
        ensures
            *r == self.stage_spec(),
    {
        &self.stage
    }

    /// Starts a frame from what acquiring the next image reported, with the
    /// surface now at `surface`. A stale swapchain is recreated once per
    /// frame, at the surface's extent, which the stage takes on; a second
    /// stale result, or any other failure, aborts the frame.
    pub fn begin_frame(&mut self, result: AcquireResult, surface: Extent) -> (r: VlResult<
        FrameStart,
    >)
        requires
            old(self).wf(),
        ensures
            final(self).wf(),
            final(self).paths_spec() == old(self).paths_spec(),
            final(self).pipeline_spec() == old(self).pipeline_spec(),
            old(self).state_spec() == TargetState::Recording ==> r is Err && r->Err_0
                == VlError::InvalidState("a frame is already being recorded") && *final(self)
                == *old(self),
            old(self).state_spec() == TargetState::Idle ==> {
                let (s, a) = acquire_step(old(self).swapchain_spec(), result, surface);
                &&& final(self).swapchain_spec() == s
                &&& match a {
                    FrameAction::Render(i) => if i < old(self).frame_buffers_spec().len() {
                        &&& r is Ok
                        &&& r->Ok_0 matches FrameStart::Begin(p) && p == (BeginPass {
                            render_pass: old(self).render_pass_spec(),
                            frame_buffer: old(self).frame_buffers_spec()[i as int],
                            width: s.extent.width,
                            height: s.extent.height,
                            clear_color: black(),
                        })
                        &&& final(self).state_spec() == TargetState::Recording
                        &&& final(self).image_index_spec() == i
                    } else {
                        &&& r is Err
                        &&& r->Err_0 == VlError::InvalidState("no framebuffer for the acquired image")
                        &&& final(self).state_spec() == TargetState::Idle
                    },
                    FrameAction::Recreate(e) => {
                        &&& r is Ok
                        &&& r->Ok_0 matches FrameStart::Recreate(x) && x == e
                        &&& final(self).state_spec() == TargetState::Idle
                        &&& final(self).stage_spec().width_spec() == e.width
                        &&& final(self).stage_spec().height_spec() == e.height
                    },
                    FrameAction::Abort(err) => {
                        &&& r is Err
                        &&& r->Err_0 == err
                        &&& final(self).state_spec() == TargetState::Idle
                    },
                }
            },
    {
        if self.recorder.state() == TargetState::Recording {
            return Err(VlError::InvalidState("a frame is already being recorded"));
        }
        match self.swapchain.on_acquire(result, surface) {
            FrameAction::Render(i) => {
                if (i as usize) < self.frame_buffers.len() {
                    let started = self.recorder.begin();
                    assert(started is Ok);
                    self.image_index = i;
                    Ok(
                        FrameStart::Begin(
                            BeginPass {
                                render_pass: self.render_pass,
                                frame_buffer: self.frame_buffers[i as usize],
                                width: self.swapchain.extent.width,
                                height: self.swapchain.extent.height,
                                clear_color: Vec4 { x: 0, y: 0, z: 0, w: ONE_F32_BITS },
                            },
                        ),
                    )
                } else {
                    Err(VlError::InvalidState("no framebuffer for the acquired image"))
                }
            },
            FrameAction::Recreate(e) => {
                self.stage.resize(e.width, e.height);
                Ok(FrameStart::Recreate(e))
            },
            FrameAction::Abort(err) => Err(err),
        }
    }

    /// What to release, in order, before the swapchain is recreated: the
    /// framebuffers and the pipeline, the image views, the render pass, then
    /// the swapchain itself.
    pub fn recreate_releases(&self) -> (r: Vec<Resource>)
        ensures
            r@ == seq![
                Resource::Framebuffer,
                Resource::Pipeline,
                Resource::ImageView,
                Resource::RenderPass,
                Resource::Swapchain,
            ],
            respects_dependencies(r@),
    {
        let mut out: Vec<Resource> = Vec::new();
        push_ranked(&mut out, Resource::Framebuffer);
        push_ranked(&mut out, Resource::Pipeline);
        push_ranked(&mut out, Resource::ImageView);
        push_ranked(&mut out, Resource::RenderPass);
        push_ranked(&mut out, Resource::Swapchain);
        proof {
            lemma_sorted_respects(out@);
        }
        assert(out@ =~= seq![
            Resource::Framebuffer,
            Resource::Pipeline,
            Resource::ImageView,
            Resource::RenderPass,
            Resource::Swapchain,
        ]);
        out
    }

    /// Takes on the framebuffers, render pass and pipeline built for the
    /// recreated swapchain; refused while a frame is recorded.
    pub fn replace_swapchain(
        &mut self,
        frame_buffers: Vec<u64>,
        render_pass: RenderPass,
        pipeline: Pipeline,
    ) -> (r: VlResult<()>)
        requires
            old(self).wf(),
        ensures
            final(self).wf(),
            old(self).state_spec() == TargetState::Recording ==> r is Err && *final(self) == *old(
                self),
            old(self).state_spec() == TargetState::Idle ==> r is Ok && final(
                self).frame_buffers_spec() == frame_buffers@ && final(self).render_pass_spec()
                == render_pass && final(self).pipeline_spec() == pipeline && final(
                self).paths_spec() == old(self).paths_spec() && final(self).swapchain_spec()
                == old(self).swapchain_spec(),
    {
        match self.recorder.set_pipeline(pipeline) {
            Ok(()) => {},
            Err(e) => {
                return Err(e);
            },
        }
        self.frame_buffers = frame_buffers;
        self.render_pass = render_pass;
        Ok(())
    }

    /// Compiles `geometry` into device buffers and keeps it for drawing at
    /// `end`. Only a frame being recorded accepts geometry.
    pub fn fill(&mut self, geometry: &PathGeometry) -> (r: VlResult<()>)
        requires
            old(self).wf(),
            geometry.wf(),
        ensures
            final(self).wf(),
            old(self).state_spec() == TargetState::Idle ==> r == Err::<(), VlError>(
                VlError::InvalidState("no frame is being recorded"),
            ) && *final(self) == *old(self),
            old(self).state_spec() == TargetState::Recording ==> {
                let t = first_fit(old(self).buffer_type_bits_spec(), old(self).memory_types_spec());
                if geometry@.len() > 0 && t is None {
                    r == Err::<(), VlError>(VlError::NoSuitableMemory) && *final(self) == *old(self)
                } else {
                    &&& r is Ok
                    &&& final(self).state_spec() == TargetState::Recording
                    &&& final(self).paths_spec() == old(self).paths_spec().push(
                        Seq::new(geometry@.len(), |i: int| compiled(geometry@[i], t->Some_0)),
                    )
                }
            },
    {
        self.recorder.fill(geometry)
    }

    /// Ends the frame: its draw commands and the image to present.
    pub fn end(&mut self) -> (r: VlResult<PresentPlan>)
        requires
            old(self).wf(),
        ensures
            final(self).wf(),
            old(self).state_spec() == TargetState::Idle ==> r is Err && *final(self) == *old(self),
            old(self).state_spec() == TargetState::Recording ==> {
                &&& r is Ok
                &&& r->Ok_0.draws@ == frame_draws(old(self).pipeline_spec(), old(self).paths_spec())
                &&& r->Ok_0.image_index == old(self).image_index_spec()
                &&& final(self).state_spec() == TargetState::Idle
                &&& final(self).paths_spec() == old(self).paths_spec()
            },
    {
        match self.recorder.end() {
            Ok(draws) => Ok(PresentPlan { draws, image_index: self.image_index }),
            Err(e) => Err(e),
        }
    }

    /// Writes new transform matrices into the stage's uniform buffer; refused
    /// while a frame that reads it is being recorded.
    pub fn update_stage(&mut self, mvp: Vec<u8>) -> (r: VlResult<()>)
        requires
            old(self).wf(),
        ensures
            final(self).wf(),
            old(self).state_spec() == TargetState::Idle && mvp@.len() != MVP_SIZE ==> r
                == Err::<(), VlError>(VlError::OutOfMemory) && *final(self) == *old(self),
            old(self).state_spec() == TargetState::Recording ==> r is Err && *final(self) == *old(
                self),
            old(self).state_spec() == TargetState::Idle && mvp@.len() == MVP_SIZE ==> r is Ok && final(
                self).stage_spec().uniform_spec().memory->Some_0.data == mvp@,
    {
        if self.recorder.state() == TargetState::Recording {
            return Err(VlError::InvalidState("a frame is being recorded"));
        }
        self.stage.update(mvp)
    }

    /// Drops every path and lists the release of their buffers.
    pub fn clear(&mut self) -> (r: Vec<Resource>)
        requires
            old(self).wf(),
        ensures
            final(self).wf(),
            final(self).paths_spec() == Seq::<Seq<CompiledBatch>>::empty(),
            final(self).state_spec() == old(self).state_spec(),
            respects_dependencies(r@),
            lists_path_resources(r@, old(self).paths_spec(), false),
            lists_path_resources(r@, old(self).paths_spec(), true),
    {
        self.recorder.clear()
    }

    /// Lists the release of everything the target owns, children first.
    pub fn teardown(self) -> (r: Vec<Resource>)
        requires
            self.wf(),
        ensures
            respects_dependencies(r@),
            lists_path_resources(r@, self.paths_spec(), false),
            lists_path_resources(r@, self.paths_spec(), true),
            r@.contains(Resource::SyncObjects),
            r@.contains(Resource::CommandPool),
            r@.contains(Resource::Framebuffer),
            r@.contains(Resource::Pipeline),
            r@.contains(Resource::PipelineLayout),
            r@.contains(Resource::DescriptorPool),
            r@.contains(Resource::DescriptorSetLayout),
            r@.contains(Resource::UniformMemory),
            r@.contains(Resource::UniformBuffer),
            r@.contains(Resource::RenderPass),
            r@.contains(Resource::ImageView),
            r@.contains(Resource::Swapchain),
            r@.contains(Resource::Surface),
            r@.contains(Resource::Device),
            r@.contains(Resource::Instance),
    {
        let mut out: Vec<Resource> = Vec::new();
        push_ranked(&mut out, Resource::SyncObjects);
        push_ranked(&mut out, Resource::CommandPool);
        push_ranked(&mut out, Resource::Framebuffer);
        push_ranked(&mut out, Resource::Pipeline);
        push_path_resources(&mut out, &self.recorder.paths, false);
        let ghost a = out@;
        push_ranked(&mut out, Resource::UniformMemory);
        push_path_resources(&mut out, &self.recorder.paths, true);
        let ghost b = out@;
        push_ranked(&mut out, Resource::UniformBuffer);
        push_ranked(&mut out, Resource::ImageView);
        push_ranked(&mut out, Resource::PipelineLayout);
        push_ranked(&mut out, Resource::DescriptorPool);
        push_ranked(&mut out, Resource::DescriptorSetLayout);
        push_ranked(&mut out, Resource::RenderPass);
        push_ranked(&mut out, Resource::Swapchain);
        push_ranked(&mut out, Resource::Surface);
        push_ranked(&mut out, Resource::Device);
        push_ranked(&mut out, Resource::Instance);
        proof {
            lemma_lists_kept(a, out@, self.paths_spec(), false);
            lemma_lists_kept(b, out@, self.paths_spec(), true);
            lemma_sorted_respects(out@);
            assert(out@[0] == Resource::SyncObjects);
            assert(out@[1] == Resource::CommandPool);
            assert(out@[2] == Resource::Framebuffer);
            assert(out@[3] == Resource::Pipeline);
            assert(out@[a.len() as int] == Resource::UniformMemory);
            let n = b.len() as int;
            assert(out@[n] == Resource::UniformBuffer);
            assert(out@[n + 1] == Resource::ImageView);
            assert(out@[n + 2] == Resource::PipelineLayout);
            assert(out@[n + 3] == Resource::DescriptorPool);
            assert(out@[n + 4] == Resource::DescriptorSetLayout);
            assert(out@[n + 5] == Resource::RenderPass);
            assert(out@[n + 6] == Resource::Swapchain);
            assert(out@[n + 7] == Resource::Surface);
            assert(out@[n + 8] == Resource::Device);
            assert(out@[n + 9] == Resource::Instance);
        }
        out
    }
}

/// The bytes `rgba8_len` reports.
pub open spec fn rgba8_len_spec(width: u32, height: u32) -> Option<usize> {
    if (width as int) * (height as int) * 4 <= usize::MAX {
        Some(((width as int) * (height as int) * 4) as usize)
    } else {
        None
    }
}

/// Listing stays true when the list only grows at its end.
proof fn lemma_lists_kept(
    before: Seq<Resource>,
    after: Seq<Resource>,
    paths: Seq<Seq<CompiledBatch>>,
    buffers: bool,
)
    requires
        lists_path_resources(before, paths, buffers),
        before.len() <= after.len(),
        forall|k: int| 0 <= k < before.len() ==> after[k] == before[k],
    ensures
        lists_path_resources(after, paths, buffers),
{
    assert forall|p: int, b: int| 0 <= p < paths.len() && 0 <= b < paths[p].len() implies #[trigger] lists_batch(
        after,
        p,
        b,
        buffers,
    ) by {
        lemma_lists_batch_kept(before, after, p, b, buffers);
    }
}

/// Records the draw commands of `paths` under `pipeline`.
fn record_draws(pipeline: Pipeline, paths: &Vec<Path>) -> (r: Vec<DrawCommand>)
    requires
        forall|p: int| 0 <= p < paths@.len() ==> (#[trigger] paths@[p]).wf(),
    ensures
        r@ == frame_draws(pipeline, paths@.map_values(|p: Path| p@)),
{
    let ghost all = paths@.map_values(|p: Path| p@);
    let mut out: Vec<DrawCommand> = Vec::new();
    out.push(DrawCommand::BindPipeline(pipeline));
    out.push(DrawCommand::BindDescriptorSet);
    let ghost head = out@;
    let mut p: usize = 0;
    while p < paths.len()
        invariant
            p <= paths@.len(),
            all == paths@.map_values(|p: Path| p@),
            forall|q: int| 0 <= q < paths@.len() ==> (#[trigger] paths@[q]).wf(),
            head == seq![DrawCommand::BindPipeline(pipeline), DrawCommand::BindDescriptorSet],
            out@ == head + paths_draws(all.take(p as int)),
        decreases paths@.len() - p,
    {
        let path = &paths[p];
        let n = path.len();
        let ghost before = out@;
        let mut b: usize = 0;
        while b < n
            invariant
                p < paths@.len(),
                path == paths@[p as int],
                path.wf(),
                n == path@.len(),
                b <= n,
                out@ == before + path_draws(p as nat, path@.take(b as int)),
            decreases n - b,
        {
            out.push(DrawCommand::BindVertexBuffer { path: p, batch: b });
            out.push(DrawCommand::BindIndexBuffer { path: p, batch: b });
            out.push(DrawCommand::DrawIndexed { index_count: path.index_count(b) });
            proof {
                let t = path@.take(b as int + 1);
                assert(t.drop_last() =~= path@.take(b as int));
                assert(out@ =~= before + path_draws(p as nat, t));
            }
            b = b + 1;
        }
        proof {
            assert(path@.take(b as int) =~= path@);
            let t = all.take(p as int + 1);
            assert(t.drop_last() =~= all.take(p as int));
            assert(t.last() == path@);
            assert(out@ =~= head + paths_draws(t));
        }
        p = p + 1;
    }
    proof {
        assert(all.take(p as int) =~= all);
    }
    out
}

} // verus!
