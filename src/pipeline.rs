//! Graphics pipelines: which parameters a pipeline needs, and the complete
//! description of the pipeline, its descriptor set and its fixed-function
//! state that a backend creates from them.
use crate::error::{VlError, VlResult};
use crate::geometry::VERTEX_SIZE;
use crate::shader::Shader;
use crate::stage::{Stage, MVP_SIZE};
use vstd::prelude::*;

verus! {

/// Components of the position and color attributes that the vertex shader reads.
#[derive(Debug, Clone, Copy, PartialEq, Eq, Structural)]
pub enum VertexDataLayout {
    Vertex2Color3,
    Vertex3Color3,
    Vertex4Color3,
    Vertex2Color4,
    Vertex3Color4,
    Vertex4Color4,
}

#[derive(Debug, Clone, Copy, PartialEq, Eq, Structural)]
pub enum PolygonMode {
    Fill,
    Line,
}

#[derive(Debug, Clone, Copy, PartialEq, Eq, Structural)]
pub enum PrimitiveTopology {
    TriangleList,
    TriangleStrip,
    TriangleFan,
}

/// The format of one vertex attribute: two, three or four 32-bit floats.
#[derive(Debug, Clone, Copy, PartialEq, Eq, Structural)]
pub enum VertexFormat {
    Float2,
    Float3,
    Float4,
}

/// A render pass created on the device, by raw handle.
#[derive(Debug, Clone, Copy, PartialEq, Eq, Structural)]
pub struct RenderPass {
    pub raw: u64,
}

/// A graphics pipeline created on the device, by raw handle.
#[derive(Debug, Clone, Copy, PartialEq, Eq, Structural)]
pub struct Pipeline {
    pub raw: u64,
}

/// One vertex attribute read from binding 0.
#[derive(Debug, Clone, Copy, PartialEq, Eq, Structural)]
pub struct VertexAttribute {
    pub location: u32,
    pub format: VertexFormat,
    pub offset: u32,
}

/// Which shader modules the pipeline runs.
#[derive(Debug, Clone)]
pub enum ShaderSet {
    /// The modules given, in order.
    Given(Vec<Shader>),
    /// The embedded vertex and fragment shaders.
    Default,
}

/// Everything a backend needs to create one graphics pipeline.
#[derive(Debug, Clone)]
pub struct PipelineDescription {
    pub render_pass: RenderPass,
    pub shaders: ShaderSet,
    /// Descriptor-set layout: one uniform buffer at this binding, seen by the
    /// vertex stage only.
    pub uniform_binding: u32,
    /// Bytes of the uniform buffer the descriptor covers.
    pub uniform_range: u64,
    /// Descriptor sets the pool holds.
    pub descriptor_pool_capacity: u32,
    /// Stride of binding 0, per vertex.
    pub vertex_stride: u32,
    pub position: VertexAttribute,
    pub color: VertexAttribute,
    pub topology: PrimitiveTopology,
    pub polygon_mode: PolygonMode,
    /// Rasterized line width, as a float bit pattern.
    pub line_width: u32,
    /// Back faces are culled.
    pub cull_back_faces: bool,
    /// Clockwise triangles face front.
    pub front_face_clockwise: bool,
    pub samples: u32,
    /// Colors replace what is there, alpha included.
    pub blending: bool,
    /// Viewport and scissor size.
    pub width: u32,
    pub height: u32,
}

/// Position components in `layout`.
pub open spec fn position_format(layout: VertexDataLayout) -> VertexFormat {
    match layout {
        VertexDataLayout::Vertex2Color3 | VertexDataLayout::Vertex2Color4 => VertexFormat::Float2,
        VertexDataLayout::Vertex3Color3 | VertexDataLayout::Vertex3Color4 => VertexFormat::Float3,
        _ => VertexFormat::Float4,
    }
}

/// Color components in `layout`.
pub open spec fn color_format(layout: VertexDataLayout) -> VertexFormat {
    match layout {
        VertexDataLayout::Vertex2Color3 | VertexDataLayout::Vertex3Color3
        | VertexDataLayout::Vertex4Color3 => VertexFormat::Float3,
        _ => VertexFormat::Float4,
    }
}

fn formats_of(layout: VertexDataLayout) -> (r: (VertexFormat, VertexFormat))
    ensures
        r == (position_format(layout), color_format(layout)),
{
    match layout {
        VertexDataLayout::Vertex2Color3 => (VertexFormat::Float2, VertexFormat::Float3),
        VertexDataLayout::Vertex3Color3 => (VertexFormat::Float3, VertexFormat::Float3),
        VertexDataLayout::Vertex4Color3 => (VertexFormat::Float4, VertexFormat::Float3),
        VertexDataLayout::Vertex2Color4 => (VertexFormat::Float2, VertexFormat::Float4),
        VertexDataLayout::Vertex3Color4 => (VertexFormat::Float3, VertexFormat::Float4),
        VertexDataLayout::Vertex4Color4 => (VertexFormat::Float4, VertexFormat::Float4),
    }
}

/// The description of a pipeline over these settings; `None` for shaders
/// stands for the embedded default pair.
pub open spec fn described(
    render_pass: RenderPass,
    shaders: Option<Seq<Shader>>,
    layout: VertexDataLayout,
    topology: PrimitiveTopology,
    polygon_mode: PolygonMode,
    line_width: u32,
    width: u32,
    height: u32,
    d: PipelineDescription,
) -> bool {
    &&& d.render_pass == render_pass
    &&& match shaders {
        Some(given) => d.shaders matches ShaderSet::Given(s) && s@ == given,
        None => d.shaders is Default,
    }
    &&& d.uniform_binding == 0
    &&& d.uniform_range == MVP_SIZE
    &&& d.descriptor_pool_capacity == 1
    &&& d.vertex_stride == VERTEX_SIZE
    &&& d.position == VertexAttribute { location: 0, format: position_format(layout), offset: 0 }
    &&& d.color == VertexAttribute { location: 1, format: color_format(layout), offset: 16 }
    &&& d.topology == topology
    &&& d.polygon_mode == polygon_mode
    &&& d.line_width == line_width
    &&& d.cull_back_faces
    &&& d.front_face_clockwise
    &&& d.samples == 1
    &&& !d.blending
    &&& d.width == width
    &&& d.height == height
}

fn describe(
    render_pass: RenderPass,
    shaders: ShaderSet,
    layout: VertexDataLayout,
    topology: PrimitiveTopology,
    polygon_mode: PolygonMode,
    line_width: u32,
    width: u32,
    height: u32,
) -> (d: PipelineDescription)
    ensures
        described(
            render_pass,
            match shaders {
                ShaderSet::Given(s) => Some(s@),
                ShaderSet::Default => None,
            },
            layout,
            topology,
            polygon_mode,
            line_width,
            width,
            height,
            d,
        ),
{
    let (position, color) = formats_of(layout);
    PipelineDescription {
        render_pass,
        shaders,
        uniform_binding: 0,
        uniform_range: MVP_SIZE as u64,
        descriptor_pool_capacity: 1,
        vertex_stride: VERTEX_SIZE as u32,
        position: VertexAttribute { location: 0, format: position, offset: 0 },
        color: VertexAttribute { location: 1, format: color, offset: 16 },
        topology,
        polygon_mode,
        line_width,
        cull_back_faces: true,
        front_face_clockwise: true,
        samples: 1,
        blending: false,
        width,
        height,
    }
}

impl RenderPass {
    /// Describes a pipeline for this render pass that runs `shaders` over
    /// vertices laid out as `layout`, drawing into a `width` by `height`
    /// viewport. Fails when no shader is given.
    pub fn create_pipeline(
        &self,
        shaders: &Vec<Shader>,
        layout: VertexDataLayout,
        topology: PrimitiveTopology,
        polygon_mode: PolygonMode,
        line_width: u32,
        width: u32,
        height: u32,
    ) -> (r: VlResult<PipelineDescription>)
        ensures
            shaders@.len() == 0 ==> r == Err::<PipelineDescription, VlError>(
                VlError::MissingParameter("shaders"),
            ),
            shaders@.len() > 0 ==> r is Ok && described(
                *self,
                Some(shaders@),
                layout,
                topology,
                polygon_mode,
                line_width,
                width,
                height,
                r->Ok_0,
            ),
    {
        if shaders.len() == 0 {
            return Err(VlError::MissingParameter("shaders"));
        }
        let mut stages: Vec<Shader> = Vec::new();
        let mut i: usize = 0;
        while i < shaders.len()
            invariant
                i <= shaders@.len(),
                stages@ == shaders@.take(i as int),
            decreases shaders@.len() - i,
        {
            stages.push(shaders[i]);
            assert(shaders@.take(i as int + 1) =~= shaders@.take(i as int).push(shaders@[i as int]));
            i = i + 1;
        }
        assert(shaders@.take(i as int) =~= shaders@);
        Ok(
            describe(
                *self,
                ShaderSet::Given(stages),
                layout,
                topology,
                polygon_mode,
                line_width,
                width,
                height,
            ),
        )
    }
}

/// Bit pattern of the float 1.0.
pub const ONE_F32_BITS: u32 = 0x3f80_0000;

/// Collects what a pipeline needs; `build` checks that it is all there.
pub struct PipelineBuilder<'a> {
    render_pass: Option<RenderPass>,
    device: Option<u64>,
    shaders: Vec<Shader>,
    image: Option<u64>,
    stage: Option<&'a Stage>,
    layout: VertexDataLayout,
    mode: PolygonMode,
    topology: PrimitiveTopology,
    line_width: u32,
    width: u32,
    height: u32,
}

/// What a pipeline builder holds.
pub struct PipelineSettings {
    pub render_pass: Option<RenderPass>,
    pub device: Option<u64>,
    pub shaders: Seq<Shader>,
    pub image: Option<u64>,
    pub has_stage: bool,
    pub layout: VertexDataLayout,
    pub mode: PolygonMode,
    pub topology: PrimitiveTopology,
    pub line_width: u32,
    pub width: u32,
    pub height: u32,
}

/// The error `PipelineBuilder::build` returns, if any, in checking order.
pub open spec fn pipeline_build_error(s: PipelineSettings) -> Option<VlError> {
    if s.render_pass is None {
        Some(VlError::MissingParameter("render_pass"))
    } else if s.device is None {
        Some(VlError::MissingParameter("logical_device"))
    } else if s.image is None {
        Some(VlError::MissingParameter("image"))
    } else if !s.has_stage {
        Some(VlError::MissingParameter("stage"))
    } else {
        None
    }
}

impl<'a> View for PipelineBuilder<'a> {
    type V = PipelineSettings;

    closed spec fn view(&self) -> PipelineSettings {
        PipelineSettings {
            render_pass: self.render_pass,
            device: self.device,
            shaders: self.shaders@,
            image: self.image,
            has_stage: self.stage is Some,
            layout: self.layout,
            mode: self.mode,
            topology: self.topology,
            line_width: self.line_width,
            width: self.width,
            height: self.height,
        }
    }
}

impl Pipeline {
    /// A builder with nothing set: filled triangle lists, line width 1, 100 by
    /// 100, two-component positions and four-component colors.
    pub fn builder<'a>() -> (r: PipelineBuilder<'a>)
        ensures
            r@ == (PipelineSettings {
                render_pass: None,
                device: None,
                shaders: Seq::empty(),
                image: None,
                has_stage: false,
                layout: VertexDataLayout::Vertex2Color4,
                mode: PolygonMode::Fill,
                topology: PrimitiveTopology::TriangleList,
                line_width: ONE_F32_BITS,
                width: 100,
                height: 100,
            }),
    {
        let r = PipelineBuilder {
            render_pass: None,
            device: None,
            shaders: Vec::new(),
            image: None,
            stage: None,
            layout: VertexDataLayout::Vertex2Color4,
            mode: PolygonMode::Fill,
            topology: PrimitiveTopology::TriangleList,
            line_width: ONE_F32_BITS,
            width: 100,
            height: 100,
        };
        assert(r@.shaders =~= Seq::<Shader>::empty());
        r
    }
}

impl<'a> PipelineBuilder<'a> {
    pub fn logical_device(self, device: u64) -> (r: PipelineBuilder<'a>)
        ensures
            r@ == (PipelineSettings { device: Some(device), ..self@ }),
    {
        PipelineBuilder { device: Some(device), ..self }
    }

    pub fn render_pass(self, render_pass: RenderPass) -> (r: PipelineBuilder<'a>)
        ensures
            r@ == (PipelineSettings { render_pass: Some(render_pass), ..self@ }),
    {
        PipelineBuilder { render_pass: Some(render_pass), ..self }
    }

    /// Adds shader modules after those already given.
    pub fn shaders(self, shaders: &[Shader]) -> (r: PipelineBuilder<'a>)
        ensures
            r@ == (PipelineSettings { shaders: self@.shaders + shaders@, ..self@ }),
    {
        let mut b = self;
        let ghost start = b.shaders@;
        let mut i: usize = 0;
        while i < shaders.len()
            invariant
                i <= shaders@.len(),
                b@ == (PipelineSettings { shaders: start + shaders@.take(i as int), ..self@ }),
            decreases shaders@.len() - i,
        {
            b.shaders.push(shaders[i]);
            assert(start + shaders@.take(i as int + 1) =~= start + shaders@.take(i as int).push(
                shaders@[i as int],
            ));
            i = i + 1;
        }
        assert(shaders@.take(i as int) =~= shaders@);
        b
    }

    pub fn image(self, image: u64) -> (r: PipelineBuilder<'a>)
        ensures
            r@ == (PipelineSettings { image: Some(image), ..self@ }),
    {
        PipelineBuilder { image: Some(image), ..self }
    }

    pub fn layout(self, layout: VertexDataLayout) -> (r: PipelineBuilder<'a>)
        ensures
            r@ == (PipelineSettings { layout, ..self@ }),
    {
        PipelineBuilder { layout, ..self }
    }

    pub fn mode(self, mode: PolygonMode) -> (r: PipelineBuilder<'a>)
        ensures
            r@ == (PipelineSettings { mode, ..self@ }),
    {
        PipelineBuilder { mode, ..self }
    }

    pub fn topology(self, topology: PrimitiveTopology) -> (r: PipelineBuilder<'a>)
        ensures
            r@ == (PipelineSettings { topology, ..self@ }),
    {
        PipelineBuilder { topology, ..self }
    }

    pub fn width(self, width: u32) -> (r: PipelineBuilder<'a>)
        ensures
            r@ == (PipelineSettings { width, ..self@ }),
    {
        PipelineBuilder { width, ..self }
    }

    pub fn height(self, height: u32) -> (r: PipelineBuilder<'a>)
        ensures
            r@ == (PipelineSettings { height, ..self@ }),
    {
        PipelineBuilder { height, ..self }
    }

    /// Sets the line width, given as a float bit pattern.
    pub fn line_width(self, line_width: u32) -> (r: PipelineBuilder<'a>)
        ensures
            r@ == (PipelineSettings { line_width, ..self@ }),
    {
        PipelineBuilder { line_width, ..self }
    }

    /// The stage whose uniform buffer feeds the pipeline's transform.
    pub fn stage(self, stage: &'a Stage) -> (r: PipelineBuilder<'a>)
        ensures
            r@ == (PipelineSettings { has_stage: true, ..self@ }),
    {
        PipelineBuilder { stage: Some(stage), ..self }
    }

    /// Checks the parameters, in the order render pass, logical device,
    /// image, stage, and describes the pipeline. Without shader modules the
    /// embedded default pair is used.
    pub fn build(self) -> (r: VlResult<PipelineDescription>)
        ensures
            match pipeline_build_error(self@) {
                Some(e) => r == Err::<PipelineDescription, VlError>(e),
                None => r is Ok && described(
                    self@.render_pass->Some_0,
                    if self@.shaders.len() == 0 {
                        None
                    } else {
                        Some(self@.shaders)
                    },
                    self@.layout,
                    self@.topology,
                    self@.mode,
                    self@.line_width,
                    self@.width,
                    self@.height,
                    r->Ok_0,
                ),
            },
    {
        let render_pass = match self.render_pass {
            Some(x) => x,
            None => {
                return Err(VlError::MissingParameter("render_pass"));
            },
        };
        if self.device.is_none() {
            return Err(VlError::MissingParameter("logical_device"));
        }
        if self.image.is_none() {
            return Err(VlError::MissingParameter("image"));
        }
        if self.stage.is_none() {
            return Err(VlError::MissingParameter("stage"));
        }
        if self.shaders.len() == 0 {
            return Ok(
                describe(
                    render_pass,
                    ShaderSet::Default,
                    self.layout,
                    self.topology,
                    self.mode,
                    self.line_width,
                    self.width,
                    self.height,
                ),
            );
        }
        render_pass.create_pipeline(
            &self.shaders,
            self.layout,
            self.topology,
            self.mode,
            self.line_width,
            self.width,
            self.height,
        )
    }
}

} // verus!
