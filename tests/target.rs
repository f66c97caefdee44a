use vulx::{
    DrawCommand, ImageBuilder, MemoryRequirements, MemoryType, PathGeometry, Pipeline,
    PngRenderTarget, RenderPass, RenderTargetBuilder, Resource, Stage, TargetState, Vec4,
    VlError, MVP_SIZE,
};

fn v(x: f32, y: f32, z: f32, w: f32) -> Vec4 {
    Vec4::new(x.to_bits(), y.to_bits(), z.to_bits(), w.to_bits())
}

fn types() -> Vec<MemoryType> {
    vec![MemoryType { property_flags: 0x2, heap_index: 0 }]
}

fn full_builder(width: u32, height: u32) -> RenderTargetBuilder {
    let stage = Stage::builder()
        .instance(1)
        .logical_device(2)
        .physical_device(3)
        .width(width)
        .height(height)
        .build(vec![0; MVP_SIZE], 1, &types())
        .unwrap();
    let image = ImageBuilder::new()
        .width(width)
        .height(height)
        .build(20, MemoryRequirements { size: (width * height * 4) as u64, memory_type_bits: 1 }, &types())
        .unwrap();
    RenderTargetBuilder::new()
        .command_buffer(10)
        .physical_device(3)
        .logical_device(2)
        .instance(1)
        .queue(11)
        .frame_buffer(12)
        .renderpass(RenderPass { raw: 13 })
        .pipeline(Pipeline { raw: 14 })
        .stage(stage)
        .image(Some(image))
}

fn target(width: u32, height: u32) -> PngRenderTarget {
    full_builder(width, height).build_png("out.png".to_string(), width, height, types(), 1).unwrap()
}

fn red_full_viewport() -> PathGeometry {
    let red = v(1.0, 0.0, 0.0, 1.0);
    let mut g = PathGeometry::new();
    g.rectangle(
        [v(-1.0, -1.0, 0.0, 1.0), v(1.0, 1.0, 0.0, 1.0), v(-1.0, 1.0, 0.0, 1.0), v(1.0, -1.0, 0.0, 1.0)],
        [red; 4],
    );
    g
}

#[test]
fn fill_before_begin_and_after_end_is_rejected() {
    let mut t = target(64, 64);
    let g = red_full_viewport();
    assert!(matches!(t.fill(&g), Err(VlError::InvalidState(_))));
    assert_eq!(t.paths().len(), 0);
    t.begin().unwrap();
    t.fill(&g).unwrap();
    t.end().unwrap();
    assert!(matches!(t.fill(&g), Err(VlError::InvalidState(_))));
    assert_eq!(t.paths().len(), 1);
    assert_eq!(t.state(), TargetState::Idle);
}

#[test]
fn begin_twice_and_end_without_begin_are_rejected() {
    let mut t = target(8, 8);
    assert!(matches!(t.end(), Err(VlError::InvalidState(_))));
    let pass = t.begin().unwrap();
    assert_eq!(pass.render_pass, RenderPass { raw: 13 });
    assert_eq!(pass.frame_buffer, 12);
    assert_eq!((pass.width, pass.height), (8, 8));
    assert_eq!(pass.clear_color, v(0.0, 0.0, 0.0, 1.0));
    assert_eq!(t.state(), TargetState::Recording);
    assert!(matches!(t.begin(), Err(VlError::InvalidState(_))));
}

#[test]
fn red_rectangle_frame_draws_one_indexed_batch() {
    let mut t = target(64, 64);
    t.begin().unwrap();
    t.fill(&red_full_viewport()).unwrap();
    let plan = t.end().unwrap();
    assert_eq!(
        plan.draws,
        vec![
            DrawCommand::BindPipeline(Pipeline { raw: 14 }),
            DrawCommand::BindDescriptorSet,
            DrawCommand::BindVertexBuffer { path: 0, batch: 0 },
            DrawCommand::BindIndexBuffer { path: 0, batch: 0 },
            DrawCommand::DrawIndexed { index_count: 6 },
        ]
    );
    assert_eq!(plan.readback_len, Some(64 * 64 * 4));
    let mut vb = t.paths()[0].vertex_buffer(0).clone();
    vb.map_memory().unwrap();
    let bytes = vb.read().unwrap().to_vec();
    for corner in 0..4 {
        let color = &bytes[corner * 32 + 16..corner * 32 + 32];
        let expected: Vec<u8> = [1.0f32, 0.0, 0.0, 1.0].iter().flat_map(|c| c.to_le_bytes()).collect();
        assert_eq!(color, &expected[..]);
    }
}

#[test]
fn frame_draws_every_path_in_fill_order() {
    let mut t = target(16, 16);
    t.begin().unwrap();
    let mut two = PathGeometry::new();
    two.triangle([v(0.0, 0.0, 0.0, 1.0); 3], [v(0.0, 0.0, 0.0, 1.0); 3]);
    two.rectangle([v(0.0, 0.0, 0.0, 1.0); 4], [v(0.0, 0.0, 0.0, 1.0); 4]);
    t.fill(&two).unwrap();
    t.fill(&red_full_viewport()).unwrap();
    let plan = t.end().unwrap();
    assert_eq!(plan.draws.len(), 2 + 3 * 3);
    assert_eq!(plan.draws[4], DrawCommand::DrawIndexed { index_count: 3 });
    assert_eq!(plan.draws[5], DrawCommand::BindVertexBuffer { path: 0, batch: 1 });
    assert_eq!(plan.draws[7], DrawCommand::DrawIndexed { index_count: 6 });
    assert_eq!(plan.draws[8], DrawCommand::BindVertexBuffer { path: 1, batch: 0 });
}

#[test]
fn fill_without_suitable_memory_keeps_the_target() {
    let mut t = full_builder(4, 4).build_png("x.png".to_string(), 4, 4, vec![], 1).unwrap();
    t.begin().unwrap();
    assert!(matches!(t.fill(&red_full_viewport()), Err(VlError::NoSuitableMemory)));
    assert_eq!(t.paths().len(), 0);
    assert_eq!(t.state(), TargetState::Recording);
}

#[test]
fn stage_update_is_refused_while_recording() {
    let mut t = target(4, 4);
    t.begin().unwrap();
    assert!(matches!(t.update_stage(vec![1; MVP_SIZE]), Err(VlError::InvalidState(_))));
    t.end().unwrap();
    assert!(matches!(t.update_stage(vec![1; 4]), Err(VlError::OutOfMemory)));
    t.update_stage(vec![1; MVP_SIZE]).unwrap();
    assert_eq!(t.stage().uniform_buffer().read().unwrap(), &[1u8; MVP_SIZE][..]);
}

#[test]
fn missing_target_parameters_are_named() {
    let p = || "p.png".to_string();
    assert!(matches!(RenderTargetBuilder::new().build_png(p(), 1, 1, types(), 1), Err(VlError::MissingParameter("command_buffer"))));
    let mut b = full_builder(4, 4);
    b.frame_buffer = None;
    assert!(matches!(b.build_png(p(), 4, 4, types(), 1), Err(VlError::MissingParameter("frame_buffer"))));
    let mut b = full_builder(4, 4);
    b.render_pass = None;
    assert!(matches!(b.build_png(p(), 4, 4, types(), 1), Err(VlError::MissingParameter("render_pass"))));
    let b = full_builder(4, 4).image(None);
    assert!(matches!(b.build_png(p(), 4, 4, types(), 1), Err(VlError::MissingParameter("image"))));
    let mut b = full_builder(4, 4);
    b.stage = None;
    assert!(matches!(b.build_png(p(), 4, 4, types(), 1), Err(VlError::MissingParameter("stage"))));
    let t = full_builder(4, 4).build_png(p(), 4, 4, types(), 1).unwrap();
    assert_eq!(t.file_path(), "p.png");
    assert_eq!((t.width(), t.height()), (4, 4));
}

#[test]
fn clear_releases_memory_before_buffers() {
    let mut t = target(4, 4);
    t.begin().unwrap();
    t.fill(&red_full_viewport()).unwrap();
    let released = t.clear();
    assert_eq!(
        released,
        vec![
            Resource::VertexMemory { path: 0, batch: 0 },
            Resource::IndexMemory { path: 0, batch: 0 },
            Resource::VertexBuffer { path: 0, batch: 0 },
            Resource::IndexBuffer { path: 0, batch: 0 },
        ]
    );
    assert_eq!(t.paths().len(), 0);
    assert_eq!(t.state(), TargetState::Recording);
}

#[test]
fn teardown_of_an_unused_target_releases_children_first() {
    let order = target(64, 64).teardown();
    let pos = |r: Resource| order.iter().position(|x| *x == r).unwrap();
    assert_eq!(order.len(), 14);
    assert!(pos(Resource::UniformMemory) < pos(Resource::UniformBuffer));
    assert!(pos(Resource::ImageMemory) < pos(Resource::Image));
    assert!(pos(Resource::Framebuffer) < pos(Resource::RenderPass));
    assert!(pos(Resource::Pipeline) < pos(Resource::RenderPass));
    assert!(pos(Resource::PipelineLayout) < pos(Resource::DescriptorSetLayout));
    assert!(pos(Resource::DescriptorPool) < pos(Resource::DescriptorSetLayout));
    assert_eq!(order[12], Resource::Device);
    assert_eq!(order[13], Resource::Instance);
}

#[test]
fn teardown_lists_path_buffers_after_their_memory() {
    let mut t = target(4, 4);
    t.begin().unwrap();
    t.fill(&red_full_viewport()).unwrap();
    t.end().unwrap();
    let order = t.teardown();
    let pos = |r: Resource| order.iter().position(|x| *x == r).unwrap();
    assert_eq!(order.len(), 18);
    assert!(pos(Resource::VertexMemory { path: 0, batch: 0 }) < pos(Resource::VertexBuffer { path: 0, batch: 0 }));
    assert!(pos(Resource::IndexMemory { path: 0, batch: 0 }) < pos(Resource::IndexBuffer { path: 0, batch: 0 }));
    assert!(pos(Resource::IndexBuffer { path: 0, batch: 0 }) < pos(Resource::Device));
}

#[test]
fn readback_length_of_rgba8() {
    assert_eq!(vulx::rgba8_len(64, 64), Some(16384));
    assert_eq!(vulx::rgba8_len(0, 64), Some(0));
    if usize::BITS == 64 {
        assert_eq!(vulx::rgba8_len(u32::MAX, u32::MAX), None);
    }
}
