use vulx::{
    AcquireResult, DrawCommand, Extent, FrameStart, MemoryType, PathGeometry, Pipeline,
    RenderPass, RenderTargetBuilder, Resource, Stage, TargetState, Vec4, VlError,
    WindowRenderTarget, MVP_SIZE,
};

fn types() -> Vec<MemoryType> {
    vec![MemoryType { property_flags: 0x2, heap_index: 0 }]
}

fn window(frame_buffers: Vec<u64>) -> WindowRenderTarget {
    let stage = Stage::builder()
        .instance(1)
        .logical_device(2)
        .physical_device(3)
        .build(vec![0; MVP_SIZE], 1, &types())
        .unwrap();
    RenderTargetBuilder::new()
        .command_buffer(10)
        .physical_device(3)
        .logical_device(2)
        .instance(1)
        .queue(11)
        .renderpass(RenderPass { raw: 13 })
        .pipeline(Pipeline { raw: 14 })
        .stage(stage)
        .build_window(frame_buffers, Extent { width: 800, height: 600 }, types(), 1)
        .unwrap()
}

fn quad() -> PathGeometry {
    let c = Vec4::new(0, 0, 0x3f80_0000, 0x3f80_0000);
    let mut g = PathGeometry::new();
    g.rectangle([Vec4::new(0, 0, 0, 0x3f80_0000); 4], [c; 4]);
    g
}

#[test]
fn window_resize_recreates_once_then_renders_at_the_new_size() {
    let mut t = window(vec![100, 101]);
    let resized = Extent { width: 1024, height: 768 };
    match t.begin_frame(AcquireResult::OutOfDate, resized).unwrap() {
        FrameStart::Recreate(e) => assert_eq!(e, resized),
        FrameStart::Begin(_) => panic!("a stale swapchain must be recreated first"),
    }
    assert_eq!(t.state(), TargetState::Idle);
    assert_eq!((t.stage().width(), t.stage().height()), (1024, 768));
    assert_eq!(
        t.recreate_releases(),
        vec![Resource::Framebuffer, Resource::Pipeline, Resource::ImageView, Resource::RenderPass, Resource::Swapchain]
    );
    t.replace_swapchain(vec![200, 201, 202], RenderPass { raw: 30 }, Pipeline { raw: 31 }).unwrap();
    match t.begin_frame(AcquireResult::Acquired(2), resized).unwrap() {
        FrameStart::Begin(pass) => {
            assert_eq!(pass.frame_buffer, 202);
            assert_eq!(pass.render_pass, RenderPass { raw: 30 });
            assert_eq!((pass.width, pass.height), (1024, 768));
        }
        FrameStart::Recreate(_) => panic!("one recreation is enough"),
    }
    assert_eq!(t.extent(), resized);
    t.fill(&quad()).unwrap();
    let plan = t.end().unwrap();
    assert_eq!(plan.image_index, 2);
    assert_eq!(plan.draws[0], DrawCommand::BindPipeline(Pipeline { raw: 31 }));
    assert_eq!(plan.draws[4], DrawCommand::DrawIndexed { index_count: 6 });
}

#[test]
fn window_second_stale_result_aborts_the_frame() {
    let mut t = window(vec![1]);
    let e = Extent { width: 10, height: 10 };
    t.begin_frame(AcquireResult::OutOfDate, e).unwrap();
    assert!(matches!(t.begin_frame(AcquireResult::OutOfDate, e), Err(VlError::VkException(_))));
    assert!(matches!(t.begin_frame(AcquireResult::Failed(-3), e), Err(VlError::VkException(-3))));
    assert!(matches!(t.begin_frame(AcquireResult::Acquired(5), e), Err(VlError::InvalidState(_))));
    assert_eq!(t.state(), TargetState::Idle);
}

#[test]
fn window_rejects_fill_outside_a_frame_and_swapchain_changes_inside_one() {
    let mut t = window(vec![1, 2]);
    assert!(matches!(t.fill(&quad()), Err(VlError::InvalidState(_))));
    t.begin_frame(AcquireResult::Acquired(1), Extent { width: 1, height: 1 }).unwrap();
    assert!(matches!(t.begin_frame(AcquireResult::Acquired(0), Extent { width: 1, height: 1 }), Err(VlError::InvalidState(_))));
    assert!(t.replace_swapchain(vec![], RenderPass { raw: 0 }, Pipeline { raw: 0 }).is_err());
    assert!(t.update_stage(vec![0; MVP_SIZE]).is_err());
    t.end().unwrap();
    assert!(matches!(t.end(), Err(VlError::InvalidState(_))));
}

#[test]
fn window_missing_parameters_and_teardown() {
    let r = RenderTargetBuilder::new().command_buffer(1).physical_device(1).logical_device(1).instance(1).queue(1).build_window(vec![], Extent { width: 1, height: 1 }, types(), 1);
    assert!(matches!(r, Err(VlError::MissingParameter("render_pass"))));
    let order = window(vec![1]).teardown();
    let pos = |x: Resource| order.iter().position(|y| *y == x).unwrap();
    assert!(pos(Resource::ImageView) < pos(Resource::Swapchain));
    assert!(pos(Resource::Swapchain) < pos(Resource::Surface));
    assert!(pos(Resource::Surface) < pos(Resource::Instance));
    assert!(pos(Resource::Device) < pos(Resource::Instance));
    assert_eq!(order.len(), 15);
}
