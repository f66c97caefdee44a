use vulx::{
    Image, ImageBuilder, ImageType, MemoryRequirements, MemoryType, Pipeline, PolygonMode,
    PrimitiveTopology, RenderPass, Shader, ShaderKind, ShaderSet, Stage, StageMode,
    VertexDataLayout, VertexFormat, VlError, MVP_SIZE,
};

fn types() -> Vec<MemoryType> {
    vec![MemoryType { property_flags: 0x2, heap_index: 0 }]
}

fn stage() -> Stage {
    Stage::builder()
        .instance(1)
        .logical_device(2)
        .physical_device(3)
        .width(64)
        .height(64)
        .build(vec![0; MVP_SIZE], 0b1, &types())
        .unwrap()
}

#[test]
fn pipeline_without_render_pass_is_missing_parameter() {
    let s = stage();
    let r = Pipeline::builder().logical_device(1).image(2).stage(&s).build();
    assert!(matches!(r, Err(VlError::MissingParameter("render_pass"))));
}

#[test]
fn pipeline_parameters_are_checked_in_order() {
    let s = stage();
    let rp = RenderPass { raw: 7 };
    assert!(matches!(Pipeline::builder().build(), Err(VlError::MissingParameter("render_pass"))));
    assert!(matches!(
        Pipeline::builder().render_pass(rp).build(),
        Err(VlError::MissingParameter("logical_device"))
    ));
    assert!(matches!(
        Pipeline::builder().render_pass(rp).logical_device(1).build(),
        Err(VlError::MissingParameter("image"))
    ));
    assert!(matches!(
        Pipeline::builder().render_pass(rp).logical_device(1).image(2).build(),
        Err(VlError::MissingParameter("stage"))
    ));
    let d = Pipeline::builder().render_pass(rp).logical_device(1).image(2).stage(&s).build().unwrap();
    assert!(matches!(d.shaders, ShaderSet::Default));
}

#[test]
fn pipeline_description_has_fixed_state_and_given_shaders() {
    let s = stage();
    let shaders = [Shader { raw: 10, kind: ShaderKind::Vertex }, Shader { raw: 11, kind: ShaderKind::Fragment }];
    let d = Pipeline::builder()
        .render_pass(RenderPass { raw: 7 })
        .logical_device(1)
        .image(2)
        .stage(&s)
        .shaders(&shaders)
        .width(640)
        .height(480)
        .mode(PolygonMode::Line)
        .topology(PrimitiveTopology::TriangleStrip)
        .layout(VertexDataLayout::Vertex4Color4)
        .line_width(2.0f32.to_bits())
        .build()
        .unwrap();
    match &d.shaders {
        ShaderSet::Given(v) => assert_eq!(v.as_slice(), &shaders),
        ShaderSet::Default => panic!("expected the given shaders"),
    }
    assert_eq!(d.render_pass, RenderPass { raw: 7 });
    assert_eq!(d.uniform_binding, 0);
    assert_eq!(d.uniform_range, 192);
    assert_eq!(d.descriptor_pool_capacity, 1);
    assert_eq!(d.vertex_stride, 32);
    assert_eq!(d.position.offset, 0);
    assert_eq!(d.position.format, VertexFormat::Float4);
    assert_eq!(d.color.location, 1);
    assert_eq!(d.color.offset, 16);
    assert_eq!(d.color.format, VertexFormat::Float4);
    assert_eq!((d.width, d.height), (640, 480));
    assert_eq!(d.polygon_mode, PolygonMode::Line);
    assert_eq!(d.topology, PrimitiveTopology::TriangleStrip);
    assert_eq!(f32::from_bits(d.line_width), 2.0);
    assert!(d.cull_back_faces && d.front_face_clockwise && !d.blending);
    assert_eq!(d.samples, 1);
}

#[test]
fn default_pipeline_reads_two_component_positions() {
    let s = stage();
    let d = Pipeline::builder().render_pass(RenderPass { raw: 1 }).logical_device(1).image(2).stage(&s).build().unwrap();
    assert_eq!(d.position.format, VertexFormat::Float2);
    assert_eq!(d.color.format, VertexFormat::Float4);
    assert_eq!((d.width, d.height), (100, 100));
    assert_eq!(d.polygon_mode, PolygonMode::Fill);
    assert_eq!(f32::from_bits(d.line_width), 1.0);
}

#[test]
fn create_pipeline_without_shaders_is_missing_parameter() {
    let rp = RenderPass { raw: 3 };
    let r = rp.create_pipeline(&vec![], VertexDataLayout::Vertex2Color4, PrimitiveTopology::TriangleList, PolygonMode::Fill, 1.0f32.to_bits(), 10, 10);
    assert!(matches!(r, Err(VlError::MissingParameter("shaders"))));
    let ok = rp.create_pipeline(&vec![Shader { raw: 4, kind: ShaderKind::Vertex }], VertexDataLayout::Vertex3Color3, PrimitiveTopology::TriangleFan, PolygonMode::Fill, 1.0f32.to_bits(), 10, 20).unwrap();
    assert_eq!(ok.position.format, VertexFormat::Float3);
    assert_eq!(ok.color.format, VertexFormat::Float3);
    assert_eq!(ok.height, 20);
}

#[test]
fn stage_parameters_are_checked_by_name() {
    let t = types();
    let m = vec![0u8; MVP_SIZE];
    assert!(matches!(Stage::builder().build(m.clone(), 1, &t), Err(VlError::MissingParameter("instance"))));
    assert!(matches!(Stage::builder().instance(1).build(m.clone(), 1, &t), Err(VlError::MissingParameter("logical_device"))));
    assert!(matches!(Stage::builder().instance(1).logical_device(1).build(m.clone(), 1, &t), Err(VlError::MissingParameter("physical_device"))));
    assert!(matches!(
        Stage::builder().instance(1).logical_device(1).physical_device(1).build(vec![0; 8], 1, &t),
        Err(VlError::OutOfMemory)
    ));
    assert!(matches!(
        Stage::builder().instance(1).logical_device(1).physical_device(1).build(m, 0, &t),
        Err(VlError::NoSuitableMemory)
    ));
}

#[test]
fn stage_update_writes_in_place_and_resize_keeps_uniform() {
    let mvp: Vec<u8> = (0..MVP_SIZE).map(|i| i as u8).collect();
    let mut s = Stage::builder().instance(1).logical_device(1).physical_device(1).mode(StageMode::Perspective).build(mvp.clone(), 1, &types()).unwrap();
    assert_eq!(s.mode(), StageMode::Perspective);
    assert_eq!((s.width(), s.height()), (100, 100));
    assert_eq!(s.uniform_buffer().read().unwrap(), &mvp[..]);
    s.resize(800, 600);
    assert_eq!((s.width(), s.height()), (800, 600));
    assert_eq!(s.uniform_buffer().read().unwrap(), &mvp[..]);
    let next = vec![5u8; MVP_SIZE];
    s.update(next.clone()).unwrap();
    assert!(matches!(s.update(vec![0; 3]), Err(VlError::OutOfMemory)));
    assert_eq!(s.uniform_buffer().read().unwrap(), &next[..]);
    assert_eq!(s.uniform_buffer().size(), MVP_SIZE);
    assert_eq!(s.uniform_buffer().memory_type(), Some(0));
}

#[test]
fn image_builder_defaults_and_memory() {
    let b = ImageBuilder::new();
    assert_eq!((b.extent_width(), b.extent_height()), (100, 100));
    assert_eq!(b.image_type(), ImageType::e2D);
    let b = b.width(64).height(32);
    let req = MemoryRequirements { size: 8192, memory_type_bits: 0b110 };
    let table = vec![
        MemoryType { property_flags: 0x2, heap_index: 0 },
        MemoryType { property_flags: 0x1, heap_index: 0 },
        MemoryType { property_flags: 0x3, heap_index: 1 },
    ];
    let image: Image = b.build(9, req, &table).unwrap();
    assert_eq!(image.memory_type, 2);
    assert_eq!((image.width, image.height, image.mem_size, image.raw), (64, 32, 8192, 9));
    assert_eq!(image.pixel_bytes(), Some(64 * 32 * 4));
    assert!(matches!(b.build(9, MemoryRequirements { size: 1, memory_type_bits: 0b10 }, &table), Err(VlError::NoSuitableMemory)));
}
