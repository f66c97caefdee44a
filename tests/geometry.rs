use vulx::geometry::VERTEX_SIZE;
use vulx::{BufferUsage, MemoryType, PathGeometry, Rectangle, Vec2, Vec4, Line, VlError};

fn v(x: f32, y: f32, z: f32, w: f32) -> Vec4 {
    Vec4::new(x.to_bits(), y.to_bits(), z.to_bits(), w.to_bits())
}

fn host_visible_table() -> Vec<MemoryType> {
    vec![MemoryType { property_flags: 0x2 | 0x4, heap_index: 0 }]
}

#[test]
fn geometry_size() {
    const VERTEX_SIZE: usize = 6;
    let mut triangle = PathGeometry::new();
    triangle.triangle(
        [v(0.0, -0.5, 0.0, 1.0), v(0.5, 0.5, 0.0, 1.0), v(-0.5, 0.5, 0.0, 1.0)],
        [v(1.0, 0.0, 0.0, 1.0), v(0.0, 1.0, 0.0, 1.0), v(0.0, 0.0, 1.0, 1.0)],
    );

    triangle.triangle(
        [v(0.0, -0.5, 0.0, 1.0), v(0.5, 0.5, 0.0, 1.0), v(-0.5, 0.5, 0.0, 1.0)],
        [v(1.0, 0.0, 0.0, 1.0), v(0.0, 1.0, 0.0, 1.0), v(0.0, 0.0, 1.0, 1.0)],
    );

    assert_eq!(triangle.size(), VERTEX_SIZE);
}

#[test]
fn size_counts_four_per_rectangle_and_three_per_triangle() {
    let mut g = PathGeometry::new();
    assert_eq!(g.size(), 0);
    let red = v(1.0, 0.0, 0.0, 1.0);
    let corners = [v(-1.0, -1.0, 0.0, 1.0), v(1.0, 1.0, 0.0, 1.0), v(-1.0, 1.0, 0.0, 1.0), v(1.0, -1.0, 0.0, 1.0)];
    g.rectangle(corners, [red; 4]);
    g.rectangle(corners, [red; 4]);
    g.triangle([corners[0], corners[1], corners[2]], [red; 3]);
    assert_eq!(g.size(), 4 * 2 + 3 * 1);
    assert_eq!(g.batches().len(), 3);
}

#[test]
fn batches_keep_index_patterns_and_order() {
    let mut g = PathGeometry::new();
    let c = v(0.0, 0.0, 1.0, 1.0);
    let p = [v(0.0, 0.0, 0.0, 1.0), v(1.0, 1.0, 0.0, 1.0), v(0.0, 1.0, 0.0, 1.0), v(1.0, 0.0, 0.0, 1.0)];
    g.rectangle(p, [c; 4]);
    g.triangle([p[0], p[1], p[2]], [c; 3]);
    let b = g.batches();
    assert_eq!(b[0].indices, vec![0, 1, 2, 1, 0, 3]);
    assert_eq!(b[1].indices, vec![0, 1, 2]);
    assert_eq!(b[0].data.len(), 4);
    assert_eq!(b[0].data[3].pos, p[3]);
    assert_eq!(b[1].data[2].color, c);
}

#[test]
fn vertex_bytes_are_little_endian_position_then_color() {
    let mut g = PathGeometry::new();
    g.triangle([v(1.0, 2.0, 3.0, 4.0); 3], [v(0.5, 0.25, 0.0, 1.0); 3]);
    let bytes = g.batches()[0].vertex_bytes();
    assert_eq!(bytes.len(), 3 * VERTEX_SIZE);
    assert_eq!(&bytes[0..4], &1.0f32.to_le_bytes());
    assert_eq!(&bytes[12..16], &4.0f32.to_le_bytes());
    assert_eq!(&bytes[16..20], &0.5f32.to_le_bytes());
    assert_eq!(&bytes[28..32], &1.0f32.to_le_bytes());
    let idx = g.batches()[0].index_bytes();
    assert_eq!(idx, vec![0, 0, 0, 0, 1, 0, 0, 0, 2, 0, 0, 0]);
}

#[test]
fn into_path_compiles_each_batch_in_order() {
    let mut g = PathGeometry::new();
    let c = v(0.0, 1.0, 0.0, 1.0);
    g.triangle([v(0.0, 0.0, 0.0, 1.0); 3], [c; 3]);
    g.rectangle([v(0.0, 0.0, 0.0, 1.0); 4], [c; 4]);
    let types = vec![
        MemoryType { property_flags: 0x1, heap_index: 0 },
        MemoryType { property_flags: 0x2, heap_index: 1 },
    ];
    let path = g.into_path(0b11, &types).unwrap();
    assert_eq!(path.len(), 2);
    assert_eq!(path.index_count(0), 3);
    assert_eq!(path.index_count(1), 6);
    assert_eq!(path.vertex_buffer(0).size(), 3 * 32);
    assert_eq!(path.vertex_buffer(1).size(), 4 * 32);
    assert_eq!(path.index_buffer(1).size(), 6 * 4);
    assert_eq!(path.vertex_buffer(1).usage(), BufferUsage::Vertex);
    assert_eq!(path.index_buffer(1).usage(), BufferUsage::Index);
    assert_eq!(path.vertex_buffer(0).memory_type(), Some(1));
    assert!(!path.vertex_buffer(0).is_mapped());
    let mut copy = path.index_buffer(1).clone();
    copy.map_memory().unwrap();
    assert_eq!(copy.read().unwrap(), &g.batches()[1].index_bytes()[..]);
}

#[test]
fn into_path_without_suitable_memory_fails() {
    let mut g = PathGeometry::new();
    g.triangle([v(0.0, 0.0, 0.0, 1.0); 3], [v(0.0, 0.0, 0.0, 1.0); 3]);
    let types = vec![MemoryType { property_flags: 0x1, heap_index: 0 }];
    assert!(matches!(g.into_path(0b1, &types), Err(VlError::NoSuitableMemory)));
    let empty = PathGeometry::new();
    assert_eq!(empty.into_path(0b1, &types).unwrap().len(), 0);
}

#[test]
fn rectangle_shape_uses_corner_order_x_z_w_y_in_blue() {
    let r = Rectangle::new(v(0.0, 0.0, 0.0, 1.0), v(1.0, 0.0, 0.0, 1.0), v(1.0, 1.0, 0.0, 1.0), v(0.0, 1.0, 0.0, 1.0));
    assert_eq!(r.size(), 4);
    let path = r.to_path(0b1, &host_visible_table()).unwrap();
    assert_eq!(path.len(), 1);
    assert_eq!(path.index_count(0), 6);
    let mut vb = path.vertex_buffer(0).clone();
    vb.map_memory().unwrap();
    let bytes = vb.read().unwrap().to_vec();
    assert_eq!(&bytes[32..36], &1.0f32.to_le_bytes());
    assert_eq!(&bytes[36..40], &1.0f32.to_le_bytes());
    assert_eq!(&bytes[96..100], &1.0f32.to_le_bytes());
    assert_eq!(&bytes[100..104], &0.0f32.to_le_bytes());
    assert_eq!(&bytes[24..28], &1.0f32.to_le_bytes());
    assert_eq!(&bytes[16..20], &0.0f32.to_le_bytes());
    assert!(matches!(r.to_path(0b1, &vec![]), Err(VlError::NoSuitableMemory)));
}

#[test]
fn line_keeps_its_end_points() {
    let line = Line::new(Vec2::new(30.0f32.to_bits(), 30.0f32.to_bits()), Vec2::new(100.0f32.to_bits(), 70.0f32.to_bits()));
    assert_eq!(f32::from_bits(line.start().x), 30.0);
    assert_eq!(f32::from_bits(line.end().y), 70.0);
}
