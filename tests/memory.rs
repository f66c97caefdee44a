use vulx::{find_memory_type, BufferUsage, Buffer, MemoryType, VlError};

fn t(flags: u32) -> MemoryType {
    MemoryType { property_flags: flags, heap_index: 0 }
}

#[test]
fn memory_type_selection_is_first_fit() {
    let table = vec![t(0x1), t(0x2 | 0x4), t(0x2), t(0x6)];
    assert_eq!(find_memory_type(0b1111, &table), Some(1));
    assert_eq!(find_memory_type(0b1101, &table), Some(2));
    assert_eq!(find_memory_type(0b1001, &table), Some(3));
    assert_eq!(find_memory_type(0b0001, &table), None);
    assert_eq!(find_memory_type(0, &table), None);
    assert_eq!(find_memory_type(u32::MAX, &vec![]), None);
    assert_eq!(find_memory_type(u32::MAX, &vec![t(0x1), t(0x4), t(0x8)]), None);
}

#[test]
fn memory_type_selection_ignores_types_a_mask_cannot_name() {
    let mut table: Vec<MemoryType> = (0..32).map(|_| t(0x1)).collect();
    table.push(t(0x2));
    assert_eq!(find_memory_type(u32::MAX, &table), None);
    table[31] = t(0x2);
    assert_eq!(find_memory_type(u32::MAX, &table), Some(31));
}

#[test]
fn upload_round_trip_returns_the_same_bytes() {
    let data: Vec<u8> = (0..96u32).map(|i| (i * 7 % 251) as u8).collect();
    let mut b = Buffer::new(96, BufferUsage::Vertex);
    assert!(!b.is_mapped());
    assert_eq!(b.memory_type(), None);
    b.allocate_data(data.clone(), 0b10, &vec![t(0x1), t(0x2)]).unwrap();
    assert!(b.is_mapped());
    assert_eq!(b.memory_type(), Some(1));
    b.flush_memory().unwrap();
    b.unmap_memory().unwrap();
    assert!(!b.is_mapped());
    b.map_memory().unwrap();
    assert_eq!(b.read().unwrap(), &data[..]);
}

#[test]
fn write_after_unmap_is_invalid_state() {
    let mut b = Buffer::new(4, BufferUsage::Uniform);
    b.allocate_data(vec![1, 2, 3, 4], 0b1, &vec![t(0x2)]).unwrap();
    b.unmap_memory().unwrap();
    assert!(matches!(b.write(vec![9, 9, 9, 9]), Err(VlError::InvalidState(_))));
    assert!(matches!(b.read(), Err(VlError::InvalidState(_))));
    b.map_memory().unwrap();
    assert_eq!(b.read().unwrap(), &[1, 2, 3, 4]);
    b.write(vec![9, 8, 7, 6]).unwrap();
    assert_eq!(b.read().unwrap(), &[9, 8, 7, 6]);
}

#[test]
fn operations_before_allocation_are_invalid_state() {
    let mut b = Buffer::new(4, BufferUsage::Index);
    assert!(matches!(b.write(vec![0; 4]), Err(VlError::InvalidState(_))));
    assert!(matches!(b.flush_memory(), Err(VlError::InvalidState(_))));
    assert!(matches!(b.unmap_memory(), Err(VlError::InvalidState(_))));
    assert!(matches!(b.map_memory(), Err(VlError::InvalidState(_))));
}

#[test]
fn allocation_errors() {
    let mut b = Buffer::new(4, BufferUsage::Vertex);
    assert!(matches!(b.allocate_data(vec![0; 3], 0b1, &vec![t(0x2)]), Err(VlError::OutOfMemory)));
    assert!(matches!(b.allocate_data(vec![0; 4], 0b1, &vec![t(0x1)]), Err(VlError::NoSuitableMemory)));
    b.allocate_data(vec![0; 4], 0b1, &vec![t(0x2)]).unwrap();
    assert!(matches!(b.allocate_data(vec![0; 4], 0b1, &vec![t(0x2)]), Err(VlError::InvalidState(_))));
    assert!(matches!(b.write(vec![0; 5]), Err(VlError::OutOfMemory)));
}
