use vulx::{
    api_version_string, default_physical_device, select_queue_family, swapchain_config,
    wants_surface, AcquireResult, Extent, FrameAction, HardwareError, InstanceTarget,
    QueueProperties, Spirv, SurfaceCapabilities, SurfaceFormat, SwapchainState, VlError,
};

#[test]
fn out_of_date_recreates_once_at_the_new_extent() {
    let mut s = SwapchainState::new(Extent { width: 800, height: 600 });
    let resized = Extent { width: 1024, height: 768 };
    let a = s.on_acquire(AcquireResult::OutOfDate, resized);
    assert!(matches!(a, FrameAction::Recreate(e) if e == resized));
    assert_eq!(s.extent, resized);
    let b = s.on_acquire(AcquireResult::Acquired(2), Extent { width: 1, height: 1 });
    assert!(matches!(b, FrameAction::Render(2)));
    assert_eq!(s, SwapchainState { extent: resized, retried: false });
}

#[test]
fn suboptimal_recreates_then_renders() {
    let mut s = SwapchainState::new(Extent { width: 10, height: 10 });
    let e = Extent { width: 20, height: 30 };
    assert!(matches!(s.on_acquire(AcquireResult::Suboptimal(0), e), FrameAction::Recreate(x) if x == e));
    assert!(matches!(s.on_acquire(AcquireResult::Suboptimal(1), e), FrameAction::Render(1)));
}

#[test]
fn second_out_of_date_in_a_frame_aborts() {
    let mut s = SwapchainState::new(Extent { width: 10, height: 10 });
    let e = Extent { width: 5, height: 5 };
    s.on_acquire(AcquireResult::OutOfDate, e);
    let a = s.on_acquire(AcquireResult::OutOfDate, e);
    assert!(matches!(a, FrameAction::Abort(VlError::VkException(-1_000_001_004))));
    assert!(!s.retried);
    assert!(matches!(s.on_acquire(AcquireResult::Failed(-4), e), FrameAction::Abort(VlError::VkException(-4))));
}

#[test]
fn swapchain_config_takes_first_format_and_mode() {
    let caps = SurfaceCapabilities { min_image_count: 2, current_extent: Extent { width: 640, height: 480 }, current_transform: 1 };
    let formats = vec![SurfaceFormat { format: 44, color_space: 0 }, SurfaceFormat { format: 50, color_space: 0 }];
    let c = swapchain_config(caps, &formats, &vec![2, 0]).unwrap();
    assert_eq!(c.min_image_count, 3);
    assert_eq!(c.format, formats[0]);
    assert_eq!(c.present_mode, 2);
    assert_eq!(c.extent, Extent { width: 640, height: 480 });
    assert_eq!((c.array_layers, c.clipped, c.transform), (1, true, 1));
    assert!(matches!(swapchain_config(caps, &vec![], &vec![0]), Err(VlError::InvalidState(_))));
    assert!(matches!(swapchain_config(caps, &formats, &vec![]), Err(VlError::InvalidState(_))));
    let big = SurfaceCapabilities { min_image_count: u32::MAX, ..caps };
    assert_eq!(swapchain_config(big, &formats, &vec![0]).unwrap().min_image_count, u32::MAX);
}

#[test]
fn queue_family_flags() {
    let q = QueueProperties::new(0b111, 4);
    assert!(q.is_graphic_support() && q.is_compute_support() && q.is_transfer_support());
    assert_eq!(q.count(), 4);
    let g = QueueProperties::new(0b001, 1);
    assert!(g.is_graphic_support() && !g.is_compute_support() && !g.is_transfer_support());
    let t = QueueProperties::new(0b100, 1);
    assert!(!t.is_graphic_support() && t.is_transfer_support());
    assert_eq!(select_queue_family(&vec![g, t, q, q]), Some(2));
    assert_eq!(select_queue_family(&vec![g, t]), None);
}

#[test]
fn default_device_is_last_with_an_all_round_family() {
    let all = QueueProperties::new(0b111, 1);
    let gfx = QueueProperties::new(0b001, 1);
    let devices = vec![vec![gfx, all], vec![gfx], vec![gfx, gfx, all, all]];
    assert_eq!(default_physical_device(&devices).unwrap(), (2, 2));
    let only_first = vec![vec![all], vec![gfx]];
    assert_eq!(default_physical_device(&only_first).unwrap(), (0, 0));
    assert!(matches!(
        default_physical_device(&vec![vec![gfx], vec![]]),
        Err(VlError::HardwareError(HardwareError::NoSuitableDevice))
    ));
    assert!(matches!(default_physical_device(&vec![]), Err(VlError::HardwareError(HardwareError::NoSuitableDevice))));
}

#[test]
fn api_version_is_major_minor_patch() {
    let packed = (1u32 << 22) | (3 << 12) | 251;
    assert_eq!(api_version_string(packed), "1.3.251");
    assert_eq!(api_version_string(0), "0.0.0");
    assert_eq!(api_version_string((5 << 29) | (127 << 22) | (1023 << 12) | 4095), "127.1023.4095");
}

#[test]
fn surface_extensions_only_for_windows() {
    assert!(!wants_surface(&[]));
    assert!(!wants_surface(&[InstanceTarget::Image]));
    assert!(wants_surface(&[InstanceTarget::Image, InstanceTarget::Window]));
}

#[test]
fn spirv_words_in_either_byte_order() {
    let le = [0x03u8, 0x02, 0x23, 0x07, 0x01, 0x00, 0x00, 0x00];
    assert_eq!(Spirv::from_bytes(&le).unwrap().words(), &vec![0x0723_0203, 1]);
    let be = [0x07u8, 0x23, 0x02, 0x03, 0x00, 0x00, 0x00, 0x01];
    assert_eq!(Spirv::from_bytes(&be).unwrap().words(), &vec![0x0723_0203, 1]);
    assert!(Spirv::from_bytes(&[]).is_none());
    assert!(Spirv::from_bytes(&le[..7]).is_none());
    assert!(Spirv::from_bytes(&[0u8; 8]).is_none());
}
