use rusty_duplication::capturer::custom::{required_buffer_size, CustomCapturer};
use rusty_duplication::capturer::simple::SimpleCapturer;
use rusty_duplication::duplicate_context::{
    AcquireOutcome, AcquiredFrame, DuplicateContext, FrameLease, PointerShape, PointerShapeInfo,
};
use rusty_duplication::utils::{Dpi, FrameInfo, FrameInfoExt, OutputDesc, OutputDescExt};
use rusty_duplication::CaptureError;

fn full_hd() -> OutputDesc {
    OutputDesc {
        left: 0,
        top: 0,
        right: 1920,
        bottom: 1080,
    }
}

fn info_plain(present: i64, mouse: i64) -> FrameInfo {
    FrameInfo {
        last_present_time: present,
        last_mouse_update_time: mouse,
        pointer_shape_buffer_size: 0,
    }
}

fn frame_plain(data: Vec<u8>) -> AcquireOutcome {
    AcquireOutcome::Frame(AcquiredFrame {
        info: info_plain(1, 7),
        data,
        pointer_shape: None,
    })
}

fn frame_with_shape(mouse: i64, shape: Vec<u8>) -> AcquireOutcome {
    AcquireOutcome::Frame(AcquiredFrame {
        info: FrameInfo {
            last_present_time: 1,
            last_mouse_update_time: mouse,
            pointer_shape_buffer_size: shape.len() as u32,
        },
        data: vec![9u8; 16],
        pointer_shape: Some(PointerShape {
            info: PointerShapeInfo {
                shape_type: 1,
                width: 4,
                height: 4,
                pitch: 4,
                hot_spot_x: 0,
                hot_spot_y: 0,
            },
            data: shape,
        }),
    })
}

fn frame_mouse_position_only() -> AcquireOutcome {
    AcquireOutcome::Frame(AcquiredFrame {
        info: info_plain(1, 0),
        data: vec![9u8; 16],
        pointer_shape: None,
    })
}

#[test]
fn output_desc_ext() {
    let desc = full_hd();
    assert_eq!(desc.width(), 1920);
    assert_eq!(desc.height(), 1080);
    assert_eq!(desc.calc_buffer_size(), 1920 * 1080 * 4);
}

#[test]
fn frame_info_ext() {
    let mut desc = info_plain(0, 0);
    assert!(!desc.desktop_updated());
    desc.last_present_time = 1;
    assert!(desc.desktop_updated());
}

#[test]
fn required_bytes_full_hd_unscaled() {
    // 1920x1080 with no DPI scaling requires exactly 8,294,400 bytes
    let desc = full_hd();
    assert_eq!(required_buffer_size(&desc, None), 8_294_400);
    assert_eq!(
        required_buffer_size(&desc, Some(Dpi { x: 96, y: 96 })),
        8_294_400
    );
}

#[test]
fn required_bytes_dpi_scaled() {
    // 125% scaling (120 DPI) turns 1920x1080 into 2400x1350 physical pixels
    let desc = full_hd();
    assert_eq!(
        required_buffer_size(&desc, Some(Dpi { x: 120, y: 120 })),
        2400 * 1350 * 4
    );
    // asymmetric scale pairs apply per axis
    assert_eq!(
        required_buffer_size(&desc, Some(Dpi { x: 192, y: 96 })),
        3840 * 1080 * 4
    );
}

#[test]
fn check_buffer_boundary() {
    let ctx = DuplicateContext::new(100);
    let desc = full_hd();
    let exact = ctx.custom_capturer(vec![0u8; 8_294_400], &desc);
    assert!(exact.check_buffer(&desc, None).is_ok());
    let short = ctx.custom_capturer(vec![0u8; 8_294_399], &desc);
    assert_eq!(
        short.check_buffer(&desc, None),
        Err(CaptureError::UndersizedBuffer)
    );
}

#[test]
fn check_buffer_idempotent() {
    let ctx = DuplicateContext::new(100);
    let desc = full_hd();
    let capturer = ctx.custom_capturer(vec![0u8; 100], &desc);
    let first = capturer.check_buffer(&desc, None);
    for _ in 0..5 {
        assert_eq!(capturer.check_buffer(&desc, None), first);
    }
}

#[test]
fn desktop_updated_polarity() {
    for t in [0i64, 1, 5, 1_000_000] {
        let info = info_plain(t, 3);
        assert_eq!(info.desktop_updated(), t != 0);
    }
}

#[test]
fn mouse_updated_polarity() {
    assert!(info_plain(1, 0).mouse_updated());
    assert!(!info_plain(1, 1).mouse_updated());
    assert!(!info_plain(1, 123_456).mouse_updated());
}

#[test]
fn safe_capture_undersized_fails_without_copy() {
    let ctx = DuplicateContext::new(100);
    let desc = full_hd();
    let mut lease = FrameLease::new();
    let mut capturer = ctx.custom_capturer(vec![5u8; 8_294_399], &desc);
    let before = capturer.buffer().to_vec();
    let r = capturer.safe_capture(&desc, None, frame_plain(vec![1u8; 16]), &mut lease);
    assert_eq!(r, Err(CaptureError::UndersizedBuffer));
    assert_eq!(capturer.buffer(), &before[..]);
}

#[test]
fn safe_capture_undersized_fails_simple() {
    let ctx = DuplicateContext::new(100);
    let small = OutputDesc {
        left: 0,
        top: 0,
        right: 4,
        bottom: 1,
    };
    let grown = OutputDesc {
        left: 0,
        top: 0,
        right: 8,
        bottom: 1,
    };
    let mut lease = FrameLease::new();
    // allocate for the small geometry, then the display grows
    let mut capturer = ctx.simple_capturer(&small, None);
    let r = capturer.safe_capture(&grown, None, frame_plain(vec![1u8; 16]), &mut lease);
    assert_eq!(r, Err(CaptureError::UndersizedBuffer));
    let r = capturer.safe_capture(&small, None, frame_plain(vec![1u8; 16]), &mut lease);
    assert_eq!(r, Ok(info_plain(1, 7)));
}

#[test]
fn capture_copies_prefix_and_keeps_tail() {
    let ctx = DuplicateContext::new(100);
    let desc = full_hd();
    let mut lease = FrameLease::new();
    let mut capturer = ctx.custom_capturer(vec![7u8; 6], &desc);
    let r = capturer.capture(frame_plain(vec![1, 2, 3, 4]), &mut lease);
    assert_eq!(r, Ok(info_plain(1, 7)));
    assert_eq!(capturer.buffer(), &[1, 2, 3, 4, 7, 7]);
    // a mapped image larger than the destination is truncated, never grown
    let r = capturer.capture(frame_plain(vec![8u8; 100]), &mut lease);
    assert_eq!(r, Ok(info_plain(1, 7)));
    assert_eq!(capturer.buffer(), &[8, 8, 8, 8, 8, 8]);
}

#[test]
fn capture_buffer_not_zero_after_nonblack_frame() {
    let ctx = DuplicateContext::new(100);
    let desc = full_hd();
    let mut lease = FrameLease::new();
    let mut capturer = ctx.custom_capturer(vec![0u8; 16], &desc);
    let mut image = vec![0u8; 16];
    image[5] = 200;
    capturer
        .capture(frame_plain(image), &mut lease)
        .unwrap();
    assert!(capturer.buffer().iter().any(|b| *b != 0));
}

#[test]
fn capture_timeout_is_recoverable_error() {
    let ctx = DuplicateContext::new(100);
    let desc = full_hd();
    let mut lease = FrameLease::new();
    let mut capturer = ctx.custom_capturer(vec![3u8; 4], &desc);
    let r = capturer.capture(AcquireOutcome::Timeout, &mut lease);
    assert_eq!(r, Err(CaptureError::FrameTimeout));
    assert_eq!(capturer.buffer(), &[3, 3, 3, 3]);
}

#[test]
fn capture_access_lost_is_session_lost() {
    let ctx = DuplicateContext::new(100);
    let desc = full_hd();
    let mut lease = FrameLease::new();
    let mut capturer = ctx.custom_capturer(vec![3u8; 4], &desc);
    let r = capturer.capture(AcquireOutcome::AccessLost, &mut lease);
    assert_eq!(r, Err(CaptureError::SessionLost));
    assert_eq!(capturer.buffer(), &[3, 3, 3, 3]);
}

#[test]
fn simple_capturer_allocates_required_bytes() {
    let ctx = DuplicateContext::new(1000);
    let desc = OutputDesc {
        left: 0,
        top: 0,
        right: 32,
        bottom: 8,
    };
    let capturer = ctx.simple_capturer(&desc, None);
    assert_eq!(capturer.buffer().len(), 32 * 8 * 4);
    assert!(capturer.buffer().iter().all(|b| *b == 0));
    let scaled = ctx.simple_capturer(&desc, Some(Dpi { x: 192, y: 192 }));
    assert_eq!(scaled.buffer().len(), 64 * 16 * 4);
}

#[test]
fn pointer_shape_change_is_detected() {
    let ctx = DuplicateContext::new(1000);
    let desc = full_hd();
    let mut lease = FrameLease::new();
    let mut capturer = ctx.simple_capturer(&desc, None);
    let (info, shape_info) = capturer
        .capture_with_pointer_shape(frame_with_shape(0, vec![10, 11, 12]), &mut lease)
        .unwrap();
    assert!(info.mouse_updated());
    assert!(shape_info.is_some());
    assert_eq!(capturer.pointer_shape_buffer(), &[10, 11, 12]);
    // a fresh shape differing from the empty initial one reads as updated
    assert!(capturer.pointer_shape_updated());

    // the shape changes again: new bytes, same length
    capturer
        .capture_with_pointer_shape(frame_with_shape(0, vec![10, 11, 99]), &mut lease)
        .unwrap();
    assert!(capturer.pointer_shape_updated());
    assert_eq!(capturer.pointer_shape_buffer(), &[10, 11, 99]);

    // the same shape swapped in twice reads as not updated
    capturer
        .capture_with_pointer_shape(frame_with_shape(0, vec![10, 11, 99]), &mut lease)
        .unwrap();
    assert!(!capturer.pointer_shape_updated());
    assert_eq!(capturer.pointer_shape_buffer(), &[10, 11, 99]);
}

#[test]
fn pointer_shape_stable_without_mouse_update() {
    let ctx = DuplicateContext::new(1000);
    let desc = full_hd();
    let mut lease = FrameLease::new();
    let mut capturer = ctx.simple_capturer(&desc, None);
    capturer
        .capture_with_pointer_shape(frame_with_shape(0, vec![1, 2, 3, 4]), &mut lease)
        .unwrap();
    let before = capturer.pointer_shape_buffer().to_vec();
    let updated_before = capturer.pointer_shape_updated();

    // the second call reports no mouse update: nothing may move
    let (info, shape_info) = capturer
        .capture_with_pointer_shape(frame_plain(vec![9u8; 16]), &mut lease)
        .unwrap();
    assert!(!info.mouse_updated());
    assert!(shape_info.is_none());
    assert_eq!(capturer.pointer_shape_buffer(), &before[..]);
    assert_eq!(capturer.pointer_shape_updated(), updated_before);
}

#[test]
fn pointer_shape_settles_on_position_only_updates() {
    let ctx = DuplicateContext::new(1000);
    let desc = full_hd();
    let mut lease = FrameLease::new();
    let mut capturer = ctx.simple_capturer(&desc, None);
    // two consecutive position-only mouse updates produce no bitmap, so
    // both slots end up exposing the empty shape
    capturer
        .capture_with_pointer_shape(frame_mouse_position_only(), &mut lease)
        .unwrap();
    capturer
        .capture_with_pointer_shape(frame_mouse_position_only(), &mut lease)
        .unwrap();
    assert!(!capturer.pointer_shape_updated());
    assert_eq!(capturer.pointer_shape_buffer(), &[] as &[u8]);
}

#[test]
fn pointer_shape_storage_is_reused() {
    let ctx = DuplicateContext::new(1000);
    let desc = full_hd();
    let mut lease = FrameLease::new();
    let mut capturer = ctx.simple_capturer(&desc, None);
    capturer
        .capture_with_pointer_shape(frame_with_shape(0, vec![1, 2, 3, 4, 5, 6]), &mut lease)
        .unwrap();
    assert_eq!(capturer.pointer_shape_buffer(), &[1, 2, 3, 4, 5, 6]);
    // a smaller shape is exposed only up to its recorded size
    capturer
        .capture_with_pointer_shape(frame_with_shape(0, vec![4, 4]), &mut lease)
        .unwrap();
    capturer
        .capture_with_pointer_shape(frame_with_shape(0, vec![7, 8, 9]), &mut lease)
        .unwrap();
    assert_eq!(capturer.pointer_shape_buffer(), &[7, 8, 9]);
    assert!(capturer.pointer_shape_updated());
}

#[test]
fn custom_capturer_pointer_shape() {
    let ctx = DuplicateContext::new(100);
    let desc = full_hd();
    let mut lease = FrameLease::new();
    let mut capturer = ctx.custom_capturer(vec![0u8; 16], &desc);
    assert_eq!(capturer.pointer_shape_buffer(), &[] as &[u8]);
    let (info, shape_info) = capturer
        .capture_with_pointer_shape(frame_with_shape(0, vec![42, 43]), &mut lease)
        .unwrap();
    assert_eq!(info.pointer_shape_buffer_size, 2);
    assert!(shape_info.is_some());
    assert_eq!(shape_info.unwrap().width, 4);
    assert_eq!(capturer.pointer_shape_buffer(), &[42, 43]);
    // no new shape: the recorded bitmap stays as it was
    capturer
        .capture_with_pointer_shape(frame_plain(vec![1u8; 8]), &mut lease)
        .unwrap();
    assert_eq!(capturer.pointer_shape_buffer(), &[42, 43]);
}

#[test]
fn safe_capture_with_pointer_shape_checks_first() {
    let ctx = DuplicateContext::new(100);
    let desc = full_hd();
    let mut lease = FrameLease::new();
    let mut capturer = ctx.custom_capturer(vec![0u8; 4], &desc);
    let r = capturer.safe_capture_with_pointer_shape(
        &desc,
        None,
        frame_with_shape(0, vec![1, 2]),
        &mut lease,
    );
    assert_eq!(r, Err(CaptureError::UndersizedBuffer));
    assert_eq!(capturer.pointer_shape_buffer(), &[] as &[u8]);
}

#[test]
fn frame_lease_pairing() {
    let mut lease = FrameLease::new();
    assert!(!lease.held());
    assert!(!lease.mapped());
    lease.acquire_frame();
    assert!(lease.held());
    lease.release_frame();
    assert!(!lease.held());
    lease.map_surface();
    assert!(lease.mapped());
    lease.unmap_surface();
    assert!(!lease.mapped());
}

#[test]
fn readable_texture_matches_geometry() {
    let ctx = DuplicateContext::new(100);
    let desc = full_hd();
    let t = ctx.create_readable_texture(&desc);
    assert_eq!(t.width, 1920);
    assert_eq!(t.height, 1080);
    assert_eq!(t.mip_levels, 1);
    assert_eq!(t.array_size, 1);
    assert_eq!(t.sample_count, 1);
    assert_eq!(t.sample_quality, 0);
    assert!(t.cpu_read_only);
    assert!(t.staging_usage);
    assert!(t.max_eviction_priority);
}

#[test]
fn context_keeps_timeout() {
    let ctx = DuplicateContext::new(1000);
    assert_eq!(ctx.timeout_ms(), 1000);
}

#[test]
fn buffer_mut_gives_the_storage_back() {
    let ctx = DuplicateContext::new(100);
    let desc = full_hd();
    let mut capturer = ctx.custom_capturer(vec![0u8; 4], &desc);
    capturer.buffer_mut()[0] = 99;
    assert_eq!(capturer.buffer(), &[99, 0, 0, 0]);
    let mut simple = ctx.simple_capturer(
        &OutputDesc {
            left: 0,
            top: 0,
            right: 1,
            bottom: 1,
        },
        None,
    );
    simple.buffer_mut()[3] = 5;
    assert_eq!(simple.buffer(), &[0, 0, 0, 5]);
}

#[test]
fn custom_capturer_returns_the_buffer() {
    let ctx = DuplicateContext::new(100);
    let desc = full_hd();
    let mut lease = FrameLease::new();
    let mut capturer = ctx.custom_capturer(vec![0u8; 4], &desc);
    capturer
        .capture(frame_plain(vec![1, 2, 3, 4]), &mut lease)
        .unwrap();
    assert_eq!(capturer.into_buffer(), vec![1, 2, 3, 4]);
}

#[test]
fn negative_geometry_origin_is_handled() {
    // a display left of the primary one has negative coordinates
    let desc = OutputDesc {
        left: -1920,
        top: -1080,
        right: 0,
        bottom: 0,
    };
    assert_eq!(desc.width(), 1920);
    assert_eq!(desc.height(), 1080);
    assert_eq!(desc.calc_buffer_size(), 8_294_400);
}
