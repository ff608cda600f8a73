use rdp_capture::{
    accept_sources, BitmapEncoder, BufferMetadata, BufferOutcome, BufferRejection, CaptureEvent,
    CapturedFrame, ChunkMeta, CursorInfo, DamageRect, FrameAssembler, PixelFormat, PortalError,
    PortalStream, StopAction, StreamLifecycle,
};
use tokio::sync::mpsc;

fn frame_with(format: PixelFormat, data: Vec<u8>) -> CapturedFrame {
    CapturedFrame {
        data,
        width: 2,
        height: 1,
        format,
        stride: 8,
        sequence: 0,
        damage: None,
    }
}

fn chunk(stride: i32, offset: u32, size: u32) -> ChunkMeta {
    ChunkMeta {
        stride,
        offset,
        size,
    }
}

fn frame_of(event: &CaptureEvent) -> &CapturedFrame {
    match event {
        CaptureEvent::Frame(f) => f,
        CaptureEvent::FrameAndCursor(f, _) => f,
    }
}

#[test]
fn full_frame_rect_has_origin_and_dimensions() {
    let r = DamageRect::full_frame(1920, 1080);
    assert_eq!((r.x, r.y, r.width, r.height), (0, 0, 1920, 1080));
    assert_eq!(r.area(), 1920 * 1080);
}

#[test]
fn area_does_not_overflow_on_large_displays() {
    assert_eq!(DamageRect::full_frame(65535, 65535).area(), 65535u64 * 65535u64);
    assert_eq!(
        DamageRect::new(-5, 7, u32::MAX, u32::MAX).area(),
        u64::from(u32::MAX) * u64::from(u32::MAX)
    );
    assert_eq!(DamageRect::new(3, 4, 0, 100).area(), 0);
}

#[test]
fn both_formats_have_four_bytes_per_pixel() {
    assert_eq!(PixelFormat::Bgra.bytes_per_pixel(), 4);
    assert_eq!(PixelFormat::Rgba.bytes_per_pixel(), 4);
}

#[test]
fn alpha_forced_opaque_for_bgra_only() {
    let mut f = frame_with(PixelFormat::Bgra, vec![1, 2, 3, 0, 5, 6, 7, 8, 9, 10]);
    f.ensure_alpha_opaque();
    assert_eq!(f.data, vec![1, 2, 3, 0xFF, 5, 6, 7, 0xFF, 9, 10]);
    assert_eq!((f.width, f.height, f.stride), (2, 1, 8));

    let mut g = frame_with(PixelFormat::Rgba, vec![1, 2, 3, 0, 5, 6, 7, 8]);
    g.ensure_alpha_opaque();
    assert_eq!(g.data, vec![1, 2, 3, 0, 5, 6, 7, 8]);
}

#[test]
fn zero_stride_or_size_gives_no_frame_and_keeps_counter() {
    let slice = vec![0u8; 64];
    let mut a = FrameAssembler::new();
    let r = a.assemble(chunk(0, 0, 64), &slice, BufferMetadata::absent());
    assert!(matches!(r, Err(BufferRejection::Degenerate)));
    let r = a.assemble(chunk(16, 0, 0), &slice, BufferMetadata::absent());
    assert!(matches!(r, Err(BufferRejection::Degenerate)));
    let r = a.assemble(chunk(-16, 0, 64), &slice, BufferMetadata::absent());
    assert!(matches!(r, Err(BufferRejection::Degenerate)));
    assert_eq!(a.next_sequence(), 0);
}

#[test]
fn zero_derived_dimension_gives_no_frame() {
    let slice = vec![0u8; 64];
    let mut a = FrameAssembler::new();
    let r = a.assemble(chunk(2, 0, 64), &slice, BufferMetadata::absent());
    assert!(matches!(r, Err(BufferRejection::ZeroDimension)));
    let r = a.assemble(chunk(32, 0, 16), &slice, BufferMetadata::absent());
    assert!(matches!(r, Err(BufferRejection::ZeroDimension)));
    assert_eq!(a.next_sequence(), 0);
}

#[test]
fn out_of_bounds_buffer_is_dropped_without_panic() {
    let slice = vec![0u8; 64];
    let mut a = FrameAssembler::new();
    let r = a.assemble(chunk(16, 16, 64), &slice, BufferMetadata::absent());
    assert!(matches!(r, Err(BufferRejection::OutOfBounds)));
    let r = a.assemble(chunk(16, u32::MAX, u32::MAX), &slice, BufferMetadata::absent());
    assert!(matches!(r, Err(BufferRejection::OutOfBounds)));
    assert_eq!(a.next_sequence(), 0);
}

#[test]
fn frame_is_cut_from_the_chunk_range() {
    let slice: Vec<u8> = (0u8..40).collect();
    let mut a = FrameAssembler::new();
    let event = a
        .assemble(chunk(8, 4, 24), &slice, BufferMetadata::absent())
        .unwrap();
    let f = frame_of(&event);
    assert_eq!(f.data, (4u8..28).collect::<Vec<u8>>());
    assert_eq!((f.width, f.height, f.stride), (2, 3, 8));
    assert_eq!(f.format, PixelFormat::Bgra);
    assert_eq!(f.sequence, 0);
    assert!(f.damage.is_none());
    assert!(matches!(event, CaptureEvent::Frame(_)));
    assert_eq!(a.next_sequence(), 1);
}

#[test]
fn sequences_increase_across_frames_and_skip_nothing_on_rejects() {
    let slice = vec![7u8; 64];
    let mut a = FrameAssembler::new();
    let mut seen = Vec::new();
    for c in [chunk(16, 0, 64), chunk(0, 0, 64), chunk(16, 0, 32), chunk(16, 40, 64), chunk(16, 0, 16)] {
        if let Ok(e) = a.assemble(c, &slice, BufferMetadata::absent()) {
            seen.push(frame_of(&e).sequence);
        }
    }
    assert_eq!(seen, vec![0, 1, 2]);
}

#[test]
fn damage_within_frame_is_kept() {
    let slice = vec![0u8; 64];
    let mut a = FrameAssembler::new();
    let meta = BufferMetadata {
        damage: Some(vec![DamageRect::new(0, 0, 4, 4), DamageRect::new(1, 2, 3, 2)]),
        cursor: None,
    };
    let event = a.assemble(chunk(16, 0, 64), &slice, meta).unwrap();
    let damage = frame_of(&event).damage.clone().unwrap();
    assert_eq!(damage.len(), 2);
    assert_eq!((damage[1].x, damage[1].y, damage[1].width, damage[1].height), (1, 2, 3, 2));

    let meta = BufferMetadata {
        damage: Some(Vec::new()),
        cursor: None,
    };
    let event = a.assemble(chunk(16, 0, 64), &slice, meta).unwrap();
    assert_eq!(frame_of(&event).damage.as_ref().map(|d| d.len()), Some(0));
}

#[test]
fn damage_outside_frame_degrades_to_full_frame() {
    let slice = vec![0u8; 64];
    let mut a = FrameAssembler::new();
    let meta = BufferMetadata {
        damage: Some(vec![DamageRect::new(0, 0, 4, 4), DamageRect::new(2, 0, 3, 1)]),
        cursor: None,
    };
    let event = a.assemble(chunk(16, 0, 64), &slice, meta).unwrap();
    assert!(frame_of(&event).damage.is_none());
    let meta = BufferMetadata {
        damage: Some(vec![DamageRect::new(-1, 0, 1, 1)]),
        cursor: None,
    };
    let event = a.assemble(chunk(16, 0, 64), &slice, meta).unwrap();
    assert!(frame_of(&event).damage.is_none());
    assert_eq!(frame_of(&event).sequence, 1);
}

#[test]
fn cursor_metadata_travels_with_the_frame() {
    let slice = vec![0u8; 64];
    let mut a = FrameAssembler::new();
    let meta = BufferMetadata {
        damage: None,
        cursor: Some(CursorInfo {
            x: 10,
            y: 20,
            hotspot_x: 1,
            hotspot_y: 2,
            bitmap: None,
        }),
    };
    match a.assemble(chunk(16, 0, 64), &slice, meta).unwrap() {
        CaptureEvent::FrameAndCursor(f, c) => {
            assert_eq!(f.sequence, 0);
            assert_eq!((c.x, c.y, c.hotspot_x, c.hotspot_y), (10, 20, 1, 2));
        }
        CaptureEvent::Frame(_) => panic!("cursor was lost"),
    }
}

#[test]
fn full_channel_drops_the_second_frame_without_blocking() {
    let (tx, mut rx) = mpsc::channel::<CaptureEvent>(1);
    let slice = vec![0u8; 64];
    let mut a = FrameAssembler::new();
    let first = a.process_buffer(chunk(16, 0, 64), &slice, BufferMetadata::absent(), &tx);
    let second = a.process_buffer(chunk(16, 0, 64), &slice, BufferMetadata::absent(), &tx);
    assert_eq!(first, BufferOutcome::Sent(0));
    assert_eq!(second, BufferOutcome::DroppedFull(1));
    let got = rx.try_recv().unwrap();
    assert_eq!(frame_of(&got).sequence, 0);
    assert!(rx.try_recv().is_err());
}

#[test]
fn closed_channel_drops_frames() {
    let (tx, rx) = mpsc::channel::<CaptureEvent>(2);
    drop(rx);
    let slice = vec![0u8; 64];
    let mut a = FrameAssembler::new();
    let r = a.process_buffer(chunk(16, 0, 64), &slice, BufferMetadata::absent(), &tx);
    assert_eq!(r, BufferOutcome::DroppedClosed(0));
    let r = a.process_buffer(chunk(0, 0, 64), &slice, BufferMetadata::absent(), &tx);
    assert_eq!(r, BufferOutcome::Rejected(BufferRejection::Degenerate));
    assert_eq!(a.next_sequence(), 1);
}

#[test]
fn stop_twice_joins_once() {
    let mut s = StreamLifecycle::running();
    assert!(s.keeps_running());
    assert_eq!(s.stop(), StopAction::JoinThread);
    assert!(!s.keeps_running());
    assert_eq!(s.stop(), StopAction::Nothing);
    assert!(s.stop_requested && s.joined);
}

#[test]
fn negotiated_monitor_feeds_three_frames() {
    let offered = accept_sources(
        vec![PortalStream::from_parts(7, Some((1920, 1080)))],
        None,
    )
    .unwrap();
    let source = offered.streams[0];
    assert_eq!(source.node_id, 7);
    assert_eq!((source.width, source.height), (Some(1920), Some(1080)));
    assert!(offered.restore_token.is_none());

    let (tx, mut rx) = mpsc::channel::<CaptureEvent>(4);
    let size: u32 = 7680 * 1080;
    let slice = vec![0u8; size as usize];
    let mut a = FrameAssembler::new();
    for _ in 0..3 {
        let r = a.process_buffer(chunk(7680, 0, size), &slice, BufferMetadata::absent(), &tx);
        assert!(matches!(r, BufferOutcome::Sent(_)));
    }
    let mut seqs = Vec::new();
    while let Ok(e) = rx.try_recv() {
        let f = frame_of(&e);
        assert_eq!((f.width, f.height), (1920, 1080));
        seqs.push(f.sequence);
    }
    assert_eq!(seqs, vec![0, 1, 2]);
}

#[test]
fn portal_stream_without_size() {
    let s = PortalStream::from_parts(3, None);
    assert_eq!((s.node_id, s.width, s.height), (3, None, None));
}

#[test]
fn no_sources_ends_negotiation() {
    let r = accept_sources(Vec::new(), Some("token".to_string()));
    assert!(matches!(r, Err(PortalError::NoStreams)));
    let ok = accept_sources(vec![PortalStream::from_parts(1, None)], Some("token".to_string())).unwrap();
    assert_eq!(ok.restore_token.as_deref(), Some("token"));
}

#[test]
fn resize_mid_session_updates_geometry_only() {
    let mut enc = BitmapEncoder::new(1920, 1080);
    assert_eq!((enc.width(), enc.height()), (1920, 1080));
    let frame = frame_with(PixelFormat::Rgba, vec![9, 8, 7, 6, 5, 4, 3, 2]);
    enc.resize(2560, 1440);
    assert_eq!((enc.width(), enc.height()), (2560, 1440));
    enc.resize(2560, 1440);
    assert_eq!((enc.width(), enc.height()), (2560, 1440));
    assert_eq!(frame.data, vec![9, 8, 7, 6, 5, 4, 3, 2]);
    assert_eq!(enc.encode(frame), vec![9, 8, 7, 6, 5, 4, 3, 2]);
}

#[test]
fn encode_makes_bgra_opaque() {
    let enc = BitmapEncoder::new(2, 1);
    let out = enc.encode(frame_with(PixelFormat::Bgra, vec![1, 2, 3, 4, 5, 6, 7, 8]));
    assert_eq!(out, vec![1, 2, 3, 0xFF, 5, 6, 7, 0xFF]);
}
