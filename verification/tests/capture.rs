use retheme::capture::{bgra_frame_is_effectively_black, desktop_render_size, frame_is_fresh, jpeg_encoding, next_frame_sequence, FRAME_INTERVAL_MS, JPEG_QUALITY,
    plan_capture, record_encoded_frame, CaptureStep, FrameCache, GraphicsFrame, GraphicsSnapshot,
    SceneCaptureMode};

#[test]
fn detects_effectively_black_bgra_frames() {
    assert!(bgra_frame_is_effectively_black(&vec![0; 300 * 300 * 4]));
    assert!(bgra_frame_is_effectively_black(&vec![3; 300 * 300 * 4]));

    let mut visible = vec![0; 300 * 300 * 4];
    for pixel in visible.chunks_exact_mut(4).take(2_000) {
        pixel.copy_from_slice(&[12, 24, 48, 255]);
    }
    assert!(!bgra_frame_is_effectively_black(&visible));
}

#[test]
fn empty_and_sparse_frames_are_black() {
    assert!(bgra_frame_is_effectively_black(&[]));
    assert!(bgra_frame_is_effectively_black(&[255, 255, 255]));
    // Seven visible pixels of eight: still black.
    let mut frame = vec![0u8; 8 * 4];
    for p in 0..7 {
        frame[p * 4 + 2] = 200;
    }
    assert!(bgra_frame_is_effectively_black(&frame));
    frame[7 * 4] = 4;
    assert!(!bgra_frame_is_effectively_black(&frame));
}

#[test]
fn alpha_alone_does_not_make_a_pixel_visible() {
    let mut frame = vec![0u8; 16 * 4];
    for p in 0..16 {
        frame[p * 4 + 3] = 255;
    }
    assert!(bgra_frame_is_effectively_black(&frame));
}

#[test]
fn only_sampled_pixels_count() {
    // 8192 pixels: every second pixel is sampled, so odd pixels are never seen.
    let mut frame = vec![0u8; 8192 * 4];
    for p in (1..8192).step_by(2) {
        frame[p * 4] = 255;
    }
    assert!(bgra_frame_is_effectively_black(&frame));
    for p in (0..16).step_by(2) {
        frame[p * 4 + 1] = 255;
    }
    assert!(!bgra_frame_is_effectively_black(&frame));
}

#[test]
fn frame_numbers_start_at_one_and_skip_zero() {
    assert_eq!(next_frame_sequence(None), 1);
    assert_eq!(next_frame_sequence(Some(1)), 2);
    assert_eq!(next_frame_sequence(Some(41)), 42);
    assert_eq!(next_frame_sequence(Some(u64::MAX)), 1);
}

#[test]
fn scene_capture_mode_name() {
    assert_eq!(SceneCaptureMode::DesktopSynchronized.as_str(), "desktop-synchronized");
}

fn cache(jpeg: bool, source_sequence: u64) -> FrameCache {
    FrameCache {
        jpeg: if jpeg { Some(vec![1, 2, 3]) } else { None },
        source_sequence,
        sequence: 5,
    }
}

fn snapshot(width: u32, height: u32, sequence: u64, visible: bool) -> Option<GraphicsSnapshot> {
    let mut bgra = vec![0u8; (width as usize) * (height as usize) * 4];
    if visible {
        for b in bgra.iter_mut() {
            *b = 200;
        }
    }
    Some(GraphicsSnapshot {
        closed: false,
        latest: Some(GraphicsFrame { width, height, sequence, bgra }),
    })
}

fn fail_message(step: CaptureStep) -> String {
    match step {
        CaptureStep::Fail(m) => m,
        other => panic!("expected a failure, got {:?}", other),
    }
}

#[test]
fn cached_frame_is_reused_while_paused_or_fresh() {
    assert!(matches!(plan_capture(&cache(true, 0), true, false, false, &None), CaptureStep::Cached));
    assert!(matches!(plan_capture(&cache(true, 0), false, true, false, &None), CaptureStep::Cached));
    // Without a cached JPEG pausing does not help.
    assert_eq!(
        fail_message(plan_capture(&cache(false, 0), true, true, false, &None)),
        "Wallpaper Engine Scene 渲染窗口已关闭"
    );
}

#[test]
fn capture_failures_in_order() {
    let c = cache(false, 0);
    assert_eq!(
        fail_message(plan_capture(&c, false, false, true, &None)),
        "Windows Graphics Capture 未初始化"
    );
    let closed = Some(GraphicsSnapshot { closed: true, latest: None });
    assert_eq!(
        fail_message(plan_capture(&c, false, false, true, &closed)),
        "Windows Graphics Capture 会话已关闭"
    );
    let empty = Some(GraphicsSnapshot { closed: false, latest: None });
    assert_eq!(
        fail_message(plan_capture(&c, false, false, true, &empty)),
        "Windows Graphics Capture 尚未产生画面"
    );
    let huge = Some(GraphicsSnapshot {
        closed: false,
        latest: Some(GraphicsFrame { width: 4097, height: 10, sequence: 1, bgra: vec![] }),
    });
    assert_eq!(
        fail_message(plan_capture(&c, false, false, true, &huge)),
        "Windows Graphics Capture 帧尺寸异常：4097x10"
    );
    assert_eq!(
        fail_message(plan_capture(&c, false, false, true, &snapshot(4, 4, 1, false))),
        "Wallpaper Engine playInWindow 当前输出纯黑帧"
    );
}

#[test]
fn new_frames_are_encoded_and_seen_frames_reused() {
    assert!(matches!(
        plan_capture(&cache(false, 0), false, false, true, &snapshot(4, 4, 7, true)),
        CaptureStep::Encode
    ));
    assert!(matches!(
        plan_capture(&cache(true, 7), false, false, true, &snapshot(4, 4, 7, true)),
        CaptureStep::Cached
    ));
    assert!(matches!(
        plan_capture(&cache(true, 6), false, false, true, &snapshot(4, 4, 7, true)),
        CaptureStep::Encode
    ));
    // A black frame falls back to the cached JPEG.
    assert!(matches!(
        plan_capture(&cache(true, 6), false, false, true, &snapshot(4, 4, 7, false)),
        CaptureStep::Cached
    ));
}

#[test]
fn recording_an_encoding_numbers_it() {
    let mut c = cache(false, 0);
    let n = record_encoded_frame(&mut c, 9, vec![7, 7]);
    assert_eq!(n, 6);
    assert_eq!(c.sequence, 6);
    assert_eq!(c.source_sequence, 9);
    assert_eq!(c.jpeg, Some(vec![7, 7]));
    c.sequence = u64::MAX;
    assert_eq!(record_encoded_frame(&mut c, 10, vec![1]), 1);
}

#[test]
fn desktop_render_sizes() {
    assert_eq!(desktop_render_size(0, 0, 1920, 1080), Ok((1920, 1080)));
    assert_eq!(desktop_render_size(-100, -50, 3996, 2110), Ok((4096, 2160)));
    assert_eq!(
        desktop_render_size(0, 0, 4097, 100),
        Err("Wallpaper Engine 桌面渲染尺寸异常：4097x100".to_owned())
    );
    assert_eq!(
        desktop_render_size(10, 0, 0, 100),
        Err("Wallpaper Engine 桌面渲染尺寸异常：-10x100".to_owned())
    );
    assert_eq!(
        desktop_render_size(0, 0, 100, 2161),
        Err("Wallpaper Engine 桌面渲染尺寸异常：100x2161".to_owned())
    );
}

#[test]
fn frames_are_encoded_at_their_size_and_quality() {
    let frame = GraphicsFrame { width: 1920, height: 1080, sequence: 3, bgra: Vec::new() };
    let encoding = jpeg_encoding(&frame);
    assert_eq!(encoding.width, 1920);
    assert_eq!(encoding.height, 1080);
    assert_eq!(encoding.pitch, 7680);
    assert_eq!(encoding.quality, 80);
    assert_eq!(JPEG_QUALITY, 80);
    assert!(encoding.subsample_2x2);
}

#[test]
fn cached_frames_stay_fresh_for_one_interval() {
    assert_eq!(FRAME_INTERVAL_MS, 100);
    assert!(frame_is_fresh(Some(0)));
    assert!(frame_is_fresh(Some(99)));
    assert!(!frame_is_fresh(Some(100)));
    assert!(!frame_is_fresh(None));
}
