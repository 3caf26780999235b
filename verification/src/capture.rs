//! Decisions of the Scene wallpaper capture: recognising black frames,
//! numbering frames, choosing between the cached frame, a new encoding and
//! an error, and checking the render sizes Wallpaper Engine reports.

use vstd::prelude::*;

use crate::text::{concat, decimal, i64_to_decimal, signed_decimal, u64_to_decimal};

verus! {

/// How a Scene wallpaper is captured.
#[derive(Clone, Copy, Debug, PartialEq, Eq, Structural)]
pub enum SceneCaptureMode {
    /// The Scene plays on the desktop and in a hidden window of the same
    /// size, which is captured.
    DesktopSynchronized,
}

impl SceneCaptureMode {
    /// The mode's name as the client reports it.
    pub fn as_str(self) -> (s: &'static str)
        ensures
            s@ == "desktop-synchronized"@,
    {
        match self {
            SceneCaptureMode::DesktopSynchronized => "desktop-synchronized",
        }
    }
}

/// Pixel `p` of a BGRA frame has a colour channel above 3.
pub open spec fn pixel_visible(bgra: Seq<u8>, p: int) -> bool {
    bgra[4 * p] > 3 || bgra[4 * p + 1] > 3 || bgra[4 * p + 2] > 3
}

/// Distance between sampled pixels: one in every `pixels / 4096`, at least
/// every pixel.
pub open spec fn sample_step(pixels: int) -> int {
    if pixels / 4096 > 1 {
        pixels / 4096
    } else {
        1
    }
}

/// Number of visible pixels among the sampled pixels `p`, `p + step`, ...
/// below `pixels`.
pub open spec fn visible_from(bgra: Seq<u8>, step: int, pixels: int, p: int) -> nat
    decreases (if p < pixels {
        pixels - p
    } else {
        0
    }),
{
    if p >= pixels || step <= 0 || p < 0 {
        0
    } else {
        (if pixel_visible(bgra, p) {
            1nat
        } else {
            0nat
        }) + visible_from(bgra, step, pixels, p + step)
    }
}

/// A frame is effectively black when it has no pixel, or fewer than 8 of its
/// sampled pixels are visible.
pub open spec fn frame_is_black(bgra: Seq<u8>) -> bool {
    let pixels: int = (bgra.len() / 4) as int;
    pixels == 0 || visible_from(bgra, sample_step(pixels), pixels, 0) < 8
}

/// Whether a BGRA frame is effectively black (Wallpaper Engine shows black
/// frames while a Scene starts).
pub fn bgra_frame_is_effectively_black(bgra: &[u8]) -> (r: bool)
    ensures
        r == frame_is_black(bgra@),
{
    let pixels = bgra.len() / 4;
    if pixels == 0 {
        return true;
    }
    let step = if pixels / 4096 > 1 {
        pixels / 4096
    } else {
        1
    };
    let ghost total = visible_from(bgra@, step as int, pixels as int, 0);
    let mut visible: usize = 0;
    let mut p: usize = 0;
    while p < pixels
        invariant
            pixels == bgra@.len() / 4,
            step == sample_step(pixels as int),
            1 <= step <= pixels,
            p <= pixels + step,
            visible < 8,
            total == visible_from(bgra@, step as int, pixels as int, 0),
            total == visible + visible_from(bgra@, step as int, pixels as int, p as int),
        decreases pixels + step - p,
    {
        assert(p * 4 + 3 < bgra.len()) by (nonlinear_arith)
            requires
                p < pixels,
                pixels == bgra@.len() / 4,
        ;
        let offset = p * 4;
        if bgra[offset] > 3 || bgra[offset + 1] > 3 || bgra[offset + 2] > 3 {
            visible = visible + 1;
            if visible >= 8 {
                return false;
            }
        }
        p = p + step;
    }
    true
}

/// A frame none of whose bytes exceeds 3 is effectively black.
pub proof fn law_dark_frames_are_black(bgra: Seq<u8>)
    requires
        forall|i: int| 0 <= i < bgra.len() ==> #[trigger] bgra[i] <= 3,
    ensures
        frame_is_black(bgra),
{
    let pixels: int = (bgra.len() / 4) as int;
    if pixels > 0 {
        lemma_dark_from(bgra, sample_step(pixels), pixels, 0);
    }
}

proof fn lemma_dark_from(bgra: Seq<u8>, step: int, pixels: int, p: int)
    requires
        forall|i: int| 0 <= i < bgra.len() ==> #[trigger] bgra[i] <= 3,
        pixels == bgra.len() / 4,
    ensures
        visible_from(bgra, step, pixels, p) == 0,
    decreases (if p < pixels {
        pixels - p
    } else {
        0
    }),
{
    if p < pixels && step > 0 && p >= 0 {
        assert(bgra[4 * p] <= 3);
        assert(bgra[4 * p + 1] <= 3);
        assert(bgra[4 * p + 2] <= 3);
        lemma_dark_from(bgra, step, pixels, p + step);
    }
}

/// The number of the frame after `previous` (frames are numbered from 1;
/// after `u64::MAX` the numbering starts over at 1).
pub open spec fn following_sequence(previous: u64) -> u64 {
    if previous == u64::MAX {
        1
    } else {
        (previous + 1) as u64
    }
}

/// The number of a newly captured frame: 1 for the first, else the number
/// after the previous frame's (`wrapping_add(1).max(1)`).
pub fn next_frame_sequence(previous: Option<u64>) -> (r: u64)
    ensures
        r == match previous {
            None => 1,
            Some(p) => following_sequence(p),
        },
        r >= 1,
        previous matches Some(p) ==> r != p,
{
    match previous {
        None => 1,
        Some(p) => if p == u64::MAX {
            1
        } else {
            p + 1
        },
    }
}

} // verus!

verus! {

/// The last encoded frame.
#[derive(Debug, Clone)]
pub struct FrameCache {
    /// JPEG of the last encoded frame.
    pub jpeg: Option<Vec<u8>>,
    /// Number of the captured frame it was encoded from (0 before any).
    pub source_sequence: u64,
    /// Number of the last encoded frame (0 before any).
    pub sequence: u64,
}

/// A frame delivered by Windows Graphics Capture.
#[derive(Debug, Clone)]
pub struct GraphicsFrame {
    pub width: u32,
    pub height: u32,
    pub sequence: u64,
    /// The pixels, four bytes each in BGRA order, without row padding.
    pub bgra: Vec<u8>,
}

/// The capture session as seen at one moment.
#[derive(Debug, Clone)]
pub struct GraphicsSnapshot {
    /// The session has been closed.
    pub closed: bool,
    /// The latest frame, once one has arrived.
    pub latest: Option<GraphicsFrame>,
}

/// What to do to answer a frame request.
#[derive(Debug)]
pub enum CaptureStep {
    /// Hand out the cached frame again.
    Cached,
    /// Encode the latest captured frame.
    Encode,
    /// Fail with this message.
    Fail(String),
}

/// The value of a [`CaptureStep`].
pub enum StepView {
    Cached,
    Encode,
    Fail(Seq<char>),
}

/// The value of a [`CaptureStep`].
pub open spec fn step_view(s: CaptureStep) -> StepView {
    match s {
        CaptureStep::Cached => StepView::Cached,
        CaptureStep::Encode => StepView::Encode,
        CaptureStep::Fail(m) => StepView::Fail(m@),
    }
}

/// Frame sizes the capture accepts: non-empty, at most 4096 by 2160.
pub open spec fn frame_size_ok(width: u32, height: u32) -> bool {
    width != 0 && height != 0 && width <= 4096 && height <= 2160
}

/// What to do for a frame request. A cached JPEG is handed out again while
/// playback is paused or the last encoding is recent; otherwise the capture
/// window must still exist and the capture session must be open and have a
/// frame of an acceptable size. A frame that was already encoded, or that
/// is effectively black, is answered by the cached JPEG (black frames fail
/// while there is none); any other frame is encoded.
pub open spec fn capture_plan(
    cache: FrameCache,
    paused: bool,
    fresh: bool,
    window_alive: bool,
    graphics: Option<GraphicsSnapshot>,
) -> StepView {
    let has_jpeg = cache.jpeg is Some;
    if has_jpeg && (paused || fresh) {
        StepView::Cached
    } else if !window_alive {
        StepView::Fail("Wallpaper Engine Scene 渲染窗口已关闭"@)
    } else {
        match graphics {
            None => StepView::Fail("Windows Graphics Capture 未初始化"@),
            Some(g) => if g.closed {
                StepView::Fail("Windows Graphics Capture 会话已关闭"@)
            } else {
                match g.latest {
                    None => StepView::Fail("Windows Graphics Capture 尚未产生画面"@),
                    Some(f) => if !frame_size_ok(f.width, f.height) {
                        StepView::Fail(
                            "Windows Graphics Capture 帧尺寸异常："@ + decimal(f.width as nat) + "x"@
                                + decimal(f.height as nat),
                        )
                    } else if cache.source_sequence == f.sequence && has_jpeg {
                        StepView::Cached
                    } else if frame_is_black(f.bgra@) {
                        if has_jpeg {
                            StepView::Cached
                        } else {
                            StepView::Fail("Wallpaper Engine playInWindow 当前输出纯黑帧"@)
                        }
                    } else {
                        StepView::Encode
                    },
                }
            },
        }
    }
}

/// Decides how to answer a frame request; `fresh` says whether the cached
/// JPEG was encoded less than one frame interval ago.
pub fn plan_capture(
    cache: &FrameCache,
    paused: bool,
    fresh: bool,
    window_alive: bool,
    graphics: &Option<GraphicsSnapshot>,
) -> (r: CaptureStep)
    ensures
        step_view(r) == capture_plan(*cache, paused, fresh, window_alive, *graphics),
{
    let has_jpeg = cache.jpeg.is_some();
    if has_jpeg && (paused || fresh) {
        return CaptureStep::Cached;
    }
    if !window_alive {
        return CaptureStep::Fail("Wallpaper Engine Scene 渲染窗口已关闭".to_owned());
    }
    let g = match graphics {
        Some(g) => g,
        None => {
            return CaptureStep::Fail("Windows Graphics Capture 未初始化".to_owned());
        },
    };
    if g.closed {
        return CaptureStep::Fail("Windows Graphics Capture 会话已关闭".to_owned());
    }
    let f = match &g.latest {
        Some(f) => f,
        None => {
            return CaptureStep::Fail("Windows Graphics Capture 尚未产生画面".to_owned());
        },
    };
    if f.width == 0 || f.height == 0 || f.width > 4096 || f.height > 2160 {
        let w = u64_to_decimal(f.width as u64);
        let h = u64_to_decimal(f.height as u64);
        let mut message = concat("Windows Graphics Capture 帧尺寸异常：", w.as_str());
        message = concat(message.as_str(), "x");
        message = concat(message.as_str(), h.as_str());
        return CaptureStep::Fail(message);
    }
    if cache.source_sequence == f.sequence && has_jpeg {
        return CaptureStep::Cached;
    }
    if bgra_frame_is_effectively_black(f.bgra.as_slice()) {
        if has_jpeg {
            return CaptureStep::Cached;
        }
        return CaptureStep::Fail("Wallpaper Engine playInWindow 当前输出纯黑帧".to_owned());
    }
    CaptureStep::Encode
}

/// Milliseconds between two captured frames: a JPEG encoded less than this
/// long ago is handed out again.
pub const FRAME_INTERVAL_MS: u64 = 100;

/// JPEG quality of encoded frames.
pub const JPEG_QUALITY: i32 = 80;

/// Whether the cached JPEG, encoded `elapsed_ms` milliseconds ago (`None`
/// when none was), is recent enough to hand out again.
pub fn frame_is_fresh(elapsed_ms: Option<u64>) -> (r: bool)
    ensures
        r == (elapsed_ms matches Some(ms) && ms < FRAME_INTERVAL_MS),
{
    match elapsed_ms {
        Some(ms) => ms < FRAME_INTERVAL_MS,
        None => false,
    }
}

/// How a captured frame is encoded.
#[derive(Debug, Clone, Copy, PartialEq, Eq, Structural)]
pub struct JpegEncoding {
    /// Width in pixels.
    pub width: u32,
    /// Height in pixels.
    pub height: u32,
    /// Bytes per row of the BGRA pixels.
    pub pitch: u64,
    /// JPEG quality.
    pub quality: i32,
    /// Chroma is subsampled 2x2 (4:2:0).
    pub subsample_2x2: bool,
}

/// The encoding of a captured frame: at its own size (no rescaling), from
/// rows of four bytes per pixel, at [`JPEG_QUALITY`] with 4:2:0 chroma.
pub fn jpeg_encoding(frame: &GraphicsFrame) -> (e: JpegEncoding)
    ensures
        e.width == frame.width,
        e.height == frame.height,
        e.pitch == 4 * frame.width,
        e.quality == JPEG_QUALITY,
        e.subsample_2x2,
{
    JpegEncoding {
        width: frame.width,
        height: frame.height,
        pitch: 4 * (frame.width as u64),
        quality: JPEG_QUALITY,
        subsample_2x2: true,
    }
}

/// Stores a newly encoded JPEG of captured frame `source_sequence`; returns
/// the number it is handed out under.
pub fn record_encoded_frame(cache: &mut FrameCache, source_sequence: u64, jpeg: Vec<u8>) -> (r: u64)
    ensures
        r == following_sequence(old(cache).sequence),
        final(cache).sequence == r,
        final(cache).source_sequence == source_sequence,
        final(cache).jpeg == Some(jpeg),
{
    cache.sequence = next_frame_sequence(Some(cache.sequence));
    cache.source_sequence = source_sequence;
    cache.jpeg = Some(jpeg);
    cache.sequence
}

/// The size of the desktop render window from its screen rectangle:
/// `Ok((width, height))` when it is positive and at most 4096 by 2160.
pub fn desktop_render_size(left: i32, top: i32, right: i32, bottom: i32) -> (r: Result<
    (i32, i32),
    String,
>)
    requires
        i32::MIN <= right - left <= i32::MAX,
        i32::MIN <= bottom - top <= i32::MAX,
    ensures
        ({
            let w = right - left;
            let h = bottom - top;
            if w <= 0 || h <= 0 || w > 4096 || h > 2160 {
                r matches Err(e) && e@ == "Wallpaper Engine 桌面渲染尺寸异常："@ + signed_decimal(w)
                    + "x"@ + signed_decimal(h)
            } else {
                r matches Ok(size) && size.0 == w && size.1 == h
            }
        }),
{
    let width = right - left;
    let height = bottom - top;
    if width <= 0 || height <= 0 || width > 4096 || height > 2160 {
        let w = i64_to_decimal(width as i64);
        let h = i64_to_decimal(height as i64);
        let mut message = concat("Wallpaper Engine 桌面渲染尺寸异常：", w.as_str());
        message = concat(message.as_str(), "x");
        message = concat(message.as_str(), h.as_str());
        return Err(message);
    }
    Ok((width, height))
}

} // verus!

verus! {

/// While a frame is cached, a paused wallpaper is never re-encoded: the
/// cached frame is handed out again.
pub proof fn law_paused_capture_keeps_the_frame(
    cache: FrameCache,
    fresh: bool,
    window_alive: bool,
    graphics: Option<GraphicsSnapshot>,
)
    requires
        cache.jpeg is Some,
    ensures
        capture_plan(cache, true, fresh, window_alive, graphics) == StepView::Cached,
{
}

/// Frames are capped at one per interval: while a JPEG is cached and was
/// encoded less than one frame interval ago, it is handed out again, whatever
/// the window and the capture session say.
pub proof fn law_fresh_capture_keeps_the_frame(
    cache: FrameCache,
    paused: bool,
    window_alive: bool,
    graphics: Option<GraphicsSnapshot>,
)
    requires
        cache.jpeg is Some,
    ensures
        capture_plan(cache, paused, true, window_alive, graphics) == StepView::Cached,
{
}

/// Without a cached JPEG, or when it is neither paused nor fresh, a closed
/// render window fails the request with the message that says so.
pub proof fn law_closed_window_fails_uncached_requests(
    cache: FrameCache,
    paused: bool,
    fresh: bool,
    graphics: Option<GraphicsSnapshot>,
)
    requires
        cache.jpeg is None || (!paused && !fresh),
    ensures
        capture_plan(cache, paused, fresh, false, graphics) == StepView::Fail(
            "Wallpaper Engine Scene 渲染窗口已关闭"@,
        ),
{
}

/// A new visible frame of an acceptable size is encoded once the cached
/// JPEG is neither paused nor fresh.
pub proof fn law_new_visible_frames_are_encoded(cache: FrameCache, frame: GraphicsFrame)
    requires
        frame.width > 0,
        frame.height > 0,
        frame.width <= 4096,
        frame.height <= 2160,
        !frame_is_black(frame.bgra@),
        cache.jpeg is None || cache.source_sequence != frame.sequence,
    ensures
        capture_plan(
            cache,
            false,
            false,
            true,
            Some(GraphicsSnapshot { closed: false, latest: Some(frame) }),
        ) == StepView::Encode,
{
}

/// A black frame never replaces the last good frame: with a frame cached,
/// a black capture is answered by the cached frame, never encoded.
pub proof fn law_black_frames_keep_the_last_frame(
    cache: FrameCache,
    paused: bool,
    fresh: bool,
    frame: GraphicsFrame,
)
    requires
        cache.jpeg is Some,
        frame_is_black(frame.bgra@),
        frame_size_ok(frame.width, frame.height),
    ensures
        capture_plan(
            cache,
            paused,
            fresh,
            true,
            Some(GraphicsSnapshot { closed: false, latest: Some(frame) }),
        ) == StepView::Cached,
{
}

/// Only new captures are encoded: a capture whose number is the one the
/// cached frame was encoded from is never encoded again.
pub proof fn law_frames_are_encoded_once(
    cache: FrameCache,
    paused: bool,
    fresh: bool,
    window_alive: bool,
    graphics: Option<GraphicsSnapshot>,
)
    requires
        cache.jpeg is Some,
        graphics is Some,
        graphics->0.latest is Some,
        graphics->0.latest->0.sequence == cache.source_sequence,
    ensures
        capture_plan(cache, paused, fresh, window_alive, graphics) != StepView::Encode,
{
}

/// A frame is encoded only from an open session's latest frame of an
/// acceptable size that is not effectively black.
pub proof fn law_encoded_frames_are_visible(
    cache: FrameCache,
    paused: bool,
    fresh: bool,
    window_alive: bool,
    graphics: Option<GraphicsSnapshot>,
)
    requires
        capture_plan(cache, paused, fresh, window_alive, graphics) == StepView::Encode,
    ensures
        window_alive,
        graphics is Some,
        !graphics->0.closed,
        graphics->0.latest is Some,
        frame_size_ok(graphics->0.latest->0.width, graphics->0.latest->0.height),
        !frame_is_black(graphics->0.latest->0.bgra@),
{
}

} // verus!
