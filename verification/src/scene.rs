//! Starting a Scene wallpaper: the decisions between the steps that drive
//! Wallpaper Engine, the window system and the capture session.
//!
//! The start is a state machine. Each step takes what the last action
//! brought back (an event) and gives the next phase and the next action; the
//! caller performs the action (a process, a window lookup, a capture poll,
//! each with its own time limit) and reports the outcome. A running Wallpaper
//! Engine is reused and never stopped; the Scene is played on the desktop,
//! playback is resumed, and the Scene is then played in a hidden window of
//! the desktop's size, which is captured once it shows a frame that is not
//! effectively black. Every failure after that window was requested closes
//! it again.

use vstd::prelude::*;

use crate::capture::{bgra_frame_is_effectively_black, desktop_render_size, frame_is_black,
    GraphicsSnapshot};
use crate::engine::{arg_views, close_wallpaper_window, desktop_switch_outcome, launch_wallpaper_engine,
    open_independent_wallpaper, open_wallpaper_on_desktop, playback_outcome, rect_extents_fit,
    resume_wallpaper_engine, shown_code, WallpaperCommand, WindowRect, CREATE_NO_WINDOW};
use crate::paths::{LocalPath, PathView};
use crate::text::{concat, signed_decimal};

verus! {

/// The message of a capture that showed no usable frame in time.
pub const NO_FIRST_FRAME: &'static str = "Wallpaper Engine playInWindow 在 10 秒内没有产生可用画面；若出现“安全启动”，请先在 Wallpaper Engine 中确认恢复。ReTheme 没有关闭“防止崩溃”保护。";

/// The message of an event that does not answer the last action.
pub const UNEXPECTED_EVENT: &'static str = "Scene 启动流程收到意外事件";

/// What a Scene start works with.
#[derive(Debug, Clone)]
pub struct SceneSetup {
    /// The Wallpaper Engine program.
    pub engine: LocalPath,
    /// The Scene's `project.json`, as Wallpaper Engine is given it.
    pub project_json: String,
    /// Name of the hidden window the Scene is captured from.
    pub window_name: String,
}

/// How far a Scene start has come; each phase waits for the answer to the
/// action that led to it.
#[derive(Debug, Clone, Copy, PartialEq, Eq, Structural)]
pub enum StartPhase {
    /// Asked whether Wallpaper Engine runs.
    CheckingEngine,
    /// Started the Wallpaper Engine program.
    LaunchingEngine,
    /// Waiting for Wallpaper Engine to run.
    WaitingForEngine,
    /// Ran the command that plays the Scene on the desktop.
    SwitchingDesktop,
    /// Ran the command that resumes playback.
    ResumingPlayback,
    /// Looking for the desktop render window.
    FindingDesktopWindow,
    /// Started the command that plays the Scene in a window of this size.
    OpeningWindow { width: i32, height: i32 },
    /// Looking for that window.
    FindingWindow { width: i32, height: i32 },
    /// Moving the window off screen and starting its capture.
    StartingCapture,
    /// Waiting for a first visible frame.
    AwaitingFrame,
    /// The capture shows the Scene.
    Started,
    /// The start failed.
    Failed,
}

/// A Scene start in progress.
#[derive(Debug, Clone)]
pub struct SceneStart {
    pub setup: SceneSetup,
    pub phase: StartPhase,
}

/// What an action brought back.
#[derive(Debug)]
pub enum SceneEvent {
    /// Whether a Wallpaper Engine window exists.
    EngineRunning(bool),
    /// Whether the program could be started, or why not.
    Launched(Result<(), String>),
    /// Whether Wallpaper Engine came up in time.
    EngineReady(bool),
    /// A command ran: whether it succeeded and its exit code, or why it could
    /// not be run.
    Ran(Result<(bool, Option<i32>), String>),
    /// The desktop render window was found; its rectangle, or `None` when it
    /// could not be read.
    DesktopWindow(Option<WindowRect>),
    /// No desktop render window appeared in time.
    DesktopWindowTimedOut,
    /// Whether a command could be started, or why not.
    Spawned(Result<(), String>),
    /// Whether the Scene window appeared in time.
    WindowFound(bool),
    /// Whether the capture started, or why not.
    CaptureStarted(Result<(), String>),
    /// The capture session as it is now; `None` while it has no state yet.
    Frame(Option<GraphicsSnapshot>),
    /// No visible frame arrived in time.
    FrameTimedOut,
}

/// What to do next.
#[derive(Debug)]
pub enum SceneAction {
    /// Check whether Wallpaper Engine runs.
    CheckEngine,
    /// Start the program, without waiting for it.
    LaunchEngine(WallpaperCommand),
    /// Wait until Wallpaper Engine runs.
    WaitForEngine,
    /// Run a control command and wait for its exit status.
    Run(WallpaperCommand),
    /// Look for the desktop render window and read its rectangle.
    FindDesktopWindow,
    /// Start a control command without waiting for it.
    Spawn(WallpaperCommand),
    /// Look for the window with this title.
    FindWindow(String),
    /// Move the found window off screen at this size and capture it.
    StartCapture { width: i32, height: i32 },
    /// Look at the capture session again.
    PollFrame,
    /// The capture is ready.
    Finish,
    /// Give up with `message`, after stopping the capture when
    /// `stop_capture` holds and starting `close` when there is one.
    Fail { message: String, close: Option<WallpaperCommand>, stop_capture: bool },
    /// Nothing: the start is over.
    Idle,
}

/// The value of a command.
pub struct CommandView {
    pub program: PathView,
    pub args: Seq<Seq<char>>,
    pub creation_flags: u32,
}

/// The value of a command.
pub open spec fn command_view(c: WallpaperCommand) -> CommandView {
    CommandView { program: c.program.spec_view(), args: arg_views(c.args@), creation_flags: c.creation_flags }
}

/// The value of an optional command.
pub open spec fn opt_command_view(c: Option<WallpaperCommand>) -> Option<CommandView> {
    match c {
        Some(c) => Some(command_view(c)),
        None => None,
    }
}

/// The value of an action.
pub enum ActionView {
    CheckEngine,
    LaunchEngine(CommandView),
    WaitForEngine,
    Run(CommandView),
    FindDesktopWindow,
    Spawn(CommandView),
    FindWindow(Seq<char>),
    StartCapture(i32, i32),
    PollFrame,
    Finish,
    Fail(Seq<char>, Option<CommandView>, bool),
    Idle,
}

/// The value of an action.
pub open spec fn action_view(a: SceneAction) -> ActionView {
    match a {
        SceneAction::CheckEngine => ActionView::CheckEngine,
        SceneAction::LaunchEngine(c) => ActionView::LaunchEngine(command_view(c)),
        SceneAction::WaitForEngine => ActionView::WaitForEngine,
        SceneAction::Run(c) => ActionView::Run(command_view(c)),
        SceneAction::FindDesktopWindow => ActionView::FindDesktopWindow,
        SceneAction::Spawn(c) => ActionView::Spawn(command_view(c)),
        SceneAction::FindWindow(t) => ActionView::FindWindow(t@),
        SceneAction::StartCapture { width, height } => ActionView::StartCapture(width, height),
        SceneAction::PollFrame => ActionView::PollFrame,
        SceneAction::Finish => ActionView::Finish,
        SceneAction::Fail { message, close, stop_capture } => ActionView::Fail(
            message@,
            opt_command_view(close),
            stop_capture,
        ),
        SceneAction::Idle => ActionView::Idle,
    }
}

/// A command of the setup's Wallpaper Engine program, run without a console
/// window.
pub open spec fn engine_command(setup: SceneSetup, args: Seq<Seq<char>>) -> CommandView {
    CommandView { program: setup.engine.spec_view(), args, creation_flags: CREATE_NO_WINDOW }
}

/// Plays the Scene on the first monitor's desktop.
pub open spec fn desktop_args(project_json: Seq<char>) -> Seq<Seq<char>> {
    seq!["-control"@, "openWallpaper"@, "-file"@, project_json, "-monitor"@, "0"@]
}

/// Resumes playback.
pub open spec fn resume_args() -> Seq<Seq<char>> {
    seq!["-control"@, "play"@]
}

/// Closes the wallpaper playing in the window `window_name`.
pub open spec fn close_args(window_name: Seq<char>) -> Seq<Seq<char>> {
    seq!["-control"@, "closeWallpaper"@, "-location"@, window_name]
}

/// Plays the Scene in a borderless window at the screen origin.
pub open spec fn window_args(project_json: Seq<char>, window_name: Seq<char>, width: i32, height: i32) -> Seq<
    Seq<char>,
> {
    seq![
        "-control"@,
        "openWallpaper"@,
        "-file"@,
        project_json,
        "-playInWindow"@,
        window_name,
        "-width"@,
        signed_decimal(width as int),
        "-height"@,
        signed_decimal(height as int),
        "-x"@,
        "0"@,
        "-y"@,
        "0"@,
        "-borderless"@,
    ]
}

/// The command that closes the setup's Scene window.
pub open spec fn close_view(setup: SceneSetup) -> CommandView {
    engine_command(setup, close_args(setup.window_name@))
}

/// The Scene window has been requested: from here on a failure closes it.
pub open spec fn window_opened(phase: StartPhase) -> bool {
    ||| phase is FindingWindow
    ||| phase is StartingCapture
    ||| phase is AwaitingFrame
}

/// Giving up in `phase` with `message`: the Scene window is closed once it
/// was requested, and the capture stopped once it runs.
pub open spec fn failure(setup: SceneSetup, phase: StartPhase, message: Seq<char>) -> (
    StartPhase,
    ActionView,
) {
    (
        StartPhase::Failed,
        ActionView::Fail(
            message,
            if window_opened(phase) {
                Some(close_view(setup))
            } else {
                None
            },
            phase is AwaitingFrame,
        ),
    )
}

/// What a capture snapshot means while waiting for the first frame.
pub open spec fn frame_transition(setup: SceneSetup, phase: StartPhase, snapshot: Option<GraphicsSnapshot>) -> (
    StartPhase,
    ActionView,
) {
    match snapshot {
        None => (StartPhase::AwaitingFrame, ActionView::PollFrame),
        Some(s) => if s.closed {
            failure(setup, phase, NO_FIRST_FRAME@)
        } else {
            match s.latest {
                None => (StartPhase::AwaitingFrame, ActionView::PollFrame),
                Some(f) => if frame_is_black(f.bgra@) {
                    (StartPhase::AwaitingFrame, ActionView::PollFrame)
                } else {
                    (StartPhase::Started, ActionView::Finish)
                },
            }
        },
    }
}

/// What the desktop render window's rectangle means.
pub open spec fn desktop_transition(setup: SceneSetup, phase: StartPhase, rect: Option<WindowRect>) -> (
    StartPhase,
    ActionView,
) {
    match rect {
        None => failure(setup, phase, "无法读取 Wallpaper Engine 桌面渲染尺寸"@),
        Some(r) => if !rect_extents_fit(r) {
            failure(setup, phase, "无法读取 Wallpaper Engine 桌面渲染尺寸"@)
        } else {
            let w = r.right - r.left;
            let h = r.bottom - r.top;
            if w <= 0 || h <= 0 || w > 4096 || h > 2160 {
                failure(
                    setup,
                    phase,
                    "Wallpaper Engine 桌面渲染尺寸异常："@ + signed_decimal(w) + "x"@ + signed_decimal(h),
                )
            } else {
                (
                    StartPhase::OpeningWindow { width: w as i32, height: h as i32 },
                    ActionView::Spawn(
                        engine_command(
                            setup,
                            window_args(setup.project_json@, setup.window_name@, w as i32, h as i32),
                        ),
                    ),
                )
            }
        },
    }
}

/// The next phase and action of a Scene start in `phase` on `event`.
pub open spec fn start_transition(setup: SceneSetup, phase: StartPhase, event: SceneEvent) -> (
    StartPhase,
    ActionView,
) {
    let unexpected = failure(setup, phase, UNEXPECTED_EVENT@);
    match phase {
        StartPhase::Started => (phase, ActionView::Idle),
        StartPhase::Failed => (phase, ActionView::Idle),
        StartPhase::CheckingEngine => match event {
            SceneEvent::EngineRunning(running) => if running {
                (StartPhase::WaitingForEngine, ActionView::WaitForEngine)
            } else {
                (StartPhase::LaunchingEngine, ActionView::LaunchEngine(engine_command(setup, seq![])))
            },
            _ => unexpected,
        },
        StartPhase::LaunchingEngine => match event {
            SceneEvent::Launched(Ok(())) => (StartPhase::WaitingForEngine, ActionView::WaitForEngine),
            SceneEvent::Launched(Err(e)) => failure(setup, phase, "无法启动 Wallpaper Engine："@ + e@),
            _ => unexpected,
        },
        StartPhase::WaitingForEngine => match event {
            SceneEvent::EngineReady(ready) => if ready {
                (
                    StartPhase::SwitchingDesktop,
                    ActionView::Run(engine_command(setup, desktop_args(setup.project_json@))),
                )
            } else {
                failure(setup, phase, "Wallpaper Engine 主进程在 20 秒内没有就绪"@)
            },
            _ => unexpected,
        },
        StartPhase::SwitchingDesktop => match event {
            SceneEvent::Ran(Ok(status)) => if status.0 {
                (StartPhase::ResumingPlayback, ActionView::Run(engine_command(setup, resume_args())))
            } else {
                failure(
                    setup,
                    phase,
                    "Wallpaper Engine 桌面切换命令返回 "@ + signed_decimal(shown_code(status.1)),
                )
            },
            SceneEvent::Ran(Err(e)) => failure(setup, phase, "无法把 Scene 同步到桌面："@ + e@),
            _ => unexpected,
        },
        StartPhase::ResumingPlayback => match event {
            SceneEvent::Ran(Ok(status)) => if status.0 {
                (StartPhase::FindingDesktopWindow, ActionView::FindDesktopWindow)
            } else {
                failure(
                    setup,
                    phase,
                    "Wallpaper Engine 播放命令返回 "@ + signed_decimal(shown_code(status.1)),
                )
            },
            SceneEvent::Ran(Err(e)) => failure(setup, phase, "无法恢复 Wallpaper Engine 播放："@ + e@),
            _ => unexpected,
        },
        StartPhase::FindingDesktopWindow => match event {
            SceneEvent::DesktopWindow(rect) => desktop_transition(setup, phase, rect),
            SceneEvent::DesktopWindowTimedOut => failure(
                setup,
                phase,
                "Wallpaper Engine 桌面渲染窗口在 20 秒内没有就绪"@,
            ),
            _ => unexpected,
        },
        StartPhase::OpeningWindow { width, height } => match event {
            SceneEvent::Spawned(Ok(())) => (
                StartPhase::FindingWindow { width, height },
                ActionView::FindWindow(setup.window_name@),
            ),
            SceneEvent::Spawned(Err(e)) => failure(
                setup,
                phase,
                "无法通过 Wallpaper Engine 打开独立 Scene："@ + e@,
            ),
            _ => unexpected,
        },
        StartPhase::FindingWindow { width, height } => match event {
            SceneEvent::WindowFound(found) => if found {
                (StartPhase::StartingCapture, ActionView::StartCapture(width, height))
            } else {
                failure(setup, phase, "Wallpaper Engine 独立 Scene 渲染窗口在 20 秒内没有就绪"@)
            },
            _ => unexpected,
        },
        StartPhase::StartingCapture => match event {
            SceneEvent::CaptureStarted(Ok(())) => (StartPhase::AwaitingFrame, ActionView::PollFrame),
            SceneEvent::CaptureStarted(Err(e)) => failure(setup, phase, e@),
            _ => unexpected,
        },
        StartPhase::AwaitingFrame => match event {
            SceneEvent::Frame(snapshot) => frame_transition(setup, phase, snapshot),
            SceneEvent::FrameTimedOut => failure(setup, phase, NO_FIRST_FRAME@),
            _ => unexpected,
        },
    }
}

/// A command that starts the program or sends it one of the control verbs
/// `openWallpaper`, `play` and `closeWallpaper`, without a console window.
pub open spec fn keeps_engine_running(c: CommandView) -> bool {
    &&& c.creation_flags == CREATE_NO_WINDOW
    &&& c.args.len() == 0 || (c.args.len() >= 2 && c.args[0] == "-control"@ && (c.args[1]
        == "openWallpaper"@ || c.args[1] == "play"@ || c.args[1] == "closeWallpaper"@))
}

/// Every command the action carries keeps Wallpaper Engine running.
pub open spec fn never_stops_engine(a: ActionView) -> bool {
    match a {
        ActionView::LaunchEngine(c) => keeps_engine_running(c),
        ActionView::Run(c) => keeps_engine_running(c),
        ActionView::Spawn(c) => keeps_engine_running(c),
        ActionView::Fail(_, close, _) => close matches Some(c) ==> keeps_engine_running(c),
        _ => true,
    }
}

/// Gives up in `phase` with `message`.
fn fail_in(setup: &SceneSetup, phase: StartPhase, message: String) -> (r: (StartPhase, SceneAction))
    ensures
        (r.0, action_view(r.1)) == failure(*setup, phase, message@),
{
    let opened = match phase {
        StartPhase::FindingWindow { .. } => true,
        StartPhase::StartingCapture => true,
        StartPhase::AwaitingFrame => true,
        _ => false,
    };
    let stop_capture = match phase {
        StartPhase::AwaitingFrame => true,
        _ => false,
    };
    let close = if opened {
        Some(close_wallpaper_window(&setup.engine, setup.window_name.as_str()))
    } else {
        None
    };
    (StartPhase::Failed, SceneAction::Fail { message, close, stop_capture })
}

/// The rectangle's extents fit in `i32`.
fn extents_fit(r: WindowRect) -> (b: bool)
    ensures
        b == rect_extents_fit(r),
{
    let w = (r.right as i64) - (r.left as i64);
    let h = (r.bottom as i64) - (r.top as i64);
    -2147483648 <= w && w <= 2147483647 && -2147483648 <= h && h <= 2147483647
}

/// The desktop render window's rectangle decides the Scene window's size.
fn on_desktop_window(setup: &SceneSetup, phase: StartPhase, rect: Option<WindowRect>) -> (r: (
    StartPhase,
    SceneAction,
))
    ensures
        (r.0, action_view(r.1)) == desktop_transition(*setup, phase, rect),
{
    let r = match rect {
        Some(r) => r,
        None => {
            return fail_in(setup, phase, "无法读取 Wallpaper Engine 桌面渲染尺寸".to_owned());
        },
    };
    if !extents_fit(r) {
        return fail_in(setup, phase, "无法读取 Wallpaper Engine 桌面渲染尺寸".to_owned());
    }
    match desktop_render_size(r.left, r.top, r.right, r.bottom) {
        Err(message) => fail_in(setup, phase, message),
        Ok(size) => {
            let (width, height) = size;
            let c = open_independent_wallpaper(
                &setup.engine,
                setup.project_json.as_str(),
                setup.window_name.as_str(),
                width,
                height,
            );
            (StartPhase::OpeningWindow { width, height }, SceneAction::Spawn(c))
        },
    }
}

/// A capture snapshot while waiting for the first frame.
fn on_frame(setup: &SceneSetup, phase: StartPhase, snapshot: Option<GraphicsSnapshot>) -> (r: (
    StartPhase,
    SceneAction,
))
    ensures
        (r.0, action_view(r.1)) == frame_transition(*setup, phase, snapshot),
{
    match snapshot {
        None => (StartPhase::AwaitingFrame, SceneAction::PollFrame),
        Some(s) => {
            if s.closed {
                return fail_in(setup, phase, NO_FIRST_FRAME.to_owned());
            }
            match s.latest {
                None => (StartPhase::AwaitingFrame, SceneAction::PollFrame),
                Some(f) => if bgra_frame_is_effectively_black(f.bgra.as_slice()) {
                    (StartPhase::AwaitingFrame, SceneAction::PollFrame)
                } else {
                    (StartPhase::Started, SceneAction::Finish)
                },
            }
        },
    }
}

/// The next phase and action in `phase` on `event`.
#[verifier::rlimit(40)]
fn decide(setup: &SceneSetup, phase: StartPhase, event: SceneEvent) -> (r: (StartPhase, SceneAction))
    ensures
        (r.0, action_view(r.1)) == start_transition(*setup, phase, event),
{
    match phase {
        StartPhase::Started => (phase, SceneAction::Idle),
        StartPhase::Failed => (phase, SceneAction::Idle),
        StartPhase::CheckingEngine => match event {
            SceneEvent::EngineRunning(running) => if running {
                (StartPhase::WaitingForEngine, SceneAction::WaitForEngine)
            } else {
                let c = launch_wallpaper_engine(&setup.engine);
                assert(arg_views(c.args@) =~= Seq::<Seq<char>>::empty());
                (StartPhase::LaunchingEngine, SceneAction::LaunchEngine(c))
            },
            _ => fail_in(setup, phase, UNEXPECTED_EVENT.to_owned()),
        },
        StartPhase::LaunchingEngine => match event {
            SceneEvent::Launched(Ok(())) => (StartPhase::WaitingForEngine, SceneAction::WaitForEngine),
            SceneEvent::Launched(Err(e)) => fail_in(
                setup,
                phase,
                concat("无法启动 Wallpaper Engine：", e.as_str()),
            ),
            _ => fail_in(setup, phase, UNEXPECTED_EVENT.to_owned()),
        },
        StartPhase::WaitingForEngine => match event {
            SceneEvent::EngineReady(ready) => if ready {
                let c = open_wallpaper_on_desktop(&setup.engine, setup.project_json.as_str());
                (StartPhase::SwitchingDesktop, SceneAction::Run(c))
            } else {
                fail_in(setup, phase, "Wallpaper Engine 主进程在 20 秒内没有就绪".to_owned())
            },
            _ => fail_in(setup, phase, UNEXPECTED_EVENT.to_owned()),
        },
        StartPhase::SwitchingDesktop => match event {
            SceneEvent::Ran(Ok(status)) => match desktop_switch_outcome(status.0, status.1) {
                Ok(()) => {
                    let c = resume_wallpaper_engine(&setup.engine);
                    (StartPhase::ResumingPlayback, SceneAction::Run(c))
                },
                Err(message) => fail_in(setup, phase, message),
            },
            SceneEvent::Ran(Err(e)) => fail_in(setup, phase, concat("无法把 Scene 同步到桌面：", e.as_str())),
            _ => fail_in(setup, phase, UNEXPECTED_EVENT.to_owned()),
        },
        StartPhase::ResumingPlayback => match event {
            SceneEvent::Ran(Ok(status)) => match playback_outcome(status.0, status.1) {
                Ok(()) => (StartPhase::FindingDesktopWindow, SceneAction::FindDesktopWindow),
                Err(message) => fail_in(setup, phase, message),
            },
            SceneEvent::Ran(Err(e)) => fail_in(
                setup,
                phase,
                concat("无法恢复 Wallpaper Engine 播放：", e.as_str()),
            ),
            _ => fail_in(setup, phase, UNEXPECTED_EVENT.to_owned()),
        },
        StartPhase::FindingDesktopWindow => match event {
            SceneEvent::DesktopWindow(rect) => on_desktop_window(setup, phase, rect),
            SceneEvent::DesktopWindowTimedOut => fail_in(
                setup,
                phase,
                "Wallpaper Engine 桌面渲染窗口在 20 秒内没有就绪".to_owned(),
            ),
            _ => fail_in(setup, phase, UNEXPECTED_EVENT.to_owned()),
        },
        StartPhase::OpeningWindow { width, height } => match event {
            SceneEvent::Spawned(Ok(())) => (
                StartPhase::FindingWindow { width, height },
                SceneAction::FindWindow(setup.window_name.clone()),
            ),
            SceneEvent::Spawned(Err(e)) => fail_in(
                setup,
                phase,
                concat("无法通过 Wallpaper Engine 打开独立 Scene：", e.as_str()),
            ),
            _ => fail_in(setup, phase, UNEXPECTED_EVENT.to_owned()),
        },
        StartPhase::FindingWindow { width, height } => match event {
            SceneEvent::WindowFound(found) => if found {
                (StartPhase::StartingCapture, SceneAction::StartCapture { width, height })
            } else {
                fail_in(setup, phase, "Wallpaper Engine 独立 Scene 渲染窗口在 20 秒内没有就绪".to_owned())
            },
            _ => fail_in(setup, phase, UNEXPECTED_EVENT.to_owned()),
        },
        StartPhase::StartingCapture => match event {
            SceneEvent::CaptureStarted(Ok(())) => (StartPhase::AwaitingFrame, SceneAction::PollFrame),
            SceneEvent::CaptureStarted(Err(e)) => fail_in(setup, phase, e),
            _ => fail_in(setup, phase, UNEXPECTED_EVENT.to_owned()),
        },
        StartPhase::AwaitingFrame => match event {
            SceneEvent::Frame(snapshot) => on_frame(setup, phase, snapshot),
            SceneEvent::FrameTimedOut => fail_in(setup, phase, NO_FIRST_FRAME.to_owned()),
            _ => fail_in(setup, phase, UNEXPECTED_EVENT.to_owned()),
        },
    }
}

/// Every step keeps Wallpaper Engine running: each command it gives starts
/// the program or sends one of the verbs `openWallpaper`, `play` and
/// `closeWallpaper`, without a console window.
pub proof fn law_start_never_stops_engine(setup: SceneSetup, phase: StartPhase, event: SceneEvent)
    ensures
        never_stops_engine(start_transition(setup, phase, event).1),
{
}

/// A desktop render window whose width and height are positive and at most
/// 4096 by 2160 opens the Scene window at exactly that size: the command
/// plays the Scene in a borderless window of the desktop's width and height
/// at the screen origin.
pub proof fn law_desktop_sizes_up_to_4096_by_2160_open_the_window(setup: SceneSetup, r: WindowRect)
    requires
        0 < r.right - r.left <= 4096,
        0 < r.bottom - r.top <= 2160,
    ensures
        start_transition(setup, StartPhase::FindingDesktopWindow, SceneEvent::DesktopWindow(Some(r)))
            == (
            StartPhase::OpeningWindow {
                width: (r.right - r.left) as i32,
                height: (r.bottom - r.top) as i32,
            },
            ActionView::Spawn(
                CommandView {
                    program: setup.engine.spec_view(),
                    args: seq![
                        "-control"@,
                        "openWallpaper"@,
                        "-file"@,
                        setup.project_json@,
                        "-playInWindow"@,
                        setup.window_name@,
                        "-width"@,
                        signed_decimal(r.right - r.left),
                        "-height"@,
                        signed_decimal(r.bottom - r.top),
                        "-x"@,
                        "0"@,
                        "-y"@,
                        "0"@,
                        "-borderless"@,
                    ],
                    creation_flags: CREATE_NO_WINDOW,
                },
            ),
        ),
{
}

/// Any other readable desktop size fails the start with the size in the
/// message, before any Scene window is requested.
pub proof fn law_other_desktop_sizes_fail(setup: SceneSetup, r: WindowRect)
    requires
        i32::MIN <= r.right - r.left <= i32::MAX,
        i32::MIN <= r.bottom - r.top <= i32::MAX,
        !(0 < r.right - r.left <= 4096 && 0 < r.bottom - r.top <= 2160),
    ensures
        start_transition(setup, StartPhase::FindingDesktopWindow, SceneEvent::DesktopWindow(Some(r)))
            == (
            StartPhase::Failed,
            ActionView::Fail(
                "Wallpaper Engine 桌面渲染尺寸异常："@ + signed_decimal(r.right - r.left) + "x"@
                    + signed_decimal(r.bottom - r.top),
                None,
                false,
            ),
        ),
{
}

/// While waiting for the first frame, an open capture whose latest frame is
/// not effectively black finishes the start; a black or missing frame asks
/// for another look; a closed capture fails, stopping the capture and
/// closing the Scene window.
pub proof fn law_first_visible_frame_finishes(setup: SceneSetup, s: GraphicsSnapshot)
    ensures
        !s.closed && s.latest is Some && !frame_is_black(s.latest->0.bgra@) ==> start_transition(
            setup,
            StartPhase::AwaitingFrame,
            SceneEvent::Frame(Some(s)),
        ) == (StartPhase::Started, ActionView::Finish),
        !s.closed && (s.latest is None || frame_is_black(s.latest->0.bgra@)) ==> start_transition(
            setup,
            StartPhase::AwaitingFrame,
            SceneEvent::Frame(Some(s)),
        ) == (StartPhase::AwaitingFrame, ActionView::PollFrame),
        s.closed ==> start_transition(setup, StartPhase::AwaitingFrame, SceneEvent::Frame(Some(s))) == (
            StartPhase::Failed,
            ActionView::Fail(
                NO_FIRST_FRAME@,
                Some(
                    CommandView {
                        program: setup.engine.spec_view(),
                        args: seq!["-control"@, "closeWallpaper"@, "-location"@, setup.window_name@],
                        creation_flags: CREATE_NO_WINDOW,
                    },
                ),
                true,
            ),
        ),
{
}

/// Starts a Scene: the first step asks whether Wallpaper Engine runs.
pub fn scene_start_begin(setup: SceneSetup) -> (r: (SceneStart, SceneAction))
    ensures
        r.0.setup == setup,
        r.0.phase == StartPhase::CheckingEngine,
        action_view(r.1) == ActionView::CheckEngine,
{
    (SceneStart { setup, phase: StartPhase::CheckingEngine }, SceneAction::CheckEngine)
}

/// One step of a Scene start: the phase and action that follow `event`.
///
/// Wallpaper Engine is launched only when it was found not running, and no
/// command stops it; a desktop switch that succeeded is followed by the
/// resume command; the start succeeds only on an open capture whose latest
/// frame is not effectively black; and every failure after the Scene window
/// was requested closes that window.
pub fn scene_start_step(state: SceneStart, event: SceneEvent) -> (r: (SceneStart, SceneAction))
    ensures
        r.0.setup == state.setup,
        (r.0.phase, action_view(r.1)) == start_transition(state.setup, state.phase, event),
        never_stops_engine(action_view(r.1)),
        action_view(r.1) is LaunchEngine ==> state.phase == StartPhase::CheckingEngine && event
            == SceneEvent::EngineRunning(false),
        state.phase == StartPhase::SwitchingDesktop ==> (event matches SceneEvent::Ran(Ok(status))
            ==> (status.0 ==> action_view(r.1) == ActionView::Run(
            engine_command(state.setup, resume_args()),
        ))),
        action_view(r.1) is Finish ==> {
            &&& state.phase == StartPhase::AwaitingFrame
            &&& r.0.phase == StartPhase::Started
            &&& event matches SceneEvent::Frame(Some(s))
            &&& !s.closed
            &&& s.latest is Some
            &&& !frame_is_black(s.latest->0.bgra@)
        },
        r.0.phase == StartPhase::Started ==> state.phase == StartPhase::Started || action_view(r.1) is Finish,
        window_opened(state.phase) ==> (action_view(r.1) matches ActionView::Fail(_, close, _) ==> close
            == Some(close_view(state.setup))),
{
    let SceneStart { setup, phase } = state;
    let ghost ev = event;
    let (next, action) = decide(&setup, phase, event);
    proof {
        law_start_never_stops_engine(setup, phase, ev);
    }
    (SceneStart { setup, phase: next }, action)
}

} // verus!
