use retheme::capture::{GraphicsFrame, GraphicsSnapshot};
use retheme::engine::{WindowRect, CREATE_NO_WINDOW};
use retheme::paths::LocalPath;
use retheme::scene::{
    scene_start_begin, scene_start_step, SceneAction, SceneEvent, SceneSetup, SceneStart, StartPhase,
    NO_FIRST_FRAME, UNEXPECTED_EVENT,
};

fn setup() -> SceneSetup {
    SceneSetup {
        engine: LocalPath { root: "C:\\".to_owned(), parts: vec!["we".to_owned(), "wallpaper64.exe".to_owned()] },
        project_json: "C:\\p\\project.json".to_owned(),
        window_name: "ReThemeWEScene-7-9".to_owned(),
    }
}

fn at(phase: StartPhase) -> SceneStart {
    SceneStart { setup: setup(), phase }
}

fn frame(bgra: Vec<u8>) -> GraphicsFrame {
    GraphicsFrame { width: 300, height: 300, sequence: 1, bgra }
}

fn snapshot(closed: bool, latest: Option<GraphicsFrame>) -> SceneEvent {
    SceneEvent::Frame(Some(GraphicsSnapshot { closed, latest }))
}

fn run_args(action: &SceneAction) -> Vec<String> {
    match action {
        SceneAction::Run(c) | SceneAction::Spawn(c) | SceneAction::LaunchEngine(c) => {
            assert_eq!(c.creation_flags, CREATE_NO_WINDOW);
            assert_eq!(c.program.parts, vec!["we", "wallpaper64.exe"]);
            c.args.clone()
        }
        other => panic!("not a command: {other:?}"),
    }
}

fn failure(action: SceneAction) -> (String, Option<Vec<String>>, bool) {
    match action {
        SceneAction::Fail { message, close, stop_capture } => (message, close.map(|c| c.args), stop_capture),
        other => panic!("not a failure: {other:?}"),
    }
}

fn close_args() -> Option<Vec<String>> {
    Some(vec!["-control".into(), "closeWallpaper".into(), "-location".into(), "ReThemeWEScene-7-9".into()])
}

#[test]
fn scene_start_reuses_a_running_engine_and_finishes_on_a_visible_frame() {
    let (s, a) = scene_start_begin(setup());
    assert!(matches!(a, SceneAction::CheckEngine));
    let (s, a) = scene_start_step(s, SceneEvent::EngineRunning(true));
    assert!(matches!(a, SceneAction::WaitForEngine));
    let (s, a) = scene_start_step(s, SceneEvent::EngineReady(true));
    assert_eq!(
        run_args(&a),
        vec!["-control", "openWallpaper", "-file", "C:\\p\\project.json", "-monitor", "0"]
    );
    let (s, a) = scene_start_step(s, SceneEvent::Ran(Ok((true, Some(0)))));
    assert_eq!(run_args(&a), vec!["-control", "play"]);
    let (s, a) = scene_start_step(s, SceneEvent::Ran(Ok((true, Some(0)))));
    assert!(matches!(a, SceneAction::FindDesktopWindow));
    let rect = WindowRect { left: 0, top: 0, right: 1920, bottom: 1080 };
    let (s, a) = scene_start_step(s, SceneEvent::DesktopWindow(Some(rect)));
    assert_eq!(
        run_args(&a),
        vec![
            "-control", "openWallpaper", "-file", "C:\\p\\project.json", "-playInWindow",
            "ReThemeWEScene-7-9", "-width", "1920", "-height", "1080", "-x", "0", "-y", "0",
            "-borderless",
        ]
    );
    assert_eq!(s.phase, StartPhase::OpeningWindow { width: 1920, height: 1080 });
    let (s, a) = scene_start_step(s, SceneEvent::Spawned(Ok(())));
    assert!(matches!(&a, SceneAction::FindWindow(t) if t == "ReThemeWEScene-7-9"));
    let (s, a) = scene_start_step(s, SceneEvent::WindowFound(true));
    assert!(matches!(a, SceneAction::StartCapture { width: 1920, height: 1080 }));
    let (s, a) = scene_start_step(s, SceneEvent::CaptureStarted(Ok(())));
    assert!(matches!(a, SceneAction::PollFrame));
    let (s, a) = scene_start_step(s, SceneEvent::Frame(None));
    assert!(matches!(a, SceneAction::PollFrame));
    let (s, a) = scene_start_step(s, snapshot(false, None));
    assert!(matches!(a, SceneAction::PollFrame));
    let (s, a) = scene_start_step(s, snapshot(false, Some(frame(vec![0; 300 * 300 * 4]))));
    assert!(matches!(a, SceneAction::PollFrame));
    let (s, a) = scene_start_step(s, snapshot(false, Some(frame(vec![200; 300 * 300 * 4]))));
    assert!(matches!(a, SceneAction::Finish));
    assert_eq!(s.phase, StartPhase::Started);
    let (s, a) = scene_start_step(s, SceneEvent::FrameTimedOut);
    assert!(matches!(a, SceneAction::Idle));
    assert_eq!(s.phase, StartPhase::Started);
}

#[test]
fn scene_start_launches_a_stopped_engine() {
    let (s, a) = scene_start_step(at(StartPhase::CheckingEngine), SceneEvent::EngineRunning(false));
    assert!(run_args(&a).is_empty());
    assert_eq!(s.phase, StartPhase::LaunchingEngine);
    let (_, a) = scene_start_step(s, SceneEvent::Launched(Ok(())));
    assert!(matches!(a, SceneAction::WaitForEngine));
    let (s, a) = scene_start_step(at(StartPhase::LaunchingEngine), SceneEvent::Launched(Err("denied".into())));
    assert_eq!(s.phase, StartPhase::Failed);
    assert_eq!(failure(a), ("无法启动 Wallpaper Engine：denied".to_owned(), None, false));
}

#[test]
fn scene_start_failures_before_the_window_close_nothing() {
    let cases = vec![
        (StartPhase::WaitingForEngine, SceneEvent::EngineReady(false), "Wallpaper Engine 主进程在 20 秒内没有就绪"),
        (StartPhase::SwitchingDesktop, SceneEvent::Ran(Err("gone".into())), "无法把 Scene 同步到桌面：gone"),
        (StartPhase::SwitchingDesktop, SceneEvent::Ran(Ok((false, Some(3)))), "Wallpaper Engine 桌面切换命令返回 3"),
        (StartPhase::ResumingPlayback, SceneEvent::Ran(Err("gone".into())), "无法恢复 Wallpaper Engine 播放：gone"),
        (StartPhase::ResumingPlayback, SceneEvent::Ran(Ok((false, None))), "Wallpaper Engine 播放命令返回 -1"),
        (StartPhase::FindingDesktopWindow, SceneEvent::DesktopWindowTimedOut, "Wallpaper Engine 桌面渲染窗口在 20 秒内没有就绪"),
        (StartPhase::FindingDesktopWindow, SceneEvent::DesktopWindow(None), "无法读取 Wallpaper Engine 桌面渲染尺寸"),
        (
            StartPhase::FindingDesktopWindow,
            SceneEvent::DesktopWindow(Some(WindowRect { left: i32::MIN, top: 0, right: i32::MAX, bottom: 10 })),
            "无法读取 Wallpaper Engine 桌面渲染尺寸",
        ),
        (
            StartPhase::FindingDesktopWindow,
            SceneEvent::DesktopWindow(Some(WindowRect { left: 0, top: 0, right: 5000, bottom: 1080 })),
            "Wallpaper Engine 桌面渲染尺寸异常：5000x1080",
        ),
        (
            StartPhase::OpeningWindow { width: 10, height: 10 },
            SceneEvent::Spawned(Err("busy".into())),
            "无法通过 Wallpaper Engine 打开独立 Scene：busy",
        ),
        (StartPhase::CheckingEngine, SceneEvent::FrameTimedOut, UNEXPECTED_EVENT),
    ];
    for (phase, event, message) in cases {
        let (s, a) = scene_start_step(at(phase), event);
        assert_eq!(s.phase, StartPhase::Failed);
        assert_eq!(failure(a), (message.to_owned(), None, false));
    }
}

#[test]
fn scene_start_failures_after_the_window_close_it() {
    let (_, a) = scene_start_step(at(StartPhase::FindingWindow { width: 1, height: 1 }), SceneEvent::WindowFound(false));
    assert_eq!(
        failure(a),
        ("Wallpaper Engine 独立 Scene 渲染窗口在 20 秒内没有就绪".to_owned(), close_args(), false)
    );
    let (_, a) = scene_start_step(at(StartPhase::StartingCapture), SceneEvent::CaptureStarted(Err("no capture".into())));
    assert_eq!(failure(a), ("no capture".to_owned(), close_args(), false));
    let (_, a) = scene_start_step(at(StartPhase::AwaitingFrame), SceneEvent::FrameTimedOut);
    assert_eq!(failure(a), (NO_FIRST_FRAME.to_owned(), close_args(), true));
    let (_, a) = scene_start_step(at(StartPhase::AwaitingFrame), snapshot(true, Some(frame(vec![200; 16]))));
    assert_eq!(failure(a), (NO_FIRST_FRAME.to_owned(), close_args(), true));
    let (_, a) = scene_start_step(at(StartPhase::StartingCapture), SceneEvent::EngineReady(true));
    assert_eq!(failure(a), (UNEXPECTED_EVENT.to_owned(), close_args(), false));
}
