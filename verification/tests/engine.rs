use retheme::engine::{
    close_wallpaper_window, desktop_switch_outcome, find_desktop_wallpaper_window,
    is_desktop_wallpaper_window, open_independent_wallpaper, open_wallpaper_on_desktop,
    launch_wallpaper_engine, playback_outcome, resume_wallpaper_engine, scene_window_name,
    wallpaper_engine_candidates, wallpaper_engine_executable, wide_null, WindowRect,
    CREATE_NO_WINDOW,
};
use retheme::paths::LocalPath;

fn path(parts: &[&str]) -> LocalPath {
    LocalPath { root: "C:\\".to_owned(), parts: parts.iter().map(|p| p.to_string()).collect() }
}

fn rect(left: i32, top: i32, right: i32, bottom: i32) -> WindowRect {
    WindowRect { left, top, right, bottom }
}

#[test]
fn finds_the_engine_next_to_the_workshop() {
    let root = path(&["Steam", "steamapps", "workshop", "content", "431960"]);
    let candidates = wallpaper_engine_candidates(&root).expect("steamapps");
    let names: Vec<Vec<String>> = candidates.into_iter().map(|p| p.parts).collect();
    let expected = |name: &str| -> Vec<String> {
        ["Steam", "steamapps", "common", "wallpaper_engine", name].iter().map(|p| p.to_string()).collect()
    };
    assert_eq!(names, vec![expected("wallpaper64.exe"), expected("wallpaper32.exe")]);
    assert_eq!(
        wallpaper_engine_candidates(&path(&["content", "431960"])).expect_err("too shallow"),
        "无法从 Workshop 路径定位 Steam steamapps 目录"
    );
}

#[test]
fn picks_the_first_engine_program_that_exists() {
    let root = path(&["Steam", "steamapps", "workshop", "content", "431960"]);
    let expected = |name: &str| -> Vec<String> {
        ["Steam", "steamapps", "common", "wallpaper_engine", name].iter().map(|p| p.to_string()).collect()
    };
    let both = wallpaper_engine_executable(&root, &[true, true]).expect("64-bit");
    assert_eq!(both.parts, expected("wallpaper64.exe"));
    assert_eq!(both.root, "C:\\");
    let only32 = wallpaper_engine_executable(&root, &[false, true]).expect("32-bit");
    assert_eq!(only32.parts, expected("wallpaper32.exe"));
    assert_eq!(
        wallpaper_engine_executable(&root, &[false, false]).expect_err("missing"),
        "找不到 Wallpaper Engine 官方程序：C:\\Steam\\steamapps\\common\\wallpaper_engine"
    );
    assert_eq!(
        wallpaper_engine_executable(&root, &[]).expect_err("missing"),
        "找不到 Wallpaper Engine 官方程序：C:\\Steam\\steamapps\\common\\wallpaper_engine"
    );
    let unix = LocalPath {
        root: "/".to_owned(),
        parts: ["steam", "steamapps", "workshop", "content", "431960"].iter().map(|p| p.to_string()).collect(),
    };
    assert_eq!(
        wallpaper_engine_executable(&unix, &[false, false]).expect_err("missing"),
        "找不到 Wallpaper Engine 官方程序：/steam/steamapps/common/wallpaper_engine"
    );
    assert_eq!(
        wallpaper_engine_executable(&path(&["content", "431960"]), &[true, true]).expect_err("too shallow"),
        "无法从 Workshop 路径定位 Steam steamapps 目录"
    );
}

#[test]
fn engine_commands_open_no_console_window() {
    let engine = path(&["wallpaper64.exe"]);
    assert_eq!(CREATE_NO_WINDOW, 0x0800_0000);
    let launch = launch_wallpaper_engine(&engine);
    assert!(launch.args.is_empty());
    assert_eq!(launch.creation_flags, CREATE_NO_WINDOW);
    assert_eq!(open_wallpaper_on_desktop(&engine, "p").creation_flags, CREATE_NO_WINDOW);
    assert_eq!(resume_wallpaper_engine(&engine).creation_flags, CREATE_NO_WINDOW);
    assert_eq!(close_wallpaper_window(&engine, "w").creation_flags, CREATE_NO_WINDOW);
    assert_eq!(open_independent_wallpaper(&engine, "p", "w", 1, 1).creation_flags, CREATE_NO_WINDOW);
}

#[test]
fn control_command_lines() {
    let engine = path(&["wallpaper64.exe"]);
    assert_eq!(
        open_wallpaper_on_desktop(&engine, "C:\\p\\project.json").args,
        vec!["-control", "openWallpaper", "-file", "C:\\p\\project.json", "-monitor", "0"]
    );
    assert_eq!(resume_wallpaper_engine(&engine).args, vec!["-control", "play"]);
    assert_eq!(
        close_wallpaper_window(&engine, "ReThemeWEScene-1-2").args,
        vec!["-control", "closeWallpaper", "-location", "ReThemeWEScene-1-2"]
    );
    assert_eq!(
        open_independent_wallpaper(&engine, "p.json", "w", 1920, 1080).args,
        vec![
            "-control", "openWallpaper", "-file", "p.json", "-playInWindow", "w", "-width", "1920",
            "-height", "1080", "-x", "0", "-y", "0", "-borderless",
        ]
    );
    assert_eq!(open_wallpaper_on_desktop(&engine, "x").program.parts, vec!["wallpaper64.exe"]);
}

#[test]
fn scene_window_names() {
    assert_eq!(scene_window_name(4242, 1700000000123), "ReThemeWEScene-4242-1700000000123");
    assert_eq!(scene_window_name(0, 0), "ReThemeWEScene-0-0");
}

#[test]
fn command_outcomes() {
    assert_eq!(desktop_switch_outcome(true, Some(3)), Ok(()));
    assert_eq!(
        desktop_switch_outcome(false, Some(2)),
        Err("Wallpaper Engine 桌面切换命令返回 2".to_owned())
    );
    assert_eq!(
        desktop_switch_outcome(false, None),
        Err("Wallpaper Engine 桌面切换命令返回 -1".to_owned())
    );
    assert_eq!(playback_outcome(true, None), Ok(()));
    assert_eq!(
        playback_outcome(false, Some(-5)),
        Err("Wallpaper Engine 播放命令返回 -5".to_owned())
    );
}

#[test]
fn recognises_desktop_render_windows() {
    let r = Some(rect(0, 0, 1920, 1080));
    assert!(is_desktop_wallpaper_window("WPEDesktopRenderWindow", "WPELiveWallpaper", r));
    assert!(is_desktop_wallpaper_window("WPEDesktopWindow", "WPELiveWallpaper", r));
    assert!(!is_desktop_wallpaper_window("WPEDesktopRender", "WPELiveWallpaper", r));
    assert!(!is_desktop_wallpaper_window("XWPEDesktopWindow", "WPELiveWallpaper", r));
    assert!(!is_desktop_wallpaper_window("WPEDesktopWindow", "Other", r));
    assert!(!is_desktop_wallpaper_window("WPEDesktopWindow", "WPELiveWallpaper", None));
    assert!(!is_desktop_wallpaper_window(
        "WPEDesktopWindow",
        "WPELiveWallpaper",
        Some(rect(10, 0, 10, 100))
    ));
}

#[test]
fn prefers_the_window_at_the_origin_then_the_largest_then_the_last() {
    assert_eq!(find_desktop_wallpaper_window(&vec![]), None);
    let candidates = vec![
        rect(1920, 0, 5760, 2160),
        rect(0, 0, 1920, 1080),
        rect(-10, -10, 100, 100),
    ];
    assert_eq!(find_desktop_wallpaper_window(&candidates), Some(1));
    let ties = vec![rect(0, 0, 100, 100), rect(-50, -50, 50, 50), rect(5000, 0, 5010, 10)];
    assert_eq!(find_desktop_wallpaper_window(&ties), Some(1));
    let away = vec![rect(100, 100, 200, 200), rect(300, 0, 500, 300), rect(600, 0, 700, 100)];
    assert_eq!(find_desktop_wallpaper_window(&away), Some(1));
}

#[test]
fn wide_strings_end_with_nul() {
    assert_eq!(wide_null(""), vec![0]);
    assert_eq!(wide_null("WPETrayWindow"), "WPETrayWindow".encode_utf16().chain([0]).collect::<Vec<u16>>());
    let text = "壁纸 😀";
    assert_eq!(wide_null(text), text.encode_utf16().chain([0]).collect::<Vec<u16>>());
}
