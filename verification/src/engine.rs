//! Driving the official Wallpaper Engine program: where it is installed,
//! the command lines of its control interface, the names of its windows and
//! the choice of its desktop render window.

use vstd::prelude::*;

use crate::paths::{path_display, spec_join, LocalPath, PathView};
use crate::text::{chars_of, concat, decimal, ends_with, has_prefix, has_suffix, signed_decimal,
    i64_to_decimal, starts_with, str_eq, u64_to_decimal};

verus! {

/// Class-name prefix of the desktop render windows.
pub const DESKTOP_CLASS_PREFIX: &'static str = "WPEDesktop";

/// Class-name suffix of the desktop render windows.
pub const DESKTOP_CLASS_SUFFIX: &'static str = "Window";

/// Title of the desktop render windows.
pub const DESKTOP_WINDOW_TITLE: &'static str = "WPELiveWallpaper";

/// Program names of Wallpaper Engine, in order of preference.
pub const ENGINE_64: &'static str = "wallpaper64.exe";

/// The 32-bit program, used when the 64-bit one is missing.
pub const ENGINE_32: &'static str = "wallpaper32.exe";

/// Process creation flag that keeps a console program from opening a
/// console window (`CREATE_NO_WINDOW`).
pub const CREATE_NO_WINDOW: u32 = 0x0800_0000;

/// A window rectangle in screen coordinates.
#[derive(Debug, Clone, Copy, PartialEq, Eq, Structural)]
pub struct WindowRect {
    pub left: i32,
    pub top: i32,
    pub right: i32,
    pub bottom: i32,
}

/// A command line for the Wallpaper Engine program.
#[derive(Debug, Clone)]
pub struct WallpaperCommand {
    pub program: LocalPath,
    pub args: Vec<String>,
    /// Process creation flags on Windows.
    pub creation_flags: u32,
}

/// Arguments as character sequences.
pub open spec fn arg_views(args: Seq<String>) -> Seq<Seq<char>> {
    args.map_values(|a: String| a@)
}

/// `Path::parent` three times up from the Workshop content directory
/// `steamapps/workshop/content/431960` gives `steamapps`; the programs live
/// in `steamapps/common/wallpaper_engine`.
pub open spec fn engine_directory(workshop_root: PathView) -> Option<PathView> {
    if workshop_root.parts.len() >= 3 {
        let steamapps = PathView {
            root: workshop_root.root,
            parts: workshop_root.parts.take(workshop_root.parts.len() - 3),
        };
        Some(spec_join(spec_join(steamapps, "common"@), "wallpaper_engine"@))
    } else {
        None
    }
}

/// The places the Wallpaper Engine program may be, in order of preference,
/// below the Steam library of `workshop_root`.
pub fn wallpaper_engine_candidates(workshop_root: &LocalPath) -> (r: Result<Vec<LocalPath>, String>)
    ensures
        engine_directory(workshop_root.spec_view()) is None ==> (r matches Err(e) && e@
            == "无法从 Workshop 路径定位 Steam steamapps 目录"@),
        engine_directory(workshop_root.spec_view()) matches Some(d) ==> (r matches Ok(v) && v@.len()
            == 2 && v@[0].spec_view() == spec_join(d, ENGINE_64@) && v@[1].spec_view() == spec_join(
            d,
            ENGINE_32@,
        )),
{
    let p1 = match workshop_root.parent() {
        Some(p) => p,
        None => {
            return Err("无法从 Workshop 路径定位 Steam steamapps 目录".to_owned());
        },
    };
    let p2 = match p1.parent() {
        Some(p) => p,
        None => {
            return Err("无法从 Workshop 路径定位 Steam steamapps 目录".to_owned());
        },
    };
    let steamapps = match p2.parent() {
        Some(p) => p,
        None => {
            return Err("无法从 Workshop 路径定位 Steam steamapps 目录".to_owned());
        },
    };
    proof {
        let w = workshop_root.spec_view();
        assert(steamapps.spec_view().parts =~= w.parts.take(w.parts.len() - 3));
    }
    let directory = steamapps.join("common").join("wallpaper_engine");
    let mut candidates: Vec<LocalPath> = Vec::new();
    candidates.push(directory.join(ENGINE_64));
    candidates.push(directory.join(ENGINE_32));
    Ok(candidates)
}

/// The Wallpaper Engine program below the Steam library of `workshop_root`:
/// the first candidate of [`wallpaper_engine_candidates`] that is a file,
/// where `present[i]` says whether candidate `i` is one (a missing entry
/// counts as no). Fails, naming the program directory, when neither is.
pub fn wallpaper_engine_executable(workshop_root: &LocalPath, present: &[bool]) -> (r: Result<
    LocalPath,
    String,
>)
    ensures
        engine_directory(workshop_root.spec_view()) is None ==> (r matches Err(e) && e@
            == "无法从 Workshop 路径定位 Steam steamapps 目录"@),
        engine_directory(workshop_root.spec_view()) matches Some(d) ==> {
            let has64 = present@.len() > 0 && present@[0];
            let has32 = present@.len() > 1 && present@[1];
            if has64 {
                r matches Ok(p) && p.spec_view() == spec_join(d, ENGINE_64@)
            } else if has32 {
                r matches Ok(p) && p.spec_view() == spec_join(d, ENGINE_32@)
            } else {
                r matches Err(e) && e@ == "找不到 Wallpaper Engine 官方程序："@ + path_display(d)
            }
        },
{
    let mut candidates = match wallpaper_engine_candidates(workshop_root) {
        Ok(c) => c,
        Err(e) => {
            return Err(e);
        },
    };
    let ghost d = engine_directory(workshop_root.spec_view())->0;
    let has64 = present.len() > 0 && present[0];
    let has32 = present.len() > 1 && present[1];
    let second = candidates.pop().unwrap();
    let first = candidates.pop().unwrap();
    if has64 {
        return Ok(first);
    }
    if has32 {
        return Ok(second);
    }
    let directory = first.parent().unwrap();
    proof {
        assert(directory.spec_view().parts =~= d.parts);
    }
    let shown = directory.display();
    Err(concat("找不到 Wallpaper Engine 官方程序：", shown.as_str()))
}

/// Starts the Wallpaper Engine program itself, without a console window.
pub fn launch_wallpaper_engine(engine: &LocalPath) -> (c: WallpaperCommand)
    ensures
        c.program.spec_view() == engine.spec_view(),
        c.creation_flags == CREATE_NO_WINDOW,
        c.args@.len() == 0,
{
    WallpaperCommand { program: engine.duplicate(), args: Vec::new(), creation_flags: CREATE_NO_WINDOW }
}

/// Two string arguments.
fn args2(a: &str, b: &str) -> (r: Vec<String>)
    ensures
        arg_views(r@) == seq![a@, b@],
{
    let mut r: Vec<String> = Vec::new();
    r.push(a.to_owned());
    r.push(b.to_owned());
    assert(arg_views(r@) =~= seq![a@, b@]);
    r
}

/// Appends arguments.
fn push_args(v: &mut Vec<String>, more: Vec<String>)
    ensures
        arg_views(final(v)@) == arg_views(old(v)@) + arg_views(more@),
{
    let mut rest = more;
    let ghost all = rest@;
    let ghost start = v@;
    let n = rest.len();
    let mut i: usize = 0;
    proof {
        assert(rest@ =~= all.skip(0));
        assert(arg_views(v@) =~= arg_views(start) + arg_views(all.take(0)));
    }
    while i < n
        invariant
            i <= n,
            n == all.len(),
            rest@ == all.skip(i as int),
            arg_views(v@) == arg_views(start) + arg_views(all.take(i as int)),
        decreases n - i,
    {
        let a = rest.remove(0);
        proof {
            assert(a == all[i as int]);
            assert(rest@ =~= all.skip(i + 1));
        }
        let ghost before = v@;
        v.push(a);
        proof {
            assert(arg_views(v@) =~= arg_views(before).push(a@));
            assert(arg_views(all.take(i + 1)) =~= arg_views(all.take(i as int)).push(a@));
            assert(arg_views(v@) =~= arg_views(start) + arg_views(all.take(i + 1)));
        }
        i = i + 1;
    }
    assert(all.take(n as int) =~= all);
}

/// Switches the desktop wallpaper to the Scene of `project_json`, on the
/// first monitor.
pub fn open_wallpaper_on_desktop(engine: &LocalPath, project_json: &str) -> (c: WallpaperCommand)
    ensures
        c.program.spec_view() == engine.spec_view(),
        c.creation_flags == CREATE_NO_WINDOW,
        arg_views(c.args@) == seq![
            "-control"@,
            "openWallpaper"@,
            "-file"@,
            project_json@,
            "-monitor"@,
            "0"@,
        ],
{
    let mut args = args2("-control", "openWallpaper");
    push_args(&mut args, args2("-file", project_json));
    push_args(&mut args, args2("-monitor", "0"));
    proof {
        assert(arg_views(args@) =~= seq![
            "-control"@,
            "openWallpaper"@,
            "-file"@,
            project_json@,
            "-monitor"@,
            "0"@,
        ]);
    }
    WallpaperCommand { program: engine.duplicate(), args, creation_flags: CREATE_NO_WINDOW }
}

/// Resumes wallpaper playback.
pub fn resume_wallpaper_engine(engine: &LocalPath) -> (c: WallpaperCommand)
    ensures
        c.program.spec_view() == engine.spec_view(),
        c.creation_flags == CREATE_NO_WINDOW,
        arg_views(c.args@) == seq!["-control"@, "play"@],
{
    WallpaperCommand {
        program: engine.duplicate(),
        args: args2("-control", "play"),
        creation_flags: CREATE_NO_WINDOW,
    }
}

/// Closes the wallpaper playing in the window named `window_name`.
pub fn close_wallpaper_window(engine: &LocalPath, window_name: &str) -> (c: WallpaperCommand)
    ensures
        c.program.spec_view() == engine.spec_view(),
        c.creation_flags == CREATE_NO_WINDOW,
        arg_views(c.args@) == seq!["-control"@, "closeWallpaper"@, "-location"@, window_name@],
{
    let mut args = args2("-control", "closeWallpaper");
    push_args(&mut args, args2("-location", window_name));
    proof {
        assert(arg_views(args@) =~= seq![
            "-control"@,
            "closeWallpaper"@,
            "-location"@,
            window_name@,
        ]);
    }
    WallpaperCommand { program: engine.duplicate(), args, creation_flags: CREATE_NO_WINDOW }
}

/// Plays the Scene of `project_json` in a borderless window named
/// `window_name` of the given size at the screen origin.
pub fn open_independent_wallpaper(
    engine: &LocalPath,
    project_json: &str,
    window_name: &str,
    width: i32,
    height: i32,
) -> (c: WallpaperCommand)
    ensures
        c.program.spec_view() == engine.spec_view(),
        c.creation_flags == CREATE_NO_WINDOW,
        arg_views(c.args@) == seq![
            "-control"@,
            "openWallpaper"@,
            "-file"@,
            project_json@,
            "-playInWindow"@,
            window_name@,
            "-width"@,
            signed_decimal(width as int),
            "-height"@,
            signed_decimal(height as int),
            "-x"@,
            "0"@,
            "-y"@,
            "0"@,
            "-borderless"@,
        ],
{
    let width_arg = i64_to_decimal(width as i64);
    let height_arg = i64_to_decimal(height as i64);
    let mut args = args2("-control", "openWallpaper");
    push_args(&mut args, args2("-file", project_json));
    push_args(&mut args, args2("-playInWindow", window_name));
    push_args(&mut args, args2("-width", width_arg.as_str()));
    push_args(&mut args, args2("-height", height_arg.as_str()));
    push_args(&mut args, args2("-x", "0"));
    push_args(&mut args, args2("-y", "0"));
    let ghost before = args@;
    args.push("-borderless".to_owned());
    proof {
        assert(arg_views(args@) =~= arg_views(before).push("-borderless"@));
        assert(arg_views(args@) =~= seq![
            "-control"@,
            "openWallpaper"@,
            "-file"@,
            project_json@,
            "-playInWindow"@,
            window_name@,
            "-width"@,
            signed_decimal(width as int),
            "-height"@,
            signed_decimal(height as int),
            "-x"@,
            "0"@,
            "-y"@,
            "0"@,
            "-borderless"@,
        ]);
    }
    WallpaperCommand { program: engine.duplicate(), args, creation_flags: CREATE_NO_WINDOW }
}

/// Name of the hidden window a Scene is captured from: unique per process
/// and moment.
pub fn scene_window_name(process_id: u32, nonce: u64) -> (r: String)
    ensures
        r@ == "ReThemeWEScene-"@ + decimal(process_id as nat) + "-"@ + decimal(nonce as nat),
{
    let pid = u64_to_decimal(process_id as u64);
    let n = u64_to_decimal(nonce);
    let mut r = concat("ReThemeWEScene-", pid.as_str());
    r = concat(r.as_str(), "-");
    concat(r.as_str(), n.as_str())
}

/// The exit code shown for a finished command (-1 when it has none).
pub open spec fn shown_code(code: Option<i32>) -> int {
    match code {
        Some(c) => c as int,
        None => -1,
    }
}

/// Outcome of the desktop switch command.
pub fn desktop_switch_outcome(success: bool, code: Option<i32>) -> (r: Result<(), String>)
    ensures
        success ==> r is Ok,
        !success ==> (r matches Err(e) && e@ == "Wallpaper Engine 桌面切换命令返回 "@ + signed_decimal(
            shown_code(code),
        )),
{
    if success {
        Ok(())
    } else {
        let c: i32 = match code {
            Some(c) => c,
            None => -1,
        };
        let shown = i64_to_decimal(c as i64);
        Err(concat("Wallpaper Engine 桌面切换命令返回 ", shown.as_str()))
    }
}

/// Outcome of the resume command.
pub fn playback_outcome(success: bool, code: Option<i32>) -> (r: Result<(), String>)
    ensures
        success ==> r is Ok,
        !success ==> (r matches Err(e) && e@ == "Wallpaper Engine 播放命令返回 "@ + signed_decimal(
            shown_code(code),
        )),
{
    if success {
        Ok(())
    } else {
        let c: i32 = match code {
            Some(c) => c,
            None => -1,
        };
        let shown = i64_to_decimal(c as i64);
        Err(concat("Wallpaper Engine 播放命令返回 ", shown.as_str()))
    }
}

} // verus!

verus! {

/// A window is a desktop render window of Wallpaper Engine: its class name
/// is `WPEDesktop…Window`, its title `WPELiveWallpaper`, and its rectangle
/// (when it could be read) is not empty.
pub open spec fn is_render_window(class_name: Seq<char>, title: Seq<char>, rect: Option<WindowRect>) -> bool {
    &&& has_prefix(class_name, DESKTOP_CLASS_PREFIX@)
    &&& has_suffix(class_name, DESKTOP_CLASS_SUFFIX@)
    &&& title == DESKTOP_WINDOW_TITLE@
    &&& rect matches Some(r) && r.right > r.left && r.bottom > r.top
}

/// Whether a visible window is a desktop render window of Wallpaper Engine;
/// `rect` is `None` when its rectangle could not be read.
pub fn is_desktop_wallpaper_window(class_name: &str, title: &str, rect: Option<WindowRect>) -> (r: bool)
    ensures
        r == is_render_window(class_name@, title@, rect),
{
    if !starts_with(class_name, DESKTOP_CLASS_PREFIX) || !ends_with(class_name, DESKTOP_CLASS_SUFFIX)
        || !str_eq(title, DESKTOP_WINDOW_TITLE) {
        return false;
    }
    match rect {
        Some(r) => r.right > r.left && r.bottom > r.top,
        None => false,
    }
}

/// The rectangle covers the screen origin.
pub open spec fn contains_origin(r: WindowRect) -> bool {
    r.left <= 0 && r.right > 0 && r.top <= 0 && r.bottom > 0
}

/// The area of the rectangle (an empty extent counts as 0).
pub open spec fn rect_area(r: WindowRect) -> int {
    let w = if r.right - r.left > 0 {
        r.right - r.left
    } else {
        0
    };
    let h = if r.bottom - r.top > 0 {
        r.bottom - r.top
    } else {
        0
    };
    w * h
}

/// `a` ranks below `b`: rectangles covering the origin rank above the
/// others, then larger ones above smaller ones.
pub open spec fn ranks_below(a: WindowRect, b: WindowRect) -> bool {
    (!contains_origin(a) && contains_origin(b)) || (contains_origin(a) == contains_origin(b)
        && rect_area(a) < rect_area(b))
}

/// Extents that fit in `i32`.
pub open spec fn rect_extents_fit(r: WindowRect) -> bool {
    i32::MIN <= r.right - r.left <= i32::MAX && i32::MIN <= r.bottom - r.top <= i32::MAX
}

fn area_of(r: WindowRect) -> (a: i64)
    requires
        rect_extents_fit(r),
    ensures
        a == rect_area(r),
{
    let w: i64 = if (r.right as i64) - (r.left as i64) > 0 {
        (r.right as i64) - (r.left as i64)
    } else {
        0
    };
    let h: i64 = if (r.bottom as i64) - (r.top as i64) > 0 {
        (r.bottom as i64) - (r.top as i64)
    } else {
        0
    };
    assert(0 <= w * h <= 0x7fff_ffff * 0x7fff_ffff) by (nonlinear_arith)
        requires
            0 <= w <= 0x7fff_ffff,
            0 <= h <= 0x7fff_ffff,
    ;
    w * h
}

fn origin_covered(r: WindowRect) -> (b: bool)
    ensures
        b == contains_origin(r),
{
    r.left <= 0 && r.right > 0 && r.top <= 0 && r.bottom > 0
}

/// The desktop render window to capture among the candidates: the
/// highest-ranked one, the last of them when several rank equally; `None`
/// when there is no candidate.
pub fn find_desktop_wallpaper_window(candidates: &Vec<WindowRect>) -> (r: Option<usize>)
    requires
        forall|i: int| 0 <= i < candidates.len() ==> rect_extents_fit(#[trigger] candidates@[i]),
    ensures
        r is None <==> candidates.len() == 0,
        r matches Some(i) ==> i < candidates.len() && (forall|j: int|
            0 <= j < candidates.len() ==> !ranks_below(candidates@[i as int], #[trigger] candidates@[j]))
            && (forall|j: int|
            i < j < candidates.len() ==> ranks_below(#[trigger] candidates@[j], candidates@[i as int])),
{
    if candidates.len() == 0 {
        return None;
    }
    let mut best: usize = 0;
    let mut j: usize = 1;
    while j < candidates.len()
        invariant
            forall|i: int| 0 <= i < candidates.len() ==> rect_extents_fit(#[trigger] candidates@[i]),
            1 <= j <= candidates.len(),
            best < j,
            forall|k: int| 0 <= k < j ==> !ranks_below(candidates@[best as int], #[trigger] candidates@[k]),
            forall|k: int| best < k < j ==> ranks_below(#[trigger] candidates@[k], candidates@[best as int]),
        decreases candidates.len() - j,
    {
        let cj = candidates[j];
        let cb = candidates[best];
        let oj = origin_covered(cj);
        let ob = origin_covered(cb);
        let below = (!oj && ob) || (oj == ob && area_of(cj) < area_of(cb));
        if !below {
            best = j;
        }
        j = j + 1;
    }
    Some(best)
}

/// The UTF-16 code units of a character.
pub open spec fn utf16_units(c: char) -> Seq<u16> {
    let v = c as int;
    if v < 0x10000 {
        seq![v as u16]
    } else {
        seq![(0xD800 + (v - 0x10000) / 0x400) as u16, (0xDC00 + (v - 0x10000) % 0x400) as u16]
    }
}

/// UTF-16 encoding of a string.
pub open spec fn utf16_encode(s: Seq<char>) -> Seq<u16>
    decreases s.len(),
{
    if s.len() == 0 {
        seq![]
    } else {
        utf16_encode(s.drop_last()) + utf16_units(s.last())
    }
}

/// Appends the UTF-16 code units of `c`.
fn push_utf16(r: &mut Vec<u16>, c: char)
    ensures
        final(r)@ == old(r)@ + utf16_units(c),
{
    let v = c as u32;
    if v < 0x10000 {
        r.push(v as u16);
    } else {
        let offset = v - 0x10000;
        r.push((0xD800 + offset / 0x400) as u16);
        r.push((0xDC00 + offset % 0x400) as u16);
    }
    assert(final(r)@ =~= old(r)@ + utf16_units(c));
}

/// `value` as a NUL-terminated UTF-16 string for the Windows API.
pub fn wide_null(value: &str) -> (r: Vec<u16>)
    ensures
        r@ == utf16_encode(value@).push(0u16),
{
    let chars = chars_of(value);
    let mut r: Vec<u16> = Vec::new();
    let mut i: usize = 0;
    assert(chars@.take(0) =~= Seq::<char>::empty());
    while i < chars.len()
        invariant
            i <= chars.len(),
            chars@ == value@,
            r@ == utf16_encode(chars@.take(i as int)),
        decreases chars.len() - i,
    {
        let c = chars[i];
        push_utf16(&mut r, c);
        proof {
            assert(chars@.take(i + 1).drop_last() =~= chars@.take(i as int));
            assert(chars@.take(i + 1).last() == c);
        }
        i = i + 1;
        assert(r@ =~= utf16_encode(chars@.take(i as int)));
    }
    assert(chars@.take(chars.len() as int) =~= chars@);
    r.push(0u16);
    r
}

} // verus!
