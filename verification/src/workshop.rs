//! Classification of Wallpaper Engine Workshop projects.
//!
//! A project directory holds a `project.json` manifest naming its type and
//! main file. Video, Web and Scene projects are supported; the main file
//! must stay inside the project directory, carry an extension that fits the
//! type, and be non-empty (videos at most 16 GiB).

use vstd::prelude::*;

use crate::error::{theme_error, ThemeError};
use crate::paths::{escapes_base, opt_path, path_extension, path_has_base, relative_path_escapes, windows_style,
    LocalPath, PathView};
use crate::text::{opt_str, concat, is_blank, str_eq, to_ascii_lowercase, trim, trimmed, ascii_lower};

verus! {

/// Largest accepted `project.json`, in bytes (checked when it is read).
pub const MAX_WALLPAPER_PROJECT_JSON_SIZE: u64 = 1048576;

/// Largest local video that is streamed as a wallpaper, in bytes (16 GiB).
pub const MAX_LOCAL_WALLPAPER_VIDEO_SIZE: u64 = 17179869184;

/// The fields of `project.json` the client reads (missing ones are empty).
#[derive(Debug, Clone)]
pub struct WallpaperEngineManifest {
    pub title: String,
    pub project_type: String,
    pub file: String,
}

/// A Workshop project as shown in the wallpaper picker.
#[derive(Debug, Clone)]
pub struct WallpaperEngineProject {
    pub id: String,
    pub title: String,
    pub project_type: String,
    pub project_path: LocalPath,
    pub media_path: Option<LocalPath>,
    pub media_size_bytes: Option<u64>,
    pub requires_wallpaper_engine: bool,
    pub supported: bool,
    pub reason: Option<String>,
}

/// What resolving the declared main file on disk gave.
#[derive(Debug, Clone)]
pub enum MediaLookup {
    /// The canonical file inside the project directory, and its size when it
    /// could be read.
    Found { path: LocalPath, size: Option<u64> },
    /// Why it could not be resolved.
    Missing(String),
}

impl MediaLookup {
    /// A copy of this lookup.
    pub fn duplicate(&self) -> (r: MediaLookup)
        ensures
            match (*self, r) {
                (MediaLookup::Found { path: p1, size: s1 }, MediaLookup::Found { path: p2, size: s2 }) =>
                    p1.spec_view() == p2.spec_view() && s1 == s2,
                (MediaLookup::Missing(m1), MediaLookup::Missing(m2)) => m1@ == m2@,
                _ => false,
            },
    {
        match self {
            MediaLookup::Found { path, size } => MediaLookup::Found { path: path.duplicate(), size: *size },
            MediaLookup::Missing(message) => MediaLookup::Missing(message.clone()),
        }
    }
}

/// The project type, ASCII-lowercased.
pub open spec fn project_kind(manifest: WallpaperEngineManifest) -> Seq<char> {
    ascii_lower(manifest.project_type@)
}

/// Types the client can play.
pub open spec fn kind_supported(kind: Seq<char>) -> bool {
    kind == "video"@ || kind == "scene"@ || kind == "web"@
}

/// The main file of a supported project: always `scene.pkg` for scenes.
pub open spec fn declared_file(manifest: WallpaperEngineManifest) -> Seq<char> {
    if project_kind(manifest) == "scene"@ {
        "scene.pkg"@
    } else {
        manifest.file@
    }
}

/// The title shown for a project: the trimmed title, or the id when blank.
pub open spec fn display_title(title: Seq<char>, id: Seq<char>) -> Seq<char> {
    if trim(title).len() == 0 {
        id
    } else {
        trim(title)
    }
}

/// The main file extension fits the project type.
pub open spec fn extension_fits(kind: Seq<char>, ext: Seq<char>) -> bool {
    ||| kind == "video"@ && (ext == "mp4"@ || ext == "m4v"@ || ext == "webm"@)
    ||| kind == "web"@ && (ext == "html"@ || ext == "htm"@)
    ||| kind == "scene"@ && ext == "pkg"@
}

/// Why a main file of acceptable type cannot be played, given its size.
pub open spec fn size_reason(kind: Seq<char>, size: Option<u64>) -> Option<Seq<char>> {
    match size {
        None => Some("无法读取壁纸资源大小"@),
        Some(s) => if s == 0 {
            Some("壁纸资源为空"@)
        } else if kind == "video"@ && s > MAX_LOCAL_WALLPAPER_VIDEO_SIZE {
            Some("视频超过本地动态壁纸 16 GiB 安全上限"@)
        } else {
            None
        },
    }
}

/// The error `check_project_file` reports for a relative main-file path,
/// read with Windows path rules when `windows` holds.
pub open spec fn project_file_error(rel: Seq<char>, windows: bool) -> Option<Seq<char>> {
    if trim(rel).len() == 0 {
        Some("project.json 未声明主文件"@)
    } else if escapes_base(rel, windows) {
        Some("project.json 的主文件路径不安全"@)
    } else {
        None
    }
}

/// The declared main file of a supported project (`None` for other types).
pub fn declared_media_file(manifest: &WallpaperEngineManifest) -> (r: Option<String>)
    ensures
        kind_supported(project_kind(*manifest)) ==> opt_str(r) == Some(declared_file(*manifest)),
        !kind_supported(project_kind(*manifest)) ==> r is None,
{
    let kind = to_ascii_lowercase(manifest.project_type.as_str());
    if str_eq(kind.as_str(), "scene") {
        Some("scene.pkg".to_owned())
    } else if str_eq(kind.as_str(), "video") || str_eq(kind.as_str(), "web") {
        Some(manifest.file.clone())
    } else {
        None
    }
}

/// Rejects a blank main-file path and one that leaves the project directory;
/// `windows` says whether paths follow the Windows rules.
pub fn check_project_file(relative: &str, windows: bool) -> (r: Result<(), ThemeError>)
    ensures
        project_file_error(relative@, windows) is None ==> r is Ok,
        project_file_error(relative@, windows) is Some ==> (r matches Err(e) && Some(e.0@)
            == project_file_error(relative@, windows)),
{
    if is_blank(relative) {
        return Err(theme_error("project.json 未声明主文件"));
    }
    if relative_path_escapes(relative, windows) {
        return Err(theme_error("project.json 的主文件路径不安全"));
    }
    Ok(())
}

fn extension_matches(kind: &str, ext: &str) -> (r: bool)
    ensures
        r == extension_fits(kind@, ext@),
{
    (str_eq(kind, "video") && (str_eq(ext, "mp4") || str_eq(ext, "m4v") || str_eq(ext, "webm")))
        || (str_eq(kind, "web") && (str_eq(ext, "html") || str_eq(ext, "htm"))) || (str_eq(
        kind,
        "scene",
    ) && str_eq(ext, "pkg"))
}

fn size_problem(kind: &str, size: Option<u64>) -> (r: Option<String>)
    ensures
        opt_str(r) == size_reason(kind@, size),
{
    match size {
        None => Some("无法读取壁纸资源大小".to_owned()),
        Some(s) => if s == 0 {
            Some("壁纸资源为空".to_owned())
        } else if str_eq(kind, "video") && s > MAX_LOCAL_WALLPAPER_VIDEO_SIZE {
            Some("视频超过本地动态壁纸 16 GiB 安全上限".to_owned())
        } else {
            None
        },
    }
}

/// The value of a [`WallpaperEngineProject`].
pub struct ProjectView {
    pub id: Seq<char>,
    pub title: Seq<char>,
    pub project_type: Seq<char>,
    pub project_path: PathView,
    pub media_path: Option<PathView>,
    pub media_size_bytes: Option<u64>,
    pub requires_wallpaper_engine: bool,
    pub supported: bool,
    pub reason: Option<Seq<char>>,
}

impl WallpaperEngineProject {
    /// The project as plain values.
    pub open spec fn spec_view(&self) -> ProjectView {
        ProjectView {
            id: self.id@,
            title: self.title@,
            project_type: self.project_type@,
            project_path: self.project_path.spec_view(),
            media_path: opt_path(self.media_path),
            media_size_bytes: self.media_size_bytes,
            requires_wallpaper_engine: self.requires_wallpaper_engine,
            supported: self.supported,
            reason: opt_str(self.reason),
        }
    }
}

/// A project entry that cannot be played, for the given reason.
pub open spec fn unsupported_project(
    project_path: PathView,
    id: Seq<char>,
    manifest: WallpaperEngineManifest,
    media_path: Option<PathView>,
    reason: Seq<char>,
) -> ProjectView {
    ProjectView {
        id,
        title: display_title(manifest.title@, id),
        project_type: project_kind(manifest),
        project_path,
        media_path,
        media_size_bytes: None,
        requires_wallpaper_engine: project_kind(manifest) == "scene"@,
        supported: false,
        reason: Some(reason),
    }
}

/// The picker entry of a project whose main file lookup gave `media`; the
/// main-file path is read with the rules of the platform the project path
/// is written for.
pub open spec fn spec_describe(
    project_path: PathView,
    id: Seq<char>,
    manifest: WallpaperEngineManifest,
    media: MediaLookup,
) -> ProjectView {
    let kind = project_kind(manifest);
    if !kind_supported(kind) {
        unsupported_project(project_path, id, manifest, None, "不支持的 Wallpaper Engine 项目类型"@)
    } else if project_file_error(declared_file(manifest), windows_style(project_path)) is Some {
        unsupported_project(
            project_path,
            id,
            manifest,
            None,
            project_file_error(declared_file(manifest), windows_style(project_path))->0,
        )
    } else {
        match media {
            MediaLookup::Missing(message) => unsupported_project(
                project_path,
                id,
                manifest,
                None,
                message@,
            ),
            MediaLookup::Found { path, size } => {
                let ext = ascii_lower(path_extension(path.spec_view()));
                if !extension_fits(kind, ext) {
                    unsupported_project(
                        project_path,
                        id,
                        manifest,
                        Some(path.spec_view()),
                        kind + " 项目的主文件格式不受支持：."@ + ext,
                    )
                } else {
                    ProjectView {
                        id,
                        title: display_title(manifest.title@, id),
                        project_type: kind,
                        project_path,
                        media_path: Some(path.spec_view()),
                        media_size_bytes: size,
                        requires_wallpaper_engine: kind == "scene"@,
                        supported: size_reason(kind, size) is None,
                        reason: size_reason(kind, size),
                    }
                }
            },
        }
    }
}

/// The picker entry of a project.
///
/// `media` is consulted only for a supported type whose declared main file
/// passes [`check_project_file`].
pub fn describe_wallpaper_engine_project(
    project_path: &LocalPath,
    id: String,
    manifest: &WallpaperEngineManifest,
    media: MediaLookup,
) -> (p: WallpaperEngineProject)
    ensures
        p.spec_view() == spec_describe(project_path.spec_view(), id@, *manifest, media),
{
    let kind = to_ascii_lowercase(manifest.project_type.as_str());
    let requires_wallpaper_engine = str_eq(kind.as_str(), "scene");
    let title = if is_blank(manifest.title.as_str()) {
        id.clone()
    } else {
        trimmed(manifest.title.as_str())
    };
    let project_root = project_path.duplicate();
    if !(str_eq(kind.as_str(), "video") || str_eq(kind.as_str(), "scene") || str_eq(
        kind.as_str(),
        "web",
    )) {
        return WallpaperEngineProject {
            id,
            title,
            project_type: kind,
            project_path: project_root,
            media_path: None,
            media_size_bytes: None,
            requires_wallpaper_engine,
            supported: false,
            reason: Some("不支持的 Wallpaper Engine 项目类型".to_owned()),
        };
    }
    let declared = if requires_wallpaper_engine {
        "scene.pkg".to_owned()
    } else {
        manifest.file.clone()
    };
    if let Err(error) = check_project_file(declared.as_str(), project_path.uses_backslash()) {
        return WallpaperEngineProject {
            id,
            title,
            project_type: kind,
            project_path: project_root,
            media_path: None,
            media_size_bytes: None,
            requires_wallpaper_engine,
            supported: false,
            reason: Some(error.0),
        };
    }
    match media {
        MediaLookup::Missing(message) => WallpaperEngineProject {
            id,
            title,
            project_type: kind,
            project_path: project_root,
            media_path: None,
            media_size_bytes: None,
            requires_wallpaper_engine,
            supported: false,
            reason: Some(message),
        },
        MediaLookup::Found { path, size } => {
            let extension = to_ascii_lowercase(path.extension().as_str());
            if !extension_matches(kind.as_str(), extension.as_str()) {
                let mut reason = concat(kind.as_str(), " 项目的主文件格式不受支持：.");
                reason.append(extension.as_str());
                return WallpaperEngineProject {
                    id,
                    title,
                    project_type: kind,
                    project_path: project_root,
                    media_path: Some(path),
                    media_size_bytes: None,
                    requires_wallpaper_engine,
                    supported: false,
                    reason: Some(reason),
                };
            }
            let reason = size_problem(kind.as_str(), size);
            let supported = reason.is_none();
            WallpaperEngineProject {
                id,
                title,
                project_type: kind,
                project_path: project_root,
                media_path: Some(path),
                media_size_bytes: size,
                requires_wallpaper_engine,
                supported,
                reason,
            }
        },
    }
}

} // verus!

verus! {

/// What resolving a declared main file gives, from what the file system
/// said: the canonical project directory (or why it could not be
/// resolved), the canonical candidate file (or why it could not be found),
/// whether the candidate is a regular file, and its size.
pub open spec fn spec_media_lookup(
    root: Result<PathView, Seq<char>>,
    relative: Seq<char>,
    candidate: Result<PathView, Seq<char>>,
    is_file: bool,
    size: Option<u64>,
) -> Result<(PathView, Option<u64>), Seq<char>> {
    match root {
        Err(e) => Err("无法解析项目目录："@ + e),
        Ok(r) => match candidate {
            Err(e) => Err("找不到 Wallpaper Engine 主文件 "@ + relative + "："@ + e),
            Ok(c) => if !path_has_base(c, r) || !is_file {
                Err("Wallpaper Engine 主文件不在所选项目目录内"@)
            } else {
                Ok((c, size))
            },
        },
    }
}

/// A path, or why it could not be resolved, as plain values.
pub open spec fn resolved_view(r: Result<LocalPath, String>) -> Result<PathView, Seq<char>> {
    match r {
        Ok(p) => Ok(p.spec_view()),
        Err(e) => Err(e@),
    }
}

/// Resolves a declared main file (already checked to be a safe relative
/// path) from the file system's answers: it must lie inside the canonical
/// project directory and be a regular file.
pub fn media_lookup(
    root: Result<LocalPath, String>,
    relative: &str,
    candidate: Result<LocalPath, String>,
    is_file: bool,
    size: Option<u64>,
) -> (r: MediaLookup)
    ensures
        match spec_media_lookup(resolved_view(root), relative@, resolved_view(candidate), is_file, size) {
            Ok((p, s)) => r matches MediaLookup::Found { path, size: found } && path.spec_view() == p
                && found == s,
            Err(m) => r matches MediaLookup::Missing(message) && message@ == m,
        },
{
    let root = match root {
        Ok(r) => r,
        Err(e) => {
            return MediaLookup::Missing(concat("无法解析项目目录：", e.as_str()));
        },
    };
    let candidate = match candidate {
        Ok(c) => c,
        Err(e) => {
            let m = concat("找不到 Wallpaper Engine 主文件 ", relative);
            let m = concat(m.as_str(), "：");
            return MediaLookup::Missing(concat(m.as_str(), e.as_str()));
        },
    };
    if !candidate.has_base(&root) || !is_file {
        return MediaLookup::Missing("Wallpaper Engine 主文件不在所选项目目录内".to_owned());
    }
    MediaLookup::Found { path: candidate, size }
}

} // verus!

verus! {

/// Exactly the Scene projects need Wallpaper Engine itself, and a supported
/// project always has its main file, of a size within the limits; an
/// unsupported one always says why.
pub proof fn law_projects_are_classified(
    project_path: PathView,
    id: Seq<char>,
    manifest: WallpaperEngineManifest,
    media: MediaLookup,
)
    ensures
        ({
            let p = spec_describe(project_path, id, manifest, media);
            &&& p.requires_wallpaper_engine == (project_kind(manifest) == "scene"@)
            &&& p.supported ==> p.media_path is Some && kind_supported(p.project_type)
                && size_reason(p.project_type, p.media_size_bytes) is None
            &&& !p.supported ==> p.reason is Some
        }),
{
}

} // verus!

verus! {

/// Main files are refused by size only when their size is unknown, when
/// they are empty, or when a video exceeds 16 GiB (17179869184 bytes): any
/// other non-empty file, and in particular every video of at most 16 GiB,
/// has no size reason.
pub proof fn law_size_limits(kind: Seq<char>, size: Option<u64>)
    ensures
        size is None ==> size_reason(kind, size) == Some("无法读取壁纸资源大小"@),
        size == Some(0u64) ==> size_reason(kind, size) == Some("壁纸资源为空"@),
        size matches Some(s) && 0 < s && (kind != "video"@ || s <= 17179869184) ==> size_reason(
            kind,
            size,
        ) is None,
        kind == "video"@ && (size matches Some(s) && s > 17179869184) ==> size_reason(kind, size)
            == Some("视频超过本地动态壁纸 16 GiB 安全上限"@),
{
}

/// A video project whose declared main file is safe and was found inside
/// the project as an `.mp4`, `.m4v` or `.webm` file of 1 byte to 16 GiB is
/// listed as supported, with no reason.
pub proof fn law_videos_up_to_16_gib_are_supported(
    project_path: PathView,
    id: Seq<char>,
    manifest: WallpaperEngineManifest,
    path: LocalPath,
    size: u64,
)
    requires
        project_kind(manifest) == "video"@,
        project_file_error(declared_file(manifest), windows_style(project_path)) is None,
        ascii_lower(path_extension(path.spec_view())) == "mp4"@ || ascii_lower(
            path_extension(path.spec_view()),
        ) == "m4v"@ || ascii_lower(path_extension(path.spec_view())) == "webm"@,
        0 < size <= 17179869184,
    ensures
        spec_describe(project_path, id, manifest, MediaLookup::Found { path, size: Some(size) }).supported,
        spec_describe(project_path, id, manifest, MediaLookup::Found { path, size: Some(size) }).reason
            is None,
        spec_describe(project_path, id, manifest, MediaLookup::Found { path, size: Some(size) }).media_size_bytes
            == Some(size),
{
}

} // verus!
