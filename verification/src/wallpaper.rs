//! Live wallpaper themes built from a Workshop project.
//!
//! The project directory must be a direct, digit-named child of the Workshop
//! content directory and describe a supported project. The theme gets the id
//! `local.wallpaper-engine.w<id>`, the project title (at most 80
//! characters), the wallpaper style sheet and the assets of its type: the
//! streamed video file, the sandboxed Web files, or the captured Scene frame.

use vstd::prelude::*;

use crate::assets::{AssetView, SourceView, ThemeAssetPolicy, ThemeRuntimeAsset, ThemeRuntimeAssetSource};
use crate::controls::{controls_valid, WallpaperControls};
use crate::css::{wallpaper_css, wallpaper_theme_css};
use crate::error::{theme_error, ThemeError};
use crate::paths::{opt_path, path_extension, spec_parent, LocalPath, PathView};
use crate::text::{all_digits, ascii_lower, concat, first_chars, is_all_digits, opt_str, str_eq,
    take_chars, to_ascii_lowercase};
use crate::webwall::{collect_wallpaper_web_assets, web_asset, web_files_error, WebFile,
    WALLPAPER_ASSET_PATH};
use crate::assets::{insert_asset, insert_by_path};
use crate::runtime::{
    build_runtime_config_with, experience_paths, first_unresolved, text_pairs, url_of, HomeHero, RuntimeConfig,
    ThemeExperience, WallpaperConfig,
};
use crate::urls::{find_url, lookup_url, url_table};
use crate::registry::OnlineThemeSource;
use crate::summary::{ThemePreview, ThemeSummary};
use crate::workshop::{
    describe_wallpaper_engine_project, spec_describe, MediaLookup, ProjectView,
    WallpaperEngineManifest, WallpaperEngineProject,
};

verus! {

/// Logical path of the transparent placeholder image of the home hero.
pub const TRANSPARENT_ASSET_PATH: &'static str = "assets/transparent.svg";

/// The transparent placeholder image.
pub const TRANSPARENT_SVG: &'static str = "<svg xmlns=\"http://www.w3.org/2000/svg\" viewBox=\"0 0 1 1\"></svg>";

/// A theme package: here, the live wallpaper theme of a Workshop project.
#[derive(Debug, Clone)]
pub struct ThemePackage {
    pub theme_id: String,
    /// Display name: the project title, at most 80 characters.
    pub name: String,
    pub description: String,
    /// What the home hero says about how the wallpaper is played.
    pub playback_description: String,
    pub css: String,
    /// Assets by logical path (no path occurs twice).
    pub runtime_assets: Vec<ThemeRuntimeAsset>,
    /// Logical path of the wallpaper asset.
    pub wallpaper_asset: String,
    /// `video`, `web` or `scene`.
    pub wallpaper_kind: String,
    /// Logical path of the streamed video file, for video wallpapers.
    pub wallpaper_file: Option<String>,
    pub wallpaper_controls: WallpaperControls,
    /// The Workshop project it was built from.
    pub project: WallpaperEngineProject,
}

/// The Workshop id of a project directory, when it is a valid one: its
/// non-empty, all-digit name.
pub open spec fn workshop_id(project_path: PathView) -> Option<Seq<char>> {
    if project_path.parts.len() > 0 && project_path.parts.last().len() > 0 && all_digits(
        project_path.parts.last(),
    ) {
        Some(project_path.parts.last())
    } else {
        None
    }
}

/// Checks that `project_path` is a Workshop project directly below
/// `workshop_root` (both canonical) and returns its id.
pub fn check_wallpaper_project(workshop_root: &LocalPath, project_path: &LocalPath) -> (r: Result<
    String,
    ThemeError,
>)
    ensures
        workshop_id(project_path.spec_view()) is None ==> (r matches Err(e) && e.0@
            == "所选目录不是有效的 Wallpaper Engine Workshop 项目"@),
        workshop_id(project_path.spec_view()) is Some && spec_parent(project_path.spec_view())
            != Some(workshop_root.spec_view()) ==> (r matches Err(e) && e.0@
            == "只允许导入已扫描的 Wallpaper Engine Workshop 项目目录"@),
        workshop_id(project_path.spec_view()) is Some && spec_parent(project_path.spec_view())
            == Some(workshop_root.spec_view()) ==> (r matches Ok(id) && Some(id@) == workshop_id(
            project_path.spec_view(),
        )),
{
    let n = project_path.parts.len();
    if n == 0 || project_path.parts[n - 1].as_str().unicode_len() == 0 || !is_all_digits(
        project_path.parts[n - 1].as_str(),
    ) {
        return Err(theme_error("所选目录不是有效的 Wallpaper Engine Workshop 项目"));
    }
    let id = project_path.parts[n - 1].clone();
    let parent = project_path.parent();
    match parent {
        Some(p) => {
            if !p.same_as(workshop_root) {
                return Err(theme_error("只允许导入已扫描的 Wallpaper Engine Workshop 项目目录"));
            }
        },
        None => {
            return Err(theme_error("只允许导入已扫描的 Wallpaper Engine Workshop 项目目录"));
        },
    }
    Ok(id)
}

/// What the home hero says about how a wallpaper of this kind is played.
pub open spec fn playback_text(kind: Seq<char>) -> Seq<char> {
    if kind == "video"@ {
        "本地视频流式播放，不复制 Workshop 原文件"@
    } else if kind == "web"@ {
        "本地 Web 壁纸沙箱运行，已禁止联网和外部跳转"@
    } else {
        "Wallpaper Engine 官方引擎原版渲染，高清离屏传输到 ChatGPT"@
    }
}

/// Id of the wallpaper theme of Workshop project `id`.
pub open spec fn wallpaper_theme_id(id: Seq<char>) -> Seq<char> {
    "local.wallpaper-engine.w"@ + id
}

/// MIME type of a streamed video wallpaper, by lowercase extension.
pub open spec fn video_mime(ext: Seq<char>) -> Seq<char> {
    if ext == "webm"@ {
        "video/webm"@
    } else {
        "video/mp4"@
    }
}

/// The placeholder image asset.
pub open spec fn transparent_asset() -> AssetView {
    AssetView {
        path: TRANSPARENT_ASSET_PATH@,
        mime: "image/svg+xml"@,
        source: SourceView::Memory(vstd::utf8::encode_utf8(TRANSPARENT_SVG@)),
        route_path: None,
        policy: ThemeAssetPolicy::Media,
    }
}

/// The assets a wallpaper theme of this kind starts with (Web files are
/// added once the project directory has been listed).
pub open spec fn initial_assets(kind: Seq<char>, media: PathView) -> Seq<AssetView> {
    if kind == "video"@ {
        seq![
            transparent_asset(),
            AssetView {
                path: WALLPAPER_ASSET_PATH@,
                mime: video_mime(ascii_lower(path_extension(media))),
                source: SourceView::File(media),
                route_path: None,
                policy: ThemeAssetPolicy::Media,
            },
        ]
    } else if kind == "scene"@ {
        seq![
            transparent_asset(),
            AssetView {
                path: WALLPAPER_ASSET_PATH@,
                mime: "image/jpeg"@,
                source: SourceView::Memory(seq![]),
                route_path: None,
                policy: ThemeAssetPolicy::Media,
            },
        ]
    } else {
        seq![transparent_asset()]
    }
}

impl ThemePackage {
    /// The assets as plain values.
    pub open spec fn asset_views(&self) -> Seq<AssetView> {
        self.runtime_assets@.map_values(|a: ThemeRuntimeAsset| a.spec_view())
    }
}

/// `t` is the live wallpaper theme of the supported project `p` with id
/// `id`, made with `controls` (its assets aside).
pub open spec fn theme_of_project(
    t: ThemePackage,
    p: ProjectView,
    id: Seq<char>,
    controls: WallpaperControls,
) -> bool {
    &&& t.project.spec_view() == p
    &&& p.media_path is Some
    &&& t.theme_id@ == wallpaper_theme_id(id)
    &&& t.name@ == take_chars(p.title, 80)
    &&& t.description@ == "Wallpaper Engine 本地动态壁纸 · Workshop "@ + id
    &&& t.playback_description@ == playback_text(p.project_type)
    &&& t.css@ == wallpaper_css(wallpaper_theme_id(id), controls)
    &&& t.wallpaper_asset@ == WALLPAPER_ASSET_PATH@
    &&& t.wallpaper_kind@ == p.project_type
    &&& opt_str(t.wallpaper_file) == if p.project_type == "video"@ {
        Some(WALLPAPER_ASSET_PATH@)
    } else {
        None
    }
    &&& t.wallpaper_controls == controls
}

/// The live wallpaper theme of Workshop project `id` at `project_path`, with
/// `media` the lookup of its declared main file.
#[verifier::rlimit(40)]
pub fn wallpaper_theme(
    project_path: &LocalPath,
    id: String,
    controls: WallpaperControls,
    manifest: &WallpaperEngineManifest,
    media: MediaLookup,
) -> (r: Result<ThemePackage, ThemeError>)
    requires
        controls_valid(controls),
    ensures
        ({
            let p = spec_describe(project_path.spec_view(), id@, *manifest, media);
            &&& !p.supported ==> (r matches Err(e) && Some(e.0@) == p.reason)
            &&& p.supported ==> (r matches Ok(t) && theme_of_project(t, p, id@, controls)
                && t.asset_views() == initial_assets(p.project_type, p.media_path->0))
        }),
{
    let project = describe_wallpaper_engine_project(project_path, id.clone(), manifest, media);
    if !project.supported {
        return match project.reason {
            Some(reason) => Err(ThemeError(reason)),
            None => Err(theme_error("当前 Wallpaper Engine 项目不受支持")),
        };
    }
    let media_path = match &project.media_path {
        Some(p) => p.duplicate(),
        None => {
            return Err(theme_error("Wallpaper Engine 主文件路径缺失"));
        },
    };
    let extension = to_ascii_lowercase(media_path.extension().as_str());
    let kind = project.project_type.clone();
    let playback = if str_eq(kind.as_str(), "video") {
        "本地视频流式播放，不复制 Workshop 原文件"
    } else if str_eq(kind.as_str(), "web") {
        "本地 Web 壁纸沙箱运行，已禁止联网和外部跳转"
    } else {
        "Wallpaper Engine 官方引擎原版渲染，高清离屏传输到 ChatGPT"
    };
    let theme_id = concat("local.wallpaper-engine.w", id.as_str());
    let name = first_chars(project.title.as_str(), 80);
    let description = concat("Wallpaper Engine 本地动态壁纸 · Workshop ", id.as_str());
    let css = wallpaper_theme_css(theme_id.as_str(), controls);
    let mut runtime_assets: Vec<ThemeRuntimeAsset> = Vec::new();
    runtime_assets.push(
        ThemeRuntimeAsset::from_memory(
            TRANSPARENT_ASSET_PATH.to_owned(),
            "image/svg+xml".to_owned(),
            TRANSPARENT_SVG.as_bytes_vec(),
        ),
    );
    let mut wallpaper_file: Option<String> = None;
    if str_eq(kind.as_str(), "video") {
        let mime = if str_eq(extension.as_str(), "webm") {
            "video/webm"
        } else {
            "video/mp4"
        };
        runtime_assets.push(
            ThemeRuntimeAsset::from_file(
                WALLPAPER_ASSET_PATH.to_owned(),
                mime.to_owned(),
                media_path.duplicate(),
            ),
        );
        wallpaper_file = Some(WALLPAPER_ASSET_PATH.to_owned());
    } else if str_eq(kind.as_str(), "scene") {
        runtime_assets.push(
            ThemeRuntimeAsset::from_memory(
                WALLPAPER_ASSET_PATH.to_owned(),
                "image/jpeg".to_owned(),
                Vec::new(),
            ),
        );
    }
    proof {
        assert(runtime_assets@.map_values(|a: ThemeRuntimeAsset| a.spec_view()) =~= initial_assets(
            kind@,
            media_path.spec_view(),
        ));
    }
    Ok(
        ThemePackage {
            theme_id,
            name,
            description,
            playback_description: playback.to_owned(),
            css,
            runtime_assets,
            wallpaper_asset: WALLPAPER_ASSET_PATH.to_owned(),
            wallpaper_kind: kind,
            wallpaper_file,
            wallpaper_controls: controls,
            project,
        },
    )
}


/// Home hero title prompt of every wallpaper theme.
pub const WALLPAPER_HOME_PROMPT: &'static str = "今天想聊些什么？";

/// Assets inserted one by one, keyed by logical path.
pub open spec fn insert_all(s: Seq<AssetView>, xs: Seq<AssetView>) -> Seq<AssetView>
    decreases xs.len(),
{
    if xs.len() == 0 {
        s
    } else {
        insert_by_path(insert_all(s, xs.drop_last()), xs.last())
    }
}

/// `c` is the runtime configuration of wallpaper theme `t` under `table`.
pub open spec fn wallpaper_config_resolves(
    c: RuntimeConfig,
    t: ThemePackage,
    table: Seq<(Seq<char>, Seq<char>)>,
) -> bool {
    &&& c.hero.eyebrow@ == "WALLPAPER ENGINE"@
    &&& c.hero.title@ == t.name@
    &&& c.hero.description@ == t.playback_description@
    &&& c.hero.asset_url@ == url_of(table, TRANSPARENT_ASSET_PATH@)
    &&& c.hero.foreground_asset_url is None
    &&& c.hero.fit@ == "cover"@
    &&& c.hero.position@ == "center"@
    &&& c.hero.divider is None
    &&& opt_str(c.home_prompt) == Some(WALLPAPER_HOME_PROMPT@)
    &&& c.conversation_banner is None
    &&& c.composer_submit is None
    &&& c.composer_decoration is None
    &&& c.conversation_summary_decoration is None
    &&& c.sidebar_section_decoration is None
    &&& c.assets.len() == 0
    &&& c.decorations.len() == 0
    &&& c.locales.len() == 0
    &&& c.wallpaper matches Some(w) && w.kind@ == t.wallpaper_kind@ && w.asset_url@ == url_of(
        table,
        t.wallpaper_asset@,
    ) && w.fit@ == "cover"@ && w.position@ == "center"@ && w.brightness
        == t.wallpaper_controls.wallpaper_brightness && w.interface_transparency
        == t.wallpaper_controls.interface_transparency
}

impl ThemePackage {
    /// The declarative experience of the theme: a transparent home hero
    /// describing the playback, and the home prompt.
    pub fn experience(&self) -> (e: ThemeExperience)
        ensures
            e.home_hero.eyebrow@ == "WALLPAPER ENGINE"@,
            e.home_hero.title@ == self.name@,
            e.home_hero.description@ == self.playback_description@,
            e.home_hero.asset@ == TRANSPARENT_ASSET_PATH@,
            e.home_hero.foreground is None,
            e.home_hero.fit@ == "cover"@,
            e.home_hero.position@ == "center"@,
            e.home_hero.divider is None,
            opt_str(e.home_prompt) == Some(WALLPAPER_HOME_PROMPT@),
            e.conversation_banner is None,
            e.decorations.len() == 0,
            e.composer_submit is None,
            e.composer_decoration is None,
            e.conversation_summary_decoration is None,
            e.sidebar_section_decoration is None,
            e.assets.len() == 0,
            e.locales.len() == 0,
    {
        ThemeExperience {
            home_hero: HomeHero {
                eyebrow: "WALLPAPER ENGINE".to_owned(),
                title: self.name.clone(),
                description: self.playback_description.clone(),
                asset: TRANSPARENT_ASSET_PATH.to_owned(),
                foreground: None,
                fit: "cover".to_owned(),
                position: "center".to_owned(),
                divider: None,
            },
            home_prompt: Some(WALLPAPER_HOME_PROMPT.to_owned()),
            conversation_banner: None,
            decorations: Vec::new(),
            composer_submit: None,
            composer_decoration: None,
            conversation_summary_decoration: None,
            sidebar_section_decoration: None,
            assets: Vec::new(),
            locales: Vec::new(),
        }
    }

    /// The runtime configuration with session URLs from `urls`: the hero
    /// placeholder must have one, then the wallpaper asset.
    pub fn runtime_config_with_asset_urls(&self, urls: &Vec<(String, String)>) -> (r: Result<
        RuntimeConfig,
        ThemeError,
    >)
        ensures
            lookup_url(url_table(urls@), TRANSPARENT_ASSET_PATH@) is None ==> (r matches Err(e)
                && e.0@ == "主题资源 URL 缺失："@ + TRANSPARENT_ASSET_PATH@),
            lookup_url(url_table(urls@), TRANSPARENT_ASSET_PATH@) is Some && lookup_url(
                url_table(urls@),
                self.wallpaper_asset@,
            ) is None ==> (r matches Err(e) && e.0@ == "动态壁纸资源 URL 缺失："@
                + self.wallpaper_asset@),
            lookup_url(url_table(urls@), TRANSPARENT_ASSET_PATH@) is Some && lookup_url(
                url_table(urls@),
                self.wallpaper_asset@,
            ) is Some ==> (r matches Ok(c) && wallpaper_config_resolves(
                c,
                *self,
                url_table(urls@),
            )),
    {
        let e = self.experience();
        let ghost table = url_table(urls@);
        proof {
            let p = experience_paths(e);
            assert(p =~= seq![TRANSPARENT_ASSET_PATH@]);
            if lookup_url(table, TRANSPARENT_ASSET_PATH@) is None {
                assert(first_unresolved(table, p) == 0);
            } else {
                assert(first_unresolved(table, p.drop_first()) == 0);
                assert(first_unresolved(table, p) == 1);
            }
        }
        let mut config = match build_runtime_config_with(&e, urls) {
            Ok(c) => c,
            Err(err) => {
                return Err(err);
            },
        };
        assert(config.locales@.len() == text_pairs(config.locales@).len());
        let url = match find_url(urls, self.wallpaper_asset.as_str()) {
            Some(u) => u,
            None => {
                return Err(ThemeError(concat("动态壁纸资源 URL 缺失：", self.wallpaper_asset.as_str())));
            },
        };
        config.wallpaper = Some(
            WallpaperConfig {
                kind: self.wallpaper_kind.clone(),
                asset_url: url,
                fit: "cover".to_owned(),
                position: "center".to_owned(),
                brightness: self.wallpaper_controls.wallpaper_brightness,
                interface_transparency: self.wallpaper_controls.interface_transparency,
            },
        );
        Ok(config)
    }

    /// Adds the files of a Web wallpaper, keyed by logical path.
    pub fn add_web_assets(&mut self, assets: Vec<ThemeRuntimeAsset>)
        ensures
            final(self).asset_views() == insert_all(
                old(self).asset_views(),
                assets@.map_values(|a: ThemeRuntimeAsset| a.spec_view()),
            ),
            final(self).theme_id == old(self).theme_id,
            final(self).name == old(self).name,
            final(self).description == old(self).description,
            final(self).playback_description == old(self).playback_description,
            final(self).project == old(self).project,
            final(self).css == old(self).css,
            final(self).wallpaper_asset == old(self).wallpaper_asset,
            final(self).wallpaper_kind == old(self).wallpaper_kind,
            final(self).wallpaper_file == old(self).wallpaper_file,
            final(self).wallpaper_controls == old(self).wallpaper_controls,
    {
        let ghost all = assets@;
        let ghost xs = all.map_values(|a: ThemeRuntimeAsset| a.spec_view());
        let ghost start = self.asset_views();
        let mut rest = assets;
        let n = rest.len();
        let mut i: usize = 0;
        proof {
            assert(xs.take(0) =~= Seq::<AssetView>::empty());
            assert(rest@ =~= all.skip(0));
        }
        while i < n
            invariant
                i <= n,
                n == xs.len(),
                n == all.len(),
                rest@ == all.skip(i as int),
                xs == all.map_values(|a: ThemeRuntimeAsset| a.spec_view()),
                self.asset_views() == insert_all(start, xs.take(i as int)),
                self.theme_id == old(self).theme_id,
                self.name == old(self).name,
                self.description == old(self).description,
                self.playback_description == old(self).playback_description,
                self.project == old(self).project,
                self.css == old(self).css,
                self.wallpaper_asset == old(self).wallpaper_asset,
                self.wallpaper_kind == old(self).wallpaper_kind,
                self.wallpaper_file == old(self).wallpaper_file,
                self.wallpaper_controls == old(self).wallpaper_controls,
            decreases n - i,
        {
            let a = rest.remove(0);
            proof {
                assert(a == all[i as int]);
                assert(rest@ =~= all.skip(i + 1));
                assert(xs.take(i + 1).drop_last() =~= xs.take(i as int));
                assert(xs.take(i + 1).last() == a.spec_view());
            }
            insert_asset(&mut self.runtime_assets, a);
            i = i + 1;
        }
        assert(xs.take(n as int) =~= xs);
    }
}

} // verus!

verus! {

/// Version of every live wallpaper theme.
pub const WALLPAPER_THEME_VERSION: &'static str = "1.0.0";

/// Author name of every live wallpaper theme.
pub const WALLPAPER_THEME_AUTHOR: &'static str = "Wallpaper Engine";

/// The file path of the asset at logical path `path`, when it is streamed
/// from a file.
pub open spec fn file_source_of(assets: Seq<AssetView>, path: Seq<char>) -> Option<PathView> {
    let k = crate::assets::index_of_path(assets, path);
    if k >= 0 {
        match assets[k].source {
            SourceView::File(p) => Some(p),
            SourceView::Memory(_) => None,
        }
    } else {
        None
    }
}

impl ThemePackage {
    /// The theme id.
    pub fn id(&self) -> (r: &str)
        ensures
            r@ == self.theme_id@,
    {
        self.theme_id.as_str()
    }

    /// The theme's style sheet.
    pub fn css(&self) -> (r: &str)
        ensures
            r@ == self.css@,
    {
        self.css.as_str()
    }

    /// The theme version.
    pub fn version(&self) -> (r: &str)
        ensures
            r@ == WALLPAPER_THEME_VERSION@,
    {
        WALLPAPER_THEME_VERSION
    }

    /// Copies of the theme's assets.
    pub fn runtime_assets(&self) -> (r: Vec<ThemeRuntimeAsset>)
        ensures
            r@.map_values(|a: ThemeRuntimeAsset| a.spec_view()) == self.asset_views(),
    {
        let mut r: Vec<ThemeRuntimeAsset> = Vec::new();
        let mut i: usize = 0;
        while i < self.runtime_assets.len()
            invariant
                i <= self.runtime_assets.len(),
                r@.map_values(|a: ThemeRuntimeAsset| a.spec_view()) == self.asset_views().take(
                    i as int,
                ),
            decreases self.runtime_assets.len() - i,
        {
            let ghost before = r@;
            r.push(self.runtime_assets[i].duplicate());
            proof {
                assert(r@.map_values(|a: ThemeRuntimeAsset| a.spec_view()) =~= before.map_values(
                    |a: ThemeRuntimeAsset| a.spec_view(),
                ).push(self.asset_views()[i as int]));
            }
            i = i + 1;
            assert(r@.map_values(|a: ThemeRuntimeAsset| a.spec_view()) =~= self.asset_views().take(
                i as int,
            ));
        }
        assert(self.asset_views().take(i as int) =~= self.asset_views());
        r
    }

    /// The file a video wallpaper streams.
    pub fn wallpaper_file_path(&self) -> (r: Option<LocalPath>)
        ensures
            opt_path(r) == match opt_str(self.wallpaper_file) {
                Some(path) => file_source_of(self.asset_views(), path),
                None => None,
            },
    {
        let path = match &self.wallpaper_file {
            Some(p) => p,
            None => {
                return None;
            },
        };
        let mut i: usize = 0;
        while i < self.runtime_assets.len()
            invariant
                i <= self.runtime_assets.len(),
                opt_str(self.wallpaper_file) == Some(path@),
                forall|j: int|
                    0 <= j < i ==> (#[trigger] self.asset_views()[j]).path != path@,
            decreases self.runtime_assets.len() - i,
        {
            assert(self.asset_views()[i as int].path == self.runtime_assets@[i as int].path@);
            if str_eq(self.runtime_assets[i].path.as_str(), path.as_str()) {
                proof {
                    crate::assets::lemma_index_of_path(self.asset_views(), path@);
                    let k = crate::assets::index_of_path(self.asset_views(), path@);
                    if k >= 0 && k < i {
                        assert(self.asset_views()[k].path != path@);
                    }
                    assert(k == i);
                    assert(self.asset_views()[i as int] == self.runtime_assets@[i as int].spec_view());
                }
                let a = &self.runtime_assets[i];
                assert(a.spec_view() == self.asset_views()[i as int]);
                match &a.source {
                    ThemeRuntimeAssetSource::File(p) => {
                        let q = p.duplicate();
                        assert(a.spec_view().source == SourceView::File(p.spec_view()));
                        return Some(q);
                    },
                    ThemeRuntimeAssetSource::Memory(_) => {
                        return None;
                    },
                }
            }
            i = i + 1;
        }
        proof {
            crate::assets::lemma_index_of_path(self.asset_views(), path@);
        }
        None
    }

    /// The wallpaper controls the theme was made with.
    pub fn wallpaper_controls(&self) -> (r: Option<WallpaperControls>)
        ensures
            r == Some(self.wallpaper_controls),
    {
        Some(self.wallpaper_controls)
    }

    /// The summary the client lists: not built in, no account needed, no
    /// translations; with the online slug when it came from an online
    /// source.
    pub fn summary(&self, built_in: bool, online: Option<&OnlineThemeSource>) -> (r: ThemeSummary)
        ensures
            r.id@ == self.theme_id@,
            r.name@ == self.name@,
            r.description@ == self.description@,
            r.version@ == WALLPAPER_THEME_VERSION@,
            r.author@ == WALLPAPER_THEME_AUTHOR@,
            r.preview.background@ == "#080b12"@,
            r.preview.surface@ == "#161b26"@,
            r.preview.accent@ == "#7aa2ff"@,
            r.built_in == built_in,
            opt_str(r.online_slug) == match online {
                Some(o) => Some(o.slug@),
                None => None::<Seq<char>>,
            },
            !r.requires_account,
            r.locales@.len() == 0,
    {
        ThemeSummary {
            id: self.theme_id.clone(),
            name: self.name.clone(),
            description: self.description.clone(),
            version: WALLPAPER_THEME_VERSION.to_owned(),
            author: WALLPAPER_THEME_AUTHOR.to_owned(),
            preview: ThemePreview {
                background: "#080b12".to_owned(),
                surface: "#161b26".to_owned(),
                accent: "#7aa2ff".to_owned(),
            },
            built_in,
            online_slug: match online {
                Some(o) => Some(o.slug.clone()),
                None => None,
            },
            requires_account: false,
            locales: Vec::new(),
        }
    }

    /// The summary of a theme being previewed: not built in, not from an
    /// online source.
    pub fn preview_summary(&self) -> (r: ThemeSummary)
        ensures
            r.id@ == self.theme_id@,
            r.name@ == self.name@,
            r.description@ == self.description@,
            r.version@ == WALLPAPER_THEME_VERSION@,
            r.author@ == WALLPAPER_THEME_AUTHOR@,
            r.preview.background@ == "#080b12"@,
            r.preview.surface@ == "#161b26"@,
            r.preview.accent@ == "#7aa2ff"@,
            !r.built_in,
            r.online_slug is None,
            !r.requires_account,
            r.locales@.len() == 0,
    {
        self.summary(false, None)
    }
}

} // verus!

verus! {

/// The first error of the controls: brightness, then transparency.
pub open spec fn controls_error(controls: WallpaperControls) -> Option<Seq<char>> {
    if controls.wallpaper_brightness > 100 {
        Some("壁纸亮度必须在 0 到 100 之间"@)
    } else if controls.interface_transparency > 100 {
        Some("界面透明度必须在 0 到 100 之间"@)
    } else {
        None
    }
}

/// The project directory's own error: not a Workshop project, or not
/// directly below the scanned Workshop directory.
pub open spec fn placement_error(workshop_root: PathView, project_path: PathView) -> Option<Seq<char>> {
    if workshop_id(project_path) is None {
        Some("所选目录不是有效的 Wallpaper Engine Workshop 项目"@)
    } else if spec_parent(project_path) != Some(workshop_root) {
        Some("只允许导入已扫描的 Wallpaper Engine Workshop 项目目录"@)
    } else {
        None
    }
}

/// The assets of the Web files of a project whose entry page is `entry`.
pub open spec fn web_asset_views(root: PathView, entry: PathView, files: Seq<WebFile>) -> Seq<AssetView> {
    files.map_values(|f: WebFile| web_asset(root, entry, f))
}

/// Imports Workshop project `project_path` (canonical) as a live wallpaper
/// theme. `workshop_root` is the canonical Workshop directory, `manifest`
/// what reading its `project.json` gave, `media` the lookup of its declared
/// main file, and `web_files` the regular files below it (used for Web
/// projects only). The controls are checked first, then the project's
/// place, the manifest, the project itself and, for Web projects, its
/// files.
#[verifier::spinoff_prover]
#[verifier::rlimit(60)]
pub fn load_wallpaper_engine_project(
    workshop_root: &LocalPath,
    project_path: &LocalPath,
    controls: WallpaperControls,
    manifest: Result<WallpaperEngineManifest, ThemeError>,
    media: MediaLookup,
    web_files: Result<Vec<WebFile>, ThemeError>,
) -> (r: Result<ThemePackage, ThemeError>)
    ensures
        controls_error(controls) is Some ==> (r matches Err(e) && Some(e.0@) == controls_error(
            controls,
        )),
        controls_error(controls) is None && placement_error(
            workshop_root.spec_view(),
            project_path.spec_view(),
        ) is Some ==> (r matches Err(e) && Some(e.0@) == placement_error(
            workshop_root.spec_view(),
            project_path.spec_view(),
        )),
        controls_error(controls) is None && placement_error(
            workshop_root.spec_view(),
            project_path.spec_view(),
        ) is None ==> match manifest {
            Err(me) => r matches Err(e) && e.0@ == me.0@,
            Ok(m) => {
                let id = workshop_id(project_path.spec_view())->0;
                let p = spec_describe(project_path.spec_view(), id, m, media);
                &&& !p.supported ==> (r matches Err(e) && Some(e.0@) == p.reason)
                &&& p.supported && p.project_type != "web"@ ==> (r matches Ok(t) && theme_of_project(
                    t,
                    p,
                    id,
                    controls,
                ) && t.asset_views() == initial_assets(p.project_type, p.media_path->0))
                &&& p.supported && p.project_type == "web"@ ==> match web_files {
                    Err(we) => r matches Err(e) && e.0@ == we.0@,
                    Ok(files) => {
                        let root = project_path.spec_view();
                        let entry = p.media_path->0;
                        if web_files_error(root, files@, 0, 0) is Some {
                            r matches Err(e) && Some(e.0@) == web_files_error(root, files@, 0, 0)
                        } else if !(exists|k: int|
                            0 <= k < files@.len() && (#[trigger] files@[k]).path.spec_view()
                                == entry) {
                            r matches Err(e) && e.0@ == "Web 壁纸入口文件不在项目目录中"@
                        } else {
                            r matches Ok(t) && theme_of_project(t, p, id, controls)
                                && t.asset_views() == insert_all(
                                initial_assets(p.project_type, entry),
                                web_asset_views(root, entry, files@),
                            )
                        }
                    },
                }
            },
        },
{
    let controls = match WallpaperControls::new(
        controls.wallpaper_brightness,
        controls.interface_transparency,
    ) {
        Ok(c) => c,
        Err(e) => {
            return Err(e);
        },
    };
    let id = match check_wallpaper_project(workshop_root, project_path) {
        Ok(id) => id,
        Err(e) => {
            return Err(e);
        },
    };
    let manifest = match manifest {
        Ok(m) => m,
        Err(e) => {
            return Err(e);
        },
    };
    let ghost p = spec_describe(project_path.spec_view(), id@, manifest, media);
    let mut theme = match wallpaper_theme(project_path, id, controls, &manifest, media) {
        Ok(t) => t,
        Err(e) => {
            return Err(e);
        },
    };
    if str_eq(theme.wallpaper_kind.as_str(), "web") {
        let files = match web_files {
            Ok(f) => f,
            Err(e) => {
                return Err(e);
            },
        };
        let entry = match &theme.project.media_path {
            Some(m) => m.duplicate(),
            None => {
                return Err(theme_error("Wallpaper Engine 主文件路径缺失"));
            },
        };
        let assets = match collect_wallpaper_web_assets(project_path, &entry, &files) {
            Ok(a) => a,
            Err(e) => {
                return Err(e);
            },
        };
        let ghost web = assets@.map_values(|a: ThemeRuntimeAsset| a.spec_view());
        theme.add_web_assets(assets);
        proof {
            assert(web =~= web_asset_views(project_path.spec_view(), entry.spec_view(), files@));
        }
    }
    Ok(theme)
}

} // verus!

verus! {

/// A video wallpaper is streamed from the Workshop file itself, never
/// copied: its wallpaper asset reads the media file.
pub proof fn law_video_wallpapers_stream_the_workshop_file(media: PathView)
    ensures
        initial_assets("video"@, media).len() == 2,
        initial_assets("video"@, media)[1].path == WALLPAPER_ASSET_PATH@,
        initial_assets("video"@, media)[1].source == SourceView::File(media),
{
}

} // verus!

verus! {

/// A live wallpaper theme keeps one asset per logical path, also after its
/// Web files are added.
pub proof fn law_wallpaper_assets_have_unique_paths(
    kind: Seq<char>,
    media: PathView,
    added: Seq<AssetView>,
)
    ensures
        crate::assets::paths_unique(insert_all(initial_assets(kind, media), added)),
    decreases added.len(),
{
    if added.len() == 0 {
        reveal_strlit("assets/transparent.svg");
        reveal_strlit("wallpaper-engine/background-video");
        assert(TRANSPARENT_ASSET_PATH@[0] != WALLPAPER_ASSET_PATH@[0]);
    } else {
        law_wallpaper_assets_have_unique_paths(kind, media, added.drop_last());
        crate::assets::law_insert_by_path_is_a_map_insert(
            insert_all(initial_assets(kind, media), added.drop_last()),
            added.last(),
        );
    }
}

} // verus!
