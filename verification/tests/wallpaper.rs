use retheme::assets::{ThemeAssetPolicy, ThemeRuntimeAssetSource};
use retheme::catalog::{wallpaper_engine_catalog, WorkshopEntry};
use retheme::controls::WallpaperControls;
use retheme::paths::LocalPath;
use retheme::wallpaper::load_wallpaper_engine_project;
use retheme::webwall::{collect_wallpaper_web_assets, WebFile, WALLPAPER_ASSET_PATH};
use retheme::workshop::{media_lookup, MediaLookup, WallpaperEngineManifest};

fn path(parts: &[&str]) -> LocalPath {
    LocalPath { root: "/".to_owned(), parts: parts.iter().map(|p| p.to_string()).collect() }
}

fn manifest(title: &str, project_type: &str, file: &str) -> WallpaperEngineManifest {
    WallpaperEngineManifest {
        title: title.to_owned(),
        project_type: project_type.to_owned(),
        file: file.to_owned(),
    }
}

fn entry(id: &str, m: WallpaperEngineManifest, media: MediaLookup) -> WorkshopEntry {
    WorkshopEntry {
        path: path(&["tmp", "431960", id]),
        is_dir: true,
        is_symlink: false,
        manifest: Some(m),
        media,
    }
}

fn found(parts: &[&str], size: u64) -> MediaLookup {
    MediaLookup::Found { path: path(parts), size: Some(size) }
}

fn local_urls(assets: &[retheme::assets::ThemeRuntimeAsset]) -> Vec<(String, String)> {
    assets
        .iter()
        .map(|asset| (asset.path.clone(), format!("http://127.0.0.1/{}", asset.path)))
        .collect()
}

#[test]
fn scans_and_loads_wallpaper_engine_video_without_copying_it() {
    let root = path(&["tmp", "431960"]);
    let project_path = path(&["tmp", "431960", "1234567890"]);
    let video = ["tmp", "431960", "1234567890", "wallpaper.mp4"];
    let m = manifest("Test video", "video", "wallpaper.mp4");

    let catalog = wallpaper_engine_catalog(
        root.clone(),
        vec![entry("1234567890", m.clone(), found(&video, 11))],
    )
    .expect("wallpaper catalog");
    assert_eq!(catalog.projects.len(), 1);
    assert!(catalog.projects[0].supported);
    assert_eq!(catalog.projects[0].media_size_bytes, Some(11));

    let controls = WallpaperControls::new(42, 73).expect("wallpaper controls");
    let package = load_wallpaper_engine_project(
        &root,
        &project_path,
        controls,
        Ok(m),
        found(&video, 11),
        Ok(Vec::new()),
    )
    .expect("video package");
    let assets = package.runtime_assets();
    let video_asset = assets
        .iter()
        .find(|asset| asset.path == WALLPAPER_ASSET_PATH)
        .expect("streamed video asset");
    assert!(matches!(&video_asset.source, ThemeRuntimeAssetSource::File(_)));
    let urls = local_urls(&assets);
    let config = package.runtime_config_with_asset_urls(&urls).expect("runtime config");
    let wallpaper = config.wallpaper.expect("wallpaper");
    assert_eq!(wallpaper.kind, "video");
    assert_eq!(
        wallpaper.asset_url,
        format!("http://127.0.0.1/{}", WALLPAPER_ASSET_PATH)
    );
    assert_eq!(wallpaper.brightness, 42);
    assert_eq!(wallpaper.interface_transparency, 73);
    let css = package.css();
    assert!(css.contains("--ct-wallpaper-brightness: 0.42"));
    assert!(css.contains("--ct-interface-opacity: 0.27"));
    assert!(css.contains("[data-ct-mount=\"home.hero\"]"));
    assert!(css.contains("display: none !important"));
    assert!(css.contains(".ct-wallpaper-controls"));
    assert!(css.contains("[data-ct-view=\"conversation\"] :where([data-ct-slot=\"main\"]"));
    assert!(css.contains("background: transparent !important"));
    assert!(css.contains("[data-ct-slot=\"composer\"] { box-shadow: none !important; }"));
    assert_eq!(
        package.wallpaper_file_path().map(|p| p.parts),
        Some(video.iter().map(|p| p.to_string()).collect())
    );
}

#[test]
fn scans_scene_and_loads_sandboxed_web_projects() {
    let root = path(&["tmp", "431960"]);
    let scene_pkg = ["tmp", "431960", "100", "scene.pkg"];
    let index = ["tmp", "431960", "200", "index.html"];
    let catalog = wallpaper_engine_catalog(
        root.clone(),
        vec![
            entry("100", manifest("100", "scene", "scene.json"), found(&scene_pkg, 13)),
            entry("200", manifest("200", "web", "index.html"), found(&index, 46)),
        ],
    )
    .expect("wallpaper catalog");
    assert_eq!(catalog.projects.len(), 2);
    assert!(catalog.projects.iter().all(|project| project.supported));
    let scene = catalog
        .projects
        .iter()
        .find(|project| project.project_type == "scene")
        .expect("scene project");
    assert!(scene.requires_wallpaper_engine);
    assert_eq!(
        scene.media_path.as_ref().map(|p| p.parts.clone()),
        Some(scene_pkg.iter().map(|p| p.to_string()).collect())
    );
    let web = catalog
        .projects
        .iter()
        .find(|project| project.project_type == "web")
        .expect("web project");
    assert!(!web.requires_wallpaper_engine);

    let files = vec![
        WebFile { path: path(&["tmp", "431960", "200", "project.json"]), size: 60 },
        WebFile { path: path(&index), size: 46 },
        WebFile { path: path(&["tmp", "431960", "200", "js", "app.js"]), size: 17 },
    ];
    let package = load_wallpaper_engine_project(
        &root,
        &path(&["tmp", "431960", "200"]),
        WallpaperControls::default(),
        Ok(manifest("200", "web", "index.html")),
        found(&index, 46),
        Ok(files),
    )
    .expect("sandboxed web package");
    let assets = package.runtime_assets();
    assert_eq!(
        assets
            .iter()
            .filter(|asset| asset.policy == ThemeAssetPolicy::SandboxedWeb)
            .count(),
        3
    );
    let entry_asset = assets
        .iter()
        .find(|asset| asset.path == WALLPAPER_ASSET_PATH)
        .expect("web entry asset");
    assert_eq!(entry_asset.route_path.as_deref(), Some("web/index.html"));
    assert_eq!(entry_asset.policy, ThemeAssetPolicy::SandboxedWeb);
    assert!(assets.iter().any(|asset| asset.path == "wallpaper-engine/web/js/app.js"
        && asset.mime == "text/javascript; charset=utf-8"));
    let urls = local_urls(&assets);
    let config = package.runtime_config_with_asset_urls(&urls).expect("web runtime config");
    assert_eq!(config.wallpaper.expect("wallpaper").kind, "web");
    assert!(package.wallpaper_file_path().is_none());
}

#[test]
fn classifies_static_scene_previews_as_original_engine_scenes() {
    let root = path(&["tmp", "431960"]);
    let catalog = wallpaper_engine_catalog(
        root,
        vec![entry(
            "300",
            manifest("Static scene", "scene", "scene.json"),
            found(&["tmp", "431960", "300", "scene.pkg"], 13),
        )],
    )
    .expect("wallpaper catalog");
    let project = catalog.projects.first().expect("scene project");
    assert!(project.supported);
    assert!(project.requires_wallpaper_engine);
    assert!(project
        .media_path
        .as_ref()
        .is_some_and(|p| p.parts.last().map(String::as_str) == Some("scene.pkg")));
}

#[test]
fn catalog_orders_by_title_then_id_and_skips_other_entries() {
    let root = path(&["tmp", "431960"]);
    let mp4 = |id: &str| found(&["tmp", "431960", id, "v.mp4"], 5);
    let mut not_a_dir = entry("7", manifest("x", "video", "v.mp4"), mp4("7"));
    not_a_dir.is_dir = false;
    let mut link = entry("8", manifest("x", "video", "v.mp4"), mp4("8"));
    link.is_symlink = true;
    let mut unreadable = entry("9", manifest("x", "video", "v.mp4"), mp4("9"));
    unreadable.manifest = None;
    let catalog = wallpaper_engine_catalog(
        root,
        vec![
            entry("30", manifest("beta", "video", "v.mp4"), mp4("30")),
            entry("abc", manifest("zzz", "video", "v.mp4"), mp4("abc")),
            entry("20", manifest("Alpha", "video", "v.mp4"), mp4("20")),
            entry("10", manifest("alpha", "video", "v.mp4"), mp4("10")),
            not_a_dir,
            link,
            unreadable,
        ],
    )
    .expect("catalog");
    let ids: Vec<&str> = catalog.projects.iter().map(|p| p.id.as_str()).collect();
    assert_eq!(ids, vec!["10", "20", "30"]);
}

#[test]
fn catalog_root_must_be_the_workshop_directory() {
    let error = wallpaper_engine_catalog(path(&["tmp", "workshop"]), Vec::new()).expect_err("root");
    assert_eq!(error.to_string(), "Wallpaper Engine Workshop 目录必须以 431960 结尾");
}

#[test]
fn unsupported_projects_explain_why() {
    let root = path(&["tmp", "431960"]);
    let catalog = wallpaper_engine_catalog(
        root,
        vec![
            entry("1", manifest("a", "application", ""), MediaLookup::Missing("none".into())),
            entry("2", manifest("b", "video", ""), MediaLookup::Missing("none".into())),
            entry("3", manifest("c", "video", "../x.mp4"), MediaLookup::Missing("none".into())),
            entry("4", manifest("d", "video", "v.avi"), found(&["tmp", "431960", "4", "v.avi"], 5)),
            entry("5", manifest("e", "video", "v.mp4"), found(&["tmp", "431960", "5", "v.mp4"], 0)),
            entry("6", manifest("f", "web", "i.html"), MediaLookup::Found {
                path: path(&["tmp", "431960", "6", "i.html"]),
                size: None,
            }),
        ],
    )
    .expect("catalog");
    let reasons: Vec<Option<&str>> =
        catalog.projects.iter().map(|p| p.reason.as_deref()).collect();
    assert_eq!(
        reasons,
        vec![
            Some("不支持的 Wallpaper Engine 项目类型"),
            Some("project.json 未声明主文件"),
            Some("project.json 的主文件路径不安全"),
            Some("video 项目的主文件格式不受支持：.avi"),
            Some("壁纸资源为空"),
            Some("无法读取壁纸资源大小"),
        ]
    );
}

#[test]
fn loading_checks_controls_then_placement() {
    let root = path(&["tmp", "431960"]);
    let media = || found(&["tmp", "431960", "1", "v.mp4"], 5);
    let m = || Ok(manifest("t", "video", "v.mp4"));
    let bad = WallpaperControls { wallpaper_brightness: 101, interface_transparency: 0 };
    let error = load_wallpaper_engine_project(&root, &path(&["tmp", "431960", "x"]), bad, m(), media(), Ok(vec![]))
        .expect_err("controls first");
    assert_eq!(error.to_string(), "壁纸亮度必须在 0 到 100 之间");
    let error = load_wallpaper_engine_project(
        &root,
        &path(&["tmp", "431960", "x"]),
        WallpaperControls::default(),
        m(),
        media(),
        Ok(vec![]),
    )
    .expect_err("not a project");
    assert_eq!(error.to_string(), "所选目录不是有效的 Wallpaper Engine Workshop 项目");
    let error = load_wallpaper_engine_project(
        &root,
        &path(&["elsewhere", "1"]),
        WallpaperControls::default(),
        m(),
        media(),
        Ok(vec![]),
    )
    .expect_err("outside the workshop");
    assert_eq!(error.to_string(), "只允许导入已扫描的 Wallpaper Engine Workshop 项目目录");
    let package = load_wallpaper_engine_project(
        &root,
        &path(&["tmp", "431960", "1"]),
        WallpaperControls::default(),
        m(),
        media(),
        Ok(vec![]),
    )
    .expect("video");
    assert_eq!(package.id(), "local.wallpaper-engine.w1");
    assert_eq!(package.version(), "1.0.0");
    let summary = package.preview_summary();
    assert_eq!(summary.id, "local.wallpaper-engine.w1");
    assert_eq!(summary.name, "t");
    assert_eq!(summary.description, "Wallpaper Engine 本地动态壁纸 · Workshop 1");
    assert_eq!(summary.author, "Wallpaper Engine");
    assert!(!summary.built_in);
    assert_eq!(summary.online_slug, None);
    assert_eq!(package.wallpaper_controls(), Some(WallpaperControls::default()));
}

#[test]
fn runtime_config_needs_every_asset_url() {
    let root = path(&["tmp", "431960"]);
    let package = load_wallpaper_engine_project(
        &root,
        &path(&["tmp", "431960", "1"]),
        WallpaperControls::default(),
        Ok(manifest("t", "video", "v.webm")),
        found(&["tmp", "431960", "1", "v.webm"], 5),
        Ok(vec![]),
    )
    .expect("video");
    let error = package.runtime_config_with_asset_urls(&Vec::new()).expect_err("no urls");
    assert_eq!(error.to_string(), "主题资源 URL 缺失：assets/transparent.svg");
    let only_hero = vec![("assets/transparent.svg".to_owned(), "http://127.0.0.1/t".to_owned())];
    let error = package.runtime_config_with_asset_urls(&only_hero).expect_err("no video url");
    assert_eq!(
        error.to_string(),
        format!("动态壁纸资源 URL 缺失：{}", WALLPAPER_ASSET_PATH)
    );
    let assets = package.runtime_assets();
    let video = assets.iter().find(|a| a.path == WALLPAPER_ASSET_PATH).expect("video");
    assert_eq!(video.mime, "video/webm");
    let config = package.runtime_config_with_asset_urls(&local_urls(&assets)).expect("config");
    assert_eq!(config.hero.title, "t");
    assert_eq!(config.hero.asset_url, "http://127.0.0.1/assets/transparent.svg");
    assert_eq!(config.home_prompt.as_deref(), Some("今天想聊些什么？"));
}

#[test]
fn default_workshop_directory() {
    let root = retheme::catalog::default_wallpaper_engine_root(None);
    assert_eq!(root.root, "C:\\");
    assert_eq!(
        root.parts,
        vec!["Program Files (x86)", "Steam", "steamapps", "workshop", "content", "431960"]
    );
    let custom = retheme::catalog::default_wallpaper_engine_root(Some(path(&["D", "Apps"])));
    assert_eq!(custom.parts, vec!["D", "Apps", "Steam", "steamapps", "workshop", "content", "431960"]);
}

#[test]
fn media_lookup_requires_a_file_inside_the_project() {
    let root = path(&["w", "1"]);
    let inside = path(&["w", "1", "v.mp4"]);
    match media_lookup(Ok(root.clone()), "v.mp4", Ok(inside.clone()), true, Some(3)) {
        MediaLookup::Found { path, size } => {
            assert_eq!(path.parts, inside.parts);
            assert_eq!(size, Some(3));
        }
        MediaLookup::Missing(m) => panic!("unexpected {m}"),
    }
    let missing = |lookup: MediaLookup| match lookup {
        MediaLookup::Missing(m) => m,
        MediaLookup::Found { .. } => panic!("expected a missing file"),
    };
    assert_eq!(
        missing(media_lookup(Err("denied".into()), "v.mp4", Ok(inside.clone()), true, None)),
        "无法解析项目目录：denied"
    );
    assert_eq!(
        missing(media_lookup(Ok(root.clone()), "v.mp4", Err("not found".into()), false, None)),
        "找不到 Wallpaper Engine 主文件 v.mp4：not found"
    );
    assert_eq!(
        missing(media_lookup(Ok(root.clone()), "v.mp4", Ok(path(&["w", "2", "v.mp4"])), true, None)),
        "Wallpaper Engine 主文件不在所选项目目录内"
    );
    assert_eq!(
        missing(media_lookup(Ok(root), "v.mp4", Ok(inside), false, None)),
        "Wallpaper Engine 主文件不在所选项目目录内"
    );
}

#[test]
fn exactly_one_web_file_becomes_the_wallpaper_asset() {
    let project = path(&["tmp", "431960", "200"]);
    let index = path(&["tmp", "431960", "200", "index.html"]);
    let files = vec![
        WebFile { path: path(&["tmp", "431960", "200", "a.html"]), size: 1 },
        WebFile { path: index.clone(), size: 1 },
        WebFile { path: path(&["tmp", "431960", "200", "web", "index.html"]), size: 1 },
    ];
    let assets = collect_wallpaper_web_assets(&project, &index, &files).expect("assets");
    let wallpapers: Vec<usize> =
        (0..assets.len()).filter(|&i| assets[i].path == WALLPAPER_ASSET_PATH).collect();
    assert_eq!(wallpapers, vec![1]);
    assert_eq!(assets[2].path, "wallpaper-engine/web/web/index.html");
}

#[test]
fn catalog_ids_are_the_directory_names() {
    let root = path(&["tmp", "431960"]);
    let mp4 = |id: &str| found(&["tmp", "431960", id, "v.mp4"], 5);
    let catalog = wallpaper_engine_catalog(
        root,
        vec![
            entry("2", manifest("same", "video", "v.mp4"), mp4("2")),
            entry("1", manifest("same", "video", "v.mp4"), mp4("1")),
            entry("3", manifest("Same", "video", "v.mp4"), mp4("3")),
        ],
    )
    .expect("catalog");
    let ids: Vec<&str> = catalog.projects.iter().map(|p| p.id.as_str()).collect();
    assert_eq!(ids, vec!["1", "2", "3"]);
}
