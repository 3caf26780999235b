use retheme::runtime::{
    build_runtime_config_with, referenced_paths, AssetSlot, ConversationBanner, HomeHero,
    RuntimeConfig, ThemeExperience,
};

fn test_theme_experience() -> ThemeExperience {
    ThemeExperience {
        home_hero: HomeHero {
            eyebrow: "TEST".into(),
            title: "Protocol theme".into(),
            description: "Theme engine verification".into(),
            asset: "assets/hero.svg".into(),
            foreground: None,
            fit: "cover".into(),
            position: "center".into(),
            divider: None,
        },
        home_prompt: Some("What should we test?".into()),
        conversation_banner: Some(ConversationBanner {
            eyebrow: "SESSION".into(),
            title: "Test conversation".into(),
            description: "Narrow banner verification".into(),
            asset: "assets/banner-chat.svg".into(),
            foreground: None,
            fit: "contain".into(),
            position: "right".into(),
        }),
        decorations: Vec::new(),
        composer_submit: None,
        composer_decoration: Some("assets/ornament.svg".into()),
        conversation_summary_decoration: Some("assets/ornament.svg".into()),
        sidebar_section_decoration: None,
        assets: Vec::new(),
        locales: vec![(
            "zh-CN".into(),
            "{\"name\":\"测试主题\",\"description\":\"主题引擎验证\"}".into(),
        )],
    }
}

/// Every referenced asset served under its own path.
fn identity_urls(e: &ThemeExperience) -> Vec<(String, String)> {
    referenced_paths(e).into_iter().map(|path| (path.clone(), path)).collect()
}

fn build_runtime_config(e: &ThemeExperience) -> RuntimeConfig {
    build_runtime_config_with(e, &identity_urls(e)).expect("runtime config")
}

#[test]
fn home_prompt_and_conversation_banner_are_optional() {
    let mut e = test_theme_experience();
    e.home_prompt = None;
    e.conversation_banner = None;
    e.assets.clear();
    let config = build_runtime_config(&e);
    assert!(config.home_prompt.is_none());
    assert!(config.conversation_banner.is_none());
}

#[test]
fn builds_home_prompt_and_conversation_banner_runtime_config() {
    let mut e = test_theme_experience();
    e.assets.clear();
    e.home_prompt = Some("今天想一起做什么？".into());
    e.conversation_banner = Some(ConversationBanner {
        eyebrow: "SESSION".into(),
        title: "保持专注".into(),
        description: "会话页使用独立窄图。".into(),
        asset: "assets/banner-chat.svg".into(),
        foreground: None,
        fit: "contain".into(),
        position: "right".into(),
    });
    let config = build_runtime_config(&e);
    assert_eq!(config.home_prompt.as_deref(), Some("今天想一起做什么？"));
    let banner = config.conversation_banner.expect("conversation banner");
    assert_eq!(banner.fit, "contain");
    assert_eq!(banner.position, "right");
    assert_eq!(banner.asset_url, "assets/banner-chat.svg");
}

#[test]
fn builds_controlled_asset_slot_runtime_config() {
    let mut e = test_theme_experience();
    let slot = |slot: &str, asset: &str| AssetSlot {
        slot: slot.into(),
        asset: asset.into(),
        light_asset: None,
        dark_asset: None,
    };
    e.assets = vec![
        AssetSlot {
            slot: "app.background".into(),
            asset: "assets/hero.svg".into(),
            light_asset: Some("assets/hero.svg".into()),
            dark_asset: Some("assets/ornament.svg".into()),
        },
        slot("main.background", "assets/hero.svg"),
        slot("main.overlay", "assets/ornament.svg"),
        slot("main.frame", "assets/ornament.svg"),
        slot("sidebar.brand.icon", "assets/ornament.svg"),
        slot("sidebar.brand.badge", "assets/ornament.svg"),
        slot("sidebar.header.decoration", "assets/ornament.svg"),
        slot("sidebar.frame", "assets/ornament.svg"),
        slot("home.card.arrow.asset", "assets/ornament.svg"),
    ];
    let config = build_runtime_config(&e);
    assert_eq!(config.assets.len(), 9);
    assert_eq!(config.assets[0].slot, "app.background");
    assert_eq!(config.assets[0].light_asset_url.as_deref(), Some("assets/hero.svg"));
    assert_eq!(config.assets[0].dark_asset_url.as_deref(), Some("assets/ornament.svg"));
    assert_eq!(config.assets[6].slot, "sidebar.header.decoration");
    assert_eq!(config.assets[7].slot, "sidebar.frame");
    assert_eq!(config.assets[8].asset_url, "assets/ornament.svg");
}

#[test]
fn replaces_every_runtime_asset_path_with_session_urls() {
    let e = test_theme_experience();
    let urls: Vec<(String, String)> = referenced_paths(&e)
        .into_iter()
        .map(|path| (path.clone(), format!("http://127.0.0.1:49152/token/{path}")))
        .collect();
    assert!(!urls.is_empty());
    let config = build_runtime_config_with(&e, &urls).expect("session runtime config");
    let mut seen = vec![config.hero.asset_url.clone()];
    seen.extend(config.hero.foreground_asset_url.clone());
    seen.extend(config.composer_decoration.clone());
    seen.extend(config.conversation_summary_decoration.clone());
    let banner = config.conversation_banner.clone().expect("banner");
    seen.push(banner.asset_url.clone());
    for url in &seen {
        assert!(url.starts_with("http://127.0.0.1:"), "invalid URL: {url}");
    }
    assert_eq!(
        banner.asset_url,
        "http://127.0.0.1:49152/token/assets/banner-chat.svg"
    );
}

#[test]
fn a_missing_session_url_names_the_first_unresolved_asset() {
    let e = test_theme_experience();
    let urls = vec![("assets/hero.svg".to_owned(), "u1".to_owned())];
    let error = build_runtime_config_with(&e, &urls).expect_err("banner url missing");
    assert_eq!(error.to_string(), "主题资源 URL 缺失：assets/banner-chat.svg");
    let error = build_runtime_config_with(&e, &Vec::new()).expect_err("hero url missing");
    assert_eq!(error.to_string(), "主题资源 URL 缺失：assets/hero.svg");
}

#[test]
fn referenced_paths_in_resolution_order() {
    let e = test_theme_experience();
    assert_eq!(
        referenced_paths(&e),
        vec![
            "assets/hero.svg",
            "assets/banner-chat.svg",
            "assets/ornament.svg",
            "assets/ornament.svg",
        ]
    );
}

#[test]
fn runtime_config_carries_the_theme_locales() {
    let e = test_theme_experience();
    let config = build_runtime_config(&e);
    assert_eq!(config.locales, e.locales);
    let mut bare = test_theme_experience();
    bare.locales.clear();
    assert!(build_runtime_config(&bare).locales.is_empty());
}
