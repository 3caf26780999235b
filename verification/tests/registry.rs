use retheme::digest::sha256_hex;
use retheme::registry::{InstalledTheme, OnlineThemeSource, ThemeRegistry};

fn installed(version: &str, digest: &str, slug: &str) -> InstalledTheme {
    InstalledTheme {
        version: version.to_owned(),
        digest: digest.to_owned(),
        online: OnlineThemeSource { slug: slug.to_owned() },
    }
}

fn ids(registry: &ThemeRegistry) -> Vec<String> {
    (0..registry.len()).map(|i| registry.id_at(i).clone()).collect()
}

#[test]
fn rejects_same_version_with_different_content() {
    let first = sha256_hex(b"first package");
    let changed = sha256_hex(b"Changed package content");
    let mut registry = ThemeRegistry::new();
    assert_eq!(registry.admit_install("studio.example.test-theme", "1.0.0", &first).ok(), Some(false));
    registry.record_install(
        "studio.example.test-theme".into(),
        "1.0.0".into(),
        first.clone(),
        "test-theme".into(),
    );
    let error = registry
        .admit_install("studio.example.test-theme", "1.0.0", &changed)
        .expect_err("same version replacement must fail");
    assert!(error.to_string().contains("不可覆盖"));
}

#[test]
fn reinstalling_the_same_archive_replaces_it() {
    let digest = sha256_hex(b"package");
    let mut registry = ThemeRegistry::new();
    registry.record_install("a.b.c".into(), "1.0.0".into(), digest.clone(), "c".into());
    assert_eq!(registry.admit_install("a.b.c", "1.0.0", &digest).ok(), Some(true));
}

#[test]
fn newer_versions_replace_and_older_ones_are_refused() {
    let mut registry = ThemeRegistry::new();
    registry.record_install("a.b.c".into(), "1.2.0".into(), sha256_hex(b"x"), "c".into());
    assert_eq!(registry.admit_install("a.b.c", "1.10.0", &sha256_hex(b"y")).ok(), Some(true));
    assert_eq!(registry.admit_install("a.b.c", "2.0.0-beta.1", &sha256_hex(b"y")).ok(), Some(true));
    assert_eq!(
        registry.admit_install("a.b.c", "1.1.9", &sha256_hex(b"y")).expect_err("older").to_string(),
        "不能用较旧版本覆盖已安装主题"
    );
    assert_eq!(
        registry
            .admit_install("a.b.c", "1.2.0-rc.1", &sha256_hex(b"y"))
            .expect_err("pre-release of the same version is older")
            .to_string(),
        "不能用较旧版本覆盖已安装主题"
    );
}

#[test]
fn version_errors_name_the_broken_side() {
    let mut registry = ThemeRegistry::new();
    registry.record_install("a.b.c".into(), "1.0.0".into(), sha256_hex(b"x"), "c".into());
    let error = registry.admit_install("a.b.c", "one", &sha256_hex(b"y")).expect_err("invalid");
    assert!(error.to_string().starts_with("主题版本无效："));
    registry.record_install("a.b.c".into(), "broken".into(), sha256_hex(b"x"), "c".into());
    let error = registry.admit_install("a.b.c", "1.0.0", &sha256_hex(b"y")).expect_err("corrupt");
    assert!(error.to_string().starts_with("已安装主题版本损坏："));
    // A theme that is not installed is admitted whatever its version says.
    assert_eq!(registry.admit_install("x.y.z", "one", &sha256_hex(b"y")).ok(), Some(false));
}

#[test]
fn registry_keeps_ids_ordered_and_unique() {
    let mut registry = ThemeRegistry::new();
    registry.record_install("b".into(), "1.0.0".into(), "d1".into(), "s1".into());
    registry.record_install("a".into(), "1.0.0".into(), "d2".into(), "s2".into());
    registry.record_install("c".into(), "1.0.0".into(), "d3".into(), "s3".into());
    registry.record_install("b".into(), "2.0.0".into(), "d4".into(), "s4".into());
    assert_eq!(ids(&registry), vec!["a", "b", "c"]);
    assert_eq!(registry.get("b").map(|t| t.version.clone()), Some("2.0.0".to_owned()));
    assert_eq!(registry.theme_at(1).digest, "d4");
    assert!(registry.contains("c"));
    assert!(!registry.contains("d"));
}

#[test]
fn lookups_of_unknown_themes_fail() {
    let mut registry = ThemeRegistry::new();
    registry.record_install("a.b.c".into(), "1.0.0".into(), "d".into(), "slug".into());
    assert_eq!(registry.online_slug("a.b.c").ok(), Some("slug".to_owned()));
    assert_eq!(
        registry.online_slug("x").expect_err("unknown").to_string(),
        "未知主题：x"
    );
    assert_eq!(registry.find("x").expect_err("unknown").to_string(), "未知主题：x");
    assert_eq!(registry.find("a.b.c").expect("known").online.slug, "slug");
}

#[test]
fn uninstall_reports_shared_caches() {
    let mut registry = ThemeRegistry::new();
    registry.record_install("a".into(), "1.0.0".into(), "shared".into(), "s".into());
    registry.record_install("b".into(), "1.0.0".into(), "shared".into(), "s".into());
    registry.record_install("c".into(), "1.0.0".into(), "own".into(), "s".into());
    let removed = registry.uninstall("a").expect("installed");
    assert_eq!(removed.theme.digest, "shared");
    assert!(removed.cache_is_shared);
    let removed = registry.uninstall("c").expect("installed");
    assert!(!removed.cache_is_shared);
    assert_eq!(ids(&registry), vec!["b"]);
    let error = registry.uninstall("c").expect_err("already gone");
    assert_eq!(error.to_string(), "主题未安装：c");
    assert_eq!(ids(&registry), vec!["b"]);
}

#[test]
fn install_then_uninstall_restores_the_registry() {
    let mut registry = ThemeRegistry::new();
    registry.record_install("a".into(), "1.0.0".into(), "d1".into(), "s".into());
    let before = ids(&registry);
    registry.record_install("z".into(), "1.0.0".into(), "d2".into(), "s".into());
    registry.uninstall("z").expect("installed");
    assert_eq!(ids(&registry), before);
}

#[test]
fn removes_online_cache_encrypted_for_another_device() {
    // The theme installed on another device fails to load here, so listing
    // drops it and deletes its cache.
    let mut registry = ThemeRegistry::new();
    let digest = sha256_hex(b"signed online test package");
    registry.record_install(
        "studio.example.test-theme".into(),
        "1.0.0".into(),
        digest.clone(),
        "test-theme".into(),
    );
    let doomed = registry.prune(&vec!["studio.example.test-theme".to_owned()]);
    assert!(registry.to_entries().is_empty());
    assert_eq!(doomed, vec![digest]);
}

#[test]
fn pruning_keeps_caches_still_in_use() {
    let mut registry = ThemeRegistry::new();
    registry.record_install("a".into(), "1.0.0".into(), "shared".into(), "s".into());
    registry.record_install("b".into(), "1.0.0".into(), "shared".into(), "s".into());
    registry.record_install("c".into(), "1.0.0".into(), "own".into(), "s".into());
    let doomed = registry.prune(&vec!["a".to_owned(), "c".to_owned(), "missing".to_owned()]);
    assert_eq!(doomed, vec!["own".to_owned()]);
    assert_eq!(ids(&registry), vec!["b"]);
}

#[test]
fn registry_entries_round_trip_in_id_order() {
    let registry = ThemeRegistry::from_entries(vec![
        ("b".to_owned(), installed("1.0.0", "d1", "s1")),
        ("a".to_owned(), installed("1.0.0", "d2", "s2")),
        ("b".to_owned(), installed("3.0.0", "d3", "s3")),
    ]);
    let entries = registry.to_entries();
    assert_eq!(entries.len(), 2);
    assert_eq!(entries[0].0, "a");
    assert_eq!(entries[1].0, "b");
    assert_eq!(entries[1].1.version, "3.0.0");
    let again = ThemeRegistry::from_entries(entries);
    assert_eq!(ids(&again), vec!["a", "b"]);
}
