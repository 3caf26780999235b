use ed25519_dalek::SigningKey;
use retheme::digest::sha256_hex;
use retheme::paths::LocalPath;
use retheme::registry::{InstalledTheme, OnlineThemeSource, ThemeRegistry};
use retheme::repository::{
    check_archive_size, check_installed_package, check_registry_digest, validate_package_access,
    PackageAccess, ThemeRepository, MAX_ARCHIVE_SIZE,
};

const TEST_SECRET: [u8; 32] = [7; 32];
const PACKAGE: &[u8] = b"signed online test package";

fn public_key_hex() -> String {
    SigningKey::from_bytes(&TEST_SECRET)
        .verifying_key()
        .to_bytes()
        .iter()
        .map(|b| format!("{b:02x}"))
        .collect()
}

fn repository(cache_key: u8) -> ThemeRepository {
    let root = LocalPath { root: "/".into(), parts: vec!["tmp".into(), "repository".into()] };
    ThemeRepository::new_with_cache_key(root, &public_key_hex(), vec![cache_key; 32])
        .expect("theme repository")
}

fn online(slug: &str) -> OnlineThemeSource {
    OnlineThemeSource { slug: slug.to_owned() }
}

fn access(delivery: &str, slug: &str) -> Option<PackageAccess> {
    Some(PackageAccess { delivery: delivery.to_owned(), slug: slug.to_owned() })
}

#[test]
fn repository_file_layout() {
    let repo = repository(9);
    assert_eq!(repo.registry_path().parts, vec!["tmp", "repository", "registry.json"]);
    assert_eq!(repo.store_dir().parts, vec!["tmp", "repository", "store"]);
    assert_eq!(
        repo.store_path("abc").parts,
        vec!["tmp", "repository", "store", "abc.cache"]
    );
}

#[test]
fn repository_needs_a_valid_platform_key() {
    let root = LocalPath { root: "/".into(), parts: vec![] };
    assert!(ThemeRepository::new(root.clone(), "not hex").is_err());
    let repo = ThemeRepository::new(root, &public_key_hex()).expect("repository");
    assert_eq!(repo.cache_key, None);
    assert_eq!(repo.verifying_key.len(), 32);
}

#[test]
fn installs_and_loads_signed_online_theme() {
    let repo = repository(9);
    let mut registry = ThemeRegistry::new();
    let prepared = repo
        .prepare_install(&registry, PACKAGE, "studio.example.test-theme", "1.0.0", &access("online", "test-theme"), &online("test-theme"))
        .expect("install signed theme");
    assert!(!prepared.replaced);
    assert_eq!(prepared.digest, sha256_hex(PACKAGE));
    assert!(prepared.stored.starts_with(b"RTC1"));
    registry.record_install(
        "studio.example.test-theme".into(),
        "1.0.0".into(),
        prepared.digest.clone(),
        "test-theme".into(),
    );
    let installed = registry.get("studio.example.test-theme").expect("installed theme").clone();
    let archive = repo
        .open_installed_archive("studio.example.test-theme", &installed, &prepared.stored)
        .expect("device-bound cache loads");
    assert_eq!(archive, PACKAGE);
    let removed = registry.uninstall("studio.example.test-theme").expect("uninstall signed theme");
    assert!(!removed.cache_is_shared);
    assert_eq!(removed.theme.digest, prepared.digest);
    assert_eq!(registry.len(), 0);
}

#[test]
fn reinstall_reencrypts_online_cache_for_current_device() {
    let first_device = repository(9);
    let current_device = repository(10);
    let mut registry = ThemeRegistry::new();
    let first = first_device
        .prepare_install(&registry, PACKAGE, "studio.example.test-theme", "1.0.0", &access("online", "test-theme"), &online("test-theme"))
        .expect("first device install");
    registry.record_install("studio.example.test-theme".into(), "1.0.0".into(), first.digest.clone(), "test-theme".into());
    let installed = registry.get("studio.example.test-theme").expect("installed").clone();
    assert!(current_device
        .open_installed_archive("studio.example.test-theme", &installed, &first.stored)
        .is_err());
    let again = current_device
        .prepare_install(&registry, PACKAGE, "studio.example.test-theme", "1.0.0", &access("online", "test-theme"), &online("test-theme"))
        .expect("current device reinstall");
    assert!(again.replaced);
    let archive = current_device
        .open_installed_archive("studio.example.test-theme", &installed, &again.stored)
        .expect("current device cache");
    assert_eq!(archive, PACKAGE);
}

#[test]
fn access_policy_must_match_the_online_source() {
    assert!(validate_package_access(&access("online", "test-theme"), &online("test-theme")).is_ok());
    assert_eq!(
        validate_package_access(&None, &online("test-theme")).expect_err("missing").to_string(),
        "在线主题包缺少签名授权策略，请重新下载最新版本"
    );
    let error = validate_package_access(&access("online", "test-theme"), &online("different-theme"))
        .expect_err("registry source tampering must fail");
    assert!(error.to_string().contains("授权策略与服务端不一致"));
    assert!(validate_package_access(&access("store", "test-theme"), &online("test-theme")).is_err());
    let repo = repository(9);
    let error = repo
        .prepare_install(&ThemeRegistry::new(), PACKAGE, "a.b.c", "1.0.0", &None, &online("c"))
        .expect_err("unsigned access policy");
    assert_eq!(error.to_string(), "在线主题包缺少签名授权策略，请重新下载最新版本");
}

#[test]
fn tampered_or_foreign_caches_do_not_load() {
    let repo = repository(9);
    let prepared = repo
        .prepare_install(&ThemeRegistry::new(), PACKAGE, "a.b.c", "1.0.0", &access("online", "c"), &online("c"))
        .expect("prepared");
    let wrong_digest = InstalledTheme {
        version: "1.0.0".into(),
        digest: sha256_hex(b"another archive"),
        online: online("c"),
    };
    assert!(repo.open_installed_archive("a.b.c", &wrong_digest, &prepared.stored).is_err());
    let bad = InstalledTheme { version: "1.0.0".into(), digest: "xyz".into(), online: online("c") };
    assert_eq!(
        repo.open_installed_archive("a.b.c", &bad, &prepared.stored).expect_err("digest").to_string(),
        "主题 a.b.c 的注册表摘要无效"
    );
    assert_eq!(
        check_registry_digest("a.b.c", &bad).expect_err("digest").to_string(),
        "主题 a.b.c 的注册表摘要无效"
    );
}

#[test]
fn cache_of_another_archive_is_reported_as_tampered() {
    let repo = repository(9);
    let digest = sha256_hex(b"expected archive");
    let stored = repo.encrypt_online_cache(&digest, b"substituted archive").expect("cache");
    let installed = InstalledTheme { version: "1.0.0".into(), digest, online: online("c") };
    assert_eq!(
        repo.open_installed_archive("a.b.c", &installed, &stored).expect_err("tampered").to_string(),
        "已安装主题 a.b.c 的缓存已被篡改"
    );
}

#[test]
fn archives_up_to_thirty_mebibytes() {
    assert!(check_archive_size(MAX_ARCHIVE_SIZE as usize).is_ok());
    assert_eq!(
        check_archive_size(MAX_ARCHIVE_SIZE as usize + 1).expect_err("too large").to_string(),
        "主题包超过 30 MB"
    );
}

#[test]
fn loaded_package_must_match_the_registry() {
    let installed = InstalledTheme { version: "1.0.0".into(), digest: "d".into(), online: online("c") };
    assert!(check_installed_package("a.b.c", &installed, "a.b.c", "1.0.0").is_ok());
    assert_eq!(
        check_installed_package("a.b.c", &installed, "a.b.d", "1.0.0").expect_err("id").to_string(),
        "主题 a.b.c 与注册表不一致"
    );
    assert!(check_installed_package("a.b.c", &installed, "a.b.c", "1.0.1").is_err());
}
