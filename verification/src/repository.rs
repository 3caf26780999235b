//! The on-disk repository of installed online themes: where the registry
//! and the encrypted archives live, and every check an archive passes on its
//! way in and out.

use vstd::prelude::*;
use vstd::utf8::encode_utf8;

use crate::cache::{bytes_result, cache_opening, decrypt_online_cache, encrypt_online_cache, opt_bytes,
    sealed_cache};
use crate::digest::{decodes_to, is_sha256, is_sha256_text, platform_key_error, platform_verifying_key,
    sha256_hex, sha256_hex_of,
    ed25519_key_valid};
use crate::error::{theme_error, ThemeError};
use crate::integrity::{file_views, index_view, integrity_verdict, verify_integrity_and_signature,
    IntegrityIndex};
use crate::paths::{spec_join, LocalPath};
use crate::registry::{install_verdict, InstalledTheme, OnlineThemeSource, ThemeRegistry};
use crate::summary::ThemeSummary;
use crate::text::{concat, str_eq};

verus! {

/// Largest accepted theme archive, in bytes (30 MiB).
pub const MAX_ARCHIVE_SIZE: u64 = 31457280;

/// Name of the registry file in the repository root.
pub const REGISTRY_FILE: &'static str = "registry.json";

/// Name of the directory of encrypted archives.
pub const STORE_DIR: &'static str = "store";

/// How a signed package may be delivered, as its manifest declares it.
#[derive(Debug, Clone)]
pub struct PackageAccess {
    /// `online` for themes served by the platform.
    pub delivery: String,
    /// The slug the platform serves it under.
    pub slug: String,
}

/// What installing an online theme reports.
#[derive(Debug, Clone)]
pub struct ThemeInstallReport {
    pub theme: ThemeSummary,
    /// It replaced an installed version of the same theme.
    pub replaced: bool,
    /// SHA-256 of the archive, lowercase hex.
    pub package_digest: String,
    pub signature_verified: bool,
}

/// The repository of installed online themes.
#[derive(Debug, Clone)]
pub struct ThemeRepository {
    /// Canonical root directory.
    pub root: LocalPath,
    /// The platform's Ed25519 public key.
    pub verifying_key: Vec<u8>,
    /// The device key that protects cached archives, if the device has one.
    pub cache_key: Option<Vec<u8>>,
}

/// The repository is usable: a 32-byte platform key.
pub open spec fn repository_wf(r: ThemeRepository) -> bool {
    r.verifying_key@.len() == 32
}

/// The package is delivered `online` under the slug it is installed from.
pub open spec fn access_ok(access: Option<PackageAccess>, online: OnlineThemeSource) -> bool {
    access matches Some(a) && a.delivery@ == "online"@ && a.slug@ == online.slug@
}

/// Why the package's declared access does not allow installing it from
/// `online`, if it does not.
pub open spec fn access_error(access: Option<PackageAccess>, online: OnlineThemeSource) -> Option<
    Seq<char>,
> {
    match access {
        None => Some("在线主题包缺少签名授权策略，请重新下载最新版本"@),
        Some(a) => if a.delivery@ == "online"@ && a.slug@ == online.slug@ {
            None
        } else {
            Some("在线主题包授权策略与服务端不一致"@)
        },
    }
}

/// Checks the package's declared access against the online source it is
/// installed from: it must be delivered `online` under the same slug.
pub fn validate_package_access(access: &Option<PackageAccess>, online: &OnlineThemeSource) -> (r:
    Result<(), ThemeError>)
    ensures
        access is None ==> (r matches Err(e) && e.0@ == "在线主题包缺少签名授权策略，请重新下载最新版本"@),
        access matches Some(a) ==> if a.delivery@ == "online"@ && a.slug@ == online.slug@ {
            r is Ok
        } else {
            r matches Err(e) && e.0@ == "在线主题包授权策略与服务端不一致"@
        },
{
    match access {
        Some(a) => {
            if str_eq(a.delivery.as_str(), "online") && str_eq(a.slug.as_str(), online.slug.as_str()) {
                Ok(())
            } else {
                Err(theme_error("在线主题包授权策略与服务端不一致"))
            }
        },
        None => Err(theme_error("在线主题包缺少签名授权策略，请重新下载最新版本")),
    }
}

/// Refuses archives above the size limit.
pub fn check_archive_size(len: usize) -> (r: Result<(), ThemeError>)
    ensures
        len > MAX_ARCHIVE_SIZE ==> (r matches Err(e) && e.0@ == "主题包超过 30 MB"@),
        len <= MAX_ARCHIVE_SIZE ==> r is Ok,
{
    if len as u64 > MAX_ARCHIVE_SIZE {
        Err(theme_error("主题包超过 30 MB"))
    } else {
        Ok(())
    }
}

/// Checks that a loaded package is the one the registry records for
/// `theme_id`: same id and version.
pub fn check_installed_package(
    theme_id: &str,
    installed: &InstalledTheme,
    package_id: &str,
    package_version: &str,
) -> (r: Result<(), ThemeError>)
    ensures
        package_id@ == theme_id@ && package_version@ == installed.version@ ==> r is Ok,
        !(package_id@ == theme_id@ && package_version@ == installed.version@) ==> (r matches Err(e)
            && e.0@ == "主题 "@ + theme_id@ + " 与注册表不一致"@),
{
    if !str_eq(package_id, theme_id) || !str_eq(package_version, installed.version.as_str()) {
        let m = concat("主题 ", theme_id);
        return Err(ThemeError(concat(m.as_str(), " 与注册表不一致")));
    }
    Ok(())
}

/// What opening the cache of installed theme `id` (registry digest
/// `digest`) gives: the archive, or the refusal.
pub open spec fn installed_archive(
    id: Seq<char>,
    digest: Seq<char>,
    cache_key: Option<Seq<u8>>,
    stored: Seq<u8>,
) -> Result<Seq<u8>, Seq<char>> {
    if !is_sha256_text(digest) {
        Err("主题 "@ + id + " 的注册表摘要无效"@)
    } else {
        match cache_opening(cache_key, digest, stored) {
            Err(e) => Err(e),
            Ok(archive) => if sha256_hex_of(archive) != digest {
                Err("已安装主题 "@ + id + " 的缓存已被篡改"@)
            } else {
                Ok(archive)
            },
        }
    }
}

/// The registry's digest of theme `theme_id` must be a SHA-256 digest
/// before its cache file is read.
pub fn check_registry_digest(theme_id: &str, installed: &InstalledTheme) -> (r: Result<(), ThemeError>)
    ensures
        is_sha256_text(installed.digest@) ==> r is Ok,
        !is_sha256_text(installed.digest@) ==> (r matches Err(e) && e.0@ == "主题 "@ + theme_id@
            + " 的注册表摘要无效"@),
{
    if !is_sha256(installed.digest.as_str()) {
        let m = concat("主题 ", theme_id);
        return Err(ThemeError(concat(m.as_str(), " 的注册表摘要无效")));
    }
    Ok(())
}

impl ThemeRepository {
    /// A repository at `root` whose platform key is given in hexadecimal,
    /// with the device cache key.
    pub fn new_with_cache_key(root: LocalPath, public_key_hex: &str, cache_key: Vec<u8>) -> (r:
        Result<ThemeRepository, ThemeError>)
        ensures
            match platform_key_error(public_key_hex@) {
                Some(m) => r matches Err(e) && e.0@ == m,
                None => r matches Ok(repo) && repository_wf(repo) && repo.root == root
                    && repo.cache_key == Some(cache_key) && decodes_to(
                    public_key_hex@,
                    repo.verifying_key@,
                ) && ed25519_key_valid(repo.verifying_key@),
            },
    {
        let verifying_key = match platform_verifying_key(public_key_hex) {
            Ok(k) => k,
            Err(e) => {
                return Err(e);
            },
        };
        Ok(ThemeRepository { root, verifying_key, cache_key: Some(cache_key) })
    }

    /// A repository at `root` without a device cache key (it cannot store
    /// or read online themes).
    pub fn new(root: LocalPath, public_key_hex: &str) -> (r: Result<ThemeRepository, ThemeError>)
        ensures
            match platform_key_error(public_key_hex@) {
                Some(m) => r matches Err(e) && e.0@ == m,
                None => r matches Ok(repo) && repository_wf(repo) && repo.root == root
                    && repo.cache_key is None && decodes_to(public_key_hex@, repo.verifying_key@)
                    && ed25519_key_valid(repo.verifying_key@),
            },
    {
        let verifying_key = match platform_verifying_key(public_key_hex) {
            Ok(k) => k,
            Err(e) => {
                return Err(e);
            },
        };
        Ok(ThemeRepository { root, verifying_key, cache_key: None })
    }

    /// `<root>/registry.json`.
    pub fn registry_path(&self) -> (p: LocalPath)
        ensures
            p.spec_view() == spec_join(self.root.spec_view(), REGISTRY_FILE@),
    {
        self.root.join(REGISTRY_FILE)
    }

    /// `<root>/store`.
    pub fn store_dir(&self) -> (p: LocalPath)
        ensures
            p.spec_view() == spec_join(self.root.spec_view(), STORE_DIR@),
    {
        self.root.join(STORE_DIR)
    }

    /// `<root>/store/<digest>.cache`.
    pub fn store_path(&self, digest: &str) -> (p: LocalPath)
        ensures
            p.spec_view() == spec_join(
                spec_join(self.root.spec_view(), STORE_DIR@),
                digest@ + ".cache"@,
            ),
    {
        let name = concat(digest, ".cache");
        self.store_dir().join(name.as_str())
    }

    /// Checks a package against its integrity index and the platform key.
    pub fn verify_package(&self, files: &Vec<(String, Vec<u8>)>, index: Result<IntegrityIndex, String>) -> (r:
        Result<(), ThemeError>)
        requires
            repository_wf(*self),
        ensures
            match r {
                Ok(()) => integrity_verdict(file_views(files@), index_view(index), self.verifying_key@)
                    == Ok::<(), Seq<char>>(()),
                Err(e) => integrity_verdict(file_views(files@), index_view(index), self.verifying_key@)
                    == Err::<(), Seq<char>>(e.0@),
            },
    {
        verify_integrity_and_signature(files, index, &self.verifying_key)
    }

    /// Encrypts an archive for the cache with this device's key.
    pub fn encrypt_online_cache(&self, digest: &str, source: &[u8]) -> (r: Result<Vec<u8>, ThemeError>)
        ensures
            self.cache_key is None ==> (r matches Err(e) && e.0@ == "当前设备无法保护在线主题缓存"@),
            self.cache_key is Some && self.cache_key->0@.len() != 32 ==> (r matches Err(e) && e.0@
                == "在线主题缓存密钥无效"@),
            self.cache_key is Some && self.cache_key->0@.len() == 32 && r is Err ==> r->Err_0.0@
                == "无法加密在线主题缓存"@,
            r matches Ok(stored) ==> (self.cache_key matches Some(k) && exists|n: Seq<u8>|
                #[trigger] sealed_cache(stored@, k@, n, source@, encode_utf8(digest@))),
    {
        encrypt_online_cache(&self.cache_key, digest, source)
    }

    /// Decrypts a cached archive with this device's key; an archive this
    /// device sealed under `digest` decrypts to itself.
    pub fn decrypt_online_cache(&self, digest: &str, stored: &[u8]) -> (r: Result<Vec<u8>, ThemeError>)
        ensures
            bytes_result(r) == cache_opening(opt_bytes(self.cache_key), digest@, stored@),
            forall|k: Vec<u8>, n: Seq<u8>, m: Seq<u8>|
                self.cache_key == Some(k) && k@.len() == 32 && #[trigger] sealed_cache(
                    stored@,
                    k@,
                    n,
                    m,
                    encode_utf8(digest@),
                ) ==> (r matches Ok(v) && v@ == m),
    {
        decrypt_online_cache(&self.cache_key, digest, stored)
    }

    /// Opens the cached archive of installed theme `theme_id`: its registry
    /// digest must be a SHA-256 digest, the cache must decrypt with this
    /// device's key, and the archive must have that digest.
    pub fn open_installed_archive(&self, theme_id: &str, installed: &InstalledTheme, stored: &[u8]) -> (r:
        Result<Vec<u8>, ThemeError>)
        ensures
            bytes_result(r) == installed_archive(
                theme_id@,
                installed.digest@,
                opt_bytes(self.cache_key),
                stored@,
            ),
            forall|k: Vec<u8>, n: Seq<u8>, m: Seq<u8>|
                is_sha256_text(installed.digest@) && sha256_hex_of(m) == installed.digest@
                    && self.cache_key == Some(k) && k@.len() == 32 && #[trigger] sealed_cache(
                    stored@,
                    k@,
                    n,
                    m,
                    encode_utf8(installed.digest@),
                ) ==> (r matches Ok(v) && v@ == m),
    {
        match check_registry_digest(theme_id, installed) {
            Ok(()) => {},
            Err(e) => {
                return Err(e);
            },
        }
        let archive = match self.decrypt_online_cache(installed.digest.as_str(), stored) {
            Ok(a) => a,
            Err(e) => {
                return Err(e);
            },
        };
        let digest = sha256_hex(archive.as_slice());
        if !str_eq(digest.as_str(), installed.digest.as_str()) {
            let m = concat("已安装主题 ", theme_id);
            return Err(ThemeError(concat(m.as_str(), " 的缓存已被篡改")));
        }
        Ok(archive)
    }
}

} // verus!

verus! {

/// An installation that passed every check: the archive digest, the
/// encrypted cache file to write, and whether it replaces an installed
/// version.
#[derive(Debug)]
pub struct PreparedInstall {
    pub digest: String,
    pub stored: Vec<u8>,
    pub replaced: bool,
}

impl ThemeRepository {
    /// Prepares the installation of a verified package (id `package_id`,
    /// version `package_version`, declared access `access`) downloaded as
    /// `online`: checks its access, computes its digest, asks the registry
    /// whether it may be installed, and encrypts it for the cache.
    pub fn prepare_install(
        &self,
        registry: &ThemeRegistry,
        archive_bytes: &[u8],
        package_id: &str,
        package_version: &str,
        access: &Option<PackageAccess>,
        online: &OnlineThemeSource,
    ) -> (r: Result<PreparedInstall, ThemeError>)
        requires
            registry.wf(),
        ensures
            access_error(*access, *online) is Some ==> (r matches Err(e) && Some(e.0@)
                == access_error(*access, *online)),
            access_ok(*access, *online) && install_verdict(
                registry@,
                package_id@,
                package_version@,
                sha256_hex_of(archive_bytes@),
            ) is Err ==> (r matches Err(e) && install_verdict(
                registry@,
                package_id@,
                package_version@,
                sha256_hex_of(archive_bytes@),
            ) == Err::<bool, Seq<char>>(e.0@)),
            access_ok(*access, *online) && install_verdict(
                registry@,
                package_id@,
                package_version@,
                sha256_hex_of(archive_bytes@),
            ) is Ok && self.cache_key is None ==> (r matches Err(e) && e.0@
                == "当前设备无法保护在线主题缓存"@),
            access_ok(*access, *online) && install_verdict(
                registry@,
                package_id@,
                package_version@,
                sha256_hex_of(archive_bytes@),
            ) is Ok && self.cache_key is Some && self.cache_key->0@.len() != 32 ==> (r matches Err(e)
                && e.0@ == "在线主题缓存密钥无效"@),
            access_ok(*access, *online) && install_verdict(
                registry@,
                package_id@,
                package_version@,
                sha256_hex_of(archive_bytes@),
            ) is Ok && self.cache_key is Some && self.cache_key->0@.len() == 32 && r is Err
                ==> r->Err_0.0@ == "无法加密在线主题缓存"@,
            r matches Ok(p) ==> {
                &&& access_ok(*access, *online)
                &&& p.digest@ == sha256_hex_of(archive_bytes@)
                &&& install_verdict(registry@, package_id@, package_version@, p.digest@) == Ok::<
                    bool,
                    Seq<char>,
                >(p.replaced)
                &&& self.cache_key matches Some(k) && exists|n: Seq<u8>|
                    #[trigger] sealed_cache(p.stored@, k@, n, archive_bytes@, encode_utf8(p.digest@))
            },
    {
        match validate_package_access(access, online) {
            Ok(()) => {},
            Err(e) => {
                return Err(e);
            },
        }
        let digest = sha256_hex(archive_bytes);
        let replaced = match registry.admit_install(package_id, package_version, digest.as_str()) {
            Ok(b) => b,
            Err(e) => {
                return Err(e);
            },
        };
        let stored = match self.encrypt_online_cache(digest.as_str(), archive_bytes) {
            Ok(s) => s,
            Err(e) => {
                return Err(e);
            },
        };
        let r = PreparedInstall { digest, stored, replaced };
        proof {
            let k = self.cache_key->0;
            let n = choose|n: Seq<u8>| #[trigger] sealed_cache(stored@, k@, n, archive_bytes@, encode_utf8(r.digest@));
            assert(sealed_cache(r.stored@, k@, n, archive_bytes@, encode_utf8(r.digest@)));
        }
        Ok(r)
    }
}

} // verus!
