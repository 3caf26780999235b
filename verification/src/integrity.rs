//! Integrity of a signed theme package: `integrity.json` lists the SHA-256
//! of every content file (every file but itself and the signature), and
//! `signature.ed25519` is the platform's Ed25519 signature of
//! `integrity.json`.

use vstd::prelude::*;

use crate::digest::{ed25519_verify_strict, is_sha256, is_sha256_text, sha256_hex, sha256_hex_of,
    signature_verifies};
use crate::error::{theme_error, ThemeError};
use crate::text::{concat, opt_str, str_eq};

verus! {

/// Name of the integrity index inside a package.
pub const INTEGRITY_FILE: &'static str = "integrity.json";

/// Name of the signature inside a package.
pub const SIGNATURE_FILE: &'static str = "signature.ed25519";

/// The parsed `integrity.json`.
#[derive(Debug, Clone)]
pub struct IntegrityIndex {
    /// Digest algorithm; only `sha256` is accepted.
    pub algorithm: String,
    /// Content file path and its expected digest, in ascending path order.
    pub files: Vec<(String, String)>,
}

/// Files of a package as plain values.
pub open spec fn file_views(files: Seq<(String, Vec<u8>)>) -> Seq<(Seq<char>, Seq<u8>)> {
    files.map_values(|f: (String, Vec<u8>)| (f.0@, f.1@))
}

/// Index entries as plain values.
pub open spec fn index_views(entries: Seq<(String, String)>) -> Seq<(Seq<char>, Seq<char>)> {
    entries.map_values(|e: (String, String)| (e.0@, e.1@))
}

/// The bytes of the first file named `path`.
pub open spec fn file_lookup(files: Seq<(Seq<char>, Seq<u8>)>, path: Seq<char>) -> Option<Seq<u8>>
    decreases files.len(),
{
    if files.len() == 0 {
        None
    } else if files[0].0 == path {
        Some(files[0].1)
    } else {
        file_lookup(files.drop_first(), path)
    }
}

/// A file that the index does not cover: the index or the signature.
pub open spec fn is_control_file(path: Seq<char>) -> bool {
    path == INTEGRITY_FILE@ || path == SIGNATURE_FILE@
}

/// The index names `path`.
pub open spec fn indexed(entries: Seq<(Seq<char>, Seq<char>)>, path: Seq<char>) -> bool {
    exists|j: int| 0 <= j < entries.len() && (#[trigger] entries[j]).0 == path
}

/// The package has a content file named `path`.
pub open spec fn content_file(files: Seq<(Seq<char>, Seq<u8>)>, path: Seq<char>) -> bool {
    !is_control_file(path) && exists|i: int| 0 <= i < files.len() && (#[trigger] files[i]).0 == path
}

/// The index names exactly the content files of the package.
pub open spec fn covers_exactly(
    files: Seq<(Seq<char>, Seq<u8>)>,
    entries: Seq<(Seq<char>, Seq<char>)>,
) -> bool {
    &&& forall|i: int|
        0 <= i < files.len() && !is_control_file(#[trigger] files[i].0) ==> indexed(entries, files[i].0)
    &&& forall|j: int| 0 <= j < entries.len() ==> content_file(files, (#[trigger] entries[j]).0)
}

/// What is wrong with one index entry, if anything.
pub open spec fn entry_fault(files: Seq<(Seq<char>, Seq<u8>)>, e: (Seq<char>, Seq<char>)) -> Option<
    Seq<char>,
> {
    if !is_sha256_text(e.1) {
        Some("完整性摘要格式无效："@ + e.0)
    } else if file_lookup(files, e.0) matches Some(bytes) && sha256_hex_of(bytes) != e.1 {
        Some("主题文件完整性校验失败："@ + e.0)
    } else {
        None
    }
}

/// The fault of the first faulty entry, in index order.
pub open spec fn first_fault(
    files: Seq<(Seq<char>, Seq<u8>)>,
    entries: Seq<(Seq<char>, Seq<char>)>,
) -> Option<Seq<char>>
    decreases entries.len(),
{
    if entries.len() == 0 {
        None
    } else if entry_fault(files, entries[0]) is Some {
        entry_fault(files, entries[0])
    } else {
        first_fault(files, entries.drop_first())
    }
}

/// The outcome of checking a package: `Ok(())` or the refusal.
pub open spec fn integrity_verdict(
    files: Seq<(Seq<char>, Seq<u8>)>,
    index: Result<(Seq<char>, Seq<(Seq<char>, Seq<char>)>), Seq<char>>,
    key: Seq<u8>,
) -> Result<(), Seq<char>> {
    match file_lookup(files, INTEGRITY_FILE@) {
        None => Err("主题包缺少 integrity.json"@),
        Some(source) => match index {
            Err(e) => Err("integrity.json 无效："@ + e),
            Ok((algorithm, entries)) => if algorithm != "sha256"@ {
                Err("完整性算法必须为 sha256"@)
            } else if !covers_exactly(files, entries) {
                Err("integrity.json 必须完整且仅覆盖主题内容文件"@)
            } else if first_fault(files, entries) is Some {
                Err(first_fault(files, entries)->0)
            } else {
                match file_lookup(files, SIGNATURE_FILE@) {
                    None => Err("主题包缺少 signature.ed25519"@),
                    Some(signature) => if signature.len() != 64 {
                        Err("Ed25519 签名必须是 64 字节"@)
                    } else if !ed25519_verify_strict(key, source, signature) {
                        Err("主题平台签名验证失败"@)
                    } else {
                        Ok(())
                    },
                }
            },
        },
    }
}

/// The index as plain values.
pub open spec fn index_view(index: Result<IntegrityIndex, String>) -> Result<
    (Seq<char>, Seq<(Seq<char>, Seq<char>)>),
    Seq<char>,
> {
    match index {
        Ok(ix) => Ok((ix.algorithm@, index_views(ix.files@))),
        Err(e) => Err(e@),
    }
}

/// Index of the first file named `path`.
fn find_file(files: &Vec<(String, Vec<u8>)>, path: &str) -> (r: Option<usize>)
    ensures
        match r {
            Some(i) => i < files.len() && file_lookup(file_views(files@), path@) == Some(
                files@[i as int].1@,
            ) && files@[i as int].0@ == path@,
            None => file_lookup(file_views(files@), path@) is None,
        },
        r is None ==> forall|j: int| 0 <= j < files.len() ==> (#[trigger] files@[j]).0@ != path@,
{
    let ghost fs = file_views(files@);
    let mut i: usize = 0;
    assert(fs.skip(0) =~= fs);
    while i < files.len()
        invariant
            i <= files.len(),
            fs == file_views(files@),
            file_lookup(fs, path@) == file_lookup(fs.skip(i as int), path@),
            forall|j: int| 0 <= j < i ==> (#[trigger] files@[j]).0@ != path@,
        decreases files.len() - i,
    {
        assert(fs.skip(i as int)[0] == fs[i as int]);
        if str_eq(files[i].0.as_str(), path) {
            return Some(i);
        }
        assert(fs.skip(i as int).drop_first() =~= fs.skip(i + 1));
        i = i + 1;
    }
    None
}

/// Whether the index names `path`.
fn index_names(entries: &Vec<(String, String)>, path: &str) -> (r: bool)
    ensures
        r == indexed(index_views(entries@), path@),
{
    let ghost es = index_views(entries@);
    let mut j: usize = 0;
    while j < entries.len()
        invariant
            j <= entries.len(),
            es == index_views(entries@),
            forall|k: int| 0 <= k < j ==> (#[trigger] es[k]).0 != path@,
        decreases entries.len() - j,
    {
        assert(es[j as int].0 == entries@[j as int].0@);
        if str_eq(entries[j].0.as_str(), path) {
            return true;
        }
        j = j + 1;
    }
    false
}

fn is_control(path: &str) -> (r: bool)
    ensures
        r == is_control_file(path@),
{
    str_eq(path, INTEGRITY_FILE) || str_eq(path, SIGNATURE_FILE)
}

/// Whether some content file is named `path`.
fn find_content_file(files: &Vec<(String, Vec<u8>)>, path: &str) -> (r: bool)
    ensures
        r == content_file(file_views(files@), path@),
{
    let ghost fs = file_views(files@);
    if is_control(path) {
        return false;
    }
    let mut i: usize = 0;
    while i < files.len()
        invariant
            i <= files.len(),
            fs == file_views(files@),
            !is_control_file(path@),
            forall|k: int| 0 <= k < i ==> (#[trigger] fs[k]).0 != path@,
        decreases files.len() - i,
    {
        assert(fs[i as int].0 == files@[i as int].0@);
        if str_eq(files[i].0.as_str(), path) {
            assert(fs.len() == files.len());
            assert(fs[i as int].0 == path@);
            return true;
        }
        i = i + 1;
    }
    false
}

/// Whether the index names exactly the content files.
fn check_coverage(files: &Vec<(String, Vec<u8>)>, entries: &Vec<(String, String)>) -> (r: bool)
    ensures
        r == covers_exactly(file_views(files@), index_views(entries@)),
{
    let ghost fs = file_views(files@);
    let ghost es = index_views(entries@);
    let mut i: usize = 0;
    while i < files.len()
        invariant
            i <= files.len(),
            fs == file_views(files@),
            es == index_views(entries@),
            forall|k: int|
                0 <= k < i && !is_control_file(#[trigger] fs[k].0) ==> indexed(es, fs[k].0),
        decreases files.len() - i,
    {
        assert(fs[i as int].0 == files@[i as int].0@);
        if !is_control(files[i].0.as_str()) && !index_names(entries, files[i].0.as_str()) {
            return false;
        }
        i = i + 1;
    }
    let mut j: usize = 0;
    while j < entries.len()
        invariant
            j <= entries.len(),
            fs == file_views(files@),
            es == index_views(entries@),
            forall|k: int|
                0 <= k < fs.len() && !is_control_file(#[trigger] fs[k].0) ==> indexed(es, fs[k].0),
            forall|k: int| 0 <= k < j ==> content_file(fs, (#[trigger] es[k]).0),
        decreases entries.len() - j,
    {
        assert(es[j as int].0 == entries@[j as int].0@);
        if !find_content_file(files, entries[j].0.as_str()) {
            return false;
        }
        j = j + 1;
    }
    true
}

} // verus!

verus! {

/// The fault of the first faulty index entry, in index order.
fn check_entries(files: &Vec<(String, Vec<u8>)>, entries: &Vec<(String, String)>) -> (r: Option<
    String,
>)
    ensures
        opt_str(r) == first_fault(file_views(files@), index_views(entries@)),
{
    let ghost fs = file_views(files@);
    let ghost es = index_views(entries@);
    let mut j: usize = 0;
    assert(es.skip(0) =~= es);
    while j < entries.len()
        invariant
            j <= entries.len(),
            fs == file_views(files@),
            es == index_views(entries@),
            first_fault(fs, es) == first_fault(fs, es.skip(j as int)),
        decreases entries.len() - j,
    {
        let path = entries[j].0.as_str();
        let expected = entries[j].1.as_str();
        assert(es.skip(j as int)[0] == es[j as int]);
        assert(es[j as int] == (path@, expected@));
        assert(es.skip(j as int).drop_first() =~= es.skip(j + 1));
        if !is_sha256(expected) {
            return Some(concat("完整性摘要格式无效：", path));
        }
        match find_file(files, path) {
            Some(i) => {
                let actual = sha256_hex(files[i].1.as_slice());
                if !str_eq(actual.as_str(), expected) {
                    return Some(concat("主题文件完整性校验失败：", path));
                }
            },
            None => {},
        }
        j = j + 1;
    }
    None
}

/// Checks a package against its integrity index and the platform
/// signature: `integrity.json` must be present and parse, use `sha256`,
/// name exactly the content files, and list their true digests; the
/// signature must be present, 64 bytes long, and a valid strict Ed25519
/// signature of `integrity.json` under `verifying_key`. `index` is what
/// parsing `integrity.json` gave.
pub fn verify_integrity_and_signature(
    files: &Vec<(String, Vec<u8>)>,
    index: Result<IntegrityIndex, String>,
    verifying_key: &Vec<u8>,
) -> (r: Result<(), ThemeError>)
    requires
        verifying_key@.len() == 32,
    ensures
        match r {
            Ok(()) => integrity_verdict(file_views(files@), index_view(index), verifying_key@)
                == Ok::<(), Seq<char>>(()),
            Err(e) => integrity_verdict(file_views(files@), index_view(index), verifying_key@)
                == Err::<(), Seq<char>>(e.0@),
        },
{
    let source_at = match find_file(files, INTEGRITY_FILE) {
        Some(i) => i,
        None => {
            return Err(theme_error("主题包缺少 integrity.json"));
        },
    };
    let index = match index {
        Ok(index) => index,
        Err(error) => {
            return Err(ThemeError(concat("integrity.json 无效：", error.as_str())));
        },
    };
    if !str_eq(index.algorithm.as_str(), "sha256") {
        return Err(theme_error("完整性算法必须为 sha256"));
    }
    if !check_coverage(files, &index.files) {
        return Err(theme_error("integrity.json 必须完整且仅覆盖主题内容文件"));
    }
    match check_entries(files, &index.files) {
        Some(fault) => {
            return Err(ThemeError(fault));
        },
        None => {},
    }
    let signature_at = match find_file(files, SIGNATURE_FILE) {
        Some(i) => i,
        None => {
            return Err(theme_error("主题包缺少 signature.ed25519"));
        },
    };
    if files[signature_at].1.len() != 64 {
        return Err(theme_error("Ed25519 签名必须是 64 字节"));
    }
    if !signature_verifies(
        verifying_key,
        files[source_at].1.as_slice(),
        files[signature_at].1.as_slice(),
    ) {
        return Err(theme_error("主题平台签名验证失败"));
    }
    Ok(())
}

} // verus!
