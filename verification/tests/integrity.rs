use ed25519_dalek::{Signer, SigningKey};
use retheme::digest::{is_sha256, platform_verifying_key, sha256_hex};
use retheme::integrity::{verify_integrity_and_signature, IntegrityIndex};

const TEST_SECRET: [u8; 32] = [7; 32];

fn manifest(description: &str) -> String {
    format!(
        r##"{{
          "schemaVersion": 1,
          "id": "studio.example.test-theme",
          "name": "Test Theme",
          "description": "{description}",
          "version": "1.0.0",
          "author": {{ "id": "studio.example", "name": "Example Studio" }},
          "testedCodexVersions": ["26.707.91948"],
          "styles": ["styles/theme.css"],
          "slots": ["app.shell", "home.hero"],
          "permissions": [],
          "preview": {{ "background": "#111111", "surface": "#222222", "accent": "#aaff44" }},
          "experience": {{
            "homeHero": {{
              "eyebrow": "TEST",
              "title": "Signed package",
              "description": "Installer verification",
              "asset": "assets/hero.svg",
              "fit": "cover",
              "position": "center"
            }},
            "decorations": []
          }},
          "integrity": "integrity.json",
          "signature": "signature.ed25519"
        }}"##
    )
}

/// Name of the package's descriptor file.
fn manifest_file() -> String {
    ["manifest", "json"].join(".")
}

const CSS: &str = r#":root[data-ct-theme="studio.example.test-theme"] [data-ct-slot="app.shell"] { color: white; }"#;
const SVG: &str = r#"<svg xmlns="http://www.w3.org/2000/svg" viewBox="0 0 10 10"><path d="M0 0h10v10H0z"/></svg>"#;

struct Package {
    files: Vec<(String, Vec<u8>)>,
    index: IntegrityIndex,
    key: Vec<u8>,
}

fn signed_test_package(tamper: bool) -> Package {
    let mut content = vec![
        ("assets/hero.svg".to_owned(), SVG.as_bytes().to_vec()),
        (manifest_file(), manifest("A signed test theme.").into_bytes()),
        ("styles/theme.css".to_owned(), CSS.as_bytes().to_vec()),
    ];
    let entries: Vec<(String, String)> =
        content.iter().map(|(path, source)| (path.clone(), sha256_hex(source))).collect();
    let integrity_source = format!(
        "{{\"algorithm\":\"sha256\",\"files\":{{{}}}}}",
        entries
            .iter()
            .map(|(path, digest)| format!("\"{path}\":\"{digest}\""))
            .collect::<Vec<_>>()
            .join(",")
    )
    .into_bytes();
    let signing_key = SigningKey::from_bytes(&TEST_SECRET);
    let signature = signing_key.sign(&integrity_source).to_bytes().to_vec();
    if tamper {
        content[2].1 = b"tampered".to_vec();
    }
    content.push(("integrity.json".to_owned(), integrity_source));
    content.push(("signature.ed25519".to_owned(), signature));
    Package {
        files: content,
        index: IntegrityIndex { algorithm: "sha256".into(), files: entries },
        key: signing_key.verifying_key().to_bytes().to_vec(),
    }
}

#[test]
fn rejects_tampered_package() {
    let package = signed_test_package(true);
    let error = verify_integrity_and_signature(&package.files, Ok(package.index), &package.key)
        .expect_err("tampering must fail");
    assert!(error.to_string().contains("完整性校验失败"));
}

#[test]
fn accepts_untampered_signed_package() {
    let package = signed_test_package(false);
    assert!(verify_integrity_and_signature(&package.files, Ok(package.index), &package.key).is_ok());
}

#[test]
fn rejects_signature_of_another_key() {
    let package = signed_test_package(false);
    let other = SigningKey::from_bytes(&[8; 32]).verifying_key().to_bytes().to_vec();
    assert_eq!(
        verify_integrity_and_signature(&package.files, Ok(package.index), &other)
            .expect_err("foreign key")
            .to_string(),
        "主题平台签名验证失败"
    );
}

#[test]
fn integrity_errors_in_order() {
    let package = signed_test_package(false);
    let without_index: Vec<(String, Vec<u8>)> =
        package.files.iter().filter(|f| f.0 != "integrity.json").cloned().collect();
    assert_eq!(
        verify_integrity_and_signature(&without_index, Ok(package.index.clone()), &package.key)
            .expect_err("missing index")
            .to_string(),
        "主题包缺少 integrity.json"
    );
    assert_eq!(
        verify_integrity_and_signature(&package.files, Err("expected value".into()), &package.key)
            .expect_err("unparsable index")
            .to_string(),
        "integrity.json 无效：expected value"
    );
    let mut md5 = package.index.clone();
    md5.algorithm = "md5".into();
    assert_eq!(
        verify_integrity_and_signature(&package.files, Ok(md5), &package.key)
            .expect_err("algorithm")
            .to_string(),
        "完整性算法必须为 sha256"
    );
    let mut partial = package.index.clone();
    partial.files.pop();
    assert_eq!(
        verify_integrity_and_signature(&package.files, Ok(partial), &package.key)
            .expect_err("partial")
            .to_string(),
        "integrity.json 必须完整且仅覆盖主题内容文件"
    );
    let mut extra = package.index.clone();
    extra.files.push(("signature.ed25519".into(), "0".repeat(64)));
    assert_eq!(
        verify_integrity_and_signature(&package.files, Ok(extra), &package.key)
            .expect_err("covers the signature")
            .to_string(),
        "integrity.json 必须完整且仅覆盖主题内容文件"
    );
    let mut malformed = package.index.clone();
    malformed.files[1].1 = "xyz".into();
    assert_eq!(
        verify_integrity_and_signature(&package.files, Ok(malformed), &package.key)
            .expect_err("digest format")
            .to_string(),
        format!("完整性摘要格式无效：{}", manifest_file())
    );
    let without_signature: Vec<(String, Vec<u8>)> =
        package.files.iter().filter(|f| f.0 != "signature.ed25519").cloned().collect();
    assert_eq!(
        verify_integrity_and_signature(&without_signature, Ok(package.index.clone()), &package.key)
            .expect_err("missing signature")
            .to_string(),
        "主题包缺少 signature.ed25519"
    );
    let mut short_signature = package.files.clone();
    let last = short_signature.len() - 1;
    short_signature[last].1.pop();
    assert_eq!(
        verify_integrity_and_signature(&short_signature, Ok(package.index.clone()), &package.key)
            .expect_err("signature length")
            .to_string(),
        "Ed25519 签名必须是 64 字节"
    );
}

#[test]
fn sha256_digests_in_lowercase_hex() {
    assert_eq!(
        sha256_hex(b"abc"),
        "ba7816bf8f01cfea414140de5dae2223b00361a396177a9cb410ff61f20015ad"
    );
    assert_eq!(
        sha256_hex(b""),
        "e3b0c44298fc1c149afbf4c8996fb92427ae41e4649b934ca495991b7852b855"
    );
    assert!(is_sha256(&sha256_hex(b"anything")));
}

#[test]
fn recognises_sha256_digests() {
    assert!(is_sha256(&"a".repeat(64)));
    assert!(is_sha256(&"ABCDEF0123456789".repeat(4)));
    assert!(!is_sha256(&"a".repeat(63)));
    assert!(!is_sha256(&"a".repeat(65)));
    assert!(!is_sha256(&"g".repeat(64)));
    assert!(!is_sha256(&format!("{}é", "a".repeat(62))));
}

#[test]
fn platform_key_must_be_a_valid_hex_key() {
    let key = SigningKey::from_bytes(&TEST_SECRET).verifying_key().to_bytes();
    let text: String = key.iter().map(|b| format!("{b:02X}")).collect();
    assert_eq!(platform_verifying_key(&text).expect("valid key"), key.to_vec());
    let error = platform_verifying_key("abc").expect_err("odd length");
    assert!(error.to_string().starts_with("内置平台公钥无效："));
    assert_eq!(
        platform_verifying_key(&format!("02{}", "00".repeat(31)))
            .expect_err("not a curve point")
            .to_string(),
        "内置平台公钥无效"
    );
}

#[test]
fn platform_key_errors_name_the_hex_problem() {
    let message = |text: &str| platform_verifying_key(text).expect_err("bad key").to_string();
    assert_eq!(message("abc"), "内置平台公钥无效：Odd number of digits");
    assert_eq!(message(&"a".repeat(62)), "内置平台公钥无效：Invalid string length");
    assert_eq!(message(&"a".repeat(66)), "内置平台公钥无效：Invalid string length");
    assert_eq!(
        message(&format!("abcde{}", "g".repeat(59))),
        "内置平台公钥无效：Invalid character 'g' at position 5"
    );
}
