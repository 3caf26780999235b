use retheme::cache::{decrypt_online_cache, encrypt_online_cache, seal_online_cache};

const PACKAGE: &[u8] = b"PK\x03\x04 an online theme archive";

#[test]
fn online_theme_uses_device_encrypted_cache() {
    let key = Some(vec![9u8; 32]);
    let digest = "d".repeat(64);
    let stored = encrypt_online_cache(&key, &digest, PACKAGE).expect("cache");
    assert!(stored.starts_with(b"RTC1"));
    assert!(!stored.windows(PACKAGE.len()).any(|window| window == PACKAGE));
    assert_eq!(stored.len(), 4 + 24 + PACKAGE.len() + 16);
    let archive = decrypt_online_cache(&key, &digest, &stored).expect("device-bound cache loads");
    assert_eq!(archive, PACKAGE);
}

#[test]
fn cache_of_another_device_or_digest_does_not_open() {
    let digest = "a".repeat(64);
    let stored = encrypt_online_cache(&Some(vec![9u8; 32]), &digest, PACKAGE).expect("cache");
    assert_eq!(
        decrypt_online_cache(&Some(vec![10u8; 32]), &digest, &stored).expect_err("other key").to_string(),
        "在线主题缓存与当前设备不匹配或已损坏"
    );
    assert_eq!(
        decrypt_online_cache(&Some(vec![9u8; 32]), &"b".repeat(64), &stored)
            .expect_err("other digest")
            .to_string(),
        "在线主题缓存与当前设备不匹配或已损坏"
    );
    let mut tampered = stored.clone();
    let last = tampered.len() - 1;
    tampered[last] ^= 1;
    assert!(decrypt_online_cache(&Some(vec![9u8; 32]), &digest, &tampered).is_err());
}

#[test]
fn outdated_cache_files_are_refused_before_the_key_is_needed() {
    let message = "在线主题缓存格式已过期，请重新下载";
    assert_eq!(decrypt_online_cache(&None, "d", b"").expect_err("empty").to_string(), message);
    assert_eq!(decrypt_online_cache(&None, "d", &[0x52, 0x54, 0x43, 0x31]).expect_err("short").to_string(), message);
    let mut wrong_magic = vec![0u8; 40];
    wrong_magic[..4].copy_from_slice(b"RTC0");
    assert_eq!(decrypt_online_cache(&None, "d", &wrong_magic).expect_err("magic").to_string(), message);
    let mut exactly_header = vec![0u8; 28];
    exactly_header[..4].copy_from_slice(b"RTC1");
    assert_eq!(decrypt_online_cache(&None, "d", &exactly_header).expect_err("no body").to_string(), message);
    let mut current = vec![0u8; 29];
    current[..4].copy_from_slice(b"RTC1");
    assert_eq!(
        decrypt_online_cache(&None, "d", &current).expect_err("no key").to_string(),
        "当前设备无法读取在线主题缓存"
    );
    assert_eq!(
        decrypt_online_cache(&Some(vec![1u8; 31]), "d", &current).expect_err("bad key").to_string(),
        "在线主题缓存密钥无效"
    );
}

#[test]
fn encryption_needs_a_device_key() {
    assert_eq!(
        encrypt_online_cache(&None, "d", PACKAGE).expect_err("no key").to_string(),
        "当前设备无法保护在线主题缓存"
    );
    assert_eq!(
        encrypt_online_cache(&Some(vec![1u8; 16]), "d", PACKAGE).expect_err("bad key").to_string(),
        "在线主题缓存密钥无效"
    );
}

#[test]
fn sealing_with_a_given_nonce_is_deterministic() {
    let key = vec![3u8; 32];
    let nonce = vec![5u8; 24];
    let a = seal_online_cache(&key, "digest", PACKAGE, &nonce).expect("sealed");
    let b = seal_online_cache(&key, "digest", PACKAGE, &nonce).expect("sealed");
    assert_eq!(a, b);
    assert_eq!(&a[4..28], &nonce[..]);
    assert_eq!(
        decrypt_online_cache(&Some(key), "digest", &a).expect("opens"),
        PACKAGE
    );
}

#[test]
fn fresh_nonces_differ() {
    let key = Some(vec![9u8; 32]);
    let a = encrypt_online_cache(&key, "d", PACKAGE).expect("cache");
    let b = encrypt_online_cache(&key, "d", PACKAGE).expect("cache");
    assert_ne!(&a[4..28], &b[4..28]);
}
