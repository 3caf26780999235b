//! The device-bound cache of an installed online theme: the archive
//! encrypted with XChaCha20-Poly1305 under the device cache key, with the
//! archive digest as associated data, stored as `RTC1`, the 24-byte nonce,
//! then the ciphertext.

use vstd::prelude::*;
use vstd::utf8::encode_utf8;

use crate::error::{theme_error, ThemeError};

verus! {

/// Length of an XChaCha20 nonce.
pub const NONCE_LEN: usize = 24;

/// Length of a cache key.
pub const CACHE_KEY_LEN: usize = 32;

/// The XChaCha20-Poly1305 ciphertext (with its 16-byte tag appended) of
/// `message` under `key` and `nonce` with associated data `aad`. Named, not
/// restated.
pub uninterp spec fn xchacha_seal(key: Seq<u8>, nonce: Seq<u8>, message: Seq<u8>, aad: Seq<u8>) -> Seq<
    u8,
>;

/// What XChaCha20-Poly1305 decryption of `ciphertext` under `key` and
/// `nonce` with associated data `aad` gives: the message, or `None` when the
/// tag does not authenticate. Named, not restated.
pub uninterp spec fn xchacha_open(
    key: Seq<u8>,
    nonce: Seq<u8>,
    ciphertext: Seq<u8>,
    aad: Seq<u8>,
) -> Option<Seq<u8>>;

/// Messages the cipher accepts: fewer than `u32::MAX` 64-byte blocks.
pub open spec fn sealable(message: Seq<u8>) -> bool {
    message.len() / 64 < 0xffff_ffff
}

/// The magic bytes `RTC1` that open every cache file.
pub open spec fn cache_magic() -> Seq<u8> {
    seq![0x52u8, 0x54u8, 0x43u8, 0x31u8]
}

/// A cache file: the magic, the nonce, the ciphertext.
pub open spec fn cache_file(nonce: Seq<u8>, ciphertext: Seq<u8>) -> Seq<u8> {
    cache_magic() + nonce + ciphertext
}

/// `stored` is the cache file of `message` sealed under `key` and `nonce`
/// with associated data `aad`, as `seal_online_cache` writes it.
pub open spec fn sealed_cache(
    stored: Seq<u8>,
    key: Seq<u8>,
    nonce: Seq<u8>,
    message: Seq<u8>,
    aad: Seq<u8>,
) -> bool {
    &&& nonce.len() == 24
    &&& sealable(message)
    &&& xchacha_seal(key, nonce, message, aad).len() == message.len() + 16
    &&& stored == cache_file(nonce, xchacha_seal(key, nonce, message, aad))
}

/// What opening the cache file `stored` of the archive with digest `digest`
/// gives under the device key `cache_key`: the archive, or the refusal.
pub open spec fn cache_opening(cache_key: Option<Seq<u8>>, digest: Seq<char>, stored: Seq<u8>) -> Result<
    Seq<u8>,
    Seq<char>,
> {
    if stored.len() <= 28 || stored.subrange(0, 4) != cache_magic() {
        Err("在线主题缓存格式已过期，请重新下载"@)
    } else {
        match cache_key {
            None => Err("当前设备无法读取在线主题缓存"@),
            Some(k) => if k.len() != 32 {
                Err("在线主题缓存密钥无效"@)
            } else {
                match xchacha_open(
                    k,
                    stored.subrange(4, 28),
                    stored.subrange(28, stored.len() as int),
                    encode_utf8(digest),
                ) {
                    Some(m) => Ok(m),
                    None => Err("在线主题缓存与当前设备不匹配或已损坏"@),
                }
            },
        }
    }
}

/// A byte result as plain values.
pub open spec fn bytes_result(r: Result<Vec<u8>, ThemeError>) -> Result<Seq<u8>, Seq<char>> {
    match r {
        Ok(v) => Ok(v@),
        Err(e) => Err(e.0@),
    }
}

/// Optional bytes as plain values.
pub open spec fn opt_bytes(o: Option<Vec<u8>>) -> Option<Seq<u8>> {
    match o {
        Some(v) => Some(v@),
        None => None,
    }
}

/// Calls `XChaCha20Poly1305::new_from_slice` and `Aead::encrypt`. Claims
/// that encryption fails exactly on messages of `u32::MAX` blocks or more,
/// and otherwise gives the named ciphertext, 16 bytes (the tag) longer than
/// the message.
#[verifier::external_body]
fn xchacha_encrypt(key: &[u8], nonce: &[u8], message: &[u8], aad: &[u8]) -> (r: Option<Vec<u8>>)
    requires
        key@.len() == 32,
        nonce@.len() == 24,
    ensures
        r is Some <==> sealable(message@),
        r matches Some(c) ==> c@ == xchacha_seal(key@, nonce@, message@, aad@) && c@.len()
            == message@.len() + 16,
{
    let cipher = <chacha20poly1305::XChaCha20Poly1305 as chacha20poly1305::KeyInit>::new_from_slice(key).ok()?;
    chacha20poly1305::aead::Aead::encrypt(
        &cipher,
        chacha20poly1305::XNonce::from_slice(nonce),
        chacha20poly1305::aead::Payload { msg: message, aad },
    ).ok()
}

/// Calls `XChaCha20Poly1305::new_from_slice` and `Aead::decrypt`. Claims
/// the named outcome, and that a ciphertext made by `xchacha_encrypt` under
/// the same key, nonce and associated data decrypts to its message.
#[verifier::external_body]
fn xchacha_decrypt(key: &[u8], nonce: &[u8], ciphertext: &[u8], aad: &[u8]) -> (r: Option<Vec<u8>>)
    requires
        key@.len() == 32,
        nonce@.len() == 24,
    ensures
        opt_bytes(r) == xchacha_open(key@, nonce@, ciphertext@, aad@),
        forall|m: Seq<u8>|
            sealable(m) && #[trigger] xchacha_seal(key@, nonce@, m, aad@) == ciphertext@ ==> opt_bytes(r)
                == Some(m),
{
    let cipher = <chacha20poly1305::XChaCha20Poly1305 as chacha20poly1305::KeyInit>::new_from_slice(key).ok()?;
    chacha20poly1305::aead::Aead::decrypt(
        &cipher,
        chacha20poly1305::XNonce::from_slice(nonce),
        chacha20poly1305::aead::Payload { msg: ciphertext, aad },
    ).ok()
}

/// Calls `rand_core::OsRng::try_fill_bytes` on 24 bytes: a fresh random
/// nonce, or `None` when the operating system's generator fails. Claims only
/// the length.
#[verifier::external_body]
fn fresh_nonce() -> (r: Option<Vec<u8>>)
    ensures
        r matches Some(n) ==> n@.len() == 24,
{
    let mut nonce = [0_u8; 24];
    rand_core::RngCore::try_fill_bytes(&mut rand_core::OsRng, &mut nonce).ok()?;
    Some(nonce.to_vec())
}

/// The magic bytes.
fn magic_bytes() -> (r: Vec<u8>)
    ensures
        r@ == cache_magic(),
{
    let r: Vec<u8> = vec![0x52u8, 0x54u8, 0x43u8, 0x31u8];
    assert(r@ =~= cache_magic());
    r
}

/// `a` followed by `b`.
fn append_bytes(a: &mut Vec<u8>, b: &[u8])
    ensures
        final(a)@ == old(a)@ + b@,
{
    let mut i: usize = 0;
    let ghost start = a@;
    while i < b.len()
        invariant
            i <= b.len(),
            a@ == start + b@.subrange(0, i as int),
        decreases b.len() - i,
    {
        a.push(b[i]);
        i = i + 1;
        assert(a@ =~= start + b@.subrange(0, i as int));
    }
    assert(b@.subrange(0, b@.len() as int) =~= b@);
}

/// Encrypts an archive for the cache with the given nonce.
pub fn seal_online_cache(key: &Vec<u8>, digest: &str, source: &[u8], nonce: &Vec<u8>) -> (r: Result<
    Vec<u8>,
    ThemeError,
>)
    requires
        key@.len() == 32,
        nonce@.len() == 24,
    ensures
        sealable(source@) ==> (r matches Ok(stored) && sealed_cache(
            stored@,
            key@,
            nonce@,
            source@,
            encode_utf8(digest@),
        )),
        !sealable(source@) ==> (r matches Err(e) && e.0@ == "无法加密在线主题缓存"@),
{
    let aad = digest.as_bytes();
    let ciphertext = match xchacha_encrypt(key.as_slice(), nonce.as_slice(), source, aad) {
        Some(c) => c,
        None => {
            return Err(theme_error("无法加密在线主题缓存"));
        },
    };
    let mut stored = magic_bytes();
    append_bytes(&mut stored, nonce.as_slice());
    append_bytes(&mut stored, ciphertext.as_slice());
    Ok(stored)
}

/// Encrypts an archive for the cache under a fresh random nonce. Fails when
/// the device has no cache key, when the key is not 32 bytes, or when no
/// nonce or ciphertext could be made.
pub fn encrypt_online_cache(cache_key: &Option<Vec<u8>>, digest: &str, source: &[u8]) -> (r: Result<
    Vec<u8>,
    ThemeError,
>)
    ensures
        cache_key is None ==> (r matches Err(e) && e.0@ == "当前设备无法保护在线主题缓存"@),
        cache_key matches Some(k) && k@.len() != 32 ==> (r matches Err(e) && e.0@
            == "在线主题缓存密钥无效"@),
        cache_key is Some && cache_key->0@.len() == 32 && r is Err ==> r->Err_0.0@
            == "无法加密在线主题缓存"@,
        r matches Ok(stored) ==> (cache_key matches Some(k) && exists|n: Seq<u8>|
            #[trigger] sealed_cache(stored@, k@, n, source@, encode_utf8(digest@))),
{
    let key = match cache_key {
        Some(k) => k,
        None => {
            return Err(theme_error("当前设备无法保护在线主题缓存"));
        },
    };
    if key.len() != CACHE_KEY_LEN {
        return Err(theme_error("在线主题缓存密钥无效"));
    }
    let nonce = match fresh_nonce() {
        Some(n) => n,
        None => {
            return Err(theme_error("无法加密在线主题缓存"));
        },
    };
    seal_online_cache(key, digest, source, &nonce)
}

/// Decrypts a cache file. Fails when it is not a current cache file, when
/// the device has no cache key or a key of the wrong length, and when the
/// ciphertext does not authenticate under this device's key and `digest`.
pub fn decrypt_online_cache(cache_key: &Option<Vec<u8>>, digest: &str, stored: &[u8]) -> (r: Result<
    Vec<u8>,
    ThemeError,
>)
    ensures
        bytes_result(r) == cache_opening(opt_bytes(*cache_key), digest@, stored@),
        forall|k: Vec<u8>, n: Seq<u8>, m: Seq<u8>|
            cache_key == Some(k) && k@.len() == 32 && #[trigger] sealed_cache(
                stored@,
                k@,
                n,
                m,
                encode_utf8(digest@),
            ) ==> (r matches Ok(v) && v@ == m),
{
    let magic = magic_bytes();
    if stored.len() <= 28 || stored[0] != magic[0] || stored[1] != magic[1] || stored[2] != magic[2]
        || stored[3] != magic[3] {
        proof {
            if stored@.len() > 28 {
                assert(stored@.subrange(0, 4) != cache_magic()) by {
                    if stored@.subrange(0, 4) == cache_magic() {
                        assert(stored@.subrange(0, 4)[0] == stored@[0]);
                        assert(stored@.subrange(0, 4)[1] == stored@[1]);
                        assert(stored@.subrange(0, 4)[2] == stored@[2]);
                        assert(stored@.subrange(0, 4)[3] == stored@[3]);
                    }
                }
            }
            lemma_cache_file_shape(stored@, digest@);
        }
        return Err(theme_error("在线主题缓存格式已过期，请重新下载"));
    }
    proof {
        assert(stored@.subrange(0, 4) =~= cache_magic());
    }
    let key = match cache_key {
        Some(k) => k,
        None => {
            return Err(theme_error("当前设备无法读取在线主题缓存"));
        },
    };
    if key.len() != CACHE_KEY_LEN {
        return Err(theme_error("在线主题缓存密钥无效"));
    }
    let nonce = vstd::slice::slice_subrange(stored, 4, 28);
    let ciphertext = vstd::slice::slice_subrange(stored, 28, stored.len());
    let aad = digest.as_bytes();
    proof {
        assert forall|k2: Vec<u8>, n: Seq<u8>, m: Seq<u8>|
            cache_key == Some(k2) && k2@.len() == 32 && #[trigger] sealed_cache(
                stored@,
                k2@,
                n,
                m,
                encode_utf8(digest@),
            ) implies n == nonce@ && xchacha_seal(key@, nonce@, m, aad@) == ciphertext@ by {
            let c = xchacha_seal(k2@, n, m, encode_utf8(digest@));
            assert(stored@.subrange(4, 28) =~= n);
            assert(stored@.subrange(28, stored@.len() as int) =~= c);
        }
    }
    match xchacha_decrypt(key.as_slice(), nonce, ciphertext, aad) {
        Some(m) => Ok(m),
        None => Err(theme_error("在线主题缓存与当前设备不匹配或已损坏")),
    }
}

/// A stored cache file whose header is not current cannot have been made
/// by `seal_online_cache`.
proof fn lemma_cache_file_shape(stored: Seq<u8>, digest: Seq<char>)
    requires
        stored.len() <= 28 || stored.subrange(0, 4) != cache_magic(),
    ensures
        forall|k: Vec<u8>, n: Seq<u8>, m: Seq<u8>|
            !(#[trigger] sealed_cache(stored, k@, n, m, encode_utf8(digest))),
{
    assert forall|k: Vec<u8>, n: Seq<u8>, m: Seq<u8>|
        !(#[trigger] sealed_cache(stored, k@, n, m, encode_utf8(digest))) by {
        let f = cache_file(n, xchacha_seal(k@, n, m, encode_utf8(digest)));
        if stored == f {
            assert(f.subrange(0, 4) =~= cache_magic());
        }
    }
}

} // verus!
