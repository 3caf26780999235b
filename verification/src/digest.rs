//! Digests and signatures: SHA-256 in lowercase hex (`sha2`, `hex`) and
//! strict Ed25519 verification against the platform key (`ed25519-dalek`).

use vstd::prelude::*;

use vstd::utf8::encode_utf8;

use crate::error::{theme_error, ThemeError};
use crate::text::{chars_of, concat, is_hex_digit};

verus! {

/// SHA-256 of `bytes` (FIPS 180-4). Named, not restated.
pub uninterp spec fn sha256_of(bytes: Seq<u8>) -> Seq<u8>;

/// Whether the 64 bytes `signature` are a valid strict Ed25519 signature of
/// `message` under the 32-byte public key `key` (false when `key` is not a
/// valid public key). Named, not restated.
pub uninterp spec fn ed25519_verify_strict(key: Seq<u8>, message: Seq<u8>, signature: Seq<u8>) -> bool;

/// Whether the 32 bytes `key` are a valid compressed Ed25519 public key.
/// Named, not restated.
pub uninterp spec fn ed25519_key_valid(key: Seq<u8>) -> bool;

/// The text of `hex::FromHexError::InvalidHexCharacter` for the first byte
/// of `text`'s UTF-8 encoding that is not a hexadecimal digit: `Invalid
/// character `, that byte as a `char` written with `char`'s `Debug`, ` at
/// position ` and its index. Named, not restated: the `Debug` escaping of
/// `char` is std's.
pub uninterp spec fn hex_character_error(text: Seq<char>) -> Seq<char>;

/// The text of the error `hex::decode_to_slice` reports for `text` decoded
/// into 32 bytes: an odd number of bytes, then a length other than 64
/// bytes, then the first byte that is not a hexadecimal digit.
pub open spec fn hex_key_error(text: Seq<char>) -> Seq<char> {
    let n = encode_utf8(text).len();
    if n % 2 != 0 {
        "Odd number of digits"@
    } else if n != 64 {
        "Invalid string length"@
    } else {
        hex_character_error(text)
    }
}

/// The lowercase hexadecimal digit of `d` (0 to 15).
pub open spec fn hex_char(d: int) -> char {
    if d < 10 {
        (d + 48) as char
    } else {
        (d + 87) as char
    }
}

/// `bytes` in lowercase hexadecimal, two digits per byte, high nibble first.
pub open spec fn hex_lower(bytes: Seq<u8>) -> Seq<char>
    decreases bytes.len(),
{
    if bytes.len() == 0 {
        seq![]
    } else {
        hex_lower(bytes.drop_last()) + seq![
            hex_char((bytes.last() / 16) as int),
            hex_char((bytes.last() % 16) as int),
        ]
    }
}

/// ASCII lowercase of a hexadecimal digit.
pub open spec fn hex_digit_lower(c: char) -> char {
    if 'A' <= c <= 'F' {
        ((c as int) + 32) as char
    } else {
        c
    }
}

/// A SHA-256 digest in hexadecimal: 64 hexadecimal digits.
pub open spec fn is_sha256_text(s: Seq<char>) -> bool {
    s.len() == 64 && forall|i: int| 0 <= i < s.len() ==> is_hex_digit(#[trigger] s[i])
}

/// The lowercase hexadecimal SHA-256 of `source`.
pub open spec fn sha256_hex_of(source: Seq<u8>) -> Seq<char> {
    hex_lower(sha256_of(source))
}

/// Calls `sha2::Sha256::digest`. Claims the named SHA-256 of the bytes, and
/// that it is 32 bytes long (the output size of `Sha256`).
#[verifier::external_body]
fn sha256(source: &[u8]) -> (r: Vec<u8>)
    ensures
        r@ == sha256_of(source@),
        r@.len() == 32,
{
    <sha2::Sha256 as sha2::Digest>::digest(source).to_vec()
}

/// Calls `hex::encode`, which writes two lowercase hexadecimal digits per
/// byte, high nibble first.
#[verifier::external_body]
fn hex_encode(bytes: &[u8]) -> (r: String)
    ensures
        r@ == hex_lower(bytes@),
{
    hex::encode(bytes)
}

/// Calls `hex::decode_to_slice` into 32 bytes. Claims it succeeds exactly on
/// 64 hexadecimal digits (either case), giving the bytes whose lowercase
/// encoding is the lowercased text; otherwise the error's text: for an odd
/// byte count and for a byte count other than 64 the fixed messages, for a
/// bad character the named text.
#[verifier::external_body]
fn hex_decode_key(text: &str) -> (r: Result<Vec<u8>, String>)
    ensures
        r is Ok <==> is_sha256_text(text@),
        r matches Ok(v) ==> v@.len() == 32 && hex_lower(v@) == text@.map_values(
            |c: char| hex_digit_lower(c),
        ),
        r matches Err(e) ==> e@ == (if encode_utf8(text@).len() % 2 != 0 {
            "Odd number of digits"@
        } else if encode_utf8(text@).len() != 64 {
            "Invalid string length"@
        } else {
            hex_character_error(text@)
        }),
{
    let mut bytes = [0_u8; 32];
    hex::decode_to_slice(text, &mut bytes).map(|()| bytes.to_vec()).map_err(|error| error.to_string())
}

/// Calls `ed25519_dalek::VerifyingKey::try_from` on the bytes. Claims the
/// named validity of the key bytes.
#[verifier::external_body]
fn verifying_key_accepts(key: &Vec<u8>) -> (r: bool)
    requires
        key@.len() == 32,
    ensures
        r == ed25519_key_valid(key@),
{
    ed25519_dalek::VerifyingKey::try_from(key.as_slice()).is_ok()
}

/// Strict Ed25519 verification (`ed25519_dalek::VerifyingKey::verify_strict`
/// with the key from `VerifyingKey::try_from` and the signature from
/// `Signature::from_slice`). Claims the named outcome.
#[verifier::external_body]
pub(crate) fn signature_verifies(key: &Vec<u8>, message: &[u8], signature: &[u8]) -> (r: bool)
    requires
        key@.len() == 32,
        signature@.len() == 64,
    ensures
        r == ed25519_verify_strict(key@, message@, signature@),
{
    match (
        ed25519_dalek::VerifyingKey::try_from(key.as_slice()),
        ed25519_dalek::Signature::from_slice(signature),
    ) {
        (Ok(key), Ok(signature)) => key.verify_strict(message, &signature).is_ok(),
        _ => false,
    }
}

/// Lowercase hex encodings have two hexadecimal digits per byte.
pub proof fn lemma_hex_lower(bytes: Seq<u8>)
    ensures
        hex_lower(bytes).len() == 2 * bytes.len(),
        forall|i: int| 0 <= i < hex_lower(bytes).len() ==> is_hex_digit(#[trigger] hex_lower(bytes)[i]),
    decreases bytes.len(),
{
    if bytes.len() > 0 {
        lemma_hex_lower(bytes.drop_last());
        let prev = hex_lower(bytes.drop_last());
        let b = bytes.last();
        assert(0 <= b / 16 < 16);
        assert(0 <= b % 16 < 16);
        assert forall|i: int| 0 <= i < hex_lower(bytes).len() implies is_hex_digit(
            #[trigger] hex_lower(bytes)[i],
        ) by {
            if i < prev.len() {
                assert(hex_lower(bytes)[i] == prev[i]);
            }
        }
    }
}

/// SHA-256 of `source` in lowercase hexadecimal (`sha2` and `hex`).
pub fn sha256_hex(source: &[u8]) -> (r: String)
    ensures
        r@ == sha256_hex_of(source@),
        is_sha256_text(r@),
{
    let digest = sha256(source);
    let r = hex_encode(digest.as_slice());
    proof {
        lemma_hex_lower(digest@);
    }
    r
}

/// Whether `value` looks like a SHA-256 digest: 64 ASCII hexadecimal digits
/// (a string of 64 bytes that are all ASCII hexadecimal digits is exactly
/// such a string of 64 characters).
pub fn is_sha256(value: &str) -> (r: bool)
    ensures
        r == is_sha256_text(value@),
{
    let v = chars_of(value);
    if v.len() != 64 {
        return false;
    }
    let mut i: usize = 0;
    while i < v.len()
        invariant
            v@ == value@,
            i <= v.len(),
            forall|j: int| 0 <= j < i ==> is_hex_digit(#[trigger] v@[j]),
        decreases v.len() - i,
    {
        let c = v[i];
        if !(('0' <= c && c <= '9') || ('a' <= c && c <= 'f') || ('A' <= c && c <= 'F')) {
            return false;
        }
        i = i + 1;
    }
    true
}

/// `k` are the 32 bytes the hexadecimal text `text` spells (in either case).
pub open spec fn decodes_to(text: Seq<char>, k: Seq<u8>) -> bool {
    k.len() == 32 && hex_lower(k) == text.map_values(|c: char| hex_digit_lower(c))
}

/// Why the hexadecimal text `text` is not a platform key, if it is not one:
/// it must spell 32 bytes that are a valid Ed25519 public key.
pub open spec fn platform_key_error(text: Seq<char>) -> Option<Seq<char>> {
    if !is_sha256_text(text) {
        Some("内置平台公钥无效："@ + hex_key_error(text))
    } else if !(exists|k: Seq<u8>| #[trigger] decodes_to(text, k) && ed25519_key_valid(k)) {
        Some("内置平台公钥无效"@)
    } else {
        None
    }
}

/// The platform verifying key given as hexadecimal text: its 32 bytes, once
/// they are checked to be 64 hexadecimal digits and a valid Ed25519 key.
pub fn platform_verifying_key(public_key_hex: &str) -> (r: Result<Vec<u8>, ThemeError>)
    ensures
        match platform_key_error(public_key_hex@) {
            Some(m) => r matches Err(e) && e.0@ == m,
            None => r matches Ok(k) && decodes_to(public_key_hex@, k@) && ed25519_key_valid(k@),
        },
{
    let bytes = match hex_decode_key(public_key_hex) {
        Ok(bytes) => bytes,
        Err(error) => {
            return Err(ThemeError(concat("内置平台公钥无效：", error.as_str())));
        },
    };
    assert(decodes_to(public_key_hex@, bytes@));
    if verifying_key_accepts(&bytes) {
        Ok(bytes)
    } else {
        proof {
            assert forall|k: Seq<u8>| #[trigger] decodes_to(public_key_hex@, k) implies !ed25519_key_valid(
                k,
            ) by {
                lemma_hex_lower_injective(k, bytes@);
            }
        }
        Err(theme_error("内置平台公钥无效"))
    }
}

/// Equal lowercase encodings come from equal bytes.
pub proof fn lemma_hex_lower_injective(a: Seq<u8>, b: Seq<u8>)
    requires
        hex_lower(a) == hex_lower(b),
    ensures
        a == b,
    decreases a.len(),
{
    lemma_hex_lower(a);
    lemma_hex_lower(b);
    if a.len() > 0 {
        let n = hex_lower(a).len();
        let pa = hex_lower(a.drop_last());
        let pb = hex_lower(b.drop_last());
        lemma_hex_lower(a.drop_last());
        lemma_hex_lower(b.drop_last());
        assert(hex_lower(a)[n - 2] == hex_char((a.last() / 16) as int));
        assert(hex_lower(b)[n - 2] == hex_char((b.last() / 16) as int));
        assert(hex_lower(a)[n - 1] == hex_char((a.last() % 16) as int));
        assert(hex_lower(b)[n - 1] == hex_char((b.last() % 16) as int));
        assert(a.last() / 16 == b.last() / 16);
        assert(a.last() % 16 == b.last() % 16);
        assert(pa =~= hex_lower(a).subrange(0, n - 2));
        assert(pb =~= hex_lower(b).subrange(0, n - 2));
        lemma_hex_lower_injective(a.drop_last(), b.drop_last());
        assert(a =~= a.drop_last().push(a.last()));
        assert(b =~= b.drop_last().push(b.last()));
    }
}

} // verus!
