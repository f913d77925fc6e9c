//! The cryptographic and encoding primitives that the library calls, each with
//! what its crate documents about it.

use vstd::prelude::*;

use base64::Engine;
use rand::RngCore;
use ring::rand::SecureRandom;
use sha2::Digest;
use subtle::ConstantTimeEq;
use zeroize::Zeroize;

use crate::text;
use crate::text::{is_ascii_digit, is_url_safe};

verus! {

/// The SHA-256 digest of a byte string.
pub uninterp spec fn sha256(data: Seq<u8>) -> Seq<u8>;

/// Calls `sha2::Sha256::digest`: the digest has 32 bytes and depends on the data
/// alone.
#[verifier::external_body]
pub(crate) fn sha256_digest(data: &[u8]) -> (digest: Vec<u8>)
    ensures
        digest@ == sha256(data@),
        digest@.len() == 32,
{
    sha2::Sha256::digest(data).to_vec()
}

/// Calls `hex::encode`: two lower case hexadecimal digits for each byte. The length of
/// the input is bounded, because `encode` panics where the text is longer than a string
/// can be.
#[verifier::external_body]
pub(crate) fn hex_encode(bytes: &[u8]) -> (text: String)
    requires
        bytes@.len() <= usize::MAX / 4,
    ensures
        text@ == text::lower_hex(bytes@),
{
    hex::encode(bytes)
}

/// The value of a hexadecimal digit of either case.
pub open spec fn hex_value(c: char) -> int {
    if is_ascii_digit(c) {
        c as int - 48
    } else if 'a' <= c && c <= 'f' {
        c as int - 87
    } else {
        c as int - 55
    }
}

pub open spec fn is_hex_digit(c: char) -> bool {
    is_ascii_digit(c) || ('a' <= c && c <= 'f') || ('A' <= c && c <= 'F')
}

/// An even number of hexadecimal digits.
pub open spec fn is_hex(text: Seq<char>) -> bool {
    text.len() % 2 == 0 && forall|i: int| 0 <= i < text.len() ==> is_hex_digit(#[trigger] text[i])
}

/// The bytes that hexadecimal digits spell, two digits each.
pub open spec fn hex_bytes(text: Seq<char>) -> Seq<u8> {
    Seq::new(
        text.len() / 2,
        |i: int| (16 * hex_value(text[2 * i]) + hex_value(text[2 * i + 1])) as u8,
    )
}

/// Calls `hex::decode`, which accepts an even number of hexadecimal digits of
/// either case and nothing else.
#[verifier::external_body]
pub(crate) fn hex_decode(text: &str) -> (bytes: Option<Vec<u8>>)
    ensures
        bytes is Some <==> is_hex(text@),
        bytes matches Some(decoded) ==> decoded@ == hex_bytes(text@),
{
    hex::decode(text).ok()
}

/// The URL-safe Base64 text of a byte string, without padding.
pub uninterp spec fn base64_url_text(bytes: Seq<u8>) -> Seq<char>;

/// What a URL-safe Base64 text without padding spells, if it is one.
pub uninterp spec fn base64_url_bytes(text: Seq<char>) -> Option<Seq<u8>>;

/// Calls `base64::engine::general_purpose::URL_SAFE_NO_PAD.encode`: the text is
/// ASCII and of the URL-safe alphabet, takes four characters for three bytes, rounded
/// up, and decodes to the bytes that were encoded. The length of the input is bounded,
/// because `encode` panics where the text is longer than a string can be.
#[verifier::external_body]
pub(crate) fn base64_url_encode(bytes: &[u8]) -> (text: String)
    requires
        bytes@.len() <= usize::MAX / 4,
    ensures
        text@ == base64_url_text(bytes@),
        text@.len() == (4 * bytes@.len() + 2) / 3,
        vstd::utf8::is_ascii_chars(text@),
        forall|i: int| 0 <= i < text@.len() ==> is_url_safe(#[trigger] text@[i]),
        base64_url_bytes(text@) == Some(bytes@),
{
    base64::engine::general_purpose::URL_SAFE_NO_PAD.encode(bytes)
}

/// Calls `base64::engine::general_purpose::URL_SAFE_NO_PAD.decode`. It takes the one
/// spelling that `encode` gives: padding and leftover bits are refused.
#[verifier::external_body]
pub(crate) fn base64_url_decode(text: &str) -> (bytes: Option<Vec<u8>>)
    ensures
        match bytes {
            Some(decoded) => base64_url_bytes(text@) == Some(decoded@) && base64_url_text(decoded@)
                == text@,
            None => base64_url_bytes(text@) is None,
        },
{
    base64::engine::general_purpose::URL_SAFE_NO_PAD.decode(text).ok()
}

/// The Base64 text of a byte string, with padding.
pub uninterp spec fn base64_text(bytes: Seq<u8>) -> Seq<char>;

/// What a Base64 text with padding spells, if it is one.
pub uninterp spec fn base64_bytes(text: Seq<char>) -> Option<Seq<u8>>;

/// Calls `base64::engine::general_purpose::STANDARD.encode`: the text is ASCII,
/// takes four characters for each three bytes begun, and decodes to the bytes that
/// were encoded. The length of the input is bounded, because `encode` panics where the
/// text is longer than a string can be.
#[verifier::external_body]
pub(crate) fn base64_encode(bytes: &[u8]) -> (text: String)
    requires
        bytes@.len() <= usize::MAX / 4,
    ensures
        text@ == base64_text(bytes@),
        text@.len() == 4 * ((bytes@.len() + 2) / 3),
        vstd::utf8::is_ascii_chars(text@),
        base64_bytes(text@) == Some(bytes@),
{
    base64::engine::general_purpose::STANDARD.encode(bytes)
}

/// Calls `base64::engine::general_purpose::STANDARD.decode`.
#[verifier::external_body]
pub(crate) fn base64_decode(text: &str) -> (bytes: Option<Vec<u8>>)
    ensures
        match bytes {
            Some(decoded) => base64_bytes(text@) == Some(decoded@),
            None => base64_bytes(text@) is None,
        },
{
    base64::engine::general_purpose::STANDARD.decode(text).ok()
}

/// How many bytes the SHA-256 of `ring` is given here at most. It counts bits in 64 bits,
/// and panics where an input, with a block of the key before it, has more.
pub open spec fn fits_sha256(data: Seq<u8>) -> bool {
    data.len() <= 0x1fff_ffff_ffff_ff00
}

/// 32 bytes of HKDF output (RFC 5869, with SHA-256) for a salt, a secret and an
/// info string.
pub uninterp spec fn hkdf_sha256(salt: Seq<u8>, secret: Seq<u8>, info: Seq<u8>) -> Seq<u8>;

/// Calls `ring::hkdf::Salt::extract`, `Prk::expand` and `Okm::fill` for SHA-256 and
/// 32 bytes of output. `expand` and `fill` fail only on an output longer than 255
/// digests or on a buffer of another length, so this never fails.
#[verifier::external_body]
pub(crate) fn hkdf_sha256_32(salt: &[u8], secret: &[u8], info: &[u8]) -> (derived: Option<Vec<u8>>)
    requires
        fits_sha256(salt@),
        fits_sha256(secret@),
        fits_sha256(info@),
    ensures
        derived is Some,
        derived matches Some(bytes) ==> bytes@ == hkdf_sha256(salt@, secret@, info@),
        derived matches Some(bytes) ==> bytes@.len() == 32,
{
    let mut key = vec![0u8; 32];
    ring::hkdf::Salt::new(ring::hkdf::HKDF_SHA256, salt)
        .extract(secret)
        .expand(&[info], ring::hkdf::HKDF_SHA256)
        .and_then(|okm| okm.fill(&mut key))
        .ok()?;
    Some(key)
}

/// The HMAC-SHA-256 tag of a message under a key.
pub uninterp spec fn hmac_sha256(key: Seq<u8>, message: Seq<u8>) -> Seq<u8>;

/// Calls `ring::hmac::sign` with `HMAC_SHA256`: the tag has 32 bytes.
#[verifier::external_body]
pub(crate) fn hmac_sha256_sign(key: &[u8], message: &[u8]) -> (tag: Vec<u8>)
    requires
        fits_sha256(key@),
        fits_sha256(message@),
    ensures
        tag@ == hmac_sha256(key@, message@),
        tag@.len() == 32,
{
    ring::hmac::sign(&ring::hmac::Key::new(ring::hmac::HMAC_SHA256, key), message).as_ref().to_vec()
}

/// The AES-256-GCM ciphertext of a plaintext, followed by its tag.
pub uninterp spec fn aes_256_gcm_sealed(
    key: Seq<u8>,
    nonce: Seq<u8>,
    aad: Seq<u8>,
    plaintext: Seq<u8>,
) -> Seq<u8>;

/// The plaintext of an AES-256-GCM ciphertext followed by its tag, if the tag is
/// the right one for the key, the nonce and the associated data.
pub uninterp spec fn aes_256_gcm_opened(
    key: Seq<u8>,
    nonce: Seq<u8>,
    aad: Seq<u8>,
    sealed: Seq<u8>,
) -> Option<Seq<u8>>;

/// Calls `ring::aead::LessSafeKey::seal_in_place_separate_tag` with `AES_256_GCM`
/// and puts the 16-byte tag behind the ciphertext, which is as long as the
/// plaintext. The call fails only on a plaintext longer than the counter of GCM
/// allows, or on associated data whose length in bits does not fit in 64 bits.
/// What is sealed opens again under the same key, nonce and associated data.
#[verifier::external_body]
pub(crate) fn aes_256_gcm_seal(
    key: &[u8],
    nonce: [u8; 12],
    aad: &[u8],
    plaintext: &[u8],
) -> (sealed: Option<Vec<u8>>)
    requires
        key@.len() == 32,
    ensures
        plaintext@.len() <= 0x7fff_ffff && aad@.len() <= 0x7fff_ffff ==> sealed is Some,
        sealed matches Some(bytes) ==> bytes@ == aes_256_gcm_sealed(
            key@,
            nonce@,
            aad@,
            plaintext@,
        ) && bytes@.len() == plaintext@.len() + 16 && aes_256_gcm_opened(
            key@,
            nonce@,
            aad@,
            bytes@,
        ) == Some(plaintext@),
{
    let unbound = ring::aead::UnboundKey::new(&ring::aead::AES_256_GCM, key).ok()?;
    let mut sealed = plaintext.to_vec();
    let tag = ring::aead::LessSafeKey::new(unbound)
        .seal_in_place_separate_tag(
            ring::aead::Nonce::assume_unique_for_key(nonce),
            ring::aead::Aad::from(aad),
            &mut sealed,
        )
        .ok()?;
    sealed.extend_from_slice(tag.as_ref());
    Some(sealed)
}

/// Calls `ring::aead::LessSafeKey::open_in_place` with `AES_256_GCM`.
#[verifier::external_body]
pub(crate) fn aes_256_gcm_open(
    key: &[u8],
    nonce: [u8; 12],
    aad: &[u8],
    sealed: &[u8],
) -> (plaintext: Option<Vec<u8>>)
    requires
        key@.len() == 32,
    ensures
        match plaintext {
            Some(bytes) => aes_256_gcm_opened(key@, nonce@, aad@, sealed@) == Some(bytes@),
            None => aes_256_gcm_opened(key@, nonce@, aad@, sealed@) is None,
        },
{
    let unbound = ring::aead::UnboundKey::new(&ring::aead::AES_256_GCM, key).ok()?;
    let mut buffer = sealed.to_vec();
    let opened = ring::aead::LessSafeKey::new(unbound)
        .open_in_place(
            ring::aead::Nonce::assume_unique_for_key(nonce),
            ring::aead::Aad::from(aad),
            &mut buffer,
        )
        .ok()?
        .to_vec();
    buffer.zeroize();
    Some(opened)
}

/// Calls `ring::rand::SystemRandom::fill` for a 12-byte nonce. Nothing is known of
/// the bytes; `None` means that the system gave none.
#[verifier::external_body]
pub(crate) fn random_nonce() -> (nonce: Option<[u8; 12]>) {
    let mut nonce = [0u8; 12];
    ring::rand::SystemRandom::new().fill(&mut nonce).ok()?;
    Some(nonce)
}

/// Calls `subtle::ConstantTimeEq::ct_eq` on two byte slices, which compares them
/// without an early exit; slices of different lengths are not equal.
#[verifier::external_body]
pub(crate) fn constant_time_eq(left: &[u8], right: &[u8]) -> (equal: bool)
    ensures
        equal == (left@ == right@),
{
    left.ct_eq(right).unwrap_u8() == 1
}

/// Calls `zeroize::Zeroize::zeroize` on a byte vector, which overwrites it and
/// leaves it empty.
#[verifier::external_body]
pub(crate) fn wipe_bytes(bytes: &mut Vec<u8>)
    ensures
        final(bytes)@.len() == 0,
{
    bytes.zeroize();
}

/// Calls `zeroize::Zeroize::zeroize` on a string, which overwrites it and leaves it
/// empty.
#[verifier::external_body]
pub(crate) fn wipe_text(text: &mut String)
    ensures
        final(text)@.len() == 0,
{
    text.zeroize();
}

/// Calls `try_fill_bytes` of `rand::rngs::OsRng`, which fills the whole buffer from the
/// random number generator of the system. Nothing is known of the bytes but how many
/// there are; `None` means that the system gave none. The length is bounded, because no
/// buffer takes up more than half of what can be addressed.
#[verifier::external_body]
pub(crate) fn random_bytes(length: usize) -> (bytes: Option<Vec<u8>>)
    requires
        length <= usize::MAX / 4,
    ensures
        bytes matches Some(random) ==> random@.len() == length,
{
    let mut bytes = vec![0u8; length];
    rand::rngs::OsRng.try_fill_bytes(&mut bytes).ok()?;
    Some(bytes)
}

/// 32 bytes that are the encoding of a point of the curve of Ed25519.
pub uninterp spec fn ed25519_point(key: Seq<u8>) -> bool;

/// Calls `ed25519_dalek::VerifyingKey::from_bytes`, which accepts the bytes that
/// decompress to a point of the curve and no others.
#[verifier::external_body]
pub(crate) fn ed25519_key_is_valid(key: &[u8; 32]) -> (valid: bool)
    ensures
        valid == ed25519_point(key@),
{
    ed25519_dalek::VerifyingKey::from_bytes(key).is_ok()
}

/// A signature over a message that strict verification under an Ed25519 key accepts.
pub uninterp spec fn ed25519_verified(key: Seq<u8>, message: Seq<u8>, signature: Seq<u8>) -> bool;

/// Calls `ed25519_dalek::VerifyingKey::verify_strict` with the key that
/// `VerifyingKey::from_bytes` makes of the bytes: the key, the message and the
/// signature alone decide.
#[verifier::external_body]
pub(crate) fn ed25519_verify_strict(key: &[u8; 32], message: &[u8], signature: &[u8; 64]) -> (verified:
    bool)
    requires
        ed25519_point(key@),
    ensures
        verified == ed25519_verified(key@, message@, signature@),
{
    let signature = ed25519_dalek::Signature::from_bytes(signature);
    ed25519_dalek::VerifyingKey::from_bytes(key).is_ok_and(
        |key| key.verify_strict(message, &signature).is_ok(),
    )
}

/// Bytes are spelled in hexadecimal digits that are read back as the same bytes, and a digit has
/// one value in either case.
pub proof fn hexadecimal_spellings_are_read_back(bytes: Seq<u8>, value: int)
    requires
        0 <= value < 16,
    ensures
        is_hex(text::lower_hex(bytes)),
        hex_bytes(text::lower_hex(bytes)) == bytes,
        is_hex_digit("0123456789abcdef"@[value]) && hex_value("0123456789abcdef"@[value]) == value,
        is_hex_digit("0123456789ABCDEF"@[value]) && hex_value("0123456789ABCDEF"@[value]) == value,
{
    lemma_digit_values(value);
    let spelled = text::lower_hex(bytes);
    assert forall|i: int| 0 <= i < spelled.len() implies is_hex_digit(#[trigger] spelled[i]) by {
        text::hexadecimal_digits_spell_bytes(bytes, i / 2);
        lemma_digit_values(bytes[i / 2] as int / 16);
        lemma_digit_values(bytes[i / 2] as int % 16);
        assert(i == 2 * (i / 2) || i == 2 * (i / 2) + 1);
    }
    assert forall|i: int| 0 <= i < bytes.len() implies #[trigger] hex_bytes(spelled)[i]
        == bytes[i] by {
        text::hexadecimal_digits_spell_bytes(bytes, i);
        lemma_digit_values(bytes[i] as int / 16);
        lemma_digit_values(bytes[i] as int % 16);
    }
    assert(hex_bytes(spelled) =~= bytes);
}

proof fn lemma_digit_values(value: int)
    requires
        0 <= value < 16,
    ensures
        is_hex_digit("0123456789abcdef"@[value]),
        hex_value("0123456789abcdef"@[value]) == value,
        is_hex_digit("0123456789ABCDEF"@[value]),
        hex_value("0123456789ABCDEF"@[value]) == value,
{
    reveal_strlit("0123456789abcdef");
    reveal_strlit("0123456789ABCDEF");
    let small = "0123456789abcdef"@;
    let large = "0123456789ABCDEF"@;
    assert(small[0] == '0' && small[1] == '1' && small[2] == '2' && small[3] == '3');
    assert(small[4] == '4' && small[5] == '5' && small[6] == '6' && small[7] == '7');
    assert(small[8] == '8' && small[9] == '9' && small[10] == 'a' && small[11] == 'b');
    assert(small[12] == 'c' && small[13] == 'd' && small[14] == 'e' && small[15] == 'f');
    assert(large[0] == '0' && large[1] == '1' && large[2] == '2' && large[3] == '3');
    assert(large[4] == '4' && large[5] == '5' && large[6] == '6' && large[7] == '7');
    assert(large[8] == '8' && large[9] == '9' && large[10] == 'A' && large[11] == 'B');
    assert(large[12] == 'C' && large[13] == 'D' && large[14] == 'E' && large[15] == 'F');
}

} // verus!
