//! How the data of Standard jobs is protected in the database: a versioned AEAD
//! envelope for what is stored, and a keyed fingerprint of each request.
//!
//! The errors carry no key, no plaintext and no envelope.

use vstd::prelude::*;

use crate::crypto;
use crate::ids::Uuid;
use crate::text;

verus! {

pub const ENVELOPE_PREFIX: &'static str = "mindone-standard-aead-v1:";

pub const FINGERPRINT_PREFIX: &'static str = "mindone-standard-hmac-v1:";

pub const STORAGE_VERSION: i16 = 1;

pub const NONCE_LENGTH: usize = 12;

pub const TAG_LENGTH: usize = 16;

pub const MAX_STORED_VALUE_BYTES: usize = 1_300_000;

pub const ENCRYPTION_KEY_INFO: &'static str = "MindOne Standard AEAD encryption key v1";

pub const FINGERPRINT_KEY_INFO: &'static str = "MindOne Standard fingerprint HMAC key v1";

pub const COMMITMENT_KEY_INFO: &'static str = "MindOne Standard key commitment key v1";

/// What a stored value is, which its envelope is bound to.
#[derive(Clone, Copy, Debug, PartialEq, Eq, Structural)]
pub enum StorageDirection {
    Payload,
    Result,
    StreamEvent { attempt_number: i32, sequence_number: i32 },
}

/// Protecting a value, or reading a protected value back, failed.
#[derive(Debug, PartialEq, Eq)]
pub struct StandardDataError;

/// The UTF-8 bytes of a text.
pub open spec fn utf8(text: Seq<char>) -> Seq<u8> {
    vstd::utf8::encode_utf8(text)
}

/// The associated data of an envelope: a label, the job and the direction.
pub open spec fn associated_data(job_id: Uuid, direction: StorageDirection) -> Seq<u8> {
    utf8("MindOne Standard database AEAD v1\0"@) + job_id.octets().push(0) + direction_label(
        direction,
    )
}

pub open spec fn direction_label(direction: StorageDirection) -> Seq<u8> {
    match direction {
        StorageDirection::Payload => utf8("payload"@),
        StorageDirection::Result => utf8("result"@),
        StorageDirection::StreamEvent { attempt_number, sequence_number } => utf8(
            "stream-event"@,
        ).push(0) + text::big_endian((attempt_number as u32) as nat, 4) + text::big_endian(
            (sequence_number as u32) as nat,
            4,
        ),
    }
}

fn aad(job_id: Uuid, direction: StorageDirection) -> (bytes: Vec<u8>)
    ensures
        bytes@ == associated_data(job_id, direction),
        bytes@.len() <= 0x7fff_ffff,
{
    let mut bytes: Vec<u8> = Vec::new();
    text::push_bytes(&mut bytes, "MindOne Standard database AEAD v1\0".as_bytes());
    job_id.push_octets(&mut bytes);
    bytes.push(0);
    match direction {
        StorageDirection::Payload => text::push_bytes(&mut bytes, "payload".as_bytes()),
        StorageDirection::Result => text::push_bytes(&mut bytes, "result".as_bytes()),
        StorageDirection::StreamEvent { attempt_number, sequence_number } => {
            text::push_bytes(&mut bytes, "stream-event".as_bytes());
            bytes.push(0);
            text::push_big_endian(&mut bytes, (attempt_number as u32) as u128, 4);
            text::push_big_endian(&mut bytes, (sequence_number as u32) as u128, 4);
        },
    }
    assert(bytes@ =~= associated_data(job_id, direction));
    proof {
        reveal_strlit("MindOne Standard database AEAD v1\0");
        reveal_strlit("payload");
        reveal_strlit("result");
        reveal_strlit("stream-event");
        text::lemma_byte_length("MindOne Standard database AEAD v1\0"@);
        text::lemma_byte_length("payload"@);
        text::lemma_byte_length("result"@);
        text::lemma_byte_length("stream-event"@);
        text::lemma_big_endian_length(job_id.value as nat, 16);
        if let StorageDirection::StreamEvent { attempt_number, sequence_number } = direction {
            text::lemma_big_endian_length((attempt_number as u32) as nat, 4);
            text::lemma_big_endian_length((sequence_number as u32) as nat, 4);
        }
    }
    bytes
}

/// Envelopes of different jobs, of different directions, or of different events of
/// a stream, never share their associated data.
pub proof fn associated_data_tells_values_apart(
    first_job: Uuid,
    first_direction: StorageDirection,
    second_job: Uuid,
    second_direction: StorageDirection,
)
    requires
        associated_data(first_job, first_direction) == associated_data(
            second_job,
            second_direction,
        ),
    ensures
        first_job == second_job,
        first_direction == second_direction,
{
    let prefix = utf8("MindOne Standard database AEAD v1\0"@);
    let p = prefix.len() as int;
    let first = associated_data(first_job, first_direction);
    let second = associated_data(second_job, second_direction);
    text::lemma_big_endian_length(first_job.value as nat, 16);
    text::lemma_big_endian_length(second_job.value as nat, 16);
    assert(first.subrange(p, p + 16) =~= first_job.octets());
    assert(second.subrange(p, p + 16) =~= second_job.octets());
    assert(text::byte_range(16) == 0x1_0000_0000_0000_0000_0000_0000_0000_0000) by {
        reveal_with_fuel(text::byte_range, 17);
    }
    text::lemma_big_endian_injective(first_job.value as nat, second_job.value as nat, 16);
    let first_label = direction_label(first_direction);
    let second_label = direction_label(second_direction);
    assert(first.skip(p + 17) =~= first_label);
    assert(second.skip(p + 17) =~= second_label);
    lemma_direction_labels(first_direction, second_direction);
}

proof fn lemma_direction_labels(first: StorageDirection, second: StorageDirection)
    requires
        direction_label(first) == direction_label(second),
    ensures
        first == second,
{
    reveal_strlit("payload");
    reveal_strlit("result");
    reveal_strlit("stream-event");
    vstd::utf8::is_ascii_chars_encode_utf8("payload"@);
    vstd::utf8::is_ascii_chars_encode_utf8("result"@);
    vstd::utf8::is_ascii_chars_encode_utf8("stream-event"@);
    assert(utf8("payload"@).len() == 7);
    assert(utf8("result"@).len() == 6);
    assert(utf8("stream-event"@).len() == 12);
    if let StorageDirection::StreamEvent { attempt_number: a, sequence_number: b } = first {
        text::lemma_big_endian_length((a as u32) as nat, 4);
        text::lemma_big_endian_length((b as u32) as nat, 4);
    }
    if let StorageDirection::StreamEvent { attempt_number: c, sequence_number: d } = second {
        text::lemma_big_endian_length((c as u32) as nat, 4);
        text::lemma_big_endian_length((d as u32) as nat, 4);
    }
    if let StorageDirection::StreamEvent { attempt_number: a, sequence_number: b } = first {
        if let StorageDirection::StreamEvent { attempt_number: c, sequence_number: d } = second {
            let left = direction_label(first);
            let right = direction_label(second);
            assert(left.subrange(13, 17) =~= text::big_endian((a as u32) as nat, 4));
            assert(right.subrange(13, 17) =~= text::big_endian((c as u32) as nat, 4));
            assert(left.subrange(17, 21) =~= text::big_endian((b as u32) as nat, 4));
            assert(right.subrange(17, 21) =~= text::big_endian((d as u32) as nat, 4));
            assert(text::byte_range(4) == 0x1_0000_0000) by {
                reveal_with_fuel(text::byte_range, 5);
            }
            text::lemma_big_endian_injective((a as u32) as nat, (c as u32) as nat, 4);
            text::lemma_big_endian_injective((b as u32) as nat, (d as u32) as nat, 4);
            assert(a as u32 == c as u32 ==> a == c) by (bit_vector);
            assert(b as u32 == d as u32 ==> b == d) by (bit_vector);
        }
    }
}

/// The key that serves one purpose, out of the master key.
pub open spec fn subkey(master_key: Seq<u8>, purpose: Seq<char>) -> Seq<u8> {
    crypto::hkdf_sha256(
        utf8("MindOne Standard data at-rest HKDF salt v1"@),
        master_key,
        utf8(purpose),
    )
}

/// The labels that keys and tags are made with are short.
proof fn lemma_labels_are_short()
    ensures
        crypto::fits_sha256(utf8("MindOne Standard data at-rest HKDF salt v1"@)),
        crypto::fits_sha256(utf8(ENCRYPTION_KEY_INFO@)),
        crypto::fits_sha256(utf8(FINGERPRINT_KEY_INFO@)),
        crypto::fits_sha256(utf8(COMMITMENT_KEY_INFO@)),
        utf8("MindOne Standard request fingerprint storage v1\0"@).len() == 48,
        crypto::fits_sha256(utf8("MindOne Standard database key commitment v1"@)),
{
    reveal_strlit("MindOne Standard data at-rest HKDF salt v1");
    reveal_strlit("MindOne Standard AEAD encryption key v1");
    reveal_strlit("MindOne Standard fingerprint HMAC key v1");
    reveal_strlit("MindOne Standard key commitment key v1");
    reveal_strlit("MindOne Standard request fingerprint storage v1\0");
    reveal_strlit("MindOne Standard database key commitment v1");
    vstd::utf8::is_ascii_chars_encode_utf8("MindOne Standard data at-rest HKDF salt v1"@);
    vstd::utf8::is_ascii_chars_encode_utf8(ENCRYPTION_KEY_INFO@);
    vstd::utf8::is_ascii_chars_encode_utf8(FINGERPRINT_KEY_INFO@);
    vstd::utf8::is_ascii_chars_encode_utf8(COMMITMENT_KEY_INFO@);
    vstd::utf8::is_ascii_chars_encode_utf8("MindOne Standard request fingerprint storage v1\0"@);
    vstd::utf8::is_ascii_chars_encode_utf8("MindOne Standard database key commitment v1"@);
}

/// Derives the key that serves one purpose.
pub fn derive_subkey(master_key: &[u8; 32], purpose: &'static str) -> (derived: Result<
    Vec<u8>,
    StandardDataError,
>)
    requires
        crypto::fits_sha256(utf8(purpose@)),
    ensures
        derived matches Ok(key) && key@ == subkey(master_key@, purpose@) && key@.len() == 32,
{
    proof {
        lemma_labels_are_short();
    }
    match crypto::hkdf_sha256_32(
        "MindOne Standard data at-rest HKDF salt v1".as_bytes(),
        master_key.as_slice(),
        purpose.as_bytes(),
    ) {
        Some(key) => Ok(key),
        None => Err(StandardDataError),
    }
}

/// The values that can be stored: some bytes, but not too many.
pub open spec fn storable(plaintext: Seq<u8>) -> bool {
    0 < plaintext.len() <= MAX_STORED_VALUE_BYTES
}

/// The envelope of a value under a nonce: the prefix, and in Base64 the nonce and
/// the sealed value.
pub open spec fn storage_envelope(
    key: Seq<u8>,
    job_id: Uuid,
    direction: StorageDirection,
    nonce: Seq<u8>,
    plaintext: Seq<u8>,
) -> Seq<char> {
    ENVELOPE_PREFIX@ + crypto::base64_url_text(
        nonce + crypto::aes_256_gcm_sealed(
            subkey(key, ENCRYPTION_KEY_INFO@),
            nonce,
            associated_data(job_id, direction),
            plaintext,
        ),
    )
}

/// The value in an envelope, if the envelope is whole, is spelled in the one way that its
/// bytes are, and belongs to this key, job and direction.
pub open spec fn stored_value(
    key: Seq<u8>,
    job_id: Uuid,
    direction: StorageDirection,
    envelope: Seq<char>,
) -> Option<Seq<u8>> {
    match text::without_prefix(envelope, ENVELOPE_PREFIX@) {
        None => None,
        Some(encoded) => if encoded.len() == 0 || text::byte_length(encoded) > 2
            * MAX_STORED_VALUE_BYTES {
            None
        } else {
            match crypto::base64_url_bytes(encoded) {
                None => None,
                Some(sealed) => if crypto::base64_url_text(sealed) != encoded || sealed.len()
                    <= NONCE_LENGTH + TAG_LENGTH {
                    None
                } else {
                    crypto::aes_256_gcm_opened(
                        subkey(key, ENCRYPTION_KEY_INFO@),
                        sealed.take(NONCE_LENGTH as int),
                        associated_data(job_id, direction),
                        sealed.skip(NONCE_LENGTH as int),
                    )
                },
            }
        },
    }
}

/// Puts a value into its envelope under a given nonce. What was put in can be read
/// back with the same key, job and direction; without its prefix it is no envelope.
pub fn seal_for_storage(
    key: &[u8; 32],
    job_id: Uuid,
    direction: StorageDirection,
    plaintext: &[u8],
    nonce: [u8; 12],
) -> (sealed: Result<String, StandardDataError>)
    ensures
        sealed is Ok <==> storable(plaintext@),
        sealed matches Ok(envelope) ==> envelope@ == storage_envelope(
            key@,
            job_id,
            direction,
            nonce@,
            plaintext@,
        ),
        sealed matches Ok(envelope) ==> stored_value(key@, job_id, direction, envelope@) == Some(
            plaintext@,
        ),
        sealed matches Ok(envelope) ==> stored_value(
            key@,
            job_id,
            direction,
            envelope@.skip(ENVELOPE_PREFIX@.len() as int),
        ) is None,
{
    if plaintext.len() == 0 || plaintext.len() > MAX_STORED_VALUE_BYTES {
        return Err(StandardDataError);
    }
    proof {
        lemma_labels_are_short();
    }
    let mut encryption_key = derive_subkey(key, ENCRYPTION_KEY_INFO)?;
    let aad = aad(job_id, direction);
    let sealed = crypto::aes_256_gcm_seal(
        encryption_key.as_slice(),
        nonce,
        aad.as_slice(),
        plaintext,
    );
    crypto::wipe_bytes(&mut encryption_key);
    match sealed {
        None => Err(StandardDataError),
        Some(sealed) => {
            let mut envelope: Vec<u8> = Vec::new();
            text::push_bytes(&mut envelope, nonce.as_slice());
            text::push_bytes(&mut envelope, sealed.as_slice());
            let encoded = crypto::base64_url_encode(envelope.as_slice());
            let mut stored = String::new();
            text::push_text(&mut stored, ENVELOPE_PREFIX);
            text::push_text(&mut stored, encoded.as_str());
            proof {
                assert(envelope@ =~= nonce@ + sealed@);
                assert(stored@ =~= ENVELOPE_PREFIX@ + encoded@);
                assert(stored@.take(ENVELOPE_PREFIX@.len() as int) =~= ENVELOPE_PREFIX@);
                assert(stored@.skip(ENVELOPE_PREFIX@.len() as int) =~= encoded@);
                vstd::utf8::is_ascii_chars_encode_utf8(encoded@);
                reveal_strlit("mindone-standard-aead-v1:");
                assert(ENVELOPE_PREFIX@[24] == ':');
                if text::starts_with(encoded@, ENVELOPE_PREFIX@) {
                    assert(encoded@.take(ENVELOPE_PREFIX@.len() as int)[24] == ':');
                    assert(crate::text::is_url_safe(encoded@[24]));
                }
                assert((nonce@ + sealed@).take(NONCE_LENGTH as int) =~= nonce@);
                assert((nonce@ + sealed@).skip(NONCE_LENGTH as int) =~= sealed@);
            }
            Ok(stored)
        },
    }
}

/// Puts a value into its envelope under the nonce that was drawn for it. Without one there
/// is no envelope.
pub fn seal_under_drawn_nonce(
    key: &[u8; 32],
    job_id: Uuid,
    direction: StorageDirection,
    plaintext: &[u8],
    drawn: Option<[u8; 12]>,
) -> (sealed: Result<String, StandardDataError>)
    ensures
        sealed is Ok <==> storable(plaintext@) && drawn is Some,
        sealed matches Ok(envelope) ==> envelope@ == storage_envelope(
            key@,
            job_id,
            direction,
            drawn->0@,
            plaintext@,
        ),
        sealed matches Ok(envelope) ==> stored_value(key@, job_id, direction, envelope@) == Some(
            plaintext@,
        ),
        sealed matches Ok(envelope) ==> stored_value(
            key@,
            job_id,
            direction,
            envelope@.skip(ENVELOPE_PREFIX@.len() as int),
        ) is None,
{
    match drawn {
        Some(nonce) => seal_for_storage(key, job_id, direction, plaintext, nonce),
        None => Err(StandardDataError),
    }
}

/// Puts a value into its envelope under a fresh nonce. Besides a value that cannot
/// be stored, only a system that gives no random bytes makes this fail.
pub fn encrypt_for_storage(
    key: &[u8; 32],
    job_id: Uuid,
    direction: StorageDirection,
    plaintext: &[u8],
) -> (sealed: Result<String, StandardDataError>)
    ensures
        !storable(plaintext@) ==> sealed is Err,
        sealed matches Ok(envelope) ==> stored_value(key@, job_id, direction, envelope@) == Some(
            plaintext@,
        ),
        sealed matches Ok(envelope) ==> stored_value(
            key@,
            job_id,
            direction,
            envelope@.skip(ENVELOPE_PREFIX@.len() as int),
        ) is None,
        sealed matches Ok(envelope) ==> exists|nonce: Seq<u8>|
            nonce.len() == NONCE_LENGTH && envelope@ == #[trigger] storage_envelope(
                key@,
                job_id,
                direction,
                nonce,
                plaintext@,
            ),
{
    if plaintext.len() == 0 || plaintext.len() > MAX_STORED_VALUE_BYTES {
        return Err(StandardDataError);
    }
    seal_under_drawn_nonce(key, job_id, direction, plaintext, crypto::random_nonce())
}

/// Reads a value back out of its envelope.
pub fn decrypt_from_storage(
    key: &[u8; 32],
    job_id: Uuid,
    direction: StorageDirection,
    envelope: &str,
) -> (opened: Result<Vec<u8>, StandardDataError>)
    ensures
        match opened {
            Ok(plaintext) => stored_value(key@, job_id, direction, envelope@) == Some(plaintext@),
            Err(_) => stored_value(key@, job_id, direction, envelope@) is None,
        },
{
    let encoded = match text::strip_prefix(envelope, ENVELOPE_PREFIX) {
        Some(encoded) => encoded,
        None => {
            return Err(StandardDataError);
        },
    };
    if encoded.is_empty() || text::bytes_in(encoded) > 2 * MAX_STORED_VALUE_BYTES {
        return Err(StandardDataError);
    }
    let mut sealed = match crypto::base64_url_decode(encoded) {
        Some(sealed) => sealed,
        None => {
            return Err(StandardDataError);
        },
    };
    if sealed.len() <= NONCE_LENGTH + TAG_LENGTH {
        return Err(StandardDataError);
    }
    let mut nonce: [u8; 12] = [0;12];
    let mut i: usize = 0;
    while i < NONCE_LENGTH
        invariant
            i <= NONCE_LENGTH,
            nonce@.len() == NONCE_LENGTH,
            sealed@.len() > NONCE_LENGTH + TAG_LENGTH,
            forall|j: int| 0 <= j < i ==> nonce@[j] == sealed@[j],
        decreases NONCE_LENGTH - i,
    {
        nonce[i] = sealed[i];
        i += 1;
    }
    assert(nonce@ =~= sealed@.take(NONCE_LENGTH as int));
    let ghost whole = sealed@;
    let body = sealed.split_off(NONCE_LENGTH);
    assert(body@ =~= whole.skip(NONCE_LENGTH as int));
    proof {
        lemma_labels_are_short();
    }
    let mut encryption_key = derive_subkey(key, ENCRYPTION_KEY_INFO)?;
    let aad = aad(job_id, direction);
    let opened = crypto::aes_256_gcm_open(
        encryption_key.as_slice(),
        nonce,
        aad.as_slice(),
        body.as_slice(),
    );
    crypto::wipe_bytes(&mut encryption_key);
    match opened {
        Some(plaintext) => Ok(plaintext),
        None => Err(StandardDataError),
    }
}

/// What AES-GCM makes of an envelope under a key, a job and a direction, where the envelope
/// holds a nonce and a sealed value.
pub open spec fn opened_at(
    key: Seq<u8>,
    job_id: Uuid,
    direction: StorageDirection,
    envelope: Seq<char>,
) -> Option<Seq<u8>> {
    let sealed = crypto::base64_url_bytes(envelope.skip(ENVELOPE_PREFIX@.len() as int))->0;
    crypto::aes_256_gcm_opened(
        subkey(key, ENCRYPTION_KEY_INFO@),
        sealed.take(NONCE_LENGTH as int),
        associated_data(job_id, direction),
        sealed.skip(NONCE_LENGTH as int),
    )
}

/// An envelope opens in its own place only. Unless HKDF derives one key from two, or AES-GCM
/// opens the sealed value under another key or with other associated data, an envelope that
/// opens for a key, a job and a direction is refused for every other: another job, another
/// direction, another attempt or number of a stream event.
pub proof fn envelopes_open_in_their_place_only(
    key: Seq<u8>,
    job_id: Uuid,
    direction: StorageDirection,
    envelope: Seq<char>,
    other_key: Seq<u8>,
    other_job: Uuid,
    other_direction: StorageDirection,
)
    requires
        stored_value(key, job_id, direction, envelope) is Some,
        subkey(key, ENCRYPTION_KEY_INFO@) == subkey(other_key, ENCRYPTION_KEY_INFO@) ==> key
            == other_key,
        (subkey(other_key, ENCRYPTION_KEY_INFO@), associated_data(other_job, other_direction)) != (
            subkey(key, ENCRYPTION_KEY_INFO@),
            associated_data(job_id, direction),
        ) ==> opened_at(other_key, other_job, other_direction, envelope) is None,
        (other_key, other_job, other_direction) != (key, job_id, direction),
    ensures
        stored_value(other_key, other_job, other_direction, envelope) is None,
{
    if associated_data(job_id, direction) == associated_data(other_job, other_direction) {
        associated_data_tells_values_apart(job_id, direction, other_job, other_direction);
    }
}

/// The nonce and the sealed value that an envelope spells.
pub open spec fn sealed_bytes(envelope: Seq<char>) -> Option<Seq<u8>> {
    crypto::base64_url_bytes(envelope.skip(ENVELOPE_PREFIX@.len() as int))
}

/// An envelope that was tampered with is refused. Whatever was changed in an envelope that
/// opens, be it a character, something appended or something taken away, what comes out does
/// not open in its place, unless AES-GCM opens the other bytes that it spells.
pub proof fn tampered_envelopes_are_refused(
    key: Seq<u8>,
    job_id: Uuid,
    direction: StorageDirection,
    envelope: Seq<char>,
    tampered: Seq<char>,
)
    requires
        stored_value(key, job_id, direction, envelope) is Some,
        tampered != envelope,
        sealed_bytes(tampered) != sealed_bytes(envelope) ==> opened_at(
            key,
            job_id,
            direction,
            tampered,
        ) is None,
    ensures
        stored_value(key, job_id, direction, tampered) is None,
{
    let at = ENVELOPE_PREFIX@.len() as int;
    if text::starts_with(tampered, ENVELOPE_PREFIX@) && sealed_bytes(tampered) == sealed_bytes(
        envelope,
    ) {
        assert(envelope =~= envelope.take(at) + envelope.skip(at));
        assert(tampered =~= tampered.take(at) + tampered.skip(at));
        assert(tampered.skip(at) != envelope.skip(at));
    }
}

/// The fingerprint under which a digest is stored: keyed, so that requests of low
/// entropy cannot be guessed from the database.
pub open spec fn keyed_fingerprint(key: Seq<u8>, digest: Seq<u8>) -> Seq<char> {
    FINGERPRINT_PREFIX@ + text::lower_hex(
        crypto::hmac_sha256(
            subkey(key, FINGERPRINT_KEY_INFO@),
            utf8("MindOne Standard request fingerprint storage v1\0"@) + digest,
        ),
    )
}

/// The HMAC tag that the fingerprint of a request spells.
pub open spec fn request_tag(key: Seq<u8>, serialized_request: Seq<u8>) -> Seq<u8> {
    crypto::hmac_sha256(
        subkey(key, FINGERPRINT_KEY_INFO@),
        utf8("MindOne Standard request fingerprint storage v1\0"@) + request_digest(
            serialized_request,
        ),
    )
}

/// A fingerprint is spelled as its prefix and 64 lower case hexadecimal digits.
pub open spec fn is_fingerprint(stored: Seq<char>) -> bool {
    &&& text::starts_with(stored, FINGERPRINT_PREFIX@)
    &&& text::is_lower_hex(stored.skip(FINGERPRINT_PREFIX@.len() as int), 64)
}

/// The keyed fingerprint of a 32-byte digest.
pub fn fingerprint_from_legacy_digest(key: &[u8; 32], legacy_digest: &[u8]) -> (fingerprint: Result<
    String,
    StandardDataError,
>)
    ensures
        fingerprint is Ok <==> legacy_digest@.len() == 32,
        fingerprint matches Ok(stored) ==> stored@ == keyed_fingerprint(key@, legacy_digest@)
            && is_fingerprint(stored@),
{
    if legacy_digest.len() != 32 {
        return Err(StandardDataError);
    }
    proof {
        lemma_labels_are_short();
    }
    let mut fingerprint_key = derive_subkey(key, FINGERPRINT_KEY_INFO)?;
    let mut context: Vec<u8> = Vec::new();
    text::push_bytes(
        &mut context,
        "MindOne Standard request fingerprint storage v1\0".as_bytes(),
    );
    text::push_bytes(&mut context, legacy_digest);
    assert(context@ =~= utf8("MindOne Standard request fingerprint storage v1\0"@)
        + legacy_digest@);
    let tag = crypto::hmac_sha256_sign(fingerprint_key.as_slice(), context.as_slice());
    crypto::wipe_bytes(&mut fingerprint_key);
    let digits = crypto::hex_encode(tag.as_slice());
    let mut stored = String::new();
    text::push_text(&mut stored, FINGERPRINT_PREFIX);
    text::push_text(&mut stored, digits.as_str());
    assert(stored@ =~= FINGERPRINT_PREFIX@ + digits@);
    proof {
        text::lemma_lower_hex_digits(tag@);
        assert(stored@.take(FINGERPRINT_PREFIX@.len() as int) =~= FINGERPRINT_PREFIX@);
        assert(stored@.skip(FINGERPRINT_PREFIX@.len() as int) =~= digits@);
    }
    Ok(stored)
}

/// The digest of a serialised request, under a label of its own.
pub open spec fn request_digest(serialized_request: Seq<u8>) -> Seq<u8> {
    crypto::sha256(
        utf8("MindOne Standard create idempotency fingerprint v1\0"@) + serialized_request,
    )
}

/// The keyed fingerprint of a serialised request.
pub fn request_fingerprint(key: &[u8; 32], serialized_request: &[u8]) -> (fingerprint: Result<
    String,
    StandardDataError,
>)
    ensures
        fingerprint matches Ok(stored) && stored@ == keyed_fingerprint(
            key@,
            request_digest(serialized_request@),
        ) && is_fingerprint(stored@),
{
    let mut labelled: Vec<u8> = Vec::new();
    text::push_bytes(
        &mut labelled,
        "MindOne Standard create idempotency fingerprint v1\0".as_bytes(),
    );
    text::push_bytes(&mut labelled, serialized_request);
    assert(labelled@ =~= utf8("MindOne Standard create idempotency fingerprint v1\0"@)
        + serialized_request@);
    let digest = crypto::sha256_digest(labelled.as_slice());
    fingerprint_from_legacy_digest(key, digest.as_slice())
}

/// Fingerprints recognise requests. Unless HKDF, HMAC or SHA-256 gives one result for both,
/// two requests have the same fingerprint exactly if they are the same and are keyed the
/// same; and the digest that was stored before fingerprints were keyed leads to the very
/// fingerprint of its request.
pub proof fn fingerprints_recognise_requests(
    first_key: Seq<u8>,
    first_request: Seq<u8>,
    second_key: Seq<u8>,
    second_request: Seq<u8>,
    legacy_digest: Seq<u8>,
)
    requires
        subkey(first_key, FINGERPRINT_KEY_INFO@) == subkey(second_key, FINGERPRINT_KEY_INFO@)
            ==> first_key == second_key,
        request_tag(first_key, first_request) == request_tag(second_key, second_request) ==> subkey(
            first_key,
            FINGERPRINT_KEY_INFO@,
        ) == subkey(second_key, FINGERPRINT_KEY_INFO@) && request_digest(first_request)
            == request_digest(second_request),
        request_digest(first_request) == request_digest(second_request) ==> first_request
            == second_request,
        legacy_digest == crypto::sha256(
            utf8("MindOne Standard create idempotency fingerprint v1\0"@) + first_request,
        ),
    ensures
        keyed_fingerprint(first_key, request_digest(first_request)) == keyed_fingerprint(
            second_key,
            request_digest(second_request),
        ) <==> first_key == second_key && first_request == second_request,
        keyed_fingerprint(first_key, legacy_digest) == keyed_fingerprint(
            first_key,
            request_digest(first_request),
        ),
{
    let first = keyed_fingerprint(first_key, request_digest(first_request));
    let second = keyed_fingerprint(second_key, request_digest(second_request));
    let at = FINGERPRINT_PREFIX@.len() as int;
    assert(first.skip(at) =~= text::lower_hex(request_tag(first_key, first_request)));
    assert(second.skip(at) =~= text::lower_hex(request_tag(second_key, second_request)));
    if first == second {
        text::lemma_lower_hex_injective(
            request_tag(first_key, first_request),
            request_tag(second_key, second_request),
        );
    }
}

/// What the database remembers of the master key: an HMAC under a key of its own.
pub open spec fn commitment(master_key: Seq<u8>) -> Seq<u8> {
    crypto::hmac_sha256(
        subkey(master_key, COMMITMENT_KEY_INFO@),
        utf8("MindOne Standard database key commitment v1"@),
    )
}

pub fn key_commitment(master_key: &[u8; 32]) -> (made: Result<Vec<u8>, StandardDataError>)
    ensures
        made matches Ok(bytes) && bytes@ == commitment(master_key@) && bytes@.len() == 32,
{
    proof {
        lemma_labels_are_short();
    }
    let mut commitment_key = derive_subkey(master_key, COMMITMENT_KEY_INFO)?;
    let tag = crypto::hmac_sha256_sign(
        commitment_key.as_slice(),
        "MindOne Standard database key commitment v1".as_bytes(),
    );
    crypto::wipe_bytes(&mut commitment_key);
    Ok(tag)
}

/// The commitment in the form in which the database holds it.
pub fn key_commitment_text(master_key: &[u8; 32]) -> (made: Result<String, StandardDataError>)
    ensures
        made matches Ok(stored) && stored@ == text::lower_hex(commitment(master_key@)),
{
    let commitment = key_commitment(master_key)?;
    Ok(crypto::hex_encode(commitment.as_slice()))
}

/// Checks that the database was written under this master key.
pub fn verify_key_commitment(master_key: &[u8; 32], stored: &str) -> (verified: Result<
    (),
    StandardDataError,
>)
    ensures
        verified is Ok <==> crypto::is_hex(stored@) && crypto::hex_bytes(stored@) == commitment(
            master_key@,
        ),
{
    let expected = key_commitment(master_key)?;
    match crypto::hex_decode(stored) {
        Some(bytes) => if crypto::constant_time_eq(expected.as_slice(), bytes.as_slice()) {
            Ok(())
        } else {
            Err(StandardDataError)
        },
        None => Err(StandardDataError),
    }
}

/// A Standard job as the database holds it before it is brought up to the present
/// storage version.
pub struct StoredJob {
    pub job_id: Uuid,
    pub payload_version: i16,
    pub payload: String,
    pub result_version: Option<i16>,
    pub result: Option<String>,
    pub fingerprint: Option<String>,
}

/// What becomes of one stored value.
#[derive(Clone, Copy, Debug, PartialEq, Eq, Structural)]
pub enum ValueStep {
    Seal,
    Keep,
    Absent,
}

/// What becomes of a stored fingerprint.
#[derive(Clone, Copy, Debug, PartialEq, Eq, Structural)]
pub enum FingerprintStep {
    Keep,
    Key,
}

/// The steps that bring one job up to date.
#[derive(Clone, Copy, Debug, PartialEq, Eq, Structural)]
pub struct MigrationPlan {
    pub payload: ValueStep,
    pub result: ValueStep,
    pub fingerprint: FingerprintStep,
}

pub open spec fn payload_step(job: StoredJob) -> Option<ValueStep> {
    if job.payload_version == 0 {
        Some(ValueStep::Seal)
    } else if job.payload_version == STORAGE_VERSION && text::starts_with(
        job.payload@,
        ENVELOPE_PREFIX@,
    ) {
        Some(ValueStep::Keep)
    } else {
        None
    }
}

pub open spec fn result_step(job: StoredJob) -> Option<ValueStep> {
    match (job.result_version, job.result) {
        (None, None) => Some(ValueStep::Absent),
        (Some(version), Some(value)) => if version == 0 {
            Some(ValueStep::Seal)
        } else if version == STORAGE_VERSION && text::starts_with(value@, ENVELOPE_PREFIX@) {
            Some(ValueStep::Keep)
        } else {
            None
        },
        _ => None,
    }
}

pub open spec fn fingerprint_step(job: StoredJob) -> Option<FingerprintStep> {
    match job.fingerprint {
        None => None,
        Some(value) => match text::without_prefix(value@, FINGERPRINT_PREFIX@) {
            Some(digits) => if text::is_lower_hex(digits, 64) {
                Some(FingerprintStep::Keep)
            } else {
                None
            },
            None => if crypto::is_hex(value@) && value@.len() == 64 {
                Some(FingerprintStep::Key)
            } else {
                None
            },
        },
    }
}

/// Decides the steps for one job, or finds that its columns contradict each other.
pub fn plan_migration(job: &StoredJob) -> (plan: Result<MigrationPlan, StandardDataError>)
    ensures
        match plan {
            Ok(plan) => payload_step(*job) == Some(plan.payload) && result_step(*job) == Some(
                plan.result,
            ) && fingerprint_step(*job) == Some(plan.fingerprint),
            Err(_) => payload_step(*job) is None || result_step(*job) is None || fingerprint_step(
                *job,
            ) is None,
        },
{
    let payload = if job.payload_version == 0 {
        ValueStep::Seal
    } else if job.payload_version == STORAGE_VERSION && text::strip_prefix(
        job.payload.as_str(),
        ENVELOPE_PREFIX,
    ).is_some() {
        ValueStep::Keep
    } else {
        return Err(StandardDataError);
    };
    let result = match (&job.result_version, &job.result) {
        (None, None) => ValueStep::Absent,
        (Some(version), Some(value)) => if *version == 0 {
            ValueStep::Seal
        } else if *version == STORAGE_VERSION && text::strip_prefix(
            value.as_str(),
            ENVELOPE_PREFIX,
        ).is_some() {
            ValueStep::Keep
        } else {
            return Err(StandardDataError);
        },
        _ => {
            return Err(StandardDataError);
        },
    };
    let fingerprint = match &job.fingerprint {
        None => {
            return Err(StandardDataError);
        },
        Some(value) => match text::strip_prefix(value.as_str(), FINGERPRINT_PREFIX) {
            Some(digits) => if text::valid_lower_hex(digits, 64) {
                FingerprintStep::Keep
            } else {
                return Err(StandardDataError);
            },
            None => match crypto::hex_decode(value.as_str()) {
                Some(bytes) => if bytes.len() == 32 {
                    FingerprintStep::Key
                } else {
                    return Err(StandardDataError);
                },
                None => {
                    return Err(StandardDataError);
                },
            },
        },
    };
    Ok(MigrationPlan { payload, result, fingerprint })
}

/// The columns of a job after it was brought up to date.
pub struct MigratedJob {
    pub payload: String,
    pub result: Option<String>,
    pub fingerprint: String,
}

/// `after` protects what `before` held in the clear, or is `before`.
pub open spec fn value_migrated(
    step: ValueStep,
    key: Seq<u8>,
    job_id: Uuid,
    direction: StorageDirection,
    before: Seq<char>,
    after: Seq<char>,
) -> bool {
    if step == ValueStep::Seal {
        stored_value(key, job_id, direction, after) == Some(utf8(before))
    } else {
        after == before
    }
}

fn migrate_value(
    step: ValueStep,
    key: &[u8; 32],
    job_id: Uuid,
    direction: StorageDirection,
    value: &str,
) -> (migrated: Result<String, StandardDataError>)
    ensures
        step != ValueStep::Seal ==> migrated is Ok,
        step == ValueStep::Seal && !storable(utf8(value@)) ==> migrated is Err,
        migrated matches Ok(after) ==> value_migrated(
            step,
            key@,
            job_id,
            direction,
            value@,
            after@,
        ),
{
    match step {
        ValueStep::Seal => encrypt_for_storage(key, job_id, direction, value.as_bytes()),
        _ => Ok(value.to_owned()),
    }
}

/// Brings one job up to date. A value in the clear is sealed for its job and
/// direction, a plain digest becomes a keyed fingerprint, and what is up to date
/// stays as it is. A job whose columns contradict each other is refused, and so is one
/// with a value to seal that cannot be stored. Where nothing is left to seal, nothing
/// else can fail; sealing needs random bytes.
pub fn migrate_job(key: &[u8; 32], job: &StoredJob) -> (migrated: Result<
    MigratedJob,
    StandardDataError,
>)
    ensures
        payload_step(*job) is None || result_step(*job) is None || fingerprint_step(*job) is None
            ==> migrated is Err,
        payload_step(*job) == Some(ValueStep::Keep) && fingerprint_step(*job) is Some && (
        result_step(*job) == Some(ValueStep::Keep) || result_step(*job) == Some(ValueStep::Absent))
            ==> migrated is Ok,
        payload_step(*job) == Some(ValueStep::Seal) && !storable(utf8(job.payload@))
            ==> migrated is Err,
        result_step(*job) == Some(ValueStep::Seal) && !storable(utf8(job.result->0@))
            ==> migrated is Err,
        migrated matches Ok(after) ==> {
            &&& value_migrated(
                payload_step(*job)->0,
                key@,
                job.job_id,
                StorageDirection::Payload,
                job.payload@,
                after.payload@,
            )
            &&& after.result is Some <==> job.result is Some
            &&& after.result is Some ==> value_migrated(
                result_step(*job)->0,
                key@,
                job.job_id,
                StorageDirection::Result,
                job.result->0@,
                after.result->0@,
            )
            &&& after.fingerprint@ == if fingerprint_step(*job) == Some(FingerprintStep::Keep) {
                job.fingerprint->0@
            } else {
                keyed_fingerprint(key@, crypto::hex_bytes(job.fingerprint->0@))
            }
        },
{
    let plan = plan_migration(job)?;
    let payload = migrate_value(
        plan.payload,
        key,
        job.job_id,
        StorageDirection::Payload,
        job.payload.as_str(),
    )?;
    let result = match &job.result {
        Some(value) => Some(
            migrate_value(plan.result, key, job.job_id, StorageDirection::Result, value.as_str())?,
        ),
        None => None,
    };
    let fingerprint = match &job.fingerprint {
        None => {
            return Err(StandardDataError);
        },
        Some(value) => match plan.fingerprint {
            FingerprintStep::Keep => value.clone(),
            FingerprintStep::Key => match crypto::hex_decode(value.as_str()) {
                Some(bytes) => fingerprint_from_legacy_digest(key, bytes.as_slice())?,
                None => {
                    return Err(StandardDataError);
                },
            },
        },
    };
    Ok(MigratedJob { payload, result, fingerprint })
}

/// Values of 1 to 1,300,000 bytes are stored, and no others.
pub proof fn stored_values_have_their_size(plaintext: Seq<u8>)
    ensures
        storable(plaintext) <==> 1 <= plaintext.len() <= 1_300_000,
{
}

/// What an envelope is: its mark, and behind it the nonce with the value sealed under the key for
/// envelopes, for its job and its place.
pub proof fn envelopes_are_sealed_for_their_place(
    key: Seq<u8>,
    job_id: Uuid,
    direction: StorageDirection,
    nonce: Seq<u8>,
    plaintext: Seq<u8>,
)
    ensures
        storage_envelope(key, job_id, direction, nonce, plaintext) == "mindone-standard-aead-v1:"@
            + crypto::base64_url_text(
            nonce + crypto::aes_256_gcm_sealed(
                crypto::hkdf_sha256(
                    vstd::utf8::encode_utf8("MindOne Standard data at-rest HKDF salt v1"@),
                    key,
                    vstd::utf8::encode_utf8("MindOne Standard AEAD encryption key v1"@),
                ),
                nonce,
                associated_data(job_id, direction),
                plaintext,
            ),
        ),
        associated_data(job_id, StorageDirection::Payload) == vstd::utf8::encode_utf8(
            "MindOne Standard database AEAD v1\0"@,
        ) + job_id.octets() + seq![0u8] + vstd::utf8::encode_utf8("payload"@),
        associated_data(job_id, StorageDirection::Result) == vstd::utf8::encode_utf8(
            "MindOne Standard database AEAD v1\0"@,
        ) + job_id.octets() + seq![0u8] + vstd::utf8::encode_utf8("result"@),
        direction matches StorageDirection::StreamEvent { attempt_number, sequence_number } ==> (
        attempt_number >= 0 && sequence_number >= 0 ==> associated_data(job_id, direction)
            == vstd::utf8::encode_utf8("MindOne Standard database AEAD v1\0"@) + job_id.octets()
            + seq![0u8] + vstd::utf8::encode_utf8("stream-event"@) + seq![0u8] + text::big_endian(
            attempt_number as nat,
            4,
        ) + text::big_endian(sequence_number as nat, 4)),
{
    let mark = vstd::utf8::encode_utf8("MindOne Standard database AEAD v1\0"@);
    assert(mark + job_id.octets().push(0) =~= mark + job_id.octets() + seq![0u8]);
    if let StorageDirection::StreamEvent { attempt_number, sequence_number } = direction {
        if attempt_number >= 0 && sequence_number >= 0 {
            let attempt = text::big_endian((attempt_number as u32) as nat, 4);
            let sequence = text::big_endian((sequence_number as u32) as nat, 4);
            let label = vstd::utf8::encode_utf8("stream-event"@);
            assert(mark + job_id.octets().push(0) + (label.push(0) + attempt + sequence) =~= mark
                + job_id.octets() + seq![0u8] + label + seq![0u8] + attempt + sequence);
        }
    }
}

/// A value is read back exactly from an envelope with its mark, in the one spelling of its bytes,
/// and that holds a nonce, a tag and more between them, sealed for this place.
pub proof fn envelopes_are_opened_in_their_one_spelling(
    key: Seq<u8>,
    job_id: Uuid,
    direction: StorageDirection,
    sealed: Seq<u8>,
)
    requires
        sealed.len() > 28,
        crypto::base64_url_bytes(crypto::base64_url_text(sealed)) == Some(sealed),
        crypto::base64_url_text(sealed).len() > 0,
        text::byte_length(crypto::base64_url_text(sealed)) <= 2_600_000,
    ensures
        stored_value(
            key,
            job_id,
            direction,
            "mindone-standard-aead-v1:"@ + crypto::base64_url_text(sealed),
        ) == crypto::aes_256_gcm_opened(
            subkey(key, "MindOne Standard AEAD encryption key v1"@),
            sealed.take(12),
            associated_data(job_id, direction),
            sealed.skip(12),
        ),
{
    text::prefixes_are_taken_off(
        "mindone-standard-aead-v1:"@ + crypto::base64_url_text(sealed),
        "mindone-standard-aead-v1:"@,
        crypto::base64_url_text(sealed),
    );
}

/// Nothing but an envelope holds a value.
pub proof fn only_envelopes_hold_values(
    key: Seq<u8>,
    job_id: Uuid,
    direction: StorageDirection,
    envelope: Seq<char>,
)
    requires
        stored_value(key, job_id, direction, envelope) is Some,
    ensures
        "mindone-standard-aead-v1:"@.is_prefix_of(envelope),
        crypto::base64_url_bytes(envelope.skip("mindone-standard-aead-v1:"@.len() as int))
            matches Some(sealed) && sealed.len() > 28 && envelope
            == "mindone-standard-aead-v1:"@ + crypto::base64_url_text(sealed),
{
    let mark = "mindone-standard-aead-v1:"@;
    assert(text::starts_with(envelope, mark));
    assert(envelope =~= mark + envelope.skip(mark.len() as int));
}

/// A fingerprint is a mark and a keyed hash of the digest of the request, under a key that serves
/// nothing else; and so is what commits to the master key.
pub proof fn fingerprints_are_keyed(key: Seq<u8>, digest: Seq<u8>, request: Seq<u8>)
    ensures
        keyed_fingerprint(key, digest) == "mindone-standard-hmac-v1:"@ + text::lower_hex(
            crypto::hmac_sha256(
                subkey(key, "MindOne Standard fingerprint HMAC key v1"@),
                vstd::utf8::encode_utf8("MindOne Standard request fingerprint storage v1\0"@)
                    + digest,
            ),
        ),
        request_digest(request) == crypto::sha256(
            vstd::utf8::encode_utf8("MindOne Standard create idempotency fingerprint v1\0"@)
                + request,
        ),
        commitment(key) == crypto::hmac_sha256(
            subkey(key, "MindOne Standard key commitment key v1"@),
            vstd::utf8::encode_utf8("MindOne Standard database key commitment v1"@),
        ),
{
}

/// What is stored in the clear is sealed, and what is sealed already is kept; a version that is
/// unknown, or that does not fit the value, stops the job.
pub proof fn clear_values_are_sealed(job: StoredJob)
    ensures
        job.payload_version == 0 ==> payload_step(job) == Some(ValueStep::Seal),
        job.payload_version == 1 && "mindone-standard-aead-v1:"@.is_prefix_of(job.payload@)
            ==> payload_step(job) == Some(ValueStep::Keep),
        job.payload_version != 0 && !(job.payload_version == 1
            && "mindone-standard-aead-v1:"@.is_prefix_of(job.payload@)) ==> payload_step(job)
            is None,
        job.result_version is None && job.result is None <==> result_step(job) == Some(
            ValueStep::Absent,
        ),
        job.result_version == Some(0i16) && job.result is Some ==> result_step(job) == Some(
            ValueStep::Seal,
        ),
        job.result_version == Some(1i16) && (job.result matches Some(result)
            && "mindone-standard-aead-v1:"@.is_prefix_of(result@)) ==> result_step(job) == Some(
            ValueStep::Keep,
        ),
        job.result_version is Some != job.result is Some ==> result_step(job) is None,
        result_step(job) == Some(ValueStep::Seal) ==> job.result_version == Some(0i16),
        result_step(job) == Some(ValueStep::Keep) ==> job.result_version == Some(1i16),
{
    let mark = "mindone-standard-aead-v1:"@;
    if mark.is_prefix_of(job.payload@) {
        assert(job.payload@.take(mark.len() as int) =~= mark);
    } else if text::starts_with(job.payload@, mark) {
        assert(mark =~= job.payload@.subrange(0, mark.len() as int));
    }
    if let Some(result) = job.result {
        if mark.is_prefix_of(result@) {
            assert(result@.take(mark.len() as int) =~= mark);
        }
    }
}

/// A fingerprint that is keyed is kept, a plain digest is keyed, and nothing else is a
/// fingerprint.
pub proof fn plain_digests_are_keyed(job: StoredJob)
    ensures
        fingerprint_step(job) == Some(FingerprintStep::Keep) ==> (job.fingerprint matches Some(
            value,
        ) && "mindone-standard-hmac-v1:"@.is_prefix_of(value@) && value@.len()
            == "mindone-standard-hmac-v1:"@.len() + 64),
        fingerprint_step(job) == Some(FingerprintStep::Key) ==> (job.fingerprint matches Some(value)
            && value@.len() == 64 && crypto::is_hex(value@)),
        (job.fingerprint matches Some(value) && is_fingerprint(value@)) ==> fingerprint_step(job)
            == Some(FingerprintStep::Keep),
        (job.fingerprint matches Some(value) && value@.len() == 64 && crypto::is_hex(value@)
            && !"mindone-standard-hmac-v1:"@.is_prefix_of(value@)) ==> fingerprint_step(job)
            == Some(FingerprintStep::Key),
        job.fingerprint is None ==> fingerprint_step(job) is None,
{
    let mark = "mindone-standard-hmac-v1:"@;
    if let Some(value) = job.fingerprint {
        if text::starts_with(value@, mark) {
            assert(mark =~= value@.subrange(0, mark.len() as int));
        }
    }
}

/// A fingerprint is its mark and 64 hexadecimal digits in lower case.
pub proof fn fingerprints_have_their_form(digits: Seq<char>)
    ensures
        is_fingerprint("mindone-standard-hmac-v1:"@ + digits) <==> digits.len() == 64 && forall|
            i: int,
        | 0 <= i < 64 ==> '0' <= #[trigger] digits[i] <= '9' || 'a' <= digits[i] <= 'f',
{
    let mark = "mindone-standard-hmac-v1:"@;
    assert((mark + digits).take(mark.len() as int) =~= mark);
    assert((mark + digits).skip(mark.len() as int) =~= digits);
}

/// A value that is sealed can be read back as what it was, and one that is not is left alone.
pub proof fn migration_loses_nothing(
    step: ValueStep,
    key: Seq<u8>,
    job_id: Uuid,
    direction: StorageDirection,
    before: Seq<char>,
    after: Seq<char>,
)
    requires
        value_migrated(step, key, job_id, direction, before, after),
    ensures
        step == ValueStep::Seal ==> stored_value(key, job_id, direction, after) == Some(
            vstd::utf8::encode_utf8(before),
        ),
        step != ValueStep::Seal ==> after == before,
{
}

} // verus!
