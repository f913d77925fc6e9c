//! What a challenge of the coordinator is bound to: the commitments of a private
//! catalogue, and the digests over all that a challenge was issued with.

use vstd::prelude::*;

use crate::challenges::PrivateEvaluationCatalogEntry;
use crate::crypto;
use crate::error::ApiError;
use crate::ids::Uuid;
use crate::text;
use crate::text::{push_big_endian, push_bytes};

verus! {

pub const PRIVATE_COMMITMENT_VERSION: i32 = 2;

/// Where a challenge of the first kind of catalogue came from.
pub struct PrivateChallengeMetadata {
    pub catalog_id: String,
    pub catalog_entry_id: String,
    pub case_family: String,
    pub catalog_commitment: String,
    pub evaluator_id: String,
    pub evaluator_key_fingerprint: String,
    pub catalog_valid_until: i128,
}

impl PrivateChallengeMetadata {
    pub open spec fn texts(self) -> Seq<Seq<char>> {
        seq![
            self.catalog_id@,
            self.catalog_entry_id@,
            self.case_family@,
            self.catalog_commitment@,
            self.evaluator_id@,
            self.evaluator_key_fingerprint@,
        ]
    }
}

/// The keyed commitments that stand for a challenge of a private catalogue, and for
/// whom it was issued to.
pub struct PrivateV2Commitments {
    pub catalog_statement: String,
    pub catalog_id: String,
    pub catalog_entry: String,
    pub case_family: String,
    pub evaluator_id: String,
    pub evaluator_key: String,
    pub prompt: String,
    pub expected: String,
    pub account: String,
    pub device: String,
    pub node: String,
}

impl PrivateV2Commitments {
    pub open spec fn texts(self) -> Seq<Seq<char>> {
        seq![
            self.catalog_statement@,
            self.catalog_id@,
            self.catalog_entry@,
            self.case_family@,
            self.evaluator_id@,
            self.evaluator_key@,
            self.prompt@,
            self.expected@,
            self.account@,
            self.device@,
            self.node@,
        ]
    }
}

/// A text behind its length in bytes.
pub open spec fn length_prefixed(value: Seq<char>) -> Seq<u8> {
    text::big_endian(text::byte_length(value), 8) + vstd::utf8::encode_utf8(value)
}

/// Texts one after the other, each behind its length.
pub open spec fn all_prefixed(values: Seq<Seq<char>>) -> Seq<u8>
    decreases values.len(),
{
    if values.len() == 0 {
        Seq::empty()
    } else {
        length_prefixed(values[0]) + all_prefixed(values.drop_first())
    }
}

proof fn lemma_all_prefixed_push(values: Seq<Seq<char>>, value: Seq<char>)
    ensures
        all_prefixed(values.push(value)) == all_prefixed(values) + length_prefixed(value),
    decreases values.len(),
{
    let longer = values.push(value);
    if values.len() == 0 {
        assert(longer.drop_first() =~= Seq::<Seq<char>>::empty());
        assert(all_prefixed(longer.drop_first()) =~= Seq::<u8>::empty());
        assert(all_prefixed(longer) =~= length_prefixed(value));
    } else {
        assert(longer.drop_first() =~= values.drop_first().push(value));
        lemma_all_prefixed_push(values.drop_first(), value);
        assert(all_prefixed(longer) =~= all_prefixed(values) + length_prefixed(value));
    }
}

/// Appends a text behind its length.
fn push_length_prefixed(out: &mut Vec<u8>, value: &str)
    ensures
        final(out)@ == old(out)@ + length_prefixed(value@),
{
    let bytes = value.as_bytes();
    push_big_endian(out, bytes.len() as u128, 8);
    push_bytes(out, bytes);
    assert(out@ =~= old(out)@ + length_prefixed(value@));
}

/// Appends texts one after the other, each behind its length.
fn push_all_prefixed(out: &mut Vec<u8>, values: &Vec<&str>)
    ensures
        final(out)@ == old(out)@ + all_prefixed(values@.map_values(|value: &str| value@)),
{
    let ghost views = values@.map_values(|value: &str| value@);
    let mut i: usize = 0;
    assert(views.take(0) =~= Seq::<Seq<char>>::empty());
    assert(out@ =~= old(out)@ + all_prefixed(views.take(0)));
    while i < values.len()
        invariant
            i <= values@.len(),
            views == values@.map_values(|value: &str| value@),
            out@ == old(out)@ + all_prefixed(views.take(i as int)),
        decreases values@.len() - i,
    {
        push_length_prefixed(out, values[i]);
        proof {
            lemma_all_prefixed_push(views.take(i as int), views[i as int]);
            assert(views.take(i + 1) =~= views.take(i as int).push(views[i as int]));
            assert(out@ =~= old(out)@ + all_prefixed(views.take(i + 1)));
        }
        i += 1;
    }
    assert(views.take(views.len() as int) =~= views);
}

/// A number of 16 bytes in two's complement, the most significant byte first.
pub open spec fn wide(value: i128) -> Seq<u8> {
    text::big_endian((value as u128) as nat, 16)
}

/// A number of four bytes in two's complement, the most significant byte first.
pub open spec fn narrow(value: i32) -> Seq<u8> {
    text::big_endian((value as u32) as nat, 4)
}

/// Which private catalogue a challenge came from.
pub enum PrivateChallengeBinding<'a> {
    Legacy(&'a PrivateChallengeMetadata),
    V2 { commitments: &'a PrivateV2Commitments, catalog_valid_until: i128 },
}

/// A catalogue by its version, its texts and the end of its validity.
pub open spec fn binding_parts(binding: Option<PrivateChallengeBinding>) -> (
    u8,
    Seq<Seq<char>>,
    i128,
) {
    match binding {
        Some(PrivateChallengeBinding::Legacy(metadata)) => (
            1,
            metadata.texts(),
            metadata.catalog_valid_until,
        ),
        Some(PrivateChallengeBinding::V2 { commitments, catalog_valid_until }) => (
            2,
            commitments.texts(),
            catalog_valid_until,
        ),
        None => (0, Seq::empty(), 0),
    }
}

/// All that a challenge is issued with. Times are nanoseconds since the Unix epoch.
pub struct ChallengeBindingInput<'a> {
    pub challenge_id: Uuid,
    pub model_id: Uuid,
    pub model_instance_id: Uuid,
    pub node_id: Uuid,
    pub model_weights_hash: &'a str,
    pub challenge_nonce_hash: &'a str,
    pub prompt_binding: &'a str,
    pub expected_binding: &'a str,
    pub issued_at: i128,
    pub challenge_issued_expires_at: i128,
    pub authorized_input_tokens: i32,
    pub authorized_max_output_tokens: i32,
    pub inference_seed: u32,
    pub private_binding: Option<PrivateChallengeBinding<'a>>,
}

impl<'a> ChallengeBindingInput<'a> {
    pub open spec fn identifiers(self) -> Seq<u8> {
        identifier_bytes(self.challenge_id, self.model_id, self.model_instance_id, self.node_id)
    }

    pub open spec fn texts(self) -> Seq<Seq<char>> {
        seq![
            self.model_weights_hash@,
            self.challenge_nonce_hash@,
            self.prompt_binding@,
            self.expected_binding@,
        ]
    }

    pub open spec fn numbers(self) -> Seq<u8> {
        number_bytes(
            self.issued_at,
            self.challenge_issued_expires_at,
            self.authorized_input_tokens,
            self.authorized_max_output_tokens,
            self.inference_seed as int,
        )
    }

    pub open spec fn catalogue(self) -> Seq<u8> {
        catalogue_bytes(binding_parts(self.private_binding))
    }

    /// The bytes that the binding is the digest of.
    pub open spec fn preimage(self) -> Seq<u8> {
        binding_bytes(self.identifiers(), self.texts(), self.numbers(), self.catalogue())
    }
}

pub open spec fn identifier_bytes(challenge: Uuid, model: Uuid, instance: Uuid, node: Uuid) -> Seq<
    u8,
> {
    challenge.octets() + model.octets() + instance.octets() + node.octets()
}

pub open spec fn number_bytes(
    issued_at: i128,
    expires_at: i128,
    input_tokens: i32,
    output_tokens: i32,
    inference_seed: int,
) -> Seq<u8> {
    wide(issued_at) + wide(expires_at) + narrow(input_tokens) + narrow(output_tokens)
        + text::big_endian(inference_seed as nat, 4)
}

/// A catalogue as bytes: its version, and behind that its texts and the end of its
/// validity.
pub open spec fn catalogue_bytes(parts: (u8, Seq<Seq<char>>, i128)) -> Seq<u8> {
    if parts.0 == 0 {
        seq![parts.0]
    } else {
        seq![parts.0] + (all_prefixed(parts.1) + wide(parts.2))
    }
}

/// The parts that a binding covers, behind a label.
pub open spec fn binding_bytes(
    identifiers: Seq<u8>,
    texts: Seq<Seq<char>>,
    numbers: Seq<u8>,
    catalogue: Seq<u8>,
) -> Seq<u8> {
    vstd::utf8::encode_utf8("mindone:hidden-challenge-binding:v1\0"@) + (identifiers + (all_prefixed(
        texts,
    ) + (numbers + catalogue)))
}

/// The SHA-256 digest of a byte string, in hexadecimal digits.
pub open spec fn digest_text(bytes: Seq<u8>) -> Seq<char> {
    text::lower_hex(crypto::sha256(bytes))
}

pub fn hex_digest(bytes: &[u8]) -> (digest: String)
    ensures
        digest@ == digest_text(bytes@),
        text::is_lower_hex(digest@, 64),
{
    let digest = crypto::sha256_digest(bytes);
    proof {
        text::lemma_lower_hex_digits(digest@);
    }
    crypto::hex_encode(digest.as_slice())
}

fn push_wide(out: &mut Vec<u8>, value: i128)
    ensures
        final(out)@ == old(out)@ + wide(value),
{
    push_big_endian(out, value as u128, 16);
}

fn push_narrow(out: &mut Vec<u8>, value: i32)
    ensures
        final(out)@ == old(out)@ + narrow(value),
{
    push_big_endian(out, (value as u32) as u128, 4);
}

fn push_catalogue(out: &mut Vec<u8>, input: &ChallengeBindingInput)
    ensures
        final(out)@ == old(out)@ + input.catalogue(),
{
    match &input.private_binding {
        Some(PrivateChallengeBinding::Legacy(metadata)) => {
            let values = vec![
                metadata.catalog_id.as_str(),
                metadata.catalog_entry_id.as_str(),
                metadata.case_family.as_str(),
                metadata.catalog_commitment.as_str(),
                metadata.evaluator_id.as_str(),
                metadata.evaluator_key_fingerprint.as_str(),
            ];
            assert(values@.map_values(|value: &str| value@) =~= metadata.texts());
            out.push(1);
            push_all_prefixed(out, &values);
            push_wide(out, metadata.catalog_valid_until);
        },
        Some(PrivateChallengeBinding::V2 { commitments, catalog_valid_until }) => {
            let values = vec![
                commitments.catalog_statement.as_str(),
                commitments.catalog_id.as_str(),
                commitments.catalog_entry.as_str(),
                commitments.case_family.as_str(),
                commitments.evaluator_id.as_str(),
                commitments.evaluator_key.as_str(),
                commitments.prompt.as_str(),
                commitments.expected.as_str(),
                commitments.account.as_str(),
                commitments.device.as_str(),
                commitments.node.as_str(),
            ];
            assert(values@.map_values(|value: &str| value@) =~= commitments.texts());
            out.push(2);
            push_all_prefixed(out, &values);
            push_wide(out, *catalog_valid_until);
        },
        None => {
            out.push(0);
        },
    }
    assert(out@ =~= old(out)@ + input.catalogue());
}

/// The digest that binds a challenge to all that it was issued with.
pub fn challenge_binding_hash(input: &ChallengeBindingInput) -> (hash: String)
    ensures
        hash@ == digest_text(input.preimage()),
        text::is_lower_hex(hash@, 64),
{
    let mut bytes: Vec<u8> = Vec::new();
    push_bytes(&mut bytes, "mindone:hidden-challenge-binding:v1\0".as_bytes());
    input.challenge_id.push_octets(&mut bytes);
    input.model_id.push_octets(&mut bytes);
    input.model_instance_id.push_octets(&mut bytes);
    input.node_id.push_octets(&mut bytes);
    let ghost label = vstd::utf8::encode_utf8("mindone:hidden-challenge-binding:v1\0"@);
    assert(bytes@ =~= label + input.identifiers());
    let values = vec![
        input.model_weights_hash,
        input.challenge_nonce_hash,
        input.prompt_binding,
        input.expected_binding,
    ];
    assert(values@.map_values(|value: &str| value@) =~= input.texts());
    push_all_prefixed(&mut bytes, &values);
    let ghost before = bytes@;
    push_wide(&mut bytes, input.issued_at);
    push_wide(&mut bytes, input.challenge_issued_expires_at);
    push_narrow(&mut bytes, input.authorized_input_tokens);
    push_narrow(&mut bytes, input.authorized_max_output_tokens);
    push_big_endian(&mut bytes, input.inference_seed as u128, 4);
    assert(bytes@ =~= before + input.numbers());
    push_catalogue(&mut bytes, input);
    assert(bytes@ =~= input.preimage());
    hex_digest(bytes.as_slice())
}

/// What stands before two equal texts of which the first parts are equally long.
proof fn lemma_split(a: Seq<u8>, x: Seq<u8>, b: Seq<u8>, y: Seq<u8>)
    requires
        a.len() == b.len(),
        a + x == b + y,
    ensures
        a == b,
        x == y,
{
    let whole = a + x;
    assert(whole.take(a.len() as int) =~= a);
    assert((b + y).take(a.len() as int) =~= b);
    assert(whole.skip(a.len() as int) =~= x);
    assert((b + y).skip(a.len() as int) =~= y);
}

/// A text that a machine can hold.
pub open spec fn fits(value: Seq<char>) -> bool {
    text::byte_length(value) <= usize::MAX
}

pub open spec fn all_fit(values: Seq<Seq<char>>) -> bool {
    forall|i: int| 0 <= i < values.len() ==> fits(#[trigger] values[i])
}

proof fn lemma_length_prefixed_injective(a: Seq<char>, x: Seq<u8>, b: Seq<char>, y: Seq<u8>)
    requires
        fits(a),
        fits(b),
        length_prefixed(a) + x == length_prefixed(b) + y,
    ensures
        a == b,
        x == y,
{
    let la = text::big_endian(text::byte_length(a), 8);
    let lb = text::big_endian(text::byte_length(b), 8);
    let ua = vstd::utf8::encode_utf8(a);
    let ub = vstd::utf8::encode_utf8(b);
    text::lemma_big_endian_length(text::byte_length(a), 8);
    text::lemma_big_endian_length(text::byte_length(b), 8);
    assert(length_prefixed(a) + x =~= la + (ua + x));
    assert(length_prefixed(b) + y =~= lb + (ub + y));
    lemma_split(la, ua + x, lb, ub + y);
    assert(text::byte_range(8) == 0x1_0000_0000_0000_0000) by {
        reveal_with_fuel(text::byte_range, 9);
    }
    text::lemma_big_endian_injective(text::byte_length(a), text::byte_length(b), 8);
    lemma_split(ua, x, ub, y);
    vstd::utf8::encode_utf8_decode_utf8(a);
    vstd::utf8::encode_utf8_decode_utf8(b);
}

proof fn lemma_all_prefixed_injective(
    a: Seq<Seq<char>>,
    x: Seq<u8>,
    b: Seq<Seq<char>>,
    y: Seq<u8>,
)
    requires
        a.len() == b.len(),
        all_fit(a),
        all_fit(b),
        all_prefixed(a) + x == all_prefixed(b) + y,
    ensures
        a == b,
        x == y,
    decreases a.len(),
{
    if a.len() == 0 {
        assert(all_prefixed(a) + x =~= x);
        assert(all_prefixed(b) + y =~= y);
        assert(a =~= b);
    } else {
        let ra = all_prefixed(a.drop_first());
        let rb = all_prefixed(b.drop_first());
        assert(all_prefixed(a) + x =~= length_prefixed(a[0]) + (ra + x));
        assert(all_prefixed(b) + y =~= length_prefixed(b[0]) + (rb + y));
        lemma_length_prefixed_injective(a[0], ra + x, b[0], rb + y);
        assert(all_fit(a.drop_first())) by {
            assert forall|i: int| 0 <= i < a.len() - 1 implies fits(
                #[trigger] a.drop_first()[i],
            ) by {
                assert(fits(a[i + 1]));
            }
        }
        assert(all_fit(b.drop_first())) by {
            assert forall|i: int| 0 <= i < b.len() - 1 implies fits(
                #[trigger] b.drop_first()[i],
            ) by {
                assert(fits(b[i + 1]));
            }
        }
        lemma_all_prefixed_injective(a.drop_first(), x, b.drop_first(), y);
        assert(a =~= seq![a[0]] + a.drop_first());
        assert(b =~= seq![b[0]] + b.drop_first());
    }
}

proof fn lemma_wide_injective(a: i128, x: Seq<u8>, b: i128, y: Seq<u8>)
    requires
        wide(a) + x == wide(b) + y,
    ensures
        a == b,
        x == y,
{
    text::lemma_big_endian_length((a as u128) as nat, 16);
    text::lemma_big_endian_length((b as u128) as nat, 16);
    lemma_split(wide(a), x, wide(b), y);
    assert(text::byte_range(16) == 0x1_0000_0000_0000_0000_0000_0000_0000_0000) by {
        reveal_with_fuel(text::byte_range, 17);
    }
    text::lemma_big_endian_injective((a as u128) as nat, (b as u128) as nat, 16);
    assert(a as u128 == b as u128 ==> a == b) by (bit_vector);
}

proof fn lemma_narrow_injective(a: i32, x: Seq<u8>, b: i32, y: Seq<u8>)
    requires
        narrow(a) + x == narrow(b) + y,
    ensures
        a == b,
        x == y,
{
    text::lemma_big_endian_length((a as u32) as nat, 4);
    text::lemma_big_endian_length((b as u32) as nat, 4);
    lemma_split(narrow(a), x, narrow(b), y);
    assert(text::byte_range(4) == 0x1_0000_0000) by {
        reveal_with_fuel(text::byte_range, 5);
    }
    text::lemma_big_endian_injective((a as u32) as nat, (b as u32) as nat, 4);
    assert(a as u32 == b as u32 ==> a == b) by (bit_vector);
}

proof fn lemma_octets_injective(a: Uuid, x: Seq<u8>, b: Uuid, y: Seq<u8>)
    requires
        a.octets() + x == b.octets() + y,
    ensures
        a == b,
        x == y,
{
    text::lemma_big_endian_length(a.value as nat, 16);
    text::lemma_big_endian_length(b.value as nat, 16);
    lemma_split(a.octets(), x, b.octets(), y);
    assert(text::byte_range(16) == 0x1_0000_0000_0000_0000_0000_0000_0000_0000) by {
        reveal_with_fuel(text::byte_range, 17);
    }
    text::lemma_big_endian_injective(a.value as nat, b.value as nat, 16);
}

/// The catalogue takes all the rest of the bytes.
proof fn lemma_catalogue_injective(a: ChallengeBindingInput, b: ChallengeBindingInput)
    requires
        all_fit(binding_parts(a.private_binding).1),
        all_fit(binding_parts(b.private_binding).1),
        a.catalogue() == b.catalogue(),
    ensures
        binding_parts(a.private_binding) == binding_parts(b.private_binding),
{
    let (va, ta, ea) = binding_parts(a.private_binding);
    let (vb, tb, eb) = binding_parts(b.private_binding);
    assert(a.catalogue()[0] == va);
    assert(b.catalogue()[0] == vb);
    if va != 0 {
        let ra = all_prefixed(ta) + wide(ea);
        let rb = all_prefixed(tb) + wide(eb);
        lemma_split(seq![va], ra, seq![vb], rb);
        assert(ta.len() == tb.len());
        lemma_all_prefixed_injective(ta, wide(ea), tb, wide(eb));
        assert(wide(ea) + Seq::<u8>::empty() =~= wide(ea));
        assert(wide(eb) + Seq::<u8>::empty() =~= wide(eb));
        lemma_wide_injective(ea, Seq::empty(), eb, Seq::empty());
    }
}

proof fn lemma_numbers_injective(
    a: ChallengeBindingInput,
    x: Seq<u8>,
    b: ChallengeBindingInput,
    y: Seq<u8>,
)
    requires
        a.numbers() + x == b.numbers() + y,
    ensures
        a.issued_at == b.issued_at,
        a.challenge_issued_expires_at == b.challenge_issued_expires_at,
        a.authorized_input_tokens == b.authorized_input_tokens,
        a.authorized_max_output_tokens == b.authorized_max_output_tokens,
        a.inference_seed == b.inference_seed,
        x == y,
{
    let sa = text::big_endian(a.inference_seed as nat, 4);
    let sb = text::big_endian(b.inference_seed as nat, 4);
    let a4 = narrow(a.authorized_max_output_tokens) + (sa + x);
    let b4 = narrow(b.authorized_max_output_tokens) + (sb + y);
    let a3 = narrow(a.authorized_input_tokens) + a4;
    let b3 = narrow(b.authorized_input_tokens) + b4;
    let a2 = wide(a.challenge_issued_expires_at) + a3;
    let b2 = wide(b.challenge_issued_expires_at) + b3;
    assert(a.numbers() + x =~= wide(a.issued_at) + a2);
    assert(b.numbers() + y =~= wide(b.issued_at) + b2);
    lemma_wide_injective(a.issued_at, a2, b.issued_at, b2);
    lemma_wide_injective(a.challenge_issued_expires_at, a3, b.challenge_issued_expires_at, b3);
    lemma_narrow_injective(a.authorized_input_tokens, a4, b.authorized_input_tokens, b4);
    lemma_narrow_injective(
        a.authorized_max_output_tokens,
        sa + x,
        b.authorized_max_output_tokens,
        sb + y,
    );
    text::lemma_big_endian_length(a.inference_seed as nat, 4);
    text::lemma_big_endian_length(b.inference_seed as nat, 4);
    lemma_split(sa, x, sb, y);
    assert(text::byte_range(4) == 0x1_0000_0000) by {
        reveal_with_fuel(text::byte_range, 5);
    }
    text::lemma_big_endian_injective(a.inference_seed as nat, b.inference_seed as nat, 4);
}

/// Two challenges were issued with the same: the same identifiers, hashes, times, limits
/// and commitments.
pub open spec fn issued_alike(first: ChallengeBindingInput, second: ChallengeBindingInput) -> bool {
    &&& first.challenge_id == second.challenge_id
    &&& first.model_id == second.model_id
    &&& first.model_instance_id == second.model_instance_id
    &&& first.node_id == second.node_id
    &&& first.texts() == second.texts()
    &&& first.issued_at == second.issued_at
    &&& first.challenge_issued_expires_at == second.challenge_issued_expires_at
    &&& first.authorized_input_tokens == second.authorized_input_tokens
    &&& first.authorized_max_output_tokens == second.authorized_max_output_tokens
    &&& first.inference_seed == second.inference_seed
    &&& binding_parts(first.private_binding) == binding_parts(second.private_binding)
}

/// A binding covers everything: challenges whose bindings are digests of the same
/// bytes agree on every identifier, hash, time, limit and commitment.
pub proof fn bindings_cover_everything(first: ChallengeBindingInput, second: ChallengeBindingInput)
    requires
        all_fit(first.texts()),
        all_fit(second.texts()),
        all_fit(binding_parts(first.private_binding).1),
        all_fit(binding_parts(second.private_binding).1),
        first.preimage() == second.preimage(),
    ensures
        issued_alike(first, second),
{
    let label = vstd::utf8::encode_utf8("mindone:hidden-challenge-binding:v1\0"@);
    let na = first.numbers() + first.catalogue();
    let nb = second.numbers() + second.catalogue();
    let ta = all_prefixed(first.texts()) + na;
    let tb = all_prefixed(second.texts()) + nb;
    lemma_split(label, first.identifiers() + ta, label, second.identifiers() + tb);
    let a4 = first.node_id.octets() + ta;
    let b4 = second.node_id.octets() + tb;
    let a3 = first.model_instance_id.octets() + a4;
    let b3 = second.model_instance_id.octets() + b4;
    let a2 = first.model_id.octets() + a3;
    let b2 = second.model_id.octets() + b3;
    assert(first.identifiers() + ta =~= first.challenge_id.octets() + a2);
    assert(second.identifiers() + tb =~= second.challenge_id.octets() + b2);
    lemma_octets_injective(first.challenge_id, a2, second.challenge_id, b2);
    lemma_octets_injective(first.model_id, a3, second.model_id, b3);
    lemma_octets_injective(first.model_instance_id, a4, second.model_instance_id, b4);
    lemma_octets_injective(first.node_id, ta, second.node_id, tb);
    lemma_all_prefixed_injective(first.texts(), na, second.texts(), nb);
    lemma_numbers_injective(first, first.catalogue(), second, second.catalogue());
    lemma_catalogue_injective(first, second);
}

/// The hash of a binding tells challenges apart: unless SHA-256 gives one digest for both,
/// two challenges have the same hash exactly if they agree on everything that they were
/// issued with. So a change of one part alone, be it the end of the first lease or the end
/// of the catalogue's validity, changes the hash.
pub proof fn binding_hashes_tell_challenges_apart(
    first: ChallengeBindingInput,
    second: ChallengeBindingInput,
)
    requires
        all_fit(first.texts()),
        all_fit(second.texts()),
        all_fit(binding_parts(first.private_binding).1),
        all_fit(binding_parts(second.private_binding).1),
        crypto::sha256(first.preimage()) == crypto::sha256(second.preimage()) ==> first.preimage()
            == second.preimage(),
    ensures
        digest_text(first.preimage()) == digest_text(second.preimage()) <==> issued_alike(
            first,
            second,
        ),
{
    if digest_text(first.preimage()) == digest_text(second.preimage()) {
        text::lemma_lower_hex_injective(
            crypto::sha256(first.preimage()),
            crypto::sha256(second.preimage()),
        );
        bindings_cover_everything(first, second);
    }
}

/// The bytes that the scope of an arbitration is the digest of.
pub open spec fn scope_preimage(
    version: i32,
    model_weights_hash: Seq<char>,
    evaluator_key: Seq<char>,
    case_family: Seq<char>,
) -> Seq<u8> {
    let texts = all_prefixed(seq![model_weights_hash, evaluator_key, case_family]);
    if version == 1 {
        vstd::utf8::encode_utf8("mindone:model-authenticity-arbitration-scope:v1\0"@) + texts
    } else {
        vstd::utf8::encode_utf8("mindone:model-authenticity-arbitration-scope:v2\0"@) + (narrow(
            version,
        ) + texts)
    }
}

/// The key of the scope within which results of different instances are compared: the
/// same weights, the same evaluator, and the same family of cases.
pub fn private_arbitration_scope_key(
    version: i32,
    model_weights_hash: &str,
    evaluator_key_fingerprint: &str,
    case_family: &str,
) -> (key: String)
    ensures
        key@ == digest_text(
            scope_preimage(
                version,
                model_weights_hash@,
                evaluator_key_fingerprint@,
                case_family@,
            ),
        ),
        text::is_lower_hex(key@, 64),
{
    let mut bytes: Vec<u8> = Vec::new();
    if version == 1 {
        push_bytes(&mut bytes, "mindone:model-authenticity-arbitration-scope:v1\0".as_bytes());
    } else {
        push_bytes(&mut bytes, "mindone:model-authenticity-arbitration-scope:v2\0".as_bytes());
        push_narrow(&mut bytes, version);
    }
    let values = vec![model_weights_hash, evaluator_key_fingerprint, case_family];
    assert(values@.map_values(|value: &str| value@) =~= seq![
        model_weights_hash@,
        evaluator_key_fingerprint@,
        case_family@,
    ]);
    push_all_prefixed(&mut bytes, &values);
    assert(bytes@ =~= scope_preimage(
        version,
        model_weights_hash@,
        evaluator_key_fingerprint@,
        case_family@,
    ));
    hex_digest(bytes.as_slice())
}

/// Evaluators do not share a scope, nor do catalogues of different versions, models of
/// different weights, or different families of cases.
pub proof fn scopes_separate_trust_domains(
    first_version: i32,
    first_weights: Seq<char>,
    first_evaluator: Seq<char>,
    first_family: Seq<char>,
    second_version: i32,
    second_weights: Seq<char>,
    second_evaluator: Seq<char>,
    second_family: Seq<char>,
)
    requires
        fits(first_weights),
        fits(first_evaluator),
        fits(first_family),
        fits(second_weights),
        fits(second_evaluator),
        fits(second_family),
        scope_preimage(first_version, first_weights, first_evaluator, first_family)
            == scope_preimage(second_version, second_weights, second_evaluator, second_family),
    ensures
        first_version == second_version,
        first_weights == second_weights,
        first_evaluator == second_evaluator,
        first_family == second_family,
{
    let one = "mindone:model-authenticity-arbitration-scope:v1\0"@;
    let two = "mindone:model-authenticity-arbitration-scope:v2\0"@;
    reveal_strlit("mindone:model-authenticity-arbitration-scope:v1\0");
    reveal_strlit("mindone:model-authenticity-arbitration-scope:v2\0");
    assert(one.len() == 48 && two.len() == 48);
    assert(one[46] == '1' && two[46] == '2');
    lemma_ascii_label(one);
    lemma_ascii_label(two);
    let first_texts = seq![first_weights, first_evaluator, first_family];
    let second_texts = seq![second_weights, second_evaluator, second_family];
    let a = all_prefixed(first_texts);
    let b = all_prefixed(second_texts);
    let first_label = vstd::utf8::encode_utf8(if first_version == 1 { one } else { two });
    let second_label = vstd::utf8::encode_utf8(if second_version == 1 { one } else { two });
    let first_rest = if first_version == 1 { a } else { narrow(first_version) + a };
    let second_rest = if second_version == 1 { b } else { narrow(second_version) + b };
    lemma_split(first_label, first_rest, second_label, second_rest);
    assert((first_version == 1) == (second_version == 1));
    if first_version != 1 {
        lemma_narrow_injective(first_version, a, second_version, b);
    }
    assert(a + Seq::<u8>::empty() =~= a);
    assert(b + Seq::<u8>::empty() =~= b);
    lemma_all_prefixed_injective(first_texts, Seq::empty(), second_texts, Seq::empty());
    assert(first_texts[0] == second_texts[0] && first_texts[1] == second_texts[1]
        && first_texts[2] == second_texts[2]);
}

proof fn lemma_ascii_label(label: Seq<char>)
    requires
        label == "mindone:model-authenticity-arbitration-scope:v1\0"@ || label
            == "mindone:model-authenticity-arbitration-scope:v2\0"@,
    ensures
        vstd::utf8::encode_utf8(label).len() == 48,
        vstd::utf8::encode_utf8(label)[46] == label[46] as u8,
{
    reveal_strlit("mindone:model-authenticity-arbitration-scope:v1\0");
    reveal_strlit("mindone:model-authenticity-arbitration-scope:v2\0");
    assert(vstd::utf8::is_ascii_chars(label));
    vstd::utf8::is_ascii_chars_encode_utf8(label);
}

/// The digest by which a submission is recognised when it is sent again: of its kind
/// and of the whole request, as it was serialised.
pub open spec fn submission_digest(kind: Seq<char>, encoded: Seq<u8>) -> Seq<char> {
    digest_text(
        vstd::utf8::encode_utf8("mindone:hidden-job-submission:v1\0"@) + vstd::utf8::encode_utf8(
            kind,
        ).push(0) + encoded,
    )
}

pub fn submission_request_hash(kind: &str, encoded: &[u8]) -> (hash: String)
    ensures
        hash@ == submission_digest(kind@, encoded@),
        text::is_lower_hex(hash@, 64),
{
    let mut bytes: Vec<u8> = Vec::new();
    push_bytes(&mut bytes, "mindone:hidden-job-submission:v1\0".as_bytes());
    push_bytes(&mut bytes, kind.as_bytes());
    bytes.push(0);
    push_bytes(&mut bytes, encoded);
    assert(bytes@ =~= vstd::utf8::encode_utf8("mindone:hidden-job-submission:v1\0"@)
        + vstd::utf8::encode_utf8(kind@).push(0) + encoded@);
    hex_digest(bytes.as_slice())
}

/// The commitment to a result that is kept once its challenge is over: a digest of the
/// job, its secret seed and the value.
pub open spec fn result_commitment(job_id: Uuid, seed: Seq<u8>, value: Seq<u8>) -> Seq<char> {
    digest_text(
        vstd::utf8::encode_utf8("mindone:hidden-job-result:v1\0"@) + (job_id.octets() + (seed
            + value)),
    )
}

pub fn salted_commitment(job_id: Uuid, seed: &[u8; 32], value: &[u8]) -> (commitment: String)
    ensures
        commitment@ == result_commitment(job_id, seed@, value@),
        text::is_lower_hex(commitment@, 64),
{
    let mut bytes: Vec<u8> = Vec::new();
    push_bytes(&mut bytes, "mindone:hidden-job-result:v1\0".as_bytes());
    job_id.push_octets(&mut bytes);
    push_bytes(&mut bytes, seed.as_slice());
    push_bytes(&mut bytes, value);
    assert(bytes@ =~= vstd::utf8::encode_utf8("mindone:hidden-job-result:v1\0"@) + (job_id.octets()
        + (seed@ + value@)));
    hex_digest(bytes.as_slice())
}

/// Whether two byte strings are the same. Every byte is looked at, whether or not a
/// difference was found before it.
pub fn constant_time_equal(left: &[u8], right: &[u8]) -> (equal: bool)
    ensures
        equal == (left@ == right@),
{
    if left.len() != right.len() {
        return false;
    }
    let mut difference: u8 = 0;
    let mut i: usize = 0;
    assert(left@.take(0) =~= right@.take(0));
    while i < left.len()
        invariant
            i <= left@.len(),
            left@.len() == right@.len(),
            difference == 0 <==> left@.take(i as int) == right@.take(i as int),
        decreases left@.len() - i,
    {
        let l = left[i];
        let r = right[i];
        let joined = difference | (l ^ r);
        assert((joined == 0) == (difference == 0 && l == r)) by (bit_vector)
            requires
                joined == difference | (l ^ r),
        ;
        proof {
            let a = left@.take(i + 1);
            let b = right@.take(i + 1);
            assert(a =~= left@.take(i as int).push(l));
            assert(b =~= right@.take(i as int).push(r));
            assert(a == b ==> a.last() == b.last() && a.drop_last() == b.drop_last());
            assert(a.drop_last() =~= left@.take(i as int));
            assert(b.drop_last() =~= right@.take(i as int));
        }
        difference = joined;
        i += 1;
    }
    assert(left@.take(left@.len() as int) =~= left@);
    assert(right@.take(right@.len() as int) =~= right@);
    difference == 0
}

/// A catalogue of private challenges whose signature was checked. Times are nanoseconds
/// since the Unix epoch.
pub struct VerifiedPrivateEvaluationCatalog {
    pub catalog_id: String,
    pub catalog_commitment: String,
    pub evaluator_id: String,
    pub evaluator_key_fingerprint: String,
    pub valid_until: i128,
}

impl PrivateChallengeMetadata {
    pub fn from_catalog(
        catalog: &VerifiedPrivateEvaluationCatalog,
        entry: &PrivateEvaluationCatalogEntry,
    ) -> (metadata: PrivateChallengeMetadata)
        ensures
            metadata.texts() == seq![
                catalog.catalog_id@,
                entry.entry_id@,
                entry.case_family@,
                catalog.catalog_commitment@,
                catalog.evaluator_id@,
                catalog.evaluator_key_fingerprint@,
            ],
            metadata.catalog_valid_until == catalog.valid_until,
    {
        PrivateChallengeMetadata {
            catalog_id: catalog.catalog_id.clone(),
            catalog_entry_id: entry.entry_id.clone(),
            case_family: entry.case_family.clone(),
            catalog_commitment: catalog.catalog_commitment.clone(),
            evaluator_id: catalog.evaluator_id.clone(),
            evaluator_key_fingerprint: catalog.evaluator_key_fingerprint.clone(),
            catalog_valid_until: catalog.valid_until,
        }
    }

    /// Overwrites every text.
    pub fn zeroize(&mut self)
        ensures
            final(self).texts() == Seq::new(6, |i: int| Seq::<char>::empty()),
            final(self).catalog_valid_until == old(self).catalog_valid_until,
    {
        crypto::wipe_text(&mut self.catalog_id);
        crypto::wipe_text(&mut self.catalog_entry_id);
        crypto::wipe_text(&mut self.case_family);
        crypto::wipe_text(&mut self.catalog_commitment);
        crypto::wipe_text(&mut self.evaluator_id);
        crypto::wipe_text(&mut self.evaluator_key_fingerprint);
        assert(self.texts() =~~= Seq::new(6, |i: int| Seq::<char>::empty()));
    }
}

/// What a keyed commitment is made over, which keeps commitments apart.
#[derive(Clone, Copy, Debug, PartialEq, Eq, Structural)]
pub enum PrivateEvaluationCommitmentDomain {
    CatalogStatement,
    CatalogId,
    EntryId,
    CaseFamily,
    EvaluatorId,
    EvaluatorKey,
    Prompt,
    ExpectedBehavior,
    AccountId,
    DeviceId,
    NodeId,
}

/// What the commitments of a challenge are made over, each under its domain.
pub open spec fn committed_values(
    catalog: VerifiedPrivateEvaluationCatalog,
    entry: PrivateEvaluationCatalogEntry,
    user_id: Uuid,
    device_key_id: Uuid,
    node_id: Uuid,
) -> Seq<(PrivateEvaluationCommitmentDomain, Seq<char>)> {
    seq![
        (PrivateEvaluationCommitmentDomain::CatalogStatement, catalog.catalog_commitment@),
        (PrivateEvaluationCommitmentDomain::CatalogId, catalog.catalog_id@),
        (PrivateEvaluationCommitmentDomain::EntryId, entry.entry_id@),
        (PrivateEvaluationCommitmentDomain::CaseFamily, entry.case_family@),
        (PrivateEvaluationCommitmentDomain::EvaluatorId, catalog.evaluator_id@),
        (PrivateEvaluationCommitmentDomain::EvaluatorKey, catalog.evaluator_key_fingerprint@),
        (PrivateEvaluationCommitmentDomain::Prompt, entry.prompt@),
        (PrivateEvaluationCommitmentDomain::ExpectedBehavior, entry.expected_behavior_sha256@),
        (PrivateEvaluationCommitmentDomain::AccountId, user_id.hyphenated()),
        (PrivateEvaluationCommitmentDomain::DeviceId, device_key_id.hyphenated()),
        (PrivateEvaluationCommitmentDomain::NodeId, node_id.hyphenated()),
    ]
}

impl PrivateV2Commitments {
    /// What is to be committed to for a challenge, in the order in which `assembled`
    /// takes the commitments.
    pub fn inputs(
        catalog: &VerifiedPrivateEvaluationCatalog,
        entry: &PrivateEvaluationCatalogEntry,
        user_id: Uuid,
        device_key_id: Uuid,
        node_id: Uuid,
    ) -> (values: Vec<(PrivateEvaluationCommitmentDomain, String)>)
        ensures
            values@.map_values(
                |value: (PrivateEvaluationCommitmentDomain, String)| (value.0, value.1@),
            ) == committed_values(*catalog, *entry, user_id, device_key_id, node_id),
    {
        let values = vec![
            (
                PrivateEvaluationCommitmentDomain::CatalogStatement,
                catalog.catalog_commitment.clone(),
            ),
            (PrivateEvaluationCommitmentDomain::CatalogId, catalog.catalog_id.clone()),
            (PrivateEvaluationCommitmentDomain::EntryId, entry.entry_id.clone()),
            (PrivateEvaluationCommitmentDomain::CaseFamily, entry.case_family.clone()),
            (PrivateEvaluationCommitmentDomain::EvaluatorId, catalog.evaluator_id.clone()),
            (
                PrivateEvaluationCommitmentDomain::EvaluatorKey,
                catalog.evaluator_key_fingerprint.clone(),
            ),
            (PrivateEvaluationCommitmentDomain::Prompt, entry.prompt.clone()),
            (
                PrivateEvaluationCommitmentDomain::ExpectedBehavior,
                entry.expected_behavior_sha256.clone(),
            ),
            (PrivateEvaluationCommitmentDomain::AccountId, user_id.text()),
            (PrivateEvaluationCommitmentDomain::DeviceId, device_key_id.text()),
            (PrivateEvaluationCommitmentDomain::NodeId, node_id.text()),
        ];
        assert(values@.map_values(
            |value: (PrivateEvaluationCommitmentDomain, String)| (value.0, value.1@),
        ) =~= committed_values(*catalog, *entry, user_id, device_key_id, node_id));
        values
    }

    /// Puts the commitments together, one for each of the inputs.
    pub fn assembled(commitments: &Vec<String>) -> (assembled: Result<PrivateV2Commitments, ApiError>)
        ensures
            match assembled {
                Ok(assembled) => commitments@.len() == 11 && assembled.texts()
                    == commitments@.map_values(|text: String| text@),
                Err(refused) => commitments@.len() != 11 && refused == ApiError::internal(),
            },
    {
        if commitments.len() != 11 {
            return Err(ApiError::internal());
        }
        let assembled = PrivateV2Commitments {
            catalog_statement: commitments[0].clone(),
            catalog_id: commitments[1].clone(),
            catalog_entry: commitments[2].clone(),
            case_family: commitments[3].clone(),
            evaluator_id: commitments[4].clone(),
            evaluator_key: commitments[5].clone(),
            prompt: commitments[6].clone(),
            expected: commitments[7].clone(),
            account: commitments[8].clone(),
            device: commitments[9].clone(),
            node: commitments[10].clone(),
        };
        assert(assembled.texts() =~= commitments@.map_values(|text: String| text@));
        Ok(assembled)
    }

    /// Overwrites every text.
    pub fn zeroize(&mut self)
        ensures
            final(self).texts() == Seq::new(11, |i: int| Seq::<char>::empty()),
    {
        crypto::wipe_text(&mut self.catalog_statement);
        crypto::wipe_text(&mut self.catalog_id);
        crypto::wipe_text(&mut self.catalog_entry);
        crypto::wipe_text(&mut self.case_family);
        crypto::wipe_text(&mut self.evaluator_id);
        crypto::wipe_text(&mut self.evaluator_key);
        crypto::wipe_text(&mut self.prompt);
        crypto::wipe_text(&mut self.expected);
        crypto::wipe_text(&mut self.account);
        crypto::wipe_text(&mut self.device);
        crypto::wipe_text(&mut self.node);
        assert(self.texts() =~~= Seq::new(11, |i: int| Seq::<char>::empty()));
    }
}

/// A list of texts is written one after the other, each with its length before it.
pub proof fn texts_are_written_with_their_length(values: Seq<Seq<char>>, value: Seq<char>)
    ensures
        all_prefixed(seq![value]) == text::big_endian(vstd::utf8::encode_utf8(value).len(), 8)
            + vstd::utf8::encode_utf8(value),
        all_prefixed(values.push(value)) == all_prefixed(values) + all_prefixed(seq![value]),
{
    lemma_all_prefixed_push(values, value);
    lemma_all_prefixed_push(Seq::empty(), value);
    assert(Seq::<Seq<char>>::empty().push(value) =~= seq![value]);
    assert(all_prefixed(Seq::<Seq<char>>::empty()) =~= Seq::<u8>::empty());
}

/// Numbers that are not below zero are written as what they are.
pub proof fn numbers_are_written_whole(narrow_value: i32, wide_value: i128)
    requires
        0 <= narrow_value,
        0 <= wide_value,
    ensures
        narrow(narrow_value) == text::big_endian(narrow_value as nat, 4),
        wide(wide_value) == text::big_endian(wide_value as nat, 16),
{
}

/// Each kind of hash has a mark of its own before what is hashed, so that none can stand for
/// another.
pub proof fn hashes_have_their_marks(
    identifiers: Seq<u8>,
    texts: Seq<Seq<char>>,
    numbers: Seq<u8>,
    catalogue: Seq<u8>,
    kind: Seq<char>,
    job_id: Uuid,
    seed: Seq<u8>,
    value: Seq<u8>,
)
    ensures
        vstd::utf8::encode_utf8("mindone:hidden-challenge-binding:v1\0"@).is_prefix_of(
            binding_bytes(identifiers, texts, numbers, catalogue),
        ),
        submission_digest(kind, value) == text::lower_hex(
            crypto::sha256(
                vstd::utf8::encode_utf8("mindone:hidden-job-submission:v1\0"@)
                    + vstd::utf8::encode_utf8(kind) + seq![0u8] + value,
            ),
        ),
        result_commitment(job_id, seed, value) == text::lower_hex(
            crypto::sha256(
                vstd::utf8::encode_utf8("mindone:hidden-job-result:v1\0"@) + job_id.octets() + seed
                    + value,
            ),
        ),
{
    let mark = vstd::utf8::encode_utf8("mindone:hidden-job-submission:v1\0"@);
    let named = vstd::utf8::encode_utf8(kind);
    assert(mark + named.push(0) + value =~= mark + named + seq![0u8] + value);
    let other = vstd::utf8::encode_utf8("mindone:hidden-job-result:v1\0"@);
    assert(other + (job_id.octets() + (seed + value)) =~= other + job_id.octets() + seed + value);
}

/// A challenge is bound to everything that it was issued with.
pub proof fn bindings_name_what_was_issued(input: ChallengeBindingInput)
    ensures
        input.preimage() == binding_bytes(
            input.challenge_id.octets() + input.model_id.octets()
                + input.model_instance_id.octets() + input.node_id.octets(),
            seq![
                input.model_weights_hash@,
                input.challenge_nonce_hash@,
                input.prompt_binding@,
                input.expected_binding@,
            ],
            wide(input.issued_at) + wide(input.challenge_issued_expires_at) + narrow(
                input.authorized_input_tokens,
            ) + narrow(input.authorized_max_output_tokens) + text::big_endian(
                input.inference_seed as nat,
                4,
            ),
            catalogue_bytes(binding_parts(input.private_binding)),
        ),
        input.private_binding is None ==> catalogue_bytes(binding_parts(input.private_binding))
            == seq![0u8],
        input.private_binding matches Some(PrivateChallengeBinding::Legacy(metadata)) ==> (
        catalogue_bytes(binding_parts(input.private_binding)) == seq![1u8] + all_prefixed(
            seq![
                metadata.catalog_id@,
                metadata.catalog_entry_id@,
                metadata.case_family@,
                metadata.catalog_commitment@,
                metadata.evaluator_id@,
                metadata.evaluator_key_fingerprint@,
            ],
        ) + wide(metadata.catalog_valid_until)),
        input.private_binding matches Some(
            PrivateChallengeBinding::V2 { commitments, catalog_valid_until },
        ) ==> (catalogue_bytes(binding_parts(input.private_binding)) == seq![2u8] + all_prefixed(
            seq![
                commitments.catalog_statement@,
                commitments.catalog_id@,
                commitments.catalog_entry@,
                commitments.case_family@,
                commitments.evaluator_id@,
                commitments.evaluator_key@,
                commitments.prompt@,
                commitments.expected@,
                commitments.account@,
                commitments.device@,
                commitments.node@,
            ],
        ) + wide(catalog_valid_until)),
{
    if let Some(PrivateChallengeBinding::Legacy(metadata)) = input.private_binding {
        let texts = all_prefixed(metadata.texts());
        assert(seq![1u8] + (texts + wide(metadata.catalog_valid_until)) =~= seq![1u8] + texts
            + wide(metadata.catalog_valid_until));
    }
    if let Some(PrivateChallengeBinding::V2 { commitments, catalog_valid_until }) =
        input.private_binding {
        let texts = all_prefixed(commitments.texts());
        assert(seq![2u8] + (texts + wide(catalog_valid_until)) =~= seq![2u8] + texts + wide(
            catalog_valid_until,
        ));
    }
}

/// What a private challenge is committed to: the catalogue, the entry and the evaluator, what is
/// asked and expected, and to whom it goes, each in a domain of its own.
pub proof fn commitments_cover_who_and_what(
    catalog: VerifiedPrivateEvaluationCatalog,
    entry: PrivateEvaluationCatalogEntry,
    user_id: Uuid,
    device_key_id: Uuid,
    node_id: Uuid,
)
    ensures
        ({
            let values = committed_values(catalog, entry, user_id, device_key_id, node_id);
            &&& values.len() == 11
            &&& values.contains(
                (PrivateEvaluationCommitmentDomain::CatalogStatement, catalog.catalog_commitment@),
            )
            &&& values.contains((PrivateEvaluationCommitmentDomain::CatalogId, catalog.catalog_id@))
            &&& values.contains((PrivateEvaluationCommitmentDomain::EntryId, entry.entry_id@))
            &&& values.contains((PrivateEvaluationCommitmentDomain::CaseFamily, entry.case_family@))
            &&& values.contains(
                (PrivateEvaluationCommitmentDomain::EvaluatorId, catalog.evaluator_id@),
            )
            &&& values.contains(
                (
                    PrivateEvaluationCommitmentDomain::EvaluatorKey,
                    catalog.evaluator_key_fingerprint@,
                ),
            )
            &&& values.contains((PrivateEvaluationCommitmentDomain::Prompt, entry.prompt@))
            &&& values.contains(
                (
                    PrivateEvaluationCommitmentDomain::ExpectedBehavior,
                    entry.expected_behavior_sha256@,
                ),
            )
            &&& values.contains((PrivateEvaluationCommitmentDomain::AccountId, user_id.hyphenated()))
            &&& values.contains(
                (PrivateEvaluationCommitmentDomain::DeviceId, device_key_id.hyphenated()),
            )
            &&& values.contains((PrivateEvaluationCommitmentDomain::NodeId, node_id.hyphenated()))
        }),
{
    let values = committed_values(catalog, entry, user_id, device_key_id, node_id);
    assert(values[0].0 == PrivateEvaluationCommitmentDomain::CatalogStatement);
    assert(values[1].0 == PrivateEvaluationCommitmentDomain::CatalogId);
    assert(values[2].0 == PrivateEvaluationCommitmentDomain::EntryId);
    assert(values[3].0 == PrivateEvaluationCommitmentDomain::CaseFamily);
    assert(values[4].0 == PrivateEvaluationCommitmentDomain::EvaluatorId);
    assert(values[5].0 == PrivateEvaluationCommitmentDomain::EvaluatorKey);
    assert(values[6].0 == PrivateEvaluationCommitmentDomain::Prompt);
    assert(values[7].0 == PrivateEvaluationCommitmentDomain::ExpectedBehavior);
    assert(values[8].0 == PrivateEvaluationCommitmentDomain::AccountId);
    assert(values[9].0 == PrivateEvaluationCommitmentDomain::DeviceId);
    assert(values[10].0 == PrivateEvaluationCommitmentDomain::NodeId);
}

} // verus!
