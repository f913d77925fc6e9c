//! What is stored of a challenge, and whether it still is what was issued.

use vstd::prelude::*;

use crate::billing;
use crate::billing::sha256_hex;
use crate::bindings;
use crate::bindings::{
    challenge_binding_hash, constant_time_equal, hex_digest, ChallengeBindingInput,
    PrivateChallengeBinding, PrivateChallengeMetadata, PrivateV2Commitments,
    PRIVATE_COMMITMENT_VERSION,
};
use crate::challenges;
use crate::challenges::{generate_legacy_challenge, GeneratedChallenge, PrivateEvaluationKind};
use crate::crypto;
use crate::error;
use crate::error::ApiError;
use crate::ids::Uuid;
use crate::jobs::StandardLimits;
use crate::text;

verus! {

/// The columns of a challenge that tell where it came from. Times are nanoseconds
/// since the Unix epoch.
pub struct PrivateColumns {
    pub commitment_version: Option<i32>,
    pub catalog_id: Option<String>,
    pub catalog_entry_id: Option<String>,
    pub case_family: Option<String>,
    pub catalog_commitment: Option<String>,
    pub evaluator_id: Option<String>,
    pub evaluator_key_fingerprint: Option<String>,
    pub catalog_valid_until: Option<i128>,
    pub catalog_statement_commitment: Option<String>,
    pub catalog_id_commitment: Option<String>,
    pub catalog_entry_commitment: Option<String>,
    pub case_family_commitment: Option<String>,
    pub evaluator_id_commitment: Option<String>,
    pub evaluator_key_commitment: Option<String>,
    pub prompt_commitment: Option<String>,
    pub expected_commitment: Option<String>,
    pub account_commitment: Option<String>,
    pub device_commitment: Option<String>,
    pub node_commitment: Option<String>,
}

impl PrivateColumns {
    /// The challenge came out of a catalogue of the first kind.
    pub open spec fn is_legacy(self) -> bool {
        self.commitment_version is None && self.catalog_commitment is Some
    }

    /// The challenge came out of a catalogue that is known by commitments alone.
    pub open spec fn is_committed(self) -> bool {
        self.commitment_version == Some(PRIVATE_COMMITMENT_VERSION)
    }

    pub open spec fn legacy_complete(self) -> bool {
        &&& self.catalog_id is Some
        &&& self.catalog_entry_id is Some
        &&& self.case_family is Some
        &&& self.catalog_commitment is Some
        &&& self.evaluator_id is Some
        &&& self.evaluator_key_fingerprint is Some
        &&& self.catalog_valid_until is Some
    }

    pub open spec fn legacy_texts(self) -> Seq<Seq<char>> {
        seq![
            self.catalog_id->0@,
            self.catalog_entry_id->0@,
            self.case_family->0@,
            self.catalog_commitment->0@,
            self.evaluator_id->0@,
            self.evaluator_key_fingerprint->0@,
        ]
    }

    pub open spec fn commitments_complete(self) -> bool {
        &&& is_commitment(self.catalog_statement_commitment)
        &&& is_commitment(self.catalog_id_commitment)
        &&& is_commitment(self.catalog_entry_commitment)
        &&& is_commitment(self.case_family_commitment)
        &&& is_commitment(self.evaluator_id_commitment)
        &&& is_commitment(self.evaluator_key_commitment)
        &&& is_commitment(self.prompt_commitment)
        &&& is_commitment(self.expected_commitment)
        &&& is_commitment(self.account_commitment)
        &&& is_commitment(self.device_commitment)
        &&& is_commitment(self.node_commitment)
    }

    pub open spec fn commitment_texts(self) -> Seq<Seq<char>> {
        seq![
            self.catalog_statement_commitment->0@,
            self.catalog_id_commitment->0@,
            self.catalog_entry_commitment->0@,
            self.case_family_commitment->0@,
            self.evaluator_id_commitment->0@,
            self.evaluator_key_commitment->0@,
            self.prompt_commitment->0@,
            self.expected_commitment->0@,
            self.account_commitment->0@,
            self.device_commitment->0@,
            self.node_commitment->0@,
        ]
    }

    /// All that must be stored of where the challenge came from is stored.
    pub open spec fn complete(self) -> bool {
        &&& self.commitment_version is None || (self.is_committed() && self.commitments_complete())
        &&& self.is_legacy() ==> self.legacy_complete()
    }

    /// The version of the catalogue, its texts, and the end of its validity.
    pub open spec fn parts(self) -> (u8, Seq<Seq<char>>, i128) {
        if self.is_committed() {
            (2, self.commitment_texts(), self.catalog_valid_until->0)
        } else if self.is_legacy() {
            (1, self.legacy_texts(), self.catalog_valid_until->0)
        } else {
            (0, Seq::empty(), 0)
        }
    }
}

/// 64 lower case hexadecimal digits.
pub open spec fn is_commitment(column: Option<String>) -> bool {
    column matches Some(commitment) && text::is_lower_hex(commitment@, 64)
}

/// Reads a commitment that must be there.
pub fn required_commitment(column: &Option<String>) -> (commitment: Result<String, ApiError>)
    ensures
        match commitment {
            Ok(commitment) => is_commitment(*column) && commitment@ == column->0@,
            Err(refused) => !is_commitment(*column) && refused == ApiError::internal(),
        },
{
    match column {
        Some(commitment) => if text::valid_lower_hex(commitment.as_str(), 64) {
            Ok(commitment.clone())
        } else {
            Err(ApiError::internal())
        },
        None => Err(ApiError::internal()),
    }
}

fn required_text(column: &Option<String>) -> (value: Result<String, ApiError>)
    ensures
        match value {
            Ok(value) => column is Some && value@ == column->0@,
            Err(refused) => column is None && refused == ApiError::internal(),
        },
{
    match column {
        Some(value) => Ok(value.clone()),
        None => Err(ApiError::internal()),
    }
}

/// Reads where a challenge of the first kind of catalogue came from; `None` for any
/// other challenge.
pub fn private_metadata_from_row(columns: &PrivateColumns) -> (metadata: Result<
    Option<PrivateChallengeMetadata>,
    ApiError,
>)
    ensures
        match metadata {
            Ok(None) => !columns.is_legacy(),
            Ok(Some(metadata)) => {
                &&& columns.is_legacy()
                &&& columns.legacy_complete()
                &&& metadata.texts() == columns.legacy_texts()
                &&& columns.catalog_valid_until == Some(metadata.catalog_valid_until)
            },
            Err(refused) => {
                &&& columns.is_legacy()
                &&& !columns.legacy_complete()
                &&& refused == ApiError::internal()
            },
        },
{
    if columns.commitment_version.is_some() || columns.catalog_commitment.is_none() {
        return Ok(None);
    }
    let catalog_id = required_text(&columns.catalog_id)?;
    let catalog_entry_id = required_text(&columns.catalog_entry_id)?;
    let case_family = required_text(&columns.case_family)?;
    let catalog_commitment = required_text(&columns.catalog_commitment)?;
    let evaluator_id = required_text(&columns.evaluator_id)?;
    let evaluator_key_fingerprint = required_text(&columns.evaluator_key_fingerprint)?;
    match columns.catalog_valid_until {
        Some(catalog_valid_until) => Ok(
            Some(
                PrivateChallengeMetadata {
                    catalog_id,
                    catalog_entry_id,
                    case_family,
                    catalog_commitment,
                    evaluator_id,
                    evaluator_key_fingerprint,
                    catalog_valid_until,
                },
            ),
        ),
        None => Err(ApiError::internal()),
    }
}

/// Reads the commitments of a challenge that is known by them alone; `None` for any
/// other challenge.
pub fn private_v2_commitments_from_row(columns: &PrivateColumns) -> (commitments: Result<
    Option<PrivateV2Commitments>,
    ApiError,
>)
    ensures
        match commitments {
            Ok(None) => columns.commitment_version is None,
            Ok(Some(commitments)) => {
                &&& columns.is_committed()
                &&& columns.commitments_complete()
                &&& commitments.texts() == columns.commitment_texts()
            },
            Err(refused) => {
                &&& columns.commitment_version is Some
                &&& !(columns.is_committed() && columns.commitments_complete())
                &&& refused == ApiError::internal()
            },
        },
{
    match columns.commitment_version {
        None => Ok(None),
        Some(version) => {
            if version != PRIVATE_COMMITMENT_VERSION {
                return Err(ApiError::internal());
            }
            let catalog_statement = required_commitment(&columns.catalog_statement_commitment)?;
            let catalog_id = required_commitment(&columns.catalog_id_commitment)?;
            let catalog_entry = required_commitment(&columns.catalog_entry_commitment)?;
            let case_family = required_commitment(&columns.case_family_commitment)?;
            let evaluator_id = required_commitment(&columns.evaluator_id_commitment)?;
            let evaluator_key = required_commitment(&columns.evaluator_key_commitment)?;
            let prompt = required_commitment(&columns.prompt_commitment)?;
            let expected = required_commitment(&columns.expected_commitment)?;
            let account = required_commitment(&columns.account_commitment)?;
            let device = required_commitment(&columns.device_commitment)?;
            let node = required_commitment(&columns.node_commitment)?;
            Ok(
                Some(
                    PrivateV2Commitments {
                        catalog_statement,
                        catalog_id,
                        catalog_entry,
                        case_family,
                        evaluator_id,
                        evaluator_key,
                        prompt,
                        expected,
                        account,
                        device,
                        node,
                    },
                ),
            )
        },
    }
}

/// What is stored of a challenge, and of the model that it is about. Times are
/// nanoseconds since the Unix epoch.
pub struct ChallengeRow {
    pub id: Uuid,
    pub model_id: Uuid,
    pub model_instance_id: Uuid,
    pub node_id: Uuid,
    pub challenge_kind: String,
    pub prompt_hash: Option<String>,
    pub expected_hash: Option<String>,
    pub issued_at: i128,
    pub model_weights_hash: Option<String>,
    pub current_model_weights_hash: String,
    pub challenge_nonce_hash: Option<String>,
    pub challenge_binding_hash: Option<String>,
    pub challenge_issued_expires_at: Option<i128>,
    pub authorized_input_tokens: Option<i32>,
    pub authorized_max_output_tokens: Option<i32>,
    pub inference_seed: Option<i64>,
    pub private: PrivateColumns,
}

/// What the database keeps of the prompt and of the answer, unless commitments stand
/// for them.
pub open spec fn question_texts(row: ChallengeRow) -> (Seq<char>, Seq<char>) {
    if row.private.is_committed() {
        (row.private.prompt_commitment->0@, row.private.expected_commitment->0@)
    } else {
        (row.prompt_hash->0@, row.expected_hash->0@)
    }
}

/// The bytes that the binding of a stored challenge is the digest of.
pub open spec fn stored_preimage(row: ChallengeRow) -> Seq<u8> {
    bindings::binding_bytes(
        bindings::identifier_bytes(row.id, row.model_id, row.model_instance_id, row.node_id),
        seq![
            row.model_weights_hash->0@,
            row.challenge_nonce_hash->0@,
            question_texts(row).0,
            question_texts(row).1,
        ],
        bindings::number_bytes(
            row.issued_at,
            row.challenge_issued_expires_at->0,
            row.authorized_input_tokens->0,
            row.authorized_max_output_tokens->0,
            row.inference_seed->0 as int,
        ),
        bindings::catalogue_bytes(row.private.parts()),
    )
}

/// All that a binding covers is stored.
pub open spec fn binding_complete(row: ChallengeRow) -> bool {
    &&& row.inference_seed matches Some(seed) && 0 <= seed <= u32::MAX
    &&& row.private.complete()
    &&& row.private.is_committed() ==> row.private.catalog_valid_until is Some
    &&& !row.private.is_committed() ==> row.prompt_hash is Some && row.expected_hash is Some
    &&& row.challenge_issued_expires_at is Some
    &&& row.authorized_input_tokens is Some
    &&& row.authorized_max_output_tokens is Some
}

pub open spec fn execution_binding_refusal(row: ChallengeRow, seed: Seq<u8>) -> Option<ApiError> {
    match row.challenge_binding_hash {
        None => None,
        Some(stored) => if !text::holds(row.challenge_nonce_hash, bindings::digest_text(seed))
            || row.model_weights_hash is None {
            Some(ApiError::internal())
        } else if row.model_weights_hash->0@ != row.current_model_weights_hash@ {
            Some(
                ApiError::conflict("model_binding_mismatch", "任务绑定的模型实例权重已经变化"),
            )
        } else if !binding_complete(row) || stored@ != bindings::digest_text(
            stored_preimage(row),
        ) {
            Some(ApiError::internal())
        } else {
            None
        },
    }
}

/// Whether two texts are the same, whichever bytes of them differ.
fn same_hash(left: &str, right: &str) -> (same: bool)
    ensures
        same == (left@ == right@),
{
    proof {
        vstd::utf8::encode_utf8_decode_utf8(left@);
        vstd::utf8::encode_utf8_decode_utf8(right@);
    }
    constant_time_equal(left.as_bytes(), right.as_bytes())
}

/// Computes the binding of a stored challenge anew; `None` where something that it
/// covers is missing.
fn stored_binding(row: &ChallengeRow) -> (binding: Option<String>)
    requires
        row.challenge_nonce_hash is Some,
        row.model_weights_hash is Some,
    ensures
        match binding {
            Some(binding) => binding_complete(*row) && binding@ == bindings::digest_text(
                stored_preimage(*row),
            ),
            None => !binding_complete(*row),
        },
{
    let weights_hash = match &row.model_weights_hash {
        Some(hash) => hash,
        None => {
            return None;
        },
    };
    let nonce_hash = match &row.challenge_nonce_hash {
        Some(hash) => hash,
        None => {
            return None;
        },
    };
    let inference_seed: u32 = match row.inference_seed {
        Some(seed) => if 0 <= seed && seed <= u32::MAX as i64 {
            seed as u32
        } else {
            return None;
        },
        None => {
            return None;
        },
    };
    let metadata = match private_metadata_from_row(&row.private) {
        Ok(metadata) => metadata,
        Err(_) => {
            return None;
        },
    };
    let commitments = match private_v2_commitments_from_row(&row.private) {
        Ok(commitments) => commitments,
        Err(_) => {
            return None;
        },
    };
    let expires_at: i128 = match row.challenge_issued_expires_at {
        Some(expires_at) => expires_at,
        None => {
            return None;
        },
    };
    let input_tokens: i32 = match row.authorized_input_tokens {
        Some(tokens) => tokens,
        None => {
            return None;
        },
    };
    let output_tokens: i32 = match row.authorized_max_output_tokens {
        Some(tokens) => tokens,
        None => {
            return None;
        },
    };
    let binding = match &commitments {
        Some(commitments) => {
            let valid_until: i128 = match row.private.catalog_valid_until {
                Some(valid_until) => valid_until,
                None => {
                    return None;
                },
            };
            proof {
                let texts = commitments.texts();
                assert(texts[6] == row.private.commitment_texts()[6]);
                assert(texts[7] == row.private.commitment_texts()[7]);
            }
            let input = ChallengeBindingInput {
                challenge_id: row.id,
                model_id: row.model_id,
                model_instance_id: row.model_instance_id,
                node_id: row.node_id,
                model_weights_hash: weights_hash.as_str(),
                challenge_nonce_hash: nonce_hash.as_str(),
                prompt_binding: commitments.prompt.as_str(),
                expected_binding: commitments.expected.as_str(),
                issued_at: row.issued_at,
                challenge_issued_expires_at: expires_at,
                authorized_input_tokens: input_tokens,
                authorized_max_output_tokens: output_tokens,
                inference_seed,
                private_binding: Some(
                    PrivateChallengeBinding::V2 { commitments, catalog_valid_until: valid_until },
                ),
            };
            assert(input.preimage() == stored_preimage(*row));
            challenge_binding_hash(&input)
        },
        None => {
            let prompt_hash = match &row.prompt_hash {
                Some(hash) => hash,
                None => {
                    return None;
                },
            };
            let expected_hash = match &row.expected_hash {
                Some(hash) => hash,
                None => {
                    return None;
                },
            };
            let private_binding = match &metadata {
                Some(metadata) => Some(PrivateChallengeBinding::Legacy(metadata)),
                None => None,
            };
            let input = ChallengeBindingInput {
                challenge_id: row.id,
                model_id: row.model_id,
                model_instance_id: row.model_instance_id,
                node_id: row.node_id,
                model_weights_hash: weights_hash.as_str(),
                challenge_nonce_hash: nonce_hash.as_str(),
                prompt_binding: prompt_hash.as_str(),
                expected_binding: expected_hash.as_str(),
                issued_at: row.issued_at,
                challenge_issued_expires_at: expires_at,
                authorized_input_tokens: input_tokens,
                authorized_max_output_tokens: output_tokens,
                inference_seed,
                private_binding,
            };
            assert(input.preimage() == stored_preimage(*row));
            challenge_binding_hash(&input)
        },
    };
    Some(binding)
}

/// Checks that a challenge still is what it was issued as, where it was bound: the
/// seed, the weights of the model, and all that the binding covers.
pub fn verify_execution_binding_if_present(row: &ChallengeRow, seed: &[u8; 32]) -> (verified: Result<
    (),
    ApiError,
>)
    ensures
        verified == error::unless(execution_binding_refusal(*row, seed@), ()),
{
    let stored = match &row.challenge_binding_hash {
        Some(stored) => stored,
        None => {
            return Ok(());
        },
    };
    let nonce_hash = match &row.challenge_nonce_hash {
        Some(hash) => hash,
        None => {
            return Err(ApiError::internal());
        },
    };
    let actual_nonce_hash = hex_digest(seed.as_slice());
    if !same_hash(nonce_hash.as_str(), actual_nonce_hash.as_str()) {
        return Err(ApiError::internal());
    }
    let weights_hash = match &row.model_weights_hash {
        Some(hash) => hash,
        None => {
            return Err(ApiError::internal());
        },
    };
    if !same_hash(weights_hash.as_str(), row.current_model_weights_hash.as_str()) {
        return Err(
            ApiError::conflict("model_binding_mismatch", "任务绑定的模型实例权重已经变化"),
        );
    }
    match stored_binding(row) {
        Some(expected) => if same_hash(stored.as_str(), expected.as_str()) {
            Ok(())
        } else {
            Err(ApiError::internal())
        },
        None => Err(ApiError::internal()),
    }
}

/// A bound challenge that is accepted was issued with exactly what is stored now: its
/// binding is the digest of the stored row, for the weights that the model has now.
pub proof fn accepted_bindings_are_genuine(row: ChallengeRow, seed: Seq<u8>)
    requires
        row.challenge_binding_hash is Some,
        execution_binding_refusal(row, seed) is None,
    ensures
        row.challenge_binding_hash->0@ == bindings::digest_text(stored_preimage(row)),
        text::holds(row.challenge_nonce_hash, bindings::digest_text(seed)),
        text::holds(row.model_weights_hash, row.current_model_weights_hash@),
{
}

/// The hashes of a question that the public templates made are those of its seed.
pub open spec fn commitments_hold(
    row: ChallengeRow,
    kind: PrivateEvaluationKind,
    seed: Seq<u8>,
) -> bool {
    let (prompt, answer) = challenges::question(kind, seed);
    text::holds(row.prompt_hash, billing::sha256_text(prompt)) && text::holds(
        row.expected_hash,
        billing::sha256_text(answer),
    )
}

/// Checks that the stored hashes are those of the question.
pub fn verify_server_commitments(row: &ChallengeRow, generated: &GeneratedChallenge) -> (verified: Result<
    (),
    ApiError,
>)
    ensures
        verified == if text::holds(row.prompt_hash, billing::sha256_text(generated.prompt@))
            && text::holds(row.expected_hash, generated.expected_behavior_sha256@) {
            Ok::<(), ApiError>(())
        } else {
            Err::<(), ApiError>(ApiError::internal())
        },
{
    let prompt_hash = sha256_hex(generated.prompt.as_str());
    let prompt_holds = match &row.prompt_hash {
        Some(stored) => same_hash(stored.as_str(), prompt_hash.as_str()),
        None => false,
    };
    let answer_holds = match &row.expected_hash {
        Some(stored) => same_hash(stored.as_str(), generated.expected_behavior_sha256.as_str()),
        None => false,
    };
    if prompt_holds && answer_holds {
        Ok(())
    } else {
        Err(ApiError::internal())
    }
}

/// What the answer to a challenge may be: from which model, and of how many tokens.
pub struct AuthorizedChallenge {
    pub model: String,
    pub minimum_input_tokens: i32,
    pub maximum_output_tokens: i32,
}

/// The challenge came out of the public templates.
pub open spec fn is_public(row: ChallengeRow) -> bool {
    row.private.commitment_version is None && row.private.catalog_commitment is None
}

/// What is stored of the origin of a challenge fits its kind and its seed.
pub open spec fn origin_holds(
    row: ChallengeRow,
    kind: PrivateEvaluationKind,
    seed: Seq<u8>,
) -> bool {
    if row.private.commitment_version is Some {
        &&& row.private.is_committed()
        &&& kind is HiddenBenchmark
        &&& row.private.catalog_commitment is None
        &&& row.private.commitments_complete()
    } else if row.private.catalog_commitment is Some {
        kind is HiddenBenchmark
    } else {
        commitments_hold(row, kind, seed)
    }
}

/// The model and the tokens that an answer is authorised for.
pub open spec fn authorized(row: ChallengeRow, limits: Option<StandardLimits>) -> Option<
    (Seq<char>, i32, i32),
> {
    match (row.authorized_input_tokens, row.authorized_max_output_tokens) {
        (Some(input), Some(output)) => if input > 0 && output > 0 {
            Some(("auto"@, input, output))
        } else {
            None
        },
        (None, None) => match limits {
            Some(limits) => if is_public(row) {
                Some((limits.model@, limits.minimum_input_tokens, limits.maximum_output_tokens))
            } else {
                None
            },
            None => None,
        },
        _ => None,
    }
}

/// Checks that a challenge is what it was issued as, and says what its answer may be.
/// `limits` is what the inference protocol reads out of the payload that the public
/// templates make of the seed; it counts only for challenges that were issued without
/// limits of their own.
pub fn verify_challenge_definition(
    row: &ChallengeRow,
    kind: PrivateEvaluationKind,
    seed: &[u8; 32],
    limits: &Option<StandardLimits>,
) -> (authorization: Result<AuthorizedChallenge, ApiError>)
    ensures
        match authorization {
            Ok(challenge) => {
                &&& origin_holds(*row, kind, seed@)
                &&& execution_binding_refusal(*row, seed@) is None
                &&& authorized(*row, *limits) == Some(
                    (
                        challenge.model@,
                        challenge.minimum_input_tokens,
                        challenge.maximum_output_tokens,
                    ),
                )
            },
            Err(refused) => if !origin_holds(*row, kind, seed@) {
                refused == ApiError::internal()
            } else {
                match execution_binding_refusal(*row, seed@) {
                    Some(reason) => refused == reason,
                    None => refused == ApiError::internal() && authorized(*row, *limits) is None,
                }
            },
        },
{
    let is_benchmark = matches!(kind, PrivateEvaluationKind::HiddenBenchmark);
    let mut public = false;
    if row.private.commitment_version.is_some() {
        if !is_benchmark || row.private.catalog_commitment.is_some() {
            return Err(ApiError::internal());
        }
        if private_v2_commitments_from_row(&row.private)?.is_none() {
            return Err(ApiError::internal());
        }
    } else if row.private.catalog_commitment.is_some() {
        if !is_benchmark {
            return Err(ApiError::internal());
        }
    } else {
        let generated = generate_legacy_challenge(kind, seed);
        verify_server_commitments(row, &generated)?;
        public = true;
    }
    verify_execution_binding_if_present(row, seed)?;
    match (row.authorized_input_tokens, row.authorized_max_output_tokens) {
        (Some(input), Some(output)) => if input > 0 && output > 0 {
            Ok(
                AuthorizedChallenge {
                    model: String::from_str("auto"),
                    minimum_input_tokens: input,
                    maximum_output_tokens: output,
                },
            )
        } else {
            Err(ApiError::internal())
        },
        (None, None) => match limits {
            Some(limits) => if public {
                Ok(
                    AuthorizedChallenge {
                        model: limits.model.clone(),
                        minimum_input_tokens: limits.minimum_input_tokens,
                        maximum_output_tokens: limits.maximum_output_tokens,
                    },
                )
            } else {
                Err(ApiError::internal())
            },
            None => Err(ApiError::internal()),
        },
        _ => Err(ApiError::internal()),
    }
}

/// The seed of a challenge, as long as it was not wiped.
pub fn challenge_seed(stored: &Option<Vec<u8>>) -> (seed: Result<[u8; 32], ApiError>)
    ensures
        match seed {
            Ok(seed) => stored matches Some(bytes) && bytes@ == seed@,
            Err(refused) => {
                &&& refused == ApiError::internal()
                &&& !(stored matches Some(bytes) && bytes@.len() == 32)
            },
        },
{
    match stored {
        Some(bytes) => match text::array_32(bytes.as_slice()) {
            Some(seed) => Ok(seed),
            None => Err(ApiError::internal()),
        },
        None => Err(ApiError::internal()),
    }
}

/// What an event in the life of a challenge is recorded with: the hash of the prompt,
/// or the commitments that stand for it.
pub fn lifecycle_snapshot_from_row(row: &ChallengeRow) -> (snapshot: Result<
    (Option<String>, Option<PrivateV2Commitments>),
    ApiError,
>)
    ensures
        match snapshot {
            Ok((None, Some(commitments))) => {
                &&& row.private.is_committed()
                &&& row.private.commitments_complete()
                &&& row.prompt_hash is None
                &&& commitments.texts() == row.private.commitment_texts()
            },
            Ok((Some(prompt_hash), None)) => {
                &&& row.private.commitment_version is None
                &&& text::holds(row.prompt_hash, prompt_hash@)
            },
            Ok(_) => false,
            Err(refused) => {
                &&& refused == ApiError::internal()
                &&& if row.private.commitment_version is None {
                    row.prompt_hash is None
                } else {
                    !(row.private.is_committed() && row.private.commitments_complete())
                        || row.prompt_hash is Some
                }
            },
        },
{
    let commitments = private_v2_commitments_from_row(&row.private)?;
    if commitments.is_some() {
        if row.prompt_hash.is_some() {
            return Err(ApiError::internal());
        }
        Ok((None, commitments))
    } else {
        let prompt_hash = required_text(&row.prompt_hash)?;
        Ok((Some(prompt_hash), None))
    }
}

/// A commitment is stored exactly if it is 64 hexadecimal digits in lower case.
pub proof fn commitments_are_digests(column: Option<String>)
    ensures
        is_commitment(column) <==> (column matches Some(commitment) && commitment@.len() == 64
            && forall|i: int|
            0 <= i < 64 ==> '0' <= #[trigger] commitment@[i] <= '9' || 'a' <= commitment@[i]
                <= 'f'),
{
}

/// What is stored of a private challenge is complete exactly if all of its names, or all of its
/// commitments, are there; a public challenge has neither.
pub proof fn private_columns_are_complete(columns: PrivateColumns)
    ensures
        columns.commitment_version is None && columns.catalog_commitment is None
            ==> columns.complete() && columns.parts() == (0u8, Seq::<Seq<char>>::empty(), 0i128),
        columns.commitment_version is None && columns.catalog_commitment is Some ==> {
            &&& columns.complete() <==> columns.catalog_id is Some && columns.catalog_entry_id
                is Some && columns.case_family is Some && columns.evaluator_id is Some
                && columns.evaluator_key_fingerprint is Some && columns.catalog_valid_until is Some
            &&& columns.complete() ==> columns.parts() == (
                1u8,
                seq![
                    columns.catalog_id->0@,
                    columns.catalog_entry_id->0@,
                    columns.case_family->0@,
                    columns.catalog_commitment->0@,
                    columns.evaluator_id->0@,
                    columns.evaluator_key_fingerprint->0@,
                ],
                columns.catalog_valid_until->0,
            )
        },
        columns.commitment_version is Some ==> {
            &&& columns.complete() <==> columns.commitment_version == Some(2i32) && is_commitment(
                columns.catalog_statement_commitment,
            ) && is_commitment(columns.catalog_id_commitment) && is_commitment(
                columns.catalog_entry_commitment,
            ) && is_commitment(columns.case_family_commitment) && is_commitment(
                columns.evaluator_id_commitment,
            ) && is_commitment(columns.evaluator_key_commitment) && is_commitment(
                columns.prompt_commitment,
            ) && is_commitment(columns.expected_commitment) && is_commitment(
                columns.account_commitment,
            ) && is_commitment(columns.device_commitment) && is_commitment(columns.node_commitment)
            &&& columns.complete() ==> columns.parts() == (
                2u8,
                seq![
                    columns.catalog_statement_commitment->0@,
                    columns.catalog_id_commitment->0@,
                    columns.catalog_entry_commitment->0@,
                    columns.case_family_commitment->0@,
                    columns.evaluator_id_commitment->0@,
                    columns.evaluator_key_commitment->0@,
                    columns.prompt_commitment->0@,
                    columns.expected_commitment->0@,
                    columns.account_commitment->0@,
                    columns.device_commitment->0@,
                    columns.node_commitment->0@,
                ],
                columns.catalog_valid_until->0,
            )
        },
{
}

/// The origin of a challenge holds exactly if it is a benchmark with its commitments, or with
/// its names, or a public challenge whose hashes are those of what its seed asks.
pub proof fn origins_are_what_their_seed_asks(
    row: ChallengeRow,
    kind: PrivateEvaluationKind,
    seed: Seq<u8>,
)
    ensures
        row.private.commitment_version is None && row.private.catalog_commitment is None ==> (
        origin_holds(row, kind, seed) <==> {
            &&& row.prompt_hash matches Some(prompt_hash) && prompt_hash@ == billing::sha256_text(
                challenges::question(kind, seed).0,
            )
            &&& row.expected_hash matches Some(expected_hash) && expected_hash@
                == billing::sha256_text(challenges::question(kind, seed).1)
        }),
        row.private.commitment_version is None && row.private.catalog_commitment is Some ==> (
        origin_holds(row, kind, seed) <==> kind == PrivateEvaluationKind::HiddenBenchmark),
        row.private.commitment_version is Some ==> (origin_holds(row, kind, seed) ==> kind
            == PrivateEvaluationKind::HiddenBenchmark && row.private.commitment_version == Some(
            2i32,
        ) && row.private.catalog_commitment is None && row.private.complete()),
        row.private.commitment_version is Some && row.private.complete()
            && row.private.catalog_commitment is None && kind
            == PrivateEvaluationKind::HiddenBenchmark ==> origin_holds(row, kind, seed),
{
}

/// A challenge runs as it was issued exactly if no binding was stored, or if the binding is the
/// one of what is stored, the seed is the one that was issued, and the weights have not changed.
/// Changed weights are told from everything else.
pub proof fn bindings_hold_while_nothing_changes(row: ChallengeRow, seed: Seq<u8>)
    requires
        row.challenge_binding_hash is Some,
    ensures
        execution_binding_refusal(row, seed) is None <==> {
            &&& row.challenge_nonce_hash matches Some(nonce) && nonce@ == text::lower_hex(
                crypto::sha256(seed),
            )
            &&& row.model_weights_hash matches Some(weights) && weights@
                == row.current_model_weights_hash@
            &&& row.inference_seed matches Some(inference_seed) && 0 <= inference_seed
                <= 0xffff_ffff
            &&& row.private.complete()
            &&& row.challenge_issued_expires_at is Some
            &&& row.authorized_input_tokens is Some
            &&& row.authorized_max_output_tokens is Some
            &&& row.private.commitment_version == Some(2i32) ==> row.private.catalog_valid_until
                is Some
            &&& row.private.commitment_version is None ==> row.prompt_hash is Some
                && row.expected_hash is Some
            &&& row.challenge_binding_hash->0@ == text::lower_hex(
                crypto::sha256(stored_preimage(row)),
            )
        },
        (row.challenge_nonce_hash matches Some(nonce) && nonce@ == text::lower_hex(
            crypto::sha256(seed),
        )) && (row.model_weights_hash matches Some(weights) && weights@
            != row.current_model_weights_hash@) ==> (execution_binding_refusal(row, seed)
            matches Some(refused) && refused is Conflict),
{
}

/// A challenge without a binding runs as it is.
pub proof fn unbound_challenges_run(row: ChallengeRow, seed: Seq<u8>)
    requires
        row.challenge_binding_hash is None,
    ensures
        execution_binding_refusal(row, seed) is None,
{
}

/// A challenge authorises what is stored of it, for whichever model serves it; where nothing is
/// stored a public one authorises what its payload asks for.
pub proof fn challenges_authorise_what_is_stored(row: ChallengeRow, limits: Option<StandardLimits>)
    ensures
        authorized(row, limits) matches Some(allowed) ==> {
            &&& row.authorized_input_tokens matches Some(input) ==> allowed.0 == "auto"@
                && allowed.1 == input && input > 0 && row.authorized_max_output_tokens == Some(
                allowed.2,
            ) && allowed.2 > 0
            &&& row.authorized_input_tokens is None ==> row.authorized_max_output_tokens is None
                && row.private.commitment_version is None && row.private.catalog_commitment is None
                && (limits matches Some(limits) && allowed.0 == limits.model@ && allowed.1
                == limits.minimum_input_tokens && allowed.2 == limits.maximum_output_tokens)
        },
        (row.authorized_input_tokens matches Some(input) && input > 0) && (
        row.authorized_max_output_tokens matches Some(output) && output > 0) ==> authorized(
            row,
            limits,
        ) is Some,
        row.authorized_input_tokens is None && row.authorized_max_output_tokens is None
            && row.private.commitment_version is None && row.private.catalog_commitment is None
            && limits is Some ==> authorized(row, limits) is Some,
{
}

/// What a binding is made of: the challenge, the model, the instance and the node, then the
/// weights, the seed's hash, the question and the answer, then the times, the tokens and the
/// number that the model starts from, then where the challenge comes from.
pub proof fn stored_bindings_cover_the_row(row: ChallengeRow)
    ensures
        row.private.commitment_version == Some(2i32) ==> question_texts(row) == (
            row.private.prompt_commitment->0@,
            row.private.expected_commitment->0@,
        ),
        row.private.commitment_version is None ==> question_texts(row) == (
            row.prompt_hash->0@,
            row.expected_hash->0@,
        ),
        stored_preimage(row) == bindings::binding_bytes(
            row.id.octets() + row.model_id.octets() + row.model_instance_id.octets()
                + row.node_id.octets(),
            seq![
                row.model_weights_hash->0@,
                row.challenge_nonce_hash->0@,
                question_texts(row).0,
                question_texts(row).1,
            ],
            bindings::wide(row.issued_at) + bindings::wide(row.challenge_issued_expires_at->0)
                + bindings::narrow(row.authorized_input_tokens->0) + bindings::narrow(
                row.authorized_max_output_tokens->0,
            ) + text::big_endian(row.inference_seed->0 as int as nat, 4),
            bindings::catalogue_bytes(row.private.parts()),
        ),
{
}

} // verus!
