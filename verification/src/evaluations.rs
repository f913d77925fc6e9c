//! How the coordinator tests the models of its nodes without their knowing: what may
//! be asked of whom, how the answers are judged, and what follows for the instance of
//! a model that fails.
//!
//! A challenge travels as an ordinary job. What a worker sees of it, errors among it,
//! is what it sees of any job.

use vstd::prelude::*;

use crate::billing;
use crate::billing::sha256_hex;
use crate::bindings;
use crate::bindings::{
    challenge_binding_hash, constant_time_equal, hex_digest, salted_commitment, ChallengeBindingInput, PrivateChallengeBinding, PrivateChallengeMetadata,
    PrivateV2Commitments, PRIVATE_COMMITMENT_VERSION,
};
use crate::challenges;
use crate::challenges::{
    parse_kind, GeneratedChallenge, PrivateEvaluationCatalogEntry, PrivateEvaluationKind,
};
use crate::chat::{zeroize_message_content, ChatCompletionsResponse, MessageContent};
use crate::clock;
use crate::crypto;
use crate::definitions;
use crate::definitions::{AuthorizedChallenge, ChallengeRow};
use crate::error;
use crate::error::ApiError;
use crate::ids::Uuid;
use crate::jobs;
use crate::jobs::{
    validate_reported_usage, ClaimJobResponse, ConfidentialityMode, JobStatus, PayloadEncoding,
    StandardLimits,
};
use crate::settlement::is_id;
use crate::text;

verus! {

pub const EXPIRY_SWEEP_BATCH_SIZE: i64 = 128;

pub const PRIVATE_BUDGET_WINDOW_SECONDS: i64 = 3_600;

/// By what right a challenge is brought to its end. Ending one that is known by
/// commitments alone takes the capability `C`.
pub enum TerminalMutationAuthorization<C> {
    Legacy,
    V2(C),
}

/// The right to end a challenge, out of its version and of the capability at hand.
pub open spec fn granted<C>(private_commitment_version: Option<i32>, capability: Option<C>) -> Result<
    TerminalMutationAuthorization<C>,
    ApiError,
> {
    match (private_commitment_version, capability) {
        (None, _) => Ok(TerminalMutationAuthorization::Legacy),
        (Some(version), Some(capability)) => if version == PRIVATE_COMMITMENT_VERSION {
            Ok(TerminalMutationAuthorization::V2(capability))
        } else {
            Err(ApiError::internal())
        },
        (Some(_), None) => Err(ApiError::internal()),
    }
}

/// Says by what right a challenge may be brought to its end.
pub fn authorize_terminal_mutation<C>(
    private_commitment_version: Option<i32>,
    capability: Option<C>,
) -> (authorization: Result<TerminalMutationAuthorization<C>, ApiError>)
    ensures
        authorization == granted(private_commitment_version, capability),
{
    match private_commitment_version {
        None => Ok(TerminalMutationAuthorization::Legacy),
        Some(version) => {
            if version != PRIVATE_COMMITMENT_VERSION {
                return Err(ApiError::internal());
            }
            match capability {
                Some(capability) => Ok(TerminalMutationAuthorization::V2(capability)),
                None => Err(ApiError::internal()),
            }
        },
    }
}

/// The right fits the challenge.
pub open spec fn authorizes<C>(
    authorization: TerminalMutationAuthorization<C>,
    private_commitment_version: Option<i32>,
) -> bool {
    match authorization {
        TerminalMutationAuthorization::Legacy => private_commitment_version is None,
        TerminalMutationAuthorization::V2(_) => private_commitment_version == Some(
            PRIVATE_COMMITMENT_VERSION,
        ),
    }
}

/// Checks, before anything is written, that the right fits the challenge.
pub fn verify_terminal_authorization<C>(
    private_commitment_version: Option<i32>,
    authorization: &TerminalMutationAuthorization<C>,
) -> (verified: Result<(), ApiError>)
    ensures
        verified == if authorizes(*authorization, private_commitment_version) {
            Ok::<(), ApiError>(())
        } else {
            Err::<(), ApiError>(ApiError::internal())
        },
{
    let fits = match (private_commitment_version, authorization) {
        (None, TerminalMutationAuthorization::Legacy) => true,
        (Some(version), TerminalMutationAuthorization::V2(_)) => version
            == PRIVATE_COMMITMENT_VERSION,
        _ => false,
    };
    if fits {
        Ok(())
    } else {
        Err(ApiError::internal())
    }
}

/// A right that was granted fits the challenge that it was granted for, and no
/// challenge of another version.
pub proof fn rights_fit_their_challenges<C>(
    version: Option<i32>,
    capability: Option<C>,
    authorization: TerminalMutationAuthorization<C>,
    other: Option<i32>,
)
    requires
        granted(version, capability) == Ok::<TerminalMutationAuthorization<C>, ApiError>(
            authorization,
        ),
    ensures
        authorizes(authorization, version),
        other != version ==> !authorizes(authorization, other),
{
}

/// One draw out of `denominator` is a hit, and none where that is zero.
pub open spec fn is_hit(denominator: u32, draw: u32) -> bool {
    denominator != 0 && draw % denominator == 0
}

/// Whether a draw is a hit.
pub fn draw_hits(denominator: u32, draw: u32) -> (hit: bool)
    ensures
        hit == is_hit(denominator, draw),
{
    denominator != 0 && draw % denominator == 0
}

/// The number that four bytes spell, the least significant first.
pub open spec fn spelled_draw(bytes: Seq<u8>) -> int {
    bytes[0] + bytes[1] * 0x100 + bytes[2] * 0x1_0000 + bytes[3] * 0x100_0000
}

/// The draw that four random bytes make. Where the system gave no such bytes there is none.
pub fn draw_of(random: &Option<Vec<u8>>) -> (draw: Result<u32, ApiError>)
    ensures
        match draw {
            Ok(draw) => random matches Some(bytes) && bytes@.len() == 4 && draw == spelled_draw(
                bytes@,
            ),
            Err(refused) => {
                &&& refused == ApiError::internal()
                &&& !(random matches Some(bytes) && bytes@.len() == 4)
            },
        },
{
    match random {
        Some(bytes) => if bytes.len() == 4 {
            Ok(
                bytes[0] as u32 + bytes[1] as u32 * 0x100 + bytes[2] as u32 * 0x1_0000
                    + bytes[3] as u32 * 0x100_0000,
            )
        } else {
            Err(ApiError::internal())
        },
        None => Err(ApiError::internal()),
    }
}

/// A random number of 32 bits.
fn random_draw() -> (draw: Result<u32, ApiError>)
    ensures
        draw matches Err(refused) ==> refused == ApiError::internal(),
{
    draw_of(&crypto::random_bytes(4))
}

/// Draws whether a claim gets a challenge. Without a denominator none does; besides that,
/// only a system that gives no random bytes makes this fail.
pub fn draw_evaluation(denominator: u32) -> (hit: Result<bool, ApiError>)
    ensures
        denominator == 0 ==> hit == Ok::<bool, ApiError>(false),
        hit matches Ok(drawn) ==> exists|draw: u32|
            drawn == #[trigger] is_hit(denominator, draw),
        hit matches Err(refused) ==> refused == ApiError::internal(),
{
    if denominator == 0 {
        assert(false == is_hit(denominator, 0));
        return Ok(false);
    }
    let draw: u32 = random_draw()?;
    let drawn = draw_hits(denominator, draw);
    assert(drawn == is_hit(denominator, draw));
    Ok(drawn)
}

/// How long an instance is left alone after a challenge, as the database takes it.
pub fn cooldown_seconds(cooldown: u64) -> (seconds: Result<i64, ApiError>)
    ensures
        seconds == if cooldown <= i64::MAX {
            Ok::<i64, ApiError>(cooldown as i64)
        } else {
            Err::<i64, ApiError>(ApiError::internal())
        },
{
    if cooldown > i64::MAX as u64 {
        return Err(ApiError::internal());
    }
    Ok(cooldown as i64)
}

/// A catalogue serves for new challenges only while it outlives their lease.
pub fn catalog_outlives_lease(now: i128, lease_seconds: u64, valid_until: i128) -> (outlives: bool)
    requires
        clock::is_moment(now),
    ensures
        outlives == (clock::moment_after(now, lease_seconds as int) matches Ok(end) && end
            < valid_until),
{
    match clock::expiry(now, lease_seconds) {
        Ok(end) => end < valid_until,
        Err(_) => false,
    }
}

/// The entry at an index is reported as taken; entries are counted from one.
pub open spec fn is_taken(ordinals: Seq<i64>, index: int) -> bool {
    exists|i: int| 0 <= i < ordinals.len() && #[trigger] ordinals[i] == index + 1
}

/// The entry at an index can be asked of a model with these weights.
pub open spec fn is_candidate(
    entries: Seq<PrivateEvaluationCatalogEntry>,
    ordinals: Seq<i64>,
    weights: Seq<char>,
    index: int,
) -> bool {
    entries[index].model_weights_sha256@ == weights && !is_taken(ordinals, index)
}

/// The candidates among the first entries, in order.
pub open spec fn candidates(
    entries: Seq<PrivateEvaluationCatalogEntry>,
    ordinals: Seq<i64>,
    weights: Seq<char>,
    end: int,
) -> Seq<usize>
    decreases end,
{
    if end <= 0 {
        Seq::empty()
    } else if is_candidate(entries, ordinals, weights, end - 1) {
        candidates(entries, ordinals, weights, end - 1).push((end - 1) as usize)
    } else {
        candidates(entries, ordinals, weights, end - 1)
    }
}

/// How many of the first entries are not taken, for whatever model they are.
pub open spec fn remaining(ordinals: Seq<i64>, end: int) -> nat
    decreases end,
{
    if end <= 0 {
        0
    } else if is_taken(ordinals, end - 1) {
        remaining(ordinals, end - 1)
    } else {
        remaining(ordinals, end - 1) + 1
    }
}

pub open spec fn ordinals_valid(ordinals: Seq<i64>, entries: int) -> bool {
    forall|i: int| 0 <= i < ordinals.len() ==> 1 <= #[trigger] ordinals[i] <= entries
}

/// A sequence that starts elsewhere and goes round.
pub open spec fn rotated(values: Seq<usize>, draw: int) -> Seq<usize> {
    if values.len() == 0 {
        values
    } else {
        let start = draw % (values.len() as int);
        values.skip(start) + values.take(start)
    }
}

/// The entries of a catalogue that can be asked, and how many are left in all.
pub struct PrivateCatalogAvailability {
    pub candidates: Vec<usize>,
    pub remaining_catalog_entries: u64,
}

fn taken_flags(ordinals: &Vec<i64>, entries: usize) -> (flags: Result<Vec<bool>, ApiError>)
    ensures
        match flags {
            Ok(flags) => {
                &&& ordinals_valid(ordinals@, entries as int)
                &&& flags@.len() == entries
                &&& forall|index: int|
                    0 <= index < entries ==> #[trigger] flags@[index] == is_taken(ordinals@, index)
            },
            Err(refused) => {
                &&& refused == ApiError::internal()
                &&& !ordinals_valid(ordinals@, entries as int)
            },
        },
{
    let mut flags: Vec<bool> = Vec::new();
    while flags.len() < entries
        invariant
            flags@.len() <= entries,
            forall|index: int| 0 <= index < flags@.len() ==> !#[trigger] flags@[index],
        decreases entries - flags@.len(),
    {
        flags.push(false);
    }
    let mut i: usize = 0;
    while i < ordinals.len()
        invariant
            i <= ordinals@.len(),
            flags@.len() == entries,
            ordinals_valid(ordinals@.take(i as int), entries as int),
            forall|index: int|
                0 <= index < entries ==> #[trigger] flags@[index] == is_taken(
                    ordinals@.take(i as int),
                    index,
                ),
        decreases ordinals@.len() - i,
    {
        let ordinal = ordinals[i];
        if ordinal < 1 || ordinal as i128 > entries as i128 {
            assert(!(1 <= ordinals@[i as int] <= entries as int));
            return Err(ApiError::internal());
        }
        let ghost before = flags@;
        let taken: usize = (ordinal - 1) as usize;
        flags.set(taken, true);
        proof {
            let old_part = ordinals@.take(i as int);
            let new_part = ordinals@.take(i + 1);
            assert forall|index: int| 0 <= index < entries implies #[trigger] flags@[index]
                == is_taken(new_part, index) by {
                assert(before[index] == is_taken(old_part, index));
                if is_taken(old_part, index) {
                    let at = choose|at: int| 0 <= at < old_part.len() && #[trigger] old_part[at]
                        == index + 1;
                    assert(new_part[at] == index + 1);
                }
                if index == taken {
                    assert(new_part[i as int] == index + 1);
                } else if is_taken(new_part, index) {
                    let at = choose|at: int| 0 <= at < new_part.len() && #[trigger] new_part[at]
                        == index + 1;
                    assert(at < i);
                    assert(old_part[at] == index + 1);
                }
            }
            assert forall|j: int| 0 <= j < new_part.len() implies 1 <= #[trigger] new_part[j]
                <= entries by {
                if j < i {
                    assert(old_part[j] == new_part[j]);
                }
            }
        }
        i += 1;
    }
    assert(ordinals@.take(ordinals@.len() as int) =~= ordinals@);
    Ok(flags)
}

/// The entries that can be asked of a model: those for its weights that are not taken,
/// starting at a random one. `taken_ordinals` names the entries that were issued before,
/// or that clash with one that was; an ordinal that the catalogue does not have is an
/// error.
pub fn available_private_entries(
    entries: &Vec<PrivateEvaluationCatalogEntry>,
    taken_ordinals: &Vec<i64>,
    model_weights_hash: &str,
    draw: u32,
) -> (availability: Result<PrivateCatalogAvailability, ApiError>)
    ensures
        match availability {
            Ok(available) => {
                &&& ordinals_valid(taken_ordinals@, entries@.len() as int)
                &&& available.candidates@ == rotated(
                    candidates(
                        entries@,
                        taken_ordinals@,
                        model_weights_hash@,
                        entries@.len() as int,
                    ),
                    draw as int,
                )
                &&& available.remaining_catalog_entries == remaining(
                    taken_ordinals@,
                    entries@.len() as int,
                )
            },
            Err(refused) => {
                &&& refused == ApiError::internal()
                &&& !ordinals_valid(taken_ordinals@, entries@.len() as int)
            },
        },
{
    let flags = taken_flags(taken_ordinals, entries.len())?;
    let mut found: Vec<usize> = Vec::new();
    let mut left: u64 = 0;
    let mut i: usize = 0;
    while i < entries.len()
        invariant
            i <= entries@.len(),
            flags@.len() == entries@.len(),
            forall|index: int|
                0 <= index < flags@.len() ==> #[trigger] flags@[index] == is_taken(
                    taken_ordinals@,
                    index,
                ),
            found@ == candidates(entries@, taken_ordinals@, model_weights_hash@, i as int),
            left == remaining(taken_ordinals@, i as int),
            left <= i,
        decreases entries@.len() - i,
    {
        let taken = flags[i];
        if !taken {
            left += 1;
            if text::same_text(entries[i].model_weights_sha256.as_str(), model_weights_hash) {
                found.push(i);
            }
        }
        i += 1;
    }
    let ghost all = found@;
    if found.len() > 0 {
        let start: usize = (draw as u64 % found.len() as u64) as usize;
        let mut turned: Vec<usize> = Vec::new();
        let mut k: usize = start;
        while k < found.len()
            invariant
                start <= k <= found@.len(),
                found@ == all,
                turned@ == all.subrange(start as int, k as int),
            decreases found@.len() - k,
        {
            turned.push(found[k]);
            k += 1;
            assert(turned@ =~= all.subrange(start as int, k as int));
        }
        let mut k: usize = 0;
        assert(all.subrange(start as int, all.len() as int) =~= all.skip(start as int));
        assert(turned@ =~= all.skip(start as int) + all.take(0));
        while k < start
            invariant
                k <= start <= found@.len(),
                found@ == all,
                turned@ == all.skip(start as int) + all.take(k as int),
            decreases start - k,
        {
            turned.push(found[k]);
            k += 1;
            assert(turned@ =~= all.skip(start as int) + all.take(k as int));
        }
        found = turned;
    }
    Ok(PrivateCatalogAvailability { candidates: found, remaining_catalog_entries: left })
}

/// Finds the entries that can be asked of a model, starting at a random one.
pub fn draw_private_entries(
    entries: &Vec<PrivateEvaluationCatalogEntry>,
    taken_ordinals: &Vec<i64>,
    model_weights_hash: &str,
) -> (availability: Result<PrivateCatalogAvailability, ApiError>)
    ensures
        match availability {
            Ok(available) => {
                &&& ordinals_valid(taken_ordinals@, entries@.len() as int)
                &&& exists|draw: int|
                    0 <= draw && available.candidates@ == #[trigger] rotated(
                        candidates(
                            entries@,
                            taken_ordinals@,
                            model_weights_hash@,
                            entries@.len() as int,
                        ),
                        draw,
                    )
                &&& available.remaining_catalog_entries == remaining(
                    taken_ordinals@,
                    entries@.len() as int,
                )
            },
            Err(refused) => refused == ApiError::internal(),
        },
{
    let draw: u32 = random_draw()?;
    available_private_entries(entries, taken_ordinals, model_weights_hash, draw)
}

/// An entry is a candidate exactly if it is for the weights of the model and was not
/// issued before.
pub proof fn candidates_are_the_free_entries(
    entries: Seq<PrivateEvaluationCatalogEntry>,
    ordinals: Seq<i64>,
    weights: Seq<char>,
    end: int,
    index: usize,
)
    requires
        0 <= end <= entries.len() <= usize::MAX,
    ensures
        candidates(entries, ordinals, weights, end).contains(index) <==> index < end
            && is_candidate(entries, ordinals, weights, index as int),
    decreases end,
{
    if end > 0 {
        candidates_are_the_free_entries(entries, ordinals, weights, end - 1, index);
        let before = candidates(entries, ordinals, weights, end - 1);
        let now = candidates(entries, ordinals, weights, end);
        if is_candidate(entries, ordinals, weights, end - 1) {
            assert(now == before.push((end - 1) as usize));
            assert(now[before.len() as int] == (end - 1) as usize);
            if before.contains(index) {
                let at = choose|at: int| 0 <= at < before.len() && before[at] == index;
                assert(now[at] == index);
            }
            if now.contains(index) && index != end - 1 {
                let at = choose|at: int| 0 <= at < now.len() && now[at] == index;
                assert(before[at] == index);
            }
        }
    }
}

/// A random start leaves out no candidate and adds none.
pub proof fn rotation_keeps_candidates(values: Seq<usize>, draw: int, index: usize)
    requires
        0 <= draw,
    ensures
        rotated(values, draw).contains(index) <==> values.contains(index),
        rotated(values, draw).len() == values.len(),
{
    if values.len() > 0 {
        let start = draw % (values.len() as int);
        let turned = rotated(values, draw);
        if values.contains(index) {
            let at = choose|at: int| 0 <= at < values.len() && values[at] == index;
            if at >= start {
                assert(turned[at - start] == index);
            } else {
                assert(turned[at + values.len() - start] == index);
            }
        }
        if turned.contains(index) {
            let at = choose|at: int| 0 <= at < turned.len() && turned[at] == index;
            if at < values.len() - start {
                assert(values[at + start] == index);
            } else {
                assert(values[at - (values.len() - start)] == index);
            }
        }
    }
}

/// How many private challenges may be issued.
#[derive(Clone, Copy, Debug, PartialEq, Eq, Structural)]
pub struct PrivateEvaluationBudgetConfig {
    pub catalog_hourly_limit: u32,
    pub account_hourly_limit: u32,
    pub device_hourly_limit: u32,
    pub node_hourly_limit: u32,
    pub cooldown_milliseconds: u64,
    pub global_reserve_entries: u32,
}

/// How many were issued within the last hour, and to whom before.
#[derive(Clone, Copy, Debug, PartialEq, Eq, Structural)]
pub struct PrivateBudgetSnapshot {
    pub catalog_hourly: u64,
    pub account_hourly: u64,
    pub device_hourly: u64,
    pub node_hourly: u64,
    pub identity_in_cooldown: bool,
    pub remaining_catalog_entries: u64,
    pub account_seen_in_catalog: bool,
    pub device_seen_in_catalog: bool,
    pub node_seen_in_catalog: bool,
}

/// No hourly limit is reached.
pub open spec fn within_limits(
    budget: PrivateEvaluationBudgetConfig,
    snapshot: PrivateBudgetSnapshot,
) -> bool {
    &&& snapshot.catalog_hourly < budget.catalog_hourly_limit
    &&& snapshot.account_hourly < budget.account_hourly_limit
    &&& snapshot.device_hourly < budget.device_hourly_limit
    &&& snapshot.node_hourly < budget.node_hourly_limit
}

/// Neither the account nor the device nor the node was asked from this catalogue
/// before.
pub open spec fn is_new_identity(snapshot: PrivateBudgetSnapshot) -> bool {
    !snapshot.account_seen_in_catalog && !snapshot.device_seen_in_catalog
        && !snapshot.node_seen_in_catalog
}

/// The budget has room for one more. The last entries of a catalogue are kept for
/// those who were never asked from it.
pub open spec fn budget_allows(
    budget: PrivateEvaluationBudgetConfig,
    snapshot: PrivateBudgetSnapshot,
) -> bool {
    &&& within_limits(budget, snapshot)
    &&& !snapshot.identity_in_cooldown
    &&& budget.global_reserve_entries == 0 || snapshot.remaining_catalog_entries
        > budget.global_reserve_entries || is_new_identity(snapshot)
}

pub fn private_budget_snapshot_allows(
    budget: &PrivateEvaluationBudgetConfig,
    snapshot: PrivateBudgetSnapshot,
) -> (allowed: bool)
    ensures
        allowed == budget_allows(*budget, snapshot),
{
    if snapshot.catalog_hourly >= budget.catalog_hourly_limit as u64 || snapshot.account_hourly
        >= budget.account_hourly_limit as u64 || snapshot.device_hourly
        >= budget.device_hourly_limit as u64 || snapshot.node_hourly
        >= budget.node_hourly_limit as u64 || snapshot.identity_in_cooldown {
        return false;
    }
    let reserve: u64 = budget.global_reserve_entries as u64;
    reserve == 0 || snapshot.remaining_catalog_entries > reserve || (
    !snapshot.account_seen_in_catalog && !snapshot.device_seen_in_catalog
        && !snapshot.node_seen_in_catalog)
}

/// The budget fails closed: with a limit that is reached, during a cooldown, or for
/// someone known where only the reserve is left, nothing is issued; and issuing more
/// never makes it allow what it refused.
pub proof fn budgets_fail_closed(
    budget: PrivateEvaluationBudgetConfig,
    snapshot: PrivateBudgetSnapshot,
    later: PrivateBudgetSnapshot,
)
    ensures
        !within_limits(budget, snapshot) || snapshot.identity_in_cooldown ==> !budget_allows(
            budget,
            snapshot,
        ),
        0 < budget.global_reserve_entries && snapshot.remaining_catalog_entries
            <= budget.global_reserve_entries && !is_new_identity(snapshot) ==> !budget_allows(
            budget,
            snapshot,
        ),
        ({
            &&& later.catalog_hourly >= snapshot.catalog_hourly
            &&& later.account_hourly >= snapshot.account_hourly
            &&& later.device_hourly >= snapshot.device_hourly
            &&& later.node_hourly >= snapshot.node_hourly
            &&& snapshot.identity_in_cooldown ==> later.identity_in_cooldown
            &&& later.remaining_catalog_entries <= snapshot.remaining_catalog_entries
            &&& is_new_identity(later) ==> is_new_identity(snapshot)
            &&& budget_allows(budget, later)
        }) ==> budget_allows(budget, snapshot),
{
}

/// A count that the database gave.
pub fn nonnegative_count(count: i64) -> (value: Result<u64, ApiError>)
    ensures
        value == if count >= 0 {
            Ok::<u64, ApiError>(count as u64)
        } else {
            Err::<u64, ApiError>(ApiError::internal())
        },
{
    if count < 0 {
        return Err(ApiError::internal());
    }
    Ok(count as u64)
}

/// A time as the database keeps it: whole microseconds, never later than it was.
pub fn postgres_timestamp(now: i128) -> (stored: i128)
    requires
        clock::is_moment(now),
    ensures
        stored == now - now % 1_000,
        clock::is_moment(stored),
{
    let over: i128 = ((now - clock::MIN_MOMENT) % 1_000) as i128;
    assert(clock::MIN_MOMENT % 1_000 == 0);
    assert(over == now % 1_000);
    now - over
}

/// Whom and what a challenge is issued for. Times are nanoseconds since the Unix epoch.
pub struct IssueFacts {
    pub challenge_id: Uuid,
    pub model_id: Uuid,
    pub model_instance_id: Uuid,
    pub node_id: Uuid,
    pub model_name: String,
    pub model_weights_hash: String,
    pub minimum_input_tokens: i32,
    pub maximum_output_tokens: i32,
    pub issued_at: i128,
    pub lease_seconds: u64,
}

/// What is stored of a new challenge. Where commitments stand for the prompt and the
/// answer, their hashes are not stored.
pub struct IssuedChallenge {
    pub encrypted_payload: String,
    pub prompt_hash: Option<String>,
    pub expected_hash: Option<String>,
    pub lease_token_hash: String,
    pub challenge_nonce_hash: String,
    pub challenge_binding_hash: String,
    pub lease_expires_at: i128,
}

/// A benchmark comes out of a private catalogue, with its commitments; a canary does
/// not.
pub open spec fn origin_fits(kind: PrivateEvaluationKind, metadata: bool, commitments: bool) -> bool {
    match kind {
        PrivateEvaluationKind::HiddenBenchmark => metadata && commitments,
        PrivateEvaluationKind::Canary => !metadata && !commitments,
    }
}

/// When the lease of a new challenge ends: after the usual time, but not after its
/// catalogue.
pub open spec fn issued_lease_end(
    facts: IssueFacts,
    metadata: Option<PrivateChallengeMetadata>,
) -> Result<i128, ApiError> {
    match clock::moment_after(facts.issued_at, facts.lease_seconds as int) {
        Err(refused) => Err(refused),
        Ok(end) => match metadata {
            Some(metadata) => if metadata.catalog_valid_until < end {
                Ok(metadata.catalog_valid_until)
            } else {
                Ok(end)
            },
            None => Ok(end),
        },
    }
}

/// The hashes that a new challenge is bound to. Commitments stand for the prompt and
/// the answer, where there are some.
pub open spec fn issued_texts(
    facts: IssueFacts,
    generated: GeneratedChallenge,
    seed: Seq<u8>,
    commitments: Option<PrivateV2Commitments>,
) -> Seq<Seq<char>> {
    match commitments {
        Some(commitments) => seq![
            facts.model_weights_hash@,
            bindings::digest_text(seed),
            commitments.prompt@,
            commitments.expected@,
        ],
        None => seq![
            facts.model_weights_hash@,
            bindings::digest_text(seed),
            billing::sha256_text(generated.prompt@),
            generated.expected_behavior_sha256@,
        ],
    }
}

/// The catalogue that a new challenge is bound to.
pub open spec fn issued_parts(
    metadata: Option<PrivateChallengeMetadata>,
    commitments: Option<PrivateV2Commitments>,
) -> (u8, Seq<Seq<char>>, i128) {
    match (metadata, commitments) {
        (Some(metadata), Some(commitments)) => (
            2,
            commitments.texts(),
            metadata.catalog_valid_until,
        ),
        _ => (0, Seq::empty(), 0),
    }
}

/// The bytes that the binding of a new challenge is the digest of.
pub open spec fn issued_preimage(
    facts: IssueFacts,
    generated: GeneratedChallenge,
    seed: Seq<u8>,
    metadata: Option<PrivateChallengeMetadata>,
    commitments: Option<PrivateV2Commitments>,
    lease_end: i128,
) -> Seq<u8> {
    bindings::binding_bytes(
        bindings::identifier_bytes(
            facts.challenge_id,
            facts.model_id,
            facts.model_instance_id,
            facts.node_id,
        ),
        issued_texts(facts, generated, seed, commitments),
        bindings::number_bytes(
            facts.issued_at,
            lease_end,
            facts.minimum_input_tokens,
            facts.maximum_output_tokens,
            generated.inference_seed as int,
        ),
        bindings::catalogue_bytes(issued_parts(metadata, commitments)),
    )
}

/// What is stored is what the challenge is made of.
pub open spec fn issued_as(
    issued: IssuedChallenge,
    facts: IssueFacts,
    generated: GeneratedChallenge,
    seed: Seq<u8>,
    lease_secret: Seq<u8>,
    payload_json: Seq<u8>,
    metadata: Option<PrivateChallengeMetadata>,
    commitments: Option<PrivateV2Commitments>,
) -> bool {
    &&& issued.encrypted_payload@ == crypto::base64_text(payload_json)
    &&& commitments is Some ==> issued.prompt_hash is None && issued.expected_hash is None
    &&& commitments is None ==> text::holds(
        issued.prompt_hash,
        billing::sha256_text(generated.prompt@),
    ) && text::holds(issued.expected_hash, generated.expected_behavior_sha256@)
    &&& issued.lease_token_hash@ == bindings::digest_text(lease_secret)
    &&& issued.challenge_nonce_hash@ == bindings::digest_text(seed)
    &&& issued_lease_end(facts, metadata) == Ok::<i128, ApiError>(issued.lease_expires_at)
    &&& issued.challenge_binding_hash@ == bindings::digest_text(
        issued_preimage(facts, generated, seed, metadata, commitments, issued.lease_expires_at),
    )
}

fn issued_binding(
    facts: &IssueFacts,
    generated: &GeneratedChallenge,
    nonce_hash: &str,
    prompt_hash: &str,
    metadata: &Option<PrivateChallengeMetadata>,
    commitments: &Option<PrivateV2Commitments>,
    lease_end: i128,
    Ghost(seed): Ghost<Seq<u8>>,
) -> (hash: String)
    requires
        metadata is Some <==> commitments is Some,
        nonce_hash@ == bindings::digest_text(seed),
        prompt_hash@ == billing::sha256_text(generated.prompt@),
    ensures
        hash@ == bindings::digest_text(
            issued_preimage(*facts, *generated, seed, *metadata, *commitments, lease_end),
        ),
{
    let prompt_binding = match commitments {
        Some(commitments) => commitments.prompt.as_str(),
        None => prompt_hash,
    };
    let expected_binding = match commitments {
        Some(commitments) => commitments.expected.as_str(),
        None => generated.expected_behavior_sha256.as_str(),
    };
    let private_binding = match (metadata, commitments) {
        (Some(metadata), Some(commitments)) => Some(
            PrivateChallengeBinding::V2 {
                commitments,
                catalog_valid_until: metadata.catalog_valid_until,
            },
        ),
        _ => None,
    };
    let input = ChallengeBindingInput {
        challenge_id: facts.challenge_id,
        model_id: facts.model_id,
        model_instance_id: facts.model_instance_id,
        node_id: facts.node_id,
        model_weights_hash: facts.model_weights_hash.as_str(),
        challenge_nonce_hash: nonce_hash,
        prompt_binding,
        expected_binding,
        issued_at: facts.issued_at,
        challenge_issued_expires_at: lease_end,
        authorized_input_tokens: facts.minimum_input_tokens,
        authorized_max_output_tokens: facts.maximum_output_tokens,
        inference_seed: generated.inference_seed,
        private_binding,
    };
    assert(input.texts() =~= issued_texts(*facts, *generated, seed, *commitments));
    assert(bindings::binding_parts(input.private_binding) == issued_parts(
        *metadata,
        *commitments,
    ));
    assert(input.preimage() == issued_preimage(
        *facts,
        *generated,
        seed,
        *metadata,
        *commitments,
        lease_end,
    ));
    challenge_binding_hash(&input)
}

/// Puts together what is stored of a new challenge: hashes in place of all that is
/// secret, and a binding over everything. `payload_json` is the request as it is sent.
pub fn issue_challenge(
    kind: PrivateEvaluationKind,
    facts: &IssueFacts,
    generated: &GeneratedChallenge,
    seed: &[u8; 32],
    lease_secret: &[u8; 32],
    payload_json: &Vec<u8>,
    metadata: &Option<PrivateChallengeMetadata>,
    commitments: &Option<PrivateV2Commitments>,
) -> (issued: Result<IssuedChallenge, ApiError>)
    requires
        clock::is_moment(facts.issued_at),
        payload_json@.len() <= usize::MAX / 4,
    ensures
        match issued {
            Ok(issued) => {
                &&& origin_fits(kind, metadata is Some, commitments is Some)
                &&& issued_as(
                    issued,
                    *facts,
                    *generated,
                    seed@,
                    lease_secret@,
                    payload_json@,
                    *metadata,
                    *commitments,
                )
            },
            Err(refused) => {
                &&& refused == ApiError::internal()
                &&& !origin_fits(kind, metadata is Some, commitments is Some) || issued_lease_end(
                    *facts,
                    *metadata,
                ) is Err
            },
        },
{
    let fits = match kind {
        PrivateEvaluationKind::HiddenBenchmark => metadata.is_some() && commitments.is_some(),
        PrivateEvaluationKind::Canary => metadata.is_none() && commitments.is_none(),
    };
    if !fits {
        return Err(ApiError::internal());
    }
    let encrypted_payload = crypto::base64_encode(payload_json.as_slice());
    let prompt_hash = sha256_hex(generated.prompt.as_str());
    let lease_token_hash = hex_digest(lease_secret.as_slice());
    let challenge_nonce_hash = hex_digest(seed.as_slice());
    let lease_end: i128 = clock::expiry(facts.issued_at, facts.lease_seconds)?;
    let lease_expires_at: i128 = match metadata {
        Some(metadata) => if metadata.catalog_valid_until < lease_end {
            metadata.catalog_valid_until
        } else {
            lease_end
        },
        None => lease_end,
    };
    let challenge_binding_hash = issued_binding(
        facts,
        generated,
        challenge_nonce_hash.as_str(),
        prompt_hash.as_str(),
        metadata,
        commitments,
        lease_expires_at,
        Ghost(seed@),
    );
    let (prompt_hash, expected_hash) = if commitments.is_none() {
        (Some(prompt_hash), Some(generated.expected_behavior_sha256.clone()))
    } else {
        (None, None)
    };
    Ok(
        IssuedChallenge {
            encrypted_payload,
            prompt_hash,
            expected_hash,
            lease_token_hash,
            challenge_nonce_hash,
            challenge_binding_hash,
            lease_expires_at,
        },
    )
}

/// What became of storing a challenge: an entry of a catalogue may have been taken in
/// the meantime, a canary can not.
pub fn stored_challenge(rows_affected: u64, private: bool) -> (stored: Result<bool, ApiError>)
    ensures
        stored == if rows_affected != 0 {
            Ok::<bool, ApiError>(true)
        } else if private {
            Ok::<bool, ApiError>(false)
        } else {
            Err::<bool, ApiError>(ApiError::internal())
        },
{
    if rows_affected == 0 {
        return if private {
            Ok(false)
        } else {
            Err(ApiError::internal())
        };
    }
    Ok(true)
}

/// What the worker gets: an ordinary Standard job in its first attempt, which nothing
/// tells from any other.
pub open spec fn is_claim_of(
    claim: ClaimJobResponse,
    facts: IssueFacts,
    issued: IssuedChallenge,
) -> bool {
    &&& claim.job_id == facts.challenge_id
    &&& claim.model_instance_id == facts.model_instance_id
    &&& claim.model@ == facts.model_name@
    &&& claim.model_weights_hash@ == facts.model_weights_hash@
    &&& claim.encrypted_payload@ == issued.encrypted_payload@
    &&& claim.payload_encoding == PayloadEncoding::Base64
    &&& claim.tags@.len() == 0
    &&& claim.estimated_input_tokens == facts.minimum_input_tokens
    &&& claim.max_output_tokens == facts.maximum_output_tokens
    &&& claim.attempt == 1
    &&& claim.lease_expires_at == issued.lease_expires_at
    &&& claim.policy_check_required_before_execution
    &&& claim.confidentiality == ConfidentialityMode::Standard
    &&& claim.regulated_route_id is None
    &&& claim.attestation_report_id is None
    &&& claim.attestation_provider is None
    &&& claim.tee_public_key is None
}

/// Puts together what the worker gets.
pub fn challenge_claim(facts: &IssueFacts, issued: &IssuedChallenge) -> (claim: ClaimJobResponse)
    ensures
        is_claim_of(claim, *facts, *issued),
{
    ClaimJobResponse {
        job_id: facts.challenge_id,
        model_instance_id: facts.model_instance_id,
        model: facts.model_name.clone(),
        model_weights_hash: facts.model_weights_hash.clone(),
        encrypted_payload: issued.encrypted_payload.clone(),
        payload_encoding: PayloadEncoding::Base64,
        tags: Vec::new(),
        estimated_input_tokens: facts.minimum_input_tokens,
        max_output_tokens: facts.maximum_output_tokens,
        attempt: 1,
        lease_expires_at: issued.lease_expires_at,
        policy_check_required_before_execution: true,
        confidentiality: ConfidentialityMode::Standard,
        regulated_route_id: None,
        attestation_report_id: None,
        attestation_provider: None,
        tee_public_key: None,
    }
}

/// A row holds a challenge as it was issued.
pub open spec fn stores(
    row: ChallengeRow,
    issued: IssuedChallenge,
    facts: IssueFacts,
    generated: GeneratedChallenge,
    metadata: Option<PrivateChallengeMetadata>,
    commitments: Option<PrivateV2Commitments>,
) -> bool {
    &&& row.id == facts.challenge_id
    &&& row.model_id == facts.model_id
    &&& row.model_instance_id == facts.model_instance_id
    &&& row.node_id == facts.node_id
    &&& row.prompt_hash == issued.prompt_hash
    &&& row.expected_hash == issued.expected_hash
    &&& row.issued_at == facts.issued_at
    &&& row.model_weights_hash == Some(facts.model_weights_hash)
    &&& row.challenge_nonce_hash == Some(issued.challenge_nonce_hash)
    &&& row.challenge_binding_hash == Some(issued.challenge_binding_hash)
    &&& row.challenge_issued_expires_at == Some(issued.lease_expires_at)
    &&& row.authorized_input_tokens == Some(facts.minimum_input_tokens)
    &&& row.authorized_max_output_tokens == Some(facts.maximum_output_tokens)
    &&& row.inference_seed == Some(generated.inference_seed as i64)
    &&& row.private.catalog_commitment is None
    &&& match (metadata, commitments) {
        (Some(metadata), Some(commitments)) => {
            &&& row.private.is_committed()
            &&& row.private.commitments_complete()
            &&& row.private.commitment_texts() == commitments.texts()
            &&& row.private.catalog_valid_until == Some(metadata.catalog_valid_until)
        },
        _ => row.private.commitment_version is None,
    }
}

/// What was issued is recognised: a challenge that is read back as it was stored is
/// accepted under its seed, as long as the model keeps its weights.
pub proof fn issued_challenges_are_recognised(
    row: ChallengeRow,
    kind: PrivateEvaluationKind,
    issued: IssuedChallenge,
    facts: IssueFacts,
    generated: GeneratedChallenge,
    seed: Seq<u8>,
    lease_secret: Seq<u8>,
    payload_json: Seq<u8>,
    metadata: Option<PrivateChallengeMetadata>,
    commitments: Option<PrivateV2Commitments>,
)
    requires
        origin_fits(kind, metadata is Some, commitments is Some),
        issued_as(
            issued,
            facts,
            generated,
            seed,
            lease_secret,
            payload_json,
            metadata,
            commitments,
        ),
        stores(row, issued, facts, generated, metadata, commitments),
        row.current_model_weights_hash@ == facts.model_weights_hash@,
        kind is Canary ==> challenges::made_from(generated, kind, seed),
    ensures
        definitions::origin_holds(row, kind, seed),
        definitions::execution_binding_refusal(row, seed) is None,
{
    if let Some(commitments) = commitments {
        let texts = commitments.texts();
        assert(texts[6] == row.private.commitment_texts()[6]);
        assert(texts[7] == row.private.commitment_texts()[7]);
    }
    assert(definitions::binding_complete(row));
    let lease_end = issued.lease_expires_at;
    assert(seq![
        row.model_weights_hash->0@,
        row.challenge_nonce_hash->0@,
        definitions::question_texts(row).0,
        definitions::question_texts(row).1,
    ] =~= issued_texts(facts, generated, seed, commitments));
    assert(row.private.parts() == issued_parts(metadata, commitments));
    assert(definitions::stored_preimage(row) == issued_preimage(
        facts,
        generated,
        seed,
        metadata,
        commitments,
        lease_end,
    ));
}

/// Who hands in an answer or asks for a renewal. `claim_device_bound` says whether the
/// account and the device are those that the challenge was issued to.
pub struct Worker {
    pub user_id: Uuid,
    pub device_key_id: Uuid,
    pub node_id: Uuid,
    pub claim_device_bound: bool,
}

/// What is stored of the lease of a challenge. Times are nanoseconds since the Unix
/// epoch.
pub struct LeaseRow {
    pub user_id: Uuid,
    pub node_id: Uuid,
    pub node_device_key_id: Option<Uuid>,
    pub status: String,
    pub lease_expires_at: i128,
    pub worker_submission_kind: Option<String>,
    pub worker_idempotency_key: Option<String>,
    pub worker_request_hash: Option<String>,
    pub private_catalog_valid_until: Option<i128>,
}

/// The account, the node and the device all are those of the lease.
pub open spec fn owns(worker: Worker, row: LeaseRow) -> bool {
    &&& row.user_id == worker.user_id
    &&& row.node_id == worker.node_id
    &&& row.node_device_key_id == Some(worker.device_key_id)
    &&& worker.claim_device_bound
}

fn is_owner(row: &LeaseRow, worker: &Worker) -> (owner: bool)
    ensures
        owner == owns(*worker, *row),
{
    row.user_id == worker.user_id && row.node_id == worker.node_id && is_id(
        row.node_device_key_id,
        worker.device_key_id,
    ) && worker.claim_device_bound
}

/// Checks that a lease is that of the worker.
pub fn verify_worker_owner(row: &LeaseRow, worker: &Worker) -> (verified: Result<(), ApiError>)
    ensures
        verified == if owns(*worker, *row) {
            Ok::<(), ApiError>(())
        } else {
            Err::<(), ApiError>(ApiError::forbidden("任务租约不属于当前节点"))
        },
{
    if !is_owner(row, worker) {
        return Err(ApiError::forbidden("任务租约不属于当前节点"));
    }
    Ok(())
}

/// Another device does not take over a challenge, not even one of the same account on
/// the same node.
pub proof fn other_devices_do_not_take_over(row: LeaseRow, worker: Worker, other: Worker)
    requires
        owns(worker, row),
        other.device_key_id != worker.device_key_id,
    ensures
        !owns(other, row),
{
}

/// Work that is leased expires at the very moment that its lease ends; work that is
/// not leased does not expire.
pub open spec fn expired(status: Seq<char>, lease_expires_at: i128, now: i128) -> bool {
    status == "leased"@ && lease_expires_at <= now
}

pub fn lease_is_expired(status: &str, lease_expires_at: i128, now: i128) -> (is_expired: bool)
    ensures
        is_expired == expired(status@, lease_expires_at, now),
{
    text::same_text(status, "leased") && lease_expires_at <= now
}

#[verifier::allow_in_spec]
pub fn lease_expired() -> ApiError
    returns
        ApiError::conflict("lease_expired", "任务租约已经过期"),
{
    ApiError::conflict("lease_expired", "任务租约已经过期")
}

#[verifier::allow_in_spec]
pub fn lease_not_renewable_error() -> ApiError
    returns
        ApiError::conflict("lease_not_renewable", "任务租约不存在、已过期或不属于当前节点"),
{
    ApiError::conflict("lease_not_renewable", "任务租约不存在、已过期或不属于当前节点")
}

/// Checks that a challenge takes an answer now.
pub fn ensure_live_lease(row: &LeaseRow, now: i128) -> (live: Result<(), ApiError>)
    ensures
        live == if row.status@ != "leased"@ {
            Err::<(), ApiError>(ApiError::conflict("job_not_leased", "任务当前不接受提交"))
        } else if row.lease_expires_at <= now {
            Err::<(), ApiError>(lease_expired())
        } else {
            Ok::<(), ApiError>(())
        },
{
    if !text::same_text(row.status.as_str(), "leased") {
        return Err(ApiError::conflict("job_not_leased", "任务当前不接受提交"));
    }
    if row.lease_expires_at <= now {
        return Err(lease_expired());
    }
    Ok(())
}

/// What a worker hands in.
#[derive(Clone, Copy, Debug, PartialEq, Eq, Structural)]
pub enum SubmissionKind {
    Result,
    Fail,
}

impl SubmissionKind {
    pub open spec fn text(self) -> Seq<char> {
        match self {
            SubmissionKind::Result => "result"@,
            SubmissionKind::Fail => "fail"@,
        }
    }

    pub fn name(self) -> (name: &'static str)
        ensures
            name@ == self.text(),
    {
        match self {
            SubmissionKind::Result => "result",
            SubmissionKind::Fail => "fail",
        }
    }
}

/// The submission is the one that was stored, to the last byte.
pub open spec fn is_repeated(
    row: LeaseRow,
    kind: SubmissionKind,
    idempotency_key: Seq<char>,
    request_hash: Seq<char>,
) -> bool {
    &&& text::holds(row.worker_submission_kind, kind.text())
    &&& text::holds(row.worker_idempotency_key, idempotency_key)
    &&& text::holds(row.worker_request_hash, request_hash)
}

/// Checks that a submission which comes again is the same as before.
pub fn verify_idempotent_submission(
    row: &LeaseRow,
    kind: SubmissionKind,
    idempotency_key: &str,
    request_hash: &str,
) -> (verified: Result<(), ApiError>)
    ensures
        verified == if is_repeated(*row, kind, idempotency_key@, request_hash@) {
            Ok::<(), ApiError>(())
        } else {
            Err::<(), ApiError>(
                ApiError::conflict(
                    "idempotency_binding_mismatch",
                    "任务幂等键已绑定到不同提交内容",
                ),
            )
        },
{
    if !text::option_holds(&row.worker_submission_kind, kind.name()) || !text::option_holds(
        &row.worker_idempotency_key,
        idempotency_key,
    ) || !text::option_holds(&row.worker_request_hash, request_hash) {
        return Err(
            ApiError::conflict("idempotency_binding_mismatch", "任务幂等键已绑定到不同提交内容"),
        );
    }
    Ok(())
}

/// What a submission comes to.
#[derive(Clone, Copy, Debug, PartialEq, Eq, Structural)]
pub enum HiddenSubmissionStep {
    /// It was taken before: the same answer is given again.
    Replay,
    /// The challenge ended without a submission: the lease is said to be over.
    Ended,
    /// The lease just ran out: the challenge fails, and the lease is said to be over.
    Expire,
    /// It is judged.
    Judge,
}

pub open spec fn hidden_submission(
    row: LeaseRow,
    worker: Worker,
    kind: SubmissionKind,
    idempotency_key: Seq<char>,
    request_hash: Seq<char>,
    now: i128,
) -> Result<HiddenSubmissionStep, ApiError> {
    if !owns(worker, row) {
        Err(ApiError::forbidden("任务租约不属于当前节点"))
    } else if row.worker_submission_kind is Some {
        if !is_repeated(row, kind, idempotency_key, request_hash) {
            Err(
                ApiError::conflict(
                    "idempotency_binding_mismatch",
                    "任务幂等键已绑定到不同提交内容",
                ),
            )
        } else if kind is Result && row.status@ != "succeeded"@ && row.status@ != "failed"@ {
            Err(ApiError::conflict("job_not_leased", "任务当前不接受结果"))
        } else {
            Ok(HiddenSubmissionStep::Replay)
        }
    } else if row.status@ == "failed"@ || row.status@ == "expired"@ {
        Ok(HiddenSubmissionStep::Ended)
    } else if row.status@ != "leased"@ {
        Err(ApiError::conflict("job_not_leased", "任务当前不接受提交"))
    } else if row.lease_expires_at <= now {
        Ok(HiddenSubmissionStep::Expire)
    } else {
        Ok(HiddenSubmissionStep::Judge)
    }
}

/// Checks that a result that was taken before has an answer to repeat. Whether it was
/// right is not told.
pub fn terminal_result_response(status: &str) -> (answer: Result<JobStatus, ApiError>)
    ensures
        answer == if status@ == "succeeded"@ || status@ == "failed"@ {
            Ok::<JobStatus, ApiError>(JobStatus::Succeeded)
        } else {
            Err::<JobStatus, ApiError>(
                ApiError::conflict("job_not_leased", "任务当前不接受结果"),
            )
        },
{
    if !text::same_text(status, "succeeded") && !text::same_text(status, "failed") {
        return Err(ApiError::conflict("job_not_leased", "任务当前不接受结果"));
    }
    Ok(JobStatus::Succeeded)
}

/// Decides what a submission comes to.
pub fn classify_hidden_submission(
    row: &LeaseRow,
    worker: &Worker,
    kind: SubmissionKind,
    idempotency_key: &str,
    request_hash: &str,
    now: i128,
) -> (step: Result<HiddenSubmissionStep, ApiError>)
    ensures
        step == hidden_submission(*row, *worker, kind, idempotency_key@, request_hash@, now),
{
    verify_worker_owner(row, worker)?;
    if row.worker_submission_kind.is_some() {
        verify_idempotent_submission(row, kind, idempotency_key, request_hash)?;
        if let SubmissionKind::Result = kind {
            terminal_result_response(row.status.as_str())?;
        }
        return Ok(HiddenSubmissionStep::Replay);
    }
    if text::same_text(row.status.as_str(), "failed") || text::same_text(
        row.status.as_str(),
        "expired",
    ) {
        return Ok(HiddenSubmissionStep::Ended);
    }
    if lease_is_expired(row.status.as_str(), row.lease_expires_at, now) {
        return Ok(HiddenSubmissionStep::Expire);
    }
    ensure_live_lease(row, now)?;
    Ok(HiddenSubmissionStep::Judge)
}

/// A challenge is judged once: a submission that was taken is never judged again, and
/// nothing is judged whose lease is over.
pub proof fn challenges_are_judged_once(
    row: LeaseRow,
    worker: Worker,
    kind: SubmissionKind,
    idempotency_key: Seq<char>,
    request_hash: Seq<char>,
    now: i128,
)
    requires
        row.worker_submission_kind is Some || row.lease_expires_at <= now,
    ensures
        hidden_submission(row, worker, kind, idempotency_key, request_hash, now) != Ok::<
            HiddenSubmissionStep,
            ApiError,
        >(HiddenSubmissionStep::Judge),
{
}

/// What a request to renew the lease of a challenge comes to.
#[derive(Clone, Copy, Debug, PartialEq, Eq, Structural)]
pub enum HiddenRenewal {
    Renewed { lease_expires_at: i128 },
    Expired,
}

pub open spec fn hidden_renewal(row: LeaseRow, worker: Worker, now: i128, lease_seconds: int) -> Result<
    HiddenRenewal,
    ApiError,
> {
    if !owns(worker, row) || row.status@ != "leased"@ {
        Err(lease_not_renewable_error())
    } else if row.lease_expires_at <= now {
        Ok(HiddenRenewal::Expired)
    } else {
        match clock::moment_after(now, lease_seconds) {
            Err(refused) => Err(refused),
            Ok(end) => match row.private_catalog_valid_until {
                Some(valid_until) => if valid_until <= now {
                    Ok(HiddenRenewal::Expired)
                } else if valid_until < end {
                    Ok(HiddenRenewal::Renewed { lease_expires_at: valid_until })
                } else {
                    Ok(HiddenRenewal::Renewed { lease_expires_at: end })
                },
                None => Ok(HiddenRenewal::Renewed { lease_expires_at: end }),
            },
        }
    }
}

/// Renews the lease of a challenge, but not beyond its catalogue. Whatever is wrong,
/// the worker gets the one error that an ordinary job would give.
pub fn renew_hidden_job(row: &LeaseRow, worker: &Worker, now: i128, lease_seconds: u64) -> (renewal: Result<
    HiddenRenewal,
    ApiError,
>)
    requires
        clock::is_moment(now),
    ensures
        renewal == hidden_renewal(*row, *worker, now, lease_seconds as int),
{
    if !is_owner(row, worker) || !text::same_text(row.status.as_str(), "leased") {
        return Err(lease_not_renewable_error());
    }
    if row.lease_expires_at <= now {
        return Ok(HiddenRenewal::Expired);
    }
    let end: i128 = clock::expiry(now, lease_seconds)?;
    match row.private_catalog_valid_until {
        Some(valid_until) => if valid_until <= now {
            Ok(HiddenRenewal::Expired)
        } else if valid_until < end {
            Ok(HiddenRenewal::Renewed { lease_expires_at: valid_until })
        } else {
            Ok(HiddenRenewal::Renewed { lease_expires_at: end })
        },
        None => Ok(HiddenRenewal::Renewed { lease_expires_at: end }),
    }
}

/// No renewal outlives the catalogue, and none is for a time that is past.
pub proof fn renewals_end_with_the_catalogue(
    row: LeaseRow,
    worker: Worker,
    now: i128,
    lease_seconds: int,
    lease_expires_at: i128,
)
    requires
        lease_seconds >= 1,
        hidden_renewal(row, worker, now, lease_seconds) == Ok::<HiddenRenewal, ApiError>(
            HiddenRenewal::Renewed { lease_expires_at },
        ),
    ensures
        lease_expires_at > now,
        row.private_catalog_valid_until matches Some(valid_until) ==> lease_expires_at
            <= valid_until,
        lease_expires_at <= now + lease_seconds * clock::NANOS_PER_SECOND,
{
}

/// Whether a challenge is to be failed because its lease ran out.
pub fn expire_hidden_job_if_needed(row: &LeaseRow, worker: &Worker, now: i128) -> (expire: Result<
    bool,
    ApiError,
>)
    ensures
        expire == if owns(*worker, *row) {
            Ok::<bool, ApiError>(expired(row.status@, row.lease_expires_at, now))
        } else {
            Err::<bool, ApiError>(ApiError::forbidden("任务租约不属于当前节点"))
        },
{
    verify_worker_owner(row, worker)?;
    Ok(lease_is_expired(row.status.as_str(), row.lease_expires_at, now))
}

/// The status that the owner of the node sees of a challenge: that of an ordinary job.
pub open spec fn shown_status(status: Seq<char>, submission_kind: Option<String>) -> Seq<char> {
    if text::holds(submission_kind, "result"@) {
        "succeeded"@
    } else if text::holds(submission_kind, "fail"@) || status == "expired"@ {
        "failed"@
    } else {
        status
    }
}

pub fn get_hidden_job_status(
    viewer: Uuid,
    node_owner: Uuid,
    status: String,
    submission_kind: &Option<String>,
) -> (shown: Result<String, ApiError>)
    ensures
        match shown {
            Ok(shown) => viewer == node_owner && shown@ == shown_status(status@, *submission_kind),
            Err(refused) => viewer != node_owner && refused == ApiError::forbidden("无权查看此任务"),
        },
{
    if node_owner != viewer {
        return Err(ApiError::forbidden("无权查看此任务"));
    }
    if text::option_holds(submission_kind, "result") {
        Ok(String::from_str("succeeded"))
    } else if text::option_holds(submission_kind, "fail") || text::same_text(
        status.as_str(),
        "expired",
    ) {
        Ok(String::from_str("failed"))
    } else {
        Ok(status)
    }
}

/// Whether the answer was right is not to be seen: a result that was handed in is shown
/// as a success, however it was judged.
pub proof fn verdicts_are_not_shown(first: Seq<char>, second: Seq<char>, submission_kind: Option<String>)
    requires
        text::holds(submission_kind, "result"@) || text::holds(submission_kind, "fail"@),
    ensures
        shown_status(first, submission_kind) == shown_status(second, submission_kind),
{
}

pub open spec fn bad_result(message: &'static str) -> Option<ApiError> {
    Some(ApiError::bad_request("invalid_job_result", message))
}

pub open spec fn answered_refusal(
    model: Seq<char>,
    minimum_input_tokens: i32,
    maximum_output_tokens: i32,
    response: Option<ChatCompletionsResponse>,
    input: int,
    output: int,
) -> Option<ApiError> {
    match response {
        None => bad_result("聊天任务结果不符合 OpenAI 响应协议"),
        Some(response) => {
            if response.choices@.len() == 0 {
                bad_result("聊天任务结果缺少 choices")
            } else if response.model@ != model {
                Some(
                    ApiError::bad_request(
                        "model_binding_mismatch",
                        "聊天任务结果模型与任务载荷不一致",
                    ),
                )
            } else if !(response.choices@[0].content matches MessageContent::Text(value)
                && text::trimmed(value@).len() > 0) {
                bad_result("聊天任务结果必须包含非空文本")
            } else if jobs::reported_usage_refusal(response.usage, input, output) is Some {
                jobs::reported_usage_refusal(response.usage, input, output)
            } else if input == 0 && output == 0 {
                Some(
                    ApiError::bad_request("invalid_usage", "Token 使用量不能为负数或全部为零"),
                )
            } else if input > minimum_input_tokens || output
                > maximum_output_tokens {
                Some(
                    ApiError::bad_request(
                        "usage_exceeds_authorized_limit",
                        "节点上报的 Token 使用量超过任务授权上限",
                    ),
                )
            } else {
                None
            }
        },
    }
}

pub open spec fn output_refusal(
    authorization: AuthorizedChallenge,
    response: Option<ChatCompletionsResponse>,
    input: int,
    output: int,
) -> Option<ApiError> {
    answered_refusal(
        authorization.model@,
        authorization.minimum_input_tokens,
        authorization.maximum_output_tokens,
        response,
        input,
        output,
    )
}

fn check_output_usage(
    authorization: &AuthorizedChallenge,
    response: &ChatCompletionsResponse,
    actual_input_tokens: i32,
    actual_output_tokens: i32,
) -> (checked: Result<(), ApiError>)
    requires
        response.choices@.len() > 0,
        response.model@ == authorization.model@,
        response.choices@[0].content matches MessageContent::Text(value) && text::trimmed(
            value@,
        ).len() > 0,
    ensures
        checked == error::unless(
            output_refusal(
                *authorization,
                Some(*response),
                actual_input_tokens as int,
                actual_output_tokens as int,
            ),
            (),
        ),
{
    validate_reported_usage(response.usage, actual_input_tokens, actual_output_tokens)?;
    if actual_input_tokens == 0 && actual_output_tokens == 0 {
        return Err(ApiError::bad_request("invalid_usage", "Token 使用量不能为负数或全部为零"));
    }
    if actual_input_tokens > authorization.minimum_input_tokens || actual_output_tokens
        > authorization.maximum_output_tokens {
        return Err(
            ApiError::bad_request(
                "usage_exceeds_authorized_limit",
                "节点上报的 Token 使用量超过任务授权上限",
            ),
        );
    }
    Ok(())
}

/// Checks the answer to a challenge and takes its text out; all else that it holds is
/// overwritten. `None` stands for bytes that are no chat completion.
pub fn validate_and_extract_output(
    authorization: &AuthorizedChallenge,
    response: Option<ChatCompletionsResponse>,
    actual_input_tokens: i32,
    actual_output_tokens: i32,
) -> (output: Result<String, ApiError>)
    ensures
        match output {
            Ok(output) => {
                &&& output_refusal(
                    *authorization,
                    response,
                    actual_input_tokens as int,
                    actual_output_tokens as int,
                ) is None
                &&& response->0.choices@[0].content matches MessageContent::Text(value)
                    && value@ == output@
            },
            Err(refused) => output_refusal(
                *authorization,
                response,
                actual_input_tokens as int,
                actual_output_tokens as int,
            ) == Some(refused),
        },
{
    let mut response = match response {
        Some(response) => response,
        None => {
            return Err(
                ApiError::bad_request("invalid_job_result", "聊天任务结果不符合 OpenAI 响应协议"),
            );
        },
    };
    if response.choices.len() == 0 {
        response.zeroize_owned();
        return Err(ApiError::bad_request("invalid_job_result", "聊天任务结果缺少 choices"));
    }
    if !text::same_text(response.model.as_str(), authorization.model.as_str()) {
        response.zeroize_owned();
        return Err(
            ApiError::bad_request("model_binding_mismatch", "聊天任务结果模型与任务载荷不一致"),
        );
    }
    let has_text = match &response.choices[0].content {
        MessageContent::Text(value) => !text::trim(value.as_str()).is_empty(),
        MessageContent::Parts(_) => false,
    };
    if !has_text {
        response.zeroize_owned();
        return Err(
            ApiError::bad_request("invalid_job_result", "聊天任务结果必须包含非空文本"),
        );
    }
    let checked = check_output_usage(
        authorization,
        &response,
        actual_input_tokens,
        actual_output_tokens,
    );
    let mut content = MessageContent::Text(String::new());
    std::mem::swap(&mut response.choices[0].content, &mut content);
    response.zeroize_owned();
    match checked {
        Err(refused) => {
            zeroize_message_content(&mut content);
            Err(refused)
        },
        Ok(()) => match content {
            MessageContent::Text(value) => Ok(value),
            MessageContent::Parts(_) => Err(ApiError::internal()),
        },
    }
}

/// Whether an answer is right, or that this cannot be told.
pub open spec fn answer_matches<C>(
    row: ChallengeRow,
    answer: Seq<char>,
    authorization: TerminalMutationAuthorization<C>,
    private_match: Option<bool>,
) -> Option<bool> {
    match row.private.commitment_version {
        None => match row.expected_hash {
            Some(expected) => Some(expected@ == billing::sha256_text(answer)),
            None => None,
        },
        Some(version) => if version == PRIVATE_COMMITMENT_VERSION && authorization is V2
            && row.private.expected_commitment is Some {
            private_match
        } else {
            None
        },
    }
}

/// What the comparison of an answer under the key of a capability is handed.
pub struct PrivateComparison {
    pub normalized_digest: Vec<u8>,
    pub expected_commitment: String,
}

/// What the answer to a challenge is compared by under the key of the capability: its
/// SHA-256 digest, and the commitment to the expected one. A challenge that is not known
/// by commitments alone needs no such comparison.
pub fn private_comparison<C>(
    row: &ChallengeRow,
    normalized_output: &str,
    authorization: &TerminalMutationAuthorization<C>,
) -> (compared: Result<Option<PrivateComparison>, ApiError>)
    ensures
        match row.private.commitment_version {
            None => compared == Ok::<Option<PrivateComparison>, ApiError>(None),
            Some(version) => if version == PRIVATE_COMMITMENT_VERSION && authorization is V2
                && row.private.expected_commitment is Some {
                compared matches Ok(Some(handed)) && handed.normalized_digest@ == crypto::sha256(
                    vstd::utf8::encode_utf8(normalized_output@),
                ) && handed.normalized_digest@.len() == 32 && handed.expected_commitment@
                    == row.private.expected_commitment->0@
            } else {
                compared == Err::<Option<PrivateComparison>, ApiError>(ApiError::internal())
            },
        },
{
    let version: i32 = match row.private.commitment_version {
        Some(version) => version,
        None => {
            return Ok(None);
        },
    };
    if version != PRIVATE_COMMITMENT_VERSION {
        return Err(ApiError::internal());
    }
    match (authorization, &row.private.expected_commitment) {
        (TerminalMutationAuthorization::V2(_), Some(expected)) => Ok(
            Some(
                PrivateComparison {
                    normalized_digest: crypto::sha256_digest(normalized_output.as_bytes()),
                    expected_commitment: expected.clone(),
                },
            ),
        ),
        _ => Err(ApiError::internal()),
    }
}

/// Whether an answer is the expected one. The hash of the answer tells, or for a
/// challenge that is known by commitments alone the comparison under the key of the
/// capability that `private_comparison` is for, whose outcome is `private_match`; `None`
/// stands for a comparison that could not be made.
pub fn submitted_answer_matches<C>(
    row: &ChallengeRow,
    normalized_output: &str,
    authorization: &TerminalMutationAuthorization<C>,
    private_match: Option<bool>,
) -> (matches: Result<bool, ApiError>)
    ensures
        matches == match answer_matches(
            *row,
            normalized_output@,
            *authorization,
            private_match,
        ) {
            Some(passed) => Ok::<bool, ApiError>(passed),
            None => Err::<bool, ApiError>(ApiError::internal()),
        },
{
    match row.private.commitment_version {
        None => match &row.expected_hash {
            Some(expected) => {
                let submitted = sha256_hex(normalized_output);
                proof {
                    vstd::utf8::encode_utf8_decode_utf8(expected@);
                    vstd::utf8::encode_utf8_decode_utf8(submitted@);
                }
                Ok(constant_time_equal(
                        expected.as_str().as_bytes(),
                        submitted.as_str().as_bytes(),
                    ))
            },
            None => Err(ApiError::internal()),
        },
        Some(version) => {
            if version != PRIVATE_COMMITMENT_VERSION || row.private.expected_commitment.is_none() {
                return Err(ApiError::internal());
            }
            match authorization {
                TerminalMutationAuthorization::Legacy => Err(ApiError::internal()),
                TerminalMutationAuthorization::V2(_) => match private_match {
                    Some(private_match) => Ok(private_match),
                    None => Err(ApiError::internal()),
                },
            }
        },
    }
}

/// How a challenge ends, once it is known whether the answer was right.
pub struct Judgement {
    pub status: &'static str,
    pub score_normalized: i32,
    pub reason_code: &'static str,
    pub result_hash: String,
}

/// How a challenge ends with an answer.
pub open spec fn is_judgement(
    judgement: Judgement,
    passed: bool,
    job_id: Uuid,
    seed: Seq<u8>,
    request_hash: Seq<char>,
) -> bool {
    &&& judgement.score_normalized == if passed { 1_000_000int } else { 0 }
    &&& judgement.status@ == if passed { "succeeded"@ } else { "failed"@ }
    &&& judgement.reason_code@ == if passed { "answer_match"@ } else { "answer_mismatch"@ }
    &&& judgement.result_hash@ == bindings::result_commitment(
        job_id,
        seed,
        vstd::utf8::encode_utf8(request_hash),
    )
}

/// Judges an answer: all or nothing. Only a salted commitment to the submission is
/// kept.
pub fn judge(passed: bool, job_id: Uuid, seed: &[u8; 32], request_hash: &str) -> (judgement: Judgement)
    ensures
        is_judgement(judgement, passed, job_id, seed@, request_hash@),
{
    let result_hash = salted_commitment(job_id, seed, request_hash.as_bytes());
    if passed {
        Judgement {
            status: "succeeded",
            score_normalized: 1_000_000,
            reason_code: "answer_match",
            result_hash,
        }
    } else {
        Judgement {
            status: "failed",
            score_normalized: 0,
            reason_code: "answer_mismatch",
            result_hash,
        }
    }
}

/// Ends a challenge that the worker gave up.
pub fn judge_worker_failure(job_id: Uuid, seed: &[u8; 32], request_hash: &str) -> (judgement: Judgement)
    ensures
        judgement.score_normalized == 0,
        judgement.status@ == "failed"@,
        judgement.reason_code@ == "worker_failed"@,
        judgement.result_hash@ == bindings::result_commitment(
            job_id,
            seed@,
            vstd::utf8::encode_utf8(request_hash@),
        ),
{
    Judgement {
        status: "failed",
        score_normalized: 0,
        reason_code: "worker_failed",
        result_hash: salted_commitment(job_id, seed, request_hash.as_bytes()),
    }
}

/// Ends a challenge whose lease ran out, if there is the right to.
pub fn complete_expired_failure<C>(
    private_commitment_version: Option<i32>,
    authorization: &TerminalMutationAuthorization<C>,
    challenge_id: Uuid,
    stored_seed: &Option<Vec<u8>>,
) -> (judgement: Result<Judgement, ApiError>)
    ensures
        match judgement {
            Ok(judgement) => {
                &&& authorizes(*authorization, private_commitment_version)
                &&& stored_seed matches Some(seed) && seed@.len() == 32
                    && judgement.result_hash@ == bindings::result_commitment(
                    challenge_id,
                    seed@,
                    vstd::utf8::encode_utf8("lease-expired"@),
                )
                &&& judgement.score_normalized == 0
                &&& judgement.status@ == "failed"@
                &&& judgement.reason_code@ == "lease_expired"@
            },
            Err(refused) => {
                &&& refused == ApiError::internal()
                &&& !authorizes(*authorization, private_commitment_version) || !(
                stored_seed matches Some(seed) && seed@.len() == 32)
            },
        },
{
    verify_terminal_authorization(private_commitment_version, authorization)?;
    let seed = definitions::challenge_seed(stored_seed)?;
    Ok(
        Judgement {
            status: "failed",
            score_normalized: 0,
            reason_code: "lease_expired",
            result_hash: salted_commitment(challenge_id, &seed, "lease-expired".as_bytes()),
        },
    )
}

/// Issues a challenge, and puts together what its worker gets.
pub fn insert_challenge_claim(
    kind: PrivateEvaluationKind,
    facts: &IssueFacts,
    generated: &GeneratedChallenge,
    seed: &[u8; 32],
    lease_secret: &[u8; 32],
    payload_json: &Vec<u8>,
    metadata: &Option<PrivateChallengeMetadata>,
    commitments: &Option<PrivateV2Commitments>,
) -> (inserted: Result<(IssuedChallenge, ClaimJobResponse), ApiError>)
    requires
        clock::is_moment(facts.issued_at),
        payload_json@.len() <= usize::MAX / 4,
    ensures
        match inserted {
            Ok((issued, claim)) => {
                &&& origin_fits(kind, metadata is Some, commitments is Some)
                &&& issued_as(
                    issued,
                    *facts,
                    *generated,
                    seed@,
                    lease_secret@,
                    payload_json@,
                    *metadata,
                    *commitments,
                )
                &&& is_claim_of(claim, *facts, issued)
            },
            Err(refused) => {
                &&& refused == ApiError::internal()
                &&& !origin_fits(kind, metadata is Some, commitments is Some) || issued_lease_end(
                    *facts,
                    *metadata,
                ) is Err
            },
        },
{
    let issued = issue_challenge(
        kind,
        facts,
        generated,
        seed,
        lease_secret,
        payload_json,
        metadata,
        commitments,
    )?;
    let claim = challenge_claim(facts, &issued);
    Ok((issued, claim))
}

/// An answer to a challenge that is what it was issued as.
pub struct HiddenAnswer {
    pub seed: [u8; 32],
    pub answer: String,
}

/// Why an answer to a challenge is not judged.
pub open spec fn answer_refusal(
    row: ChallengeRow,
    kind: PrivateEvaluationKind,
    seed: Seq<u8>,
    limits: Option<StandardLimits>,
    response: Option<ChatCompletionsResponse>,
    input: int,
    output: int,
) -> Option<ApiError> {
    if !definitions::origin_holds(row, kind, seed) {
        Some(ApiError::internal())
    } else if let Some(refused) = definitions::execution_binding_refusal(row, seed) {
        Some(refused)
    } else {
        match definitions::authorized(row, limits) {
            None => Some(ApiError::internal()),
            Some((model, minimum_input_tokens, maximum_output_tokens)) => answered_refusal(
                model,
                minimum_input_tokens,
                maximum_output_tokens,
                response,
                input,
                output,
            ),
        }
    }
}

/// Takes the answer out of what a worker hands in, once the challenge is known to be what
/// it was issued as. `None` stands for bytes that are no chat completion.
pub fn hidden_answer(
    row: &ChallengeRow,
    stored_seed: &Option<Vec<u8>>,
    limits: &Option<StandardLimits>,
    response: Option<ChatCompletionsResponse>,
    actual_input_tokens: i32,
    actual_output_tokens: i32,
) -> (answer: Result<HiddenAnswer, ApiError>)
    ensures
        match answer {
            Ok(answer) => {
                &&& stored_seed matches Some(seed) && seed@ == answer.seed@
                &&& exists|kind: PrivateEvaluationKind|
                    #[trigger] kind.name() == row.challenge_kind@ && answer_refusal(
                        *row,
                        kind,
                        answer.seed@,
                        *limits,
                        response,
                        actual_input_tokens as int,
                        actual_output_tokens as int,
                    ) is None
                &&& response->0.choices@[0].content matches MessageContent::Text(value)
                    && answer.answer@ == text::trimmed(value@)
            },
            Err(refused) => {
                ||| refused == ApiError::internal() && forall|kind: PrivateEvaluationKind|
                    #[trigger] kind.name() != row.challenge_kind@
                ||| refused == ApiError::internal() && !(stored_seed matches Some(seed)
                    && seed@.len() == 32)
                ||| stored_seed matches Some(seed) && seed@.len() == 32 && exists|
                    kind: PrivateEvaluationKind,
                |
                    #[trigger] kind.name() == row.challenge_kind@ && answer_refusal(
                        *row,
                        kind,
                        seed@,
                        *limits,
                        response,
                        actual_input_tokens as int,
                        actual_output_tokens as int,
                    ) == Some(refused)
            },
        },
{
    let kind = parse_kind(row.challenge_kind.as_str())?;
    let seed = definitions::challenge_seed(stored_seed)?;
    let ghost shown = stored_seed->0@;
    assert(shown == seed@);
    match definitions::verify_challenge_definition(row, kind, &seed, limits) {
        Err(refused) => {
            assert(answer_refusal(
                *row,
                kind,
                shown,
                *limits,
                response,
                actual_input_tokens as int,
                actual_output_tokens as int,
            ) == Some(refused));
            Err(refused)
        },
        Ok(authorization) => match validate_and_extract_output(
            &authorization,
            response,
            actual_input_tokens,
            actual_output_tokens,
        ) {
            Err(refused) => {
                assert(answer_refusal(
                    *row,
                    kind,
                    shown,
                    *limits,
                    response,
                    actual_input_tokens as int,
                    actual_output_tokens as int,
                ) == Some(refused));
                Err(refused)
            },
            Ok(mut output) => {
                let answer = text::trim(output.as_str()).to_owned();
                crypto::wipe_text(&mut output);
                assert(answer_refusal(
                    *row,
                    kind,
                    shown,
                    *limits,
                    response,
                    actual_input_tokens as int,
                    actual_output_tokens as int,
                ) is None);
                Ok(HiddenAnswer { seed, answer })
            },
        },
    }
}

/// Ends a challenge with the answer of its worker. `private_match` is what the comparison
/// under the key of the capability says of the answer.
pub fn submit_hidden_job_result<C>(
    row: &ChallengeRow,
    answer: HiddenAnswer,
    authorization: &TerminalMutationAuthorization<C>,
    private_match: Option<bool>,
    request_hash: &str,
) -> (judged: Result<Judgement, ApiError>)
    ensures
        match answer_matches(*row, answer.answer@, *authorization, private_match) {
            Some(passed) => judged matches Ok(judgement) && is_judgement(
                judgement,
                passed,
                row.id,
                answer.seed@,
                request_hash@,
            ),
            None => judged == Err::<Judgement, ApiError>(ApiError::internal()),
        },
{
    let mut answer = answer;
    let matched = submitted_answer_matches(
        row,
        answer.answer.as_str(),
        authorization,
        private_match,
    );
    crypto::wipe_text(&mut answer.answer);
    let passed = matched?;
    Ok(judge(passed, row.id, &answer.seed, request_hash))
}

/// A challenge of the public templates passes with the answer that its seed makes right,
/// and fails with every answer of another hash.
pub proof fn expected_answers_pass<C>(
    row: ChallengeRow,
    kind: PrivateEvaluationKind,
    seed: Seq<u8>,
    answer: Seq<char>,
    authorization: TerminalMutationAuthorization<C>,
    private_match: Option<bool>,
)
    requires
        definitions::is_public(row),
        definitions::origin_holds(row, kind, seed),
    ensures
        answer_matches(
            row,
            challenges::question(kind, seed).1,
            authorization,
            private_match,
        ) == Some(true),
        billing::sha256_text(answer) != billing::sha256_text(challenges::question(kind, seed).1)
            ==> answer_matches(row, answer, authorization, private_match) == Some(false),
{
}

/// What the database counts for a budget, and who was asked before.
#[derive(Clone, Copy, Debug, PartialEq, Eq, Structural)]
pub struct PrivateBudgetCounts {
    pub catalog_hourly: i64,
    pub account_hourly: i64,
    pub device_hourly: i64,
    pub node_hourly: i64,
    pub identity_in_cooldown: bool,
    pub remaining_catalog_entries: u64,
    pub account_seen_in_catalog: bool,
    pub device_seen_in_catalog: bool,
    pub node_seen_in_catalog: bool,
}

impl PrivateBudgetCounts {
    pub open spec fn valid(self) -> bool {
        &&& self.catalog_hourly >= 0
        &&& self.account_hourly >= 0
        &&& self.device_hourly >= 0
        &&& self.node_hourly >= 0
    }

    pub open spec fn snapshot(self) -> PrivateBudgetSnapshot {
        PrivateBudgetSnapshot {
            catalog_hourly: self.catalog_hourly as u64,
            account_hourly: self.account_hourly as u64,
            device_hourly: self.device_hourly as u64,
            node_hourly: self.node_hourly as u64,
            identity_in_cooldown: self.identity_in_cooldown,
            remaining_catalog_entries: self.remaining_catalog_entries,
            account_seen_in_catalog: self.account_seen_in_catalog,
            device_seen_in_catalog: self.device_seen_in_catalog,
            node_seen_in_catalog: self.node_seen_in_catalog,
        }
    }
}

/// Decides whether the budget has room for one more, out of what the database counts. A
/// cooldown that the database cannot compute with, or a negative count, is an internal
/// error.
pub fn private_budget_allows_claim(
    budget: &PrivateEvaluationBudgetConfig,
    counts: PrivateBudgetCounts,
) -> (allowed: Result<bool, ApiError>)
    ensures
        allowed == if counts.valid() && budget.cooldown_milliseconds <= i64::MAX {
            Ok::<bool, ApiError>(budget_allows(*budget, counts.snapshot()))
        } else {
            Err::<bool, ApiError>(ApiError::internal())
        },
{
    let catalog_hourly = nonnegative_count(counts.catalog_hourly)?;
    let account_hourly = nonnegative_count(counts.account_hourly)?;
    let device_hourly = nonnegative_count(counts.device_hourly)?;
    let node_hourly = nonnegative_count(counts.node_hourly)?;
    if budget.cooldown_milliseconds > i64::MAX as u64 {
        return Err(ApiError::internal());
    }
    let snapshot = PrivateBudgetSnapshot {
        catalog_hourly,
        account_hourly,
        device_hourly,
        node_hourly,
        identity_in_cooldown: counts.identity_in_cooldown,
        remaining_catalog_entries: counts.remaining_catalog_entries,
        account_seen_in_catalog: counts.account_seen_in_catalog,
        device_seen_in_catalog: counts.device_seen_in_catalog,
        node_seen_in_catalog: counts.node_seen_in_catalog,
    };
    Ok(private_budget_snapshot_allows(budget, snapshot))
}

/// What happened last on the way to a hidden challenge.
#[derive(Clone, Copy, Debug, PartialEq, Eq, Structural)]
pub enum HiddenClaimEvent {
    /// The candidates of the catalogue were gathered.
    Gathered,
    /// The budget was asked about a candidate.
    Budget { allowed: bool },
    /// A private challenge was issued; it is stored, unless another one was first.
    Issued { stored: bool },
}

/// What is to be done next on the way to a hidden challenge.
#[derive(Clone, Copy, Debug, PartialEq, Eq, Structural)]
pub enum HiddenClaimStep {
    AskBudget { candidate: usize },
    IssuePrivate { candidate: usize },
    IssueCanary,
    Done,
}

/// The candidate that comes next, or the public canary where there is none left.
pub open spec fn candidate_or_canary(candidates: int, next: int) -> HiddenClaimStep {
    if next < candidates {
        HiddenClaimStep::AskBudget { candidate: next as usize }
    } else {
        HiddenClaimStep::IssueCanary
    }
}

pub open spec fn claim_step(candidates: int, candidate: int, event: HiddenClaimEvent) -> HiddenClaimStep {
    match event {
        HiddenClaimEvent::Gathered => candidate_or_canary(candidates, 0),
        HiddenClaimEvent::Budget { allowed } => if allowed && candidate < candidates {
            HiddenClaimStep::IssuePrivate { candidate: candidate as usize }
        } else {
            HiddenClaimStep::IssueCanary
        },
        HiddenClaimEvent::Issued { stored } => if stored {
            HiddenClaimStep::Done
        } else {
            candidate_or_canary(candidates, candidate + 1)
        },
    }
}

/// Leads to the hidden challenge of a node that was drawn for one. The candidates of the
/// catalogue are tried in turn, each only within the budget; where the budget has no room
/// or no candidate is left, the node gets a public canary. `candidate` is the one that the
/// event is about.
pub fn maybe_claim_hidden_job(candidates: usize, candidate: usize, event: HiddenClaimEvent) -> (step:
    HiddenClaimStep)
    ensures
        step == claim_step(candidates as int, candidate as int, event),
{
    match event {
        HiddenClaimEvent::Gathered => if candidates > 0 {
            HiddenClaimStep::AskBudget { candidate: 0 }
        } else {
            HiddenClaimStep::IssueCanary
        },
        HiddenClaimEvent::Budget { allowed } => if allowed && candidate < candidates {
            HiddenClaimStep::IssuePrivate { candidate }
        } else {
            HiddenClaimStep::IssueCanary
        },
        HiddenClaimEvent::Issued { stored } => if stored {
            HiddenClaimStep::Done
        } else if candidate < candidates && candidates - candidate > 1 {
            HiddenClaimStep::AskBudget { candidate: candidate + 1 }
        } else {
            HiddenClaimStep::IssueCanary
        },
    }
}

/// No private challenge is issued that the budget did not allow, and a budget without room
/// leads where an empty catalogue leads.
pub proof fn private_challenges_take_budget(candidates: int, candidate: int, event: HiddenClaimEvent)
    ensures
        claim_step(candidates, candidate, event) is IssuePrivate ==> event == (
        HiddenClaimEvent::Budget { allowed: true }),
        claim_step(candidates, candidate, HiddenClaimEvent::Budget { allowed: false })
            == claim_step(0, candidate, HiddenClaimEvent::Gathered),
{
}

/// What a failure that a worker reports comes to.
pub enum HiddenFailure {
    /// The report was taken before.
    Replay,
    /// The challenge ended before: its lease ran out.
    Ended,
    /// The lease ran out just now, which ends the challenge.
    Expired(Judgement),
    /// The report ends the challenge.
    Judged(Judgement),
}

/// What is recorded of a challenge that ended without an answer.
pub open spec fn is_failure(
    judgement: Judgement,
    reason: Seq<char>,
    job_id: Uuid,
    seed: Seq<u8>,
    committed: Seq<char>,
) -> bool {
    &&& judgement.status@ == "failed"@
    &&& judgement.score_normalized == 0
    &&& judgement.reason_code@ == reason
    &&& judgement.result_hash@ == bindings::result_commitment(
        job_id,
        seed,
        vstd::utf8::encode_utf8(committed),
    )
}

/// The seed of a challenge is there.
pub open spec fn has_seed(stored_seed: Option<Vec<u8>>) -> bool {
    stored_seed matches Some(seed) && seed@.len() == 32
}

/// Takes the report of a worker that it failed at a challenge. It takes the right to end
/// the challenge, which depends on its version.
pub fn submit_hidden_job_failure<C>(
    row: &LeaseRow,
    worker: &Worker,
    idempotency_key: &str,
    request_hash: &str,
    now: i128,
    job_id: Uuid,
    private_commitment_version: Option<i32>,
    capability: Option<C>,
    stored_seed: &Option<Vec<u8>>,
) -> (failed: Result<HiddenFailure, ApiError>)
    ensures
        match granted(private_commitment_version, capability) {
            Err(refused) => failed == Err::<HiddenFailure, ApiError>(refused),
            Ok(_) => match hidden_submission(
                *row,
                *worker,
                SubmissionKind::Fail,
                idempotency_key@,
                request_hash@,
                now,
            ) {
                Err(refused) => failed == Err::<HiddenFailure, ApiError>(refused),
                Ok(HiddenSubmissionStep::Replay) => failed == Ok::<HiddenFailure, ApiError>(
                    HiddenFailure::Replay,
                ),
                Ok(HiddenSubmissionStep::Ended) => failed == Ok::<HiddenFailure, ApiError>(
                    HiddenFailure::Ended,
                ),
                Ok(HiddenSubmissionStep::Expire) => if has_seed(*stored_seed) {
                    failed matches Ok(HiddenFailure::Expired(judgement)) && is_failure(
                        judgement,
                        "lease_expired"@,
                        job_id,
                        stored_seed->0@,
                        "lease-expired"@,
                    )
                } else {
                    failed == Err::<HiddenFailure, ApiError>(ApiError::internal())
                },
                Ok(HiddenSubmissionStep::Judge) => if has_seed(*stored_seed) {
                    failed matches Ok(HiddenFailure::Judged(judgement)) && is_failure(
                        judgement,
                        "worker_failed"@,
                        job_id,
                        stored_seed->0@,
                        request_hash@,
                    )
                } else {
                    failed == Err::<HiddenFailure, ApiError>(ApiError::internal())
                },
            },
        },
{
    let authorization = authorize_terminal_mutation(private_commitment_version, capability)?;
    let step = classify_hidden_submission(
        row,
        worker,
        SubmissionKind::Fail,
        idempotency_key,
        request_hash,
        now,
    )?;
    match step {
        HiddenSubmissionStep::Replay => Ok(HiddenFailure::Replay),
        HiddenSubmissionStep::Ended => Ok(HiddenFailure::Ended),
        HiddenSubmissionStep::Expire => {
            let judgement = complete_expired_failure(
                private_commitment_version,
                &authorization,
                job_id,
                stored_seed,
            )?;
            Ok(HiddenFailure::Expired(judgement))
        },
        HiddenSubmissionStep::Judge => {
            let seed = definitions::challenge_seed(stored_seed)?;
            Ok(HiddenFailure::Judged(judge_worker_failure(job_id, &seed, request_hash)))
        },
    }
}

/// One draw in as many as the denominator says is a hit: the multiples, and nothing for zero.
pub proof fn hits_are_multiples(denominator: u32, draw: u32, factor: u32)
    ensures
        denominator == 0 ==> !is_hit(denominator, draw),
        denominator == 1 ==> is_hit(denominator, draw),
        denominator > 0 && draw == denominator * factor ==> is_hit(denominator, draw),
        is_hit(denominator, draw) ==> denominator > 0 && draw == denominator * (draw
            / denominator),
        is_hit(denominator, draw) && draw < denominator ==> draw == 0,
{
    if denominator > 0 {
        vstd::arithmetic::div_mod::lemma_fundamental_div_mod(draw as int, denominator as int);
        if draw == denominator * factor {
            vstd::arithmetic::div_mod::lemma_mod_multiples_basic(factor as int, denominator as int);
            assert(denominator * factor == factor * denominator) by (nonlinear_arith);
        }
        if draw < denominator {
            vstd::arithmetic::div_mod::lemma_small_mod(draw as nat, denominator as nat);
        }
    }
}

/// A draw is read with the least significant byte first.
pub proof fn draws_are_read_low_byte_first(bytes: Seq<u8>)
    requires
        bytes.len() == 4,
    ensures
        spelled_draw(bytes) == bytes[0] + 256 * (bytes[1] + 256 * (bytes[2] + 256 * bytes[3])),
{
}

/// A right is granted exactly for a public challenge, and for one that is known by the present
/// kind of commitments with the capability at hand.
pub proof fn private_challenges_take_a_capability<C>(version: Option<i32>, capability: Option<C>)
    ensures
        granted(version, capability) is Ok <==> version is None || (version == Some(2i32)
            && capability is Some),
        version is None ==> granted(version, capability) == Ok::<
            TerminalMutationAuthorization<C>,
            ApiError,
        >(TerminalMutationAuthorization::Legacy),
        version == Some(2i32) && capability is Some ==> granted(version, capability) == Ok::<
            TerminalMutationAuthorization<C>,
            ApiError,
        >(TerminalMutationAuthorization::V2(capability->0)),
{
}

/// The candidates are the entries for the weights in question that were not issued yet, each
/// once and in the order of the catalogue.
pub proof fn candidates_were_never_issued(
    entries: Seq<PrivateEvaluationCatalogEntry>,
    ordinals: Seq<i64>,
    weights: Seq<char>,
    end: int,
)
    requires
        0 <= end <= entries.len() <= usize::MAX,
    ensures
        forall|index: usize|
            #[trigger] candidates(entries, ordinals, weights, end).contains(index) <==> index < end
                && entries[index as int].model_weights_sha256@ == weights && forall|i: int|
                0 <= i < ordinals.len() ==> #[trigger] ordinals[i] != index + 1,
        forall|i: int, j: int|
            0 <= i < j < candidates(entries, ordinals, weights, end).len() ==> #[trigger] candidates(
                entries,
                ordinals,
                weights,
                end,
            )[i] < #[trigger] candidates(entries, ordinals, weights, end)[j],
    decreases end,
{
    let found = candidates(entries, ordinals, weights, end);
    assert forall|index: usize| #[trigger] found.contains(index) <==> index < end
        && entries[index as int].model_weights_sha256@ == weights && forall|i: int|
        0 <= i < ordinals.len() ==> #[trigger] ordinals[i] != index + 1 by {
        candidates_are_the_free_entries(entries, ordinals, weights, end, index);
    }
    if end > 0 {
        candidates_were_never_issued(entries, ordinals, weights, end - 1);
        let before = candidates(entries, ordinals, weights, end - 1);
        assert forall|i: int, j: int| 0 <= i < j < found.len() implies #[trigger] found[i]
            < #[trigger] found[j] by {
            if j < before.len() {
                assert(found[i] == before[i] && found[j] == before[j]);
            } else {
                assert(before[i] == found[i]);
                assert(before.contains(before[i]));
            }
        }
    }
}

/// What is left of a catalogue is what was not issued: where all entries are for the same
/// weights, as many as there are candidates.
pub proof fn remaining_entries_are_the_free_ones(
    entries: Seq<PrivateEvaluationCatalogEntry>,
    ordinals: Seq<i64>,
    weights: Seq<char>,
    end: int,
)
    requires
        0 <= end <= entries.len() <= usize::MAX,
        forall|i: int|
            0 <= i < entries.len() ==> (#[trigger] entries[i]).model_weights_sha256@ == weights,
    ensures
        remaining(ordinals, end) == candidates(entries, ordinals, weights, end).len(),
        ordinals.len() == 0 ==> remaining(ordinals, end) == end,
    decreases end,
{
    if end > 0 {
        remaining_entries_are_the_free_ones(entries, ordinals, weights, end - 1);
        assert(entries[end - 1].model_weights_sha256@ == weights);
    }
}

/// What was issued counts from one, up to the number of entries.
pub proof fn ordinals_count_from_one(ordinals: Seq<i64>, entries: int)
    ensures
        ordinals_valid(ordinals, entries) <==> forall|i: int|
            0 <= i < ordinals.len() ==> 0 < #[trigger] ordinals[i] && ordinals[i] < entries + 1,
{
}

/// A draw decides with which candidate to begin; the others follow in their order.
pub proof fn rotation_begins_at_the_draw(values: Seq<usize>, draw: int, i: int)
    requires
        0 <= draw,
        0 <= i < values.len(),
    ensures
        rotated(values, draw)[i] == values[(draw + i) % (values.len() as int)],
{
    let len = values.len() as int;
    let start = draw % len;
    vstd::arithmetic::div_mod::lemma_add_mod_noop(draw, i, len);
    vstd::arithmetic::div_mod::lemma_small_mod(i as nat, len as nat);
    assert((draw + i) % len == (start + i) % len);
    if i < len - start {
        vstd::arithmetic::div_mod::lemma_small_mod((start + i) as nat, len as nat);
    } else {
        vstd::arithmetic::div_mod::lemma_mod_add_multiples_vanish(start + i - len, len);
        vstd::arithmetic::div_mod::lemma_small_mod((start + i - len) as nat, len as nat);
        assert((len + (start + i - len)) == start + i);
    }
}

/// A private challenge is allowed exactly if each of the four counts of the hour is below its
/// limit, the identity is not in its pause, and the reserve is not touched, unless neither the
/// account, the device nor the node was asked before.
pub proof fn budgets_allow_up_to_their_limits(
    budget: PrivateEvaluationBudgetConfig,
    counts: PrivateBudgetCounts,
)
    requires
        counts.catalog_hourly >= 0,
        counts.account_hourly >= 0,
        counts.device_hourly >= 0,
        counts.node_hourly >= 0,
    ensures
        counts.valid(),
        budget_allows(budget, counts.snapshot()) <==> {
            &&& counts.catalog_hourly < budget.catalog_hourly_limit
            &&& counts.account_hourly < budget.account_hourly_limit
            &&& counts.device_hourly < budget.device_hourly_limit
            &&& counts.node_hourly < budget.node_hourly_limit
            &&& !counts.identity_in_cooldown
            &&& budget.global_reserve_entries == 0 || counts.remaining_catalog_entries
                > budget.global_reserve_entries || (!counts.account_seen_in_catalog
                && !counts.device_seen_in_catalog && !counts.node_seen_in_catalog)
        },
{
}

/// Counts below zero are none.
pub proof fn counts_are_not_below_zero(counts: PrivateBudgetCounts)
    requires
        counts.valid(),
    ensures
        counts.catalog_hourly >= 0 && counts.account_hourly >= 0 && counts.device_hourly >= 0
            && counts.node_hourly >= 0,
{
}

/// Benchmarks come with both the place in the catalogue and the commitments, and canaries with
/// neither.
pub proof fn origins_fit_their_kind(metadata: bool, commitments: bool)
    ensures
        origin_fits(PrivateEvaluationKind::HiddenBenchmark, metadata, commitments) <==> metadata
            && commitments,
        origin_fits(PrivateEvaluationKind::Canary, metadata, commitments) <==> !metadata
            && !commitments,
{
}

/// The lease of a new challenge lasts as long as leases do, but never longer than the catalogue
/// that the challenge is from.
pub proof fn leases_end_with_the_catalogue(
    facts: IssueFacts,
    metadata: Option<PrivateChallengeMetadata>,
)
    requires
        clock::is_moment(facts.issued_at),
        facts.issued_at + facts.lease_seconds * 1_000_000_000 <= clock::MAX_MOMENT,
    ensures
        issued_lease_end(facts, metadata) matches Ok(end) && {
            &&& end <= facts.issued_at + facts.lease_seconds * 1_000_000_000
            &&& metadata matches Some(metadata) ==> end <= metadata.catalog_valid_until
            &&& end == facts.issued_at + facts.lease_seconds * 1_000_000_000 || (
            metadata matches Some(metadata) && end == metadata.catalog_valid_until)
        },
{
}

/// What is stored of a new challenge: its payload, the hashes of its seed and of its secret,
/// and, for a public one alone, those of its prompt and of its answer.
pub proof fn issued_challenges_hide_their_secrets(
    issued: IssuedChallenge,
    facts: IssueFacts,
    generated: GeneratedChallenge,
    seed: Seq<u8>,
    lease_secret: Seq<u8>,
    payload_json: Seq<u8>,
    metadata: Option<PrivateChallengeMetadata>,
    commitments: Option<PrivateV2Commitments>,
)
    requires
        issued_as(
            issued,
            facts,
            generated,
            seed,
            lease_secret,
            payload_json,
            metadata,
            commitments,
        ),
    ensures
        issued.encrypted_payload@ == crypto::base64_text(payload_json),
        issued.lease_token_hash@ == text::lower_hex(crypto::sha256(lease_secret)),
        issued.challenge_nonce_hash@ == text::lower_hex(crypto::sha256(seed)),
        commitments is Some ==> issued.prompt_hash is None && issued.expected_hash is None,
        commitments is None ==> (issued.prompt_hash matches Some(prompt_hash) && prompt_hash@
            == text::lower_hex(crypto::sha256(vstd::utf8::encode_utf8(generated.prompt@)))),
        commitments is None ==> (issued.expected_hash matches Some(expected_hash)
            && expected_hash@ == generated.expected_behavior_sha256@),
{
}

/// A challenge is claimed as any Standard job is, with what it was issued for.
pub proof fn challenges_look_like_jobs(
    claim: ClaimJobResponse,
    facts: IssueFacts,
    issued: IssuedChallenge,
)
    requires
        is_claim_of(claim, facts, issued),
    ensures
        claim.job_id == facts.challenge_id,
        claim.model_instance_id == facts.model_instance_id,
        claim.model@ == facts.model_name@,
        claim.model_weights_hash@ == facts.model_weights_hash@,
        claim.encrypted_payload@ == issued.encrypted_payload@,
        claim.payload_encoding == PayloadEncoding::Base64,
        claim.confidentiality == ConfidentialityMode::Standard,
        claim.tags@.len() == 0,
        claim.estimated_input_tokens == facts.minimum_input_tokens,
        claim.max_output_tokens == facts.maximum_output_tokens,
        claim.attempt == 1,
        claim.lease_expires_at == issued.lease_expires_at,
        claim.policy_check_required_before_execution,
        claim.regulated_route_id is None && claim.attestation_report_id is None
            && claim.attestation_provider is None && claim.tee_public_key is None,
{
}

/// A lease belongs to one device of one node of one account.
pub proof fn leases_belong_to_one_device(worker: Worker, row: LeaseRow)
    ensures
        owns(worker, row) <==> row.user_id == worker.user_id && row.node_id == worker.node_id
            && row.node_device_key_id == Some(worker.device_key_id) && worker.claim_device_bound,
{
}

/// A lease that is still held runs out at its end, not before.
pub proof fn leases_run_out_at_their_end(status: Seq<char>, lease_expires_at: i128, now: i128)
    ensures
        expired(status, lease_expires_at, now) <==> status == "leased"@ && !(now
            < lease_expires_at),
{
}

/// A submission is a repetition exactly if its kind, its key and its content are those of the
/// one that was taken.
pub proof fn submissions_are_repeated_exactly(
    row: LeaseRow,
    kind: SubmissionKind,
    idempotency_key: Seq<char>,
    request_hash: Seq<char>,
)
    ensures
        is_repeated(row, kind, idempotency_key, request_hash) <==> {
            &&& row.worker_submission_kind matches Some(taken) && taken@ == (if kind
                == SubmissionKind::Result {
                "result"@
            } else {
                "fail"@
            })
            &&& row.worker_idempotency_key matches Some(key) && key@ == idempotency_key
            &&& row.worker_request_hash matches Some(hash) && hash@ == request_hash
        },
{
}

/// What the holder of a lease hands in is judged exactly if nothing was handed in before, the
/// challenge is leased and the lease lives; once the lease is over the challenge fails, and
/// what was handed in is answered again.
pub proof fn live_submissions_are_judged(
    row: LeaseRow,
    worker: Worker,
    kind: SubmissionKind,
    idempotency_key: Seq<char>,
    request_hash: Seq<char>,
    now: i128,
)
    requires
        worker.user_id == row.user_id,
        worker.node_id == row.node_id,
        row.node_device_key_id == Some(worker.device_key_id),
        worker.claim_device_bound,
    ensures
        row.worker_submission_kind is None && row.status@ == "leased"@ ==> hidden_submission(
            row,
            worker,
            kind,
            idempotency_key,
            request_hash,
            now,
        ) == Ok::<HiddenSubmissionStep, ApiError>(
            if now < row.lease_expires_at {
                HiddenSubmissionStep::Judge
            } else {
                HiddenSubmissionStep::Expire
            },
        ),
        row.worker_submission_kind is None && (row.status@ == "failed"@ || row.status@
            == "expired"@) ==> hidden_submission(
            row,
            worker,
            kind,
            idempotency_key,
            request_hash,
            now,
        ) == Ok::<HiddenSubmissionStep, ApiError>(HiddenSubmissionStep::Ended),
        row.worker_submission_kind is None && row.status@ != "leased"@ && row.status@
            != "failed"@ && row.status@ != "expired"@ ==> hidden_submission(
            row,
            worker,
            kind,
            idempotency_key,
            request_hash,
            now,
        ) is Err,
        row.worker_submission_kind is Some ==> (hidden_submission(
            row,
            worker,
            kind,
            idempotency_key,
            request_hash,
            now,
        ) == Ok::<HiddenSubmissionStep, ApiError>(HiddenSubmissionStep::Replay) <==> {
            &&& row.worker_submission_kind->0@ == (if kind == SubmissionKind::Result {
                "result"@
            } else {
                "fail"@
            })
            &&& row.worker_idempotency_key matches Some(key) && key@ == idempotency_key
            &&& row.worker_request_hash matches Some(hash) && hash@ == request_hash
            &&& kind == SubmissionKind::Result ==> row.status@ == "succeeded"@ || row.status@
                == "failed"@
        }),
        row.worker_submission_kind is Some ==> (hidden_submission(
            row,
            worker,
            kind,
            idempotency_key,
            request_hash,
            now,
        ) matches Ok(step) ==> step == HiddenSubmissionStep::Replay),
{
    reveal_strlit("leased");
    reveal_strlit("failed");
    reveal_strlit("expired");
    assert("leased"@[0] == 'l' && "failed"@[0] == 'f' && "expired"@[0] == 'e');
}

/// Whoever does not hold the lease hands in nothing and renews nothing.
pub proof fn strangers_are_turned_away(
    row: LeaseRow,
    worker: Worker,
    kind: SubmissionKind,
    idempotency_key: Seq<char>,
    request_hash: Seq<char>,
    now: i128,
    lease_seconds: int,
)
    requires
        worker.user_id != row.user_id || worker.node_id != row.node_id || row.node_device_key_id
            != Some(worker.device_key_id) || !worker.claim_device_bound,
    ensures
        hidden_submission(row, worker, kind, idempotency_key, request_hash, now) == Err::<
            HiddenSubmissionStep,
            ApiError,
        >(ApiError::Forbidden { message: "任务租约不属于当前节点" }),
        hidden_renewal(row, worker, now, lease_seconds) is Err,
{
}

/// The holder of a live lease gets it renewed, for as long as a lease lasts but not beyond the
/// catalogue; a lease that ran out is not renewed.
pub proof fn live_leases_are_renewed(row: LeaseRow, worker: Worker, now: i128, lease_seconds: int)
    requires
        worker.user_id == row.user_id,
        worker.node_id == row.node_id,
        row.node_device_key_id == Some(worker.device_key_id),
        worker.claim_device_bound,
        clock::is_moment(now),
        0 <= lease_seconds <= i64::MAX,
        now + lease_seconds * 1_000_000_000 <= clock::MAX_MOMENT,
    ensures
        row.status@ != "leased"@ ==> hidden_renewal(row, worker, now, lease_seconds) is Err,
        row.status@ == "leased"@ && (row.lease_expires_at <= now || (
        row.private_catalog_valid_until matches Some(valid_until) && valid_until <= now))
            ==> hidden_renewal(row, worker, now, lease_seconds) == Ok::<HiddenRenewal, ApiError>(
            HiddenRenewal::Expired,
        ),
        row.status@ == "leased"@ && now < row.lease_expires_at && (
        row.private_catalog_valid_until matches Some(valid_until) ==> now < valid_until) ==> (
        hidden_renewal(row, worker, now, lease_seconds) matches Ok(
            HiddenRenewal::Renewed { lease_expires_at },
        ) && {
            &&& lease_expires_at <= now + lease_seconds * 1_000_000_000
            &&& row.private_catalog_valid_until matches Some(valid_until) ==> lease_expires_at
                <= valid_until
            &&& lease_expires_at == now + lease_seconds * 1_000_000_000
                || row.private_catalog_valid_until == Some(lease_expires_at)
        }),
{
}

/// A node sees its answer as taken and its failure as one, and a lease that ran out as a
/// failure; whatever else it sees is the state itself.
pub proof fn shown_states_are_those_of_jobs(status: Seq<char>, submission_kind: Option<String>)
    ensures
        submission_kind matches Some(kind) ==> (kind@ == "result"@ ==> shown_status(
            status,
            submission_kind,
        ) == "succeeded"@) && (kind@ == "fail"@ ==> shown_status(status, submission_kind)
            == "failed"@),
        submission_kind is None ==> shown_status(status, submission_kind) == if status
            == "expired"@ {
            "failed"@
        } else {
            status
        },
{
    reveal_strlit("result");
    reveal_strlit("fail");
    assert("result"@[0] == 'r' && "fail"@[0] == 'f');
}

/// An answer counts exactly if it comes from the model that was asked, has a choice with some
/// text first, and a usage that adds up to what was reported, is not all zero and stays within
/// what was authorised.
pub proof fn answers_stay_within_what_was_authorised(
    model: Seq<char>,
    minimum_input_tokens: i32,
    maximum_output_tokens: i32,
    response: Option<ChatCompletionsResponse>,
    input: i32,
    output: i32,
)
    ensures
        answered_refusal(
            model,
            minimum_input_tokens,
            maximum_output_tokens,
            response,
            input as int,
            output as int,
        ) is None <==> (response matches Some(answer) && {
            &&& answer.choices@.len() > 0
            &&& answer.model@ == model
            &&& answer.choices@[0].content matches MessageContent::Text(said) && exists|i: int|
                0 <= i < said@.len() && !text::is_whitespace(#[trigger] said@[i])
            &&& answer.usage.prompt_tokens == input
            &&& answer.usage.completion_tokens == output
            &&& answer.usage.total_tokens == answer.usage.prompt_tokens
                + answer.usage.completion_tokens
            &&& input != 0 || output != 0
            &&& input <= minimum_input_tokens
            &&& output <= maximum_output_tokens
        }),
{
    if let Some(answer) = response {
        if answer.choices@.len() > 0 {
            if let MessageContent::Text(said) = answer.choices@[0].content {
                text::trimming_keeps_what_is_written(said@);
            }
        }
    }
}

/// An answer is judged exactly if the challenge is genuine, is bound to what runs it, and says
/// what it authorised, and if the answer counts.
pub proof fn answers_to_genuine_challenges_are_judged(
    row: ChallengeRow,
    kind: PrivateEvaluationKind,
    seed: Seq<u8>,
    limits: Option<StandardLimits>,
    response: Option<ChatCompletionsResponse>,
    input: int,
    output: int,
)
    ensures
        answer_refusal(row, kind, seed, limits, response, input, output) is None <==> {
            &&& definitions::origin_holds(row, kind, seed)
            &&& definitions::execution_binding_refusal(row, seed) is None
            &&& definitions::authorized(row, limits) matches Some(allowed) && answered_refusal(
                allowed.0,
                allowed.1,
                allowed.2,
                response,
                input,
                output,
            ) is None
        },
{
}

/// An answer to a public challenge passes exactly if its hash is the one that was stored; of a
/// private one the comparison of its commitments decides, and only for who holds the
/// capability.
pub proof fn answers_pass_by_their_hash<C>(
    row: ChallengeRow,
    answer: Seq<char>,
    authorization: TerminalMutationAuthorization<C>,
    private_match: Option<bool>,
)
    ensures
        row.private.commitment_version is None ==> (answer_matches(
            row,
            answer,
            authorization,
            private_match,
        ) == Some(true) <==> (row.expected_hash matches Some(expected) && expected@
            == billing::sha256_text(answer))),
        row.private.commitment_version is None && row.expected_hash is None ==> answer_matches(
            row,
            answer,
            authorization,
            private_match,
        ) is None,
        row.private.commitment_version == Some(2i32) && authorization is V2
            && row.private.expected_commitment is Some ==> answer_matches(
            row,
            answer,
            authorization,
            private_match,
        ) == private_match,
        row.private.commitment_version is Some && (row.private.commitment_version != Some(2i32)
            || authorization is Legacy) ==> answer_matches(
            row,
            answer,
            authorization,
            private_match,
        ) is None,
{
}

/// An answer that passes is worth the full score and succeeds; any other is worth nothing and
/// fails.
pub proof fn judgements_are_all_or_nothing(
    judgement: Judgement,
    passed: bool,
    job_id: Uuid,
    seed: Seq<u8>,
    request_hash: Seq<char>,
)
    requires
        is_judgement(judgement, passed, job_id, seed, request_hash),
    ensures
        passed ==> judgement.score_normalized == 1_000_000 && judgement.status@ == "succeeded"@
            && judgement.reason_code@ == "answer_match"@,
        !passed ==> judgement.score_normalized == 0 && judgement.status@ == "failed"@
            && judgement.reason_code@ == "answer_mismatch"@,
{
}

/// A failure is worth nothing, and says why it is one.
pub proof fn failures_are_worth_nothing(
    judgement: Judgement,
    reason: Seq<char>,
    job_id: Uuid,
    seed: Seq<u8>,
    committed: Seq<char>,
)
    requires
        is_failure(judgement, reason, job_id, seed, committed),
    ensures
        judgement.score_normalized == 0,
        judgement.status@ == "failed"@,
        judgement.reason_code@ == reason,
{
}

/// The candidates are tried one after the other, each after the budget was asked about it; the
/// next comes only where another was first, and the canary where none is left or the budget is
/// spent.
pub proof fn candidates_are_tried_in_turn(candidates: int, candidate: int)
    requires
        0 <= candidate < candidates <= usize::MAX,
    ensures
        claim_step(candidates, candidate, HiddenClaimEvent::Gathered) == (
        HiddenClaimStep::AskBudget { candidate: 0 }),
        claim_step(candidates, candidate, HiddenClaimEvent::Budget { allowed: true }) == (
        HiddenClaimStep::IssuePrivate { candidate: candidate as usize }),
        claim_step(candidates, candidate, HiddenClaimEvent::Budget { allowed: false })
            == HiddenClaimStep::IssueCanary,
        claim_step(candidates, candidate, HiddenClaimEvent::Issued { stored: true })
            == HiddenClaimStep::Done,
        claim_step(candidates, candidate, HiddenClaimEvent::Issued { stored: false })
            == if candidate + 1 < candidates {
            HiddenClaimStep::AskBudget { candidate: (candidate + 1) as usize }
        } else {
            HiddenClaimStep::IssueCanary
        },
        claim_step(0, 0, HiddenClaimEvent::Gathered) == HiddenClaimStep::IssueCanary,
        claim_step(candidates, candidates, HiddenClaimEvent::Budget { allowed: true })
            == HiddenClaimStep::IssueCanary,
{
}

/// A seed is usable exactly if it is stored and has 32 bytes.
pub proof fn seeds_have_their_length(stored_seed: Option<Vec<u8>>)
    ensures
        stored_seed is None ==> !has_seed(stored_seed),
        stored_seed matches Some(seed) ==> (has_seed(stored_seed) <==> seed@.len() == 32),
{
}

/// An answer is refused for what is wrong with it first: that it is none, that another model gave
/// it, that it says nothing, or what it used.
pub proof fn answers_are_refused_for_a_reason(
    model: Seq<char>,
    minimum_input_tokens: i32,
    maximum_output_tokens: i32,
    response: Option<ChatCompletionsResponse>,
    input: int,
    output: int,
)
    ensures
        ({
            let refusal = answered_refusal(
                model,
                minimum_input_tokens,
                maximum_output_tokens,
                response,
                input,
                output,
            );
            &&& response is None ==> (refusal matches Some(ApiError::BadRequest { code, .. })
                && code == "invalid_job_result")
            &&& response matches Some(answer) ==> {
                &&& answer.choices@.len() == 0 ==> (refusal matches Some(
                    ApiError::BadRequest { code, .. },
                ) && code == "invalid_job_result")
                &&& answer.choices@.len() > 0 && answer.model@ != model ==> (refusal matches Some(
                    ApiError::BadRequest { code, .. },
                ) && code == "model_binding_mismatch")
            }
        }),
{
}

/// A submission that is not taken is refused for who hands it in, for a key that stands for another
/// one, or for a challenge that takes none.
pub proof fn submissions_are_refused_for_a_reason(
    row: LeaseRow,
    worker: Worker,
    kind: SubmissionKind,
    idempotency_key: Seq<char>,
    request_hash: Seq<char>,
    now: i128,
)
    requires
        owns(worker, row),
    ensures
        row.worker_submission_kind is Some && !is_repeated(
            row,
            kind,
            idempotency_key,
            request_hash,
        ) ==> (hidden_submission(row, worker, kind, idempotency_key, request_hash, now)
            matches Err(ApiError::Conflict { code, .. }) && code == "idempotency_binding_mismatch"),
        row.worker_submission_kind is None && row.status@ != "leased"@ && row.status@ != "failed"@
            && row.status@ != "expired"@ ==> (hidden_submission(
            row,
            worker,
            kind,
            idempotency_key,
            request_hash,
            now,
        ) matches Err(ApiError::Conflict { code, .. }) && code == "job_not_leased"),
{
}

} // verus!
