//! What follows from the answers to challenges: an instance of a model that fails
//! again and again is put into quarantine, and results of different instances with the
//! same weights are compared.

use vstd::prelude::*;

use crate::bindings;
use crate::bindings::{
    private_arbitration_scope_key, PRIVATE_COMMITMENT_VERSION,
};
use crate::definitions::{
    private_metadata_from_row, private_v2_commitments_from_row, ChallengeRow,
};
use crate::error::ApiError;
use crate::evaluations;
use crate::evaluations::TerminalMutationAuthorization;
use crate::text;

verus! {

/// After this many failures in a row an instance gets no more work.
pub const QUARANTINE_FAILURE_THRESHOLD: i32 = 3;

/// After this many passes in a row an instance in quarantine gets work again.
pub const RECOVERY_PASS_THRESHOLD: i32 = 2;

/// Counters do not go beyond this.
pub const COUNTER_LIMIT: i32 = 1_000_000;

/// What is known of an instance of a model.
#[derive(Clone, Copy, Debug, PartialEq, Eq, Structural)]
pub struct CanaryState {
    pub consecutive_failures: i32,
    pub recovery_passes: i32,
    pub quarantined: bool,
}

impl CanaryState {
    /// The counters are where the thresholds let them be.
    pub open spec fn valid(self) -> bool {
        &&& 0 <= self.consecutive_failures <= COUNTER_LIMIT
        &&& if self.quarantined {
            0 <= self.recovery_passes < RECOVERY_PASS_THRESHOLD
        } else {
            self.recovery_passes == 0 && self.consecutive_failures < QUARANTINE_FAILURE_THRESHOLD
        }
    }

    /// The state of an instance that was never asked anything.
    pub fn new() -> (state: CanaryState)
        ensures
            state.valid(),
            !state.quarantined,
            state.consecutive_failures == 0,
    {
        CanaryState { consecutive_failures: 0, recovery_passes: 0, quarantined: false }
    }
}

/// One more, as far as the counter goes.
pub open spec fn counted(counter: int) -> int {
    if counter + 1 > COUNTER_LIMIT {
        COUNTER_LIMIT as int
    } else {
        counter + 1
    }
}

fn count(counter: i32) -> (next: i32)
    ensures
        next == counted(counter as int),
{
    if counter >= COUNTER_LIMIT {
        COUNTER_LIMIT
    } else {
        counter + 1
    }
}

/// The passes in a row that an instance in quarantine has after a signal.
pub open spec fn observed_passes(state: CanaryState, passed: bool) -> int {
    if passed && state.quarantined {
        counted(state.recovery_passes as int)
    } else {
        0
    }
}

/// The state of an instance after a signal.
pub open spec fn after_signal(state: CanaryState, passed: bool) -> CanaryState {
    let observed = observed_passes(state, passed);
    let failures = if passed {
        0
    } else {
        counted(state.consecutive_failures as int)
    };
    let quarantined = if passed {
        state.quarantined && observed < RECOVERY_PASS_THRESHOLD
    } else {
        state.quarantined || failures >= QUARANTINE_FAILURE_THRESHOLD
    };
    CanaryState {
        consecutive_failures: failures as i32,
        recovery_passes: if quarantined {
            observed as i32
        } else {
            0
        },
        quarantined,
    }
}

/// What is recorded of a signal, or of a change that it brought.
#[derive(Clone, Copy, Debug, PartialEq, Eq)]
pub struct CanaryRiskEvent {
    pub event_kind: &'static str,
    pub consecutive_failures: i32,
    pub recovery_passes: i32,
    pub quarantined: bool,
}

/// The event of the signal itself.
pub open spec fn is_signal_event(event: CanaryRiskEvent, state: CanaryState, passed: bool) -> bool {
    &&& event.event_kind@ == if passed { "signal_passed"@ } else { "signal_failed"@ }
    &&& event.consecutive_failures == after_signal(state, passed).consecutive_failures
    &&& event.recovery_passes == observed_passes(state, passed)
    &&& event.quarantined == after_signal(state, passed).quarantined
}

/// The event of the change, if the instance goes into quarantine or leaves it.
pub open spec fn is_change_event(
    event: Option<CanaryRiskEvent>,
    state: CanaryState,
    passed: bool,
) -> bool {
    let next = after_signal(state, passed);
    match event {
        None => state.quarantined == next.quarantined,
        Some(event) => {
            &&& state.quarantined != next.quarantined
            &&& event.quarantined == next.quarantined
            &&& if next.quarantined {
                &&& event.event_kind@ == "quarantined"@
                &&& event.consecutive_failures == next.consecutive_failures
                &&& event.recovery_passes == 0
            } else {
                &&& event.event_kind@ == "recovered"@
                &&& event.consecutive_failures == 0
                &&& event.recovery_passes == observed_passes(state, passed)
            }
        },
    }
}

/// A signal with what follows from it.
pub struct CanaryOutcome {
    pub state: CanaryState,
    pub signal: CanaryRiskEvent,
    pub change: Option<CanaryRiskEvent>,
}

/// Takes the outcome of a challenge into account for the instance that it was asked
/// of, and for no other.
pub fn record_instance_canary_signal(state: CanaryState, passed: bool) -> (outcome: CanaryOutcome)
    ensures
        outcome.state == after_signal(state, passed),
        is_signal_event(outcome.signal, state, passed),
        is_change_event(outcome.change, state, passed),
        state.valid() ==> outcome.state.valid(),
{
    let (failures, observed, quarantined) = if passed {
        let recovery_passes: i32 = if state.quarantined {
            count(state.recovery_passes)
        } else {
            0
        };
        (0i32, recovery_passes, state.quarantined && recovery_passes < RECOVERY_PASS_THRESHOLD)
    } else {
        let failures: i32 = count(state.consecutive_failures);
        (failures, 0i32, state.quarantined || failures >= QUARANTINE_FAILURE_THRESHOLD)
    };
    let next = CanaryState {
        consecutive_failures: failures,
        recovery_passes: if quarantined {
            observed
        } else {
            0
        },
        quarantined,
    };
    let signal = CanaryRiskEvent {
        event_kind: if passed {
            "signal_passed"
        } else {
            "signal_failed"
        },
        consecutive_failures: failures,
        recovery_passes: observed,
        quarantined,
    };
    let change = if !state.quarantined && quarantined {
        Some(
            CanaryRiskEvent {
                event_kind: "quarantined",
                consecutive_failures: failures,
                recovery_passes: 0,
                quarantined: true,
            },
        )
    } else if state.quarantined && !quarantined {
        Some(
            CanaryRiskEvent {
                event_kind: "recovered",
                consecutive_failures: 0,
                recovery_passes: observed,
                quarantined: false,
            },
        )
    } else {
        None
    };
    CanaryOutcome { state: next, signal, change }
}

/// The state of an instance after signals, one after the other.
pub open spec fn after_signals(state: CanaryState, signals: Seq<bool>) -> CanaryState
    decreases signals.len(),
{
    if signals.len() == 0 {
        state
    } else {
        after_signal(after_signals(state, signals.drop_last()), signals.last())
    }
}

/// Whatever the signals, the counters stay where the thresholds let them be.
pub proof fn signals_keep_states_valid(state: CanaryState, signals: Seq<bool>)
    requires
        state.valid(),
    ensures
        after_signals(state, signals).valid(),
    decreases signals.len(),
{
    if signals.len() > 0 {
        signals_keep_states_valid(state, signals.drop_last());
    }
}

/// Three failures in a row put an instance into quarantine, whatever came before.
pub proof fn failures_lead_to_quarantine(state: CanaryState, signals: Seq<bool>)
    requires
        state.valid(),
        signals.len() >= 3,
        !signals[signals.len() - 1],
        !signals[signals.len() - 2],
        !signals[signals.len() - 3],
    ensures
        after_signals(state, signals).quarantined,
{
    let one = signals.drop_last();
    let two = one.drop_last();
    let three = two.drop_last();
    signals_keep_states_valid(state, three);
    assert(one.last() == signals[signals.len() - 2]);
    assert(two.last() == signals[signals.len() - 3]);
    let first = after_signal(after_signals(state, three), false);
    let second = after_signal(first, false);
    assert(after_signals(state, two) == first);
    assert(after_signals(state, one) == second);
    assert(after_signals(state, signals) == after_signal(second, false));
}

/// Two passes in a row end a quarantine, whatever came before.
pub proof fn passes_lead_out_of_quarantine(state: CanaryState, signals: Seq<bool>)
    requires
        state.valid(),
        signals.len() >= 2,
        signals[signals.len() - 1],
        signals[signals.len() - 2],
    ensures
        !after_signals(state, signals).quarantined,
{
    let one = signals.drop_last();
    let two = one.drop_last();
    signals_keep_states_valid(state, two);
    assert(one.last() == signals[signals.len() - 2]);
    let first = after_signal(after_signals(state, two), true);
    assert(after_signals(state, one) == first);
    assert(after_signals(state, signals) == after_signal(first, true));
}

/// A quarantine is never entered on a pass, nor without failures in a row, and never
/// left on a failure: a failure undoes every pass that went before it.
pub proof fn quarantine_changes_slowly(state: CanaryState, passed: bool)
    requires
        state.valid(),
    ensures
        after_signal(state, passed).quarantined && !state.quarantined ==> !passed
            && state.consecutive_failures == QUARANTINE_FAILURE_THRESHOLD - 1,
        state.quarantined && !after_signal(state, passed).quarantined ==> passed
            && state.recovery_passes == RECOVERY_PASS_THRESHOLD - 1,
        !passed ==> after_signal(state, passed).recovery_passes == 0,
        passed ==> after_signal(state, passed).consecutive_failures == 0,
{
}

/// Within which results of a challenge are compared.
pub struct ArbitrationScope {
    pub version: i32,
    pub model_weights_hash: String,
    pub evaluator: String,
    pub case_family: String,
    pub key: String,
}

/// The version, the evaluator and the family of cases of a private challenge.
pub open spec fn arbitration_parts(row: ChallengeRow) -> (i32, Seq<char>, Seq<char>) {
    if row.private.is_committed() {
        (
            PRIVATE_COMMITMENT_VERSION,
            row.private.evaluator_key_commitment->0@,
            row.private.case_family_commitment->0@,
        )
    } else {
        (1i32, row.private.evaluator_key_fingerprint->0@, row.private.case_family->0@)
    }
}

/// The key of the scope in which the result of a private challenge is compared.
pub open spec fn arbitration_key(row: ChallengeRow) -> Seq<char> {
    let (version, evaluator, case_family) = arbitration_parts(row);
    bindings::digest_text(
        bindings::scope_preimage(version, row.model_weights_hash->0@, evaluator, case_family),
    )
}

/// The challenge is private, all of it is stored, and there is the right to end it.
pub open spec fn can_arbitrate<C>(
    row: ChallengeRow,
    authorization: TerminalMutationAuthorization<C>,
) -> bool {
    &&& row.private.complete()
    &&& evaluations::authorizes(authorization, row.private.commitment_version)
    &&& row.private.is_committed() || row.private.is_legacy()
    &&& row.challenge_kind@ == "hidden_benchmark"@
    &&& row.model_weights_hash is Some
    &&& row.challenge_binding_hash is Some
}

/// The scope in which the result of a challenge is compared; `None` for a challenge of
/// the public templates, whose results are not.
pub fn arbitration_scope<C>(row: &ChallengeRow, authorization: &TerminalMutationAuthorization<C>) -> (scope: Result<
    Option<ArbitrationScope>,
    ApiError,
>)
    ensures
        match scope {
            Ok(Some(scope)) => {
                let (version, evaluator, case_family) = arbitration_parts(*row);
                &&& can_arbitrate(*row, *authorization)
                &&& scope.version == version
                &&& scope.model_weights_hash@ == row.model_weights_hash->0@
                &&& scope.evaluator@ == evaluator
                &&& scope.case_family@ == case_family
                &&& scope.key@ == arbitration_key(*row)
            },
            Ok(None) => {
                &&& row.private.commitment_version is None
                &&& row.private.catalog_commitment is None
                &&& authorization is Legacy
            },
            Err(refused) => {
                &&& refused == ApiError::internal()
                &&& !can_arbitrate(*row, *authorization)
                &&& !(row.private.commitment_version is None && row.private.catalog_commitment
                    is None && authorization is Legacy)
            },
        },
{
    let metadata = private_metadata_from_row(&row.private)?;
    let commitments = private_v2_commitments_from_row(&row.private)?;
    let (version, evaluator, case_family) = match (metadata, commitments) {
        (Some(metadata), None) => {
            if let TerminalMutationAuthorization::V2(_) = authorization {
                return Err(ApiError::internal());
            }
            proof {
                let texts = metadata.texts();
                assert(texts[2] == row.private.legacy_texts()[2]);
                assert(texts[5] == row.private.legacy_texts()[5]);
            }
            (1i32, metadata.evaluator_key_fingerprint, metadata.case_family)
        },
        (None, Some(commitments)) => {
            if let TerminalMutationAuthorization::Legacy = authorization {
                return Err(ApiError::internal());
            }
            proof {
                let texts = commitments.texts();
                assert(texts[3] == row.private.commitment_texts()[3]);
                assert(texts[5] == row.private.commitment_texts()[5]);
            }
            (PRIVATE_COMMITMENT_VERSION, commitments.evaluator_key, commitments.case_family)
        },
        (None, None) => {
            return match authorization {
                TerminalMutationAuthorization::Legacy => Ok(None),
                TerminalMutationAuthorization::V2(_) => Err(ApiError::internal()),
            };
        },
        (Some(_), Some(_)) => {
            return Err(ApiError::internal());
        },
    };
    if !text::same_text(row.challenge_kind.as_str(), "hidden_benchmark") {
        return Err(ApiError::internal());
    }
    let model_weights_hash = match &row.model_weights_hash {
        Some(hash) => hash.clone(),
        None => {
            return Err(ApiError::internal());
        },
    };
    if row.challenge_binding_hash.is_none() {
        return Err(ApiError::internal());
    }
    let key = private_arbitration_scope_key(
        version,
        model_weights_hash.as_str(),
        evaluator.as_str(),
        case_family.as_str(),
    );
    Ok(Some(ArbitrationScope { version, model_weights_hash, evaluator, case_family, key }))
}

/// What the results of different instances say together.
#[derive(Clone, Copy, Debug, PartialEq, Eq, Structural)]
pub enum ArbitrationVerdict {
    /// There is but one instance.
    Pending,
    /// All of them pass.
    Corroborated,
    /// Some of them fail.
    Disputed,
}

impl ArbitrationVerdict {
    pub open spec fn text(self) -> Seq<char> {
        match self {
            ArbitrationVerdict::Pending => "pending"@,
            ArbitrationVerdict::Corroborated => "corroborated"@,
            ArbitrationVerdict::Disputed => "disputed"@,
        }
    }

    pub fn name(self) -> (name: &'static str)
        ensures
            name@ == self.text(),
    {
        match self {
            ArbitrationVerdict::Pending => "pending",
            ArbitrationVerdict::Corroborated => "corroborated",
            ArbitrationVerdict::Disputed => "disputed",
        }
    }
}

pub open spec fn verdict(observed: int, passing: int, failing: int) -> ArbitrationVerdict {
    if observed < 2 {
        ArbitrationVerdict::Pending
    } else if failing == 0 && passing >= 2 {
        ArbitrationVerdict::Corroborated
    } else {
        ArbitrationVerdict::Disputed
    }
}

/// How many instances were compared, this one among them.
pub struct ArbitrationCounts {
    pub observed: i32,
    pub passing: i32,
    pub failing: i32,
    pub verdict: ArbitrationVerdict,
}

fn one_more(count: i64, counts: bool) -> (sum: Result<i32, ApiError>)
    ensures
        match sum {
            Ok(sum) => sum == count + if counts { 1int } else { 0 },
            Err(refused) => refused == ApiError::internal() && !(i32::MIN <= count + if counts {
                1int
            } else {
                0
            } <= i32::MAX),
        },
{
    let sum: i128 = count as i128 + if counts {
        1
    } else {
        0
    };
    if sum < i32::MIN as i128 || sum > i32::MAX as i128 {
        return Err(ApiError::internal());
    }
    Ok(sum as i32)
}

/// Adds the result of an instance to the latest results of all others in its scope.
pub fn arbitrate(
    previously_observed: i64,
    previously_passed: i64,
    previously_failed: i64,
    passed: bool,
) -> (counts: Result<ArbitrationCounts, ApiError>)
    ensures
        ({
            let observed = previously_observed + 1;
            let passing = previously_passed + if passed { 1int } else { 0 };
            let failing = previously_failed + if passed { 0int } else { 1 };
            match counts {
                Ok(counts) => {
                    &&& counts.observed == observed
                    &&& counts.passing == passing
                    &&& counts.failing == failing
                    &&& counts.verdict == verdict(observed, passing, failing)
                },
                Err(refused) => {
                    &&& refused == ApiError::internal()
                    &&& !(i32::MIN <= observed <= i32::MAX && i32::MIN <= passing <= i32::MAX
                        && i32::MIN <= failing <= i32::MAX)
                },
            }
        }),
{
    let observed: i32 = one_more(previously_observed, true)?;
    let passing: i32 = one_more(previously_passed, passed)?;
    let failing: i32 = one_more(previously_failed, !passed)?;
    let verdict = if observed < 2 {
        ArbitrationVerdict::Pending
    } else if failing == 0 && passing >= 2 {
        ArbitrationVerdict::Corroborated
    } else {
        ArbitrationVerdict::Disputed
    };
    Ok(ArbitrationCounts { observed, passing, failing, verdict })
}

/// No single instance vouches for itself, and no failure is outvoted: where every
/// instance either passed or failed, weights are corroborated exactly if two or more
/// instances passed and none failed.
pub proof fn corroboration_takes_two(observed: int, passing: int, failing: int)
    requires
        0 <= passing,
        0 <= failing,
        observed == passing + failing,
    ensures
        verdict(observed, passing, failing) is Corroborated <==> observed >= 2 && failing == 0,
        verdict(observed, passing, failing) is Pending <==> observed < 2,
        observed >= 2 && failing > 0 ==> verdict(observed, passing, failing) is Disputed,
{
}

/// The latest results of the other instances in a scope, counted.
#[derive(Clone, Copy, Debug, PartialEq, Eq, Structural)]
pub struct PreviousResults {
    pub observed: i64,
    pub passed: i64,
    pub failed: i64,
}

/// The counts once this instance is among them.
pub open spec fn counts_with(previous: PreviousResults, passed: bool) -> (int, int, int) {
    (
        previous.observed + 1,
        previous.passed + if passed { 1int } else { 0 },
        previous.failed + if passed { 0int } else { 1 },
    )
}

/// Counts fit into what the database holds.
pub open spec fn counts_fit(counts: (int, int, int)) -> bool {
    &&& i32::MIN <= counts.0 <= i32::MAX
    &&& i32::MIN <= counts.1 <= i32::MAX
    &&& i32::MIN <= counts.2 <= i32::MAX
}

/// Records the result of a private challenge, and what it says together with the
/// `previous` results in its scope. Nothing is recorded for a challenge of the public
/// templates.
pub fn record_private_authenticity_arbitration<C>(
    row: &ChallengeRow,
    authorization: &TerminalMutationAuthorization<C>,
    previous: PreviousResults,
    passed: bool,
) -> (recorded: Result<Option<(ArbitrationScope, ArbitrationCounts)>, ApiError>)
    ensures
        match recorded {
            Ok(Some((scope, counts))) => {
                let (observed, passing, failing) = counts_with(previous, passed);
                &&& can_arbitrate(*row, *authorization)
                &&& scope.version == arbitration_parts(*row).0
                &&& scope.evaluator@ == arbitration_parts(*row).1
                &&& scope.case_family@ == arbitration_parts(*row).2
                &&& scope.model_weights_hash@ == row.model_weights_hash->0@
                &&& scope.key@ == arbitration_key(*row)
                &&& counts.observed == observed
                &&& counts.passing == passing
                &&& counts.failing == failing
                &&& counts.verdict == verdict(observed, passing, failing)
            },
            Ok(None) => {
                &&& row.private.commitment_version is None
                &&& row.private.catalog_commitment is None
                &&& authorization is Legacy
            },
            Err(refused) => {
                &&& refused == ApiError::internal()
                &&& !can_arbitrate(*row, *authorization) || !counts_fit(
                    counts_with(previous, passed),
                )
                &&& !(row.private.commitment_version is None && row.private.catalog_commitment
                    is None && authorization is Legacy)
            },
        },
{
    match arbitration_scope(row, authorization)? {
        None => Ok(None),
        Some(scope) => {
            let counts = arbitrate(previous.observed, previous.passed, previous.failed, passed)?;
            Ok(Some((scope, counts)))
        },
    }
}

/// Each signal counts by one. Three failures in a row put an instance in quarantine, where a
/// failure undoes every pass; two passes in a row bring it out, and a pass undoes every failure.
pub proof fn signals_count_by_one(state: CanaryState, passed: bool)
    requires
        state.valid(),
    ensures
        !passed && state.consecutive_failures < 1_000_000 ==> after_signal(
            state,
            passed,
        ).consecutive_failures == state.consecutive_failures + 1,
        !passed && !state.quarantined ==> (after_signal(state, passed).quarantined
            <==> state.consecutive_failures + 1 == 3),
        !passed && state.quarantined ==> after_signal(state, passed).quarantined,
        passed && !state.quarantined ==> after_signal(state, passed) == (CanaryState {
            consecutive_failures: 0,
            recovery_passes: 0,
            quarantined: false,
        }),
        passed && state.quarantined && state.recovery_passes == 0 ==> after_signal(state, passed)
            == (CanaryState { consecutive_failures: 0, recovery_passes: 1, quarantined: true }),
        passed && state.quarantined && state.recovery_passes == 1 ==> after_signal(state, passed)
            == (CanaryState { consecutive_failures: 0, recovery_passes: 0, quarantined: false }),
        !passed ==> after_signal(state, passed).recovery_passes == 0,
{
}

/// A valid state is in quarantine, or has failed fewer than three times in a row.
pub proof fn valid_states_are_within_the_thresholds(state: CanaryState)
    ensures
        state.valid() <==> {
            &&& 0 <= state.consecutive_failures <= 1_000_000
            &&& state.quarantined ==> 0 <= state.recovery_passes <= 1
            &&& !state.quarantined ==> state.recovery_passes == 0 && state.consecutive_failures < 3
        },
{
}

/// A signal is recorded as what it was, with the counters as they then stand; and a change of
/// quarantine is recorded beside it, exactly where there is one.
pub proof fn signals_are_recorded(outcome: CanaryOutcome, state: CanaryState, passed: bool)
    requires
        state.valid(),
        outcome.state == after_signal(state, passed),
        is_signal_event(outcome.signal, state, passed),
        is_change_event(outcome.change, state, passed),
    ensures
        passed ==> outcome.signal.event_kind@ == "signal_passed"@,
        !passed ==> outcome.signal.event_kind@ == "signal_failed"@,
        outcome.signal.consecutive_failures == outcome.state.consecutive_failures,
        outcome.signal.quarantined == outcome.state.quarantined,
        passed && state.quarantined ==> outcome.signal.recovery_passes == state.recovery_passes
            + 1,
        !(passed && state.quarantined) ==> outcome.signal.recovery_passes == 0,
        outcome.change is Some <==> state.quarantined != outcome.state.quarantined,
        outcome.change matches Some(change) ==> {
            &&& change.quarantined == outcome.state.quarantined
            &&& outcome.state.quarantined ==> change.event_kind@ == "quarantined"@
                && change.consecutive_failures == 3 && change.recovery_passes == 0
            &&& !outcome.state.quarantined ==> change.event_kind@ == "recovered"@
                && change.consecutive_failures == 0 && change.recovery_passes == 2
        },
{
}

/// A private challenge is arbitrated within its evaluator and its family of cases, as it knows
/// them: by their commitments, or by their names.
pub proof fn challenges_are_arbitrated_among_their_like<C>(
    row: ChallengeRow,
    authorization: TerminalMutationAuthorization<C>,
)
    requires
        can_arbitrate(row, authorization),
    ensures
        row.challenge_kind@ == "hidden_benchmark"@,
        row.model_weights_hash is Some,
        row.challenge_binding_hash is Some,
        row.private.commitment_version == Some(2i32) || (row.private.commitment_version is None
            && row.private.catalog_commitment is Some),
        authorization is V2 <==> row.private.commitment_version is Some,
        row.private.commitment_version == Some(2i32) ==> {
            &&& arbitration_parts(row).0 == 2
            &&& row.private.evaluator_key_commitment matches Some(evaluator) && evaluator@
                == arbitration_parts(row).1
            &&& row.private.case_family_commitment matches Some(case_family) && case_family@
                == arbitration_parts(row).2
        },
        row.private.commitment_version is None ==> {
            &&& arbitration_parts(row).0 == 1
            &&& row.private.evaluator_key_fingerprint matches Some(evaluator) && evaluator@
                == arbitration_parts(row).1
            &&& row.private.case_family matches Some(case_family) && case_family@
                == arbitration_parts(row).2
        },
        arbitration_key(row) == bindings::digest_text(
            bindings::scope_preimage(
                arbitration_parts(row).0,
                row.model_weights_hash->0@,
                arbitration_parts(row).1,
                arbitration_parts(row).2,
            ),
        ),
{
}

/// A new result is one more observation, and one more pass or one more failure.
pub proof fn results_are_counted_once(previous: PreviousResults, passed: bool)
    ensures
        counts_with(previous, passed).0 == previous.observed + 1,
        passed ==> counts_with(previous, passed).1 == previous.passed + 1 && counts_with(
            previous,
            passed,
        ).2 == previous.failed,
        !passed ==> counts_with(previous, passed).1 == previous.passed && counts_with(
            previous,
            passed,
        ).2 == previous.failed + 1,
        counts_fit(counts_with(previous, passed)) <==> {
            &&& i32::MIN <= counts_with(previous, passed).0 <= i32::MAX
            &&& i32::MIN <= counts_with(previous, passed).1 <= i32::MAX
            &&& i32::MIN <= counts_with(previous, passed).2 <= i32::MAX
        },
{
}

/// The names of the three verdicts.
pub proof fn verdicts_have_their_names()
    ensures
        ArbitrationVerdict::Pending.text() == "pending"@,
        ArbitrationVerdict::Corroborated.text() == "corroborated"@,
        ArbitrationVerdict::Disputed.text() == "disputed"@,
{
}

} // verus!
