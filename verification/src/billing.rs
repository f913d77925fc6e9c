//! The billing contract that a job freezes when it is created: amounts come from
//! the authorised token limits and a published reference profile, never from what
//! a node reports.

use vstd::prelude::*;

use crate::arithmetic;
use crate::crypto;
use crate::error;
use crate::error::ApiError;
use crate::ids::{spellings_are_told_apart, Uuid};
use crate::json::{json_string, literals_are_told_apart, push_json_string};
use crate::text;

verus! {

/// The billing contract that jobs are settled under.
pub const SERVER_REFERENCE_UPPER_BOUND_V1: &'static str = "server_reference_upper_bound_v1";

/// What the billing contract makes of a profile and two token limits.
#[derive(Clone, Copy, Debug, PartialEq, Eq, Structural)]
pub struct BillingQuote {
    pub billable_tokens: i64,
    pub reference_gpu_time_us: i64,
    pub reference_vram_mib_microseconds: i64,
    pub token_cost_micro: i64,
    pub gpu_cost_micro: i64,
    pub vram_cost_micro: i64,
    pub base_cost_micro: i64,
}

/// The billing columns of a job. Every one of them can be missing.
pub struct JobBillingRow {
    pub contract_version: Option<String>,
    pub profile_id: Option<Uuid>,
    pub profile_version: Option<i64>,
    pub profile_fingerprint: Option<String>,
    pub model_weights_hash: Option<String>,
    pub reference_hardware_class: Option<String>,
    pub profile_evidence_hash: Option<String>,
    pub profile_valid_from: Option<i128>,
    pub profile_valid_until: Option<i128>,
    pub profile_max_input_tokens: Option<i64>,
    pub profile_max_output_tokens: Option<i64>,
    pub fixed_gpu_time_us: Option<i64>,
    pub gpu_time_us_per_1k_tokens: Option<i64>,
    pub reference_vram_mib: Option<i64>,
    pub token_rate_micro_per_1k: Option<i64>,
    pub gpu_rate_micro_per_second: Option<i64>,
    pub vram_rate_micro_per_gib_second: Option<i64>,
    pub authorized_input_tokens: Option<i64>,
    pub authorized_max_output_tokens: Option<i64>,
    pub billable_tokens: Option<i64>,
    pub reference_gpu_time_us: Option<i64>,
    pub reference_vram_mib_microseconds: Option<i64>,
    pub token_cost_micro: Option<i64>,
    pub gpu_cost_micro: Option<i64>,
    pub vram_cost_micro: Option<i64>,
    pub base_cost_micro: Option<i64>,
}

/// The billing contract that a job froze. Times are nanoseconds since the Unix
/// epoch.
pub struct JobBillingSnapshot {
    pub contract_version: String,
    pub profile_id: Uuid,
    pub profile_version: i64,
    pub profile_fingerprint: String,
    pub model_weights_hash: String,
    pub reference_hardware_class: String,
    pub profile_evidence_hash: String,
    pub profile_valid_from: i128,
    pub profile_valid_until: i128,
    pub profile_max_input_tokens: i64,
    pub profile_max_output_tokens: i64,
    pub fixed_gpu_time_us: i64,
    pub gpu_time_us_per_1k_tokens: i64,
    pub reference_vram_mib: i64,
    pub token_rate_micro_per_1k: i64,
    pub gpu_rate_micro_per_second: i64,
    pub vram_rate_micro_per_gib_second: i64,
    pub authorized_input_tokens: i64,
    pub authorized_max_output_tokens: i64,
    pub billable_tokens: i64,
    pub reference_gpu_time_us: i64,
    pub reference_vram_mib_microseconds: i64,
    pub token_cost_micro: i64,
    pub gpu_cost_micro: i64,
    pub vram_cost_micro: i64,
    pub base_cost_micro: i64,
}

/// A column that must not be missing.
pub fn required<T>(column: Option<T>) -> (value: Result<T, ApiError>)
    ensures
        value == match column {
            Some(present) => Ok::<T, ApiError>(present),
            None => Err::<T, ApiError>(ApiError::internal()),
        },
{
    match column {
        Some(present) => Ok(present),
        None => Err(ApiError::internal()),
    }
}

impl JobBillingRow {
    /// No column is missing.
    pub open spec fn complete(self) -> bool {
        &&& self.contract_version is Some
        &&& self.profile_id is Some
        &&& self.profile_version is Some
        &&& self.profile_fingerprint is Some
        &&& self.model_weights_hash is Some
        &&& self.reference_hardware_class is Some
        &&& self.profile_evidence_hash is Some
        &&& self.profile_valid_from is Some
        &&& self.profile_valid_until is Some
        &&& self.profile_max_input_tokens is Some
        &&& self.profile_max_output_tokens is Some
        &&& self.fixed_gpu_time_us is Some
        &&& self.gpu_time_us_per_1k_tokens is Some
        &&& self.reference_vram_mib is Some
        &&& self.token_rate_micro_per_1k is Some
        &&& self.gpu_rate_micro_per_second is Some
        &&& self.vram_rate_micro_per_gib_second is Some
        &&& self.authorized_input_tokens is Some
        &&& self.authorized_max_output_tokens is Some
        &&& self.billable_tokens is Some
        &&& self.reference_gpu_time_us is Some
        &&& self.reference_vram_mib_microseconds is Some
        &&& self.token_cost_micro is Some
        &&& self.gpu_cost_micro is Some
        &&& self.vram_cost_micro is Some
        &&& self.base_cost_micro is Some
    }

    /// The snapshot that the columns hold, where none is missing.
    pub open spec fn snapshot(self) -> JobBillingSnapshot {
        JobBillingSnapshot {
            contract_version: self.contract_version->0,
            profile_id: self.profile_id->0,
            profile_version: self.profile_version->0,
            profile_fingerprint: self.profile_fingerprint->0,
            model_weights_hash: self.model_weights_hash->0,
            reference_hardware_class: self.reference_hardware_class->0,
            profile_evidence_hash: self.profile_evidence_hash->0,
            profile_valid_from: self.profile_valid_from->0,
            profile_valid_until: self.profile_valid_until->0,
            profile_max_input_tokens: self.profile_max_input_tokens->0,
            profile_max_output_tokens: self.profile_max_output_tokens->0,
            fixed_gpu_time_us: self.fixed_gpu_time_us->0,
            gpu_time_us_per_1k_tokens: self.gpu_time_us_per_1k_tokens->0,
            reference_vram_mib: self.reference_vram_mib->0,
            token_rate_micro_per_1k: self.token_rate_micro_per_1k->0,
            gpu_rate_micro_per_second: self.gpu_rate_micro_per_second->0,
            vram_rate_micro_per_gib_second: self.vram_rate_micro_per_gib_second->0,
            authorized_input_tokens: self.authorized_input_tokens->0,
            authorized_max_output_tokens: self.authorized_max_output_tokens->0,
            billable_tokens: self.billable_tokens->0,
            reference_gpu_time_us: self.reference_gpu_time_us->0,
            reference_vram_mib_microseconds: self.reference_vram_mib_microseconds->0,
            token_cost_micro: self.token_cost_micro->0,
            gpu_cost_micro: self.gpu_cost_micro->0,
            vram_cost_micro: self.vram_cost_micro->0,
            base_cost_micro: self.base_cost_micro->0,
        }
    }

    /// Reads the columns; a missing one is an internal error.
    pub fn into_snapshot(self) -> (read: Result<JobBillingSnapshot, ApiError>)
        ensures
            read == if self.complete() {
                Ok::<JobBillingSnapshot, ApiError>(self.snapshot())
            } else {
                Err::<JobBillingSnapshot, ApiError>(ApiError::internal())
            },
    {
        Ok(
            JobBillingSnapshot {
                contract_version: required(self.contract_version)?,
                profile_id: required(self.profile_id)?,
                profile_version: required(self.profile_version)?,
                profile_fingerprint: required(self.profile_fingerprint)?,
                model_weights_hash: required(self.model_weights_hash)?,
                reference_hardware_class: required(self.reference_hardware_class)?,
                profile_evidence_hash: required(self.profile_evidence_hash)?,
                profile_valid_from: required(self.profile_valid_from)?,
                profile_valid_until: required(self.profile_valid_until)?,
                profile_max_input_tokens: required(self.profile_max_input_tokens)?,
                profile_max_output_tokens: required(self.profile_max_output_tokens)?,
                fixed_gpu_time_us: required(self.fixed_gpu_time_us)?,
                gpu_time_us_per_1k_tokens: required(self.gpu_time_us_per_1k_tokens)?,
                reference_vram_mib: required(self.reference_vram_mib)?,
                token_rate_micro_per_1k: required(self.token_rate_micro_per_1k)?,
                gpu_rate_micro_per_second: required(self.gpu_rate_micro_per_second)?,
                vram_rate_micro_per_gib_second: required(self.vram_rate_micro_per_gib_second)?,
                authorized_input_tokens: required(self.authorized_input_tokens)?,
                authorized_max_output_tokens: required(self.authorized_max_output_tokens)?,
                billable_tokens: required(self.billable_tokens)?,
                reference_gpu_time_us: required(self.reference_gpu_time_us)?,
                reference_vram_mib_microseconds: required(self.reference_vram_mib_microseconds)?,
                token_cost_micro: required(self.token_cost_micro)?,
                gpu_cost_micro: required(self.gpu_cost_micro)?,
                vram_cost_micro: required(self.vram_cost_micro)?,
                base_cost_micro: required(self.base_cost_micro)?,
            },
        )
    }
}

impl JobBillingSnapshot {
    /// The quote that the snapshot holds.
    pub open spec fn quote(self) -> BillingQuote {
        BillingQuote {
            billable_tokens: self.billable_tokens,
            reference_gpu_time_us: self.reference_gpu_time_us,
            reference_vram_mib_microseconds: self.reference_vram_mib_microseconds,
            token_cost_micro: self.token_cost_micro,
            gpu_cost_micro: self.gpu_cost_micro,
            vram_cost_micro: self.vram_cost_micro,
            base_cost_micro: self.base_cost_micro,
        }
    }

    /// Reads what a job froze. A job without the contract cannot be settled; one
    /// that has it must have every column, and its authorised token limits must be
    /// those of the job.
    pub fn from_job_row(
        row: JobBillingRow,
        estimated_input_tokens: i32,
        max_output_tokens: i32,
    ) -> (read: Result<JobBillingSnapshot, ApiError>)
        ensures
            read == error::unless(
                from_job_row_refusal(row, estimated_input_tokens as int, max_output_tokens as int),
                row.snapshot(),
            ),
    {
        if !text::option_holds(&row.contract_version, SERVER_REFERENCE_UPPER_BOUND_V1) {
            return Err(
                ApiError::conflict(
                    "billing_contract_unavailable",
                    "任务没有冻结可结算的服务器参考上界计费合同",
                ),
            );
        }
        let snapshot = row.into_snapshot()?;
        if snapshot.authorized_input_tokens != estimated_input_tokens as i64
            || snapshot.authorized_max_output_tokens != max_output_tokens as i64 {
            return Err(ApiError::internal());
        }
        Ok(snapshot)
    }

    /// Checks the frozen amounts against what the contract makes of the frozen
    /// profile; `None` stands for a profile that the contract rejects.
    pub fn validate_frozen_quote(&self, quote: &Option<BillingQuote>) -> (valid: Result<
        (),
        ApiError,
    >)
        ensures
            valid == if *quote == Some(self.quote()) {
                Ok::<(), ApiError>(())
            } else {
                Err::<(), ApiError>(ApiError::internal())
            },
    {
        match quote {
            Some(quote) => if quote.billable_tokens != self.billable_tokens
                || quote.reference_gpu_time_us != self.reference_gpu_time_us
                || quote.reference_vram_mib_microseconds != self.reference_vram_mib_microseconds
                || quote.token_cost_micro != self.token_cost_micro || quote.gpu_cost_micro
                != self.gpu_cost_micro || quote.vram_cost_micro != self.vram_cost_micro
                || quote.base_cost_micro != self.base_cost_micro {
                Err(ApiError::internal())
            } else {
                Ok(())
            },
            None => Err(ApiError::internal()),
        }
    }

    /// The canonical JSON text of the snapshot: an object of its fields, in their order.
    fn canonical_json(&self) -> (json: Option<String>)
        ensures
            match json {
                Some(json) => snapshot_json(*self) == Some(json@),
                None => snapshot_json(*self) is None,
            },
    {
        let valid_from = moment_json_text(self.profile_valid_from)?;
        let valid_until = moment_json_text(self.profile_valid_until)?;
        let mut json = String::new();
        push_text_member(&mut json, "{\"contract_version\":", self.contract_version.as_str());
        push_text_member(&mut json, ",\"profile_id\":", self.profile_id.text().as_str());
        push_member(&mut json, ",\"profile_version\":", self.profile_version);
        push_text_member(
            &mut json,
            ",\"profile_fingerprint\":",
            self.profile_fingerprint.as_str(),
        );
        push_text_member(&mut json, ",\"model_weights_hash\":", self.model_weights_hash.as_str());
        push_text_member(
            &mut json,
            ",\"reference_hardware_class\":",
            self.reference_hardware_class.as_str(),
        );
        push_text_member(
            &mut json,
            ",\"profile_evidence_hash\":",
            self.profile_evidence_hash.as_str(),
        );
        text::push_text(&mut json, ",\"profile_valid_from\":");
        text::push_text(&mut json, valid_from.as_str());
        text::push_text(&mut json, ",\"profile_valid_until\":");
        text::push_text(&mut json, valid_until.as_str());
        assert(json@ =~= identity_members(*self, valid_from@, valid_until@));
        self.push_terms(&mut json);
        self.push_quote(&mut json);
        assert(json@ =~= identity_members(*self, valid_from@, valid_until@) + term_members(*self)
            + quote_members(*self));
        Some(json)
    }

    fn push_terms(&self, out: &mut String)
        ensures
            final(out)@ == old(out)@ + term_members(*self),
    {
        push_member(out, ",\"profile_max_input_tokens\":", self.profile_max_input_tokens);
        push_member(out, ",\"profile_max_output_tokens\":", self.profile_max_output_tokens);
        push_member(out, ",\"fixed_gpu_time_us\":", self.fixed_gpu_time_us);
        push_member(out, ",\"gpu_time_us_per_1k_tokens\":", self.gpu_time_us_per_1k_tokens);
        push_member(out, ",\"reference_vram_mib\":", self.reference_vram_mib);
        push_member(out, ",\"token_rate_micro_per_1k\":", self.token_rate_micro_per_1k);
        push_member(out, ",\"gpu_rate_micro_per_second\":", self.gpu_rate_micro_per_second);
        push_member(
            out,
            ",\"vram_rate_micro_per_gib_second\":",
            self.vram_rate_micro_per_gib_second,
        );
        push_member(out, ",\"authorized_input_tokens\":", self.authorized_input_tokens);
        push_member(out, ",\"authorized_max_output_tokens\":", self.authorized_max_output_tokens);
        assert(out@ =~= old(out)@ + term_members(*self));
    }

    fn push_quote(&self, out: &mut String)
        ensures
            final(out)@ == old(out)@ + quote_members(*self),
    {
        push_member(out, ",\"billable_tokens\":", self.billable_tokens);
        push_member(out, ",\"reference_gpu_time_us\":", self.reference_gpu_time_us);
        push_member(
            out,
            ",\"reference_vram_mib_microseconds\":",
            self.reference_vram_mib_microseconds,
        );
        push_member(out, ",\"token_cost_micro\":", self.token_cost_micro);
        push_member(out, ",\"gpu_cost_micro\":", self.gpu_cost_micro);
        push_member(out, ",\"vram_cost_micro\":", self.vram_cost_micro);
        push_member(out, ",\"base_cost_micro\":", self.base_cost_micro);
        text::push_text(out, "}");
        assert(out@ =~= old(out)@ + quote_members(*self));
    }

    /// The hash of the snapshot's canonical JSON text. A moment that has no calendar date
    /// is an internal error.
    pub fn canonical_hash(&self) -> (hash: Result<String, ApiError>)
        ensures
            match snapshot_json(*self) {
                Some(json) => hash matches Ok(hash) && hash@ == sha256_text(json)
                    && text::is_lower_hex(hash@, 64),
                None => hash == Err::<String, ApiError>(ApiError::internal()),
            },
    {
        match self.canonical_json() {
            Some(json) => Ok(sha256_hex(json.as_str())),
            None => Err(ApiError::internal()),
        }
    }
}

/// The JSON text of a moment that is given in nanoseconds since the Unix epoch, if it has
/// a calendar date.
pub uninterp spec fn moment_json(nanos: i128) -> Option<Seq<char>>;

/// Calls `time::OffsetDateTime::from_unix_timestamp_nanos`, and `serde_json::to_string` on
/// the moment it returns: the number alone decides over the text, and over whether there
/// is one.
#[verifier::external_body]
fn moment_json_text(nanos: i128) -> (json: Option<String>)
    ensures
        match json {
            Some(json) => moment_json(nanos) == Some(json@),
            None => moment_json(nanos) is None,
        },
{
    serde_json::to_string(&time::OffsetDateTime::from_unix_timestamp_nanos(nanos).ok()?).ok()
}

/// A member of an object, after the text that leads up to it.
pub open spec fn number_member(lead: Seq<char>, value: i64) -> Seq<char> {
    lead + text::decimal(value as int)
}

/// A member of an object that is a text, after the text that leads up to it.
pub open spec fn text_member(lead: Seq<char>, value: Seq<char>) -> Seq<char> {
    lead + json_string(value)
}

fn push_member(out: &mut String, lead: &str, value: i64)
    ensures
        final(out)@ == old(out)@ + number_member(lead@, value),
{
    text::push_text(out, lead);
    text::push_decimal(out, value);
    assert(out@ =~= old(out)@ + number_member(lead@, value));
}

fn push_text_member(out: &mut String, lead: &str, value: &str)
    ensures
        final(out)@ == old(out)@ + text_member(lead@, value@),
{
    text::push_text(out, lead);
    push_json_string(out, value);
    assert(out@ =~= old(out)@ + text_member(lead@, value@));
}

/// The members that say which contract and which profile a snapshot froze.
pub open spec fn identity_members(
    billing: JobBillingSnapshot,
    valid_from: Seq<char>,
    valid_until: Seq<char>,
) -> Seq<char> {
    text_member("{\"contract_version\":"@, billing.contract_version@) + text_member(
        ",\"profile_id\":"@,
        billing.profile_id.hyphenated(),
    ) + number_member(",\"profile_version\":"@, billing.profile_version) + text_member(
        ",\"profile_fingerprint\":"@,
        billing.profile_fingerprint@,
    ) + text_member(",\"model_weights_hash\":"@, billing.model_weights_hash@) + text_member(
        ",\"reference_hardware_class\":"@,
        billing.reference_hardware_class@,
    ) + text_member(",\"profile_evidence_hash\":"@, billing.profile_evidence_hash@)
        + ",\"profile_valid_from\":"@ + valid_from + ",\"profile_valid_until\":"@ + valid_until
}

/// The members that say what the profile allows and what it asks for.
pub open spec fn term_members(billing: JobBillingSnapshot) -> Seq<char> {
    number_member(",\"profile_max_input_tokens\":"@, billing.profile_max_input_tokens)
        + number_member(",\"profile_max_output_tokens\":"@, billing.profile_max_output_tokens)
        + number_member(",\"fixed_gpu_time_us\":"@, billing.fixed_gpu_time_us) + number_member(
        ",\"gpu_time_us_per_1k_tokens\":"@,
        billing.gpu_time_us_per_1k_tokens,
    ) + number_member(",\"reference_vram_mib\":"@, billing.reference_vram_mib) + number_member(
        ",\"token_rate_micro_per_1k\":"@,
        billing.token_rate_micro_per_1k,
    ) + number_member(",\"gpu_rate_micro_per_second\":"@, billing.gpu_rate_micro_per_second)
        + number_member(
        ",\"vram_rate_micro_per_gib_second\":"@,
        billing.vram_rate_micro_per_gib_second,
    ) + number_member(",\"authorized_input_tokens\":"@, billing.authorized_input_tokens)
        + number_member(
        ",\"authorized_max_output_tokens\":"@,
        billing.authorized_max_output_tokens,
    )
}

/// The members that say what the contract makes of the profile.
pub open spec fn quote_members(billing: JobBillingSnapshot) -> Seq<char> {
    number_member(",\"billable_tokens\":"@, billing.billable_tokens) + number_member(
        ",\"reference_gpu_time_us\":"@,
        billing.reference_gpu_time_us,
    ) + number_member(
        ",\"reference_vram_mib_microseconds\":"@,
        billing.reference_vram_mib_microseconds,
    ) + number_member(",\"token_cost_micro\":"@, billing.token_cost_micro) + number_member(
        ",\"gpu_cost_micro\":"@,
        billing.gpu_cost_micro,
    ) + number_member(",\"vram_cost_micro\":"@, billing.vram_cost_micro) + number_member(
        ",\"base_cost_micro\":"@,
        billing.base_cost_micro,
    ) + "}"@
}

/// The canonical JSON text of a snapshot: an object of all its fields, in their order.
pub open spec fn snapshot_json(billing: JobBillingSnapshot) -> Option<Seq<char>> {
    match (moment_json(billing.profile_valid_from), moment_json(billing.profile_valid_until)) {
        (Some(valid_from), Some(valid_until)) => Some(
            identity_members(billing, valid_from, valid_until) + term_members(billing)
                + quote_members(billing),
        ),
        _ => None,
    }
}

/// A number between a text that leads up to it and one that starts with no numeral is read
/// back as it was written.
pub proof fn lemma_member(lead: Seq<char>, first: i64, x: Seq<char>, second: i64, y: Seq<char>)
    requires
        number_member(lead, first) + x == number_member(lead, second) + y,
        x.len() > 0 && !text::is_numeral(x[0]),
        y.len() > 0 && !text::is_numeral(y[0]),
    ensures
        first == second,
        x == y,
{
    let a = text::decimal(first as int);
    let b = text::decimal(second as int);
    let left = number_member(lead, first) + x;
    let right = number_member(lead, second) + y;
    let at = lead.len() as int;
    text::lemma_decimal(first as int, second as int);
    text::lemma_decimal(second as int, first as int);
    if a.len() < b.len() {
        assert(left[at + a.len()] == x[0]);
        assert(right[at + a.len()] == b[a.len() as int]);
    }
    if b.len() < a.len() {
        assert(right[at + b.len()] == y[0]);
        assert(left[at + b.len()] == a[b.len() as int]);
    }
    assert(left.subrange(at, at + a.len()) =~= a);
    assert(right.subrange(at, at + b.len()) =~= b);
    assert(left.skip(at + a.len()) =~= x);
    assert(right.skip(at + b.len()) =~= y);
}

/// A literal behind a text that leads up to it is read back as it was written.
pub proof fn lemma_text_member(
    lead: Seq<char>,
    first: Seq<char>,
    x: Seq<char>,
    second: Seq<char>,
    y: Seq<char>,
)
    requires
        text_member(lead, first) + x == text_member(lead, second) + y,
    ensures
        first == second,
        x == y,
{
    let at = lead.len() as int;
    assert((text_member(lead, first) + x).skip(at) =~= json_string(first) + x);
    assert((text_member(lead, second) + y).skip(at) =~= json_string(second) + y);
    literals_are_told_apart(first, x, second, y);
}

/// Two contracts name the same texts and the same profile.
pub open spec fn same_names(first: JobBillingSnapshot, second: JobBillingSnapshot) -> bool {
    &&& first.contract_version@ == second.contract_version@
    &&& first.profile_id == second.profile_id
    &&& first.profile_fingerprint@ == second.profile_fingerprint@
    &&& first.model_weights_hash@ == second.model_weights_hash@
    &&& first.reference_hardware_class@ == second.reference_hardware_class@
    &&& first.profile_evidence_hash@ == second.profile_evidence_hash@
}

/// Two contracts allow and ask for the same.
pub open spec fn same_terms(first: JobBillingSnapshot, second: JobBillingSnapshot) -> bool {
    &&& first.profile_max_input_tokens == second.profile_max_input_tokens
    &&& first.profile_max_output_tokens == second.profile_max_output_tokens
    &&& first.fixed_gpu_time_us == second.fixed_gpu_time_us
    &&& first.gpu_time_us_per_1k_tokens == second.gpu_time_us_per_1k_tokens
    &&& first.reference_vram_mib == second.reference_vram_mib
    &&& first.token_rate_micro_per_1k == second.token_rate_micro_per_1k
    &&& first.gpu_rate_micro_per_second == second.gpu_rate_micro_per_second
    &&& first.vram_rate_micro_per_gib_second == second.vram_rate_micro_per_gib_second
    &&& first.authorized_input_tokens == second.authorized_input_tokens
    &&& first.authorized_max_output_tokens == second.authorized_max_output_tokens
}

/// Where texts are put together does not matter.
pub proof fn lemma_regroup(a: Seq<char>, b: Seq<char>, c: Seq<char>)
    ensures
        (a + b) + c == a + (b + c),
{
    assert((a + b) + c =~= a + (b + c));
}

proof fn lemma_starts(lead: Seq<char>, value: i64, rest: Seq<char>)
    requires
        lead.len() > 0,
    ensures
        (number_member(lead, value) + rest).len() > 0,
        (number_member(lead, value) + rest)[0] == lead[0],
{
}

proof fn lemma_term_leads()
    ensures
        ",\"profile_max_input_tokens\":"@.len() > 0 && ",\"profile_max_input_tokens\":"@[0] == ',',
        ",\"profile_max_output_tokens\":"@.len() > 0 && ",\"profile_max_output_tokens\":"@[0] == ',',
        ",\"fixed_gpu_time_us\":"@.len() > 0 && ",\"fixed_gpu_time_us\":"@[0] == ',',
        ",\"gpu_time_us_per_1k_tokens\":"@.len() > 0 && ",\"gpu_time_us_per_1k_tokens\":"@[0] == ',',
        ",\"reference_vram_mib\":"@.len() > 0 && ",\"reference_vram_mib\":"@[0] == ',',
        ",\"token_rate_micro_per_1k\":"@.len() > 0 && ",\"token_rate_micro_per_1k\":"@[0] == ',',
        ",\"gpu_rate_micro_per_second\":"@.len() > 0 && ",\"gpu_rate_micro_per_second\":"@[0] == ',',
        ",\"vram_rate_micro_per_gib_second\":"@.len() > 0 && ",\"vram_rate_micro_per_gib_second\":"@[0] == ',',
        ",\"authorized_input_tokens\":"@.len() > 0 && ",\"authorized_input_tokens\":"@[0] == ',',
        ",\"authorized_max_output_tokens\":"@.len() > 0 && ",\"authorized_max_output_tokens\":"@[0] == ',',
{
    reveal_strlit(",\"profile_max_input_tokens\":");
    reveal_strlit(",\"profile_max_output_tokens\":");
    reveal_strlit(",\"fixed_gpu_time_us\":");
    reveal_strlit(",\"gpu_time_us_per_1k_tokens\":");
    reveal_strlit(",\"reference_vram_mib\":");
    reveal_strlit(",\"token_rate_micro_per_1k\":");
    reveal_strlit(",\"gpu_rate_micro_per_second\":");
    reveal_strlit(",\"vram_rate_micro_per_gib_second\":");
    reveal_strlit(",\"authorized_input_tokens\":");
    reveal_strlit(",\"authorized_max_output_tokens\":");
}

proof fn lemma_quote_leads()
    ensures
        ",\"billable_tokens\":"@.len() > 0 && ",\"billable_tokens\":"@[0] == ',',
        ",\"reference_gpu_time_us\":"@.len() > 0 && ",\"reference_gpu_time_us\":"@[0] == ',',
        ",\"reference_vram_mib_microseconds\":"@.len() > 0 && ",\"reference_vram_mib_microseconds\":"@[0] == ',',
        ",\"token_cost_micro\":"@.len() > 0 && ",\"token_cost_micro\":"@[0] == ',',
        ",\"gpu_cost_micro\":"@.len() > 0 && ",\"gpu_cost_micro\":"@[0] == ',',
        ",\"vram_cost_micro\":"@.len() > 0 && ",\"vram_cost_micro\":"@[0] == ',',
        ",\"base_cost_micro\":"@.len() > 0 && ",\"base_cost_micro\":"@[0] == ',',
        "}"@.len() == 1 && "}"@[0] == '}',
{
    reveal_strlit(",\"billable_tokens\":");
    reveal_strlit(",\"reference_gpu_time_us\":");
    reveal_strlit(",\"reference_vram_mib_microseconds\":");
    reveal_strlit(",\"token_cost_micro\":");
    reveal_strlit(",\"gpu_cost_micro\":");
    reveal_strlit(",\"vram_cost_micro\":");
    reveal_strlit(",\"base_cost_micro\":");
    reveal_strlit("}");
}

proof fn lemma_terms(
    first: JobBillingSnapshot,
    x: Seq<char>,
    second: JobBillingSnapshot,
    y: Seq<char>,
)
    requires
        term_members(first) + x == term_members(second) + y,
        x.len() > 0 && x[0] == ',',
        y.len() > 0 && y[0] == ',',
    ensures
        same_terms(first, second),
        x == y,
{
    lemma_term_leads();
    let a9 = number_member(",\"authorized_max_output_tokens\":"@, first.authorized_max_output_tokens) + x;
    let b9 = number_member(",\"authorized_max_output_tokens\":"@, second.authorized_max_output_tokens) + y;
    let a8 = number_member(",\"authorized_input_tokens\":"@, first.authorized_input_tokens) + a9;
    let b8 = number_member(",\"authorized_input_tokens\":"@, second.authorized_input_tokens) + b9;
    let a7 = number_member(",\"vram_rate_micro_per_gib_second\":"@, first.vram_rate_micro_per_gib_second) + a8;
    let b7 = number_member(",\"vram_rate_micro_per_gib_second\":"@, second.vram_rate_micro_per_gib_second) + b8;
    let a6 = number_member(",\"gpu_rate_micro_per_second\":"@, first.gpu_rate_micro_per_second) + a7;
    let b6 = number_member(",\"gpu_rate_micro_per_second\":"@, second.gpu_rate_micro_per_second) + b7;
    let a5 = number_member(",\"token_rate_micro_per_1k\":"@, first.token_rate_micro_per_1k) + a6;
    let b5 = number_member(",\"token_rate_micro_per_1k\":"@, second.token_rate_micro_per_1k) + b6;
    let a4 = number_member(",\"reference_vram_mib\":"@, first.reference_vram_mib) + a5;
    let b4 = number_member(",\"reference_vram_mib\":"@, second.reference_vram_mib) + b5;
    let a3 = number_member(",\"gpu_time_us_per_1k_tokens\":"@, first.gpu_time_us_per_1k_tokens) + a4;
    let b3 = number_member(",\"gpu_time_us_per_1k_tokens\":"@, second.gpu_time_us_per_1k_tokens) + b4;
    let a2 = number_member(",\"fixed_gpu_time_us\":"@, first.fixed_gpu_time_us) + a3;
    let b2 = number_member(",\"fixed_gpu_time_us\":"@, second.fixed_gpu_time_us) + b3;
    let a1 = number_member(",\"profile_max_output_tokens\":"@, first.profile_max_output_tokens) + a2;
    let b1 = number_member(",\"profile_max_output_tokens\":"@, second.profile_max_output_tokens) + b2;
    let a0 = number_member(",\"profile_max_input_tokens\":"@, first.profile_max_input_tokens) + a1;
    let b0 = number_member(",\"profile_max_input_tokens\":"@, second.profile_max_input_tokens) + b1;
    let h0 = number_member(",\"profile_max_input_tokens\":"@, first.profile_max_input_tokens);
    let h1 = h0 + number_member(",\"profile_max_output_tokens\":"@, first.profile_max_output_tokens);
    let h2 = h1 + number_member(",\"fixed_gpu_time_us\":"@, first.fixed_gpu_time_us);
    let h3 = h2 + number_member(",\"gpu_time_us_per_1k_tokens\":"@, first.gpu_time_us_per_1k_tokens);
    let h4 = h3 + number_member(",\"reference_vram_mib\":"@, first.reference_vram_mib);
    let h5 = h4 + number_member(",\"token_rate_micro_per_1k\":"@, first.token_rate_micro_per_1k);
    let h6 = h5 + number_member(",\"gpu_rate_micro_per_second\":"@, first.gpu_rate_micro_per_second);
    let h7 = h6 + number_member(",\"vram_rate_micro_per_gib_second\":"@, first.vram_rate_micro_per_gib_second);
    let h8 = h7 + number_member(",\"authorized_input_tokens\":"@, first.authorized_input_tokens);
    let h9 = h8 + number_member(",\"authorized_max_output_tokens\":"@, first.authorized_max_output_tokens);
    lemma_regroup(h8, number_member(",\"authorized_max_output_tokens\":"@, first.authorized_max_output_tokens), x);
    lemma_regroup(h7, number_member(",\"authorized_input_tokens\":"@, first.authorized_input_tokens), a9);
    lemma_regroup(h6, number_member(",\"vram_rate_micro_per_gib_second\":"@, first.vram_rate_micro_per_gib_second), a8);
    lemma_regroup(h5, number_member(",\"gpu_rate_micro_per_second\":"@, first.gpu_rate_micro_per_second), a7);
    lemma_regroup(h4, number_member(",\"token_rate_micro_per_1k\":"@, first.token_rate_micro_per_1k), a6);
    lemma_regroup(h3, number_member(",\"reference_vram_mib\":"@, first.reference_vram_mib), a5);
    lemma_regroup(h2, number_member(",\"gpu_time_us_per_1k_tokens\":"@, first.gpu_time_us_per_1k_tokens), a4);
    lemma_regroup(h1, number_member(",\"fixed_gpu_time_us\":"@, first.fixed_gpu_time_us), a3);
    lemma_regroup(h0, number_member(",\"profile_max_output_tokens\":"@, first.profile_max_output_tokens), a2);
    let k0 = number_member(",\"profile_max_input_tokens\":"@, second.profile_max_input_tokens);
    let k1 = k0 + number_member(",\"profile_max_output_tokens\":"@, second.profile_max_output_tokens);
    let k2 = k1 + number_member(",\"fixed_gpu_time_us\":"@, second.fixed_gpu_time_us);
    let k3 = k2 + number_member(",\"gpu_time_us_per_1k_tokens\":"@, second.gpu_time_us_per_1k_tokens);
    let k4 = k3 + number_member(",\"reference_vram_mib\":"@, second.reference_vram_mib);
    let k5 = k4 + number_member(",\"token_rate_micro_per_1k\":"@, second.token_rate_micro_per_1k);
    let k6 = k5 + number_member(",\"gpu_rate_micro_per_second\":"@, second.gpu_rate_micro_per_second);
    let k7 = k6 + number_member(",\"vram_rate_micro_per_gib_second\":"@, second.vram_rate_micro_per_gib_second);
    let k8 = k7 + number_member(",\"authorized_input_tokens\":"@, second.authorized_input_tokens);
    let k9 = k8 + number_member(",\"authorized_max_output_tokens\":"@, second.authorized_max_output_tokens);
    lemma_regroup(k8, number_member(",\"authorized_max_output_tokens\":"@, second.authorized_max_output_tokens), y);
    lemma_regroup(k7, number_member(",\"authorized_input_tokens\":"@, second.authorized_input_tokens), b9);
    lemma_regroup(k6, number_member(",\"vram_rate_micro_per_gib_second\":"@, second.vram_rate_micro_per_gib_second), b8);
    lemma_regroup(k5, number_member(",\"gpu_rate_micro_per_second\":"@, second.gpu_rate_micro_per_second), b7);
    lemma_regroup(k4, number_member(",\"token_rate_micro_per_1k\":"@, second.token_rate_micro_per_1k), b6);
    lemma_regroup(k3, number_member(",\"reference_vram_mib\":"@, second.reference_vram_mib), b5);
    lemma_regroup(k2, number_member(",\"gpu_time_us_per_1k_tokens\":"@, second.gpu_time_us_per_1k_tokens), b4);
    lemma_regroup(k1, number_member(",\"fixed_gpu_time_us\":"@, second.fixed_gpu_time_us), b3);
    lemma_regroup(k0, number_member(",\"profile_max_output_tokens\":"@, second.profile_max_output_tokens), b2);
    lemma_starts(",\"profile_max_output_tokens\":"@, first.profile_max_output_tokens, a2);
    lemma_starts(",\"profile_max_output_tokens\":"@, second.profile_max_output_tokens, b2);
    lemma_starts(",\"fixed_gpu_time_us\":"@, first.fixed_gpu_time_us, a3);
    lemma_starts(",\"fixed_gpu_time_us\":"@, second.fixed_gpu_time_us, b3);
    lemma_starts(",\"gpu_time_us_per_1k_tokens\":"@, first.gpu_time_us_per_1k_tokens, a4);
    lemma_starts(",\"gpu_time_us_per_1k_tokens\":"@, second.gpu_time_us_per_1k_tokens, b4);
    lemma_starts(",\"reference_vram_mib\":"@, first.reference_vram_mib, a5);
    lemma_starts(",\"reference_vram_mib\":"@, second.reference_vram_mib, b5);
    lemma_starts(",\"token_rate_micro_per_1k\":"@, first.token_rate_micro_per_1k, a6);
    lemma_starts(",\"token_rate_micro_per_1k\":"@, second.token_rate_micro_per_1k, b6);
    lemma_starts(",\"gpu_rate_micro_per_second\":"@, first.gpu_rate_micro_per_second, a7);
    lemma_starts(",\"gpu_rate_micro_per_second\":"@, second.gpu_rate_micro_per_second, b7);
    lemma_starts(",\"vram_rate_micro_per_gib_second\":"@, first.vram_rate_micro_per_gib_second, a8);
    lemma_starts(",\"vram_rate_micro_per_gib_second\":"@, second.vram_rate_micro_per_gib_second, b8);
    lemma_starts(",\"authorized_input_tokens\":"@, first.authorized_input_tokens, a9);
    lemma_starts(",\"authorized_input_tokens\":"@, second.authorized_input_tokens, b9);
    lemma_starts(",\"authorized_max_output_tokens\":"@, first.authorized_max_output_tokens, x);
    lemma_starts(",\"authorized_max_output_tokens\":"@, second.authorized_max_output_tokens, y);
    lemma_member(",\"profile_max_input_tokens\":"@, first.profile_max_input_tokens, a1, second.profile_max_input_tokens, b1);
    lemma_member(",\"profile_max_output_tokens\":"@, first.profile_max_output_tokens, a2, second.profile_max_output_tokens, b2);
    lemma_member(",\"fixed_gpu_time_us\":"@, first.fixed_gpu_time_us, a3, second.fixed_gpu_time_us, b3);
    lemma_member(",\"gpu_time_us_per_1k_tokens\":"@, first.gpu_time_us_per_1k_tokens, a4, second.gpu_time_us_per_1k_tokens, b4);
    lemma_member(",\"reference_vram_mib\":"@, first.reference_vram_mib, a5, second.reference_vram_mib, b5);
    lemma_member(",\"token_rate_micro_per_1k\":"@, first.token_rate_micro_per_1k, a6, second.token_rate_micro_per_1k, b6);
    lemma_member(",\"gpu_rate_micro_per_second\":"@, first.gpu_rate_micro_per_second, a7, second.gpu_rate_micro_per_second, b7);
    lemma_member(",\"vram_rate_micro_per_gib_second\":"@, first.vram_rate_micro_per_gib_second, a8, second.vram_rate_micro_per_gib_second, b8);
    lemma_member(",\"authorized_input_tokens\":"@, first.authorized_input_tokens, a9, second.authorized_input_tokens, b9);
    lemma_member(",\"authorized_max_output_tokens\":"@, first.authorized_max_output_tokens, x, second.authorized_max_output_tokens, y);
}

proof fn lemma_quote(first: JobBillingSnapshot, second: JobBillingSnapshot)
    requires
        quote_members(first) == quote_members(second),
    ensures
        first.quote() == second.quote(),
{
    lemma_quote_leads();
    let a6 = number_member(",\"base_cost_micro\":"@, first.base_cost_micro) + "}"@;
    let b6 = number_member(",\"base_cost_micro\":"@, second.base_cost_micro) + "}"@;
    let a5 = number_member(",\"vram_cost_micro\":"@, first.vram_cost_micro) + a6;
    let b5 = number_member(",\"vram_cost_micro\":"@, second.vram_cost_micro) + b6;
    let a4 = number_member(",\"gpu_cost_micro\":"@, first.gpu_cost_micro) + a5;
    let b4 = number_member(",\"gpu_cost_micro\":"@, second.gpu_cost_micro) + b5;
    let a3 = number_member(",\"token_cost_micro\":"@, first.token_cost_micro) + a4;
    let b3 = number_member(",\"token_cost_micro\":"@, second.token_cost_micro) + b4;
    let a2 = number_member(",\"reference_vram_mib_microseconds\":"@, first.reference_vram_mib_microseconds) + a3;
    let b2 = number_member(",\"reference_vram_mib_microseconds\":"@, second.reference_vram_mib_microseconds) + b3;
    let a1 = number_member(",\"reference_gpu_time_us\":"@, first.reference_gpu_time_us) + a2;
    let b1 = number_member(",\"reference_gpu_time_us\":"@, second.reference_gpu_time_us) + b2;
    let a0 = number_member(",\"billable_tokens\":"@, first.billable_tokens) + a1;
    let b0 = number_member(",\"billable_tokens\":"@, second.billable_tokens) + b1;
    let h0 = number_member(",\"billable_tokens\":"@, first.billable_tokens);
    let h1 = h0 + number_member(",\"reference_gpu_time_us\":"@, first.reference_gpu_time_us);
    let h2 = h1 + number_member(",\"reference_vram_mib_microseconds\":"@, first.reference_vram_mib_microseconds);
    let h3 = h2 + number_member(",\"token_cost_micro\":"@, first.token_cost_micro);
    let h4 = h3 + number_member(",\"gpu_cost_micro\":"@, first.gpu_cost_micro);
    let h5 = h4 + number_member(",\"vram_cost_micro\":"@, first.vram_cost_micro);
    let h6 = h5 + number_member(",\"base_cost_micro\":"@, first.base_cost_micro);
    lemma_regroup(h5, number_member(",\"base_cost_micro\":"@, first.base_cost_micro), "}"@);
    lemma_regroup(h4, number_member(",\"vram_cost_micro\":"@, first.vram_cost_micro), a6);
    lemma_regroup(h3, number_member(",\"gpu_cost_micro\":"@, first.gpu_cost_micro), a5);
    lemma_regroup(h2, number_member(",\"token_cost_micro\":"@, first.token_cost_micro), a4);
    lemma_regroup(h1, number_member(",\"reference_vram_mib_microseconds\":"@, first.reference_vram_mib_microseconds), a3);
    lemma_regroup(h0, number_member(",\"reference_gpu_time_us\":"@, first.reference_gpu_time_us), a2);
    let k0 = number_member(",\"billable_tokens\":"@, second.billable_tokens);
    let k1 = k0 + number_member(",\"reference_gpu_time_us\":"@, second.reference_gpu_time_us);
    let k2 = k1 + number_member(",\"reference_vram_mib_microseconds\":"@, second.reference_vram_mib_microseconds);
    let k3 = k2 + number_member(",\"token_cost_micro\":"@, second.token_cost_micro);
    let k4 = k3 + number_member(",\"gpu_cost_micro\":"@, second.gpu_cost_micro);
    let k5 = k4 + number_member(",\"vram_cost_micro\":"@, second.vram_cost_micro);
    let k6 = k5 + number_member(",\"base_cost_micro\":"@, second.base_cost_micro);
    lemma_regroup(k5, number_member(",\"base_cost_micro\":"@, second.base_cost_micro), "}"@);
    lemma_regroup(k4, number_member(",\"vram_cost_micro\":"@, second.vram_cost_micro), b6);
    lemma_regroup(k3, number_member(",\"gpu_cost_micro\":"@, second.gpu_cost_micro), b5);
    lemma_regroup(k2, number_member(",\"token_cost_micro\":"@, second.token_cost_micro), b4);
    lemma_regroup(k1, number_member(",\"reference_vram_mib_microseconds\":"@, second.reference_vram_mib_microseconds), b3);
    lemma_regroup(k0, number_member(",\"reference_gpu_time_us\":"@, second.reference_gpu_time_us), b2);
    lemma_starts(",\"reference_gpu_time_us\":"@, first.reference_gpu_time_us, a2);
    lemma_starts(",\"reference_gpu_time_us\":"@, second.reference_gpu_time_us, b2);
    lemma_starts(",\"reference_vram_mib_microseconds\":"@, first.reference_vram_mib_microseconds, a3);
    lemma_starts(",\"reference_vram_mib_microseconds\":"@, second.reference_vram_mib_microseconds, b3);
    lemma_starts(",\"token_cost_micro\":"@, first.token_cost_micro, a4);
    lemma_starts(",\"token_cost_micro\":"@, second.token_cost_micro, b4);
    lemma_starts(",\"gpu_cost_micro\":"@, first.gpu_cost_micro, a5);
    lemma_starts(",\"gpu_cost_micro\":"@, second.gpu_cost_micro, b5);
    lemma_starts(",\"vram_cost_micro\":"@, first.vram_cost_micro, a6);
    lemma_starts(",\"vram_cost_micro\":"@, second.vram_cost_micro, b6);
    lemma_starts(",\"base_cost_micro\":"@, first.base_cost_micro, "}"@);
    lemma_starts(",\"base_cost_micro\":"@, second.base_cost_micro, "}"@);
    lemma_member(",\"billable_tokens\":"@, first.billable_tokens, a1, second.billable_tokens, b1);
    lemma_member(",\"reference_gpu_time_us\":"@, first.reference_gpu_time_us, a2, second.reference_gpu_time_us, b2);
    lemma_member(",\"reference_vram_mib_microseconds\":"@, first.reference_vram_mib_microseconds, a3, second.reference_vram_mib_microseconds, b3);
    lemma_member(",\"token_cost_micro\":"@, first.token_cost_micro, a4, second.token_cost_micro, b4);
    lemma_member(",\"gpu_cost_micro\":"@, first.gpu_cost_micro, a5, second.gpu_cost_micro, b5);
    lemma_member(",\"vram_cost_micro\":"@, first.vram_cost_micro, a6, second.vram_cost_micro, b6);
    lemma_member(",\"base_cost_micro\":"@, first.base_cost_micro, "}"@, second.base_cost_micro, "}"@);
}

/// What follows the same lead is the same.
pub proof fn lemma_same_lead(lead: Seq<char>, x: Seq<char>, y: Seq<char>)
    requires
        lead + x == lead + y,
    ensures
        x == y,
{
    assert((lead + x).skip(lead.len() as int) =~= x);
    assert((lead + y).skip(lead.len() as int) =~= y);
}

proof fn lemma_fingerprint_lead()
    ensures
        ",\"profile_fingerprint\":"@.len() > 0 && ",\"profile_fingerprint\":"@[0] == ',',
{
    reveal_strlit(",\"profile_fingerprint\":");
}

proof fn lemma_identity(
    first: JobBillingSnapshot,
    x: Seq<char>,
    second: JobBillingSnapshot,
    y: Seq<char>,
    valid_from: Seq<char>,
    valid_until: Seq<char>,
)
    requires
        identity_members(first, valid_from, valid_until) + x == identity_members(
            second,
            valid_from,
            valid_until,
        ) + y,
    ensures
        same_names(first, second),
        first.profile_version == second.profile_version,
        x == y,
{
    lemma_fingerprint_lead();
    let a10 = valid_until + x;
    let a9 = ",\"profile_valid_until\":"@ + a10;
    let a8 = valid_from + a9;
    let a7 = ",\"profile_valid_from\":"@ + a8;
    let a6 = text_member(",\"profile_evidence_hash\":"@, first.profile_evidence_hash@) + a7;
    let a5 = text_member(",\"reference_hardware_class\":"@, first.reference_hardware_class@) + a6;
    let a4 = text_member(",\"model_weights_hash\":"@, first.model_weights_hash@) + a5;
    let a3 = text_member(",\"profile_fingerprint\":"@, first.profile_fingerprint@) + a4;
    let a2 = number_member(",\"profile_version\":"@, first.profile_version) + a3;
    let a1 = text_member(",\"profile_id\":"@, first.profile_id.hyphenated()) + a2;
    let a0 = text_member("{\"contract_version\":"@, first.contract_version@) + a1;
    let b10 = valid_until + y;
    let b9 = ",\"profile_valid_until\":"@ + b10;
    let b8 = valid_from + b9;
    let b7 = ",\"profile_valid_from\":"@ + b8;
    let b6 = text_member(",\"profile_evidence_hash\":"@, second.profile_evidence_hash@) + b7;
    let b5 = text_member(",\"reference_hardware_class\":"@, second.reference_hardware_class@) + b6;
    let b4 = text_member(",\"model_weights_hash\":"@, second.model_weights_hash@) + b5;
    let b3 = text_member(",\"profile_fingerprint\":"@, second.profile_fingerprint@) + b4;
    let b2 = number_member(",\"profile_version\":"@, second.profile_version) + b3;
    let b1 = text_member(",\"profile_id\":"@, second.profile_id.hyphenated()) + b2;
    let b0 = text_member("{\"contract_version\":"@, second.contract_version@) + b1;
    let h0 = text_member("{\"contract_version\":"@, first.contract_version@);
    let h1 = h0 + text_member(",\"profile_id\":"@, first.profile_id.hyphenated());
    let h2 = h1 + number_member(",\"profile_version\":"@, first.profile_version);
    let h3 = h2 + text_member(",\"profile_fingerprint\":"@, first.profile_fingerprint@);
    let h4 = h3 + text_member(",\"model_weights_hash\":"@, first.model_weights_hash@);
    let h5 = h4 + text_member(",\"reference_hardware_class\":"@, first.reference_hardware_class@);
    let h6 = h5 + text_member(",\"profile_evidence_hash\":"@, first.profile_evidence_hash@);
    let h7 = h6 + ",\"profile_valid_from\":"@;
    let h8 = h7 + valid_from;
    let h9 = h8 + ",\"profile_valid_until\":"@;
    lemma_regroup(h9, valid_until, x);
    lemma_regroup(h8, ",\"profile_valid_until\":"@, a10);
    lemma_regroup(h7, valid_from, a9);
    lemma_regroup(h6, ",\"profile_valid_from\":"@, a8);
    lemma_regroup(h5, text_member(",\"profile_evidence_hash\":"@, first.profile_evidence_hash@), a7);
    lemma_regroup(h4, text_member(",\"reference_hardware_class\":"@, first.reference_hardware_class@), a6);
    lemma_regroup(h3, text_member(",\"model_weights_hash\":"@, first.model_weights_hash@), a5);
    lemma_regroup(h2, text_member(",\"profile_fingerprint\":"@, first.profile_fingerprint@), a4);
    lemma_regroup(h1, number_member(",\"profile_version\":"@, first.profile_version), a3);
    lemma_regroup(h0, text_member(",\"profile_id\":"@, first.profile_id.hyphenated()), a2);
    let k0 = text_member("{\"contract_version\":"@, second.contract_version@);
    let k1 = k0 + text_member(",\"profile_id\":"@, second.profile_id.hyphenated());
    let k2 = k1 + number_member(",\"profile_version\":"@, second.profile_version);
    let k3 = k2 + text_member(",\"profile_fingerprint\":"@, second.profile_fingerprint@);
    let k4 = k3 + text_member(",\"model_weights_hash\":"@, second.model_weights_hash@);
    let k5 = k4 + text_member(",\"reference_hardware_class\":"@, second.reference_hardware_class@);
    let k6 = k5 + text_member(",\"profile_evidence_hash\":"@, second.profile_evidence_hash@);
    let k7 = k6 + ",\"profile_valid_from\":"@;
    let k8 = k7 + valid_from;
    let k9 = k8 + ",\"profile_valid_until\":"@;
    lemma_regroup(k9, valid_until, y);
    lemma_regroup(k8, ",\"profile_valid_until\":"@, b10);
    lemma_regroup(k7, valid_from, b9);
    lemma_regroup(k6, ",\"profile_valid_from\":"@, b8);
    lemma_regroup(k5, text_member(",\"profile_evidence_hash\":"@, second.profile_evidence_hash@), b7);
    lemma_regroup(k4, text_member(",\"reference_hardware_class\":"@, second.reference_hardware_class@), b6);
    lemma_regroup(k3, text_member(",\"model_weights_hash\":"@, second.model_weights_hash@), b5);
    lemma_regroup(k2, text_member(",\"profile_fingerprint\":"@, second.profile_fingerprint@), b4);
    lemma_regroup(k1, number_member(",\"profile_version\":"@, second.profile_version), b3);
    lemma_regroup(k0, text_member(",\"profile_id\":"@, second.profile_id.hyphenated()), b2);
    lemma_text_member("{\"contract_version\":"@, first.contract_version@, a1, second.contract_version@, b1);
    lemma_text_member(",\"profile_id\":"@, first.profile_id.hyphenated(), a2, second.profile_id.hyphenated(), b2);
    assert(a3[0] == ',' && b3[0] == ',');
    lemma_member(",\"profile_version\":"@, first.profile_version, a3, second.profile_version, b3);
    lemma_text_member(",\"profile_fingerprint\":"@, first.profile_fingerprint@, a4, second.profile_fingerprint@, b4);
    lemma_text_member(",\"model_weights_hash\":"@, first.model_weights_hash@, a5, second.model_weights_hash@, b5);
    lemma_text_member(",\"reference_hardware_class\":"@, first.reference_hardware_class@, a6, second.reference_hardware_class@, b6);
    lemma_text_member(",\"profile_evidence_hash\":"@, first.profile_evidence_hash@, a7, second.profile_evidence_hash@, b7);
    spellings_are_told_apart(first.profile_id, second.profile_id);
    lemma_same_lead(",\"profile_valid_from\":"@, a8, b8);
    lemma_same_lead(valid_from, a9, b9);
    lemma_same_lead(",\"profile_valid_until\":"@, a10, b10);
    lemma_same_lead(valid_until, x, y);
}

/// The canonical text of a contract covers everything in it. Of two contracts that hold at
/// the same times, the texts are the same exactly if the names, the profile and its version,
/// all limits and rates, and all amounts are the same; so that nothing can change without
/// the text that the receipt binds.
pub proof fn contract_texts_cover_everything(
    first: JobBillingSnapshot,
    second: JobBillingSnapshot,
)
    requires
        first.profile_valid_from == second.profile_valid_from,
        first.profile_valid_until == second.profile_valid_until,
        snapshot_json(first) is Some,
    ensures
        snapshot_json(first) == snapshot_json(second) <==> same_names(first, second)
            && first.profile_version == second.profile_version && same_terms(first, second)
            && first.quote() == second.quote(),
{
    let from = moment_json(first.profile_valid_from)->0;
    let until = moment_json(first.profile_valid_until)->0;
    let x = term_members(first) + quote_members(first);
    let y = term_members(second) + quote_members(second);
    lemma_regroup(
        identity_members(first, from, until),
        term_members(first),
        quote_members(first),
    );
    lemma_regroup(
        identity_members(second, from, until),
        term_members(second),
        quote_members(second),
    );
    if snapshot_json(first) == snapshot_json(second) {
        lemma_identity(first, x, second, y, from, until);
        lemma_quote_leads();
        assert(quote_members(first)[0] == ',' && quote_members(second)[0] == ',');
        lemma_terms(first, quote_members(first), second, quote_members(second));
        lemma_quote(first, second);
    }
}

pub open spec fn from_job_row_refusal(row: JobBillingRow, input: int, output: int) -> Option<
    ApiError,
> {
    if !text::holds(row.contract_version, SERVER_REFERENCE_UPPER_BOUND_V1@) {
        Some(
            ApiError::conflict(
                "billing_contract_unavailable",
                "任务没有冻结可结算的服务器参考上界计费合同",
            ),
        )
    } else if !row.complete() || row.authorized_input_tokens->0 != input
        || row.authorized_max_output_tokens->0 != output {
        Some(ApiError::internal())
    } else {
        None
    }
}

/// The SHA-256 digest of a text, in lower case hexadecimal digits.
pub open spec fn sha256_text(text: Seq<char>) -> Seq<char> {
    text::lower_hex(crypto::sha256(vstd::utf8::encode_utf8(text)))
}

pub fn sha256_hex(value: &str) -> (hash: String)
    ensures
        hash@ == sha256_text(value@),
        text::is_lower_hex(hash@, 64),
{
    let digest = crypto::sha256_digest(value.as_bytes());
    proof {
        text::lemma_lower_hex_digits(digest@);
    }
    crypto::hex_encode(digest.as_slice())
}

/// The amount that a job is settled at: the frozen base cost, whatever part of the
/// authorised tokens was used.
pub open spec fn frozen_base(billing: JobBillingSnapshot, input: int, output: int) -> Result<
    i64,
    ApiError,
> {
    if input > billing.authorized_input_tokens || output > billing.authorized_max_output_tokens {
        Err(
            ApiError::bad_request(
                "usage_exceeds_authorized_limit",
                "节点上报的 Token 使用量超过任务授权上限",
            ),
        )
    } else {
        Ok(billing.base_cost_micro)
    }
}

pub fn frozen_base_for_authorized_usage(
    billing: &JobBillingSnapshot,
    actual_input_tokens: i32,
    actual_output_tokens: i32,
) -> (base: Result<i64, ApiError>)
    ensures
        base == frozen_base(*billing, actual_input_tokens as int, actual_output_tokens as int),
{
    if actual_input_tokens as i64 > billing.authorized_input_tokens
        || actual_output_tokens as i64 > billing.authorized_max_output_tokens {
        return Err(
            ApiError::bad_request(
                "usage_exceeds_authorized_limit",
                "节点上报的 Token 使用量超过任务授权上限",
            ),
        );
    }
    Ok(billing.base_cost_micro)
}

/// What a node reports as used changes nothing about the amount, as long as it
/// stays within what was authorised.
pub proof fn amount_is_independent_of_reported_usage(
    billing: JobBillingSnapshot,
    first_input: int,
    first_output: int,
    second_input: int,
    second_output: int,
)
    requires
        first_input <= billing.authorized_input_tokens,
        second_input <= billing.authorized_input_tokens,
        first_output <= billing.authorized_max_output_tokens,
        second_output <= billing.authorized_max_output_tokens,
    ensures
        frozen_base(billing, first_input, first_output) == frozen_base(
            billing,
            second_input,
            second_output,
        ),
{
}

/// The base cost that a reservation covers: all authorised tokens at the price of
/// a thousand, rounded up.
pub open spec fn reservation_base(input: int, output: int, price_per_1k: int) -> Result<
    i64,
    ApiError,
> {
    if input < 0 || output <= 0 || price_per_1k <= 0 {
        Err(ApiError::bad_request("invalid_usage_limits", "Token 上限或模型计价无效"))
    } else {
        let base = arithmetic::ceiling((input + output) * price_per_1k, 1_000);
        if base <= i64::MAX {
            Ok(base as i64)
        } else {
            Err(ApiError::internal())
        }
    }
}

pub fn maximum_reservation_base_micro(
    estimated_input_tokens: i32,
    max_output_tokens: i32,
    base_cost_per_1k_micro: i64,
) -> (base: Result<i64, ApiError>)
    ensures
        base == reservation_base(
            estimated_input_tokens as int,
            max_output_tokens as int,
            base_cost_per_1k_micro as int,
        ),
{
    if estimated_input_tokens < 0 || max_output_tokens <= 0 || base_cost_per_1k_micro <= 0 {
        return Err(ApiError::bad_request("invalid_usage_limits", "Token 上限或模型计价无效"));
    }
    let tokens: i128 = estimated_input_tokens as i128 + max_output_tokens as i128;
    assert(0 < tokens * base_cost_per_1k_micro <= 0x1_0000_0000int * 0x8000_0000_0000_0000int)
        by (nonlinear_arith)
        requires
            0 < tokens <= 0x1_0000_0000int,
            0 < base_cost_per_1k_micro <= 0x8000_0000_0000_0000int,
    ;
    let base = arithmetic::ceil_div(tokens * base_cost_per_1k_micro as i128, 1_000)?;
    arithmetic::checked_i64(base)
}

/// More authorised tokens, or a higher price, never lower the reservation.
pub proof fn reservations_grow_with_their_limits(
    input: int,
    output: int,
    price: int,
    larger_input: int,
    larger_output: int,
    larger_price: int,
)
    requires
        0 <= input <= larger_input,
        0 < output <= larger_output,
        0 < price <= larger_price,
        reservation_base(larger_input, larger_output, larger_price) is Ok,
    ensures
        reservation_base(input, output, price) is Ok,
        reservation_base(input, output, price)->Ok_0 <= reservation_base(
            larger_input,
            larger_output,
            larger_price,
        )->Ok_0,
{
    let small = (input + output) * price;
    let large = (larger_input + larger_output) * larger_price;
    assert(0 < small <= large) by (nonlinear_arith)
        requires
            0 < input + output <= larger_input + larger_output,
            0 < price <= larger_price,
            small == (input + output) * price,
            large == (larger_input + larger_output) * larger_price,
    ;
}

/// The columns of a job that froze a contract.
pub open spec fn frozen_columns(frozen: JobBillingSnapshot) -> JobBillingRow {
    JobBillingRow {
        contract_version: Some(frozen.contract_version),
        profile_id: Some(frozen.profile_id),
        profile_version: Some(frozen.profile_version),
        profile_fingerprint: Some(frozen.profile_fingerprint),
        model_weights_hash: Some(frozen.model_weights_hash),
        reference_hardware_class: Some(frozen.reference_hardware_class),
        profile_evidence_hash: Some(frozen.profile_evidence_hash),
        profile_valid_from: Some(frozen.profile_valid_from),
        profile_valid_until: Some(frozen.profile_valid_until),
        profile_max_input_tokens: Some(frozen.profile_max_input_tokens),
        profile_max_output_tokens: Some(frozen.profile_max_output_tokens),
        fixed_gpu_time_us: Some(frozen.fixed_gpu_time_us),
        gpu_time_us_per_1k_tokens: Some(frozen.gpu_time_us_per_1k_tokens),
        reference_vram_mib: Some(frozen.reference_vram_mib),
        token_rate_micro_per_1k: Some(frozen.token_rate_micro_per_1k),
        gpu_rate_micro_per_second: Some(frozen.gpu_rate_micro_per_second),
        vram_rate_micro_per_gib_second: Some(frozen.vram_rate_micro_per_gib_second),
        authorized_input_tokens: Some(frozen.authorized_input_tokens),
        authorized_max_output_tokens: Some(frozen.authorized_max_output_tokens),
        billable_tokens: Some(frozen.billable_tokens),
        reference_gpu_time_us: Some(frozen.reference_gpu_time_us),
        reference_vram_mib_microseconds: Some(frozen.reference_vram_mib_microseconds),
        token_cost_micro: Some(frozen.token_cost_micro),
        gpu_cost_micro: Some(frozen.gpu_cost_micro),
        vram_cost_micro: Some(frozen.vram_cost_micro),
        base_cost_micro: Some(frozen.base_cost_micro),
    }
}

/// What was frozen is read back as it was frozen, column by column, and nothing is read
/// where a column is missing.
pub proof fn frozen_contracts_are_read_back(row: JobBillingRow, frozen: JobBillingSnapshot)
    ensures
        row == frozen_columns(frozen) ==> row.complete() && row.snapshot() == frozen,
        row.complete() ==> row == frozen_columns(row.snapshot()),
        row.complete() <==> {
            &&& row.contract_version is Some
            &&& row.profile_id is Some
            &&& row.profile_version is Some
            &&& row.profile_fingerprint is Some
            &&& row.model_weights_hash is Some
            &&& row.reference_hardware_class is Some
            &&& row.profile_evidence_hash is Some
            &&& row.profile_valid_from is Some
            &&& row.profile_valid_until is Some
            &&& row.profile_max_input_tokens is Some
            &&& row.profile_max_output_tokens is Some
            &&& row.fixed_gpu_time_us is Some
            &&& row.gpu_time_us_per_1k_tokens is Some
            &&& row.reference_vram_mib is Some
            &&& row.token_rate_micro_per_1k is Some
            &&& row.gpu_rate_micro_per_second is Some
            &&& row.vram_rate_micro_per_gib_second is Some
            &&& row.authorized_input_tokens is Some
            &&& row.authorized_max_output_tokens is Some
            &&& row.billable_tokens is Some
            &&& row.reference_gpu_time_us is Some
            &&& row.reference_vram_mib_microseconds is Some
            &&& row.token_cost_micro is Some
            &&& row.gpu_cost_micro is Some
            &&& row.vram_cost_micro is Some
            &&& row.base_cost_micro is Some
        },
{
}

/// A contract is whole only if every one of its columns is there.
pub proof fn whole_contracts_lack_nothing(row: JobBillingRow)
    requires
        row.complete(),
    ensures
        row.contract_version is Some && row.profile_id is Some && row.profile_version is Some
            && row.profile_fingerprint is Some && row.model_weights_hash is Some
            && row.reference_hardware_class is Some && row.profile_evidence_hash is Some
            && row.profile_valid_from is Some && row.profile_valid_until is Some,
        row.profile_max_input_tokens is Some && row.profile_max_output_tokens is Some
            && row.fixed_gpu_time_us is Some && row.gpu_time_us_per_1k_tokens is Some
            && row.reference_vram_mib is Some && row.token_rate_micro_per_1k is Some
            && row.gpu_rate_micro_per_second is Some && row.vram_rate_micro_per_gib_second is Some
            && row.authorized_input_tokens is Some && row.authorized_max_output_tokens is Some,
        row.billable_tokens is Some && row.reference_gpu_time_us is Some
            && row.reference_vram_mib_microseconds is Some && row.token_cost_micro is Some
            && row.gpu_cost_micro is Some && row.vram_cost_micro is Some && row.base_cost_micro
            is Some,
{
}

/// A job is settled by its contract exactly if that is of the present kind, whole, and for the
/// tokens of the job; a contract of another kind is told from one that is damaged.
pub proof fn contracts_are_for_their_job(row: JobBillingRow, input: int, output: int)
    ensures
        from_job_row_refusal(row, input, output) is None <==> (row.contract_version matches Some(
            version,
        ) && version@ == "server_reference_upper_bound_v1"@ && row.complete()
            && row.authorized_input_tokens->0 == input && row.authorized_max_output_tokens->0
            == output),
        !(row.contract_version matches Some(version) && version@
            == "server_reference_upper_bound_v1"@) ==> (from_job_row_refusal(row, input, output)
            matches Some(ApiError::Conflict { code, .. }) && code
            == "billing_contract_unavailable"),
{
}

/// Usage within what was authorised costs what was frozen, however little it is; usage beyond is
/// refused.
pub proof fn authorised_usage_costs_what_was_frozen(
    billing: JobBillingSnapshot,
    input: int,
    output: int,
)
    ensures
        input <= billing.authorized_input_tokens && output <= billing.authorized_max_output_tokens
            ==> frozen_base(billing, input, output) == Ok::<i64, ApiError>(billing.base_cost_micro),
        input > billing.authorized_input_tokens || output > billing.authorized_max_output_tokens
            ==> (frozen_base(billing, input, output) matches Err(ApiError::BadRequest { code, .. })
            && code == "usage_exceeds_authorized_limit"),
{
}

/// What is reserved is the price of all authorised tokens, rounded up; it is refused where it
/// cannot be counted, or where there is nothing to reserve for.
pub proof fn reservations_cover_all_authorised_tokens(input: i32, output: i32, price_per_1k: i64)
    ensures
        input < 0 || output <= 0 || price_per_1k <= 0 ==> (reservation_base(
            input as int,
            output as int,
            price_per_1k as int,
        ) matches Err(ApiError::BadRequest { code, .. }) && code == "invalid_usage_limits"),
        input >= 0 && output > 0 && price_per_1k > 0 ==> {
            &&& reservation_base(input as int, output as int, price_per_1k as int) is Ok <==> (input
                + output) * price_per_1k <= 1_000 * i64::MAX
            &&& reservation_base(input as int, output as int, price_per_1k as int) matches Ok(base)
                ==> 1_000 * base >= (input + output) * price_per_1k && 1_000 * (base - 1) < (input
                + output) * price_per_1k
        },
{
    if input >= 0 && output > 0 && price_per_1k > 0 {
        let product = (input + output) * price_per_1k;
        assert(product >= 0) by (nonlinear_arith)
            requires
                product == (input + output) * price_per_1k,
                input >= 0,
                output > 0,
                price_per_1k > 0,
        ;
    }
}

} // verus!
