//! The errors that the coordinator answers with.

use vstd::prelude::*;

verus! {

/// Why a request is refused. Most messages are fixed texts; those that come from
/// elsewhere are held as a `detail`.
#[derive(Debug, PartialEq, Eq)]
pub enum ApiError {
    /// The request itself is wrong.
    BadRequest { code: &'static str, message: &'static str },
    /// The request itself is wrong, for a reason that its reader gave.
    BadRequestReason { code: &'static str, detail: String },
    /// The caller could not be identified.
    Authentication { message: &'static str },
    /// The caller may not do this.
    Forbidden { message: &'static str },
    /// What the request names does not exist.
    NotFound { resource: &'static str },
    /// The request does not fit the present state.
    Conflict { code: &'static str, message: &'static str },
    /// The policy of a node refuses the work.
    PolicyRejected { message: &'static str },
    /// The policy of a node refuses the work, for a reason that the policy gave.
    PolicyReason { detail: String },
    /// Evidence of the hardware was found wanting.
    AttestationFailed { message: &'static str },
    /// Evidence of the hardware was found wanting, for a reason that is told.
    AttestationReason { detail: String },
    /// No hardware with usable evidence is at hand.
    AttestationUnavailable { message: &'static str },
    /// The account does not cover the reservation.
    InsufficientQuota,
    /// The request looks like abuse.
    AntiAbuseBlocked,
    /// The service cannot answer now.
    Unavailable { code: &'static str, message: &'static str },
    /// The service cannot answer, for a reason that was reported to it.
    Reported { code: &'static str, detail: String },
    /// The answer did not come in time.
    GatewayTimeout { message: &'static str },
    /// The stored state is not what the coordinator itself writes.
    Internal,
}

impl ApiError {
    #[verifier::allow_in_spec]
    pub fn bad_request(code: &'static str, message: &'static str) -> ApiError
        returns
            (ApiError::BadRequest { code, message }),
    {
        ApiError::BadRequest { code, message }
    }

    #[verifier::allow_in_spec]
    pub fn authentication(message: &'static str) -> ApiError
        returns
            (ApiError::Authentication { message }),
    {
        ApiError::Authentication { message }
    }

    #[verifier::allow_in_spec]
    pub fn forbidden(message: &'static str) -> ApiError
        returns
            (ApiError::Forbidden { message }),
    {
        ApiError::Forbidden { message }
    }

    #[verifier::allow_in_spec]
    pub fn not_found(resource: &'static str) -> ApiError
        returns
            (ApiError::NotFound { resource }),
    {
        ApiError::NotFound { resource }
    }

    #[verifier::allow_in_spec]
    pub fn conflict(code: &'static str, message: &'static str) -> ApiError
        returns
            (ApiError::Conflict { code, message }),
    {
        ApiError::Conflict { code, message }
    }

    #[verifier::allow_in_spec]
    pub fn policy_rejected(message: &'static str) -> ApiError
        returns
            (ApiError::PolicyRejected { message }),
    {
        ApiError::PolicyRejected { message }
    }

    #[verifier::allow_in_spec]
    pub fn attestation_failed(message: &'static str) -> ApiError
        returns
            (ApiError::AttestationFailed { message }),
    {
        ApiError::AttestationFailed { message }
    }

    #[verifier::allow_in_spec]
    pub fn attestation_unavailable(message: &'static str) -> ApiError
        returns
            (ApiError::AttestationUnavailable { message }),
    {
        ApiError::AttestationUnavailable { message }
    }

    #[verifier::allow_in_spec]
    pub fn insufficient_quota() -> ApiError
        returns
            ApiError::InsufficientQuota,
    {
        ApiError::InsufficientQuota
    }

    #[verifier::allow_in_spec]
    pub fn anti_abuse_blocked() -> ApiError
        returns
            ApiError::AntiAbuseBlocked,
    {
        ApiError::AntiAbuseBlocked
    }

    #[verifier::allow_in_spec]
    pub fn unavailable(code: &'static str, message: &'static str) -> ApiError
        returns
            (ApiError::Unavailable { code, message }),
    {
        ApiError::Unavailable { code, message }
    }

    #[verifier::allow_in_spec]
    pub fn gateway_timeout(message: &'static str) -> ApiError
        returns
            (ApiError::GatewayTimeout { message }),
    {
        ApiError::GatewayTimeout { message }
    }

    #[verifier::allow_in_spec]
    pub fn internal() -> ApiError
        returns
            ApiError::Internal,
    {
        ApiError::Internal
    }
}

/// A value, unless there is a reason to refuse it.
pub open spec fn unless<T>(refusal: Option<ApiError>, value: T) -> Result<T, ApiError> {
    match refusal {
        Some(error) => Err(error),
        None => Ok(value),
    }
}

/// The reason for which a result is an error, if it is one.
pub open spec fn refusal<T>(result: Result<T, ApiError>) -> Option<ApiError> {
    match result {
        Ok(_) => None,
        Err(error) => Some(error),
    }
}

/// A value comes exactly where nothing refuses it, and a refusal is handed on as it is.
pub proof fn refusals_are_handed_on<T>(found: Option<ApiError>, value: T)
    ensures
        unless(found, value) is Ok <==> found is None,
        found is None ==> unless(found, value) == Ok::<T, ApiError>(value),
        found matches Some(error) ==> unless(found, value) == Err::<T, ApiError>(error),
        refusal(unless(found, value)) == found,
{
}

} // verus!
