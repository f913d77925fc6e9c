//! The keys with which programs use the inference endpoints.

use vstd::prelude::*;

use crate::error::ApiError;

verus! {

/// How many keys are listed at most.
pub const LISTED_KEYS: i64 = 200;

/// A key is created under a name that is not in use. `created` says whether one was.
pub fn check_created(created: bool) -> (checked: Result<(), ApiError>)
    ensures
        checked == if created {
            Ok::<(), ApiError>(())
        } else {
            Err::<(), ApiError>(
                ApiError::conflict(
                    "api_key_name_exists",
                    "同名 API Key 已存在；请更换名称或先撤销旧 Key",
                ),
            )
        },
{
    if !created {
        return Err(
            ApiError::conflict(
                "api_key_name_exists",
                "同名 API Key 已存在；请更换名称或先撤销旧 Key",
            ),
        );
    }
    Ok(())
}

/// Decides whether revoking a key changes anything: not if it was revoked before. `None`
/// stands for a key that the account does not have; otherwise the time of its revocation
/// is given, if there is one.
pub fn plan_revocation(revoked_at: Option<Option<i128>>) -> (revoked: Result<bool, ApiError>)
    ensures
        revoked == match revoked_at {
            None => Err::<bool, ApiError>(ApiError::not_found("API Key")),
            Some(revoked_at) => Ok::<bool, ApiError>(revoked_at is None),
        },
{
    match revoked_at {
        None => Err(ApiError::not_found("API Key")),
        Some(revoked_at) => Ok(revoked_at.is_none()),
    }
}

} // verus!
