//! Moments in time, held as nanoseconds since the Unix epoch.

use vstd::prelude::*;

use crate::error::ApiError;

verus! {

pub const NANOS_PER_SECOND: i128 = 1_000_000_000;

/// The last moment of the year 9999, after which the calendar of the coordinator
/// ends.
pub const MAX_MOMENT: i128 = 253_402_300_799_999_999_999;

/// The first moment of the year -9999, before which the calendar does not go.
pub const MIN_MOMENT: i128 = -377_705_116_800_000_000_000;

/// A moment that the calendar has.
pub open spec fn is_moment(moment: i128) -> bool {
    MIN_MOMENT <= moment <= MAX_MOMENT
}

/// The moment some seconds after another, or an internal error where the calendar
/// ends before it.
pub open spec fn moment_after(now: i128, seconds: int) -> Result<i128, ApiError> {
    if seconds <= i64::MAX && now + seconds * NANOS_PER_SECOND <= MAX_MOMENT {
        Ok((now + seconds * NANOS_PER_SECOND) as i128)
    } else {
        Err(ApiError::internal())
    }
}

/// When something that starts now and lasts this long expires.
pub fn expiry(now: i128, duration_seconds: u64) -> (expires_at: Result<i128, ApiError>)
    requires
        is_moment(now),
    ensures
        expires_at == moment_after(now, duration_seconds as int),
{
    if duration_seconds > i64::MAX as u64 {
        return Err(ApiError::internal());
    }
    let expires_at: i128 = now + duration_seconds as i128 * NANOS_PER_SECOND;
    if expires_at > MAX_MOMENT {
        return Err(ApiError::internal());
    }
    Ok(expires_at)
}

/// A moment moves by whole seconds, of a thousand million nanoseconds each, as long as it
/// stays within the years that can be written; beyond them there is none.
pub proof fn moments_move_by_seconds(now: i128, seconds: u64)
    requires
        is_moment(now),
    ensures
        now + seconds * 1_000_000_000 <= 253_402_300_799_999_999_999 ==> (moment_after(
            now,
            seconds as int,
        ) matches Ok(moment) && moment - now == seconds * 1_000_000_000 && is_moment(moment)),
        now + seconds * 1_000_000_000 > 253_402_300_799_999_999_999 ==> moment_after(
            now,
            seconds as int,
        ) is Err,
{
}

} // verus!
