//! Whether the service is there, and whether it can work.

use vstd::prelude::*;

use crate::error::ApiError;

verus! {

pub const SERVICE: &'static str = "mindone-coordinator";

pub const VERSION: &'static str = "0.1.0";

#[derive(Clone, Copy, Debug, PartialEq, Eq)]
pub struct HealthResponse {
    pub status: &'static str,
    pub service: &'static str,
    pub version: &'static str,
}

/// The service is there.
pub fn health() -> (response: HealthResponse)
    ensures
        response.status@ == "ok"@,
        response.service@ == SERVICE@,
        response.version@ == VERSION@,
{
    HealthResponse { status: "ok", service: SERVICE, version: VERSION }
}

/// The service can work, if the database answers.
pub fn ready(database_answers: bool) -> (response: Result<HealthResponse, ApiError>)
    ensures
        match response {
            Ok(response) => {
                &&& database_answers
                &&& response.status@ == "ready"@
                &&& response.service@ == SERVICE@
                &&& response.version@ == VERSION@
            },
            Err(refused) => {
                &&& !database_answers
                &&& refused == ApiError::unavailable("database_not_ready", "数据库尚未就绪")
            },
        },
{
    if !database_answers {
        return Err(ApiError::unavailable("database_not_ready", "数据库尚未就绪"));
    }
    Ok(HealthResponse { status: "ready", service: SERVICE, version: VERSION })
}

} // verus!
