//! Status codes and the response envelope that the host service returns.

use vstd::prelude::*;
use crate::error::{error_text, StatsError};

verus! {

#[verifier::external_type_specification]
#[verifier::external_body]
pub struct ExValue(serde_json::Value);

pub const MESSAGE_USER_EXISTS: &'static str = "user exists";
pub const MESSAGE_USER_NOT_FOUND: &'static str = "user not found";
pub const MESSAGE_INTERNAL_SERVER_ERROR: &'static str = "internal server error";
pub const MESSAGE_TOO_MANY_REQUESTS: &'static str = "too many requests";

/// The outcome classes that the service reports.
#[derive(Clone, Copy, PartialEq, Eq, Structural, Debug)]
pub enum ApiStatus {
    Success,
    Created,
    BadRequest,
    Unauthorized,
    Forbidden,
    NotFound,
    TooManyRequests,
    InternalServerError,
}

pub open spec fn status_code(s: ApiStatus) -> u16 {
    match s {
        ApiStatus::Success => 200,
        ApiStatus::Created => 201,
        ApiStatus::BadRequest => 400,
        ApiStatus::Unauthorized => 401,
        ApiStatus::Forbidden => 403,
        ApiStatus::NotFound => 404,
        ApiStatus::TooManyRequests => 429,
        ApiStatus::InternalServerError => 500,
    }
}

pub open spec fn status_text(s: ApiStatus) -> Seq<char> {
    match s {
        ApiStatus::Success => "ok"@,
        ApiStatus::Created => "created"@,
        ApiStatus::BadRequest => "bad request"@,
        ApiStatus::Unauthorized => "unauthorized"@,
        ApiStatus::Forbidden => "forbidden"@,
        ApiStatus::NotFound => "not found"@,
        ApiStatus::TooManyRequests => "too many requests"@,
        ApiStatus::InternalServerError => "internal server error"@,
    }
}

impl ApiStatus {
    /// The HTTP status code.
    pub fn code(&self) -> (r: u16)
        ensures
            r == status_code(*self),
    {
        match self {
            ApiStatus::Success => 200,
            ApiStatus::Created => 201,
            ApiStatus::BadRequest => 400,
            ApiStatus::Unauthorized => 401,
            ApiStatus::Forbidden => 403,
            ApiStatus::NotFound => 404,
            ApiStatus::TooManyRequests => 429,
            ApiStatus::InternalServerError => 500,
        }
    }

    /// The status word that the envelope carries.
    pub fn text(&self) -> (r: &'static str)
        ensures
            r@ == status_text(*self),
    {
        match self {
            ApiStatus::Success => "ok",
            ApiStatus::Created => "created",
            ApiStatus::BadRequest => "bad request",
            ApiStatus::Unauthorized => "unauthorized",
            ApiStatus::Forbidden => "forbidden",
            ApiStatus::NotFound => "not found",
            ApiStatus::TooManyRequests => "too many requests",
            ApiStatus::InternalServerError => "internal server error",
        }
    }
}

/// The body of every answer.
pub struct Response {
    pub status: String,
    pub message: String,
    pub data: Option<serde_json::Value>,
}

/// A body together with its HTTP status code.
pub struct ResponseWithStatus {
    pub status_code: u16,
    pub response: Response,
}

impl ResponseWithStatus {
    pub fn new(status: ApiStatus, message: String, data: Option<serde_json::Value>) -> (r: ResponseWithStatus)
        ensures
            r.status_code == status_code(status),
            r.response.status@ == status_text(status),
            r.response.message == message,
            r.response.data == data,
    {
        ResponseWithStatus {
            status_code: status.code(),
            response: Response { status: String::from_str(status.text()), message, data },
        }
    }
}

/// The envelope of a statistics query: the reports with `Ok` and `user
/// exists`, or `NotFound` with the failure's description and the queried
/// name.
pub fn stats_response(outcome: Result<serde_json::Value, StatsError>, name: &str) -> (r: ResponseWithStatus)
    ensures
        r.status_code == (if outcome is Ok { 200u16 } else { 404u16 }),
        outcome is Ok ==> r.response.status@ == "ok"@ && r.response.message@ == MESSAGE_USER_EXISTS@
            && r.response.data == Some(outcome->Ok_0),
        outcome matches Err(e) ==> r.response.status@ == "not found"@ && r.response.message@
            == error_text(e) + ": "@ + name@ && r.response.data is None,
{
    match outcome {
        Ok(v) => ResponseWithStatus::new(ApiStatus::Success, String::from_str(MESSAGE_USER_EXISTS), Some(v)),
        Err(e) => ResponseWithStatus::new(ApiStatus::NotFound, e.message_for(name), None),
    }
}

/// A fixed answer for a status with its message, as the error catchers give.
pub fn status_only(status: ApiStatus, message: &str) -> (r: ResponseWithStatus)
    ensures
        r.status_code == status_code(status),
        r.response.status@ == status_text(status),
        r.response.message@ == message@,
        r.response.data is None,
{
    ResponseWithStatus::new(status, String::from_str(message), None)
}

/// The request quota of the rate limiter.
pub struct RateLimitGuard;

pub const REQUESTS_PER_MINUTE: u32 = 5;

impl RateLimitGuard {
    /// Requests that one client may make per minute.
    pub fn quota_per_minute() -> (r: u32)
        ensures
            r == REQUESTS_PER_MINUTE,
            r > 0,
    {
        REQUESTS_PER_MINUTE
    }
}

} // verus!
