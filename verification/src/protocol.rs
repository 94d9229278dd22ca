//! Shared protocol vocabulary: response shapes, the opaque error that
//! crosses the service boundary, outcome types for the backing stores,
//! and the session time-to-live.

use vstd::prelude::*;

verus! {

/// Sessions live this many seconds (three days) from their creation or
/// from their most recent refresh.
pub const TTL_SECONDS: u64 = 259200;

/// Outcome of an operation as reported to the caller.
#[derive(Clone, Copy, Debug, PartialEq, Eq, Structural)]
pub enum StatusCode {
    Success,
    Fail,
}

/// Reply to a token-issuance request.
#[derive(Clone, Debug)]
pub struct TokenResponse {
    pub status_code: StatusCode,
    pub token: String,
    pub user_id: u64,
}

/// Reply to a token-validation request.
#[derive(Clone, Copy, Debug, PartialEq, Eq, Structural)]
pub struct AuthResponse {
    pub status_code: StatusCode,
    pub user_id: u64,
}

/// The one error category that crosses the service boundary. Every
/// internal failure — store unreachable, corrupt stored data — collapses
/// into it, so a caller cannot tell which internal condition occurred.
/// The detailed cause is the concern of the call site's own logging.
#[derive(Clone, Copy, Debug, PartialEq, Eq, Structural)]
pub enum ServiceError {
    Unavailable,
}

/// A connectivity or protocol failure reported by the session cache.
/// Carries no detail: the caller has already logged the cause.
#[derive(Clone, Copy, Debug, PartialEq, Eq, Structural)]
pub struct CacheFailure;

/// A connectivity or protocol failure reported by the durable
/// credential store. Carries no detail, as with `CacheFailure`.
#[derive(Clone, Copy, Debug, PartialEq, Eq, Structural)]
pub struct StoreFailure;

/// The rejection reply to an issuance request: `Fail`, an empty token
/// and a zero user id. Unknown usernames and wrong passwords both
/// produce exactly this shape, so the reply carries no
/// username-enumeration signal.
pub open spec fn is_fail_token_response(r: TokenResponse) -> bool {
    &&& r.status_code == StatusCode::Fail
    &&& r.token@ == Seq::<char>::empty()
    &&& r.user_id == 0
}

/// Builds the rejection reply to an issuance request.
pub fn fail_token_response() -> (r: TokenResponse)
    ensures
        is_fail_token_response(r),
{
    TokenResponse { status_code: StatusCode::Fail, token: String::new(), user_id: 0 }
}

/// Collapses a failure to reach the durable store into the opaque
/// service error, passing a success through untouched. The caller has
/// already logged the cause; only the opaque category travels on.
pub fn map_bad_db<T>(outcome: Result<T, StoreFailure>) -> (r: Result<T, ServiceError>)
    ensures
        match outcome {
            Ok(value) => r == Ok::<T, ServiceError>(value),
            Err(_) => r == Err::<T, ServiceError>(ServiceError::Unavailable),
        },
{
    match outcome {
        Ok(value) => Ok(value),
        Err(_) => Err(ServiceError::Unavailable),
    }
}

/// Turns the session cache's answer to an atomic get-and-refresh into
/// the reply of the validation operation: a cached user id means
/// success, an absent or expired entry means failure with user id zero,
/// and a cache failure is surfaced as the opaque service error.
pub fn authenticate_outcome(lookup: Result<Option<u64>, CacheFailure>) -> (r: Result<
    AuthResponse,
    ServiceError,
>)
    ensures
        match lookup {
            Ok(Some(uid)) => r == Ok::<AuthResponse, ServiceError>(
                AuthResponse { status_code: StatusCode::Success, user_id: uid },
            ),
            Ok(None) => r == Ok::<AuthResponse, ServiceError>(
                AuthResponse { status_code: StatusCode::Fail, user_id: 0 },
            ),
            Err(_) => r == Err::<AuthResponse, ServiceError>(ServiceError::Unavailable),
        },
{
    match lookup {
        Ok(Some(uid)) => Ok(AuthResponse { status_code: StatusCode::Success, user_id: uid }),
        Ok(None) => Ok(AuthResponse { status_code: StatusCode::Fail, user_id: 0 }),
        Err(_) => Err(ServiceError::Unavailable),
    }
}

} // verus!
