use vstd::prelude::*;
use crate::errors::ApiError;
use crate::errors::spec_should_retry_error;
use crate::errors::should_retry_error;

verus! {

/// How often one chunk's metadata query may fail before the chunk fails
/// fatally.
pub const MAX_FETCH_RETRIES: u64 = 9;

/// What a failed chunk query leads to.
#[derive(Clone, Copy, Debug, PartialEq, Eq, Structural)]
pub enum FetchErrorAction {
    /// Raise the shared rate limit by the given delay, wait on it, and stay
    /// in the attempt state.
    RateLimitRetry { delay_secs: u64 },
    /// Sleep the fixed short delay and stay in the attempt state.
    DelayedRetry { delay_secs: u64 },
    /// The retry ceiling was exceeded: the chunk fails fatally.
    FailCeiling,
    /// The error is not recoverable: the chunk fails fatally, no retry.
    FailFatal,
}

/// Decides how a chunk's failed metadata query goes on, counting the
/// attempt. Once the attempt count passes the ceiling the chunk fails;
/// below it, throttling escalates the shared rate limit by thirty seconds
/// per attempt made, a malformed response or a request timeout earns a
/// fixed two-second pause, and every other error is fatal at once.
pub fn handle_fetch_error(error: &ApiError, attempts: &mut u64) -> (r: FetchErrorAction)
    requires
        *old(attempts) < u64::MAX,
    ensures
        *final(attempts) == *old(attempts) + 1,
        *old(attempts) + 1 > MAX_FETCH_RETRIES ==> r == FetchErrorAction::FailCeiling,
        *old(attempts) + 1 <= MAX_FETCH_RETRIES && *error is TooManyRequests ==> r == (
        FetchErrorAction::RateLimitRetry { delay_secs: ((*old(attempts) + 1) * 30) as u64 }),
        *old(attempts) + 1 <= MAX_FETCH_RETRIES && !(*error is TooManyRequests)
            && spec_should_retry_error(*error) ==> r == (FetchErrorAction::DelayedRetry {
            delay_secs: 2,
        }),
        *old(attempts) + 1 <= MAX_FETCH_RETRIES && !(*error is TooManyRequests)
            && !spec_should_retry_error(*error) ==> r == FetchErrorAction::FailFatal,
{
    *attempts = *attempts + 1;
    if *attempts > MAX_FETCH_RETRIES {
        FetchErrorAction::FailCeiling
    } else if matches!(error, ApiError::TooManyRequests) {
        FetchErrorAction::RateLimitRetry { delay_secs: *attempts * 30 }
    } else if should_retry_error(error) {
        FetchErrorAction::DelayedRetry { delay_secs: 2 }
    } else {
        FetchErrorAction::FailFatal
    }
}

} // verus!
