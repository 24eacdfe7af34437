use vstd::prelude::*;

verus! {

/// Closed taxonomy of the errors a remote call can surface.
///
/// The driver maps every concrete transport or service error onto one of
/// these tags before handing it to the decision logic, so classification
/// below is a pure match over the tag.
#[derive(Clone, Copy, Debug, PartialEq, Eq, Structural)]
pub enum ApiError {
    /// Upstream signals throttling; recoverable through the shared backoff.
    TooManyRequests,
    /// The response body could not be understood.
    MalformedResponse,
    /// The request ran into its own timeout.
    Timeout,
    /// The request was rejected, typically for missing authorization scope.
    BadRequest,
    /// The service failed internally; retryable for uploads.
    InternalServerError,
    /// Anything else; never retried.
    Other,
}

/// Why resolving an asset's authorization context (or a whole chunk) failed.
#[derive(Clone, Copy, Debug, PartialEq, Eq, Structural)]
pub enum ResolveError {
    /// The ownership descriptor named neither an individual nor a
    /// collective owner; fatal for this asset only.
    NoOwner,
    /// A remote error other than throttling ended this asset's resolution;
    /// carries the tag and the number of attempts that had been made.
    Fatal { error: ApiError, attempts: u64 },
    /// The chunk's retry ceiling was exceeded; aborts the enclosing call.
    RetryCeilingExceeded,
    /// No asset of the batch yielded a seed context; aborts the enclosing
    /// call.
    NoSeedContext,
}

/// Whether a batch-fetch error is worth a plain delayed retry: only a
/// malformed response or a request timeout is; throttling is handled by the
/// shared rate limiter instead, and everything else is fatal.
pub open spec fn spec_should_retry_error(error: ApiError) -> bool {
    error is MalformedResponse || error is Timeout
}

/// Determines if an error should trigger a retry.
pub fn should_retry_error(error: &ApiError) -> (r: bool)
    ensures
        r == spec_should_retry_error(*error),
{
    match error {
        ApiError::MalformedResponse => true,
        ApiError::Timeout => true,
        _ => false,
    }
}

/// Whether an upload error escalates the shared rate limit: throttling and
/// server-side failures do, and both then share the same backoff.
pub open spec fn spec_escalates_rate_limit(error: ApiError) -> bool {
    error is TooManyRequests || error is InternalServerError
}

/// Tells whether a failed upload attempt must raise the shared deadline
/// before the next try.
pub fn escalates_rate_limit(error: &ApiError) -> (r: bool)
    ensures
        r == spec_escalates_rate_limit(*error),
{
    match error {
        ApiError::TooManyRequests => true,
        ApiError::InternalServerError => true,
        _ => false,
    }
}

} // verus!
