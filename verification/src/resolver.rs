use vstd::prelude::*;
use crate::errors::ApiError;
use crate::errors::ResolveError;

verus! {

/// What the remote ownership descriptor names for one asset: an individual
/// owner, a collective owner, neither, or both (the individual then wins).
#[derive(Clone, Copy, Debug, PartialEq, Eq, Structural)]
pub struct OwnershipInfo {
    pub user_id: Option<u64>,
    pub group_id: Option<u64>,
}

/// The owner an asset's authorization context is resolved through. Each
/// variant stands for a different remote resolution call.
#[derive(Clone, Copy, Debug, PartialEq, Eq, Structural)]
pub enum OwnerRef {
    User(u64),
    Group(u64),
}

/// Chooses the resolution branch for an asset: exactly one of the two
/// owner kinds is taken — the individual when present, else the
/// collective — and a descriptor naming neither fails with the no-owner
/// resolution failure.
pub fn owner_of(info: &OwnershipInfo) -> (r: Result<OwnerRef, ResolveError>)
    ensures
        info.user_id is Some ==> r == Ok::<OwnerRef, ResolveError>(
            OwnerRef::User(info.user_id->0),
        ),
        info.user_id is None && info.group_id is Some ==> r == Ok::<OwnerRef, ResolveError>(
            OwnerRef::Group(info.group_id->0),
        ),
        info.user_id is None && info.group_id is None ==> r == Err::<OwnerRef, ResolveError>(
            ResolveError::NoOwner,
        ),
{
    match info.user_id {
        Some(user_id) => Ok(OwnerRef::User(user_id)),
        None => match info.group_id {
            Some(group_id) => Ok(OwnerRef::Group(group_id)),
            None => Err(ResolveError::NoOwner),
        },
    }
}

/// What a failed remote context lookup leads to.
#[derive(Clone, Copy, Debug, PartialEq, Eq, Structural)]
pub enum PlaceFetchAction {
    /// Raise the shared rate limit by the given delay, wait on it, and try
    /// again; context resolution has no retry ceiling.
    RateLimitRetry { delay_secs: u64 },
    /// Any other remote error ends this asset's resolution, surfaced as a
    /// fatal resolution failure annotated with the attempt count.
    Fail { failure: ResolveError },
}

/// Decides how a failed context-lookup attempt goes on. Throttling is
/// retried forever under the shared backoff, with a base delay plus a
/// small attempt-keyed jitter; any other error is fatal for this asset.
pub fn place_fetch_retry_action(error: &ApiError, attempt: u64) -> (r: PlaceFetchAction)
    ensures
        *error is TooManyRequests ==> r == (PlaceFetchAction::RateLimitRetry {
            delay_secs: (4 + attempt % 10) as u64,
        }),
        !(*error is TooManyRequests) ==> r == (PlaceFetchAction::Fail {
            failure: ResolveError::Fatal { error: *error, attempts: attempt },
        }),
{
    match error {
        ApiError::TooManyRequests => PlaceFetchAction::RateLimitRetry {
            delay_secs: 4 + attempt % 10,
        },
        _ => PlaceFetchAction::Fail {
            failure: ResolveError::Fatal { error: *error, attempts: attempt },
        },
    }
}

/// The first resolved context of a sequence of per-asset outcomes.
pub open spec fn first_some(s: Seq<Option<u64>>) -> Option<u64>
    decreases s.len(),
{
    if s.len() == 0 {
        None
    } else if s[0] is Some {
        s[0]
    } else {
        first_some(s.drop_first())
    }
}

/// Picks the seed context for a whole chunk from the per-asset resolution
/// outcomes, tried in the caller-supplied order: the first asset that
/// resolved wins, individual failures are swallowed, and if no asset
/// resolved the whole chunk's resolution fails.
pub fn first_seed_context(outcomes: &Vec<Option<u64>>) -> (r: Result<u64, ResolveError>)
    ensures
        first_some(outcomes@) is Some ==> r == Ok::<u64, ResolveError>(
            first_some(outcomes@)->0,
        ),
        first_some(outcomes@) is None ==> r == Err::<u64, ResolveError>(
            ResolveError::NoSeedContext,
        ),
{
    let mut i: usize = 0;
    proof {
        assert(outcomes@.skip(0) =~= outcomes@);
    }
    while i < outcomes.len()
        invariant
            i <= outcomes@.len(),
            first_some(outcomes@) == first_some(outcomes@.skip(i as int)),
            forall|t: int| 0 <= t < i ==> outcomes@[t] is None,
        decreases outcomes@.len() - i,
    {
        if let Some(context_id) = outcomes[i] {
            proof {
                assert(outcomes@.skip(i as int)[0] == outcomes@[i as int]);
            }
            return Ok(context_id);
        }
        proof {
            assert(outcomes@.skip(i as int)[0] == outcomes@[i as int]);
            assert(outcomes@.skip(i as int).drop_first() =~= outcomes@.skip(i + 1 as int));
        }
        i = i + 1;
    }
    proof {
        assert(outcomes@.skip(outcomes@.len() as int).len() == 0);
    }
    Err(ResolveError::NoSeedContext)
}

} // verus!
