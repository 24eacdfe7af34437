use vstd::prelude::*;

verus! {

/// Cooperative backoff gate shared by every concurrent operation of one
/// pipeline run.
///
/// The state is a single optional absolute wake time ("locked until", in
/// seconds on the driver's clock). Any caller may raise the deadline; any
/// caller may ask whether it must still wait. Raising the deadline never
/// moves it backward, so N concurrent backoffs collapse into one global
/// pause instead of a thundering herd on recovery.
///
/// The driver supplies the current clock reading to every call; this type
/// itself never reads a clock and never sleeps.
pub struct RateLimiter {
    deadline: Option<u64>,
}

/// The deadline that one `set_rate_limit(now, duration_secs)` call leaves
/// behind: the later of the current deadline and `now + duration_secs`.
pub open spec fn raised_deadline(current: Option<u64>, now: u64, duration_secs: u64) -> int {
    let target = now + duration_secs;
    match current {
        Some(t) => if t >= target { t as int } else { target },
        None => target,
    }
}

/// The deadline after a whole sequence of `set_rate_limit` calls, each call
/// given as a `(now, duration_secs)` pair, starting from no deadline.
pub open spec fn deadline_after(calls: Seq<(u64, u64)>) -> Option<int>
    decreases calls.len(),
{
    if calls.len() == 0 {
        None
    } else {
        let prev = deadline_after(calls.drop_last());
        let last = calls.last();
        match prev {
            None => Some(last.0 + last.1),
            Some(t) => if t >= last.0 + last.1 { Some(t) } else { Some(last.0 + last.1) },
        }
    }
}

/// Order on optional deadlines: no deadline is below every deadline.
pub open spec fn deadline_le(a: Option<int>, b: Option<int>) -> bool {
    match a {
        None => true,
        Some(ta) => match b {
            None => false,
            Some(tb) => ta <= tb,
        },
    }
}

impl RateLimiter {
    /// The current "locked until" time, if one is set.
    pub closed spec fn deadline(&self) -> Option<u64> {
        self.deadline
    }

    /// A fresh limiter has no deadline: the first waiter passes immediately.
    pub fn new() -> (r: RateLimiter)
        ensures
            r.deadline() is None,
    {
        RateLimiter { deadline: None }
    }

    /// Raises the shared wake time to `now + duration_secs`, unless an even
    /// later deadline is already set; never lowers it.
    pub fn set_rate_limit(&mut self, now: u64, duration_secs: u64)
        requires
            now + duration_secs <= u64::MAX,
        ensures
            final(self).deadline() == Some(
                (raised_deadline(old(self).deadline(), now, duration_secs)) as u64,
            ),
            deadline_le(
                deadline_of(old(self).deadline()),
                deadline_of(final(self).deadline()),
            ),
    {
        let target = now + duration_secs;
        match self.deadline {
            Some(t) if t >= target => {},
            _ => {
                self.deadline = Some(target);
            },
        }
    }

    /// Asks whether the caller must still wait at clock reading `now`.
    ///
    /// Returns the wake time while a deadline is set and still in the
    /// future, and `None` otherwise — in particular, immediately `None`
    /// when no limit was ever set. A waiting task must sleep until the
    /// returned time and then ask again: another task may have raised the
    /// deadline meanwhile.
    pub fn wait_if_limited(&self, now: u64) -> (r: Option<u64>)
        ensures
            r is None <==> (self.deadline() is None || self.deadline()->0 <= now),
            r is Some ==> self.deadline() == r && r->0 > now,
    {
        match self.deadline {
            Some(t) if t > now => Some(t),
            _ => None,
        }
    }
}

/// Widens an optional `u64` deadline to the mathematical order used by
/// `deadline_le`.
pub open spec fn deadline_of(d: Option<u64>) -> Option<int> {
    match d {
        None => None,
        Some(t) => Some(t as int),
    }
}

/// The effective wake time is monotonically non-decreasing over any
/// sequence of `set_rate_limit` calls: a waiter is never released earlier
/// than a deadline that was already set. Every prefix of the call sequence
/// leaves a deadline no later than every longer prefix.
pub proof fn lemma_deadline_monotone(calls: Seq<(u64, u64)>, i: int, j: int)
    requires
        0 <= i <= j <= calls.len(),
    ensures
        deadline_le(deadline_after(calls.take(i)), deadline_after(calls.take(j))),
    decreases j - i,
{
    if i < j {
        lemma_deadline_monotone(calls, i, j - 1);
        assert(calls.take(j).drop_last() =~= calls.take(j - 1));
    }
}

/// One `set_rate_limit` call moves the model deadline exactly as
/// `deadline_after` moves it: appending the call to the history raises the
/// folded deadline to `raised_deadline` of the previous one.
pub proof fn lemma_deadline_after_step(calls: Seq<(u64, u64)>, now: u64, duration_secs: u64)
    ensures
        deadline_after(calls.push((now, duration_secs))) == Some(
            match deadline_after(calls) {
                None => now + duration_secs,
                Some(t) => if t >= now + duration_secs { t } else { now + duration_secs },
            },
        ),
{
    assert(calls.push((now, duration_secs)).drop_last() =~= calls);
}

} // verus!
