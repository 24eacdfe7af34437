use vstd::prelude::*;

verus! {

/// Counting admission gate for the upload tasks: at most `limit` tasks
/// hold a slot at once. A task acquires a slot before its first remote
/// call and releases it when it finishes, on every exit path.
///
/// The driver realizes admission with its concurrency primitive; this model
/// carries the bound that primitive must keep, and the decision of whether
/// one more task may enter.
pub struct AdmissionGate {
    limit: u64,
    held: u64,
}

impl AdmissionGate {
    /// The configured concurrency bound.
    pub closed spec fn spec_limit(&self) -> u64 {
        self.limit
    }

    /// How many tasks hold a slot now.
    pub closed spec fn spec_held(&self) -> u64 {
        self.held
    }

    /// The invariant: the holders never exceed the bound.
    pub open spec fn inv(&self) -> bool {
        self.spec_held() <= self.spec_limit()
    }

    /// A fresh gate with the given bound and no holders.
    pub fn new(limit: u64) -> (r: AdmissionGate)
        requires
            limit >= 1,
        ensures
            r.inv(),
            r.spec_limit() == limit,
            r.spec_held() == 0,
    {
        AdmissionGate { limit, held: 0 }
    }

    /// Admits the caller exactly when a slot is free; a refused caller must
    /// wait and ask again.
    pub fn try_acquire(&mut self) -> (admitted: bool)
        requires
            old(self).inv(),
        ensures
            final(self).inv(),
            final(self).spec_limit() == old(self).spec_limit(),
            admitted == (old(self).spec_held() < old(self).spec_limit()),
            admitted ==> final(self).spec_held() == old(self).spec_held() + 1,
            !admitted ==> final(self).spec_held() == old(self).spec_held(),
    {
        if self.held < self.limit {
            self.held = self.held + 1;
            true
        } else {
            false
        }
    }

    /// Returns the caller's slot.
    pub fn release(&mut self)
        requires
            old(self).inv(),
            old(self).spec_held() >= 1,
        ensures
            final(self).inv(),
            final(self).spec_limit() == old(self).spec_limit(),
            final(self).spec_held() == old(self).spec_held() - 1,
    {
        self.held = self.held - 1;
    }
}

/// One step of an admission history, as the driver sees it.
#[derive(Clone, Copy, Debug, PartialEq, Eq, Structural)]
pub enum GateEvent {
    /// A task asked for a slot (and entered if one was free).
    Acquire,
    /// A task returned its slot.
    Release,
}

/// The number of slot holders after a history of gate events, starting
/// from an idle gate with the given bound.
pub open spec fn gate_run(limit: u64, events: Seq<GateEvent>) -> nat
    decreases events.len(),
{
    if events.len() == 0 {
        0
    } else {
        let prev = gate_run(limit, events.drop_last());
        match events.last() {
            GateEvent::Acquire => if prev < limit {
                prev + 1
            } else {
                prev
            },
            GateEvent::Release => if prev > 0 {
                (prev - 1) as nat
            } else {
                prev
            },
        }
    }
}

/// One event moves the holder count exactly as `try_acquire` and `release`
/// move it: an acquire enters when a slot is free, a release returns one
/// when any is held.
pub proof fn lemma_gate_run_step(limit: u64, events: Seq<GateEvent>, event: GateEvent)
    ensures
        gate_run(limit, events.push(event)) == ({
            let prev = gate_run(limit, events);
            match event {
                GateEvent::Acquire => if prev < limit {
                    prev + 1
                } else {
                    prev
                },
                GateEvent::Release => if prev > 0 {
                    (prev - 1) as nat
                } else {
                    prev
                },
            }
        }),
{
    assert(events.push(event).drop_last() =~= events);
}

/// Admission never lets more holders in than the bound: after any history of
/// acquire and release events, for any bound, the number of concurrent
/// slot holders stays at or below the bound — and since this holds of
/// every history, it holds at every moment of a run.
pub proof fn lemma_gate_never_exceeds(limit: u64, events: Seq<GateEvent>)
    ensures
        gate_run(limit, events) <= limit,
    decreases events.len(),
{
    if events.len() > 0 {
        lemma_gate_never_exceeds(limit, events.drop_last());
    }
}

} // verus!
