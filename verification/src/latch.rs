//! Jobs that are ordered once, however often they are asked for.
use vstd::prelude::*;

verus! {

/// A job that waits to be run is not ordered a second time.
#[derive(Clone, Copy, Debug, PartialEq, Eq, Structural)]
pub struct Latch {
    pub pending: bool,
}

impl Latch {
    /// Nothing waits.
    pub fn new() -> (latch: Latch)
        ensures
            !latch.pending,
    {
        Latch { pending: false }
    }

    /// The job was asked for; `order` says whether it has to be ordered.
    pub open spec fn asked(self, after: Latch, order: bool) -> bool {
        order == !self.pending && after.pending
    }

    /// Asks for the job; says whether it has to be ordered now.
    pub fn request(&mut self) -> (order: bool)
        ensures
            old(self).asked(*final(self), order),
    {
        let order = !self.pending;
        self.pending = true;
        order
    }

    /// Takes note that the job runs, or that it could not be ordered.
    pub fn release(&mut self)
        ensures
            !final(self).pending,
    {
        self.pending = false;
    }
}

/// Asked for any number of times without a run between, a job is ordered by
/// the first request alone, and only when it did not wait already. Behind the
/// requests it waits.
pub proof fn waiting_jobs_are_ordered_once(states: Seq<Latch>, orders: Seq<bool>)
    requires
        orders.len() > 0,
        states.len() == orders.len() + 1,
        forall|i: int| 0 <= i < orders.len() ==> states[i].asked(states[i + 1], #[trigger] orders[i]),
    ensures
        orders[0] == !states[0].pending,
        forall|i: int| 0 < i < orders.len() ==> !#[trigger] orders[i],
        states.last().pending,
{
    assert forall|i: int| 0 < i < orders.len() implies !#[trigger] orders[i] by {
        let earlier = orders[i - 1];
        assert(states[i - 1].asked(states[i - 1 + 1], earlier));
    }
    let last = orders[orders.len() - 1];
    assert(states[orders.len() - 1].asked(states[orders.len() - 1 + 1], last));
}

/// Once a job has run, or could not be ordered, the next request orders it
/// again.
pub proof fn finished_jobs_are_ordered_again(finished: Latch, after: Latch, order: bool)
    requires
        !finished.pending,
        finished.asked(after, order),
    ensures
        order,
{
}

} // verus!
