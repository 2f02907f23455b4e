use vstd::prelude::*;

verus! {

/// A unit of work: how many ticks of processing it still needs, and how many
/// ticks are left before its deadline passes.
#[derive(Clone, Copy, Debug, PartialEq, Eq, Structural)]
pub struct Request {
    pub remaining_work_ticks: u32,
    pub remaining_timeout_ticks: u32,
}

/// A counter one tick later: one less, and zero stays zero.
pub open spec fn count_down(ticks: u32) -> u32 {
    if ticks == 0 {
        0u32
    } else {
        (ticks - 1) as u32
    }
}

/// The request after one tick spent waiting in the queue.
pub open spec fn waited(r: Request) -> Request {
    Request {
        remaining_work_ticks: r.remaining_work_ticks,
        remaining_timeout_ticks: count_down(r.remaining_timeout_ticks),
    }
}

/// The request after one tick spent on a worker.
pub open spec fn worked(r: Request) -> Request {
    Request {
        remaining_work_ticks: count_down(r.remaining_work_ticks),
        remaining_timeout_ticks: count_down(r.remaining_timeout_ticks),
    }
}

impl Request {
    /// A fresh request with the given processing time and deadline.
    pub fn new(execution_time: u32, timeout: u32) -> (r: Request)
        ensures
            r.remaining_work_ticks == execution_time,
            r.remaining_timeout_ticks == timeout,
    {
        Request { remaining_work_ticks: execution_time, remaining_timeout_ticks: timeout }
    }

    /// One tick passes while the request waits: the deadline comes closer,
    /// the work does not shrink.
    pub fn waiting_tick(&mut self)
        ensures
            *final(self) == waited(*old(self)),
            final(self).remaining_timeout_ticks <= old(self).remaining_timeout_ticks,
    {
        if self.remaining_timeout_ticks != 0 {
            self.remaining_timeout_ticks -= 1;
        }
    }

    /// One tick passes while the request is worked on: the deadline comes
    /// closer and so does completion.
    pub fn working_tick(&mut self)
        ensures
            *final(self) == worked(*old(self)),
            final(self).remaining_timeout_ticks <= old(self).remaining_timeout_ticks,
            final(self).remaining_work_ticks <= old(self).remaining_work_ticks,
    {
        if self.remaining_timeout_ticks != 0 {
            self.remaining_timeout_ticks -= 1;
        }
        if self.remaining_work_ticks != 0 {
            self.remaining_work_ticks -= 1;
        }
    }

    /// Whether the deadline has passed.
    pub fn is_timed_out(&self) -> (b: bool)
        ensures
            b == (self.remaining_timeout_ticks == 0),
    {
        self.remaining_timeout_ticks == 0
    }

    /// Whether no work is left.
    pub fn is_done(&self) -> (b: bool)
        ensures
            b == (self.remaining_work_ticks == 0),
    {
        self.remaining_work_ticks == 0
    }
}

/// Neither counter of a request ever grows, whether it waits or is worked
/// on, and a counter that has reached zero stays there.
pub proof fn lemma_counters_never_grow(r: Request)
    ensures
        waited(r).remaining_work_ticks == r.remaining_work_ticks,
        waited(r).remaining_timeout_ticks <= r.remaining_timeout_ticks,
        worked(r).remaining_work_ticks <= r.remaining_work_ticks,
        worked(r).remaining_timeout_ticks <= r.remaining_timeout_ticks,
        r.remaining_timeout_ticks == 0 ==> waited(r).remaining_timeout_ticks == 0 && worked(
            r,
        ).remaining_timeout_ticks == 0,
        r.remaining_work_ticks == 0 ==> worked(r).remaining_work_ticks == 0,
{
}

} // verus!
