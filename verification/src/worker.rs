use crate::request::{worked, Request};
use std::collections::VecDeque;
use vstd::prelude::*;

verus! {

/// One unit of serving capacity: idle, or busy with exactly one request.
#[derive(Clone, Copy, Debug)]
pub struct Worker {
    pub current_request: Option<Request>,
}

/// The request that a tick takes out of the queue: the oldest one under
/// first-in-first-out, the newest one under last-in-first-out.
pub open spec fn next_in_line(queue: Seq<Request>, lifo: bool) -> Request
    recommends
        queue.len() > 0,
{
    if lifo {
        queue[queue.len() - 1]
    } else {
        queue[0]
    }
}

/// The queue once `next_in_line` has left it.
pub open spec fn rest_of_line(queue: Seq<Request>, lifo: bool) -> Seq<Request>
    recommends
        queue.len() > 0,
{
    if lifo {
        queue.subrange(0, queue.len() - 1)
    } else {
        queue.subrange(1, queue.len() as int)
    }
}

/// The request that a worker hands back at a tick: the one it held, one tick
/// further, if that tick used up its work. An idle worker hands back nothing.
pub open spec fn finished_by_tick(w: Worker) -> Option<Request> {
    match w.current_request {
        Some(r) => if worked(r).remaining_work_ticks == 0 {
            Some(worked(r))
        } else {
            None
        },
        None => None,
    }
}

/// The worker after a tick. A busy worker advances its request and lets go of
/// it when done; an idle one picks up the next request in line, if there is one.
pub open spec fn worker_after_tick(w: Worker, queue: Seq<Request>, lifo: bool) -> Worker {
    match w.current_request {
        Some(r) => if worked(r).remaining_work_ticks == 0 {
            Worker { current_request: None }
        } else {
            Worker { current_request: Some(worked(r)) }
        },
        None => if queue.len() == 0 {
            w
        } else {
            Worker { current_request: Some(next_in_line(queue, lifo)) }
        },
    }
}

/// The queue after a worker's tick: one shorter where an idle worker drew from
/// it, untouched otherwise.
pub open spec fn queue_after_tick(w: Worker, queue: Seq<Request>, lifo: bool) -> Seq<Request> {
    if w.current_request is None && queue.len() > 0 {
        rest_of_line(queue, lifo)
    } else {
        queue
    }
}

/// 1 for a busy worker, 0 for an idle one.
pub open spec fn load(w: Worker) -> nat {
    if w.current_request is Some {
        1
    } else {
        0
    }
}

/// 1 where a request came back, 0 where none did.
pub open spec fn handed_back(finished: Option<Request>) -> nat {
    if finished is Some {
        1
    } else {
        0
    }
}

/// 1 where a request came back with its deadline passed, 0 otherwise.
pub open spec fn handed_back_late(finished: Option<Request>) -> nat {
    match finished {
        Some(r) => if r.remaining_timeout_ticks == 0 {
            1
        } else {
            0
        },
        None => 0,
    }
}

impl Worker {
    /// An idle worker.
    pub fn new() -> (w: Worker)
        ensures
            w.current_request is None,
    {
        Worker { current_request: None }
    }

    /// Spends one tick. A busy worker works on its request and returns it if
    /// that finished it. An idle worker takes the next request from the queue
    /// and does no work on it yet.
    pub fn tick(&mut self, queue: &mut VecDeque<Request>, lifo: bool) -> (finished: Option<Request>)
        ensures
            *final(self) == worker_after_tick(*old(self), old(queue)@, lifo),
            final(queue)@ == queue_after_tick(*old(self), old(queue)@, lifo),
            finished == finished_by_tick(*old(self)),
    {
        match self.current_request {
            Some(mut current) => {
                current.working_tick();
                if current.is_done() {
                    self.current_request = None;
                    return Some(current);
                }
                self.current_request = Some(current);
            },
            None => {
                let next = if lifo {
                    queue.pop_back()
                } else {
                    queue.pop_front()
                };
                self.current_request = next;
            },
        }
        None
    }

    /// Whether the worker holds no request.
    pub fn is_free(&self) -> (b: bool)
        ensures
            b == (self.current_request is None),
    {
        self.current_request.is_none()
    }

    /// Starts on the given request, in place of whatever was held.
    pub fn take(&mut self, request: Request)
        ensures
            final(self).current_request == Some(request),
    {
        self.current_request = Some(request);
    }
}

/// A tick neither loses nor duplicates a request: those held and queued
/// afterwards, with the one handed back, are those held and queued before.
pub proof fn lemma_tick_conserves_requests(w: Worker, queue: Seq<Request>, lifo: bool)
    ensures
        load(worker_after_tick(w, queue, lifo)) + queue_after_tick(w, queue, lifo).len()
            + handed_back(finished_by_tick(w)) == load(w) + queue.len(),
        w.current_request is None && queue.len() > 0 ==> queue =~= if lifo {
            queue_after_tick(w, queue, lifo).push(
                worker_after_tick(w, queue, lifo).current_request->0,
            )
        } else {
            seq![worker_after_tick(w, queue, lifo).current_request->0] + queue_after_tick(
                w,
                queue,
                lifo,
            )
        },
{
}

/// Across a tick the two counters of a held request never grow.
pub proof fn lemma_tick_counts_down(w: Worker, queue: Seq<Request>, lifo: bool)
    requires
        w.current_request is Some,
    ensures
        match worker_after_tick(w, queue, lifo).current_request {
            Some(r) => r == worked(w.current_request->0),
            None => finished_by_tick(w) == Some(worked(w.current_request->0)),
        },
        worked(w.current_request->0).remaining_work_ticks <= (
        w.current_request->0).remaining_work_ticks,
        worked(w.current_request->0).remaining_timeout_ticks <= (
        w.current_request->0).remaining_timeout_ticks,
{
}

/// Switching between first-in-first-out and last-in-first-out changes which
/// request an idle worker picks up, not whether it picks one up, nor what
/// comes back, nor how many are left waiting.
pub proof fn lemma_tick_discipline(w: Worker, queue_a: Seq<Request>, queue_b: Seq<Request>)
    requires
        queue_a.len() == queue_b.len(),
    ensures
        load(worker_after_tick(w, queue_a, true)) == load(worker_after_tick(w, queue_b, false)),
        queue_after_tick(w, queue_a, true).len() == queue_after_tick(w, queue_b, false).len(),
{
}

} // verus!
