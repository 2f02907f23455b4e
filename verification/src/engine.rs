use crate::request::{count_down, waited, Request};
use crate::retry::RetryPolicy;
use crate::worker::{
    finished_by_tick, handed_back, handed_back_late, load, queue_after_tick, worker_after_tick,
    Worker,
};
use std::collections::VecDeque;
use vstd::prelude::*;

verus! {

/// What became of a newly arrived request.
#[derive(Clone, Copy, Debug, PartialEq, Eq, Structural)]
pub enum Admission {
    /// An idle worker took it; the index is that worker's place in the pool.
    Assigned(usize),
    /// Every worker was busy and the queue had room.
    Queued,
    /// Every worker was busy and the queue was full: the request failed.
    Rejected,
}

/// What one pass over the worker pool produced.
#[derive(Clone, Copy, Debug, PartialEq, Eq, Structural)]
pub struct SweepReport {
    /// Requests whose work ended in this pass.
    pub finished: u64,
    /// Those among them whose deadline had already passed: each is a failure.
    pub timed_out: u64,
}

/// What became of a newly arrived request, and whether it comes back.
#[derive(Clone, Copy, Debug, PartialEq, Eq, Structural)]
pub struct Arrival {
    pub admission: Admission,
    /// The request was turned away and is retried: one more arrival is due.
    pub retried: bool,
}

/// What one pass over the worker pool produced, retries included.
#[derive(Clone, Copy, Debug, PartialEq, Eq, Structural)]
pub struct Service {
    /// Requests whose work ended in this pass.
    pub finished: u64,
    /// Those among them whose deadline had already passed: each is a failure.
    pub timed_out: u64,
    /// Failures of this pass that are retried: so many more arrivals are due.
    pub retries: u64,
}

/// The whole state of a run.
pub struct Simulation {
    workers: Vec<Worker>,
    queue: VecDeque<Request>,
    queue_size: usize,
    lifo: bool,
    request_timeout: u32,
    total_requests: u64,
    failed_requests: u64,
    spike_window: u32,
    spike_ticks_remaining: u32,
}

/// The state of a run as mathematics.
pub ghost struct SimulationView {
    pub workers: Seq<Worker>,
    pub queue: Seq<Request>,
    pub queue_size: nat,
    pub lifo: bool,
    pub request_timeout: u32,
    pub total_requests: nat,
    pub failed_requests: nat,
    pub spike_window: nat,
    pub spike_ticks_remaining: nat,
}

/// How many of the first `n` workers are busy.
pub open spec fn busy_upto(workers: Seq<Worker>, n: nat) -> nat
    decreases n,
{
    if n == 0 {
        0
    } else {
        busy_upto(workers, (n - 1) as nat) + load(workers[n - 1])
    }
}

/// How many workers are busy.
pub open spec fn busy_count(workers: Seq<Worker>) -> nat {
    busy_upto(workers, workers.len())
}

/// The place of the first idle worker at or after `k`, or the pool's size
/// where there is none.
pub open spec fn first_idle_from(workers: Seq<Worker>, k: nat) -> nat
    decreases workers.len() - k,
{
    if k >= workers.len() {
        workers.len()
    } else if workers[k as int].current_request is None {
        k
    } else {
        first_idle_from(workers, k + 1)
    }
}

/// The place of the first idle worker, or the pool's size where all are busy.
pub open spec fn first_idle(workers: Seq<Worker>) -> nat {
    first_idle_from(workers, 0)
}

/// The queue after the first `n` workers have had their tick, in pool order.
pub open spec fn sweep_queue(workers: Seq<Worker>, queue: Seq<Request>, lifo: bool, n: nat) -> Seq<
    Request,
>
    decreases n,
{
    if n == 0 {
        queue
    } else {
        queue_after_tick(workers[n - 1], sweep_queue(workers, queue, lifo, (n - 1) as nat), lifo)
    }
}

/// Worker `i` after its tick, which sees the queue as the workers before it
/// left it.
pub open spec fn sweep_worker(workers: Seq<Worker>, queue: Seq<Request>, lifo: bool, i: int) -> Worker {
    worker_after_tick(workers[i], sweep_queue(workers, queue, lifo, i as nat), lifo)
}

/// The pool after every worker has had its tick.
pub open spec fn sweep_workers(workers: Seq<Worker>, queue: Seq<Request>, lifo: bool) -> Seq<Worker> {
    Seq::new(workers.len(), |i: int| sweep_worker(workers, queue, lifo, i))
}

/// How many of the first `n` workers finish their request at this tick.
pub open spec fn sweep_finished(workers: Seq<Worker>, n: nat) -> nat
    decreases n,
{
    if n == 0 {
        0
    } else {
        sweep_finished(workers, (n - 1) as nat) + handed_back(finished_by_tick(workers[n - 1]))
    }
}

/// How many of the first `n` workers finish, at this tick, a request whose
/// deadline has passed.
pub open spec fn sweep_timed_out(workers: Seq<Worker>, n: nat) -> nat
    decreases n,
{
    if n == 0 {
        0
    } else {
        sweep_timed_out(workers, (n - 1) as nat) + handed_back_late(
            finished_by_tick(workers[n - 1]),
        )
    }
}

impl SimulationView {
    /// What holds of every state that a run can reach: the queue is within
    /// its bound, the spike window has shrunk by one for each request created
    /// while it was open, and every request that failed or is still in the
    /// system was counted when it was created.
    pub open spec fn valid(self) -> bool {
        &&& self.queue.len() <= self.queue_size
        &&& self.spike_ticks_remaining == if self.total_requests < self.spike_window {
            self.spike_window - self.total_requests
        } else {
            0
        }
        &&& self.failed_requests + busy_count(self.workers) + self.queue.len()
            <= self.total_requests
    }

    /// Requests in the system: held by a worker or waiting.
    pub open spec fn in_flight(self) -> nat {
        busy_count(self.workers) + self.queue.len()
    }

    /// Where the next arrival goes: to the first idle worker; with none idle,
    /// into the queue; with the queue full, nowhere.
    pub open spec fn admission(self) -> Admission {
        if first_idle(self.workers) < self.workers.len() {
            Admission::Assigned(first_idle(self.workers) as usize)
        } else if self.queue.len() < self.queue_size {
            Admission::Queued
        } else {
            Admission::Rejected
        }
    }

    /// The state after an arrival with the given processing time.
    pub open spec fn admitted(self, execution_time: u32) -> SimulationView {
        let request = Request {
            remaining_work_ticks: execution_time,
            remaining_timeout_ticks: self.request_timeout,
        };
        let counted = SimulationView {
            total_requests: self.total_requests + 1,
            spike_ticks_remaining: if self.spike_ticks_remaining == 0 {
                0
            } else {
                (self.spike_ticks_remaining - 1) as nat
            },
            ..self
        };
        match self.admission() {
            Admission::Assigned(i) => SimulationView {
                workers: self.workers.update(
                    i as int,
                    Worker { current_request: Some(request) },
                ),
                ..counted
            },
            Admission::Queued => SimulationView { queue: self.queue.push(request), ..counted },
            Admission::Rejected => SimulationView {
                failed_requests: self.failed_requests + 1,
                ..counted
            },
        }
    }

    /// The state after every waiting request has aged by one tick.
    pub open spec fn aged(self) -> SimulationView {
        SimulationView { queue: self.queue.map_values(|r: Request| waited(r)), ..self }
    }

    /// The state after every worker has had its tick, in pool order.
    pub open spec fn advanced(self) -> SimulationView {
        SimulationView {
            workers: sweep_workers(self.workers, self.queue, self.lifo),
            queue: sweep_queue(self.workers, self.queue, self.lifo, self.workers.len()),
            failed_requests: self.failed_requests + sweep_timed_out(
                self.workers,
                self.workers.len(),
            ),
            ..self
        }
    }
}

impl View for Simulation {
    type V = SimulationView;

    closed spec fn view(&self) -> SimulationView {
        SimulationView {
            workers: self.workers@,
            queue: self.queue@,
            queue_size: self.queue_size as nat,
            lifo: self.lifo,
            request_timeout: self.request_timeout,
            total_requests: self.total_requests as nat,
            failed_requests: self.failed_requests as nat,
            spike_window: self.spike_window as nat,
            spike_ticks_remaining: self.spike_ticks_remaining as nat,
        }
    }
}

impl Simulation {
    /// The state is one that a run can reach.
    pub open spec fn wf(&self) -> bool {
        self@.valid()
    }

    /// A run at its start: `num_workers` idle workers, an empty queue that
    /// holds up to `queue_size` requests, no request counted. With
    /// `simulate_spike` the spike window is a thousandth of the run's length,
    /// else it is closed.
    pub fn new(
        num_workers: u16,
        queue_size: usize,
        lifo: bool,
        request_timeout: u32,
        simulation_ticks: u32,
        simulate_spike: bool,
    ) -> (sim: Simulation)
        ensures
            sim.wf(),
            sim@.workers.len() == num_workers,
            forall|i: int| 0 <= i < num_workers ==> (#[trigger] sim@.workers[i]).current_request is None,
            sim@.queue.len() == 0,
            sim@.queue_size == queue_size,
            sim@.lifo == lifo,
            sim@.request_timeout == request_timeout,
            sim@.total_requests == 0,
            sim@.failed_requests == 0,
            sim@.spike_window == if simulate_spike {
                simulation_ticks / 1000
            } else {
                0
            },
            sim@.spike_ticks_remaining == sim@.spike_window,
    {
        let mut workers: Vec<Worker> = Vec::new();
        let mut i: u16 = 0;
        while i < num_workers
            invariant
                i <= num_workers,
                workers@.len() == i,
                busy_count(workers@) == 0,
                forall|j: int| 0 <= j < i ==> (#[trigger] workers@[j]).current_request is None,
            decreases num_workers - i,
        {
            let w = Worker::new();
            proof {
                lemma_busy_push(workers@, w);
            }
            workers.push(w);
            i += 1;
        }
        let spike_window: u32 = if simulate_spike {
            simulation_ticks / 1000
        } else {
            0
        };
        Simulation {
            workers,
            queue: VecDeque::new(),
            queue_size,
            lifo,
            request_timeout,
            total_requests: 0,
            failed_requests: 0,
            spike_window,
            spike_ticks_remaining: spike_window,
        }
    }

    /// Requests created so far.
    pub fn total_requests(&self) -> (n: u64)
        ensures
            n == self@.total_requests,
    {
        self.total_requests
    }

    /// Requests that failed so far: turned away at arrival, or finished after
    /// their deadline.
    pub fn failed_requests(&self) -> (n: u64)
        ensures
            n == self@.failed_requests,
    {
        self.failed_requests
    }

    /// The size of the worker pool.
    pub fn num_workers(&self) -> (n: usize)
        ensures
            n == self@.workers.len(),
    {
        self.workers.len()
    }

    /// The worker at place `i` of the pool, or `None` past its end.
    pub fn worker(&self, i: usize) -> (w: Option<Worker>)
        ensures
            w == if i < self@.workers.len() {
                Some(self@.workers[i as int])
            } else {
                None
            },
    {
        if i < self.workers.len() {
            Some(self.workers[i])
        } else {
            None
        }
    }

    /// How many workers hold a request.
    pub fn busy_workers(&self) -> (n: usize)
        ensures
            n == busy_count(self@.workers),
    {
        let len = self.workers.len();
        let mut n: usize = 0;
        let mut i: usize = 0;
        while i < len
            invariant
                i <= len,
                len == self.workers@.len(),
                n == busy_upto(self.workers@, i as nat),
                n <= i,
            decreases len - i,
        {
            if !self.workers[i].is_free() {
                n += 1;
            }
            i += 1;
        }
        n
    }

    /// The most requests that may wait at once.
    pub fn queue_size(&self) -> (n: usize)
        ensures
            n == self@.queue_size,
    {
        self.queue_size
    }

    /// The waiting request at place `i`, counted from the end that
    /// first-in-first-out serves next, or `None` past the last one.
    pub fn queued(&self, i: usize) -> (r: Option<Request>)
        ensures
            r == if i < self@.queue.len() {
                Some(self@.queue[i as int])
            } else {
                None
            },
    {
        if i < self.queue.len() {
            Some(self.queue[i])
        } else {
            None
        }
    }

    /// Requests waiting in the queue.
    pub fn queue_len(&self) -> (n: usize)
        ensures
            n == self@.queue.len(),
    {
        self.queue.len()
    }

    /// Requests that will still get the spike's longer processing time.
    pub fn spike_ticks_remaining(&self) -> (n: u32)
        ensures
            n == self@.spike_ticks_remaining,
    {
        self.spike_ticks_remaining
    }

    /// Whether the next request created falls into the spike window. The
    /// window is counted in requests: it is open for exactly the first
    /// `spike_window` requests of the run, whatever tick they arrive in.
    pub fn spike_active(&self) -> (active: bool)
        requires
            self.wf(),
        ensures
            active == (self@.spike_ticks_remaining > 0),
            active == (self@.total_requests < self@.spike_window),
    {
        self.spike_ticks_remaining > 0
    }

    /// The two counters for the final report, or `None` for a run in which no
    /// request was created, where a failure rate has no meaning.
    pub fn failure_counts(&self) -> (counts: Option<(u64, u64)>)
        ensures
            counts == if self@.total_requests == 0 {
                None
            } else {
                Some((self.view().failed_requests as u64, self.view().total_requests as u64))
            },
    {
        if self.total_requests == 0 {
            None
        } else {
            Some((self.failed_requests, self.total_requests))
        }
    }

    /// First step of a tick: every waiting request comes one tick closer to
    /// its deadline. Its remaining work is untouched, the order of the queue
    /// is kept, and nothing else changes.
    pub fn age_queue(&mut self)
        requires
            old(self).wf(),
        ensures
            final(self).wf(),
            final(self)@ == old(self)@.aged(),
            final(self)@.in_flight() == old(self)@.in_flight(),
    {
        let ghost before = self.queue@;
        let n = self.queue.len();
        let mut i: usize = 0;
        while i < n
            invariant
                i <= n,
                n == before.len(),
                self.queue@ == before.subrange(i as int, n as int) + before.subrange(
                    0,
                    i as int,
                ).map_values(|r: Request| waited(r)),
                self.workers == old(self).workers,
                self.queue_size == old(self).queue_size,
                self.lifo == old(self).lifo,
                self.request_timeout == old(self).request_timeout,
                self.total_requests == old(self).total_requests,
                self.failed_requests == old(self).failed_requests,
                self.spike_window == old(self).spike_window,
                self.spike_ticks_remaining == old(self).spike_ticks_remaining,
            decreases n - i,
        {
            let front = self.queue.pop_front();
            match front {
                Some(mut request) => {
                    request.waiting_tick();
                    self.queue.push_back(request);
                },
                None => {},
            }
            i += 1;
            proof {
                assert(self.queue@ =~= before.subrange(i as int, n as int) + before.subrange(
                    0,
                    i as int,
                ).map_values(|r: Request| waited(r)));
            }
        }
        proof {
            assert(self.queue@ =~= before.map_values(|r: Request| waited(r)));
        }
    }

    /// Admission of one newly created request. The request is counted, gets
    /// the given processing time and the run's timeout, and uses up one place
    /// of the spike window while that is open. It goes to the first idle
    /// worker in pool order; with every worker busy, to the insertion end of
    /// the queue; with the queue full as well it is turned away and counted
    /// as failed.
    pub fn submit(&mut self, execution_time: u32) -> (outcome: Admission)
        requires
            old(self).wf(),
            old(self)@.total_requests < u64::MAX,
        ensures
            final(self).wf(),
            outcome == old(self)@.admission(),
            final(self)@ == old(self)@.admitted(execution_time),
            final(self)@.queue.len() <= final(self)@.queue_size,
            match outcome {
                Admission::Assigned(i) => {
                    &&& i < old(self)@.workers.len()
                    &&& old(self)@.workers[i as int].current_request is None
                    &&& forall|j: int|
                        0 <= j < i ==> (#[trigger] old(self)@.workers[j]).current_request is Some
                },
                _ => forall|j: int|
                    0 <= j < old(self)@.workers.len() ==> (#[trigger] old(
                        self,
                    )@.workers[j]).current_request is Some,
            },
            final(self)@.in_flight() == old(self)@.in_flight() + if outcome == Admission::Rejected {
                0nat
            } else {
                1nat
            },
            final(self)@.failed_requests == old(self)@.failed_requests + if outcome
                == Admission::Rejected {
                1nat
            } else {
                0nat
            },
    {
        proof {
            lemma_first_idle(old(self)@.workers, 0);
        }
        self.total_requests += 1;
        if self.spike_ticks_remaining > 0 {
            self.spike_ticks_remaining -= 1;
        }
        let request = Request::new(execution_time, self.request_timeout);
        let n = self.workers.len();
        let mut i: usize = 0;
        while i < n
            invariant
                i <= n,
                n == self.workers@.len(),
                old(self).wf(),
                self.workers == old(self).workers,
                self.queue == old(self).queue,
                self.queue_size == old(self).queue_size,
                self.lifo == old(self).lifo,
                self.request_timeout == old(self).request_timeout,
                self.total_requests == old(self).total_requests + 1,
                self.failed_requests == old(self).failed_requests,
                self.spike_window == old(self).spike_window,
                self.spike_ticks_remaining == count_down(old(self).spike_ticks_remaining),
                request == (Request {
                    remaining_work_ticks: execution_time,
                    remaining_timeout_ticks: self.request_timeout,
                }),
                first_idle(self.workers@) == first_idle_from(self.workers@, i as nat),
                forall|j: int|
                    0 <= j < first_idle(old(self)@.workers) ==> (#[trigger] old(
                        self,
                    )@.workers[j]).current_request is Some,
            decreases n - i,
        {
            let mut worker: Worker = self.workers[i];
            if worker.is_free() {
                worker.take(request);
                proof {
                    lemma_busy_update(self.workers@, i as int, worker, n as nat);
                }
                self.workers.set(i, worker);
                return Admission::Assigned(i);
            }
            i += 1;
        }
        if self.queue.len() < self.queue_size {
            self.queue.push_back(request);
            Admission::Queued
        } else {
            self.failed_requests += 1;
            Admission::Rejected
        }
    }

    /// Third step of a tick: every worker has its tick, in pool order. A busy
    /// worker advances its request and lets go of it when its work is used
    /// up; an idle worker draws the next request from the queue and starts on
    /// it at the next tick. A request that finishes with its deadline passed
    /// is counted as failed. No request is lost or made twice: those in the
    /// system afterwards, with those that finished, are those in the system
    /// before.
    pub fn advance_workers(&mut self) -> (report: SweepReport)
        requires
            old(self).wf(),
        ensures
            final(self).wf(),
            final(self)@ == old(self)@.advanced(),
            report.finished == sweep_finished(old(self)@.workers, old(self)@.workers.len()),
            report.timed_out == sweep_timed_out(old(self)@.workers, old(self)@.workers.len()),
            report.timed_out <= report.finished,
            final(self)@.in_flight() + report.finished == old(self)@.in_flight(),
            final(self)@.failed_requests == old(self)@.failed_requests + report.timed_out,
    {
        let ghost orig = self@;
        let n = self.workers.len();
        let mut i: usize = 0;
        let mut finished: u64 = 0;
        let mut timed_out: u64 = 0;
        while i < n
            invariant
                i <= n,
                n == orig.workers.len(),
                n == self.workers@.len(),
                orig == old(self)@,
                orig.valid(),
                forall|j: int|
                    0 <= j < i ==> #[trigger] self.workers@[j] == sweep_worker(
                        orig.workers,
                        orig.queue,
                        orig.lifo,
                        j,
                    ),
                forall|j: int| i <= j < n ==> #[trigger] self.workers@[j] == orig.workers[j],
                self.queue@ == sweep_queue(orig.workers, orig.queue, orig.lifo, i as nat),
                self.queue@.len() <= orig.queue.len(),
                finished == sweep_finished(orig.workers, i as nat),
                timed_out == sweep_timed_out(orig.workers, i as nat),
                timed_out <= finished <= i,
                busy_count(self.workers@) + self.queue@.len() + finished == busy_count(
                    orig.workers,
                ) + orig.queue.len(),
                self.queue_size == old(self).queue_size,
                self.lifo == old(self).lifo,
                self.request_timeout == old(self).request_timeout,
                self.total_requests == old(self).total_requests,
                self.failed_requests == old(self).failed_requests,
                self.spike_window == old(self).spike_window,
                self.spike_ticks_remaining == old(self).spike_ticks_remaining,
            decreases n - i,
        {
            let mut worker: Worker = self.workers[i];
            let done = worker.tick(&mut self.queue, self.lifo);
            proof {
                lemma_busy_update(self.workers@, i as int, worker, n as nat);
            }
            self.workers.set(i, worker);
            match done {
                Some(request) => {
                    finished += 1;
                    if request.is_timed_out() {
                        timed_out += 1;
                    }
                },
                None => {},
            }
            i += 1;
        }
        proof {
            assert(self.workers@ =~= sweep_workers(orig.workers, orig.queue, orig.lifo));
        }
        self.failed_requests += timed_out;
        SweepReport { finished, timed_out }
    }

    /// Second step of a tick, for one request: `submit`, and for a request
    /// that was turned away the decision whether it is retried. No other
    /// outcome asks for a decision. Under `Never` nothing comes back, under
    /// `Always` every request that was turned away does.
    pub fn arrive(&mut self, execution_time: u32, retry: &RetryPolicy) -> (arrival: Arrival)
        requires
            old(self).wf(),
            old(self)@.total_requests < u64::MAX,
        ensures
            final(self).wf(),
            arrival.admission == old(self)@.admission(),
            final(self)@ == old(self)@.admitted(execution_time),
            arrival.retried ==> arrival.admission == Admission::Rejected,
            retry is Never ==> !arrival.retried,
            retry is Always ==> arrival.retried == (arrival.admission == Admission::Rejected),
    {
        let admission = self.submit(execution_time);
        let retried = match admission {
            Admission::Rejected => retry.decide(),
            _ => false,
        };
        Arrival { admission, retried }
    }

    /// Third and fourth step of a tick: `advance_workers`, and for each
    /// request that finished too late the decision whether it is retried.
    /// Under `Never` nothing comes back, under `Always` every such request
    /// does.
    pub fn serve(&mut self, retry: &RetryPolicy) -> (service: Service)
        requires
            old(self).wf(),
        ensures
            final(self).wf(),
            final(self)@ == old(self)@.advanced(),
            service.finished == sweep_finished(old(self)@.workers, old(self)@.workers.len()),
            service.timed_out == sweep_timed_out(old(self)@.workers, old(self)@.workers.len()),
            final(self)@.in_flight() + service.finished == old(self)@.in_flight(),
            service.retries <= service.timed_out,
            retry is Never ==> service.retries == 0,
            retry is Always ==> service.retries == service.timed_out,
    {
        let report = self.advance_workers();
        let retries = retry.decide_each(report.timed_out);
        Service { finished: report.finished, timed_out: report.timed_out, retries }
    }
}

/// Replacing one worker changes the busy count by the difference of the two
/// workers' loads, and only where the count reaches that worker.
pub proof fn lemma_busy_update(workers: Seq<Worker>, i: int, w: Worker, n: nat)
    requires
        0 <= i < workers.len(),
        n <= workers.len(),
    ensures
        busy_upto(workers.update(i, w), n) + (if i < n {
            load(workers[i])
        } else {
            0
        }) == busy_upto(workers, n) + (if i < n {
            load(w)
        } else {
            0
        }),
    decreases n,
{
    if n > 0 {
        lemma_busy_update(workers, i, w, (n - 1) as nat);
    }
}

/// One more worker at the end leaves the count over the others as it was.
pub proof fn lemma_busy_push_prefix(workers: Seq<Worker>, w: Worker, n: nat)
    requires
        n <= workers.len(),
    ensures
        busy_upto(workers.push(w), n) == busy_upto(workers, n),
    decreases n,
{
    if n > 0 {
        lemma_busy_push_prefix(workers, w, (n - 1) as nat);
    }
}

/// One more worker at the end adds its load to the busy count.
pub proof fn lemma_busy_push(workers: Seq<Worker>, w: Worker)
    ensures
        busy_count(workers.push(w)) == busy_count(workers) + load(w),
{
    lemma_busy_push_prefix(workers, w, workers.len());
    assert(workers.push(w)[workers.len() as int] == w);
}

/// The first idle worker is idle, every worker before it is busy, and where
/// there is none the result is the pool's size.
pub proof fn lemma_first_idle(workers: Seq<Worker>, k: nat)
    requires
        k <= workers.len(),
    ensures
        k <= first_idle_from(workers, k) <= workers.len(),
        first_idle_from(workers, k) < workers.len() ==> workers[first_idle_from(
            workers,
            k,
        ) as int].current_request is None,
        forall|j: int|
            k <= j < first_idle_from(workers, k) ==> (#[trigger] workers[j]).current_request
                is Some,
    decreases workers.len() - k,
{
    if k < workers.len() && workers[k as int].current_request is Some {
        lemma_first_idle(workers, k + 1);
    }
}

/// A pass over the pool neither loses nor duplicates a request: after the
/// first `n` workers had their tick, the requests held and waiting, with
/// those that finished, are the requests held and waiting before.
pub proof fn lemma_sweep_conserves(workers: Seq<Worker>, queue: Seq<Request>, lifo: bool, n: nat)
    requires
        n <= workers.len(),
    ensures
        busy_upto(sweep_workers(workers, queue, lifo), n) + sweep_queue(
            workers,
            queue,
            lifo,
            n,
        ).len() + sweep_finished(workers, n) == busy_upto(workers, n) + queue.len(),
        sweep_timed_out(workers, n) <= sweep_finished(workers, n) <= n,
        sweep_queue(workers, queue, lifo, n).len() <= queue.len(),
    decreases n,
{
    if n > 0 {
        lemma_sweep_conserves(workers, queue, lifo, (n - 1) as nat);
    }
}

/// Under first-in-first-out and under last-in-first-out a pass over the same
/// pool, with as many requests waiting, leaves as many waiting and as many
/// workers busy. Which requests the idle workers drew may differ.
pub proof fn lemma_sweep_discipline(
    workers: Seq<Worker>,
    queue_a: Seq<Request>,
    queue_b: Seq<Request>,
    n: nat,
)
    requires
        n <= workers.len(),
        queue_a.len() == queue_b.len(),
    ensures
        sweep_queue(workers, queue_a, true, n).len() == sweep_queue(
            workers,
            queue_b,
            false,
            n,
        ).len(),
        busy_upto(sweep_workers(workers, queue_a, true), n) == busy_upto(
            sweep_workers(workers, queue_b, false),
            n,
        ),
    decreases n,
{
    if n > 0 {
        lemma_sweep_discipline(workers, queue_a, queue_b, (n - 1) as nat);
    }
}

/// The discipline of the queue decides which requests are served, not how
/// many: two states that differ only in it admit an arrival alike, and a
/// pass over the pool finishes as many requests in both, fails as many, and
/// leaves as many waiting and as many in the system.
pub proof fn lemma_discipline_keeps_counts(s: SimulationView, execution_time: u32)
    ensures
        ({
            let fifo = SimulationView { lifo: false, ..s };
            let lifo = SimulationView { lifo: true, ..s };
            &&& fifo.admission() == lifo.admission()
            &&& fifo.admitted(execution_time).total_requests == lifo.admitted(
                execution_time,
            ).total_requests
            &&& fifo.admitted(execution_time).failed_requests == lifo.admitted(
                execution_time,
            ).failed_requests
            &&& fifo.admitted(execution_time).in_flight() == lifo.admitted(
                execution_time,
            ).in_flight()
            &&& fifo.advanced().failed_requests == lifo.advanced().failed_requests
            &&& fifo.advanced().total_requests == lifo.advanced().total_requests
            &&& fifo.advanced().queue.len() == lifo.advanced().queue.len()
            &&& fifo.advanced().in_flight() == lifo.advanced().in_flight()
        }),
{
    lemma_sweep_discipline(s.workers, s.queue, s.queue, s.workers.len());
}

/// Each step of a tick leads from a valid state to a valid state: the queue
/// stays within its bound, the spike window stays in step with the requests
/// created, and no failure or request in the system goes uncounted.
pub proof fn lemma_steps_keep_valid(s: SimulationView, execution_time: u32)
    requires
        s.valid(),
        s.workers.len() <= usize::MAX,
    ensures
        s.aged().valid(),
        s.admitted(execution_time).valid(),
        s.advanced().valid(),
        s.admitted(execution_time).queue.len() <= s.queue_size,
{
    lemma_first_idle(s.workers, 0);
    if first_idle(s.workers) < s.workers.len() {
        lemma_busy_update(
            s.workers,
            first_idle(s.workers) as int,
            Worker {
                current_request: Some(
                    Request {
                        remaining_work_ticks: execution_time,
                        remaining_timeout_ticks: s.request_timeout,
                    },
                ),
            },
            s.workers.len(),
        );
    }
    lemma_sweep_conserves(s.workers, s.queue, s.lifo, s.workers.len());
}

} // verus!
