//! A discrete-tick model of a bounded request queue served by a fixed pool of
//! workers, for the study of congestion collapse: how bursts of arrivals, a
//! full queue, deadlines and retries feed each other.
//!
//! `request` and `worker` hold the two small state machines, `retry` the
//! decision whether a failed request comes back, and `engine` the state of a
//! run with the steps of a tick: ageing the queue, admitting arrivals, and
//! advancing the workers.

pub mod engine;
pub mod request;
pub mod retry;
pub mod worker;
