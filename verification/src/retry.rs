use vstd::prelude::*;

verus! {

/// `rand`'s Bernoulli distribution: a chance of success fixed at
/// construction. Nothing inside it is visible here.
#[verifier::external_type_specification]
#[verifier::external_body]
pub struct ExBernoulli(rand::distributions::Bernoulli);

/// Whether a failed request comes back as a new arrival.
#[derive(Clone, Copy, Debug)]
pub enum RetryPolicy {
    /// Retry probability zero: no failure is ever retried.
    Never,
    /// Retry probability one: every failure is retried.
    Always,
    /// Anything in between: each failure is retried by an independent draw.
    Sometimes(rand::distributions::Bernoulli),
}

/// One draw of `rand::distributions::Distribution::sample` on the given
/// Bernoulli distribution, with `rand::thread_rng()` as the generator. The
/// outcome is random, so nothing is claimed of it. The generator is seeded
/// from the operating system at a thread's first draw.
#[verifier::external_body]
fn sample_retry(chance: &rand::distributions::Bernoulli) -> (retried: bool) {
    rand::distributions::Distribution::sample(chance, &mut rand::thread_rng())
}

/// What one failure adds to the arrivals still to come, given how its draw
/// came out: one whole arrival, or nothing.
pub fn retry_units(retried: bool) -> (units: u64)
    ensures
        units == if retried {
            1u64
        } else {
            0u64
        },
{
    if retried {
        1
    } else {
        0
    }
}

impl RetryPolicy {
    /// Decides for one failure whether it is retried. `Never` and `Always`
    /// decide without a draw; `Sometimes` draws once.
    pub fn decide(&self) -> (retried: bool)
        ensures
            self is Never ==> !retried,
            self is Always ==> retried,
    {
        match self {
            RetryPolicy::Never => false,
            RetryPolicy::Always => true,
            RetryPolicy::Sometimes(chance) => sample_retry(chance),
        }
    }

    /// Decides for each of `failures` failures, one after the other, and
    /// returns how many are retried: none under `Never`, all under `Always`,
    /// never more than there were failures.
    pub fn decide_each(&self, failures: u64) -> (retries: u64)
        ensures
            retries <= failures,
            self is Never ==> retries == 0,
            self is Always ==> retries == failures,
    {
        let mut retries: u64 = 0;
        let mut i: u64 = 0;
        while i < failures
            invariant
                i <= failures,
                retries <= i,
                self is Never ==> retries == 0,
                self is Always ==> retries == i,
            decreases failures - i,
        {
            retries += retry_units(self.decide());
            i += 1;
        }
        retries
    }
}

} // verus!
