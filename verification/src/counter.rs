//! A shared counter bumped once by each worker. A mutual-exclusion lock
//! serializes the workers, so a parallel run performs the same sequence of
//! increments as the sequential composition verified here: the final value
//! is exactly the number of workers, never less and never more.

use vstd::prelude::*;

verus! {

/// One worker's whole effect while it holds the lock: a single increment.
pub fn increment(counter: &mut u64)
    requires
        *old(counter) < u64::MAX,
    ensures
        *final(counter) == *old(counter) + 1,
{
    *counter = *counter + 1;
}

/// The serialized composition of `workers` single increments, starting
/// from zero: the final counter value equals the number of workers.
pub fn run_workers(workers: u64) -> (count: u64)
    ensures
        count == workers,
{
    let mut counter: u64 = 0;
    let mut done: u64 = 0;
    while done < workers
        invariant
            done <= workers,
            counter == done,
        decreases workers - done,
    {
        increment(&mut counter);
        done = done + 1;
    }
    counter
}

} // verus!
