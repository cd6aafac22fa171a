//! Random pauses, for workers that are to finish at different times.

use vstd::prelude::*;

verus! {

/// The shortest pause of a worker, in seconds.
pub const SHORTEST_PAUSE_SECS: u64 = 1;

/// The longest pause of a worker, in seconds.
pub const LONGEST_PAUSE_SECS: u64 = 5;

/// `rand::Rng::gen_range` over `low..=high`, on the generator that
/// `rand::thread_rng` hands out. It panics on an empty range, which the
/// `requires` leaves out, and returns a number of the range; which one is
/// left to chance, so nothing more is claimed. Not proved.
#[verifier::external_body]
fn random_between(low: u64, high: u64) -> (picked: u64)
    requires
        low <= high,
    ensures
        low <= picked <= high,
{
    rand::Rng::gen_range(&mut rand::thread_rng(), low..=high)
}

/// A number of seconds for a worker to pause, picked at random between the
/// shortest and the longest pause, both included.
pub fn pause_secs() -> (secs: u64)
    ensures
        SHORTEST_PAUSE_SECS <= secs <= LONGEST_PAUSE_SECS,
{
    random_between(SHORTEST_PAUSE_SECS, LONGEST_PAUSE_SECS)
}

} // verus!
