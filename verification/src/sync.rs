//! The lock and the condition of the standard library, as far as the wait
//! group needs them. Nothing in this file is proved: each contract states
//! what the standard library documents.

use vstd::prelude::*;
use crate::group::Inner;
use crate::tally::{outstanding, spec_outstanding};

verus! {

#[verifier::external_type_specification]
#[verifier::external_body]
#[verifier::reject_recursive_types(T)]
pub struct ExMutex<T: ?Sized>(std::sync::Mutex<T>);

#[verifier::external_type_specification]
#[verifier::external_body]
#[verifier::reject_recursive_types(T)]
pub struct ExMutexGuard<'a, T: ?Sized + 'a>(std::sync::MutexGuard<'a, T>);

#[verifier::external_type_specification]
#[verifier::external_body]
#[verifier::reject_recursive_types(T)]
pub struct ExPoisonError<T>(std::sync::PoisonError<T>);

#[verifier::external_type_specification]
#[verifier::external_body]
pub struct ExCondvar(std::sync::Condvar);

/// The number that a lock guard gives access to, while the guard is held.
pub uninterp spec fn held(guard: std::sync::MutexGuard<usize>) -> usize;

/// The number that `lock` guarded when it was made.
pub uninterp spec fn made_with(lock: std::sync::Mutex<usize>) -> usize;

/// Whether `guard` was handed out by `lock`.
pub uninterp spec fn locked_from(
    guard: std::sync::MutexGuard<usize>,
    lock: std::sync::Mutex<usize>,
) -> bool;

/// Whether `after` is the guard as an assignment through the guard `before`
/// left it.
pub uninterp spec fn stored_over(
    after: std::sync::MutexGuard<usize>,
    before: std::sync::MutexGuard<usize>,
) -> bool;

/// Whether `after` is the guard that parking with the guard `before` handed
/// back.
pub uninterp spec fn parked_over(
    after: std::sync::MutexGuard<usize>,
    before: std::sync::MutexGuard<usize>,
) -> bool;

/// Whether an attempt on `lock` found it poisoned.
pub uninterp spec fn seen_poisoned(lock: std::sync::Mutex<usize>) -> bool;

/// Whether the two guards are guards of the same lock.
pub open spec fn same_lock(
    one: std::sync::MutexGuard<usize>,
    other: std::sync::MutexGuard<usize>,
) -> bool {
    forall|lock: std::sync::Mutex<usize>| #[trigger]
        locked_from(one, lock) == locked_from(other, lock)
}

/// `std::sync::Mutex::new`: a fresh, unlocked lock that guards `count` from
/// the start. What a guard of it holds later depends on the threads that
/// took it before, so nothing is claimed of that.
#[verifier::external_body]
pub(crate) fn new_lock(count: usize) -> (lock: std::sync::Mutex<usize>)
    ensures
        made_with(lock) == count,
{
    std::sync::Mutex::new(count)
}

/// `std::sync::Condvar::new`: a fresh condition with nobody parked on it.
#[verifier::external_body]
pub(crate) fn new_condition() -> (condition: std::sync::Condvar) {
    std::sync::Condvar::new()
}

/// `std::sync::Mutex::lock`: blocks until the lock is free and hands out its
/// guard, inside `Err` where a thread panicked while it held the lock. Which
/// of the two comes back, and what number the guard holds, depends on the
/// other threads; the contract only records which lock the guard is from,
/// and that an `Err` means that the lock was found poisoned.
/// The standard library leaves open what the call does on a thread that
/// holds the lock already (it may panic or never return): no function of
/// this crate calls it while it holds a guard, which nothing here checks.
#[verifier::external_body]
pub(crate) fn acquire<'a>(lock: &'a std::sync::Mutex<usize>) -> (result: Result<
    std::sync::MutexGuard<'a, usize>,
    std::sync::PoisonError<std::sync::MutexGuard<'a, usize>>,
>)
    ensures
        result matches Ok(guard) ==> locked_from(guard, *lock),
        result is Err ==> seen_poisoned(*lock),
    opens_invariants none
    no_unwind
{
    lock.lock()
}

/// Dereferencing a `std::sync::MutexGuard`: the number it guards.
#[verifier::external_body]
pub(crate) fn read(guard: &std::sync::MutexGuard<usize>) -> (count: usize)
    ensures
        count == held(*guard),
    opens_invariants none
    no_unwind
{
    **guard
}

/// Assigning through a `std::sync::MutexGuard`: the guard then holds `count`,
/// is a guard of the lock that it was one of, and is what this assignment
/// left of the guard before it.
#[verifier::external_body]
pub(crate) fn store(guard: &mut std::sync::MutexGuard<usize>, count: usize)
    ensures
        held(*final(guard)) == count,
        same_lock(*old(guard), *final(guard)),
        stored_over(*final(guard), *old(guard)),
    opens_invariants none
    no_unwind
{
    **guard = count;
}

/// `std::sync::Condvar::notify_all`: wakes every thread parked on the
/// condition.
#[verifier::external_body]
pub(crate) fn wake_all(condition: &std::sync::Condvar)
    opens_invariants none
    no_unwind
{
    condition.notify_all();
}

/// `std::sync::Condvar::wait_while`: tests first whether a worker is
/// outstanding, and hands the guard back at once where none is. Else it
/// gives the lock up and parks the thread on the condition of `inner` until
/// a test after a wake-up finds no worker outstanding, then returns with the
/// lock held again; inside `Err` where the lock was found poisoned. The
/// contract records that the guard which comes back is the one that this
/// parking handed back for the guard that went in. The
/// guard has to be one of the lock of `inner`, so that the condition only
/// ever serves one lock.
#[verifier::external_body]
pub(crate) fn park_while_outstanding<'a>(
    inner: &Inner,
    guard: std::sync::MutexGuard<'a, usize>,
) -> (result: Result<
    std::sync::MutexGuard<'a, usize>,
    std::sync::PoisonError<std::sync::MutexGuard<'a, usize>>,
>)
    requires
        locked_from(guard, inner.waiter_count),
    ensures
        result matches Ok(idle) ==> !spec_outstanding(held(idle) as nat) && locked_from(
            idle,
            inner.waiter_count,
        ),
        (result is Ok && result->Ok_0 == guard) || spec_outstanding(held(guard) as nat),
        result matches Ok(idle) ==> parked_over(idle, guard),
        result is Err ==> seen_poisoned(inner.waiter_count),
{
    inner.cond_var.wait_while(guard, |count: &mut usize| outstanding(*count))
}

/// `std::sync::Arc::clone`: one more pointer to the same shared state, which
/// the contract states as equality of what the two point to.
#[verifier::external_body]
pub(crate) fn share(inner: &std::sync::Arc<Inner>) -> (other: std::sync::Arc<Inner>)
    ensures
        other == *inner,
{
    std::sync::Arc::clone(inner)
}

} // verus!
