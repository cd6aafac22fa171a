//! The wait group: the shared count behind a lock, and the two handles on it.

use vstd::prelude::*;
use crate::sync::{acquire, held, locked_from, made_with, new_condition, new_lock, park_while_outstanding, parked_over, read, same_lock, seen_poisoned, share, store, stored_over, wake_all};
use crate::tally::{registered, released, spec_registered, spec_released};

verus! {

/// Why an operation on a wait group failed.
#[derive(Clone, Copy, Debug, PartialEq, Eq, Structural)]
pub enum WaitGroupError {
    /// A thread panicked while it held the lock: the count cannot be trusted.
    Poisoned,
    /// The count of outstanding workers is the largest the machine holds.
    Overflow,
}

/// What the handles of one group share: the count of outstanding workers
/// behind its lock, and the condition on which waiters park.
pub struct Inner {
    pub(crate) waiter_count: std::sync::Mutex<usize>,
    pub(crate) cond_var: std::sync::Condvar,
}

/// The coordinator's share of a group.
pub struct NotGuard {
    inner: std::sync::Arc<Inner>,
}

/// A worker's share of a group. Dropping it is the worker's one release,
/// unless the worker has released already: `live` says whether the release
/// is still due.
pub struct Guard {
    inner: std::sync::Arc<Inner>,
    live: bool,
}

/// A handle on a wait group, in the role `T`: `WaitGroup<NotGuard>` is the
/// coordinator, `WaitGroup<Guard>` a worker.
pub struct WaitGroup<T> {
    share: T,
}

/// What an attempt on the lock comes to: its guard where the lock is sound,
/// and `Poisoned` where a thread panicked while it held the lock.
pub fn unpoisoned<'a>(
    locked: Result<
        std::sync::MutexGuard<'a, usize>,
        std::sync::PoisonError<std::sync::MutexGuard<'a, usize>>,
    >,
) -> (result: Result<std::sync::MutexGuard<'a, usize>, WaitGroupError>)
    ensures
        locked matches Ok(guard) ==> (result matches Ok(same) && same == guard),
        locked is Err ==> (result matches Err(e) && e == WaitGroupError::Poisoned),
    opens_invariants none
    no_unwind
{
    match locked {
        Ok(guard) => Ok(guard),
        Err(_) => Err(WaitGroupError::Poisoned),
    }
}

/// Registers one worker on the count behind `guard`: one more, unless the
/// count is the largest the machine holds, which is refused and left as it
/// is.
pub fn register_under(guard: &mut std::sync::MutexGuard<usize>) -> (result: Result<(), WaitGroupError>)
    ensures
        held(*old(guard)) < usize::MAX ==> result is Ok && held(*final(guard)) as nat
            == spec_registered(held(*old(guard)) as nat),
        held(*old(guard)) == usize::MAX ==> result == Err::<(), WaitGroupError>(
            WaitGroupError::Overflow,
        ) && held(*final(guard)) == held(*old(guard)),
        same_lock(*old(guard), *final(guard)),
        result is Ok ==> stored_over(*final(guard), *old(guard)),
{
    let count: usize = read(guard);
    match registered(count) {
        Some(next) => {
            store(guard, next);
            Ok(())
        },
        None => Err(WaitGroupError::Overflow),
    }
}

/// Releases one worker from the count behind `guard`: one less, and a count
/// of zero stays zero.
pub fn release_under(guard: &mut std::sync::MutexGuard<usize>)
    ensures
        held(*final(guard)) as nat == spec_released(held(*old(guard)) as nat),
        same_lock(*old(guard), *final(guard)),
        stored_over(*final(guard), *old(guard)),
    opens_invariants none
    no_unwind
{
    let count: usize = read(guard);
    store(guard, released(count));
}

impl Inner {
    /// The count of outstanding workers that this state was made with.
    pub closed spec fn started_with(&self) -> usize {
        made_with(self.waiter_count)
    }

    /// Whether `guard` is a guard of the lock of this state.
    pub closed spec fn guards(&self, guard: std::sync::MutexGuard<usize>) -> bool {
        locked_from(guard, self.waiter_count)
    }

    /// Whether an attempt on the lock of this state found it poisoned.
    pub closed spec fn found_poisoned(&self) -> bool {
        seen_poisoned(self.waiter_count)
    }

    /// Whether a waiter has found this state idle: it parked with a guard of
    /// the lock, and the guard that this handed back held zero.
    pub open spec fn found_idle(&self) -> bool {
        exists|taken: std::sync::MutexGuard<usize>, idle: std::sync::MutexGuard<usize>|
            #![trigger parked_over(idle, taken)]
            self.guards(taken) && parked_over(idle, taken) && self.guards(idle) && held(idle)
                == 0
    }

    /// Whether the count of this state has stood at `count` under its lock:
    /// a guard of the lock held that number.
    pub open spec fn stood_at(&self, count: usize) -> bool {
        exists|guard: std::sync::MutexGuard<usize>| #[trigger]
            self.guards(guard) && held(guard) == count
    }

    /// Whether the count of this state has taken in one worker: a guard of
    /// the lock held a number below the largest, and an assignment through
    /// that guard left one more.
    pub open spec fn took_one_in(&self) -> bool {
        exists|before: std::sync::MutexGuard<usize>, after: std::sync::MutexGuard<usize>|
            #![trigger stored_over(after, before)]
            self.guards(before) && stored_over(after, before) && held(before) < usize::MAX
                && held(after) as nat == spec_registered(held(before) as nat)
    }

    /// Whether the count of this state has given one worker up: a guard of
    /// the lock held a number, and an assignment through that guard left one
    /// less, or zero where it held zero.
    pub open spec fn gave_one_up(&self) -> bool {
        exists|before: std::sync::MutexGuard<usize>, after: std::sync::MutexGuard<usize>|
            #![trigger stored_over(after, before)]
            self.guards(before) && stored_over(after, before) && held(after) as nat
                == spec_released(held(before) as nat)
    }

    /// Shared state with no worker outstanding and nobody parked.
    fn new() -> (inner: Inner)
        ensures
            inner.started_with() == 0,
    {
        Inner { waiter_count: new_lock(0), cond_var: new_condition() }
    }

    /// Takes the lock and registers one worker on the count. On `Ok` the
    /// count has taken one worker in; with `Overflow` it stood at the
    /// largest number the machine holds; with `Poisoned` the lock was found
    /// poisoned.
    fn register(&self) -> (result: Result<(), WaitGroupError>)
        ensures
            result is Ok ==> self.took_one_in(),
            result matches Err(e) ==> (e == WaitGroupError::Poisoned && self.found_poisoned())
                || (e == WaitGroupError::Overflow && self.stood_at(usize::MAX)),
    {
        match unpoisoned(acquire(&self.waiter_count)) {
            Ok(mut guard) => {
                let ghost before = guard;
                let result = register_under(&mut guard);
                proof {
                    assert(self.guards(before));
                    assert(result is Ok ==> stored_over(guard, before));
                }
                result
            },
            Err(e) => Err(e),
        }
    }

    /// Takes the lock, releases one worker from the count and wakes every
    /// waiter while it still holds the lock, whatever the count has become.
    /// On `Ok` the count has given one worker up. A lock that is found
    /// poisoned leaves the count as it is and comes back as `Poisoned`; the
    /// waiters are woken all the same and find the lock poisoned themselves.
    fn release(&self) -> (result: Result<(), WaitGroupError>)
        ensures
            result is Ok ==> self.gave_one_up(),
            result matches Err(e) ==> e == WaitGroupError::Poisoned && self.found_poisoned(),
        opens_invariants none
        no_unwind
    {
        match unpoisoned(acquire(&self.waiter_count)) {
            Ok(mut guard) => {
                let ghost before = guard;
                release_under(&mut guard);
                wake_all(&self.cond_var);
                proof {
                    assert(self.guards(before));
                    assert(stored_over(guard, before));
                }
                Ok(())
            },
            Err(e) => {
                wake_all(&self.cond_var);
                Err(e)
            },
        }
    }

    /// Takes the lock and reads the count: the number that comes back is one
    /// at which the count stood under the lock. It fails where the lock was
    /// found poisoned.
    fn pending(&self) -> (result: Result<usize, WaitGroupError>)
        ensures
            result matches Ok(count) ==> self.stood_at(count),
            result matches Err(e) ==> e == WaitGroupError::Poisoned && self.found_poisoned(),
    {
        match unpoisoned(acquire(&self.waiter_count)) {
            Ok(guard) => {
                proof {
                    assert(self.guards(guard));
                }
                Ok(read(&guard))
            },
            Err(e) => Err(e),
        }
    }

    /// Parks with the lock in hand until no worker is outstanding. Where
    /// the count under `guard` is zero already, the guard comes back at
    /// once, as it is. The guard that comes back is the one that the parking
    /// handed back for `guard`; it holds the lock of this state, and the
    /// count under it is zero. It fails where the lock was found poisoned.
    pub fn park_under<'a>(&self, guard: std::sync::MutexGuard<'a, usize>) -> (result: Result<
        std::sync::MutexGuard<'a, usize>,
        WaitGroupError,
    >)
        requires
            self.guards(guard),
        ensures
            held(guard) == 0 ==> (result matches Ok(idle) && idle == guard),
            result matches Ok(idle) ==> held(idle) == 0 && self.guards(idle) && parked_over(
                idle,
                guard,
            ),
            result matches Err(e) ==> e == WaitGroupError::Poisoned && self.found_poisoned(),
    {
        unpoisoned(park_while_outstanding(self, guard))
    }

    /// Takes the lock and parks until no worker is outstanding. The guard
    /// that comes back holds the lock of this state, and the count under it
    /// is zero: a waiter has found the state idle.
    fn park(&self) -> (result: Result<std::sync::MutexGuard<'_, usize>, WaitGroupError>)
        ensures
            result matches Ok(idle) ==> held(idle) == 0 && self.guards(idle) && self.found_idle(),
            result matches Err(e) ==> e == WaitGroupError::Poisoned && self.found_poisoned(),
    {
        match unpoisoned(acquire(&self.waiter_count)) {
            Ok(guard) => self.park_under(guard),
            Err(e) => Err(e),
        }
    }

    /// Parks until no worker is outstanding, and lets the lock go again. It
    /// returns `Ok` only once a waiter has found the state idle, so that the
    /// count stood at zero under the lock, and fails where the lock was
    /// found poisoned.
    fn wait(&self) -> (result: Result<(), WaitGroupError>)
        ensures
            result is Ok ==> self.found_idle() && self.stood_at(0),
            result matches Err(e) ==> e == WaitGroupError::Poisoned && self.found_poisoned(),
    {
        match self.park() {
            Ok(idle) => {
                proof {
                    assert(self.guards(idle));
                }
                Ok(())
            },
            Err(e) => Err(e),
        }
    }
}

impl Guard {
    /// Whether the release of this share is still due.
    pub closed spec fn due(&self) -> bool {
        self.live
    }

    /// The state that this share is a share of.
    pub closed spec fn state(&self) -> Inner {
        *self.inner
    }
}

impl Drop for Guard {
    /// The release of a worker whose handle goes out of scope, on whatever
    /// path its task ends: where the release is still due, the count gives
    /// one worker up, unless the lock is found poisoned. After it no release
    /// is due. A drop has nobody to hand a poisoned lock to: the waiters,
    /// woken by the release, find it themselves.
    fn drop(&mut self)
        ensures
            old(self).due() ==> (old(self).state().gave_one_up() || old(
                self,
            ).state().found_poisoned()),
            !final(self).due(),
            final(self).state() == old(self).state(),
        opens_invariants none
        no_unwind
    {
        if self.live {
            self.live = false;
            match self.inner.release() {
                Ok(()) => {},
                Err(_) => {},
            }
        }
    }
}

impl WaitGroup<NotGuard> {
    /// The state that this handle shares with the other handles of its group.
    pub closed spec fn shared(&self) -> Inner {
        *self.share.inner
    }

    /// A coordinator of a fresh group, whose count of outstanding workers
    /// starts at zero.
    pub fn new() -> (group: WaitGroup<NotGuard>)
        ensures
            group.shared().started_with() == 0,
    {
        WaitGroup { share: NotGuard { inner: std::sync::Arc::new(Inner::new()) } }
    }

    /// Registers one worker and returns its handle, which is on the same
    /// group as the coordinator and has its release still due: the count has
    /// taken one worker in. Fails, with no handle made, where the lock is
    /// poisoned, or with `Overflow` where the count stood at the largest
    /// number the machine holds.
    pub fn add(&self) -> (result: Result<WaitGroup<Guard>, WaitGroupError>)
        ensures
            result matches Ok(worker) ==> worker.shared() == self.shared() && worker.is_live(),
            result is Ok ==> self.shared().took_one_in(),
            result matches Err(e) ==> (e == WaitGroupError::Poisoned
                && self.shared().found_poisoned()) || (e == WaitGroupError::Overflow
                && self.shared().stood_at(usize::MAX)),
    {
        match self.share.inner.register() {
            Ok(()) => Ok(
                WaitGroup { share: Guard { inner: share(&self.share.inner), live: true } },
            ),
            Err(e) => Err(e),
        }
    }

    /// The number of workers that are outstanding at the moment of the call:
    /// one at which the count stood under the lock. Fails only where the
    /// lock was found poisoned.
    pub fn pending(&self) -> (result: Result<usize, WaitGroupError>)
        ensures
            result matches Ok(count) ==> self.shared().stood_at(count),
            result matches Err(e) ==> e == WaitGroupError::Poisoned
                && self.shared().found_poisoned(),
    {
        self.share.inner.pending()
    }

    /// Blocks until a look at the count under the lock finds no worker
    /// outstanding; returns at once where none is. It returns `Ok` only once
    /// the count stood at zero under the lock, and fails only where the lock
    /// was found poisoned.
    pub fn wait(&self) -> (result: Result<(), WaitGroupError>)
        ensures
            result is Ok ==> self.shared().found_idle() && self.shared().stood_at(0),
            result matches Err(e) ==> e == WaitGroupError::Poisoned
                && self.shared().found_poisoned(),
    {
        self.share.inner.wait()
    }
}

impl WaitGroup<Guard> {
    /// The state that this handle shares with the other handles of its group.
    pub closed spec fn shared(&self) -> Inner {
        *self.share.inner
    }

    /// Whether the release of this handle is still due.
    pub closed spec fn is_live(&self) -> bool {
        self.share.live
    }

    /// The number of workers that are outstanding at the moment of the call:
    /// one at which the count stood under the lock. Fails only where the
    /// lock was found poisoned.
    pub fn pending(&self) -> (result: Result<usize, WaitGroupError>)
        ensures
            result matches Ok(count) ==> self.shared().stood_at(count),
            result matches Err(e) ==> e == WaitGroupError::Poisoned
                && self.shared().found_poisoned(),
    {
        self.share.inner.pending()
    }

    /// The worker's release, which ends the handle: on `Ok` the count has
    /// given one worker up. A handle whose release is still due, as every
    /// handle that `add` returned is, releases here and no more when it is
    /// dropped. Fails only where the lock was found poisoned.
    pub fn release(self) -> (result: Result<(), WaitGroupError>)
        ensures
            self.is_live() && result is Ok ==> self.shared().gave_one_up(),
            result matches Err(e) ==> e == WaitGroupError::Poisoned
                && self.shared().found_poisoned(),
    {
        let mut handle = self;
        if handle.share.live {
            handle.share.live = false;
            handle.share.inner.release()
        } else {
            Ok(())
        }
    }
}

} // verus!
