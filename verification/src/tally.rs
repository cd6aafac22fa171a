//! The counting protocol of the wait group on plain numbers.

use vstd::prelude::*;
use vstd::multiset::Multiset;

verus! {

/// The count of outstanding workers after one more is registered.
pub open spec fn spec_registered(count: nat) -> nat {
    count + 1
}

/// The count of outstanding workers after one release: one less, and a
/// count of zero stays zero.
pub open spec fn spec_released(count: nat) -> nat {
    if count > 0 {
        (count - 1) as nat
    } else {
        0
    }
}

/// Whether a waiter that sees `count` has to stay parked.
pub open spec fn spec_outstanding(count: nat) -> bool {
    count > 0
}

/// Registers one worker on `count`. The count grows by one; a count that is
/// already the largest the machine holds is refused with `None`.
pub fn registered(count: usize) -> (next: Option<usize>)
    ensures
        spec_registered(count as nat) <= usize::MAX ==> next == Some(
            spec_registered(count as nat) as usize,
        ),
        spec_registered(count as nat) > usize::MAX ==> next is None,
{
    count.checked_add(1)
}

/// Releases one worker from `count`, never going below zero.
pub fn released(count: usize) -> (next: usize)
    ensures
        next as nat == spec_released(count as nat),
    opens_invariants none
    no_unwind
{
    if count > 0 {
        count - 1
    } else {
        count
    }
}

/// The predicate that a waiter tests again after every wake-up.
pub fn outstanding(count: usize) -> (parked: bool)
    ensures
        parked == spec_outstanding(count as nat),
{
    count > 0
}

/// The count after `n` registrations in a row.
pub open spec fn spec_registered_times(count: nat, n: nat) -> nat
    decreases n,
{
    if n == 0 {
        count
    } else {
        spec_registered(spec_registered_times(count, (n - 1) as nat))
    }
}

/// The count after `k` releases in a row.
pub open spec fn spec_released_times(count: nat, k: nat) -> nat
    decreases k,
{
    if k == 0 {
        count
    } else {
        spec_released(spec_released_times(count, (k - 1) as nat))
    }
}

/// `n` registrations in a row add `n` to the count.
pub proof fn lemma_registered_times(count: nat, n: nat)
    ensures
        spec_registered_times(count, n) == count + n,
    decreases n,
{
    if n > 0 {
        lemma_registered_times(count, (n - 1) as nat);
    }
}

/// `k` releases in a row take `k` from the count, as far as zero.
pub proof fn lemma_released_times(count: nat, k: nat)
    ensures
        k <= count ==> spec_released_times(count, k) == count - k,
        k >= count ==> spec_released_times(count, k) == 0,
    decreases k,
{
    if k > 0 {
        lemma_released_times(count, (k - 1) as nat);
    }
}

/// A fresh group on which `n` workers were registered and `k` of them have
/// released has workers outstanding exactly as long as `k` is less than `n`:
/// a waiter gets through after the last release, and after no earlier one.
pub proof fn lemma_idle_after_last_release(n: nat, k: nat)
    requires
        k <= n,
    ensures
        spec_released_times(spec_registered_times(0, n), k) == n - k,
        spec_outstanding(spec_released_times(spec_registered_times(0, n), k)) <==> k < n,
{
    lemma_registered_times(0, n);
    lemma_released_times(n, k);
}

/// A release changes the count by one at most and leaves a count of zero at
/// zero. So releases beyond those that were registered are lost: however
/// many follow, the count stays at zero, and the next registration counts
/// as the first. Fewer releases than the count leave workers outstanding.
pub proof fn lemma_surplus_release_is_lost(count: nat, k: nat)
    ensures
        spec_released(count) <= count <= spec_released(count) + 1,
        spec_released(0) == 0,
        k >= count ==> spec_released_times(count, k) == 0,
        k >= count ==> spec_registered(spec_released_times(count, k)) == 1,
        k < count ==> spec_outstanding(spec_released_times(count, k)),
{
    lemma_released_times(count, k);
}

/// What happens to a group, one step at a time.
#[derive(Clone, Copy, Debug, PartialEq, Eq, Structural)]
pub enum Event {
    /// The coordinator registers a worker.
    Register,
    /// A worker releases its handle.
    Release,
}

/// The count after one event.
pub open spec fn spec_step(count: nat, event: Event) -> nat {
    match event {
        Event::Register => spec_registered(count),
        Event::Release => spec_released(count),
    }
}

/// The count after the events of `trace`, in their order.
pub open spec fn spec_run(count: nat, trace: Seq<Event>) -> nat
    decreases trace.len(),
{
    if trace.len() == 0 {
        count
    } else {
        spec_step(spec_run(count, trace.drop_last()), trace.last())
    }
}

/// Whether the count stays within the machine's range all through `trace`.
pub open spec fn spec_fits(count: nat, trace: Seq<Event>) -> bool {
    forall|i: int| 0 <= i <= trace.len() ==> #[trigger] spec_run(count, trace.take(i)) <= usize::MAX
}

/// One event on `count`: the count after it, or `None` where a registration
/// finds the largest count the machine holds.
pub fn step(count: usize, event: Event) -> (next: Option<usize>)
    ensures
        spec_step(count as nat, event) <= usize::MAX ==> next == Some(
            spec_step(count as nat, event) as usize,
        ),
        spec_step(count as nat, event) > usize::MAX ==> next is None,
{
    match event {
        Event::Register => registered(count),
        Event::Release => Some(released(count)),
    }
}

/// The events of `trace` on `count`, in their order: the count after the
/// last of them, or `None` where the count leaves the machine's range on
/// the way.
pub fn run(count: usize, trace: &Vec<Event>) -> (last: Option<usize>)
    ensures
        spec_fits(count as nat, trace@) ==> last == Some(spec_run(count as nat, trace@) as usize),
        !spec_fits(count as nat, trace@) ==> last is None,
{
    let mut current: usize = count;
    let mut i: usize = 0;
    proof {
        assert(trace@.take(0) =~= Seq::<Event>::empty());
    }
    while i < trace.len()
        invariant
            i <= trace.len(),
            current as nat == spec_run(count as nat, trace@.take(i as int)),
            forall|j: int| 0 <= j <= i ==> #[trigger] spec_run(count as nat, trace@.take(j))
                <= usize::MAX,
        decreases trace.len() - i,
    {
        proof {
            assert(trace@.take(i + 1).drop_last() =~= trace@.take(i as int));
            assert(trace@.take(i + 1).last() == trace@[i as int]);
            assert(spec_run(count as nat, trace@.take(i + 1)) == spec_step(
                current as nat,
                trace@[i as int],
            ));
        }
        match step(current, trace[i]) {
            Some(next) => {
                current = next;
            },
            None => {
                return None;
            },
        }
        i = i + 1;
    }
    proof {
        assert(trace@.take(i as int) =~= trace@);
    }
    Some(current)
}

/// Whether every release of `trace` finds a worker outstanding: no handle
/// is released that was not registered before.
pub open spec fn spec_orderly(count: nat, trace: Seq<Event>) -> bool
    decreases trace.len(),
{
    trace.len() == 0 || (spec_orderly(count, trace.drop_last()) && (trace.last() == Event::Release
        ==> spec_outstanding(spec_run(count, trace.drop_last()))))
}

/// How often `event` occurs in `trace`.
pub open spec fn spec_occurrences(trace: Seq<Event>, event: Event) -> nat {
    trace.to_multiset().count(event)
}

/// After an orderly trace the count is what it was, plus the registrations,
/// less the releases.
pub proof fn lemma_orderly_balance(count: nat, trace: Seq<Event>)
    requires
        spec_orderly(count, trace),
    ensures
        spec_run(count, trace) + spec_occurrences(trace, Event::Release) == count
            + spec_occurrences(trace, Event::Register),
    decreases trace.len(),
{
    broadcast use vstd::multiset::group_multiset_axioms;

    if trace.len() == 0 {
        trace.to_multiset_ensures();
        assert(trace.to_multiset().len() == 0);
        assert(trace.to_multiset() =~= Multiset::<Event>::empty());
    } else {
        let front = trace.drop_last();
        lemma_orderly_balance(count, front);
        assert(trace =~= front.push(trace.last()));
        vstd::seq_lib::to_multiset_build(front, trace.last());
        assert(trace.to_multiset() =~= front.to_multiset().insert(trace.last()));
    }
}

/// The order of the events does not matter: two orderly traces that hold
/// the same events, each as often as the other, end in the same count, and
/// a waiter gets through after the one exactly if it does after the other.
pub proof fn lemma_order_independent(count: nat, first: Seq<Event>, second: Seq<Event>)
    requires
        spec_orderly(count, first),
        spec_orderly(count, second),
        first.to_multiset() == second.to_multiset(),
    ensures
        spec_run(count, first) == spec_run(count, second),
        spec_outstanding(spec_run(count, first)) == spec_outstanding(spec_run(count, second)),
{
    lemma_orderly_balance(count, first);
    lemma_orderly_balance(count, second);
}

/// What comes first in an orderly trace is an orderly trace.
pub proof fn lemma_orderly_prefix(count: nat, trace: Seq<Event>, i: int)
    requires
        spec_orderly(count, trace),
        0 <= i <= trace.len(),
    ensures
        spec_orderly(count, trace.take(i)),
    decreases trace.len(),
{
    if i == trace.len() {
        assert(trace.take(i) =~= trace);
    } else {
        lemma_orderly_prefix(count, trace.drop_last(), i);
        assert(trace.drop_last().take(i) =~= trace.take(i));
    }
}

/// An orderly trace on a fresh group leaves workers outstanding exactly as
/// long as it holds fewer releases than registrations.
pub proof fn lemma_orderly_outstanding(trace: Seq<Event>)
    requires
        spec_orderly(0, trace),
    ensures
        spec_occurrences(trace, Event::Release) <= spec_occurrences(trace, Event::Register),
        spec_outstanding(spec_run(0, trace)) <==> spec_occurrences(trace, Event::Release)
            < spec_occurrences(trace, Event::Register),
{
    lemma_orderly_balance(0, trace);
}

/// At whatever moment of an orderly trace on a fresh group a waiter looks at
/// the count, and however many waiters do, each finds workers outstanding
/// exactly if fewer releases than registrations have happened by then: none
/// of them gets through before the last release.
pub proof fn lemma_no_waiter_passes_early(trace: Seq<Event>, i: int)
    requires
        spec_orderly(0, trace),
        0 <= i <= trace.len(),
    ensures
        spec_outstanding(spec_run(0, trace.take(i))) <==> spec_occurrences(
            trace.take(i),
            Event::Release,
        ) < spec_occurrences(trace.take(i), Event::Register),
{
    lemma_orderly_prefix(0, trace, i);
    lemma_orderly_outstanding(trace.take(i));
}

} // verus!
