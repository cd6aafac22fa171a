use std::sync::Mutex;

use waitgroup::group::{register_under, release_under, unpoisoned};
use waitgroup::tally::{outstanding, registered, released, run, step, Event};
use waitgroup::WaitGroupError;

#[test]
fn registered_adds_one() {
    assert_eq!(registered(0), Some(1));
    assert_eq!(registered(1), Some(2));
    assert_eq!(registered(41), Some(42));
    assert_eq!(registered(usize::MAX - 1), Some(usize::MAX));
}

#[test]
fn registered_refuses_the_largest_count() {
    assert_eq!(registered(usize::MAX), None);
}

#[test]
fn released_takes_one() {
    assert_eq!(released(1), 0);
    assert_eq!(released(2), 1);
    assert_eq!(released(42), 41);
    assert_eq!(released(usize::MAX), usize::MAX - 1);
}

#[test]
fn released_stays_at_zero() {
    assert_eq!(released(0), 0);
    assert_eq!(released(released(1)), 0);
}

#[test]
fn outstanding_only_above_zero() {
    assert!(!outstanding(0));
    assert!(outstanding(1));
    assert!(outstanding(5));
    assert!(outstanding(usize::MAX));
}

#[test]
fn all_registered_then_all_released_is_idle() {
    for n in 0..50usize {
        let mut count = 0usize;
        for _ in 0..n {
            count = registered(count).unwrap();
        }
        assert_eq!(count, n);
        for k in 0..n {
            assert!(outstanding(count), "idle after {} of {} releases", k, n);
            count = released(count);
        }
        assert!(!outstanding(count));
    }
}

#[test]
fn surplus_release_is_ignored() {
    let mut count = registered(0).unwrap();
    count = released(count);
    count = released(count);
    count = released(count);
    assert_eq!(count, 0);
    count = registered(count).unwrap();
    assert_eq!(count, 1);
    assert!(outstanding(count));
}

#[test]
fn register_under_stores_one_more() {
    let lock = Mutex::new(3usize);
    {
        let mut guard = lock.lock().unwrap();
        assert_eq!(register_under(&mut guard), Ok(()));
        assert_eq!(*guard, 4);
    }
    assert_eq!(*lock.lock().unwrap(), 4);
}

#[test]
fn register_under_refuses_overflow() {
    let lock = Mutex::new(usize::MAX);
    let mut guard = lock.lock().unwrap();
    assert_eq!(register_under(&mut guard), Err(WaitGroupError::Overflow));
    assert_eq!(*guard, usize::MAX);
}

#[test]
fn release_under_stores_one_less() {
    let lock = Mutex::new(3usize);
    {
        let mut guard = lock.lock().unwrap();
        release_under(&mut guard);
        assert_eq!(*guard, 2);
        release_under(&mut guard);
        release_under(&mut guard);
        assert_eq!(*guard, 0);
    }
    assert_eq!(*lock.lock().unwrap(), 0);
}

#[test]
fn release_under_stays_at_zero() {
    let lock = Mutex::new(0usize);
    let mut guard = lock.lock().unwrap();
    release_under(&mut guard);
    assert_eq!(*guard, 0);
}

#[test]
fn step_follows_the_event() {
    assert_eq!(step(0, Event::Register), Some(1));
    assert_eq!(step(7, Event::Register), Some(8));
    assert_eq!(step(7, Event::Release), Some(6));
    assert_eq!(step(0, Event::Release), Some(0));
    assert_eq!(step(usize::MAX, Event::Release), Some(usize::MAX - 1));
    assert_eq!(step(usize::MAX, Event::Register), None);
}

#[test]
fn run_of_nothing_keeps_the_count() {
    assert_eq!(run(0, &Vec::new()), Some(0));
    assert_eq!(run(9, &Vec::new()), Some(9));
}

#[test]
fn run_counts_up_and_down() {
    let trace = vec![
        Event::Register,
        Event::Register,
        Event::Release,
        Event::Register,
        Event::Release,
    ];
    assert_eq!(run(0, &trace), Some(1));
    assert_eq!(run(10, &trace), Some(11));
}

#[test]
fn run_five_registered_four_released() {
    let mut trace = vec![Event::Register; 5];
    for _ in 0..4 {
        trace.push(Event::Release);
    }
    let count = run(0, &trace).unwrap();
    assert_eq!(count, 1);
    assert!(outstanding(count));
    trace.push(Event::Release);
    let count = run(0, &trace).unwrap();
    assert_eq!(count, 0);
    assert!(!outstanding(count));
}

#[test]
fn run_loses_a_release_at_zero() {
    let trace = vec![Event::Release, Event::Release, Event::Register];
    assert_eq!(run(0, &trace), Some(1));
    let trace = vec![Event::Register, Event::Release, Event::Release];
    assert_eq!(run(0, &trace), Some(0));
}

#[test]
fn run_stops_at_overflow() {
    let trace = vec![Event::Register, Event::Release];
    assert_eq!(run(usize::MAX, &trace), None);
    assert_eq!(run(usize::MAX - 1, &trace), Some(usize::MAX - 1));
    let trace = vec![Event::Release, Event::Register, Event::Register];
    assert_eq!(run(usize::MAX, &trace), None);
}

#[test]
fn run_orders_of_an_orderly_trace_agree() {
    let orders = [
        vec![Event::Register, Event::Register, Event::Register, Event::Release, Event::Release],
        vec![Event::Register, Event::Release, Event::Register, Event::Release, Event::Register],
        vec![Event::Register, Event::Register, Event::Release, Event::Register, Event::Release],
        vec![Event::Register, Event::Release, Event::Register, Event::Register, Event::Release],
        vec![Event::Register, Event::Register, Event::Release, Event::Release, Event::Register],
    ];
    for order in orders.iter() {
        assert_eq!(run(0, order), Some(1));
    }
}

#[test]
fn run_random_orderly_traces_balance() {
    for _ in 0..200 {
        let mut trace = Vec::new();
        let mut registered_so_far = 0usize;
        let mut released_so_far = 0usize;
        for _ in 0..40 {
            let may_release = released_so_far < registered_so_far;
            if may_release && rand::Rng::gen_bool(&mut rand::thread_rng(), 0.5) {
                trace.push(Event::Release);
                released_so_far += 1;
            } else {
                trace.push(Event::Register);
                registered_so_far += 1;
            }
        }
        assert_eq!(run(0, &trace), Some(registered_so_far - released_so_far));
    }
}

#[test]
fn unpoisoned_hands_the_guard_on() {
    let lock = Mutex::new(11usize);
    let mut guard = unpoisoned(lock.lock()).unwrap();
    assert_eq!(*guard, 11);
    assert_eq!(register_under(&mut guard), Ok(()));
    assert_eq!(*guard, 12);
    drop(guard);
    assert_eq!(*unpoisoned(lock.lock()).unwrap(), 12);
}
