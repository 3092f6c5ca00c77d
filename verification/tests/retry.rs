use mulligan::backoff::{Backoff, Exponential, Linear};
use mulligan::jitter::{Full, Jitter};
use mulligan::retry::{Action, Phase, Retry};
use mulligan::{until, until_ok, Mulligan};
use std::sync::{Arc, Mutex};
use std::time::Duration;

fn drive<T, E, Cond, Jit, Back, F>(
    policy: Mulligan<T, E, Cond, Jit, Back>,
    mut operation: F,
) -> (Result<T, E>, Vec<Duration>)
where
    Cond: Fn(&Result<T, E>) -> bool,
    Jit: Jitter,
    Back: Backoff,
    F: FnMut() -> Result<T, E>,
{
    let mut run = Retry::new(policy);
    let mut slept = Vec::new();
    loop {
        assert_eq!(run.phase(), Phase::Invoking);
        let result = operation();
        assert!(run.can_evaluate());
        match run.on_result(&result) {
            Action::Stop => {
                assert_eq!(run.phase(), Phase::Stopped);
                return (result, slept);
            }
            Action::Sleep(delay) => {
                assert!(run.is_suspended());
                slept.push(delay);
                run.on_wake(&result);
            }
        }
    }
}

#[test]
fn ceiling_three_with_failing_operation_is_invoked_four_times() {
    let mut calls = 0u32;
    let (result, slept) = drive(until_ok::<(), u32>().stop_after(3), || {
        calls += 1;
        Err(calls)
    });
    assert_eq!(calls, 4);
    assert_eq!(result, Err(4));
    assert_eq!(slept.len(), 3);
}

#[test]
fn ceiling_zero_permits_a_single_attempt() {
    let mut calls = 0u32;
    let (result, slept) = drive(until_ok::<(), u32>().stop_after(0), || {
        calls += 1;
        Err(calls)
    });
    assert_eq!(calls, 1);
    assert_eq!(result, Err(1));
    assert!(slept.is_empty());
}

#[test]
fn success_on_the_first_attempt_stops_at_once() {
    let mut calls = 0u32;
    let (result, slept) = drive(until_ok::<&str, u32>().stop_after(9), || {
        calls += 1;
        Ok("done")
    });
    assert_eq!(calls, 1);
    assert_eq!(result, Ok("done"));
    assert!(slept.is_empty());
}

#[test]
fn two_failures_then_success_is_three_invocations_and_two_after_hooks() {
    let after = Arc::new(Mutex::new(0u32));
    let seen = after.clone();
    let policy = until(|r: &Result<&str, u32>| r.is_ok()).after_attempt(move |_r, _a| {
        *seen.lock().unwrap() += 1;
    });
    let mut calls = 0u32;
    let (result, slept) = drive(policy, || {
        calls += 1;
        if calls < 3 {
            Err(calls)
        } else {
            Ok("third time lucky")
        }
    });
    assert_eq!(calls, 3);
    assert_eq!(result, Ok("third time lucky"));
    assert_eq!(*after.lock().unwrap(), 2);
    assert_eq!(slept, vec![Duration::ZERO, Duration::ZERO]);
}

#[test]
fn fixed_zero_delay_with_ceiling_five_is_six_invocations_and_no_sleep() {
    let mut calls = 0u32;
    let policy = until_ok::<(), String>().fixed(Duration::from_millis(0)).stop_after(5);
    let (result, slept) = drive(policy, || {
        calls += 1;
        Err(format!("failure {calls}"))
    });
    assert_eq!(calls, 6);
    assert_eq!(result, Err("failure 6".to_string()));
    assert_eq!(slept.len(), 5);
    let total: Duration = slept.iter().sum();
    assert_eq!(total, Duration::ZERO);
}

#[test]
fn abandoning_a_suspended_run_fires_nothing_more() {
    let after = Arc::new(Mutex::new(Vec::new()));
    let seen = after.clone();
    let policy = until_ok::<(), u32>().after_attempt(move |r, a| {
        seen.lock().unwrap().push((r.clone(), a));
    });
    let mut calls = 0u32;
    let mut run = Retry::new(policy);

    calls += 1;
    let first: Result<(), u32> = Err(calls);
    assert!(matches!(run.on_result(&first), Action::Sleep(_)));
    run.on_wake(&first);

    calls += 1;
    let second: Result<(), u32> = Err(calls);
    assert!(matches!(run.on_result(&second), Action::Sleep(_)));
    assert_eq!(run.phase(), Phase::Suspending);
    assert_eq!(run.attempt(), 1);
    drop(run);

    assert_eq!(calls, 2);
    assert_eq!(*after.lock().unwrap(), vec![(Err(1), 0)]);
}

#[test]
fn hooks_fire_in_order_with_their_attempt_indices() {
    let log = Arc::new(Mutex::new(Vec::new()));
    let before_log = log.clone();
    let after_log = log.clone();
    let policy = until_ok::<u8, u8>()
        .stop_after(2)
        .before_attempt(move |a| before_log.lock().unwrap().push(format!("before {a}")))
        .after_attempt(move |r, a| after_log.lock().unwrap().push(format!("after {r:?} {a}")));
    let mut run = Retry::new(policy);
    let mut attempt_results = vec![Err(10u8), Err(11), Err(12)].into_iter();
    loop {
        let result: Result<u8, u8> = attempt_results.next().unwrap();
        log.lock().unwrap().push(format!("invoke {}", run.attempt()));
        match run.on_result(&result) {
            Action::Stop => break,
            Action::Sleep(_) => {
                log.lock().unwrap().push("sleep".to_string());
                run.on_wake(&result);
            }
        }
    }
    let expected: Vec<String> = [
        "invoke 0",
        "before 1",
        "sleep",
        "after Err(10) 0",
        "invoke 1",
        "before 2",
        "sleep",
        "after Err(11) 1",
        "invoke 2",
    ]
    .iter()
    .map(|s| s.to_string())
    .collect();
    assert_eq!(*log.lock().unwrap(), expected);
}

#[test]
fn attempt_index_grows_by_one_per_iteration() {
    let mut run = Retry::new(until_ok::<(), ()>().stop_after(50));
    assert_eq!(run.attempt(), 0);
    for expected in 0..50u32 {
        assert_eq!(run.attempt(), expected);
        let result = Err(());
        assert!(matches!(run.on_result(&result), Action::Sleep(_)));
        assert_eq!(run.attempt(), expected);
        run.on_wake(&result);
        assert_eq!(run.attempt(), expected + 1);
    }
    assert!(matches!(run.on_result(&Err(())), Action::Stop));
    assert_eq!(run.attempt(), 50);
}

#[test]
fn custom_predicate_stops_on_a_chosen_error() {
    let policy = until(|r: &Result<(), &str>| matches!(r, Err("fatal")));
    let mut outcomes = vec![Err("busy"), Err("busy"), Err("fatal"), Ok(())].into_iter();
    let mut calls = 0u32;
    let (result, _) = drive(policy, || {
        calls += 1;
        outcomes.next().unwrap()
    });
    assert_eq!(calls, 3);
    assert_eq!(result, Err("fatal"));
}

#[test]
fn linear_backoff_delays_grow_with_the_attempt_index() {
    let policy = until_ok::<(), ()>().linear(Duration::from_millis(10)).stop_after(4);
    let (_, slept) = drive(policy, || Err(()));
    assert_eq!(
        slept,
        vec![
            Duration::ZERO,
            Duration::from_millis(10),
            Duration::from_millis(20),
            Duration::from_millis(30),
        ]
    );
}

#[test]
fn exponential_backoff_delays_double_and_respect_the_cap() {
    let policy = until_ok::<(), ()>()
        .exponential(Duration::from_secs(1))
        .max_delay(Duration::from_secs(5))
        .stop_after(5);
    let (_, slept) = drive(policy, || Err(()));
    assert_eq!(
        slept,
        vec![
            Duration::from_secs(1),
            Duration::from_secs(2),
            Duration::from_secs(4),
            Duration::from_secs(5),
            Duration::from_secs(5),
        ]
    );
}

#[test]
fn backoff_and_jitter_can_be_supplied_as_values() {
    let policy = until_ok::<(), ()>()
        .backoff(Linear::base(Duration::from_millis(7)))
        .jitter(Full)
        .stop_after(6);
    let (_, slept) = drive(policy, || Err(()));
    assert_eq!(slept.len(), 6);
    let mut attempt = 0u32;
    for delay in slept.iter() {
        assert!(*delay <= Duration::from_millis(7) * attempt);
        attempt += 1;
    }
    let swapped = until_ok::<(), ()>()
        .full_jitter()
        .backoff(Exponential::base(Duration::from_millis(3)))
        .stop_after(3);
    let (_, slept) = drive(swapped, || Err(()));
    assert!(slept[0] <= Duration::from_millis(3));
    assert!(slept[1] <= Duration::from_millis(6));
    assert!(slept[2] <= Duration::from_millis(12));
}

#[test]
fn jitter_builders_keep_delays_within_their_ranges() {
    for _ in 0..100 {
        let full = until_ok::<(), ()>().fixed(Duration::from_millis(40)).full_jitter().stop_after(3);
        let (_, slept) = drive(full, || Err(()));
        assert!(slept.iter().all(|d| *d <= Duration::from_millis(40)));

        let equal = until_ok::<(), ()>().fixed(Duration::from_millis(40)).equal_jitter().stop_after(3);
        let (_, slept) = drive(equal, || Err(()));
        assert!(slept.iter().all(|d| *d >= Duration::from_millis(20) && *d <= Duration::from_millis(40)));

        let decorrelated = until_ok::<(), ()>()
            .decorrelated_jitter(Duration::from_millis(5))
            .max_delay(Duration::from_millis(12))
            .stop_after(4);
        let (_, slept) = drive(decorrelated, || Err(()));
        assert!(slept[0] >= Duration::from_millis(5));
        assert!(slept.iter().all(|d| *d <= Duration::from_millis(12)));
    }
}

#[test]
fn calculate_delay_puts_the_backoff_through_the_cap() {
    let mut policy = until_ok::<(), ()>().linear(Duration::from_secs(2)).max_delay(Duration::from_secs(5));
    assert_eq!(policy.calculate_delay(0), Duration::ZERO);
    assert_eq!(policy.calculate_delay(1), Duration::from_secs(2));
    assert_eq!(policy.calculate_delay(2), Duration::from_secs(4));
    assert_eq!(policy.calculate_delay(3), Duration::from_secs(5));
    assert_eq!(policy.calculate_delay(u32::MAX), Duration::from_secs(5));
}

#[test]
fn policy_should_stop_joins_ceiling_and_predicate() {
    let policy = until_ok::<u8, u8>().stop_after(2);
    assert!(policy.has_ceiling());
    assert!(!policy.should_stop(&Err(1), 0));
    assert!(!policy.should_stop(&Err(1), 1));
    assert!(policy.should_stop(&Err(1), 2));
    assert!(policy.should_stop(&Ok(1), 0));
    let unbounded = until_ok::<u8, u8>();
    assert!(!unbounded.has_ceiling());
    assert!(!unbounded.should_stop(&Err(1), u32::MAX));
}

#[test]
fn fresh_run_awaits_a_result() {
    let run = Retry::new(until_ok::<(), ()>());
    assert!(run.can_evaluate());
    assert!(!run.is_suspended());
    assert_eq!(run.phase(), Phase::Invoking);
    assert_eq!(run.attempt(), 0);
}
