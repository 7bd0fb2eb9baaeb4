use std::cell::Cell;
use std::time::Duration;

use finito::{AlwaysRetry, Condition, ExponentialBackoff, FibonacciBackoff, FixedInterval, Phase, RetryMachine, Step};

/// Runs a retry to its end with attempts that resolve at once, and counts
/// the attempts made and the waits slept.
fn drive<I, C, T, E, F>(strategy: I, condition: C, mut attempt: F) -> (Result<T, E>, Vec<Duration>)
where
    I: Iterator<Item = Duration>,
    C: Condition<E>,
    F: FnMut() -> Result<T, E>,
{
    let mut strategy = strategy;
    let mut outcome = attempt();
    let mut machine = RetryMachine::new(condition);
    let mut slept = Vec::new();
    let mut step = machine.on_attempt_done(outcome);
    loop {
        match step {
            Step::Resolve(r) => return (r, slept),
            Step::NextWait => step = machine.on_next_wait(strategy.next()),
            Step::Sleep(d) => {
                slept.push(d);
                machine.on_wait_over();
                outcome = attempt();
                step = machine.on_attempt_done(outcome);
            }
        }
    }
}

fn fixed(millis: u64) -> impl Iterator<Item = Duration> {
    let mut s = FixedInterval::from_millis(millis);
    std::iter::from_fn(move || Some(Duration::from_millis(s.next_delay())))
}

fn always(_: &u64) -> bool {
    true
}

#[test]
fn attempts_just_once() {
    let counter = Cell::new(0usize);
    let (res, slept) = drive(std::iter::empty(), always, || {
        counter.set(counter.get() + 1);
        Err::<(), u64>(42)
    });
    assert_eq!(res, Err(42));
    assert_eq!(counter.get(), 1);
    assert!(slept.is_empty());
}

#[test]
fn attempts_until_max_retries_exceeded() {
    let counter = Cell::new(0usize);
    let (res, slept) = drive(fixed(100).take(2), always, || {
        counter.set(counter.get() + 1);
        Err::<(), u64>(42)
    });
    assert_eq!(res, Err(42));
    assert_eq!(counter.get(), 3);
    assert_eq!(slept, vec![Duration::from_millis(100); 2]);
}

#[test]
fn attempts_until_success() {
    let counter = Cell::new(0usize);
    let (res, slept) = drive(fixed(100), always, || {
        let previous = counter.get();
        counter.set(previous + 1);
        if previous < 3 {
            Err::<(), u64>(42)
        } else {
            Ok::<(), u64>(())
        }
    });
    assert_eq!(res, Ok(()));
    assert_eq!(counter.get(), 4);
    assert_eq!(slept.len(), 3);
}

#[test]
fn attempts_retry_only_if_given_condition_is_true() {
    let counter = Cell::new(0usize);
    let (res, _) = drive(
        fixed(100).take(5),
        |e: &usize| *e < 3,
        || {
            let previous = counter.get();
            counter.set(previous + 1);
            Err::<(), usize>(previous + 1)
        },
    );
    assert_eq!(res, Err(3));
    assert_eq!(counter.get(), 3);
}

#[test]
fn exhausted_strategy_returns_the_last_error() {
    let counter = Cell::new(0u64);
    let (res, _) = drive(fixed(10).take(4), always, || {
        counter.set(counter.get() + 1);
        Err::<(), u64>(counter.get())
    });
    assert_eq!(res, Err(5));
    assert_eq!(counter.get(), 5);
}

#[test]
fn declined_and_exhausted_failures_look_the_same() {
    let (declined, _) = drive(fixed(10), |_: &u64| false, || Err::<(), u64>(7));
    let (exhausted, _) = drive(std::iter::empty(), always, || Err::<(), u64>(7));
    assert_eq!(declined, exhausted);
}

#[test]
fn declined_failure_leaves_the_strategy_unasked() {
    let asked = Cell::new(0usize);
    let strategy = std::iter::from_fn(|| {
        asked.set(asked.get() + 1);
        Some(Duration::from_millis(1))
    });
    let (res, _) = drive(strategy, |_: &u64| false, || Err::<(), u64>(1));
    assert_eq!(res, Err(1));
    assert_eq!(asked.get(), 0);
}

#[test]
fn success_on_first_attempt_never_sleeps() {
    let (res, slept) = drive(fixed(10), always, || Ok::<u8, u64>(9));
    assert_eq!(res, Ok(9));
    assert!(slept.is_empty());
}

#[test]
fn condition_is_asked_once_per_failure() {
    let asked = Cell::new(0usize);
    let condition = |_: &u64| {
        asked.set(asked.get() + 1);
        true
    };
    let (res, _) = drive(fixed(1).take(3), condition, || Err::<(), u64>(2));
    assert_eq!(res, Err(2));
    assert_eq!(asked.get(), 4);
}

#[test]
fn waits_come_from_the_strategy_in_order() {
    let waits = vec![Duration::from_millis(3), Duration::from_millis(1), Duration::from_millis(2)];
    let (_, slept) = drive(waits.clone().into_iter(), always, || Err::<(), u64>(0));
    assert_eq!(slept, waits);
}

struct Budget {
    left: u32,
}

impl Condition<u64> for Budget {
    fn should_retry(&mut self, _error: &u64) -> bool {
        if self.left == 0 {
            false
        } else {
            self.left -= 1;
            true
        }
    }
}

#[test]
fn stateful_condition_limits_retries() {
    let counter = Cell::new(0usize);
    let (res, slept) = drive(fixed(5), Budget { left: 2 }, || {
        counter.set(counter.get() + 1);
        Err::<(), u64>(11)
    });
    assert_eq!(res, Err(11));
    assert_eq!(counter.get(), 3);
    assert_eq!(slept.len(), 2);
}

#[test]
fn unconditional_machine_retries_until_exhausted() {
    let mut strategy = fixed(100).take(2);
    let mut machine = RetryMachine::<AlwaysRetry, u64>::unconditional();
    let mut attempts = 1;
    let mut step = machine.on_attempt_done(Err::<(), u64>(42));
    let res = loop {
        match step {
            Step::Resolve(r) => break r,
            Step::NextWait => step = machine.on_next_wait(strategy.next()),
            Step::Sleep(d) => {
                assert_eq!(d, Duration::from_millis(100));
                machine.on_wait_over();
                attempts += 1;
                step = machine.on_attempt_done(Err::<(), u64>(42));
            }
        }
    };
    assert_eq!(res, Err(42));
    assert_eq!(attempts, 3);
    assert!(machine.phase() == Phase::Finished);
}

#[test]
fn always_retry_answers_true() {
    let mut c = AlwaysRetry;
    assert!(Condition::<u64>::should_retry(&mut c, &7));
}

#[test]
fn exponential_waits_are_slept_in_order() {
    let mut s = ExponentialBackoff::new(10, 2);
    let strategy = std::iter::from_fn(move || Some(Duration::from_millis(s.next_delay()))).take(5);
    let (res, slept) = drive(strategy, AlwaysRetry, || Err::<(), u64>(42));
    assert_eq!(res, Err(42));
    let millis: Vec<u128> = slept.iter().map(|d| d.as_millis()).collect();
    assert_eq!(millis, vec![10, 20, 40, 80, 160]);
}

#[test]
fn fibonacci_waits_are_slept_in_order() {
    let mut s = FibonacciBackoff::from_millis(10);
    let strategy = std::iter::from_fn(move || Some(Duration::from_millis(s.next_delay()))).take(5);
    let (res, slept) = drive(strategy, AlwaysRetry, || Err::<(), u64>(42));
    assert_eq!(res, Err(42));
    let millis: Vec<u128> = slept.iter().map(|d| d.as_millis()).collect();
    assert_eq!(millis, vec![10, 10, 20, 30, 50]);
}

#[test]
fn exhausted_strategy_after_ask_resolves_with_kept_error() {
    let mut machine = RetryMachine::<AlwaysRetry, u64>::unconditional();
    assert!(matches!(machine.on_attempt_done::<()>(Err(13)), Step::NextWait));
    assert!(machine.phase() == Phase::Asking);
    assert!(matches!(machine.on_next_wait::<()>(None), Step::Resolve(Err(13))));
    assert!(machine.phase() == Phase::Finished);
}
