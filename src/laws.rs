use std::time::Duration;
use vstd::prelude::*;

use crate::engine::{decide, Phase, RetryMachine, Step};

verus! {

/// The wait that the strategy `waits` hands out when it is asked for the
/// `i`-th time: its `i`-th item, or nothing once it is exhausted.
pub open spec fn wait_at(waits: Seq<Duration>, i: nat) -> Option<Duration> {
    if i < waits.len() {
        Some(waits[i as int])
    } else {
        None
    }
}

/// How a retry that has reached attempt `i` ends, as the number of attempts
/// made in all and the outcome it resolves with. Attempt `j` resolves with
/// `outcome(j)`, the condition answers `verdict(j)` on its error, and the
/// strategy hands out `waits` (an endless strategy is described by any prefix
/// at least as long as the attempts made). Each attempt's step is `decide`,
/// exactly as `RetryMachine::on_attempt_done` and `RetryMachine::on_next_wait`
/// take it.
pub open spec fn settle<T, E>(
    outcome: spec_fn(nat) -> Result<T, E>,
    verdict: spec_fn(nat) -> bool,
    waits: Seq<Duration>,
    i: nat,
) -> (nat, Result<T, E>)
    decreases waits.len() - i,
{
    match decide(outcome(i), verdict(i), wait_at(waits, i)) {
        Step::Resolve(r) => (i + 1, r),
        _ => if i < waits.len() {
            settle(outcome, verdict, waits, i + 1)
        } else {
            (i + 1, outcome(i))
        },
    }
}

/// Attempts that fail and are retried while the strategy has waits left are
/// passed over: the retry ends as it ends from the first attempt after them.
/// A `RetryMachine` that has started attempt `n + 1` has recorded `n` such
/// attempts (its verdicts are all true and it holds `n` waits), so from there
/// its run ends as `settle` from `n` says.
pub proof fn lemma_settle_passes_retried_failures<T, E>(
    outcome: spec_fn(nat) -> Result<T, E>,
    verdict: spec_fn(nat) -> bool,
    waits: Seq<Duration>,
    i: nat,
    n: nat,
)
    requires
        i <= n <= waits.len(),
        forall|j: nat| i <= j < n ==> (#[trigger] outcome(j)) is Err && verdict(j),
    ensures
        settle(outcome, verdict, waits, i) == settle(outcome, verdict, waits, n),
    decreases n - i,
{
    if i < n {
        assert(outcome(i) is Err && verdict(i));
        lemma_settle_passes_retried_failures(outcome, verdict, waits, i + 1, n);
    }
}

/// One step of a `RetryMachine` is one step of `settle`. Where attempt `i`
/// resolves with `outcome(i)`, the condition answers `verdict(i)` and the
/// strategy answers `wait_at(waits, i)` when asked, `on_attempt_done` (and,
/// where it asks for the next wait, `on_next_wait`) returns
/// `decide(outcome(i), verdict(i), wait_at(waits, i))`: either the run
/// resolves there, after `i + 1` attempts, as `settle` says, or the machine
/// sleeps for the strategy's `i`-th wait and the run goes on from attempt
/// `i + 1`.
pub proof fn lemma_step_follows_settle<T, E>(
    outcome: spec_fn(nat) -> Result<T, E>,
    verdict: spec_fn(nat) -> bool,
    waits: Seq<Duration>,
    i: nat,
)
    ensures
        match decide(outcome(i), verdict(i), wait_at(waits, i)) {
            Step::Resolve(r) => settle(outcome, verdict, waits, i) == (i + 1, r),
            Step::Sleep(d) => {
                &&& i < waits.len()
                &&& d == waits[i as int]
                &&& outcome(i) is Err && verdict(i)
                &&& settle(outcome, verdict, waits, i) == settle(outcome, verdict, waits, i + 1)
            },
            Step::NextWait => true,
        },
{
}

/// A running `RetryMachine` is on the track that `settle` describes: where
/// the attempts before the one in flight failed, the condition's answers were
/// those the machine recorded and the strategy's waits begin with those the
/// machine slept, the whole run ends as `settle` from the attempt in flight
/// says.
pub proof fn lemma_machine_on_track<C, T, E>(
    m: RetryMachine<C, E>,
    outcome: spec_fn(nat) -> Result<T, E>,
    verdict: spec_fn(nat) -> bool,
    waits: Seq<Duration>,
)
    requires
        m.wf(),
        m.phase_spec() == Phase::Running,
        forall|j: nat| j + 1 < m.attempts_spec() ==> (#[trigger] outcome(j)) is Err,
        forall|j: nat| j + 1 < m.attempts_spec() ==> #[trigger] verdict(j) == m.verdicts_spec()[j as int],
        m.waits_spec().len() <= waits.len(),
        waits.subrange(0, m.waits_spec().len() as int) == m.waits_spec(),
    ensures
        settle(outcome, verdict, waits, 0) == settle(outcome, verdict, waits, (m.attempts_spec() - 1) as nat),
{
    let n = (m.attempts_spec() - 1) as nat;
    assert forall|j: nat| 0 <= j < n implies (#[trigger] outcome(j)) is Err && verdict(j) by {
        assert(verdict(j) == m.verdicts_spec()[j as int]);
    }
    lemma_settle_passes_retried_failures(outcome, verdict, waits, 0, n);
}

/// A whole run of a `RetryMachine` ends as `settle` says. Where the machine
/// is on track (as in `lemma_machine_on_track`) and the attempt in flight, the
/// condition's verdict on it and the strategy's answer make the machine
/// resolve with `r`, the run made exactly `m.attempts_spec()` attempts and
/// `settle` gives that count and `r`.
pub proof fn lemma_machine_run_settles<C, T, E>(
    m: RetryMachine<C, E>,
    outcome: spec_fn(nat) -> Result<T, E>,
    verdict: spec_fn(nat) -> bool,
    waits: Seq<Duration>,
    r: Result<T, E>,
)
    requires
        m.wf(),
        m.phase_spec() == Phase::Running,
        forall|j: nat| j + 1 < m.attempts_spec() ==> (#[trigger] outcome(j)) is Err,
        forall|j: nat| j + 1 < m.attempts_spec() ==> #[trigger] verdict(j) == m.verdicts_spec()[j as int],
        m.waits_spec().len() <= waits.len(),
        waits.subrange(0, m.waits_spec().len() as int) == m.waits_spec(),
        decide(
            outcome((m.attempts_spec() - 1) as nat),
            verdict((m.attempts_spec() - 1) as nat),
            wait_at(waits, (m.attempts_spec() - 1) as nat),
        ) == Step::<T, E>::Resolve(r),
    ensures
        settle(outcome, verdict, waits, 0) == (m.attempts_spec(), r),
{
    lemma_machine_on_track(m, outcome, verdict, waits);
    lemma_step_follows_settle(outcome, verdict, waits, (m.attempts_spec() - 1) as nat);
}

/// With a strategy that hands out no wait, a retry makes exactly one attempt
/// and resolves with its outcome, a failure for an action that always fails.
pub proof fn lemma_empty_strategy_one_attempt<T, E>(
    outcome: spec_fn(nat) -> Result<T, E>,
    verdict: spec_fn(nat) -> bool,
)
    requires
        forall|j: nat| (#[trigger] outcome(j)) is Err,
    ensures
        settle(outcome, verdict, Seq::empty(), 0) == (1nat, outcome(0)),
        settle(outcome, verdict, Seq::empty(), 0).1 is Err,
{
    assert(outcome(0) is Err);
}

/// Where every failure is retried, an action that always fails is attempted
/// once more than the strategy has waits, and the retry resolves with the
/// error of the last attempt.
pub proof fn lemma_exhausted_strategy_attempts<T, E>(
    outcome: spec_fn(nat) -> Result<T, E>,
    waits: Seq<Duration>,
)
    requires
        forall|j: nat| (#[trigger] outcome(j)) is Err,
    ensures
        settle(outcome, |j: nat| true, waits, 0) == (waits.len() + 1, outcome(waits.len())),
        settle(outcome, |j: nat| true, waits, 0).1 is Err,
{
    let verdict = |j: nat| true;
    lemma_settle_passes_retried_failures(outcome, verdict, waits, 0, waits.len());
    assert(outcome(waits.len()) is Err);
}

/// Where every failure is retried, an action that fails on its first `m`
/// attempts and then succeeds, under a strategy with at least `m` waits,
/// succeeds on attempt `m + 1`.
pub proof fn lemma_success_after_failures<T, E>(
    outcome: spec_fn(nat) -> Result<T, E>,
    waits: Seq<Duration>,
    m: nat,
)
    requires
        forall|j: nat| j < m ==> (#[trigger] outcome(j)) is Err,
        forall|j: nat| j >= m ==> (#[trigger] outcome(j)) is Ok,
        waits.len() >= m,
    ensures
        settle(outcome, |j: nat| true, waits, 0) == (m + 1, outcome(m)),
        settle(outcome, |j: nat| true, waits, 0).1 is Ok,
{
    let verdict = |j: nat| true;
    lemma_settle_passes_retried_failures(outcome, verdict, waits, 0, m);
    assert(outcome(m) is Ok);
}

/// Where the condition retries a failure only while the number of attempts
/// made is below `t`, an action that always fails, under a strategy with at
/// least `t` waits, is attempted exactly `t` times, and the retry resolves with
/// the error of attempt `t`.
pub proof fn lemma_condition_stops_retry<T, E>(
    outcome: spec_fn(nat) -> Result<T, E>,
    verdict: spec_fn(nat) -> bool,
    waits: Seq<Duration>,
    t: nat,
)
    requires
        t >= 1,
        forall|j: nat| (#[trigger] outcome(j)) is Err,
        forall|j: nat| #[trigger] verdict(j) == (j + 1 < t),
        waits.len() >= t,
    ensures
        settle(outcome, verdict, waits, 0) == (t, outcome((t - 1) as nat)),
        settle(outcome, verdict, waits, 0).1 is Err,
{
    let last = (t - 1) as nat;
    assert forall|j: nat| 0 <= j < last implies (#[trigger] outcome(j)) is Err && verdict(j) by {
        assert(verdict(j) == (j + 1 < t));
    }
    lemma_settle_passes_retried_failures(outcome, verdict, waits, 0, last);
    assert(verdict(last) == (last + 1 < t));
    assert(outcome(last) is Err);
}

} // verus!
