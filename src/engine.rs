use std::time::Duration;
use vstd::prelude::*;

use crate::condition::{AlwaysRetry, Condition};

verus! {

/// Where a retry stands, or that it is over.
#[derive(PartialEq, Eq, Structural, Clone, Copy, Debug)]
pub enum Phase {
    /// An attempt is in flight.
    Running,
    /// A failure was judged retryable; the strategy's next wait is awaited.
    Asking,
    /// The wait before the next attempt is in progress.
    Sleeping,
    /// The retry has resolved; nothing further happens.
    Finished,
}

/// What the driver of a retry does next.
pub enum Step<T, E> {
    /// Ask the strategy for its next wait and report the answer.
    NextWait,
    /// Suspend for this long, then report that the wait is over.
    Sleep(Duration),
    /// The retry resolves with this outcome.
    Resolve(Result<T, E>),
}

/// The step that follows an attempt which resolved with `result`, given the
/// condition's verdict on its error and the strategy's answer when asked for
/// the next wait (`None` where it is exhausted; it is not asked unless the
/// verdict is to retry).
pub open spec fn decide<T, E>(result: Result<T, E>, retry: bool, next: Option<Duration>) -> Step<T, E> {
    match result {
        Ok(v) => Step::Resolve(Ok(v)),
        Err(e) => if !retry {
            Step::Resolve(Err(e))
        } else {
            match next {
                Some(d) => Step::Sleep(d),
                None => Step::Resolve(Err(e)),
            }
        },
    }
}

/// The phase that a step leads to.
pub open spec fn phase_after<T, E>(step: Step<T, E>) -> Phase {
    match step {
        Step::NextWait => Phase::Asking,
        Step::Sleep(_) => Phase::Sleeping,
        Step::Resolve(_) => Phase::Finished,
    }
}

/// The decisions of a retry: it owns the condition that judges failures and
/// keeps the last error while the strategy is asked. Its driver starts the
/// first attempt when it creates the machine, then reports each attempt's
/// outcome, each answer of the strategy and the end of each wait, and carries
/// out the step it gets back. The waits slept are recorded in order: for any
/// strategy, endless ones included, they are exactly the answers reported.
pub struct RetryMachine<C, E> {
    condition: C,
    phase: Phase,
    pending: Option<E>,
    /// Number of attempts started so far.
    attempts: Ghost<nat>,
    /// The waits handed out by the strategy so far, in order.
    waits: Ghost<Seq<Duration>>,
    /// The condition's verdicts so far, one per failed attempt, in order.
    verdicts: Ghost<Seq<bool>>,
}

impl<C, E> RetryMachine<C, E> {
    pub closed spec fn phase_spec(&self) -> Phase {
        self.phase
    }

    pub closed spec fn attempts_spec(&self) -> nat {
        self.attempts@
    }

    pub closed spec fn waits_spec(&self) -> Seq<Duration> {
        self.waits@
    }

    pub closed spec fn verdicts_spec(&self) -> Seq<bool> {
        self.verdicts@
    }

    pub closed spec fn condition_spec(&self) -> C {
        self.condition
    }

    /// The error of the last attempt, kept while the strategy is asked.
    pub closed spec fn pending_spec(&self) -> Option<E> {
        self.pending
    }

    /// Each attempt before the one in flight (or just judged) failed, was
    /// retried and was followed by a wait.
    pub open spec fn wf(&self) -> bool {
        &&& self.attempts_spec() >= 1
        &&& self.phase_spec() == Phase::Running ==> {
            &&& self.waits_spec().len() + 1 == self.attempts_spec()
            &&& self.verdicts_spec().len() == self.waits_spec().len()
        }
        &&& self.phase_spec() == Phase::Asking ==> {
            &&& self.waits_spec().len() + 1 == self.attempts_spec()
            &&& self.verdicts_spec().len() == self.attempts_spec()
            &&& self.pending_spec() is Some
        }
        &&& self.phase_spec() == Phase::Sleeping ==> {
            &&& self.waits_spec().len() == self.attempts_spec()
            &&& self.verdicts_spec().len() == self.waits_spec().len()
        }
        &&& self.phase_spec() != Phase::Finished ==> forall|j: int|
            0 <= j < self.verdicts_spec().len() ==> #[trigger] self.verdicts_spec()[j]
    }

    /// A machine for a retry whose first attempt has just been started.
    pub fn new(condition: C) -> (r: Self)
        ensures
            r.wf(),
            r.phase_spec() == Phase::Running,
            r.attempts_spec() == 1,
            r.waits_spec() == Seq::<Duration>::empty(),
            r.verdicts_spec() == Seq::<bool>::empty(),
            r.condition_spec() == condition,
    {
        RetryMachine {
            condition,
            phase: Phase::Running,
            pending: None,
            attempts: Ghost(1),
            waits: Ghost(Seq::empty()),
            verdicts: Ghost(Seq::empty()),
        }
    }

    /// The phase the retry is in.
    pub fn phase(&self) -> (r: Phase)
        ensures
            r == self.phase_spec(),
    {
        self.phase
    }

    /// Takes the outcome of the attempt in flight. A success resolves the
    /// retry. A failure is put to the condition, once; where it declines, the
    /// retry resolves with that error. Otherwise the error is kept and the
    /// driver is to ask the strategy for the next wait.
    pub fn on_attempt_done<T>(&mut self, result: Result<T, E>) -> (step: Step<T, E>)
        where
            C: Condition<E>,
        requires
            old(self).wf(),
            old(self).phase_spec() == Phase::Running,
            result is Err ==> old(self).condition_spec().admits(&result->Err_0),
        ensures
            final(self).wf(),
            final(self).phase_spec() == phase_after(step),
            final(self).attempts_spec() == old(self).attempts_spec(),
            final(self).waits_spec() == old(self).waits_spec(),
            result is Ok ==> {
                &&& step == Step::<T, E>::Resolve(Ok(result->Ok_0))
                &&& final(self).verdicts_spec() == old(self).verdicts_spec()
                &&& final(self).condition_spec() == old(self).condition_spec()
            },
            result is Err ==> {
                let error = result->Err_0;
                let retry = final(self).verdicts_spec().last();
                // the condition is asked once, about this error, and its answer is the verdict
                &&& old(self).condition_spec().answers(&error, retry)
                &&& old(self).condition_spec().moves_to(&error, retry, &final(self).condition_spec())
                &&& final(self).verdicts_spec() == old(self).verdicts_spec().push(retry)
                &&& !retry ==> step == Step::<T, E>::Resolve(Err(error))
                &&& retry ==> step is NextWait && final(self).pending_spec() == Some(error)
            },
    {
        match result {
            Ok(v) => {
                self.phase = Phase::Finished;
                Step::Resolve(Ok(v))
            },
            Err(e) => {
                let retry = self.condition.should_retry(&e);
                self.verdicts = Ghost(self.verdicts@.push(retry));
                if retry {
                    self.pending = Some(e);
                    self.phase = Phase::Asking;
                    Step::NextWait
                } else {
                    self.phase = Phase::Finished;
                    Step::Resolve(Err(e))
                }
            },
        }
    }

    /// Takes the strategy's answer when asked for the next wait. A wait sends
    /// the retry to sleep for it; an exhausted strategy resolves the retry
    /// with the error of the last attempt.
    pub fn on_next_wait<T>(&mut self, next: Option<Duration>) -> (step: Step<T, E>)
        requires
            old(self).wf(),
            old(self).phase_spec() == Phase::Asking,
        ensures
            final(self).wf(),
            final(self).phase_spec() == phase_after(step),
            final(self).attempts_spec() == old(self).attempts_spec(),
            final(self).verdicts_spec() == old(self).verdicts_spec(),
            final(self).condition_spec() == old(self).condition_spec(),
            step == decide::<T, E>(Err(old(self).pending_spec()->Some_0), true, next),
            next matches Some(d) ==> final(self).waits_spec() == old(self).waits_spec().push(d),
            next is None ==> final(self).waits_spec() == old(self).waits_spec(),
    {
        match next {
            Some(d) => {
                self.pending = None;
                self.waits = Ghost(self.waits@.push(d));
                self.phase = Phase::Sleeping;
                Step::Sleep(d)
            },
            None => {
                self.phase = Phase::Finished;
                match self.pending.take() {
                    Some(e) => Step::Resolve(Err(e)),
                    None => {
                        proof {
                            assert(false);
                        }
                        Step::NextWait
                    },
                }
            },
        }
    }

    /// Takes the end of the current wait: the driver starts the next attempt.
    pub fn on_wait_over(&mut self)
        requires
            old(self).wf(),
            old(self).phase_spec() == Phase::Sleeping,
        ensures
            final(self).wf(),
            final(self).phase_spec() == Phase::Running,
            final(self).attempts_spec() == old(self).attempts_spec() + 1,
            final(self).waits_spec() == old(self).waits_spec(),
            final(self).verdicts_spec() == old(self).verdicts_spec(),
            final(self).condition_spec() == old(self).condition_spec(),
    {
        self.phase = Phase::Running;
        self.attempts = Ghost(self.attempts@ + 1);
    }
}

impl<E> RetryMachine<AlwaysRetry, E> {
    /// A machine for an unconditional retry, one that retries every failure
    /// while the strategy has waits left, whose first attempt has just been
    /// started.
    pub fn unconditional() -> (r: Self)
        ensures
            r.wf(),
            r.phase_spec() == Phase::Running,
            r.attempts_spec() == 1,
            r.waits_spec() == Seq::<Duration>::empty(),
            r.verdicts_spec() == Seq::<bool>::empty(),
            r.condition_spec() == AlwaysRetry,
    {
        RetryMachine::new(AlwaysRetry)
    }
}

} // verus!
