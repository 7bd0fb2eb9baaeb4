use vstd::prelude::*;

verus! {

/// Specifies under which conditions a retry is attempted.
pub trait Condition<E> {
    /// Whether `should_retry` may be asked about `error` in the current
    /// state: always, unless an implementation says otherwise.
    open spec fn admits(&self, error: &E) -> bool {
        true
    }

    /// Whether `retry` is an answer that `should_retry`, asked in the current
    /// state about `error`, may give: any, unless an implementation says
    /// otherwise.
    open spec fn answers(&self, error: &E, retry: bool) -> bool {
        true
    }

    /// Whether `next` is a state that the condition may be left in after it
    /// answered `retry` about `error`: any, unless an implementation says
    /// otherwise.
    open spec fn moves_to(&self, error: &E, retry: bool, next: &Self) -> bool {
        true
    }

    /// Whether an attempt that failed with `error` should be retried.
    fn should_retry(&mut self, error: &E) -> (r: bool)
        requires
            old(self).admits(error),
        ensures
            old(self).answers(error, r),
            old(self).moves_to(error, r, final(self)),
    ;
}

/// A plain callable is a condition: its answer is the callable's result.
impl<E, F: FnMut(&E) -> bool> Condition<E> for F {
    open spec fn admits(&self, error: &E) -> bool {
        call_requires(*self, (error,))
    }

    open spec fn answers(&self, error: &E, retry: bool) -> bool {
        call_ensures(*self, (error,), retry)
    }

    open spec fn moves_to(&self, error: &E, retry: bool, next: &Self) -> bool {
        *next == *self
    }

    fn should_retry(&mut self, error: &E) -> (r: bool) {
        self(error)
    }
}

/// Unfolds what a callable used as a condition admits and answers: exactly
/// what its own precondition accepts and its postcondition allows; and it is
/// left as it was. A verified
/// caller that hands a closure to a `RetryMachine` applies this to meet the
/// machine's precondition on the condition.
pub proof fn lemma_closure_condition<E, F: FnMut(&E) -> bool>(f: F, error: &E, retry: bool, next: F)
    ensures
        f.admits(error) == call_requires(f, (error,)),
        f.answers(error, retry) == call_ensures(f, (error,), retry),
        f.moves_to(error, retry, &next) == (next == f),
{
}

/// The condition of an unconditional retry: every failure is retried.
#[derive(Clone, Copy, Debug)]
pub struct AlwaysRetry;

impl<E> Condition<E> for AlwaysRetry {
    open spec fn answers(&self, error: &E, retry: bool) -> bool {
        retry
    }

    open spec fn moves_to(&self, error: &E, retry: bool, next: &Self) -> bool {
        *next == *self
    }

    fn should_retry(&mut self, error: &E) -> (r: bool) {
        true
    }
}

} // verus!
