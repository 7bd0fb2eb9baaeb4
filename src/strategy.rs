//! Backoff strategies: endless sequences of waits in milliseconds. Where a
//! wait would exceed the largest `u64`, it is that largest value instead.
use vstd::prelude::*;

verus! {

/// `x`, or the largest `u64` where `x` is larger.
pub open spec fn capped(x: nat) -> nat {
    if x > u64::MAX {
        u64::MAX as nat
    } else {
        x
    }
}

/// `f` to the power `n`.
pub open spec fn power(f: nat, n: nat) -> nat
    decreases n,
{
    if n == 0 {
        1
    } else {
        f * power(f, (n - 1) as nat)
    }
}

/// The `n`-th wait of an exponential backoff from `base` by `factor`:
/// `base * factor^n`, capped.
pub open spec fn exponential_term(base: nat, factor: nat, n: nat) -> nat {
    capped(base * power(factor, n))
}

/// The Fibonacci recurrence seeded with `base` twice.
pub open spec fn fibonacci(base: nat, n: nat) -> nat
    decreases n,
{
    if n <= 1 {
        base
    } else {
        fibonacci(base, (n - 1) as nat) + fibonacci(base, (n - 2) as nat)
    }
}

/// The `n`-th wait of a Fibonacci backoff from `base`, capped.
pub open spec fn fibonacci_term(base: nat, n: nat) -> nat {
    capped(fibonacci(base, n))
}

/// A strategy that waits the same interval before every retry.
#[derive(Clone, Copy, Debug)]
pub struct FixedInterval {
    interval: u64,
}

impl FixedInterval {
    pub closed spec fn interval_spec(&self) -> nat {
        self.interval as nat
    }

    /// A fixed interval of `millis` milliseconds.
    pub fn from_millis(millis: u64) -> (r: Self)
        ensures
            r.interval_spec() == millis,
    {
        FixedInterval { interval: millis }
    }

    /// The next wait, in milliseconds: always the interval.
    pub fn next_delay(&mut self) -> (r: u64)
        ensures
            r == old(self).interval_spec(),
            final(self).interval_spec() == old(self).interval_spec(),
    {
        self.interval
    }
}

/// A strategy whose waits grow geometrically: `base`, `base * factor`,
/// `base * factor^2`, and so on.
pub struct ExponentialBackoff {
    base: u64,
    factor: u64,
    current: u64,
    produced: Ghost<nat>,
}

impl ExponentialBackoff {
    pub closed spec fn base_spec(&self) -> u64 {
        self.base
    }

    pub closed spec fn factor_spec(&self) -> u64 {
        self.factor
    }

    /// The number of waits handed out so far.
    pub closed spec fn produced_spec(&self) -> nat {
        self.produced@
    }

    pub closed spec fn wf(&self) -> bool {
        self.current as nat == exponential_term(self.base as nat, self.factor as nat, self.produced@)
    }

    /// An exponential backoff whose first wait is `base` milliseconds and
    /// whose waits are each `factor` times the one before.
    pub fn new(base: u64, factor: u64) -> (r: Self)
        ensures
            r.wf(),
            r.base_spec() == base,
            r.factor_spec() == factor,
            r.produced_spec() == 0,
    {
        assert(power(factor as nat, 0) == 1);
        assert(base as nat * 1 == base as nat);
        ExponentialBackoff { base, factor, current: base, produced: Ghost(0) }
    }

    /// The next wait, in milliseconds.
    pub fn next_delay(&mut self) -> (r: u64)
        requires
            old(self).wf(),
        ensures
            final(self).wf(),
            r == exponential_term(old(self).base_spec() as nat, old(self).factor_spec() as nat, old(self).produced_spec()),
            final(self).produced_spec() == old(self).produced_spec() + 1,
            final(self).base_spec() == old(self).base_spec(),
            final(self).factor_spec() == old(self).factor_spec(),
    {
        let r = self.current;
        let next = match self.current.checked_mul(self.factor) {
            Some(v) => v,
            None => u64::MAX,
        };
        proof {
            lemma_exponential_step(self.base as nat, self.factor as nat, self.produced@);
        }
        self.current = next;
        self.produced = Ghost(self.produced@ + 1);
        r
    }
}

/// One step of the iteration: the capped term times the factor, capped, is
/// the next term.
proof fn lemma_exponential_step(base: nat, factor: nat, n: nat)
    ensures
        capped(exponential_term(base, factor, n) * factor) == exponential_term(base, factor, n + 1),
{
    let x = base * power(factor, n);
    assert(power(factor, n + 1) == factor * power(factor, n));
    assert(base * power(factor, n + 1) == x * factor) by (nonlinear_arith)
        requires
            power(factor, n + 1) == factor * power(factor, n),
            x == base * power(factor, n),
    ;
    if factor == 0 {
        assert(x * factor == 0);
        assert(exponential_term(base, factor, n) * factor == 0);
    } else if x > u64::MAX {
        assert(x * factor >= x) by (nonlinear_arith)
            requires
                factor >= 1,
        ;
        assert(u64::MAX as nat * factor >= u64::MAX as nat) by (nonlinear_arith)
            requires
                factor >= 1,
        ;
    }
}

/// A strategy whose waits follow the Fibonacci recurrence: `base`, `base`,
/// `2 * base`, `3 * base`, `5 * base`, and so on.
pub struct FibonacciBackoff {
    base: u64,
    current: u64,
    next: u64,
    produced: Ghost<nat>,
}

impl FibonacciBackoff {
    pub closed spec fn base_spec(&self) -> u64 {
        self.base
    }

    /// The number of waits handed out so far.
    pub closed spec fn produced_spec(&self) -> nat {
        self.produced@
    }

    pub closed spec fn wf(&self) -> bool {
        &&& self.current as nat == fibonacci_term(self.base as nat, self.produced@)
        &&& self.next as nat == fibonacci_term(self.base as nat, self.produced@ + 1)
    }

    /// A Fibonacci backoff whose first two waits are `millis` milliseconds.
    pub fn from_millis(millis: u64) -> (r: Self)
        ensures
            r.wf(),
            r.base_spec() == millis,
            r.produced_spec() == 0,
    {
        assert(fibonacci(millis as nat, 1) == millis);
        FibonacciBackoff { base: millis, current: millis, next: millis, produced: Ghost(0) }
    }

    /// The next wait, in milliseconds.
    pub fn next_delay(&mut self) -> (r: u64)
        requires
            old(self).wf(),
        ensures
            final(self).wf(),
            r == fibonacci_term(old(self).base_spec() as nat, old(self).produced_spec()),
            final(self).produced_spec() == old(self).produced_spec() + 1,
            final(self).base_spec() == old(self).base_spec(),
    {
        let r = self.current;
        let after = self.current.saturating_add(self.next);
        proof {
            let b = self.base as nat;
            let n = self.produced@;
            assert(fibonacci(b, n + 2) == fibonacci(b, n + 1) + fibonacci(b, n));
        }
        self.current = self.next;
        self.next = after;
        self.produced = Ghost(self.produced@ + 1);
        r
    }
}

/// Powers of a factor of at least one do not decrease.
proof fn lemma_power_grows(f: nat, m: nat, n: nat)
    requires
        f >= 1,
        m <= n,
    ensures
        power(f, m) <= power(f, n),
    decreases n - m,
{
    if m < n {
        lemma_power_grows(f, m, (n - 1) as nat);
        assert(f * power(f, (n - 1) as nat) >= power(f, (n - 1) as nat)) by (nonlinear_arith)
            requires
                f >= 1,
        ;
    }
}

/// Once a wait of an exponential backoff would overflow, that wait and every
/// later one are the largest `u64`.
pub proof fn lemma_exponential_saturates(base: u64, factor: u64, m: nat, n: nat)
    requires
        base * power(factor as nat, m) > u64::MAX,
        m <= n,
    ensures
        exponential_term(base as nat, factor as nat, n) == u64::MAX,
{
    let base = base as nat;
    let factor = factor as nat;
    if factor == 0 {
        if m == 0 {
            assert(power(factor, 0) == 1);
            assert(base * 1 == base);
        } else {
            assert(power(factor, m) == factor * power(factor, (m - 1) as nat));
            assert(power(factor, m) == 0);
            assert(base * 0 == 0);
        }
    } else {
        lemma_power_grows(factor, m, n);
        assert(base * power(factor, m) <= base * power(factor, n)) by (nonlinear_arith)
            requires
                power(factor, m) <= power(factor, n),
        ;
    }
}

/// The Fibonacci recurrence does not decrease.
proof fn lemma_fibonacci_grows(base: nat, m: nat, n: nat)
    requires
        m <= n,
    ensures
        fibonacci(base, m) <= fibonacci(base, n),
    decreases n - m,
{
    if m < n {
        lemma_fibonacci_grows(base, m, (n - 1) as nat);
        if n >= 2 {
            assert(fibonacci(base, n) == fibonacci(base, (n - 1) as nat) + fibonacci(base, (n - 2) as nat));
        }
    }
}

/// Once a wait of a Fibonacci backoff would overflow, that wait and every
/// later one are the largest `u64`.
pub proof fn lemma_fibonacci_saturates(base: u64, m: nat, n: nat)
    requires
        fibonacci(base as nat, m) > u64::MAX,
        m <= n,
    ensures
        fibonacci_term(base as nat, n) == u64::MAX,
{
    lemma_fibonacci_grows(base as nat, m, n);
}

} // verus!
