//! How long to wait before the connection is tried again.
//!
//! The wait starts at an initial interval and grows by a fixed ratio with
//! each failure until it reaches a cap, where it stays. Nothing bounds the
//! number of tries or the time spent on them.

use vstd::prelude::*;

verus! {

/// A backoff policy. Intervals are in milliseconds; the growth factor is the
/// ratio `numerator / denominator`.
#[derive(Debug, Clone, Copy, PartialEq, Eq)]
pub struct BackoffPolicy {
    initial: u64,
    numerator: u64,
    denominator: u64,
    cap: u64,
}

/// The parameters make a policy: a growth factor of at least one, and an
/// initial interval that is not above the cap.
pub open spec fn acceptable(initial: u64, numerator: u64, denominator: u64, cap: u64) -> bool {
    &&& denominator >= 1
    &&& numerator >= denominator
    &&& initial <= cap
}

/// An interval after one more failure: grown by the ratio, rounded down, and
/// held at the cap.
pub open spec fn grown_by(interval: u64, numerator: u64, denominator: u64, cap: u64) -> u64 {
    if interval * numerator / (denominator as int) >= cap {
        cap
    } else {
        (interval * numerator / (denominator as int)) as u64
    }
}

impl BackoffPolicy {
    /// What every policy satisfies.
    #[verifier::type_invariant]
    pub closed spec fn valid(self) -> bool {
        acceptable(self.initial, self.numerator, self.denominator, self.cap)
    }

    /// The wait after the first failure.
    pub closed spec fn initial_interval(self) -> u64 {
        self.initial
    }

    /// The longest wait.
    pub closed spec fn max_interval(self) -> u64 {
        self.cap
    }

    /// The growth factor's numerator.
    pub closed spec fn growth_numerator(self) -> u64 {
        self.numerator
    }

    /// The growth factor's denominator.
    pub closed spec fn growth_denominator(self) -> u64 {
        self.denominator
    }

    /// The interval that follows `interval`.
    pub open spec fn grown(self, interval: u64) -> u64 {
        grown_by(interval, self.growth_numerator(), self.growth_denominator(), self.max_interval())
    }

    /// The wait after failure number `failures + 1`.
    pub open spec fn delay(self, failures: nat) -> u64
        decreases failures,
    {
        if failures == 0 {
            self.initial_interval()
        } else {
            self.grown(self.delay((failures - 1) as nat))
        }
    }

    /// A policy with these parameters, if they make one.
    pub fn new(initial: u64, numerator: u64, denominator: u64, cap: u64) -> (r: Option<Self>)
        ensures
            r is Some <==> acceptable(initial, numerator, denominator, cap),
            r matches Some(policy) ==> {
                &&& policy.valid()
                &&& policy.initial_interval() == initial
                &&& policy.growth_numerator() == numerator
                &&& policy.growth_denominator() == denominator
                &&& policy.max_interval() == cap
            },
    {
        if denominator >= 1 && numerator >= denominator && initial <= cap {
            Some(BackoffPolicy { initial, numerator, denominator, cap })
        } else {
            None
        }
    }

    /// Half a second at first, half as much again with each failure, five
    /// seconds at most.
    pub fn standard() -> (policy: Self)
        ensures
            policy.valid(),
            policy.initial_interval() == 500,
            policy.growth_numerator() == 3,
            policy.growth_denominator() == 2,
            policy.max_interval() == 5000,
    {
        BackoffPolicy { initial: 500, numerator: 3, denominator: 2, cap: 5000 }
    }

    /// The wait after the first failure.
    pub fn first_interval(&self) -> (r: u64)
        ensures
            r == self.initial_interval(),
            r <= self.max_interval(),
    {
        proof {
            use_type_invariant(self);
        }
        self.initial
    }

    /// The longest wait.
    pub fn longest_interval(&self) -> (r: u64)
        ensures
            r == self.max_interval(),
    {
        self.cap
    }

    /// The interval that follows `interval`.
    pub fn next_interval(&self, interval: u64) -> (r: u64)
        ensures
            r == self.grown(interval),
    {
        proof {
            use_type_invariant(self);
        }
        assert(interval * self.numerator <= 0xffff_ffff_ffff_ffff * 0xffff_ffff_ffff_ffff)
            by (nonlinear_arith)
            requires
                interval <= 0xffff_ffff_ffff_ffff,
                self.numerator <= 0xffff_ffff_ffff_ffff,
        ;
        let product: u128 = interval as u128 * self.numerator as u128;
        let quotient: u128 = product / self.denominator as u128;
        if quotient >= self.cap as u128 {
            self.cap
        } else {
            quotient as u64
        }
    }
}

/// An interval at or below the cap never shrinks when it grows, and never
/// grows past the cap.
pub proof fn lemma_grown_between(policy: BackoffPolicy, interval: u64)
    requires
        policy.valid(),
        interval <= policy.max_interval(),
    ensures
        interval <= policy.grown(interval) <= policy.max_interval(),
{
    let n = policy.growth_numerator() as int;
    let d = policy.growth_denominator() as int;
    let i = interval as int;
    assert(i * n / d >= i) by (nonlinear_arith)
        requires
            d >= 1,
            n >= d,
            i >= 0,
    ;
}

/// The waits never shrink from one failure to the next, and none is longer
/// than the cap.
pub proof fn lemma_delays_grow_to_cap(policy: BackoffPolicy, failures: nat)
    requires
        policy.valid(),
    ensures
        policy.initial_interval() <= policy.delay(failures),
        policy.delay(failures) <= policy.delay(failures + 1),
        policy.delay(failures + 1) <= policy.max_interval(),
    decreases failures,
{
    if failures > 0 {
        lemma_delays_grow_to_cap(policy, (failures - 1) as nat);
    }
    lemma_grown_between(policy, policy.delay(failures));
}

} // verus!
