//! Exponential backoff with full jitter for reconnect scheduling.
//!
//! The raw delay for attempt `n` is `initial * factor^n`, capped at a
//! configured maximum; the delay handed out is a uniform sample in
//! `[0, raw]`, so reconnect storms from many sessions desynchronise.
use vstd::prelude::*;
use vstd::arithmetic::power::pow;
use crate::events::Error;

verus! {

/// The uncapped exponential term for attempt `n`.
pub open spec fn uncapped_delay(initial: nat, factor: nat, n: nat) -> int {
    initial * pow(factor as int, n)
}

/// The capped raw delay for attempt `n`: the exponential term, but never
/// above `max`.
pub open spec fn capped_delay(initial: nat, max: nat, factor: nat, n: nat) -> int
    decreases n,
{
    if n == 0 {
        initial as int
    } else {
        let grown = capped_delay(initial, max, factor, (n - 1) as nat) * factor;
        if grown > max {
            max as int
        } else {
            grown
        }
    }
}

/// The iterated capped delay equals the uncapped exponential term clipped
/// at `max`: growth below the cap is exact, and once the term passes `max`
/// the delay is exactly `max`, never more and never less.
pub proof fn lemma_capped_is_clipped(initial: nat, max: nat, factor: nat, n: nat)
    requires
        initial <= max,
        1 <= factor,
    ensures
        capped_delay(initial, max, factor, n) == if uncapped_delay(initial, factor, n) > max {
            max as int
        } else {
            uncapped_delay(initial, factor, n)
        },
    decreases n,
{
    if n == 0 {
        assert(pow(factor as int, 0) == 1) by {
            vstd::arithmetic::power::lemma_pow0(factor as int);
        }
    } else {
        lemma_capped_is_clipped(initial, max, factor, (n - 1) as nat);
        let u_prev = uncapped_delay(initial, factor, (n - 1) as nat);
        let u = uncapped_delay(initial, factor, n);
        assert(u == u_prev * factor) by {
            vstd::arithmetic::power::lemma_pow1(factor as int);
            vstd::arithmetic::power::lemma_pow_adds(factor as int, (n - 1) as nat, 1);
            assert(pow(factor as int, n) == pow(factor as int, (n - 1) as nat) * factor);
            assert(initial * (pow(factor as int, (n - 1) as nat) * factor) == (initial * pow(
                factor as int,
                (n - 1) as nat,
            )) * factor) by (nonlinear_arith);
        }
        assert(u_prev >= 0) by {
            vstd::arithmetic::power::lemma_pow_positive(factor as int, (n - 1) as nat);
            assert(initial * pow(factor as int, (n - 1) as nat) >= 0) by (nonlinear_arith)
                requires
                    pow(factor as int, (n - 1) as nat) > 0,
            ;
        }
        if u_prev > max {
            // Both the capped and the uncapped chain are already above max.
            assert(capped_delay(initial, max, factor, (n - 1) as nat) == max as int);
            assert(u == u_prev * factor >= u_prev) by (nonlinear_arith)
                requires
                    u == u_prev * factor,
                    factor >= 1,
                    u_prev >= 0,
            ;
            assert(max as int * factor >= max) by (nonlinear_arith)
                requires
                    factor >= 1,
            ;
        } else {
            assert(capped_delay(initial, max, factor, (n - 1) as nat) == u_prev);
        }
    }
}

/// Doubling at least once per attempt outgrows any linear bound.
proof fn lemma_pow_at_least_linear(n: nat)
    ensures
        pow(2, n) >= n + 1,
    decreases n,
{
    reveal(vstd::arithmetic::power::pow);
    if n == 0 {
        vstd::arithmetic::power::lemma_pow0(2);
    } else {
        lemma_pow_at_least_linear((n - 1) as nat);
        assert(pow(2, n) == 2 * pow(2, (n - 1) as nat));
    }
}

/// A larger base never yields a smaller power.
proof fn lemma_pow_base_grows(factor: nat, n: nat)
    requires
        2 <= factor,
    ensures
        pow(factor as int, n) >= pow(2, n),
    decreases n,
{
    reveal(vstd::arithmetic::power::pow);
    if n == 0 {
        vstd::arithmetic::power::lemma_pow0(2);
        vstd::arithmetic::power::lemma_pow0(factor as int);
    } else {
        lemma_pow_base_grows(factor, (n - 1) as nat);
        vstd::arithmetic::power::lemma_pow_positive(2, (n - 1) as nat);
        assert(pow(2, n) == 2 * pow(2, (n - 1) as nat));
        assert(pow(factor as int, n) == factor * pow(factor as int, (n - 1) as nat));
        assert(factor * pow(factor as int, (n - 1) as nat) >= 2 * pow(2, (n - 1) as nat))
            by (nonlinear_arith)
            requires
                factor >= 2,
                pow(factor as int, (n - 1) as nat) >= pow(2, (n - 1) as nat),
                pow(2, (n - 1) as nat) > 0,
        ;
    }
}

/// With a nonzero first delay and a growth factor of at least two, the
/// uncapped exponential term passes any cap once the attempt count does:
/// from then on the raw delay sits exactly at the cap, never beyond it.
pub proof fn lemma_cap_eventually_binds(initial: nat, max: nat, factor: nat, n: nat)
    requires
        1 <= initial <= max,
        2 <= factor,
        n > max,
    ensures
        uncapped_delay(initial, factor, n) > max,
        capped_delay(initial, max, factor, n) == max,
{
    lemma_pow_base_grows(factor, n);
    lemma_pow_at_least_linear(n);
    assert(initial * pow(factor as int, n) >= 1 * pow(factor as int, n)) by (nonlinear_arith)
        requires
            initial >= 1,
            pow(factor as int, n) >= pow(2, n),
            pow(2, n) > 0,
    ;
    lemma_capped_is_clipped(initial, max, factor, n);
}

/// The capped delay never exceeds `max`.
pub proof fn lemma_delay_within_cap(initial: nat, max: nat, factor: nat, n: nat)
    requires
        initial <= max,
        1 <= factor,
    ensures
        0 <= capped_delay(initial, max, factor, n) <= max,
{
    lemma_capped_is_clipped(initial, max, factor, n);
    vstd::arithmetic::power::lemma_pow_positive(factor as int, n);
    assert(initial * pow(factor as int, n) >= 0) by (nonlinear_arith)
        requires
            pow(factor as int, n) > 0,
    ;
}

/// The abstract state of a backoff instance.
pub ghost struct BackoffView {
    /// Configured first delay, in milliseconds.
    pub initial: nat,
    /// Configured delay cap, in milliseconds.
    pub max: nat,
    /// Configured growth factor.
    pub factor: nat,
    /// Number of delays handed out since construction or the last reset.
    pub attempts: nat,
    /// The raw (capped, unjittered) delay for the next attempt.
    pub current: nat,
    /// The last jittered delay handed out; zero initially and after reset.
    pub last: nat,
}

/// A stateful exponential backoff: each call to `next_delay` advances the
/// attempt counter and samples a jittered delay.
pub struct ExponentialBackoff {
    initial_delay_ms: u64,
    max_delay_ms: u64,
    factor: u64,
    current_delay_ms: u64,
    last_delay_ms: u64,
    attempts: u32,
}

impl View for ExponentialBackoff {
    type V = BackoffView;

    closed spec fn view(&self) -> BackoffView {
        BackoffView {
            initial: self.initial_delay_ms as nat,
            max: self.max_delay_ms as nat,
            factor: self.factor as nat,
            attempts: self.attempts as nat,
            current: self.current_delay_ms as nat,
            last: self.last_delay_ms as nat,
        }
    }
}

/// Relies on rand::random_range over `0..=bound`: a uniform sample from
/// that inclusive range, so the result never exceeds the bound.
#[verifier::external_body]
fn sample_jitter(bound: u64) -> (r: u64)
    ensures
        r <= bound,
{
    rand::random_range(0..=bound)
}

impl ExponentialBackoff {
    /// A backoff instance is well formed when its configuration was
    /// validated and its raw delay tracks the capped exponential term for
    /// its attempt count.
    pub open spec fn wf(&self) -> bool {
        &&& self@.initial <= self@.max
        &&& 1 <= self@.factor
        &&& self@.current == capped_delay(self@.initial, self@.max, self@.factor, self@.attempts)
        &&& self@.last <= self@.max
        &&& self@.max <= u64::MAX
    }

    /// Creates a backoff over delays in milliseconds.
    ///
    /// The cap must not undercut the first delay and the growth factor must
    /// be at least one; a violation is a configuration error reported here,
    /// not discovered later.
    pub fn new(initial_ms: u64, max_ms: u64, factor: u64) -> (r: Result<Self, Error>)
        ensures
            (initial_ms <= max_ms && 1 <= factor) <==> r is Ok,
            r matches Err(e) ==> e == Error::InvalidParam,
            r matches Ok(b) ==> b@ == (BackoffView {
                initial: initial_ms as nat,
                max: max_ms as nat,
                factor: factor as nat,
                attempts: 0,
                current: initial_ms as nat,
                last: 0,
            }) && b.wf(),
    {
        if max_ms < initial_ms || factor < 1 {
            return Err(Error::InvalidParam);
        }
        Ok(ExponentialBackoff {
            initial_delay_ms: initial_ms,
            max_delay_ms: max_ms,
            factor,
            current_delay_ms: initial_ms,
            last_delay_ms: 0,
            attempts: 0,
        })
    }

    /// Advances the attempt counter and returns the jittered delay for this
    /// attempt: a uniform sample in `[0, raw]` where `raw` is the capped
    /// exponential term for the attempts made so far.
    ///
    /// The sampled delay therefore always lies in `[0, max]`.
    pub fn next_delay(&mut self) -> (r: u64)
        requires
            old(self).wf(),
        ensures
            final(self).wf(),
            r <= capped_delay(old(self)@.initial, old(self)@.max, old(self)@.factor, old(self)@.attempts),
            r <= old(self)@.max,
            final(self)@.attempts == if old(self)@.attempts < u32::MAX {
                old(self)@.attempts + 1
            } else {
                old(self)@.attempts
            },
            final(self)@.last == r,
            final(self)@.initial == old(self)@.initial,
            final(self)@.max == old(self)@.max,
            final(self)@.factor == old(self)@.factor,
    {
        proof {
            lemma_delay_within_cap(self@.initial, self@.max, self@.factor, self@.attempts);
        }
        let jittered = sample_jitter(self.current_delay_ms);
        if self.attempts < u32::MAX {
            self.attempts = self.attempts + 1;
            let quot = self.max_delay_ms / self.factor;
            if self.current_delay_ms > quot {
                proof {
                    // current > max / factor forces current * factor > max.
                    assert(self.current_delay_ms * self.factor > self.max_delay_ms)
                        by (nonlinear_arith)
                        requires
                            self.current_delay_ms > self.max_delay_ms / self.factor,
                            quot == self.max_delay_ms / self.factor,
                            self.factor >= 1,
                            self.max_delay_ms >= 0,
                    ;
                }
                self.current_delay_ms = self.max_delay_ms;
            } else {
                proof {
                    assert(self.current_delay_ms * self.factor <= self.max_delay_ms)
                        by (nonlinear_arith)
                        requires
                            self.current_delay_ms <= self.max_delay_ms / self.factor,
                            self.factor >= 1,
                            self.max_delay_ms >= 0,
                    ;
                }
                self.current_delay_ms = self.current_delay_ms * self.factor;
            }
        }
        self.last_delay_ms = jittered;
        jittered
    }

    /// Returns the last delay handed out by `next_delay`, without advancing
    /// the attempt counter; zero before the first call and after a reset.
    pub fn current_delay(&self) -> (r: u64)
        ensures
            r == self@.last,
    {
        self.last_delay_ms
    }

    /// Zeroes the attempt counter and the delay.
    pub fn reset(&mut self)
        requires
            old(self).wf(),
        ensures
            final(self).wf(),
            final(self)@ == (BackoffView {
                attempts: 0,
                current: old(self)@.initial,
                last: 0,
                ..old(self)@
            }),
    {
        self.attempts = 0;
        self.current_delay_ms = self.initial_delay_ms;
        self.last_delay_ms = 0;
    }

    /// Returns the number of delays handed out since construction or the
    /// last reset.
    pub fn attempts(&self) -> (r: u32)
        ensures
            r == self@.attempts,
    {
        self.attempts
    }
}

impl Default for ExponentialBackoff {
    /// A one-second first delay, a thirty-second cap and doubling growth.
    fn default() -> (r: Self)
        ensures
            r@ == (BackoffView {
                initial: 1000,
                max: 30000,
                factor: 2,
                attempts: 0,
                current: 1000,
                last: 0,
            }),
            r.wf(),
    {
        ExponentialBackoff {
            initial_delay_ms: 1000,
            max_delay_ms: 30000,
            factor: 2,
            current_delay_ms: 1000,
            last_delay_ms: 0,
            attempts: 0,
        }
    }
}

} // verus!
