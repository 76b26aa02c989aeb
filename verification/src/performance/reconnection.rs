//! Reconnection policy with exponential backoff.
use super::ClientPerformanceConfig;
use crate::clock::{duration_nanos, elapsed_nanos, instant_now};
use std::time::{Duration, Instant};
use vstd::prelude::*;

verus! {

/// The exponent of the backoff factor after `attempts` attempts: capped at 10.
pub open spec fn backoff_exponent(attempts: u32) -> nat {
    if attempts < 10 { attempts as nat } else { 10 }
}

/// `2` to the power `e`.
pub open spec fn pow2(e: nat) -> nat
    decreases e,
{
    if e == 0 { 1 } else { 2 * pow2((e - 1) as nat) }
}

/// The backoff, in milliseconds, that follows `attempts` attempts with base interval `base_ms`:
/// `base_ms * 2^min(attempts, 10)`.
pub open spec fn backoff_ms(base_ms: u64, attempts: u32) -> int {
    base_ms * pow2(backoff_exponent(attempts))
}

/// What a reconnection manager holds, as the contracts see it.
pub struct ReconnectionState {
    pub config: ClientPerformanceConfig,
    pub attempt_count: u32,
    /// Whether an attempt has been recorded since creation or the last reset.
    pub has_last_attempt: bool,
}

/// Reconnection manager with exponential backoff.
pub struct ReconnectionManager {
    config: ClientPerformanceConfig,
    attempt_count: u32,
    last_attempt: Option<Instant>,
}

impl View for ReconnectionManager {
    type V = ReconnectionState;

    closed spec fn view(&self) -> ReconnectionState {
        ReconnectionState {
            config: self.config,
            attempt_count: self.attempt_count,
            has_last_attempt: self.last_attempt is Some,
        }
    }
}

impl ReconnectionState {
    /// A manager with no attempt recorded.
    pub open spec fn is_fresh(self, config: ClientPerformanceConfig) -> bool {
        &&& self.config == config
        &&& self.attempt_count == 0
        &&& !self.has_last_attempt
    }

    /// The backoff computation cannot overflow a `u64` where `should_reconnect` computes it.
    pub open spec fn backoff_fits(self) -> bool {
        (self.has_last_attempt && self.attempt_count < self.config.max_reconnect_attempts)
            ==> backoff_ms(self.config.reconnect_interval_ms, self.attempt_count) <= u64::MAX
    }

    /// Whether to reconnect now, `elapsed_ms` milliseconds after the last attempt.
    pub open spec fn should_reconnect_at(self, elapsed_ms: int) -> bool {
        &&& self.attempt_count < self.config.max_reconnect_attempts
        &&& (self.has_last_attempt ==> elapsed_ms >= backoff_ms(
            self.config.reconnect_interval_ms,
            self.attempt_count,
        ))
    }
}

/// The state after one more attempt is recorded.
pub open spec fn after_attempt(s: ReconnectionState) -> ReconnectionState {
    ReconnectionState { attempt_count: (s.attempt_count + 1) as u32, has_last_attempt: true, ..s }
}

/// The state after `n` more attempts are recorded, with no reset between them.
pub open spec fn after_attempts(s: ReconnectionState, n: nat) -> ReconnectionState
    decreases n,
{
    if n == 0 {
        s
    } else {
        after_attempt(after_attempts(s, (n - 1) as nat))
    }
}

/// Once the attempts recorded since creation or the last reset reach the maximum, no
/// reconnection is due, however long one waits, until the next reset.
pub proof fn law_no_reconnection_after_max(s: ReconnectionState, n: nat, elapsed_ms: int)
    requires
        s.attempt_count + n <= u32::MAX,
        s.attempt_count + n >= s.config.max_reconnect_attempts,
    ensures
        after_attempts(s, n).attempt_count == s.attempt_count + n,
        after_attempts(s, n).config == s.config,
        !after_attempts(s, n).should_reconnect_at(elapsed_ms),
    decreases n,
{
    if n > 0 {
        lemma_after_attempts_count(s, (n - 1) as nat);
    }
}

proof fn lemma_after_attempts_count(s: ReconnectionState, n: nat)
    requires
        s.attempt_count + n <= u32::MAX,
    ensures
        after_attempts(s, n).attempt_count == s.attempt_count + n,
        after_attempts(s, n).config == s.config,
    decreases n,
{
    if n > 0 {
        lemma_after_attempts_count(s, (n - 1) as nat);
    }
}

/// Once an attempt is recorded, and below the maximum, a reconnection is due exactly when
/// at least the backoff has passed since it: with `nanos` nanoseconds elapsed, not before
/// `backoff_ms` whole milliseconds.
pub proof fn law_reconnection_waits_for_backoff(s: ReconnectionState, nanos: nat)
    requires
        s.has_last_attempt,
        s.attempt_count < s.config.max_reconnect_attempts,
    ensures
        s.should_reconnect_at(nanos as int / 1_000_000) <==> nanos >= backoff_ms(
            s.config.reconnect_interval_ms,
            s.attempt_count,
        ) * 1_000_000,
{
    let b = backoff_ms(s.config.reconnect_interval_ms, s.attempt_count);
    assert(b >= 0) by (nonlinear_arith)
        requires
            b == s.config.reconnect_interval_ms * pow2(backoff_exponent(s.attempt_count)),
    ;
    assert((nanos as int / 1_000_000 >= b) <==> (nanos >= b * 1_000_000)) by (nonlinear_arith)
        requires
            b >= 0,
    ;
}

/// Each attempt below the cap doubles the backoff; from the tenth attempt on it stays put.
pub proof fn law_backoff_doubles_until_cap(base_ms: u64, attempts: u32)
    requires
        attempts < u32::MAX,
    ensures
        attempts < 10 ==> backoff_ms(base_ms, (attempts + 1) as u32) == 2 * backoff_ms(
            base_ms,
            attempts,
        ),
        attempts >= 10 ==> backoff_ms(base_ms, (attempts + 1) as u32) == backoff_ms(
            base_ms,
            attempts,
        ),
{
    let e = backoff_exponent(attempts);
    if attempts < 10 {
        assert(backoff_exponent((attempts + 1) as u32) == e + 1);
        assert(pow2(e + 1) == 2 * pow2(e));
        assert(base_ms * pow2(e + 1) == base_ms * (2 * pow2(e)));
        assert(base_ms * (2 * pow2(e)) == 2 * (base_ms * pow2(e))) by (nonlinear_arith);
    }
}

/// `2^e` for `e <= 10`, computed by doubling.
fn pow2_u64(e: u32) -> (r: u64)
    requires
        e <= 10,
    ensures
        r == pow2(e as nat),
        r <= 1024,
{
    let mut r: u64 = 1;
    let mut i: u32 = 0;
    while i < e
        invariant
            i <= e <= 10,
            r == pow2(i as nat),
        decreases e - i,
    {
        proof {
            lemma_pow2_bound(i as nat);
        }
        r = r * 2;
        i = i + 1;
    }
    proof {
        lemma_pow2_bound(e as nat);
    }
    r
}

proof fn lemma_pow2_bound(e: nat)
    requires
        e <= 10,
    ensures
        pow2(e) <= 1024,
        e < 10 ==> pow2(e) <= 512,
    decreases e,
{
    reveal_with_fuel(pow2, 11);
    if e > 0 {
        lemma_pow2_bound((e - 1) as nat);
    }
}

impl ReconnectionManager {
    pub fn new(config: ClientPerformanceConfig) -> (m: Self)
        ensures
            m@.is_fresh(config),
    {
        ReconnectionManager { config, attempt_count: 0, last_attempt: None }
    }

    /// Whether a reconnection should be attempted now. It takes the time elapsed since the
    /// last attempt from the clock and decides as `should_reconnect_after` does.
    pub fn should_reconnect(&self) -> (r: bool)
        requires
            self@.backoff_fits(),
        ensures
            r ==> self@.attempt_count < self@.config.max_reconnect_attempts,
            self@.attempt_count < self@.config.max_reconnect_attempts && !self@.has_last_attempt
                ==> r,
            self@.has_last_attempt ==> exists|d: Duration|
                r == self@.should_reconnect_at(#[trigger] duration_nanos(d) as int / 1_000_000),
    {
        let elapsed_ms: u128 = match &self.last_attempt {
            Some(last) => elapsed_nanos(last) / 1_000_000,
            None => 0,
        };
        self.should_reconnect_after(elapsed_ms)
    }

    /// Whether a reconnection should be attempted when `elapsed_ms` milliseconds have passed
    /// since the last attempt: not once the attempts reach the maximum; otherwise at once
    /// if no attempt was recorded, else when the backoff has passed.
    pub fn should_reconnect_after(&self, elapsed_ms: u128) -> (r: bool)
        requires
            self@.backoff_fits(),
        ensures
            r == self@.should_reconnect_at(elapsed_ms as int),
    {
        if self.attempt_count >= self.config.max_reconnect_attempts {
            return false;
        }
        if self.last_attempt.is_some() {
            let backoff_ms = self.calculate_backoff();
            elapsed_ms >= backoff_ms as u128
        } else {
            true
        }
    }

    pub fn record_attempt(&mut self)
        requires
            old(self)@.attempt_count < u32::MAX,
        ensures
            final(self)@ == after_attempt(old(self)@),
            final(self)@.attempt_count == old(self)@.attempt_count + 1,
    {
        self.attempt_count = self.attempt_count + 1;
        self.last_attempt = Some(instant_now());
    }

    /// Forgets every attempt: the manager is as `new` made it.
    pub fn reset(&mut self)
        ensures
            final(self)@.is_fresh(old(self)@.config),
    {
        self.attempt_count = 0;
        self.last_attempt = None;
    }

    /// The backoff in milliseconds: `reconnect_interval_ms * 2^min(attempts, 10)`.
    pub fn calculate_backoff(&self) -> (r: u64)
        requires
            backoff_ms(self@.config.reconnect_interval_ms, self@.attempt_count) <= u64::MAX,
        ensures
            r == backoff_ms(self@.config.reconnect_interval_ms, self@.attempt_count),
    {
        let base_interval = self.config.reconnect_interval_ms;
        let exponent: u32 = if self.attempt_count < 10 { self.attempt_count } else { 10 };
        let exponential_factor = pow2_u64(exponent);
        base_interval * exponential_factor
    }

    pub fn attempts(&self) -> (r: u32)
        ensures
            r == self@.attempt_count,
    {
        self.attempt_count
    }
}

} // verus!
