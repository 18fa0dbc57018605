//! Periodic signals derived from the time that has passed since a start.
//!
//! What passes for time is read from the clock in one place; the signals
//! themselves are functions of the elapsed time and are stated exactly.

use vstd::prelude::*;

verus! {

/// `std::time::Instant` of the standard library, a reading of the clock.
/// Nothing is known of what it holds.
#[verifier::external_type_specification]
#[verifier::external_body]
pub struct ExInstant(std::time::Instant);

/// `Instant::now` of the standard library reads the clock; nothing is
/// claimed of what it returns.
pub assume_specification[ std::time::Instant::now ]() -> std::time::Instant;

/// `Instant::elapsed` of the standard library measures the time since the
/// instant against the clock; nothing is claimed of what it returns.
pub assume_specification[ std::time::Instant::elapsed ](
    instant: &std::time::Instant,
) -> std::time::Duration;

/// `Duration::as_secs` of the standard library: the whole seconds of a
/// duration. Nothing is claimed of the number.
pub assume_specification[ std::time::Duration::as_secs ](duration: &std::time::Duration) -> u64;

/// `Duration::as_millis` of the standard library: the whole milliseconds of
/// a duration. Nothing is claimed of the number.
pub assume_specification[ std::time::Duration::as_millis ](
    duration: &std::time::Duration,
) -> u128;

/// Whether `elapsed` is a multiple of the period `n`.
pub open spec fn at_period_start(elapsed: int, n: int) -> bool {
    elapsed % n == 0
}

/// Whether `elapsed` lies in the second half of a period of length `n`:
/// periods start at the multiples of `n`, and the signal is off in the
/// first half of each and on in the second.
pub open spec fn in_second_half(elapsed: int, n: int) -> bool {
    (elapsed % n) * 2 >= n
}

/// Whether `elapsed` lies at least `m` into a period of length `n`.
pub open spec fn past_mark(elapsed: int, n: int, m: int) -> bool {
    elapsed % n >= m
}

/// Tells whether `elapsed` is a multiple of `n`.
pub fn is_period_start(elapsed: u128, n: u128) -> (r: bool)
    requires
        n > 0,
    ensures
        r == at_period_start(elapsed as int, n as int),
{
    elapsed % n == 0
}

/// Tells whether `elapsed` lies in the second half of a period of `n`.
pub fn is_second_half(elapsed: u128, n: u128) -> (r: bool)
    requires
        n > 0,
    ensures
        r == in_second_half(elapsed as int, n as int),
{
    let into: u128 = elapsed % n;
    into >= n - into
}

/// Tells whether `elapsed` lies at least `m` into a period of `n`.
pub fn is_past_mark(elapsed: u128, n: u128, m: u128) -> (r: bool)
    requires
        n > 0,
    ensures
        r == past_mark(elapsed as int, n as int, m as int),
{
    elapsed % n >= m
}

/// A stopwatch that was started when it was made.
pub struct Timer {
    instant: std::time::Instant,
}

impl Timer {
    /// A timer that starts now.
    pub fn new() -> Self {
        Timer { instant: std::time::Instant::now() }
    }

    /// Whether the whole seconds since the start are a multiple of `n`,
    /// whatever the clock says they are.
    pub fn _true_every_n_seconds(&self, n: u64) -> (r: bool)
        requires
            n > 0,
        ensures
            exists|elapsed: u64| r == at_period_start(elapsed as int, n as int),
    {
        let elapsed = self.instant.elapsed().as_secs();
        is_period_start(elapsed as u128, n as u128)
    }

    /// A signal that is off for the first half of every `n` seconds since
    /// the start and on for the second half, at the second the clock gives.
    pub fn switch_every_n_seconds(&self, n: u64) -> (r: bool)
        requires
            n > 0,
        ensures
            exists|elapsed: u64| r == in_second_half(elapsed as int, n as int),
    {
        let elapsed = self.instant.elapsed().as_secs();
        is_second_half(elapsed as u128, n as u128)
    }

    /// A signal that is off for the first half of every `n` milliseconds
    /// since the start and on for the second half, at the millisecond the
    /// clock gives.
    pub fn switch_every_n_millis(&self, n: u128) -> (r: bool)
        requires
            n > 0,
        ensures
            exists|elapsed: u128| r == in_second_half(elapsed as int, n as int),
    {
        let elapsed = self.instant.elapsed().as_millis();
        is_second_half(elapsed, n)
    }

    /// A signal that, in every `n` milliseconds since the start, is off for
    /// the first `m` and on for the rest, at the millisecond the clock
    /// gives.
    pub fn switch_every_n_for_m_millis(&self, n: u128, m: u128) -> (r: bool)
        requires
            n > 0,
        ensures
            exists|elapsed: u128| r == past_mark(elapsed as int, n as int, m as int),
    {
        let elapsed = self.instant.elapsed().as_millis();
        is_past_mark(elapsed, n, m)
    }

    /// The milliseconds since the start, as the clock gives them.
    pub fn _time_as_millis(&self) -> u128 {
        self.instant.elapsed().as_millis()
    }
}

} // verus!
