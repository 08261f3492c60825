use vstd::prelude::*;
use crate::clock::unix_micros;
use crate::error::TurbosheetError;
use crate::text::{push_str, push_decimal, string_from_chars, decimal_spec};

verus! {

/// How an assertion is retried until it holds: the overall timeout, the
/// first pause between tries and the largest pause, in milliseconds.
pub struct AssertionEngine {
    pub timeout_ms: u64,
    pub initial_interval_ms: u64,
    pub max_interval_ms: u64,
}

impl Default for AssertionEngine {
    fn default() -> (r: Self)
        ensures
            r.timeout_ms == 30000,
            r.initial_interval_ms == 100,
            r.max_interval_ms == 500,
    {
        AssertionEngine { timeout_ms: 30000, initial_interval_ms: 100, max_interval_ms: 500 }
    }
}

/// The jitter added to a pause of `interval_ms`, drawn from a clock
/// reading of `time_micros`: the reading modulo a tenth of the interval,
/// and none when that tenth is zero.
pub open spec fn jitter_spec(interval_ms: u64, time_micros: u64) -> u64 {
    let max_jitter = interval_ms / 10;
    if max_jitter == 0 { 0 } else { time_micros % max_jitter }
}

/// The pause after `interval_ms`: doubled, but no more than `max_ms`.
pub open spec fn next_interval_spec(interval_ms: u64, max_ms: u64) -> u64 {
    if 2 * interval_ms < max_ms { (2 * interval_ms) as u64 } else { max_ms }
}

/// The message of an assertion that ran out of time.
pub open spec fn timeout_message_spec(timeout_ms: u64, polls: u32, last_error: Seq<char>) -> Seq<char> {
    "Assertion timeout after "@ + decimal_spec(timeout_ms as nat) + "ms ("@ + decimal_spec(polls as nat) + " polls). "@
        + last_error
}

/// What to do after a try that failed.
pub enum PollAction {
    /// Pause for `sleep_ms`, then try again; the pause after that is
    /// `next_interval_ms`.
    Retry { sleep_ms: u64, next_interval_ms: u64 },
    /// Give up with this error.
    Fail(TurbosheetError),
}

impl AssertionEngine {
    /// The jitter for a clock reading (see `jitter_spec`).
    pub fn jitter_from(interval_ms: u64, time_micros: u64) -> (r: u64)
        ensures
            r == jitter_spec(interval_ms, time_micros),
    {
        let max_jitter = interval_ms / 10;
        if max_jitter == 0 {
            0
        } else {
            time_micros % max_jitter
        }
    }

    /// A jitter for a pause of `interval_ms`, drawn from the clock: below a
    /// tenth of the interval, and zero when that tenth is zero.
    pub fn compute_jitter(interval_ms: u64) -> (r: u64)
        ensures
            exists|t: u64| r == jitter_spec(interval_ms, t),
            interval_ms / 10 == 0 ==> r == 0,
            interval_ms / 10 > 0 ==> r < interval_ms / 10,
            r <= interval_ms / 10,
    {
        let t = unix_micros();
        Self::jitter_from(interval_ms, t)
    }

    /// The pause after `interval_ms` (see `next_interval_spec`).
    pub fn next_interval(&self, interval_ms: u64) -> (r: u64)
        ensures
            r == next_interval_spec(interval_ms, self.max_interval_ms),
    {
        if interval_ms <= u64::MAX / 2 && 2 * interval_ms < self.max_interval_ms {
            2 * interval_ms
        } else {
            self.max_interval_ms
        }
    }

    /// The message of an assertion that ran out of time (see
    /// `timeout_message_spec`).
    pub fn timeout_message(timeout_ms: u64, polls: u32, last_error: &str) -> (s: String)
        ensures
            s@ == timeout_message_spec(timeout_ms, polls, last_error@),
    {
        let mut out: Vec<char> = Vec::new();
        push_str(&mut out, "Assertion timeout after ");
        push_decimal(&mut out, timeout_ms);
        push_str(&mut out, "ms (");
        push_decimal(&mut out, polls as u64);
        push_str(&mut out, " polls). ");
        push_str(&mut out, last_error);
        assert(out@ =~= timeout_message_spec(timeout_ms, polls, last_error@));
        string_from_chars(&out)
    }

    /// The decision after the `polls`-th try failed with `last_error`, when
    /// `elapsed_ms` have passed since the first and the current pause is
    /// `interval_ms`, for a given `jitter_ms`: give up with the timeout
    /// message once the timeout is reached, else pause for the interval plus
    /// the jitter (at most `u64::MAX`) and double the interval up to the
    /// largest.
    pub fn decide_after_failure(
        &self,
        timeout_ms: u64,
        elapsed_ms: u64,
        interval_ms: u64,
        jitter_ms: u64,
        polls: u32,
        last_error: &str,
    ) -> (r: PollAction)
        ensures
            elapsed_ms >= timeout_ms ==> (r matches PollAction::Fail(TurbosheetError::Other(m))
                && m@ == timeout_message_spec(timeout_ms, polls, last_error@)),
            elapsed_ms < timeout_ms ==> (r matches PollAction::Retry { sleep_ms, next_interval_ms }
                && sleep_ms == (if interval_ms + jitter_ms <= u64::MAX { (interval_ms + jitter_ms) as u64 } else { u64::MAX })
                && next_interval_ms == next_interval_spec(interval_ms, self.max_interval_ms)),
    {
        if elapsed_ms >= timeout_ms {
            PollAction::Fail(TurbosheetError::Other(Self::timeout_message(timeout_ms, polls, last_error)))
        } else {
            let sleep_ms = interval_ms.saturating_add(jitter_ms);
            PollAction::Retry { sleep_ms, next_interval_ms: self.next_interval(interval_ms) }
        }
    }

    /// The decision after a failed try (see `decide_after_failure`), the
    /// jitter drawn from the clock (see `compute_jitter`).
    pub fn after_failure(&self, timeout_ms: u64, elapsed_ms: u64, interval_ms: u64, polls: u32, last_error: &str) -> (r: PollAction)
        ensures
            elapsed_ms >= timeout_ms ==> (r matches PollAction::Fail(TurbosheetError::Other(m))
                && m@ == timeout_message_spec(timeout_ms, polls, last_error@)),
            elapsed_ms < timeout_ms ==> (r matches PollAction::Retry { sleep_ms, next_interval_ms }
                && interval_ms <= sleep_ms
                && sleep_ms <= (if interval_ms + interval_ms / 10 <= u64::MAX { (interval_ms + interval_ms / 10) as u64 } else { u64::MAX })
                && next_interval_ms == next_interval_spec(interval_ms, self.max_interval_ms)),
    {
        let jitter = Self::compute_jitter(interval_ms);
        self.decide_after_failure(timeout_ms, elapsed_ms, interval_ms, jitter, polls, last_error)
    }
}

/// The pause between tries grows and stays bounded: the next pause is never
/// above the largest one, and never below the current one while that is
/// within the largest.
pub proof fn law_backoff_bounded(interval_ms: u64, max_ms: u64)
    ensures
        next_interval_spec(interval_ms, max_ms) <= max_ms,
        interval_ms <= max_ms ==> interval_ms <= next_interval_spec(interval_ms, max_ms),
{
}

} // verus!
