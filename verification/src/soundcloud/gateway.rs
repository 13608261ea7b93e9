//! The transport gateway: what to do with the outcome of one attempt.
//!
//! A request that is answered with "too many requests" is sent again, up to
//! `MAX_RETRIES` times, after a wait that starts at `INITIAL_RETRY_DELAY_MS`
//! and about doubles each time, never beyond `MAX_RETRY_DELAY_MS`. Every
//! other answer is handed on, and a failure of the transport ends the
//! request at once.
//!
//! The caller sends and waits; `Backoff` decides.

use vstd::prelude::*;
use crate::error::AppError;

verus! {

/// How often a request is sent again.
pub const MAX_RETRIES: u32 = 5;

/// The first wait, in milliseconds.
pub const INITIAL_RETRY_DELAY_MS: u64 = 30_000;

/// The longest wait, in milliseconds.
pub const MAX_RETRY_DELAY_MS: u64 = 500_000;

/// The jitter that is added to a doubled wait stays below this, in
/// milliseconds.
pub const JITTER_MS: u64 = 1000;

/// The status with which the upstream limits the rate.
pub const TOO_MANY_REQUESTS: u16 = 429;

/// What came of one attempt to send a request.
#[derive(Clone, Debug, PartialEq, Eq)]
pub enum Attempt {
    /// An answer, with its status.
    Response(u16),
    /// No answer: the transport failed, and says why.
    Failure(String),
}

/// What is to be done after an attempt.
#[derive(Clone, Debug, PartialEq, Eq)]
pub enum Verdict {
    /// Hand the answer on.
    Deliver,
    /// Wait this many milliseconds, then send the same request again.
    Retry(u64),
    /// Give up with this error.
    Fail(AppError),
}

/// The wait that follows a wait of `delay`: twice as long and a jitter
/// below `JITTER_MS` taken from `raw`, but never beyond `MAX_RETRY_DELAY_MS`.
pub open spec fn next_delay(delay: u64, raw: u64) -> u64 {
    let grown = 2 * delay + raw % JITTER_MS;
    if grown <= MAX_RETRY_DELAY_MS {
        grown as u64
    } else {
        MAX_RETRY_DELAY_MS
    }
}

/// The verdict on an attempt that is made after `retries` retries, with
/// `delay` as the wait that is due.
pub open spec fn verdict_on(retries: u32, delay: u64, attempt: Attempt) -> Verdict {
    match attempt {
        Attempt::Failure(why) => Verdict::Fail(AppError::Network(why)),
        Attempt::Response(status) => if status != TOO_MANY_REQUESTS {
            Verdict::Deliver
        } else if retries >= MAX_RETRIES {
            Verdict::Fail(AppError::RateLimited)
        } else {
            Verdict::Retry(delay)
        },
    }
}

/// The retries made and the wait that is due.
pub struct Backoff {
    retries: u32,
    delay_ms: u64,
}

impl Backoff {
    /// How many times the request was sent again.
    pub closed spec fn retries(&self) -> u32 {
        self.retries
    }

    /// The wait that the next retry takes, in milliseconds.
    pub closed spec fn delay(&self) -> u64 {
        self.delay_ms
    }

    /// The retries and the wait are within their bounds.
    pub closed spec fn wf(&self) -> bool {
        &&& self.retries <= MAX_RETRIES
        &&& self.delay_ms <= MAX_RETRY_DELAY_MS
    }

    /// The state before the first attempt.
    pub fn new() -> (state: Backoff)
        ensures
            state.wf(),
            state.retries() == 0,
            state.delay() == INITIAL_RETRY_DELAY_MS,
    {
        Backoff { retries: 0, delay_ms: INITIAL_RETRY_DELAY_MS }
    }

    /// How many times the request was sent again.
    pub fn retries_made(&self) -> (r: u32)
        ensures
            r == self.retries(),
    {
        self.retries
    }

    /// The wait that the next retry takes, in milliseconds.
    pub fn delay_ms(&self) -> (r: u64)
        ensures
            r == self.delay(),
    {
        self.delay_ms
    }

    /// The verdict on an attempt, with `raw` as the number that the jitter
    /// is taken from. Only a verdict to retry changes the state: it counts
    /// the retry and sets the wait that follows.
    pub fn judge_with(&mut self, attempt: Attempt, raw: u64) -> (verdict: Verdict)
        requires
            old(self).wf(),
        ensures
            final(self).wf(),
            verdict == verdict_on(old(self).retries(), old(self).delay(), attempt),
            old(self).delay() <= final(self).delay() <= MAX_RETRY_DELAY_MS,
            final(self).retries() <= MAX_RETRIES,
            verdict is Retry ==> {
                &&& final(self).retries() == old(self).retries() + 1
                &&& final(self).delay() == next_delay(old(self).delay(), raw)
            },
            !(verdict is Retry) ==> {
                &&& final(self).retries() == old(self).retries()
                &&& final(self).delay() == old(self).delay()
            },
    {
        match attempt {
            Attempt::Failure(why) => Verdict::Fail(AppError::Network(why)),
            Attempt::Response(status) => {
                if status != TOO_MANY_REQUESTS {
                    Verdict::Deliver
                } else if self.retries >= MAX_RETRIES {
                    Verdict::Fail(AppError::RateLimited)
                } else {
                    let wait = self.delay_ms;
                    let grown = 2 * wait + raw % JITTER_MS;
                    self.delay_ms = if grown <= MAX_RETRY_DELAY_MS {
                        grown
                    } else {
                        MAX_RETRY_DELAY_MS
                    };
                    self.retries = self.retries + 1;
                    Verdict::Retry(wait)
                }
            },
        }
    }

    /// The verdict on an attempt, with a jitter drawn at random. It is the
    /// verdict of `judge_with` for some number.
    pub fn judge(&mut self, attempt: Attempt) -> (verdict: Verdict)
        requires
            old(self).wf(),
        ensures
            final(self).wf(),
            verdict == verdict_on(old(self).retries(), old(self).delay(), attempt),
            old(self).delay() <= final(self).delay() <= MAX_RETRY_DELAY_MS,
            final(self).retries() <= MAX_RETRIES,
            verdict is Retry ==> {
                &&& final(self).retries() == old(self).retries() + 1
                &&& exists|raw: u64| final(self).delay() == next_delay(old(self).delay(), raw)
            },
            !(verdict is Retry) ==> {
                &&& final(self).retries() == old(self).retries()
                &&& final(self).delay() == old(self).delay()
            },
    {
        let raw = random_u64();
        self.judge_with(attempt, raw)
    }
}

/// `rand::random` at the type `u64`: a number drawn at random. Nothing is
/// known of it.
#[verifier::external_body]
fn random_u64() -> u64 {
    rand::random::<u64>()
}

/// A wait never shrinks and never goes beyond the longest wait; the jitter
/// adds less than `JITTER_MS`.
pub proof fn lemma_delay_grows_to_cap(delay: u64, raw: u64)
    requires
        delay <= MAX_RETRY_DELAY_MS,
    ensures
        delay <= next_delay(delay, raw) <= MAX_RETRY_DELAY_MS,
        next_delay(delay, raw) == MAX_RETRY_DELAY_MS || 2 * delay <= next_delay(delay, raw) < 2
            * delay + JITTER_MS,
{
}

/// The wait that is due after `n` answers in a row that limit the rate,
/// counted from the first attempt, with `raws` as the numbers that the
/// jitters are taken from.
pub open spec fn delay_after(n: nat, raws: Seq<u64>) -> u64
    decreases n,
{
    if n == 0 {
        INITIAL_RETRY_DELAY_MS
    } else {
        next_delay(delay_after((n - 1) as nat, raws), raws[n - 1])
    }
}

/// The waits of a run of limiting answers never shrink and stay within the
/// longest wait.
pub proof fn lemma_waits_are_monotone(n: nat, raws: Seq<u64>)
    ensures
        delay_after(n, raws) <= delay_after(n + 1, raws) <= MAX_RETRY_DELAY_MS,
        INITIAL_RETRY_DELAY_MS <= delay_after(n, raws) <= MAX_RETRY_DELAY_MS,
    decreases n,
{
    if n > 0 {
        lemma_waits_are_monotone((n - 1) as nat, raws);
    }
    lemma_delay_grows_to_cap(delay_after(n, raws), raws[n as int]);
}

/// A request that is limited `n` times in a row and then answered, with `n`
/// within the retry budget: each of the `n` limiting answers is retried
/// after the wait that is due, and the answer that follows is handed on,
/// after exactly `n` retries.
pub proof fn lemma_limited_then_answered(n: nat, raws: Seq<u64>, status: u16, k: nat)
    requires
        n <= MAX_RETRIES,
        status != TOO_MANY_REQUESTS,
        k < n,
    ensures
        verdict_on(k as u32, delay_after(k, raws), Attempt::Response(TOO_MANY_REQUESTS))
            == Verdict::Retry(delay_after(k, raws)),
        verdict_on(n as u32, delay_after(n, raws), Attempt::Response(status)) == Verdict::Deliver,
{
}

/// A request that is limited more often than the retry budget allows ends
/// with `RateLimited`: the answer to the attempt after the last retry is not
/// retried.
pub proof fn lemma_budget_exhausted(raws: Seq<u64>)
    ensures
        verdict_on(
            MAX_RETRIES,
            delay_after(MAX_RETRIES as nat, raws),
            Attempt::Response(TOO_MANY_REQUESTS),
        ) == Verdict::Fail(AppError::RateLimited),
{
}

/// A failure of the transport is never retried, whatever the state.
pub proof fn lemma_failures_are_final(retries: u32, delay: u64, why: String)
    ensures
        verdict_on(retries, delay, Attempt::Failure(why)) == Verdict::Fail(AppError::Network(why)),
{
}

} // verus!
