//! The retry policy: which failures end an operation, and how long to wait
//! before each further attempt.
//!
//! The executor does no waiting itself. After each failed attempt it is handed
//! the error and answers either with the delay before the next attempt or with
//! the error that ends the operation; the caller performs the wait and the
//! attempt.

use crate::error::TranslationError;
use vstd::prelude::*;

verus! {

/// Delay before the first retry, in milliseconds.
pub const BASE_DELAY_MS: u64 = 100;

/// Two to the power `k`.
pub open spec fn pow2(k: nat) -> nat
    decreases k,
{
    if k == 0 {
        1
    } else {
        2 * pow2((k - 1) as nat)
    }
}

/// The delay, in milliseconds, before the `k`-th retry: none before the first
/// attempt (`k == 0`), then `100 × 2^(k−1)`, held at the largest `u64` where it
/// no longer fits.
pub open spec fn backoff_ms(k: nat) -> nat {
    if k == 0 {
        0
    } else if (BASE_DELAY_MS as nat) * pow2((k - 1) as nat) <= u64::MAX {
        (BASE_DELAY_MS as nat) * pow2((k - 1) as nat)
    } else {
        u64::MAX as nat
    }
}

proof fn lemma_pow2_grows(a: nat, b: nat)
    requires
        a <= b,
    ensures
        pow2(a) <= pow2(b),
    decreases b,
{
    if a < b {
        lemma_pow2_grows(a, (b - 1) as nat);
    }
}

/// The delay before the `retry`-th retry.
pub fn backoff_delay_ms(retry: u64) -> (r: u64)
    ensures
        r == backoff_ms(retry as nat),
{
    if retry == 0 {
        return 0;
    }
    let mut delay: u64 = BASE_DELAY_MS;
    let mut i: u64 = 1;
    while i < retry
        invariant
            1 <= i <= retry,
            delay == (BASE_DELAY_MS as nat) * pow2((i - 1) as nat),
        decreases retry - i,
    {
        if delay > u64::MAX / 2 {
            proof {
                lemma_pow2_grows(i as nat, (retry - 1) as nat);
                assert(pow2(i as nat) == 2 * pow2((i - 1) as nat));
                assert((BASE_DELAY_MS as nat) * pow2((retry - 1) as nat) >= (BASE_DELAY_MS as nat) * pow2(i as nat))
                    by (nonlinear_arith)
                    requires
                        pow2(i as nat) <= pow2((retry - 1) as nat),
                ;
            }
            return u64::MAX;
        }
        proof {
            assert(pow2(i as nat) == 2 * pow2((i - 1) as nat));
        }
        delay = delay * 2;
        i = i + 1;
    }
    delay
}

/// What follows a failed attempt.
#[derive(Debug)]
pub enum RetryOutcome {
    /// Wait `delay_ms`, then attempt again with the executor `state`.
    Again { state: RetryExecutor, delay_ms: u64 },
    /// The operation ends with this error.
    GiveUp(TranslationError),
}

/// The retry state of one logical operation: its budget and the retryable
/// errors of the attempts made so far, in order.
#[derive(Debug)]
pub struct RetryExecutor {
    max_retries: u32,
    errors: Vec<TranslationError>,
}

/// Whether a failure ends the operation, given the retry budget and the number
/// of retryable failures recorded before it.
pub open spec fn gives_up(max_retries: nat, recorded: nat, err: TranslationError) -> bool {
    !err.retryable() || recorded + 1 > max_retries
}

impl RetryExecutor {
    /// The number of retries after the first attempt.
    pub closed spec fn budget(&self) -> nat {
        self.max_retries as nat
    }

    /// The errors of the failed attempts so far.
    pub closed spec fn history(&self) -> Seq<TranslationError> {
        self.errors@
    }

    /// The executor holds fewer failures than attempts it allows.
    pub open spec fn wf(&self) -> bool {
        self.history().len() <= self.budget()
    }

    /// A fresh executor for one operation, allowing `max_retries` retries.
    pub fn new(max_retries: u32) -> (r: RetryExecutor)
        ensures
            r.wf(),
            r.budget() == max_retries,
            r.history() == Seq::<TranslationError>::empty(),
    {
        RetryExecutor { max_retries, errors: Vec::new() }
    }

    /// The number of attempts that have failed so far.
    pub fn failed_attempts(&self) -> (r: usize)
        ensures
            r == self.history().len(),
    {
        self.errors.len()
    }

    /// The delay before the next attempt: none before the first.
    pub fn next_delay_ms(&self) -> (r: u64)
        requires
            self.wf(),
        ensures
            r == backoff_ms(self.history().len()),
    {
        backoff_delay_ms(self.errors.len() as u64)
    }

    /// Records the failure of the latest attempt and decides what follows.
    /// A non-retryable error ends the operation unchanged. A retryable one is
    /// recorded; once `max_retries + 1` attempts have failed the operation ends
    /// with all their errors, and before that the next attempt follows after
    /// the backoff delay.
    pub fn on_failure(self, err: TranslationError) -> (r: RetryOutcome)
        requires
            self.wf(),
        ensures
            failure_step(self, err, r),
    {
        if !err.is_retryable() {
            return RetryOutcome::GiveUp(err);
        }
        let mut errors = self.errors;
        errors.push(err);
        if errors.len() > self.max_retries as usize {
            RetryOutcome::GiveUp(
                TranslationError::MaxRetriesExceeded { attempts: self.max_retries as u64 + 1, errors },
            )
        } else {
            let state = RetryExecutor { max_retries: self.max_retries, errors };
            let delay_ms = backoff_delay_ms(state.errors.len() as u64);
            RetryOutcome::Again { state, delay_ms }
        }
    }
}

/// Backoff doubles: the first retry waits 100 ms, and each later retry waits
/// twice as long as the one before, as long as that delay fits in a `u64`.
pub proof fn lemma_backoff_doubles(k: nat)
    requires
        k >= 1,
        (BASE_DELAY_MS as nat) * pow2(k) <= u64::MAX,
    ensures
        backoff_ms(1) == BASE_DELAY_MS,
        backoff_ms(k) == (BASE_DELAY_MS as nat) * pow2((k - 1) as nat),
        backoff_ms(k + 1) == 2 * backoff_ms(k),
{
    assert(pow2(k) == 2 * pow2((k - 1) as nat));
    assert((BASE_DELAY_MS as nat) * pow2(k) == 2 * ((BASE_DELAY_MS as nat) * pow2((k - 1) as nat)))
        by (nonlinear_arith)
        requires
            pow2(k) == 2 * pow2((k - 1) as nat),
    ;
}

/// How the executor `s` answers the failure `err` of its latest attempt. A
/// non-retryable error ends the operation unchanged. A retryable one is
/// recorded; once `budget + 1` attempts have failed the operation ends with
/// all their errors in order, and before that the next attempt follows after
/// the backoff delay of that retry.
pub open spec fn failure_step(s: RetryExecutor, err: TranslationError, r: RetryOutcome) -> bool {
    &&& !err.retryable() ==> r == RetryOutcome::GiveUp(err)
    &&& (r is GiveUp) <==> gives_up(s.budget(), s.history().len(), err)
    &&& err.retryable() && gives_up(s.budget(), s.history().len(), err) ==> (r matches RetryOutcome::GiveUp(
        TranslationError::MaxRetriesExceeded { attempts, errors },
    ) && attempts == s.budget() + 1 && errors@ == s.history().push(err))
    &&& r matches RetryOutcome::Again { state, delay_ms } ==> state.wf() && state.budget() == s.budget()
        && state.history() == s.history().push(err) && delay_ms == backoff_ms(state.history().len())
}

/// A run of an operation whose attempts all fail: `states[k]` is the executor
/// that records the failure `errs[k]` of attempt `k + 1`, answering
/// `outcomes[k]`, and each `Again` hands its state to the next attempt.
pub open spec fn failing_run(
    max_retries: nat,
    errs: Seq<TranslationError>,
    states: Seq<RetryExecutor>,
    outcomes: Seq<RetryOutcome>,
) -> bool {
    &&& states.len() == errs.len() && outcomes.len() == errs.len() && errs.len() > 0
    &&& states[0].wf() && states[0].budget() == max_retries && states[0].history() == Seq::<
        TranslationError,
    >::empty()
    &&& forall|k: int| 0 <= k < errs.len() ==> failure_step(#[trigger] states[k], errs[k], outcomes[k])
    &&& forall|k: int|
        0 <= k < errs.len() - 1 ==> ((#[trigger] outcomes[k]) is Again ==> states[k + 1]
            == outcomes[k]->state)
}

proof fn lemma_run_prefix(
    max_retries: nat,
    errs: Seq<TranslationError>,
    states: Seq<RetryExecutor>,
    outcomes: Seq<RetryOutcome>,
    k: int,
)
    requires
        failing_run(max_retries, errs, states, outcomes),
        errs.len() == max_retries + 1,
        forall|i: int| 0 <= i < errs.len() ==> (#[trigger] errs[i]).retryable(),
        0 <= k <= max_retries,
    ensures
        states[k].wf(),
        states[k].budget() == max_retries,
        states[k].history() == errs.subrange(0, k),
    decreases k,
{
    if k == 0 {
        assert(errs.subrange(0, 0) =~= Seq::<TranslationError>::empty());
    } else {
        lemma_run_prefix(max_retries, errs, states, outcomes, k - 1);
        assert(failure_step(states[k - 1], errs[k - 1], outcomes[k - 1]));
        assert(errs[k - 1].retryable());
        assert(!gives_up(max_retries, (k - 1) as nat, errs[k - 1]));
        assert(outcomes[k - 1] is Again);
        assert(errs.subrange(0, k - 1).push(errs[k - 1]) =~= errs.subrange(0, k));
    }
}

/// With a budget of `max_retries` = N, an operation whose every attempt fails
/// with a retryable error is attempted exactly N + 1 times: attempt `k + 1`
/// (k < N) is followed by another after 100 × 2^k ms, and attempt N + 1 ends
/// the operation with `MaxRetriesExceeded { attempts: N + 1, errors }`, where
/// `errors` holds the N + 1 errors in attempt order.
pub proof fn lemma_retry_exhaustion(
    max_retries: nat,
    errs: Seq<TranslationError>,
    states: Seq<RetryExecutor>,
    outcomes: Seq<RetryOutcome>,
)
    requires
        errs.len() == max_retries + 1,
        forall|i: int| 0 <= i < errs.len() ==> (#[trigger] errs[i]).retryable(),
        failing_run(max_retries, errs, states, outcomes),
    ensures
        forall|k: int|
            0 <= k < max_retries ==> (#[trigger] outcomes[k] matches RetryOutcome::Again {
                state,
                delay_ms,
            } && state.history() == errs.subrange(0, k + 1) && delay_ms == backoff_ms(
                (k + 1) as nat,
            )),
        outcomes[max_retries as int] matches RetryOutcome::GiveUp(
            TranslationError::MaxRetriesExceeded { attempts, errors },
        ) && attempts == max_retries + 1 && errors@ == errs,
{
    assert forall|k: int|
        0 <= k < max_retries implies (#[trigger] outcomes[k] matches RetryOutcome::Again {
            state,
            delay_ms,
        } && state.history() == errs.subrange(0, k + 1) && delay_ms == backoff_ms(
            (k + 1) as nat,
        )) by {
        lemma_run_prefix(max_retries, errs, states, outcomes, k);
        assert(failure_step(states[k], errs[k], outcomes[k]));
        assert(errs[k].retryable());
        assert(!gives_up(max_retries, k as nat, errs[k]));
        assert(errs.subrange(0, k).push(errs[k]) =~= errs.subrange(0, k + 1));
    }
    let n = max_retries as int;
    lemma_run_prefix(max_retries, errs, states, outcomes, n);
    assert(failure_step(states[n], errs[n], outcomes[n]));
    assert(errs[n].retryable());
    assert(errs.subrange(0, n).push(errs[n]) =~= errs);
}

/// A non-retryable failure of the first attempt ends the operation at once with
/// that error, after no delay, with one attempt made.
pub proof fn lemma_fatal_failure_stops(s: RetryExecutor, err: TranslationError, r: RetryOutcome)
    requires
        s.wf(),
        s.history() == Seq::<TranslationError>::empty(),
        !err.retryable(),
        failure_step(s, err, r),
    ensures
        backoff_ms(s.history().len()) == 0,
        r == RetryOutcome::GiveUp(err),
{
}

} // verus!
