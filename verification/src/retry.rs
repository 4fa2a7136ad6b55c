//! Retrying to bind a listening socket whose address is still taken.
//!
//! After a reload the previous listener may not be gone yet, so "address in
//! use" is worth waiting for. Every other failure is final.

use vstd::prelude::*;

verus! {

/// How often a bind is attempted in all.
pub const BIND_MAX_RETRY: u32 = 5;

/// The wait after the first failed attempt; the n-th wait is n times as long.
pub const BIND_RETRY_BASE_MS: u64 = 100;

/// The kinds of I/O error that a decision depends on.
#[derive(Clone, Copy, Debug, PartialEq, Eq, Structural)]
pub enum ErrorKind {
    AddrInUse,
    ConnectionAborted,
    Other,
}

/// An I/O error with its kind.
#[derive(Debug, PartialEq, Eq)]
pub struct Failure<E> {
    pub kind: ErrorKind,
    pub error: E,
}

/// How many attempts have failed so far.
#[derive(Clone, Copy, Debug, PartialEq, Eq)]
pub struct BindRetry {
    pub failures: u32,
}

/// What to do after an attempt.
#[derive(Debug, PartialEq, Eq)]
pub enum BindStep<T, E> {
    /// The listener is there.
    Bound(T),
    /// Sleep, then try again.
    Retry { retry: BindRetry, error: E, delay_ms: u64 },
    /// Give up with the error of the last attempt.
    Failed { attempts: u32, error: E },
}

impl BindRetry {
    /// Fewer attempts have failed than may be made.
    pub open spec fn wf(self) -> bool {
        self.failures < BIND_MAX_RETRY
    }

    /// No attempt has been made yet.
    pub fn new() -> (retry: BindRetry)
        ensures
            retry.wf(),
            retry.failures == 0,
    {
        BindRetry { failures: 0 }
    }
}

/// The wait, in milliseconds, after the n-th failed attempt.
pub open spec fn retry_delay_ms(n: nat) -> nat {
    BIND_RETRY_BASE_MS as nat * n
}

/// Whether the attempt after `retry` may be followed by another one when it
/// fails in this way.
pub open spec fn retryable(retry: BindRetry, kind: ErrorKind) -> bool {
    kind == ErrorKind::AddrInUse && retry.failures + 1 < BIND_MAX_RETRY
}

/// The step that follows an attempt.
pub open spec fn bind_step<T, E>(
    retry: BindRetry,
    outcome: Result<T, Failure<E>>,
) -> BindStep<T, E> {
    let attempts = (retry.failures + 1) as u32;
    match outcome {
        Ok(listener) => BindStep::Bound(listener),
        Err(failure) => if retryable(retry, failure.kind) {
            BindStep::Retry {
                retry: BindRetry { failures: attempts },
                error: failure.error,
                delay_ms: retry_delay_ms(attempts as nat) as u64,
            }
        } else {
            BindStep::Failed { attempts, error: failure.error }
        },
    }
}

/// Decides what follows an attempt to bind: a listener is taken as it is, an
/// address in use is waited for as long as attempts are left, and everything
/// else ends the attempts with the error at hand.
pub fn bind_with_retry<T, E>(retry: BindRetry, outcome: Result<T, Failure<E>>) -> (step: BindStep<
    T,
    E,
>)
    requires
        retry.wf(),
    ensures
        step == bind_step(retry, outcome),
        step matches BindStep::Retry { retry: next, .. } ==> next.wf(),
{
    match outcome {
        Ok(listener) => BindStep::Bound(listener),
        Err(failure) => {
            let attempts: u32 = retry.failures + 1;
            if failure.kind != ErrorKind::AddrInUse || attempts >= BIND_MAX_RETRY {
                BindStep::Failed { attempts, error: failure.error }
            } else {
                let delay_ms: u64 = BIND_RETRY_BASE_MS * attempts as u64;
                BindStep::Retry {
                    retry: BindRetry { failures: attempts },
                    error: failure.error,
                    delay_ms,
                }
            }
        },
    }
}

/// What a whole series of attempts comes to.
#[verifier::ext_equal]
pub struct BindRun<T, E> {
    /// The waits between the attempts, in order.
    pub delays: Seq<u64>,
    /// What the series ended with, once it has ended.
    pub result: Option<Result<T, E>>,
}

/// Attempt after attempt, each meeting the next of `outcomes`, until one of
/// them ends the series or no outcome is left.
pub open spec fn bind_run<T, E>(
    retry: BindRetry,
    outcomes: Seq<Result<T, Failure<E>>>,
) -> BindRun<T, E>
    decreases outcomes.len(),
{
    if outcomes.len() == 0 {
        BindRun { delays: seq![], result: None }
    } else {
        match bind_step(retry, outcomes[0]) {
            BindStep::Bound(listener) => BindRun { delays: seq![], result: Some(Ok(listener)) },
            BindStep::Failed { error, .. } => BindRun { delays: seq![], result: Some(Err(error)) },
            BindStep::Retry { retry: next, delay_ms, .. } => {
                let rest = bind_run(next, outcomes.skip(1));
                BindRun { delays: seq![delay_ms] + rest.delays, result: rest.result }
            },
        }
    }
}

/// The outcome is a failure because the address is taken.
pub open spec fn address_taken<T, E>(outcome: Result<T, Failure<E>>) -> bool {
    outcome matches Err(failure) && failure.kind == ErrorKind::AddrInUse
}

/// The result that a deciding outcome leads to.
pub open spec fn without_kind<T, E>(outcome: Result<T, Failure<E>>) -> Result<T, E> {
    match outcome {
        Ok(listener) => Ok(listener),
        Err(failure) => Err(failure.error),
    }
}

proof fn bind_run_from<T, E>(retry: BindRetry, outcomes: Seq<Result<T, Failure<E>>>, n: nat)
    requires
        retry.wf(),
        n < outcomes.len(),
        retry.failures + n < BIND_MAX_RETRY,
        forall|i: int| 0 <= i < n ==> address_taken(#[trigger] outcomes[i]),
        !address_taken(outcomes[n as int]) || retry.failures + n == BIND_MAX_RETRY - 1,
    ensures
        bind_run(retry, outcomes).result == Some(without_kind(outcomes[n as int])),
        bind_run(retry, outcomes).delays == Seq::new(
            n,
            |i: int| retry_delay_ms((retry.failures + i + 1) as nat) as u64,
        ),
    decreases n,
{
    if n > 0 {
        assert(address_taken(outcomes[0]));
        let next = BindRetry { failures: (retry.failures + 1) as u32 };
        let tail = outcomes.skip(1);
        assert forall|i: int| 0 <= i < n - 1 implies address_taken(#[trigger] tail[i]) by {
            assert(tail[i] == outcomes[i + 1]);
        }
        bind_run_from(next, tail, (n - 1) as nat);
    }
    assert(bind_run(retry, outcomes).delays =~= Seq::new(
        n,
        |i: int| retry_delay_ms((retry.failures + i + 1) as nat) as u64,
    ));
}

/// An attempt that gets its listener is over, whatever came before it. One that
/// fails is repeated exactly if the address is taken and it was not the fifth;
/// the wait is then a tenth of a second for each attempt made so far, and that
/// count goes up by one. Otherwise its own error is the last word, with the
/// number of attempts.
pub proof fn attempts_are_judged<T, E>(retry: BindRetry, outcome: Result<T, Failure<E>>)
    requires
        retry.wf(),
    ensures
        retry.failures <= 4,
        match (outcome, bind_step(retry, outcome)) {
            (Ok(listener), BindStep::Bound(kept)) => kept == listener,
            (Err(failure), BindStep::Retry { retry: next, error, delay_ms }) => {
                &&& failure.kind == ErrorKind::AddrInUse
                &&& next.failures == retry.failures + 1
                &&& next.failures <= 4
                &&& error == failure.error
                &&& delay_ms == 100 * next.failures
            },
            (Err(failure), BindStep::Failed { attempts, error }) => {
                &&& failure.kind != ErrorKind::AddrInUse || attempts == 5
                &&& attempts == retry.failures + 1
                &&& error == failure.error
            },
            _ => false,
        },
{
}

/// What an attempt leads to depends on the kind of its failure alone: two
/// failures of one kind, after as many attempts, are both repeated after the
/// same wait, or are both final. What kind it is matters only for whether the
/// address is taken.
pub proof fn errors_of_one_kind_are_judged_alike<T, E, F>(
    retry: BindRetry,
    failure: Failure<E>,
    other: Failure<F>,
)
    requires
        retry.wf(),
        failure.kind == ErrorKind::AddrInUse <==> other.kind == ErrorKind::AddrInUse,
    ensures
        match (
            bind_step::<T, E>(retry, Err(failure)),
            bind_step::<T, F>(retry, Err(other)),
        ) {
            (
                BindStep::Retry { retry: next, delay_ms, .. },
                BindStep::Retry { retry: other_next, delay_ms: other_delay_ms, .. },
            ) => next == other_next && delay_ms == other_delay_ms,
            (
                BindStep::Failed { attempts, .. },
                BindStep::Failed { attempts: other_attempts, .. },
            ) => attempts == other_attempts,
            _ => false,
        },
{
}

/// The series is decided by the first attempt that does not meet a taken
/// address, or else by the last attempt that may be made. Its outcome is the
/// result, and the waits before it grow by the base each time.
pub proof fn first_deciding_attempt_wins<T, E>(outcomes: Seq<Result<T, Failure<E>>>, n: nat)
    requires
        n < outcomes.len(),
        n < BIND_MAX_RETRY,
        forall|i: int| 0 <= i < n ==> address_taken(#[trigger] outcomes[i]),
        !address_taken(outcomes[n as int]) || n == BIND_MAX_RETRY - 1,
    ensures
        ({
            let run = bind_run(BindRetry { failures: 0 }, outcomes);
            &&& run.result == Some(without_kind(outcomes[n as int]))
            &&& run.delays.len() == n
            &&& forall|i: int|
                0 <= i < n ==> #[trigger] run.delays[i] == BIND_RETRY_BASE_MS * (i + 1)
        }),
{
    bind_run_from(BindRetry { failures: 0 }, outcomes, n);
}

/// However the attempts go, there are no more than the limit: with that many
/// outcomes at hand the series has come to an end, after one wait fewer at
/// most, and no later outcome changes what it came to.
pub proof fn attempts_are_bounded<T, E>(
    outcomes: Seq<Result<T, Failure<E>>>,
    later: Seq<Result<T, Failure<E>>>,
)
    requires
        outcomes.len() >= BIND_MAX_RETRY,
    ensures
        bind_run(BindRetry { failures: 0 }, outcomes).result is Some,
        bind_run(BindRetry { failures: 0 }, outcomes).delays.len() < BIND_MAX_RETRY,
        bind_run(BindRetry { failures: 0 }, outcomes + later) == bind_run(
            BindRetry { failures: 0 },
            outcomes,
        ),
{
    let n: nat = deciding_attempt(outcomes, 0);
    deciding_attempt_decides(outcomes, 0);
    bind_run_from(BindRetry { failures: 0 }, outcomes, n);
    assert forall|i: int| 0 <= i < outcomes.len() implies #[trigger] (outcomes + later)[i]
        == outcomes[i] by {}
    bind_run_from(BindRetry { failures: 0 }, outcomes + later, n);
}

/// The index, from `from` on, of the attempt that decides.
spec fn deciding_attempt<T, E>(outcomes: Seq<Result<T, Failure<E>>>, from: nat) -> nat
    decreases BIND_MAX_RETRY - from,
{
    if from >= BIND_MAX_RETRY - 1 || !address_taken(outcomes[from as int]) {
        from
    } else {
        deciding_attempt(outcomes, from + 1)
    }
}

proof fn deciding_attempt_decides<T, E>(outcomes: Seq<Result<T, Failure<E>>>, from: nat)
    requires
        from < BIND_MAX_RETRY,
        forall|i: int| 0 <= i < from ==> address_taken(#[trigger] outcomes[i]),
    ensures
        ({
            let n = deciding_attempt(outcomes, from);
            &&& from <= n < BIND_MAX_RETRY
            &&& forall|i: int| 0 <= i < n ==> address_taken(#[trigger] outcomes[i])
            &&& !address_taken(outcomes[n as int]) || n == BIND_MAX_RETRY - 1
        }),
    decreases BIND_MAX_RETRY - from,
{
    if from < BIND_MAX_RETRY - 1 && address_taken(outcomes[from as int]) {
        deciding_attempt_decides(outcomes, from + 1);
    }
}

} // verus!
