use vstd::prelude::*;

verus! {

/// Number of attempts a retry executor makes at most.
pub const MAX_TRIES: u64 = 3;

/// Backoff unit: the wait after attempt `n` is `n` times this, in milliseconds.
pub const BASE_DELAY_MS: u64 = 500;

/// What a retry executor does once an attempt has come back.
#[derive(Debug, PartialEq, Eq)]
pub enum RetryStep<T, E> {
    /// Hand this result to the caller; no further attempt is made.
    Finish(Result<T, E>),
    /// Wait `delay_ms` (plus jitter), then make attempt `next_attempt`.
    Retry { delay_ms: u64, next_attempt: u64 },
}

/// The backoff before the attempt that follows attempt `attempt`.
pub open spec fn spec_backoff_ms(attempt: int) -> int {
    BASE_DELAY_MS * attempt
}

/// Backoff in milliseconds after the failed or empty attempt `attempt`.
pub fn backoff_ms(attempt: u64) -> (r: u64)
    requires
        spec_backoff_ms(attempt as int) <= u64::MAX,
    ensures
        r == spec_backoff_ms(attempt as int),
{
    BASE_DELAY_MS * attempt
}

/// The step after an attempt that is worth retrying: wait the backoff and try
/// again, unless `attempt` was the last one, in which case `last` is returned.
pub open spec fn spec_retry_or<T, E>(attempt: u64, last: Result<T, E>) -> RetryStep<T, E> {
    if attempt >= MAX_TRIES {
        RetryStep::Finish(last)
    } else {
        RetryStep::Retry {
            delay_ms: spec_backoff_ms(attempt as int) as u64,
            next_attempt: (attempt + 1) as u64,
        }
    }
}

/// Retry-on-failure: a value ends the run at once; a failure is retried until
/// the last attempt, whose failure is handed on as it came.
pub open spec fn spec_retry_if_err<T, E>(attempt: u64, outcome: Result<T, E>) -> RetryStep<T, E> {
    match outcome {
        Ok(v) => RetryStep::Finish(Ok(v)),
        Err(e) => spec_retry_or(attempt, Err(e)),
    }
}

/// Retry-on-missing: a failure or a present value ends the run at once; an
/// absent value is retried until the last attempt, which reports absence.
pub open spec fn spec_retry_if_none<T, E>(
    attempt: u64,
    outcome: Result<Option<T>, E>,
) -> RetryStep<Option<T>, E> {
    match outcome {
        Err(e) => RetryStep::Finish(Err(e)),
        Ok(Some(v)) => RetryStep::Finish(Ok(Some(v))),
        Ok(None) => spec_retry_or(attempt, Ok(None)),
    }
}

fn retry_or<T, E>(attempt: u64, last: Result<T, E>) -> (r: RetryStep<T, E>)
    ensures
        r == spec_retry_or(attempt, last),
{
    if attempt >= MAX_TRIES {
        RetryStep::Finish(last)
    } else {
        RetryStep::Retry { delay_ms: backoff_ms(attempt), next_attempt: attempt + 1 }
    }
}

/// Decides what follows attempt `attempt` (counted from 1) of an operation that
/// either yields a value or fails.
pub fn retry_if_err<T, E>(attempt: u64, outcome: Result<T, E>) -> (r: RetryStep<T, E>)
    ensures
        r == spec_retry_if_err(attempt, outcome),
{
    match outcome {
        Ok(v) => RetryStep::Finish(Ok(v)),
        Err(e) => retry_or(attempt, Err(e)),
    }
}

/// Decides what follows attempt `attempt` (counted from 1) of an operation that
/// fails, or yields a value that may be absent.
pub fn retry_if_none<T, E>(
    attempt: u64,
    outcome: Result<Option<T>, E>,
) -> (r: RetryStep<Option<T>, E>)
    ensures
        r == spec_retry_if_none(attempt, outcome),
{
    match outcome {
        Err(e) => RetryStep::Finish(Err(e)),
        Ok(Some(v)) => RetryStep::Finish(Ok(Some(v))),
        Ok(None) => retry_or(attempt, Ok(None)),
    }
}

/// How a whole run of an executor ends: the number of the last attempt made
/// (the number of invocations, for a run started at attempt 1), the sum of the
/// backoffs waited before it, and the result handed to the caller.
pub struct RetryRun<R> {
    pub attempts: nat,
    pub waited_ms: nat,
    pub result: R,
}

/// A run of the retry-on-failure executor from attempt `attempt` on, where
/// `op(n)` is what attempt `n` of the operation yields.
pub open spec fn run_if_err<T, E>(
    op: spec_fn(u64) -> Result<T, E>,
    attempt: u64,
) -> RetryRun<Result<T, E>>
    decreases MAX_TRIES - attempt,
{
    match spec_retry_if_err(attempt, op(attempt)) {
        RetryStep::Finish(r) => RetryRun { attempts: attempt as nat, waited_ms: 0, result: r },
        RetryStep::Retry { delay_ms, next_attempt } => {
            let rest = run_if_err(op, next_attempt);
            RetryRun {
                attempts: rest.attempts,
                waited_ms: (delay_ms + rest.waited_ms) as nat,
                result: rest.result,
            }
        },
    }
}

/// A run of the retry-on-missing executor from attempt `attempt` on, where
/// `op(n)` is what attempt `n` of the operation yields.
pub open spec fn run_if_none<T, E>(
    op: spec_fn(u64) -> Result<Option<T>, E>,
    attempt: u64,
) -> RetryRun<Result<Option<T>, E>>
    decreases MAX_TRIES - attempt,
{
    match spec_retry_if_none(attempt, op(attempt)) {
        RetryStep::Finish(r) => RetryRun { attempts: attempt as nat, waited_ms: 0, result: r },
        RetryStep::Retry { delay_ms, next_attempt } => {
            let rest = run_if_none(op, next_attempt);
            RetryRun {
                attempts: rest.attempts,
                waited_ms: (delay_ms + rest.waited_ms) as nat,
                result: rest.result,
            }
        },
    }
}

/// The backoff grows strictly from one attempt to the next: a later attempt
/// never waits as long as or less than an earlier one.
pub proof fn lemma_backoff_increases(a: u64, b: u64)
    requires
        1 <= a < b <= MAX_TRIES,
    ensures
        spec_backoff_ms(a as int) < spec_backoff_ms(b as int),
{
}

/// Whatever the operation yields, a run of either executor from attempt 1
/// invokes it at least once and at most `MAX_TRIES` times.
pub proof fn lemma_runs_are_bounded<T, E>(
    op: spec_fn(u64) -> Result<T, E>,
    maybe: spec_fn(u64) -> Result<Option<T>, E>,
)
    ensures
        1 <= run_if_err(op, 1).attempts <= MAX_TRIES,
        1 <= run_if_none(maybe, 1).attempts <= MAX_TRIES,
{
    reveal_with_fuel(run_if_err, 3);
    reveal_with_fuel(run_if_none, 3);
}

/// When every attempt fails, the retry-on-failure executor invokes the
/// operation `MAX_TRIES` times, waits 500 ms and then 1000 ms between them, and
/// hands on the last attempt's failure.
pub proof fn lemma_retry_if_err_always_failing<T, E>(op: spec_fn(u64) -> Result<T, E>)
    requires
        forall|n: u64| #[trigger] op(n) is Err,
    ensures
        run_if_err(op, 1).attempts == MAX_TRIES,
        run_if_err(op, 1).waited_ms == 1500,
        run_if_err(op, 1).result == op(3),
{
    reveal_with_fuel(run_if_err, 3);
    assert(op(1) is Err && op(2) is Err && op(3) is Err);
}

/// When the first attempt fails and the second yields a value, the
/// retry-on-failure executor invokes the operation twice and returns that value.
pub proof fn lemma_retry_if_err_second_succeeds<T, E>(op: spec_fn(u64) -> Result<T, E>)
    requires
        op(1) is Err,
        op(2) is Ok,
    ensures
        run_if_err(op, 1).attempts == 2,
        run_if_err(op, 1).waited_ms == 500,
        run_if_err(op, 1).result == op(2),
{
    reveal_with_fuel(run_if_err, 2);
}

/// The retry-on-failure executor never looks inside a failure: two operations
/// that succeed on the same attempts with the same values give runs with the
/// same attempts, the same waits, and results that differ at most in the
/// failure handed on, which is each operation's own.
pub proof fn lemma_retry_if_err_ignores_failure_content<T, E>(
    op1: spec_fn(u64) -> Result<T, E>,
    op2: spec_fn(u64) -> Result<T, E>,
)
    requires
        forall|n: u64| (#[trigger] op1(n) is Ok) == (#[trigger] op2(n) is Ok),
        forall|n: u64| #[trigger] op1(n) is Ok ==> op1(n) == op2(n),
    ensures
        run_if_err(op1, 1).attempts == run_if_err(op2, 1).attempts,
        run_if_err(op1, 1).waited_ms == run_if_err(op2, 1).waited_ms,
        run_if_err(op1, 1).result is Ok ==> run_if_err(op1, 1).result == run_if_err(op2, 1).result,
        run_if_err(op1, 1).result is Err ==> run_if_err(op1, 1).result == op1(
            run_if_err(op1, 1).attempts as u64,
        ) && run_if_err(op2, 1).result == op2(run_if_err(op2, 1).attempts as u64),
{
    reveal_with_fuel(run_if_err, 3);
    assert(op1(1) is Ok == op2(1) is Ok);
    assert(op1(2) is Ok == op2(2) is Ok);
    assert(op1(3) is Ok == op2(3) is Ok);
}

/// When every attempt yields nothing, the retry-on-missing executor invokes the
/// operation `MAX_TRIES` times and reports absence as a success.
pub proof fn lemma_retry_if_none_always_absent<T, E>(op: spec_fn(u64) -> Result<Option<T>, E>)
    requires
        forall|n: u64| #[trigger] op(n) == Ok::<Option<T>, E>(None),
    ensures
        run_if_none(op, 1).attempts == MAX_TRIES,
        run_if_none(op, 1).waited_ms == 1500,
        run_if_none(op, 1).result == Ok::<Option<T>, E>(None),
{
    reveal_with_fuel(run_if_none, 3);
    assert(op(1) == Ok::<Option<T>, E>(None));
    assert(op(2) == Ok::<Option<T>, E>(None));
    assert(op(3) == Ok::<Option<T>, E>(None));
}

/// When the first attempt fails outright, the retry-on-missing executor stops
/// there, without waiting, and hands the failure on.
pub proof fn lemma_retry_if_none_failure_is_final<T, E>(op: spec_fn(u64) -> Result<Option<T>, E>)
    requires
        op(1) is Err,
    ensures
        run_if_none(op, 1).attempts == 1,
        run_if_none(op, 1).waited_ms == 0,
        run_if_none(op, 1).result == op(1),
{
}

/// When the first attempt yields nothing and the second a value, the
/// retry-on-missing executor invokes the operation twice and returns the value.
pub proof fn lemma_retry_if_none_second_present<T, E>(
    op: spec_fn(u64) -> Result<Option<T>, E>,
    v: T,
)
    requires
        op(1) == Ok::<Option<T>, E>(None),
        op(2) == Ok::<Option<T>, E>(Some(v)),
    ensures
        run_if_none(op, 1).attempts == 2,
        run_if_none(op, 1).waited_ms == 500,
        run_if_none(op, 1).result == Ok::<Option<T>, E>(Some(v)),
{
    reveal_with_fuel(run_if_none, 2);
}

} // verus!
