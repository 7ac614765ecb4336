use realtps_import::retry::{backoff_ms, retry_if_err, retry_if_none, RetryStep, MAX_TRIES};

/// Runs the retry-on-failure decisions over scripted outcomes; returns the
/// number of invocations, the backoff waited, and the result.
fn drive_if_err(script: Vec<Result<u32, String>>) -> (u64, u64, Result<u32, String>) {
    let mut outcomes = script.into_iter();
    let mut attempt: u64 = 1;
    let mut calls: u64 = 0;
    let mut waited: u64 = 0;
    loop {
        let outcome = outcomes.next().expect("invoked more often than scripted");
        calls += 1;
        match retry_if_err(attempt, outcome) {
            RetryStep::Finish(r) => return (calls, waited, r),
            RetryStep::Retry { delay_ms, next_attempt } => {
                waited += delay_ms;
                attempt = next_attempt;
            }
        }
    }
}

/// As `drive_if_err`, for the retry-on-missing decisions.
fn drive_if_none(
    script: Vec<Result<Option<u32>, String>>,
) -> (u64, u64, Result<Option<u32>, String>) {
    let mut outcomes = script.into_iter();
    let mut attempt: u64 = 1;
    let mut calls: u64 = 0;
    let mut waited: u64 = 0;
    loop {
        let outcome = outcomes.next().expect("invoked more often than scripted");
        calls += 1;
        match retry_if_none(attempt, outcome) {
            RetryStep::Finish(r) => return (calls, waited, r),
            RetryStep::Retry { delay_ms, next_attempt } => {
                waited += delay_ms;
                attempt = next_attempt;
            }
        }
    }
}

fn err(s: &str) -> String {
    s.to_string()
}

#[test]
fn backoff_is_linear_and_increasing() {
    assert_eq!(backoff_ms(1), 500);
    assert_eq!(backoff_ms(2), 1000);
    assert_eq!(backoff_ms(3), 1500);
    assert!(backoff_ms(1) < backoff_ms(2));
    assert!(backoff_ms(2) < backoff_ms(3));
}

#[test]
fn if_err_steps() {
    assert_eq!(retry_if_err::<u32, String>(1, Ok(4)), RetryStep::Finish(Ok(4)));
    assert_eq!(
        retry_if_err::<u32, String>(1, Err(err("a"))),
        RetryStep::Retry { delay_ms: 500, next_attempt: 2 }
    );
    assert_eq!(
        retry_if_err::<u32, String>(2, Err(err("b"))),
        RetryStep::Retry { delay_ms: 1000, next_attempt: 3 }
    );
    assert_eq!(
        retry_if_err::<u32, String>(MAX_TRIES, Err(err("c"))),
        RetryStep::Finish(Err(err("c")))
    );
    assert_eq!(retry_if_err::<u32, String>(3, Ok(9)), RetryStep::Finish(Ok(9)));
}

#[test]
fn if_none_steps() {
    assert_eq!(
        retry_if_none::<u32, String>(1, Ok(Some(4))),
        RetryStep::Finish(Ok(Some(4)))
    );
    assert_eq!(
        retry_if_none::<u32, String>(1, Err(err("down"))),
        RetryStep::Finish(Err(err("down")))
    );
    assert_eq!(
        retry_if_none::<u32, String>(1, Ok(None)),
        RetryStep::Retry { delay_ms: 500, next_attempt: 2 }
    );
    assert_eq!(
        retry_if_none::<u32, String>(2, Ok(None)),
        RetryStep::Retry { delay_ms: 1000, next_attempt: 3 }
    );
    assert_eq!(retry_if_none::<u32, String>(3, Ok(None)), RetryStep::Finish(Ok(None)));
}

#[test]
fn if_err_always_failing() {
    let (calls, waited, r) =
        drive_if_err(vec![Err(err("first")), Err(err("second")), Err(err("third"))]);
    assert_eq!(calls, 3);
    assert!(waited >= 1500);
    assert_eq!(r, Err(err("third")));
}

#[test]
fn if_err_succeeds_on_second_attempt() {
    let (calls, waited, r) = drive_if_err(vec![Err(err("first")), Ok(42)]);
    assert_eq!(calls, 2);
    assert_eq!(waited, 500);
    assert_eq!(r, Ok(42));
}

#[test]
fn if_err_succeeds_at_once() {
    let (calls, waited, r) = drive_if_err(vec![Ok(7)]);
    assert_eq!(calls, 1);
    assert_eq!(waited, 0);
    assert_eq!(r, Ok(7));
}

#[test]
fn if_err_does_not_inspect_failures() {
    let fatal = err("fatal: not retryable");
    let (calls, waited, r) = drive_if_err(vec![Err(fatal.clone()), Err(fatal.clone()), Err(fatal.clone())]);
    assert_eq!(calls, 3);
    assert_eq!(waited, 1500);
    assert_eq!(r, Err(fatal));
}

#[test]
fn if_none_always_absent() {
    let (calls, waited, r) = drive_if_none(vec![Ok(None), Ok(None), Ok(None)]);
    assert_eq!(calls, 3);
    assert_eq!(waited, 1500);
    assert_eq!(r, Ok(None));
}

#[test]
fn if_none_failure_is_not_retried() {
    let (calls, waited, r) = drive_if_none(vec![Err(err("rpc down"))]);
    assert_eq!(calls, 1);
    assert_eq!(waited, 0);
    assert_eq!(r, Err(err("rpc down")));
}

#[test]
fn if_none_present_on_second_attempt() {
    let (calls, waited, r) = drive_if_none(vec![Ok(None), Ok(Some(12))]);
    assert_eq!(calls, 2);
    assert_eq!(waited, 500);
    assert_eq!(r, Ok(Some(12)));
}

#[test]
fn if_none_failure_after_absence() {
    let (calls, waited, r) = drive_if_none(vec![Ok(None), Err(err("late"))]);
    assert_eq!(calls, 2);
    assert_eq!(waited, 500);
    assert_eq!(r, Err(err("late")));
}
