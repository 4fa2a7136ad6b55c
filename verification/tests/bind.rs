use realm_control::retry::{
    bind_with_retry, BindRetry, BindStep, ErrorKind, Failure, BIND_MAX_RETRY, BIND_RETRY_BASE_MS,
};

type Step = BindStep<u8, &'static str>;

fn failed(kind: ErrorKind, error: &'static str) -> Result<u8, Failure<&'static str>> {
    Err(Failure { kind, error })
}

#[test]
fn a_listener_is_taken_at_once() {
    let step: Step = bind_with_retry(BindRetry::new(), Ok(7));
    assert_eq!(step, BindStep::Bound(7));
}

#[test]
fn the_limits_are_five_attempts_and_a_tenth_of_a_second() {
    assert_eq!(BIND_MAX_RETRY, 5);
    assert_eq!(BIND_RETRY_BASE_MS, 100);
}

#[test]
fn a_taken_address_is_tried_five_times() {
    let mut retry = BindRetry::new();
    let mut delays = Vec::new();
    let errors = ["first", "second", "third", "fourth", "fifth"];
    let mut end = None;
    for error in errors {
        match bind_with_retry(retry, failed(ErrorKind::AddrInUse, error)) {
            BindStep::Retry { retry: next, error: reported, delay_ms } => {
                assert_eq!(reported, error);
                delays.push(delay_ms);
                retry = next;
            }
            step => {
                end = Some(step);
                break;
            }
        }
    }
    assert_eq!(delays, vec![100, 200, 300, 400]);
    assert_eq!(end, Some(BindStep::Failed { attempts: 5, error: "fifth" }));
}

#[test]
fn another_failure_is_final() {
    let step: Step = bind_with_retry(BindRetry::new(), failed(ErrorKind::Other, "denied"));
    assert_eq!(step, BindStep::Failed { attempts: 1, error: "denied" });
    let step: Step =
        bind_with_retry(BindRetry { failures: 2 }, failed(ErrorKind::ConnectionAborted, "gone"));
    assert_eq!(step, BindStep::Failed { attempts: 3, error: "gone" });
}

#[test]
fn a_listener_after_failures_is_taken() {
    let step: Step = bind_with_retry(BindRetry { failures: 4 }, Ok(9));
    assert_eq!(step, BindStep::Bound(9));
}
