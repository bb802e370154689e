use uefi_vm::console::{attach_decision, AttachAttempt, AttachStep, CHANNEL_BUSY_CODE, RETRY_DELAY_MS};

#[test]
fn busy_channel_is_retried_at_fixed_cadence_within_bounded_window() {
    // A channel that never becomes available: a bounded window of attempts
    // must produce only fixed-delay retries — the loop neither succeeds
    // nor gives up on its own.
    let mut retries: u32 = 0;
    for _ in 0..1000 {
        let step = attach_decision(&AttachAttempt::NotOpened(Some(CHANNEL_BUSY_CODE)));
        match step {
            AttachStep::RetryAfterMillis(ms) => {
                assert_eq!(ms, RETRY_DELAY_MS);
                retries += 1;
            }
            other => panic!("the retry loop must not end on its own: {other:?}"),
        }
    }
    assert_eq!(retries, 1000);
}

#[test]
fn opened_channel_proceeds() {
    assert!(matches!(
        attach_decision(&AttachAttempt::Opened),
        AttachStep::Proceed
    ));
}

#[test]
fn other_error_is_fatal() {
    assert!(matches!(
        attach_decision(&AttachAttempt::NotOpened(Some(2))),
        AttachStep::Fail(Some(2))
    ));
}

#[test]
fn failure_without_code_is_fatal() {
    assert!(matches!(
        attach_decision(&AttachAttempt::NotOpened(None)),
        AttachStep::Fail(None)
    ));
}

#[test]
fn busy_code_matches_the_host_convention() {
    assert_eq!(CHANNEL_BUSY_CODE, 231);
    assert_eq!(RETRY_DELAY_MS, 50);
}
