use uefi_vm::bridge::OperationOutcome;
use uefi_vm::lifecycle::{
    digest_identity_outcome, digest_operation_outcome, lifecycle_step, FailureReport,
    IdentityOutcome, LaunchAction, LaunchError, LaunchEvent, LaunchPhase,
};

#[test]
fn happy_path_orders_the_steps() {
    let mut actions: Vec<LaunchAction> = Vec::new();
    let (phase, action) = lifecycle_step(
        LaunchPhase::Creating,
        LaunchEvent::Created(Ok("{}".to_string())),
    );
    assert!(matches!(phase, LaunchPhase::Identifying));
    assert!(matches!(action, LaunchAction::SubmitIdentityQuery));
    actions.push(action);

    let id = digest_identity_outcome(OperationOutcome::Success(
        "{\"RuntimeId\":\"00000000-0000-0000-0000-00000000abcd\"}".to_string(),
    ));
    match &id {
        IdentityOutcome::Found(s) => {
            assert_eq!(s, "00000000-0000-0000-0000-00000000abcd")
        }
        other => panic!("expected the identifier, got {other:?}"),
    }
    let (phase, action) = lifecycle_step(phase, LaunchEvent::Identified(id));
    assert!(matches!(
        &phase,
        LaunchPhase::Starting { runtime_id } if runtime_id == "00000000-0000-0000-0000-00000000abcd"
    ));
    assert!(matches!(action, LaunchAction::SubmitStart));
    actions.push(action);

    let (phase, action) = lifecycle_step(phase, LaunchEvent::Started(Ok(String::new())));
    assert!(matches!(&phase, LaunchPhase::Attaching { .. }));
    assert!(matches!(action, LaunchAction::AttachConsole));
    actions.push(action);

    let (phase, action) = lifecycle_step(phase, LaunchEvent::ConsoleAttached(true));
    assert!(matches!(&phase, LaunchPhase::Running { .. }));
    assert!(matches!(action, LaunchAction::NoAction));
    actions.push(action);

    assert!(matches!(
        actions[..],
        [
            LaunchAction::SubmitIdentityQuery,
            LaunchAction::SubmitStart,
            LaunchAction::AttachConsole,
            LaunchAction::NoAction,
        ]
    ));
}

#[test]
fn create_failure_is_terminal() {
    let report = FailureReport { code: -1, detail: None };
    let (phase, action) = lifecycle_step(
        LaunchPhase::Creating,
        LaunchEvent::Created(Err(report)),
    );
    assert!(matches!(
        &phase,
        LaunchPhase::Failed(LaunchError::Create(f)) if f.code == -1 && f.detail.is_none()
    ));
    assert!(matches!(action, LaunchAction::NoAction));

    // Whatever still arrives, a failed launch requests nothing further.
    let (phase, action) = lifecycle_step(phase, LaunchEvent::Started(Ok(String::new())));
    assert!(matches!(&phase, LaunchPhase::Failed(LaunchError::Create(_))));
    assert!(matches!(action, LaunchAction::NoAction));
    let (phase, action) = lifecycle_step(phase, LaunchEvent::ConsoleAttached(true));
    assert!(matches!(&phase, LaunchPhase::Failed(LaunchError::Create(_))));
    assert!(matches!(action, LaunchAction::NoAction));
}

#[test]
fn identity_failure_never_starts() {
    // A stub driver that records every requested action.
    let mut actions: Vec<LaunchAction> = Vec::new();
    let mut phase = LaunchPhase::Creating;
    let events = vec![
        LaunchEvent::Created(Ok("{}".to_string())),
        LaunchEvent::Identified(IdentityOutcome::QueryFailed(-5)),
        // Adversarial extras: must change nothing.
        LaunchEvent::Started(Ok(String::new())),
        LaunchEvent::ConsoleAttached(true),
    ];
    for event in events {
        let (next, action) = lifecycle_step(phase, event);
        actions.push(action);
        phase = next;
    }
    assert!(matches!(phase, LaunchPhase::Failed(LaunchError::Identify(-5))));
    assert!(actions.iter().all(|a| !matches!(a, LaunchAction::SubmitStart)));
    assert!(actions.iter().all(|a| !matches!(a, LaunchAction::AttachConsole)));
}

#[test]
fn missing_identifier_is_fatal() {
    let id = digest_identity_outcome(OperationOutcome::Success("{\"Other\":1}".to_string()));
    assert!(matches!(id, IdentityOutcome::MissingIdentifier));
    let (phase, action) = lifecycle_step(LaunchPhase::Identifying, LaunchEvent::Identified(id));
    assert!(matches!(phase, LaunchPhase::Failed(LaunchError::MissingIdentifier)));
    assert!(matches!(action, LaunchAction::NoAction));
}

#[test]
fn non_string_identifier_is_missing() {
    let id = digest_identity_outcome(OperationOutcome::Success("{\"RuntimeId\":5}".to_string()));
    assert!(matches!(id, IdentityOutcome::MissingIdentifier));
}

#[test]
fn unparseable_identity_response_is_missing() {
    let id = digest_identity_outcome(OperationOutcome::Success("not json".to_string()));
    assert!(matches!(id, IdentityOutcome::MissingIdentifier));
}

#[test]
fn identity_query_failure_keeps_its_code() {
    let id = digest_identity_outcome(OperationOutcome::Failure(-7, "ignored".to_string()));
    assert!(matches!(id, IdentityOutcome::QueryFailed(-7)));
}

#[test]
fn start_failure_is_terminal() {
    let report = FailureReport { code: -9, detail: None };
    let (phase, action) = lifecycle_step(
        LaunchPhase::Starting { runtime_id: "id".to_string() },
        LaunchEvent::Started(Err(report)),
    );
    assert!(matches!(
        &phase,
        LaunchPhase::Failed(LaunchError::Start(f)) if f.code == -9
    ));
    assert!(matches!(action, LaunchAction::NoAction));
}

#[test]
fn console_attach_failure_is_an_error() {
    let (phase, action) = lifecycle_step(
        LaunchPhase::Attaching { runtime_id: "id".to_string() },
        LaunchEvent::ConsoleAttached(false),
    );
    assert!(matches!(phase, LaunchPhase::Failed(LaunchError::Console)));
    assert!(matches!(action, LaunchAction::NoAction));
}

#[test]
fn failed_operation_gains_pretty_diagnostic_when_payload_parses() {
    let payload = "{\"Error\":-1,\"ErrorMessage\":\"boom\"}";
    let digested =
        digest_operation_outcome(OperationOutcome::Failure(-3, payload.to_string()));
    let report = digested.expect_err("a failure outcome digests to a report");
    assert_eq!(report.code, -3);
    let value: serde_json::Value = serde_json::from_str(payload).unwrap();
    let expected = serde_json::to_string_pretty(&value).unwrap();
    assert_eq!(report.detail.as_deref(), Some(expected.as_str()));
}

#[test]
fn failed_operation_without_json_payload_has_no_detail() {
    let digested = digest_operation_outcome(OperationOutcome::Failure(
        -3,
        "plain words, no document".to_string(),
    ));
    let report = digested.expect_err("a failure outcome digests to a report");
    assert_eq!(report.code, -3);
    assert!(report.detail.is_none());
}

#[test]
fn successful_operation_keeps_its_response() {
    let digested =
        digest_operation_outcome(OperationOutcome::Success("{\"a\":1}".to_string()));
    assert_eq!(digested.expect("success digests to the response"), "{\"a\":1}");
}
