use uefi_vm::bridge::{OperationBridge, OperationOutcome};

fn success(s: &str) -> OperationOutcome {
    OperationOutcome::Success(s.to_string())
}

fn expect_success(o: OperationOutcome) -> String {
    match o {
        OperationOutcome::Success(s) => s,
        OperationOutcome::Failure(code, _) => panic!("unexpected failure: {code}"),
    }
}

#[test]
fn one_operation_one_outcome() {
    let mut b = OperationBridge::new();
    let id = b.begin_operation();
    assert_eq!(id, 0);
    b.complete(id, success("r0"));
    let got = b.take_outcome(id);
    assert_eq!(expect_success(got), "r0");
}

#[test]
fn adversarial_callback_ordering_delivers_each_outcome_once() {
    let mut b = OperationBridge::new();
    let a = b.begin_operation();
    let c = b.begin_operation();
    let d = b.begin_operation();
    assert_eq!((a, c, d), (0, 1, 2));

    // Callbacks run on a foreign thread in any order.
    b.complete(d, success("r2"));
    b.complete(a, success("r0"));
    b.complete(c, success("r1"));

    // The awaiting logic picks outcomes up in yet another order; each
    // created operation yields exactly its own outcome, exactly once.
    let mut received: Vec<String> = Vec::new();
    received.push(expect_success(b.take_outcome(c)));
    received.push(expect_success(b.take_outcome(d)));
    received.push(expect_success(b.take_outcome(a)));
    assert_eq!(received, vec!["r1", "r2", "r0"]);
    assert_eq!(received.len(), 3);
}

#[test]
fn failure_outcome_carries_code_and_payload() {
    let mut b = OperationBridge::new();
    let id = b.begin_operation();
    b.complete(id, OperationOutcome::Failure(-2147024891, "{\"Error\":-1}".to_string()));
    match b.take_outcome(id) {
        OperationOutcome::Failure(code, payload) => {
            assert_eq!(code, -2147024891);
            assert_eq!(payload, "{\"Error\":-1}");
        }
        OperationOutcome::Success(_) => panic!("expected a failure outcome"),
    }
}
