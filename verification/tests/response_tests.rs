use uefi_vm::response::{decode_diagnostic, extract_runtime_id};

#[test]
fn runtime_id_is_read_from_the_response() {
    let id = extract_runtime_id("{\"RuntimeId\":\"abc-123\",\"Other\":{\"x\":1}}");
    assert_eq!(id.as_deref(), Some("abc-123"));
}

#[test]
fn runtime_id_absent_or_unreadable_yields_nothing() {
    assert!(extract_runtime_id("{\"Other\":1}").is_none());
    assert!(extract_runtime_id("{\"RuntimeId\":17}").is_none());
    assert!(extract_runtime_id("[\"RuntimeId\"]").is_none());
    assert!(extract_runtime_id("no document at all").is_none());
}

#[test]
fn diagnostic_decode_matches_the_parser() {
    let payload = "{\"Error\":-1,\"ErrorEvents\":[{\"Message\":\"boom\"}]}";
    let decoded = decode_diagnostic(payload).expect("a JSON payload decodes");
    let value: serde_json::Value = serde_json::from_str(payload).unwrap();
    assert_eq!(decoded, serde_json::to_string_pretty(&value).unwrap());
}

#[test]
fn diagnostic_decode_of_plain_text_yields_nothing() {
    assert!(decode_diagnostic("access denied").is_none());
}

#[test]
fn runtime_id_lookup_is_top_level_only() {
    assert!(extract_runtime_id("{\"Nested\":{\"RuntimeId\":\"x\"}}").is_none());
}

#[test]
fn runtime_id_matches_the_parser() {
    let response = "{\"GuestConnection\":{},\"RuntimeId\":\"11-22\"}";
    let value: serde_json::Value = serde_json::from_str(response).unwrap();
    let expected = value.get("RuntimeId").and_then(|f| f.as_str()).unwrap();
    assert_eq!(extract_runtime_id(response).as_deref(), Some(expected));
}
