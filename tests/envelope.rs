use etherscan::envelope::{decode_envelope, envelope_from_members, extract_result, EnvelopeError};

#[test]
fn result_is_extracted() {
    assert_eq!(extract_result(r#"{"status":"1","result":"12345"}"#), Ok("12345".to_string()));
}

#[test]
fn missing_result_fails() {
    assert_eq!(extract_result(r#"{"status":"1"}"#), Err(EnvelopeError::Malformed));
}

#[test]
fn missing_status_fails() {
    assert_eq!(extract_result(r#"{"result":"12345"}"#), Err(EnvelopeError::Malformed));
}

#[test]
fn result_that_is_not_text_fails() {
    assert_eq!(extract_result(r#"{"status":"1","result":12345}"#), Err(EnvelopeError::Malformed));
}

#[test]
fn body_that_is_not_json_fails() {
    assert_eq!(extract_result("<html>rate limited</html>"), Err(EnvelopeError::Malformed));
    assert_eq!(extract_result(""), Err(EnvelopeError::Malformed));
}

#[test]
fn status_is_carried_uninterpreted() {
    let body = r#"{"status":"0","result":"Invalid API Key"}"#;
    let envelope = decode_envelope(body).ok().unwrap();
    assert_eq!(envelope.status, "0");
    assert_eq!(envelope.result, "Invalid API Key");
    assert_eq!(extract_result(body), Ok("Invalid API Key".to_string()));
}

#[test]
fn extra_member_fails() {
    let body = r#"{"status":"1","message":"OK","result":"x"}"#;
    assert_eq!(extract_result(body), Err(EnvelopeError::Malformed));
    assert!(decode_envelope(body).is_err());
}

#[test]
fn body_that_is_not_an_object_fails() {
    assert_eq!(extract_result(r#"["1","12345"]"#), Err(EnvelopeError::Malformed));
    assert_eq!(extract_result(r#""12345""#), Err(EnvelopeError::Malformed));
}

#[test]
fn envelope_needs_both_members_and_nothing_else() {
    let both = envelope_from_members(Some(2), Some("1".to_string()), Some("x".to_string()));
    assert_eq!(both.ok().map(|e| e.result), Some("x".to_string()));
    assert!(envelope_from_members(Some(2), None, Some("x".to_string())).is_err());
    assert!(envelope_from_members(Some(2), Some("1".to_string()), None).is_err());
    assert!(envelope_from_members(Some(3), Some("1".to_string()), Some("x".to_string())).is_err());
    assert!(envelope_from_members(None, Some("1".to_string()), Some("x".to_string())).is_err());
}
