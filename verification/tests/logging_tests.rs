use text_vectorizer::auth::AuthVerdict;
use text_vectorizer::http::Request;
use text_vectorizer::logging::Logger;

#[test]
fn log_line_is_rendered_exactly() {
    let logger = Logger.new_transform();
    let line = logger.call(&b"GET".to_vec(), &b"/".to_vec(), 12, &b"text-vectorizer".to_vec());
    assert_eq!(
        line,
        b"{\"method\":\"GET\",\"path\":\"/\",\"response_time_ms\":12,\"system_code\":\"text-vectorizer\"}".to_vec()
    );
}

#[test]
fn log_line_parses_as_json_with_the_four_fields() {
    let logger = Logger.new_transform();
    let line = logger.call(
        &b"POST".to_vec(),
        &b"/predict".to_vec(),
        250,
        &b"text-vectorizer".to_vec(),
    );
    let v: serde_json::Value = serde_json::from_slice(&line).unwrap();
    assert_eq!(v.get("method").unwrap().as_str().unwrap(), "POST");
    assert_eq!(v.get("path").unwrap().as_str().unwrap(), "/predict");
    assert_eq!(v.get("response_time_ms").unwrap().as_u64().unwrap(), 250);
    assert_eq!(v.get("system_code").unwrap().as_str().unwrap(), "text-vectorizer");
}

#[test]
fn log_line_escapes_special_bytes() {
    let logger = Logger.new_transform();
    let code = "a\"b\\c\nd\u{1}".as_bytes().to_vec();
    let line = logger.call(&b"GET".to_vec(), &b"/".to_vec(), 0, &code);
    let expected_tail = ",\"system_code\":\"a\\\"b\\\\c\\nd\\u0001\"}";
    let text = String::from_utf8(line.clone()).unwrap();
    assert!(text.ends_with(expected_tail));
    let v: serde_json::Value = serde_json::from_slice(&line).unwrap();
    assert_eq!(v.get("system_code").unwrap().as_str().unwrap(), "a\"b\\c\nd\u{1}");
}

#[test]
fn elapsed_time_renders_zero_and_the_largest_value() {
    let logger = Logger.new_transform();
    let zero = logger.call(&b"GET".to_vec(), &b"/".to_vec(), 0, &b"s".to_vec());
    let text = String::from_utf8(zero).unwrap();
    assert!(text.contains("\"response_time_ms\":0,"));
    let large = logger.call(&b"GET".to_vec(), &b"/".to_vec(), u64::MAX, &b"s".to_vec());
    let text = String::from_utf8(large).unwrap();
    assert!(text.contains("\"response_time_ms\":18446744073709551615,"));
}

#[test]
fn rejected_requests_are_logged_like_accepted_ones() {
    // The logger is the outermost stage: a request the credential gate turns
    // away still gets its one record, with a non-negative elapsed time.
    let st = text_vectorizer::pipeline::AppState {
        system_code: b"text-vectorizer".to_vec(),
        allowed_api_key: b"secret-key".to_vec(),
    };
    let req = Request {
        method: b"POST".to_vec(),
        path: b"/predict".to_vec(),
        authorization: Some(b"Bearer: wrong".to_vec()),
        content_type: None,
        body: b"text".to_vec(),
    };
    let gate = text_vectorizer::auth::Auth.new_transform();
    assert!(matches!(gate.call(&req, &st.allowed_api_key), AuthVerdict::Forbidden));
    let logger = Logger.new_transform();
    let line = logger.call(&req.method, &req.path, 3, &st.system_code);
    let v: serde_json::Value = serde_json::from_slice(&line).unwrap();
    assert_eq!(v.get("path").unwrap().as_str().unwrap(), "/predict");
    assert!(v.get("response_time_ms").unwrap().as_u64().is_some());
}
