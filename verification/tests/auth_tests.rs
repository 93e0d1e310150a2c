use text_vectorizer::auth::{Auth, AuthVerdict, extract_credential};
use text_vectorizer::http::Request;

fn request_with_auth(path: &str, auth: Option<&str>) -> Request {
    Request {
        method: b"POST".to_vec(),
        path: path.as_bytes().to_vec(),
        authorization: auth.map(|a| a.as_bytes().to_vec()),
        content_type: None,
        body: b"some text".to_vec(),
    }
}

#[test]
fn bearer_colon_header_extracts_key() {
    let header = b"Bearer: secret-key".to_vec();
    let cred = extract_credential(Some(&header));
    assert_eq!(cred, b"secret-key".to_vec());
}

#[test]
fn bearer_space_header_extracts_key() {
    let header = b"Bearer secret-key".to_vec();
    let cred = extract_credential(Some(&header));
    assert_eq!(cred, b"secret-key".to_vec());
}

#[test]
fn both_header_shapes_allow_the_request() {
    let allowed = b"secret-key".to_vec();
    let gate = Auth.new_transform();
    let colon = request_with_auth("/predict", Some("Bearer: secret-key"));
    let space = request_with_auth("/predict", Some("Bearer secret-key"));
    assert!(matches!(gate.call(&colon, &allowed), AuthVerdict::Allow));
    assert!(matches!(gate.call(&space, &allowed), AuthVerdict::Allow));
}

#[test]
fn missing_header_yields_empty_credential() {
    let cred = extract_credential(None);
    assert_eq!(cred, Vec::<u8>::new());
}

#[test]
fn nested_scheme_shapes_keep_the_last_token() {
    let header = b"Basic Bearer: my key".to_vec();
    assert_eq!(extract_credential(Some(&header)), b"key".to_vec());
    let padded = b"Bearer:   spaced-key   ".to_vec();
    assert_eq!(extract_credential(Some(&padded)), b"spaced-key".to_vec());
}

#[test]
fn wrong_credential_is_forbidden() {
    let allowed = b"secret-key".to_vec();
    let gate = Auth.new_transform();
    let req = request_with_auth("/predict", Some("Bearer: wrong-key"));
    assert!(matches!(gate.call(&req, &allowed), AuthVerdict::Forbidden));
    let absent = request_with_auth("/predict", None);
    assert!(matches!(gate.call(&absent, &allowed), AuthVerdict::Forbidden));
}

#[test]
fn empty_allowed_credential_disables_enforcement() {
    let allowed = Vec::<u8>::new();
    let gate = Auth.new_transform();
    let absent = request_with_auth("/predict", None);
    assert!(matches!(gate.call(&absent, &allowed), AuthVerdict::Allow));
}

#[test]
fn public_path_allows_any_credential() {
    let allowed = b"secret-key".to_vec();
    let gate = Auth.new_transform();
    let req = request_with_auth("/", Some("Bearer: wrong-key"));
    assert!(matches!(gate.call(&req, &allowed), AuthVerdict::Allow));
}
