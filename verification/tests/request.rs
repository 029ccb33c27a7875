use atc::error::RequestError;
use atc::request::Request;

#[test]
fn parse_reads_method_and_body() {
    let body = br#"{"jsonrpc":"2.0","id":1,"method":"getBalance","params":["abc"]}"#;
    let request = Request::parse(body).unwrap();
    assert_eq!(request.method, "getBalance");
    assert_eq!(request.body, body.to_vec());
    assert_eq!(request.signature, None);
}

#[test]
fn parse_reads_first_signature() {
    let body = br#"{"method":"getSignatureStatuses","params":[["sigA","sigB"],{"searchTransactionHistory":true}]}"#;
    let request = Request::parse(body).unwrap();
    assert_eq!(request.method, "getSignatureStatuses");
    assert_eq!(request.signature, Some("sigA".to_string()));
}

#[test]
fn parse_reads_signature_for_any_method() {
    let request = Request::parse(br#"{"method":"other","params":[["x"]]}"#).unwrap();
    assert_eq!(request.method, "other");
    assert_eq!(request.signature, Some("x".to_string()));
}

#[test]
fn parse_unescapes_strings() {
    let request = Request::parse(br#"{"method":"a\"bA","params":[["\n"]]}"#).unwrap();
    assert_eq!(request.method, "a\"bA");
    assert_eq!(request.signature, Some("\n".to_string()));
}

#[test]
fn parse_without_signature() {
    for body in [
        &br#"{"method":"m"}"#[..],
        &br#"{"method":"m","params":null}"#[..],
        &br#"{"method":"m","params":[]}"#[..],
        &br#"{"method":"m","params":[[]]}"#[..],
        &br#"{"method":"m","params":["sig"]}"#[..],
        &br#"{"method":"m","params":[[1]]}"#[..],
        &br#"{"method":"m","params":[[null,"sig"]]}"#[..],
        &br#"{"method":"m","params":{"0":["sig"]}}"#[..],
        &br#"{"method":"m","params":[{"0":"sig"}]}"#[..],
    ] {
        let request = Request::parse(body).unwrap();
        assert_eq!(request.method, "m");
        assert_eq!(request.signature, None);
    }
}

#[test]
fn parse_rejects_what_is_no_json() {
    for body in [
        &b""[..],
        &b"not json"[..],
        &br#"{"method":"m""#[..],
        &br#"{"method":"m"} trailing"#[..],
        &br#"{'method':'m'}"#[..],
        &b"\xff\xfe"[..],
    ] {
        assert_eq!(Request::parse(body).unwrap_err(), RequestError::MalformedRequest);
    }
}

#[test]
fn parse_rejects_missing_method() {
    for body in [
        &br#"{}"#[..],
        &br#"{"params":[["sig"]]}"#[..],
        &br#"{"Method":"m"}"#[..],
        &br#"[]"#[..],
        &br#"["method"]"#[..],
        &br#""method""#[..],
        &br#"null"#[..],
        &br#"1"#[..],
    ] {
        assert_eq!(Request::parse(body).unwrap_err(), RequestError::MalformedRequest);
    }
}

#[test]
fn parse_rejects_method_that_is_no_string() {
    for body in [
        &br#"{"method":1}"#[..],
        &br#"{"method":null}"#[..],
        &br#"{"method":["m"]}"#[..],
        &br#"{"method":{"name":"m"}}"#[..],
        &br#"{"method":true}"#[..],
    ] {
        assert_eq!(Request::parse(body).unwrap_err(), RequestError::MalformedRequest);
    }
}

#[test]
fn from_document_reads_the_tree() {
    let text = r#"{"method":"getSignatureStatuses","params":[["abc"]]}"#;
    let document: serde_json::Value = serde_json::from_str(text).unwrap();
    let request = Request::from_document(text.as_bytes(), &document).unwrap();
    assert_eq!(request.method, "getSignatureStatuses");
    assert_eq!(request.signature, Some("abc".to_string()));
    assert_eq!(request.body, text.as_bytes().to_vec());

    let array: serde_json::Value = serde_json::from_str(r#"[1,2]"#).unwrap();
    assert_eq!(
        Request::from_document(b"[1,2]", &array).unwrap_err(),
        RequestError::MalformedRequest
    );
}

#[test]
fn error_messages() {
    assert_eq!(RequestError::MalformedRequest.message(), "malformed request");
    assert_eq!(RequestError::UpstreamUnreachable.message(), "upstream unreachable");
}
