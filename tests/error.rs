use gleif_rs::error::{GleifError, ParseErrorKind, ResponseContent};

fn parse_error() -> GleifError {
    GleifError::ParseError { kind: ParseErrorKind::Field, message: "Unknown field name".to_string() }
}

#[test]
fn error_parse_error_is_decode_only() {
    let e = parse_error();
    assert!(e.is_decode());
    assert!(!e.is_status());
    assert!(!e.is_timeout());
    assert!(!e.is_middleware());
    assert!(!e.is_builder());
    assert!(!e.is_redirect());
    assert!(!e.is_request());
    assert!(!e.is_connect());
    assert!(!e.is_body());
    assert!(e.status().is_none());
    assert!(e.url().is_none());
}

#[test]
fn error_response_error_has_status() {
    let e = GleifError::ResponseError(ResponseContent {
        status: reqwest::StatusCode::NOT_FOUND,
        content: "missing".to_string(),
    });
    assert!(e.is_status());
    assert!(!e.is_decode());
    assert_eq!(e.status(), Some(reqwest::StatusCode::NOT_FOUND));
}

#[test]
fn error_from_conversions() {
    let url_err = url::Url::parse("invalid_url").unwrap_err();
    let e = GleifError::from(url_err);
    assert!(matches!(e, GleifError::UrlParseError(url::ParseError::RelativeUrlWithoutBase)));
    let json_err = serde_json::from_str::<serde_json::Value>("{").unwrap_err();
    assert!(matches!(GleifError::from(json_err), GleifError::SerdeError(_)));
}

#[test]
fn error_with_and_without_url_keep_other_kinds() {
    let url = url::Url::parse("https://example.com/").unwrap();
    let e = parse_error().with_url(url).without_url();
    assert!(matches!(e, GleifError::ParseError { kind: ParseErrorKind::Field, .. }));
}

#[test]
fn error_messages_name_their_module() {
    assert_eq!(parse_error().to_string(), "error in field: Unknown field name");
    let value = GleifError::ParseError { kind: ParseErrorKind::Value, message: "bad".to_string() };
    assert_eq!(value.to_string(), "error in value: bad");
    let e = GleifError::ResponseError(ResponseContent {
        status: reqwest::StatusCode::NOT_FOUND,
        content: String::new(),
    });
    assert_eq!(e.to_string(), "error in response: status code 404 Not Found");
    let e = GleifError::from(url::Url::parse("invalid_url").unwrap_err());
    assert_eq!(e.to_string(), "error in url: relative URL without a base");
}
