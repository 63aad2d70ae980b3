use gleif_rs::api::client::{method_from_upper, parse_method};
use gleif_rs::api::request_builder::{check_response, ResponseCheck};
use gleif_rs::request_builder::HttpMethod;

#[test]
fn method_names_in_any_case() {
    assert_eq!(parse_method("get"), Some(HttpMethod::Get));
    assert_eq!(parse_method("Post"), Some(HttpMethod::Post));
    assert_eq!(parse_method("PUT"), Some(HttpMethod::Put));
    assert_eq!(parse_method("delete"), Some(HttpMethod::Delete));
    assert_eq!(parse_method("PATCH"), None);
}

#[test]
fn method_from_upper_is_exact() {
    assert_eq!(method_from_upper("GET"), Some(HttpMethod::Get));
    assert_eq!(method_from_upper("get"), None);
    assert_eq!(method_from_upper(""), None);
}

#[test]
fn response_check_by_status_and_content_type() {
    assert_eq!(check_response(true, "application/json"), ResponseCheck::ReadJson);
    assert_eq!(check_response(true, "application/vnd.api+json"), ResponseCheck::ReadJson);
    assert_eq!(
        check_response(true, "text/plain"),
        ResponseCheck::WrongContentType("text/plain".to_string())
    );
    assert_eq!(check_response(false, "application/json"), ResponseCheck::Failed);
}
