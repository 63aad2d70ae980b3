use gleif_rs::client::GleifClient;
use gleif_rs::error::GleifError;
use gleif_rs::request_builder::{decimal_text, GleifRequestBuilder, HttpMethod};

fn test_client() -> GleifClient {
    let reqwest_client = reqwest::Client::new();
    GleifClient::from_reqwest_client(reqwest_client)
}

#[test]
fn test_filter_eq() {
    let builder = GleifRequestBuilder::new(test_client(), HttpMethod::Get, "lei-records")
        .filter_eq("field", "value");
    assert_eq!(builder.get_query().get("filter[field]").unwrap(), "value");
}

#[test]
fn test_filter_not() {
    let builder = GleifRequestBuilder::new(test_client(), HttpMethod::Get, "lei-records")
        .filter_not("field", "value");
    assert_eq!(builder.get_query().get("filter[field]").unwrap(), "!value");
}

#[test]
fn test_filter_in() {
    let builder = GleifRequestBuilder::new(test_client(), HttpMethod::Get, "lei-records")
        .filter_in("field", &["a", "b", "c"]);
    assert_eq!(builder.get_query().get("filter[field]").unwrap(), "a,b,c");
}

#[test]
fn test_filter_not_in() {
    let builder = GleifRequestBuilder::new(test_client(), HttpMethod::Get, "lei-records")
        .filter_not_in("field", &["a", "b", "c"]);
    assert_eq!(builder.get_query().get("filter[field]").unwrap(), "!a,b,c");
}

#[test]
fn test_filter_range() {
    let builder = GleifRequestBuilder::new(test_client(), HttpMethod::Get, "lei-records")
        .filter_range("field", "min", "max");
    assert_eq!(builder.get_query().get("filter[field]").unwrap(), "min..max");
}

#[test]
fn test_filter_gt() {
    let builder = GleifRequestBuilder::new(test_client(), HttpMethod::Get, "lei-records")
        .filter_gt("field", "123");
    assert_eq!(builder.get_query().get("filter[field]").unwrap(), ">123");
}

#[test]
fn test_filter_gte() {
    let builder = GleifRequestBuilder::new(test_client(), HttpMethod::Get, "lei-records")
        .filter_gte("field", "123");
    assert_eq!(builder.get_query().get("filter[field]").unwrap(), ">=123");
}

#[test]
fn test_filter_lt() {
    let builder = GleifRequestBuilder::new(test_client(), HttpMethod::Get, "lei-records")
        .filter_lt("field", "123");
    assert_eq!(builder.get_query().get("filter[field]").unwrap(), "<123");
}

#[test]
fn test_filter_lte() {
    let builder = GleifRequestBuilder::new(test_client(), HttpMethod::Get, "lei-records")
        .filter_lte("field", "123");
    assert_eq!(builder.get_query().get("filter[field]").unwrap(), "<=123");
}

#[test]
fn test_sort_and_pagination_and_param() {
    let builder = GleifRequestBuilder::new(test_client(), HttpMethod::Get, "lei-records")
        .sort("field")
        .page_number(2)
        .page_size(10)
        .param("custom", "value");
    assert_eq!(builder.get_query().get("sort").unwrap(), "field");
    assert_eq!(builder.get_query().get("page[number]").unwrap(), "2");
    assert_eq!(builder.get_query().get("page[size]").unwrap(), "10");
    assert_eq!(builder.get_query().get("custom").unwrap(), "value");
}

#[test]
fn filter_on_same_field_twice_keeps_last_value() {
    let builder = test_client()
        .lei_records()
        .filter_eq("entity.status", "ACTIVE")
        .filter_eq("entity.status", "INACTIVE");
    assert_eq!(builder.get_query().len(), 1);
    assert_eq!(
        builder.get_query().get("filter[entity.status]").unwrap(),
        "INACTIVE"
    );
}

#[test]
fn filter_range_encodes_wire_string() {
    let builder = test_client().lei_records().filter_range(
        "registration.initialRegistrationDate",
        "2021-01-01",
        "2021-12-31",
    );
    let entries = builder.get_query().entries();
    assert_eq!(entries.len(), 1);
    let (k, v) = &entries[0];
    assert_eq!(
        format!("{k}={v}"),
        "filter[registration.initialRegistrationDate]=2021-01-01..2021-12-31"
    );
}

#[test]
fn filter_in_with_no_values_and_one_value() {
    let builder = test_client()
        .lei_records()
        .filter_in("a", &[])
        .filter_not_in("b", &["x"]);
    assert_eq!(builder.get_query().get("filter[a]").unwrap(), "");
    assert_eq!(builder.get_query().get("filter[b]").unwrap(), "!x");
    assert!(builder.get_query().get("filter[c]").is_none());
}

#[test]
fn page_numbers_are_decimal() {
    assert_eq!(decimal_text(0), "0");
    assert_eq!(decimal_text(7), "7");
    assert_eq!(decimal_text(1203), "1203");
    assert_eq!(decimal_text(usize::MAX), usize::MAX.to_string());
    let builder = test_client().lei_records().page_number(0).page_size(250);
    assert_eq!(builder.get_query().get("page[number]").unwrap(), "0");
    assert_eq!(builder.get_query().get("page[size]").unwrap(), "250");
}

#[test]
fn build_url_joins_base_and_path() {
    let url = test_client().lei_records().build_url().unwrap();
    assert_eq!(url.as_str(), "https://api.gleif.org/api/v1/lei-records");
    let url = test_client().direct_children("X1").build_url().unwrap();
    assert_eq!(
        url.as_str(),
        "https://api.gleif.org/api/v1/lei-records/X1/direct-children"
    );
}

#[test]
fn build_url_reports_bad_join() {
    let client = GleifClient::builder()
        .base_url("https://example.com/api/")
        .build()
        .unwrap();
    let err = client.request("http://[::1").build_url().unwrap_err();
    assert!(matches!(err, GleifError::UrlParseError(_)));
}

#[test]
fn builder_keeps_method_and_path() {
    let builder = GleifRequestBuilder::new(test_client(), HttpMethod::Delete, "fields/x");
    assert_eq!(builder.method(), HttpMethod::Delete);
    assert_eq!(builder.get_path(), "fields/x");
    assert!(builder.get_query().is_empty());
}
