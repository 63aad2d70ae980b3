use gleif_rs::model::api_response::{
    data_or_vec, ApiResponse, DataOrVec, DecodeError, JsonNumber, JsonValue,
};
use gleif_rs::model::links::PaginationLinks;
use gleif_rs::model::meta::{GoldenCopy, Meta, Pagination};

fn s(text: &str) -> JsonValue {
    JsonValue::String(text.to_string())
}

fn n(v: u64) -> JsonValue {
    JsonValue::Number(JsonNumber::PosInt(v))
}

fn obj(members: Vec<(&str, JsonValue)>) -> JsonValue {
    JsonValue::Object(members.into_iter().map(|(k, v)| (k.to_string(), v)).collect())
}

fn pagination_json() -> JsonValue {
    obj(vec![
        ("currentPage", n(1)),
        ("perPage", n(10)),
        ("from", n(1)),
        ("to", n(10)),
        ("total", n(100)),
        ("lastPage", n(10)),
    ])
}

fn record(lei: &str) -> JsonValue {
    obj(vec![
        ("type", s("lei-records")),
        ("id", s(lei)),
        ("attributes", obj(vec![("lei", s(lei))])),
    ])
}

fn record_id(v: &JsonValue) -> String {
    match v {
        JsonValue::Object(members) => members
            .iter()
            .find(|(k, _)| k == "id")
            .map(|(_, v)| match v {
                JsonValue::String(t) => t.clone(),
                _ => String::new(),
            })
            .unwrap_or_default(),
        _ => String::new(),
    }
}

#[test]
fn test_deserialize_full_pagination_links() {
    let json_data = obj(vec![
        ("first", s("https://api.example.com/first")),
        ("prev", s("https://api.example.com/prev")),
        ("next", s("https://api.example.com/next")),
        ("last", s("https://api.example.com/last")),
    ]);

    let links = PaginationLinks::from_json(&json_data).unwrap();
    assert_eq!(links.first, "https://api.example.com/first");
    assert_eq!(links.prev, Some("https://api.example.com/prev".to_string()));
    assert_eq!(links.next, Some("https://api.example.com/next".to_string()));
    assert_eq!(links.last, "https://api.example.com/last");
}

#[test]
fn test_deserialize_partial_pagination_links() {
    let json_data = obj(vec![
        ("first", s("https://api.example.com/first")),
        ("last", s("https://api.example.com/last")),
    ]);

    let links = PaginationLinks::from_json(&json_data).unwrap();
    assert_eq!(links.first, "https://api.example.com/first");
    assert_eq!(links.prev, None);
    assert_eq!(links.next, None);
    assert_eq!(links.last, "https://api.example.com/last");
}

#[test]
fn test_deserialize_invalid_pagination_links() {
    let json_data = obj(vec![("first", s("https://api.example.com/first"))]);

    let result = PaginationLinks::from_json(&json_data);
    assert!(result.is_err());
}

#[test]
fn test_deserialize_full_meta() {
    let json_data = obj(vec![
        ("goldenCopy", obj(vec![("publishDate", s("2023-01-01T00:00:00Z"))])),
        ("pagination", pagination_json()),
    ]);

    let meta = Meta::from_json(&json_data).unwrap();
    assert!(meta.golden_copy.is_some());
    assert!(meta.pagination.is_some());
}

#[test]
fn test_deserialize_partial_meta() {
    let json_data = obj(vec![("pagination", pagination_json())]);

    let meta = Meta::from_json(&json_data).unwrap();
    assert!(meta.golden_copy.is_none());
    assert!(meta.pagination.is_some());
}

#[test]
fn test_deserialize_invalid_meta() {
    let json_data = obj(vec![("invalid_field", s("invalid_value"))]);

    let result = Meta::from_json(&json_data);
    assert!(result.is_err());
}

#[test]
fn test_deserialize_full_golden_copy() {
    let json_data = obj(vec![("publishDate", s("2023-01-01T00:00:00Z"))]);

    let golden_copy = GoldenCopy::from_json(&json_data).unwrap();
    assert_eq!(golden_copy.publish_date, "2023-01-01T00:00:00Z");
}

#[test]
fn test_deserialize_full_pagination() {
    let pagination = Pagination::from_json(&pagination_json()).unwrap();
    assert_eq!(pagination.current_page, 1);
    assert_eq!(pagination.per_page, 10);
    assert_eq!(pagination.from, 1);
    assert_eq!(pagination.to, 10);
    assert_eq!(pagination.total, 100);
    assert_eq!(pagination.last_page, 10);
}

#[test]
fn test_single_data_deserialization() {
    let json_data = obj(vec![
        (
            "meta",
            obj(vec![("goldenCopy", obj(vec![("publishDate", s("2025-01-02T08:00:00Z"))]))]),
        ),
        ("data", record("254900OPPU84GM83MG36")),
    ]);
    let response = ApiResponse::from_json(json_data).unwrap();
    let meta = response.meta.unwrap();
    assert_eq!(meta.golden_copy.unwrap().publish_date, "2025-01-02T08:00:00Z");
    assert!(response.links.is_none());
    match response.data {
        DataOrVec::Single(data) => assert_eq!(record_id(&data), "254900OPPU84GM83MG36"),
        DataOrVec::Multiple(_) => panic!("expected a single resource"),
    }
}

#[test]
fn test_multiple_data_deserialization() {
    let json_data = obj(vec![
        (
            "meta",
            obj(vec![("goldenCopy", obj(vec![("publishDate", s("2025-01-02T08:00:00Z"))]))]),
        ),
        (
            "data",
            JsonValue::Array(vec![record("254900OPPU84GM83MG36"), record("254900OPPU84GM83MG37")]),
        ),
    ]);
    let response = ApiResponse::from_json(json_data).unwrap();
    let meta = response.meta.unwrap();
    assert_eq!(meta.golden_copy.unwrap().publish_date, "2025-01-02T08:00:00Z");
    match response.data {
        DataOrVec::Multiple(data_vec) => {
            assert_eq!(data_vec.len(), 2);
            assert_eq!(record_id(&data_vec[0]), "254900OPPU84GM83MG36");
            assert_eq!(record_id(&data_vec[1]), "254900OPPU84GM83MG37");
        },
        DataOrVec::Single(_) => panic!("expected a list of resources"),
    }
}

#[test]
fn envelope_with_pagination_and_links() {
    let json_data = obj(vec![
        ("meta", obj(vec![("pagination", pagination_json())])),
        (
            "links",
            obj(vec![
                ("first", s("https://api.gleif.org/api/v1/lei-records?page%5Bnumber%5D=1")),
                ("next", s("https://api.gleif.org/api/v1/lei-records?page%5Bnumber%5D=2")),
                ("last", s("https://api.gleif.org/api/v1/lei-records?page%5Bnumber%5D=10")),
            ]),
        ),
        ("data", JsonValue::Array(vec![record("5493001KJTIIGC8Y1R12")])),
    ]);
    let response = ApiResponse::from_json(json_data).unwrap();
    let links = response.links.unwrap();
    assert_eq!(links.prev, None);
    assert!(links.next.is_some());
    assert_eq!(response.meta.unwrap().pagination.unwrap().last_page, 10);
    match response.data {
        DataOrVec::Multiple(items) => {
            assert_eq!(items.len(), 1);
            assert_eq!(record_id(&items[0]), "5493001KJTIIGC8Y1R12");
        },
        DataOrVec::Single(_) => panic!("a one-element array stays a list"),
    }
}

#[test]
fn envelope_empty_array_is_multiple() {
    let response = ApiResponse::from_json(obj(vec![("data", JsonValue::Array(vec![]))])).unwrap();
    assert!(matches!(response.data, DataOrVec::Multiple(ref v) if v.is_empty()));
    assert!(response.meta.is_none());
}

#[test]
fn envelope_scalar_data_is_rejected() {
    for data in [s("x"), n(3), JsonValue::Null, JsonValue::Bool(true)] {
        let err = ApiResponse::from_json(obj(vec![("data", data)])).unwrap_err();
        assert!(matches!(err, DecodeError::WrongKind(_)));
    }
    assert!(matches!(data_or_vec(JsonValue::Null), Err(DecodeError::WrongKind(_))));
    assert!(matches!(data_or_vec(obj(vec![])), Ok(DataOrVec::Single(_))));
}

#[test]
fn envelope_missing_data_and_non_object_body() {
    let err = ApiResponse::from_json(obj(vec![("meta", JsonValue::Null)])).unwrap_err();
    assert!(matches!(err, DecodeError::MissingField(ref f) if f == "data"));
    let err = ApiResponse::from_json(JsonValue::Array(vec![])).unwrap_err();
    assert!(matches!(err, DecodeError::NotAnObject(_)));
}

#[test]
fn envelope_null_meta_and_links_are_absent() {
    let response = ApiResponse::from_json(obj(vec![
        ("meta", JsonValue::Null),
        ("links", JsonValue::Null),
        ("data", record("X")),
    ]))
    .unwrap();
    assert!(response.meta.is_none());
    assert!(response.links.is_none());
}

#[test]
fn pagination_rejects_out_of_range_and_negative_numbers() {
    let too_big = obj(vec![
        ("currentPage", n(u64::from(u32::MAX) + 1)),
        ("perPage", n(10)),
        ("from", n(1)),
        ("to", n(10)),
        ("total", n(100)),
        ("lastPage", n(10)),
    ]);
    assert!(matches!(Pagination::from_json(&too_big), Err(DecodeError::WrongKind(_))));
    let negative = obj(vec![("currentPage", JsonValue::Number(JsonNumber::NegInt(-1)))]);
    assert!(Pagination::from_json(&negative).is_err());
}
