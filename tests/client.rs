use gleif_rs::client::GleifClient;
use gleif_rs::error::GleifError;
use gleif_rs::DEFAULT_BASE_URL;

#[test]
fn test_client_construction_from_reqwest() {
    let reqwest_client = reqwest::Client::new();
    let client = GleifClient::from_reqwest_client(reqwest_client);
    assert_eq!(client.base_url().as_str(), DEFAULT_BASE_URL);
}

#[test]
fn test_client_construction_from_middleware_client() {
    let reqwest_client = reqwest::Client::new();
    let client_with_middleware = reqwest_middleware::ClientBuilder::new(reqwest_client).build();
    let client = GleifClient::from_middleware_client(client_with_middleware);
    assert_eq!(client.base_url().as_str(), DEFAULT_BASE_URL);
}

#[test]
fn test_client_builder() {
    let client = GleifClient::builder()
        .build()
        .expect("Client build should succeed");
    assert_eq!(client.base_url().as_str(), DEFAULT_BASE_URL);

    let custom_url = "https://custom.gleif.org/api/v2";
    let client = GleifClient::builder()
        .base_url(custom_url)
        .build()
        .expect("Client build should succeed");
    assert_eq!(client.base_url().as_str(), custom_url);
}

#[test]
fn test_client_new() {
    let client = GleifClient::new().unwrap();
    assert_eq!(client.base_url().as_str(), DEFAULT_BASE_URL);
}

#[test]
fn test_client_builder_with_middleware() {
    let reqwest_client = reqwest::Client::new();
    let middleware_builder = reqwest_middleware::ClientBuilder::new(reqwest_client.clone());

    let client = GleifClient::builder()
        .middleware_builder(middleware_builder)
        .build()
        .expect("Client build should succeed");

    assert_eq!(client.base_url().as_str(), DEFAULT_BASE_URL);
}

#[test]
fn client_builder_rejects_invalid_base_url() {
    let err = GleifClient::builder()
        .reqwest_client(reqwest::Client::new())
        .base_url("invalid_url")
        .build()
        .unwrap_err();
    assert!(matches!(err, GleifError::UrlParseError(_)));
}

#[test]
fn client_builder_default_uses_default_base_url() {
    let client = gleif_rs::client::GleifClientBuilder::default().build().unwrap();
    assert_eq!(client.base_url(), DEFAULT_BASE_URL);
    let builder = client.request("fields");
    assert_eq!(builder.client().base_url(), DEFAULT_BASE_URL);
}
