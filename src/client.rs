//! The configured client: an HTTP client with its middleware stack, and the
//! base URL that request paths are resolved against.
use crate::error::GleifError;
use crate::request_builder::{GleifRequestBuilder, HttpMethod};
use crate::text::owned;
use crate::DEFAULT_BASE_URL;
use reqwest_middleware::{ClientBuilder, ClientWithMiddleware};
use std::sync::Arc;
use vstd::prelude::*;

verus! {

#[verifier::external_type_specification]
#[verifier::external_body]
pub struct ExClientWithMiddleware(ClientWithMiddleware);

#[verifier::external_type_specification]
#[verifier::external_body]
pub struct ExMiddlewareClientBuilder(ClientBuilder);

#[verifier::external_type_specification]
#[verifier::external_body]
pub struct ExReqwestClient(reqwest::Client);

#[verifier::external_type_specification]
#[verifier::external_body]
pub struct ExReqwestClientBuilder(reqwest::ClientBuilder);

#[verifier::external_type_specification]
#[verifier::external_body]
pub struct ExUrl(url::Url);

/// Relies on `reqwest_middleware::ClientBuilder::new`: starts an empty
/// middleware stack around `client`.
#[verifier::external_body]
fn middleware_stack(client: reqwest::Client) -> ClientBuilder {
    ClientBuilder::new(client)
}

/// Relies on `reqwest_middleware::ClientBuilder::build`: the client with the
/// builder's middleware.
#[verifier::external_body]
fn finish_middleware(builder: ClientBuilder) -> ClientWithMiddleware {
    builder.build()
}

/// Relies on `reqwest::Client::builder`: a builder with reqwest's defaults.
#[verifier::external_body]
fn reqwest_defaults() -> reqwest::ClientBuilder {
    reqwest::Client::builder()
}

/// Relies on `reqwest::ClientBuilder::build`, which fails when the TLS
/// backend or the resolver cannot be set up.
#[verifier::external_body]
fn finish_reqwest(builder: reqwest::ClientBuilder) -> Result<reqwest::Client, reqwest::Error> {
    builder.build()
}

/// Whether `url::Url::parse` accepts the text as an absolute URL.
pub uninterp spec fn url_parses(s: Seq<char>) -> bool;

/// Relies on `url::Url::parse`: succeeds exactly on the texts it accepts,
/// which depends on the text alone.
#[verifier::external_body]
fn parse_url(s: &str) -> (r: Result<url::Url, url::ParseError>)
    ensures
        r is Ok <==> url_parses(s@),
{
    url::Url::parse(s)
}

/// Client for the API: shared HTTP client plus base URL.
#[derive(Clone, Debug)]
pub struct GleifClient {
    client: Arc<ClientWithMiddleware>,
    base_url: String,
}

impl GleifClient {
    /// The base URL that request paths are resolved against.
    pub closed spec fn base_url_view(&self) -> Seq<char> {
        self.base_url@
    }

    /// A client with reqwest's defaults and the default base URL.
    pub fn new() -> (r: Result<GleifClient, GleifError>)
        ensures
            r is Ok ==> r->Ok_0.base_url_view() == DEFAULT_BASE_URL@,
    {
        GleifClient::builder().build()
    }

    /// A builder for a client with custom settings.
    pub fn builder() -> (r: GleifClientBuilder)
        ensures
            r.base_url_view() == DEFAULT_BASE_URL@,
            r.has_no_client(),
    {
        GleifClientBuilder::new()
    }

    /// A client around an HTTP client with middleware, at the default base URL.
    pub fn from_middleware_client(client: ClientWithMiddleware) -> (r: GleifClient)
        ensures
            r.base_url_view() == DEFAULT_BASE_URL@,
    {
        GleifClient { client: Arc::new(client), base_url: owned(DEFAULT_BASE_URL) }
    }

    /// A client around a plain HTTP client, at the default base URL.
    pub fn from_reqwest_client(client: reqwest::Client) -> (r: GleifClient)
        ensures
            r.base_url_view() == DEFAULT_BASE_URL@,
    {
        GleifClient::from_middleware_client(finish_middleware(middleware_stack(client)))
    }

    /// The base URL.
    pub fn base_url(&self) -> (r: &String)
        ensures
            r@ == self.base_url_view(),
    {
        &self.base_url
    }

    /// The HTTP client.
    pub fn client(&self) -> &Arc<ClientWithMiddleware> {
        &self.client
    }

    /// A GET request on `path`, with no query yet.
    pub fn request(&self, path: &str) -> (r: GleifRequestBuilder)
        ensures
            r.wf(),
            r@.method == HttpMethod::Get,
            r@.path == path@,
            r@.query == Map::<Seq<char>, Seq<char>>::empty(),
            r.client_view().base_url_view() == self.base_url_view(),
    {
        GleifRequestBuilder::new(self.clone_client(), HttpMethod::Get, path)
    }

    /// A copy sharing the same HTTP client.
    pub(crate) fn clone_client(&self) -> (r: GleifClient)
        ensures
            r.base_url_view() == self.base_url_view(),
    {
        GleifClient { client: self.client.clone(), base_url: self.base_url.clone() }
    }
}

/// Settings for a [`GleifClient`].
pub struct GleifClientBuilder {
    middleware_builder: Option<ClientBuilder>,
    reqwest_client: Option<reqwest::Client>,
    base_url: String,
}

impl Default for GleifClientBuilder {
    fn default() -> (r: GleifClientBuilder)
        ensures
            r.base_url_view() == DEFAULT_BASE_URL@,
            r.has_no_client(),
    {
        GleifClientBuilder::new()
    }
}

impl GleifClientBuilder {
    /// The base URL that the client will use.
    pub closed spec fn base_url_view(&self) -> Seq<char> {
        self.base_url@
    }

    /// Neither an HTTP client nor a middleware stack was given.
    pub closed spec fn has_no_client(&self) -> bool {
        self.middleware_builder is None && self.reqwest_client is None
    }

    /// Default settings: reqwest's defaults and the default base URL.
    pub fn new() -> (r: GleifClientBuilder)
        ensures
            r.base_url_view() == DEFAULT_BASE_URL@,
            r.has_no_client(),
    {
        GleifClientBuilder {
            middleware_builder: None,
            reqwest_client: None,
            base_url: owned(DEFAULT_BASE_URL),
        }
    }

    /// Use `url` as the base URL.
    pub fn base_url(self, url: &str) -> (r: GleifClientBuilder)
        ensures
            r.base_url_view() == url@,
            r.has_no_client() == self.has_no_client(),
    {
        GleifClientBuilder { base_url: owned(url), ..self }
    }

    /// Use this HTTP client (under the middleware stack, if one is given).
    pub fn reqwest_client(self, client: reqwest::Client) -> (r: GleifClientBuilder)
        ensures
            r.base_url_view() == self.base_url_view(),
            !r.has_no_client(),
    {
        GleifClientBuilder { reqwest_client: Some(client), ..self }
    }

    /// Use this middleware stack; it carries its own HTTP client.
    pub fn middleware_builder(self, builder: ClientBuilder) -> (r: GleifClientBuilder)
        ensures
            r.base_url_view() == self.base_url_view(),
            !r.has_no_client(),
    {
        GleifClientBuilder { middleware_builder: Some(builder), ..self }
    }

    /// The client. Fails with [`GleifError::UrlParseError`] when the base URL
    /// does not parse, and with [`GleifError::ReqwestError`] when no client
    /// was given and reqwest cannot make one.
    pub fn build(self) -> (r: Result<GleifClient, GleifError>)
        ensures
            r is Ok ==> url_parses(self.base_url_view()) && r->Ok_0.base_url_view()
                == self.base_url_view(),
            !url_parses(self.base_url_view()) ==> (r is Err && r->Err_0 is UrlParseError)
                || (r is Err && r->Err_0 is ReqwestError),
            url_parses(self.base_url_view()) && !self.has_no_client() ==> r is Ok,
    {
        let client = match self.middleware_builder {
            Some(builder) => finish_middleware(builder),
            None => {
                let reqwest_client = match self.reqwest_client {
                    Some(c) => c,
                    None => match finish_reqwest(reqwest_defaults()) {
                        Ok(c) => c,
                        Err(e) => {
                            return Err(GleifError::ReqwestError(e));
                        },
                    },
                };
                finish_middleware(middleware_stack(reqwest_client))
            },
        };
        match parse_url(self.base_url.as_str()) {
            Ok(_) => Ok(GleifClient { client: Arc::new(client), base_url: self.base_url }),
            Err(e) => Err(GleifError::UrlParseError(e)),
        }
    }
}

} // verus!
