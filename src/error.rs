//! Errors surfaced by the library.
use crate::text::joined;
use vstd::prelude::*;

verus! {

/// What a parse error is about.
#[derive(Debug, Clone, Copy, PartialEq, Eq, Structural)]
pub enum ParseErrorKind {
    /// The text names no known field.
    Field,
    /// The text names no known value of an enumeration.
    Value,
    /// The text names a known field that the caller's allow-list leaves out.
    NotAllowed,
}

#[verifier::external_type_specification]
#[verifier::external_body]
pub struct ExReqwestError(reqwest::Error);

#[verifier::external_type_specification]
#[verifier::external_body]
pub struct ExMiddlewareError(reqwest_middleware::Error);

#[verifier::external_type_specification]
#[verifier::external_body]
pub struct ExUrlParseError(url::ParseError);

#[verifier::external_type_specification]
#[verifier::external_body]
pub struct ExSerdeJsonError(serde_json::Error);

#[verifier::external_type_specification]
#[verifier::external_body]
pub struct ExStatusCode(reqwest::StatusCode);

/// A response that came back with an error status, with its body.
#[derive(Debug)]
pub struct ResponseContent {
    /// The HTTP status code of the response.
    pub status: reqwest::StatusCode,
    /// The body of the response.
    pub content: String,
}

/// Errors that can occur when using the client.
#[derive(Debug)]
pub enum GleifError {
    /// The transport failed.
    ReqwestError(reqwest::Error),
    /// The transport's middleware failed.
    ReqwestMiddlewareError(reqwest_middleware::Error),
    /// The base URL and the path do not make a valid URL.
    UrlParseError(url::ParseError),
    /// The body is not the JSON that was expected.
    SerdeError(serde_json::Error),
    /// The server answered with an error status.
    ResponseError(ResponseContent),
    /// Parsing a field or a value failed.
    ParseError {
        /// The kind of parse error.
        kind: ParseErrorKind,
        /// The message describing the failure.
        message: String,
    },
}

/// Relies on `reqwest_middleware::Error::is_middleware`, a predicate on the error's kind.
pub assume_specification[ reqwest_middleware::Error::is_middleware ](e: &reqwest_middleware::Error) -> bool;

/// Relies on `reqwest_middleware::Error::is_builder`, a predicate on the error's kind.
pub assume_specification[ reqwest_middleware::Error::is_builder ](e: &reqwest_middleware::Error) -> bool;

/// Relies on `reqwest::Error::is_redirect`, a predicate on the error's kind.
pub assume_specification[ reqwest::Error::is_redirect ](e: &reqwest::Error) -> bool;

/// Relies on `reqwest_middleware::Error::is_redirect`, a predicate on the error's kind.
pub assume_specification[ reqwest_middleware::Error::is_redirect ](e: &reqwest_middleware::Error) -> bool;

/// Relies on `reqwest::Error::is_status`, a predicate on the error's kind.
pub assume_specification[ reqwest::Error::is_status ](e: &reqwest::Error) -> bool;

/// Relies on `reqwest_middleware::Error::is_status`, a predicate on the error's kind.
pub assume_specification[ reqwest_middleware::Error::is_status ](e: &reqwest_middleware::Error) -> bool;

/// Relies on `reqwest::Error::is_timeout`, a predicate on the error's kind.
pub assume_specification[ reqwest::Error::is_timeout ](e: &reqwest::Error) -> bool;

/// Relies on `reqwest_middleware::Error::is_timeout`, a predicate on the error's kind.
pub assume_specification[ reqwest_middleware::Error::is_timeout ](e: &reqwest_middleware::Error) -> bool;

/// Relies on `reqwest::Error::is_request`, a predicate on the error's kind.
pub assume_specification[ reqwest::Error::is_request ](e: &reqwest::Error) -> bool;

/// Relies on `reqwest_middleware::Error::is_request`, a predicate on the error's kind.
pub assume_specification[ reqwest_middleware::Error::is_request ](e: &reqwest_middleware::Error) -> bool;

/// Relies on `reqwest::Error::is_connect`, a predicate on the error's kind.
pub assume_specification[ reqwest::Error::is_connect ](e: &reqwest::Error) -> bool;

/// Relies on `reqwest_middleware::Error::is_connect`, a predicate on the error's kind.
pub assume_specification[ reqwest_middleware::Error::is_connect ](e: &reqwest_middleware::Error) -> bool;

/// Relies on `reqwest::Error::is_body`, a predicate on the error's kind.
pub assume_specification[ reqwest::Error::is_body ](e: &reqwest::Error) -> bool;

/// Relies on `reqwest_middleware::Error::is_body`, a predicate on the error's kind.
pub assume_specification[ reqwest_middleware::Error::is_body ](e: &reqwest_middleware::Error) -> bool;

/// Relies on `reqwest::Error::is_decode`, a predicate on the error's kind.
pub assume_specification[ reqwest::Error::is_decode ](e: &reqwest::Error) -> bool;

/// Relies on `reqwest_middleware::Error::is_decode`, a predicate on the error's kind.
pub assume_specification[ reqwest_middleware::Error::is_decode ](e: &reqwest_middleware::Error) -> bool;

/// Relies on `reqwest::Error::status`: the status of the response the error came from, if any.
pub assume_specification[ reqwest::Error::status ](e: &reqwest::Error) -> Option<reqwest::StatusCode>;

/// Relies on `reqwest_middleware::Error::status`: the status of the response the error came from, if any.
pub assume_specification[ reqwest_middleware::Error::status ](e: &reqwest_middleware::Error) -> Option<reqwest::StatusCode>;

/// Relies on `reqwest::Error::url`: the URL the error is about, if any.
pub assume_specification<'a>[ reqwest::Error::url ](e: &'a reqwest::Error) -> Option<&'a url::Url>;

/// Relies on `reqwest_middleware::Error::url`: the URL the error is about, if any.
pub assume_specification<'a>[ reqwest_middleware::Error::url ](e: &'a reqwest_middleware::Error) -> Option<&'a url::Url>;

/// Relies on `reqwest::Error::with_url`: the same error about `url`.
pub assume_specification[ reqwest::Error::with_url ](e: reqwest::Error, url: url::Url) -> reqwest::Error;

/// Relies on `reqwest_middleware::Error::with_url`: the same error about `url`.
pub assume_specification[ reqwest_middleware::Error::with_url ](e: reqwest_middleware::Error, url: url::Url) -> reqwest_middleware::Error;

/// Relies on `reqwest::Error::without_url`: the same error without a URL.
pub assume_specification[ reqwest::Error::without_url ](e: reqwest::Error) -> reqwest::Error;

/// Relies on `reqwest_middleware::Error::without_url`: the same error without a URL.
pub assume_specification[ reqwest_middleware::Error::without_url ](e: reqwest_middleware::Error) -> reqwest_middleware::Error;

/// Relies on the `Display` impl of `reqwest::Error` for its message.
#[verifier::external_body]
fn reqwest_error_text(e: &reqwest::Error) -> String {
    e.to_string()
}

/// Relies on the `Display` impl of `reqwest_middleware::Error` for its message.
#[verifier::external_body]
fn middleware_error_text(e: &reqwest_middleware::Error) -> String {
    e.to_string()
}

/// Relies on the `Display` impl of `url::ParseError` for its message.
#[verifier::external_body]
fn url_error_text(e: &url::ParseError) -> String {
    e.to_string()
}

/// Relies on the `Display` impl of `serde_json::Error` for its message.
#[verifier::external_body]
fn serde_error_text(e: &serde_json::Error) -> String {
    e.to_string()
}

/// Relies on the `Display` impl of `reqwest::StatusCode`: the code and its reason.
#[verifier::external_body]
fn status_text(s: &reqwest::StatusCode) -> String {
    s.to_string()
}

/// The part of the client an error comes from, as its message names it.
pub open spec fn error_module(e: GleifError) -> Seq<char> {
    match e {
        GleifError::ReqwestError(_) => "reqwest"@,
        GleifError::ReqwestMiddlewareError(_) => "reqwest-middleware"@,
        GleifError::UrlParseError(_) => "url"@,
        GleifError::SerdeError(_) => "serde"@,
        GleifError::ResponseError(_) => "response"@,
        GleifError::ParseError { kind, .. } => match kind {
            ParseErrorKind::Value => "value"@,
            _ => "field"@,
        },
    }
}

/// How an error's message begins: `error in <module>: `.
pub open spec fn error_prefix(e: GleifError) -> Seq<char> {
    "error in "@ + error_module(e) + ": "@
}

impl GleifError {
    /// The error's message: `error in <module>: <detail>`, where the detail
    /// is the message of a parse error, `status code <status>` for an error
    /// status, and the outside error's own message otherwise.
    pub fn to_string(&self) -> (r: String)
        ensures
            exists|detail: Seq<char>|
                {
                    &&& r@ == error_prefix(*self) + detail
                    &&& self is ParseError ==> detail == self->message@
                    &&& self is ResponseError ==> detail.len() >= 12 && detail.subrange(0, 12)
                        == "status code "@
                },
    {
        let (module, detail) = match self {
            GleifError::ReqwestError(e) => ("reqwest", reqwest_error_text(e)),
            GleifError::ReqwestMiddlewareError(e) => ("reqwest-middleware", middleware_error_text(e)),
            GleifError::UrlParseError(e) => ("url", url_error_text(e)),
            GleifError::SerdeError(e) => ("serde", serde_error_text(e)),
            GleifError::ResponseError(e) => {
                let code = status_text(&e.status);
                ("response", joined("status code ", code.as_str()))
            },
            GleifError::ParseError { kind, message } => match kind {
                ParseErrorKind::Value => ("value", message.clone()),
                _ => ("field", message.clone()),
            },
        };
        let mut r = joined("error in ", module);
        r.append(": ");
        r.append(detail.as_str());
        proof {
            reveal_strlit("status code ");
            let d = detail@;
            assert(r@ == error_prefix(*self) + d);
            if self is ResponseError {
                assert(d.subrange(0, 12) =~= "status code "@);
            }
        }
        r
    }

    /// The kind of a parse error; `None` for every other error.
    pub open spec fn parse_kind(self) -> Option<ParseErrorKind> {
        match self {
            GleifError::ParseError { kind, .. } => Some(kind),
            _ => None,
        }
    }

    /// Whether the error came from a middleware.
    pub fn is_middleware(&self) -> (r: bool)
        ensures
            !(self is ReqwestMiddlewareError) ==> !r,
    {
        match self {
            GleifError::ReqwestMiddlewareError(inner) => inner.is_middleware(),
            _ => false,
        }
    }

    /// Whether the error came from building the request.
    pub fn is_builder(&self) -> (r: bool)
        ensures
            !(self is ReqwestMiddlewareError) ==> !r,
    {
        match self {
            GleifError::ReqwestMiddlewareError(inner) => inner.is_builder(),
            _ => false,
        }
    }

    /// Whether the error came from the redirect policy.
    pub fn is_redirect(&self) -> (r: bool)
        ensures
            !(self is ReqwestError) && !(self is ReqwestMiddlewareError) ==> !r,
    {
        match self {
            GleifError::ReqwestError(inner) => inner.is_redirect(),
            GleifError::ReqwestMiddlewareError(inner) => inner.is_redirect(),
            _ => false,
        }
    }

    /// Whether the error came from an error status of the response.
    pub fn is_status(&self) -> (r: bool)
        ensures
            self is ResponseError ==> r,
            !(self is ReqwestError) && !(self is ReqwestMiddlewareError) && !(self is ResponseError) ==> !r,
    {
        match self {
            GleifError::ReqwestError(inner) => inner.is_status(),
            GleifError::ReqwestMiddlewareError(inner) => inner.is_status(),
            GleifError::ResponseError(_) => true,
            _ => false,
        }
    }

    /// Whether the error is a timeout.
    pub fn is_timeout(&self) -> (r: bool)
        ensures
            !(self is ReqwestError) && !(self is ReqwestMiddlewareError) ==> !r,
    {
        match self {
            GleifError::ReqwestError(inner) => inner.is_timeout(),
            GleifError::ReqwestMiddlewareError(inner) => inner.is_timeout(),
            _ => false,
        }
    }

    /// Whether the error is about sending the request.
    pub fn is_request(&self) -> (r: bool)
        ensures
            !(self is ReqwestError) && !(self is ReqwestMiddlewareError) ==> !r,
    {
        match self {
            GleifError::ReqwestError(inner) => inner.is_request(),
            GleifError::ReqwestMiddlewareError(inner) => inner.is_request(),
            _ => false,
        }
    }

    /// Whether the error is about connecting.
    pub fn is_connect(&self) -> (r: bool)
        ensures
            !(self is ReqwestError) && !(self is ReqwestMiddlewareError) ==> !r,
    {
        match self {
            GleifError::ReqwestError(inner) => inner.is_connect(),
            GleifError::ReqwestMiddlewareError(inner) => inner.is_connect(),
            _ => false,
        }
    }

    /// Whether the error is about the request or response body.
    pub fn is_body(&self) -> (r: bool)
        ensures
            !(self is ReqwestError) && !(self is ReqwestMiddlewareError) ==> !r,
    {
        match self {
            GleifError::ReqwestError(inner) => inner.is_body(),
            GleifError::ReqwestMiddlewareError(inner) => inner.is_body(),
            _ => false,
        }
    }

    /// Whether the error is about decoding the response body.
    pub fn is_decode(&self) -> (r: bool)
        ensures
            self is ParseError ==> r,
            !(self is ReqwestError) && !(self is ReqwestMiddlewareError) && !(self is ParseError) ==> !r,
    {
        match self {
            GleifError::ReqwestError(inner) => inner.is_decode(),
            GleifError::ReqwestMiddlewareError(inner) => inner.is_decode(),
            GleifError::ParseError { .. } => true,
            _ => false,
        }
    }

    /// The HTTP status the error came from, if any.
    pub fn status(&self) -> (r: Option<reqwest::StatusCode>)
        ensures
            self is ResponseError ==> r == Some(self->ResponseError_0.status),
            !(self is ReqwestError) && !(self is ReqwestMiddlewareError) && !(self is ResponseError)
                ==> r is None,
    {
        match self {
            GleifError::ReqwestError(inner) => inner.status(),
            GleifError::ReqwestMiddlewareError(inner) => inner.status(),
            GleifError::ResponseError(resp) => Some(resp.status),
            _ => None,
        }
    }

    /// The URL the error is about, if any.
    pub fn url(&self) -> (r: Option<&url::Url>)
        ensures
            !(self is ReqwestError) && !(self is ReqwestMiddlewareError) ==> r is None,
    {
        match self {
            GleifError::ReqwestError(inner) => inner.url(),
            GleifError::ReqwestMiddlewareError(inner) => inner.url(),
            _ => None,
        }
    }

    /// The same error about `url`; errors of other kinds come back unchanged.
    pub fn with_url(self, url: url::Url) -> (r: GleifError)
        ensures
            self is ReqwestError <==> r is ReqwestError,
            self is ReqwestMiddlewareError <==> r is ReqwestMiddlewareError,
            !(self is ReqwestError) && !(self is ReqwestMiddlewareError) ==> r == self,
    {
        match self {
            GleifError::ReqwestError(inner) => GleifError::ReqwestError(inner.with_url(url)),
            GleifError::ReqwestMiddlewareError(inner) => GleifError::ReqwestMiddlewareError(
                inner.with_url(url),
            ),
            other => other,
        }
    }

    /// The same error without a URL; errors of other kinds come back unchanged.
    pub fn without_url(self) -> (r: GleifError)
        ensures
            self is ReqwestError <==> r is ReqwestError,
            self is ReqwestMiddlewareError <==> r is ReqwestMiddlewareError,
            !(self is ReqwestError) && !(self is ReqwestMiddlewareError) ==> r == self,
    {
        match self {
            GleifError::ReqwestError(inner) => GleifError::ReqwestError(inner.without_url()),
            GleifError::ReqwestMiddlewareError(inner) => GleifError::ReqwestMiddlewareError(
                inner.without_url(),
            ),
            other => other,
        }
    }
}


impl From<reqwest::Error> for GleifError {
    fn from(e: reqwest::Error) -> (r: GleifError) {
        GleifError::ReqwestError(e)
    }
}

impl vstd::std_specs::convert::FromSpecImpl<reqwest::Error> for GleifError {
    open spec fn obeys_from_spec() -> bool {
        true
    }

    open spec fn from_spec(e: reqwest::Error) -> GleifError {
        GleifError::ReqwestError(e)
    }
}

impl From<reqwest_middleware::Error> for GleifError {
    fn from(e: reqwest_middleware::Error) -> (r: GleifError) {
        GleifError::ReqwestMiddlewareError(e)
    }
}

impl vstd::std_specs::convert::FromSpecImpl<reqwest_middleware::Error> for GleifError {
    open spec fn obeys_from_spec() -> bool {
        true
    }

    open spec fn from_spec(e: reqwest_middleware::Error) -> GleifError {
        GleifError::ReqwestMiddlewareError(e)
    }
}

impl From<url::ParseError> for GleifError {
    fn from(e: url::ParseError) -> (r: GleifError) {
        GleifError::UrlParseError(e)
    }
}

impl vstd::std_specs::convert::FromSpecImpl<url::ParseError> for GleifError {
    open spec fn obeys_from_spec() -> bool {
        true
    }

    open spec fn from_spec(e: url::ParseError) -> GleifError {
        GleifError::UrlParseError(e)
    }
}

impl From<serde_json::Error> for GleifError {
    fn from(e: serde_json::Error) -> (r: GleifError) {
        GleifError::SerdeError(e)
    }
}

impl vstd::std_specs::convert::FromSpecImpl<serde_json::Error> for GleifError {
    open spec fn obeys_from_spec() -> bool {
        true
    }

    open spec fn from_spec(e: serde_json::Error) -> GleifError {
        GleifError::SerdeError(e)
    }
}

} // verus!
