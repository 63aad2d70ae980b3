//! HTTP method names as the lower-level client accepts them.
use crate::request_builder::HttpMethod;
use crate::text::same_text;
use vstd::prelude::*;

verus! {

/// What `str::to_uppercase` returns for a text.
pub uninterp spec fn upper_of(s: Seq<char>) -> Seq<char>;

/// Relies on `str::to_uppercase`: the result depends on the characters alone.
#[verifier::external_body]
fn uppercase(s: &str) -> (r: String)
    ensures
        r@ == upper_of(s@),
{
    s.to_uppercase()
}

/// The method whose upper-case name is `s`.
pub open spec fn method_named(s: Seq<char>) -> Option<HttpMethod> {
    if s == "GET"@ {
        Some(HttpMethod::Get)
    } else if s == "POST"@ {
        Some(HttpMethod::Post)
    } else if s == "PUT"@ {
        Some(HttpMethod::Put)
    } else if s == "DELETE"@ {
        Some(HttpMethod::Delete)
    } else {
        None
    }
}

/// The method named by an upper-case name: `GET`, `POST`, `PUT` or `DELETE`.
pub fn method_from_upper(name: &str) -> (r: Option<HttpMethod>)
    ensures
        r == method_named(name@),
{
    if same_text(name, "GET") {
        Some(HttpMethod::Get)
    } else if same_text(name, "POST") {
        Some(HttpMethod::Post)
    } else if same_text(name, "PUT") {
        Some(HttpMethod::Put)
    } else if same_text(name, "DELETE") {
        Some(HttpMethod::Delete)
    } else {
        None
    }
}

/// The method named by `name`, in any letter case; `None` for a method the
/// client does not support.
pub fn parse_method(name: &str) -> (r: Option<HttpMethod>)
    ensures
        r == method_named(upper_of(name@)),
{
    let upper = uppercase(name);
    method_from_upper(upper.as_str())
}

} // verus!
