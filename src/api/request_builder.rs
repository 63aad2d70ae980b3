//! What the lower-level client does with a response, decided from its status
//! and its content type.
use crate::text::{owned, same_text};
use vstd::prelude::*;

verus! {

/// What becomes of a response.
#[derive(Debug, PartialEq, Eq)]
pub enum ResponseCheck {
    /// The status is a success and the body is JSON: read it.
    ReadJson,
    /// The status is a success but the body is of this other content type.
    WrongContentType(String),
    /// The status is not a success.
    Failed,
}

/// The content types whose bodies are read as JSON.
pub open spec fn is_json_content_type(s: Seq<char>) -> bool {
    s == "application/json"@ || s == "application/vnd.api+json"@
}

/// What becomes of a response with this status class and content type.
pub fn check_response(success: bool, content_type: &str) -> (r: ResponseCheck)
    ensures
        !success ==> r == ResponseCheck::Failed,
        success && is_json_content_type(content_type@) ==> r == ResponseCheck::ReadJson,
        success && !is_json_content_type(content_type@) ==> (r matches ResponseCheck::WrongContentType(t) && t@ == content_type@),
{
    if !success {
        ResponseCheck::Failed
    } else if same_text(content_type, "application/json") || same_text(
        content_type,
        "application/vnd.api+json",
    ) {
        ResponseCheck::ReadJson
    } else {
        ResponseCheck::WrongContentType(owned(content_type))
    }
}

} // verus!
