//! Data model: pagination links.
use vstd::prelude::*;

verus! {

/// One pagination links.
#[derive(Debug, PartialEq, Eq)]
pub struct PaginationLinks {
    pub first: String,
    pub last: String,
    pub next: Option<String>,
    pub prev: Option<String>,
}

} // verus!
