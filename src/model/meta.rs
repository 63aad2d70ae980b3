//! Data model: response metadata.
use vstd::prelude::*;

verus! {

/// One meta.
#[derive(Debug, PartialEq, Eq)]
pub struct Meta {
    pub golden_copy: Option<GoldenCopy>,
    pub pagination: Option<Pagination>,
}

/// One golden copy.
#[derive(Debug, PartialEq, Eq)]
pub struct GoldenCopy {
    pub publish_date: String,
}

/// One pagination.
#[derive(Debug, PartialEq, Eq)]
pub struct Pagination {
    pub current_page: u32,
    pub from: u32,
    pub last_page: u32,
    pub per_page: u32,
    pub to: u32,
    pub total: u32,
}

} // verus!
