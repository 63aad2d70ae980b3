//! Data model: parts shared by several resources: envelope, metadata, links.
use vstd::prelude::*;

verus! {

/// One gleif api response.
#[derive(Clone, Debug, PartialEq, Eq)]
pub struct GleifApiResponse<T> {
    pub data: T,
    pub links: Option<PaginationLinks>,
    pub meta: Option<Meta>,
}

/// One meta.
#[derive(Clone, Debug, PartialEq, Eq)]
pub struct Meta {
    pub golden_copy: Option<GoldenCopy>,
    pub pagination: Option<Pagination>,
}

/// One golden copy.
#[derive(Clone, Debug, PartialEq, Eq)]
pub struct GoldenCopy {
    pub publish_date: String,
}

/// One pagination.
#[derive(Clone, Debug, PartialEq, Eq)]
pub struct Pagination {
    pub current_page: u32,
    pub from: Option<u32>,
    pub last_page: u32,
    pub per_page: u32,
    pub to: Option<u32>,
    pub total: u32,
}

/// One pagination links.
#[derive(Clone, Debug, PartialEq, Eq)]
pub struct PaginationLinks {
    pub first: String,
    pub last: String,
    pub next: Option<String>,
    pub prev: Option<String>,
}

/// One relationship links.
#[derive(Clone, Debug, PartialEq, Eq)]
pub struct RelationshipLinks {
    pub links: RelatedLink,
}

/// One related link.
#[derive(Clone, Debug, PartialEq, Eq)]
pub struct RelatedLink {
    pub lei_record: Option<String>,
    pub related: Option<String>,
    pub relationship_record: Option<String>,
    pub relationship_records: Option<String>,
    pub reporting_exception: Option<String>,
}

} // verus!
