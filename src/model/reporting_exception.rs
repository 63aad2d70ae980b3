//! Data model: reporting exceptions.
use crate::model::common::RelatedLink;
use vstd::prelude::*;

verus! {

/// One reporting exception.
#[derive(Clone, Debug, PartialEq)]
pub struct ReportingException {
    pub attributes: ReportingExceptionAttributes,
    pub data_type: String,
    pub id: String,
    pub relationships: ReportingExceptionRelationships,
}

/// One reporting exception attributes.
#[derive(Clone, Debug, PartialEq)]
pub struct ReportingExceptionAttributes {
    pub category: String,
    pub lei: String,
    pub reason: String,
    pub reference: Option<String>,
    pub valid_from: Option<String>,
    pub valid_to: Option<String>,
}

/// One reporting exception relationships.
#[derive(Clone, Debug, PartialEq)]
pub struct ReportingExceptionRelationships {
    pub lei_record: ReportingExceptionLeiRecordRelationship,
}

/// One reporting exception lei record relationship.
#[derive(Clone, Debug, PartialEq)]
pub struct ReportingExceptionLeiRecordRelationship {
    pub links: RelatedLink,
}

} // verus!
