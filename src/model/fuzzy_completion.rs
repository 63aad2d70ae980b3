//! Data model: fuzzy-completion suggestions.
use crate::model::common::RelatedLink;
use vstd::prelude::*;

verus! {

/// One fuzzy completion.
#[derive(Clone, Debug, PartialEq)]
pub struct FuzzyCompletion {
    pub attributes: FuzzyCompletionAttributes,
    pub data_type: String,
    pub relationships: FuzzyCompletionRelationships,
}

/// One fuzzy completion attributes.
#[derive(Clone, Debug, PartialEq)]
pub struct FuzzyCompletionAttributes {
    pub value: String,
}

/// One fuzzy completion relationships.
#[derive(Clone, Debug, PartialEq)]
pub struct FuzzyCompletionRelationships {
    pub lei_records: FuzzyCompletionLeiRecords,
}

/// One fuzzy completion lei records.
#[derive(Clone, Debug, PartialEq)]
pub struct FuzzyCompletionLeiRecords {
    pub data: FuzzyCompletionLeiRecordsData,
    pub links: RelatedLink,
}

/// One fuzzy completion lei records data.
#[derive(Clone, Debug, PartialEq)]
pub struct FuzzyCompletionLeiRecordsData {
    pub data_type: String,
    pub id: String,
}

} // verus!
