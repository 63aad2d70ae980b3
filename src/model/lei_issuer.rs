//! Data model: LEI issuers and their jurisdictions.
use crate::model::common::RelationshipLinks;
use vstd::prelude::*;

verus! {

/// One lei issuer.
#[derive(Debug, Clone, PartialEq, Eq)]
pub struct LeiIssuer {
    pub attributes: LeiIssuerAttributes,
    pub data_type: String,
    pub id: String,
    pub relationships: Option<LeiIssuerRelationships>,
}

/// One lei issuer attributes.
#[derive(Debug, Clone, PartialEq, Eq)]
pub struct LeiIssuerAttributes {
    pub accreditation_date: String,
    pub lei: String,
    pub marketing_name: String,
    pub name: String,
    pub website: String,
}

/// One lei issuer relationships.
#[derive(Debug, Clone, PartialEq, Eq)]
pub struct LeiIssuerRelationships {
    pub fund_jurisdictions: RelationshipLinks,
    pub jurisdictions: RelationshipLinks,
}

/// One lei issuer jurisdiction.
#[derive(Debug, Clone, PartialEq, Eq)]
pub struct LeiIssuerJurisdiction {
    pub attributes: LeiIssuerJurisdictionAttributes,
    pub data_type: String,
    pub id: String,
}

/// One lei issuer jurisdiction attributes.
#[derive(Debug, Clone, PartialEq, Eq)]
pub struct LeiIssuerJurisdictionAttributes {
    pub accredited_as: String,
    pub country_code: String,
    pub end_date: Option<String>,
    pub is_accredited_for_funds: bool,
    pub start_date: String,
}

} // verus!
