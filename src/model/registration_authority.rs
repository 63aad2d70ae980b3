//! Data model: registration authorities.
use vstd::prelude::*;

verus! {

/// One registration authority.
#[derive(Debug, Clone, PartialEq, Eq)]
pub struct RegistrationAuthority {
    pub attributes: RegistrationAuthorityAttributes,
    pub data_type: String,
    pub id: String,
}

/// One registration authority attributes.
#[derive(Debug, Clone, PartialEq, Eq)]
pub struct RegistrationAuthorityAttributes {
    pub code: String,
    pub international_name: Option<String>,
    pub international_organization_name: Option<String>,
    pub jurisdictions: Vec<RegistrationAuthorityJurisdiction>,
    pub local_name: Option<String>,
    pub local_organization_name: Option<String>,
    pub website: String,
}

/// One registration authority jurisdiction.
#[derive(Debug, Clone, PartialEq, Eq)]
pub struct RegistrationAuthorityJurisdiction {
    pub country: String,
    pub country_code: String,
    pub jurisdiction: String,
}

} // verus!
