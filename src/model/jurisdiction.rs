//! Data model: jurisdictions.
use vstd::prelude::*;

verus! {

/// One jurisdiction.
#[derive(Clone, Debug, PartialEq)]
pub struct Jurisdiction {
    pub attributes: JurisdictionAttributes,
    pub data_type: String,
    pub id: String,
}

/// One jurisdiction attributes.
#[derive(Clone, Debug, PartialEq)]
pub struct JurisdictionAttributes {
    pub code: String,
    pub name: Option<String>,
}

} // verus!
