//! Data model: vLEI issuers.
use vstd::prelude::*;

verus! {

/// One v lei issuer.
#[derive(Debug, Clone, PartialEq, Eq)]
pub struct VLeiIssuer {
    pub attributes: VLeiIssuerAttributes,
    pub data_type: String,
    pub id: String,
}

/// One v lei issuer attributes.
#[derive(Debug, Clone, PartialEq, Eq)]
pub struct VLeiIssuerAttributes {
    pub lei: String,
    pub marketing_name: String,
    pub name: String,
    pub qualification_date: String,
    pub website: String,
}

} // verus!
