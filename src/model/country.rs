//! Data model: countries.
use vstd::prelude::*;

verus! {

/// One country.
#[derive(Clone, Debug, PartialEq)]
pub struct Country {
    pub attributes: CountryAttributes,
    pub data_type: String,
    pub id: String,
}

/// One country attributes.
#[derive(Clone, Debug, PartialEq)]
pub struct CountryAttributes {
    pub code: String,
    pub name: String,
}

} // verus!
