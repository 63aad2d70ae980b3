//! Data model: ISINs of an entity.
use vstd::prelude::*;

verus! {

/// One isin.
#[derive(Clone, Debug, PartialEq)]
pub struct Isin {
    pub attributes: IsinAttributes,
    pub data_type: String,
    pub id: String,
}

/// One isin attributes.
#[derive(Clone, Debug, PartialEq)]
pub struct IsinAttributes {
    pub isin: String,
    pub lei: String,
}

} // verus!
