//! Data model: regions.
use vstd::prelude::*;

verus! {

/// One region.
#[derive(Debug, Clone, PartialEq, Eq)]
pub struct Region {
    pub attributes: RegionAttributes,
    pub data_type: String,
    pub id: String,
}

/// One region attributes.
#[derive(Debug, Clone, PartialEq, Eq)]
pub struct RegionAttributes {
    pub code: String,
    pub name: Option<String>,
    pub names: Vec<RegionName>,
}

/// One region name.
#[derive(Debug, Clone, PartialEq, Eq)]
pub struct RegionName {
    pub language: String,
    pub name: String,
}

} // verus!
