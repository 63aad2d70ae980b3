//! Data model: the API's field catalogue.
use vstd::prelude::*;

verus! {

/// One field.
#[derive(Clone, Debug, PartialEq)]
pub struct Field {
    pub attributes: FieldAttributes,
    pub data_type: String,
    pub id: String,
}

/// One field attributes.
#[derive(Clone, Debug, PartialEq)]
pub struct FieldAttributes {
    pub contexts: Vec<String>,
    pub data_type: String,
    pub enum_values: Option<Vec<String>>,
    pub field: String,
    pub json_path: Option<String>,
    pub label: String,
    pub operators: Option<Vec<String>>,
    pub resource: Option<String>,
    pub sortable: bool,
    pub xpath: Option<String>,
}

} // verus!
