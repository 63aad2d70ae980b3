//! Data model: entity legal forms.
use crate::model::enums::ELFStatus;
use vstd::prelude::*;

verus! {

/// One entity legal form.
#[derive(Clone, Debug, PartialEq)]
pub struct EntityLegalForm {
    pub attributes: EntityLegalFormAttributes,
    pub data_type: String,
    pub id: String,
}

/// One entity legal form attributes.
#[derive(Clone, Debug, PartialEq)]
pub struct EntityLegalFormAttributes {
    pub code: String,
    pub country: String,
    pub country_code: String,
    pub date_created: String,
    pub jurisdiction: Option<String>,
    pub names: Vec<EntityLegalFormName>,
    pub status: ELFStatus,
    pub subdivision_code: Option<String>,
}

/// One entity legal form name.
#[derive(Clone, Debug, PartialEq)]
pub struct EntityLegalFormName {
    pub language: String,
    pub language_code: String,
    pub local_name: String,
    pub transliterated_name: String,
}

} // verus!
