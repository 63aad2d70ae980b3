//! Data model: official organizational roles.
use crate::model::enums::ELFStatus;
use vstd::prelude::*;

verus! {

/// One official organizational role.
#[derive(Debug, Clone, PartialEq, Eq)]
pub struct OfficialOrganizationalRole {
    pub attributes: OfficialOrganizationalRoleAttributes,
    pub data_type: String,
    pub id: String,
}

/// One official organizational role attributes.
#[derive(Debug, Clone, PartialEq, Eq)]
pub struct OfficialOrganizationalRoleAttributes {
    pub code: String,
    pub country: String,
    pub country_code: String,
    pub date_created: String,
    pub elf_code: String,
    pub jurisdiction: Option<String>,
    pub names: Vec<OfficialOrganizationalRoleName>,
    pub status: ELFStatus,
    pub subdivision_code: Option<String>,
}

/// One official organizational role name.
#[derive(Debug, Clone, PartialEq, Eq)]
pub struct OfficialOrganizationalRoleName {
    pub language: String,
    pub language_code: String,
    pub name: String,
    pub transliterated_name: String,
}

} // verus!
