//! Data model of the API's responses.
pub mod api_response;
pub mod auto_completion;
pub mod common;
pub mod country;
pub mod data;
pub mod entity_legal_form;
pub mod enums;
pub mod field;
pub mod field_modification;
pub mod fuzzy_completion;
pub mod isin;
pub mod jurisdiction;
pub mod lei_issuer;
pub mod lei_record;
pub mod links;
pub mod meta;
pub mod official_organizational_role;
pub mod region;
pub mod registration_agent;
pub mod registration_authority;
pub mod relationship_record;
pub mod reporting_exception;
pub mod vlei_issuer;

use vstd::prelude::*;

verus! {

/// Response envelope of the `AutoCompletionList` shape.
pub type AutoCompletionList = common::GleifApiResponse<Vec<auto_completion::AutoCompletion>>;

/// Response envelope of the `Country` shape.
pub type Country = common::GleifApiResponse<country::Country>;

/// Response envelope of the `CountryList` shape.
pub type CountryList = common::GleifApiResponse<Vec<country::Country>>;

/// Response envelope of the `EntityLegalForm` shape.
pub type EntityLegalForm = common::GleifApiResponse<entity_legal_form::EntityLegalForm>;

/// Response envelope of the `EntityLegalFormList` shape.
pub type EntityLegalFormList = common::GleifApiResponse<Vec<entity_legal_form::EntityLegalForm>>;

/// Response envelope of the `Field` shape.
pub type Field = common::GleifApiResponse<field::Field>;

/// Response envelope of the `FieldList` shape.
pub type FieldList = common::GleifApiResponse<Vec<field::Field>>;

/// Response envelope of the `FieldModificationList` shape.
pub type FieldModificationList = common::GleifApiResponse<Vec<field_modification::FieldModification>>;

/// Response envelope of the `FuzzyCompletionList` shape.
pub type FuzzyCompletionList = common::GleifApiResponse<Vec<fuzzy_completion::FuzzyCompletion>>;

/// Response envelope of the `IsinList` shape.
pub type IsinList = common::GleifApiResponse<Vec<isin::Isin>>;

/// Response envelope of the `Jurisdiction` shape.
pub type Jurisdiction = common::GleifApiResponse<jurisdiction::Jurisdiction>;

/// Response envelope of the `JurisdictionList` shape.
pub type JurisdictionList = common::GleifApiResponse<Vec<jurisdiction::Jurisdiction>>;

/// Response envelope of the `LeiIssuer` shape.
pub type LeiIssuer = common::GleifApiResponse<lei_issuer::LeiIssuer>;

/// Response envelope of the `LeiIssuerList` shape.
pub type LeiIssuerList = common::GleifApiResponse<Vec<lei_issuer::LeiIssuer>>;

/// Response envelope of the `LeiIssuerJurisdictionList` shape.
pub type LeiIssuerJurisdictionList = common::GleifApiResponse<Vec<lei_issuer::LeiIssuerJurisdiction>>;

/// Response envelope of the `LeiRecord` shape.
pub type LeiRecord = common::GleifApiResponse<lei_record::LeiRecord>;

/// Response envelope of the `LeiRecordList` shape.
pub type LeiRecordList = common::GleifApiResponse<Vec<lei_record::LeiRecord>>;

/// Response envelope of the `OfficialOrganizationalRole` shape.
pub type OfficialOrganizationalRole = common::GleifApiResponse<official_organizational_role::OfficialOrganizationalRole>;

/// Response envelope of the `OfficialOrganizationalRoleList` shape.
pub type OfficialOrganizationalRoleList = common::GleifApiResponse<Vec<official_organizational_role::OfficialOrganizationalRole>>;

/// Response envelope of the `Region` shape.
pub type Region = common::GleifApiResponse<region::Region>;

/// Response envelope of the `RegionList` shape.
pub type RegionList = common::GleifApiResponse<Vec<region::Region>>;

/// Response envelope of the `RegistrationAgent` shape.
pub type RegistrationAgent = common::GleifApiResponse<registration_agent::RegistrationAgent>;

/// Response envelope of the `RegistrationAgentList` shape.
pub type RegistrationAgentList = common::GleifApiResponse<Vec<registration_agent::RegistrationAgent>>;

/// Response envelope of the `RegistrationAuthority` shape.
pub type RegistrationAuthority = common::GleifApiResponse<registration_authority::RegistrationAuthority>;

/// Response envelope of the `RegistrationAuthorityList` shape.
pub type RegistrationAuthorityList = common::GleifApiResponse<Vec<registration_authority::RegistrationAuthority>>;

/// Response envelope of the `RelationshipRecord` shape.
pub type RelationshipRecord = common::GleifApiResponse<relationship_record::RelationshipRecord>;

/// Response envelope of the `RelationshipRecordList` shape.
pub type RelationshipRecordList = common::GleifApiResponse<Vec<relationship_record::RelationshipRecord>>;

/// Response envelope of the `ReportingException` shape.
pub type ReportingException = common::GleifApiResponse<reporting_exception::ReportingException>;

/// Response envelope of the `VLeiIssuer` shape.
pub type VLeiIssuer = common::GleifApiResponse<vlei_issuer::VLeiIssuer>;

/// Response envelope of the `VLeiIssuerList` shape.
pub type VLeiIssuerList = common::GleifApiResponse<Vec<vlei_issuer::VLeiIssuer>>;

} // verus!
