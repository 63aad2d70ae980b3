//! Data model: LEI records.
use crate::model::{
    common::RelationshipLinks,
    enums::{
        AssociatedEntityType, ConformityFlag, CorroborationDocuments, CorroborationLevel,
        EntityCategory, EntityNameType, EntityStatus, EntitySubCategory, EventStatus, EventType,
        ExpirationReason, GroupType, OtherAddressType, RegistrationStatus, TransliteratedNameType,
    },
};
use vstd::prelude::*;

verus! {

/// One lei record.
#[derive(Clone, Debug, PartialEq)]
pub struct LeiRecord {
    pub attributes: LeiRecordAttributes,
    pub data_type: String,
    pub id: String,
    pub relationships: Relationships,
}

/// One lei record attributes.
#[derive(Clone, Debug, PartialEq)]
pub struct LeiRecordAttributes {
    pub bic: Option<Vec<String>>,
    pub conformity_flag: Option<ConformityFlag>,
    pub entity: Entity,
    pub lei: String,
    pub mic: Option<Vec<String>>,
    pub ocid: Option<String>,
    pub qcc: Option<String>,
    pub registration: Registration,
    pub spglobal: Option<Vec<String>>,
}

/// One entity.
#[derive(Clone, Debug, PartialEq)]
pub struct Entity {
    pub associated_entity: AssociatedEntity, //GeneralEntity,
    pub category: EntityCategory,
    pub creation_date: Option<String>,
    pub event_groups: Vec<EventGroup>,
    pub expiration: Expiration,
    pub headquarters_address: Address,
    pub jurisdiction: String,
    pub legal_address: Address,
    pub legal_form: LegalForm,
    pub legal_name: Name,
    pub other_addresses: Vec<OtherAddress>,
    pub other_names: Vec<OtherName>,
    pub registered_as: Option<String>,
    pub registered_at: RegistrationAuthority,
    pub status: EntityStatus,
    pub sub_category: Option<EntitySubCategory>,
    pub successor_entities: Vec<SuccessorEntity>,
    pub successor_entity: SuccessorEntity,
    pub transliterated_other_addresses: Option<Vec<OtherAddress>>,
    pub transliterated_other_names: Vec<TransliteratedOtherName>,
}

/// One name.
#[derive(Clone, Debug, PartialEq)]
pub struct Name {
    pub language: Option<String>,
    pub name: String,
}

/// One other name.
#[derive(Clone, Debug, PartialEq)]
pub struct OtherName {
    pub language: Option<String>,
    pub name: String,
    pub name_type: EntityNameType,
}

/// One transliterated other name.
#[derive(Clone, Debug, PartialEq)]
pub struct TransliteratedOtherName {
    pub language: Option<String>,
    pub name: String,
    pub name_type: TransliteratedNameType,
}

/// One address.
#[derive(Clone, Debug, PartialEq)]
pub struct Address {
    pub additional_address_line: Option<Vec<String>>,
    pub address_lines: Vec<String>,
    pub address_number: Option<String>,
    pub address_number_within_building: Option<String>,
    pub city: String,
    pub country: String,
    pub language: Option<String>,
    pub mail_routing: Option<String>,
    pub postal_code: Option<String>,
    pub region: Option<String>,
}

/// One other address.
#[derive(Clone, Debug, PartialEq)]
pub struct OtherAddress {
    pub additional_address_line: Option<Vec<String>>,
    pub address_lines: Vec<String>,
    pub address_number: Option<String>,
    pub address_number_within_building: Option<String>,
    pub address_type: OtherAddressType,
    pub city: String,
    pub country: String,
    pub field_type: String,
    pub language: Option<String>,
    pub mail_routing: Option<String>,
    pub postal_code: Option<String>,
    pub region: Option<String>,
}

/// One registration authority.
#[derive(Clone, Debug, PartialEq)]
pub struct RegistrationAuthority {
    pub entity_id: Option<String>,
    pub id: String,
    pub other: Option<String>,
}

/// One legal form.
#[derive(Clone, Debug, PartialEq)]
pub struct LegalForm {
    pub id: String,
    pub other: Option<String>,
}

/// One associated entity.
#[derive(Clone, Debug, PartialEq)]
pub struct AssociatedEntity {
    pub association_type: Option<AssociatedEntityType>,
    pub lei: Option<String>,
    pub name: Option<String>,
}

/// One expiration.
#[derive(Clone, Debug, PartialEq)]
pub struct Expiration {
    pub date: Option<String>,
    pub reason: Option<ExpirationReason>,
}

/// One successor entity.
#[derive(Clone, Debug, PartialEq)]
pub struct SuccessorEntity {
    pub lei: Option<String>,
    pub name: Option<String>,
}

/// One event group.
#[derive(Clone, Debug, PartialEq)]
pub struct EventGroup {
    pub events: Vec<Event>,
    pub group_type: GroupType,
}

/// One event.
#[derive(Clone, Debug, PartialEq)]
pub struct Event {
    pub affected_fields: Option<Vec<AffectedFields>>,
    pub effective_date: String,
    pub event_type: EventType,
    pub recorded_date: String,
    pub status: EventStatus,
    pub validation_documents: CorroborationDocuments,
    pub validation_reference: Option<String>,
}

/// One affected fields.
#[derive(Clone, Debug, PartialEq)]
pub struct AffectedFields {
    pub value: String,
    pub xpath: String,
}

/// One registration.
#[derive(Clone, Debug, PartialEq)]
pub struct Registration {
    pub corroboration_level: CorroborationLevel,
    pub initial_registration_date: String,
    pub last_update_date: String,
    pub managing_lou: String,
    pub next_renewal_date: String,
    pub other_validation_authorities: Vec<OtherValidationAuthority>,
    pub status: RegistrationStatus,
    pub validated_as: Option<String>,
    pub validated_at: ValidationAuthority,
}

/// One validation authority.
#[derive(Clone, Debug, PartialEq)]
pub struct ValidationAuthority {
    pub id: String,
    pub other: Option<String>,
}

/// One other validation authority.
#[derive(Clone, Debug, PartialEq)]
pub struct OtherValidationAuthority {
    pub validated_as: String,
    pub validated_at: ValidationAuthority,
}

/// One relationships.
#[derive(Clone, Debug, PartialEq)]
pub struct Relationships {
    pub branches: Option<RelationshipLinks>,
    pub direct_children: Option<RelationshipLinks>,
    pub direct_parent: Option<RelationshipLinks>,
    pub field_modifications: RelationshipLinks,
    pub fund_manager: Option<RelationshipLinks>,
    pub head_office: Option<RelationshipLinks>,
    pub isins: Option<RelationshipLinks>,
    pub lei_issuer: RelationshipLinks,
    pub managed_funds: Option<RelationshipLinks>,
    pub managing_lou: RelationshipLinks,
    pub successor_entities: Option<RelationshipLinks>,
    pub successor_entity: Option<RelationshipLinks>,
    pub ultimate_children: Option<RelationshipLinks>,
    pub ultimate_parent: Option<RelationshipLinks>,
    pub umbrella_fund: Option<RelationshipLinks>,
}

} // verus!
