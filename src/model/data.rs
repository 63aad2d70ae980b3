//! Data model: an LEI record as the record endpoints return it.
use vstd::prelude::*;

verus! {

/// One data.
#[derive(Debug, PartialEq, Eq)]
pub struct Data {
    pub attributes: Attributes,
    pub data_type: String,
    pub id: String,
    pub relationships: Relationships,
}

/// One attributes.
#[derive(Debug, PartialEq, Eq)]
pub struct Attributes {
    pub bic: Option<Vec<String>>,
    pub conformity_flag: Option<ConformityFlag>,
    pub entity: Entity,
    pub lei: String,
    pub mic: Option<Vec<String>>,
    pub ocid: Option<String>,
    pub registration: Registration,
    pub spglobal: Option<Vec<String>>,
}

/// One entity.
#[derive(Debug, PartialEq, Eq)]
pub struct Entity {
    pub associated_entity: GeneralEntity,
    pub category: Category,
    pub creation_date: Option<String>,
    pub event_groups: Vec<String>,
    pub expiration: Expiration,
    pub headquarters_address: Address,
    pub jurisdiction: String,
    pub legal_address: Address,
    pub legal_form: LegalForm,
    pub legal_name: Name,
    pub other_addresses: Vec<Address>,
    pub other_names: Vec<Name>,
    pub registered_as: Option<String>,
    pub registered_at: RegisteredAt,
    pub status: EntityStatus,
    pub sub_category: Option<SubCategory>,
    pub successor_entities: Vec<GeneralEntity>,
    pub successor_entity: GeneralEntity,
    pub transliterated_other_names: Vec<Name>,
}

/// One name.
#[derive(Debug, PartialEq, Eq)]
pub struct Name {
    pub language: Option<String>,
    pub name: String,
    pub name_type: Option<String>,
}

/// One address.
#[derive(Debug, PartialEq, Eq)]
pub struct Address {
    pub address_lines: Vec<String>,
    pub address_number: Option<String>,
    pub address_number_within_building: Option<String>,
    pub address_type: Option<String>,
    pub city: String,
    pub country: String,
    pub language: Option<String>,
    pub mail_routing: Option<String>,
    pub postal_code: Option<String>,
    pub region: Option<String>,
}

/// One registered at.
#[derive(Debug, PartialEq, Eq)]
pub struct RegisteredAt {
    pub id: Option<String>,
    pub other: Option<String>,
}

/// The category values.
#[derive(Debug, PartialEq, Eq)]
pub enum Category {
    Branch,
    Fund,
    General,
    InternationalOrganization,
    ResidentGovernmentEntity,
    SoleProprietor,
}

/// The sub category values.
#[derive(Debug, PartialEq, Eq)]
#[allow(clippy::enum_variant_names)]
pub enum SubCategory {
    CentralGovernment,
    LocalGovernment,
    SocialGovernment,
    StateGovernment,
}

/// One event group.
#[derive(Debug, PartialEq, Eq)]
pub struct EventGroup {
    pub events: Vec<Event>,
    pub group_type: GroupType,
}

/// One event.
#[derive(Debug, PartialEq, Eq)]
pub struct Event {
    pub affected_fields: Option<Vec<AffectedField>>,
    pub effective_date: String,
    pub event_type: EventType,
    pub recorded_date: String,
    pub status: EventStatus,
    pub validation_documents: ValidationDocuments,
    pub validation_reference: Option<String>,
}

/// One affected field.
#[derive(Debug, PartialEq, Eq)]
pub struct AffectedField {
    pub value: String,
    pub xpath: String,
}

/// The event type values.
#[derive(Debug, PartialEq, Eq)]
pub enum EventType {
    ChangeHqAddress,
    ChangeLegalAddress,
    ChangeLegalForm,
    ChangeLegalName,
    Dissolution,
    Liquidation,
    MergersAndAcquisitions,
}

/// The event status values.
#[derive(Debug, PartialEq, Eq)]
pub enum EventStatus {
    Completed,
    InProgress,
    WithdrawnCancelled,
}

/// The validation documents values.
#[derive(Debug, PartialEq, Eq)]
pub enum ValidationDocuments {
    AccountsFiling,
    OtherOfficialDocuments,
    RegulatoryFiling,
    SupportingDocuments,
}

/// The group type values.
#[derive(Debug, PartialEq, Eq)]
pub enum GroupType {
    ChangeLegalFormAndName,
    Standalone,
}

/// One legal form.
#[derive(Debug, PartialEq, Eq)]
pub struct LegalForm {
    pub id: String,
    pub other: Option<String>,
}

/// One general entity.
#[derive(Debug, PartialEq, Eq)]
pub struct GeneralEntity {
    pub lei: Option<String>,
    pub name: Option<String>,
}

/// The entity status values.
#[derive(Debug, PartialEq, Eq)]
pub enum EntityStatus {
    Active,
    Inactive,
    Null,
}

/// One expiration.
#[derive(Debug, PartialEq, Eq)]
pub struct Expiration {
    pub date: Option<String>,
    pub reason: Option<String>,
}

/// The conformity flag values.
#[derive(Debug, PartialEq, Eq)]
pub enum ConformityFlag {
    Conforming,
    NonConforming,
    NotApplicable,
}

/// One registration.
#[derive(Debug, PartialEq, Eq)]
pub struct Registration {
    pub corroboration_level: CorroborationLevel,
    pub initial_registration_date: String,
    pub last_update_date: String,
    pub managing_lou: String,
    pub next_renewal_date: String,
    pub other_validation_authorities: Vec<OtherValidationAuthority>,
    pub status: RegistrationStatus,
    pub validated_as: Option<String>,
    pub validated_at: LegalForm,
}

/// The registration status values.
#[derive(Debug, PartialEq, Eq)]
pub enum RegistrationStatus {
    Annulled,
    Duplicate,
    Issued,
    Lapsed,
    Merged,
    PendingArchival,
    PendingTransfer,
    Retired,
}

/// The corroboration level values.
#[derive(Debug, PartialEq, Eq)]
pub enum CorroborationLevel {
    EntitySuppliedOnly,
    FullyCorroborated,
    PartiallyCorroborated,
}

/// One other validation authority.
#[derive(Debug, PartialEq, Eq)]
pub struct OtherValidationAuthority {
    pub validated_as: String,
    pub validated_at: LegalForm,
}

/// One relationships.
#[derive(Debug, PartialEq, Eq)]
pub struct Relationships {
    pub branches: Option<RelationshipLinks>,
    pub direct_children: Option<RelationshipLinks>,
    pub direct_parent: Option<RelationshipLinks>,
    pub field_modifications: RelationshipLinks,
    pub fund_manager: Option<RelationshipLinks>,
    pub head_office: Option<RelationshipLinks>,
    pub isins: Option<RelationshipLinks>,
    pub lei_issuer: RelationshipLinks,
    pub managed_funds: Option<RelationshipLinks>,
    pub managing_lou: RelationshipLinks,
    pub successor_entities: Option<RelationshipLinks>,
    pub successor_entity: Option<RelationshipLinks>,
    pub ultimate_children: Option<RelationshipLinks>,
    pub ultimate_parent: Option<RelationshipLinks>,
    pub umbrella_fund: Option<RelationshipLinks>,
}

/// One relationship links.
#[derive(Debug, PartialEq, Eq)]
pub struct RelationshipLinks {
    pub links: RelationshipData,
}

/// One relationship data.
#[derive(Debug, PartialEq, Eq)]
pub struct RelationshipData {
    pub lei_record: Option<String>,
    pub related: Option<String>,
    pub relationship_record: Option<String>,
    pub reporting_exception: Option<String>,
}

} // verus!
