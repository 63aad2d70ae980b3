//! Data model: relationship records.
use crate::model::common::RelationshipLinks;
use crate::model::enums::{

    CorroborationDocuments, CorroborationLevel, RegistrationStatus, RelationshipPeriodType,
    RelationshipStatus, RelationshipType,
};
use vstd::prelude::*;

verus! {

/// One relationship record.
#[derive(Debug, Clone, PartialEq, Eq)]
pub struct RelationshipRecord {
    pub attributes: RelationshipRecordAttributes,
    pub data_type: String,
    pub id: String,
    pub relationships: RelationshipRecordRelationships,
}

/// One relationship record attributes.
#[derive(Debug, Clone, PartialEq, Eq)]
pub struct RelationshipRecordAttributes {
    pub extension: RelationshipExtension,
    pub registration: RelationshipRegistration,
    pub relationship: RelationshipDetails,
    pub valid_from: String,
    pub valid_to: Option<String>,
}

/// One relationship details.
#[derive(Debug, Clone, PartialEq, Eq)]
pub struct RelationshipDetails {
    pub end_node: RelationshipNode,
    pub periods: Vec<RelationshipPeriod>,
    pub relationship_type: RelationshipType,
    pub start_node: RelationshipNode,
    pub status: RelationshipStatus,
}

/// One relationship node.
#[derive(Debug, Clone, PartialEq, Eq)]
pub struct RelationshipNode {
    pub id: String,
    pub node_type: String,
}

/// One relationship period.
#[derive(Debug, Clone, PartialEq, Eq)]
pub struct RelationshipPeriod {
    pub end_date: Option<String>,
    pub period_type: RelationshipPeriodType,
    pub start_date: String,
}

/// One relationship registration.
#[derive(Debug, Clone, PartialEq, Eq)]
pub struct RelationshipRegistration {
    pub corroboration_documents: CorroborationDocuments,
    pub corroboration_level: CorroborationLevel,
    pub corroboration_reference: Option<String>,
    pub initial_registration_date: String,
    pub last_update_date: Option<String>,
    pub managing_lou: String,
    pub next_renewal_date: String,
    pub status: RegistrationStatus,
}

/// One relationship extension.
#[derive(Debug, Clone, PartialEq, Eq)]
pub struct RelationshipExtension {
    pub deleted_at: Option<String>,
}

/// One relationship record relationships.
#[derive(Debug, Clone, PartialEq, Eq)]
pub struct RelationshipRecordRelationships {
    pub end_node: RelationshipLinks,
    pub start_node: RelationshipLinks,
}

} // verus!
