//! Data model: modifications of record fields.
use vstd::prelude::*;

verus! {

/// One field modification.
#[derive(Debug, Clone, PartialEq, Eq)]
pub struct FieldModification {
    pub attributes: FieldModificationAttributes,
    pub data_type: String,
    pub id: String,
}

/// One field modification attributes.
#[derive(Debug, Clone, PartialEq, Eq)]
pub struct FieldModificationAttributes {
    pub context: Option<FieldModificationContext>,
    pub date: String,
    pub field: String,
    pub lei: String,
    pub modification_type: String,
    pub record_type: String,
    pub value_new: String,
    pub value_old: Option<String>,
}

/// One field modification context.
#[derive(Debug, Clone, PartialEq, Eq)]
pub struct FieldModificationContext {
    pub end_node: Option<String>,
    pub exception_category: Option<String>,
    pub relationship_type: Option<String>,
}

} // verus!
