//! Data model: registration agents.
use vstd::prelude::*;

verus! {

/// One registration agent.
#[derive(Debug, Clone, PartialEq, Eq)]
pub struct RegistrationAgent {
    pub attributes: RegistrationAgentAttributes,
    pub data_type: String,
    pub id: String,
}

/// One registration agent attributes.
#[derive(Debug, Clone, PartialEq, Eq)]
pub struct RegistrationAgentAttributes {
    pub lei: Option<String>,
    pub lei_issuer: String,
    pub name: String,
    pub websites: Vec<String>,
}

} // verus!
