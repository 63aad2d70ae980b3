//! Data model: auto-completion suggestions.
use vstd::prelude::*;

verus! {

/// One auto completion.
#[derive(Clone, Debug, PartialEq)]
pub struct AutoCompletion {
    pub attributes: AutoCompletionAttributes,
    pub data_type: String,
}

/// One auto completion attributes.
#[derive(Clone, Debug, PartialEq)]
pub struct AutoCompletionAttributes {
    pub highlighting: String,
    pub value: String,
}

} // verus!
