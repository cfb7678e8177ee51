//! Catalog entries: one user-editable tweak backed by one registry
//! location.

use vstd::prelude::*;
use vstd::string::StringExecFns;

use crate::def::RegDef;

verus! {

/// One candidate value of a tweak, with its user-facing description.
#[derive(Debug)]
pub struct OptionCandidate {
    pub value: String,
    pub description: String,
}

impl OptionCandidate {
    pub fn new(value: &str, description: &str) -> (r: Self)
        ensures
            r.value@ == value@,
            r.description@ == description@,
    {
        Self { value: String::from_str(value), description: String::from_str(description) }
    }
}

/// One tweak of the catalog: a numeric id, a label, the registry location
/// it edits, and the ordered candidate values the user may choose from.
#[derive(Debug)]
pub struct RegistryEditOption {
    pub id: u64,
    pub label: String,
    pub def: RegDef,
    pub values: Vec<OptionCandidate>,
}

} // verus!
