use vstd::prelude::*;

use crate::max_talent_level::MaxTalentLevel;

verus! {

/// A concrete talent instance accumulated during one generation call. Repeated
/// occurrences of the same definition raise `level` instead of adding a second
/// instance; duplicates are matched by name.
#[derive(Debug)]
pub struct Talent {
    pub name: String,
    pub level: u32,
    pub max_level: MaxTalentLevel,
    pub description: String,
}

} // verus!
