use vstd::prelude::*;

use crate::base_attribute::BaseAttribute;

verus! {

/// A skill as a catalog entry: a name and the base attribute it tests, with
/// no value yet.
#[derive(Debug)]
pub struct SkillDefinition {
    pub name: String,
    pub base_attribute: BaseAttribute,
}

} // verus!
