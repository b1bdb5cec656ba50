use vstd::prelude::*;

use crate::base_attribute::BaseAttribute;

verus! {

/// A named skill with a concrete value, tied to the base attribute it tests.
#[derive(Debug)]
pub struct Skill {
    pub name: String,
    pub value: u32,
    pub base_attribute: BaseAttribute,
}

} // verus!
