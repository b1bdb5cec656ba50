use vstd::prelude::*;

use crate::base_attribute::BaseAttribute;
use crate::profession_class::ProfessionClass;
use crate::skill_definition::SkillDefinition;
use crate::talent_definition::TalentDefinition;
use crate::trapping::Trapping;

verus! {

/// One career layer of a character's history. A layer advances the attributes
/// it lists to a floor of five points per profession level, adds its
/// trappings, and contributes its talents.
#[derive(Debug)]
pub struct Profession {
    pub trappings: Vec<Trapping>,
    pub skills: Vec<SkillDefinition>,
    pub talents: Vec<TalentDefinition>,
    pub profession_level: u8,
    pub attributes: Vec<BaseAttribute>,
    pub name: String,
    pub class: ProfessionClass,
}

impl Profession {
    /// Every random talent pool of the layer is well-formed.
    pub open spec fn wf(&self) -> bool {
        forall|i: int| 0 <= i < self.talents@.len() ==> (#[trigger] self.talents@[i]).wf()
    }
}

} // verus!
