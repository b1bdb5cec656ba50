use vstd::prelude::*;

use crate::skill_definition::SkillDefinition;
use crate::talent_definition::TalentDefinition;
use crate::trapping::Trapping;

verus! {

/// The class a profession belongs to, with the equipment, skills and talents
/// every member of the class shares.
#[derive(Debug)]
pub struct ProfessionClass {
    pub name: String,
    pub trappings: Vec<Trapping>,
    pub skills: Vec<SkillDefinition>,
    pub talents: Vec<TalentDefinition>,
}

} // verus!
