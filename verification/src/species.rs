use vstd::prelude::*;

use crate::consts::MAX_ADVANCEMENT_FLOOR;
use crate::generation_base::GenerationBase;
use crate::skill::Skill;
use crate::talent_definition::TalentDefinition;
use crate::trapping::Trapping;

verus! {

/// How many skill positions one generation call draws from the species' pool
/// of possible skills.
pub const PICKED_SKILL_COUNT: u32 = 6;

/// Points added to the value of each of the first three picked skills.
pub const FIRST_TIER_SKILL_ADVANCE: u32 = 5;

/// Points added to the value of each of the last three picked skills.
pub const SECOND_TIER_SKILL_ADVANCE: u32 = 3;

/// A species template: one dice expression per core statistic, a fixed
/// movement value that is never rolled, and the trappings, talents and
/// possible skills the species contributes. Read-only during generation.
#[derive(Debug)]
pub struct Species {
    pub name: String,
    pub weapon_skill: GenerationBase,
    pub ballistic_skill: GenerationBase,
    pub strength: GenerationBase,
    pub toughness: GenerationBase,
    pub initiative: GenerationBase,
    pub agility: GenerationBase,
    pub dexterity: GenerationBase,
    pub intelligence: GenerationBase,
    pub willpower: GenerationBase,
    pub fellowship: GenerationBase,
    pub movement: u32,
    pub trappings: Vec<Trapping>,
    pub possible_talents: Vec<TalentDefinition>,
    pub possible_skills: Vec<Skill>,
}

impl Species {
    /// The ten attribute dice expressions in the canonical attribute order.
    pub open spec fn attribute_bases(&self) -> Seq<GenerationBase> {
        seq![
            self.weapon_skill,
            self.ballistic_skill,
            self.strength,
            self.toughness,
            self.initiative,
            self.agility,
            self.dexterity,
            self.intelligence,
            self.willpower,
            self.fellowship,
        ]
    }

    /// Machine limits a species template must respect so that generation never
    /// overflows: each attribute expression is a well-formed dice expression
    /// whose highest outcome leaves room for the highest advancement floor,
    /// every random talent pool is well-formed, the possible-skill pool is
    /// addressable by a die, and each possible skill's value leaves room for
    /// the skill advancement tiers.
    pub open spec fn wf(&self) -> bool {
        &&& forall|i: int|
            0 <= i < 10 ==> {
                &&& (#[trigger] self.attribute_bases()[i]).wf()
                &&& self.attribute_bases()[i].spec_upper() + MAX_ADVANCEMENT_FLOOR <= u32::MAX
            }
        &&& forall|i: int|
            0 <= i < self.possible_talents@.len() ==> (#[trigger] self.possible_talents@[i]).wf()
        &&& self.possible_skills@.len() <= u32::MAX
        &&& forall|i: int|
            0 <= i < self.possible_skills@.len() ==> (#[trigger] self.possible_skills@[i]).value
                + FIRST_TIER_SKILL_ADVANCE <= u32::MAX
    }
}

} // verus!
