use vstd::prelude::*;

use crate::base_attribute::BaseAttribute;

verus! {

/// A cap that is the same number whatever the character looks like.
#[derive(Debug, Clone, Copy)]
pub struct FixedMaxTalentLevel {
    pub fixed_max_level: u32,
}

/// A cap equal to the bonus of one base attribute, read at the moment the
/// talent is merged.
#[derive(Debug, Clone, Copy)]
pub struct AttributeDependentMaxTalentLevel {
    pub attribute_determining_level: BaseAttribute,
}

/// A cap that should follow a named skill. Its resolution is an open product
/// decision; for now such a talent is capped at level 1.
#[derive(Debug, Clone)]
pub struct SkillDependentMaxTalentLevel {
    pub skill_determining_level: String,
}

/// How high repeated occurrences of a talent may push its level.
#[derive(Debug, Clone)]
pub enum MaxTalentLevel {
    Fixed(FixedMaxTalentLevel),
    AttributeDependent(AttributeDependentMaxTalentLevel),
    SkillDependent(SkillDependentMaxTalentLevel),
}

impl MaxTalentLevel {
    /// An owned copy of the policy.
    pub fn duplicate(&self) -> (r: Self)
        ensures
            r == *self,
    {
        match self {
            MaxTalentLevel::Fixed(f) => MaxTalentLevel::Fixed(FixedMaxTalentLevel { fixed_max_level: f.fixed_max_level }),
            MaxTalentLevel::AttributeDependent(a) => MaxTalentLevel::AttributeDependent(
                AttributeDependentMaxTalentLevel { attribute_determining_level: a.attribute_determining_level },
            ),
            MaxTalentLevel::SkillDependent(s) => MaxTalentLevel::SkillDependent(
                SkillDependentMaxTalentLevel { skill_determining_level: s.skill_determining_level.clone() },
            ),
        }
    }
}

} // verus!
