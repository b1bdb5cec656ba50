use vstd::prelude::*;

use crate::skill::Skill;
use crate::talent::Talent;
use crate::trapping::Trapping;

verus! {

/// The finished character: resolved talents, skills and trappings, the ten
/// attribute values, the derived wounds, and the species' movement. Immutable
/// once produced.
#[derive(Debug)]
pub struct Character {
    pub talents: Vec<Talent>,
    pub skills: Vec<Skill>,
    pub trappings: Vec<Trapping>,
    pub weapon_skill: u32,
    pub ballistic_skill: u32,
    pub strength: u32,
    pub toughness: u32,
    pub initiative: u32,
    pub agility: u32,
    pub dexterity: u32,
    pub intelligence: u32,
    pub willpower: u32,
    pub fellowship: u32,
    pub wounds: u32,
    pub movement: u32,
}

} // verus!
