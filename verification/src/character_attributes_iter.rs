use vstd::prelude::*;

use crate::character::Character;

verus! {

/// One display row of a character's general statistics: a fixed label and the
/// statistic's value.
#[derive(Debug)]
pub struct CharacterAttribute {
    pub name: &'static str,
    pub level: u32,
}

/// The label of the display row at a given position.
pub open spec fn spec_attribute_name(i: int) -> Seq<char> {
    if i == 0 {
        "Weapon Skill"@
    } else if i == 1 {
        "Ballistic Skill"@
    } else if i == 2 {
        "Strength"@
    } else if i == 3 {
        "Toughness"@
    } else if i == 4 {
        "Initiative"@
    } else if i == 5 {
        "Agility"@
    } else if i == 6 {
        "Dexterity"@
    } else if i == 7 {
        "Intelligence"@
    } else if i == 8 {
        "Willpower"@
    } else if i == 9 {
        "FellowShip"@
    } else if i == 10 {
        "Wounds"@
    } else {
        "Movement"@
    }
}

/// The value of the display row at a given position.
pub open spec fn spec_attribute_level(c: Character, i: int) -> u32 {
    if i == 0 {
        c.weapon_skill
    } else if i == 1 {
        c.ballistic_skill
    } else if i == 2 {
        c.strength
    } else if i == 3 {
        c.toughness
    } else if i == 4 {
        c.initiative
    } else if i == 5 {
        c.agility
    } else if i == 6 {
        c.dexterity
    } else if i == 7 {
        c.intelligence
    } else if i == 8 {
        c.willpower
    } else if i == 9 {
        c.fellowship
    } else if i == 10 {
        c.wounds
    } else {
        c.movement
    }
}

/// A cursor over the twelve display rows of a character's general statistics,
/// in the fixed display order.
#[derive(Debug)]
pub struct CharacterAttributesIter<'a> {
    character: &'a Character,
    index: usize,
}

impl<'a> CharacterAttributesIter<'a> {
    /// Which character the cursor walks.
    pub closed spec fn spec_character(&self) -> Character {
        *self.character
    }

    /// How many rows were handed out already.
    pub closed spec fn spec_index(&self) -> int {
        self.index as int
    }

    pub fn new(character: &'a Character) -> (r: Self)
        ensures
            r.spec_character() == *character,
            r.spec_index() == 0,
    {
        Self { character, index: 0 }
    }

    /// The next display row, or nothing once all twelve were handed out.
    pub fn next(&mut self) -> (r: Option<CharacterAttribute>)
        ensures
            final(self).spec_character() == old(self).spec_character(),
            match r {
                Some(row) => {
                    &&& old(self).spec_index() < 12
                    &&& final(self).spec_index() == old(self).spec_index() + 1
                    &&& row.name@ == spec_attribute_name(old(self).spec_index())
                    &&& row.level == spec_attribute_level(
                        old(self).spec_character(),
                        old(self).spec_index(),
                    )
                },
                None => old(self).spec_index() >= 12 && final(self).spec_index() == old(
                    self,
                ).spec_index(),
            },
    {
        let row = if self.index == 0 {
            CharacterAttribute { name: "Weapon Skill", level: self.character.weapon_skill }
        } else if self.index == 1 {
            CharacterAttribute { name: "Ballistic Skill", level: self.character.ballistic_skill }
        } else if self.index == 2 {
            CharacterAttribute { name: "Strength", level: self.character.strength }
        } else if self.index == 3 {
            CharacterAttribute { name: "Toughness", level: self.character.toughness }
        } else if self.index == 4 {
            CharacterAttribute { name: "Initiative", level: self.character.initiative }
        } else if self.index == 5 {
            CharacterAttribute { name: "Agility", level: self.character.agility }
        } else if self.index == 6 {
            CharacterAttribute { name: "Dexterity", level: self.character.dexterity }
        } else if self.index == 7 {
            CharacterAttribute { name: "Intelligence", level: self.character.intelligence }
        } else if self.index == 8 {
            CharacterAttribute { name: "Willpower", level: self.character.willpower }
        } else if self.index == 9 {
            CharacterAttribute { name: "FellowShip", level: self.character.fellowship }
        } else if self.index == 10 {
            CharacterAttribute { name: "Wounds", level: self.character.wounds }
        } else if self.index == 11 {
            CharacterAttribute { name: "Movement", level: self.character.movement }
        } else {
            return None;
        };
        self.index += 1;
        Some(row)
    }
}

} // verus!
