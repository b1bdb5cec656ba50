use vstd::prelude::*;

use crate::base_attribute::BaseAttribute;

verus! {

/// The mutable staging form of one base statistic during a generation call:
/// the rolled base and the advances earned from profession layers. Advances
/// only ever ratchet upward.
#[derive(Clone, Copy, Debug)]
pub struct CharacterAttribute {
    pub id: BaseAttribute,
    pub base_value: u32,
    pub advances: u32,
}

impl CharacterAttribute {
    /// The attribute's current value: base plus advances.
    pub open spec fn spec_value(self) -> int {
        self.base_value + self.advances
    }

    /// The attribute's bonus tier: its value divided by ten, rounding down.
    pub open spec fn spec_bonus(self) -> int {
        self.spec_value() / 10
    }

    /// The attribute after a profession layer proposed an advancement floor:
    /// advances never regress, so the new advances are the larger of the
    /// current advances and the floor.
    pub open spec fn spec_advanced(self, advancement_floor: u32) -> CharacterAttribute {
        CharacterAttribute {
            advances: if advancement_floor > self.advances {
                advancement_floor
            } else {
                self.advances
            },
            ..self
        }
    }

    pub fn new(id: BaseAttribute, base: u32) -> (r: CharacterAttribute)
        ensures
            r == (CharacterAttribute { id, base_value: base, advances: 0 }),
    {
        CharacterAttribute { id, base_value: base, advances: 0 }
    }

    /// Raise the advances to at least the proposed floor; a floor below the
    /// current advances changes nothing.
    pub fn advance(&mut self, advancement_floor: u32)
        ensures
            *final(self) == old(self).spec_advanced(advancement_floor),
    {
        self.advances = if advancement_floor > self.advances {
            advancement_floor
        } else {
            self.advances
        };
    }

    /// Permanently add to the rolled base; reserved for fixed boosts.
    pub fn increase_base(&mut self, value: u32)
        requires
            old(self).base_value + value <= u32::MAX,
        ensures
            *final(self) == (CharacterAttribute {
                base_value: (old(self).base_value + value) as u32,
                ..*old(self)
            }),
    {
        self.base_value = self.base_value + value;
    }

    pub fn is_attribute(&self, attr: BaseAttribute) -> (r: bool)
        ensures
            r == (attr == self.id),
    {
        attr == self.id
    }

    pub fn value(&self) -> (r: u32)
        requires
            self.spec_value() <= u32::MAX,
        ensures
            r == self.spec_value(),
    {
        self.base_value + self.advances
    }

    pub fn bonus(&self) -> (r: u32)
        requires
            self.spec_value() <= u32::MAX,
        ensures
            r == self.spec_bonus(),
    {
        self.value() / 10
    }
}

/// Advancement floors ratchet: raising an attribute by one floor and then by a
/// lower (or equal) one leaves exactly the first advancement in place, and two
/// floors applied in either order meet at the larger of the two.
pub proof fn lemma_advance_ratchet(a: CharacterAttribute, first: u32, second: u32)
    requires
        second <= first,
    ensures
        a.spec_advanced(first).spec_advanced(second) == a.spec_advanced(first),
        a.spec_advanced(second).spec_advanced(first) == a.spec_advanced(first),
{
}

} // verus!
