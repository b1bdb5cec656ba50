use vstd::prelude::*;

verus! {

/// The fixed, totally ordered enumeration of the ten core statistics, plus the
/// two derived quantities (wounds and movement) that exist as identifiers but
/// are never advanced and must never cap a talent's level.
#[derive(PartialEq, Eq, Structural, PartialOrd, Ord, Clone, Copy, Debug, Hash)]
pub enum BaseAttribute {
    WeaponSkill,
    BallisticSkill,
    Strength,
    Toughness,
    Initiative,
    Agility,
    Dexterity,
    Intelligence,
    Willpower,
    Fellowship,
    Wounds,
    Movement,
}

impl BaseAttribute {
    /// Position of this attribute in the canonical order; the ten core
    /// statistics occupy slots 0 through 9.
    pub open spec fn spec_slot(self) -> int {
        match self {
            BaseAttribute::WeaponSkill => 0,
            BaseAttribute::BallisticSkill => 1,
            BaseAttribute::Strength => 2,
            BaseAttribute::Toughness => 3,
            BaseAttribute::Initiative => 4,
            BaseAttribute::Agility => 5,
            BaseAttribute::Dexterity => 6,
            BaseAttribute::Intelligence => 7,
            BaseAttribute::Willpower => 8,
            BaseAttribute::Fellowship => 9,
            BaseAttribute::Wounds => 10,
            BaseAttribute::Movement => 11,
        }
    }

    /// An attribute is a core statistic when a profession layer may advance it
    /// and a talent's level may depend on it.
    pub open spec fn is_core(self) -> bool {
        self.spec_slot() < 10
    }

    pub fn slot(&self) -> (r: usize)
        ensures
            r == self.spec_slot(),
    {
        match self {
            BaseAttribute::WeaponSkill => 0,
            BaseAttribute::BallisticSkill => 1,
            BaseAttribute::Strength => 2,
            BaseAttribute::Toughness => 3,
            BaseAttribute::Initiative => 4,
            BaseAttribute::Agility => 5,
            BaseAttribute::Dexterity => 6,
            BaseAttribute::Intelligence => 7,
            BaseAttribute::Willpower => 8,
            BaseAttribute::Fellowship => 9,
            BaseAttribute::Wounds => 10,
            BaseAttribute::Movement => 11,
        }
    }
}

/// The core attribute stored at a given slot of the canonical order.
pub open spec fn core_attribute_at(i: int) -> BaseAttribute {
    if i == 0 {
        BaseAttribute::WeaponSkill
    } else if i == 1 {
        BaseAttribute::BallisticSkill
    } else if i == 2 {
        BaseAttribute::Strength
    } else if i == 3 {
        BaseAttribute::Toughness
    } else if i == 4 {
        BaseAttribute::Initiative
    } else if i == 5 {
        BaseAttribute::Agility
    } else if i == 6 {
        BaseAttribute::Dexterity
    } else if i == 7 {
        BaseAttribute::Intelligence
    } else if i == 8 {
        BaseAttribute::Willpower
    } else {
        BaseAttribute::Fellowship
    }
}

/// The canonical order is consistent: the attribute at slot `i` has slot `i`,
/// and every core attribute is found again at its own slot.
pub proof fn lemma_core_attribute_slots()
    ensures
        forall|i: int| 0 <= i < 10 ==> (#[trigger] core_attribute_at(i)).spec_slot() == i,
        forall|a: BaseAttribute| a.is_core() ==> core_attribute_at(a.spec_slot()) == a,
{
}

} // verus!
