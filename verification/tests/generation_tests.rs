use std::cell::Cell;

use npc_generator::base_attribute::BaseAttribute;
use npc_generator::character_attribute::CharacterAttribute;
use npc_generator::generation_base::GenerationBase;
use npc_generator::generation_error::GenerationError;
use npc_generator::max_talent_level::AttributeDependentMaxTalentLevel;
use npc_generator::max_talent_level::FixedMaxTalentLevel;
use npc_generator::max_talent_level::MaxTalentLevel;
use npc_generator::non_playable_character_generator::NonPlayableCharacterGenerator;
use npc_generator::profession::Profession;
use npc_generator::profession_class::ProfessionClass;
use npc_generator::random_provider::RandomProvider;
use npc_generator::skill::Skill;
use npc_generator::species::Species;
use npc_generator::talent_definition::RandomTalentDefinition;
use npc_generator::talent_definition::SingularTalentDefinition;
use npc_generator::talent_definition::TalentDefinition;
use npc_generator::trapping::Trapping;

/// A deterministic provider: each die face is drawn from a running counter,
/// so every roll stays inside its range and successive rolls of one die walk
/// through its faces in order.
struct SequentialProvider {
    counter: Cell<u32>,
}

impl SequentialProvider {
    fn new() -> SequentialProvider {
        SequentialProvider { counter: Cell::new(0) }
    }
}

impl RandomProvider for SequentialProvider {
    fn generate(&self, base: &GenerationBase) -> u32 {
        let mut result = base.base_value;
        for face in base.dices.iter() {
            let roll = (self.counter.get() % *face) + 1;
            self.counter.set(self.counter.get().wrapping_add(1));
            result += roll;
        }
        result
    }
}

fn flat(v: u32) -> GenerationBase {
    GenerationBase { base_value: v, dices: vec![] }
}

fn six_skills() -> Vec<Skill> {
    let mut skills = Vec::new();
    for i in 0..6u32 {
        skills.push(Skill {
            name: format!("skill{}", i),
            value: 10 + i,
            base_attribute: BaseAttribute::Agility,
        });
    }
    skills
}

fn test_species() -> Species {
    Species {
        name: "human".into(),
        weapon_skill: flat(30),
        ballistic_skill: flat(31),
        strength: flat(30),
        toughness: flat(40),
        initiative: flat(32),
        agility: flat(33),
        dexterity: flat(34),
        intelligence: flat(35),
        willpower: flat(33),
        fellowship: flat(36),
        movement: 4,
        trappings: vec![],
        possible_talents: vec![],
        possible_skills: six_skills(),
    }
}

fn empty_class() -> ProfessionClass {
    ProfessionClass { name: "warrior".into(), trappings: vec![], skills: vec![], talents: vec![] }
}

fn profession(level: u8, attributes: Vec<BaseAttribute>) -> Profession {
    Profession {
        trappings: vec![],
        skills: vec![],
        talents: vec![],
        profession_level: level,
        attributes,
        name: "soldier".into(),
        class: empty_class(),
    }
}

fn singular(name: &str, max_level: MaxTalentLevel) -> TalentDefinition {
    TalentDefinition::Singular(SingularTalentDefinition {
        name: name.into(),
        max_level,
        description: "a talent".into(),
    })
}

fn fixed(n: u32) -> MaxTalentLevel {
    MaxTalentLevel::Fixed(FixedMaxTalentLevel { fixed_max_level: n })
}

#[test]
fn bonus_is_value_div_ten() {
    for v in 0..=100u32 {
        let attribute = CharacterAttribute::new(BaseAttribute::Strength, v);
        assert_eq!(attribute.bonus(), v / 10);
    }
    assert_eq!(CharacterAttribute::new(BaseAttribute::Strength, 33).bonus(), 3);
    assert_eq!(CharacterAttribute::new(BaseAttribute::Strength, 40).bonus(), 4);
}

#[test]
fn advance_never_regresses() {
    let mut attribute = CharacterAttribute::new(BaseAttribute::Strength, 30);
    attribute.advance(5);
    attribute.advance(2);
    assert_eq!(attribute.advances, 5);
    assert_eq!(attribute.value(), 35);
}

#[test]
fn increase_base_adds_permanently() {
    let mut attribute = CharacterAttribute::new(BaseAttribute::Strength, 30);
    attribute.increase_base(7);
    assert_eq!(attribute.value(), 37);
}

#[test]
fn wounds_formula() {
    // strength 30, toughness 40, willpower 33: 3 + 2*4 + 3 = 14.
    let generator = NonPlayableCharacterGenerator::new(SequentialProvider::new());
    let character = generator.generate(&vec![], &test_species()).unwrap();
    assert_eq!(character.wounds, 14);
    assert_eq!(character.movement, 4);
    assert_eq!(character.strength, 30);
    assert_eq!(character.toughness, 40);
}

#[test]
fn advancement_floor_ratchet() {
    // Layers of level 1 and 2 both advance Weapon Skill: the floor ends at
    // max(5, 10) = 10, not 15.
    let generator = NonPlayableCharacterGenerator::new(SequentialProvider::new());
    let professions = vec![
        profession(1, vec![BaseAttribute::WeaponSkill]),
        profession(2, vec![BaseAttribute::WeaponSkill]),
    ];
    let character = generator.generate(&professions, &test_species()).unwrap();
    assert_eq!(character.weapon_skill, 40);
    assert_eq!(character.ballistic_skill, 31);
}

#[test]
fn advancement_floor_order_irrelevant() {
    let generator = NonPlayableCharacterGenerator::new(SequentialProvider::new());
    let professions = vec![
        profession(2, vec![BaseAttribute::WeaponSkill]),
        profession(1, vec![BaseAttribute::WeaponSkill]),
    ];
    let character = generator.generate(&professions, &test_species()).unwrap();
    assert_eq!(character.weapon_skill, 40);
}

#[test]
fn duplicate_talent_levels_once() {
    // The same Fixed(3) talent twice: one instance at level 2.
    let mut species = test_species();
    species.possible_talents = vec![singular("hardy", fixed(3)), singular("hardy", fixed(3))];
    let generator = NonPlayableCharacterGenerator::new(SequentialProvider::new());
    let character = generator.generate(&vec![], &species).unwrap();
    assert_eq!(character.talents.len(), 1);
    assert_eq!(character.talents[0].name, "hardy");
    assert_eq!(character.talents[0].level, 2);
}

#[test]
fn talent_level_clamped_to_fixed_cap() {
    let mut species = test_species();
    species.possible_talents = vec![
        singular("hardy", fixed(2)),
        singular("hardy", fixed(2)),
        singular("hardy", fixed(2)),
        singular("hardy", fixed(2)),
    ];
    let generator = NonPlayableCharacterGenerator::new(SequentialProvider::new());
    let character = generator.generate(&vec![], &species).unwrap();
    assert_eq!(character.talents.len(), 1);
    assert_eq!(character.talents[0].level, 2);
}

#[test]
fn talent_cap_follows_attribute_bonus() {
    // Strength 30 has bonus 3: four occurrences stop at level 3.
    let cap = MaxTalentLevel::AttributeDependent(AttributeDependentMaxTalentLevel {
        attribute_determining_level: BaseAttribute::Strength,
    });
    let mut species = test_species();
    species.possible_talents = vec![
        singular("strong", cap.clone()),
        singular("strong", cap.clone()),
        singular("strong", cap.clone()),
        singular("strong", cap.clone()),
    ];
    let generator = NonPlayableCharacterGenerator::new(SequentialProvider::new());
    let character = generator.generate(&vec![], &species).unwrap();
    assert_eq!(character.talents.len(), 1);
    assert_eq!(character.talents[0].level, 3);
}

#[test]
fn random_pool_picks_a_candidate() {
    let mut species = test_species();
    species.possible_talents = vec![TalentDefinition::Random(RandomTalentDefinition {
        possible_talents: vec![
            SingularTalentDefinition {
                name: "lucky".into(),
                max_level: fixed(3),
                description: "a talent".into(),
            },
            SingularTalentDefinition {
                name: "doomed".into(),
                max_level: fixed(3),
                description: "a talent".into(),
            },
        ],
    })];
    let generator = NonPlayableCharacterGenerator::new(SequentialProvider::new());
    let character = generator.generate(&vec![], &species).unwrap();
    assert_eq!(character.talents.len(), 1);
    assert_eq!(character.talents[0].level, 1);
    assert!(character.talents[0].name == "lucky" || character.talents[0].name == "doomed");
}

#[test]
fn unique_dice_values_cover_domain() {
    let generator = NonPlayableCharacterGenerator::new(SequentialProvider::new());
    let mut values = generator.unique_dice_values(6, 6).unwrap();
    values.sort();
    assert_eq!(values, vec![1, 2, 3, 4, 5, 6]);
}

#[test]
fn unique_dice_values_reject_small_domain() {
    let generator = NonPlayableCharacterGenerator::new(SequentialProvider::new());
    assert_eq!(
        generator.unique_dice_values(3, 4),
        Err(GenerationError::SampleDomainTooSmall)
    );
}

/// A provider that plays back a fixed script of rolls.
struct ScriptedProvider {
    rolls: Vec<u32>,
    next: Cell<usize>,
}

impl RandomProvider for ScriptedProvider {
    fn generate(&self, base: &GenerationBase) -> u32 {
        let mut result = base.base_value;
        for _ in base.dices.iter() {
            result += self.rolls[self.next.get()];
            self.next.set(self.next.get() + 1);
        }
        result
    }
}

#[test]
fn unique_dice_values_discard_repeats() {
    // The second draw repeats the first and is discarded; the redraw delivers
    // a fresh value.
    let provider = ScriptedProvider { rolls: vec![2, 2, 3, 1, 4], next: Cell::new(0) };
    let generator = NonPlayableCharacterGenerator::new(provider);
    let values = generator.unique_dice_values(4, 4).unwrap();
    assert_eq!(values, vec![2, 3, 1, 4]);
}

#[test]
fn picked_skills_get_their_tiers() {
    // The counter provider picks positions 1 through 6 in order: the first
    // three skills advance by 5, the last three by 3.
    let generator = NonPlayableCharacterGenerator::new(SequentialProvider::new());
    let character = generator.generate(&vec![], &test_species()).unwrap();
    assert_eq!(character.skills.len(), 6);
    let expected_values = vec![15, 16, 17, 16, 17, 18];
    for i in 0..6usize {
        assert_eq!(character.skills[i].name, format!("skill{}", i));
        assert_eq!(character.skills[i].value, expected_values[i]);
    }
}

#[test]
fn trappings_stack_without_merging() {
    let mut species = test_species();
    species.trappings = vec![Trapping { name: "rope".into(), count: 1 }];
    let mut first = profession(1, vec![]);
    first.trappings = vec![Trapping { name: "rope".into(), count: 1 }];
    let mut second = profession(2, vec![]);
    second.trappings = vec![Trapping { name: "sword".into(), count: 2 }];
    let generator = NonPlayableCharacterGenerator::new(SequentialProvider::new());
    let character = generator.generate(&vec![first, second], &species).unwrap();
    let names: Vec<&str> = character.trappings.iter().map(|t| t.name.as_str()).collect();
    assert_eq!(names, vec!["rope", "rope", "sword"]);
}

#[test]
fn invalid_attribute_reference_is_reported() {
    let generator = NonPlayableCharacterGenerator::new(SequentialProvider::new());
    let professions = vec![profession(1, vec![BaseAttribute::Wounds])];
    assert!(matches!(
        generator.generate(&professions, &test_species()),
        Err(GenerationError::InvalidAttributeReference)
    ));
}

#[test]
fn forbidden_talent_dependency_is_reported() {
    let cap = MaxTalentLevel::AttributeDependent(AttributeDependentMaxTalentLevel {
        attribute_determining_level: BaseAttribute::Movement,
    });
    let mut species = test_species();
    species.possible_talents = vec![singular("swift", cap.clone()), singular("swift", cap)];
    let generator = NonPlayableCharacterGenerator::new(SequentialProvider::new());
    assert!(matches!(
        generator.generate(&vec![], &species),
        Err(GenerationError::ForbiddenTalentDependency)
    ));
}

#[test]
fn small_skill_pool_is_reported() {
    let mut species = test_species();
    species.possible_skills.truncate(5);
    let generator = NonPlayableCharacterGenerator::new(SequentialProvider::new());
    assert!(matches!(
        generator.generate(&vec![], &species),
        Err(GenerationError::SampleDomainTooSmall)
    ));
}

#[test]
fn rolled_attributes_stay_in_range() {
    let mut species = test_species();
    species.strength = GenerationBase { base_value: 20, dices: vec![10, 10] };
    let generator = NonPlayableCharacterGenerator::new(npc_generator::thread_based_random_provider::ThreadBasedRandomProvider {});
    let character = generator.generate(&vec![], &species).unwrap();
    assert!(character.strength >= 22 && character.strength <= 40);
}

#[test]
fn profession_talent_sees_own_layer_advancement() {
    // Strength starts at 30 (bonus 3); a level-2 layer that advances strength
    // first lifts it to 40 (bonus 4), so its own duplicated talent may reach
    // level 4 only through the advanced bonus.
    let cap = MaxTalentLevel::AttributeDependent(AttributeDependentMaxTalentLevel {
        attribute_determining_level: BaseAttribute::Strength,
    });
    let mut species = test_species();
    species.possible_talents = vec![
        singular("strong", cap.clone()),
        singular("strong", cap.clone()),
        singular("strong", cap.clone()),
        singular("strong", cap.clone()),
    ];
    let mut layer = profession(2, vec![BaseAttribute::Strength]);
    layer.talents = vec![singular("strong", cap.clone())];
    let generator = NonPlayableCharacterGenerator::new(SequentialProvider::new());
    let character = generator.generate(&vec![layer], &species).unwrap();
    // Species occurrences cap at the un-advanced bonus 3; the layer's own
    // occurrence sees strength 40 and lifts the talent to 4.
    assert_eq!(character.talents.len(), 1);
    assert_eq!(character.talents[0].level, 4);
    assert_eq!(character.strength, 40);
}

#[test]
fn equal_results_for_equal_draws() {
    let first = NonPlayableCharacterGenerator::new(SequentialProvider::new())
        .generate(&vec![], &test_species())
        .unwrap();
    let second = NonPlayableCharacterGenerator::new(SequentialProvider::new())
        .generate(&vec![], &test_species())
        .unwrap();
    assert_eq!(first.wounds, second.wounds);
    assert_eq!(first.skills.len(), second.skills.len());
    for i in 0..first.skills.len() {
        assert_eq!(first.skills[i].value, second.skills[i].value);
    }
}
