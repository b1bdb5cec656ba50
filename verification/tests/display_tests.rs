use npc_generator::character::Character;
use npc_generator::character_attributes_iter::CharacterAttributesIter;
use npc_generator::console_character_displayer::ConsoleCharacterDisplayer;
use npc_generator::max_talent_level::FixedMaxTalentLevel;
use npc_generator::max_talent_level::MaxTalentLevel;
use npc_generator::skill::Skill;
use npc_generator::talent::Talent;
use npc_generator::trapping::Trapping;

fn sample_character() -> Character {
    Character {
        talents: vec![],
        skills: vec![],
        trappings: vec![],
        ballistic_skill: 1,
        weapon_skill: 1,
        strength: 1,
        toughness: 1,
        initiative: 1,
        agility: 1,
        dexterity: 2,
        intelligence: 1,
        willpower: 3,
        fellowship: 3,
        wounds: 2,
        movement: 1,
    }
}

#[test]
fn character_attribute_names() {
    let character = sample_character();
    let mut iter = CharacterAttributesIter::new(&character);
    let mut names: Vec<&str> = Vec::new();
    while let Some(row) = iter.next() {
        names.push(row.name);
    }
    assert_eq!(
        names,
        vec![
            "Weapon Skill",
            "Ballistic Skill",
            "Strength",
            "Toughness",
            "Initiative",
            "Agility",
            "Dexterity",
            "Intelligence",
            "Willpower",
            "FellowShip",
            "Wounds",
            "Movement",
        ]
    );
}

#[test]
fn create_table_record_test() {
    assert_eq!(ConsoleCharacterDisplayer::create_table_record("1", 2), "1 |")
}

#[test]
fn create_talents_table_test() {
    let talents = vec![Talent {
        name: "Tal".into(),
        level: 1,
        max_level: MaxTalentLevel::Fixed(FixedMaxTalentLevel { fixed_max_level: 3 }),
        description: "Desc".into(),
    }];
    assert_eq!(
        ConsoleCharacterDisplayer::create_talent_table(&talents),
        "Talent        |Tal|\nLevels        |1  |\n"
    )
}

#[test]
fn table_wraps_long_rows() {
    // Sixteen three-wide cells at a fourteen-character prefix leave room for
    // fifteen columns per chunk, so the sixteenth wraps into a second chunk.
    let mut talents: Vec<Talent> = Vec::new();
    for _ in 0..16 {
        talents.push(Talent {
            name: "abc".into(),
            level: 1,
            max_level: MaxTalentLevel::Fixed(FixedMaxTalentLevel { fixed_max_level: 3 }),
            description: "Desc".into(),
        });
    }
    let table = ConsoleCharacterDisplayer::create_talent_table(&talents);
    let expected = format!(
        "Talent        |{}\nLevels        |{}\nTalent        |abc|\nLevels        |1  |\n",
        "abc|".repeat(15),
        "1  |".repeat(15)
    );
    assert_eq!(table, expected);
}

#[test]
fn full_character_display() {
    let mut character = sample_character();
    character.talents = vec![Talent {
        name: "Tal".into(),
        level: 2,
        max_level: MaxTalentLevel::Fixed(FixedMaxTalentLevel { fixed_max_level: 3 }),
        description: "Desc".into(),
    }];
    character.skills = vec![Skill {
        name: "Row".into(),
        value: 31,
        base_attribute: npc_generator::base_attribute::BaseAttribute::Strength,
    }];
    character.trappings = vec![Trapping { name: "Rope".into(), count: 2 }];
    let text = ConsoleCharacterDisplayer::new().print(&character);
    assert!(text.starts_with("---Talents---\n\nTalent        |Tal|\nLevels        |2  |\n"));
    assert!(text.contains("---Skills---\n\nSkill         |Row|\nValues        |31 |\n"));
    assert!(text.contains("---Trappings---\n\nTrapping      |Rope|\nCount         |2   |\n"));
    assert!(
        text.contains("---General Skills---\n\nGeneral Skill |Weapon Skill   |Ballistic Skill|")
    );
}
