use vstd::prelude::*;

use crate::base_attribute::BaseAttribute;
use crate::base_attribute::lemma_core_attribute_slots;
use crate::character::Character;
use crate::character_attribute::CharacterAttribute;
use crate::character_generator::CharacterGenerator;
use crate::generation_base::GenerationBase;
use crate::generation_base::lemma_sum_faces_push;
use crate::generation_error::GenerationError;
use crate::generation_model::GenerationState;
use crate::generation_model::attrs_wf;
use crate::generation_model::cand_lists_admissible;
use crate::generation_model::candidate_of;
use crate::generation_model::candidates_admissible;
use crate::generation_model::clean_inputs;
use crate::generation_model::forbidden_policy;
use crate::generation_model::generated_character;
use crate::generation_model::generation_error_justified;
use crate::generation_model::generation_witnesses;
use crate::generation_model::has_forbidden_talent_dependency;
use crate::generation_model::has_invalid_attribute_reference;
use crate::generation_model::initial_attributes;
use crate::generation_model::lemma_advance_all_preserves_wf;
use crate::generation_model::lemma_advance_all_step;
use crate::generation_model::lemma_apply_candidates_push;
use crate::generation_model::lemma_apply_professions_push;
use crate::generation_model::lemma_attrs_wf_values_fit;
use crate::generation_model::lemma_first_name_match_found;
use crate::generation_model::lemma_first_name_match_none;
use crate::generation_model::lemma_forbidden_candidate;
use crate::generation_model::lemma_full_coverage_len;
use crate::generation_model::lemma_merge_err;
use crate::generation_model::lemma_merge_policies;
use crate::generation_model::listed_attrs_valid;
use crate::generation_model::picks_admissible;
use crate::generation_model::policies_accounted;
use crate::generation_model::rolled_bases_admissible;
use crate::generation_model::spec_advance_all;
use crate::generation_model::spec_apply_candidates;
use crate::generation_model::spec_apply_profession;
use crate::generation_model::spec_apply_professions;
use crate::generation_model::spec_floor;
use crate::generation_model::spec_generation_result;
use crate::generation_model::spec_merge;
use crate::generation_model::spec_picked_skill;
use crate::generation_model::spec_picked_skills;
use crate::generation_model::spec_talent_of;
use crate::max_talent_level::MaxTalentLevel;
use crate::profession::Profession;
use crate::random_provider::RandomProvider;
use crate::skill::Skill;
use crate::species::FIRST_TIER_SKILL_ADVANCE;
use crate::species::PICKED_SKILL_COUNT;
use crate::species::SECOND_TIER_SKILL_ADVANCE;
use crate::species::Species;
use crate::talent::Talent;
use crate::talent_definition::TalentDefinition;
use crate::trapping::Trapping;

verus! {

/// How many redraws one unique-sample slot may consume before the sampler
/// completes the draw deterministically with the smallest missing value. The
/// bound keeps the sampler total; a scripted provider that eventually offers a
/// fresh value never reaches it.
pub const UNIQUE_ROLL_RETRY_LIMIT: usize = 1024;

/// Whether the values collected so far already hold `target`.
#[verifier::loop_isolation(false)]
fn contains_value(values: &Vec<u32>, target: u32) -> (r: bool)
    ensures
        r == values@.contains(target),
{
    let mut i: usize = 0;
    while i < values.len()
        invariant
            i <= values@.len(),
            forall|j: int| 0 <= j < i ==> values@[j] != target,
        decreases values@.len() - i,
    {
        if values[i] == target {
            return true;
        }
        i += 1;
    }
    false
}

/// The smallest value of the sample domain that was not collected yet; one
/// always exists while fewer values than the domain holds were collected.
#[verifier::loop_isolation(false)]
fn first_missing_value(values: &Vec<u32>, dice: u32) -> (r: u32)
    requires
        values@.no_duplicates(),
        forall|i: int| 0 <= i < values@.len() ==> 1 <= #[trigger] values@[i] <= dice,
        values@.len() < dice,
    ensures
        1 <= r <= dice,
        !values@.contains(r),
{
    let limit: u64 = (values.len() + 1) as u64;
    let mut v: u64 = 1;
    while v <= limit
        invariant
            1 <= v <= limit + 1,
            forall|w: u32| 1 <= w < v ==> values@.contains(w),
        decreases limit + 1 - v,
    {
        if !contains_value(values, v as u32) {
            return v as u32;
        }
        v += 1;
    }
    proof {
        lemma_full_coverage_len(values@, limit as int);
        assert(false);
    }
    vstd::pervasive::unreached()
}

/// The mutable staging aggregate one generation call folds over: accumulated
/// talents, skills and trappings, the ten staging attributes in canonical
/// order, and the species' movement.
pub struct CharacterPrototype {
    pub talents: Vec<Talent>,
    pub skills: Vec<Skill>,
    pub trappings: Vec<Trapping>,
    pub attributes: Vec<CharacterAttribute>,
    pub movement: u32,
}

impl CharacterPrototype {
    /// Ten staging attributes whose values fit the result type.
    pub open spec fn wf(&self) -> bool {
        &&& self.attributes@.len() == 10
        &&& forall|i: int|
            0 <= i < 10 ==> (#[trigger] self.attributes@[i]).spec_value() <= u32::MAX
    }

    /// Freeze the staging aggregate into the immutable character: each
    /// attribute's value is read off, and wounds are derived as the strength
    /// bonus plus twice the toughness bonus plus the willpower bonus.
    pub fn consume(self) -> (r: Character)
        requires
            self.wf(),
        ensures
            r.talents@ == self.talents@,
            r.skills@ == self.skills@,
            r.trappings@ == self.trappings@,
            r.weapon_skill == self.attributes@[0].spec_value(),
            r.ballistic_skill == self.attributes@[1].spec_value(),
            r.strength == self.attributes@[2].spec_value(),
            r.toughness == self.attributes@[3].spec_value(),
            r.initiative == self.attributes@[4].spec_value(),
            r.agility == self.attributes@[5].spec_value(),
            r.dexterity == self.attributes@[6].spec_value(),
            r.intelligence == self.attributes@[7].spec_value(),
            r.willpower == self.attributes@[8].spec_value(),
            r.fellowship == self.attributes@[9].spec_value(),
            r.wounds == self.attributes@[2].spec_bonus() + 2 * self.attributes@[3].spec_bonus()
                + self.attributes@[8].spec_bonus(),
            r.movement == self.movement,
    {
        proof {
            vstd::arithmetic::div_mod::lemma_div_is_ordered(
                self.attributes@[2].spec_value(),
                u32::MAX as int,
                10,
            );
            vstd::arithmetic::div_mod::lemma_div_is_ordered(
                self.attributes@[3].spec_value(),
                u32::MAX as int,
                10,
            );
            vstd::arithmetic::div_mod::lemma_div_is_ordered(
                self.attributes@[8].spec_value(),
                u32::MAX as int,
                10,
            );
        }
        let wounds = self.attributes[2].bonus() + 2 * self.attributes[3].bonus()
            + self.attributes[8].bonus();
        Character {
            weapon_skill: self.attributes[0].value(),
            ballistic_skill: self.attributes[1].value(),
            strength: self.attributes[2].value(),
            toughness: self.attributes[3].value(),
            initiative: self.attributes[4].value(),
            agility: self.attributes[5].value(),
            dexterity: self.attributes[6].value(),
            intelligence: self.attributes[7].value(),
            willpower: self.attributes[8].value(),
            fellowship: self.attributes[9].value(),
            wounds,
            movement: self.movement,
            talents: self.talents,
            skills: self.skills,
            trappings: self.trappings,
        }
    }
}

/// Merge one materialized candidate into the accumulated talents: a candidate
/// whose name is already present raises that talent's level by one, clamped to
/// its cap read against the current attribute state; a new name is appended at
/// level 1. A cap depending on wounds or movement is a configuration error.
#[verifier::loop_isolation(false)]
pub fn merge_talent(
    talents: &mut Vec<Talent>,
    candidate: Talent,
    attributes: &Vec<CharacterAttribute>,
) -> (r: Result<(), GenerationError>)
    requires
        attributes@.len() == 10,
        forall|i: int| 0 <= i < 10 ==> (#[trigger] attributes@[i]).spec_value() <= u32::MAX,
    ensures
        match spec_merge(old(talents)@, candidate, attributes@) {
            Ok(t) => r == Ok::<(), GenerationError>(()) && final(talents)@ == t,
            Err(e) => r == Err::<(), GenerationError>(e) && final(talents)@ == old(talents)@,
        },
{
    let ghost orig = talents@;
    let mut i: usize = 0;
    while i < talents.len()
        invariant
            i <= talents@.len(),
            talents@ == orig,
            forall|j: int| 0 <= j < i ==> (#[trigger] talents@[j]).name@ != candidate.name@,
        decreases talents@.len() - i,
    {
        if talents[i].name == candidate.name {
            proof {
                lemma_first_name_match_found(talents@, candidate.name@, i as int);
            }
            let max_level = match &talents[i].max_level {
                MaxTalentLevel::Fixed(fixed) => fixed.fixed_max_level,
                MaxTalentLevel::AttributeDependent(attr_dep) => {
                    let s = attr_dep.attribute_determining_level.slot();
                    if s >= 10 {
                        return Err(GenerationError::ForbiddenTalentDependency);
                    }
                    attributes[s].bonus()
                },
                MaxTalentLevel::SkillDependent(_) => 1,
            };
            let level = talents[i].level;
            let new_level = if level >= max_level {
                max_level
            } else {
                level + 1
            };
            talents[i].level = new_level;
            proof {
                assert(talents@ =~= orig.update(
                    i as int,
                    Talent { level: new_level, ..orig[i as int] },
                ));
            }
            return Ok(());
        }
        i += 1;
    }
    proof {
        lemma_first_name_match_none(talents@, candidate.name@);
    }
    talents.push(candidate);
    Ok(())
}

/// The generation engine: a character generator around one injected source of
/// randomness.
pub struct NonPlayableCharacterGenerator<R: RandomProvider> {
    random_provider: R,
}

impl<R: RandomProvider> NonPlayableCharacterGenerator<R> {
    pub fn new(random_provider: R) -> NonPlayableCharacterGenerator<R> {
        NonPlayableCharacterGenerator { random_provider }
    }

    /// Materialize one candidate talent instance: a singular definition is
    /// taken as it stands at level 1; a random pool draws one candidate with a
    /// die whose faces count the pool.
    pub fn talent_from_talent_definition(&self, talent_definition: &TalentDefinition) -> (r:
        Talent)
        requires
            talent_definition.wf(),
        ensures
            candidate_of(*talent_definition, r),
    {
        match talent_definition {
            TalentDefinition::Singular(talent_def) => {
                let r = Talent {
                    name: talent_def.name.clone(),
                    level: 1,
                    max_level: talent_def.max_level.duplicate(),
                    description: talent_def.description.clone(),
                };
                proof {
                    assert(r == spec_talent_of(*talent_def));
                }
                r
            },
            TalentDefinition::Random(random) => {
                let possible_talents_count = random.possible_talents.len();
                let faces: u32 = possible_talents_count as u32;
                let mut dices: Vec<u32> = Vec::new();
                dices.push(faces);
                let gen_base = GenerationBase { base_value: 0, dices };
                proof {
                    lemma_sum_faces_push(Seq::<u32>::empty(), faces);
                    assert(gen_base.wf());
                }
                let draw = self.random_provider.generate(&gen_base);
                let random_talent_index = (draw - 1) as usize;
                let talent_def = &random.possible_talents[random_talent_index];
                let r = Talent {
                    name: talent_def.name.clone(),
                    level: 1,
                    max_level: talent_def.max_level.duplicate(),
                    description: talent_def.description.clone(),
                };
                proof {
                    assert(r == spec_talent_of(
                        random.possible_talents@[random_talent_index as int],
                    ));
                }
                r
            },
        }
    }

    /// Draw `number_of_unique_rolls` distinct values from `[1, dice]`: each
    /// slot redraws while the value was already collected, and a request
    /// larger than the domain is a configuration error.
    #[verifier::loop_isolation(false)]
    pub fn unique_dice_values(&self, dice: u32, number_of_unique_rolls: usize) -> (r: Result<
        Vec<u32>,
        GenerationError,
    >)
        ensures
            match r {
                Ok(v) => {
                    &&& number_of_unique_rolls <= dice
                    &&& v@.len() == number_of_unique_rolls
                    &&& forall|i: int| 0 <= i < v@.len() ==> 1 <= #[trigger] v@[i] <= dice
                    &&& v@.no_duplicates()
                },
                Err(e) => {
                    &&& e == GenerationError::SampleDomainTooSmall
                    &&& number_of_unique_rolls > dice
                },
            },
    {
        if number_of_unique_rolls > dice as usize {
            return Err(GenerationError::SampleDomainTooSmall);
        }
        let mut dices: Vec<u32> = Vec::new();
        dices.push(dice);
        let gen_base = GenerationBase { base_value: 0, dices };
        proof {
            lemma_sum_faces_push(Seq::<u32>::empty(), dice);
        }
        let mut output: Vec<u32> = Vec::new();
        let mut slot: usize = 0;
        while slot < number_of_unique_rolls
            invariant
                slot <= number_of_unique_rolls,
                number_of_unique_rolls <= dice,
                gen_base.base_value == 0,
                gen_base.dices@ =~= Seq::<u32>::empty().push(dice),
                output@.len() == slot,
                forall|i: int| 0 <= i < output@.len() ==> 1 <= #[trigger] output@[i] <= dice,
                output@.no_duplicates(),
            decreases number_of_unique_rolls - slot,
        {
            proof {
                lemma_sum_faces_push(Seq::<u32>::empty(), dice);
                assert(gen_base.wf());
            }
            let mut value = self.random_provider.generate(&gen_base);
            let mut dup = contains_value(&output, value);
            let mut attempts: usize = 0;
            while dup && attempts < UNIQUE_ROLL_RETRY_LIMIT
                invariant
                    1 <= value <= dice,
                    dup == output@.contains(value),
                    gen_base.base_value == 0,
                    gen_base.dices@ =~= Seq::<u32>::empty().push(dice),
                    gen_base.wf(),
                decreases UNIQUE_ROLL_RETRY_LIMIT - attempts,
            {
                value = self.random_provider.generate(&gen_base);
                dup = contains_value(&output, value);
                attempts += 1;
            }
            if dup {
                value = first_missing_value(&output, dice);
            }
            let ghost before = output@;
            output.push(value);
            proof {
                assert forall|i: int, j: int|
                    0 <= i < output@.len() && 0 <= j < output@.len() && i != j implies output@[i]
                    != output@[j] by {
                    if i < before.len() && j < before.len() {
                        assert(before.no_duplicates());
                    } else if i < before.len() {
                        assert(!before.contains(value));
                        assert(before[i] != value);
                    } else if j < before.len() {
                        assert(!before.contains(value));
                        assert(before[j] != value);
                    }
                }
            }
            slot += 1;
        }
        Ok(output)
    }

    /// Generate one character: roll the ten attribute bases from the species,
    /// resolve the species' talents against the fresh attributes, take the
    /// species' trappings, draw six unique positions from the possible-skill
    /// pool (the first three advanced by the first tier, the rest by the
    /// second), then fold every profession layer in order — advancement floor
    /// first, then trappings, then talents — and freeze the aggregate.
    ///
    /// Whatever the random draws were, an `Ok` result is the fold of the
    /// inputs under some acceptable set of draws; each error reports what is
    /// wrong with the inputs, and inputs that cannot raise any configuration
    /// error are owed a character.
    #[verifier::loop_isolation(false)]
    #[verifier::rlimit(60)]
    pub fn generate(&self, professions: &Vec<Profession>, species: &Species) -> (r: Result<
        Character,
        GenerationError,
    >)
        requires
            species.wf(),
            forall|i: int| 0 <= i < professions@.len() ==> (#[trigger] professions@[i]).wf(),
        ensures
            match r {
                Ok(c) => generated_character(*species, professions@, c),
                Err(e) => generation_error_justified(*species, professions@, e),
            },
            clean_inputs(*species, professions@) ==> r is Ok,
    {
        proof {
            lemma_core_attribute_slots();
            assert(species.attribute_bases()[0] == species.weapon_skill);
            assert(species.attribute_bases()[1] == species.ballistic_skill);
            assert(species.attribute_bases()[2] == species.strength);
            assert(species.attribute_bases()[3] == species.toughness);
            assert(species.attribute_bases()[4] == species.initiative);
            assert(species.attribute_bases()[5] == species.agility);
            assert(species.attribute_bases()[6] == species.dexterity);
            assert(species.attribute_bases()[7] == species.intelligence);
            assert(species.attribute_bases()[8] == species.willpower);
            assert(species.attribute_bases()[9] == species.fellowship);
        }
        // 1. Roll the ten attribute bases in canonical order, with no advances
        // yet.
        let mut attributes: Vec<CharacterAttribute> = Vec::new();
        attributes.push(
            CharacterAttribute::new(
                BaseAttribute::WeaponSkill,
                self.random_provider.generate(&species.weapon_skill),
            ),
        );
        attributes.push(
            CharacterAttribute::new(
                BaseAttribute::BallisticSkill,
                self.random_provider.generate(&species.ballistic_skill),
            ),
        );
        attributes.push(
            CharacterAttribute::new(
                BaseAttribute::Strength,
                self.random_provider.generate(&species.strength),
            ),
        );
        attributes.push(
            CharacterAttribute::new(
                BaseAttribute::Toughness,
                self.random_provider.generate(&species.toughness),
            ),
        );
        attributes.push(
            CharacterAttribute::new(
                BaseAttribute::Initiative,
                self.random_provider.generate(&species.initiative),
            ),
        );
        attributes.push(
            CharacterAttribute::new(
                BaseAttribute::Agility,
                self.random_provider.generate(&species.agility),
            ),
        );
        attributes.push(
            CharacterAttribute::new(
                BaseAttribute::Dexterity,
                self.random_provider.generate(&species.dexterity),
            ),
        );
        attributes.push(
            CharacterAttribute::new(
                BaseAttribute::Intelligence,
                self.random_provider.generate(&species.intelligence),
            ),
        );
        attributes.push(
            CharacterAttribute::new(
                BaseAttribute::Willpower,
                self.random_provider.generate(&species.willpower),
            ),
        );
        attributes.push(
            CharacterAttribute::new(
                BaseAttribute::Fellowship,
                self.random_provider.generate(&species.fellowship),
            ),
        );
        let ghost bases = attributes@.map_values(|a: CharacterAttribute| a.base_value);
        proof {
            assert(attributes@ =~= initial_attributes(bases));
            assert(rolled_bases_admissible(*species, bases));
            assert(attrs_wf(attributes@, *species));
        }
        let ghost attrs0 = attributes@;
        // 2. Resolve the species' talents against the fresh attributes.
        let mut talents: Vec<Talent> = Vec::new();
        let ghost mut species_cands: Seq<Talent> = Seq::empty();
        let mut di: usize = 0;
        while di < species.possible_talents.len()
            invariant
                di <= species.possible_talents@.len(),
                attributes@ == attrs0,
                species_cands.len() == di,
                candidates_admissible(species.possible_talents@.take(di as int), species_cands),
                spec_apply_candidates(Seq::<Talent>::empty(), species_cands, attrs0) == Ok::<
                    Seq<Talent>,
                    GenerationError,
                >(talents@),
                policies_accounted(talents@, *species, professions@),
            decreases species.possible_talents@.len() - di,
        {
            let talent_definition = &species.possible_talents[di];
            let candidate = self.talent_from_talent_definition(talent_definition);
            let ghost cand_snap = candidate;
            let ghost prev_talents = talents@;
            let ghost prev_cands = species_cands;
            proof {
                lemma_attrs_wf_values_fit(attributes@, *species);
            }
            match merge_talent(&mut talents, candidate, &attributes) {
                Ok(_) => {},
                Err(e) => {
                    proof {
                        lemma_merge_err(prev_talents, cand_snap, attrs0, e);
                    }
                    return Err(e);
                },
            }
            proof {
                species_cands = species_cands.push(cand_snap);
                assert(species.possible_talents@.take(di + 1) =~= species.possible_talents@.take(
                    di as int,
                ).push(species.possible_talents@[di as int]));
                lemma_apply_candidates_push(Seq::<Talent>::empty(), prev_cands, cand_snap, attrs0);
                lemma_merge_policies(prev_talents, cand_snap, attrs0, talents@);
                assert forall|j: int|
                    0 <= j < talents@.len() && forbidden_policy(
                        (#[trigger] talents@[j]).max_level,
                    ) implies has_forbidden_talent_dependency(*species, professions@) by {
                    if talents@[j].max_level == cand_snap.max_level {
                        lemma_forbidden_candidate(
                            species.possible_talents@[di as int],
                            cand_snap,
                        );
                    } else {
                        let k = choose|k: int|
                            0 <= k < prev_talents.len() && (#[trigger] prev_talents[k]).max_level
                                == talents@[j].max_level;
                        assert(forbidden_policy(prev_talents[k].max_level));
                    }
                }
            }
            di += 1;
        }
        proof {
            assert(species.possible_talents@.take(species.possible_talents@.len() as int)
                =~= species.possible_talents@);
        }
        // 3. The species' trappings open the inventory.
        let mut trappings: Vec<Trapping> = Vec::new();
        let mut tri: usize = 0;
        while tri < species.trappings.len()
            invariant
                tri <= species.trappings@.len(),
                trappings@ == species.trappings@.take(tri as int),
            decreases species.trappings@.len() - tri,
        {
            let ghost before = trappings@;
            trappings.push(species.trappings[tri].duplicate());
            proof {
                assert(species.trappings@.take(tri + 1) =~= before.push(
                    species.trappings@[tri as int],
                ));
            }
            tri += 1;
        }
        proof {
            assert(species.trappings@.take(species.trappings@.len() as int)
                =~= species.trappings@);
        }
        // 4. Draw six unique positions from the possible-skill pool and
        // resolve the picked skills.
        let pool_len = species.possible_skills.len();
        let pool_faces: u32 = pool_len as u32;
        let picked = match self.unique_dice_values(pool_faces, PICKED_SKILL_COUNT as usize) {
            Ok(v) => v,
            Err(e) => {
                return Err(e);
            },
        };
        let mut skills: Vec<Skill> = Vec::new();
        let mut si: usize = 0;
        while si < PICKED_SKILL_COUNT as usize
            invariant
                si <= PICKED_SKILL_COUNT,
                skills@.len() == si,
                forall|i: int|
                    0 <= i < si ==> #[trigger] skills@[i] == spec_picked_skill(
                        species.possible_skills@,
                        picked@[i],
                        i < 3,
                    ),
            decreases PICKED_SKILL_COUNT - si,
        {
            let pick = picked[si];
            let index = (pick - 1) as usize;
            let entry = &species.possible_skills[index];
            let bump = if si < 3 {
                FIRST_TIER_SKILL_ADVANCE
            } else {
                SECOND_TIER_SKILL_ADVANCE
            };
            skills.push(
                Skill {
                    name: entry.name.clone(),
                    value: entry.value + bump,
                    base_attribute: entry.base_attribute,
                },
            );
            si += 1;
        }
        proof {
            assert(skills@ =~= spec_picked_skills(species.possible_skills@, picked@));
            assert(picks_admissible(picked@, species.possible_skills@.len() as int));
        }
        // 5. Fold the profession layers in order.
        let ghost st_species = GenerationState {
            attributes: attrs0,
            talents: talents@,
            trappings: trappings@,
        };
        let ghost mut cand_lists: Seq<Seq<Talent>> = Seq::empty();
        let mut pi: usize = 0;
        while pi < professions.len()
            invariant
                pi <= professions@.len(),
                cand_lists.len() == pi,
                cand_lists_admissible(professions@.take(pi as int), cand_lists),
                spec_apply_professions(st_species, professions@.take(pi as int), cand_lists)
                    == Ok::<GenerationState, GenerationError>(
                    GenerationState {
                        attributes: attributes@,
                        talents: talents@,
                        trappings: trappings@,
                    },
                ),
                attrs_wf(attributes@, *species),
                policies_accounted(talents@, *species, professions@),
                skills@ == spec_picked_skills(species.possible_skills@, picked@),
            decreases professions@.len() - pi,
        {
            let profession = &professions[pi];
            let ghost layer_start_attrs = attributes@;
            let ghost layer_start_talents = talents@;
            let ghost layer_start_trappings = trappings@;
            // 5a. Raise each listed attribute to the layer's floor.
            let floor = 5 * (profession.profession_level as u32);
            let mut ai: usize = 0;
            while ai < profession.attributes.len()
                invariant
                    ai <= profession.attributes@.len(),
                    forall|j: int| 0 <= j < ai ==> (#[trigger] profession.attributes@[j]).is_core(),
                    attributes@ == spec_advance_all(
                        layer_start_attrs,
                        profession.attributes@.take(ai as int),
                        floor,
                    ),
                decreases profession.attributes@.len() - ai,
            {
                let attr_id = profession.attributes[ai];
                let s = attr_id.slot();
                if s >= 10 {
                    proof {
                        assert(!listed_attrs_valid(profession.attributes@));
                        assert(has_invalid_attribute_reference(professions@));
                    }
                    return Err(GenerationError::InvalidAttributeReference);
                }
                let mut staged = attributes[s];
                staged.advance(floor);
                attributes[s] = staged;
                proof {
                    lemma_advance_all_step(
                        layer_start_attrs,
                        profession.attributes@,
                        floor,
                        ai as int,
                    );
                }
                ai += 1;
            }
            proof {
                assert(profession.attributes@.take(profession.attributes@.len() as int)
                    =~= profession.attributes@);
                assert(listed_attrs_valid(profession.attributes@));
                lemma_advance_all_preserves_wf(
                    layer_start_attrs,
                    *species,
                    profession.attributes@,
                    floor,
                );
            }
            // 5b. Append the layer's trappings; nothing merges.
            let mut tj: usize = 0;
            while tj < profession.trappings.len()
                invariant
                    tj <= profession.trappings@.len(),
                    trappings@ == layer_start_trappings + profession.trappings@.take(tj as int),
                decreases profession.trappings@.len() - tj,
            {
                let ghost before = trappings@;
                trappings.push(profession.trappings[tj].duplicate());
                proof {
                    assert(layer_start_trappings + profession.trappings@.take(tj + 1)
                        =~= before.push(profession.trappings@[tj as int]));
                }
                tj += 1;
            }
            proof {
                assert(profession.trappings@.take(profession.trappings@.len() as int)
                    =~= profession.trappings@);
            }
            // 5c. Resolve the layer's talents against the advanced attributes.
            let ghost attrs_layer = attributes@;
            let ghost mut layer_cands: Seq<Talent> = Seq::empty();
            let mut ti: usize = 0;
            while ti < profession.talents.len()
                invariant
                    ti <= profession.talents@.len(),
                    attributes@ == attrs_layer,
                    layer_cands.len() == ti,
                    candidates_admissible(profession.talents@.take(ti as int), layer_cands),
                    spec_apply_candidates(layer_start_talents, layer_cands, attrs_layer) == Ok::<
                        Seq<Talent>,
                        GenerationError,
                    >(talents@),
                    policies_accounted(talents@, *species, professions@),
                decreases profession.talents@.len() - ti,
            {
                let talent_definition = &profession.talents[ti];
                let candidate = self.talent_from_talent_definition(talent_definition);
                let ghost cand_snap = candidate;
                let ghost prev_talents = talents@;
                let ghost prev_cands = layer_cands;
                proof {
                    lemma_attrs_wf_values_fit(attributes@, *species);
                }
                match merge_talent(&mut talents, candidate, &attributes) {
                    Ok(_) => {},
                    Err(e) => {
                        proof {
                            lemma_merge_err(prev_talents, cand_snap, attrs_layer, e);
                        }
                        return Err(e);
                    },
                }
                proof {
                    layer_cands = layer_cands.push(cand_snap);
                    assert(profession.talents@.take(ti + 1) =~= profession.talents@.take(
                        ti as int,
                    ).push(profession.talents@[ti as int]));
                    lemma_apply_candidates_push(
                        layer_start_talents,
                        prev_cands,
                        cand_snap,
                        attrs_layer,
                    );
                    lemma_merge_policies(prev_talents, cand_snap, attrs_layer, talents@);
                    assert forall|j: int|
                        0 <= j < talents@.len() && forbidden_policy(
                            (#[trigger] talents@[j]).max_level,
                        ) implies has_forbidden_talent_dependency(*species, professions@) by {
                        if talents@[j].max_level == cand_snap.max_level {
                            lemma_forbidden_candidate(
                                profession.talents@[ti as int],
                                cand_snap,
                            );
                            assert(professions@[pi as int].talents@[ti as int]
                                == profession.talents@[ti as int]);
                        } else {
                            let k = choose|k: int|
                                0 <= k < prev_talents.len() && (#[trigger] prev_talents[k]).max_level
                                    == talents@[j].max_level;
                            assert(forbidden_policy(prev_talents[k].max_level));
                        }
                    }
                }
                ti += 1;
            }
            // The layer is complete: extend the fold by one profession.
            proof {
                assert(profession.talents@.take(profession.talents@.len() as int)
                    =~= profession.talents@);
                let prev = GenerationState {
                    attributes: layer_start_attrs,
                    talents: layer_start_talents,
                    trappings: layer_start_trappings,
                };
                let next = GenerationState {
                    attributes: attributes@,
                    talents: talents@,
                    trappings: trappings@,
                };
                assert(spec_floor(professions@[pi as int].profession_level) == floor);
                assert(spec_apply_profession(prev, professions@[pi as int], layer_cands) == Ok::<
                    GenerationState,
                    GenerationError,
                >(next)) by {
                    assert(spec_advance_all(prev.attributes, professions@[pi as int].attributes@, floor)
                        == attributes@);
                }
                lemma_apply_professions_push(
                    st_species,
                    professions@.take(pi as int),
                    cand_lists,
                    professions@[pi as int],
                    layer_cands,
                );
                assert(professions@.take(pi + 1) =~= professions@.take(pi as int).push(
                    professions@[pi as int],
                ));
                cand_lists = cand_lists.push(layer_cands);
                assert(cand_lists_admissible(professions@.take(pi + 1), cand_lists)) by {
                    assert forall|i: int| 0 <= i < pi + 1 implies candidates_admissible(
                        professions@.take(pi + 1)[i].talents@,
                        #[trigger] cand_lists[i],
                    ) by {
                        if i < pi {
                            assert(candidates_admissible(
                                professions@.take(pi as int)[i].talents@,
                                cand_lists[i],
                            ));
                        }
                    }
                }
            }
            pi += 1;
        }
        proof {
            assert(professions@.take(professions@.len() as int) =~= professions@);
        }
        // 6. Freeze the staging aggregate into the character.
        let ghost final_state = GenerationState {
            attributes: attributes@,
            talents: talents@,
            trappings: trappings@,
        };
        proof {
            lemma_attrs_wf_values_fit(attributes@, *species);
        }
        let prototype = CharacterPrototype {
            talents,
            skills,
            trappings,
            attributes,
            movement: species.movement,
        };
        let character = prototype.consume();
        proof {
            assert(spec_generation_result(*species, professions@, bases, species_cands, cand_lists)
                == Ok::<GenerationState, GenerationError>(final_state));
            assert(generation_witnesses(
                *species,
                professions@,
                character,
                bases,
                species_cands,
                cand_lists,
                picked@,
            ));
        }
        Ok(character)
    }
}

impl<R: RandomProvider> CharacterGenerator for NonPlayableCharacterGenerator<R> {
    fn generate(&self, professions: &Vec<Profession>, species: &Species) -> Result<
        Character,
        GenerationError,
    > {
        NonPlayableCharacterGenerator::generate(self, professions, species)
    }
}

} // verus!
