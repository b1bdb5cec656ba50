use vstd::prelude::*;

use crate::base_attribute::BaseAttribute;
use crate::base_attribute::core_attribute_at;
use crate::character::Character;
use crate::character_attribute::CharacterAttribute;
use crate::consts::MAX_ADVANCEMENT_FLOOR;
use crate::generation_error::GenerationError;
use crate::max_talent_level::MaxTalentLevel;
use crate::profession::Profession;
use crate::skill::Skill;
use crate::species::FIRST_TIER_SKILL_ADVANCE;
use crate::species::PICKED_SKILL_COUNT;
use crate::species::SECOND_TIER_SKILL_ADVANCE;
use crate::species::Species;
use crate::talent::Talent;
use crate::talent_definition::SingularTalentDefinition;
use crate::talent_definition::TalentDefinition;
use crate::trapping::Trapping;

verus! {

// This module is the mathematical model of one generation call. The staging
// state is folded over the species baseline and the profession layers; the
// random draws that the engine consumes appear here as explicit arguments
// (the ten rolled bases, one materialized talent candidate per definition,
// and the picked skill positions), so that every spec function is a plain
// function of its inputs.
/// The talent instance a singular definition materializes: the definition's
/// content at level 1.
pub open spec fn spec_talent_of(d: SingularTalentDefinition) -> Talent {
    Talent { name: d.name, level: 1, max_level: d.max_level, description: d.description }
}

/// Whether `t` is a talent instance the definition can materialize: a singular
/// definition yields exactly itself, a random pool yields one of its
/// candidates.
pub open spec fn candidate_of(def: TalentDefinition, t: Talent) -> bool {
    match def {
        TalentDefinition::Singular(d) => t == spec_talent_of(d),
        TalentDefinition::Random(pool) => exists|i: int|
            0 <= i < pool.possible_talents@.len() && t == spec_talent_of(
                pool.possible_talents@[i],
            ),
    }
}

/// One materialized candidate per definition, in definition order.
pub open spec fn candidates_admissible(defs: Seq<TalentDefinition>, cands: Seq<Talent>) -> bool {
    &&& cands.len() == defs.len()
    &&& forall|i: int| 0 <= i < defs.len() ==> candidate_of(defs[i], #[trigger] cands[i])
}

/// A talent-level policy that no configuration may use: a cap that depends on
/// wounds or movement.
pub open spec fn forbidden_policy(policy: MaxTalentLevel) -> bool {
    match policy {
        MaxTalentLevel::AttributeDependent(a) => !a.attribute_determining_level.is_core(),
        _ => false,
    }
}

/// Whether a definition can materialize a talent whose policy is forbidden.
pub open spec fn def_may_yield_forbidden(def: TalentDefinition) -> bool {
    match def {
        TalentDefinition::Singular(d) => forbidden_policy(d.max_level),
        TalentDefinition::Random(pool) => exists|i: int|
            0 <= i < pool.possible_talents@.len() && forbidden_policy(
                (#[trigger] pool.possible_talents@[i]).max_level,
            ),
    }
}

/// The cap a policy resolves to against the current attribute state, or `None`
/// for the forbidden wounds/movement dependency. A skill-dependent cap is an
/// open product decision and currently resolves to 1.
pub open spec fn spec_cap(policy: MaxTalentLevel, attrs: Seq<CharacterAttribute>) -> Option<int> {
    match policy {
        MaxTalentLevel::Fixed(f) => Some(f.fixed_max_level as int),
        MaxTalentLevel::AttributeDependent(a) => if a.attribute_determining_level.is_core() {
            Some(attrs[a.attribute_determining_level.spec_slot()].spec_bonus())
        } else {
            None
        },
        MaxTalentLevel::SkillDependent(_) => Some(1),
    }
}

/// Index of the first accumulated talent with the given name, or -1.
pub open spec fn first_name_match(talents: Seq<Talent>, name: Seq<char>) -> int
    decreases talents.len(),
{
    if talents.len() == 0 {
        -1
    } else if talents[0].name@ == name {
        0
    } else {
        let rest = first_name_match(talents.drop_first(), name);
        if rest == -1 {
            -1
        } else {
            rest + 1
        }
    }
}

pub proof fn lemma_first_name_match_found(talents: Seq<Talent>, name: Seq<char>, i: int)
    requires
        0 <= i < talents.len(),
        talents[i].name@ == name,
        forall|j: int| 0 <= j < i ==> (#[trigger] talents[j]).name@ != name,
    ensures
        first_name_match(talents, name) == i,
    decreases i,
{
    if i > 0 {
        lemma_first_name_match_found(talents.drop_first(), name, i - 1);
    }
}

pub proof fn lemma_first_name_match_none(talents: Seq<Talent>, name: Seq<char>)
    requires
        forall|j: int| 0 <= j < talents.len() ==> (#[trigger] talents[j]).name@ != name,
    ensures
        first_name_match(talents, name) == -1,
    decreases talents.len(),
{
    if talents.len() > 0 {
        lemma_first_name_match_none(talents.drop_first(), name);
    }
}

/// Level after one more occurrence of an already-present talent: one higher,
/// clamped to the cap (so a level already at or above the cap is set to it).
pub open spec fn spec_merged_level(level: u32, cap: int) -> int {
    if level + 1 > cap {
        cap
    } else {
        level + 1
    }
}

/// Merging one materialized candidate into the accumulated talent list:
/// a candidate matching an existing talent by name raises that talent's level
/// (clamped to its cap, read against the current attribute state), a new name
/// is appended at level 1. The forbidden wounds/movement dependency is a
/// configuration error.
pub open spec fn spec_merge(
    talents: Seq<Talent>,
    cand: Talent,
    attrs: Seq<CharacterAttribute>,
) -> Result<Seq<Talent>, GenerationError> {
    let j = first_name_match(talents, cand.name@);
    if j == -1 {
        Ok(talents.push(cand))
    } else {
        match spec_cap(talents[j].max_level, attrs) {
            Some(cap) => Ok(
                talents.update(
                    j,
                    Talent { level: spec_merged_level(talents[j].level, cap) as u32, ..talents[j] },
                ),
            ),
            None => Err(GenerationError::ForbiddenTalentDependency),
        }
    }
}

/// Folding a list of materialized candidates into the accumulated talents, in
/// order, against one fixed attribute state.
pub open spec fn spec_apply_candidates(
    talents: Seq<Talent>,
    cands: Seq<Talent>,
    attrs: Seq<CharacterAttribute>,
) -> Result<Seq<Talent>, GenerationError>
    decreases cands.len(),
{
    if cands.len() == 0 {
        Ok(talents)
    } else {
        match spec_merge(talents, cands[0], attrs) {
            Ok(t) => spec_apply_candidates(t, cands.drop_first(), attrs),
            Err(e) => Err(e),
        }
    }
}

pub proof fn lemma_apply_candidates_push(
    talents: Seq<Talent>,
    cands: Seq<Talent>,
    cand: Talent,
    attrs: Seq<CharacterAttribute>,
)
    ensures
        spec_apply_candidates(talents, cands.push(cand), attrs) == (
        match spec_apply_candidates(talents, cands, attrs) {
            Ok(t) => spec_merge(t, cand, attrs),
            Err(e) => Err(e),
        }),
    decreases cands.len(),
{
    reveal_with_fuel(spec_apply_candidates, 3);
    if cands.len() == 0 {
        assert(cands.push(cand)[0] == cand);
        assert(cands.push(cand).drop_first() =~= Seq::<Talent>::empty());
    } else {
        assert(cands.push(cand)[0] == cands[0]);
        assert(cands.push(cand).drop_first() =~= cands.drop_first().push(cand));
        match spec_merge(talents, cands[0], attrs) {
            Ok(t) => {
                lemma_apply_candidates_push(t, cands.drop_first(), cand, attrs);
            },
            Err(_) => {},
        }
    }
}

/// The advancement floor one profession layer proposes: five points per level.
pub open spec fn spec_floor(level: u8) -> u32 {
    (5 * level) as u32
}

/// Every attribute a profession lists must be one of the fixed ten.
pub open spec fn listed_attrs_valid(listed: Seq<BaseAttribute>) -> bool {
    forall|i: int| 0 <= i < listed.len() ==> (#[trigger] listed[i]).is_core()
}

/// The attribute state after one layer's advancement: each listed attribute is
/// raised to at least the floor, the rest are untouched.
pub open spec fn spec_advance_all(
    attrs: Seq<CharacterAttribute>,
    listed: Seq<BaseAttribute>,
    floor: u32,
) -> Seq<CharacterAttribute> {
    Seq::new(
        attrs.len(),
        |i: int|
            if listed.contains(attrs[i].id) {
                attrs[i].spec_advanced(floor)
            } else {
                attrs[i]
            },
    )
}

pub proof fn lemma_first_name_match_in_range(talents: Seq<Talent>, name: Seq<char>)
    ensures
        -1 <= first_name_match(talents, name) < talents.len(),
        first_name_match(talents, name) >= 0 ==> talents[first_name_match(talents, name)].name@
            == name,
    decreases talents.len(),
{
    if talents.len() > 0 && talents[0].name@ != name {
        lemma_first_name_match_in_range(talents.drop_first(), name);
    }
}

/// One step of a layer's advancement loop: advancing against one more listed
/// attribute updates exactly that attribute's slot, and advancing a slot a
/// second time with the same floor changes nothing.
pub proof fn lemma_advance_all_step(
    attrs: Seq<CharacterAttribute>,
    listed: Seq<BaseAttribute>,
    floor: u32,
    k: int,
)
    requires
        attrs.len() == 10,
        forall|i: int| 0 <= i < 10 ==> (#[trigger] attrs[i]).id == core_attribute_at(i),
        0 <= k < listed.len(),
        listed[k].is_core(),
    ensures
        spec_advance_all(attrs, listed.take(k + 1), floor) =~= spec_advance_all(
            attrs,
            listed.take(k),
            floor,
        ).update(
            listed[k].spec_slot(),
            spec_advance_all(attrs, listed.take(k), floor)[listed[k].spec_slot()].spec_advanced(
                floor,
            ),
        ),
{
    crate::base_attribute::lemma_core_attribute_slots();
    let s = listed[k].spec_slot();
    let before = spec_advance_all(attrs, listed.take(k), floor);
    let after = spec_advance_all(attrs, listed.take(k + 1), floor);
    assert(listed.take(k + 1) =~= listed.take(k).push(listed[k]));
    assert forall|i: int| 0 <= i < 10 implies after[i] == before.update(
        s,
        before[s].spec_advanced(floor),
    )[i] by {
        assert(listed.take(k + 1).contains(attrs[i].id) <==> (listed.take(k).contains(attrs[i].id)
            || attrs[i].id == listed[k])) by {
            if listed.take(k + 1).contains(attrs[i].id) {
                let j = choose|j: int|
                    0 <= j < listed.take(k + 1).len() && (#[trigger] listed.take(k + 1)[j])
                        == attrs[i].id;
                if j < k {
                    assert(listed.take(k)[j] == attrs[i].id);
                }
            }
            if listed.take(k).contains(attrs[i].id) {
                let j = choose|j: int|
                    0 <= j < listed.take(k).len() && (#[trigger] listed.take(k)[j]) == attrs[i].id;
                assert(listed.take(k + 1)[j] == attrs[i].id);
            }
            if attrs[i].id == listed[k] {
                assert(listed.take(k + 1)[k] == attrs[i].id);
            }
        }
        if i == s {
            assert(attrs[i].id == listed[k]);
        } else {
            assert(attrs[i].id != listed[k]);
        }
    }
}

/// Advancement keeps the staging-attribute invariant as long as the floor is
/// within the highest floor any layer can propose.
pub proof fn lemma_advance_all_preserves_wf(
    attrs: Seq<CharacterAttribute>,
    species: Species,
    listed: Seq<BaseAttribute>,
    floor: u32,
)
    requires
        attrs_wf(attrs, species),
        floor <= MAX_ADVANCEMENT_FLOOR,
    ensures
        attrs_wf(spec_advance_all(attrs, listed, floor), species),
{
}

/// The staging state one generation call folds: the ten attributes in
/// canonical order, the accumulated talents and the accumulated trappings.
#[verifier::ext_equal]
pub struct GenerationState {
    pub attributes: Seq<CharacterAttribute>,
    pub talents: Seq<Talent>,
    pub trappings: Seq<Trapping>,
}

/// One profession layer folded over the staging state: attribute advancement
/// first, then the layer's trappings, then its talents (so attribute-dependent
/// caps see the layer's own advancement).
pub open spec fn spec_apply_profession(
    st: GenerationState,
    prof: Profession,
    cands: Seq<Talent>,
) -> Result<GenerationState, GenerationError> {
    if !listed_attrs_valid(prof.attributes@) {
        Err(GenerationError::InvalidAttributeReference)
    } else {
        let attrs = spec_advance_all(st.attributes, prof.attributes@, spec_floor(prof.profession_level));
        match spec_apply_candidates(st.talents, cands, attrs) {
            Ok(t) => Ok(
                GenerationState {
                    attributes: attrs,
                    talents: t,
                    trappings: st.trappings + prof.trappings@,
                },
            ),
            Err(e) => Err(e),
        }
    }
}

/// All profession layers folded in input order.
pub open spec fn spec_apply_professions(
    st: GenerationState,
    profs: Seq<Profession>,
    cand_lists: Seq<Seq<Talent>>,
) -> Result<GenerationState, GenerationError>
    decreases profs.len(),
{
    if profs.len() == 0 {
        Ok(st)
    } else {
        match spec_apply_profession(st, profs[0], cand_lists[0]) {
            Ok(st2) => spec_apply_professions(st2, profs.drop_first(), cand_lists.drop_first()),
            Err(e) => Err(e),
        }
    }
}

pub proof fn lemma_apply_professions_push(
    st: GenerationState,
    profs: Seq<Profession>,
    cand_lists: Seq<Seq<Talent>>,
    prof: Profession,
    cands: Seq<Talent>,
)
    requires
        cand_lists.len() == profs.len(),
    ensures
        spec_apply_professions(st, profs.push(prof), cand_lists.push(cands)) == (
        match spec_apply_professions(st, profs, cand_lists) {
            Ok(st2) => spec_apply_profession(st2, prof, cands),
            Err(e) => Err(e),
        }),
    decreases profs.len(),
{
    reveal_with_fuel(spec_apply_professions, 3);
    if profs.len() == 0 {
        assert(profs.push(prof)[0] == prof);
        assert(cand_lists.push(cands)[0] == cands);
        assert(profs.push(prof).drop_first() =~= Seq::<Profession>::empty());
        assert(cand_lists.push(cands).drop_first() =~= Seq::<Seq<Talent>>::empty());
    } else {
        assert(profs.push(prof)[0] == profs[0]);
        assert(cand_lists.push(cands)[0] == cand_lists[0]);
        assert(profs.push(prof).drop_first() =~= profs.drop_first().push(prof));
        assert(cand_lists.push(cands).drop_first() =~= cand_lists.drop_first().push(cands));
        match spec_apply_profession(st, profs[0], cand_lists[0]) {
            Ok(st2) => {
                lemma_apply_professions_push(
                    st2,
                    profs.drop_first(),
                    cand_lists.drop_first(),
                    prof,
                    cands,
                );
            },
            Err(_) => {},
        }
    }
}

/// The staging attributes at the start of a call: the rolled bases in
/// canonical order, with no advances yet.
pub open spec fn initial_attributes(bases: Seq<u32>) -> Seq<CharacterAttribute> {
    Seq::new(
        10,
        |i: int| CharacterAttribute { id: core_attribute_at(i), base_value: bases[i], advances: 0 },
    )
}

/// Ten rolled bases, each inside the range of its species dice expression.
pub open spec fn rolled_bases_admissible(species: Species, bases: Seq<u32>) -> bool {
    &&& bases.len() == 10
    &&& forall|i: int|
        0 <= i < 10 ==> species.attribute_bases()[i].spec_lower() <= #[trigger] bases[i]
            <= species.attribute_bases()[i].spec_upper()
}

/// One materialized candidate list per profession layer.
pub open spec fn cand_lists_admissible(
    profs: Seq<Profession>,
    cand_lists: Seq<Seq<Talent>>,
) -> bool {
    &&& cand_lists.len() == profs.len()
    &&& forall|i: int|
        0 <= i < profs.len() ==> candidates_admissible(
            profs[i].talents@,
            #[trigger] cand_lists[i],
        )
}

/// Six distinct picked skill positions, each between 1 and the pool size.
pub open spec fn picks_admissible(picks: Seq<u32>, pool_len: int) -> bool {
    &&& picks.len() == PICKED_SKILL_COUNT
    &&& forall|i: int| 0 <= i < picks.len() ==> 1 <= #[trigger] picks[i] <= pool_len
    &&& picks.no_duplicates()
}

/// The skill a picked position resolves to: the pool entry at the (1-based)
/// position, its value advanced by the first tier for the first three picks
/// and by the second tier for the rest.
pub open spec fn spec_picked_skill(pool: Seq<Skill>, pick: u32, first_tier: bool) -> Skill {
    let s = pool[pick - 1];
    Skill {
        name: s.name,
        value: (s.value + if first_tier {
            FIRST_TIER_SKILL_ADVANCE as int
        } else {
            SECOND_TIER_SKILL_ADVANCE as int
        }) as u32,
        base_attribute: s.base_attribute,
    }
}

pub open spec fn spec_picked_skills(pool: Seq<Skill>, picks: Seq<u32>) -> Seq<Skill> {
    Seq::new(picks.len(), |i: int| spec_picked_skill(pool, picks[i], i < 3))
}

/// The full fold of one generation call, given the random draws as explicit
/// arguments: initial attributes from the rolled bases, the species' talents
/// against those attributes, the species' trappings, then every profession
/// layer in order.
pub open spec fn spec_generation_result(
    species: Species,
    profs: Seq<Profession>,
    bases: Seq<u32>,
    species_cands: Seq<Talent>,
    cand_lists: Seq<Seq<Talent>>,
) -> Result<GenerationState, GenerationError> {
    let attrs0 = initial_attributes(bases);
    match spec_apply_candidates(Seq::empty(), species_cands, attrs0) {
        Ok(t1) => spec_apply_professions(
            GenerationState { attributes: attrs0, talents: t1, trappings: species.trappings@ },
            profs,
            cand_lists,
        ),
        Err(e) => Err(e),
    }
}

/// How a finished character relates to the folded staging state: talents,
/// trappings and picked skills carried over, the ten values read off the
/// attributes, wounds derived as strength bonus plus twice the toughness bonus
/// plus the willpower bonus, and movement taken unmodified from the species.
pub open spec fn character_matches(
    c: Character,
    st: GenerationState,
    species: Species,
    picks: Seq<u32>,
) -> bool {
    &&& c.talents@ == st.talents
    &&& c.trappings@ == st.trappings
    &&& c.skills@ == spec_picked_skills(species.possible_skills@, picks)
    &&& c.weapon_skill == st.attributes[0].spec_value()
    &&& c.ballistic_skill == st.attributes[1].spec_value()
    &&& c.strength == st.attributes[2].spec_value()
    &&& c.toughness == st.attributes[3].spec_value()
    &&& c.initiative == st.attributes[4].spec_value()
    &&& c.agility == st.attributes[5].spec_value()
    &&& c.dexterity == st.attributes[6].spec_value()
    &&& c.intelligence == st.attributes[7].spec_value()
    &&& c.willpower == st.attributes[8].spec_value()
    &&& c.fellowship == st.attributes[9].spec_value()
    &&& c.wounds == st.attributes[2].spec_bonus() + 2 * st.attributes[3].spec_bonus()
        + st.attributes[8].spec_bonus()
    &&& c.movement == species.movement
}

/// One acceptable set of random draws under which the fold yields exactly this
/// character.
pub open spec fn generation_witnesses(
    species: Species,
    profs: Seq<Profession>,
    c: Character,
    bases: Seq<u32>,
    species_cands: Seq<Talent>,
    cand_lists: Seq<Seq<Talent>>,
    picks: Seq<u32>,
) -> bool {
    &&& rolled_bases_admissible(species, bases)
    &&& candidates_admissible(species.possible_talents@, species_cands)
    &&& cand_lists_admissible(profs, cand_lists)
    &&& picks_admissible(picks, species.possible_skills@.len() as int)
    &&& match spec_generation_result(species, profs, bases, species_cands, cand_lists) {
        Ok(st) => character_matches(c, st, species, picks),
        Err(_) => false,
    }
}

/// A character is a correct generation result when some acceptable set of
/// random draws folds to exactly it.
pub open spec fn generated_character(species: Species, profs: Seq<Profession>, c: Character) -> bool {
    exists|bases: Seq<u32>, species_cands: Seq<Talent>, cand_lists: Seq<Seq<Talent>>, picks: Seq<u32>|
        #[trigger] generation_witnesses(species, profs, c, bases, species_cands, cand_lists, picks)
}

/// Every correctly generated character derives its wounds from its own final
/// attribute values - the strength bonus plus twice the toughness bonus plus
/// the willpower bonus - and carries the species' movement unmodified.
pub proof fn lemma_generated_character_derived(
    species: Species,
    profs: Seq<Profession>,
    c: Character,
)
    requires
        generated_character(species, profs, c),
    ensures
        c.wounds == c.strength / 10 + 2 * (c.toughness / 10) + c.willpower / 10,
        c.movement == species.movement,
{
    let (bases, species_cands, cand_lists, picks) = choose|
        bases: Seq<u32>,
        species_cands: Seq<Talent>,
        cand_lists: Seq<Seq<Talent>>,
        picks: Seq<u32>,
    | generation_witnesses(species, profs, c, bases, species_cands, cand_lists, picks);
    match spec_generation_result(species, profs, bases, species_cands, cand_lists) {
        Ok(st) => {
            assert(c.strength == st.attributes[2].spec_value());
            assert(c.toughness == st.attributes[3].spec_value());
            assert(c.willpower == st.attributes[8].spec_value());
        },
        Err(_) => {},
    }
}

/// Some profession layer lists wounds, movement, or nothing among the fixed
/// ten.
pub open spec fn has_invalid_attribute_reference(profs: Seq<Profession>) -> bool {
    exists|i: int| 0 <= i < profs.len() && !listed_attrs_valid((#[trigger] profs[i]).attributes@)
}

/// Some talent definition of the species or of a profession layer can
/// materialize a talent whose cap depends on wounds or movement.
pub open spec fn has_forbidden_talent_dependency(species: Species, profs: Seq<Profession>) -> bool {
    ||| exists|i: int|
        0 <= i < species.possible_talents@.len() && def_may_yield_forbidden(
            #[trigger] species.possible_talents@[i],
        )
    ||| exists|i: int, j: int|
        0 <= i < profs.len() && 0 <= j < profs[i].talents@.len() && def_may_yield_forbidden(
            #[trigger] profs[i].talents@[j],
        )
}

/// Inputs on which generation is owed a character: no invalid attribute
/// reference, no reachable forbidden talent dependency, and a possible-skill
/// pool large enough for the skill draw.
pub open spec fn clean_inputs(species: Species, profs: Seq<Profession>) -> bool {
    &&& !has_invalid_attribute_reference(profs)
    &&& !has_forbidden_talent_dependency(species, profs)
    &&& species.possible_skills@.len() >= PICKED_SKILL_COUNT
}

/// What each error tells the caller about the inputs.
pub open spec fn generation_error_justified(
    species: Species,
    profs: Seq<Profession>,
    e: GenerationError,
) -> bool {
    match e {
        GenerationError::InvalidAttributeReference => has_invalid_attribute_reference(profs),
        GenerationError::ForbiddenTalentDependency => has_forbidden_talent_dependency(
            species,
            profs,
        ),
        GenerationError::SampleDomainTooSmall => species.possible_skills@.len()
            < PICKED_SKILL_COUNT,
    }
}

/// Invariant of the staging attributes: canonical order, each base inside its
/// species range, advances never past the highest floor.
pub open spec fn attrs_wf(attrs: Seq<CharacterAttribute>, species: Species) -> bool {
    &&& attrs.len() == 10
    &&& forall|i: int|
        0 <= i < 10 ==> {
            &&& (#[trigger] attrs[i]).id == core_attribute_at(i)
            &&& species.attribute_bases()[i].spec_lower() <= attrs[i].base_value
                <= species.attribute_bases()[i].spec_upper()
            &&& attrs[i].advances <= MAX_ADVANCEMENT_FLOOR
        }
}

/// Under a well-formed species every staging attribute's value fits the result
/// type.
pub proof fn lemma_attrs_wf_values_fit(attrs: Seq<CharacterAttribute>, species: Species)
    requires
        species.wf(),
        attrs_wf(attrs, species),
    ensures
        forall|i: int| 0 <= i < 10 ==> (#[trigger] attrs[i]).spec_value() <= u32::MAX,
{
}

/// A candidate with a forbidden policy can only come out of a definition that
/// can yield one.
pub proof fn lemma_forbidden_candidate(def: TalentDefinition, cand: Talent)
    requires
        candidate_of(def, cand),
        forbidden_policy(cand.max_level),
    ensures
        def_may_yield_forbidden(def),
{
    match def {
        TalentDefinition::Singular(_) => {},
        TalentDefinition::Random(pool) => {
            let i = choose|i: int|
                0 <= i < pool.possible_talents@.len() && cand == spec_talent_of(
                    pool.possible_talents@[i],
                );
            assert(forbidden_policy(pool.possible_talents@[i].max_level));
        },
    }
}

/// A merge can only fail on the forbidden wounds/movement dependency, and only
/// when some accumulated talent carries it.
pub proof fn lemma_merge_err(
    talents: Seq<Talent>,
    cand: Talent,
    attrs: Seq<CharacterAttribute>,
    e: GenerationError,
)
    requires
        spec_merge(talents, cand, attrs) == Err::<Seq<Talent>, GenerationError>(e),
    ensures
        e == GenerationError::ForbiddenTalentDependency,
        exists|j: int|
            0 <= j < talents.len() && forbidden_policy((#[trigger] talents[j]).max_level),
{
    lemma_first_name_match_in_range(talents, cand.name@);
    let j = first_name_match(talents, cand.name@);
    assert(0 <= j < talents.len());
    assert(forbidden_policy(talents[j].max_level));
}

/// Merging introduces no policy beyond the candidate's: every policy of the
/// merged list is the candidate's or one already present.
pub proof fn lemma_merge_policies(
    talents: Seq<Talent>,
    cand: Talent,
    attrs: Seq<CharacterAttribute>,
    merged: Seq<Talent>,
)
    requires
        spec_merge(talents, cand, attrs) == Ok::<Seq<Talent>, GenerationError>(merged),
    ensures
        forall|j: int|
            0 <= j < merged.len() ==> ((#[trigger] merged[j]).max_level == cand.max_level
                || exists|k: int|
                0 <= k < talents.len() && (#[trigger] talents[k]).max_level == merged[j].max_level),
{
    lemma_first_name_match_in_range(talents, cand.name@);
    assert forall|j: int| 0 <= j < merged.len() implies ((#[trigger] merged[j]).max_level
        == cand.max_level || exists|k: int|
        0 <= k < talents.len() && (#[trigger] talents[k]).max_level == merged[j].max_level) by {
        let m = first_name_match(talents, cand.name@);
        if m == -1 {
            if j < talents.len() {
                assert(talents[j].max_level == merged[j].max_level);
            }
        } else {
            assert(talents[j].max_level == merged[j].max_level);
        }
    }
}

/// A sequence that contains every value of `[1, n]` holds at least `n`
/// entries.
pub proof fn lemma_full_coverage_len(s: Seq<u32>, n: int)
    requires
        0 <= n <= u32::MAX,
        forall|w: u32| 1 <= w <= n ==> s.contains(w),
    ensures
        s.len() >= n,
{
    let si = Seq::new(s.len(), |i: int| s[i] as int);
    assert(vstd::set_lib::set_int_range(1, n + 1).subset_of(si.to_set())) by {
        assert forall|x: int| vstd::set_lib::set_int_range(1, n + 1).contains(x) implies si.to_set().contains(x) by {
            let w = x as u32;
            assert(s.contains(w));
            let i = choose|i: int| 0 <= i < s.len() && s[i] == w;
            assert(si[i] == x);
            assert(si.contains(x));
        }
    }
    si.lemma_cardinality_of_set();
    vstd::set_lib::lemma_int_range(1, n + 1);
    vstd::set_lib::lemma_len_subset(vstd::set_lib::set_int_range(1, n + 1), si.to_set());
}

/// Drawing as many distinct values from `[1, n]` as the domain holds covers
/// the domain: each value of `[1, n]` appears exactly once.
pub proof fn lemma_unique_values_cover_domain(s: Seq<u32>, n: u32)
    requires
        s.no_duplicates(),
        forall|i: int| 0 <= i < s.len() ==> 1 <= #[trigger] s[i] <= n,
        s.len() == n,
    ensures
        forall|w: u32| 1 <= w <= n ==> s.contains(w),
{
    assert forall|w: u32| 1 <= w <= n implies s.contains(w) by {
        if !s.contains(w) {
            let si = Seq::new(s.len(), |i: int| s[i] as int);
            assert(si.no_duplicates());
            si.unique_seq_to_set();
            let range_without = vstd::set_lib::set_int_range(1, n + 1).remove(w as int);
            assert(si.to_set().subset_of(range_without)) by {
                assert forall|x: int| si.to_set().contains(x) implies range_without.contains(
                    x,
                ) by {
                    let i = choose|i: int| 0 <= i < si.len() && si[i] == x;
                    assert(1 <= s[i] <= n);
                    assert(s[i] != w);
                }
            }
            vstd::set_lib::lemma_int_range(1, n + 1);
            vstd::set_lib::lemma_len_subset(si.to_set(), range_without);
            assert(range_without.len() == n - 1);
            assert(false);
        }
    }
}

/// No talent in the accumulated list carries a forbidden policy unless some
/// definition of the inputs could have produced one.
pub open spec fn policies_accounted(
    talents: Seq<Talent>,
    species: Species,
    profs: Seq<Profession>,
) -> bool {
    forall|j: int|
        0 <= j < talents.len() ==> forbidden_policy((#[trigger] talents[j]).max_level)
            ==> has_forbidden_talent_dependency(species, profs)
}

} // verus!
