use vstd::prelude::*;

use crate::character::Character;
use crate::generation_error::GenerationError;
use crate::generation_model::clean_inputs;
use crate::generation_model::generated_character;
use crate::generation_model::generation_error_justified;
use crate::profession::Profession;
use crate::species::Species;

verus! {

/// Anything that can generate one character from a species template and an
/// ordered career history. A character that comes back is the fold of the
/// inputs under some acceptable set of random draws; an error reports a
/// configuration fault of the inputs, and inputs that cannot raise one are
/// owed a character.
pub trait CharacterGenerator {
    fn generate(&self, professions: &Vec<Profession>, species: &Species) -> (r: Result<
        Character,
        GenerationError,
    >)
        requires
            species.wf(),
            forall|i: int| 0 <= i < professions@.len() ==> (#[trigger] professions@[i]).wf(),
        ensures
            match r {
                Ok(c) => generated_character(*species, professions@, c),
                Err(e) => generation_error_justified(*species, professions@, e),
            },
            clean_inputs(*species, professions@) ==> r is Ok,
    ;
}

} // verus!
