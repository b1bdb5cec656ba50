use vstd::prelude::*;

use crate::character::Character;

verus! {

/// Anything that can render a finished character. A displayer may assume a
/// character that has at least one talent, one skill and one trapping to
/// show.
pub trait CharacterDisplayer<T> {
    fn print(&self, character: &Character) -> T
        requires
            character.talents@.len() > 0,
            character.skills@.len() > 0,
            character.trappings@.len() > 0,
    ;
}

} // verus!
