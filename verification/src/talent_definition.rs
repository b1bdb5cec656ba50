use vstd::prelude::*;

use crate::max_talent_level::MaxTalentLevel;

verus! {

/// One talent as a catalog entry.
#[derive(Debug)]
pub struct SingularTalentDefinition {
    pub name: String,
    pub max_level: MaxTalentLevel,
    pub description: String,
}

/// A pool of talents out of which each encounter picks one candidate uniformly
/// at random.
#[derive(Debug)]
pub struct RandomTalentDefinition {
    pub possible_talents: Vec<SingularTalentDefinition>,
}

/// What a species or profession lists: either one fixed talent or a random
/// pool.
#[derive(Debug)]
pub enum TalentDefinition {
    Singular(SingularTalentDefinition),
    Random(RandomTalentDefinition),
}

impl TalentDefinition {
    /// A well-formed random pool is never empty, and is small enough that its
    /// size can serve as a die face.
    pub open spec fn wf(&self) -> bool {
        match self {
            TalentDefinition::Singular(_) => true,
            TalentDefinition::Random(pool) => 1 <= pool.possible_talents@.len() <= u32::MAX,
        }
    }
}

} // verus!
