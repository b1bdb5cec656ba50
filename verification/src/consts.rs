use vstd::prelude::*;

verus! {

/// Least profession level a textual profession identifier may carry.
pub const MIN_PROFESSION_LEVEL: u32 = 1;

/// Exclusive upper bound on the profession level a textual profession
/// identifier may carry.
pub const MAX_PROFESSION_LEVEL: u32 = 4;

/// Greatest advancement floor any profession layer can propose: five points
/// per level, at the highest level a byte can hold.
pub const MAX_ADVANCEMENT_FLOOR: u32 = 1275;

} // verus!
