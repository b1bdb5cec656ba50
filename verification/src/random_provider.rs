use vstd::prelude::*;

use crate::generation_base::GenerationBase;
use crate::generation_base::sum_faces;

verus! {

/// What the provider contract pins down: an expression without dice is
/// returned exactly, and an expression with one die lies between one point
/// and the full face above the base.
pub proof fn lemma_generate_range(base: GenerationBase, r: u32)
    requires
        base.spec_lower() <= r <= base.spec_upper(),
    ensures
        base.dices@.len() == 0 ==> r == base.base_value,
        base.dices@.len() == 1 ==> base.base_value + 1 <= r <= base.base_value + base.dices@[0],
{
    if base.dices@.len() == 1 {
        assert(base.dices@.drop_last() =~= Seq::<u32>::empty());
        assert(sum_faces(Seq::<u32>::empty()) == 0);
        assert(base.dices@.last() == base.dices@[0]);
        assert(sum_faces(base.dices@) == base.dices@[0]);
    }
}

/// The engine's only source of entropy: anything that can turn a dice
/// expression into a concrete value. Implementations may draw from any
/// entropy source; a deterministic implementation may be substituted for
/// testing. Every result lies between the expression's least and greatest
/// outcome, so an expression without dice is returned exactly.
pub trait RandomProvider {
    fn generate(&self, base: &GenerationBase) -> (r: u32)
        requires
            base.wf(),
        ensures
            base.spec_lower() <= r <= base.spec_upper(),
    ;
}

} // verus!
