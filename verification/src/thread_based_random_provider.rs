use rand::Rng;
use vstd::prelude::*;

use crate::generation_base::GenerationBase;
use crate::generation_base::lemma_sum_faces_at_least_len;
use crate::generation_base::lemma_sum_faces_push;
use crate::generation_base::sum_faces;
use crate::random_provider::RandomProvider;

verus! {

/// Relies on rand's thread_rng and Rng::gen_range: with a non-empty inclusive
/// range `1..=face` the call cannot panic and returns a value inside the
/// range.
#[verifier::external_body]
fn roll_die(face: u32) -> (r: u32)
    requires
        face >= 1,
    ensures
        1 <= r <= face,
{
    rand::thread_rng().gen_range(1..=face)
}

/// A random provider backed by the thread-local random number generator.
pub struct ThreadBasedRandomProvider {}

impl RandomProvider for ThreadBasedRandomProvider {
    fn generate(&self, base: &GenerationBase) -> (r: u32) {
        let mut result = base.base_value;
        let mut i: usize = 0;
        proof {
            lemma_sum_faces_at_least_len(base.dices@);
            assert(base.dices@.take(0) =~= Seq::<u32>::empty());
            assert(base.dices@.skip(0) =~= base.dices@);
            assert(sum_faces(Seq::<u32>::empty()) == 0);
        }
        while i < base.dices.len()
            invariant
                base.wf(),
                i <= base.dices@.len(),
                base.base_value + i <= result,
                result <= base.base_value + sum_faces(base.dices@.take(i as int)),
                sum_faces(base.dices@.take(i as int)) + sum_faces(base.dices@.skip(i as int))
                    == sum_faces(base.dices@),
                sum_faces(base.dices@.skip(i as int)) >= base.dices@.len() - i,
            decreases base.dices@.len() - i,
        {
            let face = base.dices[i];
            let roll = roll_die(face);
            proof {
                lemma_sum_faces_push(base.dices@.take(i as int), face);
                assert(base.dices@.take(i + 1) =~= base.dices@.take(i as int).push(face));
                lemma_sum_faces_at_least_len(base.dices@.skip(i + 1));
                assert(base.dices@.skip(i as int).drop_first() =~= base.dices@.skip(i + 1));
                lemma_sum_skip_first(base.dices@.skip(i as int));
            }
            result = result + roll;
            i = i + 1;
        }
        proof {
            assert(base.dices@.take(base.dices@.len() as int) =~= base.dices@);
        }
        result
    }
}

/// Splitting a non-empty sequence of faces into its first element and the rest
/// splits its sum.
proof fn lemma_sum_skip_first(s: Seq<u32>)
    requires
        s.len() > 0,
    ensures
        sum_faces(s) == s[0] + sum_faces(s.drop_first()),
    decreases s.len(),
{
    if s.len() == 1 {
        assert(s.drop_last() =~= Seq::<u32>::empty());
        assert(s.drop_first() =~= Seq::<u32>::empty());
    } else {
        lemma_sum_skip_first(s.drop_last());
        assert(s.drop_last().drop_first() =~= s.drop_first().drop_last());
        assert(s.drop_first().last() == s.last());
        assert(s.drop_last()[0] == s[0]);
    }
}

} // verus!
