use vstd::prelude::*;

verus! {

/// A dice expression: a fixed amount plus the sum of one independently rolled
/// die per entry of `dices`, each drawn uniformly from `[1, face]`. An empty
/// `dices` list makes the expression deterministic.
#[derive(Clone, Debug, Hash)]
pub struct GenerationBase {
    pub base_value: u32,
    pub dices: Vec<u32>,
}

/// Sum of a sequence of die faces.
pub open spec fn sum_faces(s: Seq<u32>) -> int
    decreases s.len(),
{
    if s.len() == 0 {
        0
    } else {
        sum_faces(s.drop_last()) + s.last()
    }
}

pub proof fn lemma_sum_faces_push(s: Seq<u32>, v: u32)
    ensures
        sum_faces(s.push(v)) == sum_faces(s) + v,
{
    assert(s.push(v).drop_last() =~= s);
}

/// Every die contributes at least one point, so the sum of the faces is at
/// least the number of dice.
pub proof fn lemma_sum_faces_at_least_len(s: Seq<u32>)
    requires
        forall|i: int| 0 <= i < s.len() ==> s[i] >= 1,
    ensures
        sum_faces(s) >= s.len(),
    decreases s.len(),
{
    if s.len() > 0 {
        lemma_sum_faces_at_least_len(s.drop_last());
    }
}

impl GenerationBase {
    /// Least value the expression can take: the base plus one point per die.
    pub open spec fn spec_lower(&self) -> int {
        self.base_value + self.dices@.len()
    }

    /// Greatest value the expression can take: the base plus every die at its
    /// highest face.
    pub open spec fn spec_upper(&self) -> int {
        self.base_value + sum_faces(self.dices@)
    }

    /// A well-formed expression has no zero-faced die and a greatest value
    /// that fits the result type.
    pub open spec fn wf(&self) -> bool {
        &&& forall|i: int| 0 <= i < self.dices@.len() ==> self.dices@[i] >= 1
        &&& self.spec_upper() <= u32::MAX
    }
}

impl PartialEq for GenerationBase {
    fn eq(&self, other: &Self) -> (r: bool) {
        let r = self.base_value == other.base_value && self.dices == other.dices;
        proof {
            if r {
                assert(self.dices@ =~= other.dices@);
            }
        }
        r
    }
}

impl vstd::std_specs::cmp::PartialEqSpecImpl for GenerationBase {
    open spec fn obeys_eq_spec() -> bool {
        true
    }

    open spec fn eq_spec(&self, other: &Self) -> bool {
        self.base_value == other.base_value && self.dices@ == other.dices@
    }
}

} // verus!
