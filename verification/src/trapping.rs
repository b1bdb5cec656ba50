use vstd::prelude::*;

verus! {

/// A stacking inventory entry. Trappings are never merged: the same name may
/// appear several times, each occurrence with its own count.
#[derive(Debug)]
pub struct Trapping {
    pub name: String,
    pub count: u32,
}

impl Trapping {
    /// An owned copy with the same name and count.
    pub fn duplicate(&self) -> (r: Self)
        ensures
            r == *self,
    {
        Trapping { name: self.name.clone(), count: self.count }
    }
}

} // verus!
