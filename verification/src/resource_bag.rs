use vstd::prelude::*;

verus! {

/// A read-only catalog of templates, looked up by textual identifier. The
/// engine receives already-resolved aggregates; implementations live with the
/// caller.
pub trait ResourceBag<T> {
    fn get_by_id(&self, id: &str) -> &T;
}

} // verus!
