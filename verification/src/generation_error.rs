use vstd::prelude::*;

verus! {

/// A configuration error that makes the current generation call unrecoverable.
/// The call reports it to the caller instead of crashing the host process.
#[derive(PartialEq, Eq, Structural, Clone, Copy, Debug)]
pub enum GenerationError {
    /// A profession layer lists an attribute outside the fixed ten.
    InvalidAttributeReference,
    /// A talent's maximum level depends on wounds or movement.
    ForbiddenTalentDependency,
    /// More unique samples were requested than the domain holds.
    SampleDomainTooSmall,
}

} // verus!
