use vstd::prelude::*;
use crate::error::VmcError;

verus! {

/// How many random initial placements are tried before a system is given up
/// as singular.
pub const MAX_PLACEMENTS: usize = 1000;

/// Whether a system of `n` particles carries a Slater matrix and its inverse;
/// for two particles the Slater part is a constant and needs none.
pub open spec fn spec_uses_slater_matrix(n: nat) -> bool {
    n != 2
}

/// Executable form of `spec_uses_slater_matrix`.
pub fn uses_slater_matrix(n: usize) -> (r: bool)
    ensures
        r == spec_uses_slater_matrix(n as nat),
{
    n != 2
}

/// What to do after a random initial placement was tried.
#[derive(Clone, Copy, Debug, PartialEq, Eq, Structural)]
pub enum Placement {
    /// Keep this placement.
    Accept,
    /// Draw another placement.
    Retry,
}

/// The decision after placement number `attempt` (counted from zero) of `n`
/// particles, whose Slater matrix was found `invertible` or not: a usable
/// placement is kept, a singular one is drawn again until `MAX_PLACEMENTS`
/// have been tried.
pub fn next_placement(n: usize, attempt: usize, invertible: bool) -> (r: Result<Placement, VmcError>)
    ensures
        !spec_uses_slater_matrix(n as nat) || invertible ==> r == Ok::<Placement, VmcError>(
            Placement::Accept,
        ),
        spec_uses_slater_matrix(n as nat) && !invertible && attempt + 1 < MAX_PLACEMENTS ==> r
            == Ok::<Placement, VmcError>(Placement::Retry),
        spec_uses_slater_matrix(n as nat) && !invertible && attempt + 1 >= MAX_PLACEMENTS ==> r
            == Err::<Placement, VmcError>(VmcError::SingularConfiguration),
{
    if !uses_slater_matrix(n) || invertible {
        Ok(Placement::Accept)
    } else if attempt < MAX_PLACEMENTS - 1 {
        Ok(Placement::Retry)
    } else {
        Err(VmcError::SingularConfiguration)
    }
}

} // verus!
