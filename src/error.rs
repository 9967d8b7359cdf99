use vstd::prelude::*;

verus! {

/// The ways a simulation step or a construction can fail.
#[derive(Clone, Copy, Debug, PartialEq, Eq, Structural)]
pub enum VmcError {
    /// Two vectors of different dimensionality met in one operation.
    DimensionMismatch,
    /// A dimensionality outside 1, 2 and 3 was asked for.
    UnsupportedDimension,
    /// A Hermite polynomial above the supported order was asked for.
    UnsupportedOrbitalOrder,
    /// More particles than the orbital table can place.
    TooManyParticles,
    /// The Slater matrix of a configuration has no inverse.
    SingularConfiguration,
    /// Two particles coincide where an interaction term needs `1/r`.
    DegenerateDistance,
}

impl VmcError {
    /// A short human-readable description of the error.
    pub fn message(&self) -> (r: String) {
        match self {
            VmcError::DimensionMismatch => "Dimensions do not match.".to_string(),
            VmcError::UnsupportedDimension => "Unsupported dimensionality.".to_string(),
            VmcError::UnsupportedOrbitalOrder => "Orbital order above the supported bound.".to_string(),
            VmcError::TooManyParticles => "System can not have more than 20 particles.".to_string(),
            VmcError::SingularConfiguration => "Slater matrix is not invertible.".to_string(),
            VmcError::DegenerateDistance => "Two particles share a position.".to_string(),
        }
    }
}

} // verus!
