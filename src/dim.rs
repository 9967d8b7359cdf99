use vstd::prelude::*;
use crate::error::VmcError;

verus! {

/// Number of spatial dimensions of a particle: one, two or three.
#[derive(Clone, Copy, Debug, PartialEq, Eq, Structural)]
pub enum Dim {
    One,
    Two,
    Three,
}

impl Dim {
    /// The number of coordinates.
    pub open spec fn spec_count(self) -> nat {
        match self {
            Dim::One => 1,
            Dim::Two => 2,
            Dim::Three => 3,
        }
    }

    /// The dimensionality with `n` coordinates; only 1, 2 and 3 are supported.
    pub fn from_count(n: usize) -> (r: Result<Dim, VmcError>)
        ensures
            1 <= n <= 3 <==> r is Ok,
            r is Ok ==> r->Ok_0.spec_count() == n,
            !(1 <= n <= 3) ==> r == Err::<Dim, VmcError>(VmcError::UnsupportedDimension),
    {
        match n {
            1 => Ok(Dim::One),
            2 => Ok(Dim::Two),
            3 => Ok(Dim::Three),
            _ => Err(VmcError::UnsupportedDimension),
        }
    }

    /// The number of coordinates.
    pub fn count(&self) -> (r: usize)
        ensures
            r == self.spec_count(),
    {
        match self {
            Dim::One => 1,
            Dim::Two => 2,
            Dim::Three => 3,
        }
    }

    /// Whether coordinate `axis` (counted from zero) exists in this dimensionality.
    pub fn has_axis(&self, axis: usize) -> (r: bool)
        ensures
            r == (axis < self.spec_count()),
    {
        axis < self.count()
    }

    /// The common dimensionality of two operands; operands of different
    /// dimensionality are an error, never truncated.
    pub fn matching(&self, other: &Dim) -> (r: Result<Dim, VmcError>)
        ensures
            *self == *other ==> r == Ok::<Dim, VmcError>(*self),
            *self != *other ==> r == Err::<Dim, VmcError>(VmcError::DimensionMismatch),
    {
        if *self == *other {
            Ok(*self)
        } else {
            Err(VmcError::DimensionMismatch)
        }
    }
}

} // verus!
