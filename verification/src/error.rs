//! The ways in which sampling or building a car can fail.

use vstd::prelude::*;

verus! {

/// Why a sampler or a constructor refused its input.
#[derive(Clone, Copy, Debug, PartialEq, Eq, Structural)]
pub enum CarError {
    /// A uniform draw was asked for between a lower end and a smaller upper
    /// end.
    InvalidRange,
    /// A weighted draw was asked for with no weights, a negative weight, or
    /// weights that sum to zero or to more than the machine can hold.
    InvalidWeights,
    /// A bound that depends on values drawn earlier came out undefined or with
    /// its lower end above its upper end.
    DegenerateBound,
    /// A catalog index decoded from a parameter vector is negative or not
    /// below the size of its catalog.
    IndexOutOfRange,
    /// A catalog has no entries.
    EmptyCatalog,
}

} // verus!
