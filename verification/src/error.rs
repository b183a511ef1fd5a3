use vstd::prelude::*;

verus! {

/// Errors that can arise during BLR+ARD operations.
#[derive(Debug, Clone, Copy, PartialEq, Eq, Structural)]
pub enum BLRError {
    /// A matrix required to be positive-definite is singular.
    SingularMatrix,
    /// Dimension mismatch in an input or intermediate calculation.
    DimMismatch { expected: usize, got: usize },
}

} // verus!
