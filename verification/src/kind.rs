//! The kinds of element and of scalar that a descriptor can name.

use vstd::prelude::*;

verus! {

/// What the elements of a tensor are.
#[derive(Debug, Clone, Copy, PartialEq, Eq)]
pub enum TensorKind {
    /// Integers.
    Int,
    /// Floating-point numbers.
    Float,
    /// Booleans.
    Bool,
}

/// What a scalar is.
#[derive(Debug, Clone, PartialEq, Eq)]
pub enum ScalarKind {
    /// A signed integer of 32 bits.
    Int32,
    /// A signed integer of 64 bits.
    Int64,
    /// A floating-point number of 32 bits.
    Float32,
    /// A floating-point number of 64 bits.
    Float64,
    /// A boolean.
    Bool,
}

} // verus!
