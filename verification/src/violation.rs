//! What makes the arguments of a constructor unfit.
//!
//! The constructors of this crate require a name that is not empty, and
//! the tensor constructors a rank of at least one. Code that cannot show
//! this beforehand asks here first and builds only when nothing is found.

use vstd::prelude::*;

verus! {

/// Why a descriptor cannot be built from the arguments given.
#[derive(Debug, Clone, Copy, PartialEq, Eq)]
pub enum Violation {
    /// The name is empty.
    EmptyName,
    /// A tensor was asked for with no dimension at all: such a value is a
    /// scalar.
    ZeroRank,
}

/// What is wrong with `name` as the name of a variable, if anything.
pub open spec fn name_violation(name: Seq<char>) -> Option<Violation> {
    if name.len() == 0 {
        Some(Violation::EmptyName)
    } else {
        None
    }
}

/// What is wrong with `name` and `dim` as the name and rank of a tensor,
/// if anything. The name is looked at first.
pub open spec fn tensor_violation(name: Seq<char>, dim: nat) -> Option<Violation> {
    if name.len() == 0 {
        Some(Violation::EmptyName)
    } else if dim == 0 {
        Some(Violation::ZeroRank)
    } else {
        None
    }
}

/// Finds what keeps `name` from naming a scalar, a shape or a variable of
/// another type.
pub fn check_name(name: &str) -> (found: Option<Violation>)
    ensures
        found == name_violation(name@),
{
    if name.is_empty() {
        Some(Violation::EmptyName)
    } else {
        None
    }
}

/// Finds what keeps `name` and `dim` from describing a tensor.
pub fn check_tensor(name: &str, dim: usize) -> (found: Option<Violation>)
    ensures
        found == tensor_violation(name@, dim as nat),
{
    if name.is_empty() {
        Some(Violation::EmptyName)
    } else if dim == 0 {
        Some(Violation::ZeroRank)
    } else {
        None
    }
}

} // verus!
