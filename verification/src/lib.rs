//! Type descriptors for generated tensor programs.
//!
//! A descriptor names one variable of a generated program and says what
//! kind of value it holds: a tensor, a scalar, a shape, or anything else
//! by a type expression of the caller's. Rendering a descriptor yields the
//! tokens of its type expression.
//!
//! Every descriptor has a mathematical value, its view, and the contracts
//! of the constructors and of rendering are stated over the views: which
//! descriptor comes out of which arguments, and which tokens a descriptor
//! renders as. [`laws`] holds what follows for all descriptors. The
//! constructors take no empty name and no tensor of rank zero;
//! [`violation`] tells beforehand whether arguments are fit.
//!
//! Token streams come from `proc_macro2` and `quote`. What this crate
//! assumes of them is gathered in [`token`].

pub mod decimal;
pub mod kind;
pub mod laws;
pub mod name;
pub mod other;
pub mod scalar;
pub mod shape;
pub mod tensor;
pub mod token;
pub mod ty;
pub mod violation;

pub use crate::kind::{ScalarKind, TensorKind};
pub use crate::name::Identifier;
pub use crate::other::OtherType;
pub use crate::scalar::ScalarType;
pub use crate::shape::ShapeType;
pub use crate::tensor::TensorType;
pub use crate::ty::Type;
pub use crate::violation::Violation;
