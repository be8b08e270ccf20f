//! The descriptor of any variable.

use crate::name::Identifier;
use crate::other::{OtherType, OtherTypeView};
use crate::scalar::{ScalarType, ScalarTypeView};
use crate::shape::{ShapeType, ShapeTypeView};
use crate::tensor::{TensorType, TensorTypeView};
use crate::token::{stream_tokens, Token};
use proc_macro2::TokenStream;
use vstd::prelude::*;

verus! {

/// What a variable of a generated program holds.
#[derive(Debug, Clone)]
pub enum Type {
    /// A tensor.
    Tensor(TensorType),
    /// A scalar.
    Scalar(ScalarType),
    /// A shape.
    Shape(ShapeType),
    /// Anything else.
    Other(OtherType),
}

/// The mathematical value of a [`Type`].
pub enum TypeView {
    /// The value of a tensor descriptor.
    Tensor(TensorTypeView),
    /// The value of a scalar descriptor.
    Scalar(ScalarTypeView),
    /// The value of a shape descriptor.
    Shape(ShapeTypeView),
    /// The value of a descriptor of another type.
    Other(OtherTypeView),
}

impl View for Type {
    type V = TypeView;

    open spec fn view(&self) -> TypeView {
        match self {
            Type::Tensor(tensor) => TypeView::Tensor(tensor@),
            Type::Scalar(scalar) => TypeView::Scalar(scalar@),
            Type::Shape(shape) => TypeView::Shape(shape@),
            Type::Other(other) => TypeView::Other(other@),
        }
    }
}

impl TypeView {
    /// Whether the descriptor inside is well formed.
    pub open spec fn wf(self) -> bool {
        match self {
            TypeView::Tensor(tensor) => tensor.wf(),
            TypeView::Scalar(scalar) => scalar.wf(),
            TypeView::Shape(shape) => shape.wf(),
            TypeView::Other(other) => other.wf(),
        }
    }

    /// The name of the variable.
    pub open spec fn name(self) -> Seq<char> {
        match self {
            TypeView::Tensor(tensor) => tensor.name,
            TypeView::Scalar(scalar) => scalar.name,
            TypeView::Shape(shape) => shape.name,
            TypeView::Other(other) => other.name,
        }
    }

    /// The type expression of the variable.
    pub open spec fn ty(self) -> Seq<Token> {
        match self {
            TypeView::Tensor(tensor) => tensor.ty(),
            TypeView::Scalar(scalar) => scalar.ty(),
            TypeView::Shape(shape) => shape.ty(),
            TypeView::Other(other) => other.ty,
        }
    }
}

impl Type {
    /// The name of the variable, whatever it holds.
    pub fn name(&self) -> (name: &Identifier)
        ensures
            name@ == self@.name(),
            name@.len() > 0,
    {
        let name = match self {
            Type::Tensor(tensor) => &tensor.name,
            Type::Scalar(scalar) => &scalar.name,
            Type::Shape(shape) => &shape.name,
            Type::Other(other) => &other.name,
        };
        proof {
            use_type_invariant(name);
        }
        name
    }

    /// Renders the type expression of the variable.
    pub fn ty(&self) -> (tokens: TokenStream)
        ensures
            stream_tokens(tokens) == self@.ty(),
            self matches Type::Other(other) ==> tokens == other.ty,
    {
        match self {
            Type::Tensor(tensor) => tensor.ty(),
            Type::Scalar(scalar) => scalar.ty(),
            Type::Shape(shape) => shape.ty(),
            Type::Other(other) => other.ty(),
        }
    }
}

} // verus!
