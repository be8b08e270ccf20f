//! Tensor descriptors.

use crate::kind::TensorKind;
use crate::name::{escaped, numeric, Identifier};
use crate::token::{empty_stream, push_ident, push_number, push_punct, stream_tokens, Token};
use proc_macro2::TokenStream;
use vstd::prelude::*;

verus! {

/// A variable that holds a tensor of `dim` dimensions. The shape, where
/// one is recorded, is a note for readers of the descriptor.
#[derive(Debug, Clone)]
pub struct TensorType {
    pub name: Identifier,
    pub dim: usize,
    pub kind: TensorKind,
    pub shape: Option<Vec<usize>>,
}

/// The mathematical value of a [`TensorType`].
pub struct TensorTypeView {
    pub name: Seq<char>,
    pub dim: nat,
    pub kind: TensorKind,
    pub shape: Option<Seq<usize>>,
}

/// The mathematical value of an optional shape.
pub open spec fn shape_view(shape: Option<Vec<usize>>) -> Option<Seq<usize>> {
    match shape {
        Some(shape) => Some(shape@),
        None => None,
    }
}

impl View for TensorType {
    type V = TensorTypeView;

    open spec fn view(&self) -> TensorTypeView {
        TensorTypeView {
            name: self.name@,
            dim: self.dim as nat,
            kind: self.kind,
            shape: shape_view(self.shape),
        }
    }
}

impl TensorTypeView {
    /// The tensor that the constructors build from their arguments: the
    /// name is escaped, the rest is kept.
    pub open spec fn new(
        name: Seq<char>,
        dim: nat,
        kind: TensorKind,
        shape: Option<Seq<usize>>,
    ) -> TensorTypeView {
        TensorTypeView { name: escaped(name), dim, kind, shape }
    }

    /// Whether the tensor has a name and at least one dimension.
    pub open spec fn wf(self) -> bool {
        self.name.len() > 0 && self.dim >= 1
    }

    /// The type expression of the tensor: `Tensor<Backend, dim>` for floats,
    /// with `Int` or `Bool` as a third argument for the other kinds.
    pub open spec fn ty(self) -> Seq<Token> {
        match self.kind {
            TensorKind::Float => seq![
                Token::Ident("Tensor"@),
                Token::alone('<'),
                Token::Ident("Backend"@),
                Token::alone(','),
                Token::number(self.dim),
                Token::alone('>'),
            ],
            TensorKind::Int => seq![
                Token::Ident("Tensor"@),
                Token::alone('<'),
                Token::Ident("Backend"@),
                Token::alone(','),
                Token::number(self.dim),
                Token::alone(','),
                Token::Ident("Int"@),
                Token::alone('>'),
            ],
            TensorKind::Bool => seq![
                Token::Ident("Tensor"@),
                Token::alone('<'),
                Token::Ident("Backend"@),
                Token::alone(','),
                Token::number(self.dim),
                Token::alone(','),
                Token::Ident("Bool"@),
                Token::alone('>'),
            ],
        }
    }
}

impl TensorType {
    /// Makes `name` fit for a variable: a name made of digits alone cannot
    /// name one, so it gets an underscore in front.
    pub fn format_name(name: &str) -> (formatted: String)
        ensures
            formatted@ == escaped(name@),
    {
        if numeric(name) {
            proof {
                reveal_strlit("_");
            }
            String::from_str("_").concat(name)
        } else {
            String::from_str(name)
        }
    }

    /// Describes a tensor variable called `name`, after escaping, with
    /// `dim` dimensions and elements of `kind`. The shape is kept for
    /// whoever reads the descriptor; it plays no part in rendering.
    pub fn new(name: &str, dim: usize, kind: TensorKind, shape: Option<Vec<usize>>) -> (tensor:
        TensorType)
        requires
            name@.len() > 0,
            dim >= 1,
        ensures
            tensor@ == TensorTypeView::new(name@, dim as nat, kind, shape_view(shape)),
            tensor@.wf(),
    {
        let formatted_name = Self::format_name(name);
        TensorType { name: Identifier::new(formatted_name.as_str()), dim, kind, shape }
    }

    /// A tensor of floats without a recorded shape.
    pub fn new_float(name: &str, dim: usize) -> (tensor: TensorType)
        requires
            name@.len() > 0,
            dim >= 1,
        ensures
            tensor@ == TensorTypeView::new(name@, dim as nat, TensorKind::Float, None),
            tensor@.wf(),
    {
        Self::new_float_with_shape(name, dim, None)
    }

    /// A tensor of floats.
    pub fn new_float_with_shape(name: &str, dim: usize, shape: Option<Vec<usize>>) -> (tensor:
        TensorType)
        requires
            name@.len() > 0,
            dim >= 1,
        ensures
            tensor@ == TensorTypeView::new(name@, dim as nat, TensorKind::Float, shape_view(shape)),
            tensor@.wf(),
    {
        Self::new(name, dim, TensorKind::Float, shape)
    }

    /// A tensor of integers without a recorded shape.
    pub fn new_int(name: &str, dim: usize) -> (tensor: TensorType)
        requires
            name@.len() > 0,
            dim >= 1,
        ensures
            tensor@ == TensorTypeView::new(name@, dim as nat, TensorKind::Int, None),
            tensor@.wf(),
    {
        Self::new_int_with_shape(name, dim, None)
    }

    /// A tensor of integers.
    pub fn new_int_with_shape(name: &str, dim: usize, shape: Option<Vec<usize>>) -> (tensor:
        TensorType)
        requires
            name@.len() > 0,
            dim >= 1,
        ensures
            tensor@ == TensorTypeView::new(name@, dim as nat, TensorKind::Int, shape_view(shape)),
            tensor@.wf(),
    {
        Self::new(name, dim, TensorKind::Int, shape)
    }

    /// A tensor of booleans without a recorded shape.
    pub fn new_bool(name: &str, dim: usize) -> (tensor: TensorType)
        requires
            name@.len() > 0,
            dim >= 1,
        ensures
            tensor@ == TensorTypeView::new(name@, dim as nat, TensorKind::Bool, None),
            tensor@.wf(),
    {
        Self::new_bool_with_shape(name, dim, None)
    }

    /// A tensor of booleans.
    pub fn new_bool_with_shape(name: &str, dim: usize, shape: Option<Vec<usize>>) -> (tensor:
        TensorType)
        requires
            name@.len() > 0,
            dim >= 1,
        ensures
            tensor@ == TensorTypeView::new(name@, dim as nat, TensorKind::Bool, shape_view(shape)),
            tensor@.wf(),
    {
        Self::new(name, dim, TensorKind::Bool, shape)
    }

    /// Renders the type expression of the tensor.
    pub fn ty(&self) -> (tokens: TokenStream)
        ensures
            stream_tokens(tokens) == self@.ty(),
    {
        proof {
            reveal_strlit("Tensor");
            reveal_strlit("Backend");
            reveal_strlit("Int");
            reveal_strlit("Bool");
        }
        let mut tokens = empty_stream();
        push_ident(&mut tokens, "Tensor");
        push_punct(&mut tokens, '<');
        push_ident(&mut tokens, "Backend");
        push_punct(&mut tokens, ',');
        push_number(&mut tokens, self.dim);
        match self.kind {
            TensorKind::Float => {},
            TensorKind::Int => {
                push_punct(&mut tokens, ',');
                push_ident(&mut tokens, "Int");
            },
            TensorKind::Bool => {
                push_punct(&mut tokens, ',');
                push_ident(&mut tokens, "Bool");
            },
        }
        push_punct(&mut tokens, '>');
        tokens
    }
}

} // verus!
