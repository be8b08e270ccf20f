//! Shape descriptors.

use crate::name::Identifier;
use crate::token::{
    empty_stream, push_bracket, push_ident, push_number, push_punct, stream_tokens, Token,
};
use proc_macro2::TokenStream;
use vstd::prelude::*;

verus! {

/// A variable that holds the sizes of `dim` dimensions.
#[derive(Debug, Clone, PartialEq, Eq)]
pub struct ShapeType {
    pub name: Identifier,
    pub dim: usize,
}

/// The mathematical value of a [`ShapeType`].
pub struct ShapeTypeView {
    pub name: Seq<char>,
    pub dim: nat,
}

impl View for ShapeType {
    type V = ShapeTypeView;

    open spec fn view(&self) -> ShapeTypeView {
        ShapeTypeView { name: self.name@, dim: self.dim as nat }
    }
}

impl ShapeTypeView {
    /// The shape that the constructor builds from its arguments: both are
    /// kept.
    pub open spec fn new(name: Seq<char>, dim: nat) -> ShapeTypeView {
        ShapeTypeView { name, dim }
    }

    /// Whether the shape has a name.
    pub open spec fn wf(self) -> bool {
        self.name.len() > 0
    }

    /// The type expression of the shape: `[usize; dim]`, an array of `dim`
    /// sizes.
    pub open spec fn ty(self) -> Seq<Token> {
        seq![
            Token::bracket(seq![Token::Ident("usize"@), Token::alone(';'), Token::number(self.dim)]),
        ]
    }
}

impl ShapeType {
    /// Describes a shape variable called `name`. The name is kept as it
    /// is, digits or not.
    pub fn new(name: &str, dim: usize) -> (shape: ShapeType)
        requires
            name@.len() > 0,
        ensures
            shape@ == ShapeTypeView::new(name@, dim as nat),
            shape@.wf(),
    {
        ShapeType { name: Identifier::new(name), dim }
    }

    /// Renders the type expression of the shape.
    pub fn ty(&self) -> (tokens: TokenStream)
        ensures
            stream_tokens(tokens) == self@.ty(),
    {
        proof {
            reveal_strlit("usize");
        }
        let mut array = empty_stream();
        push_ident(&mut array, "usize");
        push_punct(&mut array, ';');
        push_number(&mut array, self.dim);
        assert(stream_tokens(array) =~= seq![
            Token::Ident("usize"@),
            Token::alone(';'),
            Token::number(self.dim as nat),
        ]);
        let mut tokens = empty_stream();
        push_bracket(&mut tokens, array);
        tokens
    }
}

} // verus!
