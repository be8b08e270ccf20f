//! Descriptors of any other type.

use crate::name::Identifier;
use crate::token::{stream_tokens, Token};
use proc_macro2::TokenStream;
use vstd::prelude::*;

verus! {

/// A variable whose type expression the caller supplies.
#[derive(Debug, Clone)]
pub struct OtherType {
    pub name: Identifier,
    pub ty: TokenStream,
}

/// The mathematical value of an [`OtherType`].
pub struct OtherTypeView {
    pub name: Seq<char>,
    pub ty: Seq<Token>,
}

impl View for OtherType {
    type V = OtherTypeView;

    open spec fn view(&self) -> OtherTypeView {
        OtherTypeView { name: self.name@, ty: stream_tokens(self.ty) }
    }
}

impl OtherTypeView {
    /// The descriptor that the constructor builds from its arguments: both
    /// are kept.
    pub open spec fn new(name: Seq<char>, ty: Seq<Token>) -> OtherTypeView {
        OtherTypeView { name, ty }
    }

    /// Whether the descriptor has a name.
    pub open spec fn wf(self) -> bool {
        self.name.len() > 0
    }
}

impl OtherType {
    /// Describes a variable called `name` of the type that `tokens` spell.
    /// The name is kept as it is, digits or not, and the tokens are stored
    /// untouched, whatever they are.
    pub fn new(name: &str, tokens: TokenStream) -> (other: OtherType)
        requires
            name@.len() > 0,
        ensures
            other@ == OtherTypeView::new(name@, stream_tokens(tokens)),
            other.ty == tokens,
            other@.wf(),
    {
        OtherType { name: Identifier::new(name), ty: tokens }
    }

    /// Renders the type expression: the tokens that the descriptor was
    /// built with.
    pub fn ty(&self) -> (tokens: TokenStream)
        ensures
            tokens == self.ty,
    {
        self.ty.clone()
    }
}

} // verus!
