//! Scalar descriptors.

use crate::kind::ScalarKind;
use crate::name::Identifier;
use crate::token::{empty_stream, push_ident, stream_tokens, Token};
use proc_macro2::TokenStream;
use vstd::prelude::*;

verus! {

/// A variable that holds one number or one boolean.
#[derive(Debug, Clone, PartialEq, Eq)]
pub struct ScalarType {
    pub name: Identifier,
    pub kind: ScalarKind,
}

/// The mathematical value of a [`ScalarType`].
pub struct ScalarTypeView {
    pub name: Seq<char>,
    pub kind: ScalarKind,
}

impl View for ScalarType {
    type V = ScalarTypeView;

    open spec fn view(&self) -> ScalarTypeView {
        ScalarTypeView { name: self.name@, kind: self.kind }
    }
}

impl ScalarKind {
    /// The primitive type that holds a scalar of this kind.
    pub open spec fn primitive(self) -> Seq<char> {
        match self {
            ScalarKind::Int32 => "i32"@,
            ScalarKind::Int64 => "i64"@,
            ScalarKind::Float32 => "f32"@,
            ScalarKind::Float64 => "f64"@,
            ScalarKind::Bool => "bool"@,
        }
    }
}

impl ScalarTypeView {
    /// The scalar that the constructor builds from its arguments: both are
    /// kept.
    pub open spec fn new(name: Seq<char>, kind: ScalarKind) -> ScalarTypeView {
        ScalarTypeView { name, kind }
    }

    /// Whether the scalar has a name.
    pub open spec fn wf(self) -> bool {
        self.name.len() > 0
    }

    /// The type expression of the scalar: the primitive type of its kind.
    pub open spec fn ty(self) -> Seq<Token> {
        seq![Token::Ident(self.kind.primitive())]
    }
}

impl ScalarType {
    /// Describes a scalar variable called `name`. The name is kept as it
    /// is, digits or not.
    pub fn new(name: &str, kind: ScalarKind) -> (scalar: ScalarType)
        requires
            name@.len() > 0,
        ensures
            scalar@ == ScalarTypeView::new(name@, kind),
            scalar@.wf(),
    {
        ScalarType { name: Identifier::new(name), kind }
    }

    /// Renders the type expression of the scalar.
    pub fn ty(&self) -> (tokens: TokenStream)
        ensures
            stream_tokens(tokens) == self@.ty(),
    {
        proof {
            reveal_strlit("i32");
            reveal_strlit("i64");
            reveal_strlit("f32");
            reveal_strlit("f64");
            reveal_strlit("bool");
        }
        let mut tokens = empty_stream();
        match self.kind {
            ScalarKind::Int32 => push_ident(&mut tokens, "i32"),
            ScalarKind::Int64 => push_ident(&mut tokens, "i64"),
            ScalarKind::Float32 => push_ident(&mut tokens, "f32"),
            ScalarKind::Float64 => push_ident(&mut tokens, "f64"),
            ScalarKind::Bool => push_ident(&mut tokens, "bool"),
        }
        tokens
    }
}

} // verus!
