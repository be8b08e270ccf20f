//! What holds of every descriptor.

use crate::decimal::decimal_injective;
use crate::kind::{ScalarKind, TensorKind};
use crate::name::{escaped, is_digit, is_numeric};
use crate::other::OtherTypeView;
use crate::scalar::ScalarTypeView;
use crate::shape::ShapeTypeView;
use crate::tensor::TensorTypeView;
use crate::token::Token;
use crate::ty::TypeView;
use crate::violation::{name_violation, tensor_violation, Violation};
use vstd::prelude::*;

verus! {

/// Escaping puts an underscore in front of a name made of digits alone and
/// of no other name. What comes out is never empty and never numeric, so
/// escaping it again changes nothing.
pub proof fn escaping_only_numeric_names(name: Seq<char>)
    ensures
        is_numeric(name) ==> escaped(name) == seq!['_'] + name,
        !is_numeric(name) ==> escaped(name) == name,
        name.len() > 0 ==> escaped(name).len() > 0,
        !is_numeric(escaped(name)),
        escaped(escaped(name)) == escaped(name),
{
    if is_numeric(name) {
        assert(!is_digit(escaped(name)[0]));
    }
}

/// Of all descriptors only tensors escape their names: a scalar, a shape
/// and a descriptor of another type go by the name they were given, digits
/// or not, and a tensor does so unless that name is numeric.
pub proof fn only_tensor_names_escaped(
    name: Seq<char>,
    dim: nat,
    tensor_kind: TensorKind,
    shape: Option<Seq<usize>>,
    scalar_kind: ScalarKind,
    ty: Seq<Token>,
)
    ensures
        TypeView::Scalar(ScalarTypeView::new(name, scalar_kind)).name() == name,
        TypeView::Shape(ShapeTypeView::new(name, dim)).name() == name,
        TypeView::Other(OtherTypeView::new(name, ty)).name() == name,
        TypeView::Tensor(TensorTypeView::new(name, dim, tensor_kind, shape)).name() == name
            <==> !is_numeric(name),
{
}

/// A tensor built from a name that is not empty and a rank of at least one
/// is well formed, goes by the escaped name and keeps rank, kind and shape
/// as given.
pub proof fn tensor_built_as_asked(
    name: Seq<char>,
    dim: nat,
    kind: TensorKind,
    shape: Option<Seq<usize>>,
)
    requires
        name.len() > 0,
        dim >= 1,
    ensures
        TensorTypeView::new(name, dim, kind, shape).wf(),
        TensorTypeView::new(name, dim, kind, shape).name == escaped(name),
        TensorTypeView::new(name, dim, kind, shape).dim == dim,
        TensorTypeView::new(name, dim, kind, shape).kind == kind,
        TensorTypeView::new(name, dim, kind, shape).shape == shape,
        TypeView::Tensor(TensorTypeView::new(name, dim, kind, shape)).name() == escaped(name),
{
}

/// A tensor renders as `Tensor<Backend, dim>` when it holds floats, as
/// `Tensor<Backend, dim, Int>` when it holds integers and as
/// `Tensor<Backend, dim, Bool>` when it holds booleans.
pub proof fn tensor_rendering_table(tensor: TensorTypeView)
    ensures
        tensor.ty().len() == if tensor.kind == TensorKind::Float {
            6int
        } else {
            8int
        },
        tensor.ty()[0] == Token::Ident("Tensor"@),
        tensor.ty()[1] == Token::alone('<'),
        tensor.ty()[2] == Token::Ident("Backend"@),
        tensor.ty()[3] == Token::alone(','),
        tensor.ty()[4] == Token::number(tensor.dim),
        tensor.kind == TensorKind::Float ==> tensor.ty()[5] == Token::alone('>'),
        tensor.kind != TensorKind::Float ==> tensor.ty()[5] == Token::alone(','),
        tensor.kind == TensorKind::Int ==> tensor.ty()[6] == Token::Ident("Int"@),
        tensor.kind == TensorKind::Bool ==> tensor.ty()[6] == Token::Ident("Bool"@),
        tensor.kind != TensorKind::Float ==> tensor.ty()[7] == Token::alone('>'),
        TypeView::Tensor(tensor).ty() == tensor.ty(),
{
}

/// The rendering of a tensor is decided by its rank and kind, whatever its
/// name and shape, and tells both: tensors render alike exactly when they
/// agree in rank and kind.
pub proof fn tensor_rendering_by_rank_and_kind(a: TensorTypeView, b: TensorTypeView)
    ensures
        a.ty() == b.ty() <==> a.dim == b.dim && a.kind == b.kind,
{
    reveal_strlit("Int");
    reveal_strlit("Bool");
    if a.ty() == b.ty() {
        decimal_injective(a.dim, b.dim);
        if a.kind != TensorKind::Float {
            assert("Int"@[0] != "Bool"@[0]);
        }
    }
}

/// A scalar renders as the one primitive type of its kind: `i32`, `i64`,
/// `f32`, `f64` or `bool`.
pub proof fn scalar_rendering_table(scalar: ScalarTypeView)
    ensures
        scalar.ty().len() == 1,
        scalar.kind == ScalarKind::Int32 ==> scalar.ty()[0] == Token::Ident("i32"@),
        scalar.kind == ScalarKind::Int64 ==> scalar.ty()[0] == Token::Ident("i64"@),
        scalar.kind == ScalarKind::Float32 ==> scalar.ty()[0] == Token::Ident("f32"@),
        scalar.kind == ScalarKind::Float64 ==> scalar.ty()[0] == Token::Ident("f64"@),
        scalar.kind == ScalarKind::Bool ==> scalar.ty()[0] == Token::Ident("bool"@),
        TypeView::Scalar(scalar).ty() == scalar.ty(),
{
}

/// The rendering of a scalar is decided by its kind, whatever its name,
/// and tells the kind: scalars render alike exactly when they are of one
/// kind.
pub proof fn scalar_rendering_by_kind(a: ScalarTypeView, b: ScalarTypeView)
    ensures
        a.ty() == b.ty() <==> a.kind == b.kind,
{
    reveal_strlit("i32");
    reveal_strlit("i64");
    reveal_strlit("f32");
    reveal_strlit("f64");
    reveal_strlit("bool");
    if a.ty() == b.ty() {
        assert(a.ty()[0] == b.ty()[0]);
        let x = a.kind.primitive();
        let y = b.kind.primitive();
        assert(x[0] == y[0] && x[1] == y[1]);
    }
}

/// A shape renders as `[usize; dim]`, an array of as many sizes as it has
/// dimensions.
pub proof fn shape_rendering_table(shape: ShapeTypeView)
    ensures
        shape.ty().len() == 1,
        shape.ty()[0] == Token::bracket(
            seq![Token::Ident("usize"@), Token::alone(';'), Token::number(shape.dim)],
        ),
        TypeView::Shape(shape).ty() == shape.ty(),
{
}

/// The rendering of a shape is decided by its rank, whatever its name, and
/// tells the rank: shapes render alike exactly when they are of one rank.
pub proof fn shape_rendering_by_rank(a: ShapeTypeView, b: ShapeTypeView)
    ensures
        a.ty() == b.ty() <==> a.dim == b.dim,
{
    if a.ty() == b.ty() {
        assert(a.ty()[0]->Group_1[2] == b.ty()[0]->Group_1[2]);
        decimal_injective(a.dim, b.dim);
    }
}

/// The name of a descriptor is the name of the tensor, scalar, shape or
/// other descriptor inside it, and is not empty when that one is well
/// formed.
pub proof fn name_of_every_kind(ty: TypeView)
    ensures
        ty matches TypeView::Tensor(tensor) ==> ty.name() == tensor.name,
        ty matches TypeView::Scalar(scalar) ==> ty.name() == scalar.name,
        ty matches TypeView::Shape(shape) ==> ty.name() == shape.name,
        ty matches TypeView::Other(other) ==> ty.name() == other.name,
        ty.wf() ==> ty.name().len() > 0,
{
}

/// Nothing but an empty name keeps a scalar, a shape or a variable of
/// another type from being described, and nothing but an empty name or a
/// rank of zero a tensor. Where a tensor has both faults, the empty name is
/// the one reported.
pub proof fn violations_exactly(name: Seq<char>, dim: nat)
    ensures
        name_violation(name) is None <==> name.len() > 0,
        name_violation(name) == Some(Violation::EmptyName) <==> name.len() == 0,
        tensor_violation(name, dim) is None <==> name.len() > 0 && dim >= 1,
        tensor_violation(name, dim) == Some(Violation::EmptyName) <==> name.len() == 0,
        tensor_violation(name, dim) == Some(Violation::ZeroRank) <==> name.len() > 0 && dim == 0,
{
}

} // verus!
