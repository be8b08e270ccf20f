use burn_import::{ShapeType, Type};
use proc_macro2::{Delimiter, Spacing, TokenStream, TokenTree};

#[test]
fn shape_renders_as_an_array_of_sizes() {
    let shape = ShapeType::new("dims", 4);
    assert_eq!(shape.ty().to_string(), "[usize ; 4]");
}

#[test]
fn shape_is_one_bracket_group_of_three_tokens() {
    let trees: Vec<TokenTree> = ShapeType::new("dims", 2).ty().into_iter().collect();
    assert_eq!(trees.len(), 1);
    let group = match &trees[0] {
        TokenTree::Group(group) => group.clone(),
        other => panic!("not a group: {}", other),
    };
    assert_eq!(group.delimiter(), Delimiter::Bracket);
    let inner: Vec<TokenTree> = group.stream().into_iter().collect();
    assert_eq!(inner.len(), 3);
    assert!(matches!(&inner[0], TokenTree::Ident(ident) if ident == "usize"));
    assert!(matches!(
        &inner[1],
        TokenTree::Punct(punct) if punct.as_char() == ';' && punct.spacing() == Spacing::Alone
    ));
    assert!(matches!(&inner[2], TokenTree::Literal(literal) if literal.to_string() == "2"));
}

#[test]
fn shape_rendering_reads_like_the_written_type() {
    let written: TokenStream = "[usize; 7]".parse().unwrap();
    assert_eq!(ShapeType::new("s", 7).ty().to_string(), written.to_string());
}

#[test]
fn shape_rendering_ignores_the_name() {
    let first = ShapeType::new("first", 3);
    let second = ShapeType::new("3", 3);
    assert_eq!(first.ty().to_string(), second.ty().to_string());
}

#[test]
fn shape_of_rank_zero_renders_as_an_empty_array() {
    assert_eq!(ShapeType::new("none", 0).ty().to_string(), "[usize ; 0]");
}

#[test]
fn shape_constructor_keeps_name_and_rank() {
    let shape = ShapeType::new("dims", 5);
    assert_eq!(shape.name.as_str(), "dims");
    assert_eq!(shape.dim, 5);
}

#[test]
fn shape_inside_type_renders_alike() {
    let ty = Type::Shape(ShapeType::new("dims", 1));
    assert_eq!(ty.ty().to_string(), "[usize ; 1]");
}

#[test]
fn make_shape_of_rank_three() {
    let ty = Type::Shape(ShapeType::new("s", 3));
    assert_eq!(ty.name().as_str(), "s");
    assert_eq!(ty.ty().to_string(), "[usize ; 3]");
}

#[test]
fn shape_rank_is_spelled_in_decimal() {
    assert_eq!(ShapeType::new("s", 10).ty().to_string(), "[usize ; 10]");
    assert_eq!(ShapeType::new("s", 205).ty().to_string(), "[usize ; 205]");
    assert_eq!(
        ShapeType::new("s", usize::MAX).ty().to_string(),
        format!("[usize ; {}]", usize::MAX)
    );
}
