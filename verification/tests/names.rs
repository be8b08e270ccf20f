use burn_import::name::Identifier;
use burn_import::violation::{check_name, check_tensor};
use burn_import::{OtherType, ScalarKind, ScalarType, ShapeType, TensorType, Type, Violation};
use proc_macro2::TokenStream;

#[test]
fn numeric_names_get_an_underscore() {
    assert_eq!(TensorType::format_name("7"), "_7");
    assert_eq!(TensorType::format_name("42"), "_42");
    assert_eq!(TensorType::format_name("0123456789"), "_0123456789");
}

#[test]
fn other_names_are_kept() {
    assert_eq!(TensorType::format_name("input"), "input");
    assert_eq!(TensorType::format_name("x1"), "x1");
    assert_eq!(TensorType::format_name("1x"), "1x");
    assert_eq!(TensorType::format_name("12a34"), "12a34");
    assert_eq!(TensorType::format_name("_7"), "_7");
    assert_eq!(TensorType::format_name("-1"), "-1");
    assert_eq!(TensorType::format_name("1.5"), "1.5");
    assert_eq!(TensorType::format_name("a b"), "a b");
}

#[test]
fn digits_of_other_scripts_are_not_numeric() {
    assert_eq!(TensorType::format_name("٣"), "٣");
    assert_eq!(TensorType::format_name("1٣"), "1٣");
    assert_eq!(TensorType::format_name("①"), "①");
}

#[test]
fn empty_name_formats_to_an_underscore() {
    assert_eq!(TensorType::format_name(""), "_");
}

#[test]
fn escaping_twice_changes_nothing() {
    let once = TensorType::format_name("2024");
    assert_eq!(TensorType::format_name(&once), once);
}

#[test]
fn tensor_names_are_escaped() {
    assert_eq!(TensorType::new_float("7", 1).name.as_str(), "_7");
    assert_eq!(TensorType::new_int("42", 1).name.as_str(), "_42");
    assert_eq!(TensorType::new_bool("007", 1).name.as_str(), "_007");
    assert_eq!(TensorType::new_float_with_shape("9", 1, Some(vec![1])).name.as_str(),
        "_9"
    );
    assert_eq!(TensorType::new_int("conv1", 1).name.as_str(), "conv1");
}

#[test]
fn scalar_shape_and_other_names_are_not_escaped() {
    assert_eq!(ScalarType::new("7", ScalarKind::Int32).name.as_str(), "7");
    assert_eq!(ShapeType::new("7", 2).name.as_str(), "7");
    assert_eq!(OtherType::new("7", TokenStream::new()).name.as_str(), "7");
}

#[test]
fn type_name_is_the_name_inside() {
    assert_eq!(Type::Tensor(TensorType::new_float("t", 1)).name().as_str(), "t");
    assert_eq!(
        Type::Scalar(ScalarType::new("s", ScalarKind::Bool)).name().as_str(),
        "s"
    );
    assert_eq!(Type::Shape(ShapeType::new("h", 1)).name().as_str(), "h");
    assert_eq!(
        Type::Other(OtherType::new("o", TokenStream::new())).name().as_str(),
        "o"
    );
    assert_eq!(Type::Tensor(TensorType::new_float("5", 1)).name().as_str(), "_5");
    assert_eq!(
        Type::Scalar(ScalarType::new("5", ScalarKind::Bool)).name().as_str(),
        "5"
    );
}

#[test]
fn names_that_are_no_identifiers_are_kept() {
    assert_eq!(TensorType::new_float("a b", 1).name.as_str(), "a b");
    assert_eq!(ScalarType::new("my-scalar", ScalarKind::Int64).name.as_str(), "my-scalar");
    assert_eq!(ShapeType::new("größe", 1).name.as_str(), "größe");
}

#[test]
fn empty_name_is_a_violation() {
    assert_eq!(check_name(""), Some(Violation::EmptyName));
    assert_eq!(check_tensor("", 3), Some(Violation::EmptyName));
}

#[test]
fn empty_name_is_reported_before_zero_rank() {
    assert_eq!(check_tensor("", 0), Some(Violation::EmptyName));
}

#[test]
fn zero_rank_is_a_violation_for_tensors() {
    assert_eq!(check_tensor("t", 0), Some(Violation::ZeroRank));
    assert_eq!(check_tensor("7", 0), Some(Violation::ZeroRank));
}

#[test]
fn fit_arguments_have_no_violation() {
    assert_eq!(check_name("x"), None);
    assert_eq!(check_name("7"), None);
    assert_eq!(check_name(" "), None);
    assert_eq!(check_tensor("x", 1), None);
    assert_eq!(check_tensor("7", usize::MAX), None);
}

#[test]
fn identifier_keeps_its_characters() {
    assert_eq!(Identifier::new("input").as_str(), "input");
    assert_eq!(Identifier::new("7").as_str(), "7");
    assert_eq!(Identifier::new("größe").as_str(), "größe");
    assert_eq!(Identifier::new(" ").as_str(), " ");
}

#[test]
fn identifier_copies_are_equal() {
    let name = Identifier::new("layer1");
    let copy = name.clone();
    assert_eq!(copy.as_str(), "layer1");
    assert_eq!(copy, name);
    assert_ne!(copy, Identifier::new("layer2"));
}
