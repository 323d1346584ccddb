use ast_core::GenericType;
use ast_core::Type;

fn list_of(t: Type) -> Type {
    Type::Generic(GenericType { base: "List".to_string(), parameters: vec![t] })
}

#[test]
fn type_equality_is_reflexive() {
    let t = Type::Tuple(vec![
        Type::Int,
        Type::Array(Box::new(Type::Bool)),
        list_of(Type::Custom("Point".to_string())),
        Type::Infer,
    ]);
    assert!(t == t);
}

#[test]
fn generic_parameter_distinguishes_types() {
    let ints = list_of(Type::Int);
    let floats = list_of(Type::Float);
    assert!(ints == list_of(Type::Int));
    assert!(ints != floats);
}

#[test]
fn generic_base_distinguishes_types() {
    let a = Type::Generic(GenericType { base: "List".to_string(), parameters: vec![Type::Int] });
    let b = Type::Generic(GenericType { base: "Set".to_string(), parameters: vec![Type::Int] });
    assert!(a != b);
}

#[test]
fn tuple_length_distinguishes_types() {
    let a = Type::Tuple(vec![Type::Int, Type::Bool]);
    let b = Type::Tuple(vec![Type::Int]);
    assert!(a != b);
    assert!(a != Type::Int);
}

#[test]
fn custom_types_compare_by_name() {
    assert!(Type::Custom("Foo".to_string()) == Type::Custom("Foo".to_string()));
    assert!(Type::Custom("Foo".to_string()) != Type::Custom("Bar".to_string()));
}

#[test]
fn nested_arrays_compare_structurally() {
    let a = Type::Array(Box::new(Type::Array(Box::new(Type::Char))));
    let b = Type::Array(Box::new(Type::Array(Box::new(Type::Char))));
    let c = Type::Array(Box::new(Type::Char));
    assert!(a == b);
    assert!(a != c);
}

#[test]
fn cloned_type_is_structurally_equal() {
    let t = list_of(Type::Tuple(vec![Type::String, Type::Array(Box::new(Type::Int))]));
    let u = t.clone();
    assert!(u == t);
}

#[test]
fn generic_type_struct_equality() {
    let a = GenericType { base: "Map".to_string(), parameters: vec![Type::String, Type::Int] };
    let b = GenericType { base: "Map".to_string(), parameters: vec![Type::String, Type::Int] };
    let c = GenericType { base: "Map".to_string(), parameters: vec![Type::String, Type::Bool] };
    assert!(a == b);
    assert!(a != c);
}
