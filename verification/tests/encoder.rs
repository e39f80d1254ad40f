//! Rendering input fields to SDL text.

use rover_composition::input_field::{Description, InputField, Type_};

#[test]
fn it_encodes_fields_with_defaults() {
    let ty_1 = Type_::NamedType {
        name: "CatBreed".to_string(),
    };

    let mut field = InputField::new("cat".to_string(), ty_1);
    field.default(Some("\"Norwegian Forest\"".to_string()));

    assert_eq!(field.encode(), r#"  cat: CatBreed = "Norwegian Forest""#);
}

#[test]
fn it_encodes_fields_without_defaults() {
    let ty = Type_::NamedType { name: "String".to_string() };
    let field = InputField::new("name".to_string(), ty);
    assert_eq!(field.encode(), "  name: String");
}

#[test]
fn it_encodes_wrapped_types() {
    let ty = Type_::NonNull {
        ty: Box::new(Type_::List {
            ty: Box::new(Type_::NonNull {
                ty: Box::new(Type_::NamedType { name: "Int".to_string() }),
            }),
        }),
    };
    assert_eq!(ty.encode(), "[Int!]!");
}

#[test]
fn it_encodes_descriptions() {
    let ty = Type_::NamedType { name: "String".to_string() };
    let mut field = InputField::new("name".to_string(), ty);
    field.description(Some("The cat's name.".to_string()));
    assert_eq!(field.encode(), "  \"\"\"The cat's name.\"\"\"\n  name: String");
    assert_eq!(
        field.description,
        Description::Field { source: Some("The cat's name.".to_string()) }
    );
}
