use builder::classify::{transform_fields, FieldDescriptor};
use builder::shape::{
    extract, find_inner_type, is_wrapper_ident, DeclBody, Declaration, FieldsShape, GenericArgument,
    PathArguments, PathSegment, RawField, ShapeError, TypeExpr, TypeForm,
};
use builder::synth::{generate, make_build_method, make_builder_name, make_builder_setters, wrap_type};

fn field(name: &str, ty: TypeExpr) -> RawField {
    RawField { name: name.to_string(), ty }
}

fn command_fields() -> Vec<RawField> {
    vec![
        field("executable", TypeExpr::named("String")),
        field("args", TypeExpr::generic("Vec", TypeExpr::named("String"))),
        field("current_dir", TypeExpr::generic("Option", TypeExpr::named("String"))),
    ]
}

fn texts(v: &[String]) -> Vec<&str> {
    v.iter().map(|s| s.as_str()).collect()
}

#[test]
fn wrapper_ident_is_option() {
    assert!(is_wrapper_ident(&"Option".to_string()));
    assert!(!is_wrapper_ident(&"Optio".to_string()));
    assert!(!is_wrapper_ident(&"Options".to_string()));
    assert!(!is_wrapper_ident(&"option".to_string()));
}

#[test]
fn inner_type_of_option() {
    let ty = TypeExpr::generic("Option", TypeExpr::named("String"));
    assert_eq!(ty.text, "Option<String>");
    let inner = find_inner_type(&ty).expect("Option<String> wraps String");
    assert_eq!(inner.text, "String");
}

#[test]
fn inner_type_of_nested_option_is_one_level() {
    let ty = TypeExpr::generic("Option", TypeExpr::generic("Option", TypeExpr::named("u8")));
    let inner = find_inner_type(&ty).expect("outer Option is unwrapped");
    assert_eq!(inner.text, "Option<u8>");
}

#[test]
fn no_inner_type_for_other_shapes() {
    assert!(find_inner_type(&TypeExpr::named("String")).is_none());
    assert!(find_inner_type(&TypeExpr::named("Option")).is_none());
    assert!(find_inner_type(&TypeExpr::generic("Vec", TypeExpr::named("u8"))).is_none());
    assert!(find_inner_type(&TypeExpr::other("&'a str")).is_none());
}

#[test]
fn no_inner_type_with_two_arguments() {
    let seg = PathSegment {
        ident: "Option".to_string(),
        arguments: PathArguments::AngleBracketed {
            args: vec![
                GenericArgument::Type(TypeExpr::named("u8")),
                GenericArgument::Type(TypeExpr::named("u16")),
            ],
        },
    };
    let ty = TypeExpr { text: "Option<u8, u16>".to_string(), form: TypeForm::Path { segments: vec![seg] } };
    assert!(find_inner_type(&ty).is_none());
}

#[test]
fn no_inner_type_for_lifetime_argument() {
    let seg = PathSegment {
        ident: "Option".to_string(),
        arguments: PathArguments::AngleBracketed { args: vec![GenericArgument::Other] },
    };
    let ty = TypeExpr { text: "Option<'a>".to_string(), form: TypeForm::Path { segments: vec![seg] } };
    assert!(find_inner_type(&ty).is_none());
}

#[test]
fn only_leading_segment_is_matched() {
    let segs = vec![
        PathSegment { ident: "std".to_string(), arguments: PathArguments::Bare },
        PathSegment { ident: "option".to_string(), arguments: PathArguments::Bare },
        PathSegment {
            ident: "Option".to_string(),
            arguments: PathArguments::AngleBracketed {
                args: vec![GenericArgument::Type(TypeExpr::named("u8"))],
            },
        },
    ];
    let ty = TypeExpr { text: "std::option::Option<u8>".to_string(), form: TypeForm::Path { segments: segs } };
    assert!(find_inner_type(&ty).is_none());
}

#[test]
fn extract_refuses_enum_and_union() {
    let e = Declaration { name: "E".to_string(), body: DeclBody::Enum };
    assert_eq!(extract(e).err(), Some(ShapeError::NotARecord));
    let u = Declaration { name: "U".to_string(), body: DeclBody::Union };
    assert_eq!(builder::synth::derive(u).err(), Some(ShapeError::NotARecord));
}

#[test]
fn extract_refuses_unnamed_fields() {
    let t = Declaration { name: "T".to_string(), body: DeclBody::Struct(FieldsShape::Unnamed) };
    assert_eq!(extract(t).err(), Some(ShapeError::UnnamedFields));
    let u = Declaration { name: "U".to_string(), body: DeclBody::Struct(FieldsShape::Unit) };
    assert_eq!(builder::synth::derive(u).err(), Some(ShapeError::UnnamedFields));
}

#[test]
fn extract_keeps_name_and_fields() {
    let d = Declaration { name: "Command".to_string(), body: DeclBody::Struct(FieldsShape::Named(command_fields())) };
    let rec = extract(d).ok().expect("a struct with named fields is a record");
    assert_eq!(rec.name, "Command");
    let names: Vec<&str> = rec.fields.iter().map(|f| f.name.as_str()).collect();
    assert_eq!(names, vec!["executable", "args", "current_dir"]);
}

#[test]
fn classification_of_command() {
    let ds: Vec<FieldDescriptor> = transform_fields(&command_fields());
    assert_eq!(ds.len(), 3);
    assert!(!ds[0].is_optional());
    assert!(!ds[1].is_optional());
    assert!(ds[2].is_optional());
    assert_eq!(ds[0].get_core_type(), "String");
    assert_eq!(ds[1].get_core_type(), "Vec<String>");
    assert_eq!(ds[2].get_core_type(), "String");
    assert_eq!(ds[2].declared_type, "Option<String>");
    assert_eq!(ds[2].inner_type.as_deref(), Some("String"));
}

#[test]
fn builder_name_has_suffix() {
    assert_eq!(make_builder_name(&"Command".to_string()), "CommandBuilder");
}

#[test]
fn wrap_type_wraps_in_option() {
    assert_eq!(wrap_type(&"u8".to_string()), "Option<u8>");
}

#[test]
fn setters_take_visible_types() {
    let setters = make_builder_setters(&command_fields());
    let got: Vec<(&str, &str)> = setters.iter().map(|s| (s.name.as_str(), s.param_type.as_str())).collect();
    assert_eq!(got, vec![("executable", "String"), ("args", "Vec<String>"), ("current_dir", "String")]);
}

#[test]
fn build_method_splits_fields() {
    let b = make_build_method(&"Command".to_string(), &command_fields());
    assert_eq!(b.record_name, "Command");
    assert_eq!(texts(&b.mandatory), vec!["executable", "args"]);
    assert_eq!(texts(&b.optional), vec!["current_dir"]);
}

#[test]
fn generate_command_builder() {
    let a = generate(&"Command".to_string(), &command_fields());
    assert_eq!(a.factory.record_name, "Command");
    assert_eq!(a.factory.builder_name, "CommandBuilder");
    assert_eq!(texts(&a.factory.empty_slots), vec!["executable", "args", "current_dir"]);
    assert_eq!(a.builder.name, "CommandBuilder");
    let slots: Vec<(&str, &str)> = a.builder.slots.iter().map(|s| (s.name.as_str(), s.stored_type.as_str())).collect();
    assert_eq!(
        slots,
        vec![("executable", "Option<String>"), ("args", "Option<Vec<String>>"), ("current_dir", "Option<String>")]
    );
    assert_eq!(a.builder.setters.len(), 3);
    assert_eq!(a.builder.setters[2].param_type, "String");
    assert_eq!(texts(&a.builder.build.mandatory), vec!["executable", "args"]);
    assert_eq!(texts(&a.builder.build.optional), vec!["current_dir"]);
}

#[test]
fn generate_empty_record() {
    let a = generate(&"Empty".to_string(), &Vec::new());
    assert!(a.builder.slots.is_empty());
    assert!(a.builder.setters.is_empty());
    assert!(a.factory.empty_slots.is_empty());
    assert_eq!(a.builder.name, "EmptyBuilder");
}

#[test]
fn derive_on_record() {
    let d = Declaration { name: "Command".to_string(), body: DeclBody::Struct(FieldsShape::Named(command_fields())) };
    let a = builder::synth::derive(d).ok().expect("records get a builder");
    assert_eq!(a.builder.name, "CommandBuilder");
    assert_eq!(a.builder.slots.len(), 3);
}
