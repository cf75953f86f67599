use builder::classify::{transform_fields, FieldDescriptor};
use builder::runtime::{FieldValue, RecordBuilder};
use builder::shape::{RawField, TypeExpr};

#[derive(Debug, Clone, PartialEq)]
enum Value {
    Text(String),
    List(Vec<String>),
}

fn command_fields() -> Vec<FieldDescriptor> {
    transform_fields(&vec![
        RawField { name: "executable".to_string(), ty: TypeExpr::named("String") },
        RawField { name: "args".to_string(), ty: TypeExpr::generic("Vec", TypeExpr::named("String")) },
        RawField {
            name: "current_dir".to_string(),
            ty: TypeExpr::generic("Option", TypeExpr::named("String")),
        },
    ])
}

fn command_builder() -> RecordBuilder<Value> {
    RecordBuilder::new(command_fields())
}

fn text(s: &str) -> Value {
    Value::Text(s.to_string())
}

#[test]
fn new_builder_is_empty() {
    let b = command_builder();
    assert_eq!(b.slots.len(), 3);
    assert!(b.slots.iter().all(|s| s.is_none()));
}

#[test]
fn fresh_build_names_first_mandatory() {
    let mut b = command_builder();
    let e = b.build().err().expect("executable is unset");
    assert_eq!(e.index, 0);
    assert_eq!(e.field, "executable");
    assert_eq!(e.message(), "executable has no value.");
}

#[test]
fn command_without_executable_fails() {
    let mut b = command_builder();
    b.set(1, Value::List(vec![]));
    let e = b.build().err().expect("executable is unset");
    assert_eq!(e.message(), "executable has no value.");
    assert_eq!(b.slots[1], Some(Value::List(vec![])));
}

#[test]
fn command_with_mandatory_fields_builds() {
    let mut b = command_builder();
    b.set(0, text("ls"));
    b.set(1, Value::List(vec![]));
    let values = b.build().ok().expect("all mandatory fields are set");
    assert_eq!(
        values,
        vec![
            FieldValue::Required(text("ls")),
            FieldValue::Required(Value::List(vec![])),
            FieldValue::Optional(None),
        ]
    );
}

#[test]
fn failure_names_second_mandatory_when_first_is_set() {
    let mut b = command_builder();
    b.set(0, text("ls"));
    let e = b.build().err().expect("args is unset");
    assert_eq!(e.index, 1);
    assert_eq!(e.message(), "args has no value.");
    b.set(1, Value::List(vec!["-l".to_string()]));
    assert!(b.build().is_ok());
}

#[test]
fn build_twice_drains() {
    let mut b = command_builder();
    b.set(0, text("ls"));
    b.set(1, Value::List(vec!["-a".to_string()]));
    b.set(2, text("/tmp"));
    let values = b.build().ok().expect("every field is set");
    assert_eq!(values[2], FieldValue::Optional(Some(text("/tmp"))));
    assert!(b.slots.iter().all(|s| s.is_none()));
    let e = b.build().err().expect("slots were drained");
    assert_eq!(e.message(), "executable has no value.");
}

#[test]
fn last_set_wins() {
    let mut b = command_builder();
    b.set(0, text("ls"));
    b.set(0, text("cat"));
    b.set(1, Value::List(vec![]));
    b.set(2, text("/a"));
    b.set(2, text("/b"));
    let values = b.build().ok().expect("every field is set");
    assert_eq!(values[0], FieldValue::Required(text("cat")));
    assert_eq!(values[2], FieldValue::Optional(Some(text("/b"))));
}

#[test]
fn all_optional_builds_when_empty() {
    let fields = transform_fields(&vec![RawField {
        name: "x".to_string(),
        ty: TypeExpr::generic("Option", TypeExpr::named("u8")),
    }]);
    let mut b: RecordBuilder<u8> = RecordBuilder::new(fields);
    assert_eq!(b.build().ok(), Some(vec![FieldValue::Optional(None)]));
}

#[test]
fn empty_record_builds() {
    let mut b: RecordBuilder<u8> = RecordBuilder::new(Vec::new());
    assert_eq!(b.build().ok(), Some(vec![]));
}

#[test]
fn index_of_finds_fields() {
    let b = command_builder();
    assert_eq!(b.index_of(&"executable".to_string()), Some(0));
    assert_eq!(b.index_of(&"current_dir".to_string()), Some(2));
    assert_eq!(b.index_of(&"missing".to_string()), None);
}
