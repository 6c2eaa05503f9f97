use builder::schema::{
    classify, unwrap_wrapper, AttrValue, Attribute, Classification, FieldSchema, GenericArg,
    RecordSchema, SchemaError, TypeRef,
};
use builder::synth::{builder_name, FieldKind, ReadMode, StorageKind, WriteMode};

fn plain(text: &str) -> TypeRef {
    TypeRef::Path { text: text.to_string(), head: text.to_string(), args: vec![] }
}

fn wrapped(head: &str, inner: &str) -> TypeRef {
    TypeRef::Path {
        text: format!("{}<{}>", head, inner),
        head: head.to_string(),
        args: vec![GenericArg::Type(inner.to_string())],
    }
}

fn each(name: &str) -> Attribute {
    Attribute::Assign { key: "each".to_string(), value: AttrValue::Str(name.to_string()) }
}

fn field(name: &str, ty: TypeRef, attrs: Vec<Attribute>) -> FieldSchema {
    FieldSchema { name: name.to_string(), ty, attrs }
}

#[test]
fn plain_field_is_required() {
    let f = field("x", plain("i64"), vec![]);
    assert_eq!(classify(&f), Ok(Classification::Required("i64".to_string())));
}

#[test]
fn option_field_is_optional_of_inner() {
    let f = field("y", wrapped("Option", "String"), vec![]);
    assert_eq!(classify(&f), Ok(Classification::Optional("String".to_string())));
}

#[test]
fn vec_without_annotation_is_required() {
    let f = field("v", wrapped("Vec", "u8"), vec![]);
    assert_eq!(classify(&f), Ok(Classification::Required("Vec<u8>".to_string())));
}

#[test]
fn annotated_vec_is_accumulated() {
    let f = field("tags", wrapped("Vec", "String"), vec![each("tag")]);
    assert_eq!(
        classify(&f),
        Ok(Classification::Accumulated("String".to_string(), "tag".to_string()))
    );
}

#[test]
fn annotation_on_non_collection_is_mismatch() {
    let f = field("x", plain("i64"), vec![each("x1")]);
    assert_eq!(classify(&f), Err(SchemaError::AttributeTypeMismatch));
    let g = field("y", wrapped("Option", "i64"), vec![each("y1")]);
    assert_eq!(classify(&g), Err(SchemaError::AttributeTypeMismatch));
}

#[test]
fn annotation_mismatch_stops_derivation() {
    let record = RecordSchema {
        name: "Command".to_string(),
        fields: vec![
            field("tags", wrapped("Vec", "String"), vec![each("tag")]),
            field("x", plain("i64"), vec![each("x1")]),
        ],
    };
    assert_eq!(builder::synth::derive(&record), Err(SchemaError::AttributeTypeMismatch));
}

#[test]
fn two_annotations_are_rejected() {
    let f = field("tags", wrapped("Vec", "String"), vec![each("tag"), each("t")]);
    assert_eq!(classify(&f), Err(SchemaError::MultipleAttributes));
}

#[test]
fn annotation_with_other_key_is_malformed() {
    let a = Attribute::Assign { key: "every".to_string(), value: AttrValue::Str("tag".to_string()) };
    let f = field("tags", wrapped("Vec", "String"), vec![a]);
    assert_eq!(classify(&f), Err(SchemaError::MalformedAttribute));
}

#[test]
fn annotation_without_string_is_malformed() {
    let a = Attribute::Assign { key: "each".to_string(), value: AttrValue::Other("tag".to_string()) };
    let f = field("tags", wrapped("Vec", "String"), vec![a]);
    assert_eq!(classify(&f), Err(SchemaError::MalformedAttribute));
    let g = field("tags", wrapped("Vec", "String"), vec![Attribute::Unrecognized]);
    assert_eq!(classify(&g), Err(SchemaError::MalformedAttribute));
}

#[test]
fn wrapper_without_type_parameter_fails_extraction() {
    let bare = TypeRef::Path { text: "Option".to_string(), head: "Option".to_string(), args: vec![] };
    assert_eq!(classify(&field("y", bare, vec![])), Err(SchemaError::TypeExtractionFailed));
    let lifetime_only = TypeRef::Path {
        text: "Vec<'a>".to_string(),
        head: "Vec".to_string(),
        args: vec![GenericArg::Other("'a".to_string())],
    };
    assert_eq!(
        classify(&field("v", lifetime_only, vec![each("v1")])),
        Err(SchemaError::TypeExtractionFailed)
    );
}

#[test]
fn unwrapping_the_wrong_wrapper_fails() {
    assert_eq!(unwrap_wrapper(&wrapped("Vec", "u8"), "Option"), Err(SchemaError::TypeExtractionFailed));
    let tuple = TypeRef::Other { text: "(u8, u8)".to_string() };
    assert_eq!(unwrap_wrapper(&tuple, "Vec"), Err(SchemaError::TypeExtractionFailed));
    assert_eq!(unwrap_wrapper(&wrapped("Vec", "u8"), "Vec"), Ok("u8".to_string()));
}

#[test]
fn other_types_are_required_as_written() {
    let tuple = TypeRef::Other { text: "(u8, u8)".to_string() };
    assert_eq!(
        classify(&field("p", tuple, vec![])),
        Ok(Classification::Required("(u8, u8)".to_string()))
    );
}

#[test]
fn first_failing_field_decides_the_error() {
    let bare = TypeRef::Path { text: "Option".to_string(), head: "Option".to_string(), args: vec![] };
    let record = RecordSchema {
        name: "R".to_string(),
        fields: vec![
            field("a", plain("u8"), vec![]),
            field("b", bare, vec![]),
            field("c", plain("u8"), vec![each("c1"), each("c2")]),
        ],
    };
    assert_eq!(builder::synth::derive(&record), Err(SchemaError::TypeExtractionFailed));
}

#[test]
fn builder_name_appends_suffix() {
    assert_eq!(builder_name(&"Command".to_string()), "CommandBuilder".to_string());
    assert_eq!(builder_name(&String::new()), "Builder".to_string());
}

#[test]
fn derive_plans_every_field_in_order() {
    let record = RecordSchema {
        name: "Command".to_string(),
        fields: vec![
            field("executable", plain("String"), vec![]),
            field("current_dir", wrapped("Option", "String"), vec![]),
            field("args", wrapped("Vec", "String"), vec![each("arg")]),
        ],
    };
    let b = builder::synth::derive(&record).unwrap();
    assert_eq!(b.record_name, "Command");
    assert_eq!(b.builder_name, "CommandBuilder");
    assert_eq!(b.fields.len(), 3);
    assert_eq!(b.fields[0].name, "executable");
    assert_eq!(b.fields[0].mutator, "executable");
    assert_eq!(b.fields[0].elem_type, "String");
    assert_eq!(b.fields[0].kind, FieldKind::Required);
    assert_eq!(b.fields[1].name, "current_dir");
    assert_eq!(b.fields[1].mutator, "current_dir");
    assert_eq!(b.fields[1].elem_type, "String");
    assert_eq!(b.fields[1].kind, FieldKind::Optional);
    assert_eq!(b.fields[2].name, "args");
    assert_eq!(b.fields[2].mutator, "arg");
    assert_eq!(b.fields[2].elem_type, "String");
    assert_eq!(b.fields[2].kind, FieldKind::Accumulated);
}

#[test]
fn derive_of_empty_record() {
    let record = RecordSchema { name: "Unit".to_string(), fields: vec![] };
    let b = builder::synth::derive(&record).unwrap();
    assert_eq!(b.builder_name, "UnitBuilder");
    assert!(b.fields.is_empty());
}

#[test]
fn kinds_choose_storage_write_and_read() {
    assert_eq!(FieldKind::Required.storage(), StorageKind::Slot);
    assert_eq!(FieldKind::Optional.storage(), StorageKind::Slot);
    assert_eq!(FieldKind::Accumulated.storage(), StorageKind::List);
    assert_eq!(FieldKind::Required.write_mode(), WriteMode::Replace);
    assert_eq!(FieldKind::Optional.write_mode(), WriteMode::Replace);
    assert_eq!(FieldKind::Accumulated.write_mode(), WriteMode::Append);
    assert_eq!(FieldKind::Required.read_mode(), ReadMode::Take);
    assert_eq!(FieldKind::Optional.read_mode(), ReadMode::TakeOptional);
    assert_eq!(FieldKind::Accumulated.read_mode(), ReadMode::TakeList);
}
