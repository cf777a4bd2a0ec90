use builder::descriptor::{FieldDescriptor, TypeDescriptor};
use builder::instance::{BuildError, BuilderInstance, FieldValue, Phase};
use builder::syntax::{GenericArgument, PathArguments, PathSegment, TypePath, TypeToken};

#[derive(Debug, PartialEq)]
enum Value {
    Text(String),
    Number(u32),
}

fn text(s: &str) -> Value {
    Value::Text(s.to_string())
}

fn named(ident: &str) -> TypeToken {
    TypeToken::Path(TypePath {
        qself: None,
        leading_colon: false,
        segments: vec![PathSegment { ident: ident.to_string(), arguments: PathArguments::Empty }],
    })
}

fn option_of(payload: TypeToken) -> TypeToken {
    TypeToken::Path(TypePath {
        qself: None,
        leading_colon: false,
        segments: vec![PathSegment {
            ident: "Option".to_string(),
            arguments: PathArguments::Angle(vec![GenericArgument::Type(payload)]),
        }],
    })
}

fn field(name: &str, declared_type: TypeToken) -> FieldDescriptor {
    FieldDescriptor { name: name.to_string(), declared_type }
}

fn config() -> TypeDescriptor {
    TypeDescriptor {
        name: "Config".to_string(),
        fields: vec![field("name", named("String")), field("timeout", option_of(named("u32")))],
    }
}

fn endpoint() -> TypeDescriptor {
    TypeDescriptor {
        name: "Endpoint".to_string(),
        fields: vec![
            field("host", named("String")),
            field("label", option_of(named("String"))),
            field("workers", named("u16")),
        ],
    }
}

#[test]
fn factory_hands_out_a_builder_with_every_slot_absent() {
    let artifact = builder::derive(&config());
    let builder: BuilderInstance<Value> = BuilderInstance::new(&artifact);
    assert_eq!(builder.slot_count(), 2);
    assert!(!builder.is_present(0));
    assert!(!builder.is_present(1));
    assert_eq!(builder.phase(), Phase::Fresh);
}

#[test]
fn config_without_a_name_fails_and_reports_name() {
    let artifact = builder::derive(&config());
    let mut builder: BuilderInstance<Value> = BuilderInstance::new(&artifact);
    assert_eq!(builder.build(), Err(BuildError::MissingField("name".to_string())));
}

#[test]
fn config_with_a_name_is_built_without_a_timeout() {
    let artifact = builder::derive(&config());
    let mut builder = BuilderInstance::new(&artifact);
    builder.set(0, text("svc"));
    assert_eq!(
        builder.build(),
        Ok(vec![FieldValue::Required(text("svc")), FieldValue::Optional(None)])
    );
}

#[test]
fn config_with_a_name_and_a_timeout_is_built_with_both() {
    let artifact = builder::derive(&config());
    let mut builder = BuilderInstance::new(&artifact);
    builder.set(0, text("svc")).set(1, Value::Number(30));
    assert_eq!(
        builder.build(),
        Ok(vec![
            FieldValue::Required(text("svc")),
            FieldValue::Optional(Some(Value::Number(30))),
        ])
    );
}

#[test]
fn config_is_built_step_by_step() {
    let artifact = builder::derive(&config());
    let mut builder = BuilderInstance::new(&artifact);
    assert!(!builder.is_present(0));
    assert!(!builder.is_present(1));
    assert_eq!(builder.build(), Err(BuildError::MissingField("name".to_string())));
    builder.set(0, text("svc"));
    assert_eq!(
        builder.build(),
        Ok(vec![FieldValue::Required(text("svc")), FieldValue::Optional(None)])
    );
    let mut with_timeout = BuilderInstance::new(&artifact);
    with_timeout.set(0, text("svc")).set(1, Value::Number(30));
    assert_eq!(
        with_timeout.build(),
        Ok(vec![
            FieldValue::Required(text("svc")),
            FieldValue::Optional(Some(Value::Number(30))),
        ])
    );
}

#[test]
fn setters_are_found_by_the_names_of_the_fields() {
    let artifact = builder::derive(&config());
    let name = artifact.slot_of("name").unwrap();
    let timeout = artifact.slot_of("timeout").unwrap();
    let mut builder = BuilderInstance::new(&artifact);
    builder.set(timeout, Value::Number(30)).set(name, text("svc"));
    assert_eq!(
        builder.build(),
        Ok(vec![
            FieldValue::Required(text("svc")),
            FieldValue::Optional(Some(Value::Number(30))),
        ])
    );
}

#[test]
fn config_with_a_timeout_alone_still_reports_name() {
    let artifact = builder::derive(&config());
    let mut builder = BuilderInstance::new(&artifact);
    builder.set(1, Value::Number(30));
    assert_eq!(builder.build(), Err(BuildError::MissingField("name".to_string())));
}

#[test]
fn first_of_two_missing_fields_is_reported() {
    let artifact = builder::derive(&endpoint());
    let mut builder: BuilderInstance<Value> = BuilderInstance::new(&artifact);
    assert_eq!(builder.build(), Err(BuildError::MissingField("host".to_string())));
    builder.set(1, text("edge"));
    assert_eq!(builder.build(), Err(BuildError::MissingField("host".to_string())));
}

#[test]
fn second_missing_field_is_reported_once_the_first_is_set() {
    let artifact = builder::derive(&endpoint());
    let mut builder = BuilderInstance::new(&artifact);
    builder.set(0, text("localhost"));
    assert_eq!(builder.build(), Err(BuildError::MissingField("workers".to_string())));
}

#[test]
fn failed_build_leaves_the_builder_as_it_was() {
    let artifact = builder::derive(&endpoint());
    let mut builder = BuilderInstance::new(&artifact);
    builder.set(0, text("localhost"));
    assert_eq!(builder.build(), Err(BuildError::MissingField("workers".to_string())));
    assert!(builder.is_present(0));
    assert!(!builder.is_present(1));
    assert!(!builder.is_present(2));
    assert_eq!(builder.phase(), Phase::Partial);
    builder.set(2, Value::Number(8080));
    assert_eq!(
        builder.build(),
        Ok(vec![
            FieldValue::Required(text("localhost")),
            FieldValue::Optional(None),
            FieldValue::Required(Value::Number(8080)),
        ])
    );
}

#[test]
fn every_field_set_once_comes_back_in_the_record() {
    let artifact = builder::derive(&endpoint());
    let mut builder = BuilderInstance::new(&artifact);
    builder.set(2, Value::Number(443)).set(0, text("example.org")).set(1, text("edge"));
    assert_eq!(
        builder.build(),
        Ok(vec![
            FieldValue::Required(text("example.org")),
            FieldValue::Optional(Some(text("edge"))),
            FieldValue::Required(Value::Number(443)),
        ])
    );
}

#[test]
fn last_value_set_for_a_field_wins() {
    let artifact = builder::derive(&config());
    let mut builder = BuilderInstance::new(&artifact);
    builder.set(0, text("first")).set(1, Value::Number(1)).set(0, text("second"));
    builder.set(1, Value::Number(2));
    assert_eq!(
        builder.build(),
        Ok(vec![
            FieldValue::Required(text("second")),
            FieldValue::Optional(Some(Value::Number(2))),
        ])
    );
}

#[test]
fn setter_marks_its_slot_and_no_other() {
    let artifact = builder::derive(&endpoint());
    let mut builder = BuilderInstance::new(&artifact);
    builder.set(1, text("edge"));
    assert!(!builder.is_present(0));
    assert!(builder.is_present(1));
    assert!(!builder.is_present(2));
    assert_eq!(builder.phase(), Phase::Partial);
}

#[test]
fn builder_builds_once() {
    let artifact = builder::derive(&config());
    let mut builder = BuilderInstance::new(&artifact);
    builder.set(0, text("svc"));
    assert!(builder.build().is_ok());
    assert_eq!(builder.phase(), Phase::Consumed);
    assert_eq!(builder.build(), Err(BuildError::Consumed));
    builder.set(0, text("again"));
    assert_eq!(builder.build(), Err(BuildError::Consumed));
    assert_eq!(builder.phase(), Phase::Consumed);
}

#[test]
fn successful_build_empties_every_slot() {
    let artifact = builder::derive(&config());
    let mut builder = BuilderInstance::new(&artifact);
    builder.set(0, text("svc")).set(1, Value::Number(30));
    assert!(builder.build().is_ok());
    assert_eq!(builder.slot_count(), 2);
    assert!(!builder.is_present(0));
    assert!(!builder.is_present(1));
}

#[test]
fn builder_of_a_record_without_fields_builds_at_once() {
    let artifact = builder::derive(&TypeDescriptor { name: "Unit".to_string(), fields: vec![] });
    let mut builder: BuilderInstance<Value> = BuilderInstance::new(&artifact);
    assert_eq!(builder.slot_count(), 0);
    assert_eq!(builder.phase(), Phase::Fresh);
    assert_eq!(builder.build(), Ok(vec![]));
    assert_eq!(builder.build(), Err(BuildError::Consumed));
}

#[test]
fn builder_of_optional_fields_builds_with_nothing_set() {
    let record = TypeDescriptor {
        name: "Hints".to_string(),
        fields: vec![field("a", option_of(named("u8"))), field("b", option_of(named("u8")))],
    };
    let artifact = builder::derive(&record);
    let mut builder: BuilderInstance<Value> = BuilderInstance::new(&artifact);
    assert_eq!(builder.build(), Ok(vec![FieldValue::Optional(None), FieldValue::Optional(None)]));
}

#[test]
fn field_declared_with_an_alias_must_be_set() {
    let record =
        TypeDescriptor { name: "R".to_string(), fields: vec![field("t", named("MaybeU32"))] };
    let artifact = builder::derive(&record);
    let mut builder: BuilderInstance<Value> = BuilderInstance::new(&artifact);
    assert_eq!(builder.build(), Err(BuildError::MissingField("t".to_string())));
}
