use builder::classifier::ClassifiedField;
use builder::descriptor::{FieldDescriptor, TypeDescriptor};
use builder::syntax::{GenericArgument, PathArguments, PathSegment, TypePath, TypeToken};
use builder::synthesizer::{
    synthesize, BuilderField, Factory, FieldInit, PresenceCheck, Setter, SlotRead,
};

fn segment(ident: &str, arguments: PathArguments) -> PathSegment {
    PathSegment { ident: ident.to_string(), arguments }
}

fn named(ident: &str) -> TypeToken {
    TypeToken::Path(TypePath {
        qself: None,
        leading_colon: false,
        segments: vec![segment(ident, PathArguments::Empty)],
    })
}

fn option_of(payload: TypeToken) -> TypeToken {
    TypeToken::Path(TypePath {
        qself: None,
        leading_colon: false,
        segments: vec![segment(
            "Option",
            PathArguments::Angle(vec![GenericArgument::Type(payload)]),
        )],
    })
}

fn std_option_of(payload: TypeToken) -> TypeToken {
    TypeToken::Path(TypePath {
        qself: None,
        leading_colon: true,
        segments: vec![
            segment("std", PathArguments::Empty),
            segment("option", PathArguments::Empty),
            segment("Option", PathArguments::Angle(vec![GenericArgument::Type(payload)])),
        ],
    })
}

fn field(name: &str, declared_type: TypeToken) -> FieldDescriptor {
    FieldDescriptor { name: name.to_string(), declared_type }
}

fn config() -> TypeDescriptor {
    TypeDescriptor {
        name: "Config".to_string(),
        fields: vec![field("name", named("String")), field("timeout", option_of(named("u32")))],
    }
}

#[test]
fn builder_is_named_after_the_record() {
    assert_eq!(builder::derive(&config()).builder_name, "ConfigBuilder");
    assert_eq!(builder::derive(&config()).record_name, "Config");
    let empty_name = TypeDescriptor { name: String::new(), fields: vec![] };
    assert_eq!(builder::derive(&empty_name).builder_name, "Builder");
}

#[test]
fn config_gets_one_slot_for_each_field() {
    let artifact = builder::derive(&config());
    assert_eq!(
        artifact.builder_fields,
        vec![
            BuilderField {
                name: "name".to_string(),
                storage_type: std_option_of(named("String")),
            },
            BuilderField { name: "timeout".to_string(), storage_type: option_of(named("u32")) },
        ]
    );
}

#[test]
fn config_gets_one_setter_for_each_field() {
    let artifact = builder::derive(&config());
    assert_eq!(
        artifact.setters,
        vec![
            Setter { name: "name".to_string(), param_type: named("String") },
            Setter { name: "timeout".to_string(), param_type: named("u32") },
        ]
    );
}

#[test]
fn config_is_checked_for_its_required_field_only() {
    let artifact = builder::derive(&config());
    assert_eq!(
        artifact.validation,
        vec![PresenceCheck { slot: 0, field_name: "name".to_string() }]
    );
}

#[test]
fn config_is_constructed_field_by_field() {
    let artifact = builder::derive(&config());
    assert_eq!(
        artifact.construction,
        vec![
            FieldInit { name: "name".to_string(), read: SlotRead::Extract },
            FieldInit { name: "timeout".to_string(), read: SlotRead::AsStored },
        ]
    );
}

#[test]
fn config_gets_a_factory_with_every_slot_absent() {
    let artifact = builder::derive(&config());
    assert_eq!(
        artifact.factory,
        Factory {
            owner: "Config".to_string(),
            absent_slots: vec!["name".to_string(), "timeout".to_string()],
        }
    );
}

#[test]
fn record_without_fields_gets_an_empty_builder() {
    let artifact = builder::derive(&TypeDescriptor { name: "Unit".to_string(), fields: vec![] });
    assert_eq!(artifact.builder_name, "UnitBuilder");
    assert!(artifact.builder_fields.is_empty());
    assert!(artifact.setters.is_empty());
    assert!(artifact.validation.is_empty());
    assert!(artifact.construction.is_empty());
    assert_eq!(artifact.factory, Factory { owner: "Unit".to_string(), absent_slots: vec![] });
}

#[test]
fn checks_follow_the_declared_order_and_skip_optional_fields() {
    let record = TypeDescriptor {
        name: "Job".to_string(),
        fields: vec![
            field("retries", option_of(named("u8"))),
            field("command", named("String")),
            field("dir", option_of(named("String"))),
            field("env", named("Env")),
            field("user", named("User")),
        ],
    };
    let artifact = builder::derive(&record);
    assert_eq!(
        artifact.validation,
        vec![
            PresenceCheck { slot: 1, field_name: "command".to_string() },
            PresenceCheck { slot: 3, field_name: "env".to_string() },
            PresenceCheck { slot: 4, field_name: "user".to_string() },
        ]
    );
    let reads: Vec<SlotRead> = artifact.construction.iter().map(|f| f.read).collect();
    assert_eq!(
        reads,
        vec![
            SlotRead::AsStored,
            SlotRead::Extract,
            SlotRead::AsStored,
            SlotRead::Extract,
            SlotRead::Extract,
        ]
    );
}

#[test]
fn record_of_optional_fields_has_no_checks() {
    let record = TypeDescriptor {
        name: "Hints".to_string(),
        fields: vec![field("a", option_of(named("u8"))), field("b", option_of(named("u8")))],
    };
    let artifact = builder::derive(&record);
    assert!(artifact.validation.is_empty());
    assert_eq!(artifact.setters.len(), 2);
    assert_eq!(artifact.builder_fields[0].storage_type, option_of(named("u8")));
}

#[test]
fn alias_of_option_is_checked_like_any_required_field() {
    let record =
        TypeDescriptor { name: "R".to_string(), fields: vec![field("t", named("MaybeU32"))] };
    let artifact = builder::derive(&record);
    assert_eq!(artifact.validation, vec![PresenceCheck { slot: 0, field_name: "t".to_string() }]);
    assert_eq!(artifact.setters[0].param_type, named("MaybeU32"));
    assert_eq!(artifact.builder_fields[0].storage_type, std_option_of(named("MaybeU32")));
}

#[test]
fn synthesize_goes_by_the_classification_it_is_given() {
    let fields = vec![
        ClassifiedField {
            name: "x".to_string(),
            is_optional: true,
            effective_type: named("A"),
            storage_type: named("B"),
        },
        ClassifiedField {
            name: "y".to_string(),
            is_optional: false,
            effective_type: named("C"),
            storage_type: named("D"),
        },
    ];
    let artifact = synthesize("Pair", &fields);
    assert_eq!(artifact.record_name, "Pair");
    assert_eq!(artifact.builder_name, "PairBuilder");
    assert_eq!(
        artifact.builder_fields,
        vec![
            BuilderField { name: "x".to_string(), storage_type: named("B") },
            BuilderField { name: "y".to_string(), storage_type: named("D") },
        ]
    );
    assert_eq!(
        artifact.setters,
        vec![
            Setter { name: "x".to_string(), param_type: named("A") },
            Setter { name: "y".to_string(), param_type: named("C") },
        ]
    );
    assert_eq!(artifact.validation, vec![PresenceCheck { slot: 1, field_name: "y".to_string() }]);
    assert_eq!(
        artifact.construction,
        vec![
            FieldInit { name: "x".to_string(), read: SlotRead::AsStored },
            FieldInit { name: "y".to_string(), read: SlotRead::Extract },
        ]
    );
    assert_eq!(
        artifact.factory,
        Factory { owner: "Pair".to_string(), absent_slots: vec!["x".to_string(), "y".to_string()] }
    );
}

#[test]
fn derive_is_a_function_of_its_input() {
    assert_eq!(builder::derive(&config()), builder::derive(&config()));
}

#[test]
fn descriptor_with_named_fields_is_well_formed() {
    assert!(config().is_well_formed());
    assert!(TypeDescriptor { name: "Unit".to_string(), fields: vec![] }.is_well_formed());
}

#[test]
fn descriptor_with_a_nameless_field_is_not_well_formed() {
    let record = TypeDescriptor {
        name: "Pair".to_string(),
        fields: vec![field("first", named("u8")), field("", named("u8"))],
    };
    assert!(!record.is_well_formed());
}

#[test]
fn derived_description_is_well_formed() {
    assert!(builder::derive(&config()).is_well_formed());
    assert!(builder::derive(&TypeDescriptor { name: "Unit".to_string(), fields: vec![] })
        .is_well_formed());
}

#[test]
fn description_with_parts_of_different_length_is_not_well_formed() {
    let mut artifact = builder::derive(&config());
    artifact.setters.pop();
    assert!(!artifact.is_well_formed());
    let mut other = builder::derive(&config());
    other.builder_fields.pop();
    assert!(!other.is_well_formed());
    let mut third = builder::derive(&config());
    third.factory.absent_slots.push("extra".to_string());
    assert!(!third.is_well_formed());
}

#[test]
fn description_with_a_check_of_no_slot_is_not_well_formed() {
    let mut artifact = builder::derive(&config());
    artifact.validation.push(PresenceCheck { slot: 2, field_name: "ghost".to_string() });
    assert!(!artifact.is_well_formed());
}

#[test]
fn description_with_a_check_of_an_optional_field_is_not_well_formed() {
    let mut artifact = builder::derive(&config());
    artifact.validation.push(PresenceCheck { slot: 1, field_name: "timeout".to_string() });
    assert!(!artifact.is_well_formed());
}

#[test]
fn description_with_an_unguarded_extraction_is_not_well_formed() {
    let mut artifact = builder::derive(&config());
    artifact.validation.clear();
    assert!(!artifact.is_well_formed());
}

#[test]
fn description_with_a_repeated_check_is_well_formed() {
    let mut artifact = builder::derive(&config());
    artifact.validation.push(PresenceCheck { slot: 0, field_name: "name".to_string() });
    assert!(artifact.is_well_formed());
}

#[test]
fn slot_of_finds_a_setter_by_its_name() {
    let artifact = builder::derive(&config());
    assert_eq!(artifact.slot_of("name"), Some(0));
    assert_eq!(artifact.slot_of("timeout"), Some(1));
    assert_eq!(artifact.slot_of("retries"), None);
    assert_eq!(artifact.slot_of(""), None);
    assert_eq!(artifact.slot_of("Name"), None);
}

#[test]
fn slot_of_takes_the_first_of_two_setters_of_one_name() {
    let record = TypeDescriptor {
        name: "Twice".to_string(),
        fields: vec![field("a", named("u8")), field("b", named("u8")), field("b", named("u16"))],
    };
    assert_eq!(builder::derive(&record).slot_of("b"), Some(1));
}
