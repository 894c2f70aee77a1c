use schematic::codegen::{
    BuildError, Config, ConfigArgs, ExtendsKind, ExtendsValueType, SerdeArgs, SerdeDirective,
    Setting,
};
use schematic::error::ConfigError;
use schematic::resolver::{resolve_extends, ExtendsFrom};
use schematic::schema::{partialize_schema, Schema, SchemaType, StructType, UnionType};
use schematic::settings::{
    default_from_env_var, handle_default_fn, parse_value, EnvSnapshot,
};
use schematic::source::Source;

fn setting(name: &str, extendable: bool, value_type: ExtendsValueType) -> Setting {
    Setting { name: String::from(name), extendable, value_type }
}

fn config_with(settings: Vec<Setting>) -> Config {
    Config {
        args: ConfigArgs::default(),
        serde_args: SerdeArgs::default(),
        name: String::from("AppConfig"),
        settings,
    }
}

#[test]
fn two_extendable_settings_are_rejected_before_resolution() {
    let config = config_with(vec![
        setting("extends", true, ExtendsValueType::SingleString),
        setting("inherits", true, ExtendsValueType::StringList),
        setting("host", false, ExtendsValueType::Other),
    ]);
    assert_eq!(config.extends_from(), Err(BuildError::MultipleExtendable));
}

#[test]
fn single_extendable_setting_is_read_by_its_type() {
    let config = config_with(vec![setting("extends", true, ExtendsValueType::SingleString)]);
    let d = config.extends_from().unwrap().unwrap();
    assert_eq!(d.kind, ExtendsKind::FromString);
    assert_eq!(d.name, "extends");

    let config = config_with(vec![setting("extends", true, ExtendsValueType::StringList)]);
    let d = config.extends_from().unwrap().unwrap();
    assert_eq!(d.kind, ExtendsKind::FromList);

    let config = config_with(vec![setting("extends", true, ExtendsValueType::ExtendsUnion)]);
    let d = config.extends_from().unwrap().unwrap();
    assert_eq!(d.kind, ExtendsKind::FromValue);
}

#[test]
fn unsupported_extends_type_is_rejected() {
    let config = config_with(vec![setting("extends", true, ExtendsValueType::Other)]);
    assert_eq!(config.extends_from(), Err(BuildError::UnsupportedExtendsType));
}

#[test]
fn no_extendable_setting_means_no_extends_chain() {
    let config = config_with(vec![setting("host", false, ExtendsValueType::Other)]);
    assert_eq!(config.extends_from(), Ok(None));
}

#[test]
fn casing_format_falls_back_to_camel_case() {
    let mut config = config_with(Vec::new());
    assert_eq!(config.get_casing_format(), "camelCase");

    config.serde_args.rename_all = Some(String::from("snake_case"));
    assert_eq!(config.get_casing_format(), "snake_case");

    config.args.rename_all = Some(String::from("kebab-case"));
    assert_eq!(config.get_casing_format(), "kebab-case");
}

#[test]
fn meta_name_prefers_declared_rename() {
    let mut config = config_with(Vec::new());
    assert_eq!(config.get_meta_struct().name, "AppConfig");

    config.args.rename = Some(String::from("app"));
    assert_eq!(config.get_meta_struct().name, "app");
}

#[test]
fn serde_meta_directives_in_order() {
    let mut config = config_with(Vec::new());
    let meta = config.get_serde_meta();
    assert_eq!(
        meta,
        vec![
            SerdeDirective::Default,
            SerdeDirective::DenyUnknownFields,
            SerdeDirective::RenameAll(String::from("camelCase")),
        ]
    );

    config.args.allow_unknown_fields = true;
    config.serde_args.rename = Some(String::from("app"));
    let meta = config.get_serde_meta();
    assert_eq!(
        meta,
        vec![
            SerdeDirective::Default,
            SerdeDirective::Rename(String::from("app")),
            SerdeDirective::RenameAll(String::from("camelCase")),
        ]
    );
}

fn scalar(name: Option<&str>) -> Schema {
    Schema {
        name: name.map(String::from),
        optional: false,
        nullable: false,
        ty: SchemaType::Scalar,
    }
}

#[test]
fn partial_struct_is_renamed_and_fields_become_optional() {
    let schema = Schema {
        name: Some(String::from("ServerConfig")),
        optional: false,
        nullable: false,
        ty: SchemaType::Struct(StructType {
            partial: true,
            fields: vec![scalar(None), scalar(None)],
        }),
    };
    let out = partialize_schema(schema, false);
    assert_eq!(out.name, Some(String::from("PartialServerConfig")));
    match out.ty {
        SchemaType::Struct(inner) => {
            assert_eq!(inner.fields.len(), 2);
            for field in &inner.fields {
                assert!(field.optional);
                assert!(field.nullable);
            }
        },
        other => panic!("expected a struct, got {:?}", other),
    }
}

#[test]
fn already_prefixed_name_is_not_prefixed_again() {
    let schema = Schema {
        name: Some(String::from("PartialServerConfig")),
        optional: false,
        nullable: false,
        ty: SchemaType::Struct(StructType { partial: true, fields: Vec::new() }),
    };
    let out = partialize_schema(schema, false);
    assert_eq!(out.name, Some(String::from("PartialServerConfig")));
}

#[test]
fn partiality_propagates_through_struct_fields() {
    let inner_struct = Schema {
        name: Some(String::from("Nested")),
        optional: false,
        nullable: false,
        ty: SchemaType::Struct(StructType { partial: false, fields: vec![scalar(None)] }),
    };
    let schema = Schema {
        name: Some(String::from("Outer")),
        optional: false,
        nullable: false,
        ty: SchemaType::Struct(StructType { partial: true, fields: vec![inner_struct] }),
    };
    let out = partialize_schema(schema, false);
    match out.ty {
        SchemaType::Struct(outer) => {
            let nested = &outer.fields[0];
            assert_eq!(nested.name, Some(String::from("PartialNested")));
            assert!(nested.optional);
            match &nested.ty {
                SchemaType::Struct(inner) => assert!(inner.fields[0].optional),
                other => panic!("expected a nested struct, got {:?}", other),
            }
        },
        other => panic!("expected a struct, got {:?}", other),
    }
}

#[test]
fn non_partial_struct_keeps_its_shape() {
    let schema = Schema {
        name: Some(String::from("Plain")),
        optional: false,
        nullable: false,
        ty: SchemaType::Struct(StructType { partial: false, fields: vec![scalar(None)] }),
    };
    let out = partialize_schema(schema, false);
    assert_eq!(out.name, Some(String::from("Plain")));
    match out.ty {
        SchemaType::Struct(inner) => {
            assert!(!inner.fields[0].optional);
            assert!(!inner.fields[0].nullable);
        },
        other => panic!("expected a struct, got {:?}", other),
    }
}

#[test]
fn union_is_renamed_but_variants_are_not_forced_partial() {
    let variant = Schema {
        name: Some(String::from("Choice")),
        optional: false,
        nullable: false,
        ty: SchemaType::Struct(StructType { partial: false, fields: vec![scalar(None)] }),
    };
    let schema = Schema {
        name: Some(String::from("Mode")),
        optional: false,
        nullable: false,
        ty: SchemaType::Union(UnionType { partial: true, variants: vec![variant] }),
    };
    let out = partialize_schema(schema, false);
    assert_eq!(out.name, Some(String::from("PartialMode")));
    match out.ty {
        SchemaType::Union(inner) => {
            let v = &inner.variants[0];
            assert_eq!(v.name, Some(String::from("Choice")));
            match &v.ty {
                SchemaType::Struct(s) => assert!(!s.fields[0].optional),
                other => panic!("expected a struct variant, got {:?}", other),
            }
        },
        other => panic!("expected a union, got {:?}", other),
    }
}

#[test]
fn array_and_tuple_recurse_without_forcing() {
    let partial_struct = Schema {
        name: Some(String::from("Item")),
        optional: false,
        nullable: false,
        ty: SchemaType::Struct(StructType { partial: true, fields: vec![scalar(None)] }),
    };
    let schema = Schema {
        name: None,
        optional: false,
        nullable: false,
        ty: SchemaType::Array(Box::new(partial_struct)),
    };
    let out = partialize_schema(schema, false);
    match out.ty {
        SchemaType::Array(item) => {
            assert_eq!(item.name, Some(String::from("PartialItem")));
        },
        other => panic!("expected an array, got {:?}", other),
    }
}

#[test]
fn env_snapshot_lookup_and_parsing() {
    let mut env = EnvSnapshot::new();
    env.push(String::from("APP_HOST"), String::from("localhost"));
    env.push(String::from("APP_DEBUG"), String::from("true"));
    env.push(String::from("APP_BAD"), String::from("maybe"));

    let host: Option<String> = default_from_env_var(&env, "APP_HOST").unwrap();
    assert_eq!(host, Some(String::from("localhost")));

    let debug: Option<bool> = default_from_env_var(&env, "APP_DEBUG").unwrap();
    assert_eq!(debug, Some(true));

    let missing: Option<bool> = default_from_env_var(&env, "APP_MISSING").unwrap();
    assert_eq!(missing, None);

    let bad: Result<Option<bool>, _> = default_from_env_var(&env, "APP_BAD");
    assert!(bad.is_err());
}

#[test]
fn parse_value_accepts_and_rejects() {
    let b: bool = parse_value("false").unwrap();
    assert!(!b);
    let s: String = parse_value("anything").unwrap();
    assert_eq!(s, "anything");
    let bad: Result<bool, _> = parse_value("7");
    assert!(bad.is_err());
}

#[test]
fn default_handler_failure_becomes_invalid_default() {
    let ok: Result<i64, ConfigError> = handle_default_fn(Ok(5));
    assert_eq!(ok.unwrap(), 5);
    let err = handle_default_fn::<i64>(Err(String::from("boom"))).unwrap_err();
    assert_eq!(err, ConfigError::InvalidDefault(String::from("boom")));
}

#[test]
fn extends_references_resolve_in_order_under_the_parent() {
    let parent = Source::File { path: String::from("configs/base.yml") };
    let list = ExtendsFrom::List(vec![
        String::from("./one.yml"),
        String::from("https://example.com/two.yml"),
    ]);
    let sources = resolve_extends(&list, Some(&parent)).unwrap();
    assert_eq!(
        sources,
        vec![
            Source::File { path: String::from("configs/./one.yml") },
            Source::Url { url: String::from("https://example.com/two.yml") },
        ]
    );

    let single = ExtendsFrom::String(String::from("http://insecure.com/x.yml"));
    let err = resolve_extends(&single, Some(&parent)).unwrap_err();
    assert_eq!(err, ConfigError::HttpsOnly);
}

#[test]
fn first_environment_entry_shadows_later_ones() {
    let mut env = EnvSnapshot::new();
    env.push(String::from("KEY"), String::from("first"));
    env.push(String::from("KEY"), String::from("second"));
    assert_eq!(env.get("KEY"), Some(String::from("first")));
    assert_eq!(env.get("OTHER"), None);
}
