use schematic::error::{HandlerError, PathSegment};
use schematic::partial::{
    finalize, merge_partial, FieldSpec, FieldValue, MergePolicy, PartialFields, ValidateRule,
};
use schematic::resolver::merge_layers;
use schematic::settings::{merge_partial_setting, merge_setting};

fn spec(name: &str, policy: MergePolicy) -> FieldSpec {
    FieldSpec {
        name: String::from(name),
        policy,
        rule: ValidateRule::Anything,
        fields: Vec::new(),
    }
}

fn partial(values: Vec<Option<FieldValue>>) -> PartialFields {
    PartialFields { values }
}

#[test]
fn disjoint_merge_is_commutative_union() {
    let specs = vec![
        spec("host", MergePolicy::Replace),
        spec("port", MergePolicy::Reject),
        spec("tags", MergePolicy::Append),
    ];
    let a = partial(vec![
        Some(FieldValue::Str(String::from("localhost"))),
        None,
        None,
    ]);
    let b = partial(vec![None, Some(FieldValue::Int(8080)), None]);
    let a2 = partial(vec![
        Some(FieldValue::Str(String::from("localhost"))),
        None,
        None,
    ]);
    let b2 = partial(vec![None, Some(FieldValue::Int(8080)), None]);

    let ab = merge_partial(a, b, &specs).unwrap();
    let ba = merge_partial(b2, a2, &specs).unwrap();
    assert_eq!(ab, ba);
    assert_eq!(
        ab,
        partial(vec![
            Some(FieldValue::Str(String::from("localhost"))),
            Some(FieldValue::Int(8080)),
            None,
        ])
    );
}

#[test]
fn overlap_follows_declared_policy() {
    let specs = vec![
        spec("keep", MergePolicy::Preserve),
        spec("take", MergePolicy::Replace),
        spec("tags", MergePolicy::Append),
    ];
    let a = partial(vec![
        Some(FieldValue::Int(1)),
        Some(FieldValue::Int(10)),
        Some(FieldValue::List(vec![String::from("x")])),
    ]);
    let b = partial(vec![
        Some(FieldValue::Int(2)),
        Some(FieldValue::Int(20)),
        Some(FieldValue::List(vec![String::from("y")])),
    ]);
    let merged = merge_partial(a, b, &specs).unwrap();
    assert_eq!(
        merged,
        partial(vec![
            Some(FieldValue::Int(1)),
            Some(FieldValue::Int(20)),
            Some(FieldValue::List(vec![String::from("x"), String::from("y")])),
        ])
    );
}

#[test]
fn overlap_resolution_ignores_unrelated_fields() {
    let specs = vec![spec("first", MergePolicy::Replace), spec("other", MergePolicy::Replace)];
    let a1 = partial(vec![Some(FieldValue::Int(1)), Some(FieldValue::Int(100))]);
    let b1 = partial(vec![Some(FieldValue::Int(2)), None]);
    let a2 = partial(vec![Some(FieldValue::Int(1)), None]);
    let b2 = partial(vec![Some(FieldValue::Int(2)), Some(FieldValue::Int(999))]);

    let m1 = merge_partial(a1, b1, &specs).unwrap();
    let m2 = merge_partial(a2, b2, &specs).unwrap();
    assert_eq!(m1.values[0], m2.values[0]);
    assert_eq!(m1.values[0], Some(FieldValue::Int(2)));
}

#[test]
fn reject_policy_fails_only_on_overlap() {
    let specs = vec![spec("only_once", MergePolicy::Reject)];
    let a = partial(vec![Some(FieldValue::Int(1))]);
    let b = partial(vec![Some(FieldValue::Int(2))]);
    assert!(merge_partial(a, b, &specs).is_err());

    let a = partial(vec![Some(FieldValue::Int(1))]);
    let b = partial(vec![None]);
    let m = merge_partial(a, b, &specs).unwrap();
    assert_eq!(m, partial(vec![Some(FieldValue::Int(1))]));
}

#[test]
fn deep_merge_of_nested_partials() {
    let nested_specs = vec![spec("x", MergePolicy::Replace), spec("y", MergePolicy::Replace)];
    let mut outer = spec("inner", MergePolicy::Merge);
    outer.fields = nested_specs;
    let specs = vec![outer];

    let a = partial(vec![Some(FieldValue::Nested(partial(vec![
        Some(FieldValue::Int(1)),
        None,
    ])))]);
    let b = partial(vec![Some(FieldValue::Nested(partial(vec![
        None,
        Some(FieldValue::Int(2)),
    ])))]);
    let m = merge_partial(a, b, &specs).unwrap();
    assert_eq!(
        m,
        partial(vec![Some(FieldValue::Nested(partial(vec![
            Some(FieldValue::Int(1)),
            Some(FieldValue::Int(2)),
        ])))])
    );
}

#[test]
fn finalize_orders_defaults_explicit_env() {
    let specs = vec![spec("host", MergePolicy::Replace), spec("port", MergePolicy::Replace)];
    let defaults = partial(vec![
        Some(FieldValue::Str(String::from("localhost"))),
        Some(FieldValue::Int(80)),
    ]);
    let explicit = partial(vec![Some(FieldValue::Str(String::from("example.com"))), None]);
    let env = partial(vec![None, Some(FieldValue::Int(9090))]);

    let out = finalize(&specs, defaults, explicit, env).unwrap();
    assert_eq!(
        out,
        partial(vec![
            Some(FieldValue::Str(String::from("example.com"))),
            Some(FieldValue::Int(9090)),
        ])
    );
}

#[test]
fn finalize_twice_on_equal_inputs_is_equal() {
    let specs = vec![spec("a", MergePolicy::Replace), spec("b", MergePolicy::Replace)];
    let d = partial(vec![Some(FieldValue::Int(1)), None]);
    let p = partial(vec![None, Some(FieldValue::Int(2))]);
    let e = partial(vec![Some(FieldValue::Int(3)), None]);
    let d2 = partial(vec![Some(FieldValue::Int(1)), None]);
    let p2 = partial(vec![None, Some(FieldValue::Int(2))]);
    let e2 = partial(vec![Some(FieldValue::Int(3)), None]);

    let once = finalize(&specs, d, p, e).unwrap();
    let twice = finalize(&specs, d2, p2, e2).unwrap();
    assert_eq!(once, twice);
}

#[test]
fn layers_merge_in_declaration_order() {
    let specs = vec![spec("v", MergePolicy::Replace)];
    let acc = partial(vec![None]);
    let layers = vec![
        partial(vec![Some(FieldValue::Int(1))]),
        partial(vec![Some(FieldValue::Int(2))]),
        partial(vec![None]),
    ];
    let out = merge_layers(&specs, acc, layers).unwrap();
    assert_eq!(out, partial(vec![Some(FieldValue::Int(2))]));
}

#[test]
fn merge_setting_prefers_present_side() {
    let keep = |p: i64, _n: i64, _c: &()| -> Result<Option<i64>, HandlerError> { Ok(Some(p)) };
    assert_eq!(merge_setting(None, Some(2), &(), keep).unwrap(), Some(2));
    assert_eq!(merge_setting(Some(1), None, &(), keep).unwrap(), Some(1));
    assert_eq!(merge_setting::<i64, (), _>(None, None, &(), keep).unwrap(), None);
    assert_eq!(merge_setting(Some(1), Some(2), &(), keep).unwrap(), Some(1));
}

#[test]
fn merge_partial_setting_deep_merges_both_sides() {
    let specs = vec![spec("x", MergePolicy::Replace)];
    let a = partial(vec![Some(FieldValue::Int(1))]);
    let b = partial(vec![Some(FieldValue::Int(2))]);
    let m = merge_partial_setting(Some(a), Some(b), &specs).unwrap();
    assert_eq!(m, Some(partial(vec![Some(FieldValue::Int(2))])));

    let only = merge_partial_setting(None, Some(partial(vec![None])), &specs).unwrap();
    assert_eq!(only, Some(partial(vec![None])));
}

#[test]
fn validation_collects_every_failing_leaf() {
    let mut server = FieldSpec {
        name: String::from("server"),
        policy: MergePolicy::Merge,
        rule: ValidateRule::Anything,
        fields: vec![
            FieldSpec {
                name: String::from("host"),
                policy: MergePolicy::Replace,
                rule: ValidateRule::NonEmptyStr,
                fields: Vec::new(),
            },
            FieldSpec {
                name: String::from("port"),
                policy: MergePolicy::Replace,
                rule: ValidateRule::NonNegativeInt,
                fields: Vec::new(),
            },
        ],
    };
    server.rule = ValidateRule::Required;
    let specs = vec![server];

    let bad = partial(vec![Some(FieldValue::Nested(partial(vec![
        Some(FieldValue::Str(String::new())),
        Some(FieldValue::Int(-1)),
    ])))]);

    let err = bad.validate_with_path(&specs, Vec::new()).unwrap_err();
    assert_eq!(err.errors.len(), 2);
    assert_eq!(
        err.errors[0].path,
        vec![
            PathSegment::Key(String::from("server")),
            PathSegment::Key(String::from("host")),
        ]
    );
    assert_eq!(err.errors[0].message, "must not be empty");
    assert_eq!(
        err.errors[1].path,
        vec![
            PathSegment::Key(String::from("server")),
            PathSegment::Key(String::from("port")),
        ]
    );
    assert_eq!(err.errors[1].message, "must not be negative");
}

#[test]
fn validation_accepts_a_valid_tree() {
    let specs = vec![FieldSpec {
        name: String::from("host"),
        policy: MergePolicy::Replace,
        rule: ValidateRule::NonEmptyStr,
        fields: Vec::new(),
    }];
    let good = partial(vec![Some(FieldValue::Str(String::from("localhost")))]);
    assert!(good.validate_with_path(&specs, Vec::new()).is_ok());

    let missing = partial(vec![None]);
    assert!(missing.validate_with_path(&specs, Vec::new()).is_ok());
}

#[test]
fn required_rule_rejects_absent_value() {
    let specs = vec![FieldSpec {
        name: String::from("host"),
        policy: MergePolicy::Replace,
        rule: ValidateRule::Required,
        fields: Vec::new(),
    }];
    let missing = partial(vec![None]);
    let err = missing.validate_with_path(&specs, Vec::new()).unwrap_err();
    assert_eq!(err.errors.len(), 1);
    assert_eq!(err.errors[0].message, "this setting is required");
}

#[test]
fn empty_partial_has_one_absent_slot_per_field() {
    let p = PartialFields::empty(3);
    assert_eq!(p.values, vec![None, None, None]);
}

#[test]
fn merging_no_layers_keeps_the_accumulator() {
    let specs = vec![spec("v", MergePolicy::Replace)];
    let acc = partial(vec![Some(FieldValue::Int(7))]);
    let out = merge_layers(&specs, acc, Vec::new()).unwrap();
    assert_eq!(out, partial(vec![Some(FieldValue::Int(7))]));
}

#[test]
fn append_on_non_lists_takes_the_later_value() {
    let specs = vec![spec("v", MergePolicy::Append)];
    let a = partial(vec![Some(FieldValue::Int(1))]);
    let b = partial(vec![Some(FieldValue::Int(2))]);
    let out = merge_partial(a, b, &specs).unwrap();
    assert_eq!(out, partial(vec![Some(FieldValue::Int(2))]));
}
