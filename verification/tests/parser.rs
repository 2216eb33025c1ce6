use ts_binding::collect::Reading;
use ts_binding::definition::{Annotation, FieldDefinition, MetaItem, MetaValue, TypeDefinition, TypeRef, TypeShape};
use ts_binding::descriptor::{DecodePolicy, EndpointDescriptor, FieldSpec, ParameterSpec, ResponseDescriptor, ValueType};
use ts_binding::parser::{field_type_is_option, find_annotation, find_link, find_text, has_default};
use ts_binding::parser::{parse_field, parse_parameter, read_index, read_rename, value_type_of};
use ts_binding::parser::{ts_endpoint_derive, ts_response_derive, DescriptorError};

fn pair(key: &str, value: MetaValue) -> MetaItem {
    MetaItem::Pair { key: key.to_string(), value }
}

fn text(value: &str) -> MetaValue {
    MetaValue::Text(value.to_string())
}

fn flag(key: &str) -> MetaItem {
    MetaItem::Flag { key: key.to_string() }
}

fn annotation(name: &str, items: Vec<MetaItem>) -> Annotation {
    Annotation { name: name.to_string(), items }
}

fn ts_field(index: usize) -> Annotation {
    annotation("ts_field", vec![MetaItem::Literal { value: MetaValue::Integer(index) }])
}

fn plain(name: &str) -> TypeRef {
    TypeRef { segments: vec![name.to_string()], arguments: vec![] }
}

fn option_of(inner: TypeRef) -> TypeRef {
    TypeRef { segments: vec!["Option".to_string()], arguments: vec![inner] }
}

fn member(name: &str, annotations: Vec<Annotation>, ty: TypeRef) -> FieldDefinition {
    FieldDefinition { name: name.to_string(), annotations, ty }
}

fn named_struct(name: &str, annotations: Vec<Annotation>, fields: Vec<FieldDefinition>) -> TypeDefinition {
    TypeDefinition { name: name.to_string(), annotations, shape: TypeShape::NamedStruct, fields }
}

fn endpoint_annotation() -> Annotation {
    annotation(
        "endpoint",
        vec![
            pair("api", text("kpl_concept")),
            pair("desc", text("concepts of one day")),
            pair("resp", MetaValue::Path(vec!["ConceptListItem".to_string()])),
        ],
    )
}

#[test]
fn a_request_type_gives_its_descriptor() {
    let def = named_struct(
        "ConceptListRequest",
        vec![annotation("derive", vec![flag("Debug")]), endpoint_annotation()],
        vec![
            member("trade_date", vec![], plain("String")),
            member("code", vec![annotation("serde", vec![pair("rename", text("ts_code"))])], plain("String")),
        ],
    );
    assert_eq!(
        ts_endpoint_derive(&def),
        Ok(EndpointDescriptor {
            operation_name: "kpl_concept".to_string(),
            description: "concepts of one day".to_string(),
            parameters: vec![
                ParameterSpec { field_name: "trade_date".to_string(), wire_key: "trade_date".to_string() },
                ParameterSpec { field_name: "code".to_string(), wire_key: "ts_code".to_string() },
            ],
            response_link: Some("ConceptListItem".to_string()),
        })
    );
}

#[test]
fn a_request_type_without_a_link_gives_a_descriptor_without_one() {
    let def = named_struct(
        "Plain",
        vec![annotation("endpoint", vec![pair("api", text("op")), pair("desc", text("what"))])],
        vec![],
    );
    assert_eq!(
        ts_endpoint_derive(&def),
        Ok(EndpointDescriptor {
            operation_name: "op".to_string(),
            description: "what".to_string(),
            parameters: vec![],
            response_link: None,
        })
    );
}

#[test]
fn a_request_type_without_metadata_is_refused() {
    let def = named_struct("Bare", vec![annotation("derive", vec![flag("Debug")])], vec![]);
    assert_eq!(ts_endpoint_derive(&def), Err(DescriptorError::MissingEndpointMetadata));
    let def = named_struct("NoApi", vec![annotation("endpoint", vec![pair("desc", text("what"))])], vec![]);
    assert_eq!(ts_endpoint_derive(&def), Err(DescriptorError::MissingEndpointMetadata));
    let def = named_struct("NoDesc", vec![annotation("endpoint", vec![pair("api", text("op"))])], vec![]);
    assert_eq!(ts_endpoint_derive(&def), Err(DescriptorError::MissingEndpointMetadata));
    let def = named_struct(
        "ApiIsNoText",
        vec![annotation("endpoint", vec![pair("api", MetaValue::Integer(3)), pair("desc", text("what"))])],
        vec![],
    );
    assert_eq!(ts_endpoint_derive(&def), Err(DescriptorError::MissingEndpointMetadata));
}

#[test]
fn only_the_first_endpoint_annotation_counts() {
    let def = named_struct(
        "Twice",
        vec![
            annotation("endpoint", vec![pair("api", text("first")), pair("desc", text("one"))]),
            annotation("endpoint", vec![pair("api", text("second")), pair("desc", text("two"))]),
        ],
        vec![],
    );
    assert_eq!(ts_endpoint_derive(&def).unwrap().operation_name, "first");
    let def = named_struct(
        "FirstIsEmpty",
        vec![
            annotation("endpoint", vec![]),
            annotation("endpoint", vec![pair("api", text("second")), pair("desc", text("two"))]),
        ],
        vec![],
    );
    assert_eq!(ts_endpoint_derive(&def), Err(DescriptorError::MissingEndpointMetadata));
}

#[test]
fn a_request_type_of_another_shape_is_refused() {
    for shape in [TypeShape::TupleStruct, TypeShape::UnitStruct, TypeShape::Enum, TypeShape::Union] {
        let def = TypeDefinition {
            name: "Odd".to_string(),
            annotations: vec![endpoint_annotation()],
            shape,
            fields: vec![],
        };
        assert_eq!(ts_endpoint_derive(&def), Err(DescriptorError::UnsupportedShape));
    }
}

#[test]
fn missing_metadata_is_reported_before_the_shape() {
    let def = TypeDefinition { name: "Odd".to_string(), annotations: vec![], shape: TypeShape::Enum, fields: vec![] };
    assert_eq!(ts_endpoint_derive(&def), Err(DescriptorError::MissingEndpointMetadata));
    assert_eq!(ts_response_derive(&def), Err(DescriptorError::MissingResponseMetadata));
}

#[test]
fn a_rename_that_is_no_text_is_refused() {
    let def = named_struct(
        "Renamed",
        vec![endpoint_annotation()],
        vec![
            member("fine", vec![], plain("String")),
            member("odd", vec![annotation("serde", vec![pair("rename", MetaValue::Integer(1))])], plain("String")),
        ],
    );
    assert_eq!(ts_endpoint_derive(&def), Err(DescriptorError::UnresolvedRename));
    let bare = member("odd", vec![annotation("serde", vec![flag("rename")])], plain("String"));
    assert_eq!(parse_parameter(&bare), Err(DescriptorError::UnresolvedRename));
}

#[test]
fn the_last_rename_counts() {
    let annotations = vec![
        annotation("serde", vec![pair("rename", text("one")), flag("default"), pair("rename", text("two"))]),
        annotation("other", vec![pair("rename", text("ignored"))]),
        annotation("serde", vec![pair("rename", text("three"))]),
        annotation("serde", vec![flag("default")]),
    ];
    assert_eq!(read_rename(&annotations), Reading::Value("three".to_string()));
    assert_eq!(read_rename(&vec![]), Reading::Nothing);
    assert_eq!(read_rename(&vec![annotation("rename", vec![pair("rename", text("x"))])]), Reading::Nothing);
}

#[test]
fn one_unreadable_rename_spoils_the_others() {
    let annotations = vec![
        annotation("serde", vec![pair("rename", text("one"))]),
        annotation("serde", vec![pair("rename", MetaValue::Other)]),
        annotation("serde", vec![pair("rename", text("three"))]),
    ];
    assert_eq!(read_rename(&annotations), Reading::Malformed);
}

#[test]
fn a_record_type_gives_its_descriptor() {
    let def = named_struct(
        "Row",
        vec![annotation("response", vec![pair("api", text("rows"))])],
        vec![
            member("code", vec![ts_field(2)], plain("String")),
            member("count", vec![ts_field(0)], plain("i64")),
            member("rank", vec![ts_field(5), annotation("serde", vec![flag("default")])], plain("i32")),
            member("price", vec![ts_field(1)], option_of(plain("f64"))),
            member("extra", vec![ts_field(7)], plain("Extra")),
        ],
    );
    assert_eq!(
        ts_response_derive(&def),
        Ok(ResponseDescriptor {
            record_name: "Row".to_string(),
            operation_name: "rows".to_string(),
            fields: vec![
                FieldSpec {
                    name: "code".to_string(),
                    wire_index: 2,
                    decode_policy: DecodePolicy::Required,
                    value_type: ValueType::Text,
                },
                FieldSpec {
                    name: "count".to_string(),
                    wire_index: 0,
                    decode_policy: DecodePolicy::Required,
                    value_type: ValueType::Integer64,
                },
                FieldSpec {
                    name: "rank".to_string(),
                    wire_index: 5,
                    decode_policy: DecodePolicy::DefaultOnNull,
                    value_type: ValueType::Integer32,
                },
                FieldSpec {
                    name: "price".to_string(),
                    wire_index: 1,
                    decode_policy: DecodePolicy::Optional,
                    value_type: ValueType::Real,
                },
                FieldSpec {
                    name: "extra".to_string(),
                    wire_index: 7,
                    decode_policy: DecodePolicy::Required,
                    value_type: ValueType::Raw,
                },
            ],
        })
    );
}

#[test]
fn a_record_type_without_metadata_is_refused() {
    let def = named_struct("Bare", vec![], vec![member("a", vec![ts_field(0)], plain("String"))]);
    assert_eq!(ts_response_derive(&def), Err(DescriptorError::MissingResponseMetadata));
    let def = named_struct("NoApi", vec![annotation("response", vec![flag("api")])], vec![]);
    assert_eq!(ts_response_derive(&def), Err(DescriptorError::MissingResponseMetadata));
}

#[test]
fn a_record_type_of_another_shape_is_refused() {
    let def = TypeDefinition {
        name: "Odd".to_string(),
        annotations: vec![annotation("response", vec![pair("api", text("rows"))])],
        shape: TypeShape::TupleStruct,
        fields: vec![member("", vec![ts_field(0)], plain("String"))],
    };
    assert_eq!(ts_response_derive(&def), Err(DescriptorError::UnsupportedShape));
}

#[test]
fn a_field_without_a_position_is_refused() {
    let def = named_struct(
        "Row",
        vec![annotation("response", vec![pair("api", text("rows"))])],
        vec![member("a", vec![ts_field(0)], plain("String")), member("b", vec![], plain("String"))],
    );
    assert_eq!(ts_response_derive(&def), Err(DescriptorError::MissingFieldIndex));
}

#[test]
fn a_position_is_one_integer_and_nothing_else() {
    assert_eq!(read_index(&vec![ts_field(4)]), Reading::Value(4));
    assert_eq!(read_index(&vec![ts_field(4), ts_field(9)]), Reading::Value(9));
    assert_eq!(read_index(&vec![annotation("serde", vec![flag("default")])]), Reading::Nothing);
    assert_eq!(read_index(&vec![annotation("ts_field", vec![])]), Reading::Malformed);
    assert_eq!(
        read_index(&vec![annotation("ts_field", vec![MetaItem::Literal { value: text("0") }])]),
        Reading::Malformed
    );
    assert_eq!(
        read_index(&vec![annotation("ts_field", vec![pair("index", MetaValue::Integer(0))])]),
        Reading::Malformed
    );
    let two = vec![
        MetaItem::Literal { value: MetaValue::Integer(0) },
        MetaItem::Literal { value: MetaValue::Integer(1) },
    ];
    assert_eq!(read_index(&vec![annotation("ts_field", two)]), Reading::Malformed);
    assert_eq!(read_index(&vec![ts_field(4), annotation("ts_field", vec![])]), Reading::Malformed);
    let odd = member("a", vec![annotation("ts_field", vec![flag("first")])], plain("String"));
    assert_eq!(parse_field(&odd), Err(DescriptorError::MissingFieldIndex));
}

#[test]
fn the_policy_follows_the_type_and_the_default() {
    let with_default = vec![ts_field(0), annotation("serde", vec![pair("rename", text("x")), flag("default")])];
    let optional = member("a", with_default, option_of(plain("String")));
    assert_eq!(parse_field(&optional).unwrap().decode_policy, DecodePolicy::Optional);
    let defaulting = member("a", vec![ts_field(0), annotation("serde", vec![flag("default")])], plain("String"));
    assert_eq!(parse_field(&defaulting).unwrap().decode_policy, DecodePolicy::DefaultOnNull);
    let required = member("a", vec![ts_field(0), annotation("other", vec![flag("default")])], plain("String"));
    assert_eq!(parse_field(&required).unwrap().decode_policy, DecodePolicy::Required);
}

#[test]
fn a_default_is_asked_for_in_a_serde_annotation() {
    assert!(has_default(&vec![annotation("serde", vec![flag("default")])]));
    assert!(has_default(&vec![annotation("serde", vec![pair("default", text("make"))])]));
    assert!(has_default(&vec![ts_field(0), annotation("serde", vec![flag("skip"), flag("default")])]));
    assert!(!has_default(&vec![annotation("serde", vec![flag("skip")])]));
    assert!(!has_default(&vec![annotation("default", vec![flag("default")])]));
    assert!(!has_default(&vec![annotation("serde", vec![MetaItem::Literal { value: text("default") }])]));
    assert!(!has_default(&vec![]));
}

#[test]
fn an_option_is_known_by_its_last_identifier() {
    assert!(field_type_is_option(&option_of(plain("String"))));
    assert!(field_type_is_option(&plain("Option")));
    assert!(!field_type_is_option(&plain("String")));
    assert!(!field_type_is_option(&TypeRef { segments: vec![], arguments: vec![] }));
    let qualified = TypeRef {
        segments: vec!["std".to_string(), "option".to_string(), "Option".to_string()],
        arguments: vec![plain("i64")],
    };
    assert!(field_type_is_option(&qualified));
    let shorter = TypeRef { segments: vec!["option".to_string(), "Option".to_string()], arguments: vec![] };
    assert!(field_type_is_option(&shorter));
    let inside = TypeRef { segments: vec!["Option".to_string(), "Inner".to_string()], arguments: vec![] };
    assert!(!field_type_is_option(&inside));
}

#[test]
fn a_qualified_option_gives_an_optional_field() {
    let qualified = TypeRef {
        segments: vec!["std".to_string(), "option".to_string(), "Option".to_string()],
        arguments: vec![plain("i64")],
    };
    let field = member("full", vec![ts_field(3), annotation("serde", vec![flag("default")])], qualified);
    assert_eq!(parse_field(&field), Ok(FieldSpec::new("full", 3, DecodePolicy::Optional, ValueType::Integer64)));
}

#[test]
fn a_field_of_any_type_gets_its_specification() {
    for name in ["Extra", "Vec", "str", "char", "usize", "i128", "Value"] {
        let field = member("odd", vec![ts_field(2)], plain(name));
        assert_eq!(parse_field(&field), Ok(FieldSpec::new("odd", 2, DecodePolicy::Required, ValueType::Raw)), "{name}");
        let inside = member("odd", vec![ts_field(2)], option_of(plain(name)));
        assert_eq!(parse_field(&inside), Ok(FieldSpec::new("odd", 2, DecodePolicy::Optional, ValueType::Raw)), "{name}");
        let defaulting = member("odd", vec![ts_field(2), annotation("serde", vec![flag("default")])], plain(name));
        assert_eq!(
            parse_field(&defaulting),
            Ok(FieldSpec::new("odd", 2, DecodePolicy::DefaultOnNull, ValueType::Raw)),
            "{name}"
        );
    }
    let no_path = member("odd", vec![ts_field(0)], TypeRef { segments: vec![], arguments: vec![] });
    assert_eq!(parse_field(&no_path), Ok(FieldSpec::new("odd", 0, DecodePolicy::Required, ValueType::Raw)));
    let empty_option = member("odd", vec![ts_field(0)], plain("Option"));
    assert_eq!(parse_field(&empty_option), Ok(FieldSpec::new("odd", 0, DecodePolicy::Optional, ValueType::Raw)));
    let nested = member("odd", vec![ts_field(0)], option_of(option_of(plain("String"))));
    assert_eq!(parse_field(&nested), Ok(FieldSpec::new("odd", 0, DecodePolicy::Optional, ValueType::Raw)));
    let flag_field = member("on", vec![ts_field(1)], plain("bool"));
    assert_eq!(parse_field(&flag_field), Ok(FieldSpec::new("on", 1, DecodePolicy::Required, ValueType::Bool)));
}

#[test]
fn a_record_type_fails_for_metadata_shape_and_positions_only() {
    let def = named_struct(
        "Row",
        vec![annotation("response", vec![pair("api", text("rows"))])],
        vec![
            member("flag", vec![ts_field(4)], plain("bool")),
            member("list", vec![ts_field(1)], plain("Vec")),
            member("pair", vec![ts_field(9)], TypeRef { segments: vec![], arguments: vec![] }),
            member("count", vec![ts_field(0)], option_of(plain("u64"))),
        ],
    );
    assert_eq!(
        ts_response_derive(&def).unwrap().fields,
        vec![
            FieldSpec::new("flag", 4, DecodePolicy::Required, ValueType::Bool),
            FieldSpec::new("list", 1, DecodePolicy::Required, ValueType::Raw),
            FieldSpec::new("pair", 9, DecodePolicy::Required, ValueType::Raw),
            FieldSpec::new("count", 0, DecodePolicy::Optional, ValueType::Unsigned64),
        ]
    );
    let def = named_struct(
        "Row",
        vec![annotation("response", vec![pair("api", text("rows"))])],
        vec![member("flag", vec![ts_field(0)], plain("Extra")), member("late", vec![], plain("String"))],
    );
    assert_eq!(ts_response_derive(&def), Err(DescriptorError::MissingFieldIndex));
}

#[test]
fn a_field_without_position_is_refused_whatever_its_type() {
    for name in ["bool", "Extra", "String"] {
        let field = member("odd", vec![], plain(name));
        assert_eq!(parse_field(&field), Err(DescriptorError::MissingFieldIndex), "{name}");
    }
}

#[test]
fn the_value_type_follows_the_last_identifier() {
    let kinds = [
        ("String", ValueType::Text),
        ("bool", ValueType::Bool),
        ("i8", ValueType::Integer8),
        ("i16", ValueType::Integer16),
        ("i32", ValueType::Integer32),
        ("i64", ValueType::Integer64),
        ("u8", ValueType::Unsigned8),
        ("u16", ValueType::Unsigned16),
        ("u32", ValueType::Unsigned32),
        ("u64", ValueType::Unsigned64),
        ("f64", ValueType::Real),
        ("f32", ValueType::Real),
        ("Value", ValueType::Raw),
        ("Extra", ValueType::Raw),
        ("string", ValueType::Raw),
        ("I64", ValueType::Raw),
        ("", ValueType::Raw),
    ];
    for (name, kind) in kinds {
        assert_eq!(value_type_of(&plain(name)), kind, "{name}");
        assert_eq!(value_type_of(&option_of(plain(name))), kind, "{name}");
    }
    assert_eq!(value_type_of(&TypeRef { segments: vec![], arguments: vec![] }), ValueType::Raw);
    assert_eq!(value_type_of(&plain("Option")), ValueType::Raw);
    let qualified = TypeRef {
        segments: vec!["std".to_string(), "string".to_string(), "String".to_string()],
        arguments: vec![],
    };
    assert_eq!(value_type_of(&qualified), ValueType::Text);
    let qualified_option = TypeRef {
        segments: vec!["std".to_string(), "option".to_string(), "Option".to_string()],
        arguments: vec![plain("f64")],
    };
    assert_eq!(value_type_of(&qualified_option), ValueType::Real);
    let qualified_value = TypeRef { segments: vec!["serde_json".to_string(), "Value".to_string()], arguments: vec![] };
    assert_eq!(value_type_of(&qualified_value), ValueType::Raw);
}

#[test]
fn annotations_and_settings_are_found_by_name() {
    let annotations = vec![
        annotation("derive", vec![flag("Debug")]),
        annotation("endpoint", vec![pair("api", text("one"))]),
        annotation("endpoint", vec![pair("api", text("two"))]),
    ];
    assert_eq!(find_annotation(&annotations, "endpoint"), Some(&annotations[1]));
    assert_eq!(find_annotation(&annotations, "response"), None);
    let items = vec![
        flag("api"),
        pair("api", MetaValue::Integer(1)),
        pair("api", text("first")),
        pair("api", text("second")),
        pair("resp", MetaValue::Other),
        pair("resp", MetaValue::Path(vec![])),
        pair("resp", MetaValue::Path(vec!["crate".to_string(), "model".to_string(), "Item".to_string()])),
        pair("resp", MetaValue::Path(vec!["Later".to_string()])),
        pair("resp", text("Other")),
    ];
    assert_eq!(find_text(&items, "api"), Some("first".to_string()));
    assert_eq!(find_text(&items, "resp"), Some("Other".to_string()));
    assert_eq!(find_text(&items, "desc"), None);
    assert_eq!(find_link(&items, "resp"), Some("Item".to_string()));
    assert_eq!(find_link(&items, "api"), None);
    assert_eq!(find_link(&items, "desc"), None);
    assert_eq!(find_link(&vec![pair("resp", text("Item"))], "resp"), None);
    assert_eq!(
        find_link(&vec![pair("resp", MetaValue::Path(vec!["Item".to_string()]))], "resp"),
        Some("Item".to_string())
    );
}

#[test]
fn an_entry_has_the_key_it_is_written_under() {
    assert!(flag("default").has_key("default"));
    assert!(pair("rename", text("x")).has_key("rename"));
    assert!(!pair("rename", text("x")).has_key("x"));
    assert!(!MetaItem::Literal { value: text("default") }.has_key("default"));
}
