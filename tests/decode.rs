use avro_schema::{
    decode_field, decode_schema, find, same_text, to_primitive, DecodeError, Enum, Field, Fixed,
    JsonNumber, JsonValue, Key, Order, Record, Schema,
};

fn text(x: &str) -> JsonValue {
    JsonValue::String(x.to_string())
}

fn obj(pairs: Vec<(&str, JsonValue)>) -> JsonValue {
    JsonValue::Object(pairs.into_iter().map(|(k, v)| (k.to_string(), v)).collect())
}

fn arr(items: Vec<JsonValue>) -> JsonValue {
    JsonValue::Array(items)
}

fn uint(n: u64) -> JsonValue {
    JsonValue::Number(JsonNumber::PosInt(n))
}

fn strings(xs: &[&str]) -> Vec<String> {
    xs.iter().map(|x| x.to_string()).collect()
}

#[test]
fn bare_primitive_names() {
    let cases = [
        ("null", Schema::Null),
        ("boolean", Schema::Boolean),
        ("int", Schema::Int),
        ("long", Schema::Long),
        ("float", Schema::Float),
        ("double", Schema::Double),
        ("bytes", Schema::Bytes),
        ("string", Schema::String),
    ];
    for (name, expected) in cases {
        assert_eq!(decode_schema(&text(name)), Ok(expected));
    }
}

#[test]
fn bare_unknown_name_is_invalid() {
    for name in ["foo", "record", "Int", "", "map"] {
        assert_eq!(decode_schema(&text(name)), Err(DecodeError::InvalidValue(Key::Type)));
    }
}

#[test]
fn to_primitive_resolves_names() {
    assert_eq!(to_primitive("double"), Some(Schema::Double));
    assert_eq!(to_primitive("bytes"), Some(Schema::Bytes));
    assert_eq!(to_primitive("enum"), None);
}

#[test]
fn union_keeps_order() {
    let v = arr(vec![text("null"), text("int")]);
    assert_eq!(decode_schema(&v), Ok(Schema::Union(vec![Schema::Null, Schema::Int])));
    let v = arr(vec![text("int"), text("null")]);
    assert_eq!(decode_schema(&v), Ok(Schema::Union(vec![Schema::Int, Schema::Null])));
}

#[test]
fn union_empty_and_nested() {
    assert_eq!(decode_schema(&arr(vec![])), Ok(Schema::Union(vec![])));
    let v = arr(vec![arr(vec![text("string")]), text("long")]);
    assert_eq!(
        decode_schema(&v),
        Ok(Schema::Union(vec![Schema::Union(vec![Schema::String]), Schema::Long]))
    );
}

#[test]
fn union_first_error_wins() {
    let v = arr(vec![text("int"), text("nope"), JsonValue::Null]);
    assert_eq!(decode_schema(&v), Err(DecodeError::InvalidValue(Key::Type)));
    let v = arr(vec![text("int"), JsonValue::Bool(true), text("nope")]);
    assert_eq!(decode_schema(&v), Err(DecodeError::NotASchema));
}

#[test]
fn record_with_one_field() {
    let v = obj(vec![
        ("type", text("record")),
        ("name", text("R")),
        ("fields", arr(vec![obj(vec![("name", text("f")), ("type", text("string"))])])),
    ]);
    let expected = Schema::Record(Record {
        name: "R".to_string(),
        namespace: None,
        doc: None,
        aliases: vec![],
        fields: vec![Field {
            name: "f".to_string(),
            doc: None,
            schema: Schema::String,
            default: None,
            order: None,
            aliases: vec![],
        }],
    });
    assert_eq!(decode_schema(&v), Ok(expected));
}

#[test]
fn record_with_all_attributes() {
    let field = obj(vec![
        ("name", text("count")),
        ("doc", text("how many")),
        ("type", obj(vec![("type", text("array")), ("items", text("long"))])),
        ("default", text("null")),
        ("order", text("descending")),
        ("aliases", arr(vec![text("n"), text("total")])),
    ]);
    let v = obj(vec![
        ("type", text("record")),
        ("name", text("Stats")),
        ("namespace", text("org.example")),
        ("doc", text("a record")),
        ("aliases", arr(vec![text("S")])),
        ("fields", arr(vec![field])),
    ]);
    let expected = Schema::Record(Record {
        name: "Stats".to_string(),
        namespace: Some("org.example".to_string()),
        doc: Some("a record".to_string()),
        aliases: strings(&["S"]),
        fields: vec![Field {
            name: "count".to_string(),
            doc: Some("how many".to_string()),
            schema: Schema::Array(Box::new(Schema::Long)),
            default: Some(Schema::Null),
            order: Some(Order::Descending),
            aliases: strings(&["n", "total"]),
        }],
    });
    assert_eq!(decode_schema(&v), Ok(expected));
}

#[test]
fn record_without_fields_has_none() {
    let v = obj(vec![("type", text("record")), ("name", text("Empty"))]);
    assert_eq!(decode_schema(&v), Ok(Schema::Record(Record::new("Empty".to_string(), vec![]))));
}

#[test]
fn named_types_need_a_name() {
    let record = obj(vec![
        ("type", text("record")),
        ("namespace", text("ns")),
        ("fields", arr(vec![])),
    ]);
    let enum_ = obj(vec![("type", text("enum")), ("symbols", arr(vec![text("A")]))]);
    let fixed = obj(vec![("type", text("fixed")), ("size", uint(4))]);
    for v in [record, enum_, fixed] {
        assert_eq!(decode_schema(&v), Err(DecodeError::MissingField(Key::Name)));
    }
}

#[test]
fn fixed_reads_size_before_name() {
    let v = obj(vec![("type", text("fixed"))]);
    assert_eq!(decode_schema(&v), Err(DecodeError::MissingField(Key::Size)));
    let v = obj(vec![("type", text("fixed")), ("size", text("4"))]);
    assert_eq!(decode_schema(&v), Err(DecodeError::TypeMismatch(Key::Size)));
}

#[test]
fn record_name_must_not_be_empty() {
    let v = obj(vec![("type", text("record")), ("name", text("")), ("fields", arr(vec![]))]);
    assert_eq!(decode_schema(&v), Err(DecodeError::InvalidValue(Key::Name)));
}

#[test]
fn enum_name_must_not_be_empty() {
    let v = obj(vec![("type", text("enum")), ("name", text("")), ("symbols", arr(vec![]))]);
    assert_eq!(decode_schema(&v), Err(DecodeError::InvalidValue(Key::Name)));
}

#[test]
fn fixed_name_must_not_be_empty() {
    let v = obj(vec![("type", text("fixed")), ("name", text("")), ("size", uint(4))]);
    assert_eq!(decode_schema(&v), Err(DecodeError::InvalidValue(Key::Name)));
}

#[test]
fn field_name_may_be_empty() {
    let v = obj(vec![("name", text("")), ("type", text("int"))]);
    assert_eq!(decode_field(&v), Ok(Field::new(String::new(), Schema::Int)));
}

#[test]
fn clone_keeps_the_whole_tree() {
    let field = Field {
        name: "f".to_string(),
        doc: Some("d".to_string()),
        schema: Schema::Union(vec![Schema::Null, Schema::Array(Box::new(Schema::Long))]),
        default: Some(Schema::Null),
        order: Some(Order::Ignore),
        aliases: strings(&["g"]),
    };
    let record = Record {
        name: "R".to_string(),
        namespace: Some("ns".to_string()),
        doc: None,
        aliases: strings(&["S", "T"]),
        fields: vec![field.clone()],
    };
    assert_eq!(record.clone(), record);
    assert_eq!(field.clone(), field);
    let schema = Schema::Mapping(Box::new(Schema::Union(vec![
        Schema::Record(record),
        Schema::Enum(Enum::new("E".to_string(), strings(&["A"]))),
        Schema::Fixed(Fixed::new("F".to_string(), 3)),
    ])));
    assert_eq!(schema.clone(), schema);
}

#[test]
fn name_must_be_a_string() {
    let v = obj(vec![("type", text("record")), ("name", uint(1))]);
    assert_eq!(decode_schema(&v), Err(DecodeError::TypeMismatch(Key::Name)));
}

#[test]
fn array_needs_items() {
    let v = obj(vec![("type", text("array")), ("items", text("long"))]);
    assert_eq!(decode_schema(&v), Ok(Schema::Array(Box::new(Schema::Long))));
    let v = obj(vec![("type", text("array")), ("values", text("long"))]);
    assert_eq!(decode_schema(&v), Err(DecodeError::MissingField(Key::Items)));
}

#[test]
fn map_needs_values() {
    let v = obj(vec![("type", text("map")), ("values", text("boolean"))]);
    assert_eq!(decode_schema(&v), Ok(Schema::Mapping(Box::new(Schema::Boolean))));
    let v = obj(vec![("type", text("map")), ("items", text("boolean"))]);
    assert_eq!(decode_schema(&v), Err(DecodeError::MissingField(Key::Values)));
}

#[test]
fn nested_errors_propagate() {
    let v = obj(vec![("type", text("map")), ("values", text("bogus"))]);
    assert_eq!(decode_schema(&v), Err(DecodeError::InvalidValue(Key::Type)));
    let v = obj(vec![("type", text("array")), ("items", obj(vec![]))]);
    assert_eq!(decode_schema(&v), Err(DecodeError::MissingField(Key::Type)));
}

#[test]
fn decoding_is_deterministic() {
    let v = obj(vec![
        ("type", text("record")),
        ("name", text("R")),
        (
            "fields",
            arr(vec![
                obj(vec![("name", text("a")), ("type", arr(vec![text("null"), text("int")]))]),
                obj(vec![
                    ("name", text("b")),
                    ("type", obj(vec![("type", text("map")), ("values", text("double"))])),
                ]),
            ]),
        ),
    ]);
    let first = decode_schema(&v);
    let second = decode_schema(&v);
    assert!(first.is_ok());
    assert_eq!(first, second);
    let bad = obj(vec![("type", text("mystery"))]);
    assert_eq!(decode_schema(&bad), decode_schema(&bad));
}

#[test]
fn order_accepts_three_names() {
    let cases = [
        ("ascending", Order::Ascending),
        ("descending", Order::Descending),
        ("ignore", Order::Ignore),
    ];
    for (name, expected) in cases {
        let v = obj(vec![("name", text("f")), ("type", text("int")), ("order", text(name))]);
        assert_eq!(decode_field(&v).map(|f| f.order), Ok(Some(expected)));
    }
}

#[test]
fn order_rejects_other_strings() {
    for name in ["sideways", "Ascending", ""] {
        let v = obj(vec![("name", text("f")), ("type", text("int")), ("order", text(name))]);
        assert_eq!(decode_field(&v), Err(DecodeError::InvalidValue(Key::Order)));
    }
    let v = obj(vec![("name", text("f")), ("type", text("int")), ("order", uint(1))]);
    assert_eq!(decode_field(&v), Err(DecodeError::TypeMismatch(Key::Order)));
}

#[test]
fn absent_aliases_are_empty() {
    let record = obj(vec![("type", text("record")), ("name", text("R"))]);
    match decode_schema(&record) {
        Ok(Schema::Record(r)) => assert!(r.aliases.is_empty()),
        other => panic!("unexpected {:?}", other),
    }
    let enum_ = obj(vec![("type", text("enum")), ("name", text("E"))]);
    match decode_schema(&enum_) {
        Ok(Schema::Enum(e)) => assert!(e.aliases.is_empty()),
        other => panic!("unexpected {:?}", other),
    }
    let fixed = obj(vec![("type", text("fixed")), ("name", text("F")), ("size", uint(2))]);
    match decode_schema(&fixed) {
        Ok(Schema::Fixed(f)) => assert!(f.aliases.is_empty()),
        other => panic!("unexpected {:?}", other),
    }
    let field = obj(vec![("name", text("f")), ("type", text("int"))]);
    assert_eq!(decode_field(&field).map(|f| f.aliases), Ok(vec![]));
}

#[test]
fn aliases_must_be_strings() {
    let v = obj(vec![
        ("type", text("enum")),
        ("name", text("E")),
        ("aliases", arr(vec![text("a"), uint(3)])),
    ]);
    assert_eq!(decode_schema(&v), Err(DecodeError::TypeMismatch(Key::Aliases)));
    let v = obj(vec![("type", text("enum")), ("name", text("E")), ("aliases", text("a"))]);
    assert_eq!(decode_schema(&v), Err(DecodeError::TypeMismatch(Key::Aliases)));
}

#[test]
fn enum_with_symbols_and_default() {
    let v = obj(vec![
        ("type", text("enum")),
        ("name", text("Suit")),
        ("symbols", arr(vec![text("SPADES"), text("HEARTS")])),
        ("default", text("SPADES")),
        ("doc", text("cards")),
    ]);
    let expected = Schema::Enum(Enum {
        name: "Suit".to_string(),
        namespace: None,
        aliases: vec![],
        doc: Some("cards".to_string()),
        symbols: strings(&["SPADES", "HEARTS"]),
        default: Some("SPADES".to_string()),
    });
    assert_eq!(decode_schema(&v), Ok(expected));
}

#[test]
fn fixed_with_size() {
    let v = obj(vec![
        ("type", text("fixed")),
        ("name", text("md5")),
        ("size", uint(16)),
        ("namespace", text("hash")),
    ]);
    let expected = Schema::Fixed(Fixed {
        name: "md5".to_string(),
        namespace: Some("hash".to_string()),
        doc: None,
        aliases: vec![],
        size: 16,
    });
    assert_eq!(decode_schema(&v), Ok(expected));
}

#[test]
fn fixed_size_must_be_a_non_negative_integer() {
    let missing = obj(vec![("type", text("fixed")), ("name", text("F"))]);
    assert_eq!(decode_schema(&missing), Err(DecodeError::MissingField(Key::Size)));
    let bad = [
        text("16"),
        JsonValue::Number(JsonNumber::NegInt(-1)),
        JsonValue::Number(JsonNumber::Fraction),
        JsonValue::Null,
    ];
    for size in bad {
        let v = obj(vec![("type", text("fixed")), ("name", text("F")), ("size", size)]);
        assert_eq!(decode_schema(&v), Err(DecodeError::TypeMismatch(Key::Size)));
    }
    let zero = obj(vec![("type", text("fixed")), ("name", text("F")), ("size", uint(0))]);
    assert_eq!(decode_schema(&zero), Ok(Schema::Fixed(Fixed::new("F".to_string(), 0))));
}

#[test]
fn type_discriminator_errors() {
    assert_eq!(decode_schema(&obj(vec![])), Err(DecodeError::MissingField(Key::Type)));
    let v = obj(vec![("type", uint(5))]);
    assert_eq!(decode_schema(&v), Err(DecodeError::TypeMismatch(Key::Type)));
    let v = obj(vec![("type", text("error")), ("name", text("E"))]);
    assert_eq!(decode_schema(&v), Err(DecodeError::Unsupported("error".to_string())));
}

#[test]
fn primitive_object_ignores_extra_keys() {
    let v = obj(vec![("type", text("int")), ("logicalType", text("date"))]);
    assert_eq!(decode_schema(&v), Ok(Schema::Int));
}

#[test]
fn other_shapes_are_not_schemas() {
    for v in [JsonValue::Null, JsonValue::Bool(false), uint(3)] {
        assert_eq!(decode_schema(&v), Err(DecodeError::NotASchema));
    }
}

#[test]
fn namespace_and_doc_must_be_strings() {
    let v = obj(vec![("type", text("record")), ("name", text("R")), ("namespace", uint(1))]);
    assert_eq!(decode_schema(&v), Err(DecodeError::TypeMismatch(Key::Namespace)));
    let v = obj(vec![("type", text("record")), ("name", text("R")), ("doc", arr(vec![]))]);
    assert_eq!(decode_schema(&v), Err(DecodeError::TypeMismatch(Key::Doc)));
}

#[test]
fn record_fields_errors() {
    let v = obj(vec![("type", text("record")), ("name", text("R")), ("fields", text("x"))]);
    assert_eq!(decode_schema(&v), Err(DecodeError::TypeMismatch(Key::Fields)));
    let v = obj(vec![
        ("type", text("record")),
        ("name", text("R")),
        ("fields", arr(vec![text("int")])),
    ]);
    assert_eq!(decode_schema(&v), Err(DecodeError::TypeMismatch(Key::Fields)));
    let v = obj(vec![
        ("type", text("record")),
        ("name", text("R")),
        ("fields", arr(vec![obj(vec![("name", text("f"))])])),
    ]);
    assert_eq!(decode_schema(&v), Err(DecodeError::MissingField(Key::Type)));
}

#[test]
fn field_errors_in_order() {
    let v = obj(vec![("type", text("int"))]);
    assert_eq!(decode_field(&v), Err(DecodeError::MissingField(Key::Name)));
    let v = obj(vec![("name", text("f")), ("type", text("int")), ("default", text("nah"))]);
    assert_eq!(decode_field(&v), Err(DecodeError::InvalidValue(Key::Type)));
    assert_eq!(decode_field(&text("f")), Err(DecodeError::TypeMismatch(Key::Fields)));
}

#[test]
fn last_duplicate_key_counts() {
    let v = obj(vec![("type", text("record")), ("type", text("long"))]);
    assert_eq!(decode_schema(&v), Ok(Schema::Long));
}

#[test]
fn find_and_same_text() {
    let entries = vec![
        ("a".to_string(), JsonValue::Null),
        ("b".to_string(), JsonValue::Bool(true)),
        ("a".to_string(), JsonValue::Bool(false)),
    ];
    assert_eq!(find(&entries, "a"), Some(&JsonValue::Bool(false)));
    assert_eq!(find(&entries, "b"), Some(&JsonValue::Bool(true)));
    assert_eq!(find(&entries, "c"), None);
    assert!(same_text("abc", "abc"));
    assert!(!same_text("abc", "abd"));
}

#[test]
fn key_names() {
    assert_eq!(Key::Type.as_str(), "type");
    assert_eq!(Key::Values.as_str(), "values");
    assert_eq!(Key::Order.as_str(), "order");
}

#[test]
fn constructors_default_optional_attributes() {
    let f = Field::new("id".to_string(), Schema::Long);
    assert_eq!(f.name, "id");
    assert_eq!(f.schema, Schema::Long);
    assert_eq!((f.doc, f.default, f.order), (None, None, None));
    assert!(f.aliases.is_empty());
    let r = Record::new("R".to_string(), vec![Field::new("x".to_string(), Schema::Int)]);
    assert_eq!(r.name, "R");
    assert_eq!(r.fields.len(), 1);
    assert!(r.namespace.is_none() && r.doc.is_none() && r.aliases.is_empty());
    let x = Fixed::new("F".to_string(), 8);
    assert_eq!(x.size, 8);
    assert!(x.aliases.is_empty());
    let e = Enum::new("E".to_string(), strings(&["A", "B"]));
    assert_eq!(e.symbols, strings(&["A", "B"]));
    assert!(e.default.is_none() && e.aliases.is_empty());
}

#[test]
fn schema_from_named_types() {
    let e = Enum::new("E".to_string(), vec![]);
    assert_eq!(Schema::from(e.clone()), Schema::Enum(e));
    let x = Fixed::new("F".to_string(), 1);
    assert_eq!(Schema::from(x.clone()), Schema::Fixed(x));
    let r = Schema::from(Record::new("R".to_string(), vec![]));
    assert!(matches!(r, Schema::Record(_)));
}
