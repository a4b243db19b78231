use rdc::ir::{
    CustomType, DataEnum, DataEnumObjectField, DataEnumStyle, DataEnumVariant, Name, Type,
};
use rdc::wire::{deserialize, is_value_of, serialize, Json, Member, Payload, Value};

fn export() -> DataEnum {
    let mut de = DataEnum::new(
        Name::from_pascal_case("Export"),
        CustomType::new("Export"),
        DataEnumStyle::External,
    );
    de.add_variant(DataEnumVariant::tuple(
        Name::from_pascal_case("Csv"),
        "Csv".to_string(),
        vec![Type::new("String")],
    ));
    de.add_variant(DataEnumVariant::tuple(
        Name::from_pascal_case("Json"),
        "JSON".to_string(),
        vec![Type::new("Integer")],
    ));
    de.add_variant(DataEnumVariant::tuple(
        Name::from_pascal_case("Xml"),
        "XML".to_string(),
        vec![Type::new("Double"), Type::new("Integer")],
    ));
    de.add_variant(DataEnumVariant::object(
        Name::from_pascal_case("Other"),
        "Other".to_string(),
        vec![DataEnumObjectField::new(
            Name::from_snake_case("name"),
            "name".to_string(),
            Type::new("String"),
        )],
    ));
    de.add_variant(DataEnumVariant::unit(
        Name::from_pascal_case("Unit"),
        "Unit".to_string(),
    ));
    de
}

fn quote(text: &str) -> String {
    format!("\"{}\"", text.replace('\\', "\\\\").replace('"', "\\\""))
}

fn print(json: &Json) -> String {
    match json {
        Json::Null => "null".to_string(),
        Json::Bool(b) => format!("{}", b),
        Json::Number(n) => n.clone(),
        Json::Text(t) => quote(t),
        Json::Array(items) => {
            let items: Vec<String> = items.iter().map(print).collect();
            format!("[{}]", items.join(","))
        }
        Json::Object(members) => {
            let members: Vec<String> = members
                .iter()
                .map(|m| format!("{}:{}", quote(&m.key), print(&m.value)))
                .collect();
            format!("{{{}}}", members.join(","))
        }
    }
}

fn same(a: &Json, b: &Json) -> bool {
    print(a) == print(b)
}

fn number_of(x: f64) -> Json {
    Json::Number(format!("{}", x))
}

fn text(t: &str) -> Json {
    Json::Text(t.to_string())
}

fn object(members: Vec<(&str, Json)>) -> Json {
    Json::Object(
        members
            .into_iter()
            .map(|(key, value)| Member {
                key: key.to_string(),
                value,
            })
            .collect(),
    )
}

fn xml() -> Value {
    Value {
        variant: 2,
        payload: Payload::Tuple(vec![number_of(3.5), number_of(7.0)]),
    }
}

fn other() -> Value {
    Value {
        variant: 3,
        payload: Payload::Object(object(vec![("name", text("x"))])),
    }
}

fn unit() -> Value {
    Value {
        variant: 4,
        payload: Payload::Unit,
    }
}

#[test]
fn positional_variant_is_an_object_over_an_array() {
    let de = export();
    assert!(is_value_of(&de, &xml()));
    let json = serialize(&de, xml());
    assert_eq!(print(&json), "{\"XML\":[3.5,7]}");
    let back = deserialize(&de, json).unwrap();
    assert_eq!(back, xml());
    assert_eq!(back.variant, 2);
    match back.payload {
        Payload::Tuple(slots) => {
            assert_eq!(slots.len(), 2);
            assert!(same(&slots[0], &number_of(3.5)));
            assert!(same(&slots[1], &number_of(7.0)));
        }
        _ => panic!("a positional payload was written"),
    }
}

#[test]
fn variant_without_payload_is_its_tag() {
    let de = export();
    assert!(is_value_of(&de, &unit()));
    let json = serialize(&de, unit());
    assert_eq!(print(&json), "\"Unit\"");
    let back = deserialize(&de, json).unwrap();
    assert_eq!(back, unit());
    assert_eq!(back.variant, 4);
    assert!(matches!(back.payload, Payload::Unit));
}

#[test]
fn variant_with_fields_is_an_object_over_an_object() {
    let de = export();
    assert!(is_value_of(&de, &other()));
    let json = serialize(&de, other());
    assert_eq!(print(&json), "{\"Other\":{\"name\":\"x\"}}");
    let back = deserialize(&de, json).unwrap();
    assert_eq!(back, other());
    assert_eq!(back.variant, 3);
    match back.payload {
        Payload::Object(holder) => assert_eq!(print(&holder), "{\"name\":\"x\"}"),
        _ => panic!("a payload of named fields was written"),
    }
}

#[test]
fn single_slot_stands_alone_under_the_tag() {
    let de = export();
    let csv = Value {
        variant: 0,
        payload: Payload::Tuple(vec![text("a,b")]),
    };
    let json = serialize(&de, csv);
    assert_eq!(print(&json), "{\"Csv\":\"a,b\"}");
    let back = deserialize(&de, json).unwrap();
    assert_eq!(back.variant, 0);
    match back.payload {
        Payload::Tuple(slots) => {
            assert_eq!(slots.len(), 1);
            assert!(same(&slots[0], &text("a,b")));
        }
        _ => panic!("a positional payload was written"),
    }
    let number = Value {
        variant: 1,
        payload: Payload::Tuple(vec![number_of(42.0)]),
    };
    assert_eq!(print(&serialize(&de, number)), "{\"JSON\":42}");
}

#[test]
fn an_array_of_another_length_is_refused() {
    let de = export();
    for elements in [
        vec![],
        vec![number_of(3.5)],
        vec![number_of(3.5), number_of(7.0), number_of(1.0)],
    ] {
        let json = object(vec![("XML", Json::Array(elements))]);
        let error = deserialize(&de, json).unwrap_err();
        assert_eq!(error.message(), "Cannot deserialize Export");
    }
}

#[test]
fn a_single_slot_takes_an_array_as_its_value() {
    let de = export();
    for elements in [vec![], vec![text("a")], vec![text("a"), text("b")]] {
        let array = Json::Array(elements);
        let shown = print(&array);
        let back = deserialize(&de, object(vec![("Csv", array)])).unwrap();
        assert_eq!(back.variant, 0);
        match back.payload {
            Payload::Tuple(slots) => {
                assert_eq!(slots.len(), 1);
                assert_eq!(print(&slots[0]), shown);
            }
            _ => panic!("a positional variant was read"),
        }
    }
}

#[test]
fn a_single_value_for_several_slots_is_refused() {
    let de = export();
    let json = object(vec![("XML", number_of(3.5))]);
    assert_eq!(
        deserialize(&de, json).unwrap_err().message(),
        "Cannot deserialize Export"
    );
}

#[test]
fn an_array_of_one_is_the_value_of_the_single_slot() {
    let de = export();
    let json = object(vec![("JSON", Json::Array(vec![number_of(5.0)]))]);
    let back = deserialize(&de, json).unwrap();
    assert_eq!(back.variant, 1);
    match back.payload {
        Payload::Tuple(slots) => {
            assert_eq!(slots.len(), 1);
            assert_eq!(print(&slots[0]), "[5]");
        }
        _ => panic!("a positional variant was read"),
    }
}

#[test]
fn named_fields_are_read_as_one_value() {
    let de = export();
    let json = object(vec![("Other", Json::Array(vec![text("x")]))]);
    let back = deserialize(&de, json).unwrap();
    assert_eq!(back.variant, 3);
    match back.payload {
        Payload::Object(holder) => assert_eq!(print(&holder), "[\"x\"]"),
        _ => panic!("a variant with named fields was read"),
    }
}

#[test]
fn the_variant_declared_first_wins() {
    let de = export();
    let json = object(vec![
        ("XML", Json::Array(vec![number_of(1.0), number_of(2.0)])),
        ("Csv", text("a")),
    ]);
    assert_eq!(deserialize(&de, json).unwrap().variant, 0);
    let json = object(vec![
        ("Other", object(vec![("name", text("x"))])),
        ("JSON", number_of(1.0)),
        ("unknown", Json::Null),
    ]);
    assert_eq!(deserialize(&de, json).unwrap().variant, 1);
}

#[test]
fn the_first_variant_decides_even_where_it_fails() {
    let de = export();
    let json = object(vec![
        ("Other", object(vec![("name", text("x"))])),
        ("XML", Json::Array(vec![number_of(1.0)])),
    ]);
    assert_eq!(
        deserialize(&de, json).unwrap_err().message(),
        "Cannot deserialize Export"
    );
}

#[test]
fn the_last_of_equal_keys_counts() {
    let de = export();
    let json = object(vec![("Csv", text("first")), ("Csv", text("second"))]);
    match deserialize(&de, json).unwrap().payload {
        Payload::Tuple(slots) => assert_eq!(print(&slots[0]), "\"second\""),
        _ => panic!("a positional variant was read"),
    }
}

#[test]
fn what_no_variant_claims_is_refused() {
    let de = export();
    for json in [
        text("Csv"),
        text("unit"),
        text(""),
        object(vec![]),
        object(vec![("Unit", Json::Null)]),
        object(vec![("csv", text("a"))]),
        Json::Null,
        Json::Bool(true),
        number_of(1.0),
        Json::Array(vec![text("Unit")]),
    ] {
        let error = deserialize(&de, json).unwrap_err();
        assert_eq!(error.message(), "Cannot deserialize Export");
    }
}

#[test]
fn values_of_another_shape_do_not_fit() {
    let de = export();
    let wrong = [
        Value { variant: 5, payload: Payload::Unit },
        Value { variant: 4, payload: Payload::Tuple(vec![]) },
        Value { variant: 2, payload: Payload::Tuple(vec![number_of(1.0)]) },
        Value { variant: 0, payload: Payload::Unit },
        Value { variant: 3, payload: Payload::Tuple(vec![Json::Null]) },
        Value { variant: 0, payload: Payload::Object(Json::Null) },
    ];
    for value in &wrong {
        assert!(!is_value_of(&de, value));
    }
}

#[test]
fn a_variant_without_slots_is_an_empty_array() {
    let mut de = DataEnum::new(
        Name::from_pascal_case("Holder"),
        CustomType::new("Holder"),
        DataEnumStyle::External,
    );
    de.add_variant(DataEnumVariant::tuple(
        Name::from_pascal_case("Empty"),
        "Empty".to_string(),
        vec![],
    ));
    let value = Value { variant: 0, payload: Payload::Tuple(vec![]) };
    let json = serialize(&de, value);
    assert_eq!(print(&json), "{\"Empty\":[]}");
    let back = deserialize(&de, json).unwrap();
    assert_eq!(back.variant, 0);
    assert!(matches!(back.payload, Payload::Tuple(slots) if slots.is_empty()));
}

#[test]
fn a_single_slot_that_is_a_list_comes_back() {
    let mut de = DataEnum::new(
        Name::from_pascal_case("Holder"),
        CustomType::new("Holder"),
        DataEnumStyle::External,
    );
    de.add_variant(DataEnumVariant::tuple(
        Name::from_pascal_case("List"),
        "List".to_string(),
        vec![Type::new("java.util.List<Integer>")],
    ));
    for elements in [
        vec![],
        vec![number_of(1.0)],
        vec![number_of(1.0), number_of(2.0)],
        vec![Json::Array(vec![number_of(1.0)])],
    ] {
        let shown = print(&Json::Array(elements.iter().map(|e| text(&print(e))).collect()));
        let list = Json::Array(elements.iter().map(|e| text(&print(e))).collect());
        let value = Value { variant: 0, payload: Payload::Tuple(vec![list]) };
        assert!(is_value_of(&de, &value));
        let json = serialize(&de, value);
        assert_eq!(print(&json), format!("{{\"List\":{}}}", shown));
        let back = deserialize(&de, json).unwrap();
        let list = Json::Array(elements.iter().map(|e| text(&print(e))).collect());
        assert_eq!(back, Value { variant: 0, payload: Payload::Tuple(vec![list]) });
    }
    let list = Json::Array(vec![number_of(1.0), number_of(2.0)]);
    let json = serialize(&de, Value { variant: 0, payload: Payload::Tuple(vec![list]) });
    assert_eq!(print(&json), "{\"List\":[1,2]}");
    let list = Json::Array(vec![number_of(1.0), number_of(2.0)]);
    assert_eq!(
        deserialize(&de, json).unwrap(),
        Value { variant: 0, payload: Payload::Tuple(vec![list]) }
    );
}

#[test]
fn a_later_variant_with_the_same_tag_does_not_come_back() {
    let mut de = DataEnum::new(
        Name::from_pascal_case("Twice"),
        CustomType::new("Twice"),
        DataEnumStyle::External,
    );
    for name in ["First", "Second"] {
        de.add_variant(DataEnumVariant::tuple(
            Name::from_pascal_case(name),
            "same".to_string(),
            vec![Type::new("Integer")],
        ));
    }
    de.add_variant(DataEnumVariant::unit(Name::from_pascal_case("Third"), "same".to_string()));
    let json = serialize(&de, Value { variant: 1, payload: Payload::Tuple(vec![number_of(1.0)]) });
    assert_eq!(deserialize(&de, json).unwrap().variant, 0);
    let json = serialize(&de, Value { variant: 2, payload: Payload::Unit });
    assert_eq!(deserialize(&de, json).unwrap().variant, 2);
}

#[test]
fn export_values_on_the_wire() {
    let de = export();
    let cases: Vec<(fn() -> Value, &str)> = vec![
        (xml, "{\"XML\":[3.5,7]}"),
        (unit, "\"Unit\""),
        (other, "{\"Other\":{\"name\":\"x\"}}"),
    ];
    for (value, expected) in cases {
        let json = serialize(&de, value());
        assert_eq!(print(&json), expected);
        assert_eq!(deserialize(&de, json).unwrap(), value());
    }
}

#[test]
fn the_error_names_the_class_as_it_is_defined() {
    let mut de = DataEnum::new(
        Name::from_pascal_case("Pair"),
        CustomType::new("PairIntegerString"),
        DataEnumStyle::External,
    );
    de.add_variant(DataEnumVariant::unit(Name::from_pascal_case("None"), "None".to_string()));
    assert_eq!(
        deserialize(&de, Json::Null).unwrap_err().message(),
        "Cannot deserialize PairIntegerString"
    );
}
