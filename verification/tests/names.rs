use rdc::ir::Name;

#[test]
fn test_name_from_snake_case() {
    let name = Name::from_snake_case("snake_case");
    assert_eq!(name.as_snake_case(), "snake_case");
    assert_eq!(name.as_camel_case(), "snakeCase");
    assert_eq!(name.as_pascal_case(), "SnakeCase");
    assert_eq!(name.as_upper_snake_case(), "SNAKE_CASE");
}

#[test]
fn test_name_from_camel_case() {
    let name = Name::from_camel_case("camelCase");
    assert_eq!(name.as_snake_case(), "camel_case");
    assert_eq!(name.as_camel_case(), "camelCase");
    assert_eq!(name.as_pascal_case(), "CamelCase");
    assert_eq!(name.as_upper_snake_case(), "CAMEL_CASE");
}

#[test]
fn test_name_from_pascal_case() {
    let name = Name::from_pascal_case("PascalCase");
    assert_eq!(name.as_snake_case(), "pascal_case");
    assert_eq!(name.as_camel_case(), "pascalCase");
    assert_eq!(name.as_pascal_case(), "PascalCase");
    assert_eq!(name.as_upper_snake_case(), "PASCAL_CASE");
}

#[test]
fn snake_case_is_kept_as_it_stands() {
    for text in ["", "a", "snake_case", "Odd_Case", "__x", "trailing_"] {
        assert_eq!(Name::from_snake_case(text).as_snake_case(), text);
    }
}

#[test]
fn camel_case_round_trip() {
    for text in ["", "a", "camelCase", "aB", "getFast2", "xY1", "parseXmlFile", "\u{e9}t\u{e9}"] {
        assert_eq!(Name::from_camel_case(text).as_camel_case(), text);
    }
}

#[test]
fn pascal_case_round_trip() {
    for text in ["", "A", "PascalCase", "Ab", "XyZ1", "GetFast2", "1a", "\u{c9}cole"] {
        assert_eq!(Name::from_pascal_case(text).as_pascal_case(), text);
    }
}

#[test]
fn round_trip_needs_the_style() {
    assert_eq!(Name::from_camel_case("with_underscore").as_camel_case(), "withUnderscore");
    assert_eq!(Name::from_camel_case("Capital").as_camel_case(), "capital");
    assert_eq!(Name::from_pascal_case("small").as_pascal_case(), "Small");
    assert_eq!(Name::from_camel_case("aBC").as_camel_case(), "aBc");
    assert_eq!(Name::from_camel_case("get2Fast").as_camel_case(), "get2fast");
    assert_eq!(Name::from_pascal_case("ABC").as_pascal_case(), "Abc");
    assert_eq!(Name::from_pascal_case("X1Y2").as_pascal_case(), "X1y2");
}

#[test]
fn a_capital_opens_a_segment_after_a_small_letter() {
    assert_eq!(Name::from_camel_case("aBC").as_snake_case(), "a_bc");
    assert_eq!(Name::from_camel_case("aB").as_snake_case(), "a_b");
    assert_eq!(Name::from_camel_case("aBcD").as_snake_case(), "a_bc_d");
    assert_eq!(Name::from_camel_case("parseXMLFile").as_snake_case(), "parse_xmlfile");
    assert_eq!(Name::from_pascal_case("HttpServer").as_snake_case(), "http_server");
}

#[test]
fn a_capital_elsewhere_opens_no_segment() {
    assert_eq!(Name::from_camel_case("A").as_snake_case(), "a");
    assert_eq!(Name::from_camel_case("ABC").as_snake_case(), "abc");
    assert_eq!(Name::from_camel_case("a1B2").as_snake_case(), "a1b2");
    assert_eq!(Name::from_camel_case("a_B").as_snake_case(), "a_b");
    assert_eq!(Name::from_camel_case("\u{e9}B").as_snake_case(), "\u{e9}b");
    assert_eq!(Name::from_pascal_case("HTTPServer").as_snake_case(), "httpserver");
}

#[test]
fn underscores_without_a_letter_behind() {
    assert_eq!(Name::from_snake_case("trailing_").as_camel_case(), "trailing");
    assert_eq!(Name::from_snake_case("a__b").as_camel_case(), "a_b");
    assert_eq!(Name::from_snake_case("_x").as_camel_case(), "X");
    assert_eq!(Name::from_snake_case("_x").as_pascal_case(), "X");
    assert_eq!(Name::from_snake_case("_").as_camel_case(), "");
}

#[test]
fn upper_snake_is_snake_in_capitals() {
    assert_eq!(Name::from_snake_case("a_b1_c").as_upper_snake_case(), "A_B1_C");
    assert_eq!(Name::from_snake_case("").as_upper_snake_case(), "");
    assert_eq!(Name::from_snake_case("\u{e9}t\u{e9}").as_upper_snake_case(), "\u{e9}T\u{e9}");
    assert_eq!(Name::from_camel_case("xmlHttp").as_upper_snake_case(), "XML_HTTP");
}

#[test]
fn only_ascii_letters_change_case() {
    assert_eq!(Name::from_snake_case("\u{e9}cole").as_pascal_case(), "\u{e9}cole");
    assert_eq!(Name::from_camel_case("\u{c9}cole").as_snake_case(), "\u{c9}cole");
}

#[test]
fn a_clone_is_the_same_name() {
    let name = Name::from_camel_case("someName");
    assert_eq!(name.clone().as_snake_case(), "some_name");
}
