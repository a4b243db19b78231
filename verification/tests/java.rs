use rdc::errors::Error;
use rdc::ir::TypeTarget::Java;
use rdc::ir::{
    CustomType, DataEnum, DataEnumStyle, Enum, EnumVariant, Field, FieldDef,
    IntermediateRepresentation, Name, Struct, Type, TypeDef, TypeGraph, TypeRef, TypeShape,
    VariantDef,
};
use rdc::targets::java::cg_enum::generate_enum_class;
use rdc::targets::java::cg_struct::generate_data_class;
use rdc::targets::java::cg_utils::Compact;
use rdc::targets::java::tokens::JavaTokens;
use rdc::targets::java::{generate_java_code, JavaClass};

fn test_struct() -> Struct {
    let mut struct_ir = Struct::new(
        Name::from_pascal_case("TestStruct"),
        CustomType::new("TestStruct"),
    );
    let field1 = Field::new(
        Name::from_snake_case("complex_name"),
        "otherName",
        Type::new("String"),
    );
    struct_ir.add_field(field1);
    struct_ir
}

fn test_enum() -> Enum {
    let mut enum_ir = Enum::new(
        Name::from_pascal_case("TestEnum"),
        CustomType::new("TestEnum"),
    );
    enum_ir.add_variant(EnumVariant::new(
        Name::from_pascal_case("Test"),
        "TEST_OPTION",
    ));
    enum_ir.add_variant(EnumVariant::new(
        Name::from_pascal_case("Test2"),
        "TEST2_OPTION",
    ));
    enum_ir
}

const STRUCT_TEXT: &str = "import com.fasterxml.jackson.annotation.JsonProperty;\n\
\n\
public class TestStruct {\n\
\x20   @JsonProperty(\"otherName\")\n\
\x20   private String complexName;\n\
\n\
\x20   public TestStruct() {}\n\
\n\
\x20   public String getComplexName() {\n\
\x20       return complexName;\n\
\x20   }\n\
\n\
\x20   public void setComplexName(String complexName) {\n\
\x20       this.complexName = complexName;\n\
\x20   }\n\
}";

const ENUM_TEXT: &str = "import com.fasterxml.jackson.annotation.JsonProperty;\n\
\n\
public enum TestEnum {\n\
\x20   @JsonProperty(\"TEST_OPTION\")\n\
\x20   TEST,@JsonProperty(\"TEST2_OPTION\")\n\
\x20   TEST2\n\
}";

#[test]
fn cg_struct_generate_basic_class() {
    let mut ir = IntermediateRepresentation::new(Java);
    let mut struct_ir = Struct::new(
        Name::from_pascal_case("TestStruct"),
        CustomType::new("TestStruct"),
    );

    let field1 = Field::new(
        Name::from_snake_case("complex_name"),
        "otherName",
        Type::new("String"),
    );
    struct_ir.add_field(field1);

    ir.add_struct(struct_ir);

    let classes = generate_java_code(&ir).unwrap();
    assert_eq!(classes.len(), 1);
    let class = &classes[0];
    assert_eq!(class.name(), "TestStruct");
    println!("{}", classes[0].code());
    assert_eq!(class.code(), STRUCT_TEXT);
}

#[test]
fn cg_enum_generate_basic_class() {
    let mut ir = IntermediateRepresentation::new(Java);
    let mut enum_ir = Enum::new(
        Name::from_pascal_case("TestEnum"),
        CustomType::new("TestEnum"),
    );
    enum_ir.add_variant(EnumVariant::new(
        Name::from_pascal_case("Test"),
        "TEST_OPTION",
    ));
    enum_ir.add_variant(EnumVariant::new(
        Name::from_pascal_case("Test2"),
        "TEST2_OPTION",
    ));
    ir.add_enum(enum_ir);

    let classes = generate_java_code(&ir).unwrap();
    assert_eq!(classes.len(), 1);
    let class = &classes[0];
    assert_eq!(class.name(), "TestEnum");
    println!("{}", classes[0].code());
    assert_eq!(class.code(), ENUM_TEXT);
}

fn text_field(name: &str) -> FieldDef {
    FieldDef {
        name: name.to_string(),
        json_name: name.to_string(),
        ty: TypeRef::Text,
    }
}

#[test]
fn test_generate_java_code() {
    let graph = TypeGraph {
        defs: vec![
            TypeDef {
                name: "MyStruct".to_string(),
                shape: TypeShape::Struct(vec![
                    text_field("field1"),
                    FieldDef {
                        name: "dependency".to_string(),
                        json_name: "dependency".to_string(),
                        ty: TypeRef::Custom(1),
                    },
                ]),
            },
            TypeDef {
                name: "Dependency".to_string(),
                shape: TypeShape::Struct(vec![text_field("field1")]),
            },
            TypeDef {
                name: "MyEnum".to_string(),
                shape: TypeShape::Enum(vec![
                    VariantDef {
                        name: "Variant1".to_string(),
                        json_name: "Variant1".to_string(),
                    },
                    VariantDef {
                        name: "Variant2".to_string(),
                        json_name: "Variant2".to_string(),
                    },
                ]),
            },
        ],
    };
    assert!(graph.is_well_formed());
    let mut ir = IntermediateRepresentation::new(Java);
    ir.add(&graph, &TypeRef::Custom(0));
    ir.add(&graph, &TypeRef::Custom(2));
    let results = generate_java_code(&ir);
    assert!(results.is_ok());
    assert_eq!(results.unwrap().len(), 3);
}

#[test]
fn classes_come_structs_first_then_enums_then_unions() {
    let mut ir = IntermediateRepresentation::new(Java);
    ir.add_data_enum(DataEnum::new(
        Name::from_pascal_case("Union"),
        CustomType::new("Union"),
        DataEnumStyle::External,
    ));
    ir.add_enum(test_enum());
    ir.add_struct(test_struct());
    let classes = generate_java_code(&ir).unwrap();
    let names: Vec<&str> = classes.iter().map(|c| c.name()).collect();
    assert_eq!(names, vec!["TestStruct", "TestEnum", "Union"]);
    assert_eq!(classes[0].code(), STRUCT_TEXT);
    assert_eq!(classes[1].code(), ENUM_TEXT);
}

#[test]
fn empty_model_gives_no_class() {
    let ir = IntermediateRepresentation::new(Java);
    assert_eq!(generate_java_code(&ir).unwrap().len(), 0);
}

#[test]
fn single_generators_agree_with_the_whole() {
    let class = generate_data_class(&test_struct()).unwrap();
    assert_eq!(class.name(), "TestStruct");
    assert_eq!(class.code(), STRUCT_TEXT);
    let class = generate_enum_class(&test_enum()).unwrap();
    assert_eq!(class.name(), "TestEnum");
    assert_eq!(class.code(), ENUM_TEXT);
}

#[test]
fn struct_without_fields() {
    let s = Struct::new(Name::from_pascal_case("Bare"), CustomType::new("Bare"));
    let class = generate_data_class(&s).unwrap();
    assert_eq!(
        class.code(),
        "import com.fasterxml.jackson.annotation.JsonProperty;\n\npublic class Bare {\n\n    public Bare() {}\n}"
    );
}

#[test]
fn enum_without_variants() {
    let e = Enum::new(Name::from_pascal_case("Bare"), CustomType::new("Bare"));
    let class = generate_enum_class(&e).unwrap();
    assert_eq!(
        class.code(),
        "import com.fasterxml.jackson.annotation.JsonProperty;\n\npublic enum Bare {}"
    );
}

#[test]
fn class_from_rendered_text() {
    let class = JavaClass::from_rendered("Main".to_string(), Some("class Main {}".to_string()))
        .unwrap();
    assert_eq!(class.name(), "Main");
    assert_eq!(class.code(), "class Main {}");
}

#[test]
fn class_without_text_is_the_generation_error() {
    let error: Error = JavaClass::from_rendered("Main".to_string(), None).unwrap_err();
    assert_eq!(error.message(), "Failed to generate Java code");
}

#[test]
fn class_keeps_name_and_code() {
    let class = JavaClass::new("Main".to_string(), "code".to_string());
    assert_eq!(class.name(), "Main");
    assert_eq!(class.code(), "code");
}

#[test]
fn error_keeps_its_message() {
    assert_eq!(Error::new("broken").message(), "broken");
}

fn streams() -> Vec<JavaTokens> {
    let de = {
        let mut de = DataEnum::new(
            Name::from_pascal_case("U"),
            CustomType::new("U"),
            DataEnumStyle::External,
        );
        de.add_variant(rdc::ir::DataEnumVariant::unit(
            Name::from_pascal_case("A"),
            "A".to_string(),
        ));
        de
    };
    vec![
        rdc::targets::java::cg_data_enum::generate_variants_enum(&de),
        rdc::targets::java::cg_data_enum::generate_variants_enum(&de),
    ]
}

#[test]
fn compact_puts_streams_together() {
    let tokens = streams().compact();
    let class = JavaClass::from_tokens("T".to_string(), tokens).unwrap();
    assert_eq!(
        class.code(),
        "public enum Variant {\n    A\n}public enum Variant {\n    A\n}"
    );
}

#[test]
fn join_separates_streams() {
    let tokens = streams().join(", ");
    let class = JavaClass::from_tokens("T".to_string(), tokens).unwrap();
    assert_eq!(
        class.code(),
        "public enum Variant {\n    A\n}, public enum Variant {\n    A\n}"
    );
    let none: Vec<JavaTokens> = Vec::new();
    let class = JavaClass::from_tokens("T".to_string(), none.join(", ")).unwrap();
    assert_eq!(class.code(), "");
}

#[test]
fn a_class_bears_its_defining_identifier() {
    let s = Struct::new(
        Name::from_pascal_case("HTTPServer"),
        CustomType::new("HTTPServer"),
    );
    let class = generate_data_class(&s).unwrap();
    assert_eq!(class.name(), "HTTPServer");
    assert!(class.code().contains("public class HTTPServer {"));
    assert!(class.code().contains("public HTTPServer() {}"));
    let e = Enum::new(
        Name::from_pascal_case("IOKind"),
        CustomType::new("IOKind"),
    );
    let class = generate_enum_class(&e).unwrap();
    assert_eq!(class.name(), "IOKind");
    assert!(class.code().contains("public enum IOKind {}"));
}
