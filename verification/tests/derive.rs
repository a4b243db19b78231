use rdc::ir::TypeTarget::Java;
use rdc::ir::{
    DataVariantDef, FieldDef, IntermediateRepresentation, PayloadDef, TypeDef, TypeGraph, TypeRef,
    TypeShape, VariantDef,
};
use rdc::targets::java::{generate_java_code, JavaClass};
use rdc::wire::{deserialize, is_value_of, serialize, Json, Member, Payload, Value};

fn variant(name: &str, json_name: &str, payload: PayloadDef) -> DataVariantDef {
    DataVariantDef {
        name: name.to_string(),
        json_name: json_name.to_string(),
        payload,
    }
}

/// `TestEnum<i32>`, with the tags that its renames give.
fn test_enum() -> TypeGraph {
    TypeGraph {
        defs: vec![TypeDef {
            name: "TestEnumInteger".to_string(),
            shape: TypeShape::DataEnum(vec![
                variant("Csv", "Csv", PayloadDef::Tuple(vec![TypeRef::Text])),
                variant("Json", "JSON", PayloadDef::Tuple(vec![TypeRef::Int32])),
                variant(
                    "Xml",
                    "XML",
                    PayloadDef::Tuple(vec![TypeRef::Float64, TypeRef::Int32]),
                ),
                variant("Yaml", "YAML", PayloadDef::Tuple(vec![TypeRef::Int32])),
                variant(
                    "Other",
                    "Other",
                    PayloadDef::Object(vec![FieldDef {
                        name: "name".to_string(),
                        json_name: "other".to_string(),
                        ty: TypeRef::Text,
                    }]),
                ),
                variant("Unit", "Unit", PayloadDef::Unit),
                variant(
                    "List",
                    "List",
                    PayloadDef::Tuple(vec![TypeRef::List(Box::new(TypeRef::Int32))]),
                ),
                variant(
                    "Nested",
                    "Nested",
                    PayloadDef::Tuple(vec![TypeRef::Boxed(Box::new(TypeRef::Custom(0)))]),
                ),
            ]),
        }],
    }
}

fn show(json: &Json) -> String {
    match json {
        Json::Null => "null".to_string(),
        Json::Bool(b) => format!("{}", b),
        Json::Number(n) => n.clone(),
        Json::Text(t) => format!("\"{}\"", t),
        Json::Array(items) => {
            let items: Vec<String> = items.iter().map(show).collect();
            format!("[{}]", items.join(","))
        }
        Json::Object(members) => {
            let members: Vec<String> = members
                .iter()
                .map(|m| format!("\"{}\":{}", m.key, show(&m.value)))
                .collect();
            format!("{{{}}}", members.join(","))
        }
    }
}

fn text(t: &str) -> Json {
    Json::Text(t.to_string())
}

fn number(x: f64) -> Json {
    Json::Number(format!("{}", x))
}

fn list_of(numbers: &[f64]) -> Json {
    Json::Array(numbers.iter().map(|n| number(*n)).collect())
}

fn values() -> Vec<(Value, &'static str)> {
    vec![
        (
            Value { variant: 0, payload: Payload::Tuple(vec![text("test")]) },
            "{\"Csv\":\"test\"}",
        ),
        (
            Value { variant: 1, payload: Payload::Tuple(vec![number(42.0)]) },
            "{\"JSON\":42}",
        ),
        (
            Value { variant: 2, payload: Payload::Tuple(vec![number(3.13467), number(57.0)]) },
            "{\"XML\":[3.13467,57]}",
        ),
        (
            Value { variant: 3, payload: Payload::Tuple(vec![number(42.0)]) },
            "{\"YAML\":42}",
        ),
        (
            Value {
                variant: 4,
                payload: Payload::Object(Json::Object(vec![Member {
                    key: "other".to_string(),
                    value: text("test"),
                }])),
            },
            "{\"Other\":{\"other\":\"test\"}}",
        ),
        (Value { variant: 5, payload: Payload::Unit }, "\"Unit\""),
        (
            Value { variant: 6, payload: Payload::Tuple(vec![list_of(&[1.0, 2.0])]) },
            "{\"List\":[1,2]}",
        ),
        (
            Value { variant: 6, payload: Payload::Tuple(vec![list_of(&[1.0])]) },
            "{\"List\":[1]}",
        ),
        (
            Value { variant: 7, payload: Payload::Tuple(vec![text("Unit")]) },
            "{\"Nested\":\"Unit\"}",
        ),
    ]
}

#[test]
fn cg_data_enum_enum_derive_test() {
    let graph = test_enum();
    assert!(graph.is_well_formed());
    let mut ir = IntermediateRepresentation::new(Java);
    ir.add(&graph, &TypeRef::Custom(0));
    let classes = generate_java_code(&ir).unwrap();
    for class in &classes {
        println!("{}", class.code());
    }
    assert_eq!(classes.len(), 1);
    assert_eq!(classes[0].name(), "TestEnumInteger");
    for accessor in [
        "public boolean isOther() {",
        "public Other getOther() {",
        "public String getName() {",
        "public boolean isYaml() {",
        "public Integer getYaml() {",
        "public boolean isXml() {",
        "public Double getXml0() {",
        "public Integer getXml1() {",
        "public boolean isNested() {",
        "public TestEnumInteger getNested() {",
        "public boolean isUnit() {",
        "public java.util.List<Integer> getList() {",
    ] {
        assert!(classes[0].code().contains(accessor), "{}", accessor);
    }
    let de = &ir.data_enums()[0];
    for ((e, json), (same, _)) in values().into_iter().zip(values()) {
        assert!(is_value_of(de, &e));
        let serialized = serialize(de, same);
        assert_eq!(show(&serialized), json);
        let deserialized = deserialize(de, serialized).unwrap();
        assert_eq!(e, deserialized);
    }
}

fn field(name: &str, json_name: &str, ty: TypeRef) -> FieldDef {
    FieldDef {
        name: name.to_string(),
        json_name: json_name.to_string(),
        ty,
    }
}

fn main_class() -> JavaClass {
    JavaClass::new(
        "Main".to_string(),
        "public class Main {\n    public static void main(String[] args) throws Exception {}\n}"
            .to_string(),
    )
}

/// `Value`, which holds an `ExportType`.
fn value_graph() -> TypeGraph {
    TypeGraph {
        defs: vec![
            TypeDef {
                name: "Value".to_string(),
                shape: TypeShape::Struct(vec![field("value", "value", TypeRef::Custom(1))]),
            },
            TypeDef {
                name: "ExportType".to_string(),
                shape: TypeShape::Enum(vec![
                    VariantDef { name: "Csv".to_string(), json_name: "CSV".to_string() },
                    VariantDef { name: "Json".to_string(), json_name: "Json".to_string() },
                    VariantDef { name: "Xml".to_string(), json_name: "XML".to_string() },
                ]),
            },
        ],
    }
}

#[test]
fn cg_enum_enum_derive_test() {
    let graph = value_graph();
    assert!(graph.is_well_formed());
    let mut ir = IntermediateRepresentation::new(Java);
    ir.add(&graph, &TypeRef::Custom(0));
    let mut classes = generate_java_code(&ir).unwrap();
    for class in &classes {
        println!("{}", class.code());
    }
    classes.push(main_class());
    assert_eq!(classes.len(), 3);
    let names: Vec<&str> = classes.iter().map(|c| c.name()).collect();
    assert_eq!(names, vec!["Value", "ExportType", "Main"]);
    assert_eq!(
        classes[1].code(),
        "import com.fasterxml.jackson.annotation.JsonProperty;\n\npublic enum ExportType {\n    @JsonProperty(\"CSV\")\n    CSV,@JsonProperty(\"Json\")\n    JSON,@JsonProperty(\"XML\")\n    XML\n}"
    );
    assert!(classes[0]
        .code()
        .contains("@JsonProperty(\"value\")\n    private ExportType value;"));
}

/// `B<i32, f64>`, which holds an `A`.
fn pair_graph() -> TypeGraph {
    TypeGraph {
        defs: vec![
            TypeDef {
                name: "BIntegerDouble".to_string(),
                shape: TypeShape::Struct(vec![
                    field("k", "k", TypeRef::Int32),
                    field("v", "hello", TypeRef::Float64),
                    field("a", "a", TypeRef::Custom(1)),
                ]),
            },
            TypeDef {
                name: "A".to_string(),
                shape: TypeShape::Struct(vec![
                    field("a", "a", TypeRef::Int32),
                    field("b", "b", TypeRef::Int32),
                ]),
            },
        ],
    }
}

#[test]
fn struct_derive_test() {
    let graph = pair_graph();
    assert!(graph.is_well_formed());
    let mut ir = IntermediateRepresentation::new(Java);
    ir.add(&graph, &TypeRef::Custom(0));
    let mut classes = generate_java_code(&ir).unwrap();
    classes.push(main_class());
    assert_eq!(classes.len(), 3);
    for class in &classes {
        println!("{}", class.code());
    }
    let names: Vec<&str> = classes.iter().map(|c| c.name()).collect();
    assert_eq!(names, vec!["BIntegerDouble", "A", "Main"]);
    let b = classes[0].code();
    assert!(b.contains("public class BIntegerDouble {"));
    assert!(b.contains("@JsonProperty(\"k\")\n    private Integer k;"));
    assert!(b.contains("@JsonProperty(\"hello\")\n    private Double v;"));
    assert!(b.contains("@JsonProperty(\"a\")\n    private A a;"));
    assert!(b.contains("public Double getV() {"));
    assert!(b.contains("public void setA(A a) {"));
    let a = classes[1].code();
    assert!(a.contains("@JsonProperty(\"a\")\n    private Integer a;"));
    assert!(a.contains("@JsonProperty(\"b\")\n    private Integer b;"));
}
