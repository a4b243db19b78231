use rdc::codegen::GenerateIR;
use rdc::ir::TypeTarget::Java;
use rdc::ir::{
    DataEnumVariant, DataVariantDef, FieldDef, IntermediateRepresentation, PayloadDef, TypeDef,
    TypeGraph, TypeRef, TypeShape, TypeTarget, VariantDef,
};
use rdc::targets::java::generate_java_code;
use rdc::targets::java::type_resolver::{JavaCustomType, JavaType};

fn field(name: &str, ty: TypeRef) -> FieldDef {
    FieldDef {
        name: name.to_string(),
        json_name: name.to_string(),
        ty,
    }
}

fn record(name: &str, fields: Vec<FieldDef>) -> TypeDef {
    TypeDef {
        name: name.to_string(),
        shape: TypeShape::Struct(fields),
    }
}

fn list(ty: TypeRef) -> TypeRef {
    TypeRef::List(Box::new(ty))
}

/// A depends on B and C, which both depend on D.
fn diamond() -> TypeGraph {
    TypeGraph {
        defs: vec![
            record(
                "A",
                vec![field("b", TypeRef::Custom(1)), field("c", TypeRef::Custom(2))],
            ),
            record("B", vec![field("d", TypeRef::Custom(3))]),
            record("C", vec![field("d", TypeRef::Custom(3))]),
            record("D", vec![field("x", TypeRef::Int32)]),
        ],
    }
}

fn class_names(ir: &IntermediateRepresentation) -> Vec<String> {
    generate_java_code(ir)
        .unwrap()
        .iter()
        .map(|c| c.name().to_string())
        .collect()
}

#[test]
fn a_shared_dependency_is_registered_once() {
    let graph = diamond();
    assert!(graph.is_well_formed());
    let mut ir = IntermediateRepresentation::new(Java);
    ir.add(&graph, &TypeRef::Custom(0));
    assert_eq!(ir.structs().len(), 4);
    assert_eq!(ir.enums().len(), 0);
    assert_eq!(ir.data_enums().len(), 0);
    assert_eq!(class_names(&ir), vec!["A", "B", "D", "C"]);
    for id in 0..4 {
        assert!(ir.has_type_id(id));
    }
    assert!(!ir.has_type_id(4));
}

#[test]
fn registering_again_changes_nothing() {
    let graph = diamond();
    let mut ir = IntermediateRepresentation::new(Java);
    ir.add(&graph, &TypeRef::Custom(0));
    ir.add(&graph, &TypeRef::Custom(0));
    ir.add(&graph, &TypeRef::Custom(3));
    ir.add(&graph, &list(TypeRef::Custom(2)));
    assert_eq!(class_names(&ir), vec!["A", "B", "D", "C"]);
}

#[test]
fn a_union_that_holds_itself_is_registered_once() {
    let graph = TypeGraph {
        defs: vec![TypeDef {
            name: "Tree".to_string(),
            shape: TypeShape::DataEnum(vec![
                DataVariantDef {
                    name: "Leaf".to_string(),
                    json_name: "Leaf".to_string(),
                    payload: PayloadDef::Unit,
                },
                DataVariantDef {
                    name: "Nested".to_string(),
                    json_name: "Nested".to_string(),
                    payload: PayloadDef::Tuple(vec![TypeRef::Boxed(Box::new(TypeRef::Custom(0)))]),
                },
            ]),
        }],
    };
    assert!(graph.is_well_formed());
    let mut ir = IntermediateRepresentation::new(Java);
    ir.add(&graph, &TypeRef::Custom(0));
    assert_eq!(ir.data_enums().len(), 1);
    assert_eq!(ir.structs().len() + ir.enums().len(), 0);
    let de = &ir.data_enums()[0];
    assert_eq!(de.name().as_pascal_case(), "Tree");
    assert_eq!(de.variants().len(), 2);
    match &de.variants()[1] {
        DataEnumVariant::Tuple { fields, .. } => {
            assert_eq!(fields.len(), 1);
            assert_eq!(fields[0].name(), "Tree");
        }
        _ => panic!("the second variant is positional"),
    }
}

#[test]
fn definitions_that_depend_on_each_other() {
    let graph = TypeGraph {
        defs: vec![
            record("Ping", vec![field("pong", TypeRef::Optional(Box::new(TypeRef::Custom(1))))]),
            record("Pong", vec![field("ping", list(TypeRef::Custom(0)))]),
        ],
    };
    let mut ir = IntermediateRepresentation::new(Java);
    ir.add(&graph, &TypeRef::Custom(1));
    assert_eq!(class_names(&ir), vec!["Pong", "Ping"]);
    assert_eq!(ir.structs()[0].fields()[0].field_type().name(), "java.util.List<Ping>");
    assert_eq!(ir.structs()[1].fields()[0].field_type().name(), "Pong");
}

#[test]
fn containers_register_what_they_hold() {
    let graph = diamond();
    let mut ir = IntermediateRepresentation::new(Java);
    ir.add(
        &graph,
        &list(TypeRef::Optional(Box::new(TypeRef::Mapping(
            Box::new(TypeRef::Text),
            Box::new(TypeRef::Boxed(Box::new(TypeRef::Custom(3)))),
        )))),
    );
    assert_eq!(class_names(&ir), vec!["D"]);
}

#[test]
fn a_map_registers_its_keys_before_its_values() {
    let graph = diamond();
    let mut ir = IntermediateRepresentation::new(Java);
    ir.add(
        &graph,
        &TypeRef::Mapping(Box::new(TypeRef::Custom(2)), Box::new(TypeRef::Custom(1))),
    );
    assert_eq!(class_names(&ir), vec!["C", "D", "B"]);
}

#[test]
fn primitive_types_register_nothing() {
    let graph = diamond();
    let mut ir = IntermediateRepresentation::new(Java);
    for ty in [
        TypeRef::Bool,
        TypeRef::Int8,
        TypeRef::Int16,
        TypeRef::Int32,
        TypeRef::Int64,
        TypeRef::Float32,
        TypeRef::Float64,
        TypeRef::Text,
    ] {
        ir.add(&graph, &ty);
    }
    assert_eq!(ir.structs().len() + ir.enums().len() + ir.data_enums().len(), 0);
    assert!(!ir.has_type_id(0));
}

#[test]
fn each_instantiation_is_a_type_of_its_own() {
    let graph = TypeGraph {
        defs: vec![
            record(
                "PairIntegerString",
                vec![field("left", TypeRef::Int32), field("right", TypeRef::Text)],
            ),
            record(
                "PairIntegerBoolean",
                vec![field("left", TypeRef::Int32), field("right", TypeRef::Bool)],
            ),
            record(
                "Both",
                vec![
                    field("first", TypeRef::Custom(0)),
                    field("second", TypeRef::Custom(1)),
                    field("again", TypeRef::Custom(0)),
                ],
            ),
        ],
    };
    let mut ir = IntermediateRepresentation::new(Java);
    ir.add(&graph, &TypeRef::Custom(2));
    assert_eq!(
        class_names(&ir),
        vec!["Both", "PairIntegerString", "PairIntegerBoolean"]
    );
}

#[test]
fn a_seen_identity_is_passed_over() {
    let graph = diamond();
    let mut ir = IntermediateRepresentation::new(Java);
    ir.add_type_id(1);
    ir.add(&graph, &TypeRef::Custom(0));
    assert_eq!(class_names(&ir), vec!["A", "C", "D"]);
}

#[test]
fn entities_carry_names_tags_and_types() {
    let graph = TypeGraph {
        defs: vec![
            TypeDef {
                name: "HttpRequest".to_string(),
                shape: TypeShape::Struct(vec![
                    FieldDef {
                        name: "retry_count".to_string(),
                        json_name: "retries".to_string(),
                        ty: TypeRef::Int64,
                    },
                    field("kind", TypeRef::Custom(1)),
                ]),
            },
            TypeDef {
                name: "ExportType".to_string(),
                shape: TypeShape::Enum(vec![
                    VariantDef {
                        name: "Csv".to_string(),
                        json_name: "CSV".to_string(),
                    },
                    VariantDef {
                        name: "PlainText".to_string(),
                        json_name: "PlainText".to_string(),
                    },
                ]),
            },
        ],
    };
    let mut ir = IntermediateRepresentation::new(Java);
    ir.add(&graph, &TypeRef::Custom(0));
    let s = &ir.structs()[0];
    assert_eq!(s.name().as_snake_case(), "http_request");
    assert_eq!(s.self_type().name(), "HttpRequest");
    assert_eq!(s.fields()[0].name().as_camel_case(), "retryCount");
    assert_eq!(s.fields()[0].json_name(), "retries");
    assert_eq!(s.fields()[0].field_type().name(), "Long");
    assert_eq!(s.fields()[1].field_type().name(), "ExportType");
    let e = &ir.enums()[0];
    assert_eq!(e.name().as_pascal_case(), "ExportType");
    assert_eq!(e.self_type().name(), "ExportType");
    assert_eq!(e.variants()[0].name().as_upper_snake_case(), "CSV");
    assert_eq!(e.variants()[0].json_name(), "CSV");
    assert_eq!(e.variants()[1].name().as_upper_snake_case(), "PLAIN_TEXT");
    assert!(matches!(ir.target(), TypeTarget::Java));
}

#[test]
fn union_entities_carry_their_payloads() {
    let graph = TypeGraph {
        defs: vec![
            TypeDef {
                name: "Shape".to_string(),
                shape: TypeShape::DataEnum(vec![
                    DataVariantDef {
                        name: "Point".to_string(),
                        json_name: "point".to_string(),
                        payload: PayloadDef::Unit,
                    },
                    DataVariantDef {
                        name: "Circle".to_string(),
                        json_name: "Circle".to_string(),
                        payload: PayloadDef::Object(vec![FieldDef {
                            name: "radius".to_string(),
                            json_name: "r".to_string(),
                            ty: TypeRef::Float64,
                        }]),
                    },
                    DataVariantDef {
                        name: "Tagged".to_string(),
                        json_name: "Tagged".to_string(),
                        payload: PayloadDef::Tuple(vec![TypeRef::Custom(1), list(TypeRef::Float32)]),
                    },
                ]),
            },
            record("Label", vec![field("text", TypeRef::Text)]),
        ],
    };
    assert!(graph.is_well_formed());
    let mut ir = IntermediateRepresentation::new(Java);
    ir.add(&graph, &TypeRef::Custom(0));
    assert_eq!(class_names(&ir), vec!["Label", "Shape"]);
    let de = &ir.data_enums()[0];
    assert!(matches!(de.style(), rdc::ir::DataEnumStyle::External));
    match &de.variants()[0] {
        DataEnumVariant::Unit { name, json_name } => {
            assert_eq!(name.as_snake_case(), "point");
            assert_eq!(json_name, "point");
        }
        _ => panic!("the first variant has no payload"),
    }
    match &de.variants()[1] {
        DataEnumVariant::Object { fields, .. } => {
            assert_eq!(fields.len(), 1);
            assert_eq!(fields[0].name().as_snake_case(), "radius");
            assert_eq!(fields[0].json_name(), "r");
            assert_eq!(fields[0].field_type().name(), "Double");
        }
        _ => panic!("the second variant has named fields"),
    }
    match &de.variants()[2] {
        DataEnumVariant::Tuple { fields, .. } => {
            assert_eq!(fields[0].name(), "Label");
            assert_eq!(fields[1].name(), "java.util.List<Float>");
        }
        _ => panic!("the third variant is positional"),
    }
    assert_eq!(de.variants()[2].name().as_pascal_case(), "Tagged");
    assert_eq!(de.variants()[0].json_name(), "point");
}

#[test]
fn java_names_of_types() {
    let graph = diamond();
    let target = TypeTarget::Java;
    let name = |ty: TypeRef| target.resolve_type(&graph, &ty).name().clone();
    assert_eq!(name(TypeRef::Bool), "Boolean");
    assert_eq!(name(TypeRef::Int8), "Byte");
    assert_eq!(name(TypeRef::Int16), "Short");
    assert_eq!(name(TypeRef::Int32), "Integer");
    assert_eq!(name(TypeRef::Int64), "Long");
    assert_eq!(name(TypeRef::Float32), "Float");
    assert_eq!(name(TypeRef::Float64), "Double");
    assert_eq!(name(TypeRef::Text), "String");
    assert_eq!(name(list(TypeRef::Int32)), "java.util.List<Integer>");
    assert_eq!(name(TypeRef::Optional(Box::new(TypeRef::Int32))), "Integer");
    assert_eq!(name(TypeRef::Boxed(Box::new(TypeRef::Custom(3)))), "D");
    assert_eq!(
        name(TypeRef::Mapping(
            Box::new(TypeRef::Text),
            Box::new(list(TypeRef::Optional(Box::new(TypeRef::Int64))))
        )),
        "java.util.Map<String, java.util.List<Long>>"
    );
    assert_eq!(target.resolve_custom_type(&graph.defs[0]).name(), "A");
}

#[test]
fn a_reference_out_of_the_graph_is_found() {
    let mut graph = diamond();
    assert!(graph.is_well_formed());
    graph
        .defs
        .push(record("E", vec![field("gone", list(TypeRef::Custom(9)))]));
    assert!(!graph.is_well_formed());
    assert!(TypeRef::Custom(4).is_within(5));
    assert!(!TypeRef::Custom(5).is_within(5));
    assert!(list(TypeRef::Text).is_within(0));
}

#[test]
fn descriptions_answer_for_themselves() {
    let graph = diamond();
    assert_eq!(list(TypeRef::Custom(3)).java_type(&graph).name(), "java.util.List<D>");
    assert_eq!(graph.defs[1].java_custom_type().name(), "B");
    let mut ir = IntermediateRepresentation::new(Java);
    TypeRef::Custom(1).add_to_ir(&graph, &mut ir);
    assert_eq!(class_names(&ir), vec!["B", "D"]);
    let mut same = IntermediateRepresentation::new(Java);
    same.collect(&graph, &TypeRef::Custom(1));
    assert_eq!(class_names(&same), vec!["B", "D"]);
}
