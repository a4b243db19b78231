use rdc::ir::TypeTarget::Java;
use rdc::ir::{
    CustomType, DataEnum, DataEnumObjectField, DataEnumStyle, DataEnumVariant,
    IntermediateRepresentation, Name, Type,
};
use rdc::targets::java::cg_data_enum::external::{
    generate_external_deserializer, generate_external_serializer,
};
use rdc::targets::java::cg_data_enum::{
    generate_enum_data_class, generate_field_code, generate_variants_enum,
};
use rdc::targets::java::{generate_java_code, JavaClass};

fn export() -> DataEnum {
    let mut de = DataEnum::new(
        Name::from_pascal_case("TestEnum"),
        CustomType::new("TestEnum"),
        DataEnumStyle::External,
    );
    de.add_variant(DataEnumVariant::tuple(
        Name::from_pascal_case("Csv"),
        "Csv".to_string(),
        vec![Type::new("String")],
    ));
    de.add_variant(DataEnumVariant::tuple(
        Name::from_pascal_case("Json"),
        "JSON".to_string(),
        vec![Type::new("Integer")],
    ));
    de.add_variant(DataEnumVariant::tuple(
        Name::from_pascal_case("Xml"),
        "XML".to_string(),
        vec![Type::new("Double"), Type::new("Integer")],
    ));
    de.add_variant(DataEnumVariant::object(
        Name::from_pascal_case("Other"),
        "Other".to_string(),
        vec![DataEnumObjectField::new(
            Name::from_snake_case("name"),
            "other".to_string(),
            Type::new("String"),
        )],
    ));
    de.add_variant(DataEnumVariant::unit(
        Name::from_pascal_case("Unit"),
        "Unit".to_string(),
    ));
    de
}

const EXPECTED: &str = r#"import com.fasterxml.jackson.annotation.JsonIgnore;
import com.fasterxml.jackson.annotation.JsonInclude;
import com.fasterxml.jackson.annotation.JsonProperty;
import com.fasterxml.jackson.core.*;
import com.fasterxml.jackson.databind.DeserializationContext;
import com.fasterxml.jackson.databind.JsonNode;
import com.fasterxml.jackson.databind.SerializerProvider;
import com.fasterxml.jackson.databind.annotation.JsonDeserialize;
import com.fasterxml.jackson.databind.annotation.JsonSerialize;
import com.fasterxml.jackson.databind.deser.std.StdDeserializer;
import com.fasterxml.jackson.databind.node.ObjectNode;
import com.fasterxml.jackson.databind.ser.std.StdSerializer;
import com.fasterxml.jackson.core.type.TypeReference;

import java.io.IOException;

@JsonInclude(JsonInclude.Include.NON_NULL)
@JsonSerialize(using = TestEnum.Serializer.class)
@JsonDeserialize(using = TestEnum.Deserializer.class)
public class TestEnum {
    @JsonIgnore
    private final Variant variant;

    @JsonIgnore
    private final Object value;

    private TestEnum(Variant variant, Object value) {
        this.variant = variant;
        this.value = value;
    }

    public static TestEnum ofCsv(String arg0) {
        return new TestEnum(Variant.CSV, new Object[] {
            arg0
        });
    }

    @SuppressWarnings("unchecked")
    public String getCsv() {
        if (variant != Variant.CSV) {
            throw new IllegalStateException("Invalid variant: " + variant);
        }
        return (String) ((Object[]) value)[0];
    }

    public boolean isCsv() {
        return variant == Variant.CSV;
    }public static TestEnum ofJson(Integer arg0) {
        return new TestEnum(Variant.JSON, new Object[] {
            arg0
        });
    }

    @SuppressWarnings("unchecked")
    public Integer getJson() {
        if (variant != Variant.JSON) {
            throw new IllegalStateException("Invalid variant: " + variant);
        }
        return (Integer) ((Object[]) value)[0];
    }

    public boolean isJson() {
        return variant == Variant.JSON;
    }public static TestEnum ofXml(Double arg0,Integer arg1) {
        return new TestEnum(Variant.XML, new Object[] {
            arg0,arg1
        });
    }

    @SuppressWarnings("unchecked")
    public Double getXml0() {
        if (variant != Variant.XML) {
            throw new IllegalStateException("Invalid variant: " + variant);
        }
        return (Double) ((Object[]) value)[0];
    }@SuppressWarnings("unchecked")
    public Integer getXml1() {
        if (variant != Variant.XML) {
            throw new IllegalStateException("Invalid variant: " + variant);
        }
        return (Integer) ((Object[]) value)[1];
    }

    public boolean isXml() {
        return variant == Variant.XML;
    }public static TestEnum ofOther(Other value) {
        return new TestEnum(Variant.OTHER, value);
    }

    public Other getOther() {
        if (variant != Variant.OTHER) {
            throw new IllegalStateException("Invalid variant: " + variant);
        }
        return (Other) value;
    }

    public static class Other {
        private final String name;

        public Other(@JsonProperty("other") String name) {
            this.name = name;
        }

        @JsonProperty("other")
        public String getName() {
            return name;
        }
    }

    public boolean isOther() {
        return variant == Variant.OTHER;
    }public static TestEnum ofUnit() {
        return new TestEnum(Variant.UNIT, null);
    }

    public boolean isUnit() {
        return variant == Variant.UNIT;
    }

    public static class Serializer extends StdSerializer<TestEnum> {
        public Serializer() {
            super(TestEnum.class);
        }

        @Override
        public void serialize(TestEnum value, JsonGenerator gen, SerializerProvider provider) throws IOException {
            switch (value.getVariant()) {
                case CSV: {
                    gen.writeStartObject();
                    gen.writeObjectField("Csv", ((Object[]) value.value)[0]);
                    gen.writeEndObject();
                }
                break;case JSON: {
                    gen.writeStartObject();
                    gen.writeObjectField("JSON", ((Object[]) value.value)[0]);
                    gen.writeEndObject();
                }
                break;case XML: {
                    gen.writeStartObject();
                    gen.writeObjectField("XML", value.value);
                    gen.writeEndObject();
                }
                break;case OTHER: {
                    gen.writeStartObject();
                    gen.writeObjectField("Other", value.value);
                    gen.writeEndObject();
                }
                break;case UNIT: {
                    gen.writeString("Unit");
                }
                break;
            }
        }
    }

    public static class Deserializer extends StdDeserializer<TestEnum> {
        public Deserializer() {
            super(TestEnum.class);
        }

        private Object[] parseField(DeserializationContext cxtx, ObjectNode node, String key, TypeReference<?>...types) throws IOException {
            JsonNode field = node.get(key);
            if (types.length == 1) {
                try (JsonParser parser = field.traverse(cxtx.getParser().getCodec())) {
                    return new Object[]{parser.readValueAs(types[0])};
                }
            }
            if (!field.isArray() || field.size() != types.length) {
                throw cxtx.instantiationException(TestEnum.class, "Cannot deserialize " + "TestEnum");
            }
            Object[] result = new Object[types.length];
            for (int i = 0; i < types.length; i++) {
                try (JsonParser parser = field.get(i).traverse(cxtx.getParser().getCodec())) {
                    result[i] = parser.readValueAs(types[i]);
                }
            }
            return result;
        }

        @Override
        public TestEnum deserialize(JsonParser p, DeserializationContext ctxt) throws IOException, JacksonException {

            if (p.currentToken() == JsonToken.VALUE_STRING) {
                if (p.getText().equals("Unit")) {
                    return new TestEnum(Variant.UNIT, null);
                }
            } else if (p.currentToken() == JsonToken.START_OBJECT) {
                var node = (ObjectNode) p.getCodec().readTree(p);
                if (node.has("Csv")) {
                    return new TestEnum(Variant.CSV, parseField(ctxt, node, "Csv", new TypeReference<String>(){}));
                }if (node.has("JSON")) {
                    return new TestEnum(Variant.JSON, parseField(ctxt, node, "JSON", new TypeReference<Integer>(){}));
                }if (node.has("XML")) {
                    return new TestEnum(Variant.XML, parseField(ctxt, node, "XML", new TypeReference<Double>(){}, new TypeReference<Integer>(){}));
                }if (node.has("Other")) {
                    return new TestEnum(Variant.OTHER, parseField(ctxt, node, "Other", new TypeReference<Other>(){})[0]);
                }
            }
            throw ctxt.instantiationException(TestEnum.class, "Cannot deserialize " + "TestEnum");
        }
    }

    public enum Variant {
        CSV,JSON,XML,OTHER,UNIT
    }

    Variant getVariant() {
        return variant;
    }
}"#;

fn text(tokens: rdc::targets::java::tokens::JavaTokens) -> String {
    JavaClass::from_tokens("T".to_string(), tokens)
        .unwrap()
        .code()
        .to_string()
}

#[test]
fn data_enum_class_text() {
    let mut ir = IntermediateRepresentation::new(Java);
    ir.add_data_enum(export());
    let classes = generate_java_code(&ir).unwrap();
    assert_eq!(classes.len(), 1);
    assert_eq!(classes[0].name(), "TestEnum");
    assert_eq!(classes[0].code(), EXPECTED);
}

#[test]
fn data_enum_class_directly() {
    let class = generate_enum_data_class(&export()).unwrap();
    assert_eq!(class.name(), "TestEnum");
    assert_eq!(class.code(), EXPECTED);
}

#[test]
fn unit_variant_members() {
    let de = export();
    let code = text(generate_field_code(&de, &de.variants()[4]));
    assert_eq!(
        code,
        "public static TestEnum ofUnit() {\n    return new TestEnum(Variant.UNIT, null);\n}\n\npublic boolean isUnit() {\n    return variant == Variant.UNIT;\n}"
    );
}

#[test]
fn single_slot_accessor_has_no_index() {
    let de = export();
    let code = text(generate_field_code(&de, &de.variants()[0]));
    assert!(code.contains("public String getCsv() {"));
    assert!(!code.contains("getCsv0"));
    assert!(code.contains("return (String) ((Object[]) value)[0];"));
}

#[test]
fn several_slots_have_indexed_accessors() {
    let de = export();
    let code = text(generate_field_code(&de, &de.variants()[2]));
    assert!(code.contains("public Double getXml0() {"));
    assert!(code.contains("public Integer getXml1() {"));
    assert!(code.contains("return (Integer) ((Object[]) value)[1];"));
    assert!(code.contains("public static TestEnum ofXml(Double arg0,Integer arg1) {"));
}

#[test]
fn accessors_fail_on_another_variant() {
    let de = export();
    for variant in [0, 1, 2, 3] {
        let code = text(generate_field_code(&de, &de.variants()[variant]));
        assert!(code.contains("throw new IllegalStateException(\"Invalid variant: \" + variant);"));
    }
}

#[test]
fn object_variant_has_a_nested_class() {
    let de = export();
    let code = text(generate_field_code(&de, &de.variants()[3]));
    assert!(code.contains("public static class Other {"));
    assert!(code.contains("private final String name;"));
    assert!(code.contains("public Other(@JsonProperty(\"other\") String name) {"));
    assert!(code.contains("@JsonProperty(\"other\")\n    public String getName() {"));
    assert!(code.contains("public Other getOther() {"));
}

#[test]
fn variants_enum_lists_the_constants() {
    let code = text(generate_variants_enum(&export()));
    assert_eq!(code, "public enum Variant {\n    CSV,JSON,XML,OTHER,UNIT\n}");
}

#[test]
fn serializer_writes_the_external_form() {
    let code = text(generate_external_serializer(&export()));
    assert!(code.contains("case UNIT: {\n                gen.writeString(\"Unit\");"));
    assert!(code.contains(
        "case CSV: {\n                gen.writeStartObject();\n                gen.writeObjectField(\"Csv\", ((Object[]) value.value)[0]);"
    ));
    assert!(code.contains(
        "case XML: {\n                gen.writeStartObject();\n                gen.writeObjectField(\"XML\", value.value);"
    ));
    assert!(code.contains(
        "case OTHER: {\n                gen.writeStartObject();\n                gen.writeObjectField(\"Other\", value.value);"
    ));
}

#[test]
fn deserializer_tries_the_variants_in_declaration_order() {
    let code = text(generate_external_deserializer(&export()));
    let csv = code.find("node.has(\"Csv\")").unwrap();
    let json = code.find("node.has(\"JSON\")").unwrap();
    let xml = code.find("node.has(\"XML\")").unwrap();
    let other = code.find("node.has(\"Other\")").unwrap();
    assert!(csv < json && json < xml && xml < other);
    assert!(code.contains("if (p.getText().equals(\"Unit\")) {"));
    assert!(code.contains(
        "parseField(ctxt, node, \"XML\", new TypeReference<Double>(){}, new TypeReference<Integer>(){})"
    ));
    assert!(code.contains(
        "throw ctxt.instantiationException(TestEnum.class, \"Cannot deserialize \" + \"TestEnum\");"
    ));
}

#[test]
fn reader_decides_by_the_number_of_slots_first() {
    let code = text(generate_external_deserializer(&export()));
    let single = code.find("if (types.length == 1) {").unwrap();
    let array = code
        .find("if (!field.isArray() || field.size() != types.length) {")
        .unwrap();
    assert!(single < array);
    assert!(code.contains("return new Object[]{parser.readValueAs(types[0])};"));
}

#[test]
fn a_wrong_number_of_values_is_the_error_that_names_the_class() {
    let code = text(generate_external_deserializer(&export()));
    assert!(code.contains(
        "if (!field.isArray() || field.size() != types.length) {\n            throw cxtx.instantiationException(TestEnum.class, \"Cannot deserialize \" + \"TestEnum\");\n        }"
    ));
    assert!(!code.contains("JsonParseException"));
    assert!(!code.contains("Expected array"));
}

#[test]
fn union_without_variants() {
    let de = DataEnum::new(
        Name::from_pascal_case("Nothing"),
        CustomType::new("Nothing"),
        DataEnumStyle::External,
    );
    assert_eq!(text(generate_variants_enum(&de)), "public enum Variant {}");
    let class = generate_enum_data_class(&de).unwrap();
    assert_eq!(class.name(), "Nothing");
    assert!(class.code().contains("switch (value.getVariant()) {}"));
}

#[test]
fn tuple_variant_without_slots() {
    let mut de = DataEnum::new(
        Name::from_pascal_case("Holder"),
        CustomType::new("Holder"),
        DataEnumStyle::External,
    );
    de.add_variant(DataEnumVariant::tuple(
        Name::from_pascal_case("Empty"),
        "Empty".to_string(),
        vec![],
    ));
    let code = text(generate_field_code(&de, &de.variants()[0]));
    assert_eq!(
        code,
        "public static Holder ofEmpty() {\n    return new Holder(Variant.EMPTY, new Object[] {});\n}\n\npublic boolean isEmpty() {\n    return variant == Variant.EMPTY;\n}"
    );
}

#[test]
fn tags_are_escaped_as_java_strings() {
    let mut de = DataEnum::new(
        Name::from_pascal_case("Quoted"),
        CustomType::new("Quoted"),
        DataEnumStyle::External,
    );
    de.add_variant(DataEnumVariant::unit(
        Name::from_pascal_case("Odd"),
        "a\"b\\c".to_string(),
    ));
    let code = text(generate_external_serializer(&de));
    assert!(code.contains("gen.writeString(\"a\\\"b\\\\c\");"));
}

#[test]
fn a_union_class_bears_its_defining_identifier() {
    let mut de = DataEnum::new(
        Name::from_pascal_case("Pair"),
        CustomType::new("PairIntegerString"),
        DataEnumStyle::External,
    );
    de.add_variant(DataEnumVariant::tuple(
        Name::from_pascal_case("Both"),
        "Both".to_string(),
        vec![Type::new("Integer"), Type::new("String")],
    ));
    let class = generate_enum_data_class(&de).unwrap();
    assert_eq!(class.name(), "PairIntegerString");
    let code = class.code();
    assert!(code.contains("public class PairIntegerString {"));
    assert!(code.contains("@JsonSerialize(using = PairIntegerString.Serializer.class)"));
    assert!(code.contains("public static PairIntegerString ofBoth(Integer arg0,String arg1) {"));
    assert!(code.contains(
        "throw cxtx.instantiationException(PairIntegerString.class, \"Cannot deserialize \" + \"PairIntegerString\");"
    ));
    assert!(code.contains(
        "throw ctxt.instantiationException(PairIntegerString.class, \"Cannot deserialize \" + \"PairIntegerString\");"
    ));
}
