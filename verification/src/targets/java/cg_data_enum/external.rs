//! The serializer and the deserializer of a tagged union in the external
//! style: a variant without payload is its tag as a string, any other a
//! single-key object from its tag to its payload.

use crate::ir::data::{
    data_variant_views, type_views, DataEnum, DataEnumVariant, DataEnumVariantView, DataEnumView,
    Type,
};
use crate::ir::name::snake_to_pascal;
use crate::targets::java::cg_utils::{
    all_shallow, append_parts, compact_within, concat, concat_join, lemma_concat_join_take,
};
use crate::targets::java::tokens::{settled, shallow, JavaTokens};
use crate::targets::java::writer::{run, Op, Writer};
use crate::text::upper_all;
use vstd::prelude::*;

verus! {

/// Writing a variant without payload: its tag as a string.
pub open spec fn write_unit_ops(json_name: Seq<char>) -> Seq<Op> {
    seq![
        Op::Text("gen.writeString("@),
        Op::Quoted(json_name),
        Op::Text(");"@),
    ]
}

/// Writing a variant whose payload is one value as it stands: an object from
/// the tag to the payload.
pub open spec fn write_whole_ops(json_name: Seq<char>) -> Seq<Op> {
    seq![
        Op::Text("gen.writeStartObject();"@),
        Op::Push,
        Op::Text("gen.writeObjectField("@),
        Op::Quoted(json_name),
        Op::Text(","@),
        Op::Space,
        Op::Text("value.value);"@),
        Op::Push,
        Op::Text("gen.writeEndObject();"@),
    ]
}

/// Writing a variant with a single slot: an object from the tag to the slot's
/// value, not to the array around it.
#[verifier::opaque]
pub open spec fn write_single_ops(json_name: Seq<char>) -> Seq<Op> {
    seq![
        Op::Text("gen.writeStartObject();"@),
        Op::Push,
        Op::Text("gen.writeObjectField("@),
        Op::Quoted(json_name),
        Op::Text(","@),
        Op::Space,
        Op::Text("((Object[])"@),
        Op::Space,
        Op::Text("value.value)[0]);"@),
        Op::Push,
        Op::Text("gen.writeEndObject();"@),
    ]
}

/// How a variant is written, by its shape.
pub open spec fn serializer_body_ops(v: DataEnumVariantView) -> Seq<Op> {
    match v {
        DataEnumVariantView::Unit { json_name, .. } => write_unit_ops(json_name),
        DataEnumVariantView::Object { json_name, .. } => write_whole_ops(json_name),
        DataEnumVariantView::Tuple { json_name, fields, .. } => if fields.len() == 1 {
            write_single_ops(json_name)
        } else {
            write_whole_ops(json_name)
        },
    }
}

/// The serializer's case for one variant.
#[verifier::opaque]
pub open spec fn serializer_case_ops(v: DataEnumVariantView) -> Seq<Op> {
    seq![
        Op::Text("case"@),
        Op::Space,
        Op::Text(upper_all(v.name())),
        Op::Text(":"@),
        Op::Space,
        Op::Text("{"@),
        Op::Indent,
        Op::Append(run(serializer_body_ops(v))),
        Op::Unindent,
        Op::Text("}"@),
        Op::Push,
        Op::Text("break;"@),
    ]
}

/// Per variant, one operation: add its case.
pub open spec fn serializer_case_parts(de: DataEnumView) -> Seq<Seq<Op>> {
    Seq::new(
        de.variants.len(),
        |i: int| seq![Op::Append(run(serializer_case_ops(de.variants[i])))],
    )
}

/// The head of the serializer and its constructor.
#[verifier::opaque]
pub open spec fn serializer_head_ops(de: DataEnumView) -> Seq<Op> {
    seq![
        Op::Text("public"@),
        Op::Space,
        Op::Text("static"@),
        Op::Space,
        Op::Text("class"@),
        Op::Space,
        Op::Text("Serializer"@),
        Op::Space,
        Op::Text("extends"@),
        Op::Space,
        Op::Text("StdSerializer<"@),
        Op::Text(de.self_type),
        Op::Text(">"@),
        Op::Space,
        Op::Text("{"@),
        Op::Indent,
        Op::Text("public"@),
        Op::Space,
        Op::Text("Serializer()"@),
        Op::Space,
        Op::Text("{"@),
        Op::Indent,
        Op::Text("super("@),
        Op::Text(de.self_type),
        Op::Text(".class);"@),
        Op::Unindent,
        Op::Text("}"@),
    ]
}

/// The head of the method that writes a value.
#[verifier::opaque]
pub open spec fn serializer_signature_ops(de: DataEnumView) -> Seq<Op> {
    seq![
        Op::Line,
        Op::Text("@Override"@),
        Op::Push,
        Op::Text("public"@),
        Op::Space,
        Op::Text("void"@),
        Op::Space,
        Op::Text("serialize("@),
        Op::Text(de.self_type),
        Op::Space,
        Op::Text("value,"@),
        Op::Space,
        Op::Text("JsonGenerator"@),
        Op::Space,
        Op::Text("gen,"@),
        Op::Space,
        Op::Text("SerializerProvider"@),
        Op::Space,
        Op::Text("provider)"@),
        Op::Space,
        Op::Text("throws"@),
        Op::Space,
        Op::Text("IOException"@),
        Op::Space,
        Op::Text("{"@),
    ]
}

/// The switch on the discriminant, with one case per variant in declaration
/// order, and the end of the serializer.
#[verifier::opaque]
pub open spec fn serializer_switch_ops(de: DataEnumView) -> Seq<Op> {
    seq![
        Op::Indent,
        Op::Text("switch"@),
        Op::Space,
        Op::Text("(value.getVariant())"@),
        Op::Space,
        Op::Text("{"@),
        Op::Indent,
        Op::Append(run(concat(serializer_case_parts(de)))),
        Op::Unindent,
        Op::Text("}"@),
        Op::Unindent,
        Op::Text("}"@),
        Op::Unindent,
        Op::Text("}"@),
    ]
}

/// The serializer: a switch on the discriminant with one case per variant, in
/// declaration order.
pub open spec fn serializer_ops(de: DataEnumView) -> Seq<Op> {
    serializer_head_ops(de) + serializer_signature_ops(de) + serializer_switch_ops(de)
}

/// Reading a variant without payload: the string is compared with its tag.
#[verifier::opaque]
pub open spec fn unit_case_ops(class: Seq<char>, v: DataEnumVariantView) -> Seq<Op> {
    seq![
        Op::Text("if"@),
        Op::Space,
        Op::Text("(p.getText().equals("@),
        Op::Quoted(v.json_name()),
        Op::Text("))"@),
        Op::Space,
        Op::Text("{"@),
        Op::Indent,
        Op::Text("return"@),
        Op::Space,
        Op::Text("new"@),
        Op::Space,
        Op::Text(class),
        Op::Text("(Variant."@),
        Op::Text(upper_all(v.name())),
        Op::Text(","@),
        Op::Space,
        Op::Text("null);"@),
        Op::Unindent,
        Op::Text("}"@),
    ]
}

/// Reading a variant with named fields: where the object has its tag as a
/// key, the value under it is read as the nested class.
#[verifier::opaque]
pub open spec fn object_case_ops(class: Seq<char>, v: DataEnumVariantView) -> Seq<Op> {
    seq![
        Op::Text("if"@),
        Op::Space,
        Op::Text("(node.has("@),
        Op::Quoted(v.json_name()),
        Op::Text("))"@),
        Op::Space,
        Op::Text("{"@),
        Op::Indent,
        Op::Text("return"@),
        Op::Space,
        Op::Text("new"@),
        Op::Space,
        Op::Text(class),
        Op::Text("(Variant."@),
        Op::Text(upper_all(v.name())),
        Op::Text(","@),
        Op::Space,
        Op::Text("parseField(ctxt,"@),
        Op::Space,
        Op::Text("node,"@),
        Op::Space,
        Op::Quoted(v.json_name()),
        Op::Text(","@),
        Op::Space,
        Op::Text("new"@),
        Op::Space,
        Op::Text("TypeReference<"@),
        Op::Text(snake_to_pascal(v.name())),
        Op::Text(">(){})[0]);"@),
        Op::Unindent,
        Op::Text("}"@),
    ]
}

/// Reading a positional variant, up to the types of its slots.
#[verifier::opaque]
pub open spec fn tuple_case_head_ops(class: Seq<char>, v: DataEnumVariantView) -> Seq<Op> {
    seq![
        Op::Text("if"@),
        Op::Space,
        Op::Text("(node.has("@),
        Op::Quoted(v.json_name()),
        Op::Text("))"@),
        Op::Space,
        Op::Text("{"@),
        Op::Indent,
        Op::Text("return"@),
        Op::Space,
        Op::Text("new"@),
        Op::Space,
        Op::Text(class),
        Op::Text("(Variant."@),
        Op::Text(upper_all(v.name())),
        Op::Text(","@),
        Op::Space,
        Op::Text("parseField(ctxt,"@),
        Op::Space,
        Op::Text("node,"@),
        Op::Space,
        Op::Quoted(v.json_name()),
        Op::Text(","@),
        Op::Space,
    ]
}

/// The end of reading a positional variant.
pub open spec fn tuple_case_tail_ops() -> Seq<Op> {
    seq![
        Op::Text("));"@),
        Op::Unindent,
        Op::Text("}"@),
    ]
}

/// The type of one slot, as handed to the reader.
pub open spec fn type_reference_ops(slot: Seq<char>) -> Seq<Op> {
    seq![
        Op::Text("new"@),
        Op::Space,
        Op::Text("TypeReference<"@),
        Op::Text(slot),
        Op::Text(">(){}"@),
    ]
}

/// What separates the types of two slots.
pub open spec fn type_reference_separator() -> Seq<Op> {
    seq![
        Op::Text(","@),
        Op::Space,
    ]
}

/// Per slot, its type as handed to the reader.
pub open spec fn type_reference_parts(slots: Seq<Seq<char>>) -> Seq<Seq<Op>> {
    Seq::new(slots.len(), |i: int| type_reference_ops(slots[i]))
}

/// Reading a positional variant: where the object has its tag as a key, the
/// value under it is read with one type per slot, so that the reader can hold
/// the number of values against the number of slots.
pub open spec fn tuple_case_ops(class: Seq<char>, v: DataEnumVariantView, slots: Seq<Seq<char>>)
    -> Seq<Op> {
    tuple_case_head_ops(class, v) + concat_join(
        type_reference_parts(slots),
        type_reference_separator(),
    ) + tuple_case_tail_ops()
}

/// What a variant adds to the branch for strings: its case where it has no
/// payload, else nothing.
pub open spec fn unit_case_part(class: Seq<char>, v: DataEnumVariantView) -> Seq<Op> {
    match v {
        DataEnumVariantView::Unit { .. } => seq![Op::Append(run(unit_case_ops(class, v)))],
        _ => Seq::empty(),
    }
}

/// What a variant adds to the branch for objects: its case where it has a
/// payload, else nothing.
pub open spec fn object_case_part(class: Seq<char>, v: DataEnumVariantView) -> Seq<Op> {
    match v {
        DataEnumVariantView::Unit { .. } => Seq::empty(),
        DataEnumVariantView::Object { .. } => seq![Op::Append(run(object_case_ops(class, v)))],
        DataEnumVariantView::Tuple { fields, .. } => seq![
            Op::Append(run(tuple_case_ops(class, v, fields))),
        ],
    }
}

/// The cases of the branch for strings, in declaration order.
pub open spec fn unit_case_parts(class: Seq<char>, variants: Seq<DataEnumVariantView>) -> Seq<
    Seq<Op>,
> {
    Seq::new(variants.len(), |i: int| unit_case_part(class, variants[i]))
}

/// The cases of the branch for objects, in declaration order: the first
/// variant whose tag is a key of the object is the one that is read.
pub open spec fn object_case_parts(class: Seq<char>, variants: Seq<DataEnumVariantView>) -> Seq<
    Seq<Op>,
> {
    Seq::new(variants.len(), |i: int| object_case_part(class, variants[i]))
}

/// The head of the deserializer and its constructor.
#[verifier::opaque]
pub open spec fn deserializer_head_ops(de: DataEnumView) -> Seq<Op> {
    seq![
        Op::Text("public"@),
        Op::Space,
        Op::Text("static"@),
        Op::Space,
        Op::Text("class"@),
        Op::Space,
        Op::Text("Deserializer"@),
        Op::Space,
        Op::Text("extends"@),
        Op::Space,
        Op::Text("StdDeserializer<"@),
        Op::Text(de.self_type),
        Op::Text(">"@),
        Op::Space,
        Op::Text("{"@),
        Op::Indent,
        Op::Text("public"@),
        Op::Space,
        Op::Text("Deserializer()"@),
        Op::Space,
        Op::Text("{"@),
        Op::Indent,
        Op::Text("super("@),
        Op::Text(de.self_type),
        Op::Text(".class);"@),
        Op::Unindent,
        Op::Text("}"@),
    ]
}

/// The head of the reader of a payload: it takes the object, the tag and one
/// type per slot.
#[verifier::opaque]
pub open spec fn parse_field_signature_ops() -> Seq<Op> {
    seq![
        Op::Line,
        Op::Text("private"@),
        Op::Space,
        Op::Text("Object[]"@),
        Op::Space,
        Op::Text("parseField(DeserializationContext"@),
        Op::Space,
        Op::Text("cxtx,"@),
        Op::Space,
        Op::Text("ObjectNode"@),
        Op::Space,
        Op::Text("node,"@),
        Op::Space,
        Op::Text("String"@),
        Op::Space,
        Op::Text("key,"@),
        Op::Space,
        Op::Text("TypeReference<?>...types)"@),
        Op::Space,
        Op::Text("throws"@),
        Op::Space,
        Op::Text("IOException"@),
        Op::Space,
        Op::Text("{"@),
    ]
}

/// What stands under the tag is looked up; the number of types decides how it
/// is read.
#[verifier::opaque]
pub open spec fn parse_field_single_ops() -> Seq<Op> {
    seq![
        Op::Indent,
        Op::Text("JsonNode"@),
        Op::Space,
        Op::Text("field"@),
        Op::Space,
        Op::Text("="@),
        Op::Space,
        Op::Text("node.get(key);"@),
        Op::Push,
        Op::Text("if"@),
        Op::Space,
        Op::Text("(types.length"@),
        Op::Space,
        Op::Text("=="@),
        Op::Space,
        Op::Text("1)"@),
        Op::Space,
        Op::Text("{"@),
    ]
}

/// With one type, what stands under the tag is read as the value of the one
/// slot, whatever it is.
#[verifier::opaque]
pub open spec fn parse_field_value_ops() -> Seq<Op> {
    seq![
        Op::Indent,
        Op::Text("try"@),
        Op::Space,
        Op::Text("(JsonParser"@),
        Op::Space,
        Op::Text("parser"@),
        Op::Space,
        Op::Text("="@),
        Op::Space,
        Op::Text("field.traverse(cxtx.getParser().getCodec()))"@),
        Op::Space,
        Op::Text("{"@),
        Op::Indent,
        Op::Text("return"@),
        Op::Space,
        Op::Text("new"@),
        Op::Space,
        Op::Text("Object[]{parser.readValueAs(types[0])};"@),
        Op::Unindent,
        Op::Text("}"@),
        Op::Unindent,
        Op::Text("}"@),
    ]
}

/// With another number of types, what stands under the tag must be an array
/// of as many elements.
#[verifier::opaque]
pub open spec fn parse_field_array_ops() -> Seq<Op> {
    seq![
        Op::Push,
        Op::Text("if"@),
        Op::Space,
        Op::Text("(!field.isArray()"@),
        Op::Space,
        Op::Text("||"@),
        Op::Space,
        Op::Text("field.size()"@),
        Op::Space,
        Op::Text("!="@),
        Op::Space,
        Op::Text("types.length)"@),
        Op::Space,
        Op::Text("{"@),
    ]
}

/// Anything else is refused, with the error that names the class.
#[verifier::opaque]
pub open spec fn parse_field_length_ops(de: DataEnumView) -> Seq<Op> {
    seq![
        Op::Indent,
        Op::Text("throw"@),
        Op::Space,
        Op::Text("cxtx.instantiationException("@),
        Op::Text(de.self_type),
        Op::Text(".class,"@),
        Op::Space,
        Op::Quoted("Cannot deserialize "@),
        Op::Space,
        Op::Text("+"@),
        Op::Space,
        Op::Quoted(de.self_type),
        Op::Text(");"@),
        Op::Unindent,
        Op::Text("}"@),
    ]
}

/// The elements of the array are read in order.
#[verifier::opaque]
pub open spec fn parse_field_elements_ops() -> Seq<Op> {
    seq![
        Op::Push,
        Op::Text("Object[]"@),
        Op::Space,
        Op::Text("result"@),
        Op::Space,
        Op::Text("="@),
        Op::Space,
        Op::Text("new"@),
        Op::Space,
        Op::Text("Object[types.length];"@),
        Op::Push,
        Op::Text("for"@),
        Op::Space,
        Op::Text("(int"@),
        Op::Space,
        Op::Text("i"@),
        Op::Space,
        Op::Text("="@),
        Op::Space,
        Op::Text("0;"@),
        Op::Space,
        Op::Text("i"@),
        Op::Space,
        Op::Text("<"@),
        Op::Space,
        Op::Text("types.length;"@),
        Op::Space,
        Op::Text("i++)"@),
        Op::Space,
        Op::Text("{"@),
    ]
}

/// Each element is read with the type of its slot.
#[verifier::opaque]
pub open spec fn parse_field_element_ops() -> Seq<Op> {
    seq![
        Op::Indent,
        Op::Text("try"@),
        Op::Space,
        Op::Text("(JsonParser"@),
        Op::Space,
        Op::Text("parser"@),
        Op::Space,
        Op::Text("="@),
        Op::Space,
        Op::Text("field.get(i).traverse(cxtx.getParser().getCodec()))"@),
        Op::Space,
        Op::Text("{"@),
        Op::Indent,
        Op::Text("result[i]"@),
        Op::Space,
        Op::Text("="@),
        Op::Space,
        Op::Text("parser.readValueAs(types[i]);"@),
        Op::Unindent,
        Op::Text("}"@),
        Op::Unindent,
        Op::Text("}"@),
        Op::Push,
        Op::Text("return"@),
        Op::Space,
        Op::Text("result;"@),
        Op::Unindent,
        Op::Text("}"@),
    ]
}

/// The head of the method that reads a value.
#[verifier::opaque]
pub open spec fn deserialize_signature_ops(de: DataEnumView) -> Seq<Op> {
    seq![
        Op::Line,
        Op::Text("@Override"@),
        Op::Push,
        Op::Text("public"@),
        Op::Space,
        Op::Text(de.self_type),
        Op::Space,
        Op::Text("deserialize(JsonParser"@),
        Op::Space,
        Op::Text("p,"@),
        Op::Space,
        Op::Text("DeserializationContext"@),
        Op::Space,
        Op::Text("ctxt)"@),
        Op::Space,
        Op::Text("throws"@),
        Op::Space,
        Op::Text("IOException,"@),
        Op::Space,
        Op::Text("JacksonException"@),
        Op::Space,
        Op::Text("{"@),
    ]
}

/// The branch for a string.
#[verifier::opaque]
pub open spec fn deserialize_string_ops() -> Seq<Op> {
    seq![
        Op::Indent,
        Op::Line,
        Op::Text("if"@),
        Op::Space,
        Op::Text("(p.currentToken()"@),
        Op::Space,
        Op::Text("=="@),
        Op::Space,
        Op::Text("JsonToken.VALUE_STRING)"@),
        Op::Space,
        Op::Text("{"@),
    ]
}

/// The cases of the variants without payload, in declaration order, and the
/// branch for an object.
#[verifier::opaque]
pub open spec fn deserialize_object_ops(de: DataEnumView) -> Seq<Op> {
    seq![
        Op::Indent,
        Op::Append(run(concat(unit_case_parts(de.self_type, de.variants)))),
        Op::Unindent,
        Op::Text("}"@),
        Op::Space,
        Op::Text("else"@),
        Op::Space,
        Op::Text("if"@),
        Op::Space,
        Op::Text("(p.currentToken()"@),
        Op::Space,
        Op::Text("=="@),
        Op::Space,
        Op::Text("JsonToken.START_OBJECT)"@),
        Op::Space,
        Op::Text("{"@),
    ]
}

/// The object is read as a tree.
#[verifier::opaque]
pub open spec fn deserialize_node_ops() -> Seq<Op> {
    seq![
        Op::Indent,
        Op::Text("var"@),
        Op::Space,
        Op::Text("node"@),
        Op::Space,
        Op::Text("="@),
        Op::Space,
        Op::Text("(ObjectNode)"@),
        Op::Space,
        Op::Text("p.getCodec().readTree(p);"@),
    ]
}

/// The cases of the variants with a payload, in declaration order; where no
/// case returned, the error that names the class.
#[verifier::opaque]
pub open spec fn deserialize_tail_ops(de: DataEnumView) -> Seq<Op> {
    seq![
        Op::Push,
        Op::Append(run(concat(object_case_parts(de.self_type, de.variants)))),
        Op::Unindent,
        Op::Text("}"@),
        Op::Push,
        Op::Text("throw"@),
        Op::Space,
        Op::Text("ctxt.instantiationException("@),
        Op::Text(de.self_type),
        Op::Text(".class,"@),
        Op::Space,
        Op::Quoted("Cannot deserialize "@),
        Op::Space,
        Op::Text("+"@),
        Op::Space,
        Op::Quoted(de.self_type),
        Op::Text(");"@),
        Op::Unindent,
        Op::Text("}"@),
        Op::Unindent,
        Op::Text("}"@),
    ]
}

/// The reader of a payload, which every case for an object goes through.
pub open spec fn parse_field_ops(de: DataEnumView) -> Seq<Op> {
    parse_field_signature_ops() + parse_field_single_ops() + parse_field_value_ops()
        + parse_field_array_ops() + parse_field_length_ops(de) + parse_field_elements_ops()
        + parse_field_element_ops()
}

/// The method that reads a value: by the kind of the token, the cases for
/// strings or the cases for objects; where none returns, the error that names
/// the class.
pub open spec fn deserialize_method_ops(de: DataEnumView) -> Seq<Op> {
    deserialize_signature_ops(de) + deserialize_string_ops() + deserialize_object_ops(de)
        + deserialize_node_ops() + deserialize_tail_ops(de)
}

/// The deserializer.
pub open spec fn deserializer_ops(de: DataEnumView) -> Seq<Op> {
    deserializer_head_ops(de) + parse_field_ops(de) + deserialize_method_ops(de)
}

/// How the variant `v` is written.
pub fn serializer_body(v: &DataEnumVariant) -> (tokens: JavaTokens)
    ensures
        tokens.items() == run(serializer_body_ops(v@)),
        tokens.items().len() > 0,
        shallow(tokens.items(), 0),
{
    let json_name = v.json_name().as_str();
    let single = match v {
        DataEnumVariant::Tuple { fields, .. } => fields.len() == 1,
        _ => false,
    };
    let mut w = Writer::new(Ghost(0));
    match v {
        DataEnumVariant::Unit { .. } => {
            w.text("gen.writeString(");
            w.quoted(json_name);
            w.text(");");
            assert(w.ops() == write_unit_ops(json_name@));
        },
        _ => {
            if single {
                w.text("gen.writeStartObject();");
                w.push();
                w.text("gen.writeObjectField(");
                w.quoted(json_name);
                w.text(",");
                w.space();
                w.text("((Object[])");
                w.space();
                w.text("value.value)[0]);");
                w.push();
                w.text("gen.writeEndObject();");
                proof {
                    reveal(write_single_ops);
                }
                assert(w.ops() == write_single_ops(json_name@));
            } else {
                w.text("gen.writeStartObject();");
                w.push();
                w.text("gen.writeObjectField(");
                w.quoted(json_name);
                w.text(",");
                w.space();
                w.text("value.value);");
                w.push();
                w.text("gen.writeEndObject();");
                assert(w.ops() == write_whole_ops(json_name@));
            }
        },
    }
    w.finish()
}

/// The serializer's case for the variant `v`.
pub fn serializer_case(v: &DataEnumVariant) -> (tokens: JavaTokens)
    ensures
        tokens.items() == run(serializer_case_ops(v@)),
        tokens.items().len() > 0,
        shallow(tokens.items(), 1),
{
    let constant = v.name().as_upper_snake_case();
    let body = serializer_body(v);
    let mut w = Writer::new(Ghost(1));
    w.text("case");
    w.space();
    w.text(constant.as_str());
    w.text(":");
    w.space();
    w.text("{");
    w.indent();
    w.append(&body, Ghost(0));
    w.unindent();
    w.text("}");
    w.push();
    w.text("break;");
    proof {
        reveal(serializer_case_ops);
    }
    assert(w.ops() == serializer_case_ops(v@));
    w.finish()
}

/// Performs [`serializer_head_ops`].
fn write_serializer_head(w: &mut Writer, de: &DataEnum)
    requires
        old(w).inv(),
        old(w).level() == 0,
        old(w).cap() >= 2,
        old(w).ops() == Seq::<Op>::empty(),
    ensures
        final(w).inv(),
        final(w).level() == 1,
        final(w).cap() == old(w).cap(),
        final(w).ops() == serializer_head_ops(de@),
        final(w).items().len() > 0,
        settled(final(w).items()),
{
    let class_name = de.self_type().name().clone();
    w.text("public");
    w.space();
    w.text("static");
    w.space();
    w.text("class");
    w.space();
    w.text("Serializer");
    w.space();
    w.text("extends");
    w.space();
    w.text("StdSerializer<");
    w.text(class_name.as_str());
    w.text(">");
    w.space();
    w.text("{");
    w.indent();
    w.text("public");
    w.space();
    w.text("Serializer()");
    w.space();
    w.text("{");
    w.indent();
    w.text("super(");
    w.text(class_name.as_str());
    w.text(".class);");
    w.unindent();
    w.text("}");
    proof {
        reveal(serializer_head_ops);
    }
    assert(w.ops() == serializer_head_ops(de@));
}

/// Performs [`serializer_signature_ops`].
fn write_serializer_signature(w: &mut Writer, de: &DataEnum)
    requires
        old(w).inv(),
        old(w).level() == 1,
        old(w).cap() >= 1,
        old(w).items().len() > 0,
    ensures
        final(w).inv(),
        final(w).level() == 1,
        final(w).cap() == old(w).cap(),
        final(w).ops() == old(w).ops() + serializer_signature_ops(de@),
        final(w).items().len() > 0,
        settled(final(w).items()),
{
    let class_name = de.self_type().name().clone();
    w.line();
    w.text("@Override");
    w.push();
    w.text("public");
    w.space();
    w.text("void");
    w.space();
    w.text("serialize(");
    w.text(class_name.as_str());
    w.space();
    w.text("value,");
    w.space();
    w.text("JsonGenerator");
    w.space();
    w.text("gen,");
    w.space();
    w.text("SerializerProvider");
    w.space();
    w.text("provider)");
    w.space();
    w.text("throws");
    w.space();
    w.text("IOException");
    w.space();
    w.text("{");
    proof {
        reveal(serializer_signature_ops);
    }
    assert(w.ops() =~= old(w).ops() + serializer_signature_ops(de@));
}

/// Performs [`serializer_switch_ops`].
fn write_serializer_switch(w: &mut Writer, de: &DataEnum, cases: &JavaTokens)
    requires
        old(w).inv(),
        old(w).level() == 1,
        old(w).cap() >= 4,
        old(w).items().len() > 0,
        settled(old(w).items()),
        shallow(cases.items(), 1),
        cases.items() == run(concat(serializer_case_parts(de@))),
    ensures
        final(w).inv(),
        final(w).level() == 0,
        final(w).cap() == old(w).cap(),
        final(w).ops() == old(w).ops() + serializer_switch_ops(de@),
        final(w).items().len() > 0,
        settled(final(w).items()),
{
    w.indent();
    w.text("switch");
    w.space();
    w.text("(value.getVariant())");
    w.space();
    w.text("{");
    w.indent();
    w.append(cases, Ghost(1));
    w.unindent();
    w.text("}");
    w.unindent();
    w.text("}");
    w.unindent();
    w.text("}");
    proof {
        reveal(serializer_switch_ops);
    }
    assert(w.ops() =~= old(w).ops() + serializer_switch_ops(de@));
}

/// The serializer of `de`.
pub fn generate_external_serializer(de: &DataEnum) -> (tokens: JavaTokens)
    ensures
        tokens.items() == run(serializer_ops(de@)),
        tokens.items().len() > 0,
        shallow(tokens.items(), 4),
{
    let variants = de.variants();
    let ghost parts = serializer_case_parts(de@);
    let mut case_list: Vec<JavaTokens> = Vec::new();
    let mut i: usize = 0;
    while i < variants.len()
        invariant
            i <= variants.len(),
            data_variant_views(variants@) == de@.variants,
            case_list@.len() == i,
            all_shallow(case_list@, 1),
            forall|k: int|
                0 <= k < i ==> (#[trigger] case_list@[k]).items() == run(
                    serializer_case_ops(de@.variants[k]),
                ),
        decreases variants.len() - i,
    {
        assert(variants@[i as int]@ == de@.variants[i as int]);
        let case = serializer_case(&variants[i]);
        case_list.push(case);
        i += 1;
    }
    assert(append_parts(case_list@) =~= parts);
    let cases = compact_within(&case_list, Ghost(1));
    let mut w = Writer::new(Ghost(4));
    write_serializer_head(&mut w, de);
    write_serializer_signature(&mut w, de);
    write_serializer_switch(&mut w, de, &cases);
    w.finish()
}

/// The deserializer's case for the variant `variant`, which has no payload.
pub fn deserialize_unit_variant(de: &DataEnum, variant: &DataEnumVariant) -> (tokens: JavaTokens)
    ensures
        tokens.items() == run(unit_case_ops(de@.self_type, variant@)),
        tokens.items().len() > 0,
        shallow(tokens.items(), 1),
{
    let ghost class = de@.self_type;
    let base_name = de.self_type().name().clone();
    let class_name = base_name.as_str();
    let v = variant;
    let constant = v.name().as_upper_snake_case();
    let mut w = Writer::new(Ghost(1));
    w.text("if");
    w.space();
    w.text("(p.getText().equals(");
    w.quoted(v.json_name().as_str());
    w.text("))");
    w.space();
    w.text("{");
    w.indent();
    w.text("return");
    w.space();
    w.text("new");
    w.space();
    w.text(class_name);
    w.text("(Variant.");
    w.text(constant.as_str());
    w.text(",");
    w.space();
    w.text("null);");
    w.unindent();
    w.text("}");
    proof {
        reveal(unit_case_ops);
    }
    assert(w.ops() == unit_case_ops(class, variant@));
    w.finish()
}

/// The deserializer's case for the variant `variant`, which has named fields.
pub fn deserialize_object_variant(de: &DataEnum, variant: &DataEnumVariant) -> (tokens:
    JavaTokens)
    ensures
        tokens.items() == run(object_case_ops(de@.self_type, variant@)),
        tokens.items().len() > 0,
        shallow(tokens.items(), 1),
{
    let ghost class = de@.self_type;
    let base_name = de.self_type().name().clone();
    let class_name = base_name.as_str();
    let v = variant;
    let constant = v.name().as_upper_snake_case();
    let holder = v.name().as_pascal_case();
    let mut w = Writer::new(Ghost(1));
    w.text("if");
    w.space();
    w.text("(node.has(");
    w.quoted(v.json_name().as_str());
    w.text("))");
    w.space();
    w.text("{");
    w.indent();
    w.text("return");
    w.space();
    w.text("new");
    w.space();
    w.text(class_name);
    w.text("(Variant.");
    w.text(constant.as_str());
    w.text(",");
    w.space();
    w.text("parseField(ctxt,");
    w.space();
    w.text("node,");
    w.space();
    w.quoted(v.json_name().as_str());
    w.text(",");
    w.space();
    w.text("new");
    w.space();
    w.text("TypeReference<");
    w.text(holder.as_str());
    w.text(">(){})[0]);");
    w.unindent();
    w.text("}");
    proof {
        reveal(object_case_ops);
    }
    assert(w.ops() == object_case_ops(class, variant@));
    w.finish()
}

/// The deserializer's case for the variant `variant`, whose slots have the
/// types `fields`.
pub fn deserialize_tuple_variant(
    de: &DataEnum,
    variant: &DataEnumVariant,
    fields: &Vec<Type>,
) -> (tokens: JavaTokens)
    ensures
        tokens.items() == run(
            tuple_case_ops(de@.self_type, variant@, type_views(fields@)),
        ),
        tokens.items().len() > 0,
        shallow(tokens.items(), 1),
{
    let ghost class = de@.self_type;
    let ghost slots = type_views(fields@);
    let base_name = de.self_type().name().clone();
    let class_name = base_name.as_str();
    let v = variant;
    let constant = v.name().as_upper_snake_case();
    let mut w = Writer::new(Ghost(1));
    w.text("if");
    w.space();
    w.text("(node.has(");
    w.quoted(v.json_name().as_str());
    w.text("))");
    w.space();
    w.text("{");
    w.indent();
    w.text("return");
    w.space();
    w.text("new");
    w.space();
    w.text(class_name);
    w.text("(Variant.");
    w.text(constant.as_str());
    w.text(",");
    w.space();
    w.text("parseField(ctxt,");
    w.space();
    w.text("node,");
    w.space();
    w.quoted(v.json_name().as_str());
    w.text(",");
    w.space();
    proof {
        reveal(tuple_case_head_ops);
    }
    assert(w.ops() == tuple_case_head_ops(class, variant@));

    let ghost before = w.ops();
    let ghost parts = type_reference_parts(slots);
    let ghost sep = type_reference_separator();
    assert(parts.take(0) =~= Seq::<Seq<Op>>::empty());
    let mut i: usize = 0;
    while i < fields.len()
        invariant
            i <= fields.len(),
            slots == type_views(fields@),
            parts == type_reference_parts(slots),
            sep == type_reference_separator(),
            w.inv(),
            w.level() == 1,
            w.cap() == 1,
            w.items().len() > 0,
            w.ops() == before + concat_join(parts.take(i as int), sep),
        decreases fields.len() - i,
    {
        let slot = &fields[i];
        proof {
            lemma_concat_join_take(parts, sep, i as int);
            assert(slots[i as int] == fields@[i as int]@);
        }
        if i > 0 {
            w.text(",");
            w.space();
        }
        w.text("new");
        w.space();
        w.text("TypeReference<");
        w.text(slot.name().as_str());
        w.text(">(){}");
        assert(w.ops() =~= before + concat_join(parts.take(i + 1), sep));
        i += 1;
    }
    assert(parts.take(i as int) =~= parts);

    let ghost before = w.ops();
    w.text("));");
    w.unindent();
    w.text("}");
    assert(w.ops() =~= before + tuple_case_tail_ops());
    w.finish()
}

/// Performs [`deserializer_head_ops`].
fn write_deserializer_head(w: &mut Writer, de: &DataEnum)
    requires
        old(w).inv(),
        old(w).level() == 0,
        old(w).cap() >= 2,
        old(w).ops() == Seq::<Op>::empty(),
    ensures
        final(w).inv(),
        final(w).level() == 1,
        final(w).cap() == old(w).cap(),
        final(w).ops() == deserializer_head_ops(de@),
        final(w).items().len() > 0,
        settled(final(w).items()),
{
    let class_name = de.self_type().name().clone();
    w.text("public");
    w.space();
    w.text("static");
    w.space();
    w.text("class");
    w.space();
    w.text("Deserializer");
    w.space();
    w.text("extends");
    w.space();
    w.text("StdDeserializer<");
    w.text(class_name.as_str());
    w.text(">");
    w.space();
    w.text("{");
    w.indent();
    w.text("public");
    w.space();
    w.text("Deserializer()");
    w.space();
    w.text("{");
    w.indent();
    w.text("super(");
    w.text(class_name.as_str());
    w.text(".class);");
    w.unindent();
    w.text("}");
    proof {
        reveal(deserializer_head_ops);
    }
    assert(w.ops() == deserializer_head_ops(de@));
}

/// Performs [`parse_field_signature_ops`].
fn write_parse_field_signature(w: &mut Writer)
    requires
        old(w).inv(),
        old(w).level() == 1,
        old(w).cap() >= 1,
        old(w).items().len() > 0,
    ensures
        final(w).inv(),
        final(w).level() == 1,
        final(w).cap() == old(w).cap(),
        final(w).ops() == old(w).ops() + parse_field_signature_ops(),
        final(w).items().len() > 0,
        settled(final(w).items()),
{
    w.line();
    w.text("private");
    w.space();
    w.text("Object[]");
    w.space();
    w.text("parseField(DeserializationContext");
    w.space();
    w.text("cxtx,");
    w.space();
    w.text("ObjectNode");
    w.space();
    w.text("node,");
    w.space();
    w.text("String");
    w.space();
    w.text("key,");
    w.space();
    w.text("TypeReference<?>...types)");
    w.space();
    w.text("throws");
    w.space();
    w.text("IOException");
    w.space();
    w.text("{");
    proof {
        reveal(parse_field_signature_ops);
    }
    assert(w.ops() =~= old(w).ops() + parse_field_signature_ops());
}

/// Performs [`parse_field_single_ops`].
fn write_parse_field_single(w: &mut Writer)
    requires
        old(w).inv(),
        old(w).level() == 1,
        old(w).cap() >= 2,
        old(w).items().len() > 0,
        settled(old(w).items()),
    ensures
        final(w).inv(),
        final(w).level() == 2,
        final(w).cap() == old(w).cap(),
        final(w).ops() == old(w).ops() + parse_field_single_ops(),
        final(w).items().len() > 0,
        settled(final(w).items()),
{
    w.indent();
    w.text("JsonNode");
    w.space();
    w.text("field");
    w.space();
    w.text("=");
    w.space();
    w.text("node.get(key);");
    w.push();
    w.text("if");
    w.space();
    w.text("(types.length");
    w.space();
    w.text("==");
    w.space();
    w.text("1)");
    w.space();
    w.text("{");
    proof {
        reveal(parse_field_single_ops);
    }
    assert(w.ops() =~= old(w).ops() + parse_field_single_ops());
}

/// Performs [`parse_field_value_ops`].
fn write_parse_field_value(w: &mut Writer)
    requires
        old(w).inv(),
        old(w).level() == 2,
        old(w).cap() >= 4,
        old(w).items().len() > 0,
        settled(old(w).items()),
    ensures
        final(w).inv(),
        final(w).level() == 2,
        final(w).cap() == old(w).cap(),
        final(w).ops() == old(w).ops() + parse_field_value_ops(),
        final(w).items().len() > 0,
        settled(final(w).items()),
{
    w.indent();
    w.text("try");
    w.space();
    w.text("(JsonParser");
    w.space();
    w.text("parser");
    w.space();
    w.text("=");
    w.space();
    w.text("field.traverse(cxtx.getParser().getCodec()))");
    w.space();
    w.text("{");
    w.indent();
    w.text("return");
    w.space();
    w.text("new");
    w.space();
    w.text("Object[]{parser.readValueAs(types[0])};");
    w.unindent();
    w.text("}");
    w.unindent();
    w.text("}");
    proof {
        reveal(parse_field_value_ops);
    }
    assert(w.ops() =~= old(w).ops() + parse_field_value_ops());
}

/// Performs [`parse_field_array_ops`].
fn write_parse_field_array(w: &mut Writer)
    requires
        old(w).inv(),
        old(w).level() == 2,
        old(w).cap() >= 2,
        old(w).items().len() > 0,
    ensures
        final(w).inv(),
        final(w).level() == 2,
        final(w).cap() == old(w).cap(),
        final(w).ops() == old(w).ops() + parse_field_array_ops(),
        final(w).items().len() > 0,
        settled(final(w).items()),
{
    w.push();
    w.text("if");
    w.space();
    w.text("(!field.isArray()");
    w.space();
    w.text("||");
    w.space();
    w.text("field.size()");
    w.space();
    w.text("!=");
    w.space();
    w.text("types.length)");
    w.space();
    w.text("{");
    proof {
        reveal(parse_field_array_ops);
    }
    assert(w.ops() =~= old(w).ops() + parse_field_array_ops());
}

/// Performs [`parse_field_length_ops`].
fn write_parse_field_length(w: &mut Writer, de: &DataEnum)
    requires
        old(w).inv(),
        old(w).level() == 2,
        old(w).cap() >= 3,
        old(w).items().len() > 0,
        settled(old(w).items()),
    ensures
        final(w).inv(),
        final(w).level() == 2,
        final(w).cap() == old(w).cap(),
        final(w).ops() == old(w).ops() + parse_field_length_ops(de@),
        final(w).items().len() > 0,
        settled(final(w).items()),
{
    let class_name = de.self_type().name().clone();
    w.indent();
    w.text("throw");
    w.space();
    w.text("cxtx.instantiationException(");
    w.text(class_name.as_str());
    w.text(".class,");
    w.space();
    w.quoted("Cannot deserialize ");
    w.space();
    w.text("+");
    w.space();
    w.quoted(class_name.as_str());
    w.text(");");
    w.unindent();
    w.text("}");
    proof {
        reveal(parse_field_length_ops);
    }
    assert(w.ops() =~= old(w).ops() + parse_field_length_ops(de@));
}

/// Performs [`parse_field_elements_ops`].
fn write_parse_field_elements(w: &mut Writer)
    requires
        old(w).inv(),
        old(w).level() == 2,
        old(w).cap() >= 2,
        old(w).items().len() > 0,
    ensures
        final(w).inv(),
        final(w).level() == 2,
        final(w).cap() == old(w).cap(),
        final(w).ops() == old(w).ops() + parse_field_elements_ops(),
        final(w).items().len() > 0,
        settled(final(w).items()),
{
    w.push();
    w.text("Object[]");
    w.space();
    w.text("result");
    w.space();
    w.text("=");
    w.space();
    w.text("new");
    w.space();
    w.text("Object[types.length];");
    w.push();
    w.text("for");
    w.space();
    w.text("(int");
    w.space();
    w.text("i");
    w.space();
    w.text("=");
    w.space();
    w.text("0;");
    w.space();
    w.text("i");
    w.space();
    w.text("<");
    w.space();
    w.text("types.length;");
    w.space();
    w.text("i++)");
    w.space();
    w.text("{");
    proof {
        reveal(parse_field_elements_ops);
    }
    assert(w.ops() =~= old(w).ops() + parse_field_elements_ops());
}

/// Performs [`parse_field_element_ops`].
fn write_parse_field_element(w: &mut Writer)
    requires
        old(w).inv(),
        old(w).level() == 2,
        old(w).cap() >= 4,
        old(w).items().len() > 0,
        settled(old(w).items()),
    ensures
        final(w).inv(),
        final(w).level() == 1,
        final(w).cap() == old(w).cap(),
        final(w).ops() == old(w).ops() + parse_field_element_ops(),
        final(w).items().len() > 0,
        settled(final(w).items()),
{
    w.indent();
    w.text("try");
    w.space();
    w.text("(JsonParser");
    w.space();
    w.text("parser");
    w.space();
    w.text("=");
    w.space();
    w.text("field.get(i).traverse(cxtx.getParser().getCodec()))");
    w.space();
    w.text("{");
    w.indent();
    w.text("result[i]");
    w.space();
    w.text("=");
    w.space();
    w.text("parser.readValueAs(types[i]);");
    w.unindent();
    w.text("}");
    w.unindent();
    w.text("}");
    w.push();
    w.text("return");
    w.space();
    w.text("result;");
    w.unindent();
    w.text("}");
    proof {
        reveal(parse_field_element_ops);
    }
    assert(w.ops() =~= old(w).ops() + parse_field_element_ops());
}

/// Performs [`deserialize_signature_ops`].
fn write_deserialize_signature(w: &mut Writer, de: &DataEnum)
    requires
        old(w).inv(),
        old(w).level() == 1,
        old(w).cap() >= 1,
        old(w).items().len() > 0,
    ensures
        final(w).inv(),
        final(w).level() == 1,
        final(w).cap() == old(w).cap(),
        final(w).ops() == old(w).ops() + deserialize_signature_ops(de@),
        final(w).items().len() > 0,
        settled(final(w).items()),
{
    let class_name = de.self_type().name().clone();
    w.line();
    w.text("@Override");
    w.push();
    w.text("public");
    w.space();
    w.text(class_name.as_str());
    w.space();
    w.text("deserialize(JsonParser");
    w.space();
    w.text("p,");
    w.space();
    w.text("DeserializationContext");
    w.space();
    w.text("ctxt)");
    w.space();
    w.text("throws");
    w.space();
    w.text("IOException,");
    w.space();
    w.text("JacksonException");
    w.space();
    w.text("{");
    proof {
        reveal(deserialize_signature_ops);
    }
    assert(w.ops() =~= old(w).ops() + deserialize_signature_ops(de@));
}

/// Performs [`deserialize_string_ops`].
fn write_deserialize_string(w: &mut Writer)
    requires
        old(w).inv(),
        old(w).level() == 1,
        old(w).cap() >= 2,
        old(w).items().len() > 0,
        settled(old(w).items()),
    ensures
        final(w).inv(),
        final(w).level() == 2,
        final(w).cap() == old(w).cap(),
        final(w).ops() == old(w).ops() + deserialize_string_ops(),
        final(w).items().len() > 0,
        settled(final(w).items()),
{
    w.indent();
    w.line();
    w.text("if");
    w.space();
    w.text("(p.currentToken()");
    w.space();
    w.text("==");
    w.space();
    w.text("JsonToken.VALUE_STRING)");
    w.space();
    w.text("{");
    proof {
        reveal(deserialize_string_ops);
    }
    assert(w.ops() =~= old(w).ops() + deserialize_string_ops());
}

/// Performs [`deserialize_object_ops`].
fn write_deserialize_object(w: &mut Writer, de: &DataEnum, unit_cases_code: &JavaTokens)
    requires
        old(w).inv(),
        old(w).level() == 2,
        old(w).cap() >= 4,
        old(w).items().len() > 0,
        settled(old(w).items()),
        shallow(unit_cases_code.items(), 1),
        unit_cases_code.items() == run(concat(unit_case_parts(de@.self_type, de@.variants))),
    ensures
        final(w).inv(),
        final(w).level() == 2,
        final(w).cap() == old(w).cap(),
        final(w).ops() == old(w).ops() + deserialize_object_ops(de@),
        final(w).items().len() > 0,
        settled(final(w).items()),
{
    w.indent();
    w.append(unit_cases_code, Ghost(1));
    w.unindent();
    w.text("}");
    w.space();
    w.text("else");
    w.space();
    w.text("if");
    w.space();
    w.text("(p.currentToken()");
    w.space();
    w.text("==");
    w.space();
    w.text("JsonToken.START_OBJECT)");
    w.space();
    w.text("{");
    proof {
        reveal(deserialize_object_ops);
    }
    assert(w.ops() =~= old(w).ops() + deserialize_object_ops(de@));
}

/// Performs [`deserialize_node_ops`].
fn write_deserialize_node(w: &mut Writer)
    requires
        old(w).inv(),
        old(w).level() == 2,
        old(w).cap() >= 3,
        old(w).items().len() > 0,
        settled(old(w).items()),
    ensures
        final(w).inv(),
        final(w).level() == 3,
        final(w).cap() == old(w).cap(),
        final(w).ops() == old(w).ops() + deserialize_node_ops(),
        final(w).items().len() > 0,
        settled(final(w).items()),
{
    w.indent();
    w.text("var");
    w.space();
    w.text("node");
    w.space();
    w.text("=");
    w.space();
    w.text("(ObjectNode)");
    w.space();
    w.text("p.getCodec().readTree(p);");
    proof {
        reveal(deserialize_node_ops);
    }
    assert(w.ops() =~= old(w).ops() + deserialize_node_ops());
}

/// Performs [`deserialize_tail_ops`].
fn write_deserialize_tail(w: &mut Writer, de: &DataEnum, object_cases_code: &JavaTokens)
    requires
        old(w).inv(),
        old(w).level() == 3,
        old(w).cap() >= 4,
        old(w).items().len() > 0,
        settled(old(w).items()),
        shallow(object_cases_code.items(), 1),
        object_cases_code.items() == run(concat(object_case_parts(de@.self_type, de@.variants))),
    ensures
        final(w).inv(),
        final(w).level() == 0,
        final(w).cap() == old(w).cap(),
        final(w).ops() == old(w).ops() + deserialize_tail_ops(de@),
        final(w).items().len() > 0,
        settled(final(w).items()),
{
    let class_name = de.self_type().name().clone();
    w.push();
    w.append(object_cases_code, Ghost(1));
    w.unindent();
    w.text("}");
    w.push();
    w.text("throw");
    w.space();
    w.text("ctxt.instantiationException(");
    w.text(class_name.as_str());
    w.text(".class,");
    w.space();
    w.quoted("Cannot deserialize ");
    w.space();
    w.text("+");
    w.space();
    w.quoted(class_name.as_str());
    w.text(");");
    w.unindent();
    w.text("}");
    w.unindent();
    w.text("}");
    proof {
        reveal(deserialize_tail_ops);
    }
    assert(w.ops() =~= old(w).ops() + deserialize_tail_ops(de@));
}

/// Writes the reader of a payload.
fn write_parse_field(w: &mut Writer, de: &DataEnum)
    requires
        old(w).inv(),
        old(w).level() == 1,
        old(w).cap() >= 4,
        old(w).items().len() > 0,
        settled(old(w).items()),
    ensures
        final(w).inv(),
        final(w).level() == 1,
        final(w).cap() == old(w).cap(),
        final(w).ops() == old(w).ops() + parse_field_ops(de@),
        final(w).items().len() > 0,
        settled(final(w).items()),
{
    write_parse_field_signature(w);
    write_parse_field_single(w);
    write_parse_field_value(w);
    write_parse_field_array(w);
    write_parse_field_length(w, de);
    write_parse_field_elements(w);
    write_parse_field_element(w);
    assert(w.ops() =~= old(w).ops() + parse_field_ops(de@));
}

/// Writes the method that reads a value of `de`.
fn write_deserialize_method(
    w: &mut Writer,
    de: &DataEnum,
    unit_cases_code: &JavaTokens,
    object_cases_code: &JavaTokens,
)
    requires
        old(w).inv(),
        old(w).level() == 1,
        old(w).cap() >= 4,
        old(w).items().len() > 0,
        settled(old(w).items()),
        shallow(unit_cases_code.items(), 1),
        shallow(object_cases_code.items(), 1),
        unit_cases_code.items() == run(
            concat(unit_case_parts(de@.self_type, de@.variants)),
        ),
        object_cases_code.items() == run(
            concat(object_case_parts(de@.self_type, de@.variants)),
        ),
    ensures
        final(w).inv(),
        final(w).level() == 0,
        final(w).cap() == old(w).cap(),
        final(w).ops() == old(w).ops() + deserialize_method_ops(de@),
        final(w).items().len() > 0,
        settled(final(w).items()),
{
    write_deserialize_signature(w, de);
    write_deserialize_string(w);
    write_deserialize_object(w, de, unit_cases_code);
    write_deserialize_node(w);
    write_deserialize_tail(w, de, object_cases_code);
    assert(w.ops() =~= old(w).ops() + deserialize_method_ops(de@));
}

/// The deserializer of `de`.
pub fn generate_external_deserializer(de: &DataEnum) -> (tokens: JavaTokens)
    ensures
        tokens.items() == run(deserializer_ops(de@)),
        tokens.items().len() > 0,
        shallow(tokens.items(), 4),
{
    let ghost class = de@.self_type;
    let variants = de.variants();
    let ghost unit_parts = unit_case_parts(class, de@.variants);
    let ghost object_parts = object_case_parts(class, de@.variants);
    let mut unit_cases: Vec<JavaTokens> = Vec::new();
    let mut object_cases: Vec<JavaTokens> = Vec::new();
    assert(unit_parts.take(0) =~= Seq::<Seq<Op>>::empty());
    assert(object_parts.take(0) =~= Seq::<Seq<Op>>::empty());
    assert(append_parts(unit_cases@) =~= Seq::<Seq<Op>>::empty());
    assert(append_parts(object_cases@) =~= Seq::<Seq<Op>>::empty());
    let mut i: usize = 0;
    while i < variants.len()
        invariant
            i <= variants.len(),
            data_variant_views(variants@) == de@.variants,
            class == de@.self_type,
            unit_parts == unit_case_parts(class, de@.variants),
            object_parts == object_case_parts(class, de@.variants),
            all_shallow(unit_cases@, 1),
            all_shallow(object_cases@, 1),
            concat(append_parts(unit_cases@)) == concat(unit_parts.take(i as int)),
            concat(append_parts(object_cases@)) == concat(object_parts.take(i as int)),
        decreases variants.len() - i,
    {
        let variant = &variants[i];
        let ghost unit_before = unit_cases@;
        let ghost object_before = object_cases@;
        proof {
            assert(variants@[i as int]@ == de@.variants[i as int]);
            assert(unit_parts.take(i + 1).drop_last() =~= unit_parts.take(i as int));
            assert(object_parts.take(i + 1).drop_last() =~= object_parts.take(i as int));
        }
        match variant {
            DataEnumVariant::Unit { .. } => {
                let case = deserialize_unit_variant(de, variant);
                unit_cases.push(case);
                assert(append_parts(unit_cases@).drop_last() =~= append_parts(unit_before));
                assert(concat(object_parts.take(i + 1)) =~= concat(object_parts.take(i as int)));
            },
            DataEnumVariant::Object { .. } => {
                let case = deserialize_object_variant(de, variant);
                object_cases.push(case);
                assert(append_parts(object_cases@).drop_last() =~= append_parts(object_before));
                assert(concat(unit_parts.take(i + 1)) =~= concat(unit_parts.take(i as int)));
            },
            DataEnumVariant::Tuple { fields, .. } => {
                let case = deserialize_tuple_variant(de, variant, fields);
                object_cases.push(case);
                assert(append_parts(object_cases@).drop_last() =~= append_parts(object_before));
                assert(concat(unit_parts.take(i + 1)) =~= concat(unit_parts.take(i as int)));
            },
        }
        i += 1;
    }
    assert(unit_parts.take(i as int) =~= unit_parts);
    assert(object_parts.take(i as int) =~= object_parts);
    let unit_cases_code = compact_within(&unit_cases, Ghost(1));
    let object_cases_code = compact_within(&object_cases, Ghost(1));
    let mut w = Writer::new(Ghost(4));
    write_deserializer_head(&mut w, de);
    write_parse_field(&mut w, de);
    write_deserialize_method(&mut w, de, &unit_cases_code, &object_cases_code);
    w.finish()
}

} // verus!
