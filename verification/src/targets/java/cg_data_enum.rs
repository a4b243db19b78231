//! The class of a tagged union: a discriminant, an erased payload, and per
//! variant a factory, a predicate and checked accessors.

use crate::errors::Error;
use crate::ir::data::{
    data_variant_views, object_field_views, type_views, DataEnum, DataEnumObjectField,
    DataEnumStyle, DataEnumVariant, DataEnumVariantView, DataEnumView, FieldView, Type,
};
use crate::ir::name::{snake_to_camel, snake_to_pascal, Name};
use crate::targets::java::cg_data_enum::external::{
    deserializer_ops, generate_external_deserializer, generate_external_serializer,
    serializer_ops,
};
use crate::targets::java::cg_utils::{
    all_shallow, append_parts, compact_within, concat, concat_join, decimal, decimal_text,
    lemma_concat_join_take, lemma_concat_take,
};
use crate::targets::java::tokens::{
    indentation_fits, java_text, lemma_levels_widen, settled, shallow, JavaTokens,
};
use crate::targets::java::writer::{run, Op, Writer};
use crate::targets::java::{class_of, class_result_view, JavaClass};
use crate::text::{prefixed, upper_all};
use vstd::prelude::*;
use vstd::string::StringExecFns;

pub mod external;

verus! {

/// The separator of a list: a comma.
pub open spec fn comma() -> Seq<Op> {
    seq![Op::Text(","@)]
}

/// The factory of a variant without payload.
#[verifier::opaque]
pub open spec fn unit_code_ops(class: Seq<char>, name: Seq<char>) -> Seq<Op> {
    seq![
        Op::Text("public"@),
        Op::Space,
        Op::Text("static"@),
        Op::Space,
        Op::Text(class),
        Op::Space,
        Op::Text("of"@ + snake_to_pascal(name)),
        Op::Text("()"@),
        Op::Space,
        Op::Text("{"@),
        Op::Indent,
        Op::Text("return"@),
        Op::Space,
        Op::Text("new"@),
        Op::Space,
        Op::Text(class),
        Op::Text("(Variant."@),
        Op::Text(upper_all(name)),
        Op::Text(","@),
        Op::Space,
        Op::Text("null);"@),
        Op::Unindent,
        Op::Text("}"@),
    ]
}

/// The factory of a variant with named fields: it takes the nested value.
#[verifier::opaque]
pub open spec fn object_factory_ops(class: Seq<char>, name: Seq<char>) -> Seq<Op> {
    seq![
        Op::Text("public"@),
        Op::Space,
        Op::Text("static"@),
        Op::Space,
        Op::Text(class),
        Op::Space,
        Op::Text("of"@ + snake_to_pascal(name)),
        Op::Text("("@),
        Op::Text(snake_to_pascal(name)),
        Op::Space,
        Op::Text("value)"@),
        Op::Space,
        Op::Text("{"@),
        Op::Indent,
        Op::Text("return"@),
        Op::Space,
        Op::Text("new"@),
        Op::Space,
        Op::Text(class),
        Op::Text("(Variant."@),
        Op::Text(upper_all(name)),
        Op::Text(","@),
        Op::Space,
        Op::Text("value);"@),
        Op::Unindent,
        Op::Text("}"@),
    ]
}

/// The accessor of a variant with named fields, up to its check of the
/// discriminant.
#[verifier::opaque]
pub open spec fn object_accessor_head_ops(name: Seq<char>) -> Seq<Op> {
    seq![
        Op::Line,
        Op::Text("public"@),
        Op::Space,
        Op::Text(snake_to_pascal(name)),
        Op::Space,
        Op::Text("get"@ + snake_to_pascal(name)),
        Op::Text("()"@),
        Op::Space,
        Op::Text("{"@),
        Op::Indent,
        Op::Text("if"@),
        Op::Space,
        Op::Text("(variant"@),
        Op::Space,
        Op::Text("!="@),
        Op::Space,
        Op::Text("Variant."@),
        Op::Text(upper_all(name)),
        Op::Text(")"@),
        Op::Space,
        Op::Text("{"@),
    ]
}

/// The failure of the accessor on another variant, and the checked downcast.
#[verifier::opaque]
pub open spec fn object_accessor_tail_ops(name: Seq<char>) -> Seq<Op> {
    seq![
        Op::Indent,
        Op::Text("throw"@),
        Op::Space,
        Op::Text("new"@),
        Op::Space,
        Op::Text("IllegalStateException("@),
        Op::Quoted("Invalid variant: "@),
        Op::Space,
        Op::Text("+"@),
        Op::Space,
        Op::Text("variant);"@),
        Op::Unindent,
        Op::Text("}"@),
        Op::Push,
        Op::Text("return"@),
        Op::Space,
        Op::Text("("@),
        Op::Text(snake_to_pascal(name)),
        Op::Text(")"@),
        Op::Space,
        Op::Text("value;"@),
        Op::Unindent,
        Op::Text("}"@),
    ]
}

/// The nested class that holds the fields, up to its opening brace.
#[verifier::opaque]
pub open spec fn holder_head_ops(name: Seq<char>) -> Seq<Op> {
    seq![
        Op::Line,
        Op::Text("public"@),
        Op::Space,
        Op::Text("static"@),
        Op::Space,
        Op::Text("class"@),
        Op::Space,
        Op::Text(snake_to_pascal(name)),
        Op::Space,
        Op::Text("{"@),
        Op::Indent,
    ]
}

/// The nested class's constructor, up to its arguments.
pub open spec fn holder_constructor_head_ops(name: Seq<char>) -> Seq<Op> {
    seq![
        Op::Line,
        Op::Text("public"@),
        Op::Space,
        Op::Text(snake_to_pascal(name)),
        Op::Text("("@),
    ]
}

/// From the constructor's arguments to its body.
pub open spec fn holder_constructor_body_ops() -> Seq<Op> {
    seq![
        Op::Text(")"@),
        Op::Space,
        Op::Text("{"@),
        Op::Indent,
    ]
}

/// The end of the constructor.
pub open spec fn holder_constructor_tail_ops() -> Seq<Op> {
    seq![
        Op::Unindent,
        Op::Text("}"@),
        Op::Line,
    ]
}

/// The end of the nested class.
pub open spec fn holder_tail_ops() -> Seq<Op> {
    seq![
        Op::Unindent,
        Op::Text("}"@),
    ]
}

/// The declaration of one field of the nested class.
pub open spec fn holder_field_ops(f: FieldView) -> Seq<Op> {
    seq![
        Op::Text("private"@),
        Op::Space,
        Op::Text("final"@),
        Op::Space,
        Op::Text(f.field_type + " "@ + snake_to_camel(f.name)),
        Op::Text(";"@),
    ]
}

/// One argument of the nested class's constructor, tagged with the field's
/// key on the wire.
pub open spec fn holder_arg_ops(f: FieldView) -> Seq<Op> {
    seq![
        Op::Text("@JsonProperty("@),
        Op::Quoted(f.json_name),
        Op::Text(")"@),
        Op::Space,
        Op::Text(f.field_type),
        Op::Space,
        Op::Text(snake_to_camel(f.name)),
    ]
}

/// The assignment of one field in the constructor.
pub open spec fn holder_assign_ops(f: FieldView) -> Seq<Op> {
    seq![
        Op::Text("this."@),
        Op::Text(snake_to_camel(f.name)),
        Op::Space,
        Op::Text("="@),
        Op::Space,
        Op::Text(snake_to_camel(f.name)),
        Op::Text(";"@),
    ]
}

/// The getter of one field of the nested class.
#[verifier::opaque]
pub open spec fn holder_getter_ops(f: FieldView) -> Seq<Op> {
    seq![
        Op::Text("@JsonProperty("@),
        Op::Quoted(f.json_name),
        Op::Text(")"@),
        Op::Push,
        Op::Text("public"@),
        Op::Space,
        Op::Text(f.field_type),
        Op::Space,
        Op::Text("get"@ + snake_to_pascal(f.name)),
        Op::Text("()"@),
        Op::Space,
        Op::Text("{"@),
        Op::Indent,
        Op::Text("return"@),
        Op::Space,
        Op::Text(snake_to_camel(f.name)),
        Op::Text(";"@),
        Op::Unindent,
        Op::Text("}"@),
    ]
}

/// Per field, its declaration.
pub open spec fn holder_field_parts(fields: Seq<FieldView>) -> Seq<Seq<Op>> {
    Seq::new(fields.len(), |i: int| holder_field_ops(fields[i]))
}

/// Per field, one operation: add its constructor argument.
pub open spec fn holder_arg_parts(fields: Seq<FieldView>) -> Seq<Seq<Op>> {
    Seq::new(fields.len(), |i: int| seq![Op::Append(run(holder_arg_ops(fields[i])))])
}

/// Per field, its assignment.
pub open spec fn holder_assign_parts(fields: Seq<FieldView>) -> Seq<Seq<Op>> {
    Seq::new(fields.len(), |i: int| holder_assign_ops(fields[i]))
}

/// Per field, one operation: add its getter.
pub open spec fn holder_getter_parts(fields: Seq<FieldView>) -> Seq<Seq<Op>> {
    Seq::new(fields.len(), |i: int| seq![Op::Append(run(holder_getter_ops(fields[i])))])
}

/// Everything a variant with named fields adds to the class, but for its
/// predicate.
pub open spec fn object_code_ops(class: Seq<char>, name: Seq<char>, fields: Seq<FieldView>) -> Seq<
    Op,
> {
    object_factory_ops(class, name) + object_accessor_head_ops(name) + object_accessor_tail_ops(
        name,
    ) + holder_head_ops(name) + concat(holder_field_parts(fields)) + holder_constructor_head_ops(
        name,
    ) + concat_join(holder_arg_parts(fields), comma()) + holder_constructor_body_ops() + concat(
        holder_assign_parts(fields),
    ) + holder_constructor_tail_ops() + concat(holder_getter_parts(fields)) + holder_tail_ops()
}

/// The name of the accessor of slot `index`: the bare name where the variant
/// has one slot, else the name with the slot's index behind it.
pub open spec fn slot_getter_name(name: Seq<char>, arity: nat, index: nat) -> Seq<char> {
    if arity != 1 {
        "get"@ + snake_to_pascal(name) + decimal_text(index)
    } else {
        "get"@ + snake_to_pascal(name)
    }
}

/// One argument of a positional variant's factory.
pub open spec fn slot_arg_ops(slot: Seq<char>, index: nat) -> Seq<Op> {
    seq![
        Op::Text(slot),
        Op::Space,
        Op::Text("arg"@ + decimal_text(index)),
    ]
}

/// One element of the payload array that the factory builds.
pub open spec fn slot_object_ops(index: nat) -> Seq<Op> {
    seq![
        Op::Text("arg"@ + decimal_text(index)),
    ]
}

/// The head of the accessor of one slot.
#[verifier::opaque]
pub open spec fn slot_getter_head_ops(
    name: Seq<char>,
    slot: Seq<char>,
    arity: nat,
    index: nat,
) -> Seq<Op> {
    seq![
        Op::Text("@SuppressWarnings("@),
        Op::Quoted("unchecked"@),
        Op::Text(")"@),
        Op::Push,
        Op::Text("public"@),
        Op::Space,
        Op::Text(slot),
        Op::Space,
        Op::Text(slot_getter_name(name, arity, index)),
        Op::Text("()"@),
        Op::Space,
        Op::Text("{"@),
    ]
}

/// The check of the discriminant: the accessor fails on another variant.
#[verifier::opaque]
pub open spec fn slot_getter_check_ops(name: Seq<char>) -> Seq<Op> {
    seq![
        Op::Indent,
        Op::Text("if"@),
        Op::Space,
        Op::Text("(variant"@),
        Op::Space,
        Op::Text("!="@),
        Op::Space,
        Op::Text("Variant."@),
        Op::Text(upper_all(name)),
        Op::Text(")"@),
        Op::Space,
        Op::Text("{"@),
        Op::Indent,
        Op::Text("throw"@),
        Op::Space,
        Op::Text("new"@),
        Op::Space,
        Op::Text("IllegalStateException("@),
        Op::Quoted("Invalid variant: "@),
        Op::Space,
        Op::Text("+"@),
        Op::Space,
        Op::Text("variant);"@),
        Op::Unindent,
        Op::Text("}"@),
    ]
}

/// The slot's value, taken from the payload array and cast to the slot's
/// type.
#[verifier::opaque]
pub open spec fn slot_getter_return_ops(slot: Seq<char>, index: nat) -> Seq<Op> {
    seq![
        Op::Push,
        Op::Text("return"@),
        Op::Space,
        Op::Text("("@),
        Op::Text(slot),
        Op::Text(")"@),
        Op::Space,
        Op::Text("((Object[])"@),
        Op::Space,
        Op::Text("value)["@),
        Op::Text(decimal_text(index)),
        Op::Text("];"@),
        Op::Unindent,
        Op::Text("}"@),
    ]
}

/// The checked accessor of one slot.
pub open spec fn slot_getter_ops(name: Seq<char>, slot: Seq<char>, arity: nat, index: nat) -> Seq<
    Op,
> {
    slot_getter_head_ops(name, slot, arity, index) + slot_getter_check_ops(name)
        + slot_getter_return_ops(slot, index)
}

/// Per slot, one operation: add its factory argument.
pub open spec fn slot_arg_parts(slots: Seq<Seq<char>>) -> Seq<Seq<Op>> {
    Seq::new(slots.len(), |i: int| seq![Op::Append(run(slot_arg_ops(slots[i], i as nat)))])
}

/// Per slot, one operation: add its array element.
pub open spec fn slot_object_parts(slots: Seq<Seq<char>>) -> Seq<Seq<Op>> {
    Seq::new(slots.len(), |i: int| seq![Op::Append(run(slot_object_ops(i as nat)))])
}

/// Per slot, one operation: add its accessor.
pub open spec fn slot_getter_parts(name: Seq<char>, slots: Seq<Seq<char>>) -> Seq<Seq<Op>> {
    Seq::new(
        slots.len(),
        |i: int| seq![Op::Append(run(slot_getter_ops(name, slots[i], slots.len(), i as nat)))],
    )
}

/// The factory of a positional variant, up to its arguments.
pub open spec fn tuple_head_ops(class: Seq<char>, name: Seq<char>) -> Seq<Op> {
    seq![
        Op::Text("public"@),
        Op::Space,
        Op::Text("static"@),
        Op::Space,
        Op::Text(class),
        Op::Space,
        Op::Text("of"@ + snake_to_pascal(name)),
        Op::Text("("@),
    ]
}

/// From the factory's arguments to the elements of the payload array.
#[verifier::opaque]
pub open spec fn tuple_body_ops(class: Seq<char>, name: Seq<char>) -> Seq<Op> {
    seq![
        Op::Text(")"@),
        Op::Space,
        Op::Text("{"@),
        Op::Indent,
        Op::Text("return"@),
        Op::Space,
        Op::Text("new"@),
        Op::Space,
        Op::Text(class),
        Op::Text("(Variant."@),
        Op::Text(upper_all(name)),
        Op::Text(","@),
        Op::Space,
        Op::Text("new"@),
        Op::Space,
        Op::Text("Object[]"@),
        Op::Space,
        Op::Text("{"@),
        Op::Indent,
    ]
}

/// The end of the factory, and the accessors.
pub open spec fn tuple_tail_ops(name: Seq<char>, slots: Seq<Seq<char>>) -> Seq<Op> {
    seq![
        Op::Unindent,
        Op::Text("});"@),
        Op::Unindent,
        Op::Text("}"@),
        Op::Line,
        Op::Append(run(concat(slot_getter_parts(name, slots)))),
    ]
}

/// Everything a positional variant adds to the class, but for its predicate.
pub open spec fn tuple_code_ops(class: Seq<char>, name: Seq<char>, slots: Seq<Seq<char>>) -> Seq<
    Op,
> {
    tuple_head_ops(class, name) + concat_join(slot_arg_parts(slots), comma()) + tuple_body_ops(
        class,
        name,
    ) + concat_join(slot_object_parts(slots), comma()) + tuple_tail_ops(name, slots)
}

/// What a variant adds to the class, by its shape, but for its predicate.
pub open spec fn variant_code_ops(class: Seq<char>, v: DataEnumVariantView) -> Seq<Op> {
    match v {
        DataEnumVariantView::Unit { name, .. } => unit_code_ops(class, name),
        DataEnumVariantView::Object { name, fields, .. } => object_code_ops(class, name, fields),
        DataEnumVariantView::Tuple { name, fields, .. } => tuple_code_ops(class, name, fields),
    }
}

/// Everything a variant adds to the class: factory, accessors, predicate.
#[verifier::opaque]
pub open spec fn field_code_ops(class: Seq<char>, v: DataEnumVariantView) -> Seq<Op> {
    seq![
        Op::Append(run(variant_code_ops(class, v))),
        Op::Line,
        Op::Text("public"@),
        Op::Space,
        Op::Text("boolean"@),
        Op::Space,
        Op::Text("is"@ + snake_to_pascal(v.name())),
        Op::Text("()"@),
        Op::Space,
        Op::Text("{"@),
        Op::Indent,
        Op::Text("return"@),
        Op::Space,
        Op::Text("variant"@),
        Op::Space,
        Op::Text("=="@),
        Op::Space,
        Op::Text("Variant."@),
        Op::Text(upper_all(v.name())),
        Op::Text(";"@),
        Op::Unindent,
        Op::Text("}"@),
    ]
}

/// Per variant, one operation: add what it adds to the class.
pub open spec fn field_code_parts(de: DataEnumView) -> Seq<Seq<Op>> {
    Seq::new(
        de.variants.len(),
        |i: int| seq![Op::Append(run(field_code_ops(de.self_type, de.variants[i])))],
    )
}

/// The members of the class that the variants add, in declaration order.
pub open spec fn fields_code_ops(de: DataEnumView) -> Seq<Op> {
    concat(field_code_parts(de))
}

/// Per variant, one operation: add its constant.
pub open spec fn variant_constant_parts(de: DataEnumView) -> Seq<Seq<Op>> {
    Seq::new(
        de.variants.len(),
        |i: int| seq![Op::Append(run(seq![Op::Text(upper_all(de.variants[i].name()))]))],
    )
}

/// The discriminant's enumeration, up to its opening brace.
pub open spec fn variants_enum_head_ops() -> Seq<Op> {
    seq![
        Op::Text("public"@),
        Op::Space,
        Op::Text("enum"@),
        Op::Space,
        Op::Text("Variant"@),
        Op::Space,
        Op::Text("{"@),
        Op::Indent,
    ]
}

/// The closing brace of the discriminant's enumeration.
pub open spec fn variants_enum_tail_ops() -> Seq<Op> {
    seq![
        Op::Unindent,
        Op::Text("}"@),
    ]
}

/// The discriminant's enumeration: one constant per variant.
pub open spec fn variants_enum_ops(de: DataEnumView) -> Seq<Op> {
    variants_enum_head_ops() + concat_join(variant_constant_parts(de), comma())
        + variants_enum_tail_ops()
}

/// The first imports of the class.
#[verifier::opaque]
pub open spec fn class_first_imports_ops() -> Seq<Op> {
    seq![
        Op::Text("import"@),
        Op::Space,
        Op::Text("com.fasterxml.jackson.annotation.JsonIgnore;"@),
        Op::Push,
        Op::Text("import"@),
        Op::Space,
        Op::Text("com.fasterxml.jackson.annotation.JsonInclude;"@),
        Op::Push,
        Op::Text("import"@),
        Op::Space,
        Op::Text("com.fasterxml.jackson.annotation.JsonProperty;"@),
        Op::Push,
        Op::Text("import"@),
        Op::Space,
        Op::Text("com.fasterxml.jackson.core.*;"@),
        Op::Push,
        Op::Text("import"@),
        Op::Space,
        Op::Text("com.fasterxml.jackson.databind.DeserializationContext;"@),
        Op::Push,
        Op::Text("import"@),
        Op::Space,
        Op::Text("com.fasterxml.jackson.databind.JsonNode;"@),
        Op::Push,
        Op::Text("import"@),
        Op::Space,
        Op::Text("com.fasterxml.jackson.databind.SerializerProvider;"@),
    ]
}

/// The other imports of the class.
#[verifier::opaque]
pub open spec fn class_last_imports_ops() -> Seq<Op> {
    seq![
        Op::Push,
        Op::Text("import"@),
        Op::Space,
        Op::Text("com.fasterxml.jackson.databind.annotation.JsonDeserialize;"@),
        Op::Push,
        Op::Text("import"@),
        Op::Space,
        Op::Text("com.fasterxml.jackson.databind.annotation.JsonSerialize;"@),
        Op::Push,
        Op::Text("import"@),
        Op::Space,
        Op::Text("com.fasterxml.jackson.databind.deser.std.StdDeserializer;"@),
        Op::Push,
        Op::Text("import"@),
        Op::Space,
        Op::Text("com.fasterxml.jackson.databind.node.ObjectNode;"@),
        Op::Push,
        Op::Text("import"@),
        Op::Space,
        Op::Text("com.fasterxml.jackson.databind.ser.std.StdSerializer;"@),
        Op::Push,
        Op::Text("import"@),
        Op::Space,
        Op::Text("com.fasterxml.jackson.core.type.TypeReference;"@),
        Op::Line,
        Op::Text("import"@),
        Op::Space,
        Op::Text("java.io.IOException;"@),
    ]
}

/// The annotations that name the serializer and the deserializer, and the
/// head of the class.
#[verifier::opaque]
pub open spec fn class_head_ops(de: DataEnumView) -> Seq<Op> {
    seq![
        Op::Line,
        Op::Text("@JsonInclude(JsonInclude.Include.NON_NULL)"@),
        Op::Push,
        Op::Text("@JsonSerialize(using"@),
        Op::Space,
        Op::Text("="@),
        Op::Space,
        Op::Text(de.self_type),
        Op::Text(".Serializer.class)"@),
        Op::Push,
        Op::Text("@JsonDeserialize(using"@),
        Op::Space,
        Op::Text("="@),
        Op::Space,
        Op::Text(de.self_type),
        Op::Text(".Deserializer.class)"@),
        Op::Push,
        Op::Text("public"@),
        Op::Space,
        Op::Text("class"@),
        Op::Space,
        Op::Text(de.self_type),
        Op::Space,
        Op::Text("{"@),
    ]
}

/// The discriminant and the erased payload.
#[verifier::opaque]
pub open spec fn class_state_ops() -> Seq<Op> {
    seq![
        Op::Indent,
        Op::Text("@JsonIgnore"@),
        Op::Push,
        Op::Text("private"@),
        Op::Space,
        Op::Text("final"@),
        Op::Space,
        Op::Text("Variant"@),
        Op::Space,
        Op::Text("variant;"@),
        Op::Line,
        Op::Text("@JsonIgnore"@),
        Op::Push,
        Op::Text("private"@),
        Op::Space,
        Op::Text("final"@),
        Op::Space,
        Op::Text("Object"@),
        Op::Space,
        Op::Text("value;"@),
    ]
}

/// The private constructor from a discriminant and a payload.
#[verifier::opaque]
pub open spec fn class_constructor_ops(de: DataEnumView) -> Seq<Op> {
    seq![
        Op::Line,
        Op::Text("private"@),
        Op::Space,
        Op::Text(de.self_type),
        Op::Text("(Variant"@),
        Op::Space,
        Op::Text("variant,"@),
        Op::Space,
        Op::Text("Object"@),
        Op::Space,
        Op::Text("value)"@),
        Op::Space,
        Op::Text("{"@),
        Op::Indent,
        Op::Text("this.variant"@),
        Op::Space,
        Op::Text("="@),
        Op::Space,
        Op::Text("variant;"@),
        Op::Push,
        Op::Text("this.value"@),
        Op::Space,
        Op::Text("="@),
        Op::Space,
        Op::Text("value;"@),
        Op::Unindent,
        Op::Text("}"@),
    ]
}

/// The members that the variants add, the serializer, the deserializer, the
/// enumeration of the discriminant and its getter, and the end of the class.
#[verifier::opaque]
pub open spec fn class_body_ops(de: DataEnumView) -> Seq<Op> {
    seq![
        Op::Line,
        Op::Append(run(fields_code_ops(de))),
        Op::Line,
        Op::Append(run(serializer_ops(de))),
        Op::Line,
        Op::Append(run(deserializer_ops(de))),
        Op::Line,
        Op::Append(run(variants_enum_ops(de))),
        Op::Line,
        Op::Text("Variant"@),
        Op::Space,
        Op::Text("getVariant()"@),
        Op::Space,
        Op::Text("{"@),
        Op::Indent,
        Op::Text("return"@),
        Op::Space,
        Op::Text("variant;"@),
        Op::Unindent,
        Op::Text("}"@),
        Op::Unindent,
        Op::Text("}"@),
    ]
}

/// The whole class of a tagged union.
pub open spec fn enum_data_class_ops(de: DataEnumView) -> Seq<Op> {
    class_first_imports_ops() + class_last_imports_ops() + class_head_ops(de) + class_state_ops()
        + class_constructor_ops(de) + class_body_ops(de)
}

/// The factory of the variant `name`, which has no payload.
pub fn unit_variant_code(class_name: &str, name: &Name) -> (tokens: JavaTokens)
    ensures
        tokens.items() == run(unit_code_ops(class_name@, name@)),
        tokens.items().len() > 0,
        shallow(tokens.items(), 1),
{
    let pascal = name.as_pascal_case();
    let of_method_name = prefixed("of", pascal.as_str());
    let constant = name.as_upper_snake_case();
    let mut w = Writer::new(Ghost(1));
    w.text("public");
    w.space();
    w.text("static");
    w.space();
    w.text(class_name);
    w.space();
    w.text(of_method_name.as_str());
    w.text("()");
    w.space();
    w.text("{");
    w.indent();
    w.text("return");
    w.space();
    w.text("new");
    w.space();
    w.text(class_name);
    w.text("(Variant.");
    w.text(constant.as_str());
    w.text(",");
    w.space();
    w.text("null);");
    w.unindent();
    w.text("}");
    proof {
        reveal(unit_code_ops);
    }
    assert(w.ops() == unit_code_ops(class_name@, name@));
    w.finish()
}

/// One constructor argument of the nested class of an object variant.
pub fn holder_arg(field: &DataEnumObjectField) -> (tokens: JavaTokens)
    ensures
        tokens.items() == run(holder_arg_ops(field@)),
        tokens.items().len() > 0,
        shallow(tokens.items(), 0),
{
    let field_name = field.name().as_camel_case();
    let mut w = Writer::new(Ghost(0));
    w.text("@JsonProperty(");
    w.quoted(field.json_name());
    w.text(")");
    w.space();
    w.text(field.field_type().name().as_str());
    w.space();
    w.text(field_name.as_str());
    assert(w.ops() == holder_arg_ops(field@));
    w.finish()
}

/// One getter of the nested class of an object variant.
pub fn holder_getter(field: &DataEnumObjectField) -> (tokens: JavaTokens)
    ensures
        tokens.items() == run(holder_getter_ops(field@)),
        tokens.items().len() > 0,
        shallow(tokens.items(), 1),
{
    let field_name = field.name().as_camel_case();
    let pascal = field.name().as_pascal_case();
    let getter_name = prefixed("get", pascal.as_str());
    let mut w = Writer::new(Ghost(1));
    w.text("@JsonProperty(");
    w.quoted(field.json_name());
    w.text(")");
    w.push();
    w.text("public");
    w.space();
    w.text(field.field_type().name().as_str());
    w.space();
    w.text(getter_name.as_str());
    w.text("()");
    w.space();
    w.text("{");
    w.indent();
    w.text("return");
    w.space();
    w.text(field_name.as_str());
    w.text(";");
    w.unindent();
    w.text("}");
    proof {
        reveal(holder_getter_ops);
    }
    assert(w.ops() == holder_getter_ops(field@));
    w.finish()
}

/// Performs [`object_factory_ops`].
fn write_object_factory(w: &mut Writer, class_name: &str, name: &Name)
    requires
        old(w).inv(),
        old(w).level() == 0,
        old(w).cap() >= 1,
        old(w).ops() == Seq::<Op>::empty(),
    ensures
        final(w).inv(),
        final(w).level() == 0,
        final(w).cap() == old(w).cap(),
        final(w).ops() == object_factory_ops(class_name@, name@),
        final(w).items().len() > 0,
        settled(final(w).items()),
{
    let pascal = name.as_pascal_case();
    let of_method_name = prefixed("of", pascal.as_str());
    let constant = name.as_upper_snake_case();
    w.text("public");
    w.space();
    w.text("static");
    w.space();
    w.text(class_name);
    w.space();
    w.text(of_method_name.as_str());
    w.text("(");
    w.text(pascal.as_str());
    w.space();
    w.text("value)");
    w.space();
    w.text("{");
    w.indent();
    w.text("return");
    w.space();
    w.text("new");
    w.space();
    w.text(class_name);
    w.text("(Variant.");
    w.text(constant.as_str());
    w.text(",");
    w.space();
    w.text("value);");
    w.unindent();
    w.text("}");
    proof {
        reveal(object_factory_ops);
    }
    assert(w.ops() == object_factory_ops(class_name@, name@));
}

/// Performs [`object_accessor_head_ops`].
fn write_object_accessor_head(w: &mut Writer, name: &Name)
    requires
        old(w).inv(),
        old(w).level() == 0,
        old(w).cap() >= 1,
        old(w).items().len() > 0,
    ensures
        final(w).inv(),
        final(w).level() == 1,
        final(w).cap() == old(w).cap(),
        final(w).ops() == old(w).ops() + object_accessor_head_ops(name@),
        final(w).items().len() > 0,
        settled(final(w).items()),
{
    let pascal = name.as_pascal_case();
    let main_getter_name = prefixed("get", pascal.as_str());
    let constant = name.as_upper_snake_case();
    w.line();
    w.text("public");
    w.space();
    w.text(pascal.as_str());
    w.space();
    w.text(main_getter_name.as_str());
    w.text("()");
    w.space();
    w.text("{");
    w.indent();
    w.text("if");
    w.space();
    w.text("(variant");
    w.space();
    w.text("!=");
    w.space();
    w.text("Variant.");
    w.text(constant.as_str());
    w.text(")");
    w.space();
    w.text("{");
    proof {
        reveal(object_accessor_head_ops);
    }
    assert(w.ops() =~= old(w).ops() + object_accessor_head_ops(name@));
}

/// Performs [`object_accessor_tail_ops`].
fn write_object_accessor_tail(w: &mut Writer, name: &Name)
    requires
        old(w).inv(),
        old(w).level() == 1,
        old(w).cap() >= 2,
        old(w).items().len() > 0,
        settled(old(w).items()),
    ensures
        final(w).inv(),
        final(w).level() == 0,
        final(w).cap() == old(w).cap(),
        final(w).ops() == old(w).ops() + object_accessor_tail_ops(name@),
        final(w).items().len() > 0,
        settled(final(w).items()),
{
    let pascal = name.as_pascal_case();
    w.indent();
    w.text("throw");
    w.space();
    w.text("new");
    w.space();
    w.text("IllegalStateException(");
    w.quoted("Invalid variant: ");
    w.space();
    w.text("+");
    w.space();
    w.text("variant);");
    w.unindent();
    w.text("}");
    w.push();
    w.text("return");
    w.space();
    w.text("(");
    w.text(pascal.as_str());
    w.text(")");
    w.space();
    w.text("value;");
    w.unindent();
    w.text("}");
    proof {
        reveal(object_accessor_tail_ops);
    }
    assert(w.ops() =~= old(w).ops() + object_accessor_tail_ops(name@));
}

/// Performs [`holder_head_ops`].
fn write_holder_head(w: &mut Writer, name: &Name)
    requires
        old(w).inv(),
        old(w).level() == 0,
        old(w).cap() >= 1,
        old(w).items().len() > 0,
    ensures
        final(w).inv(),
        final(w).level() == 1,
        final(w).cap() == old(w).cap(),
        final(w).ops() == old(w).ops() + holder_head_ops(name@),
        final(w).items().len() > 0,
        indentation_fits(final(w).items(), -1),
{
    let pascal = name.as_pascal_case();
    w.line();
    w.text("public");
    w.space();
    w.text("static");
    w.space();
    w.text("class");
    w.space();
    w.text(pascal.as_str());
    w.space();
    w.text("{");
    w.indent();
    proof {
        reveal(holder_head_ops);
    }
    assert(w.ops() =~= old(w).ops() + holder_head_ops(name@));
}

/// Performs [`holder_constructor_head_ops`].
fn write_holder_constructor_head(w: &mut Writer, name: &Name)
    requires
        old(w).inv(),
        old(w).level() == 1,
        old(w).cap() >= 1,
        old(w).items().len() > 0,
    ensures
        final(w).inv(),
        final(w).level() == 1,
        final(w).cap() == old(w).cap(),
        final(w).ops() == old(w).ops() + holder_constructor_head_ops(name@),
        final(w).items().len() > 0,
        settled(final(w).items()),
{
    let pascal = name.as_pascal_case();
    w.line();
    w.text("public");
    w.space();
    w.text(pascal.as_str());
    w.text("(");
    assert(w.ops() =~= old(w).ops() + holder_constructor_head_ops(name@));
}

/// Performs [`holder_constructor_body_ops`].
fn write_holder_constructor_body(w: &mut Writer)
    requires
        old(w).inv(),
        old(w).level() == 1,
        old(w).cap() >= 2,
        old(w).items().len() > 0,
    ensures
        final(w).inv(),
        final(w).level() == 2,
        final(w).cap() == old(w).cap(),
        final(w).ops() == old(w).ops() + holder_constructor_body_ops(),
        final(w).items().len() > 0,
        indentation_fits(final(w).items(), -1),
{
    w.text(")");
    w.space();
    w.text("{");
    w.indent();
    assert(w.ops() =~= old(w).ops() + holder_constructor_body_ops());
}

/// Performs [`holder_constructor_tail_ops`].
fn write_holder_constructor_tail(w: &mut Writer)
    requires
        old(w).inv(),
        old(w).level() == 2,
        old(w).cap() >= 2,
        old(w).items().len() > 0,
        indentation_fits(old(w).items(), -1),
    ensures
        final(w).inv(),
        final(w).level() == 1,
        final(w).cap() == old(w).cap(),
        final(w).ops() == old(w).ops() + holder_constructor_tail_ops(),
        final(w).items().len() > 0,
        settled(final(w).items()),
{
    w.unindent();
    w.text("}");
    w.line();
    assert(w.ops() =~= old(w).ops() + holder_constructor_tail_ops());
}

/// Performs [`holder_tail_ops`].
fn write_holder_tail(w: &mut Writer)
    requires
        old(w).inv(),
        old(w).level() == 1,
        old(w).cap() >= 1,
        old(w).items().len() > 0,
        indentation_fits(old(w).items(), -1),
    ensures
        final(w).inv(),
        final(w).level() == 0,
        final(w).cap() == old(w).cap(),
        final(w).ops() == old(w).ops() + holder_tail_ops(),
        final(w).items().len() > 0,
        settled(final(w).items()),
{
    w.unindent();
    w.text("}");
    assert(w.ops() =~= old(w).ops() + holder_tail_ops());
}

/// What the variant `name`, with the named payload `fields`, adds to the
/// class, but for its predicate.
pub fn object_variant_code(
    class_name: &str,
    name: &Name,
    fields: &Vec<DataEnumObjectField>,
) -> (tokens: JavaTokens)
    ensures
        tokens.items() == run(
            object_code_ops(class_name@, name@, object_field_views(fields@)),
        ),
        tokens.items().len() > 0,
        shallow(tokens.items(), 2),
{
    let ghost views = object_field_views(fields@);
    let mut w = Writer::new(Ghost(2));
    write_object_factory(&mut w, class_name, name);
    write_object_accessor_head(&mut w, name);
    write_object_accessor_tail(&mut w, name);
    write_holder_head(&mut w, name);

    let ghost before = w.ops();
    let ghost parts = holder_field_parts(views);
    assert(parts.take(0) =~= Seq::<Seq<Op>>::empty());
    assert(before + concat(parts.take(0)) =~= before);
    let mut i: usize = 0;
    while i < fields.len()
        invariant
            i <= fields.len(),
            views == object_field_views(fields@),
            parts == holder_field_parts(views),
            w.inv(),
            w.level() == 1,
            w.cap() == 2,
            w.items().len() > 0,
            w.ops() == before + concat(parts.take(i as int)),
        decreases fields.len() - i,
    {
        let field = &fields[i];
        assert(views[i as int] == field@);
        let field_name = field.name().as_camel_case();
        let mut declaration = prefixed(field.field_type().name().as_str(), " ");
        declaration.append(field_name.as_str());
        proof {
            lemma_concat_take(parts, i as int);
        }
        w.text("private");
        w.space();
        w.text("final");
        w.space();
        w.text(declaration.as_str());
        w.text(";");
        assert(w.ops() =~= before + concat(parts.take(i + 1)));
        i += 1;
    }
    assert(parts.take(i as int) =~= parts);

    write_holder_constructor_head(&mut w, name);

    let ghost before = w.ops();
    let ghost parts = holder_arg_parts(views);
    assert(parts.take(0) =~= Seq::<Seq<Op>>::empty());
    assert(before + concat_join(parts.take(0), comma()) =~= before);
    let mut i: usize = 0;
    while i < fields.len()
        invariant
            i <= fields.len(),
            views == object_field_views(fields@),
            parts == holder_arg_parts(views),
            w.inv(),
            w.level() == 1,
            w.cap() == 2,
            w.items().len() > 0,
            settled(w.items()),
            w.ops() == before + concat_join(parts.take(i as int), comma()),
        decreases fields.len() - i,
    {
        let arg = holder_arg(&fields[i]);
        assert(views[i as int] == fields@[i as int]@);
        proof {
            lemma_concat_join_take(parts, comma(), i as int);
        }
        if i > 0 {
            w.text(",");
        }
        w.append(&arg, Ghost(0));
        assert(w.ops() =~= before + concat_join(parts.take(i + 1), comma()));
        i += 1;
    }
    assert(parts.take(i as int) =~= parts);

    write_holder_constructor_body(&mut w);

    let ghost before = w.ops();
    let ghost parts = holder_assign_parts(views);
    assert(parts.take(0) =~= Seq::<Seq<Op>>::empty());
    assert(before + concat(parts.take(0)) =~= before);
    let mut i: usize = 0;
    while i < fields.len()
        invariant
            i <= fields.len(),
            views == object_field_views(fields@),
            parts == holder_assign_parts(views),
            w.inv(),
            w.level() == 2,
            w.cap() == 2,
            w.items().len() > 0,
            indentation_fits(w.items(), -1),
            w.ops() == before + concat(parts.take(i as int)),
        decreases fields.len() - i,
    {
        let field = &fields[i];
        assert(views[i as int] == field@);
        let field_name = field.name().as_camel_case();
        proof {
            lemma_concat_take(parts, i as int);
        }
        w.text("this.");
        w.text(field_name.as_str());
        w.space();
        w.text("=");
        w.space();
        w.text(field_name.as_str());
        w.text(";");
        assert(w.ops() =~= before + concat(parts.take(i + 1)));
        i += 1;
    }
    assert(parts.take(i as int) =~= parts);

    write_holder_constructor_tail(&mut w);

    let ghost before = w.ops();
    let ghost parts = holder_getter_parts(views);
    assert(parts.take(0) =~= Seq::<Seq<Op>>::empty());
    assert(before + concat(parts.take(0)) =~= before);
    let mut i: usize = 0;
    while i < fields.len()
        invariant
            i <= fields.len(),
            views == object_field_views(fields@),
            parts == holder_getter_parts(views),
            w.inv(),
            w.level() == 1,
            w.cap() == 2,
            w.items().len() > 0,
            settled(w.items()),
            w.ops() == before + concat(parts.take(i as int)),
        decreases fields.len() - i,
    {
        let getter = holder_getter(&fields[i]);
        assert(views[i as int] == fields@[i as int]@);
        proof {
            lemma_concat_take(parts, i as int);
        }
        w.append(&getter, Ghost(1));
        assert(w.ops() =~= before + concat(parts.take(i + 1)));
        i += 1;
    }
    assert(parts.take(i as int) =~= parts);

    write_holder_tail(&mut w);
    w.finish()
}

/// One argument of the factory of a positional variant.
pub fn slot_arg(slot: &Type, index: usize) -> (tokens: JavaTokens)
    ensures
        tokens.items() == run(slot_arg_ops(slot@, index as nat)),
        tokens.items().len() > 0,
        shallow(tokens.items(), 0),
{
    let arg_name = prefixed("arg", decimal(index).as_str());
    let mut w = Writer::new(Ghost(0));
    w.text(slot.name().as_str());
    w.space();
    w.text(arg_name.as_str());
    assert(w.ops() == slot_arg_ops(slot@, index as nat));
    w.finish()
}

/// One element of the payload array of a positional variant.
pub fn slot_object(index: usize) -> (tokens: JavaTokens)
    ensures
        tokens.items() == run(slot_object_ops(index as nat)),
        tokens.items().len() > 0,
        shallow(tokens.items(), 0),
{
    let arg_name = prefixed("arg", decimal(index).as_str());
    let mut w = Writer::new(Ghost(0));
    w.text(arg_name.as_str());
    assert(w.ops() == slot_object_ops(index as nat));
    w.finish()
}

/// The name of an accessor: `get`, the variant's name in Pascal case and,
/// unless the variant has one slot, the slot's index.
fn slot_getter_text(pascal: &str, arity: usize, counter: &str) -> (s: String)
    ensures
        s@ == if arity != 1 {
            "get"@ + pascal@ + counter@
        } else {
            "get"@ + pascal@
        },
{
    let mut getter_name = prefixed("get", pascal);
    if arity != 1 {
        getter_name.append(counter);
    }
    getter_name
}

/// Performs [`slot_getter_head_ops`].
fn write_slot_getter_head(w: &mut Writer, name: &Name, slot: &Type, arity: usize, index: usize)
    requires
        old(w).inv(),
        old(w).level() == 0,
        old(w).cap() >= 0,
        old(w).ops() == Seq::<Op>::empty(),
    ensures
        final(w).inv(),
        final(w).level() == 0,
        final(w).cap() == old(w).cap(),
        final(w).ops() == slot_getter_head_ops(name@, slot@, arity as nat, index as nat),
        final(w).items().len() > 0,
        settled(final(w).items()),
{
    let pascal = name.as_pascal_case();
    let counter = decimal(index);
    let getter_name = slot_getter_text(pascal.as_str(), arity, counter.as_str());
    w.text("@SuppressWarnings(");
    w.quoted("unchecked");
    w.text(")");
    w.push();
    w.text("public");
    w.space();
    w.text(slot.name().as_str());
    w.space();
    w.text(getter_name.as_str());
    w.text("()");
    w.space();
    w.text("{");
    proof {
        reveal(slot_getter_head_ops);
    }
    assert(w.ops() == slot_getter_head_ops(name@, slot@, arity as nat, index as nat));
}

/// Performs [`slot_getter_check_ops`].
fn write_slot_getter_check(w: &mut Writer, name: &Name)
    requires
        old(w).inv(),
        old(w).level() == 0,
        old(w).cap() >= 2,
        old(w).items().len() > 0,
        settled(old(w).items()),
    ensures
        final(w).inv(),
        final(w).level() == 1,
        final(w).cap() == old(w).cap(),
        final(w).ops() == old(w).ops() + slot_getter_check_ops(name@),
        final(w).items().len() > 0,
        settled(final(w).items()),
{
    let constant = name.as_upper_snake_case();
    w.indent();
    w.text("if");
    w.space();
    w.text("(variant");
    w.space();
    w.text("!=");
    w.space();
    w.text("Variant.");
    w.text(constant.as_str());
    w.text(")");
    w.space();
    w.text("{");
    w.indent();
    w.text("throw");
    w.space();
    w.text("new");
    w.space();
    w.text("IllegalStateException(");
    w.quoted("Invalid variant: ");
    w.space();
    w.text("+");
    w.space();
    w.text("variant);");
    w.unindent();
    w.text("}");
    proof {
        reveal(slot_getter_check_ops);
    }
    assert(w.ops() =~= old(w).ops() + slot_getter_check_ops(name@));
}

/// Performs [`slot_getter_return_ops`].
fn write_slot_getter_return(w: &mut Writer, slot: &Type, index: usize)
    requires
        old(w).inv(),
        old(w).level() == 1,
        old(w).cap() >= 1,
        old(w).items().len() > 0,
    ensures
        final(w).inv(),
        final(w).level() == 0,
        final(w).cap() == old(w).cap(),
        final(w).ops() == old(w).ops() + slot_getter_return_ops(slot@, index as nat),
        final(w).items().len() > 0,
        settled(final(w).items()),
{
    let counter = decimal(index);
    w.push();
    w.text("return");
    w.space();
    w.text("(");
    w.text(slot.name().as_str());
    w.text(")");
    w.space();
    w.text("((Object[])");
    w.space();
    w.text("value)[");
    w.text(counter.as_str());
    w.text("];");
    w.unindent();
    w.text("}");
    proof {
        reveal(slot_getter_return_ops);
    }
    assert(w.ops() =~= old(w).ops() + slot_getter_return_ops(slot@, index as nat));
}

/// The checked accessor of slot `index` of the positional variant `name`,
/// which has `arity` slots.
pub fn slot_getter(name: &Name, slot: &Type, arity: usize, index: usize) -> (tokens: JavaTokens)
    ensures
        tokens.items() == run(slot_getter_ops(name@, slot@, arity as nat, index as nat)),
        tokens.items().len() > 0,
        shallow(tokens.items(), 2),
{
    let mut w = Writer::new(Ghost(2));
    write_slot_getter_head(&mut w, name, slot, arity, index);
    write_slot_getter_check(&mut w, name);
    write_slot_getter_return(&mut w, slot, index);
    w.finish()
}

/// The accessors of the positional variant `name`, one per slot.
pub fn slot_getters(name: &Name, fields: &Vec<Type>) -> (tokens: JavaTokens)
    ensures
        tokens.items() == run(concat(slot_getter_parts(name@, type_views(fields@)))),
        shallow(tokens.items(), 2),
{
    let ghost parts = slot_getter_parts(name@, type_views(fields@));
    let mut getters: Vec<JavaTokens> = Vec::new();
    let mut i: usize = 0;
    while i < fields.len()
        invariant
            i <= fields.len(),
            parts == slot_getter_parts(name@, type_views(fields@)),
            getters@.len() == i,
            all_shallow(getters@, 2),
            forall|k: int|
                0 <= k < i ==> (#[trigger] getters@[k]).items() == run(
                    slot_getter_ops(name@, fields@[k]@, fields@.len(), k as nat),
                ),
        decreases fields.len() - i,
    {
        let getter = slot_getter(name, &fields[i], fields.len(), i);
        getters.push(getter);
        i += 1;
    }
    assert(append_parts(getters@) =~= parts);
    compact_within(&getters, Ghost(2))
}

/// Performs [`tuple_head_ops`].
fn write_tuple_head(w: &mut Writer, class_name: &str, name: &Name)
    requires
        old(w).inv(),
        old(w).level() == 0,
        old(w).cap() >= 0,
        old(w).ops() == Seq::<Op>::empty(),
    ensures
        final(w).inv(),
        final(w).level() == 0,
        final(w).cap() == old(w).cap(),
        final(w).ops() == tuple_head_ops(class_name@, name@),
        final(w).items().len() > 0,
        settled(final(w).items()),
{
    let pascal = name.as_pascal_case();
    let of_method_name = prefixed("of", pascal.as_str());
    w.text("public");
    w.space();
    w.text("static");
    w.space();
    w.text(class_name);
    w.space();
    w.text(of_method_name.as_str());
    w.text("(");
    assert(w.ops() == tuple_head_ops(class_name@, name@));
}

/// Performs [`tuple_body_ops`].
fn write_tuple_body(w: &mut Writer, class_name: &str, name: &Name)
    requires
        old(w).inv(),
        old(w).level() == 0,
        old(w).cap() >= 2,
        old(w).items().len() > 0,
    ensures
        final(w).inv(),
        final(w).level() == 2,
        final(w).cap() == old(w).cap(),
        final(w).ops() == old(w).ops() + tuple_body_ops(class_name@, name@),
        final(w).items().len() > 0,
        indentation_fits(final(w).items(), -1),
{
    let constant = name.as_upper_snake_case();
    w.text(")");
    w.space();
    w.text("{");
    w.indent();
    w.text("return");
    w.space();
    w.text("new");
    w.space();
    w.text(class_name);
    w.text("(Variant.");
    w.text(constant.as_str());
    w.text(",");
    w.space();
    w.text("new");
    w.space();
    w.text("Object[]");
    w.space();
    w.text("{");
    w.indent();
    proof {
        reveal(tuple_body_ops);
    }
    assert(w.ops() =~= old(w).ops() + tuple_body_ops(class_name@, name@));
}

/// Performs [`tuple_tail_ops`].
fn write_tuple_tail(w: &mut Writer, name: &Name, fields: &Vec<Type>, getters: &JavaTokens)
    requires
        old(w).inv(),
        old(w).level() == 2,
        old(w).cap() >= 2,
        old(w).items().len() > 0,
        indentation_fits(old(w).items(), -1),
        shallow(getters.items(), 2),
        getters.items() == run(concat(slot_getter_parts(name@, type_views(fields@)))),
    ensures
        final(w).inv(),
        final(w).level() == 0,
        final(w).cap() == old(w).cap(),
        final(w).ops() == old(w).ops() + tuple_tail_ops(name@, type_views(fields@)),
        final(w).items().len() > 0,
        settled(final(w).items()),
{
    w.unindent();
    w.text("});");
    w.unindent();
    w.text("}");
    w.line();
    w.append(getters, Ghost(2));
    assert(w.ops() =~= old(w).ops() + tuple_tail_ops(name@, type_views(fields@)));
}

/// What the variant `name`, with the positional payload `fields`, adds to the
/// class, but for its predicate.
pub fn tuple_variant_code(class_name: &str, name: &Name, fields: &Vec<Type>) -> (tokens:
    JavaTokens)
    ensures
        tokens.items() == run(tuple_code_ops(class_name@, name@, type_views(fields@))),
        tokens.items().len() > 0,
        shallow(tokens.items(), 2),
{
    let ghost slots = type_views(fields@);
    let getters = slot_getters(name, fields);
    let mut w = Writer::new(Ghost(2));
    write_tuple_head(&mut w, class_name, name);

    let ghost before = w.ops();
    let ghost parts = slot_arg_parts(slots);
    assert(parts.take(0) =~= Seq::<Seq<Op>>::empty());
    assert(before + concat_join(parts.take(0), comma()) =~= before);
    let mut i: usize = 0;
    while i < fields.len()
        invariant
            i <= fields.len(),
            slots == type_views(fields@),
            parts == slot_arg_parts(slots),
            w.inv(),
            w.level() == 0,
            w.cap() == 2,
            w.items().len() > 0,
            settled(w.items()),
            w.ops() == before + concat_join(parts.take(i as int), comma()),
        decreases fields.len() - i,
    {
        let arg = slot_arg(&fields[i], i);
        assert(slots[i as int] == fields@[i as int]@);
        proof {
            lemma_concat_join_take(parts, comma(), i as int);
        }
        if i > 0 {
            w.text(",");
        }
        w.append(&arg, Ghost(0));
        assert(w.ops() =~= before + concat_join(parts.take(i + 1), comma()));
        i += 1;
    }
    assert(parts.take(i as int) =~= parts);

    write_tuple_body(&mut w, class_name, name);

    let ghost before = w.ops();
    let ghost parts = slot_object_parts(slots);
    assert(parts.take(0) =~= Seq::<Seq<Op>>::empty());
    assert(before + concat_join(parts.take(0), comma()) =~= before);
    let mut i: usize = 0;
    while i < fields.len()
        invariant
            i <= fields.len(),
            slots == type_views(fields@),
            parts == slot_object_parts(slots),
            w.inv(),
            w.level() == 2,
            w.cap() == 2,
            w.items().len() > 0,
            indentation_fits(w.items(), -1),
            w.ops() == before + concat_join(parts.take(i as int), comma()),
        decreases fields.len() - i,
    {
        let object = slot_object(i);
        proof {
            lemma_concat_join_take(parts, comma(), i as int);
        }
        if i > 0 {
            w.text(",");
        }
        w.append(&object, Ghost(0));
        assert(w.ops() =~= before + concat_join(parts.take(i + 1), comma()));
        i += 1;
    }
    assert(parts.take(i as int) =~= parts);

    write_tuple_tail(&mut w, name, fields, &getters);
    w.finish()
}

/// Everything the variant `v` adds to the class of `de`.
pub fn generate_field_code(de: &DataEnum, v: &DataEnumVariant) -> (tokens: JavaTokens)
    ensures
        tokens.items() == run(field_code_ops(de@.self_type, v@)),
        tokens.items().len() > 0,
        shallow(tokens.items(), 2),
{
    let ghost class = de@.self_type;
    let class_name = de.self_type().name().clone();
    let code = match v {
        DataEnumVariant::Unit { name, .. } => unit_variant_code(class_name.as_str(), name),
        DataEnumVariant::Object { name, fields, .. } => object_variant_code(
            class_name.as_str(),
            name,
            fields,
        ),
        DataEnumVariant::Tuple { name, fields, .. } => tuple_variant_code(
            class_name.as_str(),
            name,
            fields,
        ),
    };
    proof {
        if shallow(code.items(), 1) {
            lemma_levels_widen(code.items(), 0, 1, 0, 2);
        }
    }
    let pascal = v.name().as_pascal_case();
    let is_method_name = prefixed("is", pascal.as_str());
    let constant = v.name().as_upper_snake_case();
    let mut w = Writer::new(Ghost(2));
    w.append(&code, Ghost(2));
    w.line();
    w.text("public");
    w.space();
    w.text("boolean");
    w.space();
    w.text(is_method_name.as_str());
    w.text("()");
    w.space();
    w.text("{");
    w.indent();
    w.text("return");
    w.space();
    w.text("variant");
    w.space();
    w.text("==");
    w.space();
    w.text("Variant.");
    w.text(constant.as_str());
    w.text(";");
    w.unindent();
    w.text("}");
    proof {
        reveal(field_code_ops);
    }
    assert(w.ops() == field_code_ops(class, v@));
    w.finish()
}

/// The members that the variants of `de` add to its class.
pub fn generate_fields_code(de: &DataEnum) -> (tokens: JavaTokens)
    ensures
        tokens.items() == run(fields_code_ops(de@)),
        shallow(tokens.items(), 2),
{
    let variants = de.variants();
    let ghost parts = field_code_parts(de@);
    let mut w = Writer::new(Ghost(2));
    assert(parts.take(0) =~= Seq::<Seq<Op>>::empty());
    let mut i: usize = 0;
    while i < variants.len()
        invariant
            i <= variants.len(),
            data_variant_views(variants@) == de@.variants,
            parts == field_code_parts(de@),
            w.inv(),
            w.level() == 0,
            w.cap() == 2,
            settled(w.items()),
            w.ops() == concat(parts.take(i as int)),
        decreases variants.len() - i,
    {
        let code = generate_field_code(de, &variants[i]);
        proof {
            lemma_concat_take(parts, i as int);
            assert(variants@[i as int]@ == de@.variants[i as int]);
        }
        w.append(&code, Ghost(2));
        assert(w.ops() =~= concat(parts.take(i + 1)));
        i += 1;
    }
    assert(parts.take(i as int) =~= parts);
    w.finish()
}

/// The discriminant's enumeration of `de`.
pub fn generate_variants_enum(de: &DataEnum) -> (tokens: JavaTokens)
    ensures
        tokens.items() == run(variants_enum_ops(de@)),
        tokens.items().len() > 0,
        shallow(tokens.items(), 1),
{
    let variants = de.variants();
    let ghost parts = variant_constant_parts(de@);
    let mut w = Writer::new(Ghost(1));
    w.text("public");
    w.space();
    w.text("enum");
    w.space();
    w.text("Variant");
    w.space();
    w.text("{");
    w.indent();
    assert(w.ops() == variants_enum_head_ops());
    let ghost before = w.ops();
    assert(parts.take(0) =~= Seq::<Seq<Op>>::empty());
    assert(before + concat_join(parts.take(0), comma()) =~= before);
    let mut i: usize = 0;
    while i < variants.len()
        invariant
            i <= variants.len(),
            data_variant_views(variants@) == de@.variants,
            parts == variant_constant_parts(de@),
            w.inv(),
            w.level() == 1,
            w.cap() == 1,
            w.items().len() > 0,
            indentation_fits(w.items(), -1),
            w.ops() == before + concat_join(parts.take(i as int), comma()),
        decreases variants.len() - i,
    {
        let constant = variants[i].name().as_upper_snake_case();
        let mut single = Writer::new(Ghost(0));
        single.text(constant.as_str());
        assert(single.ops() == seq![Op::Text(upper_all(de@.variants[i as int].name()))]) by {
            assert(variants@[i as int]@ == de@.variants[i as int]);
        }
        let single = single.finish();
        proof {
            lemma_concat_join_take(parts, comma(), i as int);
        }
        if i > 0 {
            w.text(",");
        }
        w.append(&single, Ghost(0));
        assert(w.ops() =~= before + concat_join(parts.take(i + 1), comma()));
        i += 1;
    }
    assert(parts.take(i as int) =~= parts);
    let ghost before = w.ops();
    w.unindent();
    w.text("}");
    assert(w.ops() =~= before + variants_enum_tail_ops());
    w.finish()
}

/// Performs [`class_first_imports_ops`].
fn write_class_first_imports(w: &mut Writer)
    requires
        old(w).inv(),
        old(w).level() == 0,
        old(w).cap() >= 0,
        old(w).ops() == Seq::<Op>::empty(),
    ensures
        final(w).inv(),
        final(w).level() == 0,
        final(w).cap() == old(w).cap(),
        final(w).ops() == class_first_imports_ops(),
        final(w).items().len() > 0,
        settled(final(w).items()),
{
    w.text("import");
    w.space();
    w.text("com.fasterxml.jackson.annotation.JsonIgnore;");
    w.push();
    w.text("import");
    w.space();
    w.text("com.fasterxml.jackson.annotation.JsonInclude;");
    w.push();
    w.text("import");
    w.space();
    w.text("com.fasterxml.jackson.annotation.JsonProperty;");
    w.push();
    w.text("import");
    w.space();
    w.text("com.fasterxml.jackson.core.*;");
    w.push();
    w.text("import");
    w.space();
    w.text("com.fasterxml.jackson.databind.DeserializationContext;");
    w.push();
    w.text("import");
    w.space();
    w.text("com.fasterxml.jackson.databind.JsonNode;");
    w.push();
    w.text("import");
    w.space();
    w.text("com.fasterxml.jackson.databind.SerializerProvider;");
    proof {
        reveal(class_first_imports_ops);
    }
    assert(w.ops() == class_first_imports_ops());
}

/// Performs [`class_last_imports_ops`].
fn write_class_last_imports(w: &mut Writer)
    requires
        old(w).inv(),
        old(w).level() == 0,
        old(w).cap() >= 0,
        old(w).items().len() > 0,
    ensures
        final(w).inv(),
        final(w).level() == 0,
        final(w).cap() == old(w).cap(),
        final(w).ops() == old(w).ops() + class_last_imports_ops(),
        final(w).items().len() > 0,
        settled(final(w).items()),
{
    w.push();
    w.text("import");
    w.space();
    w.text("com.fasterxml.jackson.databind.annotation.JsonDeserialize;");
    w.push();
    w.text("import");
    w.space();
    w.text("com.fasterxml.jackson.databind.annotation.JsonSerialize;");
    w.push();
    w.text("import");
    w.space();
    w.text("com.fasterxml.jackson.databind.deser.std.StdDeserializer;");
    w.push();
    w.text("import");
    w.space();
    w.text("com.fasterxml.jackson.databind.node.ObjectNode;");
    w.push();
    w.text("import");
    w.space();
    w.text("com.fasterxml.jackson.databind.ser.std.StdSerializer;");
    w.push();
    w.text("import");
    w.space();
    w.text("com.fasterxml.jackson.core.type.TypeReference;");
    w.line();
    w.text("import");
    w.space();
    w.text("java.io.IOException;");
    proof {
        reveal(class_last_imports_ops);
    }
    assert(w.ops() =~= old(w).ops() + class_last_imports_ops());
}

/// Performs [`class_head_ops`].
fn write_class_head(w: &mut Writer, de: &DataEnum)
    requires
        old(w).inv(),
        old(w).level() == 0,
        old(w).cap() >= 0,
        old(w).items().len() > 0,
    ensures
        final(w).inv(),
        final(w).level() == 0,
        final(w).cap() == old(w).cap(),
        final(w).ops() == old(w).ops() + class_head_ops(de@),
        final(w).items().len() > 0,
        settled(final(w).items()),
{
    let class_name = de.self_type().name().clone();
    w.line();
    w.text("@JsonInclude(JsonInclude.Include.NON_NULL)");
    w.push();
    w.text("@JsonSerialize(using");
    w.space();
    w.text("=");
    w.space();
    w.text(class_name.as_str());
    w.text(".Serializer.class)");
    w.push();
    w.text("@JsonDeserialize(using");
    w.space();
    w.text("=");
    w.space();
    w.text(class_name.as_str());
    w.text(".Deserializer.class)");
    w.push();
    w.text("public");
    w.space();
    w.text("class");
    w.space();
    w.text(class_name.as_str());
    w.space();
    w.text("{");
    proof {
        reveal(class_head_ops);
    }
    assert(w.ops() =~= old(w).ops() + class_head_ops(de@));
}

/// Performs [`class_state_ops`].
fn write_class_state(w: &mut Writer)
    requires
        old(w).inv(),
        old(w).level() == 0,
        old(w).cap() >= 1,
        old(w).items().len() > 0,
        settled(old(w).items()),
    ensures
        final(w).inv(),
        final(w).level() == 1,
        final(w).cap() == old(w).cap(),
        final(w).ops() == old(w).ops() + class_state_ops(),
        final(w).items().len() > 0,
        settled(final(w).items()),
{
    w.indent();
    w.text("@JsonIgnore");
    w.push();
    w.text("private");
    w.space();
    w.text("final");
    w.space();
    w.text("Variant");
    w.space();
    w.text("variant;");
    w.line();
    w.text("@JsonIgnore");
    w.push();
    w.text("private");
    w.space();
    w.text("final");
    w.space();
    w.text("Object");
    w.space();
    w.text("value;");
    proof {
        reveal(class_state_ops);
    }
    assert(w.ops() =~= old(w).ops() + class_state_ops());
}

/// Performs [`class_constructor_ops`].
fn write_class_constructor(w: &mut Writer, de: &DataEnum)
    requires
        old(w).inv(),
        old(w).level() == 1,
        old(w).cap() >= 2,
        old(w).items().len() > 0,
    ensures
        final(w).inv(),
        final(w).level() == 1,
        final(w).cap() == old(w).cap(),
        final(w).ops() == old(w).ops() + class_constructor_ops(de@),
        final(w).items().len() > 0,
        settled(final(w).items()),
{
    let class_name = de.self_type().name().clone();
    w.line();
    w.text("private");
    w.space();
    w.text(class_name.as_str());
    w.text("(Variant");
    w.space();
    w.text("variant,");
    w.space();
    w.text("Object");
    w.space();
    w.text("value)");
    w.space();
    w.text("{");
    w.indent();
    w.text("this.variant");
    w.space();
    w.text("=");
    w.space();
    w.text("variant;");
    w.push();
    w.text("this.value");
    w.space();
    w.text("=");
    w.space();
    w.text("value;");
    w.unindent();
    w.text("}");
    proof {
        reveal(class_constructor_ops);
    }
    assert(w.ops() =~= old(w).ops() + class_constructor_ops(de@));
}

/// Performs [`class_body_ops`].
fn write_class_body(
    w: &mut Writer,
    de: &DataEnum,
    fields_code: &JavaTokens,
    serializer_code: &JavaTokens,
    deserializer_code: &JavaTokens,
    variants_enum: &JavaTokens,
)
    requires
        old(w).inv(),
        old(w).level() == 1,
        old(w).cap() >= 5,
        old(w).items().len() > 0,
        shallow(fields_code.items(), 2),
        fields_code.items() == run(fields_code_ops(de@)),
        shallow(serializer_code.items(), 4),
        serializer_code.items() == run(serializer_ops(de@)),
        shallow(deserializer_code.items(), 4),
        deserializer_code.items() == run(deserializer_ops(de@)),
        shallow(variants_enum.items(), 1),
        variants_enum.items() == run(variants_enum_ops(de@)),
    ensures
        final(w).inv(),
        final(w).level() == 0,
        final(w).cap() == old(w).cap(),
        final(w).ops() == old(w).ops() + class_body_ops(de@),
        final(w).items().len() > 0,
        settled(final(w).items()),
{
    w.line();
    w.append(fields_code, Ghost(2));
    w.line();
    w.append(serializer_code, Ghost(4));
    w.line();
    w.append(deserializer_code, Ghost(4));
    w.line();
    w.append(variants_enum, Ghost(1));
    w.line();
    w.text("Variant");
    w.space();
    w.text("getVariant()");
    w.space();
    w.text("{");
    w.indent();
    w.text("return");
    w.space();
    w.text("variant;");
    w.unindent();
    w.text("}");
    w.unindent();
    w.text("}");
    proof {
        reveal(class_body_ops);
    }
    assert(w.ops() =~= old(w).ops() + class_body_ops(de@));
}

/// The class of `de` as a token stream.
pub fn enum_data_class_tokens(de: &DataEnum) -> (tokens: JavaTokens)
    ensures
        tokens.items() == run(enum_data_class_ops(de@)),
        tokens.items().len() > 0,
        shallow(tokens.items(), 5),
{
    let serializer_code = match de.style() {
        DataEnumStyle::External => generate_external_serializer(de),
    };
    let deserializer_code = match de.style() {
        DataEnumStyle::External => generate_external_deserializer(de),
    };
    let fields_code = generate_fields_code(de);
    let variants_enum = generate_variants_enum(de);
    let mut w = Writer::new(Ghost(5));
    write_class_first_imports(&mut w);
    write_class_last_imports(&mut w);
    write_class_head(&mut w, de);
    write_class_state(&mut w);
    write_class_constructor(&mut w, de);
    write_class_body(
        &mut w,
        de,
        &fields_code,
        &serializer_code,
        &deserializer_code,
        &variants_enum,
    );
    w.finish()
}

/// The class of `de`: its name is the identifier that the union is defined
/// under, its source
/// the text of [`enum_data_class_ops`].
pub fn generate_enum_data_class(de: &DataEnum) -> (r: Result<JavaClass, Error>)
    ensures
        class_result_view(r) == class_of(
            de@.self_type,
            java_text(run(enum_data_class_ops(de@))),
        ),
{
    let class_name = de.self_type().name().clone();
    let tokens = enum_data_class_tokens(de);
    JavaClass::from_tokens(class_name, tokens)
}

} // verus!
