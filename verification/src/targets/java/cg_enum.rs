//! The enumeration of a plain enum: one constant per variant, each tagged
//! with its name on the wire.

use crate::errors::Error;
use crate::ir::data::{enum_variant_views, Enum, EnumVariant, EnumVariantView, EnumView};
use crate::targets::java::cg_utils::{concat_join, lemma_concat_join_take};
use crate::targets::java::tokens::{indentation_fits, java_text, shallow, JavaTokens};
use crate::targets::java::writer::{run, Op, Writer};
use crate::targets::java::{class_of, class_result_view, JavaClass};
use crate::text::upper_all;
use vstd::prelude::*;

verus! {

/// One constant, tagged with the variant's name on the wire.
pub open spec fn enum_constant_ops(v: EnumVariantView) -> Seq<Op> {
    seq![
        Op::Text("@JsonProperty("@),
        Op::Quoted(v.json_name),
        Op::Text(")"@),
        Op::Push,
        Op::Text(upper_all(v.name)),
    ]
}

/// Up to the enumeration's opening brace.
#[verifier::opaque]
pub open spec fn enum_class_head_ops(e: EnumView) -> Seq<Op> {
    seq![
        Op::Text("import"@),
        Op::Space,
        Op::Text("com.fasterxml.jackson.annotation.JsonProperty;"@),
        Op::Line,
        Op::Text("public"@),
        Op::Space,
        Op::Text("enum"@),
        Op::Space,
        Op::Text(e.self_type),
        Op::Space,
        Op::Text("{"@),
        Op::Indent,
    ]
}

/// The closing brace.
pub open spec fn enum_class_tail_ops() -> Seq<Op> {
    seq![
        Op::Unindent,
        Op::Text("}"@),
    ]
}

/// One operation per variant: add its constant.
pub open spec fn enum_constant_parts(e: EnumView) -> Seq<Seq<Op>> {
    Seq::new(e.variants.len(), |i: int| seq![Op::Append(run(enum_constant_ops(e.variants[i])))])
}

/// The whole enumeration: the constants are separated by commas.
pub open spec fn enum_class_ops(e: EnumView) -> Seq<Op> {
    enum_class_head_ops(e) + concat_join(enum_constant_parts(e), seq![Op::Text(","@)])
        + enum_class_tail_ops()
}

/// The constant of `variant` as a token stream.
pub fn generate_enum_constant(variant: &EnumVariant) -> (tokens: JavaTokens)
    ensures
        tokens.items() == run(enum_constant_ops(variant@)),
        tokens.items().len() > 0,
        shallow(tokens.items(), 0),
{
    let name = variant.name().as_upper_snake_case();
    let mut w = Writer::new(Ghost(0));
    w.text("@JsonProperty(");
    w.quoted(variant.json_name().as_str());
    w.text(")");
    w.push();
    w.text(name.as_str());
    assert(w.ops() == enum_constant_ops(variant@));
    w.finish()
}

/// The enumeration of `enum_ir` as a token stream.
pub fn enum_class_tokens(enum_ir: &Enum) -> (tokens: JavaTokens)
    ensures
        tokens.items() == run(enum_class_ops(enum_ir@)),
        tokens.items().len() > 0,
        shallow(tokens.items(), 1),
{
    let class_name = enum_ir.self_type().name().clone();
    let variants = enum_ir.variants();
    let ghost parts = enum_constant_parts(enum_ir@);
    let ghost sep = seq![Op::Text(","@)];
    let mut w = Writer::new(Ghost(1));
    w.text("import");
    w.space();
    w.text("com.fasterxml.jackson.annotation.JsonProperty;");
    w.line();
    w.text("public");
    w.space();
    w.text("enum");
    w.space();
    w.text(class_name.as_str());
    w.space();
    w.text("{");
    w.indent();
    proof {
        reveal(enum_class_head_ops);
    }
    assert(w.ops() == enum_class_head_ops(enum_ir@));
    let ghost before = w.ops();
    assert(parts.take(0) =~= Seq::<Seq<Op>>::empty());
    let mut i: usize = 0;
    while i < variants.len()
        invariant
            i <= variants.len(),
            enum_variant_views(variants@) == enum_ir@.variants,
            parts == enum_constant_parts(enum_ir@),
            sep == seq![Op::Text(","@)],
            w.inv(),
            w.level() == 1,
            w.cap() == 1,
            w.items().len() > 0,
            indentation_fits(w.items(), -1),
            w.ops() == before + concat_join(parts.take(i as int), sep),
        decreases variants.len() - i,
    {
        let constant = generate_enum_constant(&variants[i]);
        proof {
            lemma_concat_join_take(parts, sep, i as int);
            assert(variants@[i as int]@ == enum_ir@.variants[i as int]);
        }
        if i > 0 {
            w.text(",");
        }
        w.append(&constant, Ghost(0));
        assert(w.ops() =~= before + concat_join(parts.take(i + 1), sep));
        i += 1;
    }
    assert(parts.take(i as int) =~= parts);
    let ghost before = w.ops();
    w.unindent();
    w.text("}");
    assert(w.ops() =~= before + enum_class_tail_ops());
    w.finish()
}

/// The enumeration of `enum_ir`: its name is the identifier that the enum is
/// defined under,
/// its source the text of [`enum_class_ops`].
pub fn generate_enum_class(enum_ir: &Enum) -> (r: Result<JavaClass, Error>)
    ensures
        class_result_view(r) == class_of(
            enum_ir@.self_type,
            java_text(run(enum_class_ops(enum_ir@))),
        ),
{
    let class_name = enum_ir.self_type().name().clone();
    let tokens = enum_class_tokens(enum_ir);
    JavaClass::from_tokens(class_name, tokens)
}

/// A constant stands on the wire as its tag: its declaration tags the
/// constant, which bears the variant's name in upper snake case, with the
/// variant's `json_name` and with nothing else.
pub proof fn lemma_constant_is_tagged(v: EnumVariantView)
    ensures
        enum_constant_ops(v).len() == 5,
        enum_constant_ops(v)[0] == Op::Text("@JsonProperty("@),
        enum_constant_ops(v)[1] == Op::Quoted(v.json_name),
        enum_constant_ops(v)[4] == Op::Text(upper_all(v.name)),
{
}

} // verus!
