//! The class of a struct: one private field per field, a constructor without
//! arguments, and a getter and a setter per field.

use crate::errors::Error;
use crate::ir::data::{field_views, Field, FieldView, Struct, StructView};
use crate::ir::name::{snake_to_camel, snake_to_pascal};
use crate::targets::java::cg_utils::{concat, lemma_concat_take};
use crate::targets::java::tokens::{java_text, settled, shallow, JavaTokens};
use crate::targets::java::writer::{run, Op, Writer};
use crate::targets::java::{class_of, class_result_view, JavaClass};
use vstd::prelude::*;

verus! {

/// The declaration of one field, tagged with its key on the wire.
#[verifier::opaque]
pub open spec fn field_declaration_ops(f: FieldView) -> Seq<Op> {
    seq![
        Op::Text("@JsonProperty("@),
        Op::Quoted(f.json_name),
        Op::Text(")"@),
        Op::Push,
        Op::Text("private"@),
        Op::Space,
        Op::Text(f.field_type),
        Op::Space,
        Op::Text(snake_to_camel(f.name)),
        Op::Text(";"@),
    ]
}

/// The getter of one field.
#[verifier::opaque]
pub open spec fn field_getter_ops(f: FieldView) -> Seq<Op> {
    seq![
        Op::Text("public"@),
        Op::Space,
        Op::Text(f.field_type),
        Op::Space,
        Op::Text("get"@),
        Op::Text(snake_to_pascal(f.name)),
        Op::Text("()"@),
        Op::Space,
        Op::Text("{"@),
        Op::Indent,
        Op::Text("return"@),
        Op::Space,
        Op::Text(snake_to_camel(f.name)),
        Op::Text(";"@),
        Op::Unindent,
        Op::Text("}"@),
    ]
}

/// The setter of one field.
#[verifier::opaque]
pub open spec fn field_setter_ops(f: FieldView) -> Seq<Op> {
    seq![
        Op::Line,
        Op::Text("public"@),
        Op::Space,
        Op::Text("void"@),
        Op::Space,
        Op::Text("set"@),
        Op::Text(snake_to_pascal(f.name)),
        Op::Text("("@),
        Op::Text(f.field_type),
        Op::Space,
        Op::Text(snake_to_camel(f.name)),
        Op::Text(")"@),
        Op::Space,
        Op::Text("{"@),
        Op::Indent,
        Op::Text("this."@),
        Op::Text(snake_to_camel(f.name)),
        Op::Space,
        Op::Text("="@),
        Op::Space,
        Op::Text(snake_to_camel(f.name)),
        Op::Text(";"@),
        Op::Unindent,
        Op::Text("}"@),
    ]
}

/// The getter and the setter of one field.
pub open spec fn access_methods_ops(f: FieldView) -> Seq<Op> {
    field_getter_ops(f) + field_setter_ops(f)
}

/// Up to the class's opening brace.
#[verifier::opaque]
pub open spec fn data_class_head_ops(s: StructView) -> Seq<Op> {
    seq![
        Op::Text("import"@),
        Op::Space,
        Op::Text("com.fasterxml.jackson.annotation.JsonProperty;"@),
        Op::Line,
        Op::Text("public"@),
        Op::Space,
        Op::Text("class"@),
        Op::Space,
        Op::Text(s.self_type),
        Op::Space,
        Op::Text("{"@),
        Op::Indent,
    ]
}

/// The constructor without arguments, between the fields and their methods.
pub open spec fn data_class_constructor_ops(s: StructView) -> Seq<Op> {
    seq![
        Op::Line,
        Op::Text("public"@),
        Op::Space,
        Op::Text(s.self_type),
        Op::Text("()"@),
        Op::Space,
        Op::Text("{}"@),
        Op::Line,
    ]
}

/// The closing brace.
pub open spec fn data_class_tail_ops() -> Seq<Op> {
    seq![
        Op::Unindent,
        Op::Text("}"@),
    ]
}

/// One operation per field: add its declaration.
pub open spec fn field_declaration_parts(s: StructView) -> Seq<Seq<Op>> {
    Seq::new(s.fields.len(), |i: int| seq![Op::Append(run(field_declaration_ops(s.fields[i])))])
}

/// One operation per field: add its getter and setter.
pub open spec fn access_methods_parts(s: StructView) -> Seq<Seq<Op>> {
    Seq::new(s.fields.len(), |i: int| seq![Op::Append(run(access_methods_ops(s.fields[i])))])
}

/// The whole class of a struct.
pub open spec fn data_class_ops(s: StructView) -> Seq<Op> {
    data_class_head_ops(s) + concat(field_declaration_parts(s)) + data_class_constructor_ops(s)
        + concat(access_methods_parts(s)) + data_class_tail_ops()
}

/// The declaration of `field` as a token stream.
pub fn generate_field_declaration(field: &Field) -> (tokens: JavaTokens)
    ensures
        tokens.items() == run(field_declaration_ops(field@)),
        tokens.items().len() > 0,
        shallow(tokens.items(), 0),
{
    let name = field.name().as_camel_case();
    let mut w = Writer::new(Ghost(0));
    w.text("@JsonProperty(");
    w.quoted(field.json_name().as_str());
    w.text(")");
    w.push();
    w.text("private");
    w.space();
    w.text(field.field_type().name().as_str());
    w.space();
    w.text(name.as_str());
    w.text(";");
    proof {
        reveal(field_declaration_ops);
    }
    assert(w.ops() == field_declaration_ops(field@));
    w.finish()
}

/// Performs [`field_getter_ops`].
fn write_field_getter(w: &mut Writer, field: &Field)
    requires
        old(w).inv(),
        old(w).level() == 0,
        old(w).cap() >= 1,
        old(w).ops() == Seq::<Op>::empty(),
    ensures
        final(w).inv(),
        final(w).level() == 0,
        final(w).cap() == old(w).cap(),
        final(w).ops() == field_getter_ops(field@),
        final(w).items().len() > 0,
        settled(final(w).items()),
{
    let pascal_name = field.name().as_pascal_case();
    let camel_name = field.name().as_camel_case();
    w.text("public");
    w.space();
    w.text(field.field_type().name().as_str());
    w.space();
    w.text("get");
    w.text(pascal_name.as_str());
    w.text("()");
    w.space();
    w.text("{");
    w.indent();
    w.text("return");
    w.space();
    w.text(camel_name.as_str());
    w.text(";");
    w.unindent();
    w.text("}");
    proof {
        reveal(field_getter_ops);
    }
    assert(w.ops() == field_getter_ops(field@));
}

/// Performs [`field_setter_ops`].
fn write_field_setter(w: &mut Writer, field: &Field)
    requires
        old(w).inv(),
        old(w).level() == 0,
        old(w).cap() >= 1,
        old(w).items().len() > 0,
    ensures
        final(w).inv(),
        final(w).level() == 0,
        final(w).cap() == old(w).cap(),
        final(w).ops() == old(w).ops() + field_setter_ops(field@),
        final(w).items().len() > 0,
        settled(final(w).items()),
{
    let pascal_name = field.name().as_pascal_case();
    let camel_name = field.name().as_camel_case();
    w.line();
    w.text("public");
    w.space();
    w.text("void");
    w.space();
    w.text("set");
    w.text(pascal_name.as_str());
    w.text("(");
    w.text(field.field_type().name().as_str());
    w.space();
    w.text(camel_name.as_str());
    w.text(")");
    w.space();
    w.text("{");
    w.indent();
    w.text("this.");
    w.text(camel_name.as_str());
    w.space();
    w.text("=");
    w.space();
    w.text(camel_name.as_str());
    w.text(";");
    w.unindent();
    w.text("}");
    proof {
        reveal(field_setter_ops);
    }
    assert(w.ops() =~= old(w).ops() + field_setter_ops(field@));
}

/// The getter and the setter of `field` as a token stream.
pub fn generate_access_methods(field: &Field) -> (tokens: JavaTokens)
    ensures
        tokens.items() == run(access_methods_ops(field@)),
        tokens.items().len() > 0,
        shallow(tokens.items(), 1),
{
    let mut w = Writer::new(Ghost(1));
    write_field_getter(&mut w, field);
    write_field_setter(&mut w, field);
    w.finish()
}

/// The class of `dc` as a token stream.
pub fn data_class_tokens(dc: &Struct) -> (tokens: JavaTokens)
    ensures
        tokens.items() == run(data_class_ops(dc@)),
        tokens.items().len() > 0,
        shallow(tokens.items(), 2),
{
    let class_name = dc.self_type().name().clone();
    let fields = dc.fields();
    let ghost decls = field_declaration_parts(dc@);
    let ghost accessors = access_methods_parts(dc@);
    let mut w = Writer::new(Ghost(2));
    w.text("import");
    w.space();
    w.text("com.fasterxml.jackson.annotation.JsonProperty;");
    w.line();
    w.text("public");
    w.space();
    w.text("class");
    w.space();
    w.text(dc.self_type().name().as_str());
    w.space();
    w.text("{");
    w.indent();
    proof {
        reveal(data_class_head_ops);
    }
    assert(w.ops() == data_class_head_ops(dc@));
    let ghost before = w.ops();
    assert(decls.take(0) =~= Seq::<Seq<Op>>::empty());
    let mut i: usize = 0;
    while i < fields.len()
        invariant
            i <= fields.len(),
            field_views(fields@) == dc@.fields,
            decls == field_declaration_parts(dc@),
            w.inv(),
            w.level() == 1,
            w.cap() == 2,
            w.items().len() > 0,
            w.ops() == before + concat(decls.take(i as int)),
        decreases fields.len() - i,
    {
        let declaration = generate_field_declaration(&fields[i]);
        proof {
            lemma_concat_take(decls, i as int);
            assert(fields@[i as int]@ == dc@.fields[i as int]);
        }
        w.append(&declaration, Ghost(0));
        assert(w.ops() =~= before + concat(decls.take(i + 1)));
        i += 1;
    }
    assert(decls.take(i as int) =~= decls);
    let ghost before = w.ops();
    w.line();
    w.text("public");
    w.space();
    w.text(class_name.as_str());
    w.text("()");
    w.space();
    w.text("{}");
    w.line();
    assert(w.ops() =~= before + data_class_constructor_ops(dc@));
    let ghost before = w.ops();
    assert(accessors.take(0) =~= Seq::<Seq<Op>>::empty());
    let mut i: usize = 0;
    while i < fields.len()
        invariant
            i <= fields.len(),
            field_views(fields@) == dc@.fields,
            accessors == access_methods_parts(dc@),
            w.inv(),
            w.level() == 1,
            w.cap() == 2,
            w.items().len() > 0,
            settled(w.items()),
            w.ops() == before + concat(accessors.take(i as int)),
        decreases fields.len() - i,
    {
        let methods = generate_access_methods(&fields[i]);
        proof {
            lemma_concat_take(accessors, i as int);
            assert(fields@[i as int]@ == dc@.fields[i as int]);
        }
        w.append(&methods, Ghost(1));
        assert(w.ops() =~= before + concat(accessors.take(i + 1)));
        i += 1;
    }
    assert(accessors.take(i as int) =~= accessors);
    let ghost before = w.ops();
    w.unindent();
    w.text("}");
    assert(w.ops() =~= before + data_class_tail_ops());
    w.finish()
}

/// The class of `dc`: its name is the identifier that the struct is defined
/// under, its
/// source the text of [`data_class_ops`].
pub fn generate_data_class(dc: &Struct) -> (r: Result<JavaClass, Error>)
    ensures
        class_result_view(r) == class_of(
            dc@.self_type,
            java_text(run(data_class_ops(dc@))),
        ),
{
    let class_name = dc.self_type().name().clone();
    let tokens = data_class_tokens(dc);
    JavaClass::from_tokens(class_name, tokens)
}

/// A field stands on the wire under its key: its declaration tags the field,
/// which bears the field's name in camel case, with the field's `json_name`
/// and with nothing else.
pub proof fn lemma_field_is_tagged(f: FieldView)
    ensures
        field_declaration_ops(f).len() == 10,
        field_declaration_ops(f)[0] == Op::Text("@JsonProperty("@),
        field_declaration_ops(f)[1] == Op::Quoted(f.json_name),
        field_declaration_ops(f)[6] == Op::Text(f.field_type),
        field_declaration_ops(f)[8] == Op::Text(snake_to_camel(f.name)),
{
    reveal(field_declaration_ops);
}

} // verus!
