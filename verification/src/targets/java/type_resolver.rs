//! How Java names the types of a model.

use crate::ir::data::{CustomType, Type};
use crate::ir::types::{TypeDef, TypeGraph, TypeRef};
use vstd::prelude::*;
use vstd::string::StringExecFns;

verus! {

/// The name of `ty` in Java. The primitive types are named by their boxed
/// classes, so that a field can be absent; an optional or boxed type is named
/// as the type inside it; a defined type by its own name.
pub open spec fn java_type_name(graph: TypeGraph, ty: TypeRef) -> Seq<char>
    decreases ty,
{
    match ty {
        TypeRef::Bool => "Boolean"@,
        TypeRef::Int8 => "Byte"@,
        TypeRef::Int16 => "Short"@,
        TypeRef::Int32 => "Integer"@,
        TypeRef::Int64 => "Long"@,
        TypeRef::Float32 => "Float"@,
        TypeRef::Float64 => "Double"@,
        TypeRef::Text => "String"@,
        TypeRef::List(t) => "java.util.List<"@ + java_type_name(graph, *t) + ">"@,
        TypeRef::Optional(t) => java_type_name(graph, *t),
        TypeRef::Mapping(k, v) => "java.util.Map<"@ + java_type_name(graph, *k) + ", "@
            + java_type_name(graph, *v) + ">"@,
        TypeRef::Boxed(t) => java_type_name(graph, *t),
        TypeRef::Custom(i) => if i < graph.defs@.len() {
            graph.defs@[i as int].name@
        } else {
            Seq::empty()
        },
    }
}

/// Writes the name of `ty` in Java.
pub fn java_type_text(graph: &TypeGraph, ty: &TypeRef) -> (s: String)
    requires
        ty.within(graph.defs@.len()),
    ensures
        s@ == java_type_name(*graph, *ty),
    decreases ty,
{
    match ty {
        TypeRef::Bool => String::from_str("Boolean"),
        TypeRef::Int8 => String::from_str("Byte"),
        TypeRef::Int16 => String::from_str("Short"),
        TypeRef::Int32 => String::from_str("Integer"),
        TypeRef::Int64 => String::from_str("Long"),
        TypeRef::Float32 => String::from_str("Float"),
        TypeRef::Float64 => String::from_str("Double"),
        TypeRef::Text => String::from_str("String"),
        TypeRef::List(t) => {
            let inner = java_type_text(graph, t);
            let mut s = String::from_str("java.util.List<");
            s.append(inner.as_str());
            s.append(">");
            s
        },
        TypeRef::Optional(t) => java_type_text(graph, t),
        TypeRef::Mapping(k, v) => {
            let key = java_type_text(graph, k);
            let value = java_type_text(graph, v);
            let mut s = String::from_str("java.util.Map<");
            s.append(key.as_str());
            s.append(", ");
            s.append(value.as_str());
            s.append(">");
            s
        },
        TypeRef::Boxed(t) => java_type_text(graph, t),
        TypeRef::Custom(i) => graph.defs[*i].name.clone(),
    }
}

/// What has a type expression in Java, by which a field is declared.
pub trait JavaType {
    /// The expression can be written: what it refers to is described in
    /// `graph`.
    spec fn resolvable(&self, graph: TypeGraph) -> bool;

    /// The expression.
    spec fn java_name(&self, graph: TypeGraph) -> Seq<char>;

    /// Writes the expression.
    fn java_type(&self, graph: &TypeGraph) -> (t: Type)
        requires
            self.resolvable(*graph),
        ensures
            t@ == self.java_name(*graph),
    ;
}

/// What becomes a class in Java, and so has an identifier of its own.
pub trait JavaCustomType {
    /// The identifier.
    spec fn java_class_name(&self) -> Seq<char>;

    /// Writes the identifier.
    fn java_custom_type(&self) -> (t: CustomType)
        ensures
            t@ == self.java_class_name(),
    ;
}

impl JavaType for TypeRef {
    open spec fn resolvable(&self, graph: TypeGraph) -> bool {
        self.within(graph.defs@.len())
    }

    open spec fn java_name(&self, graph: TypeGraph) -> Seq<char> {
        java_type_name(graph, *self)
    }

    fn java_type(&self, graph: &TypeGraph) -> (t: Type) {
        Type::new(java_type_text(graph, self).as_str())
    }
}

impl JavaCustomType for TypeDef {
    open spec fn java_class_name(&self) -> Seq<char> {
        self.name@
    }

    fn java_custom_type(&self) -> (t: CustomType) {
        CustomType::new(self.name.as_str())
    }
}

} // verus!
