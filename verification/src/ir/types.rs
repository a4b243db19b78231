//! The types that a model is collected from, and how the target names them.
//!
//! A host type is described by a [`TypeDef`]; the definitions of one
//! generation request stand in a [`TypeGraph`], and the position of a
//! definition in it is its identity. A generic type is described once per
//! instantiation, under the name of that instantiation.

use crate::ir::data::{CustomType, Type};
use crate::targets::java::type_resolver::{JavaCustomType, JavaType};
use vstd::prelude::*;

verus! {

/// The language that type expressions of a model are written in.
#[derive(Debug, Clone, Copy, PartialEq, Eq, Structural)]
pub enum TypeTarget {
    Java,
}

/// A type as a field or a payload slot refers to it.
#[derive(Debug)]
pub enum TypeRef {
    Bool,
    Int8,
    Int16,
    Int32,
    Int64,
    Float32,
    Float64,
    Text,
    /// A list of values of one type.
    List(Box<TypeRef>),
    /// A value that may be absent.
    Optional(Box<TypeRef>),
    /// A map from keys of one type to values of another.
    Mapping(Box<TypeRef>, Box<TypeRef>),
    /// A value behind one level of indirection.
    Boxed(Box<TypeRef>),
    /// The definition at this position of the graph.
    Custom(usize),
}

/// A field of a struct, or a named payload field of a variant.
#[derive(Debug)]
pub struct FieldDef {
    /// The field's name, in snake case.
    pub name: String,
    /// The field's key on the wire.
    pub json_name: String,
    pub ty: TypeRef,
}

/// A variant of a plain enum.
#[derive(Debug)]
pub struct VariantDef {
    /// The variant's name, in Pascal case.
    pub name: String,
    /// The variant's tag on the wire.
    pub json_name: String,
}

/// The payload of a variant of a tagged union.
#[derive(Debug)]
pub enum PayloadDef {
    Unit,
    Object(Vec<FieldDef>),
    Tuple(Vec<TypeRef>),
}

/// A variant of a tagged union.
#[derive(Debug)]
pub struct DataVariantDef {
    /// The variant's name, in Pascal case.
    pub name: String,
    /// The variant's tag on the wire.
    pub json_name: String,
    pub payload: PayloadDef,
}

/// What a definition is made of.
#[derive(Debug)]
pub enum TypeShape {
    Struct(Vec<FieldDef>),
    Enum(Vec<VariantDef>),
    DataEnum(Vec<DataVariantDef>),
}

/// The definition of one type.
#[derive(Debug)]
pub struct TypeDef {
    /// The type's name, in Pascal case; the generated class bears it.
    pub name: String,
    pub shape: TypeShape,
}

/// The definitions of one generation request.
#[derive(Debug)]
pub struct TypeGraph {
    pub defs: Vec<TypeDef>,
}

impl TypeRef {
    /// Every definition that the type refers to stands among the first `n`.
    pub open spec fn within(self, n: nat) -> bool
        decreases self,
    {
        match self {
            TypeRef::List(t) => t.within(n),
            TypeRef::Optional(t) => t.within(n),
            TypeRef::Mapping(k, v) => k.within(n) && v.within(n),
            TypeRef::Boxed(t) => t.within(n),
            TypeRef::Custom(i) => i < n,
            _ => true,
        }
    }

    /// Whether every definition that the type refers to stands among the
    /// first `n`.
    pub fn is_within(&self, n: usize) -> (r: bool)
        ensures
            r == self.within(n as nat),
        decreases self,
    {
        match self {
            TypeRef::List(t) => t.is_within(n),
            TypeRef::Optional(t) => t.is_within(n),
            TypeRef::Mapping(k, v) => k.is_within(n) && v.is_within(n),
            TypeRef::Boxed(t) => t.is_within(n),
            TypeRef::Custom(i) => *i < n,
            _ => true,
        }
    }
}

/// The types of a run of fields.
pub open spec fn field_types(fields: Seq<FieldDef>) -> Seq<TypeRef> {
    fields.map_values(|f: FieldDef| f.ty)
}

/// The types that a payload holds.
pub open spec fn payload_types(payload: PayloadDef) -> Seq<TypeRef> {
    match payload {
        PayloadDef::Unit => Seq::empty(),
        PayloadDef::Object(fields) => field_types(fields@),
        PayloadDef::Tuple(slots) => slots@,
    }
}

/// The types that the payloads of a run of variants hold, variant by variant.
pub open spec fn variant_types(variants: Seq<DataVariantDef>) -> Seq<TypeRef>
    decreases variants.len(),
{
    if variants.len() == 0 {
        Seq::empty()
    } else {
        variant_types(variants.drop_last()) + payload_types(variants.last().payload)
    }
}

/// Every type of `types` stays within the first `n` definitions.
pub open spec fn all_within(types: Seq<TypeRef>, n: nat) -> bool {
    forall|i: int| 0 <= i < types.len() ==> (#[trigger] types[i]).within(n)
}

impl TypeDef {
    /// The types that the definition depends on directly, in declaration
    /// order: the types of its fields, or of the payloads of its variants.
    pub open spec fn dependencies(self) -> Seq<TypeRef> {
        match self.shape {
            TypeShape::Struct(fields) => field_types(fields@),
            TypeShape::Enum(_) => Seq::empty(),
            TypeShape::DataEnum(variants) => variant_types(variants@),
        }
    }
}

impl TypeGraph {
    /// Every reference in the graph leads to a definition of the graph.
    pub open spec fn wf(self) -> bool {
        forall|i: int|
            0 <= i < self.defs@.len() ==> all_within(
                (#[trigger] self.defs@[i]).dependencies(),
                self.defs@.len(),
            )
    }
}

impl TypeTarget {
    /// The expression by which the target refers to `ty`, as a field's
    /// declared type.
    pub fn resolve_type<T: JavaType>(&self, graph: &TypeGraph, ty: &T) -> (t: Type)
        requires
            ty.resolvable(*graph),
        ensures
            t@ == ty.java_name(*graph),
    {
        match self {
            TypeTarget::Java => ty.java_type(graph),
        }
    }

    /// The identifier under which the target defines the class of `def`.
    pub fn resolve_custom_type<T: JavaCustomType>(&self, def: &T) -> (t: CustomType)
        ensures
            t@ == def.java_class_name(),
    {
        match self {
            TypeTarget::Java => def.java_custom_type(),
        }
    }
}

} // verus!
