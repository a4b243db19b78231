//! The language-neutral model that the generators consume.

pub mod data;
pub mod name;
pub mod types;

pub use data::{
    CustomType, DataEnum, DataEnumObjectField, DataEnumStyle, DataEnumVariant, Enum, EnumVariant,
    Field, IntermediateRepresentation, Struct, Type,
};
pub use name::Name;
pub use types::{
    DataVariantDef, FieldDef, PayloadDef, TypeDef, TypeGraph, TypeRef, TypeShape, TypeTarget,
    VariantDef,
};
