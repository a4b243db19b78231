//! Data-transfer code generation.
//!
//! A program describes its data structures once and gets classes for
//! another language that read and write the same JSON. The work is done in
//! three steps:
//!
//! * [`ir`] holds the language-neutral model: structs, plain enums and tagged
//!   unions, with their names, their keys on the wire and the target's type
//!   expressions.
//! * [`codegen`] collects a model from the descriptions of the requested
//!   types: every type they depend on is registered, each once, whether it is
//!   shared, generic or part of a cycle. What can be described implements
//!   [`RDCType`].
//! * [`targets`] emits the classes of a model, one per entity; for now in
//!   Java, for the Jackson library.
//!
//! [`wire`] states how a value of a tagged union stands on the wire. The
//! emitted serializers and deserializers are written to the same rules.
//!
//! ```text
//! let graph = TypeGraph { defs: vec![/* one definition per type */] };
//! let mut ir = IntermediateRepresentation::new(TypeTarget::Java);
//! if graph.is_well_formed() {
//!     ir.add(&graph, &TypeRef::Custom(0));
//! }
//! let classes = generate_java_code(&ir)?;
//! ```

use crate::codegen::GenerateIR;
use crate::ir::types::TypeRef;
use crate::targets::java::type_resolver::JavaType;
use vstd::prelude::*;

pub mod codegen;
pub mod errors;
pub mod ir;
pub mod targets;
pub mod text;
pub mod wire;

verus! {

/// What code can be generated for: it can be added to a model, and every
/// target has a type expression for it.
pub trait RDCType: GenerateIR + JavaType {
}

impl RDCType for TypeRef {
}

} // verus!
