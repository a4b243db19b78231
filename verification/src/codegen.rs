//! Collecting a model: every type that a requested type depends on is
//! registered, each identity once, however often and along whatever cycle it
//! is reached.

use crate::ir::data::{
    object_field_views, type_views, DataEnum, DataEnumObjectField, DataEnumStyle,
    DataEnumVariant, DataEnumVariantView, DataEnumView, Enum, EnumVariant, EnumVariantView,
    EnumView, Field, FieldView, IntermediateRepresentation, IrView, Struct, StructView, Type,
};
use crate::ir::name::{camel_to_snake, Name};
use crate::ir::types::{
    all_within, field_types, payload_types, variant_types, DataVariantDef, FieldDef, PayloadDef,
    TypeDef, TypeGraph, TypeRef, TypeShape, TypeTarget, VariantDef,
};
use crate::targets::java::type_resolver::java_type_name;
use crate::RDCType;
use vstd::prelude::*;

pub mod laws;

verus! {

/// How many of the first `n` identities are not in `seen`.
pub open spec fn unseen(seen: Set<u64>, n: nat) -> nat
    decreases n,
{
    if n == 0 {
        0
    } else {
        unseen(seen, (n - 1) as nat) + if seen.contains((n - 1) as u64) {
            0nat
        } else {
            1nat
        }
    }
}

/// Seeing more leaves no more unseen.
pub proof fn lemma_unseen_monotone(seen: Set<u64>, more: Set<u64>, n: nat)
    requires
        seen.subset_of(more),
    ensures
        unseen(more, n) <= unseen(seen, n),
    decreases n,
{
    if n > 0 {
        lemma_unseen_monotone(seen, more, (n - 1) as nat);
    }
}

/// Seeing one of the first `n` identities for the first time leaves one less
/// unseen.
pub proof fn lemma_unseen_insert(seen: Set<u64>, id: u64, n: nat)
    requires
        id < n,
        !seen.contains(id),
    ensures
        unseen(seen.insert(id), n) < unseen(seen, n),
    decreases n,
{
    if n > 0 {
        if id == n - 1 {
            lemma_unseen_monotone(seen, seen.insert(id), (n - 1) as nat);
        } else {
            lemma_unseen_insert(seen, id, (n - 1) as nat);
        }
    }
}

/// How deep the type expression `ty` is nested.
pub open spec fn depth(ty: TypeRef) -> nat
    decreases ty,
{
    match ty {
        TypeRef::List(t) => 1 + depth(*t),
        TypeRef::Optional(t) => 1 + depth(*t),
        TypeRef::Boxed(t) => 1 + depth(*t),
        TypeRef::Mapping(k, v) => 1 + depth(*k) + depth(*v),
        _ => 0,
    }
}

/// The identities that registering `ty` adds to `seen`, in the order in which
/// they are registered: a definition is registered when it is first met, and
/// before the types it depends on are looked at.
pub open spec fn walk(graph: TypeGraph, seen: Set<u64>, ty: TypeRef) -> Seq<u64>
    decreases unseen(seen, graph.defs@.len()), 0nat, depth(ty),
{
    match ty {
        TypeRef::List(t) => walk(graph, seen, *t),
        TypeRef::Optional(t) => walk(graph, seen, *t),
        TypeRef::Boxed(t) => walk(graph, seen, *t),
        TypeRef::Mapping(k, v) => {
            let first = walk(graph, seen, *k);
            proof {
                lemma_unseen_monotone(seen, seen.union(first.to_set()), graph.defs@.len());
            }
            first + walk(graph, seen.union(first.to_set()), *v)
        },
        TypeRef::Custom(i) => {
            if i < graph.defs@.len() && !seen.contains(i as u64) {
                proof {
                    lemma_unseen_insert(seen, i as u64, graph.defs@.len());
                }
                seq![i as u64] + walk_all(
                    graph,
                    seen.insert(i as u64),
                    graph.defs@[i as int].dependencies(),
                    0,
                )
            } else {
                Seq::empty()
            }
        },
        _ => Seq::empty(),
    }
}

/// The identities that registering the types of `types` from position `from`
/// on, one after another, adds to `seen`.
pub open spec fn walk_all(graph: TypeGraph, seen: Set<u64>, types: Seq<TypeRef>, from: nat) -> Seq<
    u64,
>
    decreases unseen(seen, graph.defs@.len()), 1nat, types.len() - from,
{
    if from >= types.len() {
        Seq::empty()
    } else {
        let first = walk(graph, seen, types[from as int]);
        proof {
            lemma_unseen_monotone(seen, seen.union(first.to_set()), graph.defs@.len());
        }
        first + walk_all(graph, seen.union(first.to_set()), types, from + 1)
    }
}

/// The field of a model that stands for the described field `f`.
pub open spec fn field_view(graph: TypeGraph, f: FieldDef) -> FieldView {
    FieldView { name: f.name@, json_name: f.json_name@, field_type: java_type_name(graph, f.ty) }
}

/// The fields of a model that stand for the described fields.
pub open spec fn field_entity_views(graph: TypeGraph, fields: Seq<FieldDef>) -> Seq<FieldView> {
    Seq::new(fields.len(), |i: int| field_view(graph, fields[i]))
}

/// The names of the types of a run of payload slots.
pub open spec fn slot_views(graph: TypeGraph, slots: Seq<TypeRef>) -> Seq<Seq<char>> {
    Seq::new(slots.len(), |i: int| java_type_name(graph, slots[i]))
}

/// The variant of a model that stands for the described plain variant `v`.
pub open spec fn variant_view(v: VariantDef) -> EnumVariantView {
    EnumVariantView { name: camel_to_snake(v.name@), json_name: v.json_name@ }
}

/// The variant of a model that stands for the described variant `v` of a
/// tagged union.
pub open spec fn data_variant_view(graph: TypeGraph, v: DataVariantDef) -> DataEnumVariantView {
    match v.payload {
        PayloadDef::Unit => DataEnumVariantView::Unit {
            name: camel_to_snake(v.name@),
            json_name: v.json_name@,
        },
        PayloadDef::Object(fields) => DataEnumVariantView::Object {
            name: camel_to_snake(v.name@),
            json_name: v.json_name@,
            fields: field_entity_views(graph, fields@),
        },
        PayloadDef::Tuple(slots) => DataEnumVariantView::Tuple {
            name: camel_to_snake(v.name@),
            json_name: v.json_name@,
            fields: slot_views(graph, slots@),
        },
    }
}

/// The struct of a model that stands for a definition with these fields.
pub open spec fn struct_entity(graph: TypeGraph, name: Seq<char>, fields: Seq<FieldDef>)
    -> StructView {
    StructView {
        name: camel_to_snake(name),
        self_type: name,
        fields: field_entity_views(graph, fields),
    }
}

/// The enum of a model that stands for a definition with these variants.
pub open spec fn enum_entity(name: Seq<char>, variants: Seq<VariantDef>) -> EnumView {
    EnumView {
        name: camel_to_snake(name),
        self_type: name,
        variants: Seq::new(variants.len(), |i: int| variant_view(variants[i])),
    }
}

/// The tagged union of a model that stands for a definition with these
/// variants.
pub open spec fn data_enum_entity(
    graph: TypeGraph,
    name: Seq<char>,
    variants: Seq<DataVariantDef>,
) -> DataEnumView {
    DataEnumView {
        name: camel_to_snake(name),
        self_type: name,
        style: DataEnumStyle::External,
        variants: Seq::new(variants.len(), |i: int| data_variant_view(graph, variants[i])),
    }
}

/// The model after the definition `id` of the graph was registered: its
/// identity is seen, and its entity is the last of its kind.
pub open spec fn register(ir: IrView, graph: TypeGraph, id: u64) -> IrView {
    let def = graph.defs@[id as int];
    let marked = IrView { type_ids: ir.type_ids.insert(id), ..ir };
    match def.shape {
        TypeShape::Struct(fields) => IrView {
            structs: ir.structs.push(struct_entity(graph, def.name@, fields@)),
            ..marked
        },
        TypeShape::Enum(variants) => IrView {
            enums: ir.enums.push(enum_entity(def.name@, variants@)),
            ..marked
        },
        TypeShape::DataEnum(variants) => IrView {
            data_enums: ir.data_enums.push(data_enum_entity(graph, def.name@, variants@)),
            ..marked
        },
    }
}

/// The model after the definitions of `order` were registered, in order.
pub open spec fn register_all(ir: IrView, graph: TypeGraph, order: Seq<u64>) -> IrView
    decreases order.len(),
{
    if order.len() == 0 {
        ir
    } else {
        register(register_all(ir, graph, order.drop_last()), graph, order.last())
    }
}

/// Registering one run of definitions and then another is registering the
/// two runs as one.
pub proof fn lemma_register_all_concat(ir: IrView, graph: TypeGraph, a: Seq<u64>, b: Seq<u64>)
    ensures
        register_all(ir, graph, a + b) == register_all(register_all(ir, graph, a), graph, b),
    decreases b.len(),
{
    if b.len() == 0 {
        assert(a + b =~= a);
    } else {
        assert((a + b).drop_last() =~= a + b.drop_last());
        lemma_register_all_concat(ir, graph, a, b.drop_last());
    }
}

/// Registering definitions marks exactly their identities as seen.
pub proof fn lemma_register_all_ids(ir: IrView, graph: TypeGraph, order: Seq<u64>)
    ensures
        register_all(ir, graph, order).type_ids == ir.type_ids.union(order.to_set()),
        register_all(ir, graph, order).target == ir.target,
    decreases order.len(),
{
    if order.len() == 0 {
        assert(ir.type_ids.union(order.to_set()) =~= ir.type_ids);
    } else {
        let front = order.drop_last();
        lemma_register_all_ids(ir, graph, front);
        assert forall|x: u64|
            ir.type_ids.union(front.to_set()).insert(order.last()).contains(x)
                == ir.type_ids.union(order.to_set()).contains(x) by {
            if front.contains(x) {
                let k = choose|k: int| 0 <= k < front.len() && front[k] == x;
                assert(order[k] == x);
            }
            if order.contains(x) {
                let k = choose|k: int| 0 <= k < order.len() && order[k] == x;
                if k < front.len() {
                    assert(front[k] == x);
                }
            }
            assert(order[order.len() - 1] == order.last());
        }
        assert(ir.type_ids.union(front.to_set()).insert(order.last()) =~= ir.type_ids.union(
            order.to_set(),
        ));
    }
}

/// The types of all payloads stay within the first `n` definitions exactly
/// when the types of each payload do.
pub proof fn lemma_variant_types_within(variants: Seq<DataVariantDef>, n: nat)
    ensures
        all_within(variant_types(variants), n) <==> forall|j: int|
            0 <= j < variants.len() ==> all_within(
                payload_types((#[trigger] variants[j]).payload),
                n,
            ),
    decreases variants.len(),
{
    if variants.len() > 0 {
        let front = variants.drop_last();
        let last = payload_types(variants.last().payload);
        lemma_variant_types_within(front, n);
        let all = variant_types(variants);
        assert(all == variant_types(front) + last);
        if all_within(all, n) {
            assert forall|j: int| 0 <= j < variants.len() implies all_within(
                payload_types((#[trigger] variants[j]).payload),
                n,
            ) by {
                if j < front.len() {
                    assert forall|k: int| 0 <= k < variant_types(front).len() implies (
                    #[trigger] variant_types(front)[k]).within(n) by {
                        assert(all[k] == variant_types(front)[k]);
                    }
                    assert(front[j] == variants[j]);
                } else {
                    assert forall|k: int| 0 <= k < last.len() implies (#[trigger] last[k]).within(
                        n,
                    ) by {
                        assert(all[variant_types(front).len() + k] == last[k]);
                    }
                }
            }
        }
        if forall|j: int|
            0 <= j < variants.len() ==> all_within(
                payload_types((#[trigger] variants[j]).payload),
                n,
            ) {
            assert forall|j: int| 0 <= j < front.len() implies all_within(
                payload_types((#[trigger] front[j]).payload),
                n,
            ) by {
                assert(front[j] == variants[j]);
            }
            assert(all_within(last, n)) by {
                assert(variants[variants.len() - 1] == variants.last());
            }
            assert forall|k: int| 0 <= k < all.len() implies (#[trigger] all[k]).within(n) by {
                if k < variant_types(front).len() {
                    assert(all[k] == variant_types(front)[k]);
                } else {
                    assert(all[k] == last[k - variant_types(front).len()]);
                }
            }
        }
    }
}

/// The values behind a run of references.
pub open spec fn referents(refs: Seq<&TypeRef>) -> Seq<TypeRef> {
    refs.map_values(|r: &TypeRef| *r)
}

/// The field of a model for the described field `f`.
fn field_of(target: TypeTarget, graph: &TypeGraph, f: &FieldDef) -> (field: Field)
    requires
        f.ty.within(graph.defs@.len()),
    ensures
        field@ == field_view(*graph, *f),
{
    Field::new(
        Name::from_snake_case(f.name.as_str()),
        f.json_name.as_str(),
        target.resolve_type(graph, &f.ty),
    )
}

/// The struct of a model for the definition `def`, which has these fields.
pub fn struct_of(
    target: TypeTarget,
    graph: &TypeGraph,
    def: &TypeDef,
    fields: &Vec<FieldDef>,
) -> (s: Struct)
    requires
        all_within(field_types(fields@), graph.defs@.len()),
    ensures
        s@ == struct_entity(*graph, def.name@, fields@),
{
    let mut s = Struct::new(
        Name::from_pascal_case(def.name.as_str()),
        target.resolve_custom_type(def),
    );
    let mut i: usize = 0;
    while i < fields.len()
        invariant
            i <= fields.len(),
            all_within(field_types(fields@), graph.defs@.len()),
            s@.name == camel_to_snake(def.name@),
            s@.self_type == def.name@,
            s@.fields.len() == i,
            forall|k: int| 0 <= k < i ==> s@.fields[k] == field_view(*graph, fields@[k]),
        decreases fields.len() - i,
    {
        assert(field_types(fields@)[i as int] == fields@[i as int].ty);
        s.add_field(field_of(target, graph, &fields[i]));
        i += 1;
    }
    assert(s@.fields =~= field_entity_views(*graph, fields@));
    s
}

/// The enum of a model for the definition `def`, which has these variants.
pub fn enum_of(target: TypeTarget, def: &TypeDef, variants: &Vec<VariantDef>) -> (e: Enum)
    ensures
        e@ == enum_entity(def.name@, variants@),
{
    let mut e = Enum::new(
        Name::from_pascal_case(def.name.as_str()),
        target.resolve_custom_type(def),
    );
    let mut i: usize = 0;
    while i < variants.len()
        invariant
            i <= variants.len(),
            e@.name == camel_to_snake(def.name@),
            e@.self_type == def.name@,
            e@.variants.len() == i,
            forall|k: int| 0 <= k < i ==> e@.variants[k] == variant_view(variants@[k]),
        decreases variants.len() - i,
    {
        let v = &variants[i];
        e.add_variant(
            EnumVariant::new(Name::from_pascal_case(v.name.as_str()), v.json_name.as_str()),
        );
        i += 1;
    }
    assert(e@.variants =~= Seq::new(variants@.len(), |i: int| variant_view(variants@[i])));
    e
}

/// The payload fields of a model for the described fields.
fn object_fields_of(target: TypeTarget, graph: &TypeGraph, fields: &Vec<FieldDef>) -> (r: Vec<
    DataEnumObjectField,
>)
    requires
        all_within(field_types(fields@), graph.defs@.len()),
    ensures
        object_field_views(r@) == field_entity_views(*graph, fields@),
{
    let mut r: Vec<DataEnumObjectField> = Vec::new();
    let mut i: usize = 0;
    while i < fields.len()
        invariant
            i <= fields.len(),
            all_within(field_types(fields@), graph.defs@.len()),
            r@.len() == i,
            forall|k: int| 0 <= k < i ==> (#[trigger] r@[k])@ == field_view(*graph, fields@[k]),
        decreases fields.len() - i,
    {
        let f = &fields[i];
        assert(field_types(fields@)[i as int] == fields@[i as int].ty);
        r.push(
            DataEnumObjectField::new(
                Name::from_snake_case(f.name.as_str()),
                f.json_name.clone(),
                target.resolve_type(graph, &f.ty),
            ),
        );
        i += 1;
    }
    assert(object_field_views(r@) =~= field_entity_views(*graph, fields@));
    r
}

/// The payload slots of a model for the described slots.
fn slots_of(target: TypeTarget, graph: &TypeGraph, slots: &Vec<TypeRef>) -> (r: Vec<Type>)
    requires
        all_within(slots@, graph.defs@.len()),
    ensures
        type_views(r@) == slot_views(*graph, slots@),
{
    let mut r: Vec<Type> = Vec::new();
    let mut i: usize = 0;
    while i < slots.len()
        invariant
            i <= slots.len(),
            all_within(slots@, graph.defs@.len()),
            r@.len() == i,
            forall|k: int| 0 <= k < i ==> (#[trigger] r@[k])@ == java_type_name(*graph, slots@[k]),
        decreases slots.len() - i,
    {
        r.push(target.resolve_type(graph, &slots[i]));
        i += 1;
    }
    assert(type_views(r@) =~= slot_views(*graph, slots@));
    r
}

/// The variant of a model for the described variant `v`.
fn data_variant_of(target: TypeTarget, graph: &TypeGraph, v: &DataVariantDef) -> (variant:
    DataEnumVariant)
    requires
        all_within(payload_types(v.payload), graph.defs@.len()),
    ensures
        variant@ == data_variant_view(*graph, *v),
{
    let name = Name::from_pascal_case(v.name.as_str());
    let json_name = v.json_name.clone();
    match &v.payload {
        PayloadDef::Unit => DataEnumVariant::unit(name, json_name),
        PayloadDef::Object(fields) => DataEnumVariant::object(
            name,
            json_name,
            object_fields_of(target, graph, fields),
        ),
        PayloadDef::Tuple(slots) => DataEnumVariant::tuple(
            name,
            json_name,
            slots_of(target, graph, slots),
        ),
    }
}

/// The tagged union of a model for the definition `def`, which has these
/// variants.
pub fn data_enum_of(
    target: TypeTarget,
    graph: &TypeGraph,
    def: &TypeDef,
    variants: &Vec<DataVariantDef>,
) -> (de: DataEnum)
    requires
        all_within(variant_types(variants@), graph.defs@.len()),
    ensures
        de@ == data_enum_entity(*graph, def.name@, variants@),
{
    let mut de = DataEnum::new(
        Name::from_pascal_case(def.name.as_str()),
        target.resolve_custom_type(def),
        DataEnumStyle::External,
    );
    proof {
        lemma_variant_types_within(variants@, graph.defs@.len());
    }
    let mut i: usize = 0;
    while i < variants.len()
        invariant
            i <= variants.len(),
            forall|j: int|
                0 <= j < variants@.len() ==> all_within(
                    payload_types((#[trigger] variants@[j]).payload),
                    graph.defs@.len(),
                ),
            de@.name == camel_to_snake(def.name@),
            de@.self_type == def.name@,
            de@.style == DataEnumStyle::External,
            de@.variants.len() == i,
            forall|k: int|
                0 <= k < i ==> de@.variants[k] == data_variant_view(*graph, variants@[k]),
        decreases variants.len() - i,
    {
        de.add_variant(data_variant_of(target, graph, &variants[i]));
        i += 1;
    }
    assert(de@.variants =~= Seq::new(
        variants@.len(),
        |i: int| data_variant_view(*graph, variants@[i]),
    ));
    de
}

/// The types that `def` depends on directly, in declaration order.
pub fn dependencies_of(def: &TypeDef) -> (deps: Vec<&TypeRef>)
    ensures
        referents(deps@) == def.dependencies(),
{
    let mut deps: Vec<&TypeRef> = Vec::new();
    match &def.shape {
        TypeShape::Struct(fields) => {
            let mut i: usize = 0;
            while i < fields.len()
                invariant
                    i <= fields.len(),
                    deps@.len() == i,
                    forall|k: int| 0 <= k < i ==> *(#[trigger] deps@[k]) == fields@[k].ty,
                decreases fields.len() - i,
            {
                deps.push(&fields[i].ty);
                i += 1;
            }
            assert(referents(deps@) =~= field_types(fields@));
        },
        TypeShape::Enum(_) => {
            assert(referents(deps@) =~= Seq::empty());
        },
        TypeShape::DataEnum(variants) => {
            let mut j: usize = 0;
            assert(variants@.take(0) =~= Seq::empty());
            assert(referents(deps@) =~= Seq::empty());
            while j < variants.len()
                invariant
                    j <= variants.len(),
                    referents(deps@) == variant_types(variants@.take(j as int)),
                decreases variants.len() - j,
            {
                let ghost before = referents(deps@);
                proof {
                    assert(variants@.take(j + 1).drop_last() =~= variants@.take(j as int));
                    assert(variants@.take(j + 1).last() == variants@[j as int]);
                }
                match &variants[j].payload {
                    PayloadDef::Unit => {
                        assert(before + Seq::<TypeRef>::empty() =~= before);
                    },
                    PayloadDef::Object(fields) => {
                        let mut i: usize = 0;
                        assert(field_types(fields@).take(0) =~= Seq::<TypeRef>::empty());
                        assert(before + Seq::<TypeRef>::empty() =~= before);
                        while i < fields.len()
                            invariant
                                i <= fields.len(),
                                referents(deps@) == before + field_types(fields@).take(i as int),
                            decreases fields.len() - i,
                        {
                            let ghost old_deps = deps@;
                            deps.push(&fields[i].ty);
                            assert(referents(deps@) =~= referents(old_deps).push(
                                fields@[i as int].ty,
                            ));
                            assert(before + field_types(fields@).take(i + 1) =~= (before
                                + field_types(fields@).take(i as int)).push(fields@[i as int].ty));
                            i += 1;
                        }
                        assert(field_types(fields@).take(i as int) =~= field_types(fields@));
                    },
                    PayloadDef::Tuple(slots) => {
                        let mut i: usize = 0;
                        assert(slots@.take(0) =~= Seq::<TypeRef>::empty());
                        assert(before + Seq::<TypeRef>::empty() =~= before);
                        while i < slots.len()
                            invariant
                                i <= slots.len(),
                                referents(deps@) == before + slots@.take(i as int),
                            decreases slots.len() - i,
                        {
                            let ghost old_deps = deps@;
                            deps.push(&slots[i]);
                            assert(referents(deps@) =~= referents(old_deps).push(slots@[i as int]));
                            assert(before + slots@.take(i + 1) =~= (before + slots@.take(
                                i as int,
                            )).push(slots@[i as int]));
                            i += 1;
                        }
                        assert(slots@.take(i as int) =~= slots@);
                    },
                }
                j += 1;
            }
            assert(variants@.take(j as int) =~= variants@);
        },
    }
    deps
}

/// What can be added to a model: a description of a type, which stands for
/// the type and for everything it depends on.
pub trait GenerateIR {
    /// The description can be read: what it refers to is described in
    /// `graph`, and so is what that depends on.
    spec fn described_in(&self, graph: TypeGraph) -> bool;

    /// The model after the described type was added to `ir`.
    spec fn registered(&self, graph: TypeGraph, ir: IrView) -> IrView;

    /// Adds the structs, enums and tagged unions that the described type
    /// needs to `ir`, but for those that `ir` has seen.
    fn add_to_ir(&self, graph: &TypeGraph, ir: &mut IntermediateRepresentation)
        requires
            self.described_in(*graph),
        ensures
            final(ir)@ == self.registered(*graph, old(ir)@),
    ;
}

impl GenerateIR for TypeRef {
    open spec fn described_in(&self, graph: TypeGraph) -> bool {
        graph.wf() && self.within(graph.defs@.len())
    }

    open spec fn registered(&self, graph: TypeGraph, ir: IrView) -> IrView {
        register_all(ir, graph, walk(graph, ir.type_ids, *self))
    }

    fn add_to_ir(&self, graph: &TypeGraph, ir: &mut IntermediateRepresentation) {
        ir.collect(graph, self)
    }
}

impl TypeGraph {
    /// Whether every reference in the graph leads to a definition of the
    /// graph.
    pub fn is_well_formed(&self) -> (r: bool)
        ensures
            r == self.wf(),
    {
        let n = self.defs.len();
        let mut i: usize = 0;
        while i < n
            invariant
                i <= n,
                n == self.defs@.len(),
                forall|k: int|
                    0 <= k < i ==> all_within((#[trigger] self.defs@[k]).dependencies(), n as nat),
            decreases n - i,
        {
            let deps = dependencies_of(&self.defs[i]);
            let mut j: usize = 0;
            while j < deps.len()
                invariant
                    j <= deps.len(),
                    i < n,
                    n == self.defs@.len(),
                    referents(deps@) == self.defs@[i as int].dependencies(),
                    forall|k: int| 0 <= k < j ==> (#[trigger] referents(deps@)[k]).within(n as nat),
                decreases deps.len() - j,
            {
                assert(referents(deps@)[j as int] == *deps@[j as int]);
                if !deps[j].is_within(n) {
                    assert(!all_within(self.defs@[i as int].dependencies(), n as nat));
                    return false;
                }
                j += 1;
            }
            i += 1;
        }
        true
    }
}

impl IntermediateRepresentation {
    /// Registers what `ty` describes: see [`GenerateIR::add_to_ir`], which
    /// says for each kind of description what that is.
    pub fn add<T: RDCType>(&mut self, graph: &TypeGraph, ty: &T)
        requires
            ty.described_in(*graph),
        ensures
            final(self)@ == ty.registered(*graph, old(self)@),
    {
        ty.add_to_ir(graph, self)
    }

    /// Registers `ty` and, through the types that definitions depend on,
    /// every definition it leads to. A definition whose identity was seen is
    /// passed over, so each is registered once and a cycle ends where it
    /// closes. Containers register what they hold; primitive types register
    /// nothing.
    pub fn collect(&mut self, graph: &TypeGraph, ty: &TypeRef)
        requires
            graph.wf(),
            ty.within(graph.defs@.len()),
        ensures
            final(self)@ == register_all(
                old(self)@,
                *graph,
                walk(*graph, old(self)@.type_ids, *ty),
            ),
        decreases unseen(old(self)@.type_ids, graph.defs@.len()), 0nat, depth(*ty),
    {
        match ty {
            TypeRef::List(t) => self.collect(graph, t),
            TypeRef::Optional(t) => self.collect(graph, t),
            TypeRef::Boxed(t) => self.collect(graph, t),
            TypeRef::Mapping(k, v) => {
                let ghost first = walk(*graph, old(self)@.type_ids, **k);
                self.collect(graph, k);
                proof {
                    lemma_register_all_ids(old(self)@, *graph, first);
                    lemma_unseen_monotone(
                        old(self)@.type_ids,
                        self@.type_ids,
                        graph.defs@.len(),
                    );
                    lemma_register_all_concat(
                        old(self)@,
                        *graph,
                        first,
                        walk(*graph, self@.type_ids, **v),
                    );
                }
                self.collect(graph, v);
            },
            TypeRef::Custom(i) => {
                let id = *i as u64;
                if !self.has_type_id(id) {
                    let target = *self.target();
                    let def = &graph.defs[*i];
                    self.add_type_id(id);
                    match &def.shape {
                        TypeShape::Struct(fields) => {
                            self.add_struct(struct_of(target, graph, def, fields));
                        },
                        TypeShape::Enum(variants) => {
                            self.add_enum(enum_of(target, def, variants));
                        },
                        TypeShape::DataEnum(variants) => {
                            self.add_data_enum(data_enum_of(target, graph, def, variants));
                        },
                    }
                    let deps = dependencies_of(def);
                    proof {
                        assert(self@ == register(old(self)@, *graph, id));
                        assert(seq![id].drop_last() =~= Seq::<u64>::empty());
                        assert(seq![id].last() == id);
                        assert(register_all(old(self)@, *graph, Seq::<u64>::empty()) == old(self)@);
                        assert(register_all(old(self)@, *graph, seq![id]) == self@);
                        lemma_unseen_insert(old(self)@.type_ids, id, graph.defs@.len());
                        lemma_register_all_concat(
                            old(self)@,
                            *graph,
                            seq![id],
                            walk_all(*graph, self@.type_ids, def.dependencies(), 0),
                        );
                    }
                    self.collect_all(graph, &deps, 0);
                }
            },
            _ => {},
        }
    }

    /// Registers the types of `types` from position `from` on, one after
    /// another.
    fn collect_all(&mut self, graph: &TypeGraph, types: &Vec<&TypeRef>, from: usize)
        requires
            graph.wf(),
            all_within(referents(types@), graph.defs@.len()),
        ensures
            final(self)@ == register_all(
                old(self)@,
                *graph,
                walk_all(*graph, old(self)@.type_ids, referents(types@), from as nat),
            ),
        decreases unseen(old(self)@.type_ids, graph.defs@.len()), 1nat, types.len() - from,
    {
        if from < types.len() {
            let ghost first = walk(*graph, old(self)@.type_ids, *types@[from as int]);
            assert(referents(types@)[from as int] == *types@[from as int]);
            self.collect(graph, types[from]);
            proof {
                lemma_register_all_ids(old(self)@, *graph, first);
                lemma_unseen_monotone(old(self)@.type_ids, self@.type_ids, graph.defs@.len());
                lemma_register_all_concat(
                    old(self)@,
                    *graph,
                    first,
                    walk_all(*graph, self@.type_ids, referents(types@), (from + 1) as nat),
                );
            }
            self.collect_all(graph, types, from + 1);
        }
    }
}

} // verus!
