//! What holds of every collection: each identity is registered once, with one
//! entity, and whatever a registered definition depends on is registered too.

use crate::codegen::{
    depth, lemma_register_all_ids, lemma_unseen_insert, lemma_unseen_monotone, register_all,
    unseen, walk, walk_all,
};
use crate::ir::data::IrView;
use crate::ir::types::{all_within, TypeGraph, TypeRef};
use vstd::prelude::*;

verus! {

/// The identities of `order` are definitions of the graph, none of them in
/// `seen`, and none occurs twice.
pub open spec fn fresh(graph: TypeGraph, seen: Set<u64>, order: Seq<u64>) -> bool {
    &&& order.no_duplicates()
    &&& forall|k: int|
        0 <= k < order.len() ==> !seen.contains(#[trigger] order[k]) && order[k]
            < graph.defs@.len()
}

/// The identities of two runs, one after the other, are those of the first
/// and those of the second.
pub proof fn lemma_to_set_concat(a: Seq<u64>, b: Seq<u64>)
    ensures
        (a + b).to_set() == a.to_set().union(b.to_set()),
{
    assert forall|x: u64| (a + b).to_set().contains(x) == a.to_set().union(b.to_set()).contains(
        x,
    ) by {
        if (a + b).contains(x) {
            let k = choose|k: int| 0 <= k < (a + b).len() && (a + b)[k] == x;
            if k < a.len() {
                assert(a[k] == x);
            } else {
                assert(b[k - a.len()] == x);
            }
        }
        if a.contains(x) {
            let k = choose|k: int| 0 <= k < a.len() && a[k] == x;
            assert((a + b)[k] == x);
        }
        if b.contains(x) {
            let k = choose|k: int| 0 <= k < b.len() && b[k] == x;
            assert((a + b)[a.len() + k] == x);
        }
    }
    assert((a + b).to_set() =~= a.to_set().union(b.to_set()));
}

/// A fresh run followed by a run that is fresh after it is fresh.
proof fn lemma_fresh_concat(graph: TypeGraph, seen: Set<u64>, a: Seq<u64>, b: Seq<u64>)
    requires
        fresh(graph, seen, a),
        fresh(graph, seen.union(a.to_set()), b),
    ensures
        fresh(graph, seen, a + b),
{
    let all = a + b;
    assert forall|i: int, j: int| 0 <= i < all.len() && 0 <= j < all.len() && i != j implies all[i]
        != all[j] by {
        if i < a.len() && j >= a.len() {
            assert(a.contains(a[i]));
            assert(!seen.union(a.to_set()).contains(b[j - a.len()]));
        }
        if j < a.len() && i >= a.len() {
            assert(a.contains(a[j]));
            assert(!seen.union(a.to_set()).contains(b[i - a.len()]));
        }
    }
    assert forall|k: int| 0 <= k < all.len() implies !seen.contains(#[trigger] all[k]) && all[k]
        < graph.defs@.len() by {
        if k >= a.len() {
            assert(!seen.union(a.to_set()).contains(b[k - a.len()]));
        }
    }
}

/// Registering a type registers only definitions of the graph that were not
/// seen before, and none of them twice, however often the type leads to one.
pub proof fn lemma_walk_fresh(graph: TypeGraph, seen: Set<u64>, ty: TypeRef)
    ensures
        fresh(graph, seen, walk(graph, seen, ty)),
    decreases unseen(seen, graph.defs@.len()), 0nat, depth(ty),
{
    match ty {
        TypeRef::List(t) => lemma_walk_fresh(graph, seen, *t),
        TypeRef::Optional(t) => lemma_walk_fresh(graph, seen, *t),
        TypeRef::Boxed(t) => lemma_walk_fresh(graph, seen, *t),
        TypeRef::Mapping(k, v) => {
            let first = walk(graph, seen, *k);
            lemma_walk_fresh(graph, seen, *k);
            lemma_unseen_monotone(seen, seen.union(first.to_set()), graph.defs@.len());
            lemma_walk_fresh(graph, seen.union(first.to_set()), *v);
            lemma_fresh_concat(
                graph,
                seen,
                first,
                walk(graph, seen.union(first.to_set()), *v),
            );
        },
        TypeRef::Custom(i) => {
            if i < graph.defs@.len() && !seen.contains(i as u64) {
                let id = i as u64;
                lemma_unseen_insert(seen, id, graph.defs@.len());
                let rest = walk_all(
                    graph,
                    seen.insert(id),
                    graph.defs@[i as int].dependencies(),
                    0,
                );
                lemma_walk_all_fresh(
                    graph,
                    seen.insert(id),
                    graph.defs@[i as int].dependencies(),
                    0,
                );
                assert(seen.union(seq![id].to_set()) =~= seen.insert(id)) by {
                    assert(seq![id][0] == id);
                }
                lemma_fresh_concat(graph, seen, seq![id], rest);
            }
        },
        _ => {},
    }
}

/// Registering a run of types registers only definitions of the graph that
/// were not seen before, and none of them twice.
pub proof fn lemma_walk_all_fresh(
    graph: TypeGraph,
    seen: Set<u64>,
    types: Seq<TypeRef>,
    from: nat,
)
    ensures
        fresh(graph, seen, walk_all(graph, seen, types, from)),
    decreases unseen(seen, graph.defs@.len()), 1nat, types.len() - from,
{
    if from < types.len() {
        let first = walk(graph, seen, types[from as int]);
        lemma_walk_fresh(graph, seen, types[from as int]);
        lemma_unseen_monotone(seen, seen.union(first.to_set()), graph.defs@.len());
        lemma_walk_all_fresh(graph, seen.union(first.to_set()), types, from + 1);
        lemma_fresh_concat(
            graph,
            seen,
            first,
            walk_all(graph, seen.union(first.to_set()), types, from + 1),
        );
    }
}

/// How many entities a model holds.
pub open spec fn entity_count(ir: IrView) -> nat {
    ir.structs.len() + ir.enums.len() + ir.data_enums.len()
}

/// Registering definitions only appends: what a model held stays where it
/// was, and each registered definition adds one entity.
pub proof fn lemma_register_all_appends(ir: IrView, graph: TypeGraph, order: Seq<u64>)
    ensures
        entity_count(register_all(ir, graph, order)) == entity_count(ir) + order.len(),
        ir.structs.is_prefix_of(register_all(ir, graph, order).structs),
        ir.enums.is_prefix_of(register_all(ir, graph, order).enums),
        ir.data_enums.is_prefix_of(register_all(ir, graph, order).data_enums),
    decreases order.len(),
{
    if order.len() > 0 {
        lemma_register_all_appends(ir, graph, order.drop_last());
    }
}

/// One entity per identity: a model that was empty holds, after a type was
/// registered, as many entities as identities were seen.
pub proof fn lemma_one_entity_per_identity(ir: IrView, graph: TypeGraph, ty: TypeRef)
    requires
        entity_count(ir) == 0,
        ir.type_ids == Set::<u64>::empty(),
    ensures
        register_all(ir, graph, walk(graph, ir.type_ids, ty)).type_ids.finite(),
        entity_count(register_all(ir, graph, walk(graph, ir.type_ids, ty))) == register_all(
            ir,
            graph,
            walk(graph, ir.type_ids, ty),
        ).type_ids.len(),
{
    let order = walk(graph, ir.type_ids, ty);
    lemma_walk_fresh(graph, ir.type_ids, ty);
    lemma_register_all_appends(ir, graph, order);
    lemma_register_all_ids(ir, graph, order);
    assert(ir.type_ids.union(order.to_set()) =~= order.to_set());
    order.unique_seq_to_set();
    vstd::seq_lib::seq_to_set_is_finite(order);
}

/// The type expression `ty` refers to the definition `id`.
pub open spec fn mentions(ty: TypeRef, id: u64) -> bool
    decreases ty,
{
    match ty {
        TypeRef::List(t) => mentions(*t, id),
        TypeRef::Optional(t) => mentions(*t, id),
        TypeRef::Boxed(t) => mentions(*t, id),
        TypeRef::Mapping(k, v) => mentions(*k, id) || mentions(*v, id),
        TypeRef::Custom(i) => i == id,
        _ => false,
    }
}

/// Every definition that `ty` refers to was seen.
pub open spec fn covers(seen: Set<u64>, ty: TypeRef) -> bool {
    forall|id: u64| mentions(ty, id) ==> seen.contains(id)
}

/// Every definition that was seen, but for those of `pending`, depends only
/// on definitions that were seen.
pub open spec fn closed_but(graph: TypeGraph, seen: Set<u64>, pending: Set<u64>) -> bool {
    forall|id: u64, k: int|
        seen.contains(id) && !pending.contains(id) && id < graph.defs@.len() && 0 <= k
            < graph.defs@[id as int].dependencies().len() ==> covers(
            seen,
            #[trigger] graph.defs@[id as int].dependencies()[k],
        )
}

/// Every definition that was seen depends only on definitions that were
/// seen: nothing that can be reached from a seen definition is missing.
pub open spec fn closed(graph: TypeGraph, seen: Set<u64>) -> bool {
    closed_but(graph, seen, Set::empty())
}

/// Registering `ty` sees every definition that `ty` refers to, and leaves
/// only the pending definitions with dependencies that were not seen.
proof fn lemma_walk_closes(graph: TypeGraph, seen: Set<u64>, pending: Set<u64>, ty: TypeRef)
    requires
        graph.wf(),
        ty.within(graph.defs@.len()),
        closed_but(graph, seen, pending),
    ensures
        closed_but(graph, seen.union(walk(graph, seen, ty).to_set()), pending),
        covers(seen.union(walk(graph, seen, ty).to_set()), ty),
    decreases unseen(seen, graph.defs@.len()), 0nat, depth(ty),
{
    match ty {
        TypeRef::List(t) => lemma_walk_closes(graph, seen, pending, *t),
        TypeRef::Optional(t) => lemma_walk_closes(graph, seen, pending, *t),
        TypeRef::Boxed(t) => lemma_walk_closes(graph, seen, pending, *t),
        TypeRef::Mapping(k, v) => {
            let first = walk(graph, seen, *k);
            let middle = seen.union(first.to_set());
            let second = walk(graph, middle, *v);
            lemma_walk_closes(graph, seen, pending, *k);
            lemma_unseen_monotone(seen, middle, graph.defs@.len());
            lemma_walk_closes(graph, middle, pending, *v);
            lemma_to_set_concat(first, second);
            assert(seen.union((first + second).to_set()) =~= middle.union(second.to_set()));
        },
        TypeRef::Custom(i) => {
            let id = i as u64;
            if !seen.contains(id) {
                let deps = graph.defs@[i as int].dependencies();
                let marked = seen.insert(id);
                let rest = walk_all(graph, marked, deps, 0);
                let after = marked.union(rest.to_set());
                lemma_unseen_insert(seen, id, graph.defs@.len());
                assert(closed_but(graph, marked, pending.insert(id))) by {
                    assert forall|other: u64, k: int|
                        marked.contains(other) && !pending.insert(id).contains(other) && other
                            < graph.defs@.len() && 0 <= k
                            < graph.defs@[other as int].dependencies().len() implies covers(
                        marked,
                        #[trigger] graph.defs@[other as int].dependencies()[k],
                    ) by {
                        assert(covers(seen, graph.defs@[other as int].dependencies()[k]));
                    }
                }
                lemma_walk_all_closes(graph, marked, pending.insert(id), deps, 0);
                lemma_to_set_concat(seq![id], rest);
                assert(seq![id].to_set() =~= Set::<u64>::empty().insert(id)) by {
                    assert(seq![id][0] == id);
                }
                assert(seen.union((seq![id] + rest).to_set()) =~= after);
                assert(closed_but(graph, after, pending)) by {
                    assert forall|other: u64, k: int|
                        after.contains(other) && !pending.contains(other) && other
                            < graph.defs@.len() && 0 <= k
                            < graph.defs@[other as int].dependencies().len() implies covers(
                        after,
                        #[trigger] graph.defs@[other as int].dependencies()[k],
                    ) by {
                        if other == id {
                            assert(covers(after, deps[k]));
                        }
                    }
                }
            } else {
                assert(seen.union(Seq::<u64>::empty().to_set()) =~= seen);
            }
        },
        _ => {
            assert(seen.union(Seq::<u64>::empty().to_set()) =~= seen);
        },
    }
}

/// Registering a run of types sees every definition that they refer to, and
/// leaves only the pending definitions with dependencies that were not seen.
proof fn lemma_walk_all_closes(
    graph: TypeGraph,
    seen: Set<u64>,
    pending: Set<u64>,
    types: Seq<TypeRef>,
    from: nat,
)
    requires
        graph.wf(),
        all_within(types, graph.defs@.len()),
        closed_but(graph, seen, pending),
    ensures
        closed_but(graph, seen.union(walk_all(graph, seen, types, from).to_set()), pending),
        forall|k: int|
            from <= k < types.len() ==> covers(
                seen.union(walk_all(graph, seen, types, from).to_set()),
                #[trigger] types[k],
            ),
    decreases unseen(seen, graph.defs@.len()), 1nat, types.len() - from,
{
    if from < types.len() {
        let first = walk(graph, seen, types[from as int]);
        let middle = seen.union(first.to_set());
        let rest = walk_all(graph, middle, types, from + 1);
        lemma_walk_closes(graph, seen, pending, types[from as int]);
        lemma_unseen_monotone(seen, middle, graph.defs@.len());
        lemma_walk_all_closes(graph, middle, pending, types, from + 1);
        lemma_to_set_concat(first, rest);
        assert(seen.union((first + rest).to_set()) =~= middle.union(rest.to_set()));
    } else {
        assert(seen.union(Seq::<u64>::empty().to_set()) =~= seen);
    }
}

/// Nothing reachable is left out: where every seen definition depended only
/// on seen definitions before, registering `ty` sees every definition that
/// `ty` refers to, and again every seen definition depends only on seen ones.
pub proof fn lemma_walk_complete(graph: TypeGraph, seen: Set<u64>, ty: TypeRef)
    requires
        graph.wf(),
        ty.within(graph.defs@.len()),
        closed(graph, seen),
    ensures
        closed(graph, seen.union(walk(graph, seen, ty).to_set())),
        covers(seen.union(walk(graph, seen, ty).to_set()), ty),
{
    lemma_walk_closes(graph, seen, Set::empty(), ty);
}

/// Registered from nothing: after a type was registered in a model that had
/// seen no definition, the definitions that were seen are those that the
/// type refers to and all that these depend on, directly or not.
pub proof fn lemma_walk_complete_from_nothing(graph: TypeGraph, ty: TypeRef)
    requires
        graph.wf(),
        ty.within(graph.defs@.len()),
    ensures
        closed(graph, walk(graph, Set::empty(), ty).to_set()),
        covers(walk(graph, Set::empty(), ty).to_set(), ty),
{
    let seen = Set::<u64>::empty();
    lemma_walk_complete(graph, seen, ty);
    assert(seen.union(walk(graph, seen, ty).to_set()) =~= walk(graph, seen, ty).to_set());
}

/// A type whose definitions were all seen registers nothing.
pub proof fn lemma_walk_covered(graph: TypeGraph, seen: Set<u64>, ty: TypeRef)
    requires
        covers(seen, ty),
    ensures
        walk(graph, seen, ty) == Seq::<u64>::empty(),
    decreases ty,
{
    match ty {
        TypeRef::List(t) => lemma_walk_covered(graph, seen, *t),
        TypeRef::Optional(t) => lemma_walk_covered(graph, seen, *t),
        TypeRef::Boxed(t) => lemma_walk_covered(graph, seen, *t),
        TypeRef::Mapping(k, v) => {
            lemma_walk_covered(graph, seen, *k);
            assert(seen.union(Seq::<u64>::empty().to_set()) =~= seen);
            lemma_walk_covered(graph, seen, *v);
            assert(Seq::<u64>::empty() + Seq::<u64>::empty() =~= Seq::<u64>::empty());
        },
        TypeRef::Custom(i) => {
            assert(mentions(ty, i as u64));
        },
        _ => {},
    }
}

/// Registering a type a second time changes nothing.
pub proof fn lemma_register_twice(ir: IrView, graph: TypeGraph, ty: TypeRef)
    requires
        graph.wf(),
        ty.within(graph.defs@.len()),
    ensures
        ({
            let once = register_all(ir, graph, walk(graph, ir.type_ids, ty));
            register_all(once, graph, walk(graph, once.type_ids, ty)) == once
        }),
{
    let order = walk(graph, ir.type_ids, ty);
    let once = register_all(ir, graph, order);
    lemma_register_all_ids(ir, graph, order);
    lemma_walk_covers(graph, ir.type_ids, ty);
    lemma_walk_covered(graph, once.type_ids, ty);
}

/// Registering `ty` sees every definition that `ty` refers to.
pub proof fn lemma_walk_covers(graph: TypeGraph, seen: Set<u64>, ty: TypeRef)
    requires
        ty.within(graph.defs@.len()),
    ensures
        covers(seen.union(walk(graph, seen, ty).to_set()), ty),
    decreases ty,
{
    match ty {
        TypeRef::List(t) => lemma_walk_covers(graph, seen, *t),
        TypeRef::Optional(t) => lemma_walk_covers(graph, seen, *t),
        TypeRef::Boxed(t) => lemma_walk_covers(graph, seen, *t),
        TypeRef::Mapping(k, v) => {
            let first = walk(graph, seen, *k);
            let middle = seen.union(first.to_set());
            let second = walk(graph, middle, *v);
            lemma_walk_covers(graph, seen, *k);
            lemma_walk_covers(graph, middle, *v);
            lemma_to_set_concat(first, second);
            assert(seen.union((first + second).to_set()) =~= middle.union(second.to_set()));
        },
        TypeRef::Custom(i) => {
            let id = i as u64;
            if !seen.contains(id) {
                let rest = walk_all(
                    graph,
                    seen.insert(id),
                    graph.defs@[i as int].dependencies(),
                    0,
                );
                assert((seq![id] + rest)[0] == id);
                assert((seq![id] + rest).contains(id));
            }
        },
        _ => {},
    }
}

} // verus!
