use vstd::prelude::*;
use crate::object::{fn_lookup, fresh_slots, prototype, Callback, Invocation, Object};
use crate::util::Generic;
use crate::object;
use crate::runtime::Runtime;
use crate::memory::{is_zero_page, is_zero_stack, Heap, Page, Stack};

verus! {

/// The function of generic prototypes: hands its argument back.
pub fn generic_proto_cb(x: Option<usize>) -> (r: Generic)
    ensures
        r == Ok::<Option<usize>, &'static str>(x),
{
    Ok(x)
}

/// `x` names an existing list object whose slot 2 leads to a function, and
/// the runtime has a root prototype.
pub open spec fn list_call_ready(rt: Runtime, x: Option<usize>) -> bool {
    &&& x is Some
    &&& x->0 < rt.objects@.len()
    &&& fn_lookup(rt.objects@[x->0 as int].slots(), rt.calls@, 2) is Ok
    &&& rt.protos.proto_root is Some
}

/// What a list function does: wraps slot 3 of the list in a new object and
/// goes on with the function that slot 2 of the list leads to.
pub open spec fn list_call_post(pre: Runtime, post: Runtime, x: Option<usize>, r: Invocation) -> bool {
    let list = pre.objects@[x->0 as int].slots();
    &&& r == Invocation::Then(fn_lookup(list, pre.calls@, 2)->Ok_0, Some(pre.objects@.len() as usize))
    &&& post.table() == pre.table().push(
        fresh_slots(pre.protos.proto_root->0, pre.calls@.len() as usize).update(2, list[3]),
    )
    &&& post.calls@ == pre.calls@.push(Callback::ProtoCall)
    &&& post.same_registry(&pre)
}

/// List indexing: calls the list's getter (slot 2) on its index (slot 3).
pub fn list_proto_index(rt: &mut Runtime, x: Option<usize>) -> (r: Invocation)
    requires
        list_call_ready(*old(rt), x),
    ensures
        list_call_post(*old(rt), *final(rt), x, r),
        r == Invocation::Then(
            fn_lookup(old(rt).objects@[x->0 as int].slots(), old(rt).calls@, 2)->Ok_0,
            Some(old(rt).objects@.len() as usize),
        ),
{
    list_step(rt, x)
}

/// List index assignment: calls the list's setter (slot 2) on its index (slot 3).
pub fn list_proto_index_set(rt: &mut Runtime, x: Option<usize>) -> (r: Invocation)
    requires
        list_call_ready(*old(rt), x),
    ensures
        list_call_post(*old(rt), *final(rt), x, r),
        r == Invocation::Then(
            fn_lookup(old(rt).objects@[x->0 as int].slots(), old(rt).calls@, 2)->Ok_0,
            Some(old(rt).objects@.len() as usize),
        ),
{
    list_step(rt, x)
}

fn list_step(rt: &mut Runtime, x: Option<usize>) -> (r: Invocation)
    requires
        list_call_ready(*old(rt), x),
    ensures
        list_call_post(*old(rt), *final(rt), x, r),
        r == Invocation::Then(
            fn_lookup(old(rt).objects@[x->0 as int].slots(), old(rt).calls@, 2)->Ok_0,
            Some(old(rt).objects@.len() as usize),
        ),
{
    let h = x.unwrap();
    let f = match rt.objects[h].get_fn(&rt.calls, 2) {
        Ok(g) => g,
        Err(_) => {
            assert(false);
            Callback::ProtoCall
        },
    };
    let index = match rt.objects[h].get_usize(3) {
        Ok(v) => v,
        Err(_) => {
            assert(false);
            0
        },
    };
    let w = Object::wrap(rt, index);
    Invocation::Then(f, Some(w))
}

/// A list function called on an existing list object `l` (with a root
/// prototype to make the new object from) can be taken exactly when slot 2
/// of `l` leads to a function `g`, and then it goes on with `g` (not with the
/// list's own function of slot 1), on the new object, which wraps slot 3 of
/// `l`.
pub proof fn law_list_call_uses_slot_two(pre: Runtime, post: Runtime, l: usize, r: Invocation)
    requires
        l < pre.objects@.len(),
        pre.protos.proto_root is Some,
    ensures
        list_call_ready(pre, Some(l)) <==> fn_lookup(pre.objects@[l as int].slots(), pre.calls@, 2) is Ok,
        forall|g: Callback|
            fn_lookup(pre.objects@[l as int].slots(), pre.calls@, 2) == Ok::<Callback, &'static str>(g)
                && list_call_post(pre, post, Some(l), r) ==> {
                &&& r == Invocation::Then(g, Some(pre.objects@.len() as usize))
                &&& post.table().last() == fresh_slots(pre.protos.proto_root->0, pre.calls@.len() as usize).update(
                    2,
                    pre.objects@[l as int].slots()[3],
                )
            },
{
}

/// The slots of a prototype built by `build_proto` on `proto`, when the call
/// table held `c` functions.
pub open spec fn built_slots(proto: usize, c: usize) -> Seq<usize> {
    seq![proto, (c + 1) as usize, (c + 2) as usize, 0usize]
}

/// The functions that `build_proto` appends to the call table for `cb`.
pub open spec fn built_calls(cb: Callback) -> Seq<Callback> {
    seq![Callback::ProtoCall, cb, Callback::GenericProto]
}

/// Builds a prototype whose own prototype is `proto`, whose function is `cb`
/// and whose slot 2 leads to `Callback::GenericProto`, keeps it in the pool,
/// and returns its handle.
pub fn build_proto(rt: &mut Runtime, proto: usize, cb: Callback) -> (r: Option<usize>)
    requires
        old(rt).protos.proto_root is Some,
    ensures
        r == Some(old(rt).objects@.len() as usize),
        final(rt).objects@.len() == old(rt).objects@.len() + 1,
        final(rt).table() == old(rt).table().push(built_slots(proto, old(rt).calls@.len() as usize)),
        final(rt).calls@ == old(rt).calls@ + built_calls(cb),
        final(rt).protos.pool@ == old(rt).protos.pool@.push(r),
        final(rt).protos.same_handles(&old(rt).protos),
        final(rt).lists == old(rt).lists,
        final(rt).memory == old(rt).memory,
{
    let c0 = rt.calls.len();
    let h = Object::new(rt);
    assert(rt.table().len() == rt.objects@.len());
    let ghost mid = rt.table();
    let ghost c = c0;
    let ghost p = old(rt).protos.proto_root->0;
    assert(mid[h as int] == rt.objects@[h as int].slots());
    assert(rt.objects@[h as int].slots() == fresh_slots(p, c));
    let _ = rt.objects[h].set_object(0, proto);
    assert(rt.objects@[h as int].slots() == fresh_slots(p, c).update(0, proto));
    assert(rt.calls@.len() == c + 1);
    let _ = rt.objects[h].set_fn(&mut rt.calls, 1, cb);
    assert(rt.objects@[h as int].slots() == fresh_slots(p, c).update(0, proto).update(1, (c + 1) as usize));
    let _ = rt.objects[h].set_fn(&mut rt.calls, 2, Callback::GenericProto);
    assert(rt.objects@[h as int].slots() =~= built_slots(proto, c));
    assert(rt.table() =~= mid.update(h as int, built_slots(proto, c)));
    assert(rt.table() =~= old(rt).table().push(built_slots(proto, c)));
    assert(rt.calls@ =~= old(rt).calls@ + built_calls(cb));
    rt.protos.pool.push(Some(h));
    Some(h)
}


/// The two prototypes that `generic_proto` and then `build_proto` on it make,
/// from root prototype `proto`, when the first gets handle `first` and the call
/// table held `c` functions.
pub open spec fn proto_pair(proto: usize, first: usize, c: usize) -> Seq<Seq<usize>> {
    seq![built_slots(proto, c), built_slots(first, (c + 3) as usize)]
}

/// The functions that such a pair appends to the call table, the second
/// prototype's function being `cb`.
pub open spec fn pair_calls(cb: Callback) -> Seq<Callback> {
    built_calls(Callback::GenericProto) + built_calls(cb)
}

/// Builds a fresh generic prototype on the root prototype.
pub fn generic_proto(rt: &mut Runtime) -> (r: Option<usize>)
    requires
        old(rt).protos.proto_root is Some,
    ensures
        r == Some(old(rt).objects@.len() as usize),
        final(rt).objects@.len() == old(rt).objects@.len() + 1,
        final(rt).table() == old(rt).table().push(
            built_slots(old(rt).protos.proto_root->0, old(rt).calls@.len() as usize),
        ),
        final(rt).calls@ == old(rt).calls@ + built_calls(Callback::GenericProto),
        final(rt).protos.pool@ == old(rt).protos.pool@.push(r),
        final(rt).protos.same_handles(&old(rt).protos),
        final(rt).lists == old(rt).lists,
        final(rt).memory == old(rt).memory,
{
    let p = prototype(rt);
    build_proto(rt, p, Callback::GenericProto)
}

/// Installs fresh memory roots and a fresh root object, builds the memory
/// prototype the first time, and returns the memory prototype.
pub fn memory(rt: &mut Runtime) -> (r: Option<usize>)
    requires
        old(rt).protos.proto_root is Some,
    ensures
        ({
            let n = old(rt).objects@.len();
            let c = old(rt).calls@.len();
            let pr = old(rt).protos.proto_root->0;
            &&& final(rt).memory.ready()
            &&& is_zero_page(final(rt).memory.page->0)
            &&& is_zero_stack(final(rt).memory.stack->0)
            &&& final(rt).memory.pages() == Seq::<Page>::empty()
            &&& final(rt).protos.root_object == Some(n as usize)
            &&& final(rt).protos.obj_root == old(rt).protos.obj_root
            &&& final(rt).protos.proto_root == old(rt).protos.proto_root
            &&& final(rt).protos.list == old(rt).protos.list
            &&& final(rt).protos.list_proto == old(rt).protos.list_proto
            &&& final(rt).protos.str_proto == old(rt).protos.str_proto
            &&& final(rt).lists == old(rt).lists
            &&& r == final(rt).protos.memory
            &&& if old(rt).protos.memory is None {
                &&& final(rt).table() == old(rt).table().push(fresh_slots(pr, c as usize))
                    + proto_pair(pr, (n + 1) as usize, (c + 1) as usize)
                &&& final(rt).calls@ == old(rt).calls@.push(Callback::ProtoCall)
                    + pair_calls(Callback::GenericProto)
                &&& final(rt).protos.pool@ == old(rt).protos.pool@.push(Some((n + 1) as usize)).push(
                    Some((n + 2) as usize),
                )
                &&& r == Some((n + 2) as usize)
            } else {
                &&& final(rt).table() == old(rt).table().push(fresh_slots(pr, c as usize))
                &&& final(rt).calls@ == old(rt).calls@.push(Callback::ProtoCall)
                &&& final(rt).protos.pool == old(rt).protos.pool
                &&& r == old(rt).protos.memory
            }
        }),
{
    let n0 = rt.objects.len();
    let c0 = rt.calls.len();
    rt.memory.page = Some(Page::new());
    rt.memory.stack = Some(Stack::new());
    rt.memory.heap = Some(Heap::new());
    let ro = Object::new(rt);
    rt.protos.root_object = Some(ro);
    let ghost t1 = rt.table();
    assert(rt.objects@.len() == n0 + 1);
    assert(t1.len() == rt.objects@.len());
    assert(old(rt).table().len() == old(rt).objects@.len());
    if rt.protos.memory.is_none() {
        let g = generic_proto(rt).unwrap();
        let ghost t2 = rt.table();
        proof {
            vstd::std_specs::vec::axiom_spec_len(&rt.objects);
        }
        assert(g == n0 + 1);
        let b = build_proto(rt, g, Callback::GenericProto);
        proof {
            vstd::std_specs::vec::axiom_spec_len(&rt.objects);
            vstd::std_specs::vec::axiom_spec_len(&rt.calls);
        }
        rt.protos.memory = b;
        assert(rt.table() == t2.push(built_slots(g, (c0 + 4) as usize)));
        assert(t2 == t1.push(built_slots(old(rt).protos.proto_root->0, (c0 + 1) as usize)));
        assert(rt.table() =~= old(rt).table().push(fresh_slots(old(rt).protos.proto_root->0, c0))
            + proto_pair(old(rt).protos.proto_root->0, (n0 + 1) as usize, (c0 + 1) as usize));
        assert(rt.calls@ =~= old(rt).calls@.push(Callback::ProtoCall) + pair_calls(Callback::GenericProto));
    }
    rt.protos.memory
}

/// Builds the list prototype the first time, and returns it.
pub fn list(rt: &mut Runtime) -> (r: Option<usize>)
    requires
        old(rt).protos.proto_root is Some,
    ensures
        ({
            let n = old(rt).objects@.len();
            let c = old(rt).calls@.len();
            let pr = old(rt).protos.proto_root->0;
            &&& final(rt).lists == old(rt).lists
            &&& final(rt).memory == old(rt).memory
            &&& r == final(rt).protos.list
            &&& if old(rt).protos.list is None {
                &&& final(rt).table() == old(rt).table() + proto_pair(pr, n as usize, c as usize)
                &&& final(rt).calls@ == old(rt).calls@ + pair_calls(Callback::ListIndex)
                &&& final(rt).protos.pool@ == old(rt).protos.pool@.push(Some(n as usize)).push(
                    Some((n + 1) as usize),
                )
                &&& final(rt).protos == (crate::runtime::Protos {
                    list: Some((n + 1) as usize),
                    pool: final(rt).protos.pool,
                    ..old(rt).protos
                })
            } else {
                &&& final(rt).objects == old(rt).objects
                &&& final(rt).calls == old(rt).calls
                &&& final(rt).protos == old(rt).protos
            }
        }),
{
    let n0 = rt.objects.len();
    let c0 = rt.calls.len();
    if rt.protos.list.is_none() {
        let g = generic_proto(rt).unwrap();
        let b = build_proto(rt, g, Callback::ListIndex);
        rt.protos.list = b;
        assert(rt.table() =~= old(rt).table() + proto_pair(old(rt).protos.proto_root->0, n0, c0));
        assert(rt.calls@ =~= old(rt).calls@ + pair_calls(Callback::ListIndex));
    }
    rt.protos.list
}


/// Brings a runtime up: the object root and root prototype, the memory
/// subsystem, then the list type.
pub fn init(rt: &mut Runtime)
    ensures
        ({
            let n = old(rt).objects@.len();
            let c = old(rt).calls@.len();
            let mem_new = old(rt).protos.memory is None;
            let list_new = old(rt).protos.list is None;
            let k = if mem_new { n + 5 } else { n + 3 };
            let d = if mem_new { c + 8 } else { c + 2 };
            &&& final(rt).table() == old(rt).table() + seq![
                seq![0usize, 0usize, 0usize, 0usize],
                fresh_slots(n as usize, c as usize),
                fresh_slots((n + 1) as usize, (c + 1) as usize),
            ] + (if mem_new {
                proto_pair((n + 1) as usize, (n + 3) as usize, (c + 2) as usize)
            } else {
                Seq::empty()
            }) + (if list_new {
                proto_pair((n + 1) as usize, k as usize, d as usize)
            } else {
                Seq::empty()
            })
            &&& final(rt).calls@ == old(rt).calls@ + seq![Callback::ProtoCall, Callback::ProtoCall] + (
            if mem_new {
                pair_calls(Callback::GenericProto)
            } else {
                Seq::empty()
            }) + (if list_new {
                pair_calls(Callback::ListIndex)
            } else {
                Seq::empty()
            })
            &&& final(rt).protos.pool@ == old(rt).protos.pool@ + (if mem_new {
                seq![Some((n + 3) as usize), Some((n + 4) as usize)]
            } else {
                Seq::empty()
            }) + (if list_new {
                seq![Some(k as usize), Some((k + 1) as usize)]
            } else {
                Seq::empty()
            })
            &&& final(rt).protos.obj_root == Some(n as usize)
            &&& final(rt).protos.proto_root == Some((n + 1) as usize)
            &&& final(rt).protos.root_object == Some((n + 2) as usize)
            &&& final(rt).protos.memory == (if mem_new {
                Some((n + 4) as usize)
            } else {
                old(rt).protos.memory
            })
            &&& final(rt).protos.list == (if list_new {
                Some((k + 1) as usize)
            } else {
                old(rt).protos.list
            })
            &&& final(rt).protos.list_proto == old(rt).protos.list_proto
            &&& final(rt).protos.str_proto == old(rt).protos.str_proto
            &&& final(rt).lists == old(rt).lists
            &&& final(rt).memory.ready()
            &&& is_zero_page(final(rt).memory.page->0)
            &&& is_zero_stack(final(rt).memory.stack->0)
            &&& final(rt).memory.pages() == Seq::<Page>::empty()
        }),
{
    object::init(rt);
    let _ = memory(rt);
    let n2 = rt.objects.len();
    let c2 = rt.calls.len();
    let _ = list(rt);
    assert(rt.table() =~= old(rt).table() + seq![
        seq![0usize, 0usize, 0usize, 0usize],
        fresh_slots(old(rt).objects@.len() as usize, old(rt).calls@.len() as usize),
        fresh_slots((old(rt).objects@.len() + 1) as usize, (old(rt).calls@.len() + 1) as usize),
    ] + (if old(rt).protos.memory is None {
        proto_pair((old(rt).objects@.len() + 1) as usize, (old(rt).objects@.len() + 3) as usize, (old(rt).calls@.len() + 2) as usize)
    } else {
        Seq::empty()
    }) + (if old(rt).protos.list is None {
        proto_pair((old(rt).objects@.len() + 1) as usize, n2, c2)
    } else {
        Seq::empty()
    }));
    assert(rt.calls@ =~= old(rt).calls@ + seq![Callback::ProtoCall, Callback::ProtoCall] + (
    if old(rt).protos.memory is None {
        pair_calls(Callback::GenericProto)
    } else {
        Seq::empty()
    }) + (if old(rt).protos.list is None {
        pair_calls(Callback::ListIndex)
    } else {
        Seq::empty()
    }));
    assert(rt.protos.pool@ =~= old(rt).protos.pool@ + (if old(rt).protos.memory is None {
        seq![Some((old(rt).objects@.len() + 3) as usize), Some((old(rt).objects@.len() + 4) as usize)]
    } else {
        Seq::empty()
    }) + (if old(rt).protos.list is None {
        seq![Some(n2), Some((n2 + 1) as usize)]
    } else {
        Seq::empty()
    }));
}

} // verus!
