use vstd::prelude::*;
use crate::object::{fresh_slots, Callback, Object};
use crate::runtime::Runtime;
use crate::util::Generic;

verus! {

/// The handle of the prototype that new lists refer to.
pub fn list_proto(rt: &Runtime) -> (r: usize)
    requires
        rt.protos.list_proto is Some,
    ensures
        r == rt.protos.list_proto->0,
{
    rt.protos.list_proto.unwrap()
}

/// Hands `x` over to the runtime as a list: the runtime keeps its length
/// (its elements are no longer reachable by type), and a new object whose
/// prototype is the list prototype holds the list's number in slot 2.
pub fn list<T>(rt: &mut Runtime, x: Vec<T>) -> (h: usize)
    requires
        old(rt).protos.proto_root is Some,
        old(rt).protos.list_proto is Some,
    ensures
        h == old(rt).objects@.len(),
        final(rt).lists@ == old(rt).lists@.push(x@.len() as usize),
        final(rt).table() == old(rt).table().push(
            fresh_slots(old(rt).protos.list_proto->0, old(rt).calls@.len() as usize).update(
                2,
                old(rt).lists@.len() as usize,
            ),
        ),
        final(rt).calls@ == old(rt).calls@.push(Callback::ProtoCall),
        final(rt).protos == old(rt).protos,
        final(rt).memory == old(rt).memory,
{
    rt.lists.push(x.len());
    let number = rt.lists.len() - 1;
    let p = list_proto(rt);
    let h = Object::from(rt, p);
    assert(rt.table().len() == rt.objects@.len());
    let ghost mid = rt.table();
    let ghost c = old(rt).calls@.len() as usize;
    assert(mid[h as int] == rt.objects@[h as int].slots());
    let _ = rt.objects[h].set_usize(2, number);
    assert(rt.table() =~= mid.update(h as int, fresh_slots(p, c).update(2, number)));
    assert(rt.table() =~= old(rt).table().push(fresh_slots(p, c).update(2, number)));
    h
}

/// The core list function: hands its argument back.
pub fn index(x: Option<usize>) -> (r: Generic)
    ensures
        r == Ok::<Option<usize>, &'static str>(x),
{
    Ok(x)
}

} // verus!
