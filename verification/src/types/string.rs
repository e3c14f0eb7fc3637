use vstd::prelude::*;
use crate::object::{fresh_slots, Callback, Dynamic, Object};
use crate::runtime::Runtime;
use crate::types::list::list_proto;
use crate::util::Generic;

verus! {

/// The handle of the prototype that new strings refer to.
pub fn str_proto(rt: &Runtime) -> (r: usize)
    requires
        rt.protos.str_proto is Some,
    ensures
        r == rt.protos.str_proto->0,
{
    rt.protos.str_proto.unwrap()
}

/// Makes a new string object: a new object whose prototype is the string
/// prototype.  The text itself is not kept.
pub fn str(rt: &mut Runtime, x: &str) -> (h: usize)
    requires
        old(rt).protos.proto_root is Some,
        old(rt).protos.str_proto is Some,
    ensures
        h == old(rt).objects@.len(),
        final(rt).table() == old(rt).table().push(
            fresh_slots(old(rt).protos.str_proto->0, old(rt).calls@.len() as usize),
        ),
        final(rt).calls@ == old(rt).calls@.push(Callback::ProtoCall),
        final(rt).same_registry(old(rt)),
{
    let p = str_proto(rt);
    Object::from(rt, p)
}

/// The string prototype's function: hands its argument back.
pub fn proto_call(x: Option<usize>) -> (r: Generic)
    ensures
        r == Ok::<Option<usize>, &'static str>(x),
{
    Ok(x)
}

/// Builds the string prototype: slot 1 leads to `Callback::StringProto`,
/// slot 2 refers to the list prototype.
pub fn init(rt: &mut Runtime)
    requires
        old(rt).protos.list_proto is Some,
    ensures
        final(rt).table() == old(rt).table().push(
            seq![0usize, old(rt).calls@.len() as usize, old(rt).protos.list_proto->0, 0usize],
        ),
        final(rt).calls@ == old(rt).calls@.push(Callback::StringProto),
        final(rt).protos == (crate::runtime::Protos {
            str_proto: Some(old(rt).objects@.len() as usize),
            ..old(rt).protos
        }),
        final(rt).lists == old(rt).lists,
        final(rt).memory == old(rt).memory,
{
    let c0 = rt.calls.len();
    let mut obj = Object(Dynamic::new());
    let _ = obj.set_fn(&mut rt.calls, 1, Callback::StringProto);
    let lp = list_proto(rt);
    let _ = obj.set_object(2, lp);
    assert(obj.slots() =~= seq![0usize, c0, lp, 0usize]);
    rt.objects.push(obj);
    assert(rt.table() =~= old(rt).table().push(seq![0usize, c0, lp, 0usize]));
    rt.protos.str_proto = Some(rt.objects.len() - 1);
}

} // verus!
