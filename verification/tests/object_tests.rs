use lib::object::{init, init_prototype, invoke, prototype, Callback, Dynamic, Invocation, Object};
use lib::runtime::Runtime;
use lib::util::{ERR_FN, ERR_GET, ERR_SET};

fn obj(fixed: [usize; 4], extra: Vec<usize>) -> Object {
    Object(Dynamic { fixed, extra })
}

fn ready() -> Runtime {
    let mut rt = Runtime::new();
    init(&mut rt);
    rt
}

#[test]
fn dynamic_new_is_four_zero_slots() {
    let d = Dynamic::new();
    assert_eq!(d.fixed, [0, 0, 0, 0]);
    assert!(d.extra.is_empty());
}

#[test]
fn error_messages() {
    assert_eq!(ERR_GET, "failed to get object property");
    assert_eq!(ERR_SET, "tried to set out of bounds object property");
    assert_eq!(ERR_FN, "failed to get object property as function");
}

#[test]
fn get_usize_reads_fixed_then_extra_slots() {
    let o = obj([1, 2, 3, 4], vec![5, 6]);
    for i in 0..6 {
        assert_eq!(o.get_usize(i), Ok(i + 1));
    }
    assert_eq!(o.get_usize(6), Err("failed to get object property"));
    assert_eq!(o.get_usize(usize::MAX), Err(ERR_GET));
}

#[test]
fn set_usize_then_get_reads_back() {
    let mut o = obj([0; 4], vec![]);
    assert_eq!(o.set_usize(3, 9), Ok(()));
    assert_eq!(o.get_usize(3), Ok(9));
    assert_eq!(o.get_usize(2), Ok(0));
    assert_eq!(o.set_usize(4, 10), Ok(()));
    assert_eq!(o.get_usize(4), Ok(10));
    assert_eq!(o.set_usize(4, 11), Ok(()));
    assert_eq!(o.get_usize(4), Ok(11));
    assert_eq!(o.0.extra, vec![11]);
}

#[test]
fn set_usize_appends_only_one_past_the_end() {
    let mut o = obj([0; 4], vec![7]);
    assert_eq!(o.set_usize(6, 1), Err("tried to set out of bounds object property"));
    assert_eq!(o, obj([0; 4], vec![7]));
    assert_eq!(o.set_usize(5, 1), Ok(()));
    assert_eq!(o.0.extra, vec![7, 1]);
}

#[test]
fn set_usize_unchecked_drops_refused_writes() {
    let mut o = obj([0; 4], vec![]);
    o.set_usize_unchecked(1, 5);
    o.set_usize_unchecked(4, 6);
    o.set_usize_unchecked(9, 7);
    assert_eq!(o, obj([0, 5, 0, 0], vec![6]));
}

#[test]
fn objects_are_referred_to_by_handle() {
    let mut o = obj([0; 4], vec![]);
    assert_eq!(o.set_object(0, 12), Ok(()));
    assert_eq!(o.get_object(0), Ok(12));
    assert_eq!(o.get_object_unchecked(0), 12);
    assert_eq!(o.prototype(), 12);
    assert_eq!(o.set_object(5, 1), Err(ERR_SET));
    o.set_object_unchecked(4, 13);
    o.set_object_unchecked(6, 14);
    assert_eq!(o.get_object(4), Ok(13));
    assert_eq!(o.get_object(5), Err(ERR_GET));
}

#[test]
fn set_fn_appends_to_the_call_table() {
    let mut calls = vec![Callback::ListCore];
    let mut o = obj([0; 4], vec![]);
    assert_eq!(o.set_fn(&mut calls, 2, Callback::StringProto), Ok(()));
    assert_eq!(calls, vec![Callback::ListCore, Callback::StringProto]);
    assert_eq!(o.get_usize(2), Ok(1));
    assert_eq!(o.set_fn(&mut calls, 9, Callback::GenericProto), Err(ERR_SET));
    assert_eq!(calls.len(), 3);
    o.set_fn_unchecked(&mut calls, 3, Callback::ProtoCall);
    assert_eq!(o.get_usize(3), Ok(3));
    o.set_fn_unchecked(&mut calls, 9, Callback::ProtoCall);
    assert_eq!(calls.len(), 5);
    assert_eq!(o, obj([0, 0, 1, 3], vec![]));
}

#[test]
fn get_fn_reads_two_slots_then_the_call_table() {
    let calls = vec![Callback::ProtoCall, Callback::ListIndex];
    // slot 1 names slot 3, which holds call index 1
    let o = obj([0, 3, 0, 1], vec![]);
    assert_eq!(o.get_fn(&calls, 1), Ok(Callback::ListIndex));
    assert_eq!(o.get_fn_unchecked(&calls, 1), Ok(Callback::ListIndex));
    // slot 2 names slot 0, which holds call index 0
    assert_eq!(o.get_fn(&calls, 2), Ok(Callback::ProtoCall));
    // slot 1 names a missing slot
    let o = obj([0, 8, 0, 0], vec![]);
    assert_eq!(o.get_fn(&calls, 1), Err(ERR_GET));
    // the second slot holds an index past the call table
    let o = obj([5, 0, 0, 0], vec![]);
    assert_eq!(o.get_fn(&calls, 1), Err(ERR_FN));
    assert_eq!(o.get_fn_unchecked(&calls, 1), Err(ERR_FN));
}

#[test]
fn set_fn_then_get_fn_when_the_index_names_itself() {
    let mut calls = vec![];
    let mut o = obj([0; 4], vec![]);
    assert_eq!(o.set_fn(&mut calls, 0, Callback::StringProto), Ok(()));
    assert_eq!(o.get_fn(&calls, 0), Ok(Callback::StringProto));
}

#[test]
fn str_writes_the_object_out() {
    let o = obj([1, 2, 3, 4], vec![5]);
    assert_eq!(o.str(), "Object(Dynamic { fixed: [1, 2, 3, 4], extra: [5] })");
    assert_eq!(obj([0; 4], vec![]).str(), "Object(Dynamic { fixed: [0, 0, 0, 0], extra: [] })");
}

#[test]
fn init_makes_the_object_root_and_root_prototype() {
    let rt = ready();
    assert_eq!(rt.protos.obj_root, Some(0));
    assert_eq!(rt.protos.proto_root, Some(1));
    assert_eq!(rt.objects, vec![obj([0; 4], vec![]), obj([0, 0, 0, 0], vec![])]);
    assert_eq!(rt.calls, vec![Callback::ProtoCall]);
    assert_eq!(prototype(&rt), 1);
}

#[test]
fn init_prototype_refers_to_the_object_root() {
    let mut rt = ready();
    rt.protos.obj_root = Some(7);
    init_prototype(&mut rt);
    assert_eq!(rt.protos.proto_root, Some(2));
    assert_eq!(rt.objects[2], obj([7, 1, 0, 0], vec![]));
    assert_eq!(rt.calls.len(), 2);
}

#[test]
fn new_from_and_wrap_append_objects() {
    let mut rt = ready();
    let a = Object::new(&mut rt);
    assert_eq!(a, 2);
    assert_eq!(rt.objects[a], obj([1, 1, 0, 0], vec![]));
    let b = Object::from(&mut rt, a);
    assert_eq!(b, 3);
    assert_eq!(rt.objects[b], obj([a, 2, 0, 0], vec![]));
    assert_eq!(rt.objects[b].prototype(), a);
    let c = Object::wrap(&mut rt, 99);
    assert_eq!(rt.objects[c], obj([1, 3, 99, 0], vec![]));
    assert_eq!(rt.calls, vec![Callback::ProtoCall; 4]);
    assert_eq!(rt.objects[a], obj([1, 1, 0, 0], vec![]));
}

#[test]
fn forwarding_callbacks_hand_back_their_argument() {
    let mut rt = ready();
    for f in [Callback::ProtoCall, Callback::GenericProto, Callback::ListCore, Callback::StringProto] {
        assert!(matches!(invoke(&mut rt, f, Some(4)), Invocation::Return(Ok(Some(4)))));
        assert!(matches!(invoke(&mut rt, f, None), Invocation::Return(Ok(None))));
    }
    assert_eq!(rt.objects.len(), 2);
    assert_eq!(rt.calls.len(), 1);
    assert_eq!(lib::object::proto_call(Some(3)), Ok(Some(3)));
}

#[test]
fn list_callback_wraps_slot_three_and_goes_on() {
    let mut rt = ready();
    let l = Object::new(&mut rt);
    // slot 2 names slot 0, which holds call index 0 (ProtoCall); slot 3 holds 21
    rt.objects[l] = obj([0, 0, 0, 21], vec![]);
    for f in [Callback::ListIndex, Callback::ListIndexSet] {
        let n = rt.objects.len();
        let c = rt.calls.len();
        match invoke(&mut rt, f, Some(l)) {
            Invocation::Then(g, Some(w)) => {
                assert_eq!(g, Callback::ProtoCall);
                assert_eq!(w, n);
                assert_eq!(rt.objects[w], obj([1, c, 21, 0], vec![]));
            },
            _ => panic!("expected a further call"),
        }
    }
}

#[test]
fn call_runs_the_function_of_slot_one() {
    let mut rt = ready();
    let a = Object::new(&mut rt);
    // slot 1 names slot 3, which holds call index 0
    rt.objects[a] = obj([1, 3, 0, 0], vec![]);
    assert!(matches!(Object::call(&mut rt, a, Some(a)), Invocation::Return(Ok(Some(x))) if x == a));
}

#[test]
fn run_follows_the_calls_to_their_end() {
    let mut rt = ready();
    assert_eq!(
        lib::object::run(&mut rt, Callback::StringProto, Some(9), 1),
        (Some(Ok(Some(9))), vec![(Callback::StringProto, Some(9))])
    );
    assert_eq!(lib::object::run(&mut rt, Callback::ProtoCall, None, 0), (None, vec![]));
    let l = Object::new(&mut rt);
    // slot 2 names slot 0, which holds call index 0 (ProtoCall); slot 3 holds 21
    rt.objects[l] = obj([0, 0, 0, 21], vec![]);
    let n = rt.objects.len();
    assert!(lib::object::ready(&rt, Callback::ListIndex, Some(l)));
    assert_eq!(
        lib::object::run(&mut rt, Callback::ListIndex, Some(l), 5),
        (Some(Ok(Some(n))), vec![(Callback::ListIndex, Some(l)), (Callback::ProtoCall, Some(n))])
    );
    assert_eq!(rt.objects[n], obj([1, 2, 21, 0], vec![]));
    // one step is not enough to reach the end of the chain
    assert_eq!(
        lib::object::run(&mut rt, Callback::ListIndex, Some(l), 1),
        (None, vec![(Callback::ListIndex, Some(l))])
    );
    // a list function needs a list object
    assert!(!lib::object::ready(&rt, Callback::ListIndex, None));
    assert_eq!(lib::object::run(&mut rt, Callback::ListIndexSet, None, 5), (None, vec![]));
    assert_eq!(lib::object::run(&mut rt, Callback::ListIndex, Some(usize::MAX), 5), (None, vec![]));
}

#[test]
fn callbacks_trace_their_argument() {
    let rt = ready();
    let t = lib::object::trace(&rt, Callback::ProtoCall, Some(1)).unwrap();
    assert_eq!(t.stream, lib::system::Stream::Stdout);
    assert_eq!(t.text, ";) [proto_call] Some(Object(Dynamic { fixed: [0, 0, 0, 0], extra: [] }))");
    let t = lib::object::trace(&rt, Callback::ListCore, None).unwrap();
    assert_eq!(t.text, "[core-list] None");
    let t = lib::object::trace(&rt, Callback::StringProto, None).unwrap();
    assert_eq!(t.text, "[core-string] None");
    let t = lib::object::trace(&rt, Callback::GenericProto, None).unwrap();
    assert_eq!(t.stream, lib::system::Stream::Stderr);
    assert_eq!(
        t.text,
        "[src/init/mod.rs:33:5] format!(\"[proto-cb] {:?}\", x).as_str() = \"[proto-cb] None\""
    );
    assert!(lib::object::trace(&rt, Callback::ListIndex, Some(0)).is_none());
}
