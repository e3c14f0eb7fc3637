use lib::init::{build_proto, generic_proto, generic_proto_cb, init, list, list_proto_index, list_proto_index_set, memory};
use lib::object::{Callback, Dynamic, Invocation, Object};
use lib::runtime::Runtime;

fn obj(fixed: [usize; 4]) -> Object {
    Object(Dynamic { fixed, extra: vec![] })
}

fn with_roots() -> Runtime {
    let mut rt = Runtime::new();
    lib::object::init(&mut rt);
    rt
}

#[test]
fn build_proto_sets_prototype_function_and_generic_slot() {
    let mut rt = with_roots();
    let r = build_proto(&mut rt, 0, Callback::ListCore);
    assert_eq!(r, Some(2));
    assert_eq!(rt.objects[2], obj([0, 2, 3, 0]));
    assert_eq!(rt.calls, vec![Callback::ProtoCall, Callback::ProtoCall, Callback::ListCore, Callback::GenericProto]);
    assert_eq!(rt.protos.pool, vec![Some(2)]);
}

#[test]
fn generic_proto_builds_on_the_root_prototype() {
    let mut rt = with_roots();
    assert_eq!(generic_proto(&mut rt), Some(2));
    assert_eq!(rt.objects[2], obj([1, 2, 3, 0]));
    assert_eq!(generic_proto(&mut rt), Some(3));
    assert_eq!(rt.protos.pool, vec![Some(2), Some(3)]);
}

#[test]
fn memory_builds_its_prototype_once() {
    let mut rt = with_roots();
    assert_eq!(memory(&mut rt), Some(4));
    assert_eq!(rt.protos.root_object, Some(2));
    assert_eq!(rt.objects.len(), 5);
    assert_eq!(rt.objects[4], obj([3, 6, 7, 0]));
    assert!(rt.memory.heap.as_ref().unwrap().0.is_empty());
    // a second run renews the roots and the root object, and nothing else
    assert_eq!(memory(&mut rt), Some(4));
    assert_eq!(rt.protos.root_object, Some(5));
    assert_eq!(rt.objects.len(), 6);
    assert_eq!(rt.protos.pool, vec![Some(3), Some(4)]);
}

#[test]
fn list_builds_its_prototype_once() {
    let mut rt = with_roots();
    assert_eq!(list(&mut rt), Some(3));
    assert_eq!(rt.objects[3], obj([2, 5, 6, 0]));
    assert_eq!(rt.calls[5], Callback::ListIndex);
    assert_eq!(list(&mut rt), Some(3));
    assert_eq!(rt.objects.len(), 4);
}

#[test]
fn init_on_a_new_runtime() {
    let mut rt = Runtime::new();
    init(&mut rt);
    assert_eq!(rt.protos.obj_root, Some(0));
    assert_eq!(rt.protos.proto_root, Some(1));
    assert_eq!(rt.protos.root_object, Some(2));
    assert_eq!(rt.protos.memory, Some(4));
    assert_eq!(rt.protos.list, Some(6));
    assert_eq!(rt.protos.pool, vec![Some(3), Some(4), Some(5), Some(6)]);
    assert_eq!(
        rt.objects,
        vec![
            obj([0, 0, 0, 0]),
            obj([0, 0, 0, 0]),
            obj([1, 1, 0, 0]),
            obj([1, 3, 4, 0]),
            obj([3, 6, 7, 0]),
            obj([1, 9, 10, 0]),
            obj([5, 12, 13, 0]),
        ]
    );
    assert_eq!(
        rt.calls,
        vec![
            Callback::ProtoCall,
            Callback::ProtoCall,
            Callback::ProtoCall,
            Callback::GenericProto,
            Callback::GenericProto,
            Callback::ProtoCall,
            Callback::GenericProto,
            Callback::GenericProto,
            Callback::ProtoCall,
            Callback::GenericProto,
            Callback::GenericProto,
            Callback::ProtoCall,
            Callback::ListIndex,
            Callback::GenericProto,
        ]
    );
    assert!(rt.memory.page.is_some() && rt.memory.stack.is_some());
}

#[test]
fn callbacks_of_init() {
    assert_eq!(generic_proto_cb(Some(8)), Ok(Some(8)));
    assert_eq!(generic_proto_cb(None), Ok(None));
    let mut rt = with_roots();
    let l = Object::new(&mut rt);
    rt.objects[l] = obj([0, 0, 0, 5]);
    assert!(matches!(list_proto_index(&mut rt, Some(l)), Invocation::Then(Callback::ProtoCall, Some(3))));
    assert!(matches!(list_proto_index_set(&mut rt, Some(l)), Invocation::Then(Callback::ProtoCall, Some(4))));
    assert_eq!(rt.objects[4].0.fixed[2], 5);
}
