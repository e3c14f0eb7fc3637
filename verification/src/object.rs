use vstd::prelude::*;
use crate::util::{Generic, Output, ERR_GET, ERR_SET, ERR_FN};
use crate::runtime::{Protos, Runtime};
use crate::init::{list_call_post, list_call_ready};
use crate::system::Stream;
use crate::text::push_str;

verus! {

/// The storage of an object: four fixed slots, then any number of extra ones.
#[derive(Clone, Debug, PartialEq)]
pub struct Dynamic {
    pub fixed: [usize; 4],
    pub extra: Vec<usize>,
}

impl Dynamic {
    /// Four zero slots and no extra ones.
    pub fn new() -> (d: Dynamic)
        ensures
            d.fixed@ == seq![0usize, 0usize, 0usize, 0usize],
            d.extra@ == Seq::<usize>::empty(),
    {
        let d = Dynamic { fixed: [0usize; 4], extra: Vec::new() };
        assert(d.fixed@ =~= seq![0usize, 0usize, 0usize, 0usize]);
        d
    }
}

/// An object: a row of word-sized slots.  By convention slot 0 names the
/// prototype, slot 1 the function the object is called with, slot 2 data.
#[derive(Clone, Debug, PartialEq)]
pub struct Object(pub Dynamic);

/// The functions that the call table can hold.
#[derive(Clone, Copy, Debug, PartialEq, Eq, Structural)]
pub enum Callback {
    /// The root prototype's function: hands its argument back.
    ProtoCall,
    /// The function of generic prototypes: hands its argument back.
    GenericProto,
    /// List indexing: calls the list's getter on its stored index.
    ListIndex,
    /// List index assignment: calls the list's setter on its stored index.
    ListIndexSet,
    /// The core list function: hands its argument back.
    ListCore,
    /// The string prototype's function: hands its argument back.
    StringProto,
}

/// The slot at `index`, if there is one.
pub open spec fn slot_read(slots: Seq<usize>, index: int) -> Option<usize> {
    if 0 <= index < slots.len() {
        Some(slots[index])
    } else {
        None
    }
}

/// The slots after writing `x` at `index`: an existing slot is replaced, the
/// slot just past the end is appended, anything further is refused.
pub open spec fn slot_write(slots: Seq<usize>, index: int, x: usize) -> Option<Seq<usize>> {
    if 0 <= index < slots.len() {
        Some(slots.update(index, x))
    } else if index == slots.len() {
        Some(slots.push(x))
    } else {
        None
    }
}

/// The function that slot `index` leads to: its value names another slot,
/// whose value is an index into the call table.
pub open spec fn fn_lookup(slots: Seq<usize>, calls: Seq<Callback>, index: int) -> Output<Callback> {
    let first = slots[index];
    if first < slots.len() {
        let second = slots[first as int];
        if second < calls.len() {
            Ok(calls[second as int])
        } else {
            Err(ERR_FN)
        }
    } else {
        Err(ERR_GET)
    }
}

impl Object {
    /// All slots of the object, fixed ones first.
    pub open spec fn slots(&self) -> Seq<usize> {
        self.0.fixed@ + self.0.extra@
    }

    pub fn get_usize(&self, index: usize) -> (r: Output<usize>)
        ensures
            r == (match slot_read(self.slots(), index as int) {
                Some(v) => Ok::<usize, &'static str>(v),
                None => Err(ERR_GET),
            }),
    {
        if index < 4 {
            Ok(self.0.fixed[index])
        } else if index - 4 < self.0.extra.len() {
            Ok(self.0.extra[index - 4])
        } else {
            Err(ERR_GET)
        }
    }

    pub fn set_usize(&mut self, index: usize, x: usize) -> (r: Output<()>)
        ensures
            match slot_write(old(self).slots(), index as int, x) {
                Some(s) => r == Ok::<(), &'static str>(()) && final(self).slots() == s,
                None => r == Err::<(), &'static str>(ERR_SET) && *final(self) == *old(self),
            },
    {
        if index < 4 {
            self.0.fixed[index] = x;
            assert(self.slots() =~= old(self).slots().update(index as int, x));
            Ok(())
        } else {
            if index - 4 < self.0.extra.len() {
                self.0.extra[index - 4] = x;
                assert(self.slots() =~= old(self).slots().update(index as int, x));
                Ok(())
            } else if index - 4 == self.0.extra.len() {
                self.0.extra.push(x);
                assert(self.slots() =~= old(self).slots().push(x));
                Ok(())
            } else {
                Err(ERR_SET)
            }
        }
    }

    /// Like `set_usize`, but a refused write is silently dropped.
    pub fn set_usize_unchecked(&mut self, index: usize, x: usize)
        ensures
            match slot_write(old(self).slots(), index as int, x) {
                Some(s) => final(self).slots() == s,
                None => *final(self) == *old(self),
            },
    {
        if index < 4 {
            self.0.fixed[index] = x;
            assert(self.slots() =~= old(self).slots().update(index as int, x));
        } else {
            if index - 4 < self.0.extra.len() {
                self.0.extra[index - 4] = x;
                assert(self.slots() =~= old(self).slots().update(index as int, x));
            } else if index - 4 == self.0.extra.len() {
                self.0.extra.push(x);
                assert(self.slots() =~= old(self).slots().push(x));
            }
        }
    }

    /// The handle of the object that slot `index` refers to.
    pub fn get_object(&self, index: usize) -> (r: Output<usize>)
        ensures
            r == (match slot_read(self.slots(), index as int) {
                Some(v) => Ok::<usize, &'static str>(v),
                None => Err(ERR_GET),
            }),
    {
        self.get_usize(index)
    }

    /// The handle of the object that slot `index` refers to; the slot must exist.
    pub fn get_object_unchecked(&self, index: usize) -> (r: usize)
        requires
            index < self.slots().len(),
        ensures
            r == self.slots()[index as int],
    {
        match self.get_usize(index) {
            Ok(v) => v,
            Err(_) => {
                assert(false);
                0
            },
        }
    }

    /// Makes slot `index` refer to the object with handle `x`.
    pub fn set_object(&mut self, index: usize, x: usize) -> (r: Output<()>)
        ensures
            match slot_write(old(self).slots(), index as int, x) {
                Some(s) => r == Ok::<(), &'static str>(()) && final(self).slots() == s,
                None => r == Err::<(), &'static str>(ERR_SET) && *final(self) == *old(self),
            },
    {
        self.set_usize(index, x)
    }

    /// Like `set_object`, but a refused write is silently dropped.
    pub fn set_object_unchecked(&mut self, index: usize, x: usize)
        ensures
            match slot_write(old(self).slots(), index as int, x) {
                Some(s) => final(self).slots() == s,
                None => *final(self) == *old(self),
            },
    {
        self.set_usize_unchecked(index, x)
    }

    /// The function that slot `index` leads to through `fn_lookup`; the slot must exist.
    pub fn get_fn(&self, calls: &Vec<Callback>, index: usize) -> (r: Output<Callback>)
        requires
            index < self.slots().len(),
        ensures
            r == fn_lookup(self.slots(), calls@, index as int),
    {
        let first = match self.get_usize(index) {
            Ok(v) => v,
            Err(_) => {
                assert(false);
                0
            },
        };
        let second = match self.get_usize(first) {
            Ok(v) => v,
            Err(e) => {
                return Err(e);
            },
        };
        if second < calls.len() {
            Ok(calls[second])
        } else {
            Err(ERR_FN)
        }
    }

    /// Like `get_fn`, but the slot that the first slot names must exist too.
    pub fn get_fn_unchecked(&self, calls: &Vec<Callback>, index: usize) -> (r: Output<Callback>)
        requires
            index < self.slots().len(),
            self.slots()[index as int] < self.slots().len(),
        ensures
            r == fn_lookup(self.slots(), calls@, index as int),
    {
        let first = self.get_object_unchecked(index);
        let second = self.get_object_unchecked(first);
        if second < calls.len() {
            Ok(calls[second])
        } else {
            Err(ERR_FN)
        }
    }

    /// Appends `f` to the call table and stores its index in slot `index`.
    pub fn set_fn(&mut self, calls: &mut Vec<Callback>, index: usize, f: Callback) -> (r: Output<()>)
        ensures
            final(calls)@ == old(calls)@.push(f),
            match slot_write(old(self).slots(), index as int, old(calls)@.len() as usize) {
                Some(s) => r == Ok::<(), &'static str>(()) && final(self).slots() == s,
                None => r == Err::<(), &'static str>(ERR_SET) && *final(self) == *old(self),
            },
    {
        calls.push(f);
        self.set_usize(index, calls.len() - 1)
    }

    /// Like `set_fn`, but a refused write is silently dropped (the call table
    /// still grows).
    pub fn set_fn_unchecked(&mut self, calls: &mut Vec<Callback>, index: usize, f: Callback)
        ensures
            final(calls)@ == old(calls)@.push(f),
            match slot_write(old(self).slots(), index as int, old(calls)@.len() as usize) {
                Some(s) => final(self).slots() == s,
                None => *final(self) == *old(self),
            },
    {
        calls.push(f);
        self.set_usize_unchecked(index, calls.len() - 1)
    }

    /// The handle of this object's prototype, held in slot 0.
    pub fn prototype(&self) -> (r: usize)
        ensures
            r == self.slots()[0],
    {
        self.get_object_unchecked(0)
    }
}

/// The slots of an object just made by `Object::new`.
pub open spec fn fresh_slots(proto: usize, call: usize) -> Seq<usize> {
    seq![proto, call, 0usize, 0usize]
}

/// The handle of the root prototype.
pub fn prototype(rt: &Runtime) -> (r: usize)
    requires
        rt.protos.proto_root is Some,
    ensures
        r == rt.protos.proto_root->0,
{
    rt.protos.proto_root.unwrap()
}

impl Object {
    /// Makes an object whose prototype is the root prototype and whose function
    /// is `Callback::ProtoCall` (appended to the call table), stores it, and
    /// returns its handle.
    pub fn new(rt: &mut Runtime) -> (h: usize)
        requires
            old(rt).protos.proto_root is Some,
        ensures
            h == old(rt).objects@.len(),
            final(rt).objects@.len() == old(rt).objects@.len() + 1,
            final(rt).table() == old(rt).table().push(
                fresh_slots(old(rt).protos.proto_root->0, old(rt).calls@.len() as usize),
            ),
            final(rt).calls@ == old(rt).calls@.push(Callback::ProtoCall),
            final(rt).same_registry(old(rt)),
    {
        let mut obj = Object(Dynamic::new());
        let p = prototype(rt);
        obj.set_object_unchecked(0, p);
        let r = obj.set_fn(&mut rt.calls, 1, Callback::ProtoCall);
        assert(obj.slots() =~= fresh_slots(p, old(rt).calls@.len() as usize));
        rt.objects.push(obj);
        assert(rt.table() =~= old(rt).table().push(
            fresh_slots(old(rt).protos.proto_root->0, old(rt).calls@.len() as usize),
        ));
        rt.objects.len() - 1
    }

    /// Makes a new object (as `new` does) whose prototype is the object `x`.
    pub fn from(rt: &mut Runtime, x: usize) -> (h: usize)
        requires
            old(rt).protos.proto_root is Some,
        ensures
            h == old(rt).objects@.len(),
            final(rt).objects@.len() == old(rt).objects@.len() + 1,
            final(rt).table() == old(rt).table().push(fresh_slots(x, old(rt).calls@.len() as usize)),
            final(rt).calls@ == old(rt).calls@.push(Callback::ProtoCall),
            final(rt).same_registry(old(rt)),
    {
        let h = Object::new(rt);
        assert(rt.table().len() == rt.objects@.len());
        let ghost mid = rt.table();
        let ghost p = old(rt).protos.proto_root->0;
        let ghost c = old(rt).calls@.len() as usize;
        assert(mid[h as int] == fresh_slots(p, c));
        let r = rt.objects[h].set_object(0, x);
        assert(fresh_slots(p, c).update(0, x) =~= fresh_slots(x, c));
        assert(rt.objects@[h as int].slots() == fresh_slots(x, c));
        assert(rt.table() =~= mid.update(h as int, fresh_slots(x, old(rt).calls@.len() as usize)));
        assert(rt.table() =~= old(rt).table().push(fresh_slots(x, old(rt).calls@.len() as usize)));
        h
    }
}

impl Object {
    /// Makes a new object (as `new` does) that holds `x` in slot 2.
    pub fn wrap(rt: &mut Runtime, x: usize) -> (h: usize)
        requires
            old(rt).protos.proto_root is Some,
        ensures
            h == old(rt).objects@.len(),
            final(rt).objects@.len() == old(rt).objects@.len() + 1,
            final(rt).table() == old(rt).table().push(
                fresh_slots(old(rt).protos.proto_root->0, old(rt).calls@.len() as usize).update(2, x),
            ),
            final(rt).calls@ == old(rt).calls@.push(Callback::ProtoCall),
            final(rt).same_registry(old(rt)),
    {
        let h = Object::new(rt);
        assert(rt.table().len() == rt.objects@.len());
        let ghost mid = rt.table();
        let ghost p = old(rt).protos.proto_root->0;
        let ghost c = old(rt).calls@.len() as usize;
        assert(mid[h as int] == fresh_slots(p, c));
        rt.objects[h].set_usize_unchecked(2, x);
        assert(rt.table() =~= mid.update(h as int, fresh_slots(p, c).update(2, x)));
        assert(rt.table() =~= old(rt).table().push(fresh_slots(p, c).update(2, x)));
        h
    }
}

/// The handle of the object at the top of every prototype chain.
fn obj_root(rt: &Runtime) -> (r: usize)
    requires
        rt.protos.obj_root is Some,
    ensures
        r == rt.protos.obj_root->0,
{
    rt.protos.obj_root.unwrap()
}

/// Builds the root prototype: slot 0 refers to the object root, slot 1 to
/// `Callback::ProtoCall`.
pub fn init_prototype(rt: &mut Runtime)
    requires
        old(rt).protos.obj_root is Some,
    ensures
        final(rt).table() == old(rt).table().push(
            fresh_slots(old(rt).protos.obj_root->0, old(rt).calls@.len() as usize),
        ),
        final(rt).calls@ == old(rt).calls@.push(Callback::ProtoCall),
        final(rt).protos == (Protos { proto_root: Some(old(rt).objects@.len() as usize), ..old(rt).protos }),
        final(rt).lists == old(rt).lists,
        final(rt).memory == old(rt).memory,
{
    let mut obj = Object(Dynamic::new());
    let root = obj_root(rt);
    obj.set_object_unchecked(0, root);
    obj.set_fn_unchecked(&mut rt.calls, 1, Callback::ProtoCall);
    assert(obj.slots() =~= fresh_slots(root, old(rt).calls@.len() as usize));
    rt.objects.push(obj);
    assert(rt.table() =~= old(rt).table().push(fresh_slots(root, old(rt).calls@.len() as usize)));
    rt.protos.proto_root = Some(rt.objects.len() - 1);
}

/// Creates the object root (an object of zero slots) and then the root prototype.
pub fn init(rt: &mut Runtime)
    ensures
        final(rt).table() == old(rt).table().push(seq![0usize, 0usize, 0usize, 0usize]).push(
            fresh_slots(old(rt).objects@.len() as usize, old(rt).calls@.len() as usize),
        ),
        final(rt).calls@ == old(rt).calls@.push(Callback::ProtoCall),
        final(rt).protos == (Protos {
            obj_root: Some(old(rt).objects@.len() as usize),
            proto_root: Some((old(rt).objects@.len() + 1) as usize),
            ..old(rt).protos
        }),
        final(rt).lists == old(rt).lists,
        final(rt).memory == old(rt).memory,
{
    let root = Object(Dynamic::new());
    assert(root.slots() =~= seq![0usize, 0usize, 0usize, 0usize]);
    rt.objects.push(root);
    assert(rt.table() =~= old(rt).table().push(seq![0usize, 0usize, 0usize, 0usize]));
    rt.protos.obj_root = Some(rt.objects.len() - 1);
    init_prototype(rt);
}

/// What calling a function does next: hand back a result, or call another
/// function with an argument.
#[derive(Clone, Copy, Debug)]
pub enum Invocation {
    Return(Generic),
    Then(Callback, Option<usize>),
}

/// The functions that hand their argument straight back.
pub open spec fn forwards(f: Callback) -> bool {
    ||| f is ProtoCall
    ||| f is GenericProto
    ||| f is ListCore
    ||| f is StringProto
}

/// `f` can be called with `x`: a list function needs what `list_call_ready` says.
pub open spec fn can_invoke(rt: Runtime, f: Callback, x: Option<usize>) -> bool {
    forwards(f) || list_call_ready(rt, x)
}

/// What calling `f` with `x` in `pre` does: the forwarding functions hand
/// back `x` and change nothing; a list function does what `list_call_post` says.
pub open spec fn invoke_post(pre: Runtime, post: Runtime, f: Callback, x: Option<usize>, r: Invocation) -> bool {
    if forwards(f) {
        &&& r == Invocation::Return(Ok(x))
        &&& post == pre
    } else {
        list_call_post(pre, post, x, r)
    }
}

/// Calls `f` with `x` for one step.
pub fn invoke(rt: &mut Runtime, f: Callback, x: Option<usize>) -> (r: Invocation)
    requires
        can_invoke(*old(rt), f, x),
    ensures
        invoke_post(*old(rt), *final(rt), f, x, r),
        !forwards(f) ==> r == Invocation::Then(
            fn_lookup(old(rt).objects@[x->0 as int].slots(), old(rt).calls@, 2)->Ok_0,
            Some(old(rt).objects@.len() as usize),
        ),
{
    match f {
        Callback::ProtoCall => Invocation::Return(proto_call(x)),
        Callback::GenericProto => Invocation::Return(crate::init::generic_proto_cb(x)),
        Callback::ListIndex => crate::init::list_proto_index(rt, x),
        Callback::ListIndexSet => crate::init::list_proto_index_set(rt, x),
        Callback::ListCore => Invocation::Return(crate::types::list::index(x)),
        Callback::StringProto => Invocation::Return(crate::types::string::proto_call(x)),
    }
}

/// Whether `f` can be called with `x` in `rt` now.
pub fn ready(rt: &Runtime, f: Callback, x: Option<usize>) -> (r: bool)
    ensures
        r == can_invoke(*rt, f, x),
{
    match f {
        Callback::ListIndex | Callback::ListIndexSet => match x {
            Some(h) => {
                if h < rt.objects.len() && rt.protos.proto_root.is_some() {
                    rt.objects[h].get_fn(&rt.calls, 2).is_ok()
                } else {
                    false
                }
            },
            None => false,
        },
        _ => true,
    }
}

/// Calling `f` with `x` in `pre`, step after step, ends in `post` with `r`
/// within `fuel` steps, having called `steps` (each function with its
/// argument) in that order: `r` is `None` when the steps run out or a step
/// cannot be taken (`can_invoke` fails), and otherwise what the last
/// function handed back.
pub open spec fn runs_to(
    pre: Runtime,
    post: Runtime,
    f: Callback,
    x: Option<usize>,
    fuel: nat,
    r: Option<Generic>,
    steps: Seq<(Callback, Option<usize>)>,
) -> bool
    decreases fuel,
{
    if fuel == 0 || !can_invoke(pre, f, x) {
        &&& r is None
        &&& post == pre
        &&& steps == Seq::<(Callback, Option<usize>)>::empty()
    } else if forwards(f) {
        &&& r == Some(Ok::<Option<usize>, &'static str>(x))
        &&& post == pre
        &&& steps == seq![(f, x)]
    } else {
        &&& steps.len() > 0
        &&& steps[0] == (f, x)
        &&& exists|mid: Runtime, g: Callback, w: Option<usize>|
            #[trigger] list_call_post(pre, mid, x, Invocation::Then(g, w)) && runs_to(
                mid,
                post,
                g,
                w,
                (fuel - 1) as nat,
                r,
                steps.drop_first(),
            )
    }
}

/// Calls `f` with `x` and goes on with every further call, for at most
/// `fuel` steps; gives what the last function hands back (or `None` when the
/// steps run out or a step cannot be taken), and the calls made, in order.
pub fn run(rt: &mut Runtime, f: Callback, x: Option<usize>, fuel: usize) -> (r: (Option<Generic>, Vec<(Callback, Option<usize>)>))
    ensures
        runs_to(*old(rt), *final(rt), f, x, fuel as nat, r.0, r.1@),
    decreases fuel,
{
    if fuel == 0 || !ready(rt, f, x) {
        return (None, Vec::new());
    }
    match invoke(rt, f, x) {
        Invocation::Return(g) => {
            let mut steps = Vec::new();
            steps.push((f, x));
            assert(steps@ =~= seq![(f, x)]);
            (Some(g), steps)
        },
        Invocation::Then(g, w) => {
            let ghost mid = *rt;
            let (r, rest) = run(rt, g, w, fuel - 1);
            let mut steps = rest;
            steps.insert(0, (f, x));
            assert(steps@.drop_first() =~= rest@);
            assert(list_call_post(*old(rt), mid, x, Invocation::Then(g, w)));
            (r, steps)
        },
    }
}

/// A line that a callback writes when it is called.
#[derive(Clone, Debug)]
pub struct Trace {
    pub stream: Stream,
    pub text: String,
}

/// How `{:?}` writes the argument of a callback.
pub open spec fn arg_text(rt: Runtime, x: Option<usize>) -> Seq<char> {
    match x {
        Some(h) => "Some("@ + debug_text(rt.objects@[h as int].slots()) + ")"@,
        None => "None"@,
    }
}

/// The line that calling `f` with `x` writes, and where: the root
/// prototype's, the core list's and the string prototype's functions print
/// their argument to standard output, the generic prototype's function
/// writes it with `dbg!` to standard error, the list functions write nothing.
pub open spec fn trace_text(rt: Runtime, f: Callback, x: Option<usize>) -> Option<(Stream, Seq<char>)> {
    match f {
        Callback::ProtoCall => Some((Stream::Stdout, ";) [proto_call] "@ + arg_text(rt, x))),
        Callback::GenericProto => Some(
            (
                Stream::Stderr,
                "[src/init/mod.rs:33:5] format!(\"[proto-cb] {:?}\", x).as_str() = \"[proto-cb] "@
                    + arg_text(rt, x) + "\""@,
            ),
        ),
        Callback::ListCore => Some((Stream::Stdout, "[core-list] "@ + arg_text(rt, x))),
        Callback::StringProto => Some((Stream::Stdout, "[core-string] "@ + arg_text(rt, x))),
        _ => None,
    }
}

fn push_arg(s: &mut String, rt: &Runtime, x: Option<usize>)
    requires
        x is Some ==> x->0 < rt.objects@.len(),
    ensures
        final(s)@ == old(s)@ + arg_text(*rt, x),
{
    match x {
        Some(h) => {
            push_str(s, "Some(");
            let t = rt.objects[h].str();
            push_str(s, t.as_str());
            push_str(s, ")");
        },
        None => push_str(s, "None"),
    }
    assert(s@ =~= old(s)@ + arg_text(*rt, x));
}

/// The line that calling `f` with `x` writes, if any.
pub fn trace(rt: &Runtime, f: Callback, x: Option<usize>) -> (r: Option<Trace>)
    requires
        x is Some ==> x->0 < rt.objects@.len(),
    ensures
        match r {
            Some(t) => trace_text(*rt, f, x) == Some((t.stream, t.text@)),
            None => trace_text(*rt, f, x) is None,
        },
{
    let mut s = String::new();
    match f {
        Callback::ProtoCall => {
            push_str(&mut s, ";) [proto_call] ");
            push_arg(&mut s, rt, x);
            assert(s@ =~= ";) [proto_call] "@ + arg_text(*rt, x));
            Some(Trace { stream: Stream::Stdout, text: s })
        },
        Callback::GenericProto => {
            push_str(&mut s, "[src/init/mod.rs:33:5] format!(\"[proto-cb] {:?}\", x).as_str() = \"[proto-cb] ");
            push_arg(&mut s, rt, x);
            push_str(&mut s, "\"");
            assert(s@ =~= "[src/init/mod.rs:33:5] format!(\"[proto-cb] {:?}\", x).as_str() = \"[proto-cb] "@
                + arg_text(*rt, x) + "\""@);
            Some(Trace { stream: Stream::Stderr, text: s })
        },
        Callback::ListCore => {
            push_str(&mut s, "[core-list] ");
            push_arg(&mut s, rt, x);
            assert(s@ =~= "[core-list] "@ + arg_text(*rt, x));
            Some(Trace { stream: Stream::Stdout, text: s })
        },
        Callback::StringProto => {
            push_str(&mut s, "[core-string] ");
            push_arg(&mut s, rt, x);
            assert(s@ =~= "[core-string] "@ + arg_text(*rt, x));
            Some(Trace { stream: Stream::Stdout, text: s })
        },
        _ => None,
    }
}

/// The root prototype's function: hands its argument back.
pub fn proto_call(x: Option<usize>) -> (r: Generic)
    ensures
        r == Ok::<Option<usize>, &'static str>(x),
{
    Ok(x)
}

/// The text that `{:?}` gives for an object with these slots.
pub uninterp spec fn debug_text(slots: Seq<usize>) -> Seq<char>;

/// Formats an object with its derived `Debug`; the text is named by `debug_text`.
#[verifier::external_body]
fn debug_string(o: &Object) -> (s: String)
    ensures
        s@ == debug_text(o.slots()),
{
    format!("{:?}", o)
}

impl Object {
    /// Calls the function that slot 1 of object `this` leads to, with `x`, for one step.
    pub fn call(rt: &mut Runtime, this: usize, x: Option<usize>) -> (r: Invocation)
        requires
            this < old(rt).objects@.len(),
            fn_lookup(old(rt).objects@[this as int].slots(), old(rt).calls@, 1) is Ok,
            can_invoke(
                *old(rt),
                fn_lookup(old(rt).objects@[this as int].slots(), old(rt).calls@, 1)->Ok_0,
                x,
            ),
        ensures
            invoke_post(
                *old(rt),
                *final(rt),
                fn_lookup(old(rt).objects@[this as int].slots(), old(rt).calls@, 1)->Ok_0,
                x,
                r,
            ),
    {
        let f = match rt.objects[this].get_fn(&rt.calls, 1) {
            Ok(f) => f,
            Err(_) => {
                assert(false);
                Callback::ProtoCall
            },
        };
        invoke(rt, f, x)
    }

    /// The object written out with `{:?}`.
    pub fn str(&self) -> (s: String)
        ensures
            s@ == debug_text(self.slots()),
    {
        debug_string(self)
    }
}

/// A successful write is read back, and every other slot keeps its value.
pub proof fn law_read_after_write(slots: Seq<usize>, index: int, x: usize, other: int)
    requires
        slot_write(slots, index, x) is Some,
        other != index,
    ensures
        slot_read(slot_write(slots, index, x)->0, index) == Some(x),
        slot_read(slot_write(slots, index, x)->0, other) == slot_read(slots, other),
{
}

/// A write succeeds exactly when it lands on an existing slot or the one
/// just past the end, and a write never removes slots.
pub proof fn law_write_bounds(slots: Seq<usize>, index: int, x: usize)
    requires
        0 <= index,
    ensures
        slot_write(slots, index, x) is Some <==> index <= slots.len(),
        slot_write(slots, index, x) is Some ==> slot_write(slots, index, x)->0.len() >= slots.len(),
{
}

/// Writing back what a slot already holds changes nothing.
pub proof fn law_write_same(slots: Seq<usize>, index: int)
    requires
        0 <= index < slots.len(),
    ensures
        slot_write(slots, index, slots[index]) == Some(slots),
{
    assert(slots.update(index, slots[index]) =~= slots);
}


/// Looking up the function of slot `index` (as `get_fn` and `Object::call`
/// do) reads the slot, then the slot it names, then the call table: it fails
/// with `ERR_GET` when the named slot does not exist, whatever the call table
/// holds; it fails with `ERR_FN` when the second value is past the call
/// table; and otherwise it finds the function at that second value.
pub proof fn law_fn_lookup_reads_two_slots(slots: Seq<usize>, calls: Seq<Callback>, index: int)
    requires
        0 <= index < slots.len(),
    ensures
        slot_read(slots, slots[index] as int) is None ==> fn_lookup(slots, calls, index) == Err::<
            Callback,
            &'static str,
        >(ERR_GET),
        slots[index] >= slots.len() ==> fn_lookup(slots, calls, index) is Err,
        forall|f: Callback|
            fn_lookup(slots, calls, index) == Ok::<Callback, &'static str>(f) ==> {
                &&& slot_read(slots, slots[index] as int) is Some
                &&& slot_read(slots, slots[index] as int)->0 < calls.len()
                &&& f == calls[slot_read(slots, slots[index] as int)->0 as int]
            },
        slot_read(slots, slots[index] as int) matches Some(second) ==> (second < calls.len() ==> fn_lookup(
            slots,
            calls,
            index,
        ) == Ok::<Callback, &'static str>(calls[second as int])) && (second >= calls.len() ==> fn_lookup(
            slots,
            calls,
            index,
        ) == Err::<Callback, &'static str>(ERR_FN)),
{
}

/// After `set_fn`, the slot it wrote holds the index at which the call table
/// holds the function.
pub proof fn law_set_fn_records(slots: Seq<usize>, calls: Seq<Callback>, index: int, f: Callback)
    requires
        slot_write(slots, index, calls.len() as usize) is Some,
        calls.len() <= usize::MAX,
    ensures
        ({
            let s = slot_write(slots, index, calls.len() as usize)->0;
            &&& slot_read(s, index) == Some(calls.len() as usize)
            &&& calls.push(f)[slot_read(s, index)->0 as int] == f
        }),
{
}

/// `get_fn` gives back what `set_fn` stored, when the slot that `set_fn`
/// wrote names a slot that holds the same call index (`get_fn` reads two
/// slots in a row before it looks in the call table).
pub proof fn law_get_fn_after_set_fn(slots: Seq<usize>, calls: Seq<Callback>, index: int, f: Callback)
    requires
        slot_write(slots, index, calls.len() as usize) is Some,
        calls.len() <= usize::MAX,
        calls.len() < slot_write(slots, index, calls.len() as usize)->0.len(),
        slot_write(slots, index, calls.len() as usize)->0[calls.len() as int] == calls.len(),
    ensures
        fn_lookup(slot_write(slots, index, calls.len() as usize)->0, calls.push(f), index) == Ok::<
            Callback,
            &'static str,
        >(f),
{
}


/// The slots after a series of writes `(index, value)`, in order; a refused
/// write leaves the slots as they were, as `set_usize` and `set_object` do.
pub open spec fn apply_writes(slots: Seq<usize>, ws: Seq<(int, usize)>) -> Seq<usize>
    decreases ws.len(),
{
    if ws.len() == 0 {
        slots
    } else {
        let next = match slot_write(slots, ws[0].0, ws[0].1) {
            Some(s) => s,
            None => slots,
        };
        apply_writes(next, ws.drop_first())
    }
}

/// A slot read after any series of writes to other slots gives what was
/// last written to it, and the object never loses slots.
pub proof fn law_read_after_writes(slots: Seq<usize>, i: int, x: usize, ws: Seq<(int, usize)>)
    requires
        slot_write(slots, i, x) is Some,
        forall|k: int| 0 <= k < ws.len() ==> (#[trigger] ws[k]).0 != i,
    ensures
        slot_read(apply_writes(slot_write(slots, i, x)->0, ws), i) == Some(x),
{
    lemma_writes_keep(slot_write(slots, i, x)->0, i, ws);
}

proof fn lemma_writes_keep(slots: Seq<usize>, i: int, ws: Seq<(int, usize)>)
    requires
        0 <= i < slots.len(),
        forall|k: int| 0 <= k < ws.len() ==> (#[trigger] ws[k]).0 != i,
    ensures
        i < apply_writes(slots, ws).len(),
        apply_writes(slots, ws)[i] == slots[i],
    decreases ws.len(),
{
    if ws.len() > 0 {
        let next = match slot_write(slots, ws[0].0, ws[0].1) {
            Some(s) => s,
            None => slots,
        };
        assert(ws[0].0 != i);
        assert forall|k: int| 0 <= k < ws.drop_first().len() implies (#[trigger] ws.drop_first()[k]).0 != i by {
            assert(ws.drop_first()[k] == ws[k + 1]);
        }
        lemma_writes_keep(next, i, ws.drop_first());
    }
}

/// An object's prototype is the handle last written to slot 0, whatever
/// was written to other slots since; a fresh object's prototype is the
/// root prototype it was made with.
pub proof fn law_prototype_after_writes(slots: Seq<usize>, proto: usize, ws: Seq<(int, usize)>, root: usize, c: usize)
    requires
        slots.len() >= 4,
        forall|k: int| 0 <= k < ws.len() ==> (#[trigger] ws[k]).0 != 0,
    ensures
        apply_writes(slot_write(slots, 0, proto)->0, ws)[0] == proto,
        apply_writes(fresh_slots(root, c), ws)[0] == root,
{
    law_read_after_writes(slots, 0, proto, ws);
    lemma_writes_keep(fresh_slots(root, c), 0, ws);
}

} // verus!
