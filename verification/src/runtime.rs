use vstd::prelude::*;
use crate::memory::Roots;
use crate::object::{Callback, Object};

verus! {

/// The handles of the objects that the runtime keeps as roots and
/// prototypes; each is absent until the step that creates it has run.
pub struct Protos {
    /// The empty object at the top of every prototype chain.
    pub obj_root: Option<usize>,
    /// The root prototype; every new object refers to it.
    pub proto_root: Option<usize>,
    /// The object that memory initialisation creates.
    pub root_object: Option<usize>,
    /// Every prototype built so far, in order.
    pub pool: Vec<Option<usize>>,
    /// The prototype of the memory subsystem.
    pub memory: Option<usize>,
    /// The prototype registered for lists.
    pub list: Option<usize>,
    /// The prototype that new lists refer to.
    pub list_proto: Option<usize>,
    /// The prototype that new strings refer to.
    pub str_proto: Option<usize>,
}

/// The whole state of a runtime: every object (named by its index, its
/// handle), the call table, the prototype registry, the lengths of the
/// lists handed over so far, and the memory roots.
pub struct Runtime {
    pub objects: Vec<Object>,
    pub calls: Vec<Callback>,
    pub protos: Protos,
    pub lists: Vec<usize>,
    pub memory: Roots,
}

impl Protos {
    /// A registry in which nothing has been created yet.
    pub fn new() -> (p: Protos)
        ensures
            p.obj_root is None,
            p.proto_root is None,
            p.root_object is None,
            p.pool@ == Seq::<Option<usize>>::empty(),
            p.memory is None,
            p.list is None,
            p.list_proto is None,
            p.str_proto is None,
    {
        Protos {
            obj_root: None,
            proto_root: None,
            root_object: None,
            pool: Vec::new(),
            memory: None,
            list: None,
            list_proto: None,
            str_proto: None,
        }
    }
}

impl Protos {
    /// Every handle but the pool is the same in both.
    pub open spec fn same_handles(&self, other: &Protos) -> bool {
        &&& self.obj_root == other.obj_root
        &&& self.proto_root == other.proto_root
        &&& self.root_object == other.root_object
        &&& self.memory == other.memory
        &&& self.list == other.list
        &&& self.list_proto == other.list_proto
        &&& self.str_proto == other.str_proto
    }
}

impl Runtime {
    /// The slots of every object, by handle.
    pub open spec fn table(&self) -> Seq<Seq<usize>> {
        self.objects@.map_values(|o: Object| o.slots())
    }

    /// Everything but the objects and the call table is the same in both.
    pub open spec fn same_registry(&self, other: &Runtime) -> bool {
        &&& self.protos == other.protos
        &&& self.lists == other.lists
        &&& self.memory == other.memory
    }

    /// A runtime with no objects, no functions and no roots.
    pub fn new() -> (rt: Runtime)
        ensures
            rt.objects@ == Seq::<Object>::empty(),
            rt.calls@ == Seq::<Callback>::empty(),
            rt.protos.obj_root is None,
            rt.protos.proto_root is None,
            rt.protos.root_object is None,
            rt.protos.pool@ == Seq::<Option<usize>>::empty(),
            rt.protos.memory is None,
            rt.protos.list is None,
            rt.protos.list_proto is None,
            rt.protos.str_proto is None,
            rt.lists@ == Seq::<usize>::empty(),
            rt.memory.page is None,
            rt.memory.stack is None,
            rt.memory.heap is None,
    {
        Runtime {
            objects: Vec::new(),
            calls: Vec::new(),
            protos: Protos::new(),
            lists: Vec::new(),
            memory: Roots::new(),
        }
    }
}


/// Objects made later never disturb earlier ones: after any number of
/// objects are appended to the table (each of `Object::new`, `from` and
/// `wrap` appends one), every earlier handle still names its old slots, and
/// every later handle differs from every earlier one.
pub proof fn law_earlier_handles_kept(table: Seq<Seq<usize>>, added: Seq<Seq<usize>>, h: int, k: int)
    requires
        0 <= h < table.len(),
        0 <= k < added.len(),
    ensures
        (table + added)[h] == table[h],
        table.len() + k != h,
        (table + added)[table.len() + k] == added[k],
{
}

/// Appending one object and then any others is appending them all.
pub proof fn law_appends_compose(table: Seq<Seq<usize>>, s: Seq<usize>, added: Seq<Seq<usize>>)
    ensures
        table.push(s) + added == table + seq![s].add(added),
{
    assert(table.push(s) + added =~= table + seq![s].add(added));
}

} // verus!
