use vstd::prelude::*;
use vstd::hash_map::StringHashMap;

verus! {

/// Names bound to objects, by handle.
pub struct Table(StringHashMap<usize>);

impl View for Table {
    type V = Map<Seq<char>, usize>;

    closed spec fn view(&self) -> Map<Seq<char>, usize> {
        self.0@
    }
}

/// The binding of `key` in `m`, if any.
pub open spec fn lookup(m: Map<Seq<char>, usize>, key: Seq<char>) -> Option<usize> {
    if m.contains_key(key) {
        Some(m[key])
    } else {
        None
    }
}

impl Table {
    /// A table binds finitely many keys.
    #[verifier::type_invariant]
    spec fn finite_keys(self) -> bool {
        self.0@.dom().finite()
    }

    /// A table with no bindings.
    pub fn new() -> (t: Table)
        ensures
            t@ == Map::<Seq<char>, usize>::empty(),
            t@.dom().finite(),
    {
        Table(StringHashMap::new())
    }

    /// The object bound to `key`, if any.
    pub fn get(&self, key: &str) -> (r: Option<usize>)
        ensures
            r == lookup(self@, key@),
            self@.dom().finite(),
    {
        proof {
            use_type_invariant(self);
        }
        match self.0.get(key) {
            Some(v) => Some(*v),
            None => None,
        }
    }

    /// Binds `key` to `value`; returns what `key` was bound to before, if anything.
    pub fn set(&mut self, key: &str, value: usize) -> (r: Option<usize>)
        ensures
            r == lookup(old(self)@, key@),
            final(self)@ == old(self)@.insert(key@, value),
            old(self)@.dom().finite(),
            final(self)@.dom().finite(),
            final(self)@.len() == old(self)@.len() + (if r is None { 1int } else { 0int }),
    {
        let previous = self.get(key);
        let mut m = StringHashMap::new();
        std::mem::swap(&mut m, &mut self.0);
        m.insert(key.to_owned(), value);
        self.0 = m;
        proof {
            if previous is Some {
                assert(old(self)@.insert(key@, value).dom() =~= old(self)@.dom());
            }
        }
        previous
    }

    /// Unbinds `key`; returns what it was bound to, if anything.
    pub fn remove(&mut self, key: &str) -> (r: Option<usize>)
        ensures
            r == lookup(old(self)@, key@),
            final(self)@ == old(self)@.remove(key@),
            old(self)@.dom().finite(),
            final(self)@.dom().finite(),
            final(self)@.len() == old(self)@.len() - (if r is Some { 1int } else { 0int }),
    {
        let previous = self.get(key);
        let mut m = StringHashMap::new();
        std::mem::swap(&mut m, &mut self.0);
        m.remove(key);
        self.0 = m;
        proof {
            if previous is None {
                assert(old(self)@.remove(key@).dom() =~= old(self)@.dom());
            }
        }
        previous
    }
}

/// A binding is read back; other keys keep theirs.
pub proof fn law_get_after_set(m: Map<Seq<char>, usize>, key: Seq<char>, value: usize, other: Seq<char>)
    requires
        other != key,
    ensures
        lookup(m.insert(key, value), key) == Some(value),
        lookup(m.insert(key, value), other) == lookup(m, other),
{
}

/// After `remove` the key is unbound; other keys keep their bindings.
pub proof fn law_get_after_remove(m: Map<Seq<char>, usize>, key: Seq<char>, other: Seq<char>)
    requires
        other != key,
    ensures
        lookup(m.remove(key), key) is None,
        lookup(m.remove(key), other) == lookup(m, other),
{
}

/// Binding a key and then removing it gives back the table as it was, when
/// the key was unbound before.
pub proof fn law_remove_undoes_set(m: Map<Seq<char>, usize>, key: Seq<char>, value: usize)
    requires
        !m.contains_key(key),
    ensures
        m.insert(key, value).remove(key) == m,
{
    assert(m.insert(key, value).remove(key) =~= m);
}


/// The table after a series of operations: `(key, Some(v))` binds, `(key,
/// None)` unbinds, in order.
pub open spec fn apply_ops(m: Map<Seq<char>, usize>, ops: Seq<(Seq<char>, Option<usize>)>) -> Map<Seq<char>, usize>
    decreases ops.len(),
{
    if ops.len() == 0 {
        m
    } else {
        let next = match ops[0].1 {
            Some(v) => m.insert(ops[0].0, v),
            None => m.remove(ops[0].0),
        };
        apply_ops(next, ops.drop_first())
    }
}

/// A key no operation touched keeps its binding (a new table binds nothing).
pub proof fn law_untouched_key(m: Map<Seq<char>, usize>, ops: Seq<(Seq<char>, Option<usize>)>, key: Seq<char>)
    requires
        forall|k: int| 0 <= k < ops.len() ==> (#[trigger] ops[k]).0 != key,
    ensures
        lookup(apply_ops(m, ops), key) == lookup(m, key),
    decreases ops.len(),
{
    if ops.len() > 0 {
        let next = match ops[0].1 {
            Some(v) => m.insert(ops[0].0, v),
            None => m.remove(ops[0].0),
        };
        assert(ops[0].0 != key);
        assert forall|k: int| 0 <= k < ops.drop_first().len() implies (#[trigger] ops.drop_first()[k]).0 != key by {
            assert(ops.drop_first()[k] == ops[k + 1]);
        }
        law_untouched_key(next, ops.drop_first(), key);
    }
}

/// Applying two series in turn is applying them one after the other.
pub proof fn law_ops_compose(
    m: Map<Seq<char>, usize>,
    a: Seq<(Seq<char>, Option<usize>)>,
    b: Seq<(Seq<char>, Option<usize>)>,
)
    ensures
        apply_ops(m, a + b) == apply_ops(apply_ops(m, a), b),
    decreases a.len(),
{
    if a.len() == 0 {
        assert(a + b =~= b);
    } else {
        let next = match a[0].1 {
            Some(v) => m.insert(a[0].0, v),
            None => m.remove(a[0].0),
        };
        assert((a + b).drop_first() =~= a.drop_first() + b);
        law_ops_compose(next, a.drop_first(), b);
    }
}

/// A key reads back as the last operation on it left it: bound to the value
/// of its last `set`, or unbound after its last `remove`, whatever was done
/// to other keys since.
pub proof fn law_last_op_wins(m: Map<Seq<char>, usize>, ops: Seq<(Seq<char>, Option<usize>)>, j: int)
    requires
        0 <= j < ops.len(),
        forall|k: int| j < k < ops.len() ==> (#[trigger] ops[k]).0 != ops[j].0,
    ensures
        lookup(apply_ops(m, ops), ops[j].0) == ops[j].1,
{
    let key = ops[j].0;
    let before = ops.subrange(0, j);
    let rest = ops.subrange(j + 1, ops.len() as int);
    assert(ops =~= before + (seq![ops[j]] + rest));
    law_ops_compose(m, before, seq![ops[j]] + rest);
    let m1 = apply_ops(m, before);
    let m2 = match ops[j].1 {
        Some(v) => m1.insert(key, v),
        None => m1.remove(key),
    };
    assert((seq![ops[j]] + rest).drop_first() =~= rest);
    assert(apply_ops(m1, seq![ops[j]] + rest) == apply_ops(m2, rest));
    assert forall|k: int| 0 <= k < rest.len() implies (#[trigger] rest[k]).0 != key by {
        assert(rest[k] == ops[j + 1 + k]);
    }
    law_untouched_key(m2, rest, key);
}

} // verus!
