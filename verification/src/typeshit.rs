use vstd::prelude::*;

verus! {

/// The line written to standard error when `pop` finds nothing at its index.
pub const ERR_POP: &'static str = "tried to pop off typeshit when couldn't :(";

/// A store of boxed values, each found again by the index `push` gave it.
pub struct TypeShit<T>(pub Vec<Box<T>>);

impl<T> TypeShit<T> {
    /// The value stored at `id`, if there is one.
    pub fn get(&self, id: usize) -> (r: Option<&T>)
        ensures
            r is Some <==> id < self.0@.len(),
            r is Some ==> *r->0 == *self.0@[id as int],
    {
        if id < self.0.len() {
            Some(&*self.0[id])
        } else {
            None
        }
    }

    /// Stores `b` at the end; returns its index.
    pub fn push(&mut self, b: Box<T>) -> (r: usize)
        ensures
            r == old(self).0@.len(),
            final(self).0@ == old(self).0@.push(b),
    {
        let index = self.0.len();
        self.0.push(b);
        index
    }

    /// Removes the value at `id` if there is one (later values move down by
    /// one); otherwise leaves the store as it is and gives the line to write
    /// to standard error, `ERR_POP`.
    pub fn pop(&mut self, id: usize) -> (r: Result<(), &'static str>)
        ensures
            r is Ok <==> id < old(self).0@.len(),
            r is Ok ==> final(self).0@ == old(self).0@.remove(id as int),
            r is Err ==> r == Err::<(), &'static str>(ERR_POP) && final(self).0@ == old(self).0@,
    {
        if id < self.0.len() {
            self.0.remove(id);
            Ok(())
        } else {
            Err(ERR_POP)
        }
    }
}

/// What was pushed is found at the index `push` returned, and popping it
/// right away gives back the store as it was.
pub proof fn law_push_get_pop<T>(s: Seq<Box<T>>, b: Box<T>)
    ensures
        s.push(b)[s.len() as int] == b,
        s.push(b).remove(s.len() as int) == s,
{
    assert(s.push(b).remove(s.len() as int) =~= s);
}


/// A value is found at the index `push` gave it after any number of further
/// pushes (with no `pop` between).
pub proof fn law_found_after_pushes<T>(s: Seq<Box<T>>, b: Box<T>, more: Seq<Box<T>>)
    ensures
        (s.push(b) + more)[s.len() as int] == b,
        (s.push(b) + more).len() == s.len() + 1 + more.len(),
{
}

} // verus!
