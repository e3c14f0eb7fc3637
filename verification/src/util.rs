use vstd::prelude::*;

verus! {

/// The result of a runtime operation: a value, or a fixed message.
pub type Output<T> = Result<T, &'static str>;

/// What a callback hands back: perhaps an object, named by its handle.
pub type Generic = Output<Option<usize>>;

/// Message of a read past the last slot of an object.
pub const ERR_GET: &'static str = "failed to get object property";

/// Message of a write more than one past the last slot of an object.
pub const ERR_SET: &'static str = "tried to set out of bounds object property";

/// Message of a function slot whose index is not in the call table.
pub const ERR_FN: &'static str = "failed to get object property as function";


/// Each state in `ts` is the one before with one more entry at the end, as
/// after a run of calls each of which appends one entry (`Object::new`,
/// `from` and `wrap` on the object table; `push` on a `TypeShit`).
pub open spec fn appends_only<A>(ts: Seq<Seq<A>>) -> bool {
    forall|i: int| 0 < i < ts.len() ==> #[trigger] ts[i] == ts[i - 1].push(ts[i].last())
}

/// Over any run of appending calls, an entry present at the start is still
/// there, unchanged, at every later state, and every entry added later has
/// an index past all the entries of the start.
pub proof fn law_appends_keep<A>(ts: Seq<Seq<A>>, h: int, k: int)
    requires
        appends_only(ts),
        0 <= h < ts[0].len(),
        0 <= k < ts.len(),
    ensures
        h < ts[k].len(),
        ts[k][h] == ts[0][h],
        ts[k].len() == ts[0].len() + k,
        k > 0 ==> h < ts[k].len() - 1,
    decreases k,
{
    if k > 0 {
        law_appends_keep(ts, h, k - 1);
        assert(ts[k] == ts[k - 1].push(ts[k].last()));
    }
}

} // verus!
