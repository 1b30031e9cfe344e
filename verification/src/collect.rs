//! Mapping over vectors.
use vstd::prelude::*;

verus! {

/// Applies `f` to every item, in order.
pub(crate) fn map_all<A, B, F: Fn(A) -> B>(items: Vec<A>, f: F) -> (r: Vec<B>)
    requires
        forall|a: A| #[trigger] f.requires((a,)),
    ensures
        r@.len() == items@.len(),
        forall|i: int| 0 <= i < items@.len() ==> f.ensures((items@[i],), #[trigger] r@[i]),
{
    let mut out: Vec<B> = Vec::new();
    for item in it: items
        invariant
            it.seq() == items@,
            forall|a: A| #[trigger] f.requires((a,)),
            out@.len() == it.index(),
            forall|i: int| 0 <= i < out@.len() ==> f.ensures((items@[i],), #[trigger] out@[i]),
    {
        out.push(f(item));
    }
    out
}

} // verus!
