//! A helper on owned vectors.

use vstd::prelude::*;

verus! {

/// The same items in the opposite order.
pub fn reversed<T>(items: Vec<T>) -> (r: Vec<T>)
    ensures
        r@.len() == items@.len(),
        forall|j: int| 0 <= j < r@.len() ==> #[trigger] r@[j] == items@[items@.len() - 1 - j],
{
    let ghost all = items@;
    let mut rest = items;
    let mut out: Vec<T> = Vec::new();
    while rest.len() > 0
        invariant
            rest@.len() + out@.len() == all.len(),
            rest@ == all.take(rest@.len() as int),
            forall|j: int| 0 <= j < out@.len() ==> #[trigger] out@[j] == all[all.len() - 1 - j],
        decreases rest.len(),
    {
        let ghost before = rest@;
        match rest.pop() {
            Some(item) => {
                out.push(item);
                assert(rest@ =~= all.take(rest@.len() as int));
            },
            None => {},
        }
    }
    out
}

} // verus!
