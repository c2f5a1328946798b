//! Searching a sequence for the first item that yields a result.

use vstd::prelude::*;
use vstd::std_specs::iter::IteratorSpec;

verus! {

/// Applies `func` to the items of `iter` in order and returns the first
/// `Some` it produces; `None` when every item gave `None`. Items after the
/// first hit are never handed to `func`.
pub fn iterate_till_some<U, It, F>(iter: It, func: F) -> (found: Option<U>) where
    It: Iterator,
    F: Fn(It::Item) -> Option<U>,

    requires
        iter.obeys_prophetic_iter_laws(),
        iter.decrease() is Some,
        forall|i: int|
            0 <= i < iter.remaining().len() ==> call_requires(
                func,
                (#[trigger] iter.remaining()[i],),
            ),
    ensures
        match found {
            Some(value) => exists|i: int|
                0 <= i < iter.remaining().len()
                && call_ensures(func, (#[trigger] iter.remaining()[i],), Some(value))
                && forall|j: int|
                    0 <= j < i ==> call_ensures(func, (#[trigger] iter.remaining()[j],), None),
            None => forall|i: int|
                0 <= i < iter.remaining().len() ==> call_ensures(
                    func,
                    (#[trigger] iter.remaining()[i],),
                    None,
                ),
        },
{
    let ghost items = iter.remaining();
    let mut rest = iter;
    let ghost mut seen: int = 0;
    loop
        invariant
            items == iter.remaining(),
            rest.obeys_prophetic_iter_laws(),
            rest.decrease() is Some,
            0 <= seen <= items.len(),
            rest.remaining() == items.skip(seen),
            forall|i: int| 0 <= i < items.len() ==> call_requires(func, (#[trigger] items[i],)),
            forall|j: int| 0 <= j < seen ==> call_ensures(func, (#[trigger] items[j],), None),
        decreases rest.decrease()->0,
    {
        match rest.next() {
            None => {
                return None;
            },
            Some(item) => {
                let outcome = func(item);
                if let Some(value) = outcome {
                    return Some(value);
                }
                proof {
                    seen = seen + 1;
                }
            },
        }
    }
}

} // verus!
