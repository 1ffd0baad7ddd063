//! Views of sequences, item by item.

use vstd::prelude::*;

verus! {

/// The views of `items`, in the same order.
pub open spec fn views<T: View>(items: Seq<T>) -> Seq<T::V> {
    Seq::new(items.len(), |i: int| items[i]@)
}

} // verus!
