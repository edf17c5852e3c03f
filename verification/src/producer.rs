//! Sources that hand out items in batches.

use vstd::prelude::*;

verus! {

/// A source polled for the items it has ready.
pub trait Producer {
    type Item;

    /// The items ready now, if any.
    fn poll(&mut self) -> Option<Vec<Self::Item>>;
}

} // verus!
