//! Buffers that accept items pushed from outside.

use vstd::prelude::*;

use std::collections::VecDeque;

verus! {

/// Calls `VecDeque::capacity`: the number of items the deque can hold
/// without reallocating. Claimed of it: that number is at least the number
/// of items it holds. How much more is whatever the allocator gave, and is
/// left unsaid.
#[verifier::external_body]
pub(crate) fn deque_capacity<T>(d: &VecDeque<T>) -> (r: usize)
    ensures
        r >= d@.len(),
{
    d.capacity()
}

/// A buffer that accepts items one by one or in slices.
pub trait Consume {
    type Item: Copy;

    /// The items waiting in the buffer, oldest first.
    spec fn buffered(&self) -> Seq<Self::Item>;

    /// Push a single item to the internal buffer
    fn push(&mut self, item: Self::Item)
        ensures
            final(self).buffered() == old(self).buffered().push(item),
    ;

    /// Push multiple items to the internal buffer
    fn extend(&mut self, items: &[Self::Item])
        ensures
            final(self).buffered() == old(self).buffered() + items@,
    ;

    /// Get the capacity of the internal buffer: room for at least the items
    /// it holds.
    fn capacity(&self) -> (r: usize)
        ensures
            r >= self.buffered().len(),
    ;

    /// Get the length of the internal buffer
    fn len(&self) -> (r: usize)
        ensures
            r == self.buffered().len(),
    ;

    /// Indicate if the internal buffer is empty
    fn is_empty(&self) -> (r: bool)
        ensures
            r == (self.buffered().len() == 0),
    ;
}

/// Append a slice at the back of a deque.
pub(crate) fn deque_extend<T: Copy>(d: &mut VecDeque<T>, items: &[T])
    ensures
        final(d)@ == old(d)@ + items@,
{
    let n = items.len();
    let mut i: usize = 0;
    while i < n
        invariant
            n == items@.len(),
            0 <= i <= n,
            d@ == old(d)@ + items@.take(i as int),
        decreases n - i,
    {
        d.push_back(items[i]);
        assert(items@.take(i + 1) =~= items@.take(i as int).push(items@[i as int]));
        i += 1;
    }
    assert(items@.take(n as int) =~= items@);
}

} // verus!
