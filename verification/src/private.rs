//! What keeps the marker traits closed.
use vstd::prelude::*;
use crate::index::Index;
use crate::order::Order;

verus! {

/// Keeps the marker traits of indices and orders closed to other crates.
pub trait Sealed {
    /// Total degree that the marker stands for: `i + j` of an index, the
    /// order itself of an order.
    spec fn degree() -> int;
}

impl<const I: usize, const J: usize> Sealed for Index<I, J> {
    open spec fn degree() -> int {
        I + J
    }
}

impl<const O: usize> Sealed for Order<O> {
    open spec fn degree() -> int {
        O as int
    }
}

/// The degree of an index is the sum of its two parts.
pub proof fn lemma_index_degree<const I: usize, const J: usize>()
    ensures
        <Index<I, J> as Sealed>::degree() == I + J,
{
}

/// The degree of an order is the order itself.
pub proof fn lemma_order_degree<const O: usize>()
    ensures
        <Order<O> as Sealed>::degree() == O,
{
}

} // verus!
