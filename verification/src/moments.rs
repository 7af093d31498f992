//! What the three tables of moments have in common.
use vstd::prelude::*;
use crate::index::{Index, SupportedIndex};
use crate::primitives::Scalar;

verus! {

/// A generalization over different moments.
pub trait Moments<T: Scalar, const ORDER: usize> {
    /// The moment `(i, j)` of the table, for `i + j <= ORDER`.
    spec fn moment(&self, i: int, j: int) -> T;

    /// Get the moment at a specific position checked at compile time.
    fn get<const I: usize, const J: usize>(&self) -> (r: T) where Index<I, J>: SupportedIndex<ORDER>
        ensures
            r == self.moment(I as int, J as int),
    ;
}

} // verus!
