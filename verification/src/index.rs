//! Indices of moments that are checked at compile time.
use vstd::prelude::*;
use crate::private::Sealed;

verus! {

/// An index specified at compile time.
#[derive(Debug, Clone, PartialEq, Eq, Default)]
pub struct Index<const I: usize, const J: usize>;

/// A marker trait indicating a compile-time index is valid for a specific order. This trait is sealed.
pub trait SupportedIndex<const ORDER: usize>: Sealed {
    /// An index that is supported lies inside a table of that order.
    proof fn in_range()
        ensures
            Self::degree() <= ORDER,
    ;
}

impl SupportedIndex<0> for Index<0, 0> {
    proof fn in_range() {
    }
}

impl SupportedIndex<1> for Index<0, 0> {
    proof fn in_range() {
    }
}

impl SupportedIndex<2> for Index<0, 0> {
    proof fn in_range() {
    }
}

impl SupportedIndex<3> for Index<0, 0> {
    proof fn in_range() {
    }
}

impl SupportedIndex<1> for Index<1, 0> {
    proof fn in_range() {
    }
}

impl SupportedIndex<2> for Index<1, 0> {
    proof fn in_range() {
    }
}

impl SupportedIndex<3> for Index<1, 0> {
    proof fn in_range() {
    }
}

impl SupportedIndex<1> for Index<0, 1> {
    proof fn in_range() {
    }
}

impl SupportedIndex<2> for Index<0, 1> {
    proof fn in_range() {
    }
}

impl SupportedIndex<3> for Index<0, 1> {
    proof fn in_range() {
    }
}

impl SupportedIndex<2> for Index<1, 1> {
    proof fn in_range() {
    }
}

impl SupportedIndex<3> for Index<1, 1> {
    proof fn in_range() {
    }
}

impl SupportedIndex<2> for Index<2, 0> {
    proof fn in_range() {
    }
}

impl SupportedIndex<3> for Index<2, 0> {
    proof fn in_range() {
    }
}

impl SupportedIndex<2> for Index<0, 2> {
    proof fn in_range() {
    }
}

impl SupportedIndex<3> for Index<0, 2> {
    proof fn in_range() {
    }
}

impl SupportedIndex<3> for Index<3, 0> {
    proof fn in_range() {
    }
}

impl SupportedIndex<3> for Index<0, 3> {
    proof fn in_range() {
    }
}

impl SupportedIndex<3> for Index<2, 1> {
    proof fn in_range() {
    }
}

impl SupportedIndex<3> for Index<1, 2> {
    proof fn in_range() {
    }
}

} // verus!
