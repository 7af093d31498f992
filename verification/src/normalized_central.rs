//! The table of the normalized central moments.
use vstd::prelude::*;
use crate::accumulator::SealedSupportedOrder;
use crate::central::Central;
use crate::index::{Index, SupportedIndex};
use crate::moments::Moments;
use crate::normalized_central_moments::NormalizedCentralMoments;
use crate::order::{Order, SupportedOrder};
use crate::primitives::Scalar;
use crate::storage::Storage;

verus! {

/// The normalized central moments of an image or contour which are translational and scale invariant.
pub struct NormalizedCentral<T: Scalar, const ORDER: usize>(
    pub(crate) <Order<ORDER> as SealedSupportedOrder<T>>::Storage,
) where Order<ORDER>: SupportedOrder<T>;

impl<T: Scalar, const ORDER: usize> NormalizedCentral<T, ORDER> where
    Order<ORDER>: SupportedOrder<T>,
 {
    /// The storage that holds the moments.
    pub open(crate) spec fn table(&self) -> <Order<ORDER> as SealedSupportedOrder<T>>::Storage {
        self.0
    }

    /// The table of the normalized central moments that belong to the
    /// central moments.
    pub open spec fn of(central_moments: &Central<T, ORDER>) -> Self {
        choose|normalized: Self| normalized.belongs_to(central_moments)
    }

    /// Whether the table holds the normalized central moments that belong
    /// to the central moments.
    pub open spec fn belongs_to(&self, central_moments: &Central<T, ORDER>) -> bool {
        forall|i: int, j: int|
            crate::storage::valid(i, j, ORDER as int) ==> #[trigger] self.moment(i, j)
                == crate::normalized_central_moments::normalized_moment(
                i,
                j,
                &central_moments.table(),
            )
    }
}

impl<'a, T: Scalar, const ORDER: usize> vstd::std_specs::convert::FromSpecImpl<&'a Central<T, ORDER>> for NormalizedCentral<T, ORDER> where Order<ORDER>: SupportedOrder<T> {
    open spec fn obeys_from_spec() -> bool {
        true
    }

    open spec fn from_spec(central_moments: &'a Central<T, ORDER>) -> Self {
        Self::of(central_moments)
    }
}

impl<'a, T: Scalar, const ORDER: usize> From<&'a Central<T, ORDER>> for NormalizedCentral<T, ORDER> where Order<ORDER>: SupportedOrder<T> {
    /// The normalized central moments that belong to the central moments:
    /// the moment `(0, 0)` is one, those of total degree 1 are zero, and the
    /// higher ones are the central moments scaled by a power of the inverse
    /// of the central moment `(0, 0)`.
    fn from(central_moments: &'a Central<T, ORDER>) -> (normalized: Self)
        ensures
            normalized.belongs_to(central_moments),
            normalized.moment(0, 0) == T::ONE,
            ORDER >= 1 ==> normalized.moment(1, 0) == T::ZERO && normalized.moment(0, 1) == T::ZERO,
    {
        proof {
            <Order<ORDER> as SealedSupportedOrder<T>>::storage_order();
            crate::private::lemma_order_degree::<ORDER>();
        }
        let mut normalized_central_moments =
            <Order<ORDER> as SealedSupportedOrder<T>>::Storage::zeros();
        Order::<ORDER>::calculate_normalized_central_moments(
            &central_moments.0,
            &mut normalized_central_moments,
        );
        let normalized = Self(normalized_central_moments);
        proof {
            assert(crate::storage::valid(0, 0, ORDER as int));
            if ORDER >= 1 {
                assert(crate::storage::valid(1, 0, ORDER as int));
                assert(crate::storage::valid(0, 1, ORDER as int));
            }
            assert(normalized.belongs_to(central_moments));
            let chosen = Self::of(central_moments);
            assert(chosen.belongs_to(central_moments));
            assert forall|i: int, j: int|
                crate::storage::valid(
                    i,
                    j,
                    <<Order<ORDER> as SealedSupportedOrder<T>>::Storage as Storage<T>>::ORDER as int,
                ) implies #[trigger] normalized.0.at(i, j) == chosen.0.at(i, j) by {
                assert(normalized.moment(i, j) == chosen.moment(i, j));
            }
            <<Order<ORDER> as SealedSupportedOrder<T>>::Storage as Storage<T>>::lemma_extensional(
                &normalized.0,
                &chosen.0,
            );
        }
        normalized
    }
}

impl<T: Scalar, const ORDER: usize> Moments<T, ORDER> for NormalizedCentral<T, ORDER> where
    Order<ORDER>: SupportedOrder<T>,
 {
    open spec fn moment(&self, i: int, j: int) -> T {
        self.table().at(i, j)
    }

    #[inline(always)]
    fn get<const I: usize, const J: usize>(&self) -> T where Index<I, J>: SupportedIndex<ORDER> {
        proof {
            <Index<I, J> as SupportedIndex<ORDER>>::in_range();
            <Order<ORDER> as SealedSupportedOrder<T>>::storage_order();
            crate::private::lemma_index_degree::<I, J>();
            crate::private::lemma_order_degree::<ORDER>();
        }
        self.0.get::<I, J>()
    }
}

} // verus!
