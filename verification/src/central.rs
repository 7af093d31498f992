//! The table of the central moments.
use vstd::prelude::*;
use crate::accumulator::SealedSupportedOrder;
use crate::central_moments::CentralMoments;
use crate::index::{Index, SupportedIndex};
use crate::moments::Moments;
use crate::order::{Order, SupportedOrder};
use crate::primitives::Scalar;
use crate::spatial::Spatial;
use crate::storage::Storage;

verus! {

/// The central moments of an image or contour which are translational invariant.
pub struct Central<T: Scalar, const ORDER: usize>(
    pub(crate) <Order<ORDER> as SealedSupportedOrder<T>>::Storage,
) where Order<ORDER>: SupportedOrder<T>;

impl<T: Scalar, const ORDER: usize> Central<T, ORDER> where Order<ORDER>: SupportedOrder<T> {
    /// The storage that holds the moments.
    pub open(crate) spec fn table(&self) -> <Order<ORDER> as SealedSupportedOrder<T>>::Storage {
        self.0
    }

    /// The table of the central moments that belong to the raw moments.
    pub open spec fn of(raw_moments: &Spatial<T, ORDER>) -> Self {
        choose|central: Self| central.belongs_to(raw_moments)
    }

    /// Whether the table holds the central moments that belong to the raw
    /// moments.
    pub open spec fn belongs_to(&self, raw_moments: &Spatial<T, ORDER>) -> bool {
        forall|i: int, j: int|
            crate::storage::valid(i, j, ORDER as int) ==> #[trigger] self.moment(i, j)
                == crate::central_moments::central_moment(i, j, &raw_moments.table())
    }
}

impl<T: Scalar, const ORDER: usize> Moments<T, ORDER> for Central<T, ORDER> where
    Order<ORDER>: SupportedOrder<T>,
 {
    open spec fn moment(&self, i: int, j: int) -> T {
        self.table().at(i, j)
    }

    #[inline(always)]
    fn get<const I: usize, const J: usize>(&self) -> T where Index<I, J>: SupportedIndex<ORDER> {
        proof {
            <Index<I, J> as SupportedIndex<ORDER>>::in_range();
            <Order<ORDER> as SealedSupportedOrder<T>>::storage_order();
            crate::private::lemma_index_degree::<I, J>();
            crate::private::lemma_order_degree::<ORDER>();
        }
        self.0.get::<I, J>()
    }
}

impl<'a, T: Scalar, const ORDER: usize> vstd::std_specs::convert::FromSpecImpl<&'a Spatial<T, ORDER>> for Central<T, ORDER> where Order<ORDER>: SupportedOrder<T> {
    open spec fn obeys_from_spec() -> bool {
        true
    }

    open spec fn from_spec(raw_moments: &'a Spatial<T, ORDER>) -> Self {
        Self::of(raw_moments)
    }
}

impl<'a, T: Scalar, const ORDER: usize> From<&'a Spatial<T, ORDER>> for Central<T, ORDER> where Order<ORDER>: SupportedOrder<T> {
    /// The central moments that belong to the raw moments: the moment
    /// `(0, 0)` is kept, those of total degree 1 are zero, and the higher
    /// ones are taken about the centroid.
    fn from(raw_moments: &'a Spatial<T, ORDER>) -> (central: Self)
        ensures
            central.belongs_to(raw_moments),
            ORDER >= 1 ==> central.moment(1, 0) == T::ZERO && central.moment(0, 1) == T::ZERO,
    {
        proof {
            <Order<ORDER> as SealedSupportedOrder<T>>::storage_order();
            crate::private::lemma_order_degree::<ORDER>();
        }
        let mut central_moments = <Order<ORDER> as SealedSupportedOrder<T>>::Storage::zeros();
        Order::<ORDER>::calculate_central_moments(&raw_moments.0, &mut central_moments);
        let central = Self(central_moments);
        proof {
            if ORDER >= 1 {
                assert(crate::storage::valid(1, 0, ORDER as int));
                assert(crate::storage::valid(0, 1, ORDER as int));
            }
            assert(central.belongs_to(raw_moments));
            let chosen = Self::of(raw_moments);
            assert(chosen.belongs_to(raw_moments));
            assert forall|i: int, j: int|
                crate::storage::valid(
                    i,
                    j,
                    <<Order<ORDER> as SealedSupportedOrder<T>>::Storage as Storage<T>>::ORDER as int,
                ) implies #[trigger] central.0.at(i, j) == chosen.0.at(i, j) by {
                assert(central.moment(i, j) == chosen.moment(i, j));
            }
            <<Order<ORDER> as SealedSupportedOrder<T>>::Storage as Storage<T>>::lemma_extensional(
                &central.0,
                &chosen.0,
            );
        }
        central
    }
}

} // verus!
