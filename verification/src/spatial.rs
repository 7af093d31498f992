//! The table of the raw moments of a polygon.
use vstd::prelude::*;
use crate::accumulator::{Accumulator, SealedSupportedOrder};
use crate::index::{Index, SupportedIndex};
use crate::moments::Moments;
use crate::order::{Order, SupportedOrder};
use crate::primitives::{Point, Scalar};
use crate::storage::Storage;

verus! {

/// The positions that a slice of points stands for, in its order.
pub open spec fn positions<T: Scalar, P: Point<T>>(points: &[P]) -> Seq<(T, T)> {
    Seq::new(points@.len(), |k: int| points@[k].position())
}

/// The running sum of the coefficient `(i, j)` once the first `edges` edges
/// of the closed polygon through `vertices` have been added. Edge `k` runs
/// from vertex `k` to vertex `k + 1`, the last one back to vertex 0.
pub open spec fn running_sum<T: Scalar>(i: int, j: int, vertices: Seq<(T, T)>, edges: nat) -> T
    decreases edges,
{
    if edges == 0 {
        T::ZERO
    } else {
        crate::accumulator::accumulated(
            i,
            j,
            running_sum(i, j, vertices, (edges - 1) as nat),
            vertices[edges - 1],
            vertices[edges as int % vertices.len() as int],
        )
    }
}

/// The raw moment `(i, j)` of the closed polygon through `vertices`: zero
/// for no vertex at all, else the sum over all edges, scaled unless the
/// polygon is degenerate.
pub open spec fn spatial_moment<T: Scalar>(i: int, j: int, vertices: Seq<(T, T)>) -> T {
    if vertices.len() == 0 {
        T::ZERO
    } else {
        crate::accumulator::scaled(
            i,
            j,
            running_sum(i, j, vertices, vertices.len()),
            running_sum(0, 0, vertices, vertices.len()),
        )
    }
}

/// The raw, spatial moments of an image or contour.
pub struct Spatial<T: Scalar, const ORDER: usize>(
    pub(crate) <Order<ORDER> as SealedSupportedOrder<T>>::Storage,
) where Order<ORDER>: SupportedOrder<T>;

impl<T: Scalar, const ORDER: usize> Moments<T, ORDER> for Spatial<T, ORDER> where
    Order<ORDER>: SupportedOrder<T>,
 {
    open spec fn moment(&self, i: int, j: int) -> T {
        self.table().at(i, j)
    }

    #[inline(always)]
    fn get<const I: usize, const J: usize>(&self) -> T where Index<I, J>: SupportedIndex<ORDER> {
        proof {
            <Index<I, J> as SupportedIndex<ORDER>>::in_range();
            <Order<ORDER> as SealedSupportedOrder<T>>::storage_order();
            crate::private::lemma_index_degree::<I, J>();
            crate::private::lemma_order_degree::<ORDER>();
        }
        self.0.get::<I, J>()
    }
}

impl<T: Scalar, const ORDER: usize> Spatial<T, ORDER> where Order<ORDER>: SupportedOrder<T> {
    /// The storage that holds the moments.
    pub open(crate) spec fn table(&self) -> <Order<ORDER> as SealedSupportedOrder<T>>::Storage {
        self.0
    }

    /// Whether the table holds the raw moments of the closed polygon
    /// through `vertices`.
    pub open spec fn belongs_to(&self, vertices: Seq<(T, T)>) -> bool {
        forall|i: int, j: int|
            crate::storage::valid(i, j, ORDER as int) ==> #[trigger] self.moment(i, j)
                == spatial_moment(i, j, vertices)
    }

    /// The table of the raw moments of the closed polygon through
    /// `vertices`.
    pub open spec fn of(vertices: Seq<(T, T)>) -> Self {
        choose|moments: Self| moments.belongs_to(vertices)
    }

    /// A table is determined by the polygon whose moments it holds.
    pub proof fn lemma_unique(&self, vertices: Seq<(T, T)>)
        requires
            self.belongs_to(vertices),
        ensures
            *self == Self::of(vertices),
    {
        let chosen = Self::of(vertices);
        assert(chosen.belongs_to(vertices));
        <Order<ORDER> as SealedSupportedOrder<T>>::storage_order();
        crate::private::lemma_order_degree::<ORDER>();
        assert forall|i: int, j: int|
            crate::storage::valid(
                i,
                j,
                <<Order<ORDER> as SealedSupportedOrder<T>>::Storage as Storage<T>>::ORDER as int,
            ) implies #[trigger] self.0.at(i, j) == chosen.0.at(i, j) by {
            assert(self.moment(i, j) == chosen.moment(i, j));
        }
        <<Order<ORDER> as SealedSupportedOrder<T>>::Storage as Storage<T>>::lemma_extensional(
            &self.0,
            &chosen.0,
        );
    }

    /// The moments of the closed polygon through `points`, which name each
    /// vertex once: the edge from the last point back to the first is
    /// added here.
    pub fn from_points<P: Point<T>>(points: &[P]) -> (moments: Self)
        ensures
            moments.belongs_to(positions::<T, P>(points)),
            moments == Self::of(positions::<T, P>(points)),
            points@.len() == 0 ==> forall|i: int, j: int|
                crate::storage::valid(i, j, ORDER as int) ==> #[trigger] moments.moment(i, j)
                    == T::ZERO,
    {
        proof {
            <Order<ORDER> as SealedSupportedOrder<T>>::storage_order();
            crate::private::lemma_order_degree::<ORDER>();
        }
        let ghost vertices = positions::<T, P>(points);
        let n = points.len();
        if n == 0 {
            let moments = Self(<Order<ORDER> as SealedSupportedOrder<T>>::Storage::zeros());
            proof {
                moments.lemma_unique(vertices);
            }
            return moments;
        }
        let mut acc = Accumulator::<T, <Order<ORDER> as SealedSupportedOrder<T>>::Storage>::from_point(
            &points[0],
        );

        // Feed in all the values and "wrap around" in the end
        let mut k: usize = 1;
        while k < n
            invariant
                1 <= k <= n,
                n == points@.len(),
                vertices == positions::<T, P>(points),
                <<Order<ORDER> as SealedSupportedOrder<T>>::Storage as Storage<T>>::ORDER == ORDER,
                acc.last_point == vertices[k - 1],
                forall|i: int, j: int|
                    crate::storage::valid(i, j, ORDER as int) ==> #[trigger] acc.storage.at(i, j) == running_sum(
                        i,
                        j,
                        vertices,
                        (k - 1) as nat,
                    ),
            decreases n - k,
        {
            acc.update::<Order<ORDER>, P>(&points[k]);
            proof {
                vstd::arithmetic::div_mod::lemma_small_mod(k as nat, n as nat);
                assert(points@[k as int].position() == vertices[k as int]);
                assert forall|i: int, j: int|
                    crate::storage::valid(i, j, ORDER as int) implies acc.storage.at(i, j)
                    == running_sum(i, j, vertices, k as nat) by {
                    assert(i + j <= ORDER);
                }
            }
            k += 1;
        }
        acc.update::<Order<ORDER>, P>(&points[0]);
        proof {
            vstd::arithmetic::div_mod::lemma_mod_self_0(n as int);
            assert(points@[0].position() == vertices[0]);
            assert forall|i: int, j: int| crate::storage::valid(i, j, ORDER as int) implies acc.storage.at(
                i,
                j,
            ) == running_sum(i, j, vertices, n as nat) by {
                assert(i + j <= ORDER);
            }
            assert(crate::storage::valid(0, 0, ORDER as int));
        }

        // Calculate the final moments
        let moments = Self(acc.finalize::<Order<ORDER>>());
        proof {
            moments.lemma_unique(vertices);
        }
        moments
    }
}

} // verus!
