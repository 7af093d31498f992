//! The accumulator that sums the contributions of the edges of a polygon,
//! and the engines of the four orders that it runs.
use vstd::prelude::*;
use crate::order::Order;
use crate::primitives::{Point, Scalar};
use crate::private::Sealed;
use crate::storage::Storage;

verus! {

/// The signed cross term `last.x * current.y - current.x * last.y` of the
/// edge from `last` to `current`, taken in one fused step.
pub open spec fn cross<T: Scalar>(last: (T, T), current: (T, T)) -> T {
    last.0.spec_mul_add(current.1, current.0.spec_mul(last.1.spec_neg()))
}

/// The factor by which the cross term of an edge enters the coefficient
/// `(i, j)`, for `1 <= i + j <= 3`.
pub open spec fn term<T: Scalar>(i: int, j: int, last: (T, T), current: (T, T)) -> T {
    let sum = (last.0.spec_add(current.0), last.1.spec_add(current.1));
    let current_pow = (current.0.spec_powi(2), current.1.spec_powi(2));
    let last_pow = (last.0.spec_powi(2), last.1.spec_powi(2));
    if i == 1 && j == 0 {
        sum.0
    } else if i == 0 && j == 1 {
        sum.1
    } else if i == 2 && j == 0 {
        last.0.spec_mul_add(sum.0, current_pow.0)
    } else if i == 1 && j == 1 {
        last.0.spec_mul_add(
            sum.1.spec_add(last.1),
            current.0.spec_mul(sum.1.spec_add(current.1)),
        )
    } else if i == 0 && j == 2 {
        last.1.spec_mul_add(sum.1, current_pow.1)
    } else if i == 3 && j == 0 {
        sum.0.spec_mul(last_pow.0.spec_add(current_pow.0))
    } else if i == 0 && j == 3 {
        sum.1.spec_mul(last_pow.1.spec_add(current_pow.1))
    } else if i == 2 && j == 1 {
        last_pow.0.spec_mul(T::THREE.spec_mul_add(last.1, current.1)).spec_add(
            T::TWO.spec_mul(current.0).spec_mul(last.0).spec_mul(sum.1),
        ).spec_add(current_pow.0.spec_mul(T::THREE.spec_mul_add(current.1, last.1)))
    } else if i == 1 && j == 2 {
        last_pow.1.spec_mul(T::THREE.spec_mul_add(last.0, current.0)).spec_add(
            T::TWO.spec_mul(current.1).spec_mul(last.1).spec_mul(sum.0),
        ).spec_add(current_pow.1.spec_mul(T::THREE.spec_mul_add(current.0, last.0)))
    } else {
        T::ONE
    }
}

/// The coefficient `(i, j)` after the edge from `last` to `current` has
/// been added to its running sum `sum`.
pub open spec fn accumulated<T: Scalar>(i: int, j: int, sum: T, last: (T, T), current: (T, T)) -> T {
    if i == 0 && j == 0 {
        sum.spec_add(cross(last, current))
    } else {
        cross(last, current).spec_mul_add(term(i, j, last, current), sum)
    }
}

/// The share of its running sum that the coefficient `(i, j)` keeps when
/// the sums are turned into moments.
pub open spec fn factor<T: Scalar>(i: int, j: int) -> T {
    if i + j == 0 {
        T::F1_2
    } else if i + j == 1 {
        T::F1_6
    } else if i + j == 2 {
        if i == 1 {
            T::F1_24
        } else {
            T::F1_12
        }
    } else if i == 3 || j == 3 {
        T::F1_20
    } else {
        T::F1_60
    }
}

/// Whether the running sum of the cross terms is too close to zero for the
/// sums to be scaled.
pub open spec fn degenerate<T: Scalar>(area_sum: T) -> bool {
    !area_sum.spec_abs().spec_gt(T::EPSILON)
}

/// The moment `(i, j)` that the running sum `sum` becomes, given the
/// running sum `area_sum` of the cross terms: scaled by its share with the
/// sign of `area_sum`, unless that sum is degenerate.
pub open spec fn scaled<T: Scalar>(i: int, j: int, sum: T, area_sum: T) -> T {
    if degenerate(area_sum) {
        sum
    } else {
        sum.spec_mul(factor::<T>(i, j).spec_copysign(T::ONE.spec_copysign(area_sum)))
    }
}

/// The running sums of a polygon whose edges are added one by one. It is
/// made from the first vertex, takes every further vertex and at last the
/// first one again through `update`, and is used up by `finalize`.
#[derive(Debug)]
pub struct Accumulator<T: Scalar, S: Storage<T>> {
    /// The running sum of every coefficient.
    pub storage: S,
    /// The vertex at which the next edge starts.
    pub last_point: (T, T),
    /// The vertex at which the edge that is being added ends; it has no
    /// meaning before the first `update`.
    pub current_point: (T, T),
}

impl<T: Scalar, S: Storage<T>> Accumulator<T, S> {
    /// Starts a polygon at its first vertex, with all sums at zero.
    pub fn from_point<P: Point<T>>(point: &P) -> (acc: Self)
        ensures
            acc.last_point == point.position(),
            forall|i: int, j: int|
                crate::storage::valid(i, j, S::ORDER as int) ==> #[trigger] acc.storage.at(i, j) == T::ZERO,
    {
        Accumulator {
            storage: S::zeros(),
            last_point: (point.x(), point.y()),
            current_point: (T::TWO, T::TWO),
        }
    }

    /// Adds the edge from the last vertex to `point` to every sum of total
    /// degree up to that of `O`, and makes `point` the last vertex.
    pub fn update<O: SealedSupportedOrder<T>, P: Point<T>>(&mut self, point: &P)
        requires
            O::degree() <= S::ORDER,
        ensures
            final(self).last_point == point.position(),
            final(self).current_point == point.position(),
            forall|i: int, j: int|
                crate::storage::valid(i, j, S::ORDER as int) ==> #[trigger] final(self).storage.at(i, j) == if i
                    + j <= O::degree() {
                    accumulated(i, j, old(self).storage.at(i, j), old(self).last_point, point.position())
                } else {
                    old(self).storage.at(i, j)
                },
    {
        self.current_point = (point.x(), point.y());
        O::update(self);
        self.last_point = self.current_point;
    }

    /// Turns the sums of total degree up to that of `O` into moments and
    /// hands the table out.
    pub fn finalize<O: SealedSupportedOrder<T>>(self) -> (table: S)
        requires
            O::degree() <= S::ORDER,
        ensures
            forall|i: int, j: int|
                crate::storage::valid(i, j, S::ORDER as int) ==> #[trigger] table.at(i, j) == if i + j
                    <= O::degree() {
                    scaled(i, j, self.storage.at(i, j), self.storage.at(0, 0))
                } else {
                    self.storage.at(i, j)
                },
    {
        let mut acc = self;
        let first_moment = acc.storage.get::<0, 0>();
        // Check whether there would be divisions (almost) by 0
        if first_moment.abs().gt(T::EPSILON) {
            let sign = T::ONE.copysign(first_moment);
            O::finalize(&mut acc, sign);
        }
        acc.storage
    }
}

/// The engine of an order: how the sums up to its degree take one edge, and
/// how they are turned into moments.
pub trait SealedSupportedOrder<T: Scalar>: Sealed {
    /// The underlying data storage.
    type Storage: Storage<T>;

    /// An intermediate result of the computation which is useful in subsequent computations of higher orders.
    type IntermediateResult;

    /// The underlying data storage holds the coefficients of this order.
    proof fn storage_order()
        ensures
            <Self::Storage as Storage<T>>::ORDER == Self::degree(),
    ;

    /// Update the storage given the current state of the accumulator.
    /// Higher order functions must ensure the lower order is called.
    fn update<S: Storage<T>>(acc: &mut Accumulator<T, S>) -> (r: Self::IntermediateResult)
        requires
            Self::degree() <= S::ORDER,
        ensures
            final(acc).last_point == old(acc).last_point,
            final(acc).current_point == old(acc).current_point,
            forall|i: int, j: int|
                crate::storage::valid(i, j, S::ORDER as int) ==> #[trigger] final(acc).storage.at(i, j) == if i
                    + j <= Self::degree() {
                    accumulated(
                        i,
                        j,
                        old(acc).storage.at(i, j),
                        old(acc).last_point,
                        old(acc).current_point,
                    )
                } else {
                    old(acc).storage.at(i, j)
                },
    ;

    /// Finalize the associated values in the storage.
    /// Higher order functions must ensure the lower order is called.
    fn finalize<S: Storage<T>>(acc: &mut Accumulator<T, S>, sign: T)
        requires
            Self::degree() <= S::ORDER,
        ensures
            final(acc).last_point == old(acc).last_point,
            final(acc).current_point == old(acc).current_point,
            forall|i: int, j: int|
                crate::storage::valid(i, j, S::ORDER as int) ==> #[trigger] final(acc).storage.at(i, j) == if i
                    + j <= Self::degree() {
                    old(acc).storage.at(i, j).spec_mul(factor::<T>(i, j).spec_copysign(sign))
                } else {
                    old(acc).storage.at(i, j)
                },
    ;
}

impl<T: Scalar> SealedSupportedOrder<T> for Order<0> {
    type Storage = [T; 1];

    type IntermediateResult = T;

    proof fn storage_order() {
        crate::storage::lemma_array_orders::<T>();
    }

    fn update<S: Storage<T>>(acc: &mut Accumulator<T, S>) -> (dxy: T)
        ensures
            dxy == cross(old(acc).last_point, old(acc).current_point),
    {
        let dxy = acc.last_point.0.mul_add(
            acc.current_point.1,
            acc.current_point.0.mul(acc.last_point.1.neg()),
        );
        let a00 = acc.storage.get_mut::<0, 0>();
        *a00 = (*a00).add(dxy);
        dxy
    }

    fn finalize<S: Storage<T>>(acc: &mut Accumulator<T, S>, sign: T) {
        let a00 = acc.storage.get_mut::<0, 0>();
        *a00 = (*a00).mul(T::F1_2.copysign(sign));
    }
}

impl<T: Scalar> SealedSupportedOrder<T> for Order<1> {
    type Storage = [T; 3];

    type IntermediateResult = (T, (T, T));

    proof fn storage_order() {
        crate::storage::lemma_array_orders::<T>();
    }

    fn update<S: Storage<T>>(acc: &mut Accumulator<T, S>) -> (r: (T, (T, T)))
        ensures
            r.0 == cross(old(acc).last_point, old(acc).current_point),
            r.1 == (
                old(acc).last_point.0.spec_add(old(acc).current_point.0),
                old(acc).last_point.1.spec_add(old(acc).current_point.1),
            ),
    {
        let dxy = Order::<0>::update(acc);
        let last_plus_current = (
            acc.last_point.0.add(acc.current_point.0),
            acc.last_point.1.add(acc.current_point.1),
        );

        {
            let a10 = acc.storage.get_mut::<1, 0>();
            *a10 = dxy.mul_add(last_plus_current.0, *a10);
        }

        {
            let a01 = acc.storage.get_mut::<0, 1>();
            *a01 = dxy.mul_add(last_plus_current.1, *a01);
        }

        (dxy, last_plus_current)
    }

    fn finalize<S: Storage<T>>(acc: &mut Accumulator<T, S>, sign: T) {
        Order::<0>::finalize(acc, sign);
        let factor = T::F1_6.copysign(sign);
        {
            let a10 = acc.storage.get_mut::<1, 0>();
            *a10 = (*a10).mul(factor);
        }
        {
            let a01 = acc.storage.get_mut::<0, 1>();
            *a01 = (*a01).mul(factor);
        }
    }
}

impl<T: Scalar> SealedSupportedOrder<T> for Order<2> {
    type Storage = [T; 6];

    type IntermediateResult = (T, (T, T), (T, T));

    proof fn storage_order() {
        crate::storage::lemma_array_orders::<T>();
    }

    fn update<S: Storage<T>>(acc: &mut Accumulator<T, S>) -> (r: (T, (T, T), (T, T)))
        ensures
            r.0 == cross(old(acc).last_point, old(acc).current_point),
            r.1 == (
                old(acc).last_point.0.spec_add(old(acc).current_point.0),
                old(acc).last_point.1.spec_add(old(acc).current_point.1),
            ),
            r.2 == (old(acc).current_point.0.spec_powi(2), old(acc).current_point.1.spec_powi(2)),
    {
        let (dxy, last_plus_current) = Order::<1>::update(acc);
        let current_pow = (acc.current_point.0.powi(2), acc.current_point.1.powi(2));

        {
            let a20 = acc.storage.get_mut::<2, 0>();
            *a20 = dxy.mul_add(acc.last_point.0.mul_add(last_plus_current.0, current_pow.0), *a20);
        }

        {
            let a11 = acc.storage.get_mut::<1, 1>();
            *a11 = dxy.mul_add(
                acc.last_point.0.mul_add(
                    last_plus_current.1.add(acc.last_point.1),
                    acc.current_point.0.mul(last_plus_current.1.add(acc.current_point.1)),
                ),
                *a11,
            );
        }

        {
            let a02 = acc.storage.get_mut::<0, 2>();
            *a02 = dxy.mul_add(acc.last_point.1.mul_add(last_plus_current.1, current_pow.1), *a02);
        }

        (dxy, last_plus_current, current_pow)
    }

    fn finalize<S: Storage<T>>(acc: &mut Accumulator<T, S>, sign: T) {
        Order::<1>::finalize(acc, sign);
        let f1_12 = T::F1_12.copysign(sign);
        {
            let a20 = acc.storage.get_mut::<2, 0>();
            *a20 = (*a20).mul(f1_12);
        }
        {
            let a02 = acc.storage.get_mut::<0, 2>();
            *a02 = (*a02).mul(f1_12);
        }
        {
            let a11 = acc.storage.get_mut::<1, 1>();
            *a11 = (*a11).mul(T::F1_24.copysign(sign));
        }
    }
}

impl<T: Scalar> SealedSupportedOrder<T> for Order<3> {
    type Storage = [T; 10];

    type IntermediateResult = ();

    proof fn storage_order() {
        crate::storage::lemma_array_orders::<T>();
    }

    fn update<S: Storage<T>>(acc: &mut Accumulator<T, S>) {
        let (dxy, last_plus_current, current_pow) = Order::<2>::update(acc);
        let last_pow = (acc.last_point.0.powi(2), acc.last_point.1.powi(2));

        {
            let a30 = acc.storage.get_mut::<3, 0>();
            *a30 = dxy.mul_add(last_plus_current.0.mul(last_pow.0.add(current_pow.0)), *a30);
        }

        {
            let a03 = acc.storage.get_mut::<0, 3>();
            *a03 = dxy.mul_add(last_plus_current.1.mul(last_pow.1.add(current_pow.1)), *a03);
        }

        {
            let a21 = acc.storage.get_mut::<2, 1>();
            *a21 = dxy.mul_add(
                last_pow.0.mul(T::THREE.mul_add(acc.last_point.1, acc.current_point.1)).add(
                    T::TWO.mul(acc.current_point.0).mul(acc.last_point.0).mul(last_plus_current.1),
                ).add(current_pow.0.mul(T::THREE.mul_add(acc.current_point.1, acc.last_point.1))),
                *a21,
            );
        }

        {
            let a12 = acc.storage.get_mut::<1, 2>();
            *a12 = dxy.mul_add(
                last_pow.1.mul(T::THREE.mul_add(acc.last_point.0, acc.current_point.0)).add(
                    T::TWO.mul(acc.current_point.1).mul(acc.last_point.1).mul(last_plus_current.0),
                ).add(current_pow.1.mul(T::THREE.mul_add(acc.current_point.0, acc.last_point.0))),
                *a12,
            );
        }
    }

    fn finalize<S: Storage<T>>(acc: &mut Accumulator<T, S>, sign: T) {
        Order::<2>::finalize(acc, sign);
        let f1_20 = T::F1_20.copysign(sign);
        let f1_60 = T::F1_60.copysign(sign);
        {
            let a30 = acc.storage.get_mut::<3, 0>();
            *a30 = (*a30).mul(f1_20);
        }
        {
            let a21 = acc.storage.get_mut::<2, 1>();
            *a21 = (*a21).mul(f1_60);
        }
        {
            let a12 = acc.storage.get_mut::<1, 2>();
            *a12 = (*a12).mul(f1_60);
        }
        {
            let a03 = acc.storage.get_mut::<0, 3>();
            *a03 = (*a03).mul(f1_20);
        }
    }
}

} // verus!
