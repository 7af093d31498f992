//! How the central moments follow from the raw moments, order by order.
use vstd::prelude::*;
use crate::order::Order;
use crate::primitives::Scalar;
use crate::private::Sealed;
use crate::storage::Storage;

verus! {

/// The centroid that the raw moments `m00`, `m10` and `m01` give: the first
/// moments over the magnitude of `m00`, or the origin where that magnitude
/// does not exceed the scalar's epsilon.
pub open spec fn centroid<T: Scalar>(m00: T, m10: T, m01: T) -> (T, T) {
    let mass = m00.spec_abs();
    if mass.spec_gt(T::EPSILON) {
        (m10.spec_div(mass), m01.spec_div(mass))
    } else {
        (T::ZERO, T::ZERO)
    }
}

/// The central moment `(i, j)` that belongs to the raw moments in `raw`,
/// for `i + j <= 3`.
pub open spec fn central_moment<T: Scalar, S: Storage<T>>(i: int, j: int, raw: &S) -> T {
    let (cx, cy) = centroid(raw.at(0, 0), raw.at(1, 0), raw.at(0, 1));
    let mu20 = raw.at(2, 0).spec_sub(raw.at(1, 0).spec_mul(cx));
    let mu11 = raw.at(1, 1).spec_sub(raw.at(1, 0).spec_mul(cy));
    let mu02 = raw.at(0, 2).spec_sub(raw.at(0, 1).spec_mul(cy));
    let mu11_2 = mu11.spec_mul(T::TWO);
    if i == 0 && j == 0 {
        raw.at(0, 0)
    } else if i == 2 && j == 0 {
        mu20
    } else if i == 1 && j == 1 {
        mu11
    } else if i == 0 && j == 2 {
        mu02
    } else if i == 3 && j == 0 {
        raw.at(3, 0).spec_sub(cx.spec_mul(T::THREE.spec_mul_add(mu20, cx.spec_mul(raw.at(1, 0)))))
    } else if i == 2 && j == 1 {
        raw.at(2, 1).spec_sub(cx.spec_mul(raw.at(0, 1).spec_mul_add(cx, mu11_2))).spec_sub(
            cy.spec_mul(mu20),
        )
    } else if i == 1 && j == 2 {
        raw.at(1, 2).spec_sub(cy.spec_mul(raw.at(1, 0).spec_mul_add(cy, mu11_2))).spec_sub(
            cx.spec_mul(mu02),
        )
    } else if i == 0 && j == 3 {
        raw.at(0, 3).spec_sub(cy.spec_mul(T::THREE.spec_mul_add(mu02, cy.spec_mul(raw.at(0, 1)))))
    } else {
        T::ZERO
    }
}

/// Implementation for calculating the central moments.
pub trait CentralMoments<T: Scalar>: Sealed {
    /// What the orders above reuse: the centroid, from order 2 on.
    type CentralIntermediateResult;

    /// Calculate the central moments inplace.
    /// `spatial` must contain the raw spatial moments of the appropriate order.
    /// The coefficients of total degree 1 are left as `central` holds them,
    /// and so are those above the degree of this order.
    fn calculate_central_moments<S: Storage<T>>(spatial: &S, central: &mut S) -> (r:
        Self::CentralIntermediateResult)
        requires
            Self::degree() <= S::ORDER,
        ensures
            forall|i: int, j: int|
                crate::storage::valid(i, j, S::ORDER as int) ==> #[trigger] final(central).at(i, j)
                    == if i + j <= Self::degree() && i + j != 1 {
                    central_moment(i, j, spatial)
                } else {
                    old(central).at(i, j)
                },
    ;
}

impl<T: Scalar> CentralMoments<T> for Order<0> {
    type CentralIntermediateResult = ();

    fn calculate_central_moments<S: Storage<T>>(input: &S, output: &mut S) {
        *output.get_mut::<0, 0>() = input.get::<0, 0>();
    }
}

impl<T: Scalar> CentralMoments<T> for Order<1> {
    type CentralIntermediateResult = ();

    fn calculate_central_moments<S: Storage<T>>(input: &S, output: &mut S) {
        Order::<0>::calculate_central_moments(input, output);
    }
}

impl<T: Scalar> CentralMoments<T> for Order<2> {
    type CentralIntermediateResult = (T, T);

    fn calculate_central_moments<S: Storage<T>>(input: &S, output: &mut S) -> (r: (T, T))
        ensures
            r == centroid(input.at(0, 0), input.at(1, 0), input.at(0, 1)),
    {
        Order::<1>::calculate_central_moments(input, output);

        let m00 = input.get::<0, 0>().abs();
        let (cx, cy) = if m00.gt(T::EPSILON) {
            (input.get::<1, 0>().div(m00), input.get::<0, 1>().div(m00))
        } else {
            (T::ZERO, T::ZERO)
        };

        *output.get_mut::<2, 0>() = input.get::<2, 0>().sub(input.get::<1, 0>().mul(cx));
        *output.get_mut::<1, 1>() = input.get::<1, 1>().sub(input.get::<1, 0>().mul(cy));
        *output.get_mut::<0, 2>() = input.get::<0, 2>().sub(input.get::<0, 1>().mul(cy));

        (cx, cy)
    }
}

impl<T: Scalar> CentralMoments<T> for Order<3> {
    type CentralIntermediateResult = ();

    fn calculate_central_moments<S: Storage<T>>(input: &S, output: &mut S) {
        let (cx, cy) = Order::<2>::calculate_central_moments(input, output);
        let mu20 = output.get::<2, 0>();
        let mu02 = output.get::<0, 2>();
        let mu11_2 = output.get::<1, 1>().mul(T::TWO);

        *output.get_mut::<3, 0>() = input.get::<3, 0>().sub(
            cx.mul(T::THREE.mul_add(mu20, cx.mul(input.get::<1, 0>()))),
        );

        *output.get_mut::<2, 1>() = input.get::<2, 1>().sub(
            cx.mul(input.get::<0, 1>().mul_add(cx, mu11_2)),
        ).sub(cy.mul(mu20));

        *output.get_mut::<1, 2>() = input.get::<1, 2>().sub(
            cy.mul(input.get::<1, 0>().mul_add(cy, mu11_2)),
        ).sub(cx.mul(mu02));

        *output.get_mut::<0, 3>() = input.get::<0, 3>().sub(
            cy.mul(T::THREE.mul_add(mu02, cy.mul(input.get::<0, 1>()))),
        );
    }
}

} // verus!
