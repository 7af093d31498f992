//! How the normalized central moments follow from the central moments,
//! order by order.
use vstd::prelude::*;
use crate::order::Order;
use crate::primitives::Scalar;
use crate::private::Sealed;
use crate::storage::Storage;

verus! {

/// The inverse of the central moment `mu00`, or zero where its magnitude
/// does not exceed the scalar's epsilon.
pub open spec fn inverse_mass<T: Scalar>(mu00: T) -> T {
    if mu00.spec_abs().spec_gt(T::EPSILON) {
        T::ONE.spec_div(mu00)
    } else {
        T::ZERO
    }
}

/// The scale by which the central moments of total degree `degree` are
/// normalized, for degree 2 and 3.
pub open spec fn scale<T: Scalar>(degree: int, mu00: T) -> T {
    let inv_m00 = inverse_mass(mu00);
    let s2 = inv_m00.spec_powi(2);
    if degree == 2 {
        s2
    } else {
        s2.spec_mul(inv_m00.spec_abs().spec_sqrt())
    }
}

/// The normalized central moment `(i, j)` that belongs to the central
/// moments in `central`, for `i + j <= 3`.
pub open spec fn normalized_moment<T: Scalar, S: Storage<T>>(i: int, j: int, central: &S) -> T {
    if i == 0 && j == 0 {
        T::ONE
    } else if i + j == 2 || i + j == 3 {
        central.at(i, j).spec_mul(scale(i + j, central.at(0, 0)))
    } else {
        T::ZERO
    }
}

/// Implementation for calculating the normalized central moments.
pub trait NormalizedCentralMoments<T: Scalar>: Sealed {
    /// What the orders above reuse: the inverse of the moment `(0, 0)` and,
    /// from order 2 on, its square.
    type NormalizedCentralIntermediateResult;

    /// Calculate the normalized central moments.
    /// `central` must contain the central moments of the appropriate order.
    /// The coefficients of total degree 1 are left as `normalized` holds
    /// them, and so are those above the degree of this order.
    fn calculate_normalized_central_moments<S: Storage<T>>(central: &S, normalized: &mut S) -> (r:
        Self::NormalizedCentralIntermediateResult)
        requires
            Self::degree() <= S::ORDER,
        ensures
            forall|i: int, j: int|
                crate::storage::valid(i, j, S::ORDER as int) ==> #[trigger] final(normalized).at(i, j)
                    == if i + j <= Self::degree() && i + j != 1 {
                    normalized_moment(i, j, central)
                } else {
                    old(normalized).at(i, j)
                },
    ;
}

impl<T: Scalar> NormalizedCentralMoments<T> for Order<0> {
    type NormalizedCentralIntermediateResult = T;

    fn calculate_normalized_central_moments<S: Storage<T>>(input: &S, output: &mut S) -> (r: T)
        ensures
            r == inverse_mass(input.at(0, 0)),
    {
        *output.get_mut::<0, 0>() = T::ONE;

        let m00 = input.get::<0, 0>();
        if m00.abs().gt(T::EPSILON) {
            T::ONE.div(m00)
        } else {
            T::ZERO
        }
    }
}

impl<T: Scalar> NormalizedCentralMoments<T> for Order<1> {
    type NormalizedCentralIntermediateResult = T;

    fn calculate_normalized_central_moments<S: Storage<T>>(input: &S, output: &mut S) -> (r: T)
        ensures
            r == inverse_mass(input.at(0, 0)),
    {
        Order::<0>::calculate_normalized_central_moments(input, output)
    }
}

impl<T: Scalar> NormalizedCentralMoments<T> for Order<2> {
    type NormalizedCentralIntermediateResult = (T, T);

    fn calculate_normalized_central_moments<S: Storage<T>>(input: &S, output: &mut S) -> (r: (T, T))
        ensures
            r.0 == inverse_mass(input.at(0, 0)),
            r.1 == scale(2, input.at(0, 0)),
    {
        let inv_m00 = Order::<1>::calculate_normalized_central_moments(input, output);
        let s2 = inv_m00.powi(2);

        *output.get_mut::<2, 0>() = input.get::<2, 0>().mul(s2);
        *output.get_mut::<1, 1>() = input.get::<1, 1>().mul(s2);
        *output.get_mut::<0, 2>() = input.get::<0, 2>().mul(s2);

        (inv_m00, s2)
    }
}

impl<T: Scalar> NormalizedCentralMoments<T> for Order<3> {
    type NormalizedCentralIntermediateResult = ();

    fn calculate_normalized_central_moments<S: Storage<T>>(input: &S, output: &mut S) {
        let (inv_m00, s2) = Order::<2>::calculate_normalized_central_moments(input, output);
        let inv_sqrt_m00 = inv_m00.abs().sqrt();
        let s3 = s2.mul(inv_sqrt_m00);

        *output.get_mut::<3, 0>() = input.get::<3, 0>().mul(s3);
        *output.get_mut::<2, 1>() = input.get::<2, 1>().mul(s3);
        *output.get_mut::<1, 2>() = input.get::<1, 2>().mul(s3);
        *output.get_mut::<0, 3>() = input.get::<0, 3>().mul(s3);
    }
}

} // verus!
