//! Orders of moments that are fixed at compile time.
use vstd::prelude::*;
use crate::accumulator::SealedSupportedOrder;
use crate::central_moments::CentralMoments;
use crate::normalized_central_moments::NormalizedCentralMoments;
use crate::primitives::Scalar;

verus! {

/// An order of image moments specified at compile time.
#[derive(Debug, Clone, Copy, PartialEq, Eq, Default)]
pub struct Order<const O: usize>;

/// An order currently supported by this crate for calculating image moments.
/// The trait is sealed and the actual implementation details hidden from the user.
pub trait SupportedOrder<T: Scalar>: SealedSupportedOrder<T> + CentralMoments<T> + NormalizedCentralMoments<
    T,
> {

}

impl<T: Scalar> SupportedOrder<T> for Order<0> {

}

impl<T: Scalar> SupportedOrder<T> for Order<1> {

}

impl<T: Scalar> SupportedOrder<T> for Order<2> {

}

impl<T: Scalar> SupportedOrder<T> for Order<3> {

}

} // verus!
