//! Geometric moments of closed polygons: raw, central and normalized central
//! moments up to total degree three, in a packed triangular table.
//!
//! The moments are calculated in a scalar type of the caller's choice, by one
//! pass over the edges of the polygon. Every table is specified coefficient
//! by coefficient over the operations of that scalar. For a scalar that
//! calculates without error the tables hold the moments of the polygon over
//! the real numbers, which do not depend on the vertex at which the polygon
//! starts; the central moments then do not change when the polygon is moved,
//! nor the normalized central moments when it is scaled.

pub mod accumulator;
mod algebra;
pub mod central;
pub mod central_moments;
pub mod exact;
pub mod index;
pub mod invariance;
pub mod moments;
mod moved;
pub mod normalized_central;
pub mod normalized_central_moments;
pub mod order;
pub mod polygon;
pub mod primitives;
mod private;
pub mod spatial;
pub mod storage;

pub use self::central::Central;
pub use self::index::{Index, SupportedIndex};
pub use self::moments::Moments;
pub use self::normalized_central::NormalizedCentral;
pub use self::order::{Order, SupportedOrder};
pub use self::primitives::{Point, Scalar};
pub use self::spatial::Spatial;
