//! Ranges of values over an ordered type.
//!
//! A [`Range`] is empty, or holds what lies between a lower and an upper
//! [`RangeBound`]. Either bound may be absent, and each bound that is present
//! includes or excludes its own value. Ranges can be asked whether they
//! contain a value or another range, and can be intersected and united.
//!
//! Over a discrete type there are several ways to write one range. A range
//! keeps its bounds in the normal form that [`Normalizable`] gives, so that
//! ranges with the same values are equal.

pub mod bound;
pub mod laws;
pub mod normalize;
pub mod notation;
pub mod order;
pub mod range;
pub mod text;

pub use crate::bound::BoundType::{Exclusive, Inclusive};
pub use crate::bound::{BoundSide, BoundSided, BoundType, LowerBound, RangeBound, UpperBound};
pub use crate::normalize::Normalizable;
pub use crate::order::{order, OptBound};
pub use crate::range::{Interval, Range};
