//! One end of a range: a value, whether the value itself is included, and
//! the side of the range that the bound is on.

use core::cmp::Ordering;
use core::marker::PhantomData;
use vstd::prelude::*;
use vstd::std_specs::cmp::{OrdSpec, PartialEqSpec, PartialOrdIs, PartialOrdSpec};

verus! {

/// The type of a range bound
#[derive(Clone, Copy, Debug, PartialEq, Eq, Structural)]
pub enum BoundType {
    /// The bound includes its value
    Inclusive,
    /// The bound excludes its value
    Exclusive,
}

/// The side of a range that a bound is on.
#[derive(Clone, Copy, Debug, PartialEq, Eq, Structural)]
pub enum BoundSide {
    /// The bound limits the range from above.
    Upper,
    /// The bound limits the range from below.
    Lower,
}

/// A tag type that fixes the side of a bound at compile time.
pub trait BoundSided {
    /// The side that the tag stands for.
    spec fn spec_side() -> BoundSide;

    /// The side that the tag stands for.
    fn side() -> (side: BoundSide)
        ensures
            side == Self::spec_side(),
    ;
}

/// A tag type representing an upper bound
///
/// Only the type is used; its one value says nothing.
#[derive(Debug)]
pub enum UpperBound {
    /// The one value of the tag.
    Tag,
}

/// A tag type representing a lower bound
///
/// Only the type is used; its one value says nothing.
#[derive(Debug)]
pub enum LowerBound {
    /// The one value of the tag.
    Tag,
}

impl BoundSided for UpperBound {
    open spec fn spec_side() -> BoundSide {
        BoundSide::Upper
    }

    fn side() -> BoundSide {
        BoundSide::Upper
    }
}

impl BoundSided for LowerBound {
    open spec fn spec_side() -> BoundSide {
        BoundSide::Lower
    }

    fn side() -> BoundSide {
        BoundSide::Lower
    }
}

/// Whether a bound on `side`, at `limit` and of type `type_`, admits
/// `value`: an upper bound admits what lies below its limit, a lower bound
/// what lies above it, and an inclusive bound the limit itself as well.
pub open spec fn admits<T: PartialOrd>(
    side: BoundSide,
    limit: T,
    type_: BoundType,
    value: T,
) -> bool {
    match (type_, side) {
        (BoundType::Inclusive, BoundSide::Upper) => value.is_le(&limit),
        (BoundType::Exclusive, BoundSide::Upper) => value.is_lt(&limit),
        (BoundType::Inclusive, BoundSide::Lower) => value.is_ge(&limit),
        (BoundType::Exclusive, BoundSide::Lower) => value.is_gt(&limit),
    }
}

/// Whether every clone of a `T` is the value that was cloned.
pub open spec fn clone_is_exact<T: Clone>() -> bool {
    forall|original: T, copy: T| #[trigger] cloned::<T>(original, copy) ==> copy == original
}

/// Whether `==` on `T` holds of identical values and of no others.
pub open spec fn eq_is_identity<T: PartialEq>() -> bool {
    &&& T::obeys_eq_spec()
    &&& forall|a: T, b: T| #[trigger] a.eq_spec(&b) <==> a == b
}

/// Represents a one-sided bound.
///
/// The side is determined by the `S` phantom parameter.
#[derive(Debug)]
pub struct RangeBound<S, T> {
    /// The value of the bound
    pub value: T,
    /// The type of the bound
    pub type_: BoundType,
    /// The side of the bound
    pub side: PhantomData<S>,
}

impl<S: BoundSided, T: PartialOrd> RangeBound<S, T> {
    /// The bound with the given value and type.
    pub open spec fn spec_new(value: T, type_: BoundType) -> Self {
        RangeBound { value, type_, side: PhantomData }
    }

    /// Whether this bound admits `value`.
    pub open spec fn spec_in_bounds(self, value: T) -> bool {
        admits(S::spec_side(), self.value, self.type_, value)
    }

    /// How this bound stands to `other`, both being on the side `S`.
    ///
    /// Bounds compare as their values do. Where the values are equal, the
    /// bound that admits less is the lesser of two upper bounds and the
    /// greater of two lower bounds: an exclusive upper bound lies below an
    /// inclusive one, an exclusive lower bound above an inclusive one.
    pub open spec fn compare(self, other: Self) -> Option<Ordering> {
        match (S::spec_side(), self.type_, other.type_, self.value.partial_cmp_spec(&other.value)) {
            (BoundSide::Upper, BoundType::Exclusive, BoundType::Inclusive, Some(Ordering::Equal))
            | (BoundSide::Lower, BoundType::Inclusive, BoundType::Exclusive, Some(Ordering::Equal)) => Some(
                Ordering::Less,
            ),
            (BoundSide::Upper, BoundType::Inclusive, BoundType::Exclusive, Some(Ordering::Equal))
            | (BoundSide::Lower, BoundType::Exclusive, BoundType::Inclusive, Some(Ordering::Equal)) => Some(
                Ordering::Greater,
            ),
            (_, _, _, order) => order,
        }
    }

    /// Constructs a new range bound
    pub fn new(value: T, type_: BoundType) -> (bound: Self)
        ensures
            bound == Self::spec_new(value, type_),
    {
        RangeBound { value, type_, side: PhantomData }
    }

    /// Determines if a value lies within the range specified by this bound.
    pub fn in_bounds(&self, value: &T) -> (within: bool)
        ensures
            T::obeys_partial_cmp_spec() ==> within == self.spec_in_bounds(*value),
    {
        match (self.type_, S::side()) {
            (BoundType::Inclusive, BoundSide::Upper) => value <= &self.value,
            (BoundType::Exclusive, BoundSide::Upper) => value < &self.value,
            (BoundType::Inclusive, BoundSide::Lower) => value >= &self.value,
            (BoundType::Exclusive, BoundSide::Lower) => value > &self.value,
        }
    }
}

impl<S: BoundSided, T: Clone> Clone for RangeBound<S, T> {
    fn clone(&self) -> (copy: RangeBound<S, T>)
        ensures
            cloned::<T>(self.value, copy.value),
            copy.type_ == self.type_,
            clone_is_exact::<T>() ==> copy == *self,
    {
        RangeBound { value: self.value.clone(), type_: self.type_, side: PhantomData }
    }
}

impl<S: BoundSided, T: PartialEq> PartialEq for RangeBound<S, T> {
    fn eq(&self, other: &RangeBound<S, T>) -> (equal: bool) {
        self.value == other.value && self.type_ == other.type_
    }

    fn ne(&self, other: &RangeBound<S, T>) -> (unequal: bool) {
        self.value != other.value || self.type_ != other.type_
    }
}

impl<S: BoundSided, T: PartialEq> vstd::std_specs::cmp::PartialEqSpecImpl for RangeBound<S, T> {
    open spec fn obeys_eq_spec() -> bool {
        T::obeys_eq_spec()
    }

    /// Two bounds are equal where their values are and their types are the
    /// same.
    open spec fn eq_spec(&self, other: &RangeBound<S, T>) -> bool {
        self.value.eq_spec(&other.value) && self.type_ == other.type_
    }
}

impl<S: BoundSided, T: Eq> Eq for RangeBound<S, T> {

}

impl<S: BoundSided, T: PartialOrd> PartialOrd for RangeBound<S, T> {
    fn partial_cmp(&self, other: &RangeBound<S, T>) -> (order: Option<Ordering>) {
        match (S::side(), self.type_, other.type_, self.value.partial_cmp(&other.value)) {
            (BoundSide::Upper, BoundType::Exclusive, BoundType::Inclusive, Some(Ordering::Equal))
            | (BoundSide::Lower, BoundType::Inclusive, BoundType::Exclusive, Some(Ordering::Equal)) => Some(
                Ordering::Less,
            ),
            (BoundSide::Upper, BoundType::Inclusive, BoundType::Exclusive, Some(Ordering::Equal))
            | (BoundSide::Lower, BoundType::Exclusive, BoundType::Inclusive, Some(Ordering::Equal)) => Some(
                Ordering::Greater,
            ),
            (_, _, _, order) => order,
        }
    }
}

impl<S: BoundSided, T: PartialOrd> vstd::std_specs::cmp::PartialOrdSpecImpl for RangeBound<S, T> {
    open spec fn obeys_partial_cmp_spec() -> bool {
        T::obeys_partial_cmp_spec()
    }

    open spec fn partial_cmp_spec(&self, other: &RangeBound<S, T>) -> Option<Ordering> {
        self.compare(*other)
    }
}

impl<S: BoundSided, T: Ord> RangeBound<S, T> {
    /// How this bound stands to `other` where any two values of `T` compare:
    /// by the values, and where those are equal, as in
    /// [`RangeBound::compare`].
    pub open spec fn total_compare(self, other: Self) -> Ordering {
        match (S::spec_side(), self.type_, other.type_, self.value.cmp_spec(&other.value)) {
            (BoundSide::Upper, BoundType::Exclusive, BoundType::Inclusive, Ordering::Equal)
            | (BoundSide::Lower, BoundType::Inclusive, BoundType::Exclusive, Ordering::Equal) => Ordering::Less,
            (BoundSide::Upper, BoundType::Inclusive, BoundType::Exclusive, Ordering::Equal)
            | (BoundSide::Lower, BoundType::Exclusive, BoundType::Inclusive, Ordering::Equal) => Ordering::Greater,
            (_, _, _, order) => order,
        }
    }

    /// Compares this bound with another on the same side.
    pub fn cmp(&self, other: &RangeBound<S, T>) -> (order: Ordering)
        ensures
            T::obeys_cmp_spec() ==> order == self.total_compare(*other),
    {
        match (S::side(), self.type_, other.type_, self.value.cmp(&other.value)) {
            (BoundSide::Upper, BoundType::Exclusive, BoundType::Inclusive, Ordering::Equal)
            | (BoundSide::Lower, BoundType::Inclusive, BoundType::Exclusive, Ordering::Equal) => Ordering::Less,
            (BoundSide::Upper, BoundType::Inclusive, BoundType::Exclusive, Ordering::Equal)
            | (BoundSide::Lower, BoundType::Exclusive, BoundType::Inclusive, Ordering::Equal) => Ordering::Greater,
            (_, _, _, order) => order,
        }
    }
}

} // verus!
