//! Normal forms of bounds.
//!
//! Over a discrete type several bounds admit the same values: up to and
//! including 5 is below 6. Normalization picks one of them, so that ranges
//! with the same values are the same range.

use crate::bound::{admits, BoundSide, BoundSided, BoundType, RangeBound};
use time::Timespec;
use vstd::pervasive::runtime_assert;
use vstd::prelude::*;

verus! {

/// A point in time of the `time` crate, in seconds and nanoseconds.
///
/// Nothing is claimed of such a value: how two of them compare is left to
/// the specification that `PartialOrd` has for every type.
#[verifier::external_type_specification]
#[verifier::external_body]
pub struct ExTimespec(time::Timespec);

/// `Clone::clone` as the `time` crate derives it for `Timespec`, a `Copy`
/// type: the clone is the value that was cloned.
pub assume_specification[ <time::Timespec as Clone>::clone ](at: &time::Timespec) -> (copy:
    time::Timespec)
    ensures
        copy == *at,
;

/// A trait that normalizes a range bound for a type
///
/// For discrete types such as `i32`, the normalized lower bound is always
/// inclusive and the normalized upper bound is always exclusive. Other
/// types, such as `Timespec`, have no normalization process so their
/// implementation is a no-op.
///
/// A bound is given here by its side, its value and its type.
pub trait Normalizable: PartialOrd + Sized {
    /// Whether the bound has a normal form at all. Over a discrete type the
    /// greatest value has no successor, so a bound that would have to move
    /// past it has none.
    spec fn has_normal_form(side: BoundSide, value: Self, type_: BoundType) -> bool;

    /// The value and the type of the bound's normal form.
    spec fn normal_form(side: BoundSide, value: Self, type_: BoundType) -> (Self, BoundType);

    /// A normal form is its own normal form.
    proof fn normal_form_is_stable(side: BoundSide, value: Self, type_: BoundType)
        requires
            Self::has_normal_form(side, value, type_),
        ensures
            ({
                let (normal_value, normal_type) = Self::normal_form(side, value, type_);
                &&& Self::has_normal_form(side, normal_value, normal_type)
                &&& Self::normal_form(side, normal_value, normal_type) == (
                    normal_value,
                    normal_type,
                )
            }),
    ;

    /// A bound and its normal form admit the same values.
    proof fn normal_form_admits_the_same(
        side: BoundSide,
        value: Self,
        type_: BoundType,
        candidate: Self,
    )
        requires
            Self::has_normal_form(side, value, type_),
        ensures
            ({
                let (normal_value, normal_type) = Self::normal_form(side, value, type_);
                admits(side, normal_value, normal_type, candidate) == admits(
                    side,
                    value,
                    type_,
                    candidate,
                )
            }),
    ;

    /// Given a range bound, returns the normalized version of that bound.
    fn normalize<S: BoundSided>(bound: RangeBound<S, Self>) -> (normal: RangeBound<S, Self>)
        requires
            Self::has_normal_form(S::spec_side(), bound.value, bound.type_),
        ensures
            (normal.value, normal.type_) == Self::normal_form(
                S::spec_side(),
                bound.value,
                bound.type_,
            ),
    ;
}

impl<S: BoundSided, T: Normalizable> RangeBound<S, T> {
    /// Whether this bound has a normal form at all.
    pub open spec fn has_normal_form(self) -> bool {
        T::has_normal_form(S::spec_side(), self.value, self.type_)
    }

    /// The normal form of this bound.
    pub open spec fn normal_form(self) -> Self {
        let (value, type_) = T::normal_form(S::spec_side(), self.value, self.type_);
        RangeBound::spec_new(value, type_)
    }

    /// Whether this bound is its own normal form.
    pub open spec fn is_normal(self) -> bool {
        self.has_normal_form() && self.normal_form() == self
    }
}

/// Whether normalization moves a bound of this side and type over a discrete
/// type to the next value: an inclusive upper bound becomes exclusive, an
/// exclusive lower bound inclusive.
pub open spec fn steps(side: BoundSide, type_: BoundType) -> bool {
    match (side, type_) {
        (BoundSide::Upper, BoundType::Inclusive) | (BoundSide::Lower, BoundType::Exclusive) => true,
        _ => false,
    }
}

/// The type that the normal form of a bound over a discrete type has:
/// exclusive above, inclusive below.
pub open spec fn discrete_type(side: BoundSide) -> BoundType {
    match side {
        BoundSide::Upper => BoundType::Exclusive,
        BoundSide::Lower => BoundType::Inclusive,
    }
}

impl Normalizable for i32 {
    open spec fn has_normal_form(side: BoundSide, value: i32, type_: BoundType) -> bool {
        steps(side, type_) ==> value != i32::MAX
    }

    open spec fn normal_form(side: BoundSide, value: i32, type_: BoundType) -> (i32, BoundType) {
        if steps(side, type_) {
            ((value + 1) as i32, discrete_type(side))
        } else {
            (value, type_)
        }
    }

    proof fn normal_form_is_stable(side: BoundSide, value: i32, type_: BoundType) {
    }

    proof fn normal_form_admits_the_same(
        side: BoundSide,
        value: i32,
        type_: BoundType,
        candidate: i32,
    ) {
    }

    fn normalize<S: BoundSided>(bound: RangeBound<S, i32>) -> RangeBound<S, i32> {
        match (S::side(), bound.type_) {
            (BoundSide::Upper, BoundType::Inclusive) => {
                runtime_assert(bound.value != i32::MAX);
                RangeBound::new(bound.value + 1, BoundType::Exclusive)
            },
            (BoundSide::Lower, BoundType::Exclusive) => {
                runtime_assert(bound.value != i32::MAX);
                RangeBound::new(bound.value + 1, BoundType::Inclusive)
            },
            _ => bound,
        }
    }
}

impl Normalizable for i64 {
    open spec fn has_normal_form(side: BoundSide, value: i64, type_: BoundType) -> bool {
        steps(side, type_) ==> value != i64::MAX
    }

    open spec fn normal_form(side: BoundSide, value: i64, type_: BoundType) -> (i64, BoundType) {
        if steps(side, type_) {
            ((value + 1) as i64, discrete_type(side))
        } else {
            (value, type_)
        }
    }

    proof fn normal_form_is_stable(side: BoundSide, value: i64, type_: BoundType) {
    }

    proof fn normal_form_admits_the_same(
        side: BoundSide,
        value: i64,
        type_: BoundType,
        candidate: i64,
    ) {
    }

    fn normalize<S: BoundSided>(bound: RangeBound<S, i64>) -> RangeBound<S, i64> {
        match (S::side(), bound.type_) {
            (BoundSide::Upper, BoundType::Inclusive) => {
                runtime_assert(bound.value != i64::MAX);
                RangeBound::new(bound.value + 1, BoundType::Exclusive)
            },
            (BoundSide::Lower, BoundType::Exclusive) => {
                runtime_assert(bound.value != i64::MAX);
                RangeBound::new(bound.value + 1, BoundType::Inclusive)
            },
            _ => bound,
        }
    }
}

impl Normalizable for Timespec {
    open spec fn has_normal_form(side: BoundSide, value: Timespec, type_: BoundType) -> bool {
        true
    }

    open spec fn normal_form(side: BoundSide, value: Timespec, type_: BoundType) -> (
        Timespec,
        BoundType,
    ) {
        (value, type_)
    }

    proof fn normal_form_is_stable(side: BoundSide, value: Timespec, type_: BoundType) {
    }

    proof fn normal_form_admits_the_same(
        side: BoundSide,
        value: Timespec,
        type_: BoundType,
        candidate: Timespec,
    ) {
    }

    fn normalize<S: BoundSided>(bound: RangeBound<S, Timespec>) -> RangeBound<S, Timespec> {
        bound
    }
}

} // verus!
