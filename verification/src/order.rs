//! The order of bounds that may be absent, and what it takes for a
//! comparison to be an order.

use crate::bound::{BoundSide, BoundSided, RangeBound};
use core::cmp::Ordering;
use vstd::prelude::*;
use vstd::std_specs::cmp::{PartialEqSpec, PartialOrdIs, PartialOrdSpec};

verus! {

/// Whether the comparison of `T` is a partial order: values compare as the
/// specification of `partial_cmp` says, each value equals itself, only
/// identical values are equal, `a < b` is `b > a`, and `<` is transitive.
pub open spec fn is_partial_order<T: PartialOrd>() -> bool {
    &&& T::obeys_partial_cmp_spec()
    &&& forall|a: T| #[trigger] a.partial_cmp_spec(&a) == Some(Ordering::Equal)
    &&& forall|a: T, b: T| #[trigger] a.partial_cmp_spec(&b) == Some(Ordering::Equal) ==> a == b
    &&& forall|a: T, b: T| #[trigger]
        a.partial_cmp_spec(&b) == Some(Ordering::Less) <==> b.partial_cmp_spec(&a) == Some(
            Ordering::Greater,
        )
    &&& forall|a: T, b: T, c: T|
        #[trigger] a.partial_cmp_spec(&b) == Some(Ordering::Less) && #[trigger] b.partial_cmp_spec(
            &c,
        ) == Some(Ordering::Less) ==> a.partial_cmp_spec(&c) == Some(Ordering::Less)
}

/// Whether the comparison of `T` is a total order: a partial order in which
/// any two values compare.
pub open spec fn is_total_order<T: PartialOrd>() -> bool {
    &&& is_partial_order::<T>()
    &&& forall|a: T, b: T| (#[trigger] a.partial_cmp_spec(&b)) is Some
}

/// How a bound `a` that may be absent stands to another, `b`, both being on
/// the side `S`.
///
/// An absent lower bound lies below every lower bound, an absent upper bound
/// above every upper bound, and two absent bounds are equal. Two bounds that
/// are present compare as [`RangeBound::compare`] says.
pub open spec fn compare_optional<S: BoundSided, T: PartialOrd>(
    a: Option<RangeBound<S, T>>,
    b: Option<RangeBound<S, T>>,
) -> Option<Ordering> {
    match (a, b, S::spec_side()) {
        (None, None, _) => Some(Ordering::Equal),
        (None, _, BoundSide::Lower) | (_, None, BoundSide::Upper) => Some(Ordering::Less),
        (None, _, BoundSide::Upper) | (_, None, BoundSide::Lower) => Some(Ordering::Greater),
        (Some(a), Some(b), _) => a.compare(b),
    }
}

/// Of two bounds that may be absent, `a` where it is strictly less than `b`,
/// else `b`.
pub open spec fn lesser<S: BoundSided, T: PartialOrd>(
    a: Option<RangeBound<S, T>>,
    b: Option<RangeBound<S, T>>,
) -> Option<RangeBound<S, T>> {
    if compare_optional(a, b) == Some(Ordering::Less) {
        a
    } else {
        b
    }
}

/// Of two bounds that may be absent, `b` where `a` is strictly less than it,
/// else `a`.
pub open spec fn greater<S: BoundSided, T: PartialOrd>(
    a: Option<RangeBound<S, T>>,
    b: Option<RangeBound<S, T>>,
) -> Option<RangeBound<S, T>> {
    if compare_optional(a, b) == Some(Ordering::Less) {
        b
    } else {
        a
    }
}

/// A borrowed bound that may be absent, ordered as [`compare_optional`]
/// says.
pub struct OptBound<'a, S, T>(pub Option<&'a RangeBound<S, T>>);

impl<'a, S, T> View for OptBound<'a, S, T> {
    type V = Option<RangeBound<S, T>>;

    /// The bound itself, if there is one.
    open spec fn view(&self) -> Option<RangeBound<S, T>> {
        match self.0 {
            Some(bound) => Some(*bound),
            None => None,
        }
    }
}

impl<'a, S: BoundSided, T: PartialEq> PartialEq for OptBound<'a, S, T> {
    fn eq(&self, other: &OptBound<'a, S, T>) -> (equal: bool) {
        self.0 == other.0
    }

    fn ne(&self, other: &OptBound<'a, S, T>) -> (unequal: bool) {
        self.0 != other.0
    }
}

impl<'a, S: BoundSided, T: PartialEq> vstd::std_specs::cmp::PartialEqSpecImpl for OptBound<'a, S, T> {
    open spec fn obeys_eq_spec() -> bool {
        T::obeys_eq_spec()
    }

    /// Both absent, or both present and equal.
    open spec fn eq_spec(&self, other: &OptBound<'a, S, T>) -> bool {
        PartialEqSpec::eq_spec(&self@, &other@)
    }
}

impl<'a, S: BoundSided, T: PartialOrd> PartialOrd for OptBound<'a, S, T> {
    fn partial_cmp(&self, other: &OptBound<'a, S, T>) -> (order: Option<Ordering>) {
        match (self.0, other.0, S::side()) {
            (None, None, _) => Some(Ordering::Equal),
            (None, _, BoundSide::Lower) | (_, None, BoundSide::Upper) => Some(Ordering::Less),
            (None, _, BoundSide::Upper) | (_, None, BoundSide::Lower) => Some(Ordering::Greater),
            (Some(a), Some(b), _) => a.partial_cmp(b),
        }
    }
}

impl<'a, S: BoundSided, T: PartialOrd> vstd::std_specs::cmp::PartialOrdSpecImpl for OptBound<'a, S, T> {
    open spec fn obeys_partial_cmp_spec() -> bool {
        T::obeys_partial_cmp_spec()
    }

    open spec fn partial_cmp_spec(&self, other: &OptBound<'a, S, T>) -> Option<Ordering> {
        compare_optional(self@, other@)
    }
}

/// The pair `(a, b)` put in order: `a` first where it is strictly less than
/// `b`, else `b` first.
pub open spec fn spec_order<T: PartialOrd>(a: T, b: T) -> (T, T) {
    if a.is_lt(&b) {
        (a, b)
    } else {
        (b, a)
    }
}

/// Puts two values in order, the lesser first.
///
/// Values that are equal, or do not compare, come out the other way round.
pub fn order<T: PartialOrd>(a: T, b: T) -> (pair: (T, T))
    ensures
        pair == (a, b) || pair == (b, a),
        T::obeys_partial_cmp_spec() ==> pair == spec_order(a, b),
{
    if a < b {
        (a, b)
    } else {
        (b, a)
    }
}

} // verus!
