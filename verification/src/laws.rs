//! What holds of bounds and ranges whatever their values are.
//!
//! The laws on ranges are stated of [`Interval`], the view of a range:
//! whatever the functions of [`Range`](crate::range::Range) return has such a
//! view, and their contracts say which.

use crate::bound::{
    clone_is_exact, eq_is_identity, BoundSide, BoundSided, BoundType, LowerBound, RangeBound, UpperBound,
};
use crate::normalize::{discrete_type, steps, Normalizable};
use crate::order::{greater, is_partial_order, is_total_order, lesser, OptBound};
use crate::range::{Interval, Range};
use core::cmp::Ordering;
use time::Timespec;
use vstd::prelude::*;
use vstd::std_specs::cmp::{OrdSpec, PartialEqSpec, PartialOrdIs, PartialOrdSpec};

verus! {

/// The integers of `i32` are totally ordered.
pub proof fn lemma_i32_total_order()
    ensures
        is_total_order::<i32>(),
{
}

/// The integers of `i64` are totally ordered.
pub proof fn lemma_i64_total_order()
    ensures
        is_total_order::<i64>(),
{
}

/// A clone of a point in time is that point in time.
pub proof fn lemma_timespec_clone_is_exact()
    ensures
        clone_is_exact::<Timespec>(),
{
}

/// Bounds of one side over a partially ordered type are partially ordered.
pub proof fn lemma_bound_partial_order<S: BoundSided, T: PartialOrd>()
    requires
        is_partial_order::<T>(),
    ensures
        is_partial_order::<RangeBound<S, T>>(),
{
}

/// Bounds of one side over a totally ordered type are totally ordered.
pub proof fn lemma_bound_total_order<S: BoundSided, T: PartialOrd>()
    requires
        is_total_order::<T>(),
    ensures
        is_total_order::<RangeBound<S, T>>(),
{
    lemma_bound_partial_order::<S, T>();
}

/// Bounds of one side that may be absent, over a partially ordered type, are
/// partially ordered.
pub proof fn lemma_optional_bound_partial_order<'a, S: BoundSided, T: PartialOrd>()
    requires
        is_partial_order::<T>(),
    ensures
        is_partial_order::<OptBound<'a, S, T>>(),
{
}

/// Bounds of one side that may be absent, over a totally ordered type, are
/// totally ordered.
pub proof fn lemma_optional_bound_total_order<'a, S: BoundSided, T: PartialOrd>()
    requires
        is_total_order::<T>(),
    ensures
        is_total_order::<OptBound<'a, S, T>>(),
{
    lemma_optional_bound_partial_order::<S, T>();
}

/// Where `cmp` on `T` agrees with `partial_cmp`, so it does on bounds.
pub proof fn lemma_total_compare_agrees<S: BoundSided, T: Ord>(
    a: RangeBound<S, T>,
    b: RangeBound<S, T>,
)
    requires
        a.value.partial_cmp_spec(&b.value) == Some(a.value.cmp_spec(&b.value)),
    ensures
        a.compare(b) == Some(a.total_compare(b)),
{
}

/// An upper bound admits whatever a lesser or equal upper bound admits, and
/// a lower bound whatever a greater or equal lower bound admits.
pub proof fn lemma_lesser_bound_admits<S: BoundSided, T: PartialOrd>(
    a: RangeBound<S, T>,
    b: RangeBound<S, T>,
    value: T,
)
    requires
        is_partial_order::<T>(),
        a.compare(b) matches Some(Ordering::Less | Ordering::Equal),
    ensures
        S::spec_side() == BoundSide::Upper && a.spec_in_bounds(value) ==> b.spec_in_bounds(value),
        S::spec_side() == BoundSide::Lower && b.spec_in_bounds(value) ==> a.spec_in_bounds(value),
{
}

/// Where `==` on `T` holds of identical values only, so it does on bounds.
pub proof fn lemma_bound_eq_is_identity<S: BoundSided, T: PartialEq>()
    requires
        eq_is_identity::<T>(),
    ensures
        eq_is_identity::<RangeBound<S, T>>(),
{
}

/// Where `==` on `T` holds of identical values only, two ranges are equal
/// if and only if they have the same view.
pub proof fn lemma_range_eq_is_identity<T: PartialEq>(a: Range<T>, b: Range<T>)
    requires
        eq_is_identity::<T>(),
    ensures
        PartialEqSpec::eq_spec(&a, &b) <==> a@ == b@,
{
}

/// Normalizing twice is normalizing once: a normal form is in normal form.
pub proof fn lemma_normal_form_is_normal<S: BoundSided, T: Normalizable>(bound: RangeBound<S, T>)
    requires
        bound.has_normal_form(),
    ensures
        bound.normal_form().is_normal(),
{
    T::normal_form_is_stable(S::spec_side(), bound.value, bound.type_);
}

/// A bound and its normal form admit the same values.
pub proof fn lemma_normal_form_admits_the_same<S: BoundSided, T: Normalizable>(
    bound: RangeBound<S, T>,
    value: T,
)
    requires
        bound.has_normal_form(),
    ensures
        bound.normal_form().spec_in_bounds(value) == bound.spec_in_bounds(value),
{
    T::normal_form_admits_the_same(S::spec_side(), bound.value, bound.type_, value);
}

/// Over `i32`, a bound is in normal form if and only if it is inclusive
/// below or exclusive above.
pub proof fn lemma_i32_normal_bounds<S: BoundSided>(bound: RangeBound<S, i32>)
    ensures
        bound.is_normal() <==> bound.type_ == discrete_type(S::spec_side()),
        !steps(S::spec_side(), bound.type_) ==> bound.normal_form() == bound,
{
}

/// Over `i64`, a bound is in normal form if and only if it is inclusive
/// below or exclusive above.
pub proof fn lemma_i64_normal_bounds<S: BoundSided>(bound: RangeBound<S, i64>)
    ensures
        bound.is_normal() <==> bound.type_ == discrete_type(S::spec_side()),
        !steps(S::spec_side(), bound.type_) ==> bound.normal_form() == bound,
{
}

/// Over `i32`, the four ways to write the integers from `first` to `last`
/// give one range: from `first` inclusive to the successor of `last`
/// exclusive.
pub proof fn lemma_i32_notations_agree(first: i32, last: i32)
    requires
        i32::MIN < first,
        last < i32::MAX,
    ensures
        ({
            let before = (first - 1) as i32;
            let after = (last + 1) as i32;
            let closed = Interval::between(
                Some(RangeBound::spec_new(first, BoundType::Inclusive)),
                Some(RangeBound::spec_new(last, BoundType::Inclusive)),
            );
            &&& closed == Interval::between(
                Some(RangeBound::spec_new(first, BoundType::Inclusive)),
                Some(RangeBound::spec_new(after, BoundType::Exclusive)),
            )
            &&& closed == Interval::between(
                Some(RangeBound::spec_new(before, BoundType::Exclusive)),
                Some(RangeBound::spec_new(last, BoundType::Inclusive)),
            )
            &&& closed == Interval::between(
                Some(RangeBound::spec_new(before, BoundType::Exclusive)),
                Some(RangeBound::spec_new(after, BoundType::Exclusive)),
            )
            &&& first <= last ==> closed == Interval::Bounded(
                Some(RangeBound::spec_new(first, BoundType::Inclusive)),
                Some(RangeBound::spec_new(after, BoundType::Exclusive)),
            )
            &&& first > last ==> closed is Empty
        }),
{
}

/// Over `i64`, the four ways to write the integers from `first` to `last`
/// give one range: from `first` inclusive to the successor of `last`
/// exclusive.
pub proof fn lemma_i64_notations_agree(first: i64, last: i64)
    requires
        i64::MIN < first,
        last < i64::MAX,
    ensures
        ({
            let before = (first - 1) as i64;
            let after = (last + 1) as i64;
            let closed = Interval::between(
                Some(RangeBound::spec_new(first, BoundType::Inclusive)),
                Some(RangeBound::spec_new(last, BoundType::Inclusive)),
            );
            &&& closed == Interval::between(
                Some(RangeBound::spec_new(first, BoundType::Inclusive)),
                Some(RangeBound::spec_new(after, BoundType::Exclusive)),
            )
            &&& closed == Interval::between(
                Some(RangeBound::spec_new(before, BoundType::Exclusive)),
                Some(RangeBound::spec_new(last, BoundType::Inclusive)),
            )
            &&& closed == Interval::between(
                Some(RangeBound::spec_new(before, BoundType::Exclusive)),
                Some(RangeBound::spec_new(after, BoundType::Exclusive)),
            )
            &&& first <= last ==> closed == Interval::Bounded(
                Some(RangeBound::spec_new(first, BoundType::Inclusive)),
                Some(RangeBound::spec_new(after, BoundType::Exclusive)),
            )
            &&& first > last ==> closed is Empty
        }),
{
}

/// The interval between two bounds is well formed.
pub proof fn lemma_between_wf<T: PartialOrd + Normalizable>(
    lower: Option<RangeBound<LowerBound, T>>,
    upper: Option<RangeBound<UpperBound, T>>,
)
    requires
        lower matches Some(bound) ==> bound.has_normal_form(),
        upper matches Some(bound) ==> bound.has_normal_form(),
    ensures
        Interval::between(lower, upper).wf(),
{
    if let Some(bound) = lower {
        lemma_normal_form_is_normal(bound);
    }
    if let Some(bound) = upper {
        lemma_normal_form_is_normal(bound);
    }
}

/// Over a partially ordered type, the lower bound of a well-formed interval
/// is at a lesser value than its upper bound, or both include one and the
/// same value.
pub proof fn lemma_wf_bounds_in_order<T: PartialOrd + Normalizable>(
    lower: RangeBound<LowerBound, T>,
    upper: RangeBound<UpperBound, T>,
)
    requires
        is_partial_order::<T>(),
        Interval::Bounded(Some(lower), Some(upper)).wf(),
    ensures
        lower.value.is_lt(&upper.value) || (lower.value == upper.value && lower.type_
            == BoundType::Inclusive && upper.type_ == BoundType::Inclusive),
{
}

/// Over a partially ordered type, the interval between two bounds is empty
/// unless the value of the lower bound, in normal form, is less than that
/// of the upper bound, or both include one and the same value. Bounds whose
/// values do not compare give the empty interval.
pub proof fn lemma_between_empty<T: PartialOrd + Normalizable>(
    lower: RangeBound<LowerBound, T>,
    upper: RangeBound<UpperBound, T>,
)
    requires
        is_partial_order::<T>(),
    ensures
        ({
            let low = lower.normal_form();
            let high = upper.normal_form();
            let range = Interval::between(Some(lower), Some(upper));
            &&& range is Empty <==> !(low.value.is_lt(&high.value) || (low.value == high.value
                && low.type_ == BoundType::Inclusive && high.type_ == BoundType::Inclusive))
            &&& !(range is Empty) ==> range == Interval::Bounded(Some(low), Some(high))
            &&& low.value.partial_cmp_spec(&high.value) is None ==> range is Empty
        }),
{
}

/// The interval between two bounds holds the values that both bounds admit.
pub proof fn lemma_between_contains<T: PartialOrd + Normalizable>(
    lower: Option<RangeBound<LowerBound, T>>,
    upper: Option<RangeBound<UpperBound, T>>,
    value: T,
)
    requires
        is_partial_order::<T>(),
        lower matches Some(bound) ==> bound.has_normal_form(),
        upper matches Some(bound) ==> bound.has_normal_form(),
    ensures
        Interval::between(lower, upper).contains(value) <==> ({
            &&& lower matches Some(bound) ==> bound.spec_in_bounds(value)
            &&& upper matches Some(bound) ==> bound.spec_in_bounds(value)
        }),
{
    if let Some(bound) = lower {
        lemma_normal_form_admits_the_same(bound, value);
    }
    if let Some(bound) = upper {
        lemma_normal_form_admits_the_same(bound, value);
    }
}

/// Every interval contains the empty interval.
pub proof fn lemma_contains_range_empty<T: PartialOrd + Normalizable>(range: Interval<T>)
    ensures
        range.contains_range(Interval::Empty),
{
}

/// Every interval contains itself.
pub proof fn lemma_contains_range_reflexive<T: PartialOrd + Normalizable>(range: Interval<T>)
    requires
        is_partial_order::<T>(),
    ensures
        range.contains_range(range),
{
}

/// An interval contains what an interval that it contains contains.
pub proof fn lemma_contains_range_transitive<T: PartialOrd + Normalizable>(
    a: Interval<T>,
    b: Interval<T>,
    c: Interval<T>,
)
    requires
        is_partial_order::<T>(),
        a.contains_range(b),
        b.contains_range(c),
    ensures
        a.contains_range(c),
{
}

/// A value that lies in an interval lies in every interval that contains
/// it.
pub proof fn lemma_contains_range_contains<T: PartialOrd + Normalizable>(
    a: Interval<T>,
    b: Interval<T>,
    value: T,
)
    requires
        is_partial_order::<T>(),
        a.contains_range(b),
        b.contains(value),
    ensures
        a.contains(value),
{
}

/// The intersection of well-formed intervals is well formed.
pub proof fn lemma_intersect_wf<T: PartialOrd + Normalizable>(a: Interval<T>, b: Interval<T>)
    requires
        a.wf(),
        b.wf(),
    ensures
        a.intersect(b).wf(),
{
    if !(a is Empty) && !(b is Empty) {
        lemma_between_wf(greater(a.lower(), b.lower()), lesser(a.upper(), b.upper()));
    }
}

/// Intersection does not depend on the order of its operands.
pub proof fn lemma_intersect_commutative<T: PartialOrd + Normalizable>(
    a: Interval<T>,
    b: Interval<T>,
)
    requires
        is_total_order::<T>(),
    ensures
        a.intersect(b) == b.intersect(a),
{
}

/// A well-formed interval intersected with itself is that interval.
pub proof fn lemma_intersect_self<T: PartialOrd + Normalizable>(a: Interval<T>)
    requires
        T::obeys_partial_cmp_spec(),
        a.wf(),
    ensures
        a.intersect(a) == a,
{
}

/// The intersection of two intervals holds the values that lie in both.
pub proof fn lemma_intersect_contains<T: PartialOrd + Normalizable>(
    a: Interval<T>,
    b: Interval<T>,
    value: T,
)
    requires
        is_total_order::<T>(),
        a.wf(),
        b.wf(),
    ensures
        a.intersect(b).contains(value) <==> a.contains(value) && b.contains(value),
{
    if !(a is Empty) && !(b is Empty) {
        lemma_between_contains(greater(a.lower(), b.lower()), lesser(a.upper(), b.upper()), value);
    }
}

/// The union of an interval with the empty interval is that interval.
pub proof fn lemma_union_empty<T: PartialOrd + Normalizable>(a: Interval<T>)
    ensures
        a.union(Interval::Empty) == Some(a),
        Interval::Empty.union(a) == Some(a),
{
}

/// The union of well-formed intervals, where there is one, is well formed.
pub proof fn lemma_union_wf<T: PartialOrd + Normalizable>(a: Interval<T>, b: Interval<T>)
    requires
        a.wf(),
        b.wf(),
    ensures
        a.union(b) matches Some(joined) ==> joined.wf(),
{
    if !(a is Empty) && !(b is Empty) {
        lemma_between_wf(lesser(a.lower(), b.lower()), greater(a.upper(), b.upper()));
    }
}

/// Union does not depend on the order of its operands.
pub proof fn lemma_union_commutative<T: PartialOrd + Normalizable>(a: Interval<T>, b: Interval<T>)
    requires
        is_total_order::<T>(),
    ensures
        a.union(b) == b.union(a),
{
}

/// Where two intervals have a union, it holds the values that lie in either.
pub proof fn lemma_union_contains<T: PartialOrd + Normalizable>(
    a: Interval<T>,
    b: Interval<T>,
    value: T,
)
    requires
        is_total_order::<T>(),
        a.wf(),
        b.wf(),
        a.union(b) is Some,
    ensures
        a.union(b).unwrap().contains(value) <==> a.contains(value) || b.contains(value),
{
    if !(a is Empty) && !(b is Empty) {
        lemma_between_contains(lesser(a.lower(), b.lower()), greater(a.upper(), b.upper()), value);
    }
}

/// Two intervals have no union only where they have no value in common.
pub proof fn lemma_no_union_disjoint<T: PartialOrd + Normalizable>(
    a: Interval<T>,
    b: Interval<T>,
    value: T,
)
    requires
        is_total_order::<T>(),
        a.union(b) is None,
    ensures
        !(a.contains(value) && b.contains(value)),
{
}

} // verus!
