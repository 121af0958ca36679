//! Ranges by name, for each way of writing one in interval notation.

use crate::bound::{BoundType, LowerBound, RangeBound, UpperBound};
use crate::normalize::Normalizable;
use crate::range::{Interval, Range};
use vstd::prelude::*;
use vstd::std_specs::cmp::PartialOrdSpec;

verus! {

/// A lower bound at `value` of the given type, as `Range::new` takes it.
pub open spec fn starting<T: PartialOrd>(value: T, type_: BoundType) -> Option<
    RangeBound<LowerBound, T>,
> {
    Some(RangeBound::spec_new(value, type_))
}

/// An upper bound at `value` of the given type, as `Range::new` takes it.
pub open spec fn ending<T: PartialOrd>(value: T, type_: BoundType) -> Option<
    RangeBound<UpperBound, T>,
> {
    Some(RangeBound::spec_new(value, type_))
}

/// Whether a lower bound at `value` of the given type has a normal form.
pub open spec fn may_start<T: PartialOrd + Normalizable>(value: T, type_: BoundType) -> bool {
    RangeBound::<LowerBound, T>::spec_new(value, type_).has_normal_form()
}

/// Whether an upper bound at `value` of the given type has a normal form.
pub open spec fn may_end<T: PartialOrd + Normalizable>(value: T, type_: BoundType) -> bool {
    RangeBound::<UpperBound, T>::spec_new(value, type_).has_normal_form()
}

impl<T: PartialOrd + Normalizable> Range<T> {
    /// The range of all values, `(,)`.
    pub fn unbounded() -> (range: Range<T>)
        ensures
            range@.wf(),
            range@ == Interval::<T>::Bounded(None, None),
    {
        Range::new(None, None)
    }

    /// The range `[lower,upper]`.
    pub fn closed(lower: T, upper: T) -> (range: Range<T>)
        requires
            may_start(lower, BoundType::Inclusive),
            may_end(upper, BoundType::Inclusive),
        ensures
            range@.wf(),
            T::obeys_partial_cmp_spec() ==> range@ == Interval::between(
                starting(lower, BoundType::Inclusive),
                ending(upper, BoundType::Inclusive),
            ),
    {
        Range::new(
            Some(RangeBound::new(lower, BoundType::Inclusive)),
            Some(RangeBound::new(upper, BoundType::Inclusive)),
        )
    }

    /// The range `[lower,upper)`.
    pub fn closed_open(lower: T, upper: T) -> (range: Range<T>)
        requires
            may_start(lower, BoundType::Inclusive),
            may_end(upper, BoundType::Exclusive),
        ensures
            range@.wf(),
            T::obeys_partial_cmp_spec() ==> range@ == Interval::between(
                starting(lower, BoundType::Inclusive),
                ending(upper, BoundType::Exclusive),
            ),
    {
        Range::new(
            Some(RangeBound::new(lower, BoundType::Inclusive)),
            Some(RangeBound::new(upper, BoundType::Exclusive)),
        )
    }

    /// The range `(lower,upper]`.
    pub fn open_closed(lower: T, upper: T) -> (range: Range<T>)
        requires
            may_start(lower, BoundType::Exclusive),
            may_end(upper, BoundType::Inclusive),
        ensures
            range@.wf(),
            T::obeys_partial_cmp_spec() ==> range@ == Interval::between(
                starting(lower, BoundType::Exclusive),
                ending(upper, BoundType::Inclusive),
            ),
    {
        Range::new(
            Some(RangeBound::new(lower, BoundType::Exclusive)),
            Some(RangeBound::new(upper, BoundType::Inclusive)),
        )
    }

    /// The range `(lower,upper)`.
    pub fn open(lower: T, upper: T) -> (range: Range<T>)
        requires
            may_start(lower, BoundType::Exclusive),
            may_end(upper, BoundType::Exclusive),
        ensures
            range@.wf(),
            T::obeys_partial_cmp_spec() ==> range@ == Interval::between(
                starting(lower, BoundType::Exclusive),
                ending(upper, BoundType::Exclusive),
            ),
    {
        Range::new(
            Some(RangeBound::new(lower, BoundType::Exclusive)),
            Some(RangeBound::new(upper, BoundType::Exclusive)),
        )
    }

    /// The range `[lower,)`.
    pub fn at_least(lower: T) -> (range: Range<T>)
        requires
            may_start(lower, BoundType::Inclusive),
        ensures
            range@.wf(),
            range@ == Interval::between(starting(lower, BoundType::Inclusive), None),
    {
        Range::new(Some(RangeBound::new(lower, BoundType::Inclusive)), None)
    }

    /// The range `(lower,)`.
    pub fn greater_than(lower: T) -> (range: Range<T>)
        requires
            may_start(lower, BoundType::Exclusive),
        ensures
            range@.wf(),
            range@ == Interval::between(starting(lower, BoundType::Exclusive), None),
    {
        Range::new(Some(RangeBound::new(lower, BoundType::Exclusive)), None)
    }

    /// The range `(,upper]`.
    pub fn at_most(upper: T) -> (range: Range<T>)
        requires
            may_end(upper, BoundType::Inclusive),
        ensures
            range@.wf(),
            range@ == Interval::between(None, ending(upper, BoundType::Inclusive)),
    {
        Range::new(None, Some(RangeBound::new(upper, BoundType::Inclusive)))
    }

    /// The range `(,upper)`.
    pub fn less_than(upper: T) -> (range: Range<T>)
        requires
            may_end(upper, BoundType::Exclusive),
        ensures
            range@.wf(),
            range@ == Interval::between(None, ending(upper, BoundType::Exclusive)),
    {
        Range::new(None, Some(RangeBound::new(upper, BoundType::Exclusive)))
    }
}

} // verus!
