//! Ranges of values: what lies between two bounds, either of which may be
//! absent, or nothing at all.

use crate::bound::{clone_is_exact, BoundSided, BoundType, LowerBound, RangeBound, UpperBound};
use crate::normalize::Normalizable;
use crate::order::{compare_optional, greater, lesser, order, OptBound};
use core::cmp::Ordering;
use vstd::prelude::*;
use vstd::std_specs::cmp::{PartialEqSpec, PartialOrdIs, PartialOrdSpec};

verus! {

/// What a range holds: nothing at all, or what lies between a lower and an
/// upper bound, either of which may be absent.
///
/// This is the view of a [`Range`]. A `Range` is only ever made with an
/// interval that is well formed (see [`Interval::wf`]); an interval by
/// itself may be any pair of bounds.
#[derive(Debug)]
pub enum Interval<T> {
    /// No value at all.
    Empty,
    /// The values that both bounds admit. An absent bound admits every
    /// value.
    Bounded(Option<RangeBound<LowerBound, T>>, Option<RangeBound<UpperBound, T>>),
}

/// The normal form of a bound that may be absent.
pub open spec fn normal_optional<S: BoundSided, T: Normalizable>(
    bound: Option<RangeBound<S, T>>,
) -> Option<RangeBound<S, T>> {
    match bound {
        Some(bound) => Some(bound.normal_form()),
        None => None,
    }
}

/// Whether `lower` and `upper` leave no room between them. There is room
/// where the value of `lower` is less than that of `upper`, and where the
/// two values are equal and both bounds include them. There is none
/// otherwise: where the value of `lower` is the greater, where the values
/// are equal and one of the bounds excludes its value, and where the two
/// values do not compare.
pub open spec fn crossed<T: PartialOrd>(
    lower: RangeBound<LowerBound, T>,
    upper: RangeBound<UpperBound, T>,
) -> bool {
    match (lower.type_, upper.type_) {
        (BoundType::Inclusive, BoundType::Inclusive) => !lower.value.is_le(&upper.value),
        _ => !lower.value.is_lt(&upper.value),
    }
}

/// Whether something is left out between a range that ends at `upper` and
/// one that starts at `lower`: the value of `upper` is less than that of
/// `lower`, or the two values are equal and both bounds exclude it. Where
/// one of the two is absent, nothing is left out.
pub open spec fn apart<T: PartialOrd>(
    lower: Option<RangeBound<LowerBound, T>>,
    upper: Option<RangeBound<UpperBound, T>>,
) -> bool {
    match (lower, upper) {
        (Some(lower), Some(upper)) => match (lower.type_, upper.type_) {
            (BoundType::Exclusive, BoundType::Exclusive) => lower.value.is_ge(&upper.value),
            _ => lower.value.is_gt(&upper.value),
        },
        _ => false,
    }
}

impl<T: PartialOrd + Normalizable> Interval<T> {
    /// The lower bound, if there is one.
    pub open spec fn lower(self) -> Option<RangeBound<LowerBound, T>> {
        match self {
            Interval::Bounded(lower, _) => lower,
            Interval::Empty => None,
        }
    }

    /// The upper bound, if there is one.
    pub open spec fn upper(self) -> Option<RangeBound<UpperBound, T>> {
        match self {
            Interval::Bounded(_, upper) => upper,
            Interval::Empty => None,
        }
    }

    /// Whether this is an interval that a range may hold: each bound is in
    /// normal form, and the two are not crossed. The second is asked only of
    /// a type whose values compare as the specification of `partial_cmp`
    /// says: of another, nothing can be known here.
    pub open spec fn wf(self) -> bool {
        match self {
            Interval::Empty => true,
            Interval::Bounded(lower, upper) => {
                &&& lower matches Some(bound) ==> bound.is_normal()
                &&& upper matches Some(bound) ==> bound.is_normal()
                &&& T::obeys_partial_cmp_spec() ==> match (lower, upper) {
                    (Some(lower), Some(upper)) => !crossed(lower, upper),
                    _ => true,
                }
            },
        }
    }

    /// The interval between `lower` and `upper`: that between their normal
    /// forms, and the empty one where those are crossed.
    pub open spec fn between(
        lower: Option<RangeBound<LowerBound, T>>,
        upper: Option<RangeBound<UpperBound, T>>,
    ) -> Self {
        match (normal_optional(lower), normal_optional(upper)) {
            (Some(lower), Some(upper)) => if crossed(lower, upper) {
                Interval::Empty
            } else {
                Interval::Bounded(Some(lower), Some(upper))
            },
            (lower, upper) => Interval::Bounded(lower, upper),
        }
    }

    /// Whether `value` lies in this interval: the interval is not empty and
    /// each bound that is present admits the value.
    pub open spec fn contains(self, value: T) -> bool {
        match self {
            Interval::Empty => false,
            Interval::Bounded(lower, upper) => {
                &&& lower matches Some(bound) ==> bound.spec_in_bounds(value)
                &&& upper matches Some(bound) ==> bound.spec_in_bounds(value)
            },
        }
    }

    /// Whether `other` lies within this interval. The empty interval lies
    /// within every interval, and nothing else lies within the empty one.
    /// Of two others, the lower bound of this one must not be above that of
    /// `other`, nor its upper bound below.
    pub open spec fn contains_range(self, other: Self) -> bool {
        if other is Empty {
            true
        } else if self is Empty {
            false
        } else {
            &&& compare_optional(self.lower(), other.lower()) matches Some(
                Ordering::Less
                | Ordering::Equal,
            )
            &&& compare_optional(self.upper(), other.upper()) matches Some(
                Ordering::Greater
                | Ordering::Equal,
            )
        }
    }

    /// What this interval and `other` have in common: the interval between
    /// the greater of the lower bounds and the lesser of the upper bounds.
    pub open spec fn intersect(self, other: Self) -> Self {
        if self is Empty || other is Empty {
            Interval::Empty
        } else {
            Self::between(
                greater(self.lower(), other.lower()),
                lesser(self.upper(), other.upper()),
            )
        }
    }

    /// This interval and `other` taken together, where that is one interval:
    /// the other of the two where one is empty; nothing where the two are
    /// apart; else the interval between the lesser of the lower bounds and
    /// the greater of the upper bounds.
    pub open spec fn union(self, other: Self) -> Option<Self> {
        if self is Empty {
            Some(other)
        } else if other is Empty {
            Some(self)
        } else if apart(greater(self.lower(), other.lower()), lesser(self.upper(), other.upper())) {
            None
        } else {
            Some(
                Self::between(
                    lesser(self.lower(), other.lower()),
                    greater(self.upper(), other.upper()),
                ),
            )
        }
    }
}

/// Represents a range of values.
#[derive(Debug)]
pub struct Range<T> {
    inner: Interval<T>,
}

impl<T> View for Range<T> {
    type V = Interval<T>;

    closed spec fn view(&self) -> Interval<T> {
        self.inner
    }
}

impl<T> Range<T> {
    /// Two ranges with the same view are the same range.
    pub proof fn lemma_view_is_all(self, other: Range<T>)
        requires
            self@ == other@,
        ensures
            self == other,
    {
    }
}

impl<T: PartialOrd + Normalizable> Range<T> {
    /// Creates a new range.
    ///
    /// If a bound is `None`, the range is unbounded in that direction.
    pub fn new(
        lower: Option<RangeBound<LowerBound, T>>,
        upper: Option<RangeBound<UpperBound, T>>,
    ) -> (range: Range<T>)
        requires
            lower matches Some(bound) ==> bound.has_normal_form(),
            upper matches Some(bound) ==> bound.has_normal_form(),
        ensures
            range@.wf(),
            T::obeys_partial_cmp_spec() ==> range@ == Interval::between(lower, upper),
            range@ is Empty || range@ == Interval::Bounded(
                normal_optional(lower),
                normal_optional(upper),
            ),
            range@ is Empty ==> lower is Some && upper is Some,
    {
        let lower = match lower {
            Some(bound) => {
                proof {
                    T::normal_form_is_stable(LowerBound::spec_side(), bound.value, bound.type_);
                }
                Some(T::normalize(bound))
            },
            None => None,
        };
        let upper = match upper {
            Some(bound) => {
                proof {
                    T::normal_form_is_stable(UpperBound::spec_side(), bound.value, bound.type_);
                }
                Some(T::normalize(bound))
            },
            None => None,
        };

        match (&lower, &upper) {
            (Some(lower), Some(upper)) => {
                let empty = match (lower.type_, upper.type_) {
                    (BoundType::Inclusive, BoundType::Inclusive) => !(lower.value <= upper.value),
                    _ => !(lower.value < upper.value),
                };
                if empty {
                    return Range { inner: Interval::Empty };
                }
            },
            _ => {},
        }

        Range { inner: Interval::Bounded(lower, upper) }
    }

    /// Creates a new empty range.
    pub fn empty() -> (range: Range<T>)
        ensures
            range@ is Empty,
    {
        Range { inner: Interval::Empty }
    }

    /// Determines if this range is the empty range.
    pub fn is_empty(&self) -> (empty: bool)
        ensures
            empty == (self@ is Empty),
    {
        match self.inner {
            Interval::Empty => true,
            Interval::Bounded(..) => false,
        }
    }

    /// Returns the lower bound if it exists.
    pub fn lower<'a>(&'a self) -> (bound: Option<&'a RangeBound<LowerBound, T>>)
        ensures
            (match bound {
                Some(bound) => self@.lower() == Some(*bound),
                None => self@.lower() is None,
            }),
    {
        match self.inner {
            Interval::Bounded(Some(ref lower), _) => Some(lower),
            _ => None,
        }
    }

    /// Returns the upper bound if it exists.
    pub fn upper<'a>(&'a self) -> (bound: Option<&'a RangeBound<UpperBound, T>>)
        ensures
            (match bound {
                Some(bound) => self@.upper() == Some(*bound),
                None => self@.upper() is None,
            }),
    {
        match self.inner {
            Interval::Bounded(_, Some(ref upper)) => Some(upper),
            _ => None,
        }
    }

    /// Determines if a value lies within this range.
    pub fn contains(&self, value: &T) -> (within: bool)
        ensures
            T::obeys_partial_cmp_spec() ==> within == self@.contains(*value),
            self@ is Empty ==> !within,
            self@ == Interval::<T>::Bounded(None, None) ==> within,
    {
        match self.inner {
            Interval::Empty => false,
            Interval::Bounded(ref lower, ref upper) => {
                let above = match lower {
                    Some(bound) => bound.in_bounds(value),
                    None => true,
                };
                let below = match upper {
                    Some(bound) => bound.in_bounds(value),
                    None => true,
                };
                above && below
            },
        }
    }

    /// Determines if a range lies completely within this range.
    pub fn contains_range(&self, other: &Range<T>) -> (within: bool)
        ensures
            T::obeys_partial_cmp_spec() ==> within == self@.contains_range(other@),
            other@ is Empty ==> within,
            self@ is Empty && !(other@ is Empty) ==> !within,
    {
        if other.is_empty() {
            return true;
        }
        if self.is_empty() {
            return false;
        }
        OptBound(self.lower()) <= OptBound(other.lower()) && OptBound(self.upper()) >= OptBound(
            other.upper(),
        )
    }
}

impl<T: PartialEq> PartialEq for Range<T> {
    fn eq(&self, other: &Range<T>) -> (equal: bool) {
        match (&self.inner, &other.inner) {
            (Interval::Empty, Interval::Empty) => true,
            (Interval::Bounded(lower, upper), Interval::Bounded(other_lower, other_upper)) => {
                lower == other_lower && upper == other_upper
            },
            _ => false,
        }
    }
}

impl<T: PartialEq> vstd::std_specs::cmp::PartialEqSpecImpl for Range<T> {
    open spec fn obeys_eq_spec() -> bool {
        T::obeys_eq_spec()
    }

    /// Both empty, or neither and the bounds on each side equal: both
    /// absent, or both present with equal values and the same type.
    open spec fn eq_spec(&self, other: &Range<T>) -> bool {
        match (self@, other@) {
            (Interval::Empty, Interval::Empty) => true,
            (Interval::Bounded(lower, upper), Interval::Bounded(other_lower, other_upper)) => {
                &&& PartialEqSpec::eq_spec(&lower, &other_lower)
                &&& PartialEqSpec::eq_spec(&upper, &other_upper)
            },
            _ => false,
        }
    }
}

impl<T: Eq> Eq for Range<T> {

}

impl<T: Clone> Clone for Range<T> {
    fn clone(&self) -> (copy: Range<T>)
        ensures
            clone_is_exact::<T>() ==> copy@ == self@,
            self@ is Empty <==> copy@ is Empty,
    {
        match &self.inner {
            Interval::Empty => Range { inner: Interval::Empty },
            Interval::Bounded(lower, upper) => {
                let lower = match lower {
                    Some(bound) => Some(bound.clone()),
                    None => None,
                };
                let upper = match upper {
                    Some(bound) => Some(bound.clone()),
                    None => None,
                };
                Range { inner: Interval::Bounded(lower, upper) }
            },
        }
    }
}

impl<T: PartialOrd + Normalizable + Clone> Range<T> {
    /// Returns the intersection of this range with another
    pub fn intersect(&self, other: &Range<T>) -> (common: Range<T>)
        requires
            self@.wf(),
            other@.wf(),
            clone_is_exact::<T>(),
        ensures
            common@.wf(),
            T::obeys_partial_cmp_spec() ==> common@ == self@.intersect(other@),
            self@ is Empty || other@ is Empty ==> common@ is Empty,
    {
        if self.is_empty() || other.is_empty() {
            return Range::empty();
        }
        let (_, OptBound(lower)) = order(OptBound(self.lower()), OptBound(other.lower()));
        let (OptBound(upper), _) = order(OptBound(self.upper()), OptBound(other.upper()));

        let lower = match lower {
            Some(bound) => Some(bound.clone()),
            None => None,
        };
        let upper = match upper {
            Some(bound) => Some(bound.clone()),
            None => None,
        };
        Range::new(lower, upper)
    }

    /// Returns the union of this range with another if it is contiguous
    pub fn union(&self, other: &Range<T>) -> (joined: Option<Range<T>>)
        requires
            self@.wf(),
            other@.wf(),
            clone_is_exact::<T>(),
        ensures
            joined matches Some(range) ==> range@.wf(),
            T::obeys_partial_cmp_spec() ==> (match joined {
                Some(range) => self@.union(other@) == Some(range@),
                None => self@.union(other@) is None,
            }),
            self@ is Empty ==> (joined matches Some(range) && range@ == other@),
            other@ is Empty ==> (joined matches Some(range) && range@ == self@),
    {
        if self.is_empty() {
            return Some(other.clone());
        }
        if other.is_empty() {
            return Some(self.clone());
        }
        let (OptBound(l_lower), OptBound(u_lower)) = order(
            OptBound(self.lower()),
            OptBound(other.lower()),
        );
        let (OptBound(l_upper), OptBound(u_upper)) = order(
            OptBound(self.upper()),
            OptBound(other.upper()),
        );

        let discontiguous = match (u_lower, l_upper) {
            (Some(lower), Some(upper)) => match (lower.type_, upper.type_) {
                (BoundType::Exclusive, BoundType::Exclusive) => lower.value >= upper.value,
                _ => lower.value > upper.value,
            },
            _ => false,
        };

        if discontiguous {
            None
        } else {
            let lower = match l_lower {
                Some(bound) => Some(bound.clone()),
                None => None,
            };
            let upper = match u_upper {
                Some(bound) => Some(bound.clone()),
                None => None,
            };
            Some(Range::new(lower, upper))
        }
    }
}

} // verus!
