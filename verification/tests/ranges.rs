use bounded_range::{BoundType, Exclusive, Inclusive, Range, RangeBound};
use time::Timespec;

fn range(low: i32, low_type: BoundType, high: i32, high_type: BoundType) -> Range<i32> {
    Range::new(Some(RangeBound::new(low, low_type)), Some(RangeBound::new(high, high_type)))
}

/// The range `[low,high)`.
fn span(low: i32, high: i32) -> Range<i32> {
    range(low, Inclusive, high, Exclusive)
}

#[test]
fn four_notations_give_one_range() {
    let closed = range(5, Inclusive, 10, Inclusive);
    assert_eq!(closed, range(5, Inclusive, 11, Exclusive));
    assert_eq!(closed, range(4, Exclusive, 10, Inclusive));
    assert_eq!(closed, range(4, Exclusive, 11, Exclusive));
    assert_eq!(closed.lower(), Some(&RangeBound::new(5, Inclusive)));
    assert_eq!(closed.upper(), Some(&RangeBound::new(11, Exclusive)));
}

#[test]
fn four_notations_give_one_range_of_long_integers() {
    let low = i64::from(i32::MAX) + 5;
    let closed: Range<i64> = Range::closed(low, low + 5);
    assert_eq!(closed, Range::closed_open(low, low + 6));
    assert_eq!(closed, Range::open_closed(low - 1, low + 5));
    assert_eq!(closed, Range::open(low - 1, low + 6));
    assert_eq!(closed.lower(), Some(&RangeBound::new(low, Inclusive)));
    assert_eq!(closed.upper(), Some(&RangeBound::new(low + 6, Exclusive)));
}

#[test]
fn one_value_is_a_range() {
    let single = range(5, Inclusive, 5, Inclusive);
    assert!(!single.is_empty());
    assert!(single.contains(&5));
    assert!(!single.contains(&4));
    assert!(!single.contains(&6));
}

#[test]
fn ranges_that_exclude_their_one_value_are_empty() {
    assert!(range(5, Inclusive, 5, Exclusive).is_empty());
    assert!(range(5, Exclusive, 5, Inclusive).is_empty());
    assert!(range(5, Exclusive, 5, Exclusive).is_empty());
    assert_eq!(range(5, Inclusive, 5, Exclusive), Range::empty());
}

#[test]
fn misordered_bounds_give_the_empty_range() {
    assert!(range(10, Inclusive, 5, Inclusive).is_empty());
    assert!(range(10, Exclusive, 5, Exclusive).is_empty());
    assert_eq!(range(10, Inclusive, 5, Inclusive), Range::empty());
}

#[test]
fn open_range_between_neighbours_is_empty() {
    assert!(range(5, Exclusive, 6, Exclusive).is_empty());
    assert!(!range(5, Exclusive, 7, Exclusive).is_empty());
}

#[test]
fn empty_range_has_no_bounds_and_no_values() {
    let none: Range<i32> = Range::empty();
    assert!(none.is_empty());
    assert!(none.lower().is_none());
    assert!(none.upper().is_none());
    assert!(!none.contains(&0));
    assert!(!none.contains(&i32::MIN));
}

#[test]
fn unbounded_range_holds_everything() {
    let all: Range<i32> = Range::new(None, None);
    assert!(!all.is_empty());
    assert!(all.lower().is_none());
    assert!(all.upper().is_none());
    assert!(all.contains(&i32::MIN));
    assert!(all.contains(&0));
    assert!(all.contains(&i32::MAX));
}

#[test]
fn half_open_range_holds_its_start_and_not_its_end() {
    let r = span(5, 10);
    assert!(r.contains(&5));
    assert!(r.contains(&9));
    assert!(!r.contains(&10));
    assert!(!r.contains(&4));
}

#[test]
fn contains_is_what_the_bounds_admit() {
    let r = range(2, Exclusive, 6, Inclusive);
    for value in -1..10 {
        let admitted = r.lower().map_or(true, |b| b.in_bounds(&value))
            && r.upper().map_or(true, |b| b.in_bounds(&value));
        assert_eq!(r.contains(&value), !r.is_empty() && admitted);
        assert_eq!(r.contains(&value), 2 < value && value <= 6);
    }
}

#[test]
fn one_sided_ranges() {
    let from: Range<i32> = Range::new(Some(RangeBound::new(5, Exclusive)), None);
    assert_eq!(from.lower(), Some(&RangeBound::new(6, Inclusive)));
    assert!(from.upper().is_none());
    assert!(!from.contains(&5));
    assert!(from.contains(&6));
    assert!(from.contains(&i32::MAX));
    let to: Range<i32> = Range::new(None, Some(RangeBound::new(5, Inclusive)));
    assert!(to.lower().is_none());
    assert_eq!(to.upper(), Some(&RangeBound::new(6, Exclusive)));
    assert!(to.contains(&5));
    assert!(!to.contains(&6));
    assert!(to.contains(&i32::MIN));
}

#[test]
fn every_range_contains_the_empty_range() {
    let none: Range<i32> = Range::empty();
    assert!(span(1, 5).contains_range(&none));
    assert!(Range::<i32>::new(None, None).contains_range(&none));
    assert!(none.contains_range(&Range::empty()));
}

#[test]
fn empty_range_contains_nothing_else() {
    let none: Range<i32> = Range::empty();
    assert!(!none.contains_range(&span(1, 5)));
    assert!(!none.contains_range(&Range::new(None, None)));
}

#[test]
fn contains_range_is_reflexive() {
    for r in [span(1, 5), range(3, Inclusive, 3, Inclusive), Range::new(None, None), Range::at_least(2)]
    {
        assert!(r.contains_range(&r));
    }
}

#[test]
fn contains_range_is_transitive() {
    let (a, b, c) = (span(0, 10), span(2, 8), span(3, 5));
    assert!(a.contains_range(&b));
    assert!(b.contains_range(&c));
    assert!(a.contains_range(&c));
    assert!(!c.contains_range(&a));
    assert!(!b.contains_range(&a));
}

#[test]
fn contains_range_goes_by_both_bounds() {
    let r = span(2, 8);
    assert!(r.contains_range(&span(2, 8)));
    assert!(r.contains_range(&span(2, 7)));
    assert!(r.contains_range(&span(3, 8)));
    assert!(!r.contains_range(&span(1, 8)));
    assert!(!r.contains_range(&span(2, 9)));
    assert!(!r.contains_range(&Range::at_least(2)));
    assert!(!r.contains_range(&Range::less_than(8)));
    assert!(Range::at_least(2).contains_range(&r));
    assert!(Range::less_than(8).contains_range(&r));
    assert!(Range::<i32>::unbounded().contains_range(&Range::at_least(2)));
}

#[test]
fn intersection_of_overlapping_ranges() {
    assert_eq!(span(1, 5).intersect(&span(3, 8)), span(3, 5));
    assert_eq!(span(3, 8).intersect(&span(1, 5)), span(3, 5));
}

#[test]
fn intersection_of_disjoint_ranges_is_empty() {
    assert!(span(1, 3).intersect(&span(5, 8)).is_empty());
    assert!(span(5, 8).intersect(&span(1, 3)).is_empty());
    assert!(span(1, 5).intersect(&span(5, 8)).is_empty());
}

#[test]
fn intersection_with_the_empty_range_is_empty() {
    let none: Range<i32> = Range::empty();
    assert!(none.intersect(&span(1, 5)).is_empty());
    assert!(span(1, 5).intersect(&none).is_empty());
    assert!(none.intersect(&Range::empty()).is_empty());
}

#[test]
fn intersection_with_itself_is_the_range() {
    for r in [span(1, 5), Range::new(None, None), Range::at_most(4), Range::empty()] {
        assert_eq!(r.intersect(&r), r);
    }
}

#[test]
fn intersection_does_not_depend_on_the_order() {
    let all = [
        span(1, 5),
        span(3, 8),
        span(5, 9),
        Range::at_least(4),
        Range::less_than(4),
        Range::new(None, None),
        Range::empty(),
    ];
    for a in &all {
        for b in &all {
            assert_eq!(a.intersect(b), b.intersect(a));
        }
    }
}

#[test]
fn intersection_holds_what_both_hold() {
    let (a, b) = (range(0, Exclusive, 6, Inclusive), Range::at_least(4));
    let both = a.intersect(&b);
    for value in -2..10 {
        assert_eq!(both.contains(&value), a.contains(&value) && b.contains(&value));
    }
}

#[test]
fn intersection_with_one_sided_ranges() {
    assert_eq!(Range::at_least(3).intersect(&Range::less_than(8)), span(3, 8));
    assert_eq!(Range::at_least(3).intersect(&Range::at_least(5)), Range::at_least(5));
    assert_eq!(Range::less_than(3).intersect(&Range::less_than(5)), Range::less_than(3));
    assert_eq!(Range::unbounded().intersect(&span(3, 8)), span(3, 8));
}

#[test]
fn union_of_touching_ranges() {
    assert_eq!(span(1, 5).union(&span(5, 9)), Some(span(1, 9)));
    assert_eq!(span(5, 9).union(&span(1, 5)), Some(span(1, 9)));
}

#[test]
fn union_of_ranges_with_a_gap_is_none() {
    assert_eq!(span(1, 5).union(&span(6, 9)), None);
    assert_eq!(span(6, 9).union(&span(1, 5)), None);
}

#[test]
fn union_of_overlapping_and_nested_ranges() {
    assert_eq!(span(1, 5).union(&span(3, 8)), Some(span(1, 8)));
    assert_eq!(span(1, 9).union(&span(3, 5)), Some(span(1, 9)));
    assert_eq!(span(3, 5).union(&span(1, 9)), Some(span(1, 9)));
    assert_eq!(span(1, 5).union(&span(1, 5)), Some(span(1, 5)));
}

#[test]
fn union_with_the_empty_range_is_the_other_range() {
    let none: Range<i32> = Range::empty();
    assert_eq!(none.union(&span(1, 5)), Some(span(1, 5)));
    assert_eq!(span(1, 5).union(&none), Some(span(1, 5)));
    assert_eq!(none.union(&Range::empty()), Some(Range::empty()));
}

#[test]
fn union_with_one_sided_ranges() {
    assert_eq!(Range::less_than(5).union(&Range::at_least(5)), Some(Range::unbounded()));
    assert_eq!(Range::less_than(5).union(&Range::at_least(6)), None);
    assert_eq!(Range::at_least(3).union(&span(1, 4)), Some(Range::at_least(1)));
    assert_eq!(Range::unbounded().union(&span(1, 4)), Some(Range::unbounded()));
}

#[test]
fn union_holds_what_either_holds() {
    let (a, b) = (span(1, 5), span(3, 8));
    let either = a.union(&b).unwrap();
    for value in -2..12 {
        assert_eq!(either.contains(&value), a.contains(&value) || b.contains(&value));
    }
}

#[test]
fn ranges_are_equal_by_their_bounds() {
    assert!(span(1, 5) == span(1, 5));
    assert!(span(1, 5) != span(1, 6));
    assert!(span(1, 5) != span(0, 5));
    assert!(span(1, 5) != Range::empty());
    assert!(Range::<i32>::unbounded() != Range::empty());
    assert!(Range::<i32>::at_least(1) != Range::unbounded());
    assert!(Range::<i32>::empty() == Range::empty());
}

#[test]
fn clone_of_a_range_is_the_range() {
    for r in [span(1, 5), Range::empty(), Range::unbounded(), Range::greater_than(7)] {
        assert_eq!(r.clone(), r);
    }
}

fn at(sec: i64) -> Timespec {
    Timespec::new(sec, 0)
}

fn during(low: i64, low_type: BoundType, high: i64, high_type: BoundType) -> Range<Timespec> {
    Range::new(Some(RangeBound::new(at(low), low_type)), Some(RangeBound::new(at(high), high_type)))
}

#[test]
fn ranges_of_time_keep_their_bounds() {
    let r = during(5, Exclusive, 10, Inclusive);
    assert_eq!(r.lower(), Some(&RangeBound::new(at(5), Exclusive)));
    assert_eq!(r.upper(), Some(&RangeBound::new(at(10), Inclusive)));
    assert!(!r.contains(&at(5)));
    assert!(r.contains(&Timespec::new(5, 1)));
    assert!(r.contains(&at(10)));
    assert!(!r.contains(&Timespec::new(10, 1)));
    assert!(during(5, Inclusive, 10, Inclusive) != during(5, Inclusive, 11, Exclusive));
}

#[test]
fn emptiness_rule_over_the_integers() {
    for low in 3..8 {
        for high in 3..8 {
            for low_type in [Inclusive, Exclusive] {
                for high_type in [Inclusive, Exclusive] {
                    // The bounds in normal form: inclusive below, exclusive above.
                    let from = if low_type == Exclusive { low + 1 } else { low };
                    let to = if high_type == Inclusive { high + 1 } else { high };
                    let r = range(low, low_type, high, high_type);
                    assert_eq!(r.is_empty(), !(from < to));
                    if from < to {
                        assert_eq!(r.lower(), Some(&RangeBound::new(from, Inclusive)));
                        assert_eq!(r.upper(), Some(&RangeBound::new(to, Exclusive)));
                    }
                }
            }
        }
    }
}

#[test]
fn ranges_of_time_are_empty_where_the_bounds_cross() {
    assert!(!during(5, Inclusive, 5, Inclusive).is_empty());
    assert!(during(5, Inclusive, 5, Exclusive).is_empty());
    assert!(during(5, Exclusive, 5, Inclusive).is_empty());
    assert!(during(5, Exclusive, 5, Exclusive).is_empty());
    assert!(during(10, Inclusive, 5, Inclusive).is_empty());
    assert!(!during(5, Exclusive, 6, Exclusive).is_empty());
}

#[test]
fn union_of_ranges_of_time_leaves_out_no_point() {
    let early = during(1, Inclusive, 5, Exclusive);
    assert_eq!(
        early.union(&during(5, Inclusive, 9, Exclusive)),
        Some(during(1, Inclusive, 9, Exclusive))
    );
    assert_eq!(early.union(&during(5, Exclusive, 9, Exclusive)), None);
    assert_eq!(
        during(1, Inclusive, 5, Inclusive).union(&during(5, Exclusive, 9, Exclusive)),
        Some(during(1, Inclusive, 9, Exclusive))
    );
    assert_eq!(early.union(&during(6, Inclusive, 9, Exclusive)), None);
}

#[test]
fn intersection_of_ranges_of_time() {
    let (a, b) = (during(1, Inclusive, 5, Inclusive), during(5, Inclusive, 9, Exclusive));
    assert_eq!(a.intersect(&b), during(5, Inclusive, 5, Inclusive));
    assert!(during(1, Inclusive, 5, Exclusive).intersect(&b).is_empty());
    assert!(a.contains_range(&a.intersect(&b)));
    assert!(b.contains_range(&a.intersect(&b)));
}
