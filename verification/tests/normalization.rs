use bounded_range::{BoundType, Exclusive, Inclusive, LowerBound, Normalizable, RangeBound, UpperBound};
use time::Timespec;

fn lower<T: PartialOrd>(value: T, type_: BoundType) -> RangeBound<LowerBound, T> {
    RangeBound::new(value, type_)
}

fn upper<T: PartialOrd>(value: T, type_: BoundType) -> RangeBound<UpperBound, T> {
    RangeBound::new(value, type_)
}

#[test]
fn inclusive_upper_bound_becomes_exclusive_at_the_successor() {
    assert_eq!(i32::normalize(upper(10, Inclusive)), upper(11, Exclusive));
    assert_eq!(i64::normalize(upper(10i64, Inclusive)), upper(11i64, Exclusive));
}

#[test]
fn exclusive_lower_bound_becomes_inclusive_at_the_successor() {
    assert_eq!(i32::normalize(lower(4, Exclusive)), lower(5, Inclusive));
    assert_eq!(i64::normalize(lower(4i64, Exclusive)), lower(5i64, Inclusive));
}

#[test]
fn normal_discrete_bounds_stay_as_they_are() {
    assert_eq!(i32::normalize(upper(11, Exclusive)), upper(11, Exclusive));
    assert_eq!(i32::normalize(lower(5, Inclusive)), lower(5, Inclusive));
    assert_eq!(i64::normalize(upper(11i64, Exclusive)), upper(11i64, Exclusive));
    assert_eq!(i64::normalize(lower(5i64, Inclusive)), lower(5i64, Inclusive));
}

#[test]
fn normalizing_twice_is_normalizing_once() {
    for value in [-7, 0, 41] {
        for type_ in [Inclusive, Exclusive] {
            let once = i32::normalize(upper(value, type_));
            let twice = i32::normalize(i32::normalize(upper(value, type_)));
            assert_eq!(twice, once);
            let once = i32::normalize(lower(value, type_));
            let twice = i32::normalize(i32::normalize(lower(value, type_)));
            assert_eq!(twice, once);
        }
    }
}

#[test]
fn normal_forms_admit_the_same_integers() {
    for type_ in [Inclusive, Exclusive] {
        let (above, normal_above) = (upper(3, type_), i32::normalize(upper(3, type_)));
        let (below, normal_below) = (lower(3, type_), i32::normalize(lower(3, type_)));
        for value in 0..7 {
            assert_eq!(normal_above.in_bounds(&value), above.in_bounds(&value));
            assert_eq!(normal_below.in_bounds(&value), below.in_bounds(&value));
        }
    }
}

#[test]
fn greatest_values_that_need_no_step_are_normal() {
    assert_eq!(i32::normalize(upper(i32::MAX, Exclusive)), upper(i32::MAX, Exclusive));
    assert_eq!(i32::normalize(lower(i32::MAX, Inclusive)), lower(i32::MAX, Inclusive));
    assert_eq!(i64::normalize(upper(i64::MAX, Exclusive)), upper(i64::MAX, Exclusive));
    assert_eq!(i32::normalize(upper(i32::MAX - 1, Inclusive)), upper(i32::MAX, Exclusive));
    assert_eq!(i64::normalize(lower(i64::MAX - 1, Exclusive)), lower(i64::MAX, Inclusive));
}

#[test]
fn least_values_step_up() {
    assert_eq!(i32::normalize(lower(i32::MIN, Exclusive)), lower(i32::MIN + 1, Inclusive));
    assert_eq!(i64::normalize(upper(i64::MIN, Inclusive)), upper(i64::MIN + 1, Exclusive));
}

#[test]
fn points_in_time_are_left_alone() {
    let at = Timespec::new(12, 500);
    for type_ in [Inclusive, Exclusive] {
        let bound = Timespec::normalize(upper(at, type_));
        assert_eq!(bound.value, at);
        assert_eq!(bound.type_, type_);
        let bound = Timespec::normalize(lower(at, type_));
        assert_eq!(bound.value, at);
        assert_eq!(bound.type_, type_);
    }
}
