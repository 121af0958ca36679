//! Bounds and ranges as text, in interval notation.

use crate::bound::{BoundSide, BoundSided, BoundType, RangeBound};
use crate::normalize::Normalizable;
use crate::range::{Interval, Range};
use core::fmt::Display;
use vstd::prelude::*;
use vstd::string::{to_string_from_display_ensures, StringExecFns};

verus! {

/// A bound in interval notation, around the text of its value: a bracket
/// where the bound includes its value, a parenthesis where it does not, in
/// front of a lower bound's value and behind an upper bound's.
pub open spec fn bound_text(side: BoundSide, type_: BoundType, value: Seq<char>) -> Seq<char> {
    match (side, type_) {
        (BoundSide::Lower, BoundType::Inclusive) => "["@ + value,
        (BoundSide::Lower, BoundType::Exclusive) => "("@ + value,
        (BoundSide::Upper, BoundType::Inclusive) => value + "]"@,
        (BoundSide::Upper, BoundType::Exclusive) => value + ")"@,
    }
}

impl<S: BoundSided, T> RangeBound<S, T> {
    /// This bound in interval notation, around the text of its value.
    pub open spec fn text(self, value: Seq<char>) -> Seq<char> {
        bound_text(S::spec_side(), self.type_, value)
    }

    /// Writes this bound in interval notation, around the text of its value.
    pub fn render(&self, value: &str) -> (text: String)
        ensures
            text@ == self.text(value@),
    {
        match (S::side(), self.type_) {
            (BoundSide::Lower, BoundType::Inclusive) => String::from_str("[").concat(value),
            (BoundSide::Lower, BoundType::Exclusive) => String::from_str("(").concat(value),
            (BoundSide::Upper, BoundType::Inclusive) => String::from_str(value).concat("]"),
            (BoundSide::Upper, BoundType::Exclusive) => String::from_str(value).concat(")"),
        }
    }

    /// Writes this bound in interval notation, its value as `T` displays it.
    pub fn to_string(&self) -> (text: String) where T: Display
        ensures
            exists|value: String| #[trigger]
                to_string_from_display_ensures::<T>(&self.value, value) && text@ == self.text(
                    value@,
                ),
    {
        let value = self.value.to_string();
        self.render(value.as_str())
    }
}

impl<T> Interval<T> {
    /// This interval in interval notation, around the texts of its bounds'
    /// values: the word `empty` for the empty interval, else the lower bound,
    /// a comma and the upper bound, with a parenthesis for an absent bound.
    pub open spec fn text(self, lower: Seq<char>, upper: Seq<char>) -> Seq<char> {
        match self {
            Interval::Empty => "empty"@,
            Interval::Bounded(lower_bound, upper_bound) => {
                (match lower_bound {
                    Some(bound) => bound.text(lower),
                    None => "("@,
                }) + ","@ + (match upper_bound {
                    Some(bound) => bound.text(upper),
                    None => ")"@,
                })
            },
        }
    }
}

impl<T: PartialOrd + Normalizable> Range<T> {
    /// Writes this range in interval notation, around the texts of its
    /// bounds' values. The text given for an absent bound is not used.
    pub fn render(&self, lower: &str, upper: &str) -> (text: String)
        ensures
            text@ == self@.text(lower@, upper@),
    {
        if self.is_empty() {
            return String::from_str("empty");
        }
        let text = match self.lower() {
            Some(bound) => bound.render(lower),
            None => String::from_str("("),
        };
        let text = text.concat(",");
        match self.upper() {
            Some(bound) => text.concat(bound.render(upper).as_str()),
            None => text.concat(")"),
        }
    }

    /// Writes this range in interval notation, the values of its bounds as
    /// `T` displays them.
    pub fn to_string(&self) -> (text: String) where T: Display
        ensures
            exists|lower: String, upper: String|
                {
                    &&& self@.lower() matches Some(bound) ==> to_string_from_display_ensures::<T>(
                        &bound.value,
                        lower,
                    )
                    &&& self@.upper() matches Some(bound) ==> to_string_from_display_ensures::<T>(
                        &bound.value,
                        upper,
                    )
                    &&& text@ == #[trigger] self@.text(lower@, upper@)
                },
    {
        let lower = match self.lower() {
            Some(bound) => bound.value.to_string(),
            None => String::new(),
        };
        let upper = match self.upper() {
            Some(bound) => bound.value.to_string(),
            None => String::new(),
        };
        self.render(lower.as_str(), upper.as_str())
    }
}

} // verus!
