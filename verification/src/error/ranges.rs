//! Ranges of expected lengths, as reported by length-validation errors.

use vstd::prelude::*;

use crate::protocol::cat::common::{ascii_chars, string_push};
use crate::protocol::cat::digits::{decimal, decimal_digits_of_len, decimal_len};

verus! {

/// A set of acceptable values, expressed in the shape of one of Rust's range forms.
///
/// `Range` and `RangeInclusive` hold `(start, end)`; the one-sided forms hold their single bound.
#[derive(Debug, Clone, Copy, PartialEq, Eq)]
pub enum Ranges {
    Just(usize),
    Range(usize, usize),
    RangeFrom(usize),
    RangeFull,
    RangeInclusive(usize, usize),
    RangeTo(usize),
    RangeToInclusive(usize),
}

/// The decimal digits of a bound, or nothing for an absent one.
pub open spec fn optional_decimal(bound: Option<usize>) -> Seq<char> {
    match bound {
        Some(v) => ascii_chars(decimal(v as nat)),
        None => Seq::empty(),
    }
}

/// Appends the decimal digits of a bound, if there is one.
fn push_optional_decimal(s: &mut String, bound: Option<usize>)
    ensures
        final(s)@ == old(s)@ + optional_decimal(bound),
{
    match bound {
        Some(v) => {
            let n = v as u64;
            let digits = decimal_digits_of_len(n, decimal_len(n));
            let ghost before = s@;
            let mut i: usize = 0;
            while i < digits.len()
                invariant
                    i <= digits.len(),
                    digits@ == decimal(v as nat),
                    s@ == before + ascii_chars(digits@.take(i as int)),
                decreases digits.len() - i,
            {
                string_push(s, digits[i] as char);
                assert(ascii_chars(digits@.take(i + 1)) =~= ascii_chars(digits@.take(i as int)).push(
                    digits@[i as int] as char,
                ));
                i = i + 1;
            }
            assert(digits@.take(digits.len() as int) =~= digits@);
        },
        None => {
            assert(s@ =~= s@ + Seq::<char>::empty());
        },
    }
}

impl From<usize> for Ranges {
    fn from(value: usize) -> (r: Ranges) {
        Ranges::Just(value)
    }
}

impl vstd::std_specs::convert::FromSpecImpl<usize> for Ranges {
    open spec fn obeys_from_spec() -> bool {
        true
    }

    open spec fn from_spec(value: usize) -> Ranges {
        Ranges::Just(value)
    }
}

impl Ranges {
    /// Whether `value` lies in this set of values.
    pub open spec fn spec_contains(self, value: usize) -> bool {
        match self {
            Ranges::Just(v) => v == value,
            Ranges::Range(s, e) => s <= value && value < e,
            Ranges::RangeFrom(s) => s <= value,
            Ranges::RangeFull => true,
            Ranges::RangeInclusive(s, e) => s <= value && value <= e,
            Ranges::RangeTo(e) => value < e,
            Ranges::RangeToInclusive(e) => value <= e,
        }
    }

    /// The lower bound, where the range has one.
    pub open spec fn spec_start(self) -> Option<usize> {
        match self {
            Ranges::Just(v) => Some(v),
            Ranges::Range(s, _) => Some(s),
            Ranges::RangeFrom(s) => Some(s),
            Ranges::RangeFull => None,
            Ranges::RangeInclusive(s, _) => Some(s),
            Ranges::RangeTo(_) => None,
            Ranges::RangeToInclusive(_) => None,
        }
    }

    /// The upper bound, where the range has one.
    pub open spec fn spec_end(self) -> Option<usize> {
        match self {
            Ranges::Just(v) => Some(v),
            Ranges::Range(_, e) => Some(e),
            Ranges::RangeFrom(_) => None,
            Ranges::RangeFull => None,
            Ranges::RangeInclusive(_, e) => Some(e),
            Ranges::RangeTo(e) => Some(e),
            Ranges::RangeToInclusive(e) => Some(e),
        }
    }

    /// The range is a single value, or a two-sided range whose start and end are equal.
    pub open spec fn spec_is_singleton(self) -> bool {
        match self {
            Ranges::Just(_) => true,
            Ranges::Range(s, e) => s == e,
            Ranges::RangeInclusive(s, e) => s == e,
            _ => false,
        }
    }

    /// The displayed form: `start..end` with an absent bound left empty; a singleton writes its
    /// value once more in front, so `Just(3)` reads `33..3`.
    pub open spec fn spec_display(self) -> Seq<char> {
        (if self.spec_is_singleton() {
            optional_decimal(self.spec_start())
        } else {
            Seq::empty()
        }) + optional_decimal(self.spec_start()) + seq!['.', '.'] + optional_decimal(self.spec_end())
    }

    /// The displayed form of the range.
    pub fn display_string(&self) -> (s: String)
        ensures
            s@ == self.spec_display(),
    {
        let mut s = String::new();
        if self.is_singleton() {
            push_optional_decimal(&mut s, self.start());
        }
        push_optional_decimal(&mut s, self.start());
        string_push(&mut s, '.');
        string_push(&mut s, '.');
        push_optional_decimal(&mut s, self.end());
        assert(s@ =~= self.spec_display());
        s
    }

    pub fn just(value: usize) -> (r: Self)
        ensures
            r == Ranges::Just(value),
    {
        Ranges::Just(value)
    }

    /// The half-open range `start..end`.
    pub fn from_to(start: usize, end: usize) -> (r: Self)
        ensures
            r == Ranges::Range(start, end),
    {
        Ranges::Range(start, end)
    }

    /// The range `start..`.
    pub fn from(start: usize) -> (r: Self)
        ensures
            r == Ranges::RangeFrom(start),
    {
        Ranges::RangeFrom(start)
    }

    /// The range `..`.
    pub fn full() -> (r: Self)
        ensures
            r == Ranges::RangeFull,
    {
        Ranges::RangeFull
    }

    /// The closed range `start..=end`.
    pub fn from_to_inclusive(start: usize, end: usize) -> (r: Self)
        ensures
            r == Ranges::RangeInclusive(start, end),
    {
        Ranges::RangeInclusive(start, end)
    }

    /// The range `..end`.
    pub fn to(end: usize) -> (r: Self)
        ensures
            r == Ranges::RangeTo(end),
    {
        Ranges::RangeTo(end)
    }

    /// The range `..=end`.
    pub fn to_inclusive(end: usize) -> (r: Self)
        ensures
            r == Ranges::RangeToInclusive(end),
    {
        Ranges::RangeToInclusive(end)
    }

    pub fn contains(&self, value: usize) -> (r: bool)
        ensures
            r == self.spec_contains(value),
    {
        match *self {
            Ranges::Just(v) => v == value,
            Ranges::Range(s, e) => s <= value && value < e,
            Ranges::RangeFrom(s) => s <= value,
            Ranges::RangeFull => true,
            Ranges::RangeInclusive(s, e) => s <= value && value <= e,
            Ranges::RangeTo(e) => value < e,
            Ranges::RangeToInclusive(e) => value <= e,
        }
    }

    pub fn start(&self) -> (r: Option<usize>)
        ensures
            r == self.spec_start(),
    {
        match *self {
            Ranges::Just(v) => Some(v),
            Ranges::Range(s, _) => Some(s),
            Ranges::RangeFrom(s) => Some(s),
            Ranges::RangeFull => None,
            Ranges::RangeInclusive(s, _) => Some(s),
            Ranges::RangeTo(_) => None,
            Ranges::RangeToInclusive(_) => None,
        }
    }

    pub fn end(&self) -> (r: Option<usize>)
        ensures
            r == self.spec_end(),
    {
        match *self {
            Ranges::Just(v) => Some(v),
            Ranges::Range(_, e) => Some(e),
            Ranges::RangeFrom(_) => None,
            Ranges::RangeFull => None,
            Ranges::RangeInclusive(_, e) => Some(e),
            Ranges::RangeTo(e) => Some(e),
            Ranges::RangeToInclusive(e) => Some(e),
        }
    }

    /// A range is bounded when it has both a lower and an upper bound.
    pub fn is_bounded(&self) -> (r: bool)
        ensures
            r == (self.spec_start() is Some && self.spec_end() is Some),
    {
        match *self {
            Ranges::Just(_) => true,
            Ranges::Range(_, _) => true,
            Ranges::RangeFrom(_) => false,
            Ranges::RangeFull => false,
            Ranges::RangeInclusive(_, _) => true,
            Ranges::RangeTo(_) => false,
            Ranges::RangeToInclusive(_) => false,
        }
    }

    /// A range is a singleton when it is a single value, or a two-sided range whose start and
    /// end are equal.
    pub fn is_singleton(&self) -> (r: bool)
        ensures
            r == self.spec_is_singleton(),
    {
        match *self {
            Ranges::Just(_) => true,
            Ranges::Range(s, e) => s == e,
            Ranges::RangeFrom(_) => false,
            Ranges::RangeFull => false,
            Ranges::RangeInclusive(s, e) => s == e,
            Ranges::RangeTo(_) => false,
            Ranges::RangeToInclusive(_) => false,
        }
    }
}

} // verus!
