//! Rig-level values shared by the command sets: levels, and the entity traits.

use vstd::prelude::*;

use crate::error::RigError;
use crate::error::ranges::Ranges;
use crate::protocol::cat::common::{decimal_string, int_to_string};

pub mod entities;

verus! {

/// A control level, such as an AF gain, from `0` (off) to `255` (maximum).
#[derive(Clone, Copy, Debug, Default, PartialEq, Eq, PartialOrd, Ord, Hash)]
pub struct Level(u8);

/// Parses a string as a `u8` (`u8::from_str`): an optional `+` followed by one or more decimal
/// digits whose value is at most 255; anything else, including an empty string or surrounding
/// whitespace, is an error.
#[verifier::external_body]
fn u8_from_str(s: &str) -> (r: Result<u8, core::num::ParseIntError>)
    ensures
        r is Ok <==> spec_u8_text(s@) is Some,
        r matches Ok(v) ==> spec_u8_text(s@) == Some(v),
{
    <u8 as core::str::FromStr>::from_str(s)
}

/// A decimal character.
pub open spec fn is_decimal_char(c: char) -> bool {
    '0' <= c && c <= '9'
}

/// The value of a string of decimal characters.
pub open spec fn decimal_chars_value(s: Seq<char>) -> nat
    decreases s.len(),
{
    if s.len() == 0 {
        0
    } else {
        decimal_chars_value(s.drop_last()) * 10 + (s.last() as nat - '0' as nat) as nat
    }
}

/// The `u8` that a string denotes: an optional `+` and at least one decimal digit, worth at most
/// 255.
pub open spec fn spec_u8_text(s: Seq<char>) -> Option<u8> {
    let digits = if s.len() > 0 && s[0] == '+' {
        s.drop_first()
    } else {
        s
    };
    if digits.len() > 0 && (forall|i: int| 0 <= i < digits.len() ==> is_decimal_char(
        #[trigger] digits[i],
    )) && decimal_chars_value(digits) <= 255 {
        Some(decimal_chars_value(digits) as u8)
    } else {
        None
    }
}

impl Level {
    /// The raw level value.
    pub closed spec fn value(self) -> u8 {
        self.0
    }

    /// The level with the given raw value.
    pub fn new(value: u8) -> (r: Level)
        ensures
            r.value() == value,
    {
        Level(value)
    }

    /// The raw level value.
    pub fn as_u8(&self) -> (r: u8)
        ensures
            r == self.value(),
    {
        self.0
    }

    /// The level off, `0`.
    pub fn off() -> (r: Level)
        ensures
            r.value() == 0,
    {
        Level(0)
    }

    /// The lowest level that is on, `1`.
    pub fn min() -> (r: Level)
        ensures
            r.value() == 1,
    {
        Level(1)
    }

    /// The highest level, `255`.
    pub fn max() -> (r: Level)
        ensures
            r.value() == 255,
    {
        Level(255)
    }

    /// The middle level, half of the highest, `127`.
    pub fn mid() -> (r: Level)
        ensures
            r.value() == 127,
    {
        Level(127)
    }

    /// The level at `percentage` percent of the highest level, rounded down: `255 * p / 100`.
    ///
    /// The percentage must be at most 100.
    pub fn percent(percentage: u8) -> (r: Level)
        requires
            percentage <= 100,
        ensures
            r.value() == 255 * percentage / 100,
    {
        Level(((255u32 * percentage as u32) / 100) as u8)
    }

    pub fn set_off(&mut self)
        ensures
            final(self).value() == 0,
    {
        self.0 = 0;
    }

    pub fn set_min(&mut self)
        ensures
            final(self).value() == 1,
    {
        self.0 = 1;
    }

    pub fn set_max(&mut self)
        ensures
            final(self).value() == 255,
    {
        self.0 = 255;
    }

    pub fn set_mid(&mut self)
        ensures
            final(self).value() == 127,
    {
        self.0 = 127;
    }

    /// Sets the level from a percentage against a percentage scale of zero: a percentage of zero
    /// gives level `0` and any other percentage the highest level, `255`.
    ///
    /// The percentage must be at most 100.
    pub fn set_percent(&mut self, percentage: u8)
        requires
            percentage <= 100,
        ensures
            final(self).value() == if percentage == 0 {
                0u8
            } else {
                255u8
            },
    {
        self.0 = if percentage == 0 {
            0
        } else {
            255
        };
    }

    /// The level as a percentage against a percentage scale of zero, which is always `0`.
    pub fn to_percent(&self) -> (r: u8)
        ensures
            r == 0,
    {
        0
    }

    /// Reads a one-byte response value as the raw level.
    pub fn try_from(value: &[u8]) -> (r: Result<Level, RigError>)
        ensures
            value.len() == 1 ==> (r matches Ok(l) && l.value() == value@[0]),
            value.len() != 1 ==> (r matches Err(e) && e.is_invalid_response_length(
                Ranges::Just(1),
                value.len(),
            )),
    {
        if value.len() != 1 {
            Err(crate::error::invalid_response_length(Ranges::Just(1), value.len()))
        } else {
            Ok(Level(value[0]))
        }
    }

    /// Parses the decimal form of a level, as `u8` does; a failure is a `ParseLevel` error
    /// holding the string.
    pub fn parse(s: &str) -> (r: Result<Level, RigError>)
        ensures
            match spec_u8_text(s@) {
                Some(v) => r matches Ok(l) && l.value() == v,
                None => r matches Err(e) && e matches RigError::ParseLevel { level, .. } && level@
                    == s@,
            },
    {
        match u8_from_str(s) {
            Ok(v) => Ok(Level(v)),
            Err(error) => Err(RigError::ParseLevel { level: s.to_owned(), error }),
        }
    }

    /// The displayed form of the level, its decimal value.
    pub fn display_string(&self) -> (s: String)
        ensures
            s@ == decimal_string(self.value() as int),
    {
        int_to_string(self.0 as i64)
    }
}

impl From<u8> for Level {
    fn from(value: u8) -> (r: Level)
        ensures
            r.value() == value,
    {
        Level(value)
    }
}

impl vstd::std_specs::convert::FromSpecImpl<u8> for Level {
    open spec fn obeys_from_spec() -> bool {
        true
    }

    closed spec fn from_spec(v: u8) -> Level {
        Level(v)
    }
}

impl<'a> From<&'a u8> for Level {
    fn from(value: &'a u8) -> (r: Level)
        ensures
            r.value() == *value,
    {
        Level(*value)
    }
}

impl<'a> vstd::std_specs::convert::FromSpecImpl<&'a u8> for Level {
    open spec fn obeys_from_spec() -> bool {
        true
    }

    closed spec fn from_spec(v: &'a u8) -> Level {
        Level(*v)
    }
}

impl From<Level> for u8 {
    fn from(level: Level) -> (r: u8)
        ensures
            r == level.value(),
    {
        level.0
    }
}

impl vstd::std_specs::convert::FromSpecImpl<Level> for u8 {
    open spec fn obeys_from_spec() -> bool {
        true
    }

    closed spec fn from_spec(v: Level) -> u8 {
        v.0
    }
}

impl core::str::FromStr for Level {
    type Err = RigError;

    fn from_str(s: &str) -> Result<Level, RigError> {
        Level::parse(s)
    }
}

/// Converting a raw value to a level and back gives the value, and the level holds it.
pub proof fn lemma_level_u8_round_trip(value: u8)
    ensures
        <Level as vstd::std_specs::convert::FromSpec<u8>>::from_spec(value).value() == value,
        <u8 as vstd::std_specs::convert::FromSpec<Level>>::from_spec(
            <Level as vstd::std_specs::convert::FromSpec<u8>>::from_spec(value),
        ) == value,
{
}

} // verus!
