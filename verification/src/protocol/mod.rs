//! Protocol-level types shared by the command sets.

use vstd::prelude::*;

use crate::error::{RigError, invalid_response_data};
use crate::protocol::cat::digits::{
    all_digits, digits_value, lemma_digits_value_prefix_le, lemma_digits_value_take_step,
    lemma_padded_decimal_value, padded_decimal,
};
use crate::protocol::cat::common::format_uint_ascii;

pub mod cat;

verus! {

/// A radio frequency in hertz.
#[derive(Clone, Copy, Debug, PartialEq, Eq, PartialOrd, Ord, Hash)]
pub struct Frequency(pub u64);

/// Reads `ascii` as a decimal numeral; `None` when a byte is not a digit or the value does not
/// fit in a `u64`.
pub(crate) fn u64_from_ascii_checked(ascii: &[u8]) -> (r: Option<u64>)
    ensures
        r is Some <==> all_digits(ascii@) && digits_value(ascii@) <= u64::MAX,
        r matches Some(v) ==> v == digits_value(ascii@),
{
    let mut n: u64 = 0;
    let mut i: usize = 0;
    while i < ascii.len()
        invariant
            i <= ascii.len(),
            n == digits_value(ascii@.take(i as int)),
            forall|j: int| 0 <= j < i ==> crate::protocol::cat::digits::is_digit(#[trigger] ascii@[j]),
        decreases ascii.len() - i,
    {
        let b = ascii[i];
        if b < 0x30 || b > 0x39 {
            return None;
        }
        proof {
            lemma_digits_value_take_step(ascii@, i as int);
            lemma_digits_value_prefix_le(ascii@, i + 1, ascii.len() as int);
            assert(ascii@.take(ascii.len() as int) =~= ascii@);
        }
        let d = (b - 0x30) as u64;
        if n > (u64::MAX - d) / 10 {
            assert(n * 10 + d > u64::MAX) by (nonlinear_arith)
                requires
                    n > (u64::MAX - d) / 10,
                    d <= 9,
            ;
            return None;
        }
        assert(n * 10 + d <= u64::MAX) by (nonlinear_arith)
            requires
                n <= (u64::MAX - d) / 10,
                d <= 9,
        ;
        n = n * 10 + d;
        i = i + 1;
    }
    assert(ascii@.take(i as int) =~= ascii@);
    Some(n)
}

impl Frequency {
    /// Reads a frequency in hertz from a decimal ASCII field, such as the 11 digits of an `FA`
    /// response.
    ///
    /// Fails with `InvalidResponseData` holding the field when a byte is not a digit or the value
    /// does not fit in a `u64`.
    pub fn try_from(value: &[u8]) -> (r: Result<Frequency, RigError>)
        ensures
            r is Ok <==> all_digits(value@) && digits_value(value@) <= u64::MAX,
            r matches Ok(f) ==> f.0 == digits_value(value@),
            r matches Err(e) ==> e.is_invalid_response_data(value@),
    {
        match u64_from_ascii_checked(value) {
            Some(hz) => Ok(Frequency(hz)),
            None => Err(invalid_response_data(value)),
        }
    }

    /// The frequency in hertz as 11 zero-padded ASCII digits, the `FA`/`FB` argument format.
    pub fn to_ascii(&self) -> (r: Vec<u8>)
        ensures
            r@ == padded_decimal(self.0 as nat, 11),
    {
        format_uint_ascii(self.0, 11)
    }
}

/// Writing a frequency in ASCII and reading it back gives the same frequency: the digits of
/// `to_ascii` are all decimal digits and their value is the frequency in hertz.
pub proof fn lemma_frequency_ascii_round_trip(frequency: Frequency)
    ensures
        all_digits(padded_decimal(frequency.0 as nat, 11)),
        digits_value(padded_decimal(frequency.0 as nat, 11)) == frequency.0,
{
    lemma_padded_decimal_value(frequency.0 as nat, 11);
}

} // verus!
