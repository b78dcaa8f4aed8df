//! Kenwood-dialect CAT baseline helpers: response framing checks and the parsing and formatting
//! of the ASCII fields that CAT commands and responses are made of.

use vstd::prelude::*;

use crate::error::ranges::Ranges;
use crate::error::{
    Failure, RigError, agrees, invalid_argument_value, invalid_response_command_id, invalid_response_data,
    invalid_response_length, invalid_response_terminator,
};
use crate::protocol::cat::MESSAGE_TERMINATOR;
use crate::protocol::cat::digits::{
    all_digits, decimal, decimal_digits_of_len, decimal_len, digit_run, digits_value,
    is_digit, leading_value, lemma_all_digits_leading_value, lemma_digit_run,
    lemma_digits_value_prefix_le, lemma_digits_value_take_step, padded_decimal,
};

verus! {

/// `+`
pub const ASCII_SIGN_POSITIVE: u8 = 0x2B;

/// `-`
pub const ASCII_SIGN_NEGATIVE: u8 = 0x2D;

/// ` `
pub const ASCII_SPACE: u8 = 0x20;

/// `0`
pub const ASCII_DIGIT_ZERO: u8 = 0x30;

/// `1`
pub const ASCII_DIGIT_ONE: u8 = 0x31;

// ------------------------------------------------------------------------------------------------
// Specifications
// ------------------------------------------------------------------------------------------------

/// A graphic ASCII character or a space.
pub open spec fn is_printable_ascii(b: u8) -> bool {
    0x20 <= b && b <= 0x7E
}

pub open spec fn all_printable_ascii(s: Seq<u8>) -> bool {
    forall|i: int| 0 <= i < s.len() ==> is_printable_ascii(#[trigger] s[i])
}

/// Bytes read as characters, one character per byte.
pub open spec fn ascii_chars(s: Seq<u8>) -> Seq<char> {
    s.map_values(|b: u8| b as char)
}

/// An upper-case hexadecimal digit for `d < 16`.
pub open spec fn hex_digit(d: u8) -> char {
    if d < 10 {
        (0x30 + d) as char
    } else {
        (0x41 + d - 10) as char
    }
}

/// A byte as two upper-case hexadecimal digits.
pub open spec fn hex2(b: u8) -> Seq<char> {
    seq![hex_digit(b / 16), hex_digit(b % 16)]
}

/// The bytes as two-digit hex values separated by `, `.
pub open spec fn hex_list(s: Seq<u8>) -> Seq<char>
    decreases s.len(),
{
    if s.len() == 0 {
        Seq::empty()
    } else if s.len() == 1 {
        hex2(s[0])
    } else {
        hex_list(s.drop_last()) + seq![',', ' '] + hex2(s.last())
    }
}

/// The debug form of a byte slice with two-digit upper-case hex elements, as in `[4B, 32]`.
pub open spec fn hex_debug(s: Seq<u8>) -> Seq<char> {
    seq!['['] + hex_list(s) + seq![']']
}

/// The displayed form of an integer: an optional `-` and the decimal digits.
pub open spec fn decimal_string(v: int) -> Seq<char> {
    if v < 0 {
        seq!['-'] + ascii_chars(decimal((-v) as nat))
    } else {
        ascii_chars(decimal(v as nat))
    }
}

/// The sign that a sign byte stands for when a space may stand for `+`.
pub open spec fn spec_sign_loose(b: u8) -> Option<int> {
    if b == ASCII_SPACE || b == ASCII_SIGN_POSITIVE {
        Some(1)
    } else if b == ASCII_SIGN_NEGATIVE {
        Some(-1)
    } else {
        None
    }
}

/// The sign that a sign byte stands for when only `+` and `-` are allowed.
pub open spec fn spec_sign_strict(b: u8) -> Option<int> {
    if b == ASCII_SIGN_POSITIVE {
        Some(1)
    } else if b == ASCII_SIGN_NEGATIVE {
        Some(-1)
    } else {
        None
    }
}

/// Sign bytes: `+` is positive and `-` negative; the loose form also reads a space as positive,
/// and no other byte is a sign.
pub proof fn lemma_sign_bytes(b: u8)
    ensures
        spec_sign_strict(0x2B) == Some(1int) && spec_sign_strict(0x2D) == Some(-1int),
        spec_sign_loose(0x2B) == Some(1int) && spec_sign_loose(0x2D) == Some(-1int),
        spec_sign_loose(0x20) == Some(1int),
        b != 0x2B && b != 0x2D ==> spec_sign_strict(b) is None,
        b != 0x2B && b != 0x2D && b != 0x20 ==> spec_sign_loose(b) is None,
{
}

/// A well-framed response of `value_len` value bytes: the command identifier, the value, and
/// the terminator.
pub open spec fn is_framed_response(bytes: Seq<u8>, command_id: Seq<u8>, value_len: nat) -> bool {
    &&& bytes.len() == value_len + command_id.len() + 1
    &&& bytes.take(command_id.len() as int) == command_id
    &&& bytes.last() == MESSAGE_TERMINATOR
}

/// What `validate_response` gives for a response: its value bytes, or the first check that fails.
pub open spec fn spec_validate_response(bytes: Seq<u8>, command_id: Seq<u8>, value_len: nat) -> Result<
    Seq<u8>,
    Failure,
> {
    let expected = value_len + command_id.len() + 1;
    if bytes.len() != expected {
        Err(Failure::ResponseLength(Ranges::Just(expected as usize), bytes.len() as usize))
    } else if bytes.take(command_id.len() as int) != command_id {
        Err(Failure::ResponseCommandId(command_id))
    } else if bytes.last() != MESSAGE_TERMINATOR {
        Err(Failure::ResponseTerminator(seq![MESSAGE_TERMINATOR]))
    } else {
        Ok(response_value(bytes, command_id))
    }
}

/// What `bool_from_ascii_1_0` gives for a byte.
pub open spec fn spec_bool_1_0(b: u8) -> Result<bool, Failure> {
    if b == ASCII_DIGIT_ONE {
        Ok(true)
    } else if b == ASCII_DIGIT_ZERO {
        Ok(false)
    } else {
        Err(Failure::Boolean(b))
    }
}

/// What `u16_from_ascii` gives for a field.
pub open spec fn spec_u16_field(s: Seq<u8>) -> Result<u16, Failure> {
    if all_digits(s) && digits_value(s) <= u16::MAX {
        Ok(digits_value(s) as u16)
    } else {
        Err(Failure::ResponseData(s))
    }
}

/// What `u8_from_ascii` gives for a field.
pub open spec fn spec_u8_field(s: Seq<u8>) -> Result<u8, Failure> {
    if all_digits(s) {
        Ok(digits_value(s) as u8)
    } else {
        Err(Failure::ResponseData(s))
    }
}

/// What `u32_from_ascii` gives for a field.
pub open spec fn spec_u32_field(s: Seq<u8>) -> Result<u32, Failure> {
    if all_digits(s) && digits_value(s) <= u32::MAX {
        Ok(digits_value(s) as u32)
    } else {
        Err(Failure::ResponseData(s))
    }
}

/// The value bytes of a framed response.
pub open spec fn response_value(bytes: Seq<u8>, command_id: Seq<u8>) -> Seq<u8> {
    bytes.subrange(command_id.len() as int, bytes.len() - 1)
}

// ------------------------------------------------------------------------------------------------
// Strings
// ------------------------------------------------------------------------------------------------

/// Appends a character to a string (`String::push`).
#[verifier::external_body]
pub(crate) fn string_push(s: &mut String, c: char)
    ensures
        final(s)@ == old(s)@.push(c),
{
    s.push(c)
}

/// The bytes as a string of the same characters.
pub(crate) fn ascii_to_string(ascii: &[u8]) -> (s: String)
    ensures
        s@ == ascii_chars(ascii@),
{
    let mut s = String::new();
    let mut i: usize = 0;
    while i < ascii.len()
        invariant
            i <= ascii.len(),
            s@ == ascii_chars(ascii@.take(i as int)),
        decreases ascii.len() - i,
    {
        string_push(&mut s, ascii[i] as char);
        assert(ascii@.take(i + 1) =~= ascii@.take(i as int).push(ascii@[i as int]));
        i = i + 1;
    }
    assert(ascii@.take(ascii.len() as int) =~= ascii@);
    s
}

fn all_printable(ascii: &[u8]) -> (r: bool)
    ensures
        r == all_printable_ascii(ascii@),
{
    let mut i: usize = 0;
    while i < ascii.len()
        invariant
            i <= ascii.len(),
            forall|j: int| 0 <= j < i ==> is_printable_ascii(#[trigger] ascii@[j]),
        decreases ascii.len() - i,
    {
        if !(ascii[i] >= 0x20 && ascii[i] <= 0x7E) {
            return false;
        }
        i = i + 1;
    }
    true
}

/// The displayed form of an integer.
pub(crate) fn int_to_string(v: i64) -> (s: String)
    ensures
        s@ == decimal_string(v as int),
{
    let magnitude: u64 = if v < 0 {
        ((-(v + 1)) as u64) + 1
    } else {
        v as u64
    };
    let digits = decimal_digits_of_len(magnitude, decimal_len(magnitude));
    let mut s = String::new();
    if v < 0 {
        string_push(&mut s, '-');
    }
    let ghost prefix = s@;
    let mut i: usize = 0;
    while i < digits.len()
        invariant
            i <= digits.len(),
            s@ == prefix + ascii_chars(digits@.take(i as int)),
        decreases digits.len() - i,
    {
        string_push(&mut s, digits[i] as char);
        assert(digits@.take(i + 1) =~= digits@.take(i as int).push(digits@[i as int]));
        assert(ascii_chars(digits@.take(i + 1)) =~= ascii_chars(digits@.take(i as int)).push(
            digits@[i as int] as char,
        ));
        i = i + 1;
    }
    assert(digits@.take(digits.len() as int) =~= digits@);
    proof {
        if v < 0 {
            assert(prefix =~= seq!['-']);
        } else {
            assert(prefix =~= Seq::<char>::empty());
        }
    }
    s
}

fn hex_char(d: u8) -> (c: char)
    requires
        d < 16,
    ensures
        c == hex_digit(d),
{
    if d < 10 {
        (0x30u8 + d) as char
    } else {
        (0x41u8 + d - 10) as char
    }
}

/// The hex debug form of the bytes, as in `[4B, 32]`.
pub(crate) fn hex_debug_string(ascii: &[u8]) -> (s: String)
    ensures
        s@ == hex_debug(ascii@),
{
    let mut s = String::new();
    string_push(&mut s, '[');
    let mut i: usize = 0;
    while i < ascii.len()
        invariant
            i <= ascii.len(),
            s@ == seq!['['] + hex_list(ascii@.take(i as int)),
        decreases ascii.len() - i,
    {
        let ghost before = s@;
        if i > 0 {
            string_push(&mut s, ',');
            string_push(&mut s, ' ');
        }
        let b = ascii[i];
        string_push(&mut s, hex_char(b / 16));
        string_push(&mut s, hex_char(b % 16));
        proof {
            let t = ascii@.take(i + 1);
            assert(t.drop_last() =~= ascii@.take(i as int));
            assert(t.last() == b);
            if i == 0 {
                assert(t.len() == 1);
                assert(hex_list(ascii@.take(0)) =~= Seq::<char>::empty());
                assert(s@ =~= seq!['['] + hex_list(t));
            } else {
                assert(s@ =~= seq!['['] + hex_list(t));
            }
        }
        i = i + 1;
    }
    string_push(&mut s, ']');
    assert(ascii@.take(ascii.len() as int) =~= ascii@);
    s
}

// ------------------------------------------------------------------------------------------------
// Response validation
// ------------------------------------------------------------------------------------------------

/// Whether `bytes` starts with `prefix`.
pub(crate) fn has_prefix(bytes: &[u8], prefix: &[u8]) -> (r: bool)
    ensures
        r == (prefix.len() <= bytes.len() && bytes@.take(prefix.len() as int) == prefix@),
{
    if prefix.len() > bytes.len() {
        return false;
    }
    let mut i: usize = 0;
    while i < prefix.len()
        invariant
            i <= prefix.len() <= bytes.len(),
            forall|j: int| 0 <= j < i ==> bytes@[j] == prefix@[j],
        decreases prefix.len() - i,
    {
        if bytes[i] != prefix[i] {
            assert(bytes@.take(prefix.len() as int)[i as int] != prefix@[i as int]);
            return false;
        }
        i = i + 1;
    }
    assert(bytes@.take(prefix.len() as int) =~= prefix@);
    true
}

/// Whether two byte slices hold the same bytes.
pub(crate) fn bytes_eq(a: &[u8], b: &[u8]) -> (r: bool)
    ensures
        r == (a@ == b@),
{
    if a.len() != b.len() {
        return false;
    }
    let r = has_prefix(a, b);
    proof {
        if r {
            assert(a@.take(b.len() as int) =~= a@);
        } else {
            assert(a@.take(b.len() as int) =~= a@);
        }
    }
    r
}

/// Checks that a response is the command identifier, `expected_value_len` value bytes and the
/// terminator, and returns the value bytes.
///
/// The length is checked first, then the identifier, then the terminator; the first check that
/// fails decides the error.
pub fn validate_response<'a>(
    bytes_read: &'a [u8],
    command_id: &[u8],
    expected_value_len: usize,
) -> (r: Result<&'a [u8], RigError>)
    requires
        expected_value_len + command_id.len() + 1 <= usize::MAX,
    ensures
        ({
            let expected = (expected_value_len + command_id.len() + 1) as usize;
            if bytes_read.len() != expected {
                r matches Err(e) && e.is_invalid_response_length(
                    Ranges::Just(expected),
                    bytes_read.len(),
                )
            } else if bytes_read@.take(command_id.len() as int) != command_id@ {
                r matches Err(e) && e.is_invalid_response_command_id(command_id@)
            } else if bytes_read@.last() != MESSAGE_TERMINATOR {
                r matches Err(e) && e.is_invalid_response_terminator(seq![MESSAGE_TERMINATOR])
            } else {
                r matches Ok(d) && d@ == response_value(bytes_read@, command_id@)
            }
        }),
        r is Ok <==> is_framed_response(bytes_read@, command_id@, expected_value_len as nat),
        match (r, spec_validate_response(bytes_read@, command_id@, expected_value_len as nat)) {
            (Ok(d), Ok(v)) => d@ == v,
            (Err(e), Err(f)) => e.fails_with(f),
            _ => false,
        },
{
    let expected_read_len = expected_value_len + command_id.len() + 1;
    if bytes_read.len() != expected_read_len {
        Err(invalid_response_length(Ranges::Just(expected_read_len), bytes_read.len()))
    } else if !has_prefix(bytes_read, command_id) {
        Err(invalid_response_command_id(command_id))
    } else if bytes_read[bytes_read.len() - 1] != MESSAGE_TERMINATOR {
        let terminator: [u8; 1] = [MESSAGE_TERMINATOR];
        let e = invalid_response_terminator(&terminator);
        assert(terminator@ =~= seq![MESSAGE_TERMINATOR]);
        Err(e)
    } else {
        Ok(&bytes_read[command_id.len()..bytes_read.len() - 1])
    }
}

/// The bytes as a vector.
pub fn bytes_to_vec(bytes: &[u8]) -> (r: Result<Vec<u8>, RigError>)
    ensures
        r matches Ok(v) && v@ == bytes@,
{
    Ok(vstd::slice::slice_to_vec(bytes))
}

/// The bytes as a string, when every byte is a graphic ASCII character or a space.
pub fn string_from_ascii(ascii: &[u8]) -> (r: Result<String, RigError>)
    ensures
        all_printable_ascii(ascii@) ==> (r matches Ok(s) && s@ == ascii_chars(ascii@)),
        !all_printable_ascii(ascii@) ==> (r matches Err(e) && e.is_invalid_response_data(ascii@)),
{
    if all_printable(ascii) {
        Ok(ascii_to_string(ascii))
    } else {
        Err(invalid_response_data(ascii))
    }
}

/// The bytes as a string for diagnostics: the characters when every byte is a graphic ASCII
/// character or a space, otherwise the hex debug form such as `[4B, 32]`.
pub fn dbg_string_from_ascii(ascii: &[u8]) -> (s: String)
    ensures
        all_printable_ascii(ascii@) ==> s@ == ascii_chars(ascii@),
        !all_printable_ascii(ascii@) ==> s@ == hex_debug(ascii@),
{
    if all_printable(ascii) {
        ascii_to_string(ascii)
    } else {
        hex_debug_string(ascii)
    }
}

// ------------------------------------------------------------------------------------------------
// Numeric fields
// ------------------------------------------------------------------------------------------------

/// Reads `ascii` as a decimal numeral; `None` when a byte is not a digit.
fn parse_decimal(ascii: &[u8]) -> (r: Option<u64>)
    requires
        leading_value(ascii@) <= u64::MAX,
    ensures
        r is Some <==> all_digits(ascii@),
        r matches Some(v) ==> v == digits_value(ascii@),
{
    proof {
        lemma_digit_run(ascii@);
    }
    let mut n: u64 = 0;
    let mut i: usize = 0;
    while i < ascii.len()
        invariant
            i <= ascii.len(),
            i <= digit_run(ascii@),
            n == digits_value(ascii@.take(i as int)),
            leading_value(ascii@) <= u64::MAX,
            digit_run(ascii@) <= ascii@.len(),
            forall|j: int| 0 <= j < digit_run(ascii@) ==> is_digit(#[trigger] ascii@[j]),
            digit_run(ascii@) < ascii@.len() ==> !is_digit(ascii@[digit_run(ascii@) as int]),
            all_digits(ascii@) <==> digit_run(ascii@) == ascii@.len(),
        decreases ascii.len() - i,
    {
        let b = ascii[i];
        if b < 0x30 || b > 0x39 {
            return None;
        }
        proof {
            lemma_digits_value_take_step(ascii@, i as int);
            lemma_digits_value_prefix_le(ascii@, i + 1, digit_run(ascii@) as int);
        }
        n = n * 10 + (b - 0x30) as u64;
        i = i + 1;
    }
    assert(ascii@.take(i as int) =~= ascii@);
    Some(n)
}

/// Reads an unsigned decimal field as a `u32`.
///
/// Fails with `InvalidResponseData` holding the field when a byte is not a digit or the value
/// does not fit in a `u32`.
pub fn u32_from_ascii(ascii: &[u8]) -> (r: Result<u32, RigError>)
    requires
        leading_value(ascii@) <= u64::MAX,
    ensures
        r is Ok <==> all_digits(ascii@) && digits_value(ascii@) <= u32::MAX,
        r matches Ok(v) ==> v == digits_value(ascii@),
        r matches Err(e) ==> e.is_invalid_response_data(ascii@),
        agrees(r, spec_u32_field(ascii@)),
{
    match parse_decimal(ascii) {
        Some(n) => {
            if n <= u32::MAX as u64 {
                Ok(n as u32)
            } else {
                Err(invalid_response_data(ascii))
            }
        },
        None => Err(invalid_response_data(ascii)),
    }
}

/// Reads an unsigned decimal field as a `u16`.
///
/// Fails with `InvalidResponseData` holding the field when a byte is not a digit or the value
/// does not fit in a `u16`.
pub fn u16_from_ascii(ascii: &[u8]) -> (r: Result<u16, RigError>)
    requires
        leading_value(ascii@) <= u32::MAX,
    ensures
        r is Ok <==> all_digits(ascii@) && digits_value(ascii@) <= u16::MAX,
        r matches Ok(v) ==> v == digits_value(ascii@),
        r matches Err(e) ==> e.is_invalid_response_data(ascii@),
        agrees(r, spec_u16_field(ascii@)),
{
    match parse_decimal(ascii) {
        Some(n) => {
            if n <= u16::MAX as u64 {
                Ok(n as u16)
            } else {
                Err(invalid_response_data(ascii))
            }
        },
        None => Err(invalid_response_data(ascii)),
    }
}

/// Reads an unsigned decimal field as a non-negative `i16`.
///
/// Fails with `InvalidResponseData` holding the field when a byte is not a digit or the value
/// does not fit in an `i16`.
pub fn i16_from_ascii(ascii: &[u8]) -> (r: Result<i16, RigError>)
    requires
        leading_value(ascii@) <= u16::MAX,
    ensures
        r is Ok <==> all_digits(ascii@) && digits_value(ascii@) <= i16::MAX,
        r matches Ok(v) ==> v == digits_value(ascii@),
        r matches Err(e) ==> e.is_invalid_response_data(ascii@),
{
    match parse_decimal(ascii) {
        Some(n) => {
            if n <= i16::MAX as u64 {
                Ok(n as i16)
            } else {
                Err(invalid_response_data(ascii))
            }
        },
        None => Err(invalid_response_data(ascii)),
    }
}

/// Reads an unsigned decimal field as a `u8`.
///
/// Fails with `InvalidResponseData` holding the field when a byte is not a digit.
pub fn u8_from_ascii(ascii: &[u8]) -> (r: Result<u8, RigError>)
    requires
        leading_value(ascii@) <= u8::MAX,
    ensures
        r is Ok <==> all_digits(ascii@),
        r matches Ok(v) ==> v == digits_value(ascii@),
        r matches Err(e) ==> e.is_invalid_response_data(ascii@),
        agrees(r, spec_u8_field(ascii@)),
{
    match parse_decimal(ascii) {
        Some(n) => {
            proof {
                lemma_all_digits_leading_value(ascii@);
            }
            Ok(n as u8)
        },
        None => Err(invalid_response_data(ascii)),
    }
}

/// Reads a sign byte, `-` as `-1` and `+` as `1`.
pub fn sign_from_ascii_strict(ascii: u8) -> (r: Result<i32, RigError>)
    ensures
        match spec_sign_strict(ascii) {
            Some(s) => r matches Ok(v) && v == s,
            None => r matches Err(e) && e.is_parse_sign(ascii),
        },
{
    if ascii == ASCII_SIGN_NEGATIVE {
        Ok(-1)
    } else if ascii == ASCII_SIGN_POSITIVE {
        Ok(1)
    } else {
        Err(RigError::ParseSign { value: ascii })
    }
}

/// Reads a sign byte, where a space also stands for `+`.
pub fn sign_from_ascii_loose(ascii: u8) -> (r: Result<i32, RigError>)
    ensures
        match spec_sign_loose(ascii) {
            Some(s) => r matches Ok(v) && v == s,
            None => r matches Err(e) && e.is_parse_sign(ascii),
        },
{
    if ascii == ASCII_SPACE {
        Ok(1)
    } else {
        sign_from_ascii_strict(ascii)
    }
}

/// Reads a sign byte followed by two digits as an `i8`.
///
/// A field shorter than two or longer than three bytes is an `InvalidResponseLength` error; a
/// field of exactly two bytes has no second digit and is not accepted.
pub fn i8_from_ascii(ascii: &[u8]) -> (r: Result<i8, RigError>)
    requires
        ascii.len() != 2,
    ensures
        ascii.len() < 2 || ascii.len() > 3 ==> (r matches Err(e) && e.is_invalid_response_length(
            Ranges::RangeInclusive(2, 3),
            ascii.len(),
        )),
        ascii.len() == 3 ==> match spec_sign_loose(ascii@[0]) {
            None => r matches Err(e) && e.is_parse_sign(ascii@[0]),
            Some(s) => if all_digits(ascii@.subrange(1, 3)) {
                r matches Ok(v) && v == s * digits_value(ascii@.subrange(1, 3))
            } else {
                r matches Err(e) && e.is_invalid_response_data(ascii@.subrange(1, 3))
            },
        },
{
    if ascii.len() < 2 || ascii.len() > 3 {
        Err(invalid_response_length(Ranges::RangeInclusive(2, 3), ascii.len()))
    } else {
        i8_from_ascii_split(ascii, ascii)
    }
}

/// Reads a sign byte followed by two digits from `d` as an `i8`; a failure reports `raw`.
pub fn i8_from_ascii_split(raw: &[u8], d: &[u8]) -> (r: Result<i8, RigError>)
    requires
        d.len() >= 3,
    ensures
        match spec_sign_loose(d@[0]) {
            None => r matches Err(e) && e.is_parse_sign(d@[0]),
            Some(s) => if all_digits(d@.subrange(1, 3)) {
                r matches Ok(v) && v == s * digits_value(d@.subrange(1, 3))
            } else {
                r matches Err(e) && e.is_invalid_response_data(d@.subrange(1, 3))
            },
        },
{
    let sign = match sign_from_ascii_loose(d[0]) {
        Ok(s) => s as i16,
        Err(e) => return Err(e),
    };
    let digits = &d[1..3];
    proof {
        bound_two_digits(digits@);
    }
    let mag = match u16_from_ascii(digits) {
        Ok(m) => m as i16,
        Err(e) => return Err(e),
    };
    let product = sign * mag;
    if -128 <= product && product <= 127 {
        Ok(product as i8)
    } else {
        Err(invalid_response_data(raw))
    }
}

/// Two bytes hold a value of at most 99.
proof fn bound_two_digits(s: Seq<u8>)
    requires
        s.len() == 2,
    ensures
        leading_value(s) <= 99,
        all_digits(s) ==> digits_value(s) <= 99,
{
    lemma_digit_run(s);
    let k = digit_run(s) as int;
    assert(s.take(0).len() == 0);
    if k >= 1 {
        lemma_digits_value_take_step(s, 0);
    }
    if k == 2 {
        lemma_digits_value_take_step(s, 1);
        assert(s.take(2) =~= s);
    }
}

/// Reads `1` as `true` and `0` as `false`.
pub fn bool_from_ascii_1_0(ascii: u8) -> (r: Result<bool, RigError>)
    ensures
        ascii == ASCII_DIGIT_ONE ==> (r matches Ok(b) && b),
        ascii == ASCII_DIGIT_ZERO ==> (r matches Ok(b) && !b),
        ascii != ASCII_DIGIT_ONE && ascii != ASCII_DIGIT_ZERO ==> (r matches Err(e)
            && e.is_parse_boolean(ascii)),
        agrees(r, spec_bool_1_0(ascii)),
{
    if ascii == ASCII_DIGIT_ONE {
        Ok(true)
    } else if ascii == ASCII_DIGIT_ZERO {
        Ok(false)
    } else {
        Err(RigError::ParseBoolean { value: ascii })
    }
}

/// Checks that a fixed byte of a response has its expected value.
pub fn assert_byte_eq(value: u8, expected: u8) -> (r: Result<(), RigError>)
    ensures
        r is Ok <==> value == expected,
        r matches Err(e) ==> e.is_invalid_response_data(seq![value]),
{
    if value != expected {
        let data: [u8; 1] = [value];
        let e = invalid_response_data(&data);
        assert(data@ =~= seq![value]);
        Err(e)
    } else {
        Ok(())
    }
}

/// Checks that every byte of a fixed field has the expected value.
pub fn assert_all_bytes_eq(values: &[u8], expected: u8) -> (r: Result<(), RigError>)
    ensures
        r is Ok <==> forall|i: int| 0 <= i < values.len() ==> #[trigger] values@[i] == expected,
        r matches Err(e) ==> e.is_invalid_response_data(values@),
{
    let mut i: usize = 0;
    while i < values.len()
        invariant
            i <= values.len(),
            forall|j: int| 0 <= j < i ==> #[trigger] values@[j] == expected,
        decreases values.len() - i,
    {
        if values[i] != expected {
            return Err(invalid_response_data(values));
        }
        i = i + 1;
    }
    Ok(())
}

/// Checks that a fixed field holds exactly the expected bytes.
pub fn assert_byte_slice_eq(value: &[u8], expected: &[u8]) -> (r: Result<(), RigError>)
    ensures
        r is Ok <==> value@ == expected@,
        r matches Err(e) ==> e.is_invalid_response_data(value@),
{
    if !bytes_eq(value, expected) {
        Err(invalid_response_data(value))
    } else {
        Ok(())
    }
}

// ------------------------------------------------------------------------------------------------
// Formatting
// ------------------------------------------------------------------------------------------------

/// `n` in decimal ASCII, zero-padded to at least `width` digits.
pub fn format_uint_ascii(n: u64, width: usize) -> (r: Vec<u8>)
    ensures
        r@ == padded_decimal(n as nat, width as nat),
{
    let k = decimal_len(n);
    let len = if width > k {
        width
    } else {
        k
    };
    decimal_digits_of_len(n, len)
}

/// A sign (`-` for negative, otherwise `+`) and the magnitude of `n` zero-padded to at least
/// `width` digits.
///
/// `n` must not be `i16::MIN`, whose magnitude does not fit in an `i16`.
pub fn format_int_ascii(n: i16, width: usize) -> (r: Vec<u8>)
    requires
        n != i16::MIN,
    ensures
        r@ == seq![if n < 0 { ASCII_SIGN_NEGATIVE } else { ASCII_SIGN_POSITIVE }] + padded_decimal(
            (if n < 0 { -n } else { n as int }) as nat,
            width as nat,
        ),
{
    let mut bytes: Vec<u8> = Vec::new();
    bytes.push(
        if n < 0 {
            ASCII_SIGN_NEGATIVE
        } else {
            ASCII_SIGN_POSITIVE
        },
    );
    let magnitude: u64 = if n < 0 {
        (-n) as u64
    } else {
        n as u64
    };
    let mut digits = format_uint_ascii(magnitude, width);
    bytes.append(&mut digits);
    bytes
}

/// Checks that `value` is between `min` and `max` inclusive; otherwise an `InvalidArgumentValue`
/// error naming the argument, its type, and the displayed value.
pub fn validate_integer_in_range(
    argument_name: &'static str,
    value_type: &'static str,
    value: i64,
    min: i64,
    max: i64,
) -> (r: Result<(), RigError>)
    ensures
        r is Ok <==> min <= value <= max,
        r matches Err(e) ==> e.is_invalid_argument_value(
            argument_name@,
            value_type@,
            decimal_string(value as int),
        ),
{
    if min <= value && value <= max {
        Ok(())
    } else {
        Err(invalid_argument_value(argument_name, value_type, int_to_string(value)))
    }
}

// ------------------------------------------------------------------------------------------------
// Bit flags
// ------------------------------------------------------------------------------------------------

/// Bit `bit` of `value` is set.
pub open spec fn bit_set(value: u8, bit: u8) -> bool {
    value & (1u8 << bit) != 0
}

/// Whether bit `bit` of `value` is set.
pub fn is_bit_set(value: u8, bit: u8) -> (r: bool)
    requires
        bit < 8,
    ensures
        r == bit_set(value, bit),
{
    value & (1u8 << bit) != 0
}

/// Bits 0 to 7 of a byte are the bits of weight 1, 2, 4, 8, 16, 32, 64 and 128.
pub proof fn lemma_bit_weights(value: u8)
    ensures
        bit_set(value, 0) == (value & 0x01 != 0),
        bit_set(value, 1) == (value & 0x02 != 0),
        bit_set(value, 2) == (value & 0x04 != 0),
        bit_set(value, 3) == (value & 0x08 != 0),
        bit_set(value, 4) == (value & 0x10 != 0),
        bit_set(value, 5) == (value & 0x20 != 0),
        bit_set(value, 6) == (value & 0x40 != 0),
        bit_set(value, 7) == (value & 0x80 != 0),
{
    assert(1u8 << 0u8 == 0x01u8 && 1u8 << 1u8 == 0x02u8 && 1u8 << 2u8 == 0x04u8 && 1u8 << 3u8 == 0x08u8
        && 1u8 << 4u8 == 0x10u8 && 1u8 << 5u8 == 0x20u8 && 1u8 << 6u8 == 0x40u8 && 1u8 << 7u8
        == 0x80u8) by (bit_vector);
}

} // verus!
