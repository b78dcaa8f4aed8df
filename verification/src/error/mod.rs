//! Error type for this crate, and the functions that build its values.

use vstd::prelude::*;

pub mod ranges;

use self::ranges::Ranges;

verus! {

#[verifier::external_type_specification]
#[verifier::external_body]
pub struct ExIoError(std::io::Error);

#[verifier::external_type_specification]
#[verifier::external_body]
pub struct ExSerialPortError(serialport::Error);

#[verifier::external_type_specification]
#[verifier::external_body]
pub struct ExTomlDeError(toml::de::Error);

#[verifier::external_type_specification]
#[verifier::external_body]
pub struct ExParseIntError(core::num::ParseIntError);

/// The `Error` type for this crate.
#[allow(inconsistent_fields)]
#[derive(Debug)]
pub enum RigError {
    /// I/O error.
    Io(std::io::Error),
    /// Serial port I/O error.
    Serial(serialport::Error),
    /// Toml parsing error.
    Toml(toml::de::Error),
    /// Could not convert a connection to a socket address.
    SocketAddress { socket_addr: String },
    /// Synchronization poison error.
    Poison { message: String },
    /// Function not supported by the target rig.
    UnsupportedFunction { function_name: String, rig_name: String },
    /// Invalid length for an argument.
    InvalidArgumentLength { argument_name: &'static str, expecting: Ranges, given: usize },
    /// Invalid value of the named type for an argument.
    InvalidArgumentValue { argument_name: &'static str, value_type: &'static str, value: String },
    /// Invalid response message length.
    InvalidResponseLength { expecting: Ranges, given: usize },
    /// Invalid response command identification string.
    InvalidResponseCommandId { expecting: Vec<u8> },
    /// Invalid response data, could not parse it.
    InvalidResponseData { data: Vec<u8> },
    /// Invalid response, missing the message terminator.
    InvalidResponseTerminator { expecting: Vec<u8> },
    /// Invalid string representation of a frequency.
    ParseFrequency { value: String, error: core::num::ParseIntError },
    /// Invalid string representation for an enum type, not a known variant.
    ParseEnum { value_type: &'static str, value: String },
    /// Invalid representation of a boolean.
    ParseBoolean { value: u8 },
    /// Invalid representation of a byte.
    ParseByte { value: Vec<u8> },
    /// Invalid numeric sign character.
    ParseSign { value: u8 },
    /// Invalid string representation of a level.
    ParseLevel { level: String, error: core::num::ParseIntError },
    /// Byte value not in range `0..=9` for a BCD value.
    InvalidBcdDigit { byte: u8 },
}

/// The content of an error, as contracts describe it.
pub ghost enum Failure {
    ResponseData(Seq<u8>),
    ResponseLength(Ranges, usize),
    ResponseCommandId(Seq<u8>),
    ResponseTerminator(Seq<u8>),
    Boolean(u8),
    Sign(u8),
    Enum(Seq<char>, Seq<char>),
    ArgumentValue(Seq<char>, Seq<char>, Seq<char>),
}

/// An outcome and its description agree: both succeed with the same value, or both fail and the
/// error is the one described.
pub open spec fn agrees<T>(r: Result<T, RigError>, s: Result<T, Failure>) -> bool {
    match (r, s) {
        (Ok(v), Ok(w)) => v == w,
        (Err(e), Err(f)) => e.fails_with(f),
        _ => false,
    }
}

impl RigError {
    /// This error is the one the failure describes.
    pub open spec fn fails_with(&self, f: Failure) -> bool {
        match f {
            Failure::ResponseData(d) => self.is_invalid_response_data(d),
            Failure::ResponseLength(x, g) => self.is_invalid_response_length(x, g),
            Failure::ResponseCommandId(x) => self.is_invalid_response_command_id(x),
            Failure::ResponseTerminator(x) => self.is_invalid_response_terminator(x),
            Failure::Boolean(b) => self.is_parse_boolean(b),
            Failure::Sign(b) => self.is_parse_sign(b),
            Failure::Enum(t, v) => self.is_parse_enum(t, v),
            Failure::ArgumentValue(a, t, v) => self.is_invalid_argument_value(a, t, v),
        }
    }

    pub open spec fn is_invalid_response_data(&self, data: Seq<u8>) -> bool {
        self matches RigError::InvalidResponseData { data: d } && d@ == data
    }

    pub open spec fn is_invalid_response_length(&self, expecting: Ranges, given: usize) -> bool {
        self matches RigError::InvalidResponseLength { expecting: x, given: g } && x == expecting
            && g == given
    }

    pub open spec fn is_invalid_response_command_id(&self, expecting: Seq<u8>) -> bool {
        self matches RigError::InvalidResponseCommandId { expecting: x } && x@ == expecting
    }

    pub open spec fn is_invalid_response_terminator(&self, expecting: Seq<u8>) -> bool {
        self matches RigError::InvalidResponseTerminator { expecting: x } && x@ == expecting
    }

    pub open spec fn is_invalid_argument_value(
        &self,
        argument_name: Seq<char>,
        value_type: Seq<char>,
        value: Seq<char>,
    ) -> bool {
        self matches RigError::InvalidArgumentValue { argument_name: a, value_type: t, value: v }
            && a@ == argument_name && t@ == value_type && v@ == value
    }

    pub open spec fn is_parse_enum(&self, value_type: Seq<char>, value: Seq<char>) -> bool {
        self matches RigError::ParseEnum { value_type: t, value: v } && t@ == value_type && v@
            == value
    }

    pub open spec fn is_parse_sign(&self, value: u8) -> bool {
        self matches RigError::ParseSign { value: v } && v == value
    }

    pub open spec fn is_parse_boolean(&self, value: u8) -> bool {
        self matches RigError::ParseBoolean { value: v } && v == value
    }
}

/// An error for a function the target rig does not support.
pub fn unsupported_function(function_name: String, rig_name: String) -> (e: RigError)
    ensures
        e matches RigError::UnsupportedFunction { function_name: f, rig_name: r } && f@
            == function_name@ && r@ == rig_name@,
{
    RigError::UnsupportedFunction { function_name, rig_name }
}

/// An error for an argument of the wrong length.
pub fn invalid_argument_length(argument_name: &'static str, expecting: Ranges, given: usize) -> (e:
    RigError)
    ensures
        e matches RigError::InvalidArgumentLength { argument_name: a, expecting: x, given: g }
            && a@ == argument_name@ && x == expecting && g == given,
{
    RigError::InvalidArgumentLength { argument_name, expecting, given }
}

/// An error for an argument with an invalid value; `value` is its displayed form.
pub fn invalid_argument_value(
    argument_name: &'static str,
    value_type: &'static str,
    value: String,
) -> (e: RigError)
    ensures
        e.is_invalid_argument_value(argument_name@, value_type@, value@),
{
    RigError::InvalidArgumentValue { argument_name, value_type, value }
}

/// An error for a response of the wrong length.
pub fn invalid_response_length(expecting: Ranges, given: usize) -> (e: RigError)
    ensures
        e.is_invalid_response_length(expecting, given),
{
    RigError::InvalidResponseLength { expecting, given }
}

/// An error for response data that could not be parsed.
pub fn invalid_response_data(data: &[u8]) -> (e: RigError)
    ensures
        e.is_invalid_response_data(data@),
{
    RigError::InvalidResponseData { data: vstd::slice::slice_to_vec(data) }
}

/// An error for a response that does not start with the expected command identifier.
pub fn invalid_response_command_id(expecting: &[u8]) -> (e: RigError)
    ensures
        e.is_invalid_response_command_id(expecting@),
{
    RigError::InvalidResponseCommandId { expecting: vstd::slice::slice_to_vec(expecting) }
}

/// An error for a response that does not end with the expected terminator.
pub fn invalid_response_terminator(expecting: &[u8]) -> (e: RigError)
    ensures
        e.is_invalid_response_terminator(expecting@),
{
    RigError::InvalidResponseTerminator { expecting: vstd::slice::slice_to_vec(expecting) }
}

/// An error for a value that is not a known variant of the named enum type; `value` is its
/// displayed form.
pub fn enum_parse(value: String, value_type: &'static str) -> (e: RigError)
    ensures
        e.is_parse_enum(value_type@, value@),
{
    RigError::ParseEnum { value_type, value }
}

/// An error for a byte that is not a BCD digit.
pub fn invalid_bcd_digit(byte: u8) -> (e: RigError)
    ensures
        e matches RigError::InvalidBcdDigit { byte: b } && b == byte,
{
    RigError::InvalidBcdDigit { byte }
}

} // verus!
