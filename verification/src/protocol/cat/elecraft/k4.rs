//! CAT commands specific to or extended on the Elecraft K4 transceiver.
//!
//! Commands follow the K4 Programmer's Reference, rev. D11.

use vstd::prelude::*;

use crate::protocol::cat::digits::pow10;

use crate::protocol::cat::lemma_framed_value_reads_back;

use crate::error::{
    Failure, RigError, agrees, invalid_argument_value, invalid_response_data,
    invalid_response_length,
};
use crate::error::ranges::Ranges;
use crate::protocol::cat::{encode_uint_in_range, frame, frame_command, int_args, uint_args};
use crate::protocol::cat::common::{
    ASCII_DIGIT_ONE, ASCII_DIGIT_ZERO, ASCII_SIGN_NEGATIVE, ASCII_SIGN_POSITIVE,
    bool_from_ascii_1_0, bytes_to_vec, decimal_string, format_int_ascii, format_uint_ascii,
    int_to_string, response_value, sign_from_ascii_strict, spec_bool_1_0, spec_sign_strict,
    spec_u16_field, spec_u32_field, spec_u8_field, spec_validate_response, u16_from_ascii,
    u32_from_ascii, u8_from_ascii, validate_integer_in_range, validate_response,
};
use crate::protocol::cat::digits::{
    all_digits, digits_value,
    leading_value, lemma_leading_value_bound, lemma_num_digits_le, lemma_padded_decimal_value,
    lemma_pow10_values, padded_decimal,
};

verus! {

// ------------------------------------------------------------------------------------------------
// K4 command mode: `K4`
// ------------------------------------------------------------------------------------------------

/// `K4`
pub open spec fn k4_command_mode_id() -> Seq<u8> {
    seq![0x4B, 0x34]
}

fn k4_command_mode_id_bytes() -> (r: &'static [u8])
    ensures
        r@ == k4_command_mode_id(),
{
    &[0x4B, 0x34]
}

/// The K4 meta-command mode: normal (`K40`, K3-compatible) or advanced (`K41`).
#[derive(Clone, Copy, Debug, PartialEq, Eq)]
pub struct K4CommandMode {
    /// `true` for the advanced response format.
    pub advanced: bool,
}

impl K4CommandMode {
    /// The advanced mode, `K41`.
    pub fn to_advanced() -> (r: K4CommandMode)
        ensures
            r.advanced,
    {
        K4CommandMode { advanced: true }
    }

    /// The normal mode, `K40`.
    pub fn to_normal() -> (r: K4CommandMode)
        ensures
            !r.advanced,
    {
        K4CommandMode { advanced: false }
    }

    /// What `try_from` gives for a response value: `1` is advanced, any other byte normal.
    pub open spec fn spec_try_from(value: Seq<u8>) -> Result<K4CommandMode, Failure> {
        if value.len() != 1 {
            Err(Failure::ResponseLength(Ranges::Just(1), value.len() as usize))
        } else {
            Ok(K4CommandMode { advanced: value[0] == ASCII_DIGIT_ONE })
        }
    }

    /// Reads the one-byte response value.
    pub fn try_from(value: &[u8]) -> (r: Result<K4CommandMode, RigError>)
        ensures
            agrees(r, Self::spec_try_from(value@)),
    {
        if value.len() != 1 {
            Err(invalid_response_length(Ranges::Just(1), value.len()))
        } else {
            Ok(K4CommandMode { advanced: value[0] == ASCII_DIGIT_ONE })
        }
    }

    /// The displayed name of the mode.
    pub fn display_name(&self) -> (s: &'static str)
        ensures
            s@ == (if self.advanced {
                "K4 Advanced Mode"@
            } else {
                "K4 Normal Mode"@
            }),
    {
        if self.advanced {
            "K4 Advanced Mode"
        } else {
            "K4 Normal Mode"
        }
    }
}

/// Get the K4 meta-command mode: `K4;`, answered by `K4{n};`.
#[derive(Clone, Copy, Debug, PartialEq, Eq)]
pub struct GetK4CommandMode;

impl GetK4CommandMode {
    pub fn to_bytes(&self) -> (r: Vec<u8>)
        ensures
            r@ == frame(k4_command_mode_id(), seq![]),
    {
        let none: [u8; 0] = [];
        frame_command(k4_command_mode_id_bytes(), &none)
    }

    /// What `parse` gives for a response.
    pub open spec fn spec_parse_response(bytes: Seq<u8>) -> Result<K4CommandMode, Failure> {
        match spec_validate_response(bytes, k4_command_mode_id(), 1) {
            Ok(v) => K4CommandMode::spec_try_from(v),
            Err(f) => Err(f),
        }
    }

    pub fn parse(&self, bytes: &[u8]) -> (r: Result<K4CommandMode, RigError>)
        ensures
            agrees(r, Self::spec_parse_response(bytes@)),
    {
        match validate_response(bytes, k4_command_mode_id_bytes(), 1) {
            Ok(d) => K4CommandMode::try_from(d),
            Err(e) => Err(e),
        }
    }
}

/// Set the K4 meta-command mode: `K4{n};`.
#[derive(Clone, Copy, Debug, PartialEq, Eq)]
pub struct SetK4CommandMode {
    pub mode: K4CommandMode,
}

impl SetK4CommandMode {
    /// Switch to the advanced response format.
    pub fn to_advanced() -> (r: SetK4CommandMode)
        ensures
            r.mode.advanced,
    {
        SetK4CommandMode { mode: K4CommandMode::to_advanced() }
    }

    /// Switch to the normal response format.
    pub fn to_normal() -> (r: SetK4CommandMode)
        ensures
            !r.mode.advanced,
    {
        SetK4CommandMode { mode: K4CommandMode::to_normal() }
    }

    pub open spec fn spec_args(self) -> Seq<u8> {
        seq![if self.mode.advanced { ASCII_DIGIT_ONE } else { ASCII_DIGIT_ZERO }]
    }

    pub fn to_bytes(&self) -> (r: Vec<u8>)
        ensures
            r@ == frame(k4_command_mode_id(), self.spec_args()),
    {
        let args: [u8; 1] = [if self.mode.advanced { ASCII_DIGIT_ONE } else { ASCII_DIGIT_ZERO }];
        assert(args@ =~= self.spec_args());
        frame_command(k4_command_mode_id_bytes(), &args)
    }
}

/// The K4 command modes on the wire: `1` advanced and `0` normal, read and sent alike.
pub proof fn lemma_k4_command_mode_digits(mode: K4CommandMode)
    ensures
        K4CommandMode::spec_try_from(seq![0x31u8]) == Ok::<K4CommandMode, Failure>(
            (K4CommandMode { advanced: true }),
        ),
        K4CommandMode::spec_try_from(seq![0x30u8]) == Ok::<K4CommandMode, Failure>(
            (K4CommandMode { advanced: false }),
        ),
        mode.advanced ==> (SetK4CommandMode { mode }).spec_args() == seq![0x31u8],
        !mode.advanced ==> (SetK4CommandMode { mode }).spec_args() == seq![0x30u8],
{
}

/// Setting the K4 command mode and reading it back agree: the reply that echoes a `Set` command
/// reads as the mode that was set.
pub proof fn lemma_k4_command_mode_round_trip(mode: K4CommandMode)
    ensures
        GetK4CommandMode::spec_parse_response(
            frame(k4_command_mode_id(), SetK4CommandMode { mode }.spec_args()),
        ) == Ok::<K4CommandMode, Failure>(mode),
{
    let bytes = frame(k4_command_mode_id(), SetK4CommandMode { mode }.spec_args());
    assert(bytes.take(2) =~= k4_command_mode_id());
    assert(response_value(bytes, k4_command_mode_id()) =~= SetK4CommandMode { mode }.spec_args());
}

// ------------------------------------------------------------------------------------------------
// VFO copy and swap: `AB`
// ------------------------------------------------------------------------------------------------

/// `AB`
pub open spec fn vfo_copy_swap_id() -> Seq<u8> {
    seq![0x41, 0x42]
}

fn vfo_copy_swap_id_bytes() -> (r: &'static [u8])
    ensures
        r@ == vfo_copy_swap_id(),
{
    &[0x41, 0x42]
}

/// Copy VFO A to VFO B: `AB0;`.
#[derive(Clone, Copy, Debug, PartialEq, Eq)]
pub struct CopyVfoAtoVfoB;

impl CopyVfoAtoVfoB {
    pub fn to_bytes(&self) -> (r: Vec<u8>)
        ensures
            r@ == frame(vfo_copy_swap_id(), seq![ASCII_DIGIT_ZERO]),
    {
        let args: [u8; 1] = [ASCII_DIGIT_ZERO];
        assert(args@ =~= seq![ASCII_DIGIT_ZERO]);
        frame_command(vfo_copy_swap_id_bytes(), &args)
    }
}

/// Swap VFO A and VFO B: `AB1;`.
#[derive(Clone, Copy, Debug, PartialEq, Eq)]
pub struct SwapVfoAandVfoB;

impl SwapVfoAandVfoB {
    pub fn to_bytes(&self) -> (r: Vec<u8>)
        ensures
            r@ == frame(vfo_copy_swap_id(), seq![ASCII_DIGIT_ONE]),
    {
        let args: [u8; 1] = [ASCII_DIGIT_ONE];
        assert(args@ =~= seq![ASCII_DIGIT_ONE]);
        frame_command(vfo_copy_swap_id_bytes(), &args)
    }
}

// ------------------------------------------------------------------------------------------------
// Digital output pin 1: `DO`
// ------------------------------------------------------------------------------------------------

/// `DO`
pub open spec fn digital_output_pin_1_id() -> Seq<u8> {
    seq![0x44, 0x4F]
}

fn digital_output_pin_1_id_bytes() -> (r: &'static [u8])
    ensures
        r@ == digital_output_pin_1_id(),
{
    &[0x44, 0x4F]
}

/// A digital signal pin state.
#[derive(Clone, Copy, Debug, PartialEq, Eq, Hash)]
pub enum DigitalPinState {
    /// Low, usually 0 V; `0` on the wire.
    Low,
    /// High, at the board's logic level; `1` on the wire.
    High,
}

impl DigitalPinState {
    pub open spec fn spec_byte(self) -> u8 {
        match self {
            DigitalPinState::Low => 0x30,
            DigitalPinState::High => 0x31,
        }
    }

    /// The variant that a wire byte stands for.
    pub open spec fn spec_from_byte(b: u8) -> Option<DigitalPinState> {
        if b == 0x30 {
            Some(DigitalPinState::Low)
        } else if b == 0x31 {
            Some(DigitalPinState::High)
        } else {
            None
        }
    }

    /// The wire byte.
    pub fn as_byte(&self) -> (b: u8)
        ensures
            b == self.spec_byte(),
    {
        match self {
            DigitalPinState::Low => 0x30,
            DigitalPinState::High => 0x31,
        }
    }

    /// The variant that a wire byte stands for.
    pub fn from_repr(b: u8) -> (r: Option<DigitalPinState>)
        ensures
            r == Self::spec_from_byte(b),
            r matches Some(v) ==> v.spec_byte() == b,
    {
        if b == 0x30 {
            Some(DigitalPinState::Low)
        } else if b == 0x31 {
            Some(DigitalPinState::High)
        } else {
            None
        }
    }
}

/// The wire bytes of `DigitalPinState`: Low `0`, High `1`; no other byte stands for a variant.
pub proof fn lemma_digital_pin_state_wire_bytes()
    ensures
        DigitalPinState::Low.spec_byte() == 0x30,
        DigitalPinState::High.spec_byte() == 0x31,
        DigitalPinState::spec_from_byte(0x30) == Some(DigitalPinState::Low),
        DigitalPinState::spec_from_byte(0x31) == Some(DigitalPinState::High),
        forall|b: u8| #[trigger] DigitalPinState::spec_from_byte(b) is Some ==> (b == 0x30 || b == 0x31),
{
}

/// Reading back the wire byte of any `DigitalPinState` gives the same value.
pub proof fn lemma_digital_pin_state_byte_round_trip(v: DigitalPinState)
    ensures
        DigitalPinState::spec_from_byte(v.spec_byte()) == Some(v),
{
}

impl DigitalPinState {
    /// The high state.
    pub fn set_high() -> (r: DigitalPinState)
        ensures
            r == DigitalPinState::High,
    {
        DigitalPinState::High
    }

    /// The low state.
    pub fn set_low() -> (r: DigitalPinState)
        ensures
            r == DigitalPinState::Low,
    {
        DigitalPinState::Low
    }
}

/// Get the DIGOUT1 state: `DO;`, answered by `DO{n};`.
#[derive(Clone, Copy, Debug, PartialEq, Eq)]
pub struct GetDigitalOutputPin1State;

impl GetDigitalOutputPin1State {
    pub fn to_bytes(&self) -> (r: Vec<u8>)
        ensures
            r@ == frame(digital_output_pin_1_id(), seq![]),
    {
        let none: [u8; 0] = [];
        frame_command(digital_output_pin_1_id_bytes(), &none)
    }

    /// What `parse` gives for a response: the state of its one value byte, or
    /// `InvalidResponseData` holding the value.
    pub open spec fn spec_parse_response(bytes: Seq<u8>) -> Result<DigitalPinState, Failure> {
        match spec_validate_response(bytes, digital_output_pin_1_id(), 1) {
            Ok(v) => match DigitalPinState::spec_from_byte(v[0]) {
                Some(s) => Ok(s),
                None => Err(Failure::ResponseData(v)),
            },
            Err(f) => Err(f),
        }
    }

    pub fn parse(&self, bytes: &[u8]) -> (r: Result<DigitalPinState, RigError>)
        ensures
            agrees(r, Self::spec_parse_response(bytes@)),
    {
        match validate_response(bytes, digital_output_pin_1_id_bytes(), 1) {
            Ok(d) => match DigitalPinState::from_repr(d[0]) {
                Some(s) => Ok(s),
                None => Err(invalid_response_data(d)),
            },
            Err(e) => Err(e),
        }
    }
}

/// A `GetDigitalOutputPin1State` reply reads as the `DigitalPinState` whose wire byte is its value byte; a byte that names no
/// variant is an `InvalidResponseData` error holding the value.
pub proof fn lemma_get_digital_output_pin1_state_reply(v: Seq<u8>)
    requires
        v.len() == 1,
    ensures
        GetDigitalOutputPin1State::spec_parse_response(frame(digital_output_pin_1_id(), v)) matches Ok(m) ==> m.spec_byte() == v[0],
        DigitalPinState::spec_from_byte(v[0]) is Some ==> GetDigitalOutputPin1State::spec_parse_response(frame(digital_output_pin_1_id(), v)) is Ok,
        DigitalPinState::spec_from_byte(v[0]) is None ==> GetDigitalOutputPin1State::spec_parse_response(frame(digital_output_pin_1_id(), v)) == Err::<DigitalPinState, Failure>(Failure::ResponseData(v)),
{
    lemma_framed_value_reads_back(digital_output_pin_1_id(), v);
}

/// Set the DIGOUT1 state: `DO{n};`.
#[derive(Clone, Copy, Debug, PartialEq, Eq)]
pub struct SetDigitalOutputPin1State {
    pub state: DigitalPinState,
}

impl SetDigitalOutputPin1State {
    pub open spec fn spec_args(self) -> Seq<u8> {
        seq![self.state.spec_byte()]
    }

    pub fn to_bytes(&self) -> (r: Vec<u8>)
        ensures
            r@ == frame(digital_output_pin_1_id(), self.spec_args()),
    {
        let args: [u8; 1] = [self.state.as_byte()];
        assert(args@ =~= self.spec_args());
        frame_command(digital_output_pin_1_id_bytes(), &args)
    }
}

/// `SetDigitalOutputPin1State` sends exactly one byte, the wire byte of `state`.
pub proof fn lemma_set_digital_output_pin1_state_argument(s: SetDigitalOutputPin1State)
    ensures
        s.spec_args().len() == 1,
        s.spec_args()[0] == s.state.spec_byte(),
{
}

/// The reply that echoes a `Set` DIGOUT1 command reads as the state that was set.
pub proof fn lemma_digital_output_pin_1_round_trip(state: DigitalPinState)
    ensures
        GetDigitalOutputPin1State::spec_parse_response(
            frame(digital_output_pin_1_id(), SetDigitalOutputPin1State { state }.spec_args()),
        ) == Ok::<DigitalPinState, Failure>(state),
{
    let bytes = frame(digital_output_pin_1_id(), SetDigitalOutputPin1State { state }.spec_args());
    assert(bytes.take(2) =~= digital_output_pin_1_id());
    assert(response_value(bytes, digital_output_pin_1_id()) =~= SetDigitalOutputPin1State { state }.spec_args());
}

// ------------------------------------------------------------------------------------------------
// Mode alternates: `MA`, `MA$`
// ------------------------------------------------------------------------------------------------

/// `MA`
pub open spec fn vfo_a_mode_alternates_id() -> Seq<u8> {
    seq![0x4D, 0x41]
}

fn vfo_a_mode_alternates_id_bytes() -> (r: &'static [u8])
    ensures
        r@ == vfo_a_mode_alternates_id(),
{
    &[0x4D, 0x41]
}

/// `MA$`
pub open spec fn vfo_b_mode_alternates_id() -> Seq<u8> {
    seq![0x4D, 0x41, 0x24]
}

fn vfo_b_mode_alternates_id_bytes() -> (r: &'static [u8])
    ensures
        r@ == vfo_b_mode_alternates_id(),
{
    &[0x4D, 0x41, 0x24]
}

/// Get the VFO A mode alternates: `MA;`, answered with no value bytes.
#[derive(Clone, Copy, Debug, PartialEq, Eq)]
pub struct GetVfoAModeAlternates;

impl GetVfoAModeAlternates {
    pub fn to_bytes(&self) -> (r: Vec<u8>)
        ensures
            r@ == frame(vfo_a_mode_alternates_id(), seq![]),
    {
        let none: [u8; 0] = [];
        frame_command(vfo_a_mode_alternates_id_bytes(), &none)
    }

    /// The number of value bytes in a reply.
    pub fn expected_response_length(&self) -> (n: usize)
        ensures
            n == 0,
    {
        0
    }

    /// Checks the framing of the reply and returns its (empty) value.
    pub fn parse(&self, bytes: &[u8]) -> (r: Result<Vec<u8>, RigError>)
        ensures
            match spec_validate_response(bytes@, vfo_a_mode_alternates_id(), 0) {
                Ok(v) => r matches Ok(d) && d@ == v,
                Err(f) => r matches Err(e) && e.fails_with(f),
            },
    {
        match validate_response(bytes, vfo_a_mode_alternates_id_bytes(), 0) {
            Ok(d) => bytes_to_vec(d),
            Err(e) => Err(e),
        }
    }
}

/// Get the VFO B mode alternates: `MA$;`, answered with no value bytes.
#[derive(Clone, Copy, Debug, PartialEq, Eq)]
pub struct GetVfoBModeAlternates;

impl GetVfoBModeAlternates {
    pub fn to_bytes(&self) -> (r: Vec<u8>)
        ensures
            r@ == frame(vfo_b_mode_alternates_id(), seq![]),
    {
        let none: [u8; 0] = [];
        frame_command(vfo_b_mode_alternates_id_bytes(), &none)
    }

    /// The number of value bytes in a reply.
    pub fn expected_response_length(&self) -> (n: usize)
        ensures
            n == 0,
    {
        0
    }

    /// Checks the framing of the reply and returns its (empty) value.
    pub fn parse(&self, bytes: &[u8]) -> (r: Result<Vec<u8>, RigError>)
        ensures
            match spec_validate_response(bytes@, vfo_b_mode_alternates_id(), 0) {
                Ok(v) => r matches Ok(d) && d@ == v,
                Err(f) => r matches Err(e) && e.fails_with(f),
            },
    {
        match validate_response(bytes, vfo_b_mode_alternates_id_bytes(), 0) {
            Ok(d) => bytes_to_vec(d),
            Err(e) => Err(e),
        }
    }
}

// ------------------------------------------------------------------------------------------------
// Signed offsets and argument formats
// ------------------------------------------------------------------------------------------------

/// What `parse_signed_hz_4` gives: a strict sign byte then four digits.
pub open spec fn spec_signed_hz_4(bytes: Seq<u8>) -> Result<i16, Failure> {
    match spec_sign_strict(bytes[0]) {
        None => Err(Failure::Sign(bytes[0])),
        Some(s) => match spec_u16_field(bytes.subrange(1, 5)) {
            Err(f) => Err(f),
            Ok(m) => if m <= i16::MAX {
                Ok((s * m) as i16)
            } else {
                Err(Failure::ResponseData(bytes))
            },
        },
    }
}

/// A sign byte and four digits read as the signed number of hertz they spell: `+` positive, `-`
/// negative; any other sign byte is a `ParseSign` error.
pub proof fn lemma_signed_hz_4_value(bytes: Seq<u8>)
    requires
        bytes.len() >= 5,
        all_digits(bytes.subrange(1, 5)),
    ensures
        bytes[0] == 0x2B ==> spec_signed_hz_4(bytes) == Ok::<i16, Failure>(
            digits_value(bytes.subrange(1, 5)) as i16,
        ),
        bytes[0] == 0x2D ==> spec_signed_hz_4(bytes) == Ok::<i16, Failure>(
            (-digits_value(bytes.subrange(1, 5))) as i16,
        ),
        bytes[0] != 0x2B && bytes[0] != 0x2D ==> spec_signed_hz_4(bytes) == Err::<i16, Failure>(
            Failure::Sign(bytes[0]),
        ),
{
    crate::protocol::cat::digits::lemma_digits_value_bound(bytes.subrange(1, 5));
    lemma_pow10_values();
    let m = digits_value(bytes.subrange(1, 5));
    assert(spec_u16_field(bytes.subrange(1, 5)) == Ok::<u16, Failure>(m as u16));
    assert(1int * (m as u16) == m);
    assert(-1int * (m as u16) == -m);
}

/// Reads a sign byte (`+` or `-`) followed by four digits as a signed offset in hertz; bytes past
/// the fifth are not read.
pub fn parse_signed_hz_4(bytes: &[u8]) -> (r: Result<i16, RigError>)
    requires
        bytes.len() >= 5,
    ensures
        agrees(r, spec_signed_hz_4(bytes@)),
        r matches Ok(v) ==> -9999 <= v <= 9999,
{
    let sign = match sign_from_ascii_strict(bytes[0]) {
        Ok(s) => s,
        Err(e) => return Err(e),
    };
    let digits = &bytes[1..5];
    proof {
        lemma_leading_value_bound(digits@);
        lemma_pow10_values();
    }
    let magnitude = match u16_from_ascii(digits) {
        Ok(m) => m,
        Err(e) => return Err(e),
    };
    proof {
        crate::protocol::cat::digits::lemma_digits_value_bound(digits@);
    }
    if magnitude > 32767 {
        return Err(invalid_response_data(bytes));
    }
    let m = magnitude as i16;
    if sign < 0 {
        Ok(-m)
    } else {
        Ok(m)
    }
}

/// `n` as four zero-padded ASCII digits (more when it is larger).
fn format_u16_ascii_4(n: u16) -> (r: Vec<u8>)
    ensures
        r@ == padded_decimal(n as nat, 4),
{
    format_uint_ascii(n as u64, 4)
}

/// `n` as six zero-padded ASCII digits (more when it is larger).
fn format_u32_ascii_6(n: u32) -> (r: Vec<u8>)
    ensures
        r@ == padded_decimal(n as nat, 6),
{
    format_uint_ascii(n as u64, 6)
}

/// The error for a value out of its documented range.
fn out_of_range(argument_name: &'static str, value_type: &'static str, value: i64) -> (e: RigError)
    ensures
        e.is_invalid_argument_value(argument_name@, value_type@, decimal_string(value as int)),
{
    invalid_argument_value(argument_name, value_type, int_to_string(value))
}

/// Checks a manual notch offset: the wire format holds four digits of magnitude.
fn validate_k4_manual_notch_offset(offset_hz: i16) -> (r: Result<(), RigError>)
    ensures
        r is Ok <==> -9999 <= offset_hz <= 9999,
        r matches Err(e) ==> e.fails_with(
            Failure::ArgumentValue("offset_hz"@, "i16"@, decimal_string(offset_hz as int)),
        ),
{
    if -9999 <= offset_hz && offset_hz <= 9999 {
        Ok(())
    } else {
        Err(out_of_range("offset_hz", "i16", offset_hz as i64))
    }
}

/// Checks a noise reduction level: `0` to `9`.
fn validate_k4_noise_reduction_level(level: u8) -> (r: Result<(), RigError>)
    ensures
        r is Ok <==> level <= 9,
        r matches Err(e) ==> e.fails_with(
            Failure::ArgumentValue("level"@, "u8"@, decimal_string(level as int)),
        ),
{
    if level <= 9 {
        Ok(())
    } else {
        Err(out_of_range("level", "u8", level as i64))
    }
}

/// Checks a CTCSS tone code: `0` to `38`.
fn validate_k4_pl_tone_code(tone_code: u8) -> (r: Result<(), RigError>)
    ensures
        r is Ok <==> tone_code <= 38,
        r matches Err(e) ==> e.fails_with(
            Failure::ArgumentValue("tone_code"@, "u8"@, decimal_string(tone_code as int)),
        ),
{
    if tone_code <= 38 {
        Ok(())
    } else {
        Err(out_of_range("tone_code", "u8", tone_code as i64))
    }
}

/// Checks a VFO tuning step: the wire format holds six digits.
fn validate_k4_vfo_tuning_step(step_hz: u32) -> (r: Result<(), RigError>)
    ensures
        r is Ok <==> step_hz <= 999_999,
        r matches Err(e) ==> e.fails_with(
            Failure::ArgumentValue("step_hz"@, "u32"@, decimal_string(step_hz as int)),
        ),
{
    if step_hz <= 999_999 {
        Ok(())
    } else {
        Err(out_of_range("step_hz", "u32", step_hz as i64))
    }
}

/// Checks a transverter band slot: `0` to `8`.
fn validate_k4_transverter_band_slot(band_slot: u8) -> (r: Result<(), RigError>)
    ensures
        r is Ok <==> band_slot <= 8,
        r matches Err(e) ==> e.fails_with(
            Failure::ArgumentValue("band_slot"@, "u8"@, decimal_string(band_slot as int)),
        ),
{
    if band_slot <= 8 {
        Ok(())
    } else {
        Err(out_of_range("band_slot", "u8", band_slot as i64))
    }
}

// ------------------------------------------------------------------------------------------------
// Manual notch: `NM`, `NM$`
// ------------------------------------------------------------------------------------------------

/// `NM`
pub open spec fn vfo_a_manual_notch_id() -> Seq<u8> {
    seq![0x4E, 0x4D]
}

fn vfo_a_manual_notch_id_bytes() -> (r: &'static [u8])
    ensures
        r@ == vfo_a_manual_notch_id(),
{
    &[0x4E, 0x4D]
}

/// `NM$`
pub open spec fn vfo_b_manual_notch_id() -> Seq<u8> {
    seq![0x4E, 0x4D, 0x24]
}

fn vfo_b_manual_notch_id_bytes() -> (r: &'static [u8])
    ensures
        r@ == vfo_b_manual_notch_id(),
{
    &[0x4E, 0x4D, 0x24]
}

/// The manual notch state and offset from the passband center.
#[derive(Clone, Copy, Debug, PartialEq, Eq)]
pub struct ManualNotch {
    /// `true` when the manual notch is active.
    pub state: bool,
    /// The notch offset in hertz.
    pub offset_hz: i16,
}

/// What a manual notch reply gives: the state byte, an ignored step digit, and the signed
/// offset.
pub open spec fn spec_manual_notch(v: Seq<u8>) -> Result<ManualNotch, Failure> {
    match spec_signed_hz_4(v.subrange(2, 7)) {
        Ok(offset_hz) => Ok(ManualNotch { state: v[0] == ASCII_DIGIT_ONE, offset_hz }),
        Err(f) => Err(f),
    }
}

/// A manual notch value reads its state from byte 0 (`1` on) and its signed offset from bytes 2
/// to 6.
pub proof fn lemma_manual_notch_positions(v: Seq<u8>)
    requires
        v.len() >= 7,
    ensures
        spec_manual_notch(v) matches Ok(n) ==> n.state == (v[0] == 0x31) && spec_signed_hz_4(
            v.subrange(2, 7),
        ) == Ok::<i16, Failure>(n.offset_hz),
        spec_signed_hz_4(v.subrange(2, 7)) is Ok ==> spec_manual_notch(v) is Ok,
{
}

/// The argument of a manual notch setting: the state, a `0` step digit, the sign and four digits.
pub open spec fn manual_notch_args(state: bool, offset_hz: i16) -> Seq<u8> {
    seq![if state { ASCII_DIGIT_ONE } else { ASCII_DIGIT_ZERO }, ASCII_DIGIT_ZERO] + int_args(offset_hz, 4)
}

/// Builds the argument bytes of a manual notch setting.
fn manual_k4_notch_argument_bytes(state: bool, offset_hz: i16) -> (r: Vec<u8>)
    requires
        offset_hz != i16::MIN,
    ensures
        r@ == manual_notch_args(state, offset_hz),
{
    let mut v: Vec<u8> = Vec::new();
    v.push(if state { ASCII_DIGIT_ONE } else { ASCII_DIGIT_ZERO });
    v.push(ASCII_DIGIT_ZERO);
    let mut digits = format_int_ascii(offset_hz, 4);
    v.append(&mut digits);
    assert(v@ =~= manual_notch_args(state, offset_hz));
    v
}

/// Get the VFO A manual notch: `NM;`, answered by `NM{n}{s}{±nnnn};`.
#[derive(Clone, Copy, Debug, PartialEq, Eq)]
pub struct GetVfoAManualNotchSettings;

impl GetVfoAManualNotchSettings {
    pub fn to_bytes(&self) -> (r: Vec<u8>)
        ensures
            r@ == frame(vfo_a_manual_notch_id(), seq![]),
    {
        let none: [u8; 0] = [];
        frame_command(vfo_a_manual_notch_id_bytes(), &none)
    }

    /// The number of value bytes in a reply.
    pub fn expected_response_length(&self) -> (n: usize)
        ensures
            n == 7,
    {
        7
    }

    pub open spec fn spec_parse_response(bytes: Seq<u8>) -> Result<ManualNotch, Failure> {
        match spec_validate_response(bytes, vfo_a_manual_notch_id(), 7) {
            Ok(v) => spec_manual_notch(v),
            Err(f) => Err(f),
        }
    }

    pub fn parse(&self, bytes: &[u8]) -> (r: Result<ManualNotch, RigError>)
        ensures
            agrees(r, Self::spec_parse_response(bytes@)),
    {
        let d = match validate_response(bytes, vfo_a_manual_notch_id_bytes(), self.expected_response_length()) {
            Ok(d) => d,
            Err(e) => return Err(e),
        };
        let offset_hz = match parse_signed_hz_4(&d[2..7]) {
            Ok(o) => o,
            Err(e) => return Err(e),
        };
        Ok(ManualNotch { state: d[0] == ASCII_DIGIT_ONE, offset_hz })
    }
}

/// Set the VFO A manual notch: `NM{n}0{±nnnn};`, with the offset between -9999 and 9999.
#[derive(Clone, Copy, Debug, PartialEq, Eq)]
pub struct SetVfoAManualNotchSettings {
    pub state: bool,
    pub offset_hz: i16,
}

impl SetVfoAManualNotchSettings {
    /// The command, or `InvalidArgumentValue` for an offset out of range.
    pub fn to_bytes(&self) -> (r: Result<Vec<u8>, RigError>)
        ensures
            -9999 <= self.offset_hz <= 9999 ==> (r matches Ok(b) && b@ == frame(
                vfo_a_manual_notch_id(),
                manual_notch_args(self.state, self.offset_hz),
            )),
            !(-9999 <= self.offset_hz <= 9999) ==> (r matches Err(e) && e.fails_with(
                Failure::ArgumentValue("offset_hz"@, "i16"@, decimal_string(self.offset_hz as int)),
            )),
    {
        match validate_k4_manual_notch_offset(self.offset_hz) {
            Ok(()) => {
                let args = manual_k4_notch_argument_bytes(self.state, self.offset_hz);
                Ok(frame_command(vfo_a_manual_notch_id_bytes(), args.as_slice()))
            },
            Err(e) => Err(e),
        }
    }
}

/// Get the VFO B manual notch: `NM$;`, answered by `NM${n}{s}{±nnnn};`.
#[derive(Clone, Copy, Debug, PartialEq, Eq)]
pub struct GetVfoBManualNotchSettings;

impl GetVfoBManualNotchSettings {
    pub fn to_bytes(&self) -> (r: Vec<u8>)
        ensures
            r@ == frame(vfo_b_manual_notch_id(), seq![]),
    {
        let none: [u8; 0] = [];
        frame_command(vfo_b_manual_notch_id_bytes(), &none)
    }

    /// The number of value bytes in a reply.
    pub fn expected_response_length(&self) -> (n: usize)
        ensures
            n == 7,
    {
        7
    }

    pub open spec fn spec_parse_response(bytes: Seq<u8>) -> Result<ManualNotch, Failure> {
        match spec_validate_response(bytes, vfo_b_manual_notch_id(), 7) {
            Ok(v) => spec_manual_notch(v),
            Err(f) => Err(f),
        }
    }

    pub fn parse(&self, bytes: &[u8]) -> (r: Result<ManualNotch, RigError>)
        ensures
            agrees(r, Self::spec_parse_response(bytes@)),
    {
        let d = match validate_response(bytes, vfo_b_manual_notch_id_bytes(), self.expected_response_length()) {
            Ok(d) => d,
            Err(e) => return Err(e),
        };
        let offset_hz = match parse_signed_hz_4(&d[2..7]) {
            Ok(o) => o,
            Err(e) => return Err(e),
        };
        Ok(ManualNotch { state: d[0] == ASCII_DIGIT_ONE, offset_hz })
    }
}

/// Set the VFO B manual notch: `NM${n}0{±nnnn};`, with the offset between -9999 and 9999.
#[derive(Clone, Copy, Debug, PartialEq, Eq)]
pub struct SetVfoBManualNotchSettings {
    pub state: bool,
    pub offset_hz: i16,
}

impl SetVfoBManualNotchSettings {
    /// The command, or `InvalidArgumentValue` for an offset out of range.
    pub fn to_bytes(&self) -> (r: Result<Vec<u8>, RigError>)
        ensures
            -9999 <= self.offset_hz <= 9999 ==> (r matches Ok(b) && b@ == frame(
                vfo_b_manual_notch_id(),
                manual_notch_args(self.state, self.offset_hz),
            )),
            !(-9999 <= self.offset_hz <= 9999) ==> (r matches Err(e) && e.fails_with(
                Failure::ArgumentValue("offset_hz"@, "i16"@, decimal_string(self.offset_hz as int)),
            )),
    {
        match validate_k4_manual_notch_offset(self.offset_hz) {
            Ok(()) => {
                let args = manual_k4_notch_argument_bytes(self.state, self.offset_hz);
                Ok(frame_command(vfo_b_manual_notch_id_bytes(), args.as_slice()))
            },
            Err(e) => Err(e),
        }
    }
}

/// A manual notch set on VFO A, with an offset in range, reads back unchanged from the echoed
/// reply.
pub proof fn lemma_vfo_a_manual_notch_round_trip(state: bool, offset_hz: i16)
    requires
        -9999 <= offset_hz <= 9999,
    ensures
        GetVfoAManualNotchSettings::spec_parse_response(
            frame(vfo_a_manual_notch_id(), manual_notch_args(state, offset_hz)),
        ) == Ok::<ManualNotch, Failure>(ManualNotch { state, offset_hz }),
{
    lemma_manual_notch_echo(state, offset_hz, vfo_a_manual_notch_id());
}

/// A manual notch set on VFO B, with an offset in range, reads back unchanged from the echoed
/// reply.
pub proof fn lemma_vfo_b_manual_notch_round_trip(state: bool, offset_hz: i16)
    requires
        -9999 <= offset_hz <= 9999,
    ensures
        GetVfoBManualNotchSettings::spec_parse_response(
            frame(vfo_b_manual_notch_id(), manual_notch_args(state, offset_hz)),
        ) == Ok::<ManualNotch, Failure>(ManualNotch { state, offset_hz }),
{
    lemma_manual_notch_echo(state, offset_hz, vfo_b_manual_notch_id());
}

proof fn lemma_manual_notch_echo(state: bool, offset_hz: i16, id: Seq<u8>)
    requires
        -9999 <= offset_hz <= 9999,
    ensures
        spec_validate_response(frame(id, manual_notch_args(state, offset_hz)), id, 7) matches Ok(v)
            && spec_manual_notch(v) == Ok::<ManualNotch, Failure>(ManualNotch { state, offset_hz }),
{
    let m: nat = (if offset_hz < 0 { -offset_hz } else { offset_hz as int }) as nat;
    lemma_padded_decimal_value(m, 4);
    lemma_pow10_values();
    lemma_num_digits_le(m, 4);
    let args = manual_notch_args(state, offset_hz);
    let bytes = frame(id, args);
    assert(bytes.take(id.len() as int) =~= id);
    assert(response_value(bytes, id) =~= args);
    let v = response_value(bytes, id);
    let w = v.subrange(2, 7);
    assert(w.subrange(1, 5) =~= padded_decimal(m, 4));
    assert(w[0] == (if offset_hz < 0 { ASCII_SIGN_NEGATIVE } else { ASCII_SIGN_POSITIVE }));
    assert(spec_u16_field(w.subrange(1, 5)) == Ok::<u16, Failure>(m as u16));
    if offset_hz < 0 {
        assert(spec_sign_strict(w[0]) == Some(-1int));
        assert(-1 * (m as int) == offset_hz);
    } else {
        assert(spec_sign_strict(w[0]) == Some(1int));
        assert(1 * (m as int) == offset_hz);
    }
}

// ------------------------------------------------------------------------------------------------
// Noise reduction: `NR`, `NR$`
// ------------------------------------------------------------------------------------------------

/// `NR`
pub open spec fn vfo_a_noise_reduction_id() -> Seq<u8> {
    seq![0x4E, 0x52]
}

fn vfo_a_noise_reduction_id_bytes() -> (r: &'static [u8])
    ensures
        r@ == vfo_a_noise_reduction_id(),
{
    &[0x4E, 0x52]
}

/// `NR$`
pub open spec fn vfo_b_noise_reduction_id() -> Seq<u8> {
    seq![0x4E, 0x52, 0x24]
}

fn vfo_b_noise_reduction_id_bytes() -> (r: &'static [u8])
    ensures
        r@ == vfo_b_noise_reduction_id(),
{
    &[0x4E, 0x52, 0x24]
}

/// The noise reduction state and level.
#[derive(Clone, Copy, Debug, PartialEq, Eq)]
pub struct NoiseReduction {
    pub state: bool,
    pub level: u8,
}

/// What a noise reduction reply gives: the state byte and the level digit.
pub open spec fn spec_noise_reduction(v: Seq<u8>) -> NoiseReduction {
    NoiseReduction { state: v[0] == ASCII_DIGIT_ONE, level: (v[1] - ASCII_DIGIT_ZERO) as u8 }
}

/// A noise reduction value reads its state from byte 0 (`1` on) and its level from the digit in
/// byte 1.
pub proof fn lemma_noise_reduction_positions(v: Seq<u8>)
    requires
        v.len() >= 2,
        0x30 <= v[1],
    ensures
        spec_noise_reduction(v).state == (v[0] == 0x31),
        spec_noise_reduction(v).level == v[1] - 0x30,
        noise_reduction_args(true, 0)[0] == 0x31 && noise_reduction_args(false, 0)[0] == 0x30,
{
}

/// The argument of a noise reduction setting: the state and the level digit.
pub open spec fn noise_reduction_args(state: bool, level: u8) -> Seq<u8> {
    seq![if state { ASCII_DIGIT_ONE } else { ASCII_DIGIT_ZERO }, (ASCII_DIGIT_ZERO + level) as u8]
}

/// Get the VFO A noise reduction: `NR;`, answered by `NR{n}{l}`.
#[derive(Clone, Copy, Debug, PartialEq, Eq)]
pub struct GetVfoANoiseReductionSettings;

impl GetVfoANoiseReductionSettings {
    pub fn to_bytes(&self) -> (r: Vec<u8>)
        ensures
            r@ == frame(vfo_a_noise_reduction_id(), seq![]),
    {
        let none: [u8; 0] = [];
        frame_command(vfo_a_noise_reduction_id_bytes(), &none)
    }

    /// The number of value bytes in a reply.
    pub fn expected_response_length(&self) -> (n: usize)
        ensures
            n == 2,
    {
        2
    }

    /// Reads the state and the level digit of a framed reply; a level byte below `0` is outside
    /// the domain.
    pub fn parse(&self, bytes: &[u8]) -> (r: Result<NoiseReduction, RigError>)
        requires
            spec_validate_response(bytes@, vfo_a_noise_reduction_id(), 2) matches Ok(v) ==> v[1] >= ASCII_DIGIT_ZERO,
        ensures
            match spec_validate_response(bytes@, vfo_a_noise_reduction_id(), 2) {
                Ok(v) => r == Ok::<NoiseReduction, RigError>(spec_noise_reduction(v)),
                Err(f) => r matches Err(e) && e.fails_with(f),
            },
    {
        let d = match validate_response(bytes, vfo_a_noise_reduction_id_bytes(), self.expected_response_length()) {
            Ok(d) => d,
            Err(e) => return Err(e),
        };
        Ok(NoiseReduction { state: d[0] == ASCII_DIGIT_ONE, level: d[1] - ASCII_DIGIT_ZERO })
    }
}

/// Set the VFO A noise reduction: `NR{n}{l};`, with the level between 0 and 9.
#[derive(Clone, Copy, Debug, PartialEq, Eq)]
pub struct SetVfoANoiseReductionSettings {
    pub state: bool,
    pub level: u8,
}

impl SetVfoANoiseReductionSettings {
    /// The command, or `InvalidArgumentValue` for a level above 9.
    pub fn to_bytes(&self) -> (r: Result<Vec<u8>, RigError>)
        ensures
            self.level <= 9 ==> (r matches Ok(b) && b@ == frame(vfo_a_noise_reduction_id(), noise_reduction_args(self.state, self.level))),
            self.level > 9 ==> (r matches Err(e) && e.fails_with(
                Failure::ArgumentValue("level"@, "u8"@, decimal_string(self.level as int)),
            )),
    {
        match validate_k4_noise_reduction_level(self.level) {
            Ok(()) => {
                let args: [u8; 2] = [
                    if self.state { ASCII_DIGIT_ONE } else { ASCII_DIGIT_ZERO },
                    ASCII_DIGIT_ZERO + self.level,
                ];
                assert(args@ =~= noise_reduction_args(self.state, self.level));
                Ok(frame_command(vfo_a_noise_reduction_id_bytes(), &args))
            },
            Err(e) => Err(e),
        }
    }
}

/// Get the VFO B noise reduction: `NR$;`, answered by `NR${n}{l}`.
#[derive(Clone, Copy, Debug, PartialEq, Eq)]
pub struct GetVfoBNoiseReductionSettings;

impl GetVfoBNoiseReductionSettings {
    pub fn to_bytes(&self) -> (r: Vec<u8>)
        ensures
            r@ == frame(vfo_b_noise_reduction_id(), seq![]),
    {
        let none: [u8; 0] = [];
        frame_command(vfo_b_noise_reduction_id_bytes(), &none)
    }

    /// The number of value bytes in a reply.
    pub fn expected_response_length(&self) -> (n: usize)
        ensures
            n == 2,
    {
        2
    }

    /// Reads the state and the level digit of a framed reply; a level byte below `0` is outside
    /// the domain.
    pub fn parse(&self, bytes: &[u8]) -> (r: Result<NoiseReduction, RigError>)
        requires
            spec_validate_response(bytes@, vfo_b_noise_reduction_id(), 2) matches Ok(v) ==> v[1] >= ASCII_DIGIT_ZERO,
        ensures
            match spec_validate_response(bytes@, vfo_b_noise_reduction_id(), 2) {
                Ok(v) => r == Ok::<NoiseReduction, RigError>(spec_noise_reduction(v)),
                Err(f) => r matches Err(e) && e.fails_with(f),
            },
    {
        let d = match validate_response(bytes, vfo_b_noise_reduction_id_bytes(), self.expected_response_length()) {
            Ok(d) => d,
            Err(e) => return Err(e),
        };
        Ok(NoiseReduction { state: d[0] == ASCII_DIGIT_ONE, level: d[1] - ASCII_DIGIT_ZERO })
    }
}

/// Set the VFO B noise reduction: `NR${n}{l};`, with the level between 0 and 9.
#[derive(Clone, Copy, Debug, PartialEq, Eq)]
pub struct SetVfoBNoiseReductionSettings {
    pub state: bool,
    pub level: u8,
}

impl SetVfoBNoiseReductionSettings {
    /// The command, or `InvalidArgumentValue` for a level above 9.
    pub fn to_bytes(&self) -> (r: Result<Vec<u8>, RigError>)
        ensures
            self.level <= 9 ==> (r matches Ok(b) && b@ == frame(vfo_b_noise_reduction_id(), noise_reduction_args(self.state, self.level))),
            self.level > 9 ==> (r matches Err(e) && e.fails_with(
                Failure::ArgumentValue("level"@, "u8"@, decimal_string(self.level as int)),
            )),
    {
        match validate_k4_noise_reduction_level(self.level) {
            Ok(()) => {
                let args: [u8; 2] = [
                    if self.state { ASCII_DIGIT_ONE } else { ASCII_DIGIT_ZERO },
                    ASCII_DIGIT_ZERO + self.level,
                ];
                assert(args@ =~= noise_reduction_args(self.state, self.level));
                Ok(frame_command(vfo_b_noise_reduction_id_bytes(), &args))
            },
            Err(e) => Err(e),
        }
    }
}

/// Noise reduction set on VFO A, with a level of at most 9, reads back unchanged from the echoed
/// reply.
pub proof fn lemma_vfo_a_noise_reduction_round_trip(state: bool, level: u8)
    requires
        level <= 9,
    ensures
        (spec_validate_response(
            frame(vfo_a_noise_reduction_id(), noise_reduction_args(state, level)),
            vfo_a_noise_reduction_id(),
            2,
        ) matches Ok(v) && v[1] >= ASCII_DIGIT_ZERO && spec_noise_reduction(v) == (NoiseReduction {
            state,
            level,
        })),
{
    let args = noise_reduction_args(state, level);
    let bytes = frame(vfo_a_noise_reduction_id(), args);
    assert(bytes.take(2) =~= vfo_a_noise_reduction_id());
    assert(response_value(bytes, vfo_a_noise_reduction_id()) =~= args);
}

// ------------------------------------------------------------------------------------------------
// Repeater offset: `RP`
// ------------------------------------------------------------------------------------------------

/// `RP`
pub open spec fn repeater_offset_id() -> Seq<u8> {
    seq![0x52, 0x50]
}

fn repeater_offset_id_bytes() -> (r: &'static [u8])
    ensures
        r@ == repeater_offset_id(),
{
    &[0x52, 0x50]
}

/// The repeater offset direction.
#[derive(Clone, Copy, Debug, PartialEq, Eq, Hash)]
pub enum RepeaterOffsetDirection {
    /// No offset; `0` on the wire.
    Off,
    /// Positive offset; `1` on the wire.
    Positive,
    /// Negative offset; `2` on the wire.
    Negative,
}

impl RepeaterOffsetDirection {
    pub open spec fn spec_byte(self) -> u8 {
        match self {
            RepeaterOffsetDirection::Off => 0x30,
            RepeaterOffsetDirection::Positive => 0x31,
            RepeaterOffsetDirection::Negative => 0x32,
        }
    }

    /// The variant that a wire byte stands for.
    pub open spec fn spec_from_byte(b: u8) -> Option<RepeaterOffsetDirection> {
        if b == 0x30 {
            Some(RepeaterOffsetDirection::Off)
        } else if b == 0x31 {
            Some(RepeaterOffsetDirection::Positive)
        } else if b == 0x32 {
            Some(RepeaterOffsetDirection::Negative)
        } else {
            None
        }
    }

    /// The wire byte.
    pub fn as_byte(&self) -> (b: u8)
        ensures
            b == self.spec_byte(),
    {
        match self {
            RepeaterOffsetDirection::Off => 0x30,
            RepeaterOffsetDirection::Positive => 0x31,
            RepeaterOffsetDirection::Negative => 0x32,
        }
    }

    /// The variant that a wire byte stands for.
    pub fn from_repr(b: u8) -> (r: Option<RepeaterOffsetDirection>)
        ensures
            r == Self::spec_from_byte(b),
            r matches Some(v) ==> v.spec_byte() == b,
    {
        if b == 0x30 {
            Some(RepeaterOffsetDirection::Off)
        } else if b == 0x31 {
            Some(RepeaterOffsetDirection::Positive)
        } else if b == 0x32 {
            Some(RepeaterOffsetDirection::Negative)
        } else {
            None
        }
    }
}

/// The wire bytes of `RepeaterOffsetDirection`: Off `0`, Positive `1`, Negative `2`; no other byte stands for a variant.
pub proof fn lemma_repeater_offset_direction_wire_bytes()
    ensures
        RepeaterOffsetDirection::Off.spec_byte() == 0x30,
        RepeaterOffsetDirection::Positive.spec_byte() == 0x31,
        RepeaterOffsetDirection::Negative.spec_byte() == 0x32,
        RepeaterOffsetDirection::spec_from_byte(0x30) == Some(RepeaterOffsetDirection::Off),
        RepeaterOffsetDirection::spec_from_byte(0x31) == Some(RepeaterOffsetDirection::Positive),
        RepeaterOffsetDirection::spec_from_byte(0x32) == Some(RepeaterOffsetDirection::Negative),
        forall|b: u8| #[trigger] RepeaterOffsetDirection::spec_from_byte(b) is Some ==> (b == 0x30 || b == 0x31 || b == 0x32),
{
}

/// Reading back the wire byte of any `RepeaterOffsetDirection` gives the same value.
pub proof fn lemma_repeater_offset_direction_byte_round_trip(v: RepeaterOffsetDirection)
    ensures
        RepeaterOffsetDirection::spec_from_byte(v.spec_byte()) == Some(v),
{
}

/// The repeater offset direction and size.
#[derive(Clone, Copy, Debug, PartialEq, Eq)]
pub struct RepeaterOffset {
    pub direction: RepeaterOffsetDirection,
    /// The offset in hertz.
    pub offset_hz: u32,
}

/// What a repeater offset reply gives: the direction byte (an unknown one is an
/// `InvalidArgumentValue` for `direction`), an ignored split flag, and six offset digits.
pub open spec fn spec_repeater_offset(v: Seq<u8>) -> Result<RepeaterOffset, Failure> {
    match RepeaterOffsetDirection::spec_from_byte(v[0]) {
        None => Err(Failure::ArgumentValue("direction"@, "RepeaterOffsetDirection"@, decimal_string(v[0] as int))),
        Some(direction) => match spec_u32_field(v.subrange(2, 8)) {
            Err(f) => Err(f),
            Ok(offset_hz) => Ok(RepeaterOffset { direction, offset_hz }),
        },
    }
}

/// A repeater offset value reads its direction from the wire byte 0 (`0` off, `1` positive, `2`
/// negative) and its offset in hertz from the six digits in bytes 2 to 7.
pub proof fn lemma_repeater_offset_positions(v: Seq<u8>)
    requires
        v.len() >= 8,
    ensures
        spec_repeater_offset(v) matches Ok(r) ==> r.direction.spec_byte() == v[0]
            && r.offset_hz == digits_value(v.subrange(2, 8)),
        (0x30 <= v[0] <= 0x32 && all_digits(v.subrange(2, 8)) && digits_value(v.subrange(2, 8))
            <= u32::MAX) ==> spec_repeater_offset(v) is Ok,
{
}

/// Get the repeater offset: `RP;`, answered by `RP{n}{s}{nnnnnn};`.
#[derive(Clone, Copy, Debug, PartialEq, Eq)]
pub struct GetRepeaterOffset;

impl GetRepeaterOffset {
    pub fn to_bytes(&self) -> (r: Vec<u8>)
        ensures
            r@ == frame(repeater_offset_id(), seq![]),
    {
        let none: [u8; 0] = [];
        frame_command(repeater_offset_id_bytes(), &none)
    }

    /// The number of value bytes in a reply.
    pub fn expected_response_length(&self) -> (n: usize)
        ensures
            n == 8,
    {
        8
    }

    pub open spec fn spec_parse_response(bytes: Seq<u8>) -> Result<RepeaterOffset, Failure> {
        match spec_validate_response(bytes, repeater_offset_id(), 8) {
            Ok(v) => spec_repeater_offset(v),
            Err(f) => Err(f),
        }
    }

    pub fn parse(&self, bytes: &[u8]) -> (r: Result<RepeaterOffset, RigError>)
        ensures
            agrees(r, Self::spec_parse_response(bytes@)),
    {
        let d = match validate_response(bytes, repeater_offset_id_bytes(), self.expected_response_length()) {
            Ok(d) => d,
            Err(e) => return Err(e),
        };
        let direction = match RepeaterOffsetDirection::from_repr(d[0]) {
            Some(x) => x,
            None => return Err(out_of_range("direction", "RepeaterOffsetDirection", d[0] as i64)),
        };
        let digits = &d[2..8];
        proof {
            lemma_leading_value_bound(digits@);
            lemma_pow10_values();
        }
        let offset_hz = match u32_from_ascii(digits) {
            Ok(o) => o,
            Err(e) => return Err(e),
        };
        Ok(RepeaterOffset { direction, offset_hz })
    }
}

/// The argument of a repeater offset setting: the direction, a `0` split flag and six digits.
pub open spec fn repeater_offset_args(direction: RepeaterOffsetDirection, offset_hz: u32) -> Seq<u8> {
    seq![direction.spec_byte(), ASCII_DIGIT_ZERO] + padded_decimal(offset_hz as nat, 6)
}

/// Set the repeater offset: `RP{n}0{nnnnnn};`, with the offset at most 999999 Hz.
#[derive(Clone, Copy, Debug, PartialEq, Eq)]
pub struct SetRepeaterOffset {
    pub direction: RepeaterOffsetDirection,
    pub offset_hz: u32,
}

impl SetRepeaterOffset {
    /// The command, or `InvalidArgumentValue` for an offset above 999999.
    pub fn to_bytes(&self) -> (r: Result<Vec<u8>, RigError>)
        ensures
            self.offset_hz <= 999_999 ==> (r matches Ok(b) && b@ == frame(
                repeater_offset_id(),
                repeater_offset_args(self.direction, self.offset_hz),
            )),
            self.offset_hz > 999_999 ==> (r matches Err(e) && e.fails_with(
                Failure::ArgumentValue("offset_hz"@, "u32"@, decimal_string(self.offset_hz as int)),
            )),
    {
        if self.offset_hz > 999_999 {
            return Err(out_of_range("offset_hz", "u32", self.offset_hz as i64));
        }
        let mut v: Vec<u8> = Vec::new();
        v.push(self.direction.as_byte());
        v.push(ASCII_DIGIT_ZERO);
        let mut digits = format_u32_ascii_6(self.offset_hz);
        v.append(&mut digits);
        assert(v@ =~= repeater_offset_args(self.direction, self.offset_hz));
        Ok(frame_command(repeater_offset_id_bytes(), v.as_slice()))
    }
}

/// A repeater offset of at most 999999 Hz set with `RP` reads back unchanged from the echoed
/// reply.
pub proof fn lemma_repeater_offset_round_trip(direction: RepeaterOffsetDirection, offset_hz: u32)
    requires
        offset_hz <= 999_999,
    ensures
        GetRepeaterOffset::spec_parse_response(
            frame(repeater_offset_id(), repeater_offset_args(direction, offset_hz)),
        ) == Ok::<RepeaterOffset, Failure>(RepeaterOffset { direction, offset_hz }),
{
    lemma_padded_decimal_value(offset_hz as nat, 6);
    lemma_pow10_values();
    lemma_num_digits_le(offset_hz as nat, 6);
    let args = repeater_offset_args(direction, offset_hz);
    let bytes = frame(repeater_offset_id(), args);
    assert(bytes.take(2) =~= repeater_offset_id());
    assert(response_value(bytes, repeater_offset_id()) =~= args);
    assert(args.subrange(2, 8) =~= padded_decimal(offset_hz as nat, 6));
}

// ------------------------------------------------------------------------------------------------
// Transmit data bandwidth: `DW`
// ------------------------------------------------------------------------------------------------

/// `DW`
pub open spec fn transmit_data_bandwidth_id() -> Seq<u8> {
    seq![0x44, 0x57]
}

fn transmit_data_bandwidth_id_bytes() -> (r: &'static [u8])
    ensures
        r@ == transmit_data_bandwidth_id(),
{
    &[0x44, 0x57]
}

/// Get the TX DATA bandwidth in units of 10 Hz: `DW;`, answered by `DW{nnnn};`.
#[derive(Clone, Copy, Debug, PartialEq, Eq)]
pub struct GetTransmitDataBandwidth;

impl GetTransmitDataBandwidth {
    pub fn to_bytes(&self) -> (r: Vec<u8>)
        ensures
            r@ == frame(transmit_data_bandwidth_id(), seq![]),
    {
        let none: [u8; 0] = [];
        frame_command(transmit_data_bandwidth_id_bytes(), &none)
    }

    pub open spec fn spec_parse_response(bytes: Seq<u8>) -> Result<u16, Failure> {
        match spec_validate_response(bytes, transmit_data_bandwidth_id(), 4) {
            Ok(v) => spec_u16_field(v),
            Err(f) => Err(f),
        }
    }

    pub fn parse(&self, bytes: &[u8]) -> (r: Result<u16, RigError>)
        ensures
            agrees(r, Self::spec_parse_response(bytes@)),
    {
        match validate_response(bytes, transmit_data_bandwidth_id_bytes(), 4) {
            Ok(d) => {
                proof {
                    lemma_leading_value_bound(d@);
                    lemma_pow10_values();
                }
                u16_from_ascii(d)
            },
            Err(e) => Err(e),
        }
    }
}

/// A `GetTransmitDataBandwidth` reply of 4 value bytes reads as the decimal number they spell; a value with a
/// byte that is not a digit is an `InvalidResponseData` error holding the value.
pub proof fn lemma_get_transmit_data_bandwidth_reply(v: Seq<u8>)
    requires
        v.len() == 4,
    ensures
        all_digits(v) && digits_value(v) <= u16::MAX ==> GetTransmitDataBandwidth::spec_parse_response(frame(transmit_data_bandwidth_id(), v)) == Ok::<u16, Failure>(digits_value(v) as u16),
        !all_digits(v) ==> GetTransmitDataBandwidth::spec_parse_response(frame(transmit_data_bandwidth_id(), v)) == Err::<u16, Failure>(Failure::ResponseData(v)),
{
    lemma_framed_value_reads_back(transmit_data_bandwidth_id(), v);
}

/// Set the TX DATA bandwidth in units of 10 Hz: `DW{nnnn};`, at most 9999.
#[derive(Clone, Copy, Debug, PartialEq, Eq)]
pub struct SetTransmitDataBandwidth {
    pub bandwidth_10hz: u16,
}

impl SetTransmitDataBandwidth {
    /// The command, or `InvalidArgumentValue` for a value out of range.
    pub fn to_bytes(&self) -> (r: Result<Vec<u8>, RigError>)
        ensures
            self.bandwidth_10hz <= 9999 ==> (r matches Ok(b) && b@ == frame(transmit_data_bandwidth_id(), padded_decimal(self.bandwidth_10hz as nat, 4))),
            !(self.bandwidth_10hz <= 9999) ==> (r matches Err(e) && e.fails_with(
                Failure::ArgumentValue("bandwidth_10hz"@, "u16"@, decimal_string(self.bandwidth_10hz as int)),
            )),
    {
        match validate_integer_in_range("bandwidth_10hz", "u16", self.bandwidth_10hz as i64, 0, 9999) {
            Ok(()) => {
                let args = format_u16_ascii_4(self.bandwidth_10hz);
                Ok(frame_command(transmit_data_bandwidth_id_bytes(), args.as_slice()))
            },
            Err(e) => Err(e),
        }
    }
}

// ------------------------------------------------------------------------------------------------
// QSK/VOX delay and auto-info interval: `SD`, `SI`
// ------------------------------------------------------------------------------------------------

/// `SD`
pub open spec fn qsk_or_vox_delay_id() -> Seq<u8> {
    seq![0x53, 0x44]
}

fn qsk_or_vox_delay_id_bytes() -> (r: &'static [u8])
    ensures
        r@ == qsk_or_vox_delay_id(),
{
    &[0x53, 0x44]
}

/// `SI`
pub open spec fn system_auto_info_interval_id() -> Seq<u8> {
    seq![0x53, 0x49]
}

fn system_auto_info_interval_id_bytes() -> (r: &'static [u8])
    ensures
        r@ == system_auto_info_interval_id(),
{
    &[0x53, 0x49]
}

/// Set the QSK or VOX delay: `SD{nnnn};`, at most 2000 ms.
#[derive(Clone, Copy, Debug, PartialEq, Eq)]
pub struct SetQskOrVoxDelay {
    pub delay_ms: u16,
}

impl SetQskOrVoxDelay {
    /// The command, or `InvalidArgumentValue` for a value out of range.
    pub fn to_bytes(&self) -> (r: Result<Vec<u8>, RigError>)
        ensures
            self.delay_ms <= 2000 ==> (r matches Ok(b) && b@ == frame(qsk_or_vox_delay_id(), padded_decimal(self.delay_ms as nat, 4))),
            !(self.delay_ms <= 2000) ==> (r matches Err(e) && e.fails_with(
                Failure::ArgumentValue("ms"@, "u16"@, decimal_string(self.delay_ms as int)),
            )),
    {
        match validate_integer_in_range("ms", "u16", self.delay_ms as i64, 0, 2000) {
            Ok(()) => {
                let args = format_u16_ascii_4(self.delay_ms);
                Ok(frame_command(qsk_or_vox_delay_id_bytes(), args.as_slice()))
            },
            Err(e) => Err(e),
        }
    }
}

/// Set the auto-info interval: `SI{nnnn};`, at most 9999 ms.
#[derive(Clone, Copy, Debug, PartialEq, Eq)]
pub struct SetSystemAutoInfoInterval {
    pub interval_ms: u16,
}

impl SetSystemAutoInfoInterval {
    /// The command, or `InvalidArgumentValue` for a value out of range.
    pub fn to_bytes(&self) -> (r: Result<Vec<u8>, RigError>)
        ensures
            self.interval_ms <= 9999 ==> (r matches Ok(b) && b@ == frame(system_auto_info_interval_id(), padded_decimal(self.interval_ms as nat, 4))),
            !(self.interval_ms <= 9999) ==> (r matches Err(e) && e.fails_with(
                Failure::ArgumentValue("interval_ms"@, "u16"@, decimal_string(self.interval_ms as int)),
            )),
    {
        match validate_integer_in_range("interval_ms", "u16", self.interval_ms as i64, 0, 9999) {
            Ok(()) => {
                let args = format_u16_ascii_4(self.interval_ms);
                Ok(frame_command(system_auto_info_interval_id_bytes(), args.as_slice()))
            },
            Err(e) => Err(e),
        }
    }
}

// ------------------------------------------------------------------------------------------------
// VFO tuning step: `VT`, `VT$`
// ------------------------------------------------------------------------------------------------

/// `VT`
pub open spec fn vfo_a_tuning_step_id() -> Seq<u8> {
    seq![0x56, 0x54]
}

fn vfo_a_tuning_step_id_bytes() -> (r: &'static [u8])
    ensures
        r@ == vfo_a_tuning_step_id(),
{
    &[0x56, 0x54]
}

/// `VT$`
pub open spec fn vfo_b_tuning_step_id() -> Seq<u8> {
    seq![0x56, 0x54, 0x24]
}

fn vfo_b_tuning_step_id_bytes() -> (r: &'static [u8])
    ensures
        r@ == vfo_b_tuning_step_id(),
{
    &[0x56, 0x54, 0x24]
}

/// Get the VFO A tuning step in hertz: `VT;`, answered by `VT{nnnnnn};`.
#[derive(Clone, Copy, Debug, PartialEq, Eq)]
pub struct GetVfoATuningStep;

impl GetVfoATuningStep {
    pub fn to_bytes(&self) -> (r: Vec<u8>)
        ensures
            r@ == frame(vfo_a_tuning_step_id(), seq![]),
    {
        let none: [u8; 0] = [];
        frame_command(vfo_a_tuning_step_id_bytes(), &none)
    }

    pub open spec fn spec_parse_response(bytes: Seq<u8>) -> Result<u32, Failure> {
        match spec_validate_response(bytes, vfo_a_tuning_step_id(), 6) {
            Ok(v) => spec_u32_field(v),
            Err(f) => Err(f),
        }
    }

    pub fn parse(&self, bytes: &[u8]) -> (r: Result<u32, RigError>)
        ensures
            agrees(r, Self::spec_parse_response(bytes@)),
    {
        match validate_response(bytes, vfo_a_tuning_step_id_bytes(), 6) {
            Ok(d) => {
                proof {
                    lemma_leading_value_bound(d@);
                    lemma_pow10_values();
                }
                u32_from_ascii(d)
            },
            Err(e) => Err(e),
        }
    }
}

/// A `GetVfoATuningStep` reply of 6 value bytes reads as the decimal number they spell; a value with a
/// byte that is not a digit is an `InvalidResponseData` error holding the value.
pub proof fn lemma_get_vfo_a_tuning_step_reply(v: Seq<u8>)
    requires
        v.len() == 6,
    ensures
        all_digits(v) && digits_value(v) <= u32::MAX ==> GetVfoATuningStep::spec_parse_response(frame(vfo_a_tuning_step_id(), v)) == Ok::<u32, Failure>(digits_value(v) as u32),
        !all_digits(v) ==> GetVfoATuningStep::spec_parse_response(frame(vfo_a_tuning_step_id(), v)) == Err::<u32, Failure>(Failure::ResponseData(v)),
{
    lemma_framed_value_reads_back(vfo_a_tuning_step_id(), v);
}

/// Set the VFO A tuning step in hertz: `VT{nnnnnn};`, at most 999999.
#[derive(Clone, Copy, Debug, PartialEq, Eq)]
pub struct SetVfoATuningStep {
    pub step_hz: u32,
}

impl SetVfoATuningStep {
    /// The command, or `InvalidArgumentValue` for a value out of range.
    pub fn to_bytes(&self) -> (r: Result<Vec<u8>, RigError>)
        ensures
            self.step_hz <= 999_999 ==> (r matches Ok(b) && b@ == frame(vfo_a_tuning_step_id(), padded_decimal(self.step_hz as nat, 6))),
            !(self.step_hz <= 999_999) ==> (r matches Err(e) && e.fails_with(
                Failure::ArgumentValue("step_hz"@, "u32"@, decimal_string(self.step_hz as int)),
            )),
    {
        match validate_k4_vfo_tuning_step(self.step_hz) {
            Ok(()) => {
                let args = format_u32_ascii_6(self.step_hz);
                Ok(frame_command(vfo_a_tuning_step_id_bytes(), args.as_slice()))
            },
            Err(e) => Err(e),
        }
    }
}

/// Get the VFO B tuning step in hertz: `VT$;`, answered by `VT${nnnnnn};`.
#[derive(Clone, Copy, Debug, PartialEq, Eq)]
pub struct GetVfoBTuningStep;

impl GetVfoBTuningStep {
    pub fn to_bytes(&self) -> (r: Vec<u8>)
        ensures
            r@ == frame(vfo_b_tuning_step_id(), seq![]),
    {
        let none: [u8; 0] = [];
        frame_command(vfo_b_tuning_step_id_bytes(), &none)
    }

    pub open spec fn spec_parse_response(bytes: Seq<u8>) -> Result<u32, Failure> {
        match spec_validate_response(bytes, vfo_b_tuning_step_id(), 6) {
            Ok(v) => spec_u32_field(v),
            Err(f) => Err(f),
        }
    }

    pub fn parse(&self, bytes: &[u8]) -> (r: Result<u32, RigError>)
        ensures
            agrees(r, Self::spec_parse_response(bytes@)),
    {
        match validate_response(bytes, vfo_b_tuning_step_id_bytes(), 6) {
            Ok(d) => {
                proof {
                    lemma_leading_value_bound(d@);
                    lemma_pow10_values();
                }
                u32_from_ascii(d)
            },
            Err(e) => Err(e),
        }
    }
}

/// A `GetVfoBTuningStep` reply of 6 value bytes reads as the decimal number they spell; a value with a
/// byte that is not a digit is an `InvalidResponseData` error holding the value.
pub proof fn lemma_get_vfo_b_tuning_step_reply(v: Seq<u8>)
    requires
        v.len() == 6,
    ensures
        all_digits(v) && digits_value(v) <= u32::MAX ==> GetVfoBTuningStep::spec_parse_response(frame(vfo_b_tuning_step_id(), v)) == Ok::<u32, Failure>(digits_value(v) as u32),
        !all_digits(v) ==> GetVfoBTuningStep::spec_parse_response(frame(vfo_b_tuning_step_id(), v)) == Err::<u32, Failure>(Failure::ResponseData(v)),
{
    lemma_framed_value_reads_back(vfo_b_tuning_step_id(), v);
}

/// Set the VFO B tuning step in hertz: `VT${nnnnnn};`, at most 999999.
#[derive(Clone, Copy, Debug, PartialEq, Eq)]
pub struct SetVfoBTuningStep {
    pub step_hz: u32,
}

impl SetVfoBTuningStep {
    /// The command, or `InvalidArgumentValue` for a value out of range.
    pub fn to_bytes(&self) -> (r: Result<Vec<u8>, RigError>)
        ensures
            self.step_hz <= 999_999 ==> (r matches Ok(b) && b@ == frame(vfo_b_tuning_step_id(), padded_decimal(self.step_hz as nat, 6))),
            !(self.step_hz <= 999_999) ==> (r matches Err(e) && e.fails_with(
                Failure::ArgumentValue("step_hz"@, "u32"@, decimal_string(self.step_hz as int)),
            )),
    {
        match validate_k4_vfo_tuning_step(self.step_hz) {
            Ok(()) => {
                let args = format_u32_ascii_6(self.step_hz);
                Ok(frame_command(vfo_b_tuning_step_id_bytes(), args.as_slice()))
            },
            Err(e) => Err(e),
        }
    }
}

/// A VFO A tuning step of at most 999999 Hz reads back unchanged from the echoed reply.
pub proof fn lemma_vfo_a_tuning_step_round_trip(step_hz: u32)
    requires
        step_hz <= 999_999,
    ensures
        GetVfoATuningStep::spec_parse_response(
            frame(vfo_a_tuning_step_id(), padded_decimal(step_hz as nat, 6)),
        ) == Ok::<u32, Failure>(step_hz),
{
    let args = padded_decimal(step_hz as nat, 6);
    lemma_padded_decimal_value(step_hz as nat, 6);
    lemma_pow10_values();
    lemma_num_digits_le(step_hz as nat, 6);
    let bytes = frame(vfo_a_tuning_step_id(), args);
    assert(bytes.take(2) =~= vfo_a_tuning_step_id());
    assert(response_value(bytes, vfo_a_tuning_step_id()) =~= args);
}

// ------------------------------------------------------------------------------------------------
// CTCSS tone: `PL`, `PL$`
// ------------------------------------------------------------------------------------------------

/// `PL`
pub open spec fn vfo_a_ctcss_tone_id() -> Seq<u8> {
    seq![0x50, 0x4C]
}

fn vfo_a_ctcss_tone_id_bytes() -> (r: &'static [u8])
    ensures
        r@ == vfo_a_ctcss_tone_id(),
{
    &[0x50, 0x4C]
}

/// `PL$`
pub open spec fn vfo_b_ctcss_tone_id() -> Seq<u8> {
    seq![0x50, 0x4C, 0x24]
}

fn vfo_b_ctcss_tone_id_bytes() -> (r: &'static [u8])
    ensures
        r@ == vfo_b_ctcss_tone_id(),
{
    &[0x50, 0x4C, 0x24]
}

/// Set the VFO A CTCSS tone code: `PL{nnn};`, at most 38.
#[derive(Clone, Copy, Debug, PartialEq, Eq)]
pub struct SetVfoACtssTone {
    pub tone_code: u8,
}

impl SetVfoACtssTone {
    /// The command, or `InvalidArgumentValue` for a value out of range.
    pub fn to_bytes(&self) -> (r: Result<Vec<u8>, RigError>)
        ensures
            self.tone_code <= 38 ==> (r matches Ok(b) && b@ == frame(vfo_a_ctcss_tone_id(), padded_decimal(self.tone_code as nat, 3))),
            !(self.tone_code <= 38) ==> (r matches Err(e) && e.fails_with(
                Failure::ArgumentValue("tone_code"@, "u8"@, decimal_string(self.tone_code as int)),
            )),
    {
        match validate_k4_pl_tone_code(self.tone_code) {
            Ok(()) => {
                let args = format_uint_ascii(self.tone_code as u64, 3);
                Ok(frame_command(vfo_a_ctcss_tone_id_bytes(), args.as_slice()))
            },
            Err(e) => Err(e),
        }
    }
}

/// Set the VFO B CTCSS tone code: `PL${nnn};`, at most 38.
#[derive(Clone, Copy, Debug, PartialEq, Eq)]
pub struct SetVfoBCtssTone {
    pub tone_code: u8,
}

impl SetVfoBCtssTone {
    /// The command, or `InvalidArgumentValue` for a value out of range.
    pub fn to_bytes(&self) -> (r: Result<Vec<u8>, RigError>)
        ensures
            self.tone_code <= 38 ==> (r matches Ok(b) && b@ == frame(vfo_b_ctcss_tone_id(), padded_decimal(self.tone_code as nat, 3))),
            !(self.tone_code <= 38) ==> (r matches Err(e) && e.fails_with(
                Failure::ArgumentValue("tone_code"@, "u8"@, decimal_string(self.tone_code as int)),
            )),
    {
        match validate_k4_pl_tone_code(self.tone_code) {
            Ok(()) => {
                let args = format_uint_ascii(self.tone_code as u64, 3);
                Ok(frame_command(vfo_b_ctcss_tone_id_bytes(), args.as_slice()))
            },
            Err(e) => Err(e),
        }
    }
}

// ------------------------------------------------------------------------------------------------
// Transverter band slot: `XV`, `XV$`
// ------------------------------------------------------------------------------------------------

/// `XV`
pub open spec fn vfo_a_transverter_band_slot_id() -> Seq<u8> {
    seq![0x58, 0x56]
}

fn vfo_a_transverter_band_slot_id_bytes() -> (r: &'static [u8])
    ensures
        r@ == vfo_a_transverter_band_slot_id(),
{
    &[0x58, 0x56]
}

/// `XV$`
pub open spec fn vfo_b_transverter_band_slot_id() -> Seq<u8> {
    seq![0x58, 0x56, 0x24]
}

fn vfo_b_transverter_band_slot_id_bytes() -> (r: &'static [u8])
    ensures
        r@ == vfo_b_transverter_band_slot_id(),
{
    &[0x58, 0x56, 0x24]
}

/// Set the VFO A transverter band slot: `XV{nn};`, at most 8.
#[derive(Clone, Copy, Debug, PartialEq, Eq)]
pub struct SetVfoATransverterActiveBandSlot {
    pub band_slot: u8,
}

impl SetVfoATransverterActiveBandSlot {
    /// The command, or `InvalidArgumentValue` for a value out of range.
    pub fn to_bytes(&self) -> (r: Result<Vec<u8>, RigError>)
        ensures
            self.band_slot <= 8 ==> (r matches Ok(b) && b@ == frame(vfo_a_transverter_band_slot_id(), padded_decimal(self.band_slot as nat, 2))),
            !(self.band_slot <= 8) ==> (r matches Err(e) && e.fails_with(
                Failure::ArgumentValue("band_slot"@, "u8"@, decimal_string(self.band_slot as int)),
            )),
    {
        match validate_k4_transverter_band_slot(self.band_slot) {
            Ok(()) => {
                let args = format_uint_ascii(self.band_slot as u64, 2);
                Ok(frame_command(vfo_a_transverter_band_slot_id_bytes(), args.as_slice()))
            },
            Err(e) => Err(e),
        }
    }
}

/// Set the VFO B transverter band slot: `XV${nn};`, at most 8.
#[derive(Clone, Copy, Debug, PartialEq, Eq)]
pub struct SetVfoBTransverterActiveBandSlot {
    pub band_slot: u8,
}

impl SetVfoBTransverterActiveBandSlot {
    /// The command, or `InvalidArgumentValue` for a value out of range.
    pub fn to_bytes(&self) -> (r: Result<Vec<u8>, RigError>)
        ensures
            self.band_slot <= 8 ==> (r matches Ok(b) && b@ == frame(vfo_b_transverter_band_slot_id(), padded_decimal(self.band_slot as nat, 2))),
            !(self.band_slot <= 8) ==> (r matches Err(e) && e.fails_with(
                Failure::ArgumentValue("band_slot"@, "u8"@, decimal_string(self.band_slot as int)),
            )),
    {
        match validate_k4_transverter_band_slot(self.band_slot) {
            Ok(()) => {
                let args = format_uint_ascii(self.band_slot as u64, 2);
                Ok(frame_command(vfo_b_transverter_band_slot_id_bytes(), args.as_slice()))
            },
            Err(e) => Err(e),
        }
    }
}

// ------------------------------------------------------------------------------------------------
// IF center pitch: `IS`, `IS$`
// ------------------------------------------------------------------------------------------------

/// `IS`
pub open spec fn vfo_a_if_center_pitch_id() -> Seq<u8> {
    seq![0x49, 0x53]
}

fn vfo_a_if_center_pitch_id_bytes() -> (r: &'static [u8])
    ensures
        r@ == vfo_a_if_center_pitch_id(),
{
    &[0x49, 0x53]
}

/// `IS$`
pub open spec fn vfo_b_if_center_pitch_id() -> Seq<u8> {
    seq![0x49, 0x53, 0x24]
}

fn vfo_b_if_center_pitch_id_bytes() -> (r: &'static [u8])
    ensures
        r@ == vfo_b_if_center_pitch_id(),
{
    &[0x49, 0x53, 0x24]
}

/// Get the VFO A IF center pitch offset: `IS;`, answered by `IS{±nnnn};`.
#[derive(Clone, Copy, Debug, PartialEq, Eq)]
pub struct GetVfoAIfCenterPitch;

impl GetVfoAIfCenterPitch {
    pub fn to_bytes(&self) -> (r: Vec<u8>)
        ensures
            r@ == frame(vfo_a_if_center_pitch_id(), seq![]),
    {
        let none: [u8; 0] = [];
        frame_command(vfo_a_if_center_pitch_id_bytes(), &none)
    }

    pub open spec fn spec_parse_response(bytes: Seq<u8>) -> Result<i16, Failure> {
        match spec_validate_response(bytes, vfo_a_if_center_pitch_id(), 5) {
            Ok(v) => spec_signed_hz_4(v),
            Err(f) => Err(f),
        }
    }

    pub fn parse(&self, bytes: &[u8]) -> (r: Result<i16, RigError>)
        ensures
            agrees(r, Self::spec_parse_response(bytes@)),
    {
        match validate_response(bytes, vfo_a_if_center_pitch_id_bytes(), 5) {
            Ok(d) => parse_signed_hz_4(d),
            Err(e) => Err(e),
        }
    }
}

/// Get the VFO B IF center pitch offset: `IS$;`, answered by `IS${±nnnn};`.
#[derive(Clone, Copy, Debug, PartialEq, Eq)]
pub struct GetVfoBIfCenterPitch;

impl GetVfoBIfCenterPitch {
    pub fn to_bytes(&self) -> (r: Vec<u8>)
        ensures
            r@ == frame(vfo_b_if_center_pitch_id(), seq![]),
    {
        let none: [u8; 0] = [];
        frame_command(vfo_b_if_center_pitch_id_bytes(), &none)
    }

    pub open spec fn spec_parse_response(bytes: Seq<u8>) -> Result<i16, Failure> {
        match spec_validate_response(bytes, vfo_b_if_center_pitch_id(), 5) {
            Ok(v) => spec_signed_hz_4(v),
            Err(f) => Err(f),
        }
    }

    pub fn parse(&self, bytes: &[u8]) -> (r: Result<i16, RigError>)
        ensures
            agrees(r, Self::spec_parse_response(bytes@)),
    {
        match validate_response(bytes, vfo_b_if_center_pitch_id_bytes(), 5) {
            Ok(d) => parse_signed_hz_4(d),
            Err(e) => Err(e),
        }
    }
}

// ------------------------------------------------------------------------------------------------
// Further commands: identifier and argument encodings, and replies
// ------------------------------------------------------------------------------------------------

/// Represents the ATU mode for [`GetAtuMode`] and [`SetAtuMode`].
#[derive(Clone, Copy, Debug, PartialEq, Eq, Hash)]
pub enum AtuMode {
    /// ATU bypassed; `0` on the wire.
    Bypassed,
    /// ATU in-line (auto-tunes on transmit); `1` on the wire.
    Inline,
    /// ATU tuning in progress; `2` on the wire.
    Tuning,
}

impl AtuMode {
    pub open spec fn spec_byte(self) -> u8 {
        match self {
            AtuMode::Bypassed => 0x30,
            AtuMode::Inline => 0x31,
            AtuMode::Tuning => 0x32,
        }
    }

    /// The variant that a wire byte stands for.
    pub open spec fn spec_from_byte(b: u8) -> Option<AtuMode> {
        if b == 0x30 {
            Some(AtuMode::Bypassed)
        } else if b == 0x31 {
            Some(AtuMode::Inline)
        } else if b == 0x32 {
            Some(AtuMode::Tuning)
        } else {
            None
        }
    }

    /// The wire byte.
    pub fn as_byte(&self) -> (b: u8)
        ensures
            b == self.spec_byte(),
    {
        match self {
            AtuMode::Bypassed => 0x30,
            AtuMode::Inline => 0x31,
            AtuMode::Tuning => 0x32,
        }
    }

    /// The variant that a wire byte stands for.
    pub fn from_repr(b: u8) -> (r: Option<AtuMode>)
        ensures
            r == Self::spec_from_byte(b),
            r matches Some(v) ==> v.spec_byte() == b,
    {
        if b == 0x30 {
            Some(AtuMode::Bypassed)
        } else if b == 0x31 {
            Some(AtuMode::Inline)
        } else if b == 0x32 {
            Some(AtuMode::Tuning)
        } else {
            None
        }
    }
}

/// The wire bytes of `AtuMode`: Bypassed `0`, Inline `1`, Tuning `2`; no other byte stands for a variant.
pub proof fn lemma_atu_mode_wire_bytes()
    ensures
        AtuMode::Bypassed.spec_byte() == 0x30,
        AtuMode::Inline.spec_byte() == 0x31,
        AtuMode::Tuning.spec_byte() == 0x32,
        AtuMode::spec_from_byte(0x30) == Some(AtuMode::Bypassed),
        AtuMode::spec_from_byte(0x31) == Some(AtuMode::Inline),
        AtuMode::spec_from_byte(0x32) == Some(AtuMode::Tuning),
        forall|b: u8| #[trigger] AtuMode::spec_from_byte(b) is Some ==> (b == 0x30 || b == 0x31 || b == 0x32),
{
}

/// Reading back the wire byte of any `AtuMode` gives the same value.
pub proof fn lemma_atu_mode_byte_round_trip(v: AtuMode)
    ensures
        AtuMode::spec_from_byte(v.spec_byte()) == Some(v),
{
}

/// Digital audio routing mode for [`GetDigitalAudioRoutingMode`] and [`SetDigitalAudioRoutingMode`].
#[derive(Clone, Copy, Debug, PartialEq, Eq, Hash)]
pub enum DigitalAudioRoutingMode {
    /// Analog audio routing; `0` on the wire.
    Analog,
    /// Digital audio out to USB; `1` on the wire.
    DigitalOut,
    /// Digital audio in from USB; `2` on the wire.
    DigitalIn,
    /// Full digital audio I/O via USB; `3` on the wire.
    FullDigital,
}

impl DigitalAudioRoutingMode {
    pub open spec fn spec_byte(self) -> u8 {
        match self {
            DigitalAudioRoutingMode::Analog => 0x30,
            DigitalAudioRoutingMode::DigitalOut => 0x31,
            DigitalAudioRoutingMode::DigitalIn => 0x32,
            DigitalAudioRoutingMode::FullDigital => 0x33,
        }
    }

    /// The variant that a wire byte stands for.
    pub open spec fn spec_from_byte(b: u8) -> Option<DigitalAudioRoutingMode> {
        if b == 0x30 {
            Some(DigitalAudioRoutingMode::Analog)
        } else if b == 0x31 {
            Some(DigitalAudioRoutingMode::DigitalOut)
        } else if b == 0x32 {
            Some(DigitalAudioRoutingMode::DigitalIn)
        } else if b == 0x33 {
            Some(DigitalAudioRoutingMode::FullDigital)
        } else {
            None
        }
    }

    /// The wire byte.
    pub fn as_byte(&self) -> (b: u8)
        ensures
            b == self.spec_byte(),
    {
        match self {
            DigitalAudioRoutingMode::Analog => 0x30,
            DigitalAudioRoutingMode::DigitalOut => 0x31,
            DigitalAudioRoutingMode::DigitalIn => 0x32,
            DigitalAudioRoutingMode::FullDigital => 0x33,
        }
    }

    /// The variant that a wire byte stands for.
    pub fn from_repr(b: u8) -> (r: Option<DigitalAudioRoutingMode>)
        ensures
            r == Self::spec_from_byte(b),
            r matches Some(v) ==> v.spec_byte() == b,
    {
        if b == 0x30 {
            Some(DigitalAudioRoutingMode::Analog)
        } else if b == 0x31 {
            Some(DigitalAudioRoutingMode::DigitalOut)
        } else if b == 0x32 {
            Some(DigitalAudioRoutingMode::DigitalIn)
        } else if b == 0x33 {
            Some(DigitalAudioRoutingMode::FullDigital)
        } else {
            None
        }
    }
}

/// The wire bytes of `DigitalAudioRoutingMode`: Analog `0`, DigitalOut `1`, DigitalIn `2`, FullDigital `3`; no other byte stands for a variant.
pub proof fn lemma_digital_audio_routing_mode_wire_bytes()
    ensures
        DigitalAudioRoutingMode::Analog.spec_byte() == 0x30,
        DigitalAudioRoutingMode::DigitalOut.spec_byte() == 0x31,
        DigitalAudioRoutingMode::DigitalIn.spec_byte() == 0x32,
        DigitalAudioRoutingMode::FullDigital.spec_byte() == 0x33,
        DigitalAudioRoutingMode::spec_from_byte(0x30) == Some(DigitalAudioRoutingMode::Analog),
        DigitalAudioRoutingMode::spec_from_byte(0x31) == Some(DigitalAudioRoutingMode::DigitalOut),
        DigitalAudioRoutingMode::spec_from_byte(0x32) == Some(DigitalAudioRoutingMode::DigitalIn),
        DigitalAudioRoutingMode::spec_from_byte(0x33) == Some(DigitalAudioRoutingMode::FullDigital),
        forall|b: u8| #[trigger] DigitalAudioRoutingMode::spec_from_byte(b) is Some ==> (b == 0x30 || b == 0x31 || b == 0x32 || b == 0x33),
{
}

/// Reading back the wire byte of any `DigitalAudioRoutingMode` gives the same value.
pub proof fn lemma_digital_audio_routing_mode_byte_round_trip(v: DigitalAudioRoutingMode)
    ensures
        DigitalAudioRoutingMode::spec_from_byte(v.spec_byte()) == Some(v),
{
}

/// Keyer paddle emulation mode (K4 only).
#[derive(Clone, Copy, Debug, PartialEq, Eq, Hash)]
pub enum KeyerPaddleEmulationMode {
    /// Normal paddle operation; `0` on the wire.
    Normal,
    /// Dit-only; the paddle emulates a straight key sending continuous dits; `1` on the wire.
    DitOnly,
    /// Dah-only; the paddle emulates a straight key sending continuous dahs; `2` on the wire.
    DahOnly,
}

impl KeyerPaddleEmulationMode {
    pub open spec fn spec_byte(self) -> u8 {
        match self {
            KeyerPaddleEmulationMode::Normal => 0x30,
            KeyerPaddleEmulationMode::DitOnly => 0x31,
            KeyerPaddleEmulationMode::DahOnly => 0x32,
        }
    }

    /// The variant that a wire byte stands for.
    pub open spec fn spec_from_byte(b: u8) -> Option<KeyerPaddleEmulationMode> {
        if b == 0x30 {
            Some(KeyerPaddleEmulationMode::Normal)
        } else if b == 0x31 {
            Some(KeyerPaddleEmulationMode::DitOnly)
        } else if b == 0x32 {
            Some(KeyerPaddleEmulationMode::DahOnly)
        } else {
            None
        }
    }

    /// The wire byte.
    pub fn as_byte(&self) -> (b: u8)
        ensures
            b == self.spec_byte(),
    {
        match self {
            KeyerPaddleEmulationMode::Normal => 0x30,
            KeyerPaddleEmulationMode::DitOnly => 0x31,
            KeyerPaddleEmulationMode::DahOnly => 0x32,
        }
    }

    /// The variant that a wire byte stands for.
    pub fn from_repr(b: u8) -> (r: Option<KeyerPaddleEmulationMode>)
        ensures
            r == Self::spec_from_byte(b),
            r matches Some(v) ==> v.spec_byte() == b,
    {
        if b == 0x30 {
            Some(KeyerPaddleEmulationMode::Normal)
        } else if b == 0x31 {
            Some(KeyerPaddleEmulationMode::DitOnly)
        } else if b == 0x32 {
            Some(KeyerPaddleEmulationMode::DahOnly)
        } else {
            None
        }
    }
}

/// The wire bytes of `KeyerPaddleEmulationMode`: Normal `0`, DitOnly `1`, DahOnly `2`; no other byte stands for a variant.
pub proof fn lemma_keyer_paddle_emulation_mode_wire_bytes()
    ensures
        KeyerPaddleEmulationMode::Normal.spec_byte() == 0x30,
        KeyerPaddleEmulationMode::DitOnly.spec_byte() == 0x31,
        KeyerPaddleEmulationMode::DahOnly.spec_byte() == 0x32,
        KeyerPaddleEmulationMode::spec_from_byte(0x30) == Some(KeyerPaddleEmulationMode::Normal),
        KeyerPaddleEmulationMode::spec_from_byte(0x31) == Some(KeyerPaddleEmulationMode::DitOnly),
        KeyerPaddleEmulationMode::spec_from_byte(0x32) == Some(KeyerPaddleEmulationMode::DahOnly),
        forall|b: u8| #[trigger] KeyerPaddleEmulationMode::spec_from_byte(b) is Some ==> (b == 0x30 || b == 0x31 || b == 0x32),
{
}

/// Reading back the wire byte of any `KeyerPaddleEmulationMode` gives the same value.
pub proof fn lemma_keyer_paddle_emulation_mode_byte_round_trip(v: KeyerPaddleEmulationMode)
    ensures
        KeyerPaddleEmulationMode::spec_from_byte(v.spec_byte()) == Some(v),
{
}

/// Microphone input source.
#[derive(Clone, Copy, Debug, PartialEq, Eq, Hash)]
pub enum MicInputSource {
    /// Front panel microphone jack; `0` on the wire.
    Front,
    /// Rear panel microphone jack; `1` on the wire.
    Rear,
    /// USB audio input; `2` on the wire.
    Usb,
    /// Bluetooth audio input; `3` on the wire.
    Bluetooth,
}

impl MicInputSource {
    pub open spec fn spec_byte(self) -> u8 {
        match self {
            MicInputSource::Front => 0x30,
            MicInputSource::Rear => 0x31,
            MicInputSource::Usb => 0x32,
            MicInputSource::Bluetooth => 0x33,
        }
    }

    /// The variant that a wire byte stands for.
    pub open spec fn spec_from_byte(b: u8) -> Option<MicInputSource> {
        if b == 0x30 {
            Some(MicInputSource::Front)
        } else if b == 0x31 {
            Some(MicInputSource::Rear)
        } else if b == 0x32 {
            Some(MicInputSource::Usb)
        } else if b == 0x33 {
            Some(MicInputSource::Bluetooth)
        } else {
            None
        }
    }

    /// The wire byte.
    pub fn as_byte(&self) -> (b: u8)
        ensures
            b == self.spec_byte(),
    {
        match self {
            MicInputSource::Front => 0x30,
            MicInputSource::Rear => 0x31,
            MicInputSource::Usb => 0x32,
            MicInputSource::Bluetooth => 0x33,
        }
    }

    /// The variant that a wire byte stands for.
    pub fn from_repr(b: u8) -> (r: Option<MicInputSource>)
        ensures
            r == Self::spec_from_byte(b),
            r matches Some(v) ==> v.spec_byte() == b,
    {
        if b == 0x30 {
            Some(MicInputSource::Front)
        } else if b == 0x31 {
            Some(MicInputSource::Rear)
        } else if b == 0x32 {
            Some(MicInputSource::Usb)
        } else if b == 0x33 {
            Some(MicInputSource::Bluetooth)
        } else {
            None
        }
    }
}

/// The wire bytes of `MicInputSource`: Front `0`, Rear `1`, Usb `2`, Bluetooth `3`; no other byte stands for a variant.
pub proof fn lemma_mic_input_source_wire_bytes()
    ensures
        MicInputSource::Front.spec_byte() == 0x30,
        MicInputSource::Rear.spec_byte() == 0x31,
        MicInputSource::Usb.spec_byte() == 0x32,
        MicInputSource::Bluetooth.spec_byte() == 0x33,
        MicInputSource::spec_from_byte(0x30) == Some(MicInputSource::Front),
        MicInputSource::spec_from_byte(0x31) == Some(MicInputSource::Rear),
        MicInputSource::spec_from_byte(0x32) == Some(MicInputSource::Usb),
        MicInputSource::spec_from_byte(0x33) == Some(MicInputSource::Bluetooth),
        forall|b: u8| #[trigger] MicInputSource::spec_from_byte(b) is Some ==> (b == 0x30 || b == 0x31 || b == 0x32 || b == 0x33),
{
}

/// Reading back the wire byte of any `MicInputSource` gives the same value.
pub proof fn lemma_mic_input_source_byte_round_trip(v: MicInputSource)
    ensures
        MicInputSource::spec_from_byte(v.spec_byte()) == Some(v),
{
}

/// Transceiver power state.
#[derive(Clone, Copy, Debug, PartialEq, Eq, Hash)]
pub enum PowerStatus {
    /// Power off; `0` on the wire.
    Off,
    /// Power on; `1` on the wire.
    On,
    /// Trigger a controlled firmware restart; `2` on the wire.
    FirmwareRestart,
}

impl PowerStatus {
    pub open spec fn spec_byte(self) -> u8 {
        match self {
            PowerStatus::Off => 0x30,
            PowerStatus::On => 0x31,
            PowerStatus::FirmwareRestart => 0x32,
        }
    }

    /// The variant that a wire byte stands for.
    pub open spec fn spec_from_byte(b: u8) -> Option<PowerStatus> {
        if b == 0x30 {
            Some(PowerStatus::Off)
        } else if b == 0x31 {
            Some(PowerStatus::On)
        } else if b == 0x32 {
            Some(PowerStatus::FirmwareRestart)
        } else {
            None
        }
    }

    /// The wire byte.
    pub fn as_byte(&self) -> (b: u8)
        ensures
            b == self.spec_byte(),
    {
        match self {
            PowerStatus::Off => 0x30,
            PowerStatus::On => 0x31,
            PowerStatus::FirmwareRestart => 0x32,
        }
    }

    /// The variant that a wire byte stands for.
    pub fn from_repr(b: u8) -> (r: Option<PowerStatus>)
        ensures
            r == Self::spec_from_byte(b),
            r matches Some(v) ==> v.spec_byte() == b,
    {
        if b == 0x30 {
            Some(PowerStatus::Off)
        } else if b == 0x31 {
            Some(PowerStatus::On)
        } else if b == 0x32 {
            Some(PowerStatus::FirmwareRestart)
        } else {
            None
        }
    }
}

/// The wire bytes of `PowerStatus`: Off `0`, On `1`, FirmwareRestart `2`; no other byte stands for a variant.
pub proof fn lemma_power_status_wire_bytes()
    ensures
        PowerStatus::Off.spec_byte() == 0x30,
        PowerStatus::On.spec_byte() == 0x31,
        PowerStatus::FirmwareRestart.spec_byte() == 0x32,
        PowerStatus::spec_from_byte(0x30) == Some(PowerStatus::Off),
        PowerStatus::spec_from_byte(0x31) == Some(PowerStatus::On),
        PowerStatus::spec_from_byte(0x32) == Some(PowerStatus::FirmwareRestart),
        forall|b: u8| #[trigger] PowerStatus::spec_from_byte(b) is Some ==> (b == 0x30 || b == 0x31 || b == 0x32),
{
}

/// Reading back the wire byte of any `PowerStatus` gives the same value.
pub proof fn lemma_power_status_byte_round_trip(v: PowerStatus)
    ensures
        PowerStatus::spec_from_byte(v.spec_byte()) == Some(v),
{
}

/// Software release channel.
#[derive(Clone, Copy, Debug, PartialEq, Eq, Hash)]
pub enum SoftwareReleaseChannel {
    /// Stable release channel; `0` on the wire.
    Stable,
    /// Beta release channel; `1` on the wire.
    Beta,
    /// Alpha release channel; `2` on the wire.
    Alpha,
}

impl SoftwareReleaseChannel {
    pub open spec fn spec_byte(self) -> u8 {
        match self {
            SoftwareReleaseChannel::Stable => 0x30,
            SoftwareReleaseChannel::Beta => 0x31,
            SoftwareReleaseChannel::Alpha => 0x32,
        }
    }

    /// The variant that a wire byte stands for.
    pub open spec fn spec_from_byte(b: u8) -> Option<SoftwareReleaseChannel> {
        if b == 0x30 {
            Some(SoftwareReleaseChannel::Stable)
        } else if b == 0x31 {
            Some(SoftwareReleaseChannel::Beta)
        } else if b == 0x32 {
            Some(SoftwareReleaseChannel::Alpha)
        } else {
            None
        }
    }

    /// The wire byte.
    pub fn as_byte(&self) -> (b: u8)
        ensures
            b == self.spec_byte(),
    {
        match self {
            SoftwareReleaseChannel::Stable => 0x30,
            SoftwareReleaseChannel::Beta => 0x31,
            SoftwareReleaseChannel::Alpha => 0x32,
        }
    }

    /// The variant that a wire byte stands for.
    pub fn from_repr(b: u8) -> (r: Option<SoftwareReleaseChannel>)
        ensures
            r == Self::spec_from_byte(b),
            r matches Some(v) ==> v.spec_byte() == b,
    {
        if b == 0x30 {
            Some(SoftwareReleaseChannel::Stable)
        } else if b == 0x31 {
            Some(SoftwareReleaseChannel::Beta)
        } else if b == 0x32 {
            Some(SoftwareReleaseChannel::Alpha)
        } else {
            None
        }
    }
}

/// The wire bytes of `SoftwareReleaseChannel`: Stable `0`, Beta `1`, Alpha `2`; no other byte stands for a variant.
pub proof fn lemma_software_release_channel_wire_bytes()
    ensures
        SoftwareReleaseChannel::Stable.spec_byte() == 0x30,
        SoftwareReleaseChannel::Beta.spec_byte() == 0x31,
        SoftwareReleaseChannel::Alpha.spec_byte() == 0x32,
        SoftwareReleaseChannel::spec_from_byte(0x30) == Some(SoftwareReleaseChannel::Stable),
        SoftwareReleaseChannel::spec_from_byte(0x31) == Some(SoftwareReleaseChannel::Beta),
        SoftwareReleaseChannel::spec_from_byte(0x32) == Some(SoftwareReleaseChannel::Alpha),
        forall|b: u8| #[trigger] SoftwareReleaseChannel::spec_from_byte(b) is Some ==> (b == 0x30 || b == 0x31 || b == 0x32),
{
}

/// Reading back the wire byte of any `SoftwareReleaseChannel` gives the same value.
pub proof fn lemma_software_release_channel_byte_round_trip(v: SoftwareReleaseChannel)
    ensures
        SoftwareReleaseChannel::spec_from_byte(v.spec_byte()) == Some(v),
{
}

/// Text decode/encode mode.
#[derive(Clone, Copy, Debug, PartialEq, Eq, Hash)]
pub enum TextDecodeMode {
    /// Off; `0` on the wire.
    Off,
    /// CW decode; `1` on the wire.
    Cw,
    /// RTTY decode; `2` on the wire.
    Rtty,
    /// PSK decode; `3` on the wire.
    Psk,
}

impl TextDecodeMode {
    pub open spec fn spec_byte(self) -> u8 {
        match self {
            TextDecodeMode::Off => 0x30,
            TextDecodeMode::Cw => 0x31,
            TextDecodeMode::Rtty => 0x32,
            TextDecodeMode::Psk => 0x33,
        }
    }

    /// The variant that a wire byte stands for.
    pub open spec fn spec_from_byte(b: u8) -> Option<TextDecodeMode> {
        if b == 0x30 {
            Some(TextDecodeMode::Off)
        } else if b == 0x31 {
            Some(TextDecodeMode::Cw)
        } else if b == 0x32 {
            Some(TextDecodeMode::Rtty)
        } else if b == 0x33 {
            Some(TextDecodeMode::Psk)
        } else {
            None
        }
    }

    /// The wire byte.
    pub fn as_byte(&self) -> (b: u8)
        ensures
            b == self.spec_byte(),
    {
        match self {
            TextDecodeMode::Off => 0x30,
            TextDecodeMode::Cw => 0x31,
            TextDecodeMode::Rtty => 0x32,
            TextDecodeMode::Psk => 0x33,
        }
    }

    /// The variant that a wire byte stands for.
    pub fn from_repr(b: u8) -> (r: Option<TextDecodeMode>)
        ensures
            r == Self::spec_from_byte(b),
            r matches Some(v) ==> v.spec_byte() == b,
    {
        if b == 0x30 {
            Some(TextDecodeMode::Off)
        } else if b == 0x31 {
            Some(TextDecodeMode::Cw)
        } else if b == 0x32 {
            Some(TextDecodeMode::Rtty)
        } else if b == 0x33 {
            Some(TextDecodeMode::Psk)
        } else {
            None
        }
    }
}

/// The wire bytes of `TextDecodeMode`: Off `0`, Cw `1`, Rtty `2`, Psk `3`; no other byte stands for a variant.
pub proof fn lemma_text_decode_mode_wire_bytes()
    ensures
        TextDecodeMode::Off.spec_byte() == 0x30,
        TextDecodeMode::Cw.spec_byte() == 0x31,
        TextDecodeMode::Rtty.spec_byte() == 0x32,
        TextDecodeMode::Psk.spec_byte() == 0x33,
        TextDecodeMode::spec_from_byte(0x30) == Some(TextDecodeMode::Off),
        TextDecodeMode::spec_from_byte(0x31) == Some(TextDecodeMode::Cw),
        TextDecodeMode::spec_from_byte(0x32) == Some(TextDecodeMode::Rtty),
        TextDecodeMode::spec_from_byte(0x33) == Some(TextDecodeMode::Psk),
        forall|b: u8| #[trigger] TextDecodeMode::spec_from_byte(b) is Some ==> (b == 0x30 || b == 0x31 || b == 0x32 || b == 0x33),
{
}

/// Reading back the wire byte of any `TextDecodeMode` gives the same value.
pub proof fn lemma_text_decode_mode_byte_round_trip(v: TextDecodeMode)
    ensures
        TextDecodeMode::spec_from_byte(v.spec_byte()) == Some(v),
{
}

/// `AT`
pub open spec fn get_atu_mode_id() -> Seq<u8> {
    seq![0x41, 0x54]
}

fn get_atu_mode_id_bytes() -> (r: &'static [u8])
    ensures
        r@ == get_atu_mode_id(),
{
    &[0x41, 0x54]
}

/// Get the ATU (antenna tuner) mode (`AT`).
#[derive(Clone, Copy, Debug, PartialEq, Eq)]
pub struct GetAtuMode;

impl GetAtuMode {
    pub fn to_bytes(&self) -> (r: Vec<u8>)
        ensures
            r@ == frame(get_atu_mode_id(), seq![]),
    {
        let none: [u8; 0] = [];
        frame_command(get_atu_mode_id_bytes(), &none)
    }

    /// What `parse` gives for a response: the value of its one byte, or `InvalidResponseData`
    /// holding the value.
    pub open spec fn spec_parse_response(bytes: Seq<u8>) -> Result<AtuMode, Failure> {
        match spec_validate_response(bytes, get_atu_mode_id(), 1) {
            Ok(v) => match AtuMode::spec_from_byte(v[0]) {
                Some(x) => Ok(x),
                None => Err(Failure::ResponseData(v)),
            },
            Err(f) => Err(f),
        }
    }

    pub fn parse(&self, bytes: &[u8]) -> (r: Result<AtuMode, RigError>)
        ensures
            agrees(r, Self::spec_parse_response(bytes@)),
    {
        match validate_response(bytes, get_atu_mode_id_bytes(), 1) {
            Ok(d) => match AtuMode::from_repr(d[0]) {
                Some(x) => Ok(x),
                None => Err(invalid_response_data(d)),
            },
            Err(e) => Err(e),
        }
    }
}

/// A `GetAtuMode` reply reads as the `AtuMode` whose wire byte is its value byte; a byte that names no
/// variant is an `InvalidResponseData` error holding the value.
pub proof fn lemma_get_atu_mode_reply(v: Seq<u8>)
    requires
        v.len() == 1,
    ensures
        GetAtuMode::spec_parse_response(frame(get_atu_mode_id(), v)) matches Ok(m) ==> m.spec_byte() == v[0],
        AtuMode::spec_from_byte(v[0]) is Some ==> GetAtuMode::spec_parse_response(frame(get_atu_mode_id(), v)) is Ok,
        AtuMode::spec_from_byte(v[0]) is None ==> GetAtuMode::spec_parse_response(frame(get_atu_mode_id(), v)) == Err::<AtuMode, Failure>(Failure::ResponseData(v)),
{
    lemma_framed_value_reads_back(get_atu_mode_id(), v);
}

/// `AT`
pub open spec fn set_atu_mode_id() -> Seq<u8> {
    seq![0x41, 0x54]
}

fn set_atu_mode_id_bytes() -> (r: &'static [u8])
    ensures
        r@ == set_atu_mode_id(),
{
    &[0x41, 0x54]
}

/// Set the ATU (antenna tuner) mode (`AT`).
#[derive(Clone, Copy, Debug, PartialEq, Eq)]
pub struct SetAtuMode {
    pub mode: AtuMode,
}

impl SetAtuMode {
    /// Turn the ATU into bypass mode, no tuning will be active.
    pub fn to_bypassed() -> (r: SetAtuMode)
        ensures
            r.mode == AtuMode::Bypassed,
    {
        SetAtuMode { mode: AtuMode::Bypassed }
    }

    /// Turn the ATU into inline mode, tuning will be active.
    pub fn to_inline() -> (r: SetAtuMode)
        ensures
            r.mode == AtuMode::Inline,
    {
        SetAtuMode { mode: AtuMode::Inline }
    }

    /// Instruct the ATU to begin tuning.
    pub fn to_tuning() -> (r: SetAtuMode)
        ensures
            r.mode == AtuMode::Tuning,
    {
        SetAtuMode { mode: AtuMode::Tuning }
    }

    pub open spec fn spec_args(self) -> Seq<u8> {
        seq![self.mode.spec_byte()]
    }

    pub fn to_bytes(&self) -> (r: Vec<u8>)
        ensures
            r@ == frame(set_atu_mode_id(), self.spec_args()),
    {
        let args: [u8; 1] = [self.mode.as_byte()];
        assert(args@ =~= self.spec_args());
        frame_command(set_atu_mode_id_bytes(), &args)
    }
}

/// `SetAtuMode` sends exactly one byte, the wire byte of `mode`.
pub proof fn lemma_set_atu_mode_argument(s: SetAtuMode)
    ensures
        s.spec_args().len() == 1,
        s.spec_args()[0] == s.mode.spec_byte(),
{
}

/// `BI`
pub open spec fn get_band_independence_state_id() -> Seq<u8> {
    seq![0x42, 0x49]
}

fn get_band_independence_state_id_bytes() -> (r: &'static [u8])
    ensures
        r@ == get_band_independence_state_id(),
{
    &[0x42, 0x49]
}

/// Get the band independence state (`BI`).
#[derive(Clone, Copy, Debug, PartialEq, Eq)]
pub struct GetBandIndependenceState;

impl GetBandIndependenceState {
    pub fn to_bytes(&self) -> (r: Vec<u8>)
        ensures
            r@ == frame(get_band_independence_state_id(), seq![]),
    {
        let none: [u8; 0] = [];
        frame_command(get_band_independence_state_id_bytes(), &none)
    }

    pub open spec fn spec_parse_response(bytes: Seq<u8>) -> Result<bool, Failure> {
        match spec_validate_response(bytes, get_band_independence_state_id(), 1) {
            Ok(v) => spec_bool_1_0(v[0]),
            Err(f) => Err(f),
        }
    }

    pub fn parse(&self, bytes: &[u8]) -> (r: Result<bool, RigError>)
        ensures
            agrees(r, Self::spec_parse_response(bytes@)),
    {
        match validate_response(bytes, get_band_independence_state_id_bytes(), 1) {
            Ok(d) => bool_from_ascii_1_0(d[0]),
            Err(e) => Err(e),
        }
    }
}

/// A `GetBandIndependenceState` reply whose value byte is `1` reads as `true`, `0` as `false`; any other byte is a
/// `ParseBoolean` error.
pub proof fn lemma_get_band_independence_state_reply(v: Seq<u8>)
    requires
        v.len() == 1,
    ensures
        v[0] == 0x31 ==> GetBandIndependenceState::spec_parse_response(frame(get_band_independence_state_id(), v)) == Ok::<bool, Failure>(true),
        v[0] == 0x30 ==> GetBandIndependenceState::spec_parse_response(frame(get_band_independence_state_id(), v)) == Ok::<bool, Failure>(false),
        v[0] != 0x30 && v[0] != 0x31 ==> GetBandIndependenceState::spec_parse_response(frame(get_band_independence_state_id(), v)) == Err::<bool, Failure>(Failure::Boolean(v[0])),
{
    lemma_framed_value_reads_back(get_band_independence_state_id(), v);
}

/// `BI`
pub open spec fn set_band_independence_state_id() -> Seq<u8> {
    seq![0x42, 0x49]
}

fn set_band_independence_state_id_bytes() -> (r: &'static [u8])
    ensures
        r@ == set_band_independence_state_id(),
{
    &[0x42, 0x49]
}

/// Set the band independence state (`BI`).
#[derive(Clone, Copy, Debug, PartialEq, Eq)]
pub struct SetBandIndependenceState {
    pub state: bool,
}

impl SetBandIndependenceState {
    pub open spec fn spec_args(self) -> Seq<u8> {
        seq![if self.state { ASCII_DIGIT_ONE } else { ASCII_DIGIT_ZERO }]
    }

    pub fn to_bytes(&self) -> (r: Vec<u8>)
        ensures
            r@ == frame(set_band_independence_state_id(), self.spec_args()),
    {
        let args: [u8; 1] = [if self.state { ASCII_DIGIT_ONE } else { ASCII_DIGIT_ZERO }];
        assert(args@ =~= self.spec_args());
        frame_command(set_band_independence_state_id_bytes(), &args)
    }
}

/// `SetBandIndependenceState` sends `1` when `state` is set and `0` when it is clear.
pub proof fn lemma_set_band_independence_state_argument(s: SetBandIndependenceState)
    ensures
        s.state ==> s.spec_args() == seq![0x31u8],
        !s.state ==> s.spec_args() == seq![0x30u8],
{
}

/// `CW`
pub open spec fn set_cw_sidetone_pitch_id() -> Seq<u8> {
    seq![0x43, 0x57]
}

fn set_cw_sidetone_pitch_id_bytes() -> (r: &'static [u8])
    ensures
        r@ == set_cw_sidetone_pitch_id(),
{
    &[0x43, 0x57]
}

/// Set the CW sidetone pitch in Hz (`CW`).
#[derive(Clone, Copy, Debug, PartialEq, Eq)]
pub struct SetCwSidetonePitch {
    pub pitch_hz: u16,
}

impl SetCwSidetonePitch {
    /// The values the command accepts.
    pub open spec fn spec_in_range(self) -> bool {
        300 <= self.pitch_hz <= 800
    }

    /// The argument bytes.
    pub open spec fn spec_args(self) -> Seq<u8> {
        uint_args(self.pitch_hz as u32, 3)
    }

    /// The command, or `InvalidArgumentValue` for a value out of range.
    pub fn to_bytes(&self) -> (r: Result<Vec<u8>, RigError>)
        ensures
            self.spec_in_range() ==> (r matches Ok(b) && b@ == frame(set_cw_sidetone_pitch_id(), self.spec_args())),
            !self.spec_in_range() ==> (r matches Err(e) && e.fails_with(
                Failure::ArgumentValue("hz"@, "u16"@, decimal_string(self.pitch_hz as int)),
            )),
    {
        encode_uint_in_range(set_cw_sidetone_pitch_id_bytes(), "hz", "u16", self.pitch_hz as u32, 300, 800, 3)
    }
}

/// `SetCwSidetonePitch` accepts `pitch_hz` when `300 <= s.pitch_hz <= 800` and sends it as decimal digits, zero-padded to 3.
pub proof fn lemma_set_cw_sidetone_pitch_argument(s: SetCwSidetonePitch)
    ensures
        s.spec_in_range() == (300 <= s.pitch_hz <= 800),
        all_digits(s.spec_args()),
        digits_value(s.spec_args()) == s.pitch_hz,
        (s.pitch_hz as nat) < pow10(3) ==> s.spec_args().len() == 3,
{
    lemma_padded_decimal_value(s.pitch_hz as nat, 3);
    if (s.pitch_hz as nat) < pow10(3) {
        lemma_num_digits_le(s.pitch_hz as nat, 3);
    }
}

/// `DA`
pub open spec fn get_digital_audio_routing_mode_id() -> Seq<u8> {
    seq![0x44, 0x41]
}

fn get_digital_audio_routing_mode_id_bytes() -> (r: &'static [u8])
    ensures
        r@ == get_digital_audio_routing_mode_id(),
{
    &[0x44, 0x41]
}

/// Get the digital audio routing mode (`DA`).
#[derive(Clone, Copy, Debug, PartialEq, Eq)]
pub struct GetDigitalAudioRoutingMode;

impl GetDigitalAudioRoutingMode {
    pub fn to_bytes(&self) -> (r: Vec<u8>)
        ensures
            r@ == frame(get_digital_audio_routing_mode_id(), seq![]),
    {
        let none: [u8; 0] = [];
        frame_command(get_digital_audio_routing_mode_id_bytes(), &none)
    }

    /// What `parse` gives for a response: the value of its one byte, or `InvalidResponseData`
    /// holding the value.
    pub open spec fn spec_parse_response(bytes: Seq<u8>) -> Result<DigitalAudioRoutingMode, Failure> {
        match spec_validate_response(bytes, get_digital_audio_routing_mode_id(), 1) {
            Ok(v) => match DigitalAudioRoutingMode::spec_from_byte(v[0]) {
                Some(x) => Ok(x),
                None => Err(Failure::ResponseData(v)),
            },
            Err(f) => Err(f),
        }
    }

    pub fn parse(&self, bytes: &[u8]) -> (r: Result<DigitalAudioRoutingMode, RigError>)
        ensures
            agrees(r, Self::spec_parse_response(bytes@)),
    {
        match validate_response(bytes, get_digital_audio_routing_mode_id_bytes(), 1) {
            Ok(d) => match DigitalAudioRoutingMode::from_repr(d[0]) {
                Some(x) => Ok(x),
                None => Err(invalid_response_data(d)),
            },
            Err(e) => Err(e),
        }
    }
}

/// A `GetDigitalAudioRoutingMode` reply reads as the `DigitalAudioRoutingMode` whose wire byte is its value byte; a byte that names no
/// variant is an `InvalidResponseData` error holding the value.
pub proof fn lemma_get_digital_audio_routing_mode_reply(v: Seq<u8>)
    requires
        v.len() == 1,
    ensures
        GetDigitalAudioRoutingMode::spec_parse_response(frame(get_digital_audio_routing_mode_id(), v)) matches Ok(m) ==> m.spec_byte() == v[0],
        DigitalAudioRoutingMode::spec_from_byte(v[0]) is Some ==> GetDigitalAudioRoutingMode::spec_parse_response(frame(get_digital_audio_routing_mode_id(), v)) is Ok,
        DigitalAudioRoutingMode::spec_from_byte(v[0]) is None ==> GetDigitalAudioRoutingMode::spec_parse_response(frame(get_digital_audio_routing_mode_id(), v)) == Err::<DigitalAudioRoutingMode, Failure>(Failure::ResponseData(v)),
{
    lemma_framed_value_reads_back(get_digital_audio_routing_mode_id(), v);
}

/// `DA`
pub open spec fn set_digital_audio_routing_mode_id() -> Seq<u8> {
    seq![0x44, 0x41]
}

fn set_digital_audio_routing_mode_id_bytes() -> (r: &'static [u8])
    ensures
        r@ == set_digital_audio_routing_mode_id(),
{
    &[0x44, 0x41]
}

/// Set the digital audio routing mode (`DA`).
#[derive(Clone, Copy, Debug, PartialEq, Eq)]
pub struct SetDigitalAudioRoutingMode {
    pub mode: DigitalAudioRoutingMode,
}

impl SetDigitalAudioRoutingMode {
    pub fn to_analog() -> (r: SetDigitalAudioRoutingMode)
        ensures
            r.mode == DigitalAudioRoutingMode::Analog,
    {
        SetDigitalAudioRoutingMode { mode: DigitalAudioRoutingMode::Analog }
    }

    pub fn to_digital_out() -> (r: SetDigitalAudioRoutingMode)
        ensures
            r.mode == DigitalAudioRoutingMode::DigitalOut,
    {
        SetDigitalAudioRoutingMode { mode: DigitalAudioRoutingMode::DigitalOut }
    }

    pub fn to_digital_in() -> (r: SetDigitalAudioRoutingMode)
        ensures
            r.mode == DigitalAudioRoutingMode::DigitalIn,
    {
        SetDigitalAudioRoutingMode { mode: DigitalAudioRoutingMode::DigitalIn }
    }

    pub fn to_full_digital() -> (r: SetDigitalAudioRoutingMode)
        ensures
            r.mode == DigitalAudioRoutingMode::FullDigital,
    {
        SetDigitalAudioRoutingMode { mode: DigitalAudioRoutingMode::FullDigital }
    }

    pub open spec fn spec_args(self) -> Seq<u8> {
        seq![self.mode.spec_byte()]
    }

    pub fn to_bytes(&self) -> (r: Vec<u8>)
        ensures
            r@ == frame(set_digital_audio_routing_mode_id(), self.spec_args()),
    {
        let args: [u8; 1] = [self.mode.as_byte()];
        assert(args@ =~= self.spec_args());
        frame_command(set_digital_audio_routing_mode_id_bytes(), &args)
    }
}

/// `SetDigitalAudioRoutingMode` sends exactly one byte, the wire byte of `mode`.
pub proof fn lemma_set_digital_audio_routing_mode_argument(s: SetDigitalAudioRoutingMode)
    ensures
        s.spec_args().len() == 1,
        s.spec_args()[0] == s.mode.spec_byte(),
{
}

/// `EC`
pub open spec fn set_command_echo_state_id() -> Seq<u8> {
    seq![0x45, 0x43]
}

fn set_command_echo_state_id_bytes() -> (r: &'static [u8])
    ensures
        r@ == set_command_echo_state_id(),
{
    &[0x45, 0x43]
}

/// Set whether commands received on RS-232 are echoed back to the sender (`EC`).
#[derive(Clone, Copy, Debug, PartialEq, Eq)]
pub struct SetCommandEchoState {
    pub state: bool,
}

impl SetCommandEchoState {
    pub open spec fn spec_args(self) -> Seq<u8> {
        seq![if self.state { ASCII_DIGIT_ONE } else { ASCII_DIGIT_ZERO }]
    }

    pub fn to_bytes(&self) -> (r: Vec<u8>)
        ensures
            r@ == frame(set_command_echo_state_id(), self.spec_args()),
    {
        let args: [u8; 1] = [if self.state { ASCII_DIGIT_ONE } else { ASCII_DIGIT_ZERO }];
        assert(args@ =~= self.spec_args());
        frame_command(set_command_echo_state_id_bytes(), &args)
    }
}

/// `SetCommandEchoState` sends `1` when `state` is set and `0` when it is clear.
pub proof fn lemma_set_command_echo_state_argument(s: SetCommandEchoState)
    ensures
        s.state ==> s.spec_args() == seq![0x31u8],
        !s.state ==> s.spec_args() == seq![0x30u8],
{
}

/// `ER`
pub open spec fn get_error_reporting_state_id() -> Seq<u8> {
    seq![0x45, 0x52]
}

fn get_error_reporting_state_id_bytes() -> (r: &'static [u8])
    ensures
        r@ == get_error_reporting_state_id(),
{
    &[0x45, 0x52]
}

/// Get whether unsolicited error reports are enabled (`ER`).
#[derive(Clone, Copy, Debug, PartialEq, Eq)]
pub struct GetErrorReportingState;

impl GetErrorReportingState {
    pub fn to_bytes(&self) -> (r: Vec<u8>)
        ensures
            r@ == frame(get_error_reporting_state_id(), seq![]),
    {
        let none: [u8; 0] = [];
        frame_command(get_error_reporting_state_id_bytes(), &none)
    }

    pub open spec fn spec_parse_response(bytes: Seq<u8>) -> Result<bool, Failure> {
        match spec_validate_response(bytes, get_error_reporting_state_id(), 1) {
            Ok(v) => spec_bool_1_0(v[0]),
            Err(f) => Err(f),
        }
    }

    pub fn parse(&self, bytes: &[u8]) -> (r: Result<bool, RigError>)
        ensures
            agrees(r, Self::spec_parse_response(bytes@)),
    {
        match validate_response(bytes, get_error_reporting_state_id_bytes(), 1) {
            Ok(d) => bool_from_ascii_1_0(d[0]),
            Err(e) => Err(e),
        }
    }
}

/// A `GetErrorReportingState` reply whose value byte is `1` reads as `true`, `0` as `false`; any other byte is a
/// `ParseBoolean` error.
pub proof fn lemma_get_error_reporting_state_reply(v: Seq<u8>)
    requires
        v.len() == 1,
    ensures
        v[0] == 0x31 ==> GetErrorReportingState::spec_parse_response(frame(get_error_reporting_state_id(), v)) == Ok::<bool, Failure>(true),
        v[0] == 0x30 ==> GetErrorReportingState::spec_parse_response(frame(get_error_reporting_state_id(), v)) == Ok::<bool, Failure>(false),
        v[0] != 0x30 && v[0] != 0x31 ==> GetErrorReportingState::spec_parse_response(frame(get_error_reporting_state_id(), v)) == Err::<bool, Failure>(Failure::Boolean(v[0])),
{
    lemma_framed_value_reads_back(get_error_reporting_state_id(), v);
}

/// `ER`
pub open spec fn set_error_reporting_state_id() -> Seq<u8> {
    seq![0x45, 0x52]
}

fn set_error_reporting_state_id_bytes() -> (r: &'static [u8])
    ensures
        r@ == set_error_reporting_state_id(),
{
    &[0x45, 0x52]
}

/// Set whether unsolicited error reports are enabled (`ER`).
#[derive(Clone, Copy, Debug, PartialEq, Eq)]
pub struct SetErrorReportingState {
    pub state: bool,
}

impl SetErrorReportingState {
    pub open spec fn spec_args(self) -> Seq<u8> {
        seq![if self.state { ASCII_DIGIT_ONE } else { ASCII_DIGIT_ZERO }]
    }

    pub fn to_bytes(&self) -> (r: Vec<u8>)
        ensures
            r@ == frame(set_error_reporting_state_id(), self.spec_args()),
    {
        let args: [u8; 1] = [if self.state { ASCII_DIGIT_ONE } else { ASCII_DIGIT_ZERO }];
        assert(args@ =~= self.spec_args());
        frame_command(set_error_reporting_state_id_bytes(), &args)
    }
}

/// `SetErrorReportingState` sends `1` when `state` is set and `0` when it is clear.
pub proof fn lemma_set_error_reporting_state_argument(s: SetErrorReportingState)
    ensures
        s.state ==> s.spec_args() == seq![0x31u8],
        !s.state ==> s.spec_args() == seq![0x30u8],
{
}

/// `FC`
pub open spec fn center_panadapter_on_vfo_a_id() -> Seq<u8> {
    seq![0x46, 0x43]
}

fn center_panadapter_on_vfo_a_id_bytes() -> (r: &'static [u8])
    ensures
        r@ == center_panadapter_on_vfo_a_id(),
{
    &[0x46, 0x43]
}

/// Center the panadapter on VFO A's current frequency (`FC`).
#[derive(Clone, Copy, Debug, PartialEq, Eq)]
pub struct CenterPanadapterOnVfoA;

impl CenterPanadapterOnVfoA {
    pub fn to_bytes(&self) -> (r: Vec<u8>)
        ensures
            r@ == frame(center_panadapter_on_vfo_a_id(), seq![]),
    {
        let none: [u8; 0] = [];
        frame_command(center_panadapter_on_vfo_a_id_bytes(), &none)
    }
}

/// `FC$`
pub open spec fn center_panadapter_on_vfo_b_id() -> Seq<u8> {
    seq![0x46, 0x43, 0x24]
}

fn center_panadapter_on_vfo_b_id_bytes() -> (r: &'static [u8])
    ensures
        r@ == center_panadapter_on_vfo_b_id(),
{
    &[0x46, 0x43, 0x24]
}

/// Center the panadapter on VFO B's current frequency (`FC$`).
#[derive(Clone, Copy, Debug, PartialEq, Eq)]
pub struct CenterPanadapterOnVfoB;

impl CenterPanadapterOnVfoB {
    pub fn to_bytes(&self) -> (r: Vec<u8>)
        ensures
            r@ == frame(center_panadapter_on_vfo_b_id(), seq![]),
    {
        let none: [u8; 0] = [];
        frame_command(center_panadapter_on_vfo_b_id_bytes(), &none)
    }
}

/// `FP`
pub open spec fn get_vfo_a_filter_preset_slot_id() -> Seq<u8> {
    seq![0x46, 0x50]
}

fn get_vfo_a_filter_preset_slot_id_bytes() -> (r: &'static [u8])
    ensures
        r@ == get_vfo_a_filter_preset_slot_id(),
{
    &[0x46, 0x50]
}

/// Get the active filter preset slot for VFO A (`FP`).
#[derive(Clone, Copy, Debug, PartialEq, Eq)]
pub struct GetVfoAFilterPresetSlot;

impl GetVfoAFilterPresetSlot {
    pub fn to_bytes(&self) -> (r: Vec<u8>)
        ensures
            r@ == frame(get_vfo_a_filter_preset_slot_id(), seq![]),
    {
        let none: [u8; 0] = [];
        frame_command(get_vfo_a_filter_preset_slot_id_bytes(), &none)
    }

    pub open spec fn spec_parse_response(bytes: Seq<u8>) -> Result<u8, Failure> {
        match spec_validate_response(bytes, get_vfo_a_filter_preset_slot_id(), 1) {
            Ok(v) => spec_u8_field(v),
            Err(f) => Err(f),
        }
    }

    pub fn parse(&self, bytes: &[u8]) -> (r: Result<u8, RigError>)
        ensures
            agrees(r, Self::spec_parse_response(bytes@)),
    {
        match validate_response(bytes, get_vfo_a_filter_preset_slot_id_bytes(), 1) {
            Ok(d) => {
                proof {
                    lemma_leading_value_bound(d@);
                    lemma_pow10_values();
                }
                u8_from_ascii(d)
            },
            Err(e) => Err(e),
        }
    }
}

/// A `GetVfoAFilterPresetSlot` reply of 1 value bytes reads as the decimal number they spell; a value with a
/// byte that is not a digit is an `InvalidResponseData` error holding the value.
pub proof fn lemma_get_vfo_a_filter_preset_slot_reply(v: Seq<u8>)
    requires
        v.len() == 1,
    ensures
        all_digits(v) && digits_value(v) <= 255 ==> GetVfoAFilterPresetSlot::spec_parse_response(frame(get_vfo_a_filter_preset_slot_id(), v)) == Ok::<u8, Failure>(digits_value(v) as u8),
        !all_digits(v) ==> GetVfoAFilterPresetSlot::spec_parse_response(frame(get_vfo_a_filter_preset_slot_id(), v)) == Err::<u8, Failure>(Failure::ResponseData(v)),
{
    lemma_framed_value_reads_back(get_vfo_a_filter_preset_slot_id(), v);
}

/// `FP$`
pub open spec fn get_vfo_b_filter_preset_slot_id() -> Seq<u8> {
    seq![0x46, 0x50, 0x24]
}

fn get_vfo_b_filter_preset_slot_id_bytes() -> (r: &'static [u8])
    ensures
        r@ == get_vfo_b_filter_preset_slot_id(),
{
    &[0x46, 0x50, 0x24]
}

/// Get the active filter preset slot for VFO B (`FP$`).
#[derive(Clone, Copy, Debug, PartialEq, Eq)]
pub struct GetVfoBFilterPresetSlot;

impl GetVfoBFilterPresetSlot {
    pub fn to_bytes(&self) -> (r: Vec<u8>)
        ensures
            r@ == frame(get_vfo_b_filter_preset_slot_id(), seq![]),
    {
        let none: [u8; 0] = [];
        frame_command(get_vfo_b_filter_preset_slot_id_bytes(), &none)
    }

    pub open spec fn spec_parse_response(bytes: Seq<u8>) -> Result<u8, Failure> {
        match spec_validate_response(bytes, get_vfo_b_filter_preset_slot_id(), 1) {
            Ok(v) => spec_u8_field(v),
            Err(f) => Err(f),
        }
    }

    pub fn parse(&self, bytes: &[u8]) -> (r: Result<u8, RigError>)
        ensures
            agrees(r, Self::spec_parse_response(bytes@)),
    {
        match validate_response(bytes, get_vfo_b_filter_preset_slot_id_bytes(), 1) {
            Ok(d) => {
                proof {
                    lemma_leading_value_bound(d@);
                    lemma_pow10_values();
                }
                u8_from_ascii(d)
            },
            Err(e) => Err(e),
        }
    }
}

/// A `GetVfoBFilterPresetSlot` reply of 1 value bytes reads as the decimal number they spell; a value with a
/// byte that is not a digit is an `InvalidResponseData` error holding the value.
pub proof fn lemma_get_vfo_b_filter_preset_slot_reply(v: Seq<u8>)
    requires
        v.len() == 1,
    ensures
        all_digits(v) && digits_value(v) <= 255 ==> GetVfoBFilterPresetSlot::spec_parse_response(frame(get_vfo_b_filter_preset_slot_id(), v)) == Ok::<u8, Failure>(digits_value(v) as u8),
        !all_digits(v) ==> GetVfoBFilterPresetSlot::spec_parse_response(frame(get_vfo_b_filter_preset_slot_id(), v)) == Err::<u8, Failure>(Failure::ResponseData(v)),
{
    lemma_framed_value_reads_back(get_vfo_b_filter_preset_slot_id(), v);
}

/// `FP`
pub open spec fn set_vfo_a_filter_preset_slot_id() -> Seq<u8> {
    seq![0x46, 0x50]
}

fn set_vfo_a_filter_preset_slot_id_bytes() -> (r: &'static [u8])
    ensures
        r@ == set_vfo_a_filter_preset_slot_id(),
{
    &[0x46, 0x50]
}

/// Set the active filter preset slot for VFO A (`FP`).
#[derive(Clone, Copy, Debug, PartialEq, Eq)]
pub struct SetVfoAFilterPresetSlot {
    pub preset: u8,
}

impl SetVfoAFilterPresetSlot {
    /// The values the command accepts.
    pub open spec fn spec_in_range(self) -> bool {
        1 <= self.preset <= 8
    }

    /// The argument bytes.
    pub open spec fn spec_args(self) -> Seq<u8> {
        uint_args(self.preset as u32, 1)
    }

    /// The command, or `InvalidArgumentValue` for a value out of range.
    pub fn to_bytes(&self) -> (r: Result<Vec<u8>, RigError>)
        ensures
            self.spec_in_range() ==> (r matches Ok(b) && b@ == frame(set_vfo_a_filter_preset_slot_id(), self.spec_args())),
            !self.spec_in_range() ==> (r matches Err(e) && e.fails_with(
                Failure::ArgumentValue("preset"@, "u8"@, decimal_string(self.preset as int)),
            )),
    {
        encode_uint_in_range(set_vfo_a_filter_preset_slot_id_bytes(), "preset", "u8", self.preset as u32, 1, 8, 1)
    }
}

/// `SetVfoAFilterPresetSlot` accepts `preset` when `1 <= s.preset <= 8` and sends it as decimal digits, zero-padded to 1.
pub proof fn lemma_set_vfo_a_filter_preset_slot_argument(s: SetVfoAFilterPresetSlot)
    ensures
        s.spec_in_range() == (1 <= s.preset <= 8),
        all_digits(s.spec_args()),
        digits_value(s.spec_args()) == s.preset,
        (s.preset as nat) < pow10(1) ==> s.spec_args().len() == 1,
{
    lemma_padded_decimal_value(s.preset as nat, 1);
    if (s.preset as nat) < pow10(1) {
        lemma_num_digits_le(s.preset as nat, 1);
    }
}

/// `FP$`
pub open spec fn set_vfo_b_filter_preset_slot_id() -> Seq<u8> {
    seq![0x46, 0x50, 0x24]
}

fn set_vfo_b_filter_preset_slot_id_bytes() -> (r: &'static [u8])
    ensures
        r@ == set_vfo_b_filter_preset_slot_id(),
{
    &[0x46, 0x50, 0x24]
}

/// Set the active filter preset slot for VFO B (`FP$`).
#[derive(Clone, Copy, Debug, PartialEq, Eq)]
pub struct SetVfoBFilterPresetSlot {
    pub preset: u8,
}

impl SetVfoBFilterPresetSlot {
    /// The values the command accepts.
    pub open spec fn spec_in_range(self) -> bool {
        1 <= self.preset <= 8
    }

    /// The argument bytes.
    pub open spec fn spec_args(self) -> Seq<u8> {
        uint_args(self.preset as u32, 1)
    }

    /// The command, or `InvalidArgumentValue` for a value out of range.
    pub fn to_bytes(&self) -> (r: Result<Vec<u8>, RigError>)
        ensures
            self.spec_in_range() ==> (r matches Ok(b) && b@ == frame(set_vfo_b_filter_preset_slot_id(), self.spec_args())),
            !self.spec_in_range() ==> (r matches Err(e) && e.fails_with(
                Failure::ArgumentValue("preset"@, "u8"@, decimal_string(self.preset as int)),
            )),
    {
        encode_uint_in_range(set_vfo_b_filter_preset_slot_id_bytes(), "preset", "u8", self.preset as u32, 1, 8, 1)
    }
}

/// `SetVfoBFilterPresetSlot` accepts `preset` when `1 <= s.preset <= 8` and sends it as decimal digits, zero-padded to 1.
pub proof fn lemma_set_vfo_b_filter_preset_slot_argument(s: SetVfoBFilterPresetSlot)
    ensures
        s.spec_in_range() == (1 <= s.preset <= 8),
        all_digits(s.spec_args()),
        digits_value(s.spec_args()) == s.preset,
        (s.preset as nat) < pow10(1) ==> s.spec_args().len() == 1,
{
    lemma_padded_decimal_value(s.preset as nat, 1);
    if (s.preset as nat) < pow10(1) {
        lemma_num_digits_le(s.preset as nat, 1);
    }
}

/// `GT`
pub open spec fn get_vfo_a_agc_mode_id() -> Seq<u8> {
    seq![0x47, 0x54]
}

fn get_vfo_a_agc_mode_id_bytes() -> (r: &'static [u8])
    ensures
        r@ == get_vfo_a_agc_mode_id(),
{
    &[0x47, 0x54]
}

/// Get the AGC mode for VFO A via the K4-extended command (`GT`).
#[derive(Clone, Copy, Debug, PartialEq, Eq)]
pub struct GetVfoAAgcMode;

impl GetVfoAAgcMode {
    pub fn to_bytes(&self) -> (r: Vec<u8>)
        ensures
            r@ == frame(get_vfo_a_agc_mode_id(), seq![]),
    {
        let none: [u8; 0] = [];
        frame_command(get_vfo_a_agc_mode_id_bytes(), &none)
    }

    pub open spec fn spec_parse_response(bytes: Seq<u8>) -> Result<u8, Failure> {
        match spec_validate_response(bytes, get_vfo_a_agc_mode_id(), 2) {
            Ok(v) => spec_u8_field(v),
            Err(f) => Err(f),
        }
    }

    pub fn parse(&self, bytes: &[u8]) -> (r: Result<u8, RigError>)
        ensures
            agrees(r, Self::spec_parse_response(bytes@)),
    {
        match validate_response(bytes, get_vfo_a_agc_mode_id_bytes(), 2) {
            Ok(d) => {
                proof {
                    lemma_leading_value_bound(d@);
                    lemma_pow10_values();
                }
                u8_from_ascii(d)
            },
            Err(e) => Err(e),
        }
    }
}

/// A `GetVfoAAgcMode` reply of 2 value bytes reads as the decimal number they spell; a value with a
/// byte that is not a digit is an `InvalidResponseData` error holding the value.
pub proof fn lemma_get_vfo_a_agc_mode_reply(v: Seq<u8>)
    requires
        v.len() == 2,
    ensures
        all_digits(v) && digits_value(v) <= 255 ==> GetVfoAAgcMode::spec_parse_response(frame(get_vfo_a_agc_mode_id(), v)) == Ok::<u8, Failure>(digits_value(v) as u8),
        !all_digits(v) ==> GetVfoAAgcMode::spec_parse_response(frame(get_vfo_a_agc_mode_id(), v)) == Err::<u8, Failure>(Failure::ResponseData(v)),
{
    lemma_framed_value_reads_back(get_vfo_a_agc_mode_id(), v);
}

/// `GT$`
pub open spec fn get_vfo_b_agc_mode_id() -> Seq<u8> {
    seq![0x47, 0x54, 0x24]
}

fn get_vfo_b_agc_mode_id_bytes() -> (r: &'static [u8])
    ensures
        r@ == get_vfo_b_agc_mode_id(),
{
    &[0x47, 0x54, 0x24]
}

/// Get the AGC mode for VFO B via the K4-extended command (`GT$`).
#[derive(Clone, Copy, Debug, PartialEq, Eq)]
pub struct GetVfoBAgcMode;

impl GetVfoBAgcMode {
    pub fn to_bytes(&self) -> (r: Vec<u8>)
        ensures
            r@ == frame(get_vfo_b_agc_mode_id(), seq![]),
    {
        let none: [u8; 0] = [];
        frame_command(get_vfo_b_agc_mode_id_bytes(), &none)
    }

    pub open spec fn spec_parse_response(bytes: Seq<u8>) -> Result<u8, Failure> {
        match spec_validate_response(bytes, get_vfo_b_agc_mode_id(), 2) {
            Ok(v) => spec_u8_field(v),
            Err(f) => Err(f),
        }
    }

    pub fn parse(&self, bytes: &[u8]) -> (r: Result<u8, RigError>)
        ensures
            agrees(r, Self::spec_parse_response(bytes@)),
    {
        match validate_response(bytes, get_vfo_b_agc_mode_id_bytes(), 2) {
            Ok(d) => {
                proof {
                    lemma_leading_value_bound(d@);
                    lemma_pow10_values();
                }
                u8_from_ascii(d)
            },
            Err(e) => Err(e),
        }
    }
}

/// A `GetVfoBAgcMode` reply of 2 value bytes reads as the decimal number they spell; a value with a
/// byte that is not a digit is an `InvalidResponseData` error holding the value.
pub proof fn lemma_get_vfo_b_agc_mode_reply(v: Seq<u8>)
    requires
        v.len() == 2,
    ensures
        all_digits(v) && digits_value(v) <= 255 ==> GetVfoBAgcMode::spec_parse_response(frame(get_vfo_b_agc_mode_id(), v)) == Ok::<u8, Failure>(digits_value(v) as u8),
        !all_digits(v) ==> GetVfoBAgcMode::spec_parse_response(frame(get_vfo_b_agc_mode_id(), v)) == Err::<u8, Failure>(Failure::ResponseData(v)),
{
    lemma_framed_value_reads_back(get_vfo_b_agc_mode_id(), v);
}

/// `GT`
pub open spec fn set_vfo_a_agc_mode_id() -> Seq<u8> {
    seq![0x47, 0x54]
}

fn set_vfo_a_agc_mode_id_bytes() -> (r: &'static [u8])
    ensures
        r@ == set_vfo_a_agc_mode_id(),
{
    &[0x47, 0x54]
}

/// Set the AGC mode for VFO A via the K4-extended command (`GT`).
#[derive(Clone, Copy, Debug, PartialEq, Eq)]
pub struct SetVfoAAgcMode {
    pub mode: u8,
}

impl SetVfoAAgcMode {
    /// The values the command accepts.
    pub open spec fn spec_in_range(self) -> bool {
        self.mode <= 3
    }

    /// The argument bytes.
    pub open spec fn spec_args(self) -> Seq<u8> {
        uint_args(self.mode as u32, 2)
    }

    /// The command, or `InvalidArgumentValue` for a value out of range.
    pub fn to_bytes(&self) -> (r: Result<Vec<u8>, RigError>)
        ensures
            self.spec_in_range() ==> (r matches Ok(b) && b@ == frame(set_vfo_a_agc_mode_id(), self.spec_args())),
            !self.spec_in_range() ==> (r matches Err(e) && e.fails_with(
                Failure::ArgumentValue("mode"@, "u8"@, decimal_string(self.mode as int)),
            )),
    {
        encode_uint_in_range(set_vfo_a_agc_mode_id_bytes(), "mode", "u8", self.mode as u32, 0, 3, 2)
    }
}

/// `SetVfoAAgcMode` accepts `mode` when `s.mode <= 3` and sends it as decimal digits, zero-padded to 2.
pub proof fn lemma_set_vfo_a_agc_mode_argument(s: SetVfoAAgcMode)
    ensures
        s.spec_in_range() == (s.mode <= 3),
        all_digits(s.spec_args()),
        digits_value(s.spec_args()) == s.mode,
        (s.mode as nat) < pow10(2) ==> s.spec_args().len() == 2,
{
    lemma_padded_decimal_value(s.mode as nat, 2);
    if (s.mode as nat) < pow10(2) {
        lemma_num_digits_le(s.mode as nat, 2);
    }
}

/// `GT$`
pub open spec fn set_vfo_b_agc_mode_id() -> Seq<u8> {
    seq![0x47, 0x54, 0x24]
}

fn set_vfo_b_agc_mode_id_bytes() -> (r: &'static [u8])
    ensures
        r@ == set_vfo_b_agc_mode_id(),
{
    &[0x47, 0x54, 0x24]
}

/// Set the AGC mode for VFO B via the K4-extended command (`GT$`).
#[derive(Clone, Copy, Debug, PartialEq, Eq)]
pub struct SetVfoBAgcMode {
    pub mode: u8,
}

impl SetVfoBAgcMode {
    /// The values the command accepts.
    pub open spec fn spec_in_range(self) -> bool {
        self.mode <= 3
    }

    /// The argument bytes.
    pub open spec fn spec_args(self) -> Seq<u8> {
        uint_args(self.mode as u32, 2)
    }

    /// The command, or `InvalidArgumentValue` for a value out of range.
    pub fn to_bytes(&self) -> (r: Result<Vec<u8>, RigError>)
        ensures
            self.spec_in_range() ==> (r matches Ok(b) && b@ == frame(set_vfo_b_agc_mode_id(), self.spec_args())),
            !self.spec_in_range() ==> (r matches Err(e) && e.fails_with(
                Failure::ArgumentValue("mode"@, "u8"@, decimal_string(self.mode as int)),
            )),
    {
        encode_uint_in_range(set_vfo_b_agc_mode_id_bytes(), "mode", "u8", self.mode as u32, 0, 3, 2)
    }
}

/// `SetVfoBAgcMode` accepts `mode` when `s.mode <= 3` and sends it as decimal digits, zero-padded to 2.
pub proof fn lemma_set_vfo_b_agc_mode_argument(s: SetVfoBAgcMode)
    ensures
        s.spec_in_range() == (s.mode <= 3),
        all_digits(s.spec_args()),
        digits_value(s.spec_args()) == s.mode,
        (s.mode as nat) < pow10(2) ==> s.spec_args().len() == 2,
{
    lemma_padded_decimal_value(s.mode as nat, 2);
    if (s.mode as nat) < pow10(2) {
        lemma_num_digits_le(s.mode as nat, 2);
    }
}

/// `ID`
pub open spec fn get_transceiver_id_id() -> Seq<u8> {
    seq![0x49, 0x44]
}

fn get_transceiver_id_id_bytes() -> (r: &'static [u8])
    ensures
        r@ == get_transceiver_id_id(),
{
    &[0x49, 0x44]
}

/// Get the radio identification string (`ID`).
#[derive(Clone, Copy, Debug, PartialEq, Eq)]
pub struct GetTransceiverId;

impl GetTransceiverId {
    pub fn to_bytes(&self) -> (r: Vec<u8>)
        ensures
            r@ == frame(get_transceiver_id_id(), seq![]),
    {
        let none: [u8; 0] = [];
        frame_command(get_transceiver_id_id_bytes(), &none)
    }

    pub open spec fn spec_parse_response(bytes: Seq<u8>) -> Result<u16, Failure> {
        match spec_validate_response(bytes, get_transceiver_id_id(), 3) {
            Ok(v) => spec_u16_field(v),
            Err(f) => Err(f),
        }
    }

    pub fn parse(&self, bytes: &[u8]) -> (r: Result<u16, RigError>)
        ensures
            agrees(r, Self::spec_parse_response(bytes@)),
    {
        match validate_response(bytes, get_transceiver_id_id_bytes(), 3) {
            Ok(d) => {
                proof {
                    lemma_leading_value_bound(d@);
                    lemma_pow10_values();
                }
                u16_from_ascii(d)
            },
            Err(e) => Err(e),
        }
    }
}

/// A `GetTransceiverId` reply of 3 value bytes reads as the decimal number they spell; a value with a
/// byte that is not a digit is an `InvalidResponseData` error holding the value.
pub proof fn lemma_get_transceiver_id_reply(v: Seq<u8>)
    requires
        v.len() == 3,
    ensures
        all_digits(v) && digits_value(v) <= u16::MAX ==> GetTransceiverId::spec_parse_response(frame(get_transceiver_id_id(), v)) == Ok::<u16, Failure>(digits_value(v) as u16),
        !all_digits(v) ==> GetTransceiverId::spec_parse_response(frame(get_transceiver_id_id(), v)) == Err::<u16, Failure>(Failure::ResponseData(v)),
{
    lemma_framed_value_reads_back(get_transceiver_id_id(), v);
}

/// `KP`
pub open spec fn get_keyer_paddle_emulation_mode_id() -> Seq<u8> {
    seq![0x4B, 0x50]
}

fn get_keyer_paddle_emulation_mode_id_bytes() -> (r: &'static [u8])
    ensures
        r@ == get_keyer_paddle_emulation_mode_id(),
{
    &[0x4B, 0x50]
}

/// Get the keyer paddle emulation mode (`KP`).
#[derive(Clone, Copy, Debug, PartialEq, Eq)]
pub struct GetKeyerPaddleEmulationMode;

impl GetKeyerPaddleEmulationMode {
    pub fn to_bytes(&self) -> (r: Vec<u8>)
        ensures
            r@ == frame(get_keyer_paddle_emulation_mode_id(), seq![]),
    {
        let none: [u8; 0] = [];
        frame_command(get_keyer_paddle_emulation_mode_id_bytes(), &none)
    }

    /// What `parse` gives for a response: the value of its one byte, or `InvalidResponseData`
    /// holding the value.
    pub open spec fn spec_parse_response(bytes: Seq<u8>) -> Result<KeyerPaddleEmulationMode, Failure> {
        match spec_validate_response(bytes, get_keyer_paddle_emulation_mode_id(), 1) {
            Ok(v) => match KeyerPaddleEmulationMode::spec_from_byte(v[0]) {
                Some(x) => Ok(x),
                None => Err(Failure::ResponseData(v)),
            },
            Err(f) => Err(f),
        }
    }

    pub fn parse(&self, bytes: &[u8]) -> (r: Result<KeyerPaddleEmulationMode, RigError>)
        ensures
            agrees(r, Self::spec_parse_response(bytes@)),
    {
        match validate_response(bytes, get_keyer_paddle_emulation_mode_id_bytes(), 1) {
            Ok(d) => match KeyerPaddleEmulationMode::from_repr(d[0]) {
                Some(x) => Ok(x),
                None => Err(invalid_response_data(d)),
            },
            Err(e) => Err(e),
        }
    }
}

/// A `GetKeyerPaddleEmulationMode` reply reads as the `KeyerPaddleEmulationMode` whose wire byte is its value byte; a byte that names no
/// variant is an `InvalidResponseData` error holding the value.
pub proof fn lemma_get_keyer_paddle_emulation_mode_reply(v: Seq<u8>)
    requires
        v.len() == 1,
    ensures
        GetKeyerPaddleEmulationMode::spec_parse_response(frame(get_keyer_paddle_emulation_mode_id(), v)) matches Ok(m) ==> m.spec_byte() == v[0],
        KeyerPaddleEmulationMode::spec_from_byte(v[0]) is Some ==> GetKeyerPaddleEmulationMode::spec_parse_response(frame(get_keyer_paddle_emulation_mode_id(), v)) is Ok,
        KeyerPaddleEmulationMode::spec_from_byte(v[0]) is None ==> GetKeyerPaddleEmulationMode::spec_parse_response(frame(get_keyer_paddle_emulation_mode_id(), v)) == Err::<KeyerPaddleEmulationMode, Failure>(Failure::ResponseData(v)),
{
    lemma_framed_value_reads_back(get_keyer_paddle_emulation_mode_id(), v);
}

/// `KP`
pub open spec fn set_keyer_paddle_emulation_mode_id() -> Seq<u8> {
    seq![0x4B, 0x50]
}

fn set_keyer_paddle_emulation_mode_id_bytes() -> (r: &'static [u8])
    ensures
        r@ == set_keyer_paddle_emulation_mode_id(),
{
    &[0x4B, 0x50]
}

/// Set the keyer paddle emulation mode (`KP`) .
#[derive(Clone, Copy, Debug, PartialEq, Eq)]
pub struct SetKeyerPaddleEmulationMode {
    pub mode: KeyerPaddleEmulationMode,
}

impl SetKeyerPaddleEmulationMode {
    pub fn to_normal() -> (r: SetKeyerPaddleEmulationMode)
        ensures
            r.mode == KeyerPaddleEmulationMode::Normal,
    {
        SetKeyerPaddleEmulationMode { mode: KeyerPaddleEmulationMode::Normal }
    }

    pub fn to_dit_only() -> (r: SetKeyerPaddleEmulationMode)
        ensures
            r.mode == KeyerPaddleEmulationMode::DitOnly,
    {
        SetKeyerPaddleEmulationMode { mode: KeyerPaddleEmulationMode::DitOnly }
    }

    pub fn to_dah_only() -> (r: SetKeyerPaddleEmulationMode)
        ensures
            r.mode == KeyerPaddleEmulationMode::DahOnly,
    {
        SetKeyerPaddleEmulationMode { mode: KeyerPaddleEmulationMode::DahOnly }
    }

    pub open spec fn spec_args(self) -> Seq<u8> {
        seq![self.mode.spec_byte()]
    }

    pub fn to_bytes(&self) -> (r: Vec<u8>)
        ensures
            r@ == frame(set_keyer_paddle_emulation_mode_id(), self.spec_args()),
    {
        let args: [u8; 1] = [self.mode.as_byte()];
        assert(args@ =~= self.spec_args());
        frame_command(set_keyer_paddle_emulation_mode_id_bytes(), &args)
    }
}

/// `SetKeyerPaddleEmulationMode` sends exactly one byte, the wire byte of `mode`.
pub proof fn lemma_set_keyer_paddle_emulation_mode_argument(s: SetKeyerPaddleEmulationMode)
    ensures
        s.spec_args().len() == 1,
        s.spec_args()[0] == s.mode.spec_byte(),
{
}

/// `KS`
pub open spec fn set_keyer_speed_id() -> Seq<u8> {
    seq![0x4B, 0x53]
}

fn set_keyer_speed_id_bytes() -> (r: &'static [u8])
    ensures
        r@ == set_keyer_speed_id(),
{
    &[0x4B, 0x53]
}

/// Set the keyer speed in WPM (`KS`).
#[derive(Clone, Copy, Debug, PartialEq, Eq)]
pub struct SetKeyerSpeed {
    pub wpm: u8,
}

impl SetKeyerSpeed {
    /// The values the command accepts.
    pub open spec fn spec_in_range(self) -> bool {
        8 <= self.wpm <= 100
    }

    /// The argument bytes.
    pub open spec fn spec_args(self) -> Seq<u8> {
        uint_args(self.wpm as u32, 3)
    }

    /// The command, or `InvalidArgumentValue` for a value out of range.
    pub fn to_bytes(&self) -> (r: Result<Vec<u8>, RigError>)
        ensures
            self.spec_in_range() ==> (r matches Ok(b) && b@ == frame(set_keyer_speed_id(), self.spec_args())),
            !self.spec_in_range() ==> (r matches Err(e) && e.fails_with(
                Failure::ArgumentValue("wpm"@, "u8"@, decimal_string(self.wpm as int)),
            )),
    {
        encode_uint_in_range(set_keyer_speed_id_bytes(), "wpm", "u8", self.wpm as u32, 8, 100, 3)
    }
}

/// `SetKeyerSpeed` accepts `wpm` when `8 <= s.wpm <= 100` and sends it as decimal digits, zero-padded to 3.
pub proof fn lemma_set_keyer_speed_argument(s: SetKeyerSpeed)
    ensures
        s.spec_in_range() == (8 <= s.wpm <= 100),
        all_digits(s.spec_args()),
        digits_value(s.spec_args()) == s.wpm,
        (s.wpm as nat) < pow10(3) ==> s.spec_args().len() == 3,
{
    lemma_padded_decimal_value(s.wpm as nat, 3);
    if (s.wpm as nat) < pow10(3) {
        lemma_num_digits_le(s.wpm as nat, 3);
    }
}

/// `LI`
pub open spec fn get_audio_line_input_level_id() -> Seq<u8> {
    seq![0x4C, 0x49]
}

fn get_audio_line_input_level_id_bytes() -> (r: &'static [u8])
    ensures
        r@ == get_audio_line_input_level_id(),
{
    &[0x4C, 0x49]
}

/// Get the line audio input level (`LI`).
#[derive(Clone, Copy, Debug, PartialEq, Eq)]
pub struct GetAudioLineInputLevel;

impl GetAudioLineInputLevel {
    pub fn to_bytes(&self) -> (r: Vec<u8>)
        ensures
            r@ == frame(get_audio_line_input_level_id(), seq![]),
    {
        let none: [u8; 0] = [];
        frame_command(get_audio_line_input_level_id_bytes(), &none)
    }

    pub open spec fn spec_parse_response(bytes: Seq<u8>) -> Result<u8, Failure> {
        match spec_validate_response(bytes, get_audio_line_input_level_id(), 3) {
            Ok(v) => spec_u8_field(v),
            Err(f) => Err(f),
        }
    }

    /// Reads the digits of a framed reply; a value above 255 is outside the domain.
    pub fn parse(&self, bytes: &[u8]) -> (r: Result<u8, RigError>)
        requires
            spec_validate_response(bytes@, get_audio_line_input_level_id(), 3) matches Ok(v) ==> leading_value(v) <= u8::MAX,
        ensures
            agrees(r, Self::spec_parse_response(bytes@)),
    {
        match validate_response(bytes, get_audio_line_input_level_id_bytes(), 3) {
            Ok(d) => {
                proof {
                    lemma_leading_value_bound(d@);
                    lemma_pow10_values();
                }
                u8_from_ascii(d)
            },
            Err(e) => Err(e),
        }
    }
}

/// A `GetAudioLineInputLevel` reply of 3 value bytes reads as the decimal number they spell; a value with a
/// byte that is not a digit is an `InvalidResponseData` error holding the value.
pub proof fn lemma_get_audio_line_input_level_reply(v: Seq<u8>)
    requires
        v.len() == 3,
    ensures
        all_digits(v) && digits_value(v) <= 255 ==> GetAudioLineInputLevel::spec_parse_response(frame(get_audio_line_input_level_id(), v)) == Ok::<u8, Failure>(digits_value(v) as u8),
        !all_digits(v) ==> GetAudioLineInputLevel::spec_parse_response(frame(get_audio_line_input_level_id(), v)) == Err::<u8, Failure>(Failure::ResponseData(v)),
{
    lemma_framed_value_reads_back(get_audio_line_input_level_id(), v);
}

/// `LI`
pub open spec fn set_audio_line_input_level_id() -> Seq<u8> {
    seq![0x4C, 0x49]
}

fn set_audio_line_input_level_id_bytes() -> (r: &'static [u8])
    ensures
        r@ == set_audio_line_input_level_id(),
{
    &[0x4C, 0x49]
}

/// Set the line audio input level (`LI`).
#[derive(Clone, Copy, Debug, PartialEq, Eq)]
pub struct SetAudioLineInputLevel {
    pub level: u8,
}

impl SetAudioLineInputLevel {
    /// The values the command accepts.
    pub open spec fn spec_in_range(self) -> bool {
        self.level <= 60
    }

    /// The argument bytes.
    pub open spec fn spec_args(self) -> Seq<u8> {
        uint_args(self.level as u32, 3)
    }

    /// The command, or `InvalidArgumentValue` for a value out of range.
    pub fn to_bytes(&self) -> (r: Result<Vec<u8>, RigError>)
        ensures
            self.spec_in_range() ==> (r matches Ok(b) && b@ == frame(set_audio_line_input_level_id(), self.spec_args())),
            !self.spec_in_range() ==> (r matches Err(e) && e.fails_with(
                Failure::ArgumentValue("level"@, "u8"@, decimal_string(self.level as int)),
            )),
    {
        encode_uint_in_range(set_audio_line_input_level_id_bytes(), "level", "u8", self.level as u32, 0, 60, 3)
    }
}

/// `SetAudioLineInputLevel` accepts `level` when `s.level <= 60` and sends it as decimal digits, zero-padded to 3.
pub proof fn lemma_set_audio_line_input_level_argument(s: SetAudioLineInputLevel)
    ensures
        s.spec_in_range() == (s.level <= 60),
        all_digits(s.spec_args()),
        digits_value(s.spec_args()) == s.level,
        (s.level as nat) < pow10(3) ==> s.spec_args().len() == 3,
{
    lemma_padded_decimal_value(s.level as nat, 3);
    if (s.level as nat) < pow10(3) {
        lemma_num_digits_le(s.level as nat, 3);
    }
}

/// `LO`
pub open spec fn get_audio_line_output_level_id() -> Seq<u8> {
    seq![0x4C, 0x4F]
}

fn get_audio_line_output_level_id_bytes() -> (r: &'static [u8])
    ensures
        r@ == get_audio_line_output_level_id(),
{
    &[0x4C, 0x4F]
}

/// Get the line audio output level (`LO`).
#[derive(Clone, Copy, Debug, PartialEq, Eq)]
pub struct GetAudioLineOutputLevel;

impl GetAudioLineOutputLevel {
    pub fn to_bytes(&self) -> (r: Vec<u8>)
        ensures
            r@ == frame(get_audio_line_output_level_id(), seq![]),
    {
        let none: [u8; 0] = [];
        frame_command(get_audio_line_output_level_id_bytes(), &none)
    }

    pub open spec fn spec_parse_response(bytes: Seq<u8>) -> Result<u8, Failure> {
        match spec_validate_response(bytes, get_audio_line_output_level_id(), 3) {
            Ok(v) => spec_u8_field(v),
            Err(f) => Err(f),
        }
    }

    /// Reads the digits of a framed reply; a value above 255 is outside the domain.
    pub fn parse(&self, bytes: &[u8]) -> (r: Result<u8, RigError>)
        requires
            spec_validate_response(bytes@, get_audio_line_output_level_id(), 3) matches Ok(v) ==> leading_value(v) <= u8::MAX,
        ensures
            agrees(r, Self::spec_parse_response(bytes@)),
    {
        match validate_response(bytes, get_audio_line_output_level_id_bytes(), 3) {
            Ok(d) => {
                proof {
                    lemma_leading_value_bound(d@);
                    lemma_pow10_values();
                }
                u8_from_ascii(d)
            },
            Err(e) => Err(e),
        }
    }
}

/// A `GetAudioLineOutputLevel` reply of 3 value bytes reads as the decimal number they spell; a value with a
/// byte that is not a digit is an `InvalidResponseData` error holding the value.
pub proof fn lemma_get_audio_line_output_level_reply(v: Seq<u8>)
    requires
        v.len() == 3,
    ensures
        all_digits(v) && digits_value(v) <= 255 ==> GetAudioLineOutputLevel::spec_parse_response(frame(get_audio_line_output_level_id(), v)) == Ok::<u8, Failure>(digits_value(v) as u8),
        !all_digits(v) ==> GetAudioLineOutputLevel::spec_parse_response(frame(get_audio_line_output_level_id(), v)) == Err::<u8, Failure>(Failure::ResponseData(v)),
{
    lemma_framed_value_reads_back(get_audio_line_output_level_id(), v);
}

/// `LO`
pub open spec fn set_audio_line_output_level_id() -> Seq<u8> {
    seq![0x4C, 0x4F]
}

fn set_audio_line_output_level_id_bytes() -> (r: &'static [u8])
    ensures
        r@ == set_audio_line_output_level_id(),
{
    &[0x4C, 0x4F]
}

/// Set the line audio output level (`LO`).
#[derive(Clone, Copy, Debug, PartialEq, Eq)]
pub struct SetAudioLineOutputLevel {
    pub level: u8,
}

impl SetAudioLineOutputLevel {
    /// The values the command accepts.
    pub open spec fn spec_in_range(self) -> bool {
        self.level <= 60
    }

    /// The argument bytes.
    pub open spec fn spec_args(self) -> Seq<u8> {
        uint_args(self.level as u32, 3)
    }

    /// The command, or `InvalidArgumentValue` for a value out of range.
    pub fn to_bytes(&self) -> (r: Result<Vec<u8>, RigError>)
        ensures
            self.spec_in_range() ==> (r matches Ok(b) && b@ == frame(set_audio_line_output_level_id(), self.spec_args())),
            !self.spec_in_range() ==> (r matches Err(e) && e.fails_with(
                Failure::ArgumentValue("level"@, "u8"@, decimal_string(self.level as int)),
            )),
    {
        encode_uint_in_range(set_audio_line_output_level_id_bytes(), "level", "u8", self.level as u32, 0, 60, 3)
    }
}

/// `SetAudioLineOutputLevel` accepts `level` when `s.level <= 60` and sends it as decimal digits, zero-padded to 3.
pub proof fn lemma_set_audio_line_output_level_argument(s: SetAudioLineOutputLevel)
    ensures
        s.spec_in_range() == (s.level <= 60),
        all_digits(s.spec_args()),
        digits_value(s.spec_args()) == s.level,
        (s.level as nat) < pow10(3) ==> s.spec_args().len() == 3,
{
    lemma_padded_decimal_value(s.level as nat, 3);
    if (s.level as nat) < pow10(3) {
        lemma_num_digits_le(s.level as nat, 3);
    }
}

/// `MI`
pub open spec fn get_mic_input_source_id() -> Seq<u8> {
    seq![0x4D, 0x49]
}

fn get_mic_input_source_id_bytes() -> (r: &'static [u8])
    ensures
        r@ == get_mic_input_source_id(),
{
    &[0x4D, 0x49]
}

/// Get the microphone input source (`MI`).
#[derive(Clone, Copy, Debug, PartialEq, Eq)]
pub struct GetMicInputSource;

impl GetMicInputSource {
    pub fn to_bytes(&self) -> (r: Vec<u8>)
        ensures
            r@ == frame(get_mic_input_source_id(), seq![]),
    {
        let none: [u8; 0] = [];
        frame_command(get_mic_input_source_id_bytes(), &none)
    }

    /// What `parse` gives for a response: the value of its one byte, or `InvalidResponseData`
    /// holding the value.
    pub open spec fn spec_parse_response(bytes: Seq<u8>) -> Result<MicInputSource, Failure> {
        match spec_validate_response(bytes, get_mic_input_source_id(), 1) {
            Ok(v) => match MicInputSource::spec_from_byte(v[0]) {
                Some(x) => Ok(x),
                None => Err(Failure::ResponseData(v)),
            },
            Err(f) => Err(f),
        }
    }

    pub fn parse(&self, bytes: &[u8]) -> (r: Result<MicInputSource, RigError>)
        ensures
            agrees(r, Self::spec_parse_response(bytes@)),
    {
        match validate_response(bytes, get_mic_input_source_id_bytes(), 1) {
            Ok(d) => match MicInputSource::from_repr(d[0]) {
                Some(x) => Ok(x),
                None => Err(invalid_response_data(d)),
            },
            Err(e) => Err(e),
        }
    }
}

/// A `GetMicInputSource` reply reads as the `MicInputSource` whose wire byte is its value byte; a byte that names no
/// variant is an `InvalidResponseData` error holding the value.
pub proof fn lemma_get_mic_input_source_reply(v: Seq<u8>)
    requires
        v.len() == 1,
    ensures
        GetMicInputSource::spec_parse_response(frame(get_mic_input_source_id(), v)) matches Ok(m) ==> m.spec_byte() == v[0],
        MicInputSource::spec_from_byte(v[0]) is Some ==> GetMicInputSource::spec_parse_response(frame(get_mic_input_source_id(), v)) is Ok,
        MicInputSource::spec_from_byte(v[0]) is None ==> GetMicInputSource::spec_parse_response(frame(get_mic_input_source_id(), v)) == Err::<MicInputSource, Failure>(Failure::ResponseData(v)),
{
    lemma_framed_value_reads_back(get_mic_input_source_id(), v);
}

/// `MI`
pub open spec fn set_mic_input_source_id() -> Seq<u8> {
    seq![0x4D, 0x49]
}

fn set_mic_input_source_id_bytes() -> (r: &'static [u8])
    ensures
        r@ == set_mic_input_source_id(),
{
    &[0x4D, 0x49]
}

/// Set the microphone input source (`MI`) (K4 only).
#[derive(Clone, Copy, Debug, PartialEq, Eq)]
pub struct SetMicInputSource {
    pub input: MicInputSource,
}

impl SetMicInputSource {
    /// Set the microphone input to the front panel.
    pub fn to_front_panel() -> (r: SetMicInputSource)
        ensures
            r.input == MicInputSource::Front,
    {
        SetMicInputSource { input: MicInputSource::Front }
    }

    /// Set the microphone input to the rear panel.
    pub fn to_rear_panel() -> (r: SetMicInputSource)
        ensures
            r.input == MicInputSource::Rear,
    {
        SetMicInputSource { input: MicInputSource::Rear }
    }

    /// Set the microphone input to USB.
    pub fn to_usb() -> (r: SetMicInputSource)
        ensures
            r.input == MicInputSource::Usb,
    {
        SetMicInputSource { input: MicInputSource::Usb }
    }

    /// Set the microphone input to Bluetooth.
    pub fn to_bluetooth() -> (r: SetMicInputSource)
        ensures
            r.input == MicInputSource::Bluetooth,
    {
        SetMicInputSource { input: MicInputSource::Bluetooth }
    }

    pub open spec fn spec_args(self) -> Seq<u8> {
        seq![self.input.spec_byte()]
    }

    pub fn to_bytes(&self) -> (r: Vec<u8>)
        ensures
            r@ == frame(set_mic_input_source_id(), self.spec_args()),
    {
        let args: [u8; 1] = [self.input.as_byte()];
        assert(args@ =~= self.spec_args());
        frame_command(set_mic_input_source_id_bytes(), &args)
    }
}

/// `SetMicInputSource` sends exactly one byte, the wire byte of `input`.
pub proof fn lemma_set_mic_input_source_argument(s: SetMicInputSource)
    ensures
        s.spec_args().len() == 1,
        s.spec_args()[0] == s.input.spec_byte(),
{
}

/// `MX`
pub open spec fn get_audio_mix_ratio_id() -> Seq<u8> {
    seq![0x4D, 0x58]
}

fn get_audio_mix_ratio_id_bytes() -> (r: &'static [u8])
    ensures
        r@ == get_audio_mix_ratio_id(),
{
    &[0x4D, 0x58]
}

/// Get the main/sub receiver audio mix ratio (`MX`).
#[derive(Clone, Copy, Debug, PartialEq, Eq)]
pub struct GetAudioMixRatio;

impl GetAudioMixRatio {
    pub fn to_bytes(&self) -> (r: Vec<u8>)
        ensures
            r@ == frame(get_audio_mix_ratio_id(), seq![]),
    {
        let none: [u8; 0] = [];
        frame_command(get_audio_mix_ratio_id_bytes(), &none)
    }

    pub open spec fn spec_parse_response(bytes: Seq<u8>) -> Result<u8, Failure> {
        match spec_validate_response(bytes, get_audio_mix_ratio_id(), 2) {
            Ok(v) => spec_u8_field(v),
            Err(f) => Err(f),
        }
    }

    pub fn parse(&self, bytes: &[u8]) -> (r: Result<u8, RigError>)
        ensures
            agrees(r, Self::spec_parse_response(bytes@)),
    {
        match validate_response(bytes, get_audio_mix_ratio_id_bytes(), 2) {
            Ok(d) => {
                proof {
                    lemma_leading_value_bound(d@);
                    lemma_pow10_values();
                }
                u8_from_ascii(d)
            },
            Err(e) => Err(e),
        }
    }
}

/// A `GetAudioMixRatio` reply of 2 value bytes reads as the decimal number they spell; a value with a
/// byte that is not a digit is an `InvalidResponseData` error holding the value.
pub proof fn lemma_get_audio_mix_ratio_reply(v: Seq<u8>)
    requires
        v.len() == 2,
    ensures
        all_digits(v) && digits_value(v) <= 255 ==> GetAudioMixRatio::spec_parse_response(frame(get_audio_mix_ratio_id(), v)) == Ok::<u8, Failure>(digits_value(v) as u8),
        !all_digits(v) ==> GetAudioMixRatio::spec_parse_response(frame(get_audio_mix_ratio_id(), v)) == Err::<u8, Failure>(Failure::ResponseData(v)),
{
    lemma_framed_value_reads_back(get_audio_mix_ratio_id(), v);
}

/// `MX`
pub open spec fn set_audio_mix_ratio_id() -> Seq<u8> {
    seq![0x4D, 0x58]
}

fn set_audio_mix_ratio_id_bytes() -> (r: &'static [u8])
    ensures
        r@ == set_audio_mix_ratio_id(),
{
    &[0x4D, 0x58]
}

/// Set the main/sub receiver audio mix ratio (`MX`).
#[derive(Clone, Copy, Debug, PartialEq, Eq)]
pub struct SetAudioMixRatio {
    pub ratio: u8,
}

impl SetAudioMixRatio {
    /// The values the command accepts.
    pub open spec fn spec_in_range(self) -> bool {
        self.ratio <= 99
    }

    /// The argument bytes.
    pub open spec fn spec_args(self) -> Seq<u8> {
        uint_args(self.ratio as u32, 2)
    }

    /// The command, or `InvalidArgumentValue` for a value out of range.
    pub fn to_bytes(&self) -> (r: Result<Vec<u8>, RigError>)
        ensures
            self.spec_in_range() ==> (r matches Ok(b) && b@ == frame(set_audio_mix_ratio_id(), self.spec_args())),
            !self.spec_in_range() ==> (r matches Err(e) && e.fails_with(
                Failure::ArgumentValue("ratio"@, "u8"@, decimal_string(self.ratio as int)),
            )),
    {
        encode_uint_in_range(set_audio_mix_ratio_id_bytes(), "ratio", "u8", self.ratio as u32, 0, 99, 2)
    }
}

/// `SetAudioMixRatio` accepts `ratio` when `s.ratio <= 99` and sends it as decimal digits, zero-padded to 2.
pub proof fn lemma_set_audio_mix_ratio_argument(s: SetAudioMixRatio)
    ensures
        s.spec_in_range() == (s.ratio <= 99),
        all_digits(s.spec_args()),
        digits_value(s.spec_args()) == s.ratio,
        (s.ratio as nat) < pow10(2) ==> s.spec_args().len() == 2,
{
    lemma_padded_decimal_value(s.ratio as nat, 2);
    if (s.ratio as nat) < pow10(2) {
        lemma_num_digits_le(s.ratio as nat, 2);
    }
}

/// `NA`
pub open spec fn get_vfo_a_auto_notch_state_id() -> Seq<u8> {
    seq![0x4E, 0x41]
}

fn get_vfo_a_auto_notch_state_id_bytes() -> (r: &'static [u8])
    ensures
        r@ == get_vfo_a_auto_notch_state_id(),
{
    &[0x4E, 0x41]
}

/// Get the auto notch state for VFO A (`NA`).
#[derive(Clone, Copy, Debug, PartialEq, Eq)]
pub struct GetVfoAAutoNotchState;

impl GetVfoAAutoNotchState {
    pub fn to_bytes(&self) -> (r: Vec<u8>)
        ensures
            r@ == frame(get_vfo_a_auto_notch_state_id(), seq![]),
    {
        let none: [u8; 0] = [];
        frame_command(get_vfo_a_auto_notch_state_id_bytes(), &none)
    }

    pub open spec fn spec_parse_response(bytes: Seq<u8>) -> Result<bool, Failure> {
        match spec_validate_response(bytes, get_vfo_a_auto_notch_state_id(), 1) {
            Ok(v) => spec_bool_1_0(v[0]),
            Err(f) => Err(f),
        }
    }

    pub fn parse(&self, bytes: &[u8]) -> (r: Result<bool, RigError>)
        ensures
            agrees(r, Self::spec_parse_response(bytes@)),
    {
        match validate_response(bytes, get_vfo_a_auto_notch_state_id_bytes(), 1) {
            Ok(d) => bool_from_ascii_1_0(d[0]),
            Err(e) => Err(e),
        }
    }
}

/// A `GetVfoAAutoNotchState` reply whose value byte is `1` reads as `true`, `0` as `false`; any other byte is a
/// `ParseBoolean` error.
pub proof fn lemma_get_vfo_a_auto_notch_state_reply(v: Seq<u8>)
    requires
        v.len() == 1,
    ensures
        v[0] == 0x31 ==> GetVfoAAutoNotchState::spec_parse_response(frame(get_vfo_a_auto_notch_state_id(), v)) == Ok::<bool, Failure>(true),
        v[0] == 0x30 ==> GetVfoAAutoNotchState::spec_parse_response(frame(get_vfo_a_auto_notch_state_id(), v)) == Ok::<bool, Failure>(false),
        v[0] != 0x30 && v[0] != 0x31 ==> GetVfoAAutoNotchState::spec_parse_response(frame(get_vfo_a_auto_notch_state_id(), v)) == Err::<bool, Failure>(Failure::Boolean(v[0])),
{
    lemma_framed_value_reads_back(get_vfo_a_auto_notch_state_id(), v);
}

/// `NA$`
pub open spec fn get_vfo_b_auto_notch_state_id() -> Seq<u8> {
    seq![0x4E, 0x41, 0x24]
}

fn get_vfo_b_auto_notch_state_id_bytes() -> (r: &'static [u8])
    ensures
        r@ == get_vfo_b_auto_notch_state_id(),
{
    &[0x4E, 0x41, 0x24]
}

/// Get the auto notch state for VFO B (`NA$`).
#[derive(Clone, Copy, Debug, PartialEq, Eq)]
pub struct GetVfoBAutoNotchState;

impl GetVfoBAutoNotchState {
    pub fn to_bytes(&self) -> (r: Vec<u8>)
        ensures
            r@ == frame(get_vfo_b_auto_notch_state_id(), seq![]),
    {
        let none: [u8; 0] = [];
        frame_command(get_vfo_b_auto_notch_state_id_bytes(), &none)
    }

    pub open spec fn spec_parse_response(bytes: Seq<u8>) -> Result<bool, Failure> {
        match spec_validate_response(bytes, get_vfo_b_auto_notch_state_id(), 1) {
            Ok(v) => spec_bool_1_0(v[0]),
            Err(f) => Err(f),
        }
    }

    pub fn parse(&self, bytes: &[u8]) -> (r: Result<bool, RigError>)
        ensures
            agrees(r, Self::spec_parse_response(bytes@)),
    {
        match validate_response(bytes, get_vfo_b_auto_notch_state_id_bytes(), 1) {
            Ok(d) => bool_from_ascii_1_0(d[0]),
            Err(e) => Err(e),
        }
    }
}

/// A `GetVfoBAutoNotchState` reply whose value byte is `1` reads as `true`, `0` as `false`; any other byte is a
/// `ParseBoolean` error.
pub proof fn lemma_get_vfo_b_auto_notch_state_reply(v: Seq<u8>)
    requires
        v.len() == 1,
    ensures
        v[0] == 0x31 ==> GetVfoBAutoNotchState::spec_parse_response(frame(get_vfo_b_auto_notch_state_id(), v)) == Ok::<bool, Failure>(true),
        v[0] == 0x30 ==> GetVfoBAutoNotchState::spec_parse_response(frame(get_vfo_b_auto_notch_state_id(), v)) == Ok::<bool, Failure>(false),
        v[0] != 0x30 && v[0] != 0x31 ==> GetVfoBAutoNotchState::spec_parse_response(frame(get_vfo_b_auto_notch_state_id(), v)) == Err::<bool, Failure>(Failure::Boolean(v[0])),
{
    lemma_framed_value_reads_back(get_vfo_b_auto_notch_state_id(), v);
}

/// `NA`
pub open spec fn set_vfo_a_auto_notch_state_id() -> Seq<u8> {
    seq![0x4E, 0x41]
}

fn set_vfo_a_auto_notch_state_id_bytes() -> (r: &'static [u8])
    ensures
        r@ == set_vfo_a_auto_notch_state_id(),
{
    &[0x4E, 0x41]
}

/// Set the auto notch state for VFO A (`NA`).
#[derive(Clone, Copy, Debug, PartialEq, Eq)]
pub struct SetVfoAAutoNotchState {
    pub state: bool,
}

impl SetVfoAAutoNotchState {
    pub open spec fn spec_args(self) -> Seq<u8> {
        seq![if self.state { ASCII_DIGIT_ONE } else { ASCII_DIGIT_ZERO }]
    }

    pub fn to_bytes(&self) -> (r: Vec<u8>)
        ensures
            r@ == frame(set_vfo_a_auto_notch_state_id(), self.spec_args()),
    {
        let args: [u8; 1] = [if self.state { ASCII_DIGIT_ONE } else { ASCII_DIGIT_ZERO }];
        assert(args@ =~= self.spec_args());
        frame_command(set_vfo_a_auto_notch_state_id_bytes(), &args)
    }
}

/// `SetVfoAAutoNotchState` sends `1` when `state` is set and `0` when it is clear.
pub proof fn lemma_set_vfo_a_auto_notch_state_argument(s: SetVfoAAutoNotchState)
    ensures
        s.state ==> s.spec_args() == seq![0x31u8],
        !s.state ==> s.spec_args() == seq![0x30u8],
{
}

/// `NA$`
pub open spec fn set_vfo_b_auto_notch_state_id() -> Seq<u8> {
    seq![0x4E, 0x41, 0x24]
}

fn set_vfo_b_auto_notch_state_id_bytes() -> (r: &'static [u8])
    ensures
        r@ == set_vfo_b_auto_notch_state_id(),
{
    &[0x4E, 0x41, 0x24]
}

/// Set the auto notch state for VFO B (`NA$`).
#[derive(Clone, Copy, Debug, PartialEq, Eq)]
pub struct SetVfoBAutoNotchState {
    pub state: bool,
}

impl SetVfoBAutoNotchState {
    pub open spec fn spec_args(self) -> Seq<u8> {
        seq![if self.state { ASCII_DIGIT_ONE } else { ASCII_DIGIT_ZERO }]
    }

    pub fn to_bytes(&self) -> (r: Vec<u8>)
        ensures
            r@ == frame(set_vfo_b_auto_notch_state_id(), self.spec_args()),
    {
        let args: [u8; 1] = [if self.state { ASCII_DIGIT_ONE } else { ASCII_DIGIT_ZERO }];
        assert(args@ =~= self.spec_args());
        frame_command(set_vfo_b_auto_notch_state_id_bytes(), &args)
    }
}

/// `SetVfoBAutoNotchState` sends `1` when `state` is set and `0` when it is clear.
pub proof fn lemma_set_vfo_b_auto_notch_state_argument(s: SetVfoBAutoNotchState)
    ensures
        s.state ==> s.spec_args() == seq![0x31u8],
        !s.state ==> s.spec_args() == seq![0x30u8],
{
}

/// `PB`
pub open spec fn play_dvr_message_id() -> Seq<u8> {
    seq![0x50, 0x42]
}

fn play_dvr_message_id_bytes() -> (r: &'static [u8])
    ensures
        r@ == play_dvr_message_id(),
{
    &[0x50, 0x42]
}

/// Play a DVR (digital voice recorder) message (`PB`).
#[derive(Clone, Copy, Debug, PartialEq, Eq)]
pub struct PlayDvrMessage {
    pub message: u8,
}

impl PlayDvrMessage {
    /// The values the command accepts.
    pub open spec fn spec_in_range(self) -> bool {
        self.message <= 8
    }

    /// The argument bytes.
    pub open spec fn spec_args(self) -> Seq<u8> {
        uint_args(self.message as u32, 1)
    }

    /// The command, or `InvalidArgumentValue` for a value out of range.
    pub fn to_bytes(&self) -> (r: Result<Vec<u8>, RigError>)
        ensures
            self.spec_in_range() ==> (r matches Ok(b) && b@ == frame(play_dvr_message_id(), self.spec_args())),
            !self.spec_in_range() ==> (r matches Err(e) && e.fails_with(
                Failure::ArgumentValue("message"@, "u8"@, decimal_string(self.message as int)),
            )),
    {
        encode_uint_in_range(play_dvr_message_id_bytes(), "message", "u8", self.message as u32, 0, 8, 1)
    }
}

/// `PlayDvrMessage` accepts `message` when `s.message <= 8` and sends it as decimal digits, zero-padded to 1.
pub proof fn lemma_play_dvr_message_argument(s: PlayDvrMessage)
    ensures
        s.spec_in_range() == (s.message <= 8),
        all_digits(s.spec_args()),
        digits_value(s.spec_args()) == s.message,
        (s.message as nat) < pow10(1) ==> s.spec_args().len() == 1,
{
    lemma_padded_decimal_value(s.message as nat, 1);
    if (s.message as nat) < pow10(1) {
        lemma_num_digits_le(s.message as nat, 1);
    }
}

/// `PL`
pub open spec fn get_vfo_a_ctss_tone_id() -> Seq<u8> {
    seq![0x50, 0x4C]
}

fn get_vfo_a_ctss_tone_id_bytes() -> (r: &'static [u8])
    ensures
        r@ == get_vfo_a_ctss_tone_id(),
{
    &[0x50, 0x4C]
}

/// Get the CTCSS (PL) tone code for VFO A (`PL`).
#[derive(Clone, Copy, Debug, PartialEq, Eq)]
pub struct GetVfoACtssTone;

impl GetVfoACtssTone {
    pub fn to_bytes(&self) -> (r: Vec<u8>)
        ensures
            r@ == frame(get_vfo_a_ctss_tone_id(), seq![]),
    {
        let none: [u8; 0] = [];
        frame_command(get_vfo_a_ctss_tone_id_bytes(), &none)
    }

    pub open spec fn spec_parse_response(bytes: Seq<u8>) -> Result<u8, Failure> {
        match spec_validate_response(bytes, get_vfo_a_ctss_tone_id(), 3) {
            Ok(v) => spec_u8_field(v),
            Err(f) => Err(f),
        }
    }

    /// Reads the digits of a framed reply; a value above 255 is outside the domain.
    pub fn parse(&self, bytes: &[u8]) -> (r: Result<u8, RigError>)
        requires
            spec_validate_response(bytes@, get_vfo_a_ctss_tone_id(), 3) matches Ok(v) ==> leading_value(v) <= u8::MAX,
        ensures
            agrees(r, Self::spec_parse_response(bytes@)),
    {
        match validate_response(bytes, get_vfo_a_ctss_tone_id_bytes(), 3) {
            Ok(d) => {
                proof {
                    lemma_leading_value_bound(d@);
                    lemma_pow10_values();
                }
                u8_from_ascii(d)
            },
            Err(e) => Err(e),
        }
    }
}

/// A `GetVfoACtssTone` reply of 3 value bytes reads as the decimal number they spell; a value with a
/// byte that is not a digit is an `InvalidResponseData` error holding the value.
pub proof fn lemma_get_vfo_a_ctss_tone_reply(v: Seq<u8>)
    requires
        v.len() == 3,
    ensures
        all_digits(v) && digits_value(v) <= 255 ==> GetVfoACtssTone::spec_parse_response(frame(get_vfo_a_ctss_tone_id(), v)) == Ok::<u8, Failure>(digits_value(v) as u8),
        !all_digits(v) ==> GetVfoACtssTone::spec_parse_response(frame(get_vfo_a_ctss_tone_id(), v)) == Err::<u8, Failure>(Failure::ResponseData(v)),
{
    lemma_framed_value_reads_back(get_vfo_a_ctss_tone_id(), v);
}

/// `PL$`
pub open spec fn get_vfo_b_ctss_tone_id() -> Seq<u8> {
    seq![0x50, 0x4C, 0x24]
}

fn get_vfo_b_ctss_tone_id_bytes() -> (r: &'static [u8])
    ensures
        r@ == get_vfo_b_ctss_tone_id(),
{
    &[0x50, 0x4C, 0x24]
}

/// Get the CTCSS (PL) tone code for VFO B (`PL$`).
#[derive(Clone, Copy, Debug, PartialEq, Eq)]
pub struct GetVfoBCtssTone;

impl GetVfoBCtssTone {
    pub fn to_bytes(&self) -> (r: Vec<u8>)
        ensures
            r@ == frame(get_vfo_b_ctss_tone_id(), seq![]),
    {
        let none: [u8; 0] = [];
        frame_command(get_vfo_b_ctss_tone_id_bytes(), &none)
    }

    pub open spec fn spec_parse_response(bytes: Seq<u8>) -> Result<u8, Failure> {
        match spec_validate_response(bytes, get_vfo_b_ctss_tone_id(), 3) {
            Ok(v) => spec_u8_field(v),
            Err(f) => Err(f),
        }
    }

    /// Reads the digits of a framed reply; a value above 255 is outside the domain.
    pub fn parse(&self, bytes: &[u8]) -> (r: Result<u8, RigError>)
        requires
            spec_validate_response(bytes@, get_vfo_b_ctss_tone_id(), 3) matches Ok(v) ==> leading_value(v) <= u8::MAX,
        ensures
            agrees(r, Self::spec_parse_response(bytes@)),
    {
        match validate_response(bytes, get_vfo_b_ctss_tone_id_bytes(), 3) {
            Ok(d) => {
                proof {
                    lemma_leading_value_bound(d@);
                    lemma_pow10_values();
                }
                u8_from_ascii(d)
            },
            Err(e) => Err(e),
        }
    }
}

/// A `GetVfoBCtssTone` reply of 3 value bytes reads as the decimal number they spell; a value with a
/// byte that is not a digit is an `InvalidResponseData` error holding the value.
pub proof fn lemma_get_vfo_b_ctss_tone_reply(v: Seq<u8>)
    requires
        v.len() == 3,
    ensures
        all_digits(v) && digits_value(v) <= 255 ==> GetVfoBCtssTone::spec_parse_response(frame(get_vfo_b_ctss_tone_id(), v)) == Ok::<u8, Failure>(digits_value(v) as u8),
        !all_digits(v) ==> GetVfoBCtssTone::spec_parse_response(frame(get_vfo_b_ctss_tone_id(), v)) == Err::<u8, Failure>(Failure::ResponseData(v)),
{
    lemma_framed_value_reads_back(get_vfo_b_ctss_tone_id(), v);
}

/// `PP`
pub open spec fn get_current_band_power_limit_id() -> Seq<u8> {
    seq![0x50, 0x50]
}

fn get_current_band_power_limit_id_bytes() -> (r: &'static [u8])
    ensures
        r@ == get_current_band_power_limit_id(),
{
    &[0x50, 0x50]
}

/// Get the per-band power limit setting for the current band (`PP`).
#[derive(Clone, Copy, Debug, PartialEq, Eq)]
pub struct GetCurrentBandPowerLimit;

impl GetCurrentBandPowerLimit {
    pub fn to_bytes(&self) -> (r: Vec<u8>)
        ensures
            r@ == frame(get_current_band_power_limit_id(), seq![]),
    {
        let none: [u8; 0] = [];
        frame_command(get_current_band_power_limit_id_bytes(), &none)
    }

    pub open spec fn spec_parse_response(bytes: Seq<u8>) -> Result<u8, Failure> {
        match spec_validate_response(bytes, get_current_band_power_limit_id(), 3) {
            Ok(v) => spec_u8_field(v),
            Err(f) => Err(f),
        }
    }

    /// Reads the digits of a framed reply; a value above 255 is outside the domain.
    pub fn parse(&self, bytes: &[u8]) -> (r: Result<u8, RigError>)
        requires
            spec_validate_response(bytes@, get_current_band_power_limit_id(), 3) matches Ok(v) ==> leading_value(v) <= u8::MAX,
        ensures
            agrees(r, Self::spec_parse_response(bytes@)),
    {
        match validate_response(bytes, get_current_band_power_limit_id_bytes(), 3) {
            Ok(d) => {
                proof {
                    lemma_leading_value_bound(d@);
                    lemma_pow10_values();
                }
                u8_from_ascii(d)
            },
            Err(e) => Err(e),
        }
    }
}

/// A `GetCurrentBandPowerLimit` reply of 3 value bytes reads as the decimal number they spell; a value with a
/// byte that is not a digit is an `InvalidResponseData` error holding the value.
pub proof fn lemma_get_current_band_power_limit_reply(v: Seq<u8>)
    requires
        v.len() == 3,
    ensures
        all_digits(v) && digits_value(v) <= 255 ==> GetCurrentBandPowerLimit::spec_parse_response(frame(get_current_band_power_limit_id(), v)) == Ok::<u8, Failure>(digits_value(v) as u8),
        !all_digits(v) ==> GetCurrentBandPowerLimit::spec_parse_response(frame(get_current_band_power_limit_id(), v)) == Err::<u8, Failure>(Failure::ResponseData(v)),
{
    lemma_framed_value_reads_back(get_current_band_power_limit_id(), v);
}

/// `PS`
pub open spec fn get_power_status_id() -> Seq<u8> {
    seq![0x50, 0x53]
}

fn get_power_status_id_bytes() -> (r: &'static [u8])
    ensures
        r@ == get_power_status_id(),
{
    &[0x50, 0x53]
}

/// Get the transceiver power state (`PS`).
#[derive(Clone, Copy, Debug, PartialEq, Eq)]
pub struct GetPowerStatus;

impl GetPowerStatus {
    pub fn to_bytes(&self) -> (r: Vec<u8>)
        ensures
            r@ == frame(get_power_status_id(), seq![]),
    {
        let none: [u8; 0] = [];
        frame_command(get_power_status_id_bytes(), &none)
    }

    /// What `parse` gives for a response: the value of its one byte, or `InvalidResponseData`
    /// holding the value.
    pub open spec fn spec_parse_response(bytes: Seq<u8>) -> Result<PowerStatus, Failure> {
        match spec_validate_response(bytes, get_power_status_id(), 1) {
            Ok(v) => match PowerStatus::spec_from_byte(v[0]) {
                Some(x) => Ok(x),
                None => Err(Failure::ResponseData(v)),
            },
            Err(f) => Err(f),
        }
    }

    pub fn parse(&self, bytes: &[u8]) -> (r: Result<PowerStatus, RigError>)
        ensures
            agrees(r, Self::spec_parse_response(bytes@)),
    {
        match validate_response(bytes, get_power_status_id_bytes(), 1) {
            Ok(d) => match PowerStatus::from_repr(d[0]) {
                Some(x) => Ok(x),
                None => Err(invalid_response_data(d)),
            },
            Err(e) => Err(e),
        }
    }
}

/// A `GetPowerStatus` reply reads as the `PowerStatus` whose wire byte is its value byte; a byte that names no
/// variant is an `InvalidResponseData` error holding the value.
pub proof fn lemma_get_power_status_reply(v: Seq<u8>)
    requires
        v.len() == 1,
    ensures
        GetPowerStatus::spec_parse_response(frame(get_power_status_id(), v)) matches Ok(m) ==> m.spec_byte() == v[0],
        PowerStatus::spec_from_byte(v[0]) is Some ==> GetPowerStatus::spec_parse_response(frame(get_power_status_id(), v)) is Ok,
        PowerStatus::spec_from_byte(v[0]) is None ==> GetPowerStatus::spec_parse_response(frame(get_power_status_id(), v)) == Err::<PowerStatus, Failure>(Failure::ResponseData(v)),
{
    lemma_framed_value_reads_back(get_power_status_id(), v);
}

/// `PS`
pub open spec fn set_power_status_id() -> Seq<u8> {
    seq![0x50, 0x53]
}

fn set_power_status_id_bytes() -> (r: &'static [u8])
    ensures
        r@ == set_power_status_id(),
{
    &[0x50, 0x53]
}

/// Set the transceiver power state (`PS`).
#[derive(Clone, Copy, Debug, PartialEq, Eq)]
pub struct SetPowerStatus {
    pub state: PowerStatus,
}

impl SetPowerStatus {
    pub fn turn_off() -> (r: SetPowerStatus)
        ensures
            r.state == PowerStatus::Off,
    {
        SetPowerStatus { state: PowerStatus::Off }
    }

    pub fn turn_on() -> (r: SetPowerStatus)
        ensures
            r.state == PowerStatus::On,
    {
        SetPowerStatus { state: PowerStatus::On }
    }

    pub fn trigger_firmware_restart() -> (r: SetPowerStatus)
        ensures
            r.state == PowerStatus::FirmwareRestart,
    {
        SetPowerStatus { state: PowerStatus::FirmwareRestart }
    }

    pub open spec fn spec_args(self) -> Seq<u8> {
        seq![self.state.spec_byte()]
    }

    pub fn to_bytes(&self) -> (r: Vec<u8>)
        ensures
            r@ == frame(set_power_status_id(), self.spec_args()),
    {
        let args: [u8; 1] = [self.state.as_byte()];
        assert(args@ =~= self.spec_args());
        frame_command(set_power_status_id_bytes(), &args)
    }
}

/// `SetPowerStatus` sends exactly one byte, the wire byte of `state`.
pub proof fn lemma_set_power_status_argument(s: SetPowerStatus)
    ensures
        s.spec_args().len() == 1,
        s.spec_args()[0] == s.state.spec_byte(),
{
}

/// `RL`
pub open spec fn get_active_software_release_channel_id() -> Seq<u8> {
    seq![0x52, 0x4C]
}

fn get_active_software_release_channel_id_bytes() -> (r: &'static [u8])
    ensures
        r@ == get_active_software_release_channel_id(),
{
    &[0x52, 0x4C]
}

/// Get the active software release channel (`RL`).
#[derive(Clone, Copy, Debug, PartialEq, Eq)]
pub struct GetActiveSoftwareReleaseChannel;

impl GetActiveSoftwareReleaseChannel {
    pub fn to_bytes(&self) -> (r: Vec<u8>)
        ensures
            r@ == frame(get_active_software_release_channel_id(), seq![]),
    {
        let none: [u8; 0] = [];
        frame_command(get_active_software_release_channel_id_bytes(), &none)
    }

    /// What `parse` gives for a response: the value of its one byte, or `InvalidResponseData`
    /// holding the value.
    pub open spec fn spec_parse_response(bytes: Seq<u8>) -> Result<SoftwareReleaseChannel, Failure> {
        match spec_validate_response(bytes, get_active_software_release_channel_id(), 1) {
            Ok(v) => match SoftwareReleaseChannel::spec_from_byte(v[0]) {
                Some(x) => Ok(x),
                None => Err(Failure::ResponseData(v)),
            },
            Err(f) => Err(f),
        }
    }

    pub fn parse(&self, bytes: &[u8]) -> (r: Result<SoftwareReleaseChannel, RigError>)
        ensures
            agrees(r, Self::spec_parse_response(bytes@)),
    {
        match validate_response(bytes, get_active_software_release_channel_id_bytes(), 1) {
            Ok(d) => match SoftwareReleaseChannel::from_repr(d[0]) {
                Some(x) => Ok(x),
                None => Err(invalid_response_data(d)),
            },
            Err(e) => Err(e),
        }
    }
}

/// A `GetActiveSoftwareReleaseChannel` reply reads as the `SoftwareReleaseChannel` whose wire byte is its value byte; a byte that names no
/// variant is an `InvalidResponseData` error holding the value.
pub proof fn lemma_get_active_software_release_channel_reply(v: Seq<u8>)
    requires
        v.len() == 1,
    ensures
        GetActiveSoftwareReleaseChannel::spec_parse_response(frame(get_active_software_release_channel_id(), v)) matches Ok(m) ==> m.spec_byte() == v[0],
        SoftwareReleaseChannel::spec_from_byte(v[0]) is Some ==> GetActiveSoftwareReleaseChannel::spec_parse_response(frame(get_active_software_release_channel_id(), v)) is Ok,
        SoftwareReleaseChannel::spec_from_byte(v[0]) is None ==> GetActiveSoftwareReleaseChannel::spec_parse_response(frame(get_active_software_release_channel_id(), v)) == Err::<SoftwareReleaseChannel, Failure>(Failure::ResponseData(v)),
{
    lemma_framed_value_reads_back(get_active_software_release_channel_id(), v);
}

/// `RL`
pub open spec fn set_active_software_release_channel_id() -> Seq<u8> {
    seq![0x52, 0x4C]
}

fn set_active_software_release_channel_id_bytes() -> (r: &'static [u8])
    ensures
        r@ == set_active_software_release_channel_id(),
{
    &[0x52, 0x4C]
}

/// Set the active software release channel (`RL`).
#[derive(Clone, Copy, Debug, PartialEq, Eq)]
pub struct SetActiveSoftwareReleaseChannel {
    pub channel: SoftwareReleaseChannel,
}

impl SetActiveSoftwareReleaseChannel {
    /// Set the active software release channel to Stable.
    pub fn to_stable() -> (r: SetActiveSoftwareReleaseChannel)
        ensures
            r.channel == SoftwareReleaseChannel::Stable,
    {
        SetActiveSoftwareReleaseChannel { channel: SoftwareReleaseChannel::Stable }
    }

    /// Set the active software release channel to Beta.
    pub fn to_beta() -> (r: SetActiveSoftwareReleaseChannel)
        ensures
            r.channel == SoftwareReleaseChannel::Beta,
    {
        SetActiveSoftwareReleaseChannel { channel: SoftwareReleaseChannel::Beta }
    }

    /// Set the active software release channel to Alpha.
    pub fn to_alpha() -> (r: SetActiveSoftwareReleaseChannel)
        ensures
            r.channel == SoftwareReleaseChannel::Alpha,
    {
        SetActiveSoftwareReleaseChannel { channel: SoftwareReleaseChannel::Alpha }
    }

    pub open spec fn spec_args(self) -> Seq<u8> {
        seq![self.channel.spec_byte()]
    }

    pub fn to_bytes(&self) -> (r: Vec<u8>)
        ensures
            r@ == frame(set_active_software_release_channel_id(), self.spec_args()),
    {
        let args: [u8; 1] = [self.channel.as_byte()];
        assert(args@ =~= self.spec_args());
        frame_command(set_active_software_release_channel_id_bytes(), &args)
    }
}

/// `SetActiveSoftwareReleaseChannel` sends exactly one byte, the wire byte of `channel`.
pub proof fn lemma_set_active_software_release_channel_argument(s: SetActiveSoftwareReleaseChannel)
    ensures
        s.spec_args().len() == 1,
        s.spec_args()[0] == s.channel.spec_byte(),
{
}

/// `SC`
pub open spec fn get_screen_count_id() -> Seq<u8> {
    seq![0x53, 0x43]
}

fn get_screen_count_id_bytes() -> (r: &'static [u8])
    ensures
        r@ == get_screen_count_id(),
{
    &[0x53, 0x43]
}

/// Get the number of display screens available (`SC`).
#[derive(Clone, Copy, Debug, PartialEq, Eq)]
pub struct GetScreenCount;

impl GetScreenCount {
    pub fn to_bytes(&self) -> (r: Vec<u8>)
        ensures
            r@ == frame(get_screen_count_id(), seq![]),
    {
        let none: [u8; 0] = [];
        frame_command(get_screen_count_id_bytes(), &none)
    }

    pub open spec fn spec_parse_response(bytes: Seq<u8>) -> Result<u8, Failure> {
        match spec_validate_response(bytes, get_screen_count_id(), 2) {
            Ok(v) => spec_u8_field(v),
            Err(f) => Err(f),
        }
    }

    pub fn parse(&self, bytes: &[u8]) -> (r: Result<u8, RigError>)
        ensures
            agrees(r, Self::spec_parse_response(bytes@)),
    {
        match validate_response(bytes, get_screen_count_id_bytes(), 2) {
            Ok(d) => {
                proof {
                    lemma_leading_value_bound(d@);
                    lemma_pow10_values();
                }
                u8_from_ascii(d)
            },
            Err(e) => Err(e),
        }
    }
}

/// A `GetScreenCount` reply of 2 value bytes reads as the decimal number they spell; a value with a
/// byte that is not a digit is an `InvalidResponseData` error holding the value.
pub proof fn lemma_get_screen_count_reply(v: Seq<u8>)
    requires
        v.len() == 2,
    ensures
        all_digits(v) && digits_value(v) <= 255 ==> GetScreenCount::spec_parse_response(frame(get_screen_count_id(), v)) == Ok::<u8, Failure>(digits_value(v) as u8),
        !all_digits(v) ==> GetScreenCount::spec_parse_response(frame(get_screen_count_id(), v)) == Err::<u8, Failure>(Failure::ResponseData(v)),
{
    lemma_framed_value_reads_back(get_screen_count_id(), v);
}

/// `SL`
pub open spec fn get_streaming_latency_class_id() -> Seq<u8> {
    seq![0x53, 0x4C]
}

fn get_streaming_latency_class_id_bytes() -> (r: &'static [u8])
    ensures
        r@ == get_streaming_latency_class_id(),
{
    &[0x53, 0x4C]
}

/// Get the remote audio streaming latency setting (`SL`).
#[derive(Clone, Copy, Debug, PartialEq, Eq)]
pub struct GetStreamingLatencyClass;

impl GetStreamingLatencyClass {
    pub fn to_bytes(&self) -> (r: Vec<u8>)
        ensures
            r@ == frame(get_streaming_latency_class_id(), seq![]),
    {
        let none: [u8; 0] = [];
        frame_command(get_streaming_latency_class_id_bytes(), &none)
    }

    pub open spec fn spec_parse_response(bytes: Seq<u8>) -> Result<u8, Failure> {
        match spec_validate_response(bytes, get_streaming_latency_class_id(), 2) {
            Ok(v) => spec_u8_field(v),
            Err(f) => Err(f),
        }
    }

    pub fn parse(&self, bytes: &[u8]) -> (r: Result<u8, RigError>)
        ensures
            agrees(r, Self::spec_parse_response(bytes@)),
    {
        match validate_response(bytes, get_streaming_latency_class_id_bytes(), 2) {
            Ok(d) => {
                proof {
                    lemma_leading_value_bound(d@);
                    lemma_pow10_values();
                }
                u8_from_ascii(d)
            },
            Err(e) => Err(e),
        }
    }
}

/// A `GetStreamingLatencyClass` reply of 2 value bytes reads as the decimal number they spell; a value with a
/// byte that is not a digit is an `InvalidResponseData` error holding the value.
pub proof fn lemma_get_streaming_latency_class_reply(v: Seq<u8>)
    requires
        v.len() == 2,
    ensures
        all_digits(v) && digits_value(v) <= 255 ==> GetStreamingLatencyClass::spec_parse_response(frame(get_streaming_latency_class_id(), v)) == Ok::<u8, Failure>(digits_value(v) as u8),
        !all_digits(v) ==> GetStreamingLatencyClass::spec_parse_response(frame(get_streaming_latency_class_id(), v)) == Err::<u8, Failure>(Failure::ResponseData(v)),
{
    lemma_framed_value_reads_back(get_streaming_latency_class_id(), v);
}

/// `SL`
pub open spec fn set_streaming_latency_class_id() -> Seq<u8> {
    seq![0x53, 0x4C]
}

fn set_streaming_latency_class_id_bytes() -> (r: &'static [u8])
    ensures
        r@ == set_streaming_latency_class_id(),
{
    &[0x53, 0x4C]
}

/// Set the remote audio streaming latency setting (`SL`).
#[derive(Clone, Copy, Debug, PartialEq, Eq)]
pub struct SetStreamingLatencyClass {
    pub latency: u8,
}

impl SetStreamingLatencyClass {
    /// The values the command accepts.
    pub open spec fn spec_in_range(self) -> bool {
        self.latency <= 99
    }

    /// The argument bytes.
    pub open spec fn spec_args(self) -> Seq<u8> {
        uint_args(self.latency as u32, 2)
    }

    /// The command, or `InvalidArgumentValue` for a value out of range.
    pub fn to_bytes(&self) -> (r: Result<Vec<u8>, RigError>)
        ensures
            self.spec_in_range() ==> (r matches Ok(b) && b@ == frame(set_streaming_latency_class_id(), self.spec_args())),
            !self.spec_in_range() ==> (r matches Err(e) && e.fails_with(
                Failure::ArgumentValue("latency"@, "u8"@, decimal_string(self.latency as int)),
            )),
    {
        encode_uint_in_range(set_streaming_latency_class_id_bytes(), "latency", "u8", self.latency as u32, 0, 99, 2)
    }
}

/// `SetStreamingLatencyClass` accepts `latency` when `s.latency <= 99` and sends it as decimal digits, zero-padded to 2.
pub proof fn lemma_set_streaming_latency_class_argument(s: SetStreamingLatencyClass)
    ensures
        s.spec_in_range() == (s.latency <= 99),
        all_digits(s.spec_args()),
        digits_value(s.spec_args()) == s.latency,
        (s.latency as nat) < pow10(2) ==> s.spec_args().len() == 2,
{
    lemma_padded_decimal_value(s.latency as nat, 2);
    if (s.latency as nat) < pow10(2) {
        lemma_num_digits_le(s.latency as nat, 2);
    }
}

/// `SN`
pub open spec fn get_transceiver_serial_number_id() -> Seq<u8> {
    seq![0x53, 0x4E]
}

fn get_transceiver_serial_number_id_bytes() -> (r: &'static [u8])
    ensures
        r@ == get_transceiver_serial_number_id(),
{
    &[0x53, 0x4E]
}

/// Get the transceiver serial number (`SN`).
#[derive(Clone, Copy, Debug, PartialEq, Eq)]
pub struct GetTransceiverSerialNumber;

impl GetTransceiverSerialNumber {
    pub fn to_bytes(&self) -> (r: Vec<u8>)
        ensures
            r@ == frame(get_transceiver_serial_number_id(), seq![]),
    {
        let none: [u8; 0] = [];
        frame_command(get_transceiver_serial_number_id_bytes(), &none)
    }

    pub open spec fn spec_parse_response(bytes: Seq<u8>) -> Result<u32, Failure> {
        match spec_validate_response(bytes, get_transceiver_serial_number_id(), 5) {
            Ok(v) => spec_u32_field(v),
            Err(f) => Err(f),
        }
    }

    pub fn parse(&self, bytes: &[u8]) -> (r: Result<u32, RigError>)
        ensures
            agrees(r, Self::spec_parse_response(bytes@)),
    {
        match validate_response(bytes, get_transceiver_serial_number_id_bytes(), 5) {
            Ok(d) => {
                proof {
                    lemma_leading_value_bound(d@);
                    lemma_pow10_values();
                }
                u32_from_ascii(d)
            },
            Err(e) => Err(e),
        }
    }
}

/// A `GetTransceiverSerialNumber` reply of 5 value bytes reads as the decimal number they spell; a value with a
/// byte that is not a digit is an `InvalidResponseData` error holding the value.
pub proof fn lemma_get_transceiver_serial_number_reply(v: Seq<u8>)
    requires
        v.len() == 5,
    ensures
        all_digits(v) && digits_value(v) <= u32::MAX ==> GetTransceiverSerialNumber::spec_parse_response(frame(get_transceiver_serial_number_id(), v)) == Ok::<u32, Failure>(digits_value(v) as u32),
        !all_digits(v) ==> GetTransceiverSerialNumber::spec_parse_response(frame(get_transceiver_serial_number_id(), v)) == Err::<u32, Failure>(Failure::ResponseData(v)),
{
    lemma_framed_value_reads_back(get_transceiver_serial_number_id(), v);
}

/// `SS`
pub open spec fn capture_screenshot_id() -> Seq<u8> {
    seq![0x53, 0x53]
}

fn capture_screenshot_id_bytes() -> (r: &'static [u8])
    ensures
        r@ == capture_screenshot_id(),
{
    &[0x53, 0x53]
}

/// Capture a screenshot to the SD card (`SS`).
#[derive(Clone, Copy, Debug, PartialEq, Eq)]
pub struct CaptureScreenshot;

impl CaptureScreenshot {
    pub fn to_bytes(&self) -> (r: Vec<u8>)
        ensures
            r@ == frame(capture_screenshot_id(), seq![]),
    {
        let none: [u8; 0] = [];
        frame_command(capture_screenshot_id_bytes(), &none)
    }
}

/// `TA`
pub open spec fn get_transmit_gain_constant_id() -> Seq<u8> {
    seq![0x54, 0x41]
}

fn get_transmit_gain_constant_id_bytes() -> (r: &'static [u8])
    ensures
        r@ == get_transmit_gain_constant_id(),
{
    &[0x54, 0x41]
}

/// Get the transmit gain constant used for calibration (`TA`).
#[derive(Clone, Copy, Debug, PartialEq, Eq)]
pub struct GetTransmitGainConstant;

impl GetTransmitGainConstant {
    pub fn to_bytes(&self) -> (r: Vec<u8>)
        ensures
            r@ == frame(get_transmit_gain_constant_id(), seq![]),
    {
        let none: [u8; 0] = [];
        frame_command(get_transmit_gain_constant_id_bytes(), &none)
    }

    pub open spec fn spec_parse_response(bytes: Seq<u8>) -> Result<u8, Failure> {
        match spec_validate_response(bytes, get_transmit_gain_constant_id(), 3) {
            Ok(v) => spec_u8_field(v),
            Err(f) => Err(f),
        }
    }

    /// Reads the digits of a framed reply; a value above 255 is outside the domain.
    pub fn parse(&self, bytes: &[u8]) -> (r: Result<u8, RigError>)
        requires
            spec_validate_response(bytes@, get_transmit_gain_constant_id(), 3) matches Ok(v) ==> leading_value(v) <= u8::MAX,
        ensures
            agrees(r, Self::spec_parse_response(bytes@)),
    {
        match validate_response(bytes, get_transmit_gain_constant_id_bytes(), 3) {
            Ok(d) => {
                proof {
                    lemma_leading_value_bound(d@);
                    lemma_pow10_values();
                }
                u8_from_ascii(d)
            },
            Err(e) => Err(e),
        }
    }
}

/// A `GetTransmitGainConstant` reply of 3 value bytes reads as the decimal number they spell; a value with a
/// byte that is not a digit is an `InvalidResponseData` error holding the value.
pub proof fn lemma_get_transmit_gain_constant_reply(v: Seq<u8>)
    requires
        v.len() == 3,
    ensures
        all_digits(v) && digits_value(v) <= 255 ==> GetTransmitGainConstant::spec_parse_response(frame(get_transmit_gain_constant_id(), v)) == Ok::<u8, Failure>(digits_value(v) as u8),
        !all_digits(v) ==> GetTransmitGainConstant::spec_parse_response(frame(get_transmit_gain_constant_id(), v)) == Err::<u8, Failure>(Failure::ResponseData(v)),
{
    lemma_framed_value_reads_back(get_transmit_gain_constant_id(), v);
}

/// `TD`
pub open spec fn get_vfo_a_text_decode_mode_id() -> Seq<u8> {
    seq![0x54, 0x44]
}

fn get_vfo_a_text_decode_mode_id_bytes() -> (r: &'static [u8])
    ensures
        r@ == get_vfo_a_text_decode_mode_id(),
{
    &[0x54, 0x44]
}

/// Get the text decode/encode mode for VFO A (`TD`).
#[derive(Clone, Copy, Debug, PartialEq, Eq)]
pub struct GetVfoATextDecodeMode;

impl GetVfoATextDecodeMode {
    pub fn to_bytes(&self) -> (r: Vec<u8>)
        ensures
            r@ == frame(get_vfo_a_text_decode_mode_id(), seq![]),
    {
        let none: [u8; 0] = [];
        frame_command(get_vfo_a_text_decode_mode_id_bytes(), &none)
    }

    /// What `parse` gives for a response: the value of its one byte, or `InvalidResponseData`
    /// holding the value.
    pub open spec fn spec_parse_response(bytes: Seq<u8>) -> Result<TextDecodeMode, Failure> {
        match spec_validate_response(bytes, get_vfo_a_text_decode_mode_id(), 1) {
            Ok(v) => match TextDecodeMode::spec_from_byte(v[0]) {
                Some(x) => Ok(x),
                None => Err(Failure::ResponseData(v)),
            },
            Err(f) => Err(f),
        }
    }

    pub fn parse(&self, bytes: &[u8]) -> (r: Result<TextDecodeMode, RigError>)
        ensures
            agrees(r, Self::spec_parse_response(bytes@)),
    {
        match validate_response(bytes, get_vfo_a_text_decode_mode_id_bytes(), 1) {
            Ok(d) => match TextDecodeMode::from_repr(d[0]) {
                Some(x) => Ok(x),
                None => Err(invalid_response_data(d)),
            },
            Err(e) => Err(e),
        }
    }
}

/// A `GetVfoATextDecodeMode` reply reads as the `TextDecodeMode` whose wire byte is its value byte; a byte that names no
/// variant is an `InvalidResponseData` error holding the value.
pub proof fn lemma_get_vfo_a_text_decode_mode_reply(v: Seq<u8>)
    requires
        v.len() == 1,
    ensures
        GetVfoATextDecodeMode::spec_parse_response(frame(get_vfo_a_text_decode_mode_id(), v)) matches Ok(m) ==> m.spec_byte() == v[0],
        TextDecodeMode::spec_from_byte(v[0]) is Some ==> GetVfoATextDecodeMode::spec_parse_response(frame(get_vfo_a_text_decode_mode_id(), v)) is Ok,
        TextDecodeMode::spec_from_byte(v[0]) is None ==> GetVfoATextDecodeMode::spec_parse_response(frame(get_vfo_a_text_decode_mode_id(), v)) == Err::<TextDecodeMode, Failure>(Failure::ResponseData(v)),
{
    lemma_framed_value_reads_back(get_vfo_a_text_decode_mode_id(), v);
}

/// `TD$`
pub open spec fn get_vfo_b_text_decode_mode_id() -> Seq<u8> {
    seq![0x54, 0x44, 0x24]
}

fn get_vfo_b_text_decode_mode_id_bytes() -> (r: &'static [u8])
    ensures
        r@ == get_vfo_b_text_decode_mode_id(),
{
    &[0x54, 0x44, 0x24]
}

/// Get the text decode/encode mode for VFO B (`TD$`).
#[derive(Clone, Copy, Debug, PartialEq, Eq)]
pub struct GetVfoBTextDecodeMode;

impl GetVfoBTextDecodeMode {
    pub fn to_bytes(&self) -> (r: Vec<u8>)
        ensures
            r@ == frame(get_vfo_b_text_decode_mode_id(), seq![]),
    {
        let none: [u8; 0] = [];
        frame_command(get_vfo_b_text_decode_mode_id_bytes(), &none)
    }

    /// What `parse` gives for a response: the value of its one byte, or `InvalidResponseData`
    /// holding the value.
    pub open spec fn spec_parse_response(bytes: Seq<u8>) -> Result<TextDecodeMode, Failure> {
        match spec_validate_response(bytes, get_vfo_b_text_decode_mode_id(), 1) {
            Ok(v) => match TextDecodeMode::spec_from_byte(v[0]) {
                Some(x) => Ok(x),
                None => Err(Failure::ResponseData(v)),
            },
            Err(f) => Err(f),
        }
    }

    pub fn parse(&self, bytes: &[u8]) -> (r: Result<TextDecodeMode, RigError>)
        ensures
            agrees(r, Self::spec_parse_response(bytes@)),
    {
        match validate_response(bytes, get_vfo_b_text_decode_mode_id_bytes(), 1) {
            Ok(d) => match TextDecodeMode::from_repr(d[0]) {
                Some(x) => Ok(x),
                None => Err(invalid_response_data(d)),
            },
            Err(e) => Err(e),
        }
    }
}

/// A `GetVfoBTextDecodeMode` reply reads as the `TextDecodeMode` whose wire byte is its value byte; a byte that names no
/// variant is an `InvalidResponseData` error holding the value.
pub proof fn lemma_get_vfo_b_text_decode_mode_reply(v: Seq<u8>)
    requires
        v.len() == 1,
    ensures
        GetVfoBTextDecodeMode::spec_parse_response(frame(get_vfo_b_text_decode_mode_id(), v)) matches Ok(m) ==> m.spec_byte() == v[0],
        TextDecodeMode::spec_from_byte(v[0]) is Some ==> GetVfoBTextDecodeMode::spec_parse_response(frame(get_vfo_b_text_decode_mode_id(), v)) is Ok,
        TextDecodeMode::spec_from_byte(v[0]) is None ==> GetVfoBTextDecodeMode::spec_parse_response(frame(get_vfo_b_text_decode_mode_id(), v)) == Err::<TextDecodeMode, Failure>(Failure::ResponseData(v)),
{
    lemma_framed_value_reads_back(get_vfo_b_text_decode_mode_id(), v);
}

/// `TD`
pub open spec fn set_vfo_a_text_decode_mode_id() -> Seq<u8> {
    seq![0x54, 0x44]
}

fn set_vfo_a_text_decode_mode_id_bytes() -> (r: &'static [u8])
    ensures
        r@ == set_vfo_a_text_decode_mode_id(),
{
    &[0x54, 0x44]
}

/// Set the text decode/encode mode for VFO A (`TD`).
#[derive(Clone, Copy, Debug, PartialEq, Eq)]
pub struct SetVfoATextDecodeMode {
    pub mode: TextDecodeMode,
}

impl SetVfoATextDecodeMode {
    /// Turn off text decoding.
    pub fn turn_off() -> (r: SetVfoATextDecodeMode)
        ensures
            r.mode == TextDecodeMode::Off,
    {
        SetVfoATextDecodeMode { mode: TextDecodeMode::Off }
    }

    /// Set text decoding to CW mode.
    pub fn to_cw() -> (r: SetVfoATextDecodeMode)
        ensures
            r.mode == TextDecodeMode::Cw,
    {
        SetVfoATextDecodeMode { mode: TextDecodeMode::Cw }
    }

    /// Set text decoding to RTTY mode.
    pub fn to_rtty() -> (r: SetVfoATextDecodeMode)
        ensures
            r.mode == TextDecodeMode::Rtty,
    {
        SetVfoATextDecodeMode { mode: TextDecodeMode::Rtty }
    }

    /// Set text decoding to PSK mode.
    pub fn to_psk() -> (r: SetVfoATextDecodeMode)
        ensures
            r.mode == TextDecodeMode::Psk,
    {
        SetVfoATextDecodeMode { mode: TextDecodeMode::Psk }
    }

    pub open spec fn spec_args(self) -> Seq<u8> {
        seq![self.mode.spec_byte()]
    }

    pub fn to_bytes(&self) -> (r: Vec<u8>)
        ensures
            r@ == frame(set_vfo_a_text_decode_mode_id(), self.spec_args()),
    {
        let args: [u8; 1] = [self.mode.as_byte()];
        assert(args@ =~= self.spec_args());
        frame_command(set_vfo_a_text_decode_mode_id_bytes(), &args)
    }
}

/// `SetVfoATextDecodeMode` sends exactly one byte, the wire byte of `mode`.
pub proof fn lemma_set_vfo_a_text_decode_mode_argument(s: SetVfoATextDecodeMode)
    ensures
        s.spec_args().len() == 1,
        s.spec_args()[0] == s.mode.spec_byte(),
{
}

/// `TD$`
pub open spec fn set_vfo_b_text_decode_mode_id() -> Seq<u8> {
    seq![0x54, 0x44, 0x24]
}

fn set_vfo_b_text_decode_mode_id_bytes() -> (r: &'static [u8])
    ensures
        r@ == set_vfo_b_text_decode_mode_id(),
{
    &[0x54, 0x44, 0x24]
}

/// Set the text decode/encode mode for VFO B (`TD$`).
#[derive(Clone, Copy, Debug, PartialEq, Eq)]
pub struct SetVfoBTextDecodeMode {
    pub mode: TextDecodeMode,
}

impl SetVfoBTextDecodeMode {
    /// Turn off text decoding.
    pub fn turn_off() -> (r: SetVfoBTextDecodeMode)
        ensures
            r.mode == TextDecodeMode::Off,
    {
        SetVfoBTextDecodeMode { mode: TextDecodeMode::Off }
    }

    /// Set text decoding to CW mode.
    pub fn to_cw() -> (r: SetVfoBTextDecodeMode)
        ensures
            r.mode == TextDecodeMode::Cw,
    {
        SetVfoBTextDecodeMode { mode: TextDecodeMode::Cw }
    }

    /// Set text decoding to RTTY mode.
    pub fn to_rtty() -> (r: SetVfoBTextDecodeMode)
        ensures
            r.mode == TextDecodeMode::Rtty,
    {
        SetVfoBTextDecodeMode { mode: TextDecodeMode::Rtty }
    }

    /// Set text decoding to PSK mode.
    pub fn to_psk() -> (r: SetVfoBTextDecodeMode)
        ensures
            r.mode == TextDecodeMode::Psk,
    {
        SetVfoBTextDecodeMode { mode: TextDecodeMode::Psk }
    }

    pub open spec fn spec_args(self) -> Seq<u8> {
        seq![self.mode.spec_byte()]
    }

    pub fn to_bytes(&self) -> (r: Vec<u8>)
        ensures
            r@ == frame(set_vfo_b_text_decode_mode_id(), self.spec_args()),
    {
        let args: [u8; 1] = [self.mode.as_byte()];
        assert(args@ =~= self.spec_args());
        frame_command(set_vfo_b_text_decode_mode_id_bytes(), &args)
    }
}

/// `SetVfoBTextDecodeMode` sends exactly one byte, the wire byte of `mode`.
pub proof fn lemma_set_vfo_b_text_decode_mode_argument(s: SetVfoBTextDecodeMode)
    ensures
        s.spec_args().len() == 1,
        s.spec_args()[0] == s.mode.spec_byte(),
{
}

/// `TG`
pub open spec fn get_transmit_gain_id() -> Seq<u8> {
    seq![0x54, 0x47]
}

fn get_transmit_gain_id_bytes() -> (r: &'static [u8])
    ensures
        r@ == get_transmit_gain_id(),
{
    &[0x54, 0x47]
}

/// Get the current transmit gain setting (`TG`).
#[derive(Clone, Copy, Debug, PartialEq, Eq)]
pub struct GetTransmitGain;

impl GetTransmitGain {
    pub fn to_bytes(&self) -> (r: Vec<u8>)
        ensures
            r@ == frame(get_transmit_gain_id(), seq![]),
    {
        let none: [u8; 0] = [];
        frame_command(get_transmit_gain_id_bytes(), &none)
    }

    pub open spec fn spec_parse_response(bytes: Seq<u8>) -> Result<u8, Failure> {
        match spec_validate_response(bytes, get_transmit_gain_id(), 3) {
            Ok(v) => spec_u8_field(v),
            Err(f) => Err(f),
        }
    }

    /// Reads the digits of a framed reply; a value above 255 is outside the domain.
    pub fn parse(&self, bytes: &[u8]) -> (r: Result<u8, RigError>)
        requires
            spec_validate_response(bytes@, get_transmit_gain_id(), 3) matches Ok(v) ==> leading_value(v) <= u8::MAX,
        ensures
            agrees(r, Self::spec_parse_response(bytes@)),
    {
        match validate_response(bytes, get_transmit_gain_id_bytes(), 3) {
            Ok(d) => {
                proof {
                    lemma_leading_value_bound(d@);
                    lemma_pow10_values();
                }
                u8_from_ascii(d)
            },
            Err(e) => Err(e),
        }
    }
}

/// A `GetTransmitGain` reply of 3 value bytes reads as the decimal number they spell; a value with a
/// byte that is not a digit is an `InvalidResponseData` error holding the value.
pub proof fn lemma_get_transmit_gain_reply(v: Seq<u8>)
    requires
        v.len() == 3,
    ensures
        all_digits(v) && digits_value(v) <= 255 ==> GetTransmitGain::spec_parse_response(frame(get_transmit_gain_id(), v)) == Ok::<u8, Failure>(digits_value(v) as u8),
        !all_digits(v) ==> GetTransmitGain::spec_parse_response(frame(get_transmit_gain_id(), v)) == Err::<u8, Failure>(Failure::ResponseData(v)),
{
    lemma_framed_value_reads_back(get_transmit_gain_id(), v);
}

/// `TS`
pub open spec fn get_transmit_test_mode_state_id() -> Seq<u8> {
    seq![0x54, 0x53]
}

fn get_transmit_test_mode_state_id_bytes() -> (r: &'static [u8])
    ensures
        r@ == get_transmit_test_mode_state_id(),
{
    &[0x54, 0x53]
}

/// Get the TX test mode state (`TS`).
#[derive(Clone, Copy, Debug, PartialEq, Eq)]
pub struct GetTransmitTestModeState;

impl GetTransmitTestModeState {
    pub fn to_bytes(&self) -> (r: Vec<u8>)
        ensures
            r@ == frame(get_transmit_test_mode_state_id(), seq![]),
    {
        let none: [u8; 0] = [];
        frame_command(get_transmit_test_mode_state_id_bytes(), &none)
    }

    pub open spec fn spec_parse_response(bytes: Seq<u8>) -> Result<bool, Failure> {
        match spec_validate_response(bytes, get_transmit_test_mode_state_id(), 1) {
            Ok(v) => spec_bool_1_0(v[0]),
            Err(f) => Err(f),
        }
    }

    pub fn parse(&self, bytes: &[u8]) -> (r: Result<bool, RigError>)
        ensures
            agrees(r, Self::spec_parse_response(bytes@)),
    {
        match validate_response(bytes, get_transmit_test_mode_state_id_bytes(), 1) {
            Ok(d) => bool_from_ascii_1_0(d[0]),
            Err(e) => Err(e),
        }
    }
}

/// A `GetTransmitTestModeState` reply whose value byte is `1` reads as `true`, `0` as `false`; any other byte is a
/// `ParseBoolean` error.
pub proof fn lemma_get_transmit_test_mode_state_reply(v: Seq<u8>)
    requires
        v.len() == 1,
    ensures
        v[0] == 0x31 ==> GetTransmitTestModeState::spec_parse_response(frame(get_transmit_test_mode_state_id(), v)) == Ok::<bool, Failure>(true),
        v[0] == 0x30 ==> GetTransmitTestModeState::spec_parse_response(frame(get_transmit_test_mode_state_id(), v)) == Ok::<bool, Failure>(false),
        v[0] != 0x30 && v[0] != 0x31 ==> GetTransmitTestModeState::spec_parse_response(frame(get_transmit_test_mode_state_id(), v)) == Err::<bool, Failure>(Failure::Boolean(v[0])),
{
    lemma_framed_value_reads_back(get_transmit_test_mode_state_id(), v);
}

/// `TS`
pub open spec fn set_transmit_test_mode_state_id() -> Seq<u8> {
    seq![0x54, 0x53]
}

fn set_transmit_test_mode_state_id_bytes() -> (r: &'static [u8])
    ensures
        r@ == set_transmit_test_mode_state_id(),
{
    &[0x54, 0x53]
}

/// Set the TX test mode state (`TS`).
#[derive(Clone, Copy, Debug, PartialEq, Eq)]
pub struct SetTransmitTestModeState {
    pub state: bool,
}

impl SetTransmitTestModeState {
    pub open spec fn spec_args(self) -> Seq<u8> {
        seq![if self.state { ASCII_DIGIT_ONE } else { ASCII_DIGIT_ZERO }]
    }

    pub fn to_bytes(&self) -> (r: Vec<u8>)
        ensures
            r@ == frame(set_transmit_test_mode_state_id(), self.spec_args()),
    {
        let args: [u8; 1] = [if self.state { ASCII_DIGIT_ONE } else { ASCII_DIGIT_ZERO }];
        assert(args@ =~= self.spec_args());
        frame_command(set_transmit_test_mode_state_id_bytes(), &args)
    }
}

/// `SetTransmitTestModeState` sends `1` when `state` is set and `0` when it is clear.
pub proof fn lemma_set_transmit_test_mode_state_argument(s: SetTransmitTestModeState)
    ensures
        s.state ==> s.spec_args() == seq![0x31u8],
        !s.state ==> s.spec_args() == seq![0x30u8],
{
}

/// `TU`
pub open spec fn set_atu_tuning_state_id() -> Seq<u8> {
    seq![0x54, 0x55]
}

fn set_atu_tuning_state_id_bytes() -> (r: &'static [u8])
    ensures
        r@ == set_atu_tuning_state_id(),
{
    &[0x54, 0x55]
}

/// Start or stop the ATU tuning sequence (K4 only, SET only).
#[derive(Clone, Copy, Debug, PartialEq, Eq)]
pub struct SetAtuTuningState {
    pub state: bool,
}

impl SetAtuTuningState {
    pub open spec fn spec_args(self) -> Seq<u8> {
        seq![if self.state { ASCII_DIGIT_ONE } else { ASCII_DIGIT_ZERO }]
    }

    pub fn to_bytes(&self) -> (r: Vec<u8>)
        ensures
            r@ == frame(set_atu_tuning_state_id(), self.spec_args()),
    {
        let args: [u8; 1] = [if self.state { ASCII_DIGIT_ONE } else { ASCII_DIGIT_ZERO }];
        assert(args@ =~= self.spec_args());
        frame_command(set_atu_tuning_state_id_bytes(), &args)
    }
}

/// `SetAtuTuningState` sends `1` when `state` is set and `0` when it is clear.
pub proof fn lemma_set_atu_tuning_state_argument(s: SetAtuTuningState)
    ensures
        s.state ==> s.spec_args() == seq![0x31u8],
        !s.state ==> s.spec_args() == seq![0x30u8],
{
}

/// `UT`
pub open spec fn get_utc_timestamp_id() -> Seq<u8> {
    seq![0x55, 0x54]
}

fn get_utc_timestamp_id_bytes() -> (r: &'static [u8])
    ensures
        r@ == get_utc_timestamp_id(),
{
    &[0x55, 0x54]
}

/// Get the current UTC date and time from the K4 real-time clock (`UT`).
#[derive(Clone, Copy, Debug, PartialEq, Eq)]
pub struct GetUtcTimestamp;

impl GetUtcTimestamp {
    pub fn to_bytes(&self) -> (r: Vec<u8>)
        ensures
            r@ == frame(get_utc_timestamp_id(), seq![]),
    {
        let none: [u8; 0] = [];
        frame_command(get_utc_timestamp_id_bytes(), &none)
    }

    /// The value bytes of a framed reply.
    pub fn parse(&self, bytes: &[u8]) -> (r: Result<Vec<u8>, RigError>)
        ensures
            match spec_validate_response(bytes@, get_utc_timestamp_id(), 14) {
                Ok(v) => r matches Ok(d) && d@ == v,
                Err(f) => r matches Err(e) && e.fails_with(f),
            },
    {
        match validate_response(bytes, get_utc_timestamp_id_bytes(), 14) {
            Ok(d) => bytes_to_vec(d),
            Err(e) => Err(e),
        }
    }
}

/// `VC`
pub open spec fn get_coarse_tuning_step_id() -> Seq<u8> {
    seq![0x56, 0x43]
}

fn get_coarse_tuning_step_id_bytes() -> (r: &'static [u8])
    ensures
        r@ == get_coarse_tuning_step_id(),
{
    &[0x56, 0x43]
}

/// Get the coarse VFO tune step size (`VC`).
#[derive(Clone, Copy, Debug, PartialEq, Eq)]
pub struct GetCoarseTuningStep;

impl GetCoarseTuningStep {
    pub fn to_bytes(&self) -> (r: Vec<u8>)
        ensures
            r@ == frame(get_coarse_tuning_step_id(), seq![]),
    {
        let none: [u8; 0] = [];
        frame_command(get_coarse_tuning_step_id_bytes(), &none)
    }

    pub open spec fn spec_parse_response(bytes: Seq<u8>) -> Result<u8, Failure> {
        match spec_validate_response(bytes, get_coarse_tuning_step_id(), 2) {
            Ok(v) => spec_u8_field(v),
            Err(f) => Err(f),
        }
    }

    pub fn parse(&self, bytes: &[u8]) -> (r: Result<u8, RigError>)
        ensures
            agrees(r, Self::spec_parse_response(bytes@)),
    {
        match validate_response(bytes, get_coarse_tuning_step_id_bytes(), 2) {
            Ok(d) => {
                proof {
                    lemma_leading_value_bound(d@);
                    lemma_pow10_values();
                }
                u8_from_ascii(d)
            },
            Err(e) => Err(e),
        }
    }
}

/// A `GetCoarseTuningStep` reply of 2 value bytes reads as the decimal number they spell; a value with a
/// byte that is not a digit is an `InvalidResponseData` error holding the value.
pub proof fn lemma_get_coarse_tuning_step_reply(v: Seq<u8>)
    requires
        v.len() == 2,
    ensures
        all_digits(v) && digits_value(v) <= 255 ==> GetCoarseTuningStep::spec_parse_response(frame(get_coarse_tuning_step_id(), v)) == Ok::<u8, Failure>(digits_value(v) as u8),
        !all_digits(v) ==> GetCoarseTuningStep::spec_parse_response(frame(get_coarse_tuning_step_id(), v)) == Err::<u8, Failure>(Failure::ResponseData(v)),
{
    lemma_framed_value_reads_back(get_coarse_tuning_step_id(), v);
}

/// `VC`
pub open spec fn set_coarse_tuning_step_id() -> Seq<u8> {
    seq![0x56, 0x43]
}

fn set_coarse_tuning_step_id_bytes() -> (r: &'static [u8])
    ensures
        r@ == set_coarse_tuning_step_id(),
{
    &[0x56, 0x43]
}

/// Set the coarse VFO tune step size (`VC`).
#[derive(Clone, Copy, Debug, PartialEq, Eq)]
pub struct SetCoarseTuningStep {
    pub step: u8,
}

impl SetCoarseTuningStep {
    /// The values the command accepts.
    pub open spec fn spec_in_range(self) -> bool {
        self.step <= 99
    }

    /// The argument bytes.
    pub open spec fn spec_args(self) -> Seq<u8> {
        uint_args(self.step as u32, 2)
    }

    /// The command, or `InvalidArgumentValue` for a value out of range.
    pub fn to_bytes(&self) -> (r: Result<Vec<u8>, RigError>)
        ensures
            self.spec_in_range() ==> (r matches Ok(b) && b@ == frame(set_coarse_tuning_step_id(), self.spec_args())),
            !self.spec_in_range() ==> (r matches Err(e) && e.fails_with(
                Failure::ArgumentValue("step"@, "u8"@, decimal_string(self.step as int)),
            )),
    {
        encode_uint_in_range(set_coarse_tuning_step_id_bytes(), "step", "u8", self.step as u32, 0, 99, 2)
    }
}

/// `SetCoarseTuningStep` accepts `step` when `s.step <= 99` and sends it as decimal digits, zero-padded to 2.
pub proof fn lemma_set_coarse_tuning_step_argument(s: SetCoarseTuningStep)
    ensures
        s.spec_in_range() == (s.step <= 99),
        all_digits(s.spec_args()),
        digits_value(s.spec_args()) == s.step,
        (s.step as nat) < pow10(2) ==> s.spec_args().len() == 2,
{
    lemma_padded_decimal_value(s.step as nat, 2);
    if (s.step as nat) < pow10(2) {
        lemma_num_digits_le(s.step as nat, 2);
    }
}

/// `VG`
pub open spec fn get_vox_gain_id() -> Seq<u8> {
    seq![0x56, 0x47]
}

fn get_vox_gain_id_bytes() -> (r: &'static [u8])
    ensures
        r@ == get_vox_gain_id(),
{
    &[0x56, 0x47]
}

/// Get the VOX gain (`VG`).
#[derive(Clone, Copy, Debug, PartialEq, Eq)]
pub struct GetVoxGain;

impl GetVoxGain {
    pub fn to_bytes(&self) -> (r: Vec<u8>)
        ensures
            r@ == frame(get_vox_gain_id(), seq![]),
    {
        let none: [u8; 0] = [];
        frame_command(get_vox_gain_id_bytes(), &none)
    }

    pub open spec fn spec_parse_response(bytes: Seq<u8>) -> Result<u8, Failure> {
        match spec_validate_response(bytes, get_vox_gain_id(), 3) {
            Ok(v) => spec_u8_field(v),
            Err(f) => Err(f),
        }
    }

    /// Reads the digits of a framed reply; a value above 255 is outside the domain.
    pub fn parse(&self, bytes: &[u8]) -> (r: Result<u8, RigError>)
        requires
            spec_validate_response(bytes@, get_vox_gain_id(), 3) matches Ok(v) ==> leading_value(v) <= u8::MAX,
        ensures
            agrees(r, Self::spec_parse_response(bytes@)),
    {
        match validate_response(bytes, get_vox_gain_id_bytes(), 3) {
            Ok(d) => {
                proof {
                    lemma_leading_value_bound(d@);
                    lemma_pow10_values();
                }
                u8_from_ascii(d)
            },
            Err(e) => Err(e),
        }
    }
}

/// A `GetVoxGain` reply of 3 value bytes reads as the decimal number they spell; a value with a
/// byte that is not a digit is an `InvalidResponseData` error holding the value.
pub proof fn lemma_get_vox_gain_reply(v: Seq<u8>)
    requires
        v.len() == 3,
    ensures
        all_digits(v) && digits_value(v) <= 255 ==> GetVoxGain::spec_parse_response(frame(get_vox_gain_id(), v)) == Ok::<u8, Failure>(digits_value(v) as u8),
        !all_digits(v) ==> GetVoxGain::spec_parse_response(frame(get_vox_gain_id(), v)) == Err::<u8, Failure>(Failure::ResponseData(v)),
{
    lemma_framed_value_reads_back(get_vox_gain_id(), v);
}

/// `VG`
pub open spec fn set_vox_gain_id() -> Seq<u8> {
    seq![0x56, 0x47]
}

fn set_vox_gain_id_bytes() -> (r: &'static [u8])
    ensures
        r@ == set_vox_gain_id(),
{
    &[0x56, 0x47]
}

/// Set the VOX gain (`VG`).
#[derive(Clone, Copy, Debug, PartialEq, Eq)]
pub struct SetVoxGain {
    pub gain: u8,
}

impl SetVoxGain {
    /// The values the command accepts.
    pub open spec fn spec_in_range(self) -> bool {
        self.gain <= 9
    }

    /// The argument bytes.
    pub open spec fn spec_args(self) -> Seq<u8> {
        uint_args(self.gain as u32, 3)
    }

    /// The command, or `InvalidArgumentValue` for a value out of range.
    pub fn to_bytes(&self) -> (r: Result<Vec<u8>, RigError>)
        ensures
            self.spec_in_range() ==> (r matches Ok(b) && b@ == frame(set_vox_gain_id(), self.spec_args())),
            !self.spec_in_range() ==> (r matches Err(e) && e.fails_with(
                Failure::ArgumentValue("gain"@, "u8"@, decimal_string(self.gain as int)),
            )),
    {
        encode_uint_in_range(set_vox_gain_id_bytes(), "gain", "u8", self.gain as u32, 0, 9, 3)
    }
}

/// `SetVoxGain` accepts `gain` when `s.gain <= 9` and sends it as decimal digits, zero-padded to 3.
pub proof fn lemma_set_vox_gain_argument(s: SetVoxGain)
    ensures
        s.spec_in_range() == (s.gain <= 9),
        all_digits(s.spec_args()),
        digits_value(s.spec_args()) == s.gain,
        (s.gain as nat) < pow10(3) ==> s.spec_args().len() == 3,
{
    lemma_padded_decimal_value(s.gain as nat, 3);
    if (s.gain as nat) < pow10(3) {
        lemma_num_digits_le(s.gain as nat, 3);
    }
}

/// `VI`
pub open spec fn get_vox_inhibit_state_id() -> Seq<u8> {
    seq![0x56, 0x49]
}

fn get_vox_inhibit_state_id_bytes() -> (r: &'static [u8])
    ensures
        r@ == get_vox_inhibit_state_id(),
{
    &[0x56, 0x49]
}

/// Get the VOX inhibit state (`VI`).
#[derive(Clone, Copy, Debug, PartialEq, Eq)]
pub struct GetVoxInhibitState;

impl GetVoxInhibitState {
    pub fn to_bytes(&self) -> (r: Vec<u8>)
        ensures
            r@ == frame(get_vox_inhibit_state_id(), seq![]),
    {
        let none: [u8; 0] = [];
        frame_command(get_vox_inhibit_state_id_bytes(), &none)
    }

    pub open spec fn spec_parse_response(bytes: Seq<u8>) -> Result<bool, Failure> {
        match spec_validate_response(bytes, get_vox_inhibit_state_id(), 1) {
            Ok(v) => spec_bool_1_0(v[0]),
            Err(f) => Err(f),
        }
    }

    pub fn parse(&self, bytes: &[u8]) -> (r: Result<bool, RigError>)
        ensures
            agrees(r, Self::spec_parse_response(bytes@)),
    {
        match validate_response(bytes, get_vox_inhibit_state_id_bytes(), 1) {
            Ok(d) => bool_from_ascii_1_0(d[0]),
            Err(e) => Err(e),
        }
    }
}

/// A `GetVoxInhibitState` reply whose value byte is `1` reads as `true`, `0` as `false`; any other byte is a
/// `ParseBoolean` error.
pub proof fn lemma_get_vox_inhibit_state_reply(v: Seq<u8>)
    requires
        v.len() == 1,
    ensures
        v[0] == 0x31 ==> GetVoxInhibitState::spec_parse_response(frame(get_vox_inhibit_state_id(), v)) == Ok::<bool, Failure>(true),
        v[0] == 0x30 ==> GetVoxInhibitState::spec_parse_response(frame(get_vox_inhibit_state_id(), v)) == Ok::<bool, Failure>(false),
        v[0] != 0x30 && v[0] != 0x31 ==> GetVoxInhibitState::spec_parse_response(frame(get_vox_inhibit_state_id(), v)) == Err::<bool, Failure>(Failure::Boolean(v[0])),
{
    lemma_framed_value_reads_back(get_vox_inhibit_state_id(), v);
}

/// `VI`
pub open spec fn set_vox_inhibit_state_id() -> Seq<u8> {
    seq![0x56, 0x49]
}

fn set_vox_inhibit_state_id_bytes() -> (r: &'static [u8])
    ensures
        r@ == set_vox_inhibit_state_id(),
{
    &[0x56, 0x49]
}

/// Set the VOX inhibit state (`VI`).
#[derive(Clone, Copy, Debug, PartialEq, Eq)]
pub struct SetVoxInhibitState {
    pub state: bool,
}

impl SetVoxInhibitState {
    pub open spec fn spec_args(self) -> Seq<u8> {
        seq![if self.state { ASCII_DIGIT_ONE } else { ASCII_DIGIT_ZERO }]
    }

    pub fn to_bytes(&self) -> (r: Vec<u8>)
        ensures
            r@ == frame(set_vox_inhibit_state_id(), self.spec_args()),
    {
        let args: [u8; 1] = [if self.state { ASCII_DIGIT_ONE } else { ASCII_DIGIT_ZERO }];
        assert(args@ =~= self.spec_args());
        frame_command(set_vox_inhibit_state_id_bytes(), &args)
    }
}

/// `SetVoxInhibitState` sends `1` when `state` is set and `0` when it is clear.
pub proof fn lemma_set_vox_inhibit_state_argument(s: SetVoxInhibitState)
    ensures
        s.state ==> s.spec_args() == seq![0x31u8],
        !s.state ==> s.spec_args() == seq![0x30u8],
{
}

/// `VO`
pub open spec fn get_vfo_a_transverter_offset_id() -> Seq<u8> {
    seq![0x56, 0x4F]
}

fn get_vfo_a_transverter_offset_id_bytes() -> (r: &'static [u8])
    ensures
        r@ == get_vfo_a_transverter_offset_id(),
{
    &[0x56, 0x4F]
}

/// Get the VFO frequency offset used for transverter operation, for VFO A (`VO`).
#[derive(Clone, Copy, Debug, PartialEq, Eq)]
pub struct GetVfoATransverterOffset;

impl GetVfoATransverterOffset {
    pub fn to_bytes(&self) -> (r: Vec<u8>)
        ensures
            r@ == frame(get_vfo_a_transverter_offset_id(), seq![]),
    {
        let none: [u8; 0] = [];
        frame_command(get_vfo_a_transverter_offset_id_bytes(), &none)
    }

    /// The value bytes of a framed reply.
    pub fn parse(&self, bytes: &[u8]) -> (r: Result<Vec<u8>, RigError>)
        ensures
            match spec_validate_response(bytes@, get_vfo_a_transverter_offset_id(), 10) {
                Ok(v) => r matches Ok(d) && d@ == v,
                Err(f) => r matches Err(e) && e.fails_with(f),
            },
    {
        match validate_response(bytes, get_vfo_a_transverter_offset_id_bytes(), 10) {
            Ok(d) => bytes_to_vec(d),
            Err(e) => Err(e),
        }
    }
}

/// `VO$`
pub open spec fn get_vfo_b_transverter_offset_id() -> Seq<u8> {
    seq![0x56, 0x4F, 0x24]
}

fn get_vfo_b_transverter_offset_id_bytes() -> (r: &'static [u8])
    ensures
        r@ == get_vfo_b_transverter_offset_id(),
{
    &[0x56, 0x4F, 0x24]
}

/// Get the VFO frequency offset used for transverter operation, for VFO B (`VO$`).
#[derive(Clone, Copy, Debug, PartialEq, Eq)]
pub struct GetVfoBTransverterOffset;

impl GetVfoBTransverterOffset {
    pub fn to_bytes(&self) -> (r: Vec<u8>)
        ensures
            r@ == frame(get_vfo_b_transverter_offset_id(), seq![]),
    {
        let none: [u8; 0] = [];
        frame_command(get_vfo_b_transverter_offset_id_bytes(), &none)
    }

    /// The value bytes of a framed reply.
    pub fn parse(&self, bytes: &[u8]) -> (r: Result<Vec<u8>, RigError>)
        ensures
            match spec_validate_response(bytes@, get_vfo_b_transverter_offset_id(), 10) {
                Ok(v) => r matches Ok(d) && d@ == v,
                Err(f) => r matches Err(e) && e.fails_with(f),
            },
    {
        match validate_response(bytes, get_vfo_b_transverter_offset_id_bytes(), 10) {
            Ok(d) => bytes_to_vec(d),
            Err(e) => Err(e),
        }
    }
}

/// `WM`
pub open spec fn get_wattmeter_calibration_constant_id() -> Seq<u8> {
    seq![0x57, 0x4D]
}

fn get_wattmeter_calibration_constant_id_bytes() -> (r: &'static [u8])
    ensures
        r@ == get_wattmeter_calibration_constant_id(),
{
    &[0x57, 0x4D]
}

/// Get the wattmeter calibration value (`WM`).
#[derive(Clone, Copy, Debug, PartialEq, Eq)]
pub struct GetWattmeterCalibrationConstant;

impl GetWattmeterCalibrationConstant {
    pub fn to_bytes(&self) -> (r: Vec<u8>)
        ensures
            r@ == frame(get_wattmeter_calibration_constant_id(), seq![]),
    {
        let none: [u8; 0] = [];
        frame_command(get_wattmeter_calibration_constant_id_bytes(), &none)
    }

    pub open spec fn spec_parse_response(bytes: Seq<u8>) -> Result<u8, Failure> {
        match spec_validate_response(bytes, get_wattmeter_calibration_constant_id(), 3) {
            Ok(v) => spec_u8_field(v),
            Err(f) => Err(f),
        }
    }

    /// Reads the digits of a framed reply; a value above 255 is outside the domain.
    pub fn parse(&self, bytes: &[u8]) -> (r: Result<u8, RigError>)
        requires
            spec_validate_response(bytes@, get_wattmeter_calibration_constant_id(), 3) matches Ok(v) ==> leading_value(v) <= u8::MAX,
        ensures
            agrees(r, Self::spec_parse_response(bytes@)),
    {
        match validate_response(bytes, get_wattmeter_calibration_constant_id_bytes(), 3) {
            Ok(d) => {
                proof {
                    lemma_leading_value_bound(d@);
                    lemma_pow10_values();
                }
                u8_from_ascii(d)
            },
            Err(e) => Err(e),
        }
    }
}

/// A `GetWattmeterCalibrationConstant` reply of 3 value bytes reads as the decimal number they spell; a value with a
/// byte that is not a digit is an `InvalidResponseData` error holding the value.
pub proof fn lemma_get_wattmeter_calibration_constant_reply(v: Seq<u8>)
    requires
        v.len() == 3,
    ensures
        all_digits(v) && digits_value(v) <= 255 ==> GetWattmeterCalibrationConstant::spec_parse_response(frame(get_wattmeter_calibration_constant_id(), v)) == Ok::<u8, Failure>(digits_value(v) as u8),
        !all_digits(v) ==> GetWattmeterCalibrationConstant::spec_parse_response(frame(get_wattmeter_calibration_constant_id(), v)) == Err::<u8, Failure>(Failure::ResponseData(v)),
{
    lemma_framed_value_reads_back(get_wattmeter_calibration_constant_id(), v);
}

/// `WM`
pub open spec fn set_wattmeter_calibration_constant_id() -> Seq<u8> {
    seq![0x57, 0x4D]
}

fn set_wattmeter_calibration_constant_id_bytes() -> (r: &'static [u8])
    ensures
        r@ == set_wattmeter_calibration_constant_id(),
{
    &[0x57, 0x4D]
}

/// Set the wattmeter calibration value (`WM`).
#[derive(Clone, Copy, Debug, PartialEq, Eq)]
pub struct SetWattmeterCalibrationConstant {
    pub value: u8,
}

impl SetWattmeterCalibrationConstant {
    pub open spec fn spec_args(self) -> Seq<u8> {
        padded_decimal(self.value as nat, 3)
    }

    pub fn to_bytes(&self) -> (r: Vec<u8>)
        ensures
            r@ == frame(set_wattmeter_calibration_constant_id(), self.spec_args()),
    {
        let args = format_uint_ascii(self.value as u64, 3);
        frame_command(set_wattmeter_calibration_constant_id_bytes(), args.as_slice())
    }
}

/// `SetWattmeterCalibrationConstant` sends `value` as decimal digits, zero-padded to 3 digits when it fits in 3.
pub proof fn lemma_set_wattmeter_calibration_constant_argument(s: SetWattmeterCalibrationConstant)
    ensures
        all_digits(s.spec_args()),
        digits_value(s.spec_args()) == s.value,
        (s.value as nat) < pow10(3) ==> s.spec_args().len() == 3,
        s.spec_args().len() >= 3,
{
    lemma_padded_decimal_value(s.value as nat, 3);
    if (s.value as nat) < pow10(3) {
        lemma_num_digits_le(s.value as nat, 3);
    }
}

/// `XV`
pub open spec fn get_vfo_a_transverter_active_band_slot_id() -> Seq<u8> {
    seq![0x58, 0x56]
}

fn get_vfo_a_transverter_active_band_slot_id_bytes() -> (r: &'static [u8])
    ensures
        r@ == get_vfo_a_transverter_active_band_slot_id(),
{
    &[0x58, 0x56]
}

/// Get the active transverter band slot for VFO A (`XV`).
#[derive(Clone, Copy, Debug, PartialEq, Eq)]
pub struct GetVfoATransverterActiveBandSlot;

impl GetVfoATransverterActiveBandSlot {
    pub fn to_bytes(&self) -> (r: Vec<u8>)
        ensures
            r@ == frame(get_vfo_a_transverter_active_band_slot_id(), seq![]),
    {
        let none: [u8; 0] = [];
        frame_command(get_vfo_a_transverter_active_band_slot_id_bytes(), &none)
    }

    pub open spec fn spec_parse_response(bytes: Seq<u8>) -> Result<u8, Failure> {
        match spec_validate_response(bytes, get_vfo_a_transverter_active_band_slot_id(), 2) {
            Ok(v) => spec_u8_field(v),
            Err(f) => Err(f),
        }
    }

    pub fn parse(&self, bytes: &[u8]) -> (r: Result<u8, RigError>)
        ensures
            agrees(r, Self::spec_parse_response(bytes@)),
    {
        match validate_response(bytes, get_vfo_a_transverter_active_band_slot_id_bytes(), 2) {
            Ok(d) => {
                proof {
                    lemma_leading_value_bound(d@);
                    lemma_pow10_values();
                }
                u8_from_ascii(d)
            },
            Err(e) => Err(e),
        }
    }
}

/// A `GetVfoATransverterActiveBandSlot` reply of 2 value bytes reads as the decimal number they spell; a value with a
/// byte that is not a digit is an `InvalidResponseData` error holding the value.
pub proof fn lemma_get_vfo_a_transverter_active_band_slot_reply(v: Seq<u8>)
    requires
        v.len() == 2,
    ensures
        all_digits(v) && digits_value(v) <= 255 ==> GetVfoATransverterActiveBandSlot::spec_parse_response(frame(get_vfo_a_transverter_active_band_slot_id(), v)) == Ok::<u8, Failure>(digits_value(v) as u8),
        !all_digits(v) ==> GetVfoATransverterActiveBandSlot::spec_parse_response(frame(get_vfo_a_transverter_active_band_slot_id(), v)) == Err::<u8, Failure>(Failure::ResponseData(v)),
{
    lemma_framed_value_reads_back(get_vfo_a_transverter_active_band_slot_id(), v);
}

/// `XV$`
pub open spec fn get_vfo_b_transverter_active_band_slot_id() -> Seq<u8> {
    seq![0x58, 0x56, 0x24]
}

fn get_vfo_b_transverter_active_band_slot_id_bytes() -> (r: &'static [u8])
    ensures
        r@ == get_vfo_b_transverter_active_band_slot_id(),
{
    &[0x58, 0x56, 0x24]
}

/// Get the active transverter band slot for VFO B (`XV$`).
#[derive(Clone, Copy, Debug, PartialEq, Eq)]
pub struct GetVfoBTransverterActiveBandSlot;

impl GetVfoBTransverterActiveBandSlot {
    pub fn to_bytes(&self) -> (r: Vec<u8>)
        ensures
            r@ == frame(get_vfo_b_transverter_active_band_slot_id(), seq![]),
    {
        let none: [u8; 0] = [];
        frame_command(get_vfo_b_transverter_active_band_slot_id_bytes(), &none)
    }

    pub open spec fn spec_parse_response(bytes: Seq<u8>) -> Result<u8, Failure> {
        match spec_validate_response(bytes, get_vfo_b_transverter_active_band_slot_id(), 2) {
            Ok(v) => spec_u8_field(v),
            Err(f) => Err(f),
        }
    }

    pub fn parse(&self, bytes: &[u8]) -> (r: Result<u8, RigError>)
        ensures
            agrees(r, Self::spec_parse_response(bytes@)),
    {
        match validate_response(bytes, get_vfo_b_transverter_active_band_slot_id_bytes(), 2) {
            Ok(d) => {
                proof {
                    lemma_leading_value_bound(d@);
                    lemma_pow10_values();
                }
                u8_from_ascii(d)
            },
            Err(e) => Err(e),
        }
    }
}

/// A `GetVfoBTransverterActiveBandSlot` reply of 2 value bytes reads as the decimal number they spell; a value with a
/// byte that is not a digit is an `InvalidResponseData` error holding the value.
pub proof fn lemma_get_vfo_b_transverter_active_band_slot_reply(v: Seq<u8>)
    requires
        v.len() == 2,
    ensures
        all_digits(v) && digits_value(v) <= 255 ==> GetVfoBTransverterActiveBandSlot::spec_parse_response(frame(get_vfo_b_transverter_active_band_slot_id(), v)) == Ok::<u8, Failure>(digits_value(v) as u8),
        !all_digits(v) ==> GetVfoBTransverterActiveBandSlot::spec_parse_response(frame(get_vfo_b_transverter_active_band_slot_id(), v)) == Err::<u8, Failure>(Failure::ResponseData(v)),
{
    lemma_framed_value_reads_back(get_vfo_b_transverter_active_band_slot_id(), v);
}

// ------------------------------------------------------------------------------------------------
// Reading back what was set
// ------------------------------------------------------------------------------------------------

/// The reply that echoes a `SetAtuMode` command reads as the value that was set.
pub proof fn lemma_atu_mode_round_trip(value: AtuMode)
    ensures
        GetAtuMode::spec_parse_response(frame(set_atu_mode_id(), (SetAtuMode { mode: value }).spec_args()))
            == Ok::<AtuMode, Failure>(value),
{
    let args = (SetAtuMode { mode: value }).spec_args();
    let bytes = frame(set_atu_mode_id(), args);
    assert(bytes.take(2) =~= get_atu_mode_id());
    assert(response_value(bytes, get_atu_mode_id()) =~= args);
}

/// The reply that echoes a `SetBandIndependenceState` command reads as the state that was set.
pub proof fn lemma_band_independence_state_round_trip(state: bool)
    ensures
        GetBandIndependenceState::spec_parse_response(frame(set_band_independence_state_id(), (SetBandIndependenceState { state: state }).spec_args()))
            == Ok::<bool, Failure>(state),
{
    let args = (SetBandIndependenceState { state: state }).spec_args();
    let bytes = frame(set_band_independence_state_id(), args);
    assert(bytes.take(2) =~= get_band_independence_state_id());
    assert(response_value(bytes, get_band_independence_state_id()) =~= args);
}

/// The reply that echoes a `SetDigitalAudioRoutingMode` command reads as the value that was set.
pub proof fn lemma_digital_audio_routing_mode_round_trip(value: DigitalAudioRoutingMode)
    ensures
        GetDigitalAudioRoutingMode::spec_parse_response(frame(set_digital_audio_routing_mode_id(), (SetDigitalAudioRoutingMode { mode: value }).spec_args()))
            == Ok::<DigitalAudioRoutingMode, Failure>(value),
{
    let args = (SetDigitalAudioRoutingMode { mode: value }).spec_args();
    let bytes = frame(set_digital_audio_routing_mode_id(), args);
    assert(bytes.take(2) =~= get_digital_audio_routing_mode_id());
    assert(response_value(bytes, get_digital_audio_routing_mode_id()) =~= args);
}

/// The reply that echoes a `SetErrorReportingState` command reads as the state that was set.
pub proof fn lemma_error_reporting_state_round_trip(state: bool)
    ensures
        GetErrorReportingState::spec_parse_response(frame(set_error_reporting_state_id(), (SetErrorReportingState { state: state }).spec_args()))
            == Ok::<bool, Failure>(state),
{
    let args = (SetErrorReportingState { state: state }).spec_args();
    let bytes = frame(set_error_reporting_state_id(), args);
    assert(bytes.take(2) =~= get_error_reporting_state_id());
    assert(response_value(bytes, get_error_reporting_state_id()) =~= args);
}

/// A value set with `SetVfoAFilterPresetSlot` reads back unchanged from the echoed reply.
pub proof fn lemma_vfo_a_filter_preset_slot_round_trip(value: u8)
    requires
        value < 10,
        1 <= value,
        value <= 8,
    ensures
        GetVfoAFilterPresetSlot::spec_parse_response(frame(set_vfo_a_filter_preset_slot_id(), uint_args(value as u32, 1))) == Ok::<u8, Failure>(value),
{
    let args = uint_args(value as u32, 1);
    lemma_padded_decimal_value(value as nat, 1);
    lemma_pow10_values();
    lemma_num_digits_le(value as nat, 1);
    let bytes = frame(set_vfo_a_filter_preset_slot_id(), args);
    assert(bytes.take(2) =~= get_vfo_a_filter_preset_slot_id());
    assert(response_value(bytes, get_vfo_a_filter_preset_slot_id()) =~= args);
}

/// A value set with `SetVfoBFilterPresetSlot` reads back unchanged from the echoed reply.
pub proof fn lemma_vfo_b_filter_preset_slot_round_trip(value: u8)
    requires
        value < 10,
        1 <= value,
        value <= 8,
    ensures
        GetVfoBFilterPresetSlot::spec_parse_response(frame(set_vfo_b_filter_preset_slot_id(), uint_args(value as u32, 1))) == Ok::<u8, Failure>(value),
{
    let args = uint_args(value as u32, 1);
    lemma_padded_decimal_value(value as nat, 1);
    lemma_pow10_values();
    lemma_num_digits_le(value as nat, 1);
    let bytes = frame(set_vfo_b_filter_preset_slot_id(), args);
    assert(bytes.take(3) =~= get_vfo_b_filter_preset_slot_id());
    assert(response_value(bytes, get_vfo_b_filter_preset_slot_id()) =~= args);
}

/// A value set with `SetVfoAAgcMode` reads back unchanged from the echoed reply.
pub proof fn lemma_vfo_a_agc_mode_round_trip(value: u8)
    requires
        value < 100,
        value <= 3,
    ensures
        GetVfoAAgcMode::spec_parse_response(frame(set_vfo_a_agc_mode_id(), uint_args(value as u32, 2))) == Ok::<u8, Failure>(value),
{
    let args = uint_args(value as u32, 2);
    lemma_padded_decimal_value(value as nat, 2);
    lemma_pow10_values();
    lemma_num_digits_le(value as nat, 2);
    let bytes = frame(set_vfo_a_agc_mode_id(), args);
    assert(bytes.take(2) =~= get_vfo_a_agc_mode_id());
    assert(response_value(bytes, get_vfo_a_agc_mode_id()) =~= args);
}

/// A value set with `SetVfoBAgcMode` reads back unchanged from the echoed reply.
pub proof fn lemma_vfo_b_agc_mode_round_trip(value: u8)
    requires
        value < 100,
        value <= 3,
    ensures
        GetVfoBAgcMode::spec_parse_response(frame(set_vfo_b_agc_mode_id(), uint_args(value as u32, 2))) == Ok::<u8, Failure>(value),
{
    let args = uint_args(value as u32, 2);
    lemma_padded_decimal_value(value as nat, 2);
    lemma_pow10_values();
    lemma_num_digits_le(value as nat, 2);
    let bytes = frame(set_vfo_b_agc_mode_id(), args);
    assert(bytes.take(3) =~= get_vfo_b_agc_mode_id());
    assert(response_value(bytes, get_vfo_b_agc_mode_id()) =~= args);
}

/// The reply that echoes a `SetKeyerPaddleEmulationMode` command reads as the value that was set.
pub proof fn lemma_keyer_paddle_emulation_mode_round_trip(value: KeyerPaddleEmulationMode)
    ensures
        GetKeyerPaddleEmulationMode::spec_parse_response(frame(set_keyer_paddle_emulation_mode_id(), (SetKeyerPaddleEmulationMode { mode: value }).spec_args()))
            == Ok::<KeyerPaddleEmulationMode, Failure>(value),
{
    let args = (SetKeyerPaddleEmulationMode { mode: value }).spec_args();
    let bytes = frame(set_keyer_paddle_emulation_mode_id(), args);
    assert(bytes.take(2) =~= get_keyer_paddle_emulation_mode_id());
    assert(response_value(bytes, get_keyer_paddle_emulation_mode_id()) =~= args);
}

/// A value set with `SetAudioLineInputLevel` reads back unchanged from the echoed reply.
pub proof fn lemma_audio_line_input_level_round_trip(value: u8)
    requires
        value < 1000,
        value <= 60,
    ensures
        GetAudioLineInputLevel::spec_parse_response(frame(set_audio_line_input_level_id(), uint_args(value as u32, 3))) == Ok::<u8, Failure>(value),
{
    let args = uint_args(value as u32, 3);
    lemma_padded_decimal_value(value as nat, 3);
    lemma_pow10_values();
    lemma_num_digits_le(value as nat, 3);
    let bytes = frame(set_audio_line_input_level_id(), args);
    assert(bytes.take(2) =~= get_audio_line_input_level_id());
    assert(response_value(bytes, get_audio_line_input_level_id()) =~= args);
}

/// A value set with `SetAudioLineOutputLevel` reads back unchanged from the echoed reply.
pub proof fn lemma_audio_line_output_level_round_trip(value: u8)
    requires
        value < 1000,
        value <= 60,
    ensures
        GetAudioLineOutputLevel::spec_parse_response(frame(set_audio_line_output_level_id(), uint_args(value as u32, 3))) == Ok::<u8, Failure>(value),
{
    let args = uint_args(value as u32, 3);
    lemma_padded_decimal_value(value as nat, 3);
    lemma_pow10_values();
    lemma_num_digits_le(value as nat, 3);
    let bytes = frame(set_audio_line_output_level_id(), args);
    assert(bytes.take(2) =~= get_audio_line_output_level_id());
    assert(response_value(bytes, get_audio_line_output_level_id()) =~= args);
}

/// The reply that echoes a `SetMicInputSource` command reads as the value that was set.
pub proof fn lemma_mic_input_source_round_trip(value: MicInputSource)
    ensures
        GetMicInputSource::spec_parse_response(frame(set_mic_input_source_id(), (SetMicInputSource { input: value }).spec_args()))
            == Ok::<MicInputSource, Failure>(value),
{
    let args = (SetMicInputSource { input: value }).spec_args();
    let bytes = frame(set_mic_input_source_id(), args);
    assert(bytes.take(2) =~= get_mic_input_source_id());
    assert(response_value(bytes, get_mic_input_source_id()) =~= args);
}

/// A value set with `SetAudioMixRatio` reads back unchanged from the echoed reply.
pub proof fn lemma_audio_mix_ratio_round_trip(value: u8)
    requires
        value < 100,
        value <= 99,
    ensures
        GetAudioMixRatio::spec_parse_response(frame(set_audio_mix_ratio_id(), uint_args(value as u32, 2))) == Ok::<u8, Failure>(value),
{
    let args = uint_args(value as u32, 2);
    lemma_padded_decimal_value(value as nat, 2);
    lemma_pow10_values();
    lemma_num_digits_le(value as nat, 2);
    let bytes = frame(set_audio_mix_ratio_id(), args);
    assert(bytes.take(2) =~= get_audio_mix_ratio_id());
    assert(response_value(bytes, get_audio_mix_ratio_id()) =~= args);
}

/// The reply that echoes a `SetVfoAAutoNotchState` command reads as the state that was set.
pub proof fn lemma_vfo_a_auto_notch_state_round_trip(state: bool)
    ensures
        GetVfoAAutoNotchState::spec_parse_response(frame(set_vfo_a_auto_notch_state_id(), (SetVfoAAutoNotchState { state: state }).spec_args()))
            == Ok::<bool, Failure>(state),
{
    let args = (SetVfoAAutoNotchState { state: state }).spec_args();
    let bytes = frame(set_vfo_a_auto_notch_state_id(), args);
    assert(bytes.take(2) =~= get_vfo_a_auto_notch_state_id());
    assert(response_value(bytes, get_vfo_a_auto_notch_state_id()) =~= args);
}

/// The reply that echoes a `SetVfoBAutoNotchState` command reads as the state that was set.
pub proof fn lemma_vfo_b_auto_notch_state_round_trip(state: bool)
    ensures
        GetVfoBAutoNotchState::spec_parse_response(frame(set_vfo_b_auto_notch_state_id(), (SetVfoBAutoNotchState { state: state }).spec_args()))
            == Ok::<bool, Failure>(state),
{
    let args = (SetVfoBAutoNotchState { state: state }).spec_args();
    let bytes = frame(set_vfo_b_auto_notch_state_id(), args);
    assert(bytes.take(3) =~= get_vfo_b_auto_notch_state_id());
    assert(response_value(bytes, get_vfo_b_auto_notch_state_id()) =~= args);
}

/// The reply that echoes a `SetPowerStatus` command reads as the value that was set.
pub proof fn lemma_power_status_round_trip(value: PowerStatus)
    ensures
        GetPowerStatus::spec_parse_response(frame(set_power_status_id(), (SetPowerStatus { state: value }).spec_args()))
            == Ok::<PowerStatus, Failure>(value),
{
    let args = (SetPowerStatus { state: value }).spec_args();
    let bytes = frame(set_power_status_id(), args);
    assert(bytes.take(2) =~= get_power_status_id());
    assert(response_value(bytes, get_power_status_id()) =~= args);
}

/// The reply that echoes a `SetActiveSoftwareReleaseChannel` command reads as the value that was set.
pub proof fn lemma_active_software_release_channel_round_trip(value: SoftwareReleaseChannel)
    ensures
        GetActiveSoftwareReleaseChannel::spec_parse_response(frame(set_active_software_release_channel_id(), (SetActiveSoftwareReleaseChannel { channel: value }).spec_args()))
            == Ok::<SoftwareReleaseChannel, Failure>(value),
{
    let args = (SetActiveSoftwareReleaseChannel { channel: value }).spec_args();
    let bytes = frame(set_active_software_release_channel_id(), args);
    assert(bytes.take(2) =~= get_active_software_release_channel_id());
    assert(response_value(bytes, get_active_software_release_channel_id()) =~= args);
}

/// A value set with `SetStreamingLatencyClass` reads back unchanged from the echoed reply.
pub proof fn lemma_streaming_latency_class_round_trip(value: u8)
    requires
        value < 100,
        value <= 99,
    ensures
        GetStreamingLatencyClass::spec_parse_response(frame(set_streaming_latency_class_id(), uint_args(value as u32, 2))) == Ok::<u8, Failure>(value),
{
    let args = uint_args(value as u32, 2);
    lemma_padded_decimal_value(value as nat, 2);
    lemma_pow10_values();
    lemma_num_digits_le(value as nat, 2);
    let bytes = frame(set_streaming_latency_class_id(), args);
    assert(bytes.take(2) =~= get_streaming_latency_class_id());
    assert(response_value(bytes, get_streaming_latency_class_id()) =~= args);
}

/// The reply that echoes a `SetVfoATextDecodeMode` command reads as the value that was set.
pub proof fn lemma_vfo_a_text_decode_mode_round_trip(value: TextDecodeMode)
    ensures
        GetVfoATextDecodeMode::spec_parse_response(frame(set_vfo_a_text_decode_mode_id(), (SetVfoATextDecodeMode { mode: value }).spec_args()))
            == Ok::<TextDecodeMode, Failure>(value),
{
    let args = (SetVfoATextDecodeMode { mode: value }).spec_args();
    let bytes = frame(set_vfo_a_text_decode_mode_id(), args);
    assert(bytes.take(2) =~= get_vfo_a_text_decode_mode_id());
    assert(response_value(bytes, get_vfo_a_text_decode_mode_id()) =~= args);
}

/// The reply that echoes a `SetVfoBTextDecodeMode` command reads as the value that was set.
pub proof fn lemma_vfo_b_text_decode_mode_round_trip(value: TextDecodeMode)
    ensures
        GetVfoBTextDecodeMode::spec_parse_response(frame(set_vfo_b_text_decode_mode_id(), (SetVfoBTextDecodeMode { mode: value }).spec_args()))
            == Ok::<TextDecodeMode, Failure>(value),
{
    let args = (SetVfoBTextDecodeMode { mode: value }).spec_args();
    let bytes = frame(set_vfo_b_text_decode_mode_id(), args);
    assert(bytes.take(3) =~= get_vfo_b_text_decode_mode_id());
    assert(response_value(bytes, get_vfo_b_text_decode_mode_id()) =~= args);
}

/// The reply that echoes a `SetTransmitTestModeState` command reads as the state that was set.
pub proof fn lemma_transmit_test_mode_state_round_trip(state: bool)
    ensures
        GetTransmitTestModeState::spec_parse_response(frame(set_transmit_test_mode_state_id(), (SetTransmitTestModeState { state: state }).spec_args()))
            == Ok::<bool, Failure>(state),
{
    let args = (SetTransmitTestModeState { state: state }).spec_args();
    let bytes = frame(set_transmit_test_mode_state_id(), args);
    assert(bytes.take(2) =~= get_transmit_test_mode_state_id());
    assert(response_value(bytes, get_transmit_test_mode_state_id()) =~= args);
}

/// A value set with `SetCoarseTuningStep` reads back unchanged from the echoed reply.
pub proof fn lemma_coarse_tuning_step_round_trip(value: u8)
    requires
        value < 100,
        value <= 99,
    ensures
        GetCoarseTuningStep::spec_parse_response(frame(set_coarse_tuning_step_id(), uint_args(value as u32, 2))) == Ok::<u8, Failure>(value),
{
    let args = uint_args(value as u32, 2);
    lemma_padded_decimal_value(value as nat, 2);
    lemma_pow10_values();
    lemma_num_digits_le(value as nat, 2);
    let bytes = frame(set_coarse_tuning_step_id(), args);
    assert(bytes.take(2) =~= get_coarse_tuning_step_id());
    assert(response_value(bytes, get_coarse_tuning_step_id()) =~= args);
}

/// A value set with `SetVoxGain` reads back unchanged from the echoed reply.
pub proof fn lemma_vox_gain_round_trip(value: u8)
    requires
        value < 1000,
        value <= 9,
    ensures
        GetVoxGain::spec_parse_response(frame(set_vox_gain_id(), uint_args(value as u32, 3))) == Ok::<u8, Failure>(value),
{
    let args = uint_args(value as u32, 3);
    lemma_padded_decimal_value(value as nat, 3);
    lemma_pow10_values();
    lemma_num_digits_le(value as nat, 3);
    let bytes = frame(set_vox_gain_id(), args);
    assert(bytes.take(2) =~= get_vox_gain_id());
    assert(response_value(bytes, get_vox_gain_id()) =~= args);
}

/// The reply that echoes a `SetVoxInhibitState` command reads as the state that was set.
pub proof fn lemma_vox_inhibit_state_round_trip(state: bool)
    ensures
        GetVoxInhibitState::spec_parse_response(frame(set_vox_inhibit_state_id(), (SetVoxInhibitState { state: state }).spec_args()))
            == Ok::<bool, Failure>(state),
{
    let args = (SetVoxInhibitState { state: state }).spec_args();
    let bytes = frame(set_vox_inhibit_state_id(), args);
    assert(bytes.take(2) =~= get_vox_inhibit_state_id());
    assert(response_value(bytes, get_vox_inhibit_state_id()) =~= args);
}

/// A value set with `SetWattmeterCalibrationConstant` reads back unchanged from the echoed reply.
pub proof fn lemma_wattmeter_calibration_constant_round_trip(value: u8)
    requires
        value < 1000,
    ensures
        GetWattmeterCalibrationConstant::spec_parse_response(frame(set_wattmeter_calibration_constant_id(), (SetWattmeterCalibrationConstant { value: value }).spec_args())) == Ok::<u8, Failure>(value),
{
    let args = (SetWattmeterCalibrationConstant { value: value }).spec_args();
    lemma_padded_decimal_value(value as nat, 3);
    lemma_pow10_values();
    lemma_num_digits_le(value as nat, 3);
    let bytes = frame(set_wattmeter_calibration_constant_id(), args);
    assert(bytes.take(2) =~= get_wattmeter_calibration_constant_id());
    assert(response_value(bytes, get_wattmeter_calibration_constant_id()) =~= args);
}

} // verus!
