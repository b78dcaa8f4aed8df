//! CAT commands for the Elecraft KPA1500 1500 W solid-state HF and 6 m amplifier.
//!
//! Every KPA1500 command and response starts with a caret (`^`), as in `^BN05;`; the GET form of
//! a command is its letters with no data, as in `^BN;`. Commands follow the KPA1500 Programming
//! Reference, rev 3.03.


use vstd::prelude::*;

use crate::protocol::cat::digits::pow10;

use crate::protocol::cat::lemma_framed_value_reads_back;

use crate::error::{Failure, RigError, agrees};
use crate::protocol::cat::{encode_uint_in_range, frame, frame_command, uint_args};
use crate::protocol::cat::common::{
    all_printable_ascii, ascii_chars, string_from_ascii, ASCII_DIGIT_ONE, ASCII_DIGIT_ZERO, bool_from_ascii_1_0, decimal_string, format_uint_ascii,
    response_value, spec_bool_1_0, spec_u16_field, spec_u32_field, spec_u8_field,
    spec_validate_response, u16_from_ascii, u32_from_ascii, u8_from_ascii,
    validate_integer_in_range, validate_response,
};
use crate::protocol::cat::digits::{
    all_digits, digits_value,
    leading_value, lemma_leading_value_bound, lemma_num_digits_le, lemma_padded_decimal_value,
    lemma_pow10_values, padded_decimal,
};

verus! {

/// `^AA`
pub open spec fn get_auto_antenna_selection_id() -> Seq<u8> {
    seq![0x5E, 0x41, 0x41]
}

fn get_auto_antenna_selection_id_bytes() -> (r: &'static [u8])
    ensures
        r@ == get_auto_antenna_selection_id(),
{
    &[0x5E, 0x41, 0x41]
}

/// Get whether automatic antenna selection is enabled.
#[derive(Clone, Copy, Debug, PartialEq, Eq)]
pub struct GetAutoAntennaSelection;

impl GetAutoAntennaSelection {
    pub fn to_bytes(&self) -> (r: Vec<u8>)
        ensures
            r@ == frame(get_auto_antenna_selection_id(), seq![]),
    {
        let none: [u8; 0] = [];
        frame_command(get_auto_antenna_selection_id_bytes(), &none)
    }

    pub open spec fn spec_parse_response(bytes: Seq<u8>) -> Result<bool, Failure> {
        match spec_validate_response(bytes, get_auto_antenna_selection_id(), 1) {
            Ok(v) => spec_bool_1_0(v[0]),
            Err(f) => Err(f),
        }
    }

    pub fn parse(&self, bytes: &[u8]) -> (r: Result<bool, RigError>)
        ensures
            agrees(r, Self::spec_parse_response(bytes@)),
    {
        match validate_response(bytes, get_auto_antenna_selection_id_bytes(), 1) {
            Ok(d) => bool_from_ascii_1_0(d[0]),
            Err(e) => Err(e),
        }
    }
}

/// A `GetAutoAntennaSelection` reply whose value byte is `1` reads as `true`, `0` as `false`; any other byte is a
/// `ParseBoolean` error.
pub proof fn lemma_get_auto_antenna_selection_reply(v: Seq<u8>)
    requires
        v.len() == 1,
    ensures
        v[0] == 0x31 ==> GetAutoAntennaSelection::spec_parse_response(frame(get_auto_antenna_selection_id(), v)) == Ok::<bool, Failure>(true),
        v[0] == 0x30 ==> GetAutoAntennaSelection::spec_parse_response(frame(get_auto_antenna_selection_id(), v)) == Ok::<bool, Failure>(false),
        v[0] != 0x30 && v[0] != 0x31 ==> GetAutoAntennaSelection::spec_parse_response(frame(get_auto_antenna_selection_id(), v)) == Err::<bool, Failure>(Failure::Boolean(v[0])),
{
    lemma_framed_value_reads_back(get_auto_antenna_selection_id(), v);
}

/// `^AA`
pub open spec fn set_auto_antenna_selection_id() -> Seq<u8> {
    seq![0x5E, 0x41, 0x41]
}

fn set_auto_antenna_selection_id_bytes() -> (r: &'static [u8])
    ensures
        r@ == set_auto_antenna_selection_id(),
{
    &[0x5E, 0x41, 0x41]
}

/// Set whether automatic antenna selection is enabled.
#[derive(Clone, Copy, Debug, PartialEq, Eq)]
pub struct SetAutoAntennaSelection {
    pub enabled: bool,
}

impl SetAutoAntennaSelection {
    pub open spec fn spec_args(self) -> Seq<u8> {
        seq![if self.enabled { ASCII_DIGIT_ONE } else { ASCII_DIGIT_ZERO }]
    }

    pub fn to_bytes(&self) -> (r: Vec<u8>)
        ensures
            r@ == frame(set_auto_antenna_selection_id(), self.spec_args()),
    {
        let args: [u8; 1] = [if self.enabled { ASCII_DIGIT_ONE } else { ASCII_DIGIT_ZERO }];
        assert(args@ =~= self.spec_args());
        frame_command(set_auto_antenna_selection_id_bytes(), &args)
    }
}

/// `SetAutoAntennaSelection` sends `1` when `enabled` is set and `0` when it is clear.
pub proof fn lemma_set_auto_antenna_selection_argument(s: SetAutoAntennaSelection)
    ensures
        s.enabled ==> s.spec_args() == seq![0x31u8],
        !s.enabled ==> s.spec_args() == seq![0x30u8],
{
}

/// `^AB`
pub open spec fn get_antenna_band_map_id() -> Seq<u8> {
    seq![0x5E, 0x41, 0x42]
}

fn get_antenna_band_map_id_bytes() -> (r: &'static [u8])
    ensures
        r@ == get_antenna_band_map_id(),
{
    &[0x5E, 0x41, 0x42]
}

/// Get the antenna port assigned to the current band.
#[derive(Clone, Copy, Debug, PartialEq, Eq)]
pub struct GetAntennaBandMap;

impl GetAntennaBandMap {
    pub fn to_bytes(&self) -> (r: Vec<u8>)
        ensures
            r@ == frame(get_antenna_band_map_id(), seq![]),
    {
        let none: [u8; 0] = [];
        frame_command(get_antenna_band_map_id_bytes(), &none)
    }

    pub open spec fn spec_parse_response(bytes: Seq<u8>) -> Result<u8, Failure> {
        match spec_validate_response(bytes, get_antenna_band_map_id(), 1) {
            Ok(v) => spec_u8_field(v),
            Err(f) => Err(f),
        }
    }

    pub fn parse(&self, bytes: &[u8]) -> (r: Result<u8, RigError>)
        ensures
            agrees(r, Self::spec_parse_response(bytes@)),
    {
        match validate_response(bytes, get_antenna_band_map_id_bytes(), 1) {
            Ok(d) => {
                proof {
                    lemma_leading_value_bound(d@);
                    lemma_pow10_values();
                }
                u8_from_ascii(d)
            },
            Err(e) => Err(e),
        }
    }
}

/// A `GetAntennaBandMap` reply of 1 value bytes reads as the decimal number they spell; a value with a
/// byte that is not a digit is an `InvalidResponseData` error holding the value.
pub proof fn lemma_get_antenna_band_map_reply(v: Seq<u8>)
    requires
        v.len() == 1,
    ensures
        all_digits(v) && digits_value(v) <= 255 ==> GetAntennaBandMap::spec_parse_response(frame(get_antenna_band_map_id(), v)) == Ok::<u8, Failure>(digits_value(v) as u8),
        !all_digits(v) ==> GetAntennaBandMap::spec_parse_response(frame(get_antenna_band_map_id(), v)) == Err::<u8, Failure>(Failure::ResponseData(v)),
{
    lemma_framed_value_reads_back(get_antenna_band_map_id(), v);
}

/// `^AB`
pub open spec fn set_antenna_band_map_id() -> Seq<u8> {
    seq![0x5E, 0x41, 0x42]
}

fn set_antenna_band_map_id_bytes() -> (r: &'static [u8])
    ensures
        r@ == set_antenna_band_map_id(),
{
    &[0x5E, 0x41, 0x42]
}

/// Set the antenna port assigned to the current band.
#[derive(Clone, Copy, Debug, PartialEq, Eq)]
pub struct SetAntennaBandMap {
    pub antenna: u8,
}

impl SetAntennaBandMap {
    /// The values the command accepts.
    pub open spec fn spec_in_range(self) -> bool {
        1 <= self.antenna <= 2
    }

    /// The argument bytes.
    pub open spec fn spec_args(self) -> Seq<u8> {
        uint_args(self.antenna as u32, 1)
    }

    /// The command, or `InvalidArgumentValue` for a value out of range.
    pub fn to_bytes(&self) -> (r: Result<Vec<u8>, RigError>)
        ensures
            self.spec_in_range() ==> (r matches Ok(b) && b@ == frame(set_antenna_band_map_id(), self.spec_args())),
            !self.spec_in_range() ==> (r matches Err(e) && e.fails_with(
                Failure::ArgumentValue("antenna"@, "u8"@, decimal_string(self.antenna as int)),
            )),
    {
        encode_uint_in_range(set_antenna_band_map_id_bytes(), "antenna", "u8", self.antenna as u32, 1, 2, 1)
    }
}

/// `SetAntennaBandMap` accepts `antenna` when `1 <= s.antenna <= 2` and sends it as decimal digits, zero-padded to 1.
pub proof fn lemma_set_antenna_band_map_argument(s: SetAntennaBandMap)
    ensures
        s.spec_in_range() == (1 <= s.antenna <= 2),
        all_digits(s.spec_args()),
        digits_value(s.spec_args()) == s.antenna,
        (s.antenna as nat) < pow10(1) ==> s.spec_args().len() == 1,
{
    lemma_padded_decimal_value(s.antenna as nat, 1);
    if (s.antenna as nat) < pow10(1) {
        lemma_num_digits_le(s.antenna as nat, 1);
    }
}

/// `^AE`
pub open spec fn get_alc_enable_id() -> Seq<u8> {
    seq![0x5E, 0x41, 0x45]
}

fn get_alc_enable_id_bytes() -> (r: &'static [u8])
    ensures
        r@ == get_alc_enable_id(),
{
    &[0x5E, 0x41, 0x45]
}

/// Get whether the ALC (Automatic Level Control) output is enabled.
#[derive(Clone, Copy, Debug, PartialEq, Eq)]
pub struct GetAlcEnable;

impl GetAlcEnable {
    pub fn to_bytes(&self) -> (r: Vec<u8>)
        ensures
            r@ == frame(get_alc_enable_id(), seq![]),
    {
        let none: [u8; 0] = [];
        frame_command(get_alc_enable_id_bytes(), &none)
    }

    pub open spec fn spec_parse_response(bytes: Seq<u8>) -> Result<bool, Failure> {
        match spec_validate_response(bytes, get_alc_enable_id(), 1) {
            Ok(v) => spec_bool_1_0(v[0]),
            Err(f) => Err(f),
        }
    }

    pub fn parse(&self, bytes: &[u8]) -> (r: Result<bool, RigError>)
        ensures
            agrees(r, Self::spec_parse_response(bytes@)),
    {
        match validate_response(bytes, get_alc_enable_id_bytes(), 1) {
            Ok(d) => bool_from_ascii_1_0(d[0]),
            Err(e) => Err(e),
        }
    }
}

/// A `GetAlcEnable` reply whose value byte is `1` reads as `true`, `0` as `false`; any other byte is a
/// `ParseBoolean` error.
pub proof fn lemma_get_alc_enable_reply(v: Seq<u8>)
    requires
        v.len() == 1,
    ensures
        v[0] == 0x31 ==> GetAlcEnable::spec_parse_response(frame(get_alc_enable_id(), v)) == Ok::<bool, Failure>(true),
        v[0] == 0x30 ==> GetAlcEnable::spec_parse_response(frame(get_alc_enable_id(), v)) == Ok::<bool, Failure>(false),
        v[0] != 0x30 && v[0] != 0x31 ==> GetAlcEnable::spec_parse_response(frame(get_alc_enable_id(), v)) == Err::<bool, Failure>(Failure::Boolean(v[0])),
{
    lemma_framed_value_reads_back(get_alc_enable_id(), v);
}

/// `^AE`
pub open spec fn set_alc_enable_id() -> Seq<u8> {
    seq![0x5E, 0x41, 0x45]
}

fn set_alc_enable_id_bytes() -> (r: &'static [u8])
    ensures
        r@ == set_alc_enable_id(),
{
    &[0x5E, 0x41, 0x45]
}

/// Set whether the ALC (Automatic Level Control) output is enabled.
#[derive(Clone, Copy, Debug, PartialEq, Eq)]
pub struct SetAlcEnable {
    pub enabled: bool,
}

impl SetAlcEnable {
    pub open spec fn spec_args(self) -> Seq<u8> {
        seq![if self.enabled { ASCII_DIGIT_ONE } else { ASCII_DIGIT_ZERO }]
    }

    pub fn to_bytes(&self) -> (r: Vec<u8>)
        ensures
            r@ == frame(set_alc_enable_id(), self.spec_args()),
    {
        let args: [u8; 1] = [if self.enabled { ASCII_DIGIT_ONE } else { ASCII_DIGIT_ZERO }];
        assert(args@ =~= self.spec_args());
        frame_command(set_alc_enable_id_bytes(), &args)
    }
}

/// `SetAlcEnable` sends `1` when `enabled` is set and `0` when it is clear.
pub proof fn lemma_set_alc_enable_argument(s: SetAlcEnable)
    ensures
        s.enabled ==> s.spec_args() == seq![0x31u8],
        !s.enabled ==> s.spec_args() == seq![0x30u8],
{
}

/// `^AI`
pub open spec fn get_auto_info_mode_id() -> Seq<u8> {
    seq![0x5E, 0x41, 0x49]
}

fn get_auto_info_mode_id_bytes() -> (r: &'static [u8])
    ensures
        r@ == get_auto_info_mode_id(),
{
    &[0x5E, 0x41, 0x49]
}

/// Get the auto-information (AI) mode.
#[derive(Clone, Copy, Debug, PartialEq, Eq)]
pub struct GetAutoInfoMode;

impl GetAutoInfoMode {
    pub fn to_bytes(&self) -> (r: Vec<u8>)
        ensures
            r@ == frame(get_auto_info_mode_id(), seq![]),
    {
        let none: [u8; 0] = [];
        frame_command(get_auto_info_mode_id_bytes(), &none)
    }

    pub open spec fn spec_parse_response(bytes: Seq<u8>) -> Result<bool, Failure> {
        match spec_validate_response(bytes, get_auto_info_mode_id(), 1) {
            Ok(v) => spec_bool_1_0(v[0]),
            Err(f) => Err(f),
        }
    }

    pub fn parse(&self, bytes: &[u8]) -> (r: Result<bool, RigError>)
        ensures
            agrees(r, Self::spec_parse_response(bytes@)),
    {
        match validate_response(bytes, get_auto_info_mode_id_bytes(), 1) {
            Ok(d) => bool_from_ascii_1_0(d[0]),
            Err(e) => Err(e),
        }
    }
}

/// A `GetAutoInfoMode` reply whose value byte is `1` reads as `true`, `0` as `false`; any other byte is a
/// `ParseBoolean` error.
pub proof fn lemma_get_auto_info_mode_reply(v: Seq<u8>)
    requires
        v.len() == 1,
    ensures
        v[0] == 0x31 ==> GetAutoInfoMode::spec_parse_response(frame(get_auto_info_mode_id(), v)) == Ok::<bool, Failure>(true),
        v[0] == 0x30 ==> GetAutoInfoMode::spec_parse_response(frame(get_auto_info_mode_id(), v)) == Ok::<bool, Failure>(false),
        v[0] != 0x30 && v[0] != 0x31 ==> GetAutoInfoMode::spec_parse_response(frame(get_auto_info_mode_id(), v)) == Err::<bool, Failure>(Failure::Boolean(v[0])),
{
    lemma_framed_value_reads_back(get_auto_info_mode_id(), v);
}

/// `^AI`
pub open spec fn set_auto_info_mode_id() -> Seq<u8> {
    seq![0x5E, 0x41, 0x49]
}

fn set_auto_info_mode_id_bytes() -> (r: &'static [u8])
    ensures
        r@ == set_auto_info_mode_id(),
{
    &[0x5E, 0x41, 0x49]
}

/// Set the auto-information (AI) mode.
#[derive(Clone, Copy, Debug, PartialEq, Eq)]
pub struct SetAutoInfoMode {
    pub enabled: bool,
}

impl SetAutoInfoMode {
    pub open spec fn spec_args(self) -> Seq<u8> {
        seq![if self.enabled { ASCII_DIGIT_ONE } else { ASCII_DIGIT_ZERO }]
    }

    pub fn to_bytes(&self) -> (r: Vec<u8>)
        ensures
            r@ == frame(set_auto_info_mode_id(), self.spec_args()),
    {
        let args: [u8; 1] = [if self.enabled { ASCII_DIGIT_ONE } else { ASCII_DIGIT_ZERO }];
        assert(args@ =~= self.spec_args());
        frame_command(set_auto_info_mode_id_bytes(), &args)
    }
}

/// `SetAutoInfoMode` sends `1` when `enabled` is set and `0` when it is clear.
pub proof fn lemma_set_auto_info_mode_argument(s: SetAutoInfoMode)
    ensures
        s.enabled ==> s.spec_args() == seq![0x31u8],
        !s.enabled ==> s.spec_args() == seq![0x30u8],
{
}

/// `^AL`
pub open spec fn get_alc_threshold_id() -> Seq<u8> {
    seq![0x5E, 0x41, 0x4C]
}

fn get_alc_threshold_id_bytes() -> (r: &'static [u8])
    ensures
        r@ == get_alc_threshold_id(),
{
    &[0x5E, 0x41, 0x4C]
}

/// Get the ALC (Automatic Level Control) threshold for the current band.
#[derive(Clone, Copy, Debug, PartialEq, Eq)]
pub struct GetAlcThreshold;

impl GetAlcThreshold {
    pub fn to_bytes(&self) -> (r: Vec<u8>)
        ensures
            r@ == frame(get_alc_threshold_id(), seq![]),
    {
        let none: [u8; 0] = [];
        frame_command(get_alc_threshold_id_bytes(), &none)
    }

    pub open spec fn spec_parse_response(bytes: Seq<u8>) -> Result<u16, Failure> {
        match spec_validate_response(bytes, get_alc_threshold_id(), 3) {
            Ok(v) => spec_u16_field(v),
            Err(f) => Err(f),
        }
    }

    pub fn parse(&self, bytes: &[u8]) -> (r: Result<u16, RigError>)
        ensures
            agrees(r, Self::spec_parse_response(bytes@)),
    {
        match validate_response(bytes, get_alc_threshold_id_bytes(), 3) {
            Ok(d) => {
                proof {
                    lemma_leading_value_bound(d@);
                    lemma_pow10_values();
                }
                u16_from_ascii(d)
            },
            Err(e) => Err(e),
        }
    }
}

/// A `GetAlcThreshold` reply of 3 value bytes reads as the decimal number they spell; a value with a
/// byte that is not a digit is an `InvalidResponseData` error holding the value.
pub proof fn lemma_get_alc_threshold_reply(v: Seq<u8>)
    requires
        v.len() == 3,
    ensures
        all_digits(v) && digits_value(v) <= u16::MAX ==> GetAlcThreshold::spec_parse_response(frame(get_alc_threshold_id(), v)) == Ok::<u16, Failure>(digits_value(v) as u16),
        !all_digits(v) ==> GetAlcThreshold::spec_parse_response(frame(get_alc_threshold_id(), v)) == Err::<u16, Failure>(Failure::ResponseData(v)),
{
    lemma_framed_value_reads_back(get_alc_threshold_id(), v);
}

/// `^AL`
pub open spec fn set_alc_threshold_id() -> Seq<u8> {
    seq![0x5E, 0x41, 0x4C]
}

fn set_alc_threshold_id_bytes() -> (r: &'static [u8])
    ensures
        r@ == set_alc_threshold_id(),
{
    &[0x5E, 0x41, 0x4C]
}

/// Set the ALC (Automatic Level Control) threshold for the current band.
#[derive(Clone, Copy, Debug, PartialEq, Eq)]
pub struct SetAlcThreshold {
    pub value: u16,
}

impl SetAlcThreshold {
    /// The values the command accepts.
    pub open spec fn spec_in_range(self) -> bool {
        self.value <= 210
    }

    /// The argument bytes.
    pub open spec fn spec_args(self) -> Seq<u8> {
        uint_args(self.value as u32, 3)
    }

    /// The command, or `InvalidArgumentValue` for a value out of range.
    pub fn to_bytes(&self) -> (r: Result<Vec<u8>, RigError>)
        ensures
            self.spec_in_range() ==> (r matches Ok(b) && b@ == frame(set_alc_threshold_id(), self.spec_args())),
            !self.spec_in_range() ==> (r matches Err(e) && e.fails_with(
                Failure::ArgumentValue("value"@, "u16"@, decimal_string(self.value as int)),
            )),
    {
        encode_uint_in_range(set_alc_threshold_id_bytes(), "value", "u16", self.value as u32, 0, 210, 3)
    }
}

/// `SetAlcThreshold` accepts `value` when `s.value <= 210` and sends it as decimal digits, zero-padded to 3.
pub proof fn lemma_set_alc_threshold_argument(s: SetAlcThreshold)
    ensures
        s.spec_in_range() == (s.value <= 210),
        all_digits(s.spec_args()),
        digits_value(s.spec_args()) == s.value,
        (s.value as nat) < pow10(3) ==> s.spec_args().len() == 3,
{
    lemma_padded_decimal_value(s.value as nat, 3);
    if (s.value as nat) < pow10(3) {
        lemma_num_digits_le(s.value as nat, 3);
    }
}

/// `^AM`
pub open spec fn get_am_mode_enable_id() -> Seq<u8> {
    seq![0x5E, 0x41, 0x4D]
}

fn get_am_mode_enable_id_bytes() -> (r: &'static [u8])
    ensures
        r@ == get_am_mode_enable_id(),
{
    &[0x5E, 0x41, 0x4D]
}

/// Get whether AM mode is enabled.
#[derive(Clone, Copy, Debug, PartialEq, Eq)]
pub struct GetAmModeEnable;

impl GetAmModeEnable {
    pub fn to_bytes(&self) -> (r: Vec<u8>)
        ensures
            r@ == frame(get_am_mode_enable_id(), seq![]),
    {
        let none: [u8; 0] = [];
        frame_command(get_am_mode_enable_id_bytes(), &none)
    }

    pub open spec fn spec_parse_response(bytes: Seq<u8>) -> Result<bool, Failure> {
        match spec_validate_response(bytes, get_am_mode_enable_id(), 1) {
            Ok(v) => spec_bool_1_0(v[0]),
            Err(f) => Err(f),
        }
    }

    pub fn parse(&self, bytes: &[u8]) -> (r: Result<bool, RigError>)
        ensures
            agrees(r, Self::spec_parse_response(bytes@)),
    {
        match validate_response(bytes, get_am_mode_enable_id_bytes(), 1) {
            Ok(d) => bool_from_ascii_1_0(d[0]),
            Err(e) => Err(e),
        }
    }
}

/// A `GetAmModeEnable` reply whose value byte is `1` reads as `true`, `0` as `false`; any other byte is a
/// `ParseBoolean` error.
pub proof fn lemma_get_am_mode_enable_reply(v: Seq<u8>)
    requires
        v.len() == 1,
    ensures
        v[0] == 0x31 ==> GetAmModeEnable::spec_parse_response(frame(get_am_mode_enable_id(), v)) == Ok::<bool, Failure>(true),
        v[0] == 0x30 ==> GetAmModeEnable::spec_parse_response(frame(get_am_mode_enable_id(), v)) == Ok::<bool, Failure>(false),
        v[0] != 0x30 && v[0] != 0x31 ==> GetAmModeEnable::spec_parse_response(frame(get_am_mode_enable_id(), v)) == Err::<bool, Failure>(Failure::Boolean(v[0])),
{
    lemma_framed_value_reads_back(get_am_mode_enable_id(), v);
}

/// `^AM`
pub open spec fn set_am_mode_enable_id() -> Seq<u8> {
    seq![0x5E, 0x41, 0x4D]
}

fn set_am_mode_enable_id_bytes() -> (r: &'static [u8])
    ensures
        r@ == set_am_mode_enable_id(),
{
    &[0x5E, 0x41, 0x4D]
}

/// Set whether AM mode is enabled.
#[derive(Clone, Copy, Debug, PartialEq, Eq)]
pub struct SetAmModeEnable {
    pub enabled: bool,
}

impl SetAmModeEnable {
    pub open spec fn spec_args(self) -> Seq<u8> {
        seq![if self.enabled { ASCII_DIGIT_ONE } else { ASCII_DIGIT_ZERO }]
    }

    pub fn to_bytes(&self) -> (r: Vec<u8>)
        ensures
            r@ == frame(set_am_mode_enable_id(), self.spec_args()),
    {
        let args: [u8; 1] = [if self.enabled { ASCII_DIGIT_ONE } else { ASCII_DIGIT_ZERO }];
        assert(args@ =~= self.spec_args());
        frame_command(set_am_mode_enable_id_bytes(), &args)
    }
}

/// `SetAmModeEnable` sends `1` when `enabled` is set and `0` when it is clear.
pub proof fn lemma_set_am_mode_enable_argument(s: SetAmModeEnable)
    ensures
        s.enabled ==> s.spec_args() == seq![0x31u8],
        !s.enabled ==> s.spec_args() == seq![0x30u8],
{
}

/// `^AN`
pub open spec fn get_antenna_selection_id() -> Seq<u8> {
    seq![0x5E, 0x41, 0x4E]
}

fn get_antenna_selection_id_bytes() -> (r: &'static [u8])
    ensures
        r@ == get_antenna_selection_id(),
{
    &[0x5E, 0x41, 0x4E]
}

/// Get the currently selected antenna port.
#[derive(Clone, Copy, Debug, PartialEq, Eq)]
pub struct GetAntennaSelection;

impl GetAntennaSelection {
    pub fn to_bytes(&self) -> (r: Vec<u8>)
        ensures
            r@ == frame(get_antenna_selection_id(), seq![]),
    {
        let none: [u8; 0] = [];
        frame_command(get_antenna_selection_id_bytes(), &none)
    }

    pub open spec fn spec_parse_response(bytes: Seq<u8>) -> Result<u8, Failure> {
        match spec_validate_response(bytes, get_antenna_selection_id(), 1) {
            Ok(v) => spec_u8_field(v),
            Err(f) => Err(f),
        }
    }

    pub fn parse(&self, bytes: &[u8]) -> (r: Result<u8, RigError>)
        ensures
            agrees(r, Self::spec_parse_response(bytes@)),
    {
        match validate_response(bytes, get_antenna_selection_id_bytes(), 1) {
            Ok(d) => {
                proof {
                    lemma_leading_value_bound(d@);
                    lemma_pow10_values();
                }
                u8_from_ascii(d)
            },
            Err(e) => Err(e),
        }
    }
}

/// A `GetAntennaSelection` reply of 1 value bytes reads as the decimal number they spell; a value with a
/// byte that is not a digit is an `InvalidResponseData` error holding the value.
pub proof fn lemma_get_antenna_selection_reply(v: Seq<u8>)
    requires
        v.len() == 1,
    ensures
        all_digits(v) && digits_value(v) <= 255 ==> GetAntennaSelection::spec_parse_response(frame(get_antenna_selection_id(), v)) == Ok::<u8, Failure>(digits_value(v) as u8),
        !all_digits(v) ==> GetAntennaSelection::spec_parse_response(frame(get_antenna_selection_id(), v)) == Err::<u8, Failure>(Failure::ResponseData(v)),
{
    lemma_framed_value_reads_back(get_antenna_selection_id(), v);
}

/// `^AN`
pub open spec fn set_antenna_selection_id() -> Seq<u8> {
    seq![0x5E, 0x41, 0x4E]
}

fn set_antenna_selection_id_bytes() -> (r: &'static [u8])
    ensures
        r@ == set_antenna_selection_id(),
{
    &[0x5E, 0x41, 0x4E]
}

/// Set the currently selected antenna port.
#[derive(Clone, Copy, Debug, PartialEq, Eq)]
pub struct SetAntennaSelection {
    pub antenna: u8,
}

impl SetAntennaSelection {
    /// The values the command accepts.
    pub open spec fn spec_in_range(self) -> bool {
        1 <= self.antenna <= 2
    }

    /// The argument bytes.
    pub open spec fn spec_args(self) -> Seq<u8> {
        uint_args(self.antenna as u32, 1)
    }

    /// The command, or `InvalidArgumentValue` for a value out of range.
    pub fn to_bytes(&self) -> (r: Result<Vec<u8>, RigError>)
        ensures
            self.spec_in_range() ==> (r matches Ok(b) && b@ == frame(set_antenna_selection_id(), self.spec_args())),
            !self.spec_in_range() ==> (r matches Err(e) && e.fails_with(
                Failure::ArgumentValue("antenna"@, "u8"@, decimal_string(self.antenna as int)),
            )),
    {
        encode_uint_in_range(set_antenna_selection_id_bytes(), "antenna", "u8", self.antenna as u32, 1, 2, 1)
    }
}

/// `SetAntennaSelection` accepts `antenna` when `1 <= s.antenna <= 2` and sends it as decimal digits, zero-padded to 1.
pub proof fn lemma_set_antenna_selection_argument(s: SetAntennaSelection)
    ensures
        s.spec_in_range() == (1 <= s.antenna <= 2),
        all_digits(s.spec_args()),
        digits_value(s.spec_args()) == s.antenna,
        (s.antenna as nat) < pow10(1) ==> s.spec_args().len() == 1,
{
    lemma_padded_decimal_value(s.antenna as nat, 1);
    if (s.antenna as nat) < pow10(1) {
        lemma_num_digits_le(s.antenna as nat, 1);
    }
}

/// `^AP`
pub open spec fn get_atu_preset_id() -> Seq<u8> {
    seq![0x5E, 0x41, 0x50]
}

fn get_atu_preset_id_bytes() -> (r: &'static [u8])
    ensures
        r@ == get_atu_preset_id(),
{
    &[0x5E, 0x41, 0x50]
}

/// Get whether an ATU preset is currently loaded for the operating frequency.
#[derive(Clone, Copy, Debug, PartialEq, Eq)]
pub struct GetAtuPreset;

impl GetAtuPreset {
    pub fn to_bytes(&self) -> (r: Vec<u8>)
        ensures
            r@ == frame(get_atu_preset_id(), seq![]),
    {
        let none: [u8; 0] = [];
        frame_command(get_atu_preset_id_bytes(), &none)
    }

    pub open spec fn spec_parse_response(bytes: Seq<u8>) -> Result<bool, Failure> {
        match spec_validate_response(bytes, get_atu_preset_id(), 1) {
            Ok(v) => spec_bool_1_0(v[0]),
            Err(f) => Err(f),
        }
    }

    pub fn parse(&self, bytes: &[u8]) -> (r: Result<bool, RigError>)
        ensures
            agrees(r, Self::spec_parse_response(bytes@)),
    {
        match validate_response(bytes, get_atu_preset_id_bytes(), 1) {
            Ok(d) => bool_from_ascii_1_0(d[0]),
            Err(e) => Err(e),
        }
    }
}

/// A `GetAtuPreset` reply whose value byte is `1` reads as `true`, `0` as `false`; any other byte is a
/// `ParseBoolean` error.
pub proof fn lemma_get_atu_preset_reply(v: Seq<u8>)
    requires
        v.len() == 1,
    ensures
        v[0] == 0x31 ==> GetAtuPreset::spec_parse_response(frame(get_atu_preset_id(), v)) == Ok::<bool, Failure>(true),
        v[0] == 0x30 ==> GetAtuPreset::spec_parse_response(frame(get_atu_preset_id(), v)) == Ok::<bool, Failure>(false),
        v[0] != 0x30 && v[0] != 0x31 ==> GetAtuPreset::spec_parse_response(frame(get_atu_preset_id(), v)) == Err::<bool, Failure>(Failure::Boolean(v[0])),
{
    lemma_framed_value_reads_back(get_atu_preset_id(), v);
}

/// `^AP`
pub open spec fn recall_atu_preset_id() -> Seq<u8> {
    seq![0x5E, 0x41, 0x50]
}

fn recall_atu_preset_id_bytes() -> (r: &'static [u8])
    ensures
        r@ == recall_atu_preset_id(),
{
    &[0x5E, 0x41, 0x50]
}

/// Recall (load) the ATU preset stored for the frequency the amplifier is currently
#[derive(Clone, Copy, Debug, PartialEq, Eq)]
pub struct RecallAtuPreset;

impl RecallAtuPreset {
    pub fn to_bytes(&self) -> (r: Vec<u8>)
        ensures
            r@ == frame(recall_atu_preset_id(), seq![]),
    {
        let none: [u8; 0] = [];
        frame_command(recall_atu_preset_id_bytes(), &none)
    }
}

/// `^AR`
pub open spec fn get_attenuator_release_time_id() -> Seq<u8> {
    seq![0x5E, 0x41, 0x52]
}

fn get_attenuator_release_time_id_bytes() -> (r: &'static [u8])
    ensures
        r@ == get_attenuator_release_time_id(),
{
    &[0x5E, 0x41, 0x52]
}

/// Get the attenuator fault release time.
#[derive(Clone, Copy, Debug, PartialEq, Eq)]
pub struct GetAttenuatorReleaseTime;

impl GetAttenuatorReleaseTime {
    pub fn to_bytes(&self) -> (r: Vec<u8>)
        ensures
            r@ == frame(get_attenuator_release_time_id(), seq![]),
    {
        let none: [u8; 0] = [];
        frame_command(get_attenuator_release_time_id_bytes(), &none)
    }

    pub open spec fn spec_parse_response(bytes: Seq<u8>) -> Result<u16, Failure> {
        match spec_validate_response(bytes, get_attenuator_release_time_id(), 4) {
            Ok(v) => spec_u16_field(v),
            Err(f) => Err(f),
        }
    }

    pub fn parse(&self, bytes: &[u8]) -> (r: Result<u16, RigError>)
        ensures
            agrees(r, Self::spec_parse_response(bytes@)),
    {
        match validate_response(bytes, get_attenuator_release_time_id_bytes(), 4) {
            Ok(d) => {
                proof {
                    lemma_leading_value_bound(d@);
                    lemma_pow10_values();
                }
                u16_from_ascii(d)
            },
            Err(e) => Err(e),
        }
    }
}

/// A `GetAttenuatorReleaseTime` reply of 4 value bytes reads as the decimal number they spell; a value with a
/// byte that is not a digit is an `InvalidResponseData` error holding the value.
pub proof fn lemma_get_attenuator_release_time_reply(v: Seq<u8>)
    requires
        v.len() == 4,
    ensures
        all_digits(v) && digits_value(v) <= u16::MAX ==> GetAttenuatorReleaseTime::spec_parse_response(frame(get_attenuator_release_time_id(), v)) == Ok::<u16, Failure>(digits_value(v) as u16),
        !all_digits(v) ==> GetAttenuatorReleaseTime::spec_parse_response(frame(get_attenuator_release_time_id(), v)) == Err::<u16, Failure>(Failure::ResponseData(v)),
{
    lemma_framed_value_reads_back(get_attenuator_release_time_id(), v);
}

/// `^AR`
pub open spec fn set_attenuator_release_time_id() -> Seq<u8> {
    seq![0x5E, 0x41, 0x52]
}

fn set_attenuator_release_time_id_bytes() -> (r: &'static [u8])
    ensures
        r@ == set_attenuator_release_time_id(),
{
    &[0x5E, 0x41, 0x52]
}

/// Set the attenuator fault release time.
#[derive(Clone, Copy, Debug, PartialEq, Eq)]
pub struct SetAttenuatorReleaseTime {
    pub ms: u16,
}

impl SetAttenuatorReleaseTime {
    /// The values the command accepts.
    pub open spec fn spec_in_range(self) -> bool {
        1400 <= self.ms <= 5000
    }

    /// The argument bytes.
    pub open spec fn spec_args(self) -> Seq<u8> {
        uint_args(self.ms as u32, 4)
    }

    /// The command, or `InvalidArgumentValue` for a value out of range.
    pub fn to_bytes(&self) -> (r: Result<Vec<u8>, RigError>)
        ensures
            self.spec_in_range() ==> (r matches Ok(b) && b@ == frame(set_attenuator_release_time_id(), self.spec_args())),
            !self.spec_in_range() ==> (r matches Err(e) && e.fails_with(
                Failure::ArgumentValue("ms"@, "u16"@, decimal_string(self.ms as int)),
            )),
    {
        encode_uint_in_range(set_attenuator_release_time_id_bytes(), "ms", "u16", self.ms as u32, 1400, 5000, 4)
    }
}

/// `SetAttenuatorReleaseTime` accepts `ms` when `1400 <= s.ms <= 5000` and sends it as decimal digits, zero-padded to 4.
pub proof fn lemma_set_attenuator_release_time_argument(s: SetAttenuatorReleaseTime)
    ensures
        s.spec_in_range() == (1400 <= s.ms <= 5000),
        all_digits(s.spec_args()),
        digits_value(s.spec_args()) == s.ms,
        (s.ms as nat) < pow10(4) ==> s.spec_args().len() == 4,
{
    lemma_padded_decimal_value(s.ms as nat, 4);
    if (s.ms as nat) < pow10(4) {
        lemma_num_digits_le(s.ms as nat, 4);
    }
}

/// `^BC`
pub open spec fn get_standby_on_band_change_id() -> Seq<u8> {
    seq![0x5E, 0x42, 0x43]
}

fn get_standby_on_band_change_id_bytes() -> (r: &'static [u8])
    ensures
        r@ == get_standby_on_band_change_id(),
{
    &[0x5E, 0x42, 0x43]
}

/// Get whether the amplifier returns to standby on band change.
#[derive(Clone, Copy, Debug, PartialEq, Eq)]
pub struct GetStandbyOnBandChange;

impl GetStandbyOnBandChange {
    pub fn to_bytes(&self) -> (r: Vec<u8>)
        ensures
            r@ == frame(get_standby_on_band_change_id(), seq![]),
    {
        let none: [u8; 0] = [];
        frame_command(get_standby_on_band_change_id_bytes(), &none)
    }

    pub open spec fn spec_parse_response(bytes: Seq<u8>) -> Result<bool, Failure> {
        match spec_validate_response(bytes, get_standby_on_band_change_id(), 1) {
            Ok(v) => spec_bool_1_0(v[0]),
            Err(f) => Err(f),
        }
    }

    pub fn parse(&self, bytes: &[u8]) -> (r: Result<bool, RigError>)
        ensures
            agrees(r, Self::spec_parse_response(bytes@)),
    {
        match validate_response(bytes, get_standby_on_band_change_id_bytes(), 1) {
            Ok(d) => bool_from_ascii_1_0(d[0]),
            Err(e) => Err(e),
        }
    }
}

/// A `GetStandbyOnBandChange` reply whose value byte is `1` reads as `true`, `0` as `false`; any other byte is a
/// `ParseBoolean` error.
pub proof fn lemma_get_standby_on_band_change_reply(v: Seq<u8>)
    requires
        v.len() == 1,
    ensures
        v[0] == 0x31 ==> GetStandbyOnBandChange::spec_parse_response(frame(get_standby_on_band_change_id(), v)) == Ok::<bool, Failure>(true),
        v[0] == 0x30 ==> GetStandbyOnBandChange::spec_parse_response(frame(get_standby_on_band_change_id(), v)) == Ok::<bool, Failure>(false),
        v[0] != 0x30 && v[0] != 0x31 ==> GetStandbyOnBandChange::spec_parse_response(frame(get_standby_on_band_change_id(), v)) == Err::<bool, Failure>(Failure::Boolean(v[0])),
{
    lemma_framed_value_reads_back(get_standby_on_band_change_id(), v);
}

/// `^BC`
pub open spec fn set_standby_on_band_change_id() -> Seq<u8> {
    seq![0x5E, 0x42, 0x43]
}

fn set_standby_on_band_change_id_bytes() -> (r: &'static [u8])
    ensures
        r@ == set_standby_on_band_change_id(),
{
    &[0x5E, 0x42, 0x43]
}

/// Set whether the amplifier returns to standby on band change.
#[derive(Clone, Copy, Debug, PartialEq, Eq)]
pub struct SetStandbyOnBandChange {
    pub enabled: bool,
}

impl SetStandbyOnBandChange {
    pub open spec fn spec_args(self) -> Seq<u8> {
        seq![if self.enabled { ASCII_DIGIT_ONE } else { ASCII_DIGIT_ZERO }]
    }

    pub fn to_bytes(&self) -> (r: Vec<u8>)
        ensures
            r@ == frame(set_standby_on_band_change_id(), self.spec_args()),
    {
        let args: [u8; 1] = [if self.enabled { ASCII_DIGIT_ONE } else { ASCII_DIGIT_ZERO }];
        assert(args@ =~= self.spec_args());
        frame_command(set_standby_on_band_change_id_bytes(), &args)
    }
}

/// `SetStandbyOnBandChange` sends `1` when `enabled` is set and `0` when it is clear.
pub proof fn lemma_set_standby_on_band_change_argument(s: SetStandbyOnBandChange)
    ensures
        s.enabled ==> s.spec_args() == seq![0x31u8],
        !s.enabled ==> s.spec_args() == seq![0x30u8],
{
}

/// `^BN`
pub open spec fn get_band_selection_id() -> Seq<u8> {
    seq![0x5E, 0x42, 0x4E]
}

fn get_band_selection_id_bytes() -> (r: &'static [u8])
    ensures
        r@ == get_band_selection_id(),
{
    &[0x5E, 0x42, 0x4E]
}

/// Get the currently selected band.
#[derive(Clone, Copy, Debug, PartialEq, Eq)]
pub struct GetBandSelection;

impl GetBandSelection {
    pub fn to_bytes(&self) -> (r: Vec<u8>)
        ensures
            r@ == frame(get_band_selection_id(), seq![]),
    {
        let none: [u8; 0] = [];
        frame_command(get_band_selection_id_bytes(), &none)
    }

    pub open spec fn spec_parse_response(bytes: Seq<u8>) -> Result<u8, Failure> {
        match spec_validate_response(bytes, get_band_selection_id(), 2) {
            Ok(v) => spec_u8_field(v),
            Err(f) => Err(f),
        }
    }

    pub fn parse(&self, bytes: &[u8]) -> (r: Result<u8, RigError>)
        ensures
            agrees(r, Self::spec_parse_response(bytes@)),
    {
        match validate_response(bytes, get_band_selection_id_bytes(), 2) {
            Ok(d) => {
                proof {
                    lemma_leading_value_bound(d@);
                    lemma_pow10_values();
                }
                u8_from_ascii(d)
            },
            Err(e) => Err(e),
        }
    }
}

/// A `GetBandSelection` reply of 2 value bytes reads as the decimal number they spell; a value with a
/// byte that is not a digit is an `InvalidResponseData` error holding the value.
pub proof fn lemma_get_band_selection_reply(v: Seq<u8>)
    requires
        v.len() == 2,
    ensures
        all_digits(v) && digits_value(v) <= 255 ==> GetBandSelection::spec_parse_response(frame(get_band_selection_id(), v)) == Ok::<u8, Failure>(digits_value(v) as u8),
        !all_digits(v) ==> GetBandSelection::spec_parse_response(frame(get_band_selection_id(), v)) == Err::<u8, Failure>(Failure::ResponseData(v)),
{
    lemma_framed_value_reads_back(get_band_selection_id(), v);
}

/// `^BN`
pub open spec fn set_band_selection_id() -> Seq<u8> {
    seq![0x5E, 0x42, 0x4E]
}

fn set_band_selection_id_bytes() -> (r: &'static [u8])
    ensures
        r@ == set_band_selection_id(),
{
    &[0x5E, 0x42, 0x4E]
}

/// Set the active band.
#[derive(Clone, Copy, Debug, PartialEq, Eq)]
pub struct SetBandSelection {
    pub band: u8,
}

impl SetBandSelection {
    /// The values the command accepts.
    pub open spec fn spec_in_range(self) -> bool {
        self.band <= 10
    }

    /// The argument bytes.
    pub open spec fn spec_args(self) -> Seq<u8> {
        uint_args(self.band as u32, 2)
    }

    /// The command, or `InvalidArgumentValue` for a value out of range.
    pub fn to_bytes(&self) -> (r: Result<Vec<u8>, RigError>)
        ensures
            self.spec_in_range() ==> (r matches Ok(b) && b@ == frame(set_band_selection_id(), self.spec_args())),
            !self.spec_in_range() ==> (r matches Err(e) && e.fails_with(
                Failure::ArgumentValue("band"@, "u8"@, decimal_string(self.band as int)),
            )),
    {
        encode_uint_in_range(set_band_selection_id_bytes(), "band", "u8", self.band as u32, 0, 10, 2)
    }
}

/// `SetBandSelection` accepts `band` when `s.band <= 10` and sends it as decimal digits, zero-padded to 2.
pub proof fn lemma_set_band_selection_argument(s: SetBandSelection)
    ensures
        s.spec_in_range() == (s.band <= 10),
        all_digits(s.spec_args()),
        digits_value(s.spec_args()) == s.band,
        (s.band as nat) < pow10(2) ==> s.spec_args().len() == 2,
{
    lemma_padded_decimal_value(s.band as nat, 2);
    if (s.band as nat) < pow10(2) {
        lemma_num_digits_le(s.band as nat, 2);
    }
}

/// `^BP`
pub open spec fn get_bypass_relay_id() -> Seq<u8> {
    seq![0x5E, 0x42, 0x50]
}

fn get_bypass_relay_id_bytes() -> (r: &'static [u8])
    ensures
        r@ == get_bypass_relay_id(),
{
    &[0x5E, 0x42, 0x50]
}

/// Get whether the RF bypass relay is engaged.
#[derive(Clone, Copy, Debug, PartialEq, Eq)]
pub struct GetBypassRelay;

impl GetBypassRelay {
    pub fn to_bytes(&self) -> (r: Vec<u8>)
        ensures
            r@ == frame(get_bypass_relay_id(), seq![]),
    {
        let none: [u8; 0] = [];
        frame_command(get_bypass_relay_id_bytes(), &none)
    }

    pub open spec fn spec_parse_response(bytes: Seq<u8>) -> Result<bool, Failure> {
        match spec_validate_response(bytes, get_bypass_relay_id(), 1) {
            Ok(v) => spec_bool_1_0(v[0]),
            Err(f) => Err(f),
        }
    }

    pub fn parse(&self, bytes: &[u8]) -> (r: Result<bool, RigError>)
        ensures
            agrees(r, Self::spec_parse_response(bytes@)),
    {
        match validate_response(bytes, get_bypass_relay_id_bytes(), 1) {
            Ok(d) => bool_from_ascii_1_0(d[0]),
            Err(e) => Err(e),
        }
    }
}

/// A `GetBypassRelay` reply whose value byte is `1` reads as `true`, `0` as `false`; any other byte is a
/// `ParseBoolean` error.
pub proof fn lemma_get_bypass_relay_reply(v: Seq<u8>)
    requires
        v.len() == 1,
    ensures
        v[0] == 0x31 ==> GetBypassRelay::spec_parse_response(frame(get_bypass_relay_id(), v)) == Ok::<bool, Failure>(true),
        v[0] == 0x30 ==> GetBypassRelay::spec_parse_response(frame(get_bypass_relay_id(), v)) == Ok::<bool, Failure>(false),
        v[0] != 0x30 && v[0] != 0x31 ==> GetBypassRelay::spec_parse_response(frame(get_bypass_relay_id(), v)) == Err::<bool, Failure>(Failure::Boolean(v[0])),
{
    lemma_framed_value_reads_back(get_bypass_relay_id(), v);
}

/// `^BP`
pub open spec fn set_bypass_relay_id() -> Seq<u8> {
    seq![0x5E, 0x42, 0x50]
}

fn set_bypass_relay_id_bytes() -> (r: &'static [u8])
    ensures
        r@ == set_bypass_relay_id(),
{
    &[0x5E, 0x42, 0x50]
}

/// Set the RF bypass relay.
#[derive(Clone, Copy, Debug, PartialEq, Eq)]
pub struct SetBypassRelay {
    pub bypassed: bool,
}

impl SetBypassRelay {
    pub open spec fn spec_args(self) -> Seq<u8> {
        seq![if self.bypassed { ASCII_DIGIT_ONE } else { ASCII_DIGIT_ZERO }]
    }

    pub fn to_bytes(&self) -> (r: Vec<u8>)
        ensures
            r@ == frame(set_bypass_relay_id(), self.spec_args()),
    {
        let args: [u8; 1] = [if self.bypassed { ASCII_DIGIT_ONE } else { ASCII_DIGIT_ZERO }];
        assert(args@ =~= self.spec_args());
        frame_command(set_bypass_relay_id_bytes(), &args)
    }
}

/// `SetBypassRelay` sends `1` when `bypassed` is set and `0` when it is clear.
pub proof fn lemma_set_bypass_relay_argument(s: SetBypassRelay)
    ensures
        s.bypassed ==> s.spec_args() == seq![0x31u8],
        !s.bypassed ==> s.spec_args() == seq![0x30u8],
{
}

/// `^BRP`
pub open spec fn get_pc_baud_rate_id() -> Seq<u8> {
    seq![0x5E, 0x42, 0x52, 0x50]
}

fn get_pc_baud_rate_id_bytes() -> (r: &'static [u8])
    ensures
        r@ == get_pc_baud_rate_id(),
{
    &[0x5E, 0x42, 0x52, 0x50]
}

/// Get the PC RS-232 port data rate.
#[derive(Clone, Copy, Debug, PartialEq, Eq)]
pub struct GetPcBaudRate;

impl GetPcBaudRate {
    pub fn to_bytes(&self) -> (r: Vec<u8>)
        ensures
            r@ == frame(get_pc_baud_rate_id(), seq![]),
    {
        let none: [u8; 0] = [];
        frame_command(get_pc_baud_rate_id_bytes(), &none)
    }

    pub open spec fn spec_parse_response(bytes: Seq<u8>) -> Result<u8, Failure> {
        match spec_validate_response(bytes, get_pc_baud_rate_id(), 1) {
            Ok(v) => spec_u8_field(v),
            Err(f) => Err(f),
        }
    }

    pub fn parse(&self, bytes: &[u8]) -> (r: Result<u8, RigError>)
        ensures
            agrees(r, Self::spec_parse_response(bytes@)),
    {
        match validate_response(bytes, get_pc_baud_rate_id_bytes(), 1) {
            Ok(d) => {
                proof {
                    lemma_leading_value_bound(d@);
                    lemma_pow10_values();
                }
                u8_from_ascii(d)
            },
            Err(e) => Err(e),
        }
    }
}

/// A `GetPcBaudRate` reply of 1 value bytes reads as the decimal number they spell; a value with a
/// byte that is not a digit is an `InvalidResponseData` error holding the value.
pub proof fn lemma_get_pc_baud_rate_reply(v: Seq<u8>)
    requires
        v.len() == 1,
    ensures
        all_digits(v) && digits_value(v) <= 255 ==> GetPcBaudRate::spec_parse_response(frame(get_pc_baud_rate_id(), v)) == Ok::<u8, Failure>(digits_value(v) as u8),
        !all_digits(v) ==> GetPcBaudRate::spec_parse_response(frame(get_pc_baud_rate_id(), v)) == Err::<u8, Failure>(Failure::ResponseData(v)),
{
    lemma_framed_value_reads_back(get_pc_baud_rate_id(), v);
}

/// `^BRP`
pub open spec fn set_pc_baud_rate_id() -> Seq<u8> {
    seq![0x5E, 0x42, 0x52, 0x50]
}

fn set_pc_baud_rate_id_bytes() -> (r: &'static [u8])
    ensures
        r@ == set_pc_baud_rate_id(),
{
    &[0x5E, 0x42, 0x52, 0x50]
}

/// Set the PC RS-232 port data rate.
#[derive(Clone, Copy, Debug, PartialEq, Eq)]
pub struct SetPcBaudRate {
    pub rate: u8,
}

impl SetPcBaudRate {
    /// The values the command accepts.
    pub open spec fn spec_in_range(self) -> bool {
        self.rate <= 3
    }

    /// The argument bytes.
    pub open spec fn spec_args(self) -> Seq<u8> {
        uint_args(self.rate as u32, 1)
    }

    /// The command, or `InvalidArgumentValue` for a value out of range.
    pub fn to_bytes(&self) -> (r: Result<Vec<u8>, RigError>)
        ensures
            self.spec_in_range() ==> (r matches Ok(b) && b@ == frame(set_pc_baud_rate_id(), self.spec_args())),
            !self.spec_in_range() ==> (r matches Err(e) && e.fails_with(
                Failure::ArgumentValue("rate"@, "u8"@, decimal_string(self.rate as int)),
            )),
    {
        encode_uint_in_range(set_pc_baud_rate_id_bytes(), "rate", "u8", self.rate as u32, 0, 3, 1)
    }
}

/// `SetPcBaudRate` accepts `rate` when `s.rate <= 3` and sends it as decimal digits, zero-padded to 1.
pub proof fn lemma_set_pc_baud_rate_argument(s: SetPcBaudRate)
    ensures
        s.spec_in_range() == (s.rate <= 3),
        all_digits(s.spec_args()),
        digits_value(s.spec_args()) == s.rate,
        (s.rate as nat) < pow10(1) ==> s.spec_args().len() == 1,
{
    lemma_padded_decimal_value(s.rate as nat, 1);
    if (s.rate as nat) < pow10(1) {
        lemma_num_digits_le(s.rate as nat, 1);
    }
}

/// `^BRX`
pub open spec fn get_xcvr_baud_rate_id() -> Seq<u8> {
    seq![0x5E, 0x42, 0x52, 0x58]
}

fn get_xcvr_baud_rate_id_bytes() -> (r: &'static [u8])
    ensures
        r@ == get_xcvr_baud_rate_id(),
{
    &[0x5E, 0x42, 0x52, 0x58]
}

/// Get the transceiver RS-232 port data rate.
#[derive(Clone, Copy, Debug, PartialEq, Eq)]
pub struct GetXcvrBaudRate;

impl GetXcvrBaudRate {
    pub fn to_bytes(&self) -> (r: Vec<u8>)
        ensures
            r@ == frame(get_xcvr_baud_rate_id(), seq![]),
    {
        let none: [u8; 0] = [];
        frame_command(get_xcvr_baud_rate_id_bytes(), &none)
    }

    pub open spec fn spec_parse_response(bytes: Seq<u8>) -> Result<u8, Failure> {
        match spec_validate_response(bytes, get_xcvr_baud_rate_id(), 1) {
            Ok(v) => spec_u8_field(v),
            Err(f) => Err(f),
        }
    }

    pub fn parse(&self, bytes: &[u8]) -> (r: Result<u8, RigError>)
        ensures
            agrees(r, Self::spec_parse_response(bytes@)),
    {
        match validate_response(bytes, get_xcvr_baud_rate_id_bytes(), 1) {
            Ok(d) => {
                proof {
                    lemma_leading_value_bound(d@);
                    lemma_pow10_values();
                }
                u8_from_ascii(d)
            },
            Err(e) => Err(e),
        }
    }
}

/// A `GetXcvrBaudRate` reply of 1 value bytes reads as the decimal number they spell; a value with a
/// byte that is not a digit is an `InvalidResponseData` error holding the value.
pub proof fn lemma_get_xcvr_baud_rate_reply(v: Seq<u8>)
    requires
        v.len() == 1,
    ensures
        all_digits(v) && digits_value(v) <= 255 ==> GetXcvrBaudRate::spec_parse_response(frame(get_xcvr_baud_rate_id(), v)) == Ok::<u8, Failure>(digits_value(v) as u8),
        !all_digits(v) ==> GetXcvrBaudRate::spec_parse_response(frame(get_xcvr_baud_rate_id(), v)) == Err::<u8, Failure>(Failure::ResponseData(v)),
{
    lemma_framed_value_reads_back(get_xcvr_baud_rate_id(), v);
}

/// `^BRX`
pub open spec fn set_xcvr_baud_rate_id() -> Seq<u8> {
    seq![0x5E, 0x42, 0x52, 0x58]
}

fn set_xcvr_baud_rate_id_bytes() -> (r: &'static [u8])
    ensures
        r@ == set_xcvr_baud_rate_id(),
{
    &[0x5E, 0x42, 0x52, 0x58]
}

/// Set the transceiver RS-232 port data rate.
#[derive(Clone, Copy, Debug, PartialEq, Eq)]
pub struct SetXcvrBaudRate {
    pub rate: u8,
}

impl SetXcvrBaudRate {
    /// The values the command accepts.
    pub open spec fn spec_in_range(self) -> bool {
        self.rate <= 3
    }

    /// The argument bytes.
    pub open spec fn spec_args(self) -> Seq<u8> {
        uint_args(self.rate as u32, 1)
    }

    /// The command, or `InvalidArgumentValue` for a value out of range.
    pub fn to_bytes(&self) -> (r: Result<Vec<u8>, RigError>)
        ensures
            self.spec_in_range() ==> (r matches Ok(b) && b@ == frame(set_xcvr_baud_rate_id(), self.spec_args())),
            !self.spec_in_range() ==> (r matches Err(e) && e.fails_with(
                Failure::ArgumentValue("rate"@, "u8"@, decimal_string(self.rate as int)),
            )),
    {
        encode_uint_in_range(set_xcvr_baud_rate_id_bytes(), "rate", "u8", self.rate as u32, 0, 3, 1)
    }
}

/// `SetXcvrBaudRate` accepts `rate` when `s.rate <= 3` and sends it as decimal digits, zero-padded to 1.
pub proof fn lemma_set_xcvr_baud_rate_argument(s: SetXcvrBaudRate)
    ensures
        s.spec_in_range() == (s.rate <= 3),
        all_digits(s.spec_args()),
        digits_value(s.spec_args()) == s.rate,
        (s.rate as nat) < pow10(1) ==> s.spec_args().len() == 1,
{
    lemma_padded_decimal_value(s.rate as nat, 1);
    if (s.rate as nat) < pow10(1) {
        lemma_num_digits_le(s.rate as nat, 1);
    }
}

/// `^DM`
pub open spec fn get_demo_mode_id() -> Seq<u8> {
    seq![0x5E, 0x44, 0x4D]
}

fn get_demo_mode_id_bytes() -> (r: &'static [u8])
    ensures
        r@ == get_demo_mode_id(),
{
    &[0x5E, 0x44, 0x4D]
}

/// Get whether demo mode is enabled.
#[derive(Clone, Copy, Debug, PartialEq, Eq)]
pub struct GetDemoMode;

impl GetDemoMode {
    pub fn to_bytes(&self) -> (r: Vec<u8>)
        ensures
            r@ == frame(get_demo_mode_id(), seq![]),
    {
        let none: [u8; 0] = [];
        frame_command(get_demo_mode_id_bytes(), &none)
    }

    pub open spec fn spec_parse_response(bytes: Seq<u8>) -> Result<bool, Failure> {
        match spec_validate_response(bytes, get_demo_mode_id(), 1) {
            Ok(v) => spec_bool_1_0(v[0]),
            Err(f) => Err(f),
        }
    }

    pub fn parse(&self, bytes: &[u8]) -> (r: Result<bool, RigError>)
        ensures
            agrees(r, Self::spec_parse_response(bytes@)),
    {
        match validate_response(bytes, get_demo_mode_id_bytes(), 1) {
            Ok(d) => bool_from_ascii_1_0(d[0]),
            Err(e) => Err(e),
        }
    }
}

/// A `GetDemoMode` reply whose value byte is `1` reads as `true`, `0` as `false`; any other byte is a
/// `ParseBoolean` error.
pub proof fn lemma_get_demo_mode_reply(v: Seq<u8>)
    requires
        v.len() == 1,
    ensures
        v[0] == 0x31 ==> GetDemoMode::spec_parse_response(frame(get_demo_mode_id(), v)) == Ok::<bool, Failure>(true),
        v[0] == 0x30 ==> GetDemoMode::spec_parse_response(frame(get_demo_mode_id(), v)) == Ok::<bool, Failure>(false),
        v[0] != 0x30 && v[0] != 0x31 ==> GetDemoMode::spec_parse_response(frame(get_demo_mode_id(), v)) == Err::<bool, Failure>(Failure::Boolean(v[0])),
{
    lemma_framed_value_reads_back(get_demo_mode_id(), v);
}

/// `^DM`
pub open spec fn set_demo_mode_id() -> Seq<u8> {
    seq![0x5E, 0x44, 0x4D]
}

fn set_demo_mode_id_bytes() -> (r: &'static [u8])
    ensures
        r@ == set_demo_mode_id(),
{
    &[0x5E, 0x44, 0x4D]
}

/// Set whether demo mode is enabled.
#[derive(Clone, Copy, Debug, PartialEq, Eq)]
pub struct SetDemoMode {
    pub enabled: bool,
}

impl SetDemoMode {
    pub open spec fn spec_args(self) -> Seq<u8> {
        seq![if self.enabled { ASCII_DIGIT_ONE } else { ASCII_DIGIT_ZERO }]
    }

    pub fn to_bytes(&self) -> (r: Vec<u8>)
        ensures
            r@ == frame(set_demo_mode_id(), self.spec_args()),
    {
        let args: [u8; 1] = [if self.enabled { ASCII_DIGIT_ONE } else { ASCII_DIGIT_ZERO }];
        assert(args@ =~= self.spec_args());
        frame_command(set_demo_mode_id_bytes(), &args)
    }
}

/// `SetDemoMode` sends `1` when `enabled` is set and `0` when it is clear.
pub proof fn lemma_set_demo_mode_argument(s: SetDemoMode)
    ensures
        s.enabled ==> s.spec_args() == seq![0x31u8],
        !s.enabled ==> s.spec_args() == seq![0x30u8],
{
}

/// `^DS`
pub open spec fn get_display_select_id() -> Seq<u8> {
    seq![0x5E, 0x44, 0x53]
}

fn get_display_select_id_bytes() -> (r: &'static [u8])
    ensures
        r@ == get_display_select_id(),
{
    &[0x5E, 0x44, 0x53]
}

/// Get the active display screen.
#[derive(Clone, Copy, Debug, PartialEq, Eq)]
pub struct GetDisplaySelect;

impl GetDisplaySelect {
    pub fn to_bytes(&self) -> (r: Vec<u8>)
        ensures
            r@ == frame(get_display_select_id(), seq![]),
    {
        let none: [u8; 0] = [];
        frame_command(get_display_select_id_bytes(), &none)
    }

    pub open spec fn spec_parse_response(bytes: Seq<u8>) -> Result<u8, Failure> {
        match spec_validate_response(bytes, get_display_select_id(), 1) {
            Ok(v) => spec_u8_field(v),
            Err(f) => Err(f),
        }
    }

    pub fn parse(&self, bytes: &[u8]) -> (r: Result<u8, RigError>)
        ensures
            agrees(r, Self::spec_parse_response(bytes@)),
    {
        match validate_response(bytes, get_display_select_id_bytes(), 1) {
            Ok(d) => {
                proof {
                    lemma_leading_value_bound(d@);
                    lemma_pow10_values();
                }
                u8_from_ascii(d)
            },
            Err(e) => Err(e),
        }
    }
}

/// A `GetDisplaySelect` reply of 1 value bytes reads as the decimal number they spell; a value with a
/// byte that is not a digit is an `InvalidResponseData` error holding the value.
pub proof fn lemma_get_display_select_reply(v: Seq<u8>)
    requires
        v.len() == 1,
    ensures
        all_digits(v) && digits_value(v) <= 255 ==> GetDisplaySelect::spec_parse_response(frame(get_display_select_id(), v)) == Ok::<u8, Failure>(digits_value(v) as u8),
        !all_digits(v) ==> GetDisplaySelect::spec_parse_response(frame(get_display_select_id(), v)) == Err::<u8, Failure>(Failure::ResponseData(v)),
{
    lemma_framed_value_reads_back(get_display_select_id(), v);
}

/// `^DS`
pub open spec fn set_display_select_id() -> Seq<u8> {
    seq![0x5E, 0x44, 0x53]
}

fn set_display_select_id_bytes() -> (r: &'static [u8])
    ensures
        r@ == set_display_select_id(),
{
    &[0x5E, 0x44, 0x53]
}

/// Set the active display screen.
#[derive(Clone, Copy, Debug, PartialEq, Eq)]
pub struct SetDisplaySelect {
    pub screen: u8,
}

impl SetDisplaySelect {
    /// The values the command accepts.
    pub open spec fn spec_in_range(self) -> bool {
        self.screen <= 3
    }

    /// The argument bytes.
    pub open spec fn spec_args(self) -> Seq<u8> {
        uint_args(self.screen as u32, 1)
    }

    /// The command, or `InvalidArgumentValue` for a value out of range.
    pub fn to_bytes(&self) -> (r: Result<Vec<u8>, RigError>)
        ensures
            self.spec_in_range() ==> (r matches Ok(b) && b@ == frame(set_display_select_id(), self.spec_args())),
            !self.spec_in_range() ==> (r matches Err(e) && e.fails_with(
                Failure::ArgumentValue("screen"@, "u8"@, decimal_string(self.screen as int)),
            )),
    {
        encode_uint_in_range(set_display_select_id_bytes(), "screen", "u8", self.screen as u32, 0, 3, 1)
    }
}

/// `SetDisplaySelect` accepts `screen` when `s.screen <= 3` and sends it as decimal digits, zero-padded to 1.
pub proof fn lemma_set_display_select_argument(s: SetDisplaySelect)
    ensures
        s.spec_in_range() == (s.screen <= 3),
        all_digits(s.spec_args()),
        digits_value(s.spec_args()) == s.screen,
        (s.screen as nat) < pow10(1) ==> s.spec_args().len() == 1,
{
    lemma_padded_decimal_value(s.screen as nat, 1);
    if (s.screen as nat) < pow10(1) {
        lemma_num_digits_le(s.screen as nat, 1);
    }
}

/// `^FC`
pub open spec fn get_fan_minimum_speed_id() -> Seq<u8> {
    seq![0x5E, 0x46, 0x43]
}

fn get_fan_minimum_speed_id_bytes() -> (r: &'static [u8])
    ensures
        r@ == get_fan_minimum_speed_id(),
{
    &[0x5E, 0x46, 0x43]
}

/// Get the fan minimum control level.
#[derive(Clone, Copy, Debug, PartialEq, Eq)]
pub struct GetFanMinimumSpeed;

impl GetFanMinimumSpeed {
    pub fn to_bytes(&self) -> (r: Vec<u8>)
        ensures
            r@ == frame(get_fan_minimum_speed_id(), seq![]),
    {
        let none: [u8; 0] = [];
        frame_command(get_fan_minimum_speed_id_bytes(), &none)
    }

    pub open spec fn spec_parse_response(bytes: Seq<u8>) -> Result<u8, Failure> {
        match spec_validate_response(bytes, get_fan_minimum_speed_id(), 1) {
            Ok(v) => spec_u8_field(v),
            Err(f) => Err(f),
        }
    }

    pub fn parse(&self, bytes: &[u8]) -> (r: Result<u8, RigError>)
        ensures
            agrees(r, Self::spec_parse_response(bytes@)),
    {
        match validate_response(bytes, get_fan_minimum_speed_id_bytes(), 1) {
            Ok(d) => {
                proof {
                    lemma_leading_value_bound(d@);
                    lemma_pow10_values();
                }
                u8_from_ascii(d)
            },
            Err(e) => Err(e),
        }
    }
}

/// A `GetFanMinimumSpeed` reply of 1 value bytes reads as the decimal number they spell; a value with a
/// byte that is not a digit is an `InvalidResponseData` error holding the value.
pub proof fn lemma_get_fan_minimum_speed_reply(v: Seq<u8>)
    requires
        v.len() == 1,
    ensures
        all_digits(v) && digits_value(v) <= 255 ==> GetFanMinimumSpeed::spec_parse_response(frame(get_fan_minimum_speed_id(), v)) == Ok::<u8, Failure>(digits_value(v) as u8),
        !all_digits(v) ==> GetFanMinimumSpeed::spec_parse_response(frame(get_fan_minimum_speed_id(), v)) == Err::<u8, Failure>(Failure::ResponseData(v)),
{
    lemma_framed_value_reads_back(get_fan_minimum_speed_id(), v);
}

/// `^FC`
pub open spec fn set_fan_minimum_speed_id() -> Seq<u8> {
    seq![0x5E, 0x46, 0x43]
}

fn set_fan_minimum_speed_id_bytes() -> (r: &'static [u8])
    ensures
        r@ == set_fan_minimum_speed_id(),
{
    &[0x5E, 0x46, 0x43]
}

/// Set the fan minimum control level.
#[derive(Clone, Copy, Debug, PartialEq, Eq)]
pub struct SetFanMinimumSpeed {
    pub level: u8,
}

impl SetFanMinimumSpeed {
    /// The values the command accepts.
    pub open spec fn spec_in_range(self) -> bool {
        self.level <= 6
    }

    /// The argument bytes.
    pub open spec fn spec_args(self) -> Seq<u8> {
        uint_args(self.level as u32, 1)
    }

    /// The command, or `InvalidArgumentValue` for a value out of range.
    pub fn to_bytes(&self) -> (r: Result<Vec<u8>, RigError>)
        ensures
            self.spec_in_range() ==> (r matches Ok(b) && b@ == frame(set_fan_minimum_speed_id(), self.spec_args())),
            !self.spec_in_range() ==> (r matches Err(e) && e.fails_with(
                Failure::ArgumentValue("level"@, "u8"@, decimal_string(self.level as int)),
            )),
    {
        encode_uint_in_range(set_fan_minimum_speed_id_bytes(), "level", "u8", self.level as u32, 0, 6, 1)
    }
}

/// `SetFanMinimumSpeed` accepts `level` when `s.level <= 6` and sends it as decimal digits, zero-padded to 1.
pub proof fn lemma_set_fan_minimum_speed_argument(s: SetFanMinimumSpeed)
    ensures
        s.spec_in_range() == (s.level <= 6),
        all_digits(s.spec_args()),
        digits_value(s.spec_args()) == s.level,
        (s.level as nat) < pow10(1) ==> s.spec_args().len() == 1,
{
    lemma_padded_decimal_value(s.level as nat, 1);
    if (s.level as nat) < pow10(1) {
        lemma_num_digits_le(s.level as nat, 1);
    }
}

/// `^FL`
pub open spec fn get_fault_code_id() -> Seq<u8> {
    seq![0x5E, 0x46, 0x4C]
}

fn get_fault_code_id_bytes() -> (r: &'static [u8])
    ensures
        r@ == get_fault_code_id(),
{
    &[0x5E, 0x46, 0x4C]
}

/// Get the current fault code.
#[derive(Clone, Copy, Debug, PartialEq, Eq)]
pub struct GetFaultCode;

impl GetFaultCode {
    pub fn to_bytes(&self) -> (r: Vec<u8>)
        ensures
            r@ == frame(get_fault_code_id(), seq![]),
    {
        let none: [u8; 0] = [];
        frame_command(get_fault_code_id_bytes(), &none)
    }

    pub open spec fn spec_parse_response(bytes: Seq<u8>) -> Result<u8, Failure> {
        match spec_validate_response(bytes, get_fault_code_id(), 2) {
            Ok(v) => spec_u8_field(v),
            Err(f) => Err(f),
        }
    }

    pub fn parse(&self, bytes: &[u8]) -> (r: Result<u8, RigError>)
        ensures
            agrees(r, Self::spec_parse_response(bytes@)),
    {
        match validate_response(bytes, get_fault_code_id_bytes(), 2) {
            Ok(d) => {
                proof {
                    lemma_leading_value_bound(d@);
                    lemma_pow10_values();
                }
                u8_from_ascii(d)
            },
            Err(e) => Err(e),
        }
    }
}

/// A `GetFaultCode` reply of 2 value bytes reads as the decimal number they spell; a value with a
/// byte that is not a digit is an `InvalidResponseData` error holding the value.
pub proof fn lemma_get_fault_code_reply(v: Seq<u8>)
    requires
        v.len() == 2,
    ensures
        all_digits(v) && digits_value(v) <= 255 ==> GetFaultCode::spec_parse_response(frame(get_fault_code_id(), v)) == Ok::<u8, Failure>(digits_value(v) as u8),
        !all_digits(v) ==> GetFaultCode::spec_parse_response(frame(get_fault_code_id(), v)) == Err::<u8, Failure>(Failure::ResponseData(v)),
{
    lemma_framed_value_reads_back(get_fault_code_id(), v);
}

/// `^FL`
pub open spec fn clear_fault_id() -> Seq<u8> {
    seq![0x5E, 0x46, 0x4C]
}

fn clear_fault_id_bytes() -> (r: &'static [u8])
    ensures
        r@ == clear_fault_id(),
{
    &[0x5E, 0x46, 0x4C]
}

/// Clear the amplifier's current fault condition, allowing it to resume normal
#[derive(Clone, Copy, Debug, PartialEq, Eq)]
pub struct ClearFault;

impl ClearFault {
    pub fn to_bytes(&self) -> (r: Vec<u8>)
        ensures
            r@ == frame(clear_fault_id(), seq![0x43u8]),
    {
        let args: [u8; 1] = [0x43];
        assert(args@ =~= seq![0x43u8]);
        frame_command(clear_fault_id_bytes(), &args)
    }
}

/// `^FQ`
pub open spec fn get_frequency_id() -> Seq<u8> {
    seq![0x5E, 0x46, 0x51]
}

fn get_frequency_id_bytes() -> (r: &'static [u8])
    ensures
        r@ == get_frequency_id(),
{
    &[0x5E, 0x46, 0x51]
}

/// Get the frequency the amplifier is currently using for band determination.
#[derive(Clone, Copy, Debug, PartialEq, Eq)]
pub struct GetFrequency;

impl GetFrequency {
    pub fn to_bytes(&self) -> (r: Vec<u8>)
        ensures
            r@ == frame(get_frequency_id(), seq![]),
    {
        let none: [u8; 0] = [];
        frame_command(get_frequency_id_bytes(), &none)
    }

    pub open spec fn spec_parse_response(bytes: Seq<u8>) -> Result<u32, Failure> {
        match spec_validate_response(bytes, get_frequency_id(), 8) {
            Ok(v) => spec_u32_field(v),
            Err(f) => Err(f),
        }
    }

    pub fn parse(&self, bytes: &[u8]) -> (r: Result<u32, RigError>)
        ensures
            agrees(r, Self::spec_parse_response(bytes@)),
    {
        match validate_response(bytes, get_frequency_id_bytes(), 8) {
            Ok(d) => {
                proof {
                    lemma_leading_value_bound(d@);
                    lemma_pow10_values();
                }
                u32_from_ascii(d)
            },
            Err(e) => Err(e),
        }
    }
}

/// A `GetFrequency` reply of 8 value bytes reads as the decimal number they spell; a value with a
/// byte that is not a digit is an `InvalidResponseData` error holding the value.
pub proof fn lemma_get_frequency_reply(v: Seq<u8>)
    requires
        v.len() == 8,
    ensures
        all_digits(v) && digits_value(v) <= u32::MAX ==> GetFrequency::spec_parse_response(frame(get_frequency_id(), v)) == Ok::<u32, Failure>(digits_value(v) as u32),
        !all_digits(v) ==> GetFrequency::spec_parse_response(frame(get_frequency_id(), v)) == Err::<u32, Failure>(Failure::ResponseData(v)),
{
    lemma_framed_value_reads_back(get_frequency_id(), v);
}

/// `^FQ`
pub open spec fn set_frequency_id() -> Seq<u8> {
    seq![0x5E, 0x46, 0x51]
}

fn set_frequency_id_bytes() -> (r: &'static [u8])
    ensures
        r@ == set_frequency_id(),
{
    &[0x5E, 0x46, 0x51]
}

/// Set the operating frequency used for band determination.
#[derive(Clone, Copy, Debug, PartialEq, Eq)]
pub struct SetFrequency {
    pub hz: u32,
}

impl SetFrequency {
    pub open spec fn spec_args(self) -> Seq<u8> {
        padded_decimal(self.hz as nat, 8)
    }

    pub fn to_bytes(&self) -> (r: Vec<u8>)
        ensures
            r@ == frame(set_frequency_id(), self.spec_args()),
    {
        let args = format_uint_ascii(self.hz as u64, 8);
        frame_command(set_frequency_id_bytes(), args.as_slice())
    }
}

/// `SetFrequency` sends `hz` as decimal digits, zero-padded to 8 digits when it fits in 8.
pub proof fn lemma_set_frequency_argument(s: SetFrequency)
    ensures
        all_digits(s.spec_args()),
        digits_value(s.spec_args()) == s.hz,
        (s.hz as nat) < pow10(8) ==> s.spec_args().len() == 8,
        s.spec_args().len() >= 8,
{
    lemma_padded_decimal_value(s.hz as nat, 8);
    if (s.hz as nat) < pow10(8) {
        lemma_num_digits_le(s.hz as nat, 8);
    }
}

/// `^NH`
pub open spec fn get_inhibit_input_id() -> Seq<u8> {
    seq![0x5E, 0x4E, 0x48]
}

fn get_inhibit_input_id_bytes() -> (r: &'static [u8])
    ensures
        r@ == get_inhibit_input_id(),
{
    &[0x5E, 0x4E, 0x48]
}

/// Get whether the INHIBIT# input pin is enabled.
#[derive(Clone, Copy, Debug, PartialEq, Eq)]
pub struct GetInhibitInput;

impl GetInhibitInput {
    pub fn to_bytes(&self) -> (r: Vec<u8>)
        ensures
            r@ == frame(get_inhibit_input_id(), seq![]),
    {
        let none: [u8; 0] = [];
        frame_command(get_inhibit_input_id_bytes(), &none)
    }

    pub open spec fn spec_parse_response(bytes: Seq<u8>) -> Result<bool, Failure> {
        match spec_validate_response(bytes, get_inhibit_input_id(), 1) {
            Ok(v) => spec_bool_1_0(v[0]),
            Err(f) => Err(f),
        }
    }

    pub fn parse(&self, bytes: &[u8]) -> (r: Result<bool, RigError>)
        ensures
            agrees(r, Self::spec_parse_response(bytes@)),
    {
        match validate_response(bytes, get_inhibit_input_id_bytes(), 1) {
            Ok(d) => bool_from_ascii_1_0(d[0]),
            Err(e) => Err(e),
        }
    }
}

/// A `GetInhibitInput` reply whose value byte is `1` reads as `true`, `0` as `false`; any other byte is a
/// `ParseBoolean` error.
pub proof fn lemma_get_inhibit_input_reply(v: Seq<u8>)
    requires
        v.len() == 1,
    ensures
        v[0] == 0x31 ==> GetInhibitInput::spec_parse_response(frame(get_inhibit_input_id(), v)) == Ok::<bool, Failure>(true),
        v[0] == 0x30 ==> GetInhibitInput::spec_parse_response(frame(get_inhibit_input_id(), v)) == Ok::<bool, Failure>(false),
        v[0] != 0x30 && v[0] != 0x31 ==> GetInhibitInput::spec_parse_response(frame(get_inhibit_input_id(), v)) == Err::<bool, Failure>(Failure::Boolean(v[0])),
{
    lemma_framed_value_reads_back(get_inhibit_input_id(), v);
}

/// `^NH`
pub open spec fn set_inhibit_input_id() -> Seq<u8> {
    seq![0x5E, 0x4E, 0x48]
}

fn set_inhibit_input_id_bytes() -> (r: &'static [u8])
    ensures
        r@ == set_inhibit_input_id(),
{
    &[0x5E, 0x4E, 0x48]
}

/// Set whether the INHIBIT# input pin is enabled.
#[derive(Clone, Copy, Debug, PartialEq, Eq)]
pub struct SetInhibitInput {
    pub enabled: bool,
}

impl SetInhibitInput {
    pub open spec fn spec_args(self) -> Seq<u8> {
        seq![if self.enabled { ASCII_DIGIT_ONE } else { ASCII_DIGIT_ZERO }]
    }

    pub fn to_bytes(&self) -> (r: Vec<u8>)
        ensures
            r@ == frame(set_inhibit_input_id(), self.spec_args()),
    {
        let args: [u8; 1] = [if self.enabled { ASCII_DIGIT_ONE } else { ASCII_DIGIT_ZERO }];
        assert(args@ =~= self.spec_args());
        frame_command(set_inhibit_input_id_bytes(), &args)
    }
}

/// `SetInhibitInput` sends `1` when `enabled` is set and `0` when it is clear.
pub proof fn lemma_set_inhibit_input_argument(s: SetInhibitInput)
    ensures
        s.enabled ==> s.spec_args() == seq![0x31u8],
        !s.enabled ==> s.spec_args() == seq![0x30u8],
{
}

/// `^ON`
pub open spec fn get_power_status_id() -> Seq<u8> {
    seq![0x5E, 0x4F, 0x4E]
}

fn get_power_status_id_bytes() -> (r: &'static [u8])
    ensures
        r@ == get_power_status_id(),
{
    &[0x5E, 0x4F, 0x4E]
}

/// Get whether the KPA1500 is powered on.
#[derive(Clone, Copy, Debug, PartialEq, Eq)]
pub struct GetPowerStatus;

impl GetPowerStatus {
    pub fn to_bytes(&self) -> (r: Vec<u8>)
        ensures
            r@ == frame(get_power_status_id(), seq![]),
    {
        let none: [u8; 0] = [];
        frame_command(get_power_status_id_bytes(), &none)
    }

    pub open spec fn spec_parse_response(bytes: Seq<u8>) -> Result<bool, Failure> {
        match spec_validate_response(bytes, get_power_status_id(), 1) {
            Ok(v) => spec_bool_1_0(v[0]),
            Err(f) => Err(f),
        }
    }

    pub fn parse(&self, bytes: &[u8]) -> (r: Result<bool, RigError>)
        ensures
            agrees(r, Self::spec_parse_response(bytes@)),
    {
        match validate_response(bytes, get_power_status_id_bytes(), 1) {
            Ok(d) => bool_from_ascii_1_0(d[0]),
            Err(e) => Err(e),
        }
    }
}

/// A `GetPowerStatus` reply whose value byte is `1` reads as `true`, `0` as `false`; any other byte is a
/// `ParseBoolean` error.
pub proof fn lemma_get_power_status_reply(v: Seq<u8>)
    requires
        v.len() == 1,
    ensures
        v[0] == 0x31 ==> GetPowerStatus::spec_parse_response(frame(get_power_status_id(), v)) == Ok::<bool, Failure>(true),
        v[0] == 0x30 ==> GetPowerStatus::spec_parse_response(frame(get_power_status_id(), v)) == Ok::<bool, Failure>(false),
        v[0] != 0x30 && v[0] != 0x31 ==> GetPowerStatus::spec_parse_response(frame(get_power_status_id(), v)) == Err::<bool, Failure>(Failure::Boolean(v[0])),
{
    lemma_framed_value_reads_back(get_power_status_id(), v);
}

/// `^ON`
pub open spec fn turn_power_off_id() -> Seq<u8> {
    seq![0x5E, 0x4F, 0x4E]
}

fn turn_power_off_id_bytes() -> (r: &'static [u8])
    ensures
        r@ == turn_power_off_id(),
{
    &[0x5E, 0x4F, 0x4E]
}

/// Turn the KPA1500 off.
#[derive(Clone, Copy, Debug, PartialEq, Eq)]
pub struct TurnPowerOff;

impl TurnPowerOff {
    pub fn to_bytes(&self) -> (r: Vec<u8>)
        ensures
            r@ == frame(turn_power_off_id(), seq![0x30u8]),
    {
        let args: [u8; 1] = [0x30];
        assert(args@ =~= seq![0x30u8]);
        frame_command(turn_power_off_id_bytes(), &args)
    }
}

/// `^OP`
pub open spec fn get_output_power_id() -> Seq<u8> {
    seq![0x5E, 0x4F, 0x50]
}

fn get_output_power_id_bytes() -> (r: &'static [u8])
    ensures
        r@ == get_output_power_id(),
{
    &[0x5E, 0x4F, 0x50]
}

/// Get the current output power.
#[derive(Clone, Copy, Debug, PartialEq, Eq)]
pub struct GetOutputPower;

impl GetOutputPower {
    pub fn to_bytes(&self) -> (r: Vec<u8>)
        ensures
            r@ == frame(get_output_power_id(), seq![]),
    {
        let none: [u8; 0] = [];
        frame_command(get_output_power_id_bytes(), &none)
    }

    pub open spec fn spec_parse_response(bytes: Seq<u8>) -> Result<u16, Failure> {
        match spec_validate_response(bytes, get_output_power_id(), 4) {
            Ok(v) => spec_u16_field(v),
            Err(f) => Err(f),
        }
    }

    pub fn parse(&self, bytes: &[u8]) -> (r: Result<u16, RigError>)
        ensures
            agrees(r, Self::spec_parse_response(bytes@)),
    {
        match validate_response(bytes, get_output_power_id_bytes(), 4) {
            Ok(d) => {
                proof {
                    lemma_leading_value_bound(d@);
                    lemma_pow10_values();
                }
                u16_from_ascii(d)
            },
            Err(e) => Err(e),
        }
    }
}

/// A `GetOutputPower` reply of 4 value bytes reads as the decimal number they spell; a value with a
/// byte that is not a digit is an `InvalidResponseData` error holding the value.
pub proof fn lemma_get_output_power_reply(v: Seq<u8>)
    requires
        v.len() == 4,
    ensures
        all_digits(v) && digits_value(v) <= u16::MAX ==> GetOutputPower::spec_parse_response(frame(get_output_power_id(), v)) == Ok::<u16, Failure>(digits_value(v) as u16),
        !all_digits(v) ==> GetOutputPower::spec_parse_response(frame(get_output_power_id(), v)) == Err::<u16, Failure>(Failure::ResponseData(v)),
{
    lemma_framed_value_reads_back(get_output_power_id(), v);
}

/// `^OS`
pub open spec fn get_operate_mode_id() -> Seq<u8> {
    seq![0x5E, 0x4F, 0x53]
}

fn get_operate_mode_id_bytes() -> (r: &'static [u8])
    ensures
        r@ == get_operate_mode_id(),
{
    &[0x5E, 0x4F, 0x53]
}

/// Get the current operate/standby mode.
#[derive(Clone, Copy, Debug, PartialEq, Eq)]
pub struct GetOperateMode;

impl GetOperateMode {
    pub fn to_bytes(&self) -> (r: Vec<u8>)
        ensures
            r@ == frame(get_operate_mode_id(), seq![]),
    {
        let none: [u8; 0] = [];
        frame_command(get_operate_mode_id_bytes(), &none)
    }

    pub open spec fn spec_parse_response(bytes: Seq<u8>) -> Result<bool, Failure> {
        match spec_validate_response(bytes, get_operate_mode_id(), 1) {
            Ok(v) => spec_bool_1_0(v[0]),
            Err(f) => Err(f),
        }
    }

    pub fn parse(&self, bytes: &[u8]) -> (r: Result<bool, RigError>)
        ensures
            agrees(r, Self::spec_parse_response(bytes@)),
    {
        match validate_response(bytes, get_operate_mode_id_bytes(), 1) {
            Ok(d) => bool_from_ascii_1_0(d[0]),
            Err(e) => Err(e),
        }
    }
}

/// A `GetOperateMode` reply whose value byte is `1` reads as `true`, `0` as `false`; any other byte is a
/// `ParseBoolean` error.
pub proof fn lemma_get_operate_mode_reply(v: Seq<u8>)
    requires
        v.len() == 1,
    ensures
        v[0] == 0x31 ==> GetOperateMode::spec_parse_response(frame(get_operate_mode_id(), v)) == Ok::<bool, Failure>(true),
        v[0] == 0x30 ==> GetOperateMode::spec_parse_response(frame(get_operate_mode_id(), v)) == Ok::<bool, Failure>(false),
        v[0] != 0x30 && v[0] != 0x31 ==> GetOperateMode::spec_parse_response(frame(get_operate_mode_id(), v)) == Err::<bool, Failure>(Failure::Boolean(v[0])),
{
    lemma_framed_value_reads_back(get_operate_mode_id(), v);
}

/// `^OS`
pub open spec fn set_operate_mode_id() -> Seq<u8> {
    seq![0x5E, 0x4F, 0x53]
}

fn set_operate_mode_id_bytes() -> (r: &'static [u8])
    ensures
        r@ == set_operate_mode_id(),
{
    &[0x5E, 0x4F, 0x53]
}

/// Set operate or standby mode.
#[derive(Clone, Copy, Debug, PartialEq, Eq)]
pub struct SetOperateMode {
    pub operate: bool,
}

impl SetOperateMode {
    pub open spec fn spec_args(self) -> Seq<u8> {
        seq![if self.operate { ASCII_DIGIT_ONE } else { ASCII_DIGIT_ZERO }]
    }

    pub fn to_bytes(&self) -> (r: Vec<u8>)
        ensures
            r@ == frame(set_operate_mode_id(), self.spec_args()),
    {
        let args: [u8; 1] = [if self.operate { ASCII_DIGIT_ONE } else { ASCII_DIGIT_ZERO }];
        assert(args@ =~= self.spec_args());
        frame_command(set_operate_mode_id_bytes(), &args)
    }
}

/// `SetOperateMode` sends `1` when `operate` is set and `0` when it is clear.
pub proof fn lemma_set_operate_mode_argument(s: SetOperateMode)
    ensures
        s.operate ==> s.spec_args() == seq![0x31u8],
        !s.operate ==> s.spec_args() == seq![0x30u8],
{
}

/// `^PC`
pub open spec fn get_peak_power_control_id() -> Seq<u8> {
    seq![0x5E, 0x50, 0x43]
}

fn get_peak_power_control_id_bytes() -> (r: &'static [u8])
    ensures
        r@ == get_peak_power_control_id(),
{
    &[0x5E, 0x50, 0x43]
}

/// Get the peak-power control limit.
#[derive(Clone, Copy, Debug, PartialEq, Eq)]
pub struct GetPeakPowerControl;

impl GetPeakPowerControl {
    pub fn to_bytes(&self) -> (r: Vec<u8>)
        ensures
            r@ == frame(get_peak_power_control_id(), seq![]),
    {
        let none: [u8; 0] = [];
        frame_command(get_peak_power_control_id_bytes(), &none)
    }

    pub open spec fn spec_parse_response(bytes: Seq<u8>) -> Result<u16, Failure> {
        match spec_validate_response(bytes, get_peak_power_control_id(), 4) {
            Ok(v) => spec_u16_field(v),
            Err(f) => Err(f),
        }
    }

    pub fn parse(&self, bytes: &[u8]) -> (r: Result<u16, RigError>)
        ensures
            agrees(r, Self::spec_parse_response(bytes@)),
    {
        match validate_response(bytes, get_peak_power_control_id_bytes(), 4) {
            Ok(d) => {
                proof {
                    lemma_leading_value_bound(d@);
                    lemma_pow10_values();
                }
                u16_from_ascii(d)
            },
            Err(e) => Err(e),
        }
    }
}

/// A `GetPeakPowerControl` reply of 4 value bytes reads as the decimal number they spell; a value with a
/// byte that is not a digit is an `InvalidResponseData` error holding the value.
pub proof fn lemma_get_peak_power_control_reply(v: Seq<u8>)
    requires
        v.len() == 4,
    ensures
        all_digits(v) && digits_value(v) <= u16::MAX ==> GetPeakPowerControl::spec_parse_response(frame(get_peak_power_control_id(), v)) == Ok::<u16, Failure>(digits_value(v) as u16),
        !all_digits(v) ==> GetPeakPowerControl::spec_parse_response(frame(get_peak_power_control_id(), v)) == Err::<u16, Failure>(Failure::ResponseData(v)),
{
    lemma_framed_value_reads_back(get_peak_power_control_id(), v);
}

/// `^PC`
pub open spec fn set_peak_power_control_id() -> Seq<u8> {
    seq![0x5E, 0x50, 0x43]
}

fn set_peak_power_control_id_bytes() -> (r: &'static [u8])
    ensures
        r@ == set_peak_power_control_id(),
{
    &[0x5E, 0x50, 0x43]
}

/// Set the peak-power control limit.
#[derive(Clone, Copy, Debug, PartialEq, Eq)]
pub struct SetPeakPowerControl {
    pub watts: u16,
}

impl SetPeakPowerControl {
    /// The values the command accepts.
    pub open spec fn spec_in_range(self) -> bool {
        self.watts <= 1500
    }

    /// The argument bytes.
    pub open spec fn spec_args(self) -> Seq<u8> {
        uint_args(self.watts as u32, 4)
    }

    /// The command, or `InvalidArgumentValue` for a value out of range.
    pub fn to_bytes(&self) -> (r: Result<Vec<u8>, RigError>)
        ensures
            self.spec_in_range() ==> (r matches Ok(b) && b@ == frame(set_peak_power_control_id(), self.spec_args())),
            !self.spec_in_range() ==> (r matches Err(e) && e.fails_with(
                Failure::ArgumentValue("watts"@, "u16"@, decimal_string(self.watts as int)),
            )),
    {
        encode_uint_in_range(set_peak_power_control_id_bytes(), "watts", "u16", self.watts as u32, 0, 1500, 4)
    }
}

/// `SetPeakPowerControl` accepts `watts` when `s.watts <= 1500` and sends it as decimal digits, zero-padded to 4.
pub proof fn lemma_set_peak_power_control_argument(s: SetPeakPowerControl)
    ensures
        s.spec_in_range() == (s.watts <= 1500),
        all_digits(s.spec_args()),
        digits_value(s.spec_args()) == s.watts,
        (s.watts as nat) < pow10(4) ==> s.spec_args().len() == 4,
{
    lemma_padded_decimal_value(s.watts as nat, 4);
    if (s.watts as nat) < pow10(4) {
        lemma_num_digits_le(s.watts as nat, 4);
    }
}

/// `^PD`
pub open spec fn get_ptt_delay_id() -> Seq<u8> {
    seq![0x5E, 0x50, 0x44]
}

fn get_ptt_delay_id_bytes() -> (r: &'static [u8])
    ensures
        r@ == get_ptt_delay_id(),
{
    &[0x5E, 0x50, 0x44]
}

/// Get the PTT delay.
#[derive(Clone, Copy, Debug, PartialEq, Eq)]
pub struct GetPttDelay;

impl GetPttDelay {
    pub fn to_bytes(&self) -> (r: Vec<u8>)
        ensures
            r@ == frame(get_ptt_delay_id(), seq![]),
    {
        let none: [u8; 0] = [];
        frame_command(get_ptt_delay_id_bytes(), &none)
    }

    pub open spec fn spec_parse_response(bytes: Seq<u8>) -> Result<u16, Failure> {
        match spec_validate_response(bytes, get_ptt_delay_id(), 3) {
            Ok(v) => spec_u16_field(v),
            Err(f) => Err(f),
        }
    }

    pub fn parse(&self, bytes: &[u8]) -> (r: Result<u16, RigError>)
        ensures
            agrees(r, Self::spec_parse_response(bytes@)),
    {
        match validate_response(bytes, get_ptt_delay_id_bytes(), 3) {
            Ok(d) => {
                proof {
                    lemma_leading_value_bound(d@);
                    lemma_pow10_values();
                }
                u16_from_ascii(d)
            },
            Err(e) => Err(e),
        }
    }
}

/// A `GetPttDelay` reply of 3 value bytes reads as the decimal number they spell; a value with a
/// byte that is not a digit is an `InvalidResponseData` error holding the value.
pub proof fn lemma_get_ptt_delay_reply(v: Seq<u8>)
    requires
        v.len() == 3,
    ensures
        all_digits(v) && digits_value(v) <= u16::MAX ==> GetPttDelay::spec_parse_response(frame(get_ptt_delay_id(), v)) == Ok::<u16, Failure>(digits_value(v) as u16),
        !all_digits(v) ==> GetPttDelay::spec_parse_response(frame(get_ptt_delay_id(), v)) == Err::<u16, Failure>(Failure::ResponseData(v)),
{
    lemma_framed_value_reads_back(get_ptt_delay_id(), v);
}

/// `^PD`
pub open spec fn set_ptt_delay_id() -> Seq<u8> {
    seq![0x5E, 0x50, 0x44]
}

fn set_ptt_delay_id_bytes() -> (r: &'static [u8])
    ensures
        r@ == set_ptt_delay_id(),
{
    &[0x5E, 0x50, 0x44]
}

/// Set the PTT delay.
#[derive(Clone, Copy, Debug, PartialEq, Eq)]
pub struct SetPttDelay {
    pub ms: u16,
}

impl SetPttDelay {
    /// The values the command accepts.
    pub open spec fn spec_in_range(self) -> bool {
        self.ms <= 500
    }

    /// The argument bytes.
    pub open spec fn spec_args(self) -> Seq<u8> {
        uint_args(self.ms as u32, 3)
    }

    /// The command, or `InvalidArgumentValue` for a value out of range.
    pub fn to_bytes(&self) -> (r: Result<Vec<u8>, RigError>)
        ensures
            self.spec_in_range() ==> (r matches Ok(b) && b@ == frame(set_ptt_delay_id(), self.spec_args())),
            !self.spec_in_range() ==> (r matches Err(e) && e.fails_with(
                Failure::ArgumentValue("ms"@, "u16"@, decimal_string(self.ms as int)),
            )),
    {
        encode_uint_in_range(set_ptt_delay_id_bytes(), "ms", "u16", self.ms as u32, 0, 500, 3)
    }
}

/// `SetPttDelay` accepts `ms` when `s.ms <= 500` and sends it as decimal digits, zero-padded to 3.
pub proof fn lemma_set_ptt_delay_argument(s: SetPttDelay)
    ensures
        s.spec_in_range() == (s.ms <= 500),
        all_digits(s.spec_args()),
        digits_value(s.spec_args()) == s.ms,
        (s.ms as nat) < pow10(3) ==> s.spec_args().len() == 3,
{
    lemma_padded_decimal_value(s.ms as nat, 3);
    if (s.ms as nat) < pow10(3) {
        lemma_num_digits_le(s.ms as nat, 3);
    }
}

/// `^PF`
pub open spec fn get_protection_fault_enable_id() -> Seq<u8> {
    seq![0x5E, 0x50, 0x46]
}

fn get_protection_fault_enable_id_bytes() -> (r: &'static [u8])
    ensures
        r@ == get_protection_fault_enable_id(),
{
    &[0x5E, 0x50, 0x46]
}

/// Get whether protection faults are enabled.
#[derive(Clone, Copy, Debug, PartialEq, Eq)]
pub struct GetProtectionFaultEnable;

impl GetProtectionFaultEnable {
    pub fn to_bytes(&self) -> (r: Vec<u8>)
        ensures
            r@ == frame(get_protection_fault_enable_id(), seq![]),
    {
        let none: [u8; 0] = [];
        frame_command(get_protection_fault_enable_id_bytes(), &none)
    }

    pub open spec fn spec_parse_response(bytes: Seq<u8>) -> Result<bool, Failure> {
        match spec_validate_response(bytes, get_protection_fault_enable_id(), 1) {
            Ok(v) => spec_bool_1_0(v[0]),
            Err(f) => Err(f),
        }
    }

    pub fn parse(&self, bytes: &[u8]) -> (r: Result<bool, RigError>)
        ensures
            agrees(r, Self::spec_parse_response(bytes@)),
    {
        match validate_response(bytes, get_protection_fault_enable_id_bytes(), 1) {
            Ok(d) => bool_from_ascii_1_0(d[0]),
            Err(e) => Err(e),
        }
    }
}

/// A `GetProtectionFaultEnable` reply whose value byte is `1` reads as `true`, `0` as `false`; any other byte is a
/// `ParseBoolean` error.
pub proof fn lemma_get_protection_fault_enable_reply(v: Seq<u8>)
    requires
        v.len() == 1,
    ensures
        v[0] == 0x31 ==> GetProtectionFaultEnable::spec_parse_response(frame(get_protection_fault_enable_id(), v)) == Ok::<bool, Failure>(true),
        v[0] == 0x30 ==> GetProtectionFaultEnable::spec_parse_response(frame(get_protection_fault_enable_id(), v)) == Ok::<bool, Failure>(false),
        v[0] != 0x30 && v[0] != 0x31 ==> GetProtectionFaultEnable::spec_parse_response(frame(get_protection_fault_enable_id(), v)) == Err::<bool, Failure>(Failure::Boolean(v[0])),
{
    lemma_framed_value_reads_back(get_protection_fault_enable_id(), v);
}

/// `^PF`
pub open spec fn set_protection_fault_enable_id() -> Seq<u8> {
    seq![0x5E, 0x50, 0x46]
}

fn set_protection_fault_enable_id_bytes() -> (r: &'static [u8])
    ensures
        r@ == set_protection_fault_enable_id(),
{
    &[0x5E, 0x50, 0x46]
}

/// Set whether protection faults are enabled.
#[derive(Clone, Copy, Debug, PartialEq, Eq)]
pub struct SetProtectionFaultEnable {
    pub enabled: bool,
}

impl SetProtectionFaultEnable {
    pub open spec fn spec_args(self) -> Seq<u8> {
        seq![if self.enabled { ASCII_DIGIT_ONE } else { ASCII_DIGIT_ZERO }]
    }

    pub fn to_bytes(&self) -> (r: Vec<u8>)
        ensures
            r@ == frame(set_protection_fault_enable_id(), self.spec_args()),
    {
        let args: [u8; 1] = [if self.enabled { ASCII_DIGIT_ONE } else { ASCII_DIGIT_ZERO }];
        assert(args@ =~= self.spec_args());
        frame_command(set_protection_fault_enable_id_bytes(), &args)
    }
}

/// `SetProtectionFaultEnable` sends `1` when `enabled` is set and `0` when it is clear.
pub proof fn lemma_set_protection_fault_enable_argument(s: SetProtectionFaultEnable)
    ensures
        s.enabled ==> s.spec_args() == seq![0x31u8],
        !s.enabled ==> s.spec_args() == seq![0x30u8],
{
}

/// `^PJ`
pub open spec fn get_power_adjustment_id() -> Seq<u8> {
    seq![0x5E, 0x50, 0x4A]
}

fn get_power_adjustment_id_bytes() -> (r: &'static [u8])
    ensures
        r@ == get_power_adjustment_id(),
{
    &[0x5E, 0x50, 0x4A]
}

/// Get the power adjustment for the current band.
#[derive(Clone, Copy, Debug, PartialEq, Eq)]
pub struct GetPowerAdjustment;

impl GetPowerAdjustment {
    pub fn to_bytes(&self) -> (r: Vec<u8>)
        ensures
            r@ == frame(get_power_adjustment_id(), seq![]),
    {
        let none: [u8; 0] = [];
        frame_command(get_power_adjustment_id_bytes(), &none)
    }

    pub open spec fn spec_parse_response(bytes: Seq<u8>) -> Result<u8, Failure> {
        match spec_validate_response(bytes, get_power_adjustment_id(), 3) {
            Ok(v) => spec_u8_field(v),
            Err(f) => Err(f),
        }
    }

    /// Reads the digits of a framed reply; a value above 255 is outside the domain.
    pub fn parse(&self, bytes: &[u8]) -> (r: Result<u8, RigError>)
        requires
            spec_validate_response(bytes@, get_power_adjustment_id(), 3) matches Ok(v) ==> leading_value(v) <= u8::MAX,
        ensures
            agrees(r, Self::spec_parse_response(bytes@)),
    {
        match validate_response(bytes, get_power_adjustment_id_bytes(), 3) {
            Ok(d) => {
                proof {
                    lemma_leading_value_bound(d@);
                    lemma_pow10_values();
                }
                u8_from_ascii(d)
            },
            Err(e) => Err(e),
        }
    }
}

/// A `GetPowerAdjustment` reply of 3 value bytes reads as the decimal number they spell; a value with a
/// byte that is not a digit is an `InvalidResponseData` error holding the value.
pub proof fn lemma_get_power_adjustment_reply(v: Seq<u8>)
    requires
        v.len() == 3,
    ensures
        all_digits(v) && digits_value(v) <= 255 ==> GetPowerAdjustment::spec_parse_response(frame(get_power_adjustment_id(), v)) == Ok::<u8, Failure>(digits_value(v) as u8),
        !all_digits(v) ==> GetPowerAdjustment::spec_parse_response(frame(get_power_adjustment_id(), v)) == Err::<u8, Failure>(Failure::ResponseData(v)),
{
    lemma_framed_value_reads_back(get_power_adjustment_id(), v);
}

/// `^PJ`
pub open spec fn set_power_adjustment_id() -> Seq<u8> {
    seq![0x5E, 0x50, 0x4A]
}

fn set_power_adjustment_id_bytes() -> (r: &'static [u8])
    ensures
        r@ == set_power_adjustment_id(),
{
    &[0x5E, 0x50, 0x4A]
}

/// Set the power adjustment for the current band.
#[derive(Clone, Copy, Debug, PartialEq, Eq)]
pub struct SetPowerAdjustment {
    pub value: u8,
}

impl SetPowerAdjustment {
    /// The values the command accepts.
    pub open spec fn spec_in_range(self) -> bool {
        80 <= self.value <= 120
    }

    /// The argument bytes.
    pub open spec fn spec_args(self) -> Seq<u8> {
        uint_args(self.value as u32, 3)
    }

    /// The command, or `InvalidArgumentValue` for a value out of range.
    pub fn to_bytes(&self) -> (r: Result<Vec<u8>, RigError>)
        ensures
            self.spec_in_range() ==> (r matches Ok(b) && b@ == frame(set_power_adjustment_id(), self.spec_args())),
            !self.spec_in_range() ==> (r matches Err(e) && e.fails_with(
                Failure::ArgumentValue("value"@, "u8"@, decimal_string(self.value as int)),
            )),
    {
        encode_uint_in_range(set_power_adjustment_id_bytes(), "value", "u8", self.value as u32, 80, 120, 3)
    }
}

/// `SetPowerAdjustment` accepts `value` when `80 <= s.value <= 120` and sends it as decimal digits, zero-padded to 3.
pub proof fn lemma_set_power_adjustment_argument(s: SetPowerAdjustment)
    ensures
        s.spec_in_range() == (80 <= s.value <= 120),
        all_digits(s.spec_args()),
        digits_value(s.spec_args()) == s.value,
        (s.value as nat) < pow10(3) ==> s.spec_args().len() == 3,
{
    lemma_padded_decimal_value(s.value as nat, 3);
    if (s.value as nat) < pow10(3) {
        lemma_num_digits_le(s.value as nat, 3);
    }
}

/// `^RVM`
pub open spec fn get_firmware_version_id() -> Seq<u8> {
    seq![0x5E, 0x52, 0x56, 0x4D]
}

fn get_firmware_version_id_bytes() -> (r: &'static [u8])
    ensures
        r@ == get_firmware_version_id(),
{
    &[0x5E, 0x52, 0x56, 0x4D]
}

/// Get the firmware version: `^RVM;`, answered by `^RVM{text};` such as `^RVM03.03;`.
#[derive(Clone, Copy, Debug, PartialEq, Eq)]
pub struct GetFirmwareVersion;

impl GetFirmwareVersion {
    pub fn to_bytes(&self) -> (r: Vec<u8>)
        ensures
            r@ == frame(get_firmware_version_id(), seq![]),
    {
        let none: [u8; 0] = [];
        frame_command(get_firmware_version_id_bytes(), &none)
    }

    /// The whole reply line as text, when every byte of it is a graphic ASCII character or a
    /// space.
    pub fn parse(&self, bytes: &[u8]) -> (r: Result<String, RigError>)
        ensures
            all_printable_ascii(bytes@) ==> (r matches Ok(s) && s@ == ascii_chars(bytes@)),
            !all_printable_ascii(bytes@) ==> (r matches Err(e) && e.is_invalid_response_data(
                bytes@,
            )),
    {
        string_from_ascii(bytes)
    }
}

/// `^SN`
pub open spec fn get_serial_number_id() -> Seq<u8> {
    seq![0x5E, 0x53, 0x4E]
}

fn get_serial_number_id_bytes() -> (r: &'static [u8])
    ensures
        r@ == get_serial_number_id(),
{
    &[0x5E, 0x53, 0x4E]
}

/// Get the KPA1500 serial number.
#[derive(Clone, Copy, Debug, PartialEq, Eq)]
pub struct GetSerialNumber;

impl GetSerialNumber {
    pub fn to_bytes(&self) -> (r: Vec<u8>)
        ensures
            r@ == frame(get_serial_number_id(), seq![]),
    {
        let none: [u8; 0] = [];
        frame_command(get_serial_number_id_bytes(), &none)
    }

    pub open spec fn spec_parse_response(bytes: Seq<u8>) -> Result<u32, Failure> {
        match spec_validate_response(bytes, get_serial_number_id(), 5) {
            Ok(v) => spec_u32_field(v),
            Err(f) => Err(f),
        }
    }

    pub fn parse(&self, bytes: &[u8]) -> (r: Result<u32, RigError>)
        ensures
            agrees(r, Self::spec_parse_response(bytes@)),
    {
        match validate_response(bytes, get_serial_number_id_bytes(), 5) {
            Ok(d) => {
                proof {
                    lemma_leading_value_bound(d@);
                    lemma_pow10_values();
                }
                u32_from_ascii(d)
            },
            Err(e) => Err(e),
        }
    }
}

/// A `GetSerialNumber` reply of 5 value bytes reads as the decimal number they spell; a value with a
/// byte that is not a digit is an `InvalidResponseData` error holding the value.
pub proof fn lemma_get_serial_number_reply(v: Seq<u8>)
    requires
        v.len() == 5,
    ensures
        all_digits(v) && digits_value(v) <= u32::MAX ==> GetSerialNumber::spec_parse_response(frame(get_serial_number_id(), v)) == Ok::<u32, Failure>(digits_value(v) as u32),
        !all_digits(v) ==> GetSerialNumber::spec_parse_response(frame(get_serial_number_id(), v)) == Err::<u32, Failure>(Failure::ResponseData(v)),
{
    lemma_framed_value_reads_back(get_serial_number_id(), v);
}

/// `^SP`
pub open spec fn get_fault_speaker_id() -> Seq<u8> {
    seq![0x5E, 0x53, 0x50]
}

fn get_fault_speaker_id_bytes() -> (r: &'static [u8])
    ensures
        r@ == get_fault_speaker_id(),
{
    &[0x5E, 0x53, 0x50]
}

/// Get the fault speaker on/off state.
#[derive(Clone, Copy, Debug, PartialEq, Eq)]
pub struct GetFaultSpeaker;

impl GetFaultSpeaker {
    pub fn to_bytes(&self) -> (r: Vec<u8>)
        ensures
            r@ == frame(get_fault_speaker_id(), seq![]),
    {
        let none: [u8; 0] = [];
        frame_command(get_fault_speaker_id_bytes(), &none)
    }

    pub open spec fn spec_parse_response(bytes: Seq<u8>) -> Result<bool, Failure> {
        match spec_validate_response(bytes, get_fault_speaker_id(), 1) {
            Ok(v) => spec_bool_1_0(v[0]),
            Err(f) => Err(f),
        }
    }

    pub fn parse(&self, bytes: &[u8]) -> (r: Result<bool, RigError>)
        ensures
            agrees(r, Self::spec_parse_response(bytes@)),
    {
        match validate_response(bytes, get_fault_speaker_id_bytes(), 1) {
            Ok(d) => bool_from_ascii_1_0(d[0]),
            Err(e) => Err(e),
        }
    }
}

/// A `GetFaultSpeaker` reply whose value byte is `1` reads as `true`, `0` as `false`; any other byte is a
/// `ParseBoolean` error.
pub proof fn lemma_get_fault_speaker_reply(v: Seq<u8>)
    requires
        v.len() == 1,
    ensures
        v[0] == 0x31 ==> GetFaultSpeaker::spec_parse_response(frame(get_fault_speaker_id(), v)) == Ok::<bool, Failure>(true),
        v[0] == 0x30 ==> GetFaultSpeaker::spec_parse_response(frame(get_fault_speaker_id(), v)) == Ok::<bool, Failure>(false),
        v[0] != 0x30 && v[0] != 0x31 ==> GetFaultSpeaker::spec_parse_response(frame(get_fault_speaker_id(), v)) == Err::<bool, Failure>(Failure::Boolean(v[0])),
{
    lemma_framed_value_reads_back(get_fault_speaker_id(), v);
}

/// `^SP`
pub open spec fn set_fault_speaker_id() -> Seq<u8> {
    seq![0x5E, 0x53, 0x50]
}

fn set_fault_speaker_id_bytes() -> (r: &'static [u8])
    ensures
        r@ == set_fault_speaker_id(),
{
    &[0x5E, 0x53, 0x50]
}

/// Set the fault speaker on/off state.
#[derive(Clone, Copy, Debug, PartialEq, Eq)]
pub struct SetFaultSpeaker {
    pub state: bool,
}

impl SetFaultSpeaker {
    pub open spec fn spec_args(self) -> Seq<u8> {
        seq![if self.state { ASCII_DIGIT_ONE } else { ASCII_DIGIT_ZERO }]
    }

    pub fn to_bytes(&self) -> (r: Vec<u8>)
        ensures
            r@ == frame(set_fault_speaker_id(), self.spec_args()),
    {
        let args: [u8; 1] = [if self.state { ASCII_DIGIT_ONE } else { ASCII_DIGIT_ZERO }];
        assert(args@ =~= self.spec_args());
        frame_command(set_fault_speaker_id_bytes(), &args)
    }
}

/// `SetFaultSpeaker` sends `1` when `state` is set and `0` when it is clear.
pub proof fn lemma_set_fault_speaker_argument(s: SetFaultSpeaker)
    ensures
        s.state ==> s.spec_args() == seq![0x31u8],
        !s.state ==> s.spec_args() == seq![0x30u8],
{
}

/// `^TM`
pub open spec fn get_pa_temperature_id() -> Seq<u8> {
    seq![0x5E, 0x54, 0x4D]
}

fn get_pa_temperature_id_bytes() -> (r: &'static [u8])
    ensures
        r@ == get_pa_temperature_id(),
{
    &[0x5E, 0x54, 0x4D]
}

/// Get the PA temperature.
#[derive(Clone, Copy, Debug, PartialEq, Eq)]
pub struct GetPaTemperature;

impl GetPaTemperature {
    pub fn to_bytes(&self) -> (r: Vec<u8>)
        ensures
            r@ == frame(get_pa_temperature_id(), seq![]),
    {
        let none: [u8; 0] = [];
        frame_command(get_pa_temperature_id_bytes(), &none)
    }

    pub open spec fn spec_parse_response(bytes: Seq<u8>) -> Result<u8, Failure> {
        match spec_validate_response(bytes, get_pa_temperature_id(), 3) {
            Ok(v) => spec_u8_field(v),
            Err(f) => Err(f),
        }
    }

    /// Reads the digits of a framed reply; a value above 255 is outside the domain.
    pub fn parse(&self, bytes: &[u8]) -> (r: Result<u8, RigError>)
        requires
            spec_validate_response(bytes@, get_pa_temperature_id(), 3) matches Ok(v) ==> leading_value(v) <= u8::MAX,
        ensures
            agrees(r, Self::spec_parse_response(bytes@)),
    {
        match validate_response(bytes, get_pa_temperature_id_bytes(), 3) {
            Ok(d) => {
                proof {
                    lemma_leading_value_bound(d@);
                    lemma_pow10_values();
                }
                u8_from_ascii(d)
            },
            Err(e) => Err(e),
        }
    }
}

/// A `GetPaTemperature` reply of 3 value bytes reads as the decimal number they spell; a value with a
/// byte that is not a digit is an `InvalidResponseData` error holding the value.
pub proof fn lemma_get_pa_temperature_reply(v: Seq<u8>)
    requires
        v.len() == 3,
    ensures
        all_digits(v) && digits_value(v) <= 255 ==> GetPaTemperature::spec_parse_response(frame(get_pa_temperature_id(), v)) == Ok::<u8, Failure>(digits_value(v) as u8),
        !all_digits(v) ==> GetPaTemperature::spec_parse_response(frame(get_pa_temperature_id(), v)) == Err::<u8, Failure>(Failure::ResponseData(v)),
{
    lemma_framed_value_reads_back(get_pa_temperature_id(), v);
}

/// `^TP`
pub open spec fn get_tune_power_id() -> Seq<u8> {
    seq![0x5E, 0x54, 0x50]
}

fn get_tune_power_id_bytes() -> (r: &'static [u8])
    ensures
        r@ == get_tune_power_id(),
{
    &[0x5E, 0x54, 0x50]
}

/// Get the tune power level.
#[derive(Clone, Copy, Debug, PartialEq, Eq)]
pub struct GetTunePower;

impl GetTunePower {
    pub fn to_bytes(&self) -> (r: Vec<u8>)
        ensures
            r@ == frame(get_tune_power_id(), seq![]),
    {
        let none: [u8; 0] = [];
        frame_command(get_tune_power_id_bytes(), &none)
    }

    pub open spec fn spec_parse_response(bytes: Seq<u8>) -> Result<u16, Failure> {
        match spec_validate_response(bytes, get_tune_power_id(), 4) {
            Ok(v) => spec_u16_field(v),
            Err(f) => Err(f),
        }
    }

    pub fn parse(&self, bytes: &[u8]) -> (r: Result<u16, RigError>)
        ensures
            agrees(r, Self::spec_parse_response(bytes@)),
    {
        match validate_response(bytes, get_tune_power_id_bytes(), 4) {
            Ok(d) => {
                proof {
                    lemma_leading_value_bound(d@);
                    lemma_pow10_values();
                }
                u16_from_ascii(d)
            },
            Err(e) => Err(e),
        }
    }
}

/// A `GetTunePower` reply of 4 value bytes reads as the decimal number they spell; a value with a
/// byte that is not a digit is an `InvalidResponseData` error holding the value.
pub proof fn lemma_get_tune_power_reply(v: Seq<u8>)
    requires
        v.len() == 4,
    ensures
        all_digits(v) && digits_value(v) <= u16::MAX ==> GetTunePower::spec_parse_response(frame(get_tune_power_id(), v)) == Ok::<u16, Failure>(digits_value(v) as u16),
        !all_digits(v) ==> GetTunePower::spec_parse_response(frame(get_tune_power_id(), v)) == Err::<u16, Failure>(Failure::ResponseData(v)),
{
    lemma_framed_value_reads_back(get_tune_power_id(), v);
}

/// `^TP`
pub open spec fn set_tune_power_id() -> Seq<u8> {
    seq![0x5E, 0x54, 0x50]
}

fn set_tune_power_id_bytes() -> (r: &'static [u8])
    ensures
        r@ == set_tune_power_id(),
{
    &[0x5E, 0x54, 0x50]
}

/// Set the tune power level.
#[derive(Clone, Copy, Debug, PartialEq, Eq)]
pub struct SetTunePower {
    pub watts: u16,
}

impl SetTunePower {
    pub open spec fn spec_args(self) -> Seq<u8> {
        padded_decimal(self.watts as nat, 4)
    }

    pub fn to_bytes(&self) -> (r: Vec<u8>)
        ensures
            r@ == frame(set_tune_power_id(), self.spec_args()),
    {
        let args = format_uint_ascii(self.watts as u64, 4);
        frame_command(set_tune_power_id_bytes(), args.as_slice())
    }
}

/// `SetTunePower` sends `watts` as decimal digits, zero-padded to 4 digits when it fits in 4.
pub proof fn lemma_set_tune_power_argument(s: SetTunePower)
    ensures
        all_digits(s.spec_args()),
        digits_value(s.spec_args()) == s.watts,
        (s.watts as nat) < pow10(4) ==> s.spec_args().len() == 4,
        s.spec_args().len() >= 4,
{
    lemma_padded_decimal_value(s.watts as nat, 4);
    if (s.watts as nat) < pow10(4) {
        lemma_num_digits_le(s.watts as nat, 4);
    }
}

/// `^TR`
pub open spec fn get_tr_delay_id() -> Seq<u8> {
    seq![0x5E, 0x54, 0x52]
}

fn get_tr_delay_id_bytes() -> (r: &'static [u8])
    ensures
        r@ == get_tr_delay_id(),
{
    &[0x5E, 0x54, 0x52]
}

/// Get the T/R (transmit-to-receive) delay time.
#[derive(Clone, Copy, Debug, PartialEq, Eq)]
pub struct GetTrDelay;

impl GetTrDelay {
    pub fn to_bytes(&self) -> (r: Vec<u8>)
        ensures
            r@ == frame(get_tr_delay_id(), seq![]),
    {
        let none: [u8; 0] = [];
        frame_command(get_tr_delay_id_bytes(), &none)
    }

    pub open spec fn spec_parse_response(bytes: Seq<u8>) -> Result<u8, Failure> {
        match spec_validate_response(bytes, get_tr_delay_id(), 2) {
            Ok(v) => spec_u8_field(v),
            Err(f) => Err(f),
        }
    }

    pub fn parse(&self, bytes: &[u8]) -> (r: Result<u8, RigError>)
        ensures
            agrees(r, Self::spec_parse_response(bytes@)),
    {
        match validate_response(bytes, get_tr_delay_id_bytes(), 2) {
            Ok(d) => {
                proof {
                    lemma_leading_value_bound(d@);
                    lemma_pow10_values();
                }
                u8_from_ascii(d)
            },
            Err(e) => Err(e),
        }
    }
}

/// A `GetTrDelay` reply of 2 value bytes reads as the decimal number they spell; a value with a
/// byte that is not a digit is an `InvalidResponseData` error holding the value.
pub proof fn lemma_get_tr_delay_reply(v: Seq<u8>)
    requires
        v.len() == 2,
    ensures
        all_digits(v) && digits_value(v) <= 255 ==> GetTrDelay::spec_parse_response(frame(get_tr_delay_id(), v)) == Ok::<u8, Failure>(digits_value(v) as u8),
        !all_digits(v) ==> GetTrDelay::spec_parse_response(frame(get_tr_delay_id(), v)) == Err::<u8, Failure>(Failure::ResponseData(v)),
{
    lemma_framed_value_reads_back(get_tr_delay_id(), v);
}

/// `^TR`
pub open spec fn set_tr_delay_id() -> Seq<u8> {
    seq![0x5E, 0x54, 0x52]
}

fn set_tr_delay_id_bytes() -> (r: &'static [u8])
    ensures
        r@ == set_tr_delay_id(),
{
    &[0x5E, 0x54, 0x52]
}

/// Set the T/R (transmit-to-receive) delay time.
#[derive(Clone, Copy, Debug, PartialEq, Eq)]
pub struct SetTrDelay {
    pub ms: u8,
}

impl SetTrDelay {
    /// The values the command accepts.
    pub open spec fn spec_in_range(self) -> bool {
        self.ms <= 50
    }

    /// The argument bytes.
    pub open spec fn spec_args(self) -> Seq<u8> {
        uint_args(self.ms as u32, 2)
    }

    /// The command, or `InvalidArgumentValue` for a value out of range.
    pub fn to_bytes(&self) -> (r: Result<Vec<u8>, RigError>)
        ensures
            self.spec_in_range() ==> (r matches Ok(b) && b@ == frame(set_tr_delay_id(), self.spec_args())),
            !self.spec_in_range() ==> (r matches Err(e) && e.fails_with(
                Failure::ArgumentValue("ms"@, "u8"@, decimal_string(self.ms as int)),
            )),
    {
        encode_uint_in_range(set_tr_delay_id_bytes(), "ms", "u8", self.ms as u32, 0, 50, 2)
    }
}

/// `SetTrDelay` accepts `ms` when `s.ms <= 50` and sends it as decimal digits, zero-padded to 2.
pub proof fn lemma_set_tr_delay_argument(s: SetTrDelay)
    ensures
        s.spec_in_range() == (s.ms <= 50),
        all_digits(s.spec_args()),
        digits_value(s.spec_args()) == s.ms,
        (s.ms as nat) < pow10(2) ==> s.spec_args().len() == 2,
{
    lemma_padded_decimal_value(s.ms as nat, 2);
    if (s.ms as nat) < pow10(2) {
        lemma_num_digits_le(s.ms as nat, 2);
    }
}

/// `^TV`
pub open spec fn get_transceiver_voltage_id() -> Seq<u8> {
    seq![0x5E, 0x54, 0x56]
}

fn get_transceiver_voltage_id_bytes() -> (r: &'static [u8])
    ensures
        r@ == get_transceiver_voltage_id(),
{
    &[0x5E, 0x54, 0x56]
}

/// Get the transceiver supply voltage.
#[derive(Clone, Copy, Debug, PartialEq, Eq)]
pub struct GetTransceiverVoltage;

impl GetTransceiverVoltage {
    pub fn to_bytes(&self) -> (r: Vec<u8>)
        ensures
            r@ == frame(get_transceiver_voltage_id(), seq![]),
    {
        let none: [u8; 0] = [];
        frame_command(get_transceiver_voltage_id_bytes(), &none)
    }

    pub open spec fn spec_parse_response(bytes: Seq<u8>) -> Result<u16, Failure> {
        match spec_validate_response(bytes, get_transceiver_voltage_id(), 3) {
            Ok(v) => spec_u16_field(v),
            Err(f) => Err(f),
        }
    }

    pub fn parse(&self, bytes: &[u8]) -> (r: Result<u16, RigError>)
        ensures
            agrees(r, Self::spec_parse_response(bytes@)),
    {
        match validate_response(bytes, get_transceiver_voltage_id_bytes(), 3) {
            Ok(d) => {
                proof {
                    lemma_leading_value_bound(d@);
                    lemma_pow10_values();
                }
                u16_from_ascii(d)
            },
            Err(e) => Err(e),
        }
    }
}

/// A `GetTransceiverVoltage` reply of 3 value bytes reads as the decimal number they spell; a value with a
/// byte that is not a digit is an `InvalidResponseData` error holding the value.
pub proof fn lemma_get_transceiver_voltage_reply(v: Seq<u8>)
    requires
        v.len() == 3,
    ensures
        all_digits(v) && digits_value(v) <= u16::MAX ==> GetTransceiverVoltage::spec_parse_response(frame(get_transceiver_voltage_id(), v)) == Ok::<u16, Failure>(digits_value(v) as u16),
        !all_digits(v) ==> GetTransceiverVoltage::spec_parse_response(frame(get_transceiver_voltage_id(), v)) == Err::<u16, Failure>(Failure::ResponseData(v)),
{
    lemma_framed_value_reads_back(get_transceiver_voltage_id(), v);
}

/// `^AD`
pub open spec fn get_adc_readings_id() -> Seq<u8> {
    seq![0x5E, 0x41, 0x44]
}

fn get_adc_readings_id_bytes() -> (r: &'static [u8])
    ensures
        r@ == get_adc_readings_id(),
{
    &[0x5E, 0x41, 0x44]
}

/// The drain voltage and current and the supply voltage, in tenths.
#[derive(Clone, Copy, Debug, PartialEq, Eq)]
pub struct AdcReadings {
    pub drain_voltage_dv: u16,
    pub drain_current_da: u16,
    pub supply_voltage_dv: u16,
}

/// What a `^AD` reply value gives, its fields read in order.
pub open spec fn spec_adc_readings(v: Seq<u8>) -> Result<AdcReadings, Failure> {
    match spec_u16_field(v.subrange(0, 3)) {
        Err(f) => Err(f),
        Ok(drain_voltage_dv) => {
            match spec_u16_field(v.subrange(4, 7)) {
                Err(f) => Err(f),
                Ok(drain_current_da) => {
                    match spec_u16_field(v.subrange(8, 11)) {
                        Err(f) => Err(f),
                        Ok(supply_voltage_dv) => {
                            Ok(AdcReadings { drain_voltage_dv, drain_current_da, supply_voltage_dv })
                        },
                    }
                },
            }
        },
    }
}

/// Each field of the reply value comes from its fixed position, read as a decimal number or a
/// `1`/`0` flag: `drain_voltage_dv` from bytes 0 to 2, `drain_current_da` from bytes 4 to 6, `supply_voltage_dv` from bytes 8 to 10; when every number field is digits that fit, the value reads.
pub proof fn lemma_adc_readings_positions(v: Seq<u8>)
    requires
        v.len() >= 11,
    ensures
        spec_adc_readings(v) matches Ok(r) ==> (r.drain_voltage_dv == digits_value(v.subrange(0, 3)) && r.drain_current_da == digits_value(v.subrange(4, 7)) && r.supply_voltage_dv == digits_value(v.subrange(8, 11))),
        (all_digits(v.subrange(0, 3)) && digits_value(v.subrange(0, 3)) <= u16::MAX && all_digits(v.subrange(4, 7)) && digits_value(v.subrange(4, 7)) <= u16::MAX && all_digits(v.subrange(8, 11)) && digits_value(v.subrange(8, 11)) <= u16::MAX) ==> spec_adc_readings(v) is Ok,
{
}

/// Get the ADC readings: `^AD;`, answered by `^AD{vvv} {iii} {sss};`.
#[derive(Clone, Copy, Debug, PartialEq, Eq)]
pub struct GetAdcReadings;

impl GetAdcReadings {
    pub fn to_bytes(&self) -> (r: Vec<u8>)
        ensures
            r@ == frame(get_adc_readings_id(), seq![]),
    {
        let none: [u8; 0] = [];
        frame_command(get_adc_readings_id_bytes(), &none)
    }

    pub open spec fn spec_parse_response(bytes: Seq<u8>) -> Result<AdcReadings, Failure> {
        match spec_validate_response(bytes, get_adc_readings_id(), 11) {
            Ok(v) => spec_adc_readings(v),
            Err(f) => Err(f),
        }
    }

    pub fn parse(&self, bytes: &[u8]) -> (r: Result<AdcReadings, RigError>)
        ensures
            agrees(r, Self::spec_parse_response(bytes@)),
    {
        let d = match validate_response(bytes, get_adc_readings_id_bytes(), 11) {
            Ok(d) => d,
            Err(e) => return Err(e),
        };
        let drain_voltage_dv_digits = &d[0..3];
        proof {
            lemma_leading_value_bound(drain_voltage_dv_digits@);
            lemma_pow10_values();
        }
        let drain_voltage_dv = match u16_from_ascii(drain_voltage_dv_digits) {
            Ok(x) => x,
            Err(e) => return Err(e),
        };
        let drain_current_da_digits = &d[4..7];
        proof {
            lemma_leading_value_bound(drain_current_da_digits@);
            lemma_pow10_values();
        }
        let drain_current_da = match u16_from_ascii(drain_current_da_digits) {
            Ok(x) => x,
            Err(e) => return Err(e),
        };
        let supply_voltage_dv_digits = &d[8..11];
        proof {
            lemma_leading_value_bound(supply_voltage_dv_digits@);
            lemma_pow10_values();
        }
        let supply_voltage_dv = match u16_from_ascii(supply_voltage_dv_digits) {
            Ok(x) => x,
            Err(e) => return Err(e),
        };
        Ok(AdcReadings { drain_voltage_dv, drain_current_da, supply_voltage_dv })
    }
}

/// `^AS`
pub open spec fn get_atu_status_id() -> Seq<u8> {
    seq![0x5E, 0x41, 0x53]
}

fn get_atu_status_id_bytes() -> (r: &'static [u8])
    ensures
        r@ == get_atu_status_id(),
{
    &[0x5E, 0x41, 0x53]
}

/// The ATU flags: tuning, in line, and preset loaded.
#[derive(Clone, Copy, Debug, PartialEq, Eq)]
pub struct AtuStatus {
    pub tuning: bool,
    pub in_line: bool,
    pub preset_loaded: bool,
}

/// What a `^AS` reply value gives, its fields read in order.
pub open spec fn spec_atu_status(v: Seq<u8>) -> Result<AtuStatus, Failure> {
    Ok(AtuStatus { tuning: v[0] == ASCII_DIGIT_ONE, in_line: v[1] == ASCII_DIGIT_ONE, preset_loaded: v[2] == ASCII_DIGIT_ONE })
}

/// Each field of the reply value comes from its fixed position, read as a decimal number or a
/// `1`/`0` flag: `tuning` from byte 0, `in_line` from byte 1, `preset_loaded` from byte 2; when every number field is digits that fit, the value reads.
pub proof fn lemma_atu_status_positions(v: Seq<u8>)
    requires
        v.len() >= 3,
    ensures
        spec_atu_status(v) matches Ok(r) ==> (r.tuning == (v[0] == 0x31) && r.in_line == (v[1] == 0x31) && r.preset_loaded == (v[2] == 0x31)),
        (true) ==> spec_atu_status(v) is Ok,
{
}

/// Get the ATU status: `^AS;`, answered by three flag digits.
#[derive(Clone, Copy, Debug, PartialEq, Eq)]
pub struct GetAtuStatus;

impl GetAtuStatus {
    pub fn to_bytes(&self) -> (r: Vec<u8>)
        ensures
            r@ == frame(get_atu_status_id(), seq![]),
    {
        let none: [u8; 0] = [];
        frame_command(get_atu_status_id_bytes(), &none)
    }

    pub open spec fn spec_parse_response(bytes: Seq<u8>) -> Result<AtuStatus, Failure> {
        match spec_validate_response(bytes, get_atu_status_id(), 3) {
            Ok(v) => spec_atu_status(v),
            Err(f) => Err(f),
        }
    }

    pub fn parse(&self, bytes: &[u8]) -> (r: Result<AtuStatus, RigError>)
        ensures
            agrees(r, Self::spec_parse_response(bytes@)),
    {
        let d = match validate_response(bytes, get_atu_status_id_bytes(), 3) {
            Ok(d) => d,
            Err(e) => return Err(e),
        };
        let tuning = d[0] == ASCII_DIGIT_ONE;
        let in_line = d[1] == ASCII_DIGIT_ONE;
        let preset_loaded = d[2] == ASCII_DIGIT_ONE;
        Ok(AtuStatus { tuning, in_line, preset_loaded })
    }
}

/// `^PWR`
pub open spec fn get_power_status_summary_id() -> Seq<u8> {
    seq![0x5E, 0x50, 0x57, 0x52]
}

fn get_power_status_summary_id_bytes() -> (r: &'static [u8])
    ensures
        r@ == get_power_status_summary_id(),
{
    &[0x5E, 0x50, 0x57, 0x52]
}

/// The output power, SWR times ten, reflected power and input power.
#[derive(Clone, Copy, Debug, PartialEq, Eq)]
pub struct PowerStatusSummary {
    pub power_w: u16,
    pub swr_d: u16,
    pub reflected_w: u16,
    pub input_w: u16,
}

/// What a `^PWR` reply value gives, its fields read in order.
pub open spec fn spec_power_status_summary(v: Seq<u8>) -> Result<PowerStatusSummary, Failure> {
    match spec_u16_field(v.subrange(0, 4)) {
        Err(f) => Err(f),
        Ok(power_w) => {
            match spec_u16_field(v.subrange(5, 9)) {
                Err(f) => Err(f),
                Ok(swr_d) => {
                    match spec_u16_field(v.subrange(10, 14)) {
                        Err(f) => Err(f),
                        Ok(reflected_w) => {
                            match spec_u16_field(v.subrange(15, 19)) {
                                Err(f) => Err(f),
                                Ok(input_w) => {
                                    Ok(PowerStatusSummary { power_w, swr_d, reflected_w, input_w })
                                },
                            }
                        },
                    }
                },
            }
        },
    }
}

/// Each field of the reply value comes from its fixed position, read as a decimal number or a
/// `1`/`0` flag: `power_w` from bytes 0 to 3, `swr_d` from bytes 5 to 8, `reflected_w` from bytes 10 to 13, `input_w` from bytes 15 to 18; when every number field is digits that fit, the value reads.
pub proof fn lemma_power_status_summary_positions(v: Seq<u8>)
    requires
        v.len() >= 19,
    ensures
        spec_power_status_summary(v) matches Ok(r) ==> (r.power_w == digits_value(v.subrange(0, 4)) && r.swr_d == digits_value(v.subrange(5, 9)) && r.reflected_w == digits_value(v.subrange(10, 14)) && r.input_w == digits_value(v.subrange(15, 19))),
        (all_digits(v.subrange(0, 4)) && digits_value(v.subrange(0, 4)) <= u16::MAX && all_digits(v.subrange(5, 9)) && digits_value(v.subrange(5, 9)) <= u16::MAX && all_digits(v.subrange(10, 14)) && digits_value(v.subrange(10, 14)) <= u16::MAX && all_digits(v.subrange(15, 19)) && digits_value(v.subrange(15, 19)) <= u16::MAX) ==> spec_power_status_summary(v) is Ok,
{
}

/// Get the power summary: `^PWR;`, answered by four 4-digit fields separated by spaces.
#[derive(Clone, Copy, Debug, PartialEq, Eq)]
pub struct GetPowerStatusSummary;

impl GetPowerStatusSummary {
    pub fn to_bytes(&self) -> (r: Vec<u8>)
        ensures
            r@ == frame(get_power_status_summary_id(), seq![]),
    {
        let none: [u8; 0] = [];
        frame_command(get_power_status_summary_id_bytes(), &none)
    }

    pub open spec fn spec_parse_response(bytes: Seq<u8>) -> Result<PowerStatusSummary, Failure> {
        match spec_validate_response(bytes, get_power_status_summary_id(), 19) {
            Ok(v) => spec_power_status_summary(v),
            Err(f) => Err(f),
        }
    }

    pub fn parse(&self, bytes: &[u8]) -> (r: Result<PowerStatusSummary, RigError>)
        ensures
            agrees(r, Self::spec_parse_response(bytes@)),
    {
        let d = match validate_response(bytes, get_power_status_summary_id_bytes(), 19) {
            Ok(d) => d,
            Err(e) => return Err(e),
        };
        let power_w_digits = &d[0..4];
        proof {
            lemma_leading_value_bound(power_w_digits@);
            lemma_pow10_values();
        }
        let power_w = match u16_from_ascii(power_w_digits) {
            Ok(x) => x,
            Err(e) => return Err(e),
        };
        let swr_d_digits = &d[5..9];
        proof {
            lemma_leading_value_bound(swr_d_digits@);
            lemma_pow10_values();
        }
        let swr_d = match u16_from_ascii(swr_d_digits) {
            Ok(x) => x,
            Err(e) => return Err(e),
        };
        let reflected_w_digits = &d[10..14];
        proof {
            lemma_leading_value_bound(reflected_w_digits@);
            lemma_pow10_values();
        }
        let reflected_w = match u16_from_ascii(reflected_w_digits) {
            Ok(x) => x,
            Err(e) => return Err(e),
        };
        let input_w_digits = &d[15..19];
        proof {
            lemma_leading_value_bound(input_w_digits@);
            lemma_pow10_values();
        }
        let input_w = match u16_from_ascii(input_w_digits) {
            Ok(x) => x,
            Err(e) => return Err(e),
        };
        Ok(PowerStatusSummary { power_w, swr_d, reflected_w, input_w })
    }
}

/// `^VI`
pub open spec fn get_pa_voltage_current_id() -> Seq<u8> {
    seq![0x5E, 0x56, 0x49]
}

fn get_pa_voltage_current_id_bytes() -> (r: &'static [u8])
    ensures
        r@ == get_pa_voltage_current_id(),
{
    &[0x5E, 0x56, 0x49]
}

/// The PA voltage in tenths of a volt and current in tenths of an ampere.
#[derive(Clone, Copy, Debug, PartialEq, Eq)]
pub struct PaVoltageCurrent {
    pub voltage_dv: u16,
    pub current_da: u16,
}

/// What a `^VI` reply value gives, its fields read in order.
pub open spec fn spec_pa_voltage_current(v: Seq<u8>) -> Result<PaVoltageCurrent, Failure> {
    match spec_u16_field(v.subrange(0, 4)) {
        Err(f) => Err(f),
        Ok(voltage_dv) => {
            match spec_u16_field(v.subrange(5, 9)) {
                Err(f) => Err(f),
                Ok(current_da) => {
                    Ok(PaVoltageCurrent { voltage_dv, current_da })
                },
            }
        },
    }
}

/// Each field of the reply value comes from its fixed position, read as a decimal number or a
/// `1`/`0` flag: `voltage_dv` from bytes 0 to 3, `current_da` from bytes 5 to 8; when every number field is digits that fit, the value reads.
pub proof fn lemma_pa_voltage_current_positions(v: Seq<u8>)
    requires
        v.len() >= 9,
    ensures
        spec_pa_voltage_current(v) matches Ok(r) ==> (r.voltage_dv == digits_value(v.subrange(0, 4)) && r.current_da == digits_value(v.subrange(5, 9))),
        (all_digits(v.subrange(0, 4)) && digits_value(v.subrange(0, 4)) <= u16::MAX && all_digits(v.subrange(5, 9)) && digits_value(v.subrange(5, 9)) <= u16::MAX) ==> spec_pa_voltage_current(v) is Ok,
{
}

/// Get the PA voltage and current: `^VI;`, answered by `^VI{vvvv} {iiii};`.
#[derive(Clone, Copy, Debug, PartialEq, Eq)]
pub struct GetPaVoltageCurrent;

impl GetPaVoltageCurrent {
    pub fn to_bytes(&self) -> (r: Vec<u8>)
        ensures
            r@ == frame(get_pa_voltage_current_id(), seq![]),
    {
        let none: [u8; 0] = [];
        frame_command(get_pa_voltage_current_id_bytes(), &none)
    }

    pub open spec fn spec_parse_response(bytes: Seq<u8>) -> Result<PaVoltageCurrent, Failure> {
        match spec_validate_response(bytes, get_pa_voltage_current_id(), 9) {
            Ok(v) => spec_pa_voltage_current(v),
            Err(f) => Err(f),
        }
    }

    pub fn parse(&self, bytes: &[u8]) -> (r: Result<PaVoltageCurrent, RigError>)
        ensures
            agrees(r, Self::spec_parse_response(bytes@)),
    {
        let d = match validate_response(bytes, get_pa_voltage_current_id_bytes(), 9) {
            Ok(d) => d,
            Err(e) => return Err(e),
        };
        let voltage_dv_digits = &d[0..4];
        proof {
            lemma_leading_value_bound(voltage_dv_digits@);
            lemma_pow10_values();
        }
        let voltage_dv = match u16_from_ascii(voltage_dv_digits) {
            Ok(x) => x,
            Err(e) => return Err(e),
        };
        let current_da_digits = &d[5..9];
        proof {
            lemma_leading_value_bound(current_da_digits@);
            lemma_pow10_values();
        }
        let current_da = match u16_from_ascii(current_da_digits) {
            Ok(x) => x,
            Err(e) => return Err(e),
        };
        Ok(PaVoltageCurrent { voltage_dv, current_da })
    }
}

/// `^WS`
pub open spec fn get_power_and_swr_id() -> Seq<u8> {
    seq![0x5E, 0x57, 0x53]
}

fn get_power_and_swr_id_bytes() -> (r: &'static [u8])
    ensures
        r@ == get_power_and_swr_id(),
{
    &[0x5E, 0x57, 0x53]
}

/// The output power in watts and the SWR times ten.
#[derive(Clone, Copy, Debug, PartialEq, Eq)]
pub struct PowerAndSwr {
    pub power_w: u16,
    pub swr_d: u16,
}

/// What a `^WS` reply value gives, its fields read in order.
pub open spec fn spec_power_and_swr(v: Seq<u8>) -> Result<PowerAndSwr, Failure> {
    match spec_u16_field(v.subrange(0, 5)) {
        Err(f) => Err(f),
        Ok(power_w) => {
            match spec_u16_field(v.subrange(6, 11)) {
                Err(f) => Err(f),
                Ok(swr_d) => {
                    Ok(PowerAndSwr { power_w, swr_d })
                },
            }
        },
    }
}

/// Each field of the reply value comes from its fixed position, read as a decimal number or a
/// `1`/`0` flag: `power_w` from bytes 0 to 4, `swr_d` from bytes 6 to 10; when every number field is digits that fit, the value reads.
pub proof fn lemma_power_and_swr_positions(v: Seq<u8>)
    requires
        v.len() >= 11,
    ensures
        spec_power_and_swr(v) matches Ok(r) ==> (r.power_w == digits_value(v.subrange(0, 5)) && r.swr_d == digits_value(v.subrange(6, 11))),
        (all_digits(v.subrange(0, 5)) && digits_value(v.subrange(0, 5)) <= u16::MAX && all_digits(v.subrange(6, 11)) && digits_value(v.subrange(6, 11)) <= u16::MAX) ==> spec_power_and_swr(v) is Ok,
{
}

/// Get the output power and SWR: `^WS;`, answered by `^WS{ppppp} {sssss};`.
#[derive(Clone, Copy, Debug, PartialEq, Eq)]
pub struct GetPowerAndSwr;

impl GetPowerAndSwr {
    pub fn to_bytes(&self) -> (r: Vec<u8>)
        ensures
            r@ == frame(get_power_and_swr_id(), seq![]),
    {
        let none: [u8; 0] = [];
        frame_command(get_power_and_swr_id_bytes(), &none)
    }

    pub open spec fn spec_parse_response(bytes: Seq<u8>) -> Result<PowerAndSwr, Failure> {
        match spec_validate_response(bytes, get_power_and_swr_id(), 11) {
            Ok(v) => spec_power_and_swr(v),
            Err(f) => Err(f),
        }
    }

    pub fn parse(&self, bytes: &[u8]) -> (r: Result<PowerAndSwr, RigError>)
        ensures
            agrees(r, Self::spec_parse_response(bytes@)),
    {
        let d = match validate_response(bytes, get_power_and_swr_id_bytes(), 11) {
            Ok(d) => d,
            Err(e) => return Err(e),
        };
        let power_w_digits = &d[0..5];
        proof {
            lemma_leading_value_bound(power_w_digits@);
            lemma_pow10_values();
        }
        let power_w = match u16_from_ascii(power_w_digits) {
            Ok(x) => x,
            Err(e) => return Err(e),
        };
        let swr_d_digits = &d[6..11];
        proof {
            lemma_leading_value_bound(swr_d_digits@);
            lemma_pow10_values();
        }
        let swr_d = match u16_from_ascii(swr_d_digits) {
            Ok(x) => x,
            Err(e) => return Err(e),
        };
        Ok(PowerAndSwr { power_w, swr_d })
    }
}

/// `^XI`
pub open spec fn get_radio_interface_id() -> Seq<u8> {
    seq![0x5E, 0x58, 0x49]
}

fn get_radio_interface_id_bytes() -> (r: &'static [u8])
    ensures
        r@ == get_radio_interface_id(),
{
    &[0x5E, 0x58, 0x49]
}

/// The radio interface type and option bit.
#[derive(Clone, Copy, Debug, PartialEq, Eq)]
pub struct RadioInterface {
    /// `0` K3, `1` BCD, `2` analog, `3` Elecraft/Kenwood serial.
    pub interface_type: u8,
    pub option: u8,
}

/// What a `^XI` reply value gives: the two-digit type, then the option digit.
pub open spec fn spec_radio_interface(v: Seq<u8>) -> Result<RadioInterface, Failure> {
    match spec_u8_field(v.subrange(0, 2)) {
        Err(f) => Err(f),
        Ok(interface_type) => {
            Ok(RadioInterface { interface_type, option: (v[2] - ASCII_DIGIT_ZERO) as u8 })
        },
    }
}

/// Each field of the reply value comes from its fixed position, read as a decimal number or a
/// `1`/`0` flag: `interface_type` from bytes 0 to 1, `option` from byte 2; when every number field is digits that fit, the value reads.
pub proof fn lemma_radio_interface_positions(v: Seq<u8>)
    requires
        v.len() >= 3,
    ensures
        spec_radio_interface(v) matches Ok(r) ==> ((digits_value(v.subrange(0, 2)) <= 255 ==> r.interface_type == digits_value(v.subrange(0, 2))) && (0x30 <= v[2] ==> r.option == v[2] - 0x30)),
        (all_digits(v.subrange(0, 2)) && digits_value(v.subrange(0, 2)) <= 255) ==> spec_radio_interface(v) is Ok,
{
}

/// Get the radio interface: `^XI;`, answered by `^XI{tt}{o};`.
#[derive(Clone, Copy, Debug, PartialEq, Eq)]
pub struct GetRadioInterface;

impl GetRadioInterface {
    pub fn to_bytes(&self) -> (r: Vec<u8>)
        ensures
            r@ == frame(get_radio_interface_id(), seq![]),
    {
        let none: [u8; 0] = [];
        frame_command(get_radio_interface_id_bytes(), &none)
    }

    pub open spec fn spec_parse_response(bytes: Seq<u8>) -> Result<RadioInterface, Failure> {
        match spec_validate_response(bytes, get_radio_interface_id(), 3) {
            Ok(v) => spec_radio_interface(v),
            Err(f) => Err(f),
        }
    }

    /// Reads a framed reply; an option byte below `0` is outside the domain.
    pub fn parse(&self, bytes: &[u8]) -> (r: Result<RadioInterface, RigError>)
        requires
            spec_validate_response(bytes@, get_radio_interface_id(), 3) matches Ok(v) ==> v[2] >= ASCII_DIGIT_ZERO,
        ensures
            agrees(r, Self::spec_parse_response(bytes@)),
    {
        let d = match validate_response(bytes, get_radio_interface_id_bytes(), 3) {
            Ok(d) => d,
            Err(e) => return Err(e),
        };
        let digits = &d[0..2];
        proof {
            lemma_leading_value_bound(digits@);
            lemma_pow10_values();
        }
        let interface_type = match u8_from_ascii(digits) {
            Ok(x) => x,
            Err(e) => return Err(e),
        };
        Ok(RadioInterface { interface_type, option: d[2] - ASCII_DIGIT_ZERO })
    }
}

/// `^XI`
pub open spec fn set_radio_interface_id() -> Seq<u8> {
    seq![0x5E, 0x58, 0x49]
}

fn set_radio_interface_id_bytes() -> (r: &'static [u8])
    ensures
        r@ == set_radio_interface_id(),
{
    &[0x5E, 0x58, 0x49]
}

/// Set the radio interface: `^XI{tt}{o};`, with the type at most 3 and the option 0 or 1.
#[derive(Clone, Copy, Debug, PartialEq, Eq)]
pub struct SetRadioInterface {
    pub interface_type: u8,
    pub option: u8,
}

impl SetRadioInterface {
    /// The argument: the type in two digits, then the option digit.
    pub open spec fn spec_args(self) -> Seq<u8> {
        padded_decimal(self.interface_type as nat, 2).push((ASCII_DIGIT_ZERO + self.option) as u8)
    }

    /// The command; a type above 3, then an option above 1, is `InvalidArgumentValue`.
    pub fn to_bytes(&self) -> (r: Result<Vec<u8>, RigError>)
        ensures
            self.interface_type > 3 ==> (r matches Err(e) && e.fails_with(
                Failure::ArgumentValue("interface_type"@, "u8"@, decimal_string(self.interface_type as int)),
            )),
            self.interface_type <= 3 && self.option > 1 ==> (r matches Err(e) && e.fails_with(
                Failure::ArgumentValue("option"@, "u8"@, decimal_string(self.option as int)),
            )),
            self.interface_type <= 3 && self.option <= 1 ==> (r matches Ok(b) && b@ == frame(set_radio_interface_id(), self.spec_args())),
    {
        match validate_integer_in_range("interface_type", "u8", self.interface_type as i64, 0, 3) {
            Ok(()) => {},
            Err(e) => return Err(e),
        }
        match validate_integer_in_range("option", "u8", self.option as i64, 0, 1) {
            Ok(()) => {},
            Err(e) => return Err(e),
        }
        let mut v = format_uint_ascii(self.interface_type as u64, 2);
        v.push(ASCII_DIGIT_ZERO + self.option);
        Ok(frame_command(set_radio_interface_id_bytes(), v.as_slice()))
    }
}

// ------------------------------------------------------------------------------------------------
// Reading back what was set
// ------------------------------------------------------------------------------------------------

/// The reply that echoes a `SetAutoAntennaSelection` command reads as the state that was set.
pub proof fn lemma_auto_antenna_selection_round_trip(state: bool)
    ensures
        GetAutoAntennaSelection::spec_parse_response(frame(set_auto_antenna_selection_id(), (SetAutoAntennaSelection { enabled: state }).spec_args()))
            == Ok::<bool, Failure>(state),
{
    let args = (SetAutoAntennaSelection { enabled: state }).spec_args();
    let bytes = frame(set_auto_antenna_selection_id(), args);
    assert(bytes.take(3) =~= get_auto_antenna_selection_id());
    assert(response_value(bytes, get_auto_antenna_selection_id()) =~= args);
}

/// A value set with `SetAntennaBandMap` reads back unchanged from the echoed reply.
pub proof fn lemma_antenna_band_map_round_trip(value: u8)
    requires
        value < 10,
        1 <= value,
        value <= 2,
    ensures
        GetAntennaBandMap::spec_parse_response(frame(set_antenna_band_map_id(), uint_args(value as u32, 1))) == Ok::<u8, Failure>(value),
{
    let args = uint_args(value as u32, 1);
    lemma_padded_decimal_value(value as nat, 1);
    lemma_pow10_values();
    lemma_num_digits_le(value as nat, 1);
    let bytes = frame(set_antenna_band_map_id(), args);
    assert(bytes.take(3) =~= get_antenna_band_map_id());
    assert(response_value(bytes, get_antenna_band_map_id()) =~= args);
}

/// The reply that echoes a `SetAlcEnable` command reads as the state that was set.
pub proof fn lemma_alc_enable_round_trip(state: bool)
    ensures
        GetAlcEnable::spec_parse_response(frame(set_alc_enable_id(), (SetAlcEnable { enabled: state }).spec_args()))
            == Ok::<bool, Failure>(state),
{
    let args = (SetAlcEnable { enabled: state }).spec_args();
    let bytes = frame(set_alc_enable_id(), args);
    assert(bytes.take(3) =~= get_alc_enable_id());
    assert(response_value(bytes, get_alc_enable_id()) =~= args);
}

/// The reply that echoes a `SetAutoInfoMode` command reads as the state that was set.
pub proof fn lemma_auto_info_mode_round_trip(state: bool)
    ensures
        GetAutoInfoMode::spec_parse_response(frame(set_auto_info_mode_id(), (SetAutoInfoMode { enabled: state }).spec_args()))
            == Ok::<bool, Failure>(state),
{
    let args = (SetAutoInfoMode { enabled: state }).spec_args();
    let bytes = frame(set_auto_info_mode_id(), args);
    assert(bytes.take(3) =~= get_auto_info_mode_id());
    assert(response_value(bytes, get_auto_info_mode_id()) =~= args);
}

/// A value set with `SetAlcThreshold` reads back unchanged from the echoed reply.
pub proof fn lemma_alc_threshold_round_trip(value: u16)
    requires
        value < 1000,
        value <= 210,
    ensures
        GetAlcThreshold::spec_parse_response(frame(set_alc_threshold_id(), uint_args(value as u32, 3))) == Ok::<u16, Failure>(value),
{
    let args = uint_args(value as u32, 3);
    lemma_padded_decimal_value(value as nat, 3);
    lemma_pow10_values();
    lemma_num_digits_le(value as nat, 3);
    let bytes = frame(set_alc_threshold_id(), args);
    assert(bytes.take(3) =~= get_alc_threshold_id());
    assert(response_value(bytes, get_alc_threshold_id()) =~= args);
}

/// The reply that echoes a `SetAmModeEnable` command reads as the state that was set.
pub proof fn lemma_am_mode_enable_round_trip(state: bool)
    ensures
        GetAmModeEnable::spec_parse_response(frame(set_am_mode_enable_id(), (SetAmModeEnable { enabled: state }).spec_args()))
            == Ok::<bool, Failure>(state),
{
    let args = (SetAmModeEnable { enabled: state }).spec_args();
    let bytes = frame(set_am_mode_enable_id(), args);
    assert(bytes.take(3) =~= get_am_mode_enable_id());
    assert(response_value(bytes, get_am_mode_enable_id()) =~= args);
}

/// A value set with `SetAntennaSelection` reads back unchanged from the echoed reply.
pub proof fn lemma_antenna_selection_round_trip(value: u8)
    requires
        value < 10,
        1 <= value,
        value <= 2,
    ensures
        GetAntennaSelection::spec_parse_response(frame(set_antenna_selection_id(), uint_args(value as u32, 1))) == Ok::<u8, Failure>(value),
{
    let args = uint_args(value as u32, 1);
    lemma_padded_decimal_value(value as nat, 1);
    lemma_pow10_values();
    lemma_num_digits_le(value as nat, 1);
    let bytes = frame(set_antenna_selection_id(), args);
    assert(bytes.take(3) =~= get_antenna_selection_id());
    assert(response_value(bytes, get_antenna_selection_id()) =~= args);
}

/// A value set with `SetAttenuatorReleaseTime` reads back unchanged from the echoed reply.
pub proof fn lemma_attenuator_release_time_round_trip(value: u16)
    requires
        value < 10000,
        1400 <= value,
        value <= 5000,
    ensures
        GetAttenuatorReleaseTime::spec_parse_response(frame(set_attenuator_release_time_id(), uint_args(value as u32, 4))) == Ok::<u16, Failure>(value),
{
    let args = uint_args(value as u32, 4);
    lemma_padded_decimal_value(value as nat, 4);
    lemma_pow10_values();
    lemma_num_digits_le(value as nat, 4);
    let bytes = frame(set_attenuator_release_time_id(), args);
    assert(bytes.take(3) =~= get_attenuator_release_time_id());
    assert(response_value(bytes, get_attenuator_release_time_id()) =~= args);
}

/// The reply that echoes a `SetStandbyOnBandChange` command reads as the state that was set.
pub proof fn lemma_standby_on_band_change_round_trip(state: bool)
    ensures
        GetStandbyOnBandChange::spec_parse_response(frame(set_standby_on_band_change_id(), (SetStandbyOnBandChange { enabled: state }).spec_args()))
            == Ok::<bool, Failure>(state),
{
    let args = (SetStandbyOnBandChange { enabled: state }).spec_args();
    let bytes = frame(set_standby_on_band_change_id(), args);
    assert(bytes.take(3) =~= get_standby_on_band_change_id());
    assert(response_value(bytes, get_standby_on_band_change_id()) =~= args);
}

/// A value set with `SetBandSelection` reads back unchanged from the echoed reply.
pub proof fn lemma_band_selection_round_trip(value: u8)
    requires
        value < 100,
        value <= 10,
    ensures
        GetBandSelection::spec_parse_response(frame(set_band_selection_id(), uint_args(value as u32, 2))) == Ok::<u8, Failure>(value),
{
    let args = uint_args(value as u32, 2);
    lemma_padded_decimal_value(value as nat, 2);
    lemma_pow10_values();
    lemma_num_digits_le(value as nat, 2);
    let bytes = frame(set_band_selection_id(), args);
    assert(bytes.take(3) =~= get_band_selection_id());
    assert(response_value(bytes, get_band_selection_id()) =~= args);
}

/// The reply that echoes a `SetBypassRelay` command reads as the state that was set.
pub proof fn lemma_bypass_relay_round_trip(state: bool)
    ensures
        GetBypassRelay::spec_parse_response(frame(set_bypass_relay_id(), (SetBypassRelay { bypassed: state }).spec_args()))
            == Ok::<bool, Failure>(state),
{
    let args = (SetBypassRelay { bypassed: state }).spec_args();
    let bytes = frame(set_bypass_relay_id(), args);
    assert(bytes.take(3) =~= get_bypass_relay_id());
    assert(response_value(bytes, get_bypass_relay_id()) =~= args);
}

/// A value set with `SetPcBaudRate` reads back unchanged from the echoed reply.
pub proof fn lemma_pc_baud_rate_round_trip(value: u8)
    requires
        value < 10,
        value <= 3,
    ensures
        GetPcBaudRate::spec_parse_response(frame(set_pc_baud_rate_id(), uint_args(value as u32, 1))) == Ok::<u8, Failure>(value),
{
    let args = uint_args(value as u32, 1);
    lemma_padded_decimal_value(value as nat, 1);
    lemma_pow10_values();
    lemma_num_digits_le(value as nat, 1);
    let bytes = frame(set_pc_baud_rate_id(), args);
    assert(bytes.take(4) =~= get_pc_baud_rate_id());
    assert(response_value(bytes, get_pc_baud_rate_id()) =~= args);
}

/// A value set with `SetXcvrBaudRate` reads back unchanged from the echoed reply.
pub proof fn lemma_xcvr_baud_rate_round_trip(value: u8)
    requires
        value < 10,
        value <= 3,
    ensures
        GetXcvrBaudRate::spec_parse_response(frame(set_xcvr_baud_rate_id(), uint_args(value as u32, 1))) == Ok::<u8, Failure>(value),
{
    let args = uint_args(value as u32, 1);
    lemma_padded_decimal_value(value as nat, 1);
    lemma_pow10_values();
    lemma_num_digits_le(value as nat, 1);
    let bytes = frame(set_xcvr_baud_rate_id(), args);
    assert(bytes.take(4) =~= get_xcvr_baud_rate_id());
    assert(response_value(bytes, get_xcvr_baud_rate_id()) =~= args);
}

/// The reply that echoes a `SetDemoMode` command reads as the state that was set.
pub proof fn lemma_demo_mode_round_trip(state: bool)
    ensures
        GetDemoMode::spec_parse_response(frame(set_demo_mode_id(), (SetDemoMode { enabled: state }).spec_args()))
            == Ok::<bool, Failure>(state),
{
    let args = (SetDemoMode { enabled: state }).spec_args();
    let bytes = frame(set_demo_mode_id(), args);
    assert(bytes.take(3) =~= get_demo_mode_id());
    assert(response_value(bytes, get_demo_mode_id()) =~= args);
}

/// A value set with `SetDisplaySelect` reads back unchanged from the echoed reply.
pub proof fn lemma_display_select_round_trip(value: u8)
    requires
        value < 10,
        value <= 3,
    ensures
        GetDisplaySelect::spec_parse_response(frame(set_display_select_id(), uint_args(value as u32, 1))) == Ok::<u8, Failure>(value),
{
    let args = uint_args(value as u32, 1);
    lemma_padded_decimal_value(value as nat, 1);
    lemma_pow10_values();
    lemma_num_digits_le(value as nat, 1);
    let bytes = frame(set_display_select_id(), args);
    assert(bytes.take(3) =~= get_display_select_id());
    assert(response_value(bytes, get_display_select_id()) =~= args);
}

/// A value set with `SetFanMinimumSpeed` reads back unchanged from the echoed reply.
pub proof fn lemma_fan_minimum_speed_round_trip(value: u8)
    requires
        value < 10,
        value <= 6,
    ensures
        GetFanMinimumSpeed::spec_parse_response(frame(set_fan_minimum_speed_id(), uint_args(value as u32, 1))) == Ok::<u8, Failure>(value),
{
    let args = uint_args(value as u32, 1);
    lemma_padded_decimal_value(value as nat, 1);
    lemma_pow10_values();
    lemma_num_digits_le(value as nat, 1);
    let bytes = frame(set_fan_minimum_speed_id(), args);
    assert(bytes.take(3) =~= get_fan_minimum_speed_id());
    assert(response_value(bytes, get_fan_minimum_speed_id()) =~= args);
}

/// A value set with `SetFrequency` reads back unchanged from the echoed reply.
pub proof fn lemma_frequency_round_trip(value: u32)
    requires
        value < 100000000,
    ensures
        GetFrequency::spec_parse_response(frame(set_frequency_id(), (SetFrequency { hz: value }).spec_args())) == Ok::<u32, Failure>(value),
{
    let args = (SetFrequency { hz: value }).spec_args();
    lemma_padded_decimal_value(value as nat, 8);
    lemma_pow10_values();
    lemma_num_digits_le(value as nat, 8);
    let bytes = frame(set_frequency_id(), args);
    assert(bytes.take(3) =~= get_frequency_id());
    assert(response_value(bytes, get_frequency_id()) =~= args);
}

/// The reply that echoes a `SetInhibitInput` command reads as the state that was set.
pub proof fn lemma_inhibit_input_round_trip(state: bool)
    ensures
        GetInhibitInput::spec_parse_response(frame(set_inhibit_input_id(), (SetInhibitInput { enabled: state }).spec_args()))
            == Ok::<bool, Failure>(state),
{
    let args = (SetInhibitInput { enabled: state }).spec_args();
    let bytes = frame(set_inhibit_input_id(), args);
    assert(bytes.take(3) =~= get_inhibit_input_id());
    assert(response_value(bytes, get_inhibit_input_id()) =~= args);
}

/// The reply that echoes a `SetOperateMode` command reads as the state that was set.
pub proof fn lemma_operate_mode_round_trip(state: bool)
    ensures
        GetOperateMode::spec_parse_response(frame(set_operate_mode_id(), (SetOperateMode { operate: state }).spec_args()))
            == Ok::<bool, Failure>(state),
{
    let args = (SetOperateMode { operate: state }).spec_args();
    let bytes = frame(set_operate_mode_id(), args);
    assert(bytes.take(3) =~= get_operate_mode_id());
    assert(response_value(bytes, get_operate_mode_id()) =~= args);
}

/// A value set with `SetPeakPowerControl` reads back unchanged from the echoed reply.
pub proof fn lemma_peak_power_control_round_trip(value: u16)
    requires
        value < 10000,
        value <= 1500,
    ensures
        GetPeakPowerControl::spec_parse_response(frame(set_peak_power_control_id(), uint_args(value as u32, 4))) == Ok::<u16, Failure>(value),
{
    let args = uint_args(value as u32, 4);
    lemma_padded_decimal_value(value as nat, 4);
    lemma_pow10_values();
    lemma_num_digits_le(value as nat, 4);
    let bytes = frame(set_peak_power_control_id(), args);
    assert(bytes.take(3) =~= get_peak_power_control_id());
    assert(response_value(bytes, get_peak_power_control_id()) =~= args);
}

/// A value set with `SetPttDelay` reads back unchanged from the echoed reply.
pub proof fn lemma_ptt_delay_round_trip(value: u16)
    requires
        value < 1000,
        value <= 500,
    ensures
        GetPttDelay::spec_parse_response(frame(set_ptt_delay_id(), uint_args(value as u32, 3))) == Ok::<u16, Failure>(value),
{
    let args = uint_args(value as u32, 3);
    lemma_padded_decimal_value(value as nat, 3);
    lemma_pow10_values();
    lemma_num_digits_le(value as nat, 3);
    let bytes = frame(set_ptt_delay_id(), args);
    assert(bytes.take(3) =~= get_ptt_delay_id());
    assert(response_value(bytes, get_ptt_delay_id()) =~= args);
}

/// The reply that echoes a `SetProtectionFaultEnable` command reads as the state that was set.
pub proof fn lemma_protection_fault_enable_round_trip(state: bool)
    ensures
        GetProtectionFaultEnable::spec_parse_response(frame(set_protection_fault_enable_id(), (SetProtectionFaultEnable { enabled: state }).spec_args()))
            == Ok::<bool, Failure>(state),
{
    let args = (SetProtectionFaultEnable { enabled: state }).spec_args();
    let bytes = frame(set_protection_fault_enable_id(), args);
    assert(bytes.take(3) =~= get_protection_fault_enable_id());
    assert(response_value(bytes, get_protection_fault_enable_id()) =~= args);
}

/// A value set with `SetPowerAdjustment` reads back unchanged from the echoed reply.
pub proof fn lemma_power_adjustment_round_trip(value: u8)
    requires
        value < 1000,
        80 <= value,
        value <= 120,
    ensures
        GetPowerAdjustment::spec_parse_response(frame(set_power_adjustment_id(), uint_args(value as u32, 3))) == Ok::<u8, Failure>(value),
{
    let args = uint_args(value as u32, 3);
    lemma_padded_decimal_value(value as nat, 3);
    lemma_pow10_values();
    lemma_num_digits_le(value as nat, 3);
    let bytes = frame(set_power_adjustment_id(), args);
    assert(bytes.take(3) =~= get_power_adjustment_id());
    assert(response_value(bytes, get_power_adjustment_id()) =~= args);
}

/// The reply that echoes a `SetFaultSpeaker` command reads as the state that was set.
pub proof fn lemma_fault_speaker_round_trip(state: bool)
    ensures
        GetFaultSpeaker::spec_parse_response(frame(set_fault_speaker_id(), (SetFaultSpeaker { state: state }).spec_args()))
            == Ok::<bool, Failure>(state),
{
    let args = (SetFaultSpeaker { state: state }).spec_args();
    let bytes = frame(set_fault_speaker_id(), args);
    assert(bytes.take(3) =~= get_fault_speaker_id());
    assert(response_value(bytes, get_fault_speaker_id()) =~= args);
}

/// A value set with `SetTunePower` reads back unchanged from the echoed reply.
pub proof fn lemma_tune_power_round_trip(value: u16)
    requires
        value < 10000,
    ensures
        GetTunePower::spec_parse_response(frame(set_tune_power_id(), (SetTunePower { watts: value }).spec_args())) == Ok::<u16, Failure>(value),
{
    let args = (SetTunePower { watts: value }).spec_args();
    lemma_padded_decimal_value(value as nat, 4);
    lemma_pow10_values();
    lemma_num_digits_le(value as nat, 4);
    let bytes = frame(set_tune_power_id(), args);
    assert(bytes.take(3) =~= get_tune_power_id());
    assert(response_value(bytes, get_tune_power_id()) =~= args);
}

/// A value set with `SetTrDelay` reads back unchanged from the echoed reply.
pub proof fn lemma_tr_delay_round_trip(value: u8)
    requires
        value < 100,
        value <= 50,
    ensures
        GetTrDelay::spec_parse_response(frame(set_tr_delay_id(), uint_args(value as u32, 2))) == Ok::<u8, Failure>(value),
{
    let args = uint_args(value as u32, 2);
    lemma_padded_decimal_value(value as nat, 2);
    lemma_pow10_values();
    lemma_num_digits_le(value as nat, 2);
    let bytes = frame(set_tr_delay_id(), args);
    assert(bytes.take(3) =~= get_tr_delay_id());
    assert(response_value(bytes, get_tr_delay_id()) =~= args);
}

} // verus!
