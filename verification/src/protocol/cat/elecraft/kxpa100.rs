//! CAT commands for the Elecraft KXPA100 100 W solid-state HF amplifier.
//!
//! Every KXPA100 command identifier starts with a caret (`^`), as in `^BN05;`; the GET form of a
//! command is its letters with no data, as in `^BN;`. Commands follow the KXPA100 Amplifier
//! Command Reference, Feb 2014.


use vstd::prelude::*;

use crate::protocol::cat::digits::pow10;

use crate::protocol::cat::lemma_framed_value_reads_back;

use crate::error::{Failure, RigError, agrees, enum_parse};
use crate::protocol::cat::{encode_uint_in_range, frame, frame_command, uint_args};
use crate::protocol::cat::common::{
    ASCII_DIGIT_ONE, ASCII_DIGIT_ZERO, bool_from_ascii_1_0, bytes_to_vec, decimal_string,
    format_uint_ascii, hex_debug, hex_debug_string, response_value, spec_bool_1_0, spec_u16_field,
    spec_u32_field, spec_u8_field, spec_validate_response, u16_from_ascii, u32_from_ascii,
    u8_from_ascii, validate_integer_in_range, validate_response,
};
use crate::protocol::cat::digits::{
    all_digits, digits_value,
    leading_value, lemma_leading_value_bound, lemma_num_digits_le, lemma_padded_decimal_value,
    lemma_pow10_values, padded_decimal,
};

verus! {

/// `^AE`
pub open spec fn get_auto_bias_enable_id() -> Seq<u8> {
    seq![0x5E, 0x41, 0x45]
}

fn get_auto_bias_enable_id_bytes() -> (r: &'static [u8])
    ensures
        r@ == get_auto_bias_enable_id(),
{
    &[0x5E, 0x41, 0x45]
}

/// Get whether auto-bias is enabled.
#[derive(Clone, Copy, Debug, PartialEq, Eq)]
pub struct GetAutoBiasEnable;

impl GetAutoBiasEnable {
    pub fn to_bytes(&self) -> (r: Vec<u8>)
        ensures
            r@ == frame(get_auto_bias_enable_id(), seq![]),
    {
        let none: [u8; 0] = [];
        frame_command(get_auto_bias_enable_id_bytes(), &none)
    }

    pub open spec fn spec_parse_response(bytes: Seq<u8>) -> Result<bool, Failure> {
        match spec_validate_response(bytes, get_auto_bias_enable_id(), 1) {
            Ok(v) => spec_bool_1_0(v[0]),
            Err(f) => Err(f),
        }
    }

    pub fn parse(&self, bytes: &[u8]) -> (r: Result<bool, RigError>)
        ensures
            agrees(r, Self::spec_parse_response(bytes@)),
    {
        match validate_response(bytes, get_auto_bias_enable_id_bytes(), 1) {
            Ok(d) => bool_from_ascii_1_0(d[0]),
            Err(e) => Err(e),
        }
    }
}

/// A `GetAutoBiasEnable` reply whose value byte is `1` reads as `true`, `0` as `false`; any other byte is a
/// `ParseBoolean` error.
pub proof fn lemma_get_auto_bias_enable_reply(v: Seq<u8>)
    requires
        v.len() == 1,
    ensures
        v[0] == 0x31 ==> GetAutoBiasEnable::spec_parse_response(frame(get_auto_bias_enable_id(), v)) == Ok::<bool, Failure>(true),
        v[0] == 0x30 ==> GetAutoBiasEnable::spec_parse_response(frame(get_auto_bias_enable_id(), v)) == Ok::<bool, Failure>(false),
        v[0] != 0x30 && v[0] != 0x31 ==> GetAutoBiasEnable::spec_parse_response(frame(get_auto_bias_enable_id(), v)) == Err::<bool, Failure>(Failure::Boolean(v[0])),
{
    lemma_framed_value_reads_back(get_auto_bias_enable_id(), v);
}

/// `^AE`
pub open spec fn set_auto_bias_enable_id() -> Seq<u8> {
    seq![0x5E, 0x41, 0x45]
}

fn set_auto_bias_enable_id_bytes() -> (r: &'static [u8])
    ensures
        r@ == set_auto_bias_enable_id(),
{
    &[0x5E, 0x41, 0x45]
}

/// Set whether auto-bias is enabled.
#[derive(Clone, Copy, Debug, PartialEq, Eq)]
pub struct SetAutoBiasEnable {
    pub enabled: bool,
}

impl SetAutoBiasEnable {
    pub open spec fn spec_args(self) -> Seq<u8> {
        seq![if self.enabled { ASCII_DIGIT_ONE } else { ASCII_DIGIT_ZERO }]
    }

    pub fn to_bytes(&self) -> (r: Vec<u8>)
        ensures
            r@ == frame(set_auto_bias_enable_id(), self.spec_args()),
    {
        let args: [u8; 1] = [if self.enabled { ASCII_DIGIT_ONE } else { ASCII_DIGIT_ZERO }];
        assert(args@ =~= self.spec_args());
        frame_command(set_auto_bias_enable_id_bytes(), &args)
    }
}

/// `SetAutoBiasEnable` sends `1` when `enabled` is set and `0` when it is clear.
pub proof fn lemma_set_auto_bias_enable_argument(s: SetAutoBiasEnable)
    ensures
        s.enabled ==> s.spec_args() == seq![0x31u8],
        !s.enabled ==> s.spec_args() == seq![0x30u8],
{
}

/// `^AN`
pub open spec fn get_antenna_selection_id() -> Seq<u8> {
    seq![0x5E, 0x41, 0x4E]
}

fn get_antenna_selection_id_bytes() -> (r: &'static [u8])
    ensures
        r@ == get_antenna_selection_id(),
{
    &[0x5E, 0x41, 0x4E]
}

/// Get the selected antenna port.
#[derive(Clone, Copy, Debug, PartialEq, Eq)]
pub struct GetAntennaSelection;

impl GetAntennaSelection {
    pub fn to_bytes(&self) -> (r: Vec<u8>)
        ensures
            r@ == frame(get_antenna_selection_id(), seq![]),
    {
        let none: [u8; 0] = [];
        frame_command(get_antenna_selection_id_bytes(), &none)
    }

    pub open spec fn spec_parse_response(bytes: Seq<u8>) -> Result<u8, Failure> {
        match spec_validate_response(bytes, get_antenna_selection_id(), 1) {
            Ok(v) => spec_u8_field(v),
            Err(f) => Err(f),
        }
    }

    pub fn parse(&self, bytes: &[u8]) -> (r: Result<u8, RigError>)
        ensures
            agrees(r, Self::spec_parse_response(bytes@)),
    {
        match validate_response(bytes, get_antenna_selection_id_bytes(), 1) {
            Ok(d) => {
                proof {
                    lemma_leading_value_bound(d@);
                    lemma_pow10_values();
                }
                u8_from_ascii(d)
            },
            Err(e) => Err(e),
        }
    }
}

/// A `GetAntennaSelection` reply of 1 value bytes reads as the decimal number they spell; a value with a
/// byte that is not a digit is an `InvalidResponseData` error holding the value.
pub proof fn lemma_get_antenna_selection_reply(v: Seq<u8>)
    requires
        v.len() == 1,
    ensures
        all_digits(v) && digits_value(v) <= 255 ==> GetAntennaSelection::spec_parse_response(frame(get_antenna_selection_id(), v)) == Ok::<u8, Failure>(digits_value(v) as u8),
        !all_digits(v) ==> GetAntennaSelection::spec_parse_response(frame(get_antenna_selection_id(), v)) == Err::<u8, Failure>(Failure::ResponseData(v)),
{
    lemma_framed_value_reads_back(get_antenna_selection_id(), v);
}

/// `^AN`
pub open spec fn set_antenna_selection_id() -> Seq<u8> {
    seq![0x5E, 0x41, 0x4E]
}

fn set_antenna_selection_id_bytes() -> (r: &'static [u8])
    ensures
        r@ == set_antenna_selection_id(),
{
    &[0x5E, 0x41, 0x4E]
}

/// Set the antenna port.
#[derive(Clone, Copy, Debug, PartialEq, Eq)]
pub struct SetAntennaSelection {
    pub antenna: u8,
}

impl SetAntennaSelection {
    /// The values the command accepts.
    pub open spec fn spec_in_range(self) -> bool {
        1 <= self.antenna <= 2
    }

    /// The argument bytes.
    pub open spec fn spec_args(self) -> Seq<u8> {
        uint_args(self.antenna as u32, 1)
    }

    /// The command, or `InvalidArgumentValue` for a value out of range.
    pub fn to_bytes(&self) -> (r: Result<Vec<u8>, RigError>)
        ensures
            self.spec_in_range() ==> (r matches Ok(b) && b@ == frame(set_antenna_selection_id(), self.spec_args())),
            !self.spec_in_range() ==> (r matches Err(e) && e.fails_with(
                Failure::ArgumentValue("antenna"@, "u8"@, decimal_string(self.antenna as int)),
            )),
    {
        encode_uint_in_range(set_antenna_selection_id_bytes(), "antenna", "u8", self.antenna as u32, 1, 2, 1)
    }
}

/// `SetAntennaSelection` accepts `antenna` when `1 <= s.antenna <= 2` and sends it as decimal digits, zero-padded to 1.
pub proof fn lemma_set_antenna_selection_argument(s: SetAntennaSelection)
    ensures
        s.spec_in_range() == (1 <= s.antenna <= 2),
        all_digits(s.spec_args()),
        digits_value(s.spec_args()) == s.antenna,
        (s.antenna as nat) < pow10(1) ==> s.spec_args().len() == 1,
{
    lemma_padded_decimal_value(s.antenna as nat, 1);
    if (s.antenna as nat) < pow10(1) {
        lemma_num_digits_le(s.antenna as nat, 1);
    }
}

/// `^AT`
pub open spec fn get_atu_enable_id() -> Seq<u8> {
    seq![0x5E, 0x41, 0x54]
}

fn get_atu_enable_id_bytes() -> (r: &'static [u8])
    ensures
        r@ == get_atu_enable_id(),
{
    &[0x5E, 0x41, 0x54]
}

/// Get whether the internal ATU is switched into circuit.
#[derive(Clone, Copy, Debug, PartialEq, Eq)]
pub struct GetAtuEnable;

impl GetAtuEnable {
    pub fn to_bytes(&self) -> (r: Vec<u8>)
        ensures
            r@ == frame(get_atu_enable_id(), seq![]),
    {
        let none: [u8; 0] = [];
        frame_command(get_atu_enable_id_bytes(), &none)
    }

    pub open spec fn spec_parse_response(bytes: Seq<u8>) -> Result<bool, Failure> {
        match spec_validate_response(bytes, get_atu_enable_id(), 1) {
            Ok(v) => spec_bool_1_0(v[0]),
            Err(f) => Err(f),
        }
    }

    pub fn parse(&self, bytes: &[u8]) -> (r: Result<bool, RigError>)
        ensures
            agrees(r, Self::spec_parse_response(bytes@)),
    {
        match validate_response(bytes, get_atu_enable_id_bytes(), 1) {
            Ok(d) => bool_from_ascii_1_0(d[0]),
            Err(e) => Err(e),
        }
    }
}

/// A `GetAtuEnable` reply whose value byte is `1` reads as `true`, `0` as `false`; any other byte is a
/// `ParseBoolean` error.
pub proof fn lemma_get_atu_enable_reply(v: Seq<u8>)
    requires
        v.len() == 1,
    ensures
        v[0] == 0x31 ==> GetAtuEnable::spec_parse_response(frame(get_atu_enable_id(), v)) == Ok::<bool, Failure>(true),
        v[0] == 0x30 ==> GetAtuEnable::spec_parse_response(frame(get_atu_enable_id(), v)) == Ok::<bool, Failure>(false),
        v[0] != 0x30 && v[0] != 0x31 ==> GetAtuEnable::spec_parse_response(frame(get_atu_enable_id(), v)) == Err::<bool, Failure>(Failure::Boolean(v[0])),
{
    lemma_framed_value_reads_back(get_atu_enable_id(), v);
}

/// `^AT`
pub open spec fn set_atu_enable_id() -> Seq<u8> {
    seq![0x5E, 0x41, 0x54]
}

fn set_atu_enable_id_bytes() -> (r: &'static [u8])
    ensures
        r@ == set_atu_enable_id(),
{
    &[0x5E, 0x41, 0x54]
}

/// Set whether the internal ATU is switched into circuit.
#[derive(Clone, Copy, Debug, PartialEq, Eq)]
pub struct SetAtuEnable {
    pub enabled: bool,
}

impl SetAtuEnable {
    pub open spec fn spec_args(self) -> Seq<u8> {
        seq![if self.enabled { ASCII_DIGIT_ONE } else { ASCII_DIGIT_ZERO }]
    }

    pub fn to_bytes(&self) -> (r: Vec<u8>)
        ensures
            r@ == frame(set_atu_enable_id(), self.spec_args()),
    {
        let args: [u8; 1] = [if self.enabled { ASCII_DIGIT_ONE } else { ASCII_DIGIT_ZERO }];
        assert(args@ =~= self.spec_args());
        frame_command(set_atu_enable_id_bytes(), &args)
    }
}

/// `SetAtuEnable` sends `1` when `enabled` is set and `0` when it is clear.
pub proof fn lemma_set_atu_enable_argument(s: SetAtuEnable)
    ensures
        s.enabled ==> s.spec_args() == seq![0x31u8],
        !s.enabled ==> s.spec_args() == seq![0x30u8],
{
}

/// `^BN`
pub open spec fn get_band_selection_id() -> Seq<u8> {
    seq![0x5E, 0x42, 0x4E]
}

fn get_band_selection_id_bytes() -> (r: &'static [u8])
    ensures
        r@ == get_band_selection_id(),
{
    &[0x5E, 0x42, 0x4E]
}

/// Get the currently selected band.
#[derive(Clone, Copy, Debug, PartialEq, Eq)]
pub struct GetBandSelection;

impl GetBandSelection {
    pub fn to_bytes(&self) -> (r: Vec<u8>)
        ensures
            r@ == frame(get_band_selection_id(), seq![]),
    {
        let none: [u8; 0] = [];
        frame_command(get_band_selection_id_bytes(), &none)
    }

    pub open spec fn spec_parse_response(bytes: Seq<u8>) -> Result<u8, Failure> {
        match spec_validate_response(bytes, get_band_selection_id(), 2) {
            Ok(v) => spec_u8_field(v),
            Err(f) => Err(f),
        }
    }

    pub fn parse(&self, bytes: &[u8]) -> (r: Result<u8, RigError>)
        ensures
            agrees(r, Self::spec_parse_response(bytes@)),
    {
        match validate_response(bytes, get_band_selection_id_bytes(), 2) {
            Ok(d) => {
                proof {
                    lemma_leading_value_bound(d@);
                    lemma_pow10_values();
                }
                u8_from_ascii(d)
            },
            Err(e) => Err(e),
        }
    }
}

/// A `GetBandSelection` reply of 2 value bytes reads as the decimal number they spell; a value with a
/// byte that is not a digit is an `InvalidResponseData` error holding the value.
pub proof fn lemma_get_band_selection_reply(v: Seq<u8>)
    requires
        v.len() == 2,
    ensures
        all_digits(v) && digits_value(v) <= 255 ==> GetBandSelection::spec_parse_response(frame(get_band_selection_id(), v)) == Ok::<u8, Failure>(digits_value(v) as u8),
        !all_digits(v) ==> GetBandSelection::spec_parse_response(frame(get_band_selection_id(), v)) == Err::<u8, Failure>(Failure::ResponseData(v)),
{
    lemma_framed_value_reads_back(get_band_selection_id(), v);
}

/// `^BN`
pub open spec fn set_band_selection_id() -> Seq<u8> {
    seq![0x5E, 0x42, 0x4E]
}

fn set_band_selection_id_bytes() -> (r: &'static [u8])
    ensures
        r@ == set_band_selection_id(),
{
    &[0x5E, 0x42, 0x4E]
}

/// Set the active band.
#[derive(Clone, Copy, Debug, PartialEq, Eq)]
pub struct SetBandSelection {
    pub band: u8,
}

impl SetBandSelection {
    /// The values the command accepts.
    pub open spec fn spec_in_range(self) -> bool {
        self.band <= 10
    }

    /// The argument bytes.
    pub open spec fn spec_args(self) -> Seq<u8> {
        uint_args(self.band as u32, 2)
    }

    /// The command, or `InvalidArgumentValue` for a value out of range.
    pub fn to_bytes(&self) -> (r: Result<Vec<u8>, RigError>)
        ensures
            self.spec_in_range() ==> (r matches Ok(b) && b@ == frame(set_band_selection_id(), self.spec_args())),
            !self.spec_in_range() ==> (r matches Err(e) && e.fails_with(
                Failure::ArgumentValue("band"@, "u8"@, decimal_string(self.band as int)),
            )),
    {
        encode_uint_in_range(set_band_selection_id_bytes(), "band", "u8", self.band as u32, 0, 10, 2)
    }
}

/// `SetBandSelection` accepts `band` when `s.band <= 10` and sends it as decimal digits, zero-padded to 2.
pub proof fn lemma_set_band_selection_argument(s: SetBandSelection)
    ensures
        s.spec_in_range() == (s.band <= 10),
        all_digits(s.spec_args()),
        digits_value(s.spec_args()) == s.band,
        (s.band as nat) < pow10(2) ==> s.spec_args().len() == 2,
{
    lemma_padded_decimal_value(s.band as nat, 2);
    if (s.band as nat) < pow10(2) {
        lemma_num_digits_le(s.band as nat, 2);
    }
}

/// `^BRP`
pub open spec fn get_pc_baud_rate_id() -> Seq<u8> {
    seq![0x5E, 0x42, 0x52, 0x50]
}

fn get_pc_baud_rate_id_bytes() -> (r: &'static [u8])
    ensures
        r@ == get_pc_baud_rate_id(),
{
    &[0x5E, 0x42, 0x52, 0x50]
}

/// Get the PC-side RS-232 port data rate.
#[derive(Clone, Copy, Debug, PartialEq, Eq)]
pub struct GetPcBaudRate;

impl GetPcBaudRate {
    pub fn to_bytes(&self) -> (r: Vec<u8>)
        ensures
            r@ == frame(get_pc_baud_rate_id(), seq![]),
    {
        let none: [u8; 0] = [];
        frame_command(get_pc_baud_rate_id_bytes(), &none)
    }

    pub open spec fn spec_parse_response(bytes: Seq<u8>) -> Result<u8, Failure> {
        match spec_validate_response(bytes, get_pc_baud_rate_id(), 1) {
            Ok(v) => spec_u8_field(v),
            Err(f) => Err(f),
        }
    }

    pub fn parse(&self, bytes: &[u8]) -> (r: Result<u8, RigError>)
        ensures
            agrees(r, Self::spec_parse_response(bytes@)),
    {
        match validate_response(bytes, get_pc_baud_rate_id_bytes(), 1) {
            Ok(d) => {
                proof {
                    lemma_leading_value_bound(d@);
                    lemma_pow10_values();
                }
                u8_from_ascii(d)
            },
            Err(e) => Err(e),
        }
    }
}

/// A `GetPcBaudRate` reply of 1 value bytes reads as the decimal number they spell; a value with a
/// byte that is not a digit is an `InvalidResponseData` error holding the value.
pub proof fn lemma_get_pc_baud_rate_reply(v: Seq<u8>)
    requires
        v.len() == 1,
    ensures
        all_digits(v) && digits_value(v) <= 255 ==> GetPcBaudRate::spec_parse_response(frame(get_pc_baud_rate_id(), v)) == Ok::<u8, Failure>(digits_value(v) as u8),
        !all_digits(v) ==> GetPcBaudRate::spec_parse_response(frame(get_pc_baud_rate_id(), v)) == Err::<u8, Failure>(Failure::ResponseData(v)),
{
    lemma_framed_value_reads_back(get_pc_baud_rate_id(), v);
}

/// `^BRP`
pub open spec fn set_pc_baud_rate_id() -> Seq<u8> {
    seq![0x5E, 0x42, 0x52, 0x50]
}

fn set_pc_baud_rate_id_bytes() -> (r: &'static [u8])
    ensures
        r@ == set_pc_baud_rate_id(),
{
    &[0x5E, 0x42, 0x52, 0x50]
}

/// Set the PC-side RS-232 port data rate.
#[derive(Clone, Copy, Debug, PartialEq, Eq)]
pub struct SetPcBaudRate {
    pub rate: u8,
}

impl SetPcBaudRate {
    /// The values the command accepts.
    pub open spec fn spec_in_range(self) -> bool {
        self.rate <= 3
    }

    /// The argument bytes.
    pub open spec fn spec_args(self) -> Seq<u8> {
        uint_args(self.rate as u32, 1)
    }

    /// The command, or `InvalidArgumentValue` for a value out of range.
    pub fn to_bytes(&self) -> (r: Result<Vec<u8>, RigError>)
        ensures
            self.spec_in_range() ==> (r matches Ok(b) && b@ == frame(set_pc_baud_rate_id(), self.spec_args())),
            !self.spec_in_range() ==> (r matches Err(e) && e.fails_with(
                Failure::ArgumentValue("rate"@, "u8"@, decimal_string(self.rate as int)),
            )),
    {
        encode_uint_in_range(set_pc_baud_rate_id_bytes(), "rate", "u8", self.rate as u32, 0, 3, 1)
    }
}

/// `SetPcBaudRate` accepts `rate` when `s.rate <= 3` and sends it as decimal digits, zero-padded to 1.
pub proof fn lemma_set_pc_baud_rate_argument(s: SetPcBaudRate)
    ensures
        s.spec_in_range() == (s.rate <= 3),
        all_digits(s.spec_args()),
        digits_value(s.spec_args()) == s.rate,
        (s.rate as nat) < pow10(1) ==> s.spec_args().len() == 1,
{
    lemma_padded_decimal_value(s.rate as nat, 1);
    if (s.rate as nat) < pow10(1) {
        lemma_num_digits_le(s.rate as nat, 1);
    }
}

/// `^BRX`
pub open spec fn get_xcvr_baud_rate_id() -> Seq<u8> {
    seq![0x5E, 0x42, 0x52, 0x58]
}

fn get_xcvr_baud_rate_id_bytes() -> (r: &'static [u8])
    ensures
        r@ == get_xcvr_baud_rate_id(),
{
    &[0x5E, 0x42, 0x52, 0x58]
}

/// Get the transceiver-side RS-232 port data rate.
#[derive(Clone, Copy, Debug, PartialEq, Eq)]
pub struct GetXcvrBaudRate;

impl GetXcvrBaudRate {
    pub fn to_bytes(&self) -> (r: Vec<u8>)
        ensures
            r@ == frame(get_xcvr_baud_rate_id(), seq![]),
    {
        let none: [u8; 0] = [];
        frame_command(get_xcvr_baud_rate_id_bytes(), &none)
    }

    pub open spec fn spec_parse_response(bytes: Seq<u8>) -> Result<u8, Failure> {
        match spec_validate_response(bytes, get_xcvr_baud_rate_id(), 1) {
            Ok(v) => spec_u8_field(v),
            Err(f) => Err(f),
        }
    }

    pub fn parse(&self, bytes: &[u8]) -> (r: Result<u8, RigError>)
        ensures
            agrees(r, Self::spec_parse_response(bytes@)),
    {
        match validate_response(bytes, get_xcvr_baud_rate_id_bytes(), 1) {
            Ok(d) => {
                proof {
                    lemma_leading_value_bound(d@);
                    lemma_pow10_values();
                }
                u8_from_ascii(d)
            },
            Err(e) => Err(e),
        }
    }
}

/// A `GetXcvrBaudRate` reply of 1 value bytes reads as the decimal number they spell; a value with a
/// byte that is not a digit is an `InvalidResponseData` error holding the value.
pub proof fn lemma_get_xcvr_baud_rate_reply(v: Seq<u8>)
    requires
        v.len() == 1,
    ensures
        all_digits(v) && digits_value(v) <= 255 ==> GetXcvrBaudRate::spec_parse_response(frame(get_xcvr_baud_rate_id(), v)) == Ok::<u8, Failure>(digits_value(v) as u8),
        !all_digits(v) ==> GetXcvrBaudRate::spec_parse_response(frame(get_xcvr_baud_rate_id(), v)) == Err::<u8, Failure>(Failure::ResponseData(v)),
{
    lemma_framed_value_reads_back(get_xcvr_baud_rate_id(), v);
}

/// `^BRX`
pub open spec fn set_xcvr_baud_rate_id() -> Seq<u8> {
    seq![0x5E, 0x42, 0x52, 0x58]
}

fn set_xcvr_baud_rate_id_bytes() -> (r: &'static [u8])
    ensures
        r@ == set_xcvr_baud_rate_id(),
{
    &[0x5E, 0x42, 0x52, 0x58]
}

/// Set the transceiver-side RS-232 port data rate.
#[derive(Clone, Copy, Debug, PartialEq, Eq)]
pub struct SetXcvrBaudRate {
    pub rate: u8,
}

impl SetXcvrBaudRate {
    /// The values the command accepts.
    pub open spec fn spec_in_range(self) -> bool {
        self.rate <= 3
    }

    /// The argument bytes.
    pub open spec fn spec_args(self) -> Seq<u8> {
        uint_args(self.rate as u32, 1)
    }

    /// The command, or `InvalidArgumentValue` for a value out of range.
    pub fn to_bytes(&self) -> (r: Result<Vec<u8>, RigError>)
        ensures
            self.spec_in_range() ==> (r matches Ok(b) && b@ == frame(set_xcvr_baud_rate_id(), self.spec_args())),
            !self.spec_in_range() ==> (r matches Err(e) && e.fails_with(
                Failure::ArgumentValue("rate"@, "u8"@, decimal_string(self.rate as int)),
            )),
    {
        encode_uint_in_range(set_xcvr_baud_rate_id_bytes(), "rate", "u8", self.rate as u32, 0, 3, 1)
    }
}

/// `SetXcvrBaudRate` accepts `rate` when `s.rate <= 3` and sends it as decimal digits, zero-padded to 1.
pub proof fn lemma_set_xcvr_baud_rate_argument(s: SetXcvrBaudRate)
    ensures
        s.spec_in_range() == (s.rate <= 3),
        all_digits(s.spec_args()),
        digits_value(s.spec_args()) == s.rate,
        (s.rate as nat) < pow10(1) ==> s.spec_args().len() == 1,
{
    lemma_padded_decimal_value(s.rate as nat, 1);
    if (s.rate as nat) < pow10(1) {
        lemma_num_digits_le(s.rate as nat, 1);
    }
}

/// `^CR`
pub open spec fn reset_configuration_id() -> Seq<u8> {
    seq![0x5E, 0x43, 0x52]
}

fn reset_configuration_id_bytes() -> (r: &'static [u8])
    ensures
        r@ == reset_configuration_id(),
{
    &[0x5E, 0x43, 0x52]
}

/// Reset the amplifier configuration to factory defaults.
#[derive(Clone, Copy, Debug, PartialEq, Eq)]
pub struct ResetConfiguration;

impl ResetConfiguration {
    pub fn to_bytes(&self) -> (r: Vec<u8>)
        ensures
            r@ == frame(reset_configuration_id(), seq![]),
    {
        let none: [u8; 0] = [];
        frame_command(reset_configuration_id_bytes(), &none)
    }
}

/// `^DM`
pub open spec fn get_demo_mode_id() -> Seq<u8> {
    seq![0x5E, 0x44, 0x4D]
}

fn get_demo_mode_id_bytes() -> (r: &'static [u8])
    ensures
        r@ == get_demo_mode_id(),
{
    &[0x5E, 0x44, 0x4D]
}

/// Get whether demo mode is enabled.
#[derive(Clone, Copy, Debug, PartialEq, Eq)]
pub struct GetDemoMode;

impl GetDemoMode {
    pub fn to_bytes(&self) -> (r: Vec<u8>)
        ensures
            r@ == frame(get_demo_mode_id(), seq![]),
    {
        let none: [u8; 0] = [];
        frame_command(get_demo_mode_id_bytes(), &none)
    }

    pub open spec fn spec_parse_response(bytes: Seq<u8>) -> Result<bool, Failure> {
        match spec_validate_response(bytes, get_demo_mode_id(), 1) {
            Ok(v) => spec_bool_1_0(v[0]),
            Err(f) => Err(f),
        }
    }

    pub fn parse(&self, bytes: &[u8]) -> (r: Result<bool, RigError>)
        ensures
            agrees(r, Self::spec_parse_response(bytes@)),
    {
        match validate_response(bytes, get_demo_mode_id_bytes(), 1) {
            Ok(d) => bool_from_ascii_1_0(d[0]),
            Err(e) => Err(e),
        }
    }
}

/// A `GetDemoMode` reply whose value byte is `1` reads as `true`, `0` as `false`; any other byte is a
/// `ParseBoolean` error.
pub proof fn lemma_get_demo_mode_reply(v: Seq<u8>)
    requires
        v.len() == 1,
    ensures
        v[0] == 0x31 ==> GetDemoMode::spec_parse_response(frame(get_demo_mode_id(), v)) == Ok::<bool, Failure>(true),
        v[0] == 0x30 ==> GetDemoMode::spec_parse_response(frame(get_demo_mode_id(), v)) == Ok::<bool, Failure>(false),
        v[0] != 0x30 && v[0] != 0x31 ==> GetDemoMode::spec_parse_response(frame(get_demo_mode_id(), v)) == Err::<bool, Failure>(Failure::Boolean(v[0])),
{
    lemma_framed_value_reads_back(get_demo_mode_id(), v);
}

/// `^DM`
pub open spec fn set_demo_mode_id() -> Seq<u8> {
    seq![0x5E, 0x44, 0x4D]
}

fn set_demo_mode_id_bytes() -> (r: &'static [u8])
    ensures
        r@ == set_demo_mode_id(),
{
    &[0x5E, 0x44, 0x4D]
}

/// Set whether demo mode is enabled.
#[derive(Clone, Copy, Debug, PartialEq, Eq)]
pub struct SetDemoMode {
    pub enabled: bool,
}

impl SetDemoMode {
    pub open spec fn spec_args(self) -> Seq<u8> {
        seq![if self.enabled { ASCII_DIGIT_ONE } else { ASCII_DIGIT_ZERO }]
    }

    pub fn to_bytes(&self) -> (r: Vec<u8>)
        ensures
            r@ == frame(set_demo_mode_id(), self.spec_args()),
    {
        let args: [u8; 1] = [if self.enabled { ASCII_DIGIT_ONE } else { ASCII_DIGIT_ZERO }];
        assert(args@ =~= self.spec_args());
        frame_command(set_demo_mode_id_bytes(), &args)
    }
}

/// `SetDemoMode` sends `1` when `enabled` is set and `0` when it is clear.
pub proof fn lemma_set_demo_mode_argument(s: SetDemoMode)
    ensures
        s.enabled ==> s.spec_args() == seq![0x31u8],
        !s.enabled ==> s.spec_args() == seq![0x30u8],
{
}

/// `^EC`
pub open spec fn get_error_count_id() -> Seq<u8> {
    seq![0x5E, 0x45, 0x43]
}

fn get_error_count_id_bytes() -> (r: &'static [u8])
    ensures
        r@ == get_error_count_id(),
{
    &[0x5E, 0x45, 0x43]
}

/// Get the accumulated error count since the last reset.
#[derive(Clone, Copy, Debug, PartialEq, Eq)]
pub struct GetErrorCount;

impl GetErrorCount {
    pub fn to_bytes(&self) -> (r: Vec<u8>)
        ensures
            r@ == frame(get_error_count_id(), seq![]),
    {
        let none: [u8; 0] = [];
        frame_command(get_error_count_id_bytes(), &none)
    }

    pub open spec fn spec_parse_response(bytes: Seq<u8>) -> Result<u16, Failure> {
        match spec_validate_response(bytes, get_error_count_id(), 4) {
            Ok(v) => spec_u16_field(v),
            Err(f) => Err(f),
        }
    }

    pub fn parse(&self, bytes: &[u8]) -> (r: Result<u16, RigError>)
        ensures
            agrees(r, Self::spec_parse_response(bytes@)),
    {
        match validate_response(bytes, get_error_count_id_bytes(), 4) {
            Ok(d) => {
                proof {
                    lemma_leading_value_bound(d@);
                    lemma_pow10_values();
                }
                u16_from_ascii(d)
            },
            Err(e) => Err(e),
        }
    }
}

/// A `GetErrorCount` reply of 4 value bytes reads as the decimal number they spell; a value with a
/// byte that is not a digit is an `InvalidResponseData` error holding the value.
pub proof fn lemma_get_error_count_reply(v: Seq<u8>)
    requires
        v.len() == 4,
    ensures
        all_digits(v) && digits_value(v) <= u16::MAX ==> GetErrorCount::spec_parse_response(frame(get_error_count_id(), v)) == Ok::<u16, Failure>(digits_value(v) as u16),
        !all_digits(v) ==> GetErrorCount::spec_parse_response(frame(get_error_count_id(), v)) == Err::<u16, Failure>(Failure::ResponseData(v)),
{
    lemma_framed_value_reads_back(get_error_count_id(), v);
}

/// `^EM`
pub open spec fn get_error_message_id() -> Seq<u8> {
    seq![0x5E, 0x45, 0x4D]
}

fn get_error_message_id_bytes() -> (r: &'static [u8])
    ensures
        r@ == get_error_message_id(),
{
    &[0x5E, 0x45, 0x4D]
}

/// Get the most recent error message.
#[derive(Clone, Copy, Debug, PartialEq, Eq)]
pub struct GetErrorMessage;

impl GetErrorMessage {
    pub fn to_bytes(&self) -> (r: Vec<u8>)
        ensures
            r@ == frame(get_error_message_id(), seq![]),
    {
        let none: [u8; 0] = [];
        frame_command(get_error_message_id_bytes(), &none)
    }

    /// The value bytes of a framed reply.
    pub fn parse(&self, bytes: &[u8]) -> (r: Result<Vec<u8>, RigError>)
        ensures
            match spec_validate_response(bytes@, get_error_message_id(), 0) {
                Ok(v) => r matches Ok(d) && d@ == v,
                Err(f) => r matches Err(e) && e.fails_with(f),
            },
    {
        match validate_response(bytes, get_error_message_id_bytes(), 0) {
            Ok(d) => bytes_to_vec(d),
            Err(e) => Err(e),
        }
    }
}

/// `^F`
pub open spec fn get_frequency_id() -> Seq<u8> {
    seq![0x5E, 0x46]
}

fn get_frequency_id_bytes() -> (r: &'static [u8])
    ensures
        r@ == get_frequency_id(),
{
    &[0x5E, 0x46]
}

/// Get the operating frequency currently reported to the amplifier.
#[derive(Clone, Copy, Debug, PartialEq, Eq)]
pub struct GetFrequency;

impl GetFrequency {
    pub fn to_bytes(&self) -> (r: Vec<u8>)
        ensures
            r@ == frame(get_frequency_id(), seq![]),
    {
        let none: [u8; 0] = [];
        frame_command(get_frequency_id_bytes(), &none)
    }

    pub open spec fn spec_parse_response(bytes: Seq<u8>) -> Result<u32, Failure> {
        match spec_validate_response(bytes, get_frequency_id(), 8) {
            Ok(v) => spec_u32_field(v),
            Err(f) => Err(f),
        }
    }

    pub fn parse(&self, bytes: &[u8]) -> (r: Result<u32, RigError>)
        ensures
            agrees(r, Self::spec_parse_response(bytes@)),
    {
        match validate_response(bytes, get_frequency_id_bytes(), 8) {
            Ok(d) => {
                proof {
                    lemma_leading_value_bound(d@);
                    lemma_pow10_values();
                }
                u32_from_ascii(d)
            },
            Err(e) => Err(e),
        }
    }
}

/// A `GetFrequency` reply of 8 value bytes reads as the decimal number they spell; a value with a
/// byte that is not a digit is an `InvalidResponseData` error holding the value.
pub proof fn lemma_get_frequency_reply(v: Seq<u8>)
    requires
        v.len() == 8,
    ensures
        all_digits(v) && digits_value(v) <= u32::MAX ==> GetFrequency::spec_parse_response(frame(get_frequency_id(), v)) == Ok::<u32, Failure>(digits_value(v) as u32),
        !all_digits(v) ==> GetFrequency::spec_parse_response(frame(get_frequency_id(), v)) == Err::<u32, Failure>(Failure::ResponseData(v)),
{
    lemma_framed_value_reads_back(get_frequency_id(), v);
}

/// `^F`
pub open spec fn set_frequency_id() -> Seq<u8> {
    seq![0x5E, 0x46]
}

fn set_frequency_id_bytes() -> (r: &'static [u8])
    ensures
        r@ == set_frequency_id(),
{
    &[0x5E, 0x46]
}

/// Inform the amplifier of the operating frequency, in Hz.
#[derive(Clone, Copy, Debug, PartialEq, Eq)]
pub struct SetFrequency {
    pub hz: u32,
}

impl SetFrequency {
    pub open spec fn spec_args(self) -> Seq<u8> {
        padded_decimal(self.hz as nat, 8)
    }

    pub fn to_bytes(&self) -> (r: Vec<u8>)
        ensures
            r@ == frame(set_frequency_id(), self.spec_args()),
    {
        let args = format_uint_ascii(self.hz as u64, 8);
        frame_command(set_frequency_id_bytes(), args.as_slice())
    }
}

/// `SetFrequency` sends `hz` as decimal digits, zero-padded to 8 digits when it fits in 8.
pub proof fn lemma_set_frequency_argument(s: SetFrequency)
    ensures
        all_digits(s.spec_args()),
        digits_value(s.spec_args()) == s.hz,
        (s.hz as nat) < pow10(8) ==> s.spec_args().len() == 8,
        s.spec_args().len() >= 8,
{
    lemma_padded_decimal_value(s.hz as nat, 8);
    if (s.hz as nat) < pow10(8) {
        lemma_num_digits_le(s.hz as nat, 8);
    }
}

/// `^FE`
pub open spec fn get_frequency_entry_mode_id() -> Seq<u8> {
    seq![0x5E, 0x46, 0x45]
}

fn get_frequency_entry_mode_id_bytes() -> (r: &'static [u8])
    ensures
        r@ == get_frequency_entry_mode_id(),
{
    &[0x5E, 0x46, 0x45]
}

/// Get the frequency entry source.
#[derive(Clone, Copy, Debug, PartialEq, Eq)]
pub struct GetFrequencyEntryMode;

impl GetFrequencyEntryMode {
    pub fn to_bytes(&self) -> (r: Vec<u8>)
        ensures
            r@ == frame(get_frequency_entry_mode_id(), seq![]),
    {
        let none: [u8; 0] = [];
        frame_command(get_frequency_entry_mode_id_bytes(), &none)
    }

    pub open spec fn spec_parse_response(bytes: Seq<u8>) -> Result<bool, Failure> {
        match spec_validate_response(bytes, get_frequency_entry_mode_id(), 1) {
            Ok(v) => spec_bool_1_0(v[0]),
            Err(f) => Err(f),
        }
    }

    pub fn parse(&self, bytes: &[u8]) -> (r: Result<bool, RigError>)
        ensures
            agrees(r, Self::spec_parse_response(bytes@)),
    {
        match validate_response(bytes, get_frequency_entry_mode_id_bytes(), 1) {
            Ok(d) => bool_from_ascii_1_0(d[0]),
            Err(e) => Err(e),
        }
    }
}

/// A `GetFrequencyEntryMode` reply whose value byte is `1` reads as `true`, `0` as `false`; any other byte is a
/// `ParseBoolean` error.
pub proof fn lemma_get_frequency_entry_mode_reply(v: Seq<u8>)
    requires
        v.len() == 1,
    ensures
        v[0] == 0x31 ==> GetFrequencyEntryMode::spec_parse_response(frame(get_frequency_entry_mode_id(), v)) == Ok::<bool, Failure>(true),
        v[0] == 0x30 ==> GetFrequencyEntryMode::spec_parse_response(frame(get_frequency_entry_mode_id(), v)) == Ok::<bool, Failure>(false),
        v[0] != 0x30 && v[0] != 0x31 ==> GetFrequencyEntryMode::spec_parse_response(frame(get_frequency_entry_mode_id(), v)) == Err::<bool, Failure>(Failure::Boolean(v[0])),
{
    lemma_framed_value_reads_back(get_frequency_entry_mode_id(), v);
}

/// `^FE`
pub open spec fn set_frequency_entry_mode_id() -> Seq<u8> {
    seq![0x5E, 0x46, 0x45]
}

fn set_frequency_entry_mode_id_bytes() -> (r: &'static [u8])
    ensures
        r@ == set_frequency_entry_mode_id(),
{
    &[0x5E, 0x46, 0x45]
}

/// Set the frequency entry source.
#[derive(Clone, Copy, Debug, PartialEq, Eq)]
pub struct SetFrequencyEntryMode {
    pub manual: bool,
}

impl SetFrequencyEntryMode {
    pub open spec fn spec_args(self) -> Seq<u8> {
        seq![if self.manual { ASCII_DIGIT_ONE } else { ASCII_DIGIT_ZERO }]
    }

    pub fn to_bytes(&self) -> (r: Vec<u8>)
        ensures
            r@ == frame(set_frequency_entry_mode_id(), self.spec_args()),
    {
        let args: [u8; 1] = [if self.manual { ASCII_DIGIT_ONE } else { ASCII_DIGIT_ZERO }];
        assert(args@ =~= self.spec_args());
        frame_command(set_frequency_entry_mode_id_bytes(), &args)
    }
}

/// `SetFrequencyEntryMode` sends `1` when `manual` is set and `0` when it is clear.
pub proof fn lemma_set_frequency_entry_mode_argument(s: SetFrequencyEntryMode)
    ensures
        s.manual ==> s.spec_args() == seq![0x31u8],
        !s.manual ==> s.spec_args() == seq![0x30u8],
{
}

/// `^FL`
pub open spec fn get_fault_code_id() -> Seq<u8> {
    seq![0x5E, 0x46, 0x4C]
}

fn get_fault_code_id_bytes() -> (r: &'static [u8])
    ensures
        r@ == get_fault_code_id(),
{
    &[0x5E, 0x46, 0x4C]
}

/// Get the current fault code.
#[derive(Clone, Copy, Debug, PartialEq, Eq)]
pub struct GetFaultCode;

impl GetFaultCode {
    pub fn to_bytes(&self) -> (r: Vec<u8>)
        ensures
            r@ == frame(get_fault_code_id(), seq![]),
    {
        let none: [u8; 0] = [];
        frame_command(get_fault_code_id_bytes(), &none)
    }

    pub open spec fn spec_parse_response(bytes: Seq<u8>) -> Result<u8, Failure> {
        match spec_validate_response(bytes, get_fault_code_id(), 2) {
            Ok(v) => spec_u8_field(v),
            Err(f) => Err(f),
        }
    }

    pub fn parse(&self, bytes: &[u8]) -> (r: Result<u8, RigError>)
        ensures
            agrees(r, Self::spec_parse_response(bytes@)),
    {
        match validate_response(bytes, get_fault_code_id_bytes(), 2) {
            Ok(d) => {
                proof {
                    lemma_leading_value_bound(d@);
                    lemma_pow10_values();
                }
                u8_from_ascii(d)
            },
            Err(e) => Err(e),
        }
    }
}

/// A `GetFaultCode` reply of 2 value bytes reads as the decimal number they spell; a value with a
/// byte that is not a digit is an `InvalidResponseData` error holding the value.
pub proof fn lemma_get_fault_code_reply(v: Seq<u8>)
    requires
        v.len() == 2,
    ensures
        all_digits(v) && digits_value(v) <= 255 ==> GetFaultCode::spec_parse_response(frame(get_fault_code_id(), v)) == Ok::<u8, Failure>(digits_value(v) as u8),
        !all_digits(v) ==> GetFaultCode::spec_parse_response(frame(get_fault_code_id(), v)) == Err::<u8, Failure>(Failure::ResponseData(v)),
{
    lemma_framed_value_reads_back(get_fault_code_id(), v);
}

/// `^FL`
pub open spec fn clear_fault_id() -> Seq<u8> {
    seq![0x5E, 0x46, 0x4C]
}

fn clear_fault_id_bytes() -> (r: &'static [u8])
    ensures
        r@ == clear_fault_id(),
{
    &[0x5E, 0x46, 0x4C]
}

/// Clear the current fault condition.
#[derive(Clone, Copy, Debug, PartialEq, Eq)]
pub struct ClearFault;

impl ClearFault {
    pub fn to_bytes(&self) -> (r: Vec<u8>)
        ensures
            r@ == frame(clear_fault_id(), seq![0x43u8]),
    {
        let args: [u8; 1] = [0x43];
        assert(args@ =~= seq![0x43u8]);
        frame_command(clear_fault_id_bytes(), &args)
    }
}

/// `^FT`
pub open spec fn get_fan_threshold_id() -> Seq<u8> {
    seq![0x5E, 0x46, 0x54]
}

fn get_fan_threshold_id_bytes() -> (r: &'static [u8])
    ensures
        r@ == get_fan_threshold_id(),
{
    &[0x5E, 0x46, 0x54]
}

/// Get the fan-on threshold temperature.
#[derive(Clone, Copy, Debug, PartialEq, Eq)]
pub struct GetFanThreshold;

impl GetFanThreshold {
    pub fn to_bytes(&self) -> (r: Vec<u8>)
        ensures
            r@ == frame(get_fan_threshold_id(), seq![]),
    {
        let none: [u8; 0] = [];
        frame_command(get_fan_threshold_id_bytes(), &none)
    }

    pub open spec fn spec_parse_response(bytes: Seq<u8>) -> Result<u8, Failure> {
        match spec_validate_response(bytes, get_fan_threshold_id(), 3) {
            Ok(v) => spec_u8_field(v),
            Err(f) => Err(f),
        }
    }

    /// Reads the digits of a framed reply; a value above 255 is outside the domain.
    pub fn parse(&self, bytes: &[u8]) -> (r: Result<u8, RigError>)
        requires
            spec_validate_response(bytes@, get_fan_threshold_id(), 3) matches Ok(v) ==> leading_value(v) <= u8::MAX,
        ensures
            agrees(r, Self::spec_parse_response(bytes@)),
    {
        match validate_response(bytes, get_fan_threshold_id_bytes(), 3) {
            Ok(d) => {
                proof {
                    lemma_leading_value_bound(d@);
                    lemma_pow10_values();
                }
                u8_from_ascii(d)
            },
            Err(e) => Err(e),
        }
    }
}

/// A `GetFanThreshold` reply of 3 value bytes reads as the decimal number they spell; a value with a
/// byte that is not a digit is an `InvalidResponseData` error holding the value.
pub proof fn lemma_get_fan_threshold_reply(v: Seq<u8>)
    requires
        v.len() == 3,
    ensures
        all_digits(v) && digits_value(v) <= 255 ==> GetFanThreshold::spec_parse_response(frame(get_fan_threshold_id(), v)) == Ok::<u8, Failure>(digits_value(v) as u8),
        !all_digits(v) ==> GetFanThreshold::spec_parse_response(frame(get_fan_threshold_id(), v)) == Err::<u8, Failure>(Failure::ResponseData(v)),
{
    lemma_framed_value_reads_back(get_fan_threshold_id(), v);
}

/// `^FT`
pub open spec fn set_fan_threshold_id() -> Seq<u8> {
    seq![0x5E, 0x46, 0x54]
}

fn set_fan_threshold_id_bytes() -> (r: &'static [u8])
    ensures
        r@ == set_fan_threshold_id(),
{
    &[0x5E, 0x46, 0x54]
}

/// Set the fan-on threshold temperature.
#[derive(Clone, Copy, Debug, PartialEq, Eq)]
pub struct SetFanThreshold {
    pub celsius: u8,
}

impl SetFanThreshold {
    pub open spec fn spec_args(self) -> Seq<u8> {
        padded_decimal(self.celsius as nat, 3)
    }

    pub fn to_bytes(&self) -> (r: Vec<u8>)
        ensures
            r@ == frame(set_fan_threshold_id(), self.spec_args()),
    {
        let args = format_uint_ascii(self.celsius as u64, 3);
        frame_command(set_fan_threshold_id_bytes(), args.as_slice())
    }
}

/// `SetFanThreshold` sends `celsius` as decimal digits, zero-padded to 3 digits when it fits in 3.
pub proof fn lemma_set_fan_threshold_argument(s: SetFanThreshold)
    ensures
        all_digits(s.spec_args()),
        digits_value(s.spec_args()) == s.celsius,
        (s.celsius as nat) < pow10(3) ==> s.spec_args().len() == 3,
        s.spec_args().len() >= 3,
{
    lemma_padded_decimal_value(s.celsius as nat, 3);
    if (s.celsius as nat) < pow10(3) {
        lemma_num_digits_le(s.celsius as nat, 3);
    }
}

/// `^I`
pub open spec fn get_drain_current_id() -> Seq<u8> {
    seq![0x5E, 0x49]
}

fn get_drain_current_id_bytes() -> (r: &'static [u8])
    ensures
        r@ == get_drain_current_id(),
{
    &[0x5E, 0x49]
}

/// Get the PA drain current.
#[derive(Clone, Copy, Debug, PartialEq, Eq)]
pub struct GetDrainCurrent;

impl GetDrainCurrent {
    pub fn to_bytes(&self) -> (r: Vec<u8>)
        ensures
            r@ == frame(get_drain_current_id(), seq![]),
    {
        let none: [u8; 0] = [];
        frame_command(get_drain_current_id_bytes(), &none)
    }

    pub open spec fn spec_parse_response(bytes: Seq<u8>) -> Result<u16, Failure> {
        match spec_validate_response(bytes, get_drain_current_id(), 3) {
            Ok(v) => spec_u16_field(v),
            Err(f) => Err(f),
        }
    }

    pub fn parse(&self, bytes: &[u8]) -> (r: Result<u16, RigError>)
        ensures
            agrees(r, Self::spec_parse_response(bytes@)),
    {
        match validate_response(bytes, get_drain_current_id_bytes(), 3) {
            Ok(d) => {
                proof {
                    lemma_leading_value_bound(d@);
                    lemma_pow10_values();
                }
                u16_from_ascii(d)
            },
            Err(e) => Err(e),
        }
    }
}

/// A `GetDrainCurrent` reply of 3 value bytes reads as the decimal number they spell; a value with a
/// byte that is not a digit is an `InvalidResponseData` error holding the value.
pub proof fn lemma_get_drain_current_reply(v: Seq<u8>)
    requires
        v.len() == 3,
    ensures
        all_digits(v) && digits_value(v) <= u16::MAX ==> GetDrainCurrent::spec_parse_response(frame(get_drain_current_id(), v)) == Ok::<u16, Failure>(digits_value(v) as u16),
        !all_digits(v) ==> GetDrainCurrent::spec_parse_response(frame(get_drain_current_id(), v)) == Err::<u16, Failure>(Failure::ResponseData(v)),
{
    lemma_framed_value_reads_back(get_drain_current_id(), v);
}

/// `^LR`
pub open spec fn get_low_pass_relay_id() -> Seq<u8> {
    seq![0x5E, 0x4C, 0x52]
}

fn get_low_pass_relay_id_bytes() -> (r: &'static [u8])
    ensures
        r@ == get_low_pass_relay_id(),
{
    &[0x5E, 0x4C, 0x52]
}

/// Get the low-pass filter relay state.
#[derive(Clone, Copy, Debug, PartialEq, Eq)]
pub struct GetLowPassRelay;

impl GetLowPassRelay {
    pub fn to_bytes(&self) -> (r: Vec<u8>)
        ensures
            r@ == frame(get_low_pass_relay_id(), seq![]),
    {
        let none: [u8; 0] = [];
        frame_command(get_low_pass_relay_id_bytes(), &none)
    }

    pub open spec fn spec_parse_response(bytes: Seq<u8>) -> Result<bool, Failure> {
        match spec_validate_response(bytes, get_low_pass_relay_id(), 1) {
            Ok(v) => spec_bool_1_0(v[0]),
            Err(f) => Err(f),
        }
    }

    pub fn parse(&self, bytes: &[u8]) -> (r: Result<bool, RigError>)
        ensures
            agrees(r, Self::spec_parse_response(bytes@)),
    {
        match validate_response(bytes, get_low_pass_relay_id_bytes(), 1) {
            Ok(d) => bool_from_ascii_1_0(d[0]),
            Err(e) => Err(e),
        }
    }
}

/// A `GetLowPassRelay` reply whose value byte is `1` reads as `true`, `0` as `false`; any other byte is a
/// `ParseBoolean` error.
pub proof fn lemma_get_low_pass_relay_reply(v: Seq<u8>)
    requires
        v.len() == 1,
    ensures
        v[0] == 0x31 ==> GetLowPassRelay::spec_parse_response(frame(get_low_pass_relay_id(), v)) == Ok::<bool, Failure>(true),
        v[0] == 0x30 ==> GetLowPassRelay::spec_parse_response(frame(get_low_pass_relay_id(), v)) == Ok::<bool, Failure>(false),
        v[0] != 0x30 && v[0] != 0x31 ==> GetLowPassRelay::spec_parse_response(frame(get_low_pass_relay_id(), v)) == Err::<bool, Failure>(Failure::Boolean(v[0])),
{
    lemma_framed_value_reads_back(get_low_pass_relay_id(), v);
}

/// `^LR`
pub open spec fn set_low_pass_relay_id() -> Seq<u8> {
    seq![0x5E, 0x4C, 0x52]
}

fn set_low_pass_relay_id_bytes() -> (r: &'static [u8])
    ensures
        r@ == set_low_pass_relay_id(),
{
    &[0x5E, 0x4C, 0x52]
}

/// Set the low-pass filter relay state.
#[derive(Clone, Copy, Debug, PartialEq, Eq)]
pub struct SetLowPassRelay {
    pub in_line: bool,
}

impl SetLowPassRelay {
    pub open spec fn spec_args(self) -> Seq<u8> {
        seq![if self.in_line { ASCII_DIGIT_ONE } else { ASCII_DIGIT_ZERO }]
    }

    pub fn to_bytes(&self) -> (r: Vec<u8>)
        ensures
            r@ == frame(set_low_pass_relay_id(), self.spec_args()),
    {
        let args: [u8; 1] = [if self.in_line { ASCII_DIGIT_ONE } else { ASCII_DIGIT_ZERO }];
        assert(args@ =~= self.spec_args());
        frame_command(set_low_pass_relay_id_bytes(), &args)
    }
}

/// `SetLowPassRelay` sends `1` when `in_line` is set and `0` when it is clear.
pub proof fn lemma_set_low_pass_relay_argument(s: SetLowPassRelay)
    ensures
        s.in_line ==> s.spec_args() == seq![0x31u8],
        !s.in_line ==> s.spec_args() == seq![0x30u8],
{
}

/// `^MD`
pub open spec fn get_operating_mode_id() -> Seq<u8> {
    seq![0x5E, 0x4D, 0x44]
}

fn get_operating_mode_id_bytes() -> (r: &'static [u8])
    ensures
        r@ == get_operating_mode_id(),
{
    &[0x5E, 0x4D, 0x44]
}

/// Get the current operating mode.
#[derive(Clone, Copy, Debug, PartialEq, Eq)]
pub struct GetOperatingMode;

impl GetOperatingMode {
    pub fn to_bytes(&self) -> (r: Vec<u8>)
        ensures
            r@ == frame(get_operating_mode_id(), seq![]),
    {
        let none: [u8; 0] = [];
        frame_command(get_operating_mode_id_bytes(), &none)
    }

    pub open spec fn spec_parse_response(bytes: Seq<u8>) -> Result<bool, Failure> {
        match spec_validate_response(bytes, get_operating_mode_id(), 1) {
            Ok(v) => spec_bool_1_0(v[0]),
            Err(f) => Err(f),
        }
    }

    pub fn parse(&self, bytes: &[u8]) -> (r: Result<bool, RigError>)
        ensures
            agrees(r, Self::spec_parse_response(bytes@)),
    {
        match validate_response(bytes, get_operating_mode_id_bytes(), 1) {
            Ok(d) => bool_from_ascii_1_0(d[0]),
            Err(e) => Err(e),
        }
    }
}

/// A `GetOperatingMode` reply whose value byte is `1` reads as `true`, `0` as `false`; any other byte is a
/// `ParseBoolean` error.
pub proof fn lemma_get_operating_mode_reply(v: Seq<u8>)
    requires
        v.len() == 1,
    ensures
        v[0] == 0x31 ==> GetOperatingMode::spec_parse_response(frame(get_operating_mode_id(), v)) == Ok::<bool, Failure>(true),
        v[0] == 0x30 ==> GetOperatingMode::spec_parse_response(frame(get_operating_mode_id(), v)) == Ok::<bool, Failure>(false),
        v[0] != 0x30 && v[0] != 0x31 ==> GetOperatingMode::spec_parse_response(frame(get_operating_mode_id(), v)) == Err::<bool, Failure>(Failure::Boolean(v[0])),
{
    lemma_framed_value_reads_back(get_operating_mode_id(), v);
}

/// `^MD`
pub open spec fn set_operating_mode_id() -> Seq<u8> {
    seq![0x5E, 0x4D, 0x44]
}

fn set_operating_mode_id_bytes() -> (r: &'static [u8])
    ensures
        r@ == set_operating_mode_id(),
{
    &[0x5E, 0x4D, 0x44]
}

/// Set the operating mode.
#[derive(Clone, Copy, Debug, PartialEq, Eq)]
pub struct SetOperatingMode {
    pub operate: bool,
}

impl SetOperatingMode {
    pub open spec fn spec_args(self) -> Seq<u8> {
        seq![if self.operate { ASCII_DIGIT_ONE } else { ASCII_DIGIT_ZERO }]
    }

    pub fn to_bytes(&self) -> (r: Vec<u8>)
        ensures
            r@ == frame(set_operating_mode_id(), self.spec_args()),
    {
        let args: [u8; 1] = [if self.operate { ASCII_DIGIT_ONE } else { ASCII_DIGIT_ZERO }];
        assert(args@ =~= self.spec_args());
        frame_command(set_operating_mode_id_bytes(), &args)
    }
}

/// `SetOperatingMode` sends `1` when `operate` is set and `0` when it is clear.
pub proof fn lemma_set_operating_mode_argument(s: SetOperatingMode)
    ensures
        s.operate ==> s.spec_args() == seq![0x31u8],
        !s.operate ==> s.spec_args() == seq![0x30u8],
{
}

/// `^MT`
pub open spec fn get_meter_display_id() -> Seq<u8> {
    seq![0x5E, 0x4D, 0x54]
}

fn get_meter_display_id_bytes() -> (r: &'static [u8])
    ensures
        r@ == get_meter_display_id(),
{
    &[0x5E, 0x4D, 0x54]
}

/// Get the front-panel meter display selection.
#[derive(Clone, Copy, Debug, PartialEq, Eq)]
pub struct GetMeterDisplay;

impl GetMeterDisplay {
    pub fn to_bytes(&self) -> (r: Vec<u8>)
        ensures
            r@ == frame(get_meter_display_id(), seq![]),
    {
        let none: [u8; 0] = [];
        frame_command(get_meter_display_id_bytes(), &none)
    }

    pub open spec fn spec_parse_response(bytes: Seq<u8>) -> Result<u8, Failure> {
        match spec_validate_response(bytes, get_meter_display_id(), 1) {
            Ok(v) => spec_u8_field(v),
            Err(f) => Err(f),
        }
    }

    pub fn parse(&self, bytes: &[u8]) -> (r: Result<u8, RigError>)
        ensures
            agrees(r, Self::spec_parse_response(bytes@)),
    {
        match validate_response(bytes, get_meter_display_id_bytes(), 1) {
            Ok(d) => {
                proof {
                    lemma_leading_value_bound(d@);
                    lemma_pow10_values();
                }
                u8_from_ascii(d)
            },
            Err(e) => Err(e),
        }
    }
}

/// A `GetMeterDisplay` reply of 1 value bytes reads as the decimal number they spell; a value with a
/// byte that is not a digit is an `InvalidResponseData` error holding the value.
pub proof fn lemma_get_meter_display_reply(v: Seq<u8>)
    requires
        v.len() == 1,
    ensures
        all_digits(v) && digits_value(v) <= 255 ==> GetMeterDisplay::spec_parse_response(frame(get_meter_display_id(), v)) == Ok::<u8, Failure>(digits_value(v) as u8),
        !all_digits(v) ==> GetMeterDisplay::spec_parse_response(frame(get_meter_display_id(), v)) == Err::<u8, Failure>(Failure::ResponseData(v)),
{
    lemma_framed_value_reads_back(get_meter_display_id(), v);
}

/// `^MT`
pub open spec fn set_meter_display_id() -> Seq<u8> {
    seq![0x5E, 0x4D, 0x54]
}

fn set_meter_display_id_bytes() -> (r: &'static [u8])
    ensures
        r@ == set_meter_display_id(),
{
    &[0x5E, 0x4D, 0x54]
}

/// Set the front-panel meter display selection.
#[derive(Clone, Copy, Debug, PartialEq, Eq)]
pub struct SetMeterDisplay {
    pub selection: u8,
}

impl SetMeterDisplay {
    /// The values the command accepts.
    pub open spec fn spec_in_range(self) -> bool {
        self.selection <= 3
    }

    /// The argument bytes.
    pub open spec fn spec_args(self) -> Seq<u8> {
        uint_args(self.selection as u32, 1)
    }

    /// The command, or `InvalidArgumentValue` for a value out of range.
    pub fn to_bytes(&self) -> (r: Result<Vec<u8>, RigError>)
        ensures
            self.spec_in_range() ==> (r matches Ok(b) && b@ == frame(set_meter_display_id(), self.spec_args())),
            !self.spec_in_range() ==> (r matches Err(e) && e.fails_with(
                Failure::ArgumentValue("selection"@, "u8"@, decimal_string(self.selection as int)),
            )),
    {
        encode_uint_in_range(set_meter_display_id_bytes(), "selection", "u8", self.selection as u32, 0, 3, 1)
    }
}

/// `SetMeterDisplay` accepts `selection` when `s.selection <= 3` and sends it as decimal digits, zero-padded to 1.
pub proof fn lemma_set_meter_display_argument(s: SetMeterDisplay)
    ensures
        s.spec_in_range() == (s.selection <= 3),
        all_digits(s.spec_args()),
        digits_value(s.spec_args()) == s.selection,
        (s.selection as nat) < pow10(1) ==> s.spec_args().len() == 1,
{
    lemma_padded_decimal_value(s.selection as nat, 1);
    if (s.selection as nat) < pow10(1) {
        lemma_num_digits_le(s.selection as nat, 1);
    }
}

/// `^OP`
pub open spec fn get_output_power_id() -> Seq<u8> {
    seq![0x5E, 0x4F, 0x50]
}

fn get_output_power_id_bytes() -> (r: &'static [u8])
    ensures
        r@ == get_output_power_id(),
{
    &[0x5E, 0x4F, 0x50]
}

/// Get the current RF output power.
#[derive(Clone, Copy, Debug, PartialEq, Eq)]
pub struct GetOutputPower;

impl GetOutputPower {
    pub fn to_bytes(&self) -> (r: Vec<u8>)
        ensures
            r@ == frame(get_output_power_id(), seq![]),
    {
        let none: [u8; 0] = [];
        frame_command(get_output_power_id_bytes(), &none)
    }

    pub open spec fn spec_parse_response(bytes: Seq<u8>) -> Result<u8, Failure> {
        match spec_validate_response(bytes, get_output_power_id(), 3) {
            Ok(v) => spec_u8_field(v),
            Err(f) => Err(f),
        }
    }

    /// Reads the digits of a framed reply; a value above 255 is outside the domain.
    pub fn parse(&self, bytes: &[u8]) -> (r: Result<u8, RigError>)
        requires
            spec_validate_response(bytes@, get_output_power_id(), 3) matches Ok(v) ==> leading_value(v) <= u8::MAX,
        ensures
            agrees(r, Self::spec_parse_response(bytes@)),
    {
        match validate_response(bytes, get_output_power_id_bytes(), 3) {
            Ok(d) => {
                proof {
                    lemma_leading_value_bound(d@);
                    lemma_pow10_values();
                }
                u8_from_ascii(d)
            },
            Err(e) => Err(e),
        }
    }
}

/// A `GetOutputPower` reply of 3 value bytes reads as the decimal number they spell; a value with a
/// byte that is not a digit is an `InvalidResponseData` error holding the value.
pub proof fn lemma_get_output_power_reply(v: Seq<u8>)
    requires
        v.len() == 3,
    ensures
        all_digits(v) && digits_value(v) <= 255 ==> GetOutputPower::spec_parse_response(frame(get_output_power_id(), v)) == Ok::<u8, Failure>(digits_value(v) as u8),
        !all_digits(v) ==> GetOutputPower::spec_parse_response(frame(get_output_power_id(), v)) == Err::<u8, Failure>(Failure::ResponseData(v)),
{
    lemma_framed_value_reads_back(get_output_power_id(), v);
}

/// `^PC`
pub open spec fn get_peak_power_control_id() -> Seq<u8> {
    seq![0x5E, 0x50, 0x43]
}

fn get_peak_power_control_id_bytes() -> (r: &'static [u8])
    ensures
        r@ == get_peak_power_control_id(),
{
    &[0x5E, 0x50, 0x43]
}

/// Get the peak-power control setting.
#[derive(Clone, Copy, Debug, PartialEq, Eq)]
pub struct GetPeakPowerControl;

impl GetPeakPowerControl {
    pub fn to_bytes(&self) -> (r: Vec<u8>)
        ensures
            r@ == frame(get_peak_power_control_id(), seq![]),
    {
        let none: [u8; 0] = [];
        frame_command(get_peak_power_control_id_bytes(), &none)
    }

    pub open spec fn spec_parse_response(bytes: Seq<u8>) -> Result<u8, Failure> {
        match spec_validate_response(bytes, get_peak_power_control_id(), 3) {
            Ok(v) => spec_u8_field(v),
            Err(f) => Err(f),
        }
    }

    /// Reads the digits of a framed reply; a value above 255 is outside the domain.
    pub fn parse(&self, bytes: &[u8]) -> (r: Result<u8, RigError>)
        requires
            spec_validate_response(bytes@, get_peak_power_control_id(), 3) matches Ok(v) ==> leading_value(v) <= u8::MAX,
        ensures
            agrees(r, Self::spec_parse_response(bytes@)),
    {
        match validate_response(bytes, get_peak_power_control_id_bytes(), 3) {
            Ok(d) => {
                proof {
                    lemma_leading_value_bound(d@);
                    lemma_pow10_values();
                }
                u8_from_ascii(d)
            },
            Err(e) => Err(e),
        }
    }
}

/// A `GetPeakPowerControl` reply of 3 value bytes reads as the decimal number they spell; a value with a
/// byte that is not a digit is an `InvalidResponseData` error holding the value.
pub proof fn lemma_get_peak_power_control_reply(v: Seq<u8>)
    requires
        v.len() == 3,
    ensures
        all_digits(v) && digits_value(v) <= 255 ==> GetPeakPowerControl::spec_parse_response(frame(get_peak_power_control_id(), v)) == Ok::<u8, Failure>(digits_value(v) as u8),
        !all_digits(v) ==> GetPeakPowerControl::spec_parse_response(frame(get_peak_power_control_id(), v)) == Err::<u8, Failure>(Failure::ResponseData(v)),
{
    lemma_framed_value_reads_back(get_peak_power_control_id(), v);
}

/// `^PC`
pub open spec fn set_peak_power_control_id() -> Seq<u8> {
    seq![0x5E, 0x50, 0x43]
}

fn set_peak_power_control_id_bytes() -> (r: &'static [u8])
    ensures
        r@ == set_peak_power_control_id(),
{
    &[0x5E, 0x50, 0x43]
}

/// Set the peak-power control setting.
#[derive(Clone, Copy, Debug, PartialEq, Eq)]
pub struct SetPeakPowerControl {
    pub percent: u8,
}

impl SetPeakPowerControl {
    /// The values the command accepts.
    pub open spec fn spec_in_range(self) -> bool {
        self.percent <= 100
    }

    /// The argument bytes.
    pub open spec fn spec_args(self) -> Seq<u8> {
        uint_args(self.percent as u32, 3)
    }

    /// The command, or `InvalidArgumentValue` for a value out of range.
    pub fn to_bytes(&self) -> (r: Result<Vec<u8>, RigError>)
        ensures
            self.spec_in_range() ==> (r matches Ok(b) && b@ == frame(set_peak_power_control_id(), self.spec_args())),
            !self.spec_in_range() ==> (r matches Err(e) && e.fails_with(
                Failure::ArgumentValue("percent"@, "u8"@, decimal_string(self.percent as int)),
            )),
    {
        encode_uint_in_range(set_peak_power_control_id_bytes(), "percent", "u8", self.percent as u32, 0, 100, 3)
    }
}

/// `SetPeakPowerControl` accepts `percent` when `s.percent <= 100` and sends it as decimal digits, zero-padded to 3.
pub proof fn lemma_set_peak_power_control_argument(s: SetPeakPowerControl)
    ensures
        s.spec_in_range() == (s.percent <= 100),
        all_digits(s.spec_args()),
        digits_value(s.spec_args()) == s.percent,
        (s.percent as nat) < pow10(3) ==> s.spec_args().len() == 3,
{
    lemma_padded_decimal_value(s.percent as nat, 3);
    if (s.percent as nat) < pow10(3) {
        lemma_num_digits_le(s.percent as nat, 3);
    }
}

/// `^PD`
pub open spec fn get_ptt_delay_id() -> Seq<u8> {
    seq![0x5E, 0x50, 0x44]
}

fn get_ptt_delay_id_bytes() -> (r: &'static [u8])
    ensures
        r@ == get_ptt_delay_id(),
{
    &[0x5E, 0x50, 0x44]
}

/// Get the PTT delay.
#[derive(Clone, Copy, Debug, PartialEq, Eq)]
pub struct GetPttDelay;

impl GetPttDelay {
    pub fn to_bytes(&self) -> (r: Vec<u8>)
        ensures
            r@ == frame(get_ptt_delay_id(), seq![]),
    {
        let none: [u8; 0] = [];
        frame_command(get_ptt_delay_id_bytes(), &none)
    }

    pub open spec fn spec_parse_response(bytes: Seq<u8>) -> Result<u16, Failure> {
        match spec_validate_response(bytes, get_ptt_delay_id(), 3) {
            Ok(v) => spec_u16_field(v),
            Err(f) => Err(f),
        }
    }

    pub fn parse(&self, bytes: &[u8]) -> (r: Result<u16, RigError>)
        ensures
            agrees(r, Self::spec_parse_response(bytes@)),
    {
        match validate_response(bytes, get_ptt_delay_id_bytes(), 3) {
            Ok(d) => {
                proof {
                    lemma_leading_value_bound(d@);
                    lemma_pow10_values();
                }
                u16_from_ascii(d)
            },
            Err(e) => Err(e),
        }
    }
}

/// A `GetPttDelay` reply of 3 value bytes reads as the decimal number they spell; a value with a
/// byte that is not a digit is an `InvalidResponseData` error holding the value.
pub proof fn lemma_get_ptt_delay_reply(v: Seq<u8>)
    requires
        v.len() == 3,
    ensures
        all_digits(v) && digits_value(v) <= u16::MAX ==> GetPttDelay::spec_parse_response(frame(get_ptt_delay_id(), v)) == Ok::<u16, Failure>(digits_value(v) as u16),
        !all_digits(v) ==> GetPttDelay::spec_parse_response(frame(get_ptt_delay_id(), v)) == Err::<u16, Failure>(Failure::ResponseData(v)),
{
    lemma_framed_value_reads_back(get_ptt_delay_id(), v);
}

/// `^PD`
pub open spec fn set_ptt_delay_id() -> Seq<u8> {
    seq![0x5E, 0x50, 0x44]
}

fn set_ptt_delay_id_bytes() -> (r: &'static [u8])
    ensures
        r@ == set_ptt_delay_id(),
{
    &[0x5E, 0x50, 0x44]
}

/// Set the PTT delay.
#[derive(Clone, Copy, Debug, PartialEq, Eq)]
pub struct SetPttDelay {
    pub ms: u16,
}

impl SetPttDelay {
    /// The values the command accepts.
    pub open spec fn spec_in_range(self) -> bool {
        self.ms <= 500
    }

    /// The argument bytes.
    pub open spec fn spec_args(self) -> Seq<u8> {
        uint_args(self.ms as u32, 3)
    }

    /// The command, or `InvalidArgumentValue` for a value out of range.
    pub fn to_bytes(&self) -> (r: Result<Vec<u8>, RigError>)
        ensures
            self.spec_in_range() ==> (r matches Ok(b) && b@ == frame(set_ptt_delay_id(), self.spec_args())),
            !self.spec_in_range() ==> (r matches Err(e) && e.fails_with(
                Failure::ArgumentValue("ms"@, "u16"@, decimal_string(self.ms as int)),
            )),
    {
        encode_uint_in_range(set_ptt_delay_id_bytes(), "ms", "u16", self.ms as u32, 0, 500, 3)
    }
}

/// `SetPttDelay` accepts `ms` when `s.ms <= 500` and sends it as decimal digits, zero-padded to 3.
pub proof fn lemma_set_ptt_delay_argument(s: SetPttDelay)
    ensures
        s.spec_in_range() == (s.ms <= 500),
        all_digits(s.spec_args()),
        digits_value(s.spec_args()) == s.ms,
        (s.ms as nat) < pow10(3) ==> s.spec_args().len() == 3,
{
    lemma_padded_decimal_value(s.ms as nat, 3);
    if (s.ms as nat) < pow10(3) {
        lemma_num_digits_le(s.ms as nat, 3);
    }
}

/// `^PF`
pub open spec fn get_protection_fault_enable_id() -> Seq<u8> {
    seq![0x5E, 0x50, 0x46]
}

fn get_protection_fault_enable_id_bytes() -> (r: &'static [u8])
    ensures
        r@ == get_protection_fault_enable_id(),
{
    &[0x5E, 0x50, 0x46]
}

/// Get whether protection-fault detection is enabled.
#[derive(Clone, Copy, Debug, PartialEq, Eq)]
pub struct GetProtectionFaultEnable;

impl GetProtectionFaultEnable {
    pub fn to_bytes(&self) -> (r: Vec<u8>)
        ensures
            r@ == frame(get_protection_fault_enable_id(), seq![]),
    {
        let none: [u8; 0] = [];
        frame_command(get_protection_fault_enable_id_bytes(), &none)
    }

    pub open spec fn spec_parse_response(bytes: Seq<u8>) -> Result<bool, Failure> {
        match spec_validate_response(bytes, get_protection_fault_enable_id(), 1) {
            Ok(v) => spec_bool_1_0(v[0]),
            Err(f) => Err(f),
        }
    }

    pub fn parse(&self, bytes: &[u8]) -> (r: Result<bool, RigError>)
        ensures
            agrees(r, Self::spec_parse_response(bytes@)),
    {
        match validate_response(bytes, get_protection_fault_enable_id_bytes(), 1) {
            Ok(d) => bool_from_ascii_1_0(d[0]),
            Err(e) => Err(e),
        }
    }
}

/// A `GetProtectionFaultEnable` reply whose value byte is `1` reads as `true`, `0` as `false`; any other byte is a
/// `ParseBoolean` error.
pub proof fn lemma_get_protection_fault_enable_reply(v: Seq<u8>)
    requires
        v.len() == 1,
    ensures
        v[0] == 0x31 ==> GetProtectionFaultEnable::spec_parse_response(frame(get_protection_fault_enable_id(), v)) == Ok::<bool, Failure>(true),
        v[0] == 0x30 ==> GetProtectionFaultEnable::spec_parse_response(frame(get_protection_fault_enable_id(), v)) == Ok::<bool, Failure>(false),
        v[0] != 0x30 && v[0] != 0x31 ==> GetProtectionFaultEnable::spec_parse_response(frame(get_protection_fault_enable_id(), v)) == Err::<bool, Failure>(Failure::Boolean(v[0])),
{
    lemma_framed_value_reads_back(get_protection_fault_enable_id(), v);
}

/// `^PF`
pub open spec fn set_protection_fault_enable_id() -> Seq<u8> {
    seq![0x5E, 0x50, 0x46]
}

fn set_protection_fault_enable_id_bytes() -> (r: &'static [u8])
    ensures
        r@ == set_protection_fault_enable_id(),
{
    &[0x5E, 0x50, 0x46]
}

/// Set whether protection-fault detection is enabled.
#[derive(Clone, Copy, Debug, PartialEq, Eq)]
pub struct SetProtectionFaultEnable {
    pub enabled: bool,
}

impl SetProtectionFaultEnable {
    pub open spec fn spec_args(self) -> Seq<u8> {
        seq![if self.enabled { ASCII_DIGIT_ONE } else { ASCII_DIGIT_ZERO }]
    }

    pub fn to_bytes(&self) -> (r: Vec<u8>)
        ensures
            r@ == frame(set_protection_fault_enable_id(), self.spec_args()),
    {
        let args: [u8; 1] = [if self.enabled { ASCII_DIGIT_ONE } else { ASCII_DIGIT_ZERO }];
        assert(args@ =~= self.spec_args());
        frame_command(set_protection_fault_enable_id_bytes(), &args)
    }
}

/// `SetProtectionFaultEnable` sends `1` when `enabled` is set and `0` when it is clear.
pub proof fn lemma_set_protection_fault_enable_argument(s: SetProtectionFaultEnable)
    ensures
        s.enabled ==> s.spec_args() == seq![0x31u8],
        !s.enabled ==> s.spec_args() == seq![0x30u8],
{
}

/// `^PI`
pub open spec fn get_power_input_id() -> Seq<u8> {
    seq![0x5E, 0x50, 0x49]
}

fn get_power_input_id_bytes() -> (r: &'static [u8])
    ensures
        r@ == get_power_input_id(),
{
    &[0x5E, 0x50, 0x49]
}

/// Get the DC supply input voltage.
#[derive(Clone, Copy, Debug, PartialEq, Eq)]
pub struct GetPowerInput;

impl GetPowerInput {
    pub fn to_bytes(&self) -> (r: Vec<u8>)
        ensures
            r@ == frame(get_power_input_id(), seq![]),
    {
        let none: [u8; 0] = [];
        frame_command(get_power_input_id_bytes(), &none)
    }

    pub open spec fn spec_parse_response(bytes: Seq<u8>) -> Result<u16, Failure> {
        match spec_validate_response(bytes, get_power_input_id(), 3) {
            Ok(v) => spec_u16_field(v),
            Err(f) => Err(f),
        }
    }

    pub fn parse(&self, bytes: &[u8]) -> (r: Result<u16, RigError>)
        ensures
            agrees(r, Self::spec_parse_response(bytes@)),
    {
        match validate_response(bytes, get_power_input_id_bytes(), 3) {
            Ok(d) => {
                proof {
                    lemma_leading_value_bound(d@);
                    lemma_pow10_values();
                }
                u16_from_ascii(d)
            },
            Err(e) => Err(e),
        }
    }
}

/// A `GetPowerInput` reply of 3 value bytes reads as the decimal number they spell; a value with a
/// byte that is not a digit is an `InvalidResponseData` error holding the value.
pub proof fn lemma_get_power_input_reply(v: Seq<u8>)
    requires
        v.len() == 3,
    ensures
        all_digits(v) && digits_value(v) <= u16::MAX ==> GetPowerInput::spec_parse_response(frame(get_power_input_id(), v)) == Ok::<u16, Failure>(digits_value(v) as u16),
        !all_digits(v) ==> GetPowerInput::spec_parse_response(frame(get_power_input_id(), v)) == Err::<u16, Failure>(Failure::ResponseData(v)),
{
    lemma_framed_value_reads_back(get_power_input_id(), v);
}

/// `^PV`
pub open spec fn get_pa_voltage_id() -> Seq<u8> {
    seq![0x5E, 0x50, 0x56]
}

fn get_pa_voltage_id_bytes() -> (r: &'static [u8])
    ensures
        r@ == get_pa_voltage_id(),
{
    &[0x5E, 0x50, 0x56]
}

/// Get the PA drain voltage.
#[derive(Clone, Copy, Debug, PartialEq, Eq)]
pub struct GetPaVoltage;

impl GetPaVoltage {
    pub fn to_bytes(&self) -> (r: Vec<u8>)
        ensures
            r@ == frame(get_pa_voltage_id(), seq![]),
    {
        let none: [u8; 0] = [];
        frame_command(get_pa_voltage_id_bytes(), &none)
    }

    pub open spec fn spec_parse_response(bytes: Seq<u8>) -> Result<u16, Failure> {
        match spec_validate_response(bytes, get_pa_voltage_id(), 3) {
            Ok(v) => spec_u16_field(v),
            Err(f) => Err(f),
        }
    }

    pub fn parse(&self, bytes: &[u8]) -> (r: Result<u16, RigError>)
        ensures
            agrees(r, Self::spec_parse_response(bytes@)),
    {
        match validate_response(bytes, get_pa_voltage_id_bytes(), 3) {
            Ok(d) => {
                proof {
                    lemma_leading_value_bound(d@);
                    lemma_pow10_values();
                }
                u16_from_ascii(d)
            },
            Err(e) => Err(e),
        }
    }
}

/// A `GetPaVoltage` reply of 3 value bytes reads as the decimal number they spell; a value with a
/// byte that is not a digit is an `InvalidResponseData` error holding the value.
pub proof fn lemma_get_pa_voltage_reply(v: Seq<u8>)
    requires
        v.len() == 3,
    ensures
        all_digits(v) && digits_value(v) <= u16::MAX ==> GetPaVoltage::spec_parse_response(frame(get_pa_voltage_id(), v)) == Ok::<u16, Failure>(digits_value(v) as u16),
        !all_digits(v) ==> GetPaVoltage::spec_parse_response(frame(get_pa_voltage_id(), v)) == Err::<u16, Failure>(Failure::ResponseData(v)),
{
    lemma_framed_value_reads_back(get_pa_voltage_id(), v);
}

/// `^RS`
pub open spec fn get_rf_sense_id() -> Seq<u8> {
    seq![0x5E, 0x52, 0x53]
}

fn get_rf_sense_id_bytes() -> (r: &'static [u8])
    ensures
        r@ == get_rf_sense_id(),
{
    &[0x5E, 0x52, 0x53]
}

/// Get the RF sense level detected at the amplifier input.
#[derive(Clone, Copy, Debug, PartialEq, Eq)]
pub struct GetRfSense;

impl GetRfSense {
    pub fn to_bytes(&self) -> (r: Vec<u8>)
        ensures
            r@ == frame(get_rf_sense_id(), seq![]),
    {
        let none: [u8; 0] = [];
        frame_command(get_rf_sense_id_bytes(), &none)
    }

    pub open spec fn spec_parse_response(bytes: Seq<u8>) -> Result<u8, Failure> {
        match spec_validate_response(bytes, get_rf_sense_id(), 3) {
            Ok(v) => spec_u8_field(v),
            Err(f) => Err(f),
        }
    }

    /// Reads the digits of a framed reply; a value above 255 is outside the domain.
    pub fn parse(&self, bytes: &[u8]) -> (r: Result<u8, RigError>)
        requires
            spec_validate_response(bytes@, get_rf_sense_id(), 3) matches Ok(v) ==> leading_value(v) <= u8::MAX,
        ensures
            agrees(r, Self::spec_parse_response(bytes@)),
    {
        match validate_response(bytes, get_rf_sense_id_bytes(), 3) {
            Ok(d) => {
                proof {
                    lemma_leading_value_bound(d@);
                    lemma_pow10_values();
                }
                u8_from_ascii(d)
            },
            Err(e) => Err(e),
        }
    }
}

/// A `GetRfSense` reply of 3 value bytes reads as the decimal number they spell; a value with a
/// byte that is not a digit is an `InvalidResponseData` error holding the value.
pub proof fn lemma_get_rf_sense_reply(v: Seq<u8>)
    requires
        v.len() == 3,
    ensures
        all_digits(v) && digits_value(v) <= 255 ==> GetRfSense::spec_parse_response(frame(get_rf_sense_id(), v)) == Ok::<u8, Failure>(digits_value(v) as u8),
        !all_digits(v) ==> GetRfSense::spec_parse_response(frame(get_rf_sense_id(), v)) == Err::<u8, Failure>(Failure::ResponseData(v)),
{
    lemma_framed_value_reads_back(get_rf_sense_id(), v);
}

/// `^RV`
pub open spec fn get_firmware_version_id() -> Seq<u8> {
    seq![0x5E, 0x52, 0x56]
}

fn get_firmware_version_id_bytes() -> (r: &'static [u8])
    ensures
        r@ == get_firmware_version_id(),
{
    &[0x5E, 0x52, 0x56]
}

/// Get the firmware version string.
#[derive(Clone, Copy, Debug, PartialEq, Eq)]
pub struct GetFirmwareVersion;

impl GetFirmwareVersion {
    pub fn to_bytes(&self) -> (r: Vec<u8>)
        ensures
            r@ == frame(get_firmware_version_id(), seq![]),
    {
        let none: [u8; 0] = [];
        frame_command(get_firmware_version_id_bytes(), &none)
    }

    /// The value bytes of a framed reply.
    pub fn parse(&self, bytes: &[u8]) -> (r: Result<Vec<u8>, RigError>)
        ensures
            match spec_validate_response(bytes@, get_firmware_version_id(), 5) {
                Ok(v) => r matches Ok(d) && d@ == v,
                Err(f) => r matches Err(e) && e.fails_with(f),
            },
    {
        match validate_response(bytes, get_firmware_version_id_bytes(), 5) {
            Ok(d) => bytes_to_vec(d),
            Err(e) => Err(e),
        }
    }
}

/// `^SI`
pub open spec fn get_swr_inhibit_threshold_id() -> Seq<u8> {
    seq![0x5E, 0x53, 0x49]
}

fn get_swr_inhibit_threshold_id_bytes() -> (r: &'static [u8])
    ensures
        r@ == get_swr_inhibit_threshold_id(),
{
    &[0x5E, 0x53, 0x49]
}

/// Get the SWR protection-inhibit threshold.
#[derive(Clone, Copy, Debug, PartialEq, Eq)]
pub struct GetSwrInhibitThreshold;

impl GetSwrInhibitThreshold {
    pub fn to_bytes(&self) -> (r: Vec<u8>)
        ensures
            r@ == frame(get_swr_inhibit_threshold_id(), seq![]),
    {
        let none: [u8; 0] = [];
        frame_command(get_swr_inhibit_threshold_id_bytes(), &none)
    }

    pub open spec fn spec_parse_response(bytes: Seq<u8>) -> Result<u8, Failure> {
        match spec_validate_response(bytes, get_swr_inhibit_threshold_id(), 2) {
            Ok(v) => spec_u8_field(v),
            Err(f) => Err(f),
        }
    }

    pub fn parse(&self, bytes: &[u8]) -> (r: Result<u8, RigError>)
        ensures
            agrees(r, Self::spec_parse_response(bytes@)),
    {
        match validate_response(bytes, get_swr_inhibit_threshold_id_bytes(), 2) {
            Ok(d) => {
                proof {
                    lemma_leading_value_bound(d@);
                    lemma_pow10_values();
                }
                u8_from_ascii(d)
            },
            Err(e) => Err(e),
        }
    }
}

/// A `GetSwrInhibitThreshold` reply of 2 value bytes reads as the decimal number they spell; a value with a
/// byte that is not a digit is an `InvalidResponseData` error holding the value.
pub proof fn lemma_get_swr_inhibit_threshold_reply(v: Seq<u8>)
    requires
        v.len() == 2,
    ensures
        all_digits(v) && digits_value(v) <= 255 ==> GetSwrInhibitThreshold::spec_parse_response(frame(get_swr_inhibit_threshold_id(), v)) == Ok::<u8, Failure>(digits_value(v) as u8),
        !all_digits(v) ==> GetSwrInhibitThreshold::spec_parse_response(frame(get_swr_inhibit_threshold_id(), v)) == Err::<u8, Failure>(Failure::ResponseData(v)),
{
    lemma_framed_value_reads_back(get_swr_inhibit_threshold_id(), v);
}

/// `^SI`
pub open spec fn set_swr_inhibit_threshold_id() -> Seq<u8> {
    seq![0x5E, 0x53, 0x49]
}

fn set_swr_inhibit_threshold_id_bytes() -> (r: &'static [u8])
    ensures
        r@ == set_swr_inhibit_threshold_id(),
{
    &[0x5E, 0x53, 0x49]
}

/// Set the SWR protection-inhibit threshold.
#[derive(Clone, Copy, Debug, PartialEq, Eq)]
pub struct SetSwrInhibitThreshold {
    pub swr_d: u8,
}

impl SetSwrInhibitThreshold {
    pub open spec fn spec_args(self) -> Seq<u8> {
        padded_decimal(self.swr_d as nat, 2)
    }

    pub fn to_bytes(&self) -> (r: Vec<u8>)
        ensures
            r@ == frame(set_swr_inhibit_threshold_id(), self.spec_args()),
    {
        let args = format_uint_ascii(self.swr_d as u64, 2);
        frame_command(set_swr_inhibit_threshold_id_bytes(), args.as_slice())
    }
}

/// `SetSwrInhibitThreshold` sends `swr_d` as decimal digits, zero-padded to 2 digits when it fits in 2.
pub proof fn lemma_set_swr_inhibit_threshold_argument(s: SetSwrInhibitThreshold)
    ensures
        all_digits(s.spec_args()),
        digits_value(s.spec_args()) == s.swr_d,
        (s.swr_d as nat) < pow10(2) ==> s.spec_args().len() == 2,
        s.spec_args().len() >= 2,
{
    lemma_padded_decimal_value(s.swr_d as nat, 2);
    if (s.swr_d as nat) < pow10(2) {
        lemma_num_digits_le(s.swr_d as nat, 2);
    }
}

/// `^SM`
pub open spec fn get_swr_meter_id() -> Seq<u8> {
    seq![0x5E, 0x53, 0x4D]
}

fn get_swr_meter_id_bytes() -> (r: &'static [u8])
    ensures
        r@ == get_swr_meter_id(),
{
    &[0x5E, 0x53, 0x4D]
}

/// Get the current SWR reading.
#[derive(Clone, Copy, Debug, PartialEq, Eq)]
pub struct GetSwrMeter;

impl GetSwrMeter {
    pub fn to_bytes(&self) -> (r: Vec<u8>)
        ensures
            r@ == frame(get_swr_meter_id(), seq![]),
    {
        let none: [u8; 0] = [];
        frame_command(get_swr_meter_id_bytes(), &none)
    }

    pub open spec fn spec_parse_response(bytes: Seq<u8>) -> Result<u8, Failure> {
        match spec_validate_response(bytes, get_swr_meter_id(), 2) {
            Ok(v) => spec_u8_field(v),
            Err(f) => Err(f),
        }
    }

    pub fn parse(&self, bytes: &[u8]) -> (r: Result<u8, RigError>)
        ensures
            agrees(r, Self::spec_parse_response(bytes@)),
    {
        match validate_response(bytes, get_swr_meter_id_bytes(), 2) {
            Ok(d) => {
                proof {
                    lemma_leading_value_bound(d@);
                    lemma_pow10_values();
                }
                u8_from_ascii(d)
            },
            Err(e) => Err(e),
        }
    }
}

/// A `GetSwrMeter` reply of 2 value bytes reads as the decimal number they spell; a value with a
/// byte that is not a digit is an `InvalidResponseData` error holding the value.
pub proof fn lemma_get_swr_meter_reply(v: Seq<u8>)
    requires
        v.len() == 2,
    ensures
        all_digits(v) && digits_value(v) <= 255 ==> GetSwrMeter::spec_parse_response(frame(get_swr_meter_id(), v)) == Ok::<u8, Failure>(digits_value(v) as u8),
        !all_digits(v) ==> GetSwrMeter::spec_parse_response(frame(get_swr_meter_id(), v)) == Err::<u8, Failure>(Failure::ResponseData(v)),
{
    lemma_framed_value_reads_back(get_swr_meter_id(), v);
}

/// `^SN`
pub open spec fn get_serial_number_id() -> Seq<u8> {
    seq![0x5E, 0x53, 0x4E]
}

fn get_serial_number_id_bytes() -> (r: &'static [u8])
    ensures
        r@ == get_serial_number_id(),
{
    &[0x5E, 0x53, 0x4E]
}

/// Get the amplifier serial number.
#[derive(Clone, Copy, Debug, PartialEq, Eq)]
pub struct GetSerialNumber;

impl GetSerialNumber {
    pub fn to_bytes(&self) -> (r: Vec<u8>)
        ensures
            r@ == frame(get_serial_number_id(), seq![]),
    {
        let none: [u8; 0] = [];
        frame_command(get_serial_number_id_bytes(), &none)
    }

    pub open spec fn spec_parse_response(bytes: Seq<u8>) -> Result<u32, Failure> {
        match spec_validate_response(bytes, get_serial_number_id(), 5) {
            Ok(v) => spec_u32_field(v),
            Err(f) => Err(f),
        }
    }

    pub fn parse(&self, bytes: &[u8]) -> (r: Result<u32, RigError>)
        ensures
            agrees(r, Self::spec_parse_response(bytes@)),
    {
        match validate_response(bytes, get_serial_number_id_bytes(), 5) {
            Ok(d) => {
                proof {
                    lemma_leading_value_bound(d@);
                    lemma_pow10_values();
                }
                u32_from_ascii(d)
            },
            Err(e) => Err(e),
        }
    }
}

/// A `GetSerialNumber` reply of 5 value bytes reads as the decimal number they spell; a value with a
/// byte that is not a digit is an `InvalidResponseData` error holding the value.
pub proof fn lemma_get_serial_number_reply(v: Seq<u8>)
    requires
        v.len() == 5,
    ensures
        all_digits(v) && digits_value(v) <= u32::MAX ==> GetSerialNumber::spec_parse_response(frame(get_serial_number_id(), v)) == Ok::<u32, Failure>(digits_value(v) as u32),
        !all_digits(v) ==> GetSerialNumber::spec_parse_response(frame(get_serial_number_id(), v)) == Err::<u32, Failure>(Failure::ResponseData(v)),
{
    lemma_framed_value_reads_back(get_serial_number_id(), v);
}

/// `^SV`
pub open spec fn get_supply_voltage_id() -> Seq<u8> {
    seq![0x5E, 0x53, 0x56]
}

fn get_supply_voltage_id_bytes() -> (r: &'static [u8])
    ensures
        r@ == get_supply_voltage_id(),
{
    &[0x5E, 0x53, 0x56]
}

/// Get the DC supply voltage.
#[derive(Clone, Copy, Debug, PartialEq, Eq)]
pub struct GetSupplyVoltage;

impl GetSupplyVoltage {
    pub fn to_bytes(&self) -> (r: Vec<u8>)
        ensures
            r@ == frame(get_supply_voltage_id(), seq![]),
    {
        let none: [u8; 0] = [];
        frame_command(get_supply_voltage_id_bytes(), &none)
    }

    pub open spec fn spec_parse_response(bytes: Seq<u8>) -> Result<u16, Failure> {
        match spec_validate_response(bytes, get_supply_voltage_id(), 3) {
            Ok(v) => spec_u16_field(v),
            Err(f) => Err(f),
        }
    }

    pub fn parse(&self, bytes: &[u8]) -> (r: Result<u16, RigError>)
        ensures
            agrees(r, Self::spec_parse_response(bytes@)),
    {
        match validate_response(bytes, get_supply_voltage_id_bytes(), 3) {
            Ok(d) => {
                proof {
                    lemma_leading_value_bound(d@);
                    lemma_pow10_values();
                }
                u16_from_ascii(d)
            },
            Err(e) => Err(e),
        }
    }
}

/// A `GetSupplyVoltage` reply of 3 value bytes reads as the decimal number they spell; a value with a
/// byte that is not a digit is an `InvalidResponseData` error holding the value.
pub proof fn lemma_get_supply_voltage_reply(v: Seq<u8>)
    requires
        v.len() == 3,
    ensures
        all_digits(v) && digits_value(v) <= u16::MAX ==> GetSupplyVoltage::spec_parse_response(frame(get_supply_voltage_id(), v)) == Ok::<u16, Failure>(digits_value(v) as u16),
        !all_digits(v) ==> GetSupplyVoltage::spec_parse_response(frame(get_supply_voltage_id(), v)) == Err::<u16, Failure>(Failure::ResponseData(v)),
{
    lemma_framed_value_reads_back(get_supply_voltage_id(), v);
}

/// `^SW`
pub open spec fn get_swr_fault_enable_id() -> Seq<u8> {
    seq![0x5E, 0x53, 0x57]
}

fn get_swr_fault_enable_id_bytes() -> (r: &'static [u8])
    ensures
        r@ == get_swr_fault_enable_id(),
{
    &[0x5E, 0x53, 0x57]
}

/// Get whether SWR fault protection is enabled.
#[derive(Clone, Copy, Debug, PartialEq, Eq)]
pub struct GetSwrFaultEnable;

impl GetSwrFaultEnable {
    pub fn to_bytes(&self) -> (r: Vec<u8>)
        ensures
            r@ == frame(get_swr_fault_enable_id(), seq![]),
    {
        let none: [u8; 0] = [];
        frame_command(get_swr_fault_enable_id_bytes(), &none)
    }

    pub open spec fn spec_parse_response(bytes: Seq<u8>) -> Result<bool, Failure> {
        match spec_validate_response(bytes, get_swr_fault_enable_id(), 1) {
            Ok(v) => spec_bool_1_0(v[0]),
            Err(f) => Err(f),
        }
    }

    pub fn parse(&self, bytes: &[u8]) -> (r: Result<bool, RigError>)
        ensures
            agrees(r, Self::spec_parse_response(bytes@)),
    {
        match validate_response(bytes, get_swr_fault_enable_id_bytes(), 1) {
            Ok(d) => bool_from_ascii_1_0(d[0]),
            Err(e) => Err(e),
        }
    }
}

/// A `GetSwrFaultEnable` reply whose value byte is `1` reads as `true`, `0` as `false`; any other byte is a
/// `ParseBoolean` error.
pub proof fn lemma_get_swr_fault_enable_reply(v: Seq<u8>)
    requires
        v.len() == 1,
    ensures
        v[0] == 0x31 ==> GetSwrFaultEnable::spec_parse_response(frame(get_swr_fault_enable_id(), v)) == Ok::<bool, Failure>(true),
        v[0] == 0x30 ==> GetSwrFaultEnable::spec_parse_response(frame(get_swr_fault_enable_id(), v)) == Ok::<bool, Failure>(false),
        v[0] != 0x30 && v[0] != 0x31 ==> GetSwrFaultEnable::spec_parse_response(frame(get_swr_fault_enable_id(), v)) == Err::<bool, Failure>(Failure::Boolean(v[0])),
{
    lemma_framed_value_reads_back(get_swr_fault_enable_id(), v);
}

/// `^SW`
pub open spec fn set_swr_fault_enable_id() -> Seq<u8> {
    seq![0x5E, 0x53, 0x57]
}

fn set_swr_fault_enable_id_bytes() -> (r: &'static [u8])
    ensures
        r@ == set_swr_fault_enable_id(),
{
    &[0x5E, 0x53, 0x57]
}

/// Set whether SWR fault protection is enabled.
#[derive(Clone, Copy, Debug, PartialEq, Eq)]
pub struct SetSwrFaultEnable {
    pub enabled: bool,
}

impl SetSwrFaultEnable {
    pub open spec fn spec_args(self) -> Seq<u8> {
        seq![if self.enabled { ASCII_DIGIT_ONE } else { ASCII_DIGIT_ZERO }]
    }

    pub fn to_bytes(&self) -> (r: Vec<u8>)
        ensures
            r@ == frame(set_swr_fault_enable_id(), self.spec_args()),
    {
        let args: [u8; 1] = [if self.enabled { ASCII_DIGIT_ONE } else { ASCII_DIGIT_ZERO }];
        assert(args@ =~= self.spec_args());
        frame_command(set_swr_fault_enable_id_bytes(), &args)
    }
}

/// `SetSwrFaultEnable` sends `1` when `enabled` is set and `0` when it is clear.
pub proof fn lemma_set_swr_fault_enable_argument(s: SetSwrFaultEnable)
    ensures
        s.enabled ==> s.spec_args() == seq![0x31u8],
        !s.enabled ==> s.spec_args() == seq![0x30u8],
{
}

/// `^TM`
pub open spec fn get_pa_temperature_id() -> Seq<u8> {
    seq![0x5E, 0x54, 0x4D]
}

fn get_pa_temperature_id_bytes() -> (r: &'static [u8])
    ensures
        r@ == get_pa_temperature_id(),
{
    &[0x5E, 0x54, 0x4D]
}

/// Get the PA heatsink temperature.
#[derive(Clone, Copy, Debug, PartialEq, Eq)]
pub struct GetPaTemperature;

impl GetPaTemperature {
    pub fn to_bytes(&self) -> (r: Vec<u8>)
        ensures
            r@ == frame(get_pa_temperature_id(), seq![]),
    {
        let none: [u8; 0] = [];
        frame_command(get_pa_temperature_id_bytes(), &none)
    }

    pub open spec fn spec_parse_response(bytes: Seq<u8>) -> Result<u8, Failure> {
        match spec_validate_response(bytes, get_pa_temperature_id(), 3) {
            Ok(v) => spec_u8_field(v),
            Err(f) => Err(f),
        }
    }

    /// Reads the digits of a framed reply; a value above 255 is outside the domain.
    pub fn parse(&self, bytes: &[u8]) -> (r: Result<u8, RigError>)
        requires
            spec_validate_response(bytes@, get_pa_temperature_id(), 3) matches Ok(v) ==> leading_value(v) <= u8::MAX,
        ensures
            agrees(r, Self::spec_parse_response(bytes@)),
    {
        match validate_response(bytes, get_pa_temperature_id_bytes(), 3) {
            Ok(d) => {
                proof {
                    lemma_leading_value_bound(d@);
                    lemma_pow10_values();
                }
                u8_from_ascii(d)
            },
            Err(e) => Err(e),
        }
    }
}

/// A `GetPaTemperature` reply of 3 value bytes reads as the decimal number they spell; a value with a
/// byte that is not a digit is an `InvalidResponseData` error holding the value.
pub proof fn lemma_get_pa_temperature_reply(v: Seq<u8>)
    requires
        v.len() == 3,
    ensures
        all_digits(v) && digits_value(v) <= 255 ==> GetPaTemperature::spec_parse_response(frame(get_pa_temperature_id(), v)) == Ok::<u8, Failure>(digits_value(v) as u8),
        !all_digits(v) ==> GetPaTemperature::spec_parse_response(frame(get_pa_temperature_id(), v)) == Err::<u8, Failure>(Failure::ResponseData(v)),
{
    lemma_framed_value_reads_back(get_pa_temperature_id(), v);
}

/// `^TP`
pub open spec fn get_tune_power_id() -> Seq<u8> {
    seq![0x5E, 0x54, 0x50]
}

fn get_tune_power_id_bytes() -> (r: &'static [u8])
    ensures
        r@ == get_tune_power_id(),
{
    &[0x5E, 0x54, 0x50]
}

/// Get the RF power level used during an ATU tune cycle.
#[derive(Clone, Copy, Debug, PartialEq, Eq)]
pub struct GetTunePower;

impl GetTunePower {
    pub fn to_bytes(&self) -> (r: Vec<u8>)
        ensures
            r@ == frame(get_tune_power_id(), seq![]),
    {
        let none: [u8; 0] = [];
        frame_command(get_tune_power_id_bytes(), &none)
    }

    pub open spec fn spec_parse_response(bytes: Seq<u8>) -> Result<u8, Failure> {
        match spec_validate_response(bytes, get_tune_power_id(), 3) {
            Ok(v) => spec_u8_field(v),
            Err(f) => Err(f),
        }
    }

    /// Reads the digits of a framed reply; a value above 255 is outside the domain.
    pub fn parse(&self, bytes: &[u8]) -> (r: Result<u8, RigError>)
        requires
            spec_validate_response(bytes@, get_tune_power_id(), 3) matches Ok(v) ==> leading_value(v) <= u8::MAX,
        ensures
            agrees(r, Self::spec_parse_response(bytes@)),
    {
        match validate_response(bytes, get_tune_power_id_bytes(), 3) {
            Ok(d) => {
                proof {
                    lemma_leading_value_bound(d@);
                    lemma_pow10_values();
                }
                u8_from_ascii(d)
            },
            Err(e) => Err(e),
        }
    }
}

/// A `GetTunePower` reply of 3 value bytes reads as the decimal number they spell; a value with a
/// byte that is not a digit is an `InvalidResponseData` error holding the value.
pub proof fn lemma_get_tune_power_reply(v: Seq<u8>)
    requires
        v.len() == 3,
    ensures
        all_digits(v) && digits_value(v) <= 255 ==> GetTunePower::spec_parse_response(frame(get_tune_power_id(), v)) == Ok::<u8, Failure>(digits_value(v) as u8),
        !all_digits(v) ==> GetTunePower::spec_parse_response(frame(get_tune_power_id(), v)) == Err::<u8, Failure>(Failure::ResponseData(v)),
{
    lemma_framed_value_reads_back(get_tune_power_id(), v);
}

/// `^TP`
pub open spec fn set_tune_power_id() -> Seq<u8> {
    seq![0x5E, 0x54, 0x50]
}

fn set_tune_power_id_bytes() -> (r: &'static [u8])
    ensures
        r@ == set_tune_power_id(),
{
    &[0x5E, 0x54, 0x50]
}

/// Set the RF power level used during an ATU tune cycle.
#[derive(Clone, Copy, Debug, PartialEq, Eq)]
pub struct SetTunePower {
    pub watts: u8,
}

impl SetTunePower {
    pub open spec fn spec_args(self) -> Seq<u8> {
        padded_decimal(self.watts as nat, 3)
    }

    pub fn to_bytes(&self) -> (r: Vec<u8>)
        ensures
            r@ == frame(set_tune_power_id(), self.spec_args()),
    {
        let args = format_uint_ascii(self.watts as u64, 3);
        frame_command(set_tune_power_id_bytes(), args.as_slice())
    }
}

/// `SetTunePower` sends `watts` as decimal digits, zero-padded to 3 digits when it fits in 3.
pub proof fn lemma_set_tune_power_argument(s: SetTunePower)
    ensures
        all_digits(s.spec_args()),
        digits_value(s.spec_args()) == s.watts,
        (s.watts as nat) < pow10(3) ==> s.spec_args().len() == 3,
        s.spec_args().len() >= 3,
{
    lemma_padded_decimal_value(s.watts as nat, 3);
    if (s.watts as nat) < pow10(3) {
        lemma_num_digits_le(s.watts as nat, 3);
    }
}

/// `^TU`
pub open spec fn initiate_tune_id() -> Seq<u8> {
    seq![0x5E, 0x54, 0x55]
}

fn initiate_tune_id_bytes() -> (r: &'static [u8])
    ensures
        r@ == initiate_tune_id(),
{
    &[0x5E, 0x54, 0x55]
}

/// Initiate an ATU tune cycle.
#[derive(Clone, Copy, Debug, PartialEq, Eq)]
pub struct InitiateTune;

impl InitiateTune {
    pub fn to_bytes(&self) -> (r: Vec<u8>)
        ensures
            r@ == frame(initiate_tune_id(), seq![]),
    {
        let none: [u8; 0] = [];
        frame_command(initiate_tune_id_bytes(), &none)
    }
}

/// `^XP`
pub open spec fn get_transceiver_power_level_id() -> Seq<u8> {
    seq![0x5E, 0x58, 0x50]
}

fn get_transceiver_power_level_id_bytes() -> (r: &'static [u8])
    ensures
        r@ == get_transceiver_power_level_id(),
{
    &[0x5E, 0x58, 0x50]
}

/// Get the transceiver drive power level detected by the amplifier.
#[derive(Clone, Copy, Debug, PartialEq, Eq)]
pub struct GetTransceiverPowerLevel;

impl GetTransceiverPowerLevel {
    pub fn to_bytes(&self) -> (r: Vec<u8>)
        ensures
            r@ == frame(get_transceiver_power_level_id(), seq![]),
    {
        let none: [u8; 0] = [];
        frame_command(get_transceiver_power_level_id_bytes(), &none)
    }

    pub open spec fn spec_parse_response(bytes: Seq<u8>) -> Result<u8, Failure> {
        match spec_validate_response(bytes, get_transceiver_power_level_id(), 3) {
            Ok(v) => spec_u8_field(v),
            Err(f) => Err(f),
        }
    }

    /// Reads the digits of a framed reply; a value above 255 is outside the domain.
    pub fn parse(&self, bytes: &[u8]) -> (r: Result<u8, RigError>)
        requires
            spec_validate_response(bytes@, get_transceiver_power_level_id(), 3) matches Ok(v) ==> leading_value(v) <= u8::MAX,
        ensures
            agrees(r, Self::spec_parse_response(bytes@)),
    {
        match validate_response(bytes, get_transceiver_power_level_id_bytes(), 3) {
            Ok(d) => {
                proof {
                    lemma_leading_value_bound(d@);
                    lemma_pow10_values();
                }
                u8_from_ascii(d)
            },
            Err(e) => Err(e),
        }
    }
}

/// A `GetTransceiverPowerLevel` reply of 3 value bytes reads as the decimal number they spell; a value with a
/// byte that is not a digit is an `InvalidResponseData` error holding the value.
pub proof fn lemma_get_transceiver_power_level_reply(v: Seq<u8>)
    requires
        v.len() == 3,
    ensures
        all_digits(v) && digits_value(v) <= 255 ==> GetTransceiverPowerLevel::spec_parse_response(frame(get_transceiver_power_level_id(), v)) == Ok::<u8, Failure>(digits_value(v) as u8),
        !all_digits(v) ==> GetTransceiverPowerLevel::spec_parse_response(frame(get_transceiver_power_level_id(), v)) == Err::<u8, Failure>(Failure::ResponseData(v)),
{
    lemma_framed_value_reads_back(get_transceiver_power_level_id(), v);
}

/// `^AD`
pub open spec fn get_adc_readings_id() -> Seq<u8> {
    seq![0x5E, 0x41, 0x44]
}

fn get_adc_readings_id_bytes() -> (r: &'static [u8])
    ensures
        r@ == get_adc_readings_id(),
{
    &[0x5E, 0x41, 0x44]
}

/// The drain voltage and current and the supply voltage, in tenths.
#[derive(Clone, Copy, Debug, PartialEq, Eq)]
pub struct AdcReadings {
    pub drain_voltage_dv: u16,
    pub drain_current_da: u16,
    pub supply_voltage_dv: u16,
}

/// What a `^AD` reply value gives, its fields read in order.
pub open spec fn spec_adc_readings(v: Seq<u8>) -> Result<AdcReadings, Failure> {
    match spec_u16_field(v.subrange(0, 3)) {
        Err(f) => Err(f),
        Ok(drain_voltage_dv) => {
            match spec_u16_field(v.subrange(4, 7)) {
                Err(f) => Err(f),
                Ok(drain_current_da) => {
                    match spec_u16_field(v.subrange(8, 11)) {
                        Err(f) => Err(f),
                        Ok(supply_voltage_dv) => {
                            Ok(AdcReadings { drain_voltage_dv, drain_current_da, supply_voltage_dv })
                        },
                    }
                },
            }
        },
    }
}

/// Each field of the reply value comes from its fixed position, read as a decimal number or a
/// `1`/`0` flag: `drain_voltage_dv` from bytes 0 to 2, `drain_current_da` from bytes 4 to 6, `supply_voltage_dv` from bytes 8 to 10; when every number field is digits that fit, the value reads.
pub proof fn lemma_adc_readings_positions(v: Seq<u8>)
    requires
        v.len() >= 11,
    ensures
        spec_adc_readings(v) matches Ok(r) ==> (r.drain_voltage_dv == digits_value(v.subrange(0, 3)) && r.drain_current_da == digits_value(v.subrange(4, 7)) && r.supply_voltage_dv == digits_value(v.subrange(8, 11))),
        (all_digits(v.subrange(0, 3)) && digits_value(v.subrange(0, 3)) <= u16::MAX && all_digits(v.subrange(4, 7)) && digits_value(v.subrange(4, 7)) <= u16::MAX && all_digits(v.subrange(8, 11)) && digits_value(v.subrange(8, 11)) <= u16::MAX) ==> spec_adc_readings(v) is Ok,
{
}

/// Get the ADC readings: `^AD;`, answered by `^AD{vvv} {iii} {sss};`.
#[derive(Clone, Copy, Debug, PartialEq, Eq)]
pub struct GetAdcReadings;

impl GetAdcReadings {
    pub fn to_bytes(&self) -> (r: Vec<u8>)
        ensures
            r@ == frame(get_adc_readings_id(), seq![]),
    {
        let none: [u8; 0] = [];
        frame_command(get_adc_readings_id_bytes(), &none)
    }

    pub open spec fn spec_parse_response(bytes: Seq<u8>) -> Result<AdcReadings, Failure> {
        match spec_validate_response(bytes, get_adc_readings_id(), 11) {
            Ok(v) => spec_adc_readings(v),
            Err(f) => Err(f),
        }
    }

    pub fn parse(&self, bytes: &[u8]) -> (r: Result<AdcReadings, RigError>)
        ensures
            agrees(r, Self::spec_parse_response(bytes@)),
    {
        let d = match validate_response(bytes, get_adc_readings_id_bytes(), 11) {
            Ok(d) => d,
            Err(e) => return Err(e),
        };
        let drain_voltage_dv_digits = &d[0..3];
        proof {
            lemma_leading_value_bound(drain_voltage_dv_digits@);
            lemma_pow10_values();
        }
        let drain_voltage_dv = match u16_from_ascii(drain_voltage_dv_digits) {
            Ok(x) => x,
            Err(e) => return Err(e),
        };
        let drain_current_da_digits = &d[4..7];
        proof {
            lemma_leading_value_bound(drain_current_da_digits@);
            lemma_pow10_values();
        }
        let drain_current_da = match u16_from_ascii(drain_current_da_digits) {
            Ok(x) => x,
            Err(e) => return Err(e),
        };
        let supply_voltage_dv_digits = &d[8..11];
        proof {
            lemma_leading_value_bound(supply_voltage_dv_digits@);
            lemma_pow10_values();
        }
        let supply_voltage_dv = match u16_from_ascii(supply_voltage_dv_digits) {
            Ok(x) => x,
            Err(e) => return Err(e),
        };
        Ok(AdcReadings { drain_voltage_dv, drain_current_da, supply_voltage_dv })
    }
}

/// `^BY`
pub open spec fn get_busy_status_id() -> Seq<u8> {
    seq![0x5E, 0x42, 0x59]
}

fn get_busy_status_id_bytes() -> (r: &'static [u8])
    ensures
        r@ == get_busy_status_id(),
{
    &[0x5E, 0x42, 0x59]
}

/// Whether the amplifier is busy and whether PTT is asserted.
#[derive(Clone, Copy, Debug, PartialEq, Eq)]
pub struct BusyStatus {
    pub busy: bool,
    pub ptt_asserted: bool,
}

/// What a `^BY` reply value gives, its fields read in order.
pub open spec fn spec_busy_status(v: Seq<u8>) -> Result<BusyStatus, Failure> {
    Ok(BusyStatus { busy: v[0] == ASCII_DIGIT_ONE, ptt_asserted: v[1] == ASCII_DIGIT_ONE })
}

/// Each field of the reply value comes from its fixed position, read as a decimal number or a
/// `1`/`0` flag: `busy` from byte 0, `ptt_asserted` from byte 1; when every number field is digits that fit, the value reads.
pub proof fn lemma_busy_status_positions(v: Seq<u8>)
    requires
        v.len() >= 2,
    ensures
        spec_busy_status(v) matches Ok(r) ==> (r.busy == (v[0] == 0x31) && r.ptt_asserted == (v[1] == 0x31)),
        (true) ==> spec_busy_status(v) is Ok,
{
}

/// Get the busy status: `^BY;`, answered by two flag digits.
#[derive(Clone, Copy, Debug, PartialEq, Eq)]
pub struct GetBusyStatus;

impl GetBusyStatus {
    pub fn to_bytes(&self) -> (r: Vec<u8>)
        ensures
            r@ == frame(get_busy_status_id(), seq![]),
    {
        let none: [u8; 0] = [];
        frame_command(get_busy_status_id_bytes(), &none)
    }

    pub open spec fn spec_parse_response(bytes: Seq<u8>) -> Result<BusyStatus, Failure> {
        match spec_validate_response(bytes, get_busy_status_id(), 2) {
            Ok(v) => spec_busy_status(v),
            Err(f) => Err(f),
        }
    }

    pub fn parse(&self, bytes: &[u8]) -> (r: Result<BusyStatus, RigError>)
        ensures
            agrees(r, Self::spec_parse_response(bytes@)),
    {
        let d = match validate_response(bytes, get_busy_status_id_bytes(), 2) {
            Ok(d) => d,
            Err(e) => return Err(e),
        };
        let busy = d[0] == ASCII_DIGIT_ONE;
        let ptt_asserted = d[1] == ASCII_DIGIT_ONE;
        Ok(BusyStatus { busy, ptt_asserted })
    }
}

/// `^XI`
pub open spec fn set_radio_interface_id() -> Seq<u8> {
    seq![0x5E, 0x58, 0x49]
}

fn set_radio_interface_id_bytes() -> (r: &'static [u8])
    ensures
        r@ == set_radio_interface_id(),
{
    &[0x5E, 0x58, 0x49]
}

/// Set the radio interface: `^XI{tt}{o};`, with the type at most 3 and the option 0 or 1.
#[derive(Clone, Copy, Debug, PartialEq, Eq)]
pub struct SetRadioInterface {
    pub interface_type: u8,
    pub option: u8,
}

impl SetRadioInterface {
    /// The argument: the type in two digits, then the option digit.
    pub open spec fn spec_args(self) -> Seq<u8> {
        padded_decimal(self.interface_type as nat, 2).push((ASCII_DIGIT_ZERO + self.option) as u8)
    }

    /// The command; a type above 3, then an option above 1, is `InvalidArgumentValue`.
    pub fn to_bytes(&self) -> (r: Result<Vec<u8>, RigError>)
        ensures
            self.interface_type > 3 ==> (r matches Err(e) && e.fails_with(
                Failure::ArgumentValue("interface_type"@, "u8"@, decimal_string(self.interface_type as int)),
            )),
            self.interface_type <= 3 && self.option > 1 ==> (r matches Err(e) && e.fails_with(
                Failure::ArgumentValue("option"@, "u8"@, decimal_string(self.option as int)),
            )),
            self.interface_type <= 3 && self.option <= 1 ==> (r matches Ok(b) && b@ == frame(set_radio_interface_id(), self.spec_args())),
    {
        match validate_integer_in_range("interface_type", "u8", self.interface_type as i64, 0, 3) {
            Ok(()) => {},
            Err(e) => return Err(e),
        }
        match validate_integer_in_range("option", "u8", self.option as i64, 0, 1) {
            Ok(()) => {},
            Err(e) => return Err(e),
        }
        let mut v = format_uint_ascii(self.interface_type as u64, 2);
        v.push(ASCII_DIGIT_ZERO + self.option);
        Ok(frame_command(set_radio_interface_id_bytes(), v.as_slice()))
    }
}

/// `^XI`
pub open spec fn get_radio_interface_id() -> Seq<u8> {
    seq![0x5E, 0x58, 0x49]
}

fn get_radio_interface_id_bytes() -> (r: &'static [u8])
    ensures
        r@ == get_radio_interface_id(),
{
    &[0x5E, 0x58, 0x49]
}

/// The radio interface type.
#[derive(Clone, Copy, Debug, PartialEq, Eq, Hash)]
pub enum RadioInterfaceType {
    /// K3; `0`.
    K3,
    /// BCD; `1`.
    Bcd,
    /// Analog; `2`.
    Analog,
    /// Serial; `3`.
    Serial,
}

impl RadioInterfaceType {
    /// The type that a number stands for.
    pub open spec fn spec_from_number(n: u8) -> Option<RadioInterfaceType> {
        if n == 0 {
            Some(RadioInterfaceType::K3)
        } else if n == 1 {
            Some(RadioInterfaceType::Bcd)
        } else if n == 2 {
            Some(RadioInterfaceType::Analog)
        } else if n == 3 {
            Some(RadioInterfaceType::Serial)
        } else {
            None
        }
    }

    /// The type that a number stands for.
    pub fn from_repr(n: u8) -> (r: Option<RadioInterfaceType>)
        ensures
            r == Self::spec_from_number(n),
    {
        if n == 0 {
            Some(RadioInterfaceType::K3)
        } else if n == 1 {
            Some(RadioInterfaceType::Bcd)
        } else if n == 2 {
            Some(RadioInterfaceType::Analog)
        } else if n == 3 {
            Some(RadioInterfaceType::Serial)
        } else {
            None
        }
    }
}

/// The radio interface types by number: `0` K3, `1` BCD, `2` analog, `3` serial; no other number
/// names a type.
pub proof fn lemma_radio_interface_type_numbers(n: u8)
    ensures
        RadioInterfaceType::spec_from_number(0) == Some(RadioInterfaceType::K3),
        RadioInterfaceType::spec_from_number(1) == Some(RadioInterfaceType::Bcd),
        RadioInterfaceType::spec_from_number(2) == Some(RadioInterfaceType::Analog),
        RadioInterfaceType::spec_from_number(3) == Some(RadioInterfaceType::Serial),
        n > 3 ==> RadioInterfaceType::spec_from_number(n) is None,
{
}

/// The radio interface type and option bit.
#[derive(Clone, Copy, Debug, PartialEq, Eq)]
pub struct RadioInterface {
    pub interface_type: RadioInterfaceType,
    /// The option bit; its meaning depends on the interface type.
    pub option: u8,
}

/// What a `^XI` reply value gives: the two-digit type (an unknown one is `ParseEnum` showing the
/// value bytes in hex), then the option digit.
pub open spec fn spec_radio_interface(v: Seq<u8>) -> Result<RadioInterface, Failure> {
    match spec_u8_field(v.subrange(0, 2)) {
        Err(f) => Err(f),
        Ok(n) => match RadioInterfaceType::spec_from_number(n) {
            None => Err(Failure::Enum("RadioInterfaceType"@, hex_debug(v))),
            Some(interface_type) => match spec_u8_field(v.subrange(2, 3)) {
                Err(f) => Err(f),
                Ok(option) => Ok(RadioInterface { interface_type, option }),
            },
        },
    }
}

/// Get the radio interface: `^XI;`, answered by `^XI{tt}{o};`.
#[derive(Clone, Copy, Debug, PartialEq, Eq)]
pub struct GetRadioInterface;

impl GetRadioInterface {
    pub fn to_bytes(&self) -> (r: Vec<u8>)
        ensures
            r@ == frame(get_radio_interface_id(), seq![]),
    {
        let none: [u8; 0] = [];
        frame_command(get_radio_interface_id_bytes(), &none)
    }

    pub open spec fn spec_parse_response(bytes: Seq<u8>) -> Result<RadioInterface, Failure> {
        match spec_validate_response(bytes, get_radio_interface_id(), 3) {
            Ok(v) => spec_radio_interface(v),
            Err(f) => Err(f),
        }
    }

    pub fn parse(&self, bytes: &[u8]) -> (r: Result<RadioInterface, RigError>)
        ensures
            agrees(r, Self::spec_parse_response(bytes@)),
    {
        let d = match validate_response(bytes, get_radio_interface_id_bytes(), 3) {
            Ok(d) => d,
            Err(e) => return Err(e),
        };
        let type_digits = &d[0..2];
        let option_digit = &d[2..3];
        proof {
            lemma_leading_value_bound(type_digits@);
            lemma_leading_value_bound(option_digit@);
            lemma_pow10_values();
        }
        let n = match u8_from_ascii(type_digits) {
            Ok(x) => x,
            Err(e) => return Err(e),
        };
        let interface_type = match RadioInterfaceType::from_repr(n) {
            Some(t) => t,
            None => return Err(enum_parse(hex_debug_string(d), "RadioInterfaceType")),
        };
        let option = match u8_from_ascii(option_digit) {
            Ok(x) => x,
            Err(e) => return Err(e),
        };
        Ok(RadioInterface { interface_type, option })
    }
}

// ------------------------------------------------------------------------------------------------
// Reading back what was set
// ------------------------------------------------------------------------------------------------

/// The reply that echoes a `SetAutoBiasEnable` command reads as the state that was set.
pub proof fn lemma_auto_bias_enable_round_trip(state: bool)
    ensures
        GetAutoBiasEnable::spec_parse_response(frame(set_auto_bias_enable_id(), (SetAutoBiasEnable { enabled: state }).spec_args()))
            == Ok::<bool, Failure>(state),
{
    let args = (SetAutoBiasEnable { enabled: state }).spec_args();
    let bytes = frame(set_auto_bias_enable_id(), args);
    assert(bytes.take(3) =~= get_auto_bias_enable_id());
    assert(response_value(bytes, get_auto_bias_enable_id()) =~= args);
}

/// A value set with `SetAntennaSelection` reads back unchanged from the echoed reply.
pub proof fn lemma_antenna_selection_round_trip(value: u8)
    requires
        value < 10,
        1 <= value,
        value <= 2,
    ensures
        GetAntennaSelection::spec_parse_response(frame(set_antenna_selection_id(), uint_args(value as u32, 1))) == Ok::<u8, Failure>(value),
{
    let args = uint_args(value as u32, 1);
    lemma_padded_decimal_value(value as nat, 1);
    lemma_pow10_values();
    lemma_num_digits_le(value as nat, 1);
    let bytes = frame(set_antenna_selection_id(), args);
    assert(bytes.take(3) =~= get_antenna_selection_id());
    assert(response_value(bytes, get_antenna_selection_id()) =~= args);
}

/// The reply that echoes a `SetAtuEnable` command reads as the state that was set.
pub proof fn lemma_atu_enable_round_trip(state: bool)
    ensures
        GetAtuEnable::spec_parse_response(frame(set_atu_enable_id(), (SetAtuEnable { enabled: state }).spec_args()))
            == Ok::<bool, Failure>(state),
{
    let args = (SetAtuEnable { enabled: state }).spec_args();
    let bytes = frame(set_atu_enable_id(), args);
    assert(bytes.take(3) =~= get_atu_enable_id());
    assert(response_value(bytes, get_atu_enable_id()) =~= args);
}

/// A value set with `SetBandSelection` reads back unchanged from the echoed reply.
pub proof fn lemma_band_selection_round_trip(value: u8)
    requires
        value < 100,
        value <= 10,
    ensures
        GetBandSelection::spec_parse_response(frame(set_band_selection_id(), uint_args(value as u32, 2))) == Ok::<u8, Failure>(value),
{
    let args = uint_args(value as u32, 2);
    lemma_padded_decimal_value(value as nat, 2);
    lemma_pow10_values();
    lemma_num_digits_le(value as nat, 2);
    let bytes = frame(set_band_selection_id(), args);
    assert(bytes.take(3) =~= get_band_selection_id());
    assert(response_value(bytes, get_band_selection_id()) =~= args);
}

/// A value set with `SetPcBaudRate` reads back unchanged from the echoed reply.
pub proof fn lemma_pc_baud_rate_round_trip(value: u8)
    requires
        value < 10,
        value <= 3,
    ensures
        GetPcBaudRate::spec_parse_response(frame(set_pc_baud_rate_id(), uint_args(value as u32, 1))) == Ok::<u8, Failure>(value),
{
    let args = uint_args(value as u32, 1);
    lemma_padded_decimal_value(value as nat, 1);
    lemma_pow10_values();
    lemma_num_digits_le(value as nat, 1);
    let bytes = frame(set_pc_baud_rate_id(), args);
    assert(bytes.take(4) =~= get_pc_baud_rate_id());
    assert(response_value(bytes, get_pc_baud_rate_id()) =~= args);
}

/// A value set with `SetXcvrBaudRate` reads back unchanged from the echoed reply.
pub proof fn lemma_xcvr_baud_rate_round_trip(value: u8)
    requires
        value < 10,
        value <= 3,
    ensures
        GetXcvrBaudRate::spec_parse_response(frame(set_xcvr_baud_rate_id(), uint_args(value as u32, 1))) == Ok::<u8, Failure>(value),
{
    let args = uint_args(value as u32, 1);
    lemma_padded_decimal_value(value as nat, 1);
    lemma_pow10_values();
    lemma_num_digits_le(value as nat, 1);
    let bytes = frame(set_xcvr_baud_rate_id(), args);
    assert(bytes.take(4) =~= get_xcvr_baud_rate_id());
    assert(response_value(bytes, get_xcvr_baud_rate_id()) =~= args);
}

/// The reply that echoes a `SetDemoMode` command reads as the state that was set.
pub proof fn lemma_demo_mode_round_trip(state: bool)
    ensures
        GetDemoMode::spec_parse_response(frame(set_demo_mode_id(), (SetDemoMode { enabled: state }).spec_args()))
            == Ok::<bool, Failure>(state),
{
    let args = (SetDemoMode { enabled: state }).spec_args();
    let bytes = frame(set_demo_mode_id(), args);
    assert(bytes.take(3) =~= get_demo_mode_id());
    assert(response_value(bytes, get_demo_mode_id()) =~= args);
}

/// A value set with `SetFrequency` reads back unchanged from the echoed reply.
pub proof fn lemma_frequency_round_trip(value: u32)
    requires
        value < 100000000,
    ensures
        GetFrequency::spec_parse_response(frame(set_frequency_id(), (SetFrequency { hz: value }).spec_args())) == Ok::<u32, Failure>(value),
{
    let args = (SetFrequency { hz: value }).spec_args();
    lemma_padded_decimal_value(value as nat, 8);
    lemma_pow10_values();
    lemma_num_digits_le(value as nat, 8);
    let bytes = frame(set_frequency_id(), args);
    assert(bytes.take(2) =~= get_frequency_id());
    assert(response_value(bytes, get_frequency_id()) =~= args);
}

/// The reply that echoes a `SetFrequencyEntryMode` command reads as the state that was set.
pub proof fn lemma_frequency_entry_mode_round_trip(state: bool)
    ensures
        GetFrequencyEntryMode::spec_parse_response(frame(set_frequency_entry_mode_id(), (SetFrequencyEntryMode { manual: state }).spec_args()))
            == Ok::<bool, Failure>(state),
{
    let args = (SetFrequencyEntryMode { manual: state }).spec_args();
    let bytes = frame(set_frequency_entry_mode_id(), args);
    assert(bytes.take(3) =~= get_frequency_entry_mode_id());
    assert(response_value(bytes, get_frequency_entry_mode_id()) =~= args);
}

/// A value set with `SetFanThreshold` reads back unchanged from the echoed reply.
pub proof fn lemma_fan_threshold_round_trip(value: u8)
    requires
        value < 1000,
    ensures
        GetFanThreshold::spec_parse_response(frame(set_fan_threshold_id(), (SetFanThreshold { celsius: value }).spec_args())) == Ok::<u8, Failure>(value),
{
    let args = (SetFanThreshold { celsius: value }).spec_args();
    lemma_padded_decimal_value(value as nat, 3);
    lemma_pow10_values();
    lemma_num_digits_le(value as nat, 3);
    let bytes = frame(set_fan_threshold_id(), args);
    assert(bytes.take(3) =~= get_fan_threshold_id());
    assert(response_value(bytes, get_fan_threshold_id()) =~= args);
}

/// The reply that echoes a `SetLowPassRelay` command reads as the state that was set.
pub proof fn lemma_low_pass_relay_round_trip(state: bool)
    ensures
        GetLowPassRelay::spec_parse_response(frame(set_low_pass_relay_id(), (SetLowPassRelay { in_line: state }).spec_args()))
            == Ok::<bool, Failure>(state),
{
    let args = (SetLowPassRelay { in_line: state }).spec_args();
    let bytes = frame(set_low_pass_relay_id(), args);
    assert(bytes.take(3) =~= get_low_pass_relay_id());
    assert(response_value(bytes, get_low_pass_relay_id()) =~= args);
}

/// The reply that echoes a `SetOperatingMode` command reads as the state that was set.
pub proof fn lemma_operating_mode_round_trip(state: bool)
    ensures
        GetOperatingMode::spec_parse_response(frame(set_operating_mode_id(), (SetOperatingMode { operate: state }).spec_args()))
            == Ok::<bool, Failure>(state),
{
    let args = (SetOperatingMode { operate: state }).spec_args();
    let bytes = frame(set_operating_mode_id(), args);
    assert(bytes.take(3) =~= get_operating_mode_id());
    assert(response_value(bytes, get_operating_mode_id()) =~= args);
}

/// A value set with `SetMeterDisplay` reads back unchanged from the echoed reply.
pub proof fn lemma_meter_display_round_trip(value: u8)
    requires
        value < 10,
        value <= 3,
    ensures
        GetMeterDisplay::spec_parse_response(frame(set_meter_display_id(), uint_args(value as u32, 1))) == Ok::<u8, Failure>(value),
{
    let args = uint_args(value as u32, 1);
    lemma_padded_decimal_value(value as nat, 1);
    lemma_pow10_values();
    lemma_num_digits_le(value as nat, 1);
    let bytes = frame(set_meter_display_id(), args);
    assert(bytes.take(3) =~= get_meter_display_id());
    assert(response_value(bytes, get_meter_display_id()) =~= args);
}

/// A value set with `SetPeakPowerControl` reads back unchanged from the echoed reply.
pub proof fn lemma_peak_power_control_round_trip(value: u8)
    requires
        value < 1000,
        value <= 100,
    ensures
        GetPeakPowerControl::spec_parse_response(frame(set_peak_power_control_id(), uint_args(value as u32, 3))) == Ok::<u8, Failure>(value),
{
    let args = uint_args(value as u32, 3);
    lemma_padded_decimal_value(value as nat, 3);
    lemma_pow10_values();
    lemma_num_digits_le(value as nat, 3);
    let bytes = frame(set_peak_power_control_id(), args);
    assert(bytes.take(3) =~= get_peak_power_control_id());
    assert(response_value(bytes, get_peak_power_control_id()) =~= args);
}

/// A value set with `SetPttDelay` reads back unchanged from the echoed reply.
pub proof fn lemma_ptt_delay_round_trip(value: u16)
    requires
        value < 1000,
        value <= 500,
    ensures
        GetPttDelay::spec_parse_response(frame(set_ptt_delay_id(), uint_args(value as u32, 3))) == Ok::<u16, Failure>(value),
{
    let args = uint_args(value as u32, 3);
    lemma_padded_decimal_value(value as nat, 3);
    lemma_pow10_values();
    lemma_num_digits_le(value as nat, 3);
    let bytes = frame(set_ptt_delay_id(), args);
    assert(bytes.take(3) =~= get_ptt_delay_id());
    assert(response_value(bytes, get_ptt_delay_id()) =~= args);
}

/// The reply that echoes a `SetProtectionFaultEnable` command reads as the state that was set.
pub proof fn lemma_protection_fault_enable_round_trip(state: bool)
    ensures
        GetProtectionFaultEnable::spec_parse_response(frame(set_protection_fault_enable_id(), (SetProtectionFaultEnable { enabled: state }).spec_args()))
            == Ok::<bool, Failure>(state),
{
    let args = (SetProtectionFaultEnable { enabled: state }).spec_args();
    let bytes = frame(set_protection_fault_enable_id(), args);
    assert(bytes.take(3) =~= get_protection_fault_enable_id());
    assert(response_value(bytes, get_protection_fault_enable_id()) =~= args);
}

/// A value set with `SetSwrInhibitThreshold` reads back unchanged from the echoed reply.
pub proof fn lemma_swr_inhibit_threshold_round_trip(value: u8)
    requires
        value < 100,
    ensures
        GetSwrInhibitThreshold::spec_parse_response(frame(set_swr_inhibit_threshold_id(), (SetSwrInhibitThreshold { swr_d: value }).spec_args())) == Ok::<u8, Failure>(value),
{
    let args = (SetSwrInhibitThreshold { swr_d: value }).spec_args();
    lemma_padded_decimal_value(value as nat, 2);
    lemma_pow10_values();
    lemma_num_digits_le(value as nat, 2);
    let bytes = frame(set_swr_inhibit_threshold_id(), args);
    assert(bytes.take(3) =~= get_swr_inhibit_threshold_id());
    assert(response_value(bytes, get_swr_inhibit_threshold_id()) =~= args);
}

/// The reply that echoes a `SetSwrFaultEnable` command reads as the state that was set.
pub proof fn lemma_swr_fault_enable_round_trip(state: bool)
    ensures
        GetSwrFaultEnable::spec_parse_response(frame(set_swr_fault_enable_id(), (SetSwrFaultEnable { enabled: state }).spec_args()))
            == Ok::<bool, Failure>(state),
{
    let args = (SetSwrFaultEnable { enabled: state }).spec_args();
    let bytes = frame(set_swr_fault_enable_id(), args);
    assert(bytes.take(3) =~= get_swr_fault_enable_id());
    assert(response_value(bytes, get_swr_fault_enable_id()) =~= args);
}

/// A value set with `SetTunePower` reads back unchanged from the echoed reply.
pub proof fn lemma_tune_power_round_trip(value: u8)
    requires
        value < 1000,
    ensures
        GetTunePower::spec_parse_response(frame(set_tune_power_id(), (SetTunePower { watts: value }).spec_args())) == Ok::<u8, Failure>(value),
{
    let args = (SetTunePower { watts: value }).spec_args();
    lemma_padded_decimal_value(value as nat, 3);
    lemma_pow10_values();
    lemma_num_digits_le(value as nat, 3);
    let bytes = frame(set_tune_power_id(), args);
    assert(bytes.take(3) =~= get_tune_power_id());
    assert(response_value(bytes, get_tune_power_id()) =~= args);
}

} // verus!
