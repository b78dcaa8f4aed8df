//! CAT commands for the Elecraft KPA500 solid-state HF amplifier.
//!
//! Every KPA500 command and response starts with a caret (`^`), as in `^BN05;`; the GET form of a
//! command is its letters with no data, as in `^BN;`. Commands follow the KPA500 Programmer's
//! Reference, rev A2.


use vstd::prelude::*;

use crate::protocol::cat::digits::pow10;

use crate::protocol::cat::lemma_framed_value_reads_back;

use crate::error::{Failure, RigError, agrees};
use crate::protocol::cat::{encode_uint_in_range, frame, frame_command, uint_args};
use crate::protocol::cat::common::{
    ASCII_DIGIT_ONE, ASCII_DIGIT_ZERO, bool_from_ascii_1_0, bytes_to_vec, decimal_string,
    format_uint_ascii, response_value, spec_bool_1_0, spec_u16_field, spec_u32_field,
    spec_u8_field, spec_validate_response, u16_from_ascii, u32_from_ascii, u8_from_ascii,
    validate_integer_in_range, validate_response,
};
use crate::protocol::cat::digits::{
    all_digits, digits_value,
    leading_value, lemma_leading_value_bound, lemma_num_digits_le, lemma_padded_decimal_value,
    lemma_pow10_values, padded_decimal,
};

verus! {

/// `^AL`
pub open spec fn get_alc_threshold_id() -> Seq<u8> {
    seq![0x5E, 0x41, 0x4C]
}

fn get_alc_threshold_id_bytes() -> (r: &'static [u8])
    ensures
        r@ == get_alc_threshold_id(),
{
    &[0x5E, 0x41, 0x4C]
}

/// Get the ALC threshold for the current band.
#[derive(Clone, Copy, Debug, PartialEq, Eq)]
pub struct GetAlcThreshold;

impl GetAlcThreshold {
    pub fn to_bytes(&self) -> (r: Vec<u8>)
        ensures
            r@ == frame(get_alc_threshold_id(), seq![]),
    {
        let none: [u8; 0] = [];
        frame_command(get_alc_threshold_id_bytes(), &none)
    }

    pub open spec fn spec_parse_response(bytes: Seq<u8>) -> Result<u16, Failure> {
        match spec_validate_response(bytes, get_alc_threshold_id(), 3) {
            Ok(v) => spec_u16_field(v),
            Err(f) => Err(f),
        }
    }

    pub fn parse(&self, bytes: &[u8]) -> (r: Result<u16, RigError>)
        ensures
            agrees(r, Self::spec_parse_response(bytes@)),
    {
        match validate_response(bytes, get_alc_threshold_id_bytes(), 3) {
            Ok(d) => {
                proof {
                    lemma_leading_value_bound(d@);
                    lemma_pow10_values();
                }
                u16_from_ascii(d)
            },
            Err(e) => Err(e),
        }
    }
}

/// A `GetAlcThreshold` reply of 3 value bytes reads as the decimal number they spell; a value with a
/// byte that is not a digit is an `InvalidResponseData` error holding the value.
pub proof fn lemma_get_alc_threshold_reply(v: Seq<u8>)
    requires
        v.len() == 3,
    ensures
        all_digits(v) && digits_value(v) <= u16::MAX ==> GetAlcThreshold::spec_parse_response(frame(get_alc_threshold_id(), v)) == Ok::<u16, Failure>(digits_value(v) as u16),
        !all_digits(v) ==> GetAlcThreshold::spec_parse_response(frame(get_alc_threshold_id(), v)) == Err::<u16, Failure>(Failure::ResponseData(v)),
{
    lemma_framed_value_reads_back(get_alc_threshold_id(), v);
}

/// `^AL`
pub open spec fn set_alc_threshold_id() -> Seq<u8> {
    seq![0x5E, 0x41, 0x4C]
}

fn set_alc_threshold_id_bytes() -> (r: &'static [u8])
    ensures
        r@ == set_alc_threshold_id(),
{
    &[0x5E, 0x41, 0x4C]
}

/// Set the ALC threshold for the current band.
#[derive(Clone, Copy, Debug, PartialEq, Eq)]
pub struct SetAlcThreshold {
    pub value: u16,
}

impl SetAlcThreshold {
    /// The values the command accepts.
    pub open spec fn spec_in_range(self) -> bool {
        self.value <= 210
    }

    /// The argument bytes.
    pub open spec fn spec_args(self) -> Seq<u8> {
        uint_args(self.value as u32, 3)
    }

    /// The command, or `InvalidArgumentValue` for a value out of range.
    pub fn to_bytes(&self) -> (r: Result<Vec<u8>, RigError>)
        ensures
            self.spec_in_range() ==> (r matches Ok(b) && b@ == frame(set_alc_threshold_id(), self.spec_args())),
            !self.spec_in_range() ==> (r matches Err(e) && e.fails_with(
                Failure::ArgumentValue("value"@, "u16"@, decimal_string(self.value as int)),
            )),
    {
        encode_uint_in_range(set_alc_threshold_id_bytes(), "value", "u16", self.value as u32, 0, 210, 3)
    }
}

/// `SetAlcThreshold` accepts `value` when `s.value <= 210` and sends it as decimal digits, zero-padded to 3.
pub proof fn lemma_set_alc_threshold_argument(s: SetAlcThreshold)
    ensures
        s.spec_in_range() == (s.value <= 210),
        all_digits(s.spec_args()),
        digits_value(s.spec_args()) == s.value,
        (s.value as nat) < pow10(3) ==> s.spec_args().len() == 3,
{
    lemma_padded_decimal_value(s.value as nat, 3);
    if (s.value as nat) < pow10(3) {
        lemma_num_digits_le(s.value as nat, 3);
    }
}

/// `^AR`
pub open spec fn get_attenuator_release_time_id() -> Seq<u8> {
    seq![0x5E, 0x41, 0x52]
}

fn get_attenuator_release_time_id_bytes() -> (r: &'static [u8])
    ensures
        r@ == get_attenuator_release_time_id(),
{
    &[0x5E, 0x41, 0x52]
}

/// Get the attenuator fault release time.
#[derive(Clone, Copy, Debug, PartialEq, Eq)]
pub struct GetAttenuatorReleaseTime;

impl GetAttenuatorReleaseTime {
    pub fn to_bytes(&self) -> (r: Vec<u8>)
        ensures
            r@ == frame(get_attenuator_release_time_id(), seq![]),
    {
        let none: [u8; 0] = [];
        frame_command(get_attenuator_release_time_id_bytes(), &none)
    }

    pub open spec fn spec_parse_response(bytes: Seq<u8>) -> Result<u16, Failure> {
        match spec_validate_response(bytes, get_attenuator_release_time_id(), 4) {
            Ok(v) => spec_u16_field(v),
            Err(f) => Err(f),
        }
    }

    pub fn parse(&self, bytes: &[u8]) -> (r: Result<u16, RigError>)
        ensures
            agrees(r, Self::spec_parse_response(bytes@)),
    {
        match validate_response(bytes, get_attenuator_release_time_id_bytes(), 4) {
            Ok(d) => {
                proof {
                    lemma_leading_value_bound(d@);
                    lemma_pow10_values();
                }
                u16_from_ascii(d)
            },
            Err(e) => Err(e),
        }
    }
}

/// A `GetAttenuatorReleaseTime` reply of 4 value bytes reads as the decimal number they spell; a value with a
/// byte that is not a digit is an `InvalidResponseData` error holding the value.
pub proof fn lemma_get_attenuator_release_time_reply(v: Seq<u8>)
    requires
        v.len() == 4,
    ensures
        all_digits(v) && digits_value(v) <= u16::MAX ==> GetAttenuatorReleaseTime::spec_parse_response(frame(get_attenuator_release_time_id(), v)) == Ok::<u16, Failure>(digits_value(v) as u16),
        !all_digits(v) ==> GetAttenuatorReleaseTime::spec_parse_response(frame(get_attenuator_release_time_id(), v)) == Err::<u16, Failure>(Failure::ResponseData(v)),
{
    lemma_framed_value_reads_back(get_attenuator_release_time_id(), v);
}

/// `^AR`
pub open spec fn set_attenuator_release_time_id() -> Seq<u8> {
    seq![0x5E, 0x41, 0x52]
}

fn set_attenuator_release_time_id_bytes() -> (r: &'static [u8])
    ensures
        r@ == set_attenuator_release_time_id(),
{
    &[0x5E, 0x41, 0x52]
}

/// Set the attenuator fault release time.
#[derive(Clone, Copy, Debug, PartialEq, Eq)]
pub struct SetAttenuatorReleaseTime {
    pub ms: u16,
}

impl SetAttenuatorReleaseTime {
    /// The values the command accepts.
    pub open spec fn spec_in_range(self) -> bool {
        1400 <= self.ms <= 5000
    }

    /// The argument bytes.
    pub open spec fn spec_args(self) -> Seq<u8> {
        uint_args(self.ms as u32, 4)
    }

    /// The command, or `InvalidArgumentValue` for a value out of range.
    pub fn to_bytes(&self) -> (r: Result<Vec<u8>, RigError>)
        ensures
            self.spec_in_range() ==> (r matches Ok(b) && b@ == frame(set_attenuator_release_time_id(), self.spec_args())),
            !self.spec_in_range() ==> (r matches Err(e) && e.fails_with(
                Failure::ArgumentValue("ms"@, "u16"@, decimal_string(self.ms as int)),
            )),
    {
        encode_uint_in_range(set_attenuator_release_time_id_bytes(), "ms", "u16", self.ms as u32, 1400, 5000, 4)
    }
}

/// `SetAttenuatorReleaseTime` accepts `ms` when `1400 <= s.ms <= 5000` and sends it as decimal digits, zero-padded to 4.
pub proof fn lemma_set_attenuator_release_time_argument(s: SetAttenuatorReleaseTime)
    ensures
        s.spec_in_range() == (1400 <= s.ms <= 5000),
        all_digits(s.spec_args()),
        digits_value(s.spec_args()) == s.ms,
        (s.ms as nat) < pow10(4) ==> s.spec_args().len() == 4,
{
    lemma_padded_decimal_value(s.ms as nat, 4);
    if (s.ms as nat) < pow10(4) {
        lemma_num_digits_le(s.ms as nat, 4);
    }
}

/// `^BC`
pub open spec fn get_standby_on_band_change_id() -> Seq<u8> {
    seq![0x5E, 0x42, 0x43]
}

fn get_standby_on_band_change_id_bytes() -> (r: &'static [u8])
    ensures
        r@ == get_standby_on_band_change_id(),
{
    &[0x5E, 0x42, 0x43]
}

/// Get whether the amplifier always returns to standby on a band change.
#[derive(Clone, Copy, Debug, PartialEq, Eq)]
pub struct GetStandbyOnBandChange;

impl GetStandbyOnBandChange {
    pub fn to_bytes(&self) -> (r: Vec<u8>)
        ensures
            r@ == frame(get_standby_on_band_change_id(), seq![]),
    {
        let none: [u8; 0] = [];
        frame_command(get_standby_on_band_change_id_bytes(), &none)
    }

    pub open spec fn spec_parse_response(bytes: Seq<u8>) -> Result<bool, Failure> {
        match spec_validate_response(bytes, get_standby_on_band_change_id(), 1) {
            Ok(v) => spec_bool_1_0(v[0]),
            Err(f) => Err(f),
        }
    }

    pub fn parse(&self, bytes: &[u8]) -> (r: Result<bool, RigError>)
        ensures
            agrees(r, Self::spec_parse_response(bytes@)),
    {
        match validate_response(bytes, get_standby_on_band_change_id_bytes(), 1) {
            Ok(d) => bool_from_ascii_1_0(d[0]),
            Err(e) => Err(e),
        }
    }
}

/// A `GetStandbyOnBandChange` reply whose value byte is `1` reads as `true`, `0` as `false`; any other byte is a
/// `ParseBoolean` error.
pub proof fn lemma_get_standby_on_band_change_reply(v: Seq<u8>)
    requires
        v.len() == 1,
    ensures
        v[0] == 0x31 ==> GetStandbyOnBandChange::spec_parse_response(frame(get_standby_on_band_change_id(), v)) == Ok::<bool, Failure>(true),
        v[0] == 0x30 ==> GetStandbyOnBandChange::spec_parse_response(frame(get_standby_on_band_change_id(), v)) == Ok::<bool, Failure>(false),
        v[0] != 0x30 && v[0] != 0x31 ==> GetStandbyOnBandChange::spec_parse_response(frame(get_standby_on_band_change_id(), v)) == Err::<bool, Failure>(Failure::Boolean(v[0])),
{
    lemma_framed_value_reads_back(get_standby_on_band_change_id(), v);
}

/// `^BC`
pub open spec fn set_standby_on_band_change_id() -> Seq<u8> {
    seq![0x5E, 0x42, 0x43]
}

fn set_standby_on_band_change_id_bytes() -> (r: &'static [u8])
    ensures
        r@ == set_standby_on_band_change_id(),
{
    &[0x5E, 0x42, 0x43]
}

/// Set whether the amplifier always returns to standby on a band change.
#[derive(Clone, Copy, Debug, PartialEq, Eq)]
pub struct SetStandbyOnBandChange {
    pub enabled: bool,
}

impl SetStandbyOnBandChange {
    pub open spec fn spec_args(self) -> Seq<u8> {
        seq![if self.enabled { ASCII_DIGIT_ONE } else { ASCII_DIGIT_ZERO }]
    }

    pub fn to_bytes(&self) -> (r: Vec<u8>)
        ensures
            r@ == frame(set_standby_on_band_change_id(), self.spec_args()),
    {
        let args: [u8; 1] = [if self.enabled { ASCII_DIGIT_ONE } else { ASCII_DIGIT_ZERO }];
        assert(args@ =~= self.spec_args());
        frame_command(set_standby_on_band_change_id_bytes(), &args)
    }
}

/// `SetStandbyOnBandChange` sends `1` when `enabled` is set and `0` when it is clear.
pub proof fn lemma_set_standby_on_band_change_argument(s: SetStandbyOnBandChange)
    ensures
        s.enabled ==> s.spec_args() == seq![0x31u8],
        !s.enabled ==> s.spec_args() == seq![0x30u8],
{
}

/// `^BN`
pub open spec fn get_band_selection_id() -> Seq<u8> {
    seq![0x5E, 0x42, 0x4E]
}

fn get_band_selection_id_bytes() -> (r: &'static [u8])
    ensures
        r@ == get_band_selection_id(),
{
    &[0x5E, 0x42, 0x4E]
}

/// Get the currently selected band.
#[derive(Clone, Copy, Debug, PartialEq, Eq)]
pub struct GetBandSelection;

impl GetBandSelection {
    pub fn to_bytes(&self) -> (r: Vec<u8>)
        ensures
            r@ == frame(get_band_selection_id(), seq![]),
    {
        let none: [u8; 0] = [];
        frame_command(get_band_selection_id_bytes(), &none)
    }

    pub open spec fn spec_parse_response(bytes: Seq<u8>) -> Result<u8, Failure> {
        match spec_validate_response(bytes, get_band_selection_id(), 2) {
            Ok(v) => spec_u8_field(v),
            Err(f) => Err(f),
        }
    }

    pub fn parse(&self, bytes: &[u8]) -> (r: Result<u8, RigError>)
        ensures
            agrees(r, Self::spec_parse_response(bytes@)),
    {
        match validate_response(bytes, get_band_selection_id_bytes(), 2) {
            Ok(d) => {
                proof {
                    lemma_leading_value_bound(d@);
                    lemma_pow10_values();
                }
                u8_from_ascii(d)
            },
            Err(e) => Err(e),
        }
    }
}

/// A `GetBandSelection` reply of 2 value bytes reads as the decimal number they spell; a value with a
/// byte that is not a digit is an `InvalidResponseData` error holding the value.
pub proof fn lemma_get_band_selection_reply(v: Seq<u8>)
    requires
        v.len() == 2,
    ensures
        all_digits(v) && digits_value(v) <= 255 ==> GetBandSelection::spec_parse_response(frame(get_band_selection_id(), v)) == Ok::<u8, Failure>(digits_value(v) as u8),
        !all_digits(v) ==> GetBandSelection::spec_parse_response(frame(get_band_selection_id(), v)) == Err::<u8, Failure>(Failure::ResponseData(v)),
{
    lemma_framed_value_reads_back(get_band_selection_id(), v);
}

/// `^BN`
pub open spec fn set_band_selection_id() -> Seq<u8> {
    seq![0x5E, 0x42, 0x4E]
}

fn set_band_selection_id_bytes() -> (r: &'static [u8])
    ensures
        r@ == set_band_selection_id(),
{
    &[0x5E, 0x42, 0x4E]
}

/// Set the currently selected band.
#[derive(Clone, Copy, Debug, PartialEq, Eq)]
pub struct SetBandSelection {
    pub band: u8,
}

impl SetBandSelection {
    /// The values the command accepts.
    pub open spec fn spec_in_range(self) -> bool {
        self.band <= 10
    }

    /// The argument bytes.
    pub open spec fn spec_args(self) -> Seq<u8> {
        uint_args(self.band as u32, 2)
    }

    /// The command, or `InvalidArgumentValue` for a value out of range.
    pub fn to_bytes(&self) -> (r: Result<Vec<u8>, RigError>)
        ensures
            self.spec_in_range() ==> (r matches Ok(b) && b@ == frame(set_band_selection_id(), self.spec_args())),
            !self.spec_in_range() ==> (r matches Err(e) && e.fails_with(
                Failure::ArgumentValue("band"@, "u8"@, decimal_string(self.band as int)),
            )),
    {
        encode_uint_in_range(set_band_selection_id_bytes(), "band", "u8", self.band as u32, 0, 10, 2)
    }
}

/// `SetBandSelection` accepts `band` when `s.band <= 10` and sends it as decimal digits, zero-padded to 2.
pub proof fn lemma_set_band_selection_argument(s: SetBandSelection)
    ensures
        s.spec_in_range() == (s.band <= 10),
        all_digits(s.spec_args()),
        digits_value(s.spec_args()) == s.band,
        (s.band as nat) < pow10(2) ==> s.spec_args().len() == 2,
{
    lemma_padded_decimal_value(s.band as nat, 2);
    if (s.band as nat) < pow10(2) {
        lemma_num_digits_le(s.band as nat, 2);
    }
}

/// `^BRP`
pub open spec fn get_pc_baud_rate_id() -> Seq<u8> {
    seq![0x5E, 0x42, 0x52, 0x50]
}

fn get_pc_baud_rate_id_bytes() -> (r: &'static [u8])
    ensures
        r@ == get_pc_baud_rate_id(),
{
    &[0x5E, 0x42, 0x52, 0x50]
}

/// Get the PC RS-232 port data rate.
#[derive(Clone, Copy, Debug, PartialEq, Eq)]
pub struct GetPcBaudRate;

impl GetPcBaudRate {
    pub fn to_bytes(&self) -> (r: Vec<u8>)
        ensures
            r@ == frame(get_pc_baud_rate_id(), seq![]),
    {
        let none: [u8; 0] = [];
        frame_command(get_pc_baud_rate_id_bytes(), &none)
    }

    pub open spec fn spec_parse_response(bytes: Seq<u8>) -> Result<u8, Failure> {
        match spec_validate_response(bytes, get_pc_baud_rate_id(), 1) {
            Ok(v) => spec_u8_field(v),
            Err(f) => Err(f),
        }
    }

    pub fn parse(&self, bytes: &[u8]) -> (r: Result<u8, RigError>)
        ensures
            agrees(r, Self::spec_parse_response(bytes@)),
    {
        match validate_response(bytes, get_pc_baud_rate_id_bytes(), 1) {
            Ok(d) => {
                proof {
                    lemma_leading_value_bound(d@);
                    lemma_pow10_values();
                }
                u8_from_ascii(d)
            },
            Err(e) => Err(e),
        }
    }
}

/// A `GetPcBaudRate` reply of 1 value bytes reads as the decimal number they spell; a value with a
/// byte that is not a digit is an `InvalidResponseData` error holding the value.
pub proof fn lemma_get_pc_baud_rate_reply(v: Seq<u8>)
    requires
        v.len() == 1,
    ensures
        all_digits(v) && digits_value(v) <= 255 ==> GetPcBaudRate::spec_parse_response(frame(get_pc_baud_rate_id(), v)) == Ok::<u8, Failure>(digits_value(v) as u8),
        !all_digits(v) ==> GetPcBaudRate::spec_parse_response(frame(get_pc_baud_rate_id(), v)) == Err::<u8, Failure>(Failure::ResponseData(v)),
{
    lemma_framed_value_reads_back(get_pc_baud_rate_id(), v);
}

/// `^BRP`
pub open spec fn set_pc_baud_rate_id() -> Seq<u8> {
    seq![0x5E, 0x42, 0x52, 0x50]
}

fn set_pc_baud_rate_id_bytes() -> (r: &'static [u8])
    ensures
        r@ == set_pc_baud_rate_id(),
{
    &[0x5E, 0x42, 0x52, 0x50]
}

/// Set the PC RS-232 port data rate.
#[derive(Clone, Copy, Debug, PartialEq, Eq)]
pub struct SetPcBaudRate {
    pub rate: u8,
}

impl SetPcBaudRate {
    /// The values the command accepts.
    pub open spec fn spec_in_range(self) -> bool {
        self.rate <= 3
    }

    /// The argument bytes.
    pub open spec fn spec_args(self) -> Seq<u8> {
        uint_args(self.rate as u32, 1)
    }

    /// The command, or `InvalidArgumentValue` for a value out of range.
    pub fn to_bytes(&self) -> (r: Result<Vec<u8>, RigError>)
        ensures
            self.spec_in_range() ==> (r matches Ok(b) && b@ == frame(set_pc_baud_rate_id(), self.spec_args())),
            !self.spec_in_range() ==> (r matches Err(e) && e.fails_with(
                Failure::ArgumentValue("rate"@, "u8"@, decimal_string(self.rate as int)),
            )),
    {
        encode_uint_in_range(set_pc_baud_rate_id_bytes(), "rate", "u8", self.rate as u32, 0, 3, 1)
    }
}

/// `SetPcBaudRate` accepts `rate` when `s.rate <= 3` and sends it as decimal digits, zero-padded to 1.
pub proof fn lemma_set_pc_baud_rate_argument(s: SetPcBaudRate)
    ensures
        s.spec_in_range() == (s.rate <= 3),
        all_digits(s.spec_args()),
        digits_value(s.spec_args()) == s.rate,
        (s.rate as nat) < pow10(1) ==> s.spec_args().len() == 1,
{
    lemma_padded_decimal_value(s.rate as nat, 1);
    if (s.rate as nat) < pow10(1) {
        lemma_num_digits_le(s.rate as nat, 1);
    }
}

/// `^BRX`
pub open spec fn get_xcvr_baud_rate_id() -> Seq<u8> {
    seq![0x5E, 0x42, 0x52, 0x58]
}

fn get_xcvr_baud_rate_id_bytes() -> (r: &'static [u8])
    ensures
        r@ == get_xcvr_baud_rate_id(),
{
    &[0x5E, 0x42, 0x52, 0x58]
}

/// Get the transceiver RS-232 port data rate.
#[derive(Clone, Copy, Debug, PartialEq, Eq)]
pub struct GetXcvrBaudRate;

impl GetXcvrBaudRate {
    pub fn to_bytes(&self) -> (r: Vec<u8>)
        ensures
            r@ == frame(get_xcvr_baud_rate_id(), seq![]),
    {
        let none: [u8; 0] = [];
        frame_command(get_xcvr_baud_rate_id_bytes(), &none)
    }

    pub open spec fn spec_parse_response(bytes: Seq<u8>) -> Result<u8, Failure> {
        match spec_validate_response(bytes, get_xcvr_baud_rate_id(), 1) {
            Ok(v) => spec_u8_field(v),
            Err(f) => Err(f),
        }
    }

    pub fn parse(&self, bytes: &[u8]) -> (r: Result<u8, RigError>)
        ensures
            agrees(r, Self::spec_parse_response(bytes@)),
    {
        match validate_response(bytes, get_xcvr_baud_rate_id_bytes(), 1) {
            Ok(d) => {
                proof {
                    lemma_leading_value_bound(d@);
                    lemma_pow10_values();
                }
                u8_from_ascii(d)
            },
            Err(e) => Err(e),
        }
    }
}

/// A `GetXcvrBaudRate` reply of 1 value bytes reads as the decimal number they spell; a value with a
/// byte that is not a digit is an `InvalidResponseData` error holding the value.
pub proof fn lemma_get_xcvr_baud_rate_reply(v: Seq<u8>)
    requires
        v.len() == 1,
    ensures
        all_digits(v) && digits_value(v) <= 255 ==> GetXcvrBaudRate::spec_parse_response(frame(get_xcvr_baud_rate_id(), v)) == Ok::<u8, Failure>(digits_value(v) as u8),
        !all_digits(v) ==> GetXcvrBaudRate::spec_parse_response(frame(get_xcvr_baud_rate_id(), v)) == Err::<u8, Failure>(Failure::ResponseData(v)),
{
    lemma_framed_value_reads_back(get_xcvr_baud_rate_id(), v);
}

/// `^BRX`
pub open spec fn set_xcvr_baud_rate_id() -> Seq<u8> {
    seq![0x5E, 0x42, 0x52, 0x58]
}

fn set_xcvr_baud_rate_id_bytes() -> (r: &'static [u8])
    ensures
        r@ == set_xcvr_baud_rate_id(),
{
    &[0x5E, 0x42, 0x52, 0x58]
}

/// Set the transceiver RS-232 port data rate.
#[derive(Clone, Copy, Debug, PartialEq, Eq)]
pub struct SetXcvrBaudRate {
    pub rate: u8,
}

impl SetXcvrBaudRate {
    /// The values the command accepts.
    pub open spec fn spec_in_range(self) -> bool {
        self.rate <= 3
    }

    /// The argument bytes.
    pub open spec fn spec_args(self) -> Seq<u8> {
        uint_args(self.rate as u32, 1)
    }

    /// The command, or `InvalidArgumentValue` for a value out of range.
    pub fn to_bytes(&self) -> (r: Result<Vec<u8>, RigError>)
        ensures
            self.spec_in_range() ==> (r matches Ok(b) && b@ == frame(set_xcvr_baud_rate_id(), self.spec_args())),
            !self.spec_in_range() ==> (r matches Err(e) && e.fails_with(
                Failure::ArgumentValue("rate"@, "u8"@, decimal_string(self.rate as int)),
            )),
    {
        encode_uint_in_range(set_xcvr_baud_rate_id_bytes(), "rate", "u8", self.rate as u32, 0, 3, 1)
    }
}

/// `SetXcvrBaudRate` accepts `rate` when `s.rate <= 3` and sends it as decimal digits, zero-padded to 1.
pub proof fn lemma_set_xcvr_baud_rate_argument(s: SetXcvrBaudRate)
    ensures
        s.spec_in_range() == (s.rate <= 3),
        all_digits(s.spec_args()),
        digits_value(s.spec_args()) == s.rate,
        (s.rate as nat) < pow10(1) ==> s.spec_args().len() == 1,
{
    lemma_padded_decimal_value(s.rate as nat, 1);
    if (s.rate as nat) < pow10(1) {
        lemma_num_digits_le(s.rate as nat, 1);
    }
}

/// `^DMO`
pub open spec fn get_demo_mode_id() -> Seq<u8> {
    seq![0x5E, 0x44, 0x4D, 0x4F]
}

fn get_demo_mode_id_bytes() -> (r: &'static [u8])
    ensures
        r@ == get_demo_mode_id(),
{
    &[0x5E, 0x44, 0x4D, 0x4F]
}

/// Get the demo mode state.
#[derive(Clone, Copy, Debug, PartialEq, Eq)]
pub struct GetDemoMode;

impl GetDemoMode {
    pub fn to_bytes(&self) -> (r: Vec<u8>)
        ensures
            r@ == frame(get_demo_mode_id(), seq![]),
    {
        let none: [u8; 0] = [];
        frame_command(get_demo_mode_id_bytes(), &none)
    }

    pub open spec fn spec_parse_response(bytes: Seq<u8>) -> Result<bool, Failure> {
        match spec_validate_response(bytes, get_demo_mode_id(), 1) {
            Ok(v) => spec_bool_1_0(v[0]),
            Err(f) => Err(f),
        }
    }

    pub fn parse(&self, bytes: &[u8]) -> (r: Result<bool, RigError>)
        ensures
            agrees(r, Self::spec_parse_response(bytes@)),
    {
        match validate_response(bytes, get_demo_mode_id_bytes(), 1) {
            Ok(d) => bool_from_ascii_1_0(d[0]),
            Err(e) => Err(e),
        }
    }
}

/// A `GetDemoMode` reply whose value byte is `1` reads as `true`, `0` as `false`; any other byte is a
/// `ParseBoolean` error.
pub proof fn lemma_get_demo_mode_reply(v: Seq<u8>)
    requires
        v.len() == 1,
    ensures
        v[0] == 0x31 ==> GetDemoMode::spec_parse_response(frame(get_demo_mode_id(), v)) == Ok::<bool, Failure>(true),
        v[0] == 0x30 ==> GetDemoMode::spec_parse_response(frame(get_demo_mode_id(), v)) == Ok::<bool, Failure>(false),
        v[0] != 0x30 && v[0] != 0x31 ==> GetDemoMode::spec_parse_response(frame(get_demo_mode_id(), v)) == Err::<bool, Failure>(Failure::Boolean(v[0])),
{
    lemma_framed_value_reads_back(get_demo_mode_id(), v);
}

/// `^DMO`
pub open spec fn set_demo_mode_id() -> Seq<u8> {
    seq![0x5E, 0x44, 0x4D, 0x4F]
}

fn set_demo_mode_id_bytes() -> (r: &'static [u8])
    ensures
        r@ == set_demo_mode_id(),
{
    &[0x5E, 0x44, 0x4D, 0x4F]
}

/// Set the demo mode state.
#[derive(Clone, Copy, Debug, PartialEq, Eq)]
pub struct SetDemoMode {
    pub enabled: bool,
}

impl SetDemoMode {
    pub open spec fn spec_args(self) -> Seq<u8> {
        seq![if self.enabled { ASCII_DIGIT_ONE } else { ASCII_DIGIT_ZERO }]
    }

    pub fn to_bytes(&self) -> (r: Vec<u8>)
        ensures
            r@ == frame(set_demo_mode_id(), self.spec_args()),
    {
        let args: [u8; 1] = [if self.enabled { ASCII_DIGIT_ONE } else { ASCII_DIGIT_ZERO }];
        assert(args@ =~= self.spec_args());
        frame_command(set_demo_mode_id_bytes(), &args)
    }
}

/// `SetDemoMode` sends `1` when `enabled` is set and `0` when it is clear.
pub proof fn lemma_set_demo_mode_argument(s: SetDemoMode)
    ensures
        s.enabled ==> s.spec_args() == seq![0x31u8],
        !s.enabled ==> s.spec_args() == seq![0x30u8],
{
}

/// `^FC`
pub open spec fn get_fan_minimum_speed_id() -> Seq<u8> {
    seq![0x5E, 0x46, 0x43]
}

fn get_fan_minimum_speed_id_bytes() -> (r: &'static [u8])
    ensures
        r@ == get_fan_minimum_speed_id(),
{
    &[0x5E, 0x46, 0x43]
}

/// Get the fan minimum control level.
#[derive(Clone, Copy, Debug, PartialEq, Eq)]
pub struct GetFanMinimumSpeed;

impl GetFanMinimumSpeed {
    pub fn to_bytes(&self) -> (r: Vec<u8>)
        ensures
            r@ == frame(get_fan_minimum_speed_id(), seq![]),
    {
        let none: [u8; 0] = [];
        frame_command(get_fan_minimum_speed_id_bytes(), &none)
    }

    pub open spec fn spec_parse_response(bytes: Seq<u8>) -> Result<u8, Failure> {
        match spec_validate_response(bytes, get_fan_minimum_speed_id(), 1) {
            Ok(v) => spec_u8_field(v),
            Err(f) => Err(f),
        }
    }

    pub fn parse(&self, bytes: &[u8]) -> (r: Result<u8, RigError>)
        ensures
            agrees(r, Self::spec_parse_response(bytes@)),
    {
        match validate_response(bytes, get_fan_minimum_speed_id_bytes(), 1) {
            Ok(d) => {
                proof {
                    lemma_leading_value_bound(d@);
                    lemma_pow10_values();
                }
                u8_from_ascii(d)
            },
            Err(e) => Err(e),
        }
    }
}

/// A `GetFanMinimumSpeed` reply of 1 value bytes reads as the decimal number they spell; a value with a
/// byte that is not a digit is an `InvalidResponseData` error holding the value.
pub proof fn lemma_get_fan_minimum_speed_reply(v: Seq<u8>)
    requires
        v.len() == 1,
    ensures
        all_digits(v) && digits_value(v) <= 255 ==> GetFanMinimumSpeed::spec_parse_response(frame(get_fan_minimum_speed_id(), v)) == Ok::<u8, Failure>(digits_value(v) as u8),
        !all_digits(v) ==> GetFanMinimumSpeed::spec_parse_response(frame(get_fan_minimum_speed_id(), v)) == Err::<u8, Failure>(Failure::ResponseData(v)),
{
    lemma_framed_value_reads_back(get_fan_minimum_speed_id(), v);
}

/// `^FC`
pub open spec fn set_fan_minimum_speed_id() -> Seq<u8> {
    seq![0x5E, 0x46, 0x43]
}

fn set_fan_minimum_speed_id_bytes() -> (r: &'static [u8])
    ensures
        r@ == set_fan_minimum_speed_id(),
{
    &[0x5E, 0x46, 0x43]
}

/// Set the fan minimum control level.
#[derive(Clone, Copy, Debug, PartialEq, Eq)]
pub struct SetFanMinimumSpeed {
    pub level: u8,
}

impl SetFanMinimumSpeed {
    /// The values the command accepts.
    pub open spec fn spec_in_range(self) -> bool {
        self.level <= 6
    }

    /// The argument bytes.
    pub open spec fn spec_args(self) -> Seq<u8> {
        uint_args(self.level as u32, 1)
    }

    /// The command, or `InvalidArgumentValue` for a value out of range.
    pub fn to_bytes(&self) -> (r: Result<Vec<u8>, RigError>)
        ensures
            self.spec_in_range() ==> (r matches Ok(b) && b@ == frame(set_fan_minimum_speed_id(), self.spec_args())),
            !self.spec_in_range() ==> (r matches Err(e) && e.fails_with(
                Failure::ArgumentValue("level"@, "u8"@, decimal_string(self.level as int)),
            )),
    {
        encode_uint_in_range(set_fan_minimum_speed_id_bytes(), "level", "u8", self.level as u32, 0, 6, 1)
    }
}

/// `SetFanMinimumSpeed` accepts `level` when `s.level <= 6` and sends it as decimal digits, zero-padded to 1.
pub proof fn lemma_set_fan_minimum_speed_argument(s: SetFanMinimumSpeed)
    ensures
        s.spec_in_range() == (s.level <= 6),
        all_digits(s.spec_args()),
        digits_value(s.spec_args()) == s.level,
        (s.level as nat) < pow10(1) ==> s.spec_args().len() == 1,
{
    lemma_padded_decimal_value(s.level as nat, 1);
    if (s.level as nat) < pow10(1) {
        lemma_num_digits_le(s.level as nat, 1);
    }
}

/// `^FL`
pub open spec fn get_fault_code_id() -> Seq<u8> {
    seq![0x5E, 0x46, 0x4C]
}

fn get_fault_code_id_bytes() -> (r: &'static [u8])
    ensures
        r@ == get_fault_code_id(),
{
    &[0x5E, 0x46, 0x4C]
}

/// Get the current fault code.
#[derive(Clone, Copy, Debug, PartialEq, Eq)]
pub struct GetFaultCode;

impl GetFaultCode {
    pub fn to_bytes(&self) -> (r: Vec<u8>)
        ensures
            r@ == frame(get_fault_code_id(), seq![]),
    {
        let none: [u8; 0] = [];
        frame_command(get_fault_code_id_bytes(), &none)
    }

    pub open spec fn spec_parse_response(bytes: Seq<u8>) -> Result<u8, Failure> {
        match spec_validate_response(bytes, get_fault_code_id(), 2) {
            Ok(v) => spec_u8_field(v),
            Err(f) => Err(f),
        }
    }

    pub fn parse(&self, bytes: &[u8]) -> (r: Result<u8, RigError>)
        ensures
            agrees(r, Self::spec_parse_response(bytes@)),
    {
        match validate_response(bytes, get_fault_code_id_bytes(), 2) {
            Ok(d) => {
                proof {
                    lemma_leading_value_bound(d@);
                    lemma_pow10_values();
                }
                u8_from_ascii(d)
            },
            Err(e) => Err(e),
        }
    }
}

/// A `GetFaultCode` reply of 2 value bytes reads as the decimal number they spell; a value with a
/// byte that is not a digit is an `InvalidResponseData` error holding the value.
pub proof fn lemma_get_fault_code_reply(v: Seq<u8>)
    requires
        v.len() == 2,
    ensures
        all_digits(v) && digits_value(v) <= 255 ==> GetFaultCode::spec_parse_response(frame(get_fault_code_id(), v)) == Ok::<u8, Failure>(digits_value(v) as u8),
        !all_digits(v) ==> GetFaultCode::spec_parse_response(frame(get_fault_code_id(), v)) == Err::<u8, Failure>(Failure::ResponseData(v)),
{
    lemma_framed_value_reads_back(get_fault_code_id(), v);
}

/// `^FL`
pub open spec fn clear_fault_id() -> Seq<u8> {
    seq![0x5E, 0x46, 0x4C]
}

fn clear_fault_id_bytes() -> (r: &'static [u8])
    ensures
        r@ == clear_fault_id(),
{
    &[0x5E, 0x46, 0x4C]
}

/// Clear the current fault condition.
#[derive(Clone, Copy, Debug, PartialEq, Eq)]
pub struct ClearFault;

impl ClearFault {
    pub fn to_bytes(&self) -> (r: Vec<u8>)
        ensures
            r@ == frame(clear_fault_id(), seq![0x43u8]),
    {
        let args: [u8; 1] = [0x43];
        assert(args@ =~= seq![0x43u8]);
        frame_command(clear_fault_id_bytes(), &args)
    }
}

/// `^NH`
pub open spec fn get_inhibit_input_id() -> Seq<u8> {
    seq![0x5E, 0x4E, 0x48]
}

fn get_inhibit_input_id_bytes() -> (r: &'static [u8])
    ensures
        r@ == get_inhibit_input_id(),
{
    &[0x5E, 0x4E, 0x48]
}

/// Get whether the INHIBIT# input pin is enabled.
#[derive(Clone, Copy, Debug, PartialEq, Eq)]
pub struct GetInhibitInput;

impl GetInhibitInput {
    pub fn to_bytes(&self) -> (r: Vec<u8>)
        ensures
            r@ == frame(get_inhibit_input_id(), seq![]),
    {
        let none: [u8; 0] = [];
        frame_command(get_inhibit_input_id_bytes(), &none)
    }

    pub open spec fn spec_parse_response(bytes: Seq<u8>) -> Result<bool, Failure> {
        match spec_validate_response(bytes, get_inhibit_input_id(), 1) {
            Ok(v) => spec_bool_1_0(v[0]),
            Err(f) => Err(f),
        }
    }

    pub fn parse(&self, bytes: &[u8]) -> (r: Result<bool, RigError>)
        ensures
            agrees(r, Self::spec_parse_response(bytes@)),
    {
        match validate_response(bytes, get_inhibit_input_id_bytes(), 1) {
            Ok(d) => bool_from_ascii_1_0(d[0]),
            Err(e) => Err(e),
        }
    }
}

/// A `GetInhibitInput` reply whose value byte is `1` reads as `true`, `0` as `false`; any other byte is a
/// `ParseBoolean` error.
pub proof fn lemma_get_inhibit_input_reply(v: Seq<u8>)
    requires
        v.len() == 1,
    ensures
        v[0] == 0x31 ==> GetInhibitInput::spec_parse_response(frame(get_inhibit_input_id(), v)) == Ok::<bool, Failure>(true),
        v[0] == 0x30 ==> GetInhibitInput::spec_parse_response(frame(get_inhibit_input_id(), v)) == Ok::<bool, Failure>(false),
        v[0] != 0x30 && v[0] != 0x31 ==> GetInhibitInput::spec_parse_response(frame(get_inhibit_input_id(), v)) == Err::<bool, Failure>(Failure::Boolean(v[0])),
{
    lemma_framed_value_reads_back(get_inhibit_input_id(), v);
}

/// `^NH`
pub open spec fn set_inhibit_input_id() -> Seq<u8> {
    seq![0x5E, 0x4E, 0x48]
}

fn set_inhibit_input_id_bytes() -> (r: &'static [u8])
    ensures
        r@ == set_inhibit_input_id(),
{
    &[0x5E, 0x4E, 0x48]
}

/// Set whether the INHIBIT# input pin is enabled.
#[derive(Clone, Copy, Debug, PartialEq, Eq)]
pub struct SetInhibitInput {
    pub enabled: bool,
}

impl SetInhibitInput {
    pub open spec fn spec_args(self) -> Seq<u8> {
        seq![if self.enabled { ASCII_DIGIT_ONE } else { ASCII_DIGIT_ZERO }]
    }

    pub fn to_bytes(&self) -> (r: Vec<u8>)
        ensures
            r@ == frame(set_inhibit_input_id(), self.spec_args()),
    {
        let args: [u8; 1] = [if self.enabled { ASCII_DIGIT_ONE } else { ASCII_DIGIT_ZERO }];
        assert(args@ =~= self.spec_args());
        frame_command(set_inhibit_input_id_bytes(), &args)
    }
}

/// `SetInhibitInput` sends `1` when `enabled` is set and `0` when it is clear.
pub proof fn lemma_set_inhibit_input_argument(s: SetInhibitInput)
    ensures
        s.enabled ==> s.spec_args() == seq![0x31u8],
        !s.enabled ==> s.spec_args() == seq![0x30u8],
{
}

/// `^ON`
pub open spec fn get_power_status_id() -> Seq<u8> {
    seq![0x5E, 0x4F, 0x4E]
}

fn get_power_status_id_bytes() -> (r: &'static [u8])
    ensures
        r@ == get_power_status_id(),
{
    &[0x5E, 0x4F, 0x4E]
}

/// Get whether the KPA500 is powered on.
#[derive(Clone, Copy, Debug, PartialEq, Eq)]
pub struct GetPowerStatus;

impl GetPowerStatus {
    pub fn to_bytes(&self) -> (r: Vec<u8>)
        ensures
            r@ == frame(get_power_status_id(), seq![]),
    {
        let none: [u8; 0] = [];
        frame_command(get_power_status_id_bytes(), &none)
    }

    pub open spec fn spec_parse_response(bytes: Seq<u8>) -> Result<bool, Failure> {
        match spec_validate_response(bytes, get_power_status_id(), 1) {
            Ok(v) => spec_bool_1_0(v[0]),
            Err(f) => Err(f),
        }
    }

    pub fn parse(&self, bytes: &[u8]) -> (r: Result<bool, RigError>)
        ensures
            agrees(r, Self::spec_parse_response(bytes@)),
    {
        match validate_response(bytes, get_power_status_id_bytes(), 1) {
            Ok(d) => bool_from_ascii_1_0(d[0]),
            Err(e) => Err(e),
        }
    }
}

/// A `GetPowerStatus` reply whose value byte is `1` reads as `true`, `0` as `false`; any other byte is a
/// `ParseBoolean` error.
pub proof fn lemma_get_power_status_reply(v: Seq<u8>)
    requires
        v.len() == 1,
    ensures
        v[0] == 0x31 ==> GetPowerStatus::spec_parse_response(frame(get_power_status_id(), v)) == Ok::<bool, Failure>(true),
        v[0] == 0x30 ==> GetPowerStatus::spec_parse_response(frame(get_power_status_id(), v)) == Ok::<bool, Failure>(false),
        v[0] != 0x30 && v[0] != 0x31 ==> GetPowerStatus::spec_parse_response(frame(get_power_status_id(), v)) == Err::<bool, Failure>(Failure::Boolean(v[0])),
{
    lemma_framed_value_reads_back(get_power_status_id(), v);
}

/// `^ON`
pub open spec fn turn_power_off_id() -> Seq<u8> {
    seq![0x5E, 0x4F, 0x4E]
}

fn turn_power_off_id_bytes() -> (r: &'static [u8])
    ensures
        r@ == turn_power_off_id(),
{
    &[0x5E, 0x4F, 0x4E]
}

/// Turn the KPA500 off.
#[derive(Clone, Copy, Debug, PartialEq, Eq)]
pub struct TurnPowerOff;

impl TurnPowerOff {
    pub fn to_bytes(&self) -> (r: Vec<u8>)
        ensures
            r@ == frame(turn_power_off_id(), seq![0x30u8]),
    {
        let args: [u8; 1] = [0x30];
        assert(args@ =~= seq![0x30u8]);
        frame_command(turn_power_off_id_bytes(), &args)
    }
}

/// `^OS`
pub open spec fn get_operate_mode_id() -> Seq<u8> {
    seq![0x5E, 0x4F, 0x53]
}

fn get_operate_mode_id_bytes() -> (r: &'static [u8])
    ensures
        r@ == get_operate_mode_id(),
{
    &[0x5E, 0x4F, 0x53]
}

/// Get the current operate/standby mode.
#[derive(Clone, Copy, Debug, PartialEq, Eq)]
pub struct GetOperateMode;

impl GetOperateMode {
    pub fn to_bytes(&self) -> (r: Vec<u8>)
        ensures
            r@ == frame(get_operate_mode_id(), seq![]),
    {
        let none: [u8; 0] = [];
        frame_command(get_operate_mode_id_bytes(), &none)
    }

    pub open spec fn spec_parse_response(bytes: Seq<u8>) -> Result<bool, Failure> {
        match spec_validate_response(bytes, get_operate_mode_id(), 1) {
            Ok(v) => spec_bool_1_0(v[0]),
            Err(f) => Err(f),
        }
    }

    pub fn parse(&self, bytes: &[u8]) -> (r: Result<bool, RigError>)
        ensures
            agrees(r, Self::spec_parse_response(bytes@)),
    {
        match validate_response(bytes, get_operate_mode_id_bytes(), 1) {
            Ok(d) => bool_from_ascii_1_0(d[0]),
            Err(e) => Err(e),
        }
    }
}

/// A `GetOperateMode` reply whose value byte is `1` reads as `true`, `0` as `false`; any other byte is a
/// `ParseBoolean` error.
pub proof fn lemma_get_operate_mode_reply(v: Seq<u8>)
    requires
        v.len() == 1,
    ensures
        v[0] == 0x31 ==> GetOperateMode::spec_parse_response(frame(get_operate_mode_id(), v)) == Ok::<bool, Failure>(true),
        v[0] == 0x30 ==> GetOperateMode::spec_parse_response(frame(get_operate_mode_id(), v)) == Ok::<bool, Failure>(false),
        v[0] != 0x30 && v[0] != 0x31 ==> GetOperateMode::spec_parse_response(frame(get_operate_mode_id(), v)) == Err::<bool, Failure>(Failure::Boolean(v[0])),
{
    lemma_framed_value_reads_back(get_operate_mode_id(), v);
}

/// `^OS`
pub open spec fn set_operate_mode_id() -> Seq<u8> {
    seq![0x5E, 0x4F, 0x53]
}

fn set_operate_mode_id_bytes() -> (r: &'static [u8])
    ensures
        r@ == set_operate_mode_id(),
{
    &[0x5E, 0x4F, 0x53]
}

/// Set the current operate/standby mode.
#[derive(Clone, Copy, Debug, PartialEq, Eq)]
pub struct SetOperateMode {
    pub operate: bool,
}

impl SetOperateMode {
    pub open spec fn spec_args(self) -> Seq<u8> {
        seq![if self.operate { ASCII_DIGIT_ONE } else { ASCII_DIGIT_ZERO }]
    }

    pub fn to_bytes(&self) -> (r: Vec<u8>)
        ensures
            r@ == frame(set_operate_mode_id(), self.spec_args()),
    {
        let args: [u8; 1] = [if self.operate { ASCII_DIGIT_ONE } else { ASCII_DIGIT_ZERO }];
        assert(args@ =~= self.spec_args());
        frame_command(set_operate_mode_id_bytes(), &args)
    }
}

/// `SetOperateMode` sends `1` when `operate` is set and `0` when it is clear.
pub proof fn lemma_set_operate_mode_argument(s: SetOperateMode)
    ensures
        s.operate ==> s.spec_args() == seq![0x31u8],
        !s.operate ==> s.spec_args() == seq![0x30u8],
{
}

/// `^PJ`
pub open spec fn get_power_adjustment_id() -> Seq<u8> {
    seq![0x5E, 0x50, 0x4A]
}

fn get_power_adjustment_id_bytes() -> (r: &'static [u8])
    ensures
        r@ == get_power_adjustment_id(),
{
    &[0x5E, 0x50, 0x4A]
}

/// Get the power adjustment setting for the current band.
#[derive(Clone, Copy, Debug, PartialEq, Eq)]
pub struct GetPowerAdjustment;

impl GetPowerAdjustment {
    pub fn to_bytes(&self) -> (r: Vec<u8>)
        ensures
            r@ == frame(get_power_adjustment_id(), seq![]),
    {
        let none: [u8; 0] = [];
        frame_command(get_power_adjustment_id_bytes(), &none)
    }

    pub open spec fn spec_parse_response(bytes: Seq<u8>) -> Result<u8, Failure> {
        match spec_validate_response(bytes, get_power_adjustment_id(), 3) {
            Ok(v) => spec_u8_field(v),
            Err(f) => Err(f),
        }
    }

    /// Reads the digits of a framed reply; a value above 255 is outside the domain.
    pub fn parse(&self, bytes: &[u8]) -> (r: Result<u8, RigError>)
        requires
            spec_validate_response(bytes@, get_power_adjustment_id(), 3) matches Ok(v) ==> leading_value(v) <= u8::MAX,
        ensures
            agrees(r, Self::spec_parse_response(bytes@)),
    {
        match validate_response(bytes, get_power_adjustment_id_bytes(), 3) {
            Ok(d) => {
                proof {
                    lemma_leading_value_bound(d@);
                    lemma_pow10_values();
                }
                u8_from_ascii(d)
            },
            Err(e) => Err(e),
        }
    }
}

/// A `GetPowerAdjustment` reply of 3 value bytes reads as the decimal number they spell; a value with a
/// byte that is not a digit is an `InvalidResponseData` error holding the value.
pub proof fn lemma_get_power_adjustment_reply(v: Seq<u8>)
    requires
        v.len() == 3,
    ensures
        all_digits(v) && digits_value(v) <= 255 ==> GetPowerAdjustment::spec_parse_response(frame(get_power_adjustment_id(), v)) == Ok::<u8, Failure>(digits_value(v) as u8),
        !all_digits(v) ==> GetPowerAdjustment::spec_parse_response(frame(get_power_adjustment_id(), v)) == Err::<u8, Failure>(Failure::ResponseData(v)),
{
    lemma_framed_value_reads_back(get_power_adjustment_id(), v);
}

/// `^PJ`
pub open spec fn set_power_adjustment_id() -> Seq<u8> {
    seq![0x5E, 0x50, 0x4A]
}

fn set_power_adjustment_id_bytes() -> (r: &'static [u8])
    ensures
        r@ == set_power_adjustment_id(),
{
    &[0x5E, 0x50, 0x4A]
}

/// Set the power adjustment setting for the current band.
#[derive(Clone, Copy, Debug, PartialEq, Eq)]
pub struct SetPowerAdjustment {
    pub value: u8,
}

impl SetPowerAdjustment {
    /// The values the command accepts.
    pub open spec fn spec_in_range(self) -> bool {
        80 <= self.value <= 120
    }

    /// The argument bytes.
    pub open spec fn spec_args(self) -> Seq<u8> {
        uint_args(self.value as u32, 3)
    }

    /// The command, or `InvalidArgumentValue` for a value out of range.
    pub fn to_bytes(&self) -> (r: Result<Vec<u8>, RigError>)
        ensures
            self.spec_in_range() ==> (r matches Ok(b) && b@ == frame(set_power_adjustment_id(), self.spec_args())),
            !self.spec_in_range() ==> (r matches Err(e) && e.fails_with(
                Failure::ArgumentValue("value"@, "u8"@, decimal_string(self.value as int)),
            )),
    {
        encode_uint_in_range(set_power_adjustment_id_bytes(), "value", "u8", self.value as u32, 80, 120, 3)
    }
}

/// `SetPowerAdjustment` accepts `value` when `80 <= s.value <= 120` and sends it as decimal digits, zero-padded to 3.
pub proof fn lemma_set_power_adjustment_argument(s: SetPowerAdjustment)
    ensures
        s.spec_in_range() == (80 <= s.value <= 120),
        all_digits(s.spec_args()),
        digits_value(s.spec_args()) == s.value,
        (s.value as nat) < pow10(3) ==> s.spec_args().len() == 3,
{
    lemma_padded_decimal_value(s.value as nat, 3);
    if (s.value as nat) < pow10(3) {
        lemma_num_digits_le(s.value as nat, 3);
    }
}

/// `^RVM`
pub open spec fn get_firmware_version_id() -> Seq<u8> {
    seq![0x5E, 0x52, 0x56, 0x4D]
}

fn get_firmware_version_id_bytes() -> (r: &'static [u8])
    ensures
        r@ == get_firmware_version_id(),
{
    &[0x5E, 0x52, 0x56, 0x4D]
}

/// Get the firmware version string.
#[derive(Clone, Copy, Debug, PartialEq, Eq)]
pub struct GetFirmwareVersion;

impl GetFirmwareVersion {
    pub fn to_bytes(&self) -> (r: Vec<u8>)
        ensures
            r@ == frame(get_firmware_version_id(), seq![]),
    {
        let none: [u8; 0] = [];
        frame_command(get_firmware_version_id_bytes(), &none)
    }

    /// The value bytes of a framed reply.
    pub fn parse(&self, bytes: &[u8]) -> (r: Result<Vec<u8>, RigError>)
        ensures
            match spec_validate_response(bytes@, get_firmware_version_id(), 0) {
                Ok(v) => r matches Ok(d) && d@ == v,
                Err(f) => r matches Err(e) && e.fails_with(f),
            },
    {
        match validate_response(bytes, get_firmware_version_id_bytes(), 0) {
            Ok(d) => bytes_to_vec(d),
            Err(e) => Err(e),
        }
    }
}

/// `^SN`
pub open spec fn get_serial_number_id() -> Seq<u8> {
    seq![0x5E, 0x53, 0x4E]
}

fn get_serial_number_id_bytes() -> (r: &'static [u8])
    ensures
        r@ == get_serial_number_id(),
{
    &[0x5E, 0x53, 0x4E]
}

/// Get the KPA500 serial number.
#[derive(Clone, Copy, Debug, PartialEq, Eq)]
pub struct GetSerialNumber;

impl GetSerialNumber {
    pub fn to_bytes(&self) -> (r: Vec<u8>)
        ensures
            r@ == frame(get_serial_number_id(), seq![]),
    {
        let none: [u8; 0] = [];
        frame_command(get_serial_number_id_bytes(), &none)
    }

    pub open spec fn spec_parse_response(bytes: Seq<u8>) -> Result<u32, Failure> {
        match spec_validate_response(bytes, get_serial_number_id(), 5) {
            Ok(v) => spec_u32_field(v),
            Err(f) => Err(f),
        }
    }

    pub fn parse(&self, bytes: &[u8]) -> (r: Result<u32, RigError>)
        ensures
            agrees(r, Self::spec_parse_response(bytes@)),
    {
        match validate_response(bytes, get_serial_number_id_bytes(), 5) {
            Ok(d) => {
                proof {
                    lemma_leading_value_bound(d@);
                    lemma_pow10_values();
                }
                u32_from_ascii(d)
            },
            Err(e) => Err(e),
        }
    }
}

/// A `GetSerialNumber` reply of 5 value bytes reads as the decimal number they spell; a value with a
/// byte that is not a digit is an `InvalidResponseData` error holding the value.
pub proof fn lemma_get_serial_number_reply(v: Seq<u8>)
    requires
        v.len() == 5,
    ensures
        all_digits(v) && digits_value(v) <= u32::MAX ==> GetSerialNumber::spec_parse_response(frame(get_serial_number_id(), v)) == Ok::<u32, Failure>(digits_value(v) as u32),
        !all_digits(v) ==> GetSerialNumber::spec_parse_response(frame(get_serial_number_id(), v)) == Err::<u32, Failure>(Failure::ResponseData(v)),
{
    lemma_framed_value_reads_back(get_serial_number_id(), v);
}

/// `^SP`
pub open spec fn get_fault_speaker_id() -> Seq<u8> {
    seq![0x5E, 0x53, 0x50]
}

fn get_fault_speaker_id_bytes() -> (r: &'static [u8])
    ensures
        r@ == get_fault_speaker_id(),
{
    &[0x5E, 0x53, 0x50]
}

/// Get the fault speaker on/off state.
#[derive(Clone, Copy, Debug, PartialEq, Eq)]
pub struct GetFaultSpeaker;

impl GetFaultSpeaker {
    pub fn to_bytes(&self) -> (r: Vec<u8>)
        ensures
            r@ == frame(get_fault_speaker_id(), seq![]),
    {
        let none: [u8; 0] = [];
        frame_command(get_fault_speaker_id_bytes(), &none)
    }

    pub open spec fn spec_parse_response(bytes: Seq<u8>) -> Result<bool, Failure> {
        match spec_validate_response(bytes, get_fault_speaker_id(), 1) {
            Ok(v) => spec_bool_1_0(v[0]),
            Err(f) => Err(f),
        }
    }

    pub fn parse(&self, bytes: &[u8]) -> (r: Result<bool, RigError>)
        ensures
            agrees(r, Self::spec_parse_response(bytes@)),
    {
        match validate_response(bytes, get_fault_speaker_id_bytes(), 1) {
            Ok(d) => bool_from_ascii_1_0(d[0]),
            Err(e) => Err(e),
        }
    }
}

/// A `GetFaultSpeaker` reply whose value byte is `1` reads as `true`, `0` as `false`; any other byte is a
/// `ParseBoolean` error.
pub proof fn lemma_get_fault_speaker_reply(v: Seq<u8>)
    requires
        v.len() == 1,
    ensures
        v[0] == 0x31 ==> GetFaultSpeaker::spec_parse_response(frame(get_fault_speaker_id(), v)) == Ok::<bool, Failure>(true),
        v[0] == 0x30 ==> GetFaultSpeaker::spec_parse_response(frame(get_fault_speaker_id(), v)) == Ok::<bool, Failure>(false),
        v[0] != 0x30 && v[0] != 0x31 ==> GetFaultSpeaker::spec_parse_response(frame(get_fault_speaker_id(), v)) == Err::<bool, Failure>(Failure::Boolean(v[0])),
{
    lemma_framed_value_reads_back(get_fault_speaker_id(), v);
}

/// `^SP`
pub open spec fn set_fault_speaker_id() -> Seq<u8> {
    seq![0x5E, 0x53, 0x50]
}

fn set_fault_speaker_id_bytes() -> (r: &'static [u8])
    ensures
        r@ == set_fault_speaker_id(),
{
    &[0x5E, 0x53, 0x50]
}

/// Set the fault speaker on/off state.
#[derive(Clone, Copy, Debug, PartialEq, Eq)]
pub struct SetFaultSpeaker {
    pub state: bool,
}

impl SetFaultSpeaker {
    pub open spec fn spec_args(self) -> Seq<u8> {
        seq![if self.state { ASCII_DIGIT_ONE } else { ASCII_DIGIT_ZERO }]
    }

    pub fn to_bytes(&self) -> (r: Vec<u8>)
        ensures
            r@ == frame(set_fault_speaker_id(), self.spec_args()),
    {
        let args: [u8; 1] = [if self.state { ASCII_DIGIT_ONE } else { ASCII_DIGIT_ZERO }];
        assert(args@ =~= self.spec_args());
        frame_command(set_fault_speaker_id_bytes(), &args)
    }
}

/// `SetFaultSpeaker` sends `1` when `state` is set and `0` when it is clear.
pub proof fn lemma_set_fault_speaker_argument(s: SetFaultSpeaker)
    ensures
        s.state ==> s.spec_args() == seq![0x31u8],
        !s.state ==> s.spec_args() == seq![0x30u8],
{
}

/// `^TM`
pub open spec fn get_pa_temperature_id() -> Seq<u8> {
    seq![0x5E, 0x54, 0x4D]
}

fn get_pa_temperature_id_bytes() -> (r: &'static [u8])
    ensures
        r@ == get_pa_temperature_id(),
{
    &[0x5E, 0x54, 0x4D]
}

/// Get the PA temperature.
#[derive(Clone, Copy, Debug, PartialEq, Eq)]
pub struct GetPaTemperature;

impl GetPaTemperature {
    pub fn to_bytes(&self) -> (r: Vec<u8>)
        ensures
            r@ == frame(get_pa_temperature_id(), seq![]),
    {
        let none: [u8; 0] = [];
        frame_command(get_pa_temperature_id_bytes(), &none)
    }

    pub open spec fn spec_parse_response(bytes: Seq<u8>) -> Result<u8, Failure> {
        match spec_validate_response(bytes, get_pa_temperature_id(), 3) {
            Ok(v) => spec_u8_field(v),
            Err(f) => Err(f),
        }
    }

    /// Reads the digits of a framed reply; a value above 255 is outside the domain.
    pub fn parse(&self, bytes: &[u8]) -> (r: Result<u8, RigError>)
        requires
            spec_validate_response(bytes@, get_pa_temperature_id(), 3) matches Ok(v) ==> leading_value(v) <= u8::MAX,
        ensures
            agrees(r, Self::spec_parse_response(bytes@)),
    {
        match validate_response(bytes, get_pa_temperature_id_bytes(), 3) {
            Ok(d) => {
                proof {
                    lemma_leading_value_bound(d@);
                    lemma_pow10_values();
                }
                u8_from_ascii(d)
            },
            Err(e) => Err(e),
        }
    }
}

/// A `GetPaTemperature` reply of 3 value bytes reads as the decimal number they spell; a value with a
/// byte that is not a digit is an `InvalidResponseData` error holding the value.
pub proof fn lemma_get_pa_temperature_reply(v: Seq<u8>)
    requires
        v.len() == 3,
    ensures
        all_digits(v) && digits_value(v) <= 255 ==> GetPaTemperature::spec_parse_response(frame(get_pa_temperature_id(), v)) == Ok::<u8, Failure>(digits_value(v) as u8),
        !all_digits(v) ==> GetPaTemperature::spec_parse_response(frame(get_pa_temperature_id(), v)) == Err::<u8, Failure>(Failure::ResponseData(v)),
{
    lemma_framed_value_reads_back(get_pa_temperature_id(), v);
}

/// `^TR`
pub open spec fn get_tr_delay_id() -> Seq<u8> {
    seq![0x5E, 0x54, 0x52]
}

fn get_tr_delay_id_bytes() -> (r: &'static [u8])
    ensures
        r@ == get_tr_delay_id(),
{
    &[0x5E, 0x54, 0x52]
}

/// Get the T/R (transmit-to-receive) delay time.
#[derive(Clone, Copy, Debug, PartialEq, Eq)]
pub struct GetTrDelay;

impl GetTrDelay {
    pub fn to_bytes(&self) -> (r: Vec<u8>)
        ensures
            r@ == frame(get_tr_delay_id(), seq![]),
    {
        let none: [u8; 0] = [];
        frame_command(get_tr_delay_id_bytes(), &none)
    }

    pub open spec fn spec_parse_response(bytes: Seq<u8>) -> Result<u8, Failure> {
        match spec_validate_response(bytes, get_tr_delay_id(), 2) {
            Ok(v) => spec_u8_field(v),
            Err(f) => Err(f),
        }
    }

    pub fn parse(&self, bytes: &[u8]) -> (r: Result<u8, RigError>)
        ensures
            agrees(r, Self::spec_parse_response(bytes@)),
    {
        match validate_response(bytes, get_tr_delay_id_bytes(), 2) {
            Ok(d) => {
                proof {
                    lemma_leading_value_bound(d@);
                    lemma_pow10_values();
                }
                u8_from_ascii(d)
            },
            Err(e) => Err(e),
        }
    }
}

/// A `GetTrDelay` reply of 2 value bytes reads as the decimal number they spell; a value with a
/// byte that is not a digit is an `InvalidResponseData` error holding the value.
pub proof fn lemma_get_tr_delay_reply(v: Seq<u8>)
    requires
        v.len() == 2,
    ensures
        all_digits(v) && digits_value(v) <= 255 ==> GetTrDelay::spec_parse_response(frame(get_tr_delay_id(), v)) == Ok::<u8, Failure>(digits_value(v) as u8),
        !all_digits(v) ==> GetTrDelay::spec_parse_response(frame(get_tr_delay_id(), v)) == Err::<u8, Failure>(Failure::ResponseData(v)),
{
    lemma_framed_value_reads_back(get_tr_delay_id(), v);
}

/// `^TR`
pub open spec fn set_tr_delay_id() -> Seq<u8> {
    seq![0x5E, 0x54, 0x52]
}

fn set_tr_delay_id_bytes() -> (r: &'static [u8])
    ensures
        r@ == set_tr_delay_id(),
{
    &[0x5E, 0x54, 0x52]
}

/// Set the T/R (transmit-to-receive) delay time.
#[derive(Clone, Copy, Debug, PartialEq, Eq)]
pub struct SetTrDelay {
    pub ms: u8,
}

impl SetTrDelay {
    /// The values the command accepts.
    pub open spec fn spec_in_range(self) -> bool {
        self.ms <= 50
    }

    /// The argument bytes.
    pub open spec fn spec_args(self) -> Seq<u8> {
        uint_args(self.ms as u32, 2)
    }

    /// The command, or `InvalidArgumentValue` for a value out of range.
    pub fn to_bytes(&self) -> (r: Result<Vec<u8>, RigError>)
        ensures
            self.spec_in_range() ==> (r matches Ok(b) && b@ == frame(set_tr_delay_id(), self.spec_args())),
            !self.spec_in_range() ==> (r matches Err(e) && e.fails_with(
                Failure::ArgumentValue("ms"@, "u8"@, decimal_string(self.ms as int)),
            )),
    {
        encode_uint_in_range(set_tr_delay_id_bytes(), "ms", "u8", self.ms as u32, 0, 50, 2)
    }
}

/// `SetTrDelay` accepts `ms` when `s.ms <= 50` and sends it as decimal digits, zero-padded to 2.
pub proof fn lemma_set_tr_delay_argument(s: SetTrDelay)
    ensures
        s.spec_in_range() == (s.ms <= 50),
        all_digits(s.spec_args()),
        digits_value(s.spec_args()) == s.ms,
        (s.ms as nat) < pow10(2) ==> s.spec_args().len() == 2,
{
    lemma_padded_decimal_value(s.ms as nat, 2);
    if (s.ms as nat) < pow10(2) {
        lemma_num_digits_le(s.ms as nat, 2);
    }
}

/// `^VI`
pub open spec fn get_pa_voltage_current_id() -> Seq<u8> {
    seq![0x5E, 0x56, 0x49]
}

fn get_pa_voltage_current_id_bytes() -> (r: &'static [u8])
    ensures
        r@ == get_pa_voltage_current_id(),
{
    &[0x5E, 0x56, 0x49]
}

/// The PA voltage in tenths of a volt and current in tenths of an ampere.
#[derive(Clone, Copy, Debug, PartialEq, Eq)]
pub struct PaVoltageCurrent {
    pub voltage_dv: u16,
    pub current_da: u16,
}

/// What a `^VI` reply value gives, its fields read in order.
pub open spec fn spec_pa_voltage_current(v: Seq<u8>) -> Result<PaVoltageCurrent, Failure> {
    match spec_u16_field(v.subrange(0, 3)) {
        Err(f) => Err(f),
        Ok(voltage_dv) => {
            match spec_u16_field(v.subrange(4, 7)) {
                Err(f) => Err(f),
                Ok(current_da) => {
                    Ok(PaVoltageCurrent { voltage_dv, current_da })
                },
            }
        },
    }
}

/// Each field of the reply value comes from its fixed position, read as a decimal number or a
/// `1`/`0` flag: `voltage_dv` from bytes 0 to 2, `current_da` from bytes 4 to 6; when every number field is digits that fit, the value reads.
pub proof fn lemma_pa_voltage_current_positions(v: Seq<u8>)
    requires
        v.len() >= 7,
    ensures
        spec_pa_voltage_current(v) matches Ok(r) ==> (r.voltage_dv == digits_value(v.subrange(0, 3)) && r.current_da == digits_value(v.subrange(4, 7))),
        (all_digits(v.subrange(0, 3)) && digits_value(v.subrange(0, 3)) <= u16::MAX && all_digits(v.subrange(4, 7)) && digits_value(v.subrange(4, 7)) <= u16::MAX) ==> spec_pa_voltage_current(v) is Ok,
{
}

/// Get the PA voltage and current: `^VI;`, answered by `^VI{vvv} {iii};`.
#[derive(Clone, Copy, Debug, PartialEq, Eq)]
pub struct GetPaVoltageCurrent;

impl GetPaVoltageCurrent {
    pub fn to_bytes(&self) -> (r: Vec<u8>)
        ensures
            r@ == frame(get_pa_voltage_current_id(), seq![]),
    {
        let none: [u8; 0] = [];
        frame_command(get_pa_voltage_current_id_bytes(), &none)
    }

    pub open spec fn spec_parse_response(bytes: Seq<u8>) -> Result<PaVoltageCurrent, Failure> {
        match spec_validate_response(bytes, get_pa_voltage_current_id(), 7) {
            Ok(v) => spec_pa_voltage_current(v),
            Err(f) => Err(f),
        }
    }

    pub fn parse(&self, bytes: &[u8]) -> (r: Result<PaVoltageCurrent, RigError>)
        ensures
            agrees(r, Self::spec_parse_response(bytes@)),
    {
        let d = match validate_response(bytes, get_pa_voltage_current_id_bytes(), 7) {
            Ok(d) => d,
            Err(e) => return Err(e),
        };
        let voltage_dv_digits = &d[0..3];
        proof {
            lemma_leading_value_bound(voltage_dv_digits@);
            lemma_pow10_values();
        }
        let voltage_dv = match u16_from_ascii(voltage_dv_digits) {
            Ok(x) => x,
            Err(e) => return Err(e),
        };
        let current_da_digits = &d[4..7];
        proof {
            lemma_leading_value_bound(current_da_digits@);
            lemma_pow10_values();
        }
        let current_da = match u16_from_ascii(current_da_digits) {
            Ok(x) => x,
            Err(e) => return Err(e),
        };
        Ok(PaVoltageCurrent { voltage_dv, current_da })
    }
}

/// `^WS`
pub open spec fn get_power_and_swr_id() -> Seq<u8> {
    seq![0x5E, 0x57, 0x53]
}

fn get_power_and_swr_id_bytes() -> (r: &'static [u8])
    ensures
        r@ == get_power_and_swr_id(),
{
    &[0x5E, 0x57, 0x53]
}

/// The output power in watts and the SWR times ten.
#[derive(Clone, Copy, Debug, PartialEq, Eq)]
pub struct PowerAndSwr {
    pub power_w: u16,
    pub swr_d: u16,
}

/// What a `^WS` reply value gives, its fields read in order.
pub open spec fn spec_power_and_swr(v: Seq<u8>) -> Result<PowerAndSwr, Failure> {
    match spec_u16_field(v.subrange(0, 3)) {
        Err(f) => Err(f),
        Ok(power_w) => {
            match spec_u16_field(v.subrange(4, 7)) {
                Err(f) => Err(f),
                Ok(swr_d) => {
                    Ok(PowerAndSwr { power_w, swr_d })
                },
            }
        },
    }
}

/// Each field of the reply value comes from its fixed position, read as a decimal number or a
/// `1`/`0` flag: `power_w` from bytes 0 to 2, `swr_d` from bytes 4 to 6; when every number field is digits that fit, the value reads.
pub proof fn lemma_power_and_swr_positions(v: Seq<u8>)
    requires
        v.len() >= 7,
    ensures
        spec_power_and_swr(v) matches Ok(r) ==> (r.power_w == digits_value(v.subrange(0, 3)) && r.swr_d == digits_value(v.subrange(4, 7))),
        (all_digits(v.subrange(0, 3)) && digits_value(v.subrange(0, 3)) <= u16::MAX && all_digits(v.subrange(4, 7)) && digits_value(v.subrange(4, 7)) <= u16::MAX) ==> spec_power_and_swr(v) is Ok,
{
}

/// Get the output power and SWR: `^WS;`, answered by `^WS{ppp} {sss};`.
#[derive(Clone, Copy, Debug, PartialEq, Eq)]
pub struct GetPowerAndSwr;

impl GetPowerAndSwr {
    pub fn to_bytes(&self) -> (r: Vec<u8>)
        ensures
            r@ == frame(get_power_and_swr_id(), seq![]),
    {
        let none: [u8; 0] = [];
        frame_command(get_power_and_swr_id_bytes(), &none)
    }

    pub open spec fn spec_parse_response(bytes: Seq<u8>) -> Result<PowerAndSwr, Failure> {
        match spec_validate_response(bytes, get_power_and_swr_id(), 7) {
            Ok(v) => spec_power_and_swr(v),
            Err(f) => Err(f),
        }
    }

    pub fn parse(&self, bytes: &[u8]) -> (r: Result<PowerAndSwr, RigError>)
        ensures
            agrees(r, Self::spec_parse_response(bytes@)),
    {
        let d = match validate_response(bytes, get_power_and_swr_id_bytes(), 7) {
            Ok(d) => d,
            Err(e) => return Err(e),
        };
        let power_w_digits = &d[0..3];
        proof {
            lemma_leading_value_bound(power_w_digits@);
            lemma_pow10_values();
        }
        let power_w = match u16_from_ascii(power_w_digits) {
            Ok(x) => x,
            Err(e) => return Err(e),
        };
        let swr_d_digits = &d[4..7];
        proof {
            lemma_leading_value_bound(swr_d_digits@);
            lemma_pow10_values();
        }
        let swr_d = match u16_from_ascii(swr_d_digits) {
            Ok(x) => x,
            Err(e) => return Err(e),
        };
        Ok(PowerAndSwr { power_w, swr_d })
    }
}

/// `^XI`
pub open spec fn get_radio_interface_id() -> Seq<u8> {
    seq![0x5E, 0x58, 0x49]
}

fn get_radio_interface_id_bytes() -> (r: &'static [u8])
    ensures
        r@ == get_radio_interface_id(),
{
    &[0x5E, 0x58, 0x49]
}

/// The radio interface type and option bit.
#[derive(Clone, Copy, Debug, PartialEq, Eq)]
pub struct RadioInterface {
    /// `0` K3, `1` BCD, `2` analog, `3` Elecraft/Kenwood serial.
    pub interface_type: u8,
    pub option: u8,
}

/// What a `^XI` reply value gives: the two-digit type, then the option digit.
pub open spec fn spec_radio_interface(v: Seq<u8>) -> Result<RadioInterface, Failure> {
    match spec_u8_field(v.subrange(0, 2)) {
        Err(f) => Err(f),
        Ok(interface_type) => {
            Ok(RadioInterface { interface_type, option: (v[2] - ASCII_DIGIT_ZERO) as u8 })
        },
    }
}

/// Each field of the reply value comes from its fixed position, read as a decimal number or a
/// `1`/`0` flag: `interface_type` from bytes 0 to 1, `option` from byte 2; when every number field is digits that fit, the value reads.
pub proof fn lemma_radio_interface_positions(v: Seq<u8>)
    requires
        v.len() >= 3,
    ensures
        spec_radio_interface(v) matches Ok(r) ==> ((digits_value(v.subrange(0, 2)) <= 255 ==> r.interface_type == digits_value(v.subrange(0, 2))) && (0x30 <= v[2] ==> r.option == v[2] - 0x30)),
        (all_digits(v.subrange(0, 2)) && digits_value(v.subrange(0, 2)) <= 255) ==> spec_radio_interface(v) is Ok,
{
}

/// Get the radio interface: `^XI;`, answered by `^XI{tt}{o};`.
#[derive(Clone, Copy, Debug, PartialEq, Eq)]
pub struct GetRadioInterface;

impl GetRadioInterface {
    pub fn to_bytes(&self) -> (r: Vec<u8>)
        ensures
            r@ == frame(get_radio_interface_id(), seq![]),
    {
        let none: [u8; 0] = [];
        frame_command(get_radio_interface_id_bytes(), &none)
    }

    pub open spec fn spec_parse_response(bytes: Seq<u8>) -> Result<RadioInterface, Failure> {
        match spec_validate_response(bytes, get_radio_interface_id(), 3) {
            Ok(v) => spec_radio_interface(v),
            Err(f) => Err(f),
        }
    }

    /// Reads a framed reply; an option byte below `0` is outside the domain.
    pub fn parse(&self, bytes: &[u8]) -> (r: Result<RadioInterface, RigError>)
        requires
            spec_validate_response(bytes@, get_radio_interface_id(), 3) matches Ok(v) ==> v[2] >= ASCII_DIGIT_ZERO,
        ensures
            agrees(r, Self::spec_parse_response(bytes@)),
    {
        let d = match validate_response(bytes, get_radio_interface_id_bytes(), 3) {
            Ok(d) => d,
            Err(e) => return Err(e),
        };
        let digits = &d[0..2];
        proof {
            lemma_leading_value_bound(digits@);
            lemma_pow10_values();
        }
        let interface_type = match u8_from_ascii(digits) {
            Ok(x) => x,
            Err(e) => return Err(e),
        };
        Ok(RadioInterface { interface_type, option: d[2] - ASCII_DIGIT_ZERO })
    }
}

/// `^XI`
pub open spec fn set_radio_interface_id() -> Seq<u8> {
    seq![0x5E, 0x58, 0x49]
}

fn set_radio_interface_id_bytes() -> (r: &'static [u8])
    ensures
        r@ == set_radio_interface_id(),
{
    &[0x5E, 0x58, 0x49]
}

/// Set the radio interface: `^XI{tt}{o};`, with the type at most 3 and the option 0 or 1.
#[derive(Clone, Copy, Debug, PartialEq, Eq)]
pub struct SetRadioInterface {
    pub interface_type: u8,
    pub option: u8,
}

impl SetRadioInterface {
    /// The argument: the type in two digits, then the option digit.
    pub open spec fn spec_args(self) -> Seq<u8> {
        padded_decimal(self.interface_type as nat, 2).push((ASCII_DIGIT_ZERO + self.option) as u8)
    }

    /// The command; a type above 3, then an option above 1, is `InvalidArgumentValue`.
    pub fn to_bytes(&self) -> (r: Result<Vec<u8>, RigError>)
        ensures
            self.interface_type > 3 ==> (r matches Err(e) && e.fails_with(
                Failure::ArgumentValue("interface_type"@, "u8"@, decimal_string(self.interface_type as int)),
            )),
            self.interface_type <= 3 && self.option > 1 ==> (r matches Err(e) && e.fails_with(
                Failure::ArgumentValue("option"@, "u8"@, decimal_string(self.option as int)),
            )),
            self.interface_type <= 3 && self.option <= 1 ==> (r matches Ok(b) && b@ == frame(set_radio_interface_id(), self.spec_args())),
    {
        match validate_integer_in_range("interface_type", "u8", self.interface_type as i64, 0, 3) {
            Ok(()) => {},
            Err(e) => return Err(e),
        }
        match validate_integer_in_range("option", "u8", self.option as i64, 0, 1) {
            Ok(()) => {},
            Err(e) => return Err(e),
        }
        let mut v = format_uint_ascii(self.interface_type as u64, 2);
        v.push(ASCII_DIGIT_ZERO + self.option);
        Ok(frame_command(set_radio_interface_id_bytes(), v.as_slice()))
    }
}

// ------------------------------------------------------------------------------------------------
// Reading back what was set
// ------------------------------------------------------------------------------------------------

/// A value set with `SetAlcThreshold` reads back unchanged from the echoed reply.
pub proof fn lemma_alc_threshold_round_trip(value: u16)
    requires
        value < 1000,
        value <= 210,
    ensures
        GetAlcThreshold::spec_parse_response(frame(set_alc_threshold_id(), uint_args(value as u32, 3))) == Ok::<u16, Failure>(value),
{
    let args = uint_args(value as u32, 3);
    lemma_padded_decimal_value(value as nat, 3);
    lemma_pow10_values();
    lemma_num_digits_le(value as nat, 3);
    let bytes = frame(set_alc_threshold_id(), args);
    assert(bytes.take(3) =~= get_alc_threshold_id());
    assert(response_value(bytes, get_alc_threshold_id()) =~= args);
}

/// A value set with `SetAttenuatorReleaseTime` reads back unchanged from the echoed reply.
pub proof fn lemma_attenuator_release_time_round_trip(value: u16)
    requires
        value < 10000,
        1400 <= value,
        value <= 5000,
    ensures
        GetAttenuatorReleaseTime::spec_parse_response(frame(set_attenuator_release_time_id(), uint_args(value as u32, 4))) == Ok::<u16, Failure>(value),
{
    let args = uint_args(value as u32, 4);
    lemma_padded_decimal_value(value as nat, 4);
    lemma_pow10_values();
    lemma_num_digits_le(value as nat, 4);
    let bytes = frame(set_attenuator_release_time_id(), args);
    assert(bytes.take(3) =~= get_attenuator_release_time_id());
    assert(response_value(bytes, get_attenuator_release_time_id()) =~= args);
}

/// The reply that echoes a `SetStandbyOnBandChange` command reads as the state that was set.
pub proof fn lemma_standby_on_band_change_round_trip(state: bool)
    ensures
        GetStandbyOnBandChange::spec_parse_response(frame(set_standby_on_band_change_id(), (SetStandbyOnBandChange { enabled: state }).spec_args()))
            == Ok::<bool, Failure>(state),
{
    let args = (SetStandbyOnBandChange { enabled: state }).spec_args();
    let bytes = frame(set_standby_on_band_change_id(), args);
    assert(bytes.take(3) =~= get_standby_on_band_change_id());
    assert(response_value(bytes, get_standby_on_band_change_id()) =~= args);
}

/// A value set with `SetBandSelection` reads back unchanged from the echoed reply.
pub proof fn lemma_band_selection_round_trip(value: u8)
    requires
        value < 100,
        value <= 10,
    ensures
        GetBandSelection::spec_parse_response(frame(set_band_selection_id(), uint_args(value as u32, 2))) == Ok::<u8, Failure>(value),
{
    let args = uint_args(value as u32, 2);
    lemma_padded_decimal_value(value as nat, 2);
    lemma_pow10_values();
    lemma_num_digits_le(value as nat, 2);
    let bytes = frame(set_band_selection_id(), args);
    assert(bytes.take(3) =~= get_band_selection_id());
    assert(response_value(bytes, get_band_selection_id()) =~= args);
}

/// A value set with `SetPcBaudRate` reads back unchanged from the echoed reply.
pub proof fn lemma_pc_baud_rate_round_trip(value: u8)
    requires
        value < 10,
        value <= 3,
    ensures
        GetPcBaudRate::spec_parse_response(frame(set_pc_baud_rate_id(), uint_args(value as u32, 1))) == Ok::<u8, Failure>(value),
{
    let args = uint_args(value as u32, 1);
    lemma_padded_decimal_value(value as nat, 1);
    lemma_pow10_values();
    lemma_num_digits_le(value as nat, 1);
    let bytes = frame(set_pc_baud_rate_id(), args);
    assert(bytes.take(4) =~= get_pc_baud_rate_id());
    assert(response_value(bytes, get_pc_baud_rate_id()) =~= args);
}

/// A value set with `SetXcvrBaudRate` reads back unchanged from the echoed reply.
pub proof fn lemma_xcvr_baud_rate_round_trip(value: u8)
    requires
        value < 10,
        value <= 3,
    ensures
        GetXcvrBaudRate::spec_parse_response(frame(set_xcvr_baud_rate_id(), uint_args(value as u32, 1))) == Ok::<u8, Failure>(value),
{
    let args = uint_args(value as u32, 1);
    lemma_padded_decimal_value(value as nat, 1);
    lemma_pow10_values();
    lemma_num_digits_le(value as nat, 1);
    let bytes = frame(set_xcvr_baud_rate_id(), args);
    assert(bytes.take(4) =~= get_xcvr_baud_rate_id());
    assert(response_value(bytes, get_xcvr_baud_rate_id()) =~= args);
}

/// The reply that echoes a `SetDemoMode` command reads as the state that was set.
pub proof fn lemma_demo_mode_round_trip(state: bool)
    ensures
        GetDemoMode::spec_parse_response(frame(set_demo_mode_id(), (SetDemoMode { enabled: state }).spec_args()))
            == Ok::<bool, Failure>(state),
{
    let args = (SetDemoMode { enabled: state }).spec_args();
    let bytes = frame(set_demo_mode_id(), args);
    assert(bytes.take(4) =~= get_demo_mode_id());
    assert(response_value(bytes, get_demo_mode_id()) =~= args);
}

/// A value set with `SetFanMinimumSpeed` reads back unchanged from the echoed reply.
pub proof fn lemma_fan_minimum_speed_round_trip(value: u8)
    requires
        value < 10,
        value <= 6,
    ensures
        GetFanMinimumSpeed::spec_parse_response(frame(set_fan_minimum_speed_id(), uint_args(value as u32, 1))) == Ok::<u8, Failure>(value),
{
    let args = uint_args(value as u32, 1);
    lemma_padded_decimal_value(value as nat, 1);
    lemma_pow10_values();
    lemma_num_digits_le(value as nat, 1);
    let bytes = frame(set_fan_minimum_speed_id(), args);
    assert(bytes.take(3) =~= get_fan_minimum_speed_id());
    assert(response_value(bytes, get_fan_minimum_speed_id()) =~= args);
}

/// The reply that echoes a `SetInhibitInput` command reads as the state that was set.
pub proof fn lemma_inhibit_input_round_trip(state: bool)
    ensures
        GetInhibitInput::spec_parse_response(frame(set_inhibit_input_id(), (SetInhibitInput { enabled: state }).spec_args()))
            == Ok::<bool, Failure>(state),
{
    let args = (SetInhibitInput { enabled: state }).spec_args();
    let bytes = frame(set_inhibit_input_id(), args);
    assert(bytes.take(3) =~= get_inhibit_input_id());
    assert(response_value(bytes, get_inhibit_input_id()) =~= args);
}

/// The reply that echoes a `SetOperateMode` command reads as the state that was set.
pub proof fn lemma_operate_mode_round_trip(state: bool)
    ensures
        GetOperateMode::spec_parse_response(frame(set_operate_mode_id(), (SetOperateMode { operate: state }).spec_args()))
            == Ok::<bool, Failure>(state),
{
    let args = (SetOperateMode { operate: state }).spec_args();
    let bytes = frame(set_operate_mode_id(), args);
    assert(bytes.take(3) =~= get_operate_mode_id());
    assert(response_value(bytes, get_operate_mode_id()) =~= args);
}

/// A value set with `SetPowerAdjustment` reads back unchanged from the echoed reply.
pub proof fn lemma_power_adjustment_round_trip(value: u8)
    requires
        value < 1000,
        80 <= value,
        value <= 120,
    ensures
        GetPowerAdjustment::spec_parse_response(frame(set_power_adjustment_id(), uint_args(value as u32, 3))) == Ok::<u8, Failure>(value),
{
    let args = uint_args(value as u32, 3);
    lemma_padded_decimal_value(value as nat, 3);
    lemma_pow10_values();
    lemma_num_digits_le(value as nat, 3);
    let bytes = frame(set_power_adjustment_id(), args);
    assert(bytes.take(3) =~= get_power_adjustment_id());
    assert(response_value(bytes, get_power_adjustment_id()) =~= args);
}

/// The reply that echoes a `SetFaultSpeaker` command reads as the state that was set.
pub proof fn lemma_fault_speaker_round_trip(state: bool)
    ensures
        GetFaultSpeaker::spec_parse_response(frame(set_fault_speaker_id(), (SetFaultSpeaker { state: state }).spec_args()))
            == Ok::<bool, Failure>(state),
{
    let args = (SetFaultSpeaker { state: state }).spec_args();
    let bytes = frame(set_fault_speaker_id(), args);
    assert(bytes.take(3) =~= get_fault_speaker_id());
    assert(response_value(bytes, get_fault_speaker_id()) =~= args);
}

/// A value set with `SetTrDelay` reads back unchanged from the echoed reply.
pub proof fn lemma_tr_delay_round_trip(value: u8)
    requires
        value < 100,
        value <= 50,
    ensures
        GetTrDelay::spec_parse_response(frame(set_tr_delay_id(), uint_args(value as u32, 2))) == Ok::<u8, Failure>(value),
{
    let args = uint_args(value as u32, 2);
    lemma_padded_decimal_value(value as nat, 2);
    lemma_pow10_values();
    lemma_num_digits_le(value as nat, 2);
    let bytes = frame(set_tr_delay_id(), args);
    assert(bytes.take(3) =~= get_tr_delay_id());
    assert(response_value(bytes, get_tr_delay_id()) =~= args);
}

} // verus!
