//! CAT commands specific to or extended on the Elecraft K2, via the KIO2 interface.
//!
//! Commands follow the KIO2 Programmer's Reference, rev. E.

use vstd::prelude::*;

use crate::protocol::cat::digits::pow10;

use crate::protocol::cat::lemma_framed_value_reads_back;

use crate::api::Level;
use crate::error::{Failure, RigError, agrees, invalid_response_data, invalid_response_length};
use crate::error::ranges::Ranges;
use crate::protocol::Frequency;
use crate::protocol::cat::{frame, frame_command};
use crate::protocol::cat::common::{
    lemma_bit_weights,
    ASCII_DIGIT_ONE, ASCII_DIGIT_ZERO, all_printable_ascii, ascii_chars, assert_all_bytes_eq,
    assert_byte_eq, bit_set, bool_from_ascii_1_0, format_uint_ascii, is_bit_set, response_value,
    spec_bool_1_0, spec_u16_field, spec_u8_field, spec_validate_response, string_from_ascii,
    u16_from_ascii, u8_from_ascii, validate_response,
};
use crate::protocol::cat::digits::{
    all_digits, digits_value, lemma_leading_value_bound, lemma_num_digits_le,
    lemma_padded_decimal_value, lemma_pow10_values, padded_decimal,
};
use crate::protocol::cat::elecraft::Vfo;

verus! {

// ------------------------------------------------------------------------------------------------
// VFO A display text: `DS`
// ------------------------------------------------------------------------------------------------

/// Bit 7 of a display byte marks the decimal point to the left of the character.
pub open spec fn decimal_point_flag(b: u8) -> bool {
    b & 0x80 != 0
}

/// A display byte with its decimal-point bit cleared.
pub open spec fn display_char(b: u8) -> u8 {
    if b & 0x80 != 0 {
        b & 0x7F
    } else {
        b
    }
}

/// Bit 7 of a display byte is its decimal point: a byte of `0x80` or more has the point, and its
/// character is the byte less `0x80`; a smaller byte is its own character.
pub proof fn lemma_display_byte(b: u8)
    ensures
        decimal_point_flag(b) == (b >= 0x80),
        b >= 0x80 ==> display_char(b) == b - 0x80,
        b < 0x80 ==> display_char(b) == b,
{
    assert((b & 0x80 != 0) == (b >= 0x80) && (b >= 0x80 ==> b & 0x7F == b - 0x80)) by (bit_vector);
}

/// The display characters of the text bytes.
pub open spec fn display_chars(bytes: Seq<u8>) -> Seq<u8> {
    bytes.map_values(|b: u8| display_char(b))
}

/// The failure, if any, of splitting display text bytes; `None` when they split.
pub open spec fn spec_text_failure(bytes: Seq<u8>) -> Option<Failure> {
    if bytes.len() != 8 {
        Some(Failure::ResponseData(bytes))
    } else if exists|i: int| 0 <= i < 8 && #[trigger] bytes[i] < 0x30 {
        Some(Failure::ResponseData(bytes))
    } else if !all_printable_ascii(display_chars(bytes)) {
        Some(Failure::ResponseData(display_chars(bytes)))
    } else {
        None
    }
}

/// Splits the 8 bytes of display text into the text and its decimal-point flags.
///
/// Fails with `InvalidResponseData` holding the bytes when there are not exactly 8 of them or a
/// byte is below `0x30`, and holding the text when a character, its decimal-point bit cleared,
/// is not a graphic ASCII character or a space.
pub fn parse_text_and_decimal_flags(bytes: &[u8]) -> (r: Result<(String, [bool; 8]), RigError>)
    ensures
        bytes.len() != 8 ==> (r matches Err(e) && e.is_invalid_response_data(bytes@)),
        bytes.len() == 8 && (exists|i: int| 0 <= i < 8 && #[trigger] bytes@[i] < 0x30) ==> (r matches Err(e)
            && e.is_invalid_response_data(bytes@)),
        bytes.len() == 8 && (forall|i: int| 0 <= i < 8 ==> #[trigger] bytes@[i] >= 0x30) ==> {
            if all_printable_ascii(display_chars(bytes@)) {
                r matches Ok((text, flags)) && text@ == ascii_chars(display_chars(bytes@))
                    && (forall|i: int| 0 <= i < 8 ==> flags[i] == decimal_point_flag(#[trigger] bytes@[i]))
            } else {
                r matches Err(e) && e.is_invalid_response_data(display_chars(bytes@))
            }
        },
        match spec_text_failure(bytes@) {
            Some(f) => r matches Err(e) && e.fails_with(f),
            None => r matches Ok((text, flags)) && text@ == ascii_chars(display_chars(bytes@))
                && (forall|i: int| 0 <= i < 8 ==> flags[i] == decimal_point_flag(#[trigger] bytes@[i])),
        },
{
    if bytes.len() != 8 {
        return Err(invalid_response_data(bytes));
    }
    let mut i: usize = 0;
    while i < 8
        invariant
            i <= 8,
            bytes.len() == 8,
            forall|j: int| 0 <= j < i ==> #[trigger] bytes@[j] >= 0x30,
        decreases 8 - i,
    {
        if bytes[i] < 0x30 {
            return Err(invalid_response_data(bytes));
        }
        i = i + 1;
    }
    let mut text: Vec<u8> = Vec::new();
    let mut flags: Vec<bool> = Vec::new();
    let mut i: usize = 0;
    while i < 8
        invariant
            i <= 8,
            bytes.len() == 8,
            text@ == display_chars(bytes@.take(i as int)),
            flags.len() == i,
            forall|j: int| 0 <= j < i ==> flags@[j] == decimal_point_flag(#[trigger] bytes@[j]),
        decreases 8 - i,
    {
        let b = bytes[i];
        if b & 0x80 != 0 {
            flags.push(true);
            text.push(b & 0x7F);
        } else {
            flags.push(false);
            text.push(b);
        }
        assert(display_chars(bytes@.take(i + 1)) =~= display_chars(bytes@.take(i as int)).push(
            display_char(b),
        ));
        i = i + 1;
    }
    assert(bytes@.take(8) =~= bytes@);
    let decimal_points: [bool; 8] = [
        flags[0],
        flags[1],
        flags[2],
        flags[3],
        flags[4],
        flags[5],
        flags[6],
        flags[7],
    ];
    match string_from_ascii(text.as_slice()) {
        Ok(s) => Ok((s, decimal_points)),
        Err(e) => Err(e),
    }
}


// ------------------------------------------------------------------------------------------------
// K2 command mode: `K2`
// ------------------------------------------------------------------------------------------------

/// `K2`
pub open spec fn k2_command_mode_id() -> Seq<u8> {
    seq![0x4B, 0x32]
}

fn k2_command_mode_id_bytes() -> (r: &'static [u8])
    ensures
        r@ == k2_command_mode_id(),
{
    &[0x4B, 0x32]
}

/// The K2 meta-command mode: whether command extensions are on, and whether RTTY is reported as
/// LSB/USB.
#[derive(Clone, Copy, Debug, PartialEq, Eq)]
pub struct K2CommandMode {
    /// `true` for the extended RSP format.
    pub extended: bool,
    /// `true` when RTTY decode is off.
    pub rtty_off: bool,
}

impl K2CommandMode {
    /// What `try_from` gives for a response value: bit 1 of the byte is the extended flag and
    /// bit 0 the RTTY-off flag.
    pub open spec fn spec_try_from(value: Seq<u8>) -> Result<K2CommandMode, Failure> {
        if value.len() != 1 {
            Err(Failure::ResponseLength(Ranges::Just(1), value.len() as usize))
        } else {
            Ok(K2CommandMode { extended: value[0] & 0x02 != 0, rtty_off: value[0] & 0x01 != 0 })
        }
    }

    /// Reads the one-byte response value.
    pub fn try_from(value: &[u8]) -> (r: Result<K2CommandMode, RigError>)
        ensures
            agrees(r, Self::spec_try_from(value@)),
    {
        if value.len() != 1 {
            Err(invalid_response_length(Ranges::Just(1), value.len()))
        } else {
            Ok(K2CommandMode { extended: value[0] & 0x02 != 0, rtty_off: value[0] & 0x01 != 0 })
        }
    }

    /// The displayed name of the mode.
    pub fn display_name(&self) -> (s: &'static str)
        ensures
            s@ == (if !self.extended && !self.rtty_off {
                "K2 Normal Mode"@
            } else if !self.extended {
                "K2 Normal/RTTY off"@
            } else if !self.rtty_off {
                "K2 Extended Mode"@
            } else {
                "K2 Extended/RTTY off"@
            }),
    {
        if !self.extended && !self.rtty_off {
            "K2 Normal Mode"
        } else if !self.extended {
            "K2 Normal/RTTY off"
        } else if !self.rtty_off {
            "K2 Extended Mode"
        } else {
            "K2 Extended/RTTY off"
        }
    }
}

/// Get the K2 meta-command mode: `K2;`, answered by `K2{n};`.
#[derive(Clone, Copy, Debug, PartialEq, Eq)]
pub struct GetK2CommandMode;

impl GetK2CommandMode {
    pub fn to_bytes(&self) -> (r: Vec<u8>)
        ensures
            r@ == frame(k2_command_mode_id(), seq![]),
    {
        let none: [u8; 0] = [];
        frame_command(k2_command_mode_id_bytes(), &none)
    }

    /// What `parse` gives for a response.
    pub open spec fn spec_parse_response(bytes: Seq<u8>) -> Result<K2CommandMode, Failure> {
        match spec_validate_response(bytes, k2_command_mode_id(), 1) {
            Ok(v) => K2CommandMode::spec_try_from(v),
            Err(f) => Err(f),
        }
    }

    pub fn parse(&self, bytes: &[u8]) -> (r: Result<K2CommandMode, RigError>)
        ensures
            agrees(r, Self::spec_parse_response(bytes@)),
    {
        match validate_response(bytes, k2_command_mode_id_bytes(), 1) {
            Ok(d) => K2CommandMode::try_from(d),
            Err(e) => Err(e),
        }
    }
}

/// Set the K2 meta-command mode: `K2{n};`, where `n` is `0` plus 2 for extended and 1 for RTTY
/// off.
#[derive(Clone, Copy, Debug, PartialEq, Eq)]
pub struct SetK2CommandMode {
    pub mode: K2CommandMode,
}

/// The digit of a K2 command mode: `0` to `3`.
pub open spec fn k2_mode_digit(mode: K2CommandMode) -> u8 {
    (0x30 + (if mode.extended { 2int } else { 0int }) + (if mode.rtty_off { 1int } else { 0int })) as u8
}

impl SetK2CommandMode {
    pub open spec fn spec_args(self) -> Seq<u8> {
        seq![k2_mode_digit(self.mode)]
    }

    pub fn to_bytes(&self) -> (r: Vec<u8>)
        ensures
            r@ == frame(k2_command_mode_id(), self.spec_args()),
    {
        let digit: u8 = 0x30 + (if self.mode.extended { 2u8 } else { 0u8 }) + (if self.mode.rtty_off {
            1u8
        } else {
            0u8
        });
        let args: [u8; 1] = [digit];
        assert(args@ =~= self.spec_args());
        frame_command(k2_command_mode_id_bytes(), &args)
    }
}

/// The K2 command modes on the wire: `0` normal with RTTY decode, `1` normal without, `2`
/// extended with RTTY decode, `3` extended without; a set command sends the same digit.
pub proof fn lemma_k2_command_mode_digits(mode: K2CommandMode)
    ensures
        K2CommandMode::spec_try_from(seq![0x30u8]) == Ok::<K2CommandMode, Failure>(
            (K2CommandMode { extended: false, rtty_off: false }),
        ),
        K2CommandMode::spec_try_from(seq![0x31u8]) == Ok::<K2CommandMode, Failure>(
            (K2CommandMode { extended: false, rtty_off: true }),
        ),
        K2CommandMode::spec_try_from(seq![0x32u8]) == Ok::<K2CommandMode, Failure>(
            (K2CommandMode { extended: true, rtty_off: false }),
        ),
        K2CommandMode::spec_try_from(seq![0x33u8]) == Ok::<K2CommandMode, Failure>(
            (K2CommandMode { extended: true, rtty_off: true }),
        ),
        (!mode.extended && !mode.rtty_off) ==> (SetK2CommandMode { mode }).spec_args() == seq![0x30u8],
        (!mode.extended && mode.rtty_off) ==> (SetK2CommandMode { mode }).spec_args() == seq![0x31u8],
        (mode.extended && !mode.rtty_off) ==> (SetK2CommandMode { mode }).spec_args() == seq![0x32u8],
        (mode.extended && mode.rtty_off) ==> (SetK2CommandMode { mode }).spec_args() == seq![0x33u8],
{
    assert((0x30u8 & 0x02u8) == 0 && (0x30u8 & 0x01u8) == 0 && (0x31u8 & 0x02u8) == 0 && (0x31u8
        & 0x01u8) != 0 && (0x32u8 & 0x02u8) != 0 && (0x32u8 & 0x01u8) == 0 && (0x33u8 & 0x02u8)
        != 0 && (0x33u8 & 0x01u8) != 0) by (bit_vector);
}

/// Setting the K2 command mode and reading it back agree: the reply that echoes a `Set` command
/// reads as the mode that was set.
pub proof fn lemma_k2_command_mode_round_trip(mode: K2CommandMode)
    ensures
        GetK2CommandMode::spec_parse_response(
            frame(k2_command_mode_id(), SetK2CommandMode { mode }.spec_args()),
        ) == Ok::<K2CommandMode, Failure>(mode),
{
    let bytes = frame(k2_command_mode_id(), SetK2CommandMode { mode }.spec_args());
    assert(bytes.take(2) =~= k2_command_mode_id());
    assert(response_value(bytes, k2_command_mode_id()) =~= SetK2CommandMode { mode }.spec_args());
    assert(
        (0x30u8 & 0x02u8) == 0 && (0x30u8 & 0x01u8) == 0
        && (0x31u8 & 0x02u8) == 0 && (0x31u8 & 0x01u8) != 0
        && (0x32u8 & 0x02u8) != 0 && (0x32u8 & 0x01u8) == 0
        && (0x33u8 & 0x02u8) != 0 && (0x33u8 & 0x01u8) != 0
    ) by (bit_vector);
}

// ------------------------------------------------------------------------------------------------
// Auto-information mode: `AI`
// ------------------------------------------------------------------------------------------------

/// `AI`
pub open spec fn auto_info_mode_id() -> Seq<u8> {
    seq![0x41, 0x49]
}

fn auto_info_mode_id_bytes() -> (r: &'static [u8])
    ensures
        r@ == auto_info_mode_id(),
{
    &[0x41, 0x49]
}

/// Auto-information mode: when the K2 reports its state without being asked.
#[derive(Clone, Copy, Debug, PartialEq, Eq, Hash)]
pub enum AutoInfoMode {
    /// No information is reported unasked; `0` on the wire.
    Off,
    /// An `IF` report on any frequency or mode-related event; `1` on the wire.
    OnlyFrequencyAndModeRelated,
    /// A report on any front-panel event; `2` on the wire.
    AnyFrontPanel,
    /// Like front-panel reporting, for compatibility; `3` on the wire.
    CompatibilityCombination,
}

impl AutoInfoMode {
    pub open spec fn spec_byte(self) -> u8 {
        match self {
            AutoInfoMode::Off => 0x30,
            AutoInfoMode::OnlyFrequencyAndModeRelated => 0x31,
            AutoInfoMode::AnyFrontPanel => 0x32,
            AutoInfoMode::CompatibilityCombination => 0x33,
        }
    }

    /// The variant that a wire byte stands for.
    pub open spec fn spec_from_byte(b: u8) -> Option<AutoInfoMode> {
        if b == 0x30 {
            Some(AutoInfoMode::Off)
        } else if b == 0x31 {
            Some(AutoInfoMode::OnlyFrequencyAndModeRelated)
        } else if b == 0x32 {
            Some(AutoInfoMode::AnyFrontPanel)
        } else if b == 0x33 {
            Some(AutoInfoMode::CompatibilityCombination)
        } else {
            None
        }
    }

    /// The wire byte.
    pub fn as_byte(&self) -> (b: u8)
        ensures
            b == self.spec_byte(),
    {
        match self {
            AutoInfoMode::Off => 0x30,
            AutoInfoMode::OnlyFrequencyAndModeRelated => 0x31,
            AutoInfoMode::AnyFrontPanel => 0x32,
            AutoInfoMode::CompatibilityCombination => 0x33,
        }
    }

    /// The variant that a wire byte stands for.
    pub fn from_repr(b: u8) -> (r: Option<AutoInfoMode>)
        ensures
            r == Self::spec_from_byte(b),
            r matches Some(v) ==> v.spec_byte() == b,
    {
        if b == 0x30 {
            Some(AutoInfoMode::Off)
        } else if b == 0x31 {
            Some(AutoInfoMode::OnlyFrequencyAndModeRelated)
        } else if b == 0x32 {
            Some(AutoInfoMode::AnyFrontPanel)
        } else if b == 0x33 {
            Some(AutoInfoMode::CompatibilityCombination)
        } else {
            None
        }
    }
}

/// The wire bytes of `AutoInfoMode`: Off `0`, OnlyFrequencyAndModeRelated `1`, AnyFrontPanel `2`, CompatibilityCombination `3`; no other byte stands for a variant.
pub proof fn lemma_auto_info_mode_wire_bytes()
    ensures
        AutoInfoMode::Off.spec_byte() == 0x30,
        AutoInfoMode::OnlyFrequencyAndModeRelated.spec_byte() == 0x31,
        AutoInfoMode::AnyFrontPanel.spec_byte() == 0x32,
        AutoInfoMode::CompatibilityCombination.spec_byte() == 0x33,
        AutoInfoMode::spec_from_byte(0x30) == Some(AutoInfoMode::Off),
        AutoInfoMode::spec_from_byte(0x31) == Some(AutoInfoMode::OnlyFrequencyAndModeRelated),
        AutoInfoMode::spec_from_byte(0x32) == Some(AutoInfoMode::AnyFrontPanel),
        AutoInfoMode::spec_from_byte(0x33) == Some(AutoInfoMode::CompatibilityCombination),
        forall|b: u8| #[trigger] AutoInfoMode::spec_from_byte(b) is Some ==> (b == 0x30 || b == 0x31 || b == 0x32 || b == 0x33),
{
}

/// Reading back the wire byte of any `AutoInfoMode` gives the same value.
pub proof fn lemma_auto_info_mode_byte_round_trip(v: AutoInfoMode)
    ensures
        AutoInfoMode::spec_from_byte(v.spec_byte()) == Some(v),
{
}

/// Get the auto-information mode: `AI;`, answered by `AI{n};`.
#[derive(Clone, Copy, Debug, PartialEq, Eq)]
pub struct GetAutoInfoMode;

impl GetAutoInfoMode {
    pub fn to_bytes(&self) -> (r: Vec<u8>)
        ensures
            r@ == frame(auto_info_mode_id(), seq![]),
    {
        let none: [u8; 0] = [];
        frame_command(auto_info_mode_id_bytes(), &none)
    }

    /// What `parse` gives for a response: the mode of its one value byte, or
    /// `InvalidResponseData` holding the value.
    pub open spec fn spec_parse_response(bytes: Seq<u8>) -> Result<AutoInfoMode, Failure> {
        match spec_validate_response(bytes, auto_info_mode_id(), 1) {
            Ok(v) => match AutoInfoMode::spec_from_byte(v[0]) {
                Some(m) => Ok(m),
                None => Err(Failure::ResponseData(v)),
            },
            Err(f) => Err(f),
        }
    }

    pub fn parse(&self, bytes: &[u8]) -> (r: Result<AutoInfoMode, RigError>)
        ensures
            agrees(r, Self::spec_parse_response(bytes@)),
    {
        match validate_response(bytes, auto_info_mode_id_bytes(), 1) {
            Ok(d) => match AutoInfoMode::from_repr(d[0]) {
                Some(m) => Ok(m),
                None => Err(invalid_response_data(d)),
            },
            Err(e) => Err(e),
        }
    }
}

/// A `GetAutoInfoMode` reply reads as the `AutoInfoMode` whose wire byte is its value byte; a byte that names no
/// variant is an `InvalidResponseData` error holding the value.
pub proof fn lemma_get_auto_info_mode_reply(v: Seq<u8>)
    requires
        v.len() == 1,
    ensures
        GetAutoInfoMode::spec_parse_response(frame(auto_info_mode_id(), v)) matches Ok(m) ==> m.spec_byte() == v[0],
        AutoInfoMode::spec_from_byte(v[0]) is Some ==> GetAutoInfoMode::spec_parse_response(frame(auto_info_mode_id(), v)) is Ok,
        AutoInfoMode::spec_from_byte(v[0]) is None ==> GetAutoInfoMode::spec_parse_response(frame(auto_info_mode_id(), v)) == Err::<AutoInfoMode, Failure>(Failure::ResponseData(v)),
{
    lemma_framed_value_reads_back(auto_info_mode_id(), v);
}

/// Set the auto-information mode: `AI{n};`.
#[derive(Clone, Copy, Debug, PartialEq, Eq)]
pub struct SetAutoInfoMode {
    pub mode: AutoInfoMode,
}

impl SetAutoInfoMode {
    /// No information is reported unasked.
    pub fn off() -> (r: SetAutoInfoMode)
        ensures
            r.mode == AutoInfoMode::Off,
    {
        SetAutoInfoMode { mode: AutoInfoMode::Off }
    }

    /// Report on frequency and mode-related events.
    pub fn for_frequency_and_mode_related() -> (r: SetAutoInfoMode)
        ensures
            r.mode == AutoInfoMode::OnlyFrequencyAndModeRelated,
    {
        SetAutoInfoMode { mode: AutoInfoMode::OnlyFrequencyAndModeRelated }
    }

    /// Report on any front-panel event.
    pub fn for_any_front_panel() -> (r: SetAutoInfoMode)
        ensures
            r.mode == AutoInfoMode::AnyFrontPanel,
    {
        SetAutoInfoMode { mode: AutoInfoMode::AnyFrontPanel }
    }

    /// Report as the compatibility combination.
    pub fn for_compatibility_combination() -> (r: SetAutoInfoMode)
        ensures
            r.mode == AutoInfoMode::CompatibilityCombination,
    {
        SetAutoInfoMode { mode: AutoInfoMode::CompatibilityCombination }
    }

    pub open spec fn spec_args(self) -> Seq<u8> {
        seq![self.mode.spec_byte()]
    }

    pub fn to_bytes(&self) -> (r: Vec<u8>)
        ensures
            r@ == frame(auto_info_mode_id(), self.spec_args()),
    {
        let args: [u8; 1] = [self.mode.as_byte()];
        assert(args@ =~= self.spec_args());
        frame_command(auto_info_mode_id_bytes(), &args)
    }
}

/// `SetAutoInfoMode` sends exactly one byte, the wire byte of `mode`.
pub proof fn lemma_set_auto_info_mode_argument(s: SetAutoInfoMode)
    ensures
        s.spec_args().len() == 1,
        s.spec_args()[0] == s.mode.spec_byte(),
{
}

/// The reply that echoes a `Set` auto-information command reads as the mode that was set.
pub proof fn lemma_auto_info_mode_round_trip(mode: AutoInfoMode)
    ensures
        GetAutoInfoMode::spec_parse_response(
            frame(auto_info_mode_id(), SetAutoInfoMode { mode }.spec_args()),
        ) == Ok::<AutoInfoMode, Failure>(mode),
{
    let bytes = frame(auto_info_mode_id(), SetAutoInfoMode { mode }.spec_args());
    assert(bytes.take(2) =~= auto_info_mode_id());
    assert(response_value(bytes, auto_info_mode_id()) =~= SetAutoInfoMode { mode }.spec_args());
}

// ------------------------------------------------------------------------------------------------
// Antenna selection: `AN`
// ------------------------------------------------------------------------------------------------

/// `AN`
pub open spec fn antenna_selection_id() -> Seq<u8> {
    seq![0x41, 0x4E]
}

fn antenna_selection_id_bytes() -> (r: &'static [u8])
    ensures
        r@ == antenna_selection_id(),
{
    &[0x41, 0x4E]
}

/// The K2 antenna selection.
#[derive(Clone, Copy, Debug, PartialEq, Eq, Hash)]
pub enum SelectedAntenna {
    /// Antenna 1; `1` on the wire.
    Antenna1,
    /// Antenna 2; `2` on the wire.
    Antenna2,
}

impl SelectedAntenna {
    pub open spec fn spec_byte(self) -> u8 {
        match self {
            SelectedAntenna::Antenna1 => 0x31,
            SelectedAntenna::Antenna2 => 0x32,
        }
    }

    /// The variant that a wire byte stands for.
    pub open spec fn spec_from_byte(b: u8) -> Option<SelectedAntenna> {
        if b == 0x31 {
            Some(SelectedAntenna::Antenna1)
        } else if b == 0x32 {
            Some(SelectedAntenna::Antenna2)
        } else {
            None
        }
    }

    /// The wire byte.
    pub fn as_byte(&self) -> (b: u8)
        ensures
            b == self.spec_byte(),
    {
        match self {
            SelectedAntenna::Antenna1 => 0x31,
            SelectedAntenna::Antenna2 => 0x32,
        }
    }

    /// The variant that a wire byte stands for.
    pub fn from_repr(b: u8) -> (r: Option<SelectedAntenna>)
        ensures
            r == Self::spec_from_byte(b),
            r matches Some(v) ==> v.spec_byte() == b,
    {
        if b == 0x31 {
            Some(SelectedAntenna::Antenna1)
        } else if b == 0x32 {
            Some(SelectedAntenna::Antenna2)
        } else {
            None
        }
    }
}

/// The wire bytes of `SelectedAntenna`: Antenna1 `1`, Antenna2 `2`; no other byte stands for a variant.
pub proof fn lemma_selected_antenna_wire_bytes()
    ensures
        SelectedAntenna::Antenna1.spec_byte() == 0x31,
        SelectedAntenna::Antenna2.spec_byte() == 0x32,
        SelectedAntenna::spec_from_byte(0x31) == Some(SelectedAntenna::Antenna1),
        SelectedAntenna::spec_from_byte(0x32) == Some(SelectedAntenna::Antenna2),
        forall|b: u8| #[trigger] SelectedAntenna::spec_from_byte(b) is Some ==> (b == 0x31 || b == 0x32),
{
}

/// Reading back the wire byte of any `SelectedAntenna` gives the same value.
pub proof fn lemma_selected_antenna_byte_round_trip(v: SelectedAntenna)
    ensures
        SelectedAntenna::spec_from_byte(v.spec_byte()) == Some(v),
{
}

/// Get the selected antenna: `AN;`, answered by `AN{n};`.
#[derive(Clone, Copy, Debug, PartialEq, Eq)]
pub struct GetAntennaSelection;

impl GetAntennaSelection {
    pub fn to_bytes(&self) -> (r: Vec<u8>)
        ensures
            r@ == frame(antenna_selection_id(), seq![]),
    {
        let none: [u8; 0] = [];
        frame_command(antenna_selection_id_bytes(), &none)
    }

    /// What `parse` gives for a response: the antenna of its one value byte, or
    /// `InvalidResponseData` holding the value.
    pub open spec fn spec_parse_response(bytes: Seq<u8>) -> Result<SelectedAntenna, Failure> {
        match spec_validate_response(bytes, antenna_selection_id(), 1) {
            Ok(v) => match SelectedAntenna::spec_from_byte(v[0]) {
                Some(a) => Ok(a),
                None => Err(Failure::ResponseData(v)),
            },
            Err(f) => Err(f),
        }
    }

    pub fn parse(&self, bytes: &[u8]) -> (r: Result<SelectedAntenna, RigError>)
        ensures
            agrees(r, Self::spec_parse_response(bytes@)),
    {
        match validate_response(bytes, antenna_selection_id_bytes(), 1) {
            Ok(d) => match SelectedAntenna::from_repr(d[0]) {
                Some(a) => Ok(a),
                None => Err(invalid_response_data(d)),
            },
            Err(e) => Err(e),
        }
    }
}

/// A `GetAntennaSelection` reply reads as the `SelectedAntenna` whose wire byte is its value byte; a byte that names no
/// variant is an `InvalidResponseData` error holding the value.
pub proof fn lemma_get_antenna_selection_reply(v: Seq<u8>)
    requires
        v.len() == 1,
    ensures
        GetAntennaSelection::spec_parse_response(frame(antenna_selection_id(), v)) matches Ok(m) ==> m.spec_byte() == v[0],
        SelectedAntenna::spec_from_byte(v[0]) is Some ==> GetAntennaSelection::spec_parse_response(frame(antenna_selection_id(), v)) is Ok,
        SelectedAntenna::spec_from_byte(v[0]) is None ==> GetAntennaSelection::spec_parse_response(frame(antenna_selection_id(), v)) == Err::<SelectedAntenna, Failure>(Failure::ResponseData(v)),
{
    lemma_framed_value_reads_back(antenna_selection_id(), v);
}

/// Select an antenna: `AN{n};`.
#[derive(Clone, Copy, Debug, PartialEq, Eq)]
pub struct SetAntennaSelection {
    pub antenna: SelectedAntenna,
}

impl SetAntennaSelection {
    /// Select antenna 1.
    pub fn antenna_1() -> (r: SetAntennaSelection)
        ensures
            r.antenna == SelectedAntenna::Antenna1,
    {
        SetAntennaSelection { antenna: SelectedAntenna::Antenna1 }
    }

    /// Select antenna 2.
    pub fn antenna_2() -> (r: SetAntennaSelection)
        ensures
            r.antenna == SelectedAntenna::Antenna2,
    {
        SetAntennaSelection { antenna: SelectedAntenna::Antenna2 }
    }

    pub open spec fn spec_args(self) -> Seq<u8> {
        seq![self.antenna.spec_byte()]
    }

    pub fn to_bytes(&self) -> (r: Vec<u8>)
        ensures
            r@ == frame(antenna_selection_id(), self.spec_args()),
    {
        let args: [u8; 1] = [self.antenna.as_byte()];
        assert(args@ =~= self.spec_args());
        frame_command(antenna_selection_id_bytes(), &args)
    }
}

/// `SetAntennaSelection` sends exactly one byte, the wire byte of `antenna`.
pub proof fn lemma_set_antenna_selection_argument(s: SetAntennaSelection)
    ensures
        s.spec_args().len() == 1,
        s.spec_args()[0] == s.antenna.spec_byte(),
{
}

/// The reply that echoes a `Set` antenna command reads as the antenna that was selected.
pub proof fn lemma_antenna_selection_round_trip(antenna: SelectedAntenna)
    ensures
        GetAntennaSelection::spec_parse_response(
            frame(antenna_selection_id(), SetAntennaSelection { antenna }.spec_args()),
        ) == Ok::<SelectedAntenna, Failure>(antenna),
{
    let bytes = frame(antenna_selection_id(), SetAntennaSelection { antenna }.spec_args());
    assert(bytes.take(2) =~= antenna_selection_id());
    assert(response_value(bytes, antenna_selection_id()) =~= SetAntennaSelection { antenna }.spec_args());
}

// ------------------------------------------------------------------------------------------------
// Bargraph: `BG`
// ------------------------------------------------------------------------------------------------

/// `BG`
pub open spec fn bargraph_value_id() -> Seq<u8> {
    seq![0x42, 0x47]
}

fn bargraph_value_id_bytes() -> (r: &'static [u8])
    ensures
        r@ == bargraph_value_id(),
{
    &[0x42, 0x47]
}

/// The bargraph meter mode.
#[derive(Clone, Copy, Debug, PartialEq, Eq, Hash)]
pub enum BargraphMode {
    /// DOT mode; `0` on the wire.
    Dot,
    /// BAR mode; `1` on the wire.
    Bar,
}

impl BargraphMode {
    pub open spec fn spec_byte(self) -> u8 {
        match self {
            BargraphMode::Dot => 0x30,
            BargraphMode::Bar => 0x31,
        }
    }

    /// The variant that a wire byte stands for.
    pub open spec fn spec_from_byte(b: u8) -> Option<BargraphMode> {
        if b == 0x30 {
            Some(BargraphMode::Dot)
        } else if b == 0x31 {
            Some(BargraphMode::Bar)
        } else {
            None
        }
    }

    /// The wire byte.
    pub fn as_byte(&self) -> (b: u8)
        ensures
            b == self.spec_byte(),
    {
        match self {
            BargraphMode::Dot => 0x30,
            BargraphMode::Bar => 0x31,
        }
    }

    /// The variant that a wire byte stands for.
    pub fn from_repr(b: u8) -> (r: Option<BargraphMode>)
        ensures
            r == Self::spec_from_byte(b),
            r matches Some(v) ==> v.spec_byte() == b,
    {
        if b == 0x30 {
            Some(BargraphMode::Dot)
        } else if b == 0x31 {
            Some(BargraphMode::Bar)
        } else {
            None
        }
    }
}

/// The wire bytes of `BargraphMode`: Dot `0`, Bar `1`; no other byte stands for a variant.
pub proof fn lemma_bargraph_mode_wire_bytes()
    ensures
        BargraphMode::Dot.spec_byte() == 0x30,
        BargraphMode::Bar.spec_byte() == 0x31,
        BargraphMode::spec_from_byte(0x30) == Some(BargraphMode::Dot),
        BargraphMode::spec_from_byte(0x31) == Some(BargraphMode::Bar),
        forall|b: u8| #[trigger] BargraphMode::spec_from_byte(b) is Some ==> (b == 0x30 || b == 0x31),
{
}

/// Reading back the wire byte of any `BargraphMode` gives the same value.
pub proof fn lemma_bargraph_mode_byte_round_trip(v: BargraphMode)
    ensures
        BargraphMode::spec_from_byte(v.spec_byte()) == Some(v),
{
}

/// A bargraph reading: the number of bars lit and the display mode.
#[derive(Clone, Copy, Debug, PartialEq, Eq)]
pub struct BargraphValue {
    pub value: u8,
    pub mode: BargraphMode,
}

/// What reading a bargraph value gives: `00` to `10` are DOT readings, `12` to `22` are BAR
/// readings of 0 to 10 bars, anything else is `InvalidResponseData` holding the value.
pub open spec fn spec_bargraph_value(v: Seq<u8>) -> Result<BargraphValue, Failure> {
    match spec_u8_field(v) {
        Err(f) => Err(f),
        Ok(n) => if n <= 10 {
            Ok(BargraphValue { value: n, mode: BargraphMode::Dot })
        } else if 12 <= n <= 22 {
            Ok(BargraphValue { value: (n - 12) as u8, mode: BargraphMode::Bar })
        } else {
            Err(Failure::ResponseData(v))
        },
    }
}

/// A two-digit bargraph reply `n` reads as DOT mode at level `n` for `00` to `10` and as BAR
/// mode at level `n - 12` for `12` to `22`; any other value is an `InvalidResponseData` error.
pub proof fn lemma_bargraph_value_reading(v: Seq<u8>)
    requires
        v.len() == 2,
        all_digits(v),
    ensures
        digits_value(v) <= 10 ==> spec_bargraph_value(v) == Ok::<BargraphValue, Failure>(
            (BargraphValue { value: digits_value(v) as u8, mode: BargraphMode::Dot }),
        ),
        12 <= digits_value(v) <= 22 ==> spec_bargraph_value(v) == Ok::<BargraphValue, Failure>(
            (BargraphValue { value: (digits_value(v) - 12) as u8, mode: BargraphMode::Bar }),
        ),
        (digits_value(v) == 11 || digits_value(v) > 22) ==> spec_bargraph_value(v) == Err::<
            BargraphValue,
            Failure,
        >(Failure::ResponseData(v)),
{
    crate::protocol::cat::digits::lemma_digits_value_bound(v);
    lemma_pow10_values();
}

/// Get the bargraph meter value: `BG;`, answered by `BG{nn};`.
#[derive(Clone, Copy, Debug, PartialEq, Eq)]
pub struct GetBargraphValue;

impl GetBargraphValue {
    pub fn to_bytes(&self) -> (r: Vec<u8>)
        ensures
            r@ == frame(bargraph_value_id(), seq![]),
    {
        let none: [u8; 0] = [];
        frame_command(bargraph_value_id_bytes(), &none)
    }

    pub open spec fn spec_parse_response(bytes: Seq<u8>) -> Result<BargraphValue, Failure> {
        match spec_validate_response(bytes, bargraph_value_id(), 2) {
            Ok(v) => spec_bargraph_value(v),
            Err(f) => Err(f),
        }
    }

    pub fn parse(&self, bytes: &[u8]) -> (r: Result<BargraphValue, RigError>)
        ensures
            agrees(r, Self::spec_parse_response(bytes@)),
    {
        let d = match validate_response(bytes, bargraph_value_id_bytes(), 2) {
            Ok(d) => d,
            Err(e) => return Err(e),
        };
        proof {
            lemma_leading_value_bound(d@);
            lemma_pow10_values();
        }
        let value = match u8_from_ascii(d) {
            Ok(v) => v,
            Err(e) => return Err(e),
        };
        if value <= 10 {
            Ok(BargraphValue { value, mode: BargraphMode::Dot })
        } else if 12 <= value && value <= 22 {
            Ok(BargraphValue { value: value - 12, mode: BargraphMode::Bar })
        } else {
            Err(invalid_response_data(d))
        }
    }
}

// ------------------------------------------------------------------------------------------------
// Transceiver identification: `ID`
// ------------------------------------------------------------------------------------------------

/// `ID`
pub open spec fn transceiver_id_id() -> Seq<u8> {
    seq![0x49, 0x44]
}

fn transceiver_id_id_bytes() -> (r: &'static [u8])
    ensures
        r@ == transceiver_id_id(),
{
    &[0x49, 0x44]
}

/// Get the radio's identification code: `ID;`, answered by `ID{nnn};`.
#[derive(Clone, Copy, Debug, PartialEq, Eq)]
pub struct GetTransceiverId;

impl GetTransceiverId {
    pub fn to_bytes(&self) -> (r: Vec<u8>)
        ensures
            r@ == frame(transceiver_id_id(), seq![]),
    {
        let none: [u8; 0] = [];
        frame_command(transceiver_id_id_bytes(), &none)
    }

    /// The whole reply line as text, when every byte of it is a graphic ASCII character or a
    /// space.
    pub fn parse(&self, bytes: &[u8]) -> (r: Result<String, RigError>)
        ensures
            all_printable_ascii(bytes@) ==> (r matches Ok(s) && s@ == ascii_chars(bytes@)),
            !all_printable_ascii(bytes@) ==> (r matches Err(e) && e.is_invalid_response_data(
                bytes@,
            )),
    {
        string_from_ascii(bytes)
    }
}

// ------------------------------------------------------------------------------------------------
// VFO A tuning step: `DN`
// ------------------------------------------------------------------------------------------------

/// A K2 VFO frequency change step size.
#[derive(Clone, Copy, Debug, PartialEq, Eq, Hash)]
pub enum VfoFrequencyChangeStep {
    /// 10 Hz; `1` on the wire.
    Step10Hz,
    /// 20 Hz; `2` on the wire.
    Step20Hz,
    /// 50 Hz; `3` on the wire.
    Step50Hz,
    /// 1 kHz; `4` on the wire.
    Step1kHz,
}

impl VfoFrequencyChangeStep {
    pub open spec fn spec_byte(self) -> u8 {
        match self {
            VfoFrequencyChangeStep::Step10Hz => 0x31,
            VfoFrequencyChangeStep::Step20Hz => 0x32,
            VfoFrequencyChangeStep::Step50Hz => 0x33,
            VfoFrequencyChangeStep::Step1kHz => 0x34,
        }
    }

    /// The variant that a wire byte stands for.
    pub open spec fn spec_from_byte(b: u8) -> Option<VfoFrequencyChangeStep> {
        if b == 0x31 {
            Some(VfoFrequencyChangeStep::Step10Hz)
        } else if b == 0x32 {
            Some(VfoFrequencyChangeStep::Step20Hz)
        } else if b == 0x33 {
            Some(VfoFrequencyChangeStep::Step50Hz)
        } else if b == 0x34 {
            Some(VfoFrequencyChangeStep::Step1kHz)
        } else {
            None
        }
    }

    /// The wire byte.
    pub fn as_byte(&self) -> (b: u8)
        ensures
            b == self.spec_byte(),
    {
        match self {
            VfoFrequencyChangeStep::Step10Hz => 0x31,
            VfoFrequencyChangeStep::Step20Hz => 0x32,
            VfoFrequencyChangeStep::Step50Hz => 0x33,
            VfoFrequencyChangeStep::Step1kHz => 0x34,
        }
    }

    /// The variant that a wire byte stands for.
    pub fn from_repr(b: u8) -> (r: Option<VfoFrequencyChangeStep>)
        ensures
            r == Self::spec_from_byte(b),
            r matches Some(v) ==> v.spec_byte() == b,
    {
        if b == 0x31 {
            Some(VfoFrequencyChangeStep::Step10Hz)
        } else if b == 0x32 {
            Some(VfoFrequencyChangeStep::Step20Hz)
        } else if b == 0x33 {
            Some(VfoFrequencyChangeStep::Step50Hz)
        } else if b == 0x34 {
            Some(VfoFrequencyChangeStep::Step1kHz)
        } else {
            None
        }
    }
}

/// The wire bytes of `VfoFrequencyChangeStep`: Step10Hz `1`, Step20Hz `2`, Step50Hz `3`, Step1kHz `4`; no other byte stands for a variant.
pub proof fn lemma_vfo_frequency_change_step_wire_bytes()
    ensures
        VfoFrequencyChangeStep::Step10Hz.spec_byte() == 0x31,
        VfoFrequencyChangeStep::Step20Hz.spec_byte() == 0x32,
        VfoFrequencyChangeStep::Step50Hz.spec_byte() == 0x33,
        VfoFrequencyChangeStep::Step1kHz.spec_byte() == 0x34,
        VfoFrequencyChangeStep::spec_from_byte(0x31) == Some(VfoFrequencyChangeStep::Step10Hz),
        VfoFrequencyChangeStep::spec_from_byte(0x32) == Some(VfoFrequencyChangeStep::Step20Hz),
        VfoFrequencyChangeStep::spec_from_byte(0x33) == Some(VfoFrequencyChangeStep::Step50Hz),
        VfoFrequencyChangeStep::spec_from_byte(0x34) == Some(VfoFrequencyChangeStep::Step1kHz),
        forall|b: u8| #[trigger] VfoFrequencyChangeStep::spec_from_byte(b) is Some ==> (b == 0x31 || b == 0x32 || b == 0x33 || b == 0x34),
{
}

/// Reading back the wire byte of any `VfoFrequencyChangeStep` gives the same value.
pub proof fn lemma_vfo_frequency_change_step_byte_round_trip(v: VfoFrequencyChangeStep)
    ensures
        VfoFrequencyChangeStep::spec_from_byte(v.spec_byte()) == Some(v),
{
}

impl VfoFrequencyChangeStep {
    /// The step in hertz.
    pub open spec fn spec_hz(self) -> u64 {
        match self {
            VfoFrequencyChangeStep::Step10Hz => 10,
            VfoFrequencyChangeStep::Step20Hz => 20,
            VfoFrequencyChangeStep::Step50Hz => 50,
            VfoFrequencyChangeStep::Step1kHz => 1000,
        }
    }
}

impl From<VfoFrequencyChangeStep> for Frequency {
    fn from(step: VfoFrequencyChangeStep) -> (r: Frequency) {
        Frequency(
            match step {
                VfoFrequencyChangeStep::Step10Hz => 10,
                VfoFrequencyChangeStep::Step20Hz => 20,
                VfoFrequencyChangeStep::Step50Hz => 50,
                VfoFrequencyChangeStep::Step1kHz => 1000,
            },
        )
    }
}

impl vstd::std_specs::convert::FromSpecImpl<VfoFrequencyChangeStep> for Frequency {
    open spec fn obeys_from_spec() -> bool {
        true
    }

    open spec fn from_spec(step: VfoFrequencyChangeStep) -> Frequency {
        Frequency(step.spec_hz())
    }
}

/// `DN`
pub open spec fn move_vfo_a_down_id() -> Seq<u8> {
    seq![0x44, 0x4E]
}

fn move_vfo_a_down_id_bytes() -> (r: &'static [u8])
    ensures
        r@ == move_vfo_a_down_id(),
{
    &[0x44, 0x4E]
}

/// Move VFO A down by one tuning step: `DN;`, or `DN{n};` with an explicit step.
#[derive(Clone, Copy, Debug, PartialEq, Eq)]
pub struct MoveVfoAFrequencyDown {
    pub step: Option<VfoFrequencyChangeStep>,
}

impl Default for MoveVfoAFrequencyDown {
    fn default() -> (r: MoveVfoAFrequencyDown)
        ensures
            r.step is None,
    {
        MoveVfoAFrequencyDown { step: None }
    }
}

impl MoveVfoAFrequencyDown {
    /// Move by the given step.
    pub fn step_by(step: VfoFrequencyChangeStep) -> (r: MoveVfoAFrequencyDown)
        ensures
            r.step == Some(step),
    {
        MoveVfoAFrequencyDown { step: Some(step) }
    }

    /// Move by 10 Hz.
    pub fn step_10hz() -> (r: MoveVfoAFrequencyDown)
        ensures
            r.step == Some(VfoFrequencyChangeStep::Step10Hz),
    {
        Self::step_by(VfoFrequencyChangeStep::Step10Hz)
    }

    /// Move by 20 Hz.
    pub fn step_20hz() -> (r: MoveVfoAFrequencyDown)
        ensures
            r.step == Some(VfoFrequencyChangeStep::Step20Hz),
    {
        Self::step_by(VfoFrequencyChangeStep::Step20Hz)
    }

    /// Move by 50 Hz.
    pub fn step_50hz() -> (r: MoveVfoAFrequencyDown)
        ensures
            r.step == Some(VfoFrequencyChangeStep::Step50Hz),
    {
        Self::step_by(VfoFrequencyChangeStep::Step50Hz)
    }

    /// Move by 1 kHz.
    pub fn step_1khz() -> (r: MoveVfoAFrequencyDown)
        ensures
            r.step == Some(VfoFrequencyChangeStep::Step1kHz),
    {
        Self::step_by(VfoFrequencyChangeStep::Step1kHz)
    }

    /// The argument: the step's byte, or nothing for the default step.
    pub open spec fn spec_args(self) -> Seq<u8> {
        match self.step {
            Some(s) => seq![s.spec_byte()],
            None => seq![],
        }
    }

    pub fn to_bytes(&self) -> (r: Vec<u8>)
        ensures
            r@ == frame(move_vfo_a_down_id(), self.spec_args()),
    {
        let mut args: Vec<u8> = Vec::new();
        match self.step {
            Some(s) => args.push(s.as_byte()),
            None => {},
        }
        assert(args@ =~= self.spec_args());
        frame_command(move_vfo_a_down_id_bytes(), args.as_slice())
    }
}

// ------------------------------------------------------------------------------------------------
// VFO frequencies: `FA`, `FB`
// ------------------------------------------------------------------------------------------------

/// `FA`
pub open spec fn vfo_a_frequency_id() -> Seq<u8> {
    seq![0x46, 0x41]
}

fn vfo_a_frequency_id_bytes() -> (r: &'static [u8])
    ensures
        r@ == vfo_a_frequency_id(),
{
    &[0x46, 0x41]
}

/// `FB`
pub open spec fn vfo_b_frequency_id() -> Seq<u8> {
    seq![0x46, 0x42]
}

fn vfo_b_frequency_id_bytes() -> (r: &'static [u8])
    ensures
        r@ == vfo_b_frequency_id(),
{
    &[0x46, 0x42]
}

/// What reading an 11-digit frequency field gives.
pub open spec fn spec_frequency_field(v: Seq<u8>) -> Result<Frequency, Failure> {
    if all_digits(v) && digits_value(v) <= u64::MAX {
        Ok(Frequency(digits_value(v) as u64))
    } else {
        Err(Failure::ResponseData(v))
    }
}

/// What a frequency response gives: its 11-digit value read as hertz.
pub open spec fn spec_frequency_response(bytes: Seq<u8>, id: Seq<u8>) -> Result<Frequency, Failure> {
    match spec_validate_response(bytes, id, 11) {
        Ok(v) => spec_frequency_field(v),
        Err(f) => Err(f),
    }
}

fn parse_frequency_response(bytes: &[u8], id: &[u8]) -> (r: Result<Frequency, RigError>)
    requires
        id.len() <= 3,
    ensures
        agrees(r, spec_frequency_response(bytes@, id@)),
{
    match validate_response(bytes, id, 11) {
        Ok(d) => Frequency::try_from(d),
        Err(e) => Err(e),
    }
}

/// Get the VFO A frequency: `FA;`, answered by `FA{11 digits};`.
#[derive(Clone, Copy, Debug, PartialEq, Eq)]
pub struct GetVfoAOperatingFrequency;

impl GetVfoAOperatingFrequency {
    pub fn to_bytes(&self) -> (r: Vec<u8>)
        ensures
            r@ == frame(vfo_a_frequency_id(), seq![]),
    {
        let none: [u8; 0] = [];
        frame_command(vfo_a_frequency_id_bytes(), &none)
    }

    pub fn parse(&self, bytes: &[u8]) -> (r: Result<Frequency, RigError>)
        ensures
            agrees(r, spec_frequency_response(bytes@, vfo_a_frequency_id())),
    {
        parse_frequency_response(bytes, vfo_a_frequency_id_bytes())
    }
}

/// Set the VFO A frequency: `FA{11 digits};`, answered like `FA;`.
#[derive(Clone, Copy, Debug, PartialEq, Eq)]
pub struct SetVfoAOperatingFrequency {
    pub frequency: Frequency,
}

impl From<Frequency> for SetVfoAOperatingFrequency {
    fn from(frequency: Frequency) -> (r: SetVfoAOperatingFrequency) {
        SetVfoAOperatingFrequency { frequency }
    }
}

impl vstd::std_specs::convert::FromSpecImpl<Frequency> for SetVfoAOperatingFrequency {
    open spec fn obeys_from_spec() -> bool {
        true
    }

    open spec fn from_spec(frequency: Frequency) -> SetVfoAOperatingFrequency {
        SetVfoAOperatingFrequency { frequency }
    }
}

impl SetVfoAOperatingFrequency {
    pub fn to_bytes(&self) -> (r: Vec<u8>)
        ensures
            r@ == frame(vfo_a_frequency_id(), padded_decimal(self.frequency.0 as nat, 11)),
    {
        let args = self.frequency.to_ascii();
        frame_command(vfo_a_frequency_id_bytes(), args.as_slice())
    }

    pub fn parse(&self, bytes: &[u8]) -> (r: Result<Frequency, RigError>)
        ensures
            agrees(r, spec_frequency_response(bytes@, vfo_a_frequency_id())),
    {
        parse_frequency_response(bytes, vfo_a_frequency_id_bytes())
    }
}

/// Get the VFO B frequency: `FB;`, answered by `FB{11 digits};`.
#[derive(Clone, Copy, Debug, PartialEq, Eq)]
pub struct GetVfoBOperatingFrequency;

impl GetVfoBOperatingFrequency {
    pub fn to_bytes(&self) -> (r: Vec<u8>)
        ensures
            r@ == frame(vfo_b_frequency_id(), seq![]),
    {
        let none: [u8; 0] = [];
        frame_command(vfo_b_frequency_id_bytes(), &none)
    }

    pub fn parse(&self, bytes: &[u8]) -> (r: Result<Frequency, RigError>)
        ensures
            agrees(r, spec_frequency_response(bytes@, vfo_b_frequency_id())),
    {
        parse_frequency_response(bytes, vfo_b_frequency_id_bytes())
    }
}

/// Set the VFO B frequency: `FB{11 digits};`, answered like `FB;`.
#[derive(Clone, Copy, Debug, PartialEq, Eq)]
pub struct SetVfoBOperatingFrequency {
    pub frequency: Frequency,
}

impl From<Frequency> for SetVfoBOperatingFrequency {
    fn from(frequency: Frequency) -> (r: SetVfoBOperatingFrequency) {
        SetVfoBOperatingFrequency { frequency }
    }
}

impl vstd::std_specs::convert::FromSpecImpl<Frequency> for SetVfoBOperatingFrequency {
    open spec fn obeys_from_spec() -> bool {
        true
    }

    open spec fn from_spec(frequency: Frequency) -> SetVfoBOperatingFrequency {
        SetVfoBOperatingFrequency { frequency }
    }
}

impl SetVfoBOperatingFrequency {
    pub fn to_bytes(&self) -> (r: Vec<u8>)
        ensures
            r@ == frame(vfo_b_frequency_id(), padded_decimal(self.frequency.0 as nat, 11)),
    {
        let args = self.frequency.to_ascii();
        frame_command(vfo_b_frequency_id_bytes(), args.as_slice())
    }

    pub fn parse(&self, bytes: &[u8]) -> (r: Result<Frequency, RigError>)
        ensures
            agrees(r, spec_frequency_response(bytes@, vfo_b_frequency_id())),
    {
        parse_frequency_response(bytes, vfo_b_frequency_id_bytes())
    }
}

/// Setting a VFO A frequency and reading the echoed reply agree for every frequency that fits in
/// 11 digits.
pub proof fn lemma_vfo_a_frequency_round_trip(frequency: Frequency)
    requires
        frequency.0 <= 99_999_999_999,
    ensures
        spec_frequency_response(
            frame(vfo_a_frequency_id(), padded_decimal(frequency.0 as nat, 11)),
            vfo_a_frequency_id(),
        ) == Ok::<Frequency, Failure>(frequency),
{
    lemma_frequency_echo(frequency, vfo_a_frequency_id());
}

/// Setting a VFO B frequency and reading the echoed reply agree for every frequency that fits in
/// 11 digits.
pub proof fn lemma_vfo_b_frequency_round_trip(frequency: Frequency)
    requires
        frequency.0 <= 99_999_999_999,
    ensures
        spec_frequency_response(
            frame(vfo_b_frequency_id(), padded_decimal(frequency.0 as nat, 11)),
            vfo_b_frequency_id(),
        ) == Ok::<Frequency, Failure>(frequency),
{
    lemma_frequency_echo(frequency, vfo_b_frequency_id());
}

proof fn lemma_frequency_echo(frequency: Frequency, id: Seq<u8>)
    requires
        frequency.0 <= 99_999_999_999,
    ensures
        spec_frequency_response(frame(id, padded_decimal(frequency.0 as nat, 11)), id)
            == Ok::<Frequency, Failure>(frequency),
{
    let args = padded_decimal(frequency.0 as nat, 11);
    lemma_padded_decimal_value(frequency.0 as nat, 11);
    lemma_pow10_values();
    lemma_num_digits_le(frequency.0 as nat, 11);
    let bytes = frame(id, args);
    assert(bytes.take(id.len() as int) =~= id);
    assert(response_value(bytes, id) =~= args);
}

// ------------------------------------------------------------------------------------------------
// AF gain: `AG0`, `AG1`
// ------------------------------------------------------------------------------------------------

/// `AG0`
pub open spec fn vfo_a_af_gain_id() -> Seq<u8> {
    seq![0x41, 0x47, 0x30]
}

fn vfo_a_af_gain_id_bytes() -> (r: &'static [u8])
    ensures
        r@ == vfo_a_af_gain_id(),
{
    &[0x41, 0x47, 0x30]
}

/// `AG1`
pub open spec fn vfo_b_af_gain_id() -> Seq<u8> {
    seq![0x41, 0x47, 0x31]
}

fn vfo_b_af_gain_id_bytes() -> (r: &'static [u8])
    ensures
        r@ == vfo_b_af_gain_id(),
{
    &[0x41, 0x47, 0x31]
}

/// Get the VFO A AF gain: `AG0;`, answered by one raw level byte.
#[derive(Clone, Copy, Debug, PartialEq, Eq)]
pub struct GetVfoAAfGain;

impl GetVfoAAfGain {
    pub fn to_bytes(&self) -> (r: Vec<u8>)
        ensures
            r@ == frame(vfo_a_af_gain_id(), seq![]),
    {
        let none: [u8; 0] = [];
        frame_command(vfo_a_af_gain_id_bytes(), &none)
    }

    /// Reads the level byte of a framed reply.
    pub fn parse(&self, bytes: &[u8]) -> (r: Result<Level, RigError>)
        ensures
            match spec_validate_response(bytes@, vfo_a_af_gain_id(), 1) {
                Ok(v) => r matches Ok(l) && l.value() == v[0],
                Err(f) => r matches Err(e) && e.fails_with(f),
            },
    {
        match validate_response(bytes, vfo_a_af_gain_id_bytes(), 1) {
            Ok(d) => Level::try_from(d),
            Err(e) => Err(e),
        }
    }
}

/// Set the VFO A AF gain: `AG0{n};` with the raw level byte.
#[derive(Clone, Copy, Debug, PartialEq, Eq)]
pub struct SetVfoAAfGain {
    pub level: Level,
}

impl SetVfoAAfGain {
    pub fn to_bytes(&self) -> (r: Vec<u8>)
        ensures
            r@ == frame(vfo_a_af_gain_id(), seq![self.level.value()]),
    {
        let args: [u8; 1] = [u8::from(self.level)];
        assert(args@ =~= seq![self.level.value()]);
        frame_command(vfo_a_af_gain_id_bytes(), &args)
    }
}

/// Get the VFO B AF gain: `AG1;`, answered by one raw level byte.
#[derive(Clone, Copy, Debug, PartialEq, Eq)]
pub struct GetVfoBAfGain;

impl GetVfoBAfGain {
    pub fn to_bytes(&self) -> (r: Vec<u8>)
        ensures
            r@ == frame(vfo_b_af_gain_id(), seq![]),
    {
        let none: [u8; 0] = [];
        frame_command(vfo_b_af_gain_id_bytes(), &none)
    }

    /// Reads the level byte of a framed reply.
    pub fn parse(&self, bytes: &[u8]) -> (r: Result<Level, RigError>)
        ensures
            match spec_validate_response(bytes@, vfo_b_af_gain_id(), 1) {
                Ok(v) => r matches Ok(l) && l.value() == v[0],
                Err(f) => r matches Err(e) && e.fails_with(f),
            },
    {
        match validate_response(bytes, vfo_b_af_gain_id_bytes(), 1) {
            Ok(d) => Level::try_from(d),
            Err(e) => Err(e),
        }
    }
}

/// Set the VFO B AF gain: `AG1{n};` with the raw level byte.
#[derive(Clone, Copy, Debug, PartialEq, Eq)]
pub struct SetVfoBAfGain {
    pub level: Level,
}

impl SetVfoBAfGain {
    pub fn to_bytes(&self) -> (r: Vec<u8>)
        ensures
            r@ == frame(vfo_b_af_gain_id(), seq![self.level.value()]),
    {
        let args: [u8; 1] = [u8::from(self.level)];
        assert(args@ =~= seq![self.level.value()]);
        frame_command(vfo_b_af_gain_id_bytes(), &args)
    }
}

/// A level set on VFO A reads back unchanged from the echoed reply.
pub proof fn lemma_vfo_a_af_gain_round_trip(level: Level)
    ensures
        spec_validate_response(frame(vfo_a_af_gain_id(), seq![level.value()]), vfo_a_af_gain_id(), 1)
            == Ok::<Seq<u8>, Failure>(seq![level.value()]),
{
    let bytes = frame(vfo_a_af_gain_id(), seq![level.value()]);
    assert(bytes.take(3) =~= vfo_a_af_gain_id());
    assert(response_value(bytes, vfo_a_af_gain_id()) =~= seq![level.value()]);
}

// ------------------------------------------------------------------------------------------------
// Receive and transmit VFO: `FR`, `FT`
// ------------------------------------------------------------------------------------------------

/// `FR`
pub open spec fn receive_transmit_vfo_id() -> Seq<u8> {
    seq![0x46, 0x52]
}

fn receive_transmit_vfo_id_bytes() -> (r: &'static [u8])
    ensures
        r@ == receive_transmit_vfo_id(),
{
    &[0x46, 0x52]
}

/// `FT`
pub open spec fn transmit_vfo_id() -> Seq<u8> {
    seq![0x46, 0x54]
}

fn transmit_vfo_id_bytes() -> (r: &'static [u8])
    ensures
        r@ == transmit_vfo_id(),
{
    &[0x46, 0x54]
}

/// Select the receive and transmit VFO: `FR{n};`.
#[derive(Clone, Copy, Debug, PartialEq, Eq)]
pub struct SetReceiveTransmitVfo {
    pub vfo: Vfo,
}

impl SetReceiveTransmitVfo {
    pub open spec fn spec_args(self) -> Seq<u8> {
        seq![self.vfo.spec_byte()]
    }

    pub fn to_bytes(&self) -> (r: Vec<u8>)
        ensures
            r@ == frame(receive_transmit_vfo_id(), self.spec_args()),
    {
        let args: [u8; 1] = [self.vfo.as_byte()];
        assert(args@ =~= self.spec_args());
        frame_command(receive_transmit_vfo_id_bytes(), &args)
    }
}

/// `SetReceiveTransmitVfo` sends exactly one byte, the wire byte of `vfo`.
pub proof fn lemma_set_receive_transmit_vfo_argument(s: SetReceiveTransmitVfo)
    ensures
        s.spec_args().len() == 1,
        s.spec_args()[0] == s.vfo.spec_byte(),
{
}

/// Select the transmit VFO: `FT{n};`, which enters SPLIT mode when it differs from the receive VFO.
#[derive(Clone, Copy, Debug, PartialEq, Eq)]
pub struct SetTransmitVfo {
    pub vfo: Vfo,
}

impl SetTransmitVfo {
    pub open spec fn spec_args(self) -> Seq<u8> {
        seq![self.vfo.spec_byte()]
    }

    pub fn to_bytes(&self) -> (r: Vec<u8>)
        ensures
            r@ == frame(transmit_vfo_id(), self.spec_args()),
    {
        let args: [u8; 1] = [self.vfo.as_byte()];
        assert(args@ =~= self.spec_args());
        frame_command(transmit_vfo_id_bytes(), &args)
    }
}

/// `SetTransmitVfo` sends exactly one byte, the wire byte of `vfo`.
pub proof fn lemma_set_transmit_vfo_argument(s: SetTransmitVfo)
    ensures
        s.spec_args().len() == 1,
        s.spec_args()[0] == s.vfo.spec_byte(),
{
}

// ------------------------------------------------------------------------------------------------
// Filter bandwidth: `FW`
// ------------------------------------------------------------------------------------------------

/// `FW`
pub open spec fn filter_bandwidth_id() -> Seq<u8> {
    seq![0x46, 0x57]
}

fn filter_bandwidth_id_bytes() -> (r: &'static [u8])
    ensures
        r@ == filter_bandwidth_id(),
{
    &[0x46, 0x57]
}

/// Get the filter bandwidth: `FW;`, answered by `FW{ffff};`.
#[derive(Clone, Copy, Debug, PartialEq, Eq)]
pub struct GetFilterBandwidth;

impl GetFilterBandwidth {
    pub fn to_bytes(&self) -> (r: Vec<u8>)
        ensures
            r@ == frame(filter_bandwidth_id(), seq![]),
    {
        let none: [u8; 0] = [];
        frame_command(filter_bandwidth_id_bytes(), &none)
    }

    pub open spec fn spec_parse_response(bytes: Seq<u8>) -> Result<u16, Failure> {
        match spec_validate_response(bytes, filter_bandwidth_id(), 4) {
            Ok(v) => spec_u16_field(v),
            Err(f) => Err(f),
        }
    }

    pub fn parse(&self, bytes: &[u8]) -> (r: Result<u16, RigError>)
        ensures
            agrees(r, Self::spec_parse_response(bytes@)),
    {
        match validate_response(bytes, filter_bandwidth_id_bytes(), 4) {
            Ok(d) => {
                proof {
                    lemma_leading_value_bound(d@);
                    lemma_pow10_values();
                }
                u16_from_ascii(d)
            },
            Err(e) => Err(e),
        }
    }
}

/// A `GetFilterBandwidth` reply of 4 value bytes reads as the decimal number they spell; a value with a
/// byte that is not a digit is an `InvalidResponseData` error holding the value.
pub proof fn lemma_get_filter_bandwidth_reply(v: Seq<u8>)
    requires
        v.len() == 4,
    ensures
        all_digits(v) && digits_value(v) <= u16::MAX ==> GetFilterBandwidth::spec_parse_response(frame(filter_bandwidth_id(), v)) == Ok::<u16, Failure>(digits_value(v) as u16),
        !all_digits(v) ==> GetFilterBandwidth::spec_parse_response(frame(filter_bandwidth_id(), v)) == Err::<u16, Failure>(Failure::ResponseData(v)),
{
    lemma_framed_value_reads_back(filter_bandwidth_id(), v);
}

/// Set the filter bandwidth: `FW{ffff};` (the K2 selects the next crystal filter).
#[derive(Clone, Copy, Debug, PartialEq, Eq)]
pub struct SetFilterBandwidth {
    pub bandwidth_hz: u16,
}

impl SetFilterBandwidth {
    pub open spec fn spec_args(self) -> Seq<u8> {
        padded_decimal(self.bandwidth_hz as nat, 4)
    }

    pub fn to_bytes(&self) -> (r: Vec<u8>)
        ensures
            r@ == frame(filter_bandwidth_id(), self.spec_args()),
    {
        let args = format_uint_ascii(self.bandwidth_hz as u64, 4);
        frame_command(filter_bandwidth_id_bytes(), args.as_slice())
    }
}

/// `SetFilterBandwidth` sends `bandwidth_hz` as decimal digits, zero-padded to 4 digits when it fits in 4.
pub proof fn lemma_set_filter_bandwidth_argument(s: SetFilterBandwidth)
    ensures
        all_digits(s.spec_args()),
        digits_value(s.spec_args()) == s.bandwidth_hz,
        (s.bandwidth_hz as nat) < pow10(4) ==> s.spec_args().len() == 4,
        s.spec_args().len() >= 4,
{
    lemma_padded_decimal_value(s.bandwidth_hz as nat, 4);
    if (s.bandwidth_hz as nat) < pow10(4) {
        lemma_num_digits_le(s.bandwidth_hz as nat, 4);
    }
}

/// A bandwidth of at most four digits set with `FW` reads back unchanged from the echoed reply.
pub proof fn lemma_filter_bandwidth_round_trip(bandwidth_hz: u16)
    requires
        bandwidth_hz <= 9999,
    ensures
        GetFilterBandwidth::spec_parse_response(
            frame(filter_bandwidth_id(), SetFilterBandwidth { bandwidth_hz }.spec_args()),
        ) == Ok::<u16, Failure>(bandwidth_hz),
{
    let args = SetFilterBandwidth { bandwidth_hz }.spec_args();
    lemma_padded_decimal_value(bandwidth_hz as nat, 4);
    lemma_pow10_values();
    lemma_num_digits_le(bandwidth_hz as nat, 4);
    let bytes = frame(filter_bandwidth_id(), args);
    assert(bytes.take(2) =~= filter_bandwidth_id());
    assert(response_value(bytes, filter_bandwidth_id()) =~= args);
}

/// A crystal filter number.
#[derive(Clone, Copy, Debug, PartialEq, Eq, Hash)]
pub enum FilterNumber {
    /// FL1; `1` on the wire.
    Filter1,
    /// FL2; `2` on the wire.
    Filter2,
    /// FL3; `3` on the wire.
    Filter3,
    /// FL4; `4` on the wire.
    Filter4,
}

impl FilterNumber {
    pub open spec fn spec_byte(self) -> u8 {
        match self {
            FilterNumber::Filter1 => 0x31,
            FilterNumber::Filter2 => 0x32,
            FilterNumber::Filter3 => 0x33,
            FilterNumber::Filter4 => 0x34,
        }
    }

    /// The variant that a wire byte stands for.
    pub open spec fn spec_from_byte(b: u8) -> Option<FilterNumber> {
        if b == 0x31 {
            Some(FilterNumber::Filter1)
        } else if b == 0x32 {
            Some(FilterNumber::Filter2)
        } else if b == 0x33 {
            Some(FilterNumber::Filter3)
        } else if b == 0x34 {
            Some(FilterNumber::Filter4)
        } else {
            None
        }
    }

    /// The wire byte.
    pub fn as_byte(&self) -> (b: u8)
        ensures
            b == self.spec_byte(),
    {
        match self {
            FilterNumber::Filter1 => 0x31,
            FilterNumber::Filter2 => 0x32,
            FilterNumber::Filter3 => 0x33,
            FilterNumber::Filter4 => 0x34,
        }
    }

    /// The variant that a wire byte stands for.
    pub fn from_repr(b: u8) -> (r: Option<FilterNumber>)
        ensures
            r == Self::spec_from_byte(b),
            r matches Some(v) ==> v.spec_byte() == b,
    {
        if b == 0x31 {
            Some(FilterNumber::Filter1)
        } else if b == 0x32 {
            Some(FilterNumber::Filter2)
        } else if b == 0x33 {
            Some(FilterNumber::Filter3)
        } else if b == 0x34 {
            Some(FilterNumber::Filter4)
        } else {
            None
        }
    }
}

/// The wire bytes of `FilterNumber`: Filter1 `1`, Filter2 `2`, Filter3 `3`, Filter4 `4`; no other byte stands for a variant.
pub proof fn lemma_filter_number_wire_bytes()
    ensures
        FilterNumber::Filter1.spec_byte() == 0x31,
        FilterNumber::Filter2.spec_byte() == 0x32,
        FilterNumber::Filter3.spec_byte() == 0x33,
        FilterNumber::Filter4.spec_byte() == 0x34,
        FilterNumber::spec_from_byte(0x31) == Some(FilterNumber::Filter1),
        FilterNumber::spec_from_byte(0x32) == Some(FilterNumber::Filter2),
        FilterNumber::spec_from_byte(0x33) == Some(FilterNumber::Filter3),
        FilterNumber::spec_from_byte(0x34) == Some(FilterNumber::Filter4),
        forall|b: u8| #[trigger] FilterNumber::spec_from_byte(b) is Some ==> (b == 0x31 || b == 0x32 || b == 0x33 || b == 0x34),
{
}

/// Reading back the wire byte of any `FilterNumber` gives the same value.
pub proof fn lemma_filter_number_byte_round_trip(v: FilterNumber)
    ensures
        FilterNumber::spec_from_byte(v.spec_byte()) == Some(v),
{
}

/// The audio filter mode.
#[derive(Clone, Copy, Debug, PartialEq, Eq, Hash)]
pub enum AudioFilterMode {
    /// Off, 2.5 kHz low-pass only; `0` on the wire.
    Off,
    /// AF1, the first stage of the CW band-pass filter; `1` on the wire.
    AudioFilter1,
    /// AF2, the second stage of the CW band-pass filter; `2` on the wire.
    AudioFilter2,
}

impl AudioFilterMode {
    pub open spec fn spec_byte(self) -> u8 {
        match self {
            AudioFilterMode::Off => 0x30,
            AudioFilterMode::AudioFilter1 => 0x31,
            AudioFilterMode::AudioFilter2 => 0x32,
        }
    }

    /// The variant that a wire byte stands for.
    pub open spec fn spec_from_byte(b: u8) -> Option<AudioFilterMode> {
        if b == 0x30 {
            Some(AudioFilterMode::Off)
        } else if b == 0x31 {
            Some(AudioFilterMode::AudioFilter1)
        } else if b == 0x32 {
            Some(AudioFilterMode::AudioFilter2)
        } else {
            None
        }
    }

    /// The wire byte.
    pub fn as_byte(&self) -> (b: u8)
        ensures
            b == self.spec_byte(),
    {
        match self {
            AudioFilterMode::Off => 0x30,
            AudioFilterMode::AudioFilter1 => 0x31,
            AudioFilterMode::AudioFilter2 => 0x32,
        }
    }

    /// The variant that a wire byte stands for.
    pub fn from_repr(b: u8) -> (r: Option<AudioFilterMode>)
        ensures
            r == Self::spec_from_byte(b),
            r matches Some(v) ==> v.spec_byte() == b,
    {
        if b == 0x30 {
            Some(AudioFilterMode::Off)
        } else if b == 0x31 {
            Some(AudioFilterMode::AudioFilter1)
        } else if b == 0x32 {
            Some(AudioFilterMode::AudioFilter2)
        } else {
            None
        }
    }
}

/// The wire bytes of `AudioFilterMode`: Off `0`, AudioFilter1 `1`, AudioFilter2 `2`; no other byte stands for a variant.
pub proof fn lemma_audio_filter_mode_wire_bytes()
    ensures
        AudioFilterMode::Off.spec_byte() == 0x30,
        AudioFilterMode::AudioFilter1.spec_byte() == 0x31,
        AudioFilterMode::AudioFilter2.spec_byte() == 0x32,
        AudioFilterMode::spec_from_byte(0x30) == Some(AudioFilterMode::Off),
        AudioFilterMode::spec_from_byte(0x31) == Some(AudioFilterMode::AudioFilter1),
        AudioFilterMode::spec_from_byte(0x32) == Some(AudioFilterMode::AudioFilter2),
        forall|b: u8| #[trigger] AudioFilterMode::spec_from_byte(b) is Some ==> (b == 0x30 || b == 0x31 || b == 0x32),
{
}

/// Reading back the wire byte of any `AudioFilterMode` gives the same value.
pub proof fn lemma_audio_filter_mode_byte_round_trip(v: AudioFilterMode)
    ensures
        AudioFilterMode::spec_from_byte(v.spec_byte()) == Some(v),
{
}

/// The extended `FW` reply: bandwidth, filter number and audio filter mode.
#[derive(Clone, Copy, Debug, PartialEq, Eq)]
pub struct FilterBandwidthAndNumber {
    pub bandwidth_hz: u16,
    pub filter_number: FilterNumber,
    pub audio_filter_mode: AudioFilterMode,
}

/// What reading an extended `FW` value gives: the four bandwidth digits, then the filter number
/// byte, then the audio mode byte; an unknown byte is `InvalidResponseData` holding the value.
pub open spec fn spec_filter_bandwidth_extended(bytes: Seq<u8>) -> Result<FilterBandwidthAndNumber, Failure> {
    match spec_u16_field(bytes.subrange(0, 4)) {
        Err(f) => Err(f),
        Ok(bandwidth_hz) => match FilterNumber::spec_from_byte(bytes[4]) {
            None => Err(Failure::ResponseData(bytes)),
            Some(filter_number) => match AudioFilterMode::spec_from_byte(bytes[5]) {
                None => Err(Failure::ResponseData(bytes)),
                Some(audio_filter_mode) => Ok(
                    FilterBandwidthAndNumber { bandwidth_hz, filter_number, audio_filter_mode },
                ),
            },
        },
    }
}

/// An extended `FW` value reads the bandwidth in hertz from the four digits in bytes 0 to 3, the
/// filter number from the wire byte 4 and the audio filter mode from the wire byte 5.
pub proof fn lemma_filter_bandwidth_extended_positions(bytes: Seq<u8>)
    requires
        bytes.len() >= 6,
    ensures
        spec_filter_bandwidth_extended(bytes) matches Ok(r) ==> r.bandwidth_hz == digits_value(
            bytes.subrange(0, 4),
        ) && r.filter_number.spec_byte() == bytes[4] && r.audio_filter_mode.spec_byte()
            == bytes[5],
{
}

/// Reads an extended `FW` value; bytes past the sixth are not read.
pub fn filter_bandwidth_extended_from_ascii(bytes: &[u8]) -> (r: Result<FilterBandwidthAndNumber, RigError>)
    requires
        bytes.len() >= 6,
    ensures
        agrees(r, spec_filter_bandwidth_extended(bytes@)),
{
    let digits = &bytes[0..4];
    proof {
        lemma_leading_value_bound(digits@);
        lemma_pow10_values();
    }
    let bandwidth_hz = match u16_from_ascii(digits) {
        Ok(v) => v,
        Err(e) => return Err(e),
    };
    let filter_number = match FilterNumber::from_repr(bytes[4]) {
        Some(n) => n,
        None => return Err(invalid_response_data(bytes)),
    };
    let audio_filter_mode = match AudioFilterMode::from_repr(bytes[5]) {
        Some(m) => m,
        None => return Err(invalid_response_data(bytes)),
    };
    Ok(FilterBandwidthAndNumber { bandwidth_hz, filter_number, audio_filter_mode })
}

/// Get the filter bandwidth, number and audio mode: `FW;`, answered by `FW{ffff}{n}{m};`.
#[derive(Clone, Copy, Debug, PartialEq, Eq)]
pub struct GetFilterBandwidthExtended;

impl GetFilterBandwidthExtended {
    pub fn to_bytes(&self) -> (r: Vec<u8>)
        ensures
            r@ == frame(filter_bandwidth_id(), seq![]),
    {
        let none: [u8; 0] = [];
        frame_command(filter_bandwidth_id_bytes(), &none)
    }

    pub open spec fn spec_parse_response(bytes: Seq<u8>) -> Result<FilterBandwidthAndNumber, Failure> {
        match spec_validate_response(bytes, filter_bandwidth_id(), 6) {
            Ok(v) => spec_filter_bandwidth_extended(v),
            Err(f) => Err(f),
        }
    }

    pub fn parse(&self, bytes: &[u8]) -> (r: Result<FilterBandwidthAndNumber, RigError>)
        ensures
            agrees(r, Self::spec_parse_response(bytes@)),
    {
        match validate_response(bytes, filter_bandwidth_id_bytes(), 6) {
            Ok(d) => filter_bandwidth_extended_from_ascii(d),
            Err(e) => Err(e),
        }
    }
}

/// Select a filter and bandwidth: `FW{ffff}{n};`.
#[derive(Clone, Copy, Debug, PartialEq, Eq)]
pub struct SetFilterBandwidthExtended {
    pub bandwidth_hz: u16,
    pub filter_number: FilterNumber,
}

impl SetFilterBandwidthExtended {
    /// The argument: the bandwidth in at least four digits, then the filter number byte.
    pub open spec fn spec_args(self) -> Seq<u8> {
        padded_decimal(self.bandwidth_hz as nat, 4).push(self.filter_number.spec_byte())
    }

    pub fn to_bytes(&self) -> (r: Vec<u8>)
        ensures
            r@ == frame(filter_bandwidth_id(), self.spec_args()),
    {
        let args = format_bandwidth_and_number(self);
        frame_command(filter_bandwidth_id_bytes(), args.as_slice())
    }
}

/// The argument bytes of an extended `FW` command.
pub fn format_bandwidth_and_number(cmd: &SetFilterBandwidthExtended) -> (r: Vec<u8>)
    ensures
        r@ == cmd.spec_args(),
{
    let mut v = format_uint_ascii(cmd.bandwidth_hz as u64, 4);
    v.push(cmd.filter_number.as_byte());
    v
}

// ------------------------------------------------------------------------------------------------
// VFO lock: `LK`
// ------------------------------------------------------------------------------------------------

/// `LK`
pub open spec fn vfo_lock_id() -> Seq<u8> {
    seq![0x4C, 0x4B]
}

fn vfo_lock_id_bytes() -> (r: &'static [u8])
    ensures
        r@ == vfo_lock_id(),
{
    &[0x4C, 0x4B]
}

/// Get the VFO A lock state: `LK;`, answered by `LK{0|1};`.
#[derive(Clone, Copy, Debug, PartialEq, Eq)]
pub struct GetVfoLockState;

impl GetVfoLockState {
    pub fn to_bytes(&self) -> (r: Vec<u8>)
        ensures
            r@ == frame(vfo_lock_id(), seq![]),
    {
        let none: [u8; 0] = [];
        frame_command(vfo_lock_id_bytes(), &none)
    }

    pub open spec fn spec_parse_response(bytes: Seq<u8>) -> Result<bool, Failure> {
        match spec_validate_response(bytes, vfo_lock_id(), 1) {
            Ok(v) => spec_bool_1_0(v[0]),
            Err(f) => Err(f),
        }
    }

    pub fn parse(&self, bytes: &[u8]) -> (r: Result<bool, RigError>)
        ensures
            agrees(r, Self::spec_parse_response(bytes@)),
    {
        match validate_response(bytes, vfo_lock_id_bytes(), 1) {
            Ok(d) => bool_from_ascii_1_0(d[0]),
            Err(e) => Err(e),
        }
    }
}

/// A `GetVfoLockState` reply whose value byte is `1` reads as `true`, `0` as `false`; any other byte is a
/// `ParseBoolean` error.
pub proof fn lemma_get_vfo_lock_state_reply(v: Seq<u8>)
    requires
        v.len() == 1,
    ensures
        v[0] == 0x31 ==> GetVfoLockState::spec_parse_response(frame(vfo_lock_id(), v)) == Ok::<bool, Failure>(true),
        v[0] == 0x30 ==> GetVfoLockState::spec_parse_response(frame(vfo_lock_id(), v)) == Ok::<bool, Failure>(false),
        v[0] != 0x30 && v[0] != 0x31 ==> GetVfoLockState::spec_parse_response(frame(vfo_lock_id(), v)) == Err::<bool, Failure>(Failure::Boolean(v[0])),
{
    lemma_framed_value_reads_back(vfo_lock_id(), v);
}

/// Lock or unlock VFO A: `LK{0|1};`.
#[derive(Clone, Copy, Debug, PartialEq, Eq)]
pub struct SetVfoLockState {
    pub state: bool,
}

impl SetVfoLockState {
    pub open spec fn spec_args(self) -> Seq<u8> {
        seq![if self.state { ASCII_DIGIT_ONE } else { ASCII_DIGIT_ZERO }]
    }

    pub fn to_bytes(&self) -> (r: Vec<u8>)
        ensures
            r@ == frame(vfo_lock_id(), self.spec_args()),
    {
        let args: [u8; 1] = [if self.state { ASCII_DIGIT_ONE } else { ASCII_DIGIT_ZERO }];
        assert(args@ =~= self.spec_args());
        frame_command(vfo_lock_id_bytes(), &args)
    }
}

/// `SetVfoLockState` sends `1` when `state` is set and `0` when it is clear.
pub proof fn lemma_set_vfo_lock_state_argument(s: SetVfoLockState)
    ensures
        s.state ==> s.spec_args() == seq![0x31u8],
        !s.state ==> s.spec_args() == seq![0x30u8],
{
}

/// The reply that echoes a `Set` lock command reads as the state that was set.
pub proof fn lemma_vfo_lock_round_trip(state: bool)
    ensures
        GetVfoLockState::spec_parse_response(frame(vfo_lock_id(), SetVfoLockState { state }.spec_args()))
            == Ok::<bool, Failure>(state),
{
    let bytes = frame(vfo_lock_id(), SetVfoLockState { state }.spec_args());
    assert(bytes.take(2) =~= vfo_lock_id());
    assert(response_value(bytes, vfo_lock_id()) =~= SetVfoLockState { state }.spec_args());
}

// ------------------------------------------------------------------------------------------------
// Operating mode: `MD`
// ------------------------------------------------------------------------------------------------

/// `MD`
pub open spec fn vfo_operating_mode_id() -> Seq<u8> {
    seq![0x4D, 0x44]
}

fn vfo_operating_mode_id_bytes() -> (r: &'static [u8])
    ensures
        r@ == vfo_operating_mode_id(),
{
    &[0x4D, 0x44]
}

/// The K2 operating mode.
#[derive(Clone, Copy, Debug, PartialEq, Eq, Hash)]
pub enum OperatingMode {
    /// LSB; `1` on the wire.
    LowerSideBand,
    /// USB; `2` on the wire.
    UpperSideBand,
    /// CW; `3` on the wire.
    ContinuousWave,
    /// RTTY / DATA A; `6` on the wire.
    DataA,
    /// CW reverse; `7` on the wire.
    ContinuousWaveReverse,
    /// RTTY reverse / DATA B; `9` on the wire.
    DataB,
}

impl OperatingMode {
    pub open spec fn spec_byte(self) -> u8 {
        match self {
            OperatingMode::LowerSideBand => 0x31,
            OperatingMode::UpperSideBand => 0x32,
            OperatingMode::ContinuousWave => 0x33,
            OperatingMode::DataA => 0x36,
            OperatingMode::ContinuousWaveReverse => 0x37,
            OperatingMode::DataB => 0x39,
        }
    }

    /// The variant that a wire byte stands for.
    pub open spec fn spec_from_byte(b: u8) -> Option<OperatingMode> {
        if b == 0x31 {
            Some(OperatingMode::LowerSideBand)
        } else if b == 0x32 {
            Some(OperatingMode::UpperSideBand)
        } else if b == 0x33 {
            Some(OperatingMode::ContinuousWave)
        } else if b == 0x36 {
            Some(OperatingMode::DataA)
        } else if b == 0x37 {
            Some(OperatingMode::ContinuousWaveReverse)
        } else if b == 0x39 {
            Some(OperatingMode::DataB)
        } else {
            None
        }
    }

    /// The wire byte.
    pub fn as_byte(&self) -> (b: u8)
        ensures
            b == self.spec_byte(),
    {
        match self {
            OperatingMode::LowerSideBand => 0x31,
            OperatingMode::UpperSideBand => 0x32,
            OperatingMode::ContinuousWave => 0x33,
            OperatingMode::DataA => 0x36,
            OperatingMode::ContinuousWaveReverse => 0x37,
            OperatingMode::DataB => 0x39,
        }
    }

    /// The variant that a wire byte stands for.
    pub fn from_repr(b: u8) -> (r: Option<OperatingMode>)
        ensures
            r == Self::spec_from_byte(b),
            r matches Some(v) ==> v.spec_byte() == b,
    {
        if b == 0x31 {
            Some(OperatingMode::LowerSideBand)
        } else if b == 0x32 {
            Some(OperatingMode::UpperSideBand)
        } else if b == 0x33 {
            Some(OperatingMode::ContinuousWave)
        } else if b == 0x36 {
            Some(OperatingMode::DataA)
        } else if b == 0x37 {
            Some(OperatingMode::ContinuousWaveReverse)
        } else if b == 0x39 {
            Some(OperatingMode::DataB)
        } else {
            None
        }
    }
}

/// The wire bytes of `OperatingMode`: LowerSideBand `1`, UpperSideBand `2`, ContinuousWave `3`, DataA `6`, ContinuousWaveReverse `7`, DataB `9`; no other byte stands for a variant.
pub proof fn lemma_operating_mode_wire_bytes()
    ensures
        OperatingMode::LowerSideBand.spec_byte() == 0x31,
        OperatingMode::UpperSideBand.spec_byte() == 0x32,
        OperatingMode::ContinuousWave.spec_byte() == 0x33,
        OperatingMode::DataA.spec_byte() == 0x36,
        OperatingMode::ContinuousWaveReverse.spec_byte() == 0x37,
        OperatingMode::DataB.spec_byte() == 0x39,
        OperatingMode::spec_from_byte(0x31) == Some(OperatingMode::LowerSideBand),
        OperatingMode::spec_from_byte(0x32) == Some(OperatingMode::UpperSideBand),
        OperatingMode::spec_from_byte(0x33) == Some(OperatingMode::ContinuousWave),
        OperatingMode::spec_from_byte(0x36) == Some(OperatingMode::DataA),
        OperatingMode::spec_from_byte(0x37) == Some(OperatingMode::ContinuousWaveReverse),
        OperatingMode::spec_from_byte(0x39) == Some(OperatingMode::DataB),
        forall|b: u8| #[trigger] OperatingMode::spec_from_byte(b) is Some ==> (b == 0x31 || b == 0x32 || b == 0x33 || b == 0x36 || b == 0x37 || b == 0x39),
{
}

/// Reading back the wire byte of any `OperatingMode` gives the same value.
pub proof fn lemma_operating_mode_byte_round_trip(v: OperatingMode)
    ensures
        OperatingMode::spec_from_byte(v.spec_byte()) == Some(v),
{
}

/// Get the operating mode: `MD;`, answered by `MD{n};`.
#[derive(Clone, Copy, Debug, PartialEq, Eq)]
pub struct GetVfoOperatingMode;

impl GetVfoOperatingMode {
    pub fn to_bytes(&self) -> (r: Vec<u8>)
        ensures
            r@ == frame(vfo_operating_mode_id(), seq![]),
    {
        let none: [u8; 0] = [];
        frame_command(vfo_operating_mode_id_bytes(), &none)
    }

    /// What `parse` gives for a response: the value of its one byte, or
    /// `InvalidResponseData` holding the value.
    pub open spec fn spec_parse_response(bytes: Seq<u8>) -> Result<OperatingMode, Failure> {
        match spec_validate_response(bytes, vfo_operating_mode_id(), 1) {
            Ok(v) => match OperatingMode::spec_from_byte(v[0]) {
                Some(m) => Ok(m),
                None => Err(Failure::ResponseData(v)),
            },
            Err(f) => Err(f),
        }
    }

    pub fn parse(&self, bytes: &[u8]) -> (r: Result<OperatingMode, RigError>)
        ensures
            agrees(r, Self::spec_parse_response(bytes@)),
    {
        match validate_response(bytes, vfo_operating_mode_id_bytes(), 1) {
            Ok(d) => match OperatingMode::from_repr(d[0]) {
                Some(m) => Ok(m),
                None => Err(invalid_response_data(d)),
            },
            Err(e) => Err(e),
        }
    }
}

/// A `GetVfoOperatingMode` reply reads as the `OperatingMode` whose wire byte is its value byte; a byte that names no
/// variant is an `InvalidResponseData` error holding the value.
pub proof fn lemma_get_vfo_operating_mode_reply(v: Seq<u8>)
    requires
        v.len() == 1,
    ensures
        GetVfoOperatingMode::spec_parse_response(frame(vfo_operating_mode_id(), v)) matches Ok(m) ==> m.spec_byte() == v[0],
        OperatingMode::spec_from_byte(v[0]) is Some ==> GetVfoOperatingMode::spec_parse_response(frame(vfo_operating_mode_id(), v)) is Ok,
        OperatingMode::spec_from_byte(v[0]) is None ==> GetVfoOperatingMode::spec_parse_response(frame(vfo_operating_mode_id(), v)) == Err::<OperatingMode, Failure>(Failure::ResponseData(v)),
{
    lemma_framed_value_reads_back(vfo_operating_mode_id(), v);
}

/// Set the operating mode: `MD{n};`.
#[derive(Clone, Copy, Debug, PartialEq, Eq)]
pub struct SetVfoOperatingMode {
    pub mode: OperatingMode,
}

impl SetVfoOperatingMode {
    pub open spec fn spec_args(self) -> Seq<u8> {
        seq![self.mode.spec_byte()]
    }

    pub fn to_bytes(&self) -> (r: Vec<u8>)
        ensures
            r@ == frame(vfo_operating_mode_id(), self.spec_args()),
    {
        let args: [u8; 1] = [self.mode.as_byte()];
        assert(args@ =~= self.spec_args());
        frame_command(vfo_operating_mode_id_bytes(), &args)
    }
}

/// `SetVfoOperatingMode` sends exactly one byte, the wire byte of `mode`.
pub proof fn lemma_set_vfo_operating_mode_argument(s: SetVfoOperatingMode)
    ensures
        s.spec_args().len() == 1,
        s.spec_args()[0] == s.mode.spec_byte(),
{
}

impl SetVfoOperatingMode {
    pub fn to_lower_sideband() -> (r: SetVfoOperatingMode)
        ensures
            r.mode == OperatingMode::LowerSideBand,
    {
        SetVfoOperatingMode { mode: OperatingMode::LowerSideBand }
    }

    pub fn to_upper_sideband() -> (r: SetVfoOperatingMode)
        ensures
            r.mode == OperatingMode::UpperSideBand,
    {
        SetVfoOperatingMode { mode: OperatingMode::UpperSideBand }
    }

    pub fn to_cw() -> (r: SetVfoOperatingMode)
        ensures
            r.mode == OperatingMode::ContinuousWave,
    {
        SetVfoOperatingMode { mode: OperatingMode::ContinuousWave }
    }

    pub fn to_data_a() -> (r: SetVfoOperatingMode)
        ensures
            r.mode == OperatingMode::DataA,
    {
        SetVfoOperatingMode { mode: OperatingMode::DataA }
    }

    pub fn to_cw_reverse() -> (r: SetVfoOperatingMode)
        ensures
            r.mode == OperatingMode::ContinuousWaveReverse,
    {
        SetVfoOperatingMode { mode: OperatingMode::ContinuousWaveReverse }
    }

    pub fn to_data_b() -> (r: SetVfoOperatingMode)
        ensures
            r.mode == OperatingMode::DataB,
    {
        SetVfoOperatingMode { mode: OperatingMode::DataB }
    }
}

/// The reply that echoes a `Set` mode command reads as the mode that was set.
pub proof fn lemma_vfo_operating_mode_round_trip(mode: OperatingMode)
    ensures
        GetVfoOperatingMode::spec_parse_response(
            frame(vfo_operating_mode_id(), SetVfoOperatingMode { mode }.spec_args()),
        ) == Ok::<OperatingMode, Failure>(mode),
{
    let bytes = frame(vfo_operating_mode_id(), SetVfoOperatingMode { mode }.spec_args());
    assert(bytes.take(2) =~= vfo_operating_mode_id());
    assert(response_value(bytes, vfo_operating_mode_id()) =~= SetVfoOperatingMode { mode }.spec_args());
}

// ------------------------------------------------------------------------------------------------
// VFO A display and annunciators: `DS`
// ------------------------------------------------------------------------------------------------

/// VFO A annunciators from the `DS` response: bit 7 always set, bits 0 to 6 the XIT, RIT, VFO A, ATT, PRE, ANT2 and NB annunciators, each on when its bit is
/// set except VFO A, which is selected when bit 2 is clear.
#[derive(Clone, Copy, Debug, PartialEq, Eq)]
pub struct VfoAAnnunciatorData {
    pub xit_on: bool,
    pub rit_on: bool,
    pub vfo_a_selected: bool,
    pub attenuator_on: bool,
    pub preamp_on: bool,
    pub antenna_2_selected: bool,
    pub noise_blanker_on: bool,
}

impl VfoAAnnunciatorData {
    /// The flags that a byte stands for, bit 0 first.
    pub open spec fn spec_decode(value: u8) -> VfoAAnnunciatorData {
        VfoAAnnunciatorData {
            xit_on: bit_set(value, 0),
            rit_on: bit_set(value, 1),
            vfo_a_selected: !bit_set(value, 2),
            attenuator_on: bit_set(value, 3),
            preamp_on: bit_set(value, 4),
            antenna_2_selected: bit_set(value, 5),
            noise_blanker_on: bit_set(value, 6),
        }
    }

    /// Decodes the byte; fails with `InvalidResponseData` holding the byte when bit 7 is clear.
    pub fn try_from(value: u8) -> (r: Result<VfoAAnnunciatorData, RigError>)
        ensures
            bit_set(value, 7) ==> r == Ok::<VfoAAnnunciatorData, RigError>(Self::spec_decode(value)),
            !bit_set(value, 7) ==> (r matches Err(e) && e.is_invalid_response_data(seq![value])),
    {
        if !is_bit_set(value, 7) {
            let data: [u8; 1] = [value];
            let e = invalid_response_data(&data);
            assert(data@ =~= seq![value]);
            Err(e)
        } else {
            Ok(VfoAAnnunciatorData {
                xit_on: is_bit_set(value, 0),
                rit_on: is_bit_set(value, 1),
                vfo_a_selected: !is_bit_set(value, 2),
                attenuator_on: is_bit_set(value, 3),
                preamp_on: is_bit_set(value, 4),
                antenna_2_selected: is_bit_set(value, 5),
                noise_blanker_on: is_bit_set(value, 6),
            })
        }
    }
}

/// Each flag of `VfoAAnnunciatorData` is one bit of the reply, a set bit meaning on, except the flags
/// that the reply marks by a clear bit: `xit_on` set 0x01 of value, `rit_on` set 0x02 of value, `vfo_a_selected` clear 0x04 of value, `attenuator_on` set 0x08 of value, `preamp_on` set 0x10 of value, `antenna_2_selected` set 0x20 of value, `noise_blanker_on` set 0x40 of value.
pub proof fn lemma_vfo_a_annunciator_data_bits(value: u8)
    ensures
        ({
            let d = VfoAAnnunciatorData::spec_decode(value);
            &&& d.xit_on == (value & 0x01 != 0)
            &&& d.rit_on == (value & 0x02 != 0)
            &&& d.vfo_a_selected == (value & 0x04 == 0)
            &&& d.attenuator_on == (value & 0x08 != 0)
            &&& d.preamp_on == (value & 0x10 != 0)
            &&& d.antenna_2_selected == (value & 0x20 != 0)
            &&& d.noise_blanker_on == (value & 0x40 != 0)
        }),
{
    lemma_bit_weights(value);
}

/// VFO A annunciator flashing from the `DS` response: bit 7 always set, bits 0 to 6 for the same annunciators.
#[derive(Clone, Copy, Debug, PartialEq, Eq)]
pub struct VfoAAnnunciatorFlashData {
    pub xit_flashing: bool,
    pub rit_flashing: bool,
    pub active_vfo_flashing: bool,
    pub attenuator_flashing: bool,
    pub preamp_flashing: bool,
    pub antenna_2_flashing: bool,
    pub noise_blanker_flashing: bool,
}

impl VfoAAnnunciatorFlashData {
    /// The flags that a byte stands for, bit 0 first.
    pub open spec fn spec_decode(value: u8) -> VfoAAnnunciatorFlashData {
        VfoAAnnunciatorFlashData {
            xit_flashing: bit_set(value, 0),
            rit_flashing: bit_set(value, 1),
            active_vfo_flashing: bit_set(value, 2),
            attenuator_flashing: bit_set(value, 3),
            preamp_flashing: bit_set(value, 4),
            antenna_2_flashing: bit_set(value, 5),
            noise_blanker_flashing: bit_set(value, 6),
        }
    }

    /// Decodes the byte; fails with `InvalidResponseData` holding the byte when bit 7 is clear.
    pub fn try_from(value: u8) -> (r: Result<VfoAAnnunciatorFlashData, RigError>)
        ensures
            bit_set(value, 7) ==> r == Ok::<VfoAAnnunciatorFlashData, RigError>(Self::spec_decode(value)),
            !bit_set(value, 7) ==> (r matches Err(e) && e.is_invalid_response_data(seq![value])),
    {
        if !is_bit_set(value, 7) {
            let data: [u8; 1] = [value];
            let e = invalid_response_data(&data);
            assert(data@ =~= seq![value]);
            Err(e)
        } else {
            Ok(VfoAAnnunciatorFlashData {
                xit_flashing: is_bit_set(value, 0),
                rit_flashing: is_bit_set(value, 1),
                active_vfo_flashing: is_bit_set(value, 2),
                attenuator_flashing: is_bit_set(value, 3),
                preamp_flashing: is_bit_set(value, 4),
                antenna_2_flashing: is_bit_set(value, 5),
                noise_blanker_flashing: is_bit_set(value, 6),
            })
        }
    }
}

/// Each flag of `VfoAAnnunciatorFlashData` is one bit of the reply, a set bit meaning on, except the flags
/// that the reply marks by a clear bit: `xit_flashing` set 0x01 of value, `rit_flashing` set 0x02 of value, `active_vfo_flashing` set 0x04 of value, `attenuator_flashing` set 0x08 of value, `preamp_flashing` set 0x10 of value, `antenna_2_flashing` set 0x20 of value, `noise_blanker_flashing` set 0x40 of value.
pub proof fn lemma_vfo_a_annunciator_flash_data_bits(value: u8)
    ensures
        ({
            let d = VfoAAnnunciatorFlashData::spec_decode(value);
            &&& d.xit_flashing == (value & 0x01 != 0)
            &&& d.rit_flashing == (value & 0x02 != 0)
            &&& d.active_vfo_flashing == (value & 0x04 != 0)
            &&& d.attenuator_flashing == (value & 0x08 != 0)
            &&& d.preamp_flashing == (value & 0x10 != 0)
            &&& d.antenna_2_flashing == (value & 0x20 != 0)
            &&& d.noise_blanker_flashing == (value & 0x40 != 0)
        }),
{
    lemma_bit_weights(value);
}

/// `DS`
pub open spec fn vfo_a_display_id() -> Seq<u8> {
    seq![0x44, 0x53]
}

fn vfo_a_display_id_bytes() -> (r: &'static [u8])
    ensures
        r@ == vfo_a_display_id(),
{
    &[0x44, 0x53]
}

/// VFO A display text and annunciators from the `DS` response.
#[derive(Clone, Debug, PartialEq, Eq)]
pub struct VfoADisplayAndIcons {
    /// The display text.
    pub text: String,
    /// The decimal point to the left of each character.
    pub decimal_points: [bool; 8],
    pub annunciator_data: VfoAAnnunciatorData,
    pub annunciator_flash_data: VfoAAnnunciatorFlashData,
}

/// Get VFO A display text and annunciators: `DS;`, answered by `DS{8 text bytes}{a}{f};`.
#[derive(Clone, Copy, Debug, PartialEq, Eq)]
pub struct GetVfoADisplayAndIcons;

impl GetVfoADisplayAndIcons {
    pub fn to_bytes(&self) -> (r: Vec<u8>)
        ensures
            r@ == frame(vfo_a_display_id(), seq![]),
    {
        let none: [u8; 0] = [];
        frame_command(vfo_a_display_id_bytes(), &none)
    }

    /// Decodes the text, then the annunciator byte, then the flash byte; the first part that
    /// fails decides the error.
    pub fn parse(&self, bytes: &[u8]) -> (r: Result<VfoADisplayAndIcons, RigError>)
        ensures
            match spec_validate_response(bytes@, vfo_a_display_id(), 10) {
                Err(f) => r matches Err(e) && e.fails_with(f),
                Ok(v) => match spec_text_failure(v.take(8)) {
                    Some(f) => r matches Err(e) && e.fails_with(f),
                    None => if !bit_set(v[8], 7) {
                        r matches Err(e) && e.is_invalid_response_data(seq![v[8]])
                    } else if !bit_set(v[9], 7) {
                        r matches Err(e) && e.is_invalid_response_data(seq![v[9]])
                    } else {
                        r matches Ok(d) && d.text@ == ascii_chars(display_chars(v.take(8)))
                            && (forall|i: int| 0 <= i < 8 ==> d.decimal_points[i] == decimal_point_flag(#[trigger] v[i]))
                            && d.annunciator_data == VfoAAnnunciatorData::spec_decode(v[8])
                            && d.annunciator_flash_data == VfoAAnnunciatorFlashData::spec_decode(v[9])
                    },
                },
            },
    {
        let d = match validate_response(bytes, vfo_a_display_id_bytes(), 10) {
            Ok(d) => d,
            Err(e) => return Err(e),
        };
        let (text, decimal_points) = match parse_text_and_decimal_flags(&d[0..8]) {
            Ok(t) => t,
            Err(e) => return Err(e),
        };
        assert(d@.subrange(0, 8) =~= d@.take(8));
        assert(forall|i: int| 0 <= i < 8 ==> #[trigger] d@[i] == d@.subrange(0, 8)[i]);
        let annunciator_data = match VfoAAnnunciatorData::try_from(d[8]) {
            Ok(a) => a,
            Err(e) => return Err(e),
        };
        let annunciator_flash_data = match VfoAAnnunciatorFlashData::try_from(d[9]) {
            Ok(a) => a,
            Err(e) => return Err(e),
        };
        Ok(VfoADisplayAndIcons { text, decimal_points, annunciator_data, annunciator_flash_data })
    }
}

// ------------------------------------------------------------------------------------------------
// Transceiver information: `IF`
// ------------------------------------------------------------------------------------------------

/// `IF`
pub open spec fn transceiver_information_id() -> Seq<u8> {
    seq![0x49, 0x46]
}

fn transceiver_information_id_bytes() -> (r: &'static [u8])
    ensures
        r@ == transceiver_information_id(),
{
    &[0x49, 0x46]
}

/// Decoded K2 state from the `IF` response.
///
/// The 35-byte value is laid out as: the frequency in 11 digits, 5 spaces, the RIT/XIT sign and
/// 4-digit offset, the RIT and XIT flags, a space, `00`, the transmit flag, the mode digit, the
/// receive VFO, the scan, split and band-change flags, `0`, `1`, and a space.
#[derive(Clone, Copy, Debug, PartialEq, Eq)]
pub struct TransceiverInformation {
    pub operating_frequency: Frequency,
    pub rit_xit_sign_negative: bool,
    pub rit_xit_offset_hz: u16,
    pub rit_on: bool,
    pub xit_on: bool,
    pub in_transmit_mode: bool,
    pub operating_mode: OperatingMode,
    pub receive_mode_vfo: Vfo,
    pub scan_in_progress: bool,
    pub in_split_mode: bool,
    pub event_on_band_change: bool,
}

impl TransceiverInformation {
    /// The first check of an `IF` value that fails, in the order they are made; `None` when
    /// the value decodes.
    pub open spec fn spec_failure(value: Seq<u8>) -> Option<Failure> {
        let frequency = value.subrange(0, 11);
        let offset = value.subrange(17, 21);
        if spec_frequency_field(frequency) is Err {
            Some(Failure::ResponseData(frequency))
        } else if spec_u16_field(offset) is Err {
            Some(Failure::ResponseData(offset))
        } else if spec_bool_1_0(value[21]) is Err {
            Some(Failure::Boolean(value[21]))
        } else if spec_bool_1_0(value[22]) is Err {
            Some(Failure::Boolean(value[22]))
        } else if spec_bool_1_0(value[26]) is Err {
            Some(Failure::Boolean(value[26]))
        } else if OperatingMode::spec_from_byte(value[27]) is None {
            Some(Failure::ResponseData(value))
        } else if Vfo::spec_from_byte(value[28]) is None {
            Some(Failure::ResponseData(value))
        } else if spec_bool_1_0(value[29]) is Err {
            Some(Failure::Boolean(value[29]))
        } else if spec_bool_1_0(value[30]) is Err {
            Some(Failure::Boolean(value[30]))
        } else if spec_bool_1_0(value[31]) is Err {
            Some(Failure::Boolean(value[31]))
        } else if !(forall|i: int| 11 <= i < 16 ==> #[trigger] value[i] == 0x20) {
            Some(Failure::ResponseData(value.subrange(11, 16)))
        } else if value[23] != 0x20 {
            Some(Failure::ResponseData(seq![value[23]]))
        } else if !(forall|i: int| 24 <= i < 26 ==> #[trigger] value[i] == 0x30) {
            Some(Failure::ResponseData(value.subrange(24, 26)))
        } else if value[32] != 0x30 {
            Some(Failure::ResponseData(seq![value[32]]))
        } else if value[33] != 0x31 {
            Some(Failure::ResponseData(seq![value[33]]))
        } else if value[34] != 0x20 {
            Some(Failure::ResponseData(seq![value[34]]))
        } else {
            None
        }
    }

    /// The state that an `IF` value stands for, when it decodes.
    pub open spec fn spec_decode(value: Seq<u8>) -> TransceiverInformation {
        TransceiverInformation {
            operating_frequency: Frequency(digits_value(value.subrange(0, 11)) as u64),
            rit_xit_sign_negative: value[16] == 0x2D,
            rit_xit_offset_hz: digits_value(value.subrange(17, 21)) as u16,
            rit_on: value[21] == 0x31,
            xit_on: value[22] == 0x31,
            in_transmit_mode: value[26] == 0x31,
            operating_mode: OperatingMode::spec_from_byte(value[27]).unwrap(),
            receive_mode_vfo: Vfo::spec_from_byte(value[28]).unwrap(),
            scan_in_progress: value[29] == 0x31,
            in_split_mode: value[30] == 0x31,
            event_on_band_change: value[31] == 0x31,
        }
    }

    /// Decodes an `IF` response value; values shorter than 35 bytes are out of its domain.
    pub fn try_from(value: &[u8]) -> (r: Result<TransceiverInformation, RigError>)
        requires
            value.len() >= 35,
        ensures
            match Self::spec_failure(value@) {
                Some(f) => r matches Err(e) && e.fails_with(f),
                None => r == Ok::<TransceiverInformation, RigError>(Self::spec_decode(value@)),
            },
    {
        let operating_frequency = match Frequency::try_from(&value[0..11]) {
            Ok(f) => f,
            Err(e) => return Err(e),
        };
        let rit_xit_sign_negative = value[16] == 0x2D;
        let offset = &value[17..21];
        proof {
            lemma_leading_value_bound(offset@);
            lemma_pow10_values();
        }
        let rit_xit_offset_hz = match u16_from_ascii(offset) {
            Ok(v) => v,
            Err(e) => return Err(e),
        };
        let rit_on = match bool_from_ascii_1_0(value[21]) {
            Ok(b) => b,
            Err(e) => return Err(e),
        };
        let xit_on = match bool_from_ascii_1_0(value[22]) {
            Ok(b) => b,
            Err(e) => return Err(e),
        };
        let in_transmit_mode = match bool_from_ascii_1_0(value[26]) {
            Ok(b) => b,
            Err(e) => return Err(e),
        };
        let operating_mode = match OperatingMode::from_repr(value[27]) {
            Some(m) => m,
            None => return Err(invalid_response_data(value)),
        };
        let receive_mode_vfo = match Vfo::from_repr(value[28]) {
            Some(v) => v,
            None => return Err(invalid_response_data(value)),
        };
        let scan_in_progress = match bool_from_ascii_1_0(value[29]) {
            Ok(b) => b,
            Err(e) => return Err(e),
        };
        let in_split_mode = match bool_from_ascii_1_0(value[30]) {
            Ok(b) => b,
            Err(e) => return Err(e),
        };
        let event_on_band_change = match bool_from_ascii_1_0(value[31]) {
            Ok(b) => b,
            Err(e) => return Err(e),
        };
        match assert_all_bytes_eq(&value[11..16], 0x20) {
            Ok(()) => {},
            Err(e) => return Err(e),
        }
        assert(forall|i: int| 11 <= i < 16 ==> #[trigger] value@[i] == value@.subrange(11, 16)[i - 11]);
        match assert_byte_eq(value[23], 0x20) {
            Ok(()) => {},
            Err(e) => return Err(e),
        }
        match assert_all_bytes_eq(&value[24..26], 0x30) {
            Ok(()) => {},
            Err(e) => return Err(e),
        }
        assert(forall|i: int| 24 <= i < 26 ==> #[trigger] value@[i] == value@.subrange(24, 26)[i - 24]);
        match assert_byte_eq(value[32], 0x30) {
            Ok(()) => {},
            Err(e) => return Err(e),
        }
        match assert_byte_eq(value[33], 0x31) {
            Ok(()) => {},
            Err(e) => return Err(e),
        }
        match assert_byte_eq(value[34], 0x20) {
            Ok(()) => {},
            Err(e) => return Err(e),
        }
        Ok(TransceiverInformation {
            operating_frequency,
            rit_xit_sign_negative,
            rit_xit_offset_hz,
            rit_on,
            xit_on,
            in_transmit_mode,
            operating_mode,
            receive_mode_vfo,
            scan_in_progress,
            in_split_mode,
            event_on_band_change,
        })
    }
}

/// A K2 `IF` value that decodes gives every field from its fixed position: the frequency from
/// bytes 0 to 10, the RIT/XIT sign from byte 16 (`-` negative), the offset from bytes 17 to 20,
/// the RIT, XIT and transmit flags from bytes 21, 22 and 26 (`1` on, `0` off), the mode and
/// receive VFO from the wire bytes 27 and 28, and the scan, split and band-change flags from
/// bytes 29 to 31; the reserved bytes hold their fixed values.
pub proof fn lemma_transceiver_information_fields(value: Seq<u8>)
    requires
        value.len() >= 35,
        TransceiverInformation::spec_failure(value) is None,
    ensures
        ({
            let d = TransceiverInformation::spec_decode(value);
            &&& d.operating_frequency.0 as int == digits_value(value.subrange(0, 11))
            &&& all_digits(value.subrange(0, 11))
            &&& d.rit_xit_sign_negative == (value[16] == 0x2D)
            &&& d.rit_xit_offset_hz as int == digits_value(value.subrange(17, 21))
            &&& all_digits(value.subrange(17, 21))
            &&& (value[21] == 0x30 || value[21] == 0x31) && d.rit_on == (value[21] == 0x31)
            &&& (value[22] == 0x30 || value[22] == 0x31) && d.xit_on == (value[22] == 0x31)
            &&& (value[26] == 0x30 || value[26] == 0x31) && d.in_transmit_mode == (value[26]
                == 0x31)
            &&& d.operating_mode.spec_byte() == value[27]
            &&& d.receive_mode_vfo.spec_byte() == value[28]
            &&& (value[29] == 0x30 || value[29] == 0x31) && d.scan_in_progress == (value[29]
                == 0x31)
            &&& (value[30] == 0x30 || value[30] == 0x31) && d.in_split_mode == (value[30] == 0x31)
            &&& (value[31] == 0x30 || value[31] == 0x31) && d.event_on_band_change == (value[31]
                == 0x31)
            &&& forall|i: int| 11 <= i < 16 ==> value[i] == 0x20
            &&& value[23] == 0x20 && value[24] == 0x30 && value[25] == 0x30
            &&& value[32] == 0x30 && value[33] == 0x31 && value[34] == 0x20
        }),
{
    assert(value.subrange(11, 16)[0] == value[11]);
    assert(forall|i: int| 11 <= i < 16 ==> value[i] == value.subrange(11, 16)[i - 11]);
    assert(value.subrange(24, 26)[0] == value[24]);
    assert(forall|i: int| 24 <= i < 26 ==> value[i] == value.subrange(24, 26)[i - 24]);
}

/// Get K2 transceiver information: `IF;`, answered by `IF{35 bytes};`.
#[derive(Clone, Copy, Debug, PartialEq, Eq)]
pub struct GetTransceiverInformation;

impl GetTransceiverInformation {
    pub fn to_bytes(&self) -> (r: Vec<u8>)
        ensures
            r@ == frame(transceiver_information_id(), seq![]),
    {
        let none: [u8; 0] = [];
        frame_command(transceiver_information_id_bytes(), &none)
    }

    pub fn parse(&self, bytes: &[u8]) -> (r: Result<TransceiverInformation, RigError>)
        ensures
            match spec_validate_response(bytes@, transceiver_information_id(), 35) {
                Err(f) => r matches Err(e) && e.fails_with(f),
                Ok(v) => match TransceiverInformation::spec_failure(v) {
                    Some(f) => r matches Err(e) && e.fails_with(f),
                    None => r == Ok::<TransceiverInformation, RigError>(
                        TransceiverInformation::spec_decode(v),
                    ),
                },
            },
    {
        match validate_response(bytes, transceiver_information_id_bytes(), 35) {
            Ok(d) => TransceiverInformation::try_from(d),
            Err(e) => Err(e),
        }
    }
}

} // verus!
