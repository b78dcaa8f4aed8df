//! CAT commands for the Elecraft KH1 portable transceiver.
//!
//! The KH1 command set is small and mostly SET-only. Its `FA` command takes 8 digits of 10 Hz
//! resolution. Commands follow the KH1 Programmer's Reference, rev. B2.

use vstd::prelude::*;

use crate::protocol::cat::digits::pow10;

use crate::protocol::cat::lemma_framed_value_reads_back;

use crate::error::{Failure, RigError, agrees, invalid_argument_value};
use crate::protocol::Frequency;
use crate::protocol::cat::common::{
    all_printable_ascii, ascii_chars, string_from_ascii, bytes_to_vec, decimal_string, format_uint_ascii, int_to_string, response_value,
    spec_u32_field, spec_u8_field, spec_validate_response, u32_from_ascii, u8_from_ascii,
    validate_integer_in_range, validate_response,
};
use crate::protocol::cat::digits::{
    all_digits, digits_value, leading_value, lemma_leading_value_bound, lemma_num_digits_le,
    lemma_padded_decimal_value, lemma_pow10_values, padded_decimal,
};
use crate::protocol::cat::{encode_uint_in_range, frame, frame_command, uint_args};

verus! {

/// The identification string of a KH1 in normal operation.
pub const KH1_ID_NORMAL: &'static str = "KH1";

/// The identification string of a KH1 in its boot loader.
pub const KH1_ID_IN_BOOT_LOADER: &'static str = "kh1";

// ------------------------------------------------------------------------------------------------
// AF gain: `AG`
// ------------------------------------------------------------------------------------------------

/// `AG`
pub open spec fn af_gain_id() -> Seq<u8> {
    seq![0x41, 0x47]
}

fn af_gain_id_bytes() -> (r: &'static [u8])
    ensures
        r@ == af_gain_id(),
{
    &[0x41, 0x47]
}

/// Set the AF gain: `AG{nn};`, between 0 and 30.
#[derive(Clone, Copy, Debug, PartialEq, Eq)]
pub struct SetAfGain {
    pub level: u8,
}

impl SetAfGain {
    /// The values the command accepts.
    pub open spec fn spec_in_range(self) -> bool {
        self.level <= 30
    }

    /// The argument bytes.
    pub open spec fn spec_args(self) -> Seq<u8> {
        uint_args(self.level as u32, 2)
    }

    /// The command, or `InvalidArgumentValue` for a value out of range.
    pub fn to_bytes(&self) -> (r: Result<Vec<u8>, RigError>)
        ensures
            self.spec_in_range() ==> (r matches Ok(b) && b@ == frame(af_gain_id(), self.spec_args())),
            !self.spec_in_range() ==> (r matches Err(e) && e.fails_with(
                Failure::ArgumentValue("level"@, "u8"@, decimal_string(self.level as int)),
            )),
    {
        encode_uint_in_range(af_gain_id_bytes(), "level", "u8", self.level as u32, 0, 30, 2)
    }
}

/// `SetAfGain` accepts `level` when `s.level <= 30` and sends it as decimal digits, zero-padded to 2.
pub proof fn lemma_set_af_gain_argument(s: SetAfGain)
    ensures
        s.spec_in_range() == (s.level <= 30),
        all_digits(s.spec_args()),
        digits_value(s.spec_args()) == s.level,
        (s.level as nat) < pow10(2) ==> s.spec_args().len() == 2,
{
    lemma_padded_decimal_value(s.level as nat, 2);
    if (s.level as nat) < pow10(2) {
        lemma_num_digits_le(s.level as nat, 2);
    }
}

// ------------------------------------------------------------------------------------------------
// Display text: `DS`
// ------------------------------------------------------------------------------------------------

/// `DS`
pub open spec fn display_text_id() -> Seq<u8> {
    seq![0x44, 0x53]
}

fn display_text_id_bytes() -> (r: &'static [u8])
    ensures
        r@ == display_text_id(),
{
    &[0x44, 0x53]
}

/// Checks a display line number: `1` (top) or `2` (bottom).
fn validate_line(line: u8) -> (r: Result<(), RigError>)
    ensures
        r is Ok <==> 1 <= line <= 2,
        r matches Err(e) ==> e.fails_with(Failure::ArgumentValue("line"@, "u8"@, decimal_string(line as int))),
{
    validate_integer_in_range("line", "u8", line as i64, 1, 2)
}

/// Get the text of a display line: `DS{l};`, answered by `DS{l}{16 characters};`.
#[derive(Clone, Copy, Debug, PartialEq, Eq)]
pub struct GetDisplayText {
    pub line: u8,
}

impl GetDisplayText {
    /// The command, or `InvalidArgumentValue` for a line other than 1 or 2.
    pub fn to_bytes(&self) -> (r: Result<Vec<u8>, RigError>)
        ensures
            1 <= self.line <= 2 ==> (r matches Ok(b) && b@ == frame(display_text_id(), seq![(0x30 + self.line) as u8])),
            !(1 <= self.line <= 2) ==> (r matches Err(e) && e.fails_with(
                Failure::ArgumentValue("line"@, "u8"@, decimal_string(self.line as int)),
            )),
    {
        match validate_line(self.line) {
            Ok(()) => {
                let args: [u8; 1] = [0x30 + self.line];
                assert(args@ =~= seq![(0x30 + self.line) as u8]);
                Ok(frame_command(display_text_id_bytes(), &args))
            },
            Err(e) => Err(e),
        }
    }

    /// The 16 text bytes of a framed reply, after the line digit.
    pub fn parse(&self, bytes: &[u8]) -> (r: Result<Vec<u8>, RigError>)
        ensures
            match spec_validate_response(bytes@, display_text_id(), 17) {
                Ok(v) => r matches Ok(t) && t@ == v.subrange(1, 17),
                Err(f) => r matches Err(e) && e.fails_with(f),
            },
    {
        match validate_response(bytes, display_text_id_bytes(), 17) {
            Ok(d) => bytes_to_vec(&d[1..17]),
            Err(e) => Err(e),
        }
    }
}

/// The text of a display line: its first 16 bytes, padded with spaces to 16.
pub open spec fn display_line_text(text: Seq<u8>) -> Seq<u8> {
    if text.len() >= 16 {
        text.take(16)
    } else {
        text + Seq::new((16 - text.len()) as nat, |i: int| 0x20u8)
    }
}

/// A display line is always 16 bytes: the text's own bytes first, then spaces.
pub proof fn lemma_display_line_text_layout(text: Seq<u8>)
    ensures
        display_line_text(text).len() == 16,
        forall|i: int| 0 <= i < 16 && i < text.len() ==> #[trigger] display_line_text(text)[i]
            == text[i],
        forall|i: int| text.len() <= i < 16 ==> #[trigger] display_line_text(text)[i] == 0x20,
{
}

/// Set the text of a display line for about 1.5 seconds: `DS{l}{16 characters};`.
#[derive(Clone, Debug, PartialEq, Eq)]
pub struct SetDisplayText {
    pub line: u8,
    /// The text, truncated or space-padded to 16 characters.
    pub text: Vec<u8>,
}

impl SetDisplayText {
    /// The command, or `InvalidArgumentValue` for a line other than 1 or 2.
    pub fn to_bytes(&self) -> (r: Result<Vec<u8>, RigError>)
        ensures
            1 <= self.line <= 2 ==> (r matches Ok(b) && b@ == frame(
                display_text_id(),
                seq![(0x30 + self.line) as u8] + display_line_text(self.text@),
            )),
            !(1 <= self.line <= 2) ==> (r matches Err(e) && e.fails_with(
                Failure::ArgumentValue("line"@, "u8"@, decimal_string(self.line as int)),
            )),
    {
        match validate_line(self.line) {
            Ok(()) => {},
            Err(e) => return Err(e),
        }
        let digit: u8 = 0x30 + self.line;
        let mut bytes: Vec<u8> = Vec::new();
        bytes.push(digit);
        let len: usize = if self.text.len() < 16 { self.text.len() } else { 16 };
        let mut i: usize = 0;
        while i < len
            invariant
                i <= len,
                len <= 16,
                len <= self.text.len(),
                bytes@ == seq![digit] + self.text@.take(i as int),
            decreases len - i,
        {
            bytes.push(self.text[i]);
            assert(self.text@.take(i + 1) =~= self.text@.take(i as int).push(self.text@[i as int]));
            i = i + 1;
        }
        while bytes.len() < 17
            invariant
                len <= 16,
                1 + len <= bytes.len() <= 17,
                bytes@ == seq![digit] + self.text@.take(len as int) + Seq::new(
                    (bytes.len() - 1 - len) as nat,
                    |j: int| 0x20u8,
                ),
            decreases 17 - bytes.len(),
        {
            let ghost before = bytes@;
            bytes.push(0x20u8);
            assert(Seq::new((bytes.len() - 1 - len) as nat, |j: int| 0x20u8) =~= Seq::new(
                (before.len() - 1 - len) as nat,
                |j: int| 0x20u8,
            ).push(0x20u8));
        }
        assert(bytes@ =~= seq![digit] + display_line_text(self.text@)) by {
            if self.text@.len() >= 16 {
                assert(Seq::new(0nat, |j: int| 0x20u8) =~= Seq::<u8>::empty());
            } else {
                assert(self.text@.take(len as int) =~= self.text@);
            }
        }
        Ok(frame_command(display_text_id_bytes(), bytes.as_slice()))
    }
}

/// Text set on a display line reads back, from the reply that echoes the command, as the text
/// truncated or padded to 16 bytes.
pub proof fn lemma_display_text_round_trip(line: u8, text: Seq<u8>)
    requires
        1 <= line <= 2,
    ensures
        spec_validate_response(
            frame(display_text_id(), seq![(0x30 + line) as u8] + display_line_text(text)),
            display_text_id(),
            17,
        ) matches Ok(v) && v.subrange(1, 17) == display_line_text(text),
{
    let args = seq![(0x30 + line) as u8] + display_line_text(text);
    let bytes = frame(display_text_id(), args);
    assert(bytes.take(2) =~= display_text_id());
    assert(response_value(bytes, display_text_id()) =~= args);
    assert(args.subrange(1, 17) =~= display_line_text(text));
}

// ------------------------------------------------------------------------------------------------
// Encoder rotation: `EN`
// ------------------------------------------------------------------------------------------------

/// `EN`
pub open spec fn encoder_rotation_id() -> Seq<u8> {
    seq![0x45, 0x4E]
}

fn encoder_rotation_id_bytes() -> (r: &'static [u8])
    ensures
        r@ == encoder_rotation_id(),
{
    &[0x45, 0x4E]
}

/// A KH1 encoder.
#[derive(Clone, Copy, Debug, PartialEq, Eq, Hash)]
pub enum Encoder {
    /// The AF gain encoder; `A` on the wire.
    AfGain,
    /// The VFO encoder; `V` on the wire.
    Vfo,
}

impl Encoder {
    pub open spec fn spec_byte(self) -> u8 {
        match self {
            Encoder::AfGain => 0x41,
            Encoder::Vfo => 0x56,
        }
    }

    /// The variant that a wire byte stands for.
    pub open spec fn spec_from_byte(b: u8) -> Option<Encoder> {
        if b == 0x41 {
            Some(Encoder::AfGain)
        } else if b == 0x56 {
            Some(Encoder::Vfo)
        } else {
            None
        }
    }

    /// The wire byte.
    pub fn as_byte(&self) -> (b: u8)
        ensures
            b == self.spec_byte(),
    {
        match self {
            Encoder::AfGain => 0x41,
            Encoder::Vfo => 0x56,
        }
    }

    /// The variant that a wire byte stands for.
    pub fn from_repr(b: u8) -> (r: Option<Encoder>)
        ensures
            r == Self::spec_from_byte(b),
            r matches Some(v) ==> v.spec_byte() == b,
    {
        if b == 0x41 {
            Some(Encoder::AfGain)
        } else if b == 0x56 {
            Some(Encoder::Vfo)
        } else {
            None
        }
    }
}

/// The wire bytes of `Encoder`: AfGain `A`, Vfo `V`; no other byte stands for a variant.
pub proof fn lemma_encoder_wire_bytes()
    ensures
        Encoder::AfGain.spec_byte() == 0x41,
        Encoder::Vfo.spec_byte() == 0x56,
        Encoder::spec_from_byte(0x41) == Some(Encoder::AfGain),
        Encoder::spec_from_byte(0x56) == Some(Encoder::Vfo),
        forall|b: u8| #[trigger] Encoder::spec_from_byte(b) is Some ==> (b == 0x41 || b == 0x56),
{
}

/// Reading back the wire byte of any `Encoder` gives the same value.
pub proof fn lemma_encoder_byte_round_trip(v: Encoder)
    ensures
        Encoder::spec_from_byte(v.spec_byte()) == Some(v),
{
}

/// The direction an encoder is turned.
#[derive(Clone, Copy, Debug, PartialEq, Eq, Hash)]
pub enum EncoderDirection {
    /// Clockwise; `U` on the wire.
    Up,
    /// Counter-clockwise; `D` on the wire.
    Down,
}

impl EncoderDirection {
    pub open spec fn spec_byte(self) -> u8 {
        match self {
            EncoderDirection::Up => 0x55,
            EncoderDirection::Down => 0x44,
        }
    }

    /// The variant that a wire byte stands for.
    pub open spec fn spec_from_byte(b: u8) -> Option<EncoderDirection> {
        if b == 0x55 {
            Some(EncoderDirection::Up)
        } else if b == 0x44 {
            Some(EncoderDirection::Down)
        } else {
            None
        }
    }

    /// The wire byte.
    pub fn as_byte(&self) -> (b: u8)
        ensures
            b == self.spec_byte(),
    {
        match self {
            EncoderDirection::Up => 0x55,
            EncoderDirection::Down => 0x44,
        }
    }

    /// The variant that a wire byte stands for.
    pub fn from_repr(b: u8) -> (r: Option<EncoderDirection>)
        ensures
            r == Self::spec_from_byte(b),
            r matches Some(v) ==> v.spec_byte() == b,
    {
        if b == 0x55 {
            Some(EncoderDirection::Up)
        } else if b == 0x44 {
            Some(EncoderDirection::Down)
        } else {
            None
        }
    }
}

/// The wire bytes of `EncoderDirection`: Up `U`, Down `D`; no other byte stands for a variant.
pub proof fn lemma_encoder_direction_wire_bytes()
    ensures
        EncoderDirection::Up.spec_byte() == 0x55,
        EncoderDirection::Down.spec_byte() == 0x44,
        EncoderDirection::spec_from_byte(0x55) == Some(EncoderDirection::Up),
        EncoderDirection::spec_from_byte(0x44) == Some(EncoderDirection::Down),
        forall|b: u8| #[trigger] EncoderDirection::spec_from_byte(b) is Some ==> (b == 0x55 || b == 0x44),
{
}

/// Reading back the wire byte of any `EncoderDirection` gives the same value.
pub proof fn lemma_encoder_direction_byte_round_trip(v: EncoderDirection)
    ensures
        EncoderDirection::spec_from_byte(v.spec_byte()) == Some(v),
{
}

/// Emulate turning an encoder one step: `EN{e}{d};`.
#[derive(Clone, Copy, Debug, PartialEq, Eq)]
pub struct EmulateEncoderRotation {
    pub encoder: Encoder,
    pub direction: EncoderDirection,
}

impl EmulateEncoderRotation {
    pub fn to_bytes(&self) -> (r: Vec<u8>)
        ensures
            r@ == frame(encoder_rotation_id(), seq![self.encoder.spec_byte(), self.direction.spec_byte()]),
    {
        let args: [u8; 2] = [self.encoder.as_byte(), self.direction.as_byte()];
        assert(args@ =~= seq![self.encoder.spec_byte(), self.direction.spec_byte()]);
        frame_command(encoder_rotation_id_bytes(), &args)
    }
}

// ------------------------------------------------------------------------------------------------
// Frequency and offset: `FA`, `FO`
// ------------------------------------------------------------------------------------------------

/// `FA`
pub open spec fn operating_frequency_id() -> Seq<u8> {
    seq![0x46, 0x41]
}

fn operating_frequency_id_bytes() -> (r: &'static [u8])
    ensures
        r@ == operating_frequency_id(),
{
    &[0x46, 0x41]
}

/// Set the VFO A frequency in 10 Hz units: `FA{ffffffff};`.
#[derive(Clone, Copy, Debug, PartialEq, Eq)]
pub struct SetOperatingFrequency {
    pub freq_10hz: u32,
}

impl SetOperatingFrequency {
    pub fn to_bytes(&self) -> (r: Vec<u8>)
        ensures
            r@ == frame(operating_frequency_id(), padded_decimal(self.freq_10hz as nat, 8)),
    {
        let args = format_uint_ascii(self.freq_10hz as u64, 8);
        frame_command(operating_frequency_id_bytes(), args.as_slice())
    }
}

/// `FO`
pub open spec fn vfo_offset_id() -> Seq<u8> {
    seq![0x46, 0x4F]
}

fn vfo_offset_id_bytes() -> (r: &'static [u8])
    ensures
        r@ == vfo_offset_id(),
{
    &[0x46, 0x4F]
}

/// Set the VFO offset for FT8 transmit: `FO{nn};`, between 0 and 99 (99 removes it).
#[derive(Clone, Copy, Debug, PartialEq, Eq)]
pub struct SetVfoOffset {
    pub offset_hz: u8,
}

impl SetVfoOffset {
    /// The values the command accepts.
    pub open spec fn spec_in_range(self) -> bool {
        self.offset_hz <= 99
    }

    /// The argument bytes.
    pub open spec fn spec_args(self) -> Seq<u8> {
        uint_args(self.offset_hz as u32, 2)
    }

    /// The command, or `InvalidArgumentValue` for a value out of range.
    pub fn to_bytes(&self) -> (r: Result<Vec<u8>, RigError>)
        ensures
            self.spec_in_range() ==> (r matches Ok(b) && b@ == frame(vfo_offset_id(), self.spec_args())),
            !self.spec_in_range() ==> (r matches Err(e) && e.fails_with(
                Failure::ArgumentValue("offset_hz"@, "u8"@, decimal_string(self.offset_hz as int)),
            )),
    {
        encode_uint_in_range(vfo_offset_id_bytes(), "offset_hz", "u8", self.offset_hz as u32, 0, 99, 2)
    }
}

/// `SetVfoOffset` accepts `offset_hz` when `s.offset_hz <= 99` and sends it as decimal digits, zero-padded to 2.
pub proof fn lemma_set_vfo_offset_argument(s: SetVfoOffset)
    ensures
        s.spec_in_range() == (s.offset_hz <= 99),
        all_digits(s.spec_args()),
        digits_value(s.spec_args()) == s.offset_hz,
        (s.offset_hz as nat) < pow10(2) ==> s.spec_args().len() == 2,
{
    lemma_padded_decimal_value(s.offset_hz as nat, 2);
    if (s.offset_hz as nat) < pow10(2) {
        lemma_num_digits_le(s.offset_hz as nat, 2);
    }
}

// ------------------------------------------------------------------------------------------------
// Hand key, firmware load, log dump: `HK`, `LD`, `LG`
// ------------------------------------------------------------------------------------------------

/// `HK`
pub open spec fn hand_key_id() -> Seq<u8> {
    seq![0x48, 0x4B]
}

fn hand_key_id_bytes() -> (r: &'static [u8])
    ensures
        r@ == hand_key_id(),
{
    &[0x48, 0x4B]
}

/// The hand key state.
#[derive(Clone, Copy, Debug, PartialEq, Eq, Hash)]
pub enum HandKeyState {
    /// Key down; `1` on the wire.
    KeyDown,
    /// Key up; `0` on the wire.
    KeyUp,
}

impl HandKeyState {
    pub open spec fn spec_byte(self) -> u8 {
        match self {
            HandKeyState::KeyDown => 0x31,
            HandKeyState::KeyUp => 0x30,
        }
    }

    /// The variant that a wire byte stands for.
    pub open spec fn spec_from_byte(b: u8) -> Option<HandKeyState> {
        if b == 0x31 {
            Some(HandKeyState::KeyDown)
        } else if b == 0x30 {
            Some(HandKeyState::KeyUp)
        } else {
            None
        }
    }

    /// The wire byte.
    pub fn as_byte(&self) -> (b: u8)
        ensures
            b == self.spec_byte(),
    {
        match self {
            HandKeyState::KeyDown => 0x31,
            HandKeyState::KeyUp => 0x30,
        }
    }

    /// The variant that a wire byte stands for.
    pub fn from_repr(b: u8) -> (r: Option<HandKeyState>)
        ensures
            r == Self::spec_from_byte(b),
            r matches Some(v) ==> v.spec_byte() == b,
    {
        if b == 0x31 {
            Some(HandKeyState::KeyDown)
        } else if b == 0x30 {
            Some(HandKeyState::KeyUp)
        } else {
            None
        }
    }
}

/// The wire bytes of `HandKeyState`: KeyDown `1`, KeyUp `0`; no other byte stands for a variant.
pub proof fn lemma_hand_key_state_wire_bytes()
    ensures
        HandKeyState::KeyDown.spec_byte() == 0x31,
        HandKeyState::KeyUp.spec_byte() == 0x30,
        HandKeyState::spec_from_byte(0x31) == Some(HandKeyState::KeyDown),
        HandKeyState::spec_from_byte(0x30) == Some(HandKeyState::KeyUp),
        forall|b: u8| #[trigger] HandKeyState::spec_from_byte(b) is Some ==> (b == 0x31 || b == 0x30),
{
}

/// Reading back the wire byte of any `HandKeyState` gives the same value.
pub proof fn lemma_hand_key_state_byte_round_trip(v: HandKeyState)
    ensures
        HandKeyState::spec_from_byte(v.spec_byte()) == Some(v),
{
}

/// Emulate a hand-key press or release: `HK{m};`.
#[derive(Clone, Copy, Debug, PartialEq, Eq)]
pub struct EmulateHandKeyPress {
    pub state: HandKeyState,
}

impl EmulateHandKeyPress {
    pub open spec fn spec_args(self) -> Seq<u8> {
        seq![self.state.spec_byte()]
    }

    pub fn to_bytes(&self) -> (r: Vec<u8>)
        ensures
            r@ == frame(hand_key_id(), self.spec_args()),
    {
        let args: [u8; 1] = [self.state.as_byte()];
        assert(args@ =~= self.spec_args());
        frame_command(hand_key_id_bytes(), &args)
    }
}

/// `EmulateHandKeyPress` sends exactly one byte, the wire byte of `state`.
pub proof fn lemma_emulate_hand_key_press_argument(s: EmulateHandKeyPress)
    ensures
        s.spec_args().len() == 1,
        s.spec_args()[0] == s.state.spec_byte(),
{
}

/// `LD`
pub open spec fn load_firmware_id() -> Seq<u8> {
    seq![0x4C, 0x44]
}

fn load_firmware_id_bytes() -> (r: &'static [u8])
    ensures
        r@ == load_firmware_id(),
{
    &[0x4C, 0x44]
}

/// Enter the firmware loader: `LD;`.
#[derive(Clone, Copy, Debug, PartialEq, Eq)]
pub struct LoadFirmware;

impl LoadFirmware {
    pub fn to_bytes(&self) -> (r: Vec<u8>)
        ensures
            r@ == frame(load_firmware_id(), seq![]),
    {
        let none: [u8; 0] = [];
        frame_command(load_firmware_id_bytes(), &none)
    }
}

/// `LG`
pub open spec fn dump_log_id() -> Seq<u8> {
    seq![0x4C, 0x47]
}

fn dump_log_id_bytes() -> (r: &'static [u8])
    ensures
        r@ == dump_log_id(),
{
    &[0x4C, 0x47]
}

/// An action on the KH1 log.
#[derive(Clone, Copy, Debug, PartialEq, Eq, Hash)]
pub enum LogAction {
    /// Dump the log; `0` on the wire.
    Dump,
    /// Stop a dump; `1` on the wire.
    Stop,
    /// Continue a dump; `2` on the wire.
    Continue,
    /// Erase the log; `3` on the wire.
    Erase,
}

impl LogAction {
    pub open spec fn spec_byte(self) -> u8 {
        match self {
            LogAction::Dump => 0x30,
            LogAction::Stop => 0x31,
            LogAction::Continue => 0x32,
            LogAction::Erase => 0x33,
        }
    }

    /// The variant that a wire byte stands for.
    pub open spec fn spec_from_byte(b: u8) -> Option<LogAction> {
        if b == 0x30 {
            Some(LogAction::Dump)
        } else if b == 0x31 {
            Some(LogAction::Stop)
        } else if b == 0x32 {
            Some(LogAction::Continue)
        } else if b == 0x33 {
            Some(LogAction::Erase)
        } else {
            None
        }
    }

    /// The wire byte.
    pub fn as_byte(&self) -> (b: u8)
        ensures
            b == self.spec_byte(),
    {
        match self {
            LogAction::Dump => 0x30,
            LogAction::Stop => 0x31,
            LogAction::Continue => 0x32,
            LogAction::Erase => 0x33,
        }
    }

    /// The variant that a wire byte stands for.
    pub fn from_repr(b: u8) -> (r: Option<LogAction>)
        ensures
            r == Self::spec_from_byte(b),
            r matches Some(v) ==> v.spec_byte() == b,
    {
        if b == 0x30 {
            Some(LogAction::Dump)
        } else if b == 0x31 {
            Some(LogAction::Stop)
        } else if b == 0x32 {
            Some(LogAction::Continue)
        } else if b == 0x33 {
            Some(LogAction::Erase)
        } else {
            None
        }
    }
}

/// The wire bytes of `LogAction`: Dump `0`, Stop `1`, Continue `2`, Erase `3`; no other byte stands for a variant.
pub proof fn lemma_log_action_wire_bytes()
    ensures
        LogAction::Dump.spec_byte() == 0x30,
        LogAction::Stop.spec_byte() == 0x31,
        LogAction::Continue.spec_byte() == 0x32,
        LogAction::Erase.spec_byte() == 0x33,
        LogAction::spec_from_byte(0x30) == Some(LogAction::Dump),
        LogAction::spec_from_byte(0x31) == Some(LogAction::Stop),
        LogAction::spec_from_byte(0x32) == Some(LogAction::Continue),
        LogAction::spec_from_byte(0x33) == Some(LogAction::Erase),
        forall|b: u8| #[trigger] LogAction::spec_from_byte(b) is Some ==> (b == 0x30 || b == 0x31 || b == 0x32 || b == 0x33),
{
}

/// Reading back the wire byte of any `LogAction` gives the same value.
pub proof fn lemma_log_action_byte_round_trip(v: LogAction)
    ensures
        LogAction::spec_from_byte(v.spec_byte()) == Some(v),
{
}

/// Dump, stop, continue or erase the log: `LG{n};`.
#[derive(Clone, Copy, Debug, PartialEq, Eq)]
pub struct DumpLog {
    pub action: LogAction,
}

impl DumpLog {
    pub open spec fn spec_args(self) -> Seq<u8> {
        seq![self.action.spec_byte()]
    }

    pub fn to_bytes(&self) -> (r: Vec<u8>)
        ensures
            r@ == frame(dump_log_id(), self.spec_args()),
    {
        let args: [u8; 1] = [self.action.as_byte()];
        assert(args@ =~= self.spec_args());
        frame_command(dump_log_id_bytes(), &args)
    }
}

/// `DumpLog` sends exactly one byte, the wire byte of `action`.
pub proof fn lemma_dump_log_argument(s: DumpLog)
    ensures
        s.spec_args().len() == 1,
        s.spec_args()[0] == s.action.spec_byte(),
{
}

// ------------------------------------------------------------------------------------------------
// Operating mode: `MD`
// ------------------------------------------------------------------------------------------------

/// The `MD` digits the KH1 documents: `0` LSB, `1` USB, `2` CW, `4` DATA.
pub open spec fn is_kh1_mode_digit(mode: u8) -> bool {
    mode == 0 || mode == 1 || mode == 2 || mode == 4
}

/// Checks that a mode digit is one the KH1 documents.
pub(crate) fn validate_kh1_operating_mode_digit(mode: u8) -> (r: Result<(), RigError>)
    ensures
        r is Ok <==> is_kh1_mode_digit(mode),
        r matches Err(e) ==> e.fails_with(Failure::ArgumentValue("mode"@, "u8"@, decimal_string(mode as int))),
{
    if mode == 0 || mode == 1 || mode == 2 || mode == 4 {
        Ok(())
    } else {
        Err(invalid_argument_value("mode", "u8", int_to_string(mode as i64)))
    }
}

/// `MD`
pub open spec fn operating_mode_id() -> Seq<u8> {
    seq![0x4D, 0x44]
}

fn operating_mode_id_bytes() -> (r: &'static [u8])
    ensures
        r@ == operating_mode_id(),
{
    &[0x4D, 0x44]
}

/// Set the operating mode: `MD{n};`, with `n` one of 0, 1, 2 and 4.
#[derive(Clone, Copy, Debug, PartialEq, Eq)]
pub struct SetOperatingMode {
    pub mode: u8,
}

impl SetOperatingMode {
    /// The command, or `InvalidArgumentValue` for an undocumented mode digit.
    pub fn to_bytes(&self) -> (r: Result<Vec<u8>, RigError>)
        ensures
            is_kh1_mode_digit(self.mode) ==> (r matches Ok(b) && b@ == frame(operating_mode_id(), seq![(0x30 + self.mode) as u8])),
            !is_kh1_mode_digit(self.mode) ==> (r matches Err(e) && e.fails_with(
                Failure::ArgumentValue("mode"@, "u8"@, decimal_string(self.mode as int)),
            )),
    {
        match validate_kh1_operating_mode_digit(self.mode) {
            Ok(()) => {
                let args: [u8; 1] = [0x30 + self.mode];
                assert(args@ =~= seq![(0x30 + self.mode) as u8]);
                Ok(frame_command(operating_mode_id_bytes(), &args))
            },
            Err(e) => Err(e),
        }
    }
}

// ------------------------------------------------------------------------------------------------
// Menu: `MN`, `MP`
// ------------------------------------------------------------------------------------------------

/// `MN`
pub open spec fn select_menu_item_id() -> Seq<u8> {
    seq![0x4D, 0x4E]
}

fn select_menu_item_id_bytes() -> (r: &'static [u8])
    ensures
        r@ == select_menu_item_id(),
{
    &[0x4D, 0x4E]
}

/// Select a menu item by its 3-character ID: `MN{sss};`.
#[derive(Clone, Copy, Debug, PartialEq, Eq)]
pub struct SelectMenuItem {
    pub item_id: [u8; 3],
}

impl SelectMenuItem {
    pub fn to_bytes(&self) -> (r: Vec<u8>)
        ensures
            r@ == frame(select_menu_item_id(), self.item_id@),
    {
        frame_command(select_menu_item_id_bytes(), &self.item_id)
    }
}

/// `MP`
pub open spec fn menu_parameter_id() -> Seq<u8> {
    seq![0x4D, 0x50]
}

fn menu_parameter_id_bytes() -> (r: &'static [u8])
    ensures
        r@ == menu_parameter_id(),
{
    &[0x4D, 0x50]
}

/// Get the current menu parameter: `MP;`, answered by `MP{nnn};`.
#[derive(Clone, Copy, Debug, PartialEq, Eq)]
pub struct GetMenuParameter;

impl GetMenuParameter {
    pub fn to_bytes(&self) -> (r: Vec<u8>)
        ensures
            r@ == frame(menu_parameter_id(), seq![]),
    {
        let none: [u8; 0] = [];
        frame_command(menu_parameter_id_bytes(), &none)
    }

    pub open spec fn spec_parse_response(bytes: Seq<u8>) -> Result<u8, Failure> {
        match spec_validate_response(bytes, menu_parameter_id(), 3) {
            Ok(v) => spec_u8_field(v),
            Err(f) => Err(f),
        }
    }

    /// Reads the three digits of a framed reply; a value above 255 is outside the domain.
    pub fn parse(&self, bytes: &[u8]) -> (r: Result<u8, RigError>)
        requires
            spec_validate_response(bytes@, menu_parameter_id(), 3) matches Ok(v) ==> leading_value(v) <= u8::MAX,
        ensures
            agrees(r, Self::spec_parse_response(bytes@)),
    {
        match validate_response(bytes, menu_parameter_id_bytes(), 3) {
            Ok(d) => u8_from_ascii(d),
            Err(e) => Err(e),
        }
    }
}

/// A `GetMenuParameter` reply of 3 value bytes reads as the decimal number they spell; a value with a
/// byte that is not a digit is an `InvalidResponseData` error holding the value.
pub proof fn lemma_get_menu_parameter_reply(v: Seq<u8>)
    requires
        v.len() == 3,
    ensures
        all_digits(v) && digits_value(v) <= 255 ==> GetMenuParameter::spec_parse_response(frame(menu_parameter_id(), v)) == Ok::<u8, Failure>(digits_value(v) as u8),
        !all_digits(v) ==> GetMenuParameter::spec_parse_response(frame(menu_parameter_id(), v)) == Err::<u8, Failure>(Failure::ResponseData(v)),
{
    lemma_framed_value_reads_back(menu_parameter_id(), v);
}

/// Set the current menu parameter: `MP{nnn};`.
#[derive(Clone, Copy, Debug, PartialEq, Eq)]
pub struct SetMenuParameter {
    pub value: u8,
}

impl SetMenuParameter {
    pub fn to_bytes(&self) -> (r: Vec<u8>)
        ensures
            r@ == frame(menu_parameter_id(), padded_decimal(self.value as nat, 3)),
    {
        let args = format_uint_ascii(self.value as u64, 3);
        frame_command(menu_parameter_id_bytes(), args.as_slice())
    }
}

/// A menu parameter set with `MP` reads back unchanged from the echoed reply.
pub proof fn lemma_menu_parameter_round_trip(value: u8)
    ensures
        GetMenuParameter::spec_parse_response(frame(menu_parameter_id(), padded_decimal(value as nat, 3)))
            == Ok::<u8, Failure>(value),
{
    let args = padded_decimal(value as nat, 3);
    lemma_padded_decimal_value(value as nat, 3);
    lemma_pow10_values();
    lemma_num_digits_le(value as nat, 3);
    let bytes = frame(menu_parameter_id(), args);
    assert(bytes.take(2) =~= menu_parameter_id());
    assert(response_value(bytes, menu_parameter_id()) =~= args);
}

// ------------------------------------------------------------------------------------------------
// Firmware revision, serial number, status: `RV`, `SN`, `ST`
// ------------------------------------------------------------------------------------------------

/// `RV`
pub open spec fn firmware_revision_id() -> Seq<u8> {
    seq![0x52, 0x56]
}

fn firmware_revision_id_bytes() -> (r: &'static [u8])
    ensures
        r@ == firmware_revision_id(),
{
    &[0x52, 0x56]
}

/// Get the firmware revision: `RV;`, answered by `RV{xx.xx};`.
#[derive(Clone, Copy, Debug, PartialEq, Eq)]
pub struct GetFirmwareRevision;

impl GetFirmwareRevision {
    pub fn to_bytes(&self) -> (r: Vec<u8>)
        ensures
            r@ == frame(firmware_revision_id(), seq![]),
    {
        let none: [u8; 0] = [];
        frame_command(firmware_revision_id_bytes(), &none)
    }

    /// The five revision bytes of a framed reply.
    pub fn parse(&self, bytes: &[u8]) -> (r: Result<Vec<u8>, RigError>)
        ensures
            match spec_validate_response(bytes@, firmware_revision_id(), 5) {
                Ok(v) => r matches Ok(d) && d@ == v,
                Err(f) => r matches Err(e) && e.fails_with(f),
            },
    {
        match validate_response(bytes, firmware_revision_id_bytes(), 5) {
            Ok(d) => bytes_to_vec(d),
            Err(e) => Err(e),
        }
    }
}

/// `H`
pub open spec fn help_information_id() -> Seq<u8> {
    seq![0x48]
}

fn help_information_id_bytes() -> (r: &'static [u8])
    ensures
        r@ == help_information_id(),
{
    &[0x48]
}

/// Get the terse help text: `H;`, answered by `H{s..};` with any number of characters.
#[derive(Clone, Copy, Debug, PartialEq, Eq)]
pub struct GetHelpInformation;

impl GetHelpInformation {
    pub fn to_bytes(&self) -> (r: Vec<u8>)
        ensures
            r@ == frame(help_information_id(), seq![]),
    {
        let none: [u8; 0] = [];
        frame_command(help_information_id_bytes(), &none)
    }

    /// The whole reply line as text, when every byte of it is a graphic ASCII character or a
    /// space.
    pub fn parse(&self, bytes: &[u8]) -> (r: Result<String, RigError>)
        ensures
            all_printable_ascii(bytes@) ==> (r matches Ok(s) && s@ == ascii_chars(bytes@)),
            !all_printable_ascii(bytes@) ==> (r matches Err(e) && e.is_invalid_response_data(
                bytes@,
            )),
    {
        string_from_ascii(bytes)
    }
}

/// `I`
pub open spec fn transceiver_id_id() -> Seq<u8> {
    seq![0x49]
}

fn transceiver_id_id_bytes() -> (r: &'static [u8])
    ensures
        r@ == transceiver_id_id(),
{
    &[0x49]
}

/// Get the transceiver identification: `I;`, answered by `IKH1;` in normal operation and by
/// `Ikh1;` in the boot loader.
#[derive(Clone, Copy, Debug, PartialEq, Eq)]
pub struct GetTransceiverId;

impl GetTransceiverId {
    pub fn to_bytes(&self) -> (r: Vec<u8>)
        ensures
            r@ == frame(transceiver_id_id(), seq![]),
    {
        let none: [u8; 0] = [];
        frame_command(transceiver_id_id_bytes(), &none)
    }

    /// The whole reply line as text, when every byte of it is a graphic ASCII character or a
    /// space.
    pub fn parse(&self, bytes: &[u8]) -> (r: Result<String, RigError>)
        ensures
            all_printable_ascii(bytes@) ==> (r matches Ok(s) && s@ == ascii_chars(bytes@)),
            !all_printable_ascii(bytes@) ==> (r matches Err(e) && e.is_invalid_response_data(
                bytes@,
            )),
    {
        string_from_ascii(bytes)
    }
}

/// `SN`
pub open spec fn serial_number_id() -> Seq<u8> {
    seq![0x53, 0x4E]
}

fn serial_number_id_bytes() -> (r: &'static [u8])
    ensures
        r@ == serial_number_id(),
{
    &[0x53, 0x4E]
}

/// Get the serial number: `SN;`, answered by `SN{nnnnn};`.
#[derive(Clone, Copy, Debug, PartialEq, Eq)]
pub struct GetTransceiverSerialNumber;

impl GetTransceiverSerialNumber {
    pub fn to_bytes(&self) -> (r: Vec<u8>)
        ensures
            r@ == frame(serial_number_id(), seq![]),
    {
        let none: [u8; 0] = [];
        frame_command(serial_number_id_bytes(), &none)
    }

    pub open spec fn spec_parse_response(bytes: Seq<u8>) -> Result<u32, Failure> {
        match spec_validate_response(bytes, serial_number_id(), 5) {
            Ok(v) => spec_u32_field(v),
            Err(f) => Err(f),
        }
    }

    pub fn parse(&self, bytes: &[u8]) -> (r: Result<u32, RigError>)
        ensures
            agrees(r, Self::spec_parse_response(bytes@)),
    {
        match validate_response(bytes, serial_number_id_bytes(), 5) {
            Ok(d) => {
                proof {
                    lemma_leading_value_bound(d@);
                    lemma_pow10_values();
                }
                u32_from_ascii(d)
            },
            Err(e) => Err(e),
        }
    }
}

/// A `GetTransceiverSerialNumber` reply of 5 value bytes reads as the decimal number they spell; a value with a
/// byte that is not a digit is an `InvalidResponseData` error holding the value.
pub proof fn lemma_get_transceiver_serial_number_reply(v: Seq<u8>)
    requires
        v.len() == 5,
    ensures
        all_digits(v) && digits_value(v) <= u32::MAX ==> GetTransceiverSerialNumber::spec_parse_response(frame(serial_number_id(), v)) == Ok::<u32, Failure>(digits_value(v) as u32),
        !all_digits(v) ==> GetTransceiverSerialNumber::spec_parse_response(frame(serial_number_id(), v)) == Err::<u32, Failure>(Failure::ResponseData(v)),
{
    lemma_framed_value_reads_back(serial_number_id(), v);
}

/// `ST`
pub open spec fn transceiver_status_id() -> Seq<u8> {
    seq![0x53, 0x54]
}

fn transceiver_status_id_bytes() -> (r: &'static [u8])
    ensures
        r@ == transceiver_status_id(),
{
    &[0x53, 0x54]
}

/// The KH1 status from the `ST` reply.
#[derive(Clone, Copy, Debug, PartialEq, Eq)]
pub struct TransceiverStatus {
    /// The number of self-test errors since power-up.
    pub self_test_errors: u8,
    /// `true` when the unit has an assigned serial number.
    pub serial_numer_assigned: bool,
    /// `true` when an ATU module is found.
    pub atu_module_found: bool,
}

/// A flag written as an upper-case letter when set and its lower-case form when clear; any
/// other byte is a `ParseBoolean` failure.
pub open spec fn spec_case_flag(b: u8, upper: u8) -> Result<bool, Failure> {
    if b == upper {
        Ok(true)
    } else if b == (upper + 0x20) as u8 {
        Ok(false)
    } else {
        Err(Failure::Boolean(b))
    }
}

fn case_flag(b: u8, upper: u8) -> (r: Result<bool, RigError>)
    requires
        0x41 <= upper <= 0x5A,
    ensures
        agrees(r, spec_case_flag(b, upper)),
{
    if b == upper {
        Ok(true)
    } else if b == upper + 0x20 {
        Ok(false)
    } else {
        Err(RigError::ParseBoolean { value: b })
    }
}

/// What an `ST` value gives: the raw error count byte, then `S`/`s`, then `A`/`a`.
pub open spec fn spec_transceiver_status(v: Seq<u8>) -> Result<TransceiverStatus, Failure> {
    match spec_case_flag(v[1], 0x53) {
        Err(f) => Err(f),
        Ok(serial_numer_assigned) => match spec_case_flag(v[2], 0x41) {
            Err(f) => Err(f),
            Ok(atu_module_found) => Ok(
                TransceiverStatus { self_test_errors: v[0], serial_numer_assigned, atu_module_found },
            ),
        },
    }
}

/// An `ST` value reads the self-test error count from byte 0, the serial number flag from byte
/// 1 (`S` assigned, `s` not) and the ATU flag from byte 2 (`A` found, `a` not); any other flag
/// byte is a `ParseBoolean` error.
pub proof fn lemma_transceiver_status_positions(v: Seq<u8>)
    requires
        v.len() >= 3,
    ensures
        spec_transceiver_status(v) matches Ok(t) ==> {
            &&& t.self_test_errors == v[0]
            &&& (v[1] == 0x53 || v[1] == 0x73) && t.serial_numer_assigned == (v[1] == 0x53)
            &&& (v[2] == 0x41 || v[2] == 0x61) && t.atu_module_found == (v[2] == 0x41)
        },
        ((v[1] == 0x53 || v[1] == 0x73) && (v[2] == 0x41 || v[2] == 0x61))
            ==> spec_transceiver_status(v) is Ok,
        !(v[1] == 0x53 || v[1] == 0x73) ==> spec_transceiver_status(v) == Err::<
            TransceiverStatus,
            Failure,
        >(Failure::Boolean(v[1])),
{
}

/// Get the combined status: `ST;`, answered by `ST{n}{s}{a};`.
#[derive(Clone, Copy, Debug, PartialEq, Eq)]
pub struct GetTransceiverStatus;

impl GetTransceiverStatus {
    pub fn to_bytes(&self) -> (r: Vec<u8>)
        ensures
            r@ == frame(transceiver_status_id(), seq![]),
    {
        let none: [u8; 0] = [];
        frame_command(transceiver_status_id_bytes(), &none)
    }

    pub open spec fn spec_parse_response(bytes: Seq<u8>) -> Result<TransceiverStatus, Failure> {
        match spec_validate_response(bytes, transceiver_status_id(), 3) {
            Ok(v) => spec_transceiver_status(v),
            Err(f) => Err(f),
        }
    }

    pub fn parse(&self, bytes: &[u8]) -> (r: Result<TransceiverStatus, RigError>)
        ensures
            agrees(r, Self::spec_parse_response(bytes@)),
    {
        let d = match validate_response(bytes, transceiver_status_id_bytes(), 3) {
            Ok(d) => d,
            Err(e) => return Err(e),
        };
        let serial_numer_assigned = match case_flag(d[1], 0x53) {
            Ok(b) => b,
            Err(e) => return Err(e),
        };
        let atu_module_found = match case_flag(d[2], 0x41) {
            Ok(b) => b,
            Err(e) => return Err(e),
        };
        Ok(TransceiverStatus { self_test_errors: d[0], serial_numer_assigned, atu_module_found })
    }
}

// ------------------------------------------------------------------------------------------------
// Button emulation: `SW`
// ------------------------------------------------------------------------------------------------

/// `SW`
pub open spec fn button_id() -> Seq<u8> {
    seq![0x53, 0x57]
}

fn button_id_bytes() -> (r: &'static [u8])
    ensures
        r@ == button_id(),
{
    &[0x53, 0x57]
}

/// Emulate a button tap: `SW{n}T;`, with the button between 1 and 6.
#[derive(Clone, Copy, Debug, PartialEq, Eq)]
pub struct EmulateButtonTap {
    pub button: u8,
}

impl EmulateButtonTap {
    /// The command, or `InvalidArgumentValue` for a button outside 1 to 6.
    pub fn to_bytes(&self) -> (r: Result<Vec<u8>, RigError>)
        ensures
            1 <= self.button <= 6 ==> (r matches Ok(b) && b@ == frame(button_id(), seq![(0x30 + self.button) as u8, 0x54u8])),
            !(1 <= self.button <= 6) ==> (r matches Err(e) && e.fails_with(
                Failure::ArgumentValue("button"@, "u8"@, decimal_string(self.button as int)),
            )),
    {
        match validate_integer_in_range("button", "u8", self.button as i64, 1, 6) {
            Ok(()) => {
                let args: [u8; 2] = [0x30 + self.button, 0x54];
                assert(args@ =~= seq![(0x30 + self.button) as u8, 0x54u8]);
                Ok(frame_command(button_id_bytes(), &args))
            },
            Err(e) => Err(e),
        }
    }
}

/// Emulate a button hold: `SW{n}H;`, with the button between 1 and 6.
#[derive(Clone, Copy, Debug, PartialEq, Eq)]
pub struct EmulateButtonHold {
    pub button: u8,
}

impl EmulateButtonHold {
    /// The command, or `InvalidArgumentValue` for a button outside 1 to 6.
    pub fn to_bytes(&self) -> (r: Result<Vec<u8>, RigError>)
        ensures
            1 <= self.button <= 6 ==> (r matches Ok(b) && b@ == frame(button_id(), seq![(0x30 + self.button) as u8, 0x48u8])),
            !(1 <= self.button <= 6) ==> (r matches Err(e) && e.fails_with(
                Failure::ArgumentValue("button"@, "u8"@, decimal_string(self.button as int)),
            )),
    {
        match validate_integer_in_range("button", "u8", self.button as i64, 1, 6) {
            Ok(()) => {
                let args: [u8; 2] = [0x30 + self.button, 0x48];
                assert(args@ =~= seq![(0x30 + self.button) as u8, 0x48u8]);
                Ok(frame_command(button_id_bytes(), &args))
            },
            Err(e) => Err(e),
        }
    }
}

// ------------------------------------------------------------------------------------------------
// Transmit limits: `TXL`, `TXH`
// ------------------------------------------------------------------------------------------------

/// A KH1 transmit band.
#[derive(Clone, Copy, Debug, PartialEq, Eq, Hash)]
pub enum TransmitBand {
    /// 40 m; `0` on the wire.
    Band40m,
    /// 30 m; `1` on the wire.
    Band30m,
    /// 20 m; `2` on the wire.
    Band20m,
    /// 17 m; `3` on the wire.
    Band17m,
    /// 15 m; `4` on the wire.
    Band15m,
}

impl TransmitBand {
    pub open spec fn spec_byte(self) -> u8 {
        match self {
            TransmitBand::Band40m => 0x30,
            TransmitBand::Band30m => 0x31,
            TransmitBand::Band20m => 0x32,
            TransmitBand::Band17m => 0x33,
            TransmitBand::Band15m => 0x34,
        }
    }

    /// The variant that a wire byte stands for.
    pub open spec fn spec_from_byte(b: u8) -> Option<TransmitBand> {
        if b == 0x30 {
            Some(TransmitBand::Band40m)
        } else if b == 0x31 {
            Some(TransmitBand::Band30m)
        } else if b == 0x32 {
            Some(TransmitBand::Band20m)
        } else if b == 0x33 {
            Some(TransmitBand::Band17m)
        } else if b == 0x34 {
            Some(TransmitBand::Band15m)
        } else {
            None
        }
    }

    /// The wire byte.
    pub fn as_byte(&self) -> (b: u8)
        ensures
            b == self.spec_byte(),
    {
        match self {
            TransmitBand::Band40m => 0x30,
            TransmitBand::Band30m => 0x31,
            TransmitBand::Band20m => 0x32,
            TransmitBand::Band17m => 0x33,
            TransmitBand::Band15m => 0x34,
        }
    }

    /// The variant that a wire byte stands for.
    pub fn from_repr(b: u8) -> (r: Option<TransmitBand>)
        ensures
            r == Self::spec_from_byte(b),
            r matches Some(v) ==> v.spec_byte() == b,
    {
        if b == 0x30 {
            Some(TransmitBand::Band40m)
        } else if b == 0x31 {
            Some(TransmitBand::Band30m)
        } else if b == 0x32 {
            Some(TransmitBand::Band20m)
        } else if b == 0x33 {
            Some(TransmitBand::Band17m)
        } else if b == 0x34 {
            Some(TransmitBand::Band15m)
        } else {
            None
        }
    }
}

/// The wire bytes of `TransmitBand`: Band40m `0`, Band30m `1`, Band20m `2`, Band17m `3`, Band15m `4`; no other byte stands for a variant.
pub proof fn lemma_transmit_band_wire_bytes()
    ensures
        TransmitBand::Band40m.spec_byte() == 0x30,
        TransmitBand::Band30m.spec_byte() == 0x31,
        TransmitBand::Band20m.spec_byte() == 0x32,
        TransmitBand::Band17m.spec_byte() == 0x33,
        TransmitBand::Band15m.spec_byte() == 0x34,
        TransmitBand::spec_from_byte(0x30) == Some(TransmitBand::Band40m),
        TransmitBand::spec_from_byte(0x31) == Some(TransmitBand::Band30m),
        TransmitBand::spec_from_byte(0x32) == Some(TransmitBand::Band20m),
        TransmitBand::spec_from_byte(0x33) == Some(TransmitBand::Band17m),
        TransmitBand::spec_from_byte(0x34) == Some(TransmitBand::Band15m),
        forall|b: u8| #[trigger] TransmitBand::spec_from_byte(b) is Some ==> (b == 0x30 || b == 0x31 || b == 0x32 || b == 0x33 || b == 0x34),
{
}

/// Reading back the wire byte of any `TransmitBand` gives the same value.
pub proof fn lemma_transmit_band_byte_round_trip(v: TransmitBand)
    ensures
        TransmitBand::spec_from_byte(v.spec_byte()) == Some(v),
{
}

/// `TXL`
pub open spec fn transmit_lower_limit_id() -> Seq<u8> {
    seq![0x54, 0x58, 0x4C]
}

fn transmit_lower_limit_id_bytes() -> (r: &'static [u8])
    ensures
        r@ == transmit_lower_limit_id(),
{
    &[0x54, 0x58, 0x4C]
}

/// `TXH`
pub open spec fn transmit_upper_limit_id() -> Seq<u8> {
    seq![0x54, 0x58, 0x48]
}

fn transmit_upper_limit_id_bytes() -> (r: &'static [u8])
    ensures
        r@ == transmit_upper_limit_id(),
{
    &[0x54, 0x58, 0x48]
}

/// What a transmit limit reply gives: the five-digit limit, in kHz as the radio sends it.
pub open spec fn spec_transmit_limit(bytes: Seq<u8>, id: Seq<u8>) -> Result<Frequency, Failure> {
    match spec_validate_response(bytes, id, 5) {
        Ok(v) => if all_digits(v) && digits_value(v) <= u64::MAX {
            Ok(Frequency(digits_value(v) as u64))
        } else {
            Err(Failure::ResponseData(v))
        },
        Err(f) => Err(f),
    }
}

/// Get the lower transmit limit of a band: `TXL{n};`, answered by `TXL{fffff};` in kHz.
#[derive(Clone, Copy, Debug, PartialEq, Eq)]
pub struct GetTransmitLowerLimit {
    pub band: TransmitBand,
}

impl GetTransmitLowerLimit {
    pub fn to_bytes(&self) -> (r: Vec<u8>)
        ensures
            r@ == frame(transmit_lower_limit_id(), seq![self.band.spec_byte()]),
    {
        let args: [u8; 1] = [self.band.as_byte()];
        assert(args@ =~= seq![self.band.spec_byte()]);
        frame_command(transmit_lower_limit_id_bytes(), &args)
    }

    pub fn parse(&self, bytes: &[u8]) -> (r: Result<Frequency, RigError>)
        ensures
            agrees(r, spec_transmit_limit(bytes@, transmit_lower_limit_id())),
    {
        match validate_response(bytes, transmit_lower_limit_id_bytes(), 5) {
            Ok(d) => Frequency::try_from(d),
            Err(e) => Err(e),
        }
    }
}

/// Get the upper transmit limit of a band: `TXH{n};`, answered by `TXH{fffff};` in kHz.
#[derive(Clone, Copy, Debug, PartialEq, Eq)]
pub struct GetTransmitUpperLimit {
    pub band: TransmitBand,
}

impl GetTransmitUpperLimit {
    pub fn to_bytes(&self) -> (r: Vec<u8>)
        ensures
            r@ == frame(transmit_upper_limit_id(), seq![self.band.spec_byte()]),
    {
        let args: [u8; 1] = [self.band.as_byte()];
        assert(args@ =~= seq![self.band.spec_byte()]);
        frame_command(transmit_upper_limit_id_bytes(), &args)
    }

    pub fn parse(&self, bytes: &[u8]) -> (r: Result<Frequency, RigError>)
        ensures
            agrees(r, spec_transmit_limit(bytes@, transmit_upper_limit_id())),
    {
        match validate_response(bytes, transmit_upper_limit_id_bytes(), 5) {
            Ok(d) => Frequency::try_from(d),
            Err(e) => Err(e),
        }
    }
}

} // verus!
