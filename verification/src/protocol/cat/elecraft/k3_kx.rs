//! CAT commands for the Elecraft K3, K3S, KX2 and KX3 transceivers.
//!
//! Commands follow the K3S/K3/KX3/KX2 Programmer's Reference, rev. G5.

use vstd::prelude::*;

use crate::protocol::cat::digits::pow10;

use crate::protocol::cat::lemma_framed_value_reads_back;

use crate::error::{
    Failure, RigError, agrees, enum_parse, invalid_argument_value, invalid_response_data,
};
use crate::protocol::Frequency;
use crate::protocol::cat::{
    encode_int_in_range, encode_uint_in_range, frame, frame_command, int_args, uint_args,
};
use crate::protocol::cat::common::{
    lemma_bit_weights,
    ASCII_DIGIT_ONE, ASCII_DIGIT_ZERO, ascii_chars, assert_all_bytes_eq, assert_byte_eq, bit_set,
    bool_from_ascii_1_0, bytes_to_vec, decimal_string, format_uint_ascii, int_to_string,
    is_bit_set, response_value, sign_from_ascii_loose, spec_bool_1_0, spec_sign_loose,
    spec_u16_field, spec_u8_field, spec_validate_response, u16_from_ascii, u8_from_ascii,
    validate_response,
};
use crate::protocol::cat::digits::{
    all_digits, digits_value, is_digit, leading_value, lemma_digits_value_bound,
    lemma_digits_value_take_step, lemma_leading_value_bound, lemma_num_digits_le,
    lemma_padded_decimal_value, lemma_pow10_values, num_digits, padded_decimal,
};
use crate::protocol::cat::elecraft::Vfo;
use crate::protocol::cat::elecraft::k2::{
    decimal_point_flag, display_chars, parse_text_and_decimal_flags, spec_text_failure,
};

verus! {

// ------------------------------------------------------------------------------------------------
// K3 command mode: `K3`
// ------------------------------------------------------------------------------------------------

/// `K3`
pub open spec fn k3_command_mode_id() -> Seq<u8> {
    seq![0x4B, 0x33]
}

fn k3_command_mode_id_bytes() -> (r: &'static [u8])
    ensures
        r@ == k3_command_mode_id(),
{
    &[0x4B, 0x33]
}

/// The K3 meta-command mode: normal (`K30`) or extended (`K31`) response formats.
#[derive(Clone, Copy, Debug, PartialEq, Eq)]
pub struct K3CommandMode {
    /// `true` for the extended RSP format, `false` for the normal RSP format.
    pub extended: bool,
}

impl K3CommandMode {
    /// What `try_from` gives for a response value.
    pub open spec fn spec_try_from(value: Seq<u8>) -> Result<K3CommandMode, Failure> {
        if value.len() != 1 {
            Err(Failure::ResponseLength(crate::error::ranges::Ranges::Just(1), value.len() as usize))
        } else {
            Ok(K3CommandMode { extended: value[0] == 0x31 })
        }
    }

    /// Reads the one-byte response value; `1` is extended, any other byte normal.
    pub fn try_from(value: &[u8]) -> (r: Result<K3CommandMode, RigError>)
        ensures
            agrees(r, Self::spec_try_from(value@)),
    {
        if value.len() != 1 {
            Err(crate::error::invalid_response_length(crate::error::ranges::Ranges::Just(1), value.len()))
        } else {
            Ok(K3CommandMode { extended: value[0] == 0x31 })
        }
    }

    /// The extended mode, `K31`.
    pub fn extended() -> (r: K3CommandMode)
        ensures
            r.extended,
    {
        K3CommandMode { extended: true }
    }

    /// The normal mode, `K30`.
    pub fn normal() -> (r: K3CommandMode)
        ensures
            !r.extended,
    {
        K3CommandMode { extended: false }
    }

    /// The displayed name of the mode.
    pub fn display_name(&self) -> (s: &'static str)
        ensures
            s@ == (if self.extended {
                "K3 Extended Mode"@
            } else {
                "K3 Normal Mode"@
            }),
    {
        if self.extended {
            "K3 Extended Mode"
        } else {
            "K3 Normal Mode"
        }
    }
}

/// Get the K3 meta-command mode: `K3;`, answered by `K3{n};`.
#[derive(Clone, Copy, Debug, PartialEq, Eq)]
pub struct GetK3CommandMode;

impl GetK3CommandMode {
    pub fn to_bytes(&self) -> (r: Vec<u8>)
        ensures
            r@ == frame(k3_command_mode_id(), seq![]),
    {
        let none: [u8; 0] = [];
        frame_command(k3_command_mode_id_bytes(), &none)
    }

    /// What `parse` gives for a response.
    pub open spec fn spec_parse_response(bytes: Seq<u8>) -> Result<K3CommandMode, Failure> {
        match spec_validate_response(bytes, k3_command_mode_id(), 1) {
            Ok(v) => K3CommandMode::spec_try_from(v),
            Err(f) => Err(f),
        }
    }

    pub fn parse(&self, bytes: &[u8]) -> (r: Result<K3CommandMode, RigError>)
        ensures
            agrees(r, Self::spec_parse_response(bytes@)),
    {
        match validate_response(bytes, k3_command_mode_id_bytes(), 1) {
            Ok(d) => K3CommandMode::try_from(d),
            Err(e) => Err(e),
        }
    }
}

/// Set the K3 meta-command mode: `K3{n};`.
#[derive(Clone, Copy, Debug, PartialEq, Eq)]
pub struct SetK3CommandMode {
    pub mode: K3CommandMode,
}

impl SetK3CommandMode {
    /// Switch to the extended response format.
    pub fn to_extended() -> (r: SetK3CommandMode)
        ensures
            r.mode.extended,
    {
        SetK3CommandMode { mode: K3CommandMode::extended() }
    }

    /// Switch to the normal response format.
    pub fn to_normal() -> (r: SetK3CommandMode)
        ensures
            !r.mode.extended,
    {
        SetK3CommandMode { mode: K3CommandMode::normal() }
    }

    pub open spec fn spec_args(self) -> Seq<u8> {
        seq![if self.mode.extended { 0x31u8 } else { 0x30u8 }]
    }

    pub fn to_bytes(&self) -> (r: Vec<u8>)
        ensures
            r@ == frame(k3_command_mode_id(), self.spec_args()),
    {
        let args: [u8; 1] = [if self.mode.extended { 0x31u8 } else { 0x30u8 }];
        assert(args@ =~= self.spec_args());
        frame_command(k3_command_mode_id_bytes(), &args)
    }
}

/// The K3 command modes on the wire: `1` extended and `0` normal, read and sent alike.
pub proof fn lemma_k3_command_mode_digits(mode: K3CommandMode)
    ensures
        K3CommandMode::spec_try_from(seq![0x31u8]) == Ok::<K3CommandMode, Failure>(
            (K3CommandMode { extended: true }),
        ),
        K3CommandMode::spec_try_from(seq![0x30u8]) == Ok::<K3CommandMode, Failure>(
            (K3CommandMode { extended: false }),
        ),
        mode.extended ==> (SetK3CommandMode { mode }).spec_args() == seq![0x31u8],
        !mode.extended ==> (SetK3CommandMode { mode }).spec_args() == seq![0x30u8],
{
}

/// Setting the K3 command mode and reading it back agree: the reply that echoes a `Set` command
/// reads as the mode that was set.
pub proof fn lemma_k3_command_mode_round_trip(mode: K3CommandMode)
    ensures
        GetK3CommandMode::spec_parse_response(
            frame(k3_command_mode_id(), SetK3CommandMode { mode }.spec_args()),
        ) == Ok::<K3CommandMode, Failure>(mode),
{
    let bytes = frame(k3_command_mode_id(), SetK3CommandMode { mode }.spec_args());
    assert(bytes.take(2) =~= k3_command_mode_id());
    assert(crate::protocol::cat::common::response_value(bytes, k3_command_mode_id())
        =~= SetK3CommandMode { mode }.spec_args());
}

// ------------------------------------------------------------------------------------------------
// VFO tuning steps: `DN`, `DNB`, `UP`, `UPB`
// ------------------------------------------------------------------------------------------------

/// A VFO frequency change step size.
#[derive(Clone, Copy, Debug, PartialEq, Eq, Hash)]
pub enum VfoFrequencyChangeStep {
    /// 1 Hz; `0` on the wire.
    Step1Hz,
    /// 10 Hz; `1` on the wire.
    Step10Hz,
    /// 20 Hz; `2` on the wire.
    Step20Hz,
    /// 50 Hz; `3` on the wire.
    Step50Hz,
    /// 1 kHz; `4` on the wire.
    Step1kHz,
    /// 2 kHz; `5` on the wire.
    Step2kHz,
    /// 3 kHz; `6` on the wire.
    Step3kHz,
    /// 5 kHz; `7` on the wire.
    Step5kHz,
    /// 100 Hz; `8` on the wire.
    Step100Hz,
    /// 200 Hz; `9` on the wire.
    Step200Hz,
}

impl VfoFrequencyChangeStep {
    pub open spec fn spec_byte(self) -> u8 {
        match self {
            VfoFrequencyChangeStep::Step1Hz => 0x30,
            VfoFrequencyChangeStep::Step10Hz => 0x31,
            VfoFrequencyChangeStep::Step20Hz => 0x32,
            VfoFrequencyChangeStep::Step50Hz => 0x33,
            VfoFrequencyChangeStep::Step1kHz => 0x34,
            VfoFrequencyChangeStep::Step2kHz => 0x35,
            VfoFrequencyChangeStep::Step3kHz => 0x36,
            VfoFrequencyChangeStep::Step5kHz => 0x37,
            VfoFrequencyChangeStep::Step100Hz => 0x38,
            VfoFrequencyChangeStep::Step200Hz => 0x39,
        }
    }

    /// The step in hertz.
    pub open spec fn spec_hz(self) -> u64 {
        match self {
            VfoFrequencyChangeStep::Step1Hz => 1,
            VfoFrequencyChangeStep::Step10Hz => 10,
            VfoFrequencyChangeStep::Step20Hz => 20,
            VfoFrequencyChangeStep::Step50Hz => 50,
            VfoFrequencyChangeStep::Step1kHz => 1000,
            VfoFrequencyChangeStep::Step2kHz => 2000,
            VfoFrequencyChangeStep::Step3kHz => 3000,
            VfoFrequencyChangeStep::Step5kHz => 5000,
            VfoFrequencyChangeStep::Step100Hz => 100,
            VfoFrequencyChangeStep::Step200Hz => 200,
        }
    }

    /// The wire byte of the step.
    pub fn as_byte(&self) -> (b: u8)
        ensures
            b == self.spec_byte(),
    {
        match self {
            VfoFrequencyChangeStep::Step1Hz => 0x30,
            VfoFrequencyChangeStep::Step10Hz => 0x31,
            VfoFrequencyChangeStep::Step20Hz => 0x32,
            VfoFrequencyChangeStep::Step50Hz => 0x33,
            VfoFrequencyChangeStep::Step1kHz => 0x34,
            VfoFrequencyChangeStep::Step2kHz => 0x35,
            VfoFrequencyChangeStep::Step3kHz => 0x36,
            VfoFrequencyChangeStep::Step5kHz => 0x37,
            VfoFrequencyChangeStep::Step100Hz => 0x38,
            VfoFrequencyChangeStep::Step200Hz => 0x39,
        }
    }

    /// The step that a wire byte stands for.
    pub fn from_repr(b: u8) -> (r: Option<VfoFrequencyChangeStep>)
        ensures
            r matches Some(s) ==> s.spec_byte() == b,
            r is None <==> !(0x30 <= b <= 0x39),
    {
        if b == 0x30 {
            Some(VfoFrequencyChangeStep::Step1Hz)
        } else if b == 0x31 {
            Some(VfoFrequencyChangeStep::Step10Hz)
        } else if b == 0x32 {
            Some(VfoFrequencyChangeStep::Step20Hz)
        } else if b == 0x33 {
            Some(VfoFrequencyChangeStep::Step50Hz)
        } else if b == 0x34 {
            Some(VfoFrequencyChangeStep::Step1kHz)
        } else if b == 0x35 {
            Some(VfoFrequencyChangeStep::Step2kHz)
        } else if b == 0x36 {
            Some(VfoFrequencyChangeStep::Step3kHz)
        } else if b == 0x37 {
            Some(VfoFrequencyChangeStep::Step5kHz)
        } else if b == 0x38 {
            Some(VfoFrequencyChangeStep::Step100Hz)
        } else if b == 0x39 {
            Some(VfoFrequencyChangeStep::Step200Hz)
        } else {
            None
        }
    }
}

/// The wire bytes of `VfoFrequencyChangeStep`: Step1Hz `0`, Step10Hz `1`, Step20Hz `2`, Step50Hz `3`, Step1kHz `4`, Step2kHz `5`, Step3kHz `6`, Step5kHz `7`, Step100Hz `8`, Step200Hz `9`; and each step's size in hertz.
pub proof fn lemma_vfo_frequency_change_step_wire_bytes()
    ensures
        VfoFrequencyChangeStep::Step1Hz.spec_byte() == 0x30,
        VfoFrequencyChangeStep::Step10Hz.spec_byte() == 0x31,
        VfoFrequencyChangeStep::Step20Hz.spec_byte() == 0x32,
        VfoFrequencyChangeStep::Step50Hz.spec_byte() == 0x33,
        VfoFrequencyChangeStep::Step1kHz.spec_byte() == 0x34,
        VfoFrequencyChangeStep::Step2kHz.spec_byte() == 0x35,
        VfoFrequencyChangeStep::Step3kHz.spec_byte() == 0x36,
        VfoFrequencyChangeStep::Step5kHz.spec_byte() == 0x37,
        VfoFrequencyChangeStep::Step100Hz.spec_byte() == 0x38,
        VfoFrequencyChangeStep::Step200Hz.spec_byte() == 0x39,
        VfoFrequencyChangeStep::Step1Hz.spec_hz() == 1,
        VfoFrequencyChangeStep::Step10Hz.spec_hz() == 10,
        VfoFrequencyChangeStep::Step20Hz.spec_hz() == 20,
        VfoFrequencyChangeStep::Step50Hz.spec_hz() == 50,
        VfoFrequencyChangeStep::Step1kHz.spec_hz() == 1000,
        VfoFrequencyChangeStep::Step2kHz.spec_hz() == 2000,
        VfoFrequencyChangeStep::Step3kHz.spec_hz() == 3000,
        VfoFrequencyChangeStep::Step5kHz.spec_hz() == 5000,
        VfoFrequencyChangeStep::Step100Hz.spec_hz() == 100,
        VfoFrequencyChangeStep::Step200Hz.spec_hz() == 200,
{
}

impl From<VfoFrequencyChangeStep> for Frequency {
    fn from(step: VfoFrequencyChangeStep) -> (r: Frequency)
        ensures
            r.0 == step.spec_hz(),
    {
        Frequency(
            match step {
                VfoFrequencyChangeStep::Step1Hz => 1,
                VfoFrequencyChangeStep::Step10Hz => 10,
                VfoFrequencyChangeStep::Step20Hz => 20,
                VfoFrequencyChangeStep::Step50Hz => 50,
                VfoFrequencyChangeStep::Step1kHz => 1000,
                VfoFrequencyChangeStep::Step2kHz => 2000,
                VfoFrequencyChangeStep::Step3kHz => 3000,
                VfoFrequencyChangeStep::Step5kHz => 5000,
                VfoFrequencyChangeStep::Step100Hz => 100,
                VfoFrequencyChangeStep::Step200Hz => 200,
            },
        )
    }
}

impl vstd::std_specs::convert::FromSpecImpl<VfoFrequencyChangeStep> for Frequency {
    open spec fn obeys_from_spec() -> bool {
        true
    }

    open spec fn from_spec(v: VfoFrequencyChangeStep) -> Frequency {
        Frequency(v.spec_hz())
    }
}

/// The arguments of a move command: the step byte, or nothing for the radio's default step.
pub open spec fn step_args(step: Option<VfoFrequencyChangeStep>) -> Seq<u8> {
    match step {
        Some(s) => seq![s.spec_byte()],
        None => seq![],
    }
}

fn step_arg_bytes(step: Option<VfoFrequencyChangeStep>) -> (r: Vec<u8>)
    ensures
        r@ == step_args(step),
{
    let mut v: Vec<u8> = Vec::new();
    if let Some(s) = step {
        v.push(s.as_byte());
    }
    v
}

/// `DN`
pub open spec fn move_vfo_a_down_id() -> Seq<u8> {
    seq![0x44, 0x4E]
}

fn move_vfo_a_down_id_bytes() -> (r: &'static [u8])
    ensures
        r@ == move_vfo_a_down_id(),
{
    &[0x44, 0x4E]
}

/// Move VFO A down by one tuning step: `DN{n};`, where the optional *n* picks the step.
#[derive(Clone, Copy, Debug, PartialEq, Eq)]
pub struct MoveVfoAFrequencyDown {
    pub step: Option<VfoFrequencyChangeStep>,
}

impl MoveVfoAFrequencyDown {
    /// Move by the given step.
    pub fn step_by(step: VfoFrequencyChangeStep) -> (r: MoveVfoAFrequencyDown)
        ensures
            r.step == Some(step),
    {
        MoveVfoAFrequencyDown { step: Some(step) }
    }

    /// Move by 1 Hz.
    pub fn step_1hz() -> (r: MoveVfoAFrequencyDown)
        ensures
            r.step == Some(VfoFrequencyChangeStep::Step1Hz),
    {
        Self::step_by(VfoFrequencyChangeStep::Step1Hz)
    }

    /// Move by 10 Hz.
    pub fn step_10hz() -> (r: MoveVfoAFrequencyDown)
        ensures
            r.step == Some(VfoFrequencyChangeStep::Step10Hz),
    {
        Self::step_by(VfoFrequencyChangeStep::Step10Hz)
    }

    /// Move by 20 Hz.
    pub fn step_20hz() -> (r: MoveVfoAFrequencyDown)
        ensures
            r.step == Some(VfoFrequencyChangeStep::Step20Hz),
    {
        Self::step_by(VfoFrequencyChangeStep::Step20Hz)
    }

    /// Move by 50 Hz.
    pub fn step_50hz() -> (r: MoveVfoAFrequencyDown)
        ensures
            r.step == Some(VfoFrequencyChangeStep::Step50Hz),
    {
        Self::step_by(VfoFrequencyChangeStep::Step50Hz)
    }

    /// Move by 1 kHz.
    pub fn step_1khz() -> (r: MoveVfoAFrequencyDown)
        ensures
            r.step == Some(VfoFrequencyChangeStep::Step1kHz),
    {
        Self::step_by(VfoFrequencyChangeStep::Step1kHz)
    }

    /// Move by 2 kHz.
    pub fn step_2khz() -> (r: MoveVfoAFrequencyDown)
        ensures
            r.step == Some(VfoFrequencyChangeStep::Step2kHz),
    {
        Self::step_by(VfoFrequencyChangeStep::Step2kHz)
    }

    /// Move by 3 kHz.
    pub fn step_3khz() -> (r: MoveVfoAFrequencyDown)
        ensures
            r.step == Some(VfoFrequencyChangeStep::Step3kHz),
    {
        Self::step_by(VfoFrequencyChangeStep::Step3kHz)
    }

    /// Move by 5 kHz.
    pub fn step_5khz() -> (r: MoveVfoAFrequencyDown)
        ensures
            r.step == Some(VfoFrequencyChangeStep::Step5kHz),
    {
        Self::step_by(VfoFrequencyChangeStep::Step5kHz)
    }

    /// Move by 100 Hz.
    pub fn step_100hz() -> (r: MoveVfoAFrequencyDown)
        ensures
            r.step == Some(VfoFrequencyChangeStep::Step100Hz),
    {
        Self::step_by(VfoFrequencyChangeStep::Step100Hz)
    }

    /// Move by 200 Hz.
    pub fn step_200hz() -> (r: MoveVfoAFrequencyDown)
        ensures
            r.step == Some(VfoFrequencyChangeStep::Step200Hz),
    {
        Self::step_by(VfoFrequencyChangeStep::Step200Hz)
    }

    pub fn to_bytes(&self) -> (r: Vec<u8>)
        ensures
            r@ == frame(move_vfo_a_down_id(), step_args(self.step)),
    {
        let args = step_arg_bytes(self.step);
        frame_command(move_vfo_a_down_id_bytes(), args.as_slice())
    }
}

/// `DNB`
pub open spec fn move_vfo_b_down_id() -> Seq<u8> {
    seq![0x44, 0x4E, 0x42]
}

fn move_vfo_b_down_id_bytes() -> (r: &'static [u8])
    ensures
        r@ == move_vfo_b_down_id(),
{
    &[0x44, 0x4E, 0x42]
}

/// Move VFO B down by one tuning step: `DNB{n};`, where the optional *n* picks the step.
#[derive(Clone, Copy, Debug, PartialEq, Eq)]
pub struct MoveVfoBFrequencyDown {
    pub step: Option<VfoFrequencyChangeStep>,
}

impl MoveVfoBFrequencyDown {
    /// Move by the given step.
    pub fn step_by(step: VfoFrequencyChangeStep) -> (r: MoveVfoBFrequencyDown)
        ensures
            r.step == Some(step),
    {
        MoveVfoBFrequencyDown { step: Some(step) }
    }

    /// Move by 1 Hz.
    pub fn step_1hz() -> (r: MoveVfoBFrequencyDown)
        ensures
            r.step == Some(VfoFrequencyChangeStep::Step1Hz),
    {
        Self::step_by(VfoFrequencyChangeStep::Step1Hz)
    }

    /// Move by 10 Hz.
    pub fn step_10hz() -> (r: MoveVfoBFrequencyDown)
        ensures
            r.step == Some(VfoFrequencyChangeStep::Step10Hz),
    {
        Self::step_by(VfoFrequencyChangeStep::Step10Hz)
    }

    /// Move by 20 Hz.
    pub fn step_20hz() -> (r: MoveVfoBFrequencyDown)
        ensures
            r.step == Some(VfoFrequencyChangeStep::Step20Hz),
    {
        Self::step_by(VfoFrequencyChangeStep::Step20Hz)
    }

    /// Move by 50 Hz.
    pub fn step_50hz() -> (r: MoveVfoBFrequencyDown)
        ensures
            r.step == Some(VfoFrequencyChangeStep::Step50Hz),
    {
        Self::step_by(VfoFrequencyChangeStep::Step50Hz)
    }

    /// Move by 1 kHz.
    pub fn step_1khz() -> (r: MoveVfoBFrequencyDown)
        ensures
            r.step == Some(VfoFrequencyChangeStep::Step1kHz),
    {
        Self::step_by(VfoFrequencyChangeStep::Step1kHz)
    }

    /// Move by 2 kHz.
    pub fn step_2khz() -> (r: MoveVfoBFrequencyDown)
        ensures
            r.step == Some(VfoFrequencyChangeStep::Step2kHz),
    {
        Self::step_by(VfoFrequencyChangeStep::Step2kHz)
    }

    /// Move by 3 kHz.
    pub fn step_3khz() -> (r: MoveVfoBFrequencyDown)
        ensures
            r.step == Some(VfoFrequencyChangeStep::Step3kHz),
    {
        Self::step_by(VfoFrequencyChangeStep::Step3kHz)
    }

    /// Move by 5 kHz.
    pub fn step_5khz() -> (r: MoveVfoBFrequencyDown)
        ensures
            r.step == Some(VfoFrequencyChangeStep::Step5kHz),
    {
        Self::step_by(VfoFrequencyChangeStep::Step5kHz)
    }

    /// Move by 100 Hz.
    pub fn step_100hz() -> (r: MoveVfoBFrequencyDown)
        ensures
            r.step == Some(VfoFrequencyChangeStep::Step100Hz),
    {
        Self::step_by(VfoFrequencyChangeStep::Step100Hz)
    }

    /// Move by 200 Hz.
    pub fn step_200hz() -> (r: MoveVfoBFrequencyDown)
        ensures
            r.step == Some(VfoFrequencyChangeStep::Step200Hz),
    {
        Self::step_by(VfoFrequencyChangeStep::Step200Hz)
    }

    pub fn to_bytes(&self) -> (r: Vec<u8>)
        ensures
            r@ == frame(move_vfo_b_down_id(), step_args(self.step)),
    {
        let args = step_arg_bytes(self.step);
        frame_command(move_vfo_b_down_id_bytes(), args.as_slice())
    }
}

/// `UP`
pub open spec fn move_vfo_a_up_id() -> Seq<u8> {
    seq![0x55, 0x50]
}

fn move_vfo_a_up_id_bytes() -> (r: &'static [u8])
    ensures
        r@ == move_vfo_a_up_id(),
{
    &[0x55, 0x50]
}

/// Move VFO A up by one tuning step: `UP{n};`, where the optional *n* picks the step.
#[derive(Clone, Copy, Debug, PartialEq, Eq)]
pub struct MoveVfoAFrequencyUp {
    pub step: Option<VfoFrequencyChangeStep>,
}

impl MoveVfoAFrequencyUp {
    /// Move by the given step.
    pub fn step_by(step: VfoFrequencyChangeStep) -> (r: MoveVfoAFrequencyUp)
        ensures
            r.step == Some(step),
    {
        MoveVfoAFrequencyUp { step: Some(step) }
    }

    /// Move by 1 Hz.
    pub fn step_1hz() -> (r: MoveVfoAFrequencyUp)
        ensures
            r.step == Some(VfoFrequencyChangeStep::Step1Hz),
    {
        Self::step_by(VfoFrequencyChangeStep::Step1Hz)
    }

    /// Move by 10 Hz.
    pub fn step_10hz() -> (r: MoveVfoAFrequencyUp)
        ensures
            r.step == Some(VfoFrequencyChangeStep::Step10Hz),
    {
        Self::step_by(VfoFrequencyChangeStep::Step10Hz)
    }

    /// Move by 20 Hz.
    pub fn step_20hz() -> (r: MoveVfoAFrequencyUp)
        ensures
            r.step == Some(VfoFrequencyChangeStep::Step20Hz),
    {
        Self::step_by(VfoFrequencyChangeStep::Step20Hz)
    }

    /// Move by 50 Hz.
    pub fn step_50hz() -> (r: MoveVfoAFrequencyUp)
        ensures
            r.step == Some(VfoFrequencyChangeStep::Step50Hz),
    {
        Self::step_by(VfoFrequencyChangeStep::Step50Hz)
    }

    /// Move by 1 kHz.
    pub fn step_1khz() -> (r: MoveVfoAFrequencyUp)
        ensures
            r.step == Some(VfoFrequencyChangeStep::Step1kHz),
    {
        Self::step_by(VfoFrequencyChangeStep::Step1kHz)
    }

    /// Move by 2 kHz.
    pub fn step_2khz() -> (r: MoveVfoAFrequencyUp)
        ensures
            r.step == Some(VfoFrequencyChangeStep::Step2kHz),
    {
        Self::step_by(VfoFrequencyChangeStep::Step2kHz)
    }

    /// Move by 3 kHz.
    pub fn step_3khz() -> (r: MoveVfoAFrequencyUp)
        ensures
            r.step == Some(VfoFrequencyChangeStep::Step3kHz),
    {
        Self::step_by(VfoFrequencyChangeStep::Step3kHz)
    }

    /// Move by 5 kHz.
    pub fn step_5khz() -> (r: MoveVfoAFrequencyUp)
        ensures
            r.step == Some(VfoFrequencyChangeStep::Step5kHz),
    {
        Self::step_by(VfoFrequencyChangeStep::Step5kHz)
    }

    /// Move by 100 Hz.
    pub fn step_100hz() -> (r: MoveVfoAFrequencyUp)
        ensures
            r.step == Some(VfoFrequencyChangeStep::Step100Hz),
    {
        Self::step_by(VfoFrequencyChangeStep::Step100Hz)
    }

    /// Move by 200 Hz.
    pub fn step_200hz() -> (r: MoveVfoAFrequencyUp)
        ensures
            r.step == Some(VfoFrequencyChangeStep::Step200Hz),
    {
        Self::step_by(VfoFrequencyChangeStep::Step200Hz)
    }

    pub fn to_bytes(&self) -> (r: Vec<u8>)
        ensures
            r@ == frame(move_vfo_a_up_id(), step_args(self.step)),
    {
        let args = step_arg_bytes(self.step);
        frame_command(move_vfo_a_up_id_bytes(), args.as_slice())
    }
}

/// `UPB`
pub open spec fn move_vfo_b_up_id() -> Seq<u8> {
    seq![0x55, 0x50, 0x42]
}

fn move_vfo_b_up_id_bytes() -> (r: &'static [u8])
    ensures
        r@ == move_vfo_b_up_id(),
{
    &[0x55, 0x50, 0x42]
}

/// Move VFO B up by one tuning step: `UPB{n};`, where the optional *n* picks the step.
#[derive(Clone, Copy, Debug, PartialEq, Eq)]
pub struct MoveVfoBFrequencyUp {
    pub step: Option<VfoFrequencyChangeStep>,
}

impl MoveVfoBFrequencyUp {
    /// Move by the given step.
    pub fn step_by(step: VfoFrequencyChangeStep) -> (r: MoveVfoBFrequencyUp)
        ensures
            r.step == Some(step),
    {
        MoveVfoBFrequencyUp { step: Some(step) }
    }

    /// Move by 1 Hz.
    pub fn step_1hz() -> (r: MoveVfoBFrequencyUp)
        ensures
            r.step == Some(VfoFrequencyChangeStep::Step1Hz),
    {
        Self::step_by(VfoFrequencyChangeStep::Step1Hz)
    }

    /// Move by 10 Hz.
    pub fn step_10hz() -> (r: MoveVfoBFrequencyUp)
        ensures
            r.step == Some(VfoFrequencyChangeStep::Step10Hz),
    {
        Self::step_by(VfoFrequencyChangeStep::Step10Hz)
    }

    /// Move by 20 Hz.
    pub fn step_20hz() -> (r: MoveVfoBFrequencyUp)
        ensures
            r.step == Some(VfoFrequencyChangeStep::Step20Hz),
    {
        Self::step_by(VfoFrequencyChangeStep::Step20Hz)
    }

    /// Move by 50 Hz.
    pub fn step_50hz() -> (r: MoveVfoBFrequencyUp)
        ensures
            r.step == Some(VfoFrequencyChangeStep::Step50Hz),
    {
        Self::step_by(VfoFrequencyChangeStep::Step50Hz)
    }

    /// Move by 1 kHz.
    pub fn step_1khz() -> (r: MoveVfoBFrequencyUp)
        ensures
            r.step == Some(VfoFrequencyChangeStep::Step1kHz),
    {
        Self::step_by(VfoFrequencyChangeStep::Step1kHz)
    }

    /// Move by 2 kHz.
    pub fn step_2khz() -> (r: MoveVfoBFrequencyUp)
        ensures
            r.step == Some(VfoFrequencyChangeStep::Step2kHz),
    {
        Self::step_by(VfoFrequencyChangeStep::Step2kHz)
    }

    /// Move by 3 kHz.
    pub fn step_3khz() -> (r: MoveVfoBFrequencyUp)
        ensures
            r.step == Some(VfoFrequencyChangeStep::Step3kHz),
    {
        Self::step_by(VfoFrequencyChangeStep::Step3kHz)
    }

    /// Move by 5 kHz.
    pub fn step_5khz() -> (r: MoveVfoBFrequencyUp)
        ensures
            r.step == Some(VfoFrequencyChangeStep::Step5kHz),
    {
        Self::step_by(VfoFrequencyChangeStep::Step5kHz)
    }

    /// Move by 100 Hz.
    pub fn step_100hz() -> (r: MoveVfoBFrequencyUp)
        ensures
            r.step == Some(VfoFrequencyChangeStep::Step100Hz),
    {
        Self::step_by(VfoFrequencyChangeStep::Step100Hz)
    }

    /// Move by 200 Hz.
    pub fn step_200hz() -> (r: MoveVfoBFrequencyUp)
        ensures
            r.step == Some(VfoFrequencyChangeStep::Step200Hz),
    {
        Self::step_by(VfoFrequencyChangeStep::Step200Hz)
    }

    pub fn to_bytes(&self) -> (r: Vec<u8>)
        ensures
            r@ == frame(move_vfo_b_up_id(), step_args(self.step)),
    {
        let args = step_arg_bytes(self.step);
        frame_command(move_vfo_b_up_id_bytes(), args.as_slice())
    }
}

// ------------------------------------------------------------------------------------------------
// ATU network values: `AK`
// ------------------------------------------------------------------------------------------------

/// The value of an ASCII hexadecimal digit, upper or lower case.
pub open spec fn hex_digit_value(b: u8) -> Option<u8> {
    if 0x30 <= b <= 0x39 {
        Some((b - 0x30) as u8)
    } else if 0x41 <= b <= 0x46 {
        Some((b - 0x41 + 10) as u8)
    } else if 0x61 <= b <= 0x66 {
        Some((b - 0x61 + 10) as u8)
    } else {
        None
    }
}

/// A byte written as two ASCII hexadecimal digits, high digit first; a field with another byte
/// fails with `InvalidResponseData` holding the field.
pub open spec fn spec_hex_byte(field: Seq<u8>) -> Result<u8, Failure>
    recommends
        field.len() == 2,
{
    match (hex_digit_value(field[0]), hex_digit_value(field[1])) {
        (Some(h), Some(l)) => Ok((h * 16 + l) as u8),
        _ => Err(Failure::ResponseData(field)),
    }
}

fn hex_digit_from_ascii(b: u8) -> (r: Option<u8>)
    ensures
        r == hex_digit_value(b),
{
    if b >= 0x30 && b <= 0x39 {
        Some(b - 0x30)
    } else if b >= 0x41 && b <= 0x46 {
        Some(b - 0x41 + 10)
    } else if b >= 0x61 && b <= 0x66 {
        Some(b - 0x61 + 10)
    } else {
        None
    }
}

/// Reads a byte written as two ASCII hexadecimal digits.
pub fn hex_byte_from_ascii(field: &[u8]) -> (r: Result<u8, RigError>)
    requires
        field.len() == 2,
    ensures
        agrees(r, spec_hex_byte(field@)),
{
    match (hex_digit_from_ascii(field[0]), hex_digit_from_ascii(field[1])) {
        (Some(h), Some(l)) => Ok(h * 16 + l),
        _ => Err(invalid_response_data(field)),
    }
}

/// `AK`
pub open spec fn atu_network_values_id() -> Seq<u8> {
    seq![0x41, 0x4B]
}

fn atu_network_values_id_bytes() -> (r: &'static [u8])
    ensures
        r@ == atu_network_values_id(),
{
    &[0x41, 0x4B]
}

/// The ATU network of a KX3 or KX2, from the `AK` reply: three relay bitmaps. `AK000000;` comes
/// back when no ATU is installed or it is in a test setting.
#[derive(Clone, Copy, Debug, PartialEq, Eq)]
pub struct AtuNetworkValues {
    /// The inductance relays.
    pub inductance_bitmap: u8,
    /// The capacitance relays.
    pub capacitance_bitmap: u8,
    /// Other relays; bit 0 set puts the capacitors on the transmit side.
    pub misc_relay_bitmap: u8,
}

impl AtuNetworkValues {
    /// The values of a six-byte reply value `{aa}{bb}{cc}`: inductance, capacitance and other
    /// relays, each two hexadecimal digits.
    pub open spec fn spec_try_from(v: Seq<u8>) -> Result<AtuNetworkValues, Failure>
        recommends
            v.len() == 6,
    {
        match spec_hex_byte(v.subrange(0, 2)) {
            Err(f) => Err(f),
            Ok(l) => match spec_hex_byte(v.subrange(2, 4)) {
                Err(f) => Err(f),
                Ok(c) => match spec_hex_byte(v.subrange(4, 6)) {
                    Err(f) => Err(f),
                    Ok(m) => Ok(
                        AtuNetworkValues {
                            inductance_bitmap: l,
                            capacitance_bitmap: c,
                            misc_relay_bitmap: m,
                        },
                    ),
                },
            },
        }
    }

    pub fn try_from(v: &[u8]) -> (r: Result<AtuNetworkValues, RigError>)
        requires
            v.len() == 6,
        ensures
            agrees(r, AtuNetworkValues::spec_try_from(v@)),
    {
        let inductance_bitmap = match hex_byte_from_ascii(&v[0..2]) {
            Ok(b) => b,
            Err(e) => return Err(e),
        };
        let capacitance_bitmap = match hex_byte_from_ascii(&v[2..4]) {
            Ok(b) => b,
            Err(e) => return Err(e),
        };
        let misc_relay_bitmap = match hex_byte_from_ascii(&v[4..6]) {
            Ok(b) => b,
            Err(e) => return Err(e),
        };
        Ok(AtuNetworkValues { inductance_bitmap, capacitance_bitmap, misc_relay_bitmap })
    }
}

/// ASCII hexadecimal digits: `0` to `9` are worth 0 to 9, `A` to `F` and `a` to `f` 10 to 15,
/// and no other byte is a digit.
pub proof fn lemma_hex_digit_values(b: u8)
    ensures
        0x30 <= b <= 0x39 ==> hex_digit_value(b) == Some((b - 0x30) as u8),
        0x41 <= b <= 0x46 ==> hex_digit_value(b) == Some((b - 0x37) as u8),
        0x61 <= b <= 0x66 ==> hex_digit_value(b) == Some((b - 0x57) as u8),
        !(0x30 <= b <= 0x39 || 0x41 <= b <= 0x46 || 0x61 <= b <= 0x66) ==> hex_digit_value(b)
            is None,
{
}

/// An `AK` value of three hexadecimal pairs reads inductance from bytes 0 and 1, capacitance
/// from bytes 2 and 3 and the other relays from bytes 4 and 5, high digit first.
pub proof fn lemma_atu_network_values_positions(v: Seq<u8>)
    requires
        v.len() == 6,
    ensures
        AtuNetworkValues::spec_try_from(v) matches Ok(r) ==> {
            &&& hex_digit_value(v[0]) is Some && hex_digit_value(v[1]) is Some
            &&& r.inductance_bitmap == hex_digit_value(v[0]).unwrap() * 16 + hex_digit_value(v[1]).unwrap()
            &&& r.capacitance_bitmap == hex_digit_value(v[2]).unwrap() * 16 + hex_digit_value(v[3]).unwrap()
            &&& r.misc_relay_bitmap == hex_digit_value(v[4]).unwrap() * 16 + hex_digit_value(v[5]).unwrap()
        },
        (forall|i: int| 0 <= i < 6 ==> #[trigger] hex_digit_value(v[i]) is Some)
            ==> AtuNetworkValues::spec_try_from(v) is Ok,
{
    assert(v.subrange(0, 2)[0] == v[0] && v.subrange(0, 2)[1] == v[1]);
    assert(v.subrange(2, 4)[0] == v[2] && v.subrange(2, 4)[1] == v[3]);
    assert(v.subrange(4, 6)[0] == v[4] && v.subrange(4, 6)[1] == v[5]);
    if forall|i: int| 0 <= i < 6 ==> #[trigger] hex_digit_value(v[i]) is Some {
        assert(hex_digit_value(v[0]) is Some && hex_digit_value(v[1]) is Some);
        assert(hex_digit_value(v[2]) is Some && hex_digit_value(v[3]) is Some);
        assert(hex_digit_value(v[4]) is Some && hex_digit_value(v[5]) is Some);
    }
}

/// Get the ATU network values (KX3 and KX2): `AK;`, answered by `AK{aa}{bb}{cc};`.
#[derive(Clone, Copy, Debug, PartialEq, Eq)]
pub struct GetAtuNetworkValues;

impl GetAtuNetworkValues {
    pub fn to_bytes(&self) -> (r: Vec<u8>)
        ensures
            r@ == frame(atu_network_values_id(), seq![]),
    {
        let none: [u8; 0] = [];
        frame_command(atu_network_values_id_bytes(), &none)
    }

    pub fn parse(&self, bytes: &[u8]) -> (r: Result<AtuNetworkValues, RigError>)
        ensures
            match spec_validate_response(bytes@, atu_network_values_id(), 6) {
                Err(f) => r matches Err(e) && e.fails_with(f),
                Ok(v) => agrees(r, AtuNetworkValues::spec_try_from(v)),
            },
    {
        match validate_response(bytes, atu_network_values_id_bytes(), 6) {
            Ok(d) => AtuNetworkValues::try_from(d),
            Err(e) => Err(e),
        }
    }
}

// ------------------------------------------------------------------------------------------------
// Icons and status: `IC`
// ------------------------------------------------------------------------------------------------

/// `IC`
pub open spec fn icons_and_status_id() -> Seq<u8> {
    seq![0x49, 0x43]
}

fn icons_and_status_id_bytes() -> (r: &'static [u8])
    ensures
        r@ == icons_and_status_id(),
{
    &[0x49, 0x43]
}

/// The K3 icons and status flags decoded from the five bytes of an `IC` response; bit 7 of each
/// byte is always set.
#[derive(Clone, Copy, Debug, PartialEq, Eq)]
pub struct K3IconsAndStatus {
    pub preset_1: bool,
    pub preset_2: bool,
    pub band_sel: bool,
    pub msg_playing: bool,
    pub message_bank_1: bool,
    pub message_bank_2: bool,
    pub mw_power_level: bool,
    pub tx_test: bool,
    pub bset: bool,
    pub sub_rx_on: bool,
    pub sub_rx_nb_on: bool,
    pub sub_rx_aux_bnc: bool,
    pub sub_ant_main: bool,
    pub sub_ant_aux: bool,
    pub diversity_mode: bool,
    pub vfo_ab_bands_independent: bool,
    pub vfo_ab_linked: bool,
    pub text_to_terminal_on: bool,
    pub sync_data: bool,
    pub fsk_tx_polarity_normal: bool,
    pub fsk_dual_tone_filter_on: bool,
    pub vox_on_for_cw_fsk_psk: bool,
    pub dual_passband_cf_apf_on: bool,
    pub full_qsk: bool,
    pub repeater_tx_offset_negative: bool,
    pub repeater_tx_offset_positive: bool,
    pub fm_pl_tone_on: bool,
    pub am_sync_rx: bool,
    pub noise_gate_on: bool,
    pub essb: bool,
    pub vox_on_for_voice_data_afsk: bool,
    pub fast_play_in_effect: bool,
    pub ofs_led_is_on: bool,
    pub vfob_led_on: bool,
    pub sub_rx_nr_on: bool,
    pub sub_rx_squelched: bool,
    pub main_rx_squelched: bool,
    pub am_sync_usb: bool,
    pub am_sync_lsb: bool,
    pub shift_10_hz: bool,
    pub shift_50_hz: bool,
}

impl K3IconsAndStatus {
    /// The flags that five status bytes stand for.
    pub open spec fn spec_decode(bytes: Seq<u8>) -> K3IconsAndStatus {
        K3IconsAndStatus {
            preset_1: !bit_set(bytes[0], 0),
            preset_2: bit_set(bytes[0], 0),
            band_sel: !bit_set(bytes[0], 1),
            msg_playing: bit_set(bytes[0], 2),
            message_bank_1: !bit_set(bytes[0], 3),
            message_bank_2: bit_set(bytes[0], 3),
            mw_power_level: bit_set(bytes[0], 4),
            tx_test: bit_set(bytes[0], 5),
            bset: bit_set(bytes[0], 6),
            sub_rx_on: bit_set(bytes[1], 0),
            sub_rx_nb_on: bit_set(bytes[1], 1),
            sub_rx_aux_bnc: bit_set(bytes[1], 2),
            sub_ant_main: bit_set(bytes[1], 3),
            sub_ant_aux: !bit_set(bytes[1], 3),
            diversity_mode: bit_set(bytes[1], 4),
            vfo_ab_bands_independent: bit_set(bytes[1], 5),
            vfo_ab_linked: bit_set(bytes[1], 6),
            text_to_terminal_on: bit_set(bytes[2], 0),
            sync_data: bit_set(bytes[2], 1),
            fsk_tx_polarity_normal: bit_set(bytes[2], 2),
            fsk_dual_tone_filter_on: bit_set(bytes[2], 3),
            vox_on_for_cw_fsk_psk: bit_set(bytes[2], 4),
            dual_passband_cf_apf_on: bit_set(bytes[2], 5),
            full_qsk: bit_set(bytes[2], 6),
            repeater_tx_offset_negative: bit_set(bytes[3], 0),
            repeater_tx_offset_positive: bit_set(bytes[3], 1),
            fm_pl_tone_on: bit_set(bytes[3], 2),
            am_sync_rx: bit_set(bytes[3], 3),
            noise_gate_on: bit_set(bytes[3], 4),
            essb: bit_set(bytes[3], 5),
            vox_on_for_voice_data_afsk: bit_set(bytes[3], 6),
            fast_play_in_effect: bit_set(bytes[4], 0),
            ofs_led_is_on: bit_set(bytes[4], 1),
            vfob_led_on: !bit_set(bytes[4], 1),
            sub_rx_nr_on: bit_set(bytes[4], 2),
            sub_rx_squelched: bit_set(bytes[4], 3),
            main_rx_squelched: bit_set(bytes[4], 4),
            am_sync_usb: bit_set(bytes[4], 5),
            am_sync_lsb: !bit_set(bytes[4], 5),
            shift_10_hz: bit_set(bytes[4], 6),
            shift_50_hz: !bit_set(bytes[4], 6),
        }
    }

    /// Every one of the first five bytes has bit 7 set.
    pub open spec fn spec_marked(bytes: Seq<u8>) -> bool {
        forall|i: int| 0 <= i < 5 ==> bit_set(#[trigger] bytes[i], 7)
    }

    /// Decodes the status bytes.
    ///
    /// Fails with `InvalidResponseData` holding the bytes when bit 7 of one of the first five is
    /// clear. The value must hold at least five bytes.
    pub fn try_from(bytes: &[u8]) -> (r: Result<K3IconsAndStatus, RigError>)
        requires
            bytes.len() >= 5,
        ensures
            Self::spec_marked(bytes@) ==> r == Ok::<K3IconsAndStatus, RigError>(Self::spec_decode(bytes@)),
            !Self::spec_marked(bytes@) ==> (r matches Err(e) && e.is_invalid_response_data(bytes@)),
    {
        if !is_bit_set(bytes[0], 7) || !is_bit_set(bytes[1], 7) || !is_bit_set(bytes[2], 7)
            || !is_bit_set(bytes[3], 7) || !is_bit_set(bytes[4], 7) {
            return Err(invalid_response_data(bytes));
        }
        assert(forall|i: int| 0 <= i < 5 ==> bit_set(#[trigger] bytes@[i], 7)) by {
            assert(bit_set(bytes@[0], 7) && bit_set(bytes@[1], 7) && bit_set(bytes@[2], 7)
                && bit_set(bytes@[3], 7) && bit_set(bytes@[4], 7));
        }
        Ok(K3IconsAndStatus {
            preset_1: !is_bit_set(bytes[0], 0),
            preset_2: is_bit_set(bytes[0], 0),
            band_sel: !is_bit_set(bytes[0], 1),
            msg_playing: is_bit_set(bytes[0], 2),
            message_bank_1: !is_bit_set(bytes[0], 3),
            message_bank_2: is_bit_set(bytes[0], 3),
            mw_power_level: is_bit_set(bytes[0], 4),
            tx_test: is_bit_set(bytes[0], 5),
            bset: is_bit_set(bytes[0], 6),
            sub_rx_on: is_bit_set(bytes[1], 0),
            sub_rx_nb_on: is_bit_set(bytes[1], 1),
            sub_rx_aux_bnc: is_bit_set(bytes[1], 2),
            sub_ant_main: is_bit_set(bytes[1], 3),
            sub_ant_aux: !is_bit_set(bytes[1], 3),
            diversity_mode: is_bit_set(bytes[1], 4),
            vfo_ab_bands_independent: is_bit_set(bytes[1], 5),
            vfo_ab_linked: is_bit_set(bytes[1], 6),
            text_to_terminal_on: is_bit_set(bytes[2], 0),
            sync_data: is_bit_set(bytes[2], 1),
            fsk_tx_polarity_normal: is_bit_set(bytes[2], 2),
            fsk_dual_tone_filter_on: is_bit_set(bytes[2], 3),
            vox_on_for_cw_fsk_psk: is_bit_set(bytes[2], 4),
            dual_passband_cf_apf_on: is_bit_set(bytes[2], 5),
            full_qsk: is_bit_set(bytes[2], 6),
            repeater_tx_offset_negative: is_bit_set(bytes[3], 0),
            repeater_tx_offset_positive: is_bit_set(bytes[3], 1),
            fm_pl_tone_on: is_bit_set(bytes[3], 2),
            am_sync_rx: is_bit_set(bytes[3], 3),
            noise_gate_on: is_bit_set(bytes[3], 4),
            essb: is_bit_set(bytes[3], 5),
            vox_on_for_voice_data_afsk: is_bit_set(bytes[3], 6),
            fast_play_in_effect: is_bit_set(bytes[4], 0),
            ofs_led_is_on: is_bit_set(bytes[4], 1),
            vfob_led_on: !is_bit_set(bytes[4], 1),
            sub_rx_nr_on: is_bit_set(bytes[4], 2),
            sub_rx_squelched: is_bit_set(bytes[4], 3),
            main_rx_squelched: is_bit_set(bytes[4], 4),
            am_sync_usb: is_bit_set(bytes[4], 5),
            am_sync_lsb: !is_bit_set(bytes[4], 5),
            shift_10_hz: is_bit_set(bytes[4], 6),
            shift_50_hz: !is_bit_set(bytes[4], 6),
        })
    }
}

/// Each flag of `K3IconsAndStatus` is one bit of the reply, a set bit meaning on, except the flags
/// that the reply marks by a clear bit: `preset_1` clear 0x01 of bytes[0], `preset_2` set 0x01 of bytes[0], `band_sel` clear 0x02 of bytes[0], `msg_playing` set 0x04 of bytes[0], `message_bank_1` clear 0x08 of bytes[0], `message_bank_2` set 0x08 of bytes[0], `mw_power_level` set 0x10 of bytes[0], `tx_test` set 0x20 of bytes[0], `bset` set 0x40 of bytes[0], `sub_rx_on` set 0x01 of bytes[1], `sub_rx_nb_on` set 0x02 of bytes[1], `sub_rx_aux_bnc` set 0x04 of bytes[1], `sub_ant_main` set 0x08 of bytes[1], `sub_ant_aux` clear 0x08 of bytes[1], `diversity_mode` set 0x10 of bytes[1], `vfo_ab_bands_independent` set 0x20 of bytes[1], `vfo_ab_linked` set 0x40 of bytes[1], `text_to_terminal_on` set 0x01 of bytes[2], `sync_data` set 0x02 of bytes[2], `fsk_tx_polarity_normal` set 0x04 of bytes[2], `fsk_dual_tone_filter_on` set 0x08 of bytes[2], `vox_on_for_cw_fsk_psk` set 0x10 of bytes[2], `dual_passband_cf_apf_on` set 0x20 of bytes[2], `full_qsk` set 0x40 of bytes[2], `repeater_tx_offset_negative` set 0x01 of bytes[3], `repeater_tx_offset_positive` set 0x02 of bytes[3], `fm_pl_tone_on` set 0x04 of bytes[3], `am_sync_rx` set 0x08 of bytes[3], `noise_gate_on` set 0x10 of bytes[3], `essb` set 0x20 of bytes[3], `vox_on_for_voice_data_afsk` set 0x40 of bytes[3], `fast_play_in_effect` set 0x01 of bytes[4], `ofs_led_is_on` set 0x02 of bytes[4], `vfob_led_on` clear 0x02 of bytes[4], `sub_rx_nr_on` set 0x04 of bytes[4], `sub_rx_squelched` set 0x08 of bytes[4], `main_rx_squelched` set 0x10 of bytes[4], `am_sync_usb` set 0x20 of bytes[4], `am_sync_lsb` clear 0x20 of bytes[4], `shift_10_hz` set 0x40 of bytes[4], `shift_50_hz` clear 0x40 of bytes[4].
pub proof fn lemma_k3_icons_and_status_bits(bytes: Seq<u8>)
    requires
        bytes.len() >= 5,
    ensures
        ({
            let d = K3IconsAndStatus::spec_decode(bytes);
            &&& d.preset_1 == (bytes[0] & 0x01 == 0)
            &&& d.preset_2 == (bytes[0] & 0x01 != 0)
            &&& d.band_sel == (bytes[0] & 0x02 == 0)
            &&& d.msg_playing == (bytes[0] & 0x04 != 0)
            &&& d.message_bank_1 == (bytes[0] & 0x08 == 0)
            &&& d.message_bank_2 == (bytes[0] & 0x08 != 0)
            &&& d.mw_power_level == (bytes[0] & 0x10 != 0)
            &&& d.tx_test == (bytes[0] & 0x20 != 0)
            &&& d.bset == (bytes[0] & 0x40 != 0)
            &&& d.sub_rx_on == (bytes[1] & 0x01 != 0)
            &&& d.sub_rx_nb_on == (bytes[1] & 0x02 != 0)
            &&& d.sub_rx_aux_bnc == (bytes[1] & 0x04 != 0)
            &&& d.sub_ant_main == (bytes[1] & 0x08 != 0)
            &&& d.sub_ant_aux == (bytes[1] & 0x08 == 0)
            &&& d.diversity_mode == (bytes[1] & 0x10 != 0)
            &&& d.vfo_ab_bands_independent == (bytes[1] & 0x20 != 0)
            &&& d.vfo_ab_linked == (bytes[1] & 0x40 != 0)
            &&& d.text_to_terminal_on == (bytes[2] & 0x01 != 0)
            &&& d.sync_data == (bytes[2] & 0x02 != 0)
            &&& d.fsk_tx_polarity_normal == (bytes[2] & 0x04 != 0)
            &&& d.fsk_dual_tone_filter_on == (bytes[2] & 0x08 != 0)
            &&& d.vox_on_for_cw_fsk_psk == (bytes[2] & 0x10 != 0)
            &&& d.dual_passband_cf_apf_on == (bytes[2] & 0x20 != 0)
            &&& d.full_qsk == (bytes[2] & 0x40 != 0)
            &&& d.repeater_tx_offset_negative == (bytes[3] & 0x01 != 0)
            &&& d.repeater_tx_offset_positive == (bytes[3] & 0x02 != 0)
            &&& d.fm_pl_tone_on == (bytes[3] & 0x04 != 0)
            &&& d.am_sync_rx == (bytes[3] & 0x08 != 0)
            &&& d.noise_gate_on == (bytes[3] & 0x10 != 0)
            &&& d.essb == (bytes[3] & 0x20 != 0)
            &&& d.vox_on_for_voice_data_afsk == (bytes[3] & 0x40 != 0)
            &&& d.fast_play_in_effect == (bytes[4] & 0x01 != 0)
            &&& d.ofs_led_is_on == (bytes[4] & 0x02 != 0)
            &&& d.vfob_led_on == (bytes[4] & 0x02 == 0)
            &&& d.sub_rx_nr_on == (bytes[4] & 0x04 != 0)
            &&& d.sub_rx_squelched == (bytes[4] & 0x08 != 0)
            &&& d.main_rx_squelched == (bytes[4] & 0x10 != 0)
            &&& d.am_sync_usb == (bytes[4] & 0x20 != 0)
            &&& d.am_sync_lsb == (bytes[4] & 0x20 == 0)
            &&& d.shift_10_hz == (bytes[4] & 0x40 != 0)
            &&& d.shift_50_hz == (bytes[4] & 0x40 == 0)
        }),
{
    lemma_bit_weights(bytes[0]);
    lemma_bit_weights(bytes[1]);
    lemma_bit_weights(bytes[2]);
    lemma_bit_weights(bytes[3]);
    lemma_bit_weights(bytes[4]);
}

/// Get the K3 icons and status: `IC;`, answered by `IC{5 bytes};`.
#[derive(Clone, Copy, Debug, PartialEq, Eq)]
pub struct GetK3IconsAndStatus;

impl GetK3IconsAndStatus {
    pub fn to_bytes(&self) -> (r: Vec<u8>)
        ensures
            r@ == frame(icons_and_status_id(), seq![]),
    {
        let none: [u8; 0] = [];
        frame_command(icons_and_status_id_bytes(), &none)
    }

    pub fn parse(&self, bytes: &[u8]) -> (r: Result<K3IconsAndStatus, RigError>)
        ensures
            match spec_validate_response(bytes@, icons_and_status_id(), 5) {
                Err(f) => r matches Err(e) && e.fails_with(f),
                Ok(v) => if K3IconsAndStatus::spec_marked(v) {
                    r == Ok::<K3IconsAndStatus, RigError>(K3IconsAndStatus::spec_decode(v))
                } else {
                    r matches Err(e) && e.is_invalid_response_data(v)
                },
            },
    {
        match validate_response(bytes, icons_and_status_id_bytes(), 5) {
            Ok(d) => K3IconsAndStatus::try_from(d),
            Err(e) => Err(e),
        }
    }
}

/// VFO A icon data from the `DS` response: bit 7 always set, bits 0 to 6 the XIT, RIT, VFO A,
/// ATT, PRE, ANT2 and NB icons, each on when its bit is set except VFO A, which is selected when
/// bit 2 is clear.
#[derive(Clone, Copy, Debug, PartialEq, Eq)]
pub struct VfoAIconData {
    pub xit_on: bool,
    pub rit_on: bool,
    pub vfo_a_selected: bool,
    pub attenuator_on: bool,
    pub preamp_on: bool,
    pub antenna_2_selected: bool,
    pub noise_blanker_on: bool,
}

impl VfoAIconData {
    /// The icons that a byte stands for.
    pub open spec fn spec_decode(value: u8) -> VfoAIconData {
        VfoAIconData {
            xit_on: bit_set(value, 0),
            rit_on: bit_set(value, 1),
            vfo_a_selected: !bit_set(value, 2),
            attenuator_on: bit_set(value, 3),
            preamp_on: bit_set(value, 4),
            antenna_2_selected: bit_set(value, 5),
            noise_blanker_on: bit_set(value, 6),
        }
    }

    /// Decodes the icon byte; fails with `InvalidResponseData` holding the byte when bit 7 is
    /// clear.
    pub fn try_from(value: u8) -> (r: Result<VfoAIconData, RigError>)
        ensures
            bit_set(value, 7) ==> r == Ok::<VfoAIconData, RigError>(Self::spec_decode(value)),
            !bit_set(value, 7) ==> (r matches Err(e) && e.is_invalid_response_data(seq![value])),
    {
        if !is_bit_set(value, 7) {
            let data: [u8; 1] = [value];
            let e = invalid_response_data(&data);
            assert(data@ =~= seq![value]);
            Err(e)
        } else {
            Ok(VfoAIconData {
                xit_on: is_bit_set(value, 0),
                rit_on: is_bit_set(value, 1),
                vfo_a_selected: !is_bit_set(value, 2),
                attenuator_on: is_bit_set(value, 3),
                preamp_on: is_bit_set(value, 4),
                antenna_2_selected: is_bit_set(value, 5),
                noise_blanker_on: is_bit_set(value, 6),
            })
        }
    }
}

/// Each flag of `VfoAIconData` is one bit of the reply, a set bit meaning on, except the flags
/// that the reply marks by a clear bit: `xit_on` set 0x01 of value, `rit_on` set 0x02 of value, `vfo_a_selected` clear 0x04 of value, `attenuator_on` set 0x08 of value, `preamp_on` set 0x10 of value, `antenna_2_selected` set 0x20 of value, `noise_blanker_on` set 0x40 of value.
pub proof fn lemma_vfo_a_icon_data_bits(value: u8)
    ensures
        ({
            let d = VfoAIconData::spec_decode(value);
            &&& d.xit_on == (value & 0x01 != 0)
            &&& d.rit_on == (value & 0x02 != 0)
            &&& d.vfo_a_selected == (value & 0x04 == 0)
            &&& d.attenuator_on == (value & 0x08 != 0)
            &&& d.preamp_on == (value & 0x10 != 0)
            &&& d.antenna_2_selected == (value & 0x20 != 0)
            &&& d.noise_blanker_on == (value & 0x40 != 0)
        }),
{
    lemma_bit_weights(value);
}

/// VFO A additional icon data from the `DS` response in K31 mode: bit 7 always set, bits 0 to 6 the MAN NOTCH, NTCH, NR, CWT, ATU, RX ANT and SUB icons.
#[derive(Clone, Copy, Debug, PartialEq, Eq)]
pub struct VfoAIconFlashData {
    pub manual_notch_on: bool,
    pub notch_on: bool,
    pub noise_reduction_on: bool,
    pub cwt_on: bool,
    pub atu_on: bool,
    pub receive_antenna_on: bool,
    pub sub_on: bool,
}

impl VfoAIconFlashData {
    /// The icons that a byte stands for.
    pub open spec fn spec_decode(value: u8) -> VfoAIconFlashData {
        VfoAIconFlashData {
            manual_notch_on: bit_set(value, 0),
            notch_on: bit_set(value, 1),
            noise_reduction_on: bit_set(value, 2),
            cwt_on: bit_set(value, 3),
            atu_on: bit_set(value, 4),
            receive_antenna_on: bit_set(value, 5),
            sub_on: bit_set(value, 6),
        }
    }

    /// Decodes the icon byte; fails with `InvalidResponseData` holding the byte when bit 7 is
    /// clear.
    pub fn try_from(value: u8) -> (r: Result<VfoAIconFlashData, RigError>)
        ensures
            bit_set(value, 7) ==> r == Ok::<VfoAIconFlashData, RigError>(Self::spec_decode(value)),
            !bit_set(value, 7) ==> (r matches Err(e) && e.is_invalid_response_data(seq![value])),
    {
        if !is_bit_set(value, 7) {
            let data: [u8; 1] = [value];
            let e = invalid_response_data(&data);
            assert(data@ =~= seq![value]);
            Err(e)
        } else {
            Ok(VfoAIconFlashData {
                manual_notch_on: is_bit_set(value, 0),
                notch_on: is_bit_set(value, 1),
                noise_reduction_on: is_bit_set(value, 2),
                cwt_on: is_bit_set(value, 3),
                atu_on: is_bit_set(value, 4),
                receive_antenna_on: is_bit_set(value, 5),
                sub_on: is_bit_set(value, 6),
            })
        }
    }
}

/// Each flag of `VfoAIconFlashData` is one bit of the reply, a set bit meaning on, except the flags
/// that the reply marks by a clear bit: `manual_notch_on` set 0x01 of value, `notch_on` set 0x02 of value, `noise_reduction_on` set 0x04 of value, `cwt_on` set 0x08 of value, `atu_on` set 0x10 of value, `receive_antenna_on` set 0x20 of value, `sub_on` set 0x40 of value.
pub proof fn lemma_vfo_a_icon_flash_data_bits(value: u8)
    ensures
        ({
            let d = VfoAIconFlashData::spec_decode(value);
            &&& d.manual_notch_on == (value & 0x01 != 0)
            &&& d.notch_on == (value & 0x02 != 0)
            &&& d.noise_reduction_on == (value & 0x04 != 0)
            &&& d.cwt_on == (value & 0x08 != 0)
            &&& d.atu_on == (value & 0x10 != 0)
            &&& d.receive_antenna_on == (value & 0x20 != 0)
            &&& d.sub_on == (value & 0x40 != 0)
        }),
{
    lemma_bit_weights(value);
}

// ------------------------------------------------------------------------------------------------
// Installed options: `OM`
// ------------------------------------------------------------------------------------------------

/// What an option position holds: `Some(true)` for the option's letter, `Some(false)` for `-`,
/// `None` for any other byte.
pub open spec fn option_flag(b: u8, present: u8) -> Option<bool> {
    if b == present {
        Some(true)
    } else if b == 0x2D {
        Some(false)
    } else {
        None
    }
}

fn parse_option(b: u8, present: u8) -> (r: Option<bool>)
    ensures
        r == option_flag(b, present),
{
    if b == present {
        Some(true)
    } else if b == 0x2D {
        Some(false)
    } else {
        None
    }
}

/// Option modules of a K3 or K3S, from `OM APXSDFfLVR--;`: ATU, PA, transverter, sub receiver, DVR, main and sub band-pass filters, low-noise amplifier, KSYN3A synthesizer, and the K3S RF board.
#[derive(Clone, Copy, Debug, PartialEq, Eq)]
pub struct K3InstalledOptions {
    pub has_kat3a_atu: bool,
    pub has_kpa3a_pa: bool,
    pub has_kxv3_xvtr: bool,
    pub has_krx3a_sub_receiver: bool,
    pub has_kdvr3_dvr: bool,
    pub has_kbpf3a_main_bpf: bool,
    pub has_kbpf3a_sub_bpf: bool,
    pub has_kxv3b_low_noise_amp: bool,
    pub has_ksyn3a: bool,
    pub has_k3s: bool,
}

impl K3InstalledOptions {
    /// Every option position holds its letter or `-`.
    pub open spec fn spec_valid(value: Seq<u8>) -> bool {
        &&& option_flag(value[0], 0x41) is Some
        &&& option_flag(value[1], 0x50) is Some
        &&& option_flag(value[2], 0x58) is Some
        &&& option_flag(value[3], 0x53) is Some
        &&& option_flag(value[4], 0x44) is Some
        &&& option_flag(value[5], 0x46) is Some
        &&& option_flag(value[6], 0x66) is Some
        &&& option_flag(value[7], 0x4C) is Some
        &&& option_flag(value[8], 0x56) is Some
        &&& option_flag(value[9], 0x52) is Some
    }

    /// The options that a valid response value stands for.
    pub open spec fn spec_decode(value: Seq<u8>) -> K3InstalledOptions {
        K3InstalledOptions {
            has_kat3a_atu: value[0] == 0x41,
            has_kpa3a_pa: value[1] == 0x50,
            has_kxv3_xvtr: value[2] == 0x58,
            has_krx3a_sub_receiver: value[3] == 0x53,
            has_kdvr3_dvr: value[4] == 0x44,
            has_kbpf3a_main_bpf: value[5] == 0x46,
            has_kbpf3a_sub_bpf: value[6] == 0x66,
            has_kxv3b_low_noise_amp: value[7] == 0x4C,
            has_ksyn3a: value[8] == 0x56,
            has_k3s: value[9] == 0x52,
        }
    }

    /// Decodes the option letters of an `OM` response value, without its leading space.
    ///
    /// Fails with `InvalidResponseData` holding the value when a position holds neither its
    /// letter nor `-`. The value must hold at least 10 bytes.
    pub fn try_from(value: &[u8]) -> (r: Result<K3InstalledOptions, RigError>)
        requires
            value.len() >= 10,
        ensures
            Self::spec_valid(value@) ==> r == Ok::<K3InstalledOptions, RigError>(Self::spec_decode(value@)),
            !Self::spec_valid(value@) ==> (r matches Err(e) && e.is_invalid_response_data(value@)),
    {
        let has_kat3a_atu = match parse_option(value[0], 0x41) {
            Some(b) => b,
            None => return Err(invalid_response_data(value)),
        };
        let has_kpa3a_pa = match parse_option(value[1], 0x50) {
            Some(b) => b,
            None => return Err(invalid_response_data(value)),
        };
        let has_kxv3_xvtr = match parse_option(value[2], 0x58) {
            Some(b) => b,
            None => return Err(invalid_response_data(value)),
        };
        let has_krx3a_sub_receiver = match parse_option(value[3], 0x53) {
            Some(b) => b,
            None => return Err(invalid_response_data(value)),
        };
        let has_kdvr3_dvr = match parse_option(value[4], 0x44) {
            Some(b) => b,
            None => return Err(invalid_response_data(value)),
        };
        let has_kbpf3a_main_bpf = match parse_option(value[5], 0x46) {
            Some(b) => b,
            None => return Err(invalid_response_data(value)),
        };
        let has_kbpf3a_sub_bpf = match parse_option(value[6], 0x66) {
            Some(b) => b,
            None => return Err(invalid_response_data(value)),
        };
        let has_kxv3b_low_noise_amp = match parse_option(value[7], 0x4C) {
            Some(b) => b,
            None => return Err(invalid_response_data(value)),
        };
        let has_ksyn3a = match parse_option(value[8], 0x56) {
            Some(b) => b,
            None => return Err(invalid_response_data(value)),
        };
        let has_k3s = match parse_option(value[9], 0x52) {
            Some(b) => b,
            None => return Err(invalid_response_data(value)),
        };
        Ok(K3InstalledOptions {
            has_kat3a_atu,
            has_kpa3a_pa,
            has_kxv3_xvtr,
            has_krx3a_sub_receiver,
            has_kdvr3_dvr,
            has_kbpf3a_main_bpf,
            has_kbpf3a_sub_bpf,
            has_kxv3b_low_noise_amp,
            has_ksyn3a,
            has_k3s,
        })
    }

    /// The radio is a K3: the K3S RF board is absent.
    pub open spec fn spec_is_model_k3(self) -> bool {
        !self.has_k3s
    }

    /// The radio is a K3S: the K3S RF board is present.
    pub open spec fn spec_is_model_k3s(self) -> bool {
        self.has_k3s
    }

    /// The radio is a K3: the K3S RF board is absent.
    pub fn is_model_k3(&self) -> (r: bool)
        ensures
            r == self.spec_is_model_k3(),
    {
        !self.has_k3s
    }

    /// The radio is a K3S: the K3S RF board is present.
    pub fn is_model_k3s(&self) -> (r: bool)
        ensures
            r == self.spec_is_model_k3s(),
    {
        self.has_k3s
    }
}

/// In a valid K3/K3S `OM` value each option is present exactly when its position holds its
/// letter (`A` at 0, `P` at 1, `X` at 2, `S` at 3, `D` at 4, `F` at 5, `f` at 6, `L` at 7, `V` at 8, `R` at 9), and absent when it holds `-`.
pub proof fn lemma_k3_installed_options_positions(value: Seq<u8>)
    requires
        value.len() >= 10,
        K3InstalledOptions::spec_valid(value),
    ensures
        ({
            let d = K3InstalledOptions::spec_decode(value);
            &&& (value[0] == 0x41 || value[0] == 0x2D) && d.has_kat3a_atu == (value[0] == 0x41)
            &&& (value[1] == 0x50 || value[1] == 0x2D) && d.has_kpa3a_pa == (value[1] == 0x50)
            &&& (value[2] == 0x58 || value[2] == 0x2D) && d.has_kxv3_xvtr == (value[2] == 0x58)
            &&& (value[3] == 0x53 || value[3] == 0x2D) && d.has_krx3a_sub_receiver == (value[3] == 0x53)
            &&& (value[4] == 0x44 || value[4] == 0x2D) && d.has_kdvr3_dvr == (value[4] == 0x44)
            &&& (value[5] == 0x46 || value[5] == 0x2D) && d.has_kbpf3a_main_bpf == (value[5] == 0x46)
            &&& (value[6] == 0x66 || value[6] == 0x2D) && d.has_kbpf3a_sub_bpf == (value[6] == 0x66)
            &&& (value[7] == 0x4C || value[7] == 0x2D) && d.has_kxv3b_low_noise_amp == (value[7] == 0x4C)
            &&& (value[8] == 0x56 || value[8] == 0x2D) && d.has_ksyn3a == (value[8] == 0x56)
            &&& (value[9] == 0x52 || value[9] == 0x2D) && d.has_k3s == (value[9] == 0x52)
        }),
{
}

/// Option modules of a K4, from `OM APXSHML14---;`: ATU, PA, transverter, sub receiver, HDR module, K40 mini, linear amplifier, KPA1500 amplifier.
#[derive(Clone, Copy, Debug, PartialEq, Eq)]
pub struct K4InstalledOptions {
    pub has_kat4_atu: bool,
    pub has_kpa4_pa: bool,
    pub has_xvtr: bool,
    pub has_krx4_sub_receiver: bool,
    pub has_khdr4_hdr: bool,
    pub has_k40_mini: bool,
    pub has_kpa_linear_pa: bool,
    pub has_kpa1500_pa: bool,
}

impl K4InstalledOptions {
    /// Every option position holds its letter or `-`.
    pub open spec fn spec_valid(value: Seq<u8>) -> bool {
        &&& option_flag(value[0], 0x41) is Some
        &&& option_flag(value[1], 0x50) is Some
        &&& option_flag(value[2], 0x58) is Some
        &&& option_flag(value[3], 0x53) is Some
        &&& option_flag(value[4], 0x48) is Some
        &&& option_flag(value[5], 0x4D) is Some
        &&& option_flag(value[6], 0x4C) is Some
        &&& option_flag(value[7], 0x31) is Some
    }

    /// The options that a valid response value stands for.
    pub open spec fn spec_decode(value: Seq<u8>) -> K4InstalledOptions {
        K4InstalledOptions {
            has_kat4_atu: value[0] == 0x41,
            has_kpa4_pa: value[1] == 0x50,
            has_xvtr: value[2] == 0x58,
            has_krx4_sub_receiver: value[3] == 0x53,
            has_khdr4_hdr: value[4] == 0x48,
            has_k40_mini: value[5] == 0x4D,
            has_kpa_linear_pa: value[6] == 0x4C,
            has_kpa1500_pa: value[7] == 0x31,
        }
    }

    /// Decodes the option letters of an `OM` response value, without its leading space.
    ///
    /// Fails with `InvalidResponseData` holding the value when a position holds neither its
    /// letter nor `-`. The value must hold at least 8 bytes.
    pub fn try_from(value: &[u8]) -> (r: Result<K4InstalledOptions, RigError>)
        requires
            value.len() >= 8,
        ensures
            Self::spec_valid(value@) ==> r == Ok::<K4InstalledOptions, RigError>(Self::spec_decode(value@)),
            !Self::spec_valid(value@) ==> (r matches Err(e) && e.is_invalid_response_data(value@)),
    {
        let has_kat4_atu = match parse_option(value[0], 0x41) {
            Some(b) => b,
            None => return Err(invalid_response_data(value)),
        };
        let has_kpa4_pa = match parse_option(value[1], 0x50) {
            Some(b) => b,
            None => return Err(invalid_response_data(value)),
        };
        let has_xvtr = match parse_option(value[2], 0x58) {
            Some(b) => b,
            None => return Err(invalid_response_data(value)),
        };
        let has_krx4_sub_receiver = match parse_option(value[3], 0x53) {
            Some(b) => b,
            None => return Err(invalid_response_data(value)),
        };
        let has_khdr4_hdr = match parse_option(value[4], 0x48) {
            Some(b) => b,
            None => return Err(invalid_response_data(value)),
        };
        let has_k40_mini = match parse_option(value[5], 0x4D) {
            Some(b) => b,
            None => return Err(invalid_response_data(value)),
        };
        let has_kpa_linear_pa = match parse_option(value[6], 0x4C) {
            Some(b) => b,
            None => return Err(invalid_response_data(value)),
        };
        let has_kpa1500_pa = match parse_option(value[7], 0x31) {
            Some(b) => b,
            None => return Err(invalid_response_data(value)),
        };
        Ok(K4InstalledOptions {
            has_kat4_atu,
            has_kpa4_pa,
            has_xvtr,
            has_krx4_sub_receiver,
            has_khdr4_hdr,
            has_k40_mini,
            has_kpa_linear_pa,
            has_kpa1500_pa,
        })
    }

    /// The radio is a basic K4: neither the sub receiver nor the HDR module.
    pub open spec fn spec_is_k4(self) -> bool {
        !self.has_krx4_sub_receiver && !self.has_khdr4_hdr
    }

    /// The radio is a K4D: the sub receiver without the HDR module.
    pub open spec fn spec_is_k4d(self) -> bool {
        self.has_krx4_sub_receiver && !self.has_khdr4_hdr
    }

    /// The radio is a K4HD: the sub receiver and the HDR module.
    pub open spec fn spec_is_k4hd(self) -> bool {
        self.has_krx4_sub_receiver && self.has_khdr4_hdr
    }

    /// The radio is a basic K4: neither the sub receiver nor the HDR module.
    pub fn is_k4(&self) -> (r: bool)
        ensures
            r == self.spec_is_k4(),
    {
        !self.has_krx4_sub_receiver && !self.has_khdr4_hdr
    }

    /// The radio is a K4D: the sub receiver without the HDR module.
    pub fn is_k4d(&self) -> (r: bool)
        ensures
            r == self.spec_is_k4d(),
    {
        self.has_krx4_sub_receiver && !self.has_khdr4_hdr
    }

    /// The radio is a K4HD: the sub receiver and the HDR module.
    pub fn is_k4hd(&self) -> (r: bool)
        ensures
            r == self.spec_is_k4hd(),
    {
        self.has_krx4_sub_receiver && self.has_khdr4_hdr
    }
}

/// In a valid K4 `OM` value each option is present exactly when its position holds its
/// letter (`A` at 0, `P` at 1, `X` at 2, `S` at 3, `H` at 4, `M` at 5, `L` at 6, `1` at 7), and absent when it holds `-`.
pub proof fn lemma_k4_installed_options_positions(value: Seq<u8>)
    requires
        value.len() >= 8,
        K4InstalledOptions::spec_valid(value),
    ensures
        ({
            let d = K4InstalledOptions::spec_decode(value);
            &&& (value[0] == 0x41 || value[0] == 0x2D) && d.has_kat4_atu == (value[0] == 0x41)
            &&& (value[1] == 0x50 || value[1] == 0x2D) && d.has_kpa4_pa == (value[1] == 0x50)
            &&& (value[2] == 0x58 || value[2] == 0x2D) && d.has_xvtr == (value[2] == 0x58)
            &&& (value[3] == 0x53 || value[3] == 0x2D) && d.has_krx4_sub_receiver == (value[3] == 0x53)
            &&& (value[4] == 0x48 || value[4] == 0x2D) && d.has_khdr4_hdr == (value[4] == 0x48)
            &&& (value[5] == 0x4D || value[5] == 0x2D) && d.has_k40_mini == (value[5] == 0x4D)
            &&& (value[6] == 0x4C || value[6] == 0x2D) && d.has_kpa_linear_pa == (value[6] == 0x4C)
            &&& (value[7] == 0x31 || value[7] == 0x2D) && d.has_kpa1500_pa == (value[7] == 0x31)
        }),
{
}

/// Option modules of a KX2 or KX3, from `OM APF---TBXI0n;` where `n` is `1` for the KX2 and `2` for the KX3: ATU, KXPA100 amplifier, roofing filter, KXAT100 ATU, battery charger and clock, transverter, and RTC I/O module.
#[derive(Clone, Copy, Debug, PartialEq, Eq)]
pub struct KXInstalledOptions {
    pub has_kxat_atu: bool,
    pub has_kxpa100_pa: bool,
    pub has_kxfl3_roofing_filter: bool,
    pub has_kxat100_external_atu: bool,
    pub has_kxbc3_realtime_clock: bool,
    pub has_kx3m_transverter: bool,
    pub has_kxio2_rtc_io: bool,
    pub is_kx3: bool,
}

impl KXInstalledOptions {
    /// Every option position holds its letter or `-`.
    pub open spec fn spec_valid(value: Seq<u8>) -> bool {
        &&& option_flag(value[0], 0x41) is Some
        &&& option_flag(value[1], 0x50) is Some
        &&& option_flag(value[2], 0x46) is Some
        &&& option_flag(value[6], 0x54) is Some
        &&& option_flag(value[7], 0x42) is Some
        &&& option_flag(value[8], 0x58) is Some
        &&& option_flag(value[9], 0x49) is Some
        &&& (value[11] == 0x32 || value[11] == 0x31)
    }

    /// The options that a valid response value stands for.
    pub open spec fn spec_decode(value: Seq<u8>) -> KXInstalledOptions {
        KXInstalledOptions {
            has_kxat_atu: value[0] == 0x41,
            has_kxpa100_pa: value[1] == 0x50,
            has_kxfl3_roofing_filter: value[2] == 0x46,
            has_kxat100_external_atu: value[6] == 0x54,
            has_kxbc3_realtime_clock: value[7] == 0x42,
            has_kx3m_transverter: value[8] == 0x58,
            has_kxio2_rtc_io: value[9] == 0x49,
            is_kx3: value[11] == 0x32,
        }
    }

    /// Decodes the option letters of an `OM` response value, without its leading space.
    ///
    /// Fails with `InvalidResponseData` holding the value when a position holds neither its
    /// letter nor `-`. The value must hold at least 12 bytes.
    pub fn try_from(value: &[u8]) -> (r: Result<KXInstalledOptions, RigError>)
        requires
            value.len() >= 12,
        ensures
            Self::spec_valid(value@) ==> r == Ok::<KXInstalledOptions, RigError>(Self::spec_decode(value@)),
            !Self::spec_valid(value@) ==> (r matches Err(e) && e.is_invalid_response_data(value@)),
    {
        let has_kxat_atu = match parse_option(value[0], 0x41) {
            Some(b) => b,
            None => return Err(invalid_response_data(value)),
        };
        let has_kxpa100_pa = match parse_option(value[1], 0x50) {
            Some(b) => b,
            None => return Err(invalid_response_data(value)),
        };
        let has_kxfl3_roofing_filter = match parse_option(value[2], 0x46) {
            Some(b) => b,
            None => return Err(invalid_response_data(value)),
        };
        let has_kxat100_external_atu = match parse_option(value[6], 0x54) {
            Some(b) => b,
            None => return Err(invalid_response_data(value)),
        };
        let has_kxbc3_realtime_clock = match parse_option(value[7], 0x42) {
            Some(b) => b,
            None => return Err(invalid_response_data(value)),
        };
        let has_kx3m_transverter = match parse_option(value[8], 0x58) {
            Some(b) => b,
            None => return Err(invalid_response_data(value)),
        };
        let has_kxio2_rtc_io = match parse_option(value[9], 0x49) {
            Some(b) => b,
            None => return Err(invalid_response_data(value)),
        };
        let is_kx3 = if value[11] == 0x32 {
            true
        } else if value[11] == 0x31 {
            false
        } else {
            return Err(invalid_response_data(value));
        };
        Ok(KXInstalledOptions {
            has_kxat_atu,
            has_kxpa100_pa,
            has_kxfl3_roofing_filter,
            has_kxat100_external_atu,
            has_kxbc3_realtime_clock,
            has_kx3m_transverter,
            has_kxio2_rtc_io,
            is_kx3,
        })
    }

    /// The radio is a KX2.
    pub open spec fn spec_is_model_kx2(self) -> bool {
        !self.is_kx3
    }

    /// The radio is a KX3.
    pub open spec fn spec_is_model_kx3(self) -> bool {
        self.is_kx3
    }

    /// The radio is a KX2.
    pub fn is_model_kx2(&self) -> (r: bool)
        ensures
            r == self.spec_is_model_kx2(),
    {
        !self.is_kx3
    }

    /// The radio is a KX3.
    pub fn is_model_kx3(&self) -> (r: bool)
        ensures
            r == self.spec_is_model_kx3(),
    {
        self.is_kx3
    }
}

/// In a valid KX2/KX3 `OM` value each option is present exactly when its position holds its
/// letter (`A` at 0, `P` at 1, `F` at 2, `T` at 6, `B` at 7, `X` at 8, `I` at 9, `2` at 11), and absent when it holds `-`.
pub proof fn lemma_k_x_installed_options_positions(value: Seq<u8>)
    requires
        value.len() >= 12,
        KXInstalledOptions::spec_valid(value),
    ensures
        ({
            let d = KXInstalledOptions::spec_decode(value);
            &&& (value[0] == 0x41 || value[0] == 0x2D) && d.has_kxat_atu == (value[0] == 0x41)
            &&& (value[1] == 0x50 || value[1] == 0x2D) && d.has_kxpa100_pa == (value[1] == 0x50)
            &&& (value[2] == 0x46 || value[2] == 0x2D) && d.has_kxfl3_roofing_filter == (value[2] == 0x46)
            &&& (value[6] == 0x54 || value[6] == 0x2D) && d.has_kxat100_external_atu == (value[6] == 0x54)
            &&& (value[7] == 0x42 || value[7] == 0x2D) && d.has_kxbc3_realtime_clock == (value[7] == 0x42)
            &&& (value[8] == 0x58 || value[8] == 0x2D) && d.has_kx3m_transverter == (value[8] == 0x58)
            &&& (value[9] == 0x49 || value[9] == 0x2D) && d.has_kxio2_rtc_io == (value[9] == 0x49)
            &&& (value[11] == 0x31 || value[11] == 0x32) && d.is_kx3 == (value[11] == 0x32)
        }),
{
}

/// The option modules reported by an `OM` response, by radio family.
#[derive(Clone, Copy, Debug, PartialEq, Eq)]
pub enum InstalledOptions {
    K3(K3InstalledOptions),
    K4(K4InstalledOptions),
    KX(KXInstalledOptions),
}

impl InstalledOptions {
    /// The value is long enough for the family its product bytes select.
    pub open spec fn spec_in_bounds(value: Seq<u8>) -> bool {
        value.len() >= 1 && value[0] == 0x20 ==> {
            let inner = value.drop_first();
            if inner.len() > 8 && inner[8] == 0x34 {
                true
            } else if inner.len() > 10 && inner[10] == 0x30 {
                inner.len() >= 12
            } else {
                inner.len() >= 10
            }
        }
    }

    /// What `try_from` gives for a value in bounds.
    pub open spec fn spec_try_from(value: Seq<u8>) -> Result<InstalledOptions, Failure> {
        if !(value.len() >= 1 && value[0] == 0x20) {
            Err(Failure::ResponseData(value))
        } else {
            let inner = value.drop_first();
            if inner.len() > 8 && inner[8] == 0x34 {
                if K4InstalledOptions::spec_valid(inner) {
                    Ok(InstalledOptions::K4(K4InstalledOptions::spec_decode(inner)))
                } else {
                    Err(Failure::ResponseData(inner))
                }
            } else if inner.len() > 10 && inner[10] == 0x30 {
                if KXInstalledOptions::spec_valid(inner) {
                    Ok(InstalledOptions::KX(KXInstalledOptions::spec_decode(inner)))
                } else {
                    Err(Failure::ResponseData(inner))
                }
            } else {
                if K3InstalledOptions::spec_valid(inner) {
                    Ok(InstalledOptions::K3(K3InstalledOptions::spec_decode(inner)))
                } else {
                    Err(Failure::ResponseData(inner))
                }
            }
        }
    }

    /// Decodes an `OM` response value: a space, then the option letters.
    ///
    /// A `4` in the K4 product position (the ninth letter) selects the K4 layout, else a `0` in
    /// the eleventh selects the KX layout, else the K3 layout. Fails with `InvalidResponseData`
    /// holding the value when the leading space is missing or the selected layout does not
    /// decode.
    pub fn try_from(value: &[u8]) -> (r: Result<InstalledOptions, RigError>)
        requires
            Self::spec_in_bounds(value@),
        ensures
            agrees(r, Self::spec_try_from(value@)),
            !(value.len() >= 1 && value@[0] == 0x20) ==> (r matches Err(e)
                && e.is_invalid_response_data(value@)),
            value.len() >= 1 && value@[0] == 0x20 ==> {
                let inner = value@.drop_first();
                if inner.len() > 8 && inner[8] == 0x34 {
                    if K4InstalledOptions::spec_valid(inner) {
                        r == Ok::<InstalledOptions, RigError>(
                            InstalledOptions::K4(K4InstalledOptions::spec_decode(inner)),
                        )
                    } else {
                        r matches Err(e) && e.is_invalid_response_data(inner)
                    }
                } else if inner.len() > 10 && inner[10] == 0x30 {
                    if KXInstalledOptions::spec_valid(inner) {
                        r == Ok::<InstalledOptions, RigError>(
                            InstalledOptions::KX(KXInstalledOptions::spec_decode(inner)),
                        )
                    } else {
                        r matches Err(e) && e.is_invalid_response_data(inner)
                    }
                } else {
                    if K3InstalledOptions::spec_valid(inner) {
                        r == Ok::<InstalledOptions, RigError>(
                            InstalledOptions::K3(K3InstalledOptions::spec_decode(inner)),
                        )
                    } else {
                        r matches Err(e) && e.is_invalid_response_data(inner)
                    }
                }
            },
    {
        if value.len() < 1 || value[0] != 0x20 {
            return Err(invalid_response_data(value));
        }
        let inner = &value[1..value.len()];
        assert(inner@ =~= value@.drop_first());
        if inner.len() > 8 && inner[8] == 0x34 {
            match K4InstalledOptions::try_from(inner) {
                Ok(o) => Ok(InstalledOptions::K4(o)),
                Err(e) => Err(e),
            }
        } else if inner.len() > 10 && inner[10] == 0x30 {
            match KXInstalledOptions::try_from(inner) {
                Ok(o) => Ok(InstalledOptions::KX(o)),
                Err(e) => Err(e),
            }
        } else {
            match K3InstalledOptions::try_from(inner) {
                Ok(o) => Ok(InstalledOptions::K3(o)),
                Err(e) => Err(e),
            }
        }
    }
}

/// `OM`
pub open spec fn installed_options_id() -> Seq<u8> {
    seq![0x4F, 0x4D]
}

fn installed_options_id_bytes() -> (r: &'static [u8])
    ensures
        r@ == installed_options_id(),
{
    &[0x4F, 0x4D]
}

/// Get the installed option modules: `OM;`, answered by `OM {12 letters};`.
#[derive(Clone, Copy, Debug, PartialEq, Eq)]
pub struct GetInstalledOptions;

impl GetInstalledOptions {
    pub fn to_bytes(&self) -> (r: Vec<u8>)
        ensures
            r@ == frame(installed_options_id(), seq![]),
    {
        let none: [u8; 0] = [];
        frame_command(installed_options_id_bytes(), &none)
    }

    /// Checks the framing of a 13-byte `OM` response and decodes its value as `try_from` does.
    pub fn parse(&self, bytes: &[u8]) -> (r: Result<InstalledOptions, RigError>)
        ensures
            match spec_validate_response(bytes@, installed_options_id(), 13) {
                Err(f) => r matches Err(e) && e.fails_with(f),
                Ok(v) => agrees(r, InstalledOptions::spec_try_from(v)),
            },
    {
        match validate_response(bytes, installed_options_id_bytes(), 13) {
            Ok(d) => InstalledOptions::try_from(d),
            Err(e) => Err(e),
        }
    }
}

/// A K4's option modules name at most one model: no set of options is both a K4 and a K4D, a
/// K4 and a K4HD, or a K4D and a K4HD.
pub proof fn lemma_k4_model_exclusive(o: K4InstalledOptions)
    ensures
        !(o.spec_is_k4() && o.spec_is_k4d()),
        !(o.spec_is_k4() && o.spec_is_k4hd()),
        !(o.spec_is_k4d() && o.spec_is_k4hd()),
{
}

/// A K3's option modules name exactly one model: K3 or K3S.
pub proof fn lemma_k3_model_exactly_one(o: K3InstalledOptions)
    ensures
        o.spec_is_model_k3() != o.spec_is_model_k3s(),
{
}

/// A KX radio's options name exactly one model: KX2 or KX3.
pub proof fn lemma_kx_model_exactly_one(o: KXInstalledOptions)
    ensures
        o.spec_is_model_kx2() != o.spec_is_model_kx3(),
{
}

/// The model that an `OM` reply names: a leading space, then a K4 when position 8 holds `4`,
/// else a KX when position 10 holds `0`, else a K3. A K3 is a K3S when position 9 holds `R`; a K4
/// is a K4D with `S` at position 3 and a K4HD with `S` at 3 and `H` at 4; a KX is a KX3 with `2`
/// at position 11 and a KX2 with `1`.
pub proof fn lemma_installed_options_models(value: Seq<u8>)
    requires
        value.len() >= 13,
        value[0] == 0x20,
    ensures
        ({
            let inner = value.drop_first();
            &&& inner[8] == 0x34 && K4InstalledOptions::spec_valid(inner)
                ==> InstalledOptions::spec_try_from(value) == Ok::<InstalledOptions, Failure>(
                InstalledOptions::K4(K4InstalledOptions::spec_decode(inner)),
            )
            &&& inner[8] != 0x34 && inner[10] == 0x30 && KXInstalledOptions::spec_valid(inner)
                ==> InstalledOptions::spec_try_from(value) == Ok::<InstalledOptions, Failure>(
                InstalledOptions::KX(KXInstalledOptions::spec_decode(inner)),
            )
            &&& inner[8] != 0x34 && inner[10] != 0x30 && K3InstalledOptions::spec_valid(inner)
                ==> InstalledOptions::spec_try_from(value) == Ok::<InstalledOptions, Failure>(
                InstalledOptions::K3(K3InstalledOptions::spec_decode(inner)),
            )
            &&& K3InstalledOptions::spec_decode(inner).spec_is_model_k3s() == (inner[9] == 0x52)
            &&& K4InstalledOptions::spec_decode(inner).spec_is_k4() == (inner[3] != 0x53
                && inner[4] != 0x48)
            &&& K4InstalledOptions::spec_decode(inner).spec_is_k4d() == (inner[3] == 0x53
                && inner[4] != 0x48)
            &&& K4InstalledOptions::spec_decode(inner).spec_is_k4hd() == (inner[3] == 0x53
                && inner[4] == 0x48)
            &&& KXInstalledOptions::spec_decode(inner).spec_is_model_kx3() == (inner[11] == 0x32)
        }),
{
}

/// Operating mode for the `MD` and `IF` commands.
#[derive(Clone, Copy, Debug, PartialEq, Eq, Hash)]
pub enum OperatingMode {
    /// LSB; `1` on the wire.
    LowerSideBand,
    /// USB; `2` on the wire.
    UpperSideBand,
    /// CW; `3` on the wire.
    ContinuousWave,
    /// FM; `4` on the wire.
    FrequencyModulation,
    /// AM; `5` on the wire.
    AmplitudeModulation,
    /// DATA A (AFSK A); `6` on the wire.
    DataA,
    /// CW-REV; `7` on the wire.
    ContinuousWaveReverse,
    /// DATA B (FSK D / PSK D); `9` on the wire.
    DataB,
}

impl OperatingMode {
    pub open spec fn spec_byte(self) -> u8 {
        match self {
            OperatingMode::LowerSideBand => 0x31,
            OperatingMode::UpperSideBand => 0x32,
            OperatingMode::ContinuousWave => 0x33,
            OperatingMode::FrequencyModulation => 0x34,
            OperatingMode::AmplitudeModulation => 0x35,
            OperatingMode::DataA => 0x36,
            OperatingMode::ContinuousWaveReverse => 0x37,
            OperatingMode::DataB => 0x39,
        }
    }

    /// The variant that a wire byte stands for.
    pub open spec fn spec_from_byte(b: u8) -> Option<OperatingMode> {
        if b == 0x31 {
            Some(OperatingMode::LowerSideBand)
        } else if b == 0x32 {
            Some(OperatingMode::UpperSideBand)
        } else if b == 0x33 {
            Some(OperatingMode::ContinuousWave)
        } else if b == 0x34 {
            Some(OperatingMode::FrequencyModulation)
        } else if b == 0x35 {
            Some(OperatingMode::AmplitudeModulation)
        } else if b == 0x36 {
            Some(OperatingMode::DataA)
        } else if b == 0x37 {
            Some(OperatingMode::ContinuousWaveReverse)
        } else if b == 0x39 {
            Some(OperatingMode::DataB)
        } else {
            None
        }
    }

    /// The wire byte.
    pub fn as_byte(&self) -> (b: u8)
        ensures
            b == self.spec_byte(),
    {
        match self {
            OperatingMode::LowerSideBand => 0x31,
            OperatingMode::UpperSideBand => 0x32,
            OperatingMode::ContinuousWave => 0x33,
            OperatingMode::FrequencyModulation => 0x34,
            OperatingMode::AmplitudeModulation => 0x35,
            OperatingMode::DataA => 0x36,
            OperatingMode::ContinuousWaveReverse => 0x37,
            OperatingMode::DataB => 0x39,
        }
    }

    /// The variant that a wire byte stands for.
    pub fn from_repr(b: u8) -> (r: Option<OperatingMode>)
        ensures
            r == Self::spec_from_byte(b),
            r matches Some(v) ==> v.spec_byte() == b,
    {
        if b == 0x31 {
            Some(OperatingMode::LowerSideBand)
        } else if b == 0x32 {
            Some(OperatingMode::UpperSideBand)
        } else if b == 0x33 {
            Some(OperatingMode::ContinuousWave)
        } else if b == 0x34 {
            Some(OperatingMode::FrequencyModulation)
        } else if b == 0x35 {
            Some(OperatingMode::AmplitudeModulation)
        } else if b == 0x36 {
            Some(OperatingMode::DataA)
        } else if b == 0x37 {
            Some(OperatingMode::ContinuousWaveReverse)
        } else if b == 0x39 {
            Some(OperatingMode::DataB)
        } else {
            None
        }
    }
}

/// The wire bytes of `OperatingMode`: LowerSideBand `1`, UpperSideBand `2`, ContinuousWave `3`, FrequencyModulation `4`, AmplitudeModulation `5`, DataA `6`, ContinuousWaveReverse `7`, DataB `9`; no other byte stands for a variant.
pub proof fn lemma_operating_mode_wire_bytes()
    ensures
        OperatingMode::LowerSideBand.spec_byte() == 0x31,
        OperatingMode::UpperSideBand.spec_byte() == 0x32,
        OperatingMode::ContinuousWave.spec_byte() == 0x33,
        OperatingMode::FrequencyModulation.spec_byte() == 0x34,
        OperatingMode::AmplitudeModulation.spec_byte() == 0x35,
        OperatingMode::DataA.spec_byte() == 0x36,
        OperatingMode::ContinuousWaveReverse.spec_byte() == 0x37,
        OperatingMode::DataB.spec_byte() == 0x39,
        OperatingMode::spec_from_byte(0x31) == Some(OperatingMode::LowerSideBand),
        OperatingMode::spec_from_byte(0x32) == Some(OperatingMode::UpperSideBand),
        OperatingMode::spec_from_byte(0x33) == Some(OperatingMode::ContinuousWave),
        OperatingMode::spec_from_byte(0x34) == Some(OperatingMode::FrequencyModulation),
        OperatingMode::spec_from_byte(0x35) == Some(OperatingMode::AmplitudeModulation),
        OperatingMode::spec_from_byte(0x36) == Some(OperatingMode::DataA),
        OperatingMode::spec_from_byte(0x37) == Some(OperatingMode::ContinuousWaveReverse),
        OperatingMode::spec_from_byte(0x39) == Some(OperatingMode::DataB),
        forall|b: u8| #[trigger] OperatingMode::spec_from_byte(b) is Some ==> (b == 0x31 || b == 0x32 || b == 0x33 || b == 0x34 || b == 0x35 || b == 0x36 || b == 0x37 || b == 0x39),
{
}

/// Reading back the wire byte of any `OperatingMode` gives the same value.
pub proof fn lemma_operating_mode_byte_round_trip(v: OperatingMode)
    ensures
        OperatingMode::spec_from_byte(v.spec_byte()) == Some(v),
{
}

/// DATA mode sub-type, for the `DT` command and the `IF` response in K31 mode.
#[derive(Clone, Copy, Debug, PartialEq, Eq, Hash)]
pub enum DataSubMode {
    /// DATA A/AFSK audio; `0` on the wire.
    DataAfsk,
    /// AFSK A; `1` on the wire.
    AfskA,
    /// FSK D/RTTY; `2` on the wire.
    FskD,
    /// PSK D; `3` on the wire.
    PskD,
}

impl DataSubMode {
    pub open spec fn spec_byte(self) -> u8 {
        match self {
            DataSubMode::DataAfsk => 0x30,
            DataSubMode::AfskA => 0x31,
            DataSubMode::FskD => 0x32,
            DataSubMode::PskD => 0x33,
        }
    }

    /// The variant that a wire byte stands for.
    pub open spec fn spec_from_byte(b: u8) -> Option<DataSubMode> {
        if b == 0x30 {
            Some(DataSubMode::DataAfsk)
        } else if b == 0x31 {
            Some(DataSubMode::AfskA)
        } else if b == 0x32 {
            Some(DataSubMode::FskD)
        } else if b == 0x33 {
            Some(DataSubMode::PskD)
        } else {
            None
        }
    }

    /// The wire byte.
    pub fn as_byte(&self) -> (b: u8)
        ensures
            b == self.spec_byte(),
    {
        match self {
            DataSubMode::DataAfsk => 0x30,
            DataSubMode::AfskA => 0x31,
            DataSubMode::FskD => 0x32,
            DataSubMode::PskD => 0x33,
        }
    }

    /// The variant that a wire byte stands for.
    pub fn from_repr(b: u8) -> (r: Option<DataSubMode>)
        ensures
            r == Self::spec_from_byte(b),
            r matches Some(v) ==> v.spec_byte() == b,
    {
        if b == 0x30 {
            Some(DataSubMode::DataAfsk)
        } else if b == 0x31 {
            Some(DataSubMode::AfskA)
        } else if b == 0x32 {
            Some(DataSubMode::FskD)
        } else if b == 0x33 {
            Some(DataSubMode::PskD)
        } else {
            None
        }
    }
}

/// The wire bytes of `DataSubMode`: DataAfsk `0`, AfskA `1`, FskD `2`, PskD `3`; no other byte stands for a variant.
pub proof fn lemma_data_sub_mode_wire_bytes()
    ensures
        DataSubMode::DataAfsk.spec_byte() == 0x30,
        DataSubMode::AfskA.spec_byte() == 0x31,
        DataSubMode::FskD.spec_byte() == 0x32,
        DataSubMode::PskD.spec_byte() == 0x33,
        DataSubMode::spec_from_byte(0x30) == Some(DataSubMode::DataAfsk),
        DataSubMode::spec_from_byte(0x31) == Some(DataSubMode::AfskA),
        DataSubMode::spec_from_byte(0x32) == Some(DataSubMode::FskD),
        DataSubMode::spec_from_byte(0x33) == Some(DataSubMode::PskD),
        forall|b: u8| #[trigger] DataSubMode::spec_from_byte(b) is Some ==> (b == 0x30 || b == 0x31 || b == 0x32 || b == 0x33),
{
}

/// Reading back the wire byte of any `DataSubMode` gives the same value.
pub proof fn lemma_data_sub_mode_byte_round_trip(v: DataSubMode)
    ensures
        DataSubMode::spec_from_byte(v.spec_byte()) == Some(v),
{
}

/// `IF`
pub open spec fn transceiver_information_id() -> Seq<u8> {
    seq![0x49, 0x46]
}

fn transceiver_information_id_bytes() -> (r: &'static [u8])
    ensures
        r@ == transceiver_information_id(),
{
    &[0x49, 0x46]
}

/// Decoded transceiver state from the `IF` response.
///
/// The 35-byte value is laid out as: the frequency in 11 digits, 5 spaces, the RIT/XIT sign and
/// 4-digit offset, the RIT and XIT flags, a space, `00`, the transmit flag, the mode digit, the
/// receive VFO, the scan, split and band-change flags, the data sub-mode (`0` when none), `1`,
/// and a space.
#[derive(Clone, Copy, Debug, PartialEq, Eq)]
pub struct TransceiverInformation {
    pub operating_frequency: Frequency,
    pub rit_xit_sign_negative: bool,
    pub rit_xit_offset_hz: u16,
    pub rit_on: bool,
    pub xit_on: bool,
    pub in_transmit_mode: bool,
    pub operating_mode: OperatingMode,
    pub receive_mode_vfo: Vfo,
    pub scan_in_progress: bool,
    pub in_split_mode: bool,
    pub event_on_band_change: bool,
    pub data_sub_mode: Option<DataSubMode>,
}

/// The byte is `0` or `1`.
pub open spec fn is_flag_byte(b: u8) -> bool {
    b == 0x30 || b == 0x31
}

impl TransceiverInformation {
    /// The first check of an `IF` value that fails, in the order they are made; `None` when
    /// the value decodes.
    pub open spec fn spec_failure(value: Seq<u8>) -> Option<Failure> {
        let frequency = value.subrange(0, 11);
        let offset = value.subrange(17, 21);
        if !(all_digits(frequency) && digits_value(frequency) <= u64::MAX) {
            Some(Failure::ResponseData(frequency))
        } else if spec_u16_field(offset) is Err {
            Some(Failure::ResponseData(offset))
        } else if !is_flag_byte(value[21]) {
            Some(Failure::Boolean(value[21]))
        } else if !is_flag_byte(value[22]) {
            Some(Failure::Boolean(value[22]))
        } else if !is_flag_byte(value[26]) {
            Some(Failure::Boolean(value[26]))
        } else if OperatingMode::spec_from_byte(value[27]) is None {
            Some(Failure::ResponseData(value))
        } else if Vfo::spec_from_byte(value[28]) is None {
            Some(Failure::ResponseData(value))
        } else if !is_flag_byte(value[29]) {
            Some(Failure::Boolean(value[29]))
        } else if !is_flag_byte(value[30]) {
            Some(Failure::Boolean(value[30]))
        } else if !is_flag_byte(value[31]) {
            Some(Failure::Boolean(value[31]))
        } else if value[32] != 0x30 && DataSubMode::spec_from_byte(value[32]) is None {
            Some(Failure::Enum("DataSubMode"@, decimal_string(value[32] as int)))
        } else if !(forall|i: int| 11 <= i < 16 ==> #[trigger] value[i] == 0x20) {
            Some(Failure::ResponseData(value.subrange(11, 16)))
        } else if value[23] != 0x20 {
            Some(Failure::ResponseData(seq![value[23]]))
        } else if !(forall|i: int| 24 <= i < 26 ==> #[trigger] value[i] == 0x30) {
            Some(Failure::ResponseData(value.subrange(24, 26)))
        } else if value[33] != 0x31 {
            Some(Failure::ResponseData(seq![value[33]]))
        } else if value[34] != 0x20 {
            Some(Failure::ResponseData(seq![value[34]]))
        } else {
            None
        }
    }

    /// The state that an `IF` value stands for, when it decodes.
    pub open spec fn spec_decode(value: Seq<u8>) -> TransceiverInformation {
        TransceiverInformation {
            operating_frequency: Frequency(digits_value(value.subrange(0, 11)) as u64),
            rit_xit_sign_negative: value[16] == 0x2D,
            rit_xit_offset_hz: digits_value(value.subrange(17, 21)) as u16,
            rit_on: value[21] == 0x31,
            xit_on: value[22] == 0x31,
            in_transmit_mode: value[26] == 0x31,
            operating_mode: OperatingMode::spec_from_byte(value[27]).unwrap(),
            receive_mode_vfo: Vfo::spec_from_byte(value[28]).unwrap(),
            scan_in_progress: value[29] == 0x31,
            in_split_mode: value[30] == 0x31,
            event_on_band_change: value[31] == 0x31,
            data_sub_mode: if value[32] != 0x30 {
                DataSubMode::spec_from_byte(value[32])
            } else {
                None
            },
        }
    }

    /// Decodes an `IF` response value.
    ///
    /// The value must hold at least 35 bytes; the reserved fields (bytes 11 to 15, 23, 24 and 25,
    /// 33 and 34) must hold their fixed values.
    pub fn try_from(value: &[u8]) -> (r: Result<TransceiverInformation, RigError>)
        requires
            value.len() >= 35,
        ensures
            match Self::spec_failure(value@) {
                Some(f) => r matches Err(e) && e.fails_with(f),
                None => r == Ok::<TransceiverInformation, RigError>(Self::spec_decode(value@)),
            },
    {
        let operating_frequency = match Frequency::try_from(&value[0..11]) {
            Ok(f) => f,
            Err(e) => return Err(e),
        };
        let rit_xit_sign_negative = value[16] == 0x2D;
        let offset = &value[17..21];
        proof {
            lemma_leading_value_bound(offset@);
            lemma_pow10_values();
        }
        let rit_xit_offset_hz = match u16_from_ascii(offset) {
            Ok(v) => v,
            Err(e) => return Err(e),
        };
        let rit_on = match bool_from_ascii_1_0(value[21]) {
            Ok(b) => b,
            Err(e) => return Err(e),
        };
        let xit_on = match bool_from_ascii_1_0(value[22]) {
            Ok(b) => b,
            Err(e) => return Err(e),
        };
        let in_transmit_mode = match bool_from_ascii_1_0(value[26]) {
            Ok(b) => b,
            Err(e) => return Err(e),
        };
        let operating_mode = match OperatingMode::from_repr(value[27]) {
            Some(m) => m,
            None => return Err(invalid_response_data(value)),
        };
        let receive_mode_vfo = match Vfo::from_repr(value[28]) {
            Some(v) => v,
            None => return Err(invalid_response_data(value)),
        };
        let scan_in_progress = match bool_from_ascii_1_0(value[29]) {
            Ok(b) => b,
            Err(e) => return Err(e),
        };
        let in_split_mode = match bool_from_ascii_1_0(value[30]) {
            Ok(b) => b,
            Err(e) => return Err(e),
        };
        let event_on_band_change = match bool_from_ascii_1_0(value[31]) {
            Ok(b) => b,
            Err(e) => return Err(e),
        };
        let data_sub_mode = if value[32] != 0x30 {
            match DataSubMode::from_repr(value[32]) {
                Some(m) => Some(m),
                None => return Err(enum_parse(int_to_string(value[32] as i64), "DataSubMode")),
            }
        } else {
            None
        };
        match assert_all_bytes_eq(&value[11..16], 0x20) {
            Ok(()) => {},
            Err(e) => return Err(e),
        }
        assert(forall|i: int| 11 <= i < 16 ==> #[trigger] value@[i] == value@.subrange(11, 16)[i - 11]);
        match assert_byte_eq(value[23], 0x20) {
            Ok(()) => {},
            Err(e) => return Err(e),
        }
        match assert_all_bytes_eq(&value[24..26], 0x30) {
            Ok(()) => {},
            Err(e) => return Err(e),
        }
        assert(forall|i: int| 24 <= i < 26 ==> #[trigger] value@[i] == value@.subrange(24, 26)[i - 24]);
        match assert_byte_eq(value[33], 0x31) {
            Ok(()) => {},
            Err(e) => return Err(e),
        }
        match assert_byte_eq(value[34], 0x20) {
            Ok(()) => {},
            Err(e) => return Err(e),
        }
        Ok(TransceiverInformation {
            operating_frequency,
            rit_xit_sign_negative,
            rit_xit_offset_hz,
            rit_on,
            xit_on,
            in_transmit_mode,
            operating_mode,
            receive_mode_vfo,
            scan_in_progress,
            in_split_mode,
            event_on_band_change,
            data_sub_mode,
        })
    }
}

/// An `IF` value that decodes gives every field from its fixed position: the frequency from
/// bytes 0 to 10, the RIT/XIT sign from byte 16 (`-` negative), the offset from bytes 17 to 20,
/// the RIT, XIT and transmit flags from bytes 21, 22 and 26 (`1` on, `0` off), the mode and
/// receive VFO from the wire bytes 27 and 28, the scan, split and band-change flags from bytes
/// 29 to 31, and the data sub-mode from byte 32 (`0` none, `1` AFSK A, `2` FSK D, `3` PSK D);
/// and the reserved bytes hold their fixed values.
pub proof fn lemma_transceiver_information_fields(value: Seq<u8>)
    requires
        value.len() >= 35,
        TransceiverInformation::spec_failure(value) is None,
    ensures
        ({
            let d = TransceiverInformation::spec_decode(value);
            &&& d.operating_frequency.0 as int == digits_value(value.subrange(0, 11))
            &&& all_digits(value.subrange(0, 11))
            &&& d.rit_xit_sign_negative == (value[16] == 0x2D)
            &&& d.rit_xit_offset_hz as int == digits_value(value.subrange(17, 21))
            &&& all_digits(value.subrange(17, 21))
            &&& (value[21] == 0x30 || value[21] == 0x31) && d.rit_on == (value[21] == 0x31)
            &&& (value[22] == 0x30 || value[22] == 0x31) && d.xit_on == (value[22] == 0x31)
            &&& (value[26] == 0x30 || value[26] == 0x31) && d.in_transmit_mode == (value[26]
                == 0x31)
            &&& d.operating_mode.spec_byte() == value[27]
            &&& d.receive_mode_vfo.spec_byte() == value[28]
            &&& (value[29] == 0x30 || value[29] == 0x31) && d.scan_in_progress == (value[29]
                == 0x31)
            &&& (value[30] == 0x30 || value[30] == 0x31) && d.in_split_mode == (value[30] == 0x31)
            &&& (value[31] == 0x30 || value[31] == 0x31) && d.event_on_band_change == (value[31]
                == 0x31)
            &&& (value[32] == 0x30 ==> d.data_sub_mode == None::<DataSubMode>)
            &&& (value[32] == 0x31 ==> d.data_sub_mode == Some(DataSubMode::AfskA))
            &&& (value[32] == 0x32 ==> d.data_sub_mode == Some(DataSubMode::FskD))
            &&& (value[32] == 0x33 ==> d.data_sub_mode == Some(DataSubMode::PskD))
            &&& 0x30 <= value[32] <= 0x33
            &&& forall|i: int| 11 <= i < 16 ==> value[i] == 0x20
            &&& value[23] == 0x20 && value[24] == 0x30 && value[25] == 0x30
            &&& value[33] == 0x31 && value[34] == 0x20
        }),
{
    assert(value.subrange(11, 16)[0] == value[11]);
    assert(forall|i: int| 11 <= i < 16 ==> value[i] == value.subrange(11, 16)[i - 11]);
    assert(value.subrange(24, 26)[0] == value[24]);
    assert(forall|i: int| 24 <= i < 26 ==> value[i] == value.subrange(24, 26)[i - 24]);
}

/// Get transceiver information: `IF;`, answered by `IF{35 bytes};`.
#[derive(Clone, Copy, Debug, PartialEq, Eq)]
pub struct GetTransceiverInformation;

impl GetTransceiverInformation {
    pub fn to_bytes(&self) -> (r: Vec<u8>)
        ensures
            r@ == frame(transceiver_information_id(), seq![]),
    {
        let none: [u8; 0] = [];
        frame_command(transceiver_information_id_bytes(), &none)
    }

    pub fn parse(&self, bytes: &[u8]) -> (r: Result<TransceiverInformation, RigError>)
        ensures
            match spec_validate_response(bytes@, transceiver_information_id(), 35) {
                Err(f) => r matches Err(e) && e.fails_with(f),
                Ok(v) => match TransceiverInformation::spec_failure(v) {
                    Some(f) => r matches Err(e) && e.fails_with(f),
                    None => r == Ok::<TransceiverInformation, RigError>(
                        TransceiverInformation::spec_decode(v),
                    ),
                },
            },
    {
        match validate_response(bytes, transceiver_information_id_bytes(), 35) {
            Ok(d) => TransceiverInformation::try_from(d),
            Err(e) => Err(e),
        }
    }
}

// ------------------------------------------------------------------------------------------------
// Band number: `BN`, `BN$`
// ------------------------------------------------------------------------------------------------

/// An amateur radio frequency allocation, by band name.
#[derive(Clone, Copy, Debug, PartialEq, Eq, Hash)]
pub enum AllocationBand {
    Band2200M,
    Band630M,
    Band160M,
    Band80M,
    Band60M,
    Band40M,
    Band30M,
    Band20M,
    Band17M,
    Band15M,
    Band12M,
    Band10M,
    Band8M,
    Band6M,
    Band5M,
    Band4M,
    Band2M,
    Band1_25M,
    Band70Cm,
    Band33Cm,
    Band23Cm,
    Band13Cm,
    Band9Cm,
    Band5Cm,
    Band3Cm,
    Band1_2Cm,
    Band6Mm,
    Band4Mm,
    Band2_5Mm,
    Band2Mm,
    Band1Mm,
}

impl AllocationBand {
    /// The two-digit `BN` code of the band, where it has one.
    pub open spec fn spec_code(self) -> Option<u8> {
        match self {
            AllocationBand::Band160M => Some(0),
            AllocationBand::Band80M => Some(1),
            AllocationBand::Band60M => Some(2),
            AllocationBand::Band40M => Some(3),
            AllocationBand::Band30M => Some(4),
            AllocationBand::Band20M => Some(5),
            AllocationBand::Band17M => Some(6),
            AllocationBand::Band15M => Some(7),
            AllocationBand::Band12M => Some(8),
            AllocationBand::Band10M => Some(9),
            AllocationBand::Band6M => Some(10),
            AllocationBand::Band2M => Some(11),
            AllocationBand::Band1_25M => Some(12),
            AllocationBand::Band70Cm => Some(13),
            AllocationBand::Band1_2Cm => Some(14),
            _ => None,
        }
    }

    /// The band that a `BN` code stands for.
    pub open spec fn spec_from_code(code: nat) -> Option<AllocationBand> {
        if code == 0 {
            Some(AllocationBand::Band160M)
        } else if code == 1 {
            Some(AllocationBand::Band80M)
        } else if code == 2 {
            Some(AllocationBand::Band60M)
        } else if code == 3 {
            Some(AllocationBand::Band40M)
        } else if code == 4 {
            Some(AllocationBand::Band30M)
        } else if code == 5 {
            Some(AllocationBand::Band20M)
        } else if code == 6 {
            Some(AllocationBand::Band17M)
        } else if code == 7 {
            Some(AllocationBand::Band15M)
        } else if code == 8 {
            Some(AllocationBand::Band12M)
        } else if code == 9 {
            Some(AllocationBand::Band10M)
        } else if code == 10 {
            Some(AllocationBand::Band6M)
        } else if code == 11 {
            Some(AllocationBand::Band2M)
        } else if code == 12 {
            Some(AllocationBand::Band1_25M)
        } else if code == 13 {
            Some(AllocationBand::Band70Cm)
        } else if code == 14 {
            Some(AllocationBand::Band1_2Cm)
        } else {
            None
        }
    }

    /// The variant name, as its debug form shows it.
    pub open spec fn spec_name(self) -> Seq<char> {
        match self {
            AllocationBand::Band2200M => "Band2200M"@,
            AllocationBand::Band630M => "Band630M"@,
            AllocationBand::Band160M => "Band160M"@,
            AllocationBand::Band80M => "Band80M"@,
            AllocationBand::Band60M => "Band60M"@,
            AllocationBand::Band40M => "Band40M"@,
            AllocationBand::Band30M => "Band30M"@,
            AllocationBand::Band20M => "Band20M"@,
            AllocationBand::Band17M => "Band17M"@,
            AllocationBand::Band15M => "Band15M"@,
            AllocationBand::Band12M => "Band12M"@,
            AllocationBand::Band10M => "Band10M"@,
            AllocationBand::Band8M => "Band8M"@,
            AllocationBand::Band6M => "Band6M"@,
            AllocationBand::Band5M => "Band5M"@,
            AllocationBand::Band4M => "Band4M"@,
            AllocationBand::Band2M => "Band2M"@,
            AllocationBand::Band1_25M => "Band1_25M"@,
            AllocationBand::Band70Cm => "Band70Cm"@,
            AllocationBand::Band33Cm => "Band33Cm"@,
            AllocationBand::Band23Cm => "Band23Cm"@,
            AllocationBand::Band13Cm => "Band13Cm"@,
            AllocationBand::Band9Cm => "Band9Cm"@,
            AllocationBand::Band5Cm => "Band5Cm"@,
            AllocationBand::Band3Cm => "Band3Cm"@,
            AllocationBand::Band1_2Cm => "Band1_2Cm"@,
            AllocationBand::Band6Mm => "Band6Mm"@,
            AllocationBand::Band4Mm => "Band4Mm"@,
            AllocationBand::Band2_5Mm => "Band2_5Mm"@,
            AllocationBand::Band2Mm => "Band2Mm"@,
            AllocationBand::Band1Mm => "Band1Mm"@,
        }
    }

    /// The variant name.
    pub fn name(&self) -> (s: &'static str)
        ensures
            s@ == self.spec_name(),
    {
        match self {
            AllocationBand::Band2200M => "Band2200M",
            AllocationBand::Band630M => "Band630M",
            AllocationBand::Band160M => "Band160M",
            AllocationBand::Band80M => "Band80M",
            AllocationBand::Band60M => "Band60M",
            AllocationBand::Band40M => "Band40M",
            AllocationBand::Band30M => "Band30M",
            AllocationBand::Band20M => "Band20M",
            AllocationBand::Band17M => "Band17M",
            AllocationBand::Band15M => "Band15M",
            AllocationBand::Band12M => "Band12M",
            AllocationBand::Band10M => "Band10M",
            AllocationBand::Band8M => "Band8M",
            AllocationBand::Band6M => "Band6M",
            AllocationBand::Band5M => "Band5M",
            AllocationBand::Band4M => "Band4M",
            AllocationBand::Band2M => "Band2M",
            AllocationBand::Band1_25M => "Band1_25M",
            AllocationBand::Band70Cm => "Band70Cm",
            AllocationBand::Band33Cm => "Band33Cm",
            AllocationBand::Band23Cm => "Band23Cm",
            AllocationBand::Band13Cm => "Band13Cm",
            AllocationBand::Band9Cm => "Band9Cm",
            AllocationBand::Band5Cm => "Band5Cm",
            AllocationBand::Band3Cm => "Band3Cm",
            AllocationBand::Band1_2Cm => "Band1_2Cm",
            AllocationBand::Band6Mm => "Band6Mm",
            AllocationBand::Band4Mm => "Band4Mm",
            AllocationBand::Band2_5Mm => "Band2_5Mm",
            AllocationBand::Band2Mm => "Band2Mm",
            AllocationBand::Band1Mm => "Band1Mm",
        }
    }
}

/// What `parse_band_number` gives for a response value.
pub open spec fn spec_parse_band_number(response: Seq<u8>) -> Result<AllocationBand, Failure> {
    if response.len() == 2 && all_digits(response) && AllocationBand::spec_from_code(
        digits_value(response),
    ) is Some {
        Ok(AllocationBand::spec_from_code(digits_value(response)).unwrap())
    } else {
        Err(Failure::ResponseData(response))
    }
}

/// Parses a two-digit `BN` band code: `00` to `14` name the bands from 160 m to 1.2 cm; any
/// other value, including `18` (general coverage), is `InvalidResponseData`.
pub fn parse_band_number(response: &[u8]) -> (r: Result<AllocationBand, RigError>)
    ensures
        agrees(r, spec_parse_band_number(response@)),
{
    if response.len() != 2 || !(0x30 <= response[0] && response[0] <= 0x39) || !(0x30
        <= response[1] && response[1] <= 0x39) {
        proof {
            if response.len() == 2 && all_digits(response@) {
                assert(0x30 <= response@[0] <= 0x39 && 0x30 <= response@[1] <= 0x39);
            }
        }
        return Err(invalid_response_data(response));
    }
    let code = (response[0] - 0x30) * 10 + (response[1] - 0x30);
    proof {
        assert(all_digits(response@)) by {
            assert forall|i: int| 0 <= i < 2 implies is_digit(#[trigger] response@[i]) by {
                if i == 0 {
                } else {
                }
            }
        }
        lemma_digits_value_take_step(response@, 0);
        lemma_digits_value_take_step(response@, 1);
        assert(response@.take(0).len() == 0);
        assert(response@.take(2) =~= response@);
        assert(digits_value(response@) == code);
    }
    if code == 0 {
        Ok(AllocationBand::Band160M)
    } else if code == 1 {
        Ok(AllocationBand::Band80M)
    } else if code == 2 {
        Ok(AllocationBand::Band60M)
    } else if code == 3 {
        Ok(AllocationBand::Band40M)
    } else if code == 4 {
        Ok(AllocationBand::Band30M)
    } else if code == 5 {
        Ok(AllocationBand::Band20M)
    } else if code == 6 {
        Ok(AllocationBand::Band17M)
    } else if code == 7 {
        Ok(AllocationBand::Band15M)
    } else if code == 8 {
        Ok(AllocationBand::Band12M)
    } else if code == 9 {
        Ok(AllocationBand::Band10M)
    } else if code == 10 {
        Ok(AllocationBand::Band6M)
    } else if code == 11 {
        Ok(AllocationBand::Band2M)
    } else if code == 12 {
        Ok(AllocationBand::Band1_25M)
    } else if code == 13 {
        Ok(AllocationBand::Band70Cm)
    } else if code == 14 {
        Ok(AllocationBand::Band1_2Cm)
    } else {
        Err(invalid_response_data(response))
    }
}

/// What `allocation_band_code` gives for a band.
pub open spec fn spec_allocation_band_code(band: AllocationBand) -> Result<u8, Failure> {
    match band.spec_code() {
        Some(c) => Ok(c),
        None => Err(Failure::ArgumentValue("band"@, "AllocationBand"@, band.spec_name())),
    }
}

/// The two-digit `BN` code of a band; a band without a code is `InvalidArgumentValue` showing
/// the band's name.
pub fn allocation_band_code(band: AllocationBand) -> (r: Result<u8, RigError>)
    ensures
        agrees(r, spec_allocation_band_code(band)),
{
    match band {
        AllocationBand::Band160M => Ok(0),
        AllocationBand::Band80M => Ok(1),
        AllocationBand::Band60M => Ok(2),
        AllocationBand::Band40M => Ok(3),
        AllocationBand::Band30M => Ok(4),
        AllocationBand::Band20M => Ok(5),
        AllocationBand::Band17M => Ok(6),
        AllocationBand::Band15M => Ok(7),
        AllocationBand::Band12M => Ok(8),
        AllocationBand::Band10M => Ok(9),
        AllocationBand::Band6M => Ok(10),
        AllocationBand::Band2M => Ok(11),
        AllocationBand::Band1_25M => Ok(12),
        AllocationBand::Band70Cm => Ok(13),
        AllocationBand::Band1_2Cm => Ok(14),
        _ => Err(invalid_argument_value("band", "AllocationBand", String::from_str(band.name()))),
    }
}

/// The `BN` band codes: 160 m `00`, 80 m `01`, 60 m `02`, 40 m `03`, 30 m `04`, 20 m `05`,
/// 17 m `06`, 15 m `07`, 12 m `08`, 10 m `09`, 6 m `10`, 2 m `11`, 1.25 m `12`, 70 cm `13` and
/// 1.2 cm `14`; each two-digit reply reads as its band, the other bands have no code, and no code
/// above `14` names a band.
pub proof fn lemma_band_code_table()
    ensures
        AllocationBand::Band160M.spec_code() == Some(0u8),
        AllocationBand::Band80M.spec_code() == Some(1u8),
        AllocationBand::Band60M.spec_code() == Some(2u8),
        AllocationBand::Band40M.spec_code() == Some(3u8),
        AllocationBand::Band30M.spec_code() == Some(4u8),
        AllocationBand::Band20M.spec_code() == Some(5u8),
        AllocationBand::Band17M.spec_code() == Some(6u8),
        AllocationBand::Band15M.spec_code() == Some(7u8),
        AllocationBand::Band12M.spec_code() == Some(8u8),
        AllocationBand::Band10M.spec_code() == Some(9u8),
        AllocationBand::Band6M.spec_code() == Some(10u8),
        AllocationBand::Band2M.spec_code() == Some(11u8),
        AllocationBand::Band1_25M.spec_code() == Some(12u8),
        AllocationBand::Band70Cm.spec_code() == Some(13u8),
        AllocationBand::Band1_2Cm.spec_code() == Some(14u8),
        spec_parse_band_number(seq![0x30u8, 0x30u8]) == Ok::<AllocationBand, Failure>(AllocationBand::Band160M),
        spec_parse_band_number(seq![0x30u8, 0x31u8]) == Ok::<AllocationBand, Failure>(AllocationBand::Band80M),
        spec_parse_band_number(seq![0x30u8, 0x32u8]) == Ok::<AllocationBand, Failure>(AllocationBand::Band60M),
        spec_parse_band_number(seq![0x30u8, 0x33u8]) == Ok::<AllocationBand, Failure>(AllocationBand::Band40M),
        spec_parse_band_number(seq![0x30u8, 0x34u8]) == Ok::<AllocationBand, Failure>(AllocationBand::Band30M),
        spec_parse_band_number(seq![0x30u8, 0x35u8]) == Ok::<AllocationBand, Failure>(AllocationBand::Band20M),
        spec_parse_band_number(seq![0x30u8, 0x36u8]) == Ok::<AllocationBand, Failure>(AllocationBand::Band17M),
        spec_parse_band_number(seq![0x30u8, 0x37u8]) == Ok::<AllocationBand, Failure>(AllocationBand::Band15M),
        spec_parse_band_number(seq![0x30u8, 0x38u8]) == Ok::<AllocationBand, Failure>(AllocationBand::Band12M),
        spec_parse_band_number(seq![0x30u8, 0x39u8]) == Ok::<AllocationBand, Failure>(AllocationBand::Band10M),
        spec_parse_band_number(seq![0x31u8, 0x30u8]) == Ok::<AllocationBand, Failure>(AllocationBand::Band6M),
        spec_parse_band_number(seq![0x31u8, 0x31u8]) == Ok::<AllocationBand, Failure>(AllocationBand::Band2M),
        spec_parse_band_number(seq![0x31u8, 0x32u8]) == Ok::<AllocationBand, Failure>(AllocationBand::Band1_25M),
        spec_parse_band_number(seq![0x31u8, 0x33u8]) == Ok::<AllocationBand, Failure>(AllocationBand::Band70Cm),
        spec_parse_band_number(seq![0x31u8, 0x34u8]) == Ok::<AllocationBand, Failure>(AllocationBand::Band1_2Cm),
        AllocationBand::Band2200M.spec_code() is None,
        AllocationBand::Band630M.spec_code() is None,
        AllocationBand::Band8M.spec_code() is None,
        AllocationBand::Band5M.spec_code() is None,
        AllocationBand::Band4M.spec_code() is None,
        AllocationBand::Band33Cm.spec_code() is None,
        AllocationBand::Band23Cm.spec_code() is None,
        AllocationBand::Band13Cm.spec_code() is None,
        AllocationBand::Band9Cm.spec_code() is None,
        AllocationBand::Band5Cm.spec_code() is None,
        AllocationBand::Band3Cm.spec_code() is None,
        AllocationBand::Band6Mm.spec_code() is None,
        AllocationBand::Band4Mm.spec_code() is None,
        AllocationBand::Band2_5Mm.spec_code() is None,
        AllocationBand::Band2Mm.spec_code() is None,
        AllocationBand::Band1Mm.spec_code() is None,
        forall|c: nat| #[trigger] AllocationBand::spec_from_code(c) is Some ==> c <= 14,
{
    lemma_two_digit_value(0x30u8, 0x30u8);
    lemma_two_digit_value(0x30u8, 0x31u8);
    lemma_two_digit_value(0x30u8, 0x32u8);
    lemma_two_digit_value(0x30u8, 0x33u8);
    lemma_two_digit_value(0x30u8, 0x34u8);
    lemma_two_digit_value(0x30u8, 0x35u8);
    lemma_two_digit_value(0x30u8, 0x36u8);
    lemma_two_digit_value(0x30u8, 0x37u8);
    lemma_two_digit_value(0x30u8, 0x38u8);
    lemma_two_digit_value(0x30u8, 0x39u8);
    lemma_two_digit_value(0x31u8, 0x30u8);
    lemma_two_digit_value(0x31u8, 0x31u8);
    lemma_two_digit_value(0x31u8, 0x32u8);
    lemma_two_digit_value(0x31u8, 0x33u8);
    lemma_two_digit_value(0x31u8, 0x34u8);
}

/// The value of two decimal digits.
proof fn lemma_two_digit_value(d1: u8, d2: u8)
    requires
        0x30 <= d1 <= 0x39,
        0x30 <= d2 <= 0x39,
    ensures
        all_digits(seq![d1, d2]),
        digits_value(seq![d1, d2]) == (d1 - 0x30) * 10 + (d2 - 0x30),
{
    let s = seq![d1, d2];
    assert forall|i: int| 0 <= i < 2 implies is_digit(#[trigger] s[i]) by {}
    lemma_digits_value_take_step(s, 0);
    lemma_digits_value_take_step(s, 1);
    assert(s.take(0).len() == 0);
    assert(s.take(2) =~= s);
}

/// A band's code, written as two digits, parses back to the band; and a parsed code is the
/// band's own code.
pub proof fn lemma_band_number_round_trip(band: AllocationBand, response: Seq<u8>)
    ensures
        band.spec_code() matches Some(c) ==> spec_parse_band_number(padded_decimal(c as nat, 2))
            == Ok::<AllocationBand, Failure>(band),
        spec_parse_band_number(response) matches Ok(b) ==> b.spec_code() == Some(
            digits_value(response) as u8,
        ),
{
    if let Some(c) = band.spec_code() {
        lemma_padded_decimal_value(c as nat, 2);
        assert(num_digits(c as nat) <= 2) by {
            lemma_pow10_values();
            lemma_num_digits_le(c as nat, 2);
        }
    }
}

/// `BN`
pub open spec fn vfo_a_band_number_id() -> Seq<u8> {
    seq![0x42, 0x4E]
}

fn vfo_a_band_number_id_bytes() -> (r: &'static [u8])
    ensures
        r@ == vfo_a_band_number_id(),
{
    &[0x42, 0x4E]
}

/// `BN$`
pub open spec fn vfo_b_band_number_id() -> Seq<u8> {
    seq![0x42, 0x4E, 0x24]
}

fn vfo_b_band_number_id_bytes() -> (r: &'static [u8])
    ensures
        r@ == vfo_b_band_number_id(),
{
    &[0x42, 0x4E, 0x24]
}

/// Get the VFO A band number: `BN;`, answered by `BN{nn};`.
#[derive(Clone, Copy, Debug, PartialEq, Eq)]
pub struct GetVfoABandNumber;

impl GetVfoABandNumber {
    pub fn to_bytes(&self) -> (r: Vec<u8>)
        ensures
            r@ == frame(vfo_a_band_number_id(), seq![]),
    {
        let none: [u8; 0] = [];
        frame_command(vfo_a_band_number_id_bytes(), &none)
    }

    pub fn parse(&self, bytes: &[u8]) -> (r: Result<AllocationBand, RigError>)
        ensures
            match spec_validate_response(bytes@, vfo_a_band_number_id(), 2) {
                Err(f) => r matches Err(e) && e.fails_with(f),
                Ok(v) => agrees(r, spec_parse_band_number(v)),
            },
    {
        match validate_response(bytes, vfo_a_band_number_id_bytes(), 2) {
            Ok(d) => parse_band_number(d),
            Err(e) => Err(e),
        }
    }
}

/// Set the VFO A band number: `BN{nn};`.
#[derive(Clone, Copy, Debug, PartialEq, Eq)]
pub struct SetVfoABandNumber {
    pub band: AllocationBand,
}

impl SetVfoABandNumber {
    /// The command, or `InvalidArgumentValue` for a band without a `BN` code.
    pub fn to_bytes(&self) -> (r: Result<Vec<u8>, RigError>)
        ensures
            match spec_allocation_band_code(self.band) {
                Ok(c) => r matches Ok(b) && b@ == frame(vfo_a_band_number_id(), padded_decimal(c as nat, 2)),
                Err(f) => r matches Err(e) && e.fails_with(f),
            },
    {
        match allocation_band_code(self.band) {
            Ok(c) => {
                let args = format_uint_ascii(c as u64, 2);
                Ok(frame_command(vfo_a_band_number_id_bytes(), args.as_slice()))
            },
            Err(e) => Err(e),
        }
    }
}

/// Get the VFO B band number: `BN$;`, answered by `BN${nn};`.
#[derive(Clone, Copy, Debug, PartialEq, Eq)]
pub struct GetVfoBBandNumber;

impl GetVfoBBandNumber {
    pub fn to_bytes(&self) -> (r: Vec<u8>)
        ensures
            r@ == frame(vfo_b_band_number_id(), seq![]),
    {
        let none: [u8; 0] = [];
        frame_command(vfo_b_band_number_id_bytes(), &none)
    }

    pub fn parse(&self, bytes: &[u8]) -> (r: Result<AllocationBand, RigError>)
        ensures
            match spec_validate_response(bytes@, vfo_b_band_number_id(), 2) {
                Err(f) => r matches Err(e) && e.fails_with(f),
                Ok(v) => agrees(r, spec_parse_band_number(v)),
            },
    {
        match validate_response(bytes, vfo_b_band_number_id_bytes(), 2) {
            Ok(d) => parse_band_number(d),
            Err(e) => Err(e),
        }
    }
}

/// Set the VFO B band number: `BN${nn};`.
#[derive(Clone, Copy, Debug, PartialEq, Eq)]
pub struct SetVfoBBandNumber {
    pub band: AllocationBand,
}

impl SetVfoBBandNumber {
    /// The command, or `InvalidArgumentValue` for a band without a `BN` code.
    pub fn to_bytes(&self) -> (r: Result<Vec<u8>, RigError>)
        ensures
            match spec_allocation_band_code(self.band) {
                Ok(c) => r matches Ok(b) && b@ == frame(vfo_b_band_number_id(), padded_decimal(c as nat, 2)),
                Err(f) => r matches Err(e) && e.fails_with(f),
            },
    {
        match allocation_band_code(self.band) {
            Ok(c) => {
                let args = format_uint_ascii(c as u64, 2);
                Ok(frame_command(vfo_b_band_number_id_bytes(), args.as_slice()))
            },
            Err(e) => Err(e),
        }
    }
}

// ------------------------------------------------------------------------------------------------
// Numeric settings
// ------------------------------------------------------------------------------------------------

/// `AG`
pub open spec fn set_vfo_a_af_gain_id() -> Seq<u8> {
    seq![0x41, 0x47]
}

fn set_vfo_a_af_gain_id_bytes() -> (r: &'static [u8])
    ensures
        r@ == set_vfo_a_af_gain_id(),
{
    &[0x41, 0x47]
}

/// Set the VFO A AF gain: `AG{nnn};`, with the value between 0 and 255.
#[derive(Clone, Copy, Debug, PartialEq, Eq)]
pub struct SetVfoAAfGain {
    pub level: u8,
}

impl SetVfoAAfGain {
    /// The values the command accepts.
    pub open spec fn spec_in_range(self) -> bool {
        0 <= self.level <= 255
    }

    /// The argument bytes.
    pub open spec fn spec_args(self) -> Seq<u8> {
        uint_args(self.level as u32, 3)
    }

    /// The command, or `InvalidArgumentValue` for a value out of range.
    pub fn to_bytes(&self) -> (r: Result<Vec<u8>, RigError>)
        ensures
            self.spec_in_range() ==> (r matches Ok(b) && b@ == frame(set_vfo_a_af_gain_id(), self.spec_args())),
            !self.spec_in_range() ==> (r matches Err(e) && e.fails_with(
                Failure::ArgumentValue("level"@, "u8"@, decimal_string(self.level as int)),
            )),
    {
        encode_uint_in_range(set_vfo_a_af_gain_id_bytes(), "level", "u8", self.level as u32, 0, 255, 3)
    }
}

/// `SetVfoAAfGain` accepts `level` when `0 <= s.level <= 255` and sends it as decimal digits, zero-padded to 3.
pub proof fn lemma_set_vfo_a_af_gain_argument(s: SetVfoAAfGain)
    ensures
        s.spec_in_range() == (0 <= s.level <= 255),
        all_digits(s.spec_args()),
        digits_value(s.spec_args()) == s.level,
        (s.level as nat) < pow10(3) ==> s.spec_args().len() == 3,
{
    lemma_padded_decimal_value(s.level as nat, 3);
    if (s.level as nat) < pow10(3) {
        lemma_num_digits_le(s.level as nat, 3);
    }
}

/// `AG$`
pub open spec fn set_vfo_b_af_gain_id() -> Seq<u8> {
    seq![0x41, 0x47, 0x24]
}

fn set_vfo_b_af_gain_id_bytes() -> (r: &'static [u8])
    ensures
        r@ == set_vfo_b_af_gain_id(),
{
    &[0x41, 0x47, 0x24]
}

/// Set the VFO B AF gain: `AG${nnn};`, with the value between 0 and 255.
#[derive(Clone, Copy, Debug, PartialEq, Eq)]
pub struct SetVfoBAfGain {
    pub level: u8,
}

impl SetVfoBAfGain {
    /// The values the command accepts.
    pub open spec fn spec_in_range(self) -> bool {
        0 <= self.level <= 255
    }

    /// The argument bytes.
    pub open spec fn spec_args(self) -> Seq<u8> {
        uint_args(self.level as u32, 3)
    }

    /// The command, or `InvalidArgumentValue` for a value out of range.
    pub fn to_bytes(&self) -> (r: Result<Vec<u8>, RigError>)
        ensures
            self.spec_in_range() ==> (r matches Ok(b) && b@ == frame(set_vfo_b_af_gain_id(), self.spec_args())),
            !self.spec_in_range() ==> (r matches Err(e) && e.fails_with(
                Failure::ArgumentValue("level"@, "u8"@, decimal_string(self.level as int)),
            )),
    {
        encode_uint_in_range(set_vfo_b_af_gain_id_bytes(), "level", "u8", self.level as u32, 0, 255, 3)
    }
}

/// `SetVfoBAfGain` accepts `level` when `0 <= s.level <= 255` and sends it as decimal digits, zero-padded to 3.
pub proof fn lemma_set_vfo_b_af_gain_argument(s: SetVfoBAfGain)
    ensures
        s.spec_in_range() == (0 <= s.level <= 255),
        all_digits(s.spec_args()),
        digits_value(s.spec_args()) == s.level,
        (s.level as nat) < pow10(3) ==> s.spec_args().len() == 3,
{
    lemma_padded_decimal_value(s.level as nat, 3);
    if (s.level as nat) < pow10(3) {
        lemma_num_digits_le(s.level as nat, 3);
    }
}

/// `CP`
pub open spec fn set_speech_compression_id() -> Seq<u8> {
    seq![0x43, 0x50]
}

fn set_speech_compression_id_bytes() -> (r: &'static [u8])
    ensures
        r@ == set_speech_compression_id(),
{
    &[0x43, 0x50]
}

/// Set the speech compression level: `CP{nnn};`, with the value between 0 and 40.
#[derive(Clone, Copy, Debug, PartialEq, Eq)]
pub struct SetSpeechCompression {
    pub level: u8,
}

impl SetSpeechCompression {
    /// The values the command accepts.
    pub open spec fn spec_in_range(self) -> bool {
        0 <= self.level <= 40
    }

    /// The argument bytes.
    pub open spec fn spec_args(self) -> Seq<u8> {
        uint_args(self.level as u32, 3)
    }

    /// The command, or `InvalidArgumentValue` for a value out of range.
    pub fn to_bytes(&self) -> (r: Result<Vec<u8>, RigError>)
        ensures
            self.spec_in_range() ==> (r matches Ok(b) && b@ == frame(set_speech_compression_id(), self.spec_args())),
            !self.spec_in_range() ==> (r matches Err(e) && e.fails_with(
                Failure::ArgumentValue("level"@, "u8"@, decimal_string(self.level as int)),
            )),
    {
        encode_uint_in_range(set_speech_compression_id_bytes(), "level", "u8", self.level as u32, 0, 40, 3)
    }
}

/// `SetSpeechCompression` accepts `level` when `0 <= s.level <= 40` and sends it as decimal digits, zero-padded to 3.
pub proof fn lemma_set_speech_compression_argument(s: SetSpeechCompression)
    ensures
        s.spec_in_range() == (0 <= s.level <= 40),
        all_digits(s.spec_args()),
        digits_value(s.spec_args()) == s.level,
        (s.level as nat) < pow10(3) ==> s.spec_args().len() == 3,
{
    lemma_padded_decimal_value(s.level as nat, 3);
    if (s.level as nat) < pow10(3) {
        lemma_num_digits_le(s.level as nat, 3);
    }
}

/// `GT`
pub open spec fn set_agc_time_constant_id() -> Seq<u8> {
    seq![0x47, 0x54]
}

fn set_agc_time_constant_id_bytes() -> (r: &'static [u8])
    ensures
        r@ == set_agc_time_constant_id(),
{
    &[0x47, 0x54]
}

/// Set the AGC time constant: `GT{nn};`, with the value between 0 and 3.
#[derive(Clone, Copy, Debug, PartialEq, Eq)]
pub struct SetAgcTimeConstant {
    pub mode: u8,
}

impl SetAgcTimeConstant {
    /// The values the command accepts.
    pub open spec fn spec_in_range(self) -> bool {
        0 <= self.mode <= 3
    }

    /// The argument bytes.
    pub open spec fn spec_args(self) -> Seq<u8> {
        uint_args(self.mode as u32, 2)
    }

    /// The command, or `InvalidArgumentValue` for a value out of range.
    pub fn to_bytes(&self) -> (r: Result<Vec<u8>, RigError>)
        ensures
            self.spec_in_range() ==> (r matches Ok(b) && b@ == frame(set_agc_time_constant_id(), self.spec_args())),
            !self.spec_in_range() ==> (r matches Err(e) && e.fails_with(
                Failure::ArgumentValue("mode"@, "u8"@, decimal_string(self.mode as int)),
            )),
    {
        encode_uint_in_range(set_agc_time_constant_id_bytes(), "mode", "u8", self.mode as u32, 0, 3, 2)
    }
}

/// `SetAgcTimeConstant` accepts `mode` when `0 <= s.mode <= 3` and sends it as decimal digits, zero-padded to 2.
pub proof fn lemma_set_agc_time_constant_argument(s: SetAgcTimeConstant)
    ensures
        s.spec_in_range() == (0 <= s.mode <= 3),
        all_digits(s.spec_args()),
        digits_value(s.spec_args()) == s.mode,
        (s.mode as nat) < pow10(2) ==> s.spec_args().len() == 2,
{
    lemma_padded_decimal_value(s.mode as nat, 2);
    if (s.mode as nat) < pow10(2) {
        lemma_num_digits_le(s.mode as nat, 2);
    }
}

/// `KS`
pub open spec fn set_keyer_speed_id() -> Seq<u8> {
    seq![0x4B, 0x53]
}

fn set_keyer_speed_id_bytes() -> (r: &'static [u8])
    ensures
        r@ == set_keyer_speed_id(),
{
    &[0x4B, 0x53]
}

/// Set the keyer speed in words per minute: `KS{nnn};`, with the value between 8 and 100.
#[derive(Clone, Copy, Debug, PartialEq, Eq)]
pub struct SetKeyerSpeed {
    pub wpm: u8,
}

impl SetKeyerSpeed {
    /// The values the command accepts.
    pub open spec fn spec_in_range(self) -> bool {
        8 <= self.wpm <= 100
    }

    /// The argument bytes.
    pub open spec fn spec_args(self) -> Seq<u8> {
        uint_args(self.wpm as u32, 3)
    }

    /// The command, or `InvalidArgumentValue` for a value out of range.
    pub fn to_bytes(&self) -> (r: Result<Vec<u8>, RigError>)
        ensures
            self.spec_in_range() ==> (r matches Ok(b) && b@ == frame(set_keyer_speed_id(), self.spec_args())),
            !self.spec_in_range() ==> (r matches Err(e) && e.fails_with(
                Failure::ArgumentValue("wpm"@, "u8"@, decimal_string(self.wpm as int)),
            )),
    {
        encode_uint_in_range(set_keyer_speed_id_bytes(), "wpm", "u8", self.wpm as u32, 8, 100, 3)
    }
}

/// `SetKeyerSpeed` accepts `wpm` when `8 <= s.wpm <= 100` and sends it as decimal digits, zero-padded to 3.
pub proof fn lemma_set_keyer_speed_argument(s: SetKeyerSpeed)
    ensures
        s.spec_in_range() == (8 <= s.wpm <= 100),
        all_digits(s.spec_args()),
        digits_value(s.spec_args()) == s.wpm,
        (s.wpm as nat) < pow10(3) ==> s.spec_args().len() == 3,
{
    lemma_padded_decimal_value(s.wpm as nat, 3);
    if (s.wpm as nat) < pow10(3) {
        lemma_num_digits_le(s.wpm as nat, 3);
    }
}

/// `MG`
pub open spec fn set_mic_gain_id() -> Seq<u8> {
    seq![0x4D, 0x47]
}

fn set_mic_gain_id_bytes() -> (r: &'static [u8])
    ensures
        r@ == set_mic_gain_id(),
{
    &[0x4D, 0x47]
}

/// Set the microphone gain: `MG{nnn};`, with the value between 0 and 60.
#[derive(Clone, Copy, Debug, PartialEq, Eq)]
pub struct SetMicGain {
    pub gain: u8,
}

impl SetMicGain {
    /// The values the command accepts.
    pub open spec fn spec_in_range(self) -> bool {
        0 <= self.gain <= 60
    }

    /// The argument bytes.
    pub open spec fn spec_args(self) -> Seq<u8> {
        uint_args(self.gain as u32, 3)
    }

    /// The command, or `InvalidArgumentValue` for a value out of range.
    pub fn to_bytes(&self) -> (r: Result<Vec<u8>, RigError>)
        ensures
            self.spec_in_range() ==> (r matches Ok(b) && b@ == frame(set_mic_gain_id(), self.spec_args())),
            !self.spec_in_range() ==> (r matches Err(e) && e.fails_with(
                Failure::ArgumentValue("gain"@, "u8"@, decimal_string(self.gain as int)),
            )),
    {
        encode_uint_in_range(set_mic_gain_id_bytes(), "gain", "u8", self.gain as u32, 0, 60, 3)
    }
}

/// `SetMicGain` accepts `gain` when `0 <= s.gain <= 60` and sends it as decimal digits, zero-padded to 3.
pub proof fn lemma_set_mic_gain_argument(s: SetMicGain)
    ensures
        s.spec_in_range() == (0 <= s.gain <= 60),
        all_digits(s.spec_args()),
        digits_value(s.spec_args()) == s.gain,
        (s.gain as nat) < pow10(3) ==> s.spec_args().len() == 3,
{
    lemma_padded_decimal_value(s.gain as nat, 3);
    if (s.gain as nat) < pow10(3) {
        lemma_num_digits_le(s.gain as nat, 3);
    }
}

/// `PC`
pub open spec fn set_transmit_power_control_id() -> Seq<u8> {
    seq![0x50, 0x43]
}

fn set_transmit_power_control_id_bytes() -> (r: &'static [u8])
    ensures
        r@ == set_transmit_power_control_id(),
{
    &[0x50, 0x43]
}

/// Set the transmit power in watts: `PC{nnn};`, with the value between 0 and 110.
#[derive(Clone, Copy, Debug, PartialEq, Eq)]
pub struct SetTransmitPowerControl {
    pub watts: u8,
}

impl SetTransmitPowerControl {
    /// The values the command accepts.
    pub open spec fn spec_in_range(self) -> bool {
        0 <= self.watts <= 110
    }

    /// The argument bytes.
    pub open spec fn spec_args(self) -> Seq<u8> {
        uint_args(self.watts as u32, 3)
    }

    /// The command, or `InvalidArgumentValue` for a value out of range.
    pub fn to_bytes(&self) -> (r: Result<Vec<u8>, RigError>)
        ensures
            self.spec_in_range() ==> (r matches Ok(b) && b@ == frame(set_transmit_power_control_id(), self.spec_args())),
            !self.spec_in_range() ==> (r matches Err(e) && e.fails_with(
                Failure::ArgumentValue("watts"@, "u8"@, decimal_string(self.watts as int)),
            )),
    {
        encode_uint_in_range(set_transmit_power_control_id_bytes(), "watts", "u8", self.watts as u32, 0, 110, 3)
    }
}

/// `SetTransmitPowerControl` accepts `watts` when `0 <= s.watts <= 110` and sends it as decimal digits, zero-padded to 3.
pub proof fn lemma_set_transmit_power_control_argument(s: SetTransmitPowerControl)
    ensures
        s.spec_in_range() == (0 <= s.watts <= 110),
        all_digits(s.spec_args()),
        digits_value(s.spec_args()) == s.watts,
        (s.watts as nat) < pow10(3) ==> s.spec_args().len() == 3,
{
    lemma_padded_decimal_value(s.watts as nat, 3);
    if (s.watts as nat) < pow10(3) {
        lemma_num_digits_le(s.watts as nat, 3);
    }
}

/// `RO`
pub open spec fn set_rit_xit_offset_id() -> Seq<u8> {
    seq![0x52, 0x4F]
}

fn set_rit_xit_offset_id_bytes() -> (r: &'static [u8])
    ensures
        r@ == set_rit_xit_offset_id(),
{
    &[0x52, 0x4F]
}

/// Set the RIT/XIT offset in hertz: `RO{s}{nnnn};`, with the offset between -9999 and 9999.
#[derive(Clone, Copy, Debug, PartialEq, Eq)]
pub struct SetRitXitOffset {
    pub offset_hz: i16,
}

impl SetRitXitOffset {
    /// The values the command accepts.
    pub open spec fn spec_in_range(self) -> bool {
        -9999 <= self.offset_hz <= 9999
    }

    /// The argument bytes.
    pub open spec fn spec_args(self) -> Seq<u8> {
        int_args(self.offset_hz, 4)
    }

    /// The command, or `InvalidArgumentValue` for an offset out of range.
    pub fn to_bytes(&self) -> (r: Result<Vec<u8>, RigError>)
        ensures
            self.spec_in_range() ==> (r matches Ok(b) && b@ == frame(set_rit_xit_offset_id(), self.spec_args())),
            !self.spec_in_range() ==> (r matches Err(e) && e.fails_with(
                Failure::ArgumentValue("offset_hz"@, "i16"@, decimal_string(self.offset_hz as int)),
            )),
    {
        encode_int_in_range(set_rit_xit_offset_id_bytes(), "offset_hz", "i16", self.offset_hz, -9999, 9999, 4)
    }
}

/// `SetRitXitOffset` accepts `offset_hz` when `-9999 <= s.offset_hz <= 9999` and sends its sign (`-` or `+`) then its magnitude
/// in decimal digits, zero-padded to 4.
pub proof fn lemma_set_rit_xit_offset_argument(s: SetRitXitOffset)
    ensures
        s.spec_in_range() == (-9999 <= s.offset_hz <= 9999),
        s.spec_args()[0] == (if s.offset_hz < 0 { 0x2Du8 } else { 0x2Bu8 }),
        all_digits(s.spec_args().drop_first()),
        digits_value(s.spec_args().drop_first()) == (if s.offset_hz < 0 { -s.offset_hz } else { s.offset_hz as int }),
{
    lemma_padded_decimal_value((if s.offset_hz < 0 { -s.offset_hz } else { s.offset_hz as int }) as nat, 4);
    assert(s.spec_args().drop_first() =~= padded_decimal((if s.offset_hz < 0 { -s.offset_hz } else { s.offset_hz as int }) as nat, 4));
}

/// `IS`
pub open spec fn set_vfo_a_if_shift_id() -> Seq<u8> {
    seq![0x49, 0x53]
}

fn set_vfo_a_if_shift_id_bytes() -> (r: &'static [u8])
    ensures
        r@ == set_vfo_a_if_shift_id(),
{
    &[0x49, 0x53]
}

/// Set the VFO A IF shift in hertz: `IS{s}{nnnn};`, with the offset between -2999 and 2999.
#[derive(Clone, Copy, Debug, PartialEq, Eq)]
pub struct SetVfoAIfShift {
    pub offset_hz: i16,
}

impl SetVfoAIfShift {
    /// The values the command accepts.
    pub open spec fn spec_in_range(self) -> bool {
        -2999 <= self.offset_hz <= 2999
    }

    /// The argument bytes.
    pub open spec fn spec_args(self) -> Seq<u8> {
        int_args(self.offset_hz, 4)
    }

    /// The command, or `InvalidArgumentValue` for an offset out of range.
    pub fn to_bytes(&self) -> (r: Result<Vec<u8>, RigError>)
        ensures
            self.spec_in_range() ==> (r matches Ok(b) && b@ == frame(set_vfo_a_if_shift_id(), self.spec_args())),
            !self.spec_in_range() ==> (r matches Err(e) && e.fails_with(
                Failure::ArgumentValue("offset_hz"@, "i16"@, decimal_string(self.offset_hz as int)),
            )),
    {
        encode_int_in_range(set_vfo_a_if_shift_id_bytes(), "offset_hz", "i16", self.offset_hz, -2999, 2999, 4)
    }
}

/// `SetVfoAIfShift` accepts `offset_hz` when `-2999 <= s.offset_hz <= 2999` and sends its sign (`-` or `+`) then its magnitude
/// in decimal digits, zero-padded to 4.
pub proof fn lemma_set_vfo_a_if_shift_argument(s: SetVfoAIfShift)
    ensures
        s.spec_in_range() == (-2999 <= s.offset_hz <= 2999),
        s.spec_args()[0] == (if s.offset_hz < 0 { 0x2Du8 } else { 0x2Bu8 }),
        all_digits(s.spec_args().drop_first()),
        digits_value(s.spec_args().drop_first()) == (if s.offset_hz < 0 { -s.offset_hz } else { s.offset_hz as int }),
{
    lemma_padded_decimal_value((if s.offset_hz < 0 { -s.offset_hz } else { s.offset_hz as int }) as nat, 4);
    assert(s.spec_args().drop_first() =~= padded_decimal((if s.offset_hz < 0 { -s.offset_hz } else { s.offset_hz as int }) as nat, 4));
}

/// `IS$`
pub open spec fn set_vfo_b_if_shift_id() -> Seq<u8> {
    seq![0x49, 0x53, 0x24]
}

fn set_vfo_b_if_shift_id_bytes() -> (r: &'static [u8])
    ensures
        r@ == set_vfo_b_if_shift_id(),
{
    &[0x49, 0x53, 0x24]
}

/// Set the VFO B IF shift in hertz: `IS${s}{nnnn};`, with the offset between -2999 and 2999.
#[derive(Clone, Copy, Debug, PartialEq, Eq)]
pub struct SetVfoBIfShift {
    pub offset_hz: i16,
}

impl SetVfoBIfShift {
    /// The values the command accepts.
    pub open spec fn spec_in_range(self) -> bool {
        -2999 <= self.offset_hz <= 2999
    }

    /// The argument bytes.
    pub open spec fn spec_args(self) -> Seq<u8> {
        int_args(self.offset_hz, 4)
    }

    /// The command, or `InvalidArgumentValue` for an offset out of range.
    pub fn to_bytes(&self) -> (r: Result<Vec<u8>, RigError>)
        ensures
            self.spec_in_range() ==> (r matches Ok(b) && b@ == frame(set_vfo_b_if_shift_id(), self.spec_args())),
            !self.spec_in_range() ==> (r matches Err(e) && e.fails_with(
                Failure::ArgumentValue("offset_hz"@, "i16"@, decimal_string(self.offset_hz as int)),
            )),
    {
        encode_int_in_range(set_vfo_b_if_shift_id_bytes(), "offset_hz", "i16", self.offset_hz, -2999, 2999, 4)
    }
}

/// `SetVfoBIfShift` accepts `offset_hz` when `-2999 <= s.offset_hz <= 2999` and sends its sign (`-` or `+`) then its magnitude
/// in decimal digits, zero-padded to 4.
pub proof fn lemma_set_vfo_b_if_shift_argument(s: SetVfoBIfShift)
    ensures
        s.spec_in_range() == (-2999 <= s.offset_hz <= 2999),
        s.spec_args()[0] == (if s.offset_hz < 0 { 0x2Du8 } else { 0x2Bu8 }),
        all_digits(s.spec_args().drop_first()),
        digits_value(s.spec_args().drop_first()) == (if s.offset_hz < 0 { -s.offset_hz } else { s.offset_hz as int }),
{
    lemma_padded_decimal_value((if s.offset_hz < 0 { -s.offset_hz } else { s.offset_hz as int }) as nat, 4);
    assert(s.spec_args().drop_first() =~= padded_decimal((if s.offset_hz < 0 { -s.offset_hz } else { s.offset_hz as int }) as nat, 4));
}

/// What `parse_signed_offset_4` gives for a field.
pub open spec fn spec_parse_signed_offset_4(bytes: Seq<u8>) -> Result<i16, Failure> {
    match spec_sign_loose(bytes[0]) {
        None => Err(Failure::Sign(bytes[0])),
        Some(s) => match spec_u16_field(bytes.subrange(1, 5)) {
            Err(f) => Err(f),
            Ok(m) => Ok((s * m) as i16),
        },
    }
}

/// A sign byte and four digits read as the signed number of hertz they spell: `+` or a space
/// positive, `-` negative; any other sign byte is a `ParseSign` error.
pub proof fn lemma_signed_offset_4_value(bytes: Seq<u8>)
    requires
        bytes.len() >= 5,
        all_digits(bytes.subrange(1, 5)),
    ensures
        (bytes[0] == 0x2B || bytes[0] == 0x20) ==> spec_parse_signed_offset_4(bytes) == Ok::<
            i16,
            Failure,
        >(digits_value(bytes.subrange(1, 5)) as i16),
        bytes[0] == 0x2D ==> spec_parse_signed_offset_4(bytes) == Ok::<i16, Failure>(
            (-digits_value(bytes.subrange(1, 5))) as i16,
        ),
        !(bytes[0] == 0x2B || bytes[0] == 0x20 || bytes[0] == 0x2D) ==> spec_parse_signed_offset_4(
            bytes,
        ) == Err::<i16, Failure>(Failure::Sign(bytes[0])),
{
    crate::protocol::cat::digits::lemma_digits_value_bound(bytes.subrange(1, 5));
    lemma_pow10_values();
    let m = digits_value(bytes.subrange(1, 5));
    assert(spec_u16_field(bytes.subrange(1, 5)) == Ok::<u16, Failure>(m as u16));
    assert(1int * (m as u16) == m);
    assert(-1int * (m as u16) == -m);
}

/// Parses a sign byte (`+`, `-`, or a space for `+`) and four digits, as in the `IS` and `RO`
/// responses, into a signed offset in hertz. The value must hold at least five bytes.
pub fn parse_signed_offset_4(bytes: &[u8]) -> (r: Result<i16, RigError>)
    requires
        bytes.len() >= 5,
    ensures
        agrees(r, spec_parse_signed_offset_4(bytes@)),
        r matches Ok(v) ==> -9999 <= v <= 9999,
{
    let sign = match sign_from_ascii_loose(bytes[0]) {
        Ok(s) => s,
        Err(e) => return Err(e),
    };
    let digits = &bytes[1..5];
    proof {
        lemma_leading_value_bound(digits@);
        lemma_pow10_values();
    }
    let magnitude = match u16_from_ascii(digits) {
        Ok(m) => m,
        Err(e) => return Err(e),
    };
    proof {
        lemma_digits_value_bound(digits@);
    }
    assert(magnitude < 10000);
    let m = magnitude as i16;
    if sign < 0 {
        assert(sign == -1);
        assert(sign * (magnitude as int) == -(magnitude as int));
        Ok(-m)
    } else {
        assert(sign == 1);
        assert(sign * (magnitude as int) == magnitude as int);
        Ok(m)
    }
}

/// `RO`
pub open spec fn get_rit_xit_offset_id() -> Seq<u8> {
    seq![0x52, 0x4F]
}

fn get_rit_xit_offset_id_bytes() -> (r: &'static [u8])
    ensures
        r@ == get_rit_xit_offset_id(),
{
    &[0x52, 0x4F]
}

/// Get the RIT/XIT offset in hertz: `RO;`, answered by `RO{s}{nnnn};`.
#[derive(Clone, Copy, Debug, PartialEq, Eq)]
pub struct GetRitXitOffset;

impl GetRitXitOffset {
    pub fn to_bytes(&self) -> (r: Vec<u8>)
        ensures
            r@ == frame(get_rit_xit_offset_id(), seq![]),
    {
        let none: [u8; 0] = [];
        frame_command(get_rit_xit_offset_id_bytes(), &none)
    }

    pub fn parse(&self, bytes: &[u8]) -> (r: Result<i16, RigError>)
        ensures
            match spec_validate_response(bytes@, get_rit_xit_offset_id(), 5) {
                Err(f) => r matches Err(e) && e.fails_with(f),
                Ok(v) => agrees(r, spec_parse_signed_offset_4(v)),
            },
    {
        match validate_response(bytes, get_rit_xit_offset_id_bytes(), 5) {
            Ok(d) => parse_signed_offset_4(d),
            Err(e) => Err(e),
        }
    }
}

/// `IS`
pub open spec fn get_vfo_a_if_shift_id() -> Seq<u8> {
    seq![0x49, 0x53]
}

fn get_vfo_a_if_shift_id_bytes() -> (r: &'static [u8])
    ensures
        r@ == get_vfo_a_if_shift_id(),
{
    &[0x49, 0x53]
}

/// Get the VFO A IF shift in hertz: `IS;`, answered by `IS{s}{nnnn};`.
#[derive(Clone, Copy, Debug, PartialEq, Eq)]
pub struct GetVfoAIfShift;

impl GetVfoAIfShift {
    pub fn to_bytes(&self) -> (r: Vec<u8>)
        ensures
            r@ == frame(get_vfo_a_if_shift_id(), seq![]),
    {
        let none: [u8; 0] = [];
        frame_command(get_vfo_a_if_shift_id_bytes(), &none)
    }

    pub fn parse(&self, bytes: &[u8]) -> (r: Result<i16, RigError>)
        ensures
            match spec_validate_response(bytes@, get_vfo_a_if_shift_id(), 5) {
                Err(f) => r matches Err(e) && e.fails_with(f),
                Ok(v) => agrees(r, spec_parse_signed_offset_4(v)),
            },
    {
        match validate_response(bytes, get_vfo_a_if_shift_id_bytes(), 5) {
            Ok(d) => parse_signed_offset_4(d),
            Err(e) => Err(e),
        }
    }
}

/// `IS$`
pub open spec fn get_vfo_b_if_shift_id() -> Seq<u8> {
    seq![0x49, 0x53, 0x24]
}

fn get_vfo_b_if_shift_id_bytes() -> (r: &'static [u8])
    ensures
        r@ == get_vfo_b_if_shift_id(),
{
    &[0x49, 0x53, 0x24]
}

/// Get the VFO B IF shift in hertz: `IS$;`, answered by `IS${s}{nnnn};`.
#[derive(Clone, Copy, Debug, PartialEq, Eq)]
pub struct GetVfoBIfShift;

impl GetVfoBIfShift {
    pub fn to_bytes(&self) -> (r: Vec<u8>)
        ensures
            r@ == frame(get_vfo_b_if_shift_id(), seq![]),
    {
        let none: [u8; 0] = [];
        frame_command(get_vfo_b_if_shift_id_bytes(), &none)
    }

    pub fn parse(&self, bytes: &[u8]) -> (r: Result<i16, RigError>)
        ensures
            match spec_validate_response(bytes@, get_vfo_b_if_shift_id(), 5) {
                Err(f) => r matches Err(e) && e.fails_with(f),
                Ok(v) => agrees(r, spec_parse_signed_offset_4(v)),
            },
    {
        match validate_response(bytes, get_vfo_b_if_shift_id_bytes(), 5) {
            Ok(d) => parse_signed_offset_4(d),
            Err(e) => Err(e),
        }
    }
}

/// The bytes of `s` before its first space.
pub open spec fn until_space(s: Seq<u8>) -> Seq<u8>
    decreases s.len(),
{
    if s.len() == 0 || s[0] == 0x20 {
        Seq::empty()
    } else {
        seq![s[0]] + until_space(s.drop_first())
    }
}

/// The text before the first space is a prefix of `s` without spaces, followed in `s` by a
/// space or by nothing.
pub proof fn lemma_until_space_prefix(s: Seq<u8>)
    ensures
        until_space(s).len() <= s.len(),
        until_space(s) =~= s.take(until_space(s).len() as int),
        forall|i: int| 0 <= i < until_space(s).len() ==> #[trigger] until_space(s)[i] != 0x20,
        until_space(s).len() == s.len() || s[until_space(s).len() as int] == 0x20,
    decreases s.len(),
{
    if s.len() > 0 && s[0] != 0x20 {
        let t = s.drop_first();
        lemma_until_space_prefix(t);
        let u = until_space(t);
        assert(until_space(s) =~= seq![s[0]] + u);
        assert forall|i: int| 0 <= i < until_space(s).len() implies #[trigger] until_space(s)[i]
            != 0x20 by {
            if i > 0 {
                assert(until_space(s)[i] == u[i - 1]);
            }
        }
        assert(s.take(until_space(s).len() as int) =~= seq![s[0]] + t.take(u.len() as int));
        if u.len() < t.len() {
            assert(s[until_space(s).len() as int] == t[u.len() as int]);
        }
    }
}

proof fn lemma_until_space(s: Seq<u8>, i: int)
    requires
        0 <= i <= s.len(),
        forall|j: int| 0 <= j < i ==> #[trigger] s[j] != 0x20,
        i == s.len() || s[i] == 0x20,
    ensures
        until_space(s) == s.take(i),
    decreases i,
{
    if i > 0 {
        let t = s.drop_first();
        assert forall|j: int| 0 <= j < i - 1 implies #[trigger] t[j] != 0x20 by {
            assert(t[j] == s[j + 1]);
        }
        lemma_until_space(t, i - 1);
        assert(s.take(i) =~= seq![s[0]] + t.take(i - 1));
    } else {
        assert(s.take(0) =~= Seq::<u8>::empty());
    }
}

/// What `parse_buffered_text` gives for a response value.
pub open spec fn spec_parse_buffered_text(bytes: Seq<u8>) -> Result<(u8, Seq<u8>), Failure> {
    match spec_u8_field(bytes.take(1)) {
        Err(f) => Err(f),
        Ok(status) => Ok((status, until_space(if bytes.len() >= 2 { bytes.skip(2) } else { seq![] }))),
    }
}

/// A `TB` value reads its status from the digit in byte 0, and its text from byte 2 up to the
/// first space or the end.
pub proof fn lemma_buffered_text_positions(bytes: Seq<u8>)
    requires
        bytes.len() >= 2,
    ensures
        spec_parse_buffered_text(bytes) matches Ok((status, text)) ==> {
            &&& 0x30 <= bytes[0] <= 0x39 && status == bytes[0] - 0x30
            &&& text.len() <= bytes.len() - 2
            &&& forall|i: int| 0 <= i < text.len() ==> #[trigger] text[i] == bytes[2 + i] && text[i]
                != 0x20
            &&& (2 + text.len() == bytes.len() || bytes[2 + text.len() as int] == 0x20)
        },
        (0x30 <= bytes[0] <= 0x39) ==> spec_parse_buffered_text(bytes) is Ok,
{
    lemma_until_space_prefix(bytes.skip(2));
    let d = bytes.take(1);
    assert(d[0] == bytes[0]);
    if 0x30 <= bytes[0] <= 0x39 {
        assert(all_digits(d));
        lemma_digits_value_take_step(d, 0);
        assert(d.take(1) =~= d);
        assert(d.take(0).len() == 0);
    }
}

/// Parses a `TB`/`TBX` response value: a status digit, a space, and up to eight characters of
/// text ending at the first space. The value must not be empty.
pub fn parse_buffered_text(bytes: &[u8]) -> (r: Result<(u8, Vec<u8>), RigError>)
    requires
        bytes.len() >= 1,
    ensures
        match spec_parse_buffered_text(bytes@) {
            Err(f) => r matches Err(e) && e.fails_with(f),
            Ok((status, text)) => r matches Ok((s, t)) && s == status && t@ == text,
        },
{
    let first = &bytes[0..1];
    proof {
        lemma_leading_value_bound(first@);
        lemma_pow10_values();
    }
    let status = match u8_from_ascii(first) {
        Ok(s) => s,
        Err(e) => return Err(e),
    };
    let mut text: Vec<u8> = Vec::new();
    let ghost rest = if bytes.len() >= 2 {
        bytes@.skip(2)
    } else {
        seq![]
    };
    let mut i: usize = 2;
    while i < bytes.len() && bytes[i] != 0x20
        invariant
            2 <= i,
            bytes.len() >= 2 ==> i <= bytes.len(),
            bytes.len() < 2 ==> i == 2,
            rest == (if bytes.len() >= 2 { bytes@.skip(2) } else { seq![] }),
            text@ == bytes@.subrange(2, i as int) || bytes.len() < 2,
            bytes.len() < 2 ==> text@ == Seq::<u8>::empty(),
            forall|j: int| 2 <= j < i ==> #[trigger] bytes@[j] != 0x20,
        decreases bytes.len() - i,
    {
        text.push(bytes[i]);
        assert(bytes@.subrange(2, i + 1) =~= bytes@.subrange(2, i as int).push(bytes@[i as int]));
        i = i + 1;
    }
    proof {
        if bytes.len() >= 2 {
            let k = (i - 2) as int;
            assert forall|j: int| 0 <= j < k implies #[trigger] rest[j] != 0x20 by {
                assert(rest[j] == bytes@[j + 2]);
            }
            if i < bytes.len() {
                assert(rest[k] == bytes@[i as int]);
            }
            lemma_until_space(rest, k);
            assert(rest.take(k) =~= bytes@.subrange(2, i as int));
        } else {
            lemma_until_space(rest, 0);
        }
    }
    Ok((status, text))
}

/// `TB`
pub open spec fn get_buffered_text_id() -> Seq<u8> {
    seq![0x54, 0x42]
}

fn get_buffered_text_id_bytes() -> (r: &'static [u8])
    ensures
        r@ == get_buffered_text_id(),
{
    &[0x54, 0x42]
}

/// Get buffered text: `TB;`, answered by `TB{s} {text};` in 9 bytes.
#[derive(Clone, Copy, Debug, PartialEq, Eq)]
pub struct GetBufferedText;

impl GetBufferedText {
    pub fn to_bytes(&self) -> (r: Vec<u8>)
        ensures
            r@ == frame(get_buffered_text_id(), seq![]),
    {
        let none: [u8; 0] = [];
        frame_command(get_buffered_text_id_bytes(), &none)
    }

    pub fn parse(&self, bytes: &[u8]) -> (r: Result<(u8, Vec<u8>), RigError>)
        ensures
            match spec_validate_response(bytes@, get_buffered_text_id(), 9) {
                Err(f) => r matches Err(e) && e.fails_with(f),
                Ok(v) => match spec_parse_buffered_text(v) {
                    Err(f) => r matches Err(e) && e.fails_with(f),
                    Ok((status, text)) => r matches Ok((s, t)) && s == status && t@ == text,
                },
            },
    {
        match validate_response(bytes, get_buffered_text_id_bytes(), 9) {
            Ok(d) => parse_buffered_text(d),
            Err(e) => Err(e),
        }
    }
}

/// `TBX`
pub open spec fn get_transmit_buffered_text_id() -> Seq<u8> {
    seq![0x54, 0x42, 0x58]
}

fn get_transmit_buffered_text_id_bytes() -> (r: &'static [u8])
    ensures
        r@ == get_transmit_buffered_text_id(),
{
    &[0x54, 0x42, 0x58]
}

/// Get buffered text: `TBX;`, answered by `TBX{s} {text};` in 9 bytes.
#[derive(Clone, Copy, Debug, PartialEq, Eq)]
pub struct GetTransmitBufferedText;

impl GetTransmitBufferedText {
    pub fn to_bytes(&self) -> (r: Vec<u8>)
        ensures
            r@ == frame(get_transmit_buffered_text_id(), seq![]),
    {
        let none: [u8; 0] = [];
        frame_command(get_transmit_buffered_text_id_bytes(), &none)
    }

    pub fn parse(&self, bytes: &[u8]) -> (r: Result<(u8, Vec<u8>), RigError>)
        ensures
            match spec_validate_response(bytes@, get_transmit_buffered_text_id(), 9) {
                Err(f) => r matches Err(e) && e.fails_with(f),
                Ok(v) => match spec_parse_buffered_text(v) {
                    Err(f) => r matches Err(e) && e.fails_with(f),
                    Ok((status, text)) => r matches Ok((s, t)) && s == status && t@ == text,
                },
            },
    {
        match validate_response(bytes, get_transmit_buffered_text_id_bytes(), 9) {
            Ok(d) => parse_buffered_text(d),
            Err(e) => Err(e),
        }
    }
}

/// `KY`
pub open spec fn send_cw_text_id() -> Seq<u8> {
    seq![0x4B, 0x59]
}

fn send_cw_text_id_bytes() -> (r: &'static [u8])
    ensures
        r@ == send_cw_text_id(),
{
    &[0x4B, 0x59]
}

/// `n` spaces.
pub open spec fn spaces(n: nat) -> Seq<u8> {
    Seq::new(n, |i: int| 0x20u8)
}

/// Send CW text: `KY{b} {text};`, where *b* is `1` to only buffer the text and `0` to send it,
/// and the text is truncated or space-padded to 24 characters.
#[derive(Clone, Debug, PartialEq, Eq)]
pub struct SendCwText {
    pub buffer_only: bool,
    pub text: Vec<u8>,
}

impl SendCwText {
    pub open spec fn spec_args(self) -> Seq<u8> {
        let n = if self.text@.len() < 24 { self.text@.len() } else { 24 };
        seq![if self.buffer_only { 0x31u8 } else { 0x30u8 }, 0x20u8] + self.text@.take(n as int) + spaces(
            (24 - n) as nat,
        )
    }

    pub fn to_bytes(&self) -> (r: Vec<u8>)
        ensures
            r@ == frame(send_cw_text_id(), self.spec_args()),
    {
        let mut v: Vec<u8> = Vec::new();
        v.push(if self.buffer_only { 0x31u8 } else { 0x30u8 });
        v.push(0x20u8);
        let n = if self.text.len() < 24 {
            self.text.len()
        } else {
            24
        };
        let mut i: usize = 0;
        while i < n
            invariant
                i <= n,
                n <= self.text.len(),
                v@ == seq![if self.buffer_only { 0x31u8 } else { 0x30u8 }, 0x20u8] + self.text@.take(
                    i as int,
                ),
            decreases n - i,
        {
            v.push(self.text[i]);
            assert(self.text@.take(i + 1) =~= self.text@.take(i as int).push(self.text@[i as int]));
            i = i + 1;
        }
        let ghost head = v@;
        while v.len() < 26
            invariant
                head.len() == 2 + n,
                n <= 24,
                v.len() >= head.len(),
                v.len() <= 26,
                v@ == head + spaces((v.len() - head.len()) as nat),
            decreases 26 - v.len(),
        {
            v.push(0x20u8);
            assert(spaces((v.len() - head.len()) as nat) =~= spaces((v.len() - 1 - head.len()) as nat).push(0x20u8));
        }
        assert(v@ =~= self.spec_args());
        frame_command(send_cw_text_id_bytes(), v.as_slice())
    }
}

/// `DS`
pub open spec fn vfo_a_display_and_icons_id() -> Seq<u8> {
    seq![0x44, 0x53]
}

fn vfo_a_display_and_icons_id_bytes() -> (r: &'static [u8])
    ensures
        r@ == vfo_a_display_and_icons_id(),
{
    &[0x44, 0x53]
}

/// VFO A display text and icons from the `DS` response.
#[derive(Clone, Debug, PartialEq, Eq)]
pub struct VfoADisplayAndIcons {
    /// The display text.
    pub text: String,
    /// The decimal point to the left of each character.
    pub decimal_points: [bool; 8],
    pub icon_data: VfoAIconData,
    pub icon_flash_data: VfoAIconFlashData,
}

/// Get VFO A display text and icons: `DS;`, answered by `DS{8 text bytes}{a}{f};`.
#[derive(Clone, Copy, Debug, PartialEq, Eq)]
pub struct GetVfoADisplayAndIcons;

impl GetVfoADisplayAndIcons {
    pub fn to_bytes(&self) -> (r: Vec<u8>)
        ensures
            r@ == frame(vfo_a_display_and_icons_id(), seq![]),
    {
        let none: [u8; 0] = [];
        frame_command(vfo_a_display_and_icons_id_bytes(), &none)
    }

    /// Decodes the text, then the icon byte, then the additional icon byte; the first part that
    /// fails decides the error.
    pub fn parse(&self, bytes: &[u8]) -> (r: Result<VfoADisplayAndIcons, RigError>)
        ensures
            match spec_validate_response(bytes@, vfo_a_display_and_icons_id(), 10) {
                Err(f) => r matches Err(e) && e.fails_with(f),
                Ok(v) => match spec_text_failure(v.take(8)) {
                    Some(f) => r matches Err(e) && e.fails_with(f),
                    None => if !bit_set(v[8], 7) {
                        r matches Err(e) && e.is_invalid_response_data(seq![v[8]])
                    } else if !bit_set(v[9], 7) {
                        r matches Err(e) && e.is_invalid_response_data(seq![v[9]])
                    } else {
                        r matches Ok(d) && d.text@ == ascii_chars(display_chars(v.take(8)))
                            && (forall|i: int| 0 <= i < 8 ==> d.decimal_points[i] == decimal_point_flag(#[trigger] v[i]))
                            && d.icon_data == VfoAIconData::spec_decode(v[8])
                            && d.icon_flash_data == VfoAIconFlashData::spec_decode(v[9])
                    },
                },
            },
    {
        let d = match validate_response(bytes, vfo_a_display_and_icons_id_bytes(), 10) {
            Ok(d) => d,
            Err(e) => return Err(e),
        };
        let (text, decimal_points) = match parse_text_and_decimal_flags(&d[0..8]) {
            Ok(t) => t,
            Err(e) => return Err(e),
        };
        assert(d@.subrange(0, 8) =~= d@.take(8));
        assert(forall|i: int| 0 <= i < 8 ==> #[trigger] d@[i] == d@.subrange(0, 8)[i]);
        let icon_data = match VfoAIconData::try_from(d[8]) {
            Ok(i) => i,
            Err(e) => return Err(e),
        };
        let icon_flash_data = match VfoAIconFlashData::try_from(d[9]) {
            Ok(i) => i,
            Err(e) => return Err(e),
        };
        Ok(VfoADisplayAndIcons { text, decimal_points, icon_data, icon_flash_data })
    }
}

// ------------------------------------------------------------------------------------------------
// Further commands: identifier and argument encodings, and replies
// ------------------------------------------------------------------------------------------------

/// Auto-information mode.
#[derive(Clone, Copy, Debug, PartialEq, Eq, Hash)]
pub enum AutoInfoMode {
    /// AI off (manual query only); `0` on the wire.
    Off,
    /// AI on for K2 responses (basic unsolicited RSP); `1` on the wire.
    K2,
    /// AI on for K3 responses; `2` on the wire.
    K3,
    /// AI on for K3 responses in extended mode; `3` on the wire.
    K3Extended,
}

impl AutoInfoMode {
    pub open spec fn spec_byte(self) -> u8 {
        match self {
            AutoInfoMode::Off => 0x30,
            AutoInfoMode::K2 => 0x31,
            AutoInfoMode::K3 => 0x32,
            AutoInfoMode::K3Extended => 0x33,
        }
    }

    /// The variant that a wire byte stands for.
    pub open spec fn spec_from_byte(b: u8) -> Option<AutoInfoMode> {
        if b == 0x30 {
            Some(AutoInfoMode::Off)
        } else if b == 0x31 {
            Some(AutoInfoMode::K2)
        } else if b == 0x32 {
            Some(AutoInfoMode::K3)
        } else if b == 0x33 {
            Some(AutoInfoMode::K3Extended)
        } else {
            None
        }
    }

    /// The wire byte.
    pub fn as_byte(&self) -> (b: u8)
        ensures
            b == self.spec_byte(),
    {
        match self {
            AutoInfoMode::Off => 0x30,
            AutoInfoMode::K2 => 0x31,
            AutoInfoMode::K3 => 0x32,
            AutoInfoMode::K3Extended => 0x33,
        }
    }

    /// The variant that a wire byte stands for.
    pub fn from_repr(b: u8) -> (r: Option<AutoInfoMode>)
        ensures
            r == Self::spec_from_byte(b),
            r matches Some(v) ==> v.spec_byte() == b,
    {
        if b == 0x30 {
            Some(AutoInfoMode::Off)
        } else if b == 0x31 {
            Some(AutoInfoMode::K2)
        } else if b == 0x32 {
            Some(AutoInfoMode::K3)
        } else if b == 0x33 {
            Some(AutoInfoMode::K3Extended)
        } else {
            None
        }
    }
}

/// The wire bytes of `AutoInfoMode`: Off `0`, K2 `1`, K3 `2`, K3Extended `3`; no other byte stands for a variant.
pub proof fn lemma_auto_info_mode_wire_bytes()
    ensures
        AutoInfoMode::Off.spec_byte() == 0x30,
        AutoInfoMode::K2.spec_byte() == 0x31,
        AutoInfoMode::K3.spec_byte() == 0x32,
        AutoInfoMode::K3Extended.spec_byte() == 0x33,
        AutoInfoMode::spec_from_byte(0x30) == Some(AutoInfoMode::Off),
        AutoInfoMode::spec_from_byte(0x31) == Some(AutoInfoMode::K2),
        AutoInfoMode::spec_from_byte(0x32) == Some(AutoInfoMode::K3),
        AutoInfoMode::spec_from_byte(0x33) == Some(AutoInfoMode::K3Extended),
        forall|b: u8| #[trigger] AutoInfoMode::spec_from_byte(b) is Some ==> (b == 0x30 || b == 0x31 || b == 0x32 || b == 0x33),
{
}

/// Reading back the wire byte of any `AutoInfoMode` gives the same value.
pub proof fn lemma_auto_info_mode_byte_round_trip(v: AutoInfoMode)
    ensures
        AutoInfoMode::spec_from_byte(v.spec_byte()) == Some(v),
{
}

/// RS-232 baud rate (K3/K3S only).
#[derive(Clone, Copy, Debug, PartialEq, Eq, Hash)]
pub enum BaudRate {
    /// 4,800 baud; `0` on the wire.
    Rate4800,
    /// 9,600 baud; `1` on the wire.
    Rate9600,
    /// 19,200 baud; `2` on the wire.
    Rate19200,
    /// 38,400 baud; `3` on the wire.
    Rate38400,
    /// 57,600 baud; `4` on the wire.
    Rate57600,
    /// 115,200 baud; `5` on the wire.
    Rate115200,
}

impl BaudRate {
    pub open spec fn spec_byte(self) -> u8 {
        match self {
            BaudRate::Rate4800 => 0x30,
            BaudRate::Rate9600 => 0x31,
            BaudRate::Rate19200 => 0x32,
            BaudRate::Rate38400 => 0x33,
            BaudRate::Rate57600 => 0x34,
            BaudRate::Rate115200 => 0x35,
        }
    }

    /// The variant that a wire byte stands for.
    pub open spec fn spec_from_byte(b: u8) -> Option<BaudRate> {
        if b == 0x30 {
            Some(BaudRate::Rate4800)
        } else if b == 0x31 {
            Some(BaudRate::Rate9600)
        } else if b == 0x32 {
            Some(BaudRate::Rate19200)
        } else if b == 0x33 {
            Some(BaudRate::Rate38400)
        } else if b == 0x34 {
            Some(BaudRate::Rate57600)
        } else if b == 0x35 {
            Some(BaudRate::Rate115200)
        } else {
            None
        }
    }

    /// The wire byte.
    pub fn as_byte(&self) -> (b: u8)
        ensures
            b == self.spec_byte(),
    {
        match self {
            BaudRate::Rate4800 => 0x30,
            BaudRate::Rate9600 => 0x31,
            BaudRate::Rate19200 => 0x32,
            BaudRate::Rate38400 => 0x33,
            BaudRate::Rate57600 => 0x34,
            BaudRate::Rate115200 => 0x35,
        }
    }

    /// The variant that a wire byte stands for.
    pub fn from_repr(b: u8) -> (r: Option<BaudRate>)
        ensures
            r == Self::spec_from_byte(b),
            r matches Some(v) ==> v.spec_byte() == b,
    {
        if b == 0x30 {
            Some(BaudRate::Rate4800)
        } else if b == 0x31 {
            Some(BaudRate::Rate9600)
        } else if b == 0x32 {
            Some(BaudRate::Rate19200)
        } else if b == 0x33 {
            Some(BaudRate::Rate38400)
        } else if b == 0x34 {
            Some(BaudRate::Rate57600)
        } else if b == 0x35 {
            Some(BaudRate::Rate115200)
        } else {
            None
        }
    }
}

/// The wire bytes of `BaudRate`: Rate4800 `0`, Rate9600 `1`, Rate19200 `2`, Rate38400 `3`, Rate57600 `4`, Rate115200 `5`; no other byte stands for a variant.
pub proof fn lemma_baud_rate_wire_bytes()
    ensures
        BaudRate::Rate4800.spec_byte() == 0x30,
        BaudRate::Rate9600.spec_byte() == 0x31,
        BaudRate::Rate19200.spec_byte() == 0x32,
        BaudRate::Rate38400.spec_byte() == 0x33,
        BaudRate::Rate57600.spec_byte() == 0x34,
        BaudRate::Rate115200.spec_byte() == 0x35,
        BaudRate::spec_from_byte(0x30) == Some(BaudRate::Rate4800),
        BaudRate::spec_from_byte(0x31) == Some(BaudRate::Rate9600),
        BaudRate::spec_from_byte(0x32) == Some(BaudRate::Rate19200),
        BaudRate::spec_from_byte(0x33) == Some(BaudRate::Rate38400),
        BaudRate::spec_from_byte(0x34) == Some(BaudRate::Rate57600),
        BaudRate::spec_from_byte(0x35) == Some(BaudRate::Rate115200),
        forall|b: u8| #[trigger] BaudRate::spec_from_byte(b) is Some ==> (b == 0x30 || b == 0x31 || b == 0x32 || b == 0x33 || b == 0x34 || b == 0x35),
{
}

/// Reading back the wire byte of any `BaudRate` gives the same value.
pub proof fn lemma_baud_rate_byte_round_trip(v: BaudRate)
    ensures
        BaudRate::spec_from_byte(v.spec_byte()) == Some(v),
{
}

/// Diversity receive mode state.
#[derive(Clone, Copy, Debug, PartialEq, Eq, Hash)]
pub enum DiversityModeState {
    /// Off; `0` on the wire.
    Off,
    /// On; `1` on the wire.
    On,
    /// Sub receiver and diversity; `S` on the wire.
    SubAndDiversity,
}

impl DiversityModeState {
    pub open spec fn spec_byte(self) -> u8 {
        match self {
            DiversityModeState::Off => 0x30,
            DiversityModeState::On => 0x31,
            DiversityModeState::SubAndDiversity => 0x53,
        }
    }

    /// The variant that a wire byte stands for.
    pub open spec fn spec_from_byte(b: u8) -> Option<DiversityModeState> {
        if b == 0x30 {
            Some(DiversityModeState::Off)
        } else if b == 0x31 {
            Some(DiversityModeState::On)
        } else if b == 0x53 {
            Some(DiversityModeState::SubAndDiversity)
        } else {
            None
        }
    }

    /// The wire byte.
    pub fn as_byte(&self) -> (b: u8)
        ensures
            b == self.spec_byte(),
    {
        match self {
            DiversityModeState::Off => 0x30,
            DiversityModeState::On => 0x31,
            DiversityModeState::SubAndDiversity => 0x53,
        }
    }

    /// The variant that a wire byte stands for.
    pub fn from_repr(b: u8) -> (r: Option<DiversityModeState>)
        ensures
            r == Self::spec_from_byte(b),
            r matches Some(v) ==> v.spec_byte() == b,
    {
        if b == 0x30 {
            Some(DiversityModeState::Off)
        } else if b == 0x31 {
            Some(DiversityModeState::On)
        } else if b == 0x53 {
            Some(DiversityModeState::SubAndDiversity)
        } else {
            None
        }
    }
}

/// The wire bytes of `DiversityModeState`: Off `0`, On `1`, SubAndDiversity `S`; no other byte stands for a variant.
pub proof fn lemma_diversity_mode_state_wire_bytes()
    ensures
        DiversityModeState::Off.spec_byte() == 0x30,
        DiversityModeState::On.spec_byte() == 0x31,
        DiversityModeState::SubAndDiversity.spec_byte() == 0x53,
        DiversityModeState::spec_from_byte(0x30) == Some(DiversityModeState::Off),
        DiversityModeState::spec_from_byte(0x31) == Some(DiversityModeState::On),
        DiversityModeState::spec_from_byte(0x53) == Some(DiversityModeState::SubAndDiversity),
        forall|b: u8| #[trigger] DiversityModeState::spec_from_byte(b) is Some ==> (b == 0x30 || b == 0x31 || b == 0x53),
{
}

/// Reading back the wire byte of any `DiversityModeState` gives the same value.
pub proof fn lemma_diversity_mode_state_byte_round_trip(v: DiversityModeState)
    ensures
        DiversityModeState::spec_from_byte(v.spec_byte()) == Some(v),
{
}

/// `AG`
pub open spec fn get_vfo_a_af_gain_id() -> Seq<u8> {
    seq![0x41, 0x47]
}

fn get_vfo_a_af_gain_id_bytes() -> (r: &'static [u8])
    ensures
        r@ == get_vfo_a_af_gain_id(),
{
    &[0x41, 0x47]
}

/// Get Audio Frequency (AF) gain level for VFO A (`AG`).
#[derive(Clone, Copy, Debug, PartialEq, Eq)]
pub struct GetVfoAAfGain;

impl GetVfoAAfGain {
    pub fn to_bytes(&self) -> (r: Vec<u8>)
        ensures
            r@ == frame(get_vfo_a_af_gain_id(), seq![]),
    {
        let none: [u8; 0] = [];
        frame_command(get_vfo_a_af_gain_id_bytes(), &none)
    }

    pub open spec fn spec_parse_response(bytes: Seq<u8>) -> Result<u8, Failure> {
        match spec_validate_response(bytes, get_vfo_a_af_gain_id(), 3) {
            Ok(v) => spec_u8_field(v),
            Err(f) => Err(f),
        }
    }

    /// Reads the digits of a framed reply; a value above 255 is outside the domain.
    pub fn parse(&self, bytes: &[u8]) -> (r: Result<u8, RigError>)
        requires
            spec_validate_response(bytes@, get_vfo_a_af_gain_id(), 3) matches Ok(v) ==> leading_value(v) <= u8::MAX,
        ensures
            agrees(r, Self::spec_parse_response(bytes@)),
    {
        match validate_response(bytes, get_vfo_a_af_gain_id_bytes(), 3) {
            Ok(d) => {
                proof {
                    lemma_leading_value_bound(d@);
                    lemma_pow10_values();
                }
                u8_from_ascii(d)
            },
            Err(e) => Err(e),
        }
    }
}

/// A `GetVfoAAfGain` reply of 3 value bytes reads as the decimal number they spell; a value with a
/// byte that is not a digit is an `InvalidResponseData` error holding the value.
pub proof fn lemma_get_vfo_a_af_gain_reply(v: Seq<u8>)
    requires
        v.len() == 3,
    ensures
        all_digits(v) && digits_value(v) <= 255 ==> GetVfoAAfGain::spec_parse_response(frame(get_vfo_a_af_gain_id(), v)) == Ok::<u8, Failure>(digits_value(v) as u8),
        !all_digits(v) ==> GetVfoAAfGain::spec_parse_response(frame(get_vfo_a_af_gain_id(), v)) == Err::<u8, Failure>(Failure::ResponseData(v)),
{
    lemma_framed_value_reads_back(get_vfo_a_af_gain_id(), v);
}

/// `AG$`
pub open spec fn get_vfo_b_af_gain_id() -> Seq<u8> {
    seq![0x41, 0x47, 0x24]
}

fn get_vfo_b_af_gain_id_bytes() -> (r: &'static [u8])
    ensures
        r@ == get_vfo_b_af_gain_id(),
{
    &[0x41, 0x47, 0x24]
}

/// Get Audio Frequency (AF) gain level for VFO B (`AG$`).
#[derive(Clone, Copy, Debug, PartialEq, Eq)]
pub struct GetVfoBAfGain;

impl GetVfoBAfGain {
    pub fn to_bytes(&self) -> (r: Vec<u8>)
        ensures
            r@ == frame(get_vfo_b_af_gain_id(), seq![]),
    {
        let none: [u8; 0] = [];
        frame_command(get_vfo_b_af_gain_id_bytes(), &none)
    }

    pub open spec fn spec_parse_response(bytes: Seq<u8>) -> Result<u8, Failure> {
        match spec_validate_response(bytes, get_vfo_b_af_gain_id(), 3) {
            Ok(v) => spec_u8_field(v),
            Err(f) => Err(f),
        }
    }

    /// Reads the digits of a framed reply; a value above 255 is outside the domain.
    pub fn parse(&self, bytes: &[u8]) -> (r: Result<u8, RigError>)
        requires
            spec_validate_response(bytes@, get_vfo_b_af_gain_id(), 3) matches Ok(v) ==> leading_value(v) <= u8::MAX,
        ensures
            agrees(r, Self::spec_parse_response(bytes@)),
    {
        match validate_response(bytes, get_vfo_b_af_gain_id_bytes(), 3) {
            Ok(d) => {
                proof {
                    lemma_leading_value_bound(d@);
                    lemma_pow10_values();
                }
                u8_from_ascii(d)
            },
            Err(e) => Err(e),
        }
    }
}

/// A `GetVfoBAfGain` reply of 3 value bytes reads as the decimal number they spell; a value with a
/// byte that is not a digit is an `InvalidResponseData` error holding the value.
pub proof fn lemma_get_vfo_b_af_gain_reply(v: Seq<u8>)
    requires
        v.len() == 3,
    ensures
        all_digits(v) && digits_value(v) <= 255 ==> GetVfoBAfGain::spec_parse_response(frame(get_vfo_b_af_gain_id(), v)) == Ok::<u8, Failure>(digits_value(v) as u8),
        !all_digits(v) ==> GetVfoBAfGain::spec_parse_response(frame(get_vfo_b_af_gain_id(), v)) == Err::<u8, Failure>(Failure::ResponseData(v)),
{
    lemma_framed_value_reads_back(get_vfo_b_af_gain_id(), v);
}

/// `AI`
pub open spec fn get_auto_info_mode_id() -> Seq<u8> {
    seq![0x41, 0x49]
}

fn get_auto_info_mode_id_bytes() -> (r: &'static [u8])
    ensures
        r@ == get_auto_info_mode_id(),
{
    &[0x41, 0x49]
}

/// Get Auto-Information (AI) mode (`AI`).
#[derive(Clone, Copy, Debug, PartialEq, Eq)]
pub struct GetAutoInfoMode;

impl GetAutoInfoMode {
    pub fn to_bytes(&self) -> (r: Vec<u8>)
        ensures
            r@ == frame(get_auto_info_mode_id(), seq![]),
    {
        let none: [u8; 0] = [];
        frame_command(get_auto_info_mode_id_bytes(), &none)
    }

    /// What `parse` gives for a response: the value of its one byte, or `InvalidResponseData`
    /// holding the value.
    pub open spec fn spec_parse_response(bytes: Seq<u8>) -> Result<AutoInfoMode, Failure> {
        match spec_validate_response(bytes, get_auto_info_mode_id(), 1) {
            Ok(v) => match AutoInfoMode::spec_from_byte(v[0]) {
                Some(x) => Ok(x),
                None => Err(Failure::ResponseData(v)),
            },
            Err(f) => Err(f),
        }
    }

    pub fn parse(&self, bytes: &[u8]) -> (r: Result<AutoInfoMode, RigError>)
        ensures
            agrees(r, Self::spec_parse_response(bytes@)),
    {
        match validate_response(bytes, get_auto_info_mode_id_bytes(), 1) {
            Ok(d) => match AutoInfoMode::from_repr(d[0]) {
                Some(x) => Ok(x),
                None => Err(invalid_response_data(d)),
            },
            Err(e) => Err(e),
        }
    }
}

/// A `GetAutoInfoMode` reply reads as the `AutoInfoMode` whose wire byte is its value byte; a byte that names no
/// variant is an `InvalidResponseData` error holding the value.
pub proof fn lemma_get_auto_info_mode_reply(v: Seq<u8>)
    requires
        v.len() == 1,
    ensures
        GetAutoInfoMode::spec_parse_response(frame(get_auto_info_mode_id(), v)) matches Ok(m) ==> m.spec_byte() == v[0],
        AutoInfoMode::spec_from_byte(v[0]) is Some ==> GetAutoInfoMode::spec_parse_response(frame(get_auto_info_mode_id(), v)) is Ok,
        AutoInfoMode::spec_from_byte(v[0]) is None ==> GetAutoInfoMode::spec_parse_response(frame(get_auto_info_mode_id(), v)) == Err::<AutoInfoMode, Failure>(Failure::ResponseData(v)),
{
    lemma_framed_value_reads_back(get_auto_info_mode_id(), v);
}

/// `AI`
pub open spec fn set_auto_info_mode_id() -> Seq<u8> {
    seq![0x41, 0x49]
}

fn set_auto_info_mode_id_bytes() -> (r: &'static [u8])
    ensures
        r@ == set_auto_info_mode_id(),
{
    &[0x41, 0x49]
}

/// Set Auto-Information (AI) mode (`AI`).
#[derive(Clone, Copy, Debug, PartialEq, Eq)]
pub struct SetAutoInfoMode {
    pub mode: AutoInfoMode,
}

impl SetAutoInfoMode {
    pub fn turn_off() -> (r: SetAutoInfoMode)
        ensures
            r.mode == AutoInfoMode::Off,
    {
        SetAutoInfoMode { mode: AutoInfoMode::Off }
    }

    pub fn to_k2_mode() -> (r: SetAutoInfoMode)
        ensures
            r.mode == AutoInfoMode::K2,
    {
        SetAutoInfoMode { mode: AutoInfoMode::K2 }
    }

    pub fn to_k3_mode() -> (r: SetAutoInfoMode)
        ensures
            r.mode == AutoInfoMode::K3,
    {
        SetAutoInfoMode { mode: AutoInfoMode::K3 }
    }

    pub fn to_k3_extended_mode() -> (r: SetAutoInfoMode)
        ensures
            r.mode == AutoInfoMode::K3Extended,
    {
        SetAutoInfoMode { mode: AutoInfoMode::K3Extended }
    }

    pub open spec fn spec_args(self) -> Seq<u8> {
        seq![self.mode.spec_byte()]
    }

    pub fn to_bytes(&self) -> (r: Vec<u8>)
        ensures
            r@ == frame(set_auto_info_mode_id(), self.spec_args()),
    {
        let args: [u8; 1] = [self.mode.as_byte()];
        assert(args@ =~= self.spec_args());
        frame_command(set_auto_info_mode_id_bytes(), &args)
    }
}

/// `SetAutoInfoMode` sends exactly one byte, the wire byte of `mode`.
pub proof fn lemma_set_auto_info_mode_argument(s: SetAutoInfoMode)
    ensures
        s.spec_args().len() == 1,
        s.spec_args()[0] == s.mode.spec_byte(),
{
}

/// `AP`
pub open spec fn get_audio_peaking_filter_state_id() -> Seq<u8> {
    seq![0x41, 0x50]
}

fn get_audio_peaking_filter_state_id_bytes() -> (r: &'static [u8])
    ensures
        r@ == get_audio_peaking_filter_state_id(),
{
    &[0x41, 0x50]
}

/// Get CW Audio Peaking Filter (APF) on/off state (`AP`).
#[derive(Clone, Copy, Debug, PartialEq, Eq)]
pub struct GetAudioPeakingFilterState;

impl GetAudioPeakingFilterState {
    pub fn to_bytes(&self) -> (r: Vec<u8>)
        ensures
            r@ == frame(get_audio_peaking_filter_state_id(), seq![]),
    {
        let none: [u8; 0] = [];
        frame_command(get_audio_peaking_filter_state_id_bytes(), &none)
    }

    pub open spec fn spec_parse_response(bytes: Seq<u8>) -> Result<bool, Failure> {
        match spec_validate_response(bytes, get_audio_peaking_filter_state_id(), 1) {
            Ok(v) => spec_bool_1_0(v[0]),
            Err(f) => Err(f),
        }
    }

    pub fn parse(&self, bytes: &[u8]) -> (r: Result<bool, RigError>)
        ensures
            agrees(r, Self::spec_parse_response(bytes@)),
    {
        match validate_response(bytes, get_audio_peaking_filter_state_id_bytes(), 1) {
            Ok(d) => bool_from_ascii_1_0(d[0]),
            Err(e) => Err(e),
        }
    }
}

/// A `GetAudioPeakingFilterState` reply whose value byte is `1` reads as `true`, `0` as `false`; any other byte is a
/// `ParseBoolean` error.
pub proof fn lemma_get_audio_peaking_filter_state_reply(v: Seq<u8>)
    requires
        v.len() == 1,
    ensures
        v[0] == 0x31 ==> GetAudioPeakingFilterState::spec_parse_response(frame(get_audio_peaking_filter_state_id(), v)) == Ok::<bool, Failure>(true),
        v[0] == 0x30 ==> GetAudioPeakingFilterState::spec_parse_response(frame(get_audio_peaking_filter_state_id(), v)) == Ok::<bool, Failure>(false),
        v[0] != 0x30 && v[0] != 0x31 ==> GetAudioPeakingFilterState::spec_parse_response(frame(get_audio_peaking_filter_state_id(), v)) == Err::<bool, Failure>(Failure::Boolean(v[0])),
{
    lemma_framed_value_reads_back(get_audio_peaking_filter_state_id(), v);
}

/// `AP`
pub open spec fn set_audio_peaking_filter_state_id() -> Seq<u8> {
    seq![0x41, 0x50]
}

fn set_audio_peaking_filter_state_id_bytes() -> (r: &'static [u8])
    ensures
        r@ == set_audio_peaking_filter_state_id(),
{
    &[0x41, 0x50]
}

/// Set CW Audio Peaking Filter (APF) on/off state.
#[derive(Clone, Copy, Debug, PartialEq, Eq)]
pub struct SetAudioPeakingFilterState {
    pub state: bool,
}

impl SetAudioPeakingFilterState {
    pub open spec fn spec_args(self) -> Seq<u8> {
        seq![if self.state { ASCII_DIGIT_ONE } else { ASCII_DIGIT_ZERO }]
    }

    pub fn to_bytes(&self) -> (r: Vec<u8>)
        ensures
            r@ == frame(set_audio_peaking_filter_state_id(), self.spec_args()),
    {
        let args: [u8; 1] = [if self.state { ASCII_DIGIT_ONE } else { ASCII_DIGIT_ZERO }];
        assert(args@ =~= self.spec_args());
        frame_command(set_audio_peaking_filter_state_id_bytes(), &args)
    }
}

/// `SetAudioPeakingFilterState` sends `1` when `state` is set and `0` when it is clear.
pub proof fn lemma_set_audio_peaking_filter_state_argument(s: SetAudioPeakingFilterState)
    ensures
        s.state ==> s.spec_args() == seq![0x31u8],
        !s.state ==> s.spec_args() == seq![0x30u8],
{
}

/// `AR`
pub open spec fn get_receive_antenna_id() -> Seq<u8> {
    seq![0x41, 0x52]
}

fn get_receive_antenna_id_bytes() -> (r: &'static [u8])
    ensures
        r@ == get_receive_antenna_id(),
{
    &[0x41, 0x52]
}

/// Get the Receive-only antenna state (`AR`).
#[derive(Clone, Copy, Debug, PartialEq, Eq)]
pub struct GetReceiveAntenna;

impl GetReceiveAntenna {
    pub fn to_bytes(&self) -> (r: Vec<u8>)
        ensures
            r@ == frame(get_receive_antenna_id(), seq![]),
    {
        let none: [u8; 0] = [];
        frame_command(get_receive_antenna_id_bytes(), &none)
    }

    pub open spec fn spec_parse_response(bytes: Seq<u8>) -> Result<bool, Failure> {
        match spec_validate_response(bytes, get_receive_antenna_id(), 1) {
            Ok(v) => spec_bool_1_0(v[0]),
            Err(f) => Err(f),
        }
    }

    pub fn parse(&self, bytes: &[u8]) -> (r: Result<bool, RigError>)
        ensures
            agrees(r, Self::spec_parse_response(bytes@)),
    {
        match validate_response(bytes, get_receive_antenna_id_bytes(), 1) {
            Ok(d) => bool_from_ascii_1_0(d[0]),
            Err(e) => Err(e),
        }
    }
}

/// A `GetReceiveAntenna` reply whose value byte is `1` reads as `true`, `0` as `false`; any other byte is a
/// `ParseBoolean` error.
pub proof fn lemma_get_receive_antenna_reply(v: Seq<u8>)
    requires
        v.len() == 1,
    ensures
        v[0] == 0x31 ==> GetReceiveAntenna::spec_parse_response(frame(get_receive_antenna_id(), v)) == Ok::<bool, Failure>(true),
        v[0] == 0x30 ==> GetReceiveAntenna::spec_parse_response(frame(get_receive_antenna_id(), v)) == Ok::<bool, Failure>(false),
        v[0] != 0x30 && v[0] != 0x31 ==> GetReceiveAntenna::spec_parse_response(frame(get_receive_antenna_id(), v)) == Err::<bool, Failure>(Failure::Boolean(v[0])),
{
    lemma_framed_value_reads_back(get_receive_antenna_id(), v);
}

/// `AR`
pub open spec fn set_receive_antenna_id() -> Seq<u8> {
    seq![0x41, 0x52]
}

fn set_receive_antenna_id_bytes() -> (r: &'static [u8])
    ensures
        r@ == set_receive_antenna_id(),
{
    &[0x41, 0x52]
}

/// Set Receive-only antenna (K3/K3S only).
#[derive(Clone, Copy, Debug, PartialEq, Eq)]
pub struct SetReceiveAntenna {
    pub rx_only: bool,
}

impl SetReceiveAntenna {
    pub open spec fn spec_args(self) -> Seq<u8> {
        seq![if self.rx_only { ASCII_DIGIT_ONE } else { ASCII_DIGIT_ZERO }]
    }

    pub fn to_bytes(&self) -> (r: Vec<u8>)
        ensures
            r@ == frame(set_receive_antenna_id(), self.spec_args()),
    {
        let args: [u8; 1] = [if self.rx_only { ASCII_DIGIT_ONE } else { ASCII_DIGIT_ZERO }];
        assert(args@ =~= self.spec_args());
        frame_command(set_receive_antenna_id_bytes(), &args)
    }
}

/// `SetReceiveAntenna` sends `1` when `rx_only` is set and `0` when it is clear.
pub proof fn lemma_set_receive_antenna_argument(s: SetReceiveAntenna)
    ensures
        s.rx_only ==> s.spec_args() == seq![0x31u8],
        !s.rx_only ==> s.spec_args() == seq![0x30u8],
{
}

/// `BG`
pub open spec fn get_bargraph_value_id() -> Seq<u8> {
    seq![0x42, 0x47]
}

fn get_bargraph_value_id_bytes() -> (r: &'static [u8])
    ensures
        r@ == get_bargraph_value_id(),
{
    &[0x42, 0x47]
}

/// Get the bargraph meter value (`BG`).
#[derive(Clone, Copy, Debug, PartialEq, Eq)]
pub struct GetBargraphValue;

impl GetBargraphValue {
    pub fn to_bytes(&self) -> (r: Vec<u8>)
        ensures
            r@ == frame(get_bargraph_value_id(), seq![]),
    {
        let none: [u8; 0] = [];
        frame_command(get_bargraph_value_id_bytes(), &none)
    }

    pub open spec fn spec_parse_response(bytes: Seq<u8>) -> Result<u8, Failure> {
        match spec_validate_response(bytes, get_bargraph_value_id(), 2) {
            Ok(v) => spec_u8_field(v),
            Err(f) => Err(f),
        }
    }

    pub fn parse(&self, bytes: &[u8]) -> (r: Result<u8, RigError>)
        ensures
            agrees(r, Self::spec_parse_response(bytes@)),
    {
        match validate_response(bytes, get_bargraph_value_id_bytes(), 2) {
            Ok(d) => {
                proof {
                    lemma_leading_value_bound(d@);
                    lemma_pow10_values();
                }
                u8_from_ascii(d)
            },
            Err(e) => Err(e),
        }
    }
}

/// A `GetBargraphValue` reply of 2 value bytes reads as the decimal number they spell; a value with a
/// byte that is not a digit is an `InvalidResponseData` error holding the value.
pub proof fn lemma_get_bargraph_value_reply(v: Seq<u8>)
    requires
        v.len() == 2,
    ensures
        all_digits(v) && digits_value(v) <= 255 ==> GetBargraphValue::spec_parse_response(frame(get_bargraph_value_id(), v)) == Ok::<u8, Failure>(digits_value(v) as u8),
        !all_digits(v) ==> GetBargraphValue::spec_parse_response(frame(get_bargraph_value_id(), v)) == Err::<u8, Failure>(Failure::ResponseData(v)),
{
    lemma_framed_value_reads_back(get_bargraph_value_id(), v);
}

/// `BR`
pub open spec fn set_baud_rate_id() -> Seq<u8> {
    seq![0x42, 0x52]
}

fn set_baud_rate_id_bytes() -> (r: &'static [u8])
    ensures
        r@ == set_baud_rate_id(),
{
    &[0x42, 0x52]
}

/// Set RS-232 baud rate (`BR`).
#[derive(Clone, Copy, Debug, PartialEq, Eq)]
pub struct SetBaudRate {
    pub rate: BaudRate,
}

impl SetBaudRate {
    pub open spec fn spec_args(self) -> Seq<u8> {
        seq![self.rate.spec_byte()]
    }

    pub fn to_bytes(&self) -> (r: Vec<u8>)
        ensures
            r@ == frame(set_baud_rate_id(), self.spec_args()),
    {
        let args: [u8; 1] = [self.rate.as_byte()];
        assert(args@ =~= self.spec_args());
        frame_command(set_baud_rate_id_bytes(), &args)
    }
}

/// `SetBaudRate` sends exactly one byte, the wire byte of `rate`.
pub proof fn lemma_set_baud_rate_argument(s: SetBaudRate)
    ensures
        s.spec_args().len() == 1,
        s.spec_args()[0] == s.rate.spec_byte(),
{
}

/// `BW`
pub open spec fn get_vfo_a_filter_bandwidth_id() -> Seq<u8> {
    seq![0x42, 0x57]
}

fn get_vfo_a_filter_bandwidth_id_bytes() -> (r: &'static [u8])
    ensures
        r@ == get_vfo_a_filter_bandwidth_id(),
{
    &[0x42, 0x57]
}

/// Get active filter bandwidth for VFO A, in units of 10 Hz (`BW`).
#[derive(Clone, Copy, Debug, PartialEq, Eq)]
pub struct GetVfoAFilterBandwidth;

impl GetVfoAFilterBandwidth {
    pub fn to_bytes(&self) -> (r: Vec<u8>)
        ensures
            r@ == frame(get_vfo_a_filter_bandwidth_id(), seq![]),
    {
        let none: [u8; 0] = [];
        frame_command(get_vfo_a_filter_bandwidth_id_bytes(), &none)
    }

    pub open spec fn spec_parse_response(bytes: Seq<u8>) -> Result<u16, Failure> {
        match spec_validate_response(bytes, get_vfo_a_filter_bandwidth_id(), 4) {
            Ok(v) => spec_u16_field(v),
            Err(f) => Err(f),
        }
    }

    pub fn parse(&self, bytes: &[u8]) -> (r: Result<u16, RigError>)
        ensures
            agrees(r, Self::spec_parse_response(bytes@)),
    {
        match validate_response(bytes, get_vfo_a_filter_bandwidth_id_bytes(), 4) {
            Ok(d) => {
                proof {
                    lemma_leading_value_bound(d@);
                    lemma_pow10_values();
                }
                u16_from_ascii(d)
            },
            Err(e) => Err(e),
        }
    }
}

/// A `GetVfoAFilterBandwidth` reply of 4 value bytes reads as the decimal number they spell; a value with a
/// byte that is not a digit is an `InvalidResponseData` error holding the value.
pub proof fn lemma_get_vfo_a_filter_bandwidth_reply(v: Seq<u8>)
    requires
        v.len() == 4,
    ensures
        all_digits(v) && digits_value(v) <= u16::MAX ==> GetVfoAFilterBandwidth::spec_parse_response(frame(get_vfo_a_filter_bandwidth_id(), v)) == Ok::<u16, Failure>(digits_value(v) as u16),
        !all_digits(v) ==> GetVfoAFilterBandwidth::spec_parse_response(frame(get_vfo_a_filter_bandwidth_id(), v)) == Err::<u16, Failure>(Failure::ResponseData(v)),
{
    lemma_framed_value_reads_back(get_vfo_a_filter_bandwidth_id(), v);
}

/// `BW$`
pub open spec fn get_vfo_b_filter_bandwidth_id() -> Seq<u8> {
    seq![0x42, 0x57, 0x24]
}

fn get_vfo_b_filter_bandwidth_id_bytes() -> (r: &'static [u8])
    ensures
        r@ == get_vfo_b_filter_bandwidth_id(),
{
    &[0x42, 0x57, 0x24]
}

/// Get active filter bandwidth for VFO B, in units of 10 Hz (`BW$`).
#[derive(Clone, Copy, Debug, PartialEq, Eq)]
pub struct GetVfoBFilterBandwidth;

impl GetVfoBFilterBandwidth {
    pub fn to_bytes(&self) -> (r: Vec<u8>)
        ensures
            r@ == frame(get_vfo_b_filter_bandwidth_id(), seq![]),
    {
        let none: [u8; 0] = [];
        frame_command(get_vfo_b_filter_bandwidth_id_bytes(), &none)
    }

    pub open spec fn spec_parse_response(bytes: Seq<u8>) -> Result<u16, Failure> {
        match spec_validate_response(bytes, get_vfo_b_filter_bandwidth_id(), 4) {
            Ok(v) => spec_u16_field(v),
            Err(f) => Err(f),
        }
    }

    pub fn parse(&self, bytes: &[u8]) -> (r: Result<u16, RigError>)
        ensures
            agrees(r, Self::spec_parse_response(bytes@)),
    {
        match validate_response(bytes, get_vfo_b_filter_bandwidth_id_bytes(), 4) {
            Ok(d) => {
                proof {
                    lemma_leading_value_bound(d@);
                    lemma_pow10_values();
                }
                u16_from_ascii(d)
            },
            Err(e) => Err(e),
        }
    }
}

/// A `GetVfoBFilterBandwidth` reply of 4 value bytes reads as the decimal number they spell; a value with a
/// byte that is not a digit is an `InvalidResponseData` error holding the value.
pub proof fn lemma_get_vfo_b_filter_bandwidth_reply(v: Seq<u8>)
    requires
        v.len() == 4,
    ensures
        all_digits(v) && digits_value(v) <= u16::MAX ==> GetVfoBFilterBandwidth::spec_parse_response(frame(get_vfo_b_filter_bandwidth_id(), v)) == Ok::<u16, Failure>(digits_value(v) as u16),
        !all_digits(v) ==> GetVfoBFilterBandwidth::spec_parse_response(frame(get_vfo_b_filter_bandwidth_id(), v)) == Err::<u16, Failure>(Failure::ResponseData(v)),
{
    lemma_framed_value_reads_back(get_vfo_b_filter_bandwidth_id(), v);
}

/// `BW`
pub open spec fn set_vfo_a_filter_bandwidth_id() -> Seq<u8> {
    seq![0x42, 0x57]
}

fn set_vfo_a_filter_bandwidth_id_bytes() -> (r: &'static [u8])
    ensures
        r@ == set_vfo_a_filter_bandwidth_id(),
{
    &[0x42, 0x57]
}

/// Set active filter bandwidth for VFO A, in units of 10 Hz (`BW`).
#[derive(Clone, Copy, Debug, PartialEq, Eq)]
pub struct SetVfoAFilterBandwidth {
    pub bandwidth_10hz: u16,
}

impl SetVfoAFilterBandwidth {
    pub open spec fn spec_args(self) -> Seq<u8> {
        padded_decimal(self.bandwidth_10hz as nat, 4)
    }

    pub fn to_bytes(&self) -> (r: Vec<u8>)
        ensures
            r@ == frame(set_vfo_a_filter_bandwidth_id(), self.spec_args()),
    {
        let args = format_uint_ascii(self.bandwidth_10hz as u64, 4);
        frame_command(set_vfo_a_filter_bandwidth_id_bytes(), args.as_slice())
    }
}

/// `SetVfoAFilterBandwidth` sends `bandwidth_10hz` as decimal digits, zero-padded to 4 digits when it fits in 4.
pub proof fn lemma_set_vfo_a_filter_bandwidth_argument(s: SetVfoAFilterBandwidth)
    ensures
        all_digits(s.spec_args()),
        digits_value(s.spec_args()) == s.bandwidth_10hz,
        (s.bandwidth_10hz as nat) < pow10(4) ==> s.spec_args().len() == 4,
        s.spec_args().len() >= 4,
{
    lemma_padded_decimal_value(s.bandwidth_10hz as nat, 4);
    if (s.bandwidth_10hz as nat) < pow10(4) {
        lemma_num_digits_le(s.bandwidth_10hz as nat, 4);
    }
}

/// `BW$`
pub open spec fn set_vfo_b_filter_bandwidth_id() -> Seq<u8> {
    seq![0x42, 0x57, 0x24]
}

fn set_vfo_b_filter_bandwidth_id_bytes() -> (r: &'static [u8])
    ensures
        r@ == set_vfo_b_filter_bandwidth_id(),
{
    &[0x42, 0x57, 0x24]
}

/// Set active filter bandwidth for VFO B, in units of 10 Hz (`BW$`).
#[derive(Clone, Copy, Debug, PartialEq, Eq)]
pub struct SetVfoBFilterBandwidth {
    pub bandwidth_10hz: u16,
}

impl SetVfoBFilterBandwidth {
    pub open spec fn spec_args(self) -> Seq<u8> {
        padded_decimal(self.bandwidth_10hz as nat, 4)
    }

    pub fn to_bytes(&self) -> (r: Vec<u8>)
        ensures
            r@ == frame(set_vfo_b_filter_bandwidth_id(), self.spec_args()),
    {
        let args = format_uint_ascii(self.bandwidth_10hz as u64, 4);
        frame_command(set_vfo_b_filter_bandwidth_id_bytes(), args.as_slice())
    }
}

/// `SetVfoBFilterBandwidth` sends `bandwidth_10hz` as decimal digits, zero-padded to 4 digits when it fits in 4.
pub proof fn lemma_set_vfo_b_filter_bandwidth_argument(s: SetVfoBFilterBandwidth)
    ensures
        all_digits(s.spec_args()),
        digits_value(s.spec_args()) == s.bandwidth_10hz,
        (s.bandwidth_10hz as nat) < pow10(4) ==> s.spec_args().len() == 4,
        s.spec_args().len() >= 4,
{
    lemma_padded_decimal_value(s.bandwidth_10hz as nat, 4);
    if (s.bandwidth_10hz as nat) < pow10(4) {
        lemma_num_digits_le(s.bandwidth_10hz as nat, 4);
    }
}

/// `CP`
pub open spec fn get_speech_compression_id() -> Seq<u8> {
    seq![0x43, 0x50]
}

fn get_speech_compression_id_bytes() -> (r: &'static [u8])
    ensures
        r@ == get_speech_compression_id(),
{
    &[0x43, 0x50]
}

/// Get speech compression level (`CP`).
#[derive(Clone, Copy, Debug, PartialEq, Eq)]
pub struct GetSpeechCompression;

impl GetSpeechCompression {
    pub fn to_bytes(&self) -> (r: Vec<u8>)
        ensures
            r@ == frame(get_speech_compression_id(), seq![]),
    {
        let none: [u8; 0] = [];
        frame_command(get_speech_compression_id_bytes(), &none)
    }

    pub open spec fn spec_parse_response(bytes: Seq<u8>) -> Result<u8, Failure> {
        match spec_validate_response(bytes, get_speech_compression_id(), 3) {
            Ok(v) => spec_u8_field(v),
            Err(f) => Err(f),
        }
    }

    /// Reads the digits of a framed reply; a value above 255 is outside the domain.
    pub fn parse(&self, bytes: &[u8]) -> (r: Result<u8, RigError>)
        requires
            spec_validate_response(bytes@, get_speech_compression_id(), 3) matches Ok(v) ==> leading_value(v) <= u8::MAX,
        ensures
            agrees(r, Self::spec_parse_response(bytes@)),
    {
        match validate_response(bytes, get_speech_compression_id_bytes(), 3) {
            Ok(d) => {
                proof {
                    lemma_leading_value_bound(d@);
                    lemma_pow10_values();
                }
                u8_from_ascii(d)
            },
            Err(e) => Err(e),
        }
    }
}

/// A `GetSpeechCompression` reply of 3 value bytes reads as the decimal number they spell; a value with a
/// byte that is not a digit is an `InvalidResponseData` error holding the value.
pub proof fn lemma_get_speech_compression_reply(v: Seq<u8>)
    requires
        v.len() == 3,
    ensures
        all_digits(v) && digits_value(v) <= 255 ==> GetSpeechCompression::spec_parse_response(frame(get_speech_compression_id(), v)) == Ok::<u8, Failure>(digits_value(v) as u8),
        !all_digits(v) ==> GetSpeechCompression::spec_parse_response(frame(get_speech_compression_id(), v)) == Err::<u8, Failure>(Failure::ResponseData(v)),
{
    lemma_framed_value_reads_back(get_speech_compression_id(), v);
}

/// `CW`
pub open spec fn get_cw_sidetone_pitch_id() -> Seq<u8> {
    seq![0x43, 0x57]
}

fn get_cw_sidetone_pitch_id_bytes() -> (r: &'static [u8])
    ensures
        r@ == get_cw_sidetone_pitch_id(),
{
    &[0x43, 0x57]
}

/// Get CW sidetone pitch in Hz (`CW`).
#[derive(Clone, Copy, Debug, PartialEq, Eq)]
pub struct GetCwSidetonePitch;

impl GetCwSidetonePitch {
    pub fn to_bytes(&self) -> (r: Vec<u8>)
        ensures
            r@ == frame(get_cw_sidetone_pitch_id(), seq![]),
    {
        let none: [u8; 0] = [];
        frame_command(get_cw_sidetone_pitch_id_bytes(), &none)
    }

    pub open spec fn spec_parse_response(bytes: Seq<u8>) -> Result<u16, Failure> {
        match spec_validate_response(bytes, get_cw_sidetone_pitch_id(), 2) {
            Ok(v) => spec_u16_field(v),
            Err(f) => Err(f),
        }
    }

    pub fn parse(&self, bytes: &[u8]) -> (r: Result<u16, RigError>)
        ensures
            agrees(r, Self::spec_parse_response(bytes@)),
    {
        match validate_response(bytes, get_cw_sidetone_pitch_id_bytes(), 2) {
            Ok(d) => {
                proof {
                    lemma_leading_value_bound(d@);
                    lemma_pow10_values();
                }
                u16_from_ascii(d)
            },
            Err(e) => Err(e),
        }
    }
}

/// A `GetCwSidetonePitch` reply of 2 value bytes reads as the decimal number they spell; a value with a
/// byte that is not a digit is an `InvalidResponseData` error holding the value.
pub proof fn lemma_get_cw_sidetone_pitch_reply(v: Seq<u8>)
    requires
        v.len() == 2,
    ensures
        all_digits(v) && digits_value(v) <= u16::MAX ==> GetCwSidetonePitch::spec_parse_response(frame(get_cw_sidetone_pitch_id(), v)) == Ok::<u16, Failure>(digits_value(v) as u16),
        !all_digits(v) ==> GetCwSidetonePitch::spec_parse_response(frame(get_cw_sidetone_pitch_id(), v)) == Err::<u16, Failure>(Failure::ResponseData(v)),
{
    lemma_framed_value_reads_back(get_cw_sidetone_pitch_id(), v);
}

/// `DB`
pub open spec fn get_vfo_b_display_text_id() -> Seq<u8> {
    seq![0x44, 0x42]
}

fn get_vfo_b_display_text_id_bytes() -> (r: &'static [u8])
    ensures
        r@ == get_vfo_b_display_text_id(),
{
    &[0x44, 0x42]
}

/// Get/Read VFO B display text (`DB`).
#[derive(Clone, Copy, Debug, PartialEq, Eq)]
pub struct GetVfoBDisplayText;

impl GetVfoBDisplayText {
    pub fn to_bytes(&self) -> (r: Vec<u8>)
        ensures
            r@ == frame(get_vfo_b_display_text_id(), seq![]),
    {
        let none: [u8; 0] = [];
        frame_command(get_vfo_b_display_text_id_bytes(), &none)
    }

    /// The value bytes of a framed reply.
    pub fn parse(&self, bytes: &[u8]) -> (r: Result<Vec<u8>, RigError>)
        ensures
            match spec_validate_response(bytes@, get_vfo_b_display_text_id(), 8) {
                Ok(v) => r matches Ok(d) && d@ == v,
                Err(f) => r matches Err(e) && e.fails_with(f),
            },
    {
        match validate_response(bytes, get_vfo_b_display_text_id_bytes(), 8) {
            Ok(d) => bytes_to_vec(d),
            Err(e) => Err(e),
        }
    }
}

/// `DE`
pub open spec fn set_command_processing_delay_id() -> Seq<u8> {
    seq![0x44, 0x45]
}

fn set_command_processing_delay_id_bytes() -> (r: &'static [u8])
    ensures
        r@ == set_command_processing_delay_id(),
{
    &[0x44, 0x45]
}

/// Set command processing delay in units of 10 ms (`DE`).
#[derive(Clone, Copy, Debug, PartialEq, Eq)]
pub struct SetCommandProcessingDelay {
    pub delay_5ms: u8,
}

impl SetCommandProcessingDelay {
    /// The values the command accepts.
    pub open spec fn spec_in_range(self) -> bool {
        self.delay_5ms <= 99
    }

    /// The argument bytes.
    pub open spec fn spec_args(self) -> Seq<u8> {
        uint_args(self.delay_5ms as u32, 3)
    }

    /// The command, or `InvalidArgumentValue` for a value out of range.
    pub fn to_bytes(&self) -> (r: Result<Vec<u8>, RigError>)
        ensures
            self.spec_in_range() ==> (r matches Ok(b) && b@ == frame(set_command_processing_delay_id(), self.spec_args())),
            !self.spec_in_range() ==> (r matches Err(e) && e.fails_with(
                Failure::ArgumentValue("delay_5ms"@, "u8"@, decimal_string(self.delay_5ms as int)),
            )),
    {
        encode_uint_in_range(set_command_processing_delay_id_bytes(), "delay_5ms", "u8", self.delay_5ms as u32, 0, 99, 3)
    }
}

/// `SetCommandProcessingDelay` accepts `delay_5ms` when `s.delay_5ms <= 99` and sends it as decimal digits, zero-padded to 3.
pub proof fn lemma_set_command_processing_delay_argument(s: SetCommandProcessingDelay)
    ensures
        s.spec_in_range() == (s.delay_5ms <= 99),
        all_digits(s.spec_args()),
        digits_value(s.spec_args()) == s.delay_5ms,
        (s.delay_5ms as nat) < pow10(3) ==> s.spec_args().len() == 3,
{
    lemma_padded_decimal_value(s.delay_5ms as nat, 3);
    if (s.delay_5ms as nat) < pow10(3) {
        lemma_num_digits_le(s.delay_5ms as nat, 3);
    }
}

/// `DT`
pub open spec fn get_data_sub_mode_id() -> Seq<u8> {
    seq![0x44, 0x54]
}

fn get_data_sub_mode_id_bytes() -> (r: &'static [u8])
    ensures
        r@ == get_data_sub_mode_id(),
{
    &[0x44, 0x54]
}

/// Get DATA sub-mode (`DT`).
#[derive(Clone, Copy, Debug, PartialEq, Eq)]
pub struct GetDataSubMode;

impl GetDataSubMode {
    pub fn to_bytes(&self) -> (r: Vec<u8>)
        ensures
            r@ == frame(get_data_sub_mode_id(), seq![]),
    {
        let none: [u8; 0] = [];
        frame_command(get_data_sub_mode_id_bytes(), &none)
    }

    /// What `parse` gives for a response: the value of its one byte, or `InvalidResponseData`
    /// holding the value.
    pub open spec fn spec_parse_response(bytes: Seq<u8>) -> Result<DataSubMode, Failure> {
        match spec_validate_response(bytes, get_data_sub_mode_id(), 1) {
            Ok(v) => match DataSubMode::spec_from_byte(v[0]) {
                Some(x) => Ok(x),
                None => Err(Failure::ResponseData(v)),
            },
            Err(f) => Err(f),
        }
    }

    pub fn parse(&self, bytes: &[u8]) -> (r: Result<DataSubMode, RigError>)
        ensures
            agrees(r, Self::spec_parse_response(bytes@)),
    {
        match validate_response(bytes, get_data_sub_mode_id_bytes(), 1) {
            Ok(d) => match DataSubMode::from_repr(d[0]) {
                Some(x) => Ok(x),
                None => Err(invalid_response_data(d)),
            },
            Err(e) => Err(e),
        }
    }
}

/// A `GetDataSubMode` reply reads as the `DataSubMode` whose wire byte is its value byte; a byte that names no
/// variant is an `InvalidResponseData` error holding the value.
pub proof fn lemma_get_data_sub_mode_reply(v: Seq<u8>)
    requires
        v.len() == 1,
    ensures
        GetDataSubMode::spec_parse_response(frame(get_data_sub_mode_id(), v)) matches Ok(m) ==> m.spec_byte() == v[0],
        DataSubMode::spec_from_byte(v[0]) is Some ==> GetDataSubMode::spec_parse_response(frame(get_data_sub_mode_id(), v)) is Ok,
        DataSubMode::spec_from_byte(v[0]) is None ==> GetDataSubMode::spec_parse_response(frame(get_data_sub_mode_id(), v)) == Err::<DataSubMode, Failure>(Failure::ResponseData(v)),
{
    lemma_framed_value_reads_back(get_data_sub_mode_id(), v);
}

/// `DT`
pub open spec fn set_data_sub_mode_id() -> Seq<u8> {
    seq![0x44, 0x54]
}

fn set_data_sub_mode_id_bytes() -> (r: &'static [u8])
    ensures
        r@ == set_data_sub_mode_id(),
{
    &[0x44, 0x54]
}

/// Set DATA sub-mode (`DT`).
#[derive(Clone, Copy, Debug, PartialEq, Eq)]
pub struct SetDataSubMode {
    pub sub_mode: DataSubMode,
}

impl SetDataSubMode {
    pub open spec fn spec_args(self) -> Seq<u8> {
        seq![self.sub_mode.spec_byte()]
    }

    pub fn to_bytes(&self) -> (r: Vec<u8>)
        ensures
            r@ == frame(set_data_sub_mode_id(), self.spec_args()),
    {
        let args: [u8; 1] = [self.sub_mode.as_byte()];
        assert(args@ =~= self.spec_args());
        frame_command(set_data_sub_mode_id_bytes(), &args)
    }
}

/// `SetDataSubMode` sends exactly one byte, the wire byte of `sub_mode`.
pub proof fn lemma_set_data_sub_mode_argument(s: SetDataSubMode)
    ensures
        s.spec_args().len() == 1,
        s.spec_args()[0] == s.sub_mode.spec_byte(),
{
}

/// `DV`
pub open spec fn get_diversity_mode_id() -> Seq<u8> {
    seq![0x44, 0x56]
}

fn get_diversity_mode_id_bytes() -> (r: &'static [u8])
    ensures
        r@ == get_diversity_mode_id(),
{
    &[0x44, 0x56]
}

/// Get Diversity receive mode (`DV`).
#[derive(Clone, Copy, Debug, PartialEq, Eq)]
pub struct GetDiversityMode;

impl GetDiversityMode {
    pub fn to_bytes(&self) -> (r: Vec<u8>)
        ensures
            r@ == frame(get_diversity_mode_id(), seq![]),
    {
        let none: [u8; 0] = [];
        frame_command(get_diversity_mode_id_bytes(), &none)
    }

    /// What `parse` gives for a response: the value of its one byte, or `InvalidResponseData`
    /// holding the value.
    pub open spec fn spec_parse_response(bytes: Seq<u8>) -> Result<DiversityModeState, Failure> {
        match spec_validate_response(bytes, get_diversity_mode_id(), 1) {
            Ok(v) => match DiversityModeState::spec_from_byte(v[0]) {
                Some(x) => Ok(x),
                None => Err(Failure::ResponseData(v)),
            },
            Err(f) => Err(f),
        }
    }

    pub fn parse(&self, bytes: &[u8]) -> (r: Result<DiversityModeState, RigError>)
        ensures
            agrees(r, Self::spec_parse_response(bytes@)),
    {
        match validate_response(bytes, get_diversity_mode_id_bytes(), 1) {
            Ok(d) => match DiversityModeState::from_repr(d[0]) {
                Some(x) => Ok(x),
                None => Err(invalid_response_data(d)),
            },
            Err(e) => Err(e),
        }
    }
}

/// A `GetDiversityMode` reply reads as the `DiversityModeState` whose wire byte is its value byte; a byte that names no
/// variant is an `InvalidResponseData` error holding the value.
pub proof fn lemma_get_diversity_mode_reply(v: Seq<u8>)
    requires
        v.len() == 1,
    ensures
        GetDiversityMode::spec_parse_response(frame(get_diversity_mode_id(), v)) matches Ok(m) ==> m.spec_byte() == v[0],
        DiversityModeState::spec_from_byte(v[0]) is Some ==> GetDiversityMode::spec_parse_response(frame(get_diversity_mode_id(), v)) is Ok,
        DiversityModeState::spec_from_byte(v[0]) is None ==> GetDiversityMode::spec_parse_response(frame(get_diversity_mode_id(), v)) == Err::<DiversityModeState, Failure>(Failure::ResponseData(v)),
{
    lemma_framed_value_reads_back(get_diversity_mode_id(), v);
}

/// `DV`
pub open spec fn set_diversity_mode_id() -> Seq<u8> {
    seq![0x44, 0x56]
}

fn set_diversity_mode_id_bytes() -> (r: &'static [u8])
    ensures
        r@ == set_diversity_mode_id(),
{
    &[0x44, 0x56]
}

/// Set Diversity receive mode (`DV`).
#[derive(Clone, Copy, Debug, PartialEq, Eq)]
pub struct SetDiversityMode {
    pub state: DiversityModeState,
}

impl SetDiversityMode {
    pub open spec fn spec_args(self) -> Seq<u8> {
        seq![self.state.spec_byte()]
    }

    pub fn to_bytes(&self) -> (r: Vec<u8>)
        ensures
            r@ == frame(set_diversity_mode_id(), self.spec_args()),
    {
        let args: [u8; 1] = [self.state.as_byte()];
        assert(args@ =~= self.spec_args());
        frame_command(set_diversity_mode_id_bytes(), &args)
    }
}

/// `SetDiversityMode` sends exactly one byte, the wire byte of `state`.
pub proof fn lemma_set_diversity_mode_argument(s: SetDiversityMode)
    ensures
        s.spec_args().len() == 1,
        s.spec_args()[0] == s.state.spec_byte(),
{
}

/// `EL`
pub open spec fn set_error_logging_id() -> Seq<u8> {
    seq![0x45, 0x4C]
}

fn set_error_logging_id_bytes() -> (r: &'static [u8])
    ensures
        r@ == set_error_logging_id(),
{
    &[0x45, 0x4C]
}

/// Set error logging (`EL`) on/off state.
#[derive(Clone, Copy, Debug, PartialEq, Eq)]
pub struct SetErrorLogging {
    pub state: bool,
}

impl SetErrorLogging {
    pub open spec fn spec_args(self) -> Seq<u8> {
        seq![if self.state { ASCII_DIGIT_ONE } else { ASCII_DIGIT_ZERO }]
    }

    pub fn to_bytes(&self) -> (r: Vec<u8>)
        ensures
            r@ == frame(set_error_logging_id(), self.spec_args()),
    {
        let args: [u8; 1] = [if self.state { ASCII_DIGIT_ONE } else { ASCII_DIGIT_ZERO }];
        assert(args@ =~= self.spec_args());
        frame_command(set_error_logging_id_bytes(), &args)
    }
}

/// `SetErrorLogging` sends `1` when `state` is set and `0` when it is clear.
pub proof fn lemma_set_error_logging_argument(s: SetErrorLogging)
    ensures
        s.state ==> s.spec_args() == seq![0x31u8],
        !s.state ==> s.spec_args() == seq![0x30u8],
{
}

/// `ES`
pub open spec fn get_essb_mode_id() -> Seq<u8> {
    seq![0x45, 0x53]
}

fn get_essb_mode_id_bytes() -> (r: &'static [u8])
    ensures
        r@ == get_essb_mode_id(),
{
    &[0x45, 0x53]
}

/// Get Enhanced SSB (ESSB) transmit mode on/off state (`ES`).
#[derive(Clone, Copy, Debug, PartialEq, Eq)]
pub struct GetEssbMode;

impl GetEssbMode {
    pub fn to_bytes(&self) -> (r: Vec<u8>)
        ensures
            r@ == frame(get_essb_mode_id(), seq![]),
    {
        let none: [u8; 0] = [];
        frame_command(get_essb_mode_id_bytes(), &none)
    }

    pub open spec fn spec_parse_response(bytes: Seq<u8>) -> Result<bool, Failure> {
        match spec_validate_response(bytes, get_essb_mode_id(), 1) {
            Ok(v) => spec_bool_1_0(v[0]),
            Err(f) => Err(f),
        }
    }

    pub fn parse(&self, bytes: &[u8]) -> (r: Result<bool, RigError>)
        ensures
            agrees(r, Self::spec_parse_response(bytes@)),
    {
        match validate_response(bytes, get_essb_mode_id_bytes(), 1) {
            Ok(d) => bool_from_ascii_1_0(d[0]),
            Err(e) => Err(e),
        }
    }
}

/// A `GetEssbMode` reply whose value byte is `1` reads as `true`, `0` as `false`; any other byte is a
/// `ParseBoolean` error.
pub proof fn lemma_get_essb_mode_reply(v: Seq<u8>)
    requires
        v.len() == 1,
    ensures
        v[0] == 0x31 ==> GetEssbMode::spec_parse_response(frame(get_essb_mode_id(), v)) == Ok::<bool, Failure>(true),
        v[0] == 0x30 ==> GetEssbMode::spec_parse_response(frame(get_essb_mode_id(), v)) == Ok::<bool, Failure>(false),
        v[0] != 0x30 && v[0] != 0x31 ==> GetEssbMode::spec_parse_response(frame(get_essb_mode_id(), v)) == Err::<bool, Failure>(Failure::Boolean(v[0])),
{
    lemma_framed_value_reads_back(get_essb_mode_id(), v);
}

/// `ES`
pub open spec fn set_essb_mode_id() -> Seq<u8> {
    seq![0x45, 0x53]
}

fn set_essb_mode_id_bytes() -> (r: &'static [u8])
    ensures
        r@ == set_essb_mode_id(),
{
    &[0x45, 0x53]
}

/// Set Enhanced SSB (ESSB) transmit mode on/off state (`ES`).
#[derive(Clone, Copy, Debug, PartialEq, Eq)]
pub struct SetEssbMode {
    pub state: bool,
}

impl SetEssbMode {
    pub open spec fn spec_args(self) -> Seq<u8> {
        seq![if self.state { ASCII_DIGIT_ONE } else { ASCII_DIGIT_ZERO }]
    }

    pub fn to_bytes(&self) -> (r: Vec<u8>)
        ensures
            r@ == frame(set_essb_mode_id(), self.spec_args()),
    {
        let args: [u8; 1] = [if self.state { ASCII_DIGIT_ONE } else { ASCII_DIGIT_ZERO }];
        assert(args@ =~= self.spec_args());
        frame_command(set_essb_mode_id_bytes(), &args)
    }
}

/// `SetEssbMode` sends `1` when `state` is set and `0` when it is clear.
pub proof fn lemma_set_essb_mode_argument(s: SetEssbMode)
    ensures
        s.state ==> s.spec_args() == seq![0x31u8],
        !s.state ==> s.spec_args() == seq![0x30u8],
{
}

/// `FI`
pub open spec fn get_if_center_frequency_id() -> Seq<u8> {
    seq![0x46, 0x49]
}

fn get_if_center_frequency_id_bytes() -> (r: &'static [u8])
    ensures
        r@ == get_if_center_frequency_id(),
{
    &[0x46, 0x49]
}

/// Get Intermediate Frequency (IF) center frequency in Hz (`FI`).
#[derive(Clone, Copy, Debug, PartialEq, Eq)]
pub struct GetIfCenterFrequency;

impl GetIfCenterFrequency {
    pub fn to_bytes(&self) -> (r: Vec<u8>)
        ensures
            r@ == frame(get_if_center_frequency_id(), seq![]),
    {
        let none: [u8; 0] = [];
        frame_command(get_if_center_frequency_id_bytes(), &none)
    }

    pub open spec fn spec_parse_response(bytes: Seq<u8>) -> Result<u16, Failure> {
        match spec_validate_response(bytes, get_if_center_frequency_id(), 4) {
            Ok(v) => spec_u16_field(v),
            Err(f) => Err(f),
        }
    }

    pub fn parse(&self, bytes: &[u8]) -> (r: Result<u16, RigError>)
        ensures
            agrees(r, Self::spec_parse_response(bytes@)),
    {
        match validate_response(bytes, get_if_center_frequency_id_bytes(), 4) {
            Ok(d) => {
                proof {
                    lemma_leading_value_bound(d@);
                    lemma_pow10_values();
                }
                u16_from_ascii(d)
            },
            Err(e) => Err(e),
        }
    }
}

/// A `GetIfCenterFrequency` reply of 4 value bytes reads as the decimal number they spell; a value with a
/// byte that is not a digit is an `InvalidResponseData` error holding the value.
pub proof fn lemma_get_if_center_frequency_reply(v: Seq<u8>)
    requires
        v.len() == 4,
    ensures
        all_digits(v) && digits_value(v) <= u16::MAX ==> GetIfCenterFrequency::spec_parse_response(frame(get_if_center_frequency_id(), v)) == Ok::<u16, Failure>(digits_value(v) as u16),
        !all_digits(v) ==> GetIfCenterFrequency::spec_parse_response(frame(get_if_center_frequency_id(), v)) == Err::<u16, Failure>(Failure::ResponseData(v)),
{
    lemma_framed_value_reads_back(get_if_center_frequency_id(), v);
}

/// `FT`
pub open spec fn get_transmit_vfo_split_mode_state_id() -> Seq<u8> {
    seq![0x46, 0x54]
}

fn get_transmit_vfo_split_mode_state_id_bytes() -> (r: &'static [u8])
    ensures
        r@ == get_transmit_vfo_split_mode_state_id(),
{
    &[0x46, 0x54]
}

/// Get the transmit VFO selection, split mode on/off state (`FT`).
#[derive(Clone, Copy, Debug, PartialEq, Eq)]
pub struct GetTransmitVfoSplitModeState;

impl GetTransmitVfoSplitModeState {
    pub fn to_bytes(&self) -> (r: Vec<u8>)
        ensures
            r@ == frame(get_transmit_vfo_split_mode_state_id(), seq![]),
    {
        let none: [u8; 0] = [];
        frame_command(get_transmit_vfo_split_mode_state_id_bytes(), &none)
    }

    pub open spec fn spec_parse_response(bytes: Seq<u8>) -> Result<bool, Failure> {
        match spec_validate_response(bytes, get_transmit_vfo_split_mode_state_id(), 1) {
            Ok(v) => spec_bool_1_0(v[0]),
            Err(f) => Err(f),
        }
    }

    pub fn parse(&self, bytes: &[u8]) -> (r: Result<bool, RigError>)
        ensures
            agrees(r, Self::spec_parse_response(bytes@)),
    {
        match validate_response(bytes, get_transmit_vfo_split_mode_state_id_bytes(), 1) {
            Ok(d) => bool_from_ascii_1_0(d[0]),
            Err(e) => Err(e),
        }
    }
}

/// A `GetTransmitVfoSplitModeState` reply whose value byte is `1` reads as `true`, `0` as `false`; any other byte is a
/// `ParseBoolean` error.
pub proof fn lemma_get_transmit_vfo_split_mode_state_reply(v: Seq<u8>)
    requires
        v.len() == 1,
    ensures
        v[0] == 0x31 ==> GetTransmitVfoSplitModeState::spec_parse_response(frame(get_transmit_vfo_split_mode_state_id(), v)) == Ok::<bool, Failure>(true),
        v[0] == 0x30 ==> GetTransmitVfoSplitModeState::spec_parse_response(frame(get_transmit_vfo_split_mode_state_id(), v)) == Ok::<bool, Failure>(false),
        v[0] != 0x30 && v[0] != 0x31 ==> GetTransmitVfoSplitModeState::spec_parse_response(frame(get_transmit_vfo_split_mode_state_id(), v)) == Err::<bool, Failure>(Failure::Boolean(v[0])),
{
    lemma_framed_value_reads_back(get_transmit_vfo_split_mode_state_id(), v);
}

/// `FT`
pub open spec fn set_transmit_vfo_split_mode_state_id() -> Seq<u8> {
    seq![0x46, 0x54]
}

fn set_transmit_vfo_split_mode_state_id_bytes() -> (r: &'static [u8])
    ensures
        r@ == set_transmit_vfo_split_mode_state_id(),
{
    &[0x46, 0x54]
}

/// Set the transmit VFO selection, split mode on/off state (`FT`).
#[derive(Clone, Copy, Debug, PartialEq, Eq)]
pub struct SetTransmitVfoSplitModeState {
    pub state: bool,
}

impl SetTransmitVfoSplitModeState {
    pub open spec fn spec_args(self) -> Seq<u8> {
        seq![if self.state { ASCII_DIGIT_ONE } else { ASCII_DIGIT_ZERO }]
    }

    pub fn to_bytes(&self) -> (r: Vec<u8>)
        ensures
            r@ == frame(set_transmit_vfo_split_mode_state_id(), self.spec_args()),
    {
        let args: [u8; 1] = [if self.state { ASCII_DIGIT_ONE } else { ASCII_DIGIT_ZERO }];
        assert(args@ =~= self.spec_args());
        frame_command(set_transmit_vfo_split_mode_state_id_bytes(), &args)
    }
}

/// `SetTransmitVfoSplitModeState` sends `1` when `state` is set and `0` when it is clear.
pub proof fn lemma_set_transmit_vfo_split_mode_state_argument(s: SetTransmitVfoSplitModeState)
    ensures
        s.state ==> s.spec_args() == seq![0x31u8],
        !s.state ==> s.spec_args() == seq![0x30u8],
{
}

/// `FW`
pub open spec fn get_vfo_a_legacy_filter_bandwidth_id() -> Seq<u8> {
    seq![0x46, 0x57]
}

fn get_vfo_a_legacy_filter_bandwidth_id_bytes() -> (r: &'static [u8])
    ensures
        r@ == get_vfo_a_legacy_filter_bandwidth_id(),
{
    &[0x46, 0x57]
}

/// Get filter bandwidth in Hz for VFO A via the K2 legacy command (`FW`).
#[derive(Clone, Copy, Debug, PartialEq, Eq)]
pub struct GetVfoALegacyFilterBandwidth;

impl GetVfoALegacyFilterBandwidth {
    pub fn to_bytes(&self) -> (r: Vec<u8>)
        ensures
            r@ == frame(get_vfo_a_legacy_filter_bandwidth_id(), seq![]),
    {
        let none: [u8; 0] = [];
        frame_command(get_vfo_a_legacy_filter_bandwidth_id_bytes(), &none)
    }

    pub open spec fn spec_parse_response(bytes: Seq<u8>) -> Result<u16, Failure> {
        match spec_validate_response(bytes, get_vfo_a_legacy_filter_bandwidth_id(), 4) {
            Ok(v) => spec_u16_field(v),
            Err(f) => Err(f),
        }
    }

    pub fn parse(&self, bytes: &[u8]) -> (r: Result<u16, RigError>)
        ensures
            agrees(r, Self::spec_parse_response(bytes@)),
    {
        match validate_response(bytes, get_vfo_a_legacy_filter_bandwidth_id_bytes(), 4) {
            Ok(d) => {
                proof {
                    lemma_leading_value_bound(d@);
                    lemma_pow10_values();
                }
                u16_from_ascii(d)
            },
            Err(e) => Err(e),
        }
    }
}

/// A `GetVfoALegacyFilterBandwidth` reply of 4 value bytes reads as the decimal number they spell; a value with a
/// byte that is not a digit is an `InvalidResponseData` error holding the value.
pub proof fn lemma_get_vfo_a_legacy_filter_bandwidth_reply(v: Seq<u8>)
    requires
        v.len() == 4,
    ensures
        all_digits(v) && digits_value(v) <= u16::MAX ==> GetVfoALegacyFilterBandwidth::spec_parse_response(frame(get_vfo_a_legacy_filter_bandwidth_id(), v)) == Ok::<u16, Failure>(digits_value(v) as u16),
        !all_digits(v) ==> GetVfoALegacyFilterBandwidth::spec_parse_response(frame(get_vfo_a_legacy_filter_bandwidth_id(), v)) == Err::<u16, Failure>(Failure::ResponseData(v)),
{
    lemma_framed_value_reads_back(get_vfo_a_legacy_filter_bandwidth_id(), v);
}

/// `FW$`
pub open spec fn get_vfo_b_legacy_filter_bandwidth_id() -> Seq<u8> {
    seq![0x46, 0x57, 0x24]
}

fn get_vfo_b_legacy_filter_bandwidth_id_bytes() -> (r: &'static [u8])
    ensures
        r@ == get_vfo_b_legacy_filter_bandwidth_id(),
{
    &[0x46, 0x57, 0x24]
}

/// Get filter bandwidth in Hz for VFO B via the K2 legacy command(`FW$`).
#[derive(Clone, Copy, Debug, PartialEq, Eq)]
pub struct GetVfoBLegacyFilterBandwidth;

impl GetVfoBLegacyFilterBandwidth {
    pub fn to_bytes(&self) -> (r: Vec<u8>)
        ensures
            r@ == frame(get_vfo_b_legacy_filter_bandwidth_id(), seq![]),
    {
        let none: [u8; 0] = [];
        frame_command(get_vfo_b_legacy_filter_bandwidth_id_bytes(), &none)
    }

    pub open spec fn spec_parse_response(bytes: Seq<u8>) -> Result<u16, Failure> {
        match spec_validate_response(bytes, get_vfo_b_legacy_filter_bandwidth_id(), 4) {
            Ok(v) => spec_u16_field(v),
            Err(f) => Err(f),
        }
    }

    pub fn parse(&self, bytes: &[u8]) -> (r: Result<u16, RigError>)
        ensures
            agrees(r, Self::spec_parse_response(bytes@)),
    {
        match validate_response(bytes, get_vfo_b_legacy_filter_bandwidth_id_bytes(), 4) {
            Ok(d) => {
                proof {
                    lemma_leading_value_bound(d@);
                    lemma_pow10_values();
                }
                u16_from_ascii(d)
            },
            Err(e) => Err(e),
        }
    }
}

/// A `GetVfoBLegacyFilterBandwidth` reply of 4 value bytes reads as the decimal number they spell; a value with a
/// byte that is not a digit is an `InvalidResponseData` error holding the value.
pub proof fn lemma_get_vfo_b_legacy_filter_bandwidth_reply(v: Seq<u8>)
    requires
        v.len() == 4,
    ensures
        all_digits(v) && digits_value(v) <= u16::MAX ==> GetVfoBLegacyFilterBandwidth::spec_parse_response(frame(get_vfo_b_legacy_filter_bandwidth_id(), v)) == Ok::<u16, Failure>(digits_value(v) as u16),
        !all_digits(v) ==> GetVfoBLegacyFilterBandwidth::spec_parse_response(frame(get_vfo_b_legacy_filter_bandwidth_id(), v)) == Err::<u16, Failure>(Failure::ResponseData(v)),
{
    lemma_framed_value_reads_back(get_vfo_b_legacy_filter_bandwidth_id(), v);
}

/// `FW`
pub open spec fn set_vfo_a_legacy_filter_bandwidth_id() -> Seq<u8> {
    seq![0x46, 0x57]
}

fn set_vfo_a_legacy_filter_bandwidth_id_bytes() -> (r: &'static [u8])
    ensures
        r@ == set_vfo_a_legacy_filter_bandwidth_id(),
{
    &[0x46, 0x57]
}

/// Set filter bandwidth in Hz for VFO A via the K2 legacy command (`FW`).
#[derive(Clone, Copy, Debug, PartialEq, Eq)]
pub struct SetVfoALegacyFilterBandwidth {
    pub bandwidth_hz: u16,
}

impl SetVfoALegacyFilterBandwidth {
    pub open spec fn spec_args(self) -> Seq<u8> {
        padded_decimal(self.bandwidth_hz as nat, 4)
    }

    pub fn to_bytes(&self) -> (r: Vec<u8>)
        ensures
            r@ == frame(set_vfo_a_legacy_filter_bandwidth_id(), self.spec_args()),
    {
        let args = format_uint_ascii(self.bandwidth_hz as u64, 4);
        frame_command(set_vfo_a_legacy_filter_bandwidth_id_bytes(), args.as_slice())
    }
}

/// `SetVfoALegacyFilterBandwidth` sends `bandwidth_hz` as decimal digits, zero-padded to 4 digits when it fits in 4.
pub proof fn lemma_set_vfo_a_legacy_filter_bandwidth_argument(s: SetVfoALegacyFilterBandwidth)
    ensures
        all_digits(s.spec_args()),
        digits_value(s.spec_args()) == s.bandwidth_hz,
        (s.bandwidth_hz as nat) < pow10(4) ==> s.spec_args().len() == 4,
        s.spec_args().len() >= 4,
{
    lemma_padded_decimal_value(s.bandwidth_hz as nat, 4);
    if (s.bandwidth_hz as nat) < pow10(4) {
        lemma_num_digits_le(s.bandwidth_hz as nat, 4);
    }
}

/// `FW$`
pub open spec fn set_vfo_b_legacy_filter_bandwidth_id() -> Seq<u8> {
    seq![0x46, 0x57, 0x24]
}

fn set_vfo_b_legacy_filter_bandwidth_id_bytes() -> (r: &'static [u8])
    ensures
        r@ == set_vfo_b_legacy_filter_bandwidth_id(),
{
    &[0x46, 0x57, 0x24]
}

/// Set filter bandwidth in Hz for VFO B via the K2 legacy command (`FW$`).
#[derive(Clone, Copy, Debug, PartialEq, Eq)]
pub struct SetVfoBLegacyFilterBandwidth {
    pub bandwidth_hz: u16,
}

impl SetVfoBLegacyFilterBandwidth {
    pub open spec fn spec_args(self) -> Seq<u8> {
        padded_decimal(self.bandwidth_hz as nat, 4)
    }

    pub fn to_bytes(&self) -> (r: Vec<u8>)
        ensures
            r@ == frame(set_vfo_b_legacy_filter_bandwidth_id(), self.spec_args()),
    {
        let args = format_uint_ascii(self.bandwidth_hz as u64, 4);
        frame_command(set_vfo_b_legacy_filter_bandwidth_id_bytes(), args.as_slice())
    }
}

/// `SetVfoBLegacyFilterBandwidth` sends `bandwidth_hz` as decimal digits, zero-padded to 4 digits when it fits in 4.
pub proof fn lemma_set_vfo_b_legacy_filter_bandwidth_argument(s: SetVfoBLegacyFilterBandwidth)
    ensures
        all_digits(s.spec_args()),
        digits_value(s.spec_args()) == s.bandwidth_hz,
        (s.bandwidth_hz as nat) < pow10(4) ==> s.spec_args().len() == 4,
        s.spec_args().len() >= 4,
{
    lemma_padded_decimal_value(s.bandwidth_hz as nat, 4);
    if (s.bandwidth_hz as nat) < pow10(4) {
        lemma_num_digits_le(s.bandwidth_hz as nat, 4);
    }
}

/// `GT`
pub open spec fn get_agc_time_constant_id() -> Seq<u8> {
    seq![0x47, 0x54]
}

fn get_agc_time_constant_id_bytes() -> (r: &'static [u8])
    ensures
        r@ == get_agc_time_constant_id(),
{
    &[0x47, 0x54]
}

/// Get AGC time constant (`GT`).
#[derive(Clone, Copy, Debug, PartialEq, Eq)]
pub struct GetAgcTimeConstant;

impl GetAgcTimeConstant {
    pub fn to_bytes(&self) -> (r: Vec<u8>)
        ensures
            r@ == frame(get_agc_time_constant_id(), seq![]),
    {
        let none: [u8; 0] = [];
        frame_command(get_agc_time_constant_id_bytes(), &none)
    }

    pub open spec fn spec_parse_response(bytes: Seq<u8>) -> Result<u8, Failure> {
        match spec_validate_response(bytes, get_agc_time_constant_id(), 2) {
            Ok(v) => spec_u8_field(v),
            Err(f) => Err(f),
        }
    }

    pub fn parse(&self, bytes: &[u8]) -> (r: Result<u8, RigError>)
        ensures
            agrees(r, Self::spec_parse_response(bytes@)),
    {
        match validate_response(bytes, get_agc_time_constant_id_bytes(), 2) {
            Ok(d) => {
                proof {
                    lemma_leading_value_bound(d@);
                    lemma_pow10_values();
                }
                u8_from_ascii(d)
            },
            Err(e) => Err(e),
        }
    }
}

/// A `GetAgcTimeConstant` reply of 2 value bytes reads as the decimal number they spell; a value with a
/// byte that is not a digit is an `InvalidResponseData` error holding the value.
pub proof fn lemma_get_agc_time_constant_reply(v: Seq<u8>)
    requires
        v.len() == 2,
    ensures
        all_digits(v) && digits_value(v) <= 255 ==> GetAgcTimeConstant::spec_parse_response(frame(get_agc_time_constant_id(), v)) == Ok::<u8, Failure>(digits_value(v) as u8),
        !all_digits(v) ==> GetAgcTimeConstant::spec_parse_response(frame(get_agc_time_constant_id(), v)) == Err::<u8, Failure>(Failure::ResponseData(v)),
{
    lemma_framed_value_reads_back(get_agc_time_constant_id(), v);
}

/// `MD`
pub open spec fn get_vfo_a_operating_mode_id() -> Seq<u8> {
    seq![0x4D, 0x44]
}

fn get_vfo_a_operating_mode_id_bytes() -> (r: &'static [u8])
    ensures
        r@ == get_vfo_a_operating_mode_id(),
{
    &[0x4D, 0x44]
}

/// Get operating mode for VFO A (`MD`).
#[derive(Clone, Copy, Debug, PartialEq, Eq)]
pub struct GetVfoAOperatingMode;

impl GetVfoAOperatingMode {
    pub fn to_bytes(&self) -> (r: Vec<u8>)
        ensures
            r@ == frame(get_vfo_a_operating_mode_id(), seq![]),
    {
        let none: [u8; 0] = [];
        frame_command(get_vfo_a_operating_mode_id_bytes(), &none)
    }

    /// What `parse` gives for a response: the value of its one byte, or `InvalidResponseData`
    /// holding the value.
    pub open spec fn spec_parse_response(bytes: Seq<u8>) -> Result<OperatingMode, Failure> {
        match spec_validate_response(bytes, get_vfo_a_operating_mode_id(), 1) {
            Ok(v) => match OperatingMode::spec_from_byte(v[0]) {
                Some(x) => Ok(x),
                None => Err(Failure::ResponseData(v)),
            },
            Err(f) => Err(f),
        }
    }

    pub fn parse(&self, bytes: &[u8]) -> (r: Result<OperatingMode, RigError>)
        ensures
            agrees(r, Self::spec_parse_response(bytes@)),
    {
        match validate_response(bytes, get_vfo_a_operating_mode_id_bytes(), 1) {
            Ok(d) => match OperatingMode::from_repr(d[0]) {
                Some(x) => Ok(x),
                None => Err(invalid_response_data(d)),
            },
            Err(e) => Err(e),
        }
    }
}

/// A `GetVfoAOperatingMode` reply reads as the `OperatingMode` whose wire byte is its value byte; a byte that names no
/// variant is an `InvalidResponseData` error holding the value.
pub proof fn lemma_get_vfo_a_operating_mode_reply(v: Seq<u8>)
    requires
        v.len() == 1,
    ensures
        GetVfoAOperatingMode::spec_parse_response(frame(get_vfo_a_operating_mode_id(), v)) matches Ok(m) ==> m.spec_byte() == v[0],
        OperatingMode::spec_from_byte(v[0]) is Some ==> GetVfoAOperatingMode::spec_parse_response(frame(get_vfo_a_operating_mode_id(), v)) is Ok,
        OperatingMode::spec_from_byte(v[0]) is None ==> GetVfoAOperatingMode::spec_parse_response(frame(get_vfo_a_operating_mode_id(), v)) == Err::<OperatingMode, Failure>(Failure::ResponseData(v)),
{
    lemma_framed_value_reads_back(get_vfo_a_operating_mode_id(), v);
}

/// `MD$`
pub open spec fn get_vfo_b_operating_mode_id() -> Seq<u8> {
    seq![0x4D, 0x44, 0x24]
}

fn get_vfo_b_operating_mode_id_bytes() -> (r: &'static [u8])
    ensures
        r@ == get_vfo_b_operating_mode_id(),
{
    &[0x4D, 0x44, 0x24]
}

/// Get operating mode for VFO B receiver (`MD$`).
#[derive(Clone, Copy, Debug, PartialEq, Eq)]
pub struct GetVfoBOperatingMode;

impl GetVfoBOperatingMode {
    pub fn to_bytes(&self) -> (r: Vec<u8>)
        ensures
            r@ == frame(get_vfo_b_operating_mode_id(), seq![]),
    {
        let none: [u8; 0] = [];
        frame_command(get_vfo_b_operating_mode_id_bytes(), &none)
    }

    /// What `parse` gives for a response: the value of its one byte, or `InvalidResponseData`
    /// holding the value.
    pub open spec fn spec_parse_response(bytes: Seq<u8>) -> Result<OperatingMode, Failure> {
        match spec_validate_response(bytes, get_vfo_b_operating_mode_id(), 1) {
            Ok(v) => match OperatingMode::spec_from_byte(v[0]) {
                Some(x) => Ok(x),
                None => Err(Failure::ResponseData(v)),
            },
            Err(f) => Err(f),
        }
    }

    pub fn parse(&self, bytes: &[u8]) -> (r: Result<OperatingMode, RigError>)
        ensures
            agrees(r, Self::spec_parse_response(bytes@)),
    {
        match validate_response(bytes, get_vfo_b_operating_mode_id_bytes(), 1) {
            Ok(d) => match OperatingMode::from_repr(d[0]) {
                Some(x) => Ok(x),
                None => Err(invalid_response_data(d)),
            },
            Err(e) => Err(e),
        }
    }
}

/// A `GetVfoBOperatingMode` reply reads as the `OperatingMode` whose wire byte is its value byte; a byte that names no
/// variant is an `InvalidResponseData` error holding the value.
pub proof fn lemma_get_vfo_b_operating_mode_reply(v: Seq<u8>)
    requires
        v.len() == 1,
    ensures
        GetVfoBOperatingMode::spec_parse_response(frame(get_vfo_b_operating_mode_id(), v)) matches Ok(m) ==> m.spec_byte() == v[0],
        OperatingMode::spec_from_byte(v[0]) is Some ==> GetVfoBOperatingMode::spec_parse_response(frame(get_vfo_b_operating_mode_id(), v)) is Ok,
        OperatingMode::spec_from_byte(v[0]) is None ==> GetVfoBOperatingMode::spec_parse_response(frame(get_vfo_b_operating_mode_id(), v)) == Err::<OperatingMode, Failure>(Failure::ResponseData(v)),
{
    lemma_framed_value_reads_back(get_vfo_b_operating_mode_id(), v);
}

/// `MD`
pub open spec fn set_vfo_a_operating_mode_id() -> Seq<u8> {
    seq![0x4D, 0x44]
}

fn set_vfo_a_operating_mode_id_bytes() -> (r: &'static [u8])
    ensures
        r@ == set_vfo_a_operating_mode_id(),
{
    &[0x4D, 0x44]
}

/// Set operating mode for VFO A (`MD`).
#[derive(Clone, Copy, Debug, PartialEq, Eq)]
pub struct SetVfoAOperatingMode {
    pub mode: OperatingMode,
}

impl SetVfoAOperatingMode {
    pub fn to_lower_sideband() -> (r: SetVfoAOperatingMode)
        ensures
            r.mode == OperatingMode::LowerSideBand,
    {
        SetVfoAOperatingMode { mode: OperatingMode::LowerSideBand }
    }

    pub fn to_upper_sideband() -> (r: SetVfoAOperatingMode)
        ensures
            r.mode == OperatingMode::UpperSideBand,
    {
        SetVfoAOperatingMode { mode: OperatingMode::UpperSideBand }
    }

    pub fn to_cw() -> (r: SetVfoAOperatingMode)
        ensures
            r.mode == OperatingMode::ContinuousWave,
    {
        SetVfoAOperatingMode { mode: OperatingMode::ContinuousWave }
    }

    pub fn to_fm() -> (r: SetVfoAOperatingMode)
        ensures
            r.mode == OperatingMode::FrequencyModulation,
    {
        SetVfoAOperatingMode { mode: OperatingMode::FrequencyModulation }
    }

    pub fn to_am() -> (r: SetVfoAOperatingMode)
        ensures
            r.mode == OperatingMode::AmplitudeModulation,
    {
        SetVfoAOperatingMode { mode: OperatingMode::AmplitudeModulation }
    }

    pub fn to_data_a() -> (r: SetVfoAOperatingMode)
        ensures
            r.mode == OperatingMode::DataA,
    {
        SetVfoAOperatingMode { mode: OperatingMode::DataA }
    }

    pub fn to_cw_reverse() -> (r: SetVfoAOperatingMode)
        ensures
            r.mode == OperatingMode::ContinuousWaveReverse,
    {
        SetVfoAOperatingMode { mode: OperatingMode::ContinuousWaveReverse }
    }

    pub fn to_data_b() -> (r: SetVfoAOperatingMode)
        ensures
            r.mode == OperatingMode::DataB,
    {
        SetVfoAOperatingMode { mode: OperatingMode::DataB }
    }

    pub open spec fn spec_args(self) -> Seq<u8> {
        seq![self.mode.spec_byte()]
    }

    pub fn to_bytes(&self) -> (r: Vec<u8>)
        ensures
            r@ == frame(set_vfo_a_operating_mode_id(), self.spec_args()),
    {
        let args: [u8; 1] = [self.mode.as_byte()];
        assert(args@ =~= self.spec_args());
        frame_command(set_vfo_a_operating_mode_id_bytes(), &args)
    }
}

/// `SetVfoAOperatingMode` sends exactly one byte, the wire byte of `mode`.
pub proof fn lemma_set_vfo_a_operating_mode_argument(s: SetVfoAOperatingMode)
    ensures
        s.spec_args().len() == 1,
        s.spec_args()[0] == s.mode.spec_byte(),
{
}

/// `MD$`
pub open spec fn set_vfo_b_operating_mode_id() -> Seq<u8> {
    seq![0x4D, 0x44, 0x24]
}

fn set_vfo_b_operating_mode_id_bytes() -> (r: &'static [u8])
    ensures
        r@ == set_vfo_b_operating_mode_id(),
{
    &[0x4D, 0x44, 0x24]
}

/// Set operating mode for VFO B receiver (`MD$`).
#[derive(Clone, Copy, Debug, PartialEq, Eq)]
pub struct SetVfoBOperatingMode {
    pub mode: OperatingMode,
}

impl SetVfoBOperatingMode {
    pub fn to_lower_sideband() -> (r: SetVfoBOperatingMode)
        ensures
            r.mode == OperatingMode::LowerSideBand,
    {
        SetVfoBOperatingMode { mode: OperatingMode::LowerSideBand }
    }

    pub fn to_upper_sideband() -> (r: SetVfoBOperatingMode)
        ensures
            r.mode == OperatingMode::UpperSideBand,
    {
        SetVfoBOperatingMode { mode: OperatingMode::UpperSideBand }
    }

    pub fn to_cw() -> (r: SetVfoBOperatingMode)
        ensures
            r.mode == OperatingMode::ContinuousWave,
    {
        SetVfoBOperatingMode { mode: OperatingMode::ContinuousWave }
    }

    pub fn to_fm() -> (r: SetVfoBOperatingMode)
        ensures
            r.mode == OperatingMode::FrequencyModulation,
    {
        SetVfoBOperatingMode { mode: OperatingMode::FrequencyModulation }
    }

    pub fn to_am() -> (r: SetVfoBOperatingMode)
        ensures
            r.mode == OperatingMode::AmplitudeModulation,
    {
        SetVfoBOperatingMode { mode: OperatingMode::AmplitudeModulation }
    }

    pub fn to_data_a() -> (r: SetVfoBOperatingMode)
        ensures
            r.mode == OperatingMode::DataA,
    {
        SetVfoBOperatingMode { mode: OperatingMode::DataA }
    }

    pub fn to_cw_reverse() -> (r: SetVfoBOperatingMode)
        ensures
            r.mode == OperatingMode::ContinuousWaveReverse,
    {
        SetVfoBOperatingMode { mode: OperatingMode::ContinuousWaveReverse }
    }

    pub fn to_data_b() -> (r: SetVfoBOperatingMode)
        ensures
            r.mode == OperatingMode::DataB,
    {
        SetVfoBOperatingMode { mode: OperatingMode::DataB }
    }

    pub open spec fn spec_args(self) -> Seq<u8> {
        seq![self.mode.spec_byte()]
    }

    pub fn to_bytes(&self) -> (r: Vec<u8>)
        ensures
            r@ == frame(set_vfo_b_operating_mode_id(), self.spec_args()),
    {
        let args: [u8; 1] = [self.mode.as_byte()];
        assert(args@ =~= self.spec_args());
        frame_command(set_vfo_b_operating_mode_id_bytes(), &args)
    }
}

/// `SetVfoBOperatingMode` sends exactly one byte, the wire byte of `mode`.
pub proof fn lemma_set_vfo_b_operating_mode_argument(s: SetVfoBOperatingMode)
    ensures
        s.spec_args().len() == 1,
        s.spec_args()[0] == s.mode.spec_byte(),
{
}

/// `KS`
pub open spec fn get_keyer_speed_id() -> Seq<u8> {
    seq![0x4B, 0x53]
}

fn get_keyer_speed_id_bytes() -> (r: &'static [u8])
    ensures
        r@ == get_keyer_speed_id(),
{
    &[0x4B, 0x53]
}

/// Get keyer speed in Words per Minute (WPM) (`KS`).
#[derive(Clone, Copy, Debug, PartialEq, Eq)]
pub struct GetKeyerSpeed;

impl GetKeyerSpeed {
    pub fn to_bytes(&self) -> (r: Vec<u8>)
        ensures
            r@ == frame(get_keyer_speed_id(), seq![]),
    {
        let none: [u8; 0] = [];
        frame_command(get_keyer_speed_id_bytes(), &none)
    }

    pub open spec fn spec_parse_response(bytes: Seq<u8>) -> Result<u8, Failure> {
        match spec_validate_response(bytes, get_keyer_speed_id(), 3) {
            Ok(v) => spec_u8_field(v),
            Err(f) => Err(f),
        }
    }

    /// Reads the digits of a framed reply; a value above 255 is outside the domain.
    pub fn parse(&self, bytes: &[u8]) -> (r: Result<u8, RigError>)
        requires
            spec_validate_response(bytes@, get_keyer_speed_id(), 3) matches Ok(v) ==> leading_value(v) <= u8::MAX,
        ensures
            agrees(r, Self::spec_parse_response(bytes@)),
    {
        match validate_response(bytes, get_keyer_speed_id_bytes(), 3) {
            Ok(d) => {
                proof {
                    lemma_leading_value_bound(d@);
                    lemma_pow10_values();
                }
                u8_from_ascii(d)
            },
            Err(e) => Err(e),
        }
    }
}

/// A `GetKeyerSpeed` reply of 3 value bytes reads as the decimal number they spell; a value with a
/// byte that is not a digit is an `InvalidResponseData` error holding the value.
pub proof fn lemma_get_keyer_speed_reply(v: Seq<u8>)
    requires
        v.len() == 3,
    ensures
        all_digits(v) && digits_value(v) <= 255 ==> GetKeyerSpeed::spec_parse_response(frame(get_keyer_speed_id(), v)) == Ok::<u8, Failure>(digits_value(v) as u8),
        !all_digits(v) ==> GetKeyerSpeed::spec_parse_response(frame(get_keyer_speed_id(), v)) == Err::<u8, Failure>(Failure::ResponseData(v)),
{
    lemma_framed_value_reads_back(get_keyer_speed_id(), v);
}

/// `LK`
pub open spec fn get_vfo_a_lock_state_id() -> Seq<u8> {
    seq![0x4C, 0x4B]
}

fn get_vfo_a_lock_state_id_bytes() -> (r: &'static [u8])
    ensures
        r@ == get_vfo_a_lock_state_id(),
{
    &[0x4C, 0x4B]
}

/// Get VFO A lock on/off state (`LK`).
#[derive(Clone, Copy, Debug, PartialEq, Eq)]
pub struct GetVfoALockState;

impl GetVfoALockState {
    pub fn to_bytes(&self) -> (r: Vec<u8>)
        ensures
            r@ == frame(get_vfo_a_lock_state_id(), seq![]),
    {
        let none: [u8; 0] = [];
        frame_command(get_vfo_a_lock_state_id_bytes(), &none)
    }

    pub open spec fn spec_parse_response(bytes: Seq<u8>) -> Result<bool, Failure> {
        match spec_validate_response(bytes, get_vfo_a_lock_state_id(), 1) {
            Ok(v) => spec_bool_1_0(v[0]),
            Err(f) => Err(f),
        }
    }

    pub fn parse(&self, bytes: &[u8]) -> (r: Result<bool, RigError>)
        ensures
            agrees(r, Self::spec_parse_response(bytes@)),
    {
        match validate_response(bytes, get_vfo_a_lock_state_id_bytes(), 1) {
            Ok(d) => bool_from_ascii_1_0(d[0]),
            Err(e) => Err(e),
        }
    }
}

/// A `GetVfoALockState` reply whose value byte is `1` reads as `true`, `0` as `false`; any other byte is a
/// `ParseBoolean` error.
pub proof fn lemma_get_vfo_a_lock_state_reply(v: Seq<u8>)
    requires
        v.len() == 1,
    ensures
        v[0] == 0x31 ==> GetVfoALockState::spec_parse_response(frame(get_vfo_a_lock_state_id(), v)) == Ok::<bool, Failure>(true),
        v[0] == 0x30 ==> GetVfoALockState::spec_parse_response(frame(get_vfo_a_lock_state_id(), v)) == Ok::<bool, Failure>(false),
        v[0] != 0x30 && v[0] != 0x31 ==> GetVfoALockState::spec_parse_response(frame(get_vfo_a_lock_state_id(), v)) == Err::<bool, Failure>(Failure::Boolean(v[0])),
{
    lemma_framed_value_reads_back(get_vfo_a_lock_state_id(), v);
}

/// `LK$`
pub open spec fn get_vfo_b_lock_state_id() -> Seq<u8> {
    seq![0x4C, 0x4B, 0x24]
}

fn get_vfo_b_lock_state_id_bytes() -> (r: &'static [u8])
    ensures
        r@ == get_vfo_b_lock_state_id(),
{
    &[0x4C, 0x4B, 0x24]
}

/// Get VFO B lock on/off state (`LK$`).
#[derive(Clone, Copy, Debug, PartialEq, Eq)]
pub struct GetVfoBLockState;

impl GetVfoBLockState {
    pub fn to_bytes(&self) -> (r: Vec<u8>)
        ensures
            r@ == frame(get_vfo_b_lock_state_id(), seq![]),
    {
        let none: [u8; 0] = [];
        frame_command(get_vfo_b_lock_state_id_bytes(), &none)
    }

    pub open spec fn spec_parse_response(bytes: Seq<u8>) -> Result<bool, Failure> {
        match spec_validate_response(bytes, get_vfo_b_lock_state_id(), 1) {
            Ok(v) => spec_bool_1_0(v[0]),
            Err(f) => Err(f),
        }
    }

    pub fn parse(&self, bytes: &[u8]) -> (r: Result<bool, RigError>)
        ensures
            agrees(r, Self::spec_parse_response(bytes@)),
    {
        match validate_response(bytes, get_vfo_b_lock_state_id_bytes(), 1) {
            Ok(d) => bool_from_ascii_1_0(d[0]),
            Err(e) => Err(e),
        }
    }
}

/// A `GetVfoBLockState` reply whose value byte is `1` reads as `true`, `0` as `false`; any other byte is a
/// `ParseBoolean` error.
pub proof fn lemma_get_vfo_b_lock_state_reply(v: Seq<u8>)
    requires
        v.len() == 1,
    ensures
        v[0] == 0x31 ==> GetVfoBLockState::spec_parse_response(frame(get_vfo_b_lock_state_id(), v)) == Ok::<bool, Failure>(true),
        v[0] == 0x30 ==> GetVfoBLockState::spec_parse_response(frame(get_vfo_b_lock_state_id(), v)) == Ok::<bool, Failure>(false),
        v[0] != 0x30 && v[0] != 0x31 ==> GetVfoBLockState::spec_parse_response(frame(get_vfo_b_lock_state_id(), v)) == Err::<bool, Failure>(Failure::Boolean(v[0])),
{
    lemma_framed_value_reads_back(get_vfo_b_lock_state_id(), v);
}

/// `LK`
pub open spec fn set_vfo_a_lock_state_id() -> Seq<u8> {
    seq![0x4C, 0x4B]
}

fn set_vfo_a_lock_state_id_bytes() -> (r: &'static [u8])
    ensures
        r@ == set_vfo_a_lock_state_id(),
{
    &[0x4C, 0x4B]
}

/// Set VFO A lock. `locked = true` disables the VFO A encoder (`LK`).
#[derive(Clone, Copy, Debug, PartialEq, Eq)]
pub struct SetVfoALockState {
    pub state: bool,
}

impl SetVfoALockState {
    pub open spec fn spec_args(self) -> Seq<u8> {
        seq![if self.state { ASCII_DIGIT_ONE } else { ASCII_DIGIT_ZERO }]
    }

    pub fn to_bytes(&self) -> (r: Vec<u8>)
        ensures
            r@ == frame(set_vfo_a_lock_state_id(), self.spec_args()),
    {
        let args: [u8; 1] = [if self.state { ASCII_DIGIT_ONE } else { ASCII_DIGIT_ZERO }];
        assert(args@ =~= self.spec_args());
        frame_command(set_vfo_a_lock_state_id_bytes(), &args)
    }
}

/// `SetVfoALockState` sends `1` when `state` is set and `0` when it is clear.
pub proof fn lemma_set_vfo_a_lock_state_argument(s: SetVfoALockState)
    ensures
        s.state ==> s.spec_args() == seq![0x31u8],
        !s.state ==> s.spec_args() == seq![0x30u8],
{
}

/// `LK$`
pub open spec fn set_vfo_b_lock_state_id() -> Seq<u8> {
    seq![0x4C, 0x4B, 0x24]
}

fn set_vfo_b_lock_state_id_bytes() -> (r: &'static [u8])
    ensures
        r@ == set_vfo_b_lock_state_id(),
{
    &[0x4C, 0x4B, 0x24]
}

/// Set VFO B lock. `locked = true` disables the VFO B encoder (`LK$`).
#[derive(Clone, Copy, Debug, PartialEq, Eq)]
pub struct SetVfoBLockState {
    pub state: bool,
}

impl SetVfoBLockState {
    pub open spec fn spec_args(self) -> Seq<u8> {
        seq![if self.state { ASCII_DIGIT_ONE } else { ASCII_DIGIT_ZERO }]
    }

    pub fn to_bytes(&self) -> (r: Vec<u8>)
        ensures
            r@ == frame(set_vfo_b_lock_state_id(), self.spec_args()),
    {
        let args: [u8; 1] = [if self.state { ASCII_DIGIT_ONE } else { ASCII_DIGIT_ZERO }];
        assert(args@ =~= self.spec_args());
        frame_command(set_vfo_b_lock_state_id_bytes(), &args)
    }
}

/// `SetVfoBLockState` sends `1` when `state` is set and `0` when it is clear.
pub proof fn lemma_set_vfo_b_lock_state_argument(s: SetVfoBLockState)
    ensures
        s.state ==> s.spec_args() == seq![0x31u8],
        !s.state ==> s.spec_args() == seq![0x30u8],
{
}

/// `LN`
pub open spec fn get_vfo_linked_state_id() -> Seq<u8> {
    seq![0x4C, 0x4E]
}

fn get_vfo_linked_state_id_bytes() -> (r: &'static [u8])
    ensures
        r@ == get_vfo_linked_state_id(),
{
    &[0x4C, 0x4E]
}

/// Get VFO A/B linked state (`LN`).
#[derive(Clone, Copy, Debug, PartialEq, Eq)]
pub struct GetVfoLinkedState;

impl GetVfoLinkedState {
    pub fn to_bytes(&self) -> (r: Vec<u8>)
        ensures
            r@ == frame(get_vfo_linked_state_id(), seq![]),
    {
        let none: [u8; 0] = [];
        frame_command(get_vfo_linked_state_id_bytes(), &none)
    }

    pub open spec fn spec_parse_response(bytes: Seq<u8>) -> Result<bool, Failure> {
        match spec_validate_response(bytes, get_vfo_linked_state_id(), 1) {
            Ok(v) => spec_bool_1_0(v[0]),
            Err(f) => Err(f),
        }
    }

    pub fn parse(&self, bytes: &[u8]) -> (r: Result<bool, RigError>)
        ensures
            agrees(r, Self::spec_parse_response(bytes@)),
    {
        match validate_response(bytes, get_vfo_linked_state_id_bytes(), 1) {
            Ok(d) => bool_from_ascii_1_0(d[0]),
            Err(e) => Err(e),
        }
    }
}

/// A `GetVfoLinkedState` reply whose value byte is `1` reads as `true`, `0` as `false`; any other byte is a
/// `ParseBoolean` error.
pub proof fn lemma_get_vfo_linked_state_reply(v: Seq<u8>)
    requires
        v.len() == 1,
    ensures
        v[0] == 0x31 ==> GetVfoLinkedState::spec_parse_response(frame(get_vfo_linked_state_id(), v)) == Ok::<bool, Failure>(true),
        v[0] == 0x30 ==> GetVfoLinkedState::spec_parse_response(frame(get_vfo_linked_state_id(), v)) == Ok::<bool, Failure>(false),
        v[0] != 0x30 && v[0] != 0x31 ==> GetVfoLinkedState::spec_parse_response(frame(get_vfo_linked_state_id(), v)) == Err::<bool, Failure>(Failure::Boolean(v[0])),
{
    lemma_framed_value_reads_back(get_vfo_linked_state_id(), v);
}

/// `LN`
pub open spec fn set_vfo_linked_state_id() -> Seq<u8> {
    seq![0x4C, 0x4E]
}

fn set_vfo_linked_state_id_bytes() -> (r: &'static [u8])
    ensures
        r@ == set_vfo_linked_state_id(),
{
    &[0x4C, 0x4E]
}

/// Set VFO linked on/off (`LN`).
#[derive(Clone, Copy, Debug, PartialEq, Eq)]
pub struct SetVfoLinkedState {
    pub state: bool,
}

impl SetVfoLinkedState {
    pub open spec fn spec_args(self) -> Seq<u8> {
        seq![if self.state { ASCII_DIGIT_ONE } else { ASCII_DIGIT_ZERO }]
    }

    pub fn to_bytes(&self) -> (r: Vec<u8>)
        ensures
            r@ == frame(set_vfo_linked_state_id(), self.spec_args()),
    {
        let args: [u8; 1] = [if self.state { ASCII_DIGIT_ONE } else { ASCII_DIGIT_ZERO }];
        assert(args@ =~= self.spec_args());
        frame_command(set_vfo_linked_state_id_bytes(), &args)
    }
}

/// `SetVfoLinkedState` sends `1` when `state` is set and `0` when it is clear.
pub proof fn lemma_set_vfo_linked_state_argument(s: SetVfoLinkedState)
    ensures
        s.state ==> s.spec_args() == seq![0x31u8],
        !s.state ==> s.spec_args() == seq![0x30u8],
{
}

/// `MC`
pub open spec fn get_memory_channel_id() -> Seq<u8> {
    seq![0x4D, 0x43]
}

fn get_memory_channel_id_bytes() -> (r: &'static [u8])
    ensures
        r@ == get_memory_channel_id(),
{
    &[0x4D, 0x43]
}

/// Get active memory channel (`MC`).
#[derive(Clone, Copy, Debug, PartialEq, Eq)]
pub struct GetMemoryChannel;

impl GetMemoryChannel {
    pub fn to_bytes(&self) -> (r: Vec<u8>)
        ensures
            r@ == frame(get_memory_channel_id(), seq![]),
    {
        let none: [u8; 0] = [];
        frame_command(get_memory_channel_id_bytes(), &none)
    }

    pub open spec fn spec_parse_response(bytes: Seq<u8>) -> Result<u8, Failure> {
        match spec_validate_response(bytes, get_memory_channel_id(), 3) {
            Ok(v) => spec_u8_field(v),
            Err(f) => Err(f),
        }
    }

    /// Reads the digits of a framed reply; a value above 255 is outside the domain.
    pub fn parse(&self, bytes: &[u8]) -> (r: Result<u8, RigError>)
        requires
            spec_validate_response(bytes@, get_memory_channel_id(), 3) matches Ok(v) ==> leading_value(v) <= u8::MAX,
        ensures
            agrees(r, Self::spec_parse_response(bytes@)),
    {
        match validate_response(bytes, get_memory_channel_id_bytes(), 3) {
            Ok(d) => {
                proof {
                    lemma_leading_value_bound(d@);
                    lemma_pow10_values();
                }
                u8_from_ascii(d)
            },
            Err(e) => Err(e),
        }
    }
}

/// A `GetMemoryChannel` reply of 3 value bytes reads as the decimal number they spell; a value with a
/// byte that is not a digit is an `InvalidResponseData` error holding the value.
pub proof fn lemma_get_memory_channel_reply(v: Seq<u8>)
    requires
        v.len() == 3,
    ensures
        all_digits(v) && digits_value(v) <= 255 ==> GetMemoryChannel::spec_parse_response(frame(get_memory_channel_id(), v)) == Ok::<u8, Failure>(digits_value(v) as u8),
        !all_digits(v) ==> GetMemoryChannel::spec_parse_response(frame(get_memory_channel_id(), v)) == Err::<u8, Failure>(Failure::ResponseData(v)),
{
    lemma_framed_value_reads_back(get_memory_channel_id(), v);
}

/// `MC`
pub open spec fn set_memory_channel_id() -> Seq<u8> {
    seq![0x4D, 0x43]
}

fn set_memory_channel_id_bytes() -> (r: &'static [u8])
    ensures
        r@ == set_memory_channel_id(),
{
    &[0x4D, 0x43]
}

/// Set active memory channel (`MC`).
#[derive(Clone, Copy, Debug, PartialEq, Eq)]
pub struct SetMemoryChannel {
    pub channel: u8,
}

impl SetMemoryChannel {
    /// The values the command accepts.
    pub open spec fn spec_in_range(self) -> bool {
        1 <= self.channel <= 100
    }

    /// The argument bytes.
    pub open spec fn spec_args(self) -> Seq<u8> {
        uint_args(self.channel as u32, 3)
    }

    /// The command, or `InvalidArgumentValue` for a value out of range.
    pub fn to_bytes(&self) -> (r: Result<Vec<u8>, RigError>)
        ensures
            self.spec_in_range() ==> (r matches Ok(b) && b@ == frame(set_memory_channel_id(), self.spec_args())),
            !self.spec_in_range() ==> (r matches Err(e) && e.fails_with(
                Failure::ArgumentValue("channel"@, "u8"@, decimal_string(self.channel as int)),
            )),
    {
        encode_uint_in_range(set_memory_channel_id_bytes(), "channel", "u8", self.channel as u32, 1, 100, 3)
    }
}

/// `SetMemoryChannel` accepts `channel` when `1 <= s.channel <= 100` and sends it as decimal digits, zero-padded to 3.
pub proof fn lemma_set_memory_channel_argument(s: SetMemoryChannel)
    ensures
        s.spec_in_range() == (1 <= s.channel <= 100),
        all_digits(s.spec_args()),
        digits_value(s.spec_args()) == s.channel,
        (s.channel as nat) < pow10(3) ==> s.spec_args().len() == 3,
{
    lemma_padded_decimal_value(s.channel as nat, 3);
    if (s.channel as nat) < pow10(3) {
        lemma_num_digits_le(s.channel as nat, 3);
    }
}

/// `MG`
pub open spec fn get_mic_gain_id() -> Seq<u8> {
    seq![0x4D, 0x47]
}

fn get_mic_gain_id_bytes() -> (r: &'static [u8])
    ensures
        r@ == get_mic_gain_id(),
{
    &[0x4D, 0x47]
}

/// Get microphone gain (`MG`).
#[derive(Clone, Copy, Debug, PartialEq, Eq)]
pub struct GetMicGain;

impl GetMicGain {
    pub fn to_bytes(&self) -> (r: Vec<u8>)
        ensures
            r@ == frame(get_mic_gain_id(), seq![]),
    {
        let none: [u8; 0] = [];
        frame_command(get_mic_gain_id_bytes(), &none)
    }

    pub open spec fn spec_parse_response(bytes: Seq<u8>) -> Result<u8, Failure> {
        match spec_validate_response(bytes, get_mic_gain_id(), 3) {
            Ok(v) => spec_u8_field(v),
            Err(f) => Err(f),
        }
    }

    /// Reads the digits of a framed reply; a value above 255 is outside the domain.
    pub fn parse(&self, bytes: &[u8]) -> (r: Result<u8, RigError>)
        requires
            spec_validate_response(bytes@, get_mic_gain_id(), 3) matches Ok(v) ==> leading_value(v) <= u8::MAX,
        ensures
            agrees(r, Self::spec_parse_response(bytes@)),
    {
        match validate_response(bytes, get_mic_gain_id_bytes(), 3) {
            Ok(d) => {
                proof {
                    lemma_leading_value_bound(d@);
                    lemma_pow10_values();
                }
                u8_from_ascii(d)
            },
            Err(e) => Err(e),
        }
    }
}

/// A `GetMicGain` reply of 3 value bytes reads as the decimal number they spell; a value with a
/// byte that is not a digit is an `InvalidResponseData` error holding the value.
pub proof fn lemma_get_mic_gain_reply(v: Seq<u8>)
    requires
        v.len() == 3,
    ensures
        all_digits(v) && digits_value(v) <= 255 ==> GetMicGain::spec_parse_response(frame(get_mic_gain_id(), v)) == Ok::<u8, Failure>(digits_value(v) as u8),
        !all_digits(v) ==> GetMicGain::spec_parse_response(frame(get_mic_gain_id(), v)) == Err::<u8, Failure>(Failure::ResponseData(v)),
{
    lemma_framed_value_reads_back(get_mic_gain_id(), v);
}

/// `ML`
pub open spec fn get_monitor_level_id() -> Seq<u8> {
    seq![0x4D, 0x4C]
}

fn get_monitor_level_id_bytes() -> (r: &'static [u8])
    ensures
        r@ == get_monitor_level_id(),
{
    &[0x4D, 0x4C]
}

/// Get transmit monitor level (`ML`).
#[derive(Clone, Copy, Debug, PartialEq, Eq)]
pub struct GetMonitorLevel;

impl GetMonitorLevel {
    pub fn to_bytes(&self) -> (r: Vec<u8>)
        ensures
            r@ == frame(get_monitor_level_id(), seq![]),
    {
        let none: [u8; 0] = [];
        frame_command(get_monitor_level_id_bytes(), &none)
    }

    pub open spec fn spec_parse_response(bytes: Seq<u8>) -> Result<u8, Failure> {
        match spec_validate_response(bytes, get_monitor_level_id(), 3) {
            Ok(v) => spec_u8_field(v),
            Err(f) => Err(f),
        }
    }

    /// Reads the digits of a framed reply; a value above 255 is outside the domain.
    pub fn parse(&self, bytes: &[u8]) -> (r: Result<u8, RigError>)
        requires
            spec_validate_response(bytes@, get_monitor_level_id(), 3) matches Ok(v) ==> leading_value(v) <= u8::MAX,
        ensures
            agrees(r, Self::spec_parse_response(bytes@)),
    {
        match validate_response(bytes, get_monitor_level_id_bytes(), 3) {
            Ok(d) => {
                proof {
                    lemma_leading_value_bound(d@);
                    lemma_pow10_values();
                }
                u8_from_ascii(d)
            },
            Err(e) => Err(e),
        }
    }
}

/// A `GetMonitorLevel` reply of 3 value bytes reads as the decimal number they spell; a value with a
/// byte that is not a digit is an `InvalidResponseData` error holding the value.
pub proof fn lemma_get_monitor_level_reply(v: Seq<u8>)
    requires
        v.len() == 3,
    ensures
        all_digits(v) && digits_value(v) <= 255 ==> GetMonitorLevel::spec_parse_response(frame(get_monitor_level_id(), v)) == Ok::<u8, Failure>(digits_value(v) as u8),
        !all_digits(v) ==> GetMonitorLevel::spec_parse_response(frame(get_monitor_level_id(), v)) == Err::<u8, Failure>(Failure::ResponseData(v)),
{
    lemma_framed_value_reads_back(get_monitor_level_id(), v);
}

/// `ML`
pub open spec fn set_monitor_level_id() -> Seq<u8> {
    seq![0x4D, 0x4C]
}

fn set_monitor_level_id_bytes() -> (r: &'static [u8])
    ensures
        r@ == set_monitor_level_id(),
{
    &[0x4D, 0x4C]
}

/// Set transmit monitor level (`ML`).
#[derive(Clone, Copy, Debug, PartialEq, Eq)]
pub struct SetMonitorLevel {
    pub level: u8,
}

impl SetMonitorLevel {
    /// The values the command accepts.
    pub open spec fn spec_in_range(self) -> bool {
        self.level <= 60
    }

    /// The argument bytes.
    pub open spec fn spec_args(self) -> Seq<u8> {
        uint_args(self.level as u32, 3)
    }

    /// The command, or `InvalidArgumentValue` for a value out of range.
    pub fn to_bytes(&self) -> (r: Result<Vec<u8>, RigError>)
        ensures
            self.spec_in_range() ==> (r matches Ok(b) && b@ == frame(set_monitor_level_id(), self.spec_args())),
            !self.spec_in_range() ==> (r matches Err(e) && e.fails_with(
                Failure::ArgumentValue("level"@, "u8"@, decimal_string(self.level as int)),
            )),
    {
        encode_uint_in_range(set_monitor_level_id_bytes(), "level", "u8", self.level as u32, 0, 60, 3)
    }
}

/// `SetMonitorLevel` accepts `level` when `s.level <= 60` and sends it as decimal digits, zero-padded to 3.
pub proof fn lemma_set_monitor_level_argument(s: SetMonitorLevel)
    ensures
        s.spec_in_range() == (s.level <= 60),
        all_digits(s.spec_args()),
        digits_value(s.spec_args()) == s.level,
        (s.level as nat) < pow10(3) ==> s.spec_args().len() == 3,
{
    lemma_padded_decimal_value(s.level as nat, 3);
    if (s.level as nat) < pow10(3) {
        lemma_num_digits_le(s.level as nat, 3);
    }
}

/// `MN`
pub open spec fn select_menu_item_id() -> Seq<u8> {
    seq![0x4D, 0x4E]
}

fn select_menu_item_id_bytes() -> (r: &'static [u8])
    ensures
        r@ == select_menu_item_id(),
{
    &[0x4D, 0x4E]
}

/// Select a front-panel menu item by number (`MN`).
#[derive(Clone, Copy, Debug, PartialEq, Eq)]
pub struct SelectMenuItem {
    pub item: u16,
}

impl SelectMenuItem {
    /// The values the command accepts.
    pub open spec fn spec_in_range(self) -> bool {
        self.item <= 999
    }

    /// The argument bytes.
    pub open spec fn spec_args(self) -> Seq<u8> {
        uint_args(self.item as u32, 3)
    }

    /// The command, or `InvalidArgumentValue` for a value out of range.
    pub fn to_bytes(&self) -> (r: Result<Vec<u8>, RigError>)
        ensures
            self.spec_in_range() ==> (r matches Ok(b) && b@ == frame(select_menu_item_id(), self.spec_args())),
            !self.spec_in_range() ==> (r matches Err(e) && e.fails_with(
                Failure::ArgumentValue("item"@, "u16"@, decimal_string(self.item as int)),
            )),
    {
        encode_uint_in_range(select_menu_item_id_bytes(), "item", "u16", self.item as u32, 0, 999, 3)
    }
}

/// `SelectMenuItem` accepts `item` when `s.item <= 999` and sends it as decimal digits, zero-padded to 3.
pub proof fn lemma_select_menu_item_argument(s: SelectMenuItem)
    ensures
        s.spec_in_range() == (s.item <= 999),
        all_digits(s.spec_args()),
        digits_value(s.spec_args()) == s.item,
        (s.item as nat) < pow10(3) ==> s.spec_args().len() == 3,
{
    lemma_padded_decimal_value(s.item as nat, 3);
    if (s.item as nat) < pow10(3) {
        lemma_num_digits_le(s.item as nat, 3);
    }
}

/// `MP`
pub open spec fn get_menu_parameter_id() -> Seq<u8> {
    seq![0x4D, 0x50]
}

fn get_menu_parameter_id_bytes() -> (r: &'static [u8])
    ensures
        r@ == get_menu_parameter_id(),
{
    &[0x4D, 0x50]
}

/// Get the current menu item's 8-bit parameter (`MP`).
#[derive(Clone, Copy, Debug, PartialEq, Eq)]
pub struct GetMenuParameter;

impl GetMenuParameter {
    pub fn to_bytes(&self) -> (r: Vec<u8>)
        ensures
            r@ == frame(get_menu_parameter_id(), seq![]),
    {
        let none: [u8; 0] = [];
        frame_command(get_menu_parameter_id_bytes(), &none)
    }

    pub open spec fn spec_parse_response(bytes: Seq<u8>) -> Result<u8, Failure> {
        match spec_validate_response(bytes, get_menu_parameter_id(), 2) {
            Ok(v) => spec_u8_field(v),
            Err(f) => Err(f),
        }
    }

    pub fn parse(&self, bytes: &[u8]) -> (r: Result<u8, RigError>)
        ensures
            agrees(r, Self::spec_parse_response(bytes@)),
    {
        match validate_response(bytes, get_menu_parameter_id_bytes(), 2) {
            Ok(d) => {
                proof {
                    lemma_leading_value_bound(d@);
                    lemma_pow10_values();
                }
                u8_from_ascii(d)
            },
            Err(e) => Err(e),
        }
    }
}

/// A `GetMenuParameter` reply of 2 value bytes reads as the decimal number they spell; a value with a
/// byte that is not a digit is an `InvalidResponseData` error holding the value.
pub proof fn lemma_get_menu_parameter_reply(v: Seq<u8>)
    requires
        v.len() == 2,
    ensures
        all_digits(v) && digits_value(v) <= 255 ==> GetMenuParameter::spec_parse_response(frame(get_menu_parameter_id(), v)) == Ok::<u8, Failure>(digits_value(v) as u8),
        !all_digits(v) ==> GetMenuParameter::spec_parse_response(frame(get_menu_parameter_id(), v)) == Err::<u8, Failure>(Failure::ResponseData(v)),
{
    lemma_framed_value_reads_back(get_menu_parameter_id(), v);
}

/// `MP`
pub open spec fn set_menu_parameter_id() -> Seq<u8> {
    seq![0x4D, 0x50]
}

fn set_menu_parameter_id_bytes() -> (r: &'static [u8])
    ensures
        r@ == set_menu_parameter_id(),
{
    &[0x4D, 0x50]
}

/// Set the current menu item's 8-bit parameter (`MP`).
#[derive(Clone, Copy, Debug, PartialEq, Eq)]
pub struct SetMenuParameter {
    pub value: u8,
}

impl SetMenuParameter {
    /// The values the command accepts.
    pub open spec fn spec_in_range(self) -> bool {
        self.value <= 99
    }

    /// The argument bytes.
    pub open spec fn spec_args(self) -> Seq<u8> {
        uint_args(self.value as u32, 2)
    }

    /// The command, or `InvalidArgumentValue` for a value out of range.
    pub fn to_bytes(&self) -> (r: Result<Vec<u8>, RigError>)
        ensures
            self.spec_in_range() ==> (r matches Ok(b) && b@ == frame(set_menu_parameter_id(), self.spec_args())),
            !self.spec_in_range() ==> (r matches Err(e) && e.fails_with(
                Failure::ArgumentValue("value"@, "u8"@, decimal_string(self.value as int)),
            )),
    {
        encode_uint_in_range(set_menu_parameter_id_bytes(), "value", "u8", self.value as u32, 0, 99, 2)
    }
}

/// `SetMenuParameter` accepts `value` when `s.value <= 99` and sends it as decimal digits, zero-padded to 2.
pub proof fn lemma_set_menu_parameter_argument(s: SetMenuParameter)
    ensures
        s.spec_in_range() == (s.value <= 99),
        all_digits(s.spec_args()),
        digits_value(s.spec_args()) == s.value,
        (s.value as nat) < pow10(2) ==> s.spec_args().len() == 2,
{
    lemma_padded_decimal_value(s.value as nat, 2);
    if (s.value as nat) < pow10(2) {
        lemma_num_digits_le(s.value as nat, 2);
    }
}

/// `MQ`
pub open spec fn get_menu_parameter16_id() -> Seq<u8> {
    seq![0x4D, 0x51]
}

fn get_menu_parameter16_id_bytes() -> (r: &'static [u8])
    ensures
        r@ == get_menu_parameter16_id(),
{
    &[0x4D, 0x51]
}

/// Get the current menu item's 16-bit parameter (`MQ`).
#[derive(Clone, Copy, Debug, PartialEq, Eq)]
pub struct GetMenuParameter16;

impl GetMenuParameter16 {
    pub fn to_bytes(&self) -> (r: Vec<u8>)
        ensures
            r@ == frame(get_menu_parameter16_id(), seq![]),
    {
        let none: [u8; 0] = [];
        frame_command(get_menu_parameter16_id_bytes(), &none)
    }

    pub open spec fn spec_parse_response(bytes: Seq<u8>) -> Result<u16, Failure> {
        match spec_validate_response(bytes, get_menu_parameter16_id(), 4) {
            Ok(v) => spec_u16_field(v),
            Err(f) => Err(f),
        }
    }

    pub fn parse(&self, bytes: &[u8]) -> (r: Result<u16, RigError>)
        ensures
            agrees(r, Self::spec_parse_response(bytes@)),
    {
        match validate_response(bytes, get_menu_parameter16_id_bytes(), 4) {
            Ok(d) => {
                proof {
                    lemma_leading_value_bound(d@);
                    lemma_pow10_values();
                }
                u16_from_ascii(d)
            },
            Err(e) => Err(e),
        }
    }
}

/// A `GetMenuParameter16` reply of 4 value bytes reads as the decimal number they spell; a value with a
/// byte that is not a digit is an `InvalidResponseData` error holding the value.
pub proof fn lemma_get_menu_parameter16_reply(v: Seq<u8>)
    requires
        v.len() == 4,
    ensures
        all_digits(v) && digits_value(v) <= u16::MAX ==> GetMenuParameter16::spec_parse_response(frame(get_menu_parameter16_id(), v)) == Ok::<u16, Failure>(digits_value(v) as u16),
        !all_digits(v) ==> GetMenuParameter16::spec_parse_response(frame(get_menu_parameter16_id(), v)) == Err::<u16, Failure>(Failure::ResponseData(v)),
{
    lemma_framed_value_reads_back(get_menu_parameter16_id(), v);
}

/// `MQ`
pub open spec fn set_menu_parameter16_id() -> Seq<u8> {
    seq![0x4D, 0x51]
}

fn set_menu_parameter16_id_bytes() -> (r: &'static [u8])
    ensures
        r@ == set_menu_parameter16_id(),
{
    &[0x4D, 0x51]
}

/// Set the current menu item's 16-bit parameter (`MQ`).
#[derive(Clone, Copy, Debug, PartialEq, Eq)]
pub struct SetMenuParameter16 {
    pub value: u16,
}

impl SetMenuParameter16 {
    /// The values the command accepts.
    pub open spec fn spec_in_range(self) -> bool {
        self.value <= 9999
    }

    /// The argument bytes.
    pub open spec fn spec_args(self) -> Seq<u8> {
        uint_args(self.value as u32, 4)
    }

    /// The command, or `InvalidArgumentValue` for a value out of range.
    pub fn to_bytes(&self) -> (r: Result<Vec<u8>, RigError>)
        ensures
            self.spec_in_range() ==> (r matches Ok(b) && b@ == frame(set_menu_parameter16_id(), self.spec_args())),
            !self.spec_in_range() ==> (r matches Err(e) && e.fails_with(
                Failure::ArgumentValue("value"@, "u16"@, decimal_string(self.value as int)),
            )),
    {
        encode_uint_in_range(set_menu_parameter16_id_bytes(), "value", "u16", self.value as u32, 0, 9999, 4)
    }
}

/// `SetMenuParameter16` accepts `value` when `s.value <= 9999` and sends it as decimal digits, zero-padded to 4.
pub proof fn lemma_set_menu_parameter16_argument(s: SetMenuParameter16)
    ensures
        s.spec_in_range() == (s.value <= 9999),
        all_digits(s.spec_args()),
        digits_value(s.spec_args()) == s.value,
        (s.value as nat) < pow10(4) ==> s.spec_args().len() == 4,
{
    lemma_padded_decimal_value(s.value as nat, 4);
    if (s.value as nat) < pow10(4) {
        lemma_num_digits_le(s.value as nat, 4);
    }
}

/// `NB`
pub open spec fn get_vfo_a_noise_blanker_id() -> Seq<u8> {
    seq![0x4E, 0x42]
}

fn get_vfo_a_noise_blanker_id_bytes() -> (r: &'static [u8])
    ensures
        r@ == get_vfo_a_noise_blanker_id(),
{
    &[0x4E, 0x42]
}

/// Get Noise Blanker (NB) on/off state for VFO A/main (`NB`).
#[derive(Clone, Copy, Debug, PartialEq, Eq)]
pub struct GetVfoANoiseBlanker;

impl GetVfoANoiseBlanker {
    pub fn to_bytes(&self) -> (r: Vec<u8>)
        ensures
            r@ == frame(get_vfo_a_noise_blanker_id(), seq![]),
    {
        let none: [u8; 0] = [];
        frame_command(get_vfo_a_noise_blanker_id_bytes(), &none)
    }

    pub open spec fn spec_parse_response(bytes: Seq<u8>) -> Result<bool, Failure> {
        match spec_validate_response(bytes, get_vfo_a_noise_blanker_id(), 1) {
            Ok(v) => spec_bool_1_0(v[0]),
            Err(f) => Err(f),
        }
    }

    pub fn parse(&self, bytes: &[u8]) -> (r: Result<bool, RigError>)
        ensures
            agrees(r, Self::spec_parse_response(bytes@)),
    {
        match validate_response(bytes, get_vfo_a_noise_blanker_id_bytes(), 1) {
            Ok(d) => bool_from_ascii_1_0(d[0]),
            Err(e) => Err(e),
        }
    }
}

/// A `GetVfoANoiseBlanker` reply whose value byte is `1` reads as `true`, `0` as `false`; any other byte is a
/// `ParseBoolean` error.
pub proof fn lemma_get_vfo_a_noise_blanker_reply(v: Seq<u8>)
    requires
        v.len() == 1,
    ensures
        v[0] == 0x31 ==> GetVfoANoiseBlanker::spec_parse_response(frame(get_vfo_a_noise_blanker_id(), v)) == Ok::<bool, Failure>(true),
        v[0] == 0x30 ==> GetVfoANoiseBlanker::spec_parse_response(frame(get_vfo_a_noise_blanker_id(), v)) == Ok::<bool, Failure>(false),
        v[0] != 0x30 && v[0] != 0x31 ==> GetVfoANoiseBlanker::spec_parse_response(frame(get_vfo_a_noise_blanker_id(), v)) == Err::<bool, Failure>(Failure::Boolean(v[0])),
{
    lemma_framed_value_reads_back(get_vfo_a_noise_blanker_id(), v);
}

/// `NB$`
pub open spec fn get_vfo_b_noise_blanker_id() -> Seq<u8> {
    seq![0x4E, 0x42, 0x24]
}

fn get_vfo_b_noise_blanker_id_bytes() -> (r: &'static [u8])
    ensures
        r@ == get_vfo_b_noise_blanker_id(),
{
    &[0x4E, 0x42, 0x24]
}

/// Get Noise Blanker (NB) on/off state for VFO B (`NB$`).
#[derive(Clone, Copy, Debug, PartialEq, Eq)]
pub struct GetVfoBNoiseBlanker;

impl GetVfoBNoiseBlanker {
    pub fn to_bytes(&self) -> (r: Vec<u8>)
        ensures
            r@ == frame(get_vfo_b_noise_blanker_id(), seq![]),
    {
        let none: [u8; 0] = [];
        frame_command(get_vfo_b_noise_blanker_id_bytes(), &none)
    }

    pub open spec fn spec_parse_response(bytes: Seq<u8>) -> Result<bool, Failure> {
        match spec_validate_response(bytes, get_vfo_b_noise_blanker_id(), 1) {
            Ok(v) => spec_bool_1_0(v[0]),
            Err(f) => Err(f),
        }
    }

    pub fn parse(&self, bytes: &[u8]) -> (r: Result<bool, RigError>)
        ensures
            agrees(r, Self::spec_parse_response(bytes@)),
    {
        match validate_response(bytes, get_vfo_b_noise_blanker_id_bytes(), 1) {
            Ok(d) => bool_from_ascii_1_0(d[0]),
            Err(e) => Err(e),
        }
    }
}

/// A `GetVfoBNoiseBlanker` reply whose value byte is `1` reads as `true`, `0` as `false`; any other byte is a
/// `ParseBoolean` error.
pub proof fn lemma_get_vfo_b_noise_blanker_reply(v: Seq<u8>)
    requires
        v.len() == 1,
    ensures
        v[0] == 0x31 ==> GetVfoBNoiseBlanker::spec_parse_response(frame(get_vfo_b_noise_blanker_id(), v)) == Ok::<bool, Failure>(true),
        v[0] == 0x30 ==> GetVfoBNoiseBlanker::spec_parse_response(frame(get_vfo_b_noise_blanker_id(), v)) == Ok::<bool, Failure>(false),
        v[0] != 0x30 && v[0] != 0x31 ==> GetVfoBNoiseBlanker::spec_parse_response(frame(get_vfo_b_noise_blanker_id(), v)) == Err::<bool, Failure>(Failure::Boolean(v[0])),
{
    lemma_framed_value_reads_back(get_vfo_b_noise_blanker_id(), v);
}

/// `NB`
pub open spec fn set_vfo_a_noise_blanker_id() -> Seq<u8> {
    seq![0x4E, 0x42]
}

fn set_vfo_a_noise_blanker_id_bytes() -> (r: &'static [u8])
    ensures
        r@ == set_vfo_a_noise_blanker_id(),
{
    &[0x4E, 0x42]
}

/// Set Noise Blanker on/off state for VFO A/main (`NB`).
#[derive(Clone, Copy, Debug, PartialEq, Eq)]
pub struct SetVfoANoiseBlanker {
    pub state: bool,
}

impl SetVfoANoiseBlanker {
    pub open spec fn spec_args(self) -> Seq<u8> {
        seq![if self.state { ASCII_DIGIT_ONE } else { ASCII_DIGIT_ZERO }]
    }

    pub fn to_bytes(&self) -> (r: Vec<u8>)
        ensures
            r@ == frame(set_vfo_a_noise_blanker_id(), self.spec_args()),
    {
        let args: [u8; 1] = [if self.state { ASCII_DIGIT_ONE } else { ASCII_DIGIT_ZERO }];
        assert(args@ =~= self.spec_args());
        frame_command(set_vfo_a_noise_blanker_id_bytes(), &args)
    }
}

/// `SetVfoANoiseBlanker` sends `1` when `state` is set and `0` when it is clear.
pub proof fn lemma_set_vfo_a_noise_blanker_argument(s: SetVfoANoiseBlanker)
    ensures
        s.state ==> s.spec_args() == seq![0x31u8],
        !s.state ==> s.spec_args() == seq![0x30u8],
{
}

/// `NB$`
pub open spec fn set_vfo_b_noise_blanker_id() -> Seq<u8> {
    seq![0x4E, 0x42, 0x24]
}

fn set_vfo_b_noise_blanker_id_bytes() -> (r: &'static [u8])
    ensures
        r@ == set_vfo_b_noise_blanker_id(),
{
    &[0x4E, 0x42, 0x24]
}

/// Set Noise Blanker on/off state for VFO B (`NB$`).
#[derive(Clone, Copy, Debug, PartialEq, Eq)]
pub struct SetVfoBNoiseBlanker {
    pub state: bool,
}

impl SetVfoBNoiseBlanker {
    pub open spec fn spec_args(self) -> Seq<u8> {
        seq![if self.state { ASCII_DIGIT_ONE } else { ASCII_DIGIT_ZERO }]
    }

    pub fn to_bytes(&self) -> (r: Vec<u8>)
        ensures
            r@ == frame(set_vfo_b_noise_blanker_id(), self.spec_args()),
    {
        let args: [u8; 1] = [if self.state { ASCII_DIGIT_ONE } else { ASCII_DIGIT_ZERO }];
        assert(args@ =~= self.spec_args());
        frame_command(set_vfo_b_noise_blanker_id_bytes(), &args)
    }
}

/// `SetVfoBNoiseBlanker` sends `1` when `state` is set and `0` when it is clear.
pub proof fn lemma_set_vfo_b_noise_blanker_argument(s: SetVfoBNoiseBlanker)
    ensures
        s.state ==> s.spec_args() == seq![0x31u8],
        !s.state ==> s.spec_args() == seq![0x30u8],
{
}

/// `NL`
pub open spec fn get_vfo_a_noise_blanker_level_id() -> Seq<u8> {
    seq![0x4E, 0x4C]
}

fn get_vfo_a_noise_blanker_level_id_bytes() -> (r: &'static [u8])
    ensures
        r@ == get_vfo_a_noise_blanker_level_id(),
{
    &[0x4E, 0x4C]
}

/// Get Noise Blanker (NB) level for VFO A/main (`NL`).
#[derive(Clone, Copy, Debug, PartialEq, Eq)]
pub struct GetVfoANoiseBlankerLevel;

impl GetVfoANoiseBlankerLevel {
    pub fn to_bytes(&self) -> (r: Vec<u8>)
        ensures
            r@ == frame(get_vfo_a_noise_blanker_level_id(), seq![]),
    {
        let none: [u8; 0] = [];
        frame_command(get_vfo_a_noise_blanker_level_id_bytes(), &none)
    }

    pub open spec fn spec_parse_response(bytes: Seq<u8>) -> Result<u8, Failure> {
        match spec_validate_response(bytes, get_vfo_a_noise_blanker_level_id(), 2) {
            Ok(v) => spec_u8_field(v),
            Err(f) => Err(f),
        }
    }

    pub fn parse(&self, bytes: &[u8]) -> (r: Result<u8, RigError>)
        ensures
            agrees(r, Self::spec_parse_response(bytes@)),
    {
        match validate_response(bytes, get_vfo_a_noise_blanker_level_id_bytes(), 2) {
            Ok(d) => {
                proof {
                    lemma_leading_value_bound(d@);
                    lemma_pow10_values();
                }
                u8_from_ascii(d)
            },
            Err(e) => Err(e),
        }
    }
}

/// A `GetVfoANoiseBlankerLevel` reply of 2 value bytes reads as the decimal number they spell; a value with a
/// byte that is not a digit is an `InvalidResponseData` error holding the value.
pub proof fn lemma_get_vfo_a_noise_blanker_level_reply(v: Seq<u8>)
    requires
        v.len() == 2,
    ensures
        all_digits(v) && digits_value(v) <= 255 ==> GetVfoANoiseBlankerLevel::spec_parse_response(frame(get_vfo_a_noise_blanker_level_id(), v)) == Ok::<u8, Failure>(digits_value(v) as u8),
        !all_digits(v) ==> GetVfoANoiseBlankerLevel::spec_parse_response(frame(get_vfo_a_noise_blanker_level_id(), v)) == Err::<u8, Failure>(Failure::ResponseData(v)),
{
    lemma_framed_value_reads_back(get_vfo_a_noise_blanker_level_id(), v);
}

/// `NL$`
pub open spec fn get_vfo_b_noise_blanker_level_id() -> Seq<u8> {
    seq![0x4E, 0x4C, 0x24]
}

fn get_vfo_b_noise_blanker_level_id_bytes() -> (r: &'static [u8])
    ensures
        r@ == get_vfo_b_noise_blanker_level_id(),
{
    &[0x4E, 0x4C, 0x24]
}

/// Get Noise Blanker (NB) level for VFO B (`NL$`).
#[derive(Clone, Copy, Debug, PartialEq, Eq)]
pub struct GetVfoBNoiseBlankerLevel;

impl GetVfoBNoiseBlankerLevel {
    pub fn to_bytes(&self) -> (r: Vec<u8>)
        ensures
            r@ == frame(get_vfo_b_noise_blanker_level_id(), seq![]),
    {
        let none: [u8; 0] = [];
        frame_command(get_vfo_b_noise_blanker_level_id_bytes(), &none)
    }

    pub open spec fn spec_parse_response(bytes: Seq<u8>) -> Result<u8, Failure> {
        match spec_validate_response(bytes, get_vfo_b_noise_blanker_level_id(), 2) {
            Ok(v) => spec_u8_field(v),
            Err(f) => Err(f),
        }
    }

    pub fn parse(&self, bytes: &[u8]) -> (r: Result<u8, RigError>)
        ensures
            agrees(r, Self::spec_parse_response(bytes@)),
    {
        match validate_response(bytes, get_vfo_b_noise_blanker_level_id_bytes(), 2) {
            Ok(d) => {
                proof {
                    lemma_leading_value_bound(d@);
                    lemma_pow10_values();
                }
                u8_from_ascii(d)
            },
            Err(e) => Err(e),
        }
    }
}

/// A `GetVfoBNoiseBlankerLevel` reply of 2 value bytes reads as the decimal number they spell; a value with a
/// byte that is not a digit is an `InvalidResponseData` error holding the value.
pub proof fn lemma_get_vfo_b_noise_blanker_level_reply(v: Seq<u8>)
    requires
        v.len() == 2,
    ensures
        all_digits(v) && digits_value(v) <= 255 ==> GetVfoBNoiseBlankerLevel::spec_parse_response(frame(get_vfo_b_noise_blanker_level_id(), v)) == Ok::<u8, Failure>(digits_value(v) as u8),
        !all_digits(v) ==> GetVfoBNoiseBlankerLevel::spec_parse_response(frame(get_vfo_b_noise_blanker_level_id(), v)) == Err::<u8, Failure>(Failure::ResponseData(v)),
{
    lemma_framed_value_reads_back(get_vfo_b_noise_blanker_level_id(), v);
}

/// `NL`
pub open spec fn set_vfo_a_noise_blanker_level_id() -> Seq<u8> {
    seq![0x4E, 0x4C]
}

fn set_vfo_a_noise_blanker_level_id_bytes() -> (r: &'static [u8])
    ensures
        r@ == set_vfo_a_noise_blanker_level_id(),
{
    &[0x4E, 0x4C]
}

/// Set Noise Blanker (NB) level for VFO A (`NL`).
#[derive(Clone, Copy, Debug, PartialEq, Eq)]
pub struct SetVfoANoiseBlankerLevel {
    pub level: u8,
}

impl SetVfoANoiseBlankerLevel {
    /// The values the command accepts.
    pub open spec fn spec_in_range(self) -> bool {
        self.level <= 21
    }

    /// The argument bytes.
    pub open spec fn spec_args(self) -> Seq<u8> {
        uint_args(self.level as u32, 2)
    }

    /// The command, or `InvalidArgumentValue` for a value out of range.
    pub fn to_bytes(&self) -> (r: Result<Vec<u8>, RigError>)
        ensures
            self.spec_in_range() ==> (r matches Ok(b) && b@ == frame(set_vfo_a_noise_blanker_level_id(), self.spec_args())),
            !self.spec_in_range() ==> (r matches Err(e) && e.fails_with(
                Failure::ArgumentValue("level"@, "u8"@, decimal_string(self.level as int)),
            )),
    {
        encode_uint_in_range(set_vfo_a_noise_blanker_level_id_bytes(), "level", "u8", self.level as u32, 0, 21, 2)
    }
}

/// `SetVfoANoiseBlankerLevel` accepts `level` when `s.level <= 21` and sends it as decimal digits, zero-padded to 2.
pub proof fn lemma_set_vfo_a_noise_blanker_level_argument(s: SetVfoANoiseBlankerLevel)
    ensures
        s.spec_in_range() == (s.level <= 21),
        all_digits(s.spec_args()),
        digits_value(s.spec_args()) == s.level,
        (s.level as nat) < pow10(2) ==> s.spec_args().len() == 2,
{
    lemma_padded_decimal_value(s.level as nat, 2);
    if (s.level as nat) < pow10(2) {
        lemma_num_digits_le(s.level as nat, 2);
    }
}

/// `NL$`
pub open spec fn set_vfo_b_noise_blanker_level_id() -> Seq<u8> {
    seq![0x4E, 0x4C, 0x24]
}

fn set_vfo_b_noise_blanker_level_id_bytes() -> (r: &'static [u8])
    ensures
        r@ == set_vfo_b_noise_blanker_level_id(),
{
    &[0x4E, 0x4C, 0x24]
}

/// Set Noise Blanker (NB) level for VFO B (`NL$`).
#[derive(Clone, Copy, Debug, PartialEq, Eq)]
pub struct SetVfoBNoiseBlankerLevel {
    pub level: u8,
}

impl SetVfoBNoiseBlankerLevel {
    /// The values the command accepts.
    pub open spec fn spec_in_range(self) -> bool {
        self.level <= 21
    }

    /// The argument bytes.
    pub open spec fn spec_args(self) -> Seq<u8> {
        uint_args(self.level as u32, 2)
    }

    /// The command, or `InvalidArgumentValue` for a value out of range.
    pub fn to_bytes(&self) -> (r: Result<Vec<u8>, RigError>)
        ensures
            self.spec_in_range() ==> (r matches Ok(b) && b@ == frame(set_vfo_b_noise_blanker_level_id(), self.spec_args())),
            !self.spec_in_range() ==> (r matches Err(e) && e.fails_with(
                Failure::ArgumentValue("level"@, "u8"@, decimal_string(self.level as int)),
            )),
    {
        encode_uint_in_range(set_vfo_b_noise_blanker_level_id_bytes(), "level", "u8", self.level as u32, 0, 21, 2)
    }
}

/// `SetVfoBNoiseBlankerLevel` accepts `level` when `s.level <= 21` and sends it as decimal digits, zero-padded to 2.
pub proof fn lemma_set_vfo_b_noise_blanker_level_argument(s: SetVfoBNoiseBlankerLevel)
    ensures
        s.spec_in_range() == (s.level <= 21),
        all_digits(s.spec_args()),
        digits_value(s.spec_args()) == s.level,
        (s.level as nat) < pow10(2) ==> s.spec_args().len() == 2,
{
    lemma_padded_decimal_value(s.level as nat, 2);
    if (s.level as nat) < pow10(2) {
        lemma_num_digits_le(s.level as nat, 2);
    }
}

/// `PA`
pub open spec fn get_vfo_a_preamp_id() -> Seq<u8> {
    seq![0x50, 0x41]
}

fn get_vfo_a_preamp_id_bytes() -> (r: &'static [u8])
    ensures
        r@ == get_vfo_a_preamp_id(),
{
    &[0x50, 0x41]
}

/// Get receive preamplifier selection for VFO A (`PA`).
#[derive(Clone, Copy, Debug, PartialEq, Eq)]
pub struct GetVfoAPreamp;

impl GetVfoAPreamp {
    pub fn to_bytes(&self) -> (r: Vec<u8>)
        ensures
            r@ == frame(get_vfo_a_preamp_id(), seq![]),
    {
        let none: [u8; 0] = [];
        frame_command(get_vfo_a_preamp_id_bytes(), &none)
    }

    pub open spec fn spec_parse_response(bytes: Seq<u8>) -> Result<u8, Failure> {
        match spec_validate_response(bytes, get_vfo_a_preamp_id(), 1) {
            Ok(v) => spec_u8_field(v),
            Err(f) => Err(f),
        }
    }

    pub fn parse(&self, bytes: &[u8]) -> (r: Result<u8, RigError>)
        ensures
            agrees(r, Self::spec_parse_response(bytes@)),
    {
        match validate_response(bytes, get_vfo_a_preamp_id_bytes(), 1) {
            Ok(d) => {
                proof {
                    lemma_leading_value_bound(d@);
                    lemma_pow10_values();
                }
                u8_from_ascii(d)
            },
            Err(e) => Err(e),
        }
    }
}

/// A `GetVfoAPreamp` reply of 1 value bytes reads as the decimal number they spell; a value with a
/// byte that is not a digit is an `InvalidResponseData` error holding the value.
pub proof fn lemma_get_vfo_a_preamp_reply(v: Seq<u8>)
    requires
        v.len() == 1,
    ensures
        all_digits(v) && digits_value(v) <= 255 ==> GetVfoAPreamp::spec_parse_response(frame(get_vfo_a_preamp_id(), v)) == Ok::<u8, Failure>(digits_value(v) as u8),
        !all_digits(v) ==> GetVfoAPreamp::spec_parse_response(frame(get_vfo_a_preamp_id(), v)) == Err::<u8, Failure>(Failure::ResponseData(v)),
{
    lemma_framed_value_reads_back(get_vfo_a_preamp_id(), v);
}

/// `PA$`
pub open spec fn get_vfo_b_preamp_id() -> Seq<u8> {
    seq![0x50, 0x41, 0x24]
}

fn get_vfo_b_preamp_id_bytes() -> (r: &'static [u8])
    ensures
        r@ == get_vfo_b_preamp_id(),
{
    &[0x50, 0x41, 0x24]
}

/// Get receive preamplifier selection for VFO B (`PA$`).
#[derive(Clone, Copy, Debug, PartialEq, Eq)]
pub struct GetVfoBPreamp;

impl GetVfoBPreamp {
    pub fn to_bytes(&self) -> (r: Vec<u8>)
        ensures
            r@ == frame(get_vfo_b_preamp_id(), seq![]),
    {
        let none: [u8; 0] = [];
        frame_command(get_vfo_b_preamp_id_bytes(), &none)
    }

    pub open spec fn spec_parse_response(bytes: Seq<u8>) -> Result<u8, Failure> {
        match spec_validate_response(bytes, get_vfo_b_preamp_id(), 1) {
            Ok(v) => spec_u8_field(v),
            Err(f) => Err(f),
        }
    }

    pub fn parse(&self, bytes: &[u8]) -> (r: Result<u8, RigError>)
        ensures
            agrees(r, Self::spec_parse_response(bytes@)),
    {
        match validate_response(bytes, get_vfo_b_preamp_id_bytes(), 1) {
            Ok(d) => {
                proof {
                    lemma_leading_value_bound(d@);
                    lemma_pow10_values();
                }
                u8_from_ascii(d)
            },
            Err(e) => Err(e),
        }
    }
}

/// A `GetVfoBPreamp` reply of 1 value bytes reads as the decimal number they spell; a value with a
/// byte that is not a digit is an `InvalidResponseData` error holding the value.
pub proof fn lemma_get_vfo_b_preamp_reply(v: Seq<u8>)
    requires
        v.len() == 1,
    ensures
        all_digits(v) && digits_value(v) <= 255 ==> GetVfoBPreamp::spec_parse_response(frame(get_vfo_b_preamp_id(), v)) == Ok::<u8, Failure>(digits_value(v) as u8),
        !all_digits(v) ==> GetVfoBPreamp::spec_parse_response(frame(get_vfo_b_preamp_id(), v)) == Err::<u8, Failure>(Failure::ResponseData(v)),
{
    lemma_framed_value_reads_back(get_vfo_b_preamp_id(), v);
}

/// `PA`
pub open spec fn set_vfo_a_preamp_id() -> Seq<u8> {
    seq![0x50, 0x41]
}

fn set_vfo_a_preamp_id_bytes() -> (r: &'static [u8])
    ensures
        r@ == set_vfo_a_preamp_id(),
{
    &[0x50, 0x41]
}

/// Set receive preamplifier for VFO A (`PA`).
#[derive(Clone, Copy, Debug, PartialEq, Eq)]
pub struct SetVfoAPreamp {
    pub preamp: u8,
}

impl SetVfoAPreamp {
    /// The values the command accepts.
    pub open spec fn spec_in_range(self) -> bool {
        self.preamp <= 2
    }

    /// The argument bytes.
    pub open spec fn spec_args(self) -> Seq<u8> {
        uint_args(self.preamp as u32, 1)
    }

    /// The command, or `InvalidArgumentValue` for a value out of range.
    pub fn to_bytes(&self) -> (r: Result<Vec<u8>, RigError>)
        ensures
            self.spec_in_range() ==> (r matches Ok(b) && b@ == frame(set_vfo_a_preamp_id(), self.spec_args())),
            !self.spec_in_range() ==> (r matches Err(e) && e.fails_with(
                Failure::ArgumentValue("preamp"@, "u8"@, decimal_string(self.preamp as int)),
            )),
    {
        encode_uint_in_range(set_vfo_a_preamp_id_bytes(), "preamp", "u8", self.preamp as u32, 0, 2, 1)
    }
}

/// `SetVfoAPreamp` accepts `preamp` when `s.preamp <= 2` and sends it as decimal digits, zero-padded to 1.
pub proof fn lemma_set_vfo_a_preamp_argument(s: SetVfoAPreamp)
    ensures
        s.spec_in_range() == (s.preamp <= 2),
        all_digits(s.spec_args()),
        digits_value(s.spec_args()) == s.preamp,
        (s.preamp as nat) < pow10(1) ==> s.spec_args().len() == 1,
{
    lemma_padded_decimal_value(s.preamp as nat, 1);
    if (s.preamp as nat) < pow10(1) {
        lemma_num_digits_le(s.preamp as nat, 1);
    }
}

/// `PA$`
pub open spec fn set_vfo_b_preamp_id() -> Seq<u8> {
    seq![0x50, 0x41, 0x24]
}

fn set_vfo_b_preamp_id_bytes() -> (r: &'static [u8])
    ensures
        r@ == set_vfo_b_preamp_id(),
{
    &[0x50, 0x41, 0x24]
}

/// Set receive preamplifier for VFO B (`PA$`).
#[derive(Clone, Copy, Debug, PartialEq, Eq)]
pub struct SetVfoBPreamp {
    pub preamp: u8,
}

impl SetVfoBPreamp {
    /// The values the command accepts.
    pub open spec fn spec_in_range(self) -> bool {
        self.preamp <= 2
    }

    /// The argument bytes.
    pub open spec fn spec_args(self) -> Seq<u8> {
        uint_args(self.preamp as u32, 1)
    }

    /// The command, or `InvalidArgumentValue` for a value out of range.
    pub fn to_bytes(&self) -> (r: Result<Vec<u8>, RigError>)
        ensures
            self.spec_in_range() ==> (r matches Ok(b) && b@ == frame(set_vfo_b_preamp_id(), self.spec_args())),
            !self.spec_in_range() ==> (r matches Err(e) && e.fails_with(
                Failure::ArgumentValue("preamp"@, "u8"@, decimal_string(self.preamp as int)),
            )),
    {
        encode_uint_in_range(set_vfo_b_preamp_id_bytes(), "preamp", "u8", self.preamp as u32, 0, 2, 1)
    }
}

/// `SetVfoBPreamp` accepts `preamp` when `s.preamp <= 2` and sends it as decimal digits, zero-padded to 1.
pub proof fn lemma_set_vfo_b_preamp_argument(s: SetVfoBPreamp)
    ensures
        s.spec_in_range() == (s.preamp <= 2),
        all_digits(s.spec_args()),
        digits_value(s.spec_args()) == s.preamp,
        (s.preamp as nat) < pow10(1) ==> s.spec_args().len() == 1,
{
    lemma_padded_decimal_value(s.preamp as nat, 1);
    if (s.preamp as nat) < pow10(1) {
        lemma_num_digits_le(s.preamp as nat, 1);
    }
}

/// `PC`
pub open spec fn get_transmit_power_control_id() -> Seq<u8> {
    seq![0x50, 0x43]
}

fn get_transmit_power_control_id_bytes() -> (r: &'static [u8])
    ensures
        r@ == get_transmit_power_control_id(),
{
    &[0x50, 0x43]
}

/// Get transmit power level in watts (`PC`).
#[derive(Clone, Copy, Debug, PartialEq, Eq)]
pub struct GetTransmitPowerControl;

impl GetTransmitPowerControl {
    pub fn to_bytes(&self) -> (r: Vec<u8>)
        ensures
            r@ == frame(get_transmit_power_control_id(), seq![]),
    {
        let none: [u8; 0] = [];
        frame_command(get_transmit_power_control_id_bytes(), &none)
    }

    pub open spec fn spec_parse_response(bytes: Seq<u8>) -> Result<u8, Failure> {
        match spec_validate_response(bytes, get_transmit_power_control_id(), 3) {
            Ok(v) => spec_u8_field(v),
            Err(f) => Err(f),
        }
    }

    /// Reads the digits of a framed reply; a value above 255 is outside the domain.
    pub fn parse(&self, bytes: &[u8]) -> (r: Result<u8, RigError>)
        requires
            spec_validate_response(bytes@, get_transmit_power_control_id(), 3) matches Ok(v) ==> leading_value(v) <= u8::MAX,
        ensures
            agrees(r, Self::spec_parse_response(bytes@)),
    {
        match validate_response(bytes, get_transmit_power_control_id_bytes(), 3) {
            Ok(d) => {
                proof {
                    lemma_leading_value_bound(d@);
                    lemma_pow10_values();
                }
                u8_from_ascii(d)
            },
            Err(e) => Err(e),
        }
    }
}

/// A `GetTransmitPowerControl` reply of 3 value bytes reads as the decimal number they spell; a value with a
/// byte that is not a digit is an `InvalidResponseData` error holding the value.
pub proof fn lemma_get_transmit_power_control_reply(v: Seq<u8>)
    requires
        v.len() == 3,
    ensures
        all_digits(v) && digits_value(v) <= 255 ==> GetTransmitPowerControl::spec_parse_response(frame(get_transmit_power_control_id(), v)) == Ok::<u8, Failure>(digits_value(v) as u8),
        !all_digits(v) ==> GetTransmitPowerControl::spec_parse_response(frame(get_transmit_power_control_id(), v)) == Err::<u8, Failure>(Failure::ResponseData(v)),
{
    lemma_framed_value_reads_back(get_transmit_power_control_id(), v);
}

/// `PO`
pub open spec fn get_actual_power_output_id() -> Seq<u8> {
    seq![0x50, 0x4F]
}

fn get_actual_power_output_id_bytes() -> (r: &'static [u8])
    ensures
        r@ == get_actual_power_output_id(),
{
    &[0x50, 0x4F]
}

/// Get actual RF power output in tenths of a watt (`PO`).
#[derive(Clone, Copy, Debug, PartialEq, Eq)]
pub struct GetActualPowerOutput;

impl GetActualPowerOutput {
    pub fn to_bytes(&self) -> (r: Vec<u8>)
        ensures
            r@ == frame(get_actual_power_output_id(), seq![]),
    {
        let none: [u8; 0] = [];
        frame_command(get_actual_power_output_id_bytes(), &none)
    }

    pub open spec fn spec_parse_response(bytes: Seq<u8>) -> Result<u16, Failure> {
        match spec_validate_response(bytes, get_actual_power_output_id(), 4) {
            Ok(v) => spec_u16_field(v),
            Err(f) => Err(f),
        }
    }

    pub fn parse(&self, bytes: &[u8]) -> (r: Result<u16, RigError>)
        ensures
            agrees(r, Self::spec_parse_response(bytes@)),
    {
        match validate_response(bytes, get_actual_power_output_id_bytes(), 4) {
            Ok(d) => {
                proof {
                    lemma_leading_value_bound(d@);
                    lemma_pow10_values();
                }
                u16_from_ascii(d)
            },
            Err(e) => Err(e),
        }
    }
}

/// A `GetActualPowerOutput` reply of 4 value bytes reads as the decimal number they spell; a value with a
/// byte that is not a digit is an `InvalidResponseData` error holding the value.
pub proof fn lemma_get_actual_power_output_reply(v: Seq<u8>)
    requires
        v.len() == 4,
    ensures
        all_digits(v) && digits_value(v) <= u16::MAX ==> GetActualPowerOutput::spec_parse_response(frame(get_actual_power_output_id(), v)) == Ok::<u16, Failure>(digits_value(v) as u16),
        !all_digits(v) ==> GetActualPowerOutput::spec_parse_response(frame(get_actual_power_output_id(), v)) == Err::<u16, Failure>(Failure::ResponseData(v)),
{
    lemma_framed_value_reads_back(get_actual_power_output_id(), v);
}

/// `PS`
pub open spec fn get_power_status_id() -> Seq<u8> {
    seq![0x50, 0x53]
}

fn get_power_status_id_bytes() -> (r: &'static [u8])
    ensures
        r@ == get_power_status_id(),
{
    &[0x50, 0x53]
}

/// Get transceiver power on/off state (`PS`).
#[derive(Clone, Copy, Debug, PartialEq, Eq)]
pub struct GetPowerStatus;

impl GetPowerStatus {
    pub fn to_bytes(&self) -> (r: Vec<u8>)
        ensures
            r@ == frame(get_power_status_id(), seq![]),
    {
        let none: [u8; 0] = [];
        frame_command(get_power_status_id_bytes(), &none)
    }

    pub open spec fn spec_parse_response(bytes: Seq<u8>) -> Result<bool, Failure> {
        match spec_validate_response(bytes, get_power_status_id(), 1) {
            Ok(v) => spec_bool_1_0(v[0]),
            Err(f) => Err(f),
        }
    }

    pub fn parse(&self, bytes: &[u8]) -> (r: Result<bool, RigError>)
        ensures
            agrees(r, Self::spec_parse_response(bytes@)),
    {
        match validate_response(bytes, get_power_status_id_bytes(), 1) {
            Ok(d) => bool_from_ascii_1_0(d[0]),
            Err(e) => Err(e),
        }
    }
}

/// A `GetPowerStatus` reply whose value byte is `1` reads as `true`, `0` as `false`; any other byte is a
/// `ParseBoolean` error.
pub proof fn lemma_get_power_status_reply(v: Seq<u8>)
    requires
        v.len() == 1,
    ensures
        v[0] == 0x31 ==> GetPowerStatus::spec_parse_response(frame(get_power_status_id(), v)) == Ok::<bool, Failure>(true),
        v[0] == 0x30 ==> GetPowerStatus::spec_parse_response(frame(get_power_status_id(), v)) == Ok::<bool, Failure>(false),
        v[0] != 0x30 && v[0] != 0x31 ==> GetPowerStatus::spec_parse_response(frame(get_power_status_id(), v)) == Err::<bool, Failure>(Failure::Boolean(v[0])),
{
    lemma_framed_value_reads_back(get_power_status_id(), v);
}

/// `PS`
pub open spec fn set_power_status_id() -> Seq<u8> {
    seq![0x50, 0x53]
}

fn set_power_status_id_bytes() -> (r: &'static [u8])
    ensures
        r@ == set_power_status_id(),
{
    &[0x50, 0x53]
}

/// Set transceiver power on/off state (`PS`).
#[derive(Clone, Copy, Debug, PartialEq, Eq)]
pub struct SetPowerStatus {
    pub state: bool,
}

impl SetPowerStatus {
    pub open spec fn spec_args(self) -> Seq<u8> {
        seq![if self.state { ASCII_DIGIT_ONE } else { ASCII_DIGIT_ZERO }]
    }

    pub fn to_bytes(&self) -> (r: Vec<u8>)
        ensures
            r@ == frame(set_power_status_id(), self.spec_args()),
    {
        let args: [u8; 1] = [if self.state { ASCII_DIGIT_ONE } else { ASCII_DIGIT_ZERO }];
        assert(args@ =~= self.spec_args());
        frame_command(set_power_status_id_bytes(), &args)
    }
}

/// `SetPowerStatus` sends `1` when `state` is set and `0` when it is clear.
pub proof fn lemma_set_power_status_argument(s: SetPowerStatus)
    ensures
        s.state ==> s.spec_args() == seq![0x31u8],
        !s.state ==> s.spec_args() == seq![0x30u8],
{
}

/// `RA`
pub open spec fn get_vfo_a_receive_attenuator_id() -> Seq<u8> {
    seq![0x52, 0x41]
}

fn get_vfo_a_receive_attenuator_id_bytes() -> (r: &'static [u8])
    ensures
        r@ == get_vfo_a_receive_attenuator_id(),
{
    &[0x52, 0x41]
}

/// Get receive attenuator level for VFO A (`RA`).
#[derive(Clone, Copy, Debug, PartialEq, Eq)]
pub struct GetVfoAReceiveAttenuator;

impl GetVfoAReceiveAttenuator {
    pub fn to_bytes(&self) -> (r: Vec<u8>)
        ensures
            r@ == frame(get_vfo_a_receive_attenuator_id(), seq![]),
    {
        let none: [u8; 0] = [];
        frame_command(get_vfo_a_receive_attenuator_id_bytes(), &none)
    }

    pub open spec fn spec_parse_response(bytes: Seq<u8>) -> Result<u8, Failure> {
        match spec_validate_response(bytes, get_vfo_a_receive_attenuator_id(), 2) {
            Ok(v) => spec_u8_field(v),
            Err(f) => Err(f),
        }
    }

    pub fn parse(&self, bytes: &[u8]) -> (r: Result<u8, RigError>)
        ensures
            agrees(r, Self::spec_parse_response(bytes@)),
    {
        match validate_response(bytes, get_vfo_a_receive_attenuator_id_bytes(), 2) {
            Ok(d) => {
                proof {
                    lemma_leading_value_bound(d@);
                    lemma_pow10_values();
                }
                u8_from_ascii(d)
            },
            Err(e) => Err(e),
        }
    }
}

/// A `GetVfoAReceiveAttenuator` reply of 2 value bytes reads as the decimal number they spell; a value with a
/// byte that is not a digit is an `InvalidResponseData` error holding the value.
pub proof fn lemma_get_vfo_a_receive_attenuator_reply(v: Seq<u8>)
    requires
        v.len() == 2,
    ensures
        all_digits(v) && digits_value(v) <= 255 ==> GetVfoAReceiveAttenuator::spec_parse_response(frame(get_vfo_a_receive_attenuator_id(), v)) == Ok::<u8, Failure>(digits_value(v) as u8),
        !all_digits(v) ==> GetVfoAReceiveAttenuator::spec_parse_response(frame(get_vfo_a_receive_attenuator_id(), v)) == Err::<u8, Failure>(Failure::ResponseData(v)),
{
    lemma_framed_value_reads_back(get_vfo_a_receive_attenuator_id(), v);
}

/// `RA$`
pub open spec fn get_vfo_b_receive_attenuator_id() -> Seq<u8> {
    seq![0x52, 0x41, 0x24]
}

fn get_vfo_b_receive_attenuator_id_bytes() -> (r: &'static [u8])
    ensures
        r@ == get_vfo_b_receive_attenuator_id(),
{
    &[0x52, 0x41, 0x24]
}

/// Get receive attenuator level for VFO B (`RA$`).
#[derive(Clone, Copy, Debug, PartialEq, Eq)]
pub struct GetVfoBReceiveAttenuator;

impl GetVfoBReceiveAttenuator {
    pub fn to_bytes(&self) -> (r: Vec<u8>)
        ensures
            r@ == frame(get_vfo_b_receive_attenuator_id(), seq![]),
    {
        let none: [u8; 0] = [];
        frame_command(get_vfo_b_receive_attenuator_id_bytes(), &none)
    }

    pub open spec fn spec_parse_response(bytes: Seq<u8>) -> Result<u8, Failure> {
        match spec_validate_response(bytes, get_vfo_b_receive_attenuator_id(), 2) {
            Ok(v) => spec_u8_field(v),
            Err(f) => Err(f),
        }
    }

    pub fn parse(&self, bytes: &[u8]) -> (r: Result<u8, RigError>)
        ensures
            agrees(r, Self::spec_parse_response(bytes@)),
    {
        match validate_response(bytes, get_vfo_b_receive_attenuator_id_bytes(), 2) {
            Ok(d) => {
                proof {
                    lemma_leading_value_bound(d@);
                    lemma_pow10_values();
                }
                u8_from_ascii(d)
            },
            Err(e) => Err(e),
        }
    }
}

/// A `GetVfoBReceiveAttenuator` reply of 2 value bytes reads as the decimal number they spell; a value with a
/// byte that is not a digit is an `InvalidResponseData` error holding the value.
pub proof fn lemma_get_vfo_b_receive_attenuator_reply(v: Seq<u8>)
    requires
        v.len() == 2,
    ensures
        all_digits(v) && digits_value(v) <= 255 ==> GetVfoBReceiveAttenuator::spec_parse_response(frame(get_vfo_b_receive_attenuator_id(), v)) == Ok::<u8, Failure>(digits_value(v) as u8),
        !all_digits(v) ==> GetVfoBReceiveAttenuator::spec_parse_response(frame(get_vfo_b_receive_attenuator_id(), v)) == Err::<u8, Failure>(Failure::ResponseData(v)),
{
    lemma_framed_value_reads_back(get_vfo_b_receive_attenuator_id(), v);
}

/// `RA`
pub open spec fn set_vfo_a_receive_attenuator_id() -> Seq<u8> {
    seq![0x52, 0x41]
}

fn set_vfo_a_receive_attenuator_id_bytes() -> (r: &'static [u8])
    ensures
        r@ == set_vfo_a_receive_attenuator_id(),
{
    &[0x52, 0x41]
}

/// Set receive attenuator level for VFO A (`RA`).
#[derive(Clone, Copy, Debug, PartialEq, Eq)]
pub struct SetVfoAReceiveAttenuator {
    pub level: u8,
}

impl SetVfoAReceiveAttenuator {
    /// The values the command accepts.
    pub open spec fn spec_in_range(self) -> bool {
        self.level <= 15
    }

    /// The argument bytes.
    pub open spec fn spec_args(self) -> Seq<u8> {
        uint_args(self.level as u32, 2)
    }

    /// The command, or `InvalidArgumentValue` for a value out of range.
    pub fn to_bytes(&self) -> (r: Result<Vec<u8>, RigError>)
        ensures
            self.spec_in_range() ==> (r matches Ok(b) && b@ == frame(set_vfo_a_receive_attenuator_id(), self.spec_args())),
            !self.spec_in_range() ==> (r matches Err(e) && e.fails_with(
                Failure::ArgumentValue("level"@, "u8"@, decimal_string(self.level as int)),
            )),
    {
        encode_uint_in_range(set_vfo_a_receive_attenuator_id_bytes(), "level", "u8", self.level as u32, 0, 15, 2)
    }
}

/// `SetVfoAReceiveAttenuator` accepts `level` when `s.level <= 15` and sends it as decimal digits, zero-padded to 2.
pub proof fn lemma_set_vfo_a_receive_attenuator_argument(s: SetVfoAReceiveAttenuator)
    ensures
        s.spec_in_range() == (s.level <= 15),
        all_digits(s.spec_args()),
        digits_value(s.spec_args()) == s.level,
        (s.level as nat) < pow10(2) ==> s.spec_args().len() == 2,
{
    lemma_padded_decimal_value(s.level as nat, 2);
    if (s.level as nat) < pow10(2) {
        lemma_num_digits_le(s.level as nat, 2);
    }
}

/// `RA$`
pub open spec fn set_vfo_b_receive_attenuator_id() -> Seq<u8> {
    seq![0x52, 0x41, 0x24]
}

fn set_vfo_b_receive_attenuator_id_bytes() -> (r: &'static [u8])
    ensures
        r@ == set_vfo_b_receive_attenuator_id(),
{
    &[0x52, 0x41, 0x24]
}

/// Set receive attenuator level for VFO B (`RA$`).
#[derive(Clone, Copy, Debug, PartialEq, Eq)]
pub struct SetVfoBReceiveAttenuator {
    pub level: u8,
}

impl SetVfoBReceiveAttenuator {
    /// The values the command accepts.
    pub open spec fn spec_in_range(self) -> bool {
        self.level <= 15
    }

    /// The argument bytes.
    pub open spec fn spec_args(self) -> Seq<u8> {
        uint_args(self.level as u32, 2)
    }

    /// The command, or `InvalidArgumentValue` for a value out of range.
    pub fn to_bytes(&self) -> (r: Result<Vec<u8>, RigError>)
        ensures
            self.spec_in_range() ==> (r matches Ok(b) && b@ == frame(set_vfo_b_receive_attenuator_id(), self.spec_args())),
            !self.spec_in_range() ==> (r matches Err(e) && e.fails_with(
                Failure::ArgumentValue("level"@, "u8"@, decimal_string(self.level as int)),
            )),
    {
        encode_uint_in_range(set_vfo_b_receive_attenuator_id_bytes(), "level", "u8", self.level as u32, 0, 15, 2)
    }
}

/// `SetVfoBReceiveAttenuator` accepts `level` when `s.level <= 15` and sends it as decimal digits, zero-padded to 2.
pub proof fn lemma_set_vfo_b_receive_attenuator_argument(s: SetVfoBReceiveAttenuator)
    ensures
        s.spec_in_range() == (s.level <= 15),
        all_digits(s.spec_args()),
        digits_value(s.spec_args()) == s.level,
        (s.level as nat) < pow10(2) ==> s.spec_args().len() == 2,
{
    lemma_padded_decimal_value(s.level as nat, 2);
    if (s.level as nat) < pow10(2) {
        lemma_num_digits_le(s.level as nat, 2);
    }
}

/// `RC`
pub open spec fn clear_rit_offset_id() -> Seq<u8> {
    seq![0x52, 0x43]
}

fn clear_rit_offset_id_bytes() -> (r: &'static [u8])
    ensures
        r@ == clear_rit_offset_id(),
{
    &[0x52, 0x43]
}

/// Clear the Receive Incremental Tuning (RIT)/Transmit Incremental Tuning(XIT) offset, and reset to +-0 Hz (`RC`).
#[derive(Clone, Copy, Debug, PartialEq, Eq)]
pub struct ClearRitOffset;

impl ClearRitOffset {
    pub fn to_bytes(&self) -> (r: Vec<u8>)
        ensures
            r@ == frame(clear_rit_offset_id(), seq![]),
    {
        let none: [u8; 0] = [];
        frame_command(clear_rit_offset_id_bytes(), &none)
    }
}

/// `RD`
pub open spec fn move_rit_offset_down_id() -> Seq<u8> {
    seq![0x52, 0x44]
}

fn move_rit_offset_down_id_bytes() -> (r: &'static [u8])
    ensures
        r@ == move_rit_offset_down_id(),
{
    &[0x52, 0x44]
}

/// Move the Receive Incremental Tuning (RIT)/Transmit Incremental Tuning(XIT) offset down by `hz` Hz (`RD`).
#[derive(Clone, Copy, Debug, PartialEq, Eq)]
pub struct MoveRitOffsetDown {
    pub hz: u16,
}

impl MoveRitOffsetDown {
    /// The values the command accepts.
    pub open spec fn spec_in_range(self) -> bool {
        self.hz <= 9999
    }

    /// The argument bytes.
    pub open spec fn spec_args(self) -> Seq<u8> {
        uint_args(self.hz as u32, 4)
    }

    /// The command, or `InvalidArgumentValue` for a value out of range.
    pub fn to_bytes(&self) -> (r: Result<Vec<u8>, RigError>)
        ensures
            self.spec_in_range() ==> (r matches Ok(b) && b@ == frame(move_rit_offset_down_id(), self.spec_args())),
            !self.spec_in_range() ==> (r matches Err(e) && e.fails_with(
                Failure::ArgumentValue("hz"@, "u8"@, decimal_string(self.hz as int)),
            )),
    {
        encode_uint_in_range(move_rit_offset_down_id_bytes(), "hz", "u8", self.hz as u32, 0, 9999, 4)
    }
}

/// `MoveRitOffsetDown` accepts `hz` when `s.hz <= 9999` and sends it as decimal digits, zero-padded to 4.
pub proof fn lemma_move_rit_offset_down_argument(s: MoveRitOffsetDown)
    ensures
        s.spec_in_range() == (s.hz <= 9999),
        all_digits(s.spec_args()),
        digits_value(s.spec_args()) == s.hz,
        (s.hz as nat) < pow10(4) ==> s.spec_args().len() == 4,
{
    lemma_padded_decimal_value(s.hz as nat, 4);
    if (s.hz as nat) < pow10(4) {
        lemma_num_digits_le(s.hz as nat, 4);
    }
}

/// `RG`
pub open spec fn get_vfo_a_rf_gain_id() -> Seq<u8> {
    seq![0x52, 0x47]
}

fn get_vfo_a_rf_gain_id_bytes() -> (r: &'static [u8])
    ensures
        r@ == get_vfo_a_rf_gain_id(),
{
    &[0x52, 0x47]
}

/// Get RadioFrequency (RF) gain (DAC value) for VFO A (`RG`).
#[derive(Clone, Copy, Debug, PartialEq, Eq)]
pub struct GetVfoARfGain;

impl GetVfoARfGain {
    pub fn to_bytes(&self) -> (r: Vec<u8>)
        ensures
            r@ == frame(get_vfo_a_rf_gain_id(), seq![]),
    {
        let none: [u8; 0] = [];
        frame_command(get_vfo_a_rf_gain_id_bytes(), &none)
    }

    pub open spec fn spec_parse_response(bytes: Seq<u8>) -> Result<u8, Failure> {
        match spec_validate_response(bytes, get_vfo_a_rf_gain_id(), 3) {
            Ok(v) => spec_u8_field(v),
            Err(f) => Err(f),
        }
    }

    /// Reads the digits of a framed reply; a value above 255 is outside the domain.
    pub fn parse(&self, bytes: &[u8]) -> (r: Result<u8, RigError>)
        requires
            spec_validate_response(bytes@, get_vfo_a_rf_gain_id(), 3) matches Ok(v) ==> leading_value(v) <= u8::MAX,
        ensures
            agrees(r, Self::spec_parse_response(bytes@)),
    {
        match validate_response(bytes, get_vfo_a_rf_gain_id_bytes(), 3) {
            Ok(d) => {
                proof {
                    lemma_leading_value_bound(d@);
                    lemma_pow10_values();
                }
                u8_from_ascii(d)
            },
            Err(e) => Err(e),
        }
    }
}

/// A `GetVfoARfGain` reply of 3 value bytes reads as the decimal number they spell; a value with a
/// byte that is not a digit is an `InvalidResponseData` error holding the value.
pub proof fn lemma_get_vfo_a_rf_gain_reply(v: Seq<u8>)
    requires
        v.len() == 3,
    ensures
        all_digits(v) && digits_value(v) <= 255 ==> GetVfoARfGain::spec_parse_response(frame(get_vfo_a_rf_gain_id(), v)) == Ok::<u8, Failure>(digits_value(v) as u8),
        !all_digits(v) ==> GetVfoARfGain::spec_parse_response(frame(get_vfo_a_rf_gain_id(), v)) == Err::<u8, Failure>(Failure::ResponseData(v)),
{
    lemma_framed_value_reads_back(get_vfo_a_rf_gain_id(), v);
}

/// `RG$`
pub open spec fn get_vfo_b_rf_gain_id() -> Seq<u8> {
    seq![0x52, 0x47, 0x24]
}

fn get_vfo_b_rf_gain_id_bytes() -> (r: &'static [u8])
    ensures
        r@ == get_vfo_b_rf_gain_id(),
{
    &[0x52, 0x47, 0x24]
}

/// Get RadioFrequency (RF) gain (DAC value) for VFO B (`RG$`).
#[derive(Clone, Copy, Debug, PartialEq, Eq)]
pub struct GetVfoBRfGain;

impl GetVfoBRfGain {
    pub fn to_bytes(&self) -> (r: Vec<u8>)
        ensures
            r@ == frame(get_vfo_b_rf_gain_id(), seq![]),
    {
        let none: [u8; 0] = [];
        frame_command(get_vfo_b_rf_gain_id_bytes(), &none)
    }

    pub open spec fn spec_parse_response(bytes: Seq<u8>) -> Result<u8, Failure> {
        match spec_validate_response(bytes, get_vfo_b_rf_gain_id(), 3) {
            Ok(v) => spec_u8_field(v),
            Err(f) => Err(f),
        }
    }

    /// Reads the digits of a framed reply; a value above 255 is outside the domain.
    pub fn parse(&self, bytes: &[u8]) -> (r: Result<u8, RigError>)
        requires
            spec_validate_response(bytes@, get_vfo_b_rf_gain_id(), 3) matches Ok(v) ==> leading_value(v) <= u8::MAX,
        ensures
            agrees(r, Self::spec_parse_response(bytes@)),
    {
        match validate_response(bytes, get_vfo_b_rf_gain_id_bytes(), 3) {
            Ok(d) => {
                proof {
                    lemma_leading_value_bound(d@);
                    lemma_pow10_values();
                }
                u8_from_ascii(d)
            },
            Err(e) => Err(e),
        }
    }
}

/// A `GetVfoBRfGain` reply of 3 value bytes reads as the decimal number they spell; a value with a
/// byte that is not a digit is an `InvalidResponseData` error holding the value.
pub proof fn lemma_get_vfo_b_rf_gain_reply(v: Seq<u8>)
    requires
        v.len() == 3,
    ensures
        all_digits(v) && digits_value(v) <= 255 ==> GetVfoBRfGain::spec_parse_response(frame(get_vfo_b_rf_gain_id(), v)) == Ok::<u8, Failure>(digits_value(v) as u8),
        !all_digits(v) ==> GetVfoBRfGain::spec_parse_response(frame(get_vfo_b_rf_gain_id(), v)) == Err::<u8, Failure>(Failure::ResponseData(v)),
{
    lemma_framed_value_reads_back(get_vfo_b_rf_gain_id(), v);
}

/// `RG`
pub open spec fn set_vfo_a_rf_gain_id() -> Seq<u8> {
    seq![0x52, 0x47]
}

fn set_vfo_a_rf_gain_id_bytes() -> (r: &'static [u8])
    ensures
        r@ == set_vfo_a_rf_gain_id(),
{
    &[0x52, 0x47]
}

/// Set RadioFrequency (RF) gain (DAC value) for VFO A (`RG`).
#[derive(Clone, Copy, Debug, PartialEq, Eq)]
pub struct SetVfoARfGain {
    pub gain: u8,
}

impl SetVfoARfGain {
    /// The values the command accepts.
    pub open spec fn spec_in_range(self) -> bool {
        190 <= self.gain <= 250
    }

    /// The argument bytes.
    pub open spec fn spec_args(self) -> Seq<u8> {
        uint_args(self.gain as u32, 3)
    }

    /// The command, or `InvalidArgumentValue` for a value out of range.
    pub fn to_bytes(&self) -> (r: Result<Vec<u8>, RigError>)
        ensures
            self.spec_in_range() ==> (r matches Ok(b) && b@ == frame(set_vfo_a_rf_gain_id(), self.spec_args())),
            !self.spec_in_range() ==> (r matches Err(e) && e.fails_with(
                Failure::ArgumentValue("gain"@, "u8"@, decimal_string(self.gain as int)),
            )),
    {
        encode_uint_in_range(set_vfo_a_rf_gain_id_bytes(), "gain", "u8", self.gain as u32, 190, 250, 3)
    }
}

/// `SetVfoARfGain` accepts `gain` when `190 <= s.gain <= 250` and sends it as decimal digits, zero-padded to 3.
pub proof fn lemma_set_vfo_a_rf_gain_argument(s: SetVfoARfGain)
    ensures
        s.spec_in_range() == (190 <= s.gain <= 250),
        all_digits(s.spec_args()),
        digits_value(s.spec_args()) == s.gain,
        (s.gain as nat) < pow10(3) ==> s.spec_args().len() == 3,
{
    lemma_padded_decimal_value(s.gain as nat, 3);
    if (s.gain as nat) < pow10(3) {
        lemma_num_digits_le(s.gain as nat, 3);
    }
}

/// `RG$`
pub open spec fn set_vfo_b_rf_gain_id() -> Seq<u8> {
    seq![0x52, 0x47, 0x24]
}

fn set_vfo_b_rf_gain_id_bytes() -> (r: &'static [u8])
    ensures
        r@ == set_vfo_b_rf_gain_id(),
{
    &[0x52, 0x47, 0x24]
}

/// Set RadioFrequency (RF) gain (DAC value) for VFO B (`RG$`).
#[derive(Clone, Copy, Debug, PartialEq, Eq)]
pub struct SetVfoBRfGain {
    pub gain: u8,
}

impl SetVfoBRfGain {
    /// The values the command accepts.
    pub open spec fn spec_in_range(self) -> bool {
        190 <= self.gain <= 250
    }

    /// The argument bytes.
    pub open spec fn spec_args(self) -> Seq<u8> {
        uint_args(self.gain as u32, 3)
    }

    /// The command, or `InvalidArgumentValue` for a value out of range.
    pub fn to_bytes(&self) -> (r: Result<Vec<u8>, RigError>)
        ensures
            self.spec_in_range() ==> (r matches Ok(b) && b@ == frame(set_vfo_b_rf_gain_id(), self.spec_args())),
            !self.spec_in_range() ==> (r matches Err(e) && e.fails_with(
                Failure::ArgumentValue("gain"@, "u8"@, decimal_string(self.gain as int)),
            )),
    {
        encode_uint_in_range(set_vfo_b_rf_gain_id_bytes(), "gain", "u8", self.gain as u32, 190, 250, 3)
    }
}

/// `SetVfoBRfGain` accepts `gain` when `190 <= s.gain <= 250` and sends it as decimal digits, zero-padded to 3.
pub proof fn lemma_set_vfo_b_rf_gain_argument(s: SetVfoBRfGain)
    ensures
        s.spec_in_range() == (190 <= s.gain <= 250),
        all_digits(s.spec_args()),
        digits_value(s.spec_args()) == s.gain,
        (s.gain as nat) < pow10(3) ==> s.spec_args().len() == 3,
{
    lemma_padded_decimal_value(s.gain as nat, 3);
    if (s.gain as nat) < pow10(3) {
        lemma_num_digits_le(s.gain as nat, 3);
    }
}

/// `RT`
pub open spec fn get_rit_control_id() -> Seq<u8> {
    seq![0x52, 0x54]
}

fn get_rit_control_id_bytes() -> (r: &'static [u8])
    ensures
        r@ == get_rit_control_id(),
{
    &[0x52, 0x54]
}

/// Get Receive Incremental Tuning (RIT) on/off state (`RT`).
#[derive(Clone, Copy, Debug, PartialEq, Eq)]
pub struct GetRitControl;

impl GetRitControl {
    pub fn to_bytes(&self) -> (r: Vec<u8>)
        ensures
            r@ == frame(get_rit_control_id(), seq![]),
    {
        let none: [u8; 0] = [];
        frame_command(get_rit_control_id_bytes(), &none)
    }

    pub open spec fn spec_parse_response(bytes: Seq<u8>) -> Result<bool, Failure> {
        match spec_validate_response(bytes, get_rit_control_id(), 1) {
            Ok(v) => spec_bool_1_0(v[0]),
            Err(f) => Err(f),
        }
    }

    pub fn parse(&self, bytes: &[u8]) -> (r: Result<bool, RigError>)
        ensures
            agrees(r, Self::spec_parse_response(bytes@)),
    {
        match validate_response(bytes, get_rit_control_id_bytes(), 1) {
            Ok(d) => bool_from_ascii_1_0(d[0]),
            Err(e) => Err(e),
        }
    }
}

/// A `GetRitControl` reply whose value byte is `1` reads as `true`, `0` as `false`; any other byte is a
/// `ParseBoolean` error.
pub proof fn lemma_get_rit_control_reply(v: Seq<u8>)
    requires
        v.len() == 1,
    ensures
        v[0] == 0x31 ==> GetRitControl::spec_parse_response(frame(get_rit_control_id(), v)) == Ok::<bool, Failure>(true),
        v[0] == 0x30 ==> GetRitControl::spec_parse_response(frame(get_rit_control_id(), v)) == Ok::<bool, Failure>(false),
        v[0] != 0x30 && v[0] != 0x31 ==> GetRitControl::spec_parse_response(frame(get_rit_control_id(), v)) == Err::<bool, Failure>(Failure::Boolean(v[0])),
{
    lemma_framed_value_reads_back(get_rit_control_id(), v);
}

/// `RT`
pub open spec fn set_rit_control_id() -> Seq<u8> {
    seq![0x52, 0x54]
}

fn set_rit_control_id_bytes() -> (r: &'static [u8])
    ensures
        r@ == set_rit_control_id(),
{
    &[0x52, 0x54]
}

/// Set Receive Incremental Tuning (RIT) on/off (`RT`).
#[derive(Clone, Copy, Debug, PartialEq, Eq)]
pub struct SetRitControl {
    pub state: bool,
}

impl SetRitControl {
    pub open spec fn spec_args(self) -> Seq<u8> {
        seq![if self.state { ASCII_DIGIT_ONE } else { ASCII_DIGIT_ZERO }]
    }

    pub fn to_bytes(&self) -> (r: Vec<u8>)
        ensures
            r@ == frame(set_rit_control_id(), self.spec_args()),
    {
        let args: [u8; 1] = [if self.state { ASCII_DIGIT_ONE } else { ASCII_DIGIT_ZERO }];
        assert(args@ =~= self.spec_args());
        frame_command(set_rit_control_id_bytes(), &args)
    }
}

/// `SetRitControl` sends `1` when `state` is set and `0` when it is clear.
pub proof fn lemma_set_rit_control_argument(s: SetRitControl)
    ensures
        s.state ==> s.spec_args() == seq![0x31u8],
        !s.state ==> s.spec_args() == seq![0x30u8],
{
}

/// `RU`
pub open spec fn move_rit_offset_up_id() -> Seq<u8> {
    seq![0x52, 0x55]
}

fn move_rit_offset_up_id_bytes() -> (r: &'static [u8])
    ensures
        r@ == move_rit_offset_up_id(),
{
    &[0x52, 0x55]
}

/// Move the Receive Incremental Tuning (RIT)/Transmit Incremental Tuning(XIT) offset up by `hz` Hz (`RU`).
#[derive(Clone, Copy, Debug, PartialEq, Eq)]
pub struct MoveRitOffsetUp {
    pub hz: u16,
}

impl MoveRitOffsetUp {
    /// The values the command accepts.
    pub open spec fn spec_in_range(self) -> bool {
        self.hz <= 9999
    }

    /// The argument bytes.
    pub open spec fn spec_args(self) -> Seq<u8> {
        uint_args(self.hz as u32, 4)
    }

    /// The command, or `InvalidArgumentValue` for a value out of range.
    pub fn to_bytes(&self) -> (r: Result<Vec<u8>, RigError>)
        ensures
            self.spec_in_range() ==> (r matches Ok(b) && b@ == frame(move_rit_offset_up_id(), self.spec_args())),
            !self.spec_in_range() ==> (r matches Err(e) && e.fails_with(
                Failure::ArgumentValue("hz"@, "u16"@, decimal_string(self.hz as int)),
            )),
    {
        encode_uint_in_range(move_rit_offset_up_id_bytes(), "hz", "u16", self.hz as u32, 0, 9999, 4)
    }
}

/// `MoveRitOffsetUp` accepts `hz` when `s.hz <= 9999` and sends it as decimal digits, zero-padded to 4.
pub proof fn lemma_move_rit_offset_up_argument(s: MoveRitOffsetUp)
    ensures
        s.spec_in_range() == (s.hz <= 9999),
        all_digits(s.spec_args()),
        digits_value(s.spec_args()) == s.hz,
        (s.hz as nat) < pow10(4) ==> s.spec_args().len() == 4,
{
    lemma_padded_decimal_value(s.hz as nat, 4);
    if (s.hz as nat) < pow10(4) {
        lemma_num_digits_le(s.hz as nat, 4);
    }
}

/// `RV`
pub open spec fn get_firmware_revision_id() -> Seq<u8> {
    seq![0x52, 0x56]
}

fn get_firmware_revision_id_bytes() -> (r: &'static [u8])
    ensures
        r@ == get_firmware_revision_id(),
{
    &[0x52, 0x56]
}

/// Get firmware revision information (`RV`).
#[derive(Clone, Copy, Debug, PartialEq, Eq)]
pub struct GetFirmwareRevision;

impl GetFirmwareRevision {
    pub fn to_bytes(&self) -> (r: Vec<u8>)
        ensures
            r@ == frame(get_firmware_revision_id(), seq![]),
    {
        let none: [u8; 0] = [];
        frame_command(get_firmware_revision_id_bytes(), &none)
    }

    /// The value bytes of a framed reply.
    pub fn parse(&self, bytes: &[u8]) -> (r: Result<Vec<u8>, RigError>)
        ensures
            match spec_validate_response(bytes@, get_firmware_revision_id(), 11) {
                Ok(v) => r matches Ok(d) && d@ == v,
                Err(f) => r matches Err(e) && e.fails_with(f),
            },
    {
        match validate_response(bytes, get_firmware_revision_id_bytes(), 11) {
            Ok(d) => bytes_to_vec(d),
            Err(e) => Err(e),
        }
    }
}

/// `RX`
pub open spec fn go_to_receive_id() -> Seq<u8> {
    seq![0x52, 0x58]
}

fn go_to_receive_id_bytes() -> (r: &'static [u8])
    ensures
        r@ == go_to_receive_id(),
{
    &[0x52, 0x58]
}

/// Exit transmit and return to receive mode (`RX`).
#[derive(Clone, Copy, Debug, PartialEq, Eq)]
pub struct GoToReceive;

impl GoToReceive {
    pub fn to_bytes(&self) -> (r: Vec<u8>)
        ensures
            r@ == frame(go_to_receive_id(), seq![]),
    {
        let none: [u8; 0] = [];
        frame_command(go_to_receive_id_bytes(), &none)
    }
}

/// `SB`
pub open spec fn get_sub_receiver_id() -> Seq<u8> {
    seq![0x53, 0x42]
}

fn get_sub_receiver_id_bytes() -> (r: &'static [u8])
    ensures
        r@ == get_sub_receiver_id(),
{
    &[0x53, 0x42]
}

/// Get sub-receiver on/off state (`SB`).
#[derive(Clone, Copy, Debug, PartialEq, Eq)]
pub struct GetSubReceiver;

impl GetSubReceiver {
    pub fn to_bytes(&self) -> (r: Vec<u8>)
        ensures
            r@ == frame(get_sub_receiver_id(), seq![]),
    {
        let none: [u8; 0] = [];
        frame_command(get_sub_receiver_id_bytes(), &none)
    }

    pub open spec fn spec_parse_response(bytes: Seq<u8>) -> Result<bool, Failure> {
        match spec_validate_response(bytes, get_sub_receiver_id(), 1) {
            Ok(v) => spec_bool_1_0(v[0]),
            Err(f) => Err(f),
        }
    }

    pub fn parse(&self, bytes: &[u8]) -> (r: Result<bool, RigError>)
        ensures
            agrees(r, Self::spec_parse_response(bytes@)),
    {
        match validate_response(bytes, get_sub_receiver_id_bytes(), 1) {
            Ok(d) => bool_from_ascii_1_0(d[0]),
            Err(e) => Err(e),
        }
    }
}

/// A `GetSubReceiver` reply whose value byte is `1` reads as `true`, `0` as `false`; any other byte is a
/// `ParseBoolean` error.
pub proof fn lemma_get_sub_receiver_reply(v: Seq<u8>)
    requires
        v.len() == 1,
    ensures
        v[0] == 0x31 ==> GetSubReceiver::spec_parse_response(frame(get_sub_receiver_id(), v)) == Ok::<bool, Failure>(true),
        v[0] == 0x30 ==> GetSubReceiver::spec_parse_response(frame(get_sub_receiver_id(), v)) == Ok::<bool, Failure>(false),
        v[0] != 0x30 && v[0] != 0x31 ==> GetSubReceiver::spec_parse_response(frame(get_sub_receiver_id(), v)) == Err::<bool, Failure>(Failure::Boolean(v[0])),
{
    lemma_framed_value_reads_back(get_sub_receiver_id(), v);
}

/// `SB`
pub open spec fn set_sub_receiver_id() -> Seq<u8> {
    seq![0x53, 0x42]
}

fn set_sub_receiver_id_bytes() -> (r: &'static [u8])
    ensures
        r@ == set_sub_receiver_id(),
{
    &[0x53, 0x42]
}

/// Set sub-receiver on/off state (`SB`).
#[derive(Clone, Copy, Debug, PartialEq, Eq)]
pub struct SetSubReceiver {
    pub state: bool,
}

impl SetSubReceiver {
    pub open spec fn spec_args(self) -> Seq<u8> {
        seq![if self.state { ASCII_DIGIT_ONE } else { ASCII_DIGIT_ZERO }]
    }

    pub fn to_bytes(&self) -> (r: Vec<u8>)
        ensures
            r@ == frame(set_sub_receiver_id(), self.spec_args()),
    {
        let args: [u8; 1] = [if self.state { ASCII_DIGIT_ONE } else { ASCII_DIGIT_ZERO }];
        assert(args@ =~= self.spec_args());
        frame_command(set_sub_receiver_id_bytes(), &args)
    }
}

/// `SetSubReceiver` sends `1` when `state` is set and `0` when it is clear.
pub proof fn lemma_set_sub_receiver_argument(s: SetSubReceiver)
    ensures
        s.state ==> s.spec_args() == seq![0x31u8],
        !s.state ==> s.spec_args() == seq![0x30u8],
{
}

/// `SD`
pub open spec fn get_qsk_delay_id() -> Seq<u8> {
    seq![0x53, 0x44]
}

fn get_qsk_delay_id_bytes() -> (r: &'static [u8])
    ensures
        r@ == get_qsk_delay_id(),
{
    &[0x53, 0x44]
}

/// Get Full Break-In (QSK) delay in milliseconds (`SD`).
#[derive(Clone, Copy, Debug, PartialEq, Eq)]
pub struct GetQskDelay;

impl GetQskDelay {
    pub fn to_bytes(&self) -> (r: Vec<u8>)
        ensures
            r@ == frame(get_qsk_delay_id(), seq![]),
    {
        let none: [u8; 0] = [];
        frame_command(get_qsk_delay_id_bytes(), &none)
    }

    pub open spec fn spec_parse_response(bytes: Seq<u8>) -> Result<u16, Failure> {
        match spec_validate_response(bytes, get_qsk_delay_id(), 4) {
            Ok(v) => spec_u16_field(v),
            Err(f) => Err(f),
        }
    }

    pub fn parse(&self, bytes: &[u8]) -> (r: Result<u16, RigError>)
        ensures
            agrees(r, Self::spec_parse_response(bytes@)),
    {
        match validate_response(bytes, get_qsk_delay_id_bytes(), 4) {
            Ok(d) => {
                proof {
                    lemma_leading_value_bound(d@);
                    lemma_pow10_values();
                }
                u16_from_ascii(d)
            },
            Err(e) => Err(e),
        }
    }
}

/// A `GetQskDelay` reply of 4 value bytes reads as the decimal number they spell; a value with a
/// byte that is not a digit is an `InvalidResponseData` error holding the value.
pub proof fn lemma_get_qsk_delay_reply(v: Seq<u8>)
    requires
        v.len() == 4,
    ensures
        all_digits(v) && digits_value(v) <= u16::MAX ==> GetQskDelay::spec_parse_response(frame(get_qsk_delay_id(), v)) == Ok::<u16, Failure>(digits_value(v) as u16),
        !all_digits(v) ==> GetQskDelay::spec_parse_response(frame(get_qsk_delay_id(), v)) == Err::<u16, Failure>(Failure::ResponseData(v)),
{
    lemma_framed_value_reads_back(get_qsk_delay_id(), v);
}

/// `SM`
pub open spec fn get_vfo_a_s_meter_id() -> Seq<u8> {
    seq![0x53, 0x4D]
}

fn get_vfo_a_s_meter_id_bytes() -> (r: &'static [u8])
    ensures
        r@ == get_vfo_a_s_meter_id(),
{
    &[0x53, 0x4D]
}

/// Get S-meter value for VFO A (`SM`).
#[derive(Clone, Copy, Debug, PartialEq, Eq)]
pub struct GetVfoASMeter;

impl GetVfoASMeter {
    pub fn to_bytes(&self) -> (r: Vec<u8>)
        ensures
            r@ == frame(get_vfo_a_s_meter_id(), seq![]),
    {
        let none: [u8; 0] = [];
        frame_command(get_vfo_a_s_meter_id_bytes(), &none)
    }

    pub open spec fn spec_parse_response(bytes: Seq<u8>) -> Result<u8, Failure> {
        match spec_validate_response(bytes, get_vfo_a_s_meter_id(), 2) {
            Ok(v) => spec_u8_field(v),
            Err(f) => Err(f),
        }
    }

    pub fn parse(&self, bytes: &[u8]) -> (r: Result<u8, RigError>)
        ensures
            agrees(r, Self::spec_parse_response(bytes@)),
    {
        match validate_response(bytes, get_vfo_a_s_meter_id_bytes(), 2) {
            Ok(d) => {
                proof {
                    lemma_leading_value_bound(d@);
                    lemma_pow10_values();
                }
                u8_from_ascii(d)
            },
            Err(e) => Err(e),
        }
    }
}

/// A `GetVfoASMeter` reply of 2 value bytes reads as the decimal number they spell; a value with a
/// byte that is not a digit is an `InvalidResponseData` error holding the value.
pub proof fn lemma_get_vfo_a_s_meter_reply(v: Seq<u8>)
    requires
        v.len() == 2,
    ensures
        all_digits(v) && digits_value(v) <= 255 ==> GetVfoASMeter::spec_parse_response(frame(get_vfo_a_s_meter_id(), v)) == Ok::<u8, Failure>(digits_value(v) as u8),
        !all_digits(v) ==> GetVfoASMeter::spec_parse_response(frame(get_vfo_a_s_meter_id(), v)) == Err::<u8, Failure>(Failure::ResponseData(v)),
{
    lemma_framed_value_reads_back(get_vfo_a_s_meter_id(), v);
}

/// `SM$`
pub open spec fn get_vfo_b_s_meter_id() -> Seq<u8> {
    seq![0x53, 0x4D, 0x24]
}

fn get_vfo_b_s_meter_id_bytes() -> (r: &'static [u8])
    ensures
        r@ == get_vfo_b_s_meter_id(),
{
    &[0x53, 0x4D, 0x24]
}

/// Get S-meter value for VFO B (`SM$`).
#[derive(Clone, Copy, Debug, PartialEq, Eq)]
pub struct GetVfoBSMeter;

impl GetVfoBSMeter {
    pub fn to_bytes(&self) -> (r: Vec<u8>)
        ensures
            r@ == frame(get_vfo_b_s_meter_id(), seq![]),
    {
        let none: [u8; 0] = [];
        frame_command(get_vfo_b_s_meter_id_bytes(), &none)
    }

    pub open spec fn spec_parse_response(bytes: Seq<u8>) -> Result<u8, Failure> {
        match spec_validate_response(bytes, get_vfo_b_s_meter_id(), 2) {
            Ok(v) => spec_u8_field(v),
            Err(f) => Err(f),
        }
    }

    pub fn parse(&self, bytes: &[u8]) -> (r: Result<u8, RigError>)
        ensures
            agrees(r, Self::spec_parse_response(bytes@)),
    {
        match validate_response(bytes, get_vfo_b_s_meter_id_bytes(), 2) {
            Ok(d) => {
                proof {
                    lemma_leading_value_bound(d@);
                    lemma_pow10_values();
                }
                u8_from_ascii(d)
            },
            Err(e) => Err(e),
        }
    }
}

/// A `GetVfoBSMeter` reply of 2 value bytes reads as the decimal number they spell; a value with a
/// byte that is not a digit is an `InvalidResponseData` error holding the value.
pub proof fn lemma_get_vfo_b_s_meter_reply(v: Seq<u8>)
    requires
        v.len() == 2,
    ensures
        all_digits(v) && digits_value(v) <= 255 ==> GetVfoBSMeter::spec_parse_response(frame(get_vfo_b_s_meter_id(), v)) == Ok::<u8, Failure>(digits_value(v) as u8),
        !all_digits(v) ==> GetVfoBSMeter::spec_parse_response(frame(get_vfo_b_s_meter_id(), v)) == Err::<u8, Failure>(Failure::ResponseData(v)),
{
    lemma_framed_value_reads_back(get_vfo_b_s_meter_id(), v);
}

/// `SMH`
pub open spec fn get_high_resolution_s_meter_id() -> Seq<u8> {
    seq![0x53, 0x4D, 0x48]
}

fn get_high_resolution_s_meter_id_bytes() -> (r: &'static [u8])
    ensures
        r@ == get_high_resolution_s_meter_id(),
{
    &[0x53, 0x4D, 0x48]
}

/// Get high-resolution S-meter (`SMH`).
#[derive(Clone, Copy, Debug, PartialEq, Eq)]
pub struct GetHighResolutionSMeter;

impl GetHighResolutionSMeter {
    pub fn to_bytes(&self) -> (r: Vec<u8>)
        ensures
            r@ == frame(get_high_resolution_s_meter_id(), seq![]),
    {
        let none: [u8; 0] = [];
        frame_command(get_high_resolution_s_meter_id_bytes(), &none)
    }

    pub open spec fn spec_parse_response(bytes: Seq<u8>) -> Result<u16, Failure> {
        match spec_validate_response(bytes, get_high_resolution_s_meter_id(), 4) {
            Ok(v) => spec_u16_field(v),
            Err(f) => Err(f),
        }
    }

    pub fn parse(&self, bytes: &[u8]) -> (r: Result<u16, RigError>)
        ensures
            agrees(r, Self::spec_parse_response(bytes@)),
    {
        match validate_response(bytes, get_high_resolution_s_meter_id_bytes(), 4) {
            Ok(d) => {
                proof {
                    lemma_leading_value_bound(d@);
                    lemma_pow10_values();
                }
                u16_from_ascii(d)
            },
            Err(e) => Err(e),
        }
    }
}

/// A `GetHighResolutionSMeter` reply of 4 value bytes reads as the decimal number they spell; a value with a
/// byte that is not a digit is an `InvalidResponseData` error holding the value.
pub proof fn lemma_get_high_resolution_s_meter_reply(v: Seq<u8>)
    requires
        v.len() == 4,
    ensures
        all_digits(v) && digits_value(v) <= u16::MAX ==> GetHighResolutionSMeter::spec_parse_response(frame(get_high_resolution_s_meter_id(), v)) == Ok::<u16, Failure>(digits_value(v) as u16),
        !all_digits(v) ==> GetHighResolutionSMeter::spec_parse_response(frame(get_high_resolution_s_meter_id(), v)) == Err::<u16, Failure>(Failure::ResponseData(v)),
{
    lemma_framed_value_reads_back(get_high_resolution_s_meter_id(), v);
}

/// `SQ`
pub open spec fn get_vfo_a_squelch_id() -> Seq<u8> {
    seq![0x53, 0x51]
}

fn get_vfo_a_squelch_id_bytes() -> (r: &'static [u8])
    ensures
        r@ == get_vfo_a_squelch_id(),
{
    &[0x53, 0x51]
}

/// Get squelch level for VFO A (`SQ`).
#[derive(Clone, Copy, Debug, PartialEq, Eq)]
pub struct GetVfoASquelch;

impl GetVfoASquelch {
    pub fn to_bytes(&self) -> (r: Vec<u8>)
        ensures
            r@ == frame(get_vfo_a_squelch_id(), seq![]),
    {
        let none: [u8; 0] = [];
        frame_command(get_vfo_a_squelch_id_bytes(), &none)
    }

    pub open spec fn spec_parse_response(bytes: Seq<u8>) -> Result<u8, Failure> {
        match spec_validate_response(bytes, get_vfo_a_squelch_id(), 2) {
            Ok(v) => spec_u8_field(v),
            Err(f) => Err(f),
        }
    }

    pub fn parse(&self, bytes: &[u8]) -> (r: Result<u8, RigError>)
        ensures
            agrees(r, Self::spec_parse_response(bytes@)),
    {
        match validate_response(bytes, get_vfo_a_squelch_id_bytes(), 2) {
            Ok(d) => {
                proof {
                    lemma_leading_value_bound(d@);
                    lemma_pow10_values();
                }
                u8_from_ascii(d)
            },
            Err(e) => Err(e),
        }
    }
}

/// A `GetVfoASquelch` reply of 2 value bytes reads as the decimal number they spell; a value with a
/// byte that is not a digit is an `InvalidResponseData` error holding the value.
pub proof fn lemma_get_vfo_a_squelch_reply(v: Seq<u8>)
    requires
        v.len() == 2,
    ensures
        all_digits(v) && digits_value(v) <= 255 ==> GetVfoASquelch::spec_parse_response(frame(get_vfo_a_squelch_id(), v)) == Ok::<u8, Failure>(digits_value(v) as u8),
        !all_digits(v) ==> GetVfoASquelch::spec_parse_response(frame(get_vfo_a_squelch_id(), v)) == Err::<u8, Failure>(Failure::ResponseData(v)),
{
    lemma_framed_value_reads_back(get_vfo_a_squelch_id(), v);
}

/// `SQ$`
pub open spec fn get_vfo_b_squelch_id() -> Seq<u8> {
    seq![0x53, 0x51, 0x24]
}

fn get_vfo_b_squelch_id_bytes() -> (r: &'static [u8])
    ensures
        r@ == get_vfo_b_squelch_id(),
{
    &[0x53, 0x51, 0x24]
}

/// Get squelch level for VFO B (`SQ$`).
#[derive(Clone, Copy, Debug, PartialEq, Eq)]
pub struct GetVfoBSquelch;

impl GetVfoBSquelch {
    pub fn to_bytes(&self) -> (r: Vec<u8>)
        ensures
            r@ == frame(get_vfo_b_squelch_id(), seq![]),
    {
        let none: [u8; 0] = [];
        frame_command(get_vfo_b_squelch_id_bytes(), &none)
    }

    pub open spec fn spec_parse_response(bytes: Seq<u8>) -> Result<u8, Failure> {
        match spec_validate_response(bytes, get_vfo_b_squelch_id(), 2) {
            Ok(v) => spec_u8_field(v),
            Err(f) => Err(f),
        }
    }

    pub fn parse(&self, bytes: &[u8]) -> (r: Result<u8, RigError>)
        ensures
            agrees(r, Self::spec_parse_response(bytes@)),
    {
        match validate_response(bytes, get_vfo_b_squelch_id_bytes(), 2) {
            Ok(d) => {
                proof {
                    lemma_leading_value_bound(d@);
                    lemma_pow10_values();
                }
                u8_from_ascii(d)
            },
            Err(e) => Err(e),
        }
    }
}

/// A `GetVfoBSquelch` reply of 2 value bytes reads as the decimal number they spell; a value with a
/// byte that is not a digit is an `InvalidResponseData` error holding the value.
pub proof fn lemma_get_vfo_b_squelch_reply(v: Seq<u8>)
    requires
        v.len() == 2,
    ensures
        all_digits(v) && digits_value(v) <= 255 ==> GetVfoBSquelch::spec_parse_response(frame(get_vfo_b_squelch_id(), v)) == Ok::<u8, Failure>(digits_value(v) as u8),
        !all_digits(v) ==> GetVfoBSquelch::spec_parse_response(frame(get_vfo_b_squelch_id(), v)) == Err::<u8, Failure>(Failure::ResponseData(v)),
{
    lemma_framed_value_reads_back(get_vfo_b_squelch_id(), v);
}

/// `SQ`
pub open spec fn set_vfo_a_squelch_id() -> Seq<u8> {
    seq![0x53, 0x51]
}

fn set_vfo_a_squelch_id_bytes() -> (r: &'static [u8])
    ensures
        r@ == set_vfo_a_squelch_id(),
{
    &[0x53, 0x51]
}

/// Set squelch level for VFO A (`SQ`).
#[derive(Clone, Copy, Debug, PartialEq, Eq)]
pub struct SetVfoASquelch {
    pub level: u8,
}

impl SetVfoASquelch {
    /// The values the command accepts.
    pub open spec fn spec_in_range(self) -> bool {
        self.level <= 29
    }

    /// The argument bytes.
    pub open spec fn spec_args(self) -> Seq<u8> {
        uint_args(self.level as u32, 2)
    }

    /// The command, or `InvalidArgumentValue` for a value out of range.
    pub fn to_bytes(&self) -> (r: Result<Vec<u8>, RigError>)
        ensures
            self.spec_in_range() ==> (r matches Ok(b) && b@ == frame(set_vfo_a_squelch_id(), self.spec_args())),
            !self.spec_in_range() ==> (r matches Err(e) && e.fails_with(
                Failure::ArgumentValue("level"@, "u8"@, decimal_string(self.level as int)),
            )),
    {
        encode_uint_in_range(set_vfo_a_squelch_id_bytes(), "level", "u8", self.level as u32, 0, 29, 2)
    }
}

/// `SetVfoASquelch` accepts `level` when `s.level <= 29` and sends it as decimal digits, zero-padded to 2.
pub proof fn lemma_set_vfo_a_squelch_argument(s: SetVfoASquelch)
    ensures
        s.spec_in_range() == (s.level <= 29),
        all_digits(s.spec_args()),
        digits_value(s.spec_args()) == s.level,
        (s.level as nat) < pow10(2) ==> s.spec_args().len() == 2,
{
    lemma_padded_decimal_value(s.level as nat, 2);
    if (s.level as nat) < pow10(2) {
        lemma_num_digits_le(s.level as nat, 2);
    }
}

/// `SQ$`
pub open spec fn set_vfo_b_squelch_id() -> Seq<u8> {
    seq![0x53, 0x51, 0x24]
}

fn set_vfo_b_squelch_id_bytes() -> (r: &'static [u8])
    ensures
        r@ == set_vfo_b_squelch_id(),
{
    &[0x53, 0x51, 0x24]
}

/// Set squelch level for VFO B (`SQ$`).
#[derive(Clone, Copy, Debug, PartialEq, Eq)]
pub struct SetVfoBSquelch {
    pub level: u8,
}

impl SetVfoBSquelch {
    /// The values the command accepts.
    pub open spec fn spec_in_range(self) -> bool {
        self.level <= 29
    }

    /// The argument bytes.
    pub open spec fn spec_args(self) -> Seq<u8> {
        uint_args(self.level as u32, 2)
    }

    /// The command, or `InvalidArgumentValue` for a value out of range.
    pub fn to_bytes(&self) -> (r: Result<Vec<u8>, RigError>)
        ensures
            self.spec_in_range() ==> (r matches Ok(b) && b@ == frame(set_vfo_b_squelch_id(), self.spec_args())),
            !self.spec_in_range() ==> (r matches Err(e) && e.fails_with(
                Failure::ArgumentValue("level"@, "u8"@, decimal_string(self.level as int)),
            )),
    {
        encode_uint_in_range(set_vfo_b_squelch_id_bytes(), "level", "u8", self.level as u32, 0, 29, 2)
    }
}

/// `SetVfoBSquelch` accepts `level` when `s.level <= 29` and sends it as decimal digits, zero-padded to 2.
pub proof fn lemma_set_vfo_b_squelch_argument(s: SetVfoBSquelch)
    ensures
        s.spec_in_range() == (s.level <= 29),
        all_digits(s.spec_args()),
        digits_value(s.spec_args()) == s.level,
        (s.level as nat) < pow10(2) ==> s.spec_args().len() == 2,
{
    lemma_padded_decimal_value(s.level as nat, 2);
    if (s.level as nat) < pow10(2) {
        lemma_num_digits_le(s.level as nat, 2);
    }
}

/// `SWT`
pub open spec fn emulate_button_tap_id() -> Seq<u8> {
    seq![0x53, 0x57, 0x54]
}

fn emulate_button_tap_id_bytes() -> (r: &'static [u8])
    ensures
        r@ == emulate_button_tap_id(),
{
    &[0x53, 0x57, 0x54]
}

/// Emulate a front-panel button tap (`SWT`).
#[derive(Clone, Copy, Debug, PartialEq, Eq)]
pub struct EmulateButtonTap {
    pub button: u8,
}

impl EmulateButtonTap {
    pub open spec fn spec_args(self) -> Seq<u8> {
        padded_decimal(self.button as nat, 2)
    }

    pub fn to_bytes(&self) -> (r: Vec<u8>)
        ensures
            r@ == frame(emulate_button_tap_id(), self.spec_args()),
    {
        let args = format_uint_ascii(self.button as u64, 2);
        frame_command(emulate_button_tap_id_bytes(), args.as_slice())
    }
}

/// `EmulateButtonTap` sends `button` as decimal digits, zero-padded to 2 digits when it fits in 2.
pub proof fn lemma_emulate_button_tap_argument(s: EmulateButtonTap)
    ensures
        all_digits(s.spec_args()),
        digits_value(s.spec_args()) == s.button,
        (s.button as nat) < pow10(2) ==> s.spec_args().len() == 2,
        s.spec_args().len() >= 2,
{
    lemma_padded_decimal_value(s.button as nat, 2);
    if (s.button as nat) < pow10(2) {
        lemma_num_digits_le(s.button as nat, 2);
    }
}

/// `SWH`
pub open spec fn emulate_button_hold_id() -> Seq<u8> {
    seq![0x53, 0x57, 0x48]
}

fn emulate_button_hold_id_bytes() -> (r: &'static [u8])
    ensures
        r@ == emulate_button_hold_id(),
{
    &[0x53, 0x57, 0x48]
}

/// Emulate a front-panel button hold (long press).
#[derive(Clone, Copy, Debug, PartialEq, Eq)]
pub struct EmulateButtonHold {
    pub button: u8,
}

impl EmulateButtonHold {
    pub open spec fn spec_args(self) -> Seq<u8> {
        padded_decimal(self.button as nat, 2)
    }

    pub fn to_bytes(&self) -> (r: Vec<u8>)
        ensures
            r@ == frame(emulate_button_hold_id(), self.spec_args()),
    {
        let args = format_uint_ascii(self.button as u64, 2);
        frame_command(emulate_button_hold_id_bytes(), args.as_slice())
    }
}

/// `EmulateButtonHold` sends `button` as decimal digits, zero-padded to 2 digits when it fits in 2.
pub proof fn lemma_emulate_button_hold_argument(s: EmulateButtonHold)
    ensures
        all_digits(s.spec_args()),
        digits_value(s.spec_args()) == s.button,
        (s.button as nat) < pow10(2) ==> s.spec_args().len() == 2,
        s.spec_args().len() >= 2,
{
    lemma_padded_decimal_value(s.button as nat, 2);
    if (s.button as nat) < pow10(2) {
        lemma_num_digits_le(s.button as nat, 2);
    }
}

/// `TM`
pub open spec fn get_transmit_meter_mode_id() -> Seq<u8> {
    seq![0x54, 0x4D]
}

fn get_transmit_meter_mode_id_bytes() -> (r: &'static [u8])
    ensures
        r@ == get_transmit_meter_mode_id(),
{
    &[0x54, 0x4D]
}

/// Get transmit meter display mode (`TM`).
#[derive(Clone, Copy, Debug, PartialEq, Eq)]
pub struct GetTransmitMeterMode;

impl GetTransmitMeterMode {
    pub fn to_bytes(&self) -> (r: Vec<u8>)
        ensures
            r@ == frame(get_transmit_meter_mode_id(), seq![]),
    {
        let none: [u8; 0] = [];
        frame_command(get_transmit_meter_mode_id_bytes(), &none)
    }

    pub open spec fn spec_parse_response(bytes: Seq<u8>) -> Result<u8, Failure> {
        match spec_validate_response(bytes, get_transmit_meter_mode_id(), 1) {
            Ok(v) => spec_u8_field(v),
            Err(f) => Err(f),
        }
    }

    pub fn parse(&self, bytes: &[u8]) -> (r: Result<u8, RigError>)
        ensures
            agrees(r, Self::spec_parse_response(bytes@)),
    {
        match validate_response(bytes, get_transmit_meter_mode_id_bytes(), 1) {
            Ok(d) => {
                proof {
                    lemma_leading_value_bound(d@);
                    lemma_pow10_values();
                }
                u8_from_ascii(d)
            },
            Err(e) => Err(e),
        }
    }
}

/// A `GetTransmitMeterMode` reply of 1 value bytes reads as the decimal number they spell; a value with a
/// byte that is not a digit is an `InvalidResponseData` error holding the value.
pub proof fn lemma_get_transmit_meter_mode_reply(v: Seq<u8>)
    requires
        v.len() == 1,
    ensures
        all_digits(v) && digits_value(v) <= 255 ==> GetTransmitMeterMode::spec_parse_response(frame(get_transmit_meter_mode_id(), v)) == Ok::<u8, Failure>(digits_value(v) as u8),
        !all_digits(v) ==> GetTransmitMeterMode::spec_parse_response(frame(get_transmit_meter_mode_id(), v)) == Err::<u8, Failure>(Failure::ResponseData(v)),
{
    lemma_framed_value_reads_back(get_transmit_meter_mode_id(), v);
}

/// `TM`
pub open spec fn set_transmit_meter_mode_id() -> Seq<u8> {
    seq![0x54, 0x4D]
}

fn set_transmit_meter_mode_id_bytes() -> (r: &'static [u8])
    ensures
        r@ == set_transmit_meter_mode_id(),
{
    &[0x54, 0x4D]
}

/// Set transmit meter display mode (`TM`).
#[derive(Clone, Copy, Debug, PartialEq, Eq)]
pub struct SetTransmitMeterMode {
    pub mode: u8,
}

impl SetTransmitMeterMode {
    /// The values the command accepts.
    pub open spec fn spec_in_range(self) -> bool {
        self.mode <= 5
    }

    /// The argument bytes.
    pub open spec fn spec_args(self) -> Seq<u8> {
        uint_args(self.mode as u32, 1)
    }

    /// The command, or `InvalidArgumentValue` for a value out of range.
    pub fn to_bytes(&self) -> (r: Result<Vec<u8>, RigError>)
        ensures
            self.spec_in_range() ==> (r matches Ok(b) && b@ == frame(set_transmit_meter_mode_id(), self.spec_args())),
            !self.spec_in_range() ==> (r matches Err(e) && e.fails_with(
                Failure::ArgumentValue("mode"@, "u8"@, decimal_string(self.mode as int)),
            )),
    {
        encode_uint_in_range(set_transmit_meter_mode_id_bytes(), "mode", "u8", self.mode as u32, 0, 5, 1)
    }
}

/// `SetTransmitMeterMode` accepts `mode` when `s.mode <= 5` and sends it as decimal digits, zero-padded to 1.
pub proof fn lemma_set_transmit_meter_mode_argument(s: SetTransmitMeterMode)
    ensures
        s.spec_in_range() == (s.mode <= 5),
        all_digits(s.spec_args()),
        digits_value(s.spec_args()) == s.mode,
        (s.mode as nat) < pow10(1) ==> s.spec_args().len() == 1,
{
    lemma_padded_decimal_value(s.mode as nat, 1);
    if (s.mode as nat) < pow10(1) {
        lemma_num_digits_le(s.mode as nat, 1);
    }
}

/// `TQ`
pub open spec fn get_transmit_state_id() -> Seq<u8> {
    seq![0x54, 0x51]
}

fn get_transmit_state_id_bytes() -> (r: &'static [u8])
    ensures
        r@ == get_transmit_state_id(),
{
    &[0x54, 0x51]
}

/// Get transceiver's current transmitting on/off state (`TQ`).
#[derive(Clone, Copy, Debug, PartialEq, Eq)]
pub struct GetTransmitState;

impl GetTransmitState {
    pub fn to_bytes(&self) -> (r: Vec<u8>)
        ensures
            r@ == frame(get_transmit_state_id(), seq![]),
    {
        let none: [u8; 0] = [];
        frame_command(get_transmit_state_id_bytes(), &none)
    }

    pub open spec fn spec_parse_response(bytes: Seq<u8>) -> Result<bool, Failure> {
        match spec_validate_response(bytes, get_transmit_state_id(), 1) {
            Ok(v) => spec_bool_1_0(v[0]),
            Err(f) => Err(f),
        }
    }

    pub fn parse(&self, bytes: &[u8]) -> (r: Result<bool, RigError>)
        ensures
            agrees(r, Self::spec_parse_response(bytes@)),
    {
        match validate_response(bytes, get_transmit_state_id_bytes(), 1) {
            Ok(d) => bool_from_ascii_1_0(d[0]),
            Err(e) => Err(e),
        }
    }
}

/// A `GetTransmitState` reply whose value byte is `1` reads as `true`, `0` as `false`; any other byte is a
/// `ParseBoolean` error.
pub proof fn lemma_get_transmit_state_reply(v: Seq<u8>)
    requires
        v.len() == 1,
    ensures
        v[0] == 0x31 ==> GetTransmitState::spec_parse_response(frame(get_transmit_state_id(), v)) == Ok::<bool, Failure>(true),
        v[0] == 0x30 ==> GetTransmitState::spec_parse_response(frame(get_transmit_state_id(), v)) == Ok::<bool, Failure>(false),
        v[0] != 0x30 && v[0] != 0x31 ==> GetTransmitState::spec_parse_response(frame(get_transmit_state_id(), v)) == Err::<bool, Failure>(Failure::Boolean(v[0])),
{
    lemma_framed_value_reads_back(get_transmit_state_id(), v);
}

/// `TT`
pub open spec fn set_text_to_terminal_id() -> Seq<u8> {
    seq![0x54, 0x54]
}

fn set_text_to_terminal_id_bytes() -> (r: &'static [u8])
    ensures
        r@ == set_text_to_terminal_id(),
{
    &[0x54, 0x54]
}

/// Set decoded CW/RTTY text output to the serial port on/off (`TT`).
#[derive(Clone, Copy, Debug, PartialEq, Eq)]
pub struct SetTextToTerminal {
    pub state: bool,
}

impl SetTextToTerminal {
    pub open spec fn spec_args(self) -> Seq<u8> {
        seq![if self.state { ASCII_DIGIT_ONE } else { ASCII_DIGIT_ZERO }]
    }

    pub fn to_bytes(&self) -> (r: Vec<u8>)
        ensures
            r@ == frame(set_text_to_terminal_id(), self.spec_args()),
    {
        let args: [u8; 1] = [if self.state { ASCII_DIGIT_ONE } else { ASCII_DIGIT_ZERO }];
        assert(args@ =~= self.spec_args());
        frame_command(set_text_to_terminal_id_bytes(), &args)
    }
}

/// `SetTextToTerminal` sends `1` when `state` is set and `0` when it is clear.
pub proof fn lemma_set_text_to_terminal_argument(s: SetTextToTerminal)
    ensures
        s.state ==> s.spec_args() == seq![0x31u8],
        !s.state ==> s.spec_args() == seq![0x30u8],
{
}

/// `TX`
pub open spec fn go_to_transmit_id() -> Seq<u8> {
    seq![0x54, 0x58]
}

fn go_to_transmit_id_bytes() -> (r: &'static [u8])
    ensures
        r@ == go_to_transmit_id(),
{
    &[0x54, 0x58]
}

/// Assert PTT and enter transmit mode (`TX`).
#[derive(Clone, Copy, Debug, PartialEq, Eq)]
pub struct GoToTransmit;

impl GoToTransmit {
    pub fn to_bytes(&self) -> (r: Vec<u8>)
        ensures
            r@ == frame(go_to_transmit_id(), seq![]),
    {
        let none: [u8; 0] = [];
        frame_command(go_to_transmit_id_bytes(), &none)
    }
}

/// `VX`
pub open spec fn get_vox_id() -> Seq<u8> {
    seq![0x56, 0x58]
}

fn get_vox_id_bytes() -> (r: &'static [u8])
    ensures
        r@ == get_vox_id(),
{
    &[0x56, 0x58]
}

/// Get Voice-Operated eXchange (VOX) on/off state (`VX`).
#[derive(Clone, Copy, Debug, PartialEq, Eq)]
pub struct GetVox;

impl GetVox {
    pub fn to_bytes(&self) -> (r: Vec<u8>)
        ensures
            r@ == frame(get_vox_id(), seq![]),
    {
        let none: [u8; 0] = [];
        frame_command(get_vox_id_bytes(), &none)
    }

    pub open spec fn spec_parse_response(bytes: Seq<u8>) -> Result<bool, Failure> {
        match spec_validate_response(bytes, get_vox_id(), 1) {
            Ok(v) => spec_bool_1_0(v[0]),
            Err(f) => Err(f),
        }
    }

    pub fn parse(&self, bytes: &[u8]) -> (r: Result<bool, RigError>)
        ensures
            agrees(r, Self::spec_parse_response(bytes@)),
    {
        match validate_response(bytes, get_vox_id_bytes(), 1) {
            Ok(d) => bool_from_ascii_1_0(d[0]),
            Err(e) => Err(e),
        }
    }
}

/// A `GetVox` reply whose value byte is `1` reads as `true`, `0` as `false`; any other byte is a
/// `ParseBoolean` error.
pub proof fn lemma_get_vox_reply(v: Seq<u8>)
    requires
        v.len() == 1,
    ensures
        v[0] == 0x31 ==> GetVox::spec_parse_response(frame(get_vox_id(), v)) == Ok::<bool, Failure>(true),
        v[0] == 0x30 ==> GetVox::spec_parse_response(frame(get_vox_id(), v)) == Ok::<bool, Failure>(false),
        v[0] != 0x30 && v[0] != 0x31 ==> GetVox::spec_parse_response(frame(get_vox_id(), v)) == Err::<bool, Failure>(Failure::Boolean(v[0])),
{
    lemma_framed_value_reads_back(get_vox_id(), v);
}

/// `VX`
pub open spec fn set_vox_id() -> Seq<u8> {
    seq![0x56, 0x58]
}

fn set_vox_id_bytes() -> (r: &'static [u8])
    ensures
        r@ == set_vox_id(),
{
    &[0x56, 0x58]
}

/// Set Voice-Operated eXchange (VOX) on/off state (`VX`).
#[derive(Clone, Copy, Debug, PartialEq, Eq)]
pub struct SetVox {
    pub state: bool,
}

impl SetVox {
    pub open spec fn spec_args(self) -> Seq<u8> {
        seq![if self.state { ASCII_DIGIT_ONE } else { ASCII_DIGIT_ZERO }]
    }

    pub fn to_bytes(&self) -> (r: Vec<u8>)
        ensures
            r@ == frame(set_vox_id(), self.spec_args()),
    {
        let args: [u8; 1] = [if self.state { ASCII_DIGIT_ONE } else { ASCII_DIGIT_ZERO }];
        assert(args@ =~= self.spec_args());
        frame_command(set_vox_id_bytes(), &args)
    }
}

/// `SetVox` sends `1` when `state` is set and `0` when it is clear.
pub proof fn lemma_set_vox_argument(s: SetVox)
    ensures
        s.state ==> s.spec_args() == seq![0x31u8],
        !s.state ==> s.spec_args() == seq![0x30u8],
{
}

/// `XF`
pub open spec fn get_vfo_a_xfil_number_id() -> Seq<u8> {
    seq![0x58, 0x46]
}

fn get_vfo_a_xfil_number_id_bytes() -> (r: &'static [u8])
    ensures
        r@ == get_vfo_a_xfil_number_id(),
{
    &[0x58, 0x46]
}

/// Read the current roofing filter (XFIL) slot number for VFO A (`XF`).
#[derive(Clone, Copy, Debug, PartialEq, Eq)]
pub struct GetVfoAXfilNumber;

impl GetVfoAXfilNumber {
    pub fn to_bytes(&self) -> (r: Vec<u8>)
        ensures
            r@ == frame(get_vfo_a_xfil_number_id(), seq![]),
    {
        let none: [u8; 0] = [];
        frame_command(get_vfo_a_xfil_number_id_bytes(), &none)
    }

    pub open spec fn spec_parse_response(bytes: Seq<u8>) -> Result<u8, Failure> {
        match spec_validate_response(bytes, get_vfo_a_xfil_number_id(), 1) {
            Ok(v) => spec_u8_field(v),
            Err(f) => Err(f),
        }
    }

    pub fn parse(&self, bytes: &[u8]) -> (r: Result<u8, RigError>)
        ensures
            agrees(r, Self::spec_parse_response(bytes@)),
    {
        match validate_response(bytes, get_vfo_a_xfil_number_id_bytes(), 1) {
            Ok(d) => {
                proof {
                    lemma_leading_value_bound(d@);
                    lemma_pow10_values();
                }
                u8_from_ascii(d)
            },
            Err(e) => Err(e),
        }
    }
}

/// A `GetVfoAXfilNumber` reply of 1 value bytes reads as the decimal number they spell; a value with a
/// byte that is not a digit is an `InvalidResponseData` error holding the value.
pub proof fn lemma_get_vfo_a_xfil_number_reply(v: Seq<u8>)
    requires
        v.len() == 1,
    ensures
        all_digits(v) && digits_value(v) <= 255 ==> GetVfoAXfilNumber::spec_parse_response(frame(get_vfo_a_xfil_number_id(), v)) == Ok::<u8, Failure>(digits_value(v) as u8),
        !all_digits(v) ==> GetVfoAXfilNumber::spec_parse_response(frame(get_vfo_a_xfil_number_id(), v)) == Err::<u8, Failure>(Failure::ResponseData(v)),
{
    lemma_framed_value_reads_back(get_vfo_a_xfil_number_id(), v);
}

/// `XF$`
pub open spec fn get_vfo_b_xfil_number_id() -> Seq<u8> {
    seq![0x58, 0x46, 0x24]
}

fn get_vfo_b_xfil_number_id_bytes() -> (r: &'static [u8])
    ensures
        r@ == get_vfo_b_xfil_number_id(),
{
    &[0x58, 0x46, 0x24]
}

/// Read the current roofing filter (XFIL) slot number for VFO B (`XF$`).
#[derive(Clone, Copy, Debug, PartialEq, Eq)]
pub struct GetVfoBXfilNumber;

impl GetVfoBXfilNumber {
    pub fn to_bytes(&self) -> (r: Vec<u8>)
        ensures
            r@ == frame(get_vfo_b_xfil_number_id(), seq![]),
    {
        let none: [u8; 0] = [];
        frame_command(get_vfo_b_xfil_number_id_bytes(), &none)
    }

    pub open spec fn spec_parse_response(bytes: Seq<u8>) -> Result<u8, Failure> {
        match spec_validate_response(bytes, get_vfo_b_xfil_number_id(), 1) {
            Ok(v) => spec_u8_field(v),
            Err(f) => Err(f),
        }
    }

    pub fn parse(&self, bytes: &[u8]) -> (r: Result<u8, RigError>)
        ensures
            agrees(r, Self::spec_parse_response(bytes@)),
    {
        match validate_response(bytes, get_vfo_b_xfil_number_id_bytes(), 1) {
            Ok(d) => {
                proof {
                    lemma_leading_value_bound(d@);
                    lemma_pow10_values();
                }
                u8_from_ascii(d)
            },
            Err(e) => Err(e),
        }
    }
}

/// A `GetVfoBXfilNumber` reply of 1 value bytes reads as the decimal number they spell; a value with a
/// byte that is not a digit is an `InvalidResponseData` error holding the value.
pub proof fn lemma_get_vfo_b_xfil_number_reply(v: Seq<u8>)
    requires
        v.len() == 1,
    ensures
        all_digits(v) && digits_value(v) <= 255 ==> GetVfoBXfilNumber::spec_parse_response(frame(get_vfo_b_xfil_number_id(), v)) == Ok::<u8, Failure>(digits_value(v) as u8),
        !all_digits(v) ==> GetVfoBXfilNumber::spec_parse_response(frame(get_vfo_b_xfil_number_id(), v)) == Err::<u8, Failure>(Failure::ResponseData(v)),
{
    lemma_framed_value_reads_back(get_vfo_b_xfil_number_id(), v);
}

/// `XT`
pub open spec fn get_xit_control_id() -> Seq<u8> {
    seq![0x58, 0x54]
}

fn get_xit_control_id_bytes() -> (r: &'static [u8])
    ensures
        r@ == get_xit_control_id(),
{
    &[0x58, 0x54]
}

/// Get Transmit Incremental Tuning (XIT) on/off state (`XT`).
#[derive(Clone, Copy, Debug, PartialEq, Eq)]
pub struct GetXitControl;

impl GetXitControl {
    pub fn to_bytes(&self) -> (r: Vec<u8>)
        ensures
            r@ == frame(get_xit_control_id(), seq![]),
    {
        let none: [u8; 0] = [];
        frame_command(get_xit_control_id_bytes(), &none)
    }

    pub open spec fn spec_parse_response(bytes: Seq<u8>) -> Result<bool, Failure> {
        match spec_validate_response(bytes, get_xit_control_id(), 1) {
            Ok(v) => spec_bool_1_0(v[0]),
            Err(f) => Err(f),
        }
    }

    pub fn parse(&self, bytes: &[u8]) -> (r: Result<bool, RigError>)
        ensures
            agrees(r, Self::spec_parse_response(bytes@)),
    {
        match validate_response(bytes, get_xit_control_id_bytes(), 1) {
            Ok(d) => bool_from_ascii_1_0(d[0]),
            Err(e) => Err(e),
        }
    }
}

/// A `GetXitControl` reply whose value byte is `1` reads as `true`, `0` as `false`; any other byte is a
/// `ParseBoolean` error.
pub proof fn lemma_get_xit_control_reply(v: Seq<u8>)
    requires
        v.len() == 1,
    ensures
        v[0] == 0x31 ==> GetXitControl::spec_parse_response(frame(get_xit_control_id(), v)) == Ok::<bool, Failure>(true),
        v[0] == 0x30 ==> GetXitControl::spec_parse_response(frame(get_xit_control_id(), v)) == Ok::<bool, Failure>(false),
        v[0] != 0x30 && v[0] != 0x31 ==> GetXitControl::spec_parse_response(frame(get_xit_control_id(), v)) == Err::<bool, Failure>(Failure::Boolean(v[0])),
{
    lemma_framed_value_reads_back(get_xit_control_id(), v);
}

/// `XT`
pub open spec fn set_xit_control_id() -> Seq<u8> {
    seq![0x58, 0x54]
}

fn set_xit_control_id_bytes() -> (r: &'static [u8])
    ensures
        r@ == set_xit_control_id(),
{
    &[0x58, 0x54]
}

/// Set Transmit Incremental Tuning (XIT) on/off state (`XT`).
#[derive(Clone, Copy, Debug, PartialEq, Eq)]
pub struct SetXitControl {
    pub state: bool,
}

impl SetXitControl {
    pub open spec fn spec_args(self) -> Seq<u8> {
        seq![if self.state { ASCII_DIGIT_ONE } else { ASCII_DIGIT_ZERO }]
    }

    pub fn to_bytes(&self) -> (r: Vec<u8>)
        ensures
            r@ == frame(set_xit_control_id(), self.spec_args()),
    {
        let args: [u8; 1] = [if self.state { ASCII_DIGIT_ONE } else { ASCII_DIGIT_ZERO }];
        assert(args@ =~= self.spec_args());
        frame_command(set_xit_control_id_bytes(), &args)
    }
}

/// `SetXitControl` sends `1` when `state` is set and `0` when it is clear.
pub proof fn lemma_set_xit_control_argument(s: SetXitControl)
    ensures
        s.state ==> s.spec_args() == seq![0x31u8],
        !s.state ==> s.spec_args() == seq![0x30u8],
{
}

/// `DB`
pub open spec fn set_vfo_b_display_text_id() -> Seq<u8> {
    seq![0x44, 0x42]
}

fn set_vfo_b_display_text_id_bytes() -> (r: &'static [u8])
    ensures
        r@ == set_vfo_b_display_text_id(),
{
    &[0x44, 0x42]
}

/// Write VFO B display text: `DB{8 characters};`.
#[derive(Clone, Copy, Debug, PartialEq, Eq)]
pub struct SetVfoBDisplayText {
    pub text: [u8; 8],
}

impl SetVfoBDisplayText {
    pub fn to_bytes(&self) -> (r: Vec<u8>)
        ensures
            r@ == frame(set_vfo_b_display_text_id(), self.text@),
    {
        frame_command(set_vfo_b_display_text_id_bytes(), &self.text)
    }
}

/// `DL`
pub open spec fn set_dsp_command_debug_state_id() -> Seq<u8> {
    seq![0x44, 0x4C]
}

fn set_dsp_command_debug_state_id_bytes() -> (r: &'static [u8])
    ensures
        r@ == set_dsp_command_debug_state_id(),
{
    &[0x44, 0x4C]
}

/// Turn DSP command debugging on or off: `DL2;` turns it on and `DL3;` off.
#[derive(Clone, Copy, Debug, PartialEq, Eq)]
pub struct SetDspCommandDebugState {
    pub state: bool,
}

impl SetDspCommandDebugState {
    pub open spec fn spec_args(self) -> Seq<u8> {
        seq![if self.state { 0x32u8 } else { 0x33u8 }]
    }

    pub fn to_bytes(&self) -> (r: Vec<u8>)
        ensures
            r@ == frame(set_dsp_command_debug_state_id(), self.spec_args()),
    {
        let args: [u8; 1] = [if self.state { 0x32u8 } else { 0x33u8 }];
        assert(args@ =~= self.spec_args());
        frame_command(set_dsp_command_debug_state_id_bytes(), &args)
    }
}

/// `FR`
pub open spec fn get_receive_vfo_id() -> Seq<u8> {
    seq![0x46, 0x52]
}

fn get_receive_vfo_id_bytes() -> (r: &'static [u8])
    ensures
        r@ == get_receive_vfo_id(),
{
    &[0x46, 0x52]
}

/// Get the receive VFO: `FR;`, answered by `FR{n};`.
#[derive(Clone, Copy, Debug, PartialEq, Eq)]
pub struct GetReceiveVfo;

impl GetReceiveVfo {
    pub fn to_bytes(&self) -> (r: Vec<u8>)
        ensures
            r@ == frame(get_receive_vfo_id(), seq![]),
    {
        let none: [u8; 0] = [];
        frame_command(get_receive_vfo_id_bytes(), &none)
    }

    /// What `parse` gives: `0` is VFO A and `1` VFO B; any other byte is `InvalidResponseData`.
    pub open spec fn spec_parse_response(bytes: Seq<u8>) -> Result<Vfo, Failure> {
        match spec_validate_response(bytes, get_receive_vfo_id(), 1) {
            Ok(v) => match Vfo::spec_from_byte(v[0]) {
                Some(x) => Ok(x),
                None => Err(Failure::ResponseData(v)),
            },
            Err(f) => Err(f),
        }
    }

    pub fn parse(&self, bytes: &[u8]) -> (r: Result<Vfo, RigError>)
        ensures
            agrees(r, Self::spec_parse_response(bytes@)),
    {
        match validate_response(bytes, get_receive_vfo_id_bytes(), 1) {
            Ok(d) => match Vfo::from_repr(d[0]) {
                Some(x) => Ok(x),
                None => Err(invalid_response_data(d)),
            },
            Err(e) => Err(e),
        }
    }
}

/// A `GetReceiveVfo` reply reads as the `Vfo` whose wire byte is its value byte; a byte that names no
/// variant is an `InvalidResponseData` error holding the value.
pub proof fn lemma_get_receive_vfo_reply(v: Seq<u8>)
    requires
        v.len() == 1,
    ensures
        GetReceiveVfo::spec_parse_response(frame(get_receive_vfo_id(), v)) matches Ok(m) ==> m.spec_byte() == v[0],
        Vfo::spec_from_byte(v[0]) is Some ==> GetReceiveVfo::spec_parse_response(frame(get_receive_vfo_id(), v)) is Ok,
        Vfo::spec_from_byte(v[0]) is None ==> GetReceiveVfo::spec_parse_response(frame(get_receive_vfo_id(), v)) == Err::<Vfo, Failure>(Failure::ResponseData(v)),
{
    lemma_framed_value_reads_back(get_receive_vfo_id(), v);
}

/// `FR`
pub open spec fn set_receive_vfo_id() -> Seq<u8> {
    seq![0x46, 0x52]
}

fn set_receive_vfo_id_bytes() -> (r: &'static [u8])
    ensures
        r@ == set_receive_vfo_id(),
{
    &[0x46, 0x52]
}

/// Set the receive VFO: `FR{n};`.
#[derive(Clone, Copy, Debug, PartialEq, Eq)]
pub struct SetReceiveVfo {
    pub vfo: Vfo,
}

impl SetReceiveVfo {
    pub open spec fn spec_args(self) -> Seq<u8> {
        seq![self.vfo.spec_byte()]
    }

    pub fn to_bytes(&self) -> (r: Vec<u8>)
        ensures
            r@ == frame(set_receive_vfo_id(), self.spec_args()),
    {
        let args: [u8; 1] = [self.vfo.as_byte()];
        assert(args@ =~= self.spec_args());
        frame_command(set_receive_vfo_id_bytes(), &args)
    }
}

/// `SetReceiveVfo` sends exactly one byte, the wire byte of `vfo`.
pub proof fn lemma_set_receive_vfo_argument(s: SetReceiveVfo)
    ensures
        s.spec_args().len() == 1,
        s.spec_args()[0] == s.vfo.spec_byte(),
{
}

/// The reply that echoes a `Set` receive VFO command reads as the VFO that was set.
pub proof fn lemma_receive_vfo_round_trip(vfo: Vfo)
    ensures
        GetReceiveVfo::spec_parse_response(frame(set_receive_vfo_id(), SetReceiveVfo { vfo }.spec_args()))
            == Ok::<Vfo, Failure>(vfo),
{
    let bytes = frame(set_receive_vfo_id(), SetReceiveVfo { vfo }.spec_args());
    assert(bytes.take(2) =~= get_receive_vfo_id());
    assert(response_value(bytes, get_receive_vfo_id()) =~= SetReceiveVfo { vfo }.spec_args());
}

/// `TE`
pub open spec fn set_transmit_equalizer_id() -> Seq<u8> {
    seq![0x54, 0x45]
}

fn set_transmit_equalizer_id_bytes() -> (r: &'static [u8])
    ensures
        r@ == set_transmit_equalizer_id(),
{
    &[0x54, 0x45]
}

/// Set the transmit equalizer: `TE{parameters};`, with the parameter bytes sent as given.
#[derive(Clone, Debug, PartialEq, Eq)]
pub struct SetTransmitEqualizer {
    pub params: Vec<u8>,
}

impl SetTransmitEqualizer {
    pub fn to_bytes(&self) -> (r: Vec<u8>)
        ensures
            r@ == frame(set_transmit_equalizer_id(), self.params@),
    {
        frame_command(set_transmit_equalizer_id_bytes(), self.params.as_slice())
    }
}

// ------------------------------------------------------------------------------------------------
// Reading back what was set
// ------------------------------------------------------------------------------------------------

/// The reply that echoes a `SetAutoInfoMode` command reads as the value that was set.
pub proof fn lemma_auto_info_mode_round_trip(value: AutoInfoMode)
    ensures
        GetAutoInfoMode::spec_parse_response(frame(set_auto_info_mode_id(), (SetAutoInfoMode { mode: value }).spec_args()))
            == Ok::<AutoInfoMode, Failure>(value),
{
    let args = (SetAutoInfoMode { mode: value }).spec_args();
    let bytes = frame(set_auto_info_mode_id(), args);
    assert(bytes.take(2) =~= get_auto_info_mode_id());
    assert(response_value(bytes, get_auto_info_mode_id()) =~= args);
}

/// The reply that echoes a `SetAudioPeakingFilterState` command reads as the state that was set.
pub proof fn lemma_audio_peaking_filter_state_round_trip(state: bool)
    ensures
        GetAudioPeakingFilterState::spec_parse_response(frame(set_audio_peaking_filter_state_id(), (SetAudioPeakingFilterState { state: state }).spec_args()))
            == Ok::<bool, Failure>(state),
{
    let args = (SetAudioPeakingFilterState { state: state }).spec_args();
    let bytes = frame(set_audio_peaking_filter_state_id(), args);
    assert(bytes.take(2) =~= get_audio_peaking_filter_state_id());
    assert(response_value(bytes, get_audio_peaking_filter_state_id()) =~= args);
}

/// The reply that echoes a `SetReceiveAntenna` command reads as the state that was set.
pub proof fn lemma_receive_antenna_round_trip(state: bool)
    ensures
        GetReceiveAntenna::spec_parse_response(frame(set_receive_antenna_id(), (SetReceiveAntenna { rx_only: state }).spec_args()))
            == Ok::<bool, Failure>(state),
{
    let args = (SetReceiveAntenna { rx_only: state }).spec_args();
    let bytes = frame(set_receive_antenna_id(), args);
    assert(bytes.take(2) =~= get_receive_antenna_id());
    assert(response_value(bytes, get_receive_antenna_id()) =~= args);
}

/// A value set with `SetVfoAFilterBandwidth` reads back unchanged from the echoed reply.
pub proof fn lemma_vfo_a_filter_bandwidth_round_trip(value: u16)
    requires
        value < 10000,
    ensures
        GetVfoAFilterBandwidth::spec_parse_response(frame(set_vfo_a_filter_bandwidth_id(), (SetVfoAFilterBandwidth { bandwidth_10hz: value }).spec_args())) == Ok::<u16, Failure>(value),
{
    let args = (SetVfoAFilterBandwidth { bandwidth_10hz: value }).spec_args();
    lemma_padded_decimal_value(value as nat, 4);
    lemma_pow10_values();
    lemma_num_digits_le(value as nat, 4);
    let bytes = frame(set_vfo_a_filter_bandwidth_id(), args);
    assert(bytes.take(2) =~= get_vfo_a_filter_bandwidth_id());
    assert(response_value(bytes, get_vfo_a_filter_bandwidth_id()) =~= args);
}

/// A value set with `SetVfoBFilterBandwidth` reads back unchanged from the echoed reply.
pub proof fn lemma_vfo_b_filter_bandwidth_round_trip(value: u16)
    requires
        value < 10000,
    ensures
        GetVfoBFilterBandwidth::spec_parse_response(frame(set_vfo_b_filter_bandwidth_id(), (SetVfoBFilterBandwidth { bandwidth_10hz: value }).spec_args())) == Ok::<u16, Failure>(value),
{
    let args = (SetVfoBFilterBandwidth { bandwidth_10hz: value }).spec_args();
    lemma_padded_decimal_value(value as nat, 4);
    lemma_pow10_values();
    lemma_num_digits_le(value as nat, 4);
    let bytes = frame(set_vfo_b_filter_bandwidth_id(), args);
    assert(bytes.take(3) =~= get_vfo_b_filter_bandwidth_id());
    assert(response_value(bytes, get_vfo_b_filter_bandwidth_id()) =~= args);
}

/// The reply that echoes a `SetDataSubMode` command reads as the value that was set.
pub proof fn lemma_data_sub_mode_round_trip(value: DataSubMode)
    ensures
        GetDataSubMode::spec_parse_response(frame(set_data_sub_mode_id(), (SetDataSubMode { sub_mode: value }).spec_args()))
            == Ok::<DataSubMode, Failure>(value),
{
    let args = (SetDataSubMode { sub_mode: value }).spec_args();
    let bytes = frame(set_data_sub_mode_id(), args);
    assert(bytes.take(2) =~= get_data_sub_mode_id());
    assert(response_value(bytes, get_data_sub_mode_id()) =~= args);
}

/// The reply that echoes a `SetDiversityMode` command reads as the value that was set.
pub proof fn lemma_diversity_mode_round_trip(value: DiversityModeState)
    ensures
        GetDiversityMode::spec_parse_response(frame(set_diversity_mode_id(), (SetDiversityMode { state: value }).spec_args()))
            == Ok::<DiversityModeState, Failure>(value),
{
    let args = (SetDiversityMode { state: value }).spec_args();
    let bytes = frame(set_diversity_mode_id(), args);
    assert(bytes.take(2) =~= get_diversity_mode_id());
    assert(response_value(bytes, get_diversity_mode_id()) =~= args);
}

/// The reply that echoes a `SetEssbMode` command reads as the state that was set.
pub proof fn lemma_essb_mode_round_trip(state: bool)
    ensures
        GetEssbMode::spec_parse_response(frame(set_essb_mode_id(), (SetEssbMode { state: state }).spec_args()))
            == Ok::<bool, Failure>(state),
{
    let args = (SetEssbMode { state: state }).spec_args();
    let bytes = frame(set_essb_mode_id(), args);
    assert(bytes.take(2) =~= get_essb_mode_id());
    assert(response_value(bytes, get_essb_mode_id()) =~= args);
}

/// The reply that echoes a `SetTransmitVfoSplitModeState` command reads as the state that was set.
pub proof fn lemma_transmit_vfo_split_mode_state_round_trip(state: bool)
    ensures
        GetTransmitVfoSplitModeState::spec_parse_response(frame(set_transmit_vfo_split_mode_state_id(), (SetTransmitVfoSplitModeState { state: state }).spec_args()))
            == Ok::<bool, Failure>(state),
{
    let args = (SetTransmitVfoSplitModeState { state: state }).spec_args();
    let bytes = frame(set_transmit_vfo_split_mode_state_id(), args);
    assert(bytes.take(2) =~= get_transmit_vfo_split_mode_state_id());
    assert(response_value(bytes, get_transmit_vfo_split_mode_state_id()) =~= args);
}

/// A value set with `SetVfoALegacyFilterBandwidth` reads back unchanged from the echoed reply.
pub proof fn lemma_vfo_a_legacy_filter_bandwidth_round_trip(value: u16)
    requires
        value < 10000,
    ensures
        GetVfoALegacyFilterBandwidth::spec_parse_response(frame(set_vfo_a_legacy_filter_bandwidth_id(), (SetVfoALegacyFilterBandwidth { bandwidth_hz: value }).spec_args())) == Ok::<u16, Failure>(value),
{
    let args = (SetVfoALegacyFilterBandwidth { bandwidth_hz: value }).spec_args();
    lemma_padded_decimal_value(value as nat, 4);
    lemma_pow10_values();
    lemma_num_digits_le(value as nat, 4);
    let bytes = frame(set_vfo_a_legacy_filter_bandwidth_id(), args);
    assert(bytes.take(2) =~= get_vfo_a_legacy_filter_bandwidth_id());
    assert(response_value(bytes, get_vfo_a_legacy_filter_bandwidth_id()) =~= args);
}

/// A value set with `SetVfoBLegacyFilterBandwidth` reads back unchanged from the echoed reply.
pub proof fn lemma_vfo_b_legacy_filter_bandwidth_round_trip(value: u16)
    requires
        value < 10000,
    ensures
        GetVfoBLegacyFilterBandwidth::spec_parse_response(frame(set_vfo_b_legacy_filter_bandwidth_id(), (SetVfoBLegacyFilterBandwidth { bandwidth_hz: value }).spec_args())) == Ok::<u16, Failure>(value),
{
    let args = (SetVfoBLegacyFilterBandwidth { bandwidth_hz: value }).spec_args();
    lemma_padded_decimal_value(value as nat, 4);
    lemma_pow10_values();
    lemma_num_digits_le(value as nat, 4);
    let bytes = frame(set_vfo_b_legacy_filter_bandwidth_id(), args);
    assert(bytes.take(3) =~= get_vfo_b_legacy_filter_bandwidth_id());
    assert(response_value(bytes, get_vfo_b_legacy_filter_bandwidth_id()) =~= args);
}

/// The reply that echoes a `SetVfoAOperatingMode` command reads as the value that was set.
pub proof fn lemma_vfo_a_operating_mode_round_trip(value: OperatingMode)
    ensures
        GetVfoAOperatingMode::spec_parse_response(frame(set_vfo_a_operating_mode_id(), (SetVfoAOperatingMode { mode: value }).spec_args()))
            == Ok::<OperatingMode, Failure>(value),
{
    let args = (SetVfoAOperatingMode { mode: value }).spec_args();
    let bytes = frame(set_vfo_a_operating_mode_id(), args);
    assert(bytes.take(2) =~= get_vfo_a_operating_mode_id());
    assert(response_value(bytes, get_vfo_a_operating_mode_id()) =~= args);
}

/// The reply that echoes a `SetVfoBOperatingMode` command reads as the value that was set.
pub proof fn lemma_vfo_b_operating_mode_round_trip(value: OperatingMode)
    ensures
        GetVfoBOperatingMode::spec_parse_response(frame(set_vfo_b_operating_mode_id(), (SetVfoBOperatingMode { mode: value }).spec_args()))
            == Ok::<OperatingMode, Failure>(value),
{
    let args = (SetVfoBOperatingMode { mode: value }).spec_args();
    let bytes = frame(set_vfo_b_operating_mode_id(), args);
    assert(bytes.take(3) =~= get_vfo_b_operating_mode_id());
    assert(response_value(bytes, get_vfo_b_operating_mode_id()) =~= args);
}

/// The reply that echoes a `SetVfoALockState` command reads as the state that was set.
pub proof fn lemma_vfo_a_lock_state_round_trip(state: bool)
    ensures
        GetVfoALockState::spec_parse_response(frame(set_vfo_a_lock_state_id(), (SetVfoALockState { state: state }).spec_args()))
            == Ok::<bool, Failure>(state),
{
    let args = (SetVfoALockState { state: state }).spec_args();
    let bytes = frame(set_vfo_a_lock_state_id(), args);
    assert(bytes.take(2) =~= get_vfo_a_lock_state_id());
    assert(response_value(bytes, get_vfo_a_lock_state_id()) =~= args);
}

/// The reply that echoes a `SetVfoBLockState` command reads as the state that was set.
pub proof fn lemma_vfo_b_lock_state_round_trip(state: bool)
    ensures
        GetVfoBLockState::spec_parse_response(frame(set_vfo_b_lock_state_id(), (SetVfoBLockState { state: state }).spec_args()))
            == Ok::<bool, Failure>(state),
{
    let args = (SetVfoBLockState { state: state }).spec_args();
    let bytes = frame(set_vfo_b_lock_state_id(), args);
    assert(bytes.take(3) =~= get_vfo_b_lock_state_id());
    assert(response_value(bytes, get_vfo_b_lock_state_id()) =~= args);
}

/// The reply that echoes a `SetVfoLinkedState` command reads as the state that was set.
pub proof fn lemma_vfo_linked_state_round_trip(state: bool)
    ensures
        GetVfoLinkedState::spec_parse_response(frame(set_vfo_linked_state_id(), (SetVfoLinkedState { state: state }).spec_args()))
            == Ok::<bool, Failure>(state),
{
    let args = (SetVfoLinkedState { state: state }).spec_args();
    let bytes = frame(set_vfo_linked_state_id(), args);
    assert(bytes.take(2) =~= get_vfo_linked_state_id());
    assert(response_value(bytes, get_vfo_linked_state_id()) =~= args);
}

/// A value set with `SetMemoryChannel` reads back unchanged from the echoed reply.
pub proof fn lemma_memory_channel_round_trip(value: u8)
    requires
        value < 1000,
        1 <= value,
        value <= 100,
    ensures
        GetMemoryChannel::spec_parse_response(frame(set_memory_channel_id(), uint_args(value as u32, 3))) == Ok::<u8, Failure>(value),
{
    let args = uint_args(value as u32, 3);
    lemma_padded_decimal_value(value as nat, 3);
    lemma_pow10_values();
    lemma_num_digits_le(value as nat, 3);
    let bytes = frame(set_memory_channel_id(), args);
    assert(bytes.take(2) =~= get_memory_channel_id());
    assert(response_value(bytes, get_memory_channel_id()) =~= args);
}

/// A value set with `SetMonitorLevel` reads back unchanged from the echoed reply.
pub proof fn lemma_monitor_level_round_trip(value: u8)
    requires
        value < 1000,
        value <= 60,
    ensures
        GetMonitorLevel::spec_parse_response(frame(set_monitor_level_id(), uint_args(value as u32, 3))) == Ok::<u8, Failure>(value),
{
    let args = uint_args(value as u32, 3);
    lemma_padded_decimal_value(value as nat, 3);
    lemma_pow10_values();
    lemma_num_digits_le(value as nat, 3);
    let bytes = frame(set_monitor_level_id(), args);
    assert(bytes.take(2) =~= get_monitor_level_id());
    assert(response_value(bytes, get_monitor_level_id()) =~= args);
}

/// A value set with `SetMenuParameter` reads back unchanged from the echoed reply.
pub proof fn lemma_menu_parameter_round_trip(value: u8)
    requires
        value < 100,
        value <= 99,
    ensures
        GetMenuParameter::spec_parse_response(frame(set_menu_parameter_id(), uint_args(value as u32, 2))) == Ok::<u8, Failure>(value),
{
    let args = uint_args(value as u32, 2);
    lemma_padded_decimal_value(value as nat, 2);
    lemma_pow10_values();
    lemma_num_digits_le(value as nat, 2);
    let bytes = frame(set_menu_parameter_id(), args);
    assert(bytes.take(2) =~= get_menu_parameter_id());
    assert(response_value(bytes, get_menu_parameter_id()) =~= args);
}

/// A value set with `SetMenuParameter16` reads back unchanged from the echoed reply.
pub proof fn lemma_menu_parameter16_round_trip(value: u16)
    requires
        value < 10000,
        value <= 9999,
    ensures
        GetMenuParameter16::spec_parse_response(frame(set_menu_parameter16_id(), uint_args(value as u32, 4))) == Ok::<u16, Failure>(value),
{
    let args = uint_args(value as u32, 4);
    lemma_padded_decimal_value(value as nat, 4);
    lemma_pow10_values();
    lemma_num_digits_le(value as nat, 4);
    let bytes = frame(set_menu_parameter16_id(), args);
    assert(bytes.take(2) =~= get_menu_parameter16_id());
    assert(response_value(bytes, get_menu_parameter16_id()) =~= args);
}

/// The reply that echoes a `SetVfoANoiseBlanker` command reads as the state that was set.
pub proof fn lemma_vfo_a_noise_blanker_round_trip(state: bool)
    ensures
        GetVfoANoiseBlanker::spec_parse_response(frame(set_vfo_a_noise_blanker_id(), (SetVfoANoiseBlanker { state: state }).spec_args()))
            == Ok::<bool, Failure>(state),
{
    let args = (SetVfoANoiseBlanker { state: state }).spec_args();
    let bytes = frame(set_vfo_a_noise_blanker_id(), args);
    assert(bytes.take(2) =~= get_vfo_a_noise_blanker_id());
    assert(response_value(bytes, get_vfo_a_noise_blanker_id()) =~= args);
}

/// The reply that echoes a `SetVfoBNoiseBlanker` command reads as the state that was set.
pub proof fn lemma_vfo_b_noise_blanker_round_trip(state: bool)
    ensures
        GetVfoBNoiseBlanker::spec_parse_response(frame(set_vfo_b_noise_blanker_id(), (SetVfoBNoiseBlanker { state: state }).spec_args()))
            == Ok::<bool, Failure>(state),
{
    let args = (SetVfoBNoiseBlanker { state: state }).spec_args();
    let bytes = frame(set_vfo_b_noise_blanker_id(), args);
    assert(bytes.take(3) =~= get_vfo_b_noise_blanker_id());
    assert(response_value(bytes, get_vfo_b_noise_blanker_id()) =~= args);
}

/// A value set with `SetVfoANoiseBlankerLevel` reads back unchanged from the echoed reply.
pub proof fn lemma_vfo_a_noise_blanker_level_round_trip(value: u8)
    requires
        value < 100,
        value <= 21,
    ensures
        GetVfoANoiseBlankerLevel::spec_parse_response(frame(set_vfo_a_noise_blanker_level_id(), uint_args(value as u32, 2))) == Ok::<u8, Failure>(value),
{
    let args = uint_args(value as u32, 2);
    lemma_padded_decimal_value(value as nat, 2);
    lemma_pow10_values();
    lemma_num_digits_le(value as nat, 2);
    let bytes = frame(set_vfo_a_noise_blanker_level_id(), args);
    assert(bytes.take(2) =~= get_vfo_a_noise_blanker_level_id());
    assert(response_value(bytes, get_vfo_a_noise_blanker_level_id()) =~= args);
}

/// A value set with `SetVfoBNoiseBlankerLevel` reads back unchanged from the echoed reply.
pub proof fn lemma_vfo_b_noise_blanker_level_round_trip(value: u8)
    requires
        value < 100,
        value <= 21,
    ensures
        GetVfoBNoiseBlankerLevel::spec_parse_response(frame(set_vfo_b_noise_blanker_level_id(), uint_args(value as u32, 2))) == Ok::<u8, Failure>(value),
{
    let args = uint_args(value as u32, 2);
    lemma_padded_decimal_value(value as nat, 2);
    lemma_pow10_values();
    lemma_num_digits_le(value as nat, 2);
    let bytes = frame(set_vfo_b_noise_blanker_level_id(), args);
    assert(bytes.take(3) =~= get_vfo_b_noise_blanker_level_id());
    assert(response_value(bytes, get_vfo_b_noise_blanker_level_id()) =~= args);
}

/// A value set with `SetVfoAPreamp` reads back unchanged from the echoed reply.
pub proof fn lemma_vfo_a_preamp_round_trip(value: u8)
    requires
        value < 10,
        value <= 2,
    ensures
        GetVfoAPreamp::spec_parse_response(frame(set_vfo_a_preamp_id(), uint_args(value as u32, 1))) == Ok::<u8, Failure>(value),
{
    let args = uint_args(value as u32, 1);
    lemma_padded_decimal_value(value as nat, 1);
    lemma_pow10_values();
    lemma_num_digits_le(value as nat, 1);
    let bytes = frame(set_vfo_a_preamp_id(), args);
    assert(bytes.take(2) =~= get_vfo_a_preamp_id());
    assert(response_value(bytes, get_vfo_a_preamp_id()) =~= args);
}

/// A value set with `SetVfoBPreamp` reads back unchanged from the echoed reply.
pub proof fn lemma_vfo_b_preamp_round_trip(value: u8)
    requires
        value < 10,
        value <= 2,
    ensures
        GetVfoBPreamp::spec_parse_response(frame(set_vfo_b_preamp_id(), uint_args(value as u32, 1))) == Ok::<u8, Failure>(value),
{
    let args = uint_args(value as u32, 1);
    lemma_padded_decimal_value(value as nat, 1);
    lemma_pow10_values();
    lemma_num_digits_le(value as nat, 1);
    let bytes = frame(set_vfo_b_preamp_id(), args);
    assert(bytes.take(3) =~= get_vfo_b_preamp_id());
    assert(response_value(bytes, get_vfo_b_preamp_id()) =~= args);
}

/// The reply that echoes a `SetPowerStatus` command reads as the state that was set.
pub proof fn lemma_power_status_round_trip(state: bool)
    ensures
        GetPowerStatus::spec_parse_response(frame(set_power_status_id(), (SetPowerStatus { state: state }).spec_args()))
            == Ok::<bool, Failure>(state),
{
    let args = (SetPowerStatus { state: state }).spec_args();
    let bytes = frame(set_power_status_id(), args);
    assert(bytes.take(2) =~= get_power_status_id());
    assert(response_value(bytes, get_power_status_id()) =~= args);
}

/// A value set with `SetVfoAReceiveAttenuator` reads back unchanged from the echoed reply.
pub proof fn lemma_vfo_a_receive_attenuator_round_trip(value: u8)
    requires
        value < 100,
        value <= 15,
    ensures
        GetVfoAReceiveAttenuator::spec_parse_response(frame(set_vfo_a_receive_attenuator_id(), uint_args(value as u32, 2))) == Ok::<u8, Failure>(value),
{
    let args = uint_args(value as u32, 2);
    lemma_padded_decimal_value(value as nat, 2);
    lemma_pow10_values();
    lemma_num_digits_le(value as nat, 2);
    let bytes = frame(set_vfo_a_receive_attenuator_id(), args);
    assert(bytes.take(2) =~= get_vfo_a_receive_attenuator_id());
    assert(response_value(bytes, get_vfo_a_receive_attenuator_id()) =~= args);
}

/// A value set with `SetVfoBReceiveAttenuator` reads back unchanged from the echoed reply.
pub proof fn lemma_vfo_b_receive_attenuator_round_trip(value: u8)
    requires
        value < 100,
        value <= 15,
    ensures
        GetVfoBReceiveAttenuator::spec_parse_response(frame(set_vfo_b_receive_attenuator_id(), uint_args(value as u32, 2))) == Ok::<u8, Failure>(value),
{
    let args = uint_args(value as u32, 2);
    lemma_padded_decimal_value(value as nat, 2);
    lemma_pow10_values();
    lemma_num_digits_le(value as nat, 2);
    let bytes = frame(set_vfo_b_receive_attenuator_id(), args);
    assert(bytes.take(3) =~= get_vfo_b_receive_attenuator_id());
    assert(response_value(bytes, get_vfo_b_receive_attenuator_id()) =~= args);
}

/// A value set with `SetVfoARfGain` reads back unchanged from the echoed reply.
pub proof fn lemma_vfo_a_rf_gain_round_trip(value: u8)
    requires
        value < 1000,
        190 <= value,
        value <= 250,
    ensures
        GetVfoARfGain::spec_parse_response(frame(set_vfo_a_rf_gain_id(), uint_args(value as u32, 3))) == Ok::<u8, Failure>(value),
{
    let args = uint_args(value as u32, 3);
    lemma_padded_decimal_value(value as nat, 3);
    lemma_pow10_values();
    lemma_num_digits_le(value as nat, 3);
    let bytes = frame(set_vfo_a_rf_gain_id(), args);
    assert(bytes.take(2) =~= get_vfo_a_rf_gain_id());
    assert(response_value(bytes, get_vfo_a_rf_gain_id()) =~= args);
}

/// A value set with `SetVfoBRfGain` reads back unchanged from the echoed reply.
pub proof fn lemma_vfo_b_rf_gain_round_trip(value: u8)
    requires
        value < 1000,
        190 <= value,
        value <= 250,
    ensures
        GetVfoBRfGain::spec_parse_response(frame(set_vfo_b_rf_gain_id(), uint_args(value as u32, 3))) == Ok::<u8, Failure>(value),
{
    let args = uint_args(value as u32, 3);
    lemma_padded_decimal_value(value as nat, 3);
    lemma_pow10_values();
    lemma_num_digits_le(value as nat, 3);
    let bytes = frame(set_vfo_b_rf_gain_id(), args);
    assert(bytes.take(3) =~= get_vfo_b_rf_gain_id());
    assert(response_value(bytes, get_vfo_b_rf_gain_id()) =~= args);
}

/// The reply that echoes a `SetRitControl` command reads as the state that was set.
pub proof fn lemma_rit_control_round_trip(state: bool)
    ensures
        GetRitControl::spec_parse_response(frame(set_rit_control_id(), (SetRitControl { state: state }).spec_args()))
            == Ok::<bool, Failure>(state),
{
    let args = (SetRitControl { state: state }).spec_args();
    let bytes = frame(set_rit_control_id(), args);
    assert(bytes.take(2) =~= get_rit_control_id());
    assert(response_value(bytes, get_rit_control_id()) =~= args);
}

/// The reply that echoes a `SetSubReceiver` command reads as the state that was set.
pub proof fn lemma_sub_receiver_round_trip(state: bool)
    ensures
        GetSubReceiver::spec_parse_response(frame(set_sub_receiver_id(), (SetSubReceiver { state: state }).spec_args()))
            == Ok::<bool, Failure>(state),
{
    let args = (SetSubReceiver { state: state }).spec_args();
    let bytes = frame(set_sub_receiver_id(), args);
    assert(bytes.take(2) =~= get_sub_receiver_id());
    assert(response_value(bytes, get_sub_receiver_id()) =~= args);
}

/// A value set with `SetVfoASquelch` reads back unchanged from the echoed reply.
pub proof fn lemma_vfo_a_squelch_round_trip(value: u8)
    requires
        value < 100,
        value <= 29,
    ensures
        GetVfoASquelch::spec_parse_response(frame(set_vfo_a_squelch_id(), uint_args(value as u32, 2))) == Ok::<u8, Failure>(value),
{
    let args = uint_args(value as u32, 2);
    lemma_padded_decimal_value(value as nat, 2);
    lemma_pow10_values();
    lemma_num_digits_le(value as nat, 2);
    let bytes = frame(set_vfo_a_squelch_id(), args);
    assert(bytes.take(2) =~= get_vfo_a_squelch_id());
    assert(response_value(bytes, get_vfo_a_squelch_id()) =~= args);
}

/// A value set with `SetVfoBSquelch` reads back unchanged from the echoed reply.
pub proof fn lemma_vfo_b_squelch_round_trip(value: u8)
    requires
        value < 100,
        value <= 29,
    ensures
        GetVfoBSquelch::spec_parse_response(frame(set_vfo_b_squelch_id(), uint_args(value as u32, 2))) == Ok::<u8, Failure>(value),
{
    let args = uint_args(value as u32, 2);
    lemma_padded_decimal_value(value as nat, 2);
    lemma_pow10_values();
    lemma_num_digits_le(value as nat, 2);
    let bytes = frame(set_vfo_b_squelch_id(), args);
    assert(bytes.take(3) =~= get_vfo_b_squelch_id());
    assert(response_value(bytes, get_vfo_b_squelch_id()) =~= args);
}

/// A value set with `SetTransmitMeterMode` reads back unchanged from the echoed reply.
pub proof fn lemma_transmit_meter_mode_round_trip(value: u8)
    requires
        value < 10,
        value <= 5,
    ensures
        GetTransmitMeterMode::spec_parse_response(frame(set_transmit_meter_mode_id(), uint_args(value as u32, 1))) == Ok::<u8, Failure>(value),
{
    let args = uint_args(value as u32, 1);
    lemma_padded_decimal_value(value as nat, 1);
    lemma_pow10_values();
    lemma_num_digits_le(value as nat, 1);
    let bytes = frame(set_transmit_meter_mode_id(), args);
    assert(bytes.take(2) =~= get_transmit_meter_mode_id());
    assert(response_value(bytes, get_transmit_meter_mode_id()) =~= args);
}

/// The reply that echoes a `SetVox` command reads as the state that was set.
pub proof fn lemma_vox_round_trip(state: bool)
    ensures
        GetVox::spec_parse_response(frame(set_vox_id(), (SetVox { state: state }).spec_args()))
            == Ok::<bool, Failure>(state),
{
    let args = (SetVox { state: state }).spec_args();
    let bytes = frame(set_vox_id(), args);
    assert(bytes.take(2) =~= get_vox_id());
    assert(response_value(bytes, get_vox_id()) =~= args);
}

/// The reply that echoes a `SetXitControl` command reads as the state that was set.
pub proof fn lemma_xit_control_round_trip(state: bool)
    ensures
        GetXitControl::spec_parse_response(frame(set_xit_control_id(), (SetXitControl { state: state }).spec_args()))
            == Ok::<bool, Failure>(state),
{
    let args = (SetXitControl { state: state }).spec_args();
    let bytes = frame(set_xit_control_id(), args);
    assert(bytes.take(2) =~= get_xit_control_id());
    assert(response_value(bytes, get_xit_control_id()) =~= args);
}

} // verus!
