//! CAT commands for the Elecraft KAT500 automatic antenna tuner.
//!
//! KAT500 command identifiers carry no wire prefix and are sent as shown (`AN`, `BN`, `VSWR`),
//! except the baud rate command, `#BR`. Commands follow the KAT500 Serial Command Reference,
//! Sep 2023.


use vstd::prelude::*;

use crate::protocol::cat::digits::pow10;

use crate::protocol::cat::lemma_framed_value_reads_back;

use crate::error::{Failure, RigError, agrees, invalid_response_data};
use crate::protocol::Frequency;
use crate::protocol::cat::{encode_uint_in_range, frame, frame_command, uint_args};
use crate::protocol::cat::common::{
    ASCII_DIGIT_ONE, ASCII_DIGIT_ZERO, bool_from_ascii_1_0, bytes_to_vec, decimal_string,
    format_uint_ascii, response_value, spec_bool_1_0, spec_u16_field, spec_u32_field,
    spec_u8_field, spec_validate_response, u16_from_ascii, u32_from_ascii, u8_from_ascii,
    validate_response,
};
use crate::protocol::cat::digits::{
    all_digits, digits_value,
    leading_value, lemma_leading_value_bound, lemma_num_digits_le, lemma_padded_decimal_value,
    lemma_pow10_values, padded_decimal,
};

verus! {

/// Amplifier interface relay state.
#[derive(Clone, Copy, Debug, PartialEq, Eq, Hash)]
pub enum AmplifierInterfaceRelayState {
    /// Open; `0` on the wire.
    Open,
    /// Closed; `1` on the wire.
    Closed,
}

impl AmplifierInterfaceRelayState {
    pub open spec fn spec_byte(self) -> u8 {
        match self {
            AmplifierInterfaceRelayState::Open => 0x30,
            AmplifierInterfaceRelayState::Closed => 0x31,
        }
    }

    /// The variant that a wire byte stands for.
    pub open spec fn spec_from_byte(b: u8) -> Option<AmplifierInterfaceRelayState> {
        if b == 0x30 {
            Some(AmplifierInterfaceRelayState::Open)
        } else if b == 0x31 {
            Some(AmplifierInterfaceRelayState::Closed)
        } else {
            None
        }
    }

    /// The wire byte.
    pub fn as_byte(&self) -> (b: u8)
        ensures
            b == self.spec_byte(),
    {
        match self {
            AmplifierInterfaceRelayState::Open => 0x30,
            AmplifierInterfaceRelayState::Closed => 0x31,
        }
    }

    /// The variant that a wire byte stands for.
    pub fn from_repr(b: u8) -> (r: Option<AmplifierInterfaceRelayState>)
        ensures
            r == Self::spec_from_byte(b),
            r matches Some(v) ==> v.spec_byte() == b,
    {
        if b == 0x30 {
            Some(AmplifierInterfaceRelayState::Open)
        } else if b == 0x31 {
            Some(AmplifierInterfaceRelayState::Closed)
        } else {
            None
        }
    }
}

/// The wire bytes of `AmplifierInterfaceRelayState`: Open `0`, Closed `1`; no other byte stands for a variant.
pub proof fn lemma_amplifier_interface_relay_state_wire_bytes()
    ensures
        AmplifierInterfaceRelayState::Open.spec_byte() == 0x30,
        AmplifierInterfaceRelayState::Closed.spec_byte() == 0x31,
        AmplifierInterfaceRelayState::spec_from_byte(0x30) == Some(AmplifierInterfaceRelayState::Open),
        AmplifierInterfaceRelayState::spec_from_byte(0x31) == Some(AmplifierInterfaceRelayState::Closed),
        forall|b: u8| #[trigger] AmplifierInterfaceRelayState::spec_from_byte(b) is Some ==> (b == 0x30 || b == 0x31),
{
}

/// Reading back the wire byte of any `AmplifierInterfaceRelayState` gives the same value.
pub proof fn lemma_amplifier_interface_relay_state_byte_round_trip(v: AmplifierInterfaceRelayState)
    ensures
        AmplifierInterfaceRelayState::spec_from_byte(v.spec_byte()) == Some(v),
{
}

/// Antenna selection.
#[derive(Clone, Copy, Debug, PartialEq, Eq, Hash)]
pub enum SelectedAntenna {
    /// Antenna Port 1; `1` on the wire.
    Antenna1,
    /// Antenna Port 2; `2` on the wire.
    Antenna2,
    /// Antenna Port 3; `3` on the wire.
    Antenna3,
    /// Antenna Port 4; `4` on the wire.
    Antenna4,
    /// Antenna Port 5; `5` on the wire.
    Antenna5,
    /// Antenna Port 6; `6` on the wire.
    Antenna6,
}

impl SelectedAntenna {
    pub open spec fn spec_byte(self) -> u8 {
        match self {
            SelectedAntenna::Antenna1 => 0x31,
            SelectedAntenna::Antenna2 => 0x32,
            SelectedAntenna::Antenna3 => 0x33,
            SelectedAntenna::Antenna4 => 0x34,
            SelectedAntenna::Antenna5 => 0x35,
            SelectedAntenna::Antenna6 => 0x36,
        }
    }

    /// The variant that a wire byte stands for.
    pub open spec fn spec_from_byte(b: u8) -> Option<SelectedAntenna> {
        if b == 0x31 {
            Some(SelectedAntenna::Antenna1)
        } else if b == 0x32 {
            Some(SelectedAntenna::Antenna2)
        } else if b == 0x33 {
            Some(SelectedAntenna::Antenna3)
        } else if b == 0x34 {
            Some(SelectedAntenna::Antenna4)
        } else if b == 0x35 {
            Some(SelectedAntenna::Antenna5)
        } else if b == 0x36 {
            Some(SelectedAntenna::Antenna6)
        } else {
            None
        }
    }

    /// The wire byte.
    pub fn as_byte(&self) -> (b: u8)
        ensures
            b == self.spec_byte(),
    {
        match self {
            SelectedAntenna::Antenna1 => 0x31,
            SelectedAntenna::Antenna2 => 0x32,
            SelectedAntenna::Antenna3 => 0x33,
            SelectedAntenna::Antenna4 => 0x34,
            SelectedAntenna::Antenna5 => 0x35,
            SelectedAntenna::Antenna6 => 0x36,
        }
    }

    /// The variant that a wire byte stands for.
    pub fn from_repr(b: u8) -> (r: Option<SelectedAntenna>)
        ensures
            r == Self::spec_from_byte(b),
            r matches Some(v) ==> v.spec_byte() == b,
    {
        if b == 0x31 {
            Some(SelectedAntenna::Antenna1)
        } else if b == 0x32 {
            Some(SelectedAntenna::Antenna2)
        } else if b == 0x33 {
            Some(SelectedAntenna::Antenna3)
        } else if b == 0x34 {
            Some(SelectedAntenna::Antenna4)
        } else if b == 0x35 {
            Some(SelectedAntenna::Antenna5)
        } else if b == 0x36 {
            Some(SelectedAntenna::Antenna6)
        } else {
            None
        }
    }
}

/// The wire bytes of `SelectedAntenna`: Antenna1 `1`, Antenna2 `2`, Antenna3 `3`, Antenna4 `4`, Antenna5 `5`, Antenna6 `6`; no other byte stands for a variant.
pub proof fn lemma_selected_antenna_wire_bytes()
    ensures
        SelectedAntenna::Antenna1.spec_byte() == 0x31,
        SelectedAntenna::Antenna2.spec_byte() == 0x32,
        SelectedAntenna::Antenna3.spec_byte() == 0x33,
        SelectedAntenna::Antenna4.spec_byte() == 0x34,
        SelectedAntenna::Antenna5.spec_byte() == 0x35,
        SelectedAntenna::Antenna6.spec_byte() == 0x36,
        SelectedAntenna::spec_from_byte(0x31) == Some(SelectedAntenna::Antenna1),
        SelectedAntenna::spec_from_byte(0x32) == Some(SelectedAntenna::Antenna2),
        SelectedAntenna::spec_from_byte(0x33) == Some(SelectedAntenna::Antenna3),
        SelectedAntenna::spec_from_byte(0x34) == Some(SelectedAntenna::Antenna4),
        SelectedAntenna::spec_from_byte(0x35) == Some(SelectedAntenna::Antenna5),
        SelectedAntenna::spec_from_byte(0x36) == Some(SelectedAntenna::Antenna6),
        forall|b: u8| #[trigger] SelectedAntenna::spec_from_byte(b) is Some ==> (b == 0x31 || b == 0x32 || b == 0x33 || b == 0x34 || b == 0x35 || b == 0x36),
{
}

/// Reading back the wire byte of any `SelectedAntenna` gives the same value.
pub proof fn lemma_selected_antenna_byte_round_trip(v: SelectedAntenna)
    ensures
        SelectedAntenna::spec_from_byte(v.spec_byte()) == Some(v),
{
}

/// RS-232 baud rate (K3/K3S only).
#[derive(Clone, Copy, Debug, PartialEq, Eq, Hash)]
pub enum BaudRate {
    /// 4,800 baud; `0` on the wire.
    Rate4800,
    /// 9,600 baud; `1` on the wire.
    Rate9600,
    /// 19,200 baud; `2` on the wire.
    Rate19200,
    /// 38,400 baud; `3` on the wire.
    Rate38400,
}

impl BaudRate {
    pub open spec fn spec_byte(self) -> u8 {
        match self {
            BaudRate::Rate4800 => 0x30,
            BaudRate::Rate9600 => 0x31,
            BaudRate::Rate19200 => 0x32,
            BaudRate::Rate38400 => 0x33,
        }
    }

    /// The variant that a wire byte stands for.
    pub open spec fn spec_from_byte(b: u8) -> Option<BaudRate> {
        if b == 0x30 {
            Some(BaudRate::Rate4800)
        } else if b == 0x31 {
            Some(BaudRate::Rate9600)
        } else if b == 0x32 {
            Some(BaudRate::Rate19200)
        } else if b == 0x33 {
            Some(BaudRate::Rate38400)
        } else {
            None
        }
    }

    /// The wire byte.
    pub fn as_byte(&self) -> (b: u8)
        ensures
            b == self.spec_byte(),
    {
        match self {
            BaudRate::Rate4800 => 0x30,
            BaudRate::Rate9600 => 0x31,
            BaudRate::Rate19200 => 0x32,
            BaudRate::Rate38400 => 0x33,
        }
    }

    /// The variant that a wire byte stands for.
    pub fn from_repr(b: u8) -> (r: Option<BaudRate>)
        ensures
            r == Self::spec_from_byte(b),
            r matches Some(v) ==> v.spec_byte() == b,
    {
        if b == 0x30 {
            Some(BaudRate::Rate4800)
        } else if b == 0x31 {
            Some(BaudRate::Rate9600)
        } else if b == 0x32 {
            Some(BaudRate::Rate19200)
        } else if b == 0x33 {
            Some(BaudRate::Rate38400)
        } else {
            None
        }
    }
}

/// The wire bytes of `BaudRate`: Rate4800 `0`, Rate9600 `1`, Rate19200 `2`, Rate38400 `3`; no other byte stands for a variant.
pub proof fn lemma_baud_rate_wire_bytes()
    ensures
        BaudRate::Rate4800.spec_byte() == 0x30,
        BaudRate::Rate9600.spec_byte() == 0x31,
        BaudRate::Rate19200.spec_byte() == 0x32,
        BaudRate::Rate38400.spec_byte() == 0x33,
        BaudRate::spec_from_byte(0x30) == Some(BaudRate::Rate4800),
        BaudRate::spec_from_byte(0x31) == Some(BaudRate::Rate9600),
        BaudRate::spec_from_byte(0x32) == Some(BaudRate::Rate19200),
        BaudRate::spec_from_byte(0x33) == Some(BaudRate::Rate38400),
        forall|b: u8| #[trigger] BaudRate::spec_from_byte(b) is Some ==> (b == 0x30 || b == 0x31 || b == 0x32 || b == 0x33),
{
}

/// Reading back the wire byte of any `BaudRate` gives the same value.
pub proof fn lemma_baud_rate_byte_round_trip(v: BaudRate)
    ensures
        BaudRate::spec_from_byte(v.spec_byte()) == Some(v),
{
}

/// Tuning capacitor topology.
#[derive(Clone, Copy, Debug, PartialEq, Eq, Hash)]
pub enum CapacitorTopology {
    /// Lo-Z; capacitor on the output side; `0` on the wire.
    LowZ,
    /// Hi-Z; capacitor on the input side; `1` on the wire.
    HighZ,
}

impl CapacitorTopology {
    pub open spec fn spec_byte(self) -> u8 {
        match self {
            CapacitorTopology::LowZ => 0x30,
            CapacitorTopology::HighZ => 0x31,
        }
    }

    /// The variant that a wire byte stands for.
    pub open spec fn spec_from_byte(b: u8) -> Option<CapacitorTopology> {
        if b == 0x30 {
            Some(CapacitorTopology::LowZ)
        } else if b == 0x31 {
            Some(CapacitorTopology::HighZ)
        } else {
            None
        }
    }

    /// The wire byte.
    pub fn as_byte(&self) -> (b: u8)
        ensures
            b == self.spec_byte(),
    {
        match self {
            CapacitorTopology::LowZ => 0x30,
            CapacitorTopology::HighZ => 0x31,
        }
    }

    /// The variant that a wire byte stands for.
    pub fn from_repr(b: u8) -> (r: Option<CapacitorTopology>)
        ensures
            r == Self::spec_from_byte(b),
            r matches Some(v) ==> v.spec_byte() == b,
    {
        if b == 0x30 {
            Some(CapacitorTopology::LowZ)
        } else if b == 0x31 {
            Some(CapacitorTopology::HighZ)
        } else {
            None
        }
    }
}

/// The wire bytes of `CapacitorTopology`: LowZ `0`, HighZ `1`; no other byte stands for a variant.
pub proof fn lemma_capacitor_topology_wire_bytes()
    ensures
        CapacitorTopology::LowZ.spec_byte() == 0x30,
        CapacitorTopology::HighZ.spec_byte() == 0x31,
        CapacitorTopology::spec_from_byte(0x30) == Some(CapacitorTopology::LowZ),
        CapacitorTopology::spec_from_byte(0x31) == Some(CapacitorTopology::HighZ),
        forall|b: u8| #[trigger] CapacitorTopology::spec_from_byte(b) is Some ==> (b == 0x30 || b == 0x31),
{
}

/// Reading back the wire byte of any `CapacitorTopology` gives the same value.
pub proof fn lemma_capacitor_topology_byte_round_trip(v: CapacitorTopology)
    ensures
        CapacitorTopology::spec_from_byte(v.spec_byte()) == Some(v),
{
}

/// The ATU operating mode.
#[derive(Clone, Copy, Debug, PartialEq, Eq, Hash)]
pub enum OperatingMode {
    /// Automatic tuning; the ATU tunes without operator intervention; `0` on the wire.
    Auto,
    /// Semi-automatic tuning; the ATU tunes only when explicitly triggered; `1` on the wire.
    SemiAuto,
    /// Manual tuning; L/C values are set directly by the operator; `2` on the wire.
    Manual,
}

impl OperatingMode {
    pub open spec fn spec_byte(self) -> u8 {
        match self {
            OperatingMode::Auto => 0x30,
            OperatingMode::SemiAuto => 0x31,
            OperatingMode::Manual => 0x32,
        }
    }

    /// The variant that a wire byte stands for.
    pub open spec fn spec_from_byte(b: u8) -> Option<OperatingMode> {
        if b == 0x30 {
            Some(OperatingMode::Auto)
        } else if b == 0x31 {
            Some(OperatingMode::SemiAuto)
        } else if b == 0x32 {
            Some(OperatingMode::Manual)
        } else {
            None
        }
    }

    /// The wire byte.
    pub fn as_byte(&self) -> (b: u8)
        ensures
            b == self.spec_byte(),
    {
        match self {
            OperatingMode::Auto => 0x30,
            OperatingMode::SemiAuto => 0x31,
            OperatingMode::Manual => 0x32,
        }
    }

    /// The variant that a wire byte stands for.
    pub fn from_repr(b: u8) -> (r: Option<OperatingMode>)
        ensures
            r == Self::spec_from_byte(b),
            r matches Some(v) ==> v.spec_byte() == b,
    {
        if b == 0x30 {
            Some(OperatingMode::Auto)
        } else if b == 0x31 {
            Some(OperatingMode::SemiAuto)
        } else if b == 0x32 {
            Some(OperatingMode::Manual)
        } else {
            None
        }
    }
}

/// The wire bytes of `OperatingMode`: Auto `0`, SemiAuto `1`, Manual `2`; no other byte stands for a variant.
pub proof fn lemma_operating_mode_wire_bytes()
    ensures
        OperatingMode::Auto.spec_byte() == 0x30,
        OperatingMode::SemiAuto.spec_byte() == 0x31,
        OperatingMode::Manual.spec_byte() == 0x32,
        OperatingMode::spec_from_byte(0x30) == Some(OperatingMode::Auto),
        OperatingMode::spec_from_byte(0x31) == Some(OperatingMode::SemiAuto),
        OperatingMode::spec_from_byte(0x32) == Some(OperatingMode::Manual),
        forall|b: u8| #[trigger] OperatingMode::spec_from_byte(b) is Some ==> (b == 0x30 || b == 0x31 || b == 0x32),
{
}

/// Reading back the wire byte of any `OperatingMode` gives the same value.
pub proof fn lemma_operating_mode_byte_round_trip(v: OperatingMode)
    ensures
        OperatingMode::spec_from_byte(v.spec_byte()) == Some(v),
{
}

/// The front-panel meter display type.
#[derive(Clone, Copy, Debug, PartialEq, Eq, Hash)]
pub enum MeterType {
    /// Display SWR; `0` on the wire.
    Swr,
    /// Display forward power; `1` on the wire.
    Power,
    /// Display reflected power; `2` on the wire.
    Reflected,
}

impl MeterType {
    pub open spec fn spec_byte(self) -> u8 {
        match self {
            MeterType::Swr => 0x30,
            MeterType::Power => 0x31,
            MeterType::Reflected => 0x32,
        }
    }

    /// The variant that a wire byte stands for.
    pub open spec fn spec_from_byte(b: u8) -> Option<MeterType> {
        if b == 0x30 {
            Some(MeterType::Swr)
        } else if b == 0x31 {
            Some(MeterType::Power)
        } else if b == 0x32 {
            Some(MeterType::Reflected)
        } else {
            None
        }
    }

    /// The wire byte.
    pub fn as_byte(&self) -> (b: u8)
        ensures
            b == self.spec_byte(),
    {
        match self {
            MeterType::Swr => 0x30,
            MeterType::Power => 0x31,
            MeterType::Reflected => 0x32,
        }
    }

    /// The variant that a wire byte stands for.
    pub fn from_repr(b: u8) -> (r: Option<MeterType>)
        ensures
            r == Self::spec_from_byte(b),
            r matches Some(v) ==> v.spec_byte() == b,
    {
        if b == 0x30 {
            Some(MeterType::Swr)
        } else if b == 0x31 {
            Some(MeterType::Power)
        } else if b == 0x32 {
            Some(MeterType::Reflected)
        } else {
            None
        }
    }
}

/// The wire bytes of `MeterType`: Swr `0`, Power `1`, Reflected `2`; no other byte stands for a variant.
pub proof fn lemma_meter_type_wire_bytes()
    ensures
        MeterType::Swr.spec_byte() == 0x30,
        MeterType::Power.spec_byte() == 0x31,
        MeterType::Reflected.spec_byte() == 0x32,
        MeterType::spec_from_byte(0x30) == Some(MeterType::Swr),
        MeterType::spec_from_byte(0x31) == Some(MeterType::Power),
        MeterType::spec_from_byte(0x32) == Some(MeterType::Reflected),
        forall|b: u8| #[trigger] MeterType::spec_from_byte(b) is Some ==> (b == 0x30 || b == 0x31 || b == 0x32),
{
}

/// Reading back the wire byte of any `MeterType` gives the same value.
pub proof fn lemma_meter_type_byte_round_trip(v: MeterType)
    ensures
        MeterType::spec_from_byte(v.spec_byte()) == Some(v),
{
}

/// The antenna side selection.
#[derive(Clone, Copy, Debug, PartialEq, Eq, Hash)]
pub enum AntennaSide {
    /// Left side; `0` on the wire.
    Left,
    /// Right side; `1` on the wire.
    Right,
}

impl AntennaSide {
    pub open spec fn spec_byte(self) -> u8 {
        match self {
            AntennaSide::Left => 0x30,
            AntennaSide::Right => 0x31,
        }
    }

    /// The variant that a wire byte stands for.
    pub open spec fn spec_from_byte(b: u8) -> Option<AntennaSide> {
        if b == 0x30 {
            Some(AntennaSide::Left)
        } else if b == 0x31 {
            Some(AntennaSide::Right)
        } else {
            None
        }
    }

    /// The wire byte.
    pub fn as_byte(&self) -> (b: u8)
        ensures
            b == self.spec_byte(),
    {
        match self {
            AntennaSide::Left => 0x30,
            AntennaSide::Right => 0x31,
        }
    }

    /// The variant that a wire byte stands for.
    pub fn from_repr(b: u8) -> (r: Option<AntennaSide>)
        ensures
            r == Self::spec_from_byte(b),
            r matches Some(v) ==> v.spec_byte() == b,
    {
        if b == 0x30 {
            Some(AntennaSide::Left)
        } else if b == 0x31 {
            Some(AntennaSide::Right)
        } else {
            None
        }
    }
}

/// The wire bytes of `AntennaSide`: Left `0`, Right `1`; no other byte stands for a variant.
pub proof fn lemma_antenna_side_wire_bytes()
    ensures
        AntennaSide::Left.spec_byte() == 0x30,
        AntennaSide::Right.spec_byte() == 0x31,
        AntennaSide::spec_from_byte(0x30) == Some(AntennaSide::Left),
        AntennaSide::spec_from_byte(0x31) == Some(AntennaSide::Right),
        forall|b: u8| #[trigger] AntennaSide::spec_from_byte(b) is Some ==> (b == 0x30 || b == 0x31),
{
}

/// Reading back the wire byte of any `AntennaSide` gives the same value.
pub proof fn lemma_antenna_side_byte_round_trip(v: AntennaSide)
    ensures
        AntennaSide::spec_from_byte(v.spec_byte()) == Some(v),
{
}

/// `AB`
pub open spec fn get_auto_bypass_state_id() -> Seq<u8> {
    seq![0x41, 0x42]
}

fn get_auto_bypass_state_id_bytes() -> (r: &'static [u8])
    ensures
        r@ == get_auto_bypass_state_id(),
{
    &[0x41, 0x42]
}

/// Get whether automatic bypass is enabled (`AB`).
#[derive(Clone, Copy, Debug, PartialEq, Eq)]
pub struct GetAutoBypassState;

impl GetAutoBypassState {
    pub fn to_bytes(&self) -> (r: Vec<u8>)
        ensures
            r@ == frame(get_auto_bypass_state_id(), seq![]),
    {
        let none: [u8; 0] = [];
        frame_command(get_auto_bypass_state_id_bytes(), &none)
    }

    pub open spec fn spec_parse_response(bytes: Seq<u8>) -> Result<bool, Failure> {
        match spec_validate_response(bytes, get_auto_bypass_state_id(), 1) {
            Ok(v) => spec_bool_1_0(v[0]),
            Err(f) => Err(f),
        }
    }

    pub fn parse(&self, bytes: &[u8]) -> (r: Result<bool, RigError>)
        ensures
            agrees(r, Self::spec_parse_response(bytes@)),
    {
        match validate_response(bytes, get_auto_bypass_state_id_bytes(), 1) {
            Ok(d) => bool_from_ascii_1_0(d[0]),
            Err(e) => Err(e),
        }
    }
}

/// A `GetAutoBypassState` reply whose value byte is `1` reads as `true`, `0` as `false`; any other byte is a
/// `ParseBoolean` error.
pub proof fn lemma_get_auto_bypass_state_reply(v: Seq<u8>)
    requires
        v.len() == 1,
    ensures
        v[0] == 0x31 ==> GetAutoBypassState::spec_parse_response(frame(get_auto_bypass_state_id(), v)) == Ok::<bool, Failure>(true),
        v[0] == 0x30 ==> GetAutoBypassState::spec_parse_response(frame(get_auto_bypass_state_id(), v)) == Ok::<bool, Failure>(false),
        v[0] != 0x30 && v[0] != 0x31 ==> GetAutoBypassState::spec_parse_response(frame(get_auto_bypass_state_id(), v)) == Err::<bool, Failure>(Failure::Boolean(v[0])),
{
    lemma_framed_value_reads_back(get_auto_bypass_state_id(), v);
}

/// `AB`
pub open spec fn set_auto_bypass_state_id() -> Seq<u8> {
    seq![0x41, 0x42]
}

fn set_auto_bypass_state_id_bytes() -> (r: &'static [u8])
    ensures
        r@ == set_auto_bypass_state_id(),
{
    &[0x41, 0x42]
}

/// Set whether automatic bypass is enabled (`AB`).
#[derive(Clone, Copy, Debug, PartialEq, Eq)]
pub struct SetAutoBypassState {
    pub state: bool,
}

impl SetAutoBypassState {
    pub open spec fn spec_args(self) -> Seq<u8> {
        seq![if self.state { ASCII_DIGIT_ONE } else { ASCII_DIGIT_ZERO }]
    }

    pub fn to_bytes(&self) -> (r: Vec<u8>)
        ensures
            r@ == frame(set_auto_bypass_state_id(), self.spec_args()),
    {
        let args: [u8; 1] = [if self.state { ASCII_DIGIT_ONE } else { ASCII_DIGIT_ZERO }];
        assert(args@ =~= self.spec_args());
        frame_command(set_auto_bypass_state_id_bytes(), &args)
    }
}

/// `SetAutoBypassState` sends `1` when `state` is set and `0` when it is clear.
pub proof fn lemma_set_auto_bypass_state_argument(s: SetAutoBypassState)
    ensures
        s.state ==> s.spec_args() == seq![0x31u8],
        !s.state ==> s.spec_args() == seq![0x30u8],
{
}

/// `AE`
pub open spec fn get_auto_enable_state_id() -> Seq<u8> {
    seq![0x41, 0x45]
}

fn get_auto_enable_state_id_bytes() -> (r: &'static [u8])
    ensures
        r@ == get_auto_enable_state_id(),
{
    &[0x41, 0x45]
}

/// Get whether the ATU is enabled, i.e. whether automatic tuning is allowed (`AE`).
#[derive(Clone, Copy, Debug, PartialEq, Eq)]
pub struct GetAutoEnableState;

impl GetAutoEnableState {
    pub fn to_bytes(&self) -> (r: Vec<u8>)
        ensures
            r@ == frame(get_auto_enable_state_id(), seq![]),
    {
        let none: [u8; 0] = [];
        frame_command(get_auto_enable_state_id_bytes(), &none)
    }

    pub open spec fn spec_parse_response(bytes: Seq<u8>) -> Result<bool, Failure> {
        match spec_validate_response(bytes, get_auto_enable_state_id(), 1) {
            Ok(v) => spec_bool_1_0(v[0]),
            Err(f) => Err(f),
        }
    }

    pub fn parse(&self, bytes: &[u8]) -> (r: Result<bool, RigError>)
        ensures
            agrees(r, Self::spec_parse_response(bytes@)),
    {
        match validate_response(bytes, get_auto_enable_state_id_bytes(), 1) {
            Ok(d) => bool_from_ascii_1_0(d[0]),
            Err(e) => Err(e),
        }
    }
}

/// A `GetAutoEnableState` reply whose value byte is `1` reads as `true`, `0` as `false`; any other byte is a
/// `ParseBoolean` error.
pub proof fn lemma_get_auto_enable_state_reply(v: Seq<u8>)
    requires
        v.len() == 1,
    ensures
        v[0] == 0x31 ==> GetAutoEnableState::spec_parse_response(frame(get_auto_enable_state_id(), v)) == Ok::<bool, Failure>(true),
        v[0] == 0x30 ==> GetAutoEnableState::spec_parse_response(frame(get_auto_enable_state_id(), v)) == Ok::<bool, Failure>(false),
        v[0] != 0x30 && v[0] != 0x31 ==> GetAutoEnableState::spec_parse_response(frame(get_auto_enable_state_id(), v)) == Err::<bool, Failure>(Failure::Boolean(v[0])),
{
    lemma_framed_value_reads_back(get_auto_enable_state_id(), v);
}

/// `AE`
pub open spec fn set_auto_enable_state_id() -> Seq<u8> {
    seq![0x41, 0x45]
}

fn set_auto_enable_state_id_bytes() -> (r: &'static [u8])
    ensures
        r@ == set_auto_enable_state_id(),
{
    &[0x41, 0x45]
}

/// Set whether the ATU is enabled, i.e. whether automatic tuning is allowed (`AE`).
#[derive(Clone, Copy, Debug, PartialEq, Eq)]
pub struct SetAutoEnableState {
    pub state: bool,
}

impl SetAutoEnableState {
    pub open spec fn spec_args(self) -> Seq<u8> {
        seq![if self.state { ASCII_DIGIT_ONE } else { ASCII_DIGIT_ZERO }]
    }

    pub fn to_bytes(&self) -> (r: Vec<u8>)
        ensures
            r@ == frame(set_auto_enable_state_id(), self.spec_args()),
    {
        let args: [u8; 1] = [if self.state { ASCII_DIGIT_ONE } else { ASCII_DIGIT_ZERO }];
        assert(args@ =~= self.spec_args());
        frame_command(set_auto_enable_state_id_bytes(), &args)
    }
}

/// `SetAutoEnableState` sends `1` when `state` is set and `0` when it is clear.
pub proof fn lemma_set_auto_enable_state_argument(s: SetAutoEnableState)
    ensures
        s.state ==> s.spec_args() == seq![0x31u8],
        !s.state ==> s.spec_args() == seq![0x30u8],
{
}

/// `AFT`
pub open spec fn get_fault_condition_state_id() -> Seq<u8> {
    seq![0x41, 0x46, 0x54]
}

fn get_fault_condition_state_id_bytes() -> (r: &'static [u8])
    ensures
        r@ == get_fault_condition_state_id(),
{
    &[0x41, 0x46, 0x54]
}

/// Get whether the ATU currently has a fault condition (`AFT`).
#[derive(Clone, Copy, Debug, PartialEq, Eq)]
pub struct GetFaultConditionState;

impl GetFaultConditionState {
    pub fn to_bytes(&self) -> (r: Vec<u8>)
        ensures
            r@ == frame(get_fault_condition_state_id(), seq![]),
    {
        let none: [u8; 0] = [];
        frame_command(get_fault_condition_state_id_bytes(), &none)
    }

    pub open spec fn spec_parse_response(bytes: Seq<u8>) -> Result<bool, Failure> {
        match spec_validate_response(bytes, get_fault_condition_state_id(), 1) {
            Ok(v) => spec_bool_1_0(v[0]),
            Err(f) => Err(f),
        }
    }

    pub fn parse(&self, bytes: &[u8]) -> (r: Result<bool, RigError>)
        ensures
            agrees(r, Self::spec_parse_response(bytes@)),
    {
        match validate_response(bytes, get_fault_condition_state_id_bytes(), 1) {
            Ok(d) => bool_from_ascii_1_0(d[0]),
            Err(e) => Err(e),
        }
    }
}

/// A `GetFaultConditionState` reply whose value byte is `1` reads as `true`, `0` as `false`; any other byte is a
/// `ParseBoolean` error.
pub proof fn lemma_get_fault_condition_state_reply(v: Seq<u8>)
    requires
        v.len() == 1,
    ensures
        v[0] == 0x31 ==> GetFaultConditionState::spec_parse_response(frame(get_fault_condition_state_id(), v)) == Ok::<bool, Failure>(true),
        v[0] == 0x30 ==> GetFaultConditionState::spec_parse_response(frame(get_fault_condition_state_id(), v)) == Ok::<bool, Failure>(false),
        v[0] != 0x30 && v[0] != 0x31 ==> GetFaultConditionState::spec_parse_response(frame(get_fault_condition_state_id(), v)) == Err::<bool, Failure>(Failure::Boolean(v[0])),
{
    lemma_framed_value_reads_back(get_fault_condition_state_id(), v);
}

/// `AKIP`
pub open spec fn get_keep_in_place_state_id() -> Seq<u8> {
    seq![0x41, 0x4B, 0x49, 0x50]
}

fn get_keep_in_place_state_id_bytes() -> (r: &'static [u8])
    ensures
        r@ == get_keep_in_place_state_id(),
{
    &[0x41, 0x4B, 0x49, 0x50]
}

/// Get the ATU keep-in-place state (`AKIP`).
#[derive(Clone, Copy, Debug, PartialEq, Eq)]
pub struct GetKeepInPlaceState;

impl GetKeepInPlaceState {
    pub fn to_bytes(&self) -> (r: Vec<u8>)
        ensures
            r@ == frame(get_keep_in_place_state_id(), seq![]),
    {
        let none: [u8; 0] = [];
        frame_command(get_keep_in_place_state_id_bytes(), &none)
    }

    pub open spec fn spec_parse_response(bytes: Seq<u8>) -> Result<bool, Failure> {
        match spec_validate_response(bytes, get_keep_in_place_state_id(), 1) {
            Ok(v) => spec_bool_1_0(v[0]),
            Err(f) => Err(f),
        }
    }

    pub fn parse(&self, bytes: &[u8]) -> (r: Result<bool, RigError>)
        ensures
            agrees(r, Self::spec_parse_response(bytes@)),
    {
        match validate_response(bytes, get_keep_in_place_state_id_bytes(), 1) {
            Ok(d) => bool_from_ascii_1_0(d[0]),
            Err(e) => Err(e),
        }
    }
}

/// A `GetKeepInPlaceState` reply whose value byte is `1` reads as `true`, `0` as `false`; any other byte is a
/// `ParseBoolean` error.
pub proof fn lemma_get_keep_in_place_state_reply(v: Seq<u8>)
    requires
        v.len() == 1,
    ensures
        v[0] == 0x31 ==> GetKeepInPlaceState::spec_parse_response(frame(get_keep_in_place_state_id(), v)) == Ok::<bool, Failure>(true),
        v[0] == 0x30 ==> GetKeepInPlaceState::spec_parse_response(frame(get_keep_in_place_state_id(), v)) == Ok::<bool, Failure>(false),
        v[0] != 0x30 && v[0] != 0x31 ==> GetKeepInPlaceState::spec_parse_response(frame(get_keep_in_place_state_id(), v)) == Err::<bool, Failure>(Failure::Boolean(v[0])),
{
    lemma_framed_value_reads_back(get_keep_in_place_state_id(), v);
}

/// `AKIP`
pub open spec fn set_keep_in_place_state_id() -> Seq<u8> {
    seq![0x41, 0x4B, 0x49, 0x50]
}

fn set_keep_in_place_state_id_bytes() -> (r: &'static [u8])
    ensures
        r@ == set_keep_in_place_state_id(),
{
    &[0x41, 0x4B, 0x49, 0x50]
}

/// Set the ATU keep-in-place state (`AKIP`).
#[derive(Clone, Copy, Debug, PartialEq, Eq)]
pub struct SetKeepInPlaceState {
    pub state: bool,
}

impl SetKeepInPlaceState {
    pub open spec fn spec_args(self) -> Seq<u8> {
        seq![if self.state { ASCII_DIGIT_ONE } else { ASCII_DIGIT_ZERO }]
    }

    pub fn to_bytes(&self) -> (r: Vec<u8>)
        ensures
            r@ == frame(set_keep_in_place_state_id(), self.spec_args()),
    {
        let args: [u8; 1] = [if self.state { ASCII_DIGIT_ONE } else { ASCII_DIGIT_ZERO }];
        assert(args@ =~= self.spec_args());
        frame_command(set_keep_in_place_state_id_bytes(), &args)
    }
}

/// `SetKeepInPlaceState` sends `1` when `state` is set and `0` when it is clear.
pub proof fn lemma_set_keep_in_place_state_argument(s: SetKeepInPlaceState)
    ensures
        s.state ==> s.spec_args() == seq![0x31u8],
        !s.state ==> s.spec_args() == seq![0x30u8],
{
}

/// `AMPI`
pub open spec fn get_amplifier_interface_relay_closed_state_id() -> Seq<u8> {
    seq![0x41, 0x4D, 0x50, 0x49]
}

fn get_amplifier_interface_relay_closed_state_id_bytes() -> (r: &'static [u8])
    ensures
        r@ == get_amplifier_interface_relay_closed_state_id(),
{
    &[0x41, 0x4D, 0x50, 0x49]
}

/// Get the amplifier interface relay state (`AMPI`).
#[derive(Clone, Copy, Debug, PartialEq, Eq)]
pub struct GetAmplifierInterfaceRelayClosedState;

impl GetAmplifierInterfaceRelayClosedState {
    pub fn to_bytes(&self) -> (r: Vec<u8>)
        ensures
            r@ == frame(get_amplifier_interface_relay_closed_state_id(), seq![]),
    {
        let none: [u8; 0] = [];
        frame_command(get_amplifier_interface_relay_closed_state_id_bytes(), &none)
    }

    /// What `parse` gives for a response: the value of its one byte, or `InvalidResponseData`
    /// holding the value.
    pub open spec fn spec_parse_response(bytes: Seq<u8>) -> Result<AmplifierInterfaceRelayState, Failure> {
        match spec_validate_response(bytes, get_amplifier_interface_relay_closed_state_id(), 1) {
            Ok(v) => match AmplifierInterfaceRelayState::spec_from_byte(v[0]) {
                Some(x) => Ok(x),
                None => Err(Failure::ResponseData(v)),
            },
            Err(f) => Err(f),
        }
    }

    pub fn parse(&self, bytes: &[u8]) -> (r: Result<AmplifierInterfaceRelayState, RigError>)
        ensures
            agrees(r, Self::spec_parse_response(bytes@)),
    {
        match validate_response(bytes, get_amplifier_interface_relay_closed_state_id_bytes(), 1) {
            Ok(d) => match AmplifierInterfaceRelayState::from_repr(d[0]) {
                Some(x) => Ok(x),
                None => Err(invalid_response_data(d)),
            },
            Err(e) => Err(e),
        }
    }
}

/// A `GetAmplifierInterfaceRelayClosedState` reply reads as the `AmplifierInterfaceRelayState` whose wire byte is its value byte; a byte that names no
/// variant is an `InvalidResponseData` error holding the value.
pub proof fn lemma_get_amplifier_interface_relay_closed_state_reply(v: Seq<u8>)
    requires
        v.len() == 1,
    ensures
        GetAmplifierInterfaceRelayClosedState::spec_parse_response(frame(get_amplifier_interface_relay_closed_state_id(), v)) matches Ok(m) ==> m.spec_byte() == v[0],
        AmplifierInterfaceRelayState::spec_from_byte(v[0]) is Some ==> GetAmplifierInterfaceRelayClosedState::spec_parse_response(frame(get_amplifier_interface_relay_closed_state_id(), v)) is Ok,
        AmplifierInterfaceRelayState::spec_from_byte(v[0]) is None ==> GetAmplifierInterfaceRelayClosedState::spec_parse_response(frame(get_amplifier_interface_relay_closed_state_id(), v)) == Err::<AmplifierInterfaceRelayState, Failure>(Failure::ResponseData(v)),
{
    lemma_framed_value_reads_back(get_amplifier_interface_relay_closed_state_id(), v);
}

/// `AMPI`
pub open spec fn set_amplifier_interface_relay_closed_state_id() -> Seq<u8> {
    seq![0x41, 0x4D, 0x50, 0x49]
}

fn set_amplifier_interface_relay_closed_state_id_bytes() -> (r: &'static [u8])
    ensures
        r@ == set_amplifier_interface_relay_closed_state_id(),
{
    &[0x41, 0x4D, 0x50, 0x49]
}

/// Set the amplifier interface relay state (`AMPI`).
#[derive(Clone, Copy, Debug, PartialEq, Eq)]
pub struct SetAmplifierInterfaceRelayClosedState {
    pub state: AmplifierInterfaceRelayState,
}

impl SetAmplifierInterfaceRelayClosedState {
    pub fn open() -> (r: SetAmplifierInterfaceRelayClosedState)
        ensures
            r.state == AmplifierInterfaceRelayState::Open,
    {
        SetAmplifierInterfaceRelayClosedState { state: AmplifierInterfaceRelayState::Open }
    }

    pub fn close() -> (r: SetAmplifierInterfaceRelayClosedState)
        ensures
            r.state == AmplifierInterfaceRelayState::Closed,
    {
        SetAmplifierInterfaceRelayClosedState { state: AmplifierInterfaceRelayState::Closed }
    }

    pub open spec fn spec_args(self) -> Seq<u8> {
        seq![self.state.spec_byte()]
    }

    pub fn to_bytes(&self) -> (r: Vec<u8>)
        ensures
            r@ == frame(set_amplifier_interface_relay_closed_state_id(), self.spec_args()),
    {
        let args: [u8; 1] = [self.state.as_byte()];
        assert(args@ =~= self.spec_args());
        frame_command(set_amplifier_interface_relay_closed_state_id_bytes(), &args)
    }
}

/// `SetAmplifierInterfaceRelayClosedState` sends exactly one byte, the wire byte of `state`.
pub proof fn lemma_set_amplifier_interface_relay_closed_state_argument(s: SetAmplifierInterfaceRelayClosedState)
    ensures
        s.spec_args().len() == 1,
        s.spec_args()[0] == s.state.spec_byte(),
{
}

/// `AN`
pub open spec fn get_antenna_selection_id() -> Seq<u8> {
    seq![0x41, 0x4E]
}

fn get_antenna_selection_id_bytes() -> (r: &'static [u8])
    ensures
        r@ == get_antenna_selection_id(),
{
    &[0x41, 0x4E]
}

/// Get the currently selected antenna port (`AN`).
#[derive(Clone, Copy, Debug, PartialEq, Eq)]
pub struct GetAntennaSelection;

impl GetAntennaSelection {
    pub fn to_bytes(&self) -> (r: Vec<u8>)
        ensures
            r@ == frame(get_antenna_selection_id(), seq![]),
    {
        let none: [u8; 0] = [];
        frame_command(get_antenna_selection_id_bytes(), &none)
    }

    /// What `parse` gives for a response: the value of its one byte, or `InvalidResponseData`
    /// holding the value.
    pub open spec fn spec_parse_response(bytes: Seq<u8>) -> Result<SelectedAntenna, Failure> {
        match spec_validate_response(bytes, get_antenna_selection_id(), 1) {
            Ok(v) => match SelectedAntenna::spec_from_byte(v[0]) {
                Some(x) => Ok(x),
                None => Err(Failure::ResponseData(v)),
            },
            Err(f) => Err(f),
        }
    }

    pub fn parse(&self, bytes: &[u8]) -> (r: Result<SelectedAntenna, RigError>)
        ensures
            agrees(r, Self::spec_parse_response(bytes@)),
    {
        match validate_response(bytes, get_antenna_selection_id_bytes(), 1) {
            Ok(d) => match SelectedAntenna::from_repr(d[0]) {
                Some(x) => Ok(x),
                None => Err(invalid_response_data(d)),
            },
            Err(e) => Err(e),
        }
    }
}

/// A `GetAntennaSelection` reply reads as the `SelectedAntenna` whose wire byte is its value byte; a byte that names no
/// variant is an `InvalidResponseData` error holding the value.
pub proof fn lemma_get_antenna_selection_reply(v: Seq<u8>)
    requires
        v.len() == 1,
    ensures
        GetAntennaSelection::spec_parse_response(frame(get_antenna_selection_id(), v)) matches Ok(m) ==> m.spec_byte() == v[0],
        SelectedAntenna::spec_from_byte(v[0]) is Some ==> GetAntennaSelection::spec_parse_response(frame(get_antenna_selection_id(), v)) is Ok,
        SelectedAntenna::spec_from_byte(v[0]) is None ==> GetAntennaSelection::spec_parse_response(frame(get_antenna_selection_id(), v)) == Err::<SelectedAntenna, Failure>(Failure::ResponseData(v)),
{
    lemma_framed_value_reads_back(get_antenna_selection_id(), v);
}

/// `AN`
pub open spec fn set_antenna_selection_id() -> Seq<u8> {
    seq![0x41, 0x4E]
}

fn set_antenna_selection_id_bytes() -> (r: &'static [u8])
    ensures
        r@ == set_antenna_selection_id(),
{
    &[0x41, 0x4E]
}

/// Set the currently selected antenna port (`AN`).
#[derive(Clone, Copy, Debug, PartialEq, Eq)]
pub struct SetAntennaSelection {
    pub antenna: SelectedAntenna,
}

impl SetAntennaSelection {
    pub fn select_antenna_1() -> (r: SetAntennaSelection)
        ensures
            r.antenna == SelectedAntenna::Antenna1,
    {
        SetAntennaSelection { antenna: SelectedAntenna::Antenna1 }
    }

    pub fn select_antenna_2() -> (r: SetAntennaSelection)
        ensures
            r.antenna == SelectedAntenna::Antenna2,
    {
        SetAntennaSelection { antenna: SelectedAntenna::Antenna2 }
    }

    pub fn select_antenna_3() -> (r: SetAntennaSelection)
        ensures
            r.antenna == SelectedAntenna::Antenna3,
    {
        SetAntennaSelection { antenna: SelectedAntenna::Antenna3 }
    }

    pub fn select_antenna_4() -> (r: SetAntennaSelection)
        ensures
            r.antenna == SelectedAntenna::Antenna4,
    {
        SetAntennaSelection { antenna: SelectedAntenna::Antenna4 }
    }

    pub fn select_antenna_5() -> (r: SetAntennaSelection)
        ensures
            r.antenna == SelectedAntenna::Antenna5,
    {
        SetAntennaSelection { antenna: SelectedAntenna::Antenna5 }
    }

    pub fn select_antenna_6() -> (r: SetAntennaSelection)
        ensures
            r.antenna == SelectedAntenna::Antenna6,
    {
        SetAntennaSelection { antenna: SelectedAntenna::Antenna6 }
    }

    pub open spec fn spec_args(self) -> Seq<u8> {
        seq![self.antenna.spec_byte()]
    }

    pub fn to_bytes(&self) -> (r: Vec<u8>)
        ensures
            r@ == frame(set_antenna_selection_id(), self.spec_args()),
    {
        let args: [u8; 1] = [self.antenna.as_byte()];
        assert(args@ =~= self.spec_args());
        frame_command(set_antenna_selection_id_bytes(), &args)
    }
}

/// `SetAntennaSelection` sends exactly one byte, the wire byte of `antenna`.
pub proof fn lemma_set_antenna_selection_argument(s: SetAntennaSelection)
    ensures
        s.spec_args().len() == 1,
        s.spec_args()[0] == s.antenna.spec_byte(),
{
}

/// `AP`
pub open spec fn get_preset_slot_number_id() -> Seq<u8> {
    seq![0x41, 0x50]
}

fn get_preset_slot_number_id_bytes() -> (r: &'static [u8])
    ensures
        r@ == get_preset_slot_number_id(),
{
    &[0x41, 0x50]
}

/// Get the current ATU preset slot number (`AP`).
#[derive(Clone, Copy, Debug, PartialEq, Eq)]
pub struct GetPresetSlotNumber;

impl GetPresetSlotNumber {
    pub fn to_bytes(&self) -> (r: Vec<u8>)
        ensures
            r@ == frame(get_preset_slot_number_id(), seq![]),
    {
        let none: [u8; 0] = [];
        frame_command(get_preset_slot_number_id_bytes(), &none)
    }

    pub open spec fn spec_parse_response(bytes: Seq<u8>) -> Result<u16, Failure> {
        match spec_validate_response(bytes, get_preset_slot_number_id(), 3) {
            Ok(v) => spec_u16_field(v),
            Err(f) => Err(f),
        }
    }

    pub fn parse(&self, bytes: &[u8]) -> (r: Result<u16, RigError>)
        ensures
            agrees(r, Self::spec_parse_response(bytes@)),
    {
        match validate_response(bytes, get_preset_slot_number_id_bytes(), 3) {
            Ok(d) => {
                proof {
                    lemma_leading_value_bound(d@);
                    lemma_pow10_values();
                }
                u16_from_ascii(d)
            },
            Err(e) => Err(e),
        }
    }
}

/// A `GetPresetSlotNumber` reply of 3 value bytes reads as the decimal number they spell; a value with a
/// byte that is not a digit is an `InvalidResponseData` error holding the value.
pub proof fn lemma_get_preset_slot_number_reply(v: Seq<u8>)
    requires
        v.len() == 3,
    ensures
        all_digits(v) && digits_value(v) <= u16::MAX ==> GetPresetSlotNumber::spec_parse_response(frame(get_preset_slot_number_id(), v)) == Ok::<u16, Failure>(digits_value(v) as u16),
        !all_digits(v) ==> GetPresetSlotNumber::spec_parse_response(frame(get_preset_slot_number_id(), v)) == Err::<u16, Failure>(Failure::ResponseData(v)),
{
    lemma_framed_value_reads_back(get_preset_slot_number_id(), v);
}

/// `AP`
pub open spec fn set_preset_slot_number_id() -> Seq<u8> {
    seq![0x41, 0x50]
}

fn set_preset_slot_number_id_bytes() -> (r: &'static [u8])
    ensures
        r@ == set_preset_slot_number_id(),
{
    &[0x41, 0x50]
}

/// Set the current ATU preset slot number (`AP`).
#[derive(Clone, Copy, Debug, PartialEq, Eq)]
pub struct SetPresetSlotNumber {
    pub slot_number: u16,
}

impl SetPresetSlotNumber {
    pub open spec fn spec_args(self) -> Seq<u8> {
        padded_decimal(self.slot_number as nat, 3)
    }

    pub fn to_bytes(&self) -> (r: Vec<u8>)
        ensures
            r@ == frame(set_preset_slot_number_id(), self.spec_args()),
    {
        let args = format_uint_ascii(self.slot_number as u64, 3);
        frame_command(set_preset_slot_number_id_bytes(), args.as_slice())
    }
}

/// `SetPresetSlotNumber` sends `slot_number` as decimal digits, zero-padded to 3 digits when it fits in 3.
pub proof fn lemma_set_preset_slot_number_argument(s: SetPresetSlotNumber)
    ensures
        all_digits(s.spec_args()),
        digits_value(s.spec_args()) == s.slot_number,
        (s.slot_number as nat) < pow10(3) ==> s.spec_args().len() == 3,
        s.spec_args().len() >= 3,
{
    lemma_padded_decimal_value(s.slot_number as nat, 3);
    if (s.slot_number as nat) < pow10(3) {
        lemma_num_digits_le(s.slot_number as nat, 3);
    }
}

/// `ATTN`
pub open spec fn get_attenuator_state_id() -> Seq<u8> {
    seq![0x41, 0x54, 0x54, 0x4E]
}

fn get_attenuator_state_id_bytes() -> (r: &'static [u8])
    ensures
        r@ == get_attenuator_state_id(),
{
    &[0x41, 0x54, 0x54, 0x4E]
}

/// Get whether the built-in attenuator is enabled (`ATTN`).
#[derive(Clone, Copy, Debug, PartialEq, Eq)]
pub struct GetAttenuatorState;

impl GetAttenuatorState {
    pub fn to_bytes(&self) -> (r: Vec<u8>)
        ensures
            r@ == frame(get_attenuator_state_id(), seq![]),
    {
        let none: [u8; 0] = [];
        frame_command(get_attenuator_state_id_bytes(), &none)
    }

    pub open spec fn spec_parse_response(bytes: Seq<u8>) -> Result<bool, Failure> {
        match spec_validate_response(bytes, get_attenuator_state_id(), 1) {
            Ok(v) => spec_bool_1_0(v[0]),
            Err(f) => Err(f),
        }
    }

    pub fn parse(&self, bytes: &[u8]) -> (r: Result<bool, RigError>)
        ensures
            agrees(r, Self::spec_parse_response(bytes@)),
    {
        match validate_response(bytes, get_attenuator_state_id_bytes(), 1) {
            Ok(d) => bool_from_ascii_1_0(d[0]),
            Err(e) => Err(e),
        }
    }
}

/// A `GetAttenuatorState` reply whose value byte is `1` reads as `true`, `0` as `false`; any other byte is a
/// `ParseBoolean` error.
pub proof fn lemma_get_attenuator_state_reply(v: Seq<u8>)
    requires
        v.len() == 1,
    ensures
        v[0] == 0x31 ==> GetAttenuatorState::spec_parse_response(frame(get_attenuator_state_id(), v)) == Ok::<bool, Failure>(true),
        v[0] == 0x30 ==> GetAttenuatorState::spec_parse_response(frame(get_attenuator_state_id(), v)) == Ok::<bool, Failure>(false),
        v[0] != 0x30 && v[0] != 0x31 ==> GetAttenuatorState::spec_parse_response(frame(get_attenuator_state_id(), v)) == Err::<bool, Failure>(Failure::Boolean(v[0])),
{
    lemma_framed_value_reads_back(get_attenuator_state_id(), v);
}

/// `ATTN`
pub open spec fn set_attenuator_state_id() -> Seq<u8> {
    seq![0x41, 0x54, 0x54, 0x4E]
}

fn set_attenuator_state_id_bytes() -> (r: &'static [u8])
    ensures
        r@ == set_attenuator_state_id(),
{
    &[0x41, 0x54, 0x54, 0x4E]
}

/// Set whether the built-in attenuator is enabled (`ATTN`).
#[derive(Clone, Copy, Debug, PartialEq, Eq)]
pub struct SetAttenuatorState {
    pub state: bool,
}

impl SetAttenuatorState {
    pub open spec fn spec_args(self) -> Seq<u8> {
        seq![if self.state { ASCII_DIGIT_ONE } else { ASCII_DIGIT_ZERO }]
    }

    pub fn to_bytes(&self) -> (r: Vec<u8>)
        ensures
            r@ == frame(set_attenuator_state_id(), self.spec_args()),
    {
        let args: [u8; 1] = [if self.state { ASCII_DIGIT_ONE } else { ASCII_DIGIT_ZERO }];
        assert(args@ =~= self.spec_args());
        frame_command(set_attenuator_state_id_bytes(), &args)
    }
}

/// `SetAttenuatorState` sends `1` when `state` is set and `0` when it is clear.
pub proof fn lemma_set_attenuator_state_argument(s: SetAttenuatorState)
    ensures
        s.state ==> s.spec_args() == seq![0x31u8],
        !s.state ==> s.spec_args() == seq![0x30u8],
{
}

/// `BN`
pub open spec fn get_band_id() -> Seq<u8> {
    seq![0x42, 0x4E]
}

fn get_band_id_bytes() -> (r: &'static [u8])
    ensures
        r@ == get_band_id(),
{
    &[0x42, 0x4E]
}

/// Get the current band number (`BN`).
#[derive(Clone, Copy, Debug, PartialEq, Eq)]
pub struct GetBand;

impl GetBand {
    pub fn to_bytes(&self) -> (r: Vec<u8>)
        ensures
            r@ == frame(get_band_id(), seq![]),
    {
        let none: [u8; 0] = [];
        frame_command(get_band_id_bytes(), &none)
    }

    pub open spec fn spec_parse_response(bytes: Seq<u8>) -> Result<u8, Failure> {
        match spec_validate_response(bytes, get_band_id(), 2) {
            Ok(v) => spec_u8_field(v),
            Err(f) => Err(f),
        }
    }

    pub fn parse(&self, bytes: &[u8]) -> (r: Result<u8, RigError>)
        ensures
            agrees(r, Self::spec_parse_response(bytes@)),
    {
        match validate_response(bytes, get_band_id_bytes(), 2) {
            Ok(d) => {
                proof {
                    lemma_leading_value_bound(d@);
                    lemma_pow10_values();
                }
                u8_from_ascii(d)
            },
            Err(e) => Err(e),
        }
    }
}

/// A `GetBand` reply of 2 value bytes reads as the decimal number they spell; a value with a
/// byte that is not a digit is an `InvalidResponseData` error holding the value.
pub proof fn lemma_get_band_reply(v: Seq<u8>)
    requires
        v.len() == 2,
    ensures
        all_digits(v) && digits_value(v) <= 255 ==> GetBand::spec_parse_response(frame(get_band_id(), v)) == Ok::<u8, Failure>(digits_value(v) as u8),
        !all_digits(v) ==> GetBand::spec_parse_response(frame(get_band_id(), v)) == Err::<u8, Failure>(Failure::ResponseData(v)),
{
    lemma_framed_value_reads_back(get_band_id(), v);
}

/// `BN`
pub open spec fn set_band_id() -> Seq<u8> {
    seq![0x42, 0x4E]
}

fn set_band_id_bytes() -> (r: &'static [u8])
    ensures
        r@ == set_band_id(),
{
    &[0x42, 0x4E]
}

/// Set the current band number (`BN`).
#[derive(Clone, Copy, Debug, PartialEq, Eq)]
pub struct SetBand {
    pub band: u8,
}

impl SetBand {
    /// The values the command accepts.
    pub open spec fn spec_in_range(self) -> bool {
        self.band <= 13
    }

    /// The argument bytes.
    pub open spec fn spec_args(self) -> Seq<u8> {
        uint_args(self.band as u32, 2)
    }

    /// The command, or `InvalidArgumentValue` for a value out of range.
    pub fn to_bytes(&self) -> (r: Result<Vec<u8>, RigError>)
        ensures
            self.spec_in_range() ==> (r matches Ok(b) && b@ == frame(set_band_id(), self.spec_args())),
            !self.spec_in_range() ==> (r matches Err(e) && e.fails_with(
                Failure::ArgumentValue("band"@, "u8"@, decimal_string(self.band as int)),
            )),
    {
        encode_uint_in_range(set_band_id_bytes(), "band", "u8", self.band as u32, 0, 13, 2)
    }
}

/// `SetBand` accepts `band` when `s.band <= 13` and sends it as decimal digits, zero-padded to 2.
pub proof fn lemma_set_band_argument(s: SetBand)
    ensures
        s.spec_in_range() == (s.band <= 13),
        all_digits(s.spec_args()),
        digits_value(s.spec_args()) == s.band,
        (s.band as nat) < pow10(2) ==> s.spec_args().len() == 2,
{
    lemma_padded_decimal_value(s.band as nat, 2);
    if (s.band as nat) < pow10(2) {
        lemma_num_digits_le(s.band as nat, 2);
    }
}

/// `#BR`
pub open spec fn get_baud_rate_id() -> Seq<u8> {
    seq![0x23, 0x42, 0x52]
}

fn get_baud_rate_id_bytes() -> (r: &'static [u8])
    ensures
        r@ == get_baud_rate_id(),
{
    &[0x23, 0x42, 0x52]
}

/// Get the serial port baud rate (`#BR`).
#[derive(Clone, Copy, Debug, PartialEq, Eq)]
pub struct GetBaudRate;

impl GetBaudRate {
    pub fn to_bytes(&self) -> (r: Vec<u8>)
        ensures
            r@ == frame(get_baud_rate_id(), seq![]),
    {
        let none: [u8; 0] = [];
        frame_command(get_baud_rate_id_bytes(), &none)
    }

    /// What `parse` gives for a response: the value of its one byte, or `InvalidResponseData`
    /// holding the value.
    pub open spec fn spec_parse_response(bytes: Seq<u8>) -> Result<BaudRate, Failure> {
        match spec_validate_response(bytes, get_baud_rate_id(), 1) {
            Ok(v) => match BaudRate::spec_from_byte(v[0]) {
                Some(x) => Ok(x),
                None => Err(Failure::ResponseData(v)),
            },
            Err(f) => Err(f),
        }
    }

    pub fn parse(&self, bytes: &[u8]) -> (r: Result<BaudRate, RigError>)
        ensures
            agrees(r, Self::spec_parse_response(bytes@)),
    {
        match validate_response(bytes, get_baud_rate_id_bytes(), 1) {
            Ok(d) => match BaudRate::from_repr(d[0]) {
                Some(x) => Ok(x),
                None => Err(invalid_response_data(d)),
            },
            Err(e) => Err(e),
        }
    }
}

/// A `GetBaudRate` reply reads as the `BaudRate` whose wire byte is its value byte; a byte that names no
/// variant is an `InvalidResponseData` error holding the value.
pub proof fn lemma_get_baud_rate_reply(v: Seq<u8>)
    requires
        v.len() == 1,
    ensures
        GetBaudRate::spec_parse_response(frame(get_baud_rate_id(), v)) matches Ok(m) ==> m.spec_byte() == v[0],
        BaudRate::spec_from_byte(v[0]) is Some ==> GetBaudRate::spec_parse_response(frame(get_baud_rate_id(), v)) is Ok,
        BaudRate::spec_from_byte(v[0]) is None ==> GetBaudRate::spec_parse_response(frame(get_baud_rate_id(), v)) == Err::<BaudRate, Failure>(Failure::ResponseData(v)),
{
    lemma_framed_value_reads_back(get_baud_rate_id(), v);
}

/// `#BR`
pub open spec fn set_baud_rate_id() -> Seq<u8> {
    seq![0x23, 0x42, 0x52]
}

fn set_baud_rate_id_bytes() -> (r: &'static [u8])
    ensures
        r@ == set_baud_rate_id(),
{
    &[0x23, 0x42, 0x52]
}

/// Set the serial port baud rate (`#BR`).
#[derive(Clone, Copy, Debug, PartialEq, Eq)]
pub struct SetBaudRate {
    pub baud_rate: BaudRate,
}

impl SetBaudRate {
    pub fn to_4800() -> (r: SetBaudRate)
        ensures
            r.baud_rate == BaudRate::Rate4800,
    {
        SetBaudRate { baud_rate: BaudRate::Rate4800 }
    }

    pub fn to_9600() -> (r: SetBaudRate)
        ensures
            r.baud_rate == BaudRate::Rate9600,
    {
        SetBaudRate { baud_rate: BaudRate::Rate9600 }
    }

    pub fn to_19200() -> (r: SetBaudRate)
        ensures
            r.baud_rate == BaudRate::Rate19200,
    {
        SetBaudRate { baud_rate: BaudRate::Rate19200 }
    }

    pub fn to_38400() -> (r: SetBaudRate)
        ensures
            r.baud_rate == BaudRate::Rate38400,
    {
        SetBaudRate { baud_rate: BaudRate::Rate38400 }
    }

    pub open spec fn spec_args(self) -> Seq<u8> {
        seq![self.baud_rate.spec_byte()]
    }

    pub fn to_bytes(&self) -> (r: Vec<u8>)
        ensures
            r@ == frame(set_baud_rate_id(), self.spec_args()),
    {
        let args: [u8; 1] = [self.baud_rate.as_byte()];
        assert(args@ =~= self.spec_args());
        frame_command(set_baud_rate_id_bytes(), &args)
    }
}

/// `SetBaudRate` sends exactly one byte, the wire byte of `baud_rate`.
pub proof fn lemma_set_baud_rate_argument(s: SetBaudRate)
    ensures
        s.spec_args().len() == 1,
        s.spec_args()[0] == s.baud_rate.spec_byte(),
{
}

/// `BYP`
pub open spec fn force_bypass_mode_id() -> Seq<u8> {
    seq![0x42, 0x59, 0x50]
}

fn force_bypass_mode_id_bytes() -> (r: &'static [u8])
    ensures
        r@ == force_bypass_mode_id(),
{
    &[0x42, 0x59, 0x50]
}

/// Force the ATU into bypass mode immediately (`BYP`).
#[derive(Clone, Copy, Debug, PartialEq, Eq)]
pub struct ForceBypassMode;

impl ForceBypassMode {
    pub fn to_bytes(&self) -> (r: Vec<u8>)
        ensures
            r@ == frame(force_bypass_mode_id(), seq![]),
    {
        let none: [u8; 0] = [];
        frame_command(force_bypass_mode_id_bytes(), &none)
    }
}

/// `C`
pub open spec fn get_capacitor_value_id() -> Seq<u8> {
    seq![0x43]
}

fn get_capacitor_value_id_bytes() -> (r: &'static [u8])
    ensures
        r@ == get_capacitor_value_id(),
{
    &[0x43]
}

/// Get the tuning capacitor value (`C`).
#[derive(Clone, Copy, Debug, PartialEq, Eq)]
pub struct GetCapacitorValue;

impl GetCapacitorValue {
    pub fn to_bytes(&self) -> (r: Vec<u8>)
        ensures
            r@ == frame(get_capacitor_value_id(), seq![]),
    {
        let none: [u8; 0] = [];
        frame_command(get_capacitor_value_id_bytes(), &none)
    }

    pub open spec fn spec_parse_response(bytes: Seq<u8>) -> Result<u8, Failure> {
        match spec_validate_response(bytes, get_capacitor_value_id(), 3) {
            Ok(v) => spec_u8_field(v),
            Err(f) => Err(f),
        }
    }

    /// Reads the digits of a framed reply; a value above 255 is outside the domain.
    pub fn parse(&self, bytes: &[u8]) -> (r: Result<u8, RigError>)
        requires
            spec_validate_response(bytes@, get_capacitor_value_id(), 3) matches Ok(v) ==> leading_value(v) <= u8::MAX,
        ensures
            agrees(r, Self::spec_parse_response(bytes@)),
    {
        match validate_response(bytes, get_capacitor_value_id_bytes(), 3) {
            Ok(d) => {
                proof {
                    lemma_leading_value_bound(d@);
                    lemma_pow10_values();
                }
                u8_from_ascii(d)
            },
            Err(e) => Err(e),
        }
    }
}

/// A `GetCapacitorValue` reply of 3 value bytes reads as the decimal number they spell; a value with a
/// byte that is not a digit is an `InvalidResponseData` error holding the value.
pub proof fn lemma_get_capacitor_value_reply(v: Seq<u8>)
    requires
        v.len() == 3,
    ensures
        all_digits(v) && digits_value(v) <= 255 ==> GetCapacitorValue::spec_parse_response(frame(get_capacitor_value_id(), v)) == Ok::<u8, Failure>(digits_value(v) as u8),
        !all_digits(v) ==> GetCapacitorValue::spec_parse_response(frame(get_capacitor_value_id(), v)) == Err::<u8, Failure>(Failure::ResponseData(v)),
{
    lemma_framed_value_reads_back(get_capacitor_value_id(), v);
}

/// `C`
pub open spec fn set_capacitor_value_id() -> Seq<u8> {
    seq![0x43]
}

fn set_capacitor_value_id_bytes() -> (r: &'static [u8])
    ensures
        r@ == set_capacitor_value_id(),
{
    &[0x43]
}

/// Set the tuning capacitor value (`C`).
#[derive(Clone, Copy, Debug, PartialEq, Eq)]
pub struct SetCapacitorValue {
    pub value: u8,
}

impl SetCapacitorValue {
    pub open spec fn spec_args(self) -> Seq<u8> {
        padded_decimal(self.value as nat, 3)
    }

    pub fn to_bytes(&self) -> (r: Vec<u8>)
        ensures
            r@ == frame(set_capacitor_value_id(), self.spec_args()),
    {
        let args = format_uint_ascii(self.value as u64, 3);
        frame_command(set_capacitor_value_id_bytes(), args.as_slice())
    }
}

/// `SetCapacitorValue` sends `value` as decimal digits, zero-padded to 3 digits when it fits in 3.
pub proof fn lemma_set_capacitor_value_argument(s: SetCapacitorValue)
    ensures
        all_digits(s.spec_args()),
        digits_value(s.spec_args()) == s.value,
        (s.value as nat) < pow10(3) ==> s.spec_args().len() == 3,
        s.spec_args().len() >= 3,
{
    lemma_padded_decimal_value(s.value as nat, 3);
    if (s.value as nat) < pow10(3) {
        lemma_num_digits_le(s.value as nat, 3);
    }
}

/// `CT`
pub open spec fn get_capacitor_topology_id() -> Seq<u8> {
    seq![0x43, 0x54]
}

fn get_capacitor_topology_id_bytes() -> (r: &'static [u8])
    ensures
        r@ == get_capacitor_topology_id(),
{
    &[0x43, 0x54]
}

/// Get the tuning capacitor topology (hi-Z or lo-Z) (`CT`).
#[derive(Clone, Copy, Debug, PartialEq, Eq)]
pub struct GetCapacitorTopology;

impl GetCapacitorTopology {
    pub fn to_bytes(&self) -> (r: Vec<u8>)
        ensures
            r@ == frame(get_capacitor_topology_id(), seq![]),
    {
        let none: [u8; 0] = [];
        frame_command(get_capacitor_topology_id_bytes(), &none)
    }

    /// What `parse` gives for a response: the value of its one byte, or `InvalidResponseData`
    /// holding the value.
    pub open spec fn spec_parse_response(bytes: Seq<u8>) -> Result<CapacitorTopology, Failure> {
        match spec_validate_response(bytes, get_capacitor_topology_id(), 1) {
            Ok(v) => match CapacitorTopology::spec_from_byte(v[0]) {
                Some(x) => Ok(x),
                None => Err(Failure::ResponseData(v)),
            },
            Err(f) => Err(f),
        }
    }

    pub fn parse(&self, bytes: &[u8]) -> (r: Result<CapacitorTopology, RigError>)
        ensures
            agrees(r, Self::spec_parse_response(bytes@)),
    {
        match validate_response(bytes, get_capacitor_topology_id_bytes(), 1) {
            Ok(d) => match CapacitorTopology::from_repr(d[0]) {
                Some(x) => Ok(x),
                None => Err(invalid_response_data(d)),
            },
            Err(e) => Err(e),
        }
    }
}

/// A `GetCapacitorTopology` reply reads as the `CapacitorTopology` whose wire byte is its value byte; a byte that names no
/// variant is an `InvalidResponseData` error holding the value.
pub proof fn lemma_get_capacitor_topology_reply(v: Seq<u8>)
    requires
        v.len() == 1,
    ensures
        GetCapacitorTopology::spec_parse_response(frame(get_capacitor_topology_id(), v)) matches Ok(m) ==> m.spec_byte() == v[0],
        CapacitorTopology::spec_from_byte(v[0]) is Some ==> GetCapacitorTopology::spec_parse_response(frame(get_capacitor_topology_id(), v)) is Ok,
        CapacitorTopology::spec_from_byte(v[0]) is None ==> GetCapacitorTopology::spec_parse_response(frame(get_capacitor_topology_id(), v)) == Err::<CapacitorTopology, Failure>(Failure::ResponseData(v)),
{
    lemma_framed_value_reads_back(get_capacitor_topology_id(), v);
}

/// `CT`
pub open spec fn set_capacitor_topology_id() -> Seq<u8> {
    seq![0x43, 0x54]
}

fn set_capacitor_topology_id_bytes() -> (r: &'static [u8])
    ensures
        r@ == set_capacitor_topology_id(),
{
    &[0x43, 0x54]
}

/// Set the tuning capacitor topology (hi-Z or lo-Z). (`CT`).
#[derive(Clone, Copy, Debug, PartialEq, Eq)]
pub struct SetCapacitorTopology {
    pub topology: CapacitorTopology,
}

impl SetCapacitorTopology {
    pub fn to_low_z() -> (r: SetCapacitorTopology)
        ensures
            r.topology == CapacitorTopology::LowZ,
    {
        SetCapacitorTopology { topology: CapacitorTopology::LowZ }
    }

    pub fn to_high_z() -> (r: SetCapacitorTopology)
        ensures
            r.topology == CapacitorTopology::HighZ,
    {
        SetCapacitorTopology { topology: CapacitorTopology::HighZ }
    }

    pub open spec fn spec_args(self) -> Seq<u8> {
        seq![self.topology.spec_byte()]
    }

    pub fn to_bytes(&self) -> (r: Vec<u8>)
        ensures
            r@ == frame(set_capacitor_topology_id(), self.spec_args()),
    {
        let args: [u8; 1] = [self.topology.as_byte()];
        assert(args@ =~= self.spec_args());
        frame_command(set_capacitor_topology_id_bytes(), &args)
    }
}

/// `SetCapacitorTopology` sends exactly one byte, the wire byte of `topology`.
pub proof fn lemma_set_capacitor_topology_argument(s: SetCapacitorTopology)
    ensures
        s.spec_args().len() == 1,
        s.spec_args()[0] == s.topology.spec_byte(),
{
}

/// `DM`
pub open spec fn get_demo_mode_state_id() -> Seq<u8> {
    seq![0x44, 0x4D]
}

fn get_demo_mode_state_id_bytes() -> (r: &'static [u8])
    ensures
        r@ == get_demo_mode_state_id(),
{
    &[0x44, 0x4D]
}

/// Get the demo-mode state (`DM`).
#[derive(Clone, Copy, Debug, PartialEq, Eq)]
pub struct GetDemoModeState;

impl GetDemoModeState {
    pub fn to_bytes(&self) -> (r: Vec<u8>)
        ensures
            r@ == frame(get_demo_mode_state_id(), seq![]),
    {
        let none: [u8; 0] = [];
        frame_command(get_demo_mode_state_id_bytes(), &none)
    }

    pub open spec fn spec_parse_response(bytes: Seq<u8>) -> Result<bool, Failure> {
        match spec_validate_response(bytes, get_demo_mode_state_id(), 1) {
            Ok(v) => spec_bool_1_0(v[0]),
            Err(f) => Err(f),
        }
    }

    pub fn parse(&self, bytes: &[u8]) -> (r: Result<bool, RigError>)
        ensures
            agrees(r, Self::spec_parse_response(bytes@)),
    {
        match validate_response(bytes, get_demo_mode_state_id_bytes(), 1) {
            Ok(d) => bool_from_ascii_1_0(d[0]),
            Err(e) => Err(e),
        }
    }
}

/// A `GetDemoModeState` reply whose value byte is `1` reads as `true`, `0` as `false`; any other byte is a
/// `ParseBoolean` error.
pub proof fn lemma_get_demo_mode_state_reply(v: Seq<u8>)
    requires
        v.len() == 1,
    ensures
        v[0] == 0x31 ==> GetDemoModeState::spec_parse_response(frame(get_demo_mode_state_id(), v)) == Ok::<bool, Failure>(true),
        v[0] == 0x30 ==> GetDemoModeState::spec_parse_response(frame(get_demo_mode_state_id(), v)) == Ok::<bool, Failure>(false),
        v[0] != 0x30 && v[0] != 0x31 ==> GetDemoModeState::spec_parse_response(frame(get_demo_mode_state_id(), v)) == Err::<bool, Failure>(Failure::Boolean(v[0])),
{
    lemma_framed_value_reads_back(get_demo_mode_state_id(), v);
}

/// `DM`
pub open spec fn set_demo_mode_state_id() -> Seq<u8> {
    seq![0x44, 0x4D]
}

fn set_demo_mode_state_id_bytes() -> (r: &'static [u8])
    ensures
        r@ == set_demo_mode_state_id(),
{
    &[0x44, 0x4D]
}

/// Set the demo-mode state (`DM`).
#[derive(Clone, Copy, Debug, PartialEq, Eq)]
pub struct SetDemoModeState {
    pub state: bool,
}

impl SetDemoModeState {
    pub open spec fn spec_args(self) -> Seq<u8> {
        seq![if self.state { ASCII_DIGIT_ONE } else { ASCII_DIGIT_ZERO }]
    }

    pub fn to_bytes(&self) -> (r: Vec<u8>)
        ensures
            r@ == frame(set_demo_mode_state_id(), self.spec_args()),
    {
        let args: [u8; 1] = [if self.state { ASCII_DIGIT_ONE } else { ASCII_DIGIT_ZERO }];
        assert(args@ =~= self.spec_args());
        frame_command(set_demo_mode_state_id_bytes(), &args)
    }
}

/// `SetDemoModeState` sends `1` when `state` is set and `0` when it is clear.
pub proof fn lemma_set_demo_mode_state_argument(s: SetDemoModeState)
    ensures
        s.state ==> s.spec_args() == seq![0x31u8],
        !s.state ==> s.spec_args() == seq![0x30u8],
{
}

/// `EEINIT`
pub open spec fn reset_to_factory_defaults_id() -> Seq<u8> {
    seq![0x45, 0x45, 0x49, 0x4E, 0x49, 0x54]
}

fn reset_to_factory_defaults_id_bytes() -> (r: &'static [u8])
    ensures
        r@ == reset_to_factory_defaults_id(),
{
    &[0x45, 0x45, 0x49, 0x4E, 0x49, 0x54]
}

/// Re-initialize EEPROM storage to factory defaults (`EEINIT`).
#[derive(Clone, Copy, Debug, PartialEq, Eq)]
pub struct ResetToFactoryDefaults;

impl ResetToFactoryDefaults {
    pub fn to_bytes(&self) -> (r: Vec<u8>)
        ensures
            r@ == frame(reset_to_factory_defaults_id(), seq![]),
    {
        let none: [u8; 0] = [];
        frame_command(reset_to_factory_defaults_id_bytes(), &none)
    }
}

/// `EM`
pub open spec fn get_error_message_id() -> Seq<u8> {
    seq![0x45, 0x4D]
}

fn get_error_message_id_bytes() -> (r: &'static [u8])
    ensures
        r@ == get_error_message_id(),
{
    &[0x45, 0x4D]
}

/// Get the last error message string (`EM`).
#[derive(Clone, Copy, Debug, PartialEq, Eq)]
pub struct GetErrorMessage;

impl GetErrorMessage {
    pub fn to_bytes(&self) -> (r: Vec<u8>)
        ensures
            r@ == frame(get_error_message_id(), seq![]),
    {
        let none: [u8; 0] = [];
        frame_command(get_error_message_id_bytes(), &none)
    }

    /// The value bytes of a framed reply.
    pub fn parse(&self, bytes: &[u8]) -> (r: Result<Vec<u8>, RigError>)
        ensures
            match spec_validate_response(bytes@, get_error_message_id(), 0) {
                Ok(v) => r matches Ok(d) && d@ == v,
                Err(f) => r matches Err(e) && e.fails_with(f),
            },
    {
        match validate_response(bytes, get_error_message_id_bytes(), 0) {
            Ok(d) => bytes_to_vec(d),
            Err(e) => Err(e),
        }
    }
}

/// `FA`
pub open spec fn get_meter_channel_a_forward_power_id() -> Seq<u8> {
    seq![0x46, 0x41]
}

fn get_meter_channel_a_forward_power_id_bytes() -> (r: &'static [u8])
    ensures
        r@ == get_meter_channel_a_forward_power_id(),
{
    &[0x46, 0x41]
}

/// Get the forward power reading on meter channel A (`FA`).
#[derive(Clone, Copy, Debug, PartialEq, Eq)]
pub struct GetMeterChannelAForwardPower;

impl GetMeterChannelAForwardPower {
    pub fn to_bytes(&self) -> (r: Vec<u8>)
        ensures
            r@ == frame(get_meter_channel_a_forward_power_id(), seq![]),
    {
        let none: [u8; 0] = [];
        frame_command(get_meter_channel_a_forward_power_id_bytes(), &none)
    }

    pub open spec fn spec_parse_response(bytes: Seq<u8>) -> Result<u16, Failure> {
        match spec_validate_response(bytes, get_meter_channel_a_forward_power_id(), 3) {
            Ok(v) => spec_u16_field(v),
            Err(f) => Err(f),
        }
    }

    pub fn parse(&self, bytes: &[u8]) -> (r: Result<u16, RigError>)
        ensures
            agrees(r, Self::spec_parse_response(bytes@)),
    {
        match validate_response(bytes, get_meter_channel_a_forward_power_id_bytes(), 3) {
            Ok(d) => {
                proof {
                    lemma_leading_value_bound(d@);
                    lemma_pow10_values();
                }
                u16_from_ascii(d)
            },
            Err(e) => Err(e),
        }
    }
}

/// A `GetMeterChannelAForwardPower` reply of 3 value bytes reads as the decimal number they spell; a value with a
/// byte that is not a digit is an `InvalidResponseData` error holding the value.
pub proof fn lemma_get_meter_channel_a_forward_power_reply(v: Seq<u8>)
    requires
        v.len() == 3,
    ensures
        all_digits(v) && digits_value(v) <= u16::MAX ==> GetMeterChannelAForwardPower::spec_parse_response(frame(get_meter_channel_a_forward_power_id(), v)) == Ok::<u16, Failure>(digits_value(v) as u16),
        !all_digits(v) ==> GetMeterChannelAForwardPower::spec_parse_response(frame(get_meter_channel_a_forward_power_id(), v)) == Err::<u16, Failure>(Failure::ResponseData(v)),
{
    lemma_framed_value_reads_back(get_meter_channel_a_forward_power_id(), v);
}

/// `FB`
pub open spec fn get_meter_channel_b_forward_power_id() -> Seq<u8> {
    seq![0x46, 0x42]
}

fn get_meter_channel_b_forward_power_id_bytes() -> (r: &'static [u8])
    ensures
        r@ == get_meter_channel_b_forward_power_id(),
{
    &[0x46, 0x42]
}

/// Get the forward power reading on meter channel B (`FB`).
#[derive(Clone, Copy, Debug, PartialEq, Eq)]
pub struct GetMeterChannelBForwardPower;

impl GetMeterChannelBForwardPower {
    pub fn to_bytes(&self) -> (r: Vec<u8>)
        ensures
            r@ == frame(get_meter_channel_b_forward_power_id(), seq![]),
    {
        let none: [u8; 0] = [];
        frame_command(get_meter_channel_b_forward_power_id_bytes(), &none)
    }

    pub open spec fn spec_parse_response(bytes: Seq<u8>) -> Result<u16, Failure> {
        match spec_validate_response(bytes, get_meter_channel_b_forward_power_id(), 3) {
            Ok(v) => spec_u16_field(v),
            Err(f) => Err(f),
        }
    }

    pub fn parse(&self, bytes: &[u8]) -> (r: Result<u16, RigError>)
        ensures
            agrees(r, Self::spec_parse_response(bytes@)),
    {
        match validate_response(bytes, get_meter_channel_b_forward_power_id_bytes(), 3) {
            Ok(d) => {
                proof {
                    lemma_leading_value_bound(d@);
                    lemma_pow10_values();
                }
                u16_from_ascii(d)
            },
            Err(e) => Err(e),
        }
    }
}

/// A `GetMeterChannelBForwardPower` reply of 3 value bytes reads as the decimal number they spell; a value with a
/// byte that is not a digit is an `InvalidResponseData` error holding the value.
pub proof fn lemma_get_meter_channel_b_forward_power_reply(v: Seq<u8>)
    requires
        v.len() == 3,
    ensures
        all_digits(v) && digits_value(v) <= u16::MAX ==> GetMeterChannelBForwardPower::spec_parse_response(frame(get_meter_channel_b_forward_power_id(), v)) == Ok::<u16, Failure>(digits_value(v) as u16),
        !all_digits(v) ==> GetMeterChannelBForwardPower::spec_parse_response(frame(get_meter_channel_b_forward_power_id(), v)) == Err::<u16, Failure>(Failure::ResponseData(v)),
{
    lemma_framed_value_reads_back(get_meter_channel_b_forward_power_id(), v);
}

/// `FC`
pub open spec fn get_fan_threshold_id() -> Seq<u8> {
    seq![0x46, 0x43]
}

fn get_fan_threshold_id_bytes() -> (r: &'static [u8])
    ensures
        r@ == get_fan_threshold_id(),
{
    &[0x46, 0x43]
}

/// Get the fan-on power threshold (`FC`).
#[derive(Clone, Copy, Debug, PartialEq, Eq)]
pub struct GetFanThreshold;

impl GetFanThreshold {
    pub fn to_bytes(&self) -> (r: Vec<u8>)
        ensures
            r@ == frame(get_fan_threshold_id(), seq![]),
    {
        let none: [u8; 0] = [];
        frame_command(get_fan_threshold_id_bytes(), &none)
    }

    pub open spec fn spec_parse_response(bytes: Seq<u8>) -> Result<u16, Failure> {
        match spec_validate_response(bytes, get_fan_threshold_id(), 3) {
            Ok(v) => spec_u16_field(v),
            Err(f) => Err(f),
        }
    }

    pub fn parse(&self, bytes: &[u8]) -> (r: Result<u16, RigError>)
        ensures
            agrees(r, Self::spec_parse_response(bytes@)),
    {
        match validate_response(bytes, get_fan_threshold_id_bytes(), 3) {
            Ok(d) => {
                proof {
                    lemma_leading_value_bound(d@);
                    lemma_pow10_values();
                }
                u16_from_ascii(d)
            },
            Err(e) => Err(e),
        }
    }
}

/// A `GetFanThreshold` reply of 3 value bytes reads as the decimal number they spell; a value with a
/// byte that is not a digit is an `InvalidResponseData` error holding the value.
pub proof fn lemma_get_fan_threshold_reply(v: Seq<u8>)
    requires
        v.len() == 3,
    ensures
        all_digits(v) && digits_value(v) <= u16::MAX ==> GetFanThreshold::spec_parse_response(frame(get_fan_threshold_id(), v)) == Ok::<u16, Failure>(digits_value(v) as u16),
        !all_digits(v) ==> GetFanThreshold::spec_parse_response(frame(get_fan_threshold_id(), v)) == Err::<u16, Failure>(Failure::ResponseData(v)),
{
    lemma_framed_value_reads_back(get_fan_threshold_id(), v);
}

/// `FC`
pub open spec fn set_fan_threshold_id() -> Seq<u8> {
    seq![0x46, 0x43]
}

fn set_fan_threshold_id_bytes() -> (r: &'static [u8])
    ensures
        r@ == set_fan_threshold_id(),
{
    &[0x46, 0x43]
}

/// Set the fan-on power threshold (`FC`).
#[derive(Clone, Copy, Debug, PartialEq, Eq)]
pub struct SetFanThreshold {
    pub threshold_w: u16,
}

impl SetFanThreshold {
    pub open spec fn spec_args(self) -> Seq<u8> {
        padded_decimal(self.threshold_w as nat, 3)
    }

    pub fn to_bytes(&self) -> (r: Vec<u8>)
        ensures
            r@ == frame(set_fan_threshold_id(), self.spec_args()),
    {
        let args = format_uint_ascii(self.threshold_w as u64, 3);
        frame_command(set_fan_threshold_id_bytes(), args.as_slice())
    }
}

/// `SetFanThreshold` sends `threshold_w` as decimal digits, zero-padded to 3 digits when it fits in 3.
pub proof fn lemma_set_fan_threshold_argument(s: SetFanThreshold)
    ensures
        all_digits(s.spec_args()),
        digits_value(s.spec_args()) == s.threshold_w,
        (s.threshold_w as nat) < pow10(3) ==> s.spec_args().len() == 3,
        s.spec_args().len() >= 3,
{
    lemma_padded_decimal_value(s.threshold_w as nat, 3);
    if (s.threshold_w as nat) < pow10(3) {
        lemma_num_digits_le(s.threshold_w as nat, 3);
    }
}

/// `FDT`
pub open spec fn get_fault_delay_time_id() -> Seq<u8> {
    seq![0x46, 0x44, 0x54]
}

fn get_fault_delay_time_id_bytes() -> (r: &'static [u8])
    ensures
        r@ == get_fault_delay_time_id(),
{
    &[0x46, 0x44, 0x54]
}

/// Get the fault delay time (`FDT`).
#[derive(Clone, Copy, Debug, PartialEq, Eq)]
pub struct GetFaultDelayTime;

impl GetFaultDelayTime {
    pub fn to_bytes(&self) -> (r: Vec<u8>)
        ensures
            r@ == frame(get_fault_delay_time_id(), seq![]),
    {
        let none: [u8; 0] = [];
        frame_command(get_fault_delay_time_id_bytes(), &none)
    }

    pub open spec fn spec_parse_response(bytes: Seq<u8>) -> Result<u16, Failure> {
        match spec_validate_response(bytes, get_fault_delay_time_id(), 3) {
            Ok(v) => spec_u16_field(v),
            Err(f) => Err(f),
        }
    }

    pub fn parse(&self, bytes: &[u8]) -> (r: Result<u16, RigError>)
        ensures
            agrees(r, Self::spec_parse_response(bytes@)),
    {
        match validate_response(bytes, get_fault_delay_time_id_bytes(), 3) {
            Ok(d) => {
                proof {
                    lemma_leading_value_bound(d@);
                    lemma_pow10_values();
                }
                u16_from_ascii(d)
            },
            Err(e) => Err(e),
        }
    }
}

/// A `GetFaultDelayTime` reply of 3 value bytes reads as the decimal number they spell; a value with a
/// byte that is not a digit is an `InvalidResponseData` error holding the value.
pub proof fn lemma_get_fault_delay_time_reply(v: Seq<u8>)
    requires
        v.len() == 3,
    ensures
        all_digits(v) && digits_value(v) <= u16::MAX ==> GetFaultDelayTime::spec_parse_response(frame(get_fault_delay_time_id(), v)) == Ok::<u16, Failure>(digits_value(v) as u16),
        !all_digits(v) ==> GetFaultDelayTime::spec_parse_response(frame(get_fault_delay_time_id(), v)) == Err::<u16, Failure>(Failure::ResponseData(v)),
{
    lemma_framed_value_reads_back(get_fault_delay_time_id(), v);
}

/// `FDT`
pub open spec fn set_fault_delay_time_id() -> Seq<u8> {
    seq![0x46, 0x44, 0x54]
}

fn set_fault_delay_time_id_bytes() -> (r: &'static [u8])
    ensures
        r@ == set_fault_delay_time_id(),
{
    &[0x46, 0x44, 0x54]
}

/// Set the fault delay time (`FDT`).
#[derive(Clone, Copy, Debug, PartialEq, Eq)]
pub struct SetFaultDelayTime {
    pub delay_ms: u16,
}

impl SetFaultDelayTime {
    pub open spec fn spec_args(self) -> Seq<u8> {
        padded_decimal(self.delay_ms as nat, 3)
    }

    pub fn to_bytes(&self) -> (r: Vec<u8>)
        ensures
            r@ == frame(set_fault_delay_time_id(), self.spec_args()),
    {
        let args = format_uint_ascii(self.delay_ms as u64, 3);
        frame_command(set_fault_delay_time_id_bytes(), args.as_slice())
    }
}

/// `SetFaultDelayTime` sends `delay_ms` as decimal digits, zero-padded to 3 digits when it fits in 3.
pub proof fn lemma_set_fault_delay_time_argument(s: SetFaultDelayTime)
    ensures
        all_digits(s.spec_args()),
        digits_value(s.spec_args()) == s.delay_ms,
        (s.delay_ms as nat) < pow10(3) ==> s.spec_args().len() == 3,
        s.spec_args().len() >= 3,
{
    lemma_padded_decimal_value(s.delay_ms as nat, 3);
    if (s.delay_ms as nat) < pow10(3) {
        lemma_num_digits_le(s.delay_ms as nat, 3);
    }
}

/// `FLT`
pub open spec fn get_fault_condition_code_id() -> Seq<u8> {
    seq![0x46, 0x4C, 0x54]
}

fn get_fault_condition_code_id_bytes() -> (r: &'static [u8])
    ensures
        r@ == get_fault_condition_code_id(),
{
    &[0x46, 0x4C, 0x54]
}

/// Get the current fault condition/status code (`FLT`).
#[derive(Clone, Copy, Debug, PartialEq, Eq)]
pub struct GetFaultConditionCode;

impl GetFaultConditionCode {
    pub fn to_bytes(&self) -> (r: Vec<u8>)
        ensures
            r@ == frame(get_fault_condition_code_id(), seq![]),
    {
        let none: [u8; 0] = [];
        frame_command(get_fault_condition_code_id_bytes(), &none)
    }

    pub open spec fn spec_parse_response(bytes: Seq<u8>) -> Result<u8, Failure> {
        match spec_validate_response(bytes, get_fault_condition_code_id(), 2) {
            Ok(v) => spec_u8_field(v),
            Err(f) => Err(f),
        }
    }

    pub fn parse(&self, bytes: &[u8]) -> (r: Result<u8, RigError>)
        ensures
            agrees(r, Self::spec_parse_response(bytes@)),
    {
        match validate_response(bytes, get_fault_condition_code_id_bytes(), 2) {
            Ok(d) => {
                proof {
                    lemma_leading_value_bound(d@);
                    lemma_pow10_values();
                }
                u8_from_ascii(d)
            },
            Err(e) => Err(e),
        }
    }
}

/// A `GetFaultConditionCode` reply of 2 value bytes reads as the decimal number they spell; a value with a
/// byte that is not a digit is an `InvalidResponseData` error holding the value.
pub proof fn lemma_get_fault_condition_code_reply(v: Seq<u8>)
    requires
        v.len() == 2,
    ensures
        all_digits(v) && digits_value(v) <= 255 ==> GetFaultConditionCode::spec_parse_response(frame(get_fault_condition_code_id(), v)) == Ok::<u8, Failure>(digits_value(v) as u8),
        !all_digits(v) ==> GetFaultConditionCode::spec_parse_response(frame(get_fault_condition_code_id(), v)) == Err::<u8, Failure>(Failure::ResponseData(v)),
{
    lemma_framed_value_reads_back(get_fault_condition_code_id(), v);
}

/// `FLTC`
pub open spec fn clear_fault_condition_id() -> Seq<u8> {
    seq![0x46, 0x4C, 0x54, 0x43]
}

fn clear_fault_condition_id_bytes() -> (r: &'static [u8])
    ensures
        r@ == clear_fault_condition_id(),
{
    &[0x46, 0x4C, 0x54, 0x43]
}

/// Clear the current fault condition (`FLTC`).
#[derive(Clone, Copy, Debug, PartialEq, Eq)]
pub struct ClearFaultCondition;

impl ClearFaultCondition {
    pub fn to_bytes(&self) -> (r: Vec<u8>)
        ensures
            r@ == frame(clear_fault_condition_id(), seq![]),
    {
        let none: [u8; 0] = [];
        frame_command(clear_fault_condition_id_bytes(), &none)
    }
}

/// `FTNS`
pub open spec fn get_tune_satisfied_swr_threshold_id() -> Seq<u8> {
    seq![0x46, 0x54, 0x4E, 0x53]
}

fn get_tune_satisfied_swr_threshold_id_bytes() -> (r: &'static [u8])
    ensures
        r@ == get_tune_satisfied_swr_threshold_id(),
{
    &[0x46, 0x54, 0x4E, 0x53]
}

/// Get the SWR threshold below which a tune cycle is considered successful (`FTNS`).
#[derive(Clone, Copy, Debug, PartialEq, Eq)]
pub struct GetTuneSatisfiedSwrThreshold;

impl GetTuneSatisfiedSwrThreshold {
    pub fn to_bytes(&self) -> (r: Vec<u8>)
        ensures
            r@ == frame(get_tune_satisfied_swr_threshold_id(), seq![]),
    {
        let none: [u8; 0] = [];
        frame_command(get_tune_satisfied_swr_threshold_id_bytes(), &none)
    }

    pub open spec fn spec_parse_response(bytes: Seq<u8>) -> Result<u16, Failure> {
        match spec_validate_response(bytes, get_tune_satisfied_swr_threshold_id(), 3) {
            Ok(v) => spec_u16_field(v),
            Err(f) => Err(f),
        }
    }

    pub fn parse(&self, bytes: &[u8]) -> (r: Result<u16, RigError>)
        ensures
            agrees(r, Self::spec_parse_response(bytes@)),
    {
        match validate_response(bytes, get_tune_satisfied_swr_threshold_id_bytes(), 3) {
            Ok(d) => {
                proof {
                    lemma_leading_value_bound(d@);
                    lemma_pow10_values();
                }
                u16_from_ascii(d)
            },
            Err(e) => Err(e),
        }
    }
}

/// A `GetTuneSatisfiedSwrThreshold` reply of 3 value bytes reads as the decimal number they spell; a value with a
/// byte that is not a digit is an `InvalidResponseData` error holding the value.
pub proof fn lemma_get_tune_satisfied_swr_threshold_reply(v: Seq<u8>)
    requires
        v.len() == 3,
    ensures
        all_digits(v) && digits_value(v) <= u16::MAX ==> GetTuneSatisfiedSwrThreshold::spec_parse_response(frame(get_tune_satisfied_swr_threshold_id(), v)) == Ok::<u16, Failure>(digits_value(v) as u16),
        !all_digits(v) ==> GetTuneSatisfiedSwrThreshold::spec_parse_response(frame(get_tune_satisfied_swr_threshold_id(), v)) == Err::<u16, Failure>(Failure::ResponseData(v)),
{
    lemma_framed_value_reads_back(get_tune_satisfied_swr_threshold_id(), v);
}

/// `FTNS`
pub open spec fn set_tune_satisfied_swr_threshold_id() -> Seq<u8> {
    seq![0x46, 0x54, 0x4E, 0x53]
}

fn set_tune_satisfied_swr_threshold_id_bytes() -> (r: &'static [u8])
    ensures
        r@ == set_tune_satisfied_swr_threshold_id(),
{
    &[0x46, 0x54, 0x4E, 0x53]
}

/// Set the SWR threshold below which a tune cycle is considered successful (`FTNS`).
#[derive(Clone, Copy, Debug, PartialEq, Eq)]
pub struct SetTuneSatisfiedSwrThreshold {
    pub swr: u16,
}

impl SetTuneSatisfiedSwrThreshold {
    pub open spec fn spec_args(self) -> Seq<u8> {
        padded_decimal(self.swr as nat, 3)
    }

    pub fn to_bytes(&self) -> (r: Vec<u8>)
        ensures
            r@ == frame(set_tune_satisfied_swr_threshold_id(), self.spec_args()),
    {
        let args = format_uint_ascii(self.swr as u64, 3);
        frame_command(set_tune_satisfied_swr_threshold_id_bytes(), args.as_slice())
    }
}

/// `SetTuneSatisfiedSwrThreshold` sends `swr` as decimal digits, zero-padded to 3 digits when it fits in 3.
pub proof fn lemma_set_tune_satisfied_swr_threshold_argument(s: SetTuneSatisfiedSwrThreshold)
    ensures
        all_digits(s.spec_args()),
        digits_value(s.spec_args()) == s.swr,
        (s.swr as nat) < pow10(3) ==> s.spec_args().len() == 3,
        s.spec_args().len() >= 3,
{
    lemma_padded_decimal_value(s.swr as nat, 3);
    if (s.swr as nat) < pow10(3) {
        lemma_num_digits_le(s.swr as nat, 3);
    }
}

/// `FT0`
pub open spec fn get_fault_swr_threshold_low_id() -> Seq<u8> {
    seq![0x46, 0x54, 0x30]
}

fn get_fault_swr_threshold_low_id_bytes() -> (r: &'static [u8])
    ensures
        r@ == get_fault_swr_threshold_low_id(),
{
    &[0x46, 0x54, 0x30]
}

/// Get the lower fault SWR threshold (`FT0`).
#[derive(Clone, Copy, Debug, PartialEq, Eq)]
pub struct GetFaultSwrThresholdLow;

impl GetFaultSwrThresholdLow {
    pub fn to_bytes(&self) -> (r: Vec<u8>)
        ensures
            r@ == frame(get_fault_swr_threshold_low_id(), seq![]),
    {
        let none: [u8; 0] = [];
        frame_command(get_fault_swr_threshold_low_id_bytes(), &none)
    }

    pub open spec fn spec_parse_response(bytes: Seq<u8>) -> Result<u16, Failure> {
        match spec_validate_response(bytes, get_fault_swr_threshold_low_id(), 3) {
            Ok(v) => spec_u16_field(v),
            Err(f) => Err(f),
        }
    }

    pub fn parse(&self, bytes: &[u8]) -> (r: Result<u16, RigError>)
        ensures
            agrees(r, Self::spec_parse_response(bytes@)),
    {
        match validate_response(bytes, get_fault_swr_threshold_low_id_bytes(), 3) {
            Ok(d) => {
                proof {
                    lemma_leading_value_bound(d@);
                    lemma_pow10_values();
                }
                u16_from_ascii(d)
            },
            Err(e) => Err(e),
        }
    }
}

/// A `GetFaultSwrThresholdLow` reply of 3 value bytes reads as the decimal number they spell; a value with a
/// byte that is not a digit is an `InvalidResponseData` error holding the value.
pub proof fn lemma_get_fault_swr_threshold_low_reply(v: Seq<u8>)
    requires
        v.len() == 3,
    ensures
        all_digits(v) && digits_value(v) <= u16::MAX ==> GetFaultSwrThresholdLow::spec_parse_response(frame(get_fault_swr_threshold_low_id(), v)) == Ok::<u16, Failure>(digits_value(v) as u16),
        !all_digits(v) ==> GetFaultSwrThresholdLow::spec_parse_response(frame(get_fault_swr_threshold_low_id(), v)) == Err::<u16, Failure>(Failure::ResponseData(v)),
{
    lemma_framed_value_reads_back(get_fault_swr_threshold_low_id(), v);
}

/// `FT0`
pub open spec fn set_fault_swr_threshold_low_id() -> Seq<u8> {
    seq![0x46, 0x54, 0x30]
}

fn set_fault_swr_threshold_low_id_bytes() -> (r: &'static [u8])
    ensures
        r@ == set_fault_swr_threshold_low_id(),
{
    &[0x46, 0x54, 0x30]
}

/// Set the lower fault SWR threshold (`FT0`).
#[derive(Clone, Copy, Debug, PartialEq, Eq)]
pub struct SetFaultSwrThresholdLow {
    pub swr_d: u16,
}

impl SetFaultSwrThresholdLow {
    pub open spec fn spec_args(self) -> Seq<u8> {
        padded_decimal(self.swr_d as nat, 3)
    }

    pub fn to_bytes(&self) -> (r: Vec<u8>)
        ensures
            r@ == frame(set_fault_swr_threshold_low_id(), self.spec_args()),
    {
        let args = format_uint_ascii(self.swr_d as u64, 3);
        frame_command(set_fault_swr_threshold_low_id_bytes(), args.as_slice())
    }
}

/// `SetFaultSwrThresholdLow` sends `swr_d` as decimal digits, zero-padded to 3 digits when it fits in 3.
pub proof fn lemma_set_fault_swr_threshold_low_argument(s: SetFaultSwrThresholdLow)
    ensures
        all_digits(s.spec_args()),
        digits_value(s.spec_args()) == s.swr_d,
        (s.swr_d as nat) < pow10(3) ==> s.spec_args().len() == 3,
        s.spec_args().len() >= 3,
{
    lemma_padded_decimal_value(s.swr_d as nat, 3);
    if (s.swr_d as nat) < pow10(3) {
        lemma_num_digits_le(s.swr_d as nat, 3);
    }
}

/// `FT1`
pub open spec fn get_fault_swr_threshold_high_id() -> Seq<u8> {
    seq![0x46, 0x54, 0x31]
}

fn get_fault_swr_threshold_high_id_bytes() -> (r: &'static [u8])
    ensures
        r@ == get_fault_swr_threshold_high_id(),
{
    &[0x46, 0x54, 0x31]
}

/// Get the upper fault SWR threshold (`FT1`).
#[derive(Clone, Copy, Debug, PartialEq, Eq)]
pub struct GetFaultSwrThresholdHigh;

impl GetFaultSwrThresholdHigh {
    pub fn to_bytes(&self) -> (r: Vec<u8>)
        ensures
            r@ == frame(get_fault_swr_threshold_high_id(), seq![]),
    {
        let none: [u8; 0] = [];
        frame_command(get_fault_swr_threshold_high_id_bytes(), &none)
    }

    pub open spec fn spec_parse_response(bytes: Seq<u8>) -> Result<u16, Failure> {
        match spec_validate_response(bytes, get_fault_swr_threshold_high_id(), 3) {
            Ok(v) => spec_u16_field(v),
            Err(f) => Err(f),
        }
    }

    pub fn parse(&self, bytes: &[u8]) -> (r: Result<u16, RigError>)
        ensures
            agrees(r, Self::spec_parse_response(bytes@)),
    {
        match validate_response(bytes, get_fault_swr_threshold_high_id_bytes(), 3) {
            Ok(d) => {
                proof {
                    lemma_leading_value_bound(d@);
                    lemma_pow10_values();
                }
                u16_from_ascii(d)
            },
            Err(e) => Err(e),
        }
    }
}

/// A `GetFaultSwrThresholdHigh` reply of 3 value bytes reads as the decimal number they spell; a value with a
/// byte that is not a digit is an `InvalidResponseData` error holding the value.
pub proof fn lemma_get_fault_swr_threshold_high_reply(v: Seq<u8>)
    requires
        v.len() == 3,
    ensures
        all_digits(v) && digits_value(v) <= u16::MAX ==> GetFaultSwrThresholdHigh::spec_parse_response(frame(get_fault_swr_threshold_high_id(), v)) == Ok::<u16, Failure>(digits_value(v) as u16),
        !all_digits(v) ==> GetFaultSwrThresholdHigh::spec_parse_response(frame(get_fault_swr_threshold_high_id(), v)) == Err::<u16, Failure>(Failure::ResponseData(v)),
{
    lemma_framed_value_reads_back(get_fault_swr_threshold_high_id(), v);
}

/// `FT1`
pub open spec fn set_fault_swr_threshold_high_id() -> Seq<u8> {
    seq![0x46, 0x54, 0x31]
}

fn set_fault_swr_threshold_high_id_bytes() -> (r: &'static [u8])
    ensures
        r@ == set_fault_swr_threshold_high_id(),
{
    &[0x46, 0x54, 0x31]
}

/// Set the upper fault SWR threshold (`FT1`).
#[derive(Clone, Copy, Debug, PartialEq, Eq)]
pub struct SetFaultSwrThresholdHigh {
    pub swr_d: u16,
}

impl SetFaultSwrThresholdHigh {
    pub open spec fn spec_args(self) -> Seq<u8> {
        padded_decimal(self.swr_d as nat, 3)
    }

    pub fn to_bytes(&self) -> (r: Vec<u8>)
        ensures
            r@ == frame(set_fault_swr_threshold_high_id(), self.spec_args()),
    {
        let args = format_uint_ascii(self.swr_d as u64, 3);
        frame_command(set_fault_swr_threshold_high_id_bytes(), args.as_slice())
    }
}

/// `SetFaultSwrThresholdHigh` sends `swr_d` as decimal digits, zero-padded to 3 digits when it fits in 3.
pub proof fn lemma_set_fault_swr_threshold_high_argument(s: SetFaultSwrThresholdHigh)
    ensures
        all_digits(s.spec_args()),
        digits_value(s.spec_args()) == s.swr_d,
        (s.swr_d as nat) < pow10(3) ==> s.spec_args().len() == 3,
        s.spec_args().len() >= 3,
{
    lemma_padded_decimal_value(s.swr_d as nat, 3);
    if (s.swr_d as nat) < pow10(3) {
        lemma_num_digits_le(s.swr_d as nat, 3);
    }
}

/// `FX`
pub open spec fn get_fixed_lc_state_id() -> Seq<u8> {
    seq![0x46, 0x58]
}

fn get_fixed_lc_state_id_bytes() -> (r: &'static [u8])
    ensures
        r@ == get_fixed_lc_state_id(),
{
    &[0x46, 0x58]
}

/// Get whether fixed L/C mode is enabled (`FX`).
#[derive(Clone, Copy, Debug, PartialEq, Eq)]
pub struct GetFixedLcState;

impl GetFixedLcState {
    pub fn to_bytes(&self) -> (r: Vec<u8>)
        ensures
            r@ == frame(get_fixed_lc_state_id(), seq![]),
    {
        let none: [u8; 0] = [];
        frame_command(get_fixed_lc_state_id_bytes(), &none)
    }

    pub open spec fn spec_parse_response(bytes: Seq<u8>) -> Result<bool, Failure> {
        match spec_validate_response(bytes, get_fixed_lc_state_id(), 1) {
            Ok(v) => spec_bool_1_0(v[0]),
            Err(f) => Err(f),
        }
    }

    pub fn parse(&self, bytes: &[u8]) -> (r: Result<bool, RigError>)
        ensures
            agrees(r, Self::spec_parse_response(bytes@)),
    {
        match validate_response(bytes, get_fixed_lc_state_id_bytes(), 1) {
            Ok(d) => bool_from_ascii_1_0(d[0]),
            Err(e) => Err(e),
        }
    }
}

/// A `GetFixedLcState` reply whose value byte is `1` reads as `true`, `0` as `false`; any other byte is a
/// `ParseBoolean` error.
pub proof fn lemma_get_fixed_lc_state_reply(v: Seq<u8>)
    requires
        v.len() == 1,
    ensures
        v[0] == 0x31 ==> GetFixedLcState::spec_parse_response(frame(get_fixed_lc_state_id(), v)) == Ok::<bool, Failure>(true),
        v[0] == 0x30 ==> GetFixedLcState::spec_parse_response(frame(get_fixed_lc_state_id(), v)) == Ok::<bool, Failure>(false),
        v[0] != 0x30 && v[0] != 0x31 ==> GetFixedLcState::spec_parse_response(frame(get_fixed_lc_state_id(), v)) == Err::<bool, Failure>(Failure::Boolean(v[0])),
{
    lemma_framed_value_reads_back(get_fixed_lc_state_id(), v);
}

/// `FX`
pub open spec fn set_fixed_lc_state_id() -> Seq<u8> {
    seq![0x46, 0x58]
}

fn set_fixed_lc_state_id_bytes() -> (r: &'static [u8])
    ensures
        r@ == set_fixed_lc_state_id(),
{
    &[0x46, 0x58]
}

/// Set whether fixed L/C mode is enabled (`FX`).
#[derive(Clone, Copy, Debug, PartialEq, Eq)]
pub struct SetFixedLcState {
    pub state: bool,
}

impl SetFixedLcState {
    pub open spec fn spec_args(self) -> Seq<u8> {
        seq![if self.state { ASCII_DIGIT_ONE } else { ASCII_DIGIT_ZERO }]
    }

    pub fn to_bytes(&self) -> (r: Vec<u8>)
        ensures
            r@ == frame(set_fixed_lc_state_id(), self.spec_args()),
    {
        let args: [u8; 1] = [if self.state { ASCII_DIGIT_ONE } else { ASCII_DIGIT_ZERO }];
        assert(args@ =~= self.spec_args());
        frame_command(set_fixed_lc_state_id_bytes(), &args)
    }
}

/// `SetFixedLcState` sends `1` when `state` is set and `0` when it is clear.
pub proof fn lemma_set_fixed_lc_state_argument(s: SetFixedLcState)
    ensures
        s.state ==> s.spec_args() == seq![0x31u8],
        !s.state ==> s.spec_args() == seq![0x30u8],
{
}

/// `FY`
pub open spec fn get_fixed_bypass_state_id() -> Seq<u8> {
    seq![0x46, 0x59]
}

fn get_fixed_bypass_state_id_bytes() -> (r: &'static [u8])
    ensures
        r@ == get_fixed_bypass_state_id(),
{
    &[0x46, 0x59]
}

/// Get whether fixed bypass mode is active (`FY`).
#[derive(Clone, Copy, Debug, PartialEq, Eq)]
pub struct GetFixedBypassState;

impl GetFixedBypassState {
    pub fn to_bytes(&self) -> (r: Vec<u8>)
        ensures
            r@ == frame(get_fixed_bypass_state_id(), seq![]),
    {
        let none: [u8; 0] = [];
        frame_command(get_fixed_bypass_state_id_bytes(), &none)
    }

    pub open spec fn spec_parse_response(bytes: Seq<u8>) -> Result<bool, Failure> {
        match spec_validate_response(bytes, get_fixed_bypass_state_id(), 1) {
            Ok(v) => spec_bool_1_0(v[0]),
            Err(f) => Err(f),
        }
    }

    pub fn parse(&self, bytes: &[u8]) -> (r: Result<bool, RigError>)
        ensures
            agrees(r, Self::spec_parse_response(bytes@)),
    {
        match validate_response(bytes, get_fixed_bypass_state_id_bytes(), 1) {
            Ok(d) => bool_from_ascii_1_0(d[0]),
            Err(e) => Err(e),
        }
    }
}

/// A `GetFixedBypassState` reply whose value byte is `1` reads as `true`, `0` as `false`; any other byte is a
/// `ParseBoolean` error.
pub proof fn lemma_get_fixed_bypass_state_reply(v: Seq<u8>)
    requires
        v.len() == 1,
    ensures
        v[0] == 0x31 ==> GetFixedBypassState::spec_parse_response(frame(get_fixed_bypass_state_id(), v)) == Ok::<bool, Failure>(true),
        v[0] == 0x30 ==> GetFixedBypassState::spec_parse_response(frame(get_fixed_bypass_state_id(), v)) == Ok::<bool, Failure>(false),
        v[0] != 0x30 && v[0] != 0x31 ==> GetFixedBypassState::spec_parse_response(frame(get_fixed_bypass_state_id(), v)) == Err::<bool, Failure>(Failure::Boolean(v[0])),
{
    lemma_framed_value_reads_back(get_fixed_bypass_state_id(), v);
}

/// `FY`
pub open spec fn set_fixed_bypass_state_id() -> Seq<u8> {
    seq![0x46, 0x59]
}

fn set_fixed_bypass_state_id_bytes() -> (r: &'static [u8])
    ensures
        r@ == set_fixed_bypass_state_id(),
{
    &[0x46, 0x59]
}

/// Set whether fixed bypass mode is active (`FY`).
#[derive(Clone, Copy, Debug, PartialEq, Eq)]
pub struct SetFixedBypassState {
    pub state: bool,
}

impl SetFixedBypassState {
    pub open spec fn spec_args(self) -> Seq<u8> {
        seq![if self.state { ASCII_DIGIT_ONE } else { ASCII_DIGIT_ZERO }]
    }

    pub fn to_bytes(&self) -> (r: Vec<u8>)
        ensures
            r@ == frame(set_fixed_bypass_state_id(), self.spec_args()),
    {
        let args: [u8; 1] = [if self.state { ASCII_DIGIT_ONE } else { ASCII_DIGIT_ZERO }];
        assert(args@ =~= self.spec_args());
        frame_command(set_fixed_bypass_state_id_bytes(), &args)
    }
}

/// `SetFixedBypassState` sends `1` when `state` is set and `0` when it is clear.
pub proof fn lemma_set_fixed_bypass_state_argument(s: SetFixedBypassState)
    ensures
        s.state ==> s.spec_args() == seq![0x31u8],
        !s.state ==> s.spec_args() == seq![0x30u8],
{
}

/// `I`
pub open spec fn get_inductance_tap_id() -> Seq<u8> {
    seq![0x49]
}

fn get_inductance_tap_id_bytes() -> (r: &'static [u8])
    ensures
        r@ == get_inductance_tap_id(),
{
    &[0x49]
}

/// Get the tuning inductance tap (`I`).
#[derive(Clone, Copy, Debug, PartialEq, Eq)]
pub struct GetInductanceTap;

impl GetInductanceTap {
    pub fn to_bytes(&self) -> (r: Vec<u8>)
        ensures
            r@ == frame(get_inductance_tap_id(), seq![]),
    {
        let none: [u8; 0] = [];
        frame_command(get_inductance_tap_id_bytes(), &none)
    }

    pub open spec fn spec_parse_response(bytes: Seq<u8>) -> Result<u8, Failure> {
        match spec_validate_response(bytes, get_inductance_tap_id(), 3) {
            Ok(v) => spec_u8_field(v),
            Err(f) => Err(f),
        }
    }

    /// Reads the digits of a framed reply; a value above 255 is outside the domain.
    pub fn parse(&self, bytes: &[u8]) -> (r: Result<u8, RigError>)
        requires
            spec_validate_response(bytes@, get_inductance_tap_id(), 3) matches Ok(v) ==> leading_value(v) <= u8::MAX,
        ensures
            agrees(r, Self::spec_parse_response(bytes@)),
    {
        match validate_response(bytes, get_inductance_tap_id_bytes(), 3) {
            Ok(d) => {
                proof {
                    lemma_leading_value_bound(d@);
                    lemma_pow10_values();
                }
                u8_from_ascii(d)
            },
            Err(e) => Err(e),
        }
    }
}

/// A `GetInductanceTap` reply of 3 value bytes reads as the decimal number they spell; a value with a
/// byte that is not a digit is an `InvalidResponseData` error holding the value.
pub proof fn lemma_get_inductance_tap_reply(v: Seq<u8>)
    requires
        v.len() == 3,
    ensures
        all_digits(v) && digits_value(v) <= 255 ==> GetInductanceTap::spec_parse_response(frame(get_inductance_tap_id(), v)) == Ok::<u8, Failure>(digits_value(v) as u8),
        !all_digits(v) ==> GetInductanceTap::spec_parse_response(frame(get_inductance_tap_id(), v)) == Err::<u8, Failure>(Failure::ResponseData(v)),
{
    lemma_framed_value_reads_back(get_inductance_tap_id(), v);
}

/// `I`
pub open spec fn set_inductance_tap_id() -> Seq<u8> {
    seq![0x49]
}

fn set_inductance_tap_id_bytes() -> (r: &'static [u8])
    ensures
        r@ == set_inductance_tap_id(),
{
    &[0x49]
}

/// Set the tuning inductance tap (`I`).
#[derive(Clone, Copy, Debug, PartialEq, Eq)]
pub struct SetInductanceTap {
    pub tap: u8,
}

impl SetInductanceTap {
    /// The values the command accepts.
    pub open spec fn spec_in_range(self) -> bool {
        self.tap <= 63
    }

    /// The argument bytes.
    pub open spec fn spec_args(self) -> Seq<u8> {
        uint_args(self.tap as u32, 3)
    }

    /// The command, or `InvalidArgumentValue` for a value out of range.
    pub fn to_bytes(&self) -> (r: Result<Vec<u8>, RigError>)
        ensures
            self.spec_in_range() ==> (r matches Ok(b) && b@ == frame(set_inductance_tap_id(), self.spec_args())),
            !self.spec_in_range() ==> (r matches Err(e) && e.fails_with(
                Failure::ArgumentValue("tap"@, "u8"@, decimal_string(self.tap as int)),
            )),
    {
        encode_uint_in_range(set_inductance_tap_id_bytes(), "tap", "u8", self.tap as u32, 0, 63, 3)
    }
}

/// `SetInductanceTap` accepts `tap` when `s.tap <= 63` and sends it as decimal digits, zero-padded to 3.
pub proof fn lemma_set_inductance_tap_argument(s: SetInductanceTap)
    ensures
        s.spec_in_range() == (s.tap <= 63),
        all_digits(s.spec_args()),
        digits_value(s.spec_args()) == s.tap,
        (s.tap as nat) < pow10(3) ==> s.spec_args().len() == 3,
{
    lemma_padded_decimal_value(s.tap as nat, 3);
    if (s.tap as nat) < pow10(3) {
        lemma_num_digits_le(s.tap as nat, 3);
    }
}

/// `IF`
pub open spec fn get_inhibit_fan_id() -> Seq<u8> {
    seq![0x49, 0x46]
}

fn get_inhibit_fan_id_bytes() -> (r: &'static [u8])
    ensures
        r@ == get_inhibit_fan_id(),
{
    &[0x49, 0x46]
}

/// Get whether the cooling fan is inhibited (`IF`).
#[derive(Clone, Copy, Debug, PartialEq, Eq)]
pub struct GetInhibitFan;

impl GetInhibitFan {
    pub fn to_bytes(&self) -> (r: Vec<u8>)
        ensures
            r@ == frame(get_inhibit_fan_id(), seq![]),
    {
        let none: [u8; 0] = [];
        frame_command(get_inhibit_fan_id_bytes(), &none)
    }

    pub open spec fn spec_parse_response(bytes: Seq<u8>) -> Result<bool, Failure> {
        match spec_validate_response(bytes, get_inhibit_fan_id(), 1) {
            Ok(v) => spec_bool_1_0(v[0]),
            Err(f) => Err(f),
        }
    }

    pub fn parse(&self, bytes: &[u8]) -> (r: Result<bool, RigError>)
        ensures
            agrees(r, Self::spec_parse_response(bytes@)),
    {
        match validate_response(bytes, get_inhibit_fan_id_bytes(), 1) {
            Ok(d) => bool_from_ascii_1_0(d[0]),
            Err(e) => Err(e),
        }
    }
}

/// A `GetInhibitFan` reply whose value byte is `1` reads as `true`, `0` as `false`; any other byte is a
/// `ParseBoolean` error.
pub proof fn lemma_get_inhibit_fan_reply(v: Seq<u8>)
    requires
        v.len() == 1,
    ensures
        v[0] == 0x31 ==> GetInhibitFan::spec_parse_response(frame(get_inhibit_fan_id(), v)) == Ok::<bool, Failure>(true),
        v[0] == 0x30 ==> GetInhibitFan::spec_parse_response(frame(get_inhibit_fan_id(), v)) == Ok::<bool, Failure>(false),
        v[0] != 0x30 && v[0] != 0x31 ==> GetInhibitFan::spec_parse_response(frame(get_inhibit_fan_id(), v)) == Err::<bool, Failure>(Failure::Boolean(v[0])),
{
    lemma_framed_value_reads_back(get_inhibit_fan_id(), v);
}

/// `IF`
pub open spec fn set_inhibit_fan_id() -> Seq<u8> {
    seq![0x49, 0x46]
}

fn set_inhibit_fan_id_bytes() -> (r: &'static [u8])
    ensures
        r@ == set_inhibit_fan_id(),
{
    &[0x49, 0x46]
}

/// Set whether the cooling fan is inhibited (`IF`).
#[derive(Clone, Copy, Debug, PartialEq, Eq)]
pub struct SetInhibitFan {
    pub inhibit: bool,
}

impl SetInhibitFan {
    pub open spec fn spec_args(self) -> Seq<u8> {
        seq![if self.inhibit { ASCII_DIGIT_ONE } else { ASCII_DIGIT_ZERO }]
    }

    pub fn to_bytes(&self) -> (r: Vec<u8>)
        ensures
            r@ == frame(set_inhibit_fan_id(), self.spec_args()),
    {
        let args: [u8; 1] = [if self.inhibit { ASCII_DIGIT_ONE } else { ASCII_DIGIT_ZERO }];
        assert(args@ =~= self.spec_args());
        frame_command(set_inhibit_fan_id_bytes(), &args)
    }
}

/// `SetInhibitFan` sends `1` when `inhibit` is set and `0` when it is clear.
pub proof fn lemma_set_inhibit_fan_argument(s: SetInhibitFan)
    ensures
        s.inhibit ==> s.spec_args() == seq![0x31u8],
        !s.inhibit ==> s.spec_args() == seq![0x30u8],
{
}

/// `L`
pub open spec fn get_inductor_switch_id() -> Seq<u8> {
    seq![0x4C]
}

fn get_inductor_switch_id_bytes() -> (r: &'static [u8])
    ensures
        r@ == get_inductor_switch_id(),
{
    &[0x4C]
}

/// Get the inductor switch bitmask (`L`).
#[derive(Clone, Copy, Debug, PartialEq, Eq)]
pub struct GetInductorSwitch;

impl GetInductorSwitch {
    pub fn to_bytes(&self) -> (r: Vec<u8>)
        ensures
            r@ == frame(get_inductor_switch_id(), seq![]),
    {
        let none: [u8; 0] = [];
        frame_command(get_inductor_switch_id_bytes(), &none)
    }

    pub open spec fn spec_parse_response(bytes: Seq<u8>) -> Result<u8, Failure> {
        match spec_validate_response(bytes, get_inductor_switch_id(), 3) {
            Ok(v) => spec_u8_field(v),
            Err(f) => Err(f),
        }
    }

    /// Reads the digits of a framed reply; a value above 255 is outside the domain.
    pub fn parse(&self, bytes: &[u8]) -> (r: Result<u8, RigError>)
        requires
            spec_validate_response(bytes@, get_inductor_switch_id(), 3) matches Ok(v) ==> leading_value(v) <= u8::MAX,
        ensures
            agrees(r, Self::spec_parse_response(bytes@)),
    {
        match validate_response(bytes, get_inductor_switch_id_bytes(), 3) {
            Ok(d) => {
                proof {
                    lemma_leading_value_bound(d@);
                    lemma_pow10_values();
                }
                u8_from_ascii(d)
            },
            Err(e) => Err(e),
        }
    }
}

/// A `GetInductorSwitch` reply of 3 value bytes reads as the decimal number they spell; a value with a
/// byte that is not a digit is an `InvalidResponseData` error holding the value.
pub proof fn lemma_get_inductor_switch_reply(v: Seq<u8>)
    requires
        v.len() == 3,
    ensures
        all_digits(v) && digits_value(v) <= 255 ==> GetInductorSwitch::spec_parse_response(frame(get_inductor_switch_id(), v)) == Ok::<u8, Failure>(digits_value(v) as u8),
        !all_digits(v) ==> GetInductorSwitch::spec_parse_response(frame(get_inductor_switch_id(), v)) == Err::<u8, Failure>(Failure::ResponseData(v)),
{
    lemma_framed_value_reads_back(get_inductor_switch_id(), v);
}

/// `L`
pub open spec fn set_inductor_switch_id() -> Seq<u8> {
    seq![0x4C]
}

fn set_inductor_switch_id_bytes() -> (r: &'static [u8])
    ensures
        r@ == set_inductor_switch_id(),
{
    &[0x4C]
}

/// Set the inductor switch bitmask directly (`L`).
#[derive(Clone, Copy, Debug, PartialEq, Eq)]
pub struct SetInductorSwitch {
    pub mask: u8,
}

impl SetInductorSwitch {
    pub open spec fn spec_args(self) -> Seq<u8> {
        padded_decimal(self.mask as nat, 3)
    }

    pub fn to_bytes(&self) -> (r: Vec<u8>)
        ensures
            r@ == frame(set_inductor_switch_id(), self.spec_args()),
    {
        let args = format_uint_ascii(self.mask as u64, 3);
        frame_command(set_inductor_switch_id_bytes(), args.as_slice())
    }
}

/// `SetInductorSwitch` sends `mask` as decimal digits, zero-padded to 3 digits when it fits in 3.
pub proof fn lemma_set_inductor_switch_argument(s: SetInductorSwitch)
    ensures
        all_digits(s.spec_args()),
        digits_value(s.spec_args()) == s.mask,
        (s.mask as nat) < pow10(3) ==> s.spec_args().len() == 3,
        s.spec_args().len() >= 3,
{
    lemma_padded_decimal_value(s.mask as nat, 3);
    if (s.mask as nat) < pow10(3) {
        lemma_num_digits_le(s.mask as nat, 3);
    }
}

/// `MD`
pub open spec fn get_operating_mode_id() -> Seq<u8> {
    seq![0x4D, 0x44]
}

fn get_operating_mode_id_bytes() -> (r: &'static [u8])
    ensures
        r@ == get_operating_mode_id(),
{
    &[0x4D, 0x44]
}

/// Get the current ATU operating mode (`MD`).
#[derive(Clone, Copy, Debug, PartialEq, Eq)]
pub struct GetOperatingMode;

impl GetOperatingMode {
    pub fn to_bytes(&self) -> (r: Vec<u8>)
        ensures
            r@ == frame(get_operating_mode_id(), seq![]),
    {
        let none: [u8; 0] = [];
        frame_command(get_operating_mode_id_bytes(), &none)
    }

    /// What `parse` gives for a response: the value of its one byte, or `InvalidResponseData`
    /// holding the value.
    pub open spec fn spec_parse_response(bytes: Seq<u8>) -> Result<OperatingMode, Failure> {
        match spec_validate_response(bytes, get_operating_mode_id(), 1) {
            Ok(v) => match OperatingMode::spec_from_byte(v[0]) {
                Some(x) => Ok(x),
                None => Err(Failure::ResponseData(v)),
            },
            Err(f) => Err(f),
        }
    }

    pub fn parse(&self, bytes: &[u8]) -> (r: Result<OperatingMode, RigError>)
        ensures
            agrees(r, Self::spec_parse_response(bytes@)),
    {
        match validate_response(bytes, get_operating_mode_id_bytes(), 1) {
            Ok(d) => match OperatingMode::from_repr(d[0]) {
                Some(x) => Ok(x),
                None => Err(invalid_response_data(d)),
            },
            Err(e) => Err(e),
        }
    }
}

/// A `GetOperatingMode` reply reads as the `OperatingMode` whose wire byte is its value byte; a byte that names no
/// variant is an `InvalidResponseData` error holding the value.
pub proof fn lemma_get_operating_mode_reply(v: Seq<u8>)
    requires
        v.len() == 1,
    ensures
        GetOperatingMode::spec_parse_response(frame(get_operating_mode_id(), v)) matches Ok(m) ==> m.spec_byte() == v[0],
        OperatingMode::spec_from_byte(v[0]) is Some ==> GetOperatingMode::spec_parse_response(frame(get_operating_mode_id(), v)) is Ok,
        OperatingMode::spec_from_byte(v[0]) is None ==> GetOperatingMode::spec_parse_response(frame(get_operating_mode_id(), v)) == Err::<OperatingMode, Failure>(Failure::ResponseData(v)),
{
    lemma_framed_value_reads_back(get_operating_mode_id(), v);
}

/// `MD`
pub open spec fn set_operating_mode_id() -> Seq<u8> {
    seq![0x4D, 0x44]
}

fn set_operating_mode_id_bytes() -> (r: &'static [u8])
    ensures
        r@ == set_operating_mode_id(),
{
    &[0x4D, 0x44]
}

/// Set the current ATU operating mode (`MD`).
#[derive(Clone, Copy, Debug, PartialEq, Eq)]
pub struct SetOperatingMode {
    pub mode: OperatingMode,
}

impl SetOperatingMode {
    pub fn to_auto() -> (r: SetOperatingMode)
        ensures
            r.mode == OperatingMode::Auto,
    {
        SetOperatingMode { mode: OperatingMode::Auto }
    }

    pub fn to_semi_auto() -> (r: SetOperatingMode)
        ensures
            r.mode == OperatingMode::SemiAuto,
    {
        SetOperatingMode { mode: OperatingMode::SemiAuto }
    }

    pub fn to_manual() -> (r: SetOperatingMode)
        ensures
            r.mode == OperatingMode::Manual,
    {
        SetOperatingMode { mode: OperatingMode::Manual }
    }

    pub open spec fn spec_args(self) -> Seq<u8> {
        seq![self.mode.spec_byte()]
    }

    pub fn to_bytes(&self) -> (r: Vec<u8>)
        ensures
            r@ == frame(set_operating_mode_id(), self.spec_args()),
    {
        let args: [u8; 1] = [self.mode.as_byte()];
        assert(args@ =~= self.spec_args());
        frame_command(set_operating_mode_id_bytes(), &args)
    }
}

/// `SetOperatingMode` sends exactly one byte, the wire byte of `mode`.
pub proof fn lemma_set_operating_mode_argument(s: SetOperatingMode)
    ensures
        s.spec_args().len() == 1,
        s.spec_args()[0] == s.mode.spec_byte(),
{
}

/// `MT`
pub open spec fn get_meter_type_id() -> Seq<u8> {
    seq![0x4D, 0x54]
}

fn get_meter_type_id_bytes() -> (r: &'static [u8])
    ensures
        r@ == get_meter_type_id(),
{
    &[0x4D, 0x54]
}

/// Get the front-panel meter display type (`MT`).
#[derive(Clone, Copy, Debug, PartialEq, Eq)]
pub struct GetMeterType;

impl GetMeterType {
    pub fn to_bytes(&self) -> (r: Vec<u8>)
        ensures
            r@ == frame(get_meter_type_id(), seq![]),
    {
        let none: [u8; 0] = [];
        frame_command(get_meter_type_id_bytes(), &none)
    }

    /// What `parse` gives for a response: the value of its one byte, or `InvalidResponseData`
    /// holding the value.
    pub open spec fn spec_parse_response(bytes: Seq<u8>) -> Result<MeterType, Failure> {
        match spec_validate_response(bytes, get_meter_type_id(), 1) {
            Ok(v) => match MeterType::spec_from_byte(v[0]) {
                Some(x) => Ok(x),
                None => Err(Failure::ResponseData(v)),
            },
            Err(f) => Err(f),
        }
    }

    pub fn parse(&self, bytes: &[u8]) -> (r: Result<MeterType, RigError>)
        ensures
            agrees(r, Self::spec_parse_response(bytes@)),
    {
        match validate_response(bytes, get_meter_type_id_bytes(), 1) {
            Ok(d) => match MeterType::from_repr(d[0]) {
                Some(x) => Ok(x),
                None => Err(invalid_response_data(d)),
            },
            Err(e) => Err(e),
        }
    }
}

/// A `GetMeterType` reply reads as the `MeterType` whose wire byte is its value byte; a byte that names no
/// variant is an `InvalidResponseData` error holding the value.
pub proof fn lemma_get_meter_type_reply(v: Seq<u8>)
    requires
        v.len() == 1,
    ensures
        GetMeterType::spec_parse_response(frame(get_meter_type_id(), v)) matches Ok(m) ==> m.spec_byte() == v[0],
        MeterType::spec_from_byte(v[0]) is Some ==> GetMeterType::spec_parse_response(frame(get_meter_type_id(), v)) is Ok,
        MeterType::spec_from_byte(v[0]) is None ==> GetMeterType::spec_parse_response(frame(get_meter_type_id(), v)) == Err::<MeterType, Failure>(Failure::ResponseData(v)),
{
    lemma_framed_value_reads_back(get_meter_type_id(), v);
}

/// `MT`
pub open spec fn set_meter_type_id() -> Seq<u8> {
    seq![0x4D, 0x54]
}

fn set_meter_type_id_bytes() -> (r: &'static [u8])
    ensures
        r@ == set_meter_type_id(),
{
    &[0x4D, 0x54]
}

/// Set the front-panel meter display type (`MT`).
#[derive(Clone, Copy, Debug, PartialEq, Eq)]
pub struct SetMeterType {
    pub meter: MeterType,
}

impl SetMeterType {
    pub fn to_swr() -> (r: SetMeterType)
        ensures
            r.meter == MeterType::Swr,
    {
        SetMeterType { meter: MeterType::Swr }
    }

    pub fn to_power() -> (r: SetMeterType)
        ensures
            r.meter == MeterType::Power,
    {
        SetMeterType { meter: MeterType::Power }
    }

    pub fn to_reflected() -> (r: SetMeterType)
        ensures
            r.meter == MeterType::Reflected,
    {
        SetMeterType { meter: MeterType::Reflected }
    }

    pub open spec fn spec_args(self) -> Seq<u8> {
        seq![self.meter.spec_byte()]
    }

    pub fn to_bytes(&self) -> (r: Vec<u8>)
        ensures
            r@ == frame(set_meter_type_id(), self.spec_args()),
    {
        let args: [u8; 1] = [self.meter.as_byte()];
        assert(args@ =~= self.spec_args());
        frame_command(set_meter_type_id_bytes(), &args)
    }
}

/// `SetMeterType` sends exactly one byte, the wire byte of `meter`.
pub proof fn lemma_set_meter_type_argument(s: SetMeterType)
    ensures
        s.spec_args().len() == 1,
        s.spec_args()[0] == s.meter.spec_byte(),
{
}

/// `PS`
pub open spec fn get_power_status_id() -> Seq<u8> {
    seq![0x50, 0x53]
}

fn get_power_status_id_bytes() -> (r: &'static [u8])
    ensures
        r@ == get_power_status_id(),
{
    &[0x50, 0x53]
}

/// Get the power-on status (`PS`).
#[derive(Clone, Copy, Debug, PartialEq, Eq)]
pub struct GetPowerStatus;

impl GetPowerStatus {
    pub fn to_bytes(&self) -> (r: Vec<u8>)
        ensures
            r@ == frame(get_power_status_id(), seq![]),
    {
        let none: [u8; 0] = [];
        frame_command(get_power_status_id_bytes(), &none)
    }

    pub open spec fn spec_parse_response(bytes: Seq<u8>) -> Result<bool, Failure> {
        match spec_validate_response(bytes, get_power_status_id(), 1) {
            Ok(v) => spec_bool_1_0(v[0]),
            Err(f) => Err(f),
        }
    }

    pub fn parse(&self, bytes: &[u8]) -> (r: Result<bool, RigError>)
        ensures
            agrees(r, Self::spec_parse_response(bytes@)),
    {
        match validate_response(bytes, get_power_status_id_bytes(), 1) {
            Ok(d) => bool_from_ascii_1_0(d[0]),
            Err(e) => Err(e),
        }
    }
}

/// A `GetPowerStatus` reply whose value byte is `1` reads as `true`, `0` as `false`; any other byte is a
/// `ParseBoolean` error.
pub proof fn lemma_get_power_status_reply(v: Seq<u8>)
    requires
        v.len() == 1,
    ensures
        v[0] == 0x31 ==> GetPowerStatus::spec_parse_response(frame(get_power_status_id(), v)) == Ok::<bool, Failure>(true),
        v[0] == 0x30 ==> GetPowerStatus::spec_parse_response(frame(get_power_status_id(), v)) == Ok::<bool, Failure>(false),
        v[0] != 0x30 && v[0] != 0x31 ==> GetPowerStatus::spec_parse_response(frame(get_power_status_id(), v)) == Err::<bool, Failure>(Failure::Boolean(v[0])),
{
    lemma_framed_value_reads_back(get_power_status_id(), v);
}

/// `PSI`
pub open spec fn get_power_sensor_input_id() -> Seq<u8> {
    seq![0x50, 0x53, 0x49]
}

fn get_power_sensor_input_id_bytes() -> (r: &'static [u8])
    ensures
        r@ == get_power_sensor_input_id(),
{
    &[0x50, 0x53, 0x49]
}

/// Get the forward power reading from the internal sensor (`PSI`).
#[derive(Clone, Copy, Debug, PartialEq, Eq)]
pub struct GetPowerSensorInput;

impl GetPowerSensorInput {
    pub fn to_bytes(&self) -> (r: Vec<u8>)
        ensures
            r@ == frame(get_power_sensor_input_id(), seq![]),
    {
        let none: [u8; 0] = [];
        frame_command(get_power_sensor_input_id_bytes(), &none)
    }

    pub open spec fn spec_parse_response(bytes: Seq<u8>) -> Result<u16, Failure> {
        match spec_validate_response(bytes, get_power_sensor_input_id(), 3) {
            Ok(v) => spec_u16_field(v),
            Err(f) => Err(f),
        }
    }

    pub fn parse(&self, bytes: &[u8]) -> (r: Result<u16, RigError>)
        ensures
            agrees(r, Self::spec_parse_response(bytes@)),
    {
        match validate_response(bytes, get_power_sensor_input_id_bytes(), 3) {
            Ok(d) => {
                proof {
                    lemma_leading_value_bound(d@);
                    lemma_pow10_values();
                }
                u16_from_ascii(d)
            },
            Err(e) => Err(e),
        }
    }
}

/// A `GetPowerSensorInput` reply of 3 value bytes reads as the decimal number they spell; a value with a
/// byte that is not a digit is an `InvalidResponseData` error holding the value.
pub proof fn lemma_get_power_sensor_input_reply(v: Seq<u8>)
    requires
        v.len() == 3,
    ensures
        all_digits(v) && digits_value(v) <= u16::MAX ==> GetPowerSensorInput::spec_parse_response(frame(get_power_sensor_input_id(), v)) == Ok::<u16, Failure>(digits_value(v) as u16),
        !all_digits(v) ==> GetPowerSensorInput::spec_parse_response(frame(get_power_sensor_input_id(), v)) == Err::<u16, Failure>(Failure::ResponseData(v)),
{
    lemma_framed_value_reads_back(get_power_sensor_input_id(), v);
}

/// `RSTX`
pub open spec fn reset_device_id() -> Seq<u8> {
    seq![0x52, 0x53, 0x54, 0x58]
}

fn reset_device_id_bytes() -> (r: &'static [u8])
    ensures
        r@ == reset_device_id(),
{
    &[0x52, 0x53, 0x54, 0x58]
}

/// Perform a soft reset of the KAT500, triggering a firmware restart (`RSTX`).
#[derive(Clone, Copy, Debug, PartialEq, Eq)]
pub struct ResetDevice;

impl ResetDevice {
    pub fn to_bytes(&self) -> (r: Vec<u8>)
        ensures
            r@ == frame(reset_device_id(), seq![]),
    {
        let none: [u8; 0] = [];
        frame_command(reset_device_id_bytes(), &none)
    }
}

/// `RV`
pub open spec fn get_firmware_version_id() -> Seq<u8> {
    seq![0x52, 0x56]
}

fn get_firmware_version_id_bytes() -> (r: &'static [u8])
    ensures
        r@ == get_firmware_version_id(),
{
    &[0x52, 0x56]
}

/// Get the firmware version string (`RV`).
#[derive(Clone, Copy, Debug, PartialEq, Eq)]
pub struct GetFirmwareVersion;

impl GetFirmwareVersion {
    pub fn to_bytes(&self) -> (r: Vec<u8>)
        ensures
            r@ == frame(get_firmware_version_id(), seq![]),
    {
        let none: [u8; 0] = [];
        frame_command(get_firmware_version_id_bytes(), &none)
    }

    /// The value bytes of a framed reply.
    pub fn parse(&self, bytes: &[u8]) -> (r: Result<Vec<u8>, RigError>)
        ensures
            match spec_validate_response(bytes@, get_firmware_version_id(), 0) {
                Ok(v) => r matches Ok(d) && d@ == v,
                Err(f) => r matches Err(e) && e.fails_with(f),
            },
    {
        match validate_response(bytes, get_firmware_version_id_bytes(), 0) {
            Ok(d) => bytes_to_vec(d),
            Err(e) => Err(e),
        }
    }
}

/// `SIDE`
pub open spec fn get_antenna_side_selection_id() -> Seq<u8> {
    seq![0x53, 0x49, 0x44, 0x45]
}

fn get_antenna_side_selection_id_bytes() -> (r: &'static [u8])
    ensures
        r@ == get_antenna_side_selection_id(),
{
    &[0x53, 0x49, 0x44, 0x45]
}

/// Get the antenna side selection (`SIDE`).
#[derive(Clone, Copy, Debug, PartialEq, Eq)]
pub struct GetAntennaSideSelection;

impl GetAntennaSideSelection {
    pub fn to_bytes(&self) -> (r: Vec<u8>)
        ensures
            r@ == frame(get_antenna_side_selection_id(), seq![]),
    {
        let none: [u8; 0] = [];
        frame_command(get_antenna_side_selection_id_bytes(), &none)
    }

    /// What `parse` gives for a response: the value of its one byte, or `InvalidResponseData`
    /// holding the value.
    pub open spec fn spec_parse_response(bytes: Seq<u8>) -> Result<AntennaSide, Failure> {
        match spec_validate_response(bytes, get_antenna_side_selection_id(), 1) {
            Ok(v) => match AntennaSide::spec_from_byte(v[0]) {
                Some(x) => Ok(x),
                None => Err(Failure::ResponseData(v)),
            },
            Err(f) => Err(f),
        }
    }

    pub fn parse(&self, bytes: &[u8]) -> (r: Result<AntennaSide, RigError>)
        ensures
            agrees(r, Self::spec_parse_response(bytes@)),
    {
        match validate_response(bytes, get_antenna_side_selection_id_bytes(), 1) {
            Ok(d) => match AntennaSide::from_repr(d[0]) {
                Some(x) => Ok(x),
                None => Err(invalid_response_data(d)),
            },
            Err(e) => Err(e),
        }
    }
}

/// A `GetAntennaSideSelection` reply reads as the `AntennaSide` whose wire byte is its value byte; a byte that names no
/// variant is an `InvalidResponseData` error holding the value.
pub proof fn lemma_get_antenna_side_selection_reply(v: Seq<u8>)
    requires
        v.len() == 1,
    ensures
        GetAntennaSideSelection::spec_parse_response(frame(get_antenna_side_selection_id(), v)) matches Ok(m) ==> m.spec_byte() == v[0],
        AntennaSide::spec_from_byte(v[0]) is Some ==> GetAntennaSideSelection::spec_parse_response(frame(get_antenna_side_selection_id(), v)) is Ok,
        AntennaSide::spec_from_byte(v[0]) is None ==> GetAntennaSideSelection::spec_parse_response(frame(get_antenna_side_selection_id(), v)) == Err::<AntennaSide, Failure>(Failure::ResponseData(v)),
{
    lemma_framed_value_reads_back(get_antenna_side_selection_id(), v);
}

/// `SIDE`
pub open spec fn set_antenna_side_selection_id() -> Seq<u8> {
    seq![0x53, 0x49, 0x44, 0x45]
}

fn set_antenna_side_selection_id_bytes() -> (r: &'static [u8])
    ensures
        r@ == set_antenna_side_selection_id(),
{
    &[0x53, 0x49, 0x44, 0x45]
}

/// Set the antenna side selection (`SIDE`).
#[derive(Clone, Copy, Debug, PartialEq, Eq)]
pub struct SetAntennaSideSelection {
    pub side: AntennaSide,
}

impl SetAntennaSideSelection {
    pub fn to_left() -> (r: SetAntennaSideSelection)
        ensures
            r.side == AntennaSide::Left,
    {
        SetAntennaSideSelection { side: AntennaSide::Left }
    }

    pub fn to_right() -> (r: SetAntennaSideSelection)
        ensures
            r.side == AntennaSide::Right,
    {
        SetAntennaSideSelection { side: AntennaSide::Right }
    }

    pub open spec fn spec_args(self) -> Seq<u8> {
        seq![self.side.spec_byte()]
    }

    pub fn to_bytes(&self) -> (r: Vec<u8>)
        ensures
            r@ == frame(set_antenna_side_selection_id(), self.spec_args()),
    {
        let args: [u8; 1] = [self.side.as_byte()];
        assert(args@ =~= self.spec_args());
        frame_command(set_antenna_side_selection_id_bytes(), &args)
    }
}

/// `SetAntennaSideSelection` sends exactly one byte, the wire byte of `side`.
pub proof fn lemma_set_antenna_side_selection_argument(s: SetAntennaSideSelection)
    ensures
        s.spec_args().len() == 1,
        s.spec_args()[0] == s.side.spec_byte(),
{
}

/// `SL`
pub open spec fn get_tuning_speed_limit_id() -> Seq<u8> {
    seq![0x53, 0x4C]
}

fn get_tuning_speed_limit_id_bytes() -> (r: &'static [u8])
    ensures
        r@ == get_tuning_speed_limit_id(),
{
    &[0x53, 0x4C]
}

/// Get the tuning speed limit setting (`SL`).
#[derive(Clone, Copy, Debug, PartialEq, Eq)]
pub struct GetTuningSpeedLimit;

impl GetTuningSpeedLimit {
    pub fn to_bytes(&self) -> (r: Vec<u8>)
        ensures
            r@ == frame(get_tuning_speed_limit_id(), seq![]),
    {
        let none: [u8; 0] = [];
        frame_command(get_tuning_speed_limit_id_bytes(), &none)
    }

    pub open spec fn spec_parse_response(bytes: Seq<u8>) -> Result<u8, Failure> {
        match spec_validate_response(bytes, get_tuning_speed_limit_id(), 1) {
            Ok(v) => spec_u8_field(v),
            Err(f) => Err(f),
        }
    }

    pub fn parse(&self, bytes: &[u8]) -> (r: Result<u8, RigError>)
        ensures
            agrees(r, Self::spec_parse_response(bytes@)),
    {
        match validate_response(bytes, get_tuning_speed_limit_id_bytes(), 1) {
            Ok(d) => {
                proof {
                    lemma_leading_value_bound(d@);
                    lemma_pow10_values();
                }
                u8_from_ascii(d)
            },
            Err(e) => Err(e),
        }
    }
}

/// A `GetTuningSpeedLimit` reply of 1 value bytes reads as the decimal number they spell; a value with a
/// byte that is not a digit is an `InvalidResponseData` error holding the value.
pub proof fn lemma_get_tuning_speed_limit_reply(v: Seq<u8>)
    requires
        v.len() == 1,
    ensures
        all_digits(v) && digits_value(v) <= 255 ==> GetTuningSpeedLimit::spec_parse_response(frame(get_tuning_speed_limit_id(), v)) == Ok::<u8, Failure>(digits_value(v) as u8),
        !all_digits(v) ==> GetTuningSpeedLimit::spec_parse_response(frame(get_tuning_speed_limit_id(), v)) == Err::<u8, Failure>(Failure::ResponseData(v)),
{
    lemma_framed_value_reads_back(get_tuning_speed_limit_id(), v);
}

/// `SL`
pub open spec fn set_tuning_speed_limit_id() -> Seq<u8> {
    seq![0x53, 0x4C]
}

fn set_tuning_speed_limit_id_bytes() -> (r: &'static [u8])
    ensures
        r@ == set_tuning_speed_limit_id(),
{
    &[0x53, 0x4C]
}

/// Set the tuning speed limit (`SL`).
#[derive(Clone, Copy, Debug, PartialEq, Eq)]
pub struct SetTuningSpeedLimit {
    pub level: u8,
}

impl SetTuningSpeedLimit {
    /// The values the command accepts.
    pub open spec fn spec_in_range(self) -> bool {
        self.level <= 9
    }

    /// The argument bytes.
    pub open spec fn spec_args(self) -> Seq<u8> {
        uint_args(self.level as u32, 1)
    }

    /// The command, or `InvalidArgumentValue` for a value out of range.
    pub fn to_bytes(&self) -> (r: Result<Vec<u8>, RigError>)
        ensures
            self.spec_in_range() ==> (r matches Ok(b) && b@ == frame(set_tuning_speed_limit_id(), self.spec_args())),
            !self.spec_in_range() ==> (r matches Err(e) && e.fails_with(
                Failure::ArgumentValue("level"@, "u8"@, decimal_string(self.level as int)),
            )),
    {
        encode_uint_in_range(set_tuning_speed_limit_id_bytes(), "level", "u8", self.level as u32, 0, 9, 1)
    }
}

/// `SetTuningSpeedLimit` accepts `level` when `s.level <= 9` and sends it as decimal digits, zero-padded to 1.
pub proof fn lemma_set_tuning_speed_limit_argument(s: SetTuningSpeedLimit)
    ensures
        s.spec_in_range() == (s.level <= 9),
        all_digits(s.spec_args()),
        digits_value(s.spec_args()) == s.level,
        (s.level as nat) < pow10(1) ==> s.spec_args().len() == 1,
{
    lemma_padded_decimal_value(s.level as nat, 1);
    if (s.level as nat) < pow10(1) {
        lemma_num_digits_le(s.level as nat, 1);
    }
}

/// `SM`
pub open spec fn get_swr_meter_id() -> Seq<u8> {
    seq![0x53, 0x4D]
}

fn get_swr_meter_id_bytes() -> (r: &'static [u8])
    ensures
        r@ == get_swr_meter_id(),
{
    &[0x53, 0x4D]
}

/// Get the current SWR meter reading (`SM`).
#[derive(Clone, Copy, Debug, PartialEq, Eq)]
pub struct GetSwrMeter;

impl GetSwrMeter {
    pub fn to_bytes(&self) -> (r: Vec<u8>)
        ensures
            r@ == frame(get_swr_meter_id(), seq![]),
    {
        let none: [u8; 0] = [];
        frame_command(get_swr_meter_id_bytes(), &none)
    }

    pub open spec fn spec_parse_response(bytes: Seq<u8>) -> Result<u16, Failure> {
        match spec_validate_response(bytes, get_swr_meter_id(), 3) {
            Ok(v) => spec_u16_field(v),
            Err(f) => Err(f),
        }
    }

    pub fn parse(&self, bytes: &[u8]) -> (r: Result<u16, RigError>)
        ensures
            agrees(r, Self::spec_parse_response(bytes@)),
    {
        match validate_response(bytes, get_swr_meter_id_bytes(), 3) {
            Ok(d) => {
                proof {
                    lemma_leading_value_bound(d@);
                    lemma_pow10_values();
                }
                u16_from_ascii(d)
            },
            Err(e) => Err(e),
        }
    }
}

/// A `GetSwrMeter` reply of 3 value bytes reads as the decimal number they spell; a value with a
/// byte that is not a digit is an `InvalidResponseData` error holding the value.
pub proof fn lemma_get_swr_meter_reply(v: Seq<u8>)
    requires
        v.len() == 3,
    ensures
        all_digits(v) && digits_value(v) <= u16::MAX ==> GetSwrMeter::spec_parse_response(frame(get_swr_meter_id(), v)) == Ok::<u16, Failure>(digits_value(v) as u16),
        !all_digits(v) ==> GetSwrMeter::spec_parse_response(frame(get_swr_meter_id(), v)) == Err::<u16, Failure>(Failure::ResponseData(v)),
{
    lemma_framed_value_reads_back(get_swr_meter_id(), v);
}

/// `SN`
pub open spec fn get_serial_number_id() -> Seq<u8> {
    seq![0x53, 0x4E]
}

fn get_serial_number_id_bytes() -> (r: &'static [u8])
    ensures
        r@ == get_serial_number_id(),
{
    &[0x53, 0x4E]
}

/// Get the unit serial number (`SN`).
#[derive(Clone, Copy, Debug, PartialEq, Eq)]
pub struct GetSerialNumber;

impl GetSerialNumber {
    pub fn to_bytes(&self) -> (r: Vec<u8>)
        ensures
            r@ == frame(get_serial_number_id(), seq![]),
    {
        let none: [u8; 0] = [];
        frame_command(get_serial_number_id_bytes(), &none)
    }

    /// The value bytes of a framed reply.
    pub fn parse(&self, bytes: &[u8]) -> (r: Result<Vec<u8>, RigError>)
        ensures
            match spec_validate_response(bytes@, get_serial_number_id(), 0) {
                Ok(v) => r matches Ok(d) && d@ == v,
                Err(f) => r matches Err(e) && e.fails_with(f),
            },
    {
        match validate_response(bytes, get_serial_number_id_bytes(), 0) {
            Ok(d) => bytes_to_vec(d),
            Err(e) => Err(e),
        }
    }
}

/// `ST`
pub open spec fn start_tuning_cycle_id() -> Seq<u8> {
    seq![0x53, 0x54]
}

fn start_tuning_cycle_id_bytes() -> (r: &'static [u8])
    ensures
        r@ == start_tuning_cycle_id(),
{
    &[0x53, 0x54]
}

/// Initiate a tuning cycle (`ST`).
#[derive(Clone, Copy, Debug, PartialEq, Eq)]
pub struct StartTuningCycle;

impl StartTuningCycle {
    pub fn to_bytes(&self) -> (r: Vec<u8>)
        ensures
            r@ == frame(start_tuning_cycle_id(), seq![]),
    {
        let none: [u8; 0] = [];
        frame_command(start_tuning_cycle_id_bytes(), &none)
    }
}

/// `T`
pub open spec fn get_tuning_state_id() -> Seq<u8> {
    seq![0x54]
}

fn get_tuning_state_id_bytes() -> (r: &'static [u8])
    ensures
        r@ == get_tuning_state_id(),
{
    &[0x54]
}

/// Get whether a tuning cycle is currently in progress (`T`).
#[derive(Clone, Copy, Debug, PartialEq, Eq)]
pub struct GetTuningState;

impl GetTuningState {
    pub fn to_bytes(&self) -> (r: Vec<u8>)
        ensures
            r@ == frame(get_tuning_state_id(), seq![]),
    {
        let none: [u8; 0] = [];
        frame_command(get_tuning_state_id_bytes(), &none)
    }

    pub open spec fn spec_parse_response(bytes: Seq<u8>) -> Result<bool, Failure> {
        match spec_validate_response(bytes, get_tuning_state_id(), 1) {
            Ok(v) => spec_bool_1_0(v[0]),
            Err(f) => Err(f),
        }
    }

    pub fn parse(&self, bytes: &[u8]) -> (r: Result<bool, RigError>)
        ensures
            agrees(r, Self::spec_parse_response(bytes@)),
    {
        match validate_response(bytes, get_tuning_state_id_bytes(), 1) {
            Ok(d) => bool_from_ascii_1_0(d[0]),
            Err(e) => Err(e),
        }
    }
}

/// A `GetTuningState` reply whose value byte is `1` reads as `true`, `0` as `false`; any other byte is a
/// `ParseBoolean` error.
pub proof fn lemma_get_tuning_state_reply(v: Seq<u8>)
    requires
        v.len() == 1,
    ensures
        v[0] == 0x31 ==> GetTuningState::spec_parse_response(frame(get_tuning_state_id(), v)) == Ok::<bool, Failure>(true),
        v[0] == 0x30 ==> GetTuningState::spec_parse_response(frame(get_tuning_state_id(), v)) == Ok::<bool, Failure>(false),
        v[0] != 0x30 && v[0] != 0x31 ==> GetTuningState::spec_parse_response(frame(get_tuning_state_id(), v)) == Err::<bool, Failure>(Failure::Boolean(v[0])),
{
    lemma_framed_value_reads_back(get_tuning_state_id(), v);
}

/// `TP`
pub open spec fn get_tuning_power_id() -> Seq<u8> {
    seq![0x54, 0x50]
}

fn get_tuning_power_id_bytes() -> (r: &'static [u8])
    ensures
        r@ == get_tuning_power_id(),
{
    &[0x54, 0x50]
}

/// Get the RF power level used during a tune cycle (`TP`).
#[derive(Clone, Copy, Debug, PartialEq, Eq)]
pub struct GetTuningPower;

impl GetTuningPower {
    pub fn to_bytes(&self) -> (r: Vec<u8>)
        ensures
            r@ == frame(get_tuning_power_id(), seq![]),
    {
        let none: [u8; 0] = [];
        frame_command(get_tuning_power_id_bytes(), &none)
    }

    pub open spec fn spec_parse_response(bytes: Seq<u8>) -> Result<u16, Failure> {
        match spec_validate_response(bytes, get_tuning_power_id(), 3) {
            Ok(v) => spec_u16_field(v),
            Err(f) => Err(f),
        }
    }

    pub fn parse(&self, bytes: &[u8]) -> (r: Result<u16, RigError>)
        ensures
            agrees(r, Self::spec_parse_response(bytes@)),
    {
        match validate_response(bytes, get_tuning_power_id_bytes(), 3) {
            Ok(d) => {
                proof {
                    lemma_leading_value_bound(d@);
                    lemma_pow10_values();
                }
                u16_from_ascii(d)
            },
            Err(e) => Err(e),
        }
    }
}

/// A `GetTuningPower` reply of 3 value bytes reads as the decimal number they spell; a value with a
/// byte that is not a digit is an `InvalidResponseData` error holding the value.
pub proof fn lemma_get_tuning_power_reply(v: Seq<u8>)
    requires
        v.len() == 3,
    ensures
        all_digits(v) && digits_value(v) <= u16::MAX ==> GetTuningPower::spec_parse_response(frame(get_tuning_power_id(), v)) == Ok::<u16, Failure>(digits_value(v) as u16),
        !all_digits(v) ==> GetTuningPower::spec_parse_response(frame(get_tuning_power_id(), v)) == Err::<u16, Failure>(Failure::ResponseData(v)),
{
    lemma_framed_value_reads_back(get_tuning_power_id(), v);
}

/// `TP`
pub open spec fn set_tuning_power_id() -> Seq<u8> {
    seq![0x54, 0x50]
}

fn set_tuning_power_id_bytes() -> (r: &'static [u8])
    ensures
        r@ == set_tuning_power_id(),
{
    &[0x54, 0x50]
}

/// Set the RF power level used during a tune cycle (`TP`).
#[derive(Clone, Copy, Debug, PartialEq, Eq)]
pub struct SetTuningPower {
    pub power_w: u16,
}

impl SetTuningPower {
    pub open spec fn spec_args(self) -> Seq<u8> {
        padded_decimal(self.power_w as nat, 3)
    }

    pub fn to_bytes(&self) -> (r: Vec<u8>)
        ensures
            r@ == frame(set_tuning_power_id(), self.spec_args()),
    {
        let args = format_uint_ascii(self.power_w as u64, 3);
        frame_command(set_tuning_power_id_bytes(), args.as_slice())
    }
}

/// `SetTuningPower` sends `power_w` as decimal digits, zero-padded to 3 digits when it fits in 3.
pub proof fn lemma_set_tuning_power_argument(s: SetTuningPower)
    ensures
        all_digits(s.spec_args()),
        digits_value(s.spec_args()) == s.power_w,
        (s.power_w as nat) < pow10(3) ==> s.spec_args().len() == 3,
        s.spec_args().len() >= 3,
{
    lemma_padded_decimal_value(s.power_w as nat, 3);
    if (s.power_w as nat) < pow10(3) {
        lemma_num_digits_le(s.power_w as nat, 3);
    }
}

/// `VFWD`
pub open spec fn get_forward_voltage_id() -> Seq<u8> {
    seq![0x56, 0x46, 0x57, 0x44]
}

fn get_forward_voltage_id_bytes() -> (r: &'static [u8])
    ensures
        r@ == get_forward_voltage_id(),
{
    &[0x56, 0x46, 0x57, 0x44]
}

/// Get the ADC forward voltage reading (`VFWD`).
#[derive(Clone, Copy, Debug, PartialEq, Eq)]
pub struct GetForwardVoltage;

impl GetForwardVoltage {
    pub fn to_bytes(&self) -> (r: Vec<u8>)
        ensures
            r@ == frame(get_forward_voltage_id(), seq![]),
    {
        let none: [u8; 0] = [];
        frame_command(get_forward_voltage_id_bytes(), &none)
    }

    pub open spec fn spec_parse_response(bytes: Seq<u8>) -> Result<u16, Failure> {
        match spec_validate_response(bytes, get_forward_voltage_id(), 3) {
            Ok(v) => spec_u16_field(v),
            Err(f) => Err(f),
        }
    }

    pub fn parse(&self, bytes: &[u8]) -> (r: Result<u16, RigError>)
        ensures
            agrees(r, Self::spec_parse_response(bytes@)),
    {
        match validate_response(bytes, get_forward_voltage_id_bytes(), 3) {
            Ok(d) => {
                proof {
                    lemma_leading_value_bound(d@);
                    lemma_pow10_values();
                }
                u16_from_ascii(d)
            },
            Err(e) => Err(e),
        }
    }
}

/// A `GetForwardVoltage` reply of 3 value bytes reads as the decimal number they spell; a value with a
/// byte that is not a digit is an `InvalidResponseData` error holding the value.
pub proof fn lemma_get_forward_voltage_reply(v: Seq<u8>)
    requires
        v.len() == 3,
    ensures
        all_digits(v) && digits_value(v) <= u16::MAX ==> GetForwardVoltage::spec_parse_response(frame(get_forward_voltage_id(), v)) == Ok::<u16, Failure>(digits_value(v) as u16),
        !all_digits(v) ==> GetForwardVoltage::spec_parse_response(frame(get_forward_voltage_id(), v)) == Err::<u16, Failure>(Failure::ResponseData(v)),
{
    lemma_framed_value_reads_back(get_forward_voltage_id(), v);
}

/// `VRFL`
pub open spec fn get_reflected_voltage_id() -> Seq<u8> {
    seq![0x56, 0x52, 0x46, 0x4C]
}

fn get_reflected_voltage_id_bytes() -> (r: &'static [u8])
    ensures
        r@ == get_reflected_voltage_id(),
{
    &[0x56, 0x52, 0x46, 0x4C]
}

/// Get the ADC reflected voltage reading (`VRFL`).
#[derive(Clone, Copy, Debug, PartialEq, Eq)]
pub struct GetReflectedVoltage;

impl GetReflectedVoltage {
    pub fn to_bytes(&self) -> (r: Vec<u8>)
        ensures
            r@ == frame(get_reflected_voltage_id(), seq![]),
    {
        let none: [u8; 0] = [];
        frame_command(get_reflected_voltage_id_bytes(), &none)
    }

    pub open spec fn spec_parse_response(bytes: Seq<u8>) -> Result<u16, Failure> {
        match spec_validate_response(bytes, get_reflected_voltage_id(), 3) {
            Ok(v) => spec_u16_field(v),
            Err(f) => Err(f),
        }
    }

    pub fn parse(&self, bytes: &[u8]) -> (r: Result<u16, RigError>)
        ensures
            agrees(r, Self::spec_parse_response(bytes@)),
    {
        match validate_response(bytes, get_reflected_voltage_id_bytes(), 3) {
            Ok(d) => {
                proof {
                    lemma_leading_value_bound(d@);
                    lemma_pow10_values();
                }
                u16_from_ascii(d)
            },
            Err(e) => Err(e),
        }
    }
}

/// A `GetReflectedVoltage` reply of 3 value bytes reads as the decimal number they spell; a value with a
/// byte that is not a digit is an `InvalidResponseData` error holding the value.
pub proof fn lemma_get_reflected_voltage_reply(v: Seq<u8>)
    requires
        v.len() == 3,
    ensures
        all_digits(v) && digits_value(v) <= u16::MAX ==> GetReflectedVoltage::spec_parse_response(frame(get_reflected_voltage_id(), v)) == Ok::<u16, Failure>(digits_value(v) as u16),
        !all_digits(v) ==> GetReflectedVoltage::spec_parse_response(frame(get_reflected_voltage_id(), v)) == Err::<u16, Failure>(Failure::ResponseData(v)),
{
    lemma_framed_value_reads_back(get_reflected_voltage_id(), v);
}

/// `VSWR`
pub open spec fn get_swr_id() -> Seq<u8> {
    seq![0x56, 0x53, 0x57, 0x52]
}

fn get_swr_id_bytes() -> (r: &'static [u8])
    ensures
        r@ == get_swr_id(),
{
    &[0x56, 0x53, 0x57, 0x52]
}

/// Get the computed standing wave ratio (`VSWR`).
#[derive(Clone, Copy, Debug, PartialEq, Eq)]
pub struct GetSwr;

impl GetSwr {
    pub fn to_bytes(&self) -> (r: Vec<u8>)
        ensures
            r@ == frame(get_swr_id(), seq![]),
    {
        let none: [u8; 0] = [];
        frame_command(get_swr_id_bytes(), &none)
    }

    pub open spec fn spec_parse_response(bytes: Seq<u8>) -> Result<u16, Failure> {
        match spec_validate_response(bytes, get_swr_id(), 3) {
            Ok(v) => spec_u16_field(v),
            Err(f) => Err(f),
        }
    }

    pub fn parse(&self, bytes: &[u8]) -> (r: Result<u16, RigError>)
        ensures
            agrees(r, Self::spec_parse_response(bytes@)),
    {
        match validate_response(bytes, get_swr_id_bytes(), 3) {
            Ok(d) => {
                proof {
                    lemma_leading_value_bound(d@);
                    lemma_pow10_values();
                }
                u16_from_ascii(d)
            },
            Err(e) => Err(e),
        }
    }
}

/// A `GetSwr` reply of 3 value bytes reads as the decimal number they spell; a value with a
/// byte that is not a digit is an `InvalidResponseData` error holding the value.
pub proof fn lemma_get_swr_reply(v: Seq<u8>)
    requires
        v.len() == 3,
    ensures
        all_digits(v) && digits_value(v) <= u16::MAX ==> GetSwr::spec_parse_response(frame(get_swr_id(), v)) == Ok::<u16, Failure>(digits_value(v) as u16),
        !all_digits(v) ==> GetSwr::spec_parse_response(frame(get_swr_id(), v)) == Err::<u16, Failure>(Failure::ResponseData(v)),
{
    lemma_framed_value_reads_back(get_swr_id(), v);
}

/// `VSWRB`
pub open spec fn get_swr_bypass_threshold_id() -> Seq<u8> {
    seq![0x56, 0x53, 0x57, 0x52, 0x42]
}

fn get_swr_bypass_threshold_id_bytes() -> (r: &'static [u8])
    ensures
        r@ == get_swr_bypass_threshold_id(),
{
    &[0x56, 0x53, 0x57, 0x52, 0x42]
}

/// Get the SWR threshold above which bypass is engaged (`VSWRB`).
#[derive(Clone, Copy, Debug, PartialEq, Eq)]
pub struct GetSwrBypassThreshold;

impl GetSwrBypassThreshold {
    pub fn to_bytes(&self) -> (r: Vec<u8>)
        ensures
            r@ == frame(get_swr_bypass_threshold_id(), seq![]),
    {
        let none: [u8; 0] = [];
        frame_command(get_swr_bypass_threshold_id_bytes(), &none)
    }

    pub open spec fn spec_parse_response(bytes: Seq<u8>) -> Result<u16, Failure> {
        match spec_validate_response(bytes, get_swr_bypass_threshold_id(), 3) {
            Ok(v) => spec_u16_field(v),
            Err(f) => Err(f),
        }
    }

    pub fn parse(&self, bytes: &[u8]) -> (r: Result<u16, RigError>)
        ensures
            agrees(r, Self::spec_parse_response(bytes@)),
    {
        match validate_response(bytes, get_swr_bypass_threshold_id_bytes(), 3) {
            Ok(d) => {
                proof {
                    lemma_leading_value_bound(d@);
                    lemma_pow10_values();
                }
                u16_from_ascii(d)
            },
            Err(e) => Err(e),
        }
    }
}

/// A `GetSwrBypassThreshold` reply of 3 value bytes reads as the decimal number they spell; a value with a
/// byte that is not a digit is an `InvalidResponseData` error holding the value.
pub proof fn lemma_get_swr_bypass_threshold_reply(v: Seq<u8>)
    requires
        v.len() == 3,
    ensures
        all_digits(v) && digits_value(v) <= u16::MAX ==> GetSwrBypassThreshold::spec_parse_response(frame(get_swr_bypass_threshold_id(), v)) == Ok::<u16, Failure>(digits_value(v) as u16),
        !all_digits(v) ==> GetSwrBypassThreshold::spec_parse_response(frame(get_swr_bypass_threshold_id(), v)) == Err::<u16, Failure>(Failure::ResponseData(v)),
{
    lemma_framed_value_reads_back(get_swr_bypass_threshold_id(), v);
}

/// `VSWRB`
pub open spec fn set_swr_bypass_threshold_id() -> Seq<u8> {
    seq![0x56, 0x53, 0x57, 0x52, 0x42]
}

fn set_swr_bypass_threshold_id_bytes() -> (r: &'static [u8])
    ensures
        r@ == set_swr_bypass_threshold_id(),
{
    &[0x56, 0x53, 0x57, 0x52, 0x42]
}

/// Set the SWR threshold above which bypass is engaged (`VSWRB`).
#[derive(Clone, Copy, Debug, PartialEq, Eq)]
pub struct SetSwrBypassThreshold {
    pub swr_d: u16,
}

impl SetSwrBypassThreshold {
    pub open spec fn spec_args(self) -> Seq<u8> {
        padded_decimal(self.swr_d as nat, 3)
    }

    pub fn to_bytes(&self) -> (r: Vec<u8>)
        ensures
            r@ == frame(set_swr_bypass_threshold_id(), self.spec_args()),
    {
        let args = format_uint_ascii(self.swr_d as u64, 3);
        frame_command(set_swr_bypass_threshold_id_bytes(), args.as_slice())
    }
}

/// `SetSwrBypassThreshold` sends `swr_d` as decimal digits, zero-padded to 3 digits when it fits in 3.
pub proof fn lemma_set_swr_bypass_threshold_argument(s: SetSwrBypassThreshold)
    ensures
        all_digits(s.spec_args()),
        digits_value(s.spec_args()) == s.swr_d,
        (s.swr_d as nat) < pow10(3) ==> s.spec_args().len() == 3,
        s.spec_args().len() >= 3,
{
    lemma_padded_decimal_value(s.swr_d as nat, 3);
    if (s.swr_d as nat) < pow10(3) {
        lemma_num_digits_le(s.swr_d as nat, 3);
    }
}

/// `F`
pub open spec fn get_frequency_id() -> Seq<u8> {
    seq![0x46]
}

fn get_frequency_id_bytes() -> (r: &'static [u8])
    ensures
        r@ == get_frequency_id(),
{
    &[0x46]
}

/// Get the operating frequency in hertz: `F;`, answered by `F{nnnnnnnn};`.
#[derive(Clone, Copy, Debug, PartialEq, Eq)]
pub struct GetFrequency;

impl GetFrequency {
    pub fn to_bytes(&self) -> (r: Vec<u8>)
        ensures
            r@ == frame(get_frequency_id(), seq![]),
    {
        let none: [u8; 0] = [];
        frame_command(get_frequency_id_bytes(), &none)
    }

    /// What `parse` gives: the eight digits read as hertz.
    pub open spec fn spec_parse_response(bytes: Seq<u8>) -> Result<Frequency, Failure> {
        match spec_validate_response(bytes, get_frequency_id(), 8) {
            Ok(v) => match spec_u32_field(v) {
                Ok(hz) => Ok(Frequency(hz as u64)),
                Err(f) => Err(f),
            },
            Err(f) => Err(f),
        }
    }

    pub fn parse(&self, bytes: &[u8]) -> (r: Result<Frequency, RigError>)
        ensures
            agrees(r, Self::spec_parse_response(bytes@)),
    {
        match validate_response(bytes, get_frequency_id_bytes(), 8) {
            Ok(d) => {
                proof {
                    lemma_leading_value_bound(d@);
                    lemma_pow10_values();
                }
                match u32_from_ascii(d) {
                    Ok(hz) => Ok(Frequency(hz as u64)),
                    Err(e) => Err(e),
                }
            },
            Err(e) => Err(e),
        }
    }
}

/// `F`
pub open spec fn set_frequency_id() -> Seq<u8> {
    seq![0x46]
}

fn set_frequency_id_bytes() -> (r: &'static [u8])
    ensures
        r@ == set_frequency_id(),
{
    &[0x46]
}

/// Set the operating frequency in hertz: `F{nnnnnnnn};`.
#[derive(Clone, Copy, Debug, PartialEq, Eq)]
pub struct SetFrequency {
    pub freq_hz: Frequency,
}

impl SetFrequency {
    pub fn to_bytes(&self) -> (r: Vec<u8>)
        ensures
            r@ == frame(set_frequency_id(), padded_decimal(self.freq_hz.0 as nat, 8)),
    {
        let args = format_uint_ascii(self.freq_hz.0, 8);
        frame_command(set_frequency_id_bytes(), args.as_slice())
    }
}

/// A frequency below 100 MHz set with `F` reads back unchanged from the echoed reply.
pub proof fn lemma_frequency_round_trip(freq_hz: Frequency)
    requires
        freq_hz.0 < 100_000_000,
    ensures
        GetFrequency::spec_parse_response(frame(set_frequency_id(), padded_decimal(freq_hz.0 as nat, 8)))
            == Ok::<Frequency, Failure>(freq_hz),
{
    let args = padded_decimal(freq_hz.0 as nat, 8);
    lemma_padded_decimal_value(freq_hz.0 as nat, 8);
    lemma_pow10_values();
    lemma_num_digits_le(freq_hz.0 as nat, 8);
    let bytes = frame(set_frequency_id(), args);
    assert(bytes.take(1) =~= get_frequency_id());
    assert(response_value(bytes, get_frequency_id()) =~= args);
}

// ------------------------------------------------------------------------------------------------
// Reading back what was set
// ------------------------------------------------------------------------------------------------

/// The reply that echoes a `SetAutoBypassState` command reads as the state that was set.
pub proof fn lemma_auto_bypass_state_round_trip(state: bool)
    ensures
        GetAutoBypassState::spec_parse_response(frame(set_auto_bypass_state_id(), (SetAutoBypassState { state: state }).spec_args()))
            == Ok::<bool, Failure>(state),
{
    let args = (SetAutoBypassState { state: state }).spec_args();
    let bytes = frame(set_auto_bypass_state_id(), args);
    assert(bytes.take(2) =~= get_auto_bypass_state_id());
    assert(response_value(bytes, get_auto_bypass_state_id()) =~= args);
}

/// The reply that echoes a `SetAutoEnableState` command reads as the state that was set.
pub proof fn lemma_auto_enable_state_round_trip(state: bool)
    ensures
        GetAutoEnableState::spec_parse_response(frame(set_auto_enable_state_id(), (SetAutoEnableState { state: state }).spec_args()))
            == Ok::<bool, Failure>(state),
{
    let args = (SetAutoEnableState { state: state }).spec_args();
    let bytes = frame(set_auto_enable_state_id(), args);
    assert(bytes.take(2) =~= get_auto_enable_state_id());
    assert(response_value(bytes, get_auto_enable_state_id()) =~= args);
}

/// The reply that echoes a `SetKeepInPlaceState` command reads as the state that was set.
pub proof fn lemma_keep_in_place_state_round_trip(state: bool)
    ensures
        GetKeepInPlaceState::spec_parse_response(frame(set_keep_in_place_state_id(), (SetKeepInPlaceState { state: state }).spec_args()))
            == Ok::<bool, Failure>(state),
{
    let args = (SetKeepInPlaceState { state: state }).spec_args();
    let bytes = frame(set_keep_in_place_state_id(), args);
    assert(bytes.take(4) =~= get_keep_in_place_state_id());
    assert(response_value(bytes, get_keep_in_place_state_id()) =~= args);
}

/// The reply that echoes a `SetAmplifierInterfaceRelayClosedState` command reads as the value that was set.
pub proof fn lemma_amplifier_interface_relay_closed_state_round_trip(value: AmplifierInterfaceRelayState)
    ensures
        GetAmplifierInterfaceRelayClosedState::spec_parse_response(frame(set_amplifier_interface_relay_closed_state_id(), (SetAmplifierInterfaceRelayClosedState { state: value }).spec_args()))
            == Ok::<AmplifierInterfaceRelayState, Failure>(value),
{
    let args = (SetAmplifierInterfaceRelayClosedState { state: value }).spec_args();
    let bytes = frame(set_amplifier_interface_relay_closed_state_id(), args);
    assert(bytes.take(4) =~= get_amplifier_interface_relay_closed_state_id());
    assert(response_value(bytes, get_amplifier_interface_relay_closed_state_id()) =~= args);
}

/// The reply that echoes a `SetAntennaSelection` command reads as the value that was set.
pub proof fn lemma_antenna_selection_round_trip(value: SelectedAntenna)
    ensures
        GetAntennaSelection::spec_parse_response(frame(set_antenna_selection_id(), (SetAntennaSelection { antenna: value }).spec_args()))
            == Ok::<SelectedAntenna, Failure>(value),
{
    let args = (SetAntennaSelection { antenna: value }).spec_args();
    let bytes = frame(set_antenna_selection_id(), args);
    assert(bytes.take(2) =~= get_antenna_selection_id());
    assert(response_value(bytes, get_antenna_selection_id()) =~= args);
}

/// A value set with `SetPresetSlotNumber` reads back unchanged from the echoed reply.
pub proof fn lemma_preset_slot_number_round_trip(value: u16)
    requires
        value < 1000,
    ensures
        GetPresetSlotNumber::spec_parse_response(frame(set_preset_slot_number_id(), (SetPresetSlotNumber { slot_number: value }).spec_args())) == Ok::<u16, Failure>(value),
{
    let args = (SetPresetSlotNumber { slot_number: value }).spec_args();
    lemma_padded_decimal_value(value as nat, 3);
    lemma_pow10_values();
    lemma_num_digits_le(value as nat, 3);
    let bytes = frame(set_preset_slot_number_id(), args);
    assert(bytes.take(2) =~= get_preset_slot_number_id());
    assert(response_value(bytes, get_preset_slot_number_id()) =~= args);
}

/// The reply that echoes a `SetAttenuatorState` command reads as the state that was set.
pub proof fn lemma_attenuator_state_round_trip(state: bool)
    ensures
        GetAttenuatorState::spec_parse_response(frame(set_attenuator_state_id(), (SetAttenuatorState { state: state }).spec_args()))
            == Ok::<bool, Failure>(state),
{
    let args = (SetAttenuatorState { state: state }).spec_args();
    let bytes = frame(set_attenuator_state_id(), args);
    assert(bytes.take(4) =~= get_attenuator_state_id());
    assert(response_value(bytes, get_attenuator_state_id()) =~= args);
}

/// A value set with `SetBand` reads back unchanged from the echoed reply.
pub proof fn lemma_band_round_trip(value: u8)
    requires
        value < 100,
        value <= 13,
    ensures
        GetBand::spec_parse_response(frame(set_band_id(), uint_args(value as u32, 2))) == Ok::<u8, Failure>(value),
{
    let args = uint_args(value as u32, 2);
    lemma_padded_decimal_value(value as nat, 2);
    lemma_pow10_values();
    lemma_num_digits_le(value as nat, 2);
    let bytes = frame(set_band_id(), args);
    assert(bytes.take(2) =~= get_band_id());
    assert(response_value(bytes, get_band_id()) =~= args);
}

/// The reply that echoes a `SetBaudRate` command reads as the value that was set.
pub proof fn lemma_baud_rate_round_trip(value: BaudRate)
    ensures
        GetBaudRate::spec_parse_response(frame(set_baud_rate_id(), (SetBaudRate { baud_rate: value }).spec_args()))
            == Ok::<BaudRate, Failure>(value),
{
    let args = (SetBaudRate { baud_rate: value }).spec_args();
    let bytes = frame(set_baud_rate_id(), args);
    assert(bytes.take(3) =~= get_baud_rate_id());
    assert(response_value(bytes, get_baud_rate_id()) =~= args);
}

/// A value set with `SetCapacitorValue` reads back unchanged from the echoed reply.
pub proof fn lemma_capacitor_value_round_trip(value: u8)
    requires
        value < 1000,
    ensures
        GetCapacitorValue::spec_parse_response(frame(set_capacitor_value_id(), (SetCapacitorValue { value: value }).spec_args())) == Ok::<u8, Failure>(value),
{
    let args = (SetCapacitorValue { value: value }).spec_args();
    lemma_padded_decimal_value(value as nat, 3);
    lemma_pow10_values();
    lemma_num_digits_le(value as nat, 3);
    let bytes = frame(set_capacitor_value_id(), args);
    assert(bytes.take(1) =~= get_capacitor_value_id());
    assert(response_value(bytes, get_capacitor_value_id()) =~= args);
}

/// The reply that echoes a `SetCapacitorTopology` command reads as the value that was set.
pub proof fn lemma_capacitor_topology_round_trip(value: CapacitorTopology)
    ensures
        GetCapacitorTopology::spec_parse_response(frame(set_capacitor_topology_id(), (SetCapacitorTopology { topology: value }).spec_args()))
            == Ok::<CapacitorTopology, Failure>(value),
{
    let args = (SetCapacitorTopology { topology: value }).spec_args();
    let bytes = frame(set_capacitor_topology_id(), args);
    assert(bytes.take(2) =~= get_capacitor_topology_id());
    assert(response_value(bytes, get_capacitor_topology_id()) =~= args);
}

/// The reply that echoes a `SetDemoModeState` command reads as the state that was set.
pub proof fn lemma_demo_mode_state_round_trip(state: bool)
    ensures
        GetDemoModeState::spec_parse_response(frame(set_demo_mode_state_id(), (SetDemoModeState { state: state }).spec_args()))
            == Ok::<bool, Failure>(state),
{
    let args = (SetDemoModeState { state: state }).spec_args();
    let bytes = frame(set_demo_mode_state_id(), args);
    assert(bytes.take(2) =~= get_demo_mode_state_id());
    assert(response_value(bytes, get_demo_mode_state_id()) =~= args);
}

/// A value set with `SetFanThreshold` reads back unchanged from the echoed reply.
pub proof fn lemma_fan_threshold_round_trip(value: u16)
    requires
        value < 1000,
    ensures
        GetFanThreshold::spec_parse_response(frame(set_fan_threshold_id(), (SetFanThreshold { threshold_w: value }).spec_args())) == Ok::<u16, Failure>(value),
{
    let args = (SetFanThreshold { threshold_w: value }).spec_args();
    lemma_padded_decimal_value(value as nat, 3);
    lemma_pow10_values();
    lemma_num_digits_le(value as nat, 3);
    let bytes = frame(set_fan_threshold_id(), args);
    assert(bytes.take(2) =~= get_fan_threshold_id());
    assert(response_value(bytes, get_fan_threshold_id()) =~= args);
}

/// A value set with `SetFaultDelayTime` reads back unchanged from the echoed reply.
pub proof fn lemma_fault_delay_time_round_trip(value: u16)
    requires
        value < 1000,
    ensures
        GetFaultDelayTime::spec_parse_response(frame(set_fault_delay_time_id(), (SetFaultDelayTime { delay_ms: value }).spec_args())) == Ok::<u16, Failure>(value),
{
    let args = (SetFaultDelayTime { delay_ms: value }).spec_args();
    lemma_padded_decimal_value(value as nat, 3);
    lemma_pow10_values();
    lemma_num_digits_le(value as nat, 3);
    let bytes = frame(set_fault_delay_time_id(), args);
    assert(bytes.take(3) =~= get_fault_delay_time_id());
    assert(response_value(bytes, get_fault_delay_time_id()) =~= args);
}

/// A value set with `SetTuneSatisfiedSwrThreshold` reads back unchanged from the echoed reply.
pub proof fn lemma_tune_satisfied_swr_threshold_round_trip(value: u16)
    requires
        value < 1000,
    ensures
        GetTuneSatisfiedSwrThreshold::spec_parse_response(frame(set_tune_satisfied_swr_threshold_id(), (SetTuneSatisfiedSwrThreshold { swr: value }).spec_args())) == Ok::<u16, Failure>(value),
{
    let args = (SetTuneSatisfiedSwrThreshold { swr: value }).spec_args();
    lemma_padded_decimal_value(value as nat, 3);
    lemma_pow10_values();
    lemma_num_digits_le(value as nat, 3);
    let bytes = frame(set_tune_satisfied_swr_threshold_id(), args);
    assert(bytes.take(4) =~= get_tune_satisfied_swr_threshold_id());
    assert(response_value(bytes, get_tune_satisfied_swr_threshold_id()) =~= args);
}

/// A value set with `SetFaultSwrThresholdLow` reads back unchanged from the echoed reply.
pub proof fn lemma_fault_swr_threshold_low_round_trip(value: u16)
    requires
        value < 1000,
    ensures
        GetFaultSwrThresholdLow::spec_parse_response(frame(set_fault_swr_threshold_low_id(), (SetFaultSwrThresholdLow { swr_d: value }).spec_args())) == Ok::<u16, Failure>(value),
{
    let args = (SetFaultSwrThresholdLow { swr_d: value }).spec_args();
    lemma_padded_decimal_value(value as nat, 3);
    lemma_pow10_values();
    lemma_num_digits_le(value as nat, 3);
    let bytes = frame(set_fault_swr_threshold_low_id(), args);
    assert(bytes.take(3) =~= get_fault_swr_threshold_low_id());
    assert(response_value(bytes, get_fault_swr_threshold_low_id()) =~= args);
}

/// A value set with `SetFaultSwrThresholdHigh` reads back unchanged from the echoed reply.
pub proof fn lemma_fault_swr_threshold_high_round_trip(value: u16)
    requires
        value < 1000,
    ensures
        GetFaultSwrThresholdHigh::spec_parse_response(frame(set_fault_swr_threshold_high_id(), (SetFaultSwrThresholdHigh { swr_d: value }).spec_args())) == Ok::<u16, Failure>(value),
{
    let args = (SetFaultSwrThresholdHigh { swr_d: value }).spec_args();
    lemma_padded_decimal_value(value as nat, 3);
    lemma_pow10_values();
    lemma_num_digits_le(value as nat, 3);
    let bytes = frame(set_fault_swr_threshold_high_id(), args);
    assert(bytes.take(3) =~= get_fault_swr_threshold_high_id());
    assert(response_value(bytes, get_fault_swr_threshold_high_id()) =~= args);
}

/// The reply that echoes a `SetFixedLcState` command reads as the state that was set.
pub proof fn lemma_fixed_lc_state_round_trip(state: bool)
    ensures
        GetFixedLcState::spec_parse_response(frame(set_fixed_lc_state_id(), (SetFixedLcState { state: state }).spec_args()))
            == Ok::<bool, Failure>(state),
{
    let args = (SetFixedLcState { state: state }).spec_args();
    let bytes = frame(set_fixed_lc_state_id(), args);
    assert(bytes.take(2) =~= get_fixed_lc_state_id());
    assert(response_value(bytes, get_fixed_lc_state_id()) =~= args);
}

/// The reply that echoes a `SetFixedBypassState` command reads as the state that was set.
pub proof fn lemma_fixed_bypass_state_round_trip(state: bool)
    ensures
        GetFixedBypassState::spec_parse_response(frame(set_fixed_bypass_state_id(), (SetFixedBypassState { state: state }).spec_args()))
            == Ok::<bool, Failure>(state),
{
    let args = (SetFixedBypassState { state: state }).spec_args();
    let bytes = frame(set_fixed_bypass_state_id(), args);
    assert(bytes.take(2) =~= get_fixed_bypass_state_id());
    assert(response_value(bytes, get_fixed_bypass_state_id()) =~= args);
}

/// A value set with `SetInductanceTap` reads back unchanged from the echoed reply.
pub proof fn lemma_inductance_tap_round_trip(value: u8)
    requires
        value < 1000,
        value <= 63,
    ensures
        GetInductanceTap::spec_parse_response(frame(set_inductance_tap_id(), uint_args(value as u32, 3))) == Ok::<u8, Failure>(value),
{
    let args = uint_args(value as u32, 3);
    lemma_padded_decimal_value(value as nat, 3);
    lemma_pow10_values();
    lemma_num_digits_le(value as nat, 3);
    let bytes = frame(set_inductance_tap_id(), args);
    assert(bytes.take(1) =~= get_inductance_tap_id());
    assert(response_value(bytes, get_inductance_tap_id()) =~= args);
}

/// The reply that echoes a `SetInhibitFan` command reads as the state that was set.
pub proof fn lemma_inhibit_fan_round_trip(state: bool)
    ensures
        GetInhibitFan::spec_parse_response(frame(set_inhibit_fan_id(), (SetInhibitFan { inhibit: state }).spec_args()))
            == Ok::<bool, Failure>(state),
{
    let args = (SetInhibitFan { inhibit: state }).spec_args();
    let bytes = frame(set_inhibit_fan_id(), args);
    assert(bytes.take(2) =~= get_inhibit_fan_id());
    assert(response_value(bytes, get_inhibit_fan_id()) =~= args);
}

/// A value set with `SetInductorSwitch` reads back unchanged from the echoed reply.
pub proof fn lemma_inductor_switch_round_trip(value: u8)
    requires
        value < 1000,
    ensures
        GetInductorSwitch::spec_parse_response(frame(set_inductor_switch_id(), (SetInductorSwitch { mask: value }).spec_args())) == Ok::<u8, Failure>(value),
{
    let args = (SetInductorSwitch { mask: value }).spec_args();
    lemma_padded_decimal_value(value as nat, 3);
    lemma_pow10_values();
    lemma_num_digits_le(value as nat, 3);
    let bytes = frame(set_inductor_switch_id(), args);
    assert(bytes.take(1) =~= get_inductor_switch_id());
    assert(response_value(bytes, get_inductor_switch_id()) =~= args);
}

/// The reply that echoes a `SetOperatingMode` command reads as the value that was set.
pub proof fn lemma_operating_mode_round_trip(value: OperatingMode)
    ensures
        GetOperatingMode::spec_parse_response(frame(set_operating_mode_id(), (SetOperatingMode { mode: value }).spec_args()))
            == Ok::<OperatingMode, Failure>(value),
{
    let args = (SetOperatingMode { mode: value }).spec_args();
    let bytes = frame(set_operating_mode_id(), args);
    assert(bytes.take(2) =~= get_operating_mode_id());
    assert(response_value(bytes, get_operating_mode_id()) =~= args);
}

/// The reply that echoes a `SetMeterType` command reads as the value that was set.
pub proof fn lemma_meter_type_round_trip(value: MeterType)
    ensures
        GetMeterType::spec_parse_response(frame(set_meter_type_id(), (SetMeterType { meter: value }).spec_args()))
            == Ok::<MeterType, Failure>(value),
{
    let args = (SetMeterType { meter: value }).spec_args();
    let bytes = frame(set_meter_type_id(), args);
    assert(bytes.take(2) =~= get_meter_type_id());
    assert(response_value(bytes, get_meter_type_id()) =~= args);
}

/// The reply that echoes a `SetAntennaSideSelection` command reads as the value that was set.
pub proof fn lemma_antenna_side_selection_round_trip(value: AntennaSide)
    ensures
        GetAntennaSideSelection::spec_parse_response(frame(set_antenna_side_selection_id(), (SetAntennaSideSelection { side: value }).spec_args()))
            == Ok::<AntennaSide, Failure>(value),
{
    let args = (SetAntennaSideSelection { side: value }).spec_args();
    let bytes = frame(set_antenna_side_selection_id(), args);
    assert(bytes.take(4) =~= get_antenna_side_selection_id());
    assert(response_value(bytes, get_antenna_side_selection_id()) =~= args);
}

/// A value set with `SetTuningSpeedLimit` reads back unchanged from the echoed reply.
pub proof fn lemma_tuning_speed_limit_round_trip(value: u8)
    requires
        value < 10,
        value <= 9,
    ensures
        GetTuningSpeedLimit::spec_parse_response(frame(set_tuning_speed_limit_id(), uint_args(value as u32, 1))) == Ok::<u8, Failure>(value),
{
    let args = uint_args(value as u32, 1);
    lemma_padded_decimal_value(value as nat, 1);
    lemma_pow10_values();
    lemma_num_digits_le(value as nat, 1);
    let bytes = frame(set_tuning_speed_limit_id(), args);
    assert(bytes.take(2) =~= get_tuning_speed_limit_id());
    assert(response_value(bytes, get_tuning_speed_limit_id()) =~= args);
}

/// A value set with `SetTuningPower` reads back unchanged from the echoed reply.
pub proof fn lemma_tuning_power_round_trip(value: u16)
    requires
        value < 1000,
    ensures
        GetTuningPower::spec_parse_response(frame(set_tuning_power_id(), (SetTuningPower { power_w: value }).spec_args())) == Ok::<u16, Failure>(value),
{
    let args = (SetTuningPower { power_w: value }).spec_args();
    lemma_padded_decimal_value(value as nat, 3);
    lemma_pow10_values();
    lemma_num_digits_le(value as nat, 3);
    let bytes = frame(set_tuning_power_id(), args);
    assert(bytes.take(2) =~= get_tuning_power_id());
    assert(response_value(bytes, get_tuning_power_id()) =~= args);
}

/// A value set with `SetSwrBypassThreshold` reads back unchanged from the echoed reply.
pub proof fn lemma_swr_bypass_threshold_round_trip(value: u16)
    requires
        value < 1000,
    ensures
        GetSwrBypassThreshold::spec_parse_response(frame(set_swr_bypass_threshold_id(), (SetSwrBypassThreshold { swr_d: value }).spec_args())) == Ok::<u16, Failure>(value),
{
    let args = (SetSwrBypassThreshold { swr_d: value }).spec_args();
    lemma_padded_decimal_value(value as nat, 3);
    lemma_pow10_values();
    lemma_num_digits_le(value as nat, 3);
    let bytes = frame(set_swr_bypass_threshold_id(), args);
    assert(bytes.take(5) =~= get_swr_bypass_threshold_id());
    assert(response_value(bytes, get_swr_bypass_threshold_id()) =~= args);
}

} // verus!
