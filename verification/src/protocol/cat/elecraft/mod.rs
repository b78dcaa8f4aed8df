//! Commands for Elecraft products, covering the K and KX series transceivers.

use vstd::prelude::*;

use crate::error::ranges::Ranges;
use crate::error::{Failure, RigError, agrees, invalid_response_data, invalid_response_length};
use crate::modes::{AnalogVoiceMode, DataMode, MorseMode, OperatingMode};
use crate::protocol::cat::common::{spec_validate_response, validate_response};
use crate::protocol::cat::{frame, frame_command};

pub mod k2;
pub mod k3_kx;
pub mod k4;
pub mod kh1;
pub mod kat500;
pub mod kpa1500;
pub mod kpa500;
pub mod kxpa100;

verus! {

/// Identifies the VFO to which a command applies.
#[derive(Clone, Copy, Debug, PartialEq, Eq, Hash)]
pub enum Vfo {
    /// VFO-A, or primary; `0` on the wire.
    A,
    /// VFO-B, sometimes refers to a sub-receiver; `1` on the wire.
    B,
}

impl Vfo {
    pub open spec fn spec_byte(self) -> u8 {
        match self {
            Vfo::A => 0x30,
            Vfo::B => 0x31,
        }
    }

    /// The wire byte of the VFO.
    pub fn as_byte(&self) -> (b: u8)
        ensures
            b == self.spec_byte(),
    {
        match self {
            Vfo::A => 0x30,
            Vfo::B => 0x31,
        }
    }

    /// The VFO that a wire byte stands for.
    pub open spec fn spec_from_byte(b: u8) -> Option<Vfo> {
        if b == 0x30 {
            Some(Vfo::A)
        } else if b == 0x31 {
            Some(Vfo::B)
        } else {
            None
        }
    }

    /// The VFO that a wire byte stands for.
    pub fn from_repr(b: u8) -> (r: Option<Vfo>)
        ensures
            r == Self::spec_from_byte(b),
            r matches Some(v) ==> v.spec_byte() == b,
            r is None <==> (b != 0x30 && b != 0x31),
    {
        if b == 0x30 {
            Some(Vfo::A)
        } else if b == 0x31 {
            Some(Vfo::B)
        } else {
            None
        }
    }

    /// The displayed name, `VFO-A` or `VFO-B`.
    pub fn display_name(&self) -> (s: &'static str)
        ensures
            s@ == (match self {
                Vfo::A => "VFO-A"@,
                Vfo::B => "VFO-B"@,
            }),
    {
        match self {
            Vfo::A => "VFO-A",
            Vfo::B => "VFO-B",
        }
    }
}

/// The wire bytes of `Vfo`: A `0`, B `1`; no other byte stands for a variant.
pub proof fn lemma_vfo_wire_bytes()
    ensures
        Vfo::A.spec_byte() == 0x30,
        Vfo::B.spec_byte() == 0x31,
        Vfo::spec_from_byte(0x30) == Some(Vfo::A),
        Vfo::spec_from_byte(0x31) == Some(Vfo::B),
        forall|b: u8| #[trigger] Vfo::spec_from_byte(b) is Some ==> (b == 0x30 || b == 0x31),
{
}

// ------------------------------------------------------------------------------------------------
// Operating mode: `MD`, `MD$`
// ------------------------------------------------------------------------------------------------

/// The operating mode that an `MD` mode digit stands for.
pub open spec fn spec_mode_of_digit(b: u8) -> Option<OperatingMode> {
    if b == 0x31 {
        Some(OperatingMode::AnalogVoice(AnalogVoiceMode::LowerSideBand))
    } else if b == 0x32 {
        Some(OperatingMode::AnalogVoice(AnalogVoiceMode::UpperSideBand))
    } else if b == 0x33 {
        Some(OperatingMode::Morse(MorseMode::ContinuousWave))
    } else if b == 0x34 {
        Some(OperatingMode::AnalogVoice(AnalogVoiceMode::FrequencyModulated))
    } else if b == 0x35 {
        Some(OperatingMode::AnalogVoice(AnalogVoiceMode::AmplitudeModulated))
    } else if b == 0x36 || b == 0x39 {
        Some(OperatingMode::Data(DataMode::Unspecified))
    } else if b == 0x37 {
        Some(OperatingMode::Morse(MorseMode::ContinuousWaveReverse))
    } else {
        None
    }
}

/// The `MD` mode digits: `1` LSB, `2` USB, `3` CW, `4` FM, `5` AM, `6` and `9` data, `7` CW
/// reverse; no other byte is a mode.
pub proof fn lemma_mode_digits(b: u8)
    ensures
        spec_mode_of_digit(0x31) == Some(OperatingMode::AnalogVoice(AnalogVoiceMode::LowerSideBand)),
        spec_mode_of_digit(0x32) == Some(OperatingMode::AnalogVoice(AnalogVoiceMode::UpperSideBand)),
        spec_mode_of_digit(0x33) == Some(OperatingMode::Morse(MorseMode::ContinuousWave)),
        spec_mode_of_digit(0x34) == Some(
            OperatingMode::AnalogVoice(AnalogVoiceMode::FrequencyModulated),
        ),
        spec_mode_of_digit(0x35) == Some(
            OperatingMode::AnalogVoice(AnalogVoiceMode::AmplitudeModulated),
        ),
        spec_mode_of_digit(0x36) == Some(OperatingMode::Data(DataMode::Unspecified)),
        spec_mode_of_digit(0x39) == Some(OperatingMode::Data(DataMode::Unspecified)),
        spec_mode_of_digit(0x37) == Some(OperatingMode::Morse(MorseMode::ContinuousWaveReverse)),
        !(0x31 <= b <= 0x37 || b == 0x39) ==> spec_mode_of_digit(b) is None,
        OperatingMode::spec_try_from(seq![b]) == match spec_mode_of_digit(b) {
            Some(m) => Ok::<OperatingMode, Failure>(m),
            None => Err(Failure::ResponseData(seq![b])),
        },
{
}

impl OperatingMode {
    /// What `try_from` gives for a response value.
    pub open spec fn spec_try_from(value: Seq<u8>) -> Result<OperatingMode, Failure> {
        if value.len() != 1 {
            Err(Failure::ResponseLength(Ranges::Just(1), value.len() as usize))
        } else {
            match spec_mode_of_digit(value[0]) {
                Some(m) => Ok(m),
                None => Err(Failure::ResponseData(value)),
            }
        }
    }

    /// Reads the one-digit `MD` response value: `1` LSB, `2` USB, `3` CW, `4` FM, `5` AM, `6` and
    /// `9` data, `7` CW reverse.
    pub fn try_from(value: &[u8]) -> (r: Result<OperatingMode, RigError>)
        ensures
            agrees(r, Self::spec_try_from(value@)),
    {
        if value.len() != 1 {
            return Err(invalid_response_length(Ranges::Just(1), value.len()));
        }
        let b = value[0];
        if b == 0x31 {
            Ok(OperatingMode::AnalogVoice(AnalogVoiceMode::LowerSideBand))
        } else if b == 0x32 {
            Ok(OperatingMode::AnalogVoice(AnalogVoiceMode::UpperSideBand))
        } else if b == 0x33 {
            Ok(OperatingMode::Morse(MorseMode::ContinuousWave))
        } else if b == 0x34 {
            Ok(OperatingMode::AnalogVoice(AnalogVoiceMode::FrequencyModulated))
        } else if b == 0x35 {
            Ok(OperatingMode::AnalogVoice(AnalogVoiceMode::AmplitudeModulated))
        } else if b == 0x36 || b == 0x39 {
            Ok(OperatingMode::Data(DataMode::Unspecified))
        } else if b == 0x37 {
            Ok(OperatingMode::Morse(MorseMode::ContinuousWaveReverse))
        } else {
            Err(invalid_response_data(value))
        }
    }
}

/// Get the operating mode of a VFO: `MD;` for VFO A and `MD$;` for VFO B, answered by the
/// identifier and the mode digit.
#[derive(Clone, Copy, Debug, PartialEq, Eq)]
pub struct GetOperatingMode {
    pub vfo: Vfo,
}

impl GetOperatingMode {
    /// `MD` for VFO A, `MD$` for VFO B.
    pub open spec fn spec_command_id(self) -> Seq<u8> {
        match self.vfo {
            Vfo::A => seq![0x4D, 0x44],
            Vfo::B => seq![0x4D, 0x44, 0x24],
        }
    }

    pub fn command_id(&self) -> (r: &'static [u8])
        ensures
            r@ == self.spec_command_id(),
    {
        match self.vfo {
            Vfo::A => &[0x4D, 0x44],
            Vfo::B => &[0x4D, 0x44, 0x24],
        }
    }

    pub fn to_bytes(&self) -> (r: Vec<u8>)
        ensures
            r@ == frame(self.spec_command_id(), seq![]),
    {
        let none: [u8; 0] = [];
        frame_command(self.command_id(), &none)
    }

    pub fn parse(&self, bytes: &[u8]) -> (r: Result<OperatingMode, RigError>)
        ensures
            match spec_validate_response(bytes@, self.spec_command_id(), 1) {
                Err(f) => r matches Err(e) && e.fails_with(f),
                Ok(v) => agrees(r, OperatingMode::spec_try_from(v)),
            },
    {
        match validate_response(bytes, self.command_id(), 1) {
            Ok(d) => OperatingMode::try_from(d),
            Err(e) => Err(e),
        }
    }
}

} // verus!
