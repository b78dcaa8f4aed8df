//! Operating modes of a transceiver, grouped by family, with their conventional names.

use vstd::prelude::*;

verus! {

/// An operating mode, by family.
#[derive(Clone, Copy, Debug, PartialEq, Eq, PartialOrd, Ord, Hash)]
pub enum OperatingMode {
    Morse(MorseMode),
    AnalogVoice(AnalogVoiceMode),
    DigitalVoice(DigitalVoiceMode),
    Data(DataMode),
    Image(ImageMode),
}

/// Morse (CW) family modes.
#[derive(Clone, Copy, Debug, PartialEq, Eq, PartialOrd, Ord, Hash)]
pub enum MorseMode {
    /// `CW`
    ContinuousWave,
    /// `MCW`
    ModulatedContinuousWave,
    /// `CW-R`
    ContinuousWaveReverse,
    /// `FSK`
    FrequencyShiftKeyed,
}

impl MorseMode {
    /// The conventional name of the mode.
    pub open spec fn spec_name(self) -> Seq<char> {
        match self {
            MorseMode::ContinuousWave => "CW"@,
            MorseMode::ModulatedContinuousWave => "MCW"@,
            MorseMode::ContinuousWaveReverse => "CW-R"@,
            MorseMode::FrequencyShiftKeyed => "FSK"@,
        }
    }

    /// The conventional name of the mode.
    pub fn name(&self) -> (s: &'static str)
        ensures
            s@ == self.spec_name(),
    {
        match self {
            MorseMode::ContinuousWave => "CW",
            MorseMode::ModulatedContinuousWave => "MCW",
            MorseMode::ContinuousWaveReverse => "CW-R",
            MorseMode::FrequencyShiftKeyed => "FSK",
        }
    }
}

/// Analog voice modes.
#[derive(Clone, Copy, Debug, PartialEq, Eq, PartialOrd, Ord, Hash)]
pub enum AnalogVoiceMode {
    /// `AM`
    AmplitudeModulated,
    /// `FM`
    FrequencyModulated,
    /// `PM`
    PhaseModulated,
    /// `WFM`
    WidebandFrequencyModulated,
    /// `LSB`
    LowerSideBand,
    /// `USB`
    UpperSideBand,
    /// `SSB`
    SingleSideBand,
}

impl AnalogVoiceMode {
    /// The conventional name of the mode.
    pub open spec fn spec_name(self) -> Seq<char> {
        match self {
            AnalogVoiceMode::AmplitudeModulated => "AM"@,
            AnalogVoiceMode::FrequencyModulated => "FM"@,
            AnalogVoiceMode::PhaseModulated => "PM"@,
            AnalogVoiceMode::WidebandFrequencyModulated => "WFM"@,
            AnalogVoiceMode::LowerSideBand => "LSB"@,
            AnalogVoiceMode::UpperSideBand => "USB"@,
            AnalogVoiceMode::SingleSideBand => "SSB"@,
        }
    }

    /// The conventional name of the mode.
    pub fn name(&self) -> (s: &'static str)
        ensures
            s@ == self.spec_name(),
    {
        match self {
            AnalogVoiceMode::AmplitudeModulated => "AM",
            AnalogVoiceMode::FrequencyModulated => "FM",
            AnalogVoiceMode::PhaseModulated => "PM",
            AnalogVoiceMode::WidebandFrequencyModulated => "WFM",
            AnalogVoiceMode::LowerSideBand => "LSB",
            AnalogVoiceMode::UpperSideBand => "USB",
            AnalogVoiceMode::SingleSideBand => "SSB",
        }
    }
}

/// Digital voice modes.
#[derive(Clone, Copy, Debug, PartialEq, Eq, PartialOrd, Ord, Hash)]
pub enum DigitalVoiceMode {
    /// `D-STAR`
    DStar,
    /// `FreeDV`
    FreeDV,
    /// `DMR`
    DigitalMobileRadio,
    /// `Fusion`
    SystemFusion,
}

impl DigitalVoiceMode {
    /// The conventional name of the mode.
    pub open spec fn spec_name(self) -> Seq<char> {
        match self {
            DigitalVoiceMode::DStar => "D-STAR"@,
            DigitalVoiceMode::FreeDV => "FreeDV"@,
            DigitalVoiceMode::DigitalMobileRadio => "DMR"@,
            DigitalVoiceMode::SystemFusion => "Fusion"@,
        }
    }

    /// The conventional name of the mode.
    pub fn name(&self) -> (s: &'static str)
        ensures
            s@ == self.spec_name(),
    {
        match self {
            DigitalVoiceMode::DStar => "D-STAR",
            DigitalVoiceMode::FreeDV => "FreeDV",
            DigitalVoiceMode::DigitalMobileRadio => "DMR",
            DigitalVoiceMode::SystemFusion => "Fusion",
        }
    }
}

/// Image modes.
#[derive(Clone, Copy, Debug, PartialEq, Eq, PartialOrd, Ord, Hash)]
pub enum ImageMode {
    /// `FSTV`
    FastScanTelevision,
    /// `SSTV`
    SlowScanTelevision,
    /// `Fax`
    Facsimile,
}

impl ImageMode {
    /// The conventional name of the mode.
    pub open spec fn spec_name(self) -> Seq<char> {
        match self {
            ImageMode::FastScanTelevision => "FSTV"@,
            ImageMode::SlowScanTelevision => "SSTV"@,
            ImageMode::Facsimile => "Fax"@,
        }
    }

    /// The conventional name of the mode.
    pub fn name(&self) -> (s: &'static str)
        ensures
            s@ == self.spec_name(),
    {
        match self {
            ImageMode::FastScanTelevision => "FSTV",
            ImageMode::SlowScanTelevision => "SSTV",
            ImageMode::Facsimile => "Fax",
        }
    }
}

/// Data modes.
#[derive(Clone, Copy, Debug, PartialEq, Eq, PartialOrd, Ord, Hash)]
pub enum DataMode {
    /// `RTTY`
    RadioTeletype,
    /// `RTTY-R`
    RadioTeletypeReverse,
    /// `FT8`
    FT8,
    /// `FT4`
    FT4,
    /// `Unspecified`
    Unspecified,
}

impl DataMode {
    /// The conventional name of the mode.
    pub open spec fn spec_name(self) -> Seq<char> {
        match self {
            DataMode::RadioTeletype => "RTTY"@,
            DataMode::RadioTeletypeReverse => "RTTY-R"@,
            DataMode::FT8 => "FT8"@,
            DataMode::FT4 => "FT4"@,
            DataMode::Unspecified => "Unspecified"@,
        }
    }

    /// The conventional name of the mode.
    pub fn name(&self) -> (s: &'static str)
        ensures
            s@ == self.spec_name(),
    {
        match self {
            DataMode::RadioTeletype => "RTTY",
            DataMode::RadioTeletypeReverse => "RTTY-R",
            DataMode::FT8 => "FT8",
            DataMode::FT4 => "FT4",
            DataMode::Unspecified => "Unspecified",
        }
    }
}

/// The direction of a repeater's transmit offset.
#[derive(Clone, Copy, Debug, PartialEq, Eq, PartialOrd, Ord, Hash)]
pub enum RepeaterDuplexOffset {
    /// `DUP+`
    Plus,
    /// `DUP-`
    Minus,
}

impl RepeaterDuplexOffset {
    /// The conventional name of the offset.
    pub fn name(&self) -> (s: &'static str)
        ensures
            s@ == (match self {
                RepeaterDuplexOffset::Plus => "DUP+"@,
                RepeaterDuplexOffset::Minus => "DUP-"@,
            }),
    {
        match self {
            RepeaterDuplexOffset::Plus => "DUP+",
            RepeaterDuplexOffset::Minus => "DUP-",
        }
    }
}

impl OperatingMode {
    /// The displayed name: the name of the mode within its family.
    pub open spec fn spec_name(self) -> Seq<char> {
        match self {
            OperatingMode::Morse(m) => m.spec_name(),
            OperatingMode::AnalogVoice(m) => m.spec_name(),
            OperatingMode::DigitalVoice(m) => m.spec_name(),
            OperatingMode::Data(m) => m.spec_name(),
            OperatingMode::Image(m) => m.spec_name(),
        }
    }

    /// The displayed name: the name of the mode within its family.
    pub fn display_name(&self) -> (s: &'static str)
        ensures
            s@ == self.spec_name(),
    {
        match self {
            OperatingMode::Morse(m) => m.name(),
            OperatingMode::AnalogVoice(m) => m.name(),
            OperatingMode::DigitalVoice(m) => m.name(),
            OperatingMode::Data(m) => m.name(),
            OperatingMode::Image(m) => m.name(),
        }
    }

    pub fn is_morse(&self) -> (r: bool)
        ensures
            r == (self is Morse),
    {
        match self {
            OperatingMode::Morse(_) => true,
            _ => false,
        }
    }

    pub fn try_as_morse(&self) -> (r: Option<MorseMode>)
        ensures
            match self {
                OperatingMode::Morse(m) => r == Some(*m),
                _ => r is None,
            },
    {
        match self {
            OperatingMode::Morse(m) => Some(*m),
            _ => None,
        }
    }

    pub fn is_analog_voice(&self) -> (r: bool)
        ensures
            r == (self is AnalogVoice),
    {
        match self {
            OperatingMode::AnalogVoice(_) => true,
            _ => false,
        }
    }

    pub fn try_as_analog_voice(&self) -> (r: Option<AnalogVoiceMode>)
        ensures
            match self {
                OperatingMode::AnalogVoice(m) => r == Some(*m),
                _ => r is None,
            },
    {
        match self {
            OperatingMode::AnalogVoice(m) => Some(*m),
            _ => None,
        }
    }

    pub fn is_digital_voice(&self) -> (r: bool)
        ensures
            r == (self is DigitalVoice),
    {
        match self {
            OperatingMode::DigitalVoice(_) => true,
            _ => false,
        }
    }

    pub fn try_as_digital_voice(&self) -> (r: Option<DigitalVoiceMode>)
        ensures
            match self {
                OperatingMode::DigitalVoice(m) => r == Some(*m),
                _ => r is None,
            },
    {
        match self {
            OperatingMode::DigitalVoice(m) => Some(*m),
            _ => None,
        }
    }

    pub fn is_image(&self) -> (r: bool)
        ensures
            r == (self is Image),
    {
        match self {
            OperatingMode::Image(_) => true,
            _ => false,
        }
    }

    pub fn try_as_image(&self) -> (r: Option<ImageMode>)
        ensures
            match self {
                OperatingMode::Image(m) => r == Some(*m),
                _ => r is None,
            },
    {
        match self {
            OperatingMode::Image(m) => Some(*m),
            _ => None,
        }
    }

    pub fn is_data(&self) -> (r: bool)
        ensures
            r == (self is Data),
    {
        match self {
            OperatingMode::Data(_) => true,
            _ => false,
        }
    }

    pub fn try_as_data(&self) -> (r: Option<DataMode>)
        ensures
            match self {
                OperatingMode::Data(m) => r == Some(*m),
                _ => r is None,
            },
    {
        match self {
            OperatingMode::Data(m) => Some(*m),
            _ => None,
        }
    }

    pub fn new_morse() -> (r: OperatingMode)
        ensures
            r == OperatingMode::Morse(MorseMode::ContinuousWave),
    {
        OperatingMode::Morse(MorseMode::ContinuousWave)
    }

    pub fn is_continuous_wave(&self) -> (r: bool)
        ensures
            r == (*self == OperatingMode::Morse(MorseMode::ContinuousWave)),
    {
        match self {
            OperatingMode::Morse(MorseMode::ContinuousWave) => true,
            _ => false,
        }
    }

    pub fn new_modulated_continuous_wave() -> (r: OperatingMode)
        ensures
            r == OperatingMode::Morse(MorseMode::ModulatedContinuousWave),
    {
        OperatingMode::Morse(MorseMode::ModulatedContinuousWave)
    }

    pub fn is_modulated_continuous_wave(&self) -> (r: bool)
        ensures
            r == (*self == OperatingMode::Morse(MorseMode::ModulatedContinuousWave)),
    {
        match self {
            OperatingMode::Morse(MorseMode::ModulatedContinuousWave) => true,
            _ => false,
        }
    }

    pub fn new_continuous_wave_reverse() -> (r: OperatingMode)
        ensures
            r == OperatingMode::Morse(MorseMode::ContinuousWaveReverse),
    {
        OperatingMode::Morse(MorseMode::ContinuousWaveReverse)
    }

    pub fn is_continuous_wave_reverse(&self) -> (r: bool)
        ensures
            r == (*self == OperatingMode::Morse(MorseMode::ContinuousWaveReverse)),
    {
        match self {
            OperatingMode::Morse(MorseMode::ContinuousWaveReverse) => true,
            _ => false,
        }
    }

    pub fn new_frequency_shift_keyed() -> (r: OperatingMode)
        ensures
            r == OperatingMode::Morse(MorseMode::FrequencyShiftKeyed),
    {
        OperatingMode::Morse(MorseMode::FrequencyShiftKeyed)
    }

    pub fn is_frequency_shift_keyed(&self) -> (r: bool)
        ensures
            r == (*self == OperatingMode::Morse(MorseMode::FrequencyShiftKeyed)),
    {
        match self {
            OperatingMode::Morse(MorseMode::FrequencyShiftKeyed) => true,
            _ => false,
        }
    }

    pub fn new_amplitude_modulated() -> (r: OperatingMode)
        ensures
            r == OperatingMode::AnalogVoice(AnalogVoiceMode::AmplitudeModulated),
    {
        OperatingMode::AnalogVoice(AnalogVoiceMode::AmplitudeModulated)
    }

    pub fn is_amplitude_modulated(&self) -> (r: bool)
        ensures
            r == (*self == OperatingMode::AnalogVoice(AnalogVoiceMode::AmplitudeModulated)),
    {
        match self {
            OperatingMode::AnalogVoice(AnalogVoiceMode::AmplitudeModulated) => true,
            _ => false,
        }
    }

    pub fn new_frequency_modulated() -> (r: OperatingMode)
        ensures
            r == OperatingMode::AnalogVoice(AnalogVoiceMode::FrequencyModulated),
    {
        OperatingMode::AnalogVoice(AnalogVoiceMode::FrequencyModulated)
    }

    pub fn is_frequency_modulated(&self) -> (r: bool)
        ensures
            r == (*self == OperatingMode::AnalogVoice(AnalogVoiceMode::FrequencyModulated)),
    {
        match self {
            OperatingMode::AnalogVoice(AnalogVoiceMode::FrequencyModulated) => true,
            _ => false,
        }
    }

    pub fn new_phase_modulated() -> (r: OperatingMode)
        ensures
            r == OperatingMode::AnalogVoice(AnalogVoiceMode::PhaseModulated),
    {
        OperatingMode::AnalogVoice(AnalogVoiceMode::PhaseModulated)
    }

    pub fn is_phase_modulated(&self) -> (r: bool)
        ensures
            r == (*self == OperatingMode::AnalogVoice(AnalogVoiceMode::PhaseModulated)),
    {
        match self {
            OperatingMode::AnalogVoice(AnalogVoiceMode::PhaseModulated) => true,
            _ => false,
        }
    }

    pub fn new_wideband_frequency_modulated() -> (r: OperatingMode)
        ensures
            r == OperatingMode::AnalogVoice(AnalogVoiceMode::WidebandFrequencyModulated),
    {
        OperatingMode::AnalogVoice(AnalogVoiceMode::WidebandFrequencyModulated)
    }

    pub fn is_wideband_frequency_modulated(&self) -> (r: bool)
        ensures
            r == (*self == OperatingMode::AnalogVoice(AnalogVoiceMode::WidebandFrequencyModulated)),
    {
        match self {
            OperatingMode::AnalogVoice(AnalogVoiceMode::WidebandFrequencyModulated) => true,
            _ => false,
        }
    }

    pub fn new_lower_sideband() -> (r: OperatingMode)
        ensures
            r == OperatingMode::AnalogVoice(AnalogVoiceMode::LowerSideBand),
    {
        OperatingMode::AnalogVoice(AnalogVoiceMode::LowerSideBand)
    }

    pub fn is_lower_sideband(&self) -> (r: bool)
        ensures
            r == (*self == OperatingMode::AnalogVoice(AnalogVoiceMode::LowerSideBand)),
    {
        match self {
            OperatingMode::AnalogVoice(AnalogVoiceMode::LowerSideBand) => true,
            _ => false,
        }
    }

    pub fn new_upper_sideband() -> (r: OperatingMode)
        ensures
            r == OperatingMode::AnalogVoice(AnalogVoiceMode::UpperSideBand),
    {
        OperatingMode::AnalogVoice(AnalogVoiceMode::UpperSideBand)
    }

    pub fn is_upper_sideband(&self) -> (r: bool)
        ensures
            r == (*self == OperatingMode::AnalogVoice(AnalogVoiceMode::UpperSideBand)),
    {
        match self {
            OperatingMode::AnalogVoice(AnalogVoiceMode::UpperSideBand) => true,
            _ => false,
        }
    }

    pub fn new_single_sideband() -> (r: OperatingMode)
        ensures
            r == OperatingMode::AnalogVoice(AnalogVoiceMode::SingleSideBand),
    {
        OperatingMode::AnalogVoice(AnalogVoiceMode::SingleSideBand)
    }

    pub fn is_single_sideband(&self) -> (r: bool)
        ensures
            r == (*self == OperatingMode::AnalogVoice(AnalogVoiceMode::SingleSideBand)),
    {
        match self {
            OperatingMode::AnalogVoice(AnalogVoiceMode::SingleSideBand) => true,
            _ => false,
        }
    }

    pub fn new_d_star() -> (r: OperatingMode)
        ensures
            r == OperatingMode::DigitalVoice(DigitalVoiceMode::DStar),
    {
        OperatingMode::DigitalVoice(DigitalVoiceMode::DStar)
    }

    pub fn is_d_star(&self) -> (r: bool)
        ensures
            r == (*self == OperatingMode::DigitalVoice(DigitalVoiceMode::DStar)),
    {
        match self {
            OperatingMode::DigitalVoice(DigitalVoiceMode::DStar) => true,
            _ => false,
        }
    }

    pub fn new_free_dv() -> (r: OperatingMode)
        ensures
            r == OperatingMode::DigitalVoice(DigitalVoiceMode::FreeDV),
    {
        OperatingMode::DigitalVoice(DigitalVoiceMode::FreeDV)
    }

    pub fn is_free_dv(&self) -> (r: bool)
        ensures
            r == (*self == OperatingMode::DigitalVoice(DigitalVoiceMode::FreeDV)),
    {
        match self {
            OperatingMode::DigitalVoice(DigitalVoiceMode::FreeDV) => true,
            _ => false,
        }
    }

    pub fn new_dmr() -> (r: OperatingMode)
        ensures
            r == OperatingMode::DigitalVoice(DigitalVoiceMode::DigitalMobileRadio),
    {
        OperatingMode::DigitalVoice(DigitalVoiceMode::DigitalMobileRadio)
    }

    pub fn is_dmr(&self) -> (r: bool)
        ensures
            r == (*self == OperatingMode::DigitalVoice(DigitalVoiceMode::DigitalMobileRadio)),
    {
        match self {
            OperatingMode::DigitalVoice(DigitalVoiceMode::DigitalMobileRadio) => true,
            _ => false,
        }
    }

    pub fn new_system_fusion() -> (r: OperatingMode)
        ensures
            r == OperatingMode::DigitalVoice(DigitalVoiceMode::SystemFusion),
    {
        OperatingMode::DigitalVoice(DigitalVoiceMode::SystemFusion)
    }

    pub fn is_system_fusion(&self) -> (r: bool)
        ensures
            r == (*self == OperatingMode::DigitalVoice(DigitalVoiceMode::SystemFusion)),
    {
        match self {
            OperatingMode::DigitalVoice(DigitalVoiceMode::SystemFusion) => true,
            _ => false,
        }
    }

    pub fn new_fast_scan_television() -> (r: OperatingMode)
        ensures
            r == OperatingMode::Image(ImageMode::FastScanTelevision),
    {
        OperatingMode::Image(ImageMode::FastScanTelevision)
    }

    pub fn is_fast_scan_television(&self) -> (r: bool)
        ensures
            r == (*self == OperatingMode::Image(ImageMode::FastScanTelevision)),
    {
        match self {
            OperatingMode::Image(ImageMode::FastScanTelevision) => true,
            _ => false,
        }
    }

    pub fn new_slow_scan_television() -> (r: OperatingMode)
        ensures
            r == OperatingMode::Image(ImageMode::SlowScanTelevision),
    {
        OperatingMode::Image(ImageMode::SlowScanTelevision)
    }

    pub fn is_slow_scan_television(&self) -> (r: bool)
        ensures
            r == (*self == OperatingMode::Image(ImageMode::SlowScanTelevision)),
    {
        match self {
            OperatingMode::Image(ImageMode::SlowScanTelevision) => true,
            _ => false,
        }
    }

    pub fn new_facsimile() -> (r: OperatingMode)
        ensures
            r == OperatingMode::Image(ImageMode::Facsimile),
    {
        OperatingMode::Image(ImageMode::Facsimile)
    }

    pub fn is_facsimile(&self) -> (r: bool)
        ensures
            r == (*self == OperatingMode::Image(ImageMode::Facsimile)),
    {
        match self {
            OperatingMode::Image(ImageMode::Facsimile) => true,
            _ => false,
        }
    }

    pub fn new_radio_teletype() -> (r: OperatingMode)
        ensures
            r == OperatingMode::Data(DataMode::RadioTeletype),
    {
        OperatingMode::Data(DataMode::RadioTeletype)
    }

    pub fn is_radio_teletype(&self) -> (r: bool)
        ensures
            r == (*self == OperatingMode::Data(DataMode::RadioTeletype)),
    {
        match self {
            OperatingMode::Data(DataMode::RadioTeletype) => true,
            _ => false,
        }
    }

    pub fn new_radio_teletype_reverse() -> (r: OperatingMode)
        ensures
            r == OperatingMode::Data(DataMode::RadioTeletypeReverse),
    {
        OperatingMode::Data(DataMode::RadioTeletypeReverse)
    }

    pub fn is_radio_teletype_reverse(&self) -> (r: bool)
        ensures
            r == (*self == OperatingMode::Data(DataMode::RadioTeletypeReverse)),
    {
        match self {
            OperatingMode::Data(DataMode::RadioTeletypeReverse) => true,
            _ => false,
        }
    }

    pub fn new_ft8() -> (r: OperatingMode)
        ensures
            r == OperatingMode::Data(DataMode::FT8),
    {
        OperatingMode::Data(DataMode::FT8)
    }

    pub fn is_ft8(&self) -> (r: bool)
        ensures
            r == (*self == OperatingMode::Data(DataMode::FT8)),
    {
        match self {
            OperatingMode::Data(DataMode::FT8) => true,
            _ => false,
        }
    }

    pub fn new_ft4() -> (r: OperatingMode)
        ensures
            r == OperatingMode::Data(DataMode::FT4),
    {
        OperatingMode::Data(DataMode::FT4)
    }

    pub fn is_ft4(&self) -> (r: bool)
        ensures
            r == (*self == OperatingMode::Data(DataMode::FT4)),
    {
        match self {
            OperatingMode::Data(DataMode::FT4) => true,
            _ => false,
        }
    }

    pub fn new_data_unspecified() -> (r: OperatingMode)
        ensures
            r == OperatingMode::Data(DataMode::Unspecified),
    {
        OperatingMode::Data(DataMode::Unspecified)
    }

    pub fn is_data_unspecified(&self) -> (r: bool)
        ensures
            r == (*self == OperatingMode::Data(DataMode::Unspecified)),
    {
        match self {
            OperatingMode::Data(DataMode::Unspecified) => true,
            _ => false,
        }
    }
}

} // verus!
