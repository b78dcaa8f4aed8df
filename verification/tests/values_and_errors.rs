use rfham_rigs::api::Level;
use rfham_rigs::error::ranges::Ranges;
use rfham_rigs::error::{
    enum_parse, invalid_argument_length, invalid_argument_value, invalid_bcd_digit,
    invalid_response_command_id, invalid_response_data, invalid_response_length,
    invalid_response_terminator, unsupported_function, RigError,
};
use rfham_rigs::modes::{
    AnalogVoiceMode, DataMode, DigitalVoiceMode, ImageMode, MorseMode, OperatingMode,
};
use rfham_rigs::protocol::Frequency;

#[test]
fn error_constructors_hold_their_arguments() {
    assert!(matches!(
        unsupported_function("set_frequency".to_string(), "KH1".to_string()),
        RigError::UnsupportedFunction { ref function_name, ref rig_name }
            if function_name == "set_frequency" && rig_name == "KH1"
    ));
    assert!(matches!(
        invalid_argument_length("text", Ranges::RangeInclusive(1, 24), 30),
        RigError::InvalidArgumentLength { argument_name: "text", expecting: Ranges::RangeInclusive(1, 24), given: 30 }
    ));
    assert!(matches!(
        invalid_argument_value("wpm", "u8", "101".to_string()),
        RigError::InvalidArgumentValue { argument_name: "wpm", value_type: "u8", ref value } if value == "101"
    ));
    assert!(matches!(
        invalid_response_length(Ranges::Just(4), 3),
        RigError::InvalidResponseLength { expecting: Ranges::Just(4), given: 3 }
    ));
    assert!(matches!(invalid_response_data(b"xy"), RigError::InvalidResponseData { ref data } if data == b"xy"));
    assert!(matches!(invalid_response_command_id(b"FA"), RigError::InvalidResponseCommandId { ref expecting } if expecting == b"FA"));
    assert!(matches!(invalid_response_terminator(b";"), RigError::InvalidResponseTerminator { ref expecting } if expecting == b";"));
    assert!(matches!(
        enum_parse("7".to_string(), "DataSubMode"),
        RigError::ParseEnum { value_type: "DataSubMode", ref value } if value == "7"
    ));
    assert!(matches!(invalid_bcd_digit(0x0A), RigError::InvalidBcdDigit { byte: 0x0A }));
}

#[test]
fn ranges_bounds_and_membership() {
    assert!(Ranges::just(3).contains(3));
    assert!(!Ranges::just(3).contains(4));
    assert!(Ranges::from_to(2, 5).contains(4));
    assert!(!Ranges::from_to(2, 5).contains(5));
    assert!(Ranges::from_to_inclusive(2, 5).contains(5));
    assert!(Ranges::from(7).contains(1000));
    assert!(Ranges::full().contains(0));
    assert!(!Ranges::to(3).contains(3));
    assert!(Ranges::to_inclusive(3).contains(3));
    assert_eq!(Ranges::from_to(2, 5).start(), Some(2));
    assert_eq!(Ranges::from_to(2, 5).end(), Some(5));
    assert_eq!(Ranges::to(5).start(), None);
    assert_eq!(Ranges::from(5).end(), None);
    assert!(Ranges::from_to_inclusive(1, 9).is_bounded());
    assert!(!Ranges::from(1).is_bounded());
    assert!(Ranges::just(1).is_singleton());
    assert!(Ranges::from_to(4, 4).is_singleton());
    assert!(!Ranges::from_to(4, 5).is_singleton());
    assert_eq!(<Ranges as From<usize>>::from(9), Ranges::Just(9));
    assert_eq!(Ranges::from(9), Ranges::RangeFrom(9));
}

#[test]
fn ranges_display() {
    assert_eq!(Ranges::from_to(2, 5).display_string(), "2..5");
    assert_eq!(Ranges::from(3).display_string(), "3..");
    assert_eq!(Ranges::to(5).display_string(), "..5");
    assert_eq!(Ranges::full().display_string(), "..");
    assert_eq!(Ranges::from_to_inclusive(10, 20).display_string(), "10..20");
    assert_eq!(Ranges::just(3).display_string(), "33..3");
    assert_eq!(Ranges::from_to_inclusive(7, 7).display_string(), "77..7");
}

#[test]
fn level_constants() {
    assert_eq!(Level::off().as_u8(), 0);
    assert_eq!(Level::min().as_u8(), 1);
    assert_eq!(Level::mid().as_u8(), 127);
    assert_eq!(Level::max().as_u8(), 255);
    assert_eq!(Level::default().as_u8(), 0);
}

#[test]
fn level_percent_rounds_down() {
    assert_eq!(Level::percent(0).as_u8(), 0);
    assert_eq!(Level::percent(50).as_u8(), 127);
    assert_eq!(Level::percent(10).as_u8(), 25);
    assert_eq!(Level::percent(100).as_u8(), 255);
}

#[test]
fn level_setters() {
    let mut level = Level::new(42);
    level.set_max();
    assert_eq!(level.as_u8(), 255);
    level.set_off();
    assert_eq!(level.as_u8(), 0);
    level.set_min();
    assert_eq!(level.as_u8(), 1);
    level.set_mid();
    assert_eq!(level.as_u8(), 127);
    level.set_percent(0);
    assert_eq!(level.as_u8(), 0);
    level.set_percent(40);
    assert_eq!(level.as_u8(), 255);
    assert_eq!(level.to_percent(), 0);
}

#[test]
fn level_conversions_round_trip() {
    for v in [0u8, 1, 128, 255] {
        assert_eq!(u8::from(Level::from(v)), v);
    }
    assert_eq!(Level::try_from(&[200u8][..]).unwrap().as_u8(), 200);
    assert!(matches!(
        Level::try_from(&[1u8, 2][..]),
        Err(RigError::InvalidResponseLength { expecting: Ranges::Just(1), given: 2 })
    ));
}

#[test]
fn level_parse_and_display() {
    assert_eq!(Level::parse("42").unwrap().as_u8(), 42);
    assert_eq!(Level::parse("+7").unwrap().as_u8(), 7);
    assert_eq!("255".parse::<Level>().unwrap().as_u8(), 255);
    assert!(matches!(Level::parse("256"), Err(RigError::ParseLevel { ref level, .. }) if level == "256"));
    assert!(matches!(Level::parse(""), Err(RigError::ParseLevel { .. })));
    assert!(matches!(Level::parse(" 1"), Err(RigError::ParseLevel { .. })));
    assert_eq!(Level::new(99).display_string(), "99");
}

#[test]
fn mode_names() {
    assert_eq!(MorseMode::ContinuousWaveReverse.name(), "CW-R");
    assert_eq!(AnalogVoiceMode::SingleSideBand.name(), "SSB");
    assert_eq!(DigitalVoiceMode::DStar.name(), "D-STAR");
    assert_eq!(ImageMode::SlowScanTelevision.name(), "SSTV");
    assert_eq!(DataMode::RadioTeletypeReverse.name(), "RTTY-R");
    assert_eq!(OperatingMode::Data(DataMode::FT8).display_name(), "FT8");
}

#[test]
fn mode_families() {
    let cw = OperatingMode::new_morse();
    assert!(cw.is_morse());
    assert!(cw.is_continuous_wave());
    assert_eq!(cw.try_as_morse(), Some(MorseMode::ContinuousWave));
    assert_eq!(cw.try_as_data(), None);
    let fm = OperatingMode::new_frequency_modulated();
    assert!(fm.is_analog_voice());
    assert!(fm.is_frequency_modulated());
    assert!(!fm.is_morse());
    assert_eq!(fm.try_as_analog_voice(), Some(AnalogVoiceMode::FrequencyModulated));
}

#[test]
fn frequency_ascii_round_trip() {
    let f = Frequency(14_074_000);
    let ascii = f.to_ascii();
    assert_eq!(ascii, b"00014074000".to_vec());
    assert_eq!(Frequency::try_from(&ascii).unwrap(), f);
    assert!(matches!(Frequency::try_from(b"0001407400x"), Err(RigError::InvalidResponseData { .. })));
    assert!(matches!(Frequency::try_from(b"99999999999999999999"), Err(RigError::InvalidResponseData { .. })));
}

#[test]
fn level_from_borrowed_byte() {
    let raw: u8 = 42;
    let level = Level::from(&raw);
    assert_eq!(u8::from(level), 42);
    assert_eq!(level, Level::from(42u8));
}
