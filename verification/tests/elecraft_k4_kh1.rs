use rfham_rigs::error::ranges::Ranges;
use rfham_rigs::error::RigError;
use rfham_rigs::protocol::cat::elecraft::k4::{
    parse_signed_hz_4, CopyVfoAtoVfoB, DigitalPinState, GetDigitalOutputPin1State,
    GetK4CommandMode, GetRepeaterOffset, GetTransmitDataBandwidth, GetVfoAIfCenterPitch,
    GetVfoAManualNotchSettings, GetVfoAModeAlternates, GetVfoANoiseReductionSettings,
    GetVfoATuningStep, GetVfoBManualNotchSettings, K4CommandMode, ManualNotch,
    RepeaterOffsetDirection, SetDigitalOutputPin1State, SetK4CommandMode, SetQskOrVoxDelay,
    SetRepeaterOffset, SetSystemAutoInfoInterval, SetTransmitDataBandwidth, SetVfoACtssTone,
    SetVfoAManualNotchSettings, SetVfoANoiseReductionSettings, SetVfoATransverterActiveBandSlot,
    SetVfoATuningStep, SetVfoBManualNotchSettings, SetVfoBNoiseReductionSettings,
    SwapVfoAandVfoB,
};
use rfham_rigs::protocol::cat::elecraft::kh1::{
    DumpLog, EmulateButtonHold, EmulateButtonTap, EmulateEncoderRotation, EmulateHandKeyPress,
    Encoder, EncoderDirection, GetDisplayText, GetFirmwareRevision, GetMenuParameter,
    GetTransceiverSerialNumber, GetTransceiverStatus, GetTransmitLowerLimit,
    GetTransmitUpperLimit, HandKeyState, LoadFirmware, LogAction, SelectMenuItem, SetAfGain,
    SetDisplayText, SetMenuParameter, SetOperatingFrequency, SetOperatingMode, SetVfoOffset,
    TransmitBand, KH1_ID_IN_BOOT_LOADER, KH1_ID_NORMAL,
};
use rfham_rigs::protocol::Frequency;

#[test]
fn k4_command_mode_round_trip() {
    for mode in [K4CommandMode::to_advanced(), K4CommandMode::to_normal()] {
        let bytes = SetK4CommandMode { mode }.to_bytes();
        assert_eq!(GetK4CommandMode.parse(&bytes).unwrap(), mode);
    }
    assert_eq!(SetK4CommandMode::to_advanced().to_bytes(), b"K41;".to_vec());
    assert_eq!(SetK4CommandMode::to_normal().to_bytes(), b"K40;".to_vec());
    assert_eq!(K4CommandMode::to_advanced().display_name(), "K4 Advanced Mode");
    assert_eq!(K4CommandMode::to_normal().display_name(), "K4 Normal Mode");
    assert!(matches!(
        K4CommandMode::try_from(b"10"),
        Err(RigError::InvalidResponseLength { expecting: Ranges::Just(1), given: 2 })
    ));
}

#[test]
fn vfo_copy_and_swap() {
    assert_eq!(CopyVfoAtoVfoB.to_bytes(), b"AB0;".to_vec());
    assert_eq!(SwapVfoAandVfoB.to_bytes(), b"AB1;".to_vec());
}

#[test]
fn digital_output_pin() {
    assert_eq!(DigitalPinState::set_high(), DigitalPinState::High);
    assert_eq!(DigitalPinState::set_low(), DigitalPinState::Low);
    let bytes = SetDigitalOutputPin1State { state: DigitalPinState::High }.to_bytes();
    assert_eq!(bytes, b"DO1;".to_vec());
    assert_eq!(GetDigitalOutputPin1State.parse(&bytes).unwrap(), DigitalPinState::High);
    assert!(matches!(GetDigitalOutputPin1State.parse(b"DO2;"), Err(RigError::InvalidResponseData { .. })));
}

#[test]
fn mode_alternates_have_no_value() {
    assert_eq!(GetVfoAModeAlternates.expected_response_length(), 0);
    assert_eq!(GetVfoAModeAlternates.parse(b"MA;").unwrap(), Vec::<u8>::new());
    assert!(matches!(GetVfoAModeAlternates.parse(b"MA1;"), Err(RigError::InvalidResponseLength { .. })));
}

#[test]
fn signed_hertz_fields() {
    assert_eq!(parse_signed_hz_4(b"-0250").unwrap(), -250);
    assert_eq!(parse_signed_hz_4(b"+9999").unwrap(), 9999);
    assert!(matches!(parse_signed_hz_4(b" 0250"), Err(RigError::ParseSign { value: b' ' })));
    assert!(matches!(parse_signed_hz_4(b"+02x0"), Err(RigError::InvalidResponseData { ref data }) if data == b"02x0"));
    assert_eq!(GetVfoAIfCenterPitch.parse(b"IS+0050;").unwrap(), 50);
}

#[test]
fn manual_notch_round_trip() {
    let set = SetVfoAManualNotchSettings { state: true, offset_hz: -1234 }.to_bytes().unwrap();
    assert_eq!(set, b"NM10-1234;".to_vec());
    assert_eq!(
        GetVfoAManualNotchSettings.parse(&set).unwrap(),
        ManualNotch { state: true, offset_hz: -1234 }
    );
    let set_b = SetVfoBManualNotchSettings { state: false, offset_hz: 9999 }.to_bytes().unwrap();
    assert_eq!(
        GetVfoBManualNotchSettings.parse(&set_b).unwrap(),
        ManualNotch { state: false, offset_hz: 9999 }
    );
    assert_eq!(GetVfoAManualNotchSettings.expected_response_length(), 7);
    assert!(matches!(
        SetVfoAManualNotchSettings { state: true, offset_hz: -10000 }.to_bytes(),
        Err(RigError::InvalidArgumentValue { argument_name: "offset_hz", value_type: "i16", ref value }) if value == "-10000"
    ));
    assert!(matches!(
        SetVfoAManualNotchSettings { state: true, offset_hz: i16::MIN }.to_bytes(),
        Err(RigError::InvalidArgumentValue { .. })
    ));
}

#[test]
fn noise_reduction_round_trip() {
    let set = SetVfoANoiseReductionSettings { state: true, level: 7 }.to_bytes().unwrap();
    assert_eq!(set, b"NR17;".to_vec());
    let nr = GetVfoANoiseReductionSettings.parse(&set).unwrap();
    assert!(nr.state);
    assert_eq!(nr.level, 7);
    assert_eq!(SetVfoBNoiseReductionSettings { state: false, level: 0 }.to_bytes().unwrap(), b"NR$00;".to_vec());
    assert!(matches!(
        SetVfoANoiseReductionSettings { state: true, level: 10 }.to_bytes(),
        Err(RigError::InvalidArgumentValue { argument_name: "level", ref value, .. }) if value == "10"
    ));
}

#[test]
fn repeater_offset_round_trip() {
    let set = SetRepeaterOffset { direction: RepeaterOffsetDirection::Negative, offset_hz: 600_000 }
        .to_bytes()
        .unwrap();
    assert_eq!(set, b"RP20600000;".to_vec());
    let got = GetRepeaterOffset.parse(&set).unwrap();
    assert_eq!(got.direction, RepeaterOffsetDirection::Negative);
    assert_eq!(got.offset_hz, 600_000);
    assert!(matches!(
        SetRepeaterOffset { direction: RepeaterOffsetDirection::Off, offset_hz: 1_000_000 }.to_bytes(),
        Err(RigError::InvalidArgumentValue { argument_name: "offset_hz", value_type: "u32", ref value }) if value == "1000000"
    ));
    assert!(matches!(
        GetRepeaterOffset.parse(b"RP50000000;"),
        Err(RigError::InvalidArgumentValue { argument_name: "direction", value_type: "RepeaterOffsetDirection", ref value }) if value == "53"
    ));
    assert_eq!(GetRepeaterOffset.expected_response_length(), 8);
}

#[test]
fn bounded_settings() {
    let dw = SetTransmitDataBandwidth { bandwidth_10hz: 280 }.to_bytes().unwrap();
    assert_eq!(dw, b"DW0280;".to_vec());
    assert_eq!(GetTransmitDataBandwidth.parse(&dw).unwrap(), 280);
    assert!(matches!(SetTransmitDataBandwidth { bandwidth_10hz: 10000 }.to_bytes(), Err(RigError::InvalidArgumentValue { .. })));
    assert_eq!(SetQskOrVoxDelay { delay_ms: 2000 }.to_bytes().unwrap(), b"SD2000;".to_vec());
    assert!(matches!(
        SetQskOrVoxDelay { delay_ms: 2001 }.to_bytes(),
        Err(RigError::InvalidArgumentValue { argument_name: "ms", value_type: "u16", .. })
    ));
    assert_eq!(SetSystemAutoInfoInterval { interval_ms: 5 }.to_bytes().unwrap(), b"SI0005;".to_vec());
    let vt = SetVfoATuningStep { step_hz: 2500 }.to_bytes().unwrap();
    assert_eq!(vt, b"VT002500;".to_vec());
    assert_eq!(GetVfoATuningStep.parse(&vt).unwrap(), 2500);
    assert!(matches!(
        SetVfoATuningStep { step_hz: 1_000_000 }.to_bytes(),
        Err(RigError::InvalidArgumentValue { argument_name: "step_hz", .. })
    ));
    assert_eq!(SetVfoACtssTone { tone_code: 38 }.to_bytes().unwrap(), b"PL038;".to_vec());
    assert!(matches!(SetVfoACtssTone { tone_code: 39 }.to_bytes(), Err(RigError::InvalidArgumentValue { argument_name: "tone_code", .. })));
    assert_eq!(SetVfoATransverterActiveBandSlot { band_slot: 8 }.to_bytes().unwrap(), b"XV08;".to_vec());
    assert!(matches!(
        SetVfoATransverterActiveBandSlot { band_slot: 9 }.to_bytes(),
        Err(RigError::InvalidArgumentValue { argument_name: "band_slot", .. })
    ));
}

#[test]
fn kh1_af_gain_and_offset() {
    assert_eq!(SetAfGain { level: 30 }.to_bytes().unwrap(), b"AG30;".to_vec());
    assert!(matches!(SetAfGain { level: 31 }.to_bytes(), Err(RigError::InvalidArgumentValue { argument_name: "level", .. })));
    assert_eq!(SetVfoOffset { offset_hz: 7 }.to_bytes().unwrap(), b"FO07;".to_vec());
    assert!(matches!(SetVfoOffset { offset_hz: 100 }.to_bytes(), Err(RigError::InvalidArgumentValue { .. })));
}

#[test]
fn kh1_display_text() {
    assert_eq!(GetDisplayText { line: 2 }.to_bytes().unwrap(), b"DS2;".to_vec());
    assert!(matches!(
        GetDisplayText { line: 3 }.to_bytes(),
        Err(RigError::InvalidArgumentValue { argument_name: "line", value_type: "u8", ref value }) if value == "3"
    ));
    let set = SetDisplayText { line: 1, text: b"CQ".to_vec() }.to_bytes().unwrap();
    assert_eq!(set, b"DS1CQ              ;".to_vec());
    assert_eq!(GetDisplayText { line: 1 }.parse(&set).unwrap(), b"CQ              ".to_vec());
    let long = SetDisplayText { line: 2, text: b"ABCDEFGHIJKLMNOPQRST".to_vec() }.to_bytes().unwrap();
    assert_eq!(long, b"DS2ABCDEFGHIJKLMNOP;".to_vec());
    assert!(matches!(SetDisplayText { line: 0, text: vec![] }.to_bytes(), Err(RigError::InvalidArgumentValue { .. })));
}

#[test]
fn kh1_simple_commands() {
    assert_eq!(
        EmulateEncoderRotation { encoder: Encoder::Vfo, direction: EncoderDirection::Down }.to_bytes(),
        b"ENVD;".to_vec()
    );
    assert_eq!(SetOperatingFrequency { freq_10hz: 1_407_400 }.to_bytes(), b"FA01407400;".to_vec());
    assert_eq!(EmulateHandKeyPress { state: HandKeyState::KeyDown }.to_bytes(), b"HK1;".to_vec());
    assert_eq!(LoadFirmware.to_bytes(), b"LD;".to_vec());
    assert_eq!(DumpLog { action: LogAction::Erase }.to_bytes(), b"LG3;".to_vec());
    assert_eq!(SelectMenuItem { item_id: *b"KSP" }.to_bytes(), b"MNKSP;".to_vec());
    assert_eq!(KH1_ID_NORMAL, "KH1");
    assert_eq!(KH1_ID_IN_BOOT_LOADER, "kh1");
}

#[test]
fn kh1_operating_mode() {
    assert_eq!(SetOperatingMode { mode: 4 }.to_bytes().unwrap(), b"MD4;".to_vec());
    assert_eq!(SetOperatingMode { mode: 0 }.to_bytes().unwrap(), b"MD0;".to_vec());
    assert!(matches!(
        SetOperatingMode { mode: 3 }.to_bytes(),
        Err(RigError::InvalidArgumentValue { argument_name: "mode", value_type: "u8", ref value }) if value == "3"
    ));
}

#[test]
fn kh1_menu_parameter_round_trip() {
    for value in [0u8, 9, 120, 255] {
        let bytes = SetMenuParameter { value }.to_bytes();
        assert_eq!(GetMenuParameter.parse(&bytes).unwrap(), value);
    }
    assert_eq!(SetMenuParameter { value: 5 }.to_bytes(), b"MP005;".to_vec());
}

#[test]
fn kh1_queries() {
    assert_eq!(GetFirmwareRevision.parse(b"RV01.08;").unwrap(), b"01.08".to_vec());
    assert_eq!(GetTransceiverSerialNumber.parse(b"SN01234;").unwrap(), 1234);
    let st = GetTransceiverStatus.parse(b"ST0Sa;").unwrap();
    assert_eq!(st.self_test_errors, b'0');
    assert!(st.serial_numer_assigned && !st.atu_module_found);
    assert!(matches!(GetTransceiverStatus.parse(b"ST0X1;"), Err(RigError::ParseBoolean { value: b'X' })));
    assert_eq!(GetTransmitLowerLimit { band: TransmitBand::Band20m }.to_bytes(), b"TXL2;".to_vec());
    assert_eq!(GetTransmitLowerLimit { band: TransmitBand::Band20m }.parse(b"TXL14000;").unwrap(), Frequency(14000));
    assert_eq!(GetTransmitUpperLimit { band: TransmitBand::Band40m }.parse(b"TXH07300;").unwrap(), Frequency(7300));
}

#[test]
fn kh1_buttons() {
    assert_eq!(EmulateButtonTap { button: 4 }.to_bytes().unwrap(), b"SW4T;".to_vec());
    assert_eq!(EmulateButtonHold { button: 6 }.to_bytes().unwrap(), b"SW6H;".to_vec());
    assert!(matches!(EmulateButtonTap { button: 0 }.to_bytes(), Err(RigError::InvalidArgumentValue { argument_name: "button", .. })));
    assert!(matches!(EmulateButtonHold { button: 7 }.to_bytes(), Err(RigError::InvalidArgumentValue { .. })));
}
