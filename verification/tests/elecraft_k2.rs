use rfham_rigs::api::Level;
use rfham_rigs::error::ranges::Ranges;
use rfham_rigs::error::RigError;
use rfham_rigs::protocol::cat::elecraft::k2::{
    filter_bandwidth_extended_from_ascii, format_bandwidth_and_number, parse_text_and_decimal_flags,
    AudioFilterMode, AutoInfoMode, BargraphMode, FilterNumber, GetAntennaSelection,
    GetAutoInfoMode, GetBargraphValue, GetFilterBandwidth, GetFilterBandwidthExtended,
    GetK2CommandMode, GetTransceiverInformation, GetVfoAAfGain, GetVfoADisplayAndIcons,
    GetVfoAOperatingFrequency, GetVfoBOperatingFrequency, GetVfoLockState, GetVfoOperatingMode,
    K2CommandMode, MoveVfoAFrequencyDown, OperatingMode, SelectedAntenna, SetAntennaSelection,
    SetAutoInfoMode, SetFilterBandwidth, SetFilterBandwidthExtended, SetK2CommandMode,
    SetReceiveTransmitVfo, SetTransmitVfo, SetVfoAAfGain, SetVfoAOperatingFrequency,
    SetVfoBOperatingFrequency, SetVfoLockState, SetVfoOperatingMode, TransceiverInformation,
    VfoAAnnunciatorData, VfoAAnnunciatorFlashData, VfoFrequencyChangeStep,
};
use rfham_rigs::protocol::cat::elecraft::Vfo;
use rfham_rigs::protocol::Frequency;

#[test]
fn k2_command_mode_round_trip() {
    for extended in [false, true] {
        for rtty_off in [false, true] {
            let mode = K2CommandMode { extended, rtty_off };
            let bytes = SetK2CommandMode { mode }.to_bytes();
            assert_eq!(GetK2CommandMode.parse(&bytes).unwrap(), mode);
        }
    }
    let ext = SetK2CommandMode { mode: K2CommandMode { extended: true, rtty_off: false } };
    assert_eq!(ext.to_bytes(), b"K22;".to_vec());
    assert_eq!(GetK2CommandMode.to_bytes(), b"K2;".to_vec());
}

#[test]
fn k2_command_mode_names_and_errors() {
    assert_eq!(K2CommandMode { extended: false, rtty_off: false }.display_name(), "K2 Normal Mode");
    assert_eq!(K2CommandMode { extended: false, rtty_off: true }.display_name(), "K2 Normal/RTTY off");
    assert_eq!(K2CommandMode { extended: true, rtty_off: false }.display_name(), "K2 Extended Mode");
    assert_eq!(K2CommandMode { extended: true, rtty_off: true }.display_name(), "K2 Extended/RTTY off");
    assert!(matches!(
        K2CommandMode::try_from(b""),
        Err(RigError::InvalidResponseLength { expecting: Ranges::Just(1), given: 0 })
    ));
}

#[test]
fn auto_info_mode() {
    assert_eq!(SetAutoInfoMode::off().to_bytes(), b"AI0;".to_vec());
    assert_eq!(SetAutoInfoMode::for_frequency_and_mode_related().to_bytes(), b"AI1;".to_vec());
    assert_eq!(SetAutoInfoMode::for_any_front_panel().to_bytes(), b"AI2;".to_vec());
    assert_eq!(SetAutoInfoMode::for_compatibility_combination().to_bytes(), b"AI3;".to_vec());
    assert_eq!(GetAutoInfoMode.parse(b"AI2;").unwrap(), AutoInfoMode::AnyFrontPanel);
    assert!(matches!(GetAutoInfoMode.parse(b"AI4;"), Err(RigError::InvalidResponseData { ref data }) if data == b"4"));
    assert_eq!(GetAutoInfoMode.to_bytes(), b"AI;".to_vec());
}

#[test]
fn antenna_selection() {
    assert_eq!(SetAntennaSelection::antenna_1().to_bytes(), b"AN1;".to_vec());
    assert_eq!(SetAntennaSelection::antenna_2().to_bytes(), b"AN2;".to_vec());
    assert_eq!(GetAntennaSelection.parse(b"AN2;").unwrap(), SelectedAntenna::Antenna2);
    assert!(matches!(GetAntennaSelection.parse(b"AN0;"), Err(RigError::InvalidResponseData { .. })));
}

#[test]
fn bargraph_values() {
    let dot = GetBargraphValue.parse(b"BG07;").unwrap();
    assert_eq!((dot.value, dot.mode), (7, BargraphMode::Dot));
    let bar = GetBargraphValue.parse(b"BG22;").unwrap();
    assert_eq!((bar.value, bar.mode), (10, BargraphMode::Bar));
    let empty_bar = GetBargraphValue.parse(b"BG12;").unwrap();
    assert_eq!((empty_bar.value, empty_bar.mode), (0, BargraphMode::Bar));
    assert!(matches!(GetBargraphValue.parse(b"BG11;"), Err(RigError::InvalidResponseData { ref data }) if data == b"11"));
    assert!(matches!(GetBargraphValue.parse(b"BG23;"), Err(RigError::InvalidResponseData { .. })));
    assert!(matches!(GetBargraphValue.parse(b"BG1x;"), Err(RigError::InvalidResponseData { .. })));
}

#[test]
fn tuning_steps() {
    assert_eq!(MoveVfoAFrequencyDown::default().to_bytes(), b"DN;".to_vec());
    assert_eq!(MoveVfoAFrequencyDown::step_10hz().to_bytes(), b"DN1;".to_vec());
    assert_eq!(MoveVfoAFrequencyDown::step_20hz().to_bytes(), b"DN2;".to_vec());
    assert_eq!(MoveVfoAFrequencyDown::step_50hz().to_bytes(), b"DN3;".to_vec());
    assert_eq!(MoveVfoAFrequencyDown::step_1khz().to_bytes(), b"DN4;".to_vec());
    assert_eq!(Frequency::from(VfoFrequencyChangeStep::Step1kHz), Frequency(1000));
    assert_eq!(Frequency::from(VfoFrequencyChangeStep::Step20Hz), Frequency(20));
}

#[test]
fn vfo_frequencies() {
    let set = SetVfoAOperatingFrequency::from(Frequency(7_030_000));
    let bytes = set.to_bytes();
    assert_eq!(bytes, b"FA00007030000;".to_vec());
    assert_eq!(set.parse(&bytes).unwrap(), Frequency(7_030_000));
    assert_eq!(GetVfoAOperatingFrequency.parse(b"FA00014074000;").unwrap(), Frequency(14_074_000));
    let b = SetVfoBOperatingFrequency::from(Frequency(99_999_999_999)).to_bytes();
    assert_eq!(GetVfoBOperatingFrequency.parse(&b).unwrap(), Frequency(99_999_999_999));
    assert!(matches!(GetVfoAOperatingFrequency.parse(b"FB00014074000;"), Err(RigError::InvalidResponseCommandId { .. })));
    assert!(matches!(GetVfoAOperatingFrequency.parse(b"FA0001407400a;"), Err(RigError::InvalidResponseData { .. })));
}

#[test]
fn af_gain_levels() {
    let bytes = SetVfoAAfGain { level: Level::new(200) }.to_bytes();
    assert_eq!(bytes, vec![b'A', b'G', b'0', 200, b';']);
    assert_eq!(GetVfoAAfGain.parse(&bytes).unwrap().as_u8(), 200);
}

#[test]
fn vfo_selection_commands() {
    assert_eq!(SetReceiveTransmitVfo { vfo: Vfo::B }.to_bytes(), b"FR1;".to_vec());
    assert_eq!(SetTransmitVfo { vfo: Vfo::A }.to_bytes(), b"FT0;".to_vec());
}

#[test]
fn filter_bandwidth() {
    let bytes = SetFilterBandwidth { bandwidth_hz: 400 }.to_bytes();
    assert_eq!(bytes, b"FW0400;".to_vec());
    assert_eq!(GetFilterBandwidth.parse(&bytes).unwrap(), 400);
    let ext = SetFilterBandwidthExtended { bandwidth_hz: 400, filter_number: FilterNumber::Filter3 };
    assert_eq!(format_bandwidth_and_number(&ext), b"04003".to_vec());
    assert_eq!(ext.to_bytes(), b"FW04003;".to_vec());
    let reply = GetFilterBandwidthExtended.parse(b"FW040031;").unwrap();
    assert_eq!(reply.bandwidth_hz, 400);
    assert_eq!(reply.filter_number, FilterNumber::Filter3);
    assert_eq!(reply.audio_filter_mode, AudioFilterMode::AudioFilter1);
    assert!(matches!(filter_bandwidth_extended_from_ascii(b"040051"), Err(RigError::InvalidResponseData { ref data }) if data == b"040051"));
    assert!(matches!(filter_bandwidth_extended_from_ascii(b"040013"), Err(RigError::InvalidResponseData { .. })));
    assert!(matches!(filter_bandwidth_extended_from_ascii(b"04x013"), Err(RigError::InvalidResponseData { ref data }) if data == b"04x0"));
}

#[test]
fn vfo_lock() {
    for state in [false, true] {
        let bytes = SetVfoLockState { state }.to_bytes();
        assert_eq!(GetVfoLockState.parse(&bytes).unwrap(), state);
    }
    assert!(matches!(GetVfoLockState.parse(b"LK2;"), Err(RigError::ParseBoolean { value: b'2' })));
}

#[test]
fn operating_modes() {
    assert_eq!(SetVfoOperatingMode::to_cw().to_bytes(), b"MD3;".to_vec());
    assert_eq!(SetVfoOperatingMode::to_data_b().to_bytes(), b"MD9;".to_vec());
    for mode in [
        OperatingMode::LowerSideBand,
        OperatingMode::UpperSideBand,
        OperatingMode::ContinuousWave,
        OperatingMode::DataA,
        OperatingMode::ContinuousWaveReverse,
        OperatingMode::DataB,
    ] {
        let bytes = SetVfoOperatingMode { mode }.to_bytes();
        assert_eq!(GetVfoOperatingMode.parse(&bytes).unwrap(), mode);
    }
    assert!(matches!(GetVfoOperatingMode.parse(b"MD4;"), Err(RigError::InvalidResponseData { .. })));
}

#[test]
fn display_text_and_annunciators() {
    let (text, points) = parse_text_and_decimal_flags(&[b'7', b'0' | 0x80, b'3', b'0', b'0', b'0', b'@', b'<']).unwrap();
    assert_eq!(text, "703000@<".to_string());
    assert!(points[1] && !points[0]);
    assert!(matches!(parse_text_and_decimal_flags(b"1234567"), Err(RigError::InvalidResponseData { .. })));
    assert!(matches!(parse_text_and_decimal_flags(&[b'1', b'2', b'3', b'4', b'5', b'6', b'7', 0x20]), Err(RigError::InvalidResponseData { .. })));
    assert!(matches!(parse_text_and_decimal_flags(&[b'1', b'2', b'3', b'4', b'5', b'6', b'7', 0xFF]), Err(RigError::InvalidResponseData { ref data }) if data[7] == 0x7F));
    let a = VfoAAnnunciatorData::try_from(0b1100_0001).unwrap();
    assert!(a.xit_on && a.noise_blanker_on && !a.rit_on && a.vfo_a_selected);
    let f = VfoAAnnunciatorFlashData::try_from(0b1000_0100).unwrap();
    assert!(f.active_vfo_flashing);
    assert!(matches!(VfoAAnnunciatorFlashData::try_from(0x04), Err(RigError::InvalidResponseData { ref data }) if data == &vec![0x04]));
    let mut reply = b"DS".to_vec();
    reply.extend_from_slice(b"14074000");
    reply.extend_from_slice(&[0x84, 0x80, b';']);
    let d = GetVfoADisplayAndIcons.parse(&reply).unwrap();
    assert_eq!(d.text, "14074000".to_string());
    assert!(!d.annunciator_data.vfo_a_selected);
}

#[test]
fn k2_transceiver_information() {
    let reply = b"IF00007030000     +002011 0003010001 ;";
    let info = GetTransceiverInformation.parse(reply).unwrap();
    assert_eq!(info.operating_frequency, Frequency(7_030_000));
    assert!(!info.rit_xit_sign_negative);
    assert_eq!(info.rit_xit_offset_hz, 20);
    assert!(info.rit_on && info.xit_on);
    assert_eq!(info.operating_mode, OperatingMode::ContinuousWave);
    assert_eq!(info.receive_mode_vfo, Vfo::A);
    assert!(info.scan_in_progress && !info.in_split_mode);
    assert!(!info.event_on_band_change);
    assert!(matches!(
        TransceiverInformation::try_from(b"00007030000     +002011 0003010001x"),
        Err(RigError::InvalidResponseData { ref data }) if data == b"x"
    ));
    assert!(matches!(
        TransceiverInformation::try_from(b"00007030000     +002011 0004010001 "),
        Err(RigError::InvalidResponseData { .. })
    ));
}
