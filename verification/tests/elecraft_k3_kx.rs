use rfham_rigs::error::ranges::Ranges;
use rfham_rigs::error::RigError;
use rfham_rigs::modes::{AnalogVoiceMode, DataMode, MorseMode, OperatingMode as Mode};
use rfham_rigs::protocol::cat::elecraft::k3_kx::{
    allocation_band_code, parse_band_number, parse_buffered_text, parse_signed_offset_4,
    AllocationBand, DataSubMode, GetBufferedText, GetInstalledOptions, GetK3CommandMode,
    GetK3IconsAndStatus, GetRitXitOffset, GetTransceiverInformation, GetVfoABandNumber,
    GetVfoADisplayAndIcons, InstalledOptions, K3CommandMode, K3IconsAndStatus,
    K3InstalledOptions, K4InstalledOptions, KXInstalledOptions, MoveVfoAFrequencyDown,
    MoveVfoBFrequencyUp, OperatingMode, SendCwText, SetK3CommandMode, SetKeyerSpeed,
    SetRitXitOffset, SetVfoABandNumber, SetVfoAAfGain, TransceiverInformation,
    VfoAIconData, VfoAIconFlashData, VfoFrequencyChangeStep,
};
use rfham_rigs::protocol::cat::elecraft::{GetOperatingMode, Vfo};
use rfham_rigs::protocol::Frequency;

#[test]
fn k3_command_mode_round_trip() {
    for mode in [K3CommandMode::extended(), K3CommandMode::normal()] {
        let set = SetK3CommandMode { mode };
        let bytes = set.to_bytes();
        assert_eq!(GetK3CommandMode.parse(&bytes).unwrap(), mode);
    }
    assert_eq!(SetK3CommandMode::to_extended().to_bytes(), b"K31;".to_vec());
    assert_eq!(SetK3CommandMode::to_normal().to_bytes(), b"K30;".to_vec());
    assert_eq!(GetK3CommandMode.to_bytes(), b"K3;".to_vec());
    assert_eq!(K3CommandMode::extended().display_name(), "K3 Extended Mode");
    assert_eq!(K3CommandMode::normal().display_name(), "K3 Normal Mode");
}

#[test]
fn k3_command_mode_errors() {
    assert!(matches!(
        K3CommandMode::try_from(b"11"),
        Err(RigError::InvalidResponseLength { expecting: Ranges::Just(1), given: 2 })
    ));
    assert!(matches!(
        GetK3CommandMode.parse(b"K3;"),
        Err(RigError::InvalidResponseLength { expecting: Ranges::Just(4), given: 3 })
    ));
    assert!(!GetK3CommandMode.parse(b"K37;").unwrap().extended);
}

#[test]
fn vfo_steps() {
    assert_eq!(MoveVfoAFrequencyDown::step_1khz().to_bytes(), b"DN4;".to_vec());
    assert_eq!(MoveVfoAFrequencyDown { step: None }.to_bytes(), b"DN;".to_vec());
    assert_eq!(MoveVfoBFrequencyUp::step_200hz().to_bytes(), b"UPB9;".to_vec());
    assert_eq!(Frequency::from(VfoFrequencyChangeStep::Step5kHz), Frequency(5000));
    assert_eq!(VfoFrequencyChangeStep::from_repr(b'0'), Some(VfoFrequencyChangeStep::Step1Hz));
    assert_eq!(VfoFrequencyChangeStep::from_repr(b'x'), None);
}

#[test]
fn icons_and_status() {
    let st = GetK3IconsAndStatus.parse(&[b'I', b'C', 0x81, 0x80, 0x80, 0x80, 0xC0, b';']).unwrap();
    assert!(st.preset_2);
    assert!(!st.preset_1);
    assert!(st.shift_10_hz);
    assert!(!st.shift_50_hz);
    assert!(matches!(
        K3IconsAndStatus::try_from(&[0x80, 0x80, 0x00, 0x80, 0x80]),
        Err(RigError::InvalidResponseData { .. })
    ));
    assert_eq!(GetK3IconsAndStatus.to_bytes(), b"IC;".to_vec());
}

#[test]
fn icon_bytes_need_bit_seven() {
    let d = VfoAIconData::try_from(0b1000_0101).unwrap();
    assert!(d.xit_on && !d.vfo_a_selected && !d.rit_on);
    let only_bit_seven = VfoAIconData::try_from(0x80).unwrap();
    assert!(only_bit_seven.vfo_a_selected);
    assert!(!only_bit_seven.xit_on && !only_bit_seven.rit_on && !only_bit_seven.attenuator_on);
    assert!(!only_bit_seven.preamp_on && !only_bit_seven.antenna_2_selected);
    assert!(!only_bit_seven.noise_blanker_on);
    assert!(matches!(VfoAIconData::try_from(0x05), Err(RigError::InvalidResponseData { .. })));
    let f = VfoAIconFlashData::try_from(0b1100_0000).unwrap();
    assert!(f.sub_on && !f.atu_on);
}

#[test]
fn installed_options_by_family() {
    match InstalledOptions::try_from(b" APXSDFfLVR--").unwrap() {
        InstalledOptions::K3(o) => {
            assert!(o.has_kat3a_atu && o.has_k3s);
            assert!(o.is_model_k3s() && !o.is_model_k3());
        }
        _ => panic!("expected K3 options"),
    }
    match InstalledOptions::try_from(b" APXSHML14---").unwrap() {
        InstalledOptions::K4(o) => {
            assert!(o.is_k4hd());
            assert!(!o.is_k4() && !o.is_k4d());
        }
        _ => panic!("expected K4 options"),
    }
    match InstalledOptions::try_from(b" APF---TBXI02").unwrap() {
        InstalledOptions::KX(o) => assert!(o.is_model_kx3() && !o.is_model_kx2()),
        _ => panic!("expected KX options"),
    }
    assert!(matches!(InstalledOptions::try_from(b"APXSDFfLVR--"), Err(RigError::InvalidResponseData { .. })));
    assert!(matches!(K3InstalledOptions::try_from(b"?PXSDFfLVR--"), Err(RigError::InvalidResponseData { .. })));
    assert!(K4InstalledOptions::try_from(b"--------").unwrap().is_k4());
    assert!(KXInstalledOptions::try_from(b"-----------1").unwrap().is_model_kx2());
    assert!(GetInstalledOptions.parse(b"OM APXSDFfLVR--;").is_ok());
}

#[test]
fn k3_transceiver_information() {
    let reply = b"IF00014074000     -012010 0006100101 ;";
    let info = GetTransceiverInformation.parse(reply).unwrap();
    assert_eq!(info.operating_frequency, Frequency(14_074_000));
    assert!(info.rit_xit_sign_negative);
    assert_eq!(info.rit_xit_offset_hz, 120);
    assert!(info.rit_on && !info.xit_on);
    assert_eq!(info.operating_mode, OperatingMode::DataA);
    assert_eq!(info.receive_mode_vfo, Vfo::B);
    assert!(info.event_on_band_change);
    assert_eq!(info.data_sub_mode, None);
    let with_sub = b"00014074000     +000000 0006100011 ";
    assert_eq!(TransceiverInformation::try_from(with_sub).unwrap().data_sub_mode, Some(DataSubMode::AfskA));
    assert!(matches!(
        TransceiverInformation::try_from(b"00014074000     +000020 0006100011 "),
        Err(RigError::ParseBoolean { value: b'2' })
    ));
    assert!(matches!(
        TransceiverInformation::try_from(b"00014074000     +000000 0006100071 "),
        Err(RigError::ParseEnum { value_type: "DataSubMode", ref value }) if value == "55"
    ));
    assert!(matches!(
        TransceiverInformation::try_from(b"00014074000     +000000 0006100011X"),
        Err(RigError::InvalidResponseData { ref data }) if data == b"X"
    ));
    assert!(matches!(
        GetTransceiverInformation.parse(b"IF00014074000     -012010 0006100101X;"),
        Err(RigError::InvalidResponseData { ref data }) if data == b"X"
    ));
}

#[test]
fn band_numbers() {
    assert_eq!(parse_band_number(b"05").unwrap(), AllocationBand::Band20M);
    assert_eq!(parse_band_number(b"14").unwrap(), AllocationBand::Band1_2Cm);
    assert!(matches!(parse_band_number(b"18"), Err(RigError::InvalidResponseData { .. })));
    assert!(matches!(parse_band_number(b"5"), Err(RigError::InvalidResponseData { .. })));
    assert_eq!(allocation_band_code(AllocationBand::Band70Cm).unwrap(), 13);
    assert!(matches!(
        allocation_band_code(AllocationBand::Band8M),
        Err(RigError::InvalidArgumentValue { argument_name: "band", .. })
    ));
    let set = SetVfoABandNumber { band: AllocationBand::Band6M }.to_bytes().unwrap();
    assert_eq!(set, b"BN10;".to_vec());
    assert_eq!(GetVfoABandNumber.parse(&set).unwrap(), AllocationBand::Band6M);
    assert_eq!(AllocationBand::Band2M.name(), "Band2M");
}

#[test]
fn numeric_settings() {
    assert_eq!(SetKeyerSpeed { wpm: 25 }.to_bytes().unwrap(), b"KS025;".to_vec());
    assert!(matches!(
        SetKeyerSpeed { wpm: 7 }.to_bytes(),
        Err(RigError::InvalidArgumentValue { argument_name: "wpm", value_type: "u8", ref value }) if value == "7"
    ));
    assert_eq!(SetVfoAAfGain { level: 5 }.to_bytes().unwrap(), b"AG005;".to_vec());
    assert_eq!(SetRitXitOffset { offset_hz: -120 }.to_bytes().unwrap(), b"RO-0120;".to_vec());
    let offset = SetRitXitOffset { offset_hz: 9999 }.to_bytes().unwrap();
    assert_eq!(GetRitXitOffset.parse(&offset).unwrap(), 9999);
}

#[test]
fn signed_offsets() {
    assert_eq!(parse_signed_offset_4(b"-0150").unwrap(), -150);
    assert_eq!(parse_signed_offset_4(b" 0150").unwrap(), 150);
    assert!(matches!(parse_signed_offset_4(b"*0150"), Err(RigError::ParseSign { value: b'*' })));
    assert!(matches!(parse_signed_offset_4(b"+01x0"), Err(RigError::InvalidResponseData { .. })));
}

#[test]
fn buffered_text() {
    let (status, text) = parse_buffered_text(b"1 CQ TEST").unwrap();
    assert_eq!(status, 1);
    assert_eq!(text, b"CQ".to_vec());
    let (status, text) = GetBufferedText.parse(b"TB0 ABCDEFG;").unwrap();
    assert_eq!(status, 0);
    assert_eq!(text, b"ABCDEFG".to_vec());
}

#[test]
fn cw_text_is_padded_to_24() {
    let bytes = SendCwText { buffer_only: false, text: b"CQ".to_vec() }.to_bytes();
    let mut expected = b"KY0 CQ".to_vec();
    expected.extend_from_slice(&[b' '; 22]);
    expected.push(b';');
    assert_eq!(bytes, expected);
    let long = SendCwText { buffer_only: true, text: [b'E'; 30].to_vec() }.to_bytes();
    assert_eq!(long.len(), 2 + 2 + 24 + 1);
}

#[test]
fn k3_display_and_icons() {
    let mut reply = b"DS".to_vec();
    reply.extend_from_slice(&[b'1', b'4' | 0x80, b'0', b'7', b'4', b'0', b'0', b'0']);
    reply.extend_from_slice(&[0x84, 0x80, b';']);
    let d = GetVfoADisplayAndIcons.parse(&reply).unwrap();
    assert_eq!(d.text, "14074000".to_string());
    assert!(d.decimal_points[1] && !d.decimal_points[0]);
    assert!(!d.icon_data.vfo_a_selected);
    let mut bad = reply.clone();
    bad[10] = 0x04;
    assert!(matches!(GetVfoADisplayAndIcons.parse(&bad), Err(RigError::InvalidResponseData { .. })));
}

#[test]
fn generic_operating_mode() {
    assert_eq!(GetOperatingMode { vfo: Vfo::A }.to_bytes(), b"MD;".to_vec());
    assert_eq!(GetOperatingMode { vfo: Vfo::B }.to_bytes(), b"MD$;".to_vec());
    assert_eq!(
        GetOperatingMode { vfo: Vfo::A }.parse(b"MD2;").unwrap(),
        Mode::AnalogVoice(AnalogVoiceMode::UpperSideBand)
    );
    assert_eq!(
        GetOperatingMode { vfo: Vfo::B }.parse(b"MD$7;").unwrap(),
        Mode::Morse(MorseMode::ContinuousWaveReverse)
    );
    assert!(matches!(GetOperatingMode { vfo: Vfo::A }.parse(b"MD8;"), Err(RigError::InvalidResponseData { .. })));
    assert_eq!(Vfo::B.display_name(), "VFO-B");
    assert_eq!(Vfo::from_repr(b'0'), Some(Vfo::A));
}

#[test]
fn md_digit_to_generic_operating_mode() {
    let cases = [
        (b'1', Mode::AnalogVoice(AnalogVoiceMode::LowerSideBand)),
        (b'2', Mode::AnalogVoice(AnalogVoiceMode::UpperSideBand)),
        (b'3', Mode::Morse(MorseMode::ContinuousWave)),
        (b'4', Mode::AnalogVoice(AnalogVoiceMode::FrequencyModulated)),
        (b'5', Mode::AnalogVoice(AnalogVoiceMode::AmplitudeModulated)),
        (b'6', Mode::Data(DataMode::Unspecified)),
        (b'7', Mode::Morse(MorseMode::ContinuousWaveReverse)),
        (b'9', Mode::Data(DataMode::Unspecified)),
    ];
    for (digit, mode) in cases {
        assert_eq!(Mode::try_from(&[digit]).unwrap(), mode);
    }
    for digit in [b'0', b'8', b'A'] {
        match Mode::try_from(&[digit]) {
            Err(RigError::InvalidResponseData { data }) => assert_eq!(data, vec![digit]),
            other => panic!("unexpected {:?}", other),
        }
    }
    match Mode::try_from(b"12") {
        Err(RigError::InvalidResponseLength { expecting, given }) => {
            assert_eq!(expecting, Ranges::Just(1));
            assert_eq!(given, 2);
        }
        other => panic!("unexpected {:?}", other),
    }
}
