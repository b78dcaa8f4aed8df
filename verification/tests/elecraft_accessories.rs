use rfham_rigs::error::RigError;
use rfham_rigs::protocol::cat::elecraft::{kat500, kpa1500, kpa500, kxpa100};
use rfham_rigs::protocol::Frequency;

#[test]
fn kat500_boolean_state_round_trip() {
    for state in [false, true] {
        let bytes = kat500::SetAutoBypassState { state }.to_bytes();
        assert_eq!(kat500::GetAutoBypassState.parse(&bytes).unwrap(), state);
    }
    assert_eq!(kat500::SetAutoBypassState { state: true }.to_bytes(), b"AB1;".to_vec());
    assert_eq!(kat500::GetAutoBypassState.to_bytes(), b"AB;".to_vec());
}

#[test]
fn kat500_enum_settings() {
    let bytes = kat500::SetBaudRate { baud_rate: kat500::BaudRate::Rate19200 }.to_bytes();
    assert_eq!(bytes, b"#BR2;".to_vec());
    assert_eq!(kat500::GetBaudRate.parse(&bytes).unwrap(), kat500::BaudRate::Rate19200);
    assert!(matches!(kat500::GetBaudRate.parse(b"#BR9;"), Err(RigError::InvalidResponseData { .. })));
    let mode = kat500::SetOperatingMode { mode: kat500::OperatingMode::Manual }.to_bytes();
    assert_eq!(kat500::GetOperatingMode.parse(&mode).unwrap(), kat500::OperatingMode::Manual);
}

#[test]
fn kat500_band_and_frequency() {
    assert_eq!(kat500::SetBand { band: 13 }.to_bytes().unwrap(), b"BN13;".to_vec());
    assert!(matches!(
        kat500::SetBand { band: 14 }.to_bytes(),
        Err(RigError::InvalidArgumentValue { argument_name: "band", value_type: "u8", ref value }) if value == "14"
    ));
    let f = kat500::SetFrequency { freq_hz: Frequency(14_074_000) }.to_bytes();
    assert_eq!(f, b"F14074000;".to_vec());
    assert_eq!(kat500::GetFrequency.parse(&f).unwrap(), Frequency(14_074_000));
}

#[test]
fn kpa500_settings_round_trip() {
    let alc = kpa500::SetAlcThreshold { value: 210 }.to_bytes().unwrap();
    assert_eq!(alc, b"^AL210;".to_vec());
    assert_eq!(kpa500::GetAlcThreshold.parse(&alc).unwrap(), 210);
    assert!(matches!(kpa500::SetAlcThreshold { value: 211 }.to_bytes(), Err(RigError::InvalidArgumentValue { argument_name: "value", .. })));
    assert!(matches!(
        kpa500::SetAttenuatorReleaseTime { ms: 1399 }.to_bytes(),
        Err(RigError::InvalidArgumentValue { argument_name: "ms", value_type: "u16", .. })
    ));
    assert_eq!(kpa500::SetAttenuatorReleaseTime { ms: 1400 }.to_bytes().unwrap(), b"^AR1400;".to_vec());
    let band = kpa500::SetBandSelection { band: 5 }.to_bytes().unwrap();
    assert_eq!(kpa500::GetBandSelection.parse(&band).unwrap(), 5);
    let operate = kpa500::SetOperateMode { operate: true }.to_bytes();
    assert!(kpa500::GetOperateMode.parse(&operate).unwrap());
    assert_eq!(kpa500::ClearFault.to_bytes(), b"^FLC;".to_vec());
    assert_eq!(kpa500::TurnPowerOff.to_bytes(), b"^ON0;".to_vec());
}

#[test]
fn kpa500_multi_field_replies() {
    let vi = kpa500::GetPaVoltageCurrent.parse(b"^VI485 123;").unwrap();
    assert_eq!((vi.voltage_dv, vi.current_da), (485, 123));
    let ws = kpa500::GetPowerAndSwr.parse(b"^WS500 015;").unwrap();
    assert_eq!((ws.power_w, ws.swr_d), (500, 15));
    assert!(matches!(kpa500::GetPowerAndSwr.parse(b"^WS5x0 015;"), Err(RigError::InvalidResponseData { ref data }) if data == b"5x0"));
    let ri = kpa500::GetRadioInterface.parse(b"^XI031;").unwrap();
    assert_eq!((ri.interface_type, ri.option), (3, 1));
    assert_eq!(kpa500::SetRadioInterface { interface_type: 3, option: 1 }.to_bytes().unwrap(), b"^XI031;".to_vec());
    assert!(matches!(
        kpa500::SetRadioInterface { interface_type: 4, option: 1 }.to_bytes(),
        Err(RigError::InvalidArgumentValue { argument_name: "interface_type", .. })
    ));
    assert!(matches!(
        kpa500::SetRadioInterface { interface_type: 1, option: 2 }.to_bytes(),
        Err(RigError::InvalidArgumentValue { argument_name: "option", .. })
    ));
}

#[test]
fn kxpa100_commands() {
    let f = kxpa100::SetFrequency { hz: 7_030_000 }.to_bytes();
    assert_eq!(f, b"^F07030000;".to_vec());
    assert_eq!(kxpa100::GetFrequency.parse(&f).unwrap(), 7_030_000);
    let adc = kxpa100::GetAdcReadings.parse(b"^AD138 042 139;").unwrap();
    assert_eq!((adc.drain_voltage_dv, adc.drain_current_da, adc.supply_voltage_dv), (138, 42, 139));
    let busy = kxpa100::GetBusyStatus.parse(b"^BY10;").unwrap();
    assert!(busy.busy && !busy.ptt_asserted);
    let ri = kxpa100::GetRadioInterface.parse(b"^XI021;").unwrap();
    assert_eq!(ri.interface_type, kxpa100::RadioInterfaceType::Analog);
    assert_eq!(ri.option, 1);
    assert!(matches!(
        kxpa100::GetRadioInterface.parse(b"^XI051;"),
        Err(RigError::ParseEnum { value_type: "RadioInterfaceType", ref value }) if value == "[30, 35, 31]"
    ));
}

#[test]
fn kpa1500_commands() {
    for enabled in [false, true] {
        let bytes = kpa1500::SetAutoAntennaSelection { enabled }.to_bytes();
        assert_eq!(kpa1500::GetAutoAntennaSelection.parse(&bytes).unwrap(), enabled);
    }
    assert_eq!(kpa1500::SetPeakPowerControl { watts: 1500 }.to_bytes().unwrap(), b"^PC1500;".to_vec());
    assert!(matches!(kpa1500::SetPeakPowerControl { watts: 1501 }.to_bytes(), Err(RigError::InvalidArgumentValue { .. })));
    let st = kpa1500::GetAtuStatus.parse(b"^AS011;").unwrap();
    assert!(!st.tuning && st.in_line && st.preset_loaded);
    let pwr = kpa1500::GetPowerStatusSummary.parse(b"^PWR1000 0015 0010 0050;").unwrap();
    assert_eq!((pwr.power_w, pwr.swr_d, pwr.reflected_w, pwr.input_w), (1000, 15, 10, 50));
    let ws = kpa1500::GetPowerAndSwr.parse(b"^WS01500 00015;").unwrap();
    assert_eq!((ws.power_w, ws.swr_d), (1500, 15));
}
