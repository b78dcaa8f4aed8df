use rfham_rigs::error::RigError;
use rfham_rigs::protocol::cat::elecraft::k3_kx::{
    DataSubMode, GetDataSubMode, GetMemoryChannel, GetReceiveVfo, GetVfoALockState,
    GetVfoAOperatingMode, OperatingMode, SetDataSubMode, SetDspCommandDebugState,
    SetMemoryChannel, SetReceiveVfo, SetTransmitEqualizer, SetVfoALockState,
    SetVfoAOperatingMode, SetVfoBDisplayText,
};
use rfham_rigs::protocol::cat::elecraft::k4::{
    AtuMode, GetAtuMode, GetVfoAAgcMode, SetAtuMode, SetCwSidetonePitch, SetVfoAAgcMode,
    SetVoxGain,
};
use rfham_rigs::protocol::cat::elecraft::Vfo;

#[test]
fn k3_lock_and_sub_mode_round_trips() {
    for state in [false, true] {
        let bytes = SetVfoALockState { state }.to_bytes();
        assert_eq!(GetVfoALockState.parse(&bytes).unwrap(), state);
    }
    let bytes = SetDataSubMode { sub_mode: DataSubMode::PskD }.to_bytes();
    assert_eq!(bytes, b"DT3;".to_vec());
    assert_eq!(GetDataSubMode.parse(&bytes).unwrap(), DataSubMode::PskD);
}

#[test]
fn k3_memory_channel_range() {
    let bytes = SetMemoryChannel { channel: 42 }.to_bytes().unwrap();
    assert_eq!(bytes, b"MC042;".to_vec());
    assert_eq!(GetMemoryChannel.parse(&bytes).unwrap(), 42);
    assert!(matches!(
        SetMemoryChannel { channel: 0 }.to_bytes(),
        Err(RigError::InvalidArgumentValue { argument_name: "channel", value_type: "u8", ref value }) if value == "0"
    ));
}

#[test]
fn k3_vfo_operating_mode() {
    let bytes = SetVfoAOperatingMode::to_upper_sideband().to_bytes();
    assert_eq!(bytes, b"MD2;".to_vec());
    assert_eq!(GetVfoAOperatingMode.parse(&bytes).unwrap(), OperatingMode::UpperSideBand);
}

#[test]
fn k3_receive_vfo_and_raw_commands() {
    let bytes = SetReceiveVfo { vfo: Vfo::B }.to_bytes();
    assert_eq!(bytes, b"FR1;".to_vec());
    assert_eq!(GetReceiveVfo.parse(&bytes).unwrap(), Vfo::B);
    assert!(matches!(GetReceiveVfo.parse(b"FR2;"), Err(RigError::InvalidResponseData { .. })));
    assert_eq!(SetDspCommandDebugState { state: true }.to_bytes(), b"DL2;".to_vec());
    assert_eq!(SetDspCommandDebugState { state: false }.to_bytes(), b"DL3;".to_vec());
    assert_eq!(SetVfoBDisplayText { text: *b"HELLO 73" }.to_bytes(), b"DBHELLO 73;".to_vec());
    assert_eq!(SetTransmitEqualizer { params: b"+1+2".to_vec() }.to_bytes(), b"TE+1+2;".to_vec());
}

#[test]
fn k4_enum_and_ranged_settings() {
    assert_eq!(SetAtuMode::to_inline().to_bytes(), b"AT1;".to_vec());
    let bytes = SetAtuMode { mode: AtuMode::Bypassed }.to_bytes();
    assert_eq!(GetAtuMode.parse(&bytes).unwrap(), AtuMode::Bypassed);
    assert_eq!(SetCwSidetonePitch { pitch_hz: 600 }.to_bytes().unwrap(), b"CW600;".to_vec());
    assert!(matches!(
        SetCwSidetonePitch { pitch_hz: 299 }.to_bytes(),
        Err(RigError::InvalidArgumentValue { argument_name: "hz", value_type: "u16", .. })
    ));
    assert_eq!(SetVoxGain { gain: 9 }.to_bytes().unwrap(), b"VG009;".to_vec());
    let agc = SetVfoAAgcMode { mode: 2 }.to_bytes().unwrap();
    assert_eq!(GetVfoAAgcMode.parse(&agc).unwrap(), 2);
}
