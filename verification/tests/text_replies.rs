use rfham_rigs::error::RigError;
use rfham_rigs::protocol::cat::elecraft::kh1::{
    GetHelpInformation, GetTransceiverId, KH1_ID_IN_BOOT_LOADER, KH1_ID_NORMAL,
};
use rfham_rigs::protocol::cat::elecraft::k3_kx::{
    hex_byte_from_ascii, AtuNetworkValues, GetAtuNetworkValues,
};
use rfham_rigs::protocol::cat::elecraft::{k2, kpa1500};

#[test]
fn kh1_identification_reply_is_the_whole_line() {
    assert_eq!(GetTransceiverId.to_bytes(), b"I;".to_vec());
    let normal = GetTransceiverId.parse(b"IKH1;").unwrap();
    assert_eq!(normal, format!("I{};", KH1_ID_NORMAL));
    let boot = GetTransceiverId.parse(b"Ikh1;").unwrap();
    assert_eq!(boot, format!("I{};", KH1_ID_IN_BOOT_LOADER));
}

#[test]
fn kh1_help_text_of_any_length() {
    assert_eq!(GetHelpInformation.to_bytes(), b"H;".to_vec());
    assert_eq!(GetHelpInformation.parse(b"H;").unwrap(), "H;");
    assert_eq!(
        GetHelpInformation.parse(b"HAG FA MD SW;").unwrap(),
        "HAG FA MD SW;"
    );
}

#[test]
fn text_reply_with_control_byte_is_refused() {
    assert!(matches!(
        GetHelpInformation.parse(b"H\x07;"),
        Err(RigError::InvalidResponseData { .. })
    ));
    assert!(matches!(
        k2::GetTransceiverId.parse(b"ID\n017;"),
        Err(RigError::InvalidResponseData { .. })
    ));
}

#[test]
fn k2_and_kpa1500_text_replies() {
    assert_eq!(k2::GetTransceiverId.to_bytes(), b"ID;".to_vec());
    assert_eq!(k2::GetTransceiverId.parse(b"ID017;").unwrap(), "ID017;");
    assert_eq!(kpa1500::GetFirmwareVersion.to_bytes(), b"^RVM;".to_vec());
    assert_eq!(
        kpa1500::GetFirmwareVersion.parse(b"^RVM03.03;").unwrap(),
        "^RVM03.03;"
    );
}

#[test]
fn atu_network_values_are_hexadecimal_in_documented_order() {
    assert_eq!(GetAtuNetworkValues.to_bytes(), b"AK;".to_vec());
    assert_eq!(
        GetAtuNetworkValues.parse(b"AK1A0F01;").unwrap(),
        AtuNetworkValues { inductance_bitmap: 0x1A, capacitance_bitmap: 0x0F, misc_relay_bitmap: 1 }
    );
    assert_eq!(
        GetAtuNetworkValues.parse(b"AK000000;").unwrap(),
        AtuNetworkValues { inductance_bitmap: 0, capacitance_bitmap: 0, misc_relay_bitmap: 0 }
    );
    assert_eq!(hex_byte_from_ascii(b"ff").unwrap(), 255);
    match GetAtuNetworkValues.parse(b"AK1AG001;") {
        Err(RigError::InvalidResponseData { data }) => assert_eq!(data, b"G0".to_vec()),
        other => panic!("unexpected {:?}", other),
    }
    assert!(matches!(
        GetAtuNetworkValues.parse(b"AK1A0F;"),
        Err(RigError::InvalidResponseLength { .. })
    ));
}
