use xiaoxin_esp32::wifi::{auth_method, format_mac, AuthMethod, WifiError};

#[test]
fn auth_method_follows_credentials() {
    assert_eq!(auth_method("", "secret"), Err(WifiError::MissingName));
    assert_eq!(auth_method("", ""), Err(WifiError::MissingName));
    assert_eq!(auth_method("home", ""), Ok(AuthMethod::Open));
    assert_eq!(auth_method("home", "secret"), Ok(AuthMethod::WPA2Personal));
}

#[test]
fn mac_is_written_in_upper_case_hex() {
    assert_eq!(format_mac(&[0x00, 0x1A, 0xFF, 0x09, 0xA0, 0xBC]), "00:1A:FF:09:A0:BC");
    assert_eq!(format_mac(&[0xDE]), "DE");
    assert_eq!(format_mac(&[]), "");
    assert_eq!(format_mac(&[0x01, 0x23, 0x45, 0x67, 0x89, 0xAB, 0xCD, 0xEF]), "01:23:45:67:89:AB:CD:EF");
    let mac = [0x7Cu8, 0xDF, 0xA1, 0x00, 0x5E, 0x3B];
    let expected = mac.iter().map(|b| format!("{:02X}", b)).collect::<Vec<String>>().join(":");
    assert_eq!(format_mac(&mac), expected);
}
