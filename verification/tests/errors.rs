use kerbo::hex::{append_hex4, push_hex};
use kerbo::{KerboError, ProtocolError};

#[test]
fn a_string_becomes_a_protocol_error() {
    let e = KerboError::from(String::from("Timeout"));
    assert_eq!(e, KerboError::Protocol(ProtocolError::new("Timeout".to_string())));
    assert_eq!(e.description(), "Timeout");
}

#[test]
fn a_protocol_error_describes_itself() {
    let e = ProtocolError::new("ERR 5".to_string());
    assert_eq!(e.description(), "ERR 5");
}

#[test]
fn the_description_is_that_of_the_cause() {
    assert_eq!(KerboError::Serial("no device".to_string()).description(), "no device");
    assert_eq!(KerboError::Io("Port closed!".to_string()).description(), "Port closed!");
    assert_eq!(
        KerboError::Identity(ProtocolError::new("Device is not a Kerbo".to_string()))
            .description(),
        "Device is not a Kerbo"
    );
}

#[test]
fn the_message_names_the_kind_of_failure() {
    assert_eq!(
        KerboError::Serial("no device".to_string()).message(),
        "Serial port error: no device"
    );
    assert_eq!(KerboError::Io("Port closed!".to_string()).message(), "I/O error: Port closed!");
    assert_eq!(
        KerboError::from("Timeout".to_string()).message(),
        "Protocol error: Timeout"
    );
    assert_eq!(
        KerboError::Identity(ProtocolError::new("Device is not a Kerbo".to_string())).message(),
        "Protocol error: Device is not a Kerbo"
    );
}

#[test]
fn hex_is_appended_without_leading_zeros() {
    let mut out = b"x".to_vec();
    push_hex(&mut out, 0);
    push_hex(&mut out, 0x1f);
    push_hex(&mut out, 0xdead_beef);
    push_hex(&mut out, u64::MAX);
    assert_eq!(out, b"x01fdeadbeefffffffffffffffff".to_vec());
}

#[test]
fn four_hex_digits_are_zero_padded() {
    assert_eq!(append_hex4("scan".to_string(), 0), "scan0000");
    assert_eq!(append_hex4("scan".to_string(), 0x40), "scan0040");
    assert_eq!(append_hex4(String::new(), 0x190a), "190a");
    assert_eq!(append_hex4(String::new(), 0xffff), "ffff");
}
