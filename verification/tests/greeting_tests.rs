use sql_protocol::constants::{CapabilityFlag, DEFAULT_SERVER_CAPABILITY};
use sql_protocol::errors::ProtoError;
use sql_protocol::greeting::Greeting;

#[test]
fn test_greeting1() {
    let mut expected = Greeting::new(4, b"".to_vec());
    let mut actual = Box::new(Greeting::default());
    let data = expected.write_handshake_v10(false);
    let result = actual.parse_client_handshake_packet(data.as_slice());
    assert!(result.is_ok());
    assert_eq!(actual, expected);
}

#[test]
fn test_greeting2() {
    let mut expected = Box::new(Greeting::default());
    expected.salt = vec![0; 20];
    expected.capability =
        DEFAULT_SERVER_CAPABILITY & !(CapabilityFlag::CapabilityClientPluginAuth.value());
    assert_eq!(expected.capability, 20161037);
    let mut actual = Box::new(Greeting::default());
    let data = expected.write_handshake_v10(false);
    let result = actual.parse_client_handshake_packet(data.as_slice());
    assert!(result.is_ok());
    assert_eq!(actual, expected);
}

#[test]
fn greeting_carries_the_native_password_plugin() {
    let g = Greeting::new(3, b"5.7.0".to_vec());
    assert_eq!(
        g.auth_plugin_name,
        sql_protocol::constants::mysql_native_password()
    );
    // and the symmetric parse recovers it along with the salt
    let mut src = Greeting::new(3, b"5.7.0".to_vec());
    let data = src.write_handshake_v10(false);
    let mut parsed = Box::new(Greeting::default());
    parsed.parse_client_handshake_packet(data.as_slice()).unwrap();
    assert_eq!(
        parsed.auth_plugin_name,
        sql_protocol::constants::mysql_native_password()
    );
}

#[test]
fn salt_is_twenty_bytes_from_one_to_122() {
    let g = Greeting::new(7, b"5.7.0".to_vec());
    assert_eq!(g.salt.len(), 20);
    for b in g.salt.iter() {
        assert!(1 <= *b && *b <= 122);
    }
    // two greetings almost surely differ in their salts
    let h = Greeting::new(8, b"5.7.0".to_vec());
    assert_ne!(g.salt, h.salt);
}

#[test]
fn handshake_layout() {
    let mut g = Greeting::new(9, b"5.7.0".to_vec());
    let data = g.write_handshake_v10(false);
    // protocol version, then the NUL-terminated server version
    assert_eq!(data[0], 10);
    assert_eq!(&data[1..6], b"5.7.0");
    assert_eq!(data[6], 0);
    // connection id, little endian
    assert_eq!(&data[7..11], &[9, 0, 0, 0]);
    // the first 8 salt bytes and their terminator
    assert_eq!(&data[11..19], &g.salt[0..8]);
    assert_eq!(data[19], 0);
    // charset 33 after the low capability half
    assert_eq!(data[22], 33);
    // total length: version length + 68
    assert_eq!(data.len(), 5 + 68);
}

#[test]
fn greeting_parse_errors() {
    let mut g = Box::new(Greeting::default());
    match g.parse_client_handshake_packet(&[]) {
        Err(ProtoError::ReadProtocolVersionError) => {}
        _ => panic!("Unexpected result"),
    }
    match g.parse_client_handshake_packet(&[10, 0]) {
        Err(ProtoError::ReadConnectionIdError) => {}
        _ => panic!("Unexpected result"),
    }
    match g.parse_client_handshake_packet(&[10, 0, 1, 2, 3, 4]) {
        Err(ProtoError::ReadSaltError) => {}
        _ => panic!("Unexpected result"),
    }
}
