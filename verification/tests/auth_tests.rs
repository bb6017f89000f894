use sql_protocol::auth::{gen_native_password, Auth};
use sql_protocol::constants::{
    default_salt, mysql_native_password, CapabilityFlag, DEFAULT_CLIENT_CAPABILITY,
};
use sql_protocol::errors::ProtoError;

#[test]
fn test_auth() {
    let data = &[
        0x8d, 0xa6, 0xff, 0x01, 0x00, 0x00, 0x00, 0x01, 0x21, 0x00, 0x00, 0x00, 0x00, 0x00, 0x00,
        0x00, 0x00, 0x00, 0x00, 0x00, 0x00, 0x00, 0x00, 0x00, 0x00, 0x00, 0x00, 0x00, 0x00, 0x00,
        0x00, 0x00, 0x72, 0x6f, 0x6f, 0x74, 0x00, 0x14, 0x0e, 0xb4, 0xdd, 0xb5, 0x5b, 0x64, 0xf8,
        0x54, 0x40, 0xfd, 0xf3, 0x45, 0xfa, 0x37, 0x12, 0x20, 0x20, 0xda, 0x38, 0xaa, 0x61, 0x62,
        0x63, 0x00, 0x6d, 0x79, 0x73, 0x71, 0x6c, 0x5f, 0x6e, 0x61, 0x74, 0x69, 0x76, 0x65, 0x5f,
        0x70, 0x61, 0x73, 0x73, 0x77, 0x6f, 0x72, 0x64, 0x00,
    ];
    let mut auth = Auth::new();
    auth.parse_client_handshake_packet(data, false).unwrap();
    assert_eq!(auth.character_set, 33);
    assert_eq!(auth.max_packet_size, 16777216);
    assert_eq!(auth.auth_method, mysql_native_password());
    assert_eq!(auth.database, b"abc".to_vec());
    assert_eq!(auth.user, b"root".to_vec());
    assert_eq!(
        auth.auth_response,
        vec![
            0x0e, 0xb4, 0xdd, 0xb5, 0x5b, 0x64, 0xf8, 0x54, 0x40, 0xfd, 0xf3, 0x45, 0xfa, 0x37,
            0x12, 0x20, 0x20, 0xda, 0x38, 0xaa
        ]
    );
}

#[test]
fn test_error() {
    let data = &[0x8d, 0xa6, 0xff];
    let mut auth = Auth::new();
    match auth.parse_client_handshake_packet(data, false) {
        Err(ProtoError::ReadClientFlagError) => {}
        _ => {
            panic!("Unexpected result");
        }
    }
    let data = &[0x8d, 0xa6, 0xff, 0x01, 0x00, 0x00, 0x00];
    let mut auth = Auth::new();
    match auth.parse_client_handshake_packet(data, false) {
        Err(ProtoError::ReadMaxPacketSizeError) => {}
        _ => {
            panic!("Unexpected result");
        }
    }
    let data = &[0x8d, 0xa6, 0xff, 0x01, 0x00, 0x00, 0x00, 0x01];
    let mut auth = Auth::new();
    match auth.parse_client_handshake_packet(data, false) {
        Err(ProtoError::ReadCharsetError) => {}
        _ => {
            panic!("Unexpected result");
        }
    }
    let data = &[
        0x8d, 0xa6, 0xff, 0x01, 0x00, 0x00, 0x00, 0x01, 0x21, 0x00, 0x00, 0x00,
    ];
    let mut auth = Auth::new();
    match auth.parse_client_handshake_packet(data, false) {
        Err(ProtoError::ReadZeroError) => {}
        _ => {
            panic!("Unexpected result");
        }
    }
}

#[test]
fn test_unpack() {
    let salt = default_salt();
    let mut expected = Auth::new();
    expected.character_set = 0x02;
    expected.capability_flags =
        DEFAULT_CLIENT_CAPABILITY | CapabilityFlag::CapabilityClientConnectWithDB.value();
    expected.auth_response = gen_native_password(b"password", &salt);
    expected.database = b"test_db".to_vec();
    expected.user = b"root".to_vec();
    expected.auth_method = mysql_native_password();

    let mut actual = Auth::new();
    let tmp = Auth::write_handshake_resp(
        DEFAULT_CLIENT_CAPABILITY,
        0x02,
        b"root".to_vec(),
        b"password".to_vec(),
        &salt,
        b"test_db".to_vec(),
    );
    actual
        .parse_client_handshake_packet(tmp.unwrap().as_slice(), false)
        .unwrap();
    assert_eq!(actual, expected);
}

#[test]
fn test_unpack_with_empty_db() {
    let salt = default_salt();
    let mut expected = Auth::new();
    expected.character_set = 0x02;
    expected.capability_flags = DEFAULT_CLIENT_CAPABILITY;
    expected.auth_response = gen_native_password(b"password", &salt);
    expected.database = b"".to_vec();
    expected.user = b"root".to_vec();
    expected.auth_method = mysql_native_password();

    let mut actual = Auth::new();
    let tmp = Auth::write_handshake_resp(
        DEFAULT_CLIENT_CAPABILITY,
        0x02,
        b"root".to_vec(),
        b"password".to_vec(),
        &salt,
        b"".to_vec(),
    );
    actual
        .parse_client_handshake_packet(tmp.unwrap().as_slice(), false)
        .unwrap();
    assert_eq!(actual, expected);
}

#[test]
fn test_unpack_without_pwd() {
    let salt = default_salt();
    let mut expected = Auth::new();
    expected.character_set = 0x02;
    expected.capability_flags =
        DEFAULT_CLIENT_CAPABILITY | CapabilityFlag::CapabilityClientConnectWithDB.value();
    expected.auth_response = gen_native_password(b"", &salt);
    expected.database = b"db".to_vec();
    expected.user = b"root".to_vec();
    expected.auth_method = mysql_native_password();

    let mut actual = Auth::new();
    let tmp = Auth::write_handshake_resp(
        DEFAULT_CLIENT_CAPABILITY,
        0x02,
        b"root".to_vec(),
        b"".to_vec(),
        &salt,
        b"db".to_vec(),
    );
    actual
        .parse_client_handshake_packet(tmp.unwrap().as_slice(), false)
        .unwrap();
    assert_eq!(actual, expected);
}

#[test]
fn test_unpack_without_secure() {
    let salt = default_salt();
    let secure = CapabilityFlag::CapabilityClientSecureConnection.value();
    let lenenc_data = CapabilityFlag::CapabilityClientPluginAuthLenencClientData.value();
    let mut expected = Auth::new();
    expected.character_set = 0x02;
    expected.capability_flags = DEFAULT_CLIENT_CAPABILITY & !secure & !lenenc_data;
    expected.capability_flags |= CapabilityFlag::CapabilityClientConnectWithDB.value();
    expected.auth_response = gen_native_password(b"password", &salt);
    expected.database = b"test_db".to_vec();
    expected.user = b"root".to_vec();
    expected.auth_method = mysql_native_password();

    let mut actual = Auth::new();
    let tmp = Auth::write_handshake_resp(
        DEFAULT_CLIENT_CAPABILITY & !secure,
        0x02,
        b"root".to_vec(),
        b"password".to_vec(),
        &salt,
        b"test_db".to_vec(),
    );
    actual
        .parse_client_handshake_packet(tmp.unwrap().as_slice(), false)
        .unwrap();
    assert_eq!(actual, expected);
}

#[test]
fn protocol_41_is_demanded() {
    // a client flag without the PROTOCOL_41 bit is turned away
    let data = &[
        0x8d, 0xa4, 0xff, 0x01, 0x00, 0x00, 0x00, 0x01, 0x21, 0x00, 0x00, 0x00,
    ];
    let mut auth = Auth::new();
    match auth.parse_client_handshake_packet(data, false) {
        Err(ProtoError::ProtocolNotSupport) => {}
        _ => panic!("Unexpected result"),
    }
}

#[test]
fn native_password_of_empty_password_is_empty() {
    let salt = default_salt();
    assert_eq!(gen_native_password(b"", &salt), Vec::<u8>::new());
}

#[test]
fn native_password_is_twenty_bytes() {
    let salt = default_salt();
    assert_eq!(gen_native_password(b"x", &salt).len(), 20);
    assert_eq!(gen_native_password(b"a much longer password", &salt).len(), 20);
}

#[test]
fn native_password_depends_on_salt() {
    let salt1 = default_salt();
    let mut salt2 = default_salt();
    salt2[0] ^= 0xff;
    assert_ne!(
        gen_native_password(b"password", &salt1),
        gen_native_password(b"password", &salt2)
    );
}

#[test]
fn native_password_known_value() {
    // SHA1(p) xor SHA1(s || SHA1(SHA1(p))) for p = "password" and the fixed
    // test salt, computed with an independent SHA-1.
    let salt = default_salt();
    assert_eq!(
        gen_native_password(b"password", &salt),
        vec![
            17, 167, 145, 105, 109, 173, 51, 88, 102, 33, 107, 0, 67, 175, 113, 232, 40, 58, 206,
            120
        ]
    );
}
