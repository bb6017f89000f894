use sql_protocol::constants::{
    convert_character_value, is_conn_err, CapabilityFlag, PacketType, ServerError, StateError,
    TLSVersion, DEFAULT_SERVER_CAPABILITY,
};
use sql_protocol::sql_type::{type_to_mysql, MysqlFlag, Value};

#[test]
fn server_capability_advertises_the_documented_bits() {
    assert_eq!(DEFAULT_SERVER_CAPABILITY, 20685325);
    assert_eq!(CapabilityFlag::CapabilityClientDeprecateEOF.value(), 0x1000000);
    assert_eq!(CapabilityFlag::CapabilityClientProtocol41.value(), 0x200);
    assert_eq!(CapabilityFlag::CapabilityClientSecureConnection.value(), 0x8000);
}

#[test]
fn packet_type_codes_and_names() {
    assert_eq!(PacketType::ComQuery.code(), 0x03);
    assert_eq!(PacketType::ComQuit.code(), 0x01);
    assert_eq!(PacketType::ComSetOption.code(), 0x1b);
    assert!(matches!(PacketType::from_code(0x0e), Some(PacketType::ComPing)));
    assert!(matches!(
        PacketType::from_code(0x1f),
        Some(PacketType::ComResetConnection)
    ));
    assert!(PacketType::from_code(0x20).is_none());
    assert_eq!(PacketType::ComQuery.name(), b"COM_QUERY".to_vec());
    assert_eq!(PacketType::ComBinlogDumpGtid.name(), b"COM_BINLOG_DUMP_GTID".to_vec());
}

#[test]
fn server_error_codes() {
    assert_eq!(ServerError::ERUnknownError.code(), 1105);
    assert_eq!(ServerError::ERUnknownComError.code(), 1047);
    assert_eq!(ServerError::ERQueryInterrupted.code(), 1317);
}

#[test]
fn sql_states_are_five_bytes() {
    assert_eq!(StateError::SSUnknownSQLState.sql_state(), b"HY000".to_vec());
    assert_eq!(StateError::SSUnknownComError.sql_state(), b"08S01".to_vec());
    assert_eq!(StateError::SSDataTooLong.sql_state(), b"22001".to_vec());
    assert_eq!(StateError::SSLockDeadlock.sql_state(), b"40001".to_vec());
}

#[test]
fn tls_versions_round_trip() {
    assert_eq!(TLSVersion::VersionTLS12.value(), 0x0303);
    assert!(matches!(
        TLSVersion::from_code(0x0301),
        Some(TLSVersion::VersionTLS10)
    ));
    assert!(TLSVersion::from_code(0x0399).is_none());
}

#[test]
fn charset_map_matches_the_table() {
    assert_eq!(convert_character_value(&b"utf8".to_vec()), 33);
    assert_eq!(convert_character_value(&b"binary".to_vec()), 63);
    assert_eq!(convert_character_value(&b"big5".to_vec()), 1);
    assert_eq!(convert_character_value(&b"eucjpms".to_vec()), 97);
    assert_eq!(convert_character_value(&b"utf8mb4".to_vec()), 45);
}

#[test]
fn conn_err_covers_client_errors_and_query_interrupt() {
    assert!(is_conn_err(2000));
    assert!(is_conn_err(2018));
    assert!(is_conn_err(1317));
    assert!(!is_conn_err(1999));
    assert!(!is_conn_err(2019));
    assert!(!is_conn_err(1105));
}

#[test]
fn type_table_maps_documented_entries() {
    assert_eq!(type_to_mysql(263), (3, 0));
    assert_eq!(type_to_mysql(0), (6, MysqlFlag::MysqlBinary.value() as i64));
    assert_eq!(type_to_mysql(778), (8, MysqlFlag::MysqlUnsigned.value() as i64));
    assert_eq!(type_to_mysql(2074), (254, MysqlFlag::MysqlEnum.value() as i64));
    assert_eq!(type_to_mysql(2075), (254, MysqlFlag::MysqlSet.value() as i64));
    assert_eq!(type_to_mysql(2078), (245, 0));
}

#[test]
fn null_value_is_type_zero() {
    let v = Value { typ: 0, val: Vec::new() };
    assert!(v.is_null());
    let w = Value { typ: 263, val: b"7".to_vec() };
    assert!(!w.is_null());
}
