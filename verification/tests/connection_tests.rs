use sql_protocol::auth::Auth;
use sql_protocol::connection::Connection;
use sql_protocol::constants::{mysql_native_password, DEFAULT_CLIENT_CAPABILITY};
use sql_protocol::errors::ProtoError;
use sql_protocol::packets::Packets;

#[test]
fn connection_phase_end_to_end() {
    // server side
    let mut conn = Connection::new(4, b"5.7.0".to_vec());
    conn.start_handshake(false);
    let greeting_wire = conn.packets.take_output();

    // client side: read the greeting, answer with an auth response
    let mut client = Packets::new();
    client.feed(&greeting_wire);
    let greeting_payload = client.read_ephemeral_packet().unwrap();
    assert_eq!(greeting_payload[0], 10);

    let salt = conn.greeting.salt.clone();
    let resp = Auth::write_handshake_resp(
        DEFAULT_CLIENT_CAPABILITY,
        33,
        b"root".to_vec(),
        b"password".to_vec(),
        &salt,
        b"test_db".to_vec(),
    )
    .unwrap();
    client.write_packet(&resp);
    let resp_wire = client.take_output();

    // server reads the response at sequence 1 and acknowledges with OK
    conn.packets.feed(&resp_wire);
    conn.process_auth_response().unwrap();
    assert_eq!(conn.auth.user, b"root".to_vec());
    assert_eq!(conn.auth.database, b"test_db".to_vec());
    assert_eq!(conn.auth.auth_method, mysql_native_password());
    assert_eq!(conn.auth.auth_response.len(), 20);

    // the OK leaves at sequence 2
    let ok_wire = conn.packets.take_output();
    assert_eq!(ok_wire, vec![7, 0, 0, 2, 0x00, 0, 0, 2, 0, 0, 0]);
}

#[test]
fn auth_response_out_of_sequence_is_refused() {
    let mut conn = Connection::new(5, b"5.7.0".to_vec());
    conn.start_handshake(false);
    conn.packets.take_output();
    // the client's reply must carry sequence 1; sequence 0 is a replay
    conn.packets.feed(&[1, 0, 0, 0, 0x05]);
    match conn.process_auth_response() {
        Err(ProtoError::InvalidSequence) => {}
        _ => panic!("Unexpected result"),
    }
}

#[test]
fn check_auth_applies_the_first_read_mask() {
    let mut conn = Connection::new(6, b"5.7.0".to_vec());
    let salt = conn.greeting.salt.clone();
    let resp = Auth::write_handshake_resp(
        DEFAULT_CLIENT_CAPABILITY,
        33,
        b"root".to_vec(),
        b"".to_vec(),
        &salt,
        b"".to_vec(),
    )
    .unwrap();
    conn.check_auth(&resp).unwrap();
    // on the first read the capability collapses to DEPRECATE_EOF and
    // FOUND_ROWS, with MULTI_STATEMENTS carried over when asked for
    assert_eq!(conn.auth.capability_flags, 0x1000000 | 0x10000);
}

#[test]
fn unpack_auth_has_nothing_to_parse() {
    let mut conn = Connection::new(7, b"5.7.0".to_vec());
    match conn.unpack_auth() {
        Err(ProtoError::ReadClientFlagError) => {}
        _ => panic!("Unexpected result"),
    }
}

#[test]
fn stream_placeholder_accepts_everything() {
    let mut s = sql_protocol::stream::Stream {};
    assert!(s.write(&[1, 2, 3]).is_ok());
    assert!(s.read().is_ok());
}
