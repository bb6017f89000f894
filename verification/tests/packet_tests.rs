use sql_protocol::constants::{
    CapabilityFlag, MAX_PACKET_SIZE, OK_PACKET, SERVER_STATUS_AUTOCOMMIT,
};
use sql_protocol::errors::ProtoError;
use sql_protocol::packets::{CommandAction, Packets};
use sql_protocol::sql_type::{Field, SqlResult, Value};

#[test]
fn test_basic() {
    let mut server = Packets::new();
    server.write_ok_packet(12, 34, 56, 78);
    let wire = server.take_output();

    let mut client = Packets::new();
    client.feed(&wire);
    let data = client.read_packets().unwrap();
    assert_eq!(data[0], OK_PACKET);
}

#[test]
fn framing_round_trip_small() {
    let payload: Vec<u8> = (0..100u32).map(|i| (i % 251) as u8).collect();
    let mut writer = Packets::new();
    writer.write_packet(&payload);
    let wire = writer.take_output();

    let mut reader = Packets::new();
    reader.feed(&wire);
    let got = reader.read_ephemeral_packet().unwrap();
    assert_eq!(got, payload);
}

#[test]
fn framing_round_trip_across_chunk_boundary() {
    // a payload past one full chunk splits and reassembles
    let n = MAX_PACKET_SIZE + 5;
    let payload: Vec<u8> = (0..n).map(|i| (i % 251) as u8).collect();
    let mut writer = Packets::new();
    writer.write_packet(&payload);
    let wire = writer.take_output();
    assert_eq!(wire.len(), n + 8);

    let mut reader = Packets::new();
    reader.feed(&wire);
    let got = reader.read_ephemeral_packet().unwrap();
    assert_eq!(got.len(), payload.len());
    assert!(got == payload);

    // the reader ends on the writer's sequence id: both wrote/read 2 chunks,
    // so the next command packet framed by either carries sequence 2
    let mut w2 = Packets::new();
    w2.write_packet(&payload);
    w2.write_packet(&[1]);
    let wire2 = w2.take_output();
    let tail = &wire2[wire2.len() - 5..];
    assert_eq!(tail, &[1, 0, 0, 2, 1]);
}

#[test]
fn oversize_packet_splits_in_two() {
    let payload: Vec<u8> = vec![0xab; MAX_PACKET_SIZE];
    let mut writer = Packets::new();
    writer.write_packet(&payload);
    let wire = writer.take_output();
    assert_eq!(wire.len(), MAX_PACKET_SIZE + 8);
    assert_eq!(&wire[0..4], &[0xff, 0xff, 0xff, 0]);
    assert_eq!(&wire[4 + MAX_PACKET_SIZE..], &[0, 0, 0, 1]);
}

#[test]
fn invalid_sequence_is_surfaced() {
    let mut reader = Packets::new();
    reader.feed(&[1, 0, 0, 5, 0x0e]);
    match reader.read_ephemeral_packet() {
        Err(ProtoError::InvalidSequence) => {}
        _ => panic!("Unexpected result"),
    }
}

#[test]
fn short_input_asks_for_more() {
    let mut reader = Packets::new();
    reader.feed(&[5, 0, 0, 0, 1, 2]);
    match reader.read_ephemeral_packet() {
        Err(ProtoError::ReadNextPacketError) => {}
        _ => panic!("Unexpected result"),
    }
    // feeding the rest lets the same read go through
    reader.feed(&[3, 4, 5]);
    assert_eq!(reader.read_ephemeral_packet().unwrap(), vec![1, 2, 3, 4, 5]);
}

#[test]
fn oversize_handshake_reply_is_refused() {
    let mut reader = Packets::new();
    let mut wire = vec![0xff, 0xff, 0xff, 0];
    wire.extend(std::iter::repeat(7u8).take(MAX_PACKET_SIZE));
    reader.feed(&wire);
    match reader.read_ephemeral_packet_direct() {
        Err(ProtoError::MultiPacketNotSupport) => {}
        _ => panic!("Unexpected result"),
    }
}

#[test]
fn com_quit_returns_the_quit_signal() {
    let mut p = Packets::new();
    p.feed(&[0x01, 0, 0, 0, 0x01]);
    match p.handle_next_command(SERVER_STATUS_AUTOCOMMIT, 0) {
        Err(ProtoError::ComQuit) => {}
        _ => panic!("Unexpected result"),
    }
    assert!(p.take_output().is_empty());
}

#[test]
fn com_ping_answers_ok() {
    let mut p = Packets::new();
    p.feed(&[0x01, 0, 0, 0, 0x0e]);
    match p.handle_next_command(SERVER_STATUS_AUTOCOMMIT, 0) {
        Ok(CommandAction::Done) => {}
        _ => panic!("Unexpected result"),
    }
    let out = p.take_output();
    assert_eq!(out, vec![7, 0, 0, 1, 0x00, 0, 0, 2, 0, 0, 0]);
}

#[test]
fn empty_packet_is_an_error() {
    let mut p = Packets::new();
    p.feed(&[0, 0, 0, 0]);
    match p.handle_next_command(SERVER_STATUS_AUTOCOMMIT, 0) {
        Err(ProtoError::EmptyPacketError) => {}
        _ => panic!("Unexpected result"),
    }
}

#[test]
fn unknown_command_answers_err() {
    let mut p = Packets::new();
    p.feed(&[0x01, 0, 0, 0, 0x00]); // COM_SLEEP is not served
    match p.handle_next_command(SERVER_STATUS_AUTOCOMMIT, 0) {
        Ok(CommandAction::Done) => {}
        _ => panic!("Unexpected result"),
    }
    let out = p.take_output();
    // one framed ERR packet: 0xff, code 1047, '#', "08S01", then the message
    assert_eq!(out[4], 0xff);
    assert_eq!(u16::from_le_bytes([out[5], out[6]]), 1047);
    assert_eq!(out[7], b'#');
    assert_eq!(&out[8..13], b"08S01");
    assert_eq!(&out[13..], b"Unknown command: COM_SLEEP");
}

#[test]
fn com_query_ok_result() {
    let mut p = Packets::new();
    p.feed(&[6, 0, 0, 0, 0x03, b's', b'e', b'l', b'e', b'c']);
    let action = p
        .handle_next_command(SERVER_STATUS_AUTOCOMMIT, 0)
        .unwrap();
    match action {
        CommandAction::Query { sql } => assert_eq!(sql, b"selec".to_vec()),
        _ => panic!("Unexpected result"),
    }
    let mut seg = SqlResult::default();
    seg.affected_rows = 12;
    seg.insert_id = 34;
    p.exec_query(&vec![seg], false).unwrap();
    let out = p.take_output();
    // one framed packet: 0x00, lenenc(12), lenenc(34), status flags, warnings
    assert_eq!(out, vec![7, 0, 0, 1, 0x00, 12, 34, 2, 0, 0, 0]);
}

#[test]
fn com_query_one_row_deprecate_eof() {
    let cap = CapabilityFlag::CapabilityClientDeprecateEOF.value();
    let mut p = Packets::new();
    p.feed(&[2, 0, 0, 0, 0x03, b'q']);
    p.handle_next_command(SERVER_STATUS_AUTOCOMMIT, cap).unwrap();

    let mut fields_seg = SqlResult::default();
    let mut field = Field::default();
    field.name = b"c".to_vec();
    field.typ = 263;
    fields_seg.fields = vec![field];

    let mut rows_seg = SqlResult::default();
    rows_seg.rows = vec![vec![Value { typ: 263, val: b"7".to_vec() }]];

    p.exec_query(&vec![fields_seg, rows_seg], false).unwrap();
    let out = p.take_output();

    let mut expected: Vec<u8> = Vec::new();
    // field-count packet
    expected.extend(&[1, 0, 0, 1, 1]);
    // one ColumnDefinition41 packet
    expected.extend(&[23, 0, 0, 2]);
    expected.extend(&[
        3, 100, 101, 102, 0, 0, 0, 1, 99, 0, 12, 0, 0, 0, 0, 0, 0, 3, 0, 0, 0, 0, 0,
    ]);
    // the row packet: lenenc_str of "7"
    expected.extend(&[2, 0, 0, 3, 1, 0x37]);
    // the terminator: OK with the EOF header byte, not the 5-byte EOF form
    expected.extend(&[7, 0, 0, 4, 0xfe, 0, 0, 2, 0, 0, 0]);
    assert_eq!(out, expected);
}

#[test]
fn com_query_one_row_with_eof_packets() {
    let mut p = Packets::new();
    p.feed(&[2, 0, 0, 0, 0x03, b'q']);
    p.handle_next_command(SERVER_STATUS_AUTOCOMMIT, 0).unwrap();

    let mut fields_seg = SqlResult::default();
    let mut field = Field::default();
    field.name = b"c".to_vec();
    field.typ = 263;
    fields_seg.fields = vec![field];

    let mut rows_seg = SqlResult::default();
    rows_seg.rows = vec![vec![Value { typ: 263, val: b"7".to_vec() }]];

    p.exec_query(&vec![fields_seg, rows_seg], false).unwrap();
    let out = p.take_output();

    let mut expected: Vec<u8> = Vec::new();
    expected.extend(&[1, 0, 0, 1, 1]);
    expected.extend(&[23, 0, 0, 2]);
    expected.extend(&[
        3, 100, 101, 102, 0, 0, 0, 1, 99, 0, 12, 0, 0, 0, 0, 0, 0, 3, 0, 0, 0, 0, 0,
    ]);
    // an EOF packet closes the field block when DEPRECATE_EOF is off
    expected.extend(&[5, 0, 0, 3, 0xfe, 0, 0, 2, 0]);
    expected.extend(&[2, 0, 0, 4, 1, 0x37]);
    // and the terminator is the 5-byte EOF form
    expected.extend(&[5, 0, 0, 5, 0xfe, 0, 0, 2, 0]);
    assert_eq!(out, expected);
}

#[test]
fn null_value_serializes_as_fb() {
    let mut p = Packets::new();
    p.feed(&[2, 0, 0, 0, 0x03, b'q']);
    p.handle_next_command(
        SERVER_STATUS_AUTOCOMMIT,
        CapabilityFlag::CapabilityClientDeprecateEOF.value(),
    )
    .unwrap();

    let mut fields_seg = SqlResult::default();
    let mut field = Field::default();
    field.name = b"c".to_vec();
    field.typ = 263;
    fields_seg.fields = vec![field];

    let mut rows_seg = SqlResult::default();
    rows_seg.rows = vec![vec![Value { typ: 0, val: Vec::new() }]];

    p.exec_query(&vec![fields_seg, rows_seg], false).unwrap();
    let out = p.take_output();
    // the row packet carries the single NULL marker byte
    assert!(out
        .windows(5)
        .any(|w| w == [1, 0, 0, 3, 0xfb]));
}

#[test]
fn segment_after_terminal_response_fails() {
    let mut p = Packets::new();
    p.feed(&[2, 0, 0, 0, 0x03, b'q']);
    p.handle_next_command(SERVER_STATUS_AUTOCOMMIT, 0).unwrap();
    let mut seg = SqlResult::default();
    seg.affected_rows = 1;
    let extra = SqlResult::default();
    match p.exec_query(&vec![seg, extra], false) {
        Err(ProtoError::Io) => {}
        _ => panic!("Unexpected result"),
    }
}

#[test]
fn deprecate_eof_end_result_begins_with_fe_ok_body() {
    let cap = CapabilityFlag::CapabilityClientDeprecateEOF.value();
    let mut p = Packets::new();
    p.feed(&[1, 0, 0, 0, 0x0e]);
    p.handle_next_command(SERVER_STATUS_AUTOCOMMIT, cap).unwrap();
    p.take_output();
    p.write_end_result(false, 0, 0, 0);
    let out = p.take_output();
    // framed OK-with-EOF-header: 7-byte OK body under 0xfe, not a 5-byte EOF
    assert_eq!(out[3 + 1], 0xfe);
    assert_eq!(out[0], 7);
    assert_eq!(out, vec![7, 0, 0, 2, 0xfe, 0, 0, 2, 0, 0, 0]);
}

#[test]
fn set_option_toggles_and_acknowledges() {
    let cap = CapabilityFlag::CapabilityClientDeprecateEOF.value();
    let mut p = Packets::new();
    // enable multiple statements: option value 0
    p.feed(&[3, 0, 0, 0, 0x1b, 0, 0]);
    match p.handle_next_command(SERVER_STATUS_AUTOCOMMIT, cap) {
        Ok(CommandAction::Done) => {}
        _ => panic!("Unexpected result"),
    }
    // acknowledged in the OK-with-EOF-header form under DEPRECATE_EOF
    assert_eq!(p.take_output(), vec![7, 0, 0, 1, 0xfe, 0, 0, 2, 0, 0, 0]);

    // an unknown option value draws an ERR packet
    let mut q = Packets::new();
    q.feed(&[3, 0, 0, 0, 0x1b, 9, 0]);
    q.handle_next_command(SERVER_STATUS_AUTOCOMMIT, 0).unwrap();
    let out = q.take_output();
    assert_eq!(out[4], 0xff);
    assert_eq!(&out[13..], b"Unknown set option");
}

#[test]
fn sequence_id_wraps_at_256() {
    let mut p = Packets::new();
    let mut i: u32 = 0;
    while i < 256 {
        p.write_packet(&[7]);
        i += 1;
    }
    p.take_output();
    // the 257th packet carries sequence 0 again
    p.write_packet(&[8]);
    assert_eq!(p.take_output(), vec![1, 0, 0, 0, 8]);
}
