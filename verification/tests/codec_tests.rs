use sql_protocol::codec::{len_enc_int_size, len_enc_str_size, read_len_int, write_len_int};

#[test]
fn lenenc_round_trip() {
    let cases: [(u64, usize); 8] = [
        (0, 1),
        (250, 1),
        (251, 3),
        (65535, 3),
        (65536, 4),
        (16777215, 4),
        (16777216, 9),
        (1u64 << 63, 9),
    ];
    for (n, size) in cases.iter() {
        let mut buf: Vec<u8> = Vec::new();
        write_len_int(&mut buf, *n);
        assert_eq!(buf.len(), *size);
        assert_eq!(len_enc_int_size(*n), *size);
        let (value, used) = read_len_int(&buf, 0).unwrap();
        assert_eq!(value, *n);
        assert_eq!(used, *size);
    }
}

#[test]
fn lenenc_exact_bytes() {
    let mut buf: Vec<u8> = Vec::new();
    write_len_int(&mut buf, 251);
    assert_eq!(buf, vec![0xfc, 0xfb, 0x00]);
    let mut buf: Vec<u8> = Vec::new();
    write_len_int(&mut buf, 65536);
    assert_eq!(buf, vec![0xfd, 0x00, 0x00, 0x01]);
    let mut buf: Vec<u8> = Vec::new();
    write_len_int(&mut buf, 16777216);
    assert_eq!(buf, vec![0xfe, 0, 0, 0, 1, 0, 0, 0, 0]);
}

#[test]
fn lenenc_rejects_bad_heads() {
    // 0xfb and 0xff head no length-encoded integer, nor do truncated forms
    assert!(read_len_int(&[0xfb], 0).is_none());
    assert!(read_len_int(&[0xff], 0).is_none());
    assert!(read_len_int(&[0xfc, 1], 0).is_none());
    assert!(read_len_int(&[], 0).is_none());
}

#[test]
fn lenenc_str_size_counts_length_and_bytes() {
    assert_eq!(len_enc_str_size(b"abc"), 4);
    let long = vec![7u8; 300];
    assert_eq!(len_enc_str_size(&long), 303);
}
