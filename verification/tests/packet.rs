use sql_pipe::packet::{DatabaseType, Packet};

#[test]
fn packet_keeps_tag_and_bytes() {
    let packet = Packet::new(DatabaseType::MariaDB, vec![1, 2, 3]);
    assert_eq!(packet.db_type, DatabaseType::MariaDB);
    assert_eq!(packet.bytes, vec![1, 2, 3]);
    assert_eq!(packet.get_size(), 3);
    assert_eq!(Packet::new(DatabaseType::PostgresSQL, Vec::new()).get_size(), 0);
}

#[test]
fn ssl_request_is_recognised() {
    let probe = vec![0x00, 0x00, 0x00, 0x08, 0x04, 0xD2, 0x16, 0x2F];
    assert!(Packet::new(DatabaseType::PostgresSQL, probe.clone()).is_ssl_request());
    assert!(!Packet::new(DatabaseType::MariaDB, probe.clone()).is_ssl_request());
}

#[test]
fn other_frames_are_no_ssl_request() {
    // A startup message of protocol 3.0 with no parameters.
    let startup = vec![0x00, 0x00, 0x00, 0x09, 0x00, 0x03, 0x00, 0x00, 0x00];
    assert!(!Packet::new(DatabaseType::PostgresSQL, startup).is_ssl_request());
    // A cancel request: the same length as the probe, another code.
    let other_code = vec![0x00, 0x00, 0x00, 0x08, 0x04, 0xD2, 0x16, 0x2E];
    assert!(!Packet::new(DatabaseType::PostgresSQL, other_code).is_ssl_request());
    let too_long = vec![0x00, 0x00, 0x00, 0x08, 0x04, 0xD2, 0x16, 0x2F, 0x00];
    assert!(!Packet::new(DatabaseType::PostgresSQL, too_long).is_ssl_request());
    let too_short = vec![0x00, 0x00, 0x00, 0x08, 0x04, 0xD2, 0x16];
    assert!(!Packet::new(DatabaseType::PostgresSQL, too_short).is_ssl_request());
    assert!(!Packet::new(DatabaseType::PostgresSQL, Vec::new()).is_ssl_request());
    for i in 0..8 {
        let mut bytes = vec![0x00, 0x00, 0x00, 0x08, 0x04, 0xD2, 0x16, 0x2F];
        bytes[i] ^= 0x01;
        assert!(!Packet::new(DatabaseType::PostgresSQL, bytes).is_ssl_request(), "byte {}", i);
    }
}
