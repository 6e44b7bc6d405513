use openssh_sftp_client::handshake::{
    check_server_reply, client_hello, frame_length, hello_packet, negotiate, parse_server_version,
    HandshakeError,
};

#[test]
fn hello_packet_bytes() {
    assert_eq!(hello_packet(0x01020304), vec![0, 0, 0, 5, 1, 1, 2, 3, 4]);
}

#[test]
fn client_hello_announces_version_three() {
    assert_eq!(client_hello(), vec![0, 0, 0, 5, 1, 0, 0, 0, 3]);
}

#[test]
fn frame_length_reads_big_endian() {
    assert_eq!(frame_length(&[0, 0, 1, 2]), Some(258));
    assert_eq!(frame_length(&[1, 0, 0, 0, 9]), Some(16777216));
    assert_eq!(frame_length(&[0, 0, 5]), None);
}

#[test]
fn server_version_is_read() {
    assert_eq!(parse_server_version(&[2, 0, 0, 0, 3]), Ok(3));
    assert_eq!(parse_server_version(&[2, 0, 0, 1, 0, 0, 0, 0, 1, 97]), Ok(256));
}

#[test]
fn server_version_errors() {
    assert_eq!(parse_server_version(&[]), Err(HandshakeError::Truncated));
    assert_eq!(parse_server_version(&[2, 0, 0]), Err(HandshakeError::Truncated));
    assert_eq!(
        parse_server_version(&[101, 0, 0, 0, 3]),
        Err(HandshakeError::UnexpectedPacket(101))
    );
}

#[test]
fn version_mismatch_is_refused() {
    assert_eq!(
        negotiate(3, &[2, 0, 0, 0, 4]),
        Err(HandshakeError::VersionMismatch { client: 3, server: 4 })
    );
    assert_eq!(negotiate(4, &[2, 0, 0, 0, 4]), Ok(4));
}

#[test]
fn server_reply_against_client_version() {
    assert_eq!(check_server_reply(&[2, 0, 0, 0, 3]), Ok(3));
    assert_eq!(
        check_server_reply(&[2, 0, 0, 0, 6]),
        Err(HandshakeError::VersionMismatch { client: 3, server: 6 })
    );
}
