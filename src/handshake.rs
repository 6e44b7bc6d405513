//! The version exchange that opens a connection.
//!
//! The client sends one init packet carrying its protocol version; the
//! server answers with one version packet, which must carry the same
//! version before any request may be sent. Each packet is framed by a
//! four-byte big-endian length.

use vstd::prelude::*;

verus! {

/// Packet type of the client's init packet.
pub open spec fn init_type() -> u8 {
    1
}

/// Packet type of the server's version packet.
pub open spec fn version_type() -> u8 {
    2
}

/// Why the version exchange failed; no connection comes out of it.
#[derive(Debug, Clone, Copy, PartialEq, Eq, Structural)]
pub enum HandshakeError {
    /// The packet ended before its version field.
    Truncated,
    /// The server answered with a packet of another type.
    UnexpectedPacket(u8),
    /// The server speaks another protocol version.
    VersionMismatch { client: u32, server: u32 },
}

/// Big-endian bytes of `v`.
pub open spec fn be_bytes(v: u32) -> Seq<u8> {
    seq![(v >> 24u32) as u8, (v >> 16u32) as u8, (v >> 8u32) as u8, v as u8]
}

/// The number whose big-endian bytes are `b0 b1 b2 b3`.
pub open spec fn from_be(b0: u8, b1: u8, b2: u8, b3: u8) -> u32 {
    ((b0 as u32) << 24u32) | ((b1 as u32) << 16u32) | ((b2 as u32) << 8u32) | (b3 as u32)
}

/// The framed init packet announcing `version`: length 5, type, version.
pub open spec fn hello_bytes(version: u32) -> Seq<u8> {
    be_bytes(5) + seq![init_type()] + be_bytes(version)
}

/// The version carried by a server's version packet (without its length
/// prefix); extension data after the version is not this exchange's concern.
pub open spec fn server_version_result(payload: Seq<u8>) -> Result<u32, HandshakeError> {
    if payload.len() == 0 {
        Err(HandshakeError::Truncated)
    } else if payload[0] != version_type() {
        Err(HandshakeError::UnexpectedPacket(payload[0]))
    } else if payload.len() < 5 {
        Err(HandshakeError::Truncated)
    } else {
        Ok(from_be(payload[1], payload[2], payload[3], payload[4]))
    }
}

/// Outcome of the exchange for a client at `client`: the agreed version, or
/// why there is none. Versions must match exactly.
pub open spec fn negotiation_result(client: u32, payload: Seq<u8>) -> Result<u32, HandshakeError> {
    match server_version_result(payload) {
        Ok(server) => if server == client {
            Ok(server)
        } else {
            Err(HandshakeError::VersionMismatch { client, server })
        },
        Err(e) => Err(e),
    }
}

/// Reading back the bytes written for a number gives the number.
pub proof fn lemma_be_round_trip(v: u32)
    ensures
        from_be(be_bytes(v)[0], be_bytes(v)[1], be_bytes(v)[2], be_bytes(v)[3]) == v,
{
    let b = be_bytes(v);
    let (b0, b1, b2, b3) = (b[0], b[1], b[2], b[3]);
    assert(b0 == (v >> 24u32) as u8 && b1 == (v >> 16u32) as u8 && b2 == (v >> 8u32) as u8 && b3
        == v as u8);
    assert(((((v >> 24u32) as u8) as u32) << 24u32) | ((((v >> 16u32) as u8) as u32) << 16u32) | ((((
    v >> 8u32) as u8) as u32) << 8u32) | (((v as u8) as u32)) == v) by (bit_vector);
}

/// A client is connected exactly when the server reports the client's own
/// version; any other version is refused and names both versions.
pub proof fn lemma_mismatch_refused(client: u32, payload: Seq<u8>)
    requires
        server_version_result(payload) matches Ok(server) && server != client,
    ensures
        negotiation_result(client, payload) == Err::<u32, HandshakeError>(
            HandshakeError::VersionMismatch { client, server: server_version_result(payload)->Ok_0 },
        ),
{
}

/// Relies on openssh_sftp_protocol::constants::SSH2_FILEXFER_VERSION: the
/// protocol version this client speaks, 3.
#[verifier::external_body]
fn sftp_version() -> (r: u32)
    ensures
        r == 3,
{
    openssh_sftp_protocol::constants::SSH2_FILEXFER_VERSION
}

/// Relies on openssh_sftp_protocol::constants::SSH_FXP_INIT: the type byte
/// of the init packet, 1.
#[verifier::external_body]
fn init_packet_type() -> (r: u8)
    ensures
        r == init_type(),
{
    openssh_sftp_protocol::constants::SSH_FXP_INIT
}

/// Relies on openssh_sftp_protocol::constants::SSH_FXP_VERSION: the type
/// byte of the version packet, 2.
#[verifier::external_body]
fn version_packet_type() -> (r: u8)
    ensures
        r == version_type(),
{
    openssh_sftp_protocol::constants::SSH_FXP_VERSION
}

/// Big-endian bytes of `v`.
fn push_be(out: &mut Vec<u8>, v: u32)
    ensures
        final(out)@ == old(out)@ + be_bytes(v),
{
    out.push((v >> 24u32) as u8);
    out.push((v >> 16u32) as u8);
    out.push((v >> 8u32) as u8);
    out.push(v as u8);
    assert(final(out)@ =~= old(out)@ + be_bytes(v));
}

/// The framed init packet announcing `version`.
pub fn hello_packet(version: u32) -> (r: Vec<u8>)
    ensures
        r@ == hello_bytes(version),
{
    let mut out: Vec<u8> = Vec::new();
    push_be(&mut out, 5);
    out.push(init_packet_type());
    push_be(&mut out, version);
    assert(out@ =~= hello_bytes(version));
    out
}

/// The init packet for the version this client speaks.
pub fn client_hello() -> (r: Vec<u8>)
    ensures
        r@ == hello_bytes(3),
{
    hello_packet(sftp_version())
}

/// The length announced by a packet's four-byte prefix, or `None` when
/// fewer than four bytes are given.
pub fn frame_length(header: &[u8]) -> (r: Option<u32>)
    ensures
        header@.len() < 4 ==> r is None,
        header@.len() >= 4 ==> r == Some(from_be(header@[0], header@[1], header@[2], header@[3])),
{
    if header.len() < 4 {
        None
    } else {
        Some(
            ((header[0] as u32) << 24u32) | ((header[1] as u32) << 16u32) | ((header[2] as u32)
                << 8u32) | (header[3] as u32),
        )
    }
}

/// Reads the version from a server's version packet, given without its
/// length prefix.
pub fn parse_server_version(payload: &[u8]) -> (r: Result<u32, HandshakeError>)
    ensures
        r == server_version_result(payload@),
{
    if payload.len() == 0 {
        Err(HandshakeError::Truncated)
    } else if payload[0] != version_packet_type() {
        Err(HandshakeError::UnexpectedPacket(payload[0]))
    } else if payload.len() < 5 {
        Err(HandshakeError::Truncated)
    } else {
        Ok(
            ((payload[1] as u32) << 24u32) | ((payload[2] as u32) << 16u32) | ((payload[3] as u32)
                << 8u32) | (payload[4] as u32),
        )
    }
}

/// Checks a server's version packet against the client's version.
pub fn negotiate(client: u32, payload: &[u8]) -> (r: Result<u32, HandshakeError>)
    ensures
        r == negotiation_result(client, payload@),
{
    match parse_server_version(payload) {
        Ok(server) => {
            if server == client {
                Ok(server)
            } else {
                Err(HandshakeError::VersionMismatch { client, server })
            }
        },
        Err(e) => Err(e),
    }
}

/// Checks a server's version packet against the version this client speaks.
pub fn check_server_reply(payload: &[u8]) -> (r: Result<u32, HandshakeError>)
    ensures
        r == negotiation_result(3, payload@),
{
    negotiate(sftp_version(), payload)
}

} // verus!
