//! Completion and signalling core of an SFTP client that multiplexes many
//! requests over one byte stream.

pub mod awaitable;
pub mod signal;
pub mod responses;
pub mod handshake;
