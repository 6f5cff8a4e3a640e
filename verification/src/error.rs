//! Error values produced by the verified library.

use vstd::prelude::*;

verus! {

/// Why a UDP header could not be parsed.
///
/// Each variant carries the numbers that the collector prints for it.
#[derive(Debug, Clone, Copy, PartialEq, Eq)]
pub enum UdpParseError {
    /// The datagram is shorter than the minimal header.
    DataTooShort { len: usize, min: usize },
    /// The header-length field is below the minimal header size.
    HeaderLengthTooSmall { header_length: u16, min: usize },
    /// The datagram is shorter than the header-length field says.
    DataShorterThanHeader { len: usize, header_length: u16 },
    /// The header announces an option field but the datagram cannot hold it.
    DataShorterThanOption { len: usize, need: usize },
}

/// Errors of the library's own operations.
#[derive(Debug, Clone, PartialEq, Eq)]
pub enum AppError {
    ProtoParse(String),
    UdpParse(UdpParseError),
    ProtoReflect(String),
    Tls(String),
    Config(String),
    Chunk(String),
    Protoc(String),
    ChannelClosed,
    MessageTooLarge { size: usize, max: usize },
    Unsupported(String),
}

} // verus!
