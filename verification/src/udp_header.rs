//! UDP header parsing for UDP 2-layer dial-out.
//!
//! All parsing reads a `&[u8]` in network byte order and allocates nothing.

use vstd::prelude::*;

use crate::error::{AppError, UdpParseError};
use crate::models::{UDPHeader, UDPHeaderMobile, UdpHeaderOption};

verus! {

/// Minimum UDP header size (no option field).
pub const UDP_HEADER_MIN_SIZE: usize = 12;

/// UDP header size with option field.
pub const UDP_HEADER_WITH_OPTION_SIZE: usize = 16;

/// Maximum UDP datagram size.
pub const UDP_MAX_SIZE: usize = 65535;

/// The big-endian value of two bytes.
pub open spec fn be16(b0: u8, b1: u8) -> int {
    b0 as int * 256 + b1 as int
}

/// The big-endian value of four bytes.
pub open spec fn be32(b0: u8, b1: u8, b2: u8, b3: u8) -> int {
    ((b0 as int * 256 + b1 as int) * 256 + b2 as int) * 256 + b3 as int
}

/// The option field read from its four bytes: type, length, then a
/// 16-bit word whose upper 15 bits are the segment number and whose lowest
/// bit is the "last segment" flag.
pub open spec fn spec_option(d: Seq<u8>) -> UdpHeaderOption {
    let w = be16(d[2], d[3]);
    UdpHeaderOption {
        option_type: d[0],
        length: d[1],
        segment_number: (w / 2) as u16,
        last: w % 2 == 1,
    }
}

/// The option of a header whose header-length field is `hl`: present
/// exactly when the header is longer than the minimal one.
pub open spec fn spec_header_option(d: Seq<u8>, hl: int) -> Option<UdpHeaderOption> {
    if hl > UDP_HEADER_MIN_SIZE {
        Some(spec_option(d.subrange(12, 16)))
    } else {
        None
    }
}

/// The checks that both header formats apply once the header-length
/// field `hl` is known, in the order in which they are made.
pub open spec fn spec_length_error(d: Seq<u8>, hl: u16) -> Option<UdpParseError> {
    if hl < UDP_HEADER_MIN_SIZE {
        Some(UdpParseError::HeaderLengthTooSmall { header_length: hl, min: UDP_HEADER_MIN_SIZE })
    } else if d.len() < hl {
        Some(UdpParseError::DataShorterThanHeader { len: d.len() as usize, header_length: hl })
    } else if hl > UDP_HEADER_MIN_SIZE && d.len() < UDP_HEADER_WITH_OPTION_SIZE {
        Some(
            UdpParseError::DataShorterThanOption {
                len: d.len() as usize,
                need: UDP_HEADER_WITH_OPTION_SIZE,
            },
        )
    } else {
        None
    }
}

/// Standard format: the first 16-bit word holds Version (4 bits), ET
/// (4 bits) and the header length (8 bits); then come the message length,
/// the domain id and the message id, and an optional 4-byte option.
pub open spec fn spec_parse_udp_header(d: Seq<u8>) -> Result<UDPHeader, UdpParseError> {
    if d.len() < UDP_HEADER_MIN_SIZE {
        Err(UdpParseError::DataTooShort { len: d.len() as usize, min: UDP_HEADER_MIN_SIZE })
    } else {
        let w = be16(d[0], d[1]);
        let hl = (w % 256) as u16;
        match spec_length_error(d, hl) {
            Some(e) => Err(e),
            None => Ok(
                UDPHeader {
                    version: (w / 4096) as u16,
                    header_length: hl,
                    et: ((w / 256) % 16) as u16,
                    message_length: be16(d[2], d[3]) as u16,
                    message_generator_id: be32(d[4], d[5], d[6], d[7]) as u32,
                    message_id: be32(d[8], d[9], d[10], d[11]) as u32,
                    option: spec_header_option(d, hl as int),
                },
            ),
        }
    }
}

/// Mobile format: the first 16-bit word holds the S bit, Version (3 bits),
/// ET (4 bits) and the header length (8 bits); the rest is as in the
/// standard format.
pub open spec fn spec_parse_udp_header_mobile(d: Seq<u8>) -> Result<UDPHeaderMobile, UdpParseError> {
    if d.len() < UDP_HEADER_MIN_SIZE {
        Err(UdpParseError::DataTooShort { len: d.len() as usize, min: UDP_HEADER_MIN_SIZE })
    } else {
        let w = be16(d[0], d[1]);
        let hl = (w % 256) as u16;
        match spec_length_error(d, hl) {
            Some(e) => Err(e),
            None => Ok(
                UDPHeaderMobile {
                    version: ((w / 4096) % 8) as u16,
                    standard: (w / 32768) as u16,
                    header_length: hl,
                    et: ((w / 256) % 16) as u16,
                    message_length: be16(d[2], d[3]) as u16,
                    message_domain_id: be32(d[4], d[5], d[6], d[7]) as u32,
                    message_id: be32(d[8], d[9], d[10], d[11]) as u32,
                    option: spec_header_option(d, hl as int),
                },
            ),
        }
    }
}

/// The result that the parser hands back for a parse outcome.
pub open spec fn as_app_result<T>(r: Result<T, UdpParseError>) -> Result<T, AppError> {
    match r {
        Ok(h) => Ok(h),
        Err(e) => Err(AppError::UdpParse(e)),
    }
}

/// The payload after a header of `header_length` bytes (empty when the
/// header covers the whole datagram).
pub open spec fn spec_payload(d: Seq<u8>, header_length: u16) -> Seq<u8> {
    if (header_length as int) < d.len() {
        d.subrange(header_length as int, d.len() as int)
    } else {
        Seq::empty()
    }
}

/// The header bytes: the first `header_length` bytes, or the whole datagram
/// when it is shorter.
pub open spec fn spec_header_bytes(d: Seq<u8>, header_length: u16) -> Seq<u8> {
    if (header_length as int) < d.len() {
        d.subrange(0, header_length as int)
    } else {
        d
    }
}

/// The masks and shifts that read the fields of a 16-bit word are the
/// divisions and remainders of the specification.
proof fn lemma_word_fields(w: u16)
    by (bit_vector)
    ensures
        (w & 0xF000u16) >> 12u16 == w / 4096,
        (w & 0x0F00u16) >> 8u16 == (w / 256) % 16,
        (w & 0x8000u16) >> 15u16 == w / 32768,
        (w & 0x7000u16) >> 12u16 == (w / 4096) % 8,
        w & 0x00FFu16 == w % 256,
        (w & 0xFFFEu16) >> 1u16 == w / 2,
        (w & 0x0001u16) == w % 2,
{
}

/// Reads a big-endian 16-bit word at `i`.
fn read_be16(data: &[u8], i: usize) -> (w: u16)
    requires
        i + 2 <= data@.len(),
    ensures
        w as int == be16(data@[i as int], data@[i + 1]),
{
    (data[i] as u16) * 256 + (data[i + 1] as u16)
}

/// Reads a big-endian 32-bit word at `i`.
fn read_be32(data: &[u8], i: usize) -> (w: u32)
    requires
        i + 4 <= data@.len(),
    ensures
        w as int == be32(data@[i as int], data@[i + 1], data@[i + 2], data@[i + 3]),
{
    (((data[i] as u32) * 256 + (data[i + 1] as u32)) * 256 + (data[i + 2] as u32)) * 256 + (
    data[i + 3] as u32)
}

/// Parse a UDP header from raw bytes (standard format).
///
/// Format (big-endian / network byte order):
/// ```text
/// Bits:  0-3  | 4-7 | 8-15          | 16-31
///        Vers.|  ET | Header Length | Message Length
/// ```
///
/// Followed by:
/// - 4 bytes: Observation-Domain-ID
/// - 4 bytes: Message-ID
/// - (optional) 4 bytes: Option (Type, Length, SegmentNumber+L)
pub fn parse_udp_header(data: &[u8]) -> (r: Result<UDPHeader, AppError>)
    ensures
        r == as_app_result(spec_parse_udp_header(data@)),
{
    parse_udp_header_impl(data, false)
}

/// Parse a UDP header from raw bytes (mobile/standard format with S-bit).
///
/// Same format as standard but with an S-bit in the first byte:
/// ```text
/// Bits:  0 | 1-3  | 4-7 | 8-15          | 16-31
///        S | Vers.|  ET | Header Length | Message Length
/// ```
pub fn parse_udp_header_mobile(data: &[u8]) -> (r: Result<UDPHeaderMobile, AppError>)
    ensures
        r == as_app_result(spec_parse_udp_header_mobile(data@)),
{
    parse_udp_header_mobile_impl(data)
}

/// The length checks shared by both formats once the header length is read.
fn check_lengths(data: &[u8], header_length: u16) -> (r: Option<UdpParseError>)
    ensures
        r == spec_length_error(data@, header_length),
{
    if header_length < UDP_HEADER_MIN_SIZE as u16 {
        return Some(
            UdpParseError::HeaderLengthTooSmall {
                header_length,
                min: UDP_HEADER_MIN_SIZE,
            },
        );
    }
    if data.len() < header_length as usize {
        return Some(UdpParseError::DataShorterThanHeader { len: data.len(), header_length });
    }
    if header_length > UDP_HEADER_MIN_SIZE as u16 && data.len() < UDP_HEADER_WITH_OPTION_SIZE {
        return Some(
            UdpParseError::DataShorterThanOption {
                len: data.len(),
                need: UDP_HEADER_WITH_OPTION_SIZE,
            },
        );
    }
    None
}

/// Reads the option field of a header whose length checks passed.
fn read_header_option(data: &[u8], header_length: u16) -> (r: Result<
    Option<UdpHeaderOption>,
    AppError,
>)
    requires
        spec_length_error(data@, header_length) is None,
    ensures
        r == Ok::<Option<UdpHeaderOption>, AppError>(
            spec_header_option(data@, header_length as int),
        ),
{
    if header_length > UDP_HEADER_MIN_SIZE as u16 {
        let opt = parse_option_field(&data[12..16])?;
        Ok(Some(opt))
    } else {
        Ok(None)
    }
}

/// Internal implementation for standard UDP header parsing.
fn parse_udp_header_impl(data: &[u8], _mobile: bool) -> (r: Result<UDPHeader, AppError>)
    ensures
        r == as_app_result(spec_parse_udp_header(data@)),
{
    if data.len() < UDP_HEADER_MIN_SIZE {
        return Err(
            AppError::UdpParse(
                UdpParseError::DataTooShort { len: data.len(), min: UDP_HEADER_MIN_SIZE },
            ),
        );
    }
    // First 2 bytes: Version(4 bits) + ET(4 bits) + HeaderLength(8 bits)

    let first_word = read_be16(data, 0);
    proof {
        lemma_word_fields(first_word);
    }
    let version = (first_word & 0xF000) >> 12;
    let et = (first_word & 0x0F00) >> 8;
    let header_length = first_word & 0x00FF;

    let message_length = read_be16(data, 2);
    let message_generator_id = read_be32(data, 4);
    let message_id = read_be32(data, 8);

    if let Some(e) = check_lengths(data, header_length) {
        return Err(AppError::UdpParse(e));
    }
    let option = read_header_option(data, header_length)?;

    Ok(
        UDPHeader {
            version,
            header_length,
            et,
            message_length,
            message_generator_id,
            message_id,
            option,
        },
    )
}

/// Internal implementation for mobile UDP header parsing.
fn parse_udp_header_mobile_impl(data: &[u8]) -> (r: Result<UDPHeaderMobile, AppError>)
    ensures
        r == as_app_result(spec_parse_udp_header_mobile(data@)),
{
    if data.len() < UDP_HEADER_MIN_SIZE {
        return Err(
            AppError::UdpParse(
                UdpParseError::DataTooShort { len: data.len(), min: UDP_HEADER_MIN_SIZE },
            ),
        );
    }
    // First 2 bytes: S(1 bit) + Version(3 bits) + ET(4 bits) + HeaderLength(8 bits)

    let first_word = read_be16(data, 0);
    proof {
        lemma_word_fields(first_word);
    }
    let standard = (first_word & 0x8000) >> 15;
    let version = (first_word & 0x7000) >> 12;
    let et = (first_word & 0x0F00) >> 8;
    let header_length = first_word & 0x00FF;

    let message_length = read_be16(data, 2);
    let message_domain_id = read_be32(data, 4);
    let message_id = read_be32(data, 8);

    if let Some(e) = check_lengths(data, header_length) {
        return Err(AppError::UdpParse(e));
    }
    let option = read_header_option(data, header_length)?;

    Ok(
        UDPHeaderMobile {
            version,
            standard,
            header_length,
            et,
            message_length,
            message_domain_id,
            message_id,
            option,
        },
    )
}

/// Parse the 4-byte option field.
///
/// Format:
/// - Byte 0: Type
/// - Byte 1: Length
/// - Bytes 2-3: Segment Number (15 bits) + Last (1 bit)
pub fn parse_option_field(data: &[u8]) -> (r: Result<UdpHeaderOption, AppError>)
    requires
        data@.len() >= 4,
    ensures
        r == Ok::<UdpHeaderOption, AppError>(spec_option(data@)),
{
    let option_type = data[0];
    let length = data[1];
    let segment_number_l = read_be16(data, 2);
    proof {
        lemma_word_fields(segment_number_l);
    }
    let segment_number = (segment_number_l & 0xFFFE) >> 1;
    let last = (segment_number_l & 0x0001) != 0;

    Ok(UdpHeaderOption { option_type, length, segment_number, last })
}

/// Extract the payload from a UDP datagram given the parsed header length.
///
/// Returns a slice of the datagram, without copying.
pub fn extract_payload<'a>(data: &'a [u8], header_length: u16) -> (r: &'a [u8])
    ensures
        r@ == spec_payload(data@, header_length),
{
    let start = header_length as usize;
    if start < data.len() {
        &data[start..data.len()]
    } else {
        &data[0..0]
    }
}

/// Extract just the header bytes for hex display.
pub fn header_bytes<'a>(data: &'a [u8], header_length: u16) -> (r: &'a [u8])
    ensures
        r@ == spec_header_bytes(data@, header_length),
{
    let end = if (header_length as usize) < data.len() {
        header_length as usize
    } else {
        data.len()
    };
    &data[0..end]
}


/// The header bytes followed by the payload give back the whole datagram,
/// whatever the header length.
pub proof fn law_header_and_payload_split(d: Seq<u8>, header_length: u16)
    ensures
        spec_header_bytes(d, header_length) + spec_payload(d, header_length) == d,
{
    if (header_length as int) < d.len() {
        assert(d.subrange(0, header_length as int) + d.subrange(header_length as int, d.len() as int)
            =~= d);
    } else {
        assert(d + Seq::<u8>::empty() =~= d);
    }
}

/// The two header formats differ only in how they split the first byte:
/// they accept and reject the same datagrams, with the same error, and
/// read the same ET, header length, message length, domain id, message id
/// and option.
pub proof fn law_formats_agree(d: Seq<u8>)
    ensures
        spec_parse_udp_header(d) is Ok <==> spec_parse_udp_header_mobile(d) is Ok,
        spec_parse_udp_header(d) is Err ==> spec_parse_udp_header(d)->Err_0
            == spec_parse_udp_header_mobile(d)->Err_0,
        spec_parse_udp_header(d) is Ok ==> {
            let s = spec_parse_udp_header(d)->Ok_0;
            let m = spec_parse_udp_header_mobile(d)->Ok_0;
            &&& s.et == m.et
            &&& s.header_length == m.header_length
            &&& s.message_length == m.message_length
            &&& s.message_generator_id == m.message_domain_id
            &&& s.message_id == m.message_id
            &&& s.option == m.option
        },
{
}

/// The segment number of an option has 15 bits.
pub proof fn law_segment_number_fits_15_bits(d: Seq<u8>)
    requires
        d.len() >= 4,
    ensures
        spec_option(d).segment_number < 0x8000,
{
}
} // verus!
