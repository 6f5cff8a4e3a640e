//! UDP 2-layer dial-out: configuration, datagram reassembly and the text
//! printed for each message.

use vstd::prelude::*;
use vstd::string::StringExecFns;

use bytes::{Bytes, BytesMut};

use crate::chunk::concat_all;
use crate::buffers::{
    bytes_contents, bytes_copy_from_slice, bytes_mut_contents, bytes_mut_extend_from_slice,
    bytes_mut_freeze, bytes_mut_len, bytes_mut_split,
};
use crate::dialout::Report;
use crate::error::AppError;
use crate::json::{json_error_message, json_rendering, json_text_parses, reformat_json};
use crate::models::UDPHeader;
use crate::text::{decimal, hex_encode, hex_of, push_decimal, push_text};
use crate::udp_header::{
    as_app_result, extract_payload, header_bytes, parse_udp_header, spec_header_bytes,
    spec_parse_udp_header, spec_payload, UDP_HEADER_MIN_SIZE,
};

verus! {

/// Maximum UDP datagram size.
pub const UDP_MAX_SIZE: usize = 65535;

/// Maximum gRPC message size (10 MB).
pub const MAX_MESSAGE_SIZE: usize = 10 * 1024 * 1024;

/// UDP dial-out server configuration.
#[derive(Debug, Clone, Copy, PartialEq, Eq)]
pub struct UdpConfig {
    pub port: u16,
    pub orignal: bool,
    pub format_json: bool,
    pub including_default: bool,
    pub performance_mode: bool,
}

/// One datagram's effect on the fragment buffer, and the message it
/// completes, if any.
///
/// - A datagram whose header parses and has no option is a whole message:
///   its payload.
/// - One with an option is a fragment: its payload is appended to the
///   buffer; the fragment flagged as last completes the message, which is
///   the whole buffer, and empties it.
/// - When the header does not parse, a datagram of more than 12 bytes is
///   taken as a 12-byte header and its payload; a shorter one is dropped.
pub open spec fn udp_step(chunk: Seq<u8>, data: Seq<u8>) -> (Seq<u8>, Option<Seq<u8>>) {
    match spec_parse_udp_header(data) {
        Ok(h) => {
            let p = spec_payload(data, h.header_length);
            match h.option {
                Some(opt) => if opt.last {
                    (Seq::empty(), Some(chunk + p))
                } else {
                    (chunk + p, None)
                },
                None => (chunk, Some(p)),
            }
        },
        Err(_) => if data.len() <= UDP_HEADER_MIN_SIZE {
            (chunk, None)
        } else {
            (chunk, Some(data.subrange(12, data.len() as int)))
        },
    }
}

/// The machine limit of a step: a fragment buffer holds at most
/// `isize::MAX` bytes.
pub open spec fn udp_step_fits(chunk: Seq<u8>, data: Seq<u8>) -> bool {
    match spec_parse_udp_header(data) {
        Ok(h) => h.option is Some ==> chunk.len() + spec_payload(data, h.header_length).len()
            <= isize::MAX,
        Err(_) => true,
    }
}

/// The contents of an optional handle.
pub open spec fn opt_bytes_view(b: Option<Bytes>) -> Option<Seq<u8>> {
    match b {
        Some(x) => Some(bytes_contents(x)),
        None => None,
    }
}

/// Whether a datagram stays within the machine limit of
/// [`process_udp_datagram`] for the bytes already buffered.
pub fn udp_datagram_fits(data: &[u8], chunk_data: &BytesMut) -> (b: bool)
    ensures
        b == udp_step_fits(bytes_mut_contents(*chunk_data), data@),
{
    match parse_udp_header(data) {
        Ok(h) => {
            if h.option.is_none() {
                return true;
            }
            let held = bytes_mut_len(chunk_data);
            let payload = extract_payload(data, h.header_length).len();
            held <= isize::MAX as usize && payload <= isize::MAX as usize - held
        },
        Err(_) => true,
    }
}

/// A datagram's header (or why it did not parse) and the message it
/// completes, if any.
pub struct UdpDatagram {
    pub header: Result<UDPHeader, AppError>,
    pub payload: Option<Bytes>,
}

/// Process one datagram: parse its header and reassemble fragments in
/// `chunk_data`.
pub fn process_udp_datagram(data: &[u8], chunk_data: &mut BytesMut) -> (r: UdpDatagram)
    requires
        udp_step_fits(bytes_mut_contents(*old(chunk_data)), data@),
    ensures
        r.header == as_app_result(spec_parse_udp_header(data@)),
        (bytes_mut_contents(*final(chunk_data)), opt_bytes_view(r.payload)) == udp_step(
            bytes_mut_contents(*old(chunk_data)),
            data@,
        ),
{
    let header = parse_udp_header(data);
    let payload = match &header {
        Ok(h) => {
            let payload = extract_payload(data, h.header_length);
            match &h.option {
                Some(opt) => {
                    // Fragmented message: accumulate
                    bytes_mut_extend_from_slice(chunk_data, payload);
                    if !opt.last {
                        None
                    } else {
                        let merged = bytes_mut_split(chunk_data);
                        Some(bytes_mut_freeze(merged))
                    }
                },
                None => Some(bytes_copy_from_slice(payload)),
            }
        },
        Err(_) => {
            if data.len() <= UDP_HEADER_MIN_SIZE {
                None
            } else {
                // Fall back: use the data after 12 bytes
                Some(bytes_copy_from_slice(&data[12..data.len()]))
            }
        },
    };
    UdpDatagram { header, payload }
}

/// The header line printed for a parsed datagram.
pub open spec fn udp_head_text(data: Seq<u8>, h: UDPHeader) -> Seq<char> {
    "UDP Head:\nOriginal:0x"@ + hex_of(spec_header_bytes(data, h.header_length)) + "\nVersion:"@
        + decimal(h.version as nat) + " ET:"@ + decimal(h.et as nat) + " HeaderLen:"@ + decimal(
        h.header_length as nat,
    ) + " MsgLen:"@ + decimal(h.message_length as nat) + " DomainID:"@ + decimal(
        h.message_generator_id as nat,
    ) + " MsgID:"@ + decimal(h.message_id as nat)
}

/// The header line printed for a parsed datagram.
pub fn udp_head_line(data: &[u8], h: &UDPHeader) -> (s: String)
    ensures
        s@ == udp_head_text(data@, *h),
{
    let mut s = String::from_str("UDP Head:\nOriginal:0x");
    let hex = hex_encode(header_bytes(data, h.header_length));
    push_text(&mut s, hex.as_str());
    push_text(&mut s, "\nVersion:");
    push_decimal(&mut s, h.version as u64);
    push_text(&mut s, " ET:");
    push_decimal(&mut s, h.et as u64);
    push_text(&mut s, " HeaderLen:");
    push_decimal(&mut s, h.header_length as u64);
    push_text(&mut s, " MsgLen:");
    push_decimal(&mut s, h.message_length as u64);
    push_text(&mut s, " DomainID:");
    push_decimal(&mut s, h.message_generator_id as u64);
    push_text(&mut s, " MsgID:");
    push_decimal(&mut s, h.message_id as u64);
    s
}

/// The line closing each message's output.
pub open spec fn udp_count_text(ip_type: Seq<char>, count: u64, source: Seq<char>, newline: bool) -> Seq<
    char,
> {
    "=============="@ + ip_type + " gRPC UDP 2-layer server count: "@ + decimal(count as nat)
        + ", source addr: "@ + source + "=============="@ + (if newline {
        "\n"@
    } else {
        ""@
    })
}

/// The line closing each message's output (`newline` adds a line break).
pub fn udp_count_line(ip_type: &str, count: u64, source: &str, newline: bool) -> (s: String)
    ensures
        s@ == udp_count_text(ip_type@, count, source@, newline),
{
    let mut s = String::from_str("==============");
    push_text(&mut s, ip_type);
    push_text(&mut s, " gRPC UDP 2-layer server count: ");
    push_decimal(&mut s, count);
    push_text(&mut s, ", source addr: ");
    push_text(&mut s, source);
    push_text(&mut s, "==============");
    if newline {
        push_text(&mut s, "\n");
    } else {
        push_text(&mut s, "");
    }
    s
}

/// A decoded message whose JSON data was re-rendered as `formatted`.
pub open spec fn udp_message_text(sensor_path: Seq<char>, formatted: Seq<char>) -> Seq<char> {
    "DialoutMsg:\nsensorPath: \""@ + sensor_path + "\"\nJsonData:\n"@ + formatted + "\n"@
}

/// A decoded message whose JSON data did not parse.
pub open spec fn udp_message_error_text(
    sensor_path: Seq<char>,
    json: Seq<char>,
    err: Seq<char>,
) -> Seq<char> {
    "DialoutMsg:\nsensorPath: \""@ + sensor_path + "\"\nOrignalData:\n"@ + json
        + "\njson format error with: \""@ + err + "\""@
}

/// The report for a decoded DialoutMsg: its JSON data re-rendered (indented
/// when `format_json`), or the data and the parser's error when it is not
/// JSON.
pub fn udp_message_report(sensor_path: &str, json_data: &str, format_json: bool) -> (r: Report)
    ensures
        r.is_error == !json_text_parses(json_data@),
        !r.is_error ==> r.text@ == udp_message_text(
            sensor_path@,
            json_rendering(json_data@, format_json),
        ),
        r.is_error ==> r.text@ == udp_message_error_text(
            sensor_path@,
            json_data@,
            json_error_message(json_data@),
        ),
{
    match reformat_json(json_data, format_json) {
        Ok(f) => {
            let mut s = String::from_str("DialoutMsg:\nsensorPath: \"");
            push_text(&mut s, sensor_path);
            push_text(&mut s, "\"\nJsonData:\n");
            push_text(&mut s, f.as_str());
            push_text(&mut s, "\n");
            assert(s@ == udp_message_text(sensor_path@, f@));
            Report { is_error: false, text: s }
        },
        Err(e) => {
            let mut s = String::from_str("DialoutMsg:\nsensorPath: \"");
            push_text(&mut s, sensor_path);
            push_text(&mut s, "\"\nOrignalData:\n");
            push_text(&mut s, json_data);
            push_text(&mut s, "\njson format error with: \"");
            push_text(&mut s, e.as_str());
            push_text(&mut s, "\"");
            assert(s@ == udp_message_error_text(sensor_path@, json_data@, e@));
            Report { is_error: true, text: s }
        },
    }
}


/// The buffer and the last result after a sequence of datagrams.
pub open spec fn udp_feed(chunk: Seq<u8>, ds: Seq<Seq<u8>>) -> (Seq<u8>, Option<Seq<u8>>)
    decreases ds.len(),
{
    if ds.len() == 0 {
        (chunk, None)
    } else {
        udp_step(udp_feed(chunk, ds.drop_last()).0, ds.last())
    }
}

/// The payload of a datagram whose header parses.
pub open spec fn datagram_payload(d: Seq<u8>) -> Seq<u8> {
    spec_payload(d, spec_parse_udp_header(d)->Ok_0.header_length)
}

/// `d` is a fragment: its header parses and carries an option.
pub open spec fn is_fragment(d: Seq<u8>) -> bool {
    spec_parse_udp_header(d) is Ok && spec_parse_udp_header(d)->Ok_0.option is Some
}

/// `d` is a fragment flagged as the last one.
pub open spec fn is_last_fragment(d: Seq<u8>) -> bool {
    is_fragment(d) && spec_parse_udp_header(d)->Ok_0.option->Some_0.last
}

proof fn lemma_udp_feed_prefix(ds: Seq<Seq<u8>>, j: int)
    requires
        0 <= j < ds.len(),
        forall|i: int| 0 <= i < ds.len() ==> is_fragment(#[trigger] ds[i]),
        forall|i: int| 0 <= i < ds.len() - 1 ==> !is_last_fragment(#[trigger] ds[i]),
    ensures
        udp_feed(Seq::empty(), ds.take(j)).0 == concat_all(ds.take(j).map_values(|d: Seq<u8>| datagram_payload(d))),
        j > 0 ==> udp_feed(Seq::empty(), ds.take(j)).1 is None,
    decreases j,
{
    let f = |d: Seq<u8>| datagram_payload(d);
    if j == 0 {
        assert(ds.take(0).map_values(f) =~= Seq::<Seq<u8>>::empty());
    } else {
        lemma_udp_feed_prefix(ds, j - 1);
        assert(ds.take(j).drop_last() =~= ds.take(j - 1));
        assert(ds.take(j).map_values(f).drop_last() =~= ds.take(j - 1).map_values(f));
        assert(ds.take(j).last() == ds[j - 1]);
        assert(is_fragment(ds[j - 1]));
        assert(!is_last_fragment(ds[j - 1]));
    }
}

/// UDP reassembly: starting from an empty buffer, fragments of which only the
/// last is flagged as last give nothing back until the last one, which
/// returns all their payloads concatenated in order and empties the buffer.
pub proof fn law_udp_fragments_reassemble(ds: Seq<Seq<u8>>)
    requires
        ds.len() >= 1,
        forall|i: int| 0 <= i < ds.len() ==> is_fragment(#[trigger] ds[i]),
        forall|i: int| 0 <= i < ds.len() - 1 ==> !is_last_fragment(#[trigger] ds[i]),
        is_last_fragment(ds.last()),
    ensures
        forall|j: int|
            1 <= j < ds.len() ==> (#[trigger] udp_feed(Seq::empty(), ds.take(j))).1 is None,
        udp_feed(Seq::empty(), ds) == (
            Seq::<u8>::empty(),
            Some(concat_all(ds.map_values(|d: Seq<u8>| datagram_payload(d)))),
        ),
{
    let f = |d: Seq<u8>| datagram_payload(d);
    assert forall|j: int| 1 <= j < ds.len() implies (#[trigger] udp_feed(
        Seq::empty(),
        ds.take(j),
    )).1 is None by {
        lemma_udp_feed_prefix(ds, j);
    }
    let k = ds.len() as int;
    lemma_udp_feed_prefix(ds, k - 1);
    assert(ds.drop_last() =~= ds.take(k - 1));
    assert(ds.map_values(f).drop_last() =~= ds.take(k - 1).map_values(f));
}
} // verus!
