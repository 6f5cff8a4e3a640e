//! gRPC 2-layer dial-out: configuration, service state, fragment handling
//! and the text printed for each message.

use vstd::prelude::*;
use vstd::string::StringExecFns;
use vstd::utf8::{decode_utf8, valid_utf8};

use bytes::Bytes;

use crate::buffers::{bytes_as_slice, bytes_contents};
use crate::chunk::{chunk_step, chunk_step_fits, ChunkRecords};
use crate::dialout::Report;
use crate::json::{json_error_message, json_rendering, json_text_parses, reformat_json, utf8_decode};
use crate::text::{decimal, push_decimal, push_text};

verus! {

/// Configuration for the dialout service.
#[derive(Debug, Clone, Copy, PartialEq, Eq)]
pub struct DialoutConfig {
    /// Output original data without parsing
    pub orignal: bool,
    /// Format JSON output with indentation
    pub format_json: bool,
    /// Include default value fields in output
    pub including_default: bool,
    /// Performance mode (only count)
    pub performance_mode: bool,
}

/// gRPC 2-layer dialout service: its message counter and options.
#[derive(Debug, Clone, Copy)]
pub struct DialoutService {
    /// Messages handled so far.
    pub count: u64,
    /// Output options (shared across all connections).
    pub config: DialoutConfig,
}

impl DialoutService {
    /// Create a new DialoutService with the given configuration.
    pub fn new(config: DialoutConfig) -> (s: Self)
        ensures
            s.count == 0,
            s.config == config,
    {
        DialoutService { count: 0, config }
    }
}

/// The chunk information of a DialoutMsg.
#[derive(Debug, Clone, Copy, PartialEq, Eq)]
pub struct ChunkInfo {
    pub total_size: i64,
    pub total_fragments: u64,
    pub node_id: u64,
}

/// The text of merged JSON bytes: their UTF-8 decoding, or a placeholder
/// when they are not UTF-8.
pub open spec fn json_text_of(b: Seq<u8>) -> Seq<char> {
    if valid_utf8(b) {
        decode_utf8(b)
    } else {
        "<invalid utf8>"@
    }
}

/// The line that closes each 2-layer message's output.
pub open spec fn normal_footer_text(count: u64, peer: Seq<char>) -> Seq<char> {
    "\n==================gRPC 2-layer server count: "@ + decimal(count as nat) + " source addr: "@
        + peer + "=================="@
}

fn push_normal_footer(s: &mut String, count: u64, peer: &str)
    ensures
        final(s)@ == old(s)@ + normal_footer_text(count, peer@),
{
    push_text(s, "\n==================gRPC 2-layer server count: ");
    push_decimal(s, count);
    push_text(s, " source addr: ");
    push_text(s, peer);
    push_text(s, "==================");
}

/// The output of original mode: the message as received.
pub open spec fn normal_original_text(shown: Seq<char>, count: u64, peer: Seq<char>) -> Seq<char> {
    "original msg:\n"@ + shown + normal_footer_text(count, peer)
}

/// The output of original mode for a message rendered as `shown`.
pub fn normal_original(shown: &str, count: u64, peer: &str) -> (s: String)
    ensures
        s@ == normal_original_text(shown@, count, peer@),
{
    let mut s = String::from_str("original msg:\n");
    push_text(&mut s, shown);
    push_normal_footer(&mut s, count, peer);
    s
}

/// The output for a message whose JSON data was re-rendered as `formatted`.
pub open spec fn normal_json_text(
    sensor_path: Seq<char>,
    formatted: Seq<char>,
    count: u64,
    peer: Seq<char>,
) -> Seq<char> {
    "DialoutMsg:\nsensorPath: \""@ + sensor_path + "\"\nJsonData:\n"@ + formatted
        + normal_footer_text(count, peer)
}

/// The output for a message whose JSON data is not JSON.
pub open spec fn normal_json_error_text(
    sensor_path: Seq<char>,
    json: Seq<char>,
    err: Seq<char>,
    count: u64,
    peer: Seq<char>,
) -> Seq<char> {
    "DialoutMsg:\nsensorPath: \""@ + sensor_path + "\"\nOrignalData:\n"@ + json
        + "\njson format error with: \""@ + err + "\""@ + normal_footer_text(count, peer)
}

/// The report for a (reassembled) message: its JSON data re-rendered
/// (indented when `format_json`), or the data and the parser's error.
pub fn dialout_report(
    sensor_path: &str,
    merged_json: &[u8],
    format_json: bool,
    count: u64,
    peer: &str,
) -> (r: Report)
    ensures
        r.is_error == !json_text_parses(json_text_of(merged_json@)),
        !r.is_error ==> r.text@ == normal_json_text(
            sensor_path@,
            json_rendering(json_text_of(merged_json@), format_json),
            count,
            peer@,
        ),
        r.is_error ==> r.text@ == normal_json_error_text(
            sensor_path@,
            json_text_of(merged_json@),
            json_error_message(json_text_of(merged_json@)),
            count,
            peer@,
        ),
{
    let json_str: &str = match utf8_decode(merged_json) {
        Some(s) => s,
        None => "<invalid utf8>",
    };
    match reformat_json(json_str, format_json) {
        Ok(f) => {
            let mut s = String::from_str("DialoutMsg:\nsensorPath: \"");
            push_text(&mut s, sensor_path);
            push_text(&mut s, "\"\nJsonData:\n");
            push_text(&mut s, f.as_str());
            push_normal_footer(&mut s, count, peer);
            assert(s@ == normal_json_text(sensor_path@, f@, count, peer@));
            Report { is_error: false, text: s }
        },
        Err(e) => {
            let mut s = String::from_str("DialoutMsg:\nsensorPath: \"");
            push_text(&mut s, sensor_path);
            push_text(&mut s, "\"\nOrignalData:\n");
            push_text(&mut s, json_str);
            push_text(&mut s, "\njson format error with: \"");
            push_text(&mut s, e.as_str());
            push_text(&mut s, "\"");
            push_normal_footer(&mut s, count, peer);
            assert(s@ == normal_json_error_text(sensor_path@, json_str@, e@, count, peer@));
            Report { is_error: true, text: s }
        },
    }
}

/// The optional field of chunk information.
pub open spec fn chunk_field<T>(c: Option<ChunkInfo>, f: spec_fn(ChunkInfo) -> T) -> Option<T> {
    match c {
        Some(x) => Some(f(x)),
        None => None,
    }
}

/// Handle one parsed 2-layer message: feed it to the chunk store and, when
/// it is whole (unchunked or completing its record), give the length of its
/// JSON data and the report of it.
pub fn dialout_message(
    records: &mut ChunkRecords,
    device_msg: Bytes,
    sensor_path: &str,
    json_data: Bytes,
    chunk_msg: Option<ChunkInfo>,
    format_json: bool,
    count: u64,
    peer: &str,
) -> (r: Option<(usize, Report)>)
    requires
        old(records).wf(),
        chunk_msg is Some ==> chunk_step_fits(
            old(records)@,
            sensor_path@,
            bytes_contents(json_data),
            chunk_field(chunk_msg, |c: ChunkInfo| c.node_id),
        ),
    ensures
        final(records).wf(),
        ({
            let step = chunk_step(
                old(records)@,
                bytes_contents(device_msg),
                sensor_path@,
                bytes_contents(json_data),
                chunk_field(chunk_msg, |c: ChunkInfo| c.total_size),
                chunk_field(chunk_msg, |c: ChunkInfo| c.total_fragments),
                chunk_field(chunk_msg, |c: ChunkInfo| c.node_id),
            );
            &&& final(records)@ == step.0
            &&& r is Some == step.1 is Some
            &&& r matches Some((len, rep)) ==> {
                let merged = step.1->Some_0.1;
                &&& len == merged.len()
                &&& rep.is_error == !json_text_parses(json_text_of(merged))
                &&& !rep.is_error ==> rep.text@ == normal_json_text(
                    sensor_path@,
                    json_rendering(json_text_of(merged), format_json),
                    count,
                    peer@,
                )
                &&& rep.is_error ==> rep.text@ == normal_json_error_text(
                    sensor_path@,
                    json_text_of(merged),
                    json_error_message(json_text_of(merged)),
                    count,
                    peer@,
                )
            }
        }),
{
    let (total_size, total_fragments, node_id) = match chunk_msg {
        Some(c) => (Some(c.total_size), Some(c.total_fragments), Some(c.node_id)),
        None => (None, None, None),
    };
    match records.add(device_msg, sensor_path, json_data, total_size, total_fragments, node_id) {
        Some((_dev_msg, merged_json)) => {
            let merged = bytes_as_slice(&merged_json);
            Some((merged.len(), dialout_report(sensor_path, merged, format_json, count, peer)))
        },
        None => None,
    }
}

} // verus!
