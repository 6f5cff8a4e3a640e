//! gRPC 3-layer dial-out (GPB): configuration, chunk assembly and the text
//! printed for each telemetry message.

use vstd::prelude::*;
use vstd::seq_lib::lemma_concat_associative;
use vstd::string::StringExecFns;
use vstd::utf8::{decode_utf8, valid_utf8};

use bytes::{Bytes, BytesMut};

use crate::buffers::{
    bytes_contents, bytes_mut_clear, bytes_mut_clone, bytes_mut_contents,
    bytes_mut_extend_from_slice, bytes_mut_freeze, bytes_mut_from_slice, bytes_mut_len,
};
use crate::chunk::concat_all;
use crate::dialout::Report;
use crate::json::{json_error_message, json_rendering, json_text_parses, reformat_json, utf8_decode};
use crate::text::{
    decimal, hex_encode, hex_of, push_decimal, push_signed_decimal, push_text, signed_decimal,
};

verus! {

/// Configuration for the v3 dialout service.
#[derive(Debug, Clone, Copy, PartialEq, Eq)]
pub struct V3Config {
    pub orignal: bool,
    pub format_json: bool,
    pub including_default: bool,
    pub performance_mode: bool,
}

/// The data of a message given the bytes collected so far: a message with
/// total size 0 is not chunked and stands alone; otherwise the collected
/// bytes and this message's data form the message once their length (as an
/// `i32`) reaches the total size.
pub open spec fn spec_assemble(chunk: Seq<u8>, total_size: i32, data: Seq<u8>) -> Option<Seq<u8>> {
    if total_size == 0 {
        Some(data)
    } else {
        let combined = chunk + data;
        if (combined.len() as i32) < total_size {
            None
        } else {
            Some(combined)
        }
    }
}

/// The machine limit of assembly: collected bytes fit in one buffer.
pub open spec fn assemble_fits(chunk: Seq<u8>, total_size: i32, data: Seq<u8>) -> bool {
    total_size != 0 ==> chunk.len() + data.len() <= isize::MAX
}

/// Whether a message stays within the machine limit of [`assemble_chunk`]
/// and [`v3_chunk_step`] for the bytes already collected.
pub fn v3_chunk_fits(chunk_data: &BytesMut, total_size: i32, data: &[u8]) -> (b: bool)
    ensures
        b == assemble_fits(bytes_mut_contents(*chunk_data), total_size, data@),
{
    if total_size == 0 {
        return true;
    }
    let held = bytes_mut_len(chunk_data);
    held <= isize::MAX as usize && data.len() <= isize::MAX as usize - held
}

/// Assemble chunked data: `Some` with the complete data, `None` when more
/// chunks are needed.
pub fn assemble_chunk(chunk_data: &BytesMut, total_size: i32, data: &[u8]) -> (r: Option<BytesMut>)
    requires
        assemble_fits(bytes_mut_contents(*chunk_data), total_size, data@),
    ensures
        match r {
            Some(b) => spec_assemble(bytes_mut_contents(*chunk_data), total_size, data@) == Some(
                bytes_mut_contents(b),
            ),
            None => spec_assemble(bytes_mut_contents(*chunk_data), total_size, data@) is None,
        },
{
    if total_size == 0 {
        // No chunking
        return Some(bytes_mut_from_slice(data));
    }
    let mut combined = bytes_mut_clone(chunk_data);
    bytes_mut_extend_from_slice(&mut combined, data);
    if (bytes_mut_len(&combined) as i32) < total_size {
        None
    } else {
        Some(combined)
    }
}

/// One message's effect on the collected bytes: a complete message empties
/// them, an incomplete one is appended to them.
pub open spec fn v3_step(chunk: Seq<u8>, total_size: i32, data: Seq<u8>) -> (Seq<u8>, Option<Seq<u8>>) {
    match spec_assemble(chunk, total_size, data) {
        Some(d) => (Seq::empty(), Some(d)),
        None => (chunk + data, None),
    }
}

/// Feed one message's data to the collected bytes; returns the message's
/// complete data once it is there.
pub fn v3_chunk_step(chunk_data: &mut BytesMut, total_size: i32, data: &[u8]) -> (r: Option<Bytes>)
    requires
        assemble_fits(bytes_mut_contents(*old(chunk_data)), total_size, data@),
    ensures
        (bytes_mut_contents(*final(chunk_data)), match r {
            Some(b) => Some(bytes_contents(b)),
            None => None,
        }) == v3_step(bytes_mut_contents(*old(chunk_data)), total_size, data@),
{
    match assemble_chunk(chunk_data, total_size, data) {
        Some(d) => {
            bytes_mut_clear(chunk_data);
            Some(bytes_mut_freeze(d))
        },
        None => {
            bytes_mut_extend_from_slice(chunk_data, data);
            None
        },
    }
}

/// The collected bytes and the last result after a sequence of messages of
/// the same total size.
pub open spec fn v3_feed(chunk: Seq<u8>, total_size: i32, ds: Seq<Seq<u8>>) -> (Seq<u8>, Option<Seq<u8>>)
    decreases ds.len(),
{
    if ds.len() == 0 {
        (chunk, None)
    } else {
        v3_step(v3_feed(chunk, total_size, ds.drop_last()).0, total_size, ds.last())
    }
}

proof fn lemma_v3_feed_prefix(total_size: i32, ds: Seq<Seq<u8>>, j: int)
    requires
        total_size > 0,
        0 <= j < ds.len(),
        forall|i: int| 0 <= i < ds.len() - 1 ==> #[trigger] concat_all(ds.take(i + 1)).len() < total_size,
    ensures
        v3_feed(Seq::empty(), total_size, ds.take(j)).0 == concat_all(ds.take(j)),
        j > 0 ==> v3_feed(Seq::empty(), total_size, ds.take(j)).1 is None,
    decreases j,
{
    if j > 0 {
        lemma_v3_feed_prefix(total_size, ds, j - 1);
        assert(ds.take(j).drop_last() =~= ds.take(j - 1));
        let i = j - 1;
        assert(concat_all(ds.take(i + 1)).len() < total_size);
        assert(ds.take(i + 1) == ds.take(j));
    }
}

/// 3-layer reassembly: with a positive total size, pieces whose running
/// length stays below it give nothing back until the piece that reaches it,
/// which returns all pieces concatenated in order and empties the collected
/// bytes (lengths within `i32` range).
pub proof fn law_v3_chunks_reassemble(total_size: i32, ds: Seq<Seq<u8>>)
    requires
        total_size > 0,
        ds.len() >= 1,
        forall|i: int| 0 <= i < ds.len() - 1 ==> #[trigger] concat_all(ds.take(i + 1)).len() < total_size,
        total_size <= concat_all(ds).len() <= i32::MAX,
    ensures
        forall|j: int|
            1 <= j < ds.len() ==> (#[trigger] v3_feed(Seq::empty(), total_size, ds.take(j))).1 is None,
        v3_feed(Seq::empty(), total_size, ds) == (Seq::<u8>::empty(), Some(concat_all(ds))),
{
    assert forall|j: int| 1 <= j < ds.len() implies (#[trigger] v3_feed(
        Seq::empty(),
        total_size,
        ds.take(j),
    )).1 is None by {
        lemma_v3_feed_prefix(total_size, ds, j);
    }
    let k = ds.len() as int;
    lemma_v3_feed_prefix(total_size, ds, k - 1);
    assert(ds.drop_last() =~= ds.take(k - 1));
    let c = concat_all(ds.take(k - 1)) + ds.last();
    assert(c == concat_all(ds));
    assert((c.len() as i32) == c.len());
}

/// The name of a telemetry encoding.
pub open spec fn encoding_label(encoding: i32) -> Seq<char> {
    if encoding == 0 {
        "Encoding_JSON"@
    } else if encoding == 1 {
        "Encoding_GPB"@
    } else {
        "Unknown"@
    }
}

/// Get encoding name as a string.
pub fn encoding_name(encoding: i32) -> (s: &'static str)
    ensures
        s@ == encoding_label(encoding),
{
    match encoding {
        0 => "Encoding_JSON",
        1 => "Encoding_GPB",
        _ => "Unknown",
    }
}

/// Lowercase hex encoding of bytes that are not UTF-8.
pub fn encode(bytes: &[u8]) -> (s: String)
    ensures
        s@ == hex_of(bytes@),
{
    hex_encode(bytes)
}

/// The fields of a 3-layer message's arguments that are printed.
#[derive(Debug, Clone)]
pub struct V3ArgsInfo {
    pub req_id: i64,
    pub errors: String,
    pub total_size: i32,
}

/// The fields of a decoded `Telemetry` message that are printed.
#[derive(Debug, Clone)]
pub struct TelemetryInfo {
    pub producer_name: String,
    pub node_id_str: String,
    pub product_name: String,
    pub subscription_id_str: String,
    pub sensor_path: String,
    pub collection_id: u64,
    pub collection_start_time: u64,
    pub msg_timestamp: u64,
    pub collection_end_time: u64,
    pub current_period: u32,
    pub except_desc: String,
    pub encoding: i32,
    pub data_str: String,
}

/// The first lines printed for every 3-layer message.
pub open spec fn args_info_text(a: V3ArgsInfo) -> Seq<char> {
    "telemetryMsg:\nReqId: \""@ + signed_decimal(a.req_id as int) + "\"\nerrors: \""@ + a.errors@
        + "\"\ntotalSize: \""@ + signed_decimal(a.total_size as int) + "\""@
}

/// The lines printed for a decoded telemetry message.
pub open spec fn telemetry_info_text(a: V3ArgsInfo, t: TelemetryInfo) -> Seq<char> {
    args_info_text(a) + "\nproducer_name: \""@ + t.producer_name@ + "\"\nnode_id_str: \""@
        + t.node_id_str@ + "\"\nproduct_name: \""@ + t.product_name@ + "\"\nsubscription_id_str: \""@
        + t.subscription_id_str@ + "\"\nsensor_path: \""@ + t.sensor_path@ + "\"\ncollection_id: \""@
        + decimal(t.collection_id as nat) + "\"\ncollection_start_time: \""@ + decimal(
        t.collection_start_time as nat,
    ) + "\"\nmsg_timestamp: \""@ + decimal(t.msg_timestamp as nat) + "\"\ncollection_end_time: \""@
        + decimal(t.collection_end_time as nat) + "\"\ncurrent_period: \""@ + decimal(
        t.current_period as nat,
    ) + "\"\nexcept_desc: \""@ + t.except_desc@ + "\"\nencoding: \""@ + encoding_label(t.encoding)
        + "\""@
}

/// The line that closes each 3-layer message's output.
pub open spec fn v3_footer_text(count: u64, peer: Seq<char>) -> Seq<char> {
    "\n==================gRPC 3-layer server count: "@ + decimal(count as nat) + " source addr: "@
        + peer + "=================="@
}

/// Appends the closing line of a 3-layer message.
fn push_v3_footer(s: &mut String, count: u64, peer: &str)
    ensures
        final(s)@ == old(s)@ + v3_footer_text(count, peer@),
{
    push_text(s, "\n==================gRPC 3-layer server count: ");
    push_decimal(s, count);
    push_text(s, " source addr: ");
    push_text(s, peer);
    push_text(s, "==================");
}

/// The first lines printed for every 3-layer message.
pub fn args_info(a: &V3ArgsInfo) -> (s: String)
    ensures
        s@ == args_info_text(*a),
{
    let mut s = String::from_str("telemetryMsg:\nReqId: \"");
    push_signed_decimal(&mut s, a.req_id);
    push_text(&mut s, "\"\nerrors: \"");
    push_text(&mut s, a.errors.as_str());
    push_text(&mut s, "\"\ntotalSize: \"");
    push_signed_decimal(&mut s, a.total_size as i64);
    push_text(&mut s, "\"");
    s
}

/// The lines printed for a decoded telemetry message.
pub fn telemetry_info(a: &V3ArgsInfo, t: &TelemetryInfo) -> (s: String)
    ensures
        s@ == telemetry_info_text(*a, *t),
{
    let mut s = args_info(a);
    push_text(&mut s, "\nproducer_name: \"");
    push_text(&mut s, t.producer_name.as_str());
    push_text(&mut s, "\"\nnode_id_str: \"");
    push_text(&mut s, t.node_id_str.as_str());
    push_text(&mut s, "\"\nproduct_name: \"");
    push_text(&mut s, t.product_name.as_str());
    push_text(&mut s, "\"\nsubscription_id_str: \"");
    push_text(&mut s, t.subscription_id_str.as_str());
    push_text(&mut s, "\"\nsensor_path: \"");
    push_text(&mut s, t.sensor_path.as_str());
    push_text(&mut s, "\"\ncollection_id: \"");
    push_decimal(&mut s, t.collection_id);
    push_text(&mut s, "\"\ncollection_start_time: \"");
    push_decimal(&mut s, t.collection_start_time);
    push_text(&mut s, "\"\nmsg_timestamp: \"");
    push_decimal(&mut s, t.msg_timestamp);
    push_text(&mut s, "\"\ncollection_end_time: \"");
    push_decimal(&mut s, t.collection_end_time);
    push_text(&mut s, "\"\ncurrent_period: \"");
    push_decimal(&mut s, t.current_period as u64);
    push_text(&mut s, "\"\nexcept_desc: \"");
    push_text(&mut s, t.except_desc.as_str());
    push_text(&mut s, "\"\nencoding: \"");
    push_text(&mut s, encoding_name(t.encoding));
    push_text(&mut s, "\"");
    s
}

/// The output for a message whose telemetry could not be decoded.
pub open spec fn v3_decode_error_text(info: Seq<char>, err: Seq<char>, count: u64, peer: Seq<char>) -> Seq<
    char,
> {
    info + "\ngpb decode error with: \""@ + err + "\""@ + v3_footer_text(count, peer)
}

/// The output for a message whose telemetry could not be decoded.
pub fn v3_decode_error(info: &str, err: &str, count: u64, peer: &str) -> (s: String)
    ensures
        s@ == v3_decode_error_text(info@, err@, count, peer@),
{
    let mut s = String::from_str(info);
    push_text(&mut s, "\ngpb decode error with: \"");
    push_text(&mut s, err);
    push_text(&mut s, "\"");
    push_v3_footer(&mut s, count, peer);
    s
}

/// The output of original mode: the message's data as received (the JSON
/// text, or the decoded message's rendering for GPB).
pub open spec fn v3_original_text(info: Seq<char>, shown: Seq<char>, count: u64, peer: Seq<char>) -> Seq<
    char,
> {
    info + "\ndata_str:\n"@ + shown + v3_footer_text(count, peer)
}

/// The output of original mode.
pub fn v3_original(info: &str, shown: &str, count: u64, peer: &str) -> (s: String)
    ensures
        s@ == v3_original_text(info@, shown@, count, peer@),
{
    let mut s = String::from_str(info);
    push_text(&mut s, "\ndata_str:\n");
    push_text(&mut s, shown);
    push_v3_footer(&mut s, count, peer);
    s
}

/// The output for a JSON-encoded message whose data was re-rendered.
pub open spec fn v3_json_text(info: Seq<char>, formatted: Seq<char>, count: u64, peer: Seq<char>) -> Seq<
    char,
> {
    info + "\ndata_str:\n"@ + formatted + v3_footer_text(count, peer)
}

/// The output for a JSON-encoded message whose data is not JSON.
pub open spec fn v3_json_error_text(
    info: Seq<char>,
    data_str: Seq<char>,
    err: Seq<char>,
    count: u64,
    peer: Seq<char>,
) -> Seq<char> {
    info + "\nOrignal data_str:\n"@ + data_str + "\njson format error with: \""@ + err + "\""@
        + v3_footer_text(count, peer)
}

/// The report for a JSON-encoded telemetry message: its data re-rendered
/// (indented when `format_json`), or the data and the parser's error.
pub fn v3_json_report(info: &str, data_str: &str, format_json: bool, count: u64, peer: &str) -> (r:
    Report)
    ensures
        r.is_error == !json_text_parses(data_str@),
        !r.is_error ==> r.text@ == v3_json_text(
            info@,
            json_rendering(data_str@, format_json),
            count,
            peer@,
        ),
        r.is_error ==> r.text@ == v3_json_error_text(
            info@,
            data_str@,
            json_error_message(data_str@),
            count,
            peer@,
        ),
{
    match reformat_json(data_str, format_json) {
        Ok(f) => {
            let mut s = String::from_str(info);
            push_text(&mut s, "\ndata_str:\n");
            push_text(&mut s, f.as_str());
            push_v3_footer(&mut s, count, peer);
            assert(s@ == v3_json_text(info@, f@, count, peer@));
            Report { is_error: false, text: s }
        },
        Err(e) => {
            let mut s = String::from_str(info);
            push_text(&mut s, "\nOrignal data_str:\n");
            push_text(&mut s, data_str);
            push_text(&mut s, "\njson format error with: \"");
            push_text(&mut s, e.as_str());
            push_text(&mut s, "\"");
            push_v3_footer(&mut s, count, peer);
            assert(s@ == v3_json_error_text(info@, data_str@, e@, count, peer@));
            Report { is_error: true, text: s }
        },
    }
}

/// The line of one GPB row: its 1-based number, timestamp and decoded body.
pub open spec fn gpb_row_text(row_index: usize, timestamp: u64, body: Seq<char>) -> Seq<char> {
    "V3 GPB-content row "@ + decimal(row_index as nat + 1) + " timestamp: \""@ + decimal(
        timestamp as nat,
    ) + "\"\ncontent: "@ + body + "\n"@
}

/// The line of row `row_index` (0-based) with the given body.
pub fn gpb_row_line(row_index: usize, timestamp: u64, body: &str) -> (s: String)
    requires
        row_index < u64::MAX,
    ensures
        s@ == gpb_row_text(row_index, timestamp, body@),
{
    let mut s = String::from_str("V3 GPB-content row ");
    push_decimal(&mut s, row_index as u64 + 1);
    push_text(&mut s, " timestamp: \"");
    push_decimal(&mut s, timestamp);
    push_text(&mut s, "\"\ncontent: ");
    push_text(&mut s, body);
    push_text(&mut s, "\n");
    s
}

/// The body of a row whose content is empty.
pub open spec fn empty_row_body() -> Seq<char> {
    "<empty>"@
}

/// The output for a GPB-encoded message: its information, then its rows.
pub open spec fn v3_gpb_text(info: Seq<char>, rows: Seq<char>, count: u64, peer: Seq<char>) -> Seq<char> {
    info + "\n"@ + rows + v3_footer_text(count, peer)
}

/// The output for a GPB-encoded message.
pub fn v3_gpb_content(info: &str, rows: &str, count: u64, peer: &str) -> (s: String)
    ensures
        s@ == v3_gpb_text(info@, rows@, count, peer@),
{
    let mut s = String::from_str(info);
    push_text(&mut s, "\n");
    push_text(&mut s, rows);
    push_v3_footer(&mut s, count, peer);
    s
}


/// How a non-empty GPB row's content came out of decoding.
#[derive(Debug, Clone)]
pub enum RowDecode {
    /// Decoded and rendered as JSON text.
    Rendered(String),
    /// Not decodable: the row as printed for debugging, and the error.
    Failed { row_debug: String, error: String },
}

/// The body shown for a row: `<empty>` for empty content, the rendered JSON
/// of decoded content, or the row and the decoding error.
pub open spec fn row_body_text(d: Option<RowDecode>) -> Seq<char> {
    match d {
        None => empty_row_body(),
        Some(RowDecode::Rendered(s)) => s@,
        Some(RowDecode::Failed { row_debug, error }) => "content:\n "@ + row_debug@
            + "\ngpb format error with: \""@ + error@ + "\""@,
    }
}

/// The body of a row, given the outcome of decoding its content (`None`
/// when the content is empty).
pub fn gpb_row_body(d: Option<RowDecode>) -> (s: String)
    ensures
        s@ == row_body_text(d),
{
    match d {
        None => String::from_str("<empty>"),
        Some(RowDecode::Rendered(s)) => s,
        Some(RowDecode::Failed { row_debug, error }) => {
            let mut s = String::from_str("content:\n ");
            push_text(&mut s, row_debug.as_str());
            push_text(&mut s, "\ngpb format error with: \"");
            push_text(&mut s, error.as_str());
            push_text(&mut s, "\"");
            s
        },
    }
}

/// The text of a `bytes` field in decoded content: the bytes themselves
/// when they are UTF-8, their lowercase hex otherwise.
pub open spec fn bytes_field_view(b: Seq<u8>) -> Seq<char> {
    if valid_utf8(b) {
        decode_utf8(b)
    } else {
        hex_of(b)
    }
}

/// The text of a `bytes` field in decoded content.
pub fn bytes_field_text(b: &[u8]) -> (s: String)
    ensures
        s@ == bytes_field_view(b@),
{
    match utf8_decode(b) {
        Some(t) => String::from_str(t),
        None => hex_encode(b),
    }
}



/// `text` shows `value` between `label` and `next`: somewhere in it
/// `label` is directly followed by `value` and then by `next`.
pub open spec fn shows_field(text: Seq<char>, label: Seq<char>, value: Seq<char>, next: Seq<char>) -> bool {
    exists|p: Seq<char>, q: Seq<char>| text == #[trigger] (p + label + value + next + q)
}

/// Every field of a telemetry message is printed under its own label: each
/// label is directly followed by its field's value, then by the next label
/// (or the closing quote).
pub proof fn law_telemetry_fields_under_their_labels(a: V3ArgsInfo, t: TelemetryInfo)
    ensures
        shows_field(telemetry_info_text(a, t), "telemetryMsg:\nReqId: \""@, signed_decimal(a.req_id as int), "\"\nerrors: \""@),
        shows_field(telemetry_info_text(a, t), "\"\nerrors: \""@, a.errors@, "\"\ntotalSize: \""@),
        shows_field(telemetry_info_text(a, t), "\"\ntotalSize: \""@, signed_decimal(a.total_size as int), "\""@),
        shows_field(telemetry_info_text(a, t), "\nproducer_name: \""@, t.producer_name@, "\"\nnode_id_str: \""@),
        shows_field(telemetry_info_text(a, t), "\"\nnode_id_str: \""@, t.node_id_str@, "\"\nproduct_name: \""@),
        shows_field(telemetry_info_text(a, t), "\"\nproduct_name: \""@, t.product_name@, "\"\nsubscription_id_str: \""@),
        shows_field(telemetry_info_text(a, t), "\"\nsubscription_id_str: \""@, t.subscription_id_str@, "\"\nsensor_path: \""@),
        shows_field(telemetry_info_text(a, t), "\"\nsensor_path: \""@, t.sensor_path@, "\"\ncollection_id: \""@),
        shows_field(telemetry_info_text(a, t), "\"\ncollection_id: \""@, decimal(t.collection_id as nat), "\"\ncollection_start_time: \""@),
        shows_field(telemetry_info_text(a, t), "\"\ncollection_start_time: \""@, decimal(t.collection_start_time as nat), "\"\nmsg_timestamp: \""@),
        shows_field(telemetry_info_text(a, t), "\"\nmsg_timestamp: \""@, decimal(t.msg_timestamp as nat), "\"\ncollection_end_time: \""@),
        shows_field(telemetry_info_text(a, t), "\"\ncollection_end_time: \""@, decimal(t.collection_end_time as nat), "\"\ncurrent_period: \""@),
        shows_field(telemetry_info_text(a, t), "\"\ncurrent_period: \""@, decimal(t.current_period as nat), "\"\nexcept_desc: \""@),
        shows_field(telemetry_info_text(a, t), "\"\nexcept_desc: \""@, t.except_desc@, "\"\nencoding: \""@),
        shows_field(telemetry_info_text(a, t), "\"\nencoding: \""@, encoding_label(t.encoding), "\""@),
{
    let ghost t0: Seq<char> = "telemetryMsg:\nReqId: \""@;
    let ghost t1: Seq<char> = t0 + signed_decimal(a.req_id as int);
    let ghost t2: Seq<char> = t1 + "\"\nerrors: \""@;
    let ghost t3: Seq<char> = t2 + a.errors@;
    let ghost t4: Seq<char> = t3 + "\"\ntotalSize: \""@;
    let ghost t5: Seq<char> = t4 + signed_decimal(a.total_size as int);
    let ghost t6: Seq<char> = t5 + "\""@;
    let ghost t7: Seq<char> = t6 + "\nproducer_name: \""@;
    let ghost t8: Seq<char> = t7 + t.producer_name@;
    let ghost t9: Seq<char> = t8 + "\"\nnode_id_str: \""@;
    let ghost t10: Seq<char> = t9 + t.node_id_str@;
    let ghost t11: Seq<char> = t10 + "\"\nproduct_name: \""@;
    let ghost t12: Seq<char> = t11 + t.product_name@;
    let ghost t13: Seq<char> = t12 + "\"\nsubscription_id_str: \""@;
    let ghost t14: Seq<char> = t13 + t.subscription_id_str@;
    let ghost t15: Seq<char> = t14 + "\"\nsensor_path: \""@;
    let ghost t16: Seq<char> = t15 + t.sensor_path@;
    let ghost t17: Seq<char> = t16 + "\"\ncollection_id: \""@;
    let ghost t18: Seq<char> = t17 + decimal(t.collection_id as nat);
    let ghost t19: Seq<char> = t18 + "\"\ncollection_start_time: \""@;
    let ghost t20: Seq<char> = t19 + decimal(t.collection_start_time as nat);
    let ghost t21: Seq<char> = t20 + "\"\nmsg_timestamp: \""@;
    let ghost t22: Seq<char> = t21 + decimal(t.msg_timestamp as nat);
    let ghost t23: Seq<char> = t22 + "\"\ncollection_end_time: \""@;
    let ghost t24: Seq<char> = t23 + decimal(t.collection_end_time as nat);
    let ghost t25: Seq<char> = t24 + "\"\ncurrent_period: \""@;
    let ghost t26: Seq<char> = t25 + decimal(t.current_period as nat);
    let ghost t27: Seq<char> = t26 + "\"\nexcept_desc: \""@;
    let ghost t28: Seq<char> = t27 + t.except_desc@;
    let ghost t29: Seq<char> = t28 + "\"\nencoding: \""@;
    let ghost t30: Seq<char> = t29 + encoding_label(t.encoding);
    let ghost t31: Seq<char> = t30 + "\""@;
    assert(telemetry_info_text(a, t) == t31);
    assert(shows_field(telemetry_info_text(a, t), "telemetryMsg:\nReqId: \""@, signed_decimal(a.req_id as int), "\"\nerrors: \""@)) by {
        assert(Seq::<char>::empty() + "telemetryMsg:\nReqId: \""@ =~= "telemetryMsg:\nReqId: \""@);
        let r3: Seq<char> = a.errors@;
        let r4: Seq<char> = r3 + "\"\ntotalSize: \""@;
        lemma_concat_associative(t2, r3, "\"\ntotalSize: \""@);
        assert(t4 == t2 + r4);
        let r5: Seq<char> = r4 + signed_decimal(a.total_size as int);
        lemma_concat_associative(t2, r4, signed_decimal(a.total_size as int));
        assert(t5 == t2 + r5);
        let r6: Seq<char> = r5 + "\""@;
        lemma_concat_associative(t2, r5, "\""@);
        assert(t6 == t2 + r6);
        let r7: Seq<char> = r6 + "\nproducer_name: \""@;
        lemma_concat_associative(t2, r6, "\nproducer_name: \""@);
        assert(t7 == t2 + r7);
        let r8: Seq<char> = r7 + t.producer_name@;
        lemma_concat_associative(t2, r7, t.producer_name@);
        assert(t8 == t2 + r8);
        let r9: Seq<char> = r8 + "\"\nnode_id_str: \""@;
        lemma_concat_associative(t2, r8, "\"\nnode_id_str: \""@);
        assert(t9 == t2 + r9);
        let r10: Seq<char> = r9 + t.node_id_str@;
        lemma_concat_associative(t2, r9, t.node_id_str@);
        assert(t10 == t2 + r10);
        let r11: Seq<char> = r10 + "\"\nproduct_name: \""@;
        lemma_concat_associative(t2, r10, "\"\nproduct_name: \""@);
        assert(t11 == t2 + r11);
        let r12: Seq<char> = r11 + t.product_name@;
        lemma_concat_associative(t2, r11, t.product_name@);
        assert(t12 == t2 + r12);
        let r13: Seq<char> = r12 + "\"\nsubscription_id_str: \""@;
        lemma_concat_associative(t2, r12, "\"\nsubscription_id_str: \""@);
        assert(t13 == t2 + r13);
        let r14: Seq<char> = r13 + t.subscription_id_str@;
        lemma_concat_associative(t2, r13, t.subscription_id_str@);
        assert(t14 == t2 + r14);
        let r15: Seq<char> = r14 + "\"\nsensor_path: \""@;
        lemma_concat_associative(t2, r14, "\"\nsensor_path: \""@);
        assert(t15 == t2 + r15);
        let r16: Seq<char> = r15 + t.sensor_path@;
        lemma_concat_associative(t2, r15, t.sensor_path@);
        assert(t16 == t2 + r16);
        let r17: Seq<char> = r16 + "\"\ncollection_id: \""@;
        lemma_concat_associative(t2, r16, "\"\ncollection_id: \""@);
        assert(t17 == t2 + r17);
        let r18: Seq<char> = r17 + decimal(t.collection_id as nat);
        lemma_concat_associative(t2, r17, decimal(t.collection_id as nat));
        assert(t18 == t2 + r18);
        let r19: Seq<char> = r18 + "\"\ncollection_start_time: \""@;
        lemma_concat_associative(t2, r18, "\"\ncollection_start_time: \""@);
        assert(t19 == t2 + r19);
        let r20: Seq<char> = r19 + decimal(t.collection_start_time as nat);
        lemma_concat_associative(t2, r19, decimal(t.collection_start_time as nat));
        assert(t20 == t2 + r20);
        let r21: Seq<char> = r20 + "\"\nmsg_timestamp: \""@;
        lemma_concat_associative(t2, r20, "\"\nmsg_timestamp: \""@);
        assert(t21 == t2 + r21);
        let r22: Seq<char> = r21 + decimal(t.msg_timestamp as nat);
        lemma_concat_associative(t2, r21, decimal(t.msg_timestamp as nat));
        assert(t22 == t2 + r22);
        let r23: Seq<char> = r22 + "\"\ncollection_end_time: \""@;
        lemma_concat_associative(t2, r22, "\"\ncollection_end_time: \""@);
        assert(t23 == t2 + r23);
        let r24: Seq<char> = r23 + decimal(t.collection_end_time as nat);
        lemma_concat_associative(t2, r23, decimal(t.collection_end_time as nat));
        assert(t24 == t2 + r24);
        let r25: Seq<char> = r24 + "\"\ncurrent_period: \""@;
        lemma_concat_associative(t2, r24, "\"\ncurrent_period: \""@);
        assert(t25 == t2 + r25);
        let r26: Seq<char> = r25 + decimal(t.current_period as nat);
        lemma_concat_associative(t2, r25, decimal(t.current_period as nat));
        assert(t26 == t2 + r26);
        let r27: Seq<char> = r26 + "\"\nexcept_desc: \""@;
        lemma_concat_associative(t2, r26, "\"\nexcept_desc: \""@);
        assert(t27 == t2 + r27);
        let r28: Seq<char> = r27 + t.except_desc@;
        lemma_concat_associative(t2, r27, t.except_desc@);
        assert(t28 == t2 + r28);
        let r29: Seq<char> = r28 + "\"\nencoding: \""@;
        lemma_concat_associative(t2, r28, "\"\nencoding: \""@);
        assert(t29 == t2 + r29);
        let r30: Seq<char> = r29 + encoding_label(t.encoding);
        lemma_concat_associative(t2, r29, encoding_label(t.encoding));
        assert(t30 == t2 + r30);
        let r31: Seq<char> = r30 + "\""@;
        lemma_concat_associative(t2, r30, "\""@);
        assert(t31 == t2 + r31);
        assert(telemetry_info_text(a, t) == Seq::<char>::empty() + "telemetryMsg:\nReqId: \""@ + signed_decimal(a.req_id as int) + "\"\nerrors: \""@ + r31);
    }
    assert(shows_field(telemetry_info_text(a, t), "\"\nerrors: \""@, a.errors@, "\"\ntotalSize: \""@)) by {
        let r5: Seq<char> = signed_decimal(a.total_size as int);
        let r6: Seq<char> = r5 + "\""@;
        lemma_concat_associative(t4, r5, "\""@);
        assert(t6 == t4 + r6);
        let r7: Seq<char> = r6 + "\nproducer_name: \""@;
        lemma_concat_associative(t4, r6, "\nproducer_name: \""@);
        assert(t7 == t4 + r7);
        let r8: Seq<char> = r7 + t.producer_name@;
        lemma_concat_associative(t4, r7, t.producer_name@);
        assert(t8 == t4 + r8);
        let r9: Seq<char> = r8 + "\"\nnode_id_str: \""@;
        lemma_concat_associative(t4, r8, "\"\nnode_id_str: \""@);
        assert(t9 == t4 + r9);
        let r10: Seq<char> = r9 + t.node_id_str@;
        lemma_concat_associative(t4, r9, t.node_id_str@);
        assert(t10 == t4 + r10);
        let r11: Seq<char> = r10 + "\"\nproduct_name: \""@;
        lemma_concat_associative(t4, r10, "\"\nproduct_name: \""@);
        assert(t11 == t4 + r11);
        let r12: Seq<char> = r11 + t.product_name@;
        lemma_concat_associative(t4, r11, t.product_name@);
        assert(t12 == t4 + r12);
        let r13: Seq<char> = r12 + "\"\nsubscription_id_str: \""@;
        lemma_concat_associative(t4, r12, "\"\nsubscription_id_str: \""@);
        assert(t13 == t4 + r13);
        let r14: Seq<char> = r13 + t.subscription_id_str@;
        lemma_concat_associative(t4, r13, t.subscription_id_str@);
        assert(t14 == t4 + r14);
        let r15: Seq<char> = r14 + "\"\nsensor_path: \""@;
        lemma_concat_associative(t4, r14, "\"\nsensor_path: \""@);
        assert(t15 == t4 + r15);
        let r16: Seq<char> = r15 + t.sensor_path@;
        lemma_concat_associative(t4, r15, t.sensor_path@);
        assert(t16 == t4 + r16);
        let r17: Seq<char> = r16 + "\"\ncollection_id: \""@;
        lemma_concat_associative(t4, r16, "\"\ncollection_id: \""@);
        assert(t17 == t4 + r17);
        let r18: Seq<char> = r17 + decimal(t.collection_id as nat);
        lemma_concat_associative(t4, r17, decimal(t.collection_id as nat));
        assert(t18 == t4 + r18);
        let r19: Seq<char> = r18 + "\"\ncollection_start_time: \""@;
        lemma_concat_associative(t4, r18, "\"\ncollection_start_time: \""@);
        assert(t19 == t4 + r19);
        let r20: Seq<char> = r19 + decimal(t.collection_start_time as nat);
        lemma_concat_associative(t4, r19, decimal(t.collection_start_time as nat));
        assert(t20 == t4 + r20);
        let r21: Seq<char> = r20 + "\"\nmsg_timestamp: \""@;
        lemma_concat_associative(t4, r20, "\"\nmsg_timestamp: \""@);
        assert(t21 == t4 + r21);
        let r22: Seq<char> = r21 + decimal(t.msg_timestamp as nat);
        lemma_concat_associative(t4, r21, decimal(t.msg_timestamp as nat));
        assert(t22 == t4 + r22);
        let r23: Seq<char> = r22 + "\"\ncollection_end_time: \""@;
        lemma_concat_associative(t4, r22, "\"\ncollection_end_time: \""@);
        assert(t23 == t4 + r23);
        let r24: Seq<char> = r23 + decimal(t.collection_end_time as nat);
        lemma_concat_associative(t4, r23, decimal(t.collection_end_time as nat));
        assert(t24 == t4 + r24);
        let r25: Seq<char> = r24 + "\"\ncurrent_period: \""@;
        lemma_concat_associative(t4, r24, "\"\ncurrent_period: \""@);
        assert(t25 == t4 + r25);
        let r26: Seq<char> = r25 + decimal(t.current_period as nat);
        lemma_concat_associative(t4, r25, decimal(t.current_period as nat));
        assert(t26 == t4 + r26);
        let r27: Seq<char> = r26 + "\"\nexcept_desc: \""@;
        lemma_concat_associative(t4, r26, "\"\nexcept_desc: \""@);
        assert(t27 == t4 + r27);
        let r28: Seq<char> = r27 + t.except_desc@;
        lemma_concat_associative(t4, r27, t.except_desc@);
        assert(t28 == t4 + r28);
        let r29: Seq<char> = r28 + "\"\nencoding: \""@;
        lemma_concat_associative(t4, r28, "\"\nencoding: \""@);
        assert(t29 == t4 + r29);
        let r30: Seq<char> = r29 + encoding_label(t.encoding);
        lemma_concat_associative(t4, r29, encoding_label(t.encoding));
        assert(t30 == t4 + r30);
        let r31: Seq<char> = r30 + "\""@;
        lemma_concat_associative(t4, r30, "\""@);
        assert(t31 == t4 + r31);
        assert(telemetry_info_text(a, t) == t1 + "\"\nerrors: \""@ + a.errors@ + "\"\ntotalSize: \""@ + r31);
    }
    assert(shows_field(telemetry_info_text(a, t), "\"\ntotalSize: \""@, signed_decimal(a.total_size as int), "\""@)) by {
        let r7: Seq<char> = "\nproducer_name: \""@;
        let r8: Seq<char> = r7 + t.producer_name@;
        lemma_concat_associative(t6, r7, t.producer_name@);
        assert(t8 == t6 + r8);
        let r9: Seq<char> = r8 + "\"\nnode_id_str: \""@;
        lemma_concat_associative(t6, r8, "\"\nnode_id_str: \""@);
        assert(t9 == t6 + r9);
        let r10: Seq<char> = r9 + t.node_id_str@;
        lemma_concat_associative(t6, r9, t.node_id_str@);
        assert(t10 == t6 + r10);
        let r11: Seq<char> = r10 + "\"\nproduct_name: \""@;
        lemma_concat_associative(t6, r10, "\"\nproduct_name: \""@);
        assert(t11 == t6 + r11);
        let r12: Seq<char> = r11 + t.product_name@;
        lemma_concat_associative(t6, r11, t.product_name@);
        assert(t12 == t6 + r12);
        let r13: Seq<char> = r12 + "\"\nsubscription_id_str: \""@;
        lemma_concat_associative(t6, r12, "\"\nsubscription_id_str: \""@);
        assert(t13 == t6 + r13);
        let r14: Seq<char> = r13 + t.subscription_id_str@;
        lemma_concat_associative(t6, r13, t.subscription_id_str@);
        assert(t14 == t6 + r14);
        let r15: Seq<char> = r14 + "\"\nsensor_path: \""@;
        lemma_concat_associative(t6, r14, "\"\nsensor_path: \""@);
        assert(t15 == t6 + r15);
        let r16: Seq<char> = r15 + t.sensor_path@;
        lemma_concat_associative(t6, r15, t.sensor_path@);
        assert(t16 == t6 + r16);
        let r17: Seq<char> = r16 + "\"\ncollection_id: \""@;
        lemma_concat_associative(t6, r16, "\"\ncollection_id: \""@);
        assert(t17 == t6 + r17);
        let r18: Seq<char> = r17 + decimal(t.collection_id as nat);
        lemma_concat_associative(t6, r17, decimal(t.collection_id as nat));
        assert(t18 == t6 + r18);
        let r19: Seq<char> = r18 + "\"\ncollection_start_time: \""@;
        lemma_concat_associative(t6, r18, "\"\ncollection_start_time: \""@);
        assert(t19 == t6 + r19);
        let r20: Seq<char> = r19 + decimal(t.collection_start_time as nat);
        lemma_concat_associative(t6, r19, decimal(t.collection_start_time as nat));
        assert(t20 == t6 + r20);
        let r21: Seq<char> = r20 + "\"\nmsg_timestamp: \""@;
        lemma_concat_associative(t6, r20, "\"\nmsg_timestamp: \""@);
        assert(t21 == t6 + r21);
        let r22: Seq<char> = r21 + decimal(t.msg_timestamp as nat);
        lemma_concat_associative(t6, r21, decimal(t.msg_timestamp as nat));
        assert(t22 == t6 + r22);
        let r23: Seq<char> = r22 + "\"\ncollection_end_time: \""@;
        lemma_concat_associative(t6, r22, "\"\ncollection_end_time: \""@);
        assert(t23 == t6 + r23);
        let r24: Seq<char> = r23 + decimal(t.collection_end_time as nat);
        lemma_concat_associative(t6, r23, decimal(t.collection_end_time as nat));
        assert(t24 == t6 + r24);
        let r25: Seq<char> = r24 + "\"\ncurrent_period: \""@;
        lemma_concat_associative(t6, r24, "\"\ncurrent_period: \""@);
        assert(t25 == t6 + r25);
        let r26: Seq<char> = r25 + decimal(t.current_period as nat);
        lemma_concat_associative(t6, r25, decimal(t.current_period as nat));
        assert(t26 == t6 + r26);
        let r27: Seq<char> = r26 + "\"\nexcept_desc: \""@;
        lemma_concat_associative(t6, r26, "\"\nexcept_desc: \""@);
        assert(t27 == t6 + r27);
        let r28: Seq<char> = r27 + t.except_desc@;
        lemma_concat_associative(t6, r27, t.except_desc@);
        assert(t28 == t6 + r28);
        let r29: Seq<char> = r28 + "\"\nencoding: \""@;
        lemma_concat_associative(t6, r28, "\"\nencoding: \""@);
        assert(t29 == t6 + r29);
        let r30: Seq<char> = r29 + encoding_label(t.encoding);
        lemma_concat_associative(t6, r29, encoding_label(t.encoding));
        assert(t30 == t6 + r30);
        let r31: Seq<char> = r30 + "\""@;
        lemma_concat_associative(t6, r30, "\""@);
        assert(t31 == t6 + r31);
        assert(telemetry_info_text(a, t) == t3 + "\"\ntotalSize: \""@ + signed_decimal(a.total_size as int) + "\""@ + r31);
    }
    assert(shows_field(telemetry_info_text(a, t), "\nproducer_name: \""@, t.producer_name@, "\"\nnode_id_str: \""@)) by {
        let r10: Seq<char> = t.node_id_str@;
        let r11: Seq<char> = r10 + "\"\nproduct_name: \""@;
        lemma_concat_associative(t9, r10, "\"\nproduct_name: \""@);
        assert(t11 == t9 + r11);
        let r12: Seq<char> = r11 + t.product_name@;
        lemma_concat_associative(t9, r11, t.product_name@);
        assert(t12 == t9 + r12);
        let r13: Seq<char> = r12 + "\"\nsubscription_id_str: \""@;
        lemma_concat_associative(t9, r12, "\"\nsubscription_id_str: \""@);
        assert(t13 == t9 + r13);
        let r14: Seq<char> = r13 + t.subscription_id_str@;
        lemma_concat_associative(t9, r13, t.subscription_id_str@);
        assert(t14 == t9 + r14);
        let r15: Seq<char> = r14 + "\"\nsensor_path: \""@;
        lemma_concat_associative(t9, r14, "\"\nsensor_path: \""@);
        assert(t15 == t9 + r15);
        let r16: Seq<char> = r15 + t.sensor_path@;
        lemma_concat_associative(t9, r15, t.sensor_path@);
        assert(t16 == t9 + r16);
        let r17: Seq<char> = r16 + "\"\ncollection_id: \""@;
        lemma_concat_associative(t9, r16, "\"\ncollection_id: \""@);
        assert(t17 == t9 + r17);
        let r18: Seq<char> = r17 + decimal(t.collection_id as nat);
        lemma_concat_associative(t9, r17, decimal(t.collection_id as nat));
        assert(t18 == t9 + r18);
        let r19: Seq<char> = r18 + "\"\ncollection_start_time: \""@;
        lemma_concat_associative(t9, r18, "\"\ncollection_start_time: \""@);
        assert(t19 == t9 + r19);
        let r20: Seq<char> = r19 + decimal(t.collection_start_time as nat);
        lemma_concat_associative(t9, r19, decimal(t.collection_start_time as nat));
        assert(t20 == t9 + r20);
        let r21: Seq<char> = r20 + "\"\nmsg_timestamp: \""@;
        lemma_concat_associative(t9, r20, "\"\nmsg_timestamp: \""@);
        assert(t21 == t9 + r21);
        let r22: Seq<char> = r21 + decimal(t.msg_timestamp as nat);
        lemma_concat_associative(t9, r21, decimal(t.msg_timestamp as nat));
        assert(t22 == t9 + r22);
        let r23: Seq<char> = r22 + "\"\ncollection_end_time: \""@;
        lemma_concat_associative(t9, r22, "\"\ncollection_end_time: \""@);
        assert(t23 == t9 + r23);
        let r24: Seq<char> = r23 + decimal(t.collection_end_time as nat);
        lemma_concat_associative(t9, r23, decimal(t.collection_end_time as nat));
        assert(t24 == t9 + r24);
        let r25: Seq<char> = r24 + "\"\ncurrent_period: \""@;
        lemma_concat_associative(t9, r24, "\"\ncurrent_period: \""@);
        assert(t25 == t9 + r25);
        let r26: Seq<char> = r25 + decimal(t.current_period as nat);
        lemma_concat_associative(t9, r25, decimal(t.current_period as nat));
        assert(t26 == t9 + r26);
        let r27: Seq<char> = r26 + "\"\nexcept_desc: \""@;
        lemma_concat_associative(t9, r26, "\"\nexcept_desc: \""@);
        assert(t27 == t9 + r27);
        let r28: Seq<char> = r27 + t.except_desc@;
        lemma_concat_associative(t9, r27, t.except_desc@);
        assert(t28 == t9 + r28);
        let r29: Seq<char> = r28 + "\"\nencoding: \""@;
        lemma_concat_associative(t9, r28, "\"\nencoding: \""@);
        assert(t29 == t9 + r29);
        let r30: Seq<char> = r29 + encoding_label(t.encoding);
        lemma_concat_associative(t9, r29, encoding_label(t.encoding));
        assert(t30 == t9 + r30);
        let r31: Seq<char> = r30 + "\""@;
        lemma_concat_associative(t9, r30, "\""@);
        assert(t31 == t9 + r31);
        assert(telemetry_info_text(a, t) == t6 + "\nproducer_name: \""@ + t.producer_name@ + "\"\nnode_id_str: \""@ + r31);
    }
    assert(shows_field(telemetry_info_text(a, t), "\"\nnode_id_str: \""@, t.node_id_str@, "\"\nproduct_name: \""@)) by {
        let r12: Seq<char> = t.product_name@;
        let r13: Seq<char> = r12 + "\"\nsubscription_id_str: \""@;
        lemma_concat_associative(t11, r12, "\"\nsubscription_id_str: \""@);
        assert(t13 == t11 + r13);
        let r14: Seq<char> = r13 + t.subscription_id_str@;
        lemma_concat_associative(t11, r13, t.subscription_id_str@);
        assert(t14 == t11 + r14);
        let r15: Seq<char> = r14 + "\"\nsensor_path: \""@;
        lemma_concat_associative(t11, r14, "\"\nsensor_path: \""@);
        assert(t15 == t11 + r15);
        let r16: Seq<char> = r15 + t.sensor_path@;
        lemma_concat_associative(t11, r15, t.sensor_path@);
        assert(t16 == t11 + r16);
        let r17: Seq<char> = r16 + "\"\ncollection_id: \""@;
        lemma_concat_associative(t11, r16, "\"\ncollection_id: \""@);
        assert(t17 == t11 + r17);
        let r18: Seq<char> = r17 + decimal(t.collection_id as nat);
        lemma_concat_associative(t11, r17, decimal(t.collection_id as nat));
        assert(t18 == t11 + r18);
        let r19: Seq<char> = r18 + "\"\ncollection_start_time: \""@;
        lemma_concat_associative(t11, r18, "\"\ncollection_start_time: \""@);
        assert(t19 == t11 + r19);
        let r20: Seq<char> = r19 + decimal(t.collection_start_time as nat);
        lemma_concat_associative(t11, r19, decimal(t.collection_start_time as nat));
        assert(t20 == t11 + r20);
        let r21: Seq<char> = r20 + "\"\nmsg_timestamp: \""@;
        lemma_concat_associative(t11, r20, "\"\nmsg_timestamp: \""@);
        assert(t21 == t11 + r21);
        let r22: Seq<char> = r21 + decimal(t.msg_timestamp as nat);
        lemma_concat_associative(t11, r21, decimal(t.msg_timestamp as nat));
        assert(t22 == t11 + r22);
        let r23: Seq<char> = r22 + "\"\ncollection_end_time: \""@;
        lemma_concat_associative(t11, r22, "\"\ncollection_end_time: \""@);
        assert(t23 == t11 + r23);
        let r24: Seq<char> = r23 + decimal(t.collection_end_time as nat);
        lemma_concat_associative(t11, r23, decimal(t.collection_end_time as nat));
        assert(t24 == t11 + r24);
        let r25: Seq<char> = r24 + "\"\ncurrent_period: \""@;
        lemma_concat_associative(t11, r24, "\"\ncurrent_period: \""@);
        assert(t25 == t11 + r25);
        let r26: Seq<char> = r25 + decimal(t.current_period as nat);
        lemma_concat_associative(t11, r25, decimal(t.current_period as nat));
        assert(t26 == t11 + r26);
        let r27: Seq<char> = r26 + "\"\nexcept_desc: \""@;
        lemma_concat_associative(t11, r26, "\"\nexcept_desc: \""@);
        assert(t27 == t11 + r27);
        let r28: Seq<char> = r27 + t.except_desc@;
        lemma_concat_associative(t11, r27, t.except_desc@);
        assert(t28 == t11 + r28);
        let r29: Seq<char> = r28 + "\"\nencoding: \""@;
        lemma_concat_associative(t11, r28, "\"\nencoding: \""@);
        assert(t29 == t11 + r29);
        let r30: Seq<char> = r29 + encoding_label(t.encoding);
        lemma_concat_associative(t11, r29, encoding_label(t.encoding));
        assert(t30 == t11 + r30);
        let r31: Seq<char> = r30 + "\""@;
        lemma_concat_associative(t11, r30, "\""@);
        assert(t31 == t11 + r31);
        assert(telemetry_info_text(a, t) == t8 + "\"\nnode_id_str: \""@ + t.node_id_str@ + "\"\nproduct_name: \""@ + r31);
    }
    assert(shows_field(telemetry_info_text(a, t), "\"\nproduct_name: \""@, t.product_name@, "\"\nsubscription_id_str: \""@)) by {
        let r14: Seq<char> = t.subscription_id_str@;
        let r15: Seq<char> = r14 + "\"\nsensor_path: \""@;
        lemma_concat_associative(t13, r14, "\"\nsensor_path: \""@);
        assert(t15 == t13 + r15);
        let r16: Seq<char> = r15 + t.sensor_path@;
        lemma_concat_associative(t13, r15, t.sensor_path@);
        assert(t16 == t13 + r16);
        let r17: Seq<char> = r16 + "\"\ncollection_id: \""@;
        lemma_concat_associative(t13, r16, "\"\ncollection_id: \""@);
        assert(t17 == t13 + r17);
        let r18: Seq<char> = r17 + decimal(t.collection_id as nat);
        lemma_concat_associative(t13, r17, decimal(t.collection_id as nat));
        assert(t18 == t13 + r18);
        let r19: Seq<char> = r18 + "\"\ncollection_start_time: \""@;
        lemma_concat_associative(t13, r18, "\"\ncollection_start_time: \""@);
        assert(t19 == t13 + r19);
        let r20: Seq<char> = r19 + decimal(t.collection_start_time as nat);
        lemma_concat_associative(t13, r19, decimal(t.collection_start_time as nat));
        assert(t20 == t13 + r20);
        let r21: Seq<char> = r20 + "\"\nmsg_timestamp: \""@;
        lemma_concat_associative(t13, r20, "\"\nmsg_timestamp: \""@);
        assert(t21 == t13 + r21);
        let r22: Seq<char> = r21 + decimal(t.msg_timestamp as nat);
        lemma_concat_associative(t13, r21, decimal(t.msg_timestamp as nat));
        assert(t22 == t13 + r22);
        let r23: Seq<char> = r22 + "\"\ncollection_end_time: \""@;
        lemma_concat_associative(t13, r22, "\"\ncollection_end_time: \""@);
        assert(t23 == t13 + r23);
        let r24: Seq<char> = r23 + decimal(t.collection_end_time as nat);
        lemma_concat_associative(t13, r23, decimal(t.collection_end_time as nat));
        assert(t24 == t13 + r24);
        let r25: Seq<char> = r24 + "\"\ncurrent_period: \""@;
        lemma_concat_associative(t13, r24, "\"\ncurrent_period: \""@);
        assert(t25 == t13 + r25);
        let r26: Seq<char> = r25 + decimal(t.current_period as nat);
        lemma_concat_associative(t13, r25, decimal(t.current_period as nat));
        assert(t26 == t13 + r26);
        let r27: Seq<char> = r26 + "\"\nexcept_desc: \""@;
        lemma_concat_associative(t13, r26, "\"\nexcept_desc: \""@);
        assert(t27 == t13 + r27);
        let r28: Seq<char> = r27 + t.except_desc@;
        lemma_concat_associative(t13, r27, t.except_desc@);
        assert(t28 == t13 + r28);
        let r29: Seq<char> = r28 + "\"\nencoding: \""@;
        lemma_concat_associative(t13, r28, "\"\nencoding: \""@);
        assert(t29 == t13 + r29);
        let r30: Seq<char> = r29 + encoding_label(t.encoding);
        lemma_concat_associative(t13, r29, encoding_label(t.encoding));
        assert(t30 == t13 + r30);
        let r31: Seq<char> = r30 + "\""@;
        lemma_concat_associative(t13, r30, "\""@);
        assert(t31 == t13 + r31);
        assert(telemetry_info_text(a, t) == t10 + "\"\nproduct_name: \""@ + t.product_name@ + "\"\nsubscription_id_str: \""@ + r31);
    }
    assert(shows_field(telemetry_info_text(a, t), "\"\nsubscription_id_str: \""@, t.subscription_id_str@, "\"\nsensor_path: \""@)) by {
        let r16: Seq<char> = t.sensor_path@;
        let r17: Seq<char> = r16 + "\"\ncollection_id: \""@;
        lemma_concat_associative(t15, r16, "\"\ncollection_id: \""@);
        assert(t17 == t15 + r17);
        let r18: Seq<char> = r17 + decimal(t.collection_id as nat);
        lemma_concat_associative(t15, r17, decimal(t.collection_id as nat));
        assert(t18 == t15 + r18);
        let r19: Seq<char> = r18 + "\"\ncollection_start_time: \""@;
        lemma_concat_associative(t15, r18, "\"\ncollection_start_time: \""@);
        assert(t19 == t15 + r19);
        let r20: Seq<char> = r19 + decimal(t.collection_start_time as nat);
        lemma_concat_associative(t15, r19, decimal(t.collection_start_time as nat));
        assert(t20 == t15 + r20);
        let r21: Seq<char> = r20 + "\"\nmsg_timestamp: \""@;
        lemma_concat_associative(t15, r20, "\"\nmsg_timestamp: \""@);
        assert(t21 == t15 + r21);
        let r22: Seq<char> = r21 + decimal(t.msg_timestamp as nat);
        lemma_concat_associative(t15, r21, decimal(t.msg_timestamp as nat));
        assert(t22 == t15 + r22);
        let r23: Seq<char> = r22 + "\"\ncollection_end_time: \""@;
        lemma_concat_associative(t15, r22, "\"\ncollection_end_time: \""@);
        assert(t23 == t15 + r23);
        let r24: Seq<char> = r23 + decimal(t.collection_end_time as nat);
        lemma_concat_associative(t15, r23, decimal(t.collection_end_time as nat));
        assert(t24 == t15 + r24);
        let r25: Seq<char> = r24 + "\"\ncurrent_period: \""@;
        lemma_concat_associative(t15, r24, "\"\ncurrent_period: \""@);
        assert(t25 == t15 + r25);
        let r26: Seq<char> = r25 + decimal(t.current_period as nat);
        lemma_concat_associative(t15, r25, decimal(t.current_period as nat));
        assert(t26 == t15 + r26);
        let r27: Seq<char> = r26 + "\"\nexcept_desc: \""@;
        lemma_concat_associative(t15, r26, "\"\nexcept_desc: \""@);
        assert(t27 == t15 + r27);
        let r28: Seq<char> = r27 + t.except_desc@;
        lemma_concat_associative(t15, r27, t.except_desc@);
        assert(t28 == t15 + r28);
        let r29: Seq<char> = r28 + "\"\nencoding: \""@;
        lemma_concat_associative(t15, r28, "\"\nencoding: \""@);
        assert(t29 == t15 + r29);
        let r30: Seq<char> = r29 + encoding_label(t.encoding);
        lemma_concat_associative(t15, r29, encoding_label(t.encoding));
        assert(t30 == t15 + r30);
        let r31: Seq<char> = r30 + "\""@;
        lemma_concat_associative(t15, r30, "\""@);
        assert(t31 == t15 + r31);
        assert(telemetry_info_text(a, t) == t12 + "\"\nsubscription_id_str: \""@ + t.subscription_id_str@ + "\"\nsensor_path: \""@ + r31);
    }
    assert(shows_field(telemetry_info_text(a, t), "\"\nsensor_path: \""@, t.sensor_path@, "\"\ncollection_id: \""@)) by {
        let r18: Seq<char> = decimal(t.collection_id as nat);
        let r19: Seq<char> = r18 + "\"\ncollection_start_time: \""@;
        lemma_concat_associative(t17, r18, "\"\ncollection_start_time: \""@);
        assert(t19 == t17 + r19);
        let r20: Seq<char> = r19 + decimal(t.collection_start_time as nat);
        lemma_concat_associative(t17, r19, decimal(t.collection_start_time as nat));
        assert(t20 == t17 + r20);
        let r21: Seq<char> = r20 + "\"\nmsg_timestamp: \""@;
        lemma_concat_associative(t17, r20, "\"\nmsg_timestamp: \""@);
        assert(t21 == t17 + r21);
        let r22: Seq<char> = r21 + decimal(t.msg_timestamp as nat);
        lemma_concat_associative(t17, r21, decimal(t.msg_timestamp as nat));
        assert(t22 == t17 + r22);
        let r23: Seq<char> = r22 + "\"\ncollection_end_time: \""@;
        lemma_concat_associative(t17, r22, "\"\ncollection_end_time: \""@);
        assert(t23 == t17 + r23);
        let r24: Seq<char> = r23 + decimal(t.collection_end_time as nat);
        lemma_concat_associative(t17, r23, decimal(t.collection_end_time as nat));
        assert(t24 == t17 + r24);
        let r25: Seq<char> = r24 + "\"\ncurrent_period: \""@;
        lemma_concat_associative(t17, r24, "\"\ncurrent_period: \""@);
        assert(t25 == t17 + r25);
        let r26: Seq<char> = r25 + decimal(t.current_period as nat);
        lemma_concat_associative(t17, r25, decimal(t.current_period as nat));
        assert(t26 == t17 + r26);
        let r27: Seq<char> = r26 + "\"\nexcept_desc: \""@;
        lemma_concat_associative(t17, r26, "\"\nexcept_desc: \""@);
        assert(t27 == t17 + r27);
        let r28: Seq<char> = r27 + t.except_desc@;
        lemma_concat_associative(t17, r27, t.except_desc@);
        assert(t28 == t17 + r28);
        let r29: Seq<char> = r28 + "\"\nencoding: \""@;
        lemma_concat_associative(t17, r28, "\"\nencoding: \""@);
        assert(t29 == t17 + r29);
        let r30: Seq<char> = r29 + encoding_label(t.encoding);
        lemma_concat_associative(t17, r29, encoding_label(t.encoding));
        assert(t30 == t17 + r30);
        let r31: Seq<char> = r30 + "\""@;
        lemma_concat_associative(t17, r30, "\""@);
        assert(t31 == t17 + r31);
        assert(telemetry_info_text(a, t) == t14 + "\"\nsensor_path: \""@ + t.sensor_path@ + "\"\ncollection_id: \""@ + r31);
    }
    assert(shows_field(telemetry_info_text(a, t), "\"\ncollection_id: \""@, decimal(t.collection_id as nat), "\"\ncollection_start_time: \""@)) by {
        let r20: Seq<char> = decimal(t.collection_start_time as nat);
        let r21: Seq<char> = r20 + "\"\nmsg_timestamp: \""@;
        lemma_concat_associative(t19, r20, "\"\nmsg_timestamp: \""@);
        assert(t21 == t19 + r21);
        let r22: Seq<char> = r21 + decimal(t.msg_timestamp as nat);
        lemma_concat_associative(t19, r21, decimal(t.msg_timestamp as nat));
        assert(t22 == t19 + r22);
        let r23: Seq<char> = r22 + "\"\ncollection_end_time: \""@;
        lemma_concat_associative(t19, r22, "\"\ncollection_end_time: \""@);
        assert(t23 == t19 + r23);
        let r24: Seq<char> = r23 + decimal(t.collection_end_time as nat);
        lemma_concat_associative(t19, r23, decimal(t.collection_end_time as nat));
        assert(t24 == t19 + r24);
        let r25: Seq<char> = r24 + "\"\ncurrent_period: \""@;
        lemma_concat_associative(t19, r24, "\"\ncurrent_period: \""@);
        assert(t25 == t19 + r25);
        let r26: Seq<char> = r25 + decimal(t.current_period as nat);
        lemma_concat_associative(t19, r25, decimal(t.current_period as nat));
        assert(t26 == t19 + r26);
        let r27: Seq<char> = r26 + "\"\nexcept_desc: \""@;
        lemma_concat_associative(t19, r26, "\"\nexcept_desc: \""@);
        assert(t27 == t19 + r27);
        let r28: Seq<char> = r27 + t.except_desc@;
        lemma_concat_associative(t19, r27, t.except_desc@);
        assert(t28 == t19 + r28);
        let r29: Seq<char> = r28 + "\"\nencoding: \""@;
        lemma_concat_associative(t19, r28, "\"\nencoding: \""@);
        assert(t29 == t19 + r29);
        let r30: Seq<char> = r29 + encoding_label(t.encoding);
        lemma_concat_associative(t19, r29, encoding_label(t.encoding));
        assert(t30 == t19 + r30);
        let r31: Seq<char> = r30 + "\""@;
        lemma_concat_associative(t19, r30, "\""@);
        assert(t31 == t19 + r31);
        assert(telemetry_info_text(a, t) == t16 + "\"\ncollection_id: \""@ + decimal(t.collection_id as nat) + "\"\ncollection_start_time: \""@ + r31);
    }
    assert(shows_field(telemetry_info_text(a, t), "\"\ncollection_start_time: \""@, decimal(t.collection_start_time as nat), "\"\nmsg_timestamp: \""@)) by {
        let r22: Seq<char> = decimal(t.msg_timestamp as nat);
        let r23: Seq<char> = r22 + "\"\ncollection_end_time: \""@;
        lemma_concat_associative(t21, r22, "\"\ncollection_end_time: \""@);
        assert(t23 == t21 + r23);
        let r24: Seq<char> = r23 + decimal(t.collection_end_time as nat);
        lemma_concat_associative(t21, r23, decimal(t.collection_end_time as nat));
        assert(t24 == t21 + r24);
        let r25: Seq<char> = r24 + "\"\ncurrent_period: \""@;
        lemma_concat_associative(t21, r24, "\"\ncurrent_period: \""@);
        assert(t25 == t21 + r25);
        let r26: Seq<char> = r25 + decimal(t.current_period as nat);
        lemma_concat_associative(t21, r25, decimal(t.current_period as nat));
        assert(t26 == t21 + r26);
        let r27: Seq<char> = r26 + "\"\nexcept_desc: \""@;
        lemma_concat_associative(t21, r26, "\"\nexcept_desc: \""@);
        assert(t27 == t21 + r27);
        let r28: Seq<char> = r27 + t.except_desc@;
        lemma_concat_associative(t21, r27, t.except_desc@);
        assert(t28 == t21 + r28);
        let r29: Seq<char> = r28 + "\"\nencoding: \""@;
        lemma_concat_associative(t21, r28, "\"\nencoding: \""@);
        assert(t29 == t21 + r29);
        let r30: Seq<char> = r29 + encoding_label(t.encoding);
        lemma_concat_associative(t21, r29, encoding_label(t.encoding));
        assert(t30 == t21 + r30);
        let r31: Seq<char> = r30 + "\""@;
        lemma_concat_associative(t21, r30, "\""@);
        assert(t31 == t21 + r31);
        assert(telemetry_info_text(a, t) == t18 + "\"\ncollection_start_time: \""@ + decimal(t.collection_start_time as nat) + "\"\nmsg_timestamp: \""@ + r31);
    }
    assert(shows_field(telemetry_info_text(a, t), "\"\nmsg_timestamp: \""@, decimal(t.msg_timestamp as nat), "\"\ncollection_end_time: \""@)) by {
        let r24: Seq<char> = decimal(t.collection_end_time as nat);
        let r25: Seq<char> = r24 + "\"\ncurrent_period: \""@;
        lemma_concat_associative(t23, r24, "\"\ncurrent_period: \""@);
        assert(t25 == t23 + r25);
        let r26: Seq<char> = r25 + decimal(t.current_period as nat);
        lemma_concat_associative(t23, r25, decimal(t.current_period as nat));
        assert(t26 == t23 + r26);
        let r27: Seq<char> = r26 + "\"\nexcept_desc: \""@;
        lemma_concat_associative(t23, r26, "\"\nexcept_desc: \""@);
        assert(t27 == t23 + r27);
        let r28: Seq<char> = r27 + t.except_desc@;
        lemma_concat_associative(t23, r27, t.except_desc@);
        assert(t28 == t23 + r28);
        let r29: Seq<char> = r28 + "\"\nencoding: \""@;
        lemma_concat_associative(t23, r28, "\"\nencoding: \""@);
        assert(t29 == t23 + r29);
        let r30: Seq<char> = r29 + encoding_label(t.encoding);
        lemma_concat_associative(t23, r29, encoding_label(t.encoding));
        assert(t30 == t23 + r30);
        let r31: Seq<char> = r30 + "\""@;
        lemma_concat_associative(t23, r30, "\""@);
        assert(t31 == t23 + r31);
        assert(telemetry_info_text(a, t) == t20 + "\"\nmsg_timestamp: \""@ + decimal(t.msg_timestamp as nat) + "\"\ncollection_end_time: \""@ + r31);
    }
    assert(shows_field(telemetry_info_text(a, t), "\"\ncollection_end_time: \""@, decimal(t.collection_end_time as nat), "\"\ncurrent_period: \""@)) by {
        let r26: Seq<char> = decimal(t.current_period as nat);
        let r27: Seq<char> = r26 + "\"\nexcept_desc: \""@;
        lemma_concat_associative(t25, r26, "\"\nexcept_desc: \""@);
        assert(t27 == t25 + r27);
        let r28: Seq<char> = r27 + t.except_desc@;
        lemma_concat_associative(t25, r27, t.except_desc@);
        assert(t28 == t25 + r28);
        let r29: Seq<char> = r28 + "\"\nencoding: \""@;
        lemma_concat_associative(t25, r28, "\"\nencoding: \""@);
        assert(t29 == t25 + r29);
        let r30: Seq<char> = r29 + encoding_label(t.encoding);
        lemma_concat_associative(t25, r29, encoding_label(t.encoding));
        assert(t30 == t25 + r30);
        let r31: Seq<char> = r30 + "\""@;
        lemma_concat_associative(t25, r30, "\""@);
        assert(t31 == t25 + r31);
        assert(telemetry_info_text(a, t) == t22 + "\"\ncollection_end_time: \""@ + decimal(t.collection_end_time as nat) + "\"\ncurrent_period: \""@ + r31);
    }
    assert(shows_field(telemetry_info_text(a, t), "\"\ncurrent_period: \""@, decimal(t.current_period as nat), "\"\nexcept_desc: \""@)) by {
        let r28: Seq<char> = t.except_desc@;
        let r29: Seq<char> = r28 + "\"\nencoding: \""@;
        lemma_concat_associative(t27, r28, "\"\nencoding: \""@);
        assert(t29 == t27 + r29);
        let r30: Seq<char> = r29 + encoding_label(t.encoding);
        lemma_concat_associative(t27, r29, encoding_label(t.encoding));
        assert(t30 == t27 + r30);
        let r31: Seq<char> = r30 + "\""@;
        lemma_concat_associative(t27, r30, "\""@);
        assert(t31 == t27 + r31);
        assert(telemetry_info_text(a, t) == t24 + "\"\ncurrent_period: \""@ + decimal(t.current_period as nat) + "\"\nexcept_desc: \""@ + r31);
    }
    assert(shows_field(telemetry_info_text(a, t), "\"\nexcept_desc: \""@, t.except_desc@, "\"\nencoding: \""@)) by {
        let r30: Seq<char> = encoding_label(t.encoding);
        let r31: Seq<char> = r30 + "\""@;
        lemma_concat_associative(t29, r30, "\""@);
        assert(t31 == t29 + r31);
        assert(telemetry_info_text(a, t) == t26 + "\"\nexcept_desc: \""@ + t.except_desc@ + "\"\nencoding: \""@ + r31);
    }
    assert(shows_field(telemetry_info_text(a, t), "\"\nencoding: \""@, encoding_label(t.encoding), "\""@)) by {
        assert(t31 + Seq::<char>::empty() =~= t31);
        assert(telemetry_info_text(a, t) == t28 + "\"\nencoding: \""@ + encoding_label(t.encoding) + "\""@ + Seq::<char>::empty());
    }
}

} // verus!
