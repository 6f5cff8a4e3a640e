use bytes::{Bytes, BytesMut};
use grpc_dialout::chunk::ChunkRecords;
use grpc_dialout::dialout::gnmi::{gnmi_response, join_names, GnmiNotification, GnmiUpdate, GnmiValue};
use grpc_dialout::dialout::gpb_v3::{
    args_info, assemble_chunk, encode, encoding_name, gpb_row_line, telemetry_info, v3_chunk_step,
    v3_decode_error, v3_gpb_content, v3_json_report, v3_original, TelemetryInfo, V3ArgsInfo,
};
use grpc_dialout::dialout::normal::{dialout_message, dialout_report, normal_original, ChunkInfo};
use grpc_dialout::dialout::udp::{
    process_udp_datagram, udp_count_line, udp_head_line, udp_message_report,
};
use grpc_dialout::dialout::{message_action, MessageAction};
use grpc_dialout::json::reformat_json;

#[test]
fn message_action_prefers_performance_then_original() {
    assert_eq!(message_action(true, true, 2000), MessageAction::Count { report: true });
    assert_eq!(message_action(true, false, 1999), MessageAction::Count { report: false });
    assert_eq!(message_action(false, true, 1), MessageAction::Original);
    assert_eq!(message_action(false, false, 1), MessageAction::Parse);
}

#[test]
fn json_is_reformatted_or_rejected() {
    assert_eq!(reformat_json("{ \"a\" : [1, 2] }", false).unwrap(), "{\"a\":[1,2]}");
    assert_eq!(reformat_json("{\"a\":1}", true).unwrap(), "{\n  \"a\": 1\n}");
    assert!(reformat_json("{\"a\":", false).is_err());
}

#[test]
fn normal_report_for_json_and_non_json() {
    let ok = dialout_report("sys/cpu", b"{\"u\": 5}", false, 7, "1.2.3.4:5");
    assert!(!ok.is_error);
    assert_eq!(
        ok.text,
        "DialoutMsg:\nsensorPath: \"sys/cpu\"\nJsonData:\n{\"u\":5}\n==================gRPC 2-layer server count: 7 source addr: 1.2.3.4:5=================="
    );
    let bad = dialout_report("p", b"nope", false, 1, "x");
    assert!(bad.is_error);
    assert!(bad.text.starts_with("DialoutMsg:\nsensorPath: \"p\"\nOrignalData:\nnope\njson format error with: \""));
    assert!(bad.text.ends_with("\"\n==================gRPC 2-layer server count: 1 source addr: x=================="));
    let invalid = dialout_report("p", &[0xFF, 0xFE], false, 1, "x");
    assert!(invalid.is_error);
    assert!(invalid.text.contains("OrignalData:\n<invalid utf8>\n"));
}

#[test]
fn normal_message_reassembles_then_reports() {
    let mut records = ChunkRecords::new();
    let info = |n| Some(ChunkInfo { total_size: 9, total_fragments: 2, node_id: n });
    let first = dialout_message(&mut records, Bytes::new(), "p", Bytes::from_static(b"[1,"), info(1), false, 1, "peer");
    assert!(first.is_none());
    let (len, second) = dialout_message(&mut records, Bytes::new(), "p", Bytes::from_static(b"2]"), info(2), false, 2, "peer").unwrap();
    assert_eq!(len, 5);
    assert!(!second.is_error);
    assert!(second.text.contains("JsonData:\n[1,2]\n"));
    let (_, whole) = dialout_message(&mut records, Bytes::new(), "q", Bytes::from_static(b"3"), None, false, 3, "peer").unwrap();
    assert!(whole.text.contains("JsonData:\n3\n"));
}

#[test]
fn normal_original_line() {
    assert_eq!(
        normal_original("Msg", 3, "p"),
        "original msg:\nMsg\n==================gRPC 2-layer server count: 3 source addr: p=================="
    );
}

fn udp_datagram(first: u8, header_length: u8, option: Option<[u8; 4]>, payload: &[u8]) -> Vec<u8> {
    let mut v = vec![first, header_length, 0, 0, 0, 0, 0, 1, 0, 0, 0, 2];
    if let Some(o) = option {
        v.extend_from_slice(&o);
    }
    v.extend_from_slice(payload);
    v
}

#[test]
fn udp_fragments_reassemble() {
    let mut chunk = BytesMut::new();
    let d1 = udp_datagram(0x10, 16, Some([1, 4, 0, 0]), b"hello ");
    let d2 = udp_datagram(0x10, 16, Some([1, 4, 0, 2]), b"big ");
    let d3 = udp_datagram(0x10, 16, Some([1, 4, 0, 5]), b"world");
    assert!(process_udp_datagram(&d1, &mut chunk).payload.is_none());
    assert!(process_udp_datagram(&d2, &mut chunk).payload.is_none());
    let r = process_udp_datagram(&d3, &mut chunk);
    assert_eq!(&r.payload.unwrap()[..], b"hello big world");
    assert!(chunk.is_empty());
    assert_eq!(r.header.unwrap().option.unwrap().segment_number, 2);
}

#[test]
fn udp_whole_and_unparsable_datagrams() {
    let mut chunk = BytesMut::new();
    let whole = udp_datagram(0x10, 12, None, b"abc");
    assert_eq!(&process_udp_datagram(&whole, &mut chunk).payload.unwrap()[..], b"abc");
    // header length 3 is invalid: fall back to a 12-byte header
    let bad = udp_datagram(0x10, 3, None, b"xyz");
    let r = process_udp_datagram(&bad, &mut chunk);
    assert!(r.header.is_err());
    assert_eq!(&r.payload.unwrap()[..], b"xyz");
    let tiny = [0u8; 12];
    assert!(process_udp_datagram(&tiny, &mut chunk).payload.is_none());
}

#[test]
fn udp_text_lines() {
    let data = udp_datagram(0x1A, 12, None, b"");
    let h = grpc_dialout::udp_header::parse_udp_header(&data).unwrap();
    assert_eq!(
        udp_head_line(&data, &h),
        "UDP Head:\nOriginal:0x1a0c00000000000100000002\nVersion:1 ET:10 HeaderLen:12 MsgLen:0 DomainID:1 MsgID:2"
    );
    assert_eq!(
        udp_count_line("ipv4", 12, "10.0.0.1", true),
        "==============ipv4 gRPC UDP 2-layer server count: 12, source addr: 10.0.0.1==============\n"
    );
    assert_eq!(
        udp_count_line("ipv6", 3, "::1", false),
        "==============ipv6 gRPC UDP 2-layer server count: 3, source addr: ::1=============="
    );
    let rep = udp_message_report("a/b", "[true]", true, );
    assert_eq!(rep.text, "DialoutMsg:\nsensorPath: \"a/b\"\nJsonData:\n[\n  true\n]\n");
    assert!(udp_message_report("a/b", "[", false).is_error);
}

#[test]
fn v3_chunks_assemble_to_total_size() {
    let mut chunk = BytesMut::new();
    assert!(v3_chunk_step(&mut chunk, 6, b"ab").is_none());
    assert!(v3_chunk_step(&mut chunk, 6, b"cd").is_none());
    assert_eq!(&chunk[..], b"abcd");
    assert_eq!(&v3_chunk_step(&mut chunk, 6, b"ef").unwrap()[..], b"abcdef");
    assert!(chunk.is_empty());
    assert_eq!(&v3_chunk_step(&mut chunk, 0, b"solo").unwrap()[..], b"solo");
    let held = BytesMut::from(&b"xy"[..]);
    assert!(assemble_chunk(&held, 5, b"z").is_none());
    assert_eq!(&assemble_chunk(&held, 3, b"z").unwrap()[..], b"xyz");
    assert_eq!(&assemble_chunk(&held, 0, b"z").unwrap()[..], b"z");
}

#[test]
fn v3_texts() {
    assert_eq!(encoding_name(0), "Encoding_JSON");
    assert_eq!(encoding_name(1), "Encoding_GPB");
    assert_eq!(encoding_name(7), "Unknown");
    assert_eq!(encode(&[0x00, 0xAB, 0x7F]), "00ab7f");
    let a = V3ArgsInfo { req_id: -3, errors: "none".to_string(), total_size: 0 };
    assert_eq!(args_info(&a), "telemetryMsg:\nReqId: \"-3\"\nerrors: \"none\"\ntotalSize: \"0\"");
    let t = TelemetryInfo {
        producer_name: "pr".to_string(),
        node_id_str: "n".to_string(),
        product_name: "x".to_string(),
        subscription_id_str: "s".to_string(),
        sensor_path: "Dev/cpu".to_string(),
        collection_id: 1,
        collection_start_time: 2,
        msg_timestamp: 3,
        collection_end_time: 4,
        current_period: 5,
        except_desc: "".to_string(),
        encoding: 1,
        data_str: "".to_string(),
    };
    let info = telemetry_info(&a, &t);
    assert!(info.ends_with("current_period: \"5\"\nexcept_desc: \"\"\nencoding: \"Encoding_GPB\""));
    assert!(info.contains("\nsensor_path: \"Dev/cpu\"\ncollection_id: \"1\"\n"));
    let footer = "\n==================gRPC 3-layer server count: 9 source addr: p==================";
    assert_eq!(v3_decode_error("I", "bad", 9, "p"), format!("I\ngpb decode error with: \"bad\"{}", footer));
    assert_eq!(v3_original("I", "{}", 9, "p"), format!("I\ndata_str:\n{{}}{}", footer));
    assert_eq!(v3_json_report("I", "[1, 2]", false, 9, "p").text, format!("I\ndata_str:\n[1,2]{}", footer));
    assert!(v3_json_report("I", "]", false, 9, "p").is_error);
    assert_eq!(gpb_row_line(0, 77, "<empty>"), "V3 GPB-content row 1 timestamp: \"77\"\ncontent: <empty>\n");
    assert_eq!(v3_gpb_content("I", "R\n", 9, "p"), format!("I\nR\n{}", footer));
}

fn update(path: &[&str], value: Option<GnmiValue>) -> GnmiUpdate {
    GnmiUpdate {
        path_elems: path.iter().map(|s| s.to_string()).collect(),
        path_debug: format!("{:?}", path),
        value,
    }
}

#[test]
fn gnmi_rows_and_xpath() {
    let n = GnmiNotification {
        timestamp: -5,
        prefix_elems: vec!["a".to_string(), "b".to_string()],
        updates: vec![
            update(&["c"], Some(GnmiValue::Json(b"{\"k\": 1}".to_vec()))),
            update(&["d"], None),
            update(&["e"], Some(GnmiValue::JsonIetf(b"null".to_vec()))),
            update(&["f"], Some(GnmiValue::Other)),
            update(&["g"], Some(GnmiValue::Json(vec![0xFF]))),
            update(&["h"], Some(GnmiValue::Json(b"{".to_vec()))),
        ],
    };
    let text = gnmi_response(&n, false, 4, "peer").unwrap();
    let expected = "response:\ntimestamp: \"-5\"\nxpath: \"a/b/c\"\n\
row 1:\npath: [\"c\"]\njson_val:\n{\"k\":1}\n\
row 3:\npath: [\"e\"]\njson_val: \"null\"\n\
row 4:\npath: [\"f\"]\nno json_val field\n\
row 5:\npath: [\"g\"]\njson_val is not valid UTF-8\n\
row 6:\npath: [\"h\"]\noriginal json_val:\n{\njson format error\n\
\n=======================gRPC gNMI server count: 4 source addr: peer==================";
    assert_eq!(text, expected);
    let empty = GnmiNotification { timestamp: 0, prefix_elems: vec![], updates: vec![] };
    assert!(gnmi_response(&empty, false, 1, "p").is_none());
    assert_eq!(join_names(&vec![], &vec!["x".to_string(), "y".to_string()]), "x/y");
    assert_eq!(join_names(&vec![], &vec![]), "");
}
