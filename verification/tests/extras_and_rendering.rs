use bytes::{Bytes, BytesMut};
use grpc_dialout::chunk::ChunkRecords;
use grpc_dialout::dialout::gpb_v3::{
    bytes_field_text, gpb_row_body, v3_chunk_fits, v3_json_report, RowDecode,
};
use grpc_dialout::dialout::normal::{dialout_message, dialout_report, ChunkInfo};
use grpc_dialout::dialout::udp::udp_message_report;
use grpc_dialout::json::reformat_json;
use grpc_dialout::server::{port_verdict, tls_dir_choice};

#[test]
fn rendering_follows_the_format_flag() {
    let text = "{ \"a\" : 1 }";
    let compact = reformat_json(text, false).unwrap();
    let pretty = reformat_json(text, true).unwrap();
    assert_eq!(compact, "{\"a\":1}");
    assert_eq!(pretty, "{\n  \"a\": 1\n}");
    let pretty_report = dialout_report("p", text.as_bytes(), true, 1, "x");
    assert!(pretty_report.text.contains("JsonData:\n{\n  \"a\": 1\n}\n"));
    let compact_report = dialout_report("p", text.as_bytes(), false, 1, "x");
    assert!(compact_report.text.contains("JsonData:\n{\"a\":1}\n"));
}

#[test]
fn parse_error_message_is_serde_jsons() {
    let e = reformat_json("{\"a\":", false).unwrap_err();
    assert_eq!(e, "EOF while parsing a value at line 1 column 5");
    let r = udp_message_report("p", "{\"a\":", false);
    assert!(r.is_error);
    assert_eq!(
        r.text,
        "DialoutMsg:\nsensorPath: \"p\"\nOrignalData:\n{\"a\":\njson format error with: \"EOF while parsing a value at line 1 column 5\""
    );
}

#[test]
fn three_fragments_give_one_pretty_report() {
    let mut records = ChunkRecords::new();
    let info = |n| Some(ChunkInfo { total_size: 11, total_fragments: 3, node_id: n });
    let parts: [&'static [u8]; 3] = [b"{\"k\"", b":[1,", b"2]}"];
    assert!(dialout_message(&mut records, Bytes::new(), "p", Bytes::from_static(parts[0]), info(0), true, 1, "x").is_none());
    assert!(dialout_message(&mut records, Bytes::new(), "p", Bytes::from_static(parts[1]), info(1), true, 2, "x").is_none());
    let (len, rep) = dialout_message(&mut records, Bytes::new(), "p", Bytes::from_static(parts[2]), info(2), true, 3, "x").unwrap();
    assert_eq!(len, 11);
    assert!(!rep.is_error);
    assert!(rep.text.contains("JsonData:\n{\n  \"k\": [\n    1,\n    2\n  ]\n}\n"));
}

#[test]
fn v3_json_report_renders_per_flag() {
    let r = v3_json_report("info", "[1, 2]", false, 4, "x");
    assert_eq!(
        r.text,
        "info\ndata_str:\n[1,2]\n==================gRPC 3-layer server count: 4 source addr: x=================="
    );
}

#[test]
fn v3_fits_check() {
    let chunk = BytesMut::from(&b"ab"[..]);
    assert!(v3_chunk_fits(&chunk, 0, b"cd"));
    assert!(v3_chunk_fits(&chunk, 10, b"cd"));
}

#[test]
fn gpb_row_bodies() {
    assert_eq!(gpb_row_body(None), "<empty>");
    assert_eq!(gpb_row_body(Some(RowDecode::Rendered("{}".to_string()))), "{}");
    assert_eq!(
        gpb_row_body(Some(RowDecode::Failed { row_debug: "Row".to_string(), error: "bad".to_string() })),
        "content:\n Row\ngpb format error with: \"bad\""
    );
    assert_eq!(bytes_field_text(b"hi"), "hi");
    assert_eq!(bytes_field_text(&[0xff, 0x01]), "ff01");
}

#[test]
fn port_and_tls_decisions() {
    assert_eq!(
        port_verdict(8080, false, false, true).unwrap_err(),
        "端口 8080 已被占用，请更换其他端口后重试 (Port 8080 is already in use)"
    );
    assert_eq!(
        port_verdict(80, true, false, true).unwrap_err(),
        "端口 80 已被占用 (IPv6)，请更换其他端口后重试 (Port 80 is already in use on IPv6)"
    );
    assert!(port_verdict(80, true, false, false).is_ok());
    assert!(port_verdict(80, true, true, true).is_ok());
    assert_eq!(tls_dir_choice(&vec![false, true, true]), Some(1));
    assert_eq!(tls_dir_choice(&vec![false, false]), None);
}
