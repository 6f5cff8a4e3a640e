use bytes::Bytes;
use grpc_dialout::chunk::{ChunkRecord, ChunkRecords};

fn b(s: &str) -> Bytes {
    Bytes::from(s.as_bytes().to_vec())
}

#[test]
fn unchunked_message_passes_through() {
    let mut records = ChunkRecords::new();
    let out = records.add(b("dev"), "a/b", b("{\"x\":1}"), None, None, Some(9));
    let (dev, json) = out.unwrap();
    assert_eq!(&dev[..], b"dev");
    assert_eq!(&json[..], b"{\"x\":1}");
}

#[test]
fn three_fragments_reassemble_in_order() {
    let mut records = ChunkRecords::new();
    assert!(records.add(b("dev0"), "p", b("{\"a\":"), Some(10), Some(3), Some(5)).is_none());
    assert!(records.add(b("dev1"), "p", b("[1,"), Some(10), Some(3), Some(6)).is_none());
    let (dev, json) = records.add(b("dev2"), "p", b("2]}"), Some(10), Some(3), Some(7)).unwrap();
    assert_eq!(&dev[..], b"dev0");
    assert_eq!(&json[..], b"{\"a\":[1,2]}");
    // The path has no record left: the next fragment starts a new one.
    assert!(records.add(b("dev3"), "p", b("x"), Some(1), Some(2), Some(8)).is_none());
}

#[test]
fn fragments_of_other_paths_do_not_interfere() {
    let mut records = ChunkRecords::new();
    assert!(records.add(b("d"), "p", b("A"), Some(2), Some(2), Some(1)).is_none());
    assert!(records.add(b("e"), "q", b("X"), Some(2), Some(2), Some(1)).is_none());
    let (dev_q, json_q) = records.add(b("f"), "q", b("Y"), Some(2), Some(2), Some(2)).unwrap();
    assert_eq!(&dev_q[..], b"e");
    assert_eq!(&json_q[..], b"XY");
    let (dev_p, json_p) = records.add(b("g"), "p", b("B"), Some(2), Some(2), Some(2)).unwrap();
    assert_eq!(&dev_p[..], b"d");
    assert_eq!(&json_p[..], b"AB");
}

#[test]
fn out_of_sequence_fragment_starts_new_record() {
    let mut records = ChunkRecords::new();
    assert!(records.add(b("d1"), "p", b("A"), Some(2), Some(2), Some(1)).is_none());
    // node id 5 does not follow 1: a second record
    assert!(records.add(b("d5"), "p", b("Z"), Some(2), Some(2), Some(5)).is_none());
    let (dev, json) = records.add(b("d6"), "p", b("W"), Some(2), Some(2), Some(6)).unwrap();
    assert_eq!(&dev[..], b"d5");
    assert_eq!(&json[..], b"ZW");
    let (dev, json) = records.add(b("d2"), "p", b("B"), Some(2), Some(2), Some(2)).unwrap();
    assert_eq!(&dev[..], b"d1");
    assert_eq!(&json[..], b"AB");
}

#[test]
fn single_fragment_record_is_never_emitted() {
    // A record is only checked for completion when a fragment joins it.
    let mut records = ChunkRecords::new();
    assert!(records.add(b("d"), "p", b("A"), Some(1), Some(1), Some(1)).is_none());
    assert!(records.add(b("d"), "p", b("B"), Some(1), Some(1), Some(2)).is_none());
}

#[test]
fn missing_fields_count_as_zero() {
    let mut records = ChunkRecords::new();
    assert!(records.add(b("d"), "p", b("A"), Some(4), None, None).is_none());
    // total_fragments 0 never matches a count of fragments >= 1
    assert!(records.add(b("d"), "p", b("B"), Some(4), None, Some(1)).is_none());
}

#[test]
fn node_id_wraps_around() {
    let mut records = ChunkRecords::new();
    assert!(records.add(b("d"), "p", b("A"), Some(2), Some(2), Some(u64::MAX)).is_none());
    let (_, json) = records.add(b("d"), "p", b("B"), Some(2), Some(2), Some(0)).unwrap();
    assert_eq!(&json[..], b"AB");
}

#[test]
fn record_matches_completes_and_merges() {
    let mut r = ChunkRecord::new(b("dev"), "p".to_string(), 6, 3, 41, b("ab"));
    assert!(r.matches(42));
    assert!(!r.matches(41));
    assert!(!r.is_complete());
    r.add(42, b("cd"));
    r.add(43, b("ef"));
    assert!(r.is_complete());
    assert_eq!(r.last_node_id, 43);
    assert_eq!(&r.merge_json()[..], b"abcdef");
}

#[test]
fn default_store_is_empty() {
    let mut records = ChunkRecords::default();
    assert!(records.add(b("d"), "p", b("A"), Some(1), Some(2), Some(1)).is_none());
}
