use grpc_dialout::error::{AppError, UdpParseError};
use grpc_dialout::udp_header::{
    extract_payload, header_bytes, parse_option_field, parse_udp_header, parse_udp_header_mobile,
};

#[test]
fn test_parse_standard_header_minimal() {
    // Construct a 12-byte header: Version=1, ET=0, HeaderLen=12
    let data = [
        0x10, 0x0C, // Version=1(4bits), ET=0(4bits), HeaderLen=12
        0x00, 0x64, // MessageLength=100
        0x00, 0x00, 0x00, 0x01, // DomainID=1
        0x00, 0x00, 0x00, 0x02, // MessageID=2
    ];
    let header = parse_udp_header(&data).unwrap();
    assert_eq!(header.version, 1);
    assert_eq!(header.et, 0);
    assert_eq!(header.header_length, 12);
    assert_eq!(header.message_length, 100);
    assert_eq!(header.message_generator_id, 1);
    assert_eq!(header.message_id, 2);
    assert!(header.option.is_none());
}

#[test]
fn test_parse_mobile_header_minimal() {
    let data = [
        0x10, 0x0C, // Version=1(3bits), S=0, ET=0(4bits), HeaderLen=12
        0x00, 0x64, // MessageLength=100
        0x00, 0x00, 0x00, 0x01, // DomainID=1
        0x00, 0x00, 0x00, 0x02, // MessageID=2
    ];
    let header = parse_udp_header_mobile(&data).unwrap();
    assert_eq!(header.version, 1);
    assert_eq!(header.standard, 0);
    assert_eq!(header.header_length, 12);
    assert_eq!(header.message_length, 100);
    assert!(header.option.is_none());
}

#[test]
fn test_parse_header_too_short() {
    let data = [0u8; 8];
    assert!(parse_udp_header(&data).is_err());
    assert!(parse_udp_header_mobile(&data).is_err());
}

#[test]
fn test_parse_option_field() {
    let data = [
        0x01, // Type=1
        0x04, // Length=4
        0x00, 0x03, // SegmentNumber=1, Last=1
    ];
    // pad to 4 bytes
    let padded = [data[0], data[1], data[2], data[3]];
    let option = parse_option_field(&padded).unwrap();
    assert_eq!(option.option_type, 1);
    assert_eq!(option.length, 4);
    assert_eq!(option.segment_number, 1);
    assert!(option.last);
}

#[test]
fn test_extract_payload() {
    let data = [0u8; 20];
    let payload = extract_payload(&data, 12);
    assert_eq!(payload.len(), 8);
}

fn header16(first: u8, header_length: u8, option: [u8; 4], len: usize) -> Vec<u8> {
    let mut v = vec![first, header_length, 0x01, 0x02, 0xDE, 0xAD, 0xBE, 0xEF, 0x01, 0x02, 0x03, 0x04];
    v.extend_from_slice(&option);
    while v.len() < len {
        v.push(0xAA);
    }
    v.truncate(len);
    v
}

#[test]
fn standard_header_reads_every_field_in_network_order() {
    let data = header16(0x5A, 16, [0x07, 0x04, 0x00, 0x0B], 20);
    let h = parse_udp_header(&data).unwrap();
    assert_eq!(h.version, 5);
    assert_eq!(h.et, 0xA);
    assert_eq!(h.header_length, 16);
    assert_eq!(h.message_length, 0x0102);
    assert_eq!(h.message_generator_id, 0xDEADBEEF);
    assert_eq!(h.message_id, 0x01020304);
    let opt = h.option.unwrap();
    assert_eq!(opt.option_type, 7);
    assert_eq!(opt.length, 4);
    assert_eq!(opt.segment_number, 5);
    assert!(opt.last);
}

#[test]
fn mobile_header_reads_s_bit_and_three_bit_version() {
    let data = header16(0xB3, 12, [0, 0, 0, 0], 12);
    let h = parse_udp_header_mobile(&data).unwrap();
    assert_eq!(h.standard, 1);
    assert_eq!(h.version, 3);
    assert_eq!(h.et, 3);
    assert_eq!(h.header_length, 12);
    assert_eq!(h.message_domain_id, 0xDEADBEEF);
    assert_eq!(h.message_id, 0x01020304);
}

#[test]
fn each_parse_error_is_reported() {
    assert_eq!(
        parse_udp_header(&[0u8; 11]),
        Err(AppError::UdpParse(UdpParseError::DataTooShort { len: 11, min: 12 }))
    );
    let small = header16(0x10, 11, [0; 4], 16);
    assert_eq!(
        parse_udp_header(&small),
        Err(AppError::UdpParse(UdpParseError::HeaderLengthTooSmall { header_length: 11, min: 12 }))
    );
    let long = header16(0x10, 40, [0; 4], 20);
    assert_eq!(
        parse_udp_header(&long),
        Err(AppError::UdpParse(UdpParseError::DataShorterThanHeader { len: 20, header_length: 40 }))
    );
    let no_room = header16(0x10, 13, [0; 4], 13);
    assert_eq!(
        parse_udp_header_mobile(&no_room),
        Err(AppError::UdpParse(UdpParseError::DataShorterThanOption { len: 13, need: 16 }))
    );
}

#[test]
fn option_segment_number_without_last_flag() {
    let option = parse_option_field(&[0x02, 0x04, 0xFF, 0xFE]).unwrap();
    assert_eq!(option.segment_number, 0x7FFF);
    assert!(!option.last);
}

#[test]
fn header_bytes_and_payload_split_the_datagram() {
    let data: Vec<u8> = (0u8..20).collect();
    let head = header_bytes(&data, 12);
    let payload = extract_payload(&data, 12);
    assert_eq!(head, &data[..12]);
    assert_eq!(payload, &data[12..]);
    let mut joined = head.to_vec();
    joined.extend_from_slice(payload);
    assert_eq!(joined, data);
    assert!(extract_payload(&data, 20).is_empty());
    assert_eq!(header_bytes(&data, 64), &data[..]);
}
