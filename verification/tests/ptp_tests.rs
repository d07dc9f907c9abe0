use fjx::ptp::{
    build_object_info, check_open_session, check_response, classify_data_in, command_block,
    data_block, encode_ptp_string, encode_utf16, format_name, object_op_label, operation_name,
    parse_device_info, parse_header, parse_response_payload, parse_u32_array, prop_op_label,
    property_name, response_name, response_of, start_container, transfer_timeout_secs,
    DataInFirst, PtpReader, TransactionIds,
};

fn ptp_str(buf: &mut Vec<u8>, s: &str) {
    encode_ptp_string(buf, s);
}

fn u16_array(buf: &mut Vec<u8>, items: &[u16]) {
    buf.extend_from_slice(&(items.len() as u32).to_le_bytes());
    for i in items {
        buf.extend_from_slice(&i.to_le_bytes());
    }
}

fn sample_device_info() -> Vec<u8> {
    let mut b = Vec::new();
    b.extend_from_slice(&100u16.to_le_bytes());
    b.extend_from_slice(&6u32.to_le_bytes());
    b.extend_from_slice(&100u16.to_le_bytes());
    ptp_str(&mut b, "fujifilm.co.jp: 1.0;");
    b.extend_from_slice(&0u16.to_le_bytes());
    u16_array(&mut b, &[0x1001, 0x1002, 0x900C]);
    u16_array(&mut b, &[0x4002]);
    u16_array(&mut b, &[0x5001, 0xD185]);
    u16_array(&mut b, &[]);
    u16_array(&mut b, &[0x3801, 0xB103]);
    ptp_str(&mut b, "FUJIFILM");
    ptp_str(&mut b, "X100VI");
    ptp_str(&mut b, "1.10");
    ptp_str(&mut b, "");
    b
}

#[test]
fn command_block_layout() {
    let b = command_block(0x1002, 7, &[1, 0xAABBCCDD]);
    assert_eq!(
        b,
        vec![20, 0, 0, 0, 1, 0, 0x02, 0x10, 7, 0, 0, 0, 1, 0, 0, 0, 0xDD, 0xCC, 0xBB, 0xAA]
    );
}

#[test]
fn data_block_layout() {
    let b = data_block(0x1016, 3, &[9, 8, 7]);
    assert_eq!(b, vec![15, 0, 0, 0, 2, 0, 0x16, 0x10, 3, 0, 0, 0, 9, 8, 7]);
}

#[test]
fn header_round_trip_and_short_read() {
    let b = command_block(0x1001, 0x01020304, &[]);
    let h = parse_header(&b, b.len()).unwrap();
    assert_eq!(h.length, 12);
    assert_eq!(h.ctype, 1);
    assert_eq!(h.code, 0x1001);
    assert_eq!(h.tid, 0x01020304);
    let e = parse_header(&b, 5).err().unwrap();
    assert_eq!(e, "Short PTP read: got 5 bytes, need at least 12");
}

#[test]
fn response_payload_drops_partial_group() {
    assert_eq!(parse_response_payload(&[1, 0, 0, 0, 2, 0, 0, 0, 9]), vec![1, 2]);
    assert_eq!(parse_response_payload(&[]), Vec::<u32>::new());
}

#[test]
fn container_read_gathers_and_truncates() {
    let mut first = vec![20, 0, 0, 0, 2, 0, 0x09, 0x10, 5, 0, 0, 0];
    first.extend_from_slice(&[1, 2, 3]);
    let mut c = start_container(&first, first.len()).unwrap();
    assert_eq!(c.ctype, 2);
    assert_eq!(c.code, 0x1009);
    assert_eq!(c.tid, 5);
    assert_eq!(c.payload_len, 8);
    assert_eq!(c.payload, vec![1, 2, 3]);
    assert!(c.needs_more());
    c.add_chunk(&[4, 5, 6, 7, 8, 9, 10]);
    assert!(!c.needs_more());
    assert_eq!(c.into_payload(), vec![1, 2, 3, 4, 5, 6, 7, 8]);
}

#[test]
fn container_first_read_longer_than_announced() {
    let buf = vec![14, 0, 0, 0, 3, 0, 0x01, 0x20, 1, 0, 0, 0, 7, 7, 7, 7];
    let c = start_container(&buf, buf.len()).unwrap();
    assert_eq!(c.payload, vec![7, 7]);
    assert!(!c.needs_more());
}

#[test]
fn response_container_checks() {
    let r = response_of(3, 0x2001, &[4, 0, 0, 0]).unwrap();
    assert_eq!(r.code, 0x2001);
    assert_eq!(r.params, vec![4]);
    let e = response_of(2, 0x2001, &[]).err().unwrap();
    assert_eq!(e, "Expected response container (type 3), got type 2");
}

#[test]
fn data_in_classification() {
    match classify_data_in(2, 0x1001, vec![1, 2]).unwrap() {
        DataInFirst::Data(d) => assert_eq!(d, vec![1, 2]),
        DataInFirst::Response(_) => panic!("expected data"),
    }
    match classify_data_in(3, 0x2005, vec![]).unwrap() {
        DataInFirst::Response(r) => {
            assert_eq!(r.code, 0x2005);
            assert!(r.params.is_empty());
        }
        DataInFirst::Data(_) => panic!("expected response"),
    }
    let e = classify_data_in(4, 0, vec![]).err().unwrap();
    assert_eq!(e, "Expected data container (type 2), got type 4");
}

#[test]
fn response_checks_and_messages() {
    assert!(check_response("GetDeviceInfo", 0x2001).is_ok());
    assert_eq!(
        check_response("GetDeviceInfo", 0x2019).err().unwrap(),
        "GetDeviceInfo failed: 0x2019 (Device Busy)"
    );
    assert!(check_open_session(0x201E).is_ok());
    assert!(check_open_session(0x2001).is_ok());
    assert_eq!(
        check_open_session(0x2003).err().unwrap(),
        "OpenSession failed: 0x2003 (Session Not Open)"
    );
    assert_eq!(
        check_response(&prop_op_label("GetDevicePropValue", 0xd185), 0x200a).err().unwrap(),
        "GetDevicePropValue 0xD185 failed: 0x200A (DeviceProp Not Supported)"
    );
    assert_eq!(object_op_label("GetObject", 0xab), "GetObject 0x000000AB");
}

#[test]
fn timeouts_and_transaction_ids() {
    assert_eq!(transfer_timeout_secs(1_000_000, 5), 5);
    assert_eq!(transfer_timeout_secs(1_000_001, 5), 120);
    let mut t = TransactionIds::new();
    assert_eq!(t.next_tid(), 1);
    assert_eq!(t.next_tid(), 2);
}

#[test]
fn ptp_string_encoding() {
    let mut b = Vec::new();
    encode_ptp_string(&mut b, "");
    assert_eq!(b, vec![0]);
    let mut b = Vec::new();
    encode_ptp_string(&mut b, "Ab");
    assert_eq!(b, vec![3, b'A', 0, b'b', 0, 0, 0]);
    assert_eq!(encode_utf16("a\u{1F600}"), vec![0x61, 0xD83D, 0xDE00]);
}

#[test]
fn reader_reads_and_reports_end() {
    let data = [1u8, 2, 0, 3, 0, 0, 0];
    let mut r = PtpReader::new(&data);
    assert_eq!(r.read_u8().unwrap(), 1);
    assert_eq!(r.read_u16().unwrap(), 2);
    assert_eq!(r.read_u32().unwrap(), 3);
    assert_eq!(r.read_u8().err().unwrap(), "Unexpected end of PTP data (u8)");
    assert_eq!(r.read_u16().err().unwrap(), "Unexpected end of PTP data (u16)");
    assert_eq!(r.read_u32().err().unwrap(), "Unexpected end of PTP data (u32)");
}

#[test]
fn reader_string_round_trip_and_overrun() {
    let mut b = Vec::new();
    encode_ptp_string(&mut b, "X100VI");
    let mut r = PtpReader::new(&b);
    assert_eq!(r.read_ptp_string().unwrap(), "X100VI");
    let bad = [5u8, b'a', 0];
    let mut r = PtpReader::new(&bad);
    assert_eq!(r.read_ptp_string().err().unwrap(), "PTP string extends beyond data");
}

#[test]
fn reader_u16_array() {
    let mut b = Vec::new();
    u16_array(&mut b, &[7, 8]);
    let mut r = PtpReader::new(&b);
    assert_eq!(r.read_u16_array().unwrap(), vec![7, 8]);
    let short = [2u8, 0, 0, 0, 1, 0];
    let mut r = PtpReader::new(&short);
    assert_eq!(r.read_u16_array().err().unwrap(), "Unexpected end of PTP data (u16)");
}

#[test]
fn device_info_parses_all_fields() {
    let info = parse_device_info(&sample_device_info()).unwrap();
    assert_eq!(info.standard_version, 100);
    assert_eq!(info.vendor_extension_id, 6);
    assert_eq!(info.vendor_extension_version, 100);
    assert_eq!(info.vendor_extension_desc, "fujifilm.co.jp: 1.0;");
    assert_eq!(info.functional_mode, 0);
    assert_eq!(info.operations_supported, vec![0x1001, 0x1002, 0x900C]);
    assert_eq!(info.events_supported, vec![0x4002]);
    assert_eq!(info.device_properties_supported, vec![0x5001, 0xD185]);
    assert!(info.capture_formats.is_empty());
    assert_eq!(info.image_formats, vec![0x3801, 0xB103]);
    assert_eq!(info.manufacturer, "FUJIFILM");
    assert_eq!(info.model, "X100VI");
    assert_eq!(info.device_version, "1.10");
    assert_eq!(info.serial_number, "");
}

#[test]
fn device_info_truncated_is_error() {
    let data = sample_device_info();
    assert!(parse_device_info(&data[..data.len() - 3]).is_err());
    assert_eq!(
        parse_device_info(&[1]).err().unwrap(),
        "Unexpected end of PTP data (u16)"
    );
}

#[test]
fn u32_array_parsing() {
    assert_eq!(parse_u32_array(&[1, 0]), Vec::<u32>::new());
    assert_eq!(parse_u32_array(&[2, 0, 0, 0, 5, 0, 0, 0, 6, 0, 0, 0]), vec![5, 6]);
    assert_eq!(parse_u32_array(&[3, 0, 0, 0, 5, 0, 0, 0, 6, 0]), vec![5]);
}

#[test]
fn object_info_layout() {
    let b = build_object_info(0xF802, 0x11223344, "a.RAF");
    assert_eq!(b.len(), 52 + 1 + 12 + 3);
    assert_eq!(&b[0..4], &[0, 0, 0, 0]);
    assert_eq!(&b[4..6], &[0x02, 0xF8]);
    assert_eq!(&b[8..12], &[0x44, 0x33, 0x22, 0x11]);
    assert_eq!(b[52], 6);
    assert_eq!(&b[53..55], &[b'a', 0]);
    assert_eq!(&b[b.len() - 3..], &[0, 0, 0]);
}

#[test]
fn code_names() {
    assert_eq!(operation_name(0x1001), "GetDeviceInfo");
    assert_eq!(operation_name(0x900D), "Fuji SendObject");
    assert_eq!(operation_name(0x9123), "Vendor Operation");
    assert_eq!(operation_name(0x0001), "(unknown)");
    assert_eq!(response_name(0x2001), "OK");
    assert_eq!(response_name(0xA001), "Vendor Response");
    assert_eq!(response_name(0x2016), "(unknown response)");
    assert_eq!(property_name(0xD185), "Fuji RawConvProfile");
    assert_eq!(property_name(0xD999), "Fuji Vendor Property");
    assert_eq!(property_name(0x5002), "(unknown property)");
    assert_eq!(format_name(0xB103), "Fuji RAF");
    assert_eq!(format_name(0xB555), "Vendor Format");
    assert_eq!(format_name(0x3003), "(unknown format)");
}

#[test]
fn ptp_string_round_trip_beyond_the_basic_plane() {
    let mut b = Vec::new();
    encode_ptp_string(&mut b, "a\u{1F600}é");
    let mut r = PtpReader::new(&b);
    assert_eq!(r.read_ptp_string().unwrap(), "a\u{1F600}é");
    let lone = [3u8, 0x00, 0xD8, 0x41, 0x00, 0, 0];
    let mut r = PtpReader::new(&lone);
    assert_eq!(r.read_ptp_string().unwrap(), "\u{FFFD}A");
}
