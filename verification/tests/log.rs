use vsm_reader::log::{TagTable, VslReason, VslTransaction, VslType, VSL_cursor};
use vsm_reader::IntegrityError;

fn tag_table() -> TagTable {
    let names = vec![
        "Debug".to_string(),
        "Error".to_string(),
        "CLI".to_string(),
        "SessOpen".to_string(),
        "SessClose".to_string(),
        "BackendOpen".to_string(),
        "BackendClose".to_string(),
        "VCL_call".to_string(),
    ];
    TagTable::new(names)
}

/// One encoded record: an 8-byte header whose fourth byte is the tag id,
/// then the payload bytes, then the terminating zero.
fn record(tag: u8, payload: &str) -> Vec<u8> {
    let mut bytes = vec![0u8, 0, 0, tag, 0, 0, 0, 0];
    bytes.extend_from_slice(payload.as_bytes());
    bytes.push(0);
    bytes
}

#[test]
fn lookup_resolves_tag_seven() {
    let table = tag_table();
    assert_eq!(table.lookup(7).unwrap(), "VCL_call");
}

#[test]
fn lookup_rejects_id_beyond_bound() {
    let table = tag_table();
    assert_eq!(table.lookup(8).unwrap_err(), IntegrityError::TagOutOfRange);
    assert_eq!(table.lookup(255).unwrap_err(), IntegrityError::TagOutOfRange);
}

#[test]
fn cursor_reads_tag_and_payload() {
    let c = VSL_cursor::new(record(7, "RECV"));
    assert_eq!(c.get_ntag(), 7);
    assert_eq!(c.get_stag(&tag_table()).unwrap(), "VCL_call");
    assert_eq!(c.get_string().unwrap(), b"RECV".to_vec());
}

#[test]
fn cursor_advances_through_records() {
    let mut bytes = record(7, "RECV");
    bytes.extend_from_slice(&record(2, "ping"));
    let table = tag_table();
    let mut c = VSL_cursor::new(bytes);

    let first = c.advance(&table).unwrap().unwrap();
    assert_eq!(first.tag, 7);
    assert_eq!(first.name, "VCL_call");
    assert_eq!(first.payload, b"RECV".to_vec());

    let second = c.advance(&table).unwrap().unwrap();
    assert_eq!(second.tag, 2);
    assert_eq!(second.name, "CLI");
    assert_eq!(second.payload, b"ping".to_vec());

    assert!(c.advance(&table).unwrap().is_none());
}

#[test]
fn cursor_rejects_tag_beyond_table() {
    let table = tag_table();
    let mut c = VSL_cursor::new(record(8, "x"));
    assert_eq!(c.advance(&table).unwrap_err(), IntegrityError::TagOutOfRange);
}

#[test]
fn cursor_rejects_truncated_header() {
    let table = tag_table();
    let mut c = VSL_cursor::new(vec![0u8, 0, 0, 1]);
    assert_eq!(c.advance(&table).unwrap_err(), IntegrityError::MalformedString);
}

#[test]
fn cursor_rejects_missing_terminator() {
    let table = tag_table();
    let mut bytes = record(1, "oops");
    bytes.pop();
    let mut c = VSL_cursor::new(bytes);
    assert_eq!(c.advance(&table).unwrap_err(), IntegrityError::MalformedString);
}

#[test]
fn cursor_rejects_header_without_payload_region() {
    let table = tag_table();
    let mut c = VSL_cursor::new(vec![0u8, 0, 0, 1, 0, 0, 0, 0]);
    assert_eq!(c.advance(&table).unwrap_err(), IntegrityError::MalformedString);
}

#[test]
fn cursor_empty_buffer_is_end_of_data() {
    let table = tag_table();
    let mut c = VSL_cursor::new(Vec::new());
    assert!(c.advance(&table).unwrap().is_none());
}

#[test]
fn read_all_decodes_whole_buffer_in_order() {
    let mut bytes = record(7, "RECV");
    bytes.extend_from_slice(&record(2, "ping"));
    bytes.extend_from_slice(&record(0, ""));
    let table = tag_table();
    let mut c = VSL_cursor::new(bytes);
    let records = c.read_all(&table).unwrap();
    assert_eq!(records.len(), 3);
    assert_eq!(records[0].name, "VCL_call");
    assert_eq!(records[1].name, "CLI");
    assert_eq!(records[2].name, "Debug");
    assert_eq!(records[2].payload, Vec::<u8>::new());
}

#[test]
fn read_all_fails_when_any_record_is_malformed() {
    let mut bytes = record(1, "ok");
    bytes.extend_from_slice(&[0, 0, 0, 1, 0]);
    let table = tag_table();
    let mut c = VSL_cursor::new(bytes);
    assert_eq!(c.read_all(&table).unwrap_err(), IntegrityError::MalformedString);
}

#[test]
fn transaction_records_yield_the_whole_batch() {
    let mut bytes = record(3, "first");
    bytes.extend_from_slice(&record(4, "second"));
    let table = tag_table();
    let mut t = VslTransaction::new(0, 9, 0, 1, 1, bytes);
    let records = t.records(&table).unwrap();
    assert_eq!(records.len(), 2);
    assert_eq!(records[0].payload, b"first".to_vec());
    assert_eq!(records[1].payload, b"second".to_vec());
}

#[test]
fn type_codes_map_to_documented_types() {
    assert_eq!(VslType::from_code(0), VslType::Unknown);
    assert_eq!(VslType::from_code(1), VslType::Sess);
    assert_eq!(VslType::from_code(2), VslType::Req);
    assert_eq!(VslType::from_code(3), VslType::BeReq);
    assert_eq!(VslType::from_code(4), VslType::Raw);
    assert_eq!(VslType::from_code(5), VslType::Unknown);
    assert_eq!(VslType::from_code(1000), VslType::Unknown);
}

#[test]
fn reason_codes_map_to_documented_reasons() {
    assert_eq!(VslReason::from_code(0), VslReason::Unknown);
    assert_eq!(VslReason::from_code(1), VslReason::Http1);
    assert_eq!(VslReason::from_code(2), VslReason::RxReq);
    assert_eq!(VslReason::from_code(3), VslReason::Esi);
    assert_eq!(VslReason::from_code(4), VslReason::Restart);
    assert_eq!(VslReason::from_code(5), VslReason::Pass);
    assert_eq!(VslReason::from_code(6), VslReason::Fetch);
    assert_eq!(VslReason::from_code(7), VslReason::BgFetch);
    assert_eq!(VslReason::from_code(8), VslReason::Pipe);
    assert_eq!(VslReason::from_code(9), VslReason::Unknown);
}

#[test]
fn transaction_with_zero_parent_is_root() {
    let t = VslTransaction::new(0, 32771, 0, 1, 1, Vec::new());
    assert!(t.is_root());
    assert_eq!(t.vxid, 32771);
}

#[test]
fn transaction_keeps_unresolved_parent_from_earlier_batch() {
    // The parent vxid came from a transaction of a previous batch; it is
    // accepted and carried as-is, never resolved to that earlier object.
    let t = VslTransaction::new(1, 32772, 32765, 2, 2, Vec::new());
    assert!(!t.is_root());
    assert_eq!(t.vxid_parent, 32765);
}

#[test]
fn transaction_iterates_its_records_once_forward() {
    let mut bytes = record(3, "a b c");
    bytes.extend_from_slice(&record(4, "d"));
    let table = tag_table();
    let mut t = VslTransaction::new(0, 5, 0, 2, 2, bytes);

    let first = t.next(&table).unwrap().unwrap();
    assert_eq!(first.name, "SessOpen");
    assert_eq!(first.payload, b"a b c".to_vec());
    let second = t.next(&table).unwrap().unwrap();
    assert_eq!(second.name, "SessClose");
    assert_eq!(second.payload, b"d".to_vec());
    assert!(t.next(&table).unwrap().is_none());
    assert!(t.next(&table).unwrap().is_none());
}
