use k_iter::config::DataFormat;
use k_iter::printer::records2string_only_data_raw_byte;
use k_iter::printer::records2string_only_data_raw_string;
use k_iter::printer::records2string_only_data_utf8_string;
use k_iter::printer::records2string_verbose_raw_byte;
use k_iter::printer::records2string_verbose_raw_string;
use k_iter::printer::records2string_verbose_utf8_string;
use k_iter::printer::RecordsPrinter;
use k_iter::records::Record;

fn string_record() -> Record {
    Record {
        approximate_arrival_timestamp: None,
        data: Some("test-data".as_bytes().to_vec()),
        encryption_type: None,
        partition_key: Some("KEY".to_string()),
        sequence_number: Some("1".to_string()),
    }
}

fn bin_record() -> Record {
    Record {
        approximate_arrival_timestamp: None,
        data: Some(vec![0u8, 255u8]),
        encryption_type: None,
        partition_key: Some("KEY".to_string()),
        sequence_number: Some("1".to_string()),
    }
}

#[test]
fn test_only_data_utf8_string() {
    let records: Vec<Record> = vec![string_record()];

    assert_eq!(
        "test-data".to_owned(),
        records2string_only_data_utf8_string(records.as_slice())
    )
}

#[test]
fn test_only_data_raw_byte() {
    let records: Vec<Record> = vec![bin_record()];

    assert_eq!(
        "[0, 255]".to_owned(),
        records2string_only_data_raw_byte(records.as_slice())
    )
}

#[test]
fn test_only_data_raw_string() {
    let records: Vec<Record> = vec![bin_record()];

    assert_eq!(
        "00ff".to_owned(),
        records2string_only_data_raw_string(records.as_slice())
    )
}

#[test]
fn test_verbose_utf8_string() {
    let records: Vec<Record> = vec![string_record()];

    assert_eq!(
        r#"{"Data":"test-data","PartitionKey":"KEY","SequenceNumber":"1"}"#.to_owned(),
        records2string_verbose_utf8_string(records.as_slice())
    )
}

#[test]
fn test_verbose_raw_byte() {
    let records: Vec<Record> = vec![bin_record()];

    assert_eq!(
        r#"{"Data":[0,255],"PartitionKey":"KEY","SequenceNumber":"1"}"#.to_owned(),
        records2string_verbose_raw_byte(records.as_slice())
    )
}

#[test]
fn test_verbose_raw_string() {
    let records: Vec<Record> = vec![bin_record()];

    assert_eq!(
        r#"{"Data":"00ff","PartitionKey":"KEY","SequenceNumber":"1"}"#.to_owned(),
        records2string_verbose_raw_string(records.as_slice())
    )
}

#[test]
fn printer_dispatches_once_per_choice() {
    let records: Vec<Record> = vec![bin_record(), string_record()];
    let p = RecordsPrinter::new(false, DataFormat::RawString);
    assert_eq!("00ff\n746573742d64617461", p.print(records.as_slice()));
    let v = RecordsPrinter::new(true, DataFormat::RawBytes);
    assert_eq!(
        v.print(records.as_slice()),
        records2string_verbose_raw_byte(records.as_slice())
    );
}

#[test]
fn lines_join_with_newline_and_skipped_records_leave_no_trace() {
    let no_data = Record {
        approximate_arrival_timestamp: None,
        data: None,
        encryption_type: None,
        partition_key: Some("KEY".to_string()),
        sequence_number: Some("2".to_string()),
    };
    let records: Vec<Record> = vec![bin_record(), no_data, bin_record()];
    assert_eq!(
        "[0, 255]\n[0, 255]",
        records2string_only_data_raw_byte(records.as_slice())
    );
    let empty: Vec<Record> = vec![];
    assert_eq!("", records2string_only_data_raw_byte(empty.as_slice()));
    assert_eq!("", records2string_verbose_utf8_string(empty.as_slice()));
}

#[test]
fn invalid_utf8_payload_is_dropped_not_substituted() {
    let bad = Record {
        approximate_arrival_timestamp: None,
        data: Some(vec![0xffu8, 0xfeu8]),
        encryption_type: None,
        partition_key: Some("KEY".to_string()),
        sequence_number: Some("1".to_string()),
    };
    let records: Vec<Record> = vec![bad, string_record()];
    assert_eq!(
        "test-data",
        records2string_only_data_utf8_string(records.as_slice())
    );
    assert_eq!(
        r#"{"Data":"test-data","PartitionKey":"KEY","SequenceNumber":"1"}"#,
        records2string_verbose_utf8_string(records.as_slice())
    );
}

#[test]
fn multibyte_utf8_payload_is_decoded_exactly() {
    let rec = Record {
        approximate_arrival_timestamp: None,
        data: Some("héllo — ✓".as_bytes().to_vec()),
        encryption_type: None,
        partition_key: Some("KEY".to_string()),
        sequence_number: Some("1".to_string()),
    };
    let records: Vec<Record> = vec![rec];
    assert_eq!(
        "héllo — ✓",
        records2string_only_data_utf8_string(records.as_slice())
    );
}

#[test]
fn json_strings_are_escaped_as_json_asks() {
    let rec = Record {
        approximate_arrival_timestamp: None,
        data: Some("a\"b\\c\nd\te\u{1}f".as_bytes().to_vec()),
        encryption_type: None,
        partition_key: Some("K\"\\\u{8}\u{c}\r\u{1f}".to_string()),
        sequence_number: Some("1".to_string()),
    };
    let records: Vec<Record> = vec![rec];
    assert_eq!(
        "{\"Data\":\"a\\\"b\\\\c\\nd\\te\\u0001f\",\"PartitionKey\":\"K\\\"\\\\\\b\\f\\r\\u001f\",\"SequenceNumber\":\"1\"}",
        records2string_verbose_utf8_string(records.as_slice())
    );
}

#[test]
fn verbose_renders_optional_fields_only_when_present() {
    let full = Record {
        approximate_arrival_timestamp: Some(1234567890123),
        data: Some(vec![0u8, 255u8]),
        encryption_type: Some("KMS".to_string()),
        partition_key: Some("KEY".to_string()),
        sequence_number: Some("1".to_string()),
    };
    let records: Vec<Record> = vec![full];
    assert_eq!(
        r#"{"ApproximateArrivalTimestamp":1234567890.123,"Data":[0,255],"EncryptionType":"KMS","PartitionKey":"KEY","SequenceNumber":"1"}"#,
        records2string_verbose_raw_byte(records.as_slice())
    );
}

#[test]
fn verbose_renders_null_for_missing_payload_and_keys() {
    let bare = Record {
        approximate_arrival_timestamp: None,
        data: None,
        encryption_type: None,
        partition_key: None,
        sequence_number: None,
    };
    let records: Vec<Record> = vec![bare];
    assert_eq!(
        r#"{"Data":null,"PartitionKey":null,"SequenceNumber":null}"#,
        records2string_verbose_utf8_string(records.as_slice())
    );
}

#[test]
fn arrival_timestamp_keeps_three_decimal_places() {
    let at = |ms: u64| Record {
        approximate_arrival_timestamp: Some(ms),
        data: None,
        encryption_type: None,
        partition_key: None,
        sequence_number: None,
    };
    let records: Vec<Record> = vec![at(5000)];
    assert_eq!(
        r#"{"ApproximateArrivalTimestamp":5.000,"Data":null,"PartitionKey":null,"SequenceNumber":null}"#,
        records2string_verbose_raw_byte(records.as_slice())
    );
    let records: Vec<Record> = vec![at(61234)];
    assert_eq!(
        r#"{"ApproximateArrivalTimestamp":61.234,"Data":null,"PartitionKey":null,"SequenceNumber":null}"#,
        records2string_verbose_raw_byte(records.as_slice())
    );
}

#[test]
fn byte_renderings_cover_every_width() {
    let rec = Record {
        approximate_arrival_timestamp: None,
        data: Some(vec![0u8, 9, 10, 99, 100, 255]),
        encryption_type: None,
        partition_key: None,
        sequence_number: None,
    };
    let records: Vec<Record> = vec![rec];
    assert_eq!(
        "[0, 9, 10, 99, 100, 255]",
        records2string_only_data_raw_byte(records.as_slice())
    );
    assert_eq!(
        "00090a6364ff",
        records2string_only_data_raw_string(records.as_slice())
    );
    let empty_payload = Record {
        approximate_arrival_timestamp: None,
        data: Some(vec![]),
        encryption_type: None,
        partition_key: None,
        sequence_number: None,
    };
    let records: Vec<Record> = vec![empty_payload];
    assert_eq!("[]", records2string_only_data_raw_byte(records.as_slice()));
    assert_eq!("", records2string_only_data_raw_string(records.as_slice()));
}
