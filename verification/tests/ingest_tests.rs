use chrona::ingest::{parse_label, parse_milli, parse_motion_csv, parse_motion_line, split_on};

#[test]
fn line_with_thirteen_fields_is_dropped() {
    let line = b"0.1,0.2,0.3,0.4,0.5,0.6,0.7,0.8,0.9,1.0,1.1,1.2,3";
    assert!(parse_motion_line(line).is_none());
}

#[test]
fn line_with_fifteen_fields_is_dropped() {
    let line = b"0.1,0.2,0.3,0.4,0.5,0.6,0.7,0.8,0.9,1.0,1.1,1.2,3,subject1,extra";
    assert!(parse_motion_line(line).is_none());
}

#[test]
fn valid_line_converts_label_to_one_based() {
    let line = b"0.1,0.2,0.3,0.4,0.5,0.6,0.7,0.8,0.9,1.0,1.1,1.2,3,subject1";
    let rec = parse_motion_line(line).unwrap();
    assert_eq!(rec.activity, 4);
    assert_eq!(rec.subject, b"subject1".to_vec());
    assert_eq!(
        rec.channels,
        vec![100, 200, 300, 400, 500, 600, 700, 800, 900, 1000, 1100, 1200]
    );
}

#[test]
fn non_numeric_channel_is_dropped() {
    let line = b"abc,0.2,0.3,0.4,0.5,0.6,0.7,0.8,0.9,1.0,1.1,1.2,3,subject1";
    assert!(parse_motion_line(line).is_none());
}

#[test]
fn non_numeric_label_is_dropped() {
    let line = b"0.1,0.2,0.3,0.4,0.5,0.6,0.7,0.8,0.9,1.0,1.1,1.2,L3,subject1";
    assert!(parse_motion_line(line).is_none());
}

#[test]
fn negative_label_is_dropped() {
    let line = b"0.1,0.2,0.3,0.4,0.5,0.6,0.7,0.8,0.9,1.0,1.1,1.2,-1,subject1";
    assert!(parse_motion_line(line).is_none());
}

#[test]
fn oversized_label_is_dropped() {
    let line = b"0.1,0.2,0.3,0.4,0.5,0.6,0.7,0.8,0.9,1.0,1.1,1.2,300,subject1";
    assert!(parse_motion_line(line).is_none());
    assert!(parse_label(b"300").is_none());
    assert_eq!(parse_label(b"254"), Some(254));
}

#[test]
fn milli_values_parse_exactly() {
    assert_eq!(parse_milli(b"1.5"), Some(1500));
    assert_eq!(parse_milli(b"-0.25"), Some(-250));
    assert_eq!(parse_milli(b".5"), Some(500));
    assert_eq!(parse_milli(b"2."), Some(2000));
    assert_eq!(parse_milli(b"42"), Some(42_000));
    assert_eq!(parse_milli(b"-3"), Some(-3000));
    assert_eq!(parse_milli(b"0"), Some(0));
}

#[test]
fn milli_fraction_truncates_after_three_digits() {
    assert_eq!(parse_milli(b"0.1239"), Some(123));
    assert_eq!(parse_milli(b"0.9999"), Some(999));
}

#[test]
fn milli_rejects_malformed_numbers() {
    assert!(parse_milli(b"").is_none());
    assert!(parse_milli(b"-").is_none());
    assert!(parse_milli(b".").is_none());
    assert!(parse_milli(b"1..2").is_none());
    assert!(parse_milli(b"1e5").is_none());
    assert!(parse_milli(b"+1").is_none());
    assert!(parse_milli(b"1 ").is_none());
    assert!(parse_milli(b"1234567890123456").is_none());
}

#[test]
fn split_on_keeps_empty_fields() {
    let fields = split_on(b"a,,b,", b',');
    let views: Vec<&[u8]> = fields.iter().map(|f| f.as_slice()).collect();
    assert_eq!(views, vec![b"a" as &[u8], b"", b"b", b""]);
}

#[test]
fn csv_drops_malformed_lines_and_keeps_order() {
    let data = b"0.1,0.2,0.3,0.4,0.5,0.6,0.7,0.8,0.9,1.0,1.1,1.2,0,subject1\n\
bad line\n\
1,2,3,4,5,6,7,8,9,10,11,12,11,subject2\n";
    let records = parse_motion_csv(data);
    assert_eq!(records.len(), 2);
    assert_eq!(records[0].activity, 1);
    assert_eq!(records[1].activity, 12);
    assert_eq!(records[1].subject, b"subject2".to_vec());
    assert_eq!(records[1].channels[0], 1000);
}

#[test]
fn csv_accepts_crlf_line_endings() {
    let data = b"0.1,0.2,0.3,0.4,0.5,0.6,0.7,0.8,0.9,1.0,1.1,1.2,2,subject3\r\n";
    let records = parse_motion_csv(data);
    assert_eq!(records.len(), 1);
    assert_eq!(records[0].activity, 3);
}
