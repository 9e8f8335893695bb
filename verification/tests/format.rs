use feedcast::clock::{format_timestamp, utc_from_unix, TS_MAX};
use feedcast::errors::FeedError;
use feedcast::payload::{check_price_text, encode_payload, Payload};
use feedcast::text::{fmt_i32, fmt_i64, fmt_two, fmt_u64};

fn bytes(s: &str) -> Vec<u8> {
    s.as_bytes().to_vec()
}

#[test]
fn decimal_rendering() {
    assert_eq!(fmt_u64(0), bytes("0"));
    assert_eq!(fmt_u64(820000), bytes("820000"));
    assert_eq!(fmt_u64(u64::MAX), bytes("18446744073709551615"));
    assert_eq!(fmt_i64(-42), bytes("-42"));
    assert_eq!(fmt_i64(i64::MIN), bytes("-9223372036854775808"));
    assert_eq!(fmt_i32(-1), bytes("-1"));
    assert_eq!(fmt_two(7), bytes("07"));
    assert_eq!(fmt_two(59), bytes("59"));
}

#[test]
fn timestamp_epoch() {
    assert_eq!(format_timestamp(0).unwrap(), bytes("1970-01-01T00:00:00+00:00"));
}

#[test]
fn timestamp_example_instant() {
    assert_eq!(
        format_timestamp(1700000000).unwrap(),
        bytes("2023-11-14T22:13:20+00:00")
    );
}

#[test]
fn timestamp_leap_day() {
    assert_eq!(
        format_timestamp(1709164800).unwrap(),
        bytes("2024-02-29T00:00:00+00:00")
    );
}

#[test]
fn timestamp_last_representable() {
    assert_eq!(
        format_timestamp(TS_MAX).unwrap(),
        bytes("9999-12-31T23:59:59+00:00")
    );
}

#[test]
fn timestamp_rejects_out_of_range() {
    assert_eq!(format_timestamp(-1), Err(FeedError::InvalidTimestamp));
    assert_eq!(format_timestamp(TS_MAX + 1), Err(FeedError::InvalidTimestamp));
    assert!(utc_from_unix(-1).is_err());
}

#[test]
fn civil_fields() {
    let dt = utc_from_unix(1700000000).unwrap();
    assert_eq!(
        (dt.year, dt.month, dt.day, dt.hour, dt.minute, dt.second),
        (2023, 11, 14, 22, 13, 20)
    );
}

#[test]
fn payload_frame_for_height() {
    let p = Payload::for_height(820000, 1700000000);
    assert_eq!(
        encode_payload(&p),
        bytes("{\"height\":820000,\"price\":0.0,\"timestamp\":1700000000}")
    );
}

#[test]
fn payload_frame_for_price() {
    let p = Payload::for_price(bytes("65000.5"), 1700000100);
    assert_eq!(
        encode_payload(&p),
        bytes("{\"height\":0,\"price\":65000.5,\"timestamp\":1700000100}")
    );
}

#[test]
fn payload_frame_negative_fields() {
    let p = Payload::for_height(-3, -10);
    assert_eq!(
        encode_payload(&p),
        bytes("{\"height\":-3,\"price\":0.0,\"timestamp\":-10}")
    );
}

#[test]
fn price_text_rules() {
    assert!(check_price_text(&bytes("65000.5")));
    assert!(check_price_text(&bytes("1.2e-3")));
    assert!(!check_price_text(&bytes("")));
    assert!(!check_price_text(&bytes("65,000")));
    assert!(!check_price_text(&bytes("1.0\"}")));
}
