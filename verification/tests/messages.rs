use io_gmail::v1::rest::messages::{GmailMessageFormat, GmailMessageHeader, GmailMessagePayload};

#[test]
fn format_as_str() {
    assert_eq!(GmailMessageFormat::Minimal.as_str(), "MINIMAL");
    assert_eq!(GmailMessageFormat::Metadata.as_str(), "METADATA");
}

#[test]
fn header_lookup_ignores_case() {
    let payload = GmailMessagePayload {
        headers: vec![
            GmailMessageHeader { name: "Subject".into(), value: "hello".into() },
            GmailMessageHeader { name: "SUBJECT".into(), value: "second".into() },
        ],
        ..Default::default()
    };
    assert_eq!(payload.header("subject"), Some("hello"));
    assert_eq!(payload.header("from"), None);
}

use io_gmail::v1::rest::messages::{decode_raw, encode_raw};

#[test]
fn format_names() {
    assert_eq!(GmailMessageFormat::Full.as_str(), "FULL");
    assert_eq!(GmailMessageFormat::Raw.as_str(), "RAW");
}

#[test]
fn header_first_match_wins() {
    let payload = GmailMessagePayload {
        headers: vec![
            GmailMessageHeader { name: "X-Foo".into(), value: "first".into() },
            GmailMessageHeader { name: "x-foo".into(), value: "second".into() },
        ],
        ..Default::default()
    };
    assert_eq!(payload.header("X-FOO"), Some("first"));
    assert_eq!(GmailMessagePayload::default().header("x-foo"), None);
}

#[test]
fn raw_round_trip() {
    for bytes in [&b""[..], b"f", b"fo", b"foo", b"\xfb\xff\xfe", b"Subject: hi\r\n\r\nbody"] {
        let encoded = encode_raw(bytes);
        assert!(!encoded.contains('='));
        assert_eq!(decode_raw(&encoded).unwrap(), bytes);
    }
    assert_eq!(encode_raw(b"\xfb\xff"), "-_8");
}

#[test]
fn raw_decoding_tolerates_whitespace_and_padding() {
    assert_eq!(decode_raw("aGVs\r\nbG8=").unwrap(), b"hello");
    assert_eq!(decode_raw(" aGVsbG8 == ").unwrap(), b"hello");
    assert_eq!(decode_raw("").unwrap(), b"");
}

#[test]
fn raw_decoding_rejects_invalid_text() {
    assert!(decode_raw("a+b/").is_err());
    assert!(decode_raw("a").is_err());
    assert!(decode_raw("aG=Vs").is_err());
}
