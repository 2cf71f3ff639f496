use io_gmail::text::{eq_ignore_ascii_case, str_is_blank, u64_decimal};
use io_gmail::v1::json::{json_object_of, json_string, json_string_array};
use io_gmail::v1::rest::messages::{
    GmailMessage, GmailMessageHeader, GmailMessageId, GmailMessagePartBody, GmailMessagePayload,
};

#[test]
fn json_string_escapes() {
    assert_eq!(json_string("plain"), "\"plain\"");
    assert_eq!(json_string("a\"b\\c"), "\"a\\\"b\\\\c\"");
    assert_eq!(json_string("\u{8}\u{c}\n\r\t"), "\"\\b\\f\\n\\r\\t\"");
    assert_eq!(json_string("\u{1}\u{1f}\u{7f}é"), "\"\\u0001\\u001f\u{7f}é\"");
    for s in ["", "x\u{0}y", "line\nbreak", "quote\"", "ünïcödé ✓"] {
        assert_eq!(json_string(s), serde_json::to_string(s).unwrap());
    }
}

#[test]
fn json_arrays_and_objects() {
    assert_eq!(json_string_array(&[]), "[]");
    assert_eq!(json_string_array(&[String::from("a"), String::from("b")]), "[\"a\",\"b\"]");
    assert_eq!(json_object_of(&vec![]), "{}");
    assert_eq!(
        json_object_of(&vec![(String::from("k"), String::from("1")), (String::from("x\"y"), String::from("null"))]),
        "{\"k\":1,\"x\\\"y\":null}"
    );
}

#[test]
fn decimal_rendering() {
    assert_eq!(u64_decimal(0), "0");
    assert_eq!(u64_decimal(7), "7");
    assert_eq!(u64_decimal(1203), "1203");
    assert_eq!(u64_decimal(u64::MAX), u64::MAX.to_string());
}

#[test]
fn ascii_case_and_blanks() {
    assert!(eq_ignore_ascii_case("Content-Type", "content-TYPE"));
    assert!(!eq_ignore_ascii_case("ä", "Ä"));
    assert!(!eq_ignore_ascii_case("abc", "ab"));
    assert!(str_is_blank(""));
    assert!(str_is_blank(" \u{a0}\u{2028}"));
    assert!(!str_is_blank(" a "));
}

#[test]
fn message_json_form() {
    let payload = GmailMessagePayload {
        part_id: Some("0".into()),
        mime_type: Some("multipart/mixed".into()),
        body: Some(GmailMessagePartBody { attachment_id: None, size: 0, data: None }),
        filename: String::new(),
        headers: vec![GmailMessageHeader { name: "Subject".into(), value: "hi".into() }],
        parts: vec![GmailMessagePayload { filename: "a.txt".into(), ..Default::default() }],
    };
    let message = GmailMessage {
        id: "m1".into(),
        thread_id: Some("t1".into()),
        label_ids: vec!["INBOX".into()],
        internal_date: None,
        snippet: None,
        payload: Some(payload),
        raw: None,
        size_estimate: Some(1024),
        history_id: None,
    };
    assert_eq!(
        message.to_json(),
        "{\"id\":\"m1\",\"threadId\":\"t1\",\"labelIds\":[\"INBOX\"],\"internalDate\":null,\"snippet\":null,\"payload\":{\"partId\":\"0\",\"mimeType\":\"multipart/mixed\",\"body\":{\"attachmentId\":null,\"size\":0,\"data\":null},\"filename\":\"\",\"headers\":[{\"name\":\"Subject\",\"value\":\"hi\"}],\"parts\":[{\"partId\":null,\"mimeType\":null,\"body\":null,\"filename\":\"a.txt\",\"headers\":[],\"parts\":[]}]},\"raw\":null,\"sizeEstimate\":1024,\"historyId\":null}"
    );
    let id = GmailMessageId { id: "m1".into(), thread_id: None };
    assert_eq!(id.to_json(), "{\"id\":\"m1\",\"threadId\":null}");
}

#[test]
fn json_strings_read_back() {
    for s in ["", "a\"b", "\\", "\u{0}\u{1f}\u{7f}", "tab\there", "emoji 📨", "/slash/"] {
        let text = json_string(s);
        assert_eq!(serde_json::from_str::<String>(&text).unwrap(), s);
    }
}
