use io_gmail::coroutine::{GmailCoroutine, GmailCoroutineState, GmailYield};
use io_gmail::v1::rest::get_profile::GmailProfileGet;
use io_gmail::v1::rest::messages::modify::GmailMessageModify;
use io_gmail::v1::rest::messages::trash::GmailMessageTrash;
use io_gmail::v1::send::{GmailAuth, GmailSendError, GmailSendOutput};

fn auth() -> GmailAuth {
    GmailAuth::new("tok")
}

fn expect_write<C: GmailCoroutine<Yield = GmailYield>>(c: &mut C, arg: Option<&[u8]>) -> Vec<u8>
where
    C::Return: std::fmt::Debug,
{
    match c.resume(arg) {
        GmailCoroutineState::Yielded(GmailYield::WantsWrite(bytes)) => bytes,
        other => panic!("expected a write, got {other:?}"),
    }
}

fn expect_read<C: GmailCoroutine<Yield = GmailYield>>(c: &mut C, arg: Option<&[u8]>)
where
    C::Return: std::fmt::Debug,
{
    match c.resume(arg) {
        GmailCoroutineState::Yielded(GmailYield::WantsRead) => {}
        other => panic!("expected a read, got {other:?}"),
    }
}

fn complete<C>(c: &mut C, arg: Option<&[u8]>) -> Result<GmailSendOutput, GmailSendError>
where
    C: GmailCoroutine<Yield = GmailYield, Return = Result<GmailSendOutput, GmailSendError>>,
{
    match c.resume(arg) {
        GmailCoroutineState::Complete(r) => r,
        GmailCoroutineState::Yielded(y) => panic!("expected completion, got {y:?}"),
    }
}

#[test]
fn profile_get_writes_a_get_request() {
    let mut c = GmailProfileGet::new(&auth(), "me").unwrap();
    let bytes = expect_write(&mut c, None);
    assert_eq!(
        String::from_utf8(bytes).unwrap(),
        "GET /gmail/v1/users/me/profile HTTP/1.1\r\nhost: gmail.googleapis.com\r\nauthorization: Bearer tok\r\ncontent-length: 0\r\n\r\n"
    );
}

#[test]
fn the_token_is_sent_as_a_bearer_credential() {
    let mut c = GmailProfileGet::new(&GmailAuth::new("ya29.a-b_c"), "me").unwrap();
    let bytes = String::from_utf8(expect_write(&mut c, None)).unwrap();
    assert!(bytes.contains("\r\nauthorization: Bearer ya29.a-b_c\r\n"));
}

#[test]
fn trash_completes_with_the_response_body() {
    let mut c = GmailMessageTrash::new(&auth(), "me", "abc").unwrap();
    let bytes = expect_write(&mut c, None);
    assert_eq!(
        String::from_utf8(bytes).unwrap(),
        "POST /gmail/v1/users/me/messages/abc/trash HTTP/1.1\r\nhost: gmail.googleapis.com\r\nauthorization: Bearer tok\r\ncontent-length: 0\r\n\r\n"
    );
    expect_read(&mut c, None);
    let out = complete(
        &mut c,
        Some(b"HTTP/1.1 200 OK\r\nContent-Length: 12\r\n\r\n{\"id\":\"abc\"}"),
    )
    .unwrap();
    assert_eq!(out.status, 200);
    assert_eq!(out.body, b"{\"id\":\"abc\"}");
    assert!(out.keep_alive);
}

#[test]
fn modify_sends_a_json_body() {
    let add = vec![String::from("INBOX")];
    let mut c = GmailMessageModify::new(&auth(), "me", "m1", &add, &[]).unwrap();
    let bytes = expect_write(&mut c, None);
    let body = "{\"addLabelIds\":[\"INBOX\"],\"removeLabelIds\":[]}";
    assert_eq!(
        String::from_utf8(bytes).unwrap(),
        format!(
            "POST /gmail/v1/users/me/messages/m1/modify HTTP/1.1\r\nhost: gmail.googleapis.com\r\nauthorization: Bearer tok\r\ncontent-type: application/json\r\ncontent-length: {}\r\n\r\n{}",
            body.len(),
            body
        )
    );
}

#[test]
fn error_status_completes_with_status_error() {
    let mut c = GmailMessageTrash::new(&auth(), "me", "abc").unwrap();
    expect_write(&mut c, None);
    expect_read(&mut c, None);
    let err = complete(
        &mut c,
        Some(b"HTTP/1.1 404 Not Found\r\nContent-Length: 7\r\n\r\nmissing"),
    )
    .unwrap_err();
    match err {
        GmailSendError::Status { status, body } => {
            assert_eq!(status, 404);
            assert_eq!(body, b"missing");
        }
        other => panic!("expected a status error, got {other:?}"),
    }
}

#[test]
fn redirect_completes_with_redirect_error() {
    let mut c = GmailMessageTrash::new(&auth(), "me", "abc").unwrap();
    expect_write(&mut c, None);
    expect_read(&mut c, None);
    let err = complete(
        &mut c,
        Some(b"HTTP/1.1 301 Moved Permanently\r\nLocation: /elsewhere\r\nContent-Length: 0\r\n\r\n"),
    )
    .unwrap_err();
    match err {
        GmailSendError::Redirect { status, location } => {
            assert_eq!(status, 301);
            assert_eq!(location, "https://gmail.googleapis.com/elsewhere");
        }
        other => panic!("expected a redirect error, got {other:?}"),
    }
}

#[test]
fn resume_after_completion_is_finished() {
    let mut c = GmailMessageTrash::new(&auth(), "me", "abc").unwrap();
    expect_write(&mut c, None);
    expect_read(&mut c, None);
    complete(&mut c, Some(b"HTTP/1.1 204 No Content\r\n\r\n")).unwrap();
    assert!(matches!(complete(&mut c, None), Err(GmailSendError::Finished)));
    assert!(matches!(complete(&mut c, Some(b"x")), Err(GmailSendError::Finished)));
}

#[test]
fn body_arriving_in_pieces_needs_more_reads() {
    let mut c = GmailProfileGet::new(&auth(), "me").unwrap();
    expect_write(&mut c, None);
    expect_read(&mut c, None);
    expect_read(&mut c, Some(b"HTTP/1.1 200 OK\r\nContent-Length: 4\r\n\r\nab"));
    let out = complete(&mut c, Some(b"cd")).unwrap();
    assert_eq!(out.body, b"abcd");
}

#[test]
fn chunked_body_is_joined() {
    let mut c = GmailProfileGet::new(&auth(), "me").unwrap();
    expect_write(&mut c, None);
    expect_read(&mut c, None);
    let out = complete(
        &mut c,
        Some(b"HTTP/1.1 200 OK\r\nTransfer-Encoding: chunked\r\n\r\n3\r\n{\"a\r\n2\r\n\":\r\n3\r\n1}\n\r\n0\r\n\r\n"),
    )
    .unwrap();
    assert_eq!(out.body, b"{\"a\":1}\n");
}

#[test]
fn largest_chunk_size_stops_the_exchange() {
    let mut c = GmailProfileGet::new(&auth(), "me").unwrap();
    expect_write(&mut c, None);
    expect_read(&mut c, None);
    let r = complete(
        &mut c,
        Some(b"HTTP/1.1 200 OK\r\nTransfer-Encoding: chunked\r\n\r\nffffffffffffffff\r\nx"),
    );
    assert!(matches!(r, Err(GmailSendError::ChunkSizeOverflow)));
    assert!(matches!(complete(&mut c, None), Err(GmailSendError::Finished)));
}

#[test]
fn chunk_size_split_across_reads_is_caught() {
    let mut c = GmailProfileGet::new(&auth(), "me").unwrap();
    expect_write(&mut c, None);
    expect_read(&mut c, None);
    expect_read(&mut c, Some(b"HTTP/1.1 200 OK\r\nTransfer-Encoding: chunked\r\n\r\nFFFFFFFFff"));
    let r = complete(&mut c, Some(b"fffffE\r\nx"));
    assert!(matches!(r, Err(GmailSendError::ChunkSizeOverflow)));
}

#[test]
fn a_shorter_run_of_f_is_no_numeral() {
    let mut c = GmailProfileGet::new(&auth(), "me").unwrap();
    expect_write(&mut c, None);
    expect_read(&mut c, None);
    let out = complete(&mut c, Some(b"HTTP/1.1 200 OK\r\nContent-Length: 16\r\n\r\nfffffffffffffffa")).unwrap();
    assert_eq!(out.body, b"fffffffffffffffa");
}

#[test]
fn truncated_response_fails() {
    let mut c = GmailProfileGet::new(&auth(), "me").unwrap();
    expect_write(&mut c, None);
    expect_read(&mut c, None);
    assert!(matches!(complete(&mut c, Some(b"")), Err(GmailSendError::Http(_))));
}

use io_gmail::v1::rest::drafts::list::{GmailDraftsList, GmailDraftsListParams};
use io_gmail::v1::rest::messages::get::GmailMessageGet;
use io_gmail::v1::rest::messages::list::{GmailMessagesList, GmailMessagesListParams};
use io_gmail::v1::rest::messages::GmailMessageFormat;

fn request_line(bytes: &[u8]) -> String {
    let text = String::from_utf8(bytes.to_vec()).unwrap();
    text.split("\r\n").next().unwrap().to_string()
}

#[test]
fn query_pairs_are_form_urlencoded() {
    let labels = vec![String::from("INBOX")];
    let params = GmailMessagesListParams {
        q: Some("from:a b"),
        label_ids: &labels,
        max_results: Some(5),
        page_token: None,
        include_spam_trash: true,
    };
    let mut c = GmailMessagesList::new(&auth(), "me", &params).unwrap();
    assert_eq!(
        request_line(&expect_write(&mut c, None)),
        "GET /gmail/v1/users/me/messages?q=from%3Aa+b&labelIds=INBOX&maxResults=5&includeSpamTrash=true HTTP/1.1"
    );
}

#[test]
fn metadata_headers_go_in_the_query() {
    let mut c = GmailMessageGet::new(&auth(), "me", "m1", GmailMessageFormat::Metadata, &["From", "Subject"]).unwrap();
    assert_eq!(
        request_line(&expect_write(&mut c, None)),
        "GET /gmail/v1/users/me/messages/m1?format=METADATA&metadataHeaders=From&metadataHeaders=Subject HTTP/1.1"
    );
}

#[test]
fn empty_list_query_leaves_a_bare_question_mark() {
    let mut c = GmailDraftsList::new(&auth(), "me", &GmailDraftsListParams::default()).unwrap();
    assert_eq!(request_line(&expect_write(&mut c, None)), "GET /gmail/v1/users/me/drafts? HTTP/1.1");
}

#[test]
fn user_ids_are_resolved_as_url_paths() {
    let mut c = GmailProfileGet::new(&auth(), "a b").unwrap();
    assert_eq!(request_line(&expect_write(&mut c, None)), "GET /gmail/v1/users/a%20b/profile HTTP/1.1");
}
