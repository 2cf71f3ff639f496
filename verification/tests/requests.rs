use io_gmail::drafts::create::GmailDraftCreate as GmailRawDraftCreate;
use io_gmail::settings::delegates::create::GmailDelegateCreate;
use io_gmail::settings::delegates::GmailDelegate;
use io_gmail::settings::sendas::verify::GmailSendAsVerify;
use io_gmail::v1::rest::drafts::create::GmailDraftCreate;
use io_gmail::v1::rest::drafts::delete::GmailDraftDelete;
use io_gmail::v1::rest::drafts::get::GmailDraftGet;
use io_gmail::v1::rest::drafts::list::{GmailDraftsList, GmailDraftsListParams};
use io_gmail::v1::rest::drafts::send::GmailDraftSend;
use io_gmail::v1::rest::drafts::update::GmailDraftUpdate;
use io_gmail::v1::rest::drafts::GmailDraft;
use io_gmail::v1::rest::get_profile::GmailProfileGet;
use io_gmail::v1::rest::history::list::{GmailHistoryList, GmailHistoryListParams};
use io_gmail::v1::rest::history::GmailHistoryType;
use io_gmail::v1::rest::labels::create::GmailLabelCreate;
use io_gmail::v1::rest::labels::list::GmailLabelsList;
use io_gmail::v1::rest::labels::update::GmailLabelUpdate;
use io_gmail::v1::rest::labels::{GmailLabel, GmailLabelColor, GmailLabelListVisibility, GmailLabelType};
use io_gmail::v1::rest::messages::attachments::get::GmailAttachmentGet;
use io_gmail::v1::rest::messages::batch_delete::GmailMessageBatchDelete;
use io_gmail::v1::rest::messages::batch_modify::GmailMessageBatchModify;
use io_gmail::v1::rest::messages::delete::GmailMessageDelete;
use io_gmail::v1::rest::messages::get::GmailMessageGet;
use io_gmail::v1::rest::messages::import::GmailMessageImport;
use io_gmail::v1::rest::messages::insert::GmailMessageInsert;
use io_gmail::v1::rest::messages::list::{GmailMessagesList, GmailMessagesListParams};
use io_gmail::v1::rest::messages::modify::GmailMessageModify;
use io_gmail::v1::rest::messages::send::GmailMessageSend;
use io_gmail::v1::rest::messages::trash::GmailMessageTrash;
use io_gmail::v1::rest::messages::untrash::GmailMessageUntrash;
use io_gmail::v1::rest::messages::{
    GmailInternalDateSource, GmailMessage, GmailMessageFormat, GmailMessageListVisibility,
};
use io_gmail::v1::send::{GmailAuth, GmailMethod, GmailRequest, GmailSendError};

fn pairs(list: &[(&str, &str)]) -> Vec<(String, String)> {
    list.iter().map(|(k, v)| (k.to_string(), v.to_string())).collect()
}

fn check(r: &GmailRequest, method: GmailMethod, path: &str, query: Option<&[(&str, &str)]>, json: Option<&str>) {
    assert_eq!(r.method, method);
    assert_eq!(r.path, path);
    assert_eq!(r.query, query.map(pairs));
    assert_eq!(r.json.as_deref(), json);
}

fn message(id: &str) -> GmailMessage {
    GmailMessage {
        id: id.into(),
        thread_id: None,
        label_ids: vec![],
        internal_date: None,
        snippet: None,
        payload: None,
        raw: None,
        size_estimate: None,
        history_id: None,
    }
}

const MESSAGE_M1: &str = "{\"id\":\"m1\",\"threadId\":null,\"labelIds\":[],\"internalDate\":null,\"snippet\":null,\"payload\":null,\"raw\":null,\"sizeEstimate\":null,\"historyId\":null}";

#[test]
fn profile_request() {
    check(&GmailProfileGet::request("me"), GmailMethod::Get, "users/me/profile", None, None);
}

#[test]
fn draft_requests() {
    check(&GmailDraftDelete::request("me", "d1"), GmailMethod::Delete, "users/me/drafts/d1", None, None);
    check(
        &GmailDraftGet::request("me", "d1", GmailMessageFormat::Full),
        GmailMethod::Get,
        "users/me/drafts/d1",
        Some(&[("format", "FULL")]),
        None,
    );
    let draft = GmailDraft { id: String::new(), message: Some(message("m1")) };
    let json = format!("{{\"message\":{MESSAGE_M1}}}");
    check(&GmailDraftCreate::request("me", &draft), GmailMethod::Post, "users/me/drafts", None, Some(&json));
    check(&GmailDraftSend::request("me", &draft), GmailMethod::Post, "users/me/drafts/send", None, Some(&json));
    let draft = GmailDraft { id: "d7".into(), message: None };
    check(
        &GmailDraftUpdate::request("me", &draft),
        GmailMethod::Put,
        "users/me/drafts/d7",
        None,
        Some("{\"id\":\"d7\"}"),
    );
}

#[test]
fn drafts_list_query() {
    let params = GmailDraftsListParams { q: Some("is:starred"), max_results: Some(20), page_token: None, include_spam_trash: true };
    check(
        &GmailDraftsList::request("me", &params),
        GmailMethod::Get,
        "users/me/drafts",
        Some(&[("q", "is:starred"), ("maxResults", "20"), ("includeSpamTrash", "true")]),
        None,
    );
    check(&GmailDraftsList::request("me", &GmailDraftsListParams::default()), GmailMethod::Get, "users/me/drafts", Some(&[]), None);
}

#[test]
fn history_list_query() {
    let types = [GmailHistoryType::MessageAdded, GmailHistoryType::LabelRemoved];
    let params = GmailHistoryListParams {
        start_history_id: "42",
        label_id: Some("INBOX"),
        history_types: &types,
        max_results: None,
        page_token: Some("p2"),
    };
    check(
        &GmailHistoryList::request("me", &params),
        GmailMethod::Get,
        "users/me/history",
        Some(&[
            ("startHistoryId", "42"),
            ("labelId", "INBOX"),
            ("historyTypes", "messageAdded"),
            ("historyTypes", "labelRemoved"),
            ("pageToken", "p2"),
        ]),
        None,
    );
}

#[test]
fn messages_list_query() {
    let labels = vec![String::from("INBOX"), String::from("UNREAD")];
    let params = GmailMessagesListParams {
        q: None,
        label_ids: &labels,
        max_results: Some(0),
        page_token: None,
        include_spam_trash: false,
    };
    check(
        &GmailMessagesList::request("me", &params),
        GmailMethod::Get,
        "users/me/messages",
        Some(&[("labelIds", "INBOX"), ("labelIds", "UNREAD"), ("maxResults", "0")]),
        None,
    );
}

#[test]
fn message_get_query() {
    check(
        &GmailMessageGet::request("me", "m1", GmailMessageFormat::Metadata, &["From", "Subject"]),
        GmailMethod::Get,
        "users/me/messages/m1",
        Some(&[("format", "METADATA"), ("metadataHeaders", "From"), ("metadataHeaders", "Subject")]),
        None,
    );
    check(
        &GmailMessageGet::request("me", "m1", GmailMessageFormat::Raw, &["From"]),
        GmailMethod::Get,
        "users/me/messages/m1",
        Some(&[("format", "RAW")]),
        None,
    );
}

#[test]
fn message_requests() {
    check(&GmailMessageDelete::request("me", "m1"), GmailMethod::Delete, "users/me/messages/m1", None, None);
    check(&GmailMessageTrash::request("me", "m1"), GmailMethod::Post, "users/me/messages/m1/trash", None, None);
    check(&GmailMessageUntrash::request("me", "m1"), GmailMethod::Post, "users/me/messages/m1/untrash", None, None);
    check(
        &GmailAttachmentGet::request("me", "m1", "a9"),
        GmailMethod::Get,
        "users/me/messages/m1/attachments/a9",
        None,
        None,
    );
    check(&GmailMessageSend::request("me", &message("m1")), GmailMethod::Post, "users/me/messages/send", None, Some(MESSAGE_M1));
    let ids = vec![String::from("a"), String::from("b")];
    check(
        &GmailMessageBatchDelete::request("me", &ids),
        GmailMethod::Post,
        "users/me/messages/batchDelete",
        None,
        Some("{\"ids\":[\"a\",\"b\"]}"),
    );
    let add = vec![String::from("STARRED")];
    check(
        &GmailMessageBatchModify::request("me", &ids, &add, &[]),
        GmailMethod::Post,
        "users/me/messages/batchModify",
        None,
        Some("{\"ids\":[\"a\",\"b\"],\"addLabelIds\":[\"STARRED\"],\"removeLabelIds\":[]}"),
    );
}

#[test]
fn modify_requires_a_label() {
    match GmailMessageModify::request("me", "m1", &[], &[]) {
        Err(GmailSendError::InvalidRequest(m)) => assert_eq!(m, "Modify requires at least one label update"),
        other => panic!("unexpected {other:?}"),
    }
    let auth = GmailAuth::new("tok");
    assert!(matches!(GmailMessageModify::new(&auth, "me", "m1", &[], &[]), Err(GmailSendError::InvalidRequest(_))));
    let remove = vec![String::from("UNREAD")];
    check(
        &GmailMessageModify::request("me", "m1", &[], &remove).unwrap(),
        GmailMethod::Post,
        "users/me/messages/m1/modify",
        None,
        Some("{\"addLabelIds\":[],\"removeLabelIds\":[\"UNREAD\"]}"),
    );
}

#[test]
fn import_query_and_body() {
    check(
        &GmailMessageImport::request("me", &message("m1"), Some(GmailInternalDateSource::DateHeader), true, false, true),
        GmailMethod::Post,
        "users/me/messages/import",
        Some(&[("internalDateSource", "dateHeader"), ("deleted", "true"), ("processForCalendar", "true")]),
        Some(MESSAGE_M1),
    );
    check(
        &GmailMessageImport::request("me", &message("m1"), None, false, false, false),
        GmailMethod::Post,
        "users/me/messages/import",
        Some(&[]),
        Some(MESSAGE_M1),
    );
}

#[test]
fn insert_encodes_raw() {
    let labels = vec![String::from("INBOX")];
    check(
        &GmailMessageInsert::request("me", b"Subject: hi\r\n\r\nbody", &labels),
        GmailMethod::Post,
        "users/me/messages",
        None,
        Some("{\"raw\":\"U3ViamVjdDogaGkNCg0KYm9keQ\",\"labelIds\":[\"INBOX\"]}"),
    );
    check(
        &GmailMessageInsert::request("me", b"\xfb\xff", &[]),
        GmailMethod::Post,
        "users/me/messages",
        None,
        Some("{\"raw\":\"-_8\"}"),
    );
}

#[test]
fn label_requests() {
    check(&GmailLabelsList::request("me"), GmailMethod::Get, "users/me/labels", None, None);
    check(
        &GmailLabelCreate::request("me", "Work").unwrap(),
        GmailMethod::Post,
        "users/me/labels",
        None,
        Some("{\"name\":\"Work\",\"labelListVisibility\":\"labelShow\",\"messageListVisibility\":\"show\"}"),
    );
    let label = GmailLabel {
        id: "Label_1".into(),
        name: "Work".into(),
        label_type: Some(GmailLabelType::User),
        message_list_visibility: Some(GmailMessageListVisibility::Hide),
        label_list_visibility: Some(GmailLabelListVisibility::LabelShowIfUnread),
        messages_total: Some(3),
        color: Some(GmailLabelColor { text_color: Some("#000000".into()), background_color: None }),
        ..Default::default()
    };
    check(
        &GmailLabelUpdate::request("me", &label).unwrap(),
        GmailMethod::Put,
        "users/me/labels/Label_1",
        None,
        Some("{\"id\":\"Label_1\",\"name\":\"Work\",\"type\":\"user\",\"messageListVisibility\":\"hide\",\"labelListVisibility\":\"labelShowIfUnread\",\"messagesTotal\":3,\"color\":{\"textColor\":\"#000000\"}}"),
    );
}

#[test]
fn blank_label_names_are_refused() {
    for name in ["", "   ", "\t\n", "\u{3000}"] {
        match GmailLabelCreate::request("me", name) {
            Err(GmailSendError::InvalidRequest(m)) => assert_eq!(m, "Label name cannot be empty"),
            other => panic!("unexpected {other:?}"),
        }
    }
    let label = GmailLabel { id: "L".into(), name: " ".into(), ..Default::default() };
    assert!(matches!(GmailLabelUpdate::request("me", &label), Err(GmailSendError::InvalidRequest(_))));
    let auth = GmailAuth::new("tok");
    assert!(matches!(GmailLabelCreate::new(&auth, "me", " "), Err(GmailSendError::InvalidRequest(_))));
    assert!(GmailLabelCreate::request("me", " x ").is_ok());
}

#[test]
fn first_api_requests() {
    check(
        &GmailRawDraftCreate::request("me", b"hello", Some("t1")),
        GmailMethod::Post,
        "users/me/drafts",
        None,
        Some("{\"message\":{\"raw\":\"aGVsbG8\",\"threadId\":\"t1\"}}"),
    );
    check(
        &GmailRawDraftCreate::request("me", b"hello", None),
        GmailMethod::Post,
        "users/me/drafts",
        None,
        Some("{\"message\":{\"raw\":\"aGVsbG8\"}}"),
    );
    let delegate = GmailDelegate { delegate_email: "a@b.c".into(), verification_status: None };
    check(
        &GmailDelegateCreate::request("me", delegate),
        GmailMethod::Post,
        "users/me/settings/delegates",
        None,
        Some("{\"delegateEmail\":\"a@b.c\"}"),
    );
    check(
        &GmailSendAsVerify::request("me", "alias@b.c"),
        GmailMethod::Post,
        "users/me/settings/sendAs/alias@b.c/verify",
        None,
        None,
    );
}

#[test]
fn constructors_resolve_urls() {
    let auth = GmailAuth::new("tok");
    assert!(GmailProfileGet::new(&auth, "me").is_ok());
    assert!(GmailMessageGet::new(&auth, "me", "m1", GmailMessageFormat::Minimal, &[]).is_ok());
    let labels = vec![String::from("INBOX")];
    assert!(GmailMessageInsert::new(&auth, "me", b"x", &labels).is_ok());
}
