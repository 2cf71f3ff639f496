//! Gmail messages (`users.messages`), including attachments
//! (`users.messages.attachments`).

mod types;
pub use types::{
    base64_url_decoded, base64_url_encoded, decode_raw, encode_raw, first_header, header_json, header_matches, law_header_append, law_header_json, law_header_lookup_ignores_case,
    law_internal_date_source_names, law_message_format_names, law_message_id_json, law_message_json_members,
    law_message_list_visibility_names, law_part_body_json, law_parts_in_order, law_payload_json,
    law_raw_ignores_space_and_padding,
    headers_json, is_base64_url_char, message_id_json, message_json, opt_part_body_json,
    opt_payload_json, part_body_json, payload_json, payloads_json, raw_normalized, trim_end_eq,
    without_ascii_space, GmailInternalDateSource, GmailMessage, GmailMessageFormat,
    GmailMessageHeader, GmailMessageId, GmailMessageListVisibility, GmailMessagePartBody,
    GmailMessagePayload,
};

pub mod attachments;
pub mod batch_delete;
pub mod batch_modify;
pub mod delete;
pub mod get;
pub mod import;
pub mod insert;
pub mod list;
pub mod modify;
pub mod send;
pub mod trash;
pub mod untrash;
