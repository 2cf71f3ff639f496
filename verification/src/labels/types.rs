//! Gmail label resource types of the first API, with plain-text enums.

use vstd::prelude::*;

verus! {

/// A Gmail label.
#[derive(Debug, Clone, PartialEq, Eq)]
pub struct GmailLabel {
    pub id: String,
    pub name: String,
    pub label_type: Option<String>,
    pub message_list_visibility: Option<String>,
    pub label_list_visibility: Option<String>,
    pub messages_total: Option<u64>,
    pub messages_unread: Option<u64>,
    pub threads_total: Option<u64>,
    pub threads_unread: Option<u64>,
    pub color: Option<GmailLabelColor>,
}

/// Text and background colors of a user label.
#[derive(Debug, Clone, Default, PartialEq, Eq)]
pub struct GmailLabelColor {
    pub text_color: Option<String>,
    pub background_color: Option<String>,
}

/// The labels of a mailbox.
#[derive(Debug, Clone, Default, PartialEq, Eq)]
pub struct GmailLabelsListResponse {
    pub labels: Vec<GmailLabel>,
}

} // verus!
