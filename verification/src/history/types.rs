//! Gmail history resource types of the first API.

use vstd::prelude::*;

use crate::v1::rest::messages::GmailMessage;

verus! {

/// One history record: the changes of one mailbox transaction.
#[derive(Debug, Clone, PartialEq, Eq)]
pub struct GmailHistory {
    pub id: String,
    pub messages: Vec<GmailMessage>,
    pub messages_added: Vec<GmailHistoryMessage>,
    pub messages_deleted: Vec<GmailHistoryMessage>,
    pub labels_added: Vec<GmailHistoryLabel>,
    pub labels_removed: Vec<GmailHistoryLabel>,
}

/// A message added to or deleted from the mailbox.
#[derive(Debug, Clone, PartialEq, Eq)]
pub struct GmailHistoryMessage {
    pub message: GmailMessage,
}

/// Labels added to or removed from a message.
#[derive(Debug, Clone, PartialEq, Eq)]
pub struct GmailHistoryLabel {
    pub message: GmailMessage,
    pub label_ids: Vec<String>,
}

} // verus!
