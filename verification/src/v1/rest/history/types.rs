//! Gmail history resource types.

use vstd::prelude::*;
use vstd::string::*;

use crate::v1::rest::messages::GmailMessage;

verus! {

/// One history record: the changes of one mailbox transaction.
#[derive(Debug, Clone, PartialEq, Eq)]
pub struct GmailHistory {
    pub id: String,
    pub messages: Vec<GmailMessage>,
    pub messages_added: Vec<GmailHistoryMessage>,
    pub messages_deleted: Vec<GmailHistoryMessage>,
    pub labels_added: Vec<GmailHistoryLabel>,
    pub labels_removed: Vec<GmailHistoryLabel>,
}

/// A message added to or deleted from the mailbox.
#[derive(Debug, Clone, PartialEq, Eq)]
pub struct GmailHistoryMessage {
    pub message: GmailMessage,
}

/// Labels added to or removed from a message.
#[derive(Debug, Clone, PartialEq, Eq)]
pub struct GmailHistoryLabel {
    pub message: GmailMessage,
    pub label_ids: Vec<String>,
}

/// Kind of change to filter the history list on (`historyTypes`).
#[derive(Debug, Clone, Copy, PartialEq, Eq)]
pub enum GmailHistoryType {
    MessageAdded,
    MessageDeleted,
    LabelAdded,
    LabelRemoved,
}

/// Each kind of history record is asked for by the API's name for it, the kind
/// in camelCase, and distinct kinds by distinct names.
pub proof fn law_history_type_names(a: GmailHistoryType, b: GmailHistoryType)
    ensures
        a != b ==> a.name() != b.name(),
        (a == GmailHistoryType::MessageAdded) == (a.name() == "messageAdded"@),
        (a == GmailHistoryType::MessageDeleted) == (a.name() == "messageDeleted"@),
        (a == GmailHistoryType::LabelAdded) == (a.name() == "labelAdded"@),
        (a == GmailHistoryType::LabelRemoved) == (a.name() == "labelRemoved"@),
{
    reveal_strlit("messageAdded");
    assert("messageAdded"@ =~= seq!['m', 'e', 's', 's', 'a', 'g', 'e', 'A', 'd', 'd', 'e', 'd']);
    reveal_strlit("messageDeleted");
    assert("messageDeleted"@ =~= seq!['m', 'e', 's', 's', 'a', 'g', 'e', 'D', 'e', 'l', 'e', 't', 'e', 'd']);
    reveal_strlit("labelAdded");
    assert("labelAdded"@ =~= seq!['l', 'a', 'b', 'e', 'l', 'A', 'd', 'd', 'e', 'd']);
    reveal_strlit("labelRemoved");
    assert("labelRemoved"@ =~= seq!['l', 'a', 'b', 'e', 'l', 'R', 'e', 'm', 'o', 'v', 'e', 'd']);
}

impl GmailHistoryType {
    /// The query value of the kind.
    pub open spec fn name(self) -> Seq<char> {
        match self {
            GmailHistoryType::MessageAdded => "messageAdded"@,
            GmailHistoryType::MessageDeleted => "messageDeleted"@,
            GmailHistoryType::LabelAdded => "labelAdded"@,
            GmailHistoryType::LabelRemoved => "labelRemoved"@,
        }
    }

    /// The query value of the kind.
    pub fn as_str(self) -> (r: &'static str)
        ensures
            r@ == self.name(),
    {
        match self {
            GmailHistoryType::MessageAdded => "messageAdded",
            GmailHistoryType::MessageDeleted => "messageDeleted",
            GmailHistoryType::LabelAdded => "labelAdded",
            GmailHistoryType::LabelRemoved => "labelRemoved",
        }
    }
}

} // verus!
