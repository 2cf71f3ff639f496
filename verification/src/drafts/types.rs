//! Gmail draft resource of the first drafts API.

use vstd::prelude::*;

use crate::v1::rest::messages::GmailMessage;

verus! {

/// A draft: its id and its message.
#[derive(Debug, Clone, PartialEq, Eq)]
pub struct GmailDraft {
    pub id: String,
    pub message: Option<GmailMessage>,
}

} // verus!
