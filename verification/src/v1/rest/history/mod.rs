//! Gmail mailbox history (`users.history`): the incremental-sync delta
//! since a given `historyId`.

mod types;
pub use types::{
    law_history_type_names, GmailHistory, GmailHistoryLabel, GmailHistoryMessage, GmailHistoryType,
};

pub mod list;
