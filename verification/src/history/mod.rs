//! Gmail mailbox history (`users.history`) of the first API.

mod types;
pub use types::{GmailHistory, GmailHistoryLabel, GmailHistoryMessage};
