//! Gmail drafts (`users.drafts`): list, get, create, update, send, delete.

mod types;
pub use types::{draft_json, law_draft_json, GmailDraft};

pub mod create;
pub mod delete;
pub mod get;
pub mod list;
pub mod send;
pub mod update;
