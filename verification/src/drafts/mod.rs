//! Gmail drafts (`users.drafts`) of the first API: draft creation from
//! a raw RFC 5322 message.

mod types;
pub use types::GmailDraft;

pub mod create;
