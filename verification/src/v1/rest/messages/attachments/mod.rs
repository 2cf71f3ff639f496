//! Gmail message attachments (`users.messages.attachments`).

pub mod get;
