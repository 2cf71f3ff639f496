//! Gmail labels (`users.labels`) of the first API.

mod types;
pub use types::{GmailLabel, GmailLabelColor, GmailLabelsListResponse};
