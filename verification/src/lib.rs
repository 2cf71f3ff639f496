//! I/O-free coroutines for the Gmail REST API.
//!
//! Each module mirrors a Gmail API resource; see the reference at
//! <https://developers.google.com/gmail/api/reference/rest>. A coroutine
//! is built from the request arguments, then resumed with the bytes read
//! from the stream until it completes with the response.

pub mod coroutine;
pub mod drafts;
pub mod history;
pub mod labels;
pub mod settings;
pub mod text;
pub mod v1;
