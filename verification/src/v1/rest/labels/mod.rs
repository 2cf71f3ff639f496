//! Gmail labels (`users.labels`): list, create, update.

mod types;
pub use types::{
    label_color_json, label_fields, label_json, law_label_color_json, law_label_json,
    law_label_list_visibility_names, law_label_type_names, GmailLabel, GmailLabelColor,
    GmailLabelListVisibility, GmailLabelType, GmailLabelsListResponse,
};

pub mod create;
pub mod list;
pub mod update;
