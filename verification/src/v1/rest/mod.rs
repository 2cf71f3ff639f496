//! Gmail REST API (`users.*`): each method is a file and each
//! sub-resource a module, mirroring the reference tree.

pub mod drafts;
pub mod get_profile;
pub mod history;
pub mod labels;
pub mod messages;
