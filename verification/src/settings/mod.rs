//! Gmail settings (`users.settings`): delegates and send-as aliases.

pub mod delegates;
pub mod sendas;
