//! Gmail send-as aliases (`users.settings.sendAs`).

pub mod verify;
