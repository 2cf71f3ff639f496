//! Gmail API v1.

pub mod connect;
pub mod http;
pub mod json;
pub mod query;
pub mod rest;
pub mod send;
