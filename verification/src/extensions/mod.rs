//! What optional features add to requests and responses.

pub mod cookies;
pub mod session;
